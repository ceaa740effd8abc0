//! What the broker does with a request, as steps between which the caller does
//! the work outside: reading the policy file and running programs.
use vstd::prelude::*;
use crate::error::{message_of, BrokerError, ErrorView};
use crate::normalize::{normalize_command, normalized};
use crate::output::{
    comes_back, kept, lemma_limited, limited_response_of, noted, reads_back, response, response_of, response_with_limit,
    true_to, utf8_lossy, OutputView, ProcessOutput,
};
use crate::policy::{
    command_max_output, command_timeout, granted_output, granted_timeout, law_output_is_bounded, loaded,
    output_limit, timeout_limit, PolicyFile, PolicyFileView,
};
use crate::protocol::{
    failure, opt_text, success, viewed, AdminOperation, AdminRequest, AdminResponse,
    OperationView, RequestView, ResponseView,
};
use crate::text::{
    blank, decimal, decimal_text, is_blank, is_white, lemma_white_numbers, texts, white_numbers,
};
use crate::whitelist::{validate_command, validated};

verus! {

// ---------------------------------------------------------------------------
// Programs
// ---------------------------------------------------------------------------

/// A program to run.
#[derive(Debug)]
pub struct Invocation {
    pub program: String,
    pub args: Vec<String>,
    /// The directory to run in, where it is not the broker's own.
    pub cwd: Option<String>,
}

/// An [`Invocation`], with texts as sequences of characters.
pub struct InvocationView {
    pub program: Seq<char>,
    pub args: Seq<Seq<char>>,
    pub cwd: Option<Seq<char>>,
}

impl View for Invocation {
    type V = InvocationView;

    open spec fn view(&self) -> InvocationView {
        InvocationView {
            program: self.program@,
            args: texts(self.args@),
            cwd: opt_text(self.cwd),
        }
    }
}

/// PowerShell, run on a script.
pub open spec fn powershell(script: Seq<char>, cwd: Option<Seq<char>>) -> InvocationView {
    InvocationView {
        program: "powershell.exe"@,
        args: seq!["-NoProfile"@, "-ExecutionPolicy"@, "Bypass"@, "-Command"@, script],
        cwd,
    }
}

/// A directory to run in, unless it is blank.
pub open spec fn usable(cwd: Option<Seq<char>>) -> Option<Seq<char>> {
    match cwd {
        Some(dir) if !blank(dir) => Some(dir),
        _ => None,
    }
}

/// Runs PowerShell on a script.
pub fn ps(script: &str, cwd: Option<String>) -> (r: Invocation)
    ensures
        r@ == powershell(script@, opt_text(cwd)),
{
    let mut args: Vec<String> = Vec::new();
    args.push("-NoProfile".to_owned());
    args.push("-ExecutionPolicy".to_owned());
    args.push("Bypass".to_owned());
    args.push("-Command".to_owned());
    args.push(script.to_owned());
    assert(texts(args@) =~= powershell(script@, opt_text(cwd)).args);
    Invocation { program: "powershell.exe".to_owned(), args, cwd }
}

// ---------------------------------------------------------------------------
// Steps
// ---------------------------------------------------------------------------

/// What the caller is to do next for a request.
pub enum Step {
    /// Answer: the request is done.
    Respond(AdminResponse),
    /// Run a program to its end, and go on with [`program_finished`].
    RunProgram(Invocation),
    /// Read the policy file, and go on with [`PolicyWait::resume`].
    ReadPolicy(PolicyWait),
    /// Run a command, and go on with [`CommandRun::finish`].
    Execute(CommandRun),
}

/// What a command waits for the policy file for.
enum Stage {
    Whitelist,
    Timeout,
    Output { timeout: u64 },
}

/// A command that waits for the policy file.
pub struct PolicyWait {
    command: String,
    cwd: Option<String>,
    timeout_seconds: Option<u64>,
    max_output_bytes: Option<usize>,
    stage: Stage,
}

/// A command that may run, and under which limits.
pub struct CommandRun {
    command: String,
    cwd: Option<String>,
    timeout: u64,
    max_output: usize,
}

/// A [`Step`], with texts as sequences of characters.
pub enum StepView {
    Respond(ResponseView),
    RunProgram(InvocationView),
    ReadPolicy(WaitView),
    Execute(RunView),
}

/// What a command waits for the policy file for: to be checked against the
/// whitelist; then for its timeout; then for the limit of its output.
pub enum StageView {
    Whitelist,
    Timeout,
    Output { timeout: int },
}

/// A [`PolicyWait`], with texts as sequences of characters.
pub struct WaitView {
    pub command: Seq<char>,
    pub cwd: Option<Seq<char>>,
    pub timeout_seconds: Option<u64>,
    pub max_output_bytes: Option<usize>,
    pub stage: StageView,
}

/// A [`CommandRun`], with texts as sequences of characters.
pub struct RunView {
    pub command: Seq<char>,
    pub cwd: Option<Seq<char>>,
    pub timeout: int,
    pub max_output: int,
}

impl View for PolicyWait {
    type V = WaitView;

    closed spec fn view(&self) -> WaitView {
        WaitView {
            command: self.command@,
            cwd: opt_text(self.cwd),
            timeout_seconds: self.timeout_seconds,
            max_output_bytes: self.max_output_bytes,
            stage: match self.stage {
                Stage::Whitelist => StageView::Whitelist,
                Stage::Timeout => StageView::Timeout,
                Stage::Output { timeout } => StageView::Output { timeout: timeout as int },
            },
        }
    }
}

impl View for CommandRun {
    type V = RunView;

    closed spec fn view(&self) -> RunView {
        RunView {
            command: self.command@,
            cwd: opt_text(self.cwd),
            timeout: self.timeout as int,
            max_output: self.max_output as int,
        }
    }
}

impl View for Step {
    type V = StepView;

    open spec fn view(&self) -> StepView {
        match *self {
            Step::Respond(r) => StepView::Respond(r@),
            Step::RunProgram(i) => StepView::RunProgram(i@),
            Step::ReadPolicy(w) => StepView::ReadPolicy(w@),
            Step::Execute(c) => StepView::Execute(c@),
        }
    }
}

/// The step that ends a request with an error.
pub open spec fn refused(e: ErrorView) -> StepView {
    StepView::Respond(failure(message_of(e)))
}

fn refuse(e: BrokerError) -> (r: Step)
    ensures
        r@ == refused(e@),
{
    Step::Respond(AdminResponse::err(e.message()))
}

// ---------------------------------------------------------------------------
// The start of a request
// ---------------------------------------------------------------------------

/// The first step of a request: none is carried out without a reason.
pub open spec fn handled(req: RequestView) -> StepView {
    if blank(req.reason) {
        StepView::Respond(failure("reason is required"@))
    } else {
        started(req.operation)
    }
}

/// The first step of an operation.
pub open spec fn started(op: OperationView) -> StepView {
    match op {
        OperationView::Ping => StepView::Respond(success("pong"@)),
        OperationView::GetStatus => StepView::RunProgram(
            powershell("$PSVersionTable.PSVersion.ToString()"@, None),
        ),
        OperationView::RunCommand { command, cwd, timeout_seconds, max_output_bytes } => {
            command_started(command, cwd, timeout_seconds, max_output_bytes)
        },
    }
}

/// The first step of a command: a blank one is refused at once.
pub open spec fn command_started(
    command: Seq<char>,
    cwd: Option<Seq<char>>,
    timeout_seconds: Option<u64>,
    max_output_bytes: Option<usize>,
) -> StepView {
    if normalized(command).len() == 0 {
        refused(ErrorView::CommandRequired)
    } else {
        StepView::ReadPolicy(
            WaitView {
                command,
                cwd,
                timeout_seconds,
                max_output_bytes,
                stage: StageView::Whitelist,
            },
        )
    }
}

/// Starts on a request.
pub fn handle_request(req: AdminRequest) -> (r: Step)
    ensures
        r@ == handled(req@),
{
    if is_blank(req.reason.as_str()) {
        return Step::Respond(AdminResponse::err("reason is required"));
    }
    run(req.operation)
}

/// Starts on an operation.
pub fn run(op: AdminOperation) -> (r: Step)
    ensures
        r@ == started(op@),
{
    match op {
        AdminOperation::Ping => Step::Respond(AdminResponse::ok("pong")),
        AdminOperation::GetStatus => Step::RunProgram(
            ps("$PSVersionTable.PSVersion.ToString()", None),
        ),
        AdminOperation::RunCommand { command, cwd, timeout_seconds, max_output_bytes } => {
            run_command(command, cwd, timeout_seconds, max_output_bytes)
        },
    }
}

/// Starts on a command.
pub fn run_command(
    command: String,
    cwd: Option<String>,
    timeout_seconds: Option<u64>,
    max_output_bytes: Option<usize>,
) -> (r: Step)
    ensures
        r@ == command_started(command@, opt_text(cwd), timeout_seconds, max_output_bytes),
{
    if normalize_command(command.as_str()).as_str().is_empty() {
        return refuse(BrokerError::CommandRequired);
    }
    Step::ReadPolicy(
        PolicyWait { command, cwd, timeout_seconds, max_output_bytes, stage: Stage::Whitelist },
    )
}

// ---------------------------------------------------------------------------
// The policy
// ---------------------------------------------------------------------------

/// The step after the policy file was read. It is read anew for each of the
/// three things that it decides.
pub open spec fn resumed(wait: WaitView, file: PolicyFileView) -> StepView {
    match wait.stage {
        StageView::Whitelist => match validated(wait.command, file) {
            Ok(_) => StepView::ReadPolicy(WaitView { stage: StageView::Timeout, ..wait }),
            Err(e) => refused(e),
        },
        StageView::Timeout => match loaded(file) {
            Ok(policy) => StepView::ReadPolicy(
                WaitView {
                    stage: StageView::Output {
                        timeout: granted_timeout(policy, wait.timeout_seconds),
                    },
                    ..wait
                },
            ),
            Err(e) => refused(e),
        },
        StageView::Output { timeout } => match loaded(file) {
            Ok(policy) => StepView::Execute(
                RunView {
                    command: wait.command,
                    cwd: usable(wait.cwd),
                    timeout,
                    max_output: granted_output(policy, wait.max_output_bytes),
                },
            ),
            Err(e) => refused(e),
        },
    }
}

impl PolicyWait {
    /// Goes on once the policy file was read.
    pub fn resume(self, file: PolicyFile) -> (r: Step)
        ensures
            r@ == resumed(self@, file@),
    {
        let PolicyWait { command, cwd, timeout_seconds, max_output_bytes, stage } = self;
        match stage {
            Stage::Whitelist => match validate_command(command.as_str(), file) {
                Ok(_) => Step::ReadPolicy(
                    PolicyWait {
                        command,
                        cwd,
                        timeout_seconds,
                        max_output_bytes,
                        stage: Stage::Timeout,
                    },
                ),
                Err(e) => refuse(e),
            },
            Stage::Timeout => match command_timeout(file, timeout_seconds) {
                Ok(timeout) => Step::ReadPolicy(
                    PolicyWait {
                        command,
                        cwd,
                        timeout_seconds,
                        max_output_bytes,
                        stage: Stage::Output { timeout },
                    },
                ),
                Err(e) => refuse(e),
            },
            Stage::Output { timeout } => match command_max_output(file, max_output_bytes) {
                Ok(max_output) => Step::Execute(
                    CommandRun { command, cwd: usable_cwd(cwd), timeout, max_output },
                ),
                Err(e) => refuse(e),
            },
        }
    }
}

/// Leaves out a directory that is blank.
fn usable_cwd(cwd: Option<String>) -> (r: Option<String>)
    ensures
        opt_text(r) == usable(opt_text(cwd)),
{
    match cwd {
        Some(dir) => if is_blank(dir.as_str()) {
            None
        } else {
            Some(dir)
        },
        None => None,
    }
}

// ---------------------------------------------------------------------------
// The end of a request
// ---------------------------------------------------------------------------

/// The answer once a program came to its end, or could not be run.
pub open spec fn program_answer(
    program: Seq<char>,
    result: Result<OutputView, Seq<char>>,
) -> ResponseView {
    match result {
        Ok(out) => response_of(out),
        Err(cause) => failure(message_of(ErrorView::ProgramFailed { program, cause })),
    }
}

/// Answers once a program came to its end, or could not be run. Output that is
/// valid UTF-8 comes back unchanged.
pub fn program_finished(invocation: Invocation, result: Result<ProcessOutput, String>) -> (r:
    AdminResponse)
    ensures
        r@ == program_answer(invocation@.program, viewed(result)),
        result matches Ok(out) ==> true_to(out@.stdout, r@.stdout) && true_to(
            out@.stderr,
            r@.stderr,
        ),
{
    match result {
        Ok(out) => response(out),
        Err(cause) => {
            let e = BrokerError::ProgramFailed { program: invocation.program, cause };
            AdminResponse::err(e.message())
        },
    }
}

/// What came of running a command.
#[derive(Debug)]
pub enum CommandOutcome {
    /// Nothing could be set up to wait for it.
    RuntimeFailed { cause: String },
    /// It could not be started.
    StartFailed { cause: String },
    /// Its output could not be read.
    OutputFailed { cause: String },
    /// It did not end in time.
    TimedOut,
    /// It ended.
    Finished(ProcessOutput),
}

/// A [`CommandOutcome`], with texts and outputs as sequences.
pub enum CommandOutcomeView {
    RuntimeFailed { cause: Seq<char> },
    StartFailed { cause: Seq<char> },
    OutputFailed { cause: Seq<char> },
    TimedOut,
    Finished(OutputView),
}

impl View for CommandOutcome {
    type V = CommandOutcomeView;

    open spec fn view(&self) -> CommandOutcomeView {
        match *self {
            CommandOutcome::RuntimeFailed { cause } => CommandOutcomeView::RuntimeFailed {
                cause: cause@,
            },
            CommandOutcome::StartFailed { cause } => CommandOutcomeView::StartFailed {
                cause: cause@,
            },
            CommandOutcome::OutputFailed { cause } => CommandOutcomeView::OutputFailed {
                cause: cause@,
            },
            CommandOutcome::TimedOut => CommandOutcomeView::TimedOut,
            CommandOutcome::Finished(out) => CommandOutcomeView::Finished(out@),
        }
    }
}

/// The answer once a command was run.
pub open spec fn command_answer(run: RunView, outcome: CommandOutcomeView) -> ResponseView {
    match outcome {
        CommandOutcomeView::RuntimeFailed { cause } => failure(
            message_of(ErrorView::RuntimeFailed { cause }),
        ),
        CommandOutcomeView::StartFailed { cause } => failure(
            message_of(ErrorView::CommandFailed { command: run.command, cause }),
        ),
        CommandOutcomeView::OutputFailed { cause } => failure(
            message_of(ErrorView::OutputFailed { cause }),
        ),
        CommandOutcomeView::TimedOut => failure(
            "command timed out after "@ + decimal(run.timeout as nat) + " seconds"@,
        ),
        CommandOutcomeView::Finished(out) => limited_response_of(out, run.max_output as nat),
    }
}

impl CommandRun {
    /// The program to run for the command.
    pub fn invocation(&self) -> (r: Invocation)
        ensures
            r@ == powershell(self@.command, self@.cwd),
    {
        let cwd = match &self.cwd {
            Some(dir) => Some(dir.as_str().to_owned()),
            None => None,
        };
        ps(self.command.as_str(), cwd)
    }

    /// How many seconds the command may run.
    pub fn timeout_seconds(&self) -> (r: u64)
        ensures
            r == self@.timeout,
    {
        self.timeout
    }

    /// Answers once the command was run. Output that is valid UTF-8 as far as
    /// it comes back does so unchanged.
    pub fn finish(self, outcome: CommandOutcome) -> (r: AdminResponse)
        ensures
            r@ == command_answer(self@, outcome@),
            outcome@ matches CommandOutcomeView::Finished(out) ==> {
                &&& reads_back(out.stdout, self@.max_output as nat, "stdout"@, r@.stdout)
                &&& reads_back(out.stderr, self@.max_output as nat, "stderr"@, r@.stderr)
            },
    {
        match outcome {
            CommandOutcome::RuntimeFailed { cause } => AdminResponse::err(
                BrokerError::RuntimeFailed { cause }.message(),
            ),
            CommandOutcome::StartFailed { cause } => AdminResponse::err(
                BrokerError::CommandFailed { command: self.command, cause }.message(),
            ),
            CommandOutcome::OutputFailed { cause } => AdminResponse::err(
                BrokerError::OutputFailed { cause }.message(),
            ),
            CommandOutcome::TimedOut => {
                let mut message = "command timed out after ".to_owned();
                message.append(decimal_text(self.timeout).as_str());
                message.append(" seconds");
                AdminResponse::err(message)
            },
            CommandOutcome::Finished(out) => response_with_limit(out, self.max_output),
        }
    }
}

// ---------------------------------------------------------------------------
// Laws
// ---------------------------------------------------------------------------

/// A step after the policy file was read once more, where it waits for that.
pub open spec fn after_policy(step: StepView, file: PolicyFileView) -> StepView {
    match step {
        StepView::ReadPolicy(wait) => resumed(wait, file),
        other => other,
    }
}

/// Where a request stands after the policy file was read as often as it asks
/// for it, given what was read each time.
pub open spec fn decided(
    req: RequestView,
    first: PolicyFileView,
    second: PolicyFileView,
    third: PolicyFileView,
) -> StepView {
    after_policy(after_policy(after_policy(handled(req), first), second), third)
}

/// A request without a reason is answered with an error, and nothing is run or
/// read for it.
pub proof fn law_no_reason_no_action(req: RequestView)
    requires
        blank(req.reason),
    ensures
        handled(req) == StepView::Respond(failure("reason is required"@)),
{
}

/// Three readings of the policy file settle every request: it is then answered,
/// runs its status program, or executes its command.
pub proof fn law_policy_is_read_at_most_thrice(
    req: RequestView,
    first: PolicyFileView,
    second: PolicyFileView,
    third: PolicyFileView,
)
    ensures
        !(decided(req, first, second, third) is ReadPolicy),
{
}

/// A command is executed only if a request with a reason asks for exactly it,
/// and the whitelist lets it pass; and then with a timeout and an output limit
/// as the policy grants them.
pub proof fn law_only_whitelisted_commands_run(
    req: RequestView,
    first: PolicyFileView,
    second: PolicyFileView,
    third: PolicyFileView,
)
    requires
        decided(req, first, second, third) is Execute,
    ensures
        !blank(req.reason),
        req.operation is RunCommand,
        ({
            let run = decided(req, first, second, third)->Execute_0;
            let op = req.operation;
            &&& run.command == op->command
            &&& run.cwd == usable(op->cwd)
            &&& validated(run.command, first) is Ok
            &&& loaded(second) matches Ok(policy) && {
                &&& run.timeout == granted_timeout(policy, op->timeout_seconds)
                &&& 1 <= run.timeout <= timeout_limit(policy)
            }
            &&& loaded(third) matches Ok(policy) && {
                &&& run.max_output == granted_output(policy, op->max_output_bytes)
                &&& 1 <= run.max_output <= output_limit(policy)
            }
        }),
{
}

/// A command that a request with a reason asks for, that the whitelist lets
/// pass, and for which the policy stays readable is executed.
pub proof fn law_whitelisted_commands_run(
    req: RequestView,
    first: PolicyFileView,
    second: PolicyFileView,
    third: PolicyFileView,
)
    requires
        !blank(req.reason),
        req.operation is RunCommand,
        validated(req.operation->command, first) is Ok,
        loaded(second) is Ok,
        loaded(third) is Ok,
    ensures
        decided(req, first, second, third) is Execute,
{
}

/// A command that does not pass the whitelist is answered with the verdict on
/// it: a failure without exit code and without output.
pub proof fn law_refused_commands_are_answered(
    req: RequestView,
    first: PolicyFileView,
    second: PolicyFileView,
    third: PolicyFileView,
)
    requires
        !blank(req.reason),
        req.operation is RunCommand,
        validated(req.operation->command, first) is Err,
    ensures
        decided(req, first, second, third) == StepView::Respond(
            failure(message_of(validated(req.operation->command, first)->Err_0)),
        ),
{
}

/// Only a command of a request can have the policy file read; a ping is
/// answered, and a status is asked of PowerShell, without it.
pub proof fn law_ping_and_status_need_no_policy(
    req: RequestView,
    first: PolicyFileView,
    second: PolicyFileView,
    third: PolicyFileView,
)
    requires
        !blank(req.reason),
        !(req.operation is RunCommand),
    ensures
        decided(req, first, second, third) == handled(req),
        req.operation is Ping ==> handled(req) == StepView::Respond(success("pong"@)),
        req.operation is GetStatus ==> handled(req) is RunProgram,
{
}

/// Of each output of a command that was executed no more bytes come back than
/// the policy grants, and never more than a hundred million; where there were
/// more, a notice says so.
pub proof fn law_command_output_is_limited(
    req: RequestView,
    first: PolicyFileView,
    second: PolicyFileView,
    third: PolicyFileView,
    out: OutputView,
)
    requires
        decided(req, first, second, third) is Execute,
    ensures
        ({
            let run = decided(req, first, second, third)->Execute_0;
            let answer = command_answer(run, CommandOutcomeView::Finished(out));
            let max = run.max_output as nat;
            &&& max <= output_limit(loaded(third)->Ok_0) <= 100_000_000
            &&& kept(out.stdout, max as int).len() <= max
            &&& kept(out.stderr, max as int).len() <= max
            &&& answer.stdout == noted(
                utf8_lossy(kept(out.stdout, max as int)),
                "stdout"@,
                max,
                out.stdout.len(),
            )
            &&& answer.stderr == noted(
                utf8_lossy(kept(out.stderr, max as int)),
                "stderr"@,
                max,
                out.stderr.len(),
            )
        }),
{
    law_only_whitelisted_commands_run(req, first, second, third);
    law_output_is_bounded(loaded(third)->Ok_0, req.operation->max_output_bytes);
}

/// A command is never answered as a success unless it ran to its end and was
/// one.
pub proof fn law_success_only_when_finished(run: RunView, outcome: CommandOutcomeView)
    requires
        command_answer(run, outcome).ok,
    ensures
        outcome matches CommandOutcomeView::Finished(out) && out.success,
{
}

/// `inv` runs PowerShell on `script`: its five arguments end in the script, and
/// none of them is taken from anywhere else.
pub open spec fn runs_script(inv: Invocation, script: Seq<char>) -> bool {
    &&& inv.program@ == "powershell.exe"@
    &&& inv.args@.len() == 5
    &&& inv.args@[0]@ == "-NoProfile"@
    &&& inv.args@[1]@ == "-ExecutionPolicy"@
    &&& inv.args@[2]@ == "Bypass"@
    &&& inv.args@[3]@ == "-Command"@
    &&& inv.args@[4]@ == script
}

/// What runs PowerShell has the arguments of the script.
proof fn lemma_runs_script(inv: Invocation, script: Seq<char>, cwd: Option<Seq<char>>)
    requires
        inv@ == powershell(script, cwd),
    ensures
        runs_script(inv, script),
        opt_text(inv.cwd) == cwd,
{
    let args = texts(inv.args@);
    assert(args.len() == inv.args@.len());
    assert(args[0] == inv.args@[0]@ && args[1] == inv.args@[1]@ && args[2] == inv.args@[2]@);
    assert(args[3] == inv.args@[3]@ && args[4] == inv.args@[4]@);
}

/// PowerShell is run on the script that is given, in the directory that is
/// given.
pub proof fn law_ps(script: &str, cwd: Option<String>, inv: Invocation)
    requires
        call_ensures(ps, (script, cwd), inv),
    ensures
        runs_script(inv, script@),
        cwd matches Some(dir) ==> inv.cwd matches Some(there) && there@ == dir@,
        cwd is None ==> inv.cwd is None,
{
    lemma_runs_script(inv, script@, opt_text(cwd));
}

/// Whatever the directory, PowerShell gets five arguments, of which the fourth
/// says that a command follows and the last is the script; the directory changes
/// none of them, and the script does not change the directory.
pub proof fn law_arguments_ignore_the_directory(
    script: Seq<char>,
    cwd: Option<Seq<char>>,
    elsewhere: Option<Seq<char>>,
)
    ensures
        powershell(script, cwd).args == powershell(script, elsewhere).args,
        powershell(script, cwd).args.len() == 5,
        powershell(script, cwd).args[3] == "-Command"@,
        powershell(script, cwd).args[4] == script,
        powershell(script, cwd).program == "powershell.exe"@,
        powershell(script, cwd).cwd == cwd,
{
}

/// A command that may run is run by PowerShell, as it is and where it is to be.
pub proof fn law_invocation(run: &CommandRun, inv: Invocation, seconds: u64)
    requires
        call_ensures(CommandRun::invocation, (run,), inv),
        call_ensures(CommandRun::timeout_seconds, (run,), seconds),
    ensures
        runs_script(inv, run@.command),
        opt_text(inv.cwd) == run@.cwd,
        seconds == run@.timeout,
{
    lemma_runs_script(inv, run@.command, run@.cwd);
}

/// `answer` is a failure with `message`, and with nothing else in it.
pub open spec fn fails_with(answer: AdminResponse, message: Seq<char>) -> bool {
    &&& !answer.ok
    &&& answer.exit_code is None
    &&& answer.stdout@.len() == 0
    &&& answer.stderr@ == message
}

/// A request whose reason is all white space is answered that one is required;
/// any other goes on as its operation does.
pub proof fn law_handle_request(req: AdminRequest, r: Step, of_operation: Step)
    requires
        call_ensures(handle_request, (req,), r),
        call_ensures(run, (req.operation,), of_operation),
    ensures
        (forall|i: int| 0 <= i < req.reason@.len() ==> white_numbers().contains(
            #[trigger] req.reason@[i] as u32,
        )) ==> (r matches Step::Respond(answer) && fails_with(answer, "reason is required"@)),
        (exists|i: int| 0 <= i < req.reason@.len() && !white_numbers().contains(
            #[trigger] req.reason@[i] as u32,
        )) ==> r@ == of_operation@,
{
    assert forall|i: int| 0 <= i < req.reason@.len() implies is_white(#[trigger] req.reason@[i])
        == white_numbers().contains(req.reason@[i] as u32) by {
        lemma_white_numbers(req.reason@[i]);
    }
}

/// A ping is answered with "pong"; a status is asked of PowerShell by its version
/// script, in the broker's own directory; a command goes on as commands do.
pub proof fn law_run(op: AdminOperation, r: Step, of_command: Step)
    requires
        call_ensures(run, (op,), r),
        op matches AdminOperation::RunCommand {
            command,
            cwd,
            timeout_seconds,
            max_output_bytes,
        } ==> call_ensures(
            run_command,
            (command, cwd, timeout_seconds, max_output_bytes),
            of_command,
        ),
    ensures
        op is Ping ==> (r matches Step::Respond(answer) && answer.ok && answer.exit_code == Some(0i32)
            && answer.stdout@ == "pong"@ && answer.stderr@.len() == 0),
        op is GetStatus ==> (r matches Step::RunProgram(inv) && runs_script(
            inv,
            "$PSVersionTable.PSVersion.ToString()"@,
        ) && inv.cwd is None),
        op is RunCommand ==> r@ == of_command@,
{
    if let Step::RunProgram(inv) = r {
        if op is GetStatus {
            lemma_runs_script(inv, "$PSVersionTable.PSVersion.ToString()"@, None);
        }
    }
}

/// A command without a word is answered that one is required; any other waits
/// for the policy, with all that was asked for.
pub proof fn law_run_command(
    command: String,
    text: &str,
    normal: String,
    cwd: Option<String>,
    timeout_seconds: Option<u64>,
    max_output_bytes: Option<usize>,
    r: Step,
)
    requires
        text@ == command@,
        call_ensures(normalize_command, (text,), normal),
        call_ensures(run_command, (command, cwd, timeout_seconds, max_output_bytes), r),
    ensures
        normal@.len() == 0 ==> (r matches Step::Respond(answer) && fails_with(
            answer,
            "command is required"@,
        )),
        normal@.len() > 0 ==> (r matches Step::ReadPolicy(wait) && {
            &&& wait@.command == command@
            &&& wait@.cwd is Some <==> cwd is Some
            &&& cwd matches Some(dir) ==> wait@.cwd->Some_0 == dir@
            &&& wait@.timeout_seconds == timeout_seconds
            &&& wait@.max_output_bytes == max_output_bytes
            &&& wait@.stage is Whitelist
        }),
{
}

/// Where a command stands after the policy was read: first it must pass the
/// whitelist; then it is given its timeout; then the limit of its output, with
/// which it is executed. Each reading decides its own matter alone, what refuses
/// it is the answer, and nothing that was asked for is lost on the way.
pub proof fn law_resume(
    wait: PolicyWait,
    file: PolicyFile,
    command: &str,
    verdict: Result<(), BrokerError>,
    timeout: Result<u64, BrokerError>,
    max_output: Result<usize, BrokerError>,
    r: Step,
)
    requires
        call_ensures(PolicyWait::resume, (wait, file), r),
        command@ == wait@.command,
        call_ensures(validate_command, (command, file), verdict),
        call_ensures(command_timeout, (file, wait@.timeout_seconds), timeout),
        call_ensures(command_max_output, (file, wait@.max_output_bytes), max_output),
    ensures
        wait@.stage is Whitelist ==> match verdict {
            Ok(_) => r matches Step::ReadPolicy(next) && next@.stage is Timeout && next@.command
                == wait@.command && next@.cwd == wait@.cwd && next@.timeout_seconds
                == wait@.timeout_seconds && next@.max_output_bytes == wait@.max_output_bytes,
            Err(e) => r matches Step::Respond(answer) && fails_with(answer, message_of(e@)),
        },
        wait@.stage is Timeout ==> match timeout {
            Ok(seconds) => r matches Step::ReadPolicy(next) && next@.stage == (StageView::Output {
                timeout: seconds as int,
            }) && next@.command == wait@.command && next@.cwd == wait@.cwd
                && next@.timeout_seconds == wait@.timeout_seconds && next@.max_output_bytes
                == wait@.max_output_bytes,
            Err(e) => r matches Step::Respond(answer) && fails_with(answer, message_of(e@)),
        },
        wait@.stage matches StageView::Output { timeout: given } ==> match max_output {
            Ok(bytes) => r matches Step::Execute(run) && run@.command == wait@.command
                && run@.timeout == given && run@.max_output == bytes && (match wait@.cwd {
                Some(dir) => if blank(dir) {
                    run@.cwd is None
                } else {
                    run@.cwd == Some(dir)
                },
                None => run@.cwd is None,
            }),
            Err(e) => r matches Step::Respond(answer) && fails_with(answer, message_of(e@)),
        },
{
}

/// From a request to what is run for it: a command is executed only where its
/// reason has a character that is not white space and the whitelist lets it
/// pass; what is then run is PowerShell on exactly the command that was asked
/// for, in the directory that was asked for unless that is blank, and for as
/// long as the policy grants of what was asked for; and of its output as much
/// comes back as the policy grants.
pub proof fn law_executed_command(
    req: AdminRequest,
    files: (PolicyFile, PolicyFile, PolicyFile),
    waits: (PolicyWait, PolicyWait, PolicyWait),
    run: CommandRun,
    command: &str,
    verdict: Result<(), BrokerError>,
    timeout: Result<u64, BrokerError>,
    max_output: Result<usize, BrokerError>,
    inv: Invocation,
    seconds: u64,
    out: ProcessOutput,
    answer: AdminResponse,
)
    requires
        call_ensures(handle_request, (req,), Step::ReadPolicy(waits.0)),
        call_ensures(PolicyWait::resume, (waits.0, files.0), Step::ReadPolicy(waits.1)),
        call_ensures(PolicyWait::resume, (waits.1, files.1), Step::ReadPolicy(waits.2)),
        call_ensures(PolicyWait::resume, (waits.2, files.2), Step::Execute(run)),
        req.operation is RunCommand ==> command@ == req.operation->command@ && call_ensures(
            command_timeout,
            (files.1, req.operation->timeout_seconds),
            timeout,
        ) && call_ensures(
            command_max_output,
            (files.2, req.operation->max_output_bytes),
            max_output,
        ),
        call_ensures(validate_command, (command, files.0), verdict),
        call_ensures(CommandRun::invocation, (&run,), inv),
        call_ensures(CommandRun::timeout_seconds, (&run,), seconds),
        call_ensures(CommandRun::finish, (run, CommandOutcome::Finished(out)), answer),
    ensures
        !blank(req.reason@),
        verdict is Ok,
        req.operation matches AdminOperation::RunCommand { command: asked, cwd, .. } && {
            &&& runs_script(inv, asked@)
            &&& inv.cwd is Some <==> (cwd matches Some(dir) && !blank(dir@))
            &&& inv.cwd matches Some(there) ==> there@ == cwd->Some_0@
        },
        timeout matches Ok(granted) && seconds == granted,
        max_output matches Ok(most) && {
            &&& comes_back(out.stdout@, most as nat, "stdout"@, answer.stdout@)
            &&& comes_back(out.stderr@, most as nat, "stderr"@, answer.stderr@)
        },
        answer.ok == out.success,
        answer.exit_code == out.code,
{
    lemma_limited(out.stdout@, run@.max_output as nat, "stdout"@);
    lemma_limited(out.stderr@, run@.max_output as nat, "stderr"@);
    lemma_runs_script(inv, run@.command, run@.cwd);
}

/// A program that came to its end is answered as its output is; one that could
/// not be run is named with the cause.
pub proof fn law_program_finished(
    invocation: Invocation,
    result: Result<ProcessOutput, String>,
    r: AdminResponse,
)
    requires
        call_ensures(program_finished, (invocation, result), r),
    ensures
        result matches Ok(out) ==> {
            &&& r.ok == out.success
            &&& r.exit_code == out.code
            &&& r.stdout@ == utf8_lossy(out.stdout@)
            &&& r.stderr@ == utf8_lossy(out.stderr@)
        },
        result matches Err(cause) ==> fails_with(
            r,
            "failed to run "@ + invocation.program@ + ": "@ + cause@,
        ),
{
}

/// A command that ended is answered with its own success, exit code and output
/// under the limit; one that did not is a failure that says why, or after how
/// many seconds it was given up.
pub proof fn law_finish(run: CommandRun, outcome: CommandOutcome, r: AdminResponse)
    requires
        call_ensures(CommandRun::finish, (run, outcome), r),
    ensures
        outcome matches CommandOutcome::Finished(out) ==> {
            &&& r.ok == out.success
            &&& r.exit_code == out.code
            &&& comes_back(out.stdout@, run@.max_output as nat, "stdout"@, r.stdout@)
            &&& comes_back(out.stderr@, run@.max_output as nat, "stderr"@, r.stderr@)
        },
        outcome is TimedOut ==> fails_with(
            r,
            "command timed out after "@ + decimal(run@.timeout as nat) + " seconds"@,
        ),
        outcome matches CommandOutcome::RuntimeFailed { cause } ==> fails_with(r, cause@),
        outcome matches CommandOutcome::StartFailed { cause } ==> fails_with(
            r,
            "failed to run command: "@ + run@.command + ": "@ + cause@,
        ),
        outcome matches CommandOutcome::OutputFailed { cause } ==> fails_with(
            r,
            "read command output: "@ + cause@,
        ),
{
    if let CommandOutcome::Finished(out) = outcome {
        lemma_limited(out.stdout@, run@.max_output as nat, "stdout"@);
        lemma_limited(out.stderr@, run@.max_output as nat, "stderr"@);
    }
}

} // verus!
