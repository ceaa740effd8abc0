//! The client's side: reaching the broker, and what comes back to the tools.
use vstd::prelude::*;
use crate::error::{chained, lemma_tells, tells, with_heading};
use crate::protocol::{
    opt_text, viewed, AdminOperation, AdminRequest, AdminResponse, OperationView, RequestView,
    ResponseView,
};
use crate::text::{signed_decimal, signed_decimal_text};

verus! {

/// The system's code for a pipe of which all instances are taken.
pub const ERROR_PIPE_BUSY: u32 = 231;

/// How long to wait for a busy pipe before giving up, in milliseconds.
pub const BUSY_WAIT_MILLISECONDS: u32 = 5000;

/// Why a request brought no answer. A `cause` is the text of the failure
/// underneath.
#[derive(Debug)]
pub enum ClientError {
    /// The pipe could not be opened.
    OpenFailed { cause: String },
    /// The pipe stayed busy.
    Busy,
    /// The request could not be encoded.
    EncodeFailed { cause: String },
    /// The request could not be sent.
    SendFailed { cause: String },
    /// The answer could not be understood.
    InvalidResponse { cause: String },
}

/// A [`ClientError`], with texts as sequences of characters.
pub enum ClientErrorView {
    OpenFailed { cause: Seq<char> },
    Busy,
    EncodeFailed { cause: Seq<char> },
    SendFailed { cause: Seq<char> },
    InvalidResponse { cause: Seq<char> },
}

impl View for ClientError {
    type V = ClientErrorView;

    open spec fn view(&self) -> ClientErrorView {
        match *self {
            ClientError::OpenFailed { cause } => ClientErrorView::OpenFailed { cause: cause@ },
            ClientError::Busy => ClientErrorView::Busy,
            ClientError::EncodeFailed { cause } => ClientErrorView::EncodeFailed { cause: cause@ },
            ClientError::SendFailed { cause } => ClientErrorView::SendFailed { cause: cause@ },
            ClientError::InvalidResponse { cause } => ClientErrorView::InvalidResponse {
                cause: cause@,
            },
        }
    }
}

/// What is said of an error.
pub open spec fn client_message(e: ClientErrorView) -> Seq<char> {
    match e {
        ClientErrorView::OpenFailed { cause } => "open pipe failed: "@ + cause,
        ClientErrorView::Busy => "broker pipe is busy"@,
        ClientErrorView::EncodeFailed { cause } => cause,
        ClientErrorView::SendFailed { cause } => "WriteFile failed: "@ + cause,
        ClientErrorView::InvalidResponse { cause } => "invalid broker response: "@ + cause,
    }
}

/// What was being done, where the error comes from another.
pub open spec fn client_doing(e: ClientErrorView) -> Option<Seq<char>> {
    match e {
        ClientErrorView::SendFailed { .. } => Some("WriteFile failed"@),
        ClientErrorView::InvalidResponse { .. } => Some("invalid broker response"@),
        _ => None,
    }
}

/// The error that it comes from; itself, where there is none.
pub open spec fn client_root(e: ClientErrorView) -> Seq<char> {
    match e {
        ClientErrorView::SendFailed { cause } => cause,
        ClientErrorView::InvalidResponse { cause } => cause,
        _ => client_message(e),
    }
}

impl ClientError {
    /// What was being done, where the error comes from another.
    pub fn doing(&self) -> (r: Option<String>)
        ensures
            opt_text(r) == client_doing(self@),
    {
        match self {
            ClientError::SendFailed { .. } => Some("WriteFile failed".to_owned()),
            ClientError::InvalidResponse { .. } => Some("invalid broker response".to_owned()),
            _ => None,
        }
    }

    /// The error that it comes from; itself, where there is none.
    pub fn root(&self) -> (r: String)
        ensures
            r@ == client_root(self@),
    {
        match self {
            ClientError::SendFailed { cause } => cause.as_str().to_owned(),
            ClientError::InvalidResponse { cause } => cause.as_str().to_owned(),
            _ => self.message(),
        }
    }

    /// The message for the tool's user.
    pub fn message(&self) -> (r: String)
        ensures
            r@ == client_message(self@),
    {
        match self {
            ClientError::OpenFailed { cause } => with_heading("open pipe failed: ", cause.as_str()),
            ClientError::Busy => "broker pipe is busy".to_owned(),
            ClientError::EncodeFailed { cause } => cause.as_str().to_owned(),
            ClientError::SendFailed { cause } => with_heading("WriteFile failed: ", cause.as_str()),
            ClientError::InvalidResponse { cause } => with_heading(
                "invalid broker response: ",
                cause.as_str(),
            ),
        }
    }
}

// ---------------------------------------------------------------------------
// Reaching the broker
// ---------------------------------------------------------------------------

/// What the caller is to do next to have a request answered. It starts with
/// `Open`.
#[derive(Debug)]
pub enum ClientStep {
    /// Try to open the pipe, and go on with [`opened`].
    Open,
    /// Wait that long for the pipe to become free, and go on with [`waited`].
    Wait { milliseconds: u32 },
    /// Send the request and read the answer; close the pipe where [`closes`]
    /// says so, and end with [`exchanged`].
    Exchange,
    /// Give up.
    Fail(ClientError),
}

/// A [`ClientStep`], with texts as sequences of characters.
pub enum ClientStepView {
    Open,
    Wait { milliseconds: u32 },
    Exchange,
    Fail(ClientErrorView),
}

impl View for ClientStep {
    type V = ClientStepView;

    open spec fn view(&self) -> ClientStepView {
        match *self {
            ClientStep::Open => ClientStepView::Open,
            ClientStep::Wait { milliseconds } => ClientStepView::Wait { milliseconds },
            ClientStep::Exchange => ClientStepView::Exchange,
            ClientStep::Fail(e) => ClientStepView::Fail(e@),
        }
    }
}

/// The step after an attempt to open the pipe, which succeeded or failed with
/// the system's last error: its code and its text.
pub open spec fn after_open(attempt: Result<(), (u32, Seq<char>)>) -> ClientStepView {
    match attempt {
        Ok(_) => ClientStepView::Exchange,
        Err((code, text)) => if code == ERROR_PIPE_BUSY {
            ClientStepView::Wait { milliseconds: BUSY_WAIT_MILLISECONDS }
        } else {
            ClientStepView::Fail(ClientErrorView::OpenFailed { cause: text })
        },
    }
}

/// The step after waiting for a busy pipe.
pub open spec fn after_wait(free: bool) -> ClientStepView {
    if free {
        ClientStepView::Open
    } else {
        ClientStepView::Fail(ClientErrorView::Busy)
    }
}

/// Goes on after an attempt to open the pipe. A failure carries the system's
/// last error: its code and its text.
pub fn opened(attempt: Result<(), (u32, String)>) -> (r: ClientStep)
    ensures
        r@ == after_open(
            match attempt {
                Ok(_) => Ok(()),
                Err((code, text)) => Err((code, text@)),
            },
        ),
{
    match attempt {
        Ok(_) => ClientStep::Exchange,
        Err((code, text)) => if code == ERROR_PIPE_BUSY {
            ClientStep::Wait { milliseconds: BUSY_WAIT_MILLISECONDS }
        } else {
            ClientStep::Fail(ClientError::OpenFailed { cause: text })
        },
    }
}

/// Goes on after waiting for a busy pipe.
pub fn waited(free: bool) -> (r: ClientStep)
    ensures
        r@ == after_wait(free),
{
    if free {
        ClientStep::Open
    } else {
        ClientStep::Fail(ClientError::Busy)
    }
}

/// What came of sending a request and reading its answer.
#[derive(Debug)]
pub enum Exchange {
    /// The request could not be encoded.
    EncodeFailed { cause: String },
    /// The request could not be sent.
    SendFailed { cause: String },
    /// What was read back, understood or not.
    Received(Result<AdminResponse, String>),
}

/// An [`Exchange`], with texts as sequences of characters.
pub enum ExchangeView {
    EncodeFailed { cause: Seq<char> },
    SendFailed { cause: Seq<char> },
    Received(Result<ResponseView, Seq<char>>),
}

impl View for Exchange {
    type V = ExchangeView;

    open spec fn view(&self) -> ExchangeView {
        match *self {
            Exchange::EncodeFailed { cause } => ExchangeView::EncodeFailed { cause: cause@ },
            Exchange::SendFailed { cause } => ExchangeView::SendFailed { cause: cause@ },
            Exchange::Received(answer) => ExchangeView::Received(viewed(answer)),
        }
    }
}

/// What a request brings: the answer as it was read, or why there is none.
pub open spec fn brings(exchange: ExchangeView) -> Result<ResponseView, ClientErrorView> {
    match exchange {
        ExchangeView::EncodeFailed { cause } => Err(ClientErrorView::EncodeFailed { cause }),
        ExchangeView::SendFailed { cause } => Err(ClientErrorView::SendFailed { cause }),
        ExchangeView::Received(Ok(answer)) => Ok(answer),
        ExchangeView::Received(Err(cause)) => Err(ClientErrorView::InvalidResponse { cause }),
    }
}

/// Whether the client closes the pipe: once something was read back, understood
/// or not. A pipe over which nothing could be sent is left to the system.
pub open spec fn is_closed_after(exchange: ExchangeView) -> bool {
    exchange is Received
}

/// Tells whether the client closes the pipe.
pub fn closes(exchange: &Exchange) -> (r: bool)
    ensures
        r == is_closed_after(exchange@),
{
    match exchange {
        Exchange::Received(_) => true,
        _ => false,
    }
}

/// Ends a request with what came of sending it.
pub fn exchanged(exchange: Exchange) -> (r: Result<AdminResponse, ClientError>)
    ensures
        viewed(r) == brings(exchange@),
{
    match exchange {
        Exchange::EncodeFailed { cause } => Err(ClientError::EncodeFailed { cause }),
        Exchange::SendFailed { cause } => Err(ClientError::SendFailed { cause }),
        Exchange::Received(answer) => match answer {
            Ok(answer) => Ok(answer),
            Err(cause) => Err(ClientError::InvalidResponse { cause }),
        },
    }
}

// ---------------------------------------------------------------------------
// Tools
// ---------------------------------------------------------------------------

/// The arguments of the tool that runs a command.
#[derive(Debug)]
pub struct RunCommandArgs {
    pub command: String,
    pub cwd: Option<String>,
    pub timeout_seconds: Option<u64>,
    pub max_output_bytes: Option<usize>,
    pub reason: String,
}

/// The request of the tool that checks whether the broker is there.
pub fn ping_request(reason: String) -> (r: AdminRequest)
    ensures
        r@ == (RequestView { operation: OperationView::Ping, reason: reason@ }),
{
    AdminRequest { operation: AdminOperation::Ping, reason }
}

/// The request of the tool that asks for the broker's status.
pub fn status_request(reason: String) -> (r: AdminRequest)
    ensures
        r@ == (RequestView { operation: OperationView::GetStatus, reason: reason@ }),
{
    AdminRequest { operation: AdminOperation::GetStatus, reason }
}

/// The request of the tool that runs a command.
pub fn run_command_request(args: RunCommandArgs) -> (r: AdminRequest)
    ensures
        r@ == (RequestView {
            operation: OperationView::RunCommand {
                command: args.command@,
                cwd: opt_text(args.cwd),
                timeout_seconds: args.timeout_seconds,
                max_output_bytes: args.max_output_bytes,
            },
            reason: args.reason@,
        }),
{
    AdminRequest {
        operation: AdminOperation::RunCommand {
            command: args.command,
            cwd: args.cwd,
            timeout_seconds: args.timeout_seconds,
            max_output_bytes: args.max_output_bytes,
        },
        reason: args.reason,
    }
}

/// A truth value in words.
pub open spec fn bool_text(b: bool) -> Seq<char> {
    if b {
        "true"@
    } else {
        "false"@
    }
}

/// An exit code, or that there is none.
pub open spec fn exit_code_text(code: Option<i32>) -> Seq<char> {
    match code {
        Some(n) => "Some("@ + signed_decimal(n as int) + ")"@,
        None => "None"@,
    }
}

/// What a tool says of a request: the answer, part by part, or the error.
pub open spec fn told(result: Result<ResponseView, ClientErrorView>) -> Seq<char> {
    match result {
        Ok(answer) => "ok: "@ + bool_text(answer.ok) + "\nexit_code: "@ + exit_code_text(
            answer.exit_code,
        ) + "\nstdout:\n"@ + answer.stdout + "\nstderr:\n"@ + answer.stderr,
        Err(e) => "broker_error: "@ + client_message(e),
    }
}

/// Writes a truth value in words.
pub fn write_bool(b: bool) -> (r: &'static str)
    ensures
        r@ == bool_text(b),
{
    if b {
        "true"
    } else {
        "false"
    }
}

/// Writes an exit code, or that there is none.
pub fn write_exit_code(code: Option<i32>) -> (r: String)
    ensures
        r@ == exit_code_text(code),
{
    match code {
        Some(n) => {
            let mut out = "Some(".to_owned();
            out.append(signed_decimal_text(n).as_str());
            out.append(")");
            out
        },
        None => "None".to_owned(),
    }
}

/// Tells what a request brought.
pub fn tell(result: Result<AdminResponse, ClientError>) -> (r: String)
    ensures
        r@ == told(viewed(result)),
{
    match result {
        Ok(answer) => {
            let mut out = with_heading("ok: ", write_bool(answer.ok));
            out.append("\nexit_code: ");
            out.append(write_exit_code(answer.exit_code).as_str());
            out.append("\nstdout:\n");
            out.append(answer.stdout.as_str());
            out.append("\nstderr:\n");
            out.append(answer.stderr.as_str());
            out
        },
        Err(e) => with_heading("broker_error: ", e.message().as_str()),
    }
}

// ---------------------------------------------------------------------------
// Laws
// ---------------------------------------------------------------------------

/// The message of an error is that of what was being done and of the error that
/// it comes from.
pub proof fn law_client_message_is_chained(e: ClientErrorView)
    ensures
        client_message(e) == chained(client_doing(e), client_root(e)),
{
    reveal_strlit(": ");
    reveal_strlit("WriteFile failed");
    reveal_strlit("WriteFile failed: ");
    reveal_strlit("invalid broker response");
    reveal_strlit("invalid broker response: ");
    assert(client_message(e) =~= chained(client_doing(e), client_root(e)));
}

/// A pipe over which an answer came is closed; it is left open exactly where the
/// request could not be encoded or sent.
pub proof fn law_answered_pipe_is_closed(exchange: ExchangeView)
    ensures
        brings(exchange) is Ok ==> is_closed_after(exchange),
        !is_closed_after(exchange) <==> (brings(exchange) matches Err(e) && (e is EncodeFailed
            || e is SendFailed)),
{
}

/// What happens to a client on its way to the broker.
pub enum ClientEvent {
    Opened(Result<(), (u32, Seq<char>)>),
    Waited(bool),
}

/// The step of a client after an event that its step asks for; other events
/// leave it where it is.
pub open spec fn client_next(step: ClientStepView, event: ClientEvent) -> ClientStepView {
    match (step, event) {
        (ClientStepView::Open, ClientEvent::Opened(attempt)) => after_open(attempt),
        (ClientStepView::Wait { .. }, ClientEvent::Waited(free)) => after_wait(free),
        _ => step,
    }
}

/// The step of a client after a sequence of events.
pub open spec fn client_after(events: Seq<ClientEvent>) -> ClientStepView
    decreases events.len(),
{
    if events.len() == 0 {
        ClientStepView::Open
    } else {
        client_next(client_after(events.drop_last()), events.last())
    }
}

/// `rounds` times the pipe is found busy and then becomes free.
pub open spec fn busy_rounds(rounds: nat, text: Seq<char>) -> Seq<ClientEvent>
    decreases rounds,
{
    if rounds == 0 {
        Seq::empty()
    } else {
        busy_rounds((rounds - 1) as nat, text).push(
            ClientEvent::Opened(Err((ERROR_PIPE_BUSY, text))),
        ).push(ClientEvent::Waited(true))
    }
}

/// However often the pipe is busy, a client for whom it becomes free each time
/// tries again.
pub proof fn law_busy_pipe_is_tried_again(rounds: nat, text: Seq<char>)
    ensures
        client_after(busy_rounds(rounds, text)) == ClientStepView::Open,
    decreases rounds,
{
    if rounds > 0 {
        let before = busy_rounds((rounds - 1) as nat, text);
        let found = before.push(ClientEvent::Opened(Err((ERROR_PIPE_BUSY, text))));
        let freed = found.push(ClientEvent::Waited(true));
        law_busy_pipe_is_tried_again((rounds - 1) as nat, text);
        assert(found.drop_last() =~= before);
        assert(freed.drop_last() =~= found);
        assert(client_after(found) is Wait);
    }
}

/// The pipe was opened.
pub open spec fn opens(event: ClientEvent) -> bool {
    event matches ClientEvent::Opened(attempt) && attempt is Ok
}

/// A request is sent only over a pipe that was opened.
pub proof fn law_exchange_needs_an_open_pipe(events: Seq<ClientEvent>)
    requires
        client_after(events) is Exchange,
    ensures
        exists|i: int| 0 <= i < events.len() && opens(#[trigger] events[i]),
    decreases events.len(),
{
    let before = events.drop_last();
    if client_after(before) is Exchange {
        law_exchange_needs_an_open_pipe(before);
        let i = choose|i: int|
            0 <= i < before.len() && opens(#[trigger] before[i]);
        assert(opens(events[i]));
    } else {
        assert(opens(events[events.len() - 1]));
    }
}

/// A client that gave up, or that sends its request, is past opening the pipe,
/// whatever happens.
pub proof fn law_client_settles(step: ClientStepView, event: ClientEvent)
    requires
        step is Fail || step is Exchange,
    ensures
        client_next(step, event) == step,
{
}

/// What is said of each error of the client.
pub proof fn law_client_messages(e: &ClientError, r: String, doing: Option<String>, root: String)
    requires
        call_ensures(ClientError::message, (e,), r),
        call_ensures(ClientError::doing, (e,), doing),
        call_ensures(ClientError::root, (e,), root),
    ensures
        *e matches ClientError::OpenFailed { cause } ==> tells(r@, "open pipe failed: "@, cause@),
        *e is Busy ==> r@ == "broker pipe is busy"@,
        *e matches ClientError::EncodeFailed { cause } ==> r@ == cause@,
        *e matches ClientError::SendFailed { cause } ==> tells(r@, "WriteFile failed: "@, cause@),
        *e matches ClientError::InvalidResponse { cause } ==> tells(
            r@,
            "invalid broker response: "@,
            cause@,
        ),
        doing matches Some(doing) ==> r@ == doing@ + ": "@ + root@,
        doing is None ==> r@ == root@,
        doing is Some <==> *e is SendFailed || *e is InvalidResponse,
        *e matches ClientError::SendFailed { cause } ==> root@ == cause@,
        *e matches ClientError::InvalidResponse { cause } ==> root@ == cause@,
{
    law_client_message_is_chained(e@);
    match *e {
        ClientError::OpenFailed { cause } => lemma_tells("open pipe failed: "@, cause@),
        ClientError::SendFailed { cause } => lemma_tells("WriteFile failed: "@, cause@),
        ClientError::InvalidResponse { cause } => lemma_tells("invalid broker response: "@, cause@),
        _ => {},
    }
}

/// A client sends its request exactly where the pipe opened; it waits, for five
/// seconds, exactly where the system says that all instances are taken, which is
/// its error 231; and gives up at any other error, with its text.
pub proof fn law_opened(attempt: Result<(), (u32, String)>, r: ClientStep)
    requires
        call_ensures(opened, (attempt,), r),
    ensures
        r is Exchange <==> attempt is Ok,
        r is Wait <==> (attempt matches Err((code, _)) && code == 231),
        r matches ClientStep::Wait { milliseconds } ==> milliseconds == 5000,
        attempt matches Err((code, text)) ==> code != 231 ==> (r matches ClientStep::Fail(
            ClientError::OpenFailed { cause },
        ) && cause@ == text@),
{
}

/// A pipe that became free is opened anew; one that did not is given up as busy.
pub proof fn law_waited(free: bool, r: ClientStep)
    requires
        call_ensures(waited, (free,), r),
    ensures
        r is Open <==> free,
        !free ==> (r matches ClientStep::Fail(e) && e is Busy),
{
}

/// An answer that was understood is what the request brings, in every field.
pub proof fn law_answer_comes_back_as_it_was_read(answer: ResponseView)
    ensures
        brings(ExchangeView::Received(Ok(answer))) == Ok::<ResponseView, ClientErrorView>(answer),
{
}

/// A request brings an answer exactly where one was read and understood, and
/// then that very answer, in every field; else the failure, with its cause. The
/// pipe is closed exactly where something was read.
pub proof fn law_exchanged(
    exchange: Exchange,
    r: Result<AdminResponse, ClientError>,
    closed: bool,
)
    requires
        call_ensures(exchanged, (exchange,), r),
        call_ensures(closes, (&exchange,), closed),
    ensures
        r is Ok <==> (exchange matches Exchange::Received(read) && read is Ok),
        exchange matches Exchange::Received(Ok(answer)) ==> r matches Ok(got) && {
            &&& got.ok == answer.ok
            &&& got.exit_code == answer.exit_code
            &&& got.stdout@ == answer.stdout@
            &&& got.stderr@ == answer.stderr@
        },
        exchange matches Exchange::Received(Err(cause)) ==> r matches Err(
            ClientError::InvalidResponse { cause: told },
        ) && told@ == cause@,
        exchange matches Exchange::EncodeFailed { cause } ==> r matches Err(
            ClientError::EncodeFailed { cause: told },
        ) && told@ == cause@,
        exchange matches Exchange::SendFailed { cause } ==> r matches Err(
            ClientError::SendFailed { cause: told },
        ) && told@ == cause@,
        closed <==> exchange is Received,
{
}

/// The tools ask for what they are for, with the reason and the arguments as
/// they were given.
pub proof fn law_tool_requests(
    reason: String,
    args: RunCommandArgs,
    ping: AdminRequest,
    status: AdminRequest,
    run: AdminRequest,
)
    requires
        call_ensures(ping_request, (reason,), ping),
        call_ensures(status_request, (reason,), status),
        call_ensures(run_command_request, (args,), run),
    ensures
        ping.operation is Ping && ping.reason@ == reason@,
        status.operation is GetStatus && status.reason@ == reason@,
        run.reason@ == args.reason@,
        run.operation matches AdminOperation::RunCommand {
            command,
            cwd,
            timeout_seconds,
            max_output_bytes,
        } && {
            &&& command@ == args.command@
            &&& cwd is Some <==> args.cwd is Some
            &&& args.cwd matches Some(dir) ==> cwd->Some_0@ == dir@
            &&& timeout_seconds == args.timeout_seconds
            &&& max_output_bytes == args.max_output_bytes
        },
{
}

/// An exit code is written as its number between brackets; that there is none,
/// and truth values, by their words.
pub proof fn law_written_values(
    code: Option<i32>,
    digits: String,
    written: String,
    b: bool,
    word: &str,
)
    requires
        code matches Some(n) ==> call_ensures(signed_decimal_text, (n,), digits),
        call_ensures(write_exit_code, (code,), written),
        call_ensures(write_bool, (b,), word),
    ensures
        code is Some ==> written@ == "Some("@ + digits@ + ")"@,
        code is None ==> written@ == "None"@,
        b ==> word@ == "true"@,
        !b ==> word@ == "false"@,
{
}

/// What a tool tells of an answer has its success, its exit code, its output and
/// its error output in that order, each as it is; of an error, its message.
pub proof fn law_tell(
    result: Result<AdminResponse, ClientError>,
    code: String,
    message: String,
    r: String,
)
    requires
        call_ensures(tell, (result,), r),
        result matches Ok(answer) ==> call_ensures(write_exit_code, (answer.exit_code,), code),
        result matches Err(e) ==> call_ensures(ClientError::message, (&e,), message),
    ensures
        result matches Ok(answer) ==> tells(
            r@,
            (if answer.ok {
                "ok: "@ + "true"@
            } else {
                "ok: "@ + "false"@
            }) + "\nexit_code: "@ + code@ + "\nstdout:\n"@ + answer.stdout@ + "\nstderr:\n"@,
            answer.stderr@,
        ),
        result is Err ==> tells(r@, "broker_error: "@, message@),
{
    match result {
        Ok(answer) => lemma_tells(
            "ok: "@ + bool_text(answer.ok) + "\nexit_code: "@ + code@ + "\nstdout:\n"@
                + answer.stdout@ + "\nstderr:\n"@,
            answer.stderr@,
        ),
        Err(_) => lemma_tells("broker_error: "@, message@),
    }
}

} // verus!
