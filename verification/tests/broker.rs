use admin_powershell_mcp::broker::{
    handle_request, program_finished, CommandOutcome, CommandRun, Invocation, Step,
};
use admin_powershell_mcp::output::{
    limited_lossy, response, response_with_limit, with_notice, ProcessOutput,
};
use admin_powershell_mcp::policy::{Policy, PolicyFile};
use admin_powershell_mcp::protocol::{AdminOperation, AdminRequest, AdminResponse};

fn request(operation: AdminOperation, reason: &str) -> AdminRequest {
    AdminRequest { operation, reason: reason.to_string() }
}

fn command(command: &str) -> AdminOperation {
    AdminOperation::RunCommand {
        command: command.to_string(),
        cwd: None,
        timeout_seconds: None,
        max_output_bytes: None,
    }
}

fn answer(step: Step) -> AdminResponse {
    match step {
        Step::Respond(answer) => answer,
        _ => panic!("not answered"),
    }
}

fn resume(step: Step, file: PolicyFile) -> Step {
    match step {
        Step::ReadPolicy(wait) => wait.resume(file),
        _ => panic!("does not wait for the policy"),
    }
}

fn executed(operation: AdminOperation) -> CommandRun {
    let mut step = handle_request(request(operation, "test"));
    for _ in 0..3 {
        step = resume(step, PolicyFile::Unreadable);
    }
    match step {
        Step::Execute(run) => run,
        _ => panic!("not executed"),
    }
}

fn same(answer: AdminResponse, ok: bool, exit_code: Option<i32>, stdout: &str, stderr: &str) {
    assert_eq!(answer.ok, ok);
    assert_eq!(answer.exit_code, exit_code);
    assert_eq!(answer.stdout, stdout);
    assert_eq!(answer.stderr, stderr);
}

fn output(success: bool, code: Option<i32>, stdout: &[u8], stderr: &[u8]) -> ProcessOutput {
    ProcessOutput { success, code, stdout: stdout.to_vec(), stderr: stderr.to_vec() }
}

#[test]
fn answers() {
    same(AdminResponse::ok("out"), true, Some(0), "out", "");
    same(AdminResponse::ok("out".to_string()), true, Some(0), "out", "");
    same(AdminResponse::err("no"), false, None, "", "no");
    same(AdminResponse::err(String::from("no")), false, None, "", "no");
}

#[test]
fn a_ping_is_answered() {
    same(answer(handle_request(request(AdminOperation::Ping, "test"))), true, Some(0), "pong", "");
}

#[test]
fn a_reason_is_required() {
    for reason in ["", "  ", "\t\n"] {
        for op in [AdminOperation::Ping, AdminOperation::GetStatus, command("get-process")] {
            let step = handle_request(request(op, reason));
            same(answer(step), false, None, "", "reason is required");
        }
    }
}

#[test]
fn the_status_is_asked_of_powershell() {
    match handle_request(request(AdminOperation::GetStatus, "test")) {
        Step::RunProgram(Invocation { program, args, cwd }) => {
            assert_eq!(program, "powershell.exe");
            assert_eq!(
                args,
                [
                    "-NoProfile",
                    "-ExecutionPolicy",
                    "Bypass",
                    "-Command",
                    "$PSVersionTable.PSVersion.ToString()"
                ]
            );
            assert_eq!(cwd, None);
        }
        _ => panic!("no program"),
    }
}

#[test]
fn the_status_is_answered() {
    let invocation =
        || Invocation { program: "powershell.exe".to_string(), args: vec![], cwd: None };
    let out = output(true, Some(0), b"5.1\r\n", b"");
    same(program_finished(invocation(), Ok(out)), true, Some(0), "5.1\r\n", "");
    same(
        program_finished(invocation(), Err("not found".to_string())),
        false,
        None,
        "",
        "failed to run powershell.exe: not found",
    );
}

#[test]
fn a_blank_command_is_refused_without_a_policy() {
    let step = handle_request(request(command("  \t"), "test"));
    same(answer(step), false, None, "", "command is required");
}

#[test]
fn an_unlisted_command_is_refused() {
    let step = handle_request(request(command("Remove-Item x"), "test"));
    let step = resume(step, PolicyFile::Unreadable);
    same(answer(step), false, None, "", "command is not allowed by whitelist: Remove-Item x");
}

#[test]
fn an_invalid_policy_refuses_at_each_reading() {
    for good in 0..3 {
        let mut step = handle_request(request(command("get-process"), "test"));
        for _ in 0..good {
            step = resume(step, PolicyFile::Unreadable);
        }
        let step = resume(step, PolicyFile::Invalid { cause: "bad".to_string() });
        same(answer(step), false, None, "", "invalid policy.toml: bad");
    }
}

#[test]
fn a_listed_command_is_executed_as_it_was_sent() {
    let run = executed(command("Get-Service   Spooler"));
    assert_eq!(run.timeout_seconds(), 120);
    let invocation = run.invocation();
    assert_eq!(invocation.program, "powershell.exe");
    assert_eq!(
        invocation.args,
        ["-NoProfile", "-ExecutionPolicy", "Bypass", "-Command", "Get-Service   Spooler"]
    );
    assert_eq!(invocation.cwd, None);
}

#[test]
fn a_blank_directory_is_left_out() {
    let with_cwd = |cwd: &str| AdminOperation::RunCommand {
        command: "get-process".to_string(),
        cwd: Some(cwd.to_string()),
        timeout_seconds: None,
        max_output_bytes: None,
    };
    assert_eq!(executed(with_cwd(" ")).invocation().cwd, None);
    assert_eq!(executed(with_cwd("C:\\ ")).invocation().cwd, Some("C:\\ ".to_string()));
}

#[test]
fn each_reading_of_the_policy_counts() {
    let operation = AdminOperation::RunCommand {
        command: "my-tool".to_string(),
        cwd: None,
        timeout_seconds: Some(500),
        max_output_bytes: Some(500),
    };
    let step = handle_request(request(operation, "test"));
    let allowing = Policy {
        allowed_command_regexes: vec!["^my-tool$".to_string()],
        ..Policy::default()
    };
    let step = resume(step, PolicyFile::Parsed(allowing));
    let short = Policy { max_timeout_seconds: Some(9), ..Policy::default() };
    let step = resume(step, PolicyFile::Parsed(short));
    let small = Policy { max_output_bytes: Some(3), ..Policy::default() };
    match resume(step, PolicyFile::Parsed(small)) {
        Step::Execute(run) => {
            assert_eq!(run.timeout_seconds(), 9);
            let out = output(true, Some(0), b"abcd", b"");
            same(
                run.finish(CommandOutcome::Finished(out)),
                true,
                Some(0),
                "abc\n\n[admin-powershell-mcp: stdout truncated at 3 of 4 bytes]",
                "",
            );
        }
        _ => panic!("not executed"),
    }
}

#[test]
fn outcomes_of_a_command() {
    let run = || executed(command("get-process x"));
    let cause = || "why".to_string();
    let failed = |outcome, message: &str| same(run().finish(outcome), false, None, "", message);
    failed(CommandOutcome::RuntimeFailed { cause: cause() }, "why");
    failed(
        CommandOutcome::StartFailed { cause: cause() },
        "failed to run command: get-process x: why",
    );
    failed(CommandOutcome::OutputFailed { cause: cause() }, "read command output: why");
    failed(CommandOutcome::TimedOut, "command timed out after 120 seconds");
    let out = output(false, Some(-1), b"part", b"bad");
    same(run().finish(CommandOutcome::Finished(out)), false, Some(-1), "part", "bad");
    let killed = output(false, None, b"", b"");
    same(run().finish(CommandOutcome::Finished(killed)), false, None, "", "");
}

#[test]
fn whole_outputs() {
    let out = output(true, Some(3), "grüße".as_bytes(), b"a\xffb");
    same(response(out), true, Some(3), "grüße", "a\u{fffd}b");
}

#[test]
fn limited_outputs() {
    assert_eq!(limited_lossy(b"abc", 3, "stdout"), "abc");
    assert_eq!(limited_lossy(b"", 1, "stdout"), "");
    assert_eq!(
        limited_lossy(b"abcdef", 4, "stderr"),
        "abcd\n\n[admin-powershell-mcp: stderr truncated at 4 of 6 bytes]"
    );
    assert_eq!(
        limited_lossy("aü".as_bytes(), 2, "stdout"),
        "a\u{fffd}\n\n[admin-powershell-mcp: stdout truncated at 2 of 3 bytes]"
    );
    assert_eq!(
        limited_lossy(b"x", 0, "stdout"),
        "\n\n[admin-powershell-mcp: stdout truncated at 0 of 1 bytes]"
    );
}

#[test]
fn each_output_is_limited() {
    let out = output(true, Some(0), b"12345", b"123");
    same(
        response_with_limit(out, 3),
        true,
        Some(0),
        "123\n\n[admin-powershell-mcp: stdout truncated at 3 of 5 bytes]",
        "123",
    );
}

#[test]
fn a_cut_output_keeps_its_start() {
    let written = "ab\u{fc}\u{20ac}cd";
    for (max, whole) in [(1, "a"), (2, "ab"), (3, "ab"), (4, "ab\u{fc}"), (6, "ab\u{fc}")] {
        let back = limited_lossy(written.as_bytes(), max, "stdout");
        assert!(back.starts_with(whole));
    }
    assert!(limited_lossy(b"ok\xffrest", 100, "stdout").starts_with("ok\u{fffd}"));
}

#[test]
fn what_lies_behind_the_limit_is_forgotten() {
    assert_eq!(limited_lossy(b"abXY", 2, "stdout"), limited_lossy(b"abZW", 2, "stdout"));
    assert_ne!(limited_lossy(b"abXY", 2, "stdout"), limited_lossy(b"abXYZ", 2, "stdout"));
}

#[test]
fn notices() {
    assert_eq!(with_notice("t".to_string(), "n", 5, 5), "t");
    assert_eq!(
        with_notice("t".to_string(), "n", 5, 60),
        "t\n\n[admin-powershell-mcp: n truncated at 5 of 60 bytes]"
    );
}
