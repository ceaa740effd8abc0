use admin_powershell_mcp::broker::Step;
use admin_powershell_mcp::limiter::{ConcurrencyLimiter, MAX_CONCURRENT_REQUESTS};
use admin_powershell_mcp::log::{
    answer_line, command_text, ended_line, failure_line, listening_line, operation_text,
    request_line, service_error_line,
};
use admin_powershell_mcp::pipe::PipeError;
use admin_powershell_mcp::protocol::{AdminOperation, AdminRequest, AdminResponse};
use admin_powershell_mcp::service::{
    answered, ask_permit, control, handle_one, report, report_exit_code, response_sent,
    run_service, serve, serve_next, Control, Sending, ServeStep, ServiceStep, StopFlag,
    WorkerStep,
};

fn failed() -> Result<(), String> {
    Err("why".to_string())
}

#[test]
fn at_most_eight_permits_are_out() {
    let mut limiter = ConcurrencyLimiter::new(MAX_CONCURRENT_REQUESTS);
    for n in 0..8 {
        assert_eq!(limiter.active(), n);
        assert!(limiter.acquire());
    }
    assert!(!limiter.acquire());
    assert_eq!(limiter.active(), 8);
    limiter.release();
    assert_eq!(limiter.active(), 7);
    assert!(limiter.acquire());
    assert!(!limiter.acquire());
}

#[test]
fn a_limiter_without_permits_grants_none() {
    let mut limiter = ConcurrencyLimiter::new(0);
    assert!(!limiter.acquire());
    assert_eq!(limiter.active(), 0);
}

fn flag(set: bool) -> StopFlag {
    let mut flag = StopFlag::new();
    if set {
        flag.obey(Control::Stop);
    }
    flag
}

fn broken() -> PipeError {
    PipeError::ConnectFailed { cause: "why".to_string() }
}

#[test]
fn a_round_of_the_server() {
    let mut permits = ConcurrencyLimiter::new(MAX_CONCURRENT_REQUESTS);
    let step = serve(&flag(false));
    assert!(matches!(step, ServeStep::CreatePipe));
    let step = serve_next(step, Ok(()), &flag(false));
    assert!(matches!(step, ServeStep::Connect));
    let step = serve_next(step, Ok(()), &flag(true));
    assert!(matches!(step, ServeStep::Acquire));
    let step = ask_permit(&mut permits);
    assert!(matches!(step, ServeStep::Spawn));
    assert!(matches!(serve_next(ServeStep::Spawn, Ok(()), &flag(false)), ServeStep::CreatePipe));
    assert!(matches!(serve_next(step, Ok(()), &flag(true)), ServeStep::Done(Ok(()))));
}

#[test]
fn only_a_permit_starts_a_worker() {
    let mut permits = ConcurrencyLimiter::new(MAX_CONCURRENT_REQUESTS);
    for n in 0..8 {
        assert_eq!(permits.active(), n);
        assert!(matches!(ask_permit(&mut permits), ServeStep::Spawn));
    }
    assert!(matches!(ask_permit(&mut permits), ServeStep::Acquire));
    assert_eq!(permits.active(), 8);
    assert!(matches!(serve_next(ServeStep::Acquire, Ok(()), &flag(false)), ServeStep::Acquire));
    permits.release();
    assert!(matches!(ask_permit(&mut permits), ServeStep::Spawn));
}

#[test]
fn the_stop_flag_stays_set() {
    let mut flag = StopFlag::new();
    assert!(!flag.is_set());
    let reply = flag.obey(Control::Interrogate);
    assert!(reply.handled && !flag.is_set());
    let reply = flag.obey(Control::Other);
    assert!(!reply.handled && !flag.is_set());
    let reply = flag.obey(Control::Stop);
    assert!(reply.handled && flag.is_set());
    flag.obey(Control::Interrogate);
    flag.obey(Control::Other);
    assert!(flag.is_set());
}

#[test]
fn a_server_told_to_stop_serves_one_more_client() {
    let mut permits = ConcurrencyLimiter::new(MAX_CONCURRENT_REQUESTS);
    let mut stop = StopFlag::new();
    let mut step = serve(&stop);
    stop.obey(Control::Stop);
    let mut served = 0;
    for _ in 0..4 {
        step = match step {
            ServeStep::Acquire => ask_permit(&mut permits),
            other => {
                if matches!(other, ServeStep::Spawn) {
                    served += 1;
                }
                serve_next(other, Ok(()), &stop)
            }
        };
    }
    assert_eq!(served, 1);
    assert!(matches!(step, ServeStep::Done(Ok(()))));
}

#[test]
fn a_server_told_to_stop_does_not_start() {
    assert!(matches!(serve(&flag(true)), ServeStep::Done(Ok(()))));
}

#[test]
fn a_failing_pipe_ends_the_server() {
    for step in [ServeStep::CreatePipe, ServeStep::Connect] {
        match serve_next(step, Err(broken()), &flag(false)) {
            ServeStep::Done(Err(e)) => assert_eq!(e.message(), "ConnectNamedPipe failed: why"),
            other => panic!("{other:?}"),
        }
    }
}

#[test]
fn a_request_is_worked_on() {
    let req = AdminRequest { operation: AdminOperation::Ping, reason: "x".to_string() };
    match handle_one(Ok(req)) {
        WorkerStep::Work { line, request: Step::Respond(answer) } => {
            assert_eq!(line, "operation=Ping reason=x");
            assert_eq!(answer.stdout, "pong");
        }
        _ => panic!("not worked on"),
    }
}

#[test]
fn a_refused_request_is_logged() {
    let req = AdminRequest { operation: AdminOperation::GetStatus, reason: " ".to_string() };
    match handle_one(Ok(req)) {
        WorkerStep::Work { line, request: Step::Respond(answer) } => {
            assert_eq!(line, "operation=GetStatus reason= ");
            assert_eq!(answer.stderr, "reason is required");
        }
        _ => panic!("not refused"),
    }
}

#[test]
fn a_command_is_logged_with_its_settings() {
    let operation = AdminOperation::RunCommand {
        command: "Get-Service \"a\\b\"".to_string(),
        cwd: Some("C:\\x".to_string()),
        timeout_seconds: Some(120),
        max_output_bytes: None,
    };
    match handle_one(Ok(AdminRequest { operation, reason: "look".to_string() })) {
        WorkerStep::Work { line, .. } => assert_eq!(
            line,
            r#"operation=RunCommand { command: "Get-Service \"a\\b\"", cwd: Some("C:\\x"), timeout_seconds: Some(120), max_output_bytes: None } reason=look"#
        ),
        _ => panic!("not worked on"),
    }
}

#[test]
fn operations_are_written_as_debug_does() {
    let command = |command: &str, cwd: Option<&str>, timeout_seconds, max_output_bytes| {
        AdminOperation::RunCommand {
            command: command.to_string(),
            cwd: cwd.map(|dir| dir.to_string()),
            timeout_seconds,
            max_output_bytes,
        }
    };
    for op in [
        AdminOperation::Ping,
        AdminOperation::GetStatus,
        command("", None, None, None),
        command("a\tb\n\u{301}\u{7f}'\u{4f60}", Some(""), Some(0), Some(usize::MAX)),
        command("ipconfig /all", Some("d:\\e f"), Some(u64::MAX), Some(10)),
    ] {
        assert_eq!(operation_text(&op), format!("{op:?}"));
    }
}

#[test]
fn a_written_command() {
    assert_eq!(
        command_text("C", Some("D".to_string()), None, Some(7)),
        "RunCommand { command: C, cwd: Some(D), timeout_seconds: None, max_output_bytes: Some(7) }"
    );
}

#[test]
fn an_answer_is_logged_and_then_sent() {
    match answered(AdminResponse::ok("out"), "1.5ms") {
        WorkerStep::Reply { line, answer } => {
            assert_eq!(line, "done ok=true exit_code=Some(0) elapsed=1.5ms");
            assert_eq!(answer.stdout, "out");
        }
        _ => panic!("not sent"),
    }
}

#[test]
fn lines_of_the_log() {
    assert_eq!(request_line("Ping", "why"), "operation=Ping reason=why");
    assert_eq!(
        answer_line(&AdminResponse::err("no"), "2s"),
        "done ok=false exit_code=None elapsed=2s"
    );
    assert_eq!(failure_line("why"), "request failed: why");
    assert_eq!(service_error_line("why"), "service error: why");
    assert_eq!(listening_line(), "admin-broker listening on \\\\.\\pipe\\admin-powershell-mcp");
    assert_eq!(ended_line(&Ok(())), Some("admin-broker stopped".to_string()));
    assert_eq!(ended_line(&Err(broken())), None);
}

#[test]
fn what_is_no_request_is_closed() {
    match handle_one(Err("EOF".to_string())) {
        WorkerStep::Close { line } => {
            assert_eq!(line, Some("request failed: invalid request json: EOF".to_string()))
        }
        _ => panic!("not closed"),
    }
}

#[test]
fn every_client_is_closed() {
    let cause = || "why".to_string();
    for (sending, expected) in [
        (Sending::Sent, None),
        (Sending::EncodeFailed { cause: cause() }, Some("request failed: why")),
        (Sending::WriteFailed { cause: cause() }, Some("request failed: WriteFile failed: why")),
    ] {
        match response_sent(sending) {
            WorkerStep::Close { line } => assert_eq!(line.as_deref(), expected),
            _ => panic!("not closed"),
        }
    }
}

#[test]
fn reports_of_a_service() {
    let running = report(&ServiceStep::ReportRunning).unwrap();
    assert!(running.running && running.accepts_stop);
    let stopped = report(&ServiceStep::ReportStopped(Ok(()))).unwrap();
    assert!(!stopped.running && !stopped.accepts_stop);
    assert!(report(&ServiceStep::Register).is_none());
    assert!(report(&ServiceStep::Serve).is_none());
    assert!(report(&ServiceStep::Done(Ok(()))).is_none());
}

#[test]
fn reports_carry_no_error() {
    assert_eq!(report_exit_code(&ServiceStep::ReportRunning), Some(0));
    assert_eq!(report_exit_code(&ServiceStep::ReportStopped(Ok(()))), Some(0));
    assert_eq!(report_exit_code(&ServiceStep::ReportStopped(failed())), Some(0));
    assert_eq!(report_exit_code(&ServiceStep::Register), None);
    assert_eq!(report_exit_code(&ServiceStep::Serve), None);
    assert_eq!(report_exit_code(&ServiceStep::Done(failed())), None);
}

#[test]
fn controls() {
    let stop = control(Control::Stop);
    assert!(stop.stop && stop.handled);
    let ask = control(Control::Interrogate);
    assert!(!ask.stop && ask.handled);
    let other = control(Control::Other);
    assert!(!other.stop && !other.handled);
}

#[test]
fn the_life_of_a_service() {
    let step = run_service(ServiceStep::Register, Ok(()));
    assert!(matches!(step, ServiceStep::ReportRunning));
    let step = run_service(step, Ok(()));
    assert!(matches!(step, ServiceStep::Serve));
    let step = run_service(step, failed());
    assert!(matches!(step, ServiceStep::ReportStopped(Err(_))));
    match run_service(step, Ok(())) {
        ServiceStep::Done(Err(e)) => assert_eq!(e, "why"),
        other => panic!("{other:?}"),
    }
}

#[test]
fn a_failing_report_ends_the_service() {
    for step in [
        ServiceStep::Register,
        ServiceStep::ReportRunning,
        ServiceStep::ReportStopped(Ok(())),
        ServiceStep::ReportStopped(Err("other".to_string())),
    ] {
        match run_service(step, failed()) {
            ServiceStep::Done(Err(e)) => assert_eq!(e, "why"),
            other => panic!("{other:?}"),
        }
    }
}

#[test]
fn a_stopped_server_stays_stopped() {
    for outcome in [Ok(()), Err(broken())] {
        let step = serve_next(ServeStep::Done(Ok(())), outcome, &flag(false));
        assert!(matches!(step, ServeStep::Done(Ok(()))));
    }
}

#[test]
fn a_release_undoes_an_acquire() {
    let mut limiter = ConcurrencyLimiter::new(3);
    assert!(limiter.acquire());
    let before = limiter.active();
    assert!(limiter.acquire());
    limiter.release();
    assert_eq!(limiter.active(), before);
}
