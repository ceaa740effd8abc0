use admin_powershell_mcp::client::{
    closes, exchanged, opened, ping_request, run_command_request, status_request, tell, waited,
    write_exit_code, ClientError, ClientStep, Exchange, RunCommandArgs, BUSY_WAIT_MILLISECONDS,
    ERROR_PIPE_BUSY,
};
use admin_powershell_mcp::pipe::{
    connected, created, secured, MessageReader, MessageWriter, PipeError, ERROR_PIPE_CONNECTED,
};
use admin_powershell_mcp::protocol::{AdminOperation, AdminResponse, BUFFER_SIZE, PIPE_NAME};

const FULL: usize = BUFFER_SIZE as usize;

fn message(len: usize) -> Vec<u8> {
    (0..len).map(|i| (i % 251) as u8).collect()
}

fn written(bytes: &[u8], take: usize) -> Vec<Vec<u8>> {
    let mut writer = MessageWriter::new(bytes);
    let mut chunks = vec![];
    while let Some(chunk) = writer.next_chunk() {
        let count = chunk.len().min(take);
        chunks.push(chunk[..count].to_vec());
        writer.wrote(count as u32);
    }
    chunks
}

fn read(chunks: &[Vec<u8>]) -> (Vec<u8>, bool) {
    let mut reader = MessageReader::new();
    for chunk in chunks {
        let mut buf = vec![0xee; FULL];
        buf[..chunk.len()].copy_from_slice(chunk);
        if !reader.accept(&buf, Some(chunk.len() as u32)) {
            return (reader.finish(), true);
        }
    }
    (reader.finish(), false)
}

#[test]
fn the_buffer_and_the_pipe() {
    assert_eq!(BUFFER_SIZE, 64 * 1024);
    assert_eq!(PIPE_NAME, "\\\\.\\pipe\\admin-powershell-mcp");
}

#[test]
fn chunks_of_a_message() {
    let sizes = |len| written(&message(len), FULL).iter().map(|c| c.len()).collect::<Vec<_>>();
    assert_eq!(sizes(0), Vec::<usize>::new());
    assert_eq!(sizes(1), vec![1]);
    assert_eq!(sizes(FULL), vec![FULL]);
    assert_eq!(sizes(FULL + 1), vec![FULL, 1]);
    assert_eq!(sizes(3 * FULL - 1), vec![FULL, FULL, FULL - 1]);
}

#[test]
fn a_read_gives_back_what_was_written() {
    for len in [0, 1, 100, FULL - 1, FULL, FULL + 1, 2 * FULL, 2 * FULL + 7] {
        let mut chunks = written(&message(len), FULL);
        let (_, ended) = read(&chunks);
        assert_eq!(ended, len % FULL != 0);
        chunks.push(vec![]);
        assert_eq!(read(&chunks), (message(len), true));
    }
}

#[test]
fn partial_writes_lose_nothing() {
    for take in [1000, 40_000, FULL - 1] {
        assert_eq!(written(&message(150_000), take).concat(), message(150_000));
    }
}

#[test]
fn steady_writes_come_to_the_end() {
    let chunks = written(&message(300), 1);
    assert_eq!(chunks.len(), 300);
    assert_eq!(chunks.concat(), message(300));
}

#[test]
fn a_short_read_ends_the_message() {
    let chunks = vec![vec![1; FULL], vec![2; 10], vec![3; 10]];
    let (got, ended) = read(&chunks);
    assert!(ended);
    assert_eq!(got.len(), FULL + 10);
}

#[test]
fn a_failed_read_ends_the_message() {
    let mut reader = MessageReader::new();
    assert!(reader.accept(&vec![7; FULL], Some(BUFFER_SIZE)));
    assert!(!reader.accept(&[], None));
    assert_eq!(reader.finish(), vec![7; FULL]);
}

#[test]
fn a_client_that_came_first_is_connected() {
    let failed = || Err("why".to_string());
    assert!(connected(Ok(()), 5).is_ok());
    assert!(connected(failed(), ERROR_PIPE_CONNECTED).is_ok());
    let e = connected(failed(), 5).unwrap_err();
    assert_eq!(e.message(), "ConnectNamedPipe failed: why");
    assert_eq!(e.doing(), Some("ConnectNamedPipe failed".to_string()));
    assert_eq!(e.root(), "why");
}

#[test]
fn creating_the_pipe() {
    assert!(created(true, "WIN32_ERROR(0)").is_ok());
    let e = created(false, "WIN32_ERROR(5)").unwrap_err();
    assert!(matches!(e, PipeError::CreateFailed { .. }));
    assert_eq!(e.message(), "CreateNamedPipeW failed: WIN32_ERROR(5)");
    assert_eq!(e.doing(), None);
    assert_eq!(e.root(), e.message());
}

#[test]
fn who_may_use_the_pipe() {
    assert!(secured(Ok(())).is_ok());
    let e = secured(Err("why".to_string())).unwrap_err();
    assert_eq!(e.message(), "invalid pipe security descriptor: why");
    assert_eq!(e.doing(), Some("invalid pipe security descriptor".to_string()));
    assert_eq!(e.root(), "why");
}

#[test]
fn the_pipe_is_closed_once_something_was_read() {
    let cause = || "why".to_string();
    assert!(!closes(&Exchange::EncodeFailed { cause: cause() }));
    assert!(!closes(&Exchange::SendFailed { cause: cause() }));
    assert!(closes(&Exchange::Received(Err(cause()))));
    assert!(closes(&Exchange::Received(Ok(AdminResponse::ok("pong")))));
}

#[test]
fn messages_are_chained() {
    let cause = || "why".to_string();
    for (e, doing, root) in [
        (ClientError::OpenFailed { cause: cause() }, None, "open pipe failed: why"),
        (ClientError::Busy, None, "broker pipe is busy"),
        (ClientError::EncodeFailed { cause: cause() }, None, "why"),
        (ClientError::SendFailed { cause: cause() }, Some("WriteFile failed"), "why"),
        (ClientError::InvalidResponse { cause: cause() }, Some("invalid broker response"), "why"),
    ] {
        assert_eq!(e.doing().as_deref(), doing);
        assert_eq!(e.root(), root);
        let expected = match doing {
            Some(doing) => format!("{doing}: {root}"),
            None => root.to_string(),
        };
        assert_eq!(e.message(), expected);
    }
}

#[test]
fn opening_the_pipe() {
    assert!(matches!(opened(Ok(())), ClientStep::Exchange));
    assert!(matches!(
        opened(Err((ERROR_PIPE_BUSY, "busy".to_string()))),
        ClientStep::Wait { milliseconds: BUSY_WAIT_MILLISECONDS }
    ));
    assert_eq!(BUSY_WAIT_MILLISECONDS, 5000);
    match opened(Err((2, "WIN32_ERROR(2)".to_string()))) {
        ClientStep::Fail(e) => assert_eq!(e.message(), "open pipe failed: WIN32_ERROR(2)"),
        other => panic!("{other:?}"),
    }
}

#[test]
fn waiting_for_the_pipe() {
    assert!(matches!(waited(true), ClientStep::Open));
    match waited(false) {
        ClientStep::Fail(e) => assert_eq!(e.message(), "broker pipe is busy"),
        other => panic!("{other:?}"),
    }
}

#[test]
fn exchanges() {
    let cause = || "why".to_string();
    let error = |e| exchanged(e).unwrap_err().message();
    assert_eq!(error(Exchange::EncodeFailed { cause: cause() }), "why");
    assert_eq!(error(Exchange::SendFailed { cause: cause() }), "WriteFile failed: why");
    assert_eq!(error(Exchange::Received(Err(cause()))), "invalid broker response: why");
    let got = exchanged(Exchange::Received(Ok(AdminResponse::ok("pong")))).unwrap();
    assert_eq!(got.stdout, "pong");
}

#[test]
fn what_a_tool_tells() {
    let answer = AdminResponse {
        ok: false,
        exit_code: Some(-3),
        stdout: "a\nb".to_string(),
        stderr: "c".to_string(),
    };
    assert_eq!(tell(Ok(answer)), "ok: false\nexit_code: Some(-3)\nstdout:\na\nb\nstderr:\nc");
    assert_eq!(
        tell(Ok(AdminResponse::ok("pong"))),
        "ok: true\nexit_code: Some(0)\nstdout:\npong\nstderr:\n"
    );
    assert_eq!(
        tell(Ok(AdminResponse::err("no"))),
        "ok: false\nexit_code: None\nstdout:\n\nstderr:\nno"
    );
    assert_eq!(tell(Err(ClientError::Busy)), "broker_error: broker pipe is busy");
}

#[test]
fn exit_codes_are_written_as_debug_does() {
    for code in [None, Some(0), Some(1), Some(-1), Some(i32::MIN), Some(i32::MAX)] {
        assert_eq!(write_exit_code(code), format!("{code:?}"));
    }
}

#[test]
fn requests_of_the_tools() {
    let ping = ping_request("r".to_string());
    assert!(matches!(ping.operation, AdminOperation::Ping));
    assert_eq!(ping.reason, "r");
    let status = status_request("s".to_string());
    assert!(matches!(status.operation, AdminOperation::GetStatus));
    assert_eq!(status.reason, "s");
    let run = run_command_request(RunCommandArgs {
        command: "c".to_string(),
        cwd: Some("d".to_string()),
        timeout_seconds: Some(1),
        max_output_bytes: Some(2),
        reason: "t".to_string(),
    });
    assert_eq!(run.reason, "t");
    match run.operation {
        AdminOperation::RunCommand { command, cwd, timeout_seconds, max_output_bytes } => {
            assert_eq!(command, "c");
            assert_eq!(cwd, Some("d".to_string()));
            assert_eq!(timeout_seconds, Some(1));
            assert_eq!(max_output_bytes, Some(2));
        }
        other => panic!("{other:?}"),
    }
}

#[test]
fn a_busy_pipe_is_tried_again() {
    let mut step = ClientStep::Open;
    for round in 0..4 {
        assert!(matches!(step, ClientStep::Open));
        if round == 3 {
            step = opened(Ok(()));
            break;
        }
        step = opened(Err((ERROR_PIPE_BUSY, "busy".to_string())));
        assert!(matches!(step, ClientStep::Wait { .. }));
        step = waited(true);
    }
    assert!(matches!(step, ClientStep::Exchange));
}
