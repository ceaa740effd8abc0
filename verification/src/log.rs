//! What the broker writes to its log.
use vstd::prelude::*;
use crate::client::{bool_text, exit_code_text, write_bool, write_exit_code};
use crate::error::{lemma_tells, tells, with_heading};
use crate::pipe::PipeError;
use crate::protocol::{
    opt_text, AdminOperation, AdminRequest, AdminResponse, OperationView, RequestView,
    ResponseView, PIPE_NAME,
};
use crate::text::{decimal, decimal_text};

verus! {

// ---------------------------------------------------------------------------
// Values
// ---------------------------------------------------------------------------

/// A text between quotation marks, with the characters escaped that cannot
/// stand there as they are: what `format!("{:?}")` makes of a `str`.
pub uninterp spec fn quoted(s: Seq<char>) -> Seq<char>;

/// Quotes a text (`<str as Debug>::fmt`, through `format!`). The result follows
/// from the text alone. Which characters are escaped, and how, is left unsaid.
#[verifier::external_body]
fn quote(s: &str) -> (r: String)
    ensures
        r@ == quoted(s@),
{
    format!("{s:?}")
}

/// A value that may be missing, given how it is written where it is there.
pub open spec fn optional(text: Option<Seq<char>>) -> Seq<char> {
    match text {
        Some(text) => "Some("@ + text + ")"@,
        None => "None"@,
    }
}

/// A number that may be missing.
pub open spec fn optional_number(n: Option<int>) -> Seq<char> {
    match n {
        Some(n) => optional(Some(decimal(n as nat))),
        None => optional(None),
    }
}

/// How the log writes a command with its settings, given how it writes the
/// command and its directory.
pub open spec fn command_noted(
    command: Seq<char>,
    cwd: Option<Seq<char>>,
    timeout_seconds: Option<u64>,
    max_output_bytes: Option<usize>,
) -> Seq<char> {
    "RunCommand { command: "@ + command + ", cwd: "@ + optional(cwd) + ", timeout_seconds: "@
        + optional_number(
        match timeout_seconds {
            Some(n) => Some(n as int),
            None => None,
        },
    ) + ", max_output_bytes: "@ + optional_number(
        match max_output_bytes {
            Some(n) => Some(n as int),
            None => None,
        },
    ) + " }"@
}

/// How the log writes an operation.
pub open spec fn operation_noted(op: OperationView) -> Seq<char> {
    match op {
        OperationView::Ping => "Ping"@,
        OperationView::GetStatus => "GetStatus"@,
        OperationView::RunCommand { command, cwd, timeout_seconds, max_output_bytes } => {
            command_noted(
                quoted(command),
                match cwd {
                    Some(dir) => Some(quoted(dir)),
                    None => None,
                },
                timeout_seconds,
                max_output_bytes,
            )
        },
    }
}

/// Writes a value that may be missing.
fn write_optional(text: Option<String>) -> (r: String)
    ensures
        r@ == optional(opt_text(text)),
{
    match text {
        Some(text) => {
            let mut out = with_heading("Some(", text.as_str());
            out.append(")");
            out
        },
        None => "None".to_owned(),
    }
}

/// Writes a command with its settings, given how the command and its directory
/// are written.
pub fn command_text(
    command: &str,
    cwd: Option<String>,
    timeout_seconds: Option<u64>,
    max_output_bytes: Option<usize>,
) -> (r: String)
    ensures
        r@ == command_noted(command@, opt_text(cwd), timeout_seconds, max_output_bytes),
{
    let timeout = match timeout_seconds {
        Some(n) => Some(decimal_text(n)),
        None => None,
    };
    let max_output = match max_output_bytes {
        Some(n) => Some(decimal_text(n as u64)),
        None => None,
    };
    let mut out = with_heading("RunCommand { command: ", command);
    out.append(", cwd: ");
    out.append(write_optional(cwd).as_str());
    out.append(", timeout_seconds: ");
    out.append(write_optional(timeout).as_str());
    out.append(", max_output_bytes: ");
    out.append(write_optional(max_output).as_str());
    out.append(" }");
    out
}

/// Writes an operation.
pub fn operation_text(op: &AdminOperation) -> (r: String)
    ensures
        r@ == operation_noted(op@),
{
    match op {
        AdminOperation::Ping => "Ping".to_owned(),
        AdminOperation::GetStatus => "GetStatus".to_owned(),
        AdminOperation::RunCommand { command, cwd, timeout_seconds, max_output_bytes } => {
            let dir = match cwd {
                Some(dir) => Some(quote(dir.as_str())),
                None => None,
            };
            command_text(
                quote(command.as_str()).as_str(),
                dir,
                *timeout_seconds,
                *max_output_bytes,
            )
        },
    }
}

// ---------------------------------------------------------------------------
// Lines
// ---------------------------------------------------------------------------

/// The line that is written of a request before it is carried out.
pub open spec fn request_noted(req: RequestView) -> Seq<char> {
    "operation="@ + operation_noted(req.operation) + " reason="@ + req.reason
}

/// The line that is written of an answer before it is sent. `elapsed` says how
/// long the request took.
pub open spec fn answer_noted(answer: ResponseView, elapsed: Seq<char>) -> Seq<char> {
    "done ok="@ + bool_text(answer.ok) + " exit_code="@ + exit_code_text(answer.exit_code)
        + " elapsed="@ + elapsed
}

/// The line that is written of a client that could not be served.
pub open spec fn failure_noted(failure: Seq<char>) -> Seq<char> {
    "request failed: "@ + failure
}

/// Writes the line of a request, given how its operation is written.
pub fn request_line(operation: &str, reason: &str) -> (r: String)
    ensures
        r@ == "operation="@ + operation@ + " reason="@ + reason@,
{
    let mut out = with_heading("operation=", operation);
    out.append(" reason=");
    out.append(reason);
    out
}

/// Writes the line of a request.
pub fn note_request(req: &AdminRequest) -> (r: String)
    ensures
        r@ == request_noted(req@),
{
    request_line(operation_text(&req.operation).as_str(), req.reason.as_str())
}

/// Writes the line of an answer.
pub fn answer_line(answer: &AdminResponse, elapsed: &str) -> (r: String)
    ensures
        r@ == answer_noted(answer@, elapsed@),
{
    let mut out = with_heading("done ok=", write_bool(answer.ok));
    out.append(" exit_code=");
    out.append(write_exit_code(answer.exit_code).as_str());
    out.append(" elapsed=");
    out.append(elapsed);
    out
}

/// Writes the line of a client that could not be served.
pub fn failure_line(failure: &str) -> (r: String)
    ensures
        r@ == failure_noted(failure@),
{
    with_heading("request failed: ", failure)
}

/// Writes the line with which the server starts.
pub fn listening_line() -> (r: String)
    ensures
        r@ == "admin-broker listening on "@ + PIPE_NAME@,
{
    with_heading("admin-broker listening on ", PIPE_NAME)
}

/// Writes the line with which the server ends: only one that was told to stop
/// writes any.
pub fn ended_line(result: &Result<(), PipeError>) -> (r: Option<String>)
    ensures
        opt_text(r) == (match result {
            Ok(_) => Some("admin-broker stopped"@),
            Err(_) => None,
        }),
{
    match result {
        Ok(_) => Some("admin-broker stopped".to_owned()),
        Err(_) => None,
    }
}

/// Writes the line of a service that failed.
pub fn service_error_line(failure: &str) -> (r: String)
    ensures
        r@ == "service error: "@ + failure@,
{
    with_heading("service error: ", failure)
}

// ---------------------------------------------------------------------------
// Laws
// ---------------------------------------------------------------------------

/// A command in the log holds the command, the directory, the timeout and the
/// limit, in that order, each number in decimal, and each that is missing as
/// such.
pub proof fn law_command_text(
    command: &str,
    cwd: Option<String>,
    timeout_seconds: Option<u64>,
    max_output_bytes: Option<usize>,
    r: String,
)
    requires
        call_ensures(command_text, (command, cwd, timeout_seconds, max_output_bytes), r),
    ensures
        r@ == "RunCommand { command: "@ + command@ + ", cwd: "@ + (match cwd {
            Some(dir) => "Some("@ + dir@ + ")"@,
            None => "None"@,
        }) + ", timeout_seconds: "@ + (match timeout_seconds {
            Some(n) => "Some("@ + decimal(n as nat) + ")"@,
            None => "None"@,
        }) + ", max_output_bytes: "@ + (match max_output_bytes {
            Some(n) => "Some("@ + decimal(n as nat) + ")"@,
            None => "None"@,
        }) + " }"@,
{
}

/// An operation in the log is named; a command is one with its own text and its
/// own directory, each quoted, and its own settings.
pub proof fn law_operation_text(
    op: &AdminOperation,
    quoted_command: &str,
    quoted_dir: Option<String>,
    of_command: String,
    r: String,
)
    requires
        call_ensures(operation_text, (op,), r),
        *op matches AdminOperation::RunCommand {
            command,
            cwd,
            timeout_seconds,
            max_output_bytes,
        } ==> {
            &&& quoted_command@ == quoted(command@)
            &&& quoted_dir is Some <==> cwd is Some
            &&& cwd matches Some(dir) ==> quoted_dir->Some_0@ == quoted(dir@)
            &&& call_ensures(
                command_text,
                (quoted_command, quoted_dir, timeout_seconds, max_output_bytes),
                of_command,
            )
        },
    ensures
        *op is Ping ==> r@ == "Ping"@,
        *op is GetStatus ==> r@ == "GetStatus"@,
        *op is RunCommand ==> r@ == of_command@,
{
}

/// The line of a request holds its operation and ends in its whole reason.
pub proof fn law_note_request(req: &AdminRequest, operation: String, r: String)
    requires
        call_ensures(note_request, (req,), r),
        call_ensures(operation_text, (&req.operation,), operation),
    ensures
        tells(r@, "operation="@ + operation@ + " reason="@, req.reason@),
{
    lemma_tells("operation="@ + operation@ + " reason="@, req.reason@);
}

/// The other lines: each says what it is for, with what it was given at its end.
pub proof fn law_lines(
    operation: &str,
    text: &str,
    request: String,
    failure: String,
    service_error: String,
    listening: String,
    result: &Result<(), PipeError>,
    ended: Option<String>,
)
    requires
        call_ensures(request_line, (operation, text), request),
        call_ensures(failure_line, (text,), failure),
        call_ensures(service_error_line, (text,), service_error),
        call_ensures(listening_line, (), listening),
        call_ensures(ended_line, (result,), ended),
    ensures
        tells(request@, "operation="@ + operation@ + " reason="@, text@),
        tells(failure@, "request failed: "@, text@),
        tells(service_error@, "service error: "@, text@),
        tells(listening@, "admin-broker listening on "@, r"\\.\pipe\admin-powershell-mcp"@),
        ended is Some <==> *result is Ok,
        ended matches Some(line) ==> line@ == "admin-broker stopped"@,
{
    lemma_tells("operation="@ + operation@ + " reason="@, text@);
    lemma_tells("request failed: "@, text@);
    lemma_tells("service error: "@, text@);
    lemma_tells("admin-broker listening on "@, PIPE_NAME@);
}

/// The line of an answer holds its success and its exit code, and ends in how
/// long it took.
pub proof fn law_answer_line(answer: &AdminResponse, elapsed: &str, code: String, r: String)
    requires
        call_ensures(answer_line, (answer, elapsed), r),
        call_ensures(write_exit_code, (answer.exit_code,), code),
    ensures
        tells(
            r@,
            (if answer.ok {
                "done ok="@ + "true"@
            } else {
                "done ok="@ + "false"@
            }) + " exit_code="@ + code@ + " elapsed="@,
            elapsed@,
        ),
{
    lemma_tells(
        "done ok="@ + bool_text(answer.ok) + " exit_code="@ + code@ + " elapsed="@,
        elapsed@,
    );
}

} // verus!
