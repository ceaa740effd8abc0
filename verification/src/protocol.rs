//! What the client and the broker say to each other.
use vstd::prelude::*;

verus! {

/// The name of the pipe on which the broker listens.
pub const PIPE_NAME: &'static str = r"\\.\pipe\admin-powershell-mcp";

/// Who may use the pipe, as a security descriptor: the system and the
/// administrators in every way, authenticated users to read and write.
pub const PIPE_SECURITY: &'static str = "D:(A;;GA;;;SY)(A;;GA;;;BA)(A;;GRGW;;;AU)";

/// The most bytes that one read from the pipe, or one write to it, carries.
pub const BUFFER_SIZE: u32 = 65536;

/// Converts a string slice (`<String as From<&str>>::from`): the string holds
/// the text of the slice.
pub assume_specification<'a>[ <String as core::convert::From<&'a str>>::from ](
    s: &str,
) -> (r: String)
    ensures
        r@ == s@,
;

/// Converts a value to its own type (`<T as From<T>>::from`): the value comes
/// back as it is.
pub assume_specification<Value>[ <Value as core::convert::From<Value>>::from ](t: Value) -> (r: Value)
    ensures
        r == t,
;

/// A result, with its value and its error as their views.
pub open spec fn viewed<T: View, E: View>(r: Result<T, E>) -> Result<T::V, E::V> {
    match r {
        Ok(v) => Ok(v@),
        Err(e) => Err(e@),
    }
}

/// The text of a string that may be missing.
pub open spec fn opt_text(s: Option<String>) -> Option<Seq<char>> {
    match s {
        Some(s) => Some(s@),
        None => None,
    }
}

/// A request to the broker.
#[derive(Debug, Clone)]
pub struct AdminRequest {
    pub operation: AdminOperation,
    pub reason: String,
}

/// What the broker is asked to do.
#[derive(Debug, Clone)]
pub enum AdminOperation {
    Ping,
    GetStatus,
    RunCommand {
        command: String,
        cwd: Option<String>,
        timeout_seconds: Option<u64>,
        max_output_bytes: Option<usize>,
    },
}

/// The broker's answer.
#[derive(Debug, Clone)]
pub struct AdminResponse {
    pub ok: bool,
    pub exit_code: Option<i32>,
    pub stdout: String,
    pub stderr: String,
}

/// An [`AdminRequest`], with texts as sequences of characters.
pub struct RequestView {
    pub operation: OperationView,
    pub reason: Seq<char>,
}

/// An [`AdminOperation`], with texts as sequences of characters.
pub enum OperationView {
    Ping,
    GetStatus,
    RunCommand {
        command: Seq<char>,
        cwd: Option<Seq<char>>,
        timeout_seconds: Option<u64>,
        max_output_bytes: Option<usize>,
    },
}

/// An [`AdminResponse`], with texts as sequences of characters.
pub struct ResponseView {
    pub ok: bool,
    pub exit_code: Option<i32>,
    pub stdout: Seq<char>,
    pub stderr: Seq<char>,
}

impl View for AdminRequest {
    type V = RequestView;

    open spec fn view(&self) -> RequestView {
        RequestView { operation: self.operation@, reason: self.reason@ }
    }
}

impl View for AdminOperation {
    type V = OperationView;

    open spec fn view(&self) -> OperationView {
        match *self {
            AdminOperation::Ping => OperationView::Ping,
            AdminOperation::GetStatus => OperationView::GetStatus,
            AdminOperation::RunCommand { command, cwd, timeout_seconds, max_output_bytes } => {
                OperationView::RunCommand {
                    command: command@,
                    cwd: opt_text(cwd),
                    timeout_seconds,
                    max_output_bytes,
                }
            },
        }
    }
}

impl View for AdminResponse {
    type V = ResponseView;

    open spec fn view(&self) -> ResponseView {
        ResponseView {
            ok: self.ok,
            exit_code: self.exit_code,
            stdout: self.stdout@,
            stderr: self.stderr@,
        }
    }
}

/// The answer of a success that gives back `stdout`.
pub open spec fn success(stdout: Seq<char>) -> ResponseView {
    ResponseView { ok: true, exit_code: Some(0), stdout, stderr: Seq::empty() }
}

/// The answer of a failure for which no program gave an exit code.
pub open spec fn failure(message: Seq<char>) -> ResponseView {
    ResponseView { ok: false, exit_code: None, stdout: Seq::empty(), stderr: message }
}

impl AdminResponse {
    /// A success with exit code 0, the given output and no error output.
    pub fn ok<T: Into<String>>(stdout: T) -> (r: Self)
        ensures
            r@ == success(r.stdout@),
            call_ensures(<T as Into<String>>::into, (stdout,), r.stdout),
    {
        AdminResponse { ok: true, exit_code: Some(0), stdout: stdout.into(), stderr: String::new() }
    }

    /// A failure without exit code and without output, with the given message
    /// as its error output.
    pub fn err<T: Into<String>>(message: T) -> (r: Self)
        ensures
            r@ == failure(r.stderr@),
            call_ensures(<T as Into<String>>::into, (message,), r.stderr),
    {
        AdminResponse {
            ok: false,
            exit_code: None,
            stdout: String::new(),
            stderr: message.into(),
        }
    }
}

// ---------------------------------------------------------------------------
// Laws
// ---------------------------------------------------------------------------

/// The pipe and its parameters.
pub proof fn law_pipe_parameters()
    ensures
        PIPE_NAME@ == r"\\.\pipe\admin-powershell-mcp"@,
        PIPE_SECURITY@ == "D:(A;;GA;;;SY)(A;;GA;;;BA)(A;;GRGW;;;AU)"@,
        BUFFER_SIZE == 64 * 1024,
{
}

/// A success is one in every field: exit code 0, and no error output.
pub proof fn law_ok<T: Into<String>>(stdout: T, r: AdminResponse)
    requires
        call_ensures(AdminResponse::ok::<T>, (stdout,), r),
    ensures
        r.ok,
        r.exit_code == Some(0i32),
        r.stderr@.len() == 0,
        call_ensures(<T as Into<String>>::into, (stdout,), r.stdout),
{
}

/// A failure is one in every field: no exit code, and no output.
pub proof fn law_err<T: Into<String>>(message: T, r: AdminResponse)
    requires
        call_ensures(AdminResponse::err::<T>, (message,), r),
    ensures
        !r.ok,
        r.exit_code is None,
        r.stdout@.len() == 0,
        call_ensures(<T as Into<String>>::into, (message,), r.stderr),
{
}

/// Requests, operations and answers with the same view are the same in every
/// part.
pub proof fn law_views_hold_every_part(a: AdminRequest, b: AdminRequest, x: AdminResponse, y: AdminResponse)
    ensures
        a@ == b@ ==> {
            &&& a.reason@ == b.reason@
            &&& a.operation is Ping <==> b.operation is Ping
            &&& a.operation is GetStatus <==> b.operation is GetStatus
            &&& a.operation matches AdminOperation::RunCommand {
                command,
                cwd,
                timeout_seconds,
                max_output_bytes,
            } ==> {
                &&& b.operation is RunCommand
                &&& b.operation->command@ == command@
                &&& b.operation->cwd is Some <==> cwd is Some
                &&& cwd matches Some(dir) ==> b.operation->cwd->Some_0@ == dir@
                &&& b.operation->timeout_seconds == timeout_seconds
                &&& b.operation->max_output_bytes == max_output_bytes
            }
        },
        x@ == y@ ==> x.ok == y.ok && x.exit_code == y.exit_code && x.stdout@ == y.stdout@
            && x.stderr@ == y.stderr@,
{
}

/// The view of a result, or of a text that may be missing, is there exactly
/// where the value is, and is that value's.
pub proof fn law_views_of_results<T: View, E: View>(r: Result<T, E>, s: Option<String>)
    ensures
        r matches Ok(v) ==> viewed(r) == Ok::<T::V, E::V>(v@),
        r matches Err(e) ==> viewed(r) == Err::<T::V, E::V>(e@),
        opt_text(s) is Some <==> s is Some,
        s matches Some(text) ==> opt_text(s)->Some_0 == text@,
{
}

} // verus!
