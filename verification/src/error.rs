//! Why the broker refuses or fails an operation.
use vstd::prelude::*;

verus! {

/// Why the broker could not carry out an operation. A `cause` is the text of
/// the failure underneath.
#[derive(Debug)]
pub enum BrokerError {
    /// The command is blank.
    CommandRequired,
    /// Neither the policy nor the built-in list allows the command.
    CommandNotAllowed { command: String },
    /// The policy file is there but cannot be understood.
    InvalidPolicy { cause: String },
    /// A pattern of the policy is no regular expression.
    InvalidRegex { pattern: String, cause: String },
    /// The program could not be run.
    ProgramFailed { program: String, cause: String },
    /// Nothing could be set up to wait for the command.
    RuntimeFailed { cause: String },
    /// The command could not be started.
    CommandFailed { command: String, cause: String },
    /// The command's output could not be read.
    OutputFailed { cause: String },
}

/// A [`BrokerError`], with texts as sequences of characters.
pub enum ErrorView {
    CommandRequired,
    CommandNotAllowed { command: Seq<char> },
    InvalidPolicy { cause: Seq<char> },
    InvalidRegex { pattern: Seq<char>, cause: Seq<char> },
    ProgramFailed { program: Seq<char>, cause: Seq<char> },
    RuntimeFailed { cause: Seq<char> },
    CommandFailed { command: Seq<char>, cause: Seq<char> },
    OutputFailed { cause: Seq<char> },
}

impl View for BrokerError {
    type V = ErrorView;

    open spec fn view(&self) -> ErrorView {
        match *self {
            BrokerError::CommandRequired => ErrorView::CommandRequired,
            BrokerError::CommandNotAllowed { command } => ErrorView::CommandNotAllowed {
                command: command@,
            },
            BrokerError::InvalidPolicy { cause } => ErrorView::InvalidPolicy { cause: cause@ },
            BrokerError::InvalidRegex { pattern, cause } => ErrorView::InvalidRegex {
                pattern: pattern@,
                cause: cause@,
            },
            BrokerError::ProgramFailed { program, cause } => ErrorView::ProgramFailed {
                program: program@,
                cause: cause@,
            },
            BrokerError::RuntimeFailed { cause } => ErrorView::RuntimeFailed { cause: cause@ },
            BrokerError::CommandFailed { command, cause } => ErrorView::CommandFailed {
                command: command@,
                cause: cause@,
            },
            BrokerError::OutputFailed { cause } => ErrorView::OutputFailed { cause: cause@ },
        }
    }
}

/// What is said of an error: what was being done, and behind a colon the cause.
pub open spec fn message_of(e: ErrorView) -> Seq<char> {
    match e {
        ErrorView::CommandRequired => "command is required"@,
        ErrorView::CommandNotAllowed { command } => "command is not allowed by whitelist: "@
            + command,
        ErrorView::InvalidPolicy { cause } => "invalid policy.toml: "@ + cause,
        ErrorView::InvalidRegex { pattern, cause } => "invalid regex: "@ + pattern + ": "@ + cause,
        ErrorView::ProgramFailed { program, cause } => "failed to run "@ + program + ": "@ + cause,
        ErrorView::RuntimeFailed { cause } => cause,
        ErrorView::CommandFailed { command, cause } => "failed to run command: "@ + command + ": "@
            + cause,
        ErrorView::OutputFailed { cause } => "read command output: "@ + cause,
    }
}

/// What is said of a failure with what was being done, where that is known, and
/// what it comes from.
pub open spec fn chained(doing: Option<Seq<char>>, root: Seq<char>) -> Seq<char> {
    match doing {
        Some(doing) => doing + ": "@ + root,
        None => root,
    }
}

/// A heading followed by a text.
pub fn with_heading(heading: &str, text: &str) -> (r: String)
    ensures
        r@ == heading@ + text@,
{
    let mut out = heading.to_owned();
    out.append(text);
    out
}

/// A heading followed by a text, a colon and a cause.
pub fn with_cause(heading: &str, text: &str, cause: &str) -> (r: String)
    ensures
        r@ == heading@ + text@ + ": "@ + cause@,
{
    let mut out = with_heading(heading, text);
    out.append(": ");
    out.append(cause);
    out
}

impl BrokerError {
    /// The message for the client.
    pub fn message(&self) -> (r: String)
        ensures
            r@ == message_of(self@),
    {
        match self {
            BrokerError::CommandRequired => "command is required".to_owned(),
            BrokerError::CommandNotAllowed { command } => with_heading(
                "command is not allowed by whitelist: ",
                command.as_str(),
            ),
            BrokerError::InvalidPolicy { cause } => with_heading(
                "invalid policy.toml: ",
                cause.as_str(),
            ),
            BrokerError::InvalidRegex { pattern, cause } => with_cause(
                "invalid regex: ",
                pattern.as_str(),
                cause.as_str(),
            ),
            BrokerError::ProgramFailed { program, cause } => with_cause(
                "failed to run ",
                program.as_str(),
                cause.as_str(),
            ),
            BrokerError::RuntimeFailed { cause } => cause.as_str().to_owned(),
            BrokerError::CommandFailed { command, cause } => with_cause(
                "failed to run command: ",
                command.as_str(),
                cause.as_str(),
            ),
            BrokerError::OutputFailed { cause } => with_heading(
                "read command output: ",
                cause.as_str(),
            ),
        }
    }
}

// ---------------------------------------------------------------------------
// Laws
// ---------------------------------------------------------------------------

/// A message says something and then a detail: it starts with the one, ends in
/// the other, and has nothing between.
pub open spec fn tells(message: Seq<char>, saying: Seq<char>, detail: Seq<char>) -> bool {
    &&& message.len() == saying.len() + detail.len()
    &&& message.take(saying.len() as int) == saying
    &&& message.skip(saying.len() as int) == detail
}

/// A row of two texts tells the first and then the second.
pub proof fn lemma_tells(saying: Seq<char>, detail: Seq<char>)
    ensures
        tells(saying + detail, saying, detail),
{
    assert((saying + detail).take(saying.len() as int) =~= saying);
    assert((saying + detail).skip(saying.len() as int) =~= detail);
}

/// A heading stands before its text, with nothing between.
pub proof fn law_with_heading(heading: &str, text: &str, r: String)
    requires
        call_ensures(with_heading, (heading, text), r),
    ensures
        tells(r@, heading@, text@),
{
    lemma_tells(heading@, text@);
}

/// A cause stands behind what it is the cause of and a colon.
pub proof fn law_with_cause(heading: &str, text: &str, cause: &str, r: String)
    requires
        call_ensures(with_cause, (heading, text, cause), r),
    ensures
        tells(r@, heading@ + text@ + ": "@, cause@),
{
    lemma_tells(heading@ + text@ + ": "@, cause@);
}

/// What the client is told of each error: what went wrong, with the command,
/// pattern or program as it is, and in the end the whole cause.
pub proof fn law_error_messages(e: &BrokerError, r: String)
    requires
        call_ensures(BrokerError::message, (e,), r),
    ensures
        *e is CommandRequired ==> r@ == "command is required"@,
        *e matches BrokerError::CommandNotAllowed { command } ==> tells(
            r@,
            "command is not allowed by whitelist: "@,
            command@,
        ),
        *e matches BrokerError::InvalidPolicy { cause } ==> tells(
            r@,
            "invalid policy.toml: "@,
            cause@,
        ),
        *e matches BrokerError::InvalidRegex { pattern, cause } ==> tells(
            r@,
            "invalid regex: "@ + pattern@ + ": "@,
            cause@,
        ),
        *e matches BrokerError::ProgramFailed { program, cause } ==> tells(
            r@,
            "failed to run "@ + program@ + ": "@,
            cause@,
        ),
        *e matches BrokerError::RuntimeFailed { cause } ==> r@ == cause@,
        *e matches BrokerError::CommandFailed { command, cause } ==> tells(
            r@,
            "failed to run command: "@ + command@ + ": "@,
            cause@,
        ),
        *e matches BrokerError::OutputFailed { cause } ==> tells(
            r@,
            "read command output: "@,
            cause@,
        ),
{
    match *e {
        BrokerError::CommandNotAllowed { command } => lemma_tells(
            "command is not allowed by whitelist: "@,
            command@,
        ),
        BrokerError::InvalidPolicy { cause } => lemma_tells("invalid policy.toml: "@, cause@),
        BrokerError::InvalidRegex { pattern, cause } => lemma_tells(
            "invalid regex: "@ + pattern@ + ": "@,
            cause@,
        ),
        BrokerError::ProgramFailed { program, cause } => lemma_tells(
            "failed to run "@ + program@ + ": "@,
            cause@,
        ),
        BrokerError::CommandFailed { command, cause } => lemma_tells(
            "failed to run command: "@ + command@ + ": "@,
            cause@,
        ),
        BrokerError::OutputFailed { cause } => lemma_tells("read command output: "@, cause@),
        _ => {},
    }
}

} // verus!
