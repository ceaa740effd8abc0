//! The policy file and the limits that it sets.
use vstd::prelude::*;
use crate::error::{BrokerError, ErrorView};
use crate::protocol::viewed;
use crate::text::texts;

verus! {

/// What an administrator may set for the broker.
#[derive(Debug)]
pub struct Policy {
    pub allowed_command_regexes: Vec<String>,
    pub default_timeout_seconds: Option<u64>,
    pub max_timeout_seconds: Option<u64>,
    pub default_output_bytes: Option<usize>,
    pub max_output_bytes: Option<usize>,
}

/// A [`Policy`], with texts as sequences of characters.
pub struct PolicyView {
    pub allowed_command_regexes: Seq<Seq<char>>,
    pub default_timeout_seconds: Option<u64>,
    pub max_timeout_seconds: Option<u64>,
    pub default_output_bytes: Option<usize>,
    pub max_output_bytes: Option<usize>,
}

impl View for Policy {
    type V = PolicyView;

    open spec fn view(&self) -> PolicyView {
        PolicyView {
            allowed_command_regexes: texts(self.allowed_command_regexes@),
            default_timeout_seconds: self.default_timeout_seconds,
            max_timeout_seconds: self.max_timeout_seconds,
            default_output_bytes: self.default_output_bytes,
            max_output_bytes: self.max_output_bytes,
        }
    }
}

/// The policy that sets nothing.
pub open spec fn no_policy() -> PolicyView {
    PolicyView {
        allowed_command_regexes: Seq::empty(),
        default_timeout_seconds: None,
        max_timeout_seconds: None,
        default_output_bytes: None,
        max_output_bytes: None,
    }
}

impl Default for Policy {
    fn default() -> (r: Self)
        ensures
            r@ == no_policy(),
    {
        let r = Policy {
            allowed_command_regexes: Vec::new(),
            default_timeout_seconds: None,
            max_timeout_seconds: None,
            default_output_bytes: None,
            max_output_bytes: None,
        };
        assert(r@.allowed_command_regexes =~= no_policy().allowed_command_regexes);
        r
    }
}

/// What came of reading the policy file.
#[derive(Debug)]
pub enum PolicyFile {
    /// The file is missing or could not be read as text.
    Unreadable,
    /// The file was read, and this is what it sets.
    Parsed(Policy),
    /// The file was read, but it is not a policy.
    Invalid { cause: String },
}

/// A [`PolicyFile`], with texts as sequences of characters.
pub enum PolicyFileView {
    Unreadable,
    Parsed(PolicyView),
    Invalid { cause: Seq<char> },
}

impl View for PolicyFile {
    type V = PolicyFileView;

    open spec fn view(&self) -> PolicyFileView {
        match *self {
            PolicyFile::Unreadable => PolicyFileView::Unreadable,
            PolicyFile::Parsed(policy) => PolicyFileView::Parsed(policy@),
            PolicyFile::Invalid { cause } => PolicyFileView::Invalid { cause: cause@ },
        }
    }
}

/// The policy in force: a file that cannot be read sets nothing, and one that
/// is not a policy is an error.
pub open spec fn loaded(file: PolicyFileView) -> Result<PolicyView, ErrorView> {
    match file {
        PolicyFileView::Unreadable => Ok(no_policy()),
        PolicyFileView::Parsed(policy) => Ok(policy),
        PolicyFileView::Invalid { cause } => Err(ErrorView::InvalidPolicy { cause }),
    }
}

/// Takes the policy in force from the outcome of reading its file.
pub fn load_policy(file: PolicyFile) -> (r: Result<Policy, BrokerError>)
    ensures
        viewed(r) == loaded(file@),
{
    match file {
        PolicyFile::Unreadable => Ok(Policy::default()),
        PolicyFile::Parsed(policy) => Ok(policy),
        PolicyFile::Invalid { cause } => Err(BrokerError::InvalidPolicy { cause }),
    }
}

// ---------------------------------------------------------------------------
// Limits
// ---------------------------------------------------------------------------

/// The number from `low` to `high` that is nearest to `x`.
pub open spec fn clamped(x: int, low: int, high: int) -> int {
    if x < low {
        low
    } else if x > high {
        high
    } else {
        x
    }
}

/// The number set, or `otherwise` where none is.
pub open spec fn set_or(x: Option<int>, otherwise: int) -> int {
    match x {
        Some(x) => x,
        None => otherwise,
    }
}

/// An optional count of seconds as a mathematical number.
pub open spec fn seconds(x: Option<u64>) -> Option<int> {
    match x {
        Some(x) => Some(x as int),
        None => None,
    }
}

/// An optional count of bytes as a mathematical number.
pub open spec fn bytes(x: Option<usize>) -> Option<int> {
    match x {
        Some(x) => Some(x as int),
        None => None,
    }
}

/// The longest timeout under a policy, in seconds: what it sets, else ten
/// minutes; at least a second and at most a day.
pub open spec fn timeout_limit(policy: PolicyView) -> int {
    clamped(set_or(seconds(policy.max_timeout_seconds), 600), 1, 86_400)
}

/// The timeout of a command that asks for none: what the policy sets, else two
/// minutes; within the limit.
pub open spec fn usual_timeout(policy: PolicyView) -> int {
    clamped(set_or(seconds(policy.default_timeout_seconds), 120), 1, timeout_limit(policy))
}

/// The timeout of a command: the one it asks for, else the usual one; within
/// the limit.
pub open spec fn granted_timeout(policy: PolicyView, requested: Option<u64>) -> int {
    clamped(set_or(seconds(requested), usual_timeout(policy)), 1, timeout_limit(policy))
}

/// The most output bytes under a policy: what it sets, else a million; at least
/// one and at most a hundred million.
pub open spec fn output_limit(policy: PolicyView) -> int {
    clamped(set_or(bytes(policy.max_output_bytes), 1_000_000), 1, 100_000_000)
}

/// The output bytes of a command that asks for no number: what the policy sets,
/// else two hundred thousand; within the limit.
pub open spec fn usual_output(policy: PolicyView) -> int {
    clamped(set_or(bytes(policy.default_output_bytes), 200_000), 1, output_limit(policy))
}

/// The output bytes of a command: the number it asks for, else the usual one;
/// within the limit.
pub open spec fn granted_output(policy: PolicyView, requested: Option<usize>) -> int {
    clamped(set_or(bytes(requested), usual_output(policy)), 1, output_limit(policy))
}

fn clamp_u64(x: u64, low: u64, high: u64) -> (r: u64)
    ensures
        r == clamped(x as int, low as int, high as int),
{
    if x < low {
        low
    } else if x > high {
        high
    } else {
        x
    }
}

fn clamp_usize(x: usize, low: usize, high: usize) -> (r: usize)
    ensures
        r == clamped(x as int, low as int, high as int),
{
    if x < low {
        low
    } else if x > high {
        high
    } else {
        x
    }
}

/// How many seconds a command may run.
pub fn command_timeout(file: PolicyFile, requested: Option<u64>) -> (r: Result<u64, BrokerError>)
    ensures
        match loaded(file@) {
            Ok(policy) => r matches Ok(t) && t == granted_timeout(policy, requested),
            Err(e) => r matches Err(x) && x@ == e,
        },
{
    let policy = match load_policy(file) {
        Ok(policy) => policy,
        Err(e) => {
            return Err(e);
        },
    };
    let max: u64 = clamp_u64(policy.max_timeout_seconds.unwrap_or(600), 1, 86_400);
    let default: u64 = clamp_u64(policy.default_timeout_seconds.unwrap_or(120), 1, max);
    Ok(clamp_u64(requested.unwrap_or(default), 1, max))
}

/// How many bytes of each of a command's outputs come back.
pub fn command_max_output(file: PolicyFile, requested: Option<usize>) -> (r: Result<
    usize,
    BrokerError,
>)
    ensures
        match loaded(file@) {
            Ok(policy) => r matches Ok(n) && n == granted_output(policy, requested),
            Err(e) => r matches Err(x) && x@ == e,
        },
{
    let policy = match load_policy(file) {
        Ok(policy) => policy,
        Err(e) => {
            return Err(e);
        },
    };
    let max: usize = clamp_usize(policy.max_output_bytes.unwrap_or(1_000_000), 1, 100_000_000);
    let default: usize = clamp_usize(policy.default_output_bytes.unwrap_or(200_000), 1, max);
    Ok(clamp_usize(requested.unwrap_or(default), 1, max))
}

// ---------------------------------------------------------------------------
// Laws
// ---------------------------------------------------------------------------

/// Whatever a policy sets and a command asks for, the timeout is at least a
/// second and never above the limit, and the limit never above a day.
pub proof fn law_timeout_is_bounded(policy: PolicyView, requested: Option<u64>)
    ensures
        1 <= granted_timeout(policy, requested) <= timeout_limit(policy) <= 86_400,
{
}

/// A timeout within the limit is granted as asked for.
pub proof fn law_timeout_within_limit_is_granted(policy: PolicyView, requested: u64)
    requires
        1 <= requested <= timeout_limit(policy),
    ensures
        granted_timeout(policy, Some(requested)) == requested,
{
}

/// Asking for a longer timeout never gives a shorter one.
pub proof fn law_timeout_is_monotone(policy: PolicyView, shorter: u64, longer: u64)
    requires
        shorter <= longer,
    ensures
        granted_timeout(policy, Some(shorter)) <= granted_timeout(policy, Some(longer)),
{
}

/// Whatever a policy sets and a command asks for, at least one byte of output
/// may come back and never more than the limit, and the limit is never above a
/// hundred million.
pub proof fn law_output_is_bounded(policy: PolicyView, requested: Option<usize>)
    ensures
        1 <= granted_output(policy, requested) <= output_limit(policy) <= 100_000_000,
{
}

/// A number of output bytes within the limit is granted as asked for.
pub proof fn law_output_within_limit_is_granted(policy: PolicyView, requested: usize)
    requires
        1 <= requested <= output_limit(policy),
    ensures
        granted_output(policy, Some(requested)) == requested,
{
}

/// Asking for more output never gives less.
pub proof fn law_output_is_monotone(policy: PolicyView, fewer: usize, more: usize)
    requires
        fewer <= more,
    ensures
        granted_output(policy, Some(fewer)) <= granted_output(policy, Some(more)),
{
}

/// A policy that leaves the limits of a request unset gives the built-in ones:
/// two minutes, or what is asked for up to ten minutes; two hundred thousand
/// bytes, or what is asked for up to a million.
pub proof fn law_unset_limits(policy: PolicyView, timeout: Option<u64>, output: Option<usize>)
    requires
        policy.default_timeout_seconds is None,
        policy.max_timeout_seconds is None,
        policy.default_output_bytes is None,
        policy.max_output_bytes is None,
    ensures
        granted_timeout(policy, timeout) == clamped(set_or(seconds(timeout), 120), 1, 600),
        granted_output(policy, output) == clamped(set_or(bytes(output), 200_000), 1, 1_000_000),
{
}

/// A policy file that was read is in force with every setting as it stands
/// there; one that cannot be read sets nothing; one that is no policy is an
/// error with its cause.
pub proof fn law_load_policy(file: PolicyFile, r: Result<Policy, BrokerError>)
    requires
        call_ensures(load_policy, (file,), r),
    ensures
        file matches PolicyFile::Parsed(set) ==> r matches Ok(got) && {
            &&& got.default_timeout_seconds == set.default_timeout_seconds
            &&& got.max_timeout_seconds == set.max_timeout_seconds
            &&& got.default_output_bytes == set.default_output_bytes
            &&& got.max_output_bytes == set.max_output_bytes
            &&& got.allowed_command_regexes@.len() == set.allowed_command_regexes@.len()
            &&& forall|i: int|
                0 <= i < set.allowed_command_regexes@.len()
                    ==> #[trigger] got.allowed_command_regexes@[i]@
                    == set.allowed_command_regexes@[i]@
        },
        file is Unreadable ==> (r matches Ok(got) && {
            &&& got.default_timeout_seconds is None
            &&& got.max_timeout_seconds is None
            &&& got.default_output_bytes is None
            &&& got.max_output_bytes is None
            &&& got.allowed_command_regexes@.len() == 0
        }),
        file matches PolicyFile::Invalid { cause } ==> r matches Err(
            BrokerError::InvalidPolicy { cause: told },
        ) && told@ == cause@,
{
    if let PolicyFile::Parsed(set) = file {
        let got = r->Ok_0;
        assert(texts(got.allowed_command_regexes@) == texts(set.allowed_command_regexes@));
        assert(texts(got.allowed_command_regexes@).len() == got.allowed_command_regexes@.len());
        assert forall|i: int| 0 <= i < set.allowed_command_regexes@.len() implies
            #[trigger] got.allowed_command_regexes@[i]@ == set.allowed_command_regexes@[i]@ by {
            assert(texts(got.allowed_command_regexes@)[i] == texts(set.allowed_command_regexes@)[i]);
        }
    }
    if file is Unreadable {
        let got = r->Ok_0;
        assert(texts(got.allowed_command_regexes@).len() == got.allowed_command_regexes@.len());
    }
}

/// A timeout that is asked for is granted as it is, but never none, and never more
/// than the policy's limit, or ten minutes without one, or a day: where less is
/// granted, it is one of these.
pub proof fn law_timeout_asked_for(policy: Policy, asked: u64, r: Result<u64, BrokerError>)
    requires
        call_ensures(command_timeout, (PolicyFile::Parsed(policy), Some(asked)), r),
    ensures
        r matches Ok(granted) && {
            &&& 1 <= granted <= 86_400
            &&& granted <= asked || granted == 1
            &&& policy.max_timeout_seconds is None ==> granted <= 600
            &&& policy.max_timeout_seconds matches Some(max) ==> granted <= max || granted == 1
            &&& granted < asked ==> {
                ||| granted == 86_400
                ||| policy.max_timeout_seconds is None && granted == 600
                ||| policy.max_timeout_seconds == Some(granted)
                ||| policy.max_timeout_seconds == Some(0u64)
            }
        },
{
}

/// Where a policy sets a default from one up to its limit, a command that asks
/// for none is granted exactly that default.
pub proof fn law_default_timeout_is_granted(policy: Policy, default: u64, r: Result<u64, BrokerError>)
    requires
        policy.default_timeout_seconds == Some(default),
        1 <= default <= 86_400,
        match policy.max_timeout_seconds {
            Some(max) => default <= max,
            None => default <= 600,
        },
        call_ensures(command_timeout, (PolicyFile::Parsed(policy), None::<u64>), r),
    ensures
        r == Ok::<u64, BrokerError>(default),
{
}

/// A command that asks for none is treated as one that asks for the policy's
/// default, or for 120 where the policy sets none.
pub proof fn law_no_timeout_means_the_default(
    policy: Policy,
    asked: u64,
    with_none: Result<u64, BrokerError>,
    with_asked: Result<u64, BrokerError>,
)
    requires
        match policy.default_timeout_seconds {
            Some(default) => asked == default,
            None => asked == 120,
        },
        call_ensures(command_timeout, (PolicyFile::Parsed(policy), None::<u64>), with_none),
        call_ensures(command_timeout, (PolicyFile::Parsed(policy), Some(asked)), with_asked),
    ensures
        with_none matches Ok(a) && with_asked matches Ok(b) && a == b,
{
}

/// Nothing else in a policy touches it: two policies with the same two settings
/// grant the same.
pub proof fn law_timeout_depends_on_its_settings_alone(
    a: Policy,
    b: Policy,
    asked: Option<u64>,
    from_a: Result<u64, BrokerError>,
    from_b: Result<u64, BrokerError>,
)
    requires
        a.max_timeout_seconds == b.max_timeout_seconds,
        a.default_timeout_seconds == b.default_timeout_seconds,
        call_ensures(command_timeout, (PolicyFile::Parsed(a), asked), from_a),
        call_ensures(command_timeout, (PolicyFile::Parsed(b), asked), from_b),
    ensures
        from_a matches Ok(x) && from_b matches Ok(y) && x == y,
{
}

/// A policy file that cannot be read is one that sets nothing; one that is no
/// policy grants nothing, and is the error.
pub proof fn law_timeout_without_a_policy(
    bare: Policy,
    cause: String,
    asked: Option<u64>,
    unreadable: Result<u64, BrokerError>,
    parsed: Result<u64, BrokerError>,
    invalid: Result<u64, BrokerError>,
)
    requires
        bare.max_timeout_seconds is None,
        bare.default_timeout_seconds is None,
        call_ensures(command_timeout, (PolicyFile::Unreadable, asked), unreadable),
        call_ensures(command_timeout, (PolicyFile::Parsed(bare), asked), parsed),
        call_ensures(command_timeout, (PolicyFile::Invalid { cause }, asked), invalid),
    ensures
        unreadable matches Ok(x) && parsed matches Ok(y) && x == y,
        invalid matches Err(BrokerError::InvalidPolicy { cause: told }) && told@ == cause@,
{
}

/// An output limit that is asked for is granted as it is, but never none, and never more
/// than the policy's limit, or a million bytes without one, or a hundred million: where less is
/// granted, it is one of these.
pub proof fn law_output_asked_for(policy: Policy, asked: usize, r: Result<usize, BrokerError>)
    requires
        call_ensures(command_max_output, (PolicyFile::Parsed(policy), Some(asked)), r),
    ensures
        r matches Ok(granted) && {
            &&& 1 <= granted <= 100_000_000
            &&& granted <= asked || granted == 1
            &&& policy.max_output_bytes is None ==> granted <= 1_000_000
            &&& policy.max_output_bytes matches Some(max) ==> granted <= max || granted == 1
            &&& granted < asked ==> {
                ||| granted == 100_000_000
                ||| policy.max_output_bytes is None && granted == 1_000_000
                ||| policy.max_output_bytes == Some(granted)
                ||| policy.max_output_bytes == Some(0usize)
            }
        },
{
}

/// Where a policy sets a default from one up to its limit, a command that asks
/// for none is granted exactly that default.
pub proof fn law_default_output_is_granted(policy: Policy, default: usize, r: Result<usize, BrokerError>)
    requires
        policy.default_output_bytes == Some(default),
        1 <= default <= 100_000_000,
        match policy.max_output_bytes {
            Some(max) => default <= max,
            None => default <= 1_000_000,
        },
        call_ensures(command_max_output, (PolicyFile::Parsed(policy), None::<usize>), r),
    ensures
        r == Ok::<usize, BrokerError>(default),
{
}

/// A command that asks for none is treated as one that asks for the policy's
/// default, or for 200_000 where the policy sets none.
pub proof fn law_no_output_means_the_default(
    policy: Policy,
    asked: usize,
    with_none: Result<usize, BrokerError>,
    with_asked: Result<usize, BrokerError>,
)
    requires
        match policy.default_output_bytes {
            Some(default) => asked == default,
            None => asked == 200000,
        },
        call_ensures(command_max_output, (PolicyFile::Parsed(policy), None::<usize>), with_none),
        call_ensures(command_max_output, (PolicyFile::Parsed(policy), Some(asked)), with_asked),
    ensures
        with_none matches Ok(a) && with_asked matches Ok(b) && a == b,
{
}

/// Nothing else in a policy touches it: two policies with the same two settings
/// grant the same.
pub proof fn law_output_depends_on_its_settings_alone(
    a: Policy,
    b: Policy,
    asked: Option<usize>,
    from_a: Result<usize, BrokerError>,
    from_b: Result<usize, BrokerError>,
)
    requires
        a.max_output_bytes == b.max_output_bytes,
        a.default_output_bytes == b.default_output_bytes,
        call_ensures(command_max_output, (PolicyFile::Parsed(a), asked), from_a),
        call_ensures(command_max_output, (PolicyFile::Parsed(b), asked), from_b),
    ensures
        from_a matches Ok(x) && from_b matches Ok(y) && x == y,
{
}

/// A policy file that cannot be read is one that sets nothing; one that is no
/// policy grants nothing, and is the error.
pub proof fn law_output_without_a_policy(
    bare: Policy,
    cause: String,
    asked: Option<usize>,
    unreadable: Result<usize, BrokerError>,
    parsed: Result<usize, BrokerError>,
    invalid: Result<usize, BrokerError>,
)
    requires
        bare.max_output_bytes is None,
        bare.default_output_bytes is None,
        call_ensures(command_max_output, (PolicyFile::Unreadable, asked), unreadable),
        call_ensures(command_max_output, (PolicyFile::Parsed(bare), asked), parsed),
        call_ensures(command_max_output, (PolicyFile::Invalid { cause }, asked), invalid),
    ensures
        unreadable matches Ok(x) && parsed matches Ok(y) && x == y,
        invalid matches Err(BrokerError::InvalidPolicy { cause: told }) && told@ == cause@,
{
}

} // verus!
