//! Which commands may run: the patterns of the policy, and the built-in list
//! behind them.
use vstd::prelude::*;
use regex::Regex;
use crate::error::{BrokerError, ErrorView};
use crate::normalize::{normalize_command, normalized};
use crate::policy::{load_policy, loaded, Policy, PolicyFile, PolicyFileView, PolicyView};
use crate::protocol::viewed;
use crate::text::{chars_of, starts_with, texts};

verus! {

// ---------------------------------------------------------------------------
// Regular expressions
// ---------------------------------------------------------------------------

/// A compiled regular expression of the `regex` crate.
#[verifier::external_type_specification]
#[verifier::external_body]
pub struct ExRegex(regex::Regex);

/// Why the `regex` crate refuses a pattern.
#[verifier::external_type_specification]
#[verifier::external_body]
pub struct ExRegexError(regex::Error);

/// What `regex::Regex::new` makes of a pattern on a target with words of
/// `word_bits` bits.
pub uninterp spec fn regex_new(pattern: Seq<char>, word_bits: u32) -> Result<
    regex::Regex,
    regex::Error,
>;

/// What `regex::Regex::is_match` says of a regular expression and a text.
pub uninterp spec fn regex_is_match(re: regex::Regex, haystack: Seq<char>) -> bool;

/// The text that `regex::Error` displays.
pub uninterp spec fn regex_error_text(e: regex::Error) -> Seq<char>;

/// Compiles a pattern (`regex::Regex::new`): the outcome follows from the
/// pattern and the size of the target's words. The latter counts because the
/// crate limits the size of a compiled pattern in bytes of memory.
pub assume_specification[ regex::Regex::new ](re: &str) -> (r: Result<regex::Regex, regex::Error>)
    ensures
        r == regex_new(re@, usize::BITS),
;

/// Searches a text (`regex::Regex::is_match`): the answer follows from the
/// regular expression and the text alone.
pub assume_specification[ regex::Regex::is_match ](re: &regex::Regex, haystack: &str) -> (r: bool)
    ensures
        r == regex_is_match(*re, haystack@),
;

/// Displays an error of the `regex` crate (`<regex::Error as Display>::fmt`,
/// through `to_string`): the text follows from the error alone.
#[verifier::external_body]
fn regex_error_message(e: &regex::Error) -> (r: String)
    ensures
        r@ == regex_error_text(*e),
{
    e.to_string()
}

// ---------------------------------------------------------------------------
// Patterns of the policy
// ---------------------------------------------------------------------------

/// What came of trying one pattern on a command.
#[derive(Debug)]
pub enum PatternOutcome {
    /// The pattern matches the command.
    Matches,
    /// The pattern does not match the command.
    Differs,
    /// The pattern is no regular expression.
    Invalid { cause: String },
}

/// A [`PatternOutcome`], with texts as sequences of characters.
pub enum PatternOutcomeView {
    Matches,
    Differs,
    Invalid { cause: Seq<char> },
}

impl View for PatternOutcome {
    type V = PatternOutcomeView;

    open spec fn view(&self) -> PatternOutcomeView {
        match *self {
            PatternOutcome::Matches => PatternOutcomeView::Matches,
            PatternOutcome::Differs => PatternOutcomeView::Differs,
            PatternOutcome::Invalid { cause } => PatternOutcomeView::Invalid { cause: cause@ },
        }
    }
}

/// What comes of trying a pattern on a command.
pub open spec fn outcome_of(pattern: Seq<char>, command: Seq<char>) -> PatternOutcomeView {
    match regex_new(pattern, usize::BITS) {
        Ok(re) => if regex_is_match(re, command) {
            PatternOutcomeView::Matches
        } else {
            PatternOutcomeView::Differs
        },
        Err(e) => PatternOutcomeView::Invalid { cause: regex_error_text(e) },
    }
}

/// What comes of trying each of the patterns on a command.
pub open spec fn outcomes_of(patterns: Seq<Seq<char>>, command: Seq<char>) -> Seq<
    PatternOutcomeView,
> {
    Seq::new(patterns.len(), |i: int| outcome_of(patterns[i], command))
}

/// What one pattern decides, if anything: a match allows the command, and a
/// pattern that is no regular expression is an error.
pub open spec fn pattern_decision(
    pattern: Seq<char>,
    outcome: PatternOutcomeView,
) -> Option<Result<bool, ErrorView>> {
    match outcome {
        PatternOutcomeView::Matches => Some(Ok(true)),
        PatternOutcomeView::Differs => None,
        PatternOutcomeView::Invalid { cause } => Some(
            Err(ErrorView::InvalidRegex { pattern, cause }),
        ),
    }
}

/// What the patterns decide, given what came of each: the first one that
/// decides anything does, and the command is not allowed where none does.
pub open spec fn patterns_decision(
    patterns: Seq<Seq<char>>,
    outcomes: Seq<PatternOutcomeView>,
) -> Result<bool, ErrorView>
    decreases patterns.len(),
{
    if patterns.len() == 0 {
        Ok(false)
    } else {
        match pattern_decision(patterns[0], outcomes[0]) {
            Some(decision) => decision,
            None => patterns_decision(patterns.drop_first(), outcomes.drop_first()),
        }
    }
}

/// Tries a pattern on a command.
pub fn try_pattern(pattern: &str, command: &str) -> (r: PatternOutcome)
    ensures
        r@ == outcome_of(pattern@, command@),
{
    match Regex::new(pattern) {
        Ok(re) => if re.is_match(command) {
            PatternOutcome::Matches
        } else {
            PatternOutcome::Differs
        },
        Err(e) => PatternOutcome::Invalid { cause: regex_error_message(&e) },
    }
}

/// Takes the decision of one pattern, if it makes any, from what came of it.
pub fn decide_pattern(pattern: &str, outcome: PatternOutcome) -> (r: Option<
    Result<bool, BrokerError>,
>)
    ensures
        match pattern_decision(pattern@, outcome@) {
            Some(decision) => r matches Some(d) && viewed(d) == decision,
            None => r is None,
        },
{
    match outcome {
        PatternOutcome::Matches => Some(Ok(true)),
        PatternOutcome::Differs => None,
        PatternOutcome::Invalid { cause } => Some(
            Err(BrokerError::InvalidRegex { pattern: pattern.to_owned(), cause }),
        ),
    }
}

/// Whether a pattern of the policy allows a command. Patterns behind the one
/// that decides are not looked at.
pub fn policy_allows(policy: &Policy, command: &str) -> (r: Result<bool, BrokerError>)
    ensures
        viewed(r) == patterns_decision(
            policy@.allowed_command_regexes,
            outcomes_of(policy@.allowed_command_regexes, command@),
        ),
{
    let ghost patterns = policy@.allowed_command_regexes;
    let ghost outcomes = outcomes_of(patterns, command@);
    assert(patterns.skip(0) =~= patterns);
    assert(outcomes.skip(0) =~= outcomes);
    for i in 0..policy.allowed_command_regexes.len()
        invariant
            patterns == texts(policy.allowed_command_regexes@),
            outcomes == outcomes_of(patterns, command@),
            patterns_decision(patterns, outcomes) == patterns_decision(
                patterns.skip(i as int),
                outcomes.skip(i as int),
            ),
    {
        let pattern = policy.allowed_command_regexes[i].as_str();
        assert(patterns.skip(i as int)[0] == pattern@);
        assert(outcomes.skip(i as int)[0] == outcome_of(pattern@, command@));
        if let Some(decision) = decide_pattern(pattern, try_pattern(pattern, command)) {
            return decision;
        }
        assert(patterns.skip(i as int).drop_first() =~= patterns.skip(i + 1));
        assert(outcomes.skip(i as int).drop_first() =~= outcomes.skip(i + 1));
    }
    Ok(false)
}

// ---------------------------------------------------------------------------
// The built-in list
// ---------------------------------------------------------------------------

/// The commands that need no policy, each with any arguments.
pub const ALLOWED_COMMAND_PREFIXES: [&'static str; 25] = [
    "chkdsk c: /scan",
    "dism /online /cleanup-image /restorehealth",
    "dism /online /cleanup-image /scanhealth",
    "fsutil volume diskfree",
    "get-computerinfo",
    "get-eventlog",
    "get-process",
    "get-service",
    "get-winevent",
    "ipconfig /all",
    "ipconfig /displaydns",
    "ipconfig /flushdns",
    "restart-service",
    "sc.exe qc",
    "sc.exe query",
    "sc.exe start",
    "sc.exe stop",
    "sfc /scannow",
    "start-service",
    "stop-service",
    "wevtutil gli",
    "wevtutil qe",
    "winget list",
    "winget show",
    "winget upgrade",
];

/// A command is covered by a prefix if it is the prefix, or the prefix, a space
/// and anything more.
pub open spec fn covers(prefix: Seq<char>, command: Seq<char>) -> bool {
    command == prefix || prefix.push(' ').is_prefix_of(command)
}

/// A prefix of the built-in list covers the command.
pub open spec fn listed(command: Seq<char>) -> bool {
    exists|i: int|
        0 <= i < ALLOWED_COMMAND_PREFIXES@.len() && covers(
            #[trigger] ALLOWED_COMMAND_PREFIXES@[i]@,
            command,
        )
}

/// Whether the built-in list allows a command.
pub fn default_prefix_allows(command: &str) -> (r: bool)
    ensures
        r == listed(command@),
{
    let text = chars_of(command);
    for i in 0..25
        invariant
            text@ == command@,
            forall|j: int|
                0 <= j < i ==> !covers(#[trigger] ALLOWED_COMMAND_PREFIXES@[j]@, command@),
    {
        let ghost prefix = ALLOWED_COMMAND_PREFIXES@[i as int]@;
        let mut start = chars_of(ALLOWED_COMMAND_PREFIXES[i]);
        if start.len() == text.len() && starts_with(&text, &start) {
            assert(text@ =~= prefix);
            assert(covers(ALLOWED_COMMAND_PREFIXES@[i as int]@, command@));
            return true;
        }
        assert(command@ != prefix) by {
            if command@ == prefix {
                assert(prefix.subrange(0, prefix.len() as int) =~= prefix);
            }
        }
        start.push(' ');
        if starts_with(&text, &start) {
            assert(covers(ALLOWED_COMMAND_PREFIXES@[i as int]@, command@));
            return true;
        }
    }
    false
}

// ---------------------------------------------------------------------------
// The whitelist
// ---------------------------------------------------------------------------

/// The verdict on a command, given its normal form and what the policy decides
/// of that: the built-in list speaks where the policy does not allow it.
pub open spec fn verdict(
    command: Seq<char>,
    normal: Seq<char>,
    by_policy: Result<bool, ErrorView>,
) -> Result<(), ErrorView> {
    match by_policy {
        Ok(allowed) => if allowed || listed(normal) {
            Ok(())
        } else {
            Err(ErrorView::CommandNotAllowed { command })
        },
        Err(e) => Err(e),
    }
}

/// What the policy in a file decides of a command in normal form.
pub open spec fn policy_decision(file: PolicyFileView, normal: Seq<char>) -> Result<
    bool,
    ErrorView,
> {
    match loaded(file) {
        Ok(policy) => patterns_decision(
            policy.allowed_command_regexes,
            outcomes_of(policy.allowed_command_regexes, normal),
        ),
        Err(e) => Err(e),
    }
}

/// The verdict on a command under the policy in a file.
pub open spec fn validated(command: Seq<char>, file: PolicyFileView) -> Result<(), ErrorView> {
    let normal = normalized(command);
    if normal.len() == 0 {
        Err(ErrorView::CommandRequired)
    } else {
        verdict(command, normal, policy_decision(file, normal))
    }
}

/// Gives the verdict on a command from its normal form and what the policy
/// decides.
pub fn decide_command(command: &str, normal: &str, by_policy: Result<bool, BrokerError>) -> (r:
    Result<(), BrokerError>)
    ensures
        viewed(r) == verdict(command@, normal@, viewed(by_policy)),
{
    match by_policy {
        Ok(allowed) => if allowed || default_prefix_allows(normal) {
            Ok(())
        } else {
            Err(BrokerError::CommandNotAllowed { command: command.to_owned() })
        },
        Err(e) => Err(e),
    }
}

/// Checks that a command may run.
pub fn validate_command(command: &str, file: PolicyFile) -> (r: Result<(), BrokerError>)
    ensures
        viewed(r) == validated(command@, file@),
{
    let normal = normalize_command(command);
    if normal.as_str().is_empty() {
        return Err(BrokerError::CommandRequired);
    }
    let by_policy = match load_policy(file) {
        Ok(policy) => policy_allows(&policy, normal.as_str()),
        Err(e) => Err(e),
    };
    decide_command(command, normal.as_str(), by_policy)
}

// ---------------------------------------------------------------------------
// Laws
// ---------------------------------------------------------------------------

/// The patterns from number `i` on decide, where those before it decide nothing.
proof fn lemma_undecided_patterns_drop(
    patterns: Seq<Seq<char>>,
    outcomes: Seq<PatternOutcomeView>,
    i: int,
)
    requires
        outcomes.len() == patterns.len(),
        0 <= i <= patterns.len(),
        forall|j: int| 0 <= j < i ==> #[trigger] outcomes[j] is Differs,
    ensures
        patterns_decision(patterns, outcomes) == patterns_decision(
            patterns.skip(i),
            outcomes.skip(i),
        ),
    decreases i,
{
    if i == 0 {
        assert(patterns.skip(0) =~= patterns);
        assert(outcomes.skip(0) =~= outcomes);
    } else {
        lemma_undecided_patterns_drop(patterns, outcomes, i - 1);
        assert(outcomes.skip(i - 1)[0] == outcomes[i - 1]);
        assert(patterns.skip(i - 1).drop_first() =~= patterns.skip(i));
        assert(outcomes.skip(i - 1).drop_first() =~= outcomes.skip(i));
    }
}

/// The first pattern that does not merely differ decides, whatever stands
/// behind it: a match allows the command, and a pattern that is no regular
/// expression is an error.
pub proof fn law_first_decisive_pattern_decides(
    patterns: Seq<Seq<char>>,
    outcomes: Seq<PatternOutcomeView>,
    i: int,
)
    requires
        outcomes.len() == patterns.len(),
        0 <= i < patterns.len(),
        forall|j: int| 0 <= j < i ==> #[trigger] outcomes[j] is Differs,
        !(outcomes[i] is Differs),
    ensures
        patterns_decision(patterns, outcomes) == (match outcomes[i] {
            PatternOutcomeView::Invalid { cause } => Err(
                ErrorView::InvalidRegex { pattern: patterns[i], cause },
            ),
            _ => Ok(true),
        }),
{
    lemma_undecided_patterns_drop(patterns, outcomes, i);
    assert(patterns.skip(i)[0] == patterns[i]);
    assert(outcomes.skip(i)[0] == outcomes[i]);
}

/// Where no pattern matches and none is faulty, the policy does not allow the
/// command.
pub proof fn law_no_pattern_matches(
    patterns: Seq<Seq<char>>,
    outcomes: Seq<PatternOutcomeView>,
)
    requires
        outcomes.len() == patterns.len(),
        forall|j: int| 0 <= j < outcomes.len() ==> #[trigger] outcomes[j] is Differs,
    ensures
        patterns_decision(patterns, outcomes) == Ok::<bool, ErrorView>(false),
{
    lemma_undecided_patterns_drop(patterns, outcomes, patterns.len() as int);
}

/// Patterns that allow a command have one among them that matches it.
proof fn lemma_allowed_by_some_pattern(
    patterns: Seq<Seq<char>>,
    outcomes: Seq<PatternOutcomeView>,
)
    requires
        outcomes.len() == patterns.len(),
        patterns_decision(patterns, outcomes) == Ok::<bool, ErrorView>(true),
    ensures
        exists|i: int| 0 <= i < patterns.len() && #[trigger] outcomes[i] is Matches,
    decreases patterns.len(),
{
    if outcomes[0] is Differs {
        lemma_allowed_by_some_pattern(patterns.drop_first(), outcomes.drop_first());
        let i = choose|i: int|
            0 <= i < patterns.len() - 1 && #[trigger] outcomes.drop_first()[i] is Matches;
        assert(outcomes[i + 1] is Matches);
    } else {
        assert(outcomes[0] is Matches);
    }
}

/// Without a policy file the built-in list alone decides.
pub proof fn law_missing_policy_falls_back(command: Seq<char>)
    requires
        normalized(command).len() > 0,
    ensures
        validated(command, PolicyFileView::Unreadable) == (if listed(normalized(command)) {
            Ok(())
        } else {
            Err(ErrorView::CommandNotAllowed { command })
        }),
{
}

/// A policy of which no pattern matches leaves the decision to the built-in
/// list, as if there were no policy file.
pub proof fn law_unmatched_policy_falls_back(command: Seq<char>, policy: PolicyView)
    requires
        forall|i: int|
            0 <= i < policy.allowed_command_regexes.len() ==> (regex_new(
                #[trigger] policy.allowed_command_regexes[i],
                usize::BITS,
            ) matches Ok(re) && !regex_is_match(re, normalized(command))),
    ensures
        validated(command, PolicyFileView::Parsed(policy)) == validated(
            command,
            PolicyFileView::Unreadable,
        ),
{
    let patterns = policy.allowed_command_regexes;
    let outcomes = outcomes_of(patterns, normalized(command));
    assert forall|i: int| 0 <= i < outcomes.len() implies #[trigger] outcomes[i] is Differs by {
        assert(outcomes[i] == outcome_of(patterns[i], normalized(command)));
    }
    law_no_pattern_matches(patterns, outcomes);
}

/// A pattern that matches a command's normal form allows the command, where
/// none of the patterns before it is faulty.
pub proof fn law_matching_pattern_allows(command: Seq<char>, policy: PolicyView, i: int)
    requires
        normalized(command).len() > 0,
        0 <= i < policy.allowed_command_regexes.len(),
        regex_new(policy.allowed_command_regexes[i], usize::BITS) matches Ok(re) && regex_is_match(
            re,
            normalized(command),
        ),
        forall|j: int|
            0 <= j < i ==> regex_new(
                #[trigger] policy.allowed_command_regexes[j],
                usize::BITS,
            ) is Ok,
    ensures
        validated(command, PolicyFileView::Parsed(policy)) == Ok::<(), ErrorView>(()),
    decreases i,
{
    let patterns = policy.allowed_command_regexes;
    let outcomes = outcomes_of(patterns, normalized(command));
    if exists|j: int| 0 <= j < i && #[trigger] outcomes[j] is Matches {
        let j = choose|j: int| 0 <= j < i && #[trigger] outcomes[j] is Matches;
        assert(outcome_of(patterns[j], normalized(command)) is Matches);
        law_matching_pattern_allows(command, policy, j);
    } else {
        assert forall|j: int| 0 <= j < i implies #[trigger] outcomes[j] is Differs by {
            assert(!(outcome_of(patterns[j], normalized(command)) is Invalid));
        }
        law_first_decisive_pattern_decides(patterns, outcomes, i);
    }
}

/// A command passes only if its normal form is not empty and is matched by a
/// pattern of the policy or covered by the built-in list.
pub proof fn law_only_whitelisted_commands_pass(command: Seq<char>, file: PolicyFileView)
    requires
        validated(command, file) is Ok,
    ensures
        normalized(command).len() > 0,
        listed(normalized(command)) || (file matches PolicyFileView::Parsed(policy) && exists|
            i: int,
        |
            0 <= i < policy.allowed_command_regexes.len() && (regex_new(
                #[trigger] policy.allowed_command_regexes[i],
                usize::BITS,
            ) matches Ok(re) && regex_is_match(re, normalized(command)))),
{
    let normal = normalized(command);
    if !listed(normal) {
        let policy = loaded(file)->Ok_0;
        let patterns = policy.allowed_command_regexes;
        let outcomes = outcomes_of(patterns, normal);
        lemma_allowed_by_some_pattern(patterns, outcomes);
        let i = choose|i: int| 0 <= i < patterns.len() && #[trigger] outcomes[i] is Matches;
        assert(outcome_of(patterns[i], normal) is Matches);
    }
}

/// A policy file that is not a policy lets no command pass.
pub proof fn law_invalid_policy_refuses(command: Seq<char>, cause: Seq<char>)
    ensures
        validated(command, PolicyFileView::Invalid { cause }) is Err,
        normalized(command).len() > 0 ==> validated(command, PolicyFileView::Invalid { cause })
            == Err::<(), ErrorView>(ErrorView::InvalidPolicy { cause }),
{
}

/// Commands with the same normal form pass or are refused alike.
pub proof fn law_verdict_follows_normal_form(a: Seq<char>, b: Seq<char>, file: PolicyFileView)
    requires
        normalized(a) == normalized(b),
    ensures
        validated(a, file) is Ok <==> validated(b, file) is Ok,
        validated(a, file) is Err && !(validated(a, file)->Err_0 is CommandNotAllowed)
            ==> validated(b, file) == validated(a, file),
{
}

/// The built-in list allows each of its prefixes, alone and with any arguments.
pub proof fn law_prefix_with_arguments_is_listed(i: int, arguments: Seq<char>)
    requires
        0 <= i < ALLOWED_COMMAND_PREFIXES@.len(),
    ensures
        listed(ALLOWED_COMMAND_PREFIXES@[i]@),
        listed(ALLOWED_COMMAND_PREFIXES@[i]@.push(' ') + arguments),
{
    let prefix = ALLOWED_COMMAND_PREFIXES@[i]@;
    let command = prefix.push(' ') + arguments;
    assert(covers(ALLOWED_COMMAND_PREFIXES@[i]@, prefix));
    assert(command.subrange(0, prefix.len() as int + 1) =~= prefix.push(' '));
    assert(covers(ALLOWED_COMMAND_PREFIXES@[i]@, command));
}

/// A prefix ends where a word of the command ends: one that the command goes on
/// from without a space does not cover it.
pub proof fn law_prefix_ends_at_a_word(prefix: Seq<char>, rest: Seq<char>)
    requires
        rest.len() > 0,
        rest[0] != ' ',
    ensures
        !covers(prefix, prefix + rest),
{
    let command = prefix + rest;
    assert(command.len() > prefix.len());
    if prefix.push(' ').is_prefix_of(command) {
        assert(prefix.push(' ')[prefix.len() as int] == command.subrange(
            0,
            prefix.len() as int + 1,
        )[prefix.len() as int]);
        assert(command[prefix.len() as int] == rest[0]);
    }
}

/// Trying a pattern on a command is compiling it and searching the whole command
/// for it: it matches exactly if the search says so, and is invalid exactly if
/// it does not compile, with what is said of that.
pub proof fn law_pattern_is_tried_on_the_whole_command(
    pattern: &str,
    command: &str,
    r: PatternOutcome,
)
    requires
        call_ensures(try_pattern, (pattern, command), r),
    ensures
        regex_new(pattern@, usize::BITS) matches Ok(re) ==> {
            &&& r is Matches <==> regex_is_match(re, command@)
            &&& r is Differs <==> !regex_is_match(re, command@)
        },
        regex_new(pattern@, usize::BITS) matches Err(e) ==> r matches PatternOutcome::Invalid {
            cause,
        } && cause@ == regex_error_text(e),
{
}

/// The same of what the contracts say comes of a pattern.
pub proof fn law_outcome_of_a_pattern(pattern: Seq<char>, command: Seq<char>)
    ensures
        outcome_of(pattern, command) is Matches <==> (regex_new(pattern, usize::BITS) matches Ok(re)
            && regex_is_match(re, command)),
        outcome_of(pattern, command) is Differs <==> (regex_new(pattern, usize::BITS) matches Ok(re)
            && !regex_is_match(re, command)),
        outcome_of(pattern, command) is Invalid <==> regex_new(pattern, usize::BITS) is Err,
{
}

/// A pattern that matches allows, one that differs says nothing, and one that is
/// invalid is an error that names it and why.
pub proof fn law_decide_pattern(
    pattern: &str,
    outcome: PatternOutcome,
    r: Option<Result<bool, BrokerError>>,
)
    requires
        call_ensures(decide_pattern, (pattern, outcome), r),
    ensures
        r is None <==> outcome is Differs,
        outcome is Matches ==> (r matches Some(Ok(allowed)) && allowed),
        outcome matches PatternOutcome::Invalid { cause } ==> r matches Some(
            Err(BrokerError::InvalidRegex { pattern: named, cause: told }),
        ) && named@ == pattern@ && told@ == cause@,
{
}

/// The patterns before number `i` compile and do not match `text`.
pub open spec fn passed_over(patterns: Seq<String>, text: Seq<char>, i: int) -> bool {
    forall|j: int|
        0 <= j < i ==> (regex_new(#[trigger] patterns[j]@, usize::BITS) matches Ok(re)
            && !regex_is_match(re, text))
}

/// Patterns that are passed over decide nothing.
proof fn lemma_passed_over(patterns: Seq<String>, text: Seq<char>, i: int)
    requires
        0 <= i <= patterns.len(),
        passed_over(patterns, text, i),
    ensures
        ({
            let decision = patterns_decision(texts(patterns), outcomes_of(texts(patterns), text));
            &&& i == patterns.len() ==> decision == Ok::<bool, ErrorView>(false)
            &&& i < patterns.len() ==> match regex_new(patterns[i]@, usize::BITS) {
                Ok(re) => regex_is_match(re, text) ==> decision == Ok::<bool, ErrorView>(true),
                Err(e) => decision == Err::<bool, ErrorView>(
                    ErrorView::InvalidRegex { pattern: patterns[i]@, cause: regex_error_text(e) },
                ),
            }
        }),
{
    let list = texts(patterns);
    let outcomes = outcomes_of(list, text);
    assert forall|j: int| 0 <= j < i implies #[trigger] outcomes[j] is Differs by {
        assert(list[j] == patterns[j]@);
    }
    if i == patterns.len() {
        law_no_pattern_matches(list, outcomes);
    } else {
        assert(list[i] == patterns[i]@);
        if !(outcomes[i] is Differs) {
            law_first_decisive_pattern_decides(list, outcomes, i);
        }
    }
}

/// What the patterns of a policy say of a text is decided by the first that
/// matches the whole text or does not compile; behind it none is looked at, and
/// without it the policy does not allow the text.
pub proof fn law_policy_allows(policy: &Policy, text: &str, r: Result<bool, BrokerError>, i: int)
    requires
        call_ensures(policy_allows, (policy, text), r),
        0 <= i <= policy.allowed_command_regexes@.len(),
        passed_over(policy.allowed_command_regexes@, text@, i),
    ensures
        i == policy.allowed_command_regexes@.len() ==> (r matches Ok(allowed) && !allowed),
        i < policy.allowed_command_regexes@.len() ==> match regex_new(
            policy.allowed_command_regexes@[i]@,
            usize::BITS,
        ) {
            Ok(re) => regex_is_match(re, text@) ==> (r matches Ok(allowed) && allowed),
            Err(e) => r matches Err(BrokerError::InvalidRegex { pattern, cause }) && pattern@
                == policy.allowed_command_regexes@[i]@ && cause@ == regex_error_text(e),
        },
{
    lemma_passed_over(policy.allowed_command_regexes@, text@, i);
}

/// The commands that need no policy, by their texts.
pub open spec fn built_in() -> Seq<Seq<char>> {
    seq![
        "chkdsk c: /scan"@,
        "dism /online /cleanup-image /restorehealth"@,
        "dism /online /cleanup-image /scanhealth"@,
        "fsutil volume diskfree"@,
        "get-computerinfo"@,
        "get-eventlog"@,
        "get-process"@,
        "get-service"@,
        "get-winevent"@,
        "ipconfig /all"@,
        "ipconfig /displaydns"@,
        "ipconfig /flushdns"@,
        "restart-service"@,
        "sc.exe qc"@,
        "sc.exe query"@,
        "sc.exe start"@,
        "sc.exe stop"@,
        "sfc /scannow"@,
        "start-service"@,
        "stop-service"@,
        "wevtutil gli"@,
        "wevtutil qe"@,
        "winget list"@,
        "winget show"@,
        "winget upgrade"@,
    ]
}

/// The built-in list holds these texts and no others.
pub proof fn law_built_in_list()
    ensures
        ALLOWED_COMMAND_PREFIXES@.len() == built_in().len() == 25,
        forall|i: int| 0 <= i < 25 ==> #[trigger] ALLOWED_COMMAND_PREFIXES@[i]@ == built_in()[i],
{
    let list = ALLOWED_COMMAND_PREFIXES@;
    assert(list[0]@ == "chkdsk c: /scan"@);
    assert(list[1]@ == "dism /online /cleanup-image /restorehealth"@);
    assert(list[2]@ == "dism /online /cleanup-image /scanhealth"@);
    assert(list[3]@ == "fsutil volume diskfree"@);
    assert(list[4]@ == "get-computerinfo"@);
    assert(list[5]@ == "get-eventlog"@);
    assert(list[6]@ == "get-process"@);
    assert(list[7]@ == "get-service"@);
    assert(list[8]@ == "get-winevent"@);
    assert(list[9]@ == "ipconfig /all"@);
    assert(list[10]@ == "ipconfig /displaydns"@);
    assert(list[11]@ == "ipconfig /flushdns"@);
    assert(list[12]@ == "restart-service"@);
    assert(list[13]@ == "sc.exe qc"@);
    assert(list[14]@ == "sc.exe query"@);
    assert(list[15]@ == "sc.exe start"@);
    assert(list[16]@ == "sc.exe stop"@);
    assert(list[17]@ == "sfc /scannow"@);
    assert(list[18]@ == "start-service"@);
    assert(list[19]@ == "stop-service"@);
    assert(list[20]@ == "wevtutil gli"@);
    assert(list[21]@ == "wevtutil qe"@);
    assert(list[22]@ == "winget list"@);
    assert(list[23]@ == "winget show"@);
    assert(list[24]@ == "winget upgrade"@);
}

/// The built-in list allows a command exactly if it is one of its texts, or one
/// of them with a space and anything behind.
pub proof fn law_default_prefix_allows(command: &str, r: bool)
    requires
        call_ensures(default_prefix_allows, (command,), r),
    ensures
        r <==> exists|i: int|
            0 <= i < 25 && {
                ||| command@ == #[trigger] built_in()[i]
                ||| command@.len() > built_in()[i].len() && command@.take(built_in()[i].len() as int)
                    == built_in()[i] && command@[built_in()[i].len() as int] == ' '
            },
{
    law_built_in_list();
    assert forall|i: int| 0 <= i < 25 implies covers(#[trigger] built_in()[i], command@) == {
        ||| command@ == built_in()[i]
        ||| command@.len() > built_in()[i].len() && command@.take(built_in()[i].len() as int)
            == built_in()[i] && command@[built_in()[i].len() as int] == ' '
    } by {
        lemma_covers(built_in()[i], command@);
    }
    if r {
        let i = choose|i: int|
            0 <= i < ALLOWED_COMMAND_PREFIXES@.len() && covers(
                #[trigger] ALLOWED_COMMAND_PREFIXES@[i]@,
                command@,
            );
        assert(covers(built_in()[i], command@));
    }
    if exists|i: int| 0 <= i < 25 && covers(#[trigger] built_in()[i], command@) {
        let i = choose|i: int| 0 <= i < 25 && covers(#[trigger] built_in()[i], command@);
        assert(covers(ALLOWED_COMMAND_PREFIXES@[i]@, command@));
    }
}

/// A prefix covers a command that goes on from it with a space.
proof fn lemma_covers(prefix: Seq<char>, command: Seq<char>)
    ensures
        covers(prefix, command) <==> {
            ||| command == prefix
            ||| command.len() > prefix.len() && command.take(prefix.len() as int) == prefix
                && command[prefix.len() as int] == ' '
        },
{
    let n = prefix.len() as int;
    if prefix.push(' ').is_prefix_of(command) {
        assert(command.subrange(0, n + 1)[n] == prefix.push(' ')[n]);
        assert forall|k: int| 0 <= k < n implies command[k] == prefix[k] by {
            assert(command.subrange(0, n + 1)[k] == prefix.push(' ')[k]);
        }
        assert(command.take(n) =~= prefix);
    }
    if command.len() > n && command.take(n) == prefix && command[n] == ' ' {
        assert forall|k: int| 0 <= k < n implies command[k] == prefix[k] by {
            assert(command.take(n)[k] == prefix[k]);
        }
        assert(command.subrange(0, n + 1) =~= prefix.push(' '));
    }
}

/// A verdict is the policy's error where it has one; a command is refused by its
/// own text exactly where neither the policy nor the built-in list allows it.
pub proof fn law_decide_command(
    command: &str,
    normal: &str,
    by_policy: Result<bool, BrokerError>,
    on_list: bool,
    r: Result<(), BrokerError>,
)
    requires
        call_ensures(decide_command, (command, normal, by_policy), r),
        call_ensures(default_prefix_allows, (normal,), on_list),
    ensures
        by_policy matches Err(e) ==> r matches Err(told) && told@ == e@,
        by_policy matches Ok(allowed) ==> {
            &&& r is Ok <==> allowed || on_list
            &&& r is Err ==> (r matches Err(BrokerError::CommandNotAllowed { command: named })
                && named@ == command@)
        },
{
}

/// A command under a policy that was read: the patterns are tried on the whole
/// normal form and on nothing else, in their order, up to the first that matches
/// it, which allows the command, or that does not compile, which is the error.
/// Without such a pattern the built-in list alone decides, and the command is
/// refused by the text in which it came.
pub proof fn law_validate_command(
    command: &str,
    normal: &str,
    normal_form: String,
    on_list: bool,
    policy: Policy,
    i: int,
    r: Result<(), BrokerError>,
)
    requires
        call_ensures(normalize_command, (command,), normal_form),
        normal@ == normal_form@,
        normal@.len() > 0,
        call_ensures(default_prefix_allows, (normal,), on_list),
        call_ensures(validate_command, (command, PolicyFile::Parsed(policy)), r),
        0 <= i <= policy.allowed_command_regexes@.len(),
        passed_over(policy.allowed_command_regexes@, normal@, i),
    ensures
        i == policy.allowed_command_regexes@.len() ==> {
            &&& r is Ok <==> on_list
            &&& r is Err ==> (r matches Err(BrokerError::CommandNotAllowed { command: named })
                && named@ == command@)
        },
        i < policy.allowed_command_regexes@.len() ==> match regex_new(
            policy.allowed_command_regexes@[i]@,
            usize::BITS,
        ) {
            Ok(re) => regex_is_match(re, normal@) ==> r is Ok,
            Err(e) => r matches Err(BrokerError::InvalidRegex { pattern, cause }) && pattern@
                == policy.allowed_command_regexes@[i]@ && cause@ == regex_error_text(e),
        },
{
    lemma_passed_over(policy.allowed_command_regexes@, normal@, i);
}

/// A command without a word is refused whatever the policy file is; one with a
/// word is decided by the built-in list where the file cannot be read, and is
/// refused with the cause where the file is no policy.
pub proof fn law_validate_command_without_a_policy(
    command: &str,
    normal: &str,
    normal_form: String,
    on_list: bool,
    file: PolicyFile,
    r: Result<(), BrokerError>,
)
    requires
        call_ensures(normalize_command, (command,), normal_form),
        normal@ == normal_form@,
        call_ensures(default_prefix_allows, (normal,), on_list),
        call_ensures(validate_command, (command, file), r),
    ensures
        normal@.len() == 0 ==> (r matches Err(e) && e is CommandRequired),
        normal@.len() > 0 ==> !(r matches Err(e) && e is CommandRequired),
        normal@.len() > 0 && file is Unreadable ==> {
            &&& r is Ok <==> on_list
            &&& r is Err ==> (r matches Err(BrokerError::CommandNotAllowed { command: named })
                && named@ == command@)
        },
        normal@.len() > 0 && file is Invalid ==> (r matches Err(
            BrokerError::InvalidPolicy { cause },
        ) && cause@ == file->cause@),
{
    if file is Unreadable {
        assert(policy_decision(file@, normal@) == Ok::<bool, ErrorView>(false));
    }
    if let PolicyFile::Parsed(policy) = file {
        let patterns = texts(policy.allowed_command_regexes@);
        lemma_decision_is_no_missing_command(patterns, outcomes_of(patterns, normal@));
    }
}

/// Patterns never find that a command is missing.
proof fn lemma_decision_is_no_missing_command(
    patterns: Seq<Seq<char>>,
    outcomes: Seq<PatternOutcomeView>,
)
    ensures
        patterns_decision(patterns, outcomes) matches Err(e) ==> e is InvalidRegex,
    decreases patterns.len(),
{
    if patterns.len() > 0 {
        lemma_decision_is_no_missing_command(patterns.drop_first(), outcomes.drop_first());
    }
}

} // verus!
