use admin_powershell_mcp::error::BrokerError;
use admin_powershell_mcp::normalize::normalize_command;
use admin_powershell_mcp::policy::{
    command_max_output, command_timeout, load_policy, Policy, PolicyFile,
};
use admin_powershell_mcp::whitelist::{
    decide_command, decide_pattern, default_prefix_allows, policy_allows, try_pattern,
    validate_command, PatternOutcome, ALLOWED_COMMAND_PREFIXES,
};

fn policy(patterns: &[&str]) -> Policy {
    Policy {
        allowed_command_regexes: patterns.iter().map(|p| p.to_string()).collect(),
        ..Policy::default()
    }
}

fn file(patterns: &[&str]) -> PolicyFile {
    PolicyFile::Parsed(policy(patterns))
}

fn example() -> PolicyFile {
    PolicyFile::Parsed(Policy {
        allowed_command_regexes: vec![
            "^ipconfig /flushdns$".to_string(),
            "^get-service( .*)?$".to_string(),
            "^restart-service [a-z0-9_.-]+$".to_string(),
        ],
        default_timeout_seconds: Some(120),
        max_timeout_seconds: Some(600),
        default_output_bytes: Some(200_000),
        max_output_bytes: Some(1_000_000),
    })
}

fn refusal(r: Result<(), BrokerError>) -> String {
    r.expect_err("must be refused").message()
}

#[test]
fn listed_commands_need_no_policy() {
    for command in [
        "ipconfig /flushdns",
        "Get-Service Spooler",
        "Restart-Service Spooler",
        "winget upgrade Microsoft.PowerShell",
        "  SFC   /scannow ",
    ] {
        assert!(validate_command(command, PolicyFile::Unreadable).is_ok(), "{command}");
        assert!(validate_command(command, example()).is_ok(), "{command}");
    }
}

#[test]
fn every_prefix_is_allowed_alone_and_with_arguments() {
    assert_eq!(ALLOWED_COMMAND_PREFIXES.len(), 25);
    for prefix in ALLOWED_COMMAND_PREFIXES {
        assert_eq!(normalize_command(prefix), prefix);
        assert!(default_prefix_allows(prefix));
        assert!(default_prefix_allows(&format!("{prefix} x y")));
        assert!(!default_prefix_allows(&format!("{prefix}x")));
        assert!(!default_prefix_allows(&format!(" {prefix}")));
    }
}

#[test]
fn a_prefix_ends_at_a_word() {
    assert!(default_prefix_allows("get-service"));
    assert!(default_prefix_allows("get-service spooler"));
    assert!(!default_prefix_allows("get-servicespooler"));
    assert!(!default_prefix_allows("get-servic"));
    assert!(!default_prefix_allows(""));
    assert!(!default_prefix_allows("Get-Service"));
}

#[test]
fn unlisted_commands_are_refused() {
    assert_eq!(
        refusal(validate_command("Remove-Item  C:\\x", PolicyFile::Unreadable)),
        "command is not allowed by whitelist: Remove-Item  C:\\x"
    );
    assert_eq!(
        refusal(validate_command("format c:", example())),
        "command is not allowed by whitelist: format c:"
    );
}

#[test]
fn blank_commands_are_refused() {
    for command in ["", "   ", "\t\n"] {
        assert_eq!(
            refusal(validate_command(command, PolicyFile::Unreadable)),
            "command is required"
        );
        let bad = PolicyFile::Invalid { cause: "x".to_string() };
        assert_eq!(refusal(validate_command(command, bad)), "command is required");
    }
}

#[test]
fn a_pattern_allows_what_the_list_does_not() {
    let hosts = ["^ping [a-z0-9.]+$"];
    assert!(validate_command("PING   Example.org", file(&hosts)).is_ok());
    assert!(validate_command("ping example.org -t", file(&hosts)).is_err());
    assert!(validate_command("ping example.org", PolicyFile::Unreadable).is_err());
}

#[test]
fn patterns_see_the_normal_form() {
    assert_eq!(policy_allows(&policy(&["^a b$"]), "a b").ok(), Some(true));
    assert!(validate_command(" A \t B ", file(&["^a b$"])).is_ok());
    assert!(validate_command("a b", file(&["^A B$"])).is_err());
}

#[test]
fn unmatched_patterns_fall_back_to_the_list() {
    assert!(validate_command("get-process", file(&["^nothing$", "^else$"])).is_ok());
}

#[test]
fn an_invalid_policy_refuses_everything() {
    let bad = PolicyFile::Invalid { cause: "expected `=`".to_string() };
    assert_eq!(
        refusal(validate_command("get-process", bad)),
        "invalid policy.toml: expected `=`"
    );
}

#[test]
fn a_faulty_pattern_is_an_error() {
    let text = regex::Regex::new("(").unwrap_err().to_string();
    let message = refusal(validate_command("get-process", file(&["("])));
    assert_eq!(message, format!("invalid regex: (: {text}"));
}

#[test]
fn the_first_decisive_pattern_decides() {
    assert_eq!(policy_allows(&policy(&["^a$", "("]), "a").ok(), Some(true));
    assert!(policy_allows(&policy(&["(", "^a$"]), "a").is_err());
    assert!(policy_allows(&policy(&["^b$", "(", "^a$"]), "a").is_err());
    assert_eq!(policy_allows(&policy(&["^b$", "^a$"]), "a").ok(), Some(true));
    assert_eq!(policy_allows(&policy(&["^b$", "^c$"]), "a").ok(), Some(false));
    assert_eq!(policy_allows(&policy(&[]), "a").ok(), Some(false));
}

#[test]
fn patterns_are_tried() {
    assert!(matches!(try_pattern("^a+$", "aaa"), PatternOutcome::Matches));
    assert!(matches!(try_pattern("^a+$", "aab"), PatternOutcome::Differs));
    assert!(matches!(try_pattern("b", "aab"), PatternOutcome::Matches));
    match try_pattern("a{2,1}", "a") {
        PatternOutcome::Invalid { cause } => {
            assert_eq!(cause, regex::Regex::new("a{2,1}").unwrap_err().to_string())
        }
        other => panic!("{other:?}"),
    }
}

#[test]
fn what_a_pattern_decides() {
    assert!(matches!(decide_pattern("p", PatternOutcome::Matches), Some(Ok(true))));
    assert!(decide_pattern("p", PatternOutcome::Differs).is_none());
    let invalid = PatternOutcome::Invalid { cause: "why".to_string() };
    match decide_pattern("p", invalid) {
        Some(Err(e)) => assert_eq!(e.message(), "invalid regex: p: why"),
        other => panic!("{other:?}"),
    }
}

#[test]
fn what_is_decided_of_a_command() {
    assert!(decide_command("X", "x", Ok(true)).is_ok());
    assert!(decide_command("Get-Process", "get-process", Ok(false)).is_ok());
    assert_eq!(
        refusal(decide_command("X", "x", Ok(false))),
        "command is not allowed by whitelist: X"
    );
    assert_eq!(
        refusal(decide_command("X", "get-process", Err(BrokerError::CommandRequired))),
        "command is required"
    );
}

#[test]
fn a_missing_policy_sets_nothing() {
    let policy = load_policy(PolicyFile::Unreadable).unwrap();
    assert!(policy.allowed_command_regexes.is_empty());
    assert_eq!(policy.default_timeout_seconds, None);
    assert_eq!(policy.max_timeout_seconds, None);
    assert_eq!(policy.default_output_bytes, None);
    assert_eq!(policy.max_output_bytes, None);
}

fn timeouts(default: Option<u64>, max: Option<u64>) -> PolicyFile {
    PolicyFile::Parsed(Policy {
        default_timeout_seconds: default,
        max_timeout_seconds: max,
        ..Policy::default()
    })
}

fn outputs(default: Option<usize>, max: Option<usize>) -> PolicyFile {
    PolicyFile::Parsed(Policy {
        default_output_bytes: default,
        max_output_bytes: max,
        ..Policy::default()
    })
}

#[test]
fn timeouts_without_a_policy() {
    assert_eq!(command_timeout(PolicyFile::Unreadable, None).unwrap(), 120);
    assert_eq!(command_timeout(PolicyFile::Unreadable, Some(5)).unwrap(), 5);
    assert_eq!(command_timeout(PolicyFile::Unreadable, Some(0)).unwrap(), 1);
    assert_eq!(command_timeout(PolicyFile::Unreadable, Some(600)).unwrap(), 600);
    assert_eq!(command_timeout(PolicyFile::Unreadable, Some(601)).unwrap(), 600);
    assert_eq!(command_timeout(PolicyFile::Unreadable, Some(u64::MAX)).unwrap(), 600);
}

#[test]
fn timeouts_under_a_policy() {
    assert_eq!(command_timeout(timeouts(Some(30), Some(60)), None).unwrap(), 30);
    assert_eq!(command_timeout(timeouts(Some(90), Some(60)), None).unwrap(), 60);
    assert_eq!(command_timeout(timeouts(Some(0), None), None).unwrap(), 1);
    assert_eq!(command_timeout(timeouts(None, Some(60)), None).unwrap(), 60);
    assert_eq!(command_timeout(timeouts(None, Some(0)), Some(50)).unwrap(), 1);
    assert_eq!(command_timeout(timeouts(None, Some(1_000_000)), Some(90_000)).unwrap(), 86_400);
}

#[test]
fn output_limits_without_a_policy() {
    assert_eq!(command_max_output(PolicyFile::Unreadable, None).unwrap(), 200_000);
    assert_eq!(command_max_output(PolicyFile::Unreadable, Some(0)).unwrap(), 1);
    assert_eq!(command_max_output(PolicyFile::Unreadable, Some(7)).unwrap(), 7);
    assert_eq!(command_max_output(PolicyFile::Unreadable, Some(2_000_000)).unwrap(), 1_000_000);
}

#[test]
fn output_limits_under_a_policy() {
    assert_eq!(command_max_output(outputs(Some(10), Some(20)), None).unwrap(), 10);
    assert_eq!(command_max_output(outputs(Some(30), Some(20)), None).unwrap(), 20);
    assert_eq!(command_max_output(outputs(None, Some(20)), Some(30)).unwrap(), 20);
    assert_eq!(
        command_max_output(outputs(None, Some(usize::MAX)), Some(usize::MAX)).unwrap(),
        100_000_000
    );
}

#[test]
fn limits_under_an_invalid_policy() {
    let bad = || PolicyFile::Invalid { cause: "line 1".to_string() };
    let t = command_timeout(bad(), Some(5)).unwrap_err();
    let o = command_max_output(bad(), Some(5)).unwrap_err();
    assert_eq!(t.message(), "invalid policy.toml: line 1");
    assert_eq!(o.message(), "invalid policy.toml: line 1");
}

#[test]
fn messages_of_errors() {
    let cause = || "why".to_string();
    assert_eq!(BrokerError::CommandRequired.message(), "command is required");
    assert_eq!(
        BrokerError::ProgramFailed { program: "p.exe".to_string(), cause: cause() }.message(),
        "failed to run p.exe: why"
    );
    assert_eq!(BrokerError::RuntimeFailed { cause: cause() }.message(), "why");
    assert_eq!(
        BrokerError::CommandFailed { command: "c".to_string(), cause: cause() }.message(),
        "failed to run command: c: why"
    );
    assert_eq!(BrokerError::OutputFailed { cause: cause() }.message(), "read command output: why");
}

#[test]
fn asking_for_more_never_gives_less() {
    let asked = [0, 1, 59, 60, 61, 1000];
    let granted: Vec<u64> = asked
        .iter()
        .map(|t| command_timeout(timeouts(Some(30), Some(60)), Some(*t)).unwrap())
        .collect();
    assert_eq!(granted, [1, 1, 59, 60, 60, 60]);
    let granted: Vec<usize> = asked
        .iter()
        .map(|n| command_max_output(outputs(None, Some(60)), Some(*n as usize)).unwrap())
        .collect();
    assert_eq!(granted, [1, 1, 59, 60, 60, 60]);
}

#[test]
fn commands_with_the_same_normal_form_fare_alike() {
    for (a, b) in [("GET-PROCESS  x", "get-process x"), ("DEL  x", "del x")] {
        assert_eq!(
            validate_command(a, PolicyFile::Unreadable).is_ok(),
            validate_command(b, PolicyFile::Unreadable).is_ok()
        );
        assert_eq!(
            validate_command(a, file(&["^del x$"])).is_ok(),
            validate_command(b, file(&["^del x$"])).is_ok()
        );
    }
}
