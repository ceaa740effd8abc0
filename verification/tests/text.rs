use admin_powershell_mcp::normalize::normalize_command;
use admin_powershell_mcp::text::{
    chars_of, decimal_text, is_blank, is_white_space, join_words, signed_decimal_text, split_words,
    starts_with, to_ascii_lower,
};
use admin_powershell_mcp::wide::wide;

#[test]
fn white_space_is_unicode_white_space() {
    for n in 0..=0x10ffffu32 {
        if let Some(c) = char::from_u32(n) {
            assert_eq!(is_white_space(c), c.is_whitespace(), "U+{n:04X}");
        }
    }
}

#[test]
fn blank_texts() {
    for s in ["", " ", "\t\r\n", "\u{3000}\u{a0}"] {
        assert!(is_blank(s), "{s:?}");
        assert!(s.trim().is_empty());
    }
    for s in ["x", "  x", "x  ", " a b ", "\u{200b}"] {
        assert!(!is_blank(s), "{s:?}");
        assert!(!s.trim().is_empty());
    }
}

#[test]
fn words_of_a_text() {
    for s in ["", "   ", "a", " a", "a ", "ab  cd", "\tab\u{3000}cd\n ef", "a\u{a0}b"] {
        let expected: Vec<String> = s.split_whitespace().map(|w| w.to_string()).collect();
        assert_eq!(split_words(s), expected, "{s:?}");
    }
}

#[test]
fn words_in_a_row() {
    assert_eq!(join_words(&vec![]), "");
    assert_eq!(join_words(&vec!["a".to_string()]), "a");
    assert_eq!(join_words(&vec!["a".to_string(), "bc".to_string(), "d".to_string()]), "a bc d");
}

#[test]
fn only_ascii_letters_are_lowered() {
    assert_eq!(to_ascii_lower("AZaz09@[`{"), "azaz09@[`{");
    assert_eq!(to_ascii_lower("ÄÖ Get-Service Ω"), "ÄÖ get-service Ω");
    let every: String = (0u8..=127).map(|b| b as char).collect();
    assert_eq!(to_ascii_lower(&every), every.to_ascii_lowercase());
}

#[test]
fn normal_forms() {
    assert_eq!(normalize_command("  Get-Service\t Spooler \n"), "get-service spooler");
    assert_eq!(normalize_command("IPCONFIG   /FlushDNS"), "ipconfig /flushdns");
    assert_eq!(normalize_command(" \t "), "");
    assert_eq!(normalize_command(""), "");
    assert_eq!(normalize_command("a"), "a");
}

#[test]
fn normalizing_twice_changes_nothing() {
    for s in ["  A  B\tC ", "get-service", "Ä\u{3000}B", ""] {
        let once = normalize_command(s);
        assert_eq!(normalize_command(&once), once);
    }
}

#[test]
fn spacing_and_case_do_not_matter() {
    let a = normalize_command("Restart-Service   Spooler");
    let b = normalize_command("\trestart-SERVICE\nspooler ");
    assert_eq!(a, b);
    assert_ne!(a, normalize_command("restart-servicespooler"));
}

#[test]
fn prefixes() {
    let text = chars_of("abc");
    assert!(starts_with(&text, &chars_of("")));
    assert!(starts_with(&text, &chars_of("ab")));
    assert!(starts_with(&text, &chars_of("abc")));
    assert!(!starts_with(&text, &chars_of("abcd")));
    assert!(!starts_with(&text, &chars_of("b")));
}

#[test]
fn numbers_in_decimal() {
    for n in [0, 1, 9, 10, 99, 100, 200_000, 86_400, u64::MAX] {
        assert_eq!(decimal_text(n), n.to_string());
    }
    for n in [0, 5, 10, -1, -10, i32::MAX, i32::MIN] {
        assert_eq!(signed_decimal_text(n), n.to_string());
    }
}

#[test]
fn wide_texts() {
    assert_eq!(wide(""), vec![0]);
    assert_eq!(wide("ab"), vec![0x61, 0x62, 0]);
    assert_eq!(wide("\u{1f600}"), vec![0xd83d, 0xde00, 0]);
    for s in [r"\\.\pipe\admin-powershell-mcp", "Ω \u{ffff}", "\u{10000}\u{10ffff}x"] {
        let expected: Vec<u16> = s.encode_utf16().chain(std::iter::once(0)).collect();
        assert_eq!(wide(s), expected);
    }
}

#[test]
fn wide_pipe_name_ends_at_its_first_zero() {
    let name = wide(admin_powershell_mcp::protocol::PIPE_NAME);
    assert_eq!(name.iter().position(|u| *u == 0), Some(name.len() - 1));
}

#[test]
fn different_texts_are_wide_differently() {
    let texts = ["", "a", "b", "ab", "\u{d7ff}", "\u{e000}", "\u{10000}", "\u{10400}"];
    for (i, a) in texts.iter().enumerate() {
        for (j, b) in texts.iter().enumerate() {
            assert_eq!(wide(a) == wide(b), i == j);
        }
    }
}

#[test]
fn splitting_undoes_joining() {
    let ws: Vec<String> = ["get-service", "a", "b-c"].iter().map(|w| w.to_string()).collect();
    assert_eq!(split_words(&join_words(&ws)), ws);
}

#[test]
fn words_hold_the_text() {
    let s = " a\tbc  d\u{3000}";
    let solid: String = s.chars().filter(|c| !c.is_whitespace()).collect();
    assert_eq!(split_words(s).concat(), solid);
}

#[test]
fn normal_forms_are_normal() {
    let s = normalize_command("\u{a0} WinGet \r\n  List\tX ");
    assert_eq!(s, "winget list x");
    assert_eq!(s.trim(), s);
    assert!(!s.contains("  "));
    assert!(!s.contains(|c: char| c.is_ascii_uppercase()));
}
