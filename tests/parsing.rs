use aa_dashboard::{parse_status, Mode, Profile};

fn pairs(ps: &[Profile]) -> Vec<(String, Mode)> {
    ps.iter().map(|p| (p.identifier.clone(), p.mode)).collect()
}

fn owned(v: &[(&str, Mode)]) -> Vec<(String, Mode)> {
    v.iter().map(|(s, m)| (s.to_string(), *m)).collect()
}

#[test]
fn parses_sections_in_order() {
    let text = "12 profiles are in enforce mode.\n   /usr/bin/foo\n3 profiles are in complain mode.\n   /usr/bin/bar\n   {structured-hash-id}\n";
    assert_eq!(
        pairs(&parse_status(text)),
        owned(&[
            ("/usr/bin/foo", Mode::Enforce),
            ("/usr/bin/bar", Mode::Complain),
            ("{structured-hash-id}", Mode::Complain),
        ])
    );
}

#[test]
fn parsing_twice_gives_the_same_profiles() {
    let text = "apparmor module is loaded.\n2 profiles are in enforce mode.\n   /a\n   /b\n1 profiles are in kill mode.\n   /c\n";
    assert_eq!(pairs(&parse_status(text)), pairs(&parse_status(text)));
}

#[test]
fn header_with_count_matches_header_without() {
    let a = parse_status("3 profiles are in enforce mode.\n /x\n");
    let b = parse_status("profiles are in enforce mode.\n /x\n");
    assert_eq!(pairs(&a), owned(&[("/x", Mode::Enforce)]));
    assert_eq!(pairs(&a), pairs(&b));
}

#[test]
fn identifiers_before_any_header_are_dropped() {
    let text = "/usr/bin/early\n{early}\n1 profiles are in audit mode.\n /usr/bin/late\n";
    assert_eq!(pairs(&parse_status(text)), owned(&[("/usr/bin/late", Mode::Audit)]));
}

#[test]
fn other_lines_after_a_header_are_dropped() {
    let text = "4 profiles are in complain mode.\n   usr/bin/no-slash\n   0 processes have profiles defined.\n\n   /ok\n   - {not}\n";
    assert_eq!(pairs(&parse_status(text)), owned(&[("/ok", Mode::Complain)]));
}

#[test]
fn every_header_kind_is_recognised() {
    let text = "1 profiles are in enforce mode.\n /e\n1 profiles are in complain mode.\n /c\n1 profiles are in kill mode.\n /k\n1 profiles are in audit mode.\n /a\n";
    assert_eq!(
        pairs(&parse_status(text)),
        owned(&[("/e", Mode::Enforce), ("/c", Mode::Complain), ("/k", Mode::Kill), ("/a", Mode::Audit)])
    );
}

#[test]
fn white_space_and_carriage_returns_are_trimmed() {
    let text = "2 profiles are in enforce mode.\r\n\t /usr/sbin/x  \r\n\u{a0}{y}\u{3000}";
    assert_eq!(pairs(&parse_status(text)), owned(&[("/usr/sbin/x", Mode::Enforce), ("{y}", Mode::Enforce)]));
}

#[test]
fn empty_text_gives_nothing() {
    assert!(parse_status("").is_empty());
    assert!(parse_status("\n\n").is_empty());
}

#[test]
fn non_ascii_identifiers_are_kept_whole() {
    let text = "1 profiles are in enforce mode.\n  /opt/caf\u{e9}/b\u{fc}n\n";
    assert_eq!(pairs(&parse_status(text)), owned(&[("/opt/caf\u{e9}/b\u{fc}n", Mode::Enforce)]));
}
