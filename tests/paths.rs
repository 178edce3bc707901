use aa_dashboard::{policy_path, Mode, POLICY_ROOT};

#[test]
fn path_identifier_becomes_dotted_file_name() {
    assert_eq!(policy_path(POLICY_ROOT, "/usr/bin/foo"), "/etc/apparmor.d/usr.bin.foo");
}

#[test]
fn structured_identifier_is_used_as_is() {
    assert_eq!(policy_path(POLICY_ROOT, "{structured-hash-id}"), "/etc/apparmor.d/{structured-hash-id}");
}

#[test]
fn other_root_is_honoured() {
    assert_eq!(policy_path("/tmp/p", "/a/b"), "/tmp/p/a.b");
    assert_eq!(policy_path("/tmp/p", "/"), "/tmp/p/");
}

#[test]
fn mode_tools() {
    assert_eq!(Mode::Enforce.tool(), Some("aa-enforce"));
    assert_eq!(Mode::Complain.tool(), Some("aa-complain"));
    assert_eq!(Mode::Audit.tool(), Some("aa-audit"));
    assert_eq!(Mode::Disable.tool(), Some("aa-disable"));
    assert_eq!(Mode::Kill.tool(), None);
}
