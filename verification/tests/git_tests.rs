use ncl::git::{branch_reference, push_args, signature_identity, upstream_name, writable_mode};

#[test]
fn signature_falls_back_to_tool_identity() {
    assert_eq!(
        signature_identity(None, None),
        ("NCL User".to_string(), "ncl@example.com".to_string())
    );
    assert_eq!(
        signature_identity(Some("Ada".to_string()), None),
        ("Ada".to_string(), "ncl@example.com".to_string())
    );
    assert_eq!(
        signature_identity(Some("Ada".to_string()), Some("ada@x.org".to_string())),
        ("Ada".to_string(), "ada@x.org".to_string())
    );
}

#[test]
fn push_arguments() {
    assert_eq!(push_args("origin", "main", true), vec!["push", "-u", "origin", "main"]);
    assert_eq!(push_args("origin", "dev", false), vec!["push", "origin", "dev"]);
}

#[test]
fn upstream_and_reference_names() {
    assert_eq!(upstream_name("origin", "main"), "origin/main");
    assert_eq!(branch_reference("main"), "refs/heads/main");
}

#[test]
fn writable_modes() {
    assert_eq!(writable_mode(true, false), Some(0o664));
    assert_eq!(writable_mode(false, true), Some(0o775));
    assert_eq!(writable_mode(false, false), None);
}
