use ncl::task::{get_terminal_width, is_ignored, truncate_line, width_or_default, DEFAULT_QUERY};

#[test]
fn truncation() {
    assert_eq!(truncate_line("hello world", 5), "hello…");
    assert_eq!(truncate_line("hello", 5), "hello");
    assert_eq!(truncate_line("", 0), "");
    assert_eq!(truncate_line("ab", 0), "…");
    assert_eq!(truncate_line("zażółć", 3), "zaż…");
}

#[test]
fn ignored_directories() {
    assert!(is_ignored(true, "node_modules"));
    assert!(is_ignored(true, ".git"));
    assert!(is_ignored(true, "vendor"));
    assert!(!is_ignored(false, "node_modules"));
    assert!(!is_ignored(true, "src"));
    assert_eq!(DEFAULT_QUERY, "TODO|NOTE|FIXME");
}

#[test]
fn terminal_width_defaults_to_80() {
    assert_eq!(width_or_default(None), 80);
    assert_eq!(width_or_default(Some(132)), 132);
    assert!(get_terminal_width() > 0);
}
