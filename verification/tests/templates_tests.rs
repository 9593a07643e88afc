use ncl::templates::Template;

#[test]
fn universal_base_detection_works() {
    let mut tmpl = Template::default();
    tmpl.name = "Universal Base".to_string();
    tmpl.path = "/tmp/universal-base".to_string();

    assert!(tmpl.is_universal_base());
}

use ncl::templates::{
    add_remove_project_hook, fill_placeholders, hook_listing, hook_named, is_text_sample,
    resolve_job, text_sample_len, JobAction, TemplateError,
};

fn hooks(entries: &[(&str, &[&str])]) -> Vec<(String, Vec<String>)> {
    entries
        .iter()
        .map(|(k, v)| (k.to_string(), v.iter().map(|c| c.to_string()).collect()))
        .collect()
}

#[test]
fn default_template_is_empty() {
    let t = Template::default();
    assert!(t.name.is_empty() && t.path.is_empty() && t.comment.is_empty());
    assert!(t.dependencies.is_empty() && t.post_install_hook.is_empty() && t.hooks.is_empty());
    assert_eq!(t.jobs, None);
    assert!(!t.is_universal_base());
}

#[test]
fn post_install_hook_prefers_named_hook() {
    let mut t = Template::default();
    t.post_install_hook = vec!["legacy".to_string()];
    assert_eq!(t.get_post_install_hook(), &vec!["legacy".to_string()]);
    t.hooks = hooks(&[("dev", &["npm run dev"]), ("post_install", &["composer install"])]);
    assert_eq!(t.get_post_install_hook(), &vec!["composer install".to_string()]);
}

#[test]
fn named_hook_lookup() {
    let mut t = Template::default();
    t.name = "Laravel".to_string();
    t.hooks = hooks(&[("dev", &["up"])]);
    assert_eq!(hook_named(&t, "dev"), Ok(&vec!["up".to_string()]));
    assert_eq!(
        hook_named(&t, "build"),
        Err(TemplateError::HookNotFound { hook: "build".to_string(), template: "Laravel".to_string() })
    );
}

#[test]
fn placeholders_are_filled_in_order() {
    let vars = vec![("project_name", "shop"), ("path", "/tmp/shop")];
    assert_eq!(
        fill_placeholders("name={{project_name}} at {{path}} ({{project_name}})", &vars),
        "name=shop at /tmp/shop (shop)"
    );
    assert_eq!(fill_placeholders("{{unknown}} stays", &vars), "{{unknown}} stays");
    assert_eq!(fill_placeholders("no placeholders here", &vars), "no placeholders here");
}

#[test]
fn text_sampling() {
    assert_eq!(text_sample_len(10), 10);
    assert_eq!(text_sample_len(100_000), 8000);
    assert!(is_text_sample(b"plain text\n"));
    assert!(!is_text_sample(&[0x7f, 0x45, 0x00, 0x4c]));
    assert!(is_text_sample(&[]));
}

#[test]
fn jobs_are_resolved() {
    let mut h = hooks(&[("dev", &["npm run dev"])]);
    add_remove_project_hook(&mut h);
    assert!(matches!(resolve_job(&h, None), JobAction::ListHooks));
    assert!(matches!(resolve_job(&h, Some("remove-project")), JobAction::RemoveProject));
    assert!(matches!(resolve_job(&h, Some("dev")), JobAction::RunHook(c) if c == &vec!["npm run dev".to_string()]));
    assert!(matches!(resolve_job(&h, Some("deploy")), JobAction::UnknownHook(n) if n == "deploy"));
    assert!(matches!(resolve_job(&Vec::new(), Some("dev")), JobAction::NoHooks));
    assert_eq!(
        hook_listing(&h),
        vec![
            "dev",
            "    npm run dev",
            "remove-project",
            "    Removes the project from coolify and github"
        ]
    );
}

#[test]
fn text_without_placeholders_is_unchanged() {
    let vars = vec![("project_name", "shop"), ("path", "/work/shop")];
    let text = "name = project_name\npath: {path}";
    assert_eq!(ncl::templates::fill_placeholders(text, &vars), text);
}

#[test]
fn missing_hook_message() {
    let t = Template { name: "Laravel".to_string(), ..Template::default() };
    let e = ncl::templates::hook_named(&t, "deploy").unwrap_err();
    assert_eq!(e.message(), "Hook 'deploy' not found in template 'Laravel'");
}
