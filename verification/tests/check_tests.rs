use ncl::check::{format_dependencies, format_missing_dependencies, missing_dependencies, select_missing};
use ncl::common::Dependency;
use ncl::templates::Template;

fn dep(name: &str, hint: &str) -> Dependency {
    Dependency { name: name.to_string(), check: String::new(), install_hint: hint.to_string() }
}

#[test]
fn dependency_default_is_empty() {
    let d = Dependency::default();
    assert_eq!(d, dep("", ""));
}

#[test]
fn select_missing_keeps_order() {
    let deps = vec![dep("git", "apt install git"), dep("php", "apt install php"), dep("node", "nvm")];
    let missing = select_missing(&deps, &vec![true, false, false]);
    assert_eq!(missing, vec![dep("php", "apt install php"), dep("node", "nvm")]);
    assert!(select_missing(&deps, &vec![true, true, true]).is_empty());
}

#[test]
fn missing_dependencies_is_a_subsequence() {
    let mut t = Template::default();
    t.dependencies = vec![dep("sh", "-"), dep("surely-not-installed-ncl-xyz", "nothing to install")];
    let missing = missing_dependencies(&t);
    assert!(missing.contains(&dep("surely-not-installed-ncl-xyz", "nothing to install")));
    assert!(missing.len() <= 2);
}

#[test]
fn dependency_report_lines() {
    let deps = vec![dep("docker", "https://docs.docker.com"), dep("php", "brew install php")];
    assert_eq!(
        format_dependencies(&deps),
        "docker -> install: https://docs.docker.com\nphp -> install: brew install php"
    );
    assert_eq!(format_missing_dependencies(&deps[..1]), "docker -> install: https://docs.docker.com");
    assert_eq!(format_dependencies(&[]), "");
}
