use ncl::init::{next_steps, next_steps_for, project_name_problem, validate_project_name};

#[test]
fn project_name_validation() {
    assert_eq!(validate_project_name("", false), Err("Please enter a name."));
    assert_eq!(validate_project_name("a/b", false), Err("Please enter a valid name."));
    assert_eq!(validate_project_name("shop", true), Err("Directory is non-empty."));
    assert_eq!(validate_project_name("shop", false), Ok(()));
    assert_eq!(project_name_problem("x", false, false), Err("Please enter a valid name."));
}

#[test]
fn next_steps_text() {
    assert_eq!(next_steps_for("shop"), "cd ./shop\nncl run dev");
    assert_eq!(next_steps("my:shop"), "cd ./myshop\nncl run dev");
}

#[test]
fn dot_names_and_long_names_are_refused() {
    assert_eq!(validate_project_name("..", false), Err("Please enter a valid name."));
    assert_eq!(validate_project_name(&"a".repeat(256), false), Err("Please enter a valid name."));
    assert_eq!(validate_project_name(&"a".repeat(255), false), Ok(()));
    let steps = next_steps(&"b".repeat(300));
    assert_eq!(steps, format!("cd ./{}\nncl run dev", "b".repeat(255)));
}

#[test]
fn plain_names_are_kept() {
    assert_eq!(next_steps("my shop"), "cd ./my shop\nncl run dev");
    assert_eq!(validate_project_name("résumé-2", false), Ok(()));
}
