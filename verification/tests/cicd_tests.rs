use ncl::cicd::{
    generate_workflow_yaml, BASE_WORKFLOW, GENERIC_STEPS, LARAVEL_STEPS, NEXTJS_STEPS,
    REACT_NATIVE_STEPS,
};

#[test]
fn workflow_steps_follow_template_name() {
    assert_eq!(generate_workflow_yaml("laravel-app"), format!("{}{}", BASE_WORKFLOW, LARAVEL_STEPS));
    assert_eq!(generate_workflow_yaml("Next.js"), format!("{}{}", BASE_WORKFLOW, NEXTJS_STEPS));
    assert_eq!(generate_workflow_yaml("nextjs"), format!("{}{}", BASE_WORKFLOW, NEXTJS_STEPS));
    assert_eq!(
        generate_workflow_yaml("react-native"),
        format!("{}{}", BASE_WORKFLOW, REACT_NATIVE_STEPS)
    );
    assert_eq!(generate_workflow_yaml("WordPress"), format!("{}{}", BASE_WORKFLOW, GENERIC_STEPS));
}

#[test]
fn workflow_starts_with_pipeline_header() {
    let y = generate_workflow_yaml("anything");
    assert!(y.starts_with("name: CI/CD Pipeline\n\non:\n  pull_request:\n    branches:\n      - dev"));
    assert!(LARAVEL_STEPS.contains("php-version: 8.4"));
}

#[test]
fn coolify_action_is_a_composite_action() {
    assert!(ncl::cicd::COOLIFY_ACTION.starts_with("name: 'Coolify Deploy'\n"));
    assert!(ncl::cicd::COOLIFY_ACTION.contains("using: 'composite'"));
    assert!(ncl::cicd::COOLIFY_ACTION.contains("${{ inputs.environment }}"));
}
