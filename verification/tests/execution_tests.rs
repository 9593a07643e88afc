use ncl::execution::{
    command_failure_message, docker_user_flag, failures_summary, get_project_name,
    hyphenate_separators, is_docker_management_command, parse_command, plan_compose_command,
    plan_container_command, route_command, select_compose_program, split_words, CommandRoute,
    ComposeInvocation, ExecutionContext, ExecutionError,
};

fn docker_target(spec: &ncl::execution::CommandSpec) -> (String, Option<String>) {
    match &spec.context {
        ExecutionContext::Docker { container, service } => (container.clone(), service.clone()),
        ExecutionContext::Host => panic!("expected a docker context"),
    }
}

#[test]
fn parse_plain_command_runs_on_host() {
    let spec = parse_command("npm install");
    assert_eq!(spec.command, "npm install");
    assert!(matches!(spec.context, ExecutionContext::Host));
    assert_eq!(spec.working_dir, None);
}

#[test]
fn parse_docker_service_command() {
    let spec = parse_command("docker:php:composer install");
    assert_eq!(spec.command, "composer install");
    assert_eq!(docker_target(&spec), ("php".to_string(), Some("php".to_string())));
}

#[test]
fn parse_docker_command_uses_app_service() {
    let spec = parse_command("docker:php artisan migrate");
    assert_eq!(spec.command, "php artisan migrate");
    assert_eq!(docker_target(&spec), ("app".to_string(), Some("app".to_string())));
}

#[test]
fn parse_docker_command_splits_at_first_colon() {
    let spec = parse_command("docker:node:npm run a:b");
    assert_eq!(spec.command, "npm run a:b");
    assert_eq!(docker_target(&spec).0, "node");
}

#[test]
fn parse_sail_and_compose_commands_run_on_host() {
    for cmd in [
        "./vendor/bin/sail artisan migrate",
        "docker compose up -d",
        "docker-compose down",
        "docker start web",
        "docker run --rm -d up",
    ] {
        let spec = parse_command(cmd);
        assert_eq!(spec.command, cmd);
        assert!(matches!(spec.context, ExecutionContext::Host), "{}", cmd);
    }
    assert!(is_docker_management_command("docker start web"));
    assert!(!is_docker_management_command("docker:app:ls"));
}

#[test]
fn route_compose_lifecycle_and_shell() {
    let up = parse_command("docker compose up -d");
    assert!(matches!(route_command(&up), CommandRoute::ComposeLifecycle(c) if c == "docker compose up -d"));
    let ps = parse_command("docker compose ps");
    assert!(matches!(route_command(&ps), CommandRoute::HostShell(c) if c == "docker compose ps"));
    let svc = parse_command("docker:db:psql");
    match route_command(&svc) {
        CommandRoute::InContainer { command, container, service } => {
            assert_eq!(command, "psql");
            assert_eq!(container, "db");
            assert_eq!(service, Some("db".to_string()));
        }
        _ => panic!("expected a container route"),
    }
}

#[test]
fn split_words_like_split_whitespace() {
    assert_eq!(split_words("  docker   compose\tup -d \n"), vec!["docker", "compose", "up", "-d"]);
    assert!(split_words("   ").is_empty());
}

#[test]
fn compose_plan_with_docker_and_file() {
    match plan_compose_command("docker compose up -d", "docker", "my-app", Some("/p/compose.yaml")) {
        ComposeInvocation::Program(inv) => {
            assert_eq!(inv.program, "docker");
            assert_eq!(inv.args, vec!["compose", "-p", "my-app", "-f", "/p/compose.yaml", "up", "-d"]);
        }
        ComposeInvocation::Shell => panic!("expected a program"),
    }
}

#[test]
fn compose_plan_with_docker_compose_without_file() {
    match plan_compose_command("docker-compose stop web", "docker-compose", "x", None) {
        ComposeInvocation::Program(inv) => {
            assert_eq!(inv.program, "docker-compose");
            assert_eq!(inv.args, vec!["stop", "web"]);
        }
        ComposeInvocation::Shell => panic!("expected a program"),
    }
}

#[test]
fn compose_plan_falls_back_to_shell() {
    assert!(matches!(
        plan_compose_command("./vendor/bin/sail up -d", "docker", "x", None),
        ComposeInvocation::Shell
    ));
    assert!(matches!(
        plan_compose_command("cd x && docker compose up", "docker", "x", None),
        ComposeInvocation::Shell
    ));
    assert!(matches!(
        plan_compose_command("docker compose up", "docker-compose", "x", None),
        ComposeInvocation::Shell
    ));
}

#[test]
fn container_plan_through_compose_service() {
    let inv = plan_container_command(
        "php artisan migrate",
        "app",
        "shop",
        Some(("docker", "app", "/p/compose.yaml")),
        Some("1000:1000"),
    );
    assert_eq!(inv.program, "docker");
    assert_eq!(
        inv.args,
        vec![
            "compose", "-p", "shop", "-f", "/p/compose.yaml", "exec", "--user", "1000:1000", "-T",
            "app", "sh", "-c", "php artisan migrate"
        ]
    );
}

#[test]
fn container_plan_through_docker_exec() {
    let inv = plan_container_command("ls", "web", "shop", None, None);
    assert_eq!(inv.program, "docker");
    assert_eq!(inv.args, vec!["exec", "web", "sh", "-c", "ls"]);
}

#[test]
fn project_name_from_directory() {
    assert_eq!(get_project_name("/home/me/My Shop.v2_beta"), "my-shop-v2-beta");
    assert_eq!(get_project_name("/"), "ncl-project");
    assert_eq!(hyphenate_separators("a b.c_d"), "a-b-c-d");
}

#[test]
fn compose_program_selection() {
    assert_eq!(select_compose_program(true, true), Ok("docker"));
    assert_eq!(select_compose_program(false, true), Ok("docker-compose"));
    assert_eq!(select_compose_program(false, false), Err(ExecutionError::ComposeNotFound));
    assert_eq!(
        ExecutionError::ComposeNotFound.message(),
        "Neither 'docker' nor 'docker-compose' found"
    );
}

#[test]
fn user_flag_and_failure_messages() {
    assert_eq!(docker_user_flag("1000\n", " 1001 \n"), "1000:1001");
    assert_eq!(command_failure_message("make", "  boom \n", "out"), "Command failed: make: boom");
    assert_eq!(command_failure_message("make", "", " out\n"), "Command failed: make: out");
    assert_eq!(command_failure_message("make", "", ""), "Command failed: make");
    assert_eq!(
        failures_summary(&vec!["a".to_string(), "b".to_string()]),
        "Some commands failed:\na\nb"
    );
}

#[test]
fn service_status_and_start_arguments() {
    assert_eq!(
        ncl::execution::service_status_args("docker", "shop", "docker-compose.yml", "db"),
        vec!["compose", "-p", "shop", "-f", "docker-compose.yml", "ps", "-q", "db"]
    );
    assert_eq!(
        ncl::execution::service_start_args("docker-compose", "shop", "c.yml", "db"),
        vec!["-p", "shop", "-f", "c.yml", "up", "-d", "db"]
    );
}

#[test]
fn docker_access_advice() {
    assert!(ncl::execution::looks_like_docker_desktop(true, None));
    assert!(ncl::execution::looks_like_docker_desktop(false, Some("desktop-linux\n")));
    assert!(!ncl::execution::looks_like_docker_desktop(false, Some("default\n")));
    assert!(!ncl::execution::looks_like_docker_desktop(false, None));
    assert_eq!(ncl::execution::docker_access(true, true, false), Ok(()));
    let linux = ncl::execution::docker_access(false, true, false).unwrap_err();
    assert!(linux.starts_with("Docker permission denied on Linux.\n\nOptions"));
    assert!(linux.contains("(works without sudo):\nDownload: https://"));
    assert_eq!(
        ncl::execution::docker_access(false, true, true),
        Err("Docker permission denied. If using Docker Desktop, ensure it's running.\nOtherwise, add user to docker group:\nsudo usermod -aG docker $USER && newgrp docker")
    );
    assert!(ncl::execution::docker_access(false, false, true)
        .unwrap_err()
        .starts_with("Docker is not accessible. Please ensure:\n1. Docker Desktop"));
}

#[test]
fn compose_project_name_from_file_name() {
    assert_eq!(ncl::execution::project_name_from_file_name(Some("My Shop_v1.2")), "my-shop-v1-2");
    assert_eq!(ncl::execution::project_name_from_file_name(None), "ncl-project");
    assert_eq!(ncl::execution::project_name_from_file_name(Some("ÀB")), "àb");
}

#[test]
fn docker_prefixed_commands_run_in_their_service() {
    let spec = parse_command("docker:app:composer update");
    assert_eq!(spec.command, "composer update");
    assert_eq!(docker_target(&spec), ("app".to_string(), Some("app".to_string())));
    assert!(spec.working_dir.is_none());
    let spec = parse_command("docker:app:docker ps --filter status=up");
    assert_eq!(spec.command, "docker ps --filter status=up");
    assert_eq!(docker_target(&spec), ("app".to_string(), Some("app".to_string())));
    let spec = parse_command("docker:npm run startup");
    assert_eq!(spec.command, "npm run startup");
    assert_eq!(docker_target(&spec), ("app".to_string(), Some("app".to_string())));
    assert!(!is_docker_management_command("dockerd up"));
    assert!(is_docker_management_command("docker	stop web"));
}

#[test]
fn plain_path_is_its_own_name() {
    assert_eq!(get_project_name("My_Shop"), "my-shop");
    assert_eq!(get_project_name("work/My_Shop/"), "my-shop");
}

#[test]
fn absolute_project_path_names_the_compose_project() {
    assert_eq!(get_project_name("/w/My_Shop"), "my-shop");
    assert_eq!(get_project_name("/home/me/projects/Shop.v2//"), "shop-v2");
}
