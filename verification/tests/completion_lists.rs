use docker_manager::completions::{
    complete, list_all_container_names, list_container_names, list_image_names, parse_lines,
};
use docker_manager::testing::MockDockerExecutor;

#[test]
fn parse_lines_splits_on_newlines() {
    let result = parse_lines("alpha\nbeta\ngamma");
    assert_eq!(result, vec!["alpha", "beta", "gamma"]);
}

#[test]
fn parse_lines_trims_whitespace() {
    let result = parse_lines("  alpha  \n  beta  ");
    assert_eq!(result, vec!["alpha", "beta"]);
}

#[test]
fn parse_lines_filters_empty_lines() {
    let result = parse_lines("alpha\n\n\nbeta\n");
    assert_eq!(result, vec!["alpha", "beta"]);
}

#[test]
fn parse_lines_empty_input() {
    let result = parse_lines("");
    assert!(result.is_empty());
}

#[test]
fn list_container_names_returns_names() {
    let mut executor = MockDockerExecutor::with_success("web\ndb\ncache");
    let names = list_container_names(&mut executor);
    assert_eq!(names, vec!["web", "db", "cache"]);
}

#[test]
fn list_container_names_returns_empty_on_error() {
    let mut executor = MockDockerExecutor::with_error("docker not found");
    let names = list_container_names(&mut executor);
    assert!(names.is_empty());
}

#[test]
fn list_all_container_names_includes_stopped() {
    let mut executor = MockDockerExecutor::with_success("web\nstopped-db");
    let names = list_all_container_names(&mut executor);
    assert_eq!(names, vec!["web", "stopped-db"]);

    let captured = executor.captured_args();
    assert!(captured[0].contains(&"-a".to_string()));
}

#[test]
fn list_image_names_filters_none() {
    let mut executor =
        MockDockerExecutor::with_success("nginx:latest\n<none>:<none>\nubuntu:22.04");
    let names = list_image_names(&mut executor);
    assert_eq!(names, vec!["nginx:latest", "ubuntu:22.04"]);
}

#[test]
fn list_image_names_returns_empty_on_error() {
    let mut executor = MockDockerExecutor::with_error("docker not found");
    let names = list_image_names(&mut executor);
    assert!(names.is_empty());
}

#[test]
fn complete_docker_stop_returns_running_containers() {
    let mut executor = MockDockerExecutor::with_success("web\ndb");
    let completions = complete("docker-stop", &mut executor).unwrap();
    assert_eq!(completions.len(), 2);
    assert_eq!(completions[0].label, "web");
    assert!(completions[0].run_command);
}

#[test]
fn complete_docker_start_returns_all_containers() {
    let mut executor = MockDockerExecutor::with_success("web\nstopped-svc");
    let completions = complete("docker-start", &mut executor).unwrap();
    assert_eq!(completions.len(), 2);

    let captured = executor.captured_args();
    assert!(captured[0].contains(&"-a".to_string()));
}

#[test]
fn complete_docker_run_returns_images_insert_only() {
    let mut executor = MockDockerExecutor::with_success("nginx:latest\nubuntu:22.04");
    let completions = complete("docker-run", &mut executor).unwrap();
    assert_eq!(completions.len(), 2);
    assert!(!completions[0].run_command);
}

#[test]
fn complete_docker_rmi_returns_images_auto_run() {
    let mut executor = MockDockerExecutor::with_success("nginx:latest");
    let completions = complete("docker-rmi", &mut executor).unwrap();
    assert_eq!(completions.len(), 1);
    assert!(completions[0].run_command);
}

#[test]
fn complete_docker_ps_returns_all_option() {
    let mut executor = MockDockerExecutor::with_success("");
    let completions = complete("docker-ps", &mut executor).unwrap();
    assert_eq!(completions.len(), 1);
    assert_eq!(completions[0].new_text, "all");
}

#[test]
fn complete_docker_compose_up_returns_flags() {
    let mut executor = MockDockerExecutor::with_success("");
    let completions = complete("docker-compose-up", &mut executor).unwrap();
    assert_eq!(completions.len(), 2);
    assert_eq!(completions[0].new_text, "-d");
    assert_eq!(completions[1].new_text, "--build");
}

#[test]
fn complete_unknown_command_returns_empty() {
    let mut executor = MockDockerExecutor::with_success("");
    let completions = complete("unknown", &mut executor).unwrap();
    assert!(completions.is_empty());
}
