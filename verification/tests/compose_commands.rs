use docker_manager::commands::compose::{down, up};
use docker_manager::testing::MockDockerExecutor;

#[test]
fn up_calls_compose_up() {
    let mut executor = MockDockerExecutor::with_success("Creating network...");
    let result = up(&mut executor, &[]).unwrap();
    assert_eq!(result.label, "Docker Compose Up");

    let captured = executor.captured_args();
    assert_eq!(captured[0], vec!["compose", "up"]);
}

#[test]
fn up_with_detached_flag() {
    let mut executor = MockDockerExecutor::with_success("Starting services...");
    let _ = up(&mut executor, &["-d".to_string()]);

    let captured = executor.captured_args();
    assert_eq!(captured[0], vec!["compose", "up", "-d"]);
}

#[test]
fn up_with_build_flag() {
    let mut executor = MockDockerExecutor::with_success("Building...");
    let _ = up(&mut executor, &["--build".to_string()]);

    let captured = executor.captured_args();
    assert_eq!(captured[0], vec!["compose", "up", "--build"]);
}

#[test]
fn up_with_multiple_flags() {
    let mut executor = MockDockerExecutor::with_success("ok");
    let _ = up(&mut executor, &["-d".to_string(), "--build".to_string()]);

    let captured = executor.captured_args();
    assert_eq!(captured[0], vec!["compose", "up", "-d", "--build"]);
}

#[test]
fn down_calls_compose_down() {
    let mut executor = MockDockerExecutor::with_success("Stopping services...");
    let result = down(&mut executor, &[]).unwrap();
    assert_eq!(result.label, "Docker Compose Down");

    let captured = executor.captured_args();
    assert_eq!(captured[0], vec!["compose", "down"]);
}

#[test]
fn down_with_volumes_flag() {
    let mut executor = MockDockerExecutor::with_success("Removing volumes...");
    let _ = down(&mut executor, &["-v".to_string()]);

    let captured = executor.captured_args();
    assert_eq!(captured[0], vec!["compose", "down", "-v"]);
}

#[test]
fn compose_commands_propagate_docker_errors() {
    let mut executor = MockDockerExecutor::with_error("no compose file found");
    assert!(up(&mut executor, &[]).is_err());
    assert!(down(&mut executor, &[]).is_err());
}
