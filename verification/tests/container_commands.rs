use docker_manager::commands::containers::{exec, inspect, logs, ps, rm, start, stats, stop};
use docker_manager::testing::MockDockerExecutor;

#[test]
fn ps_without_args_shows_running_containers() {
    let mut executor = MockDockerExecutor::with_success("ID  NAME  IMAGE  STATUS  PORTS");
    let result = ps(&mut executor, &[]).unwrap();
    assert_eq!(result.label, "Docker Containers (running)");
    assert!(result.text.contains("NAME"));

    let captured = executor.captured_args();
    assert_eq!(captured.len(), 1);
    assert!(!captured[0].contains(&"-a".to_string()));
}

#[test]
fn ps_with_all_flag_includes_stopped() {
    let mut executor = MockDockerExecutor::with_success("ID  NAME  IMAGE  STATUS  PORTS");
    let result = ps(&mut executor, &["all".to_string()]).unwrap();
    assert_eq!(result.label, "Docker Containers (all)");

    let captured = executor.captured_args();
    assert!(captured[0].contains(&"-a".to_string()));
}

#[test]
fn ps_with_dash_a_includes_stopped() {
    let mut executor = MockDockerExecutor::with_success("ok");
    let result = ps(&mut executor, &["-a".to_string()]).unwrap();
    assert_eq!(result.label, "Docker Containers (all)");
}

#[test]
fn ps_with_double_dash_all_includes_stopped() {
    let mut executor = MockDockerExecutor::with_success("ok");
    let result = ps(&mut executor, &["--all".to_string()]).unwrap();
    assert_eq!(result.label, "Docker Containers (all)");
}

#[test]
fn start_calls_docker_start_with_container_name() {
    let mut executor = MockDockerExecutor::with_success("my-container");
    let result = start(&mut executor, &["my-container".to_string()]).unwrap();
    assert_eq!(result.label, "Started: my-container");

    let captured = executor.captured_args();
    assert_eq!(captured[0], vec!["start", "my-container"]);
}

#[test]
fn start_errors_without_container_name() {
    let mut executor = MockDockerExecutor::with_success("");
    let result = start(&mut executor, &[]);
    assert!(result.is_err());
    assert!(result.unwrap_err().contains("container name or ID"));
}

#[test]
fn stop_calls_docker_stop_with_container_name() {
    let mut executor = MockDockerExecutor::with_success("my-container");
    let result = stop(&mut executor, &["my-container".to_string()]).unwrap();
    assert_eq!(result.label, "Stopped: my-container");

    let captured = executor.captured_args();
    assert_eq!(captured[0], vec!["stop", "my-container"]);
}

#[test]
fn stop_errors_without_container_name() {
    let mut executor = MockDockerExecutor::with_success("");
    let result = stop(&mut executor, &[]);
    assert!(result.is_err());
}

#[test]
fn rm_removes_container() {
    let mut executor = MockDockerExecutor::with_success("removed");
    let result = rm(&mut executor, &["old-container".to_string()]).unwrap();
    assert_eq!(result.label, "Removed Container");

    let captured = executor.captured_args();
    assert_eq!(captured[0], vec!["rm", "old-container"]);
}

#[test]
fn rm_with_force_flag() {
    let mut executor = MockDockerExecutor::with_success("removed");
    let result = rm(
        &mut executor,
        &["--force".to_string(), "old-container".to_string()],
    )
    .unwrap();
    assert_eq!(result.label, "Removed Container");

    let captured = executor.captured_args();
    assert_eq!(captured[0], vec!["rm", "--force", "old-container"]);
}

#[test]
fn rm_errors_without_container_name() {
    let mut executor = MockDockerExecutor::with_success("");
    let result = rm(&mut executor, &[]);
    assert!(result.is_err());
    assert!(result.unwrap_err().contains("container name or ID"));
}

#[test]
fn logs_fetches_container_logs() {
    let mut executor = MockDockerExecutor::with_success("log line 1\nlog line 2");
    let result = logs(&mut executor, &["web".to_string()]).unwrap();
    assert_eq!(result.label, "Logs: web");
    assert!(result.text.contains("log line 1"));
}

#[test]
fn logs_with_tail_flag() {
    let mut executor = MockDockerExecutor::with_success("last line");
    let _ = logs(
        &mut executor,
        &["web".to_string(), "--tail".to_string(), "10".to_string()],
    );

    let captured = executor.captured_args();
    assert_eq!(captured[0], vec!["logs", "web", "--tail", "10"]);
}

#[test]
fn logs_errors_without_container() {
    let mut executor = MockDockerExecutor::with_success("");
    let result = logs(&mut executor, &[]);
    assert!(result.is_err());
}

#[test]
fn stats_calls_docker_stats_no_stream() {
    let mut executor = MockDockerExecutor::with_success("NAME  CPU  MEM");
    let result = stats(&mut executor, &[]).unwrap();
    assert_eq!(result.label, "Docker Stats");

    let captured = executor.captured_args();
    assert!(captured[0].contains(&"--no-stream".to_string()));
}

#[test]
fn inspect_fetches_container_config() {
    let mut executor = MockDockerExecutor::with_success("{\"Id\": \"abc123\"}");
    let result = inspect(&mut executor, &["web".to_string()]).unwrap();
    assert_eq!(result.label, "Inspect: web");
    assert!(result.text.contains("abc123"));
}

#[test]
fn inspect_errors_without_container() {
    let mut executor = MockDockerExecutor::with_success("");
    let result = inspect(&mut executor, &[]);
    assert!(result.is_err());
}

#[test]
fn exec_runs_command_in_container() {
    let mut executor = MockDockerExecutor::with_success("file1\nfile2");
    let result = exec(
        &mut executor,
        &["web".to_string(), "ls".to_string(), "-la".to_string()],
    )
    .unwrap();
    assert_eq!(result.label, "Exec in: web");

    let captured = executor.captured_args();
    assert_eq!(captured[0], vec!["exec", "web", "ls", "-la"]);
}

#[test]
fn exec_errors_with_only_container_name() {
    let mut executor = MockDockerExecutor::with_success("");
    let result = exec(&mut executor, &["web".to_string()]);
    assert!(result.is_err());
    assert!(result.unwrap_err().contains("Usage"));
}

#[test]
fn exec_errors_with_no_args() {
    let mut executor = MockDockerExecutor::with_success("");
    let result = exec(&mut executor, &[]);
    assert!(result.is_err());
}

#[test]
fn containers_commands_propagate_docker_errors() {
    let mut executor = MockDockerExecutor::with_error("daemon not running");

    assert!(ps(&mut executor, &[]).is_err());
    assert!(start(&mut executor, &["c".to_string()]).is_err());
    assert!(stop(&mut executor, &["c".to_string()]).is_err());
    assert!(rm(&mut executor, &["c".to_string()]).is_err());
    assert!(logs(&mut executor, &["c".to_string()]).is_err());
    assert!(stats(&mut executor, &[]).is_err());
    assert!(inspect(&mut executor, &["c".to_string()]).is_err());
    assert!(exec(&mut executor, &["c".to_string(), "ls".to_string()]).is_err());
}
