use docker_manager::extension::DockerManagerExtension;
use docker_manager::testing::MockDockerExecutor;

fn strings(v: &[&str]) -> Vec<String> {
    v.iter().map(|s| s.to_string()).collect()
}

fn run(name: &str, args: &[&str], executor: &mut MockDockerExecutor) -> Result<(String, String), String> {
    let ext = DockerManagerExtension::new();
    ext.run_slash_command(name, &strings(args), executor).map(|o| (o.label, o.text))
}

#[test]
fn unknown_command_is_refused_without_docker() {
    let mut executor = MockDockerExecutor::with_success("ok");
    assert_eq!(
        run("docker-foo", &["x"], &mut executor),
        Err("Unknown Docker command: \"docker-foo\"".to_string())
    );
    assert!(executor.captured_args().is_empty());
}

#[test]
fn each_command_name_reaches_its_handler() {
    let cases: Vec<(&str, Vec<&str>, &str, Vec<&str>)> = vec![
        ("docker-ps", vec![], "Docker Containers (running)", vec!["ps", "--format", "table {{.ID}}\t{{.Names}}\t{{.Image}}\t{{.Status}}\t{{.Ports}}"]),
        ("docker-start", vec!["web"], "Started: web", vec!["start", "web"]),
        ("docker-stop", vec!["web", "x"], "Stopped: web", vec!["stop", "web"]),
        ("docker-rm", vec!["-f", "web"], "Removed Container", vec!["rm", "-f", "web"]),
        ("docker-logs", vec!["web", "--tail", "5"], "Logs: web", vec!["logs", "web", "--tail", "5"]),
        ("docker-stats", vec!["ignored"], "Docker Stats", vec!["stats", "--no-stream", "--format", "table {{.Name}}\t{{.CPUPerc}}\t{{.MemUsage}}\t{{.NetIO}}\t{{.BlockIO}}"]),
        ("docker-inspect", vec!["web"], "Inspect: web", vec!["inspect", "web"]),
        ("docker-exec", vec!["web", "ls"], "Exec in: web", vec!["exec", "web", "ls"]),
        ("docker-images", vec![], "Docker Images", vec!["images", "--format", "table {{.Repository}}\t{{.Tag}}\t{{.ID}}\t{{.Size}}\t{{.CreatedSince}}"]),
        ("docker-rmi", vec!["nginx"], "Removed Image: nginx", vec!["rmi", "nginx"]),
        ("docker-pull", vec!["nginx"], "Pulled: nginx", vec!["pull", "nginx"]),
        ("docker-run", vec!["nginx", "-d"], "Docker Run", vec!["run", "nginx", "-d"]),
        ("docker-build", vec!["."], "Docker Build", vec!["build", "."]),
        ("docker-compose-up", vec!["-d"], "Docker Compose Up", vec!["compose", "up", "-d"]),
        ("docker-compose-down", vec!["-v"], "Docker Compose Down", vec!["compose", "down", "-v"]),
    ];
    for (name, args, label, line) in cases {
        let mut executor = MockDockerExecutor::with_success("result");
        assert_eq!(run(name, &args, &mut executor), Ok((label.to_string(), "result".to_string())), "{}", name);
        assert_eq!(executor.captured_args(), vec![strings(&line)], "{}", name);
    }
}

#[test]
fn refusals_give_their_messages_without_docker() {
    let container = "Please provide a container name or ID.";
    let cases: Vec<(&str, Vec<&str>, &str)> = vec![
        ("docker-start", vec![], container),
        ("docker-stop", vec![], container),
        ("docker-rm", vec![], container),
        ("docker-logs", vec![], container),
        ("docker-inspect", vec![], container),
        ("docker-exec", vec!["web"], "Usage: /docker-exec <container> <command> [args...]\nExample: /docker-exec my-container ls -la"),
        ("docker-rmi", vec![], "Please provide an image name or ID."),
        ("docker-pull", vec![], "Please provide an image name (e.g. 'nginx:latest')."),
        ("docker-run", vec![], "Please provide an image name (e.g. 'ubuntu:latest --name my-container -d')."),
        ("docker-build", vec![], "Usage: /docker-build <args>\nExample: /docker-build -t my-image ."),
    ];
    for (name, args, message) in cases {
        let mut executor = MockDockerExecutor::with_success("result");
        assert_eq!(run(name, &args, &mut executor), Err(message.to_string()), "{}", name);
        assert!(executor.captured_args().is_empty(), "{}", name);
    }
}

#[test]
fn commands_without_required_arguments_still_run() {
    for name in ["docker-ps", "docker-stats", "docker-images", "docker-compose-up", "docker-compose-down"] {
        let mut executor = MockDockerExecutor::with_success("ok");
        assert!(run(name, &[], &mut executor).is_ok(), "{}", name);
        assert_eq!(executor.captured_args().len(), 1);
    }
}

#[test]
fn docker_errors_reach_the_user_unchanged() {
    let cases: Vec<(&str, Vec<&str>)> = vec![
        ("docker-ps", vec![]),
        ("docker-start", vec!["c"]),
        ("docker-stop", vec!["c"]),
        ("docker-rm", vec!["c"]),
        ("docker-logs", vec!["c"]),
        ("docker-stats", vec![]),
        ("docker-inspect", vec!["c"]),
        ("docker-exec", vec!["c", "ls"]),
        ("docker-images", vec![]),
        ("docker-rmi", vec!["i"]),
        ("docker-pull", vec!["i"]),
        ("docker-run", vec!["i"]),
        ("docker-build", vec!["."]),
        ("docker-compose-up", vec![]),
        ("docker-compose-down", vec![]),
    ];
    for (name, args) in cases {
        let mut executor = MockDockerExecutor::with_error("daemon not running");
        assert_eq!(run(name, &args, &mut executor), Err("daemon not running".to_string()), "{}", name);
    }
}

#[test]
fn blank_docker_output_is_shown_as_success_message() {
    let mut executor = MockDockerExecutor::with_success(" \n");
    assert_eq!(
        run("docker-stop", &["web"], &mut executor),
        Ok(("Stopped: web".to_string(), "Command completed successfully (no output).".to_string()))
    );
}

#[test]
fn forwarded_arguments_end_the_command_line() {
    let args = ["a b", "--flag", "", "x"];
    for (name, prefix) in [
        ("docker-rm", vec!["rm"]),
        ("docker-logs", vec!["logs"]),
        ("docker-exec", vec!["exec"]),
        ("docker-run", vec!["run"]),
        ("docker-build", vec!["build"]),
        ("docker-compose-up", vec!["compose", "up"]),
        ("docker-compose-down", vec!["compose", "down"]),
    ] {
        let mut executor = MockDockerExecutor::with_success("ok");
        let _ = run(name, &args, &mut executor);
        let mut line = strings(&prefix);
        line.extend(strings(&args));
        assert_eq!(executor.captured_args(), vec![line], "{}", name);
    }
}

#[test]
fn ps_flag_may_stand_anywhere() {
    let mut executor = MockDockerExecutor::with_success("ok");
    let result = run("docker-ps", &["x", "--all"], &mut executor).unwrap();
    assert_eq!(result.0, "Docker Containers (all)");
    assert_eq!(executor.captured_args()[0].last().unwrap(), "-a");
}

#[test]
fn ps_ignores_lookalike_flags() {
    let mut executor = MockDockerExecutor::with_success("ok");
    let result = run("docker-ps", &["All", "-all", "a"], &mut executor).unwrap();
    assert_eq!(result.0, "Docker Containers (running)");
    assert_eq!(executor.captured_args()[0].len(), 3);
}

#[test]
fn slash_completion_matches_complete() {
    let ext = DockerManagerExtension::new();
    let mut executor = MockDockerExecutor::with_success("web\n");
    let items = ext.complete_slash_command_argument("docker-logs", &mut executor).unwrap();
    assert_eq!(items.len(), 1);
    assert_eq!(items[0].label, "web");
    assert_eq!(items[0].new_text, "web");
    assert!(items[0].run_command);
}

#[test]
fn slash_output_has_one_section_over_all_bytes() {
    let output = docker_manager::types::CommandOutput::new("Logs: web", "héllo\nwörld");
    let shown = DockerManagerExtension::to_slash_output(output);
    assert_eq!(shown.text, "héllo\nwörld");
    assert_eq!(shown.sections.len(), 1);
    assert_eq!(shown.sections[0].start, 0);
    assert_eq!(shown.sections[0].end, "héllo\nwörld".len());
    assert_eq!(shown.sections[0].label, "Logs: web");
}

#[test]
fn mock_records_one_line_per_docker_run() {
    let mut executor = MockDockerExecutor::with_success("ok");
    let _ = run("docker-ps", &[], &mut executor);
    let _ = run("docker-start", &[], &mut executor);
    let _ = run("docker-stop", &["web"], &mut executor);
    let captured = executor.captured_args();
    assert_eq!(captured.len(), 2);
    assert_eq!(captured[1], vec!["stop", "web"]);
}
