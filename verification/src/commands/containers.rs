//! Container lifecycle and inspection commands.

use vstd::prelude::*;
use crate::commands::{
    answers, missing_container, outcome_view, run_labelled, with_args, Request,
};
use crate::docker::{words, DockerExecutor};
use crate::text::{same_text, texts};
use crate::types::CommandOutput;

verus! {

/// Whether `arg` asks `ps` to include stopped containers.
pub open spec fn is_all_flag(arg: Seq<char>) -> bool {
    arg == "all"@ || arg == "-a"@ || arg == "--all"@
}

/// Whether any of `args` asks `ps` to include stopped containers.
pub open spec fn shows_all(args: Seq<Seq<char>>) -> bool {
    exists|i: int| 0 <= i < args.len() && is_all_flag(#[trigger] args[i])
}

/// The output format that `ps` asks of Docker.
pub open spec fn ps_format() -> Seq<char> {
    "table {{.ID}}\t{{.Names}}\t{{.Image}}\t{{.Status}}\t{{.Ports}}"@
}

/// The output format that `stats` asks of Docker.
pub open spec fn stats_format() -> Seq<char> {
    "table {{.Name}}\t{{.CPUPerc}}\t{{.MemUsage}}\t{{.NetIO}}\t{{.BlockIO}}"@
}

/// What `ps` makes of its arguments.
pub open spec fn ps_request(args: Seq<Seq<char>>) -> Request {
    if shows_all(args) {
        Request::Run(seq!["ps"@, "--format"@, ps_format(), "-a"@], "Docker Containers (all)"@)
    } else {
        Request::Run(seq!["ps"@, "--format"@, ps_format()], "Docker Containers (running)"@)
    }
}

/// What `start` makes of its arguments.
pub open spec fn start_request(args: Seq<Seq<char>>) -> Request {
    if args.len() == 0 {
        Request::Refuse(missing_container())
    } else {
        Request::Run(seq!["start"@, args[0]], "Started: "@ + args[0])
    }
}

/// What `stop` makes of its arguments.
pub open spec fn stop_request(args: Seq<Seq<char>>) -> Request {
    if args.len() == 0 {
        Request::Refuse(missing_container())
    } else {
        Request::Run(seq!["stop"@, args[0]], "Stopped: "@ + args[0])
    }
}

/// What `rm` makes of its arguments.
pub open spec fn rm_request(args: Seq<Seq<char>>) -> Request {
    if args.len() == 0 {
        Request::Refuse(missing_container())
    } else {
        Request::Run(seq!["rm"@] + args, "Removed Container"@)
    }
}

/// What `logs` makes of its arguments.
pub open spec fn logs_request(args: Seq<Seq<char>>) -> Request {
    if args.len() == 0 {
        Request::Refuse(missing_container())
    } else {
        Request::Run(seq!["logs"@] + args, "Logs: "@ + args[0])
    }
}

/// What `stats` makes of its arguments, which it does not read.
pub open spec fn stats_request(args: Seq<Seq<char>>) -> Request {
    Request::Run(seq!["stats"@, "--no-stream"@, "--format"@, stats_format()], "Docker Stats"@)
}

/// What `inspect` makes of its arguments.
pub open spec fn inspect_request(args: Seq<Seq<char>>) -> Request {
    if args.len() == 0 {
        Request::Refuse(missing_container())
    } else {
        Request::Run(seq!["inspect"@, args[0]], "Inspect: "@ + args[0])
    }
}

/// The usage message of `exec`.
pub open spec fn exec_usage() -> Seq<char> {
    "Usage: /docker-exec <container> <command> [args...]\nExample: /docker-exec my-container ls -la"@
}

/// What `exec` makes of its arguments.
pub open spec fn exec_request(args: Seq<Seq<char>>) -> Request {
    if args.len() < 2 {
        Request::Refuse(exec_usage())
    } else {
        Request::Run(seq!["exec"@] + args, "Exec in: "@ + args[0])
    }
}

/// Lists containers. Accepts "all", "-a", or "--all" to include stopped
/// containers.
pub fn ps<E: DockerExecutor>(executor: &mut E, args: &[String]) -> (r: Result<CommandOutput, String>)
    ensures
        answers(*old(executor), *final(executor), ps_request(texts(args@)), outcome_view(r)),
{
    let mut show_all = false;
    for i in 0..args.len()
        invariant
            show_all == (exists|j: int| 0 <= j < i && is_all_flag(#[trigger] texts(args@)[j])),
    {
        let a = args[i].as_str();
        if same_text(a, "all") || same_text(a, "-a") || same_text(a, "--all") {
            show_all = true;
        }
        assert(is_all_flag(texts(args@)[i as int]) == (a@ == "all"@ || a@ == "-a"@
            || a@ == "--all"@));
    }
    let mut docker_args = vec![
        "ps",
        "--format",
        "table {{.ID}}\t{{.Names}}\t{{.Image}}\t{{.Status}}\t{{.Ports}}",
    ];
    if show_all {
        docker_args.push("-a");
        assert(words(docker_args@) =~= seq!["ps"@, "--format"@, ps_format(), "-a"@]);
        run_labelled(executor, docker_args.as_slice(), "Docker Containers (all)".to_owned())
    } else {
        assert(words(docker_args@) =~= seq!["ps"@, "--format"@, ps_format()]);
        run_labelled(executor, docker_args.as_slice(), "Docker Containers (running)".to_owned())
    }
}

/// Starts a stopped container by name or ID.
pub fn start<E: DockerExecutor>(executor: &mut E, args: &[String]) -> (r: Result<CommandOutput, String>)
    ensures
        answers(*old(executor), *final(executor), start_request(texts(args@)), outcome_view(r)),
{
    if args.len() == 0 {
        return Err("Please provide a container name or ID.".to_owned());
    }
    let container = args[0].as_str();
    let docker_args = vec!["start", container];
    assert(words(docker_args@) =~= seq!["start"@, texts(args@)[0]]);
    run_labelled(executor, docker_args.as_slice(), "Started: ".to_owned().concat(container))
}

/// Stops a running container by name or ID.
pub fn stop<E: DockerExecutor>(executor: &mut E, args: &[String]) -> (r: Result<CommandOutput, String>)
    ensures
        answers(*old(executor), *final(executor), stop_request(texts(args@)), outcome_view(r)),
{
    if args.len() == 0 {
        return Err("Please provide a container name or ID.".to_owned());
    }
    let container = args[0].as_str();
    let docker_args = vec!["stop", container];
    assert(words(docker_args@) =~= seq!["stop"@, texts(args@)[0]]);
    run_labelled(executor, docker_args.as_slice(), "Stopped: ".to_owned().concat(container))
}

/// Removes a container. All arguments including flags like --force are
/// forwarded.
pub fn rm<E: DockerExecutor>(executor: &mut E, args: &[String]) -> (r: Result<CommandOutput, String>)
    ensures
        answers(*old(executor), *final(executor), rm_request(texts(args@)), outcome_view(r)),
{
    if args.len() == 0 {
        return Err("Please provide a container name or ID.".to_owned());
    }
    let prefix = vec!["rm"];
    assert(words(prefix@) =~= seq!["rm"@]);
    let docker_args = with_args(prefix, args);
    run_labelled(executor, docker_args.as_slice(), "Removed Container".to_owned())
}

/// Fetches logs for a container. Supports additional flags like --tail N.
pub fn logs<E: DockerExecutor>(executor: &mut E, args: &[String]) -> (r: Result<CommandOutput, String>)
    ensures
        answers(*old(executor), *final(executor), logs_request(texts(args@)), outcome_view(r)),
{
    if args.len() == 0 {
        return Err("Please provide a container name or ID.".to_owned());
    }
    let prefix = vec!["logs"];
    assert(words(prefix@) =~= seq!["logs"@]);
    let docker_args = with_args(prefix, args);
    run_labelled(executor, docker_args.as_slice(), "Logs: ".to_owned().concat(args[0].as_str()))
}

/// Shows a point-in-time snapshot of container resource usage.
pub fn stats<E: DockerExecutor>(executor: &mut E, args: &[String]) -> (r: Result<CommandOutput, String>)
    ensures
        answers(*old(executor), *final(executor), stats_request(texts(args@)), outcome_view(r)),
{
    let docker_args = vec![
        "stats",
        "--no-stream",
        "--format",
        "table {{.Name}}\t{{.CPUPerc}}\t{{.MemUsage}}\t{{.NetIO}}\t{{.BlockIO}}",
    ];
    assert(words(docker_args@) =~= seq!["stats"@, "--no-stream"@, "--format"@, stats_format()]);
    run_labelled(executor, docker_args.as_slice(), "Docker Stats".to_owned())
}

/// Returns the full JSON inspection output for a container.
pub fn inspect<E: DockerExecutor>(executor: &mut E, args: &[String]) -> (r: Result<CommandOutput, String>)
    ensures
        answers(*old(executor), *final(executor), inspect_request(texts(args@)), outcome_view(r)),
{
    if args.len() == 0 {
        return Err("Please provide a container name or ID.".to_owned());
    }
    let container = args[0].as_str();
    let docker_args = vec!["inspect", container];
    assert(words(docker_args@) =~= seq!["inspect"@, texts(args@)[0]]);
    run_labelled(executor, docker_args.as_slice(), "Inspect: ".to_owned().concat(container))
}

/// Executes a command inside a running container. Requires at least a
/// container name and a command to run.
pub fn exec<E: DockerExecutor>(executor: &mut E, args: &[String]) -> (r: Result<CommandOutput, String>)
    ensures
        answers(*old(executor), *final(executor), exec_request(texts(args@)), outcome_view(r)),
{
    if args.len() < 2 {
        return Err("Usage: /docker-exec <container> <command> [args...]\nExample: /docker-exec my-container ls -la".to_owned());
    }
    let prefix = vec!["exec"];
    assert(words(prefix@) =~= seq!["exec"@]);
    let docker_args = with_args(prefix, args);
    run_labelled(executor, docker_args.as_slice(), "Exec in: ".to_owned().concat(args[0].as_str()))
}

} // verus!
