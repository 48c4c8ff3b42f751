//! The extension's entry points on plain values: a slash command is routed
//! by its name to the command that handles it, and argument completion to
//! the completions for that name.

use vstd::prelude::*;
use crate::commands::{answers, labelled, lemma_command_names_differ, outcome_view, Request};
use crate::commands::compose::{down, down_request, up, up_request};
use crate::commands::containers::{
    exec, exec_request, inspect, inspect_request, logs, logs_request, ps, ps_request, rm,
    rm_request, start, start_request, stats, stats_request, stop, stop_request,
};
use crate::commands::images::{
    build, build_request, list, list_request, pull, pull_request, rmi, rmi_request, run,
    run_request,
};
use crate::completions::{complete, completion_views, offered, Completion};
use crate::docker::DockerExecutor;
use crate::testing::MockDockerExecutor;
use crate::text::{same_text, texts};
use crate::types::{CommandOutput, CommandOutputView};
use vstd::utf8::encode_utf8;

verus! {

/// The message for a slash command that the extension does not know.
pub open spec fn unknown_command(name: Seq<char>) -> Seq<char> {
    "Unknown Docker command: \""@ + name + "\""@
}

/// What the slash command named `name` makes of its arguments.
pub open spec fn command_request(name: Seq<char>, args: Seq<Seq<char>>) -> Request {
    if name == "docker-ps"@ {
        ps_request(args)
    } else if name == "docker-start"@ {
        start_request(args)
    } else if name == "docker-stop"@ {
        stop_request(args)
    } else if name == "docker-rm"@ {
        rm_request(args)
    } else if name == "docker-logs"@ {
        logs_request(args)
    } else if name == "docker-stats"@ {
        stats_request(args)
    } else if name == "docker-inspect"@ {
        inspect_request(args)
    } else if name == "docker-exec"@ {
        exec_request(args)
    } else if name == "docker-images"@ {
        list_request(args)
    } else if name == "docker-rmi"@ {
        rmi_request(args)
    } else if name == "docker-pull"@ {
        pull_request(args)
    } else if name == "docker-run"@ {
        run_request(args)
    } else if name == "docker-build"@ {
        build_request(args)
    } else if name == "docker-compose-up"@ {
        up_request(args)
    } else if name == "docker-compose-down"@ {
        down_request(args)
    } else {
        Request::Refuse(unknown_command(name))
    }
}

/// A labelled stretch of a slash command's text, by byte offsets.
pub struct OutputSection {
    pub start: usize,
    pub end: usize,
    pub label: String,
}

/// What a slash command shows: its text and the labelled sections over it.
pub struct SlashOutput {
    pub text: String,
    pub sections: Vec<OutputSection>,
}

/// The extension entry point.
pub struct DockerManagerExtension;

impl DockerManagerExtension {
    /// Creates the extension.
    pub fn new() -> (ext: DockerManagerExtension) {
        DockerManagerExtension
    }

    /// Presents a command's output as its text with one section, under the
    /// command's label, that covers all of the text's bytes.
    pub fn to_slash_output(output: CommandOutput) -> (shown: SlashOutput)
        ensures
            shown.text@ == output.text@,
            shown.sections@.len() == 1,
            shown.sections@[0].start == 0,
            shown.sections@[0].end == encode_utf8(output.text@).len() as usize,
            shown.sections@[0].label@ == output.label@,
    {
        let len: usize = output.text.as_str().len();
        let section = OutputSection { start: 0, end: len, label: output.label };
        SlashOutput { text: output.text, sections: vec![section] }
    }

    /// Runs the slash command named `command_name` with `args`, querying
    /// Docker through `executor`.
    pub fn run_slash_command<E: DockerExecutor>(
        &self,
        command_name: &str,
        args: &[String],
        executor: &mut E,
    ) -> (r: Result<CommandOutput, String>)
        ensures
            answers(
                *old(executor),
                *final(executor),
                command_request(command_name@, texts(args@)),
                outcome_view(r),
            ),
    {
        let name = command_name;
        if same_text(name, "docker-ps") {
            ps(executor, args)
        } else if same_text(name, "docker-start") {
            start(executor, args)
        } else if same_text(name, "docker-stop") {
            stop(executor, args)
        } else if same_text(name, "docker-rm") {
            rm(executor, args)
        } else if same_text(name, "docker-logs") {
            logs(executor, args)
        } else if same_text(name, "docker-stats") {
            stats(executor, args)
        } else if same_text(name, "docker-inspect") {
            inspect(executor, args)
        } else if same_text(name, "docker-exec") {
            exec(executor, args)
        } else if same_text(name, "docker-images") {
            list(executor, args)
        } else if same_text(name, "docker-rmi") {
            rmi(executor, args)
        } else if same_text(name, "docker-pull") {
            pull(executor, args)
        } else if same_text(name, "docker-run") {
            run(executor, args)
        } else if same_text(name, "docker-build") {
            build(executor, args)
        } else if same_text(name, "docker-compose-up") {
            up(executor, args)
        } else if same_text(name, "docker-compose-down") {
            down(executor, args)
        } else {
            Err("Unknown Docker command: \"".to_owned().concat(name).concat("\""))
        }
    }

    /// The completions for the arguments of the slash command named
    /// `command_name`, querying Docker through `executor`.
    pub fn complete_slash_command_argument<E: DockerExecutor>(
        &self,
        command_name: &str,
        executor: &mut E,
    ) -> (r: Result<Vec<Completion>, String>)
        ensures
            r is Ok,
            r matches Ok(completions) && offered(
                *old(executor),
                *final(executor),
                command_name@,
                completion_views(completions@),
            ),
    {
        complete(command_name, executor)
    }
}

/// The names of the slash commands that the extension handles.
pub open spec fn is_known_command(name: Seq<char>) -> bool {
    ||| name == "docker-ps"@
    ||| name == "docker-start"@
    ||| name == "docker-stop"@
    ||| name == "docker-rm"@
    ||| name == "docker-logs"@
    ||| name == "docker-stats"@
    ||| name == "docker-inspect"@
    ||| name == "docker-exec"@
    ||| name == "docker-images"@
    ||| name == "docker-rmi"@
    ||| name == "docker-pull"@
    ||| name == "docker-run"@
    ||| name == "docker-build"@
    ||| name == "docker-compose-up"@
    ||| name == "docker-compose-down"@
}

/// The commands that need at least one argument: a container, an image, or
/// what Docker is to run or build.
pub open spec fn needs_argument(name: Seq<char>) -> bool {
    ||| name == "docker-start"@
    ||| name == "docker-stop"@
    ||| name == "docker-rm"@
    ||| name == "docker-logs"@
    ||| name == "docker-inspect"@
    ||| name == "docker-rmi"@
    ||| name == "docker-pull"@
    ||| name == "docker-run"@
    ||| name == "docker-build"@
}

/// The commands that pass all of their arguments on to Docker, in order,
/// at the end of the command line.
pub open spec fn forwards_arguments(name: Seq<char>) -> bool {
    ||| name == "docker-rm"@
    ||| name == "docker-logs"@
    ||| name == "docker-exec"@
    ||| name == "docker-run"@
    ||| name == "docker-build"@
    ||| name == "docker-compose-up"@
    ||| name == "docker-compose-down"@
}

/// A slash command refuses to run, without asking anything of Docker,
/// exactly when its name is unknown, when it needs an argument and was
/// given none, or when it is `docker-exec` and was given fewer than a
/// container and a command.
pub proof fn law_refusals_are_exactly_unusable_requests(name: Seq<char>, args: Seq<Seq<char>>)
    ensures
        command_request(name, args) is Refuse <==> (!is_known_command(name) || (needs_argument(
            name,
        ) && args.len() == 0) || (name == "docker-exec"@ && args.len() < 2)),
{
    lemma_command_names_differ();
}

/// The commands that forward their arguments hand Docker a command line
/// that ends with all of the user's arguments, unchanged and in order.
pub proof fn law_forwarded_arguments_reach_docker_unchanged(name: Seq<char>, args: Seq<Seq<char>>)
    requires
        forwards_arguments(name),
        command_request(name, args) is Run,
    ensures
        ({
            let line = command_request(name, args)->Run_0;
            &&& line.len() >= args.len()
            &&& line.skip(line.len() - args.len()) == args
        }),
{
    lemma_command_names_differ();
    let line = command_request(name, args)->Run_0;
    assert(line.skip(line.len() - args.len()) =~= args);
}

/// A refused command leaves the executor as it was: Docker is not run.
pub proof fn law_refusals_leave_docker_alone<E: DockerExecutor>(
    before: E,
    after: E,
    name: Seq<char>,
    args: Seq<Seq<char>>,
    outcome: Result<CommandOutputView, Seq<char>>,
)
    requires
        command_request(name, args) is Refuse,
        answers(before, after, command_request(name, args), outcome),
    ensures
        after == before,
        outcome == Err::<CommandOutputView, Seq<char>>(command_request(name, args)->Refuse_0),
{
}

/// When Docker fails, whatever the command, the user is shown Docker's
/// error message unchanged.
pub proof fn law_docker_errors_reach_the_user<E: DockerExecutor>(
    before: E,
    after: E,
    name: Seq<char>,
    args: Seq<Seq<char>>,
    error: Seq<char>,
    outcome: Result<CommandOutputView, Seq<char>>,
)
    requires
        command_request(name, args) is Run,
        forall|reply: Result<Seq<char>, Seq<char>>, next: E|
            before.can_step(command_request(name, args)->Run_0, reply, next) ==> reply == Err::<
                Seq<char>,
                Seq<char>,
            >(error),
        answers(before, after, command_request(name, args), outcome),
    ensures
        outcome == Err::<CommandOutputView, Seq<char>>(error),
{
}

/// Whatever Docker replies, a command that runs it either passes on
/// Docker's error or presents output that is not blank under the command's
/// own label.
pub proof fn law_outputs_carry_the_command_label<E: DockerExecutor>(
    before: E,
    after: E,
    name: Seq<char>,
    args: Seq<Seq<char>>,
    outcome: Result<CommandOutputView, Seq<char>>,
)
    requires
        command_request(name, args) is Run,
        answers(before, after, command_request(name, args), outcome),
    ensures
        outcome matches Ok(out) ==> out.label == command_request(name, args)->Run_1
            && !crate::text::is_blank_text(out.text),
{
    let reply = choose|reply: Result<Seq<char>, Seq<char>>|
        #[trigger] before.can_step(command_request(name, args)->Run_0, reply, after) && outcome
            == labelled(command_request(name, args)->Run_1, reply);
    crate::docker::law_normalized_output_is_never_blank(reply);
}

/// With the mock executor, a command that runs Docker records exactly its
/// command line, once, after the earlier ones, and presents the mock's
/// reply under its label; a refused command records nothing.
pub proof fn law_mock_records_each_command_line(
    before: MockDockerExecutor,
    after: MockDockerExecutor,
    name: Seq<char>,
    args: Seq<Seq<char>>,
    outcome: Result<CommandOutputView, Seq<char>>,
)
    requires
        answers(before, after, command_request(name, args), outcome),
    ensures
        after.configured_reply() == before.configured_reply(),
        command_request(name, args) matches Request::Run(line, label) ==> after.recorded()
            == before.recorded().push(line) && outcome == labelled(label, before.configured_reply()),
        command_request(name, args) is Refuse ==> after.recorded() == before.recorded(),
{
}

/// Whether one of `args` asks for stopped containers too.
pub open spec fn asks_for_all(args: Seq<Seq<char>>) -> bool {
    exists|i: int|
        0 <= i < args.len() && (#[trigger] args[i] == "all"@ || args[i] == "-a"@ || args[i]
            == "--all"@)
}

/// `docker-ps` runs `docker ps` with a fixed table format and lists the
/// running containers; when one of its arguments is `all`, `-a` or
/// `--all`, it runs the same command line with `-a` added at the end, and
/// nothing else, to list all containers. Its other arguments are ignored.
pub proof fn law_ps_lines(args: Seq<Seq<char>>)
    ensures
        command_request("docker-ps"@, Seq::empty()) == Request::Run(
            seq![
                "ps"@,
                "--format"@,
                "table {{.ID}}\t{{.Names}}\t{{.Image}}\t{{.Status}}\t{{.Ports}}"@,
            ],
            "Docker Containers (running)"@,
        ),
        asks_for_all(args) ==> command_request("docker-ps"@, args) == Request::Run(
            command_request("docker-ps"@, Seq::empty())->Run_0.push("-a"@),
            "Docker Containers (all)"@,
        ),
        !asks_for_all(args) ==> command_request("docker-ps"@, args) == command_request(
            "docker-ps"@,
            Seq::empty(),
        ),
{
    lemma_command_names_differ();
    assert(seq![
        "ps"@,
        "--format"@,
        "table {{.ID}}\t{{.Names}}\t{{.Image}}\t{{.Status}}\t{{.Ports}}"@,
    ].push("-a"@) =~= seq![
        "ps"@,
        "--format"@,
        "table {{.ID}}\t{{.Names}}\t{{.Image}}\t{{.Status}}\t{{.Ports}}"@,
        "-a"@,
    ]);
    assert(!crate::commands::containers::shows_all(Seq::<Seq<char>>::empty()));
}

/// The commands on one container or image run Docker's subcommand of the
/// same name on the first argument alone, and label the output with it;
/// further arguments change nothing.
pub proof fn law_single_target_lines(args: Seq<Seq<char>>)
    requires
        args.len() > 0,
    ensures
        command_request("docker-start"@, args) == Request::Run(
            seq!["start"@, args[0]],
            "Started: "@ + args[0],
        ),
        command_request("docker-stop"@, args) == Request::Run(
            seq!["stop"@, args[0]],
            "Stopped: "@ + args[0],
        ),
        command_request("docker-inspect"@, args) == Request::Run(
            seq!["inspect"@, args[0]],
            "Inspect: "@ + args[0],
        ),
        command_request("docker-rmi"@, args) == Request::Run(
            seq!["rmi"@, args[0]],
            "Removed Image: "@ + args[0],
        ),
        command_request("docker-pull"@, args) == Request::Run(
            seq!["pull"@, args[0]],
            "Pulled: "@ + args[0],
        ),
{
    lemma_command_names_differ();
}

/// The commands that forward their arguments run exactly their Docker
/// subcommand followed by all of the user's arguments, unchanged and in
/// order, with nothing added.
pub proof fn law_forwarding_lines(args: Seq<Seq<char>>)
    ensures
        args.len() > 0 ==> command_request("docker-rm"@, args) == Request::Run(
            seq!["rm"@] + args,
            "Removed Container"@,
        ),
        args.len() > 0 ==> command_request("docker-logs"@, args) == Request::Run(
            seq!["logs"@] + args,
            "Logs: "@ + args[0],
        ),
        args.len() >= 2 ==> command_request("docker-exec"@, args) == Request::Run(
            seq!["exec"@] + args,
            "Exec in: "@ + args[0],
        ),
        args.len() > 0 ==> command_request("docker-run"@, args) == Request::Run(
            seq!["run"@] + args,
            "Docker Run"@,
        ),
        args.len() > 0 ==> command_request("docker-build"@, args) == Request::Run(
            seq!["build"@] + args,
            "Docker Build"@,
        ),
        command_request("docker-compose-up"@, args) == Request::Run(
            seq!["compose"@, "up"@] + args,
            "Docker Compose Up"@,
        ),
        command_request("docker-compose-down"@, args) == Request::Run(
            seq!["compose"@, "down"@] + args,
            "Docker Compose Down"@,
        ),
{
    lemma_command_names_differ();
}

/// `docker-stats` and `docker-images` ignore their arguments and run a
/// fixed command line.
pub proof fn law_fixed_lines(args: Seq<Seq<char>>)
    ensures
        command_request("docker-stats"@, args) == Request::Run(
            seq![
                "stats"@,
                "--no-stream"@,
                "--format"@,
                "table {{.Name}}\t{{.CPUPerc}}\t{{.MemUsage}}\t{{.NetIO}}\t{{.BlockIO}}"@,
            ],
            "Docker Stats"@,
        ),
        command_request("docker-images"@, args) == Request::Run(
            seq![
                "images"@,
                "--format"@,
                "table {{.Repository}}\t{{.Tag}}\t{{.ID}}\t{{.Size}}\t{{.CreatedSince}}"@,
            ],
            "Docker Images"@,
        ),
{
    lemma_command_names_differ();
}

/// The messages with which commands refuse missing arguments, and an
/// unknown command name.
pub proof fn law_refusal_messages(name: Seq<char>, args: Seq<Seq<char>>)
    ensures
        command_request("docker-start"@, Seq::empty()) == Request::Refuse(
            "Please provide a container name or ID."@,
        ),
        command_request("docker-stop"@, Seq::empty()) == Request::Refuse(
            "Please provide a container name or ID."@,
        ),
        command_request("docker-rm"@, Seq::empty()) == Request::Refuse(
            "Please provide a container name or ID."@,
        ),
        command_request("docker-logs"@, Seq::empty()) == Request::Refuse(
            "Please provide a container name or ID."@,
        ),
        command_request("docker-inspect"@, Seq::empty()) == Request::Refuse(
            "Please provide a container name or ID."@,
        ),
        args.len() < 2 ==> command_request("docker-exec"@, args) == Request::Refuse(
            "Usage: /docker-exec <container> <command> [args...]\nExample: /docker-exec my-container ls -la"@,
        ),
        command_request("docker-rmi"@, Seq::empty()) == Request::Refuse(
            "Please provide an image name or ID."@,
        ),
        command_request("docker-pull"@, Seq::empty()) == Request::Refuse(
            "Please provide an image name (e.g. 'nginx:latest')."@,
        ),
        command_request("docker-run"@, Seq::empty()) == Request::Refuse(
            "Please provide an image name (e.g. 'ubuntu:latest --name my-container -d')."@,
        ),
        command_request("docker-build"@, Seq::empty()) == Request::Refuse(
            "Usage: /docker-build <args>\nExample: /docker-build -t my-image ."@,
        ),
        !is_known_command(name) ==> command_request(name, args) == Request::Refuse(
            "Unknown Docker command: \""@ + name + "\""@,
        ),
{
    lemma_command_names_differ();
}

} // verus!
