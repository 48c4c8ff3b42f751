//! The Docker slash commands: what each one asks of Docker, and how its
//! reply becomes the output shown to the user.

use vstd::prelude::*;
use crate::docker::{normalized, run_docker_command, words, DockerExecutor};
use crate::text::texts;
use crate::types::{CommandOutput, CommandOutputView};

pub mod compose;
pub mod containers;
pub mod images;

verus! {

/// What a command makes of its arguments: it either refuses them with an
/// error message, without running Docker, or runs Docker with a command
/// line and labels the output with a title.
pub enum Request {
    Refuse(Seq<char>),
    Run(Seq<Seq<char>>, Seq<char>),
}

/// What the result of a command holds.
pub open spec fn outcome_view(r: Result<CommandOutput, String>) -> Result<CommandOutputView, Seq<char>> {
    match r {
        Ok(out) => Ok(out@),
        Err(e) => Err(e@),
    }
}

/// The outcome of a command whose Docker run gave `reply`: the normalized
/// output under `label`, or Docker's error unchanged.
pub open spec fn labelled(label: Seq<char>, reply: Result<Seq<char>, Seq<char>>) -> Result<
    CommandOutputView,
    Seq<char>,
> {
    match normalized(reply) {
        Ok(text) => Ok(CommandOutputView { label, text }),
        Err(e) => Err(e),
    }
}

/// Whether `outcome`, with the executor going from `before` to `after`, is
/// what `request` gives: the refusal itself, with the executor untouched,
/// or the labelled reply to the command line, for one step of the executor
/// on that command line.
pub open spec fn answers<E: DockerExecutor>(
    before: E,
    after: E,
    request: Request,
    outcome: Result<CommandOutputView, Seq<char>>,
) -> bool {
    match request {
        Request::Refuse(message) => outcome == Err::<CommandOutputView, Seq<char>>(message)
            && after == before,
        Request::Run(line, label) => runs_to(before, after, line, label, outcome),
    }
}

/// Whether `outcome` is the labelled reply to the command line `line`, for
/// some reply with which the executor may step from `before` to `after` on
/// that command line.
pub open spec fn runs_to<E: DockerExecutor>(
    before: E,
    after: E,
    line: Seq<Seq<char>>,
    label: Seq<char>,
    outcome: Result<CommandOutputView, Seq<char>>,
) -> bool {
    exists|reply: Result<Seq<char>, Seq<char>>|
        #[trigger] before.can_step(line, reply, after) && outcome == labelled(label, reply)
}

/// The message for a container command given no container.
pub open spec fn missing_container() -> Seq<char> {
    "Please provide a container name or ID."@
}

/// The command line `prefix` followed by all of `args`, in order.
pub fn with_args<'a>(prefix: Vec<&'a str>, args: &'a [String]) -> (line: Vec<&'a str>)
    ensures
        words(line@) == words(prefix@) + texts(args@),
{
    let mut line = prefix;
    let ghost start = line@;
    for i in 0..args.len()
        invariant
            words(line@) == words(start) + texts(args@).take(i as int),
    {
        let ghost before = line@;
        line.push(args[i].as_str());
        assert(words(line@) =~= words(before).push(args@[i as int]@));
        assert(texts(args@).take(i + 1) =~= texts(args@).take(i as int).push(args@[i as int]@));
        assert(words(line@) =~= words(start) + texts(args@).take(i + 1));
    }
    assert(texts(args@).take(args.len() as int) =~= texts(args@));
    line
}

/// Runs Docker with the command line `line` and presents its normalized
/// output under `label`; Docker's error is passed on unchanged.
pub fn run_labelled<E: DockerExecutor>(executor: &mut E, line: &[&str], label: String) -> (r: Result<
    CommandOutput,
    String,
>)
    ensures
        answers(*old(executor), *final(executor), Request::Run(words(line@), label@), outcome_view(r)),
{
    match run_docker_command(executor, line) {
        Ok(text) => Ok(CommandOutput::new(label, text)),
        Err(e) => Err(e),
    }
}

/// A command that runs Docker shows, for the reply with which the executor
/// stepped on its command line, Docker's error unchanged, or the output
/// under the command's label: the success message when the output is all
/// white space, and the output itself otherwise.
pub proof fn law_run_outcomes<E: DockerExecutor>(
    before: E,
    after: E,
    line: Seq<Seq<char>>,
    label: Seq<char>,
    outcome: Result<CommandOutputView, Seq<char>>,
)
    requires
        runs_to(before, after, line, label, outcome),
    ensures
        exists|reply: Result<Seq<char>, Seq<char>>|
            #[trigger] before.can_step(line, reply, after) && (reply matches Err(e) ==> outcome
                == Err::<CommandOutputView, Seq<char>>(e)) && (reply matches Ok(out) ==> outcome
                == Ok::<CommandOutputView, Seq<char>>(
                CommandOutputView {
                    label,
                    text: if crate::text::is_blank_text(out) {
                        "Command completed successfully (no output)."@
                    } else {
                        out
                    },
                },
            )),
{
}

/// The names of the slash commands differ from one another; the pairs of
/// equal length are told apart by one character.
pub(crate) proof fn lemma_command_names_differ()
    ensures
        "docker-ps"@ != "docker-rm"@,
        "docker-rmi"@ != "docker-run"@,
        "docker-stop"@ != "docker-logs"@,
        "docker-stop"@ != "docker-exec"@,
        "docker-stop"@ != "docker-pull"@,
        "docker-logs"@ != "docker-exec"@,
        "docker-logs"@ != "docker-pull"@,
        "docker-exec"@ != "docker-pull"@,
        "docker-start"@ != "docker-stats"@,
        "docker-start"@ != "docker-build"@,
        "docker-stats"@ != "docker-build"@,
        "docker-ps"@.len() == 9,
        "docker-rm"@.len() == 9,
        "docker-rmi"@.len() == 10,
        "docker-run"@.len() == 10,
        "docker-stop"@.len() == 11,
        "docker-logs"@.len() == 11,
        "docker-exec"@.len() == 11,
        "docker-pull"@.len() == 11,
        "docker-start"@.len() == 12,
        "docker-stats"@.len() == 12,
        "docker-build"@.len() == 12,
        "docker-images"@.len() == 13,
        "docker-inspect"@.len() == 14,
        "docker-compose-up"@.len() == 17,
        "docker-compose-down"@.len() == 19,
{
    reveal_strlit("docker-ps");
    reveal_strlit("docker-rm");
    reveal_strlit("docker-rmi");
    reveal_strlit("docker-run");
    reveal_strlit("docker-stop");
    reveal_strlit("docker-logs");
    reveal_strlit("docker-exec");
    reveal_strlit("docker-pull");
    reveal_strlit("docker-start");
    reveal_strlit("docker-stats");
    reveal_strlit("docker-build");
    reveal_strlit("docker-images");
    reveal_strlit("docker-inspect");
    reveal_strlit("docker-compose-up");
    reveal_strlit("docker-compose-down");
    assert("docker-ps"@[7] != "docker-rm"@[7]);
    assert("docker-rmi"@[8] != "docker-run"@[8]);
    assert("docker-stop"@[7] != "docker-logs"@[7]);
    assert("docker-stop"@[7] != "docker-exec"@[7]);
    assert("docker-stop"@[7] != "docker-pull"@[7]);
    assert("docker-logs"@[7] != "docker-exec"@[7]);
    assert("docker-logs"@[7] != "docker-pull"@[7]);
    assert("docker-exec"@[7] != "docker-pull"@[7]);
    assert("docker-start"@[10] != "docker-stats"@[10]);
    assert("docker-start"@[7] != "docker-build"@[7]);
    assert("docker-stats"@[7] != "docker-build"@[7]);
}

} // verus!
