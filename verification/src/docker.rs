//! Execution of Docker command lines through an executor that the caller
//! supplies, and the reading of what such an execution reports.

use vstd::prelude::*;
use crate::text::{is_blank, is_blank_text};
use vstd::utf8::{valid_utf8, decode_utf8};

verus! {

/// The texts that a sequence of string slices holds.
pub open spec fn words(v: Seq<&str>) -> Seq<Seq<char>> {
    v.map_values(|w: &str| w@)
}

/// The texts that a reply of an executor holds.
pub open spec fn reply_view(r: Result<String, String>) -> Result<Seq<char>, Seq<char>> {
    match r {
        Ok(out) => Ok(out@),
        Err(e) => Err(e@),
    }
}

/// The ability to execute Docker command lines.
pub trait DockerExecutor: Sized {
    /// Whether this executor, as it stands, may answer the Docker command
    /// line `args` with `reply` (standard output on success, an error
    /// message on failure) and be left as `after`. An executor that says
    /// nothing of its steps may take any.
    open spec fn can_step(
        &self,
        args: Seq<Seq<char>>,
        reply: Result<Seq<char>, Seq<char>>,
        after: Self,
    ) -> bool {
        true
    }

    /// Executes a Docker command line with the given arguments.
    /// Returns standard output on success or an error message on failure.
    fn execute(&mut self, args: &[&str]) -> (reply: Result<String, String>)
        ensures
            old(self).can_step(words(args@), reply_view(reply), *final(self)),
    ;
}

/// The message that stands for output that holds nothing but white space.
pub open spec fn no_output_message() -> Seq<char> {
    "Command completed successfully (no output)."@
}

/// A reply with blank output replaced by a human-readable success message;
/// errors pass through unchanged.
pub open spec fn normalized(reply: Result<Seq<char>, Seq<char>>) -> Result<Seq<char>, Seq<char>> {
    match reply {
        Ok(out) => if is_blank_text(out) {
            Ok(no_output_message())
        } else {
            Ok(out)
        },
        Err(e) => Err(e),
    }
}

/// A successful reply, once normalized, never presents blank text to the
/// user.
pub proof fn law_normalized_output_is_never_blank(reply: Result<Seq<char>, Seq<char>>)
    ensures
        normalized(reply) matches Ok(text) ==> !is_blank_text(text),
{
    reveal_strlit("Command completed successfully (no output).");
    assert(!crate::text::is_white_space(no_output_message()[0]));
}

/// Normalizing a reply a second time changes nothing, and errors are never
/// touched.
pub proof fn law_normalization_is_idempotent(reply: Result<Seq<char>, Seq<char>>)
    ensures
        normalized(normalized(reply)) == normalized(reply),
        reply is Err ==> normalized(reply) == reply,
{
    law_normalized_output_is_never_blank(reply);
}

/// Normalizing replaces output that is all white space by the success
/// message, and leaves other output and every error as they are.
pub proof fn law_normalization_replaces_only_blank_output(reply: Result<Seq<char>, Seq<char>>)
    ensures
        reply matches Ok(out) ==> (is_blank_text(out) ==> normalized(reply) == Ok::<
            Seq<char>,
            Seq<char>,
        >("Command completed successfully (no output)."@)),
        reply matches Ok(out) ==> (!is_blank_text(out) ==> normalized(reply) == reply),
        reply is Err ==> normalized(reply) == reply,
{
}

/// Normalizes an executor's reply: blank output becomes a human-readable
/// success message.
pub fn normalize_reply(reply: Result<String, String>) -> (r: Result<String, String>)
    ensures
        reply_view(r) == normalized(reply_view(reply)),
{
    match reply {
        Ok(out) => {
            if is_blank(out.as_str()) {
                Ok("Command completed successfully (no output).".to_owned())
            } else {
                Ok(out)
            }
        },
        Err(e) => Err(e),
    }
}

/// Executes a Docker command through the provided executor, normalizing
/// empty output into a human-readable success message.
pub fn run_docker_command<E: DockerExecutor>(executor: &mut E, args: &[&str]) -> (r: Result<String, String>)
    ensures
        exists|reply: Result<Seq<char>, Seq<char>>|
            #[trigger] old(executor).can_step(words(args@), reply, *final(executor)) && reply_view(r)
                == normalized(reply),
{
    let reply = executor.execute(args);
    normalize_reply(reply)
}

/// What a Docker process reported when it ended.
pub struct ProcessOutput {
    /// The exit code, if the process reported one.
    pub status: Option<i32>,
    pub stdout: Vec<u8>,
    pub stderr: Vec<u8>,
}

/// The text that `String::from_utf8_lossy` makes of `bytes`.
pub uninterp spec fn lossy_text(bytes: Seq<u8>) -> Seq<char>;

/// `String::from_utf8_lossy`, as an owned `String`: the bytes decoded as
/// UTF-8, with each invalid sequence replaced by U+FFFD. The contract names
/// the result, and states that valid UTF-8 is decoded as it stands; what the
/// replacement makes of invalid input is left unsaid.
#[verifier::external_body]
fn utf8_lossy(bytes: &[u8]) -> (s: String)
    ensures
        s@ == lossy_text(bytes@),
        valid_utf8(bytes@) ==> s@ == decode_utf8(bytes@),
{
    String::from_utf8_lossy(bytes).into_owned()
}

/// Whether an exit status reports success: a zero exit code, or none at
/// all.
pub open spec fn exit_succeeded(status: Option<i32>) -> bool {
    match status {
        Some(code) => code == 0,
        None => true,
    }
}

/// The reply that a Docker process gives: its standard output when it
/// succeeded, otherwise an error message built from its standard error; a
/// process that could not be started gives its launch error, prefixed.
pub open spec fn process_reply(spawned: Result<ProcessOutput, String>) -> Result<Seq<char>, Seq<char>> {
    match spawned {
        Err(e) => Err("Failed to execute docker command: "@ + e@),
        Ok(out) => if exit_succeeded(out.status) {
            Ok(lossy_text(out.stdout@))
        } else if is_blank_text(lossy_text(out.stderr@)) {
            Err("Docker command failed with no error message."@)
        } else {
            Err("Docker error: "@ + lossy_text(out.stderr@))
        },
    }
}

/// Turns what running a Docker process reported into an executor's reply.
pub fn interpret_process_output(spawned: Result<ProcessOutput, String>) -> (reply: Result<String, String>)
    ensures
        reply_view(reply) == process_reply(spawned),
{
    match spawned {
        Err(e) => Err("Failed to execute docker command: ".to_owned().concat(e.as_str())),
        Ok(out) => {
            let success = match out.status {
                Some(code) => code == 0,
                None => true,
            };
            if success {
                Ok(utf8_lossy(out.stdout.as_slice()))
            } else {
                let stderr = utf8_lossy(out.stderr.as_slice());
                if is_blank(stderr.as_str()) {
                    Err("Docker command failed with no error message.".to_owned())
                } else {
                    Err("Docker error: ".to_owned().concat(stderr.as_str()))
                }
            }
        },
    }
}

/// What a Docker process's report becomes: a process that could not start
/// gives its launch error after "Failed to execute docker command: "; the
/// reply is a success exactly when the exit status is zero or absent, and
/// then holds standard output as decoded; a failure gives "Docker error: "
/// and standard error, whatever standard output holds, or a fixed message
/// when standard error is blank.
pub proof fn law_process_outcomes(spawned: Result<ProcessOutput, String>)
    ensures
        spawned matches Err(e) ==> process_reply(spawned) == Err::<Seq<char>, Seq<char>>(
            "Failed to execute docker command: "@ + e@,
        ),
        spawned matches Ok(out) ==> (process_reply(spawned) is Ok <==> (out.status is None
            || out.status == Some(0i32))),
        spawned matches Ok(out) ==> (process_reply(spawned) is Ok ==> process_reply(spawned)
            == Ok::<Seq<char>, Seq<char>>(lossy_text(out.stdout@))),
        spawned matches Ok(out) ==> (process_reply(spawned) is Err && !is_blank_text(
            lossy_text(out.stderr@),
        ) ==> process_reply(spawned) == Err::<Seq<char>, Seq<char>>(
            "Docker error: "@ + lossy_text(out.stderr@),
        )),
        spawned matches Ok(out) ==> (process_reply(spawned) is Err && is_blank_text(
            lossy_text(out.stderr@),
        ) ==> process_reply(spawned) == Err::<Seq<char>, Seq<char>>(
            "Docker command failed with no error message."@,
        )),
{
}

} // verus!
