//! Docker Compose service management commands.

use vstd::prelude::*;
use crate::commands::{answers, outcome_view, run_labelled, with_args, Request};
use crate::docker::{words, DockerExecutor};
use crate::text::texts;
use crate::types::CommandOutput;

verus! {

/// What `up` makes of its arguments.
pub open spec fn up_request(args: Seq<Seq<char>>) -> Request {
    Request::Run(seq!["compose"@, "up"@] + args, "Docker Compose Up"@)
}

/// What `down` makes of its arguments.
pub open spec fn down_request(args: Seq<Seq<char>>) -> Request {
    Request::Run(seq!["compose"@, "down"@] + args, "Docker Compose Down"@)
}

/// Starts compose services. Common flags include -d (detached) and
/// --build (rebuild images before starting).
pub fn up<E: DockerExecutor>(executor: &mut E, args: &[String]) -> (r: Result<CommandOutput, String>)
    ensures
        answers(*old(executor), *final(executor), up_request(texts(args@)), outcome_view(r)),
{
    let prefix = vec!["compose", "up"];
    assert(words(prefix@) =~= seq!["compose"@, "up"@]);
    let docker_args = with_args(prefix, args);
    run_labelled(executor, docker_args.as_slice(), "Docker Compose Up".to_owned())
}

/// Stops and removes compose services, networks, and optionally volumes.
pub fn down<E: DockerExecutor>(executor: &mut E, args: &[String]) -> (r: Result<CommandOutput, String>)
    ensures
        answers(*old(executor), *final(executor), down_request(texts(args@)), outcome_view(r)),
{
    let prefix = vec!["compose", "down"];
    assert(words(prefix@) =~= seq!["compose"@, "down"@]);
    let docker_args = with_args(prefix, args);
    run_labelled(executor, docker_args.as_slice(), "Docker Compose Down".to_owned())
}

} // verus!
