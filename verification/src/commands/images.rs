//! Image management commands: listing, removal, pulling, running, and
//! building.

use vstd::prelude::*;
use crate::commands::{answers, outcome_view, run_labelled, with_args, Request};
use crate::docker::{words, DockerExecutor};
use crate::text::texts;
use crate::types::CommandOutput;

verus! {

/// The output format that `list` asks of Docker.
pub open spec fn images_format() -> Seq<char> {
    "table {{.Repository}}\t{{.Tag}}\t{{.ID}}\t{{.Size}}\t{{.CreatedSince}}"@
}

/// The usage message of `build`.
pub open spec fn build_usage() -> Seq<char> {
    "Usage: /docker-build <args>\nExample: /docker-build -t my-image ."@
}

/// What `list` makes of its arguments, which it does not read.
pub open spec fn list_request(args: Seq<Seq<char>>) -> Request {
    Request::Run(seq!["images"@, "--format"@, images_format()], "Docker Images"@)
}

/// What `rmi` makes of its arguments.
pub open spec fn rmi_request(args: Seq<Seq<char>>) -> Request {
    if args.len() == 0 {
        Request::Refuse("Please provide an image name or ID."@)
    } else {
        Request::Run(seq!["rmi"@, args[0]], "Removed Image: "@ + args[0])
    }
}

/// What `pull` makes of its arguments.
pub open spec fn pull_request(args: Seq<Seq<char>>) -> Request {
    if args.len() == 0 {
        Request::Refuse("Please provide an image name (e.g. 'nginx:latest')."@)
    } else {
        Request::Run(seq!["pull"@, args[0]], "Pulled: "@ + args[0])
    }
}

/// What `run` makes of its arguments.
pub open spec fn run_request(args: Seq<Seq<char>>) -> Request {
    if args.len() == 0 {
        Request::Refuse(
            "Please provide an image name (e.g. 'ubuntu:latest --name my-container -d')."@,
        )
    } else {
        Request::Run(seq!["run"@] + args, "Docker Run"@)
    }
}

/// What `build` makes of its arguments.
pub open spec fn build_request(args: Seq<Seq<char>>) -> Request {
    if args.len() == 0 {
        Request::Refuse(build_usage())
    } else {
        Request::Run(seq!["build"@] + args, "Docker Build"@)
    }
}

/// Lists available Docker images with repository, tag, ID, size, and age.
pub fn list<E: DockerExecutor>(executor: &mut E, args: &[String]) -> (r: Result<CommandOutput, String>)
    ensures
        answers(*old(executor), *final(executor), list_request(texts(args@)), outcome_view(r)),
{
    let docker_args = vec![
        "images",
        "--format",
        "table {{.Repository}}\t{{.Tag}}\t{{.ID}}\t{{.Size}}\t{{.CreatedSince}}",
    ];
    assert(words(docker_args@) =~= seq!["images"@, "--format"@, images_format()]);
    run_labelled(executor, docker_args.as_slice(), "Docker Images".to_owned())
}

/// Removes a Docker image by name or ID.
pub fn rmi<E: DockerExecutor>(executor: &mut E, args: &[String]) -> (r: Result<CommandOutput, String>)
    ensures
        answers(*old(executor), *final(executor), rmi_request(texts(args@)), outcome_view(r)),
{
    if args.len() == 0 {
        return Err("Please provide an image name or ID.".to_owned());
    }
    let image = args[0].as_str();
    let docker_args = vec!["rmi", image];
    assert(words(docker_args@) =~= seq!["rmi"@, texts(args@)[0]]);
    run_labelled(executor, docker_args.as_slice(), "Removed Image: ".to_owned().concat(image))
}

/// Pulls an image from a container registry.
pub fn pull<E: DockerExecutor>(executor: &mut E, args: &[String]) -> (r: Result<CommandOutput, String>)
    ensures
        answers(*old(executor), *final(executor), pull_request(texts(args@)), outcome_view(r)),
{
    if args.len() == 0 {
        return Err("Please provide an image name (e.g. 'nginx:latest').".to_owned());
    }
    let image = args[0].as_str();
    let docker_args = vec!["pull", image];
    assert(words(docker_args@) =~= seq!["pull"@, texts(args@)[0]]);
    run_labelled(executor, docker_args.as_slice(), "Pulled: ".to_owned().concat(image))
}

/// Runs a new container from an image. All arguments are forwarded to
/// docker run.
pub fn run<E: DockerExecutor>(executor: &mut E, args: &[String]) -> (r: Result<CommandOutput, String>)
    ensures
        answers(*old(executor), *final(executor), run_request(texts(args@)), outcome_view(r)),
{
    if args.len() == 0 {
        return Err(
            "Please provide an image name (e.g. 'ubuntu:latest --name my-container -d')."
                .to_owned(),
        );
    }
    let prefix = vec!["run"];
    assert(words(prefix@) =~= seq!["run"@]);
    let docker_args = with_args(prefix, args);
    run_labelled(executor, docker_args.as_slice(), "Docker Run".to_owned())
}

/// Builds an image from a Dockerfile. All arguments are forwarded to
/// docker build.
pub fn build<E: DockerExecutor>(executor: &mut E, args: &[String]) -> (r: Result<CommandOutput, String>)
    ensures
        answers(*old(executor), *final(executor), build_request(texts(args@)), outcome_view(r)),
{
    if args.len() == 0 {
        return Err("Usage: /docker-build <args>\nExample: /docker-build -t my-image .".to_owned());
    }
    let prefix = vec!["build"];
    assert(words(prefix@) =~= seq!["build"@]);
    let docker_args = with_args(prefix, args);
    run_labelled(executor, docker_args.as_slice(), "Docker Build".to_owned())
}

} // verus!
