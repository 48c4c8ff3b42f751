# docker_manager

Slash commands for the Zed editor that manage Docker containers, images and
compose services, with argument completion, written in Verus.

- `src/` is the verified library.
  - `text`: Unicode white space, trimming, and the splitting of command
    output into clean lines.
  - `types`: `CommandOutput`, and `IntoText` for text arguments.
  - `docker`: the `DockerExecutor` trait, the normalization of Docker's
    replies, and the reading of what a Docker process reported.
  - `commands`: the slash commands (`compose`, `containers`,
    `images`); each states the Docker command line it runs, or the message
    with which it refuses its arguments, and how Docker's reply becomes the
    output.
  - `completions`: argument completion from Docker's listings.
  - `extension`: routing of a slash command by name, with the laws that
    hold across all commands.
  - `testing`: `MockDockerExecutor`, an executor that records its calls and
    gives one configured reply.
- `app/` is the Zed glue: it runs `docker` through Zed's process API and
  converts between Zed's types and the library's.
- `tests/` exercises the library with the mock executor.
