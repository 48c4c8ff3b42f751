//! Dynamic argument completion for Docker slash commands. Docker is queried
//! at completion time for container names and image names; a few commands
//! are offered fixed flags instead.

use vstd::prelude::*;
use crate::commands::lemma_command_names_differ;
use crate::docker::{reply_view, words, DockerExecutor};
use crate::text::{is_clean_line, law_output_lines_are_clean, output_lines, same_text, texts};
use crate::types::IntoText;

pub use crate::text::parse_lines;

verus! {

/// A single completion entry for a slash command argument.
#[derive(Debug)]
pub struct Completion {
    pub label: String,
    pub new_text: String,
    pub run_command: bool,
}

/// What a `Completion` holds.
pub struct CompletionView {
    pub label: Seq<char>,
    pub new_text: Seq<char>,
    pub run_command: bool,
}

impl View for Completion {
    type V = CompletionView;

    open spec fn view(&self) -> CompletionView {
        CompletionView { label: self.label@, new_text: self.new_text@, run_command: self.run_command }
    }
}

/// What a sequence of completions holds.
pub open spec fn completion_views(v: Seq<Completion>) -> Seq<CompletionView> {
    v.map_values(|c: Completion| c@)
}

impl Completion {
    /// Creates a completion that runs the command immediately on acceptance.
    pub fn auto_run<L: IntoText, T: IntoText>(label: L, text: T) -> (c: Completion)
        ensures
            c@ == (CompletionView { label: label.text(), new_text: text.text(), run_command: true }),
    {
        Completion { label: label.into_text(), new_text: text.into_text(), run_command: true }
    }

    /// Creates a completion that inserts text without running the command.
    pub fn insert_only<L: IntoText, T: IntoText>(label: L, text: T) -> (c: Completion)
        ensures
            c@ == (CompletionView { label: label.text(), new_text: text.text(), run_command: false }),
    {
        Completion { label: label.into_text(), new_text: text.into_text(), run_command: false }
    }
}

/// The command line that lists the names of running containers.
pub open spec fn running_names_query() -> Seq<Seq<char>> {
    seq!["ps"@, "--format"@, "{{.Names}}"@]
}

/// The command line that lists the names of all containers.
pub open spec fn all_names_query() -> Seq<Seq<char>> {
    seq!["ps"@, "-a"@, "--format"@, "{{.Names}}"@]
}

/// The command line that lists images as repository:tag.
pub open spec fn image_names_query() -> Seq<Seq<char>> {
    seq!["images"@, "--format"@, "{{.Repository}}:{{.Tag}}"@]
}

/// The names that a reply lists: the lines of its output, or none when
/// Docker failed.
pub open spec fn names_from(reply: Result<Seq<char>, Seq<char>>) -> Seq<Seq<char>> {
    match reply {
        Ok(out) => output_lines(out),
        Err(_) => Seq::empty(),
    }
}

/// Whether an image name carries a repository and a tag.
pub open spec fn is_tagged(name: Seq<char>) -> bool {
    name != "<none>:<none>"@
}

/// The names in `names` of images that are tagged, in order.
pub open spec fn tagged_names(names: Seq<Seq<char>>) -> Seq<Seq<char>> {
    names.filter(|n: Seq<char>| is_tagged(n))
}

/// Whether `names` are the names that `executor` may list for `query`.
pub open spec fn lists_names<E: DockerExecutor>(
    before: E,
    after: E,
    query: Seq<Seq<char>>,
    names: Seq<Seq<char>>,
) -> bool {
    exists|reply: Result<Seq<char>, Seq<char>>|
        #[trigger] before.can_step(query, reply, after) && names == names_from(reply)
}

/// Whether `names` are the tagged image names that `executor` may list.
pub open spec fn lists_images<E: DockerExecutor>(before: E, after: E, names: Seq<Seq<char>>) -> bool {
    exists|reply: Result<Seq<char>, Seq<char>>|
        #[trigger] before.can_step(image_names_query(), reply, after) && names == tagged_names(
            names_from(reply),
        )
}

/// The names listed in an executor's reply.
pub fn names_in(reply: Result<String, String>) -> (names: Vec<String>)
    ensures
        texts(names@) == names_from(reply_view(reply)),
{
    match reply {
        Ok(output) => parse_lines(output.as_str()),
        Err(_) => Vec::new(),
    }
}

proof fn lemma_tagged_names_push(names: Seq<Seq<char>>, name: Seq<char>)
    ensures
        tagged_names(names.push(name)) == (if is_tagged(name) {
            tagged_names(names).push(name)
        } else {
            tagged_names(names)
        }),
{
    assert(names.push(name).drop_last() =~= names);
    reveal(Seq::filter);
}

/// The tagged names among `names`, in order.
pub fn tagged(names: Vec<String>) -> (kept: Vec<String>)
    ensures
        texts(kept@) == tagged_names(texts(names@)),
{
    let mut kept: Vec<String> = Vec::new();
    assert(texts(names@).take(0) =~= Seq::<Seq<char>>::empty());
    reveal(Seq::filter);
    for i in 0..names.len()
        invariant
            texts(kept@) == tagged_names(texts(names@).take(i as int)),
    {
        let ghost before = kept@;
        let name = &names[i];
        proof {
            lemma_tagged_names_push(texts(names@).take(i as int), name@);
        }
        assert(texts(names@).take(i + 1) =~= texts(names@).take(i as int).push(name@));
        if !same_text(name.as_str(), "<none>:<none>") {
            kept.push(name.clone());
            assert(texts(kept@) =~= texts(before).push(name@));
        }
    }
    assert(texts(names@).take(names.len() as int) =~= texts(names@));
    kept
}

/// Returns names of currently running containers.
pub fn list_container_names<E: DockerExecutor>(executor: &mut E) -> (names: Vec<String>)
    ensures
        lists_names(*old(executor), *final(executor), running_names_query(), texts(names@)),
{
    let query = ["ps", "--format", "{{.Names}}"];
    let reply = executor.execute(&query);
    assert(words(query@) =~= running_names_query());
    names_in(reply)
}

/// Returns names of all containers including stopped ones.
pub fn list_all_container_names<E: DockerExecutor>(executor: &mut E) -> (names: Vec<String>)
    ensures
        lists_names(*old(executor), *final(executor), all_names_query(), texts(names@)),
{
    let query = ["ps", "-a", "--format", "{{.Names}}"];
    let reply = executor.execute(&query);
    assert(words(query@) =~= all_names_query());
    names_in(reply)
}

/// Returns image names as repository:tag, filtering out untagged images.
pub fn list_image_names<E: DockerExecutor>(executor: &mut E) -> (names: Vec<String>)
    ensures
        lists_images(*old(executor), *final(executor), texts(names@)),
{
    let query = ["images", "--format", "{{.Repository}}:{{.Tag}}"];
    let reply = executor.execute(&query);
    assert(words(query@) =~= image_names_query());
    tagged(names_in(reply))
}

/// The completion that offers `name` itself, running the command on
/// acceptance or not.
pub open spec fn name_completion(name: Seq<char>, run: bool) -> CompletionView {
    CompletionView { label: name, new_text: name, run_command: run }
}

/// The completions that offer each of `names`, in order.
pub open spec fn name_completions(names: Seq<Seq<char>>, run: bool) -> Seq<CompletionView> {
    names.map_values(|n: Seq<char>| name_completion(n, run))
}

/// Whether `name` is a command that completes with running containers.
pub open spec fn completes_running(name: Seq<char>) -> bool {
    ||| name == "docker-stop"@
    ||| name == "docker-logs"@
    ||| name == "docker-exec"@
    ||| name == "docker-inspect"@
    ||| name == "docker-stats"@
}

/// Whether `name` is a command that completes with all containers.
pub open spec fn completes_all(name: Seq<char>) -> bool {
    name == "docker-start"@ || name == "docker-rm"@
}

/// The completions offered for the command named `name`, where Docker is
/// queried through `executor`.
pub open spec fn offered<E: DockerExecutor>(
    before: E,
    after: E,
    name: Seq<char>,
    completions: Seq<CompletionView>,
) -> bool {
    if completes_running(name) {
        exists|names: Seq<Seq<char>>|
            #[trigger] lists_names(before, after, running_names_query(), names) && completions
                == name_completions(names, true)
    } else if completes_all(name) {
        exists|names: Seq<Seq<char>>|
            #[trigger] lists_names(before, after, all_names_query(), names) && completions
                == name_completions(names, true)
    } else if name == "docker-rmi"@ {
        exists|names: Seq<Seq<char>>|
            #[trigger] lists_images(before, after, names) && completions == name_completions(names, true)
    } else if name == "docker-run"@ || name == "docker-pull"@ {
        exists|names: Seq<Seq<char>>|
            #[trigger] lists_images(before, after, names) && completions == name_completions(names, false)
    } else if name == "docker-ps"@ {
        completions == seq![name_completion("all"@, true)] && after == before
    } else if name == "docker-compose-up"@ {
        completions == seq![
            CompletionView { label: "Detached mode (-d)"@, new_text: "-d"@, run_command: true },
            CompletionView {
                label: "Build before starting (--build)"@,
                new_text: "--build"@,
                run_command: true,
            },
        ] && after == before
    } else if name == "docker-build"@ {
        completions == seq![
            CompletionView {
                label: "Build current directory"@,
                new_text: "-t my-image ."@,
                run_command: false,
            },
        ] && after == before
    } else {
        completions == Seq::<CompletionView>::empty() && after == before
    }
}

/// The completions that offer each of `names`, in order.
fn to_completions(names: Vec<String>, run: bool) -> (completions: Vec<Completion>)
    ensures
        completion_views(completions@) == name_completions(texts(names@), run),
{
    let mut completions: Vec<Completion> = Vec::new();
    for i in 0..names.len()
        invariant
            completion_views(completions@) == name_completions(texts(names@).take(i as int), run),
    {
        let name = names[i].clone();
        let c = if run {
            Completion::auto_run(name.clone(), name)
        } else {
            Completion::insert_only(name.clone(), name)
        };
        let ghost before = completions@;
        completions.push(c);
        assert(completion_views(completions@) =~= completion_views(before).push(c@));
        assert(texts(names@).take(i + 1) =~= texts(names@).take(i as int).push(names@[i as int]@));
        assert(name_completions(texts(names@).take(i + 1), run) =~= name_completions(
            texts(names@).take(i as int),
            run,
        ).push(name_completion(names@[i as int]@, run)));
    }
    assert(texts(names@).take(names.len() as int) =~= texts(names@));
    completions
}

/// Generates completions appropriate for the given slash command name.
pub fn complete<E: DockerExecutor>(command_name: &str, executor: &mut E) -> (r: Result<
    Vec<Completion>,
    String,
>)
    ensures
        r is Ok,
        r matches Ok(completions) && offered(
            *old(executor),
            *final(executor),
            command_name@,
            completion_views(completions@),
        ),
{
    let name = command_name;
    if same_text(name, "docker-stop") || same_text(name, "docker-logs") || same_text(name, "docker-exec")
        || same_text(name, "docker-inspect") || same_text(name, "docker-stats") {
        let names = list_container_names(executor);
        let completions = to_completions(names, true);

        Ok(completions)
    } else if same_text(name, "docker-start") || same_text(name, "docker-rm") {
        let names = list_all_container_names(executor);
        let completions = to_completions(names, true);

        Ok(completions)
    } else if same_text(name, "docker-rmi") {
        let names = list_image_names(executor);
        let completions = to_completions(names, true);

        Ok(completions)
    } else if same_text(name, "docker-run") || same_text(name, "docker-pull") {
        let names = list_image_names(executor);
        let completions = to_completions(names, false);

        Ok(completions)
    } else if same_text(name, "docker-ps") {
        let completions = vec![Completion::auto_run("all", "all")];
        assert(completion_views(completions@) =~= seq![name_completion("all"@, true)]);
        Ok(completions)
    } else if same_text(name, "docker-compose-up") {
        let completions = vec![
            Completion::auto_run("Detached mode (-d)", "-d"),
            Completion::auto_run("Build before starting (--build)", "--build"),
        ];
        assert(completion_views(completions@) =~= seq![
            CompletionView { label: "Detached mode (-d)"@, new_text: "-d"@, run_command: true },
            CompletionView {
                label: "Build before starting (--build)"@,
                new_text: "--build"@,
                run_command: true,
            },
        ]);
        Ok(completions)
    } else if same_text(name, "docker-build") {
        let completions = vec![Completion::insert_only("Build current directory", "-t my-image .")];
        assert(completion_views(completions@) =~= seq![
            CompletionView {
                label: "Build current directory"@,
                new_text: "-t my-image ."@,
                run_command: false,
            },
        ]);
        Ok(completions)
    } else {
        let completions: Vec<Completion> = Vec::new();
        assert(completion_views(completions@) =~= Seq::<CompletionView>::empty());
        Ok(completions)
    }
}

proof fn lemma_tagged_names_keep(names: Seq<Seq<char>>)
    requires
        forall|i: int| 0 <= i < names.len() ==> is_clean_line(#[trigger] names[i]),
    ensures
        forall|i: int| 0 <= i < tagged_names(names).len() ==> is_clean_line(
            #[trigger] tagged_names(names)[i],
        ) && is_tagged(tagged_names(names)[i]),
    decreases names.len(),
{
    if names.len() > 0 {
        let front = names.drop_last();
        assert(front.push(names.last()) =~= names);
        lemma_tagged_names_keep(front);
        lemma_tagged_names_push(front, names.last());
    } else {
        reveal(Seq::filter);
    }
}

/// The image names offered for completion never include an untagged
/// image.
pub proof fn law_untagged_images_are_never_offered(names: Seq<Seq<char>>)
    ensures
        forall|i: int| 0 <= i < tagged_names(names).len() ==> #[trigger] tagged_names(names)[i]
            != "<none>:<none>"@,
{
    assert forall|i: int| 0 <= i < tagged_names(names).len() implies #[trigger] tagged_names(
        names,
    )[i] != "<none>:<none>"@ by {
        names.lemma_filter_pred(|n: Seq<char>| is_tagged(n), i);
    }
}

/// A listing that Docker failed lists no names; one that it answered
/// lists the lines of its output.
pub proof fn law_failed_listing_lists_nothing(reply: Result<Seq<char>, Seq<char>>)
    ensures
        reply is Err ==> names_from(reply).len() == 0,
        reply matches Ok(out) ==> names_from(reply) == output_lines(out),
{
}

/// The image filter drops `<none>:<none>` and nothing else: no names are
/// kept of no names, and one more listed name is kept, after the others,
/// exactly when it is not `<none>:<none>`.
pub proof fn law_image_filter_drops_only_untagged(names: Seq<Seq<char>>, name: Seq<char>)
    ensures
        tagged_names(Seq::empty()) == Seq::<Seq<char>>::empty(),
        tagged_names(names.push(name)) == (if name == "<none>:<none>"@ {
            tagged_names(names)
        } else {
            tagged_names(names).push(name)
        }),
{
    lemma_tagged_names_push(names, name);
    reveal(Seq::filter);
}

/// The names that Docker's listings yield are clean lines, and the image
/// names that remain after filtering are clean and tagged.
pub proof fn law_listed_names_are_clean(reply: Result<Seq<char>, Seq<char>>)
    ensures
        forall|i: int| 0 <= i < names_from(reply).len() ==> is_clean_line(
            #[trigger] names_from(reply)[i],
        ),
        forall|i: int| 0 <= i < tagged_names(names_from(reply)).len() ==> is_clean_line(
            #[trigger] tagged_names(names_from(reply))[i],
        ) && is_tagged(tagged_names(names_from(reply))[i]),
{
    if let Ok(out) = reply {
        law_output_lines_are_clean(out);
    }
    lemma_tagged_names_keep(names_from(reply));
}

/// Every completion that lists containers or images offers a clean name as
/// both its label and its text; it runs the command at once, except for
/// `docker-run` and `docker-pull`, where more arguments may follow; and
/// no untagged image is ever offered.
pub proof fn law_listed_completions_offer_clean_names<E: DockerExecutor>(
    before: E,
    after: E,
    name: Seq<char>,
    completions: Seq<CompletionView>,
)
    requires
        completes_running(name) || completes_all(name) || name == "docker-rmi"@ || name
            == "docker-run"@ || name == "docker-pull"@,
        offered(before, after, name, completions),
    ensures
        forall|i: int| 0 <= i < completions.len() ==> {
            let c = #[trigger] completions[i];
            &&& c.label == c.new_text
            &&& is_clean_line(c.label)
            &&& c.run_command == !(name == "docker-run"@ || name == "docker-pull"@)
            &&& (completes_running(name) || completes_all(name) || is_tagged(c.label))
        },
{
    lemma_command_names_differ();
    if completes_running(name) {
        let names = choose|names: Seq<Seq<char>>|
            #[trigger] lists_names(before, after, running_names_query(), names) && completions
                == name_completions(names, true);
        let reply = choose|reply: Result<Seq<char>, Seq<char>>|
            #[trigger] before.can_step(running_names_query(), reply, after) && names == names_from(reply);
        law_listed_names_are_clean(reply);
    } else if completes_all(name) {
        let names = choose|names: Seq<Seq<char>>|
            #[trigger] lists_names(before, after, all_names_query(), names) && completions
                == name_completions(names, true);
        let reply = choose|reply: Result<Seq<char>, Seq<char>>|
            #[trigger] before.can_step(all_names_query(), reply, after) && names == names_from(reply);
        law_listed_names_are_clean(reply);
    } else if name == "docker-rmi"@ {
        let names = choose|names: Seq<Seq<char>>|
            #[trigger] lists_images(before, after, names) && completions == name_completions(names, true);
        let reply = choose|reply: Result<Seq<char>, Seq<char>>|
            #[trigger] before.can_step(image_names_query(), reply, after) && names == tagged_names(
                names_from(reply),
            );
        law_listed_names_are_clean(reply);
    } else {
        let names = choose|names: Seq<Seq<char>>|
            #[trigger] lists_images(before, after, names) && completions == name_completions(names, false);
        let reply = choose|reply: Result<Seq<char>, Seq<char>>|
            #[trigger] before.can_step(image_names_query(), reply, after) && names == tagged_names(
                names_from(reply),
            );
        law_listed_names_are_clean(reply);
    }
}

/// Whether `completions` offer each of `names`, in order, as both label
/// and text, running the command at once or not as `run` says.
pub open spec fn offers_each(completions: Seq<CompletionView>, names: Seq<Seq<char>>, run: bool) -> bool {
    &&& completions.len() == names.len()
    &&& forall|i: int|
        0 <= i < names.len() ==> #[trigger] completions[i] == (CompletionView {
            label: names[i],
            new_text: names[i],
            run_command: run,
        })
}

/// The completions for each command come from the Docker query that suits
/// it: running containers for `docker-stop`, `docker-logs`, `docker-exec`,
/// `docker-inspect` and `docker-stats`; all containers, stopped ones too,
/// for `docker-start` and `docker-rm`; tagged images for `docker-rmi`
/// (run at once) and for `docker-run` and `docker-pull` (inserted only).
/// The other commands offer fixed flags, or nothing, and ask Docker
/// nothing.
pub proof fn law_completion_sources<E: DockerExecutor>(
    before: E,
    after: E,
    name: Seq<char>,
    completions: Seq<CompletionView>,
)
    requires
        offered(before, after, name, completions),
    ensures
        name == "docker-stop"@ || name == "docker-logs"@ || name == "docker-exec"@ || name
            == "docker-inspect"@ || name == "docker-stats"@ ==> exists|reply: Result<
            Seq<char>,
            Seq<char>,
        >|
            #![trigger names_from(reply)]
            before.can_step(seq!["ps"@, "--format"@, "{{.Names}}"@], reply, after)
                && offers_each(completions, names_from(reply), true),
        name == "docker-start"@ || name == "docker-rm"@ ==> exists|reply: Result<
            Seq<char>,
            Seq<char>,
        >|
            #![trigger names_from(reply)]
            before.can_step(seq!["ps"@, "-a"@, "--format"@, "{{.Names}}"@], reply, after)
                && offers_each(completions, names_from(reply), true),
        name == "docker-rmi"@ ==> exists|reply: Result<Seq<char>, Seq<char>>|
            #![trigger names_from(reply)]
            before.can_step(
                seq!["images"@, "--format"@, "{{.Repository}}:{{.Tag}}"@],
                reply,
                after,
            ) && offers_each(completions, tagged_names(names_from(reply)), true),
        name == "docker-run"@ || name == "docker-pull"@ ==> exists|reply: Result<
            Seq<char>,
            Seq<char>,
        >|
            #![trigger names_from(reply)]
            before.can_step(
                seq!["images"@, "--format"@, "{{.Repository}}:{{.Tag}}"@],
                reply,
                after,
            ) && offers_each(completions, tagged_names(names_from(reply)), false),
        name == "docker-ps"@ ==> after == before && completions == seq![
            CompletionView { label: "all"@, new_text: "all"@, run_command: true },
        ],
        name == "docker-compose-up"@ ==> after == before && completions == seq![
            CompletionView { label: "Detached mode (-d)"@, new_text: "-d"@, run_command: true },
            CompletionView {
                label: "Build before starting (--build)"@,
                new_text: "--build"@,
                run_command: true,
            },
        ],
        name == "docker-build"@ ==> after == before && completions == seq![
            CompletionView {
                label: "Build current directory"@,
                new_text: "-t my-image ."@,
                run_command: false,
            },
        ],
        !(name == "docker-stop"@ || name == "docker-logs"@ || name == "docker-exec"@ || name
            == "docker-inspect"@ || name == "docker-stats"@ || name == "docker-start"@ || name
            == "docker-rm"@ || name == "docker-rmi"@ || name == "docker-run"@ || name
            == "docker-pull"@ || name == "docker-ps"@ || name == "docker-compose-up"@ || name
            == "docker-build"@) ==> after == before && completions.len() == 0,
{
    lemma_command_names_differ();
    if completes_running(name) {
        let names = choose|names: Seq<Seq<char>>|
            #[trigger] lists_names(before, after, running_names_query(), names) && completions
                == name_completions(names, true);
        let reply = choose|reply: Result<Seq<char>, Seq<char>>|
            #[trigger] before.can_step(running_names_query(), reply, after) && names == names_from(
                reply,
            );
        assert(offers_each(completions, names_from(reply), true));
    } else if completes_all(name) {
        let names = choose|names: Seq<Seq<char>>|
            #[trigger] lists_names(before, after, all_names_query(), names) && completions
                == name_completions(names, true);
        let reply = choose|reply: Result<Seq<char>, Seq<char>>|
            #[trigger] before.can_step(all_names_query(), reply, after) && names == names_from(reply);
        assert(offers_each(completions, names_from(reply), true));
    } else if name == "docker-rmi"@ {
        let names = choose|names: Seq<Seq<char>>|
            #[trigger] lists_images(before, after, names) && completions == name_completions(
                names,
                true,
            );
        let reply = choose|reply: Result<Seq<char>, Seq<char>>|
            #[trigger] before.can_step(image_names_query(), reply, after) && names == tagged_names(
                names_from(reply),
            );
        assert(offers_each(completions, tagged_names(names_from(reply)), true));
    } else if name == "docker-run"@ || name == "docker-pull"@ {
        let names = choose|names: Seq<Seq<char>>|
            #[trigger] lists_images(before, after, names) && completions == name_completions(
                names,
                false,
            );
        let reply = choose|reply: Result<Seq<char>, Seq<char>>|
            #[trigger] before.can_step(image_names_query(), reply, after) && names == tagged_names(
                names_from(reply),
            );
        assert(offers_each(completions, tagged_names(names_from(reply)), false));
    }
}

} // verus!
