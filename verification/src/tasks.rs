//! The decisions of the automation tasks that build, document, commit and
//! release the project: which task a command line asks for, what shell
//! completion offers, the steps of a commit, the names the release tasks give
//! to what they make, and how a stop is reported.
use vstd::prelude::*;

use crate::decimal::{
    decimal_value, i64_to_decimal, signed_decimal_value, int_decimal, lemma_nat_decimal_value, nat_decimal, push_chars,
    u64_decimal_chars,
};
use crate::text::push_char;

verus! {

/// A task of the automation tool.
#[derive(Clone, Copy, Debug, PartialEq, Eq)]
pub enum TaskKind {
    /// No task named: print the help.
    Help,
    /// Answer a shell-completion request.
    Completion,
    /// `build`: format and build in debug mode.
    Build,
    /// `release`: format and build in release mode.
    Release,
    /// `doc`: build the documentation.
    Doc,
    /// `test`: run the tests.
    Test,
    /// `commit_and_push`: commit with a message and push.
    CommitAndPush,
    /// `publish_to_web`: upload the release to the web server.
    PublishToWeb,
    /// `github_new_release`: create a release on GitHub.
    GithubNewRelease,
    /// A name that is no task: report it and print the help.
    Unknown,
}

/// The task that a task name on the command line stands for.
pub open spec fn task_kind_of(name: Seq<char>) -> TaskKind {
    if name == "completion"@ {
        TaskKind::Completion
    } else if name == "build"@ {
        TaskKind::Build
    } else if name == "release"@ {
        TaskKind::Release
    } else if name == "doc"@ {
        TaskKind::Doc
    } else if name == "test"@ {
        TaskKind::Test
    } else if name == "commit_and_push"@ {
        TaskKind::CommitAndPush
    } else if name == "publish_to_web"@ {
        TaskKind::PublishToWeb
    } else if name == "github_new_release"@ {
        TaskKind::GithubNewRelease
    } else {
        TaskKind::Unknown
    }
}

/// Whether `a` holds exactly the text `b`.
fn same_text(a: &String, b: &str) -> (same: bool)
    ensures
        same == (a@ == b@),
{
    *a == String::from_str(b)
}

/// The task that the first command-line argument after the program's name
/// asks for: the help when there is none.
pub fn task_from_arg(arg: &Option<String>) -> (task: TaskKind)
    ensures
        task == match arg {
            None => TaskKind::Help,
            Some(name) => task_kind_of(name@),
        },
{
    match arg {
        None => TaskKind::Help,
        Some(name) => {
            if same_text(name, "completion") {
                TaskKind::Completion
            } else if same_text(name, "build") {
                TaskKind::Build
            } else if same_text(name, "release") {
                TaskKind::Release
            } else if same_text(name, "doc") {
                TaskKind::Doc
            } else if same_text(name, "test") {
                TaskKind::Test
            } else if same_text(name, "commit_and_push") {
                TaskKind::CommitAndPush
            } else if same_text(name, "publish_to_web") {
                TaskKind::PublishToWeb
            } else if same_text(name, "github_new_release") {
                TaskKind::GithubNewRelease
            } else {
                TaskKind::Unknown
            }
        },
    }
}

/// The sub-commands that shell completion offers after `cargo auto`.
pub open spec fn sub_command_names() -> Seq<Seq<char>> {
    seq![
        "build"@,
        "release"@,
        "doc"@,
        "test"@,
        "commit_and_push"@,
        "publish_to_web"@,
        "github_new_release"@,
    ]
}

/// The tasks that those sub-commands run, in the same order.
pub open spec fn sub_command_tasks() -> Seq<TaskKind> {
    seq![
        TaskKind::Build,
        TaskKind::Release,
        TaskKind::Doc,
        TaskKind::Test,
        TaskKind::CommitAndPush,
        TaskKind::PublishToWeb,
        TaskKind::GithubNewRelease,
    ]
}

/// What shell completion offers when the word before the one being completed
/// is `last_word`: the sub-commands after `cargo-auto` or `auto`, nothing
/// otherwise.
pub fn completion_sub_commands(last_word: &String) -> (offered: Option<Vec<String>>)
    ensures
        offered is Some <==> (last_word@ == "cargo-auto"@ || last_word@ == "auto"@),
        offered matches Some(names) ==> names@.map_values(|n: String| n@) == sub_command_names(),
{
    if same_text(last_word, "cargo-auto") || same_text(last_word, "auto") {
        let mut names: Vec<String> = Vec::new();
        names.push(String::from_str("build"));
        names.push(String::from_str("release"));
        names.push(String::from_str("doc"));
        names.push(String::from_str("test"));
        names.push(String::from_str("commit_and_push"));
        names.push(String::from_str("publish_to_web"));
        names.push(String::from_str("github_new_release"));
        assert(names@.map_values(|n: String| n@) =~= sub_command_names());
        Some(names)
    } else {
        None
    }
}

/// Completion offers exactly the sub-commands that the tool runs as tasks:
/// each offered name, given back as a task name, selects its task.
pub proof fn completion_offers_known_tasks()
    ensures
        sub_command_names().len() == sub_command_tasks().len(),
        forall|i: int|
            0 <= i < sub_command_names().len() ==> task_kind_of(#[trigger] sub_command_names()[i])
                == sub_command_tasks()[i],
        forall|i: int|
            0 <= i < sub_command_tasks().len() ==> #[trigger] sub_command_tasks()[i]
                != TaskKind::Unknown,
{
    reveal_strlit("completion");
    reveal_strlit("build");
    reveal_strlit("release");
    reveal_strlit("doc");
    reveal_strlit("test");
    reveal_strlit("commit_and_push");
    reveal_strlit("publish_to_web");
    reveal_strlit("github_new_release");
    assert forall|i: int|
        0 <= i < sub_command_names().len() implies task_kind_of(#[trigger] sub_command_names()[i])
        == sub_command_tasks()[i] by {
        let names = sub_command_names();
        assert("completion"@.len() == 10);
        assert("build"@.len() == 5);
        assert("release"@.len() == 7);
        assert("doc"@.len() == 3);
        assert("test"@.len() == 4);
        assert("commit_and_push"@.len() == 15);
        assert("publish_to_web"@.len() == 14);
        assert("github_new_release"@.len() == 18);
        if i == 0 {
            assert(names[0] == "build"@);
        } else if i == 1 {
            assert(names[1] == "release"@);
        } else if i == 2 {
            assert(names[2] == "doc"@);
        } else if i == 3 {
            assert(names[3] == "test"@);
        } else if i == 4 {
            assert(names[4] == "commit_and_push"@);
        } else if i == 5 {
            assert(names[5] == "publish_to_web"@);
        } else {
            assert(names[6] == "github_new_release"@);
        }
    }
}

/// All example commands in one place; this project has none to show.
pub fn print_examples_cmd() {
}

/// A step of the commit-and-push task.
#[derive(Clone, Copy, Debug, PartialEq, Eq)]
pub enum CommitStep {
    /// Report that the commit message is missing, and stop.
    ReportMissingMessage,
    /// Create a local git repository, committing with the message.
    CreateLocalRepository,
    /// Create the GitHub repository, then publish its description and topics.
    CreateRemoteRepository,
    /// Publish the description and topics, in case they changed.
    UpdateDescriptionAndTopics,
    /// Commit the `docs` directory on its own, when it changed.
    CommitDocs,
    /// Add the message to the unreleased section of the release notes.
    AddMessageToUnreleased,
    /// Commit every change with the message.
    CommitAll,
    /// Push to GitHub.
    Push,
}

/// The steps of the commit-and-push task, given whether a commit message was
/// given, whether the project is already a git repository, whether (after
/// that) it has a GitHub remote and an upstream branch, and whether it has a
/// `docs` directory.
pub open spec fn commit_steps(
    has_message: bool,
    is_local_repository: bool,
    has_remote: bool,
    has_upstream: bool,
    has_docs: bool,
) -> Seq<CommitStep> {
    if !has_message {
        seq![CommitStep::ReportMissingMessage]
    } else {
        let local: Seq<CommitStep> = if is_local_repository {
            seq![]
        } else {
            seq![CommitStep::CreateLocalRepository]
        };
        if !has_remote || !has_upstream {
            local.push(CommitStep::CreateRemoteRepository)
        } else {
            let docs: Seq<CommitStep> = if has_docs {
                seq![CommitStep::CommitDocs]
            } else {
                seq![]
            };
            local.push(CommitStep::UpdateDescriptionAndTopics) + docs + seq![
                CommitStep::AddMessageToUnreleased,
                CommitStep::CommitAll,
                CommitStep::Push,
            ]
        }
    }
}

/// The steps that commit and push the project's changes; see `commit_steps`.
/// A new remote repository gets no commit of its own: the push waits for the
/// next run.
pub fn commit_and_push_steps(
    has_message: bool,
    is_local_repository: bool,
    has_remote: bool,
    has_upstream: bool,
    has_docs: bool,
) -> (steps: Vec<CommitStep>)
    ensures
        steps@ == commit_steps(has_message, is_local_repository, has_remote, has_upstream, has_docs),
        has_message ==> steps@.len() > 0,
        has_message && (!has_remote || !has_upstream) ==> steps@.last()
            == CommitStep::CreateRemoteRepository,
        has_message && !is_local_repository ==> steps@[0] == CommitStep::CreateLocalRepository,
        has_message && has_remote && has_upstream ==> steps@.last() == CommitStep::Push,
{
    proof {
        commit_steps_follow_repository_state(
            has_message,
            is_local_repository,
            has_remote,
            has_upstream,
            has_docs,
        );
    }
    let mut steps: Vec<CommitStep> = Vec::new();
    if !has_message {
        steps.push(CommitStep::ReportMissingMessage);
        return steps;
    }
    if !is_local_repository {
        steps.push(CommitStep::CreateLocalRepository);
    }
    if !has_remote || !has_upstream {
        steps.push(CommitStep::CreateRemoteRepository);
    } else {
        steps.push(CommitStep::UpdateDescriptionAndTopics);
        if has_docs {
            steps.push(CommitStep::CommitDocs);
        }
        steps.push(CommitStep::AddMessageToUnreleased);
        steps.push(CommitStep::CommitAll);
        steps.push(CommitStep::Push);
    }
    assert(steps@ =~= commit_steps(
        has_message,
        is_local_repository,
        has_remote,
        has_upstream,
        has_docs,
    ));
    steps
}

/// The commit message is mandatory, and the push comes last, right after the
/// commit of every change: whenever the steps push, a message was given, the
/// repository has its remote and upstream, and the step before is the commit.
pub proof fn push_only_after_commit(
    has_message: bool,
    is_local_repository: bool,
    has_remote: bool,
    has_upstream: bool,
    has_docs: bool,
)
    ensures
        ({
            let steps = commit_steps(has_message, is_local_repository, has_remote, has_upstream, has_docs);
            steps.contains(CommitStep::Push) ==> {
                &&& has_message && has_remote && has_upstream
                &&& steps.len() >= 2
                &&& steps.last() == CommitStep::Push
                &&& steps[steps.len() - 2] == CommitStep::CommitAll
            }
        }),
        !has_message ==> commit_steps(has_message, is_local_repository, has_remote, has_upstream, has_docs)
            == seq![CommitStep::ReportMissingMessage],
{
    let steps = commit_steps(has_message, is_local_repository, has_remote, has_upstream, has_docs);
    if steps.contains(CommitStep::Push) {
        let k = choose|k: int| 0 <= k < steps.len() && steps[k] == CommitStep::Push;
        if !has_message {
            assert(steps.len() == 1);
        } else if !has_remote || !has_upstream {
            if is_local_repository {
                assert(steps.len() == 1);
            } else {
                assert(steps.len() == 2);
            }
        }
    }
}

/// What the commit-and-push task does in each state of the repository: with
/// a message, it first creates a missing local repository; a project without
/// a GitHub remote or upstream gets its GitHub repository created as the last
/// step; one with both gets every change committed and pushed, after the docs
/// commit when there are docs; without a message it only reports that.
pub proof fn commit_steps_follow_repository_state(
    has_message: bool,
    is_local_repository: bool,
    has_remote: bool,
    has_upstream: bool,
    has_docs: bool,
)
    ensures
        ({
            let steps = commit_steps(has_message, is_local_repository, has_remote, has_upstream, has_docs);
            &&& has_message ==> steps.len() > 0
            &&& has_message && (!has_remote || !has_upstream) ==> steps.last()
                == CommitStep::CreateRemoteRepository
            &&& has_message && !is_local_repository ==> steps[0] == CommitStep::CreateLocalRepository
            &&& has_message && is_local_repository ==> !steps.contains(CommitStep::CreateLocalRepository)
            &&& has_message && has_remote && has_upstream ==> {
                &&& steps.last() == CommitStep::Push
                &&& steps.contains(CommitStep::UpdateDescriptionAndTopics)
                &&& steps.contains(CommitStep::AddMessageToUnreleased)
                &&& steps.contains(CommitStep::CommitAll)
                &&& (has_docs <==> steps.contains(CommitStep::CommitDocs))
                &&& !steps.contains(CommitStep::CreateRemoteRepository)
            }
            &&& !has_message ==> steps == seq![CommitStep::ReportMissingMessage]
        }),
{
    let steps = commit_steps(has_message, is_local_repository, has_remote, has_upstream, has_docs);
    if has_message {
        if is_local_repository {
            if !(has_remote && has_upstream) {
                assert(steps =~= seq![CommitStep::CreateRemoteRepository]);
            } else if has_docs {
                assert(steps =~= seq![
                    CommitStep::UpdateDescriptionAndTopics,
                    CommitStep::CommitDocs,
                    CommitStep::AddMessageToUnreleased,
                    CommitStep::CommitAll,
                    CommitStep::Push,
                ]);
                assert(steps[0] == CommitStep::UpdateDescriptionAndTopics);
                assert(steps[1] == CommitStep::CommitDocs);
                assert(steps[2] == CommitStep::AddMessageToUnreleased);
                assert(steps[3] == CommitStep::CommitAll);
            } else {
                assert(steps =~= seq![
                    CommitStep::UpdateDescriptionAndTopics,
                    CommitStep::AddMessageToUnreleased,
                    CommitStep::CommitAll,
                    CommitStep::Push,
                ]);
                assert(steps[0] == CommitStep::UpdateDescriptionAndTopics);
                assert(steps[1] == CommitStep::AddMessageToUnreleased);
                assert(steps[2] == CommitStep::CommitAll);
            }
        } else {
            if !(has_remote && has_upstream) {
                assert(steps =~= seq![
                    CommitStep::CreateLocalRepository,
                    CommitStep::CreateRemoteRepository,
                ]);
            } else if has_docs {
                assert(steps =~= seq![
                    CommitStep::CreateLocalRepository,
                    CommitStep::UpdateDescriptionAndTopics,
                    CommitStep::CommitDocs,
                    CommitStep::AddMessageToUnreleased,
                    CommitStep::CommitAll,
                    CommitStep::Push,
                ]);
                assert(steps[1] == CommitStep::UpdateDescriptionAndTopics);
                assert(steps[2] == CommitStep::CommitDocs);
                assert(steps[3] == CommitStep::AddMessageToUnreleased);
                assert(steps[4] == CommitStep::CommitAll);
            } else {
                assert(steps =~= seq![
                    CommitStep::CreateLocalRepository,
                    CommitStep::UpdateDescriptionAndTopics,
                    CommitStep::AddMessageToUnreleased,
                    CommitStep::CommitAll,
                    CommitStep::Push,
                ]);
                assert(steps[1] == CommitStep::UpdateDescriptionAndTopics);
                assert(steps[2] == CommitStep::AddMessageToUnreleased);
                assert(steps[3] == CommitStep::CommitAll);
            }
        }
    }
}

/// The name of a GitHub release: `Version <version> (<date>)`.
pub open spec fn release_name_text(version: Seq<char>, date: Seq<char>) -> Seq<char> {
    "Version "@ + version + " ("@ + date + ")"@
}

/// The release name is `Version `, the version as given, ` (`, the date as
/// given and `)`, for every version and date.
pub proof fn release_name_parts(version: Seq<char>, date: Seq<char>)
    ensures
        ({
            let name = release_name_text(version, date);
            let v = version.len() as int;
            let d = date.len() as int;
            &&& name.len() == 11 + v + d
            &&& name.subrange(0, 8) == "Version "@
            &&& name.subrange(8, 8 + v) == version
            &&& name.subrange(8 + v, 10 + v) == " ("@
            &&& name.subrange(10 + v, 10 + v + d) == date
            &&& name.last() == ')'
        }),
{
    reveal_strlit("Version ");
    reveal_strlit(" (");
    reveal_strlit(")");
    let name = release_name_text(version, date);
    let v = version.len() as int;
    assert(name.subrange(0, 8) =~= "Version "@);
    assert(name.subrange(8, 8 + v) =~= version);
    assert(name.subrange(8 + v, 10 + v) =~= " ("@);
    assert(name.subrange(10 + v, 10 + v + date.len()) =~= date);
}

/// The name of the release for `version`, created on `date`.
pub fn release_name(version: &str, date: &str) -> (name: String)
    ensures
        name@ == release_name_text(version@, date@),
        name@.subrange(0, 8) == "Version "@,
        name@.subrange(8, 8 + version@.len() as int) == version@,
        name@.subrange(8 + version@.len() as int, 10 + version@.len() as int) == " ("@,
        name@.subrange(10 + version@.len() as int, 10 + version@.len() + date@.len() as int)
            == date@,
        name@.len() == 11 + version@.len() + date@.len(),
        name@.last() == ')',
{
    proof {
        release_name_parts(version@, date@);
    }
    let mut name = String::from_str("Version ");
    name.append(version);
    name.append(" (");
    name.append(date);
    name.append(")");
    name
}

/// The archive uploaded with a release:
/// `<repository>-<tag>-x86_64-unknown-linux-gnu.tar.gz`.
pub open spec fn release_archive_name_text(repository: Seq<char>, tag: Seq<char>) -> Seq<char> {
    repository + "-"@ + tag + "-x86_64-unknown-linux-gnu.tar.gz"@
}

/// The archive name starts with the repository name exactly as given, then
/// `-`, the tag exactly as given, and the target's suffix, for every
/// repository name and tag.
pub proof fn release_archive_name_parts(repository: Seq<char>, tag: Seq<char>)
    ensures
        ({
            let name = release_archive_name_text(repository, tag);
            let r = repository.len() as int;
            let g = tag.len() as int;
            &&& name.len() == r + 1 + g + "-x86_64-unknown-linux-gnu.tar.gz"@.len()
            &&& name.subrange(0, r) == repository
            &&& name[r] == '-'
            &&& name.subrange(r + 1, r + 1 + g) == tag
            &&& name.subrange(r + 1 + g, name.len() as int) == "-x86_64-unknown-linux-gnu.tar.gz"@
        }),
{
    reveal_strlit("-");
    let name = release_archive_name_text(repository, tag);
    let r = repository.len() as int;
    assert(name.subrange(0, r) =~= repository);
    assert(name.subrange(r + 1, r + 1 + tag.len()) =~= tag);
    assert(name.subrange(r + 1 + tag.len(), name.len() as int)
        =~= "-x86_64-unknown-linux-gnu.tar.gz"@);
}

/// The name of the archive of the executable for the release tagged `tag`.
pub fn release_archive_name(repository: &str, tag: &str) -> (name: String)
    ensures
        name@ == release_archive_name_text(repository@, tag@),
        name@.subrange(0, repository@.len() as int) == repository@,
        name@[repository@.len() as int] == '-',
        name@.subrange(repository@.len() + 1 as int, repository@.len() + 1 + tag@.len() as int)
            == tag@,
        name@.subrange(repository@.len() + 1 + tag@.len() as int, name@.len() as int)
            == "-x86_64-unknown-linux-gnu.tar.gz"@,
{
    proof {
        release_archive_name_parts(repository@, tag@);
    }
    let mut name = String::from_str(repository);
    name.append("-");
    name.append(tag);
    name.append("-x86_64-unknown-linux-gnu.tar.gz");
    name
}

/// A package name with each `-` turned into `_`, as rustdoc names the
/// directory of a crate's documentation.
pub open spec fn doc_dir_text(package: Seq<char>) -> Seq<char> {
    package.map_values(|c: char| if c == '-' { '_' } else { c })
}

/// The documentation directory has the package name's length and, at each
/// place, `_` where the package name has `-` and the package name's own
/// character everywhere else; so it never holds a `-`.
pub proof fn doc_dir_replaces_hyphens(package: Seq<char>)
    ensures
        doc_dir_text(package).len() == package.len(),
        forall|i: int|
            0 <= i < package.len() ==> #[trigger] doc_dir_text(package)[i] == (if package[i]
                == '-' {
                '_'
            } else {
                package[i]
            }),
        !doc_dir_text(package).contains('-'),
{
    assert forall|i: int| 0 <= i < doc_dir_text(package).len() implies #[trigger] doc_dir_text(
        package,
    )[i] != '-' by {
    }
}

/// The directory under `docs/` that holds the documentation of `package`.
pub fn doc_dir_name(package: &str) -> (dir: String)
    ensures
        dir@ == doc_dir_text(package@),
        dir@.len() == package@.len(),
        forall|i: int|
            0 <= i < package@.len() ==> #[trigger] dir@[i] == (if package@[i] == '-' {
                '_'
            } else {
                package@[i]
            }),
{
    proof {
        doc_dir_replaces_hyphens(package@);
    }
    let n = package.unicode_len();
    let mut dir = String::new();
    let mut i: usize = 0;
    while i < n
        invariant
            n == package@.len(),
            i <= n,
            dir@ == doc_dir_text(package@.subrange(0, i as int)),
        decreases n - i,
    {
        let c = package.get_char(i);
        if c == '-' {
            push_char(&mut dir, '_');
        } else {
            push_char(&mut dir, c);
        }
        assert(package@.subrange(0, i + 1) =~= package@.subrange(0, i as int).push(c));
        assert(doc_dir_text(package@.subrange(0, i + 1)) =~= doc_dir_text(
            package@.subrange(0, i as int),
        ).push(if c == '-' { '_' } else { c }));
        i = i + 1;
    }
    assert(package@.subrange(0, n as int) =~= package@);
    dir
}

/// The line that `docs/index.html` holds: a redirect to the documentation
/// of `package`, `<meta http-equiv="refresh" content="0; url=<dir>/index.html" />`
/// and a line break, where `<dir>` is the package name with `_` for `-`.
pub open spec fn doc_index_text(package: Seq<char>) -> Seq<char> {
    "<meta http-equiv=\"refresh\" content=\"0; url="@ + doc_dir_text(package)
        + "/index.html\" />\n"@
}

/// The redirect page is the fixed opening, the documentation directory of
/// the package (its name with `_` for `-`), and the fixed closing, for every
/// package name.
pub proof fn doc_index_parts(package: Seq<char>)
    ensures
        ({
            let page = doc_index_text(package);
            let p = "<meta http-equiv=\"refresh\" content=\"0; url="@.len() as int;
            let n = package.len() as int;
            &&& page.len() == p + n + "/index.html\" />\n"@.len()
            &&& page.subrange(0, p) == "<meta http-equiv=\"refresh\" content=\"0; url="@
            &&& page.subrange(p, p + n) == doc_dir_text(package)
            &&& page.subrange(p + n, page.len() as int) == "/index.html\" />\n"@
        }),
{
    let page = doc_index_text(package);
    let p = "<meta http-equiv=\"refresh\" content=\"0; url="@.len() as int;
    let n = package.len() as int;
    doc_dir_replaces_hyphens(package);
    assert(page.subrange(0, p) =~= "<meta http-equiv=\"refresh\" content=\"0; url="@);
    assert(page.subrange(p, p + n) =~= doc_dir_text(package));
    assert(page.subrange(p + n, page.len() as int) =~= "/index.html\" />\n"@);
}

/// The content of `docs/index.html`, which sends a browser on to the
/// documentation of `package`.
pub fn doc_index_redirect(package: &str) -> (page: String)
    ensures
        page@ == doc_index_text(package@),
        ({
            let p = "<meta http-equiv=\"refresh\" content=\"0; url="@.len() as int;
            let n = package@.len() as int;
            &&& page@.len() == p + n + "/index.html\" />\n"@.len()
            &&& page@.subrange(0, p) == "<meta http-equiv=\"refresh\" content=\"0; url="@
            &&& page@.subrange(p, p + n) == doc_dir_text(package@)
            &&& page@.subrange(p + n, page@.len() as int) == "/index.html\" />\n"@
        }),
{
    proof {
        doc_index_parts(package@);
    }
    let dir = doc_dir_name(package);
    let mut page = String::from_str("<meta http-equiv=\"refresh\" content=\"0; url=");
    page.append(dir.as_str());
    page.append("/index.html\" />\n");
    page
}

/// A step of the task that creates a GitHub release.
#[derive(Clone, Copy, Debug, PartialEq, Eq)]
pub enum ReleaseStep {
    /// Create the version's git tag, if needed, and push it.
    SyncVersionTag,
    /// Ask GitHub to create the release, with the unreleased notes as body.
    RequestRelease,
    /// Report the message and error codes of GitHub's refusal, and stop.
    ReportRefusal,
    /// Start a new version title in the release notes.
    AddVersionTitle,
    /// Pack the executable into the release archive.
    PackArchive,
    /// Upload the archive to the release.
    UploadArchive,
    /// Remove the local archive.
    RemoveArchive,
}

/// The steps of the release task, given whether GitHub refused the request.
/// A refused release stops after the report: it adds no version title to the
/// release notes and packs and uploads no archive.
pub open spec fn release_steps(refused: bool) -> Seq<ReleaseStep> {
    if refused {
        seq![ReleaseStep::SyncVersionTag, ReleaseStep::RequestRelease, ReleaseStep::ReportRefusal]
    } else {
        seq![
            ReleaseStep::SyncVersionTag,
            ReleaseStep::RequestRelease,
            ReleaseStep::AddVersionTitle,
            ReleaseStep::PackArchive,
            ReleaseStep::UploadArchive,
            ReleaseStep::RemoveArchive,
        ]
    }
}

/// Whether an outcome is GitHub's refusal.
pub open spec fn is_refusal(outcome: ReleaseOutcome) -> bool {
    outcome is Refused
}

/// The steps of the release task once GitHub's answer is known; see
/// `release_steps`.
pub fn github_new_release_steps(outcome: &ReleaseOutcome) -> (steps: Vec<ReleaseStep>)
    ensures
        steps@ == release_steps(is_refusal(*outcome)),
{
    let mut steps: Vec<ReleaseStep> = Vec::new();
    steps.push(ReleaseStep::SyncVersionTag);
    steps.push(ReleaseStep::RequestRelease);
    match outcome {
        ReleaseOutcome::Refused { .. } => {
            steps.push(ReleaseStep::ReportRefusal);
        },
        ReleaseOutcome::Created { .. } => {
            steps.push(ReleaseStep::AddVersionTitle);
            steps.push(ReleaseStep::PackArchive);
            steps.push(ReleaseStep::UploadArchive);
            steps.push(ReleaseStep::RemoveArchive);
        },
    }
    assert(steps@ =~= release_steps(is_refusal(*outcome)));
    steps
}

/// A refused release changes nothing after the request: no version title, no
/// archive, no upload. A created one uploads its archive only after packing
/// it, and removes it only after the upload.
pub proof fn refused_release_stops(refused: bool)
    ensures
        refused ==> !release_steps(refused).contains(ReleaseStep::AddVersionTitle)
            && !release_steps(refused).contains(ReleaseStep::PackArchive)
            && !release_steps(refused).contains(ReleaseStep::UploadArchive)
            && release_steps(refused).last() == ReleaseStep::ReportRefusal,
        !refused ==> !release_steps(refused).contains(ReleaseStep::ReportRefusal),
        forall|i: int, j: int|
            0 <= i < release_steps(refused).len() && 0 <= j < release_steps(refused).len()
                && #[trigger] release_steps(refused)[i] == ReleaseStep::PackArchive
                && #[trigger] release_steps(refused)[j] == ReleaseStep::UploadArchive ==> i < j,
        forall|i: int, j: int|
            0 <= i < release_steps(refused).len() && 0 <= j < release_steps(refused).len()
                && #[trigger] release_steps(refused)[i] == ReleaseStep::UploadArchive
                && #[trigger] release_steps(refused)[j] == ReleaseStep::RemoveArchive ==> i < j,
{
    let steps = release_steps(refused);
    if refused {
        assert(steps.len() == 3);
        assert(!steps.contains(ReleaseStep::AddVersionTitle));
        assert(!steps.contains(ReleaseStep::PackArchive));
        assert(!steps.contains(ReleaseStep::UploadArchive));
    } else {
        assert(!steps.contains(ReleaseStep::ReportRefusal));
        assert(steps[3] == ReleaseStep::PackArchive);
        assert(steps[4] == ReleaseStep::UploadArchive);
        assert(steps[5] == ReleaseStep::RemoveArchive);
    }
}

/// What GitHub answered to the request that creates a release: the
/// `message` field when it refused, the `code` of each entry of `errors`,
/// and the `id` of the created release.
pub struct ReleaseReply {
    /// The error message, when GitHub refused the request.
    pub message: Option<String>,
    /// The codes of the errors GitHub listed, as text.
    pub error_codes: Vec<String>,
    /// The id of the new release.
    pub id: Option<i64>,
}

/// What the release task does with GitHub's answer.
pub enum ReleaseOutcome {
    /// GitHub refused: report the message and the codes, and stop.
    Refused { message: String, error_codes: Vec<String> },
    /// The release exists: upload the archive to the release with this id.
    Created { release_id: String },
}

/// The outcome of a release request, from GitHub's answer. An answer with a
/// message is a refusal, whatever else it holds; any other answer carries the
/// id of the release, written in decimal for the upload.
pub fn release_outcome(reply: ReleaseReply) -> (outcome: ReleaseOutcome)
    requires
        reply.message is Some || reply.id is Some,
    ensures
        reply.message matches Some(m) ==> (outcome matches ReleaseOutcome::Refused {
            message,
            error_codes,
        } && message == m && error_codes@ == reply.error_codes@),
        reply.message is None ==> (outcome matches ReleaseOutcome::Created { release_id }
            && release_id@ == int_decimal(reply.id->0 as int)
            && signed_decimal_value(release_id@) == reply.id->0),
{
    match reply.message {
        Some(message) => ReleaseOutcome::Refused { message, error_codes: reply.error_codes },
        None => {
            let id = match reply.id {
                Some(id) => id,
                None => 0,
            };
            ReleaseOutcome::Created { release_id: i64_to_decimal(id) }
        },
    }
}

/// Whether `needle` occurs in `text` starting at index `i`.
pub open spec fn occurs_at(text: Seq<char>, needle: Seq<char>, i: int) -> bool {
    0 <= i && i + needle.len() <= text.len() && text.subrange(i, i + needle.len()) == needle
}

/// Whether `needle` occurs somewhere in `text`.
pub open spec fn contains_text(text: Seq<char>, needle: Seq<char>) -> bool {
    exists|i: int| occurs_at(text, needle, i)
}

/// Whether `needle` occurs at index `i` of `text`.
fn matches_at(text: &str, needle: &str, i: usize) -> (found: bool)
    requires
        i + needle@.len() <= text@.len(),
    ensures
        found == occurs_at(text@, needle@, i as int),
{
    let n = text.unicode_len();
    let m = needle.unicode_len();
    let mut j: usize = 0;
    while j < m
        invariant
            n == text@.len(),
            m == needle@.len(),
            i + m <= text@.len(),
            j <= m,
            forall|l: int| 0 <= l < j ==> text@[i + l] == needle@[l],
        decreases m - j,
    {
        if text.get_char(i + j) != needle.get_char(j) {
            assert(text@.subrange(i as int, i + m)[j as int] != needle@[j as int]);
            return false;
        }
        j = j + 1;
    }
    assert(text@.subrange(i as int, i + m) =~= needle@);
    true
}

/// Whether `needle` occurs somewhere in `text`.
pub fn text_contains(text: &str, needle: &str) -> (found: bool)
    ensures
        found == contains_text(text@, needle@),
{
    let n = text.unicode_len();
    let m = needle.unicode_len();
    if m > n {
        assert forall|k: int| !occurs_at(text@, needle@, k) by {}
        return false;
    }
    if m == 0 {
        assert(text@.subrange(0, 0) =~= needle@);
        assert(occurs_at(text@, needle@, 0));
        return true;
    }
    let mut i: usize = 0;
    while i < n - m + 1
        invariant
            n == text@.len(),
            m == needle@.len(),
            1 <= m <= n,
            i <= n - m + 1,
            forall|k: int| 0 <= k < i ==> !occurs_at(text@, needle@, k),
        decreases n - m + 1 - i,
    {
        if matches_at(text, needle, i) {
            return true;
        }
        i = i + 1;
    }
    assert forall|k: int| !occurs_at(text@, needle@, k) by {
        if 0 <= k < i {
        }
    }
    false
}

/// A panic whose message says `Exiting...` is a deliberate stop, not an
/// error; only the report of an error shows where the panic happened.
pub fn panic_report_shows_location(message: &str) -> (shows: bool)
    ensures
        shows == !contains_text(message@, "Exiting..."@),
{
    !text_contains(message, "Exiting...")
}

/// The line that reports where a panic happened: `Location: file:line:column`.
pub open spec fn location_line_text(file: Seq<char>, line: u32, column: u32) -> Seq<char> {
    "Location: "@ + file + ":"@ + nat_decimal(line as nat) + ":"@ + nat_decimal(column as nat)
}

/// The location line is `Location: `, the file as given, `:`, a numeral that
/// reads as the line, `:` and a numeral that reads as the column, for every
/// file, line and column.
pub proof fn location_line_parts(file: Seq<char>, line: u32, column: u32)
    ensures
        ({
            let report = location_line_text(file, line, column);
            let f = file.len() as int;
            let k = nat_decimal(line as nat).len() as int;
            &&& report.subrange(0, 10) == "Location: "@
            &&& report.subrange(10, 10 + f) == file
            &&& report[10 + f] == ':'
            &&& decimal_value(report.subrange(11 + f, 11 + f + k)) == line
            &&& report[11 + f + k] == ':'
            &&& decimal_value(report.subrange(12 + f + k, report.len() as int)) == column
        }),
{
    reveal_strlit("Location: ");
    reveal_strlit(":");
    let report = location_line_text(file, line, column);
    let f = file.len() as int;
    let k = nat_decimal(line as nat).len() as int;
    lemma_nat_decimal_value(line as nat);
    lemma_nat_decimal_value(column as nat);
    assert(report.subrange(0, 10) =~= "Location: "@);
    assert(report.subrange(10, 10 + f) =~= file);
    assert(report.subrange(11 + f, 11 + f + k) =~= nat_decimal(line as nat));
    assert(report.subrange(12 + f + k, report.len() as int) =~= nat_decimal(column as nat));
}

/// The line that reports the place of a panic.
pub fn panic_location_line(file: &str, line: u32, column: u32) -> (report: String)
    ensures
        report@ == location_line_text(file@, line, column),
        ({
            let f = file@.len() as int;
            let k = nat_decimal(line as nat).len() as int;
            &&& report@.subrange(0, 10) == "Location: "@
            &&& report@.subrange(10, 10 + f) == file@
            &&& report@[10 + f] == ':'
            &&& decimal_value(report@.subrange(11 + f, 11 + f + k)) == line
            &&& report@[11 + f + k] == ':'
            &&& decimal_value(report@.subrange(12 + f + k, report@.len() as int)) == column
        }),
{
    proof {
        location_line_parts(file@, line, column);
    }
    let mut report = String::from_str("Location: ");
    report.append(file);
    report.append(":");
    push_chars(&mut report, &u64_decimal_chars(line as u64));
    report.append(":");
    push_chars(&mut report, &u64_decimal_chars(column as u64));
    report
}

} // verus!
