use webpage_hit_counter::tasks::{
    commit_and_push_steps, completion_sub_commands, doc_dir_name, print_examples_cmd,
    release_archive_name, release_name, release_outcome, task_from_arg, CommitStep, ReleaseOutcome,
    ReleaseReply, ReleaseStep, TaskKind, doc_index_redirect, github_new_release_steps, panic_location_line, panic_report_shows_location, text_contains,
};

fn arg(text: &str) -> Option<String> {
    Some(text.to_string())
}

#[test]
fn no_task_prints_help() {
    assert_eq!(task_from_arg(&None), TaskKind::Help);
}

#[test]
fn task_names_select_tasks() {
    assert_eq!(task_from_arg(&arg("completion")), TaskKind::Completion);
    assert_eq!(task_from_arg(&arg("build")), TaskKind::Build);
    assert_eq!(task_from_arg(&arg("release")), TaskKind::Release);
    assert_eq!(task_from_arg(&arg("doc")), TaskKind::Doc);
    assert_eq!(task_from_arg(&arg("test")), TaskKind::Test);
    assert_eq!(task_from_arg(&arg("commit_and_push")), TaskKind::CommitAndPush);
    assert_eq!(task_from_arg(&arg("publish_to_web")), TaskKind::PublishToWeb);
    assert_eq!(task_from_arg(&arg("github_new_release")), TaskKind::GithubNewRelease);
}

#[test]
fn unknown_task_names() {
    assert_eq!(task_from_arg(&arg("deploy")), TaskKind::Unknown);
    assert_eq!(task_from_arg(&arg("Build")), TaskKind::Unknown);
    assert_eq!(task_from_arg(&arg("")), TaskKind::Unknown);
}

#[test]
fn completion_after_auto() {
    let expected = vec![
        "build",
        "release",
        "doc",
        "test",
        "commit_and_push",
        "publish_to_web",
        "github_new_release",
    ];
    assert_eq!(completion_sub_commands(&"auto".to_string()).unwrap(), expected);
    assert_eq!(completion_sub_commands(&"cargo-auto".to_string()).unwrap(), expected);
    assert_eq!(completion_sub_commands(&"build".to_string()), None);
}

#[test]
fn offered_sub_commands_are_tasks() {
    for name in completion_sub_commands(&"auto".to_string()).unwrap() {
        let task = task_from_arg(&Some(name));
        assert_ne!(task, TaskKind::Unknown);
        assert_ne!(task, TaskKind::Completion);
        assert_ne!(task, TaskKind::Help);
    }
}

#[test]
fn examples_cmd_prints_nothing() {
    print_examples_cmd();
}

#[test]
fn release_names() {
    assert_eq!(release_name("2024.1.2", "2024-01-02"), "Version 2024.1.2 (2024-01-02)");
    assert_eq!(
        release_archive_name("webpage_hit_counter", "v2024.1.2"),
        "webpage_hit_counter-v2024.1.2-x86_64-unknown-linux-gnu.tar.gz"
    );
}

#[test]
fn doc_dir_replaces_hyphens() {
    assert_eq!(doc_dir_name("webpage-hit-counter"), "webpage_hit_counter");
    assert_eq!(doc_dir_name("plain"), "plain");
    assert_eq!(doc_dir_name("-"), "_");
    assert_eq!(doc_dir_name(""), "");
}

#[test]
fn refused_release() {
    let reply = ReleaseReply {
        message: Some("Validation Failed".to_string()),
        error_codes: vec!["\"already_exists\"".to_string()],
        id: Some(5),
    };
    match release_outcome(reply) {
        ReleaseOutcome::Refused { message, error_codes } => {
            assert_eq!(message, "Validation Failed");
            assert_eq!(error_codes, vec!["\"already_exists\"".to_string()]);
        }
        ReleaseOutcome::Created { .. } => panic!("a message is a refusal"),
    }
}

#[test]
fn created_release() {
    let reply = ReleaseReply { message: None, error_codes: vec![], id: Some(123456789012) };
    match release_outcome(reply) {
        ReleaseOutcome::Created { release_id } => assert_eq!(release_id, "123456789012"),
        ReleaseOutcome::Refused { .. } => panic!("no message means created"),
    }
}

#[test]
fn commit_needs_message() {
    assert_eq!(
        commit_and_push_steps(false, true, true, true, true),
        vec![CommitStep::ReportMissingMessage]
    );
}

#[test]
fn first_commit_creates_repositories() {
    assert_eq!(
        commit_and_push_steps(true, false, false, false, false),
        vec![CommitStep::CreateLocalRepository, CommitStep::CreateRemoteRepository]
    );
    assert_eq!(
        commit_and_push_steps(true, true, true, false, true),
        vec![CommitStep::CreateRemoteRepository]
    );
}

#[test]
fn ordinary_commit_and_push() {
    assert_eq!(
        commit_and_push_steps(true, true, true, true, true),
        vec![
            CommitStep::UpdateDescriptionAndTopics,
            CommitStep::CommitDocs,
            CommitStep::AddMessageToUnreleased,
            CommitStep::CommitAll,
            CommitStep::Push,
        ]
    );
    assert_eq!(
        commit_and_push_steps(true, true, true, true, false),
        vec![
            CommitStep::UpdateDescriptionAndTopics,
            CommitStep::AddMessageToUnreleased,
            CommitStep::CommitAll,
            CommitStep::Push,
        ]
    );
}

#[test]
fn deliberate_exit_hides_location() {
    assert!(!panic_report_shows_location("Exiting..."));
    assert!(!panic_report_shows_location("Done. Exiting... bye"));
    assert!(panic_report_shows_location("called `Option::unwrap()` on a `None` value"));
    assert!(panic_report_shows_location("Exiting.."));
    assert!(panic_report_shows_location(""));
}

#[test]
fn text_search() {
    assert!(text_contains("abcabd", "abd"));
    assert!(!text_contains("abcab", "abd"));
    assert!(text_contains("anything", ""));
    assert!(!text_contains("ab", "abc"));
    assert!(text_contains("héllo wörld", "ö"));
}

#[test]
fn location_line() {
    assert_eq!(panic_location_line("src/main.rs", 42, 7), "Location: src/main.rs:42:7");
    assert_eq!(panic_location_line("a.rs", 0, 4294967295), "Location: a.rs:0:4294967295");
}

#[test]
fn doc_index_redirects_to_crate_docs() {
    assert_eq!(
        doc_index_redirect("webpage-hit-counter"),
        "<meta http-equiv=\"refresh\" content=\"0; url=webpage_hit_counter/index.html\" />\n"
    );
}

#[test]
fn refused_release_steps() {
    let outcome = ReleaseOutcome::Refused { message: "no".to_string(), error_codes: vec![] };
    assert_eq!(
        github_new_release_steps(&outcome),
        vec![ReleaseStep::SyncVersionTag, ReleaseStep::RequestRelease, ReleaseStep::ReportRefusal]
    );
}

#[test]
fn created_release_steps() {
    let outcome = ReleaseOutcome::Created { release_id: "7".to_string() };
    assert_eq!(
        github_new_release_steps(&outcome),
        vec![
            ReleaseStep::SyncVersionTag,
            ReleaseStep::RequestRelease,
            ReleaseStep::AddVersionTitle,
            ReleaseStep::PackArchive,
            ReleaseStep::UploadArchive,
            ReleaseStep::RemoveArchive,
        ]
    );
}
