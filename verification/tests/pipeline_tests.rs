use semantic_release::pipeline::{Action, ErrorKind, Event, Pipeline, State, StepKind};
use semantic_release::version::Version;

fn v(major: u64, minor: u64, patch: u64) -> Version {
    Version { major, minor, patch }
}

fn msgs(list: &[&str]) -> Option<Vec<Vec<u8>>> {
    Some(list.iter().map(|m| m.as_bytes().to_vec()).collect())
}

/// Drives a fresh run through repository, identity and version resolution.
fn run_to_analysis(write_requested: bool, ci: bool, version: &str) -> Pipeline {
    let mut p = Pipeline::new(".".to_string(), write_requested, ci);
    assert_eq!(p.start(), Action::OpenRepo);
    assert_eq!(
        p.step(Event::RepoOpened { ok: true }),
        Action::ResolveSignature
    );
    assert_eq!(
        p.step(Event::SignatureResolved { ok: true }),
        Action::ReadVersion
    );
    assert_eq!(
        p.step(Event::VersionRead { text: Some(version.to_string()) }),
        Action::FetchCommits
    );
    assert_eq!(p.state, State::Analyzing);
    p
}

#[test]
fn version_text_is_really_parsed() {
    let p = run_to_analysis(false, false, "1.2.3");
    assert_eq!(p.config.current_version, v(1, 2, 3));
    let p = run_to_analysis(false, false, "10.0.7");
    assert_eq!(p.config.current_version, v(10, 0, 7));
}

#[test]
fn unparsable_version_is_fatal() {
    let mut p = Pipeline::new(".".to_string(), false, false);
    p.start();
    p.step(Event::RepoOpened { ok: true });
    p.step(Event::SignatureResolved { ok: true });
    let a = p.step(Event::VersionRead { text: Some("not a version".to_string()) });
    assert_eq!(a, Action::ReportFailure { cause: ErrorKind::ParseVersion });
    assert_eq!(p.state, State::Failed { cause: ErrorKind::ParseVersion });
}

#[test]
fn version_with_no_room_to_increment_is_fatal() {
    let mut p = Pipeline::new(".".to_string(), true, false);
    p.start();
    p.step(Event::RepoOpened { ok: true });
    p.step(Event::SignatureResolved { ok: true });
    let a = p.step(Event::VersionRead {
        text: Some("18446744073709551615.2.3".to_string()),
    });
    assert_eq!(a, Action::ReportFailure { cause: ErrorKind::ParseVersion });
}

#[test]
fn chore_only_range_is_a_no_op() {
    let mut p = run_to_analysis(true, false, "1.2.3");
    let a = p.step(Event::CommitsFetched { messages: msgs(&["chore: tidy"]) });
    assert_eq!(a, Action::ReportNoOp);
    assert_eq!(p.state, State::NoOp);
    assert_eq!(p.config.current_version, v(1, 2, 3));
    assert_eq!(p.config.new_version, v(0, 0, 0));
}

#[test]
fn dry_run_previews_without_releasing() {
    let mut p = run_to_analysis(false, false, "1.2.3");
    assert!(p.dry_run);
    let a = p.step(Event::CommitsFetched { messages: msgs(&["fix: a", "feat: b"]) });
    assert_eq!(a, Action::RenderPreview);
    assert_eq!(p.state, State::Previewing);
    assert_eq!(p.config.new_version, v(1, 3, 0));
    assert_eq!(p.config.new_version_string(), b"1.3.0".to_vec());
    let a = p.step(Event::ChangelogRendered { ok: true });
    assert_eq!(a, Action::ReportDone);
    assert_eq!(p.state, State::Done);
}

#[test]
fn write_mode_runs_every_step_in_order() {
    let mut p = run_to_analysis(true, false, "0.9.0");
    assert!(!p.dry_run);
    assert!(p.config.write_mode);
    let a = p.step(Event::CommitsFetched { messages: msgs(&["feat!: break api"]) });
    assert_eq!(a, Action::RunStep { step: StepKind::Manifest });
    assert_eq!(p.config.new_version, v(1, 0, 0));
    let expected = [
        StepKind::Changelog,
        StepKind::Lockfile,
        StepKind::Package,
        StepKind::Commit,
        StepKind::Tag,
    ];
    for step in expected {
        let a = p.step(Event::StepFinished { ok: true });
        assert_eq!(a, Action::RunStep { step });
    }
    let a = p.step(Event::StepFinished { ok: true });
    assert_eq!(a, Action::ReportDone);
    assert_eq!(p.state, State::Done);
    assert_eq!(
        semantic_release::version::tag_name(&p.config.new_version),
        b"v1.0.0".to_vec()
    );
}

#[test]
fn ci_signal_forces_a_dry_run() {
    let mut p = run_to_analysis(true, true, "1.2.3");
    assert!(p.dry_run);
    assert!(!p.config.write_mode);
    let a = p.step(Event::CommitsFetched { messages: msgs(&["fix: a"]) });
    assert_eq!(a, Action::RenderPreview);
    assert_eq!(p.state, State::Previewing);
}

#[test]
fn lockfile_failure_halts_before_commit_and_tag() {
    let mut p = run_to_analysis(true, false, "1.2.3");
    let mut actions = Vec::new();
    actions.push(p.step(Event::CommitsFetched { messages: msgs(&["fix: a"]) }));
    actions.push(p.step(Event::StepFinished { ok: true })); // manifest written
    actions.push(p.step(Event::StepFinished { ok: true })); // changelog written
    let a = p.step(Event::StepFinished { ok: false }); // lockfile refresh fails
    assert_eq!(
        a,
        Action::ReportFailure { cause: ErrorKind::Step { step: StepKind::Lockfile } }
    );
    assert_eq!(
        p.state,
        State::Failed { cause: ErrorKind::Step { step: StepKind::Lockfile } }
    );
    for a in &actions {
        assert_ne!(*a, Action::RunStep { step: StepKind::Commit });
        assert_ne!(*a, Action::RunStep { step: StepKind::Tag });
    }
}

#[test]
fn each_resolution_failure_names_its_cause() {
    let mut p = Pipeline::new(".".to_string(), true, false);
    p.start();
    let a = p.step(Event::RepoOpened { ok: false });
    assert_eq!(a, Action::ReportFailure { cause: ErrorKind::OpenRepo });

    let mut p = Pipeline::new(".".to_string(), true, false);
    p.start();
    p.step(Event::RepoOpened { ok: true });
    let a = p.step(Event::SignatureResolved { ok: false });
    assert_eq!(a, Action::ReportFailure { cause: ErrorKind::Signature });

    let mut p = Pipeline::new(".".to_string(), true, false);
    p.start();
    p.step(Event::RepoOpened { ok: true });
    p.step(Event::SignatureResolved { ok: true });
    let a = p.step(Event::VersionRead { text: None });
    assert_eq!(a, Action::ReportFailure { cause: ErrorKind::ReadVersion });

    let mut p = run_to_analysis(true, false, "1.2.3");
    let a = p.step(Event::CommitsFetched { messages: None });
    assert_eq!(a, Action::ReportFailure { cause: ErrorKind::FetchCommits });

    let mut p = run_to_analysis(false, false, "1.2.3");
    p.step(Event::CommitsFetched { messages: msgs(&["fix: a"]) });
    let a = p.step(Event::ChangelogRendered { ok: false });
    assert_eq!(a, Action::ReportFailure { cause: ErrorKind::Preview });
}

#[test]
fn context_strings_render_both_versions() {
    let mut p = run_to_analysis(false, false, "1.2.3");
    p.step(Event::CommitsFetched { messages: msgs(&["feat: b"]) });
    assert_eq!(p.config.current_version_string(), b"1.2.3".to_vec());
    assert_eq!(p.config.new_version_string(), b"1.3.0".to_vec());
}
