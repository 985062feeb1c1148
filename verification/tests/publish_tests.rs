use reading_sync::publish::{advance, initial_stage, publish_plan, Stage, StepOutcome};

fn advance_through(stages: &[Stage], outcome: StepOutcome) -> Stage {
    let mut s = initial_stage();
    for expected in stages {
        assert_eq!(s, *expected);
        s = advance(s, StepOutcome::Success);
    }
    advance(s, outcome)
}

#[test]
fn successful_run_reaches_done() {
    let mut s = initial_stage();
    assert_eq!(s, Stage::Fetch);
    let chain = [
        Stage::Transform,
        Stage::AcquireRepo,
        Stage::WriteFiles,
        Stage::ConfigureAuth,
        Stage::StageFiles,
        Stage::Commit,
        Stage::LookupRemote,
        Stage::ConnectRemote,
        Stage::Push,
        Stage::Done,
    ];
    for expected in chain {
        s = advance(s, StepOutcome::Success);
        assert_eq!(s, expected);
    }
    assert_eq!(advance(s, StepOutcome::Success), Stage::Done);
}

#[test]
fn fetch_failure_aborts_before_any_write() {
    let s = advance(Stage::Fetch, StepOutcome::Failure);
    assert_eq!(s, Stage::Aborted);
    assert_eq!(advance(s, StepOutcome::Success), Stage::Aborted);
    assert_eq!(advance(s, StepOutcome::Failure), Stage::Aborted);
}

#[test]
fn transform_failure_aborts() {
    let s = advance_through(&[Stage::Fetch], StepOutcome::Failure);
    assert_eq!(s, Stage::Aborted);
}

#[test]
fn write_failure_aborts_whole_batch() {
    let s = advance_through(
        &[Stage::Fetch, Stage::Transform, Stage::AcquireRepo],
        StepOutcome::Failure,
    );
    assert_eq!(s, Stage::Aborted);
}

#[test]
fn missing_remote_is_created_then_connected() {
    let mut s = Stage::LookupRemote;
    s = advance(s, StepOutcome::Failure);
    assert_eq!(s, Stage::CreateRemote);
    s = advance(s, StepOutcome::Success);
    assert_eq!(s, Stage::ConnectRemote);
}

#[test]
fn push_rejection_aborts_after_commit() {
    let mut s = initial_stage();
    let mut committed = false;
    for _ in 0..9 {
        if s == Stage::Commit {
            committed = true;
        }
        s = advance(s, StepOutcome::Success);
    }
    assert_eq!(s, Stage::Push);
    assert!(committed);
    let after = advance(s, StepOutcome::Failure);
    assert_eq!(after, Stage::Aborted);
    assert_eq!(advance(after, StepOutcome::Success), Stage::Aborted);
}

#[test]
fn publish_plan_is_fully_determined() {
    let p = publish_plan("tok");
    assert_eq!(p.config_key, "url.tok.insteadOf");
    assert_eq!(p.config_value, "https://github.com/");
    assert_eq!(p.author_name, "github-actions[bot]");
    assert_eq!(p.author_email, "41898282+github-actions[bot]@users.noreply.github.com");
    assert_eq!(p.commit_message, "chore: update reading files");
    assert_eq!(p.remote_name, "origin");
    assert_eq!(p.refspec, "refs/heads/main:refs/heads/main");
}
