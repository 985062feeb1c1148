//! The run as a step machine, and the publisher's fixed plan.
//!
//! The pipeline is strictly sequential: fetch, transform, acquire the
//! working copy, write the pages, then publish — configure
//! authentication, stage, commit, resolve the remote, connect, push.
//! Every step must succeed before the next runs, and the first failure
//! aborts the run for good; the one branch is the remote lookup, whose
//! failure leads to creating the remote instead of aborting. The outside
//! work of each step (the HTTP call, the file writes, the git
//! operations) is carried out by the caller, which reports each step's
//! outcome and asks the machine for the stage that follows.

use vstd::prelude::*;

verus! {

/// The stage the run stands before: the next piece of work to carry
/// out, or a terminal state.
#[derive(Clone, Copy, PartialEq, Eq, Structural, Debug)]
pub enum Stage {
    /// Send the database query.
    Fetch,
    /// Turn the response into the reading list.
    Transform,
    /// Reuse the working copy, or clone it.
    AcquireRepo,
    /// Write one page file per item.
    WriteFiles,
    /// Install the token's URL-rewrite rule in the local configuration.
    ConfigureAuth,
    /// Stage every change in the working tree and build the tree.
    StageFiles,
    /// Commit the tree as the automation identity, on the branch tip.
    Commit,
    /// Look the `origin` remote up.
    LookupRemote,
    /// Create the `origin` remote at the target URL.
    CreateRemote,
    /// Connect to the remote for pushing.
    ConnectRemote,
    /// Push the main branch.
    Push,
    /// The run finished: every stage succeeded.
    Done,
    /// The run aborted: no further work is performed.
    Aborted,
}

/// How one step's outside work ended.
#[derive(Clone, Copy, PartialEq, Eq, Structural, Debug)]
pub enum StepOutcome {
    Success,
    Failure,
}

/// The stage that follows one step: the next stage of the chain on
/// success, `Aborted` on failure — except that a failed remote lookup
/// leads to creating the remote, and the terminal stages absorb every
/// outcome.
pub open spec fn next_stage(s: Stage, o: StepOutcome) -> Stage {
    match (s, o) {
        (Stage::Fetch, StepOutcome::Success) => Stage::Transform,
        (Stage::Transform, StepOutcome::Success) => Stage::AcquireRepo,
        (Stage::AcquireRepo, StepOutcome::Success) => Stage::WriteFiles,
        (Stage::WriteFiles, StepOutcome::Success) => Stage::ConfigureAuth,
        (Stage::ConfigureAuth, StepOutcome::Success) => Stage::StageFiles,
        (Stage::StageFiles, StepOutcome::Success) => Stage::Commit,
        (Stage::Commit, StepOutcome::Success) => Stage::LookupRemote,
        (Stage::LookupRemote, StepOutcome::Success) => Stage::ConnectRemote,
        (Stage::LookupRemote, StepOutcome::Failure) => Stage::CreateRemote,
        (Stage::CreateRemote, StepOutcome::Success) => Stage::ConnectRemote,
        (Stage::ConnectRemote, StepOutcome::Success) => Stage::Push,
        (Stage::Push, StepOutcome::Success) => Stage::Done,
        (Stage::Done, _) => Stage::Done,
        (Stage::Aborted, _) => Stage::Aborted,
        (_, StepOutcome::Failure) => Stage::Aborted,
    }
}

/// The stage a run stands at after taking the given steps from `s`.
pub open spec fn run_from(s: Stage, events: Seq<StepOutcome>) -> Stage
    decreases events.len(),
{
    if events.len() == 0 {
        s
    } else {
        run_from(next_stage(s, events[0]), events.drop_first())
    }
}

/// The stage a run stands at after taking the given steps from the
/// start.
pub open spec fn run(events: Seq<StepOutcome>) -> Stage {
    run_from(Stage::Fetch, events)
}

/// The stage the run stands before its `i`-th step: the stage at which
/// that step's work is performed.
pub open spec fn stage_at(events: Seq<StepOutcome>, i: int) -> Stage {
    run(events.subrange(0, i))
}

/// The stage the run starts at.
pub fn initial_stage() -> (s: Stage)
    ensures
        s == Stage::Fetch,
{
    Stage::Fetch
}

/// Decides the stage that follows one step, given how its outside work
/// ended.
pub fn advance(s: Stage, o: StepOutcome) -> (r: Stage)
    ensures
        r == next_stage(s, o),
{
    match (s, o) {
        (Stage::Fetch, StepOutcome::Success) => Stage::Transform,
        (Stage::Transform, StepOutcome::Success) => Stage::AcquireRepo,
        (Stage::AcquireRepo, StepOutcome::Success) => Stage::WriteFiles,
        (Stage::WriteFiles, StepOutcome::Success) => Stage::ConfigureAuth,
        (Stage::ConfigureAuth, StepOutcome::Success) => Stage::StageFiles,
        (Stage::StageFiles, StepOutcome::Success) => Stage::Commit,
        (Stage::Commit, StepOutcome::Success) => Stage::LookupRemote,
        (Stage::LookupRemote, StepOutcome::Success) => Stage::ConnectRemote,
        (Stage::LookupRemote, StepOutcome::Failure) => Stage::CreateRemote,
        (Stage::CreateRemote, StepOutcome::Success) => Stage::ConnectRemote,
        (Stage::ConnectRemote, StepOutcome::Success) => Stage::Push,
        (Stage::Push, StepOutcome::Success) => Stage::Done,
        (Stage::Done, _) => Stage::Done,
        (Stage::Aborted, _) => Stage::Aborted,
        (_, StepOutcome::Failure) => Stage::Aborted,
    }
}

/// An aborted run stays aborted, whatever steps follow.
pub proof fn lemma_aborted_stays(events: Seq<StepOutcome>)
    ensures
        run_from(Stage::Aborted, events) == Stage::Aborted,
    decreases events.len(),
{
    if events.len() > 0 {
        lemma_aborted_stays(events.drop_first());
    }
}

/// Taking one more step moves the run by exactly one stage.
pub proof fn lemma_run_snoc(s: Stage, events: Seq<StepOutcome>, o: StepOutcome)
    ensures
        run_from(s, events.push(o)) == next_stage(run_from(s, events), o),
    decreases events.len(),
{
    assert(events.push(o)[0] == if events.len() == 0 { o } else { events[0] });
    assert(run_from(s, events.push(o)) == run_from(
        next_stage(s, events.push(o)[0]),
        events.push(o).drop_first(),
    ));
    if events.len() == 0 {
        assert(events.push(o).drop_first() =~= Seq::<StepOutcome>::empty());
        assert(run_from(next_stage(s, o), Seq::<StepOutcome>::empty()) == next_stage(s, o));
        assert(run_from(s, events) == s);
    } else {
        lemma_run_snoc(next_stage(s, events[0]), events.drop_first(), o);
        assert(events.push(o).drop_first() =~= events.drop_first().push(o));
        assert(run_from(s, events) == run_from(next_stage(s, events[0]), events.drop_first()));
    }
}

/// A run is its first `k` steps followed by the rest.
pub proof fn lemma_run_split(events: Seq<StepOutcome>, k: int)
    requires
        0 <= k <= events.len(),
    ensures
        run(events) == run_from(stage_at(events, k), events.subrange(k, events.len() as int)),
    decreases k,
{
    if k == 0 {
        assert(events.subrange(0, 0) =~= Seq::<StepOutcome>::empty());
        assert(events.subrange(0, events.len() as int) =~= events);
    } else {
        lemma_run_split(events, k - 1);
        assert(events.subrange(0, k) =~= events.subrange(0, k - 1).push(events[k - 1]));
        lemma_run_snoc(Stage::Fetch, events.subrange(0, k - 1), events[k - 1]);
        assert(events.subrange(k - 1, events.len() as int).drop_first() =~= events.subrange(
            k,
            events.len() as int,
        ));
        assert(events.subrange(k - 1, events.len() as int)[0] == events[k - 1]);
    }
}

/// A failed fetch aborts the whole run before anything else happens:
/// the run's first step is the fetch, every later stage is `Aborted`,
/// and so no file is written and no repository is touched.
pub proof fn lemma_fetch_failure_halts(events: Seq<StepOutcome>)
    requires
        events.len() > 0,
        events[0] == StepOutcome::Failure,
    ensures
        run(events) == Stage::Aborted,
        forall|i: int|
            0 <= i <= events.len() ==> stage_at(events, i) == (if i == 0 {
                Stage::Fetch
            } else {
                Stage::Aborted
            }),
{
    assert forall|i: int| 0 <= i <= events.len() implies stage_at(events, i) == (if i == 0 {
        Stage::Fetch
    } else {
        Stage::Aborted
    }) by {
        let prefix = events.subrange(0, i);
        if i == 0 {
            assert(prefix =~= Seq::<StepOutcome>::empty());
        } else {
            assert(prefix[0] == StepOutcome::Failure);
            lemma_aborted_stays(prefix.drop_first());
        }
    }
    assert(events.subrange(0, events.len() as int) =~= events);
    assert(stage_at(events, events.len() as int) == Stage::Aborted);
}

/// The stages that lie beyond the commit on the way to the push.
pub open spec fn past_commit(s: Stage) -> bool {
    s == Stage::LookupRemote || s == Stage::CreateRemote || s == Stage::ConnectRemote || s
        == Stage::Push
}

/// A run standing beyond the commit stage got there through a
/// successful commit: the local commit exists.
pub proof fn lemma_past_commit_has_commit(events: Seq<StepOutcome>, i: int)
    requires
        0 <= i <= events.len(),
        past_commit(stage_at(events, i)),
    ensures
        exists|j: int|
            0 <= j < i && #[trigger] stage_at(events, j) == Stage::Commit && events[j]
                == StepOutcome::Success,
    decreases i,
{
    assert(i > 0) by {
        if i == 0 {
            assert(events.subrange(0, 0) =~= Seq::<StepOutcome>::empty());
        }
    }
    let prev = stage_at(events, i - 1);
    let e = events[i - 1];
    assert(events.subrange(0, i) =~= events.subrange(0, i - 1).push(e));
    lemma_run_snoc(Stage::Fetch, events.subrange(0, i - 1), e);
    assert(stage_at(events, i) == next_stage(prev, e));
    if prev == Stage::Commit && e == StepOutcome::Success {
        assert(stage_at(events, i - 1) == Stage::Commit && events[i - 1] == StepOutcome::Success);
    } else {
        assert(past_commit(prev));
        lemma_past_commit_has_commit(events, i - 1);
    }
}

/// A rejected push aborts the run, yet only after the local commit was
/// made: some earlier step committed successfully, and from the failed
/// push on the run is aborted, so the push is never retried and the
/// remote branch is left as the rejection found it.
pub proof fn lemma_push_failure_leaves_local_commit(events: Seq<StepOutcome>, i: int)
    requires
        0 <= i < events.len(),
        stage_at(events, i) == Stage::Push,
        events[i] == StepOutcome::Failure,
    ensures
        run(events) == Stage::Aborted,
        exists|j: int|
            0 <= j < i && #[trigger] stage_at(events, j) == Stage::Commit && events[j]
                == StepOutcome::Success,
        forall|m: int| i < m <= events.len() ==> stage_at(events, m) == Stage::Aborted,
{
    lemma_past_commit_has_commit(events, i);
    assert forall|m: int| i < m <= events.len() implies stage_at(events, m) == Stage::Aborted by {
        assert(events.subrange(0, i + 1) =~= events.subrange(0, i).push(events[i]));
        lemma_run_snoc(Stage::Fetch, events.subrange(0, i), events[i]);
        assert(stage_at(events, i + 1) == Stage::Aborted);
        lemma_run_split(events.subrange(0, m), i + 1);
        assert(events.subrange(0, m).subrange(0, i + 1) =~= events.subrange(0, i + 1));
        lemma_aborted_stays(events.subrange(0, m).subrange(i + 1, m));
    }
    assert(events.subrange(0, events.len() as int) =~= events);
    assert(stage_at(events, events.len() as int) == Stage::Aborted);
}

/// The publisher's fixed plan: every string the publishing steps hand to
/// git, fully determined by the repository token.
pub struct PublishPlan {
    /// The local configuration key of the URL-rewrite rule:
    /// `url.<token>.insteadOf`.
    pub config_key: String,
    /// The prefix the rule rewrites, so that pushes authenticate as the
    /// automation identity.
    pub config_value: String,
    /// The automation identity's name.
    pub author_name: String,
    /// The automation identity's address.
    pub author_email: String,
    /// The fixed message of the one commit a run makes.
    pub commit_message: String,
    /// The name of the remote pushed to.
    pub remote_name: String,
    /// The refspec pushed: the main branch onto the main branch.
    pub refspec: String,
}

/// Builds the publisher's plan for the given repository token.
pub fn publish_plan(gh_token: &str) -> (p: PublishPlan)
    ensures
        p.config_key@ == "url."@ + gh_token@ + ".insteadOf"@,
        p.config_value@ == "https://github.com/"@,
        p.author_name@ == "github-actions[bot]"@,
        p.author_email@ == "41898282+github-actions[bot]@users.noreply.github.com"@,
        p.commit_message@ == "chore: update reading files"@,
        p.remote_name@ == "origin"@,
        p.refspec@ == "refs/heads/main:refs/heads/main"@,
{
    let mut config_key = String::from_str("url.");
    config_key.append(gh_token);
    config_key.append(".insteadOf");
    PublishPlan {
        config_key,
        config_value: String::from_str("https://github.com/"),
        author_name: String::from_str("github-actions[bot]"),
        author_email: String::from_str("41898282+github-actions[bot]@users.noreply.github.com"),
        commit_message: String::from_str("chore: update reading files"),
        remote_name: String::from_str("origin"),
        refspec: String::from_str("refs/heads/main:refs/heads/main"),
    }
}

} // verus!
