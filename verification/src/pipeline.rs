//! The order of a run: which step comes next, given how the last one went.

use vstd::prelude::*;

verus! {

/// A step of the run, or its end.
#[derive(Debug, Clone, Copy, PartialEq, Eq, Structural)]
pub enum Action {
    /// Load the configuration and derive the runtime model.
    ParseAndDerive,
    /// Check that the compile root exists.
    ValidateCompileDirectory,
    /// Write the compiler's temporary configuration.
    WriteCompilationConfig,
    /// Write the identity file.
    CreateIdentityFile,
    /// Start the compiler and forward its output until it ends.
    RunCompiler,
    /// Archive the output directory.
    PackageRelease,
    /// Remove the temporary configuration and the identity file.
    RemoveTransientArtifacts,
    /// End the process; the flag says whether the run succeeded.
    Finish(bool),
}

/// Where a run stands: the step to take next, and whether a step has failed
/// since the transient files came into being.
#[derive(Debug, Clone, Copy, PartialEq, Eq, Structural)]
pub struct Pipeline {
    pub pending: Action,
    pub failed: bool,
}

/// The stage that a step belongs to, from 1 to 5; the end counts as 6.
pub open spec fn stage_of(action: Action) -> nat {
    match action {
        Action::ParseAndDerive => 1,
        Action::ValidateCompileDirectory => 2,
        Action::WriteCompilationConfig => 3,
        Action::CreateIdentityFile => 4,
        Action::RunCompiler => 4,
        Action::PackageRelease => 5,
        Action::RemoveTransientArtifacts => 5,
        Action::Finish(_) => 6,
    }
}

/// The place of a step in the order of the run.
pub open spec fn rank(action: Action) -> nat {
    match action {
        Action::ParseAndDerive => 0,
        Action::ValidateCompileDirectory => 1,
        Action::WriteCompilationConfig => 2,
        Action::CreateIdentityFile => 3,
        Action::RunCompiler => 4,
        Action::PackageRelease => 5,
        Action::RemoveTransientArtifacts => 6,
        Action::Finish(_) => 7,
    }
}

/// The number of steps of a run in which nothing fails.
pub const STEP_COUNT: usize = 7;

/// The beginning of every run.
pub open spec fn initial() -> Pipeline {
    Pipeline { pending: Action::ParseAndDerive, failed: false }
}

/// The step that follows `action` where nothing fails.
pub open spec fn successor(action: Action) -> Action {
    match action {
        Action::ParseAndDerive => Action::ValidateCompileDirectory,
        Action::ValidateCompileDirectory => Action::WriteCompilationConfig,
        Action::WriteCompilationConfig => Action::CreateIdentityFile,
        Action::CreateIdentityFile => Action::RunCompiler,
        Action::RunCompiler => Action::PackageRelease,
        Action::PackageRelease => Action::RemoveTransientArtifacts,
        Action::RemoveTransientArtifacts => Action::Finish(true),
        Action::Finish(b) => Action::Finish(b),
    }
}

/// The transient files exist, or may: the step that writes the first of
/// them has been taken and the removal has not.
pub open spec fn artifacts_pending(action: Action) -> bool {
    rank(Action::WriteCompilationConfig) < rank(action) < rank(Action::RemoveTransientArtifacts)
}

/// Where the run stands after the pending step went well (`succeeded`) or
/// badly. A step that went well is followed by its successor. Before the
/// transient files exist a failure ends the run at once. From then on a
/// failure skips what is left of the productive steps, but never the
/// removal; a failed archive does the same. The run succeeds only if the
/// removal went well and nothing failed before it.
pub open spec fn next_state(state: Pipeline, succeeded: bool) -> Pipeline {
    let failed = state.failed || !succeeded;
    if state.pending is Finish {
        state
    } else if artifacts_pending(state.pending) {
        Pipeline {
            pending: if succeeded {
                successor(state.pending)
            } else {
                Action::RemoveTransientArtifacts
            },
            failed,
        }
    } else if failed {
        Pipeline { pending: Action::Finish(false), failed }
    } else {
        Pipeline { pending: successor(state.pending), failed }
    }
}

/// A state that a run can be in: a failure is on record exactly where the
/// run has ended badly or is about to remove the transient files after a
/// step went badly.
pub open spec fn well_formed(state: Pipeline) -> bool {
    match state.pending {
        Action::Finish(succeeded) => succeeded != state.failed,
        Action::RemoveTransientArtifacts => true,
        _ => !state.failed,
    }
}

/// Where the run stands after a sequence of outcomes, taken in order.
pub open spec fn run_from(state: Pipeline, outcomes: Seq<bool>) -> Pipeline
    decreases outcomes.len(),
{
    if outcomes.len() == 0 {
        state
    } else {
        next_state(run_from(state, outcomes.drop_last()), outcomes.last())
    }
}

impl Pipeline {
    /// The beginning of a run.
    pub fn new() -> (r: Self)
        ensures
            r == initial(),
            well_formed(r),
    {
        Pipeline { pending: Action::ParseAndDerive, failed: false }
    }

    /// The run has ended.
    pub fn is_finished(&self) -> (r: bool)
        ensures
            r == (self.pending is Finish),
    {
        match self.pending {
            Action::Finish(_) => true,
            _ => false,
        }
    }

    /// Takes the outcome of the pending step and says where the run stands
    /// then.
    pub fn advance(self, succeeded: bool) -> (r: Self)
        ensures
            r == next_state(self, succeeded),
            well_formed(self) ==> well_formed(r),
    {
        let failed: bool = self.failed || !succeeded;
        match self.pending {
            Action::Finish(_) => self,
            Action::CreateIdentityFile | Action::RunCompiler | Action::PackageRelease => {
                if succeeded {
                    Pipeline { pending: following(self.pending), failed }
                } else {
                    Pipeline { pending: Action::RemoveTransientArtifacts, failed }
                }
            },
            _ => {
                if failed {
                    Pipeline { pending: Action::Finish(false), failed }
                } else {
                    Pipeline { pending: following(self.pending), failed }
                }
            },
        }
    }
}

/// The step that follows `action` where nothing fails.
pub fn following(action: Action) -> (r: Action)
    ensures
        r == successor(action),
{
    match action {
        Action::ParseAndDerive => Action::ValidateCompileDirectory,
        Action::ValidateCompileDirectory => Action::WriteCompilationConfig,
        Action::WriteCompilationConfig => Action::CreateIdentityFile,
        Action::CreateIdentityFile => Action::RunCompiler,
        Action::RunCompiler => Action::PackageRelease,
        Action::PackageRelease => Action::RemoveTransientArtifacts,
        Action::RemoveTransientArtifacts => Action::Finish(true),
        Action::Finish(b) => Action::Finish(b),
    }
}

/// A run only moves forward: until it has ended, every outcome leads to a
/// later step, in a stage that is not earlier. No step is taken twice.
pub proof fn lemma_run_only_advances(state: Pipeline, succeeded: bool)
    requires
        !(state.pending is Finish),
    ensures
        rank(next_state(state, succeeded).pending) > rank(state.pending),
        stage_of(next_state(state, succeeded).pending) >= stage_of(state.pending),
{
}

/// In a run without a failure, a step that went well is followed by the
/// very next step in order.
pub proof fn lemma_success_leads_to_next_step(state: Pipeline)
    requires
        !(state.pending is Finish),
        !state.failed,
    ensures
        rank(next_state(state, true).pending) == rank(state.pending) + 1,
{
}

/// Before the transient files exist, a step that goes badly ends the run
/// at once, and as a failure.
pub proof fn lemma_early_failure_ends_the_run(state: Pipeline)
    requires
        rank(state.pending) <= rank(Action::WriteCompilationConfig),
    ensures
        next_state(state, false).pending == Action::Finish(false),
{
}

/// Once the temporary configuration has been written, the run does not end
/// before the removal of the transient files has been its pending step,
/// whatever fails.
pub proof fn lemma_removal_is_never_skipped(state: Pipeline, succeeded: bool)
    requires
        rank(state.pending) >= rank(Action::CreateIdentityFile),
        !(state.pending is Finish),
        state.pending != Action::RemoveTransientArtifacts,
    ensures
        !(next_state(state, succeeded).pending is Finish),
        rank(next_state(state, succeeded).pending) <= rank(Action::RemoveTransientArtifacts),
{
}

/// The states of a run are closed under its steps.
pub proof fn lemma_well_formed_is_kept(state: Pipeline, succeeded: bool)
    requires
        well_formed(state),
    ensures
        well_formed(initial()),
        well_formed(next_state(state, succeeded)),
{
}

/// A failure is never forgotten: after a step that went badly, and ever
/// after, the run is marked as failed and cannot end as a success.
pub proof fn lemma_failure_is_kept(state: Pipeline, succeeded: bool)
    requires
        well_formed(state),
        state.failed || (!succeeded && !(state.pending is Finish)),
    ensures
        next_state(state, succeeded).failed,
        next_state(state, succeeded).pending != Action::Finish(true),
{
}

/// An ended run stays as it is.
pub proof fn lemma_finished_stays(state: Pipeline, outcomes: Seq<bool>)
    requires
        state.pending is Finish,
    ensures
        run_from(state, outcomes) == state,
    decreases outcomes.len(),
{
    if outcomes.len() > 0 {
        lemma_finished_stays(state, outcomes.drop_last());
    }
}

/// Every run has ended after as many outcomes as there are steps.
pub proof fn lemma_run_ends(outcomes: Seq<bool>)
    requires
        outcomes.len() >= STEP_COUNT,
    ensures
        run_from(initial(), outcomes).pending is Finish,
    decreases outcomes.len(),
{
    lemma_rank_grows(outcomes);
    let end = run_from(initial(), outcomes);
    if !(end.pending is Finish) {
        assert(rank(end.pending) >= 7);
    }
}

/// After `n` outcomes a run has ended or stands at least `n` steps in.
proof fn lemma_rank_grows(outcomes: Seq<bool>)
    ensures
        run_from(initial(), outcomes).pending is Finish || rank(
            run_from(initial(), outcomes).pending,
        ) >= outcomes.len(),
    decreases outcomes.len(),
{
    if outcomes.len() > 0 {
        lemma_rank_grows(outcomes.drop_last());
        let before = run_from(initial(), outcomes.drop_last());
        if !(before.pending is Finish) {
            lemma_run_only_advances(before, outcomes.last());
        }
    }
}

/// A run of seven steps succeeds exactly if every step went well.
pub proof fn lemma_success_needs_every_step(outcomes: Seq<bool>)
    requires
        outcomes.len() == STEP_COUNT,
    ensures
        run_from(initial(), outcomes).pending == Action::Finish(
            forall|i: int| 0 <= i < outcomes.len() ==> outcomes[i],
        ),
{
    let s0 = initial();
    let o1 = outcomes.take(1);
    let o2 = outcomes.take(2);
    let o3 = outcomes.take(3);
    let o4 = outcomes.take(4);
    let o5 = outcomes.take(5);
    let o6 = outcomes.take(6);
    let o7 = outcomes.take(7);
    assert(o7 =~= outcomes);
    assert(o1.drop_last() =~= outcomes.take(0));
    assert(o2.drop_last() =~= o1);
    assert(o3.drop_last() =~= o2);
    assert(o4.drop_last() =~= o3);
    assert(o5.drop_last() =~= o4);
    assert(o6.drop_last() =~= o5);
    assert(o7.drop_last() =~= o6);
    assert(run_from(s0, outcomes.take(0)) == s0);
    assert(run_from(s0, o1) == next_state(s0, outcomes[0]));
    assert(run_from(s0, o2) == next_state(run_from(s0, o1), outcomes[1]));
    assert(run_from(s0, o3) == next_state(run_from(s0, o2), outcomes[2]));
    assert(run_from(s0, o4) == next_state(run_from(s0, o3), outcomes[3]));
    assert(run_from(s0, o5) == next_state(run_from(s0, o4), outcomes[4]));
    assert(run_from(s0, o6) == next_state(run_from(s0, o5), outcomes[5]));
    assert(run_from(s0, o7) == next_state(run_from(s0, o6), outcomes[6]));
}

} // verus!
