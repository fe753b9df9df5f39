use vstd::prelude::*;

verus! {

/// The most evaluations of the forward offset that one inversion makes.
pub const MAX_ROUNDS: u32 = 10;

/// What the fixed-point inversion of the regional offset does after it has
/// evaluated the forward offset on its estimate and compared the result
/// with the target.
#[derive(Debug, Clone, Copy, PartialEq, Eq, Structural)]
pub enum SolverAction {
    /// The residual is within tolerance: the estimate is the result.
    Finish,
    /// Add the residual to the estimate and evaluate again.
    CorrectAndRepeat,
    /// Add the residual to the estimate, which is then the result: no
    /// evaluation is left.
    CorrectAndFinish,
}

/// The action after the evaluation numbered `rounds_done` (counting from
/// one), given whether its residual was within tolerance.
pub open spec fn action_after(rounds_done: nat, converged: bool) -> SolverAction {
    if converged {
        SolverAction::Finish
    } else if rounds_done < MAX_ROUNDS {
        SolverAction::CorrectAndRepeat
    } else {
        SolverAction::CorrectAndFinish
    }
}

/// Decides how the inversion goes on after `rounds_done` evaluations, the
/// last of which had its residual within tolerance when `converged` holds.
pub fn next_action(rounds_done: u32, converged: bool) -> (r: SolverAction)
    ensures
        r == action_after(rounds_done as nat, converged),
{
    if converged {
        SolverAction::Finish
    } else if rounds_done < MAX_ROUNDS {
        SolverAction::CorrectAndRepeat
    } else {
        SolverAction::CorrectAndFinish
    }
}

/// When the tolerance test of evaluation `j` reports `converged(j)`, the
/// inversion stops after evaluation `k`: it repeats after each earlier one
/// and not after `k`.
pub open spec fn stops_after(k: nat, converged: spec_fn(nat) -> bool) -> bool {
    &&& k >= 1
    &&& action_after(k, converged(k)) != SolverAction::CorrectAndRepeat
    &&& forall|j: nat|
        1 <= j < k ==> #[trigger] action_after(j, converged(j)) == SolverAction::CorrectAndRepeat
}

proof fn lemma_stops_from(k: nat, converged: spec_fn(nat) -> bool)
    requires
        1 <= k <= MAX_ROUNDS,
        forall|j: nat|
            1 <= j < k ==> #[trigger] action_after(j, converged(j))
                == SolverAction::CorrectAndRepeat,
    ensures
        exists|s: nat| s <= MAX_ROUNDS && stops_after(s, converged),
    decreases MAX_ROUNDS - k,
{
    if action_after(k, converged(k)) != SolverAction::CorrectAndRepeat {
        assert(stops_after(k, converged));
    } else {
        assert forall|j: nat| 1 <= j < k + 1 implies #[trigger] action_after(j, converged(j))
            == SolverAction::CorrectAndRepeat by {}
        lemma_stops_from(k + 1, converged);
    }
}

/// The inversion terminates: whatever its tolerance tests report, it stops
/// after at most `MAX_ROUNDS` evaluations of the forward offset.
pub proof fn lemma_solver_terminates(converged: spec_fn(nat) -> bool)
    ensures
        exists|k: nat| k <= MAX_ROUNDS && stops_after(k, converged),
{
    lemma_stops_from(1, converged);
}

} // verus!
