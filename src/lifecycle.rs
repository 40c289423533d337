//! Laws of the construction lifecycle over a run of attempts in one process.
//!
//! Racing attempts are decided one at a time by the lock around the process's
//! `InitGuard`, so any run of attempts is some sequence of calls to
//! `RobotBase::new`, each seeing the guard as the one before left it.
use vstd::prelude::*;
use crate::robot_base::{init_outcome, RobotBaseInitError};

verus! {

/// Outcomes of a sequence of construction attempts in order, starting from a
/// guard that is `claimed` or not; `statuses[i]` is what the HAL's
/// initialisation would report to attempt `i`. Every attempt leaves the
/// guard claimed.
pub open spec fn attempt_outcomes(claimed: bool, statuses: Seq<i32>) -> Seq<
    Result<(), RobotBaseInitError>,
>
    decreases statuses.len(),
{
    if statuses.len() == 0 {
        seq![]
    } else {
        seq![init_outcome(claimed, statuses[0])] + attempt_outcomes(true, statuses.drop_first())
    }
}

/// Once the guard is claimed, every attempt fails with `AlreadyInit`.
pub proof fn lemma_claimed_attempts_fail(statuses: Seq<i32>)
    ensures
        attempt_outcomes(true, statuses).len() == statuses.len(),
        forall|i: int|
            0 <= i < statuses.len() ==> #[trigger] attempt_outcomes(true, statuses)[i] == Err::<
                (),
                RobotBaseInitError,
            >(RobotBaseInitError::AlreadyInit),
    decreases statuses.len(),
{
    if statuses.len() > 0 {
        lemma_claimed_attempts_fail(statuses.drop_first());
        let rest = attempt_outcomes(true, statuses.drop_first());
        assert forall|i: int| 0 <= i < statuses.len() implies #[trigger] attempt_outcomes(
            true,
            statuses,
        )[i] == Err::<(), RobotBaseInitError>(RobotBaseInitError::AlreadyInit) by {
            if i > 0 {
                assert(attempt_outcomes(true, statuses)[i] == rest[i - 1]);
            }
        }
    }
}

/// Of N ≥ 1 attempts in a process whose HAL initialisation succeeds, exactly
/// one succeeds (the first to claim the guard) and all the others fail with
/// `AlreadyInit`.
pub proof fn lemma_exactly_one_attempt_succeeds(statuses: Seq<i32>)
    requires
        statuses.len() >= 1,
        forall|i: int| 0 <= i < statuses.len() ==> #[trigger] statuses[i] != 0,
    ensures
        attempt_outcomes(false, statuses).len() == statuses.len(),
        forall|i: int|
            0 <= i < statuses.len() ==> (#[trigger] attempt_outcomes(false, statuses)[i] is Ok
                <==> i == 0),
        forall|i: int|
            1 <= i < statuses.len() ==> #[trigger] attempt_outcomes(false, statuses)[i] == Err::<
                (),
                RobotBaseInitError,
            >(RobotBaseInitError::AlreadyInit),
{
    lemma_claimed_attempts_fail(statuses.drop_first());
    let all = attempt_outcomes(false, statuses);
    let rest = attempt_outcomes(true, statuses.drop_first());
    assert(statuses[0] != 0);
    assert forall|i: int| 1 <= i < statuses.len() implies all[i] == rest[i - 1] by {}
}

/// After a successful construction, a later attempt in the same process
/// fails with `AlreadyInit`, whether or not the first handle still exists
/// (the guard is never released).
pub proof fn lemma_second_attempt_fails(first_status: i32, second_status: i32)
    ensures
        attempt_outcomes(false, seq![first_status, second_status])[0] is Ok
            ==> attempt_outcomes(false, seq![first_status, second_status])[1] == Err::<
            (),
            RobotBaseInitError,
        >(RobotBaseInitError::AlreadyInit),
{
    let s = seq![first_status, second_status];
    lemma_claimed_attempts_fail(s.drop_first());
    assert(attempt_outcomes(false, s)[1] == attempt_outcomes(true, s.drop_first())[0]);
}

/// A failed HAL initialisation returns `HalInitFailed` and keeps the guard
/// claimed: the next attempt fails with `AlreadyInit`, whatever the HAL
/// would report to it.
pub proof fn lemma_failed_init_keeps_claim(second_status: i32)
    ensures
        attempt_outcomes(false, seq![0, second_status]) == seq![
            Err::<(), RobotBaseInitError>(RobotBaseInitError::HalInitFailed),
            Err::<(), RobotBaseInitError>(RobotBaseInitError::AlreadyInit),
        ],
{
    let s = seq![0i32, second_status];
    lemma_claimed_attempts_fail(s.drop_first());
    assert(attempt_outcomes(true, s.drop_first()).len() == 1);
    assert(attempt_outcomes(false, s) =~= seq![
        Err::<(), RobotBaseInitError>(RobotBaseInitError::HalInitFailed),
        Err::<(), RobotBaseInitError>(RobotBaseInitError::AlreadyInit),
    ]);
}

} // verus!
