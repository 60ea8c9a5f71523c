//! The mission state machine: `start`, `complete` and `fail` transitions,
//! each gated by the mission's status, crew and chief.
//!
//! Each function here decides one transition from the values the caller
//! read: it returns the status to persist on success, or the specific
//! refusal. Failed preconditions are diagnosed in a fixed priority order —
//! wrong originating status first, then an empty crew, then a crew at or
//! over the limit, then a wrong requester, and a generic fallback last —
//! so every caller reports the same reason for the same state.
//!
//! The caller persists the decided status itself; reading the mission and
//! writing it back are separate steps, so two racing callers can both see
//! a passing precondition. Closing that race needs a conditional write
//! (compare-and-swap on the status) at the storage boundary.

use vstd::prelude::*;
use crate::errors::{MissionAction, MissionError};
use crate::models::MissionEntity;
use crate::statuses::MissionStatus;

verus! {

/// What `start` decides: the next status, or the refusal, in the fixed
/// diagnostic order.
pub open spec fn start_outcome(
    status: MissionStatus,
    crew_count: int,
    max_crew: int,
    mission_chief: i32,
    requester: i32,
) -> Result<MissionStatus, MissionError> {
    let open_or_failed = status is Open || status is Failed;
    if open_or_failed && 0 < crew_count && crew_count < max_crew && mission_chief == requester {
        Ok(MissionStatus::InProgress)
    } else if !open_or_failed {
        Err(MissionError::State(MissionAction::Start, status))
    } else if crew_count <= 0 {
        Err(MissionError::CapacityEmpty)
    } else if crew_count >= max_crew {
        Err(MissionError::CapacityFull(max_crew as i64))
    } else if mission_chief != requester {
        Err(MissionError::Authorization(MissionAction::Start))
    } else {
        Err(MissionError::Invalid)
    }
}

/// What `complete` decides.
pub open spec fn complete_outcome(
    status: MissionStatus,
    mission_chief: i32,
    requester: i32,
) -> Result<MissionStatus, MissionError> {
    if status is InProgress && mission_chief == requester {
        Ok(MissionStatus::Completed)
    } else if !(status is InProgress) {
        Err(MissionError::State(MissionAction::Complete, status))
    } else if mission_chief != requester {
        Err(MissionError::Authorization(MissionAction::Complete))
    } else {
        Err(MissionError::Invalid)
    }
}

/// What `fail` decides.
pub open spec fn fail_outcome(
    status: MissionStatus,
    mission_chief: i32,
    requester: i32,
) -> Result<MissionStatus, MissionError> {
    if status is InProgress && mission_chief == requester {
        Ok(MissionStatus::Failed)
    } else if !(status is InProgress) {
        Err(MissionError::State(MissionAction::Fail, status))
    } else if mission_chief != requester {
        Err(MissionError::Authorization(MissionAction::Fail))
    } else {
        Err(MissionError::Invalid)
    }
}

/// Decides the lifecycle transitions of missions. The caller reads the
/// mission and its crew count, lets a method here decide, and persists the
/// status it returns.
pub struct MissionOperationUseCase {}

impl MissionOperationUseCase {
    pub fn new() -> (r: Self) {
        MissionOperationUseCase {  }
    }

    /// Decides the `start` transition: a mission in `Open` or `Failed`,
    /// with a crew that is neither empty nor at its limit, moves to
    /// `InProgress` when its chief asks.
    pub fn in_progress(&self, mission: &MissionEntity, crew_count: i64, chief_id: i32) -> (r:
        Result<MissionStatus, MissionError>)
        ensures
            r == start_outcome(
                mission.status,
                crew_count as int,
                mission.max_crew as int,
                mission.chief_id,
                chief_id,
            ),
    {
        let max_crew = mission.max_crew as i64;
        let is_status_open_or_fail = matches!(mission.status, MissionStatus::Open)
            || matches!(mission.status, MissionStatus::Failed);
        let update_condition = is_status_open_or_fail && crew_count > 0 && crew_count < max_crew
            && mission.chief_id == chief_id;
        if !update_condition {
            if !is_status_open_or_fail {
                return Err(MissionError::State(MissionAction::Start, mission.status));
            }
            if crew_count <= 0 {
                return Err(MissionError::CapacityEmpty);
            }
            if crew_count >= max_crew {
                return Err(MissionError::CapacityFull(max_crew));
            }
            if mission.chief_id != chief_id {
                return Err(MissionError::Authorization(MissionAction::Start));
            }
            return Err(MissionError::Invalid);
        }
        Ok(MissionStatus::InProgress)
    }

    /// Decides the `complete` transition: a mission in `InProgress` moves
    /// to `Completed` when its chief asks. On success the caller persists
    /// the status and then pays the crew and the chief through
    /// [`crate::ledger::completion_awards`]; a refusal pays nobody.
    pub fn to_completed(&self, mission: &MissionEntity, chief_id: i32) -> (r: Result<
        MissionStatus,
        MissionError,
    >)
        ensures
            r == complete_outcome(mission.status, mission.chief_id, chief_id),
    {
        let is_in_progress = matches!(mission.status, MissionStatus::InProgress);
        if is_in_progress && mission.chief_id == chief_id {
            Ok(MissionStatus::Completed)
        } else if !is_in_progress {
            Err(MissionError::State(MissionAction::Complete, mission.status))
        } else if mission.chief_id != chief_id {
            Err(MissionError::Authorization(MissionAction::Complete))
        } else {
            Err(MissionError::Invalid)
        }
    }

    /// Decides the `fail` transition: a mission in `InProgress` moves to
    /// `Failed` when its chief asks. No points are paid.
    pub fn to_failed(&self, mission: &MissionEntity, chief_id: i32) -> (r: Result<
        MissionStatus,
        MissionError,
    >)
        ensures
            r == fail_outcome(mission.status, mission.chief_id, chief_id),
    {
        let is_in_progress = matches!(mission.status, MissionStatus::InProgress);
        if is_in_progress && mission.chief_id == chief_id {
            Ok(MissionStatus::Failed)
        } else if !is_in_progress {
            Err(MissionError::State(MissionAction::Fail, mission.status))
        } else if mission.chief_id != chief_id {
            Err(MissionError::Authorization(MissionAction::Fail))
        } else {
            Err(MissionError::Invalid)
        }
    }
}

/// The crew of a mission together with its chief: the participants of a
/// completion award.
pub fn participants_with_chief(crew_ids: &Vec<i32>, chief_id: i32) -> (r: Vec<i32>)
    ensures
        r@ == crew_ids@.push(chief_id),
{
    let mut r: Vec<i32> = Vec::new();
    let mut i: usize = 0;
    while i < crew_ids.len()
        invariant
            0 <= i <= crew_ids@.len(),
            r@ == crew_ids@.subrange(0, i as int),
        decreases crew_ids@.len() - i,
    {
        r.push(crew_ids[i]);
        proof {
            assert(crew_ids@.subrange(0, i as int + 1) =~= crew_ids@.subrange(0, i as int).push(
                crew_ids@[i as int],
            ));
        }
        i = i + 1;
    }
    proof {
        assert(crew_ids@.subrange(0, crew_ids@.len() as int) =~= crew_ids@);
    }
    r.push(chief_id);
    r
}

/// `start` succeeds exactly when the mission stands in `Open` or `Failed`,
/// its crew is neither empty nor at or over the limit, and the requester
/// is the chief; every other attempt is refused.
pub proof fn lemma_start_succeeds_iff(
    status: MissionStatus,
    crew_count: int,
    max_crew: int,
    mission_chief: i32,
    requester: i32,
)
    ensures
        start_outcome(status, crew_count, max_crew, mission_chief, requester) is Ok <==> ((
        status is Open || status is Failed) && 0 < crew_count && crew_count < max_crew
            && mission_chief == requester),
{
}

/// `complete` succeeds exactly when the mission stands in `InProgress` and
/// the requester is the chief.
pub proof fn lemma_complete_succeeds_iff(
    status: MissionStatus,
    mission_chief: i32,
    requester: i32,
)
    ensures
        complete_outcome(status, mission_chief, requester) is Ok <==> (status is InProgress
            && mission_chief == requester),
{
}

/// Completing a mission twice fails the second time: a mission already in
/// `Completed` refuses `complete` with the state error, whoever asks. The
/// award routine runs only on a successful transition, so a completion
/// event pays at most once.
pub proof fn lemma_complete_not_repeatable(mission_chief: i32, requester: i32)
    ensures
        complete_outcome(MissionStatus::Completed, mission_chief, requester) == Result::<
            MissionStatus,
            MissionError,
        >::Err(MissionError::State(MissionAction::Complete, MissionStatus::Completed)),
{
}

} // verus!
