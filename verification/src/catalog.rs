//! Mission authoring: validation and normalization for creating, editing
//! and removing missions.
//!
//! Creation is gated by the chief's daily interaction limit and by the
//! mission name's trimmed length; edits and removals are refused while any
//! crew is aboard. An edit that moves a mission into `Completed` triggers
//! the same completion award as the explicit transition, computed from the
//! mission's points as they stood before the edit.

use vstd::prelude::*;
use crate::errors::MissionError;
use crate::models::{
    base_points_of, clone_opt_string, AddMissionEntity, AddMissionModel, EditMissionEntity,
    EditMissionModel, MissionEntity,
};
use crate::statuses::MissionStatus;
use crate::text::{trim_str, trimmed};

verus! {

/// How many missions a chief may create or join in one rolling day.
pub const DAILY_MISSION_LIMIT: i64 = 3;

/// How a blank-or-absent optional text normalizes: absent stays absent, an
/// all-whitespace value becomes absent, anything else is trimmed.
pub open spec fn normalized_opt(input: Option<String>, out: Option<String>) -> bool {
    match input {
        None => out is None,
        Some(s) => if trimmed(s@).len() == 0 {
            out is None
        } else {
            out matches Some(o) && o@ == trimmed(s@)
        },
    }
}

fn normalize_opt(input: &Option<String>) -> (r: Option<String>)
    ensures
        normalized_opt(*input, r),
{
    match input {
        None => None,
        Some(s) => {
            let t = trim_str(s.as_str());
            if t.as_str().is_empty() {
                None
            } else {
                Some(t)
            }
        },
    }
}

/// The refusal an edit meets, if any: a present-but-too-short name first,
/// then crew aboard.
pub open spec fn edit_error(name: Option<String>, crew_count: int) -> Option<MissionError> {
    if name matches Some(n) && 0 < trimmed(n@).len() < 3 {
        Some(MissionError::Validation)
    } else if crew_count > 0 {
        Some(MissionError::CrewPresent)
    } else {
        None
    }
}

/// What `remove` decides: refuse while crew is aboard, else delete.
pub open spec fn remove_outcome(crew_count: int) -> Result<(), MissionError> {
    if crew_count > 0 {
        Err(MissionError::CrewPresent)
    } else {
        Ok(())
    }
}

/// An accepted edit: the change set to persist, and the points of a
/// completion award when the edit moves the mission into `Completed`.
#[derive(Debug)]
pub struct EditPlan {
    /// The change set to write.
    pub entity: EditMissionEntity,
    /// `Some` exactly when the edit completes the mission: the base points
    /// — as they stood before the edit — to pay through
    /// [`crate::ledger::completion_awards`] to crew and chief.
    pub award_points: Option<i32>,
}

/// Validates and prepares mission creation, edits and removal. The caller
/// reads the crew count and the stored mission, lets a method here decide,
/// and persists what it returns.
pub struct MissionManagementUseCase {}

impl MissionManagementUseCase {
    pub fn new() -> (r: Self) {
        MissionManagementUseCase {  }
    }

    /// Validates a new mission and builds the row to insert. Refused when
    /// the chief's daily creation-or-join count has reached the limit, or
    /// when the name is shorter than three characters once trimmed. The
    /// name is stored as given; the description is normalized.
    pub fn add(&self, chief_id: i32, add_mission_model: AddMissionModel, daily_count: i64) -> (r:
        Result<AddMissionEntity, MissionError>)
        ensures
            r is Err <==> (daily_count >= DAILY_MISSION_LIMIT || trimmed(
                add_mission_model.name@,
            ).len() < 3),
            daily_count >= DAILY_MISSION_LIMIT ==> r == Err::<AddMissionEntity, _>(
                MissionError::Limit,
            ),
            daily_count < DAILY_MISSION_LIMIT && trimmed(add_mission_model.name@).len() < 3 ==> r
                == Err::<AddMissionEntity, _>(MissionError::Validation),
            r matches Ok(e) ==> {
                &&& e.chief_id == chief_id
                &&& e.name == add_mission_model.name
                &&& e.status == MissionStatus::Open
                &&& normalized_opt(add_mission_model.description, e.description)
                &&& e.max_crew == add_mission_model.max_crew
                &&& e.difficulty == add_mission_model.difficulty
                &&& e.base_points == base_points_of(add_mission_model.difficulty@)
                &&& e.due_date == add_mission_model.due_date
            },
    {
        if daily_count >= DAILY_MISSION_LIMIT {
            return Err(MissionError::Limit);
        }
        let trimmed_name = trim_str(add_mission_model.name.as_str());
        if trimmed_name.as_str().unicode_len() < 3 {
            return Err(MissionError::Validation);
        }
        let model = AddMissionModel {
            description: normalize_opt(&add_mission_model.description),
            ..add_mission_model
        };
        Ok(model.to_entity(chief_id))
    }

    /// Validates an edit and builds the change set. A present name is
    /// dropped when blank, refused when shorter than three trimmed
    /// characters, and stored trimmed otherwise; the description is
    /// normalized the same way; any edit is refused while crew is aboard.
    /// When the accepted edit sets the status to `Completed` and the
    /// stored mission was not completed yet, the plan carries the stored
    /// mission's base points for the completion award.
    pub fn edit(
        &self,
        chief_id: i32,
        edit_mission_model: EditMissionModel,
        crew_count: i64,
        old_mission: &MissionEntity,
    ) -> (r: Result<EditPlan, MissionError>)
        ensures
            r matches Err(e) ==> edit_error(edit_mission_model.name, crew_count as int) == Some(e),
            r is Ok <==> edit_error(edit_mission_model.name, crew_count as int) is None,
            r matches Ok(plan) ==> {
                &&& plan.entity.chief_id == chief_id
                &&& normalized_opt(edit_mission_model.name, plan.entity.name)
                &&& normalized_opt(edit_mission_model.description, plan.entity.description)
                &&& plan.entity.status == edit_mission_model.status
                &&& plan.entity.max_crew == edit_mission_model.max_crew
                &&& plan.entity.difficulty == edit_mission_model.difficulty
                &&& plan.entity.base_points == match edit_mission_model.difficulty {
                    Some(d) => Some(base_points_of(d@)),
                    None => None::<i32>,
                }
                &&& plan.entity.due_date == edit_mission_model.due_date
                &&& plan.award_points == if edit_mission_model.status == Some(
                    MissionStatus::Completed,
                ) && !(old_mission.status is Completed) {
                    Some(old_mission.base_points)
                } else {
                    None::<i32>
                }
            },
    {
        let name = match &edit_mission_model.name {
            Some(n) => {
                let t = trim_str(n.as_str());
                let len = t.as_str().unicode_len();
                if len == 0 {
                    None
                } else if len < 3 {
                    return Err(MissionError::Validation);
                } else {
                    Some(t)
                }
            },
            None => None,
        };
        let description = normalize_opt(&edit_mission_model.description);
        if crew_count > 0 {
            return Err(MissionError::CrewPresent);
        }
        let new_status = edit_mission_model.status;
        let model = EditMissionModel { name, description, ..edit_mission_model };
        let entity = model.to_entity(chief_id);
        let completes = match new_status {
            Some(s) => matches!(s, MissionStatus::Completed) && !matches!(
                old_mission.status,
                MissionStatus::Completed,
            ),
            None => false,
        };
        let award_points = if completes {
            Some(old_mission.base_points)
        } else {
            None
        };
        Ok(EditPlan { entity, award_points })
    }

    /// Decides mission removal: refused while crew is aboard.
    pub fn remove(&self, crew_count: i64) -> (r: Result<(), MissionError>)
        ensures
            r == remove_outcome(crew_count as int),
    {
        if crew_count > 0 {
            return Err(MissionError::CrewPresent);
        }
        Ok(())
    }
}

/// While crew is aboard, an edit and a removal are both refused, whatever
/// the other fields hold.
pub proof fn lemma_crewed_mission_is_locked(name: Option<String>, crew_count: int)
    requires
        crew_count > 0,
    ensures
        edit_error(name, crew_count) is Some,
        remove_outcome(crew_count) is Err,
{
}

} // verus!
