//! Mission records and the value objects that author them.
//!
//! Timestamps and due dates are carried as seconds since the Unix epoch;
//! the storage layer converts to and from its own calendar types.

use vstd::prelude::*;
use crate::statuses::MissionStatus;
use crate::text::upper_of;

verus! {

/// A mission as read back for viewing: the stored record merged with its
/// derived crew count.
#[derive(Clone, Debug)]
pub struct MissionModel {
    pub id: i32,
    pub name: String,
    pub description: Option<String>,
    pub status: MissionStatus,
    pub chief_id: i32,
    pub crew_count: i64,
    pub created_at: i64,
    pub updated_at: i64,
    pub max_crew: i32,
    pub difficulty: String,
    pub base_points: i32,
    pub due_date: Option<i64>,
}

/// The fields a caller supplies to create a mission.
#[derive(Clone, Debug)]
pub struct AddMissionModel {
    pub name: String,
    pub description: Option<String>,
    pub max_crew: i32,
    pub difficulty: String,
    pub due_date: Option<i64>,
}

/// The fields a caller may supply to edit a mission; absent fields keep
/// their stored value.
#[derive(Clone, Debug)]
pub struct EditMissionModel {
    pub name: Option<String>,
    pub description: Option<String>,
    pub status: Option<MissionStatus>,
    pub max_crew: Option<i32>,
    pub difficulty: Option<String>,
    pub due_date: Option<i64>,
}

/// A mission as the store holds it.
#[derive(Clone, Debug)]
pub struct MissionEntity {
    pub id: i32,
    pub name: String,
    pub description: Option<String>,
    pub status: MissionStatus,
    pub chief_id: i32,
    pub created_at: i64,
    pub updated_at: i64,
    pub deleted_at: Option<i64>,
    pub max_crew: i32,
    pub difficulty: String,
    pub base_points: i32,
    pub due_date: Option<i64>,
}

/// A new mission row, ready to insert.
#[derive(Clone, Debug)]
pub struct AddMissionEntity {
    pub chief_id: i32,
    pub name: String,
    pub status: MissionStatus,
    pub description: Option<String>,
    pub max_crew: i32,
    pub difficulty: String,
    pub base_points: i32,
    pub due_date: Option<i64>,
}

/// A change set for an existing mission row; absent fields stay untouched.
#[derive(Clone, Debug)]
pub struct EditMissionEntity {
    pub chief_id: i32,
    pub name: Option<String>,
    pub status: Option<MissionStatus>,
    pub description: Option<String>,
    pub max_crew: Option<i32>,
    pub difficulty: Option<String>,
    pub base_points: Option<i32>,
    pub due_date: Option<i64>,
}

/// The point value a difficulty tier is worth: `Easy` pays 1, `Hard` pays
/// 5, and anything else counts as `Normal` and pays 3. The tier is matched
/// without regard to ASCII case.
pub open spec fn base_points_of(difficulty: Seq<char>) -> i32 {
    if upper_of(difficulty) == "EASY"@ {
        1
    } else if upper_of(difficulty) == "HARD"@ {
        5
    } else {
        3
    }
}

/// Derives the base points of a difficulty tier.
pub fn derive_base_points(difficulty: &str) -> (r: i32)
    ensures
        r == base_points_of(difficulty@),
{
    proof {
        reveal_strlit("EASY");
        assert(upper_of("EASY"@) =~= "EASY"@);
        reveal_strlit("HARD");
        assert(upper_of("HARD"@) =~= "HARD"@);
    }
    if crate::text::eq_ignore_case(difficulty, "EASY") {
        1
    } else if crate::text::eq_ignore_case(difficulty, "HARD") {
        5
    } else {
        3
    }
}

/// Whatever the difficulty says, derived base points are 1, 3 or 5 — in
/// particular never negative, as the point ledger expects.
pub proof fn lemma_base_points_in_tiers(difficulty: Seq<char>)
    ensures
        base_points_of(difficulty) == 1 || base_points_of(difficulty) == 3 || base_points_of(
            difficulty,
        ) == 5,
{
}

pub(crate) fn clone_opt_string(s: &Option<String>) -> (r: Option<String>)
    ensures
        r == *s,
{
    match s {
        Some(v) => Some(v.clone()),
        None => None,
    }
}

impl AddMissionModel {
    /// Builds the row to insert: a new mission opens in `Open` with its
    /// base points derived from its difficulty.
    pub fn to_entity(&self, chief_id: i32) -> (r: AddMissionEntity)
        ensures
            r.chief_id == chief_id,
            r.name == self.name,
            r.status == MissionStatus::Open,
            r.description == self.description,
            r.max_crew == self.max_crew,
            r.difficulty == self.difficulty,
            r.base_points == base_points_of(self.difficulty@),
            r.due_date == self.due_date,
    {
        AddMissionEntity {
            chief_id,
            name: self.name.clone(),
            status: MissionStatus::Open,
            description: clone_opt_string(&self.description),
            max_crew: self.max_crew,
            difficulty: self.difficulty.clone(),
            base_points: derive_base_points(self.difficulty.as_str()),
            due_date: self.due_date,
        }
    }
}

impl EditMissionModel {
    /// Builds the change set: base points are derived anew exactly when the
    /// edit carries a difficulty.
    pub fn to_entity(&self, chief_id: i32) -> (r: EditMissionEntity)
        ensures
            r.chief_id == chief_id,
            r.name == self.name,
            r.status == self.status,
            r.description == self.description,
            r.max_crew == self.max_crew,
            r.difficulty == self.difficulty,
            r.base_points == match self.difficulty {
                Some(d) => Some(base_points_of(d@)),
                None => None::<i32>,
            },
            r.due_date == self.due_date,
    {
        let base_points = match &self.difficulty {
            Some(d) => Some(derive_base_points(d.as_str())),
            None => None,
        };
        EditMissionEntity {
            chief_id,
            name: clone_opt_string(&self.name),
            status: self.status,
            description: clone_opt_string(&self.description),
            max_crew: self.max_crew,
            difficulty: clone_opt_string(&self.difficulty),
            base_points,
            due_date: self.due_date,
        }
    }
}

/// The view model a stored record merges into, given its crew count.
pub open spec fn model_of(e: MissionEntity, crew_count: i64) -> MissionModel {
    MissionModel {
        id: e.id,
        name: e.name,
        description: e.description,
        status: e.status,
        chief_id: e.chief_id,
        crew_count,
        created_at: e.created_at,
        updated_at: e.updated_at,
        max_crew: e.max_crew,
        difficulty: e.difficulty,
        base_points: e.base_points,
        due_date: e.due_date,
    }
}

impl MissionEntity {
    /// Merges the stored record with its derived crew count into a view
    /// model; the soft-delete marker is not part of the view.
    pub fn to_model(&self, crew_count: i64) -> (r: MissionModel)
        ensures
            r == model_of(*self, crew_count),
    {
        MissionModel {
            id: self.id,
            name: self.name.clone(),
            description: clone_opt_string(&self.description),
            status: self.status,
            chief_id: self.chief_id,
            crew_count,
            created_at: self.created_at,
            updated_at: self.updated_at,
            max_crew: self.max_crew,
            difficulty: self.difficulty.clone(),
            base_points: self.base_points,
            due_date: self.due_date,
        }
    }
}

} // verus!
