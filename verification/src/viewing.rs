//! The read path: merging stored missions with their crew counts and
//! filtering the list for display.
//!
//! A filter may narrow the list by a name substring, a status, and a
//! chief, and may page the result. Pages are one-based: with a limit of
//! `l`, page `p` holds entries `(p - 1) * l` through `p * l - 1` of the
//! filtered list. Without a limit the whole filtered list is returned.

use vstd::prelude::*;
use crate::models::{model_of, MissionEntity, MissionModel};
use crate::statuses::MissionStatus;
use crate::text::{contains_seq, contains_str};

verus! {

/// What a mission listing may be narrowed by. Absent fields do not narrow.
#[derive(Clone, Debug)]
pub struct MissionFilter {
    pub name: Option<String>,
    pub status: Option<MissionStatus>,
    pub chief_id: Option<i32>,
    pub page: Option<i64>,
    pub limit: Option<i64>,
}

impl Default for MissionFilter {
    /// The filter that narrows nothing.
    fn default() -> (r: Self)
        ensures
            r.name is None,
            r.status is None,
            r.chief_id is None,
            r.page is None,
            r.limit is None,
    {
        MissionFilter { name: None, status: None, chief_id: None, page: None, limit: None }
    }
}

/// Whether a stored mission passes a filter's narrowing fields.
pub open spec fn matches_filter(e: MissionEntity, filter: MissionFilter) -> bool {
    &&& match filter.name {
        Some(n) => contains_seq(e.name@, n@),
        None => true,
    }
    &&& match filter.status {
        Some(s) => e.status == s,
        None => true,
    }
    &&& match filter.chief_id {
        Some(c) => e.chief_id == c,
        None => true,
    }
}

/// The filtered view of a list of stored missions, each paired with its
/// crew count, in their stored order.
pub open spec fn filtered_models(entries: Seq<(MissionEntity, i64)>, filter: MissionFilter) -> Seq<
    MissionModel,
>
    decreases entries.len(),
{
    if entries.len() == 0 {
        Seq::empty()
    } else {
        let rest = filtered_models(entries.drop_last(), filter);
        let last = entries.last();
        if matches_filter(last.0, filter) {
            rest.push(model_of(last.0, last.1))
        } else {
            rest
        }
    }
}

/// The page a filter selects from a sequence: one-based page `p` of `l`
/// entries each. A missing limit selects everything; a missing or
/// nonpositive page counts as the first; a negative limit as zero.
pub open spec fn paged<T>(s: Seq<T>, page: Option<i64>, limit: Option<i64>) -> Seq<T> {
    match limit {
        None => s,
        Some(l0) => {
            let l = if l0 < 0 {
                0
            } else {
                l0 as int
            };
            let p = match page {
                Some(p0) => if p0 < 1 {
                    1
                } else {
                    p0 as int
                },
                None => 1,
            };
            let off = (p - 1) * l;
            if off >= s.len() {
                Seq::empty()
            } else if off + l >= s.len() {
                s.subrange(off, s.len() as int)
            } else {
                s.subrange(off, off + l)
            }
        },
    }
}

fn clone_model(m: &MissionModel) -> (r: MissionModel)
    ensures
        r == *m,
{
    MissionModel {
        id: m.id,
        name: m.name.clone(),
        description: crate::models::clone_opt_string(&m.description),
        status: m.status,
        chief_id: m.chief_id,
        crew_count: m.crew_count,
        created_at: m.created_at,
        updated_at: m.updated_at,
        max_crew: m.max_crew,
        difficulty: m.difficulty.clone(),
        base_points: m.base_points,
        due_date: m.due_date,
    }
}

fn matches(e: &MissionEntity, filter: &MissionFilter) -> (r: bool)
    ensures
        r == matches_filter(*e, *filter),
{
    let name_ok = match &filter.name {
        Some(n) => contains_str(e.name.as_str(), n.as_str()),
        None => true,
    };
    let status_ok = match &filter.status {
        Some(s) => e.status == *s,
        None => true,
    };
    let chief_ok = match &filter.chief_id {
        Some(c) => e.chief_id == *c,
        None => true,
    };
    name_ok && status_ok && chief_ok
}

/// Serves the read side: single-mission detail and the filtered listing.
/// The caller reads the stored records and their crew counts and hands
/// them here to be merged and narrowed.
pub struct MissionViewingUseCase {}

impl MissionViewingUseCase {
    pub fn new() -> (r: Self) {
        MissionViewingUseCase {  }
    }

    /// Merges one stored mission with its crew count for detail display.
    pub fn get_one(&self, entity: &MissionEntity, crew_count: i64) -> (r: MissionModel)
        ensures
            r == model_of(*entity, crew_count),
    {
        entity.to_model(crew_count)
    }

    /// Narrows a list of stored missions, each paired with its crew count,
    /// to the filter's page of matching view models, keeping the stored
    /// order.
    pub fn get_all(&self, entries: &Vec<(MissionEntity, i64)>, filter: &MissionFilter) -> (r: Vec<
        MissionModel,
    >)
        ensures
            r@ == paged(filtered_models(entries@, *filter), filter.page, filter.limit),
    {
        let mut all: Vec<MissionModel> = Vec::new();
        let mut i: usize = 0;
        while i < entries.len()
            invariant
                0 <= i <= entries@.len(),
                all@ == filtered_models(entries@.subrange(0, i as int), *filter),
            decreases entries@.len() - i,
        {
            let entry = &entries[i];
            if matches(&entry.0, filter) {
                all.push(entry.0.to_model(entry.1));
            }
            proof {
                let post = entries@.subrange(0, i as int + 1);
                assert(post.drop_last() =~= entries@.subrange(0, i as int));
                assert(post.last() == entries@[i as int]);
            }
            i = i + 1;
        }
        proof {
            assert(entries@.subrange(0, entries@.len() as int) =~= entries@);
        }
        let len = all.len();
        let (skip, take) = match filter.limit {
            None => (0usize, len),
            Some(l0) => {
                let l: u64 = if l0 < 0 {
                    0
                } else {
                    l0 as u64
                };
                let p: u64 = match filter.page {
                    Some(p0) => if p0 < 1 {
                        1
                    } else {
                        p0 as u64
                    },
                    None => 1,
                };
                let off: u64 = match (p - 1).checked_mul(l) {
                    Some(o) => o,
                    None => u64::MAX,
                };
                let len64 = len as u64;
                let skip64 = if off >= len64 {
                    len64
                } else {
                    off
                };
                let remaining = len64 - skip64;
                let take64 = if l >= remaining {
                    remaining
                } else {
                    l
                };
                ((skip64 as usize), (take64 as usize))
            },
        };
        let mut out: Vec<MissionModel> = Vec::new();
        let mut k: usize = skip;
        while k < skip + take
            invariant
                skip <= k <= skip + take,
                skip + take <= all@.len(),
                out@ == all@.subrange(skip as int, k as int),
            decreases skip + take - k,
        {
            out.push(clone_model(&all[k]));
            proof {
                assert(all@.subrange(skip as int, k as int + 1) =~= all@.subrange(
                    skip as int,
                    k as int,
                ).push(all@[k as int]));
            }
            k = k + 1;
        }
        proof {
            assert(out@ =~= paged(all@, filter.page, filter.limit));
        }
        out
    }
}

} // verus!
