//! The point ledger: converts a completed mission into capped, per-user
//! point awards.
//!
//! A brawler may have at most [`DAILY_POINT_CAP`] points attributed to one
//! rolling day, across all missions completed that day. The figure of
//! points already earned today is read after the mission's completion has
//! been persisted, so it may already include this mission's contribution;
//! the award therefore reconstructs the prior figure by subtracting the
//! mission's points first.
//!
//! Participants are awarded independently: there is no shared cap and no
//! rollback across participants, and a failure while applying one award
//! leaves the earlier ones applied (a known consistency gap of the design).

use vstd::prelude::*;

verus! {

/// The most points one brawler may earn in one rolling day.
pub const DAILY_POINT_CAP: i64 = 15;

/// What one participant is owed for a completed mission worth
/// `mission_points`, when `earned_today` points are already attributed to
/// their day (this mission included).
pub open spec fn to_add_of(mission_points: int, earned_today: int) -> int {
    let prior = if earned_today > mission_points {
        earned_today - mission_points
    } else {
        0
    };
    let allowed = if prior < DAILY_POINT_CAP as int {
        DAILY_POINT_CAP as int - prior
    } else {
        0
    };
    if mission_points < allowed {
        mission_points
    } else {
        allowed
    }
}

/// Computes one participant's award under the daily cap.
pub fn points_to_add(mission_points: i64, earned_today: i64) -> (r: i64)
    requires
        mission_points >= 0,
    ensures
        r == to_add_of(mission_points as int, earned_today as int),
        0 <= r <= mission_points,
{
    let prior = if earned_today > mission_points {
        earned_today - mission_points
    } else {
        0
    };
    let allowed = if prior < DAILY_POINT_CAP {
        DAILY_POINT_CAP - prior
    } else {
        0
    };
    if mission_points < allowed {
        mission_points
    } else {
        allowed
    }
}

/// The awards owed to a sequence of participants, each given as an id
/// paired with the points already attributed to their day. Participants
/// owed nothing receive no entry.
pub open spec fn awards_of(mission_points: int, participants: Seq<(i32, i64)>) -> Seq<(i32, i32)>
    decreases participants.len(),
{
    if participants.len() == 0 {
        Seq::empty()
    } else {
        let rest = awards_of(mission_points, participants.drop_last());
        let p = participants.last();
        let t = to_add_of(mission_points, p.1 as int);
        if t > 0 {
            rest.push((p.0, t as i32))
        } else {
            rest
        }
    }
}

/// Computes the award list for a completed mission: every participant —
/// crew and chief alike — is owed `to_add_of` the mission's points and
/// their own day's figure, independently of the others.
pub fn completion_awards(mission_points: i32, participants: &Vec<(i32, i64)>) -> (r: Vec<
    (i32, i32),
>)
    requires
        mission_points >= 0,
    ensures
        r@ == awards_of(mission_points as int, participants@),
{
    let mut r: Vec<(i32, i32)> = Vec::new();
    let mut i: usize = 0;
    while i < participants.len()
        invariant
            0 <= i <= participants@.len(),
            mission_points >= 0,
            r@ == awards_of(mission_points as int, participants@.subrange(0, i as int)),
        decreases participants@.len() - i,
    {
        let (uid, earned) = participants[i];
        let to_add = points_to_add(mission_points as i64, earned);
        if to_add > 0 {
            r.push((uid, to_add as i32));
        }
        proof {
            let pre = participants@.subrange(0, i as int);
            let post = participants@.subrange(0, i as int + 1);
            assert(post.drop_last() =~= pre);
            assert(post.last() == participants@[i as int]);
        }
        i = i + 1;
    }
    proof {
        assert(participants@.subrange(0, participants@.len() as int) =~= participants@);
    }
    r
}

/// Every participant owed a positive amount appears in the award list with
/// exactly that amount; awards never outnumber participants. Each award
/// depends only on the mission's points and the participant's own figure:
/// the cap is per user, never shared.
pub proof fn lemma_awards_pointwise(mission_points: int, participants: Seq<(i32, i64)>)
    ensures
        awards_of(mission_points, participants).len() <= participants.len(),
        forall|i: int|
            0 <= i < participants.len() && to_add_of(mission_points, participants[i].1 as int) > 0
                ==> awards_of(mission_points, participants).contains(
                (
                    participants[i].0,
                    to_add_of(mission_points, participants[i].1 as int) as i32,
                ),
            ),
    decreases participants.len(),
{
    if participants.len() > 0 {
        lemma_awards_pointwise(mission_points, participants.drop_last());
        let rest = awards_of(mission_points, participants.drop_last());
        let all = awards_of(mission_points, participants);
        assert forall|i: int|
            0 <= i < participants.len() && to_add_of(mission_points, participants[i].1 as int)
                > 0 implies all.contains(
            (participants[i].0, to_add_of(mission_points, participants[i].1 as int) as i32),
        ) by {
            let award = (participants[i].0, to_add_of(
                mission_points,
                participants[i].1 as int,
            ) as i32);
            if i < participants.len() - 1 {
                assert(participants.drop_last()[i] == participants[i]);
                assert(rest.contains(award));
                let k = choose|k: int| 0 <= k < rest.len() && rest[k] == award;
                assert(all[k] == award);
            } else {
                assert(participants.last() == participants[i]);
                assert(all.last() == award);
            }
        }
    }
}

} // verus!
