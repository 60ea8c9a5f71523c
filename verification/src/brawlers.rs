//! Brawlers: the members who create, crew and complete missions.
//!
//! `total_points` only ever grows: the point ledger adds to it and nothing
//! resets it. Timestamps are seconds since the Unix epoch.

use vstd::prelude::*;

verus! {

/// A brawler as shown to other members: the stored record without its
/// credentials.
#[derive(Clone, Debug)]
pub struct Brawler {
    pub id: i32,
    pub username: String,
    pub display_name: String,
    pub avatar_url: Option<String>,
    pub total_points: i32,
}

/// A brawler as the store holds it.
#[derive(Clone, Debug)]
pub struct BrawlerEntity {
    pub id: i32,
    pub username: String,
    pub password: String,
    pub created_at: i64,
    pub updated_at: i64,
    pub display_name: String,
    pub avatar_url: Option<String>,
    pub avatar_public_id: Option<String>,
    pub total_points: i32,
}

/// The public face of a stored brawler record.
pub open spec fn brawler_of(e: BrawlerEntity) -> Brawler {
    Brawler {
        id: e.id,
        username: e.username,
        display_name: e.display_name,
        avatar_url: e.avatar_url,
        total_points: e.total_points,
    }
}

impl From<BrawlerEntity> for Brawler {
    /// Drops the credentials and bookkeeping fields of the stored record.
    fn from(entity: BrawlerEntity) -> (r: Self) {
        Brawler {
            id: entity.id,
            username: entity.username,
            display_name: entity.display_name,
            avatar_url: entity.avatar_url,
            total_points: entity.total_points,
        }
    }
}

impl vstd::std_specs::convert::FromSpecImpl<BrawlerEntity> for Brawler {
    open spec fn obeys_from_spec() -> bool {
        true
    }

    open spec fn from_spec(entity: BrawlerEntity) -> Brawler {
        brawler_of(entity)
    }
}

} // verus!
