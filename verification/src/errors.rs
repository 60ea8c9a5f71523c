//! The error taxonomy of the mission board.
//!
//! Business-rule failures are constructed locally with a specific,
//! user-facing message; infrastructure failures are reported by the
//! storage layer and propagate unchanged. Every variant but
//! `Infrastructure` is caused by the client's request.

use vstd::prelude::*;
use crate::statuses::MissionStatus;
use crate::text::{dec_digits, decimal};

verus! {

/// The lifecycle transition a caller attempted.
#[derive(Clone, Copy, Debug, PartialEq, Eq, Structural)]
pub enum MissionAction {
    Start,
    Complete,
    Fail,
}

/// Why a mission operation was refused.
#[derive(Clone, Copy, Debug, PartialEq, Eq, Structural)]
pub enum MissionError {
    /// A mission name was present but shorter than three characters once
    /// trimmed.
    Validation,
    /// The requester is not the mission's chief.
    Authorization(MissionAction),
    /// The transition was attempted from the wrong originating status; the
    /// status found is carried along.
    State(MissionAction, MissionStatus),
    /// A mission cannot start with no crew aboard.
    CapacityEmpty,
    /// A mission cannot start with its crew at or over the limit carried
    /// here.
    CapacityFull(i64),
    /// A mission with crew aboard cannot be edited or removed.
    CrewPresent,
    /// The chief reached the daily limit on mission creation.
    Limit,
    /// No mission exists under the requested id.
    NotFound,
    /// The backing store failed; reported by the storage layer, never by
    /// the rules here.
    Infrastructure,
    /// No specific diagnosis applied; the generic fallback.
    Invalid,
}

/// The decimal rendering of a signed number.
pub open spec fn dec_signed(n: int) -> Seq<char> {
    if n < 0 {
        seq!['-'].add(dec_digits(-n))
    } else {
        dec_digits(n)
    }
}

fn decimal_signed(n: i64) -> (r: String)
    ensures
        r@ == dec_signed(n as int),
{
    if n < 0 {
        let m: u64 = (-(n + 1)) as u64 + 1;
        let mut s = String::from_str("-");
        s.append(decimal(m).as_str());
        proof {
            reveal_strlit("-");
            assert(s@ =~= dec_signed(n as int));
        }
        s
    } else {
        decimal(n as u64)
    }
}

/// The display name of a status, as a specification value.
pub open spec fn status_name(s: MissionStatus) -> Seq<char> {
    match s {
        MissionStatus::Open => "Open"@,
        MissionStatus::InProgress => "InProgress"@,
        MissionStatus::Completed => "Completed"@,
        MissionStatus::Failed => "Failed"@,
    }
}

/// The user-facing message of an error, as a specification value.
pub open spec fn message_of(e: MissionError) -> Seq<char> {
    match e {
        MissionError::Validation => "Mission name must be at least 3 characters long."@,
        MissionError::Authorization(MissionAction::Start) => "Only the Chief can start the mission"@,
        MissionError::Authorization(MissionAction::Complete) => "Only the Chief can complete the mission"@,
        MissionError::Authorization(MissionAction::Fail) => "Only the Chief can fail the mission"@,
        MissionError::State(MissionAction::Start, cur) => "Mission status must be Open or Failed to start. Current: "@.add(
            status_name(cur),
        ),
        MissionError::State(MissionAction::Complete, cur) => "Mission must be In Progress to complete. Current: "@.add(
            status_name(cur),
        ),
        MissionError::State(MissionAction::Fail, cur) => "Mission must be In Progress to fail. Current: "@.add(
            status_name(cur),
        ),
        MissionError::CapacityEmpty => "Mission must have at least one crew member"@,
        MissionError::CapacityFull(max) => "Mission crew limit reached or exceeded (Max: "@.add(
            dec_signed(max as int),
        ).add(")"@),
        MissionError::CrewPresent => "Mission has been taken by brawler for now!"@,
        MissionError::Limit => "Daily mission limit (3) reached. You cannot create or join more missions today."@,
        MissionError::NotFound => "Mission not found"@,
        MissionError::Infrastructure => "Backing store failure"@,
        MissionError::Invalid => "Invalid condition to change stages!"@,
    }
}

impl MissionError {
    /// The user-facing message of the error.
    pub fn message(&self) -> (r: String)
        ensures
            r@ == message_of(*self),
    {
        match self {
            MissionError::Validation => String::from_str(
                "Mission name must be at least 3 characters long.",
            ),
            MissionError::Authorization(MissionAction::Start) => String::from_str(
                "Only the Chief can start the mission",
            ),
            MissionError::Authorization(MissionAction::Complete) => String::from_str(
                "Only the Chief can complete the mission",
            ),
            MissionError::Authorization(MissionAction::Fail) => String::from_str(
                "Only the Chief can fail the mission",
            ),
            MissionError::State(MissionAction::Start, cur) => {
                let mut s = String::from_str(
                    "Mission status must be Open or Failed to start. Current: ",
                );
                s.append(cur.name().as_str());
                s
            },
            MissionError::State(MissionAction::Complete, cur) => {
                let mut s = String::from_str(
                    "Mission must be In Progress to complete. Current: ",
                );
                s.append(cur.name().as_str());
                s
            },
            MissionError::State(MissionAction::Fail, cur) => {
                let mut s = String::from_str("Mission must be In Progress to fail. Current: ");
                s.append(cur.name().as_str());
                s
            },
            MissionError::CapacityEmpty => String::from_str(
                "Mission must have at least one crew member",
            ),
            MissionError::CapacityFull(max) => {
                let mut s = String::from_str("Mission crew limit reached or exceeded (Max: ");
                s.append(decimal_signed(*max).as_str());
                s.append(")");
                s
            },
            MissionError::CrewPresent => String::from_str(
                "Mission has been taken by brawler for now!",
            ),
            MissionError::Limit => String::from_str(
                "Daily mission limit (3) reached. You cannot create or join more missions today.",
            ),
            MissionError::NotFound => String::from_str("Mission not found"),
            MissionError::Infrastructure => String::from_str("Backing store failure"),
            MissionError::Invalid => String::from_str("Invalid condition to change stages!"),
        }
    }

    /// Whether the failure was caused by the client's request rather than
    /// by the backing services.
    pub fn is_client_error(&self) -> (r: bool)
        ensures
            r == !(*self is Infrastructure),
    {
        !matches!(self, MissionError::Infrastructure)
    }
}

} // verus!
