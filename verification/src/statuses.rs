//! The four states of a mission's lifecycle.

use vstd::prelude::*;

verus! {

/// The status of a mission. There are no other states and no terminal
/// marker beyond these four values.
#[derive(Clone, Copy, Debug, PartialEq, Eq, Structural)]
pub enum MissionStatus {
    Open,
    InProgress,
    Completed,
    Failed,
}

impl MissionStatus {
    /// The display name of the status, as it appears in messages.
    pub fn name(&self) -> (r: String)
        ensures
            self is Open ==> r@ == "Open"@,
            self is InProgress ==> r@ == "InProgress"@,
            self is Completed ==> r@ == "Completed"@,
            self is Failed ==> r@ == "Failed"@,
    {
        match self {
            MissionStatus::Open => String::from_str("Open"),
            MissionStatus::InProgress => String::from_str("InProgress"),
            MissionStatus::Completed => String::from_str("Completed"),
            MissionStatus::Failed => String::from_str("Failed"),
        }
    }
}

} // verus!
