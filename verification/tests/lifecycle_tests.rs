use mission_board::errors::{MissionAction, MissionError};
use mission_board::lifecycle::MissionOperationUseCase;
use mission_board::models::MissionEntity;
use mission_board::statuses::MissionStatus;

fn entity(status: MissionStatus, chief_id: i32, max_crew: i32) -> MissionEntity {
    MissionEntity {
        id: 10,
        name: String::from("Defend the outpost"),
        description: None,
        status,
        chief_id,
        created_at: 1_700_000_000,
        updated_at: 1_700_000_000,
        deleted_at: None,
        max_crew,
        difficulty: String::from("Normal"),
        base_points: 3,
        due_date: None,
    }
}

#[test]
fn start_succeeds_from_open() {
    let ops = MissionOperationUseCase::new();
    let m = entity(MissionStatus::Open, 1, 4);
    assert_eq!(ops.in_progress(&m, 2, 1), Ok(MissionStatus::InProgress));
}

#[test]
fn start_succeeds_from_failed() {
    let ops = MissionOperationUseCase::new();
    let m = entity(MissionStatus::Failed, 1, 4);
    assert_eq!(ops.in_progress(&m, 1, 1), Ok(MissionStatus::InProgress));
}

#[test]
fn start_refused_from_wrong_status_first() {
    // Wrong originating status outranks every other diagnosis: the crew is
    // empty and the requester is wrong too, but the state error wins.
    let ops = MissionOperationUseCase::new();
    let m = entity(MissionStatus::InProgress, 1, 4);
    let r = ops.in_progress(&m, 0, 9);
    assert_eq!(
        r,
        Err(MissionError::State(MissionAction::Start, MissionStatus::InProgress))
    );
    assert_eq!(
        r.unwrap_err().message(),
        "Mission status must be Open or Failed to start. Current: InProgress"
    );
}

#[test]
fn start_refused_with_empty_crew() {
    let ops = MissionOperationUseCase::new();
    let m = entity(MissionStatus::Open, 1, 4);
    let r = ops.in_progress(&m, 0, 1);
    assert_eq!(r, Err(MissionError::CapacityEmpty));
    assert_eq!(
        r.unwrap_err().message(),
        "Mission must have at least one crew member"
    );
}

#[test]
fn start_refused_with_crew_at_limit() {
    let ops = MissionOperationUseCase::new();
    let m = entity(MissionStatus::Open, 1, 4);
    let r = ops.in_progress(&m, 4, 1);
    assert_eq!(r, Err(MissionError::CapacityFull(4)));
    assert_eq!(
        r.unwrap_err().message(),
        "Mission crew limit reached or exceeded (Max: 4)"
    );
}

#[test]
fn start_by_non_chief_fails_with_authorization() {
    // An Open mission with one crew member: status and crew checks pass,
    // so a stranger's attempt is diagnosed as an authorization failure.
    let ops = MissionOperationUseCase::new();
    let m = entity(MissionStatus::Open, 1, 4);
    let r = ops.in_progress(&m, 1, 2);
    assert_eq!(r, Err(MissionError::Authorization(MissionAction::Start)));
    assert_eq!(r.unwrap_err().message(), "Only the Chief can start the mission");
}

#[test]
fn complete_succeeds_in_progress() {
    let ops = MissionOperationUseCase::new();
    let m = entity(MissionStatus::InProgress, 1, 4);
    assert_eq!(ops.to_completed(&m, 1), Ok(MissionStatus::Completed));
}

#[test]
fn complete_refused_from_open() {
    let ops = MissionOperationUseCase::new();
    let m = entity(MissionStatus::Open, 1, 4);
    let r = ops.to_completed(&m, 1);
    assert_eq!(
        r,
        Err(MissionError::State(MissionAction::Complete, MissionStatus::Open))
    );
    assert_eq!(
        r.unwrap_err().message(),
        "Mission must be In Progress to complete. Current: Open"
    );
}

#[test]
fn complete_twice_fails_with_state_error() {
    // Re-invoking complete on an already-Completed mission fails, so the
    // award flow — which runs only on success — cannot fire again.
    let ops = MissionOperationUseCase::new();
    let m = entity(MissionStatus::Completed, 1, 4);
    let r = ops.to_completed(&m, 1);
    assert_eq!(
        r,
        Err(MissionError::State(MissionAction::Complete, MissionStatus::Completed))
    );
}

#[test]
fn complete_by_non_chief_refused() {
    let ops = MissionOperationUseCase::new();
    let m = entity(MissionStatus::InProgress, 1, 4);
    let r = ops.to_completed(&m, 2);
    assert_eq!(r, Err(MissionError::Authorization(MissionAction::Complete)));
    assert_eq!(r.unwrap_err().message(), "Only the Chief can complete the mission");
}

#[test]
fn fail_succeeds_in_progress() {
    let ops = MissionOperationUseCase::new();
    let m = entity(MissionStatus::InProgress, 1, 4);
    assert_eq!(ops.to_failed(&m, 1), Ok(MissionStatus::Failed));
}

#[test]
fn fail_refused_from_completed() {
    let ops = MissionOperationUseCase::new();
    let m = entity(MissionStatus::Completed, 1, 4);
    let r = ops.to_failed(&m, 1);
    assert_eq!(
        r,
        Err(MissionError::State(MissionAction::Fail, MissionStatus::Completed))
    );
    assert_eq!(
        r.unwrap_err().message(),
        "Mission must be In Progress to fail. Current: Completed"
    );
}

#[test]
fn fail_by_non_chief_refused() {
    let ops = MissionOperationUseCase::new();
    let m = entity(MissionStatus::InProgress, 1, 4);
    let r = ops.to_failed(&m, 2);
    assert_eq!(r, Err(MissionError::Authorization(MissionAction::Fail)));
    assert_eq!(r.unwrap_err().message(), "Only the Chief can fail the mission");
}

#[test]
fn error_sides_distinguish_client_from_server() {
    assert!(MissionError::Validation.is_client_error());
    assert!(MissionError::Limit.is_client_error());
    assert!(MissionError::NotFound.is_client_error());
    assert!(MissionError::Invalid.is_client_error());
    assert!(!MissionError::Infrastructure.is_client_error());
    assert_eq!(MissionError::Invalid.message(), "Invalid condition to change stages!");
    // A corrupt row can carry a negative crew limit; the message renders it
    // with its sign.
    assert_eq!(
        MissionError::CapacityFull(-3).message(),
        "Mission crew limit reached or exceeded (Max: -3)"
    );
    assert_eq!(MissionError::NotFound.message(), "Mission not found");
    assert_eq!(MissionError::Infrastructure.message(), "Backing store failure");
}
