use mission_board::models::MissionEntity;
use mission_board::statuses::MissionStatus;
use mission_board::viewing::{MissionFilter, MissionViewingUseCase};

fn entity(id: i32, name: &str, status: MissionStatus, chief_id: i32) -> MissionEntity {
    MissionEntity {
        id,
        name: String::from(name),
        description: None,
        status,
        chief_id,
        created_at: 100,
        updated_at: 200,
        deleted_at: None,
        max_crew: 4,
        difficulty: String::from("Normal"),
        base_points: 3,
        due_date: Some(300),
    }
}

fn board() -> Vec<(MissionEntity, i64)> {
    vec![
        (entity(1, "Defend the outpost", MissionStatus::Open, 1), 2),
        (entity(2, "Scout the ridge", MissionStatus::InProgress, 2), 1),
        (entity(3, "Guard the convoy", MissionStatus::Open, 1), 0),
        (entity(4, "Raid the depot", MissionStatus::Completed, 3), 3),
        (entity(5, "Hold the bridge", MissionStatus::Open, 2), 1),
    ]
}

fn no_filter() -> MissionFilter {
    MissionFilter::default()
}

#[test]
fn get_one_merges_crew_count() {
    let viewing = MissionViewingUseCase::new();
    let e = entity(9, "Defend the outpost", MissionStatus::Open, 1);
    let m = viewing.get_one(&e, 2);
    assert_eq!(m.id, 9);
    assert_eq!(m.name, "Defend the outpost");
    assert_eq!(m.crew_count, 2);
    assert_eq!(m.status, MissionStatus::Open);
    assert_eq!(m.due_date, Some(300));
}

#[test]
fn get_all_without_filter_returns_everything() {
    let viewing = MissionViewingUseCase::new();
    let all = viewing.get_all(&board(), &no_filter());
    assert_eq!(all.len(), 5);
    assert_eq!(all[0].id, 1);
    assert_eq!(all[0].crew_count, 2);
    assert_eq!(all[4].id, 5);
}

#[test]
fn get_all_filters_by_name_substring() {
    let viewing = MissionViewingUseCase::new();
    let filter = MissionFilter {
        name: Some(String::from("the")),
        ..no_filter()
    };
    let hits = viewing.get_all(&board(), &filter);
    assert_eq!(hits.len(), 5);
    let filter = MissionFilter {
        // "ridge" sits inside "bridge" too: substring search, not words.
        name: Some(String::from("ridge")),
        ..no_filter()
    };
    let hits: Vec<i32> = viewing.get_all(&board(), &filter).iter().map(|m| m.id).collect();
    assert_eq!(hits, vec![2, 5]);
    let filter = MissionFilter {
        name: Some(String::from("Scout")),
        ..no_filter()
    };
    let hits = viewing.get_all(&board(), &filter);
    assert_eq!(hits.len(), 1);
    assert_eq!(hits[0].id, 2);
    let filter = MissionFilter {
        name: Some(String::from("dragon")),
        ..no_filter()
    };
    assert!(viewing.get_all(&board(), &filter).is_empty());
}

#[test]
fn get_all_filters_by_status_and_chief() {
    let viewing = MissionViewingUseCase::new();
    let filter = MissionFilter {
        status: Some(MissionStatus::Open),
        ..no_filter()
    };
    let open: Vec<i32> = viewing.get_all(&board(), &filter).iter().map(|m| m.id).collect();
    assert_eq!(open, vec![1, 3, 5]);
    let filter = MissionFilter {
        status: Some(MissionStatus::Open),
        chief_id: Some(2),
        ..no_filter()
    };
    let mine: Vec<i32> = viewing.get_all(&board(), &filter).iter().map(|m| m.id).collect();
    assert_eq!(mine, vec![5]);
}

#[test]
fn get_all_pages_one_based() {
    let viewing = MissionViewingUseCase::new();
    let filter = MissionFilter {
        limit: Some(2),
        page: Some(1),
        ..no_filter()
    };
    let page1: Vec<i32> = viewing.get_all(&board(), &filter).iter().map(|m| m.id).collect();
    assert_eq!(page1, vec![1, 2]);
    let filter = MissionFilter {
        limit: Some(2),
        page: Some(3),
        ..no_filter()
    };
    let page3: Vec<i32> = viewing.get_all(&board(), &filter).iter().map(|m| m.id).collect();
    assert_eq!(page3, vec![5]);
    let filter = MissionFilter {
        limit: Some(2),
        page: Some(4),
        ..no_filter()
    };
    assert!(viewing.get_all(&board(), &filter).is_empty());
    // Without a page, the first page is served.
    let filter = MissionFilter {
        limit: Some(3),
        ..no_filter()
    };
    let first: Vec<i32> = viewing.get_all(&board(), &filter).iter().map(|m| m.id).collect();
    assert_eq!(first, vec![1, 2, 3]);
}

#[test]
fn to_model_drops_soft_delete_marker_and_keeps_fields() {
    let mut e = entity(11, "Scout the ridge", MissionStatus::Failed, 4);
    e.deleted_at = Some(999);
    let m = e.to_model(7);
    assert_eq!(m.id, 11);
    assert_eq!(m.chief_id, 4);
    assert_eq!(m.crew_count, 7);
    assert_eq!(m.status, MissionStatus::Failed);
    assert_eq!(m.created_at, 100);
    assert_eq!(m.updated_at, 200);
    assert_eq!(m.difficulty, "Normal");
    assert_eq!(m.base_points, 3);
}
