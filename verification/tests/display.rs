use taskmanager::display::{clip, title_width, ListRow, DEFAULT_TERMINAL_WIDTH, LIST_MARGIN};
use taskmanager::{Status, TaskManager, Timestamp};

fn at(secs: i64) -> Timestamp {
    Timestamp::new(secs, 0).expect("timestamp in range")
}

#[test]
fn title_width_leaves_the_margin() {
    assert_eq!(DEFAULT_TERMINAL_WIDTH, 95);
    assert_eq!(LIST_MARGIN, 32);
    assert_eq!(title_width(Some(120)), 88);
    assert_eq!(title_width(Some(32)), 0);
    assert_eq!(title_width(None), 63);
}

#[test]
fn clip_cuts_to_the_width() {
    assert_eq!(clip("water the plants", 5), "water");
    assert_eq!(clip("water", 5), "water");
    assert_eq!(clip("water", 6), "water");
    assert_eq!(clip("water", 0), "");
    assert_eq!(clip("", 3), "");
}

#[test]
fn clip_counts_characters_not_bytes() {
    assert_eq!(clip("übergröße", 4), "über");
    assert_eq!(clip("日本語のタスク", 3), "日本語");
}

#[test]
fn list_rows_follow_the_list() {
    let mut manager = TaskManager::new();
    manager.add_task_at("a rather long title".to_string(), at(100));
    manager.add_task_at("short".to_string(), at(200));
    manager.tasks[1].status = Status::Active;
    manager.tasks[1].urgency = 7_500;
    assert_eq!(
        manager.list_rows(8),
        vec![
            ListRow { id: 0, urgency: 3_000, title: "a rather".to_string(), status: Status::Inactive },
            ListRow { id: 1, urgency: 7_500, title: "short".to_string(), status: Status::Active },
        ]
    );
    assert!(TaskManager::new().list_rows(8).is_empty());
}
