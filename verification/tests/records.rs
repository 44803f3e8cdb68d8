use video_service::status::{TaskState, TaskStatus};
use video_service::store::StatusStore;

fn record(progress: u32, status: &str, message: &str) -> TaskStatus {
    TaskStatus { progress, status: status.to_string(), message: message.to_string() }
}

#[test]
fn starting_record_shows_no_progress() {
    assert_eq!(TaskStatus::starting(), record(0, "starting", "Starting processing..."));
}

#[test]
fn processing_record_shows_the_step() {
    assert_eq!(
        TaskStatus::processing(25, "Transcoding to 720p...".to_string()),
        record(25, "processing", "Transcoding to 720p...")
    );
}

#[test]
fn completed_record_shows_full_progress() {
    assert_eq!(TaskStatus::completed(), record(100, "completed", "Processing completed"));
}

#[test]
fn failed_record_keeps_the_progress_and_says_why() {
    assert_eq!(
        TaskStatus::failed(50, "ffmpeg thumbnail generation failed".to_string()),
        record(50, "error", "ffmpeg thumbnail generation failed")
    );
}

#[test]
fn states_are_read_from_their_words() {
    assert_eq!(TaskState::Starting.label(), "starting");
    assert_eq!(TaskState::Processing.label(), "processing");
    assert_eq!(TaskState::Completed.label(), "completed");
    assert_eq!(TaskState::Error.label(), "error");
    let states =
        [TaskState::Starting, TaskState::Processing, TaskState::Completed, TaskState::Error];
    for state in states {
        assert_eq!(TaskState::from_label(state.label()), Some(state));
    }
    assert_eq!(TaskState::from_label("done"), None);
    assert_eq!(TaskState::from_label("Starting"), None);
    assert_eq!(TaskState::from_label(""), None);
}

#[test]
fn a_record_knows_its_state() {
    assert_eq!(TaskStatus::starting().state(), Some(TaskState::Starting));
    assert_eq!(TaskStatus::processing(0, String::new()).state(), Some(TaskState::Processing));
    assert_eq!(TaskStatus::completed().state(), Some(TaskState::Completed));
    assert_eq!(TaskStatus::failed(0, String::new()).state(), Some(TaskState::Error));
    assert_eq!(record(0, "paused", "").state(), None);
}

#[test]
fn only_completed_and_error_are_terminal() {
    assert!(!TaskStatus::starting().is_terminal());
    assert!(!TaskStatus::processing(99, String::new()).is_terminal());
    assert!(TaskStatus::completed().is_terminal());
    assert!(TaskStatus::failed(10, String::new()).is_terminal());
    assert!(!record(0, "paused", "").is_terminal());
}

#[test]
fn duplicate_copies_every_field() {
    let shown = record(42, "processing", "Generating thumbnail...");
    assert_eq!(shown.duplicate(), shown);
}

#[test]
fn a_fresh_store_knows_no_task() {
    let store = StatusStore::new();
    assert_eq!(store.get("t1"), None);
    assert_eq!(store.get(""), None);
}

#[test]
fn get_returns_what_was_set() {
    let mut store = StatusStore::new();
    store.set("t1".to_string(), TaskStatus::starting());
    assert_eq!(store.get("t1"), Some(TaskStatus::starting()));
    assert_eq!(store.get("t2"), None);
}

#[test]
fn get_returns_the_latest_record() {
    let mut store = StatusStore::new();
    store.set("t1".to_string(), TaskStatus::starting());
    store.set("t1".to_string(), record(25, "processing", "Transcoding to 720p..."));
    assert_eq!(store.get("t1"), Some(record(25, "processing", "Transcoding to 720p...")));
    store.set("t1".to_string(), TaskStatus::completed());
    assert_eq!(store.get("t1"), Some(TaskStatus::completed()));
    store.set("t1".to_string(), TaskStatus::completed());
    assert_eq!(store.get("t1"), Some(TaskStatus::completed()));
}

#[test]
fn tasks_do_not_touch_each_other() {
    let mut store = StatusStore::new();
    store.set("t1".to_string(), TaskStatus::starting());
    store.set("t2".to_string(), record(50, "processing", "Generating thumbnail..."));
    store.set("t1".to_string(), TaskStatus::failed(0, "Unknown format".to_string()));
    assert_eq!(store.get("t2"), Some(record(50, "processing", "Generating thumbnail...")));
    assert_eq!(store.get("t1"), Some(record(0, "error", "Unknown format")));
    assert_eq!(store.get("t3"), None);
}

#[test]
fn many_tasks_keep_their_own_records() {
    let mut store = StatusStore::new();
    for n in 0u32..100 {
        store.set(format!("task-{}", n), record(n % 100, "processing", "step"));
    }
    for n in 0u32..100 {
        assert_eq!(store.get(&format!("task-{}", n)), Some(record(n % 100, "processing", "step")));
    }
    assert_eq!(store.get("task-100"), None);
}
