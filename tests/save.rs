use rnr_dump::dump::Operation;
use rnr_dump::error::ErrorKind;
use rnr_dump::load::{finish_load, LoadEvent};
use rnr_dump::save::{SaveAction, SaveEvent, SaveState};
use rnr_dump::timestamp::Timestamp;

fn op(s: &str, t: &str) -> Operation {
    Operation { source: s.to_string(), target: t.to_string() }
}

fn example_instant() -> Timestamp {
    Timestamp::new(2024, 3, 1, 9, 5, 22).unwrap()
}

fn located_with_home(ops: Vec<Operation>) -> (SaveState, SaveAction) {
    SaveState::locate(
        String::new(),
        ops,
        &example_instant(),
        "/work/dir".to_string(),
        Some("/home/u".to_string()),
    )
}

#[test]
fn start_asks_for_working_directory() {
    let (state, action) = SaveState::start("rnr-".to_string(), vec![op("a", "b")]);
    assert!(matches!(action, SaveAction::QueryWorkingDirectory));
    assert!(matches!(state, SaveState::Start { .. }));
}

#[test]
fn example_save_then_load() {
    let (state, action) = located_with_home(vec![]);
    match action {
        SaveAction::CheckDirectory { path } => assert_eq!(path, "/home/u/.rnr"),
        _ => panic!("expected a directory check"),
    }
    let (state, action) = state.step(SaveEvent::DirectoryChecked { exists: true });
    let log = match action {
        SaveAction::WriteLog { path, log } => {
            assert_eq!(path, "/home/u/.rnr/2024-03-01_090522.json");
            assert_eq!(log.date, "2024-03-01 09:05:22");
            assert_eq!(log.directory, "/work/dir");
            assert!(log.operations.is_empty());
            log
        }
        _ => panic!("expected a write"),
    };
    let (state, action) = state.step(SaveEvent::Written);
    assert!(matches!(state, SaveState::Finished));
    match action {
        SaveAction::Finish { outcome } => {
            assert_eq!(outcome.unwrap(), "/home/u/.rnr/2024-03-01_090522.json")
        }
        _ => panic!("expected the end"),
    }
    let loaded = finish_load("/home/u/.rnr/2024-03-01_090522.json".to_string(), LoadEvent::Parsed {
        log,
    })
    .unwrap();
    assert!(loaded.is_empty());
}

#[test]
fn no_home_falls_back_to_working_directory() {
    let (state, action) = SaveState::locate(
        "rnr-".to_string(),
        vec![op("x", "y")],
        &example_instant(),
        "/work/dir".to_string(),
        None,
    );
    match action {
        SaveAction::WriteLog { path, log } => {
            assert_eq!(path, "/work/dir/rnr-2024-03-01_090522.json");
            assert_eq!(log.operations.len(), 1);
            assert_eq!(log.operations[0].source, "x");
            assert_eq!(log.operations[0].target, "y");
        }
        _ => panic!("expected a write"),
    }
    assert!(matches!(state, SaveState::Writing { .. }));
}

#[test]
fn missing_directory_is_created_first() {
    let (state, _) = located_with_home(vec![op("a", "b")]);
    let (state, action) = state.step(SaveEvent::DirectoryChecked { exists: false });
    match action {
        SaveAction::CreateDirectory { path } => assert_eq!(path, "/home/u/.rnr"),
        _ => panic!("expected a directory creation"),
    }
    let (_, action) = state.step(SaveEvent::DirectoryCreated);
    match action {
        SaveAction::WriteLog { path, log } => {
            assert_eq!(path, "/home/u/.rnr/2024-03-01_090522.json");
            assert_eq!(log.operations[0].source, "a");
        }
        _ => panic!("expected a write"),
    }
}

#[test]
fn directory_create_failure() {
    let (state, _) = located_with_home(vec![]);
    let (state, _) = state.step(SaveEvent::DirectoryChecked { exists: false });
    let (_, action) = state.step(SaveEvent::DirectoryCreateFailed);
    match action {
        SaveAction::Finish { outcome } => {
            let e = outcome.unwrap_err();
            assert_eq!(e.kind, ErrorKind::DirectoryCreate);
            assert_eq!(e.value.as_deref(), Some("/home/u/.rnr"));
        }
        _ => panic!("expected the end"),
    }
}

fn finish_after_write(event: SaveEvent) -> (ErrorKind, Option<String>) {
    let (state, _) = located_with_home(vec![]);
    let (state, _) = state.step(SaveEvent::DirectoryChecked { exists: true });
    match state.step(event).1 {
        SaveAction::Finish { outcome } => {
            let e = outcome.unwrap_err();
            (e.kind, e.value)
        }
        _ => panic!("expected the end"),
    }
}

#[test]
fn file_create_failure() {
    let (kind, value) = finish_after_write(SaveEvent::FileCreateFailed);
    assert_eq!(kind, ErrorKind::FileCreate);
    assert_eq!(value.as_deref(), Some("/home/u/.rnr/2024-03-01_090522.json"));
}

#[test]
fn json_write_failure() {
    let (kind, value) = finish_after_write(SaveEvent::WriteFailed);
    assert_eq!(kind, ErrorKind::JsonWrite);
    assert_eq!(value.as_deref(), Some("/home/u/.rnr/2024-03-01_090522.json"));
}

#[test]
fn working_directory_failure() {
    let (state, _) = SaveState::start(String::new(), vec![]);
    let (state, action) =
        state.step(SaveEvent::WorkingDirectoryFailed { detail: "no such directory".to_string() });
    assert!(matches!(state, SaveState::Finished));
    match action {
        SaveAction::Finish { outcome } => {
            let e = outcome.unwrap_err();
            assert_eq!(e.kind, ErrorKind::EnvironmentQuery);
            assert_eq!(e.value.as_deref(), Some("no such directory"));
        }
        _ => panic!("expected the end"),
    }
}

#[test]
fn step_reads_clock_and_home() {
    let (state, _) = SaveState::start("rnr-".to_string(), vec![op("a", "b")]);
    let (_, action) = state.step(SaveEvent::WorkingDirectory { cwd: "/work/dir".to_string() });
    let path = match action {
        SaveAction::CheckDirectory { path } => path,
        SaveAction::WriteLog { path, log } => {
            assert_eq!(log.directory, "/work/dir");
            assert_eq!(log.operations.len(), 1);
            path
        }
        _ => panic!("expected a directory check or a write"),
    };
    assert!(!path.is_empty());
}

#[test]
fn accepts_only_expected_events() {
    let (state, _) = SaveState::start(String::new(), vec![]);
    assert!(state.accepts(&SaveEvent::WorkingDirectory { cwd: "/".to_string() }));
    assert!(!state.accepts(&SaveEvent::Written));
    let (state, _) = located_with_home(vec![]);
    assert!(state.accepts(&SaveEvent::DirectoryChecked { exists: true }));
    assert!(!state.accepts(&SaveEvent::DirectoryCreated));
    assert!(!SaveState::Finished.accepts(&SaveEvent::Written));
}
