use abseil::{Error, FormatError, Persist, StoreAction, StoreEvent};
use directories::ProjectDirs;
use std::io::ErrorKind;
use std::path::PathBuf;

fn json_failure() -> serde_json::Error {
    match serde_json::from_str::<serde_json::Value>("]") {
        Err(error) => error,
        Ok(_) => unreachable!(),
    }
}

#[test]
fn store_starts_by_looking_for_the_directory() {
    let persist = Persist::new("demo");
    let expected = ProjectDirs::from("", "", "demo").expect("a home directory");
    match persist.store(StoreEvent::Start) {
        StoreAction::Probe(dir) => assert_eq!(dir, expected.config_dir()),
        _ => panic!("the resolver has a home directory to go by"),
    }
}

#[test]
fn store_looks_in_the_location_it_is_given() {
    let persist = Persist::new("demo");
    let location = ProjectDirs::from("org", "acme", "other").expect("a home directory");
    let expected = location.config_dir().to_path_buf();
    match persist.store(StoreEvent::Located(Some(location))) {
        StoreAction::Probe(dir) => assert_eq!(dir, expected),
        _ => panic!("a location was given"),
    }
}

#[test]
fn store_without_a_location_fails_with_app_data() {
    let persist = Persist::builder("demo").with_organization("acme").build();
    match persist.store(StoreEvent::Located(None)) {
        StoreAction::Done(Err(Error::AppData(named))) => {
            assert_eq!(named.identity(), ("", "acme", "demo"));
        }
        _ => panic!("no location was given"),
    }
}

#[test]
fn store_creates_a_missing_directory() {
    let persist = Persist::new("demo");
    let dir = PathBuf::from("/home/alice/.config/demo");
    match persist.store(StoreEvent::Probed { dir: dir.clone(), exists: false }) {
        StoreAction::Create(created) => assert_eq!(created, dir),
        _ => panic!("the directory is missing"),
    }
}

#[test]
fn store_leaves_an_existing_directory_alone() {
    let persist = Persist::new("demo");
    let dir = PathBuf::from("/home/alice/.config/demo");
    match persist.store(StoreEvent::Probed { dir: dir.clone(), exists: true }) {
        StoreAction::Serialize { path, pretty } => {
            assert_eq!(path, dir.join("persist.json"));
            assert!(pretty);
        }
        _ => panic!("the directory is there"),
    }
}

#[test]
fn store_serializes_once_the_directory_is_created() {
    let persist = Persist::new("demo");
    let dir = PathBuf::from("/home/alice/.config/demo");
    match persist.store(StoreEvent::Created { dir: dir.clone(), outcome: Ok(()) }) {
        StoreAction::Serialize { path, pretty } => {
            assert_eq!(path, dir.join("persist.json"));
            assert!(pretty);
        }
        _ => panic!("the directory was created"),
    }
}

#[test]
fn store_asks_for_the_compact_form_when_built_so() {
    let persist = Persist::builder("demo").compact().build();
    let dir = PathBuf::from("/home/alice/.config/demo");
    match persist.store(StoreEvent::Probed { dir: dir.clone(), exists: true }) {
        StoreAction::Serialize { pretty, .. } => assert!(!pretty),
        _ => panic!("the directory is there"),
    }
    match persist.store(StoreEvent::Created { dir, outcome: Ok(()) }) {
        StoreAction::Serialize { pretty, .. } => assert!(!pretty),
        _ => panic!("the directory was created"),
    }
}

#[test]
fn store_reports_a_directory_that_cannot_be_created() {
    let persist = Persist::new("demo");
    let dir = PathBuf::from("/home/alice/.config/demo");
    let failure = std::io::Error::new(ErrorKind::PermissionDenied, "read-only");
    match persist.store(StoreEvent::Created { dir, outcome: Err(failure) }) {
        StoreAction::Done(Err(Error::IO(error))) => {
            assert_eq!(error.kind(), ErrorKind::PermissionDenied);
            assert_eq!(error.to_string(), "read-only");
        }
        _ => panic!("creating failed"),
    }
}

#[test]
fn store_writes_the_text_of_the_backend() {
    let persist = Persist::new("demo");
    let path = PathBuf::from("/home/alice/.config/demo/persist.json");
    let text = Ok(String::from("{\"state\":42}"));
    match persist.store(StoreEvent::Serialized { path: path.clone(), text }) {
        StoreAction::Write { path: target, text } => {
            assert_eq!(target, path);
            assert_eq!(text, "{\"state\":42}");
        }
        _ => panic!("serializing succeeded"),
    }
}

#[test]
fn store_reports_a_state_that_cannot_be_serialized() {
    let persist = Persist::new("demo");
    let path = PathBuf::from("/home/alice/.config/demo/persist.json");
    let expected = json_failure().to_string();
    let text = Err(FormatError::from(json_failure()));
    match persist.store(StoreEvent::Serialized { path, text }) {
        StoreAction::Done(Err(Error::Serialization(error))) => {
            assert_eq!(error.to_string(), expected);
        }
        _ => panic!("serializing failed"),
    }
}

#[test]
fn store_ends_well_once_written() {
    let persist = Persist::new("demo");
    assert!(matches!(persist.store(StoreEvent::Written(Ok(()))), StoreAction::Done(Ok(()))));
}

#[test]
fn store_reports_a_failed_write() {
    let persist = Persist::new("demo");
    let failure = std::io::Error::new(ErrorKind::StorageFull, "disk full");
    match persist.store(StoreEvent::Written(Err(failure))) {
        StoreAction::Done(Err(Error::IO(error))) => {
            assert_eq!(error.kind(), ErrorKind::StorageFull);
            assert_eq!(error.to_string(), "disk full");
        }
        _ => panic!("writing failed"),
    }
}
