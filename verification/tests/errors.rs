use abseil::{Error, FormatError, Persist};
use std::io::ErrorKind;

fn json_failure() -> serde_json::Error {
    match serde_json::from_str::<serde_json::Value>("{ not json") {
        Err(error) => error,
        Ok(_) => unreachable!(),
    }
}

fn toml_read_failure() -> toml::de::Error {
    match toml::from_str::<toml::Value>("state = ") {
        Err(error) => error,
        Ok(_) => unreachable!(),
    }
}

fn toml_write_failure() -> toml::ser::Error {
    match toml::to_string(&42) {
        Err(error) => error,
        Ok(_) => unreachable!(),
    }
}

#[test]
fn app_data_names_the_coordinator() {
    let persist = Persist::builder("editor").with_qualifier("org").with_organization("acme").build();
    let error = Error::AppData(persist);
    assert_eq!(error.to_string(), "unable to open storage for org/acme/editor");
}

#[test]
fn app_data_of_a_bare_application() {
    let error = Error::AppData(Persist::new("demo"));
    assert_eq!(error.to_string(), "unable to open storage for demo");
}

#[test]
fn io_error_speaks_for_itself() {
    let inner = std::io::Error::new(ErrorKind::PermissionDenied, "no entry");
    let expected = inner.to_string();
    let error = Error::from(inner);
    assert!(matches!(error, Error::IO(_)));
    assert_eq!(error.to_string(), expected);
    assert_eq!(error.to_string(), "no entry");
}

#[test]
fn serialization_error_speaks_for_the_backend() {
    let expected = json_failure().to_string();
    let error = Error::from(FormatError::from(json_failure()));
    assert!(matches!(error, Error::Serialization(FormatError::Json(_))));
    assert_eq!(error.to_string(), expected);
}

#[test]
fn format_error_keeps_its_source() {
    let json = FormatError::from(json_failure());
    assert!(matches!(json, FormatError::Json(_)));
    assert_eq!(json.to_string(), json_failure().to_string());
    let read = FormatError::from(toml_read_failure());
    assert!(matches!(read, FormatError::TomlRead(_)));
    assert_eq!(read.to_string(), toml_read_failure().to_string());
    let write = FormatError::from(toml_write_failure());
    assert!(matches!(write, FormatError::TomlWrite(_)));
    assert_eq!(write.to_string(), toml_write_failure().to_string());
}

#[test]
fn io_error_comes_back_out_unchanged() {
    let inner = std::io::Error::new(ErrorKind::NotFound, "gone");
    let back = std::io::Error::from(Error::IO(inner));
    assert_eq!(back.kind(), ErrorKind::NotFound);
    assert_eq!(back.to_string(), "gone");
}

#[test]
fn app_data_becomes_an_other_io_error() {
    let back = std::io::Error::from(Error::AppData(Persist::new("demo")));
    assert_eq!(back.kind(), ErrorKind::Other);
    assert_eq!(back.to_string(), "unable to open storage for demo");
}

#[test]
fn serialization_becomes_an_other_io_error() {
    let expected = json_failure().to_string();
    let back = std::io::Error::from(Error::Serialization(FormatError::Json(json_failure())));
    assert_eq!(back.kind(), ErrorKind::Other);
    assert_eq!(back.to_string(), expected);
}

#[test]
fn errors_can_be_debug_printed() {
    let text = format!("{:?}", Error::AppData(Persist::new("demo")));
    assert!(text.contains("AppData"));
    assert!(text.contains("demo"));
}
