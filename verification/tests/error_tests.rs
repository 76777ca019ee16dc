use yuxa::error::CreationError;

#[test]
fn base_messages() {
    assert_eq!(CreationError::OsError("out of handles".to_owned()).base_message(), "out of handles");
    assert_eq!(
        CreationError::NoBackendAvailable("toolkit failure".to_owned()).base_message(),
        "No backend is available"
    );
    assert_eq!(
        CreationError::RobustnessNotSupported.base_message(),
        "You requested robustness, but it is not supported."
    );
    assert_eq!(
        CreationError::OpenGlVersionNotSupported.base_message(),
        "The requested OpenGL version is not supported."
    );
    assert_eq!(
        CreationError::NoAvailablePixelFormat.base_message(),
        "Couldn't find any pixel format that matches the criteria."
    );
    assert_eq!(CreationError::PlatformSpecific("odd display".to_owned()).base_message(), "odd display");
    assert_eq!(CreationError::Window("window refused".to_owned()).base_message(), "window refused");
}

// The description of a paired error names both composed errors in quotes.
#[test]
fn pair_description_composes_both() {
    let pair = CreationError::CreationErrorPair(
        Box::new(CreationError::OsError("first failure".to_owned())),
        Box::new(CreationError::Window("second failure".to_owned())),
    );
    assert_eq!(
        pair.describe(),
        "Received two errors. Error 1: \"first failure\" Error 2: \"second failure\""
    );
}

// An unsupported-feature error repeats its detail after a colon.
#[test]
fn not_supported_repeats_detail() {
    let e = CreationError::NotSupported("no alpha".to_owned());
    assert_eq!(e.describe(), "no alpha: no alpha");
}

// Every other variant describes itself by its base message alone.
#[test]
fn plain_descriptions() {
    assert_eq!(CreationError::OsError("oops".to_owned()).describe(), "oops");
    assert_eq!(
        CreationError::NoBackendAvailable("x".to_owned()).describe(),
        "No backend is available"
    );
}

// Only the wrapping variants expose an underlying cause.
#[test]
fn cause_messages() {
    assert_eq!(
        CreationError::NoBackendAvailable("toolkit failure".to_owned()).cause_message(),
        Some("toolkit failure")
    );
    assert_eq!(CreationError::Window("w".to_owned()).cause_message(), Some("w"));
    assert_eq!(CreationError::OsError("o".to_owned()).cause_message(), None);
    assert_eq!(CreationError::RobustnessNotSupported.cause_message(), None);
}

// A nested pair is spelled out recursively.
#[test]
fn nested_pair_description() {
    let inner = CreationError::CreationErrorPair(
        Box::new(CreationError::NoAvailablePixelFormat),
        Box::new(CreationError::OsError("deep".to_owned())),
    );
    let outer = CreationError::CreationErrorPair(
        Box::new(inner),
        Box::new(CreationError::RobustnessNotSupported),
    );
    assert_eq!(
        outer.describe(),
        "Received two errors. Error 1: \"Received two errors. Error 1: \"Couldn't find any pixel format that matches the criteria.\" Error 2: \"deep\"\" Error 2: \"You requested robustness, but it is not supported.\""
    );
}
