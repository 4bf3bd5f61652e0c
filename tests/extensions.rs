use human_errors::{Error, IoFailure, Kind, OptionExt, ResultExt};

#[test]
fn test_ok_or_user_err_some() {
    let value = Some(42).ok_or_user_err("No value", &["Provide a value"]).unwrap();
    assert_eq!(value, 42);
}

#[test]
fn test_ok_or_user_err_none() {
    let err = None::<i32>.ok_or_user_err("No value", &["Provide a value"]).unwrap_err();
    assert!(err.is(Kind::User));
    assert_eq!(
        err.message(),
        "No value (User error)\n\nTo try and fix this, you can:\n - Provide a value"
    );
}

#[test]
fn test_ok_or_system_err_some() {
    let value = Some(42).ok_or_system_err("No value", &["Check system"]).unwrap();
    assert_eq!(value, 42);
}

#[test]
fn test_ok_or_system_err_none() {
    let err = None::<i32>.ok_or_system_err("No value", &["Check system"]).unwrap_err();
    assert!(err.is(Kind::System));
    assert_eq!(
        err.message(),
        "No value (System failure)\n\nTo try and fix this, you can:\n - Check system"
    );
}

#[test]
fn test_into_user_error() {
    let result: Result<i32, std::io::Error> = Err(std::io::Error::other("underlying error"));

    let user_error = result
        .map_err_as_user(&["Please check your input and try again."])
        .err()
        .unwrap();

    assert!(user_error.is(Kind::User));
}

#[test]
fn test_into_system_error() {
    let result: Result<i32, std::io::Error> = Err(std::io::Error::other("underlying error"));

    let system_error = result
        .map_err_as_system(&["Please check your input and try again."])
        .err()
        .unwrap();

    assert!(system_error.is(Kind::System));
}

#[test]
fn map_err_keeps_success_and_description() {
    let ok: Result<i32, &str> = Ok(7);
    assert_eq!(ok.map_err_as_user(&["unused"]).ok(), Some(7));

    let failed: Result<i32, std::io::Error> = Err(std::io::Error::other("disk on fire"));
    let err = failed.map_err_as_system(&["Call the fire brigade."]).unwrap_err();
    assert_eq!(err.description(), "disk on fire");
    assert_eq!(err.advice(), vec!["Call the fire brigade."]);
}

#[test]
fn wrap_err_wraps_with_message_and_dedups_advice() {
    let failed: Result<i32, &str> = Err("invalid digit found in string");
    let err = failed
        .wrap_err_as_user("Failed to parse the number.", &["Provide digits only."])
        .unwrap_err();
    assert!(err.is(Kind::User));
    assert_eq!(err.description(), "Failed to parse the number.");
    assert_eq!(err.advice(), vec!["Provide digits only."]);
    assert_eq!(
        err.message(),
        "Failed to parse the number. (User error)\n\nThis was caused by:\n - invalid digit found in string\n\nTo try and fix this, you can:\n - Provide digits only."
    );

    let failed: Result<i32, &str> = Err("boom");
    let err = failed.wrap_err_as_system("Exploded.", &["Rebuild."]).unwrap_err();
    assert!(err.is(Kind::System));
    assert_eq!(err.description(), "Exploded.");
}

#[test]
fn io_failures_are_classified() {
    let err = Error::from_io_failure(IoFailure::NotFound, std::io::Error::other("no such file"));
    assert!(err.is(Kind::User));
    assert_eq!(err.description(), "Could not find the requested file.");
    assert_eq!(err.caused_by(), vec!["no such file"]);
    assert_eq!(
        err.advice(),
        vec!["Check that the file path you provided is correct and try again."]
    );

    let err = Error::from_io_failure(IoFailure::AddrInUse, "address taken");
    assert!(err.is(Kind::User));
    assert_eq!(
        err.description(),
        "The network address you are trying to bind to is already in use."
    );

    let err = Error::from_io_failure(IoFailure::Other, "broken pipe");
    assert!(err.is(Kind::System));
    assert_eq!(
        err.description(),
        "An internal error occurred which we could not recover from."
    );
}

#[test]
fn utf8_failure_is_a_user_error() {
    let err = Error::from_utf8_failure("invalid utf-8 sequence of 1 bytes from index 0");
    assert!(err.is(Kind::User));
    assert_eq!(
        err.message(),
        "We could not parse the UTF-8 content you provided. (User error)\n\nThis was caused by:\n - invalid utf-8 sequence of 1 bytes from index 0\n\nTo try and fix this, you can:\n - Make sure that you are providing us with content which is valid UTF-8."
    );
}
