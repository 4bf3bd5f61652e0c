use human_errors::basic::wrap as wrap_message_first;
use human_errors::{
    basic, detailed_message, system, user, wrap, wrap_system, wrap_user, Error, ErrorShim, Kind,
};

#[test]
fn basic_test_message_internal() {
    assert_eq!(
        user(
            wrap_message_first("Something bad happened.", basic("You got rate limited")),
            &["Avoid bad things happening in future"],
        )
        .message(),
        "Something bad happened. (User error)\n\nThis was caused by:\n - You got rate limited\n\nTo try and fix this, you can:\n - Avoid bad things happening in future"
    );

    assert_eq!(
        system(
            wrap_message_first("Something bad happened.", basic("You got rate limited")),
            &["Avoid bad things happening in future"],
        )
        .message(),
        "Something bad happened. (System failure)\n\nThis was caused by:\n - You got rate limited\n\nTo try and fix this, you can:\n - Avoid bad things happening in future"
    );
}

#[test]
fn description_test_message_internal() {
    assert_eq!(
        wrap_user(
            detailed_message("You got rate limited"),
            "Something bad happened.",
            &["Avoid bad things happening in future"],
        )
        .message(),
        "Something bad happened. (User error)\n\nThis was caused by:\n - You got rate limited\n\nTo try and fix this, you can:\n - Avoid bad things happening in future"
    );

    assert_eq!(
        wrap_system(
            detailed_message("You got rate limited"),
            "Something bad happened.",
            &["Avoid bad things happening in future"],
        )
        .message(),
        "Something bad happened. (System failure)\n\nThis was caused by:\n - You got rate limited\n\nTo try and fix this, you can:\n - Avoid bad things happening in future"
    );
}

#[test]
fn wrapper_test_message_internal() {
    assert_eq!(
        user(
            wrap("You got rate limited", "Something bad happened."),
            &["Avoid bad things happening in future"],
        )
        .message(),
        "Something bad happened. (User error)\n\nThis was caused by:\n - You got rate limited\n\nTo try and fix this, you can:\n - Avoid bad things happening in future"
    );

    assert_eq!(
        system(
            wrap("You got rate limited", "Something bad happened."),
            &["Avoid bad things happening in future"],
        )
        .message(),
        "Something bad happened. (System failure)\n\nThis was caused by:\n - You got rate limited\n\nTo try and fix this, you can:\n - Avoid bad things happening in future"
    );
}

#[test]
fn test_basic_user_error() {
    let err = Error::new(
        "Something bad happened.",
        Kind::User,
        &["Avoid bad things happening in future"],
    );

    assert!(err.is(Kind::User));
    assert_eq!(err.description(), "Something bad happened.");
    assert_eq!(
        err.message(),
        "Something bad happened. (User error)\n\nTo try and fix this, you can:\n - Avoid bad things happening in future"
    );
}

#[test]
fn test_basic_system_error() {
    let err = Error::new(
        "Something bad happened.",
        Kind::System,
        &["Avoid bad things happening in future"],
    );

    assert!(err.is(Kind::System));
    assert_eq!(err.description(), "Something bad happened.");
    assert_eq!(
        err.message(),
        "Something bad happened. (System failure)\n\nTo try and fix this, you can:\n - Avoid bad things happening in future"
    );
}

#[test]
fn test_advice_aggregation() {
    let low_level_err = Error::new(
        "Low-level failure.",
        Kind::System,
        &["Check low-level systems"],
    );

    let high_level_err = Error::new(
        low_level_err,
        Kind::User,
        &["Check high-level configuration"],
    );

    assert_eq!(
        high_level_err.advice(),
        vec!["Check low-level systems", "Check high-level configuration"]
    );
}

#[test]
fn test_error_conversion() {
    let err = ErrorShim::user("Something exploded.", &["Don't blow it up in future."]);

    assert_eq!(err.description(), "Something exploded.");
}

#[test]
fn test_description() {
    assert_eq!(
        user(
            "Something bad happened",
            &["Avoid bad things happening in future"]
        )
        .description(),
        "Something bad happened"
    );

    assert_eq!(
        system(
            "Something bad happened",
            &["Avoid bad things happening in future"]
        )
        .description(),
        "Something bad happened"
    );
}

#[test]
fn test_message_basic() {
    assert_eq!(
        user(
            "Something bad happened.",
            &["Avoid bad things happening in future"]
        )
        .message(),
        "Something bad happened. (User error)\n\nTo try and fix this, you can:\n - Avoid bad things happening in future"
    );

    assert_eq!(
        system(
            "Something bad happened.",
            &["Avoid bad things happening in future"]
        )
        .message(),
        "Something bad happened. (System failure)\n\nTo try and fix this, you can:\n - Avoid bad things happening in future"
    );
}

#[test]
fn test_message_wrapped() {
    assert_eq!(
        wrap_user(
            "You got rate limited",
            "Something bad happened.",
            &["Avoid bad things happening in future"]
        )
        .message(),
        "Something bad happened. (User error)\n\nThis was caused by:\n - You got rate limited\n\nTo try and fix this, you can:\n - Avoid bad things happening in future"
    );

    assert_eq!(
        wrap_system(
            "You got rate limited",
            "Something bad happened.",
            &["Avoid bad things happening in future"]
        )
        .message(),
        "Something bad happened. (System failure)\n\nThis was caused by:\n - You got rate limited\n\nTo try and fix this, you can:\n - Avoid bad things happening in future"
    );
}

#[test]
fn shim_forwards_to_the_inner_error() {
    let inner = ErrorShim::system("Disk failed.", &["Replace the disk."]);
    let outer = ErrorShim::wrap_user(inner, "Could not save.", &["Try another folder."]);
    assert!(outer.is(Kind::User));
    assert_eq!(outer.description(), "Could not save.");
    assert_eq!(outer.advice(), vec!["Replace the disk.", "Try another folder."]);
    let plain: Error = outer.into();
    assert_eq!(
        plain.message(),
        "Could not save. (User error)\n\nThis was caused by:\n - Disk failed.\n\nTo try and fix this, you can:\n - Replace the disk.\n - Try another folder."
    );
    let back = ErrorShim::from(plain);
    assert!(!back.is(Kind::System));
    let sys = ErrorShim::wrap_system("timeout", "Sync failed.", &[]);
    assert_eq!(sys.message(), "Sync failed. (System failure)\n\nThis was caused by:\n - timeout");
}

#[test]
fn source_skips_a_transparent_wrap() {
    let low = user("Low.", &[]);
    let mid = wrap_user(low, "Mid.", &[]);
    let top = Error::new(mid, Kind::System, &[]);
    assert_eq!(top.description(), "Mid.");
    assert_eq!(top.caused_by(), vec!["Low."]);
    assert!(top.source().is_some());
    let bare = user("alone", &[]);
    assert!(bare.source().is_none());
}
