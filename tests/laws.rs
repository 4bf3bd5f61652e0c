use human_errors::{user, wrap, wrap_user, Error, Kind};

#[test]
fn bare_error_message_is_the_hero_line() {
    let err = Error::new("Out of cheese.", Kind::System, &[]);
    assert_eq!(err.message(), "Out of cheese. (System failure)");
    assert!(err.caused_by().is_empty());
    assert!(err.advice().is_empty());
}

#[test]
fn two_level_advice_is_deepest_first_and_deduplicated() {
    let inner = Error::new("inner", Kind::System, &["b"]);
    let outer = Error::new(inner, Kind::User, &["a"]);
    assert_eq!(outer.advice(), vec!["b", "a"]);

    let inner = Error::new("inner", Kind::System, &["same"]);
    let outer = Error::new(inner, Kind::User, &["same"]);
    assert_eq!(outer.advice(), vec!["same"]);
}

#[test]
fn causes_and_advice_run_in_opposite_orders() {
    let low = user("Low.", &["fix low"]);
    let mid = wrap_user(low, "Mid.", &["fix mid"]);
    let top = wrap_user(mid, "Top.", &["fix top"]);
    assert_eq!(top.caused_by(), vec!["Mid.", "Low."]);
    assert_eq!(top.advice(), vec!["fix low", "fix mid", "fix top"]);
}

#[test]
fn description_round_trips_plain_text() {
    let err = user("exactly this text", &[]);
    assert_eq!(err.description(), "exactly this text");
    let err = user(wrap("deeper", "the wrapper's text"), &[]);
    assert_eq!(err.description(), "the wrapper's text");
}

#[test]
fn rate_limited_scenario() {
    let err = user(
        wrap("You got rate limited", "Something bad happened."),
        &["Avoid bad things happening in future"],
    );
    assert_eq!(err.description(), "Something bad happened.");
    let message = err.message();
    assert!(message.contains("This was caused by:\n - You got rate limited"));
    assert!(message.contains("To try and fix this, you can:\n - Avoid bad things happening in future"));
}

#[test]
fn nested_chain_advice_scenario() {
    let deepest = Error::new("Low-level failure.", Kind::System, &["Check low-level systems"]);
    let wrapped = wrap_user(deepest, "High-level issue.", &["Check high-level configuration"]);
    let top = Error::new(wrapped, Kind::User, &[]);
    assert_eq!(
        top.advice(),
        vec!["Check low-level systems", "Check high-level configuration"]
    );
}

#[test]
fn transparent_wrap_uses_inner_description() {
    let inner = user("Inner text.", &[]);
    let outer = Error::new(inner, Kind::System, &[]);
    assert_eq!(outer.description(), "Inner text.");
    assert_eq!(outer.message(), "Inner text. (System failure)");
}

#[test]
fn repeated_advice_keeps_its_deepest_occurrence() {
    let low = user("Low.", &["x", "y"]);
    let top = wrap_user(low, "Top.", &["y", "z"]);
    assert_eq!(top.advice(), vec!["y", "x", "z"]);
}
