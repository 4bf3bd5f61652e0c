use human_errors::pretty::{layout, Piece};
use human_errors::{pretty, system, user, wrap_user, Tint};

fn visible_text(pieces: &[Piece]) -> String {
    pieces.iter().map(|p| p.text.as_str()).collect()
}

#[test]
fn pretty_test_renderer_basic() {
    let user_error = user(
        "Something bad happened.",
        &["Avoid bad things happening in future"],
    );

    let system_error = system(
        "Something bad happened.",
        &["Avoid bad things happening in future"],
    );

    let user_rendered = pretty(&user_error);
    let system_rendered = pretty(&system_error);

    assert!(user_rendered.contains("Something bad happened."));
    assert!(user_rendered.contains("Avoid bad things happening in future"));

    assert!(system_rendered.contains("Something bad happened."));
    assert!(system_rendered.contains("Avoid bad things happening in future"));
}

#[test]
fn pretty_test_renderer_with_cause() {
    let underlying_error = std::io::Error::other("underlying IO error");
    let wrapped_error = wrap_user(
        underlying_error,
        "Failed to read configuration file.",
        &["Ensure the file exists and is readable."],
    );

    let root_error = wrap_user(
        wrapped_error,
        "Could not start application due to a problem which resulted in an extremely long error message which we'd like to wrap nicely if possible because otherwise it's going to result in weird and broken formatting on some systems.",
        &["Check your configuration settings."],
    );

    let rendered = pretty(&root_error);

    assert!(rendered.contains("Failed to read configuration file."));
    assert!(rendered.contains("underlying IO error"));
    assert!(rendered.contains("Ensure the file exists and is readable."));
    assert!(rendered.contains("Check your configuration settings."));
}

#[test]
fn renderer_test_renderer_basic() {
    let user_error = user(
        "Something bad happened.",
        &["Avoid bad things happening in future"],
    );

    let system_error = system(
        "Something bad happened.",
        &["Avoid bad things happening in future"],
    );

    let user_rendered = pretty(&user_error);
    let system_rendered = pretty(&system_error);

    assert!(user_rendered.contains("Something bad happened."));
    assert!(user_rendered.contains("Avoid bad things happening in future"));

    assert!(system_rendered.contains("Something bad happened."));
    assert!(system_rendered.contains("Avoid bad things happening in future"));
}

#[test]
fn renderer_test_renderer_with_cause() {
    let underlying_error = std::io::Error::other("underlying IO error");
    let wrapped_error = wrap_user(
        underlying_error,
        "Failed to read configuration file.",
        &["Ensure the file exists and is readable."],
    );

    let root_error = wrap_user(
        wrapped_error,
        "Could not start application due to a problem which resulted in an extremely long error message which we'd like to wrap nicely if possible because otherwise it's going to result in weird and broken formatting on some systems.",
        &["Check your configuration settings."],
    );

    let rendered = pretty(&root_error);

    assert!(rendered.contains("Failed to read configuration file."));
    assert!(rendered.contains("underlying IO error"));
    assert!(rendered.contains("Ensure the file exists and is readable."));
    assert!(rendered.contains("Check your configuration settings."));
}

#[test]
fn long_head_wraps_into_equal_width_lines() {
    let err = user(
        "Could not start application due to a problem which resulted in an extremely long error message which we'd like to wrap nicely if possible.",
        &[],
    );
    let text = visible_text(&layout(&err));
    let lines: Vec<&str> = text.lines().collect();
    assert!(lines.len() >= 2);
    assert!(lines[0].starts_with("error(usr):    Could not start"));
    assert!(lines[1].starts_with("│              "));
    for line in &lines {
        assert_eq!(line.chars().count(), 80);
    }
}

#[test]
fn layout_of_a_short_error_is_exact() {
    let err = system("Disk full.", &["Free some space."]);
    let text = visible_text(&layout(&err));
    let expected = format!(
        "error(sys):    Disk full.{}\n\n╭─ Advice {}╮\n│ • Free some space.{}│\n╰{}╯\n",
        " ".repeat(55),
        "─".repeat(69),
        " ".repeat(59),
        "─".repeat(78)
    );
    assert_eq!(text, expected);
    for line in text.lines().filter(|l| !l.is_empty()) {
        assert_eq!(line.chars().count(), 80);
    }
}

#[test]
fn causes_get_branch_and_end_connectors() {
    let low = system("Disk failed.", &[]);
    let mid = wrap_user(low, "Could not save.", &[]);
    let top = wrap_user(mid, "Export failed.", &[]);
    let text = visible_text(&layout(&top));
    let lines: Vec<&str> = text.lines().collect();
    assert_eq!(lines.len(), 5);
    assert_eq!(lines[1], "│");
    assert!(lines[2].starts_with("├─ cause(usr): Could not save."));
    assert_eq!(lines[3], "│");
    assert!(lines[4].starts_with("╰─ cause(sys): Disk failed."));
}

#[test]
fn opaque_causes_get_a_plain_label() {
    let err = wrap_user("connection reset", "Upload failed.", &[]);
    let text = visible_text(&layout(&err));
    let lines: Vec<&str> = text.lines().collect();
    assert_eq!(lines.len(), 3);
    assert!(lines[2].starts_with("╰────── cause: connection reset"));
    assert_eq!(lines[2].chars().count(), 80);
}

#[test]
fn empty_advice_draws_no_box() {
    let err = user("Nothing to advise.", &[]);
    let text = visible_text(&layout(&err));
    assert!(!text.contains("Advice"));
    assert!(!text.contains('╭'));
    assert_eq!(text.lines().count(), 1);
    assert_eq!(err.message(), "Nothing to advise. (User error)");
}

#[test]
fn pieces_carry_their_colours() {
    let err = user("Bad input.", &["Fix it."]);
    let pieces = layout(&err);
    assert!(pieces.iter().any(|p| p.tint == Some(Tint::Yellow) && p.text == "usr"));
    assert!(pieces.iter().any(|p| p.tint == Some(Tint::BrightWhite) && p.text == "Bad input."));
    assert!(pieces.iter().any(|p| p.tint == Some(Tint::Blue) && p.text == "Advice"));
}

#[test]
fn long_advice_wraps_inside_the_box() {
    let err = user(
        "Bad.",
        &["Make sure that the file exists and is readable by the application, and that the path you gave points at a regular file."],
    );
    let text = visible_text(&layout(&err));
    let boxed: Vec<&str> = text.lines().filter(|l| l.starts_with('│')).collect();
    assert_eq!(boxed.len(), 2);
    for line in boxed {
        assert_eq!(line.chars().count(), 80);
        assert!(line.ends_with('│'));
    }
}
