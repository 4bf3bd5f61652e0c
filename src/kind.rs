use vstd::prelude::*;

verus! {

/// The kind of error which occurred.
///
/// Distinguishes between errors which were the result of user actions
/// and those which were the result of system failures. Conceptually
/// similar to HTTP status codes in that 4xx errors are user-caused
/// and 5xx errors are system-caused.
#[derive(Debug, Clone, Copy, PartialEq, Eq, Structural)]
pub enum Kind {
    /// An error which was the result of actions that the user took.
    ///
    /// These errors are usually things which a user can easily resolve by
    /// changing how they interact with the system. Advice should be used
    /// to guide the user to the correct interaction paths.
    User,
    /// An error which was the result of the system failing rather than the user's actions.
    ///
    /// These issues usually cannot be resolved by the user directly, so the
    /// advice should guide them to the best way to raise a bug.
    System,
}

/// The text appended to a description to mark the kind of failure.
pub open spec fn kind_tag(kind: Kind) -> Seq<char> {
    match kind {
        Kind::User => " (User error)"@,
        Kind::System => " (System failure)"@,
    }
}

/// The hero line: the description followed by the kind's tag.
pub open spec fn hero_text(kind: Kind, description: Seq<char>) -> Seq<char> {
    description + kind_tag(kind)
}

impl Kind {
    /// Formats a description as the top line of a message for this kind.
    pub fn format_description(&self, description: &str) -> (r: String)
        ensures
            r@ == hero_text(*self, description@),
    {
        let mut r = String::from_str(description);
        match self {
            Kind::User => r.append(" (User error)"),
            Kind::System => r.append(" (System failure)"),
        }
        r
    }
}

} // verus!
