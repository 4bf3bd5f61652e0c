use vstd::prelude::*;
use crate::error::{is_plain_text, Cause, IntoCause};

verus! {

/// An error known only by its message.
#[derive(Debug)]
pub struct BasicInternalError {
    message: String,
}

impl View for BasicInternalError {
    type V = Seq<char>;

    closed spec fn view(&self) -> Seq<char> {
        self.message@
    }
}

/// Generates an error with the given `message`.
///
/// It can be used as the value an [crate::Error] wraps.
pub fn detailed_message(message: &str) -> (r: BasicInternalError)
    ensures
        r@ == message@,
{
    BasicInternalError::from(message)
}

impl From<&str> for BasicInternalError {
    fn from(s: &str) -> (r: BasicInternalError)
        ensures
            r@ == s@,
    {
        BasicInternalError { message: String::from_str(s) }
    }
}

impl vstd::std_specs::convert::FromSpecImpl<&str> for BasicInternalError {
    open spec fn obeys_from_spec() -> bool {
        false
    }

    open spec fn from_spec(s: &str) -> BasicInternalError {
        arbitrary()
    }
}

impl BasicInternalError {
    /// The message of this error.
    pub fn message(&self) -> (r: String)
        ensures
            r@ == self@,
    {
        self.message.clone()
    }
}

impl IntoCause for BasicInternalError {
    open spec fn converts_to(&self, c: Cause) -> bool {
        is_plain_text(c, self@)
    }

    fn into_cause(self) -> (c: Cause) {
        Cause::Text { message: self.message, inner: None }
    }
}

} // verus!
