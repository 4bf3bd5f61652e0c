use vstd::prelude::*;
use crate::error::{is_plain_text, Cause, IntoCause};
use crate::wrapper::is_wrap_of;

verus! {

/// Generates a basic error with the given `message` and no deeper cause.
///
/// It can be used as the value an [crate::Error] wraps.
pub fn basic(message: &str) -> (r: Cause)
    ensures
        is_plain_text(r, message@),
{
    Cause::Text { message: String::from_str(message), inner: None }
}

/// Wraps an existing error with a basic message, the message first.
///
/// Produces an error whose display text is `message` and whose cause is
/// `inner`. It can be used as the value an [crate::Error] wraps.
pub fn wrap<E: IntoCause>(message: &str, inner: E) -> (r: Cause)
    ensures
        is_wrap_of(r, message@, inner),
{
    crate::wrapper::wrap(inner, message)
}

} // verus!
