use vstd::prelude::*;
use crate::error::{Cause, IntoCause};

verus! {

/// Whether `c` is an opaque error with the display text `message` whose
/// cause is what `inner` becomes when wrapped.
pub open spec fn is_wrap_of<E: IntoCause>(c: Cause, message: Seq<char>, inner: E) -> bool {
    c matches Cause::Text { message: m, inner: Some(d) } && m@ == message && inner.converts_to(*d)
}

/// Wraps an existing error with a message.
///
/// Produces an error whose display text is `message` and whose cause is
/// `inner`. It can be used as the value an [crate::Error] wraps.
pub fn wrap<E: IntoCause>(inner: E, message: &str) -> (r: Cause)
    ensures
        is_wrap_of(r, message@, inner),
{
    Cause::Text { message: String::from_str(message), inner: Some(Box::new(inner.into_cause())) }
}

} // verus!
