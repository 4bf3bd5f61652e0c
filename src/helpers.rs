use vstd::prelude::*;
use crate::error::{strings_view, strs_view, Error, IntoCause};
use crate::kind::Kind;
use crate::wrapper::{is_wrap_of, wrap};

verus! {

/// An error triggered by something the user has done.
///
/// Constructs a new [Error] of kind [Kind::User] which wraps `error` and
/// carries `advice`.
pub fn user<T: IntoCause>(error: T, advice: &[&str]) -> (r: Error)
    ensures
        error.converts_to(r.error),
        r.kind == Kind::User,
        strings_view(r.advice@) == strs_view(advice@),
{
    Error::new(error, Kind::User, advice)
}

/// An error triggered by something the user has done, with a deeper cause.
///
/// Constructs a new [Error] of kind [Kind::User] whose description is
/// `message` and whose cause is `inner`.
pub fn wrap_user<E: IntoCause>(inner: E, message: &str, advice: &[&str]) -> (r: Error)
    ensures
        is_wrap_of(r.error, message@, inner),
        r.kind == Kind::User,
        strings_view(r.advice@) == strs_view(advice@),
{
    Error::new(wrap(inner, message), Kind::User, advice)
}

/// An error triggered by the system rather than the user.
///
/// Constructs a new [Error] of kind [Kind::System] which wraps `error` and
/// carries `advice`.
pub fn system<T: IntoCause>(error: T, advice: &[&str]) -> (r: Error)
    ensures
        error.converts_to(r.error),
        r.kind == Kind::System,
        strings_view(r.advice@) == strs_view(advice@),
{
    Error::new(error, Kind::System, advice)
}

/// An error triggered by the system rather than the user, with a deeper cause.
///
/// Constructs a new [Error] of kind [Kind::System] whose description is
/// `message` and whose cause is `inner`.
pub fn wrap_system<E: IntoCause>(inner: E, message: &str, advice: &[&str]) -> (r: Error)
    ensures
        is_wrap_of(r.error, message@, inner),
        r.kind == Kind::System,
        strings_view(r.advice@) == strs_view(advice@),
{
    Error::new(wrap(inner, message), Kind::System, advice)
}

} // verus!
