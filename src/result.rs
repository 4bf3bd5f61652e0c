use vstd::prelude::*;
use crate::error::{strings_view, strs_view, Cause, Error, IntoCause};
use crate::helpers::{system, user, wrap_system, wrap_user};
use crate::kind::Kind;
use crate::wrapper::is_wrap_of;

verus! {

/// Whether `x` is an error of `kind` that wraps `e` and carries `advice`.
pub open spec fn is_mapped<E: IntoCause>(x: Error, kind: Kind, e: E, advice: Seq<&str>) -> bool {
    &&& e.converts_to(x.error)
    &&& x.kind == kind
    &&& strings_view(x.advice@) == strs_view(advice)
}

/// Whether `x` is an error of `kind` with `advice` that wraps a second such
/// error, whose description is `message` and whose cause is `e`.
pub open spec fn is_wrapped<E: IntoCause>(
    x: Error,
    kind: Kind,
    e: E,
    message: Seq<char>,
    advice: Seq<&str>,
) -> bool {
    &&& x.error matches Cause::Node(w) && is_wrap_of(w.error, message, e) && w.kind == kind
        && strings_view(w.advice@) == strs_view(advice)
    &&& x.kind == kind
    &&& strings_view(x.advice@) == strs_view(advice)
}

/// Extension trait for `Result` to turn its error into an [Error].
pub trait ResultExt<T>: Sized {
    /// Keeps a success, and turns an error into a user error with the given
    /// advice.
    fn map_err_as_user(self, advice: &[&str]) -> Result<T, Error>;

    /// Keeps a success, and wraps an error in a user error with the given
    /// description and advice.
    fn wrap_err_as_user(self, message: &str, advice: &[&str]) -> Result<T, Error>;

    /// Keeps a success, and turns an error into a system error with the
    /// given advice.
    fn map_err_as_system(self, advice: &[&str]) -> Result<T, Error>;

    /// Keeps a success, and wraps an error in a system error with the given
    /// description and advice.
    fn wrap_err_as_system(self, message: &str, advice: &[&str]) -> Result<T, Error>;
}

impl<T, E: IntoCause> ResultExt<T> for Result<T, E> {
    fn map_err_as_user(self, advice: &[&str]) -> (r: Result<T, Error>)
        ensures
            match self {
                Ok(v) => r == Ok::<T, Error>(v),
                Err(e) => r matches Err(x) && is_mapped(x, Kind::User, e, advice@),
            },
    {
        match self {
            Ok(v) => Ok(v),
            Err(e) => Err(user(e, advice)),
        }
    }

    fn wrap_err_as_user(self, message: &str, advice: &[&str]) -> (r: Result<T, Error>)
        ensures
            match self {
                Ok(v) => r == Ok::<T, Error>(v),
                Err(e) => r matches Err(x) && is_wrapped(x, Kind::User, e, message@, advice@),
            },
    {
        match self {
            Ok(v) => Ok(v),
            Err(e) => Err(user(wrap_user(e, message, advice), advice)),
        }
    }

    fn map_err_as_system(self, advice: &[&str]) -> (r: Result<T, Error>)
        ensures
            match self {
                Ok(v) => r == Ok::<T, Error>(v),
                Err(e) => r matches Err(x) && is_mapped(x, Kind::System, e, advice@),
            },
    {
        match self {
            Ok(v) => Ok(v),
            Err(e) => Err(system(e, advice)),
        }
    }

    fn wrap_err_as_system(self, message: &str, advice: &[&str]) -> (r: Result<T, Error>)
        ensures
            match self {
                Ok(v) => r == Ok::<T, Error>(v),
                Err(e) => r matches Err(x) && is_wrapped(x, Kind::System, e, message@, advice@),
            },
    {
        match self {
            Ok(v) => Ok(v),
            Err(e) => Err(system(wrap_system(e, message, advice), advice)),
        }
    }
}

} // verus!
