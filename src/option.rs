use vstd::prelude::*;
use crate::error::{is_plain_text, strings_view, strs_view, Error};
use crate::helpers::{system, user};
use crate::kind::Kind;

verus! {

/// Whether `e` is an error of `kind` known only by `message`, with `advice`.
pub open spec fn is_plain_error(e: Error, kind: Kind, message: Seq<char>, advice: Seq<&str>) -> bool {
    &&& is_plain_text(e.error, message)
    &&& e.kind == kind
    &&& strings_view(e.advice@) == strs_view(advice)
}

/// Extension trait for `Option` to turn `None` into an [Error].
pub trait OptionExt<T>: Sized {
    /// Keeps a present value, and turns `None` into a user error with the
    /// given message and advice.
    fn ok_or_user_err(self, msg: &str, advice: &[&str]) -> Result<T, Error>;

    /// Keeps a present value, and turns `None` into a system error with the
    /// given message and advice.
    fn ok_or_system_err(self, msg: &str, advice: &[&str]) -> Result<T, Error>;
}

impl<T> OptionExt<T> for Option<T> {
    fn ok_or_user_err(self, msg: &str, advice: &[&str]) -> (r: Result<T, Error>)
        ensures
            match self {
                Some(v) => r == Ok::<T, Error>(v),
                None => r matches Err(e) && is_plain_error(e, Kind::User, msg@, advice@),
            },
    {
        match self {
            Some(value) => Ok(value),
            None => Err(user(msg, advice)),
        }
    }

    fn ok_or_system_err(self, msg: &str, advice: &[&str]) -> (r: Result<T, Error>)
        ensures
            match self {
                Some(v) => r == Ok::<T, Error>(v),
                None => r matches Err(e) && is_plain_error(e, Kind::System, msg@, advice@),
            },
    {
        match self {
            Some(value) => Ok(value),
            None => Err(system(msg, advice)),
        }
    }
}

} // verus!
