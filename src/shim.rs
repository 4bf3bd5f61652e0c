use vstd::prelude::*;
use crate::error::{
    advice_of, description_of, message_of, strings_view, strs_view, Cause, Error, IntoCause,
};
use crate::helpers::{system, user, wrap_system, wrap_user};
use crate::kind::Kind;
use crate::wrapper::is_wrap_of;

verus! {

/// A project's own error type in front of [Error], with the same
/// constructors and read operations, which forward to the inner error.
#[derive(Debug)]
pub struct ErrorShim(pub Error);

impl ErrorShim {
    /// A user error that wraps `error`; see [crate::user].
    pub fn user<T: IntoCause>(error: T, advice: &[&str]) -> (r: ErrorShim)
        ensures
            error.converts_to(r.0.error),
            r.0.kind == Kind::User,
            strings_view(r.0.advice@) == strs_view(advice@),
    {
        ErrorShim(user(error, advice))
    }

    /// A system error that wraps `error`; see [crate::system].
    pub fn system<T: IntoCause>(error: T, advice: &[&str]) -> (r: ErrorShim)
        ensures
            error.converts_to(r.0.error),
            r.0.kind == Kind::System,
            strings_view(r.0.advice@) == strs_view(advice@),
    {
        ErrorShim(system(error, advice))
    }

    /// A user error described by `message` with the cause `inner`; see
    /// [crate::wrap_user].
    pub fn wrap_user<E: IntoCause>(inner: E, message: &str, advice: &[&str]) -> (r: ErrorShim)
        ensures
            is_wrap_of(r.0.error, message@, inner),
            r.0.kind == Kind::User,
            strings_view(r.0.advice@) == strs_view(advice@),
    {
        ErrorShim(wrap_user(inner, message, advice))
    }

    /// A system error described by `message` with the cause `inner`; see
    /// [crate::wrap_system].
    pub fn wrap_system<E: IntoCause>(inner: E, message: &str, advice: &[&str]) -> (r: ErrorShim)
        ensures
            is_wrap_of(r.0.error, message@, inner),
            r.0.kind == Kind::System,
            strings_view(r.0.advice@) == strs_view(advice@),
    {
        ErrorShim(wrap_system(inner, message, advice))
    }

    /// The description of the inner error.
    pub fn description(&self) -> (r: String)
        ensures
            r@ == description_of(self.0),
    {
        self.0.description()
    }

    /// The plain message of the inner error.
    pub fn message(&self) -> (r: String)
        ensures
            r@ == message_of(self.0),
    {
        self.0.message()
    }

    /// The aggregated advice of the inner error.
    pub fn advice(&self) -> (r: Vec<String>)
        ensures
            strings_view(r@) == advice_of(self.0),
    {
        self.0.advice()
    }

    /// Whether the inner error is of `kind`.
    pub fn is(&self, kind: Kind) -> (r: bool)
        ensures
            r == (self.0.kind == kind),
    {
        self.0.is(kind)
    }
}

impl From<Error> for ErrorShim {
    fn from(e: Error) -> (r: ErrorShim) {
        ErrorShim(e)
    }
}

impl vstd::std_specs::convert::FromSpecImpl<Error> for ErrorShim {
    open spec fn obeys_from_spec() -> bool {
        true
    }

    open spec fn from_spec(e: Error) -> ErrorShim {
        ErrorShim(e)
    }
}

impl From<ErrorShim> for Error {
    fn from(s: ErrorShim) -> (r: Error) {
        s.0
    }
}

impl vstd::std_specs::convert::FromSpecImpl<ErrorShim> for Error {
    open spec fn obeys_from_spec() -> bool {
        true
    }

    open spec fn from_spec(s: ErrorShim) -> Error {
        s.0
    }
}

impl IntoCause for ErrorShim {
    open spec fn converts_to(&self, c: Cause) -> bool {
        self.0.converts_to(c)
    }

    fn into_cause(self) -> (c: Cause) {
        self.0.into_cause()
    }
}

} // verus!
