use vstd::prelude::*;
use crate::error::{strings_view, Cause, Error, IntoCause};
use crate::helpers::{wrap_system, wrap_user};
use crate::kind::Kind;
use crate::wrapper::is_wrap_of;

verus! {

/// std's `io::Error`, carried as an opaque value: only its display text is
/// read, through `ToString`.
#[verifier::external_type_specification]
#[verifier::external_body]
pub struct ExIoError(std::io::Error);

/// Whether `c` is an opaque error whose display text is what
/// `to_string` gives for `e`, with no deeper cause.
pub open spec fn is_display_of<T: std::fmt::Display>(c: Cause, e: &T) -> bool {
    c matches Cause::Text { message, inner } && inner is None
        && vstd::string::to_string_from_display_ensures::<T>(e, message)
}

impl IntoCause for std::io::Error {
    open spec fn converts_to(&self, c: Cause) -> bool {
        is_display_of(c, self)
    }

    fn into_cause(self) -> (c: Cause) {
        Cause::Text { message: self.to_string(), inner: None }
    }
}

/// The classes of platform I/O failure that an [Error] is made from.
#[derive(Debug, Clone, Copy, PartialEq, Eq, Structural)]
pub enum IoFailure {
    NotFound,
    PermissionDenied,
    AlreadyExists,
    AddrInUse,
    DirectoryNotEmpty,
    /// Any other failure.
    Other,
}

/// The kind of error an I/O failure of a class is: the caller's own for
/// the named classes, the system's for the rest.
pub open spec fn io_kind(f: IoFailure) -> Kind {
    match f {
        IoFailure::Other => Kind::System,
        _ => Kind::User,
    }
}

/// The description given to an I/O failure of a class.
pub open spec fn io_message(f: IoFailure) -> Seq<char> {
    match f {
        IoFailure::NotFound => "Could not find the requested file."@,
        IoFailure::PermissionDenied => "Permission denied when trying to access the requested resource."@,
        IoFailure::AlreadyExists => "The file or directory you are trying to create already exists."@,
        IoFailure::AddrInUse => "The network address you are trying to bind to is already in use."@,
        IoFailure::DirectoryNotEmpty => "The directory you are trying to remove is not empty."@,
        IoFailure::Other => "An internal error occurred which we could not recover from."@,
    }
}

/// The advice given for an I/O failure of a class.
pub open spec fn io_advice(f: IoFailure) -> Seq<char> {
    match f {
        IoFailure::NotFound => "Check that the file path you provided is correct and try again."@,
        IoFailure::PermissionDenied => "Check the file permissions and ensure that the application has access to the resource."@,
        IoFailure::AlreadyExists => "Choose a different file name or delete the existing file and try again."@,
        IoFailure::AddrInUse => "Make sure no other application is using the same address and try again."@,
        IoFailure::DirectoryNotEmpty => "Delete all files and subdirectories within the directory before attempting to remove it."@,
        IoFailure::Other => "Please read the internal error below and decide if there is something you can do to fix the problem, or report it to us on GitHub."@,
    }
}

/// The description given to text that is not valid UTF-8.
pub open spec fn utf8_message() -> Seq<char> {
    "We could not parse the UTF-8 content you provided."@
}

/// The advice given for text that is not valid UTF-8.
pub open spec fn utf8_advice() -> Seq<char> {
    "Make sure that you are providing us with content which is valid UTF-8."@
}

impl Error {
    /// Makes an error from a platform I/O failure of class `failure`: a
    /// canned description and advice for the class, wrapping `err`.
    pub fn from_io_failure<E: IntoCause>(failure: IoFailure, err: E) -> (r: Error)
        ensures
            is_wrap_of(r.error, io_message(failure), err),
            r.kind == io_kind(failure),
            strings_view(r.advice@) == seq![io_advice(failure)],
    {
        let r = match failure {
            IoFailure::NotFound => wrap_user(
                err,
                "Could not find the requested file.",
                &["Check that the file path you provided is correct and try again."],
            ),
            IoFailure::PermissionDenied => wrap_user(
                err,
                "Permission denied when trying to access the requested resource.",
                &["Check the file permissions and ensure that the application has access to the resource."],
            ),
            IoFailure::AlreadyExists => wrap_user(
                err,
                "The file or directory you are trying to create already exists.",
                &["Choose a different file name or delete the existing file and try again."],
            ),
            IoFailure::AddrInUse => wrap_user(
                err,
                "The network address you are trying to bind to is already in use.",
                &["Make sure no other application is using the same address and try again."],
            ),
            IoFailure::DirectoryNotEmpty => wrap_user(
                err,
                "The directory you are trying to remove is not empty.",
                &["Delete all files and subdirectories within the directory before attempting to remove it."],
            ),
            IoFailure::Other => wrap_system(
                err,
                "An internal error occurred which we could not recover from.",
                &["Please read the internal error below and decide if there is something you can do to fix the problem, or report it to us on GitHub."],
            ),
        };
        assert(strings_view(r.advice@) =~= seq![io_advice(failure)]);
        r
    }

    /// Makes a user error from text that is not valid UTF-8, wrapping `err`.
    pub fn from_utf8_failure<E: IntoCause>(err: E) -> (r: Error)
        ensures
            is_wrap_of(r.error, utf8_message(), err),
            r.kind == Kind::User,
            strings_view(r.advice@) == seq![utf8_advice()],
    {
        let r = wrap_user(
            err,
            "We could not parse the UTF-8 content you provided.",
            &["Make sure that you are providing us with content which is valid UTF-8."],
        );
        assert(strings_view(r.advice@) =~= seq![utf8_advice()]);
        r
    }
}

} // verus!
