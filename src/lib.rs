//! Errors which make your users' lives easier.
//!
//! Each error is tagged as caused by the user or by the system, carries a
//! description, an optional chain of deeper causes, and advice on how to
//! recover. The chain can be read back as a flattened, deduplicated advice
//! list and an ordered list of cause descriptions, and rendered either as a
//! plain message or as a boxed terminal presentation.

pub mod basic;
pub mod description;
pub mod error;
pub mod helpers;
pub mod kind;
pub mod laws;
pub mod option;
mod outside;
pub mod pretty;
pub mod result;
pub mod shim;
pub mod shims;
pub mod wrapper;

pub use basic::basic;
pub use description::{detailed_message, BasicInternalError};
pub use error::{Cause, Error, IntoCause};
pub use helpers::{system, user, wrap_system, wrap_user};
pub use kind::Kind;
pub use option::OptionExt;
pub use pretty::pretty;
pub use outside::Tint;
pub use result::ResultExt;
pub use shim::ErrorShim;
pub use shims::IoFailure;
pub use wrapper::wrap;
