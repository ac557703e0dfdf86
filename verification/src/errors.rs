//! Structured error type for library code.
//!
//! [`AppError`] tells three failures apart: an I/O failure, which carries the
//! underlying error; a configuration error, which carries a message; and a
//! missing resource, which carries its kind and the identifier looked up.

use vstd::prelude::*;
use vstd::std_specs::convert::FromSpecImpl;
use vstd::string::{to_string_from_display_ensures, StringExecFns};

verus! {

/// The I/O error of the standard library, carried through as it is: nothing
/// in this crate looks inside one.
#[verifier::external_type_specification]
#[verifier::external_body]
pub struct ExIoError(std::io::Error);

/// Application-specific errors.
#[derive(Debug)]
#[non_exhaustive]
pub enum AppError {
    /// An I/O operation failed.
    Io(std::io::Error),
    /// A configuration error occurred.
    Config(String),
    /// A required resource was not found.
    NotFound {
        /// The type of resource that was not found.
        resource: &'static str,
        /// The identifier that was looked up.
        id: String,
    },
}

/// The message of an I/O failure whose underlying error reads `detail`.
pub open spec fn io_text(detail: Seq<char>) -> Seq<char> {
    "I/O error: "@ + detail
}

/// The message of a configuration error.
pub open spec fn config_text(message: Seq<char>) -> Seq<char> {
    "configuration error: "@ + message
}

/// The message of a missing resource.
pub open spec fn not_found_text(resource: Seq<char>, id: Seq<char>) -> Seq<char> {
    resource + " not found: "@ + id
}

impl AppError {
    /// Whether `shown` is a message of this error.
    ///
    /// A configuration error and a missing resource have exactly one message.
    /// An I/O failure has the message of the underlying error, whatever that
    /// error displays, behind a fixed prefix.
    pub open spec fn has_message(&self, shown: Seq<char>) -> bool {
        match self {
            AppError::Io(source) => exists|detail: String|
                #![auto]
                to_string_from_display_ensures::<std::io::Error>(source, detail) && shown == io_text(
                    detail@,
                ),
            AppError::Config(message) => shown == config_text(message@),
            AppError::NotFound { resource, id } => shown == not_found_text(resource@, id@),
        }
    }

    /// The message of this error, as one line for people to read.
    pub fn to_string(&self) -> (shown: String)
        ensures
            self.has_message(shown@),
    {
        match self {
            AppError::Io(source) => {
                let detail = source.to_string();
                io_message(detail.as_str())
            },
            AppError::Config(message) => {
                let mut shown = String::from_str("configuration error: ");
                shown.append(message.as_str());
                shown
            },
            AppError::NotFound { resource, id } => {
                let mut shown = String::from_str(resource);
                shown.append(" not found: ");
                shown.append(id.as_str());
                shown
            },
        }
    }
}

/// The message of an I/O failure, given what the underlying error displays.
pub fn io_message(detail: &str) -> (shown: String)
    ensures
        shown@ == io_text(detail@),
{
    let mut shown = String::from_str("I/O error: ");
    shown.append(detail);
    shown
}

impl From<std::io::Error> for AppError {
    /// Wraps an I/O error, so that `?` turns one into an [`AppError`].
    fn from(source: std::io::Error) -> (error: AppError) {
        AppError::Io(source)
    }
}

impl FromSpecImpl<std::io::Error> for AppError {
    open spec fn obeys_from_spec() -> bool {
        true
    }

    open spec fn from_spec(source: std::io::Error) -> AppError {
        AppError::Io(source)
    }
}

} // verus!
