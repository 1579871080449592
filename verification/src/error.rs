//! Classification of protocol failures: GPG-level status codes, I/O faults,
//! and the well-known codes that map to dedicated outcomes.

use vstd::prelude::*;
use vstd::string::StringExecFns;

use crate::decimal::{spec_decimal, u16_to_decimal};

verus! {

/// GPG-level status code reported when the helper times out waiting for the
/// user.
pub const CODE_TIMEOUT: u16 = 62;

/// GPG-level status code reported when the user cancels the dialog.
pub const CODE_CANCELLED: u16 = 99;

/// GPG-level status code reported when the user declines a confirmation.
/// It is deliberately not mapped to a dedicated outcome here: a confirmation
/// dialog's caller tells "declined" from "cancelled" by this code.
pub const CODE_NOT_CONFIRMED: u16 = 114;

/// The standard library's I/O error, carried through unread.
#[verifier::external_type_specification]
#[verifier::external_body]
pub struct ExIoError(std::io::Error);

/// An error reported by the helper as an `ERR` response line.
///
/// Assuan reuses the `libgpg-error` code space; only the low sixteen bits of
/// a status code form a stable GPG error code.
#[derive(Debug)]
pub struct GpgError {
    code: u16,
    description: Option<String>,
}

impl GpgError {
    /// The numeric code this error carries.
    pub closed spec fn spec_code(&self) -> u16 {
        self.code
    }

    /// The description text this error carries, if any.
    pub closed spec fn spec_description(&self) -> Option<Seq<char>> {
        self.description.deep_view()
    }

    /// Builds an error from a numeric code and an optional description.
    pub fn new(code: u16, description: Option<String>) -> (r: Self)
        ensures
            r.spec_code() == code,
            r.spec_description() == description.deep_view(),
    {
        GpgError { code, description }
    }

    /// Returns the GPG code for this error.
    pub fn code(&self) -> (c: u16)
        ensures
            c == self.spec_code(),
    {
        self.code
    }

    /// The text form of this error: the code, then the description if one
    /// was given.
    pub fn message(&self) -> (r: String)
        ensures
            r@ == spec_gpg_message(self.spec_code(), self.spec_description()),
    {
        let mut s = String::from_str("Code ");
        let digits = u16_to_decimal(self.code);
        s.append(digits.as_str());
        match &self.description {
            Some(d) => {
                s.append(": ");
                s.append(d.as_str());
            },
            None => {},
        }
        s
    }
}

/// The text form of a GPG error with the given code and description.
pub open spec fn spec_gpg_message(code: u16, description: Option<Seq<char>>) -> Seq<char> {
    let head = "Code "@ + spec_decimal(code as int);
    match description {
        Some(d) => head + ": "@ + d,
        None => head,
    }
}

/// Errors that may be returned while interacting with `pinentry` binaries.
#[derive(Debug)]
pub enum Error {
    /// The user cancelled the operation.
    Cancelled,
    /// Operation timed out waiting for the user to respond.
    Timeout,
    /// An I/O error occurred while communicating with the `pinentry` binary.
    Io(std::io::Error),
    /// An uncommon or unexpected GPG error.
    Gpg(GpgError),
}

/// What classifying a status code yields: the timeout and cancellation
/// codes map to their dedicated outcomes, every other code keeps its number
/// and description as a GPG-level error.
pub open spec fn spec_classified(r: Error, code: u16, description: Option<Seq<char>>) -> bool {
    &&& code == CODE_TIMEOUT ==> r is Timeout
    &&& code == CODE_CANCELLED ==> r is Cancelled
    &&& code != CODE_TIMEOUT && code != CODE_CANCELLED ==> (r matches Error::Gpg(g)
        && g.spec_code() == code && g.spec_description() == description)
}

impl Error {
    /// Classifies a status code: the two codes with dedicated outcomes map to
    /// them, every other code keeps its number and description.
    pub fn from_parts(code: u16, description: Option<String>) -> (r: Self)
        ensures
            spec_classified(r, code, description.deep_view()),
    {
        if code == CODE_TIMEOUT {
            Error::Timeout
        } else if code == CODE_CANCELLED {
            Error::Cancelled
        } else {
            Error::Gpg(GpgError::new(code, description))
        }
    }

    /// The text form of this error. For an I/O error it is the standard
    /// library's own text, about which nothing is claimed.
    pub fn message(&self) -> (r: String)
        ensures
            self is Timeout ==> r@ == "Operation timed out"@,
            self is Cancelled ==> r@ == "Operation cancelled"@,
            self matches Error::Gpg(g) ==> r@ == spec_gpg_message(
                g.spec_code(),
                g.spec_description(),
            ),
    {
        match self {
            Error::Timeout => String::from_str("Operation timed out"),
            Error::Cancelled => String::from_str("Operation cancelled"),
            Error::Gpg(e) => e.message(),
            Error::Io(e) => io_error_text(e),
        }
    }
}

impl From<std::io::Error> for Error {
    fn from(e: std::io::Error) -> (r: Error) {
        Error::Io(e)
    }
}

impl vstd::std_specs::convert::FromSpecImpl<std::io::Error> for Error {
    open spec fn obeys_from_spec() -> bool {
        true
    }

    open spec fn from_spec(e: std::io::Error) -> Self {
        Error::Io(e)
    }
}

/// Relies on std's `Display` for `std::io::Error`, via `ToString`: renders
/// the error's own text.
#[verifier::external_body]
fn io_error_text(e: &std::io::Error) -> String {
    e.to_string()
}

/// Relies on `std::io::Error::new`: builds an I/O error of kind
/// `InvalidData` carrying the given text, for response lines that match no
/// shape of the protocol grammar.
#[verifier::external_body]
pub(crate) fn invalid_data_error(message: &str) -> std::io::Error {
    std::io::Error::new(std::io::ErrorKind::InvalidData, message.to_string())
}

} // verus!
