//! Why signing or building a request fails.

use crate::web::UrlError;
use vstd::prelude::*;

verus! {

/// Why a request could not be signed.
#[derive(Clone, Copy, Debug, PartialEq, Eq, Structural)]
pub enum SignError {
    /// The request has a `Content-MD5` or `Content-Type` header whose value
    /// is not UTF-8.
    InvalidHeaderValue,
    /// The address of the request has no host.
    HostNotFound,
    /// The secret or the signed text is too long to be signed.
    InputTooLong,
    /// The time at which a signed URL is to expire is out of range.
    ExpiryOverflow,
    /// The address of the object could not be made.
    Url(UrlError),
}

impl SignError {
    /// The sentence that says what failed.
    pub open spec fn text(&self) -> Seq<char> {
        match self {
            SignError::InvalidHeaderValue => "a content header holds a value that is not UTF-8"@,
            SignError::HostNotFound => "host not found"@,
            SignError::InputTooLong => "the secret or the text to sign is too long"@,
            SignError::ExpiryOverflow => "the expiry time is out of range"@,
            SignError::Url(UrlError::Invalid) => "the address is not valid"@,
            SignError::Url(UrlError::TooLong) => "the address is too long"@,
        }
    }

    /// A sentence that says what failed.
    pub fn message(&self) -> (r: &'static str)
        ensures
            r@ == self.text(),
    {
        match self {
            SignError::InvalidHeaderValue => "a content header holds a value that is not UTF-8",
            SignError::HostNotFound => "host not found",
            SignError::InputTooLong => "the secret or the text to sign is too long",
            SignError::ExpiryOverflow => "the expiry time is out of range",
            SignError::Url(UrlError::Invalid) => "the address is not valid",
            SignError::Url(UrlError::TooLong) => "the address is too long",
        }
    }
}

/// Why a record could not be read from the answer of the service.
#[derive(Clone, Copy, Debug, PartialEq, Eq, Structural)]
pub enum RecordError {
    /// A field that holds a number is no number.
    InvalidNumber,
    /// A field that holds a date is no date.
    InvalidDate,
}

impl RecordError {
    /// The sentence that says what failed.
    pub open spec fn text(&self) -> Seq<char> {
        match self {
            RecordError::InvalidNumber => "a field holds no number"@,
            RecordError::InvalidDate => "a field holds no date"@,
        }
    }

    /// A sentence that says what failed.
    pub fn message(&self) -> (r: &'static str)
        ensures
            r@ == self.text(),
    {
        match self {
            RecordError::InvalidNumber => "a field holds no number",
            RecordError::InvalidDate => "a field holds no date",
        }
    }
}

} // verus!
