use vstd::prelude::*;
use vstd::string::*;
use crate::http::{ApiError, format_error, spec_format_error};
use crate::strutil::{dec_rep, u64_dec};

verus! {

/// Malformed user input: record content that does not match its type, or
/// an impossible cache-purge request.
#[derive(Clone, Debug, PartialEq, Eq)]
pub enum ValidationError {
    UnsupportedRecordType,
    InvalidIpv4,
    InvalidIpv6,
    InvalidPurgeMode,
    TooManyFiles(usize),
}

impl ValidationError {
    /// The text reported for this error.
    pub open spec fn spec_message(self) -> Seq<char> {
        match self {
            ValidationError::UnsupportedRecordType => "Record type not supported"@,
            ValidationError::InvalidIpv4 => "Invalid IPv4 address"@,
            ValidationError::InvalidIpv6 => "Invalid IPv6 address"@,
            ValidationError::InvalidPurgeMode => "Cannot purge everything and specific files at once"@,
            ValidationError::TooManyFiles(n) => "Too many files to purge; received: "@ + dec_rep(
                n as nat,
            ),
        }
    }

    pub fn message(&self) -> (r: String)
        ensures
            r@ == self.spec_message(),
    {
        match self {
            ValidationError::UnsupportedRecordType => String::from_str(
                "Record type not supported",
            ),
            ValidationError::InvalidIpv4 => String::from_str("Invalid IPv4 address"),
            ValidationError::InvalidIpv6 => String::from_str("Invalid IPv6 address"),
            ValidationError::InvalidPurgeMode => String::from_str(
                "Cannot purge everything and specific files at once",
            ),
            ValidationError::TooManyFiles(n) => {
                let mut s = String::from_str("Too many files to purge; received: ");
                let num = u64_dec(*n as u64);
                s.append(num.as_str());
                s
            },
        }
    }
}

/// A zone name that could not be turned into a zone identifier.
#[derive(Clone, Debug, PartialEq, Eq)]
pub enum ResolutionError {
    /// The listing call answered, but not with exactly one zone of that name.
    ZoneNotFound(String),
    /// The listing call itself failed.
    Transport(ApiError),
}

impl ResolutionError {
    /// The text reported for this error.
    pub open spec fn spec_message(self) -> Seq<char> {
        match self {
            ResolutionError::ZoneNotFound(name) => "Zone \""@ + name@ + "\" not found"@,
            ResolutionError::Transport(e) => spec_format_error(e),
        }
    }

    pub fn message(&self) -> (r: String)
        ensures
            r@ == self.spec_message(),
    {
        match self {
            ResolutionError::ZoneNotFound(name) => {
                let mut s = String::from_str("Zone \"");
                s.append(name.as_str());
                s.append("\" not found");
                s
            },
            ResolutionError::Transport(e) => format_error(e),
        }
    }
}

/// A credential that could not be resolved or did not pass validation.
#[derive(Clone, Debug, PartialEq, Eq)]
pub enum AuthError {
    /// An API key was supplied without the email address that goes with it.
    MissingEmailForKey,
    /// No credential flags were given and none is stored.
    NoStoredCredential,
    /// The token failed the token-status check; the payload is the full report.
    TokenInvalid(String),
    /// The email/key pair failed the user-details check; the payload is the
    /// full report.
    KeyInvalid(String),
}

impl AuthError {
    /// The text reported for this error.
    pub open spec fn spec_message(self) -> Seq<char> {
        match self {
            AuthError::MissingEmailForKey => "Either API token or API key + email pair must be provided"@,
            AuthError::NoStoredCredential => "Config file does not exist. Try running `cflare config`"@,
            AuthError::TokenInvalid(details) => details@,
            AuthError::KeyInvalid(details) => details@,
        }
    }

    pub fn message(&self) -> (r: String)
        ensures
            r@ == self.spec_message(),
    {
        match self {
            AuthError::MissingEmailForKey => String::from_str(
                "Either API token or API key + email pair must be provided",
            ),
            AuthError::NoStoredCredential => String::from_str(
                "Config file does not exist. Try running `cflare config`",
            ),
            AuthError::TokenInvalid(details) => details.clone(),
            AuthError::KeyInvalid(details) => details.clone(),
        }
    }
}

} // verus!
