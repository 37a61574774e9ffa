//! The status codes with which the engine answers, and the errors that a
//! failed transfer is reported as.

use vstd::prelude::*;

verus! {

pub const CURLE_OK: i32 = 0;

pub const CURLE_UNSUPPORTED_PROTOCOL: i32 = 1;

/// The engine could not create a session.
pub const CURLE_FAILED_INIT: i32 = 2;

pub const CURLE_URL_MALFORMAT: i32 = 3;

pub const CURLE_COULDNT_RESOLVE_PROXY: i32 = 5;

pub const CURLE_COULDNT_RESOLVE_HOST: i32 = 6;

pub const CURLE_COULDNT_CONNECT: i32 = 7;

pub const CURLE_WRITE_ERROR: i32 = 23;

pub const CURLE_READ_ERROR: i32 = 26;

pub const CURLE_OPERATION_TIMEDOUT: i32 = 28;

pub const CURLE_SSL_CONNECT_ERROR: i32 = 35;

pub const CURLE_ABORTED_BY_CALLBACK: i32 = 42;

pub const CURLE_TOO_MANY_REDIRECTS: i32 = 47;

pub const CURLE_PEER_FAILED_VERIFICATION: i32 = 51;

pub const CURLE_SSL_CERTPROBLEM: i32 = 58;

pub const CURLE_SSL_CIPHER: i32 = 59;

pub const CURLE_SSL_CACERT: i32 = 60;

/// What the engine says of a failure: its status code and the message that
/// it rendered for it.
#[derive(Clone, Debug, PartialEq, Eq)]
pub struct CurlError {
    pub code: i32,
    pub message: String,
}

/// The classes of failure that a transfer can end in.
#[derive(Clone, Copy, Debug, PartialEq, Eq, Structural)]
pub enum ErrorKind {
    InvalidUrl,
    UnsupportedProtocol,
    /// The host or the proxy could not be found or reached, or the transfer
    /// ran out of time.
    NetworkError,
    /// The write callback took fewer bytes than it was given.
    WriteError,
    ReadError,
    TooManyRedirects,
    /// The handshake, a certificate or the cipher failed.
    SslError,
    /// The progress callback asked for the transfer to end.
    AbortedByCallback,
    /// Any other failure that the engine reports.
    Engine,
}

/// Why a transfer failed: the class of the failure, with what the engine
/// said of it.
#[derive(Clone, Debug, PartialEq, Eq)]
pub enum Error {
    InvalidUrl(CurlError),
    UnsupportedProtocol(CurlError),
    NetworkError(CurlError),
    WriteError(CurlError),
    ReadError(CurlError),
    TooManyRedirects(CurlError),
    SslError(CurlError),
    AbortedByCallback(CurlError),
    Engine(CurlError),
}

/// The class of the failure that a status code other than
/// [`CURLE_OK`] reports.
pub open spec fn kind_of_status(code: i32) -> ErrorKind {
    if code == CURLE_URL_MALFORMAT {
        ErrorKind::InvalidUrl
    } else if code == CURLE_UNSUPPORTED_PROTOCOL {
        ErrorKind::UnsupportedProtocol
    } else if code == CURLE_COULDNT_RESOLVE_PROXY || code == CURLE_COULDNT_RESOLVE_HOST || code
        == CURLE_COULDNT_CONNECT || code == CURLE_OPERATION_TIMEDOUT {
        ErrorKind::NetworkError
    } else if code == CURLE_WRITE_ERROR {
        ErrorKind::WriteError
    } else if code == CURLE_READ_ERROR {
        ErrorKind::ReadError
    } else if code == CURLE_TOO_MANY_REDIRECTS {
        ErrorKind::TooManyRedirects
    } else if code == CURLE_SSL_CONNECT_ERROR || code == CURLE_PEER_FAILED_VERIFICATION || code
        == CURLE_SSL_CERTPROBLEM || code == CURLE_SSL_CIPHER || code == CURLE_SSL_CACERT {
        ErrorKind::SslError
    } else if code == CURLE_ABORTED_BY_CALLBACK {
        ErrorKind::AbortedByCallback
    } else {
        ErrorKind::Engine
    }
}

/// Executable form of [`kind_of_status`].
pub fn status_kind(code: i32) -> (r: ErrorKind)
    ensures
        r == kind_of_status(code),
{
    if code == CURLE_URL_MALFORMAT {
        ErrorKind::InvalidUrl
    } else if code == CURLE_UNSUPPORTED_PROTOCOL {
        ErrorKind::UnsupportedProtocol
    } else if code == CURLE_COULDNT_RESOLVE_PROXY || code == CURLE_COULDNT_RESOLVE_HOST || code
        == CURLE_COULDNT_CONNECT || code == CURLE_OPERATION_TIMEDOUT {
        ErrorKind::NetworkError
    } else if code == CURLE_WRITE_ERROR {
        ErrorKind::WriteError
    } else if code == CURLE_READ_ERROR {
        ErrorKind::ReadError
    } else if code == CURLE_TOO_MANY_REDIRECTS {
        ErrorKind::TooManyRedirects
    } else if code == CURLE_SSL_CONNECT_ERROR || code == CURLE_PEER_FAILED_VERIFICATION || code
        == CURLE_SSL_CERTPROBLEM || code == CURLE_SSL_CIPHER || code == CURLE_SSL_CACERT {
        ErrorKind::SslError
    } else if code == CURLE_ABORTED_BY_CALLBACK {
        ErrorKind::AbortedByCallback
    } else {
        ErrorKind::Engine
    }
}

impl Error {
    /// The class of the failure.
    pub open spec fn spec_kind(&self) -> ErrorKind {
        match self {
            Error::InvalidUrl(_) => ErrorKind::InvalidUrl,
            Error::UnsupportedProtocol(_) => ErrorKind::UnsupportedProtocol,
            Error::NetworkError(_) => ErrorKind::NetworkError,
            Error::WriteError(_) => ErrorKind::WriteError,
            Error::ReadError(_) => ErrorKind::ReadError,
            Error::TooManyRedirects(_) => ErrorKind::TooManyRedirects,
            Error::SslError(_) => ErrorKind::SslError,
            Error::AbortedByCallback(_) => ErrorKind::AbortedByCallback,
            Error::Engine(_) => ErrorKind::Engine,
        }
    }

    /// What the engine said of the failure.
    pub open spec fn spec_diagnostic(&self) -> CurlError {
        match self {
            Error::InvalidUrl(e) => *e,
            Error::UnsupportedProtocol(e) => *e,
            Error::NetworkError(e) => *e,
            Error::WriteError(e) => *e,
            Error::ReadError(e) => *e,
            Error::TooManyRedirects(e) => *e,
            Error::SslError(e) => *e,
            Error::AbortedByCallback(e) => *e,
            Error::Engine(e) => *e,
        }
    }

    /// The error for a status code and the message that the engine rendered
    /// for it.
    pub fn from_status(code: i32, message: String) -> (r: Error)
        ensures
            r.spec_kind() == kind_of_status(code),
            r.spec_diagnostic().code == code,
            r.spec_diagnostic().message == message,
    {
        let diagnostic = CurlError { code: code, message: message };
        match status_kind(code) {
            ErrorKind::InvalidUrl => Error::InvalidUrl(diagnostic),
            ErrorKind::UnsupportedProtocol => Error::UnsupportedProtocol(diagnostic),
            ErrorKind::NetworkError => Error::NetworkError(diagnostic),
            ErrorKind::WriteError => Error::WriteError(diagnostic),
            ErrorKind::ReadError => Error::ReadError(diagnostic),
            ErrorKind::TooManyRedirects => Error::TooManyRedirects(diagnostic),
            ErrorKind::SslError => Error::SslError(diagnostic),
            ErrorKind::AbortedByCallback => Error::AbortedByCallback(diagnostic),
            ErrorKind::Engine => Error::Engine(diagnostic),
        }
    }

    /// The class of the failure.
    #[verifier::when_used_as_spec(spec_kind)]
    pub fn kind(&self) -> (r: ErrorKind)
        ensures
            r == self.spec_kind(),
    {
        match self {
            Error::InvalidUrl(_) => ErrorKind::InvalidUrl,
            Error::UnsupportedProtocol(_) => ErrorKind::UnsupportedProtocol,
            Error::NetworkError(_) => ErrorKind::NetworkError,
            Error::WriteError(_) => ErrorKind::WriteError,
            Error::ReadError(_) => ErrorKind::ReadError,
            Error::TooManyRedirects(_) => ErrorKind::TooManyRedirects,
            Error::SslError(_) => ErrorKind::SslError,
            Error::AbortedByCallback(_) => ErrorKind::AbortedByCallback,
            Error::Engine(_) => ErrorKind::Engine,
        }
    }

    /// What the engine said of the failure.
    pub fn diagnostic(&self) -> (r: &CurlError)
        ensures
            *r == self.spec_diagnostic(),
    {
        match self {
            Error::InvalidUrl(e) => e,
            Error::UnsupportedProtocol(e) => e,
            Error::NetworkError(e) => e,
            Error::WriteError(e) => e,
            Error::ReadError(e) => e,
            Error::TooManyRedirects(e) => e,
            Error::SslError(e) => e,
            Error::AbortedByCallback(e) => e,
            Error::Engine(e) => e,
        }
    }
}

} // verus!
