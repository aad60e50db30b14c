//! The ways in which reading or verifying a token ends without claims.

use vstd::prelude::*;

verus! {

/// Why a decoder did not accept a token.
#[derive(Debug)]
pub enum Rejection {
    /// The verifier's own report: a malformed token, a signature that does
    /// not match, an algorithm other than the decoder's, a token past its
    /// expiry, an audience that is not expected, a required claim that is
    /// missing, key material that cannot be read.
    Verifier(jsonwebtoken::errors::ErrorKind),
    /// The token was verified, but its payload does not have the shape of the
    /// claim set that was asked for.
    Claims,
    /// The token was verified, but its audience is neither `account` nor an
    /// array that holds it.
    Audience,
}

/// Why there are no claims.  Every failure ends the work on its token:
/// nothing is tried again, and nothing is kept.
#[derive(Debug)]
pub enum Error {
    /// The payload is not JSON; the text is the parser's message.
    InvalidJson(String),
    /// The payload segment is not base64url.
    DecodeError(base64::DecodeError),
    /// The token was not accepted by its decoder, or its key material could
    /// not be read.
    JwtError(Rejection),
    /// The realm could not be asked; the text says why.
    RequestError(String),
    /// The realm answered without a public key.
    NoPublicKey(String),
    /// The token names no key, an issuer that is not a realm of the known
    /// provider, or an algorithm that is not accepted.
    InvalidToken,
}

/// The kind of an [`Error`], with the realm where it names one.
pub enum Failure {
    InvalidJson,
    DecodeError,
    JwtError,
    RequestError,
    NoPublicKey(Seq<char>),
    InvalidToken,
}

impl View for Error {
    type V = Failure;

    open spec fn view(&self) -> Failure {
        match self {
            Error::InvalidJson(_) => Failure::InvalidJson,
            Error::DecodeError(_) => Failure::DecodeError,
            Error::JwtError(_) => Failure::JwtError,
            Error::RequestError(_) => Failure::RequestError,
            Error::NoPublicKey(realm) => Failure::NoPublicKey(realm@),
            Error::InvalidToken => Failure::InvalidToken,
        }
    }
}

} // verus!
