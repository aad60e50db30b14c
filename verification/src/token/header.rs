//! The header of a token: the algorithm it claims and the key it names.
//! Nothing in a header is trusted; it only says where to look.

use jsonwebtoken::errors::ErrorKind;
use vstd::prelude::*;
use crate::error::Error;
use crate::error::Failure;
use crate::error::Rejection;

verus! {

/// The signature algorithms that a header can name.
#[derive(Clone, Copy, Debug, PartialEq, Eq, Structural)]
pub enum SignatureAlgorithm {
    HS256,
    HS384,
    HS512,
    ES256,
    ES384,
    RS256,
    RS384,
    RS512,
    PS256,
    PS384,
    PS512,
    EdDSA,
}

impl SignatureAlgorithm {
    /// Whether this is one of the three RSA signatures with PKCS#1 padding,
    /// the only ones that a realm's key is used with.
    pub open spec fn is_rsa(self) -> bool {
        self == SignatureAlgorithm::RS256 || self == SignatureAlgorithm::RS384 || self
            == SignatureAlgorithm::RS512
    }

    /// Whether this is one of the three accepted RSA signatures.
    pub fn accepted(self) -> (r: bool)
        ensures
            r == self.is_rsa(),
    {
        match self {
            SignatureAlgorithm::RS256 => true,
            SignatureAlgorithm::RS384 => true,
            SignatureAlgorithm::RS512 => true,
            _ => false,
        }
    }
}

/// What is read of a token's header.
#[derive(Debug)]
pub struct TokenHeader {
    pub alg: SignatureAlgorithm,
    pub kid: Option<String>,
}

/// The mathematical value of a [`TokenHeader`].
pub struct HeaderView {
    pub alg: SignatureAlgorithm,
    pub kid: Option<Seq<char>>,
}

impl View for TokenHeader {
    type V = HeaderView;

    open spec fn view(&self) -> HeaderView {
        HeaderView {
            alg: self.alg,
            kid: match self.kid {
                Some(kid) => Some(kid@),
                None => None,
            },
        }
    }
}

/// `jsonwebtoken::Algorithm`.
#[verifier::external_type_specification]
#[verifier::external_body]
pub struct ExAlgorithm(jsonwebtoken::Algorithm);

/// `jsonwebtoken::errors::ErrorKind`, what the verifier reports.
#[verifier::external_type_specification]
#[verifier::external_body]
pub struct ExErrorKind(jsonwebtoken::errors::ErrorKind);

/// The header that `jsonwebtoken::decode_header` reads from a token, where
/// it reads one.
pub uninterp spec fn header_parsing(token: Seq<char>) -> Option<HeaderView>;

/// Gives a `jsonwebtoken::Algorithm` as the [`SignatureAlgorithm`] of the
/// same name.
#[verifier::external_body]
pub(crate) fn algorithm_of(alg: jsonwebtoken::Algorithm) -> SignatureAlgorithm {
    match alg {
        jsonwebtoken::Algorithm::HS256 => SignatureAlgorithm::HS256,
        jsonwebtoken::Algorithm::HS384 => SignatureAlgorithm::HS384,
        jsonwebtoken::Algorithm::HS512 => SignatureAlgorithm::HS512,
        jsonwebtoken::Algorithm::ES256 => SignatureAlgorithm::ES256,
        jsonwebtoken::Algorithm::ES384 => SignatureAlgorithm::ES384,
        jsonwebtoken::Algorithm::RS256 => SignatureAlgorithm::RS256,
        jsonwebtoken::Algorithm::RS384 => SignatureAlgorithm::RS384,
        jsonwebtoken::Algorithm::RS512 => SignatureAlgorithm::RS512,
        jsonwebtoken::Algorithm::PS256 => SignatureAlgorithm::PS256,
        jsonwebtoken::Algorithm::PS384 => SignatureAlgorithm::PS384,
        jsonwebtoken::Algorithm::PS512 => SignatureAlgorithm::PS512,
        jsonwebtoken::Algorithm::EdDSA => SignatureAlgorithm::EdDSA,
    }
}

/// Calls `jsonwebtoken::decode_header` and keeps the algorithm and the key
/// identifier of what it read.  The call splits the token at its last two
/// dots, decodes what stands before them as base64url and reads that as the
/// JSON of a header; it checks no signature.  It depends on the token alone,
/// so its result is named by [`header_parsing`], which is `None` exactly
/// where the call reports an error; the error comes back as its kind.
#[verifier::external_body]
pub(crate) fn parse_header(token: &str) -> (r: Result<TokenHeader, ErrorKind>)
    ensures
        match r {
            Ok(header) => header_parsing(token@) == Some(header@),
            Err(_) => header_parsing(token@) is None,
        },
{
    match jsonwebtoken::decode_header(token) {
        Ok(h) => Ok(TokenHeader { alg: algorithm_of(h.alg), kid: h.kid }),
        Err(e) => Err(e.into_kind()),
    }
}

impl TokenHeader {
    /// Reads the header of a token without checking its signature.
    pub fn read(token: &str) -> (r: Result<TokenHeader, Error>)
        ensures
            match r {
                Ok(header) => header_parsing(token@) == Some(header@),
                Err(e) => header_parsing(token@) is None && e@ == Failure::JwtError,
            },
    {
        match parse_header(token) {
            Ok(header) => Ok(header),
            Err(e) => Err(Error::JwtError(Rejection::Verifier(e))),
        }
    }
}

} // verus!
