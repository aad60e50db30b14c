//! The decoder that verifies tokens against one signing key.

use jsonwebtoken::errors::ErrorKind;
use vstd::prelude::*;
use vstd::string::*;
use crate::error::Error;
use crate::error::Failure;
use crate::error::Rejection;
use crate::json::json_content;
use crate::json::views;
use crate::json::Json;
use crate::json::JsonValue;
use crate::token::claims::claims_of;
use crate::token::claims::logout_claims_of;
use crate::token::claims::ClaimsView;
use crate::token::claims::LogoutClaimsView;
use crate::token::compact::signed_json;
use crate::token::header::header_parsing;
use crate::token::header::SignatureAlgorithm;

pub use crate::token::claims::Claims;
pub use crate::token::claims::LogoutClaims;
pub use crate::token::claims::PartialClaims;
pub use crate::token::claims::RealmAccess;
pub use crate::token::claims::ResourceAccess;

verus! {

/// What a verifier checks of a token besides its signature.
#[derive(Debug)]
pub struct ValidationPolicy {
    /// The one algorithm that the token's header may name.
    pub algorithm: SignatureAlgorithm,
    /// Where there is one: the audiences of which the token must name at
    /// least one, if it names any.
    pub audience: Option<Vec<String>>,
    /// Whether a token past its expiry is turned away.
    pub validate_exp: bool,
    /// The claims that the token must carry.
    pub required_claims: Vec<String>,
}

/// The mathematical value of a [`ValidationPolicy`].
pub struct PolicyView {
    pub algorithm: SignatureAlgorithm,
    pub audience: Option<Set<Seq<char>>>,
    pub validate_exp: bool,
    pub required_claims: Set<Seq<char>>,
}

impl View for ValidationPolicy {
    type V = PolicyView;

    open spec fn view(&self) -> PolicyView {
        PolicyView {
            algorithm: self.algorithm,
            audience: match self.audience {
                Some(audience) => Some(views(audience@).to_set()),
                None => None,
            },
            validate_exp: self.validate_exp,
            required_claims: views(self.required_claims@).to_set(),
        }
    }
}

/// The policy for access tokens: the audience must include `account`, the
/// expiry is enforced and must be there.
pub open spec fn access_policy(algorithm: SignatureAlgorithm) -> PolicyView {
    PolicyView {
        algorithm,
        audience: Some(set![access_audience()]),
        validate_exp: true,
        required_claims: set!["exp"@],
    }
}

/// The policy for logout tokens: no audience is asked for and the expiry is
/// not looked at, since a logout may be announced after the session's token
/// has expired; subject, issuer and audience must be there.
pub open spec fn logout_policy(algorithm: SignatureAlgorithm) -> PolicyView {
    PolicyView {
        algorithm,
        audience: None,
        validate_exp: false,
        required_claims: set!["sub"@, "iss"@, "aud"@],
    }
}

/// What sets the two policies apart.  Both hold to the one algorithm.  The
/// access policy turns away a token past its expiry and asks for the expiry
/// to be there; the logout policy does neither, and asks for subject, issuer
/// and audience instead.
pub proof fn logout_policy_is_relaxed(algorithm: SignatureAlgorithm)
    ensures
        access_policy(algorithm).algorithm == algorithm,
        logout_policy(algorithm).algorithm == algorithm,
        access_policy(algorithm).validate_exp,
        access_policy(algorithm).required_claims.contains("exp"@),
        !logout_policy(algorithm).validate_exp,
        !logout_policy(algorithm).required_claims.contains("exp"@),
        forall|claim: Seq<char>|
            logout_policy(algorithm).required_claims.contains(claim) <==> claim == "sub"@
                || claim == "iss"@ || claim == "aud"@,
{
    reveal_strlit("exp");
    reveal_strlit("sub");
    reveal_strlit("iss");
    reveal_strlit("aud");
    assert("exp"@[0] == 'e' && "sub"@[0] == 's' && "iss"@[0] == 'i' && "aud"@[0] == 'a');
}

/// A copy of `texts`, text by text.
fn copy_of(texts: &Vec<String>) -> (r: Vec<String>)
    ensures
        views(r@) == views(texts@),
{
    let mut r: Vec<String> = Vec::new();
    let mut i: usize = 0;
    while i < texts.len()
        invariant
            i <= texts@.len(),
            r@.len() == i,
            forall|j: int| 0 <= j < i ==> r@[j]@ == texts@[j]@,
        decreases texts@.len() - i,
    {
        r.push(texts[i].clone());
        i += 1;
    }
    assert(views(r@) =~= views(texts@));
    r
}

impl Clone for ValidationPolicy {
    /// A policy that checks the same.
    fn clone(&self) -> (r: Self)
        ensures
            r@ == self@,
    {
        ValidationPolicy {
            algorithm: self.algorithm,
            audience: match &self.audience {
                Some(audience) => Some(copy_of(audience)),
                None => None,
            },
            validate_exp: self.validate_exp,
            required_claims: copy_of(&self.required_claims),
        }
    }
}

impl ValidationPolicy {
    /// The policy for access tokens.
    pub fn access(algorithm: SignatureAlgorithm) -> (r: ValidationPolicy)
        ensures
            r@ == access_policy(algorithm),
    {
        let mut audience: Vec<String> = Vec::new();
        audience.push(String::from_str("account"));
        let mut required_claims: Vec<String> = Vec::new();
        required_claims.push(String::from_str("exp"));
        let r = ValidationPolicy {
            algorithm,
            audience: Some(audience),
            validate_exp: true,
            required_claims,
        };
        proof {
            let a = views(audience@);
            assert(a[0] == "account"@);
            assert(a.to_set() =~= set!["account"@]);
            let c = views(required_claims@);
            assert(c[0] == "exp"@);
            assert(c.to_set() =~= set!["exp"@]);
        }
        r
    }

    /// The policy for logout tokens.
    pub fn logout(algorithm: SignatureAlgorithm) -> (r: ValidationPolicy)
        ensures
            r@ == logout_policy(algorithm),
    {
        let mut required_claims: Vec<String> = Vec::new();
        required_claims.push(String::from_str("sub"));
        required_claims.push(String::from_str("iss"));
        required_claims.push(String::from_str("aud"));
        let r = ValidationPolicy {
            algorithm,
            audience: None,
            validate_exp: false,
            required_claims,
        };
        proof {
            let c = views(required_claims@);
            assert(c[0] == "sub"@ && c[1] == "iss"@ && c[2] == "aud"@);
            assert(c.to_set() =~= set!["sub"@, "iss"@, "aud"@]);
        }
        r
    }
}

/// The payload that a token carries for a verifier of `algorithm`: what its
/// signature covers as the payload, where its header names that algorithm.
pub open spec fn carried_payload(algorithm: SignatureAlgorithm, token: Seq<char>) -> Option<
    JsonValue,
> {
    match header_parsing(token) {
        Some(header) => if header.alg == algorithm {
            signed_json(token)
        } else {
            None
        },
        None => None,
    }
}

/// `jsonwebtoken::DecodingKey`, key material in the form the verifier takes.
#[verifier::external_type_specification]
#[verifier::external_body]
pub struct ExDecodingKey(jsonwebtoken::DecodingKey);

/// The key that `DecodingKey::from_rsa_pem` reads from a PEM text, where it
/// reads one.
pub uninterp spec fn rsa_pem_key(pem: Seq<char>) -> Option<jsonwebtoken::DecodingKey>;

/// What `jsonwebtoken::decode` accepts of a token under a key and a policy
/// when the token's expiry is not held against the clock: the payload, or
/// nothing.  Signature, algorithm, required claims and audience count as the
/// policy has them.
pub uninterp spec fn unexpiring_verification(
    token: Seq<char>,
    key: jsonwebtoken::DecodingKey,
    policy: PolicyView,
) -> Option<JsonValue>;

/// A key body in the envelope of a PEM public key.
pub open spec fn pem_envelope(body: Seq<char>) -> Seq<char> {
    "-----BEGIN PUBLIC KEY-----\n"@ + body + "\n-----END PUBLIC KEY-----"@
}

/// Calls `DecodingKey::from_rsa_pem` on the bytes of a PEM text.  The call
/// reads the text and nothing else, so the key it returns is named by
/// [`rsa_pem_key`], which is `None` exactly where the call reports an error;
/// the error comes back as its kind.
#[verifier::external_body]
pub(crate) fn rsa_key(pem: &str) -> (r: Result<jsonwebtoken::DecodingKey, ErrorKind>)
    ensures
        match r {
            Ok(key) => rsa_pem_key(pem@) == Some(key),
            Err(_) => rsa_pem_key(pem@) is None,
        },
{
    match jsonwebtoken::DecodingKey::from_rsa_pem(pem.as_bytes()) {
        Ok(key) => Ok(key),
        Err(e) => Err(e.into_kind()),
    }
}

/// Gives a [`SignatureAlgorithm`] as the `jsonwebtoken::Algorithm` of the
/// same name.
#[verifier::external_body]
pub(crate) fn outside_algorithm(algorithm: SignatureAlgorithm) -> jsonwebtoken::Algorithm {
    match algorithm {
        SignatureAlgorithm::HS256 => jsonwebtoken::Algorithm::HS256,
        SignatureAlgorithm::HS384 => jsonwebtoken::Algorithm::HS384,
        SignatureAlgorithm::HS512 => jsonwebtoken::Algorithm::HS512,
        SignatureAlgorithm::ES256 => jsonwebtoken::Algorithm::ES256,
        SignatureAlgorithm::ES384 => jsonwebtoken::Algorithm::ES384,
        SignatureAlgorithm::RS256 => jsonwebtoken::Algorithm::RS256,
        SignatureAlgorithm::RS384 => jsonwebtoken::Algorithm::RS384,
        SignatureAlgorithm::RS512 => jsonwebtoken::Algorithm::RS512,
        SignatureAlgorithm::PS256 => jsonwebtoken::Algorithm::PS256,
        SignatureAlgorithm::PS384 => jsonwebtoken::Algorithm::PS384,
        SignatureAlgorithm::PS512 => jsonwebtoken::Algorithm::PS512,
        SignatureAlgorithm::EdDSA => jsonwebtoken::Algorithm::EdDSA,
    }
}

/// Calls `jsonwebtoken::decode` for a `serde_json::Value`, with a
/// `Validation` made by `Validation::new` for the policy's algorithm and
/// given the policy's expiry switch, required claims and audience.
///
/// The call holds a token against the clock only for its expiry, and only
/// where the policy enforces the expiry; everything else it decides from
/// token, key and policy alone.  [`unexpiring_verification`] names what it
/// accepts with the expiry left aside.  So whatever it accepts, that name
/// holds; and where the policy does not enforce the expiry, whatever it turns
/// away, that name holds nothing.
///
/// What it accepts is also the [`carried_payload`]: it has read the header
/// as `decode_header` reads it and found the policy's algorithm there, and
/// the value it returns is what `serde_json::from_slice` reads from the
/// base64url decoding of the segment between the token's last two dots.
///
/// An error comes back as its kind.  The call reads the clock in every case
/// and gives up the thread where the clock stands before 1970.
#[verifier::external_body]
pub(crate) fn verify(
    token: &str,
    key: &jsonwebtoken::DecodingKey,
    policy: &ValidationPolicy,
) -> (r: Result<serde_json::Value, ErrorKind>)
    ensures
        r matches Ok(claims) ==> carried_payload(policy.algorithm, token@) == Some(
            json_content(claims),
        ),
        r matches Ok(claims) ==> unexpiring_verification(token@, *key, policy@) == Some(
            json_content(claims),
        ),
        !policy.validate_exp ==> (r is Err ==> unexpiring_verification(token@, *key, policy@)
            is None),
{
    let mut validation = jsonwebtoken::Validation::new(outside_algorithm(policy.algorithm));
    validation.validate_exp = policy.validate_exp;
    validation.required_spec_claims = policy.required_claims.iter().cloned().collect();
    validation.aud = policy.audience.as_ref().map(|a| a.iter().cloned().collect());
    match jsonwebtoken::decode::<serde_json::Value>(token, key, &validation) {
        Ok(data) => Ok(data.claims),
        Err(e) => Err(e.into_kind()),
    }
}

/// `Clone::clone` of a `jsonwebtoken::DecodingKey`, which the crate derives:
/// the copy is the same key.
pub assume_specification[ <jsonwebtoken::DecodingKey as Clone>::clone ](
    key: &jsonwebtoken::DecodingKey,
) -> (r: jsonwebtoken::DecodingKey)
    ensures
        r == *key,
;

/// A decoder for the tokens signed with one key of one realm.  It is made
/// once and never changes.
pub struct JwtDecoder {
    pub kid: String,
    validation: ValidationPolicy,
    logout_validation: ValidationPolicy,
    public_key: String,
    decoding_key: jsonwebtoken::DecodingKey,
}

/// The mathematical value of a [`JwtDecoder`].
pub struct DecoderView {
    /// The identifier of the signing key.
    pub kid: Seq<char>,
    /// The algorithm that the key is used with.
    pub algorithm: SignatureAlgorithm,
    /// The body of the public key, as the realm published it.
    pub public_key: Seq<char>,
    /// The key in the form the verifier takes.
    pub key: jsonwebtoken::DecodingKey,
    /// The policy for access tokens.
    pub access: PolicyView,
    /// The policy for logout tokens.
    pub logout: PolicyView,
}

impl View for JwtDecoder {
    type V = DecoderView;

    closed spec fn view(&self) -> DecoderView {
        DecoderView {
            kid: self.kid@,
            algorithm: self.validation.algorithm,
            public_key: self.public_key@,
            key: self.decoding_key,
            access: self.validation@,
            logout: self.logout_validation@,
        }
    }
}

/// What a decoder for `algorithm`, `kid` and `public_key` is: its key is
/// what the public key holds in its PEM envelope, and its policies are the
/// two of its algorithm.
pub open spec fn decoder_for(
    algorithm: SignatureAlgorithm,
    kid: Seq<char>,
    public_key: Seq<char>,
) -> DecoderView {
    DecoderView {
        kid,
        algorithm,
        public_key,
        key: rsa_pem_key(pem_envelope(public_key))->0,
        access: access_policy(algorithm),
        logout: logout_policy(algorithm),
    }
}

/// What making a decoder gives: the decoder, or why there is none.  An
/// algorithm other than the three RSA signatures is turned away first; then
/// the key must be readable in its PEM envelope.
pub open spec fn decoder_making(
    algorithm: SignatureAlgorithm,
    kid: Seq<char>,
    public_key: Seq<char>,
) -> Result<DecoderView, Failure> {
    if !algorithm.is_rsa() {
        Err(Failure::InvalidToken)
    } else if rsa_pem_key(pem_envelope(public_key)) is None {
        Err(Failure::JwtError)
    } else {
        Ok(decoder_for(algorithm, kid, public_key))
    }
}

/// The audience that an access token must name.
pub open spec fn access_audience() -> Seq<char> {
    "account"@
}

/// What a decoder returns for the verifier's answer on an access token: the
/// claims that the verified payload holds, where their audience is
/// `account` or an array that holds it; or a rejection.
pub open spec fn claims_outcome(verified: Option<JsonValue>) -> Result<ClaimsView, Failure> {
    match verified {
        Some(payload) => match claims_of(payload) {
            Some(claims) => if claims.aud.holds_text(access_audience()) {
                Ok(claims)
            } else {
                Err(Failure::JwtError)
            },
            None => Err(Failure::JwtError),
        },
        None => Err(Failure::JwtError),
    }
}

/// What a decoder returns of an access token that has not expired: the
/// claims of what the verifier accepts, under the decoder's key and the
/// access policy of its algorithm, with the expiry left aside.
pub open spec fn unexpired_decoding(decoder: DecoderView, token: Seq<char>) -> Result<
    ClaimsView,
    Failure,
> {
    claims_outcome(
        unexpiring_verification(token, decoder.key, access_policy(decoder.algorithm)),
    )
}

/// What a decoder returns of a logout token: the claims of what the
/// verifier accepts under the decoder's key and the logout policy of its
/// algorithm.  The clock has no say in it.
pub open spec fn logout_decoding(decoder: DecoderView, token: Seq<char>) -> Result<
    LogoutClaimsView,
    Failure,
> {
    logout_claims_outcome(
        unexpiring_verification(token, decoder.key, logout_policy(decoder.algorithm)),
    )
}

/// What a decoder returns for the verifier's answer on a logout token.
pub open spec fn logout_claims_outcome(verified: Option<JsonValue>) -> Result<
    LogoutClaimsView,
    Failure,
> {
    match verified {
        Some(payload) => match logout_claims_of(payload) {
            Some(claims) => Ok(claims),
            None => Err(Failure::JwtError),
        },
        None => Err(Failure::JwtError),
    }
}

/// The payload that a verifier has accepted, or nothing.
pub open spec fn accepted_payload(verified: Result<Json, ErrorKind>) -> Option<JsonValue> {
    match verified {
        Ok(payload) => Some(payload@),
        Err(_) => None,
    }
}

/// The claims of an access token that `token` carries for a verifier of
/// `algorithm`.
pub open spec fn carried_claims(algorithm: SignatureAlgorithm, token: Seq<char>) -> Option<
    ClaimsView,
> {
    match carried_payload(algorithm, token) {
        Some(payload) => claims_of(payload),
        None => None,
    }
}

/// The claims of a logout token that `token` carries for a verifier of
/// `algorithm`.
pub open spec fn carried_logout_claims(algorithm: SignatureAlgorithm, token: Seq<char>) -> Option<
    LogoutClaimsView,
> {
    match carried_payload(algorithm, token) {
        Some(payload) => logout_claims_of(payload),
        None => None,
    }
}

/// A token that the verifier turns away yields no claims.  Whatever the
/// verifier reports, a signature that does not match among the rest, the
/// outcome is a rejection, for access and for logout tokens alike.
pub proof fn rejection_gives_no_claims(kind: ErrorKind)
    ensures
        claims_outcome(accepted_payload(Err(kind))) == Err::<ClaimsView, Failure>(
            Failure::JwtError,
        ),
        logout_claims_outcome(accepted_payload(Err(kind))) == Err::<LogoutClaimsView, Failure>(
            Failure::JwtError,
        ),
{
}

impl Claims {
    /// Makes the claims of an access token from the verifier's answer: the
    /// claims in the payload it accepted, where the payload has their shape
    /// and their audience is `account` or an array that holds it.  The
    /// verifier itself lets an audience pass that is neither a text nor an
    /// array of texts.
    pub fn from_verified(verified: Result<Json, ErrorKind>) -> (r: Result<Claims, Error>)
        ensures
            match r {
                Ok(claims) => claims_outcome(accepted_payload(verified)) == Ok::<
                    ClaimsView,
                    Failure,
                >(claims@),
                Err(e) => claims_outcome(accepted_payload(verified)) == Err::<ClaimsView, Failure>(
                    e@,
                ),
            },
    {
        match verified {
            Ok(payload) => match Claims::from_json(&payload) {
                Some(claims) => {
                    if claims.aud.holds_text("account") {
                        Ok(claims)
                    } else {
                        Err(Error::JwtError(Rejection::Audience))
                    }
                },
                None => Err(Error::JwtError(Rejection::Claims)),
            },
            Err(kind) => Err(Error::JwtError(Rejection::Verifier(kind))),
        }
    }
}

impl LogoutClaims {
    /// Makes the claims of a logout token from the verifier's answer.
    pub fn from_verified(verified: Result<Json, ErrorKind>) -> (r: Result<
        LogoutClaims,
        Error,
    >)
        ensures
            match r {
                Ok(claims) => logout_claims_outcome(accepted_payload(verified)) == Ok::<
                    LogoutClaimsView,
                    Failure,
                >(claims@),
                Err(e) => logout_claims_outcome(accepted_payload(verified)) == Err::<
                    LogoutClaimsView,
                    Failure,
                >(e@),
            },
    {
        match verified {
            Ok(payload) => match LogoutClaims::from_json(&payload) {
                Some(claims) => Ok(claims),
                None => Err(Error::JwtError(Rejection::Claims)),
            },
            Err(kind) => Err(Error::JwtError(Rejection::Verifier(kind))),
        }
    }
}

impl Clone for JwtDecoder {
    /// A decoder for the same key, with the same algorithm and policies.
    fn clone(&self) -> (r: Self)
        ensures
            r@ == self@,
    {
        proof {
            use_type_invariant(self);
        }
        JwtDecoder {
            kid: self.kid.clone(),
            validation: self.validation.clone(),
            logout_validation: self.logout_validation.clone(),
            public_key: self.public_key.clone(),
            decoding_key: self.decoding_key.clone(),
        }
    }
}

impl JwtDecoder {
    #[verifier::type_invariant]
    spec fn well_formed(&self) -> bool {
        &&& self.validation.algorithm.is_rsa()
        &&& self.validation@ == access_policy(self.validation.algorithm)
        &&& self.logout_validation@ == logout_policy(self.validation.algorithm)
        &&& rsa_pem_key(pem_envelope(self.public_key@)) == Some(self.decoding_key)
    }

    /// Makes the decoder for the key `kid` of a realm from the body of the
    /// realm's public key.
    pub fn new(alg: SignatureAlgorithm, kid: String, public_key: &str) -> (r: Result<Self, Error>)
        ensures
            match r {
                Ok(decoder) => decoder_making(alg, kid@, public_key@) == Ok::<DecoderView, Failure>(
                    decoder@,
                ),
                Err(e) => decoder_making(alg, kid@, public_key@) == Err::<DecoderView, Failure>(e@),
            },
    {
        if !alg.accepted() {
            return Err(Error::InvalidToken);
        }
        let pem = String::from_str("-----BEGIN PUBLIC KEY-----\n").concat(public_key).concat(
            "\n-----END PUBLIC KEY-----",
        );
        match rsa_key(pem.as_str()) {
            Err(kind) => Err(Error::JwtError(Rejection::Verifier(kind))),
            Ok(decoding_key) => Ok(
                JwtDecoder {
                    kid,
                    validation: ValidationPolicy::access(alg),
                    logout_validation: ValidationPolicy::logout(alg),
                    public_key: String::from_str(public_key),
                    decoding_key,
                },
            ),
        }
    }

    /// The identifier of the decoder's key.
    pub fn kid(&self) -> (r: &String)
        ensures
            r@ == self@.kid,
    {
        &self.kid
    }

    /// Asks the verifier about a token under a policy, and gives its answer
    /// with the payload as plain JSON.
    fn verified(&self, token: &str, policy: &ValidationPolicy) -> (r: Result<Json, ErrorKind>)
        ensures
            r matches Ok(payload) ==> carried_payload(policy.algorithm, token@) == Some(payload@),
            r matches Ok(payload) ==> unexpiring_verification(token@, self@.key, policy@)
                == Some(payload@),
            !policy.validate_exp ==> (r is Err ==> unexpiring_verification(
                token@,
                self@.key,
                policy@,
            ) is None),
    {
        proof {
            use_type_invariant(self);
        }
        JwtDecoder::plain(verify(token, &self.decoding_key, policy))
    }

    /// Gives the verifier's answer with the payload as plain JSON: what it
    /// accepted holds what the payload held, and what it reported stays as
    /// it is.
    fn plain(answer: Result<serde_json::Value, ErrorKind>) -> (r: Result<Json, ErrorKind>)
        ensures
            match answer {
                Ok(claims) => r matches Ok(payload) && payload@ == json_content(claims),
                Err(kind) => r == Err::<Json, ErrorKind>(kind),
            },
    {
        match answer {
            Ok(claims) => Ok(crate::json::json_of(&claims)),
            Err(kind) => Err(kind),
        }
    }

    /// Verifies an access token against the decoder's key and its access
    /// policy.
    ///
    /// Whether a token has expired is for the clock to say, so claims are
    /// never owed.  Where claims come back, they are what
    /// [`unexpired_decoding`] gives: the verifier accepted the token under
    /// the decoder's key and access policy, and the audience is `account` or
    /// an array that holds it.  They are also the claims that the token
    /// carries for the decoder's algorithm.  Every failure is a rejection.
    pub fn decode(&self, token: &str) -> (r: Result<Claims, Error>)
        ensures
            match r {
                Ok(claims) => unexpired_decoding(self@, token@) == Ok::<ClaimsView, Failure>(
                    claims@,
                ) && carried_claims(self@.algorithm, token@) == Some(claims@),
                Err(e) => e@ == Failure::JwtError,
            },
    {
        let verified = self.verified(token, &self.validation);
        proof {
            use_type_invariant(self);
        }
        Claims::from_verified(verified)
    }

    /// Verifies a logout token against the decoder's key and its logout
    /// policy, which does not look at the expiry.
    ///
    /// The result is exactly [`logout_decoding`]: claims come back if and
    /// only if the verifier accepts the token under the decoder's key and
    /// logout policy and the payload has the shape of logout claims.  They
    /// are then also the claims that the token carries for the decoder's
    /// algorithm.  Every failure is a rejection.
    pub fn decode_logout_token(&self, token: &str) -> (r: Result<LogoutClaims, Error>)
        ensures
            match r {
                Ok(claims) => logout_decoding(self@, token@) == Ok::<LogoutClaimsView, Failure>(
                    claims@,
                ) && carried_logout_claims(self@.algorithm, token@) == Some(claims@),
                Err(e) => logout_decoding(self@, token@) == Err::<LogoutClaimsView, Failure>(e@),
            },
    {
        let verified = self.verified(token, &self.logout_validation);
        proof {
            use_type_invariant(self);
        }
        LogoutClaims::from_verified(verified)
    }

    /// The algorithm that the decoder's key is used with: always one of the
    /// three accepted ones.
    pub fn algorithm(&self) -> (r: SignatureAlgorithm)
        ensures
            r == self@.algorithm,
            r.is_rsa(),
    {
        proof {
            use_type_invariant(self);
        }
        self.validation.algorithm
    }

    /// What the decoder checks of an access token.  It was fixed when the
    /// decoder was made: the access policy of its algorithm.
    pub fn validation(&self) -> (r: &ValidationPolicy)
        ensures
            r@ == self@.access,
            r@ == access_policy(self@.algorithm),
    {
        proof {
            use_type_invariant(self);
        }
        &self.validation
    }

    /// What the decoder checks of a logout token.  It was fixed when the
    /// decoder was made: the logout policy of its algorithm.
    pub fn logout_validation(&self) -> (r: &ValidationPolicy)
        ensures
            r@ == self@.logout,
            r@ == logout_policy(self@.algorithm),
    {
        proof {
            use_type_invariant(self);
        }
        &self.logout_validation
    }
}

} // verus!
