//! The store: from a token to the decoder of its realm's key.
//!
//! A token is verified against the key of the realm that issued it, but
//! which realm that is can only be read from the token itself.  So the store
//! reads the key identifier and the issuer before anything is verified, uses
//! them for nothing but finding the key, and verifies the token against the
//! key it found.  A decoder that has verified a token is kept under its key
//! identifier; a token that names a kept key is verified without asking
//! anyone.
//!
//! The store never asks a realm itself.  Where a key is needed it says which,
//! and takes the realm's answer when the caller has it.

use vstd::prelude::*;
use vstd::string::*;
use crate::error::Error;
use crate::error::Failure;
use crate::json::Json;
use crate::kc::client::RealmInfo;
use crate::kc::client::RealmInfoView;
use crate::text::last_piece;
use crate::token::cache::KeyCache;
use crate::token::claims::issuer_of;
use crate::token::claims::Claims;
use crate::token::claims::ClaimsView;
use crate::token::claims::LogoutClaims;
use crate::token::claims::LogoutClaimsView;
use crate::token::claims::PartialClaims;
use crate::token::compact::payload_reading;
use crate::token::decoder::carried_claims;
use crate::token::decoder::carried_logout_claims;
use crate::token::decoder::decoder_making;
use crate::token::decoder::logout_decoding;
use crate::token::decoder::unexpired_decoding;
use crate::token::decoder::DecoderView;
use crate::token::decoder::JwtDecoder;
use crate::token::header::header_parsing;
use crate::token::header::HeaderView;
use crate::token::header::TokenHeader;

verus! {

/// The realm that an issuer names under a provider's public address: the
/// issuer must be longer than the address and begin with it, and the realm
/// is what follows the last `/` of the rest.  An issuer that ends in `/`
/// names none.
pub open spec fn issuer_realm(public_url: Seq<char>, iss: Seq<char>) -> Option<Seq<char>> {
    if iss.len() > public_url.len() && public_url.is_prefix_of(iss) {
        let realm = last_piece(iss.skip(public_url.len() as int), '/');
        if realm.len() > 0 {
            Some(realm)
        } else {
            None
        }
    } else {
        None
    }
}

/// Finds the realm that an issuer names under a provider's public address.
pub fn realm_of_issuer(public_url: &str, iss: &str) -> (r: Option<String>)
    ensures
        match r {
            Some(realm) => issuer_realm(public_url@, iss@) == Some(realm@),
            None => issuer_realm(public_url@, iss@) is None,
        },
{
    let base = crate::text::chars_of(public_url);
    let issuer = crate::text::chars_of(iss);
    if issuer.len() <= base.len() || !crate::text::begins_with(&issuer, &base) {
        return None;
    }
    let start = crate::text::find_after_last(&issuer, '/', base.len());
    assert(last_piece(iss@.skip(base@.len() as int), '/') =~= iss@.subrange(
        start as int,
        iss@.len() as int,
    ));
    if start < issuer.len() {
        Some(crate::text::slice(iss, start, issuer.len()))
    } else {
        None
    }
}

/// What a store asks for when it does not know a token's key: the realm
/// that the token claims, and the header that names the key.
#[derive(Debug)]
pub struct KeyRequest {
    pub realm: String,
    pub header: TokenHeader,
}

/// The mathematical value of a [`KeyRequest`].
pub struct KeyRequestView {
    pub realm: Seq<char>,
    pub header: HeaderView,
}

impl View for KeyRequest {
    type V = KeyRequestView;

    open spec fn view(&self) -> KeyRequestView {
        KeyRequestView { realm: self.realm@, header: self.header@ }
    }
}

impl KeyRequest {
    /// Reads from a payload whom to ask for the key that a header names.
    /// The payload is not verified: what it says serves to find the key and
    /// nothing else.
    pub fn from_payload(public_url: &str, header: TokenHeader, payload: &Json) -> (r: Result<
        KeyRequest,
        Error,
    >)
        ensures
            match r {
                Ok(request) => request_from(public_url@, header@, payload@) == Ok::<
                    KeyRequestView,
                    Failure,
                >(request@),
                Err(e) => request_from(public_url@, header@, payload@) == Err::<
                    KeyRequestView,
                    Failure,
                >(e@),
            },
    {
        let partial_claims = match PartialClaims::from_json(payload) {
            Some(partial_claims) => partial_claims,
            None => {
                return Err(Error::InvalidJson(String::from_str("missing field `iss`")));
            },
        };
        match realm_of_issuer(public_url, partial_claims.iss.as_str()) {
            Some(realm) => Ok(KeyRequest { realm, header }),
            None => Err(Error::InvalidToken),
        }
    }
}

/// Where a store stands with a token after looking at it.
pub enum Step<T> {
    /// The token has been dealt with: here is what it holds, or why it is
    /// turned away.
    Done(Result<T, Error>),
    /// The token names a key that the store does not have.  The realm in the
    /// request is to be asked for its key.
    Fetch(KeyRequest),
}

/// What a store has found for a token.
pub enum Found<'a> {
    /// The decoder that the store keeps for the token's key.
    Decoder(&'a JwtDecoder),
    /// The store keeps none: whom to ask.
    Request(KeyRequest),
}

/// The mathematical value of a [`JwtStore`].
pub struct StoreContents {
    /// The public address that the issuers of the provider's tokens begin
    /// with.
    pub public_url: Seq<char>,
    /// The decoders that the store keeps, by key identifier.
    pub keys: Map<Seq<char>, DecoderView>,
}

impl StoreContents {
    /// The store with `decoder` kept under the identifier of its key.
    pub open spec fn with(self, decoder: DecoderView) -> StoreContents {
        StoreContents { public_url: self.public_url, keys: self.keys.insert(decoder.kid, decoder) }
    }
}

/// Whom to ask for the key that a header names, as far as a payload says:
/// the payload must name an issuer, and the issuer must name a realm under
/// the public address.
pub open spec fn request_from(
    public_url: Seq<char>,
    header: HeaderView,
    payload: crate::json::JsonValue,
) -> Result<KeyRequestView, Failure> {
    match issuer_of(payload) {
        None => Err(Failure::InvalidJson),
        Some(iss) => match issuer_realm(public_url, iss) {
            None => Err(Failure::InvalidToken),
            Some(realm) => Ok(KeyRequestView { realm, header }),
        },
    }
}

/// Whom to ask for the key of a token, as far as the token itself says: its
/// header must be readable, and its payload must be base64url of JSON that
/// says whom to ask.
pub open spec fn key_request(public_url: Seq<char>, token: Seq<char>) -> Result<
    KeyRequestView,
    Failure,
> {
    match header_parsing(token) {
        None => Err(Failure::JwtError),
        Some(header) => match payload_reading(token) {
            Err(failure) => Err(failure),
            Ok(payload) => request_from(public_url, header, payload),
        },
    }
}

/// What a store finds for a token.
pub enum Lookup {
    /// The token is turned away as it is.
    Fail(Failure),
    /// The store keeps the decoder for the token's key.
    Kept(DecoderView),
    /// The realm in the request is to be asked.
    Ask(KeyRequestView),
}

/// The decoder that a store keeps for the key that a header names.  A header
/// that names no key is invalid.
pub open spec fn kept_for(store: StoreContents, header: HeaderView) -> Result<
    Option<DecoderView>,
    Failure,
> {
    match header.kid {
        None => Err(Failure::InvalidToken),
        Some(kid) => if store.keys.contains_key(kid) {
            Ok(Some(store.keys[kid]))
        } else {
            Ok(None)
        },
    }
}

/// What a store finds for a token: a token must name its key; where the
/// store keeps a decoder for that key, nothing else of the token is looked
/// at; where it keeps none, the token must say whom to ask.
pub open spec fn lookup(store: StoreContents, token: Seq<char>) -> Lookup {
    match header_parsing(token) {
        None => Lookup::Fail(Failure::JwtError),
        Some(header) => match kept_for(store, header) {
            Err(failure) => Lookup::Fail(failure),
            Ok(Some(decoder)) => Lookup::Kept(decoder),
            Ok(None) => match key_request(store.public_url, token) {
                Err(failure) => Lookup::Fail(failure),
                Ok(request) => Lookup::Ask(request),
            },
        },
    }
}

/// The decoder that a realm's answer gives for a request: the answer must
/// hold a public key, the header must name one of the accepted algorithms
/// and a key, and the key must be readable.
pub open spec fn decoder_from_reply(request: KeyRequestView, info: RealmInfoView) -> Result<
    DecoderView,
    Failure,
> {
    match info.public_key {
        None => Err(Failure::NoPublicKey(request.realm)),
        Some(public_key) => match request.header.kid {
            Some(kid) => if request.header.alg.is_rsa() {
                decoder_making(request.header.alg, kid, public_key)
            } else {
                Err(Failure::InvalidToken)
            },
            None => Err(Failure::InvalidToken),
        },
    }
}

/// The tokens of one provider's realms, and the decoders made for them.
pub struct JwtStore {
    public_url: String,
    keys: KeyCache,
}

impl View for JwtStore {
    type V = StoreContents;

    closed spec fn view(&self) -> StoreContents {
        StoreContents { public_url: self.public_url@, keys: self.keys@ }
    }
}

impl JwtStore {
    /// A store for the realms under a provider's public address, with no
    /// decoder yet.
    pub fn new(public_url: String) -> (r: Self)
        ensures
            r@ == (StoreContents { public_url: public_url@, keys: Map::empty() }),
    {
        JwtStore { public_url, keys: KeyCache::new() }
    }

    /// Whatever a store has been through, each decoder it keeps stands under
    /// the identifier of its own key.
    pub proof fn keys_name_their_decoders(&self)
        ensures
            forall|kid: Seq<char>| #[trigger]
                self@.keys.contains_key(kid) ==> self@.keys[kid].kid == kid,
    {
        self.keys.keys_name_their_decoders();
    }

    /// The decoder that the store keeps for the key `kid`.
    pub fn get(&self, kid: &String) -> (r: Option<&JwtDecoder>)
        ensures
            match r {
                Some(decoder) => self@.keys.contains_key(kid@) && self@.keys[kid@] == decoder@,
                None => !self@.keys.contains_key(kid@),
            },
    {
        self.keys.get(kid)
    }

    /// Keeps a decoder under the identifier of its key, in place of the one
    /// kept there before, if any.
    pub fn insert(&mut self, decoder: JwtDecoder)
        ensures
            final(self)@ == old(self)@.with(decoder@),
    {
        self.keys.insert(decoder);
    }

    /// Reads from a token whom to ask for its key.  What is read is not
    /// verified and serves no other end.
    pub fn get_decoder_from_partial_claims(&self, token: &str) -> (r: Result<KeyRequest, Error>)
        ensures
            match r {
                Ok(request) => key_request(self@.public_url, token@) == Ok::<
                    KeyRequestView,
                    Failure,
                >(request@),
                Err(e) => key_request(self@.public_url, token@) == Err::<KeyRequestView, Failure>(
                    e@,
                ),
            },
    {
        let header = match TokenHeader::read(token) {
            Ok(header) => header,
            Err(e) => {
                return Err(e);
            },
        };
        let payload = match crate::token::compact::read_payload(token) {
            Ok(payload) => payload,
            Err(e) => {
                return Err(e);
            },
        };
        KeyRequest::from_payload(self.public_url.as_str(), header, &payload)
    }

    /// The decoder that the store keeps for the key that a header names.
    pub fn kept_for(&self, header: &TokenHeader) -> (r: Result<Option<&JwtDecoder>, Error>)
        ensures
            match r {
                Ok(Some(decoder)) => kept_for(self@, header@) == Ok::<Option<DecoderView>, Failure>(
                    Some(decoder@),
                ),
                Ok(None) => kept_for(self@, header@) == Ok::<Option<DecoderView>, Failure>(None),
                Err(e) => kept_for(self@, header@) == Err::<Option<DecoderView>, Failure>(e@),
            },
    {
        match &header.kid {
            Some(kid) => Ok(self.keys.get(kid)),
            None => Err(Error::InvalidToken),
        }
    }

    /// Makes the decoder for a request from the realm's answer.
    pub fn get_decoder_from_realm(realm: &str, header: TokenHeader, info: RealmInfo) -> (r: Result<
        JwtDecoder,
        Error,
    >)
        ensures
            match r {
                Ok(decoder) => decoder_from_reply(
                    KeyRequestView { realm: realm@, header: header@ },
                    info@,
                ) == Ok::<DecoderView, Failure>(decoder@),
                Err(e) => decoder_from_reply(
                    KeyRequestView { realm: realm@, header: header@ },
                    info@,
                ) == Err::<DecoderView, Failure>(e@),
            },
    {
        let public_key = match info.public_key {
            Some(public_key) => public_key,
            None => {
                return Err(Error::NoPublicKey(String::from_str(realm)));
            },
        };
        match header.kid {
            Some(kid) => {
                if header.alg.accepted() {
                    JwtDecoder::new(header.alg, kid, public_key.as_str())
                } else {
                    Err(Error::InvalidToken)
                }
            },
            None => Err(Error::InvalidToken),
        }
    }

    /// Looks for the decoder of a token's key: the one that the store keeps,
    /// or whom to ask for the key.
    pub fn find(&self, token: &str) -> (r: Result<Found<'_>, Error>)
        ensures
            match lookup(self@, token@) {
                Lookup::Fail(failure) => r matches Err(e) && e@ == failure,
                Lookup::Kept(kept) => r matches Ok(Found::Decoder(decoder)) && decoder@ == kept,
                Lookup::Ask(asked) => r matches Ok(Found::Request(request)) && request@ == asked,
            },
    {
        let header = match TokenHeader::read(token) {
            Ok(header) => header,
            Err(e) => {
                return Err(e);
            },
        };
        match self.kept_for(&header) {
            Err(e) => Err(e),
            Ok(Some(decoder)) => Ok(Found::Decoder(decoder)),
            Ok(None) => match self.get_decoder_from_partial_claims(token) {
                Ok(request) => Ok(Found::Request(request)),
                Err(e) => Err(e),
            },
        }
    }

    /// Takes up an access token.
    ///
    /// A token that the store can turn away as it is, is turned away.  A
    /// token whose key the store keeps is verified by the kept decoder at
    /// once, with what [`JwtDecoder::decode`] says of the result.  For any
    /// other, the store says whom to ask for the key: the realm's answer
    /// goes to [`JwtStore::decode_fetched`].
    pub fn decode(&self, token: &str) -> (r: Step<Claims>)
        ensures
            match lookup(self@, token@) {
                Lookup::Fail(failure) => r matches Step::Done(Err(e)) && e@ == failure,
                Lookup::Kept(kept) => r matches Step::Done(outcome) && match outcome {
                    Ok(claims) => unexpired_decoding(kept, token@) == Ok::<ClaimsView, Failure>(
                        claims@,
                    ) && carried_claims(kept.algorithm, token@) == Some(claims@),
                    Err(e) => e@ == Failure::JwtError,
                },
                Lookup::Ask(asked) => r matches Step::Fetch(request) && request@ == asked,
            },
    {
        match self.find(token) {
            Err(e) => Step::Done(Err(e)),
            Ok(Found::Decoder(decoder)) => Step::Done(decoder.decode(token)),
            Ok(Found::Request(request)) => Step::Fetch(request),
        }
    }

    /// Takes up a logout token, as [`JwtStore::decode`] does an access
    /// token.  A kept decoder's result is exactly [`logout_decoding`].  The
    /// realm's answer goes to [`JwtStore::decode_logout_token_fetched`].
    pub fn decode_logout_token(&self, token: &str) -> (r: Step<LogoutClaims>)
        ensures
            match lookup(self@, token@) {
                Lookup::Fail(failure) => r matches Step::Done(Err(e)) && e@ == failure,
                Lookup::Kept(kept) => r matches Step::Done(outcome) && match outcome {
                    Ok(claims) => logout_decoding(kept, token@) == Ok::<
                        LogoutClaimsView,
                        Failure,
                    >(claims@) && carried_logout_claims(kept.algorithm, token@) == Some(claims@),
                    Err(e) => logout_decoding(kept, token@) == Err::<LogoutClaimsView, Failure>(
                        e@,
                    ),
                },
                Lookup::Ask(asked) => r matches Step::Fetch(request) && request@ == asked,
            },
    {
        match self.find(token) {
            Err(e) => Step::Done(Err(e)),
            Ok(Found::Decoder(decoder)) => Step::Done(decoder.decode_logout_token(token)),
            Ok(Found::Request(request)) => Step::Fetch(request),
        }
    }

    /// Ends the work on a token that a new decoder has been asked about: the
    /// decoder is kept if it accepted the token, and dropped if it did not.
    /// What the decoder said is handed on as it is.
    pub fn conclude<T>(&mut self, decoder: JwtDecoder, outcome: Result<T, Error>) -> (r: Result<
        T,
        Error,
    >)
        ensures
            r == outcome,
            final(self)@ == if outcome is Ok {
                old(self)@.with(decoder@)
            } else {
                old(self)@
            },
    {
        if outcome.is_ok() {
            self.keys.insert(decoder);
        }
        outcome
    }

    /// Goes on with an access token once the realm in `request` has been
    /// asked: `reply` is its answer, or why there is none.
    ///
    /// Without an answer, the reason is handed on.  With one, the decoder is
    /// made from it and verifies the token.  Claims come back only where the
    /// decoder accepted the token, with what [`JwtDecoder::decode`] says of
    /// them, and the decoder is then kept.  In every other case the store
    /// stays as it was.
    pub fn decode_fetched(
        &mut self,
        token: &str,
        request: KeyRequest,
        reply: Result<RealmInfo, Error>,
    ) -> (r: Result<Claims, Error>)
        ensures
            match r {
                Ok(claims) => reply matches Ok(info) && decoder_from_reply(request@, info@)
                    matches Ok(decoder) && unexpired_decoding(decoder, token@) == Ok::<
                    ClaimsView,
                    Failure,
                >(claims@) && carried_claims(decoder.algorithm, token@) == Some(claims@)
                    && final(self)@ == old(self)@.with(decoder),
                Err(e) => final(self)@ == old(self)@ && match reply {
                    Err(reason) => e == reason,
                    Ok(info) => match decoder_from_reply(request@, info@) {
                        Err(failure) => e@ == failure,
                        Ok(_) => e@ == Failure::JwtError,
                    },
                },
            },
    {
        let info = match reply {
            Ok(info) => info,
            Err(e) => {
                return Err(e);
            },
        };
        let decoder = match JwtStore::get_decoder_from_realm(
            request.realm.as_str(),
            request.header,
            info,
        ) {
            Ok(decoder) => decoder,
            Err(e) => {
                return Err(e);
            },
        };
        let outcome = decoder.decode(token);
        self.conclude(decoder, outcome)
    }

    /// Goes on with a logout token once the realm in `request` has been
    /// asked, as [`JwtStore::decode_fetched`] does with an access token.
    /// Here the result is owed: claims come back, and the decoder is kept,
    /// exactly where the realm has answered, the decoder can be made and
    /// [`logout_decoding`] gives claims.
    pub fn decode_logout_token_fetched(
        &mut self,
        token: &str,
        request: KeyRequest,
        reply: Result<RealmInfo, Error>,
    ) -> (r: Result<LogoutClaims, Error>)
        ensures
            match r {
                Ok(claims) => reply matches Ok(info) && decoder_from_reply(request@, info@)
                    matches Ok(decoder) && logout_decoding(decoder, token@) == Ok::<
                    LogoutClaimsView,
                    Failure,
                >(claims@) && carried_logout_claims(decoder.algorithm, token@) == Some(claims@)
                    && final(self)@ == old(self)@.with(decoder),
                Err(e) => final(self)@ == old(self)@ && match reply {
                    Err(reason) => e == reason,
                    Ok(info) => match decoder_from_reply(request@, info@) {
                        Err(failure) => e@ == failure,
                        Ok(decoder) => logout_decoding(decoder, token@) == Err::<
                            LogoutClaimsView,
                            Failure,
                        >(e@),
                    },
                },
            },
    {
        let info = match reply {
            Ok(info) => info,
            Err(e) => {
                return Err(e);
            },
        };
        let decoder = match JwtStore::get_decoder_from_realm(
            request.realm.as_str(),
            request.header,
            info,
        ) {
            Ok(decoder) => decoder,
            Err(e) => {
                return Err(e);
            },
        };
        let outcome = decoder.decode_logout_token(token);
        self.conclude(decoder, outcome)
    }
}

/// An issuer names a realm under the public address exactly if it is longer
/// than the address, begins with it and does not end in `/`.
pub proof fn issuer_realm_exists(public_url: Seq<char>, iss: Seq<char>)
    ensures
        issuer_realm(public_url, iss) is Some <==> iss.len() > public_url.len()
            && public_url.is_prefix_of(iss) && iss.last() != '/',
{
    if iss.len() > public_url.len() {
        crate::text::last_piece_is_empty(iss.skip(public_url.len() as int), '/');
    }
}

/// The issuer of a realm names that realm: under the public address, the
/// issuer made of the address, `/realms/` and a realm's name, which is not
/// empty and holds no `/`, names the realm.
pub proof fn issuer_names_its_realm(public_url: Seq<char>, realm: Seq<char>)
    requires
        realm.len() > 0,
        forall|i: int| 0 <= i < realm.len() ==> realm[i] != '/',
    ensures
        issuer_realm(public_url, public_url + "/realms/"@ + realm) == Some(realm),
{
    reveal_strlit("/realms/");
    let iss = public_url + "/realms/"@ + realm;
    let rest = iss.skip(public_url.len() as int);
    let at = "/realms/"@.len() - 1;
    assert(public_url =~= iss.subrange(0, public_url.len() as int));
    assert(rest =~= "/realms/"@ + realm);
    assert(rest[at] == '/');
    crate::text::after_last_finds(rest, '/', at);
    assert(last_piece(rest, '/') =~= realm);
}

/// Resolution.  A store that keeps no decoder for the key that a token
/// names asks the realm that the token's issuer names; and where that realm
/// answers with a readable key, and the token's header names an accepted
/// algorithm, the decoder made from the answer is the decoder for that
/// algorithm, the token's key identifier and the realm's key.  What that
/// decoder returns of the token is stated with [`JwtStore::decode_fetched`].
pub proof fn resolution(
    store: StoreContents,
    token: Seq<char>,
    header: HeaderView,
    kid: Seq<char>,
    payload: crate::json::JsonValue,
    realm: Seq<char>,
    public_key: Seq<char>,
    info: RealmInfoView,
)
    requires
        header_parsing(token) == Some(header),
        header.kid == Some(kid),
        header.alg.is_rsa(),
        !store.keys.contains_key(kid),
        payload_reading(token) == Ok::<crate::json::JsonValue, Failure>(payload),
        issuer_of(payload) == Some(store.public_url + "/realms/"@ + realm),
        realm.len() > 0,
        forall|i: int| 0 <= i < realm.len() ==> realm[i] != '/',
        info.public_key == Some(public_key),
        crate::token::decoder::rsa_pem_key(crate::token::decoder::pem_envelope(public_key))
            is Some,
    ensures
        lookup(store, token) == Lookup::Ask(KeyRequestView { realm, header }),
        decoder_from_reply(KeyRequestView { realm, header }, info) == Ok::<DecoderView, Failure>(
            crate::token::decoder::decoder_for(header.alg, kid, public_key),
        ),
{
    issuer_names_its_realm(store.public_url, realm);
}

/// The effect of keeping decoders.  Once the decoder made from a realm's
/// answer for one token is kept, the store finds it for every token that
/// names the same key, and asks nobody.
pub proof fn kept_key_asks_nobody(
    store: StoreContents,
    first: Seq<char>,
    info: RealmInfoView,
    second: Seq<char>,
)
    requires
        lookup(store, first) is Ask,
        decoder_from_reply(lookup(store, first)->Ask_0, info) is Ok,
        header_parsing(second) is Some,
        header_parsing(second)->0.kid == header_parsing(first)->0.kid,
    ensures
        lookup(store.with(decoder_from_reply(lookup(store, first)->Ask_0, info)->Ok_0), second)
            == Lookup::Kept(decoder_from_reply(lookup(store, first)->Ask_0, info)->Ok_0),
{
}

/// A kept decoder is found again: a store that keeps a decoder finds it for
/// every token that names its key.
pub proof fn kept_decoder_is_found(store: StoreContents, decoder: DecoderView, token: Seq<char>)
    requires
        header_parsing(token) matches Some(header) && header.kid == Some(decoder.kid),
    ensures
        lookup(store.with(decoder), token) == Lookup::Kept(decoder),
{
}

/// An issuer that is not trusted.  A token that names a key the store does
/// not keep, and whose payload names an issuer that does not begin with the
/// public address, is no longer than it, or ends in `/`, is turned away as
/// invalid; nobody is asked.
pub proof fn foreign_issuer_is_turned_away(
    store: StoreContents,
    token: Seq<char>,
    kid: Seq<char>,
    payload: crate::json::JsonValue,
    iss: Seq<char>,
)
    requires
        header_parsing(token) matches Some(header) && header.kid == Some(kid),
        !store.keys.contains_key(kid),
        payload_reading(token) == Ok::<crate::json::JsonValue, Failure>(payload),
        issuer_of(payload) == Some(iss),
        !store.public_url.is_prefix_of(iss) || iss.len() <= store.public_url.len() || iss.last()
            == '/',
    ensures
        lookup(store, token) == Lookup::Fail(Failure::InvalidToken),
{
    issuer_realm_exists(store.public_url, iss);
}

/// A realm without a key.  Where a realm's answer holds no public key, no
/// decoder is made of it, and the failure names the realm.
pub proof fn missing_key_is_reported(request: KeyRequestView, info: RealmInfoView)
    requires
        info.public_key is None,
    ensures
        decoder_from_reply(request, info) == Err::<DecoderView, Failure>(
            Failure::NoPublicKey(request.realm),
        ),
{
}

} // verus!
