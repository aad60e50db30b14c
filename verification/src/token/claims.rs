//! The claim sets that tokens carry, and how they are read from a payload.
//!
//! A member that a claim set requires must be in the payload with the right
//! kind of value.  A member with a default may be missing; where it is there,
//! it must have the right kind of value too.  Members that no claim set names
//! are passed over.

use vstd::prelude::*;
use vstd::string::*;
use crate::json::views;
use crate::json::Json;
use crate::json::JsonValue;

verus! {

/// The roles granted within one scope.
#[derive(Debug)]
pub struct RealmAccess {
    pub roles: Vec<String>,
}

/// The roles granted on the provider's own account service.
#[derive(Debug)]
pub struct ResourceAccess {
    pub account: RealmAccess,
}

/// The one claim that is read before a token is verified: its issuer.  It
/// says which realm to ask for a key and is believed in nothing else.
#[derive(Default)]
pub struct PartialClaims {
    pub iss: String,
}

/// The claims of an access token.
#[derive(Debug)]
pub struct Claims {
    pub exp: i64,
    pub iat: i64,
    pub auth_time: Option<i64>,
    pub jti: String,
    pub iss: String,
    pub aud: Json,
    pub sub: String,
    pub typ: String,
    pub azp: String,
    pub session_state: String,
    pub acr: String,
    pub allowed_origins: Vec<String>,
    pub realm_access: RealmAccess,
    pub resource_access: ResourceAccess,
    pub scope: String,
    pub sid: String,
    pub email_verified: bool,
    pub name: String,
    pub preferred_username: String,
    pub given_name: String,
    pub family_name: String,
    pub email: String,
    /// Set on claims that were made up rather than read from a token.
    pub is_api_test: bool,
}

/// The claims of a logout token.
#[derive(Debug)]
pub struct LogoutClaims {
    pub iat: i64,
    pub jti: String,
    pub iss: String,
    pub aud: Json,
    pub sub: String,
    pub typ: String,
    pub sid: String,
}

/// The mathematical value of [`Claims`].
pub struct ClaimsView {
    pub exp: i64,
    pub iat: i64,
    pub auth_time: Option<i64>,
    pub jti: Seq<char>,
    pub iss: Seq<char>,
    pub aud: JsonValue,
    pub sub: Seq<char>,
    pub typ: Seq<char>,
    pub azp: Seq<char>,
    pub session_state: Seq<char>,
    pub acr: Seq<char>,
    pub allowed_origins: Seq<Seq<char>>,
    pub realm_roles: Seq<Seq<char>>,
    pub account_roles: Seq<Seq<char>>,
    pub scope: Seq<char>,
    pub sid: Seq<char>,
    pub email_verified: bool,
    pub name: Seq<char>,
    pub preferred_username: Seq<char>,
    pub given_name: Seq<char>,
    pub family_name: Seq<char>,
    pub email: Seq<char>,
    pub is_api_test: bool,
}

/// The mathematical value of [`LogoutClaims`].
pub struct LogoutClaimsView {
    pub iat: i64,
    pub jti: Seq<char>,
    pub iss: Seq<char>,
    pub aud: JsonValue,
    pub sub: Seq<char>,
    pub typ: Seq<char>,
    pub sid: Seq<char>,
}

impl View for Claims {
    type V = ClaimsView;

    open spec fn view(&self) -> ClaimsView {
        ClaimsView {
            exp: self.exp,
            iat: self.iat,
            auth_time: self.auth_time,
            jti: self.jti@,
            iss: self.iss@,
            aud: self.aud@,
            sub: self.sub@,
            typ: self.typ@,
            azp: self.azp@,
            session_state: self.session_state@,
            acr: self.acr@,
            allowed_origins: views(self.allowed_origins@),
            realm_roles: views(self.realm_access.roles@),
            account_roles: views(self.resource_access.account.roles@),
            scope: self.scope@,
            sid: self.sid@,
            email_verified: self.email_verified,
            name: self.name@,
            preferred_username: self.preferred_username@,
            given_name: self.given_name@,
            family_name: self.family_name@,
            email: self.email@,
            is_api_test: self.is_api_test,
        }
    }
}

impl View for LogoutClaims {
    type V = LogoutClaimsView;

    open spec fn view(&self) -> LogoutClaimsView {
        LogoutClaimsView {
            iat: self.iat,
            jti: self.jti@,
            iss: self.iss@,
            aud: self.aud@,
            sub: self.sub@,
            typ: self.typ@,
            sid: self.sid@,
        }
    }
}

/// The roles in the member `roles` of the member `name` of `json`.
pub open spec fn roles_at(json: JsonValue, name: Seq<char>) -> Option<Seq<Seq<char>>> {
    match json.member(name) {
        Some(access) => access.texts_at("roles"@),
        None => None,
    }
}

/// The roles on the account service: the member `roles` of the member
/// `account` of the member `resource_access` of `json`.
pub open spec fn account_roles_of(json: JsonValue) -> Option<Seq<Seq<char>>> {
    match json.member("resource_access"@) {
        Some(resources) => roles_at(resources, "account"@),
        None => None,
    }
}

/// The issuer that a payload names, where it names one as a text.
pub open spec fn issuer_of(json: JsonValue) -> Option<Seq<char>> {
    json.text_at("iss"@)
}

/// Whether a payload has the shape of an access token's claims: each
/// required member is there, and each member that is there has the right
/// kind of value.
pub open spec fn is_claims(json: JsonValue) -> bool {
    &&& json.integer_at("exp"@) is Some
    &&& json.integer_at("iat"@) is Some
    &&& json.optional_integer_at("auth_time"@) is Some
    &&& json.text_at("jti"@) is Some
    &&& json.text_at("iss"@) is Some
    &&& json.member("aud"@) is Some
    &&& json.text_at("sub"@) is Some
    &&& json.text_at("typ"@) is Some
    &&& json.text_at("azp"@) is Some
    &&& json.text_at("session_state"@) is Some
    &&& json.text_at("acr"@) is Some
    &&& json.texts_at("allowed-origins"@) is Some
    &&& roles_at(json, "realm_access"@) is Some
    &&& account_roles_of(json) is Some
    &&& json.text_or_empty_at("scope"@) is Some
    &&& json.text_or_empty_at("sid"@) is Some
    &&& json.flag_or_false_at("email_verified"@) is Some
    &&& json.text_or_empty_at("name"@) is Some
    &&& json.text_or_empty_at("preferred_username"@) is Some
    &&& json.text_or_empty_at("given_name"@) is Some
    &&& json.text_or_empty_at("family_name"@) is Some
    &&& json.text_or_empty_at("email"@) is Some
}

/// The claims of an access token that a payload holds.
pub open spec fn claims_of(json: JsonValue) -> Option<ClaimsView> {
    if is_claims(json) {
        Some(
            ClaimsView {
                exp: json.integer_at("exp"@)->0,
                iat: json.integer_at("iat"@)->0,
                auth_time: json.optional_integer_at("auth_time"@)->0,
                jti: json.text_at("jti"@)->0,
                iss: json.text_at("iss"@)->0,
                aud: json.member("aud"@)->0,
                sub: json.text_at("sub"@)->0,
                typ: json.text_at("typ"@)->0,
                azp: json.text_at("azp"@)->0,
                session_state: json.text_at("session_state"@)->0,
                acr: json.text_at("acr"@)->0,
                allowed_origins: json.texts_at("allowed-origins"@)->0,
                realm_roles: roles_at(json, "realm_access"@)->0,
                account_roles: account_roles_of(json)->0,
                scope: json.text_or_empty_at("scope"@)->0,
                sid: json.text_or_empty_at("sid"@)->0,
                email_verified: json.flag_or_false_at("email_verified"@)->0,
                name: json.text_or_empty_at("name"@)->0,
                preferred_username: json.text_or_empty_at("preferred_username"@)->0,
                given_name: json.text_or_empty_at("given_name"@)->0,
                family_name: json.text_or_empty_at("family_name"@)->0,
                email: json.text_or_empty_at("email"@)->0,
                is_api_test: false,
            },
        )
    } else {
        None
    }
}

/// Whether a payload has the shape of a logout token's claims.
pub open spec fn is_logout_claims(json: JsonValue) -> bool {
    &&& json.integer_at("iat"@) is Some
    &&& json.text_at("jti"@) is Some
    &&& json.text_at("iss"@) is Some
    &&& json.member("aud"@) is Some
    &&& json.text_at("sub"@) is Some
    &&& json.text_at("typ"@) is Some
    &&& json.text_at("sid"@) is Some
}

/// The claims of a logout token that a payload holds.
pub open spec fn logout_claims_of(json: JsonValue) -> Option<LogoutClaimsView> {
    if is_logout_claims(json) {
        Some(
            LogoutClaimsView {
                iat: json.integer_at("iat"@)->0,
                jti: json.text_at("jti"@)->0,
                iss: json.text_at("iss"@)->0,
                aud: json.member("aud"@)->0,
                sub: json.text_at("sub"@)->0,
                typ: json.text_at("typ"@)->0,
                sid: json.text_at("sid"@)->0,
            },
        )
    } else {
        None
    }
}

impl RealmAccess {
    /// Reads the roles in the member `name` of a payload.
    pub fn from_json(json: &Json, name: &str) -> (r: Option<RealmAccess>)
        ensures
            match r {
                Some(access) => roles_at(json@, name@) == Some(views(access.roles@)),
                None => roles_at(json@, name@) is None,
            },
    {
        match json.get(name) {
            Some(access) => match access.texts_at("roles") {
                Some(roles) => Some(RealmAccess { roles }),
                None => None,
            },
            None => None,
        }
    }
}

impl ResourceAccess {
    /// Reads the roles on the account service from a payload.
    pub fn from_json(json: &Json) -> (r: Option<ResourceAccess>)
        ensures
            match r {
                Some(access) => account_roles_of(json@) == Some(views(access.account.roles@)),
                None => account_roles_of(json@) is None,
            },
    {
        match json.get("resource_access") {
            Some(resources) => match RealmAccess::from_json(resources, "account") {
                Some(account) => Some(ResourceAccess { account }),
                None => None,
            },
            None => None,
        }
    }
}

impl PartialClaims {
    /// Reads the issuer from a payload.
    pub fn from_json(json: &Json) -> (r: Option<PartialClaims>)
        ensures
            match r {
                Some(claims) => issuer_of(json@) == Some(claims.iss@),
                None => issuer_of(json@) is None,
            },
    {
        match json.text_at("iss") {
            Some(iss) => Some(PartialClaims { iss }),
            None => None,
        }
    }
}

impl Claims {
    /// Reads the claims of an access token from a payload.
    pub fn from_json(json: &Json) -> (r: Option<Claims>)
        ensures
            match r {
                Some(claims) => claims_of(json@) == Some(claims@),
                None => claims_of(json@) is None,
            },
    {
        let exp = match json.integer_at("exp") {
            Some(exp) => exp,
            None => {
                return None;
            },
        };
        let iat = match json.integer_at("iat") {
            Some(iat) => iat,
            None => {
                return None;
            },
        };
        let auth_time = match json.optional_integer_at("auth_time") {
            Some(auth_time) => auth_time,
            None => {
                return None;
            },
        };
        let jti = match json.text_at("jti") {
            Some(jti) => jti,
            None => {
                return None;
            },
        };
        let iss = match json.text_at("iss") {
            Some(iss) => iss,
            None => {
                return None;
            },
        };
        let aud = match json.get("aud") {
            Some(aud) => aud.duplicate(),
            None => {
                return None;
            },
        };
        let sub = match json.text_at("sub") {
            Some(sub) => sub,
            None => {
                return None;
            },
        };
        let typ = match json.text_at("typ") {
            Some(typ) => typ,
            None => {
                return None;
            },
        };
        let azp = match json.text_at("azp") {
            Some(azp) => azp,
            None => {
                return None;
            },
        };
        let session_state = match json.text_at("session_state") {
            Some(session_state) => session_state,
            None => {
                return None;
            },
        };
        let acr = match json.text_at("acr") {
            Some(acr) => acr,
            None => {
                return None;
            },
        };
        let allowed_origins = match json.texts_at("allowed-origins") {
            Some(allowed_origins) => allowed_origins,
            None => {
                return None;
            },
        };
        let realm_access = match RealmAccess::from_json(json, "realm_access") {
            Some(realm_access) => realm_access,
            None => {
                return None;
            },
        };
        let resource_access = match ResourceAccess::from_json(json) {
            Some(resource_access) => resource_access,
            None => {
                return None;
            },
        };
        let scope = match json.text_or_empty_at("scope") {
            Some(scope) => scope,
            None => {
                return None;
            },
        };
        let sid = match json.text_or_empty_at("sid") {
            Some(sid) => sid,
            None => {
                return None;
            },
        };
        let email_verified = match json.flag_or_false_at("email_verified") {
            Some(email_verified) => email_verified,
            None => {
                return None;
            },
        };
        let name = match json.text_or_empty_at("name") {
            Some(name) => name,
            None => {
                return None;
            },
        };
        let preferred_username = match json.text_or_empty_at("preferred_username") {
            Some(preferred_username) => preferred_username,
            None => {
                return None;
            },
        };
        let given_name = match json.text_or_empty_at("given_name") {
            Some(given_name) => given_name,
            None => {
                return None;
            },
        };
        let family_name = match json.text_or_empty_at("family_name") {
            Some(family_name) => family_name,
            None => {
                return None;
            },
        };
        let email = match json.text_or_empty_at("email") {
            Some(email) => email,
            None => {
                return None;
            },
        };
        Some(
            Claims {
                exp,
                iat,
                auth_time,
                jti,
                iss,
                aud,
                sub,
                typ,
                azp,
                session_state,
                acr,
                allowed_origins,
                realm_access,
                resource_access,
                scope,
                sid,
                email_verified,
                name,
                preferred_username,
                given_name,
                family_name,
                email,
                is_api_test: false,
            },
        )
    }
}

impl Default for Claims {
    /// Made-up claims for a user called `user-id`, marked as such: no
    /// expiry, no roles, every text empty and the audience null.
    fn default() -> (r: Self)
        ensures
            r@ == (ClaimsView {
                exp: 0,
                iat: 0,
                auth_time: None,
                jti: Seq::empty(),
                iss: Seq::empty(),
                aud: JsonValue::Null,
                sub: "user-id"@,
                typ: Seq::empty(),
                azp: Seq::empty(),
                session_state: Seq::empty(),
                acr: Seq::empty(),
                allowed_origins: Seq::empty(),
                realm_roles: Seq::empty(),
                account_roles: Seq::empty(),
                scope: Seq::empty(),
                sid: Seq::empty(),
                email_verified: false,
                name: Seq::empty(),
                preferred_username: Seq::empty(),
                given_name: Seq::empty(),
                family_name: Seq::empty(),
                email: Seq::empty(),
                is_api_test: true,
            }),
    {
        let r = Claims {
            exp: 0,
            iat: 0,
            auth_time: None,
            jti: String::new(),
            iss: String::new(),
            aud: Json::Null,
            sub: String::from_str("user-id"),
            typ: String::new(),
            azp: String::new(),
            session_state: String::new(),
            acr: String::new(),
            allowed_origins: Vec::new(),
            realm_access: RealmAccess { roles: Vec::new() },
            resource_access: ResourceAccess { account: RealmAccess { roles: Vec::new() } },
            scope: String::new(),
            sid: String::new(),
            email_verified: false,
            name: String::new(),
            preferred_username: String::new(),
            given_name: String::new(),
            family_name: String::new(),
            email: String::new(),
            is_api_test: true,
        };
        assert(r@.allowed_origins =~= Seq::empty());
        assert(r@.realm_roles =~= Seq::empty());
        assert(r@.account_roles =~= Seq::empty());
        r
    }
}

impl LogoutClaims {
    /// Reads the claims of a logout token from a payload.
    pub fn from_json(json: &Json) -> (r: Option<LogoutClaims>)
        ensures
            match r {
                Some(claims) => logout_claims_of(json@) == Some(claims@),
                None => logout_claims_of(json@) is None,
            },
    {
        let iat = match json.integer_at("iat") {
            Some(iat) => iat,
            None => {
                return None;
            },
        };
        let jti = match json.text_at("jti") {
            Some(jti) => jti,
            None => {
                return None;
            },
        };
        let iss = match json.text_at("iss") {
            Some(iss) => iss,
            None => {
                return None;
            },
        };
        let aud = match json.get("aud") {
            Some(aud) => aud.duplicate(),
            None => {
                return None;
            },
        };
        let sub = match json.text_at("sub") {
            Some(sub) => sub,
            None => {
                return None;
            },
        };
        let typ = match json.text_at("typ") {
            Some(typ) => typ,
            None => {
                return None;
            },
        };
        let sid = match json.text_at("sid") {
            Some(sid) => sid,
            None => {
                return None;
            },
        };
        Some(LogoutClaims { iat, jti, iss, aud, sub, typ, sid })
    }
}

} // verus!
