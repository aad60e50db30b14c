use keycloak_jwt::error::Error;
use keycloak_jwt::error::Rejection;
use keycloak_jwt::json::Json;
use keycloak_jwt::token::decoder::Claims;
use keycloak_jwt::token::decoder::JwtDecoder;
use keycloak_jwt::token::decoder::LogoutClaims;
use keycloak_jwt::token::decoder::ValidationPolicy;
use keycloak_jwt::token::header::SignatureAlgorithm;

/// An RSA key pair that exists for these tests only.
const SIGNING_KEY: [u8; 1191] = [
    48, 130, 4, 163, 2, 1, 0, 2, 130, 1, 1, 0, 205, 222, 107, 208, 181, 197, 216, 91,
    80, 198, 43, 207, 106, 72, 62, 207, 142, 181, 220, 226, 114, 255, 140, 193, 223, 185, 236, 85,
    166, 247, 60, 27, 138, 142, 192, 144, 47, 227, 94, 64, 142, 38, 88, 56, 2, 225, 99, 52,
    196, 55, 103, 66, 130, 150, 182, 232, 209, 166, 22, 227, 42, 88, 175, 134, 173, 26, 186, 215,
    75, 232, 152, 16, 152, 176, 10, 167, 54, 221, 169, 89, 141, 43, 73, 32, 98, 2, 155, 160,
    235, 137, 17, 228, 224, 233, 115, 220, 231, 185, 186, 239, 95, 1, 49, 7, 5, 58, 159, 157,
    144, 230, 177, 114, 210, 254, 213, 134, 49, 176, 210, 105, 113, 247, 16, 27, 72, 237, 128, 110,
    170, 80, 133, 101, 241, 246, 154, 190, 255, 196, 171, 15, 130, 169, 170, 7, 11, 23, 103, 172,
    133, 113, 211, 176, 120, 205, 14, 117, 220, 33, 154, 8, 253, 155, 220, 31, 131, 18, 130, 12,
    182, 41, 123, 254, 88, 60, 229, 177, 111, 137, 127, 155, 35, 242, 134, 136, 209, 238, 42, 200,
    38, 139, 240, 164, 140, 43, 122, 128, 28, 203, 192, 229, 102, 222, 121, 62, 247, 107, 171, 2,
    22, 64, 178, 21, 39, 60, 141, 66, 222, 26, 26, 150, 86, 92, 203, 85, 188, 25, 65, 172,
    229, 83, 168, 30, 177, 123, 84, 101, 81, 244, 203, 70, 11, 115, 154, 233, 127, 90, 28, 167,
    33, 92, 212, 150, 151, 194, 62, 191, 2, 3, 1, 0, 1, 2, 130, 1, 0, 55, 121, 29,
    45, 62, 165, 226, 176, 108, 122, 17, 217, 16, 167, 10, 1, 204, 207, 53, 135, 113, 124, 105,
    245, 221, 238, 207, 255, 158, 127, 149, 91, 72, 129, 65, 227, 56, 124, 56, 108, 5, 193, 208,
    88, 187, 113, 247, 85, 3, 32, 120, 187, 35, 204, 47, 218, 89, 143, 187, 48, 24, 59, 144,
    132, 166, 69, 131, 30, 59, 142, 159, 215, 45, 5, 150, 193, 75, 23, 252, 167, 172, 82, 3,
    32, 238, 56, 12, 174, 150, 121, 55, 112, 168, 168, 79, 119, 177, 155, 75, 3, 112, 98, 182,
    78, 209, 122, 100, 3, 69, 197, 219, 255, 248, 90, 1, 184, 104, 208, 96, 74, 88, 146, 189,
    236, 212, 64, 103, 48, 46, 208, 132, 132, 142, 124, 121, 76, 137, 107, 209, 176, 173, 192, 156,
    198, 153, 130, 135, 32, 177, 250, 109, 135, 137, 111, 109, 212, 94, 161, 35, 166, 50, 81, 43,
    109, 162, 228, 243, 122, 58, 127, 155, 175, 23, 194, 250, 124, 164, 20, 224, 16, 67, 249, 19,
    128, 218, 235, 57, 99, 146, 91, 237, 96, 108, 206, 12, 247, 41, 168, 170, 227, 194, 64, 182,
    67, 44, 54, 149, 25, 235, 205, 240, 235, 94, 70, 175, 142, 215, 21, 246, 247, 252, 48, 232,
    77, 134, 57, 105, 136, 223, 13, 17, 44, 130, 201, 9, 14, 191, 152, 171, 114, 204, 251, 249,
    70, 162, 32, 136, 131, 168, 83, 207, 50, 243, 171, 197, 205, 2, 129, 129, 0, 244, 49, 132,
    198, 114, 10, 143, 75, 106, 198, 16, 35, 106, 154, 25, 208, 181, 166, 118, 108, 89, 207, 203,
    127, 239, 89, 227, 4, 12, 93, 122, 39, 183, 22, 83, 53, 89, 249, 231, 117, 34, 22, 1,
    23, 95, 80, 33, 81, 181, 217, 196, 132, 2, 157, 129, 99, 226, 199, 95, 255, 199, 66, 215,
    69, 82, 29, 87, 243, 56, 224, 99, 51, 73, 106, 220, 2, 59, 17, 196, 111, 146, 91, 73,
    252, 236, 98, 33, 228, 242, 157, 200, 14, 151, 28, 238, 95, 100, 78, 2, 118, 100, 149, 54,
    106, 130, 68, 162, 236, 70, 198, 236, 190, 149, 120, 200, 26, 86, 110, 148, 149, 12, 225, 150,
    127, 150, 71, 225, 149, 2, 129, 129, 0, 215, 210, 139, 25, 106, 45, 75, 221, 197, 197, 26,
    120, 33, 104, 34, 222, 165, 217, 227, 45, 186, 187, 154, 134, 68, 248, 27, 4, 9, 175, 192,
    195, 144, 196, 97, 111, 185, 226, 166, 99, 189, 78, 109, 95, 199, 127, 138, 61, 207, 86, 47,
    37, 152, 221, 103, 43, 148, 249, 169, 4, 37, 11, 204, 38, 203, 246, 89, 128, 215, 138, 185,
    136, 37, 80, 253, 61, 220, 13, 27, 194, 126, 25, 123, 91, 30, 244, 57, 185, 49, 213, 28,
    193, 164, 192, 99, 131, 20, 208, 99, 176, 104, 215, 21, 185, 6, 222, 142, 160, 98, 129, 200,
    2, 100, 70, 144, 74, 108, 174, 103, 187, 200, 242, 186, 167, 111, 141, 178, 3, 2, 129, 128,
    23, 232, 1, 39, 172, 98, 124, 68, 213, 223, 46, 21, 73, 138, 108, 156, 146, 44, 9, 203,
    241, 190, 246, 29, 64, 65, 124, 136, 24, 237, 205, 215, 181, 132, 234, 0, 127, 30, 136, 26,
    95, 139, 231, 239, 113, 213, 86, 109, 185, 111, 232, 93, 68, 36, 71, 86, 144, 13, 20, 200,
    229, 169, 21, 138, 35, 207, 219, 156, 100, 37, 19, 145, 33, 206, 228, 91, 19, 141, 89, 189,
    210, 134, 61, 104, 21, 124, 69, 245, 52, 11, 94, 90, 143, 80, 181, 197, 128, 252, 98, 33,
    85, 23, 134, 140, 70, 212, 145, 94, 176, 79, 41, 62, 63, 67, 227, 211, 48, 67, 3, 40,
    212, 106, 1, 97, 220, 68, 141, 65, 2, 129, 129, 0, 201, 171, 36, 109, 120, 40, 161, 102,
    182, 225, 202, 45, 12, 210, 89, 27, 1, 145, 11, 86, 116, 209, 206, 191, 190, 124, 180, 9,
    222, 223, 74, 217, 179, 81, 189, 214, 127, 181, 9, 83, 211, 214, 16, 31, 218, 180, 19, 194,
    84, 22, 173, 113, 141, 88, 253, 137, 220, 232, 57, 133, 244, 244, 4, 45, 16, 147, 190, 232,
    197, 0, 13, 3, 234, 18, 182, 192, 113, 250, 17, 193, 120, 193, 104, 226, 41, 151, 126, 196,
    205, 138, 221, 23, 25, 82, 232, 233, 216, 174, 45, 40, 239, 158, 99, 223, 4, 75, 60, 173,
    35, 191, 47, 221, 4, 68, 103, 154, 19, 218, 24, 118, 129, 124, 70, 236, 36, 50, 28, 111,
    2, 129, 128, 117, 168, 211, 111, 52, 17, 104, 154, 115, 245, 229, 182, 135, 195, 197, 126, 130,
    92, 134, 115, 165, 170, 73, 44, 6, 111, 93, 215, 193, 24, 123, 34, 49, 142, 24, 96, 164,
    189, 103, 92, 89, 116, 0, 87, 170, 250, 122, 249, 10, 162, 246, 21, 131, 117, 85, 28, 50,
    69, 159, 193, 182, 215, 160, 170, 122, 202, 9, 220, 124, 236, 54, 34, 108, 221, 249, 236, 43,
    203, 113, 159, 92, 147, 39, 133, 206, 30, 113, 128, 27, 207, 255, 177, 37, 142, 235, 68, 247,
    250, 190, 171, 36, 246, 120, 134, 57, 250, 139, 235, 209, 16, 2, 189, 39, 184, 236, 80, 61,
    250, 101, 151, 204, 38, 173, 24, 125, 227, 187, 93,
];

const PUBLIC_KEY: &str = "MIIBIjANBgkqhkiG9w0BAQEFAAOCAQ8AMIIBCgKCAQEAzd5r0LXF2FtQxivPakg+z4613OJy/4zB37nsVab3PBuKjsCQL+NeQI4mWDgC4WM0xDdnQoKWtujRphbjKlivhq0autdL6JgQmLAKpzbdqVmNK0kgYgKboOuJEeTg6XPc57m6718BMQcFOp+dkOaxctL+1YYxsNJpcfcQG0jtgG6qUIVl8faavv/Eqw+CqaoHCxdnrIVx07B4zQ513CGaCP2b3B+DEoIMtil7/lg85bFviX+bI/KGiNHuKsgmi/CkjCt6gBzLwOVm3nk+92urAhZAshUnPI1C3hoallZcy1W8GUGs5VOoHrF7VGVR9MtGC3Oa6X9aHKchXNSWl8I+vwIDAQAB";

const OTHER_PUBLIC_KEY: &str = "MIIBIjANBgkqhkiG9w0BAQEFAAOCAQ8AMIIBCgKCAQEAxKA0GGZekjc+gwzRKkA7AP9aZ7wbonwh7fk3gjZFz4NOYgjKGlv92QV8yd4quEay/ewaU1b27uU8gBFzy7VFbsOLxzsZdfPq70WP5R4pOs/+Sme/yw8tAmJ9c6Z5tbMVoZ5h73+mBdUVtx5HFEKxpBVbdkfNtRGe9bVkEfJRMG6RbUFVerNTY3j5MGSTIACeqOfHB8DJHe0JRw2yIvZa1OHhgtMuVIp9YfIFz4XQxK7k8jD9S0+h7Hf/x9C+elvTqHKBUBdHt7fAJizkkzzZKr/l3egbrjB3+tb55f05dd2RTxf2M4m38E0stswUxNY2UpRHTP8jinXX+DLVmwlW9wIDAQAB";

const PUBLIC_URL: &str = "https://id.example";

fn now() -> i64 {
    std::time::SystemTime::now().duration_since(std::time::UNIX_EPOCH).unwrap().as_secs() as i64
}

fn texts(items: &[&str]) -> serde_json::Value {
    serde_json::Value::Array(items.iter().map(|s| serde_json::Value::from(*s)).collect())
}

fn roles(items: &[&str]) -> serde_json::Value {
    let mut access = serde_json::Map::new();
    access.insert("roles".to_string(), texts(items));
    serde_json::Value::Object(access)
}

fn access_payload(iss: &str, exp: i64) -> serde_json::Map<String, serde_json::Value> {
    let mut account = serde_json::Map::new();
    account.insert("account".to_string(), roles(&["manage-account", "view-profile"]));
    let mut payload = serde_json::Map::new();
    payload.insert("exp".to_string(), serde_json::Value::from(exp));
    payload.insert("iat".to_string(), serde_json::Value::from(exp - 3600));
    payload.insert("auth_time".to_string(), serde_json::Value::from(exp - 3700));
    payload.insert("jti".to_string(), serde_json::Value::from("token-1"));
    payload.insert("iss".to_string(), serde_json::Value::from(iss));
    payload.insert("aud".to_string(), texts(&["account", "backend"]));
    payload.insert("sub".to_string(), serde_json::Value::from("user-42"));
    payload.insert("typ".to_string(), serde_json::Value::from("Bearer"));
    payload.insert("azp".to_string(), serde_json::Value::from("frontend"));
    payload.insert("session_state".to_string(), serde_json::Value::from("session-7"));
    payload.insert("acr".to_string(), serde_json::Value::from("1"));
    payload.insert("allowed-origins".to_string(), texts(&["https://app.example"]));
    payload.insert("realm_access".to_string(), roles(&["user", "offline_access"]));
    payload.insert("resource_access".to_string(), serde_json::Value::Object(account));
    payload.insert("scope".to_string(), serde_json::Value::from("openid profile"));
    payload.insert("sid".to_string(), serde_json::Value::from("session-7"));
    payload.insert("email_verified".to_string(), serde_json::Value::from(true));
    payload.insert("name".to_string(), serde_json::Value::from("Ada Lovelace"));
    payload.insert("preferred_username".to_string(), serde_json::Value::from("ada"));
    payload.insert("given_name".to_string(), serde_json::Value::from("Ada"));
    payload.insert("family_name".to_string(), serde_json::Value::from("Lovelace"));
    payload.insert("email".to_string(), serde_json::Value::from("ada@example.org"));
    payload
}

fn logout_payload(iss: &str) -> serde_json::Map<String, serde_json::Value> {
    let mut payload = serde_json::Map::new();
    payload.insert("iat".to_string(), serde_json::Value::from(1_700_000_000i64));
    payload.insert("jti".to_string(), serde_json::Value::from("logout-1"));
    payload.insert("iss".to_string(), serde_json::Value::from(iss));
    payload.insert("aud".to_string(), serde_json::Value::from("frontend"));
    payload.insert("sub".to_string(), serde_json::Value::from("user-42"));
    payload.insert("typ".to_string(), serde_json::Value::from("Logout"));
    payload.insert("sid".to_string(), serde_json::Value::from("session-7"));
    payload
}

fn sign(
    algorithm: jsonwebtoken::Algorithm,
    kid: Option<&str>,
    payload: &serde_json::Map<String, serde_json::Value>,
) -> String {
    let mut header = jsonwebtoken::Header::new(algorithm);
    header.kid = kid.map(|k| k.to_string());
    let key = jsonwebtoken::EncodingKey::from_rsa_der(&SIGNING_KEY);
    jsonwebtoken::encode(&header, payload, &key).unwrap()
}


fn decoder() -> JwtDecoder {
    JwtDecoder::new(SignatureAlgorithm::RS256, "k1".to_string(), PUBLIC_KEY).unwrap()
}

fn verifier_kind(error: Error) -> jsonwebtoken::errors::ErrorKind {
    match error {
        Error::JwtError(Rejection::Verifier(kind)) => kind,
        other => panic!("not the verifier's report: {:?}", other),
    }
}

#[test]
fn new_makes_a_decoder_for_each_accepted_algorithm() {
    for algorithm in [SignatureAlgorithm::RS256, SignatureAlgorithm::RS384, SignatureAlgorithm::RS512] {
        let decoder = JwtDecoder::new(algorithm, "key-1".to_string(), PUBLIC_KEY).unwrap();
        assert_eq!(decoder.kid, "key-1");
        assert_eq!(decoder.kid(), "key-1");
        assert_eq!(decoder.algorithm(), algorithm);
    }
}

#[test]
fn new_turns_away_every_other_algorithm() {
    for algorithm in [
        SignatureAlgorithm::HS256,
        SignatureAlgorithm::HS384,
        SignatureAlgorithm::HS512,
        SignatureAlgorithm::ES256,
        SignatureAlgorithm::ES384,
        SignatureAlgorithm::PS256,
        SignatureAlgorithm::PS384,
        SignatureAlgorithm::PS512,
        SignatureAlgorithm::EdDSA,
    ] {
        let outcome = JwtDecoder::new(algorithm, "k1".to_string(), PUBLIC_KEY);
        assert!(matches!(outcome, Err(Error::InvalidToken)), "{:?}", algorithm);
        let outcome = JwtDecoder::new(algorithm, "k1".to_string(), "no key");
        assert!(matches!(outcome, Err(Error::InvalidToken)), "{:?}", algorithm);
    }
}

#[test]
fn new_reports_a_key_that_cannot_be_read() {
    for key in ["", "no key", "bm90IGEga2V5", "-----BEGIN PUBLIC KEY-----"] {
        match JwtDecoder::new(SignatureAlgorithm::RS256, "k1".to_string(), key) {
            Err(error) => assert_eq!(
                verifier_kind(error),
                jsonwebtoken::errors::ErrorKind::InvalidKeyFormat,
                "{key}"
            ),
            Ok(_) => panic!("a decoder was made of {key}"),
        }
    }
}

#[test]
fn the_two_policies_are_fixed_by_the_algorithm() {
    let decoder = JwtDecoder::new(SignatureAlgorithm::RS384, "k1".to_string(), PUBLIC_KEY).unwrap();
    let access = decoder.validation();
    assert_eq!(access.algorithm, SignatureAlgorithm::RS384);
    assert_eq!(access.audience, Some(vec!["account".to_string()]));
    assert!(access.validate_exp);
    assert_eq!(access.required_claims, vec!["exp".to_string()]);
    let logout = decoder.logout_validation();
    assert_eq!(logout.algorithm, SignatureAlgorithm::RS384);
    assert_eq!(logout.audience, None);
    assert!(!logout.validate_exp);
    assert_eq!(
        logout.required_claims,
        vec!["sub".to_string(), "iss".to_string(), "aud".to_string()]
    );
    let access = ValidationPolicy::access(SignatureAlgorithm::RS256);
    assert_eq!(access.audience, Some(vec!["account".to_string()]));
    let logout = ValidationPolicy::logout(SignatureAlgorithm::RS256);
    assert_eq!(logout.required_claims.len(), 3);
}

#[test]
fn decode_returns_the_signed_claims() {
    let exp = now() + 3600;
    let token = sign(
        jsonwebtoken::Algorithm::RS256,
        Some("k1"),
        &access_payload("https://id.example/realms/tenant-a", exp),
    );
    let claims = decoder().decode(&token).unwrap();
    assert_eq!(claims.exp, exp);
    assert_eq!(claims.sub, "user-42");
    assert_eq!(claims.realm_access.roles, vec!["user".to_string(), "offline_access".to_string()]);
}

#[test]
fn decode_does_not_look_at_the_key_identifier() {
    let payload = access_payload("https://id.example/realms/tenant-a", now() + 60);
    let token = sign(jsonwebtoken::Algorithm::RS256, Some("another"), &payload);
    assert_eq!(decoder().decode(&token).unwrap().jti, "token-1");
    let token = sign(jsonwebtoken::Algorithm::RS256, None, &payload);
    assert_eq!(decoder().decode(&token).unwrap().jti, "token-1");
}

#[test]
fn decode_rejects_what_the_key_did_not_sign() {
    let token = sign(
        jsonwebtoken::Algorithm::RS256,
        Some("k1"),
        &access_payload("https://id.example/realms/tenant-a", now() + 60),
    );
    let other = JwtDecoder::new(SignatureAlgorithm::RS256, "k1".to_string(), OTHER_PUBLIC_KEY).unwrap();
    assert_eq!(verifier_kind(other.decode(&token).unwrap_err()), jsonwebtoken::errors::ErrorKind::InvalidSignature);
    assert_eq!(verifier_kind(other.decode_logout_token(&token).unwrap_err()), jsonwebtoken::errors::ErrorKind::InvalidSignature);
    let cut = token.len() - 4;
    let shorter = &token[..cut];
    assert!(matches!(decoder().decode(shorter), Err(Error::JwtError(_))));
    assert!(matches!(decoder().decode(""), Err(Error::JwtError(_))));
    assert!(matches!(decoder().decode("a.b.c"), Err(Error::JwtError(_))));
}

#[test]
fn decode_enforces_the_expiry_and_decode_logout_token_does_not() {
    let token = sign(
        jsonwebtoken::Algorithm::RS256,
        Some("k1"),
        &access_payload("https://id.example/realms/tenant-a", now() - 3600),
    );
    assert_eq!(verifier_kind(decoder().decode(&token).unwrap_err()), jsonwebtoken::errors::ErrorKind::ExpiredSignature);
    let claims: LogoutClaims = decoder().decode_logout_token(&token).unwrap();
    assert_eq!(claims.sub, "user-42");
    assert_eq!(claims.typ, "Bearer");
}

#[test]
fn decode_allows_a_minute_of_clock_skew() {
    let token = sign(
        jsonwebtoken::Algorithm::RS256,
        Some("k1"),
        &access_payload("https://id.example/realms/tenant-a", now() - 30),
    );
    assert!(decoder().decode(&token).is_ok());
    let token = sign(
        jsonwebtoken::Algorithm::RS256,
        Some("k1"),
        &access_payload("https://id.example/realms/tenant-a", now() - 90),
    );
    assert_eq!(verifier_kind(decoder().decode(&token).unwrap_err()), jsonwebtoken::errors::ErrorKind::ExpiredSignature);
}

#[test]
fn decode_asks_for_an_expiry() {
    let mut payload = access_payload("https://id.example/realms/tenant-a", now() + 60);
    payload.remove("exp");
    let token = sign(jsonwebtoken::Algorithm::RS256, Some("k1"), &payload);
    assert_eq!(
        verifier_kind(decoder().decode(&token).unwrap_err()),
        jsonwebtoken::errors::ErrorKind::MissingRequiredClaim("exp".to_string())
    );
}

#[test]
fn decode_logout_token_asks_for_subject_issuer_and_audience() {
    for (missing, message) in [
        ("sub", Some(jsonwebtoken::errors::ErrorKind::MissingRequiredClaim("sub".to_string()))),
        ("iss", Some(jsonwebtoken::errors::ErrorKind::MissingRequiredClaim("iss".to_string()))),
        ("aud", Some(jsonwebtoken::errors::ErrorKind::MissingRequiredClaim("aud".to_string()))),
        ("sid", None),
        ("typ", None),
        ("jti", None),
        ("iat", None),
    ] {
        let mut payload = logout_payload("https://id.example/realms/tenant-a");
        payload.remove(missing);
        let token = sign(jsonwebtoken::Algorithm::RS256, Some("k1"), &payload);
        match (decoder().decode_logout_token(&token), message) {
            (Err(error), Some(message)) => assert_eq!(verifier_kind(error), message),
            (Err(Error::JwtError(Rejection::Claims)), None) => {}
            (other, _) => panic!("{missing}: {:?}", other.map(|claims| claims.jti)),
        }
    }
}

#[test]
fn decode_logout_token_takes_any_audience() {
    let mut payload = logout_payload("https://id.example/realms/tenant-a");
    payload.insert("aud".to_string(), texts(&["one", "two"]));
    let token = sign(jsonwebtoken::Algorithm::RS256, Some("k1"), &payload);
    let claims = decoder().decode_logout_token(&token).unwrap();
    assert!(matches!(claims.aud, Json::Array(items) if items.len() == 2));
}

#[test]
fn from_verified_hands_on_a_rejection() {
    let outcome = Claims::from_verified(Err(jsonwebtoken::errors::ErrorKind::InvalidSignature));
    assert_eq!(verifier_kind(outcome.unwrap_err()), jsonwebtoken::errors::ErrorKind::InvalidSignature);
    let outcome =
        LogoutClaims::from_verified(Err(jsonwebtoken::errors::ErrorKind::InvalidSignature));
    assert_eq!(verifier_kind(outcome.unwrap_err()), jsonwebtoken::errors::ErrorKind::InvalidSignature);
    let outcome = Claims::from_verified(Ok(Json::Null));
    assert!(matches!(outcome, Err(Error::JwtError(Rejection::Claims))));
    let outcome = LogoutClaims::from_verified(Ok(Json::Array(vec![])));
    assert!(matches!(outcome, Err(Error::JwtError(Rejection::Claims))));
}

#[test]
fn decode_asks_for_an_audience_that_holds_account() {
    for (aud, accepted) in [
        (texts(&["account"]), true),
        (serde_json::Value::from("account"), true),
        (serde_json::Value::Array(vec![serde_json::Value::from(1), serde_json::Value::from("account")]), true),
        (serde_json::Value::Array(vec![serde_json::Value::from("other"), serde_json::Value::from(1)]), false),
        (serde_json::Value::Array(vec![]), false),
        (serde_json::Value::from(5), false),
        (serde_json::Value::Null, false),
        (serde_json::Value::from(true), false),
        (roles(&["account"]), false),
    ] {
        let mut payload = access_payload("https://id.example/realms/tenant-a", now() + 60);
        payload.insert("aud".to_string(), aud.clone());
        let token = sign(jsonwebtoken::Algorithm::RS256, Some("k1"), &payload);
        match decoder().decode(&token) {
            Ok(claims) => assert!(accepted, "{aud}: {:?}", claims.aud),
            Err(Error::JwtError(_)) => assert!(!accepted, "{aud}"),
            Err(other) => panic!("{aud}: {:?}", other),
        }
    }
}

#[test]
fn an_audience_that_the_verifier_lets_pass_is_still_held_to_account() {
    let mut payload = access_payload("https://id.example/realms/tenant-a", now() + 60);
    payload.insert("aud".to_string(), serde_json::Value::from(5));
    let token = sign(jsonwebtoken::Algorithm::RS256, Some("k1"), &payload);
    let outcome = decoder().decode(&token);
    assert!(matches!(outcome, Err(Error::JwtError(Rejection::Audience))));
    let mut payload = access_payload("https://id.example/realms/tenant-a", now() + 60);
    payload.insert("aud".to_string(), texts(&["other"]));
    let token = sign(jsonwebtoken::Algorithm::RS256, Some("k1"), &payload);
    assert_eq!(
        verifier_kind(decoder().decode(&token).unwrap_err()),
        jsonwebtoken::errors::ErrorKind::InvalidAudience
    );
}

#[test]
fn from_verified_asks_for_the_audience_too() {
    let exp = now() + 60;
    let mut payload = access_payload("https://id.example/realms/tenant-a", exp);
    let text = serde_json::to_vec(&payload).unwrap();
    let claims = Claims::from_verified(Ok(keycloak_jwt::json::parse(&text).unwrap())).unwrap();
    assert_eq!(claims.exp, exp);
    payload.insert("aud".to_string(), texts(&["backend"]));
    let text = serde_json::to_vec(&payload).unwrap();
    let outcome = Claims::from_verified(Ok(keycloak_jwt::json::parse(&text).unwrap()));
    assert!(matches!(outcome, Err(Error::JwtError(Rejection::Audience))));
    let outcome = LogoutClaims::from_verified(Ok(keycloak_jwt::json::parse(&text).unwrap()));
    assert_eq!(outcome.unwrap().sub, "user-42");
}

#[test]
fn a_copy_of_a_decoder_decodes_as_the_decoder_does() {
    let token = sign(
        jsonwebtoken::Algorithm::RS256,
        Some("k1"),
        &access_payload("https://id.example/realms/tenant-a", now() + 60),
    );
    let first = JwtDecoder::new(SignatureAlgorithm::RS256, "k1".to_string(), PUBLIC_KEY).unwrap();
    let second = first.clone();
    assert_eq!(second.kid, "k1");
    assert_eq!(second.algorithm(), SignatureAlgorithm::RS256);
    assert_eq!(second.validation().audience, first.validation().audience);
    assert_eq!(second.validation().required_claims, first.validation().required_claims);
    assert_eq!(second.logout_validation().validate_exp, first.logout_validation().validate_exp);
    assert_eq!(second.decode(&token).unwrap().jti, first.decode(&token).unwrap().jti);
    let other = JwtDecoder::new(SignatureAlgorithm::RS256, "k1".to_string(), OTHER_PUBLIC_KEY).unwrap();
    assert!(other.clone().decode(&token).is_err());
    let policy = ValidationPolicy::logout(SignatureAlgorithm::RS512).clone();
    assert_eq!(policy.algorithm, SignatureAlgorithm::RS512);
    assert_eq!(policy.audience, None);
    assert!(!policy.validate_exp);
    assert_eq!(policy.required_claims.len(), 3);
}
