use chrono::{Duration, Utc};
use school_auth::configs::common::AuthConfig;
use school_auth::helper::exceptions::AuthError;
use school_auth::schemas::auth_schemas::TokenClaims;
use school_auth::services::token_service::TokenService;
use uuid::Uuid;

const SECRET_KEY: &str = "PEP+DnYqfglRX+vextkRcA=";
const SUBJECT: &str = "70819fbb-e89c-454a-b80a-507c994264ee";
const TENANT: &str = "0b0e2b1c-6f6d-4c55-9d3a-1f2e3d4c5b6a";

fn config(issuer: &str, audience: &str) -> AuthConfig {
    AuthConfig {
        secret_key: SECRET_KEY.to_string(),
        token_expire_minutes: 10_i64,
        issuer: issuer.to_string(),
        audience: audience.to_string(),
    }
}

fn claims(iat: i64, exp: i64) -> TokenClaims {
    TokenClaims {
        exp,
        iat,
        sub: Uuid::parse_str(SUBJECT).unwrap().as_u128(),
        email: "test@domain.com".to_string(),
        tenant_id: None,
        admin: false,
        active: true,
        nbf: None,
        iss: None,
        aud: None,
    }
}

fn raw_token(payload: &serde_json::Map<String, serde_json::Value>) -> String {
    jsonwebtoken::encode(
        &jsonwebtoken::Header::default(),
        payload,
        &jsonwebtoken::EncodingKey::from_secret(SECRET_KEY.as_bytes()),
    )
    .unwrap()
}

fn full_payload() -> serde_json::Map<String, serde_json::Value> {
    let mut payload = serde_json::Map::new();
    payload.insert("exp".to_string(), serde_json::Value::from(2000_i64));
    payload.insert("iat".to_string(), serde_json::Value::from(1000_i64));
    payload.insert("sub".to_string(), serde_json::Value::from(SUBJECT));
    payload.insert("email".to_string(), serde_json::Value::from("test@domain.com"));
    payload.insert("tenant_id".to_string(), serde_json::Value::Null);
    payload.insert("admin".to_string(), serde_json::Value::from(false));
    payload.insert("active".to_string(), serde_json::Value::from(true));
    payload
}

#[test]
fn test_encode() {
    let auth_config = config("", "");
    let token_claims = TokenClaims {
        exp: Utc::now().timestamp()
            + Duration::minutes(auth_config.token_expire_minutes).num_seconds(),
        iat: Utc::now().timestamp(),
        sub: Uuid::parse_str("70819fbb-e89c-454a-b80a-507c994264ee").unwrap().as_u128(),
        email: "test@domain.com".to_string(),
        tenant_id: None,
        admin: false,
        active: true,
        nbf: None,
        iss: None,
        aud: None,
    };
    let token = TokenService::encode(&auth_config.secret_key, token_claims);
    assert!(token.is_ok());
}

#[test]
fn test_decode() {
    let auth_config = config("", "");
    let token_claims = TokenClaims {
        exp: Utc::now().timestamp()
            + Duration::minutes(auth_config.token_expire_minutes).num_seconds(),
        iat: Utc::now().timestamp(),
        sub: Uuid::parse_str("70819fbb-e89c-454a-b80a-507c994264ee").unwrap().as_u128(),
        email: "test@domain.com".to_string(),
        tenant_id: None,
        admin: false,
        active: true,
        nbf: None,
        iss: None,
        aud: None,
    };
    let token = TokenService::encode(&auth_config.secret_key, token_claims);
    assert!(token.is_ok());
    let token = token.unwrap();
    let decoded = TokenService::decode(&token, &auth_config);
    assert!(&decoded.is_ok());

    let claims = decoded.unwrap();
    assert_eq!(claims.email == "test@domain.com", true);
    assert_eq!(claims.admin, false);
    assert_eq!(claims.active, true);
    assert_eq!(claims.tenant_id, None);
    assert_eq!(
        claims.sub,
        Uuid::parse_str("70819fbb-e89c-454a-b80a-507c994264ee").unwrap().as_u128()
    );
    assert_eq!(claims.exp > Utc::now().timestamp(), true);
    assert_eq!(claims.iat <= Utc::now().timestamp(), true);
}

#[test]
fn round_trip_returns_every_claim() {
    let tenant = Uuid::parse_str(TENANT).unwrap().as_u128();
    let issued = TokenClaims {
        exp: 2000,
        iat: 1000,
        sub: Uuid::parse_str(SUBJECT).unwrap().as_u128(),
        email: "zoë \"q\" \\ <test@domain.com>".to_string(),
        tenant_id: Some(tenant),
        admin: true,
        active: false,
        nbf: Some(1200),
        iss: Some("school".to_string()),
        aud: Some("clients".to_string()),
    };
    let token = TokenService::encode(SECRET_KEY, issued).unwrap();
    let decoded = TokenService::decode_at(&token, &config("school", "clients"), 1500).unwrap();
    assert_eq!(decoded.exp, 2000);
    assert_eq!(decoded.iat, 1000);
    assert_eq!(decoded.sub, Uuid::parse_str(SUBJECT).unwrap().as_u128());
    assert_eq!(decoded.email, "zoë \"q\" \\ <test@domain.com>");
    assert_eq!(decoded.tenant_id, Some(tenant));
    assert_eq!(decoded.admin, true);
    assert_eq!(decoded.active, false);
    assert_eq!(decoded.nbf, Some(1200));
    assert_eq!(decoded.iss, Some("school".to_string()));
    assert_eq!(decoded.aud, Some("clients".to_string()));
}

#[test]
fn round_trip_keeps_extreme_values() {
    let issued = TokenClaims {
        exp: i64::MAX,
        iat: i64::MIN,
        sub: u128::MAX,
        email: String::new(),
        tenant_id: Some(0),
        admin: false,
        active: false,
        nbf: Some(-5),
        iss: Some(String::new()),
        aud: None,
    };
    let token = TokenService::encode("", issued).unwrap();
    let mut cfg = config("", "");
    cfg.secret_key = String::new();
    let decoded = TokenService::decode_at(&token, &cfg, 0).unwrap();
    assert_eq!(decoded.exp, i64::MAX);
    assert_eq!(decoded.iat, i64::MIN);
    assert_eq!(decoded.sub, u128::MAX);
    assert_eq!(decoded.email, "");
    assert_eq!(decoded.tenant_id, Some(0));
    assert_eq!(decoded.nbf, Some(-5));
    assert_eq!(decoded.iss, Some(String::new()));
    assert_eq!(decoded.aud, None);
}

#[test]
fn token_is_a_standard_three_part_jwt() {
    let now = Utc::now().timestamp();
    let token = TokenService::encode(SECRET_KEY, claims(now, now + 600)).unwrap();
    assert_eq!(token.split('.').count(), 3);
    assert!(!token.contains(SECRET_KEY));
    let read = jsonwebtoken::decode::<serde_json::Value>(
        &token,
        &jsonwebtoken::DecodingKey::from_secret(SECRET_KEY.as_bytes()),
        &jsonwebtoken::Validation::new(jsonwebtoken::Algorithm::HS256),
    )
    .unwrap();
    assert_eq!(read.header.alg, jsonwebtoken::Algorithm::HS256);
    assert_eq!(read.claims.get("exp").and_then(|v| v.as_i64()), Some(now + 600));
    assert_eq!(read.claims.get("iat").and_then(|v| v.as_i64()), Some(now));
    assert_eq!(read.claims.get("sub").and_then(|v| v.as_str()), Some(SUBJECT));
    assert_eq!(read.claims.get("email").and_then(|v| v.as_str()), Some("test@domain.com"));
    assert_eq!(read.claims.get("tenant_id").map(|v| v.is_null()), Some(true));
    assert_eq!(read.claims.get("admin").and_then(|v| v.as_bool()), Some(false));
    assert_eq!(read.claims.get("active").and_then(|v| v.as_bool()), Some(true));
    assert!(read.claims.get("nbf").is_none());
    assert!(read.claims.get("iss").is_none());
    assert!(read.claims.get("aud").is_none());
}

#[test]
fn encode_is_deterministic() {
    let a = TokenService::encode(SECRET_KEY, claims(1000, 2000)).unwrap();
    let b = TokenService::encode(SECRET_KEY, claims(1000, 2000)).unwrap();
    let c = TokenService::encode(SECRET_KEY, claims(1000, 2001)).unwrap();
    let d = TokenService::encode("another secret", claims(1000, 2000)).unwrap();
    assert_eq!(a, b);
    assert_ne!(a, c);
    assert_ne!(a, d);
}

#[test]
fn tampered_signature_fails_decode() {
    let token = TokenService::encode(SECRET_KEY, claims(1000, 2000)).unwrap();
    let cfg = config("", "");
    assert!(TokenService::decode_at(&token, &cfg, 1500).is_ok());
    let start = token.rfind('.').unwrap() + 1;
    assert!(token.len() > start);
    for position in start..token.len() {
        let mut bytes = token.clone().into_bytes();
        bytes[position] = if bytes[position] == b'A' { b'B' } else { b'A' };
        let forged = String::from_utf8(bytes).unwrap();
        assert_ne!(forged, token);
        assert_eq!(
            TokenService::decode_at(&forged, &cfg, 1500).err(),
            Some(AuthError::InvalidTokenError)
        );
    }
}

#[test]
fn signature_with_a_dot_fails_decode() {
    let token = TokenService::encode(SECRET_KEY, claims(1000, 2000)).unwrap();
    let cfg = config("", "");
    let start = token.rfind('.').unwrap() + 1;
    for position in [start, start + 5, token.len() - 1] {
        let mut bytes = token.clone().into_bytes();
        bytes[position] = b'.';
        let forged = String::from_utf8(bytes).unwrap();
        assert_eq!(
            TokenService::decode_at(&forged, &cfg, 1500).err(),
            Some(AuthError::InvalidTokenError)
        );
    }
    let shortened = &token[..token.len() - 1];
    assert!(TokenService::decode_at(shortened, &cfg, 1500).is_err());
    let extended = format!("{}A", token);
    assert!(TokenService::decode_at(&extended, &cfg, 1500).is_err());
}

#[test]
fn tampered_payload_fails_decode() {
    let token = TokenService::encode(SECRET_KEY, claims(1000, 2000)).unwrap();
    let other = TokenService::encode(SECRET_KEY, claims(1000, 9000)).unwrap();
    let parts: Vec<&str> = token.split('.').collect();
    let other_parts: Vec<&str> = other.split('.').collect();
    let forged = format!("{}.{}.{}", parts[0], other_parts[1], parts[2]);
    assert_eq!(
        TokenService::decode_at(&forged, &config("", ""), 1500).err(),
        Some(AuthError::InvalidTokenError)
    );
}

#[test]
fn wrong_secret_fails_decode() {
    let token = TokenService::encode("another secret", claims(1000, 2000)).unwrap();
    assert_eq!(
        TokenService::decode_at(&token, &config("", ""), 1500).err(),
        Some(AuthError::InvalidTokenError)
    );
}

#[test]
fn malformed_token_fails_decode() {
    let cfg = config("", "");
    assert_eq!(TokenService::decode_at("", &cfg, 1500).err(), Some(AuthError::InvalidTokenError));
    assert_eq!(TokenService::decode_at("abc", &cfg, 1500).err(), Some(AuthError::InvalidTokenError));
    assert_eq!(TokenService::decode_at("a.b.c", &cfg, 1500).err(), Some(AuthError::InvalidTokenError));
    assert_eq!(TokenService::decode("a.b.c", &cfg).err(), Some(AuthError::InvalidTokenError));
}

#[test]
fn expiry_boundary_is_exact() {
    let cfg = config("", "");
    let now = 1_700_000_000_i64;
    let expired = TokenService::encode(SECRET_KEY, claims(now - 600, now - 1)).unwrap();
    assert_eq!(
        TokenService::decode_at(&expired, &cfg, now).err(),
        Some(AuthError::InvalidTokenError)
    );
    let expiring_now = TokenService::encode(SECRET_KEY, claims(now - 600, now)).unwrap();
    assert_eq!(
        TokenService::decode_at(&expiring_now, &cfg, now).err(),
        Some(AuthError::InvalidTokenError)
    );
    let one_second_left = TokenService::encode(SECRET_KEY, claims(now - 600, now + 1)).unwrap();
    assert!(TokenService::decode_at(&one_second_left, &cfg, now).is_ok());
    let lifetime = cfg.token_expire_minutes * 60;
    let fresh = TokenService::encode(SECRET_KEY, claims(now, now + lifetime)).unwrap();
    assert_eq!(TokenService::decode_at(&fresh, &cfg, now).unwrap().exp, now + 600);
}

#[test]
fn expired_token_fails_decode_on_the_clock() {
    let now = Utc::now().timestamp();
    let expired = TokenService::encode(SECRET_KEY, claims(now - 600, now - 1)).unwrap();
    assert_eq!(
        TokenService::decode(&expired, &config("", "")).err(),
        Some(AuthError::InvalidTokenError)
    );
}

#[test]
fn token_is_not_valid_before_it_was_issued() {
    let cfg = config("", "");
    let token = TokenService::encode(SECRET_KEY, claims(1000, 2000)).unwrap();
    assert!(TokenService::decode_at(&token, &cfg, 999).is_err());
    assert!(TokenService::decode_at(&token, &cfg, 1000).is_ok());
    assert!(TokenService::decode_at(&token, &cfg, 1999).is_ok());
    assert!(TokenService::decode_at(&token, &cfg, 2000).is_err());
}

#[test]
fn not_before_is_checked_when_present() {
    let cfg = config("", "");
    let mut later = claims(1000, 2000);
    later.nbf = Some(1500);
    let token = TokenService::encode(SECRET_KEY, later).unwrap();
    assert!(TokenService::decode_at(&token, &cfg, 1499).is_err());
    assert!(TokenService::decode_at(&token, &cfg, 1500).is_ok());
}

#[test]
fn issuer_mismatch_fails_decode() {
    let mut issued = claims(1000, 2000);
    issued.iss = Some("A".to_string());
    let token = TokenService::encode(SECRET_KEY, issued).unwrap();
    assert_eq!(
        TokenService::decode_at(&token, &config("B", ""), 1500).err(),
        Some(AuthError::InvalidTokenError)
    );
    assert!(TokenService::decode_at(&token, &config("A", ""), 1500).is_ok());
    assert!(TokenService::decode_at(&token, &config("", ""), 1500).is_ok());
    assert!(TokenService::decode_at(&token, &config("a", ""), 1500).is_err());
}

#[test]
fn audience_mismatch_fails_decode() {
    let mut issued = claims(1000, 2000);
    issued.aud = Some("clients".to_string());
    let token = TokenService::encode(SECRET_KEY, issued).unwrap();
    assert!(TokenService::decode_at(&token, &config("", "servers"), 1500).is_err());
    assert!(TokenService::decode_at(&token, &config("", "clients"), 1500).is_ok());
}

#[test]
fn configured_issuer_requires_the_claim() {
    let token = TokenService::encode(SECRET_KEY, claims(1000, 2000)).unwrap();
    assert!(TokenService::decode_at(&token, &config("A", ""), 1500).is_err());
    assert!(TokenService::decode_at(&token, &config("", "clients"), 1500).is_err());
}

#[test]
fn check_claims_follows_the_window_and_the_configuration() {
    let mut c = claims(1000, 2000);
    assert!(TokenService::check_claims(&c, &config("", ""), 1000));
    assert!(!TokenService::check_claims(&c, &config("", ""), 2000));
    assert!(!TokenService::check_claims(&c, &config("A", ""), 1500));
    c.iss = Some("A".to_string());
    c.aud = Some("B".to_string());
    assert!(TokenService::check_claims(&c, &config("A", "B"), 1500));
    assert!(!TokenService::check_claims(&c, &config("A", "C"), 1500));
}

#[test]
fn parse_claims_reads_a_full_payload() {
    let parsed = TokenService::parse_claims(&full_payload()).unwrap();
    assert_eq!(parsed.exp, 2000);
    assert_eq!(parsed.iat, 1000);
    assert_eq!(parsed.sub, 0x70819fbb_e89c_454a_b80a_507c994264ee_u128);
    assert_eq!(parsed.email, "test@domain.com");
    assert_eq!(parsed.tenant_id, None);
    assert_eq!(parsed.admin, false);
    assert_eq!(parsed.active, true);
    assert_eq!(parsed.nbf, None);
    assert_eq!(parsed.iss, None);
    assert_eq!(parsed.aud, None);
}

#[test]
fn parse_claims_accepts_an_absent_tenant() {
    let mut payload = full_payload();
    payload.remove("tenant_id");
    assert_eq!(TokenService::parse_claims(&payload).unwrap().tenant_id, None);
    payload.insert("tenant_id".to_string(), serde_json::Value::from(TENANT));
    assert_eq!(
        TokenService::parse_claims(&payload).unwrap().tenant_id,
        Some(Uuid::parse_str(TENANT).unwrap().as_u128())
    );
}

#[test]
fn parse_claims_rejects_a_missing_member() {
    for key in ["exp", "iat", "sub", "email", "admin", "active"] {
        let mut payload = full_payload();
        payload.remove(key);
        assert!(TokenService::parse_claims(&payload).is_none());
    }
}

#[test]
fn parse_claims_rejects_a_member_of_the_wrong_type() {
    for key in ["exp", "iat", "sub", "email", "admin", "active", "tenant_id", "nbf", "iss", "aud"] {
        let mut payload = full_payload();
        payload.insert(key.to_string(), serde_json::Value::Array(Vec::new()));
        assert!(TokenService::parse_claims(&payload).is_none());
    }
    let mut payload = full_payload();
    payload.insert("sub".to_string(), serde_json::Value::from("not a uuid"));
    assert!(TokenService::parse_claims(&payload).is_none());
    let mut payload = full_payload();
    payload.insert("tenant_id".to_string(), serde_json::Value::from(5_i64));
    assert!(TokenService::parse_claims(&payload).is_none());
    let mut payload = full_payload();
    payload.insert("exp".to_string(), serde_json::Value::from("2000"));
    assert!(TokenService::parse_claims(&payload).is_none());
}

#[test]
fn decode_rejects_a_signed_token_without_claims() {
    let mut payload = full_payload();
    payload.remove("email");
    let token = raw_token(&payload);
    assert_eq!(
        TokenService::decode_at(&token, &config("", ""), 1500).err(),
        Some(AuthError::InvalidTokenError)
    );
    let whole = raw_token(&full_payload());
    assert!(TokenService::decode_at(&whole, &config("", ""), 1500).is_ok());
}

#[test]
fn decode_accepts_null_for_optional_claims() {
    let mut payload = full_payload();
    payload.insert("nbf".to_string(), serde_json::Value::Null);
    payload.insert("iss".to_string(), serde_json::Value::Null);
    payload.insert("aud".to_string(), serde_json::Value::Null);
    let token = raw_token(&payload);
    let decoded = TokenService::decode_at(&token, &config("", ""), 1500).unwrap();
    assert_eq!(decoded.nbf, None);
    assert_eq!(decoded.iss, None);
    assert_eq!(decoded.aud, None);
    assert!(TokenService::decode_at(&token, &config("A", ""), 1500).is_err());
}
