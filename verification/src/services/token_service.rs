use vstd::prelude::*;
use crate::configs::common::{AuthConfig, AuthConfigView};
use crate::helper::exceptions::AuthError;
use crate::schemas::auth_schemas::{ClaimsView, TokenClaims};
use crate::services::payload::{
    get_bool, get_int, get_null, get_text, is_set, json_bools, json_ints, json_texts, lookup,
    object_new, put_bool, put_int, put_null, put_text,
};
use crate::services::token_codec::{
    dot_count, is_flat, last_dot, message_part, open_token, sign_payload, signature_part,
    signed_token, token_payload, unix_now, uuid_parse, uuid_parsed, uuid_text, well_signed,
};

verus! {

/// An optional integer member: `Some(None)` where the member is absent or
/// `null`, `None` where it holds something that is no integer.
pub open spec fn optional_int(
    payload: serde_json::Map<String, serde_json::Value>,
    key: Seq<char>,
) -> Option<Option<int>> {
    if !is_set(payload, key) {
        Some(None)
    } else {
        match lookup(json_ints(payload), key) {
            Some(i) => Some(Some(i as int)),
            None => None,
        }
    }
}

/// An optional string member: `Some(None)` where the member is absent or
/// `null`, `None` where it holds something that is no string.
pub open spec fn optional_text(
    payload: serde_json::Map<String, serde_json::Value>,
    key: Seq<char>,
) -> Option<Option<Seq<char>>> {
    if !is_set(payload, key) {
        Some(None)
    } else {
        match lookup(json_texts(payload), key) {
            Some(s) => Some(Some(s)),
            None => None,
        }
    }
}

/// An optional UUID member: `Some(None)` where the member is absent or
/// `null`, `None` where it holds something that is no UUID text.
pub open spec fn optional_id(
    payload: serde_json::Map<String, serde_json::Value>,
    key: Seq<char>,
) -> Option<Option<u128>> {
    match optional_text(payload, key) {
        Some(Some(s)) => match uuid_parsed(s) {
            Some(id) => Some(Some(id)),
            None => None,
        },
        Some(None) => Some(None),
        None => None,
    }
}

/// A required UUID member.
pub open spec fn required_id(
    payload: serde_json::Map<String, serde_json::Value>,
    key: Seq<char>,
) -> Option<u128> {
    match lookup(json_texts(payload), key) {
        Some(s) => uuid_parsed(s),
        None => None,
    }
}

/// The claim set that a payload holds, if it holds one: `exp`, `iat`, `sub`,
/// `email`, `admin` and `active` must be there with their types; `tenant_id`,
/// `nbf`, `iss` and `aud` may be absent or `null`, but not of another type.
pub open spec fn spec_claims(payload: serde_json::Map<String, serde_json::Value>) -> Option<
    ClaimsView,
> {
    if lookup(json_ints(payload), "exp"@) is Some && lookup(json_ints(payload), "iat"@) is Some
        && required_id(payload, "sub"@) is Some && lookup(json_texts(payload), "email"@) is Some
        && optional_id(payload, "tenant_id"@) is Some && lookup(json_bools(payload), "admin"@)
        is Some && lookup(json_bools(payload), "active"@) is Some && optional_int(
        payload,
        "nbf"@,
    ) is Some && optional_text(payload, "iss"@) is Some && optional_text(payload, "aud"@)
        is Some {
        Some(
            ClaimsView {
                exp: lookup(json_ints(payload), "exp"@).unwrap() as int,
                iat: lookup(json_ints(payload), "iat"@).unwrap() as int,
                sub: required_id(payload, "sub"@).unwrap(),
                email: lookup(json_texts(payload), "email"@).unwrap(),
                tenant_id: optional_id(payload, "tenant_id"@).unwrap(),
                admin: lookup(json_bools(payload), "admin"@).unwrap(),
                active: lookup(json_bools(payload), "active"@).unwrap(),
                nbf: optional_int(payload, "nbf"@).unwrap(),
                iss: optional_text(payload, "iss"@).unwrap(),
                aud: optional_text(payload, "aud"@).unwrap(),
            },
        )
    } else {
        None
    }
}

/// The claim set that a token carries under a secret: the signature must
/// verify and the payload must hold a claim set. Time plays no part.
pub open spec fn token_claims(token: Seq<char>, secret: Seq<char>) -> Option<ClaimsView> {
    match token_payload(token, secret) {
        Some(payload) => if well_signed(token, secret) {
            spec_claims(payload)
        } else {
            None
        },
        None => None,
    }
}

/// Whether a claim set is valid at time `now` for a configuration: `now`
/// lies in `[iat, exp)`, not before `nbf` if there is one, and the issuer
/// and the audience are the configured ones, where any are configured.
/// Times are compared exactly, without allowance for clock skew.
pub open spec fn claims_valid(claims: ClaimsView, config: AuthConfigView, now: int) -> bool {
    &&& claims.iat <= now < claims.exp
    &&& claims.nbf matches Some(nbf) ==> nbf <= now
    &&& config.expected_issuer() matches Some(issuer) ==> claims.iss == Some(issuer)
    &&& config.expected_audience() matches Some(audience) ==> claims.aud == Some(audience)
}

/// What decoding a token at time `now` gives.
pub open spec fn spec_decode(token: Seq<char>, config: AuthConfigView, now: int) -> Result<
    ClaimsView,
    AuthError,
> {
    match token_claims(token, config.secret_key) {
        Some(claims) => if claims_valid(claims, config, now) {
            Ok(claims)
        } else {
            Err(AuthError::InvalidTokenError)
        },
        None => Err(AuthError::InvalidTokenError),
    }
}

/// Whether `token` is the signed form of a payload that holds `claims`.
pub open spec fn is_token_of(token: Seq<char>, secret: Seq<char>, claims: ClaimsView) -> bool {
    exists|payload: serde_json::Map<String, serde_json::Value>|
        spec_claims(payload) == Some(claims) && #[trigger] signed_token(secret, payload) == Some(
            token,
        )
}

/// Whether signing fails for a payload that holds `claims`.
pub open spec fn signing_fails(secret: Seq<char>, claims: ClaimsView) -> bool {
    exists|payload: serde_json::Map<String, serde_json::Value>|
        spec_claims(payload) == Some(claims) && (#[trigger] signed_token(secret, payload)).is_none()
}

/// The view of an optional claim set.
pub open spec fn claims_view(claims: Option<TokenClaims>) -> Option<ClaimsView> {
    match claims {
        Some(c) => Some(c@),
        None => None,
    }
}

/// The view of a decoding result.
pub open spec fn decoded_view(decoded: Result<TokenClaims, AuthError>) -> Result<
    ClaimsView,
    AuthError,
> {
    match decoded {
        Ok(c) => Ok(c@),
        Err(e) => Err(e),
    }
}

/// Round trip: a token that carries a claim set under a secret decodes to
/// that claim set under any configuration with the same secret and at any
/// time for which the claim set is valid.
pub proof fn issued_token_decodes(
    token: Seq<char>,
    secret: Seq<char>,
    claims: ClaimsView,
    config: AuthConfigView,
    now: int,
)
    requires
        token_claims(token, secret) == Some(claims),
        config.secret_key == secret,
        claims_valid(claims, config, now),
    ensures
        spec_decode(token, config, now) == Ok::<ClaimsView, AuthError>(claims),
{
}

/// Expiry is exact: from the second of its expiry on, a token fails to
/// decode, whatever else it holds.
pub proof fn expired_token_fails(token: Seq<char>, config: AuthConfigView, now: int)
    requires
        token_claims(token, config.secret_key) matches Some(claims) && claims.exp <= now,
    ensures
        spec_decode(token, config, now) == Err::<ClaimsView, AuthError>(
            AuthError::InvalidTokenError,
        ),
{
}

/// A claim set issued at `now` with a lifetime of at least one second and
/// no other restriction is valid at `now`, and stays valid until the second
/// before its expiry.
pub proof fn fresh_claims_are_valid(
    claims: ClaimsView,
    config: AuthConfigView,
    now: int,
    lifetime: int,
    later: int,
)
    requires
        lifetime > 0,
        claims.iat == now,
        claims.exp == now + lifetime,
        claims.nbf.is_none(),
        claims.iss == config.expected_issuer(),
        claims.aud == config.expected_audience(),
        now <= later < now + lifetime,
    ensures
        claims_valid(claims, config, now),
        claims_valid(claims, config, later),
        !claims_valid(claims, config, now + lifetime),
{
}

/// A token whose issuer is not the configured one fails to decode, valid
/// signature or not; so does one without an issuer.
pub proof fn issuer_mismatch_fails(token: Seq<char>, config: AuthConfigView, now: int)
    requires
        config.issuer.len() > 0,
        token_claims(token, config.secret_key) matches Some(claims) && claims.iss != Some(
            config.issuer,
        ),
    ensures
        spec_decode(token, config, now) == Err::<ClaimsView, AuthError>(
            AuthError::InvalidTokenError,
        ),
{
}

/// A token whose audience is not the configured one fails to decode, valid
/// signature or not; so does one without an audience.
pub proof fn audience_mismatch_fails(token: Seq<char>, config: AuthConfigView, now: int)
    requires
        config.audience.len() > 0,
        token_claims(token, config.secret_key) matches Some(claims) && claims.aud != Some(
            config.audience,
        ),
    ensures
        spec_decode(token, config, now) == Err::<ClaimsView, AuthError>(
            AuthError::InvalidTokenError,
        ),
{
}

/// Decoding never gives a claim set that is not valid at the time of
/// decoding, and never fails with another error than `InvalidTokenError`.
pub proof fn decode_is_strict(token: Seq<char>, config: AuthConfigView, now: int)
    ensures
        match spec_decode(token, config, now) {
            Ok(claims) => token_claims(token, config.secret_key) == Some(claims) && claims_valid(
                claims,
                config,
                now,
            ),
            Err(e) => e == AuthError::InvalidTokenError,
        },
{
}

/// The last dot lies within the text, if there is one.
proof fn lemma_last_dot_range(text: Seq<char>)
    ensures
        -1 <= last_dot(text) < text.len(),
    decreases text.len(),
{
    if text.len() > 0 {
        lemma_last_dot_range(text.drop_last());
    }
}

/// A text with a dot has a last dot.
proof fn lemma_dots_have_last(text: Seq<char>)
    requires
        dot_count(text) > 0,
    ensures
        0 <= last_dot(text),
    decreases text.len(),
{
    if text.len() > 0 && text.last() != '.' {
        lemma_dots_have_last(text.drop_last());
    }
}

/// No dot follows the last dot.
proof fn lemma_no_dot_after_last(text: Seq<char>, position: int)
    requires
        last_dot(text) < position < text.len(),
    ensures
        0 <= position,
        text[position] != '.',
    decreases text.len(),
{
    lemma_last_dot_range(text);
    if position < text.len() - 1 {
        lemma_no_dot_after_last(text.drop_last(), position);
    }
}

/// Replacing one character changes the number of dots by what leaves and
/// what comes.
proof fn lemma_replaced_dot_count(text: Seq<char>, position: int, replacement: char)
    requires
        0 <= position < text.len(),
    ensures
        dot_count(text.update(position, replacement)) + (if text[position] == '.' {
            1nat
        } else {
            0nat
        }) == dot_count(text) + (if replacement == '.' {
            1nat
        } else {
            0nat
        }),
    decreases text.len(),
{
    let replaced = text.update(position, replacement);
    if position == text.len() - 1 {
        assert(replaced.drop_last() =~= text.drop_last());
    } else {
        assert(replaced.drop_last() =~= text.drop_last().update(position, replacement));
        lemma_replaced_dot_count(text.drop_last(), position, replacement);
    }
}

/// Replacing a character behind the last dot by another that is no dot
/// leaves the last dot where it is.
proof fn lemma_replaced_last_dot(text: Seq<char>, position: int, replacement: char)
    requires
        last_dot(text) < position < text.len(),
        replacement != '.',
    ensures
        last_dot(text.update(position, replacement)) == last_dot(text),
    decreases text.len(),
{
    lemma_no_dot_after_last(text, position);
    let replaced = text.update(position, replacement);
    if position == text.len() - 1 {
        assert(replaced.drop_last() =~= text.drop_last());
    } else {
        assert(replaced.drop_last() =~= text.drop_last().update(position, replacement));
        lemma_no_dot_after_last(text, text.len() - 1);
        lemma_replaced_last_dot(text.drop_last(), position, replacement);
    }
}

/// Tamper detection: replacing any one character of the signature segment
/// of a token that decodes gives a token that fails to decode.
pub proof fn tampered_signature_fails(
    token: Seq<char>,
    position: int,
    replacement: char,
    config: AuthConfigView,
    now: int,
)
    requires
        spec_decode(token, config, now) is Ok,
        0 <= last_dot(token) < position < token.len(),
        replacement != token[position],
    ensures
        spec_decode(token.update(position, replacement), config, now) == Err::<
            ClaimsView,
            AuthError,
        >(AuthError::InvalidTokenError),
{
    lemma_last_dot_range(token);
    lemma_no_dot_after_last(token, position);
    let forged = token.update(position, replacement);
    let secret = config.secret_key;
    assert(well_signed(token, secret));
    lemma_replaced_dot_count(token, position, replacement);
    if replacement == '.' {
        assert(dot_count(forged) == 3);
    } else {
        lemma_replaced_last_dot(token, position, replacement);
        lemma_dots_have_last(token);
        let cut = last_dot(token);
        assert(message_part(forged) =~= message_part(token));
        assert(signature_part(forged)[position - cut - 1] == replacement);
        assert(signature_part(token)[position - cut - 1] == token[position]);
        assert(signature_part(forged) != signature_part(token));
    }
    assert(!well_signed(forged, secret));
}

/// The lengths and first characters of the names of the payload's members, by
/// which they differ from one another.
proof fn lemma_member_names()
    ensures
        "exp"@.len() == 3 && "exp"@[0] == 'e' && "exp"@[1] == 'x',
        "iat"@.len() == 3 && "iat"@[0] == 'i' && "iat"@[1] == 'a',
        "sub"@.len() == 3 && "sub"@[0] == 's' && "sub"@[1] == 'u',
        "email"@.len() == 5 && "email"@[0] == 'e',
        "tenant_id"@.len() == 9 && "tenant_id"@[0] == 't',
        "admin"@.len() == 5 && "admin"@[0] == 'a',
        "active"@.len() == 6 && "active"@[0] == 'a',
        "nbf"@.len() == 3 && "nbf"@[0] == 'n' && "nbf"@[1] == 'b',
        "iss"@.len() == 3 && "iss"@[0] == 'i' && "iss"@[1] == 's',
        "aud"@.len() == 3 && "aud"@[0] == 'a' && "aud"@[1] == 'u',
{
    reveal_strlit("exp");
    reveal_strlit("iat");
    reveal_strlit("sub");
    reveal_strlit("email");
    reveal_strlit("tenant_id");
    reveal_strlit("admin");
    reveal_strlit("active");
    reveal_strlit("nbf");
    reveal_strlit("iss");
    reveal_strlit("aud");
}

fn read_optional_int(payload: &serde_json::Map<String, serde_json::Value>, key: &str) -> (found:
    Option<Option<i64>>)
    ensures
        match found {
            Some(Some(i)) => optional_int(*payload, key@) == Some(Some(i as int)),
            Some(None) => optional_int(*payload, key@) == Some(None::<int>),
            None => optional_int(*payload, key@).is_none(),
        },
{
    match get_null(payload, key) {
        Some(false) => match get_int(payload, key) {
            Some(i) => Some(Some(i)),
            None => None,
        },
        _ => Some(None),
    }
}

fn read_optional_text(payload: &serde_json::Map<String, serde_json::Value>, key: &str) -> (found:
    Option<Option<String>>)
    ensures
        match found {
            Some(Some(s)) => optional_text(*payload, key@) == Some(Some(s@)),
            Some(None) => optional_text(*payload, key@) == Some(None::<Seq<char>>),
            None => optional_text(*payload, key@).is_none(),
        },
{
    match get_null(payload, key) {
        Some(false) => match get_text(payload, key) {
            Some(s) => Some(Some(s)),
            None => None,
        },
        _ => Some(None),
    }
}

fn read_optional_id(payload: &serde_json::Map<String, serde_json::Value>, key: &str) -> (found:
    Option<Option<u128>>)
    ensures
        found == optional_id(*payload, key@),
{
    match read_optional_text(payload, key) {
        Some(Some(s)) => match uuid_parse(s.as_str()) {
            Some(id) => Some(Some(id)),
            None => None,
        },
        Some(None) => Some(None),
        None => None,
    }
}

fn read_required_id(payload: &serde_json::Map<String, serde_json::Value>, key: &str) -> (found:
    Option<u128>)
    ensures
        found == required_id(*payload, key@),
{
    match get_text(payload, key) {
        Some(s) => uuid_parse(s.as_str()),
        None => None,
    }
}

/// Signing and verification of session tokens.
pub struct TokenService;

impl TokenService {
    /// Reads the claim set that a payload holds, if it holds one.
    pub fn parse_claims(payload: &serde_json::Map<String, serde_json::Value>) -> (parsed: Option<
        TokenClaims,
    >)
        ensures
            claims_view(parsed) == spec_claims(*payload),
    {
        let exp = get_int(payload, "exp");
        let iat = get_int(payload, "iat");
        let sub = read_required_id(payload, "sub");
        let email = get_text(payload, "email");
        let tenant_id = read_optional_id(payload, "tenant_id");
        let admin = get_bool(payload, "admin");
        let active = get_bool(payload, "active");
        let nbf = read_optional_int(payload, "nbf");
        let iss = read_optional_text(payload, "iss");
        let aud = read_optional_text(payload, "aud");
        if exp.is_none() || iat.is_none() || sub.is_none() || email.is_none()
            || tenant_id.is_none() || admin.is_none() || active.is_none() || nbf.is_none()
            || iss.is_none() || aud.is_none() {
            return None;
        }
        Some(
            TokenClaims {
                exp: exp.unwrap(),
                iat: iat.unwrap(),
                sub: sub.unwrap(),
                email: email.unwrap(),
                tenant_id: tenant_id.unwrap(),
                admin: admin.unwrap(),
                active: active.unwrap(),
                nbf: nbf.unwrap(),
                iss: iss.unwrap(),
                aud: aud.unwrap(),
            },
        )
    }

    /// Whether a claim set is valid at time `now` for a configuration.
    pub fn check_claims(claims: &TokenClaims, auth_config: &AuthConfig, now: i64) -> (valid: bool)
        ensures
            valid == claims_valid(claims@, auth_config@, now as int),
    {
        if !(claims.iat <= now && now < claims.exp) {
            return false;
        }
        let started = match claims.nbf {
            Some(nbf) => nbf <= now,
            None => true,
        };
        let issuer_ok = auth_config.issuer.as_str().is_empty() || match &claims.iss {
            Some(iss) => *iss == auth_config.issuer,
            None => false,
        };
        let audience_ok = auth_config.audience.as_str().is_empty() || match &claims.aud {
            Some(aud) => *aud == auth_config.audience,
            None => false,
        };
        started && issuer_ok && audience_ok
    }

    /// Signs a claim set under `secret` into a compact token.
    ///
    /// The token carries exactly these claims: verified under the same
    /// secret it reads back as `claim`. Fails with `EncodingError` where
    /// the signing fails.
    pub fn encode(secret: &str, claim: TokenClaims) -> (made: Result<String, AuthError>)
        ensures
            match made {
                Ok(token) => is_token_of(token@, secret@, claim@) && token_claims(
                    token@,
                    secret@,
                ) == Some(claim@),
                Err(e) => e == AuthError::EncodingError && signing_fails(secret@, claim@),
            },
    {
        let mut payload = object_new();
        put_int(&mut payload, "exp", claim.exp);
        put_int(&mut payload, "iat", claim.iat);
        let sub = uuid_text(claim.sub);
        put_text(&mut payload, "sub", sub.as_str());
        put_text(&mut payload, "email", claim.email.as_str());
        match claim.tenant_id {
            Some(tenant) => {
                let tenant_text = uuid_text(tenant);
                put_text(&mut payload, "tenant_id", tenant_text.as_str());
            },
            None => {
                put_null(&mut payload, "tenant_id");
            },
        }
        put_bool(&mut payload, "admin", claim.admin);
        put_bool(&mut payload, "active", claim.active);
        if let Some(nbf) = claim.nbf {
            put_int(&mut payload, "nbf", nbf);
        }
        if let Some(iss) = &claim.iss {
            put_text(&mut payload, "iss", iss.as_str());
        }
        if let Some(aud) = &claim.aud {
            put_text(&mut payload, "aud", aud.as_str());
        }
        proof {
            lemma_member_names();
            assert(spec_claims(payload) == Some(claim@));
            assert(is_flat(payload));
        }
        match sign_payload(secret, &payload) {
            Ok(token) => Ok(token),
            Err(_) => Err(AuthError::EncodingError),
        }
    }

    /// Verifies a token and validates its claims at time `now`.
    ///
    /// Succeeds exactly where the signature verifies under the configured
    /// secret, the payload holds a claim set, and that claim set is valid
    /// at `now`; every failure is `InvalidTokenError`.
    pub fn decode_at(token: &str, auth_config: &AuthConfig, now: i64) -> (decoded: Result<
        TokenClaims,
        AuthError,
    >)
        ensures
            decoded_view(decoded) == spec_decode(token@, auth_config@, now as int),
    {
        let payload = match open_token(token, auth_config.secret_key.as_str()) {
            Ok(payload) => payload,
            Err(_) => {
                return Err(AuthError::InvalidTokenError);
            },
        };
        match Self::parse_claims(&payload) {
            Some(claims) => {
                if Self::check_claims(&claims, auth_config, now) {
                    Ok(claims)
                } else {
                    Err(AuthError::InvalidTokenError)
                }
            },
            None => Err(AuthError::InvalidTokenError),
        }
    }

    /// Verifies a token and validates its claims at the present time.
    ///
    /// Whatever the clock says, the result is that of
    /// [`TokenService::decode_at`] for some time.
    pub fn decode(token: &str, auth_config: &AuthConfig) -> (decoded: Result<
        TokenClaims,
        AuthError,
    >)
        ensures
            exists|now: int| decoded_view(decoded) == #[trigger] spec_decode(
                token@,
                auth_config@,
                now,
            ),
            token_claims(token@, auth_config@.secret_key).is_none() ==> decoded is Err,
    {
        let now: i64 = unix_now();
        Self::decode_at(token, auth_config, now)
    }
}

} // verus!
