use vstd::prelude::*;
use crate::configs::common::{AuthConfig, AuthConfigView};
use crate::helper::exceptions::AuthError;
use crate::helper::text::{spec_starts_with, starts_with};
use crate::schemas::auth_schemas::{ClaimsView, TokenClaims};
use crate::services::token_codec::unix_now;
use crate::services::token_service::{spec_decode, TokenService};

verus! {

/// The identity of the caller of a protected route, taken from the claims
/// of its bearer token.
#[derive(Debug)]
pub struct AuthExtractorService {
    pub id: u128,
    pub tenant_id: Option<u128>,
    pub email: String,
    pub admin: bool,
    pub active: bool,
}

/// The mathematical value of an [`AuthExtractorService`].
pub ghost struct IdentityView {
    pub id: u128,
    pub tenant_id: Option<u128>,
    pub email: Seq<char>,
    pub admin: bool,
    pub active: bool,
}

impl View for AuthExtractorService {
    type V = IdentityView;

    open spec fn view(&self) -> IdentityView {
        IdentityView {
            id: self.id,
            tenant_id: self.tenant_id,
            email: self.email@,
            admin: self.admin,
            active: self.active,
        }
    }
}

/// The identity that a claim set stands for.
pub open spec fn identity_of(claims: ClaimsView) -> IdentityView {
    IdentityView {
        id: claims.sub,
        tenant_id: claims.tenant_id,
        email: claims.email,
        admin: claims.admin,
        active: claims.active,
    }
}

/// The characters of an optional header value.
pub open spec fn header_view(header: Option<&str>) -> Option<Seq<char>> {
    match header {
        Some(h) => Some(h@),
        None => None,
    }
}

/// The token in an `Authorization` header of the form `Bearer <token>`:
/// what follows the prefix, which must not be empty. A missing header, one
/// without the prefix and one without a token hold none.
pub open spec fn spec_bearer(header: Option<Seq<char>>) -> Option<Seq<char>> {
    match header {
        Some(h) => if spec_starts_with(h, "Bearer "@) && h.len() > "Bearer "@.len() {
            Some(h.subrange("Bearer "@.len() as int, h.len() as int))
        } else {
            None
        },
        None => None,
    }
}

/// What the extractor gives for a header at time `now`: the identity in the
/// token's claims where the header holds a token that decodes, and
/// `UnauthorizedError` in every other case.
pub open spec fn spec_authorize(header: Option<Seq<char>>, config: AuthConfigView, now: int)
    -> Result<IdentityView, AuthError> {
    match spec_bearer(header) {
        Some(token) => match spec_decode(token, config, now) {
            Ok(claims) => Ok(identity_of(claims)),
            Err(_) => Err(AuthError::UnauthorizedError),
        },
        None => Err(AuthError::UnauthorizedError),
    }
}

/// The view of the result of the extractor.
pub open spec fn authorized_view(outcome: Result<AuthExtractorService, AuthError>) -> Result<
    IdentityView,
    AuthError,
> {
    match outcome {
        Ok(identity) => Ok(identity@),
        Err(e) => Err(e),
    }
}

impl AuthExtractorService {
    /// Takes the bearer token out of the value of the `Authorization`
    /// header, if the request has one.
    pub fn extract_token(header: Option<&str>) -> (extracted: Result<String, AuthError>)
        ensures
            match extracted {
                Ok(token) => spec_bearer(header_view(header)) == Some(token@),
                Err(e) => e == AuthError::UnauthorizedError && spec_bearer(
                    header_view(header),
                ).is_none(),
            },
    {
        let value = match header {
            Some(value) => value,
            None => {
                return Err(AuthError::UnauthorizedError);
            },
        };
        if !starts_with(value, "Bearer ") {
            return Err(AuthError::UnauthorizedError);
        }
        let prefix_len: usize = "Bearer ".unicode_len();
        let value_len: usize = value.unicode_len();
        if value_len <= prefix_len {
            return Err(AuthError::UnauthorizedError);
        }
        Ok(value.substring_char(prefix_len, value_len).to_owned())
    }

    /// The identity that a decoded claim set stands for.
    pub fn from_claims(claims: TokenClaims) -> (identity: AuthExtractorService)
        ensures
            identity@ == identity_of(claims@),
    {
        AuthExtractorService {
            id: claims.sub,
            tenant_id: claims.tenant_id,
            email: claims.email,
            admin: claims.admin,
            active: claims.active,
        }
    }

    /// Admits or refuses a protected request at time `now` on the value of its
    /// `Authorization` header.
    pub fn from_request_at(header: Option<&str>, auth_config: &AuthConfig, now: i64) -> (outcome:
        Result<AuthExtractorService, AuthError>)
        ensures
            authorized_view(outcome) == spec_authorize(header_view(header), auth_config@, now as int),
    {
        let token = match Self::extract_token(header) {
            Ok(token) => token,
            Err(e) => {
                return Err(e);
            },
        };
        match TokenService::decode_at(token.as_str(), auth_config, now) {
            Ok(claims) => Ok(Self::from_claims(claims)),
            Err(_) => Err(AuthError::UnauthorizedError),
        }
    }

    /// Admits or refuses a protected request at the present time.
    ///
    /// Whatever the clock says, the outcome is that of
    /// [`AuthExtractorService::from_request_at`] for some time; a header
    /// without a bearer token is refused whatever the time.
    pub fn from_request(header: Option<&str>, auth_config: &AuthConfig) -> (outcome: Result<
        AuthExtractorService,
        AuthError,
    >)
        ensures
            exists|now: int| authorized_view(outcome) == #[trigger] spec_authorize(
                header_view(header),
                auth_config@,
                now,
            ),
            spec_bearer(header_view(header)).is_none() ==> outcome is Err,
    {
        let now: i64 = unix_now();
        Self::from_request_at(header, auth_config, now)
    }
}

} // verus!
