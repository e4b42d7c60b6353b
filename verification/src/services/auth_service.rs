use vstd::prelude::*;
use crate::configs::common::{AuthConfig, AuthConfigView};
use crate::helper::exceptions::{AuthError, RepositoryError};
use crate::models::user_model::UserModel;
use crate::schemas::auth_schemas::{
    text_view, ClaimsView, LoginRequest, LoginResponse, TokenClaims,
};
use crate::services::password_service::{spec_matches, PasswordService};
use crate::services::token_codec::unix_now;
use crate::services::token_service::{
    is_token_of, signing_fails, spec_decode, token_claims, TokenService,
};

verus! {

/// The number of seconds in a minute.
pub const SECONDS_PER_MINUTE: i64 = 60;

/// The expiry of a token issued at `now` with a lifetime in minutes.
pub open spec fn spec_expiry(now: int, minutes: int) -> int {
    now + minutes * 60
}

/// Whether the expiry of a token issued at `now` can be represented: both
/// the lifetime in seconds and the expiry fit in an `i64`.
pub open spec fn expiry_fits(now: int, minutes: int) -> bool {
    &&& i64::MIN <= minutes * 60 <= i64::MAX
    &&& i64::MIN <= spec_expiry(now, minutes) <= i64::MAX
}

/// The claim set issued to an account at `now`: its current fields, a
/// validity window that starts at `now` and lasts the configured lifetime,
/// and the configured issuer and audience, if any.
pub open spec fn claims_for(user: UserModel, config: AuthConfigView, now: int) -> ClaimsView {
    ClaimsView {
        exp: spec_expiry(now, config.token_expire_minutes),
        iat: now,
        sub: user.id,
        email: user.email@,
        tenant_id: user.tenant_id,
        admin: user.is_admin,
        active: user.is_active,
        nbf: None,
        iss: config.expected_issuer(),
        aud: config.expected_audience(),
    }
}

/// The error that a failed lookup in the account store becomes: a missing
/// record is indistinguishable from a wrong password, anything else is an
/// internal error.
pub open spec fn lookup_failure(error: RepositoryError) -> AuthError {
    if error is NotFound {
        AuthError::AuthenticationError
    } else {
        AuthError::InternalError
    }
}

/// What a login attempt at `now` must give, for the outcome of the lookup
/// of the account by the request's email.
pub open spec fn login_outcome_ok(
    account: Result<UserModel, RepositoryError>,
    password: Seq<char>,
    config: AuthConfigView,
    now: int,
    outcome: Result<LoginResponse, AuthError>,
) -> bool {
    match account {
        Err(error) => outcome == Err::<LoginResponse, AuthError>(lookup_failure(error)),
        Ok(user) => if !spec_matches(password, user.password@) {
            outcome == Err::<LoginResponse, AuthError>(AuthError::AuthenticationError)
        } else if !expiry_fits(now, config.token_expire_minutes) {
            outcome == Err::<LoginResponse, AuthError>(AuthError::EncodingError)
        } else {
            match outcome {
                Ok(response) => is_token_of(
                    response.token@,
                    config.secret_key,
                    claims_for(user, config, now),
                ) && token_claims(response.token@, config.secret_key) == Some(
                    claims_for(user, config, now),
                ),
                Err(e) => e == AuthError::EncodingError && signing_fails(
                    config.secret_key,
                    claims_for(user, config, now),
                ),
            }
        },
    }
}

/// An unknown email and a wrong password are refused alike: whatever the
/// configuration and the time, both outcomes are the same error.
pub proof fn refusals_are_alike(
    missing: RepositoryError,
    user: UserModel,
    password: Seq<char>,
    config: AuthConfigView,
    now: int,
    unknown_email: Result<LoginResponse, AuthError>,
    wrong_password: Result<LoginResponse, AuthError>,
)
    requires
        missing is NotFound,
        !spec_matches(password, user.password@),
        login_outcome_ok(Err(missing), password, config, now, unknown_email),
        login_outcome_ok(Ok(user), password, config, now, wrong_password),
    ensures
        unknown_email == wrong_password,
        unknown_email == Err::<LoginResponse, AuthError>(AuthError::AuthenticationError),
{
}

/// A token issued by a login decodes, under the same configuration and at
/// the time of the login, to the claims of the account, provided the
/// configured lifetime is at least one minute.
pub proof fn login_token_decodes(
    user: UserModel,
    password: Seq<char>,
    config: AuthConfigView,
    now: int,
    response: LoginResponse,
)
    requires
        config.token_expire_minutes > 0,
        login_outcome_ok(Ok(user), password, config, now, Ok(response)),
    ensures
        spec_matches(password, user.password@),
        spec_decode(response.token@, config, now) == Ok::<ClaimsView, AuthError>(
            claims_for(user, config, now),
        ),
{
}

/// The login decision.
pub struct AuthService;

impl AuthService {
    /// The configured issuer or audience as a claim: none where the setting
    /// is empty.
    fn configured(setting: &String) -> (claim: Option<String>)
        ensures
            text_view(claim) == (if setting@.len() == 0 {
                None
            } else {
                Some(setting@)
            }),
    {
        if setting.as_str().is_empty() {
            None
        } else {
            Some(setting.clone())
        }
    }

    /// Builds the claim set issued to an account at `now`, or nothing where
    /// its expiry cannot be represented.
    pub fn build_claims(user: &UserModel, auth_config: &AuthConfig, now: i64) -> (built: Option<
        TokenClaims,
    >)
        ensures
            match built {
                Some(claims) => expiry_fits(now as int, auth_config@.token_expire_minutes)
                    && claims@ == claims_for(*user, auth_config@, now as int),
                None => !expiry_fits(now as int, auth_config@.token_expire_minutes),
            },
    {
        let lifetime = match auth_config.token_expire_minutes.checked_mul(SECONDS_PER_MINUTE) {
            Some(seconds) => seconds,
            None => {
                return None;
            },
        };
        let exp = match now.checked_add(lifetime) {
            Some(exp) => exp,
            None => {
                return None;
            },
        };
        Some(
            TokenClaims {
                exp,
                iat: now,
                sub: user.id,
                email: user.email.clone(),
                tenant_id: user.tenant_id,
                admin: user.is_admin,
                active: user.is_active,
                nbf: None,
                iss: Self::configured(&auth_config.issuer),
                aud: Self::configured(&auth_config.audience),
            },
        )
    }

    /// Decides a login at time `now` from the outcome of the lookup of the
    /// account by the request's email.
    ///
    /// An unknown email and a wrong password both give
    /// `AuthenticationError`; another failure of the store gives
    /// `InternalError`. Otherwise a token is issued that carries the
    /// account's current fields and expires the configured lifetime after
    /// `now`; where that cannot be done the error is `EncodingError`.
    pub fn login_at(
        account: Result<UserModel, RepositoryError>,
        login_request: LoginRequest,
        auth_config: &AuthConfig,
        now: i64,
    ) -> (outcome: Result<LoginResponse, AuthError>)
        ensures
            login_outcome_ok(account, login_request.password@, auth_config@, now as int, outcome),
    {
        let user = match account {
            Ok(user) => user,
            Err(RepositoryError::NotFound(_)) => {
                return Err(AuthError::AuthenticationError);
            },
            Err(_) => {
                return Err(AuthError::InternalError);
            },
        };
        if !PasswordService::verify(login_request.password.as_str(), user.password.as_str()) {
            return Err(AuthError::AuthenticationError);
        }
        let claims = match Self::build_claims(&user, auth_config, now) {
            Some(claims) => claims,
            None => {
                return Err(AuthError::EncodingError);
            },
        };
        match TokenService::encode(auth_config.secret_key.as_str(), claims) {
            Ok(token) => Ok(LoginResponse { token }),
            Err(e) => Err(e),
        }
    }

    /// Decides a login at the present time.
    ///
    /// Whatever the clock says, the outcome is one that
    /// [`AuthService::login_at`] allows for some time; without a matching
    /// account and password it is the error that needs no clock.
    pub fn login(
        account: Result<UserModel, RepositoryError>,
        login_request: LoginRequest,
        auth_config: &AuthConfig,
    ) -> (outcome: Result<LoginResponse, AuthError>)
        ensures
            exists|now: int| #[trigger]
                login_outcome_ok(account, login_request.password@, auth_config@, now, outcome),
            account matches Err(error) ==> outcome == Err::<LoginResponse, AuthError>(
                lookup_failure(error),
            ),
            (account matches Ok(user) && !spec_matches(login_request.password@, user.password@))
                ==> outcome == Err::<LoginResponse, AuthError>(AuthError::AuthenticationError),
    {
        let now: i64 = unix_now();
        Self::login_at(account, login_request, auth_config, now)
    }
}

} // verus!
