use vstd::prelude::*;
use crate::helper::exceptions::AuthError;
use crate::models::user_model::UserModel;
use crate::schemas::user_schemas::{UserCreate, UserUpdate};
use crate::services::password_service::{
    is_digest_at_cost, spec_acceptable, spec_matches, PasswordService,
};

verus! {

/// What the account store is asked to write. The store itself is reached
/// by the caller.
#[derive(Debug)]
pub struct UserRepository;

impl UserRepository {
    /// The record to insert for a new account with the identifier `id`.
    ///
    /// The password must meet the strength policy, else `ValidationError`.
    /// The record holds a digest of the password, never the plaintext, and
    /// belongs to no tenant.
    pub fn create(id: u128, data: UserCreate) -> (made: Result<UserModel, AuthError>)
        ensures
            !spec_acceptable(data.password@) ==> made == Err::<UserModel, AuthError>(
                AuthError::ValidationError,
            ),
            spec_acceptable(data.password@) ==> match made {
                Ok(user) => user.id == id && user.email@ == data.email@ && user.is_active
                    == data.is_active && user.is_admin == data.is_admin && user.tenant_id.is_none()
                    && spec_matches(data.password@, user.password@) && is_digest_at_cost(
                    user.password@,
                    12,
                ),
                Err(e) => e == AuthError::EncodingError,
            },
    {
        if !PasswordService::validate(data.password.as_str()) {
            return Err(AuthError::ValidationError);
        }
        let digest = match PasswordService::hash(data.password.as_str()) {
            Ok(digest) => digest,
            Err(e) => {
                return Err(e);
            },
        };
        Ok(
            UserModel {
                id,
                email: data.email,
                password: digest,
                is_active: data.is_active,
                is_admin: data.is_admin,
                tenant_id: None,
            },
        )
    }

    /// The record to write for an account whose flags are changed: the
    /// flags are those of `data`, everything else is kept.
    pub fn update(user: UserModel, data: UserUpdate) -> (changed: UserModel)
        ensures
            changed.id == user.id,
            changed.email@ == user.email@,
            changed.password@ == user.password@,
            changed.tenant_id == user.tenant_id,
            changed.is_active == data.is_active,
            changed.is_admin == data.is_admin,
    {
        UserModel {
            id: user.id,
            email: user.email,
            password: user.password,
            is_active: data.is_active,
            is_admin: data.is_admin,
            tenant_id: user.tenant_id,
        }
    }
}

} // verus!
