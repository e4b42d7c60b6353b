use vstd::prelude::*;

verus! {

/// What a client sends to create an account.
#[derive(Debug)]
pub struct UserCreate {
    pub email: String,
    pub password: String,
    pub is_active: bool,
    pub is_admin: bool,
}

/// What a client sends to change a password.
#[derive(Debug)]
pub struct PasswordUpdate {
    pub old_password: String,
    pub new_password: String,
}

/// What a client sends to change an account's flags.
#[derive(Debug)]
pub struct UserUpdate {
    pub is_active: bool,
    pub is_admin: bool,
}

} // verus!
