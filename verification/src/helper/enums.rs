use vstd::prelude::*;

verus! {

/// Whether an account may sign in.
#[derive(Debug, Clone, Copy, PartialEq, Eq, Structural)]
pub enum UserStatus {
    Inactive,
    Active,
}

/// What an account may do.
#[derive(Debug, Clone, Copy, PartialEq, Eq, Structural)]
pub enum UserRole {
    User,
    Admin,
}

} // verus!
