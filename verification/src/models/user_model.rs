use vstd::prelude::*;

verus! {

/// An account as the store holds it, reduced to what authentication reads.
///
/// `id` and `tenant_id` are the 128-bit values of the account's and the
/// tenant's UUID. `password` is the stored digest, never the plaintext.
#[derive(Debug, Clone)]
pub struct UserModel {
    pub id: u128,
    pub email: String,
    pub password: String,
    pub is_active: bool,
    pub is_admin: bool,
    pub tenant_id: Option<u128>,
}

} // verus!
