use vstd::prelude::*;

verus! {

/// The credentials of one login attempt.
#[derive(Debug)]
pub struct LoginRequest {
    pub email: String,
    pub password: String,
}

/// The sole payload of a successful login.
#[derive(Debug)]
pub struct LoginResponse {
    pub token: String,
}

/// The claim set that a session token carries.
///
/// `sub` and `tenant_id` are the 128-bit values of UUIDs; timestamps are
/// seconds since the Unix epoch.
#[derive(Debug)]
pub struct TokenClaims {
    pub exp: i64,
    pub iat: i64,
    pub sub: u128,
    pub email: String,
    pub tenant_id: Option<u128>,
    pub admin: bool,
    pub active: bool,
    pub nbf: Option<i64>,
    pub iss: Option<String>,
    pub aud: Option<String>,
}

/// The mathematical value of a [`TokenClaims`].
pub ghost struct ClaimsView {
    pub exp: int,
    pub iat: int,
    pub sub: u128,
    pub email: Seq<char>,
    pub tenant_id: Option<u128>,
    pub admin: bool,
    pub active: bool,
    pub nbf: Option<int>,
    pub iss: Option<Seq<char>>,
    pub aud: Option<Seq<char>>,
}

/// The characters of an optional string.
pub open spec fn text_view(text: Option<String>) -> Option<Seq<char>> {
    match text {
        Some(s) => Some(s@),
        None => None,
    }
}

/// The value of an optional timestamp.
pub open spec fn time_view(time: Option<i64>) -> Option<int> {
    match time {
        Some(t) => Some(t as int),
        None => None,
    }
}

impl View for TokenClaims {
    type V = ClaimsView;

    open spec fn view(&self) -> ClaimsView {
        ClaimsView {
            exp: self.exp as int,
            iat: self.iat as int,
            sub: self.sub,
            email: self.email@,
            tenant_id: self.tenant_id,
            admin: self.admin,
            active: self.active,
            nbf: time_view(self.nbf),
            iss: text_view(self.iss),
            aud: text_view(self.aud),
        }
    }
}

} // verus!
