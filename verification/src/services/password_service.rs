use vstd::prelude::*;
use crate::helper::exceptions::AuthError;
use crate::helper::text::same_text;
use crate::schemas::user_schemas::PasswordUpdate;

verus! {

/// The least number of characters of an acceptable password.
pub const MIN_PASSWORD_CHARS: usize = 8;

/// The bcrypt cost factor that new digests are made with.
pub const HASH_COST: u32 = 12;

/// Whether a plaintext is one of the passwords refused by name.
pub open spec fn spec_denylisted(password: Seq<char>) -> bool {
    password == "password"@ || password == "12345678"@
}

/// The strength policy: at least eight characters and not refused by name.
pub open spec fn spec_acceptable(password: Seq<char>) -> bool {
    password.len() >= 8 && !spec_denylisted(password)
}

/// What `bcrypt::verify` answers for a plaintext and a stored digest:
/// `Some(b)` where it returns `Ok(b)`, `None` where it returns an error
/// (a digest that is not in bcrypt's format).
pub uninterp spec fn bcrypt_check(password: Seq<char>, digest: Seq<char>) -> Option<bool>;

/// Whether a plaintext matches a stored digest. A malformed digest matches
/// nothing.
pub open spec fn spec_matches(password: Seq<char>, digest: Seq<char>) -> bool {
    bcrypt_check(password, digest) == Some(true)
}

/// The outward shape of a bcrypt digest: sixty characters, the first of
/// them `$`.
pub open spec fn has_digest_shape(text: Seq<char>) -> bool {
    text.len() == 60 && text[0] == '$'
}

/// The character of a decimal digit.
pub open spec fn digit_char(digit: int) -> char {
    if digit == 0 {
        '0'
    } else if digit == 1 {
        '1'
    } else if digit == 2 {
        '2'
    } else if digit == 3 {
        '3'
    } else if digit == 4 {
        '4'
    } else if digit == 5 {
        '5'
    } else if digit == 6 {
        '6'
    } else if digit == 7 {
        '7'
    } else if digit == 8 {
        '8'
    } else {
        '9'
    }
}

/// Whether a text is a bcrypt digest of version `2b` made at a cost
/// factor: `$2b$`, the cost in two decimal digits, `$`, then salt and hash,
/// sixty characters in all.
pub open spec fn is_digest_at_cost(text: Seq<char>, cost: int) -> bool {
    &&& text.len() == 60
    &&& text[0] == '$'
    &&& text[1] == '2'
    &&& text[2] == 'b'
    &&& text[3] == '$'
    &&& text[4] == digit_char(cost / 10)
    &&& text[5] == digit_char(cost % 10)
    &&& text[6] == '$'
}

/// `bcrypt::BcryptError`, the error of `hash` and `verify`. It is carried
/// through unread.
#[verifier::external_type_specification]
#[verifier::external_body]
pub struct ExBcryptError(bcrypt::BcryptError);

/// Calls `bcrypt::hash`, which draws a random salt. Whatever the salt, the
/// digest it returns is one that `bcrypt::verify` accepts for the same
/// plaintext, and it is bcrypt's 60-character form of version `2b` with the
/// given cost in it.
#[verifier::external_body]
fn bcrypt_hash(password: &str, cost: u32) -> (made: Result<String, bcrypt::BcryptError>)
    ensures
        made matches Ok(digest) ==> bcrypt_check(password@, digest@) == Some(true)
            && is_digest_at_cost(digest@, cost as int),
{
    bcrypt::hash(password, cost)
}

/// Calls `bcrypt::verify`, whose answer depends on its two arguments alone.
#[verifier::external_body]
fn bcrypt_verify(password: &str, digest: &str) -> (checked: Result<bool, bcrypt::BcryptError>)
    ensures
        match checked {
            Ok(b) => bcrypt_check(password@, digest@) == Some(b),
            Err(_) => bcrypt_check(password@, digest@).is_none(),
        },
{
    bcrypt::verify(password, digest)
}

/// Hashing, verification and strength validation of plaintext passwords.
pub struct PasswordService;

impl PasswordService {
    /// Makes a salted digest of `password` for storage.
    ///
    /// The digest verifies against the same plaintext and is a bcrypt
    /// digest at cost 12, so it differs from every plaintext that has not
    /// the shape of a digest itself. It fails only where the hashing itself
    /// fails, with `EncodingError`.
    pub fn hash(password: &str) -> (made: Result<String, AuthError>)
        ensures
            match made {
                Ok(digest) => spec_matches(password@, digest@) && is_digest_at_cost(digest@, 12)
                    && (!has_digest_shape(password@) ==> digest@ != password@),
                Err(e) => e == AuthError::EncodingError,
            },
    {
        match bcrypt_hash(password, HASH_COST) {
            Ok(digest) => Ok(digest),
            Err(_) => Err(AuthError::EncodingError),
        }
    }

    /// Whether `password` matches the stored digest `hash`. A malformed
    /// digest gives `false`.
    pub fn verify(password: &str, hash: &str) -> (matches: bool)
        ensures
            matches == spec_matches(password@, hash@),
    {
        match bcrypt_verify(password, hash) {
            Ok(b) => b,
            Err(_) => false,
        }
    }

    /// Whether `password` meets the strength policy.
    pub fn validate(password: &str) -> (acceptable: bool)
        ensures
            acceptable == spec_acceptable(password@),
    {
        password.unicode_len() >= MIN_PASSWORD_CHARS && !same_text(password, "password")
            && !same_text(password, "12345678")
    }

    /// Decides a password change from the stored digest and the request.
    ///
    /// The new password must meet the policy, else `ValidationError`; the
    /// old one must match the stored digest, else `AuthenticationError`.
    /// Then the digest to store for the new password is returned.
    pub fn update_password(stored_hash: &str, new_data: PasswordUpdate) -> (made: Result<
        String,
        AuthError,
    >)
        ensures
            !spec_acceptable(new_data.new_password@) ==> made == Err::<String, AuthError>(
                AuthError::ValidationError,
            ),
            spec_acceptable(new_data.new_password@) && !spec_matches(
                new_data.old_password@,
                stored_hash@,
            ) ==> made == Err::<String, AuthError>(AuthError::AuthenticationError),
            spec_acceptable(new_data.new_password@) && spec_matches(
                new_data.old_password@,
                stored_hash@,
            ) ==> match made {
                Ok(digest) => spec_matches(new_data.new_password@, digest@) && is_digest_at_cost(
                    digest@,
                    12,
                ),
                Err(e) => e == AuthError::EncodingError,
            },
    {
        if !Self::validate(new_data.new_password.as_str()) {
            return Err(AuthError::ValidationError);
        }
        if !Self::verify(new_data.old_password.as_str(), stored_hash) {
            return Err(AuthError::AuthenticationError);
        }
        Self::hash(new_data.new_password.as_str())
    }
}

} // verus!
