//! Credential format validation.
//!
//! A username is 5 to 16 characters of `[A-Za-z0-9_]` with at least one
//! alphanumeric character; a password is the same over 8 to 32 characters.
//! Lengths are counted in characters.

use vstd::prelude::*;

use crate::errors::{AuthError, Field, ValidationRule};
use crate::models::UserRegister;
use crate::text::{check_alnum_char, check_word_char, is_alnum_char, is_word_char};

verus! {

pub const MIN_USERNAME: usize = 5;

pub const MAX_USERNAME: usize = 16;

pub const MIN_PASSWORD: usize = 8;

pub const MAX_PASSWORD: usize = 32;

/// The spelling rule shared by usernames and passwords: non-empty, only
/// word characters, and at least one alphanumeric character among them.
pub open spec fn spell_ok(s: Seq<char>) -> bool {
    &&& s.len() > 0
    &&& forall|i: int| 0 <= i < s.len() ==> is_word_char(#[trigger] s[i])
    &&& exists|i: int| 0 <= i < s.len() && is_alnum_char(#[trigger] s[i])
}

/// A well-formed username.
pub open spec fn username_ok(s: Seq<char>) -> bool {
    MIN_USERNAME <= s.len() <= MAX_USERNAME && spell_ok(s)
}

/// A well-formed password.
pub open spec fn password_ok(s: Seq<char>) -> bool {
    MIN_PASSWORD <= s.len() <= MAX_PASSWORD && spell_ok(s)
}

pub struct AuthValidateService {}

impl AuthValidateService {
    /// Checks the spelling rule, blaming `field` on failure.
    fn validate_spell(text: &str, field: Field) -> (r: Result<(), AuthError>)
        ensures
            r is Ok <==> spell_ok(text@),
            r is Err ==> r == Err::<(), AuthError>(AuthError::Validation(
                field,
                ValidationRule::Spell,
            )),
    {
        let n = text.unicode_len();
        if n == 0 {
            return Err(AuthError::Validation(field, ValidationRule::Spell));
        }
        let mut any_alnum = false;
        for i in 0..n
            invariant
                n == text@.len(),
                forall|j: int| 0 <= j < i ==> is_word_char(#[trigger] text@[j]),
                any_alnum <==> exists|j: int| 0 <= j < i && is_alnum_char(#[trigger] text@[j]),
        {
            let c = text.get_char(i);
            if !check_word_char(c) {
                return Err(AuthError::Validation(field, ValidationRule::Spell));
            }
            if check_alnum_char(c) {
                any_alnum = true;
            }
        }
        if any_alnum {
            Ok(())
        } else {
            Err(AuthError::Validation(field, ValidationRule::Spell))
        }
    }

    /// Accepts exactly the well-formed usernames; a rejection names the
    /// username field and the violated rule.
    pub fn validate_username(username: String) -> (r: Result<(), AuthError>)
        ensures
            r is Ok <==> username_ok(username@),
            !(MIN_USERNAME <= username@.len() <= MAX_USERNAME) ==> r == Err::<(), AuthError>(
                AuthError::Validation(Field::Username, ValidationRule::Length),
            ),
            MIN_USERNAME <= username@.len() <= MAX_USERNAME && !spell_ok(username@) ==> r
                == Err::<(), AuthError>(AuthError::Validation(
                Field::Username,
                ValidationRule::Spell,
            )),
    {
        let n = username.as_str().unicode_len();
        if n < MIN_USERNAME || n > MAX_USERNAME {
            return Err(AuthError::Validation(Field::Username, ValidationRule::Length));
        }
        Self::validate_spell(username.as_str(), Field::Username)
    }

    /// Accepts exactly the well-formed passwords; a rejection names the
    /// password field and the violated rule.
    pub fn validate_password(password: String) -> (r: Result<(), AuthError>)
        ensures
            r is Ok <==> password_ok(password@),
            !(MIN_PASSWORD <= password@.len() <= MAX_PASSWORD) ==> r == Err::<(), AuthError>(
                AuthError::Validation(Field::Password, ValidationRule::Length),
            ),
            MIN_PASSWORD <= password@.len() <= MAX_PASSWORD && !spell_ok(password@) ==> r
                == Err::<(), AuthError>(AuthError::Validation(
                Field::Password,
                ValidationRule::Spell,
            )),
    {
        let n = password.as_str().unicode_len();
        if n < MIN_PASSWORD || n > MAX_PASSWORD {
            return Err(AuthError::Validation(Field::Password, ValidationRule::Length));
        }
        Self::validate_spell(password.as_str(), Field::Password)
    }

    /// Validates a registration request: the username first, then the
    /// password, returning the first rejection.
    pub fn validate(user: &UserRegister) -> (r: Result<(), AuthError>)
        ensures
            r is Ok <==> username_ok(user.username@) && password_ok(user.password@),
            !username_ok(user.username@) ==> r is Err && (r matches Err(
                AuthError::Validation(f, _),
            ) && f == Field::Username),
            username_ok(user.username@) && !password_ok(user.password@) ==> r is Err && (
            r matches Err(AuthError::Validation(f, _)) && f == Field::Password),
    {
        Self::validate_username(user.username.clone())?;
        Self::validate_password(user.password.clone())?;
        Ok(())
    }
}

} // verus!
