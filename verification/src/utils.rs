use vstd::prelude::*;

use crate::errors::messages::ErrorKey;
use crate::handlers::utils::{is_lower_hex, is_sha256_hex};
use crate::text::chars_of;

verus! {

/// What checking a password gives: an empty password and one that is not the
/// text of a SHA-256 digest are refused, each with its own key.
pub open spec fn password_check(password: Seq<char>) -> Result<(), ErrorKey> {
    if password.len() == 0 {
        Err(ErrorKey::UserPasswordEmpty)
    } else if !is_sha256_hex(password) {
        Err(ErrorKey::UserPasswordInvalid)
    } else {
        Ok(())
    }
}

/// Checks that a password is given in its stored form: 64 lowercase
/// hexadecimal digits.
pub fn validate_user_password(password: &str) -> (r: Result<(), ErrorKey>)
    ensures
        r == password_check(password@),
{
    let cs = chars_of(password);
    if cs.len() == 0 {
        return Err(ErrorKey::UserPasswordEmpty);
    }
    if cs.len() != 64 {
        return Err(ErrorKey::UserPasswordInvalid);
    }
    let mut i: usize = 0;
    while i < cs.len()
        invariant
            cs@ == password@,
            i <= cs.len(),
            forall|j: int| 0 <= j < i ==> is_lower_hex(#[trigger] cs@[j]),
        decreases cs.len() - i,
    {
        let c = cs[i];
        if !(('0' <= c && c <= '9') || ('a' <= c && c <= 'f')) {
            return Err(ErrorKey::UserPasswordInvalid);
        }
        i = i + 1;
    }
    Ok(())
}

/// A password in stored form, such as any that `hash_password` gives, passes
/// the password check.
pub proof fn lemma_stored_form_passes_check(stored: Seq<char>)
    requires
        is_sha256_hex(stored),
    ensures
        password_check(stored) == Ok::<(), ErrorKey>(()),
{
}

/// The password check refuses exactly the empty password as empty, and
/// refuses every other password that is not 64 lowercase hexadecimal digits
/// as invalid.
pub proof fn lemma_password_check_cases(password: Seq<char>)
    ensures
        (password_check(password) == Err::<(), ErrorKey>(ErrorKey::UserPasswordEmpty)) == (
        password.len() == 0),
        password.len() > 0 && password.len() != 64 ==> password_check(password) == Err::<
            (),
            ErrorKey,
        >(ErrorKey::UserPasswordInvalid),
        (password_check(password) is Ok) == (password.len() == 64 && forall|i: int|
            0 <= i < 64 ==> is_lower_hex(#[trigger] password[i])),
{
}

} // verus!
