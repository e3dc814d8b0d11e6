//! Who may sign in, and the rules for names and passwords.

use vstd::prelude::*;

use crate::text::{is_space, trim};

verus! {

/// Short enough to be typable, long enough to be worth hashing.
pub const MINIMUM_PASSWORD_LENGTH: usize = 8;

/// Why an account operation was refused.
#[derive(Debug, Clone, Copy, PartialEq, Eq, Structural)]
pub enum AccountError {
    MissingUsername,
    InvalidUsername,
    UsernameTaken,
    PasswordTooShort,
    NoSuchUser,
    WrongPassword,
    NoPasswordSet,
}

pub open spec fn account_error_text(e: AccountError) -> Seq<char> {
    match e {
        AccountError::MissingUsername => "a username is required"@,
        AccountError::InvalidUsername => "a username may only contain letters, numbers, dots, dashes and underscores"@,
        AccountError::UsernameTaken => "that name is already taken"@,
        AccountError::PasswordTooShort => "a password of at least 8 characters is required"@,
        AccountError::NoSuchUser => "no such account"@,
        AccountError::WrongPassword => "that is not the right password"@,
        AccountError::NoPasswordSet => "this account has no password set, so it cannot be signed into"@,
    }
}

impl AccountError {
    /// What the person is told.
    pub fn message(self) -> (r: &'static str)
        ensures
            r@ == account_error_text(self),
    {
        match self {
            AccountError::MissingUsername => "a username is required",
            AccountError::InvalidUsername => "a username may only contain letters, numbers, dots, dashes and underscores",
            AccountError::UsernameTaken => "that name is already taken",
            AccountError::PasswordTooShort => "a password of at least 8 characters is required",
            AccountError::NoSuchUser => "no such account",
            AccountError::WrongPassword => "that is not the right password",
            AccountError::NoPasswordSet => "this account has no password set, so it cannot be signed into",
        }
    }
}

/// A character allowed in a username: an ASCII letter or digit, a dot, a
/// dash or an underscore.
pub open spec fn username_char(c: char) -> bool {
    ||| ('a' <= c && c <= 'z')
    ||| ('A' <= c && c <= 'Z')
    ||| ('0' <= c && c <= '9')
    ||| c == '.'
    ||| c == '-'
    ||| c == '_'
}

pub open spec fn normalized_username(raw: Seq<char>) -> Result<Seq<char>, AccountError> {
    let name = trim(raw);
    if name.len() == 0 {
        Err(AccountError::MissingUsername)
    } else if !(forall|i: int| 0 <= i < name.len() ==> username_char(name[i])) {
        Err(AccountError::InvalidUsername)
    } else {
        Ok(name)
    }
}

/// Trim and check a username. The name appears in the interface and is
/// compared case-insensitively, so it is kept to a conservative set.
pub fn normalize_username(username: &str) -> (r: Result<String, AccountError>)
    ensures
        match r {
            Ok(name) => normalized_username(username@) == Ok::<Seq<char>, AccountError>(name@),
            Err(e) => normalized_username(username@) == Err::<Seq<char>, AccountError>(e),
        },
{
    let chars = crate::text::chars_of(username);
    let name = crate::text::trim_chars(&chars);
    if name.len() == 0 {
        return Err(AccountError::MissingUsername);
    }
    let mut i: usize = 0;
    while i < name.len()
        invariant
            i <= name@.len(),
            name@ == trim(username@),
            forall|j: int| 0 <= j < i ==> username_char(name@[j]),
        decreases name@.len() - i,
    {
        let c = name[i];
        let ok = ('a' <= c && c <= 'z') || ('A' <= c && c <= 'Z') || ('0' <= c && c <= '9') || c
            == '.' || c == '-' || c == '_';
        if !ok {
            assert(!username_char(name@[i as int]));
            assert(trim(username@) == name@);
            assert(!(forall|k: int| 0 <= k < name@.len() ==> username_char(name@[k])));
            return Err(AccountError::InvalidUsername);
        }
        i = i + 1;
    }
    Ok(crate::text::string_of(&name))
}

/// A password long enough to be worth hashing, counted in characters.
pub fn check_password(password: &str) -> (r: Result<(), AccountError>)
    ensures
        r is Ok <==> password@.len() >= MINIMUM_PASSWORD_LENGTH,
        r is Err ==> r == Err::<(), AccountError>(AccountError::PasswordTooShort),
{
    let chars = crate::text::chars_of(password);
    if chars.len() < MINIMUM_PASSWORD_LENGTH {
        return Err(AccountError::PasswordTooShort);
    }
    Ok(())
}

/// A name that normalizes is its own normal form: normalizing twice changes
/// nothing.
pub proof fn normalize_username_idempotent(raw: Seq<char>)
    requires
        normalized_username(raw) is Ok,
    ensures
        normalized_username(normalized_username(raw)->Ok_0) == normalized_username(raw),
{
    let name = trim(raw);
    assert forall|i: int| 0 <= i < name.len() implies !is_space(name[i]) by {
        assert(username_char(name[i]));
    }
    lemma_trim_of_unspaced(name);
}

proof fn lemma_trim_of_unspaced(s: Seq<char>)
    requires
        forall|i: int| 0 <= i < s.len() ==> !is_space(s[i]),
    ensures
        trim(s) == s,
{
    assert(crate::text::trim_start(s) == s);
    assert(crate::text::trim_end(s) == s);
}

// ---------------------------------------------------------------------
// Passwords
// ---------------------------------------------------------------------

/// Whether `password` verifies against the stored Argon2 hash text `hash`.
pub uninterp spec fn password_verifies(hash: Seq<char>, password: Seq<char>) -> bool;

/// `argon2`'s `PasswordHash::new` on the stored text, then
/// `Argon2::verify_password`: whether the password matches. A stored text
/// that does not parse as a hash matches nothing. The answer is named by
/// `password_verifies` and depends on the two texts alone.
#[verifier::external_body]
fn argon2_verify(hash: &str, password: &str) -> (r: bool)
    ensures
        r == password_verifies(hash@, password@),
{
    match argon2::password_hash::phc::PasswordHash::new(hash) {
        Ok(parsed) => argon2::password_hash::PasswordVerifier::verify_password(
            &argon2::Argon2::default(),
            password.as_bytes(),
            &parsed,
        ).is_ok(),
        Err(_) => false,
    }
}

/// `argon2`'s `Argon2::hash_password` with a fresh random salt, written as
/// its PHC text. The salt is random, so the text differs from call to call
/// and nothing fixes it; what the crate documents, and all that is claimed
/// here, is that the text verifies the password it was made from. Hashing
/// fails only on a parameter mistake.
#[verifier::external_body]
fn argon2_hash(password: &str) -> (r: Option<String>)
    ensures
        r matches Some(h) ==> password_verifies(h@, password@),
{
    match argon2::password_hash::PasswordHasher::<argon2::password_hash::phc::PasswordHash>::hash_password(
        &argon2::Argon2::default(),
        password.as_bytes(),
    ) {
        Ok(hash) => Some(hash.to_string()),
        Err(_) => None,
    }
}

/// The hash to store for a new password: refused when the password is too
/// short; otherwise an Argon2id hash, salted, that verifies this password.
/// A hashing failure reads as a wrong password, since there is nothing in
/// it to tell the person apart from "that did not work".
pub fn new_password_hash(password: &str) -> (r: Result<String, AccountError>)
    ensures
        password@.len() < MINIMUM_PASSWORD_LENGTH ==> r == Err::<String, AccountError>(
            AccountError::PasswordTooShort,
        ),
        password@.len() >= MINIMUM_PASSWORD_LENGTH ==> match r {
            Ok(h) => password_verifies(h@, password@),
            Err(e) => e == AccountError::WrongPassword,
        },
{
    match check_password(password) {
        Err(e) => Err(e),
        Ok(()) => match argon2_hash(password) {
            Some(hash) => Ok(hash),
            None => Err(AccountError::WrongPassword),
        },
    }
}

/// What signing in with `password` against the stored hash comes to.
pub open spec fn login_outcome(stored: Option<Seq<char>>, password: Seq<char>) -> Result<
    (),
    AccountError,
> {
    match stored {
        None => Err(AccountError::NoPasswordSet),
        Some(hash) => if password_verifies(hash, password) {
            Ok(())
        } else {
            Err(AccountError::WrongPassword)
        },
    }
}

/// Check a password against what is stored for an account: an account with
/// no password cannot be signed into, and a password that does not verify
/// is wrong.
pub fn check_login(stored: Option<&str>, password: &str) -> (r: Result<(), AccountError>)
    ensures
        r == login_outcome(
            match stored {
                Some(h) => Some(h@),
                None => None,
            },
            password@,
        ),
{
    match stored {
        None => Err(AccountError::NoPasswordSet),
        Some(hash) => if argon2_verify(hash, password) {
            Ok(())
        } else {
            Err(AccountError::WrongPassword)
        },
    }
}

/// What signing in comes to, given the stored hash of the account found by
/// that name (`None` when no account goes by it): an unknown name answers
/// the same as a wrong password, so sign-in cannot be used to find out
/// which accounts exist.
pub open spec fn sign_in_outcome(found: Option<Option<Seq<char>>>, password: Seq<char>) -> Result<
    (),
    AccountError,
> {
    match found {
        None => Err(AccountError::WrongPassword),
        Some(stored) => login_outcome(stored, password),
    }
}

/// Check a sign-in against what was found under the name.
pub fn check_sign_in(found: Option<Option<&str>>, password: &str) -> (r: Result<(), AccountError>)
    ensures
        r == sign_in_outcome(
            match found {
                Some(Some(h)) => Some(Some(h@)),
                Some(None) => Some(None),
                None => None,
            },
            password@,
        ),
{
    match found {
        None => Err(AccountError::WrongPassword),
        Some(stored) => check_login(stored, password),
    }
}

/// A password that was accepted and stored signs in afterwards.
pub proof fn law_a_stored_password_signs_in(hash: Seq<char>, password: Seq<char>)
    requires
        password_verifies(hash, password),
    ensures
        login_outcome(Some(hash), password) is Ok,
{
}

} // verus!
