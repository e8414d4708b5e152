//! The decisions of the terminal login: the database password, the login
//! method chosen by number, and the user id built from the typed name.

use vstd::prelude::*;
use vstd::string::StringExecFns;

verus! {

/// The characters of a generated database password.
pub const DB_PASSWORD_CHARSET: &'static str = "ABCDEFGHIJKLMNOPQRSTUVWXYZabcdefghijklmnopqrstuvwxyz0123456789";

/// Length of a generated database password.
pub const DB_PASSWORD_LENGTH: usize = 32;

/// Calls `random_string::generate`: `length` characters, each drawn from
/// `charset` (which must not be empty, else the function panics). Which
/// characters come out is chance.
#[verifier::external_body]
fn random_string_generate(length: usize, charset: &str) -> (s: String)
    requires
        charset@.len() > 0,
    ensures
        s@.len() == length,
        forall|i: int| 0 <= i < s@.len() ==> charset@.contains(#[trigger] s@[i]),
{
    random_string::generate(length, charset)
}

/// A fresh database password: `DB_PASSWORD_LENGTH` random characters of
/// `DB_PASSWORD_CHARSET`.
pub fn generate_db_password() -> (password: String)
    ensures
        password@.len() == DB_PASSWORD_LENGTH,
        forall|i: int|
            0 <= i < password@.len() ==> DB_PASSWORD_CHARSET@.contains(#[trigger] password@[i]),
{
    proof {
        reveal_strlit("ABCDEFGHIJKLMNOPQRSTUVWXYZabcdefghijklmnopqrstuvwxyz0123456789");
    }
    random_string_generate(DB_PASSWORD_LENGTH, DB_PASSWORD_CHARSET)
}

/// How the user chose to log in.
#[derive(PartialEq, Eq, Structural, Clone, Copy, Debug)]
pub enum LoginMethod {
    Username,
    Sso,
    Invalid,
}

/// The login method of the typed number: 1 is a username login, 2 single
/// sign-on, anything else is invalid.
pub fn login_method(choice: i32) -> (method: LoginMethod)
    ensures
        choice == 1 ==> method == LoginMethod::Username,
        choice == 2 ==> method == LoginMethod::Sso,
        choice != 1 && choice != 2 ==> method == LoginMethod::Invalid,
{
    if choice == 1 {
        LoginMethod::Username
    } else if choice == 2 {
        LoginMethod::Sso
    } else {
        LoginMethod::Invalid
    }
}

/// The full user id `@<localpart>:<homeserver>` of a typed user name.
pub fn cli_user_id(localpart: &str, homeserver: &str) -> (user_id: String)
    ensures
        user_id@ == "@"@ + localpart@ + ":"@ + homeserver@,
{
    let mut user_id = "@".to_owned();
    user_id.append(localpart);
    user_id.append(":");
    user_id.append(homeserver);
    user_id
}

} // verus!
