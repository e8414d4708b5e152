//! Random account identifiers and passphrases, and the encryption of the
//! stored session.

use age::secrecy::SecretString;
use rand::distr::{Alphanumeric, SampleString};
use rand::rngs::ThreadRng;
use vstd::prelude::*;

use crate::auth::error::{into_login_error, LoginError};

verus! {

#[verifier::external_type_specification]
#[verifier::external_body]
pub struct ExThreadRng(ThreadRng);

/// Length of a generated account id and of a generated passphrase.
pub const SECRET_LENGTH: usize = 32;

/// `c` is an ASCII letter or digit.
pub open spec fn is_ascii_alphanumeric(c: char) -> bool {
    ('a' <= c && c <= 'z') || ('A' <= c && c <= 'Z') || ('0' <= c && c <= '9')
}

/// `s` is `len` ASCII letters and digits.
pub open spec fn is_alphanumeric_of_length(s: Seq<char>, len: nat) -> bool {
    &&& s.len() == len
    &&& forall|i: int| 0 <= i < s.len() ==> is_ascii_alphanumeric(#[trigger] s[i])
}

/// Calls `rand::rng()`, the thread-local generator.
#[verifier::external_body]
fn thread_rng() -> ThreadRng {
    rand::rng()
}

/// Calls `Alphanumeric.sample_string`: `len` characters drawn from the
/// ASCII letters and digits. Which characters come out is chance; their
/// number and their range are what rand's source guarantees.
#[verifier::external_body]
fn sample_alphanumeric(rng: &mut ThreadRng, len: usize) -> (s: String)
    ensures
        is_alphanumeric_of_length(s@, len as nat),
{
    Alphanumeric.sample_string(rng, len)
}

/// A fresh account id and a fresh passphrase, both of `SECRET_LENGTH`
/// random ASCII letters and digits.
pub fn generate_account_secrets() -> (secrets: (String, String))
    ensures
        is_alphanumeric_of_length(secrets.0@, SECRET_LENGTH as nat),
        is_alphanumeric_of_length(secrets.1@, SECRET_LENGTH as nat),
{
    let mut rng = thread_rng();
    let id = sample_alphanumeric(&mut rng, SECRET_LENGTH);
    let passphrase = sample_alphanumeric(&mut rng, SECRET_LENGTH);
    (id, passphrase)
}

/// The highest scrypt work factor (`N = 2^log_n`) accepted when opening a
/// stored session. It is the largest a `u8` holds, so every file that
/// `age::encrypt` wrote opens on any machine, whatever work factor the
/// machine that sealed it picked.
pub const OPEN_MAX_WORK_FACTOR: u8 = 255;

/// What `age::decrypt` gives for `ciphertext` with an scrypt identity of
/// `passphrase` whose maximum work factor is set to `max_log_n`: `Some` of
/// the plaintext on success, `None` on failure. With the maximum set, the
/// identity's decision no longer depends on the machine, and decryption
/// reads nothing but its arguments.
pub uninterp spec fn age_plaintext(passphrase: Seq<char>, ciphertext: Seq<u8>, max_log_n: u8) -> Option<Seq<u8>>;

/// Calls `age::encrypt` with an scrypt recipient built from `passphrase`.
/// With one scrypt recipient and the output in memory, age's source has no
/// path that fails: the single recipient's stanza is always accepted and
/// writing to a `Vec` cannot fail, so the result is `Ok`. The ciphertext
/// depends on random salt and nonce, and the work factor on the machine's
/// speed; what is promised of it is age's round trip: decrypting it with
/// the same passphrase, accepting any work factor up to the largest, gives
/// the plaintext back.
#[verifier::external_body]
fn age_encrypt(passphrase: &str, plaintext: &[u8]) -> (res: Result<Vec<u8>, String>)
    ensures
        res is Ok,
        res matches Ok(c) ==> age_plaintext(passphrase@, c@, 255u8) == Some(plaintext@),
{
    let recipient = age::scrypt::Recipient::new(SecretString::from(passphrase));
    match age::encrypt(&recipient, plaintext) {
        Ok(ciphertext) => Ok(ciphertext),
        Err(e) => Err(e.to_string()),
    }
}

/// Calls `age::decrypt` with an scrypt identity built from `passphrase`,
/// with its maximum work factor set to `max_log_n`; an error is handed on
/// as its message. The result is the one `age_plaintext` names: the
/// plaintext when decryption succeeds, an error exactly when it fails.
/// Which error message comes out is not stated.
#[verifier::external_body]
fn age_decrypt(passphrase: &str, ciphertext: &[u8], max_log_n: u8) -> (res: Result<Vec<u8>, String>)
    ensures
        res matches Ok(p) ==> age_plaintext(passphrase@, ciphertext@, max_log_n) == Some(p@),
        res is Err ==> age_plaintext(passphrase@, ciphertext@, max_log_n) is None,
{
    let mut identity = age::scrypt::Identity::new(SecretString::from(passphrase));
    identity.set_max_work_factor(max_log_n);
    match age::decrypt(&identity, ciphertext) {
        Ok(plaintext) => Ok(plaintext),
        Err(e) => Err(e.to_string()),
    }
}

/// Encrypts the serialized session data with the account's passphrase, so
/// that opening it with the same passphrase gives the data back. Sealing
/// always succeeds.
pub fn seal_account_data(passphrase: &str, plaintext: &[u8]) -> (sealed: Result<
    Vec<u8>,
    LoginError,
>)
    ensures
        sealed is Ok,
        sealed matches Ok(c) ==> age_plaintext(passphrase@, c@, OPEN_MAX_WORK_FACTOR) == Some(
            plaintext@,
        ),
{
    into_login_error(age_encrypt(passphrase, plaintext))
}

/// Decrypts the stored session data with the account's passphrase. It
/// succeeds exactly when age decrypts the data with that passphrase, and
/// then gives age's plaintext; otherwise the error is an `Other` login
/// error.
pub fn open_account_data(passphrase: &str, ciphertext: &[u8]) -> (opened: Result<
    Vec<u8>,
    LoginError,
>)
    ensures
        opened matches Ok(p) ==> age_plaintext(passphrase@, ciphertext@, OPEN_MAX_WORK_FACTOR)
            == Some(p@),
        age_plaintext(passphrase@, ciphertext@, OPEN_MAX_WORK_FACTOR) is Some ==> opened is Ok,
        opened matches Err(e) ==> e is Other,
{
    into_login_error(age_decrypt(passphrase, ciphertext, OPEN_MAX_WORK_FACTOR))
}

/// Opening what was sealed succeeds and gives the sealed data back: for
/// every passphrase and data, and every outcome that sealing and then
/// opening with the same passphrase can have, the opened data is the
/// sealed one.
pub proof fn lemma_open_after_seal(
    passphrase: Seq<char>,
    plaintext: Seq<u8>,
    sealed: Seq<u8>,
    opened: Result<Vec<u8>, LoginError>,
)
    requires
        age_plaintext(passphrase, sealed, OPEN_MAX_WORK_FACTOR) == Some(plaintext),
        opened matches Ok(p) ==> age_plaintext(passphrase, sealed, OPEN_MAX_WORK_FACTOR) == Some(
            p@,
        ),
        age_plaintext(passphrase, sealed, OPEN_MAX_WORK_FACTOR) is Some ==> opened is Ok,
    ensures
        opened is Ok,
        opened matches Ok(p) && p@ == plaintext,
{
}

} // verus!
