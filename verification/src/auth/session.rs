//! The encrypted part of a stored account and the session restored from it.

use std::time::{Duration, SystemTime};
use vstd::prelude::*;

use crate::auth::accounts::AccountData;

verus! {

/// Calls `SystemTime::now`. The clock is read, so nothing is promised.
#[verifier::external_body]
fn system_time_now() -> SystemTime {
    SystemTime::now()
}

/// Calls `SystemTime::checked_add`: `None` when the sum cannot be
/// represented. Which time comes out is not stated here.
#[verifier::external_body]
fn system_time_checked_add(time: SystemTime, duration: Duration) -> Option<SystemTime> {
    time.checked_add(duration)
}

/// The tokens of an account, stored encrypted; only loaded when needed.
pub struct EncryptedAccountData {
    pub access_token: String,
    pub refresh_token: Option<String>,
    pub expiration: Option<SystemTime>,
    pub device_id: String,
}

impl EncryptedAccountData {
    /// The stored tokens of a fresh login. The expiration is the current
    /// time plus `expires_in`, when the server gave a lifetime and the sum
    /// is representable; without a lifetime there is no expiration.
    pub fn new(
        access_token: String,
        refresh_token: Option<String>,
        expires_in: Option<Duration>,
        device_id: String,
    ) -> (data: EncryptedAccountData)
        ensures
            data.access_token == access_token,
            data.refresh_token == refresh_token,
            data.device_id == device_id,
            expires_in is None ==> data.expiration is None,
    {
        let expiration = match expires_in {
            Some(expires_in) => system_time_checked_add(system_time_now(), expires_in),
            None => None,
        };
        EncryptedAccountData { access_token, refresh_token, expiration, device_id }
    }
}

/// What a Matrix session is restored from: the user and device, and the
/// tokens.
pub struct StoredSession {
    pub user_id: String,
    pub device_id: String,
    pub access_token: String,
    pub refresh_token: Option<String>,
}

/// The session restored for the user-list entry `data` from its decrypted
/// tokens `encrypted`: the entry's user, and the stored device and tokens.
pub open spec fn session_of(data: AccountData, encrypted: EncryptedAccountData) -> StoredSession {
    StoredSession {
        user_id: data.user_id,
        device_id: encrypted.device_id,
        access_token: encrypted.access_token,
        refresh_token: encrypted.refresh_token,
    }
}

/// The session of an account, from its user-list entry and its decrypted
/// tokens.
pub fn matrix_session_from_account(
    data: &AccountData,
    encrypted: &EncryptedAccountData,
) -> (session: StoredSession)
    ensures
        session.user_id == data.user_id,
        session.device_id == encrypted.device_id,
        session.access_token == encrypted.access_token,
        session.refresh_token == encrypted.refresh_token,
        session == session_of(*data, *encrypted),
{
    let refresh_token = match &encrypted.refresh_token {
        Some(t) => Some(t.clone()),
        None => None,
    };
    StoredSession {
        user_id: data.user_id.clone(),
        device_id: encrypted.device_id.clone(),
        access_token: encrypted.access_token.clone(),
        refresh_token,
    }
}

} // verus!
