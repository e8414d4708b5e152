//! The decisions of the two login flows: which stored account a login
//! restores and where its pieces live, and what the user is told while a
//! single sign-on runs.

use vstd::prelude::*;
use vstd::string::StringExecFns;

use crate::auth::accounts::{is_sole_active, select_active_account, AccountData};
use crate::auth::error::LoginError;
use crate::text::{is_first_index_of, server_name};

verus! {

/// Name of the folder, inside the data folder, that holds the accounts.
pub const ACCOUNTS_FOLDER: &'static str = "accounts";

/// The user list.
pub const USERS_FILE: &'static str = "users.toml";

/// The user list while it is being written.
pub const USERS_TMP_FILE: &'static str = "users.toml.tmp";

/// The copy of the user list kept while an account is created.
pub const BACKUP_FILE: &'static str = "users.toml.backup";

/// The copy of the user list while it is being written.
pub const BACKUP_TMP_FILE: &'static str = "users.toml.backup.tmp";

/// The device name announced to the homeserver.
pub const DEVICE_DISPLAY_NAME: &'static str = "meteorite Client";

/// What the user is told when the browser opened the sign-on page.
pub const SSO_BROWSER_OPENED: &'static str = "Go to the opened website to authenticate";

/// Name of the encrypted session file of account `id`.
pub fn encrypted_file_name(id: &str) -> (name: String)
    ensures
        name@ == id@ + ".enc"@,
{
    let mut name = id.to_owned();
    name.append(".enc");
    name
}

/// Name of the encrypted session file of account `id` while it is written.
pub fn encrypted_tmp_file_name(id: &str) -> (name: String)
    ensures
        name@ == id@ + ".enc.tmp"@,
{
    let mut name = id.to_owned();
    name.append(".enc.tmp");
    name
}

/// The message that guides the user through single sign-on: a hint to the
/// opened page, or, when no browser could be opened, the address to visit.
pub fn sso_prompt(browser_opened: bool, sso_url: &str) -> (prompt: String)
    ensures
        browser_opened ==> prompt@ == SSO_BROWSER_OPENED@,
        !browser_opened ==> prompt@ == "Navigate to "@ + sso_url@ + " in a browser of choice"@,
{
    if browser_opened {
        SSO_BROWSER_OPENED.to_owned()
    } else {
        let mut prompt = "Navigate to ".to_owned();
        prompt.append(sso_url);
        prompt.append(" in a browser of choice");
        prompt
    }
}

/// The stored account a login restores, and where its pieces are.
pub struct LoginTarget {
    /// Position of the account in the user list.
    pub index: usize,
    /// The server the account's user id names.
    pub homeserver: String,
    /// Name of the encrypted session file in the accounts folder.
    pub encrypted_file: String,
    /// Name of the database folder in the accounts folder.
    pub sqlite_folder: String,
    /// User of the keyring entry that holds the passphrase.
    pub keyring_user: String,
}

/// Every user id in the list has the shape `@localpart:server`, as parsed
/// Matrix user ids do.
pub open spec fn user_ids_have_server(accounts: Seq<AccountData>) -> bool {
    forall|i: int| 0 <= i < accounts.len() ==> (#[trigger] accounts[i]).user_id@.contains(':')
}

/// Which account to restore. `users` is the parsed user list, or `None` when
/// there is no user list yet. With no list, or without exactly one active
/// account, no account is active; otherwise the target is that account:
/// its server, its encrypted file `<id>.enc`, its database folder `<id>` and
/// its keyring entry `<id>`.
pub fn login_target(users: Option<&Vec<AccountData>>) -> (target: Result<LoginTarget, LoginError>)
    requires
        users matches Some(list) ==> user_ids_have_server(list@),
    ensures
        users is None ==> (target is Err && target->Err_0 is NoAccountActive),
        users matches Some(list) ==> {
            &&& (forall|i: int| !is_sole_active(list@, i)) ==> (target is Err
                && target->Err_0 is NoAccountActive)
            &&& target is Ok ==> ({
                let t = target->Ok_0;
                let a = list@[t.index as int];
                &&& is_sole_active(list@, t.index as int)
                &&& exists|k: int|
                    is_first_index_of(a.user_id@, ':', k) && t.homeserver@ == a.user_id@.skip(
                        k + 1,
                    )
                &&& t.encrypted_file@ == a.id@ + ".enc"@
                &&& t.sqlite_folder@ == a.id@
                &&& t.keyring_user@ == a.id@
            })
            &&& (exists|i: int| is_sole_active(list@, i)) ==> target is Ok
            &&& target is Err ==> target->Err_0 is NoAccountActive
        },
{
    let list = match users {
        Some(list) => list,
        None => return Err(LoginError::NoAccountActive),
    };
    let index = match select_active_account(list) {
        Some(index) => index,
        None => return Err(LoginError::NoAccountActive),
    };
    let account = &list[index];
    let homeserver = server_name(account.user_id.as_str());
    Ok(
        LoginTarget {
            index,
            homeserver,
            encrypted_file: encrypted_file_name(account.id.as_str()),
            sqlite_folder: account.id.clone(),
            keyring_user: account.id.clone(),
        },
    )
}

} // verus!
