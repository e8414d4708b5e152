//! The persistent session: an account stored by the single sign-on is the
//! one the next login restores.

use vstd::prelude::*;

use crate::auth::accounts::{deactivated, is_sole_active, with_registered, AccountData};
use crate::auth::error::LoginError;
use crate::auth::secrets::{age_plaintext, OPEN_MAX_WORK_FACTOR};
use crate::auth::session::{session_of, EncryptedAccountData, StoredSession};
use crate::auth::orphans::{
    file_resource_name, has_enc_extension, has_kind, is_complete, is_orphaned_user, pruned,
    AccountResource, FILE, FOLDER, KEYRING, USER,
};

verus! {

/// A session stored by the single sign-on is restored by the next login.
///
/// The sign-on adds the account `id` of `user_id` to the user list with
/// `register_account`, writes its session file `<id>.enc`
/// (`encrypted_file_name`), its database folder `<id>` and its keyring entry
/// `<id>`. When the next login collects `resources` from that list and those
/// pieces (the file by `entry_resource`, which files `<id>.enc` under
/// `<id>`), then the account is complete, so `plan_orphan_removal` dooms
/// none of the resources named `<id>`, the
/// account stays in the pruned user list, and it is the one and only active
/// account there, so `login_target` restores it: its file `<id>.enc` and its
/// keyring entry `<id>`.
pub proof fn lemma_stored_session_is_restored(
    accounts: Seq<AccountData>,
    id: String,
    user_id: String,
    resources: Seq<AccountResource>,
)
    requires
        has_kind(resources, id@, USER),
        has_kind(resources, file_resource_name(id@ + ".enc"@), FILE),
        has_kind(resources, id@, FOLDER),
        has_kind(resources, id@, KEYRING),
    ensures
        file_resource_name(id@ + ".enc"@) == id@,
        is_complete(resources, id@),
        forall|i: int|
            0 <= i < resources.len() && (#[trigger] resources[i].name_view()) == id@ ==> is_complete(
                resources,
                resources[i].name_view(),
            ),
        ({
            let p = pruned(with_registered(accounts, id, user_id), resources);
            &&& p.len() > 0
            &&& is_sole_active(p, p.len() - 1)
            &&& p[p.len() - 1].id == id
            &&& p[p.len() - 1].user_id == user_id
            &&& forall|t: int| is_sole_active(p, t) ==> p[t].id == id
        }),
{
    reveal_strlit(".enc");
    let file = id@ + ".enc"@;
    assert(file.skip(file.len() - 4) =~= ".enc"@);
    assert(has_enc_extension(file));
    assert(file.take(file.len() - 4) =~= id@);

    let m = accounts.map_values(|a: AccountData| deactivated(a));
    let fresh = AccountData { id, user_id, active: true };
    let r = with_registered(accounts, id, user_id);
    let pred = |a: AccountData| !is_orphaned_user(resources, a.id@);
    assert(r.drop_last() =~= m);
    assert(r.last() == fresh);
    assert(pred(fresh));
    reveal_with_fuel(Seq::<_>::filter, 1);
    let q = m.filter(pred);
    assert(r.filter(pred) == q.push(fresh));
    let p = pruned(r, resources);
    assert(p == q.push(fresh));
    broadcast use vstd::seq_lib::group_filter_ensures;
    assert forall|j: int| 0 <= j < p.len() && j != p.len() - 1 implies !(#[trigger] p[j]).active by {
        assert(p[j] == q[j]);
        assert(q.contains(q[j]));
        m.lemma_filter_contains_rev(pred, q[j]);
        let k = choose|k: int| 0 <= k < m.len() && m[k] == q[j];
        assert(m[k] == deactivated(accounts[k]));
    }
    assert forall|t: int| is_sole_active(p, t) implies p[t].id == id by {
        if t != p.len() - 1 {
            assert(!p[t].active);
        }
    }
}

/// The whole round trip of a session: what the single sign-on stores, the
/// next login gives back.
///
/// The sign-on registers account `id` of `user_id`, seals the serialized
/// tokens `stored` with `passphrase` into `sealed` (`seal_account_data`),
/// and writes the file `<id>.enc`, the folder `<id>` and the keyring entry
/// `<id>` holding `passphrase`. The next login collects `resources` from the
/// user list and those pieces, cleans up, and targets the sole active
/// account with `login_target`; it reads the passphrase from the keyring
/// entry and opens the file (`open_account_data`) into `opened`. Then the
/// cleanup keeps the account, the target is the account `id` of `user_id`
/// with file `<id>.enc` and keyring entry `<id>`, opening succeeds and
/// gives the stored bytes, and the session restored from them (`session_of`, which
/// `matrix_session_from_account` computes) has that user and the stored
/// device and tokens.
pub proof fn lemma_sign_on_session_persists(
    accounts: Seq<AccountData>,
    id: String,
    user_id: String,
    resources: Seq<AccountResource>,
    passphrase: Seq<char>,
    stored: Seq<u8>,
    sealed: Seq<u8>,
    opened: Result<Vec<u8>, LoginError>,
    tokens: EncryptedAccountData,
)
    requires
        has_kind(resources, id@, USER),
        has_kind(resources, file_resource_name(id@ + ".enc"@), FILE),
        has_kind(resources, id@, FOLDER),
        has_kind(resources, id@, KEYRING),
        age_plaintext(passphrase, sealed, OPEN_MAX_WORK_FACTOR) == Some(stored),
        opened matches Ok(p) ==> age_plaintext(passphrase, sealed, OPEN_MAX_WORK_FACTOR) == Some(
            p@,
        ),
        age_plaintext(passphrase, sealed, OPEN_MAX_WORK_FACTOR) is Some ==> opened is Ok,
    ensures
        is_complete(resources, id@),
        ({
            let p = pruned(with_registered(accounts, id, user_id), resources);
            &&& p.len() > 0
            &&& forall|t: int| #![trigger p[t]] is_sole_active(p, t) ==> {
                &&& p[t].id == id
                &&& p[t].user_id == user_id
                &&& session_of(p[t], tokens) == (StoredSession {
                    user_id,
                    device_id: tokens.device_id,
                    access_token: tokens.access_token,
                    refresh_token: tokens.refresh_token,
                })
            }
            &&& is_sole_active(p, p.len() - 1)
        }),
        opened matches Ok(p) && p@ == stored,
{
    lemma_stored_session_is_restored(accounts, id, user_id, resources);
    let p = pruned(with_registered(accounts, id, user_id), resources);
    assert forall|t: int| #![trigger p[t]] is_sole_active(p, t) implies p[t].user_id == user_id by {
        assert(p[t].id == id);
        assert(t == p.len() - 1) by {
            if t != p.len() - 1 {
                assert(!p[t].active);
            }
        }
    }
}

} // verus!
