//! The user list: which accounts exist and which of them is active.

use vstd::prelude::*;

verus! {

/// One entry of the unencrypted user list.
///
/// `id` names the account's files, database folder and keyring entry;
/// `user_id` is the Matrix user id (`@localpart:server`).
pub struct AccountData {
    pub id: String,
    pub user_id: String,
    pub active: bool,
}

/// The unencrypted user list.
pub struct AccountList {
    pub accounts: Vec<AccountData>,
}

impl Default for AccountList {
    fn default() -> (list: AccountList)
        ensures
            list.accounts@ == Seq::<AccountData>::empty(),
    {
        AccountList { accounts: Vec::new() }
    }
}

/// `i` is the one and only active account of `accounts`.
pub open spec fn is_sole_active(accounts: Seq<AccountData>, i: int) -> bool {
    &&& 0 <= i < accounts.len()
    &&& accounts[i].active
    &&& forall|j: int| 0 <= j < accounts.len() && j != i ==> !(#[trigger] accounts[j]).active
}

/// The account as it is after another account became the active one.
pub open spec fn deactivated(a: AccountData) -> AccountData {
    AccountData { id: a.id, user_id: a.user_id, active: false }
}

/// The user list after a new account `id` of `user_id` was added as the only
/// active account.
pub open spec fn with_registered(
    accounts: Seq<AccountData>,
    id: String,
    user_id: String,
) -> Seq<AccountData> {
    accounts.map_values(|a: AccountData| deactivated(a)).push(
        AccountData { id, user_id, active: true },
    )
}

/// The position of the account to log in with: `Some` exactly when one and
/// only one account is marked active. Several active accounts count as none.
pub fn select_active_account(accounts: &Vec<AccountData>) -> (selected: Option<usize>)
    ensures
        selected matches Some(i) ==> is_sole_active(accounts@, i as int),
        selected is None ==> forall|i: int| !is_sole_active(accounts@, i),
{
    let mut first: Option<usize> = None;
    let mut i: usize = 0;
    while i < accounts.len()
        invariant
            i <= accounts.len(),
            first matches Some(f) ==> f < i && accounts@[f as int].active && forall|j: int|
                0 <= j < i && j != f ==> !(#[trigger] accounts@[j]).active,
            first is None ==> forall|j: int| 0 <= j < i ==> !(#[trigger] accounts@[j]).active,
        decreases accounts.len() - i,
    {
        if accounts[i].active {
            if first.is_some() {
                proof {
                    let f = first.unwrap() as int;
                    assert forall|k: int| !is_sole_active(accounts@, k) by {
                        if is_sole_active(accounts@, k) {
                            if k != f {
                                assert(!accounts@[k].active || !accounts@[f].active);
                            } else {
                                assert(!accounts@[i as int].active);
                            }
                        }
                    }
                }
                return None;
            }
            first = Some(i);
        }
        i = i + 1;
    }
    proof {
        if first is None {
            assert forall|k: int| !is_sole_active(accounts@, k) by {
                if 0 <= k < accounts.len() {
                    assert(!accounts@[k].active);
                }
            }
        }
    }
    first
}

/// Adds the account `id` of `user_id` as the active one; every account that
/// was there before is marked inactive, and its order kept.
pub fn register_account(accounts: &mut Vec<AccountData>, id: String, user_id: String)
    ensures
        final(accounts)@ == with_registered(old(accounts)@, id, user_id),
        final(accounts)@.len() == old(accounts)@.len() + 1,
        forall|j: int|
            0 <= j < old(accounts)@.len() ==> {
                &&& (#[trigger] final(accounts)@[j]).id == old(accounts)@[j].id
                &&& final(accounts)@[j].user_id == old(accounts)@[j].user_id
                &&& !final(accounts)@[j].active
            },
        final(accounts)@[old(accounts)@.len() as int].id == id,
        final(accounts)@[old(accounts)@.len() as int].user_id == user_id,
        final(accounts)@[old(accounts)@.len() as int].active,
{
    let ghost before = accounts@;
    let mut i: usize = 0;
    while i < accounts.len()
        invariant
            i <= accounts.len(),
            accounts@.len() == before.len(),
            forall|j: int| 0 <= j < i ==> accounts@[j] == deactivated(before[j]),
            forall|j: int| i <= j < accounts.len() ==> accounts@[j] == before[j],
        decreases accounts.len() - i,
    {
        accounts[i].active = false;
        i = i + 1;
    }
    accounts.push(AccountData { id, user_id, active: true });
    assert(accounts@ =~= with_registered(before, id, user_id));
    proof {
        lemma_registering_keeps_earlier_entries(before, id, user_id);
    }
}

/// Registering an account only appends it: the list grows by one entry,
/// every earlier entry keeps its position, its id and its user id and only
/// loses its active mark, and the new entry, last, is the active account
/// `id` of `user_id`.
pub proof fn lemma_registering_keeps_earlier_entries(
    accounts: Seq<AccountData>,
    id: String,
    user_id: String,
)
    ensures
        with_registered(accounts, id, user_id).len() == accounts.len() + 1,
        forall|j: int|
            0 <= j < accounts.len() ==> {
                &&& (#[trigger] with_registered(accounts, id, user_id)[j]).id == accounts[j].id
                &&& with_registered(accounts, id, user_id)[j].user_id == accounts[j].user_id
                &&& !with_registered(accounts, id, user_id)[j].active
            },
        with_registered(accounts, id, user_id)[accounts.len() as int].id == id,
        with_registered(accounts, id, user_id)[accounts.len() as int].user_id == user_id,
        with_registered(accounts, id, user_id)[accounts.len() as int].active,
{
}

/// Right after an account was registered, it is the one and only active
/// account, so the next login selects it.
pub proof fn lemma_registered_account_is_selected(
    accounts: Seq<AccountData>,
    id: String,
    user_id: String,
)
    ensures
        is_sole_active(with_registered(accounts, id, user_id), accounts.len() as int),
        with_registered(accounts, id, user_id)[accounts.len() as int].id == id,
        with_registered(accounts, id, user_id)[accounts.len() as int].user_id == user_id,
{
    let r = with_registered(accounts, id, user_id);
    assert forall|j: int| 0 <= j < r.len() && j != accounts.len() implies !(#[trigger] r[j]).active by {
        assert(r[j] == deactivated(accounts[j]));
    }
}

} // verus!
