//! Detection of leftovers of incomplete accounts.
//!
//! An account consists of four resources that share one name: its entry in
//! the user list, its encrypted session file (the file `<id>.enc` counts
//! under the name `<id>`), its database folder and its keyring entry. Every
//! resource whose name does not have all four kinds is a leftover of a
//! failed or partial account creation and is to be removed.

use std::path::PathBuf;
use vstd::prelude::*;
use vstd::string::StrSliceExecFns;

use crate::auth::accounts::AccountData;

verus! {

/// Bit of a user-list entry.
pub const USER: u8 = 1;

/// Bit of a file in the account directory.
pub const FILE: u8 = 2;

/// Bit of a folder in the account directory.
pub const FOLDER: u8 = 4;

/// Bit of a keyring entry.
pub const KEYRING: u8 = 8;

/// All four bits: the mask of a complete account.
pub const ALL: u8 = USER | FILE | FOLDER | KEYRING;

/// One stored resource, named by the account id it belongs to.
#[derive(Debug)]
pub enum AccountResource {
    Folder(String, PathBuf),
    File(String, PathBuf),
    KeyringEntry(String),
    User(String),
}

impl AccountResource {
    /// The name that ties the resource to an account.
    pub open spec fn name_view(&self) -> Seq<char> {
        match self {
            AccountResource::Folder(s, _) => s@,
            AccountResource::File(s, _) => s@,
            AccountResource::KeyringEntry(s) => s@,
            AccountResource::User(s) => s@,
        }
    }

    /// The bit that stands for the resource's kind.
    pub open spec fn kind_bit(&self) -> u8 {
        match self {
            AccountResource::User(_) => USER,
            AccountResource::File(_, _) => FILE,
            AccountResource::Folder(_, _) => FOLDER,
            AccountResource::KeyringEntry(_) => KEYRING,
        }
    }

    /// The resource's name.
    pub fn name(&self) -> (name: &String)
        ensures
            name@ == self.name_view(),
    {
        match self {
            AccountResource::Folder(s, _) => s,
            AccountResource::File(s, _) => s,
            AccountResource::KeyringEntry(s) => s,
            AccountResource::User(s) => s,
        }
    }

    /// The resource's kind bit.
    pub fn bit(&self) -> (bit: u8)
        ensures
            bit == self.kind_bit(),
    {
        match self {
            AccountResource::User(_) => USER,
            AccountResource::File(_, _) => FILE,
            AccountResource::Folder(_, _) => FOLDER,
            AccountResource::KeyringEntry(_) => KEYRING,
        }
    }
}

/// `name` ends in the extension `.enc` of an encrypted session file.
pub open spec fn has_enc_extension(name: Seq<char>) -> bool {
    name.len() >= 4 && name.skip(name.len() - 4) == ".enc"@
}

/// The account a file in the accounts folder belongs to: the encrypted
/// session file `<id>.enc` belongs to `<id>`; any other file is named by its
/// full name.
pub open spec fn file_resource_name(file_name: Seq<char>) -> Seq<char> {
    if has_enc_extension(file_name) {
        file_name.take(file_name.len() - 4)
    } else {
        file_name
    }
}

/// The account name of a file named `file_name`: without the `.enc`
/// extension of a session file, the full name otherwise.
fn file_account_name(file_name: String) -> (name: String)
    ensures
        name@ == file_resource_name(file_name@),
{
    proof {
        reveal_strlit(".enc");
    }
    let n = file_name.as_str().unicode_len();
    if n >= 4 {
        let tail = file_name.as_str().substring_char(n - 4, n);
        let ext = ".enc";
        let mut same = true;
        let mut i: usize = 0;
        while i < 4
            invariant
                n >= 4,
                n == file_name@.len(),
                tail@ == file_name@.subrange(n - 4, n as int),
                ext@ == ".enc"@,
                ext@.len() == 4,
                i <= 4,
                same == (forall|j: int| 0 <= j < i ==> tail@[j] == ext@[j]),
            decreases 4 - i,
        {
            if tail.get_char(i) != ext.get_char(i) {
                same = false;
            }
            i = i + 1;
        }
        assert(same == (file_name@.skip(n - 4) == ".enc"@)) by {
            assert(file_name@.skip(n - 4) =~= tail@);
            if same {
                assert(tail@ =~= ext@);
            }
        }
        if same {
            let stem = file_name.as_str().substring_char(0, n - 4).to_owned();
            assert(stem@ =~= file_name@.take(n - 4));
            return stem;
        }
    }
    file_name
}

/// The resource that an entry of the accounts folder stands for: a folder
/// is an account's database folder, named by the entry's name; a file other
/// than the user list is an account's file, named by its account (the name
/// without the `.enc` extension of a session file, the full name for any
/// other file). An entry whose name is not valid Unicode (`name` is `None`)
/// stands for nothing.
pub fn entry_resource(
    name: Option<String>,
    path: PathBuf,
    is_dir: bool,
    is_file: bool,
    is_user_list: bool,
) -> (resource: Option<AccountResource>)
    requires
        !(is_dir && is_file),
    ensures
        name is None ==> resource is None,
        name matches Some(n) ==> {
            &&& is_dir ==> resource == Some(AccountResource::Folder(n, path))
            &&& is_file && !is_user_list ==> (resource matches Some(AccountResource::File(m, p))
                && m@ == file_resource_name(n@) && p == path)
            &&& (!is_dir && !(is_file && !is_user_list)) ==> resource is None
        },
{
    match name {
        None => None,
        Some(name) => {
            if is_dir {
                Some(AccountResource::Folder(name, path))
            } else if is_file && !is_user_list {
                Some(AccountResource::File(file_account_name(name), path))
            } else {
                None
            }
        },
    }
}

/// The bits of all resources named `name`, or-ed together.
pub open spec fn mask_of(resources: Seq<AccountResource>, name: Seq<char>) -> u8
    decreases resources.len(),
{
    if resources.len() == 0 {
        0
    } else {
        let rest = mask_of(resources.drop_last(), name);
        if resources.last().name_view() == name {
            rest | resources.last().kind_bit()
        } else {
            rest
        }
    }
}

/// Some resource named `name` has the kind `bit`.
pub open spec fn has_kind(resources: Seq<AccountResource>, name: Seq<char>, bit: u8) -> bool {
    exists|i: int|
        0 <= i < resources.len() && #[trigger] resources[i].name_view() == name
            && resources[i].kind_bit() == bit
}

/// All four kinds of resource exist under `name`.
pub open spec fn is_complete(resources: Seq<AccountResource>, name: Seq<char>) -> bool {
    &&& has_kind(resources, name, USER)
    &&& has_kind(resources, name, FILE)
    &&& has_kind(resources, name, FOLDER)
    &&& has_kind(resources, name, KEYRING)
}

/// The resources that belong to complete accounts.
pub open spec fn survivors(resources: Seq<AccountResource>) -> Seq<AccountResource> {
    resources.filter(|r: AccountResource| is_complete(resources, r.name_view()))
}

spec fn is_single_bit(b: u8) -> bool {
    b == 1 || b == 2 || b == 4 || b == 8
}

proof fn lemma_or_single_bit(m: u8, lb: u8, b: u8)
    requires
        m < 16,
        lb == 1 || lb == 2 || lb == 4 || lb == 8,
        b == 1 || b == 2 || b == 4 || b == 8,
    ensures
        (m | lb) < 16,
        ((m | lb) & b != 0) <==> ((m & b != 0) || lb == b),
{
    assert((m | lb) < 16 && (((m | lb) & b != 0) <==> ((m & b != 0) || lb == b))) by (bit_vector)
        requires
            m < 16,
            lb == 1 || lb == 2 || lb == 4 || lb == 8,
            b == 1 || b == 2 || b == 4 || b == 8,
    ;
}

proof fn lemma_full_mask(m: u8)
    requires
        m < 16,
    ensures
        m == 15 <==> (m & 1 != 0 && m & 2 != 0 && m & 4 != 0 && m & 8 != 0),
        0u8 & 1 == 0 && 0u8 & 2 == 0 && 0u8 & 4 == 0 && 0u8 & 8 == 0,
{
    assert(m == 15 <==> (m & 1 != 0 && m & 2 != 0 && m & 4 != 0 && m & 8 != 0)) by (bit_vector)
        requires
            m < 16,
    ;
    assert(0u8 & 1 == 0 && 0u8 & 2 == 0 && 0u8 & 4 == 0 && 0u8 & 8 == 0) by (bit_vector);
}

/// The mask of a name records exactly which kinds exist under it.
proof fn lemma_mask_records_kinds(resources: Seq<AccountResource>, name: Seq<char>)
    ensures
        mask_of(resources, name) < 16,
        forall|b: u8|
            is_single_bit(b) ==> ((mask_of(resources, name) & b != 0) <==> has_kind(
                resources,
                name,
                b,
            )),
    decreases resources.len(),
{
    lemma_full_mask(0);
    if resources.len() > 0 {
        let rest = resources.drop_last();
        let last = resources.last();
        lemma_mask_records_kinds(rest, name);
        assert forall|b: u8| is_single_bit(b) implies ((mask_of(resources, name) & b != 0)
            <==> has_kind(resources, name, b)) by {
            let m = mask_of(rest, name);
            if last.name_view() == name {
                lemma_or_single_bit(m, last.kind_bit(), b);
            }
            if has_kind(resources, name, b) {
                let i = choose|i: int|
                    0 <= i < resources.len() && #[trigger] resources[i].name_view() == name
                        && resources[i].kind_bit() == b;
                if i < resources.len() - 1 {
                    assert(rest[i] == resources[i]);
                }
            }
            if has_kind(rest, name, b) {
                let i = choose|i: int|
                    0 <= i < rest.len() && #[trigger] rest[i].name_view() == name
                        && rest[i].kind_bit() == b;
                assert(resources[i] == rest[i]);
            }
            if last.name_view() == name && last.kind_bit() == b {
                assert(resources[resources.len() - 1] == last);
            }
        }
        if last.name_view() == name {
            lemma_or_single_bit(mask_of(rest, name), last.kind_bit(), 1);
        }
    }
}

/// A name's mask is full exactly when the name is a complete account.
pub proof fn lemma_full_mask_iff_complete(resources: Seq<AccountResource>, name: Seq<char>)
    ensures
        (mask_of(resources, name) == ALL) <==> is_complete(resources, name),
{
    lemma_mask_records_kinds(resources, name);
    lemma_full_mask(mask_of(resources, name));
    assert(ALL == 15) by (bit_vector);
    assert(is_single_bit(USER) && is_single_bit(FILE) && is_single_bit(FOLDER) && is_single_bit(
        KEYRING,
    ));
}

/// The or-ed kind bits of all resources named `name`.
pub fn mask_for(resources: &Vec<AccountResource>, name: &String) -> (mask: u8)
    ensures
        mask == mask_of(resources@, name@),
{
    let mut mask: u8 = 0;
    let mut i: usize = 0;
    assert(resources@.take(0) =~= Seq::<AccountResource>::empty());
    while i < resources.len()
        invariant
            i <= resources.len(),
            mask == mask_of(resources@.take(i as int), name@),
        decreases resources.len() - i,
    {
        let r = &resources[i];
        assert(resources@.take(i + 1).drop_last() =~= resources@.take(i as int));
        assert(resources@.take(i + 1).last() == resources@[i as int]);
        if r.name().eq(name) {
            mask = mask | r.bit();
        }
        i = i + 1;
    }
    assert(resources@.take(resources.len() as int) =~= resources@);
    mask
}

/// The positions of the resources that do not belong to a complete account,
/// in ascending order: those are the leftovers to remove.
pub fn plan_orphan_removal(resources: &Vec<AccountResource>) -> (doomed: Vec<usize>)
    ensures
        forall|k: int| 0 <= k < doomed.len() ==> doomed[k] < resources.len(),
        forall|a: int, b: int| 0 <= a < b < doomed.len() ==> doomed[a] < doomed[b],
        forall|i: int|
            0 <= i < resources.len() ==> (doomed@.contains(i as usize) <==> !is_complete(
                resources@,
                resources@[i].name_view(),
            )),
{
    let mut doomed: Vec<usize> = Vec::new();
    let mut i: usize = 0;
    while i < resources.len()
        invariant
            i <= resources.len(),
            forall|k: int| 0 <= k < doomed.len() ==> doomed[k] < i,
            forall|a: int, b: int| 0 <= a < b < doomed.len() ==> doomed[a] < doomed[b],
            forall|j: int|
                0 <= j < i ==> (doomed@.contains(j as usize) <==> !is_complete(
                    resources@,
                    resources@[j].name_view(),
                )),
            forall|j: usize| i <= j < resources.len() ==> !(#[trigger] doomed@.contains(j)),
        decreases resources.len() - i,
    {
        let mask = mask_for(resources, resources[i].name());
        proof {
            lemma_full_mask_iff_complete(resources@, resources@[i as int].name_view());
        }
        let ghost before = doomed@;
        if mask != ALL {
            doomed.push(i);
            proof {
                assert forall|j: usize| i < j < resources.len() implies !doomed@.contains(j) by {
                    if doomed@.contains(j) {
                        let k = choose|k: int| 0 <= k < doomed.len() && doomed@[k] == j;
                        if k < before.len() {
                            assert(before[k] == doomed@[k]);
                        }
                    }
                }
                assert forall|j: usize| j < i implies (#[trigger] doomed@.contains(j)
                    <==> before.contains(j)) by {
                    if doomed@.contains(j) {
                        let k = choose|k: int| 0 <= k < doomed.len() && doomed@[k] == j;
                        if k < before.len() {
                            assert(before[k] == doomed@[k]);
                        }
                    }
                    if before.contains(j) {
                        let k = choose|k: int| 0 <= k < before.len() && before[k] == j;
                        assert(doomed@[k] == before[k]);
                    }
                }
                assert(doomed@[doomed.len() - 1] == i);
            }
        }
        i = i + 1;
    }
    doomed
}

/// The user-list entry named `name` is a leftover: `resources` hold it, but
/// not all the other pieces of its account.
pub open spec fn is_orphaned_user(resources: Seq<AccountResource>, name: Seq<char>) -> bool {
    has_kind(resources, name, USER) && !is_complete(resources, name)
}

/// The user list without the entries that are leftovers.
pub open spec fn pruned(accounts: Seq<AccountData>, resources: Seq<AccountResource>) -> Seq<
    AccountData,
> {
    accounts.filter(|a: AccountData| !is_orphaned_user(resources, a.id@))
}

/// Whether `resources` hold a user-list entry named `name`.
fn has_user_entry(resources: &Vec<AccountResource>, name: &String) -> (found: bool)
    ensures
        found == has_kind(resources@, name@, USER),
{
    let mut i: usize = 0;
    while i < resources.len()
        invariant
            i <= resources.len(),
            forall|j: int|
                0 <= j < i ==> !(#[trigger] resources@[j].name_view() == name@
                    && resources@[j].kind_bit() == USER),
        decreases resources.len() - i,
    {
        let r = &resources[i];
        if r.bit() == USER && r.name().eq(name) {
            return true;
        }
        i = i + 1;
    }
    false
}

/// Removes from the user list every entry that is a leftover, keeping the
/// order of the others.
pub fn prune_accounts(accounts: &mut Vec<AccountData>, resources: &Vec<AccountResource>)
    ensures
        final(accounts)@ == pruned(old(accounts)@, resources@),
        forall|i: int|
            0 <= i < old(accounts)@.len() && (is_complete(resources@, old(accounts)@[i].id@)
                || !has_kind(resources@, old(accounts)@[i].id@, USER))
                ==> final(accounts)@.contains(#[trigger] old(accounts)@[i]),
        forall|a: AccountData|
            #[trigger] final(accounts)@.contains(a) ==> old(accounts)@.contains(a) && (is_complete(
                resources@,
                a.id@,
            ) || !has_kind(resources@, a.id@, USER)),
{
    let ghost before = accounts@;
    let mut rest: Vec<AccountData> = Vec::new();
    std::mem::swap(&mut rest, accounts);
    let ghost mut taken: int = 0;
    assert(before.take(0) =~= Seq::<AccountData>::empty());
    proof {
        reveal_with_fuel(Seq::<_>::filter, 1);
    }
    while rest.len() > 0
        invariant
            0 <= taken <= before.len(),
            rest@ == before.skip(taken),
            accounts@ == pruned(before.take(taken), resources@),
        decreases rest.len(),
    {
        let a = rest.remove(0);
        proof {
            assert(before.take(taken + 1).drop_last() =~= before.take(taken));
            assert(before.take(taken + 1).last() == a);
            reveal_with_fuel(Seq::<_>::filter, 1);
        }
        let listed = has_user_entry(resources, &a.id);
        let mask = mask_for(resources, &a.id);
        proof {
            lemma_full_mask_iff_complete(resources@, a.id@);
        }
        if !(listed && mask != ALL) {
            accounts.push(a);
        }
        proof {
            assert(rest@ =~= before.skip(taken + 1));
            taken = taken + 1;
        }
    }
    assert(before.take(before.len() as int) =~= before);
    proof {
        lemma_pruning_removes_only_leftovers(before, resources@);
    }
}

/// Pruning removes exactly the leftovers, whether active or not: every entry
/// whose account is complete, or that the resources do not list as a user,
/// stays in the list; every entry that stays was in the list and is one of
/// those.
pub proof fn lemma_pruning_removes_only_leftovers(
    accounts: Seq<AccountData>,
    resources: Seq<AccountResource>,
)
    ensures
        forall|i: int|
            0 <= i < accounts.len() && (is_complete(resources, accounts[i].id@) || !has_kind(
                resources,
                accounts[i].id@,
                USER,
            )) ==> pruned(accounts, resources).contains(#[trigger] accounts[i]),
        forall|a: AccountData|
            #[trigger] pruned(accounts, resources).contains(a) ==> accounts.contains(a) && (
            is_complete(resources, a.id@) || !has_kind(resources, a.id@, USER)),
{
    let pred = |a: AccountData| !is_orphaned_user(resources, a.id@);
    broadcast use vstd::seq_lib::group_filter_ensures;
    assert forall|i: int|
        0 <= i < accounts.len() && (is_complete(resources, accounts[i].id@) || !has_kind(
            resources,
            accounts[i].id@,
            USER,
        )) implies pruned(accounts, resources).contains(#[trigger] accounts[i]) by {
        assert(pred(accounts[i]));
        assert(accounts.contains(accounts[i]));
    }
    assert forall|a: AccountData| #[trigger] pruned(accounts, resources).contains(a) implies accounts.contains(a)
        && (is_complete(resources, a.id@) || !has_kind(resources, a.id@, USER)) by {
        accounts.lemma_filter_contains_rev(pred, a);
    }
}

/// When every account of the user list is among the resources, as it is
/// when the resources are collected from that list, the pruned list holds
/// only complete accounts.
pub proof fn lemma_pruned_accounts_are_complete(
    accounts: Seq<AccountData>,
    resources: Seq<AccountResource>,
)
    requires
        forall|i: int| 0 <= i < accounts.len() ==> has_kind(resources, (#[trigger] accounts[i]).id@, USER),
    ensures
        forall|i: int|
            0 <= i < pruned(accounts, resources).len() ==> is_complete(
                resources,
                (#[trigger] pruned(accounts, resources)[i]).id@,
            ),
{
    let pred = |a: AccountData| !is_orphaned_user(resources, a.id@);
    broadcast use vstd::seq_lib::group_filter_ensures;
    let p = accounts.filter(pred);
    assert forall|i: int| 0 <= i < p.len() implies is_complete(resources, (#[trigger] p[i]).id@) by {
        assert(pred(p[i]));
        assert(p.contains(p[i]));
        accounts.lemma_filter_contains_rev(pred, p[i]);
        let k = choose|k: int| 0 <= k < accounts.len() && accounts[k] == p[i];
        assert(has_kind(resources, accounts[k].id@, USER));
    }
}

/// A name that is complete among `resources` stays complete among any
/// collection `again` that holds all the survivors of a cleanup.
proof fn lemma_complete_survives(
    resources: Seq<AccountResource>,
    again: Seq<AccountResource>,
    name: Seq<char>,
)
    requires
        is_complete(resources, name),
        forall|r: AccountResource| #[trigger] survivors(resources).contains(r) ==> again.contains(r),
    ensures
        is_complete(again, name),
{
    let pred = |r: AccountResource| is_complete(resources, r.name_view());
    broadcast use vstd::seq_lib::group_filter_ensures;
    assert forall|b: u8| #![trigger has_kind(again, name, b)] has_kind(resources, name, b) implies has_kind(again, name, b) by {
        let j = choose|j: int|
            0 <= j < resources.len() && #[trigger] resources[j].name_view() == name
                && resources[j].kind_bit() == b;
        assert(pred(resources[j]));
        assert(survivors(resources).contains(resources[j]));
        assert(again.contains(resources[j]));
        let k = choose|k: int| 0 <= k < again.len() && again[k] == resources[j];
        assert(again[k].name_view() == name);
    }
}

/// Cleaning up twice removes nothing the second time. Whatever order the
/// second cleanup collects its resources `again` in, as long as they are the
/// survivors of the first cleanup of `resources`: every one of them belongs
/// to a complete account, so none is removed; and no entry of the user list
/// as the first cleanup left it (when its entries were among `resources`) is
/// a leftover, so the user list stays as it is.
pub proof fn lemma_cleanup_is_idempotent(
    resources: Seq<AccountResource>,
    again: Seq<AccountResource>,
    accounts: Seq<AccountData>,
)
    requires
        forall|r: AccountResource| #[trigger] again.contains(r) <==> survivors(resources).contains(r),
        forall|i: int| 0 <= i < accounts.len() ==> has_kind(resources, (#[trigger] accounts[i]).id@, USER),
    ensures
        forall|i: int| 0 <= i < again.len() ==> is_complete(again, #[trigger] again[i].name_view()),
        forall|i: int|
            0 <= i < pruned(accounts, resources).len() ==> !is_orphaned_user(
                again,
                (#[trigger] pruned(accounts, resources)[i]).id@,
            ),
{
    let pred = |r: AccountResource| is_complete(resources, r.name_view());
    broadcast use vstd::seq_lib::group_filter_ensures;
    assert forall|i: int| 0 <= i < again.len() implies is_complete(again, #[trigger] again[i].name_view()) by {
        assert(again.contains(again[i]));
        let s = survivors(resources);
        assert(s.contains(again[i]));
        let k = choose|k: int| 0 <= k < s.len() && s[k] == again[i];
        assert(pred(s[k]));
        lemma_complete_survives(resources, again, again[i].name_view());
    }
    lemma_pruned_accounts_are_complete(accounts, resources);
    assert forall|i: int| 0 <= i < pruned(accounts, resources).len() implies !is_orphaned_user(
        again,
        (#[trigger] pruned(accounts, resources)[i]).id@,
    ) by {
        lemma_complete_survives(resources, again, pruned(accounts, resources)[i].id@);
    }
}

} // verus!
