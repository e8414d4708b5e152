use meteorite::auth::accounts::{register_account, select_active_account, AccountData, AccountList};
use meteorite::auth::guard::{AccountCreationGuard, CleanupStep};
use meteorite::auth::orphans::{
    entry_resource, mask_for, plan_orphan_removal, prune_accounts, AccountResource, ALL, FILE, FOLDER, KEYRING,
    USER,
};
use meteorite::auth::login::{encrypted_file_name, login_target};
use std::path::PathBuf;

fn account(id: &str, user: &str, active: bool) -> AccountData {
    AccountData { id: id.to_string(), user_id: user.to_string(), active }
}

fn complete(name: &str) -> Vec<AccountResource> {
    vec![
        AccountResource::User(name.to_string()),
        AccountResource::File(name.to_string(), PathBuf::from(format!("/a/{name}"))),
        AccountResource::Folder(name.to_string(), PathBuf::from(format!("/a/{name}"))),
        AccountResource::KeyringEntry(name.to_string()),
    ]
}

#[test]
fn bits_are_distinct_and_all_is_their_union() {
    assert_eq!(USER, 1);
    assert_eq!(FILE, 2);
    assert_eq!(FOLDER, 4);
    assert_eq!(KEYRING, 8);
    assert_eq!(ALL, 15);
}

#[test]
fn mask_collects_the_kinds_of_one_name() {
    let mut rs = complete("abc");
    rs.push(AccountResource::KeyringEntry("other".to_string()));
    assert_eq!(mask_for(&rs, &"abc".to_string()), ALL);
    assert_eq!(mask_for(&rs, &"other".to_string()), KEYRING);
    assert_eq!(mask_for(&rs, &"none".to_string()), 0);
}

#[test]
fn complete_account_is_kept() {
    let rs = complete("abc");
    assert!(plan_orphan_removal(&rs).is_empty());
}

#[test]
fn account_without_keyring_entry_is_removed_entirely() {
    let mut rs = complete("abc");
    rs.pop();
    assert_eq!(plan_orphan_removal(&rs), vec![0, 1, 2]);
}

#[test]
fn leftovers_of_several_names_are_listed_in_order() {
    let mut rs = complete("keep");
    rs.insert(1, AccountResource::Folder("gone".to_string(), PathBuf::from("/a/gone")));
    rs.push(AccountResource::KeyringEntry("lost".to_string()));
    assert_eq!(plan_orphan_removal(&rs), vec![1, 5]);
}

#[test]
fn complete_account_with_encrypted_file_survives_cleanup() {
    // the session file of account "abc" is "abc.enc"; it counts under "abc"
    let dir = PathBuf::from("/a");
    let file = entry_resource(Some("abc.enc".to_string()), dir.join("abc.enc"), false, true, false).unwrap();
    let folder = entry_resource(Some("abc".to_string()), dir.join("abc"), true, false, false).unwrap();
    let rs = vec![
        AccountResource::User("abc".to_string()),
        file,
        folder,
        AccountResource::KeyringEntry("abc".to_string()),
    ];
    assert!(plan_orphan_removal(&rs).is_empty());
    let mut users = vec![account("abc", "@u:example.org", true)];
    prune_accounts(&mut users, &rs);
    assert_eq!(users.len(), 1);
    assert!(users[0].id == "abc" && users[0].user_id == "@u:example.org" && users[0].active);
}

#[test]
fn encrypted_file_without_its_account_is_a_leftover() {
    let dir = PathBuf::from("/a");
    let file = entry_resource(Some("gone.enc".to_string()), dir.join("gone.enc"), false, true, false).unwrap();
    let mut rs = complete("keep");
    rs.push(file);
    assert_eq!(plan_orphan_removal(&rs), vec![4]);
}

#[test]
fn cleanup_twice_removes_nothing_more() {
    let mut rs = complete("keep");
    rs.push(AccountResource::User("gone".to_string()));
    rs.push(AccountResource::File("half".to_string(), PathBuf::from("/a/half")));
    let doomed = plan_orphan_removal(&rs);
    assert_eq!(doomed, vec![4, 5]);
    let survivors: Vec<AccountResource> = rs
        .into_iter()
        .enumerate()
        .filter(|(i, _)| !doomed.contains(i))
        .map(|(_, r)| r)
        .collect();
    assert!(plan_orphan_removal(&survivors).is_empty());
}

#[test]
fn pruning_removes_only_incomplete_listed_accounts() {
    let mut rs = complete("keep");
    rs.push(AccountResource::User("gone".to_string()));
    let mut accounts = vec![
        account("gone", "@g:example.org", false),
        account("keep", "@k:example.org", true),
        account("unlisted", "@u:example.org", false),
    ];
    prune_accounts(&mut accounts, &rs);
    let ids: Vec<&str> = accounts.iter().map(|a| a.id.as_str()).collect();
    assert_eq!(ids, vec!["keep", "unlisted"]);
}

#[test]
fn sole_active_account_is_selected() {
    let list = vec![
        account("a", "@a:x.org", false),
        account("b", "@b:x.org", true),
        account("c", "@c:x.org", false),
    ];
    assert_eq!(select_active_account(&list), Some(1));
}

#[test]
fn no_active_account_selects_none() {
    let list = vec![account("a", "@a:x.org", false)];
    assert_eq!(select_active_account(&list), None);
    assert_eq!(select_active_account(&Vec::new()), None);
}

#[test]
fn two_active_accounts_select_none() {
    let list = vec![
        account("a", "@a:x.org", true),
        account("b", "@b:x.org", false),
        account("c", "@c:x.org", true),
    ];
    assert_eq!(select_active_account(&list), None);
}

#[test]
fn registered_account_becomes_the_only_active_one() {
    let mut list = vec![account("a", "@a:x.org", true), account("b", "@b:x.org", true)];
    register_account(&mut list, "new".to_string(), "@n:y.org".to_string());
    assert_eq!(list.len(), 3);
    assert!(!list[0].active && !list[1].active);
    assert_eq!(list[0].id, "a");
    assert_eq!(list[2].id, "new");
    assert_eq!(list[2].user_id, "@n:y.org");
    assert!(list[2].active);
    assert_eq!(select_active_account(&list), Some(2));
}

#[test]
fn default_account_list_is_empty() {
    let list = AccountList::default();
    assert!(list.accounts.is_empty());
}

#[test]
fn committed_guard_only_removes_temporary_files() {
    let mut guard = AccountCreationGuard::new();
    guard.backup_created = true;
    guard.keyring_created = true;
    guard.commit();
    assert_eq!(
        guard.cleanup(),
        vec![
            CleanupStep::RemoveEncryptedTmp,
            CleanupStep::RemoveUsersTmp,
            CleanupStep::RemoveBackupTmp
        ]
    );
}

#[test]
fn fresh_guard_removes_the_account_files() {
    let guard = AccountCreationGuard::new();
    assert_eq!(
        guard.cleanup(),
        vec![
            CleanupStep::RemoveEncryptedTmp,
            CleanupStep::RemoveUsersTmp,
            CleanupStep::RemoveBackupTmp,
            CleanupStep::RemoveEncrypted,
            CleanupStep::RemoveSqliteFolder
        ]
    );
}

#[test]
fn failed_guard_restores_backup_and_deletes_keyring_entry() {
    let mut guard = AccountCreationGuard::new();
    guard.backup_made();
    assert!(guard.backup_created && !guard.keyring_created && !guard.committed);
    guard.key_stored();
    assert!(guard.backup_created && guard.keyring_created && !guard.committed);
    assert_eq!(
        guard.cleanup(),
        vec![
            CleanupStep::RemoveEncryptedTmp,
            CleanupStep::RemoveUsersTmp,
            CleanupStep::RemoveBackupTmp,
            CleanupStep::RemoveEncrypted,
            CleanupStep::RemoveSqliteFolder,
            CleanupStep::RestoreBackup,
            CleanupStep::DeleteKeyringEntry
        ]
    );
}

#[test]
fn folder_entries_and_account_files_become_resources() {
    let p = PathBuf::from("/a/x");
    match entry_resource(Some("x".to_string()), p.clone(), true, false, false) {
        Some(AccountResource::Folder(n, q)) => assert!(n == "x" && q == p),
        _ => panic!("expected a folder"),
    }
    match entry_resource(Some("x.enc".to_string()), p.clone(), false, true, false) {
        Some(AccountResource::File(n, q)) => assert!(n == "x" && q == p),
        _ => panic!("expected a file"),
    }
    match entry_resource(Some("users.toml.tmp".to_string()), p.clone(), false, true, false) {
        Some(AccountResource::File(n, _)) => assert_eq!(n, "users.toml.tmp"),
        _ => panic!("expected a file"),
    }
    match entry_resource(Some(".enc".to_string()), p.clone(), false, true, false) {
        Some(AccountResource::File(n, _)) => assert_eq!(n, ""),
        _ => panic!("expected a file"),
    }
    match entry_resource(Some("x.enc.tmp".to_string()), p.clone(), false, true, false) {
        Some(AccountResource::File(n, _)) => assert_eq!(n, "x.enc.tmp"),
        _ => panic!("expected a file"),
    }
    assert!(entry_resource(Some("users.toml".to_string()), p.clone(), false, true, true).is_none());
    assert!(entry_resource(None, p.clone(), true, false, false).is_none());
    assert!(entry_resource(Some("link".to_string()), p, false, false, false).is_none());
}

#[test]
fn stored_session_is_restored_by_next_login() {
    // the sign-on registers "s1" beside an older account and stores its pieces
    let mut users = vec![account("old", "@o:x.org", true)];
    register_account(&mut users, "s1".to_string(), "@me:home.org".to_string());
    let dir = PathBuf::from("/a");
    let mut rs: Vec<AccountResource> = users.iter().map(|a| AccountResource::User(a.id.clone())).collect();
    let file = encrypted_file_name("s1");
    rs.push(entry_resource(Some(file.clone()), dir.join(&file), false, true, false).unwrap());
    rs.push(entry_resource(Some("s1".to_string()), dir.join("s1"), true, false, false).unwrap());
    rs.push(AccountResource::KeyringEntry("s1".to_string()));
    // the next login cleans up first: only the incomplete "old" goes
    assert_eq!(plan_orphan_removal(&rs), vec![0]);
    prune_accounts(&mut users, &rs);
    assert_eq!(users.len(), 1);
    let t = login_target(Some(&users)).unwrap();
    assert_eq!(t.index, 0);
    assert_eq!(t.encrypted_file, "s1.enc");
    assert_eq!(t.keyring_user, "s1");
    assert_eq!(t.sqlite_folder, "s1");
    assert_eq!(t.homeserver, "home.org");
}
