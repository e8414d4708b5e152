use meteorite::ui::ErrorKind;
use meteorite::auth::accounts::{register_account, AccountData};
use meteorite::auth::error::{into_login_error, LoginError};
use meteorite::auth::login::{
    encrypted_file_name, encrypted_tmp_file_name, login_target, sso_prompt, SSO_BROWSER_OPENED,
};
use meteorite::auth::secrets::{generate_account_secrets, open_account_data, seal_account_data, SECRET_LENGTH};
use meteorite::auth::session::{matrix_session_from_account, EncryptedAccountData};
use meteorite::cli::{cli_user_id, generate_db_password, login_method, LoginMethod, DB_PASSWORD_CHARSET, DB_PASSWORD_LENGTH};
use std::time::Duration;

fn account(id: &str, user: &str, active: bool) -> AccountData {
    AccountData { id: id.to_string(), user_id: user.to_string(), active }
}

#[test]
fn missing_user_list_means_no_active_account() {
    assert!(matches!(login_target(None), Err(LoginError::NoAccountActive)));
}

#[test]
fn list_without_sole_active_account_means_no_active_account() {
    let none = vec![account("a", "@a:x.org", false)];
    assert!(matches!(login_target(Some(&none)), Err(LoginError::NoAccountActive)));
    let two = vec![account("a", "@a:x.org", true), account("b", "@b:x.org", true)];
    assert!(matches!(login_target(Some(&two)), Err(LoginError::NoAccountActive)));
}

#[test]
fn target_names_the_active_accounts_pieces() {
    let list = vec![
        account("first", "@a:x.org", false),
        account("Ab12", "@alice:matrix.example.org:8448", true),
    ];
    let t = login_target(Some(&list)).unwrap();
    assert_eq!(t.index, 1);
    assert_eq!(t.homeserver, "matrix.example.org:8448");
    assert_eq!(t.encrypted_file, "Ab12.enc");
    assert_eq!(t.sqlite_folder, "Ab12");
    assert_eq!(t.keyring_user, "Ab12");
}

#[test]
fn newly_registered_account_is_the_login_target() {
    let mut list = vec![account("old", "@o:x.org", true)];
    register_account(&mut list, "fresh".to_string(), "@f:y.org".to_string());
    let t = login_target(Some(&list)).unwrap();
    assert_eq!(t.index, 1);
    assert_eq!(t.homeserver, "y.org");
    assert_eq!(t.encrypted_file, "fresh.enc");
}

#[test]
fn file_names_of_an_account() {
    assert_eq!(encrypted_file_name("xyz"), "xyz.enc");
    assert_eq!(encrypted_tmp_file_name("xyz"), "xyz.enc.tmp");
}

#[test]
fn sso_prompt_depends_on_browser() {
    assert_eq!(sso_prompt(true, "https://h/sso"), SSO_BROWSER_OPENED);
    assert_eq!(sso_prompt(true, "https://h/sso"), "Go to the opened website to authenticate");
    assert_eq!(
        sso_prompt(false, "https://h/sso"),
        "Navigate to https://h/sso in a browser of choice"
    );
}

#[test]
fn login_error_messages() {
    assert_eq!(LoginError::NoAccountActive.message(), "No account is active");
    assert_eq!(LoginError::Other("disk full".to_string()).message(), "disk full");
}

#[test]
fn step_errors_become_other_login_errors() {
    let ok: Result<u8, String> = Ok(3);
    assert!(matches!(into_login_error(ok), Ok(3)));
    let err: Result<u8, String> = Err("bad".to_string());
    match into_login_error(err) {
        Err(LoginError::Other(m)) => assert_eq!(m, "bad"),
        _ => panic!("expected an Other error"),
    }
}

#[test]
fn account_secrets_are_alphanumeric_and_distinct() {
    let (id, pass) = generate_account_secrets();
    assert_eq!(SECRET_LENGTH, 32);
    assert_eq!(id.chars().count(), 32);
    assert_eq!(pass.chars().count(), 32);
    assert!(id.chars().all(|c| c.is_ascii_alphanumeric()));
    assert!(pass.chars().all(|c| c.is_ascii_alphanumeric()));
    assert_ne!(id, pass);
}

#[test]
fn sealed_account_data_opens_with_its_passphrase() {
    let plain = b"access_token = \"t\"\ndevice_id = \"D\"\n".to_vec();
    let sealed = seal_account_data("passphrase", &plain).unwrap();
    assert_ne!(sealed, plain);
    let opened = open_account_data("passphrase", &sealed).unwrap();
    assert_eq!(opened, plain);
}

#[test]
fn garbage_does_not_open() {
    match open_account_data("passphrase", b"not an age file") {
        Err(LoginError::Other(m)) => assert!(!m.is_empty()),
        _ => panic!("expected an Other error"),
    }
}

#[test]
fn stored_tokens_without_lifetime_have_no_expiration() {
    let d = EncryptedAccountData::new("tok".to_string(), Some("ref".to_string()), None, "DEV".to_string());
    assert_eq!(d.access_token, "tok");
    assert_eq!(d.refresh_token.as_deref(), Some("ref"));
    assert_eq!(d.device_id, "DEV");
    assert!(d.expiration.is_none());
}

#[test]
fn stored_tokens_with_lifetime_expire_later() {
    let before = std::time::SystemTime::now();
    let d = EncryptedAccountData::new("tok".to_string(), None, Some(Duration::from_secs(3600)), "DEV".to_string());
    let exp = d.expiration.unwrap();
    assert!(exp >= before + Duration::from_secs(3600));
}

#[test]
fn session_is_built_from_list_entry_and_tokens() {
    let a = account("id", "@u:x.org", true);
    let d = EncryptedAccountData::new("tok".to_string(), None, None, "DEV".to_string());
    let s = matrix_session_from_account(&a, &d);
    assert_eq!(s.user_id, "@u:x.org");
    assert_eq!(s.device_id, "DEV");
    assert_eq!(s.access_token, "tok");
    assert_eq!(s.refresh_token, None);
}

#[test]
fn db_password_uses_the_charset() {
    let p = generate_db_password();
    assert_eq!(DB_PASSWORD_LENGTH, 32);
    assert_eq!(p.chars().count(), 32);
    assert!(p.chars().all(|c| DB_PASSWORD_CHARSET.contains(c)));
}

#[test]
fn login_method_by_number() {
    assert_eq!(login_method(1), LoginMethod::Username);
    assert_eq!(login_method(2), LoginMethod::Sso);
    assert_eq!(login_method(0), LoginMethod::Invalid);
    assert_eq!(login_method(-7), LoginMethod::Invalid);
}

#[test]
fn typed_user_name_becomes_user_id() {
    assert_eq!(cli_user_id("alice", "matrix.org"), "@alice:matrix.org");
}

#[test]
fn login_errors_open_their_kind_of_error_screen() {
    assert_eq!(LoginError::NoAccountActive.kind(), ErrorKind::NoAccountActive);
    assert_eq!(LoginError::Other("x".to_string()).kind(), ErrorKind::Other);
}
