use meteorite::init::{folder_failure_message, folder_setup, keyring_failure_message, setup};
use meteorite::text::{server_name, split_app_id};
use meteorite::utils::{base_path, local_data_dir, unwrap_lock, CellRead};
use meteorite::{KeyringGuard, APP_NAME};
use std::path::PathBuf;
use std::sync::{Mutex, OnceLock};

#[test]
fn app_id_splits_into_three_parts() {
    let (q, o, a) = split_app_id(APP_NAME).unwrap();
    assert_eq!((q.as_str(), o.as_str(), a.as_str()), ("com", "paul8711", "meteorite"));
}

#[test]
fn app_id_keeps_further_dots_in_the_last_part() {
    let (q, o, a) = split_app_id("org.example.my.app").unwrap();
    assert_eq!((q.as_str(), o.as_str(), a.as_str()), ("org", "example", "my.app"));
}

#[test]
fn app_id_with_empty_parts() {
    let (q, o, a) = split_app_id("..").unwrap();
    assert_eq!((q.as_str(), o.as_str(), a.as_str()), ("", "", ""));
}

#[test]
fn app_id_with_fewer_than_two_dots_does_not_split() {
    assert!(split_app_id("").is_none());
    assert!(split_app_id("meteorite").is_none());
    assert!(split_app_id("com.meteorite").is_none());
    assert!(local_data_dir("com.meteorite").is_none());
}

#[test]
fn data_dir_of_the_application() {
    if let Some(dir) = local_data_dir(APP_NAME) {
        assert!(dir.to_string_lossy().contains("meteorite"));
    }
}

#[test]
fn server_name_follows_the_first_colon() {
    assert_eq!(server_name("@alice:example.org"), "example.org");
    assert_eq!(server_name("@bob:example.org:8448"), "example.org:8448");
    assert_eq!(server_name("@c:"), "");
}

#[test]
fn setup_messages() {
    assert_eq!(
        keyring_failure_message("no secret service"),
        "The application failed to set up the keyring store.\n\nDetails: no secret service"
    );
    assert_eq!(
        folder_failure_message("denied"),
        "The application failed to set up required folders.\n\nDetails: denied"
    );
}

#[test]
fn setup_reports_a_keyring_failure() {
    assert_eq!(setup(Ok(())), Ok(()));
    assert_eq!(
        setup(Err("dbus down".to_string())),
        Err("The application failed to set up the keyring store.\n\nDetails: dbus down".to_string())
    );
}

#[test]
fn setup_reports_a_folder_failure() {
    assert_eq!(folder_setup(Ok(())), Ok(()));
    assert_eq!(
        folder_setup(Err("no data folder".to_string())),
        Err("The application failed to set up required folders.\n\nDetails: no data folder".to_string())
    );
}

#[test]
fn locked_cell_reads_as_busy() {
    let cell: OnceLock<Mutex<u32>> = OnceLock::new();
    cell.set(Mutex::new(3)).unwrap();
    let guard = cell.get().unwrap().lock().unwrap();
    assert!(matches!(unwrap_lock(&cell), CellRead::Busy));
    drop(guard);
    assert!(matches!(unwrap_lock(&cell), CellRead::Value(3)));
}

#[test]
fn cell_value_is_copied_once_set() {
    let cell: OnceLock<Mutex<u32>> = OnceLock::new();
    assert!(matches!(unwrap_lock(&cell), CellRead::Unset));
    cell.set(Mutex::new(7)).unwrap();
    assert!(matches!(unwrap_lock(&cell), CellRead::Value(7)));
    assert!(matches!(unwrap_lock(&cell), CellRead::Value(7)));
}

#[test]
fn base_path_reads_the_cell() {
    let cell: OnceLock<Mutex<PathBuf>> = OnceLock::new();
    assert!(matches!(base_path(&cell), CellRead::Unset));
    cell.set(Mutex::new(PathBuf::from("/data/meteorite"))).unwrap();
    assert!(matches!(base_path(&cell), CellRead::Value(p) if p == PathBuf::from("/data/meteorite")));
}

#[test]
fn keyring_guard_is_cloneable() {
    let g = KeyringGuard;
    let _h = g.clone();
}
