//! Access to the process-wide path cells and the local data directory.

use std::path::PathBuf;
use std::sync::{Mutex, OnceLock, TryLockError};
use vstd::prelude::*;

use crate::text::{occurs_twice, split_app_id};

verus! {

/// Calls `OnceLock::get`: the value, once the cell has been set. Whether it
/// has been set depends on what ran before, so nothing is promised here.
#[verifier::external_body]
fn once_lock_get<T>(lock: &OnceLock<T>) -> Option<&T> {
    lock.get()
}

/// What reading a set-once, lock-guarded cell found.
#[derive(Debug)]
pub enum CellRead<T> {
    /// A copy of the value in the cell.
    Value(T),
    /// The cell has not been set yet.
    Unset,
    /// Another holder has the lock right now; reading again later may succeed.
    Busy,
    /// A holder of the lock panicked; the value is not handed out.
    Poisoned,
}

/// Calls `Mutex::try_lock`, which never blocks, and clones the guarded value;
/// `Busy` when the mutex is held right now (`WouldBlock`), `Poisoned` when a
/// holder panicked. Which of them comes out depends on other code, so
/// nothing is promised here. `Mutex::lock` is not called: on a mutex that the
/// calling thread holds it does not return.
#[verifier::external_body]
fn mutex_try_lock_clone<T: Clone>(mutex: &Mutex<T>) -> CellRead<T> {
    match mutex.try_lock() {
        Ok(guard) => CellRead::Value((*guard).clone()),
        Err(TryLockError::WouldBlock) => CellRead::Busy,
        Err(TryLockError::Poisoned(_)) => CellRead::Poisoned,
    }
}

/// Reads a set-once, lock-guarded cell without blocking: a copy of its
/// value, or why there is none (unset, locked right now, or poisoned). A
/// caller that must wait for the value reads again while it is `Busy`.
pub fn unwrap_lock<T: Clone>(lock: &OnceLock<Mutex<T>>) -> (value: CellRead<T>) {
    match once_lock_get(lock) {
        Some(mutex) => mutex_try_lock_clone(mutex),
        None => CellRead::Unset,
    }
}

/// The application's data folder, as stored in `cell` by the setup.
pub fn base_path(cell: &OnceLock<Mutex<PathBuf>>) -> (path: CellRead<PathBuf>) {
    unwrap_lock(cell)
}

/// Calls `directories::ProjectDirs::from` and takes the project's local data
/// folder. The result depends on the environment (the home folder, the
/// platform's conventions), so nothing is promised of it.
#[verifier::external_body]
fn project_data_local_dir(qualifier: &str, organization: &str, application: &str) -> Option<
    PathBuf,
> {
    directories::ProjectDirs::from(qualifier, organization, application).map(
        |dirs| dirs.data_local_dir().to_path_buf(),
    )
}

/// The local data folder of the application named by `app_id` in reverse
/// domain notation (`qualifier.organization.application`). `None` when the
/// id holds fewer than two dots; otherwise the platform's folder for the
/// three parts, if the platform has one.
pub fn local_data_dir(app_id: &str) -> (dir: Option<PathBuf>)
    ensures
        !occurs_twice(app_id@, '.') ==> dir is None,
{
    match split_app_id(app_id) {
        Some((qualifier, organization, application)) => project_data_local_dir(
            qualifier.as_str(),
            organization.as_str(),
            application.as_str(),
        ),
        None => None,
    }
}

} // verus!
