//! Start-up: the messages shown when setting up the keyring store or the
//! data folders fails. The keyring store is set up first; the folders only
//! after it succeeded.

use vstd::prelude::*;
use vstd::string::StringExecFns;

verus! {

/// The message shown when the keyring store could not be set up.
pub fn keyring_failure_message(details: &str) -> (message: String)
    ensures
        message@ == "The application failed to set up the keyring store.\n\nDetails: "@ + details@,
{
    let mut message = "The application failed to set up the keyring store.\n\nDetails: ".to_owned();
    message.append(details);
    message
}

/// The message shown when the data folders could not be set up.
pub fn folder_failure_message(details: &str) -> (message: String)
    ensures
        message@ == "The application failed to set up required folders.\n\nDetails: "@ + details@,
{
    let mut message = "The application failed to set up required folders.\n\nDetails: ".to_owned();
    message.append(details);
    message
}

/// The outcome of setting up the keyring store, as the user interface
/// reports it: `keyring` is what installing the platform's store gave (its
/// error as a message). A failure becomes the message to display; the data
/// folders are only set up after a success.
pub fn setup(keyring: Result<(), String>) -> (outcome: Result<(), String>)
    ensures
        keyring is Ok ==> outcome is Ok,
        keyring matches Err(details) ==> (outcome is Err && outcome->Err_0@
            == "The application failed to set up the keyring store.\n\nDetails: "@ + details@),
{
    match keyring {
        Ok(()) => Ok(()),
        Err(details) => Err(keyring_failure_message(details.as_str())),
    }
}

/// The outcome of setting up the data folders, as the user interface
/// reports it: `folders` is what creating them gave (its error as a
/// message). A failure becomes the message to display.
pub fn folder_setup(folders: Result<(), String>) -> (outcome: Result<(), String>)
    ensures
        folders is Ok ==> outcome is Ok,
        folders matches Err(details) ==> (outcome is Err && outcome->Err_0@
            == "The application failed to set up required folders.\n\nDetails: "@ + details@),
{
    match folders {
        Ok(()) => Ok(()),
        Err(details) => Err(folder_failure_message(details.as_str())),
    }
}

} // verus!
