//! Account bookkeeping, session storage planning and screen state machines of
//! the meteorite Matrix client, verified with Verus.
//!
//! The library holds the decisions; file, keyring, network and drawing work is
//! done by the application around it, which hands results in as plain values.

pub mod sys;
pub mod auth;
pub mod cli;
pub mod init;
pub mod login_view;
pub mod ui;
pub mod text;
pub mod utils;

use vstd::prelude::*;

verus! {

/// The application identifier, in reverse domain notation.
pub const APP_NAME: &'static str = "com.paul8711.meteorite";

/// Marks the time during which the platform's keyring store is installed as
/// the default one; the application removes the store when its guard goes
/// away.
#[derive(Clone)]
pub struct KeyringGuard;

} // verus!
