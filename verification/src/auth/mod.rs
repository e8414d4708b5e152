//! Account storage: which stored resources belong together, which account is
//! active, how a failed account creation is rolled back, and the decisions
//! of the login flows.

pub mod accounts;
pub mod error;
pub mod guard;
pub mod orphans;
pub mod secrets;
pub mod session;
pub mod login;
pub mod persistence;
