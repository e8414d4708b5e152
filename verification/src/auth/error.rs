//! The error a login reports to the screens.

use vstd::prelude::*;

use crate::ui::ErrorKind;

verus! {

/// Why a login did not produce a client: either no account is active (the
/// screens then ask the user to log in), or something else went wrong, with
/// the message to show.
#[derive(Debug)]
pub enum LoginError {
    NoAccountActive,
    Other(String),
}

impl LoginError {
    /// The message the screens show for this error.
    pub fn message(&self) -> (text: String)
        ensures
            self is NoAccountActive ==> text@ == "No account is active"@,
            self matches LoginError::Other(m) ==> text@ == m@,
    {
        match self {
            LoginError::NoAccountActive => "No account is active".to_owned(),
            LoginError::Other(m) => m.clone(),
        }
    }

    /// The kind of error screen this error opens.
    pub fn kind(&self) -> (kind: ErrorKind)
        ensures
            self is NoAccountActive <==> kind == ErrorKind::NoAccountActive,
            self is Other <==> kind == ErrorKind::Other,
    {
        match self {
            LoginError::NoAccountActive => ErrorKind::NoAccountActive,
            LoginError::Other(_) => ErrorKind::Other,
        }
    }
}

/// Turns the message of a failed step into the login's `Other` error, and
/// hands a success on unchanged.
pub fn into_login_error<T>(result: Result<T, String>) -> (lifted: Result<T, LoginError>)
    ensures
        result matches Ok(v) ==> lifted == Ok::<T, LoginError>(v),
        result matches Err(m) ==> lifted == Err::<T, LoginError>(LoginError::Other(m)),
{
    match result {
        Ok(v) => Ok(v),
        Err(m) => Err(LoginError::Other(m)),
    }
}

} // verus!
