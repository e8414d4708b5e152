//! The screens' state machines: which screen is shown, and how the login,
//! loading and error screens react to clicks and to the outcome of a login.
//! Drawing is left to the application; it hands each click or result in.

use vstd::prelude::*;

verus! {

/// The two steps of the login window.
#[derive(PartialEq, Eq, Structural, Clone, Copy, Debug)]
pub enum LoginStage {
    Homeserver,
    Credentials,
}

impl Default for LoginStage {
    fn default() -> (stage: LoginStage)
        ensures
            stage == LoginStage::Homeserver,
    {
        LoginStage::Homeserver
    }
}

/// What kind of error the error screen was opened with.
#[derive(PartialEq, Eq, Structural, Clone, Copy, Debug)]
pub enum ErrorKind {
    NoAccountActive,
    Other,
}

/// The screen on display.
pub enum UiState {
    Loading,
    Error { kind: ErrorKind, message: String },
    Login,
    Main,
}

/// The screen shown at start: the error screen with the setup's message
/// when the keyring store could not be set up, the loading screen otherwise.
pub fn initial_state(keyring_error: Option<String>) -> (state: UiState)
    ensures
        keyring_error is None ==> state is Loading,
        keyring_error matches Some(m) ==> state == (UiState::Error {
            kind: ErrorKind::Other,
            message: m,
        }),
{
    match keyring_error {
        Some(message) => UiState::Error { kind: ErrorKind::Other, message },
        None => UiState::Loading,
    }
}

/// What a text field shows under its input.
pub struct ValidationHint {
    /// Spacing in place of the hint.
    pub add_space: bool,
    /// The "This field is required" hint.
    pub show_required: bool,
}

/// The text under the hint line of a field.
pub const FIELD_REQUIRED: &'static str = "This field is required";

/// The hint of a field holding `value`: the "required" hint when hints are
/// on and the field is empty, spacing in its place otherwise.
pub fn validation_error(show_validation_errors: bool, value: &str) -> (hint: ValidationHint)
    ensures
        hint.show_required == (show_validation_errors && value@.len() == 0),
        hint.add_space == !hint.show_required,
{
    let empty = value.is_empty();
    ValidationHint {
        add_space: !show_validation_errors || !empty,
        show_required: show_validation_errors && empty,
    }
}

/// The error screen.
pub struct ErrorScreen;

impl ErrorScreen {
    /// Reacts to an error of kind `kind`: with no active account the login
    /// screen takes over and nothing is displayed; any other error is
    /// displayed (the result is `true`) and the screen stays.
    pub fn show(&self, state: &mut UiState, kind: &ErrorKind) -> (display: bool)
        ensures
            *kind == ErrorKind::NoAccountActive ==> ((*final(state)) is Login && !display),
            *kind == ErrorKind::Other ==> (*final(state) == *old(state) && display),
    {
        match kind {
            ErrorKind::NoAccountActive => {
                *state = UiState::Login;
                false
            },
            ErrorKind::Other => true,
        }
    }
}

/// The main screen.
pub struct MainScreen;

/// What the main screen displays.
#[derive(PartialEq, Eq, Structural, Clone, Copy, Debug)]
pub enum MainContent {
    /// The loading screen, while no client has been restored.
    Loading,
    /// The rooms and settings of the logged-in client.
    Workspace,
}

impl MainScreen {
    /// What the main screen displays: without a client it falls back to
    /// the loading screen, which restores one.
    pub fn content(client_present: bool) -> (content: MainContent)
        ensures
            content == (if client_present {
                MainContent::Workspace
            } else {
                MainContent::Loading
            }),
    {
        if client_present {
            MainContent::Workspace
        } else {
            MainContent::Loading
        }
    }
}

/// How a login attempt ended, as the loading screen learns it.
pub enum LoginOutcome {
    /// A client was restored.
    LoggedIn,
    /// There is no active account to restore.
    NoAccount,
    /// The login failed with this message.
    Failed(String),
    /// The login task itself was lost.
    Aborted,
}

/// The loading screen: it restores the active account's session, then fades
/// out; without an account it hands over to the login screen, and on an
/// error it shows the message with a retry button.
pub struct LoadingScreen {
    pub login_started: bool,
    pub starts_fading: bool,
    pub error: Option<String>,
    pub login: bool,
    pub retry: i32,
}

/// The message shown when the login task was lost.
pub const TASK_FAILED: &'static str = "Task failed";

impl LoadingScreen {
    /// A loading screen that has not started anything.
    pub fn new() -> (screen: LoadingScreen)
        ensures
            !screen.login_started,
            !screen.starts_fading,
            screen.error is None,
            !screen.login,
            screen.retry == 0,
    {
        LoadingScreen { login_started: false, starts_fading: false, error: None, login: false, retry: 0 }
    }

    /// Whether to start a login now: `true` only the first time, so that a
    /// screen starts at most one login.
    pub fn try_login(&mut self) -> (start: bool)
        ensures
            start == !old(self).login_started,
            final(self).login_started,
            final(self).starts_fading == old(self).starts_fading,
            final(self).error == old(self).error,
            final(self).login == old(self).login,
            final(self).retry == old(self).retry,
    {
        if self.login_started {
            return false;
        }
        self.login_started = true;
        true
    }

    /// Records how the login ended: a restored client starts the fade-out,
    /// a missing account switches to the login screen, a failure shows its
    /// message, and a lost task shows "Task failed".
    pub fn finish(&mut self, outcome: LoginOutcome)
        ensures
            outcome is LoggedIn ==> (final(self).starts_fading && final(self).error
                == old(self).error && final(self).login == old(self).login),
            outcome is NoAccount ==> (final(self).login && final(self).starts_fading
                == old(self).starts_fading && final(self).error == old(self).error),
            outcome matches LoginOutcome::Failed(m) ==> (final(self).error == Some(m)
                && final(self).starts_fading == old(self).starts_fading && final(self).login
                == old(self).login),
            outcome is Aborted ==> (final(self).error matches Some(m) && m@ == TASK_FAILED@
                && final(self).starts_fading == old(self).starts_fading && final(self).login
                == old(self).login),
            final(self).login_started == old(self).login_started,
            final(self).retry == old(self).retry,
    {
        match outcome {
            LoginOutcome::LoggedIn => {
                self.starts_fading = true;
            },
            LoginOutcome::NoAccount => {
                self.login = true;
            },
            LoginOutcome::Failed(message) => {
                self.error = Some(message);
            },
            LoginOutcome::Aborted => {
                self.error = Some(TASK_FAILED.to_owned());
            },
        }
    }

    /// The retry button: clears the error and the fade-out and asks for a
    /// new login attempt.
    pub fn retry(&mut self)
        requires
            old(self).retry < i32::MAX,
        ensures
            final(self).error is None,
            !final(self).starts_fading,
            final(self).retry == old(self).retry + 1,
            final(self).login == old(self).login,
            final(self).login_started == old(self).login_started,
    {
        self.error = None;
        self.starts_fading = false;
        self.retry = self.retry + 1;
    }

    /// The screen fades out once a client was restored, unless an error is
    /// shown.
    pub fn opacity_class(&self) -> (class: &'static str)
        ensures
            (self.starts_fading && self.error is None) ==> class@ == "opacity-0"@,
            !(self.starts_fading && self.error is None) ==> class@ == "opacity-100"@,
    {
        if self.starts_fading && self.error.is_none() {
            "opacity-0"
        } else {
            "opacity-100"
        }
    }
}

/// A click in the credentials step of the login window.
#[derive(PartialEq, Eq, Structural, Clone, Copy, Debug)]
pub enum CredentialsClick {
    Login,
    LoginWithHomeserver,
    Cancel,
    Back,
}

/// What the application has to do after a click in the credentials step.
pub enum CredentialsAction {
    Nothing,
    /// Start a single sign-on against this homeserver.
    StartSso(String),
    /// Abort the running login task.
    AbortLogin,
}

/// The login window's state.
pub struct LoginScreen {
    pub show_validation_errors: bool,
    pub current_stage: LoginStage,
    pub target_stage: LoginStage,
    /// A login task is running.
    pub login_running: bool,
    pub sso_link: Option<String>,
    pub login_error: Option<String>,
    pub homeserver: String,
    pub username: String,
    pub password: String,
    pub visible: bool,
}

/// The state of a login window that was just opened: everything empty, the
/// homeserver step, nothing running.
pub open spec fn is_fresh(s: LoginScreen) -> bool {
    &&& !s.show_validation_errors
    &&& s.current_stage == LoginStage::Homeserver
    &&& s.target_stage == LoginStage::Homeserver
    &&& !s.login_running
    &&& s.sso_link is None
    &&& s.login_error is None
    &&& s.homeserver@.len() == 0
    &&& s.username@.len() == 0
    &&& s.password@.len() == 0
    &&& !s.visible
}

impl Default for LoginScreen {
    fn default() -> (s: LoginScreen)
        ensures
            is_fresh(s),
    {
        LoginScreen {
            show_validation_errors: false,
            current_stage: LoginStage::Homeserver,
            target_stage: LoginStage::Homeserver,
            login_running: false,
            sso_link: None,
            login_error: None,
            homeserver: String::new(),
            username: String::new(),
            password: String::new(),
            visible: false,
        }
    }
}

impl LoginScreen {
    /// Marks the window as shown; it fades in from its first frame on.
    pub fn show(&mut self)
        ensures
            final(self).visible,
            final(self).show_validation_errors == old(self).show_validation_errors,
            final(self).current_stage == old(self).current_stage,
            final(self).target_stage == old(self).target_stage,
            final(self).login_running == old(self).login_running,
            final(self).sso_link == old(self).sso_link,
            final(self).login_error == old(self).login_error,
            final(self).homeserver == old(self).homeserver,
            final(self).username == old(self).username,
            final(self).password == old(self).password,
    {
        self.visible = true;
    }

    /// Whether a login task is running.
    pub fn login_started(&self) -> (running: bool)
        ensures
            running == self.login_running,
    {
        self.login_running
    }

    /// The homeserver step's "Check" button: an empty homeserver turns the
    /// hints on; otherwise the hints go off and the window moves on to the
    /// credentials step.
    pub fn homeserver(&mut self, check_clicked: bool)
        ensures
            !check_clicked ==> *final(self) == *old(self),
            check_clicked && old(self).homeserver@.len() == 0 ==> (final(self).show_validation_errors
                && final(self).target_stage == old(self).target_stage),
            check_clicked && old(self).homeserver@.len() != 0 ==> (!final(self).show_validation_errors
                && final(self).target_stage == LoginStage::Credentials),
            final(self).current_stage == old(self).current_stage,
            final(self).login_running == old(self).login_running,
            final(self).homeserver == old(self).homeserver,
            final(self).username == old(self).username,
            final(self).password == old(self).password,
            final(self).sso_link == old(self).sso_link,
            final(self).login_error == old(self).login_error,
            final(self).visible == old(self).visible,
    {
        if check_clicked {
            if self.homeserver.as_str().is_empty() {
                self.show_validation_errors = true;
            } else {
                self.show_validation_errors = false;
                self.target_stage = LoginStage::Credentials;
            }
        }
    }

    /// Leaves the login window after a successful login: the window forgets
    /// everything typed into it and the main screen takes over.
    pub fn finish_login(&mut self, state: &mut UiState)
        ensures
            is_fresh(*final(self)),
            (*final(state)) is Main,
    {
        *self = LoginScreen::default();
        *state = UiState::Main;
    }

    /// Starts a single sign-on: a login task is now running, against the
    /// homeserver that is returned.
    pub fn start_login_homeserver(&mut self) -> (homeserver: String)
        ensures
            homeserver@ == old(self).homeserver@,
            final(self).login_running,
            final(self).show_validation_errors == old(self).show_validation_errors,
            final(self).current_stage == old(self).current_stage,
            final(self).target_stage == old(self).target_stage,
            final(self).sso_link == old(self).sso_link,
            final(self).login_error == old(self).login_error,
            final(self).homeserver == old(self).homeserver,
            final(self).username == old(self).username,
            final(self).password == old(self).password,
            final(self).visible == old(self).visible,
    {
        self.login_running = true;
        self.homeserver.clone()
    }

    /// A click in the credentials step. The login, sign-on and back buttons
    /// only work while no login runs; the cancel button only while one
    /// runs. "Login" with an empty username or password turns the hints on;
    /// with both filled in it finishes the login. "Login with Homeserver"
    /// clears the last error and starts a sign-on. "Cancel" aborts the
    /// running login and drops the sign-on link. "Back" turns the hints off
    /// and returns to the homeserver step.
    pub fn credentials(&mut self, click: CredentialsClick, state: &mut UiState) -> (action:
        CredentialsAction)
        ensures
            ({
                let enabled = !old(self).login_running;
                let filled = old(self).username@.len() != 0 && old(self).password@.len() != 0;
                match click {
                    CredentialsClick::Login => if enabled && filled {
                        &&& is_fresh(*final(self))
                        &&& (*final(state)) is Main
                        &&& action is Nothing
                    } else if enabled {
                        &&& final(self).show_validation_errors
                        &&& final(self).login_running == old(self).login_running
                        &&& final(self).current_stage == old(self).current_stage
                        &&& final(self).target_stage == old(self).target_stage
                        &&& final(self).homeserver == old(self).homeserver
                        &&& final(self).username == old(self).username
                        &&& final(self).password == old(self).password
                        &&& final(self).login_error == old(self).login_error
                        &&& final(self).sso_link == old(self).sso_link
                        &&& final(self).visible == old(self).visible
                        &&& *final(state) == *old(state)
                        &&& action is Nothing
                    } else {
                        &&& *final(self) == *old(self)
                        &&& *final(state) == *old(state)
                        &&& action is Nothing
                    },
                    CredentialsClick::LoginWithHomeserver => if enabled {
                        &&& final(self).login_running
                        &&& final(self).login_error is None
                        &&& final(self).homeserver == old(self).homeserver
                        &&& final(self).username == old(self).username
                        &&& final(self).password == old(self).password
                        &&& final(self).current_stage == old(self).current_stage
                        &&& final(self).target_stage == old(self).target_stage
                        &&& final(self).show_validation_errors == old(self).show_validation_errors
                        &&& final(self).sso_link == old(self).sso_link
                        &&& final(self).visible == old(self).visible
                        &&& *final(state) == *old(state)
                        &&& action matches CredentialsAction::StartSso(h) && h@
                            == old(self).homeserver@
                    } else {
                        &&& *final(self) == *old(self)
                        &&& *final(state) == *old(state)
                        &&& action is Nothing
                    },
                    CredentialsClick::Cancel => if !enabled {
                        &&& !final(self).login_running
                        &&& final(self).sso_link is None
                        &&& final(self).login_error == old(self).login_error
                        &&& final(self).homeserver == old(self).homeserver
                        &&& final(self).username == old(self).username
                        &&& final(self).password == old(self).password
                        &&& final(self).current_stage == old(self).current_stage
                        &&& final(self).target_stage == old(self).target_stage
                        &&& final(self).show_validation_errors == old(self).show_validation_errors
                        &&& final(self).visible == old(self).visible
                        &&& *final(state) == *old(state)
                        &&& action is AbortLogin
                    } else {
                        &&& *final(self) == *old(self)
                        &&& *final(state) == *old(state)
                        &&& action is Nothing
                    },
                    CredentialsClick::Back => if enabled {
                        &&& !final(self).show_validation_errors
                        &&& final(self).target_stage == LoginStage::Homeserver
                        &&& final(self).current_stage == old(self).current_stage
                        &&& final(self).login_running == old(self).login_running
                        &&& final(self).homeserver == old(self).homeserver
                        &&& final(self).username == old(self).username
                        &&& final(self).password == old(self).password
                        &&& final(self).login_error == old(self).login_error
                        &&& final(self).sso_link == old(self).sso_link
                        &&& final(self).visible == old(self).visible
                        &&& *final(state) == *old(state)
                        &&& action is Nothing
                    } else {
                        &&& *final(self) == *old(self)
                        &&& *final(state) == *old(state)
                        &&& action is Nothing
                    },
                }
            }),
    {
        let enabled = !self.login_started();
        match click {
            CredentialsClick::Login => {
                if !enabled {
                    return CredentialsAction::Nothing;
                }
                if self.username.as_str().is_empty() || self.password.as_str().is_empty() {
                    self.show_validation_errors = true;
                } else {
                    self.finish_login(state);
                }
                CredentialsAction::Nothing
            },
            CredentialsClick::LoginWithHomeserver => {
                if !enabled {
                    return CredentialsAction::Nothing;
                }
                self.login_error = None;
                let homeserver = self.start_login_homeserver();
                CredentialsAction::StartSso(homeserver)
            },
            CredentialsClick::Cancel => {
                if enabled {
                    return CredentialsAction::Nothing;
                }
                self.login_running = false;
                self.sso_link = None;
                CredentialsAction::AbortLogin
            },
            CredentialsClick::Back => {
                if !enabled {
                    return CredentialsAction::Nothing;
                }
                self.show_validation_errors = false;
                self.target_stage = LoginStage::Homeserver;
                CredentialsAction::Nothing
            },
        }
    }

    /// Takes in what the running login task sent this frame: an error ends
    /// the task and is shown; a client finishes the login; a sign-on link
    /// replaces the one shown (and is kept when none came).
    pub fn login_recv(
        &mut self,
        error: Option<String>,
        client_received: bool,
        sso_link: Option<String>,
        state: &mut UiState,
    )
        ensures
            client_received ==> (*final(state)) is Main,
            !client_received ==> *final(state) == *old(state),
            client_received ==> ({
                let f = *final(self);
                &&& !f.show_validation_errors
                &&& f.current_stage == LoginStage::Homeserver
                &&& f.target_stage == LoginStage::Homeserver
                &&& !f.login_running
                &&& f.login_error is None
                &&& f.homeserver@.len() == 0
                &&& f.username@.len() == 0
                &&& f.password@.len() == 0
                &&& f.sso_link == sso_link
                &&& !f.visible
            }),
            !client_received ==> ({
                &&& final(self).login_error == (if error is Some {
                    error
                } else {
                    old(self).login_error
                })
                &&& final(self).login_running == (old(self).login_running && error is None)
                &&& final(self).sso_link == (if sso_link is Some {
                    sso_link
                } else {
                    old(self).sso_link
                })
                &&& final(self).homeserver == old(self).homeserver
                &&& final(self).username == old(self).username
                &&& final(self).password == old(self).password
                &&& final(self).current_stage == old(self).current_stage
                &&& final(self).target_stage == old(self).target_stage
                &&& final(self).show_validation_errors == old(self).show_validation_errors
                &&& final(self).visible == old(self).visible
            }),
    {
        if let Some(message) = error {
            self.login_error = Some(message);
            self.login_running = false;
        }
        if client_received {
            self.finish_login(state);
        }
        let previous = self.sso_link.take();
        self.sso_link = match sso_link {
            Some(link) => Some(link),
            None => previous,
        };
    }

    /// The stage change the window was fading out for takes place once the
    /// old content has faded out.
    pub fn complete_stage_change(&mut self)
        ensures
            final(self).current_stage == old(self).target_stage,
            final(self).target_stage == old(self).target_stage,
            final(self).show_validation_errors == old(self).show_validation_errors,
            final(self).login_running == old(self).login_running,
            final(self).homeserver == old(self).homeserver,
            final(self).username == old(self).username,
            final(self).password == old(self).password,
            final(self).sso_link == old(self).sso_link,
            final(self).login_error == old(self).login_error,
            final(self).visible == old(self).visible,
    {
        self.current_stage = self.target_stage;
    }
}

} // verus!
