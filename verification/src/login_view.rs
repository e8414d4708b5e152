//! The state machine of the web-view login screen: the homeserver and
//! credentials steps, the background jobs it starts (checking a homeserver,
//! single sign-on, username login), and what their results do to the screen.
//! The application runs the jobs and draws the screen.

use vstd::prelude::*;

use crate::ui::LoginStage;

verus! {

/// A background job the screen asks the application to start.
pub enum LoginJob {
    /// Ask the homeserver which login types it offers.
    CheckHomeserver(String),
    /// Single sign-on against the homeserver.
    Sso(String),
    /// Password login of `username` on the homeserver.
    Username { homeserver: String, username: String, password: String },
}

/// What the application does after a click: possibly cancel the running
/// job, then possibly start a new one.
pub struct LoginCommand {
    pub cancel_running: bool,
    pub start: Option<LoginJob>,
}

/// How a background job ended.
pub enum JobOutcome {
    Succeeded,
    Failed(String),
    /// The job's task was lost before it reported.
    Aborted,
}

/// The message shown when a homeserver check was lost.
pub const VALIDATION_ABORTED: &'static str = "Validation process aborted";

/// The message shown when a login job was lost.
pub const AUTHENTICATION_ABORTED: &'static str = "Authentication process aborted";

/// The screen's state.
pub struct LoginView {
    /// The step the screen is heading for.
    pub current_stage: LoginStage,
    /// The step whose fields are on display.
    pub displayed_stage: LoginStage,
    pub stage_visible: bool,
    pub show_validation_errors: bool,
    pub homeserver: String,
    pub username: String,
    pub password: String,
    pub error: Option<String>,
    pub sso_link: Option<String>,
    pub is_busy: bool,
    /// A background job is running.
    pub task_running: bool,
    /// The homeserver reported its login types.
    pub has_login_choices: bool,
}

impl LoginView {
    /// The screen as it opens: the homeserver step, empty fields, nothing
    /// running.
    pub fn new() -> (v: LoginView)
        ensures
            v.current_stage == LoginStage::Homeserver,
            v.displayed_stage == LoginStage::Homeserver,
            v.stage_visible,
            !v.show_validation_errors,
            v.homeserver@.len() == 0,
            v.username@.len() == 0,
            v.password@.len() == 0,
            v.error is None,
            v.sso_link is None,
            !v.is_busy,
            !v.task_running,
            !v.has_login_choices,
    {
        LoginView {
            current_stage: LoginStage::Homeserver,
            displayed_stage: LoginStage::Homeserver,
            stage_visible: true,
            show_validation_errors: false,
            homeserver: String::new(),
            username: String::new(),
            password: String::new(),
            error: None,
            sso_link: None,
            is_busy: false,
            task_running: false,
            has_login_choices: false,
        }
    }

    /// Whether a field holding `value` shows its "required" hint.
    pub fn field_error(&self, value: &String) -> (show: bool)
        ensures
            show == (self.show_validation_errors && value@.len() == 0),
    {
        self.show_validation_errors && value.as_str().is_empty()
    }

    /// Cancels the running job, if any; the result says whether there was
    /// one to cancel.
    fn cancel_active_task(&mut self) -> (cancelled: bool)
        ensures
            cancelled == old(self).task_running,
            *final(self) == (LoginView { task_running: false, ..*old(self) }),
    {
        let running = self.task_running;
        self.task_running = false;
        running
    }

    /// The "Check" button of the homeserver step. It clears the error; an
    /// empty homeserver turns the hints on; otherwise the hints go off, the
    /// running job is cancelled and the homeserver's login types are asked
    /// for.
    pub fn check_clicked(&mut self) -> (command: LoginCommand)
        ensures
            old(self).homeserver@.len() == 0 ==> ({
                &&& *final(self) == (LoginView {
                    error: None,
                    show_validation_errors: true,
                    ..*old(self)
                })
                &&& !command.cancel_running
                &&& command.start is None
            }),
            old(self).homeserver@.len() != 0 ==> ({
                &&& *final(self) == (LoginView {
                    error: None,
                    show_validation_errors: false,
                    is_busy: true,
                    task_running: true,
                    ..*old(self)
                })
                &&& command.cancel_running == old(self).task_running
                &&& command.start matches Some(LoginJob::CheckHomeserver(h)) && h@ == old(
                    self,
                ).homeserver@
            }),
    {
        self.error = None;
        if self.homeserver.as_str().is_empty() {
            self.show_validation_errors = true;
            return LoginCommand { cancel_running: false, start: None };
        }
        self.show_validation_errors = false;
        let cancel_running = self.cancel_active_task();
        self.error = None;
        self.is_busy = true;
        self.task_running = true;
        LoginCommand {
            cancel_running,
            start: Some(LoginJob::CheckHomeserver(self.homeserver.clone())),
        }
    }

    /// A cancel button: the running job is cancelled, the screen is no
    /// longer busy and the sign-on link goes away.
    pub fn cancel_clicked(&mut self) -> (command: LoginCommand)
        ensures
            command.cancel_running == old(self).task_running,
            command.start is None,
            *final(self) == (LoginView {
                is_busy: false,
                task_running: false,
                sso_link: None,
                ..*old(self)
            }),
    {
        let cancel_running = self.cancel_active_task();
        self.is_busy = false;
        self.sso_link = None;
        LoginCommand { cancel_running, start: None }
    }

    /// The "Login with Homeserver" button: ignored while busy; otherwise the
    /// running job is cancelled, the error cleared and a single sign-on
    /// started.
    pub fn sso_clicked(&mut self) -> (command: LoginCommand)
        ensures
            old(self).is_busy ==> ({
                &&& *final(self) == *old(self)
                &&& !command.cancel_running
                &&& command.start is None
            }),
            !old(self).is_busy ==> ({
                &&& *final(self) == (LoginView {
                    error: None,
                    is_busy: true,
                    task_running: true,
                    ..*old(self)
                })
                &&& command.cancel_running == old(self).task_running
                &&& command.start matches Some(LoginJob::Sso(h)) && h@ == old(self).homeserver@
            }),
    {
        if self.is_busy {
            return LoginCommand { cancel_running: false, start: None };
        }
        let cancel_running = self.cancel_active_task();
        self.error = None;
        self.is_busy = true;
        self.task_running = true;
        LoginCommand { cancel_running, start: Some(LoginJob::Sso(self.homeserver.clone())) }
    }

    /// The "Login" button: ignored while busy; otherwise the running job is
    /// cancelled, and an empty username or password turns the hints on;
    /// with both filled in, the hints go off, the error is cleared and a
    /// password login is started.
    pub fn username_login_clicked(&mut self) -> (command: LoginCommand)
        ensures
            old(self).is_busy ==> ({
                &&& *final(self) == *old(self)
                &&& !command.cancel_running
                &&& command.start is None
            }),
            !old(self).is_busy ==> command.cancel_running == old(self).task_running,
            !old(self).is_busy && (old(self).username@.len() == 0 || old(self).password@.len()
                == 0) ==> ({
                &&& *final(self) == (LoginView {
                    task_running: false,
                    show_validation_errors: true,
                    ..*old(self)
                })
                &&& command.start is None
            }),
            !old(self).is_busy && old(self).username@.len() != 0 && old(self).password@.len()
                != 0 ==> ({
                &&& *final(self) == (LoginView {
                    show_validation_errors: false,
                    is_busy: true,
                    error: None,
                    task_running: true,
                    ..*old(self)
                })
                &&& command.start matches Some(
                    LoginJob::Username { homeserver, username, password },
                ) && homeserver@ == old(self).homeserver@ && username@ == old(self).username@
                    && password@ == old(self).password@
            }),
    {
        if self.is_busy {
            return LoginCommand { cancel_running: false, start: None };
        }
        let cancel_running = self.cancel_active_task();
        if self.username.as_str().is_empty() || self.password.as_str().is_empty() {
            self.show_validation_errors = true;
            return LoginCommand { cancel_running, start: None };
        }
        self.show_validation_errors = false;
        self.is_busy = true;
        self.error = None;
        self.task_running = true;
        LoginCommand {
            cancel_running,
            start: Some(
                LoginJob::Username {
                    homeserver: self.homeserver.clone(),
                    username: self.username.clone(),
                    password: self.password.clone(),
                },
            ),
        }
    }

    /// The "Back" button: clears the error, the hints and the login types,
    /// and heads back to the homeserver step.
    pub fn back_clicked(&mut self)
        ensures
            *final(self) == (LoginView {
                error: None,
                show_validation_errors: false,
                has_login_choices: false,
                current_stage: LoginStage::Homeserver,
                ..*old(self)
            }),
    {
        self.error = None;
        self.show_validation_errors = false;
        self.has_login_choices = false;
        self.current_stage = LoginStage::Homeserver;
    }

    /// Records the end of the running job; a failure shows its message and a
    /// lost task shows `aborted_message`.
    fn job_finished(&mut self, outcome: &JobOutcome, aborted_message: &str)
        ensures
            *final(self) == (LoginView {
                is_busy: false,
                task_running: false,
                error: final(self).error,
                ..*old(self)
            }),
            outcome is Succeeded ==> final(self).error == old(self).error,
            outcome matches JobOutcome::Failed(m) ==> final(self).error == Some(*m),
            outcome is Aborted ==> (final(self).error matches Some(m) && m@ == aborted_message@),
    {
        match outcome {
            JobOutcome::Succeeded => {},
            JobOutcome::Failed(message) => {
                self.error = Some(message.clone());
            },
            JobOutcome::Aborted => {
                self.error = Some(aborted_message.to_owned());
            },
        }
        self.is_busy = false;
        self.task_running = false;
    }

    /// The homeserver check ended: on success its login types are kept, on a
    /// failure its message is shown, and a lost check shows "Validation
    /// process aborted". The screen is no longer busy.
    pub fn login_types_finished(&mut self, outcome: JobOutcome)
        ensures
            *final(self) == (LoginView {
                is_busy: false,
                task_running: false,
                error: final(self).error,
                has_login_choices: final(self).has_login_choices,
                ..*old(self)
            }),
            outcome is Succeeded ==> (final(self).has_login_choices && final(self).error == old(
                self,
            ).error),
            !(outcome is Succeeded) ==> final(self).has_login_choices == old(
                self,
            ).has_login_choices,
            outcome matches JobOutcome::Failed(m) ==> final(self).error == Some(m),
            outcome is Aborted ==> (final(self).error matches Some(m) && m@
                == VALIDATION_ABORTED@),
    {
        if let JobOutcome::Succeeded = outcome {
            self.has_login_choices = true;
        }
        self.job_finished(&outcome, VALIDATION_ABORTED);
    }

    /// A sign-on link arrived while the sign-on runs: it is shown.
    pub fn sso_link_received(&mut self, link: String)
        ensures
            *final(self) == (LoginView { sso_link: Some(link), ..*old(self) }),
    {
        self.sso_link = Some(link);
    }

    /// A login job (single sign-on or password) ended: on success the
    /// application keeps the client, on a failure its message is shown, and
    /// a lost job shows "Authentication process aborted". The screen is no
    /// longer busy.
    pub fn authentication_finished(&mut self, outcome: JobOutcome)
        ensures
            *final(self) == (LoginView {
                is_busy: false,
                task_running: false,
                error: final(self).error,
                ..*old(self)
            }),
            outcome is Succeeded ==> final(self).error == old(self).error,
            outcome matches JobOutcome::Failed(m) ==> final(self).error == Some(m),
            outcome is Aborted ==> (final(self).error matches Some(m) && m@
                == AUTHENTICATION_ABORTED@),
    {
        self.job_finished(&outcome, AUTHENTICATION_ABORTED);
    }

    /// The steps differ: the displayed step starts to fade out. The result
    /// says whether a change is under way.
    pub fn begin_stage_change(&mut self) -> (changing: bool)
        ensures
            changing == (old(self).current_stage != old(self).displayed_stage),
            changing ==> *final(self) == (LoginView { stage_visible: false, ..*old(self) }),
            !changing ==> *final(self) == *old(self),
    {
        if self.current_stage == self.displayed_stage {
            return false;
        }
        self.stage_visible = false;
        true
    }

    /// The old step has faded out: the heading-for step is displayed and
    /// fades in.
    pub fn finish_stage_change(&mut self)
        ensures
            *final(self) == (LoginView {
                displayed_stage: old(self).current_stage,
                stage_visible: true,
                ..*old(self)
            }),
    {
        self.displayed_stage = self.current_stage;
        self.stage_visible = true;
    }
}

} // verus!
