//! The login state that the presentation layer shows, and the events that
//! change it.

use vstd::prelude::*;
use crate::errors::ApiError;
use crate::errors::ApiErrors;
use crate::pinlogin::LoginOutcome;

verus! {

/// Whether the user is signed in, as the presentation layer sees it.
#[derive(Copy, Clone, Debug, PartialEq, Eq, Structural)]
pub enum LoginState {
    LoggedOut,
    LoggingIn,
    LoggedIn,
    Error,
}

impl LoginState {
    /// The number that stands for the state where only a number can pass.
    pub open spec fn spec_number(self) -> i32 {
        match self {
            LoginState::LoggedOut => 0i32,
            LoginState::LoggingIn => 1i32,
            LoginState::LoggedIn => 2i32,
            LoginState::Error => -1i32,
        }
    }

    pub fn number(&self) -> (n: i32)
        ensures
            n == self.spec_number(),
    {
        match self {
            LoginState::LoggedOut => 0,
            LoginState::LoggingIn => 1,
            LoginState::LoggedIn => 2,
            LoginState::Error => -1,
        }
    }
}

/// The state that the client writes and the presentation layer reads.
#[derive(Debug)]
pub struct App {
    pub login_state: LoginState,
}

/// What the presentation layer asks of the client.
#[derive(Debug, Clone, Copy, PartialEq, Eq, Structural)]
pub enum ClientEvent {
    Startup,
    Login,
}

/// The same events under the name that the network side of the program
/// gives them.
pub type NetworkEvent = ClientEvent;

/// What the client has to do after an event.
#[derive(Debug, Clone, Copy, PartialEq, Eq, Structural)]
pub enum ClientAction {
    /// Nothing.
    Nothing,
    /// Build the headers anew from the kept token and fetch the profile of
    /// the account.
    ResumeSession,
    /// Run a login by PIN and report how it ended.
    RunLogin,
}

/// The login state after `event`.
pub open spec fn state_after(state: LoginState, event: ClientEvent, has_token: bool) -> LoginState {
    match event {
        ClientEvent::Startup => if has_token {
            LoginState::LoggedIn
        } else {
            state
        },
        ClientEvent::Login => LoginState::LoggingIn,
    }
}

/// What the client has to do on `event`.
pub open spec fn action_for(event: ClientEvent, has_token: bool) -> ClientAction {
    match event {
        ClientEvent::Startup => if has_token {
            ClientAction::ResumeSession
        } else {
            ClientAction::Nothing
        },
        ClientEvent::Login => ClientAction::RunLogin,
    }
}

/// The login state after a login that ended with `outcome`: signed in
/// where a token came; signed out, as before the login, where the polls ran
/// out; in error where the login broke off.
pub open spec fn state_after_login(outcome: LoginOutcome) -> LoginState {
    match outcome {
        LoginOutcome::Authenticated => LoginState::LoggedIn,
        LoginOutcome::Exhausted => LoginState::LoggedOut,
        LoginOutcome::Failed => LoginState::Error,
    }
}

impl App {
    pub fn new(login_state: LoginState) -> (r: Self)
        ensures
            r.login_state == login_state,
    {
        Self { login_state }
    }

    /// Takes an event from the presentation layer. At startup a kept token
    /// signs the user in at once; a request to log in starts a login.
    pub fn handle_client_event(&mut self, event: &ClientEvent, has_token: bool) -> (action:
        ClientAction)
        ensures
            final(self).login_state == state_after(old(self).login_state, *event, has_token),
            action == action_for(*event, has_token),
    {
        match event {
            ClientEvent::Startup => {
                if has_token {
                    self.login_state = LoginState::LoggedIn;
                    ClientAction::ResumeSession
                } else {
                    ClientAction::Nothing
                }
            },
            ClientEvent::Login => {
                self.login_state = LoginState::LoggingIn;
                ClientAction::RunLogin
            },
        }
    }

    /// Records how a login ended. Running out of polls is no error: the
    /// user is then signed out as before.
    pub fn login_finished(&mut self, outcome: LoginOutcome)
        ensures
            final(self).login_state == state_after_login(outcome),
    {
        self.login_state = match outcome {
            LoginOutcome::Authenticated => LoginState::LoggedIn,
            LoginOutcome::Exhausted => LoginState::LoggedOut,
            LoginOutcome::Failed => LoginState::Error,
        };
    }

    /// Signs the user out at the user's own wish.
    pub fn logout(&mut self)
        ensures
            final(self).login_state == LoginState::LoggedOut,
    {
        self.login_state = LoginState::LoggedOut;
    }

    /// Reacts to the errors of a failed call. Only `Unauthorized` changes
    /// anything: the user is then signed out, and the result tells the
    /// caller to drop the token. Every other error is the caller's to show.
    pub fn handle_api_errors(&mut self, errors: &ApiErrors) -> (invalidate: bool)
        ensures
            invalidate == errors.errors@.contains(ApiError::Unauthorized),
            final(self).login_state == (if invalidate {
                LoginState::LoggedOut
            } else {
                old(self).login_state
            }),
    {
        if errors.contains(ApiError::Unauthorized) {
            self.login_state = LoginState::LoggedOut;
            true
        } else {
            false
        }
    }
}

} // verus!
