//! The login state machine. Each operation is split where the service has
//! to be asked: the first half says what to ask, the second takes the answer.

use crate::backend::{Backend, BackendError};
use crate::raw::RawUser;
use crate::types::LoginState;
use vstd::prelude::*;

verus! {

/// What the caller of a login step has to do next.
#[derive(Debug, Clone, Copy, PartialEq, Eq, Structural)]
pub enum AuthAction {
    /// Ask the service to send a login code to the phone number, then report
    /// with `login_code_requested`.
    RequestCode,
    /// Submit the code together with the login token, then report with
    /// `sign_in_finished`.
    SignIn,
    /// Submit the password together with the password token, then report
    /// with `password_checked`.
    CheckPassword,
    /// The step is over in this state; the session is to be saved first
    /// where `save_session` is set.
    Finish { state: LoginState, save_session: bool },
    /// The step failed.
    Fail(BackendError),
}

/// How the service answered a submitted code.
#[derive(Debug)]
pub enum SignInOutcome<P> {
    /// The code was right and no password is set.
    SignedIn(RawUser),
    /// The code was right and the account asks for its password.
    PasswordRequired(P),
    /// The code was wrong.
    InvalidCode,
    /// The request failed for another reason.
    Failed,
}

impl<L, P, H> Backend<L, P, H> {
    /// Whether a login token is at hand.
    pub fn has_login_token(&self) -> (held: bool)
        ensures
            held == self.login_token() is Some,
    {
        self.login_token.is_some()
    }

    /// The token of the login in progress.
    pub fn get_login_token(&self) -> (token: Option<&L>)
        ensures
            token is Some == self.login_token() is Some,
            token is Some ==> *token->0 == self.login_token()->0,
    {
        self.login_token.as_ref()
    }

    /// The token of the password challenge.
    pub fn get_password_token(&self) -> (token: Option<&P>)
        ensures
            token is Some == self.password_token() is Some,
            token is Some ==> *token->0 == self.password_token()->0,
    {
        self.password_token.as_ref()
    }

    /// The login state, once a login step has set one.
    pub fn get_login_state(&self) -> (state: Option<LoginState>)
        ensures
            state == self.state(),
    {
        self.login_state
    }

    /// Starts a login with a phone number. `authorized` says whether the
    /// service already takes the account as signed in: then the state is
    /// `LoggedIn`, the session is saved and no code is asked for. Otherwise
    /// a code has to be requested and nothing changes yet.
    pub fn login_with_phone(&mut self, authorized: bool) -> (action: AuthAction)
        requires
            old(self).wf(),
        ensures
            final(self).wf(),
            final(self).same_but_login(old(self)),
            final(self).login_token() == old(self).login_token(),
            final(self).password_token() == old(self).password_token(),
            final(self).user() == old(self).user(),
            authorized ==> action == (AuthAction::Finish {
                state: LoginState::LoggedIn,
                save_session: true,
            }) && final(self).state() == Some(LoginState::LoggedIn),
            !authorized ==> action == AuthAction::RequestCode
                && final(self).state() == old(self).state(),
    {
        if !authorized {
            AuthAction::RequestCode
        } else {
            self.login_state = Some(LoginState::LoggedIn);
            AuthAction::Finish { state: LoginState::LoggedIn, save_session: true }
        }
    }

    /// Takes the answer to a code request: with a token the state is
    /// `CodeRequired` and the token is kept; without one the request failed
    /// and nothing changes.
    pub fn login_code_requested(&mut self, token: Option<L>) -> (action: AuthAction)
        requires
            old(self).wf(),
        ensures
            final(self).wf(),
            final(self).same_but_login(old(self)),
            final(self).user() == old(self).user(),
            token is Some ==> action == (AuthAction::Finish {
                state: LoginState::CodeRequired,
                save_session: false,
            }) && final(self).state() == Some(LoginState::CodeRequired)
                && final(self).login_token() == token
                && final(self).password_token() == old(self).password_token(),
            token is None ==> action == AuthAction::Fail(BackendError::Transport)
                && final(self).state() == old(self).state()
                && final(self).login_token() == old(self).login_token()
                && final(self).password_token() == old(self).password_token(),
    {
        match token {
            Some(t) => {
                self.login_token = Some(t);
                self.login_state = Some(LoginState::CodeRequired);
                AuthAction::Finish { state: LoginState::CodeRequired, save_session: false }
            },
            None => AuthAction::Fail(BackendError::Transport),
        }
    }

    /// Starts the submission of a login code. Where the account is signed in
    /// already the state is `LoggedIn` and the session is saved; otherwise
    /// the code has to be submitted with the login token, which must be at
    /// hand, and nothing changes yet.
    pub fn provide_verify_code(&mut self, authorized: bool) -> (action: AuthAction)
        requires
            old(self).wf(),
            authorized || old(self).login_token() is Some,
        ensures
            final(self).wf(),
            final(self).same_but_login(old(self)),
            final(self).login_token() == old(self).login_token(),
            final(self).password_token() == old(self).password_token(),
            final(self).user() == old(self).user(),
            authorized ==> action == (AuthAction::Finish {
                state: LoginState::LoggedIn,
                save_session: true,
            }) && final(self).state() == Some(LoginState::LoggedIn),
            !authorized ==> action == AuthAction::SignIn
                && final(self).state() == old(self).state(),
    {
        if !authorized {
            AuthAction::SignIn
        } else {
            self.login_state = Some(LoginState::LoggedIn);
            AuthAction::Finish { state: LoginState::LoggedIn, save_session: true }
        }
    }

    /// Takes the answer to a submitted code.
    ///
    /// - Signed in: the user is kept, the state is `LoggedIn`, the session is
    ///   saved.
    /// - Password required: the challenge is kept, the login token is given
    ///   up, the state is `PasswordRequired`.
    /// - Wrong code: the state is `WrongCode` and the login token stays, so
    ///   the code can be submitted again.
    /// - Failure: nothing changes.
    pub fn sign_in_finished(&mut self, outcome: SignInOutcome<P>) -> (action: AuthAction)
        requires
            old(self).wf(),
        ensures
            final(self).wf(),
            final(self).same_but_login(old(self)),
            match outcome {
                SignInOutcome::SignedIn(user) => {
                    &&& action == (AuthAction::Finish {
                        state: LoginState::LoggedIn,
                        save_session: true,
                    })
                    &&& final(self).state() == Some(LoginState::LoggedIn)
                    &&& final(self).user() == Some(user)
                    &&& final(self).login_token() == old(self).login_token()
                    &&& final(self).password_token() == old(self).password_token()
                },
                SignInOutcome::PasswordRequired(token) => {
                    &&& action == (AuthAction::Finish {
                        state: LoginState::PasswordRequired,
                        save_session: false,
                    })
                    &&& final(self).state() == Some(LoginState::PasswordRequired)
                    &&& final(self).user() == old(self).user()
                    &&& final(self).login_token() is None
                    &&& final(self).password_token() == Some(token)
                },
                SignInOutcome::InvalidCode => {
                    &&& action == (AuthAction::Finish {
                        state: LoginState::WrongCode,
                        save_session: false,
                    })
                    &&& final(self).state() == Some(LoginState::WrongCode)
                    &&& final(self).user() == old(self).user()
                    &&& final(self).login_token() == old(self).login_token()
                    &&& final(self).password_token() == old(self).password_token()
                },
                SignInOutcome::Failed => {
                    &&& action == AuthAction::Fail(BackendError::Transport)
                    &&& final(self).state() == old(self).state()
                    &&& final(self).user() == old(self).user()
                    &&& final(self).login_token() == old(self).login_token()
                    &&& final(self).password_token() == old(self).password_token()
                },
            },
    {
        match outcome {
            SignInOutcome::PasswordRequired(token) => {
                self.login_state = Some(LoginState::PasswordRequired);
                self.password_token = Some(token);
                self.login_token = None;
                AuthAction::Finish { state: LoginState::PasswordRequired, save_session: false }
            },
            SignInOutcome::SignedIn(user) => {
                self.user = Some(user);
                self.login_state = Some(LoginState::LoggedIn);
                AuthAction::Finish { state: LoginState::LoggedIn, save_session: true }
            },
            SignInOutcome::InvalidCode => {
                self.login_state = Some(LoginState::WrongCode);
                AuthAction::Finish { state: LoginState::WrongCode, save_session: false }
            },
            SignInOutcome::Failed => AuthAction::Fail(BackendError::Transport),
        }
    }

    /// Starts the submission of the password. Unless the state is
    /// `PasswordRequired` the step fails and nothing changes. Where the
    /// account is signed in already the state is `LoggedIn` and the session
    /// is saved; otherwise the password has to be submitted with the password
    /// token, which is then at hand.
    pub fn provide_password(&mut self, authorized: bool) -> (action: AuthAction)
        requires
            old(self).wf(),
        ensures
            final(self).wf(),
            final(self).same_but_login(old(self)),
            final(self).login_token() == old(self).login_token(),
            final(self).password_token() == old(self).password_token(),
            final(self).user() == old(self).user(),
            old(self).state() != Some(LoginState::PasswordRequired) ==> action == AuthAction::Fail(
                BackendError::PasswordNotRequired,
            ) && final(self).state() == old(self).state(),
            old(self).state() == Some(LoginState::PasswordRequired) && authorized ==> action == (
            AuthAction::Finish { state: LoginState::LoggedIn, save_session: true })
                && final(self).state() == Some(LoginState::LoggedIn),
            old(self).state() == Some(LoginState::PasswordRequired) && !authorized ==> action
                == AuthAction::CheckPassword && final(self).state() == old(self).state()
                && final(self).password_token() is Some,
    {
        match self.login_state {
            Some(LoginState::PasswordRequired) => {},
            _ => {
                return AuthAction::Fail(BackendError::PasswordNotRequired);
            },
        }
        if !authorized {
            AuthAction::CheckPassword
        } else {
            self.login_state = Some(LoginState::LoggedIn);
            AuthAction::Finish { state: LoginState::LoggedIn, save_session: true }
        }
    }

    /// Takes the answer to a submitted password: with a user the state is
    /// `LoggedIn`, the user is kept, the challenge is given up and the
    /// session is saved; without one the request failed and nothing changes.
    pub fn password_checked(&mut self, user: Option<RawUser>) -> (action: AuthAction)
        requires
            old(self).wf(),
        ensures
            final(self).wf(),
            final(self).same_but_login(old(self)),
            final(self).login_token() == old(self).login_token(),
            user is Some ==> action == (AuthAction::Finish {
                state: LoginState::LoggedIn,
                save_session: true,
            }) && final(self).state() == Some(LoginState::LoggedIn) && final(self).user() == user
                && final(self).password_token() is None,
            user is None ==> action == AuthAction::Fail(BackendError::Transport)
                && final(self).state() == old(self).state()
                && final(self).user() == old(self).user()
                && final(self).password_token() == old(self).password_token(),
    {
        match user {
            Some(u) => {
                self.user = Some(u);
                self.login_state = Some(LoginState::LoggedIn);
                self.password_token = None;
                AuthAction::Finish { state: LoginState::LoggedIn, save_session: true }
            },
            None => AuthAction::Fail(BackendError::Transport),
        }
    }
}

} // verus!
