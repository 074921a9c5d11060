use homogrape::backend::login::{AuthAction, SignInOutcome};
use homogrape::backend::{Backend, BackendError};
use homogrape::handle::{ChatHandle, HandleKind};
use homogrape::raw::RawUser;
use homogrape::types::LoginState;

type LoginBackend = Backend<&'static str, &'static str, u32>;

fn login_user(id: i64) -> RawUser {
    RawUser {
        id,
        packed: ChatHandle { kind: HandleKind::User, id, access_hash: None },
        contact: false,
        mutual_contact: false,
        phone: Some("15550000".to_string()),
        username: None,
        full_name: "Me".to_string(),
        first_name: "Me".to_string(),
        last_name: None,
        photo: None,
    }
}

fn finish(state: LoginState, save_session: bool) -> AuthAction {
    AuthAction::Finish { state, save_session }
}

#[test]
fn new_backend_has_taken_no_login_step() {
    let backend = LoginBackend::new(4);
    assert_eq!(backend.get_login_state(), None);
    assert!(!backend.has_login_token());
    assert_eq!(backend.get_login_token(), None);
    assert_eq!(backend.get_password_token(), None);
}

#[test]
fn login_with_phone_asks_for_a_code() {
    let mut backend = LoginBackend::new(4);
    assert_eq!(backend.login_with_phone(false), AuthAction::RequestCode);
    assert_eq!(backend.get_login_state(), None);
    assert_eq!(
        backend.login_code_requested(Some("token-1")),
        finish(LoginState::CodeRequired, false)
    );
    assert_eq!(backend.get_login_state(), Some(LoginState::CodeRequired));
    assert_eq!(backend.get_login_token(), Some(&"token-1"));
}

#[test]
fn login_with_phone_when_already_authorized_is_idempotent() {
    let mut backend = LoginBackend::new(4);
    assert_eq!(backend.login_with_phone(true), finish(LoginState::LoggedIn, true));
    assert_eq!(backend.get_login_state(), Some(LoginState::LoggedIn));
    assert!(!backend.has_login_token());
    assert_eq!(backend.login_with_phone(true), finish(LoginState::LoggedIn, true));
    assert_eq!(backend.get_login_state(), Some(LoginState::LoggedIn));
}

#[test]
fn failed_code_request_changes_nothing() {
    let mut backend = LoginBackend::new(4);
    assert_eq!(backend.login_with_phone(false), AuthAction::RequestCode);
    assert_eq!(
        backend.login_code_requested(None),
        AuthAction::Fail(BackendError::Transport)
    );
    assert_eq!(backend.get_login_state(), None);
    assert!(!backend.has_login_token());
}

#[test]
fn wrong_code_keeps_the_token_and_the_right_code_signs_in() {
    let mut backend = LoginBackend::new(4);
    assert_eq!(backend.login_with_phone(false), AuthAction::RequestCode);
    assert_eq!(
        backend.login_code_requested(Some("token for +15550000")),
        finish(LoginState::CodeRequired, false)
    );

    assert_eq!(backend.provide_verify_code(false), AuthAction::SignIn);
    assert_eq!(
        backend.sign_in_finished(SignInOutcome::InvalidCode),
        finish(LoginState::WrongCode, false)
    );
    assert_eq!(backend.get_login_state(), Some(LoginState::WrongCode));
    assert_eq!(backend.get_login_token(), Some(&"token for +15550000"));

    assert_eq!(backend.provide_verify_code(false), AuthAction::SignIn);
    assert_eq!(backend.get_login_token(), Some(&"token for +15550000"));
    assert_eq!(
        backend.sign_in_finished(SignInOutcome::SignedIn(login_user(1))),
        finish(LoginState::LoggedIn, true)
    );
    assert_eq!(backend.get_login_state(), Some(LoginState::LoggedIn));
}

#[test]
fn code_that_needs_a_password_swaps_the_tokens() {
    let mut backend = LoginBackend::new(4);
    backend.login_with_phone(false);
    backend.login_code_requested(Some("login"));
    assert_eq!(backend.provide_verify_code(false), AuthAction::SignIn);
    assert_eq!(
        backend.sign_in_finished(SignInOutcome::PasswordRequired("challenge")),
        finish(LoginState::PasswordRequired, false)
    );
    assert_eq!(backend.get_login_state(), Some(LoginState::PasswordRequired));
    assert_eq!(backend.get_login_token(), None);
    assert_eq!(backend.get_password_token(), Some(&"challenge"));

    assert_eq!(backend.provide_password(false), AuthAction::CheckPassword);
    assert_eq!(backend.get_password_token(), Some(&"challenge"));
    assert_eq!(
        backend.password_checked(Some(login_user(1))),
        finish(LoginState::LoggedIn, true)
    );
    assert_eq!(backend.get_login_state(), Some(LoginState::LoggedIn));
    assert_eq!(backend.get_password_token(), None);
}

#[test]
fn failed_sign_in_changes_nothing() {
    let mut backend = LoginBackend::new(4);
    backend.login_with_phone(false);
    backend.login_code_requested(Some("login"));
    assert_eq!(backend.provide_verify_code(false), AuthAction::SignIn);
    assert_eq!(
        backend.sign_in_finished(SignInOutcome::Failed),
        AuthAction::Fail(BackendError::Transport)
    );
    assert_eq!(backend.get_login_state(), Some(LoginState::CodeRequired));
    assert_eq!(backend.get_login_token(), Some(&"login"));
    assert_eq!(backend.get_password_token(), None);
}

#[test]
fn verify_code_when_already_authorized_signs_in() {
    let mut backend = LoginBackend::new(4);
    assert_eq!(backend.provide_verify_code(true), finish(LoginState::LoggedIn, true));
    assert_eq!(backend.get_login_state(), Some(LoginState::LoggedIn));
}

#[test]
fn password_without_challenge_is_refused() {
    let mut backend = LoginBackend::new(4);
    backend.login_with_phone(false);
    backend.login_code_requested(Some("login"));
    assert_eq!(
        backend.provide_password(false),
        AuthAction::Fail(BackendError::PasswordNotRequired)
    );
    assert_eq!(
        backend.provide_password(true),
        AuthAction::Fail(BackendError::PasswordNotRequired)
    );
    assert_eq!(backend.get_login_state(), Some(LoginState::CodeRequired));
}

#[test]
fn password_before_any_login_step_is_refused() {
    let mut backend = LoginBackend::new(4);
    assert_eq!(
        backend.provide_password(false),
        AuthAction::Fail(BackendError::PasswordNotRequired)
    );
    assert_eq!(
        backend.provide_password(true),
        AuthAction::Fail(BackendError::PasswordNotRequired)
    );
    assert_eq!(backend.get_login_state(), None);
}

#[test]
fn password_after_sign_in_is_refused() {
    let mut backend = LoginBackend::new(4);
    backend.login_with_phone(true);
    assert_eq!(
        backend.provide_password(false),
        AuthAction::Fail(BackendError::PasswordNotRequired)
    );
    assert_eq!(backend.get_login_state(), Some(LoginState::LoggedIn));
}

#[test]
fn wrong_password_keeps_the_challenge() {
    let mut backend = LoginBackend::new(4);
    backend.login_with_phone(false);
    backend.login_code_requested(Some("login"));
    backend.provide_verify_code(false);
    backend.sign_in_finished(SignInOutcome::PasswordRequired("challenge"));
    assert_eq!(backend.provide_password(false), AuthAction::CheckPassword);
    assert_eq!(
        backend.password_checked(None),
        AuthAction::Fail(BackendError::Transport)
    );
    assert_eq!(backend.get_login_state(), Some(LoginState::PasswordRequired));
    assert_eq!(backend.get_password_token(), Some(&"challenge"));
    assert_eq!(backend.provide_password(false), AuthAction::CheckPassword);
}

#[test]
fn password_when_already_authorized_signs_in() {
    let mut backend = LoginBackend::new(4);
    backend.login_with_phone(false);
    backend.login_code_requested(Some("login"));
    backend.provide_verify_code(false);
    backend.sign_in_finished(SignInOutcome::PasswordRequired("challenge"));
    assert_eq!(backend.provide_password(true), finish(LoginState::LoggedIn, true));
    assert_eq!(backend.get_login_state(), Some(LoginState::LoggedIn));
}

#[test]
fn login_steps_leave_the_caches_alone() {
    let mut backend = LoginBackend::new(4);
    backend.insert_seen_packed_chat(&ChatHandle {
        kind: HandleKind::User,
        id: 5,
        access_hash: None,
    });
    backend.login_with_phone(false);
    backend.login_code_requested(Some("login"));
    backend.provide_verify_code(false);
    backend.sign_in_finished(SignInOutcome::SignedIn(login_user(1)));
    assert_eq!(
        backend.get_seen_packed_chat(5),
        Some(ChatHandle { kind: HandleKind::User, id: 5, access_hash: None })
    );
    assert_eq!(backend.available_permits(), 4);
}
