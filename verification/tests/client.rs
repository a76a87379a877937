use plextvapi::appstate::App;
use plextvapi::appstate::ClientAction;
use plextvapi::appstate::ClientEvent;
use plextvapi::appstate::LoginState;
use plextvapi::client::Client;
use plextvapi::errors::ApiError;
use plextvapi::errors::ApiErrors;
use plextvapi::pinlogin::LoginOutcome;
use plextvapi::pinlogin::PinAction;
use plextvapi::pinlogin::PinEvent;
use plextvapi::pinlogin::PinLogin;
use plextvapi::types::PinInfo;
use plextvapi::PlexTvClient;
use plextvapi::RequestError;
use plextvapi::PLEXTV;

fn client_with(state: LoginState, token: Option<&str>) -> Client {
    Client::new(App::new(state), PlexTvClient::new(PLEXTV, token.map(String::from)))
}

// A login whose PIN has come and whose link is yet to be shown.
fn with_pin(client: &mut Client) -> PinLogin {
    let mut login = PinLogin::new();
    let state = client.app().login_state;
    assert!(matches!(client.handle_pin_event(&mut login, PinEvent::Begin), PinAction::CreatePin(true)));
    assert!(matches!(client.handle_pin_event(&mut login, PinEvent::PinCreated), PinAction::ShowLink));
    assert_eq!(client.app().login_state, state);
    login
}

fn polled(token: Option<&str>) -> PinEvent {
    PinEvent::Polled(Ok(PinInfo { auth_token: token.map(String::from), ..PinInfo::default() }))
}

fn sent_token(client: &Client) -> Option<Vec<u8>> {
    client.plextv().client().headers().get("x-plex-token").map(|v| v.as_bytes().to_vec())
}

#[test]
fn a_new_client_holds_what_it_was_given() {
    let client = client_with(LoginState::LoggedOut, Some("kept"));
    assert_eq!(client.app().login_state, LoginState::LoggedOut);
    assert_eq!(client.plextv().token().as_deref(), Some("kept"));
    assert_eq!(sent_token(&client), None);
}

#[test]
fn startup_with_a_kept_token_signs_in_and_sends_the_token() {
    let mut client = client_with(LoginState::LoggedOut, Some("kept"));
    assert_eq!(client.handle_client_event(&ClientEvent::Startup), ClientAction::ResumeSession);
    assert_eq!(client.app().login_state, LoginState::LoggedIn);
    assert_eq!(sent_token(&client), Some(b"kept".to_vec()));
    assert_eq!(client.plextv().token().as_deref(), Some("kept"));
}

#[test]
fn startup_without_a_token_changes_nothing() {
    let mut client = client_with(LoginState::LoggedOut, None);
    assert_eq!(client.handle_client_event(&ClientEvent::Startup), ClientAction::Nothing);
    assert_eq!(client.app().login_state, LoginState::LoggedOut);
    assert_eq!(sent_token(&client), None);
}

#[test]
fn a_login_request_does_not_touch_the_account_client() {
    let mut client = client_with(LoginState::LoggedOut, Some("kept"));
    assert_eq!(client.handle_client_event(&ClientEvent::Login), ClientAction::RunLogin);
    assert_eq!(client.app().login_state, LoginState::LoggingIn);
    assert_eq!(sent_token(&client), None);
    assert_eq!(client.plextv().token().as_deref(), Some("kept"));
}

#[test]
fn a_token_from_a_login_is_installed_once() {
    let mut client = client_with(LoginState::LoggedOut, None);
    client.handle_client_event(&ClientEvent::Login);
    let mut login = with_pin(&mut client);
    assert!(matches!(client.handle_pin_event(&mut login, PinEvent::LinkShown), PinAction::Poll));
    assert_eq!(client.app().login_state, LoginState::LoggingIn);
    let mut installs = 0;
    for i in 0..8 {
        let event = if i == 4 { polled(Some("abc123")) } else { polled(None) };
        match client.handle_pin_event(&mut login, event) {
            PinAction::Install(token) => {
                assert_eq!(i, 4);
                assert_eq!(token, "abc123");
                installs += 1;
            },
            PinAction::WaitThenPoll(ms) => {
                assert!(i < 4);
                assert_eq!(ms, 1000);
                assert_eq!(client.app().login_state, LoginState::LoggingIn);
                assert_eq!(sent_token(&client), None);
            },
            PinAction::Stop => assert!(i > 4),
            _ => panic!("unexpected action"),
        }
    }
    assert_eq!(installs, 1);
    assert_eq!(login.outcome(), Some(LoginOutcome::Authenticated));
    assert_eq!(client.app().login_state, LoginState::LoggedIn);
    assert_eq!(client.plextv().token().as_deref(), Some("abc123"));
    assert_eq!(sent_token(&client), Some(b"abc123".to_vec()));
}

#[test]
fn a_new_token_replaces_a_kept_one() {
    let mut client = client_with(LoginState::LoggedOut, Some("old"));
    client.handle_client_event(&ClientEvent::Startup);
    client.handle_client_event(&ClientEvent::Login);
    let mut login = with_pin(&mut client);
    client.handle_pin_event(&mut login, PinEvent::LinkShown);
    assert_eq!(sent_token(&client), Some(b"old".to_vec()));
    client.handle_pin_event(&mut login, polled(Some("new")));
    assert_eq!(sent_token(&client), Some(b"new".to_vec()));
    assert_eq!(client.plextv().token().as_deref(), Some("new"));
    assert_eq!(client.plextv().client().headers().get_all("x-plex-token").iter().count(), 1);
}

#[test]
fn running_out_of_polls_signs_out_without_error() {
    let mut client = client_with(LoginState::LoggedOut, None);
    client.handle_client_event(&ClientEvent::Login);
    let mut login = with_pin(&mut client);
    client.handle_pin_event(&mut login, PinEvent::LinkShown);
    for _ in 0..127 {
        assert!(matches!(
            client.handle_pin_event(&mut login, polled(None)),
            PinAction::WaitThenPoll(1000)
        ));
        assert_eq!(client.app().login_state, LoginState::LoggingIn);
    }
    assert!(matches!(client.handle_pin_event(&mut login, polled(None)), PinAction::Stop));
    assert_eq!(login.outcome(), Some(LoginOutcome::Exhausted));
    assert_eq!(client.app().login_state, LoginState::LoggedOut);
    assert!(!client.plextv().has_token());
    assert_eq!(sent_token(&client), None);
}

#[test]
fn a_failed_poll_shows_the_error_and_keeps_the_token_as_it_was() {
    let mut client = client_with(LoginState::LoggedOut, Some("kept"));
    client.handle_client_event(&ClientEvent::Startup);
    client.handle_client_event(&ClientEvent::Login);
    let mut login = with_pin(&mut client);
    client.handle_pin_event(&mut login, PinEvent::LinkShown);
    let failure = RequestError::Error(ApiErrors { errors: vec![ApiError::PinNotFoundOrExpired] });
    assert!(matches!(
        client.handle_pin_event(&mut login, PinEvent::Polled(Err(failure))),
        PinAction::Abort(RequestError::Error(_))
    ));
    assert_eq!(client.app().login_state, LoginState::Error);
    assert_eq!(client.plextv().token().as_deref(), Some("kept"));
    assert_eq!(sent_token(&client), Some(b"kept".to_vec()));
}

#[test]
fn a_link_that_cannot_be_shown_shows_the_error() {
    let mut client = client_with(LoginState::LoggedOut, None);
    client.handle_client_event(&ClientEvent::Login);
    let mut login = with_pin(&mut client);
    assert!(matches!(client.handle_pin_event(&mut login, PinEvent::LinkFailed), PinAction::Stop));
    assert_eq!(client.app().login_state, LoginState::Error);
}

#[test]
fn events_after_the_end_of_a_login_do_not_touch_the_client() {
    let mut client = client_with(LoginState::LoggedOut, None);
    client.handle_client_event(&ClientEvent::Login);
    let mut login = with_pin(&mut client);
    client.handle_pin_event(&mut login, PinEvent::LinkShown);
    client.handle_pin_event(&mut login, polled(Some("abc123")));
    client.logout();
    assert_eq!(client.app().login_state, LoginState::LoggedOut);
    assert!(matches!(client.handle_pin_event(&mut login, polled(Some("late"))), PinAction::Stop));
    assert_eq!(client.app().login_state, LoginState::LoggedOut);
    assert!(!client.plextv().has_token());
    assert_eq!(sent_token(&client), None);
}

#[test]
fn unauthorized_drops_the_token_and_signs_out() {
    let mut client = client_with(LoginState::LoggedOut, Some("kept"));
    client.handle_client_event(&ClientEvent::Startup);
    assert_eq!(sent_token(&client), Some(b"kept".to_vec()));
    let errors = ApiErrors { errors: vec![ApiError::OverRateLimit, ApiError::Unauthorized] };
    assert!(client.handle_api_error(&errors));
    assert_eq!(client.app().login_state, LoginState::LoggedOut);
    assert!(!client.plextv().has_token());
    assert_eq!(sent_token(&client), None);
    assert_eq!(client.plextv().client().headers().len(), 4);
}

#[test]
fn other_errors_change_nothing() {
    let mut client = client_with(LoginState::LoggedOut, Some("kept"));
    client.handle_client_event(&ClientEvent::Startup);
    let errors = ApiErrors { errors: vec![ApiError::OverRateLimit, ApiError::NotFound] };
    assert!(!client.handle_api_error(&errors));
    assert!(!client.handle_api_error(&ApiErrors { errors: vec![] }));
    assert_eq!(client.app().login_state, LoginState::LoggedIn);
    assert_eq!(client.plextv().token().as_deref(), Some("kept"));
    assert_eq!(sent_token(&client), Some(b"kept".to_vec()));
}

#[test]
fn logout_drops_the_token() {
    let mut client = client_with(LoginState::LoggedOut, Some("kept"));
    client.handle_client_event(&ClientEvent::Startup);
    client.logout();
    assert_eq!(client.app().login_state, LoginState::LoggedOut);
    assert!(!client.plextv().has_token());
    assert_eq!(sent_token(&client), None);
}

#[test]
fn a_pin_that_does_not_come_shows_the_error() {
    let mut client = client_with(LoginState::LoggedOut, Some("kept"));
    client.handle_client_event(&ClientEvent::Login);
    let mut login = PinLogin::new();
    client.handle_pin_event(&mut login, PinEvent::Begin);
    assert_eq!(client.app().login_state, LoginState::LoggingIn);
    let failure = RequestError::Error(ApiErrors { errors: vec![ApiError::OverRateLimit] });
    assert!(matches!(
        client.handle_pin_event(&mut login, PinEvent::PinFailed(failure)),
        PinAction::Abort(RequestError::Error(_))
    ));
    assert_eq!(login.outcome(), Some(LoginOutcome::Failed));
    assert_eq!(client.app().login_state, LoginState::Error);
    assert_eq!(client.plextv().token().as_deref(), Some("kept"));
}

#[test]
fn a_login_request_goes_ahead_with_a_kept_token_that_cannot_be_sent() {
    let mut client = client_with(LoginState::LoggedOut, Some("two\nlines"));
    assert_eq!(client.handle_client_event(&ClientEvent::Login), ClientAction::RunLogin);
    assert_eq!(client.app().login_state, LoginState::LoggingIn);
    assert_eq!(client.plextv().token().as_deref(), Some("two\nlines"));
    assert_eq!(sent_token(&client), None);
}

#[test]
fn a_token_that_comes_after_the_end_is_not_looked_at() {
    let mut client = client_with(LoginState::LoggedOut, None);
    client.handle_client_event(&ClientEvent::Login);
    let mut login = with_pin(&mut client);
    assert!(matches!(client.handle_pin_event(&mut login, PinEvent::LinkFailed), PinAction::Stop));
    assert!(matches!(
        client.handle_pin_event(&mut login, polled(Some("two\nlines"))),
        PinAction::Stop
    ));
    assert_eq!(client.app().login_state, LoginState::Error);
    assert!(!client.plextv().has_token());
}
