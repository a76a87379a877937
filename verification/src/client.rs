//! The client: the account client together with the login state, and the
//! rules that tie the two.
//!
//! A token that a login brings is installed in the account client at once;
//! a call that the service refuses as unauthorized drops the token and
//! signs the user out. Keeping the token for the next run, and telling the
//! presentation layer, is left to the caller.

use vstd::prelude::*;
use crate::apiclient::default_headers;
use crate::appstate::action_for;
use crate::appstate::state_after;
use crate::appstate::state_after_login;
use crate::appstate::App;
use crate::appstate::ClientAction;
use crate::appstate::ClientEvent;
use crate::appstate::LoginState;
use crate::errors::ApiError;
use crate::errors::ApiErrors;
use crate::headers::is_header_text;
use crate::pinlogin::after_polls;
use crate::pinlogin::lemma_after_polls_split;
use crate::pinlogin::lemma_finished_absorbs;
use crate::pinlogin::lemma_polls_without_token;
use crate::pinlogin::next_action;
use crate::pinlogin::next_state;
use crate::pinlogin::outcome_of;
use crate::pinlogin::polling_start;
use crate::pinlogin::PinAction;
use crate::pinlogin::PinActionView;
use crate::pinlogin::PinEvent;
use crate::pinlogin::PinEventView;
use crate::pinlogin::PinLogin;
use crate::pinlogin::PinLoginView;
use crate::pinlogin::PinState;
use crate::pinlogin::MAX_TRIES;
use crate::plextvclient::PlexTvClient;
use crate::plextvclient::PlexTvClientView;
use crate::plextvclient::CLIENT_ID;

verus! {

pub struct ClientView {
    pub login_state: LoginState,
    pub account: PlexTvClientView,
}

/// The client: what the user sees of the session, and the account client
/// behind it.
#[derive(Debug)]
pub struct Client {
    app: App,
    plextv: PlexTvClient,
}

impl View for Client {
    type V = ClientView;

    closed spec fn view(&self) -> ClientView {
        ClientView { login_state: self.app.login_state, account: self.plextv@ }
    }
}

/// The account client after `token` took the place of its token: the
/// header set is the one built for `token`, whatever it was before.
pub open spec fn account_with_token(
    account: PlexTvClientView,
    token: Option<Seq<char>>,
) -> PlexTvClientView {
    PlexTvClientView {
        token,
        base_url: account.base_url,
        headers: default_headers(CLIENT_ID@, token),
    }
}

/// The client after an event from the presentation layer. At startup a
/// kept token goes into the headers; nothing else touches the account
/// client.
pub open spec fn after_client_event(c: ClientView, event: ClientEvent) -> ClientView {
    let has_token = c.account.token is Some;
    ClientView {
        login_state: state_after(c.login_state, event, has_token),
        account: if event == ClientEvent::Startup && has_token {
            account_with_token(c.account, c.account.token)
        } else {
            c.account
        },
    }
}

/// The client after one step of a login that stood at `before`. Only the
/// step that ends the login changes the client: the login state becomes
/// what the end of the login asks for, and a token that came is installed.
pub open spec fn after_pin_event(c: ClientView, before: PinLoginView, event: PinEventView) -> ClientView {
    match (outcome_of(before.state), outcome_of(next_state(before, event).state)) {
        (None, Some(outcome)) => ClientView {
            login_state: state_after_login(outcome),
            account: match next_action(before, event) {
                PinActionView::Install(token) => account_with_token(c.account, Some(token)),
                _ => c.account,
            },
        },
        _ => c,
    }
}

/// The client after a call failed with `errors`. `Unauthorized` drops the
/// token and signs the user out; no other error changes anything.
pub open spec fn after_api_errors(c: ClientView, errors: Seq<ApiError>) -> ClientView {
    if errors.contains(ApiError::Unauthorized) {
        ClientView {
            login_state: LoginState::LoggedOut,
            account: account_with_token(c.account, None),
        }
    } else {
        c
    }
}

impl Client {
    /// The client's header set carries no token but the current one.
    pub open spec fn wf(&self) -> bool {
        ||| self@.account.headers == default_headers(CLIENT_ID@, None)
        ||| self@.account.headers == default_headers(CLIENT_ID@, self@.account.token)
    }

    pub fn new(app: App, plextv: PlexTvClient) -> (r: Self)
        requires
            plextv.wf(),
        ensures
            r@.login_state == app.login_state,
            r@.account == plextv@,
            r.wf(),
    {
        Self { app, plextv }
    }

    pub fn app(&self) -> (r: &App)
        ensures
            r.login_state == self@.login_state,
    {
        &self.app
    }

    pub fn plextv(&self) -> (r: &PlexTvClient)
        ensures
            r@ == self@.account,
    {
        &self.plextv
    }

    /// Takes an event from the presentation layer and says what to do. At
    /// startup a kept token signs the user in at once and goes into the
    /// headers, and the caller is asked to fetch the profile; a request to
    /// log in asks the caller to run a login. Only at startup does a kept
    /// token have to be fit for a header.
    pub fn handle_client_event(&mut self, event: &ClientEvent) -> (action: ClientAction)
        requires
            *event == ClientEvent::Startup ==> (old(self)@.account.token matches Some(t)
                ==> is_header_text(t)),
        ensures
            final(self)@ == after_client_event(old(self)@, *event),
            action == action_for(*event, old(self)@.account.token is Some),
            old(self).wf() ==> final(self).wf(),
    {
        let action = self.app.handle_client_event(event, self.plextv.has_token());
        match action {
            ClientAction::ResumeSession => {
                self.plextv.reset_headers();
            },
            _ => {},
        }
        action
    }

    /// Takes one event of a login, steps the login and says what to do.
    /// Where the event brings a token, the token is installed here, and the
    /// action hands it to the caller for keeping. Only a token that comes
    /// while the login is polling has to be fit for a header: no other is
    /// ever installed.
    pub fn handle_pin_event(&mut self, login: &mut PinLogin, event: PinEvent) -> (action: PinAction)
        requires
            old(login).wf(),
            old(login)@.state == PinState::Polling ==> (event@ matches PinEventView::Status(
                Some(t),
            ) ==> is_header_text(t)),
        ensures
            final(login).wf(),
            final(login)@ == next_state(old(login)@, event@),
            action@ == next_action(old(login)@, event@),
            final(self)@ == after_pin_event(old(self)@, old(login)@, event@),
            old(self).wf() ==> final(self).wf(),
    {
        let before = login.outcome();
        let action = login.step(event);
        if before.is_none() {
            match login.outcome() {
                Some(outcome) => {
                    self.app.login_finished(outcome);
                    match &action {
                        PinAction::Install(token) => {
                            self.plextv.set_token(Some(token.clone()));
                        },
                        _ => {},
                    }
                },
                None => {},
            }
        }
        action
    }

    /// Reacts to the errors of a failed call, and says whether the token
    /// was dropped.
    pub fn handle_api_error(&mut self, errors: &ApiErrors) -> (dropped: bool)
        ensures
            dropped == errors.errors@.contains(ApiError::Unauthorized),
            final(self)@ == after_api_errors(old(self)@, errors.errors@),
            old(self).wf() ==> final(self).wf(),
    {
        if self.app.handle_api_errors(errors) {
            self.plextv.set_token(None);
            true
        } else {
            false
        }
    }

    /// Signs the user out at the user's own wish: the token is dropped.
    pub fn logout(&mut self)
        ensures
            final(self)@.login_state == LoginState::LoggedOut,
            final(self)@.account == account_with_token(old(self)@.account, None),
            final(self).wf(),
    {
        self.app.logout();
        self.plextv.set_token(None);
    }
}

/// The client after a run of polls that all succeeded, given the token that
/// each brought, if any, for a login that stood at `s` before the run.
pub open spec fn client_after_polls(
    c: ClientView,
    s: PinLoginView,
    tokens: Seq<Option<Seq<char>>>,
) -> ClientView
    decreases tokens.len(),
{
    if tokens.len() == 0 {
        c
    } else {
        after_pin_event(
            client_after_polls(c, s, tokens.drop_last()),
            after_polls(s, tokens.drop_last()),
            PinEventView::Status(tokens.last()),
        )
    }
}

/// While the polls bring no token and the limit is not reached, the client
/// stays as it is.
pub proof fn lemma_client_waits(c: ClientView, tokens: Seq<Option<Seq<char>>>)
    requires
        tokens.len() < MAX_TRIES,
        forall|i: int| 0 <= i < tokens.len() ==> tokens[i] is None,
    ensures
        client_after_polls(c, polling_start(), tokens) == c,
    decreases tokens.len(),
{
    if tokens.len() > 0 {
        lemma_client_waits(c, tokens.drop_last());
        lemma_polls_without_token(tokens.drop_last());
        lemma_polls_without_token(tokens);
    }
}

/// Once the login has ended after the first `k` polls, later polls leave
/// the client as those first polls left it.
pub proof fn lemma_client_settled(
    c: ClientView,
    tokens: Seq<Option<Seq<char>>>,
    k: int,
)
    requires
        0 <= k <= tokens.len(),
        outcome_of(after_polls(polling_start(), tokens.take(k)).state) is Some,
    ensures
        client_after_polls(c, polling_start(), tokens) == client_after_polls(
            c,
            polling_start(),
            tokens.take(k),
        ),
    decreases tokens.len() - k,
{
    if k == tokens.len() {
        assert(tokens.take(k) == tokens);
    } else {
        let front = tokens.drop_last();
        assert(front.take(k) == tokens.take(k));
        lemma_client_settled(c, front, k);
        lemma_after_polls_split(polling_start(), front, k);
        lemma_finished_absorbs(after_polls(polling_start(), tokens.take(k)), front.skip(k));
    }
}

/// Exhaustion, as the client shows it: where none of the first polls up to
/// the limit brings a token, the user ends signed out and the account
/// client is as it was, whatever the later answers hold. No token was ever
/// installed.
pub proof fn lemma_client_exhausted(c: ClientView, tokens: Seq<Option<Seq<char>>>)
    requires
        tokens.len() >= MAX_TRIES,
        forall|i: int| 0 <= i < MAX_TRIES ==> tokens[i] is None,
    ensures
        client_after_polls(c, polling_start(), tokens) == (ClientView {
            login_state: LoginState::LoggedOut,
            account: c.account,
        }),
{
    let limit = MAX_TRIES as int;
    let head = tokens.take(limit);
    let before = head.drop_last();
    lemma_polls_without_token(before);
    lemma_client_waits(c, before);
    lemma_client_settled(c, tokens, limit);
}

/// The first token, as the client shows it: where the poll numbered `k`,
/// counted from 1 and within the limit, is the first to bring a token, the
/// user ends signed in with exactly that token installed, whatever the
/// later answers hold.
pub proof fn lemma_client_signed_in(c: ClientView, tokens: Seq<Option<Seq<char>>>, k: int)
    requires
        1 <= k <= MAX_TRIES,
        k <= tokens.len(),
        forall|i: int| 0 <= i < k - 1 ==> tokens[i] is None,
        tokens[k - 1] is Some,
    ensures
        client_after_polls(c, polling_start(), tokens) == (ClientView {
            login_state: LoginState::LoggedIn,
            account: account_with_token(c.account, tokens[k - 1]),
        }),
{
    let head = tokens.take(k);
    let before = head.drop_last();
    lemma_polls_without_token(before);
    lemma_client_waits(c, before);
    lemma_client_settled(c, tokens, k);
}

} // verus!
