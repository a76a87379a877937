//! Signing in by PIN.
//!
//! The caller creates a PIN, shows its link to the user and then asks the
//! service once a second whether the user has confirmed it. This file holds
//! the decisions of that loop as a state machine: the caller does the
//! waiting and the asking, hands in what happened, and is told what to do
//! next. The machine begins before the PIN exists, so that it is the
//! machine that asks for the PIN, and that ends the login where none comes.

use vstd::prelude::*;
use crate::apiclient::opt_text;
use crate::plextvclient::RequestError;
use crate::types::PinInfo;

verus! {

/// The most polls that one login makes without seeing a token.
pub const MAX_TRIES: u16 = 128;

/// The pause between a poll without a token and the next poll, in
/// milliseconds.
pub const POLL_INTERVAL_MS: u64 = 1000;

/// Where a login by PIN stands.
#[derive(Debug, Clone, Copy, PartialEq, Eq, Structural)]
pub enum PinState {
    /// Nothing has been asked of the service yet.
    Idle,
    /// A PIN has been asked for and has not come yet.
    Requested,
    /// The PIN exists; its link has not been shown to the user yet.
    Created,
    /// The link is with the user and the PIN is being polled.
    Polling,
    /// A poll brought a token.
    Authenticated,
    /// Every allowed poll was made and none brought a token. This is an
    /// ordinary end, not an error.
    Exhausted,
    /// The login ended without an answer: no PIN came, the link could not
    /// be shown, or a poll failed.
    Aborted,
}

/// What happened since the last step.
#[derive(Debug)]
pub enum PinEvent {
    /// The user asked to sign in.
    Begin,
    /// The service created the PIN.
    PinCreated,
    /// The service did not create the PIN.
    PinFailed(RequestError),
    /// The link was shown to the user.
    LinkShown,
    /// The link could not be shown to the user.
    LinkFailed,
    /// A poll ended, with the PIN's status or with a failure.
    Polled(Result<PinInfo, RequestError>),
}

/// How a login ended.
#[derive(Debug, Clone, Copy, PartialEq, Eq, Structural)]
pub enum LoginOutcome {
    /// A token came.
    Authenticated,
    /// The polls ran out. The user is not signed in, and nothing went wrong.
    Exhausted,
    /// The login broke off.
    Failed,
}

/// How a login in state `state` ended, if it has ended.
pub open spec fn outcome_of(state: PinState) -> Option<LoginOutcome> {
    match state {
        PinState::Idle => None,
        PinState::Requested => None,
        PinState::Created => None,
        PinState::Polling => None,
        PinState::Authenticated => Some(LoginOutcome::Authenticated),
        PinState::Exhausted => Some(LoginOutcome::Exhausted),
        PinState::Aborted => Some(LoginOutcome::Failed),
    }
}

/// What the caller has to do next.
#[derive(Debug)]
pub enum PinAction {
    /// Ask the service for a PIN: a strong one where the flag is set, for
    /// a link that a browser completes.
    CreatePin(bool),
    /// Show the link of the PIN to the user.
    ShowLink,
    /// Poll the PIN now.
    Poll,
    /// Wait this many milliseconds, then poll the PIN again.
    WaitThenPoll(u64),
    /// Keep the token, install it in the account client and tell the
    /// observers that the user is signed in.
    Install(String),
    /// Do nothing more.
    Stop,
    /// Give up and hand this failure to whoever asked for the login.
    Abort(RequestError),
}

pub enum PinEventView {
    Begin,
    PinCreated,
    PinFailed(RequestError),
    LinkShown,
    LinkFailed,
    Status(Option<Seq<char>>),
    Failed(RequestError),
}

pub enum PinActionView {
    CreatePin(bool),
    ShowLink,
    Poll,
    WaitThenPoll(u64),
    Install(Seq<char>),
    Stop,
    Abort(RequestError),
}

pub struct PinLoginView {
    pub state: PinState,
    pub attempts: nat,
}

impl View for PinEvent {
    type V = PinEventView;

    open spec fn view(&self) -> PinEventView {
        match *self {
            PinEvent::Begin => PinEventView::Begin,
            PinEvent::PinCreated => PinEventView::PinCreated,
            PinEvent::PinFailed(e) => PinEventView::PinFailed(e),
            PinEvent::LinkShown => PinEventView::LinkShown,
            PinEvent::LinkFailed => PinEventView::LinkFailed,
            PinEvent::Polled(Ok(status)) => PinEventView::Status(opt_text(status.auth_token)),
            PinEvent::Polled(Err(e)) => PinEventView::Failed(e),
        }
    }
}

impl View for PinAction {
    type V = PinActionView;

    open spec fn view(&self) -> PinActionView {
        match *self {
            PinAction::CreatePin(strong) => PinActionView::CreatePin(strong),
            PinAction::ShowLink => PinActionView::ShowLink,
            PinAction::Poll => PinActionView::Poll,
            PinAction::WaitThenPoll(ms) => PinActionView::WaitThenPoll(ms),
            PinAction::Install(token) => PinActionView::Install(token@),
            PinAction::Stop => PinActionView::Stop,
            PinAction::Abort(e) => PinActionView::Abort(e),
        }
    }
}

/// The state that follows `s` on `e`.
pub open spec fn next_state(s: PinLoginView, e: PinEventView) -> PinLoginView {
    match (s.state, e) {
        (PinState::Idle, PinEventView::Begin) => PinLoginView {
            state: PinState::Requested,
            attempts: 0,
        },
        (PinState::Requested, PinEventView::PinCreated) => PinLoginView {
            state: PinState::Created,
            attempts: 0,
        },
        (PinState::Requested, PinEventView::PinFailed(_)) => PinLoginView {
            state: PinState::Aborted,
            attempts: 0,
        },
        (PinState::Created, PinEventView::LinkShown) => PinLoginView {
            state: PinState::Polling,
            attempts: 0,
        },
        (PinState::Created, PinEventView::LinkFailed) => PinLoginView {
            state: PinState::Aborted,
            attempts: 0,
        },
        (PinState::Polling, PinEventView::Status(Some(_))) => PinLoginView {
            state: PinState::Authenticated,
            attempts: s.attempts,
        },
        (PinState::Polling, PinEventView::Status(None)) => PinLoginView {
            state: if s.attempts + 1 >= MAX_TRIES {
                PinState::Exhausted
            } else {
                PinState::Polling
            },
            attempts: s.attempts + 1,
        },
        (PinState::Polling, PinEventView::Failed(_)) => PinLoginView {
            state: PinState::Aborted,
            attempts: s.attempts,
        },
        _ => s,
    }
}

/// What the caller has to do when `e` happens in `s`.
pub open spec fn next_action(s: PinLoginView, e: PinEventView) -> PinActionView {
    match (s.state, e) {
        (PinState::Idle, PinEventView::Begin) => PinActionView::CreatePin(true),
        (PinState::Requested, PinEventView::PinCreated) => PinActionView::ShowLink,
        (PinState::Requested, PinEventView::PinFailed(e)) => PinActionView::Abort(e),
        (PinState::Created, PinEventView::LinkShown) => PinActionView::Poll,
        (PinState::Polling, PinEventView::Status(Some(token))) => PinActionView::Install(token),
        (PinState::Polling, PinEventView::Status(None)) => if s.attempts + 1 >= MAX_TRIES {
            PinActionView::Stop
        } else {
            PinActionView::WaitThenPoll(POLL_INTERVAL_MS)
        },
        (PinState::Polling, PinEventView::Failed(e)) => PinActionView::Abort(e),
        _ => PinActionView::Stop,
    }
}

/// The state after a run of polls that all succeeded, given the token that
/// each brought, if any.
pub open spec fn after_polls(s: PinLoginView, tokens: Seq<Option<Seq<char>>>) -> PinLoginView
    decreases tokens.len(),
{
    if tokens.len() == 0 {
        s
    } else {
        next_state(after_polls(s, tokens.drop_last()), PinEventView::Status(tokens.last()))
    }
}

/// The state in which a login begins.
pub open spec fn fresh() -> PinLoginView {
    PinLoginView { state: PinState::Idle, attempts: 0 }
}

/// The state in which polling begins.
pub open spec fn polling_start() -> PinLoginView {
    PinLoginView { state: PinState::Polling, attempts: 0 }
}

/// One login by PIN: its state and the number of polls that brought no
/// token.
#[derive(Debug)]
pub struct PinLogin {
    state: PinState,
    attempts: u16,
}

impl View for PinLogin {
    type V = PinLoginView;

    closed spec fn view(&self) -> PinLoginView {
        PinLoginView { state: self.state, attempts: self.attempts as nat }
    }
}

/// The count of polls fits the state.
pub open spec fn view_wf(s: PinLoginView) -> bool {
    &&& s.attempts <= MAX_TRIES
    &&& s.state == PinState::Idle ==> s.attempts == 0
    &&& s.state == PinState::Requested ==> s.attempts == 0
    &&& s.state == PinState::Created ==> s.attempts == 0
    &&& s.state == PinState::Polling ==> s.attempts < MAX_TRIES
    &&& s.state == PinState::Exhausted ==> s.attempts == MAX_TRIES
}

impl PinLogin {
    pub open spec fn wf(&self) -> bool {
        view_wf(self@)
    }

    /// A login that has not begun: `Begin` is its first event.
    pub fn new() -> (r: Self)
        ensures
            r@ == fresh(),
            r.wf(),
    {
        Self { state: PinState::Idle, attempts: 0 }
    }

    pub fn state(&self) -> (r: PinState)
        ensures
            r == self@.state,
    {
        self.state
    }

    /// The number of polls so far that brought no token.
    pub fn attempts(&self) -> (r: u16)
        ensures
            r == self@.attempts,
    {
        self.attempts
    }

    /// Whether the login has ended, in whichever way.
    pub fn is_finished(&self) -> (r: bool)
        ensures
            r == outcome_of(self@.state) is Some,
    {
        match self.state {
            PinState::Authenticated => true,
            PinState::Exhausted => true,
            PinState::Aborted => true,
            _ => false,
        }
    }

    /// How the login ended, or nothing while it is still going on.
    pub fn outcome(&self) -> (r: Option<LoginOutcome>)
        ensures
            r == outcome_of(self@.state),
    {
        match self.state {
            PinState::Idle => None,
            PinState::Requested => None,
            PinState::Created => None,
            PinState::Polling => None,
            PinState::Authenticated => Some(LoginOutcome::Authenticated),
            PinState::Exhausted => Some(LoginOutcome::Exhausted),
            PinState::Aborted => Some(LoginOutcome::Failed),
        }
    }

    /// Takes one event and says what to do next. An event that does not fit
    /// the state changes nothing and asks for nothing.
    pub fn step(&mut self, event: PinEvent) -> (action: PinAction)
        requires
            old(self).wf(),
        ensures
            final(self).wf(),
            final(self)@ == next_state(old(self)@, event@),
            action@ == next_action(old(self)@, event@),
    {
        match self.state {
            PinState::Idle => match event {
                PinEvent::Begin => {
                    self.state = PinState::Requested;
                    PinAction::CreatePin(true)
                },
                _ => PinAction::Stop,
            },
            PinState::Requested => match event {
                PinEvent::PinCreated => {
                    self.state = PinState::Created;
                    PinAction::ShowLink
                },
                PinEvent::PinFailed(e) => {
                    self.state = PinState::Aborted;
                    PinAction::Abort(e)
                },
                _ => PinAction::Stop,
            },
            PinState::Created => match event {
                PinEvent::LinkShown => {
                    self.state = PinState::Polling;
                    PinAction::Poll
                },
                PinEvent::LinkFailed => {
                    self.state = PinState::Aborted;
                    PinAction::Stop
                },
                _ => PinAction::Stop,
            },
            PinState::Polling => match event {
                PinEvent::Polled(Ok(status)) => match status.auth_token {
                    Some(token) => {
                        self.state = PinState::Authenticated;
                        PinAction::Install(token)
                    },
                    None => {
                        self.attempts = self.attempts + 1;
                        if self.attempts >= MAX_TRIES {
                            self.state = PinState::Exhausted;
                            PinAction::Stop
                        } else {
                            PinAction::WaitThenPoll(POLL_INTERVAL_MS)
                        }
                    },
                },
                PinEvent::Polled(Err(e)) => {
                    self.state = PinState::Aborted;
                    PinAction::Abort(e)
                },
                _ => PinAction::Stop,
            },
            _ => PinAction::Stop,
        }
    }
}

/// How a login opens: it asks for a strong PIN first, shows the link once
/// the PIN has come, and begins to poll once the link is shown. Where no
/// PIN comes, or the link cannot be shown, the login ends at once and
/// nothing is polled.
pub proof fn lemma_login_opens(e: RequestError)
    ensures
        next_action(fresh(), PinEventView::Begin) == PinActionView::CreatePin(true),
        next_action(next_state(fresh(), PinEventView::Begin), PinEventView::PinCreated)
            == PinActionView::ShowLink,
        next_action(
            next_state(next_state(fresh(), PinEventView::Begin), PinEventView::PinCreated),
            PinEventView::LinkShown,
        ) == PinActionView::Poll,
        next_state(
            next_state(next_state(fresh(), PinEventView::Begin), PinEventView::PinCreated),
            PinEventView::LinkShown,
        ) == polling_start(),
        next_action(next_state(fresh(), PinEventView::Begin), PinEventView::PinFailed(e))
            == PinActionView::Abort(e),
        next_state(next_state(fresh(), PinEventView::Begin), PinEventView::PinFailed(e)).state
            == PinState::Aborted,
        next_state(
            next_state(next_state(fresh(), PinEventView::Begin), PinEventView::PinCreated),
            PinEventView::LinkFailed,
        ).state == PinState::Aborted,
{
}

/// Polls without a token are counted one by one: after `n` of them, fewer
/// than the limit, the login is still polling and has counted `n`.
pub proof fn lemma_polls_without_token(tokens: Seq<Option<Seq<char>>>)
    requires
        tokens.len() < MAX_TRIES,
        forall|i: int| 0 <= i < tokens.len() ==> tokens[i] is None,
    ensures
        after_polls(polling_start(), tokens) == (PinLoginView {
            state: PinState::Polling,
            attempts: tokens.len(),
        }),
    decreases tokens.len(),
{
    if tokens.len() > 0 {
        lemma_polls_without_token(tokens.drop_last());
    }
}

/// A state in which the login has ended stays as it is, whatever comes.
pub proof fn lemma_finished_stays(s: PinLoginView, e: PinEventView)
    requires
        outcome_of(s.state) is Some,
    ensures
        next_state(s, e) == s,
        next_action(s, e) == PinActionView::Stop,
{
}

/// Polls after the end change nothing.
pub proof fn lemma_finished_absorbs(s: PinLoginView, tokens: Seq<Option<Seq<char>>>)
    requires
        outcome_of(s.state) is Some,
    ensures
        after_polls(s, tokens) == s,
    decreases tokens.len(),
{
    if tokens.len() > 0 {
        lemma_finished_absorbs(s, tokens.drop_last());
    }
}

/// A run of polls is the run of its first part followed by the rest.
pub proof fn lemma_after_polls_split(s: PinLoginView, tokens: Seq<Option<Seq<char>>>, k: int)
    requires
        0 <= k <= tokens.len(),
    ensures
        after_polls(s, tokens) == after_polls(
            after_polls(s, tokens.take(k)),
            tokens.skip(k),
        ),
    decreases tokens.len() - k,
{
    if k == tokens.len() {
        assert(tokens.take(k) == tokens);
    } else {
        lemma_after_polls_split(s, tokens.drop_last(), k);
        assert(tokens.drop_last().take(k) == tokens.take(k));
        assert(tokens.drop_last().skip(k) == tokens.skip(k).drop_last());
    }
}

/// Exhaustion: where none of the first polls up to the limit brings a
/// token, every poll before the last allowed one asks for a wait and
/// another poll, the last allowed one asks to stop, and the login is then
/// exhausted at exactly the limit, however many more answers stand ready.
/// It is never authenticated on the way.
pub proof fn lemma_exhausted_at_limit(tokens: Seq<Option<Seq<char>>>)
    requires
        tokens.len() >= MAX_TRIES,
        forall|i: int| 0 <= i < MAX_TRIES ==> tokens[i] is None,
    ensures
        after_polls(polling_start(), tokens) == (PinLoginView {
            state: PinState::Exhausted,
            attempts: MAX_TRIES as nat,
        }),
        forall|j: int|
            0 <= j < MAX_TRIES - 1 ==> #[trigger] next_action(
                after_polls(polling_start(), tokens.take(j)),
                PinEventView::Status(tokens[j]),
            ) == PinActionView::WaitThenPoll(POLL_INTERVAL_MS),
        next_action(
            after_polls(polling_start(), tokens.take(MAX_TRIES - 1)),
            PinEventView::Status(tokens[MAX_TRIES - 1]),
        ) == PinActionView::Stop,
        forall|k: int|
            0 <= k <= tokens.len() ==> (#[trigger] after_polls(
                polling_start(),
                tokens.take(k),
            )).state != PinState::Authenticated,
{
    let limit = MAX_TRIES as int;
    let head = tokens.take(limit);
    let before = head.drop_last();
    lemma_polls_without_token(before);
    assert(before == tokens.take(limit - 1));
    let end = PinLoginView { state: PinState::Exhausted, attempts: MAX_TRIES as nat };
    lemma_after_polls_split(polling_start(), tokens, limit);
    lemma_finished_absorbs(end, tokens.skip(limit));
    assert forall|j: int| 0 <= j < MAX_TRIES - 1 implies #[trigger] next_action(
        after_polls(polling_start(), tokens.take(j)),
        PinEventView::Status(tokens[j]),
    ) == PinActionView::WaitThenPoll(POLL_INTERVAL_MS) by {
        lemma_polls_without_token(tokens.take(j));
    }
    assert forall|k: int| 0 <= k <= tokens.len() implies (#[trigger] after_polls(
        polling_start(),
        tokens.take(k),
    )).state != PinState::Authenticated by {
        let part = tokens.take(k);
        if k < limit {
            lemma_polls_without_token(part);
        } else {
            lemma_after_polls_split(polling_start(), part, limit);
            assert(part.take(limit) == head);
            lemma_finished_absorbs(end, part.skip(limit));
        }
    }
}

/// The first token ends the login: where the poll numbered `k`, counted
/// from 1 and within the limit, is the first to bring a token, every poll
/// before it asks for a wait and another poll, the poll itself asks to
/// install that token, and the login is authenticated after exactly `k`
/// polls. Whatever is handed in after that asks for nothing and changes
/// nothing: the token is installed once.
pub proof fn lemma_first_token_wins(tokens: Seq<Option<Seq<char>>>, k: int)
    requires
        1 <= k <= MAX_TRIES,
        k <= tokens.len(),
        forall|i: int| 0 <= i < k - 1 ==> tokens[i] is None,
        tokens[k - 1] is Some,
    ensures
        forall|j: int|
            0 <= j < k - 1 ==> #[trigger] next_action(
                after_polls(polling_start(), tokens.take(j)),
                PinEventView::Status(tokens[j]),
            ) == PinActionView::WaitThenPoll(POLL_INTERVAL_MS),
        next_action(
            after_polls(polling_start(), tokens.take(k - 1)),
            PinEventView::Status(tokens[k - 1]),
        ) == PinActionView::Install(tokens[k - 1]->Some_0),
        forall|j: int|
            k <= j < tokens.len() ==> #[trigger] next_action(
                after_polls(polling_start(), tokens.take(j)),
                PinEventView::Status(tokens[j]),
            ) == PinActionView::Stop,
        after_polls(polling_start(), tokens) == (PinLoginView {
            state: PinState::Authenticated,
            attempts: (k - 1) as nat,
        }),
{
    let before = tokens.take(k - 1);
    lemma_polls_without_token(before);
    let head = tokens.take(k);
    assert(head.drop_last() == before);
    let end = PinLoginView { state: PinState::Authenticated, attempts: (k - 1) as nat };
    lemma_after_polls_split(polling_start(), tokens, k);
    lemma_finished_absorbs(end, tokens.skip(k));
    assert forall|j: int| 0 <= j < k - 1 implies #[trigger] next_action(
        after_polls(polling_start(), tokens.take(j)),
        PinEventView::Status(tokens[j]),
    ) == PinActionView::WaitThenPoll(POLL_INTERVAL_MS) by {
        lemma_polls_without_token(tokens.take(j));
    }
    assert forall|j: int| k <= j < tokens.len() implies #[trigger] next_action(
        after_polls(polling_start(), tokens.take(j)),
        PinEventView::Status(tokens[j]),
    ) == PinActionView::Stop by {
        let part = tokens.take(j);
        lemma_after_polls_split(polling_start(), part, k);
        assert(part.take(k) == head);
        lemma_finished_absorbs(end, part.skip(k));
    }
}

} // verus!
