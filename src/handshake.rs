use vstd::prelude::*;
use crate::credential::{credential_complete, credential_from_fields, credential_matches, AuthUser, FieldValue};
use crate::error::{HandshakeError, ProtocolFault};
use crate::token::{initiate, initiation_of, pairs_view, value_of};

verus! {

/// How long the user is given to finish the login in the browser before the
/// token is redeemed, in milliseconds.
pub const GRACE_PERIOD_MS: u64 = 30000;

/// Where a handshake attempt stands. `Redeemed` and `Failed` are terminal: a
/// failed handshake is restarted from a fresh `Idle`.
#[derive(Debug)]
pub enum Phase {
    Idle,
    /// The login URL has been asked of the broker.
    UrlRequested,
    /// The browser has been asked to open the login URL.
    OpeningBrowser { token: String },
    /// The grace period runs; `waited_ms` of it have passed.
    Waiting { token: String, waited_ms: u64 },
    /// The token has been sent to the broker for redemption.
    Redeeming { token: String },
    Redeemed(AuthUser),
    Failed(HandshakeError),
}

/// What the caller reports back after doing what the last action asked.
#[derive(Debug)]
pub enum Event {
    /// The caller starts the handshake.
    Start,
    /// The broker's login response, as its top-level string pairs, or the
    /// failure to get it.
    LoginResponse(Result<Vec<(String, String)>, HandshakeError>),
    /// The browser was launched, or the reason it could not be.
    BrowserLaunched(Result<(), String>),
    /// The caller slept this many milliseconds.
    Slept(u64),
    /// The broker's redemption response, as its top-level fields, or the
    /// failure to get it.
    RedemptionResponse(Result<Vec<(String, FieldValue)>, HandshakeError>),
    /// The caller aborts the handshake.
    Cancel,
}

/// What the caller does next.
#[derive(Debug, PartialEq, Eq)]
pub enum Action {
    /// GET the broker's login endpoint.
    FetchLoginUrl,
    /// Open this URL in the user's browser.
    OpenBrowser(String),
    /// Sleep this many milliseconds.
    Sleep(u64),
    /// POST this correlation token to the broker's redemption endpoint.
    Redeem(String),
    /// The handshake is over: the phase holds the credential or the error.
    Stop,
    /// The event did not fit the phase and was ignored.
    Nothing,
}

impl Phase {
    pub open spec fn is_terminal(self) -> bool {
        self is Redeemed || self is Failed
    }
}

/// An event that does not fit the phase leaves it as it is.
pub open spec fn ignored(p: Phase, next: Phase, act: Action) -> bool {
    next == p && act == Action::Nothing
}

/// The phase and action that follow an event, exactly.
pub open spec fn transition(p: Phase, e: Event, next: Phase, act: Action) -> bool {
    if p.is_terminal() {
        next == p && act == Action::Stop
    } else {
        match e {
            Event::Cancel => next == Phase::Failed(HandshakeError::Cancelled) && act == Action::Stop,
            Event::Start => if p is Idle {
                next == Phase::UrlRequested && act == Action::FetchLoginUrl
            } else {
                ignored(p, next, act)
            },
            Event::LoginResponse(res) => if p is UrlRequested {
                match res {
                    Err(err) => next == Phase::Failed(err) && act == Action::Stop,
                    Ok(pairs) => match initiation_of(pairs_view(pairs@)) {
                        Ok((u, t)) => (next matches Phase::OpeningBrowser { token } && token@ == t)
                            && (act matches Action::OpenBrowser(s) && s@ == u),
                        Err(f) => next == Phase::Failed(HandshakeError::Protocol(f)) && act
                            == Action::Stop,
                    },
                }
            } else {
                ignored(p, next, act)
            },
            Event::BrowserLaunched(res) => match p {
                Phase::OpeningBrowser { token } => match res {
                    Ok(_) => next == (Phase::Waiting { token, waited_ms: 0 }) && act == Action::Sleep(
                        GRACE_PERIOD_MS,
                    ),
                    Err(msg) => next == Phase::Failed(HandshakeError::Environment(msg)) && act
                        == Action::Stop,
                },
                _ => ignored(p, next, act),
            },
            Event::Slept(ms) => match p {
                Phase::Waiting { token, waited_ms } => if waited_ms + ms >= GRACE_PERIOD_MS {
                    next == (Phase::Redeeming { token }) && act == Action::Redeem(token)
                } else {
                    next == (Phase::Waiting { token, waited_ms: (waited_ms + ms) as u64 }) && act
                        == Action::Sleep((GRACE_PERIOD_MS - (waited_ms + ms)) as u64)
                },
                _ => ignored(p, next, act),
            },
            Event::RedemptionResponse(res) => if p is Redeeming {
                match res {
                    Err(err) => next == Phase::Failed(err) && act == Action::Stop,
                    Ok(fields) => if credential_complete(fields@) {
                        (next matches Phase::Redeemed(u) && credential_matches(u, fields@)) && act
                            == Action::Stop
                    } else {
                        next == Phase::Failed(
                            HandshakeError::Protocol(ProtocolFault::MalformedCredential),
                        ) && act == Action::Stop
                    },
                }
            } else {
                ignored(p, next, act)
            },
        }
    }
}

/// The milliseconds that a sequence of events reports slept.
pub open spec fn slept_total(events: Seq<Event>) -> int
    decreases events.len(),
{
    if events.len() == 0 {
        0
    } else {
        slept_total(events.drop_last()) + match events.last() {
            Event::Slept(ms) => ms as int,
            _ => 0,
        }
    }
}

/// A run of handshake steps from `Idle`: `phases[k + 1]` and `actions[k]`
/// are what `events[k]` leads to from `phases[k]`.
pub open spec fn is_run(phases: Seq<Phase>, events: Seq<Event>, actions: Seq<Action>) -> bool {
    &&& phases.len() == events.len() + 1
    &&& actions.len() == events.len()
    &&& phases[0] == Phase::Idle
    &&& forall|k: int|
        0 <= k < events.len() ==> #[trigger] transition(phases[k], events[k], phases[k + 1], actions[k])
}

/// What the time slept so far bounds in each phase.
pub open spec fn grace_kept(p: Phase, slept: int) -> bool {
    match p {
        Phase::Waiting { waited_ms, .. } => waited_ms <= slept,
        Phase::Redeeming { .. } => slept >= GRACE_PERIOD_MS,
        _ => true,
    }
}

proof fn lemma_grace_kept(phases: Seq<Phase>, events: Seq<Event>, actions: Seq<Action>, n: int)
    requires
        is_run(phases, events, actions),
        0 <= n <= events.len(),
    ensures
        grace_kept(phases[n], slept_total(events.take(n))),
        slept_total(events.take(n)) >= 0,
    decreases n,
{
    if n > 0 {
        lemma_grace_kept(phases, events, actions, n - 1);
        assert(events.take(n).drop_last() =~= events.take(n - 1));
        let k = n - 1;
        assert(transition(phases[k], events[k], phases[k + 1], actions[k]));
    }
}

/// In every run from `Idle`, the caller is asked to redeem the token only
/// after it has reported sleeping, in all, at least the grace period.
pub proof fn lemma_redeem_after_grace(
    phases: Seq<Phase>,
    events: Seq<Event>,
    actions: Seq<Action>,
    k: int,
)
    requires
        is_run(phases, events, actions),
        0 <= k < events.len(),
        actions[k] is Redeem,
    ensures
        slept_total(events.take(k + 1)) >= GRACE_PERIOD_MS,
{
    lemma_grace_kept(phases, events, actions, k);
    assert(transition(phases[k], events[k], phases[k + 1], actions[k]));
    assert(events.take(k + 1).drop_last() =~= events.take(k));
}

/// A login response without a `URL` key fails the handshake with a protocol
/// error, and the browser is not opened.
pub proof fn lemma_missing_url_no_browser(pairs: Vec<(String, String)>, next: Phase, act: Action)
    requires
        value_of(pairs_view(pairs@), "URL"@) is None,
        transition(Phase::UrlRequested, Event::LoginResponse(Ok(pairs)), next, act),
    ensures
        next == Phase::Failed(HandshakeError::Protocol(ProtocolFault::MissingUrl)),
        !(act is OpenBrowser),
{
}

/// Decides, from the phase of a handshake and the event the caller reports,
/// the next phase and what the caller does next. The caller performs the
/// action and reports its outcome as the next event.
pub fn step(phase: Phase, event: Event) -> (r: (Phase, Action))
    ensures
        transition(phase, event, r.0, r.1),
{
    match phase {
        Phase::Redeemed(u) => return (Phase::Redeemed(u), Action::Stop),
        Phase::Failed(e) => return (Phase::Failed(e), Action::Stop),
        _ => {},
    }
    match event {
        Event::Cancel => (Phase::Failed(HandshakeError::Cancelled), Action::Stop),
        Event::Start => match phase {
            Phase::Idle => (Phase::UrlRequested, Action::FetchLoginUrl),
            other => (other, Action::Nothing),
        },
        Event::LoginResponse(res) => match phase {
            Phase::UrlRequested => match res {
                Err(err) => (Phase::Failed(err), Action::Stop),
                Ok(pairs) => match initiate(&pairs) {
                    Ok((url, token)) => (Phase::OpeningBrowser { token }, Action::OpenBrowser(url)),
                    Err(err) => (Phase::Failed(err), Action::Stop),
                },
            },
            other => (other, Action::Nothing),
        },
        Event::BrowserLaunched(res) => match phase {
            Phase::OpeningBrowser { token } => match res {
                Ok(_) => (Phase::Waiting { token, waited_ms: 0 }, Action::Sleep(GRACE_PERIOD_MS)),
                Err(msg) => (Phase::Failed(HandshakeError::Environment(msg)), Action::Stop),
            },
            other => (other, Action::Nothing),
        },
        Event::Slept(ms) => match phase {
            Phase::Waiting { token, waited_ms } => {
                if waited_ms >= GRACE_PERIOD_MS || ms >= GRACE_PERIOD_MS - waited_ms {
                    let sent = token.clone();
                    (Phase::Redeeming { token }, Action::Redeem(sent))
                } else {
                    let waited = waited_ms + ms;
                    (Phase::Waiting { token, waited_ms: waited }, Action::Sleep(GRACE_PERIOD_MS - waited))
                }
            },
            other => (other, Action::Nothing),
        },
        Event::RedemptionResponse(res) => match phase {
            Phase::Redeeming { token } => match res {
                Err(err) => (Phase::Failed(err), Action::Stop),
                Ok(fields) => match credential_from_fields(&fields) {
                    Ok(u) => (Phase::Redeemed(u), Action::Stop),
                    Err(err) => (Phase::Failed(err), Action::Stop),
                },
            },
            other => (other, Action::Nothing),
        },
    }
}

} // verus!
