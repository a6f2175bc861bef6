//! The client session: one transport connection driven through its
//! lifecycle.  The decisions are a pure transition function from state and
//! transport observation to next state and action; the unverified shell
//! performs the action and feeds back the next observation.

use vstd::prelude::*;

use crate::exchange::ConnectCause;
use crate::scenario::ScenarioProfile;

verus! {

/// How a session is established, decided once from the profile.
#[derive(Clone, Copy, Debug, PartialEq, Eq)]
pub enum EstablishMode {
    /// Wait for the full handshake before any request is sent.
    FullHandshake,
    /// Attempt to send early data before the handshake is confirmed.
    ZeroRttAttempt,
}

/// The lifecycle of one session.
#[derive(Clone, Copy, Debug, PartialEq, Eq)]
pub enum SessionState {
    /// Dialing; the handshake is in progress.
    Connecting,
    /// Early data was sent before handshake confirmation; the accept-or-
    /// reject verdict is outstanding.
    EarlyDataSent,
    /// The connection is up and streams may run.
    Established,
    /// All streams finished; waiting for the transport to go idle.
    Draining,
    /// The connection closed cleanly.
    Closed,
    /// Establishment failed; the whole group fails with this cause.
    Failed(ConnectCause),
}

/// One observation the transport reports to the session.
#[derive(Clone, Copy, Debug, PartialEq, Eq)]
pub enum SessionEvent {
    /// The early-data send began before handshake confirmation.
    EarlyDataStarted,
    /// The server accepted the early data.
    EarlyDataAccepted,
    /// The server rejected the early data, or the attempt could not start.
    EarlyDataRejected,
    /// The full handshake completed.
    HandshakeConfirmed,
    /// Establishment failed with this cause.
    ConnectFailed(ConnectCause),
    /// Every stream of the session's group completed.
    StreamsComplete,
    /// The transport confirmed the connection is idle.
    DrainConfirmed,
}

/// What the shell does next on behalf of the session.
#[derive(Clone, Copy, Debug, PartialEq, Eq)]
pub enum SessionAction {
    /// Keep waiting for the next observation.
    Hold,
    /// Open the group's streams and run the exchanges.
    BeginStreams,
    /// Mark every unit of the group failed with this cause.
    FailGroup(ConnectCause),
    /// Tear the connection down; the session is over.
    Release,
}

/// How this session is established under the profile: a 0-RTT scenario
/// attempts early data, every other scenario waits for the handshake.
pub fn establish_mode(profile: &ScenarioProfile) -> (m: EstablishMode)
    ensures
        m == (if profile.use_zero_rtt {
            EstablishMode::ZeroRttAttempt
        } else {
            EstablishMode::FullHandshake
        }),
{
    if profile.use_zero_rtt {
        EstablishMode::ZeroRttAttempt
    } else {
        EstablishMode::FullHandshake
    }
}

/// The state every session starts in.
pub open spec fn spec_session_init() -> SessionState {
    SessionState::Connecting
}

/// The session's transition function.  A rejected early-data attempt is a
/// hard failure for the group — never a silent downgrade to a full
/// handshake, because the scenario under test is validating 0-RTT
/// behavior.  Failure and closure are terminal.  Out-of-place observations
/// change nothing.
pub open spec fn spec_session_step(s: SessionState, e: SessionEvent) -> (SessionState,
    SessionAction) {
    match s {
        SessionState::Connecting => match e {
            SessionEvent::EarlyDataStarted => (SessionState::EarlyDataSent, SessionAction::Hold),
            SessionEvent::HandshakeConfirmed => (
                SessionState::Established,
                SessionAction::BeginStreams,
            ),
            SessionEvent::EarlyDataRejected => (
                SessionState::Failed(ConnectCause::EarlyDataRejected),
                SessionAction::FailGroup(ConnectCause::EarlyDataRejected),
            ),
            SessionEvent::ConnectFailed(c) => (
                SessionState::Failed(c),
                SessionAction::FailGroup(c),
            ),
            _ => (s, SessionAction::Hold),
        },
        SessionState::EarlyDataSent => match e {
            SessionEvent::EarlyDataAccepted => (
                SessionState::Established,
                SessionAction::BeginStreams,
            ),
            SessionEvent::EarlyDataRejected => (
                SessionState::Failed(ConnectCause::EarlyDataRejected),
                SessionAction::FailGroup(ConnectCause::EarlyDataRejected),
            ),
            SessionEvent::ConnectFailed(c) => (
                SessionState::Failed(c),
                SessionAction::FailGroup(c),
            ),
            _ => (s, SessionAction::Hold),
        },
        SessionState::Established => match e {
            SessionEvent::StreamsComplete => (SessionState::Draining, SessionAction::Hold),
            _ => (s, SessionAction::Hold),
        },
        SessionState::Draining => match e {
            SessionEvent::DrainConfirmed => (SessionState::Closed, SessionAction::Release),
            _ => (s, SessionAction::Hold),
        },
        SessionState::Closed => (s, SessionAction::Hold),
        SessionState::Failed(_) => (s, SessionAction::Hold),
    }
}

/// Advances a session by one observation.
pub fn session_step(s: SessionState, e: SessionEvent) -> (r: (SessionState, SessionAction))
    ensures
        r == spec_session_step(s, e),
{
    match s {
        SessionState::Connecting => match e {
            SessionEvent::EarlyDataStarted => (SessionState::EarlyDataSent, SessionAction::Hold),
            SessionEvent::HandshakeConfirmed => (
                SessionState::Established,
                SessionAction::BeginStreams,
            ),
            SessionEvent::EarlyDataRejected => (
                SessionState::Failed(ConnectCause::EarlyDataRejected),
                SessionAction::FailGroup(ConnectCause::EarlyDataRejected),
            ),
            SessionEvent::ConnectFailed(c) => (
                SessionState::Failed(c),
                SessionAction::FailGroup(c),
            ),
            _ => (s, SessionAction::Hold),
        },
        SessionState::EarlyDataSent => match e {
            SessionEvent::EarlyDataAccepted => (
                SessionState::Established,
                SessionAction::BeginStreams,
            ),
            SessionEvent::EarlyDataRejected => (
                SessionState::Failed(ConnectCause::EarlyDataRejected),
                SessionAction::FailGroup(ConnectCause::EarlyDataRejected),
            ),
            SessionEvent::ConnectFailed(c) => (
                SessionState::Failed(c),
                SessionAction::FailGroup(c),
            ),
            _ => (s, SessionAction::Hold),
        },
        SessionState::Established => match e {
            SessionEvent::StreamsComplete => (SessionState::Draining, SessionAction::Hold),
            _ => (s, SessionAction::Hold),
        },
        SessionState::Draining => match e {
            SessionEvent::DrainConfirmed => (SessionState::Closed, SessionAction::Release),
            _ => (s, SessionAction::Hold),
        },
        SessionState::Closed => (s, SessionAction::Hold),
        SessionState::Failed(_) => (s, SessionAction::Hold),
    }
}

/// The state a session reaches after a run of observations.
pub open spec fn spec_session_run(s: SessionState, evs: Seq<SessionEvent>) -> SessionState
    decreases evs.len(),
{
    if evs.len() == 0 {
        s
    } else {
        spec_session_run(spec_session_step(s, evs[0]).0, evs.skip(1))
    }
}

/// The actions a session emits over a run of observations, one per event.
pub open spec fn spec_session_actions(s: SessionState, evs: Seq<SessionEvent>) -> Seq<
    SessionAction,
>
    decreases evs.len(),
{
    if evs.len() == 0 {
        Seq::empty()
    } else {
        seq![spec_session_step(s, evs[0]).1] + spec_session_actions(
            spec_session_step(s, evs[0]).0,
            evs.skip(1),
        )
    }
}

/// A run emits exactly one action per observation.
pub proof fn lemma_session_actions_len(s: SessionState, evs: Seq<SessionEvent>)
    ensures
        spec_session_actions(s, evs).len() == evs.len(),
    decreases evs.len(),
{
    if evs.len() > 0 {
        lemma_session_actions_len(spec_session_step(s, evs[0]).0, evs.skip(1));
    }
}

/// Law: failure is terminal.  A failed session stays failed with the same
/// cause and never acts again, whatever the transport still reports.
pub proof fn lemma_failed_is_terminal(c: ConnectCause, evs: Seq<SessionEvent>)
    ensures
        spec_session_run(SessionState::Failed(c), evs) == SessionState::Failed(c),
        forall|i: int|
            0 <= i < evs.len() ==> spec_session_actions(SessionState::Failed(c), evs)[i]
                == SessionAction::Hold,
    decreases evs.len(),
{
    if evs.len() > 0 {
        lemma_failed_is_terminal(c, evs.skip(1));
        let acts = spec_session_actions(SessionState::Failed(c), evs);
        let tail = spec_session_actions(SessionState::Failed(c), evs.skip(1));
        lemma_session_actions_len(SessionState::Failed(c), evs);
        lemma_session_actions_len(SessionState::Failed(c), evs.skip(1));
        assert(forall|i: int| 0 <= i < evs.len() - 1 ==> acts[i + 1] == tail[i]);
    }
}

/// Law: closure is terminal.  A cleanly closed session stays closed and
/// never acts again.
pub proof fn lemma_closed_is_terminal(evs: Seq<SessionEvent>)
    ensures
        spec_session_run(SessionState::Closed, evs) == SessionState::Closed,
        forall|i: int|
            0 <= i < evs.len() ==> spec_session_actions(SessionState::Closed, evs)[i]
                == SessionAction::Hold,
    decreases evs.len(),
{
    if evs.len() > 0 {
        lemma_closed_is_terminal(evs.skip(1));
        let acts = spec_session_actions(SessionState::Closed, evs);
        let tail = spec_session_actions(SessionState::Closed, evs.skip(1));
        lemma_session_actions_len(SessionState::Closed, evs);
        lemma_session_actions_len(SessionState::Closed, evs.skip(1));
        assert(forall|i: int| 0 <= i < evs.len() - 1 ==> acts[i + 1] == tail[i]);
    }
}

/// Whether an observation can move a session out of the early phase into
/// the established state.
pub open spec fn confirms_establishment(e: SessionEvent) -> bool {
    e is HandshakeConfirmed || e is EarlyDataAccepted
}

/// Law: a rejected early-data attempt fails the whole group and opens no
/// stream.  If a session sees the rejection before anything confirmed the
/// connection (and before any other connect failure), it ends failed with
/// `EarlyDataRejected` and never emits `BeginStreams`: the shell opens no
/// stream and writes no file, so no partial or corrupted download exists
/// for the group.  Marking the group's pending units failed with this
/// cause is `fail_group`'s contract, which also keeps every byte count at
/// zero.
pub proof fn lemma_early_rejection_fails_group(evs: Seq<SessionEvent>, k: int)
    requires
        0 <= k < evs.len(),
        evs[k] == SessionEvent::EarlyDataRejected,
        forall|j: int|
            0 <= j < k ==> !confirms_establishment(evs[j]) && !(evs[j] is ConnectFailed),
    ensures
        spec_session_run(spec_session_init(), evs) == SessionState::Failed(
            ConnectCause::EarlyDataRejected,
        ),
        forall|i: int|
            0 <= i < evs.len() ==> spec_session_actions(spec_session_init(), evs)[i]
                != SessionAction::BeginStreams,
        exists|j: int|
            0 <= j <= k && spec_session_actions(spec_session_init(), evs)[j]
                == SessionAction::FailGroup(ConnectCause::EarlyDataRejected),
{
    lemma_early_rejection_from(spec_session_init(), evs, k);
}

/// The inductive core of `lemma_early_rejection_fails_group`, generalized
/// over the states the early phase can be in.
proof fn lemma_early_rejection_from(s: SessionState, evs: Seq<SessionEvent>, k: int)
    requires
        s is Connecting || s is EarlyDataSent || s == SessionState::Failed(
            ConnectCause::EarlyDataRejected,
        ),
        0 <= k < evs.len(),
        evs[k] == SessionEvent::EarlyDataRejected,
        forall|j: int|
            0 <= j < k ==> !confirms_establishment(evs[j]) && !(evs[j] is ConnectFailed),
    ensures
        spec_session_run(s, evs) == SessionState::Failed(ConnectCause::EarlyDataRejected),
        forall|i: int|
            0 <= i < evs.len() ==> spec_session_actions(s, evs)[i]
                != SessionAction::BeginStreams,
        s is Connecting || s is EarlyDataSent ==> exists|j: int|
            0 <= j <= k && spec_session_actions(s, evs)[j] == SessionAction::FailGroup(
                ConnectCause::EarlyDataRejected,
            ),
    decreases evs.len(),
{
    let (s1, a1) = spec_session_step(s, evs[0]);
    let acts = spec_session_actions(s, evs);
    let tail = spec_session_actions(s1, evs.skip(1));
    lemma_session_actions_len(s, evs);
    lemma_session_actions_len(s1, evs.skip(1));
    assert(acts[0] == a1);
    assert(forall|i: int| 0 <= i < evs.len() - 1 ==> acts[i + 1] == tail[i]);
    if k == 0 {
        assert(s1 == SessionState::Failed(ConnectCause::EarlyDataRejected));
        lemma_failed_is_terminal(ConnectCause::EarlyDataRejected, evs.skip(1));
    } else {
        assert(s1 is Connecting || s1 is EarlyDataSent || s1 == SessionState::Failed(
            ConnectCause::EarlyDataRejected,
        ));
        assert(evs.skip(1)[k - 1] == SessionEvent::EarlyDataRejected);
        assert(forall|j: int|
            0 <= j < k - 1 ==> !confirms_establishment(evs.skip(1)[j]) && !(evs.skip(
                1,
            )[j] is ConnectFailed));
        lemma_early_rejection_from(s1, evs.skip(1), k - 1);
        if s is Connecting || s is EarlyDataSent {
            if s1 is Failed {
                assert(evs[0] == SessionEvent::EarlyDataRejected);
                assert(acts[0] == SessionAction::FailGroup(ConnectCause::EarlyDataRejected));
            } else {
                let j0 = choose|j: int|
                    0 <= j <= k - 1 && tail[j] == SessionAction::FailGroup(
                        ConnectCause::EarlyDataRejected,
                    );
                assert(acts[j0 + 1] == SessionAction::FailGroup(
                    ConnectCause::EarlyDataRejected,
                ));
            }
        }
    }
}

} // verus!
