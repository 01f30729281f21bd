//! The decisions of one publish/subscribe session against the broker, as a
//! state machine: the driver performs each action it is handed and feeds
//! back what came of it as the next event.
//!
//! An attempt runs: wait for the network, open the transport (retrying at a
//! fixed delay), handshake, publish an announcement and wait for its
//! completion, subscribe to the command topic, then poll. Every way out of
//! an attempt resets the protocol buffer and disconnects before the next
//! attempt starts.
use crate::light::{decode_light, decoded, DecodeError, Light};
use crate::status::{Ready, BLINK_INTERVAL_MS, LEDS};
use vstd::prelude::*;

verus! {

/// Pause between two failed transport connects, in milliseconds.
pub const CONNECT_RETRY_MS: u64 = 5000;

/// Pause after a poll error that the protocol layer can recover from, in
/// milliseconds.
pub const POLL_RETRY_MS: u64 = 5000;

/// Pause between two checks of the network, in milliseconds.
pub const NETWORK_POLL_MS: u64 = 10_000;

/// Keep-alive interval announced in the handshake, in seconds.
pub const KEEP_ALIVE_SECS: u16 = 120;

/// How long the broker keeps the session after a disconnect, in seconds.
pub const SESSION_EXPIRY_SECS: u32 = 600;

/// Whether the handshake asks the broker to discard an earlier session.
pub const CLEAN_START: bool = false;

/// Where an attempt stands.
#[derive(Debug, Clone, Copy, PartialEq, Eq, Structural)]
pub enum SessionState {
    /// Between attempts.
    Idle,
    /// Checking whether the network stack has an address.
    AwaitingNetwork,
    /// Opening the byte-stream connection to the broker.
    TransportConnecting,
    /// The connect request is out.
    Handshake,
    /// The announcement is being published.
    Publishing,
    /// Polling until the broker completes the announcement.
    AwaitingPublishComplete,
    /// The subscribe request is out.
    Subscribing,
    /// Polling for commands.
    Polling,
    /// Buffer reset and disconnect request issued.
    Teardown,
}

/// What the driver reports back after performing an action.
#[derive(Debug, PartialEq, Eq)]
pub enum SessionEvent {
    /// The outer loop starts a new attempt.
    Start,
    /// Whether the network stack has an address.
    NetworkReady(bool),
    /// Whether the transport connect succeeded.
    TransportConnected(bool),
    /// Whether the connect request was accepted.
    HandshakeDone(bool),
    /// Whether the announcement was sent.
    Published(bool),
    /// Whether the subscribe request was sent.
    Subscribed(bool),
    /// A poll returned the completion of the announcement.
    PollPublishComplete,
    /// A poll returned a subscription acknowledgment.
    PollSubscribeAck,
    /// A poll returned a message on `topic`.
    PollDelivery { topic: Vec<u8>, payload: Vec<u8> },
    /// A poll returned some other event.
    PollOther,
    /// A poll returned nothing to act on.
    PollNothing,
    /// A poll failed, but the protocol layer can go on.
    PollRetryable,
    /// A poll failed beyond recovery.
    PollFailed,
    /// Whether the disconnect request went out.
    Disconnected(bool),
}

/// What a log line reports.
#[derive(Debug, Clone, Copy, PartialEq, Eq, Structural)]
pub enum Note {
    WaitingForNetwork,
    ConnectFailed,
    TransportUp,
    HandshakeFailed,
    PublishFailed,
    PublishComplete,
    SubscribeFailed,
    SubscribeAcked,
    DecodeFailed(DecodeError),
    EventIgnored,
    PollRetrying,
    PollFailed,
    DisconnectFailed,
}

/// What the driver must do next.
#[derive(Debug, Clone, Copy, PartialEq, Eq, Structural)]
pub enum SessionAction {
    /// Ask the network stack whether it has an address.
    CheckNetwork,
    /// Sleep this many milliseconds.
    Wait(u64),
    /// Open the transport to the broker.
    OpenTransport,
    /// Send the connect request.
    SendConnect,
    /// Publish the announcement.
    SendPublish,
    /// Subscribe to the command topic.
    SendSubscribe,
    /// Wait for the next protocol event.
    Poll,
    /// Hand a command record to the command channel, waiting while it is full.
    Forward(Light),
    /// Hand a milestone to the status channel, waiting while it is full.
    Announce(Ready),
    /// Reset the protocol buffer.
    ResetBuffer,
    /// Send the disconnect request, without the will.
    SendDisconnect,
    /// Write a log line.
    Log(Note),
}

/// The topic that carries command records, as bytes.
pub open spec fn command_topic() -> Seq<u8> {
    seq![0x65u8, 0x6cu8]
}

/// The milestone for "address acquired".
pub open spec fn ip_milestone() -> Ready {
    Ready { enlight: (LEDS / 4) as u8, blink: (LEDS / 4) as u8, blink_wait_ms: BLINK_INTERVAL_MS }
}

/// The milestone for "transport connected".
pub open spec fn tcp_milestone() -> Ready {
    Ready { enlight: (LEDS / 2) as u8, blink: (LEDS / 4) as u8, blink_wait_ms: BLINK_INTERVAL_MS }
}

/// The states in which an attempt holds a live protocol buffer.
pub open spec fn in_session(s: SessionState) -> bool {
    match s {
        SessionState::Handshake | SessionState::Publishing | SessionState::AwaitingPublishComplete
        | SessionState::Subscribing | SessionState::Polling => true,
        _ => false,
    }
}

/// Leaving an attempt after `note`: reset the buffer, then disconnect.
pub open spec fn teardown_actions(note: Note) -> Seq<SessionAction> {
    seq![SessionAction::Log(note), SessionAction::ResetBuffer, SessionAction::SendDisconnect]
}

/// After a poll error that the protocol layer recovers from: log, pause,
/// poll again.
pub open spec fn poll_retry_actions() -> Seq<SessionAction> {
    seq![SessionAction::Log(Note::PollRetrying), SessionAction::Wait(POLL_RETRY_MS), SessionAction::Poll]
}

/// What the command poll loop does with a message on `topic`.
pub open spec fn delivery_actions(topic: Seq<u8>, payload: Seq<u8>) -> Seq<SessionAction> {
    if topic == command_topic() {
        match decoded(payload) {
            Ok(l) => seq![SessionAction::Forward(l), SessionAction::Poll],
            Err(e) => seq![SessionAction::Log(Note::DecodeFailed(e)), SessionAction::Poll],
        }
    } else {
        seq![SessionAction::Log(Note::EventIgnored), SessionAction::Poll]
    }
}

/// The next state and the actions to perform, from state `s` on event `e`.
/// An event that does not belong to `s` changes nothing.
pub open spec fn transition(s: SessionState, e: SessionEvent) -> (SessionState, Seq<SessionAction>) {
    match (s, e) {
        (SessionState::Idle, SessionEvent::Start) => (
            SessionState::AwaitingNetwork,
            seq![SessionAction::CheckNetwork],
        ),
        (SessionState::AwaitingNetwork, SessionEvent::NetworkReady(ready)) => if ready {
            (
                SessionState::TransportConnecting,
                seq![SessionAction::Announce(ip_milestone()), SessionAction::OpenTransport],
            )
        } else {
            (
                SessionState::AwaitingNetwork,
                seq![
                    SessionAction::Log(Note::WaitingForNetwork),
                    SessionAction::Wait(NETWORK_POLL_MS),
                    SessionAction::CheckNetwork,
                ],
            )
        },
        (SessionState::TransportConnecting, SessionEvent::TransportConnected(ok)) => if ok {
            (
                SessionState::Handshake,
                seq![
                    SessionAction::Log(Note::TransportUp),
                    SessionAction::Announce(tcp_milestone()),
                    SessionAction::SendConnect,
                ],
            )
        } else {
            (
                SessionState::TransportConnecting,
                seq![
                    SessionAction::Log(Note::ConnectFailed),
                    SessionAction::Wait(CONNECT_RETRY_MS),
                    SessionAction::OpenTransport,
                ],
            )
        },
        (SessionState::Handshake, SessionEvent::HandshakeDone(ok)) => if ok {
            (SessionState::Publishing, seq![SessionAction::SendPublish])
        } else {
            (SessionState::Teardown, teardown_actions(Note::HandshakeFailed))
        },
        (SessionState::Publishing, SessionEvent::Published(ok)) => if ok {
            (SessionState::AwaitingPublishComplete, seq![SessionAction::Poll])
        } else {
            (SessionState::Teardown, teardown_actions(Note::PublishFailed))
        },
        (SessionState::AwaitingPublishComplete, SessionEvent::PollPublishComplete) => (
            SessionState::Subscribing,
            seq![SessionAction::Log(Note::PublishComplete), SessionAction::SendSubscribe],
        ),
        (SessionState::AwaitingPublishComplete, SessionEvent::PollFailed) => (
            SessionState::Teardown,
            teardown_actions(Note::PollFailed),
        ),
        (SessionState::AwaitingPublishComplete, SessionEvent::PollRetryable) => (
            SessionState::AwaitingPublishComplete,
            poll_retry_actions(),
        ),
        (SessionState::AwaitingPublishComplete, SessionEvent::PollSubscribeAck)
        | (SessionState::AwaitingPublishComplete, SessionEvent::PollDelivery { .. })
        | (SessionState::AwaitingPublishComplete, SessionEvent::PollOther)
        | (SessionState::AwaitingPublishComplete, SessionEvent::PollNothing) => (
            SessionState::AwaitingPublishComplete,
            seq![SessionAction::Log(Note::EventIgnored), SessionAction::Poll],
        ),
        (SessionState::Subscribing, SessionEvent::Subscribed(ok)) => if ok {
            (SessionState::Polling, seq![SessionAction::Poll])
        } else {
            (SessionState::Teardown, teardown_actions(Note::SubscribeFailed))
        },
        (SessionState::Polling, SessionEvent::PollSubscribeAck) => (
            SessionState::Polling,
            seq![SessionAction::Log(Note::SubscribeAcked), SessionAction::Poll],
        ),
        (SessionState::Polling, SessionEvent::PollDelivery { topic, payload }) => (
            SessionState::Polling,
            delivery_actions(topic@, payload@),
        ),
        (SessionState::Polling, SessionEvent::PollPublishComplete)
        | (SessionState::Polling, SessionEvent::PollOther) => (
            SessionState::Polling,
            seq![SessionAction::Log(Note::EventIgnored), SessionAction::Poll],
        ),
        (SessionState::Polling, SessionEvent::PollNothing) => (
            SessionState::Polling,
            seq![SessionAction::Poll],
        ),
        (SessionState::Polling, SessionEvent::PollFailed) => (
            SessionState::Teardown,
            teardown_actions(Note::PollFailed),
        ),
        (SessionState::Polling, SessionEvent::PollRetryable) => (
            SessionState::Polling,
            poll_retry_actions(),
        ),
        (SessionState::Teardown, SessionEvent::Disconnected(ok)) => if ok {
            (SessionState::Idle, seq![])
        } else {
            (SessionState::Idle, seq![SessionAction::Log(Note::DisconnectFailed)])
        },
        _ => (s, seq![]),
    }
}

/// Where a run of events `evs` from `s` ends, and every action it hands out
/// in order.
pub open spec fn run(s: SessionState, evs: Seq<SessionEvent>) -> (SessionState, Seq<SessionAction>)
    decreases evs.len(),
{
    if evs.len() == 0 {
        (s, seq![])
    } else {
        let (s1, a1) = transition(s, evs[0]);
        let (s2, a2) = run(s1, evs.drop_first());
        (s2, a1 + a2)
    }
}

/// How many times `a` occurs in `acts`.
pub open spec fn occurrences(acts: Seq<SessionAction>, a: SessionAction) -> nat
    decreases acts.len(),
{
    if acts.len() == 0 {
        0
    } else {
        (if acts[0] == a {
            1nat
        } else {
            0nat
        }) + occurrences(acts.drop_first(), a)
    }
}

/// `n` failed transport connects followed by one that succeeds.
pub open spec fn connect_attempts(n: nat) -> Seq<SessionEvent>
    decreases n,
{
    if n == 0 {
        seq![SessionEvent::TransportConnected(true)]
    } else {
        seq![SessionEvent::TransportConnected(false)] + connect_attempts((n - 1) as nat)
    }
}

fn actions1(a: SessionAction) -> (r: Vec<SessionAction>)
    ensures
        r@ == seq![a],
{
    let mut v: Vec<SessionAction> = Vec::new();
    v.push(a);
    v
}

fn actions2(a: SessionAction, b: SessionAction) -> (r: Vec<SessionAction>)
    ensures
        r@ == seq![a, b],
{
    let mut v = actions1(a);
    v.push(b);
    assert(v@ =~= seq![a, b]);
    v
}

fn actions3(a: SessionAction, b: SessionAction, c: SessionAction) -> (r: Vec<SessionAction>)
    ensures
        r@ == seq![a, b, c],
{
    let mut v = actions2(a, b);
    v.push(c);
    assert(v@ =~= seq![a, b, c]);
    v
}

/// Whether `topic` is the command topic.
pub fn is_command_topic(topic: &Vec<u8>) -> (r: bool)
    ensures
        r == (topic@ == command_topic()),
{
    if topic.len() == 2 && topic[0] == 0x65u8 && topic[1] == 0x6cu8 {
        assert(topic@ =~= command_topic());
        true
    } else {
        false
    }
}

/// The poll loop's answer to a message on `topic`: decode and forward a
/// record from the command topic, log a payload that does not decode and
/// keep polling either way.
pub fn on_delivery(topic: &Vec<u8>, payload: &Vec<u8>) -> (r: Vec<SessionAction>)
    ensures
        r@ == delivery_actions(topic@, payload@),
{
    if is_command_topic(topic) {
        match decode_light(payload.as_slice()) {
            Ok(l) => actions2(SessionAction::Forward(l), SessionAction::Poll),
            Err(e) => actions2(SessionAction::Log(Note::DecodeFailed(e)), SessionAction::Poll),
        }
    } else {
        actions2(SessionAction::Log(Note::EventIgnored), SessionAction::Poll)
    }
}

/// Advances the session from `s` on event `e`.
pub fn step(s: SessionState, e: &SessionEvent) -> (r: (SessionState, Vec<SessionAction>))
    ensures
        (r.0, r.1@) == transition(s, *e),
{
    match (s, e) {
        (SessionState::Idle, SessionEvent::Start) => (
            SessionState::AwaitingNetwork,
            actions1(SessionAction::CheckNetwork),
        ),
        (SessionState::AwaitingNetwork, SessionEvent::NetworkReady(ready)) => if *ready {
            (
                SessionState::TransportConnecting,
                actions2(SessionAction::Announce(Ready::ip()), SessionAction::OpenTransport),
            )
        } else {
            (
                SessionState::AwaitingNetwork,
                actions3(
                    SessionAction::Log(Note::WaitingForNetwork),
                    SessionAction::Wait(NETWORK_POLL_MS),
                    SessionAction::CheckNetwork,
                ),
            )
        },
        (SessionState::TransportConnecting, SessionEvent::TransportConnected(ok)) => if *ok {
            (
                SessionState::Handshake,
                actions3(
                    SessionAction::Log(Note::TransportUp),
                    SessionAction::Announce(Ready::tcp()),
                    SessionAction::SendConnect,
                ),
            )
        } else {
            (
                SessionState::TransportConnecting,
                actions3(
                    SessionAction::Log(Note::ConnectFailed),
                    SessionAction::Wait(CONNECT_RETRY_MS),
                    SessionAction::OpenTransport,
                ),
            )
        },
        (SessionState::Handshake, SessionEvent::HandshakeDone(ok)) => if *ok {
            (SessionState::Publishing, actions1(SessionAction::SendPublish))
        } else {
            (SessionState::Teardown, teardown(Note::HandshakeFailed))
        },
        (SessionState::Publishing, SessionEvent::Published(ok)) => if *ok {
            (SessionState::AwaitingPublishComplete, actions1(SessionAction::Poll))
        } else {
            (SessionState::Teardown, teardown(Note::PublishFailed))
        },
        (SessionState::AwaitingPublishComplete, SessionEvent::PollPublishComplete) => (
            SessionState::Subscribing,
            actions2(SessionAction::Log(Note::PublishComplete), SessionAction::SendSubscribe),
        ),
        (SessionState::AwaitingPublishComplete, SessionEvent::PollFailed) => (
            SessionState::Teardown,
            teardown(Note::PollFailed),
        ),
        (SessionState::AwaitingPublishComplete, SessionEvent::PollRetryable) => (
            SessionState::AwaitingPublishComplete,
            poll_retry(),
        ),
        (SessionState::AwaitingPublishComplete, SessionEvent::PollSubscribeAck)
        | (SessionState::AwaitingPublishComplete, SessionEvent::PollDelivery { .. })
        | (SessionState::AwaitingPublishComplete, SessionEvent::PollOther)
        | (SessionState::AwaitingPublishComplete, SessionEvent::PollNothing) => (
            SessionState::AwaitingPublishComplete,
            actions2(SessionAction::Log(Note::EventIgnored), SessionAction::Poll),
        ),
        (SessionState::Subscribing, SessionEvent::Subscribed(ok)) => if *ok {
            (SessionState::Polling, actions1(SessionAction::Poll))
        } else {
            (SessionState::Teardown, teardown(Note::SubscribeFailed))
        },
        (SessionState::Polling, SessionEvent::PollSubscribeAck) => (
            SessionState::Polling,
            actions2(SessionAction::Log(Note::SubscribeAcked), SessionAction::Poll),
        ),
        (SessionState::Polling, SessionEvent::PollDelivery { topic, payload }) => (
            SessionState::Polling,
            on_delivery(topic, payload),
        ),
        (SessionState::Polling, SessionEvent::PollPublishComplete)
        | (SessionState::Polling, SessionEvent::PollOther) => (
            SessionState::Polling,
            actions2(SessionAction::Log(Note::EventIgnored), SessionAction::Poll),
        ),
        (SessionState::Polling, SessionEvent::PollNothing) => (
            SessionState::Polling,
            actions1(SessionAction::Poll),
        ),
        (SessionState::Polling, SessionEvent::PollFailed) => (
            SessionState::Teardown,
            teardown(Note::PollFailed),
        ),
        (SessionState::Polling, SessionEvent::PollRetryable) => (SessionState::Polling, poll_retry()),
        (SessionState::Teardown, SessionEvent::Disconnected(ok)) => if *ok {
            (SessionState::Idle, Vec::new())
        } else {
            (SessionState::Idle, actions1(SessionAction::Log(Note::DisconnectFailed)))
        },
        _ => (s, Vec::new()),
    }
}

/// The actions after a poll error that the protocol layer recovers from.
fn poll_retry() -> (r: Vec<SessionAction>)
    ensures
        r@ == poll_retry_actions(),
{
    actions3(SessionAction::Log(Note::PollRetrying), SessionAction::Wait(POLL_RETRY_MS), SessionAction::Poll)
}

/// The actions that leave an attempt after `note`.
fn teardown(note: Note) -> (r: Vec<SessionAction>)
    ensures
        r@ == teardown_actions(note),
{
    actions3(SessionAction::Log(note), SessionAction::ResetBuffer, SessionAction::SendDisconnect)
}

/// The actions that `n` failed connects hand out: per failure a log line, a
/// pause of the fixed retry delay and a new connect.
pub open spec fn retry_actions(n: nat) -> Seq<SessionAction>
    decreases n,
{
    if n == 0 {
        seq![]
    } else {
        seq![
            SessionAction::Log(Note::ConnectFailed),
            SessionAction::Wait(CONNECT_RETRY_MS),
            SessionAction::OpenTransport,
        ] + retry_actions((n - 1) as nat)
    }
}

/// Occurrences add up over a concatenation.
pub proof fn lemma_occurrences_concat(a: Seq<SessionAction>, b: Seq<SessionAction>, x: SessionAction)
    ensures
        occurrences(a + b, x) == occurrences(a, x) + occurrences(b, x),
    decreases a.len(),
{
    if a.len() == 0 {
        assert(a + b =~= b);
    } else {
        assert((a + b).drop_first() =~= a.drop_first() + b);
        lemma_occurrences_concat(a.drop_first(), b, x);
    }
}

/// `n` consecutive failed transport connects hand out exactly `n` pauses of
/// the fixed retry delay and `n` logged failures, and the connect that then
/// succeeds moves the session on to the handshake.
pub proof fn lemma_retry_cadence(n: nat)
    ensures
        run(SessionState::TransportConnecting, connect_attempts(n)).0 == SessionState::Handshake,
        run(SessionState::TransportConnecting, connect_attempts(n)).1 == retry_actions(n) + seq![
            SessionAction::Log(Note::TransportUp),
            SessionAction::Announce(tcp_milestone()),
            SessionAction::SendConnect,
        ],
        occurrences(
            run(SessionState::TransportConnecting, connect_attempts(n)).1,
            SessionAction::Wait(CONNECT_RETRY_MS),
        ) == n,
        occurrences(
            run(SessionState::TransportConnecting, connect_attempts(n)).1,
            SessionAction::Log(Note::ConnectFailed),
        ) == n,
    decreases n,
{
    let s = SessionState::TransportConnecting;
    let evs = connect_attempts(n);
    let up = seq![
        SessionAction::Log(Note::TransportUp),
        SessionAction::Announce(tcp_milestone()),
        SessionAction::SendConnect,
    ];
    reveal_with_fuel(occurrences, 4);
    if n == 0 {
        assert(evs[0] == SessionEvent::TransportConnected(true));
        assert(evs.drop_first() =~= Seq::<SessionEvent>::empty());
        reveal_with_fuel(run, 2);
        assert(run(s, evs).1 =~= retry_actions(n) + up);
    } else {
        let failed = seq![
            SessionAction::Log(Note::ConnectFailed),
            SessionAction::Wait(CONNECT_RETRY_MS),
            SessionAction::OpenTransport,
        ];
        assert(evs[0] == SessionEvent::TransportConnected(false));
        assert(evs.drop_first() =~= connect_attempts((n - 1) as nat));
        lemma_retry_cadence((n - 1) as nat);
        let tail = run(s, connect_attempts((n - 1) as nat)).1;
        assert(run(s, evs).1 == failed + tail);
        assert(failed + (retry_actions((n - 1) as nat) + up) =~= retry_actions(n) + up);
        lemma_occurrences_concat(failed, tail, SessionAction::Wait(CONNECT_RETRY_MS));
        lemma_occurrences_concat(failed, tail, SessionAction::Log(Note::ConnectFailed));
    }
}

/// Every occurrence of `a` in `acts` comes after some buffer reset.
pub open spec fn comes_after_reset(acts: Seq<SessionAction>, a: SessionAction) -> bool {
    forall|j: int|
        0 <= j < acts.len() && #[trigger] acts[j] == a ==> exists|i: int|
            0 <= i < j && acts[i] == SessionAction::ResetBuffer
}

/// The actions that begin or advance a new attempt: opening the transport
/// and sending the connect request.
pub open spec fn starts_attempt(a: SessionAction) -> bool {
    a == SessionAction::OpenTransport || a == SessionAction::SendConnect
}

/// From a state that holds the protocol buffer, one step either stays in
/// such a state without opening a transport or sending a connect request,
/// or tears the attempt down, resetting the buffer.
proof fn lemma_session_step(s: SessionState, e: SessionEvent)
    requires
        in_session(s),
    ensures
        ({
            let (s1, a1) = transition(s, e);
            &&& !a1.contains(SessionAction::SendConnect)
            &&& !a1.contains(SessionAction::OpenTransport)
            &&& (in_session(s1) || (s1 == SessionState::Teardown && a1.contains(
                SessionAction::ResetBuffer,
            )))
        }),
{
    let (s1, a1) = transition(s, e);
    if s1 == SessionState::Teardown {
        assert(a1[1] == SessionAction::ResetBuffer);
    }
}

/// In a run from a state that holds the buffer, every action that starts or
/// advances a new attempt comes after a buffer reset.
proof fn lemma_attempt_after_reset(s: SessionState, evs: Seq<SessionEvent>, a: SessionAction)
    requires
        in_session(s),
        starts_attempt(a),
    ensures
        comes_after_reset(run(s, evs).1, a),
    decreases evs.len(),
{
    if evs.len() > 0 {
        let (s1, a1) = transition(s, evs[0]);
        let rest = run(s1, evs.drop_first()).1;
        let acts = run(s, evs).1;
        assert(acts == a1 + rest);
        lemma_session_step(s, evs[0]);
        if in_session(s1) {
            lemma_attempt_after_reset(s1, evs.drop_first(), a);
            assert forall|j: int|
                0 <= j < acts.len() && #[trigger] acts[j] == a implies exists|i: int|
                0 <= i < j && acts[i] == SessionAction::ResetBuffer by {
                if j < a1.len() {
                    assert(a1[j] == a);
                } else {
                    assert(rest[j - a1.len()] == a);
                    let i = choose|i: int|
                        0 <= i < j - a1.len() && rest[i] == SessionAction::ResetBuffer;
                    assert(acts[a1.len() + i] == SessionAction::ResetBuffer);
                }
            }
        } else {
            let k = choose|k: int| 0 <= k < a1.len() && a1[k] == SessionAction::ResetBuffer;
            assert(acts[k] == SessionAction::ResetBuffer);
            assert forall|j: int|
                0 <= j < acts.len() && #[trigger] acts[j] == a implies exists|i: int|
                0 <= i < j && acts[i] == SessionAction::ResetBuffer by {
                if j < a1.len() {
                    assert(a1[j] == a);
                } else {
                    assert(acts[k] == SessionAction::ResetBuffer);
                }
            }
        }
    }
}

/// Every way out of an attempt resets the protocol buffer: a run of events
/// from any state that holds the buffer resets it before it ends up outside
/// the attempt, and before the next attempt opens a transport or sends a
/// connect request.
pub proof fn lemma_fair_teardown(s: SessionState, evs: Seq<SessionEvent>)
    requires
        in_session(s),
    ensures
        !in_session(run(s, evs).0) ==> run(s, evs).1.contains(SessionAction::ResetBuffer),
        comes_after_reset(run(s, evs).1, SessionAction::OpenTransport),
        comes_after_reset(run(s, evs).1, SessionAction::SendConnect),
    decreases evs.len(),
{
    lemma_attempt_after_reset(s, evs, SessionAction::OpenTransport);
    lemma_attempt_after_reset(s, evs, SessionAction::SendConnect);
    if evs.len() > 0 {
        let (s1, a1) = transition(s, evs[0]);
        let rest = run(s1, evs.drop_first()).1;
        let acts = run(s, evs).1;
        assert(acts == a1 + rest);
        lemma_session_step(s, evs[0]);
        if in_session(s1) {
            lemma_fair_teardown(s1, evs.drop_first());
            if !in_session(run(s, evs).0) {
                let k = choose|k: int| 0 <= k < rest.len() && rest[k] == SessionAction::ResetBuffer;
                assert(acts[a1.len() + k] == SessionAction::ResetBuffer);
            }
        } else {
            let k = choose|k: int| 0 <= k < a1.len() && a1[k] == SessionAction::ResetBuffer;
            assert(acts[k] == SessionAction::ResetBuffer);
        }
    }
}

/// A payload on the command topic that does not decode is logged and
/// dropped, the poll loop goes on, and a well-formed record that follows
/// on the same subscription is forwarded to the command channel.
pub proof fn lemma_malformed_then_wellformed(bad: SessionEvent, good: SessionEvent, l: Light)
    requires
        bad matches SessionEvent::PollDelivery { topic, payload } && topic@ == command_topic()
            && decoded(payload@) is Err,
        good matches SessionEvent::PollDelivery { topic, payload } && topic@ == command_topic()
            && decoded(payload@) == Ok::<Light, DecodeError>(l),
    ensures
        run(SessionState::Polling, seq![bad, good]).0 == SessionState::Polling,
        run(SessionState::Polling, seq![bad, good]).1 == seq![
            SessionAction::Log(Note::DecodeFailed(decoded(bad->payload@)->Err_0)),
            SessionAction::Poll,
            SessionAction::Forward(l),
            SessionAction::Poll,
        ],
{
    let evs = seq![bad, good];
    let bad_acts = seq![
        SessionAction::Log(Note::DecodeFailed(decoded(bad->payload@)->Err_0)),
        SessionAction::Poll,
    ];
    let good_acts = seq![SessionAction::Forward(l), SessionAction::Poll];
    assert(transition(SessionState::Polling, bad) == (SessionState::Polling, bad_acts));
    assert(transition(SessionState::Polling, good) == (SessionState::Polling, good_acts));
    assert(evs[0] == bad);
    assert(evs.drop_first() =~= seq![good]);
    assert(evs.drop_first()[0] == good);
    assert(evs.drop_first().drop_first() =~= Seq::<SessionEvent>::empty());
    assert(run(SessionState::Polling, Seq::<SessionEvent>::empty()) == (
        SessionState::Polling,
        Seq::<SessionAction>::empty(),
    ));
    assert(run(SessionState::Polling, seq![good]) == (SessionState::Polling, good_acts + Seq::<SessionAction>::empty()));
    assert(run(SessionState::Polling, evs) == (SessionState::Polling, bad_acts + (good_acts + Seq::<SessionAction>::empty())));
    assert(bad_acts + (good_acts + Seq::<SessionAction>::empty()) =~= seq![
        SessionAction::Log(Note::DecodeFailed(decoded(bad->payload@)->Err_0)),
        SessionAction::Poll,
        SessionAction::Forward(l),
        SessionAction::Poll,
    ]);
}

/// While the announcement waits for completion, every poll result other than
/// the completion itself or an error is logged and followed by another poll,
/// without leaving the wait; the completion moves on to the subscription.
pub proof fn lemma_publish_wait(e: SessionEvent)
    ensures
        (e is PollSubscribeAck || e is PollDelivery || e is PollOther || e is PollNothing)
            ==> transition(SessionState::AwaitingPublishComplete, e) == (
            SessionState::AwaitingPublishComplete,
            seq![SessionAction::Log(Note::EventIgnored), SessionAction::Poll],
        ),
        e is PollPublishComplete ==> transition(SessionState::AwaitingPublishComplete, e).0
            == SessionState::Subscribing,
{
}

} // verus!
