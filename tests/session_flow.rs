use mqtt_led::light::{encode_light, DecodeError, Light};
use mqtt_led::link::{link_step, LinkAction, LinkEvent, LinkState, RELINK_DELAY_MS};
use mqtt_led::session::{
    is_command_topic, on_delivery, step, Note, SessionAction, SessionEvent, SessionState,
    CONNECT_RETRY_MS, NETWORK_POLL_MS, POLL_RETRY_MS,
};
use mqtt_led::status::Ready;

fn topic() -> Vec<u8> {
    b"el".to_vec()
}

fn delivery(payload: Vec<u8>) -> SessionEvent {
    SessionEvent::PollDelivery { topic: topic(), payload }
}

#[test]
fn three_failed_connects_then_success() {
    let mut state = SessionState::TransportConnecting;
    let mut actions = Vec::new();
    let events = [false, false, false, true];
    for ok in events {
        let (next, acts) = step(state, &SessionEvent::TransportConnected(ok));
        state = next;
        actions.extend(acts);
    }
    assert_eq!(state, SessionState::Handshake);
    let failures = actions.iter().filter(|a| **a == SessionAction::Log(Note::ConnectFailed)).count();
    let waits = actions.iter().filter(|a| **a == SessionAction::Wait(CONNECT_RETRY_MS)).count();
    assert_eq!(failures, 3);
    assert_eq!(waits, 3);
    assert_eq!(CONNECT_RETRY_MS, 5000);
    assert_eq!(actions.last(), Some(&SessionAction::SendConnect));
    assert!(actions.contains(&SessionAction::Announce(Ready::tcp())));
}

#[test]
fn publish_wait_exits_only_on_completion() {
    let s = SessionState::AwaitingPublishComplete;
    let others = [
        SessionEvent::PollOther,
        SessionEvent::PollSubscribeAck,
        SessionEvent::PollNothing,
        delivery(encode_light(&Light::get_on(1))),
    ];
    for e in others.iter() {
        let (next, acts) = step(s, e);
        assert_eq!(next, s);
        assert_eq!(acts, vec![SessionAction::Log(Note::EventIgnored), SessionAction::Poll]);
    }
    let (next, acts) = step(s, &SessionEvent::PollPublishComplete);
    assert_eq!(next, SessionState::Subscribing);
    assert_eq!(acts, vec![SessionAction::Log(Note::PublishComplete), SessionAction::SendSubscribe]);
}

#[test]
fn bad_payload_does_not_stop_the_next_good_one() {
    let (s1, a1) = step(SessionState::Polling, &delivery(b"junk".to_vec()));
    assert_eq!(s1, SessionState::Polling);
    assert_eq!(
        a1,
        vec![SessionAction::Log(Note::DecodeFailed(DecodeError::Malformed)), SessionAction::Poll]
    );
    let good = Light::get_on(2);
    let (s2, a2) = step(s1, &delivery(encode_light(&good)));
    assert_eq!(s2, SessionState::Polling);
    assert_eq!(a2, vec![SessionAction::Forward(good), SessionAction::Poll]);
}

#[test]
fn every_exit_resets_the_buffer_first() {
    let exits = [
        (SessionState::Handshake, SessionEvent::HandshakeDone(false), Note::HandshakeFailed),
        (SessionState::Publishing, SessionEvent::Published(false), Note::PublishFailed),
        (SessionState::AwaitingPublishComplete, SessionEvent::PollFailed, Note::PollFailed),
        (SessionState::Subscribing, SessionEvent::Subscribed(false), Note::SubscribeFailed),
        (SessionState::Polling, SessionEvent::PollFailed, Note::PollFailed),
    ];
    for (s, e, note) in exits.iter() {
        let (next, acts) = step(*s, e);
        assert_eq!(next, SessionState::Teardown);
        assert_eq!(
            acts,
            vec![SessionAction::Log(*note), SessionAction::ResetBuffer, SessionAction::SendDisconnect]
        );
    }
    let (next, acts) = step(SessionState::Teardown, &SessionEvent::Disconnected(false));
    assert_eq!(next, SessionState::Idle);
    assert_eq!(acts, vec![SessionAction::Log(Note::DisconnectFailed)]);
    let (next, acts) = step(SessionState::Teardown, &SessionEvent::Disconnected(true));
    assert_eq!(next, SessionState::Idle);
    assert!(acts.is_empty());
}

#[test]
fn a_whole_attempt_from_idle_to_polling() {
    let script = [
        (SessionEvent::Start, SessionState::AwaitingNetwork),
        (SessionEvent::NetworkReady(false), SessionState::AwaitingNetwork),
        (SessionEvent::NetworkReady(true), SessionState::TransportConnecting),
        (SessionEvent::TransportConnected(true), SessionState::Handshake),
        (SessionEvent::HandshakeDone(true), SessionState::Publishing),
        (SessionEvent::Published(true), SessionState::AwaitingPublishComplete),
        (SessionEvent::PollPublishComplete, SessionState::Subscribing),
        (SessionEvent::Subscribed(true), SessionState::Polling),
        (SessionEvent::PollSubscribeAck, SessionState::Polling),
        (SessionEvent::PollFailed, SessionState::Teardown),
        (SessionEvent::Disconnected(true), SessionState::Idle),
    ];
    let mut state = SessionState::Idle;
    let mut all = Vec::new();
    for (e, expected) in script.iter() {
        let (next, acts) = step(state, e);
        assert_eq!(next, *expected);
        state = next;
        all.extend(acts);
    }
    assert!(all.contains(&SessionAction::Wait(NETWORK_POLL_MS)));
    assert!(all.contains(&SessionAction::Announce(Ready::ip())));
    assert!(all.contains(&SessionAction::Log(Note::SubscribeAcked)));
    let reset = all.iter().position(|a| *a == SessionAction::ResetBuffer).unwrap();
    let disconnect = all.iter().position(|a| *a == SessionAction::SendDisconnect).unwrap();
    assert!(reset < disconnect);
}

#[test]
fn events_out_of_place_change_nothing() {
    let (next, acts) = step(SessionState::Idle, &SessionEvent::PollFailed);
    assert_eq!(next, SessionState::Idle);
    assert!(acts.is_empty());
    let (next, acts) = step(SessionState::Polling, &SessionEvent::TransportConnected(true));
    assert_eq!(next, SessionState::Polling);
    assert!(acts.is_empty());
}

#[test]
fn deliveries_on_other_topics_are_ignored() {
    let payload = encode_light(&Light::get_on(2));
    let acts = on_delivery(&b"other".to_vec(), &payload);
    assert_eq!(acts, vec![SessionAction::Log(Note::EventIgnored), SessionAction::Poll]);
    let acts = on_delivery(&topic(), &vec![0xa1, 0x00, 0xf5]);
    assert_eq!(
        acts,
        vec![SessionAction::Log(Note::DecodeFailed(DecodeError::MissingField)), SessionAction::Poll]
    );
    assert!(is_command_topic(&topic()));
    assert!(!is_command_topic(&b"e".to_vec()));
    assert!(!is_command_topic(&b"ela".to_vec()));
}

#[test]
fn link_retries_after_a_fixed_delay() {
    let (s, a) = link_step(LinkState::Connecting, LinkEvent::AssociationResult(false));
    assert_eq!(s, LinkState::Checking);
    assert_eq!(
        a,
        vec![LinkAction::LogAssociationFailed, LinkAction::Wait(RELINK_DELAY_MS), LinkAction::QueryAssociation]
    );
    let (s, a) = link_step(LinkState::Connected, LinkEvent::Dropped);
    assert_eq!(s, LinkState::CheckingStarted);
    assert_eq!(a, vec![LinkAction::Wait(5000), LinkAction::QueryStarted]);
}

#[test]
fn link_starts_the_radio_once() {
    let (s, a) = link_step(LinkState::Checking, LinkEvent::Associated(false));
    assert_eq!((s, a), (LinkState::CheckingStarted, vec![LinkAction::QueryStarted]));
    let (s, a) = link_step(s, LinkEvent::RadioStarted(false));
    assert_eq!((s, a), (LinkState::Starting, vec![LinkAction::StartRadio]));
    let (s, a) = link_step(s, LinkEvent::StartDone);
    assert_eq!((s, a), (LinkState::Connecting, vec![LinkAction::Associate]));
    let (s, a) = link_step(s, LinkEvent::AssociationResult(true));
    assert_eq!(s, LinkState::Checking);
    assert_eq!(a, vec![LinkAction::LogAssociated, LinkAction::QueryAssociation]);
    let (s, a) = link_step(s, LinkEvent::Associated(true));
    assert_eq!((s, a), (LinkState::Connected, vec![LinkAction::AwaitDrop]));
    let (s, a) = link_step(LinkState::Checking, LinkEvent::Associated(false));
    let (s, a2) = link_step(s, LinkEvent::RadioStarted(true));
    assert_eq!(a, vec![LinkAction::QueryStarted]);
    assert_eq!((s, a2), (LinkState::Connecting, vec![LinkAction::Associate]));
}

#[test]
fn recoverable_poll_error_waits_and_polls_again() {
    for s in [SessionState::Polling, SessionState::AwaitingPublishComplete] {
        let (next, acts) = step(s, &SessionEvent::PollRetryable);
        assert_eq!(next, s);
        assert_eq!(
            acts,
            vec![
                SessionAction::Log(Note::PollRetrying),
                SessionAction::Wait(POLL_RETRY_MS),
                SessionAction::Poll
            ]
        );
    }
}
