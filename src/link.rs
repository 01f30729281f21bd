//! The decisions of the link supervisor, which keeps the radio associated
//! with the configured network: the driver performs each action and reports
//! what it observed as the next event. The loop never ends.
use vstd::prelude::*;

verus! {

/// Pause after a failed association or a lost link, in milliseconds.
pub const RELINK_DELAY_MS: u64 = 5000;

/// Where the supervisor stands.
#[derive(Debug, Clone, Copy, PartialEq, Eq, Structural)]
pub enum LinkState {
    /// Asking whether the station is associated.
    Checking,
    /// Associated; waiting for the link to drop.
    Connected,
    /// Asking whether the radio has been started.
    CheckingStarted,
    /// Configuring, starting and scanning.
    Starting,
    /// An association attempt is under way.
    Connecting,
}

/// What the driver observed.
#[derive(Debug, Clone, Copy, PartialEq, Eq, Structural)]
pub enum LinkEvent {
    /// Whether the station is associated.
    Associated(bool),
    /// The link dropped.
    Dropped,
    /// Whether the radio has been started.
    RadioStarted(bool),
    /// Configuration, start and scan are done.
    StartDone,
    /// Whether the association attempt succeeded.
    AssociationResult(bool),
}

/// What the driver must do next.
#[derive(Debug, Clone, Copy, PartialEq, Eq, Structural)]
pub enum LinkAction {
    /// Ask whether the station is associated.
    QueryAssociation,
    /// Wait until the link drops.
    AwaitDrop,
    /// Ask whether the radio has been started.
    QueryStarted,
    /// Set the network name and passphrase, start the radio, scan.
    StartRadio,
    /// Try to associate.
    Associate,
    /// Sleep this many milliseconds.
    Wait(u64),
    /// Log that association failed.
    LogAssociationFailed,
    /// Log that association succeeded.
    LogAssociated,
}

/// The next state and the actions to perform, from `s` on event `e`. An
/// event that does not belong to `s` changes nothing.
pub open spec fn link_transition(s: LinkState, e: LinkEvent) -> (LinkState, Seq<LinkAction>) {
    match (s, e) {
        (LinkState::Checking, LinkEvent::Associated(yes)) => if yes {
            (LinkState::Connected, seq![LinkAction::AwaitDrop])
        } else {
            (LinkState::CheckingStarted, seq![LinkAction::QueryStarted])
        },
        (LinkState::Connected, LinkEvent::Dropped) => (
            LinkState::CheckingStarted,
            seq![LinkAction::Wait(RELINK_DELAY_MS), LinkAction::QueryStarted],
        ),
        (LinkState::CheckingStarted, LinkEvent::RadioStarted(yes)) => if yes {
            (LinkState::Connecting, seq![LinkAction::Associate])
        } else {
            (LinkState::Starting, seq![LinkAction::StartRadio])
        },
        (LinkState::Starting, LinkEvent::StartDone) => (
            LinkState::Connecting,
            seq![LinkAction::Associate],
        ),
        (LinkState::Connecting, LinkEvent::AssociationResult(ok)) => if ok {
            (LinkState::Checking, seq![LinkAction::LogAssociated, LinkAction::QueryAssociation])
        } else {
            (
                LinkState::Checking,
                seq![
                    LinkAction::LogAssociationFailed,
                    LinkAction::Wait(RELINK_DELAY_MS),
                    LinkAction::QueryAssociation,
                ],
            )
        },
        _ => (s, seq![]),
    }
}

/// Advances the supervisor from `s` on event `e`.
pub fn link_step(s: LinkState, e: LinkEvent) -> (r: (LinkState, Vec<LinkAction>))
    ensures
        (r.0, r.1@) == link_transition(s, e),
{
    let mut acts: Vec<LinkAction> = Vec::new();
    let next = match (s, e) {
        (LinkState::Checking, LinkEvent::Associated(yes)) => if yes {
            acts.push(LinkAction::AwaitDrop);
            LinkState::Connected
        } else {
            acts.push(LinkAction::QueryStarted);
            LinkState::CheckingStarted
        },
        (LinkState::Connected, LinkEvent::Dropped) => {
            acts.push(LinkAction::Wait(RELINK_DELAY_MS));
            acts.push(LinkAction::QueryStarted);
            LinkState::CheckingStarted
        },
        (LinkState::CheckingStarted, LinkEvent::RadioStarted(yes)) => if yes {
            acts.push(LinkAction::Associate);
            LinkState::Connecting
        } else {
            acts.push(LinkAction::StartRadio);
            LinkState::Starting
        },
        (LinkState::Starting, LinkEvent::StartDone) => {
            acts.push(LinkAction::Associate);
            LinkState::Connecting
        },
        (LinkState::Connecting, LinkEvent::AssociationResult(ok)) => if ok {
            acts.push(LinkAction::LogAssociated);
            acts.push(LinkAction::QueryAssociation);
            LinkState::Checking
        } else {
            acts.push(LinkAction::LogAssociationFailed);
            acts.push(LinkAction::Wait(RELINK_DELAY_MS));
            acts.push(LinkAction::QueryAssociation);
            LinkState::Checking
        },
        _ => s,
    };
    assert(acts@ =~= link_transition(s, e).1);
    (next, acts)
}

/// Every failed association and every lost link is followed by the fixed
/// delay before the supervisor tries again.
pub proof fn lemma_relink_waits(s: LinkState, e: LinkEvent)
    ensures
        (s == LinkState::Connecting && e == LinkEvent::AssociationResult(false)) || (s
            == LinkState::Connected && e == LinkEvent::Dropped) ==> link_transition(s, e).1.contains(
            LinkAction::Wait(RELINK_DELAY_MS),
        ),
{
    if s == LinkState::Connecting && e == LinkEvent::AssociationResult(false) {
        assert(link_transition(s, e).1[1] == LinkAction::Wait(RELINK_DELAY_MS));
    }
    if s == LinkState::Connected && e == LinkEvent::Dropped {
        assert(link_transition(s, e).1[0] == LinkAction::Wait(RELINK_DELAY_MS));
    }
}

} // verus!
