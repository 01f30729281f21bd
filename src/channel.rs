//! The two bounded channels that feed the animator, and the stage that
//! merges them into one stream of animator events.
use crate::light::Light;
use crate::render::AnimatorEvent;
use crate::status::Ready;
use embassy_sync::blocking_mutex::raw::NoopRawMutex;
use embassy_sync::channel::{Channel, TrySendError};
use vstd::prelude::*;

verus! {

/// Number of items a channel holds before its producer must wait.
pub const CHANNEL_CAPACITY: usize = 3;

/// What a channel holding `items` holds after `x` is offered to it: `x`
/// joins the back if there is room, and nothing changes otherwise.
pub open spec fn offered<T>(items: Seq<T>, x: T) -> Seq<T> {
    if items.len() < CHANNEL_CAPACITY {
        items.push(x)
    } else {
        items
    }
}

/// A bounded FIFO channel of command records.
#[verifier::external_body]
pub struct CommandChannel {
    inner: Channel<NoopRawMutex, Light, CHANNEL_CAPACITY>,
}

/// The records waiting in `c`, oldest first.
pub uninterp spec fn command_items(c: CommandChannel) -> Seq<Light>;

impl CommandChannel {
    /// Relies on embassy_sync's `Channel::new`: a channel that holds nothing.
    #[verifier::external_body]
    fn empty() -> (r: Self)
        ensures
            command_items(r) == Seq::<Light>::empty(),
    {
        CommandChannel { inner: Channel::new() }
    }

    /// Relies on embassy_sync's `Channel::try_send`: the record joins the back
    /// unless the channel is full, in which case it is handed back.
    #[verifier::external_body]
    fn offer(&mut self, l: Light) -> (r: Result<(), Light>)
        ensures
            command_items(*old(self)).len() < CHANNEL_CAPACITY ==> r is Ok && command_items(*final(self))
                == command_items(*old(self)).push(l),
            command_items(*old(self)).len() >= CHANNEL_CAPACITY ==> r is Err && r->Err_0 == l
                && command_items(*final(self)) == command_items(*old(self)),
    {
        match self.inner.try_send(l) {
            Ok(()) => Ok(()),
            Err(TrySendError::Full(back)) => Err(back),
        }
    }

    /// Relies on embassy_sync's `Channel::try_receive`: the oldest record
    /// leaves, if there is one.
    #[verifier::external_body]
    fn take(&mut self) -> (r: Option<Light>)
        ensures
            command_items(*old(self)).len() == 0 ==> r is None && command_items(*final(self))
                == command_items(*old(self)),
            command_items(*old(self)).len() > 0 ==> r == Some(command_items(*old(self))[0])
                && command_items(*final(self)) == command_items(*old(self)).drop_first(),
    {
        self.inner.try_receive().ok()
    }
}

/// A bounded FIFO channel of network milestones.
#[verifier::external_body]
pub struct StatusChannel {
    inner: Channel<NoopRawMutex, Ready, CHANNEL_CAPACITY>,
}

/// The milestones waiting in `c`, oldest first.
pub uninterp spec fn status_items(c: StatusChannel) -> Seq<Ready>;

impl StatusChannel {
    /// Relies on embassy_sync's `Channel::new`: a channel that holds nothing.
    #[verifier::external_body]
    fn empty() -> (r: Self)
        ensures
            status_items(r) == Seq::<Ready>::empty(),
    {
        StatusChannel { inner: Channel::new() }
    }

    /// Relies on embassy_sync's `Channel::try_send`: the milestone joins the
    /// back unless the channel is full, in which case it is handed back.
    #[verifier::external_body]
    fn offer(&mut self, s: Ready) -> (r: Result<(), Ready>)
        ensures
            status_items(*old(self)).len() < CHANNEL_CAPACITY ==> r is Ok && status_items(*final(self))
                == status_items(*old(self)).push(s),
            status_items(*old(self)).len() >= CHANNEL_CAPACITY ==> r is Err && r->Err_0 == s
                && status_items(*final(self)) == status_items(*old(self)),
    {
        match self.inner.try_send(s) {
            Ok(()) => Ok(()),
            Err(TrySendError::Full(back)) => Err(back),
        }
    }

    /// Relies on embassy_sync's `Channel::try_receive`: the oldest milestone
    /// leaves, if there is one.
    #[verifier::external_body]
    fn take(&mut self) -> (r: Option<Ready>)
        ensures
            status_items(*old(self)).len() == 0 ==> r is None && status_items(*final(self))
                == status_items(*old(self)),
            status_items(*old(self)).len() > 0 ==> r == Some(status_items(*old(self))[0])
                && status_items(*final(self)) == status_items(*old(self)).drop_first(),
    {
        self.inner.try_receive().ok()
    }
}

/// Both channels of the animator and whose turn it is when both hold an item.
pub struct Inbox {
    pub commands: CommandChannel,
    pub statuses: StatusChannel,
    /// Whether a milestone goes first the next time both channels hold one.
    pub status_turn: bool,
}

impl Inbox {
    /// The records waiting for the animator.
    pub open spec fn pending_commands(&self) -> Seq<Light> {
        command_items(self.commands)
    }

    /// The milestones waiting for the animator.
    pub open spec fn pending_statuses(&self) -> Seq<Ready> {
        status_items(self.statuses)
    }

    /// Two empty channels; commands go first at the start.
    pub fn new() -> (r: Self)
        ensures
            r.pending_commands() == Seq::<Light>::empty(),
            r.pending_statuses() == Seq::<Ready>::empty(),
            !r.status_turn,
    {
        Inbox { commands: CommandChannel::empty(), statuses: StatusChannel::empty(), status_turn: false }
    }

    /// Offers a command record. When the channel is full the record is handed
    /// back untouched and the producer must wait; nothing queued is lost.
    pub fn send_command(&mut self, l: Light) -> (r: Result<(), Light>)
        ensures
            final(self).pending_commands() == offered(old(self).pending_commands(), l),
            final(self).pending_statuses() == old(self).pending_statuses(),
            final(self).status_turn == old(self).status_turn,
            r is Ok <==> old(self).pending_commands().len() < CHANNEL_CAPACITY,
            r is Err ==> r->Err_0 == l,
    {
        self.commands.offer(l)
    }

    /// Offers a milestone. When the channel is full the milestone is handed
    /// back untouched and the producer must wait; nothing queued is lost.
    pub fn send_status(&mut self, s: Ready) -> (r: Result<(), Ready>)
        ensures
            final(self).pending_statuses() == offered(old(self).pending_statuses(), s),
            final(self).pending_commands() == old(self).pending_commands(),
            final(self).status_turn == old(self).status_turn,
            r is Ok <==> old(self).pending_statuses().len() < CHANNEL_CAPACITY,
            r is Err ==> r->Err_0 == s,
    {
        self.statuses.offer(s)
    }

    /// The next event for the animator, if either channel holds one. When
    /// both do, they take turns, so neither can starve the other.
    pub fn next_event(&mut self) -> (r: Option<AnimatorEvent>)
        ensures
            ({
                let c = old(self).pending_commands();
                let s = old(self).pending_statuses();
                let take_status = s.len() > 0 && (c.len() == 0 || old(self).status_turn);
                if take_status {
                    r == Some(AnimatorEvent::Status(s[0])) && final(self).pending_statuses()
                        == s.drop_first() && final(self).pending_commands() == c
                        && !final(self).status_turn
                } else if c.len() > 0 {
                    r == Some(AnimatorEvent::Command(c[0])) && final(self).pending_commands()
                        == c.drop_first() && final(self).pending_statuses() == s
                        && final(self).status_turn
                } else {
                    r is None && final(self).pending_commands() == c
                        && final(self).pending_statuses() == s && final(self).status_turn
                        == old(self).status_turn
                }
            }),
    {
        if self.status_turn {
            match self.statuses.take() {
                Some(s) => {
                    self.status_turn = false;
                    Some(AnimatorEvent::Status(s))
                },
                None => match self.commands.take() {
                    Some(l) => {
                        self.status_turn = true;
                        Some(AnimatorEvent::Command(l))
                    },
                    None => None,
                },
            }
        } else {
            match self.commands.take() {
                Some(l) => {
                    self.status_turn = true;
                    Some(AnimatorEvent::Command(l))
                },
                None => match self.statuses.take() {
                    Some(s) => {
                        self.status_turn = false;
                        Some(AnimatorEvent::Status(s))
                    },
                    None => None,
                },
            }
        }
    }
}

/// A channel with room keeps what it holds and adds the new item at the
/// back; a full channel refuses the new item and keeps exactly what it
/// holds. So with a stalled consumer, the first `CHANNEL_CAPACITY` sends
/// are kept in order and the next one must wait, overwriting nothing.
pub proof fn lemma_backpressure<T>(items: Seq<T>, x: T)
    ensures
        items.len() < CHANNEL_CAPACITY ==> offered(items, x) == items.push(x),
        items.len() >= CHANNEL_CAPACITY ==> offered(items, x) == items,
        offered(items, x).len() <= CHANNEL_CAPACITY || offered(items, x) == items,
{
}

/// Four sends into an empty channel with a stalled consumer: the first
/// three are kept in order, and the fourth is refused with all three kept.
pub proof fn lemma_fourth_send_waits<T>(a: T, b: T, c: T, d: T)
    ensures
        offered(offered(offered(Seq::<T>::empty(), a), b), c) == seq![a, b, c],
        seq![a, b, c].len() >= CHANNEL_CAPACITY,
        offered(seq![a, b, c], d) == seq![a, b, c],
{
    assert(offered(offered(offered(Seq::<T>::empty(), a), b), c) =~= seq![a, b, c]);
}

} // verus!
