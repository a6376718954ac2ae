//! Events, commands, and the queues that carry them.
//!
//! `Event` is the normalized occurrence delivered to the interactive loop;
//! `Command` is the user-initiated action destined for the session watcher.
//! `EventQueue` is the ordered multi-producer/single-consumer channel between
//! them, with its capacity policy exposed as configuration; `CommandQueue` is
//! the inlet from the interactive loop to the watcher.  Both queues remove
//! from the front of their contents, so a producer's own emission order is
//! preserved at the consumer.

use crate::state::PlaybackSnapshot;
use vstd::prelude::*;

verus! {

/// A user action, already mapped from a raw key by the input source.
#[derive(Clone, Debug, PartialEq, Eq)]
pub enum UserAction {
    TogglePlayback,
    NextTrack,
    PreviousTrack,
    SelectDevice(String),
    SetVolume(u8),
}

/// A normalized occurrence delivered to the interactive loop.
#[derive(Clone, Debug, PartialEq, Eq)]
pub enum Event {
    UserInput(UserAction),
    Tick(u64),
    RemoteChange(PlaybackSnapshot),
    Shutdown,
}

/// A user-initiated action executed against the remote service.
#[derive(Clone, Debug, PartialEq, Eq)]
pub enum Command {
    Play,
    Pause,
    SkipNext,
    SkipPrevious,
    SetDevice(String),
    SetVolume(u8),
}

/// What a bounded queue does when it is full: make the producer wait, or
/// discard the oldest pending event.
#[derive(Clone, Copy, Debug, PartialEq, Eq)]
pub enum OverflowPolicy {
    Block,
    DropOldest,
}

/// The capacity policy of the event queue, a deliberate configuration choice.
#[derive(Clone, Copy, Debug, PartialEq, Eq)]
pub enum Capacity {
    Unbounded,
    Bounded { cap: usize, policy: OverflowPolicy },
}

/// What a producer's push did.  `Closed` is not an error: a producer that
/// observes it exits cleanly.
#[derive(Clone, Copy, Debug, PartialEq, Eq)]
pub enum PushOutcome {
    /// The event stands at the back of the queue.
    Accepted,
    /// The queue was full under the blocking policy; nothing changed, the
    /// producer should wait and try again.
    WouldBlock,
    /// The queue was full under the drop-oldest policy; the oldest pending
    /// event was discarded and the new one stands at the back.
    DroppedOldest,
    /// The queue is closed; nothing changed.
    Closed,
}

/// The ordered multi-producer/single-consumer event channel.
pub struct EventQueue {
    items: Vec<Event>,
    capacity: Capacity,
    closed: bool,
}

impl EventQueue {
    /// The pending events, oldest first.
    pub closed spec fn contents(self) -> Seq<Event> {
        self.items@
    }

    /// Whether the queue has been closed.
    pub closed spec fn is_closed(self) -> bool {
        self.closed
    }

    /// The capacity policy the queue was created with.
    pub closed spec fn cap_policy(self) -> Capacity {
        self.capacity
    }

    /// The bound is positive (a queue that could hold nothing is not a
    /// channel) and the contents respect it.
    pub open spec fn wf(self) -> bool {
        self.cap_policy() matches Capacity::Bounded { cap, .. } ==> self.contents().len() <= cap
            && cap >= 1
    }

    /// Creates an empty, open queue under the given capacity policy.
    pub fn new(capacity: Capacity) -> (r: Self)
        requires
            capacity matches Capacity::Bounded { cap, .. } ==> cap >= 1,
        ensures
            r.contents() == Seq::<Event>::empty(),
            !r.is_closed(),
            r.cap_policy() == capacity,
            r.wf(),
    {
        EventQueue { items: Vec::new(), capacity, closed: false }
    }

    /// How many events are pending.
    pub fn len(&self) -> (r: usize)
        ensures
            r == self.contents().len(),
    {
        self.items.len()
    }

    /// Whether `close` has been called.
    pub fn closed(&self) -> (r: bool)
        ensures
            r == self.is_closed(),
    {
        self.closed
    }

    /// A producer pushes one event.  On an open queue with room the event is
    /// appended; a full queue either refuses (blocking policy) or discards
    /// its oldest event first (drop-oldest); a closed queue refuses and the
    /// producer observes closure through the outcome, never through a crash.
    pub fn push(&mut self, e: Event) -> (r: PushOutcome)
        requires
            old(self).wf(),
        ensures
            final(self).wf(),
            final(self).is_closed() == old(self).is_closed(),
            final(self).cap_policy() == old(self).cap_policy(),
            old(self).is_closed() ==> r is Closed && final(self).contents() == old(self).contents(),
            !old(self).is_closed() ==> match old(self).cap_policy() {
                Capacity::Unbounded => r is Accepted && final(self).contents() == old(self).contents().push(e),
                Capacity::Bounded { cap, policy } => {
                    if old(self).contents().len() < cap {
                        r is Accepted && final(self).contents() == old(self).contents().push(e)
                    } else {
                        match policy {
                            OverflowPolicy::Block => r is WouldBlock && final(self).contents()
                                == old(self).contents(),
                            OverflowPolicy::DropOldest => r is DroppedOldest && final(self).contents() == old(self).contents().drop_first().push(e),
                        }
                    }
                },
            },
    {
        if self.closed {
            return PushOutcome::Closed;
        }
        match self.capacity {
            Capacity::Unbounded => {
                self.items.push(e);
                PushOutcome::Accepted
            },
            Capacity::Bounded { cap, policy: OverflowPolicy::Block } => {
                if self.items.len() < cap {
                    self.items.push(e);
                    PushOutcome::Accepted
                } else {
                    PushOutcome::WouldBlock
                }
            },
            Capacity::Bounded { cap, policy: OverflowPolicy::DropOldest } => {
                if self.items.len() < cap {
                    self.items.push(e);
                    PushOutcome::Accepted
                } else {
                    self.items.remove(0);
                    self.items.push(e);
                    PushOutcome::DroppedOldest
                }
            },
        }
    }

    /// The consumer takes the oldest pending event, if any.  Removing always
    /// from the front is what preserves each producer's emission order.
    pub fn pop(&mut self) -> (r: Option<Event>)
        ensures
            final(self).is_closed() == old(self).is_closed(),
            final(self).cap_policy() == old(self).cap_policy(),
            old(self).contents().len() == 0 ==> r is None && final(self).contents() == old(self).contents(),
            old(self).contents().len() > 0 ==> r == Some(old(self).contents()[0]) && final(self).contents() == old(self).contents().drop_first(),
            old(self).wf() ==> final(self).wf(),
    {
        if self.items.len() == 0 {
            None
        } else {
            let e = self.items.remove(0);
            Some(e)
        }
    }

    /// Closes the queue.  Pending events stay and can still be drained; new
    /// pushes are refused with `Closed`.
    pub fn close(&mut self)
        ensures
            final(self).is_closed(),
            final(self).contents() == old(self).contents(),
            final(self).cap_policy() == old(self).cap_policy(),
    {
        self.closed = true;
    }
}

/// A single producer's own emission order survives any interleaving: if a
/// producer pushed `e1` onto a queue holding `before`, other producers then
/// pushed `between`, and the producer pushed `e2`, then `e1` stands at a
/// strictly smaller index of the contents than `e2`.  Nothing is claimed
/// about where the interleaved events of other producers stand.
pub proof fn lemma_single_producer_order(
    before: Seq<Event>,
    between: Seq<Event>,
    e1: Event,
    e2: Event,
)
    ensures
        ({
            let s = before.push(e1) + between + seq![e2];
            &&& s.len() == before.len() + between.len() + 2
            &&& s[before.len() as int] == e1
            &&& s[s.len() - 1] == e2
            &&& before.len() < s.len() - 1
        }),
{
    let s = before.push(e1) + between + seq![e2];
    assert(s[before.len() as int] == e1);
    assert(s[s.len() - 1] == e2);
}

/// The consumer observes a queue's contents in index order: `pop` leaves
/// `drop_first` of the contents and returns the front, so after `k` pops of
/// a queue that held `s` the contents are `s.skip(k)`, the next pop returns
/// `s[k]`, and it leaves `s.skip(k + 1)`.  With the previous lemma: an event
/// at a smaller index — a producer's earlier emission — is observed strictly
/// before one at a larger.
pub proof fn lemma_pops_observe_in_order(s: Seq<Event>, k: int)
    requires
        0 <= k < s.len(),
    ensures
        s.skip(k)[0] == s[k],
        s.skip(k).drop_first() == s.skip(k + 1),
{
    assert(s.skip(k).drop_first() =~= s.skip(k + 1));
}

/// The inlet of commands from the interactive loop to the session watcher:
/// an unbounded first-in/first-out queue.
pub struct CommandQueue {
    items: Vec<Command>,
}

impl CommandQueue {
    /// The pending commands, oldest first.
    pub closed spec fn contents(self) -> Seq<Command> {
        self.items@
    }

    /// Creates an empty inlet.
    pub fn new() -> (r: Self)
        ensures
            r.contents() == Seq::<Command>::empty(),
    {
        CommandQueue { items: Vec::new() }
    }

    /// How many commands are pending.
    pub fn len(&self) -> (r: usize)
        ensures
            r == self.contents().len(),
    {
        self.items.len()
    }

    /// The interactive loop hands a command to the watcher.
    pub fn push(&mut self, c: Command)
        ensures
            final(self).contents() == old(self).contents().push(c),
    {
        self.items.push(c);
    }

    /// The watcher takes the oldest pending command, if any.
    pub fn pop(&mut self) -> (r: Option<Command>)
        ensures
            old(self).contents().len() == 0 ==> r is None && final(self).contents() == old(self).contents(),
            old(self).contents().len() > 0 ==> r == Some(old(self).contents()[0]) && final(self).contents() == old(self).contents().drop_first(),
    {
        if self.items.len() == 0 {
            None
        } else {
            let c = self.items.remove(0);
            Some(c)
        }
    }
}

} // verus!
