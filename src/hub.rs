use crate::message::Message;
use std::collections::VecDeque;
use vstd::prelude::*;

verus! {

/// How many of the most recent messages the hub keeps for its subscribers.
pub const CAPACITY: usize = 1024;

/// Why a publish stored nothing.
#[derive(Debug, Clone, Copy, PartialEq, Eq, Structural)]
pub enum SendError {
    /// No subscription is registered: the message is discarded.
    NoSubscribers,
    /// The hub has been closed and takes no more messages.
    Closed,
}

/// What one receive attempt on a subscription observes.
#[derive(Debug)]
pub enum RecvOutcome {
    /// The next message, in publish order, that the cursor had not yet seen.
    Delivered(Message),
    /// The cursor fell behind the buffer: this many unseen messages were
    /// evicted, and the cursor now stands at the oldest one still held.
    Lagged(u64),
    /// The cursor has caught up; a later publish may deliver more.
    Empty,
    /// The hub is closed and the cursor has caught up: nothing more will come.
    Closed,
}

/// Position of the oldest message still held once `total` have been stored.
pub open spec fn window_start(total: nat) -> nat {
    if total > CAPACITY {
        (total - CAPACITY) as nat
    } else {
        0
    }
}

/// One receive attempt by a cursor at `pos` on a hub that has stored
/// `history`: the outcome and the cursor's next position.
pub open spec fn recv_spec(history: Seq<Message>, closed: bool, pos: nat) -> (RecvOutcome, nat) {
    let start = window_start(history.len());
    if pos < start {
        (RecvOutcome::Lagged((start - pos) as u64), start)
    } else if pos < history.len() {
        (RecvOutcome::Delivered(history[pos as int]), pos + 1)
    } else if closed {
        (RecvOutcome::Closed, pos)
    } else {
        (RecvOutcome::Empty, pos)
    }
}

/// The shared buffer of the most recent messages and the count of
/// registered subscriptions.
pub struct Hub {
    buffer: VecDeque<Message>,
    total: u64,
    subscribers: usize,
    closed: bool,
    stored: Ghost<Seq<Message>>,
}

/// A consumer's private cursor into a hub: the position, in publish order,
/// of the next message it will read.
pub struct Subscription {
    next: u64,
}

impl Subscription {
    pub closed spec fn position(&self) -> nat {
        self.next as nat
    }

    /// Takes the next event for this cursor from `hub`.
    pub fn recv(&mut self, hub: &Hub) -> (r: RecvOutcome)
        requires
            hub.wf(),
            old(self).position() <= hub.history().len(),
        ensures
            (r, final(self).position()) == recv_spec(
                hub.history(),
                hub.is_closed(),
                old(self).position(),
            ),
            final(self).position() <= hub.history().len(),
    {
        let total = hub.total;
        let start: u64 = if total > CAPACITY as u64 {
            total - CAPACITY as u64
        } else {
            0
        };
        if self.next < start {
            let skipped: u64 = start - self.next;
            self.next = start;
            RecvOutcome::Lagged(skipped)
        } else if self.next < total {
            let idx: usize = (self.next - start) as usize;
            let msg = hub.buffer[idx].duplicate();
            self.next = self.next + 1;
            RecvOutcome::Delivered(msg)
        } else if hub.closed {
            RecvOutcome::Closed
        } else {
            RecvOutcome::Empty
        }
    }
}

impl Hub {
    /// Every message stored so far, in publish order (evicted ones included).
    pub closed spec fn history(&self) -> Seq<Message> {
        self.stored@
    }

    pub closed spec fn subscriber_count(&self) -> nat {
        self.subscribers as nat
    }

    pub closed spec fn is_closed(&self) -> bool {
        self.closed
    }

    /// The messages still held: the most recent `CAPACITY` of the history.
    pub closed spec fn held(&self) -> Seq<Message> {
        self.buffer@
    }

    pub closed spec fn wf(&self) -> bool {
        &&& self.stored@.len() == self.total
        &&& self.buffer@ == self.stored@.subrange(
            window_start(self.total as nat) as int,
            self.total as int,
        )
    }

    pub proof fn lemma_held(&self)
        requires
            self.wf(),
        ensures
            self.held() == self.history().subrange(
                window_start(self.history().len()) as int,
                self.history().len() as int,
            ),
            self.held().len() <= CAPACITY,
    {
    }

    /// An open hub with no messages and no subscriptions.
    pub fn new() -> (r: Hub)
        ensures
            r.wf(),
            r.history() == Seq::<Message>::empty(),
            r.subscriber_count() == 0,
            !r.is_closed(),
    {
        let r = Hub {
            buffer: VecDeque::new(),
            total: 0,
            subscribers: 0,
            closed: false,
            stored: Ghost(Seq::empty()),
        };
        assert(r.buffer@ =~= r.stored@.subrange(0, 0));
        r
    }

    /// Stores `msg` for every registered subscription, evicting the oldest
    /// held message when the buffer is full. With no subscription, or on a
    /// closed hub, the message is discarded and nothing changes.
    pub fn publish(&mut self, msg: Message) -> (r: Result<usize, SendError>)
        requires
            old(self).wf(),
            old(self).subscriber_count() > 0 && !old(self).is_closed() ==> old(self).history().len()
            < u64::MAX,
        ensures
            final(self).wf(),
            final(self).held().len() <= CAPACITY,
            final(self).subscriber_count() == old(self).subscriber_count(),
            final(self).is_closed() == old(self).is_closed(),
            old(self).is_closed() ==> r == Err::<usize, SendError>(SendError::Closed)
                && final(self).history() == old(self).history(),
            !old(self).is_closed() && old(self).subscriber_count() == 0 ==> r == Err::<
                usize,
                SendError,
            >(SendError::NoSubscribers) && final(self).history() == old(self).history(),
            !old(self).is_closed() && old(self).subscriber_count() > 0 ==> r == Ok::<
                usize,
                SendError,
            >(old(self).subscriber_count() as usize) && final(self).history() == old(self).history().push(msg),
    {
        proof {
            self.lemma_held();
        }
        if self.closed {
            return Err(SendError::Closed);
        }
        if self.subscribers == 0 {
            return Err(SendError::NoSubscribers);
        }
        let ghost old_stored = self.stored@;
        let ghost old_buffer = self.buffer@;
        if self.buffer.len() == CAPACITY {
            let _evicted = self.buffer.pop_front();
        }
        self.buffer.push_back(msg);
        self.total = self.total + 1;
        self.stored = Ghost(old_stored.push(msg));
        assert(self.buffer@ =~= self.stored@.subrange(
            window_start(self.total as nat) as int,
            self.total as int,
        ));
        Ok(self.subscribers)
    }

    /// Registers a new cursor positioned at "now": it sees only messages
    /// published after this call.
    pub fn subscribe(&mut self) -> (r: Subscription)
        requires
            old(self).wf(),
            old(self).subscriber_count() < usize::MAX,
        ensures
            final(self).wf(),
            r.position() == old(self).history().len(),
            final(self).history() == old(self).history(),
            final(self).subscriber_count() == old(self).subscriber_count() + 1,
            final(self).is_closed() == old(self).is_closed(),
    {
        self.subscribers = self.subscribers + 1;
        Subscription { next: self.total }
    }

    /// Releases a subscription.
    pub fn unsubscribe(&mut self, sub: Subscription)
        requires
            old(self).wf(),
            old(self).subscriber_count() > 0,
        ensures
            final(self).wf(),
            final(self).history() == old(self).history(),
            final(self).subscriber_count() == old(self).subscriber_count() - 1,
            final(self).is_closed() == old(self).is_closed(),
    {
        self.subscribers = self.subscribers - 1;
    }

    /// Marks the hub as never publishing again.
    pub fn close(&mut self)
        requires
            old(self).wf(),
        ensures
            final(self).wf(),
            final(self).is_closed(),
            final(self).history() == old(self).history(),
            final(self).subscriber_count() == old(self).subscriber_count(),
    {
        self.closed = true;
    }

    /// How many messages have been stored so far.
    pub fn published(&self) -> (r: u64)
        requires
            self.wf(),
        ensures
            r == self.history().len(),
    {
        self.total
    }

    /// How many messages the buffer holds; never more than `CAPACITY`.
    pub fn buffered(&self) -> (r: usize)
        requires
            self.wf(),
        ensures
            r == self.held().len(),
            r <= CAPACITY,
            r == self.history().len() - window_start(self.history().len()),
    {
        self.buffer.len()
    }

    /// How many subscriptions are registered.
    pub fn subscribers(&self) -> (r: usize)
        ensures
            r == self.subscriber_count(),
    {
        self.subscribers
    }
}

} // verus!
