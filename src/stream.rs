use crate::hub::{recv_spec, Hub, RecvOutcome, Subscription};
use crate::message::Message;
use vstd::prelude::*;

verus! {

/// A single-fire cancellation signal shared by every streaming loop.
pub struct Shutdown {
    raised: bool,
}

impl Shutdown {
    pub closed spec fn raised(&self) -> bool {
        self.raised
    }

    /// A signal that has not fired.
    pub fn new() -> (r: Shutdown)
        ensures
            !r.raised(),
    {
        Shutdown { raised: false }
    }

    /// Fires the signal; it stays raised.
    pub fn raise(&mut self)
        ensures
            final(self).raised(),
    {
        self.raised = true;
    }

    pub fn is_raised(&self) -> (r: bool)
        ensures
            r == self.raised(),
    {
        self.raised
    }
}

/// The state of one streaming loop. A lag notification is drained inside a
/// single poll, so the loop is only ever seen running or closed.
#[derive(Debug, Clone, Copy, PartialEq, Eq, Structural)]
pub enum LoopState {
    Running,
    Closed,
}

/// What one poll of a streaming loop yields.
#[derive(Debug)]
pub enum Poll {
    /// One transport frame carrying this message.
    Frame(Message),
    /// Nothing to send yet: wait for a publish or for the shutdown signal.
    Pending,
    /// The loop has ended; no frame will follow.
    Finished,
}

/// What a running loop yields for a hub event, the lag notification aside.
pub open spec fn settle_spec(o: RecvOutcome) -> (Poll, LoopState) {
    match o {
        RecvOutcome::Delivered(m) => (Poll::Frame(m), LoopState::Running),
        RecvOutcome::Closed => (Poll::Finished, LoopState::Closed),
        _ => (Poll::Pending, LoopState::Running),
    }
}

/// One poll of a running loop whose cursor is at `pos`, with no shutdown:
/// the result, the next state and the cursor's next position. A lag is
/// skipped silently and the next message is taken at once.
pub open spec fn poll_spec(history: Seq<Message>, closed: bool, pos: nat) -> (Poll, LoopState, nat) {
    let (o, p) = recv_spec(history, closed, pos);
    match o {
        RecvOutcome::Lagged(_) => {
            let (o2, p2) = recv_spec(history, closed, p);
            (settle_spec(o2).0, settle_spec(o2).1, p2)
        },
        _ => (settle_spec(o).0, settle_spec(o).1, p),
    }
}

fn settle(o: RecvOutcome) -> (r: (Poll, LoopState))
    ensures
        r == settle_spec(o),
{
    match o {
        RecvOutcome::Delivered(m) => (Poll::Frame(m), LoopState::Running),
        RecvOutcome::Closed => (Poll::Finished, LoopState::Closed),
        RecvOutcome::Lagged(_) => (Poll::Pending, LoopState::Running),
        RecvOutcome::Empty => (Poll::Pending, LoopState::Running),
    }
}

/// Drives one outbound connection from its own subscription.
pub struct StreamingLoop {
    sub: Subscription,
    state: LoopState,
}

impl StreamingLoop {
    pub closed spec fn position(&self) -> nat {
        self.sub.position()
    }

    pub closed spec fn state(&self) -> LoopState {
        self.state
    }

    /// Opens a loop on a fresh subscription to `hub`.
    pub fn open(hub: &mut Hub) -> (r: StreamingLoop)
        requires
            old(hub).wf(),
            old(hub).subscriber_count() < usize::MAX,
        ensures
            final(hub).wf(),
            r.state() == LoopState::Running,
            r.position() == old(hub).history().len(),
            final(hub).history() == old(hub).history(),
            final(hub).subscriber_count() == old(hub).subscriber_count() + 1,
            final(hub).is_closed() == old(hub).is_closed(),
    {
        let sub = hub.subscribe();
        StreamingLoop { sub, state: LoopState::Running }
    }

    /// Whether the loop has ended.
    pub fn is_finished(&self) -> (r: bool)
        ensures
            r == (self.state() == LoopState::Closed),
    {
        self.state == LoopState::Closed
    }

    /// Runs the loop until it has a frame to send, has to wait, or ends.
    /// The shutdown signal wins whenever it is raised, whatever the hub
    /// still holds for this cursor.
    pub fn poll(&mut self, hub: &Hub, shutdown: &Shutdown) -> (r: Poll)
        requires
            hub.wf(),
            old(self).position() <= hub.history().len(),
        ensures
            final(self).position() <= hub.history().len(),
            old(self).state() == LoopState::Closed ==> r == Poll::Finished
                && final(self).state() == LoopState::Closed && final(self).position() == old(
                self,
            ).position(),
            old(self).state() == LoopState::Running && shutdown.raised() ==> r == Poll::Finished
                && final(self).state() == LoopState::Closed && final(self).position() == old(
                self,
            ).position(),
            old(self).state() == LoopState::Running && !shutdown.raised() ==> (
            r,
            final(self).state(),
            final(self).position(),
            ) == poll_spec(hub.history(), hub.is_closed(), old(self).position()),
    {
        if self.state == LoopState::Closed {
            return Poll::Finished;
        }
        if shutdown.is_raised() {
            self.state = LoopState::Closed;
            return Poll::Finished;
        }
        let first = self.sub.recv(hub);
        let o = match first {
            RecvOutcome::Lagged(_) => self.sub.recv(hub),
            other => other,
        };
        let (r, next) = settle(o);
        self.state = next;
        r
    }

    /// Ends the loop and releases its subscription.
    pub fn close(self, hub: &mut Hub)
        requires
            old(hub).wf(),
            old(hub).subscriber_count() > 0,
        ensures
            final(hub).wf(),
            final(hub).history() == old(hub).history(),
            final(hub).subscriber_count() == old(hub).subscriber_count() - 1,
            final(hub).is_closed() == old(hub).is_closed(),
    {
        hub.unsubscribe(self.sub);
    }
}

} // verus!
