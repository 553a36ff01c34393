use crate::hub::{recv_spec, window_start, RecvOutcome, CAPACITY};
use crate::message::Message;
use vstd::prelude::*;

verus! {

/// One event seen by a single subscription: a publish to the hub, one
/// receive attempt by the subscription, or the hub being closed.
pub enum Step {
    Publish(Message),
    Receive,
    Close,
}

/// The messages published by `steps`, in order.
pub open spec fn published(steps: Seq<Step>) -> Seq<Message>
    decreases steps.len(),
{
    if steps.len() == 0 {
        Seq::empty()
    } else {
        let before = published(steps.drop_last());
        match steps.last() {
            Step::Publish(m) => before.push(m),
            _ => before,
        }
    }
}

/// Whether `steps` leave the hub open.
pub open spec fn never_closes(steps: Seq<Step>) -> bool {
    forall|i: int| 0 <= i < steps.len() ==> !(#[trigger] steps[i] is Close)
}

/// Runs `steps` on a hub that has stored `history` and is closed or not,
/// for a live cursor at `pos`: the final history, the final cursor position,
/// the positions in the history of the messages delivered (in delivery
/// order), and whether the hub ends closed. A closed hub stores nothing.
pub open spec fn replay(steps: Seq<Step>, history: Seq<Message>, pos: nat, closed: bool) -> (
    Seq<Message>,
    nat,
    Seq<int>,
    bool,
)
    decreases steps.len(),
{
    if steps.len() == 0 {
        (history, pos, Seq::empty(), closed)
    } else {
        let (h, p, got, c) = replay(steps.drop_last(), history, pos, closed);
        match steps.last() {
            Step::Publish(m) => if c {
                (h, p, got, c)
            } else {
                (h.push(m), p, got, c)
            },
            Step::Receive => {
                let (o, next) = recv_spec(h, c, p);
                match o {
                    RecvOutcome::Delivered(_) => (h, next, got.push(p as int), c),
                    _ => (h, next, got, c),
                }
            },
            Step::Close => (h, p, got, true),
        }
    }
}

/// After every prefix of `steps`, the cursor is at most `CAPACITY` messages
/// behind the hub.
pub open spec fn keeps_pace(steps: Seq<Step>, history: Seq<Message>, pos: nat, closed: bool) -> bool {
    forall|i: int|
        0 <= i <= steps.len() ==> {
            let (h, p, _, _) = #[trigger] replay(steps.take(i), history, pos, closed);
            p <= h.len() && h.len() - p <= CAPACITY
        }
}

/// The history only grows, by exactly the published messages while the hub
/// stays open; a closed hub stays closed; the cursor only moves forward and
/// never passes the end of the history.
pub proof fn lemma_replay_history(steps: Seq<Step>, history: Seq<Message>, pos: nat, closed: bool)
    requires
        pos <= history.len(),
    ensures
        history.len() <= replay(steps, history, pos, closed).0.len(),
        replay(steps, history, pos, closed).0.subrange(0, history.len() as int) == history,
        pos <= replay(steps, history, pos, closed).1 <= replay(steps, history, pos, closed).0.len(),
        closed ==> replay(steps, history, pos, closed).3,
        !closed && never_closes(steps) ==> !replay(steps, history, pos, closed).3 && replay(
            steps,
            history,
            pos,
            closed,
        ).0 == history + published(steps),
    decreases steps.len(),
{
    if steps.len() > 0 {
        let prev = steps.drop_last();
        lemma_replay_history(prev, history, pos, closed);
        if never_closes(steps) {
            assert forall|i: int| 0 <= i < prev.len() implies !(#[trigger] prev[i] is Close) by {
                assert(prev[i] == steps[i]);
            }
            assert(!(steps[steps.len() - 1] is Close));
        }
        let (h, p, got, c) = replay(prev, history, pos, closed);
        match steps.last() {
            Step::Publish(m) => {
                assert(h.push(m).subrange(0, history.len() as int) =~= h.subrange(
                    0,
                    history.len() as int,
                ));
                if !closed && never_closes(steps) {
                    assert(h.push(m) =~= history + published(steps));
                }
            },
            _ => {
                if !closed && never_closes(steps) {
                    assert(h =~= history + published(steps));
                }
            },
        }
    }
}

/// A subscription never receives a message stored before it was
/// positioned, whether or not the hub closes: every delivered position is at
/// or after the cursor's start, and the positions strictly increase, so
/// nothing is delivered twice or out of order.
pub proof fn lemma_no_earlier_delivery(steps: Seq<Step>, history: Seq<Message>, pos: nat, closed: bool)
    requires
        pos <= history.len(),
    ensures
        forall|i: int|
            0 <= i < replay(steps, history, pos, closed).2.len() ==> pos <= #[trigger] replay(
                steps,
                history,
                pos,
                closed,
            ).2[i] < replay(steps, history, pos, closed).1,
        forall|i: int, j: int|
            0 <= i < j < replay(steps, history, pos, closed).2.len() ==> #[trigger] replay(
                steps,
                history,
                pos,
                closed,
            ).2[i] < #[trigger] replay(steps, history, pos, closed).2[j],
    decreases steps.len(),
{
    if steps.len() > 0 {
        lemma_no_earlier_delivery(steps.drop_last(), history, pos, closed);
        lemma_replay_history(steps.drop_last(), history, pos, closed);
    }
}

/// A subscription that never falls more than `CAPACITY` messages behind
/// receives every message stored after it was positioned, in publish order,
/// with no gap, duplicate or reordering: the delivered positions are
/// `pos, pos + 1, ...`, up to the cursor. While the hub stays open, the
/// stored messages are exactly the published ones.
pub proof fn lemma_in_order_delivery(steps: Seq<Step>, history: Seq<Message>, pos: nat, closed: bool)
    requires
        window_start(history.len()) <= pos <= history.len(),
        keeps_pace(steps, history, pos, closed),
    ensures
        !closed && never_closes(steps) ==> replay(steps, history, pos, closed).0 == history
            + published(steps),
        replay(steps, history, pos, closed).2.len() == replay(steps, history, pos, closed).1 - pos,
        forall|i: int|
            0 <= i < replay(steps, history, pos, closed).2.len() ==> #[trigger] replay(
                steps,
                history,
                pos,
                closed,
            ).2[i] == pos + i,
    decreases steps.len(),
{
    lemma_replay_history(steps, history, pos, closed);
    if steps.len() > 0 {
        let prev = steps.drop_last();
        assert forall|i: int| 0 <= i <= prev.len() implies {
            let (h, p, _, _) = #[trigger] replay(prev.take(i), history, pos, closed);
            p <= h.len() && h.len() - p <= CAPACITY
        } by {
            assert(prev.take(i) =~= steps.take(i));
        }
        lemma_in_order_delivery(prev, history, pos, closed);
        assert(steps.take(prev.len() as int) =~= prev);
        let (h, p, got, c) = replay(prev, history, pos, closed);
        assert(p <= h.len() && h.len() - p <= CAPACITY);
    } else {
        assert(steps.take(0) =~= steps);
    }
}

/// What the hub stores under `steps`, receive attempts aside: the history
/// and whether the hub ends closed.
pub open spec fn stored(steps: Seq<Step>, history: Seq<Message>, closed: bool) -> (Seq<Message>, bool)
    decreases steps.len(),
{
    if steps.len() == 0 {
        (history, closed)
    } else {
        let (h, c) = stored(steps.drop_last(), history, closed);
        match steps.last() {
            Step::Publish(m) => if c {
                (h, c)
            } else {
                (h.push(m), c)
            },
            Step::Receive => (h, c),
            Step::Close => (h, true),
        }
    }
}

/// The hub's history depends on the publishes and closes alone, not on any
/// cursor or its receive attempts: every subscription on the hub takes its
/// deliveries, by position, from one and the same total order.
pub proof fn lemma_one_order_for_all(steps: Seq<Step>, history: Seq<Message>, pos: nat, closed: bool)
    ensures
        (replay(steps, history, pos, closed).0, replay(steps, history, pos, closed).3) == stored(
            steps,
            history,
            closed,
        ),
    decreases steps.len(),
{
    if steps.len() > 0 {
        lemma_one_order_for_all(steps.drop_last(), history, pos, closed);
    }
}

/// Replaying `a` then `b` is replaying `b` from where `a` left off, with the
/// deliveries of `a` first.
pub proof fn lemma_replay_split(
    a: Seq<Step>,
    b: Seq<Step>,
    history: Seq<Message>,
    pos: nat,
    closed: bool,
)
    ensures
        ({
            let (h1, p1, got1, c1) = replay(a, history, pos, closed);
            let (h2, p2, got2, c2) = replay(b, h1, p1, c1);
            replay(a + b, history, pos, closed) == (h2, p2, got1 + got2, c2)
        }),
    decreases b.len(),
{
    if b.len() == 0 {
        assert(a + b =~= a);
        let got1 = replay(a, history, pos, closed).2;
        assert(got1 + Seq::<int>::empty() =~= got1);
    } else {
        lemma_replay_split(a, b.drop_last(), history, pos, closed);
        assert((a + b).drop_last() =~= a + b.drop_last());
        assert((a + b).last() == b.last());
        let (h1, p1, got1, c1) = replay(a, history, pos, closed);
        let got2 = replay(b.drop_last(), h1, p1, c1).2;
        let p2 = replay(b.drop_last(), h1, p1, c1).1;
        assert((got1 + got2).push(p2 as int) =~= got1 + got2.push(p2 as int));
    }
}

/// A cursor that fell more than `CAPACITY` messages behind learns exactly how
/// many unseen messages were evicted, then resumes in order from the oldest
/// message still held.
pub proof fn lemma_lag_then_resume(history: Seq<Message>, closed: bool, pos: nat)
    requires
        pos < window_start(history.len()),
    ensures
        recv_spec(history, closed, pos) == (
            RecvOutcome::Lagged((window_start(history.len()) - pos) as u64),
            window_start(history.len()),
        ),
        recv_spec(history, closed, window_start(history.len())) == (
            RecvOutcome::Delivered(history[window_start(history.len()) as int]),
            window_start(history.len()) + 1,
        ),
{
}

/// After a lag, a subscription that keeps pace from then on receives every
/// message from the oldest one still held onward, in order and without gap:
/// the delivered positions are `start, start + 1, ...`, up to the cursor.
pub proof fn lemma_resume_after_lag(steps: Seq<Step>, history: Seq<Message>, pos: nat, closed: bool)
    requires
        pos < window_start(history.len()),
        steps.len() > 0,
        steps[0] is Receive,
        keeps_pace(steps.drop_first(), history, window_start(history.len()), closed),
    ensures
        recv_spec(history, closed, pos).0 == RecvOutcome::Lagged(
            (window_start(history.len()) - pos) as u64,
        ),
        replay(steps, history, pos, closed).2.len() == replay(steps, history, pos, closed).1
            - window_start(history.len()),
        forall|i: int|
            0 <= i < replay(steps, history, pos, closed).2.len() ==> #[trigger] replay(
                steps,
                history,
                pos,
                closed,
            ).2[i] == window_start(history.len()) + i,
{
    let start = window_start(history.len());
    let first = seq![Step::Receive];
    let rest = steps.drop_first();
    assert(steps =~= first + rest);
    assert(first.drop_last() =~= Seq::<Step>::empty());
    assert(first.last() is Receive);
    assert(replay(first.drop_last(), history, pos, closed) == (
        history,
        pos,
        Seq::<int>::empty(),
        closed,
    ));
    assert(recv_spec(history, closed, pos).1 == start);
    assert(replay(first, history, pos, closed) == (history, start, Seq::<int>::empty(), closed));
    lemma_replay_split(first, rest, history, pos, closed);
    lemma_in_order_delivery(rest, history, start, closed);
    let got2 = replay(rest, history, start, closed).2;
    assert(Seq::<int>::empty() + got2 =~= got2);
}

} // verus!
