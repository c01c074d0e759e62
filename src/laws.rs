use vstd::prelude::*;

use crate::hub::{drain, head, recv, Delivery, HubView};
use crate::session::{emitted, session_step, ActionView, SessionState, SessionView, Signal};

verus! {

/// Reading a cursor dry yields a contiguous run of the history: everything
/// from the later of the cursor and the oldest retained message up to the end.
pub proof fn lemma_drain_is_suffix(h: HubView, n: nat)
    requires
        n <= h.history.len(),
    ensures
        drain(h, n) == h.history.subrange(
            if n < head(h) { head(h) as int } else { n as int },
            h.history.len() as int,
        ),
    decreases h.history.len() - n,
{
    if n < head(h) {
        lemma_drain_is_suffix(h, head(h));
    } else if n < h.history.len() {
        lemma_drain_is_suffix(h, n + 1);
        assert(drain(h, n) =~= h.history.subrange(n as int, h.history.len() as int));
    } else {
        assert(drain(h, n) =~= h.history.subrange(n as int, h.history.len() as int));
    }
}

/// A subscriber that has kept up with the hub reads exactly the messages
/// published since its cursor, in publication order.
pub proof fn lemma_caught_up_reads_in_order(h: HubView, n: nat)
    requires
        head(h) <= n <= h.history.len(),
    ensures
        drain(h, n) == h.history.subrange(n as int, h.history.len() as int),
{
    lemma_drain_is_suffix(h, n);
}

/// A subscriber that falls more than the capacity behind is told how many
/// messages it missed, and then reads every retained message in order: it
/// loses one contiguous run and nothing on either side of it.
pub proof fn lemma_lag_loses_one_contiguous_run(h: HubView, n: nat)
    requires
        n + h.capacity < h.history.len(),
    ensures
        head(h) == h.history.len() - h.capacity,
        n < head(h),
        recv(h, n) == (Delivery::Lagged((head(h) - n) as nat), head(h)),
        drain(h, n) == h.history.subrange(head(h) as int, h.history.len() as int),
{
    lemma_drain_is_suffix(h, n);
}

/// A message handed out once is never handed out again: the cursor moves past
/// it, and whatever the same subscriber reads later, after any further
/// publishing, comes from strictly later positions of the history.
pub proof fn lemma_no_duplicate_delivery(h1: HubView, h2: HubView, n: nat)
    requires
        n <= h1.history.len(),
        recv(h1, n).0 is Msg,
        h1.capacity == h2.capacity,
        h1.history.len() <= h2.history.len(),
        h2.history.subrange(0, h1.history.len() as int) == h1.history,
    ensures
        ({
            let k = recv(h1, n).1 - 1;
            let later = drain(h2, recv(h1, n).1);
            &&& n <= k < h1.history.len()
            &&& recv(h1, n).0 == Delivery::Msg(h1.history[k])
            &&& later == h2.history.subrange(h2.history.len() - later.len(), h2.history.len() as int)
            &&& k < h2.history.len() - later.len()
        }),
{
    let c = recv(h1, n).1;
    lemma_drain_is_suffix(h2, c);
}

/// A subscriber created when `h1` was the hub's state never reads a message
/// published before it subscribed, whatever has been published since.
pub proof fn lemma_subscriber_sees_only_later_messages(h1: HubView, h2: HubView)
    requires
        h1.capacity == h2.capacity,
        h1.history.len() <= h2.history.len(),
        h2.history.subrange(0, h1.history.len() as int) == h1.history,
    ensures
        ({
            let seen = drain(h2, h1.history.len());
            &&& seen.len() <= h2.history.len() - h1.history.len()
            &&& seen == h2.history.subrange(h2.history.len() - seen.len(), h2.history.len() as int)
        }),
{
    lemma_drain_is_suffix(h2, h1.history.len());
}

/// A closed session emits nothing more, whatever happens afterwards.
pub proof fn lemma_closed_session_is_silent(s: SessionView, steps: Seq<(HubView, Signal)>)
    requires
        s.state != SessionState::Active,
    ensures
        emitted(s, steps) == Seq::<crate::message::MessageView>::empty(),
    decreases steps.len(),
{
    if steps.len() > 0 {
        lemma_closed_session_is_silent(s, steps.drop_first());
    }
}

/// The shutdown signal closes any session at once, and no event is emitted
/// by it afterwards.
pub proof fn lemma_shutdown_ends_session(s: SessionView, h: HubView, later: Seq<(HubView, Signal)>)
    ensures
        session_step(s, h, Signal::Shutdown).1 == ActionView::Close,
        session_step(s, h, Signal::Shutdown).0.state != SessionState::Active,
        emitted(session_step(s, h, Signal::Shutdown).0, later) == Seq::<
            crate::message::MessageView,
        >::empty(),
{
    lemma_closed_session_is_silent(session_step(s, h, Signal::Shutdown).0, later);
}

/// A session emits the message at the first unread retained position of the
/// history and moves its cursor just past it, so what it emits over time is in
/// publication order and never repeats.
pub proof fn lemma_session_emits_next_retained(s: SessionView, h: HubView)
    requires
        s.cursor <= h.history.len(),
        session_step(s, h, Signal::Ready).1 is Emit,
    ensures
        ({
            let next = session_step(s, h, Signal::Ready).0;
            let k = next.cursor - 1;
            &&& next.state == SessionState::Active
            &&& s.cursor <= k
            &&& head(h) <= k < h.history.len()
            &&& session_step(s, h, Signal::Ready).1 == ActionView::Emit(h.history[k])
        }),
{
}

} // verus!
