use vstd::prelude::*;

use crate::message::{Message, MessageView};

verus! {

/// Number of most recent messages the hub keeps for its subscribers.
pub const CAPACITY: usize = 1024;

/// The abstract state of a hub: everything ever published, in publication
/// order, the bound on what is retained, and whether publishing has ended.
pub struct HubView {
    pub history: Seq<MessageView>,
    pub capacity: nat,
    pub closed: bool,
}

/// Sequence number of the oldest message still retained.
pub open spec fn head(h: HubView) -> nat {
    if h.history.len() > h.capacity {
        (h.history.len() - h.capacity) as nat
    } else {
        0
    }
}

/// Whether a hub in state `h` takes a new message.
pub open spec fn accepts(h: HubView) -> bool {
    !h.closed && h.history.len() < u64::MAX
}

/// What one read from a cursor yields, abstractly.
pub enum Delivery {
    Msg(MessageView),
    Lagged(nat),
    Empty,
    Closed,
}

/// One read from cursor `n`: the delivery and the cursor afterwards.
///
/// A cursor behind the retained window jumps to its start and reports how many
/// messages it skipped; a cursor inside the window takes its message and moves
/// one on; a cursor at the end finds nothing, or the end of the stream.
pub open spec fn recv(h: HubView, n: nat) -> (Delivery, nat) {
    if n < head(h) {
        (Delivery::Lagged((head(h) - n) as nat), head(h))
    } else if n < h.history.len() {
        (Delivery::Msg(h.history[n as int]), n + 1)
    } else if h.closed {
        (Delivery::Closed, n)
    } else {
        (Delivery::Empty, n)
    }
}

/// The messages a subscriber at cursor `n` takes by reading until nothing is
/// left, passing over lag reports.
pub open spec fn drain(h: HubView, n: nat) -> Seq<MessageView>
    decreases h.history.len() - n,
{
    if n < head(h) && head(h) <= h.history.len() {
        drain(h, head(h))
    } else if head(h) <= n && n < h.history.len() {
        seq![h.history[n as int]] + drain(h, n + 1)
    } else {
        Seq::empty()
    }
}

/// A single process-wide broadcast channel with a bounded buffer.
///
/// Publishing never waits for subscribers: once the buffer is full the oldest
/// message is dropped, and subscribers that had not read it see a gap.
pub struct Hub {
    buffer: Vec<Message>,
    start: u64,
    capacity: usize,
    closed: bool,
    history: Ghost<Seq<MessageView>>,
}

/// A subscriber's private read position: the sequence number of the next
/// message it will read.
pub struct Receiver {
    next: u64,
}

impl View for Receiver {
    type V = nat;

    closed spec fn view(&self) -> nat {
        self.next as nat
    }
}

/// The outcome of one read from a [`Receiver`].
#[derive(Debug, PartialEq, Eq)]
pub enum Recv {
    /// The next message, in publication order.
    Message(Message),
    /// The receiver fell behind and this many messages were skipped.
    Lagged(u64),
    /// Nothing new has been published yet.
    Empty,
    /// The hub has stopped and everything published has been read.
    Closed,
}

impl Recv {
    /// The abstract content of this outcome.
    pub open spec fn delivery(&self) -> Delivery {
        match self {
            Recv::Message(m) => Delivery::Msg(m@),
            Recv::Lagged(k) => Delivery::Lagged(*k as nat),
            Recv::Empty => Delivery::Empty,
            Recv::Closed => Delivery::Closed,
        }
    }
}

impl View for Hub {
    type V = HubView;

    closed spec fn view(&self) -> HubView {
        HubView { history: self.history@, capacity: self.capacity as nat, closed: self.closed }
    }
}

impl Hub {
    /// The hub's internal invariant: the buffer holds exactly the retained
    /// suffix of the history.
    pub closed spec fn wf(&self) -> bool {
        &&& self.capacity > 0
        &&& self.history@.len() <= u64::MAX
        &&& self.start == head(self@)
        &&& self.start + self.buffer@.len() == self.history@.len()
        &&& forall|i: int|
            0 <= i < self.buffer@.len() ==> #[trigger] self.buffer@[i]@ == self.history@[self.start
                + i]
    }

    /// A hub that keeps up to `capacity` messages.
    pub fn new(capacity: usize) -> (r: Hub)
        requires
            capacity > 0,
        ensures
            r.wf(),
            r@.history.len() == 0,
            r@.capacity == capacity,
            !r@.closed,
    {
        Hub { buffer: Vec::new(), start: 0, capacity, closed: false, history: Ghost(Seq::empty()) }
    }

    /// Publishes `m` to every current subscriber.
    ///
    /// Succeeds whether or not anyone is subscribed. Returns `false`, changing
    /// nothing, only once the hub has been closed (or, in principle, once
    /// every 64-bit sequence number has been used).
    pub fn publish(&mut self, m: Message) -> (accepted: bool)
        requires
            old(self).wf(),
        ensures
            final(self).wf(),
            accepted == accepts(old(self)@),
            accepted ==> final(self)@ == (HubView { history: old(self)@.history.push(m@), ..old(self)@ }),
            !accepted ==> final(self)@ == old(self)@,
    {
        if self.closed || self.start + self.buffer.len() as u64 == u64::MAX {
            return false;
        }
        let ghost old_history = self.history@;
        let ghost old_start = self.start;
        if self.buffer.len() == self.capacity {
            self.buffer.remove(0);
            self.start = self.start + 1;
        }
        self.buffer.push(m);
        self.history = Ghost(old_history.push(m@));
        assert forall|i: int| 0 <= i < self.buffer@.len() implies #[trigger] self.buffer@[i]@
            == self.history@[self.start + i] by {
            if self.start + i < old_history.len() {
                assert(self.history@[self.start + i] == old_history[self.start + i]);
            }
        }
        true
    }

    /// Ends publishing: receivers that have read everything see the end of the stream.
    pub fn close(&mut self)
        requires
            old(self).wf(),
        ensures
            final(self).wf(),
            final(self)@ == (HubView { closed: true, ..old(self)@ }),
    {
        self.closed = true;
    }

    /// A new receiver positioned after everything published so far.
    pub fn subscribe(&self) -> (rx: Receiver)
        requires
            self.wf(),
        ensures
            rx@ == self@.history.len(),
    {
        Receiver { next: self.start + self.buffer.len() as u64 }
    }

    /// Reads the next delivery for `rx` without waiting.
    pub fn try_recv(&self, rx: &mut Receiver) -> (r: Recv)
        requires
            self.wf(),
        ensures
            (r.delivery(), final(rx)@) == recv(self@, old(rx)@),
    {
        let tail = self.start + self.buffer.len() as u64;
        if rx.next < self.start {
            let skipped = self.start - rx.next;
            rx.next = self.start;
            Recv::Lagged(skipped)
        } else if rx.next < tail {
            let m = self.buffer[(rx.next - self.start) as usize].duplicate();
            rx.next = rx.next + 1;
            Recv::Message(m)
        } else if self.closed {
            Recv::Closed
        } else {
            Recv::Empty
        }
    }
}

} // verus!
