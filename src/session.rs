use vstd::prelude::*;

use crate::hub::{recv, Delivery, Hub, HubView, Receiver, Recv};
use crate::message::{Message, MessageView};

verus! {

/// Where a listener session stands. Every state but `Active` is final.
#[derive(Clone, Copy, Debug, PartialEq, Eq, Structural)]
pub enum SessionState {
    Active,
    ClosedByPeer,
    ClosedByShutdown,
    ClosedByUpstream,
}

/// What woke a waiting session: the hub may have something for it, the
/// process is shutting down, or its peer went away.
#[derive(Clone, Copy, Debug, PartialEq, Eq, Structural)]
pub enum Signal {
    Ready,
    Shutdown,
    PeerGone,
}

/// What the session's driver must do next.
#[derive(Debug, PartialEq, Eq)]
pub enum Action {
    /// Send this message to the peer as one event.
    Emit(Message),
    /// Wait for the next signal.
    Wait,
    /// End the stream; the session is over.
    Close,
}

/// The abstract content of an [`Action`].
pub enum ActionView {
    Emit(MessageView),
    Wait,
    Close,
}

impl View for Action {
    type V = ActionView;

    open spec fn view(&self) -> ActionView {
        match self {
            Action::Emit(m) => ActionView::Emit(m@),
            Action::Wait => ActionView::Wait,
            Action::Close => ActionView::Close,
        }
    }
}

/// The abstract state of a session: its state and its subscription's cursor.
pub struct SessionView {
    pub state: SessionState,
    pub cursor: nat,
}

/// One step of a session on `signal`, with the hub in state `h`.
///
/// A closed session stays closed and emits nothing. Shutdown and a departed
/// peer close it. Otherwise it reads its subscription, passing silently over
/// a lag report: a message is emitted, nothing new means wait, and the end of
/// the hub closes the session.
pub open spec fn session_step(s: SessionView, h: HubView, signal: Signal) -> (SessionView, ActionView) {
    if s.state != SessionState::Active {
        (s, ActionView::Close)
    } else {
        match signal {
            Signal::Shutdown => (SessionView { state: SessionState::ClosedByShutdown, ..s }, ActionView::Close),
            Signal::PeerGone => (SessionView { state: SessionState::ClosedByPeer, ..s }, ActionView::Close),
            Signal::Ready => {
                let first = recv(h, s.cursor);
                let read = if first.0 is Lagged { recv(h, first.1) } else { first };
                match read.0 {
                    Delivery::Msg(m) => (SessionView { state: SessionState::Active, cursor: read.1 }, ActionView::Emit(m)),
                    Delivery::Closed => (SessionView { state: SessionState::ClosedByUpstream, cursor: read.1 }, ActionView::Close),
                    _ => (SessionView { state: SessionState::Active, cursor: read.1 }, ActionView::Wait),
                }
            },
        }
    }
}

/// The messages a session emits over a run of steps.
pub open spec fn emitted(s: SessionView, steps: Seq<(HubView, Signal)>) -> Seq<MessageView>
    decreases steps.len(),
{
    if steps.len() == 0 {
        Seq::empty()
    } else {
        let (next, action) = session_step(s, steps[0].0, steps[0].1);
        let rest = emitted(next, steps.drop_first());
        match action {
            ActionView::Emit(m) => seq![m] + rest,
            _ => rest,
        }
    }
}

/// One streaming connection's view of the hub.
pub struct Session {
    rx: Receiver,
    state: SessionState,
}

impl View for Session {
    type V = SessionView;

    closed spec fn view(&self) -> SessionView {
        SessionView { state: self.state, cursor: self.rx@ }
    }
}

impl Session {
    /// Opens a session subscribed to everything published from now on.
    pub fn open(hub: &Hub) -> (r: Session)
        requires
            hub.wf(),
        ensures
            r@ == (SessionView { state: SessionState::Active, cursor: hub@.history.len() }),
    {
        Session { rx: hub.subscribe(), state: SessionState::Active }
    }

    /// The session's current state.
    pub fn state(&self) -> (r: SessionState)
        ensures
            r == self@.state,
    {
        self.state
    }

    /// Takes one step on `signal`: see [`session_step`].
    pub fn step(&mut self, hub: &Hub, signal: Signal) -> (r: Action)
        requires
            hub.wf(),
        ensures
            (final(self)@, r@) == session_step(old(self)@, hub@, signal),
    {
        if self.state != SessionState::Active {
            return Action::Close;
        }
        match signal {
            Signal::Shutdown => {
                self.state = SessionState::ClosedByShutdown;
                Action::Close
            },
            Signal::PeerGone => {
                self.state = SessionState::ClosedByPeer;
                Action::Close
            },
            Signal::Ready => {
                let mut read = hub.try_recv(&mut self.rx);
                if let Recv::Lagged(_) = read {
                    read = hub.try_recv(&mut self.rx);
                }
                match read {
                    Recv::Message(m) => Action::Emit(m),
                    Recv::Closed => {
                        self.state = SessionState::ClosedByUpstream;
                        Action::Close
                    },
                    _ => Action::Wait,
                }
            },
        }
    }
}

} // verus!
