use chat_relay::handlers::{post, user, MessageForm, User};
use chat_relay::hub::{Hub, Recv, CAPACITY};
use chat_relay::message::Message;
use chat_relay::session::{Action, Session, SessionState, Signal};

fn msg(room: &str, username: &str, text: &str) -> Message {
    Message::new(room.to_string(), username.to_string(), text.to_string())
}

#[test]
fn end_to_end_lobby_message() {
    let mut hub = Hub::new(CAPACITY);
    let mut before = hub.subscribe();
    assert!(hub.publish(msg("lobby", "alice", "hi")));
    let mut after = hub.subscribe();
    assert_eq!(hub.try_recv(&mut before), Recv::Message(msg("lobby", "alice", "hi")));
    assert_eq!(hub.try_recv(&mut before), Recv::Empty);
    assert_eq!(hub.try_recv(&mut after), Recv::Empty);
}

#[test]
fn caught_up_subscriber_reads_in_order() {
    let mut hub = Hub::new(CAPACITY);
    let mut rx = hub.subscribe();
    for i in 0..5 {
        assert!(hub.publish(msg("r", "u", &format!("m{i}"))));
    }
    for i in 0..5 {
        assert_eq!(hub.try_recv(&mut rx), Recv::Message(msg("r", "u", &format!("m{i}"))));
    }
    assert_eq!(hub.try_recv(&mut rx), Recv::Empty);
}

#[test]
fn no_message_is_read_twice() {
    let mut hub = Hub::new(4);
    let mut rx = hub.subscribe();
    hub.publish(msg("r", "u", "same"));
    hub.publish(msg("r", "u", "same"));
    assert_eq!(hub.try_recv(&mut rx), Recv::Message(msg("r", "u", "same")));
    assert_eq!(hub.try_recv(&mut rx), Recv::Message(msg("r", "u", "same")));
    assert_eq!(hub.try_recv(&mut rx), Recv::Empty);
    hub.publish(msg("r", "u", "third"));
    assert_eq!(hub.try_recv(&mut rx), Recv::Message(msg("r", "u", "third")));
    assert_eq!(hub.try_recv(&mut rx), Recv::Empty);
}

#[test]
fn lag_past_capacity_skips_one_run() {
    let mut hub = Hub::new(CAPACITY);
    let mut rx = hub.subscribe();
    for i in 0..(CAPACITY + 1) {
        assert!(hub.publish(msg("r", "u", &format!("m{i}"))));
    }
    assert_eq!(hub.try_recv(&mut rx), Recv::Lagged(1));
    for i in 1..(CAPACITY + 1) {
        assert_eq!(hub.try_recv(&mut rx), Recv::Message(msg("r", "u", &format!("m{i}"))));
    }
    assert_eq!(hub.try_recv(&mut rx), Recv::Empty);
}

#[test]
fn small_hub_reports_exact_gap() {
    let mut hub = Hub::new(2);
    let mut rx = hub.subscribe();
    for i in 0..5 {
        hub.publish(msg("r", "u", &format!("m{i}")));
    }
    assert_eq!(hub.try_recv(&mut rx), Recv::Lagged(3));
    assert_eq!(hub.try_recv(&mut rx), Recv::Message(msg("r", "u", "m3")));
    assert_eq!(hub.try_recv(&mut rx), Recv::Message(msg("r", "u", "m4")));
    assert_eq!(hub.try_recv(&mut rx), Recv::Empty);
}

#[test]
fn later_subscriber_misses_earlier_messages() {
    let mut hub = Hub::new(CAPACITY);
    let mut a = hub.subscribe();
    hub.publish(msg("r", "u", "M1"));
    let mut b = hub.subscribe();
    hub.publish(msg("r", "u", "M2"));
    assert_eq!(hub.try_recv(&mut b), Recv::Message(msg("r", "u", "M2")));
    assert_eq!(hub.try_recv(&mut b), Recv::Empty);
    assert_eq!(hub.try_recv(&mut a), Recv::Message(msg("r", "u", "M1")));
    assert_eq!(hub.try_recv(&mut a), Recv::Message(msg("r", "u", "M2")));
}

#[test]
fn publish_without_subscribers_succeeds() {
    let mut hub = Hub::new(CAPACITY);
    assert!(hub.publish(msg("r", "u", "nobody")));
    let mut rx = hub.subscribe();
    assert_eq!(hub.try_recv(&mut rx), Recv::Empty);
}

#[test]
fn closed_hub_ends_stream_after_backlog() {
    let mut hub = Hub::new(CAPACITY);
    let mut rx = hub.subscribe();
    hub.publish(msg("r", "u", "last"));
    hub.close();
    assert!(!hub.publish(msg("r", "u", "too late")));
    assert_eq!(hub.try_recv(&mut rx), Recv::Message(msg("r", "u", "last")));
    assert_eq!(hub.try_recv(&mut rx), Recv::Closed);
}

#[test]
fn sessions_close_on_shutdown() {
    let mut hub = Hub::new(CAPACITY);
    let mut s1 = Session::open(&hub);
    let mut s2 = Session::open(&hub);
    hub.publish(msg("r", "u", "one"));
    assert_eq!(s1.step(&hub, Signal::Shutdown), Action::Close);
    assert_eq!(s2.step(&hub, Signal::Shutdown), Action::Close);
    assert_eq!(s1.state(), SessionState::ClosedByShutdown);
    assert_eq!(s2.state(), SessionState::ClosedByShutdown);
    assert_eq!(s1.step(&hub, Signal::Ready), Action::Close);
}

#[test]
fn session_emits_waits_and_skips_lag() {
    let mut hub = Hub::new(1);
    let mut s = Session::open(&hub);
    assert_eq!(s.step(&hub, Signal::Ready), Action::Wait);
    hub.publish(msg("r", "u", "a"));
    hub.publish(msg("r", "u", "b"));
    assert_eq!(s.step(&hub, Signal::Ready), Action::Emit(msg("r", "u", "b")));
    assert_eq!(s.step(&hub, Signal::Ready), Action::Wait);
    assert_eq!(s.state(), SessionState::Active);
}

#[test]
fn session_closes_on_peer_and_upstream() {
    let mut hub = Hub::new(CAPACITY);
    let mut gone = Session::open(&hub);
    let mut up = Session::open(&hub);
    assert_eq!(gone.step(&hub, Signal::PeerGone), Action::Close);
    assert_eq!(gone.state(), SessionState::ClosedByPeer);
    hub.close();
    assert_eq!(up.step(&hub, Signal::Ready), Action::Close);
    assert_eq!(up.state(), SessionState::ClosedByUpstream);
}

#[test]
fn post_uses_guest_without_identity() {
    let mut hub = Hub::new(CAPACITY);
    let mut rx = hub.subscribe();
    post(
        MessageForm { room: "lobby".to_string(), message: "hello".to_string() },
        User { username: None },
        &mut hub,
    );
    post(
        MessageForm { room: "den".to_string(), message: "yo".to_string() },
        User { username: Some("bob".to_string()) },
        &mut hub,
    );
    assert_eq!(hub.try_recv(&mut rx), Recv::Message(msg("lobby", "guest", "hello")));
    assert_eq!(hub.try_recv(&mut rx), Recv::Message(msg("den", "bob", "yo")));
}

#[test]
fn user_name_or_anonymous() {
    assert_eq!(user(User { username: None }), "anonymous");
    assert_eq!(user(User { username: Some("carol".to_string()) }), "carol");
}

#[test]
fn duplicate_is_an_equal_copy() {
    let m = msg("lobby", "alice", "hi");
    assert_eq!(m.duplicate(), m);
}
