use vstd::prelude::*;

verus! {

/// One chat message as it travels through the hub.
///
/// Messages are values: every subscriber receives its own copy.
#[derive(Clone, Debug, PartialEq, Eq)]
pub struct Message {
    pub room: String,
    pub username: String,
    pub message: String,
}

/// The mathematical content of a [`Message`]: its three fields as character sequences.
pub struct MessageView {
    pub room: Seq<char>,
    pub username: Seq<char>,
    pub message: Seq<char>,
}

impl View for Message {
    type V = MessageView;

    open spec fn view(&self) -> MessageView {
        MessageView { room: self.room@, username: self.username@, message: self.message@ }
    }
}

impl Message {
    /// Builds a message from its three fields.
    pub fn new(room: String, username: String, message: String) -> (r: Message)
        ensures
            r.room@ == room@,
            r.username@ == username@,
            r.message@ == message@,
    {
        Message { room, username, message }
    }

    /// An independent copy with the same content.
    pub fn duplicate(&self) -> (r: Message)
        ensures
            r@ == self@,
    {
        Message {
            room: self.room.clone(),
            username: self.username.clone(),
            message: self.message.clone(),
        }
    }
}

} // verus!
