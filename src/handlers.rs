use vstd::prelude::*;

use crate::hub::{accepts, Hub, HubView};
use crate::message::{Message, MessageView};

verus! {

/// The fields a poster submits.
pub struct MessageForm {
    pub room: String,
    pub message: String,
}

/// The identity resolved for a request, if any.
pub struct User {
    pub username: Option<String>,
}

/// The name a message is posted under: the user's own, else `guest`.
pub open spec fn poster_name(user: User) -> Seq<char> {
    match user.username {
        Some(name) => name@,
        None => "guest"@,
    }
}

/// The name reported for a request: the user's own, else `anonymous`.
pub open spec fn display_name(user: User) -> Seq<char> {
    match user.username {
        Some(name) => name@,
        None => "anonymous"@,
    }
}

/// Publishes a submitted message under the poster's name.
///
/// Having no subscribers is no failure: the message is simply never read.
pub fn post(form: MessageForm, user: User, hub: &mut Hub)
    requires
        old(hub).wf(),
    ensures
        final(hub).wf(),
        accepts(old(hub)@) ==> final(hub)@ == (HubView {
            history: old(hub)@.history.push(
                MessageView { room: form.room@, username: poster_name(user), message: form.message@ },
            ),
            ..old(hub)@
        }),
        !accepts(old(hub)@) ==> final(hub)@ == old(hub)@,
{
    let username = match user.username {
        Some(name) => name,
        None => "guest".to_owned(),
    };
    proof {
        reveal_strlit("guest");
    }
    let message = Message::new(form.room, username, form.message);
    let _accepted = hub.publish(message);
}

/// The requesting user's name, or `anonymous`.
pub fn user(requester: User) -> (r: String)
    ensures
        r@ == display_name(requester),
{
    proof {
        reveal_strlit("anonymous");
    }
    match requester.username {
        Some(name) => name,
        None => "anonymous".to_owned(),
    }
}

} // verus!
