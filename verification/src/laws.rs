//! What holds of the chat view whatever frames arrive, proved of the
//! functions in which the rest of the library states what it does.

use vstd::prelude::*;
use crate::chat::{body_of, knows, BodyView, ChatModel};
use crate::envelope::{ends_in_gif, ChatMessageView, InboundView, MsgTypes};
use crate::roster::{avatar_url, roster_of, ProfileView, AVATAR_PREFIX, AVATAR_SUFFIX};

verus! {

/// The names of the users in `users`, in their order.
pub open spec fn names_of(users: Seq<ProfileView>) -> Seq<Seq<char>> {
    Seq::new(users.len(), |i: int| users[i].name)
}

/// Whether each of `inbound` is a list of users.
pub open spec fn all_users(inbound: Seq<InboundView>) -> bool {
    forall|i: int| 0 <= i < inbound.len() ==> (#[trigger] inbound[i]) is Users
}

/// A roster is a snapshot. After any number of lists of users, the roster is
/// the one that the last list gives: it has the names of that list, in its
/// order, and nothing of what was there before.
pub proof fn lemma_roster_is_latest_snapshot(start: ChatModel, inbound: Seq<InboundView>)
    requires
        inbound.len() > 0,
        all_users(inbound),
    ensures
        start.run(inbound).users == roster_of(inbound.last()->Users_0),
        names_of(start.run(inbound).users) == inbound.last()->Users_0,
{
}

/// The roster does not depend on the history. Two views that have seen
/// different frames, from different states, have the same roster once each
/// has taken the same list of users.
pub proof fn lemma_roster_forgets_history(
    one: ChatModel,
    other: ChatModel,
    seen_by_one: Seq<InboundView>,
    seen_by_other: Seq<InboundView>,
    names: Seq<Seq<char>>,
)
    ensures
        one.run(seen_by_one.push(InboundView::Users(names))).users == other.run(
            seen_by_other.push(InboundView::Users(names)),
        ).users,
{
}

/// Lists of users leave the messages alone.
pub proof fn lemma_rosters_keep_messages(start: ChatModel, inbound: Seq<InboundView>)
    requires
        all_users(inbound),
    ensures
        start.run(inbound).messages == start.messages,
    decreases inbound.len(),
{
    if inbound.len() > 0 {
        assert(inbound.last() is Users);
        lemma_rosters_keep_messages(start, inbound.drop_last());
    }
}

/// Taking the same list of users twice gives the state that taking it once
/// gives.
pub proof fn lemma_roster_is_idempotent(before: ChatModel, names: Seq<Seq<char>>)
    ensures
        before.step(InboundView::Users(names)).step(InboundView::Users(names)) == before.step(
            InboundView::Users(names),
        ),
{
}

/// A message from a user of the roster is added at the end of the messages,
/// as it came: there is one message more, the last one is the new one with
/// its sender and its text, and those before it are what they were. The
/// roster stays, and where the view could be shown before it can be shown
/// after.
pub proof fn lemma_message_is_appended(before: ChatModel, message: ChatMessageView)
    requires
        knows(before.users, message.from),
    ensures
        ({
            let after = before.step(InboundView::Message(message));
            &&& after.messages.len() == before.messages.len() + 1
            &&& after.messages.last() == message
            &&& after.messages.drop_last() == before.messages
            &&& after.users == before.users
            &&& before.senders_known() ==> after.senders_known()
        }),
{
    let after = before.step(InboundView::Message(message));
    if before.senders_known() {
        assert forall|i: int| 0 <= i < after.messages.len() implies knows(
            after.users,
            (#[trigger] after.messages[i]).from,
        ) by {}
    }
}

/// The address of an avatar is made of the user's name and of nothing else:
/// the address of the service, the name as it is, and `.svg`.
pub proof fn lemma_avatar_form(name: Seq<char>)
    ensures
        ({
            let url = avatar_url(name);
            let start = AVATAR_PREFIX@.len() as int;
            let end = start + name.len();
            &&& url.len() == end + AVATAR_SUFFIX@.len()
            &&& url.subrange(0, start) == AVATAR_PREFIX@
            &&& url.subrange(start, end) == name
            &&& url.subrange(end, url.len() as int) == AVATAR_SUFFIX@
        }),
{
}

/// Two users have the same avatar exactly where they have the same name.
pub proof fn lemma_avatar_follows_name(one: Seq<char>, other: Seq<char>)
    ensures
        avatar_url(one) == avatar_url(other) <==> one == other,
{
    if avatar_url(one) == avatar_url(other) {
        lemma_avatar_form(one);
        lemma_avatar_form(other);
    }
}

/// A message is shown as a picture exactly where its text ends in `.gif`,
/// and as text otherwise. Either way what is shown is the text as it came.
pub proof fn lemma_body_follows_suffix(text: Seq<char>)
    ensures
        body_of(text) == if ends_in_gif(text) {
            BodyView::Image(text)
        } else {
            BodyView::Text(text)
        },
        body_of(text) is Image <==> ends_in_gif(text),
{
}

/// Each type of envelope is the type that its word on the wire stands for,
/// and no two types have the same word.
pub proof fn lemma_tag_round_trip(kind: MsgTypes)
    ensures
        MsgTypes::of_tag(kind.tag()) == Some(kind),
{
    reveal_strlit("users");
    reveal_strlit("register");
    reveal_strlit("message");
    assert("users"@.len() == 5 && "register"@.len() == 8 && "message"@.len() == 7);
}

} // verus!
