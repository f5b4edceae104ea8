//! The chat view: the roster and the messages, the events that change them,
//! and what is shown of them.
//!
//! The view does no input or output of its own. [`Chat::create`] and
//! [`Chat::update`] hand back the frames that are to be sent, and the caller
//! sends them; the caller hands in the frames that have arrived and what the
//! input field holds.

use vstd::prelude::*;
use crate::envelope::{
    ends_in_gif, frame_of, inbound_in, ChatMessage, ChatMessageView, Envelope, EnvelopeView,
    FrameError, Inbound, InboundView,
};
use crate::login::SharedIdentity;
use crate::roster::{
    avatar_url, find_user, first_named, profiles, roster_from, roster_of, ProfileView,
    UserProfile,
};

verus! {

/// An event of the chat view.
pub enum Msg {
    /// A frame has arrived.
    HandleMsg(String),
    /// The user has asked to send what the input field holds. The event
    /// carries that text, or nothing where the view has no input field.
    SubmitMessage(Option<String>),
}

/// What the caller is to do after an event.
#[derive(Debug, PartialEq, Eq)]
pub struct Reaction {
    /// Whether the view is to be shown anew.
    pub render: bool,
    /// The frame to send, if any.
    pub send: Option<String>,
    /// Whether the input field is to be emptied.
    pub clear_input: bool,
}

/// What a [`Reaction`] stands for.
pub struct ReactionView {
    pub render: bool,
    pub send: Option<Seq<char>>,
    pub clear_input: bool,
}

impl View for Reaction {
    type V = ReactionView;

    open spec fn view(&self) -> ReactionView {
        ReactionView {
            render: self.render,
            send: match self.send {
                Some(frame) => Some(frame@),
                None => None,
            },
            clear_input: self.clear_input,
        }
    }
}

/// The state of the chat view as a mathematical value.
pub struct ChatModel {
    /// The roster: the users of the latest snapshot.
    pub users: Seq<ProfileView>,
    /// The messages, oldest first.
    pub messages: Seq<ChatMessageView>,
}

/// How a message is shown.
#[derive(Debug, PartialEq, Eq)]
pub enum Body {
    /// As the picture at this address.
    Image(String),
    /// As this text.
    Text(String),
}

/// What a [`Body`] stands for.
pub enum BodyView {
    Image(Seq<char>),
    Text(Seq<char>),
}

/// A message as it is shown: with the avatar of the user who sent it.
#[derive(Debug, PartialEq, Eq)]
pub struct Bubble {
    pub avatar: String,
    pub from: String,
    pub body: Body,
}

/// What a [`Bubble`] stands for.
pub struct BubbleView {
    pub avatar: Seq<char>,
    pub from: Seq<char>,
    pub body: BodyView,
}

/// What the chat view shows: the roster, and the messages in their order.
#[derive(Debug, PartialEq, Eq)]
pub struct Screen {
    pub users: Vec<UserProfile>,
    pub bubbles: Vec<Bubble>,
}

impl View for Body {
    type V = BodyView;

    open spec fn view(&self) -> BodyView {
        match self {
            Body::Image(address) => BodyView::Image(address@),
            Body::Text(text) => BodyView::Text(text@),
        }
    }
}

impl View for Bubble {
    type V = BubbleView;

    open spec fn view(&self) -> BubbleView {
        BubbleView { avatar: self.avatar@, from: self.from@, body: self.body@ }
    }
}

/// The views of the messages in `messages`.
pub open spec fn message_views(messages: Seq<ChatMessage>) -> Seq<ChatMessageView> {
    Seq::new(messages.len(), |i: int| messages[i]@)
}

/// The views of the bubbles in `bubbles`.
pub open spec fn bubble_views(bubbles: Seq<Bubble>) -> Seq<BubbleView> {
    Seq::new(bubbles.len(), |i: int| bubbles[i]@)
}

/// How the text of a message is shown: as a picture where it ends in `.gif`,
/// as text where it does not.
pub open spec fn body_of(text: Seq<char>) -> BodyView {
    if ends_in_gif(text) {
        BodyView::Image(text)
    } else {
        BodyView::Text(text)
    }
}

/// Whether the roster `users` has a user named `name`.
pub open spec fn knows(users: Seq<ProfileView>, name: Seq<char>) -> bool {
    first_named(users, name, 0) is Some
}

/// How `message` is shown beside the roster `users`: with the avatar of the
/// first user of that name.
pub open spec fn bubble_of(users: Seq<ProfileView>, message: ChatMessageView) -> BubbleView {
    BubbleView {
        avatar: users[first_named(users, message.from, 0).unwrap()].avatar,
        from: message.from,
        body: body_of(message.message),
    }
}

impl ChatModel {
    /// The state in which the chat view starts: nobody there, nothing said.
    pub open spec fn empty() -> ChatModel {
        ChatModel { users: Seq::empty(), messages: Seq::empty() }
    }

    /// The state after the frame `inbound`.
    ///
    /// A list of users replaces the roster. A message is added at the end of
    /// the messages. A registration leaves the state as it is.
    pub open spec fn step(self, inbound: InboundView) -> ChatModel {
        match inbound {
            InboundView::Users(names) => ChatModel { users: roster_of(names), ..self },
            InboundView::Message(message) => ChatModel {
                messages: self.messages.push(message),
                ..self
            },
            InboundView::Register => self,
        }
    }

    /// The state after the frames `inbound`, taken in their order.
    pub open spec fn run(self, inbound: Seq<InboundView>) -> ChatModel
        decreases inbound.len(),
    {
        if inbound.len() == 0 {
            self
        } else {
            self.run(inbound.drop_last()).step(inbound.last())
        }
    }

    /// Whether the roster has the sender of each message.
    pub open spec fn senders_known(self) -> bool {
        forall|i: int|
            0 <= i < self.messages.len() ==> knows(self.users, (#[trigger] self.messages[i]).from)
    }

    /// The messages as they are shown.
    pub open spec fn bubbles(self) -> Seq<BubbleView> {
        Seq::new(self.messages.len(), |i: int| bubble_of(self.users, self.messages[i]))
    }
}

/// Whether the view is shown anew after the frame `inbound`: after each one
/// that can change the state.
pub open spec fn renders(inbound: InboundView) -> bool {
    !(inbound is Register)
}

/// What is to be done for the text `input` of the input field: it is sent as
/// a message, whatever it holds, and the field is emptied. Without an input
/// field nothing is done.
pub open spec fn submission(input: Option<Seq<char>>) -> ReactionView {
    match input {
        Some(text) => ReactionView {
            render: false,
            send: Some(frame_of(EnvelopeView::message(text))),
            clear_input: true,
        },
        None => ReactionView { render: false, send: None, clear_input: false },
    }
}

/// The text that the event `SubmitMessage` carries, if any.
pub open spec fn input_view(input: Option<String>) -> Option<Seq<char>> {
    match input {
        Some(text) => Some(text@),
        None => None,
    }
}

/// The state after the event `msg` in the state `before`, with what the
/// caller is to do; or the reason for which the event was not taken.
pub open spec fn outcome(before: ChatModel, msg: Msg) -> Result<(ChatModel, ReactionView), FrameError> {
    match msg {
        Msg::HandleMsg(frame) => match inbound_in(frame@) {
            Ok(inbound) => Ok(
                (
                    before.step(inbound),
                    ReactionView { render: renders(inbound), send: None, clear_input: false },
                ),
            ),
            Err(error) => Err(error),
        },
        Msg::SubmitMessage(input) => Ok((before, submission(input_view(input)))),
    }
}

/// The chat view.
pub struct Chat {
    users: Vec<UserProfile>,
    messages: Vec<ChatMessage>,
}

impl Chat {
    /// The state of the view.
    pub closed spec fn model(&self) -> ChatModel {
        ChatModel { users: profiles(self.users@), messages: message_views(self.messages@) }
    }

    /// Starts the chat view for the user of `identity`: nobody in the roster,
    /// no messages. The frame that is handed back registers the user; it is
    /// for the caller to send.
    pub fn create(identity: &SharedIdentity) -> (r: (Chat, String))
        ensures
            r.0.model() == ChatModel::empty(),
            r.1@ == frame_of(EnvelopeView::register(identity@)),
    {
        let register = Envelope::register(identity.username().as_str());
        let chat = Chat { users: Vec::new(), messages: Vec::new() };
        assert(chat.model().users =~= Seq::empty());
        assert(chat.model().messages =~= Seq::empty());
        (chat, register.to_frame())
    }

    /// The roster.
    pub fn users(&self) -> (users: &Vec<UserProfile>)
        ensures
            profiles(users@) == self.model().users,
    {
        &self.users
    }

    /// The messages, oldest first.
    pub fn messages(&self) -> (messages: &Vec<ChatMessage>)
        ensures
            message_views(messages@) == self.model().messages,
    {
        &self.messages
    }

    /// Takes what a frame asks for. Tells whether the view is to be shown
    /// anew.
    pub fn receive(&mut self, inbound: Inbound) -> (render: bool)
        ensures
            final(self).model() == old(self).model().step(inbound@),
            render == renders(inbound@),
    {
        match inbound {
            Inbound::Users(names) => {
                self.users = roster_from(&names);
                true
            },
            Inbound::Message(message) => {
                self.messages.push(message);
                assert(self.model().messages =~= old(self).model().messages.push(message@));
                true
            },
            Inbound::Register => false,
        }
    }

    /// Takes one event.
    ///
    /// A frame is read and what it asks for is done. A frame that cannot be
    /// read is reported, and leaves the state as it was. The text of the input
    /// field is put into a frame for the caller to send.
    pub fn update(&mut self, msg: Msg) -> (r: Result<Reaction, FrameError>)
        ensures
            match outcome(old(self).model(), msg) {
                Ok((after, reaction)) => r is Ok && r.unwrap()@ == reaction && final(self).model()
                    == after,
                Err(error) => r is Err && r.unwrap_err() == error && final(self).model() == old(
                    self,
                ).model(),
            },
    {
        match msg {
            Msg::HandleMsg(frame) => match Inbound::decode(frame.as_str()) {
                Ok(inbound) => {
                    let render = self.receive(inbound);
                    Ok(Reaction { render, send: None, clear_input: false })
                },
                Err(error) => Err(error),
            },
            Msg::SubmitMessage(input) => match input {
                Some(text) => {
                    let frame = Envelope::message(text.as_str()).to_frame();
                    Ok(Reaction { render: false, send: Some(frame), clear_input: true })
                },
                None => Ok(Reaction { render: false, send: None, clear_input: false }),
            },
        }
    }

    /// Whether the roster has the sender of each message, so that the view
    /// can be shown.
    pub fn senders_known(&self) -> (known: bool)
        ensures
            known == self.model().senders_known(),
    {
        let mut i: usize = 0;
        while i < self.messages.len()
            invariant
                i <= self.messages.len(),
                forall|k: int|
                    0 <= k < i ==> knows(
                        self.model().users,
                        (#[trigger] self.model().messages[k]).from,
                    ),
            decreases self.messages.len() - i,
        {
            if find_user(&self.users, &self.messages[i].from).is_none() {
                assert(!knows(self.model().users, self.model().messages[i as int].from));
                return false;
            }
            i += 1;
        }
        true
    }

    /// What the view shows: each user of the roster, and each message with
    /// the avatar of the user who sent it, which is the avatar that goes with
    /// the sender's name.
    ///
    /// The view cannot be shown while the roster lacks the sender of a
    /// message: see [`Chat::senders_known`].
    pub fn view(&self) -> (screen: Screen)
        requires
            self.model().senders_known(),
        ensures
            profiles(screen.users@) == self.model().users,
            bubble_views(screen.bubbles@) == self.model().bubbles(),
            forall|i: int|
                0 <= i < screen.bubbles.len() ==> (#[trigger] screen.bubbles[i])@.avatar
                    == avatar_url(screen.bubbles[i]@.from),
    {
        let mut users: Vec<UserProfile> = Vec::new();
        let mut i: usize = 0;
        while i < self.users.len()
            invariant
                i <= self.users.len(),
                users.len() == i,
                forall|k: int| 0 <= k < i ==> (#[trigger] users[k])@ == self.users[k]@,
            decreases self.users.len() - i,
        {
            users.push(self.users[i].clone());
            i += 1;
        }
        let mut bubbles: Vec<Bubble> = Vec::new();
        let mut i: usize = 0;
        while i < self.messages.len()
            invariant
                i <= self.messages.len(),
                bubbles.len() == i,
                self.model().senders_known(),
                forall|k: int|
                    0 <= k < i ==> (#[trigger] bubbles[k])@ == bubble_of(
                        self.model().users,
                        self.model().messages[k],
                    ),
                forall|k: int|
                    0 <= k < i ==> (#[trigger] bubbles[k])@.avatar == avatar_url(bubbles[k]@.from),
            decreases self.messages.len() - i,
        {
            let message = &self.messages[i];
            assert(knows(self.model().users, self.model().messages[i as int].from));
            let sender = find_user(&self.users, &message.from).unwrap();
            let body = if message.is_image() {
                Body::Image(message.message.clone())
            } else {
                Body::Text(message.message.clone())
            };
            bubbles.push(
                Bubble {
                    avatar: self.users[sender].avatar().clone(),
                    from: message.from.clone(),
                    body,
                },
            );
            i += 1;
        }
        Screen { users, bubbles }
    }
}

} // verus!
