//! The wire format: the envelope that every frame carries, and the chat
//! message inside the envelopes of type `message`.
//!
//! A frame is the JSON object
//! `{"messageType": .., "data": .., "dataArray": ..}`. `messageType` is
//! `"users"`, `"register"` or `"message"`; `data` is a string and `dataArray`
//! a list of strings, and each of the two may be `null` or missing.

use vstd::prelude::*;
use vstd::string::*;
use crate::json::{
    item_views, json_document, json_string, lemma_array_view, quote, view_of, Json, JsonView,
};

verus! {

/// The type of an envelope.
#[derive(Clone, Copy, Debug, PartialEq, Eq, Structural)]
pub enum MsgTypes {
    Users,
    Register,
    Message,
}

/// Why a frame was not taken.
#[derive(Clone, Copy, Debug, PartialEq, Eq, Structural)]
pub enum FrameError {
    /// The frame is not JSON text.
    NotJson,
    /// The frame is JSON, but not an envelope.
    NotAnEnvelope,
    /// An envelope of type `message` has no `data`.
    NoPayload,
    /// The `data` of an envelope of type `message` is not JSON text.
    PayloadNotJson,
    /// The `data` of an envelope of type `message` is JSON, but not a chat
    /// message.
    NotAChatMessage,
}

/// The envelope of a frame.
#[derive(Debug, PartialEq, Eq)]
pub struct Envelope {
    pub message_type: MsgTypes,
    pub data_array: Option<Vec<String>>,
    pub data: Option<String>,
}

/// What an [`Envelope`] stands for.
pub struct EnvelopeView {
    pub message_type: MsgTypes,
    pub data_array: Option<Seq<Seq<char>>>,
    pub data: Option<Seq<char>>,
}

/// A chat message: who said it, and what.
#[derive(Debug, PartialEq, Eq)]
pub struct ChatMessage {
    pub from: String,
    pub message: String,
}

/// What a [`ChatMessage`] stands for.
pub struct ChatMessageView {
    pub from: Seq<char>,
    pub message: Seq<char>,
}

/// What a frame asks of the chat view.
#[derive(Debug, PartialEq, Eq)]
pub enum Inbound {
    /// The users that are connected now.
    Users(Vec<String>),
    /// Somebody has said something.
    Message(ChatMessage),
    /// A registration, which means nothing to a client.
    Register,
}

/// What an [`Inbound`] stands for.
pub enum InboundView {
    Users(Seq<Seq<char>>),
    Message(ChatMessageView),
    Register,
}

/// The views of the strings in `strings`.
pub open spec fn texts(strings: Seq<String>) -> Seq<Seq<char>> {
    Seq::new(strings.len(), |i: int| strings[i]@)
}

impl View for Envelope {
    type V = EnvelopeView;

    open spec fn view(&self) -> EnvelopeView {
        EnvelopeView {
            message_type: self.message_type,
            data_array: match self.data_array {
                Some(names) => Some(texts(names@)),
                None => None,
            },
            data: match self.data {
                Some(text) => Some(text@),
                None => None,
            },
        }
    }
}

impl View for ChatMessage {
    type V = ChatMessageView;

    open spec fn view(&self) -> ChatMessageView {
        ChatMessageView { from: self.from@, message: self.message@ }
    }
}

impl View for Inbound {
    type V = InboundView;

    open spec fn view(&self) -> InboundView {
        match self {
            Inbound::Users(names) => InboundView::Users(texts(names@)),
            Inbound::Message(message) => InboundView::Message(message@),
            Inbound::Register => InboundView::Register,
        }
    }
}

impl MsgTypes {
    /// The word that stands for the type on the wire.
    pub open spec fn tag(self) -> Seq<char> {
        match self {
            MsgTypes::Users => "users"@,
            MsgTypes::Register => "register"@,
            MsgTypes::Message => "message"@,
        }
    }

    /// The type that `tag` stands for.
    pub open spec fn of_tag(tag: Seq<char>) -> Option<MsgTypes> {
        if tag == "users"@ {
            Some(MsgTypes::Users)
        } else if tag == "register"@ {
            Some(MsgTypes::Register)
        } else if tag == "message"@ {
            Some(MsgTypes::Message)
        } else {
            None
        }
    }

    /// The word that stands for the type on the wire.
    pub fn name(&self) -> (name: &'static str)
        ensures
            name@ == self.tag(),
    {
        match self {
            MsgTypes::Users => "users",
            MsgTypes::Register => "register",
            MsgTypes::Message => "message",
        }
    }

    /// The type that `tag` stands for.
    pub fn from_name(tag: &String) -> (kind: Option<MsgTypes>)
        ensures
            kind == Self::of_tag(tag@),
    {
        if *tag == String::from_str("users") {
            Some(MsgTypes::Users)
        } else if *tag == String::from_str("register") {
            Some(MsgTypes::Register)
        } else if *tag == String::from_str("message") {
            Some(MsgTypes::Message)
        } else {
            None
        }
    }
}

/// What a member that may hold a string holds: nothing where it is missing
/// or `null`, the string where it is one. `None` for any other member.
pub open spec fn optional_text(member: Option<JsonView>) -> Option<Option<Seq<char>>> {
    match member {
        None => Some(None),
        Some(JsonView::Null) => Some(None),
        Some(JsonView::Text(text)) => Some(Some(text)),
        Some(_) => None,
    }
}

/// Whether each of `items` is a string.
pub open spec fn all_text(items: Seq<JsonView>) -> bool {
    forall|i: int| 0 <= i < items.len() ==> (#[trigger] items[i]) is Text
}

/// The strings that `items` are.
pub open spec fn texts_of(items: Seq<JsonView>) -> Seq<Seq<char>> {
    Seq::new(items.len(), |i: int| items[i]->Text_0)
}

/// What a member that may hold a list of strings holds: nothing where it is
/// missing or `null`, the strings where it is an array of strings. `None` for
/// any other member.
pub open spec fn optional_texts(member: Option<JsonView>) -> Option<Option<Seq<Seq<char>>>> {
    match member {
        None => Some(None),
        Some(JsonView::Null) => Some(None),
        Some(JsonView::Array(items)) => if all_text(items) {
            Some(Some(texts_of(items)))
        } else {
            None
        },
        Some(_) => None,
    }
}

/// The type of the envelope `doc`: what its member `messageType` says.
pub open spec fn kind_of(doc: JsonView) -> Option<MsgTypes> {
    match doc.member("messageType"@) {
        Some(JsonView::Text(tag)) => MsgTypes::of_tag(tag),
        _ => None,
    }
}

/// The envelope that the document `doc` is.
pub open spec fn envelope_of(doc: JsonView) -> Result<EnvelopeView, FrameError> {
    match (
        kind_of(doc),
        optional_texts(doc.member("dataArray"@)),
        optional_text(doc.member("data"@)),
    ) {
        (Some(message_type), Some(data_array), Some(data)) => Ok(
            EnvelopeView { message_type, data_array, data },
        ),
        _ => Err(FrameError::NotAnEnvelope),
    }
}

/// The chat message that the document `doc` is: an object with the strings
/// `from` and `message`.
pub open spec fn chat_message_of(doc: JsonView) -> Result<ChatMessageView, FrameError> {
    match (doc.member("from"@), doc.member("message"@)) {
        (Some(JsonView::Text(from)), Some(JsonView::Text(message))) => Ok(
            ChatMessageView { from, message },
        ),
        _ => Err(FrameError::NotAChatMessage),
    }
}

/// The chat message that the text `payload` holds.
pub open spec fn chat_message_in(payload: Seq<char>) -> Result<ChatMessageView, FrameError> {
    match json_document(payload) {
        Some(doc) => chat_message_of(doc),
        None => Err(FrameError::PayloadNotJson),
    }
}

/// What the envelope `envelope` asks of the chat view.
pub open spec fn inbound_of(envelope: EnvelopeView) -> Result<InboundView, FrameError> {
    match envelope.message_type {
        MsgTypes::Users => Ok(
            InboundView::Users(
                match envelope.data_array {
                    Some(names) => names,
                    None => Seq::empty(),
                },
            ),
        ),
        MsgTypes::Message => match envelope.data {
            Some(payload) => match chat_message_in(payload) {
                Ok(message) => Ok(InboundView::Message(message)),
                Err(error) => Err(error),
            },
            None => Err(FrameError::NoPayload),
        },
        MsgTypes::Register => Ok(InboundView::Register),
    }
}

/// The envelope that the frame `frame` carries.
pub open spec fn envelope_in(frame: Seq<char>) -> Result<EnvelopeView, FrameError> {
    match json_document(frame) {
        Some(doc) => envelope_of(doc),
        None => Err(FrameError::NotJson),
    }
}

/// What the frame `frame` asks of the chat view.
pub open spec fn inbound_in(frame: Seq<char>) -> Result<InboundView, FrameError> {
    match envelope_in(frame) {
        Ok(envelope) => inbound_of(envelope),
        Err(error) => Err(error),
    }
}

/// The strings `names` as JSON, with commas between them.
pub open spec fn joined(names: Seq<Seq<char>>) -> Seq<char>
    decreases names.len(),
{
    if names.len() == 0 {
        Seq::empty()
    } else if names.len() == 1 {
        json_string(names[0])
    } else {
        joined(names.drop_last()) + ","@ + json_string(names.last())
    }
}

/// The frame up to the value of `data`.
pub open spec fn opening(message_type: MsgTypes) -> Seq<char> {
    "{\"messageType\":\""@ + message_type.tag() + "\",\"data\":"@
}

/// The value of `data` in a frame.
pub open spec fn data_text(data: Option<Seq<char>>) -> Seq<char> {
    match data {
        Some(text) => json_string(text),
        None => "null"@,
    }
}

/// The value of `dataArray` in a frame.
pub open spec fn data_array_text(data_array: Option<Seq<Seq<char>>>) -> Seq<char> {
    match data_array {
        Some(names) => "["@ + joined(names) + "]"@,
        None => "null"@,
    }
}

/// The frame that carries `envelope`.
pub open spec fn frame_of(envelope: EnvelopeView) -> Seq<char> {
    opening(envelope.message_type) + data_text(envelope.data) + ",\"dataArray\":"@
        + data_array_text(envelope.data_array) + "}"@
}

/// Whether the text `text` ends in `.gif`.
pub open spec fn ends_in_gif(text: Seq<char>) -> bool {
    text.len() >= 4 && text.subrange(text.len() - 4, text.len() as int) == ".gif"@
}

impl EnvelopeView {
    /// Whether the envelope holds what its type calls for, and nothing else:
    /// `dataArray` for `users`, `data` for the other two.
    pub open spec fn well_formed(self) -> bool {
        match self.message_type {
            MsgTypes::Users => self.data_array is Some && self.data is None,
            _ => self.data is Some && self.data_array is None,
        }
    }

    /// The envelope by which the user `username` registers.
    pub open spec fn register(username: Seq<char>) -> EnvelopeView {
        EnvelopeView {
            message_type: MsgTypes::Register,
            data_array: None,
            data: Some(username),
        }
    }

    /// The envelope that carries the text `text` to the chat.
    pub open spec fn message(text: Seq<char>) -> EnvelopeView {
        EnvelopeView { message_type: MsgTypes::Message, data_array: None, data: Some(text) }
    }
}

/// The strings that the array `items` holds, or `None` where one of the items
/// is no string.
fn strings_of(items: &Vec<Json>) -> (r: Option<Vec<String>>)
    ensures
        match r {
            Some(names) => all_text(item_views(items@)) && texts(names@) == texts_of(
                item_views(items@),
            ),
            None => !all_text(item_views(items@)),
        },
{
    let mut names: Vec<String> = Vec::new();
    let mut i: usize = 0;
    while i < items.len()
        invariant
            i <= items.len(),
            names.len() == i,
            forall|k: int| 0 <= k < i ==> (#[trigger] item_views(items@)[k]) is Text,
            forall|k: int|
                0 <= k < i ==> (#[trigger] names[k])@ == item_views(items@)[k]->Text_0,
        decreases items.len() - i,
    {
        match items[i].text() {
            Some(name) => {
                names.push(name.clone());
            },
            None => {
                assert(!(item_views(items@)[i as int] is Text));
                return None;
            },
        }
        i += 1;
    }
    Some(names)
}

/// What the member `member` holds, where it may hold a string.
fn string_in(member: Option<&Json>) -> (r: Option<Option<String>>)
    ensures
        match r {
            Some(Some(text)) => optional_text(view_of(member)) == Some(Some(text@)),
            Some(None) => optional_text(view_of(member)) == Some(None::<Seq<char>>),
            None => optional_text(view_of(member)) is None,
        },
{
    match member {
        None => Some(None),
        Some(Json::Null) => Some(None),
        Some(Json::Text(text)) => Some(Some(text.clone())),
        Some(_) => None,
    }
}

/// What the member `member` holds, where it may hold a list of strings.
fn strings_in(member: Option<&Json>) -> (r: Option<Option<Vec<String>>>)
    ensures
        match r {
            Some(Some(names)) => optional_texts(view_of(member)) == Some(Some(texts(names@))),
            Some(None) => optional_texts(view_of(member)) == Some(None::<Seq<Seq<char>>>),
            None => optional_texts(view_of(member)) is None,
        },
{
    match member {
        None => Some(None),
        Some(Json::Null) => Some(None),
        Some(Json::Array(items)) => {
            proof {
                lemma_array_view(*items);
            }
            match strings_of(items) {
                Some(names) => Some(Some(names)),
                None => None,
            }
        },
        Some(_) => None,
    }
}

/// The list `names` as a JSON array.
fn array_text(names: &Vec<String>) -> (list: String)
    ensures
        list@ == "["@ + joined(texts(names@)) + "]"@,
{
    let ghost all = texts(names@);
    let mut list = String::from_str("[");
    let mut i: usize = 0;
    while i < names.len()
        invariant
            i <= names.len(),
            all == texts(names@),
            list@ == "["@ + joined(all.take(i as int)),
        decreases names.len() - i,
    {
        assert(all.take(i + 1).drop_last() =~= all.take(i as int));
        if i > 0 {
            list.append(",");
        }
        let quoted = quote(names[i].as_str());
        list.append(quoted.as_str());
        i += 1;
    }
    assert(all.take(i as int) =~= all);
    list.append("]");
    list
}

impl Envelope {
    /// The envelope by which the user `username` registers.
    pub fn register(username: &str) -> (envelope: Envelope)
        ensures
            envelope@ == EnvelopeView::register(username@),
            envelope@.well_formed(),
    {
        Envelope {
            message_type: MsgTypes::Register,
            data_array: None,
            data: Some(String::from_str(username)),
        }
    }

    /// The envelope that carries the text `text` to the chat.
    pub fn message(text: &str) -> (envelope: Envelope)
        ensures
            envelope@ == EnvelopeView::message(text@),
            envelope@.well_formed(),
    {
        Envelope {
            message_type: MsgTypes::Message,
            data_array: None,
            data: Some(String::from_str(text)),
        }
    }

    /// Reads the envelope that the document `doc` is.
    ///
    /// `doc` is one where it is an object whose `messageType` is the string
    /// `users`, `register` or `message`, whose `data`, if it is there and not
    /// `null`, is a string, and whose `dataArray`, if it is there and not
    /// `null`, is an array of strings. Other members are passed over.
    pub fn from_json(doc: &Json) -> (r: Result<Envelope, FrameError>)
        ensures
            match r {
                Ok(envelope) => envelope_of(doc@) == Ok::<EnvelopeView, FrameError>(envelope@),
                Err(error) => envelope_of(doc@) == Err::<EnvelopeView, FrameError>(error),
            },
    {
        let message_type = match doc.member("messageType") {
            Some(Json::Text(tag)) => MsgTypes::from_name(tag),
            _ => None,
        };
        let data_array = strings_in(doc.member("dataArray"));
        let data = string_in(doc.member("data"));
        match (message_type, data_array, data) {
            (Some(message_type), Some(data_array), Some(data)) => Ok(
                Envelope { message_type, data_array, data },
            ),
            _ => Err(FrameError::NotAnEnvelope),
        }
    }

    /// Reads the envelope that the frame `frame` carries.
    pub fn parse(frame: &str) -> (r: Result<Envelope, FrameError>)
        ensures
            match r {
                Ok(envelope) => envelope_in(frame@) == Ok::<EnvelopeView, FrameError>(envelope@),
                Err(error) => envelope_in(frame@) == Err::<EnvelopeView, FrameError>(error),
            },
    {
        match Json::parse(frame) {
            Some(doc) => Envelope::from_json(&doc),
            None => Err(FrameError::NotJson),
        }
    }

    /// Writes the frame that carries the envelope.
    pub fn to_frame(&self) -> (frame: String)
        ensures
            frame@ == frame_of(self@),
    {
        let mut frame = String::from_str("{\"messageType\":\"");
        frame.append(self.message_type.name());
        frame.append("\",\"data\":");
        match &self.data {
            Some(text) => {
                let quoted = quote(text.as_str());
                frame.append(quoted.as_str());
            },
            None => {
                frame.append("null");
            },
        }
        frame.append(",\"dataArray\":");
        match &self.data_array {
            Some(names) => {
                let list = array_text(names);
                frame.append(list.as_str());
            },
            None => {
                frame.append("null");
            },
        }
        frame.append("}");
        frame
    }
}

impl ChatMessage {
    /// Reads the chat message that the document `doc` is.
    pub fn from_json(doc: &Json) -> (r: Result<ChatMessage, FrameError>)
        ensures
            match r {
                Ok(message) => chat_message_of(doc@) == Ok::<ChatMessageView, FrameError>(
                    message@,
                ),
                Err(error) => chat_message_of(doc@) == Err::<ChatMessageView, FrameError>(error),
            },
    {
        match (doc.member("from"), doc.member("message")) {
            (Some(Json::Text(from)), Some(Json::Text(message))) => Ok(
                ChatMessage { from: from.clone(), message: message.clone() },
            ),
            _ => Err(FrameError::NotAChatMessage),
        }
    }

    /// Reads the chat message that the text `payload` holds.
    pub fn parse(payload: &str) -> (r: Result<ChatMessage, FrameError>)
        ensures
            match r {
                Ok(message) => chat_message_in(payload@) == Ok::<ChatMessageView, FrameError>(
                    message@,
                ),
                Err(error) => chat_message_in(payload@) == Err::<ChatMessageView, FrameError>(
                    error,
                ),
            },
    {
        match Json::parse(payload) {
            Some(doc) => ChatMessage::from_json(&doc),
            None => Err(FrameError::PayloadNotJson),
        }
    }

    /// Whether the message is shown as a picture: whether its text ends in
    /// `.gif`.
    pub fn is_image(&self) -> (r: bool)
        ensures
            r == ends_in_gif(self@.message),
    {
        let text = self.message.as_str();
        let n = text.unicode_len();
        if n < 4 {
            return false;
        }
        proof {
            reveal_strlit(".gif");
        }
        let r = text.get_char(n - 4) == '.' && text.get_char(n - 3) == 'g' && text.get_char(n - 2)
            == 'i' && text.get_char(n - 1) == 'f';
        proof {
            let tail = text@.subrange(n - 4, n as int);
            if r {
                assert(tail =~= ".gif"@);
            } else {
                assert(tail[0] == text@[n - 4]);
                assert(tail[1] == text@[n - 3]);
                assert(tail[2] == text@[n - 2]);
                assert(tail[3] == text@[n - 1]);
            }
        }
        r
    }
}

impl Inbound {
    /// What the envelope `envelope` asks of the chat view.
    ///
    /// The users of an envelope of type `users` are those of its `dataArray`,
    /// none where it has no `dataArray`. The `data` of one of type `message`
    /// is JSON text again, and holds the chat message.
    pub fn from_envelope(envelope: Envelope) -> (r: Result<Inbound, FrameError>)
        ensures
            match r {
                Ok(inbound) => inbound_of(envelope@) == Ok::<InboundView, FrameError>(inbound@),
                Err(error) => inbound_of(envelope@) == Err::<InboundView, FrameError>(error),
            },
    {
        match envelope.message_type {
            MsgTypes::Users => {
                let names = match envelope.data_array {
                    Some(names) => names,
                    None => Vec::new(),
                };
                assert(envelope@.data_array is None ==> texts(names@) =~= Seq::empty());
                Ok(Inbound::Users(names))
            },
            MsgTypes::Message => match envelope.data {
                Some(payload) => match ChatMessage::parse(payload.as_str()) {
                    Ok(message) => Ok(Inbound::Message(message)),
                    Err(error) => Err(error),
                },
                None => Err(FrameError::NoPayload),
            },
            MsgTypes::Register => Ok(Inbound::Register),
        }
    }

    /// What the frame `frame` asks of the chat view.
    pub fn decode(frame: &str) -> (r: Result<Inbound, FrameError>)
        ensures
            match r {
                Ok(inbound) => inbound_in(frame@) == Ok::<InboundView, FrameError>(inbound@),
                Err(error) => inbound_in(frame@) == Err::<InboundView, FrameError>(error),
            },
    {
        match Envelope::parse(frame) {
            Ok(envelope) => Inbound::from_envelope(envelope),
            Err(error) => Err(error),
        }
    }
}

} // verus!
