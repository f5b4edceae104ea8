use yewchat::chat::{Body, Bubble, Chat, Msg, Reaction};
use yewchat::envelope::{ChatMessage, Envelope, FrameError, Inbound, MsgTypes};
use yewchat::login::{login, LoginEvent, LoginForm, Route, SharedIdentity};
use yewchat::roster::{avatar_for, UserProfile};

fn started(name: &str) -> Chat {
    let mut identity = SharedIdentity::new();
    identity.set(name.to_string());
    Chat::create(&identity).0
}

fn users_frame(names: &[&str]) -> String {
    Envelope {
        message_type: MsgTypes::Users,
        data_array: Some(names.iter().map(|n| n.to_string()).collect()),
        data: None,
    }
    .to_frame()
}

fn message_frame(from: &str, message: &str) -> String {
    let payload = format!(
        "{{\"from\":{},\"message\":{}}}",
        yewchat::json::quote(from),
        yewchat::json::quote(message)
    );
    Envelope::message(&payload).to_frame()
}

fn said(from: &str, message: &str) -> ChatMessage {
    ChatMessage { from: from.to_string(), message: message.to_string() }
}

fn names_of(chat: &Chat) -> Vec<String> {
    chat.users().iter().map(|u| u.name().clone()).collect()
}

fn quiet() -> Reaction {
    Reaction { render: false, send: None, clear_input: false }
}

fn shown() -> Reaction {
    Reaction { render: true, send: None, clear_input: false }
}

#[test]
fn chat_starts_empty_and_registers() {
    let mut identity = SharedIdentity::new();
    identity.set("alice".to_string());
    let (chat, frame) = Chat::create(&identity);
    assert!(chat.users().is_empty());
    assert!(chat.messages().is_empty());
    assert_eq!(frame, "{\"messageType\":\"register\",\"data\":\"alice\",\"dataArray\":null}");
}

#[test]
fn chat_registers_whatever_the_name_is() {
    let (_, frame) = Chat::create(&SharedIdentity::new());
    assert_eq!(frame, "{\"messageType\":\"register\",\"data\":\"\",\"dataArray\":null}");
    assert_eq!(Envelope::parse(&frame), Ok(Envelope::register("")));
}

#[test]
fn users_frame_replaces_the_roster() {
    let mut chat = started("alice");
    assert_eq!(chat.update(Msg::HandleMsg(users_frame(&["alice", "bob"]))), Ok(shown()));
    assert_eq!(names_of(&chat), vec!["alice", "bob"]);
    assert_eq!(chat.update(Msg::HandleMsg(users_frame(&["carol"]))), Ok(shown()));
    assert_eq!(names_of(&chat), vec!["carol"]);
    assert_eq!(chat.users(), &vec![UserProfile::new("carol")]);
}

#[test]
fn roster_is_that_of_the_last_users_frame() {
    let lists: Vec<Vec<&str>> = vec![
        vec!["alice"],
        vec!["alice", "bob"],
        vec![],
        vec!["bob", "carol", "dave"],
        vec!["bob", "bob"],
        vec!["erin"],
    ];
    let mut chat = started("alice");
    for list in &lists {
        assert_eq!(chat.update(Msg::HandleMsg(users_frame(list))), Ok(shown()));
        assert_eq!(names_of(&chat), *list);
    }
    let mut fresh = started("zed");
    fresh.update(Msg::HandleMsg(users_frame(&["erin"]))).unwrap();
    assert_eq!(fresh.users(), chat.users());
}

#[test]
fn empty_users_frame_empties_the_roster() {
    let mut chat = started("alice");
    chat.update(Msg::HandleMsg(users_frame(&["alice", "bob"]))).unwrap();
    assert_eq!(chat.update(Msg::HandleMsg(users_frame(&[]))), Ok(shown()));
    assert!(chat.users().is_empty());
    chat.update(Msg::HandleMsg(users_frame(&["alice"]))).unwrap();
    let bare = "{\"messageType\":\"users\"}".to_string();
    assert_eq!(chat.update(Msg::HandleMsg(bare)), Ok(shown()));
    assert!(chat.users().is_empty());
}

#[test]
fn same_users_frame_twice_is_as_once() {
    let mut once = started("alice");
    once.update(Msg::HandleMsg(users_frame(&["alice", "bob"]))).unwrap();
    let mut twice = started("alice");
    twice.update(Msg::HandleMsg(users_frame(&["alice", "bob"]))).unwrap();
    twice.update(Msg::HandleMsg(users_frame(&["alice", "bob"]))).unwrap();
    assert_eq!(once.users(), twice.users());
    assert_eq!(once.messages(), twice.messages());
}

#[test]
fn users_frame_gives_each_user_the_avatar_of_the_name() {
    let mut chat = started("alice");
    chat.update(Msg::HandleMsg(users_frame(&["alice", "bob"]))).unwrap();
    assert_eq!(chat.users()[0].avatar(), &avatar_for("alice"));
    assert_eq!(
        chat.users()[1].avatar(),
        "https://avatars.dicebear.com/api/adventurer-neutral/bob.svg"
    );
}

#[test]
fn users_frame_leaves_the_messages() {
    let mut chat = started("alice");
    chat.update(Msg::HandleMsg(users_frame(&["bob"]))).unwrap();
    chat.update(Msg::HandleMsg(message_frame("bob", "hi"))).unwrap();
    chat.update(Msg::HandleMsg(users_frame(&["alice"]))).unwrap();
    assert_eq!(chat.messages(), &vec![said("bob", "hi")]);
}

#[test]
fn message_frame_adds_one_message_at_the_end() {
    let mut chat = started("alice");
    chat.update(Msg::HandleMsg(users_frame(&["alice", "bob"]))).unwrap();
    assert_eq!(chat.update(Msg::HandleMsg(message_frame("bob", "hi"))), Ok(shown()));
    assert_eq!(chat.messages(), &vec![said("bob", "hi")]);
    assert_eq!(chat.update(Msg::HandleMsg(message_frame("alice", " Hello,\n\"bob\" "))), Ok(shown()));
    assert_eq!(chat.messages(), &vec![said("bob", "hi"), said("alice", " Hello,\n\"bob\" ")]);
    assert_eq!(chat.update(Msg::HandleMsg(message_frame("bob", "hi"))), Ok(shown()));
    assert_eq!(
        chat.messages(),
        &vec![said("bob", "hi"), said("alice", " Hello,\n\"bob\" "), said("bob", "hi")]
    );
    assert_eq!(names_of(&chat), vec!["alice", "bob"]);
}

#[test]
fn message_from_a_stranger_is_kept_too() {
    let mut chat = started("alice");
    assert_eq!(chat.update(Msg::HandleMsg(message_frame("bob", "hi"))), Ok(shown()));
    assert_eq!(chat.messages(), &vec![said("bob", "hi")]);
    assert!(!chat.senders_known());
    chat.update(Msg::HandleMsg(users_frame(&["bob"]))).unwrap();
    assert!(chat.senders_known());
}

#[test]
fn register_frame_changes_nothing() {
    let mut chat = started("alice");
    chat.update(Msg::HandleMsg(users_frame(&["bob"]))).unwrap();
    chat.update(Msg::HandleMsg(message_frame("bob", "hi"))).unwrap();
    assert_eq!(chat.update(Msg::HandleMsg(Envelope::register("carol").to_frame())), Ok(quiet()));
    assert_eq!(names_of(&chat), vec!["bob"]);
    assert_eq!(chat.messages(), &vec![said("bob", "hi")]);
}

#[test]
fn receive_does_what_update_does() {
    let mut chat = started("alice");
    assert!(chat.receive(Inbound::Users(vec!["bob".to_string()])));
    assert!(chat.receive(Inbound::Message(said("bob", "hi"))));
    assert!(!chat.receive(Inbound::Register));
    assert_eq!(names_of(&chat), vec!["bob"]);
    assert_eq!(chat.messages(), &vec![said("bob", "hi")]);
}

#[test]
fn bad_frames_are_reported_and_change_nothing() {
    let mut chat = started("alice");
    chat.update(Msg::HandleMsg(users_frame(&["bob"]))).unwrap();
    chat.update(Msg::HandleMsg(message_frame("bob", "hi"))).unwrap();
    let cases = vec![
        ("not json", FrameError::NotJson),
        ("", FrameError::NotJson),
        ("{\"dataArray\":[\"x\"]}", FrameError::NotAnEnvelope),
        ("{\"messageType\":\"kick\",\"data\":\"bob\"}", FrameError::NotAnEnvelope),
        ("{\"messageType\":\"users\",\"dataArray\":\"bob\"}", FrameError::NotAnEnvelope),
        ("{\"messageType\":\"message\"}", FrameError::NoPayload),
        ("{\"messageType\":\"message\",\"data\":\"hi\"}", FrameError::PayloadNotJson),
        ("{\"messageType\":\"message\",\"data\":\"{}\"}", FrameError::NotAChatMessage),
    ];
    for (frame, error) in cases {
        assert_eq!(chat.update(Msg::HandleMsg(frame.to_string())), Err(error));
        assert_eq!(names_of(&chat), vec!["bob"]);
        assert_eq!(chat.messages(), &vec![said("bob", "hi")]);
    }
}

#[test]
fn submit_sends_the_text_and_clears_the_field() {
    let mut chat = started("alice");
    let reaction = chat.update(Msg::SubmitMessage(Some("hello".to_string()))).unwrap();
    assert_eq!(
        reaction,
        Reaction {
            render: false,
            send: Some("{\"messageType\":\"message\",\"data\":\"hello\",\"dataArray\":null}".to_string()),
            clear_input: true,
        }
    );
    assert!(chat.messages().is_empty());
    assert!(chat.users().is_empty());
}

#[test]
fn submit_of_an_empty_field_is_sent_too() {
    let mut chat = started("alice");
    let reaction = chat.update(Msg::SubmitMessage(Some(String::new()))).unwrap();
    assert_eq!(
        reaction.send,
        Some("{\"messageType\":\"message\",\"data\":\"\",\"dataArray\":null}".to_string())
    );
    assert!(reaction.clear_input);
    assert!(!reaction.render);
    assert_eq!(Envelope::parse(&reaction.send.unwrap()), Ok(Envelope::message("")));
}

#[test]
fn submit_without_a_field_does_nothing() {
    let mut chat = started("alice");
    assert_eq!(chat.update(Msg::SubmitMessage(None)), Ok(quiet()));
}

#[test]
fn submit_sends_the_text_as_it_is() {
    let mut chat = started("alice");
    let text = "  {\"from\":\"x\"} \n";
    let reaction = chat.update(Msg::SubmitMessage(Some(text.to_string()))).unwrap();
    assert_eq!(Envelope::parse(&reaction.send.unwrap()), Ok(Envelope::message(text)));
}

#[test]
fn view_shows_roster_and_messages() {
    let mut chat = started("alice");
    chat.update(Msg::HandleMsg(users_frame(&["alice", "bob"]))).unwrap();
    chat.update(Msg::HandleMsg(message_frame("bob", "hi"))).unwrap();
    chat.update(Msg::HandleMsg(message_frame("alice", "cat.gif"))).unwrap();
    assert!(chat.senders_known());
    let screen = chat.view();
    assert_eq!(screen.users, vec![UserProfile::new("alice"), UserProfile::new("bob")]);
    assert_eq!(
        screen.bubbles,
        vec![
            Bubble {
                avatar: avatar_for("bob"),
                from: "bob".to_string(),
                body: Body::Text("hi".to_string()),
            },
            Bubble {
                avatar: avatar_for("alice"),
                from: "alice".to_string(),
                body: Body::Image("cat.gif".to_string()),
            },
        ]
    );
}

#[test]
fn view_tells_pictures_by_the_suffix() {
    let mut chat = started("alice");
    chat.update(Msg::HandleMsg(users_frame(&["bob"]))).unwrap();
    for text in ["x.gif", "x.GIF", ""] {
        chat.update(Msg::HandleMsg(message_frame("bob", text))).unwrap();
    }
    let bodies: Vec<Body> = chat.view().bubbles.into_iter().map(|b| b.body).collect();
    assert_eq!(
        bodies,
        vec![
            Body::Image("x.gif".to_string()),
            Body::Text("x.GIF".to_string()),
            Body::Text(String::new()),
        ]
    );
}

#[test]
fn view_of_an_empty_chat_is_empty() {
    let chat = started("alice");
    assert!(chat.senders_known());
    let screen = chat.view();
    assert!(screen.users.is_empty());
    assert!(screen.bubbles.is_empty());
}

#[test]
fn senders_are_matched_by_the_exact_name() {
    let mut chat = started("alice");
    chat.update(Msg::HandleMsg(users_frame(&["bob"]))).unwrap();
    chat.update(Msg::HandleMsg(message_frame("Bob", "hi"))).unwrap();
    assert!(!chat.senders_known());
    chat.update(Msg::HandleMsg(users_frame(&["bob", "Bob"]))).unwrap();
    assert!(chat.senders_known());
    chat.update(Msg::HandleMsg(users_frame(&[]))).unwrap();
    assert!(!chat.senders_known());
}

#[test]
fn login_then_chat_end_to_end() {
    let mut form = LoginForm::new();
    let mut identity = SharedIdentity::new();
    assert_eq!(login(&mut form, &mut identity, LoginEvent::Input("alice".to_string())), Route::Login);
    assert_eq!(login(&mut form, &mut identity, LoginEvent::Go), Route::Chat);
    assert_eq!(identity.username(), "alice");

    let (mut chat, frame) = Chat::create(&identity);
    assert_eq!(frame, "{\"messageType\":\"register\",\"data\":\"alice\",\"dataArray\":null}");

    let users = "{\"messageType\":\"users\",\"dataArray\":[\"alice\",\"bob\"]}";
    assert_eq!(chat.update(Msg::HandleMsg(users.to_string())), Ok(shown()));
    assert_eq!(chat.users(), &vec![UserProfile::new("alice"), UserProfile::new("bob")]);
    assert_eq!(names_of(&chat), vec!["alice", "bob"]);

    let message =
        "{\"messageType\":\"message\",\"data\":\"{\\\"from\\\":\\\"bob\\\",\\\"message\\\":\\\"hi\\\"}\"}";
    assert_eq!(chat.update(Msg::HandleMsg(message.to_string())), Ok(shown()));
    assert_eq!(chat.messages(), &vec![said("bob", "hi")]);

    assert!(chat.senders_known());
    let screen = chat.view();
    assert_eq!(
        screen.bubbles,
        vec![Bubble {
            avatar: "https://avatars.dicebear.com/api/adventurer-neutral/bob.svg".to_string(),
            from: "bob".to_string(),
            body: Body::Text("hi".to_string()),
        }]
    );
}
