use convo::assistant::Chatting;
use convo::chat::{Chat, ChatMessage};
use convo::conversation::{Action, Conversation, ConversationError, Effect, Message, Status};
use convo::page::{Body, Page};
use convo::viewers::Interaction;

const V4_MASK: u128 = 0xF000C000000000000000;
const V4_BITS: u128 = 0x40008000000000000000;

fn opened(chats: Vec<Chat>) -> Conversation {
    match Conversation::new(Ok(chats)) {
        Ok((c, m)) => {
            assert!(matches!(m, Message::Initialize(Status::Loading)));
            c
        }
        Err(_) => panic!("the conversation did not open"),
    }
}

fn started(chats: Vec<Chat>) -> Conversation {
    let mut c = opened(chats);
    c.update(Message::ServerStarted(Ok(())));
    c
}

fn effects(a: Action) -> Vec<Effect> {
    match a {
        Action::Run(v) => v,
        _ => panic!("no effects"),
    }
}

fn is_focus_later(a: Action) -> bool {
    let v = effects(a);
    v.len() == 1 && matches!(v[0], Effect::Emit(Message::FocusInput))
}

fn chat_with(id: u128, contents: &[(&str, bool)]) -> Chat {
    let mut c = Chat::empty(id);
    c.title = "t".to_string();
    for (i, (text, reply)) in contents.iter().enumerate() {
        c.messages.push(ChatMessage { id: i, chat_id: id, content: text.to_string(), is_reply: *reply });
    }
    c
}

#[test]
fn opening_fails_with_the_loading_error() {
    match Conversation::new(Err("no database".to_string())) {
        Err(ConversationError::Loading(e)) => assert_eq!(e, "no database"),
        Ok(_) => panic!("opened without chats"),
    }
}

#[test]
fn opening_shows_the_stored_chats_and_nothing_else() {
    let c = opened(vec![Chat::empty(1), Chat::empty(2)]);
    assert_eq!(c.chats().len(), 2);
    assert_eq!(c.current_chat_id(), None);
    assert_eq!(c.reply(), "");
    assert!(!c.server_ready());
    assert!(!c.dialog_open());
    assert_eq!(c.dialog_chat(), None);
}

#[test]
fn server_start_sequence() {
    let mut c = opened(Vec::new());
    let v = effects(c.update(Message::Initialize(Status::Loading)));
    assert!(v.len() == 1 && matches!(v[0], Effect::StartServer));
    let v = effects(c.update(Message::ServerStarted(Ok(()))));
    assert!(v.len() == 1 && matches!(v[0], Effect::WaitUntilReady));
    assert!(!c.server_ready());
    assert!(is_focus_later(c.update(Message::Initialize(Status::Loaded))));
    assert!(c.server_ready());
}

#[test]
fn server_failures_are_errors() {
    let mut c = opened(Vec::new());
    assert!(matches!(c.update(Message::ServerStarted(Err("no binary".to_string()))),
        Action::Error(ref e) if e == "no binary"));
    assert!(matches!(c.update(Message::Initialize(Status::Error("exited".to_string()))),
        Action::Error(ref e) if e == "exited"));
}

#[test]
fn focus_input_focuses() {
    let mut c = opened(Vec::new());
    let v = effects(c.update(Message::FocusInput));
    assert!(v.len() == 1 && matches!(v[0], Effect::FocusInput));
}

#[test]
fn markdown_copy_goes_to_the_clipboard() {
    let mut c = opened(Vec::new());
    let v = effects(c.update(Message::Markdown(Interaction::Copy("fn main() {}".to_string()))));
    assert!(v.len() == 1 && matches!(v[0], Effect::Copy(ref t) if t == "fn main() {}"));
}

#[test]
fn blank_submission_does_nothing() {
    let mut c = started(Vec::new());
    assert!(matches!(c.update(Message::SubmitMessage("  \n\t".to_string())), Action::Nothing));
    assert!(c.chats().is_empty());
    assert_eq!(c.current_chat_id(), None);
}

#[test]
fn first_submission_begins_a_chat() {
    let mut c = started(Vec::new());
    let v = effects(c.update(Message::SubmitMessage("Write a poem about programming.".to_string())));
    assert_eq!(c.chats().len(), 1);
    let chat = &c.chats()[0];
    assert_eq!(chat.id & V4_MASK, V4_BITS);
    assert_eq!(c.current_chat_id(), Some(chat.id));
    assert_eq!(chat.title, "Write a poem ab...");
    assert_eq!(chat.messages.len(), 1);
    assert_eq!(chat.messages[0].id, 0);
    assert_eq!(chat.messages[0].chat_id, chat.id);
    assert_eq!(chat.messages[0].content, "Write a poem about programming.");
    assert!(!chat.messages[0].is_reply);
    assert_eq!(v.len(), 2);
    assert!(matches!(v[0], Effect::ClearInput));
    match &v[1] {
        Effect::StreamReply(ctx) => {
            assert_eq!(ctx.len(), 1);
            assert_eq!(ctx[0].content, "Write a poem about programming.");
            assert!(!ctx[0].is_reply);
        }
        _ => panic!("no reply asked for"),
    }
}

#[test]
fn submission_before_the_server_clears_the_input_and_fails() {
    let mut c = opened(Vec::new());
    let v = effects(c.update(Message::SubmitMessage("hello".to_string())));
    assert_eq!(v.len(), 2);
    assert!(matches!(v[0], Effect::ClearInput));
    assert!(matches!(v[1], Effect::Fail(ref e) if e == "Server not initialized"));
    assert_eq!(c.chats().len(), 1);
    assert_eq!(c.chats()[0].messages[0].content, "hello");
}

#[test]
fn tokens_accumulate_and_complete_files_the_reply() {
    let mut c = started(Vec::new());
    c.update(Message::SubmitMessage("Hi".to_string()));
    assert!(is_focus_later(c.update(Message::ReplyMode(Chatting::Token("Hello".to_string())))));
    assert!(is_focus_later(c.update(Message::ReplyMode(Chatting::Token(", you".to_string())))));
    assert_eq!(c.reply(), "Hello, you");
    assert!(matches!(c.update(Message::ReplyMode(Chatting::Error("hiccup".to_string()))), Action::Nothing));
    assert_eq!(c.reply(), "Hello, you");
    assert!(is_focus_later(c.update(Message::ReplyMode(Chatting::Complete))));
    assert_eq!(c.reply(), "");
    let chat = &c.chats()[0];
    assert_eq!(chat.messages.len(), 2);
    assert_eq!(chat.messages[1].id, 2);
    assert_eq!(chat.messages[1].content, "Hello, you");
    assert!(chat.messages[1].is_reply);
}

#[test]
fn autosave_stores_once_per_change() {
    let mut c = started(Vec::new());
    assert!(matches!(c.update(Message::AutoSave), Action::Nothing));
    c.update(Message::SubmitMessage("Hi".to_string()));
    c.update(Message::ReplyMode(Chatting::Complete));
    let v = effects(c.update(Message::AutoSave));
    assert!(v.len() == 1 && matches!(v[0], Effect::SaveAllChats));
    assert!(matches!(c.update(Message::AutoSave), Action::Nothing));
}

#[test]
fn submission_to_an_open_chat_numbers_the_message_and_keeps_the_title() {
    let mut c = started(vec![chat_with(9, &[("a", false), ("b", true)])]);
    c.update(Message::OpenChat(9));
    let v = effects(c.update(Message::SubmitMessage("third".to_string())));
    let chat = &c.chats()[0];
    assert_eq!(chat.title, "t");
    assert_eq!(chat.messages.len(), 3);
    assert_eq!(chat.messages[2].id, 3);
    assert_eq!(chat.messages[2].content, "third");
    match &v[1] {
        Effect::StreamReply(ctx) => {
            assert_eq!(ctx.len(), 1);
            assert_eq!(ctx[0].content, "third");
        }
        _ => panic!("no reply asked for"),
    }
}

#[test]
fn untitled_chat_takes_its_title_from_the_first_submission() {
    let mut c = started(vec![Chat::empty(4)]);
    c.update(Message::OpenChat(4));
    c.update(Message::SubmitMessage("A question about Rust lifetimes".to_string()));
    assert_eq!(c.chats()[0].title, "A question abou...");
    assert_eq!(c.chats()[0].messages[0].id, 1);
}

#[test]
fn context_skips_the_first_three_messages_of_a_long_chat() {
    let mut c = started(vec![chat_with(
        3,
        &[("m0", false), ("m1", true), ("m2", false), ("m3", true), ("m4", false)],
    )]);
    c.update(Message::OpenChat(3));
    let v = effects(c.update(Message::SubmitMessage("m5".to_string())));
    match &v[1] {
        Effect::StreamReply(ctx) => {
            let texts: Vec<&str> = ctx.iter().map(|m| m.content.as_str()).collect();
            assert_eq!(texts, vec!["m3", "m4", "m5"]);
            assert!(ctx[0].is_reply);
            assert!(!ctx[2].is_reply);
        }
        _ => panic!("no reply asked for"),
    }
}

#[test]
fn context_of_a_short_chat_is_the_last_message() {
    let mut c = started(vec![chat_with(3, &[("m0", false), ("m1", true)])]);
    c.update(Message::OpenChat(3));
    let v = effects(c.update(Message::SubmitMessage("m2".to_string())));
    match &v[1] {
        Effect::StreamReply(ctx) => {
            assert_eq!(ctx.len(), 1);
            assert_eq!(ctx[0].content, "m2");
        }
        _ => panic!("no reply asked for"),
    }
}

#[test]
fn new_chat_is_added_once_stored() {
    let mut c = started(Vec::new());
    let v = effects(c.update(Message::NewChat));
    let id = match v[0] {
        Effect::SaveNewChat(id) => id,
        _ => panic!("no save asked for"),
    };
    assert_eq!(id & V4_MASK, V4_BITS);
    assert_eq!(c.current_chat_id(), Some(id));
    assert!(c.chats().is_empty());
    assert!(is_focus_later(c.update(Message::NewChatSaved(id, true))));
    assert_eq!(c.chats().len(), 1);
    assert_eq!(c.chats()[0].id, id);
    assert_eq!(c.chats()[0].title, "");
}

#[test]
fn new_chat_that_could_not_be_stored_is_not_added() {
    let mut c = started(Vec::new());
    let a = c.update_with_id(Message::NewChat, 77);
    let v = effects(a);
    assert!(matches!(v[0], Effect::SaveNewChat(77)));
    assert!(matches!(c.update(Message::NewChatSaved(77, false)), Action::Nothing));
    assert!(c.chats().is_empty());
    assert_eq!(c.current_chat_id(), Some(77));
}

#[test]
fn submission_to_a_missing_chat_is_not_accepted() {
    let c0 = started(Vec::new());
    let mut c = c0;
    c.update_with_id(Message::NewChat, 77);
    c.update(Message::NewChatSaved(77, false));
    assert!(!c.accepts(&Message::SubmitMessage("hi".to_string())));
    assert!(c.accepts(&Message::SubmitMessage("   ".to_string())));
    assert!(c.accepts(&Message::AutoSave));
}

#[test]
fn delete_dialog_and_deletion() {
    let mut c = started(vec![chat_with(1, &[("a", false)]), chat_with(2, &[]), chat_with(1, &[])]);
    c.update(Message::OpenChat(1));
    assert!(is_focus_later(c.update(Message::DialogDeleteChat(1))));
    assert!(c.dialog_open());
    assert_eq!(c.dialog_chat(), Some(1));
    let v = effects(c.update(Message::DeleteChat(c.dialog_chat())));
    assert!(v.len() == 1 && matches!(v[0], Effect::DeleteStoredChat(1)));
    assert_eq!(c.chats().len(), 3);
    let v = effects(c.update(Message::ChatDeleted(1, true)));
    assert_eq!(v.len(), 2);
    assert!(matches!(v[0], Effect::Emit(Message::FocusInput)));
    assert!(matches!(v[1], Effect::Emit(Message::DialogCancelDeleteChat)));
    assert_eq!(c.chats().len(), 1);
    assert_eq!(c.chats()[0].id, 2);
    assert_eq!(c.current_chat_id(), None);
    assert!(is_focus_later(c.update(Message::DialogCancelDeleteChat)));
    assert!(!c.dialog_open());
    assert_eq!(c.dialog_chat(), None);
}

#[test]
fn failed_deletion_keeps_the_chat() {
    let mut c = started(vec![chat_with(1, &[])]);
    c.update(Message::OpenChat(1));
    assert!(matches!(c.update(Message::ChatDeleted(1, false)), Action::Nothing));
    assert_eq!(c.chats().len(), 1);
    assert_eq!(c.current_chat_id(), Some(1));
}

#[test]
fn delete_without_a_chat_does_nothing() {
    let mut c = started(Vec::new());
    assert!(matches!(c.update(Message::DeleteChat(None)), Action::Nothing));
}

#[test]
fn cancel_undoes_opening_the_dialog() {
    let mut c = started(Vec::new());
    c.update(Message::DialogDeleteChat(5));
    c.update(Message::DialogCancelDeleteChat);
    assert!(!c.dialog_open());
    assert_eq!(c.dialog_chat(), None);
}

#[test]
fn page_is_the_splash_until_the_server_answers() {
    let c = started(vec![Chat::empty(1)]);
    assert!(matches!(c.page(), Page::Splash));
}

#[test]
fn page_lists_chats_newest_first_and_marks_the_open_one() {
    let mut c = started(vec![chat_with(1, &[("a", false), ("b", true)]), chat_with(2, &[])]);
    c.update(Message::Initialize(Status::Loaded));
    match c.page() {
        Page::Main { entries, body, dialog_open, delete } => {
            let rows: Vec<(usize, bool)> = entries.iter().map(|e| (e.index, e.selected)).collect();
            assert_eq!(rows, vec![(1, false), (0, false)]);
            assert!(matches!(body, Body::NoChat));
            assert!(!dialog_open);
            assert_eq!(delete, None);
        }
        Page::Splash => panic!("still the splash page"),
    }
    c.update(Message::OpenChat(1));
    c.update(Message::ReplyMode(Chatting::Token("partial".to_string())));
    c.update(Message::DialogDeleteChat(1));
    match c.page() {
        Page::Main { entries, body, dialog_open, delete } => {
            let rows: Vec<(usize, bool)> = entries.iter().map(|e| (e.index, e.selected)).collect();
            assert_eq!(rows, vec![(1, false), (0, true)]);
            match body {
                Body::Messages { chat, bubbles, show_reply } => {
                    assert_eq!(chat, 0);
                    let b: Vec<(usize, bool)> = bubbles.iter().map(|b| (b.index, b.right_aligned)).collect();
                    assert_eq!(b, vec![(0, true), (1, false)]);
                    assert!(show_reply);
                }
                _ => panic!("no messages shown"),
            }
            assert!(dialog_open);
            assert_eq!(delete, Some(1));
        }
        Page::Splash => panic!("still the splash page"),
    }
}

#[test]
fn page_invites_a_choice_when_the_open_chat_is_missing() {
    let mut c = started(Vec::new());
    c.update(Message::Initialize(Status::Loaded));
    c.update(Message::OpenChat(55));
    match c.page() {
        Page::Main { body, .. } => assert!(matches!(body, Body::ChatNotFound)),
        Page::Splash => panic!("still the splash page"),
    }
}
