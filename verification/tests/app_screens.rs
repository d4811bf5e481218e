use convo::chat::Chat;
use convo::conversation;
use convo::loading;
use convo::screen::{Command, Convo, Message, Screen};

fn to_conversation() -> Convo {
    let (mut app, m) = Convo::new();
    app.update(m);
    app.update(Message::Loading(loading::Message::DownloadUpdate(
        loading::DownloadUpdate::Complete(Ok("/cache".to_string())),
    )));
    app.update(Message::ConversationOpened(Ok(vec![Chat::empty(3)])));
    app
}

#[test]
fn app_starts_on_the_loading_screen() {
    let (mut app, m) = Convo::new();
    assert!(matches!(app.screen(), Screen::Loading(_)));
    assert!(matches!(m, Message::Loading(loading::Message::StartDownload)));
    assert!(matches!(app.update(m), Command::Download));
    assert_eq!(app.title(), "Convo");
}

#[test]
fn finished_download_opens_the_conversation() {
    let (mut app, m) = Convo::new();
    app.update(m);
    let c = app.update(Message::Loading(loading::Message::DownloadUpdate(
        loading::DownloadUpdate::Complete(Ok("/cache".to_string())),
    )));
    assert!(matches!(c, Command::OpenConversation));
    let c = app.update(Message::ConversationOpened(Ok(vec![Chat::empty(3)])));
    assert!(matches!(
        c,
        Command::Emit(Message::Conversation(conversation::Message::Initialize(
            conversation::Status::Loading
        )))
    ));
    match app.screen() {
        Screen::Conversation(conv) => assert_eq!(conv.chats().len(), 1),
        _ => panic!("not on the conversation"),
    }
}

#[test]
fn chats_that_cannot_be_loaded_show_an_error() {
    let (mut app, m) = Convo::new();
    app.update(m);
    let c = app.update(Message::ConversationOpened(Err("locked".to_string())));
    assert!(matches!(c, Command::Emit(Message::Error)));
    assert!(matches!(app.screen(), Screen::Error(e) if e == "Error creating conversation struct"));
}

#[test]
fn failed_download_shows_its_error() {
    let (mut app, _) = Convo::new();
    let c = app.update(Message::Loading(loading::Message::DownloadUpdate(
        loading::DownloadUpdate::Error("offline".to_string()),
    )));
    assert!(matches!(c, Command::Emit(Message::Error)));
    assert!(matches!(app.screen(), Screen::Error(e) if e == "offline"));
}

#[test]
fn progress_stays_on_the_loading_screen() {
    let (mut app, _) = Convo::new();
    let mut d = loading::Download::start(Some(9));
    let c = app.update(Message::Loading(d.chunk(4)));
    assert!(matches!(c, Command::Nothing));
    match app.screen() {
        Screen::Loading(l) => assert_eq!((l.progress().downloaded(), l.progress().total()), (4, 9)),
        _ => panic!("left the loading screen"),
    }
}

#[test]
fn conversation_events_are_ignored_while_loading() {
    let (mut app, _) = Convo::new();
    assert!(matches!(app.update(Message::Conversation(conversation::Message::NewChat)), Command::Nothing));
    assert!(matches!(app.screen(), Screen::Loading(_)));
}

#[test]
fn conversation_effects_are_passed_on() {
    let mut app = to_conversation();
    let c = app.update(Message::Conversation(conversation::Message::Initialize(
        conversation::Status::Loading,
    )));
    match c {
        Command::Conversation(v) => assert!(v.len() == 1 && matches!(v[0], conversation::Effect::StartServer)),
        _ => panic!("effects not passed on"),
    }
    assert!(matches!(
        app.update(Message::Conversation(conversation::Message::DeleteChat(None))),
        Command::Nothing
    ));
}

#[test]
fn conversation_errors_show_the_error_screen() {
    let mut app = to_conversation();
    let c = app.update(Message::Conversation(conversation::Message::ServerStarted(Err(
        "spawn failed".to_string(),
    ))));
    assert!(matches!(c, Command::Emit(Message::Error)));
    assert!(matches!(app.screen(), Screen::Error(e) if e == "spawn failed"));
}

#[test]
fn the_error_screen_is_final() {
    let (mut app, _) = Convo::new();
    app.update(Message::Loading(loading::Message::DownloadUpdate(loading::DownloadUpdate::Error(
        "x".to_string(),
    ))));
    assert!(matches!(app.update(Message::Loading(loading::Message::StartDownload)), Command::Nothing));
    assert!(matches!(app.update(Message::ConversationOpened(Ok(Vec::new()))), Command::Nothing));
    assert!(matches!(app.update(Message::Error), Command::Nothing));
    assert!(matches!(app.screen(), Screen::Error(e) if e == "x"));
}

#[test]
fn app_accepts_what_its_screen_accepts() {
    let mut app = to_conversation();
    app.update(Message::Conversation(conversation::Message::OpenChat(1234)));
    assert!(!app.accepts(&Message::Conversation(conversation::Message::SubmitMessage("hi".to_string()))));
    assert!(app.accepts(&Message::Error));
}

#[test]
fn a_failing_conversation_shows_its_error() {
    let mut app = to_conversation();
    let c = app.update(Message::Fail("Server not initialized".to_string()));
    assert!(matches!(c, Command::Emit(Message::Error)));
    assert!(matches!(app.screen(), Screen::Error(e) if e == "Server not initialized"));
}

#[test]
fn failures_do_nothing_off_the_conversation() {
    let (mut app, _) = Convo::new();
    assert!(matches!(app.update(Message::Fail("x".to_string())), Command::Nothing));
    assert!(matches!(app.screen(), Screen::Loading(_)));
}
