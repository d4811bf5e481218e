use convo::assistant::{
    api_base, next_wait, prompt_messages, server_args, split_words, token_of, LlmError, Probe, Role,
    StreamItem, Wait,
};
use convo::chat::{Chat, ChatMessage, CompletionMessage};
use convo::db::{chat_row, keep_read, message_from_row, message_row, MessageRow};
use convo::huggingface::DownloadProgress as HubProgress;
use convo::text::{is_blank, title_from};

const V4_MASK: u128 = 0xF000C000000000000000;
const V4_BITS: u128 = 0x40008000000000000000;

#[test]
fn title_keeps_short_text_whole() {
    assert_eq!(title_from("Hello"), "Hello...");
}

#[test]
fn title_cuts_long_text_at_fifteen_characters() {
    assert_eq!(title_from("Write a poem about programming."), "Write a poem ab...");
}

#[test]
fn title_counts_characters_not_bytes() {
    let text = "é".repeat(17);
    assert_eq!(title_from(&text), format!("{}...", "é".repeat(15)));
}

#[test]
fn title_of_empty_text_is_the_dots() {
    assert_eq!(title_from(""), "...");
}

#[test]
fn blank_texts_are_only_white_space() {
    assert!(is_blank(""));
    assert!(is_blank(" \t\n\r"));
    assert!(is_blank("\u{a0}\u{3000}\u{2028}"));
    assert!(!is_blank(" x "));
    assert!(!is_blank("hi"));
}

#[test]
fn default_message_draws_a_v4_chat_id() {
    let a = ChatMessage::default();
    let b = ChatMessage::default();
    assert_eq!(a.id, 0);
    assert_eq!(a.content, "");
    assert!(!a.is_reply);
    assert_eq!(a.chat_id & V4_MASK, V4_BITS);
    assert_eq!(b.chat_id & V4_MASK, V4_BITS);
    assert_ne!(a.chat_id, b.chat_id);
}

#[test]
fn empty_chat_has_no_title_and_no_messages() {
    let c = Chat::empty(42);
    assert_eq!(c.id, 42);
    assert_eq!(c.title, "");
    assert_eq!(c.minor_text, "");
    assert!(c.messages.is_empty());
}

#[test]
fn cloned_chat_keeps_everything() {
    let mut c = Chat::empty(5);
    c.title = "T".to_string();
    c.messages.push(ChatMessage { id: 1, chat_id: 5, content: "hi".to_string(), is_reply: false });
    let d = c.clone();
    assert_eq!(d.id, 5);
    assert_eq!(d.title, "T");
    assert_eq!(d.messages.len(), 1);
    assert_eq!(d.messages[0].content, "hi");
    assert_eq!(d.messages[0].id, 1);
}

#[test]
fn prompt_starts_with_the_system_instruction() {
    let msgs = vec![
        CompletionMessage { content: "Hi".to_string(), is_reply: false },
        CompletionMessage { content: "Hello!".to_string(), is_reply: true },
    ];
    let p = prompt_messages(&msgs);
    assert_eq!(p.len(), 3);
    assert!(p[0].role == Role::System);
    assert_eq!(p[0].content, "You are a helpful assistant.");
    assert!(p[1].role == Role::User);
    assert_eq!(p[1].content, "Hi");
    assert!(p[2].role == Role::Assistant);
    assert_eq!(p[2].content, "Hello!");
}

#[test]
fn prompt_of_no_messages_is_the_instruction_alone() {
    let p = prompt_messages(&Vec::new());
    assert_eq!(p.len(), 1);
    assert!(p[0].role == Role::System);
}

#[test]
fn stream_items_hand_on_text_and_failures() {
    assert_eq!(token_of(StreamItem::Delta(Some("ab".to_string()))), Some("ab".to_string()));
    assert_eq!(token_of(StreamItem::Delta(None)), None);
    assert_eq!(token_of(StreamItem::Failed("boom".to_string())), Some("boom".to_string()));
}

#[test]
fn stored_message_reads_back_the_same() {
    let m = ChatMessage { id: 3, chat_id: 99, content: "x".to_string(), is_reply: true };
    let r = message_row(&m);
    assert_eq!(r.id, 3i64);
    let back = message_from_row(r);
    assert_eq!(back.id, 3);
    assert_eq!(back.chat_id, 99);
    assert_eq!(back.content, "x");
    assert!(back.is_reply);
}

#[test]
fn huge_message_id_survives_the_signed_column() {
    let m = ChatMessage { id: usize::MAX, chat_id: 1, content: String::new(), is_reply: false };
    let r = message_row(&m);
    assert_eq!(r.id, -1i64);
    assert_eq!(message_from_row(r).id, usize::MAX);
}

#[test]
fn row_from_negative_id_wraps() {
    let r = MessageRow { id: -2, chat_id: 0, content: String::new(), is_reply: false };
    assert_eq!(message_from_row(r).id, usize::MAX - 1);
}

#[test]
fn chat_row_holds_id_and_title() {
    let mut c = Chat::empty(8);
    c.title = "abc".to_string();
    let r = chat_row(&c);
    assert_eq!(r.id, 8);
    assert_eq!(r.title, "abc");
}

#[test]
fn unreadable_rows_are_left_out_in_order() {
    let rows: Vec<Result<u32, String>> =
        vec![Ok(1), Err("bad".to_string()), Ok(2), Ok(3), Err("x".to_string())];
    assert_eq!(keep_read(rows), vec![1, 2, 3]);
    let none: Vec<Result<u32, String>> = vec![Err("a".to_string())];
    assert!(keep_read(none).is_empty());
}

#[test]
fn hub_progress_records_size_and_total() {
    let mut p = HubProgress::new();
    assert_eq!((p.current(), p.total()), (0, 0));
    p.init(100, "model.gguf");
    assert_eq!((p.current(), p.total()), (0, 100));
    p.update(40);
    assert_eq!((p.current(), p.total()), (40, 100));
    p.update(70);
    assert_eq!((p.current(), p.total()), (70, 100));
    let q = p.clone();
    assert_eq!((q.current(), q.total()), (70, 100));
}

#[test]
fn waiting_for_the_server_follows_the_probes() {
    assert!(matches!(next_wait(Probe::ProcessRunning), Wait::CheckHealth));
    assert!(matches!(next_wait(Probe::Health(true)), Wait::Ready));
    assert!(matches!(next_wait(Probe::Health(false)), Wait::Sleep));
    match next_wait(Probe::ProcessExited("exit status: 1".to_string())) {
        Wait::Fail(LlmError::LoadError(t)) => assert_eq!(t, "llama-server exited unexpectedly: exit status: 1"),
        _ => panic!("an exited server is not a failure"),
    }
    match next_wait(Probe::ProcessUnknown("no child".to_string())) {
        Wait::Fail(LlmError::LoadError(t)) => assert_eq!(t, "no child"),
        _ => panic!("an unknown process state is not a failure"),
    }
}

#[test]
fn words_are_the_runs_between_white_space() {
    assert_eq!(split_words("  a  bc\td \n"), vec!["a", "bc", "d"]);
    assert_eq!(split_words("one"), vec!["one"]);
    assert!(split_words("   ").is_empty());
    assert!(split_words("").is_empty());
}

#[test]
fn server_is_started_on_the_local_port() {
    assert_eq!(
        server_args("microsoft/Phi-3-mini-4k-instruct-gguf"),
        vec!["-hf", "microsoft/Phi-3-mini-4k-instruct-gguf", "--host", "127.0.0.1", "--port", "8081"]
    );
    assert_eq!(server_args("two words"), vec!["-hf", "two", "words", "--host", "127.0.0.1", "--port", "8081"]);
    assert_eq!(api_base(), "http://127.0.0.1:8081");
}
