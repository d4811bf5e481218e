use vstd::prelude::*;
use crate::ids::{random_uuid, v4_fixed_bits, v4_fixed_bits_mask};

verus! {

/// One message of a chat: what the user wrote or what the model replied.
#[derive(Debug)]
pub struct ChatMessage {
    pub id: usize,
    pub chat_id: u128,
    pub content: String,
    pub is_reply: bool,
}

/// The mathematical model of a `ChatMessage`.
pub struct MessageView {
    pub id: usize,
    pub chat_id: u128,
    pub content: Seq<char>,
    pub is_reply: bool,
}

impl View for ChatMessage {
    type V = MessageView;

    open spec fn view(&self) -> MessageView {
        MessageView {
            id: self.id,
            chat_id: self.chat_id,
            content: self.content@,
            is_reply: self.is_reply,
        }
    }
}

impl Clone for ChatMessage {
    fn clone(&self) -> (res: Self)
        ensures
            res@ == self@,
    {
        ChatMessage {
            id: self.id,
            chat_id: self.chat_id,
            content: self.content.clone(),
            is_reply: self.is_reply,
        }
    }
}

impl Default for ChatMessage {
    /// An empty user message with id 0, in a chat with a freshly drawn identifier.
    fn default() -> (res: ChatMessage)
        ensures
            res.id == 0,
            res.chat_id & v4_fixed_bits_mask() == v4_fixed_bits(),
            res.content@ == Seq::<char>::empty(),
            !res.is_reply,
    {
        ChatMessage { id: 0, chat_id: random_uuid(), content: String::new(), is_reply: false }
    }
}

/// A chat: an identifier, a title, a line of minor text and its messages in order.
#[derive(Debug)]
pub struct Chat {
    pub id: u128,
    pub title: String,
    pub minor_text: String,
    pub messages: Vec<ChatMessage>,
}

/// The mathematical model of a `Chat`.
pub struct ChatView {
    pub id: u128,
    pub title: Seq<char>,
    pub minor_text: Seq<char>,
    pub messages: Seq<MessageView>,
}

/// The models of a sequence of messages.
pub open spec fn messages_view(messages: Seq<ChatMessage>) -> Seq<MessageView> {
    messages.map_values(|m: ChatMessage| m@)
}

impl View for Chat {
    type V = ChatView;

    open spec fn view(&self) -> ChatView {
        ChatView {
            id: self.id,
            title: self.title@,
            minor_text: self.minor_text@,
            messages: messages_view(self.messages@),
        }
    }
}

/// The models of a sequence of chats.
pub open spec fn chats_view(chats: Seq<Chat>) -> Seq<ChatView> {
    chats.map_values(|c: Chat| c@)
}

/// The model of a chat that has just been begun: no title, no messages.
pub open spec fn empty_chat_view(id: u128) -> ChatView {
    ChatView {
        id,
        title: Seq::empty(),
        minor_text: Seq::empty(),
        messages: Seq::empty(),
    }
}

impl Chat {
    /// A new chat with the given identifier, an empty title and no messages.
    pub fn empty(id: u128) -> (chat: Chat)
        ensures
            chat@ == empty_chat_view(id),
    {
        let chat = Chat { id, title: String::new(), minor_text: String::new(), messages: Vec::new() };
        assert(chat@.messages =~= Seq::<MessageView>::empty());
        chat
    }
}

/// Clones a list of messages, message by message.
pub fn clone_messages(messages: &Vec<ChatMessage>) -> (res: Vec<ChatMessage>)
    ensures
        messages_view(res@) == messages_view(messages@),
{
    let mut res: Vec<ChatMessage> = Vec::new();
    let n = messages.len();
    let mut i: usize = 0;
    while i < n
        invariant
            n == messages@.len(),
            i <= n,
            messages_view(res@) =~= messages_view(messages@.take(i as int)),
        decreases n - i,
    {
        let m = messages[i].clone();
        let ghost before = res@;
        res.push(m);
        assert(messages_view(res@) =~= messages_view(before).push(messages@[i as int]@));
        assert(messages@.take(i as int + 1) =~= messages@.take(i as int).push(messages@[i as int]));
        assert(messages_view(messages@.take(i as int + 1)) =~= messages_view(
            messages@.take(i as int),
        ).push(messages@[i as int]@));
        i = i + 1;
    }
    assert(messages@.take(n as int) =~= messages@);
    res
}

impl Clone for Chat {
    fn clone(&self) -> (res: Self)
        ensures
            res@ == self@,
    {
        Chat {
            id: self.id,
            title: self.title.clone(),
            minor_text: self.minor_text.clone(),
            messages: clone_messages(&self.messages),
        }
    }
}

/// The reply that the model is writing, token by token.
pub struct Reply {
    pub content: String,
}

/// A message as the model is shown it: its text and whether the model wrote it.
#[derive(Clone, Debug)]
pub struct CompletionMessage {
    pub content: String,
    pub is_reply: bool,
}

/// The mathematical model of a `CompletionMessage`.
pub struct CompletionView {
    pub content: Seq<char>,
    pub is_reply: bool,
}

impl View for CompletionMessage {
    type V = CompletionView;

    open spec fn view(&self) -> CompletionView {
        CompletionView { content: self.content@, is_reply: self.is_reply }
    }
}

/// The models of a sequence of completion messages.
pub open spec fn completions_view(messages: Seq<CompletionMessage>) -> Seq<CompletionView> {
    messages.map_values(|m: CompletionMessage| m@)
}

/// What the model is shown of a chat message.
pub open spec fn completion_of(m: MessageView) -> CompletionView {
    CompletionView { content: m.content, is_reply: m.is_reply }
}

} // verus!
