use vstd::prelude::*;
use crate::assistant::Chatting;
use crate::chat::{
    Chat, ChatMessage, ChatView, CompletionMessage, CompletionView, MessageView, Reply, chats_view,
    completion_of, completions_view, empty_chat_view, messages_view,
};
use crate::ids::{random_uuid, v4_fixed_bits, v4_fixed_bits_mask};
use crate::text::{is_blank, is_blank_spec, title_from, title_of};
use crate::viewers::Interaction;

verus! {

/// How far the model server has come.
#[derive(Clone, Debug, PartialEq)]
pub enum Status {
    /// The server is to be started.
    Loading,
    /// The server answers.
    Loaded,
    /// The server could not be made ready.
    Error(String),
}

/// Why the conversation screen could not be opened.
#[derive(Debug)]
pub enum ConversationError {
    /// The stored chats could not be loaded.
    Loading(String),
}

/// The events of the conversation screen: what the user did, and what came
/// back from work that the screen asked for.
#[derive(Clone, Debug)]
pub enum Message {
    /// Start the model server, note that it is ready, or that it failed.
    Initialize(Status),
    /// The server was started (or could not be), as `Effect::StartServer` asked.
    ServerStarted(Result<(), String>),
    /// Focus the input field.
    FocusInput,
    /// An interaction with a rendered message.
    Markdown(Interaction),
    /// Begin a new chat.
    NewChat,
    /// The new chat with this identifier was stored (`true`) or not (`false`).
    NewChatSaved(u128, bool),
    /// Open a chat.
    OpenChat(u128),
    /// Delete the chat that the dialog asks about, if any.
    DeleteChat(Option<u128>),
    /// The stored chat with this identifier was deleted (`true`) or not (`false`).
    ChatDeleted(u128, bool),
    /// Ask whether to delete a chat.
    DialogDeleteChat(u128),
    /// Close the delete dialog.
    DialogCancelDeleteChat,
    /// Submit the text of the input field.
    SubmitMessage(String),
    /// A step of the model's reply.
    ReplyMode(Chatting),
    /// Time to store the chats if they changed.
    AutoSave,
}

/// Work that the conversation screen asks its host to perform.
pub enum Effect {
    /// Start the model server, then answer with `Message::ServerStarted`.
    StartServer,
    /// Wait until the server answers, then answer with `Message::Initialize`
    /// (`Loaded`, or `Error` with the reason).
    WaitUntilReady,
    /// Hand this message back to the screen.
    Emit(Message),
    /// Focus the input field and scroll the conversation to its end.
    FocusInput,
    /// Write this text to the clipboard.
    Copy(String),
    /// Store an empty chat with this identifier, then answer with `Message::NewChatSaved`.
    SaveNewChat(u128),
    /// Delete the stored chat and its messages, then answer with `Message::ChatDeleted`.
    DeleteStoredChat(u128),
    /// Store every chat.
    SaveAllChats,
    /// Empty the input field.
    ClearInput,
    /// Ask the model to reply to these messages, answering with `Message::ReplyMode`.
    StreamReply(Vec<CompletionMessage>),
    /// Give up the conversation and show this error in its place.
    Fail(String),
}

/// What the screen asks for after an event.
pub enum Action {
    Nothing,
    Run(Vec<Effect>),
    Error(String),
}

/// The mathematical model of an `Effect`.
pub enum EffectView {
    StartServer,
    WaitUntilReady,
    Emit(Message),
    FocusInput,
    Copy(Seq<char>),
    SaveNewChat(u128),
    DeleteStoredChat(u128),
    SaveAllChats,
    ClearInput,
    StreamReply(Seq<CompletionView>),
    Fail(Seq<char>),
}

impl View for Effect {
    type V = EffectView;

    open spec fn view(&self) -> EffectView {
        match self {
            Effect::StartServer => EffectView::StartServer,
            Effect::WaitUntilReady => EffectView::WaitUntilReady,
            Effect::Emit(m) => EffectView::Emit(*m),
            Effect::FocusInput => EffectView::FocusInput,
            Effect::Copy(t) => EffectView::Copy(t@),
            Effect::SaveNewChat(id) => EffectView::SaveNewChat(*id),
            Effect::DeleteStoredChat(id) => EffectView::DeleteStoredChat(*id),
            Effect::SaveAllChats => EffectView::SaveAllChats,
            Effect::ClearInput => EffectView::ClearInput,
            Effect::StreamReply(v) => EffectView::StreamReply(completions_view(v@)),
            Effect::Fail(e) => EffectView::Fail(e@),
        }
    }
}

/// The mathematical model of an `Action`.
pub enum ActionView {
    Nothing,
    Run(Seq<EffectView>),
    Error(Seq<char>),
}

impl View for Action {
    type V = ActionView;

    open spec fn view(&self) -> ActionView {
        match self {
            Action::Nothing => ActionView::Nothing,
            Action::Run(v) => ActionView::Run(v@.map_values(|e: Effect| e@)),
            Action::Error(e) => ActionView::Error(e@),
        }
    }
}

/// The state of the conversation screen.
pub struct Conversation {
    server_started: bool,
    server_ready: bool,
    replying: Reply,
    chats: Vec<Chat>,
    needs_save: bool,
    dialog_delete_chat_open: bool,
    dialog_delete_chat: Option<u128>,
    current_chat_id: Option<u128>,
}

/// The mathematical model of a `Conversation`.
pub struct ConversationView {
    /// The model server was started.
    pub server_started: bool,
    /// The model server answers.
    pub server_ready: bool,
    /// The reply written so far.
    pub reply: Seq<char>,
    /// The chats, oldest first.
    pub chats: Seq<ChatView>,
    /// The chats changed since they were last stored.
    pub needs_save: bool,
    /// The delete dialog is open.
    pub dialog_open: bool,
    /// The chat that the delete dialog asks about.
    pub dialog_chat: Option<u128>,
    /// The chat on screen.
    pub current_chat: Option<u128>,
}

impl View for Conversation {
    type V = ConversationView;

    closed spec fn view(&self) -> ConversationView {
        ConversationView {
            server_started: self.server_started,
            server_ready: self.server_ready,
            reply: self.replying.content@,
            chats: chats_view(self.chats@),
            needs_save: self.needs_save,
            dialog_open: self.dialog_delete_chat_open,
            dialog_chat: self.dialog_delete_chat,
            current_chat: self.current_chat_id,
        }
    }
}

/// The screen as it opens over the stored chats: no server yet, no reply, no
/// dialog, no chat on screen, nothing to store.
pub open spec fn opened(chats: Seq<ChatView>) -> ConversationView {
    ConversationView {
        server_started: false,
        server_ready: false,
        reply: Seq::empty(),
        chats,
        needs_save: false,
        dialog_open: false,
        dialog_chat: None,
        current_chat: None,
    }
}

/// `i` is the first position of a chat with this identifier.
pub open spec fn is_first_with_id(chats: Seq<ChatView>, id: u128, i: int) -> bool {
    &&& 0 <= i < chats.len()
    &&& chats[i].id == id
    &&& forall|j: int| 0 <= j < i ==> chats[j].id != id
}

/// The position of the first chat with this identifier, or -1 when there is none.
pub open spec fn find_chat(chats: Seq<ChatView>, id: u128) -> int {
    if exists|i: int| is_first_with_id(chats, id, i) {
        choose|i: int| is_first_with_id(chats, id, i)
    } else {
        -1
    }
}

/// The chats without those with this identifier, in their order.
pub open spec fn without_chat(chats: Seq<ChatView>, id: u128) -> Seq<ChatView> {
    chats.filter(|c: ChatView| c.id != id)
}

/// No chat holds so many messages that one more would not be counted in a `usize`.
pub open spec fn lengths_fit(chats: Seq<ChatView>) -> bool {
    forall|i: int| 0 <= i < chats.len() ==> #[trigger] chats[i].messages.len() < usize::MAX
}

/// Where the messages shown to the model begin, in a chat of `n` messages:
/// at the last message when there are at most four, else at the fourth.
pub open spec fn context_start(n: nat) -> int {
    if n == 0 {
        0
    } else if n - 1 < 3 {
        n - 1
    } else {
        3
    }
}

/// The messages of a chat that the model is shown.
pub open spec fn context_of(messages: Seq<MessageView>) -> Seq<CompletionView> {
    messages.skip(context_start(messages.len())).map_values(|m: MessageView| completion_of(m))
}

/// The text of the failure reported when a message is submitted before the server started.
pub open spec fn server_missing() -> Seq<char> {
    "Server not initialized"@
}

/// Run one effect: hand `FocusInput` back to the screen.
pub open spec fn focus_later() -> ActionView {
    ActionView::Run(seq![EffectView::Emit(Message::FocusInput)])
}

/// A chat after the user wrote `text` in it: a first message also gives it its title.
pub open spec fn with_user_message(c: ChatView, id: u128, text: Seq<char>) -> ChatView {
    ChatView {
        title: if c.title.len() == 0 { title_of(text) } else { c.title },
        messages: c.messages.push(
            MessageView {
                id: (c.messages.len() + 1) as usize,
                chat_id: id,
                content: text,
                is_reply: false,
            },
        ),
        ..c
    }
}

/// A chat begun by a first message.
pub open spec fn chat_begun_with(id: u128, text: Seq<char>) -> ChatView {
    ChatView {
        id,
        title: title_of(text),
        minor_text: Seq::empty(),
        messages: seq![MessageView { id: 0, chat_id: id, content: text, is_reply: false }],
    }
}

/// The chats and the chat on screen after `text` is submitted.
pub open spec fn submitted(s: ConversationView, text: Seq<char>, fresh: u128) -> ConversationView {
    match s.current_chat {
        Some(id) => {
            let i = find_chat(s.chats, id);
            ConversationView {
                chats: if i >= 0 {
                    s.chats.update(i, with_user_message(s.chats[i], id, text))
                } else {
                    s.chats
                },
                ..s
            }
        },
        None => ConversationView {
            chats: s.chats.push(chat_begun_with(fresh, text)),
            current_chat: Some(fresh),
            ..s
        },
    }
}

/// Submitting `text`: nothing when it is blank; else the message joins the chat on
/// screen (or a new chat) and the input is cleared; then the model is asked to
/// reply or, before the server was started, the conversation gives up with the
/// missing server as its error.
pub open spec fn submit_step(s: ConversationView, text: Seq<char>, fresh: u128) -> (
    ConversationView,
    ActionView,
) {
    if is_blank_spec(text) {
        (s, ActionView::Nothing)
    } else {
        let t = submitted(s, text, fresh);
        let i = find_chat(t.chats, t.current_chat->0);
        (
            t,
            if s.server_started {
                ActionView::Run(
                    seq![
                        EffectView::ClearInput,
                        EffectView::StreamReply(context_of(t.chats[i].messages)),
                    ],
                )
            } else {
                ActionView::Run(seq![EffectView::ClearInput, EffectView::Fail(server_missing())])
            },
        )
    }
}

/// A chat after the model's reply `text` is added to it.
pub open spec fn with_reply(c: ChatView, id: u128, text: Seq<char>) -> ChatView {
    ChatView {
        messages: c.messages.push(
            MessageView {
                id: (c.messages.len() + 1) as usize,
                chat_id: id,
                content: text,
                is_reply: true,
            },
        ),
        ..c
    }
}

/// The reply is complete: it joins the chat on screen and is emptied, and the
/// chats are to be stored.
pub open spec fn complete_step(s: ConversationView) -> (ConversationView, ActionView) {
    let t = match s.current_chat {
        Some(id) => {
            let i = find_chat(s.chats, id);
            if i >= 0 {
                ConversationView {
                    chats: s.chats.update(i, with_reply(s.chats[i], id, s.reply)),
                    reply: Seq::empty(),
                    ..s
                }
            } else {
                s
            }
        },
        None => s,
    };
    (ConversationView { needs_save: true, ..t }, focus_later())
}

/// The transition of the conversation screen: from a state and an event to the
/// next state and the work to perform. `fresh` is the identifier drawn for a
/// chat that the event begins.
pub open spec fn step(s: ConversationView, m: Message, fresh: u128) -> (ConversationView, ActionView) {
    match m {
        Message::Initialize(status) => match status {
            Status::Loading => (s, ActionView::Run(seq![EffectView::StartServer])),
            Status::Loaded => (ConversationView { server_ready: true, ..s }, focus_later()),
            Status::Error(e) => (s, ActionView::Error(e@)),
        },
        Message::ServerStarted(r) => match r {
            Ok(_) => (
                ConversationView { server_started: true, ..s },
                ActionView::Run(seq![EffectView::WaitUntilReady]),
            ),
            Err(e) => (s, ActionView::Error(e@)),
        },
        Message::FocusInput => (s, ActionView::Run(seq![EffectView::FocusInput])),
        Message::Markdown(Interaction::Copy(text)) => (
            s,
            ActionView::Run(seq![EffectView::Copy(text@)]),
        ),
        Message::NewChat => (
            ConversationView { current_chat: Some(fresh), ..s },
            ActionView::Run(seq![EffectView::SaveNewChat(fresh)]),
        ),
        Message::NewChatSaved(id, saved) => if saved {
            (ConversationView { chats: s.chats.push(empty_chat_view(id)), ..s }, focus_later())
        } else {
            (s, ActionView::Nothing)
        },
        Message::OpenChat(id) => (ConversationView { current_chat: Some(id), ..s }, focus_later()),
        Message::DeleteChat(id) => match id {
            Some(id) => (s, ActionView::Run(seq![EffectView::DeleteStoredChat(id)])),
            None => (s, ActionView::Nothing),
        },
        Message::ChatDeleted(id, deleted) => if deleted {
            (
                ConversationView { chats: without_chat(s.chats, id), current_chat: None, ..s },
                ActionView::Run(
                    seq![
                        EffectView::Emit(Message::FocusInput),
                        EffectView::Emit(Message::DialogCancelDeleteChat),
                    ],
                ),
            )
        } else {
            (s, ActionView::Nothing)
        },
        Message::DialogDeleteChat(id) => (
            ConversationView { dialog_open: true, dialog_chat: Some(id), ..s },
            focus_later(),
        ),
        Message::DialogCancelDeleteChat => (
            ConversationView { dialog_open: false, dialog_chat: None, ..s },
            focus_later(),
        ),
        Message::SubmitMessage(text) => submit_step(s, text@, fresh),
        Message::ReplyMode(c) => match c {
            Chatting::Token(t) => (ConversationView { reply: s.reply + t@, ..s }, focus_later()),
            Chatting::Complete => complete_step(s),
            Chatting::Error(_) => (s, ActionView::Nothing),
        },
        Message::AutoSave => if s.needs_save {
            (ConversationView { needs_save: false, ..s }, ActionView::Run(seq![EffectView::SaveAllChats]))
        } else {
            (s, ActionView::Nothing)
        },
    }
}

/// The event begins a chat, and so draws an identifier for it.
pub open spec fn uses_fresh_id(s: ConversationView, m: Message) -> bool {
    match m {
        Message::NewChat => true,
        Message::SubmitMessage(text) => !is_blank_spec(text@) && s.current_chat is None,
        _ => false,
    }
}

/// What the transition needs: a submitted message goes to a chat that exists,
/// and every chat has room for one more message.
pub open spec fn step_allowed(s: ConversationView, m: Message) -> bool {
    &&& lengths_fit(s.chats)
    &&& match m {
        Message::SubmitMessage(text) => !is_blank_spec(text@) ==> match s.current_chat {
            Some(id) => find_chat(s.chats, id) >= 0,
            None => true,
        },
        _ => true,
    }
}

} // verus!

verus! {

/// The position of the first chat with this identifier.
fn position(chats: &Vec<Chat>, id: u128) -> (r: Option<usize>)
    ensures
        match r {
            Some(i) => i < chats@.len() && i as int == find_chat(chats_view(chats@), id),
            None => find_chat(chats_view(chats@), id) == -1,
        },
{
    let ghost v = chats_view(chats@);
    let n = chats.len();
    let mut i: usize = 0;
    while i < n
        invariant
            n == chats@.len(),
            v == chats_view(chats@),
            i <= n,
            forall|j: int| 0 <= j < i ==> v[j].id != id,
        decreases n - i,
    {
        if chats[i].id == id {
            proof {
                assert(is_first_with_id(v, id, i as int));
                lemma_find_chat_is(v, id, i as int);
            }
            return Some(i);
        }
        i = i + 1;
    }
    assert(!exists|k: int| is_first_with_id(v, id, k)) by {
        if exists|k: int| is_first_with_id(v, id, k) {
            let k = choose|k: int| is_first_with_id(v, id, k);
            assert(v[k].id != id);
        }
    }
    None
}

/// The messages of a chat that the model is shown.
fn completion_context(messages: &Vec<ChatMessage>) -> (ctx: Vec<CompletionMessage>)
    ensures
        completions_view(ctx@) == context_of(messages_view(messages@)),
{
    let n = messages.len();
    let start: usize = if n == 0 {
        0
    } else if n - 1 < 3 {
        n - 1
    } else {
        3
    };
    let ghost whole = messages_view(messages@).skip(start as int);
    let mut ctx: Vec<CompletionMessage> = Vec::new();
    let mut i: usize = start;
    while i < n
        invariant
            n == messages@.len(),
            start <= i <= n,
            start as int == context_start(n as nat),
            whole == messages_view(messages@).skip(start as int),
            completions_view(ctx@) =~= whole.take(i - start).map_values(
                |m: MessageView| completion_of(m),
            ),
        decreases n - i,
    {
        let m = &messages[i];
        let ghost before = ctx@;
        ctx.push(CompletionMessage { content: m.content.clone(), is_reply: m.is_reply });
        assert(completions_view(ctx@) =~= completions_view(before).push(completion_of(m@)));
        assert(whole.take(i + 1 - start) =~= whole.take(i - start).push(m@));
        i = i + 1;
    }
    assert(whole.take(n - start) =~= whole);
    ctx
}

/// The chats without those with this identifier, in their order.
fn chats_without(chats: &Vec<Chat>, id: u128) -> (res: Vec<Chat>)
    ensures
        chats_view(res@) == without_chat(chats_view(chats@), id),
{
    let ghost v = chats_view(chats@);
    let mut res: Vec<Chat> = Vec::new();
    let n = chats.len();
    let mut i: usize = 0;
    while i < n
        invariant
            n == chats@.len(),
            v == chats_view(chats@),
            i <= n,
            chats_view(res@) == without_chat(v.take(i as int), id),
        decreases n - i,
    {
        let ghost before = res@;
        assert(v.take(i as int + 1).drop_last() =~= v.take(i as int));
        assert(v.take(i as int + 1).last() == v[i as int]);
        reveal_with_fuel(Seq::filter, 1);
        if chats[i].id != id {
            let c = chats[i].clone();
            res.push(c);
            assert(chats_view(res@) =~= chats_view(before).push(v[i as int]));
        }
        i = i + 1;
    }
    assert(v.take(n as int) =~= v);
    res
}

impl Conversation {
    /// Opens the conversation screen over the chats loaded from storage, or
    /// reports why they could not be loaded. The screen starts by asking for the
    /// model server.
    pub fn new(loaded: Result<Vec<Chat>, String>) -> (res: Result<(Conversation, Message), ConversationError>)
        ensures
            match loaded {
                Ok(chats) => res matches Ok((c, m)) && c@ == opened(chats_view(chats@)) && m is Initialize
                    && m->Initialize_0 is Loading,
                Err(e) => res matches Err(ConversationError::Loading(r)) && r@ == e@,
            },
    {
        match loaded {
            Ok(chats) => {
                let c = Conversation {
                    server_started: false,
                    server_ready: false,
                    replying: Reply { content: String::new() },
                    chats,
                    needs_save: false,
                    dialog_delete_chat_open: false,
                    dialog_delete_chat: None,
                    current_chat_id: None,
                };
                Ok((c, Message::Initialize(Status::Loading)))
            },
            Err(e) => Err(ConversationError::Loading(e)),
        }
    }
}

} // verus!

verus! {

/// The first position with an identifier is the one that `find_chat` gives.
pub proof fn lemma_find_chat_is(chats: Seq<ChatView>, id: u128, i: int)
    requires
        is_first_with_id(chats, id, i),
    ensures
        find_chat(chats, id) == i,
{
    let k = choose|k: int| is_first_with_id(chats, id, k);
    assert(k == i) by {
        if k < i {
            assert(chats[k].id != id);
        } else if k > i {
            assert(chats[i].id != id);
        }
    }
}

/// A chat with the identifier at `k` means that `find_chat` finds one at or before `k`.
pub proof fn lemma_find_chat_found(chats: Seq<ChatView>, id: u128, k: int)
    requires
        0 <= k < chats.len(),
        chats[k].id == id,
    ensures
        0 <= find_chat(chats, id) <= k,
        is_first_with_id(chats, id, find_chat(chats, id)),
    decreases k,
{
    if exists|j: int| 0 <= j < k && chats[j].id == id {
        let j = choose|j: int| 0 <= j < k && chats[j].id == id;
        lemma_find_chat_found(chats, id, j);
    } else {
        assert(is_first_with_id(chats, id, k));
        lemma_find_chat_is(chats, id, k);
    }
}

/// An action that runs one effect.
fn run_one(e: Effect) -> (a: Action)
    ensures
        a@ == ActionView::Run(seq![e@]),
{
    let mut v: Vec<Effect> = Vec::new();
    v.push(e);
    let a = Action::Run(v);
    assert(v@.map_values(|e: Effect| e@) =~= seq![e@]);
    a
}

/// An action that runs two effects, in order.
fn run_two(e1: Effect, e2: Effect) -> (a: Action)
    ensures
        a@ == ActionView::Run(seq![e1@, e2@]),
{
    let mut v: Vec<Effect> = Vec::new();
    v.push(e1);
    v.push(e2);
    let a = Action::Run(v);
    assert(v@.map_values(|e: Effect| e@) =~= seq![e1@, e2@]);
    a
}

/// Replacing a chat by taking it out and putting another in its place.
proof fn lemma_replace_chat(before: Seq<Chat>, after: Seq<Chat>, i: int, c: Chat)
    requires
        0 <= i < before.len(),
        after == before.remove(i).insert(i, c),
    ensures
        chats_view(after) == chats_view(before).update(i, c@),
{
    assert(after =~= before.update(i, c));
    assert(chats_view(after) =~= chats_view(before).update(i, c@));
}

impl Conversation {
    /// Submits the text of the input field.
    fn submit(&mut self, text: String, fresh: u128) -> (action: Action)
        requires
            lengths_fit(old(self)@.chats),
            !is_blank_spec(text@) ==> match old(self)@.current_chat {
                Some(id) => find_chat(old(self)@.chats, id) >= 0,
                None => true,
            },
        ensures
            (final(self)@, action@) == submit_step(old(self)@, text@, fresh),
    {
        if is_blank(text.as_str()) {
            return Action::Nothing;
        }
        let ghost s = self@;
        let ghost t_text = text@;
        let cur: u128;
        match self.current_chat_id {
            Some(id) => {
                cur = id;
                match position(&self.chats, id) {
                    Some(idx) => {
                        let ghost before = self.chats@;
                        let mut chat = self.chats.remove(idx);
                        assert(chat@ == s.chats[idx as int]);
                        assert(chat.messages@.len() < usize::MAX);
                        let msg_id = chat.messages.len() + 1;
                        if chat.title.as_str().is_empty() {
                            chat.title = title_from(text.as_str());
                        }
                        let ghost msgs_before = chat.messages@;
                        chat.messages.push(
                            ChatMessage { id: msg_id, chat_id: id, content: text, is_reply: false },
                        );
                        assert(chat@.messages =~= s.chats[idx as int].messages.push(
                            MessageView { id: msg_id, chat_id: id, content: t_text, is_reply: false },
                        ));
                        assert(chat@ == with_user_message(s.chats[idx as int], id, t_text));
                        self.chats.insert(idx, chat);
                        proof {
                            lemma_replace_chat(before, self.chats@, idx as int, chat);
                        }
                    },
                    None => {},
                }
            },
            None => {
                cur = fresh;
                let title = title_from(text.as_str());
                let mut messages: Vec<ChatMessage> = Vec::new();
                messages.push(ChatMessage { id: 0, chat_id: fresh, content: text, is_reply: false });
                let chat = Chat { id: fresh, title, minor_text: String::new(), messages };
                assert(chat@.messages =~= seq![
                    MessageView { id: 0, chat_id: fresh, content: t_text, is_reply: false },
                ]);
                assert(chat@ == chat_begun_with(fresh, t_text));
                let ghost before = self.chats@;
                self.chats.push(chat);
                assert(chats_view(self.chats@) =~= chats_view(before).push(chat@));
                self.current_chat_id = Some(fresh);
            },
        }
        let ghost t = submitted(s, t_text, fresh);
        assert(self@ == t);
        proof {
            let v = chats_view(self.chats@);
            match s.current_chat {
                Some(id) => {
                    let i = find_chat(s.chats, id);
                    assert(is_first_with_id(v, id, i));
                    lemma_find_chat_is(v, id, i);
                },
                None => {
                    lemma_find_chat_found(v, fresh, v.len() - 1);
                },
            }
        }
        let idx2 = match position(&self.chats, cur) {
            Some(i) => i,
            None => {
                return Action::Nothing;
            },
        };
        let ctx = completion_context(&self.chats[idx2].messages);
        if self.server_started {
            run_two(Effect::ClearInput, Effect::StreamReply(ctx))
        } else {
            run_two(Effect::ClearInput, Effect::Fail(String::from_str("Server not initialized")))
        }
    }

    /// Adds the completed reply to the chat on screen.
    fn complete(&mut self) -> (action: Action)
        requires
            lengths_fit(old(self)@.chats),
        ensures
            (final(self)@, action@) == complete_step(old(self)@),
    {
        let ghost s = self@;
        match self.current_chat_id {
            Some(id) => match position(&self.chats, id) {
                Some(idx) => {
                    let ghost before = self.chats@;
                    let mut chat = self.chats.remove(idx);
                    assert(chat@ == s.chats[idx as int]);
                    assert(chat.messages@.len() < usize::MAX);
                    let msg_id = chat.messages.len() + 1;
                    let content = self.replying.content.clone();
                    self.replying.content = String::new();
                    chat.messages.push(
                        ChatMessage { id: msg_id, chat_id: id, content, is_reply: true },
                    );
                    assert(chat@.messages =~= s.chats[idx as int].messages.push(
                        MessageView { id: msg_id, chat_id: id, content: s.reply, is_reply: true },
                    ));
                    self.chats.insert(idx, chat);
                    proof {
                        lemma_replace_chat(before, self.chats@, idx as int, chat);
                    }
                },
                None => {},
            },
            None => {},
        }
        self.needs_save = true;
        run_one(Effect::Emit(Message::FocusInput))
    }

    /// The transition of the conversation screen, with `fresh` as the identifier
    /// of a chat that the event begins.
    pub fn update_with_id(&mut self, message: Message, fresh: u128) -> (action: Action)
        requires
            step_allowed(old(self)@, message),
        ensures
            (final(self)@, action@) == step(old(self)@, message, fresh),
    {
        match message {
            Message::Initialize(status) => match status {
                Status::Loading => run_one(Effect::StartServer),
                Status::Loaded => {
                    self.server_ready = true;
                    run_one(Effect::Emit(Message::FocusInput))
                },
                Status::Error(e) => Action::Error(e),
            },
            Message::ServerStarted(r) => match r {
                Ok(_) => {
                    self.server_started = true;
                    run_one(Effect::WaitUntilReady)
                },
                Err(e) => Action::Error(e),
            },
            Message::FocusInput => run_one(Effect::FocusInput),
            Message::Markdown(interaction) => match interaction {
                Interaction::Copy(text) => run_one(Effect::Copy(text)),
            },
            Message::NewChat => {
                self.current_chat_id = Some(fresh);
                run_one(Effect::SaveNewChat(fresh))
            },
            Message::NewChatSaved(id, saved) => {
                if saved {
                    let ghost before = self.chats@;
                    let chat = Chat::empty(id);
                    self.chats.push(chat);
                    assert(chats_view(self.chats@) =~= chats_view(before).push(empty_chat_view(id)));
                    run_one(Effect::Emit(Message::FocusInput))
                } else {
                    Action::Nothing
                }
            },
            Message::OpenChat(id) => {
                self.current_chat_id = Some(id);
                run_one(Effect::Emit(Message::FocusInput))
            },
            Message::DeleteChat(id) => match id {
                Some(id) => run_one(Effect::DeleteStoredChat(id)),
                None => Action::Nothing,
            },
            Message::ChatDeleted(id, deleted) => {
                if deleted {
                    self.chats = chats_without(&self.chats, id);
                    self.current_chat_id = None;
                    run_two(
                        Effect::Emit(Message::FocusInput),
                        Effect::Emit(Message::DialogCancelDeleteChat),
                    )
                } else {
                    Action::Nothing
                }
            },
            Message::DialogDeleteChat(id) => {
                self.dialog_delete_chat_open = true;
                self.dialog_delete_chat = Some(id);
                run_one(Effect::Emit(Message::FocusInput))
            },
            Message::DialogCancelDeleteChat => {
                self.dialog_delete_chat_open = false;
                self.dialog_delete_chat = None;
                run_one(Effect::Emit(Message::FocusInput))
            },
            Message::SubmitMessage(text) => self.submit(text, fresh),
            Message::ReplyMode(c) => match c {
                Chatting::Token(t) => {
                    self.replying.content.append(t.as_str());
                    run_one(Effect::Emit(Message::FocusInput))
                },
                Chatting::Complete => self.complete(),
                Chatting::Error(_) => Action::Nothing,
            },
            Message::AutoSave => {
                if self.needs_save {
                    self.needs_save = false;
                    run_one(Effect::SaveAllChats)
                } else {
                    Action::Nothing
                }
            },
        }
    }

    /// The transition of the conversation screen. An event that begins a chat
    /// draws its identifier, a random version-4 UUID; the others draw nothing.
    pub fn update(&mut self, message: Message) -> (action: Action)
        requires
            step_allowed(old(self)@, message),
        ensures
            !uses_fresh_id(old(self)@, message) ==> (final(self)@, action@) == step(
                old(self)@,
                message,
                0,
            ),
            exists|fresh: u128|
                fresh & v4_fixed_bits_mask() == v4_fixed_bits() && (final(self)@, action@) == step(
                    old(self)@,
                    message,
                    fresh,
                ),
    {
        let begins_chat = match &message {
            Message::NewChat => true,
            Message::SubmitMessage(text) => self.current_chat_id.is_none() && !is_blank(text.as_str()),
            _ => false,
        };
        if begins_chat {
            let fresh = random_uuid();
            self.update_with_id(message, fresh)
        } else {
            let action = self.update_with_id(message, 0);
            proof {
                let w: u128 = 0x40008000000000000000u128;
                assert(w & 0xF000C000000000000000u128 == 0x40008000000000000000u128) by (bit_vector)
                    requires
                        w == 0x40008000000000000000u128,
                ;
                lemma_step_ignores_fresh(old(self)@, message, 0, w);
            }
            action
        }
    }
}

/// An event that begins no chat does not depend on the identifier drawn for one.
pub proof fn lemma_step_ignores_fresh(s: ConversationView, m: Message, a: u128, b: u128)
    requires
        !uses_fresh_id(s, m),
    ensures
        step(s, m, a) == step(s, m, b),
{
}

} // verus!

verus! {

/// Tokens of a reply add up: after two tokens the reply is what it was,
/// followed by the first token, then the second.
pub proof fn law_tokens_accumulate(s: ConversationView, a: String, b: String, fresh: u128)
    ensures
        step(
            step(s, Message::ReplyMode(Chatting::Token(a)), fresh).0,
            Message::ReplyMode(Chatting::Token(b)),
            fresh,
        ).0.reply == s.reply + a@ + b@,
{
}

/// Completing a reply files it: the chat on screen ends with the reply as the
/// model's message, numbered one past the messages before it; the reply is
/// emptied, the other chats are untouched and the chats are marked to be stored.
pub proof fn law_complete_files_reply(s: ConversationView, fresh: u128)
    requires
        s.current_chat is Some,
        find_chat(s.chats, s.current_chat->0) >= 0,
    ensures
        ({
            let i = find_chat(s.chats, s.current_chat->0);
            let t = step(s, Message::ReplyMode(Chatting::Complete), fresh).0;
            &&& t.reply.len() == 0
            &&& t.needs_save
            &&& t.chats.len() == s.chats.len()
            &&& t.chats[i].messages == s.chats[i].messages.push(
                MessageView {
                    id: (s.chats[i].messages.len() + 1) as usize,
                    chat_id: s.current_chat->0,
                    content: s.reply,
                    is_reply: true,
                },
            )
            &&& forall|j: int| 0 <= j < s.chats.len() && j != i ==> t.chats[j] == s.chats[j]
        }),
{
}

/// Closing the delete dialog undoes opening it.
pub proof fn law_cancel_undoes_dialog(s: ConversationView, id: u128, fresh: u128)
    requires
        !s.dialog_open,
        s.dialog_chat is None,
    ensures
        step(step(s, Message::DialogDeleteChat(id), fresh).0, Message::DialogCancelDeleteChat, fresh).0
            == s,
{
}

/// Once a chat is deleted, no chat with its identifier is left, the others keep
/// their order, and no chat is on screen.
pub proof fn law_delete_removes_chat(s: ConversationView, id: u128, fresh: u128)
    ensures
        ({
            let t = step(s, Message::ChatDeleted(id, true), fresh).0;
            &&& t.chats == s.chats.filter(|c: ChatView| c.id != id)
            &&& forall|i: int| 0 <= i < t.chats.len() ==> t.chats[i].id != id
            &&& t.current_chat is None
        }),
{
    let t = step(s, Message::ChatDeleted(id, true), fresh).0;
    let pred = |c: ChatView| c.id != id;
    assert forall|i: int| 0 <= i < t.chats.len() implies t.chats[i].id != id by {
        s.chats.lemma_filter_pred(pred, i);
    }
}

/// Deleting a chat that storage could not delete changes nothing.
pub proof fn law_failed_delete_keeps_chats(s: ConversationView, id: u128, fresh: u128)
    ensures
        step(s, Message::ChatDeleted(id, false), fresh) == (s, ActionView::Nothing),
{
}

/// The chats are stored once per change: after an autosave another does nothing.
pub proof fn law_autosave_once(s: ConversationView, fresh: u128)
    ensures
        !step(s, Message::AutoSave, fresh).0.needs_save,
        step(step(s, Message::AutoSave, fresh).0, Message::AutoSave, fresh) == (
            step(s, Message::AutoSave, fresh).0,
            ActionView::Nothing,
        ),
{
}

/// A blank submission changes nothing and asks for nothing.
pub proof fn law_blank_submission(s: ConversationView, text: String, fresh: u128)
    requires
        is_blank_spec(text@),
    ensures
        step(s, Message::SubmitMessage(text), fresh) == (s, ActionView::Nothing),
{
}

/// Submitting to the chat on screen adds the text as the user's message,
/// numbered one past the messages before it; a chat without a title takes one
/// from the text; the other chats are untouched.
pub proof fn law_submission_joins_chat(s: ConversationView, text: String, fresh: u128)
    requires
        !is_blank_spec(text@),
        s.current_chat is Some,
        find_chat(s.chats, s.current_chat->0) >= 0,
    ensures
        ({
            let i = find_chat(s.chats, s.current_chat->0);
            let t = step(s, Message::SubmitMessage(text), fresh).0;
            &&& t.chats.len() == s.chats.len()
            &&& t.chats[i].messages == s.chats[i].messages.push(
                MessageView {
                    id: (s.chats[i].messages.len() + 1) as usize,
                    chat_id: s.current_chat->0,
                    content: text@,
                    is_reply: false,
                },
            )
            &&& t.chats[i].title == if s.chats[i].title.len() == 0 {
                title_of(text@)
            } else {
                s.chats[i].title
            }
            &&& forall|j: int| 0 <= j < s.chats.len() && j != i ==> t.chats[j] == s.chats[j]
            &&& t.current_chat == s.current_chat
        }),
{
}

/// Submitting with no chat on screen begins a chat with the drawn identifier,
/// titled from the text and holding the text as its message numbered 0, and
/// puts it on screen.
pub proof fn law_submission_begins_chat(s: ConversationView, text: String, fresh: u128)
    requires
        !is_blank_spec(text@),
        s.current_chat is None,
    ensures
        ({
            let t = step(s, Message::SubmitMessage(text), fresh).0;
            &&& t.chats == s.chats.push(chat_begun_with(fresh, text@))
            &&& t.current_chat == Some(fresh)
        }),
{
}

/// The model always sees the message just submitted: what it is asked to reply
/// to ends with that message. This holds unless a chat is begun with an
/// identifier that another chat already has.
pub proof fn law_model_sees_submission(s: ConversationView, text: String, fresh: u128)
    requires
        step_allowed(s, Message::SubmitMessage(text)),
        !is_blank_spec(text@),
        s.server_started,
        s.current_chat is None ==> forall|j: int| 0 <= j < s.chats.len() ==> s.chats[j].id != fresh,
    ensures
        ({
            let a = step(s, Message::SubmitMessage(text), fresh).1;
            &&& a is Run
            &&& a->Run_0.len() == 2
            &&& a->Run_0[0] is ClearInput
            &&& a->Run_0[1] is StreamReply
            &&& a->Run_0[1]->StreamReply_0.len() > 0
            &&& a->Run_0[1]->StreamReply_0.last() == (CompletionView { content: text@, is_reply: false })
        }),
{
    let t = submitted(s, text@, fresh);
    let id = t.current_chat->0;
    let i = find_chat(t.chats, id);
    match s.current_chat {
        Some(c) => {
            let k = find_chat(s.chats, c);
            assert(is_first_with_id(s.chats, c, k));
            assert(is_first_with_id(t.chats, c, k));
            lemma_find_chat_is(t.chats, c, k);
        },
        None => {
            let k = s.chats.len() as int;
            assert(is_first_with_id(t.chats, fresh, k));
            lemma_find_chat_is(t.chats, fresh, k);
        },
    }
    let ms = t.chats[i].messages;
    assert(ms.len() > 0);
    let ctx = context_of(ms);
    assert(ctx.len() > 0);
    assert(ctx.last() == completion_of(ms.last()));
}

} // verus!

verus! {

impl Conversation {
    /// Whether the transition can take this event: a submitted text goes to a
    /// chat that exists, and every chat has room for one more message.
    pub fn accepts(&self, message: &Message) -> (b: bool)
        ensures
            b == step_allowed(self@, *message),
    {
        let n = self.chats.len();
        let mut i: usize = 0;
        while i < n
            invariant
                n == self.chats@.len(),
                i <= n,
                forall|j: int| 0 <= j < i ==> #[trigger] self@.chats[j].messages.len() < usize::MAX,
            decreases n - i,
        {
            if self.chats[i].messages.len() == usize::MAX {
                assert(self@.chats[i as int].messages.len() == usize::MAX);
                return false;
            }
            i = i + 1;
        }
        match message {
            Message::SubmitMessage(text) => {
                if is_blank(text.as_str()) {
                    true
                } else {
                    match self.current_chat_id {
                        Some(id) => position(&self.chats, id).is_some(),
                        None => true,
                    }
                }
            },
            _ => true,
        }
    }

    /// The chats, oldest first.
    pub fn chats(&self) -> (c: &Vec<Chat>)
        ensures
            chats_view(c@) == self@.chats,
    {
        &self.chats
    }

    /// The chat on screen.
    pub fn current_chat_id(&self) -> (c: Option<u128>)
        ensures
            c == self@.current_chat,
    {
        self.current_chat_id
    }

    /// The reply written so far.
    pub fn reply(&self) -> (r: &str)
        ensures
            r@ == self@.reply,
    {
        self.replying.content.as_str()
    }

    /// Whether the model server answers.
    pub fn server_ready(&self) -> (b: bool)
        ensures
            b == self@.server_ready,
    {
        self.server_ready
    }

    /// Whether the delete dialog is open.
    pub fn dialog_open(&self) -> (b: bool)
        ensures
            b == self@.dialog_open,
    {
        self.dialog_delete_chat_open
    }

    /// The chat that the delete dialog asks about.
    pub fn dialog_chat(&self) -> (c: Option<u128>)
        ensures
            c == self@.dialog_chat,
    {
        self.dialog_delete_chat
    }
}

} // verus!

verus! {

/// Submitting before the server was started still files the message and clears
/// the input, then gives up the conversation with the missing server as its error.
pub proof fn law_submission_without_server(s: ConversationView, text: String, fresh: u128)
    requires
        !is_blank_spec(text@),
        !s.server_started,
    ensures
        step(s, Message::SubmitMessage(text), fresh) == (
            submitted(s, text@, fresh),
            ActionView::Run(seq![EffectView::ClearInput, EffectView::Fail(server_missing())]),
        ),
{
}

} // verus!

verus! {

/// Deleting asks storage to delete exactly the chat the event names, whatever
/// chat is on screen, and changes nothing yet.
pub proof fn law_delete_asks_for_the_named_chat(s: ConversationView, id: u128, fresh: u128)
    ensures
        step(s, Message::DeleteChat(Some(id)), fresh) == (
            s,
            ActionView::Run(seq![EffectView::DeleteStoredChat(id)]),
        ),
        step(s, Message::DeleteChat(None), fresh) == (s, ActionView::Nothing),
{
}

/// A stored new chat joins the list after every chat already there, which keep
/// their places: it has the saved identifier, no title and no messages.
pub proof fn law_saved_chat_is_appended(s: ConversationView, id: u128, fresh: u128)
    ensures
        ({
            let t = step(s, Message::NewChatSaved(id, true), fresh).0;
            &&& t.chats.len() == s.chats.len() + 1
            &&& forall|j: int| 0 <= j < s.chats.len() ==> t.chats[j] == s.chats[j]
            &&& t.chats[s.chats.len() as int].id == id
            &&& t.chats[s.chats.len() as int].title.len() == 0
            &&& t.chats[s.chats.len() as int].minor_text.len() == 0
            &&& t.chats[s.chats.len() as int].messages.len() == 0
            &&& t.current_chat == s.current_chat
        }),
        step(s, Message::NewChatSaved(id, false), fresh) == (s, ActionView::Nothing),
{
}

/// Beginning a new chat puts the drawn identifier on screen and asks storage to
/// store a chat under it; the list waits for the answer.
pub proof fn law_new_chat_asks_to_store(s: ConversationView, fresh: u128)
    ensures
        ({
            let (t, a) = step(s, Message::NewChat, fresh);
            &&& t.current_chat == Some(fresh)
            &&& t.chats == s.chats
            &&& a == ActionView::Run(seq![EffectView::SaveNewChat(fresh)])
        }),
{
}

/// Opening a chat puts exactly that chat on screen and changes nothing else.
pub proof fn law_open_chat(s: ConversationView, id: u128, fresh: u128)
    ensures
        step(s, Message::OpenChat(id), fresh).0.current_chat == Some(id),
        step(s, Message::OpenChat(id), fresh).0.chats == s.chats,
        step(s, Message::OpenChat(id), fresh).0.dialog_chat == s.dialog_chat,
        step(s, Message::OpenChat(id), fresh).0.reply == s.reply,
{
}

/// The delete dialog asks about exactly the chat whose icon was clicked, and
/// opening it leaves the chat on screen and the chats alone.
pub proof fn law_dialog_asks_about_the_clicked_chat(s: ConversationView, id: u128, fresh: u128)
    ensures
        step(s, Message::DialogDeleteChat(id), fresh).0.dialog_chat == Some(id),
        step(s, Message::DialogDeleteChat(id), fresh).0.dialog_open,
        step(s, Message::DialogDeleteChat(id), fresh).0.current_chat == s.current_chat,
        step(s, Message::DialogDeleteChat(id), fresh).0.chats == s.chats,
{
}

/// Copying from a message asks for exactly that text on the clipboard.
pub proof fn law_copy_copies_the_text(s: ConversationView, text: String, fresh: u128)
    ensures
        step(s, Message::Markdown(Interaction::Copy(text)), fresh) == (
            s,
            ActionView::Run(seq![EffectView::Copy(text@)]),
        ),
{
}

/// The server's start-up: asked to start, then marked started, then marked ready;
/// each failure is reported with its own text.
pub proof fn law_server_start_up(s: ConversationView, e: String, fresh: u128)
    ensures
        step(s, Message::Initialize(Status::Loading), fresh) == (
            s,
            ActionView::Run(seq![EffectView::StartServer]),
        ),
        step(s, Message::ServerStarted(Ok(())), fresh).0.server_started,
        step(s, Message::ServerStarted(Ok(())), fresh).1 == ActionView::Run(
            seq![EffectView::WaitUntilReady],
        ),
        step(s, Message::ServerStarted(Err(e)), fresh).1 == ActionView::Error(e@),
        step(s, Message::Initialize(Status::Loaded), fresh).0.server_ready,
        step(s, Message::Initialize(Status::Error(e)), fresh).1 == ActionView::Error(e@),
{
}

/// What the model is shown of a chat: one message when the chat has at most
/// four, else all but the first three; always its last messages, in order.
pub proof fn law_context_is_the_tail(ms: Seq<MessageView>)
    requires
        ms.len() > 0,
    ensures
        context_of(ms).len() == if ms.len() <= 4 { 1 } else { ms.len() - 3 },
        forall|k: int|
            0 <= k < context_of(ms).len() ==> #[trigger] context_of(ms)[k] == (CompletionView {
                content: ms[ms.len() - context_of(ms).len() + k].content,
                is_reply: ms[ms.len() - context_of(ms).len() + k].is_reply,
            }),
{
}

} // verus!

verus! {

/// The screen opens over the stored chats, unchanged and in order, with no
/// server, no reply, no dialog, no chat on screen and nothing to store.
pub proof fn law_opened_state(chats: Seq<ChatView>)
    ensures
        opened(chats).chats == chats,
        !opened(chats).server_started,
        !opened(chats).server_ready,
        opened(chats).reply.len() == 0,
        !opened(chats).needs_save,
        !opened(chats).dialog_open,
        opened(chats).dialog_chat is None,
        opened(chats).current_chat is None,
{
}

/// A chat begun by a submission carries the drawn identifier, is titled from the
/// text, and holds the text as its one message, numbered 0 and written by the user.
pub proof fn law_begun_chat(s: ConversationView, text: String, fresh: u128)
    requires
        !is_blank_spec(text@),
        s.current_chat is None,
    ensures
        ({
            let t = step(s, Message::SubmitMessage(text), fresh).0;
            let c = t.chats[s.chats.len() as int];
            &&& t.chats.len() == s.chats.len() + 1
            &&& forall|j: int| 0 <= j < s.chats.len() ==> t.chats[j] == s.chats[j]
            &&& c.id == fresh
            &&& c.title == title_of(text@)
            &&& c.messages.len() == 1
            &&& c.messages[0] == (MessageView { id: 0, chat_id: fresh, content: text@, is_reply: false })
            &&& t.current_chat == Some(fresh)
        }),
{
}

/// The reply's tokens touch nothing but the reply, and a failed reply changes nothing.
pub proof fn law_token_touches_only_the_reply(s: ConversationView, tok: String, e: String, fresh: u128)
    ensures
        ({
            let t = step(s, Message::ReplyMode(Chatting::Token(tok)), fresh).0;
            &&& t.reply == s.reply + tok@
            &&& t.chats == s.chats
            &&& t.current_chat == s.current_chat
            &&& t.needs_save == s.needs_save
        }),
        step(s, Message::ReplyMode(Chatting::Error(e)), fresh) == (s, ActionView::Nothing),
{
}

/// A completed reply with no chat on screen is not filed anywhere; the chats are
/// still marked to be stored.
pub proof fn law_complete_without_chat(s: ConversationView, fresh: u128)
    requires
        s.current_chat is None,
    ensures
        step(s, Message::ReplyMode(Chatting::Complete), fresh).0.chats == s.chats,
        step(s, Message::ReplyMode(Chatting::Complete), fresh).0.reply == s.reply,
        step(s, Message::ReplyMode(Chatting::Complete), fresh).0.needs_save,
{
}

/// An autosave with nothing changed asks for nothing; with changes it asks to
/// store every chat and leaves them as they are.
pub proof fn law_autosave_stores_changes(s: ConversationView, fresh: u128)
    ensures
        !s.needs_save ==> step(s, Message::AutoSave, fresh) == (s, ActionView::Nothing),
        s.needs_save ==> step(s, Message::AutoSave, fresh).1 == ActionView::Run(
            seq![EffectView::SaveAllChats],
        ),
        step(s, Message::AutoSave, fresh).0.chats == s.chats,
{
}

/// A chat deleted from storage leaves the list: the chats left are exactly the
/// others, in their order, none of them the deleted one.
pub proof fn law_deleted_chat_leaves_the_list(s: ConversationView, id: u128, fresh: u128)
    ensures
        ({
            let t = step(s, Message::ChatDeleted(id, true), fresh).0;
            &&& t.chats.len() <= s.chats.len()
            &&& forall|i: int| 0 <= i < t.chats.len() ==> t.chats[i].id != id
            &&& forall|i: int| 0 <= i < s.chats.len() && s.chats[i].id != id ==> t.chats.contains(s.chats[i])
            &&& (forall|i: int| 0 <= i < s.chats.len() ==> s.chats[i].id != id) ==> t.chats == s.chats
        }),
{
    let pred = |c: ChatView| c.id != id;
    let t = step(s, Message::ChatDeleted(id, true), fresh).0;
    s.chats.lemma_filter_len(pred);
    assert forall|i: int| 0 <= i < t.chats.len() implies t.chats[i].id != id by {
        s.chats.lemma_filter_pred(pred, i);
    }
    assert forall|i: int| 0 <= i < s.chats.len() && s.chats[i].id != id implies t.chats.contains(s.chats[i]) by {
        s.chats.lemma_filter_contains(pred, i);
    }
    if forall|i: int| 0 <= i < s.chats.len() ==> s.chats[i].id != id {
        lemma_filter_keeps_all(s.chats, id);
    }
}

/// Filtering out an identifier that no chat has keeps every chat.
proof fn lemma_filter_keeps_all(chats: Seq<ChatView>, id: u128)
    requires
        forall|i: int| 0 <= i < chats.len() ==> chats[i].id != id,
    ensures
        chats.filter(|c: ChatView| c.id != id) == chats,
    decreases chats.len(),
{
    reveal_with_fuel(Seq::filter, 1);
    if chats.len() > 0 {
        let d = chats.drop_last();
        assert forall|i: int| 0 <= i < d.len() implies d[i].id != id by {
            assert(d[i] == chats[i]);
        }
        lemma_filter_keeps_all(d, id);
        assert(d.push(chats.last()) =~= chats);
    } else {
        assert(chats.filter(|c: ChatView| c.id != id) =~= chats);
    }
}

} // verus!
