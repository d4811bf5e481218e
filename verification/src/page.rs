use vstd::prelude::*;
use crate::chat::ChatView;
use crate::conversation::{Conversation, ConversationView, find_chat};

verus! {

/// A row of the chat list: which chat, and whether it is the one on screen.
pub struct ChatEntry {
    pub index: usize,
    pub selected: bool,
}

/// A message bubble: which message of the chat on screen, and whether it is
/// set against the right edge (the user's messages are).
pub struct Bubble {
    pub index: usize,
    pub right_aligned: bool,
}

/// What the conversation area shows.
pub enum Body {
    /// No chat is on screen: invite the user to type.
    NoChat,
    /// The chat on screen is not among the chats: invite the user to pick one.
    ChatNotFound,
    /// The messages of the chat at `chat`, then the reply being written when
    /// `show_reply` holds.
    Messages { chat: usize, bubbles: Vec<Bubble>, show_reply: bool },
}

/// What the conversation screen shows.
pub enum Page {
    /// The server is not ready yet: the title page.
    Splash,
    /// The chat list (newest first), the conversation area, and the delete
    /// dialog, whose Delete button deletes `delete`.
    Main { entries: Vec<ChatEntry>, body: Body, dialog_open: bool, delete: Option<u128> },
}

/// The mathematical model of a `Body`.
pub enum BodyView {
    NoChat,
    ChatNotFound,
    Messages { chat: int, bubbles: Seq<(int, bool)>, show_reply: bool },
}

/// The mathematical model of a `Page`.
pub enum PageView {
    Splash,
    Main { entries: Seq<(int, bool)>, body: BodyView, dialog_open: bool, delete: Option<u128> },
}

impl View for Body {
    type V = BodyView;

    open spec fn view(&self) -> BodyView {
        match self {
            Body::NoChat => BodyView::NoChat,
            Body::ChatNotFound => BodyView::ChatNotFound,
            Body::Messages { chat, bubbles, show_reply } => BodyView::Messages {
                chat: *chat as int,
                bubbles: bubbles@.map_values(|b: Bubble| (b.index as int, b.right_aligned)),
                show_reply: *show_reply,
            },
        }
    }
}

impl View for Page {
    type V = PageView;

    open spec fn view(&self) -> PageView {
        match self {
            Page::Splash => PageView::Splash,
            Page::Main { entries, body, dialog_open, delete } => PageView::Main {
                entries: entries@.map_values(|e: ChatEntry| (e.index as int, e.selected)),
                body: body@,
                dialog_open: *dialog_open,
                delete: *delete,
            },
        }
    }
}

/// The chat list: every chat, newest first, each marked when it is on screen.
pub open spec fn entries_of(chats: Seq<ChatView>, current: Option<u128>) -> Seq<(int, bool)> {
    Seq::new(
        chats.len(),
        |k: int| (chats.len() - 1 - k, current == Some(chats[chats.len() - 1 - k].id)),
    )
}

/// The bubbles of a chat: every message in order, the user's against the right edge.
pub open spec fn bubbles_of(c: ChatView) -> Seq<(int, bool)> {
    Seq::new(c.messages.len(), |i: int| (i, !c.messages[i].is_reply))
}

/// The conversation area: the first chat with the identifier on screen, with the
/// reply shown when it is not empty.
pub open spec fn body_of(s: ConversationView) -> BodyView {
    match s.current_chat {
        None => BodyView::NoChat,
        Some(id) => {
            let i = find_chat(s.chats, id);
            if i < 0 {
                BodyView::ChatNotFound
            } else {
                BodyView::Messages {
                    chat: i,
                    bubbles: bubbles_of(s.chats[i]),
                    show_reply: s.reply.len() > 0,
                }
            }
        },
    }
}

/// What the conversation screen shows in a state.
pub open spec fn page_of(s: ConversationView) -> PageView {
    if !s.server_ready {
        PageView::Splash
    } else {
        PageView::Main {
            entries: entries_of(s.chats, s.current_chat),
            body: body_of(s),
            dialog_open: s.dialog_open,
            delete: s.dialog_chat,
        }
    }
}

impl Conversation {
    /// What the screen shows.
    pub fn page(&self) -> (p: Page)
        ensures
            p@ == page_of(self@),
    {
        if !self.server_ready() {
            return Page::Splash;
        }
        let chats = self.chats();
        let current = self.current_chat_id();
        let ghost cv = self@.chats;
        let n = chats.len();
        let mut entries: Vec<ChatEntry> = Vec::new();
        let mut k: usize = 0;
        while k < n
            invariant
                n == cv.len(),
                cv == self@.chats,
                current == self@.current_chat,
                chats@.len() == n,
                forall|j: int| 0 <= j < n ==> #[trigger] chats@[j].id == cv[j].id,
                k <= n,
                entries@.map_values(|e: ChatEntry| (e.index as int, e.selected)) =~= entries_of(
                    cv,
                    current,
                ).take(k as int),
            decreases n - k,
        {
            let index = n - 1 - k;
            let selected = match current {
                Some(id) => chats[index].id == id,
                None => false,
            };
            let ghost before = entries@;
            entries.push(ChatEntry { index, selected });
            assert(entries@.map_values(|e: ChatEntry| (e.index as int, e.selected)) =~= before.map_values(
                |e: ChatEntry| (e.index as int, e.selected),
            ).push((index as int, selected)));
            assert(entries_of(cv, current).take(k + 1) =~= entries_of(cv, current).take(k as int).push(
                entries_of(cv, current)[k as int],
            ));
            k = k + 1;
        }
        assert(entries_of(cv, current).take(n as int) =~= entries_of(cv, current));
        let body = match current {
            None => Body::NoChat,
            Some(id) => {
                let mut found: Option<usize> = None;
                let mut i: usize = 0;
                while i < n
                    invariant
                        n == cv.len(),
                        chats@.len() == n,
                        forall|j: int| 0 <= j < n ==> #[trigger] chats@[j].id == cv[j].id,
                        i <= n,
                        forall|j: int| 0 <= j < i ==> cv[j].id != id,
                    ensures
                        i <= n,
                        forall|j: int| 0 <= j < i ==> cv[j].id != id,
                        i < n ==> cv[i as int].id == id,
                    decreases n - i,
                {
                    if chats[i].id == id {
                        break;
                    }
                    i = i + 1;
                }
                if i < n {
                    proof {
                        assert(crate::conversation::is_first_with_id(cv, id, i as int));
                        crate::conversation::lemma_find_chat_is(cv, id, i as int);
                    }
                    let chat = &chats[i];
                    let m = chat.messages.len();
                    let ghost c = cv[i as int];
                    assert(c.messages.len() == m);
                    let mut bubbles: Vec<Bubble> = Vec::new();
                    let mut j: usize = 0;
                    while j < m
                        invariant
                            m == c.messages.len(),
                            chat.messages@.len() == m,
                            forall|q: int| 0 <= q < m ==> #[trigger] chat.messages@[q].is_reply == c.messages[q].is_reply,
                            j <= m,
                            bubbles@.map_values(|b: Bubble| (b.index as int, b.right_aligned)) =~= bubbles_of(c).take(j as int),
                        decreases m - j,
                    {
                        let ghost before = bubbles@;
                        bubbles.push(Bubble { index: j, right_aligned: !chat.messages[j].is_reply });
                        assert(bubbles@.map_values(|b: Bubble| (b.index as int, b.right_aligned))
                            =~= before.map_values(|b: Bubble| (b.index as int, b.right_aligned)).push(
                            (j as int, !c.messages[j as int].is_reply),
                        ));
                        assert(bubbles_of(c).take(j + 1) =~= bubbles_of(c).take(j as int).push(
                            bubbles_of(c)[j as int],
                        ));
                        j = j + 1;
                    }
                    assert(bubbles_of(c).take(m as int) =~= bubbles_of(c));
                    let show_reply = !self.reply().is_empty();
                    Body::Messages { chat: i, bubbles, show_reply }
                } else {
                    proof {
                        if exists|k: int| crate::conversation::is_first_with_id(cv, id, k) {
                            let k = choose|k: int| crate::conversation::is_first_with_id(cv, id, k);
                            assert(cv[k].id != id);
                        }
                    }
                    Body::ChatNotFound
                }
            },
        };
        Page::Main {
            entries,
            body,
            dialog_open: self.dialog_open(),
            delete: self.dialog_chat(),
        }
    }
}

} // verus!

verus! {

/// The chat list holds every chat once, in reverse order (newest first), and
/// marks exactly the rows of the chat on screen.
pub proof fn law_chat_list_is_newest_first(chats: Seq<ChatView>, current: Option<u128>)
    ensures
        entries_of(chats, current).len() == chats.len(),
        forall|k: int|
            0 <= k < chats.len() ==> (#[trigger] entries_of(chats, current)[k]).0 == chats.len() - 1 - k,
        forall|k: int|
            0 <= k < chats.len() ==> (#[trigger] entries_of(chats, current)[k]).1 == (current == Some(
                chats[chats.len() - 1 - k].id,
            )),
{
}

/// The bubbles are every message of the chat in order, the user's set against
/// the right edge and the model's not.
pub proof fn law_bubbles_follow_messages(c: ChatView)
    ensures
        bubbles_of(c).len() == c.messages.len(),
        forall|i: int|
            0 <= i < c.messages.len() ==> #[trigger] bubbles_of(c)[i] == (i, !c.messages[i].is_reply),
{
}

} // verus!

verus! {

/// What the page shows: the title page exactly while the server is not ready;
/// otherwise the list, the dialog as the state has it, and in the conversation
/// area nothing when no chat is on screen, the first chat with the identifier on
/// screen when there is one (with the reply exactly when it is not empty), and
/// an invitation to choose when there is none.
pub proof fn law_page_shows_the_chat_on_screen(s: ConversationView)
    ensures
        !s.server_ready <==> page_of(s) is Splash,
        s.server_ready ==> page_of(s)->Main_dialog_open == s.dialog_open && page_of(s)->Main_delete
            == s.dialog_chat,
        s.server_ready && s.current_chat is None ==> page_of(s)->Main_body is NoChat,
        s.server_ready && s.current_chat is Some ==> ({
            let id = s.current_chat->0;
            let b = page_of(s)->Main_body;
            &&& (forall|j: int| 0 <= j < s.chats.len() ==> s.chats[j].id != id) <==> b is ChatNotFound
            &&& b is Messages ==> {
                let i = b->Messages_chat;
                &&& 0 <= i < s.chats.len()
                &&& s.chats[i].id == id
                &&& forall|j: int| 0 <= j < i ==> s.chats[j].id != id
                &&& b->Messages_show_reply == (s.reply.len() > 0)
                &&& b->Messages_bubbles == bubbles_of(s.chats[i])
            }
        }),
{
    if s.server_ready && s.current_chat is Some {
        let id = s.current_chat->0;
        if exists|k: int| crate::conversation::is_first_with_id(s.chats, id, k) {
            let k = choose|k: int| crate::conversation::is_first_with_id(s.chats, id, k);
            assert(s.chats[k].id == id);
        } else {
            assert forall|j: int| 0 <= j < s.chats.len() implies s.chats[j].id != id by {
                if s.chats[j].id == id {
                    crate::conversation::lemma_find_chat_found(s.chats, id, j);
                }
            }
        }
    }
}

} // verus!
