use vstd::prelude::*;
use crate::chat::{Chat, chats_view};
use crate::conversation::{self, Conversation, ConversationView, EffectView, opened, step, step_allowed};
use crate::ids::{v4_fixed_bits, v4_fixed_bits_mask};
use crate::loading::{self, Loading, ProgressView, loading_step};

verus! {

/// The screen on show.
pub enum Screen {
    Conversation(Conversation),
    Loading(Loading),
    Error(String),
}

/// The mathematical model of a `Screen`.
pub enum ScreenView {
    Conversation(ConversationView),
    Loading(ProgressView),
    Error(Seq<char>),
}

impl View for Screen {
    type V = ScreenView;

    open spec fn view(&self) -> ScreenView {
        match self {
            Screen::Conversation(c) => ScreenView::Conversation(c@),
            Screen::Loading(l) => ScreenView::Loading(l@),
            Screen::Error(e) => ScreenView::Error(e@),
        }
    }
}

/// The events of the application.
#[derive(Clone, Debug)]
pub enum Message {
    /// An event of the loading screen.
    Loading(loading::Message),
    /// An event of the conversation screen.
    Conversation(conversation::Message),
    /// The stored chats were loaded for the conversation screen, or why not; it
    /// opens in place of the loading screen.
    ConversationOpened(Result<Vec<Chat>, String>),
    /// The conversation gave up (`conversation::Effect::Fail`) with this error.
    Fail(String),
    /// An error screen was shown.
    Error,
}

/// Work that the application asks its host to perform.
pub enum Command {
    Nothing,
    /// Download the model, reporting with `Message::Loading`.
    Download,
    /// Load the stored chats, answering with `Message::ConversationOpened`.
    OpenConversation,
    /// Perform the conversation screen's effects, reporting with `Message::Conversation`.
    Conversation(Vec<conversation::Effect>),
    /// Hand this message back to the application.
    Emit(Message),
}

/// The mathematical model of a `Command`.
pub enum CommandView {
    Nothing,
    Download,
    OpenConversation,
    Conversation(Seq<EffectView>),
    Emit(Message),
}

impl View for Command {
    type V = CommandView;

    open spec fn view(&self) -> CommandView {
        match self {
            Command::Nothing => CommandView::Nothing,
            Command::Download => CommandView::Download,
            Command::OpenConversation => CommandView::OpenConversation,
            Command::Conversation(v) => CommandView::Conversation(
                v@.map_values(|e: conversation::Effect| e@),
            ),
            Command::Emit(m) => CommandView::Emit(*m),
        }
    }
}

/// The text of the error screen shown when the conversation could not be opened.
pub open spec fn open_failed() -> Seq<char> {
    "Error creating conversation struct"@
}

/// The transition of the application: from the screen on show and an event to
/// the next screen and the work to perform. `fresh` is the identifier drawn for
/// a chat that the event begins.
pub open spec fn app_step(s: ScreenView, m: Message, fresh: u128) -> (ScreenView, CommandView) {
    match m {
        Message::Loading(lm) => match s {
            ScreenView::Loading(p) => {
                let (q, a) = loading_step(p, lm);
                match a {
                    loading::ActionView::Nothing => (ScreenView::Loading(q), CommandView::Nothing),
                    loading::ActionView::Download => (ScreenView::Loading(q), CommandView::Download),
                    loading::ActionView::Continue => (
                        ScreenView::Loading(q),
                        CommandView::OpenConversation,
                    ),
                    loading::ActionView::Error(e) => (
                        ScreenView::Error(e),
                        CommandView::Emit(Message::Error),
                    ),
                }
            },
            _ => (s, CommandView::Nothing),
        },
        Message::ConversationOpened(r) => match s {
            ScreenView::Loading(_) => match r {
                Ok(chats) => (
                    ScreenView::Conversation(opened(chats_view(chats@))),
                    CommandView::Emit(
                        Message::Conversation(
                            conversation::Message::Initialize(conversation::Status::Loading),
                        ),
                    ),
                ),
                Err(_) => (ScreenView::Error(open_failed()), CommandView::Emit(Message::Error)),
            },
            _ => (s, CommandView::Nothing),
        },
        Message::Conversation(cm) => match s {
            ScreenView::Conversation(c) => {
                let (d, a) = step(c, cm, fresh);
                match a {
                    conversation::ActionView::Nothing => (
                        ScreenView::Conversation(d),
                        CommandView::Nothing,
                    ),
                    conversation::ActionView::Run(es) => (
                        ScreenView::Conversation(d),
                        CommandView::Conversation(es),
                    ),
                    conversation::ActionView::Error(e) => (
                        ScreenView::Error(e),
                        CommandView::Emit(Message::Error),
                    ),
                }
            },
            _ => (s, CommandView::Nothing),
        },
        Message::Fail(e) => match s {
            ScreenView::Conversation(_) => (ScreenView::Error(e@), CommandView::Emit(Message::Error)),
            _ => (s, CommandView::Nothing),
        },
        Message::Error => (s, CommandView::Nothing),
    }
}

/// What the transition needs: an event of the conversation screen meets that
/// screen's own condition.
pub open spec fn app_step_allowed(s: ScreenView, m: Message) -> bool {
    match (s, m) {
        (ScreenView::Conversation(c), Message::Conversation(cm)) => step_allowed(c, cm),
        _ => true,
    }
}

/// The event begins a chat on the conversation screen, and so draws an identifier for it.
pub open spec fn app_uses_fresh_id(s: ScreenView, m: Message) -> bool {
    match (s, m) {
        (ScreenView::Conversation(c), Message::Conversation(cm)) => conversation::uses_fresh_id(c, cm),
        _ => false,
    }
}

/// The application: the screen on show.
pub struct Convo {
    screen: Screen,
}

impl View for Convo {
    type V = ScreenView;

    closed spec fn view(&self) -> ScreenView {
        self.screen@
    }
}

impl Convo {
    /// The application starts on the loading screen, with the event that starts the download.
    pub fn new() -> (res: (Convo, Message))
        ensures
            res.0@ == ScreenView::Loading(ProgressView { downloaded: 0, total: 0 }),
            res.1 matches Message::Loading(m) && m is StartDownload,
    {
        let (loading, task) = Loading::new();
        (Convo { screen: Screen::Loading(loading) }, Message::Loading(task))
    }

    /// The title of the window.
    pub fn title(&self) -> (t: String)
        ensures
            t@ == "Convo"@,
    {
        String::from_str("Convo")
    }

    /// The screen on show.
    pub fn screen(&self) -> (s: &Screen)
        ensures
            s@ == self@,
    {
        &self.screen
    }

    /// The transition of the application. An event that begins a chat draws its
    /// identifier, a random version-4 UUID.
    pub fn update(&mut self, message: Message) -> (command: Command)
        requires
            app_step_allowed(old(self)@, message),
        ensures
            !app_uses_fresh_id(old(self)@, message) ==> (final(self)@, command@) == app_step(
                old(self)@,
                message,
                0,
            ),
            exists|fresh: u128|
                fresh & v4_fixed_bits_mask() == v4_fixed_bits() && (final(self)@, command@)
                    == app_step(old(self)@, message, fresh),
    {
        let mut screen = Screen::Error(String::new());
        std::mem::swap(&mut screen, &mut self.screen);
        let ghost s = screen@;
        let w: u128 = 0x40008000000000000000u128;
        assert(w & 0xF000C000000000000000u128 == 0x40008000000000000000u128) by (bit_vector)
            requires
                w == 0x40008000000000000000u128,
        ;
        let ghost mut witness: u128 = w;
        let command = match message {
            Message::Loading(lm) => match screen {
                Screen::Loading(mut l) => {
                    let a = l.update(lm);
                    match a {
                        loading::Action::Nothing => {
                            self.screen = Screen::Loading(l);
                            Command::Nothing
                        },
                        loading::Action::Download => {
                            self.screen = Screen::Loading(l);
                            Command::Download
                        },
                        loading::Action::Continue => {
                            self.screen = Screen::Loading(l);
                            Command::OpenConversation
                        },
                        loading::Action::Error(e) => {
                            self.screen = Screen::Error(e);
                            Command::Emit(Message::Error)
                        },
                    }
                },
                other => {
                    self.screen = other;
                    Command::Nothing
                },
            },
            Message::ConversationOpened(r) => match screen {
                Screen::Loading(_) => match Conversation::new(r) {
                    Ok((c, m)) => {
                        self.screen = Screen::Conversation(c);
                        Command::Emit(Message::Conversation(m))
                    },
                    Err(_) => {
                        self.screen = Screen::Error(
                            String::from_str("Error creating conversation struct"),
                        );
                        Command::Emit(Message::Error)
                    },
                },
                other => {
                    self.screen = other;
                    Command::Nothing
                },
            },
            Message::Conversation(cm) => match screen {
                Screen::Conversation(mut c) => {
                    let ghost c0 = c@;
                    let a = c.update(cm);
                    proof {
                        if !conversation::uses_fresh_id(c0, cm) {
                            conversation::lemma_step_ignores_fresh(c0, cm, 0, w);
                        }
                        witness = choose|fresh: u128|
                            fresh & v4_fixed_bits_mask() == v4_fixed_bits() && (c@, a@) == step(
                                c0,
                                cm,
                                fresh,
                            );
                    }
                    match a {
                        conversation::Action::Nothing => {
                            self.screen = Screen::Conversation(c);
                            Command::Nothing
                        },
                        conversation::Action::Run(es) => {
                            self.screen = Screen::Conversation(c);
                            Command::Conversation(es)
                        },
                        conversation::Action::Error(e) => {
                            self.screen = Screen::Error(e);
                            Command::Emit(Message::Error)
                        },
                    }
                },
                other => {
                    self.screen = other;
                    Command::Nothing
                },
            },
            Message::Fail(e) => match screen {
                Screen::Conversation(_) => {
                    self.screen = Screen::Error(e);
                    Command::Emit(Message::Error)
                },
                other => {
                    self.screen = other;
                    Command::Nothing
                },
            },
            Message::Error => {
                self.screen = screen;
                Command::Nothing
            },
        };
        assert((self@, command@) == app_step(s, message, witness));
        proof {
            if !app_uses_fresh_id(s, message) {
                lemma_app_step_ignores_fresh(s, message, witness, 0);
            }
        }
        command
    }
}

} // verus!

verus! {

/// An event that begins no chat does not depend on the identifier drawn for one.
pub proof fn lemma_app_step_ignores_fresh(s: ScreenView, m: Message, a: u128, b: u128)
    requires
        !app_uses_fresh_id(s, m),
    ensures
        app_step(s, m, a) == app_step(s, m, b),
{
    match (s, m) {
        (ScreenView::Conversation(c), Message::Conversation(cm)) => {
            conversation::lemma_step_ignores_fresh(c, cm, a, b);
        },
        _ => {},
    }
}

/// The error screen is final: no event leaves it, and none asks for work.
pub proof fn law_error_screen_is_final(e: Seq<char>, m: Message, fresh: u128)
    ensures
        app_step(ScreenView::Error(e), m, fresh) == (ScreenView::Error(e), CommandView::Nothing),
{
}

/// Events of one screen do nothing on another.
pub proof fn law_events_stay_on_their_screen(s: ScreenView, m: Message, fresh: u128)
    ensures
        (m is Loading && !(s is Loading)) || ((m is Conversation || m is Fail) && !(
        s is Conversation)) ==> app_step(s, m, fresh) == (s, CommandView::Nothing),
{
}

} // verus!

verus! {

impl Convo {
    /// Whether the transition can take this event.
    pub fn accepts(&self, message: &Message) -> (b: bool)
        ensures
            b == app_step_allowed(self@, *message),
    {
        match (&self.screen, message) {
            (Screen::Conversation(c), Message::Conversation(cm)) => c.accepts(cm),
            _ => true,
        }
    }
}

} // verus!

verus! {

/// The loading screen's outcomes: a finished download asks to open the
/// conversation and stays put until it opens; a failed one shows its error.
pub proof fn law_loading_outcomes(p: ProgressView, dir: String, e: String, fresh: u128)
    ensures
        app_step(
            ScreenView::Loading(p),
            Message::Loading(loading::Message::DownloadUpdate(loading::DownloadUpdate::Complete(Ok(dir)))),
            fresh,
        ).1 == CommandView::OpenConversation,
        app_step(
            ScreenView::Loading(p),
            Message::Loading(loading::Message::DownloadUpdate(loading::DownloadUpdate::Complete(Ok(dir)))),
            fresh,
        ).0 is Loading,
        app_step(
            ScreenView::Loading(p),
            Message::Loading(loading::Message::DownloadUpdate(loading::DownloadUpdate::Error(e))),
            fresh,
        ) == (ScreenView::Error(e@), CommandView::Emit(Message::Error)),
        app_step(ScreenView::Loading(p), Message::Loading(loading::Message::StartDownload), fresh).1
            == CommandView::Download,
{
}

/// Opening the conversation from the loading screen shows exactly the loaded
/// chats, in order, and asks the conversation to start the server; a load that
/// failed shows its own error text.
pub proof fn law_conversation_opens_over_loaded_chats(p: ProgressView, chats: Vec<Chat>, e: String, fresh: u128)
    ensures
        ({
            let (t, c) = app_step(ScreenView::Loading(p), Message::ConversationOpened(Ok(chats)), fresh);
            &&& t is Conversation
            &&& t->Conversation_0.chats == chats_view(chats@)
            &&& t->Conversation_0.current_chat is None
            &&& !t->Conversation_0.server_started
            &&& c == CommandView::Emit(
                Message::Conversation(conversation::Message::Initialize(conversation::Status::Loading)),
            )
        }),
        app_step(ScreenView::Loading(p), Message::ConversationOpened(Err(e)), fresh) == (
            ScreenView::Error(open_failed()),
            CommandView::Emit(Message::Error),
        ),
{
}

/// On the conversation screen, the conversation's own step decides: its state
/// becomes the screen's, its effects are passed on unchanged, its error becomes
/// the error screen; a failure the conversation gave up with is shown as is.
pub proof fn law_conversation_steps_pass_through(
    c: ConversationView,
    m: conversation::Message,
    e: String,
    fresh: u128,
)
    ensures
        ({
            let (d, a) = step(c, m, fresh);
            let (t, k) = app_step(ScreenView::Conversation(c), Message::Conversation(m), fresh);
            &&& a is Run ==> t == ScreenView::Conversation(d) && k == CommandView::Conversation(a->Run_0)
            &&& a is Nothing ==> t == ScreenView::Conversation(d) && k == CommandView::Nothing
            &&& a is Error ==> t == ScreenView::Error(a->Error_0) && k == CommandView::Emit(Message::Error)
        }),
        app_step(ScreenView::Conversation(c), Message::Fail(e), fresh) == (
            ScreenView::Error(e@),
            CommandView::Emit(Message::Error),
        ),
{
}

} // verus!
