use vstd::prelude::*;
use crate::chat::{CompletionMessage, CompletionView, completions_view};
use crate::text::{char_is_whitespace, is_white_space};

verus! {

/// Why the model server could not be used.
#[derive(Debug)]
pub enum LlmError {
    /// The server could not be started or did not become ready.
    LoadError(String),
    /// The server failed while writing a reply.
    GenerationError(String),
}

/// One step of a reply that the model streams.
#[derive(Clone, Debug, PartialEq)]
pub enum Chatting {
    /// A piece of the reply.
    Token(String),
    /// The reply is complete.
    Complete,
    /// The reply failed.
    Error(String),
}

/// Who speaks in a message shown to the model.
#[derive(PartialEq, Eq, Structural, Clone, Copy)]
pub enum Role {
    System,
    User,
    Assistant,
}

/// A message of the prompt sent to the model.
pub struct PromptMessage {
    pub role: Role,
    pub content: String,
}

/// The mathematical model of a `PromptMessage`.
pub struct PromptView {
    pub role: Role,
    pub content: Seq<char>,
}

impl View for PromptMessage {
    type V = PromptView;

    open spec fn view(&self) -> PromptView {
        PromptView { role: self.role, content: self.content@ }
    }
}

/// The models of a sequence of prompt messages.
pub open spec fn prompts_view(messages: Seq<PromptMessage>) -> Seq<PromptView> {
    messages.map_values(|m: PromptMessage| m@)
}

/// The instruction that opens every prompt.
pub open spec fn system_prompt() -> Seq<char> {
    "You are a helpful assistant."@
}

/// A chat message as the model sees it: replies are the assistant's, the rest the user's.
pub open spec fn prompt_of(m: CompletionView) -> PromptView {
    PromptView { role: if m.is_reply { Role::Assistant } else { Role::User }, content: m.content }
}

/// The prompt for a conversation: the system instruction, then every message in order.
pub open spec fn prompt_for(messages: Seq<CompletionView>) -> Seq<PromptView> {
    seq![PromptView { role: Role::System, content: system_prompt() }] + messages.map_values(
        |m: CompletionView| prompt_of(m),
    )
}

/// Builds the prompt for a conversation, as the model server is sent it.
pub fn prompt_messages(messages: &Vec<CompletionMessage>) -> (prompt: Vec<PromptMessage>)
    ensures
        prompts_view(prompt@) == prompt_for(completions_view(messages@)),
{
    let mut prompt: Vec<PromptMessage> = Vec::new();
    prompt.push(
        PromptMessage { role: Role::System, content: String::from_str("You are a helpful assistant.") },
    );
    let n = messages.len();
    let mut i: usize = 0;
    while i < n
        invariant
            n == messages@.len(),
            i <= n,
            prompts_view(prompt@) =~= prompt_for(completions_view(messages@.take(i as int))),
        decreases n - i,
    {
        let m = &messages[i];
        let role = if m.is_reply { Role::Assistant } else { Role::User };
        let ghost before = prompt@;
        prompt.push(PromptMessage { role, content: m.content.clone() });
        assert(prompts_view(prompt@) =~= prompts_view(before).push(prompt_of(m@)));
        assert(messages@.take(i as int + 1) =~= messages@.take(i as int).push(messages@[i as int]));
        assert(completions_view(messages@.take(i as int + 1)) =~= completions_view(
            messages@.take(i as int),
        ).push(m@));
        i = i + 1;
    }
    assert(messages@.take(n as int) =~= messages@);
    prompt
}

/// One item of the stream that the model server answers with: a delta that may
/// carry text, or a failure with its message.
pub enum StreamItem {
    Delta(Option<String>),
    Failed(String),
}

/// What a stream item hands on to the reply: the delta's text, the failure's
/// message, or nothing for a delta without text.
pub fn token_of(item: StreamItem) -> (token: Option<String>)
    ensures
        match item {
            StreamItem::Delta(Some(t)) => token matches Some(r) && r@ == t@,
            StreamItem::Delta(None) => token is None,
            StreamItem::Failed(e) => token matches Some(r) && r@ == e@,
        },
{
    match item {
        StreamItem::Delta(d) => d,
        StreamItem::Failed(e) => Some(e),
    }
}

} // verus!

verus! {

/// What one look at the starting model server found.
pub enum Probe {
    /// The server process could not be asked for its state.
    ProcessUnknown(String),
    /// The server process exited, with this status.
    ProcessExited(String),
    /// The server process still runs.
    ProcessRunning,
    /// The health endpoint answered with success (`true`) or did not (`false`).
    Health(bool),
}

/// What to do next while waiting for the server.
pub enum Wait {
    /// Ask the health endpoint.
    CheckHealth,
    /// The server is ready.
    Ready,
    /// Wait a second, then look at the process again.
    Sleep,
    /// Give up.
    Fail(LlmError),
}

/// The text of the failure when the server process exits while starting.
pub open spec fn exited_text(status: Seq<char>) -> Seq<char> {
    "llama-server exited unexpectedly: "@ + status
}

/// The decision after each look at the starting server: a process that cannot
/// be asked about or that exited is a load failure; a running one is asked for
/// its health; a healthy one is ready; otherwise wait and look again.
pub fn next_wait(probe: Probe) -> (w: Wait)
    ensures
        match probe {
            Probe::ProcessUnknown(e) => w matches Wait::Fail(LlmError::LoadError(t)) && t@ == e@,
            Probe::ProcessExited(s) => w matches Wait::Fail(LlmError::LoadError(t)) && t@
                == exited_text(s@),
            Probe::ProcessRunning => w is CheckHealth,
            Probe::Health(ok) => if ok {
                w is Ready
            } else {
                w is Sleep
            },
        },
{
    match probe {
        Probe::ProcessUnknown(e) => Wait::Fail(LlmError::LoadError(e)),
        Probe::ProcessExited(s) => Wait::Fail(
            LlmError::LoadError(String::from_str("llama-server exited unexpectedly: ").concat(s.as_str())),
        ),
        Probe::ProcessRunning => Wait::CheckHealth,
        Probe::Health(ok) => if ok {
            Wait::Ready
        } else {
            Wait::Sleep
        },
    }
}

} // verus!

verus! {

/// The port the model server listens on.
pub const PORT: usize = 8081;

/// The address the model server listens on.
pub const HOST: &'static str = "127.0.0.1";

/// The character of a decimal digit.
pub open spec fn digit_char(d: nat) -> char {
    (48 + d) as char
}

/// The decimal writing of a number, as `Display` prints an unsigned integer.
pub open spec fn decimal(n: nat) -> Seq<char>
    decreases n,
{
    if n < 10 {
        seq![digit_char(n)]
    } else {
        decimal(n / 10).push(digit_char(n % 10))
    }
}

/// `usize::to_string`. Trusted: std documents that `Display` writes an unsigned
/// integer in decimal, with no sign and no leading zeros, which `decimal` spells out.
#[verifier::external_body]
fn decimal_text(n: usize) -> (t: String)
    ensures
        t@ == decimal(n as nat),
{
    n.to_string()
}

/// The whitespace-separated words of a text, in order, as `str::split_whitespace`
/// gives them: the maximal runs of characters that are not white space.
pub open spec fn words(s: Seq<char>) -> Seq<Seq<char>>
    decreases s.len(),
{
    if s.len() == 0 {
        Seq::empty()
    } else if is_white_space(s.last()) {
        words(s.drop_last())
    } else {
        let w = words(s.drop_last());
        if s.len() >= 2 && !is_white_space(s[s.len() - 2]) {
            w.update(w.len() - 1, w.last().push(s.last()))
        } else {
            w.push(seq![s.last()])
        }
    }
}

/// The models of a sequence of strings.
pub open spec fn strings_view(v: Seq<String>) -> Seq<Seq<char>> {
    v.map_values(|t: String| t@)
}

/// The words of a text still open at position `i`: when the character before `i`
/// is not white space, the run that ends there is the last word found so far.
proof fn lemma_words_open_run(s: Seq<char>, i: int)
    requires
        0 < i <= s.len(),
        !is_white_space(s[i - 1]),
    ensures
        words(s.take(i)).len() > 0,
    decreases i,
{
    let t = s.take(i);
    assert(t.last() == s[i - 1]);
    assert(t.drop_last() =~= s.take(i - 1));
    if i >= 2 && !is_white_space(s[i - 2]) {
        lemma_words_open_run(s, i - 1);
    }
}

/// Splits a text into its whitespace-separated words, as `str::split_whitespace` does.
pub fn split_words(text: &str) -> (ws: Vec<String>)
    ensures
        strings_view(ws@) == words(text@),
{
    let n = text.unicode_len();
    let ghost s = text@;
    let mut ws: Vec<String> = Vec::new();
    let mut start: Option<usize> = None;
    let mut i: usize = 0;
    while i < n
        invariant
            n == s.len(),
            s == text@,
            i <= n,
            start is Some <==> (i > 0 && !is_white_space(s[i - 1])),
            match start {
                Some(st) => {
                    &&& st < i
                    &&& (st == 0 || is_white_space(s[st - 1]))
                    &&& words(s.take(i as int)) == strings_view(ws@).push(s.subrange(st as int, i as int))
                },
                None => words(s.take(i as int)) == strings_view(ws@),
            },
        decreases n - i,
    {
        let c = text.get_char(i);
        let ghost t = s.take(i + 1);
        assert(t.drop_last() =~= s.take(i as int));
        assert(t.last() == c);
        let ghost before = ws@;
        if char_is_whitespace(c) {
            match start {
                Some(st) => {
                    ws.push(String::from_str(text.substring_char(st, i)));
                    assert(strings_view(ws@) =~= strings_view(before).push(s.subrange(st as int, i as int)));
                },
                None => {},
            }
            start = None;
        } else {
            match start {
                Some(st) => {
                    assert(i >= 1);
                    assert(t[t.len() - 2] == s[i - 1]);
                    assert(s.subrange(st as int, i + 1) =~= s.subrange(st as int, i as int).push(c));
                    let ghost w = words(s.take(i as int));
                    assert(words(t) == w.update(w.len() - 1, w.last().push(c)));
                    assert(words(t) =~= strings_view(ws@).push(s.subrange(st as int, i + 1)));
                },
                None => {
                    if i >= 1 {
                        assert(t[t.len() - 2] == s[i - 1]);
                    }
                    assert(s.subrange(i as int, i + 1) =~= seq![c]);
                    start = Some(i);
                },
            }
        }
        i = i + 1;
    }
    assert(s.take(n as int) =~= s);
    match start {
        Some(st) => {
            let ghost b = ws@;
            ws.push(String::from_str(text.substring_char(st, n)));
            assert(strings_view(ws@) =~= strings_view(b).push(s.subrange(st as int, n as int)));
        },
        None => {},
    }
    ws
}

/// The command line of the model server: `-hf <repo> --host <HOST> --port <PORT>`.
pub open spec fn server_command(model_repo: Seq<char>) -> Seq<char> {
    "-hf "@ + model_repo + " --host "@ + HOST@ + " --port "@ + decimal(PORT as nat)
}

/// The arguments the model server is started with: the words of its command line.
pub fn server_args(model_repo: &str) -> (args: Vec<String>)
    ensures
        strings_view(args@) == words(server_command(model_repo@)),
{
    let line = String::from_str("-hf ")
        .concat(model_repo)
        .concat(" --host ")
        .concat(HOST)
        .concat(" --port ")
        .concat(decimal_text(PORT).as_str());
    split_words(line.as_str())
}

/// The address of the model server's API: `http://<HOST>:<PORT>`.
pub open spec fn api_base_spec() -> Seq<char> {
    "http://"@ + HOST@ + ":"@ + decimal(PORT as nat)
}

/// The address of the model server's API.
pub fn api_base() -> (base: String)
    ensures
        base@ == api_base_spec(),
{
    String::from_str("http://").concat(HOST).concat(":").concat(decimal_text(PORT).as_str())
}

} // verus!

verus! {

/// The prompt opens with the system instruction, then has one message per chat
/// message, in order, each with that message's text and spoken by the assistant
/// exactly when the message is a reply.
pub proof fn law_prompt_roles_follow_replies(messages: Seq<CompletionView>)
    ensures
        prompt_for(messages).len() == messages.len() + 1,
        prompt_for(messages)[0] == (PromptView { role: Role::System, content: "You are a helpful assistant."@ }),
        forall|i: int|
            0 <= i < messages.len() ==> #[trigger] prompt_for(messages)[i + 1] == (PromptView {
                role: if messages[i].is_reply { Role::Assistant } else { Role::User },
                content: messages[i].content,
            }),
{
}

} // verus!

verus! {

/// A non-empty text with no white space is one word: itself.
pub proof fn law_single_word(s: Seq<char>)
    requires
        s.len() > 0,
        forall|i: int| 0 <= i < s.len() ==> !is_white_space(#[trigger] s[i]),
    ensures
        words(s) == seq![s],
    decreases s.len(),
{
    assert(!is_white_space(s[s.len() - 1]));
    if s.len() == 1 {
        assert(s.drop_last() =~= Seq::<char>::empty());
        assert(words(s.drop_last()) =~= Seq::<Seq<char>>::empty());
        assert(seq![s.last()] =~= s);
        assert(Seq::<Seq<char>>::empty().push(seq![s.last()]) =~= seq![s]);
    } else {
        let d = s.drop_last();
        assert forall|i: int| 0 <= i < d.len() implies !is_white_space(#[trigger] d[i]) by {
            assert(d[i] == s[i]);
        }
        law_single_word(d);
        assert(!is_white_space(s[s.len() - 2]));
        assert(d.push(s.last()) =~= s);
        assert(seq![d].update(0, d.push(s.last())) =~= seq![s]);
    }
}

/// A white-space character separates words: the words of `a`, a white space,
/// then `b` are the words of `a` followed by the words of `b`.
pub proof fn law_words_split_at_white_space(a: Seq<char>, c: char, b: Seq<char>)
    requires
        is_white_space(c),
    ensures
        words(a + seq![c] + b) == words(a) + words(b),
    decreases b.len(),
{
    let x = a + seq![c] + b;
    if b.len() == 0 {
        assert(x.drop_last() =~= a);
        assert(words(a) + words(b) =~= words(a));
    } else {
        let bd = b.drop_last();
        assert(x.drop_last() =~= a + seq![c] + bd);
        assert(x.last() == b.last());
        law_words_split_at_white_space(a, c, bd);
        if is_white_space(b.last()) {
        } else if b.len() == 1 {
            assert(x[x.len() - 2] == c);
            assert(bd =~= Seq::<char>::empty());
            assert(words(a) + words(bd) =~= words(a));
            assert(words(a).push(seq![b.last()]) =~= words(a) + words(b));
        } else {
            assert(x[x.len() - 2] == b[b.len() - 2]);
            if !is_white_space(b[b.len() - 2]) {
                lemma_words_open_run(b, b.len() - 1);
                assert(b.take(b.len() - 1) =~= bd);
                let wa = words(a);
                let wb = words(bd);
                let w = wa + wb;
                assert(w.update(w.len() - 1, w.last().push(b.last())) =~= wa + wb.update(
                    wb.len() - 1,
                    wb.last().push(b.last()),
                ));
            } else {
                assert(words(a) + words(bd).push(seq![b.last()]) =~= (words(a) + words(bd)).push(
                    seq![b.last()],
                ));
            }
        }
    }
}

/// The server is started with six arguments, `-hf`, the repository, `--host`,
/// the host, `--port` and the port, whenever the repository is one word.
pub proof fn law_server_args_are_six_words(model_repo: Seq<char>)
    requires
        model_repo.len() > 0,
        forall|i: int| 0 <= i < model_repo.len() ==> !is_white_space(#[trigger] model_repo[i]),
    ensures
        words(server_command(model_repo)) == seq![
            "-hf"@,
            model_repo,
            "--host"@,
            "127.0.0.1"@,
            "--port"@,
            "8081"@,
        ],
{
    reveal_strlit("-hf ");
    reveal_strlit(" --host ");
    reveal_strlit(" --port ");
    reveal_strlit("127.0.0.1");
    reveal_strlit("-hf");
    reveal_strlit("--host");
    reveal_strlit("--port");
    reveal_strlit("8081");
    let hf = "-hf"@;
    let host_flag = "--host"@;
    let port_flag = "--port"@;
    let host = "127.0.0.1"@;
    let port = "8081"@;
    assert(decimal(PORT as nat) =~= port) by {
        reveal_with_fuel(decimal, 5);
        assert(digit_char(8) == '8');
        assert(digit_char(0) == '0');
        assert(digit_char(1) == '1');
    }
    let sp = ' ';
    assert(is_white_space(sp));
    let t5 = port;
    let t4 = port_flag + seq![sp] + t5;
    let t3 = host + seq![sp] + t4;
    let t2 = host_flag + seq![sp] + t3;
    let t1 = model_repo + seq![sp] + t2;
    let t0 = hf + seq![sp] + t1;
    assert(server_command(model_repo) =~= t0);
    law_single_word(hf);
    law_single_word(model_repo);
    law_single_word(host_flag);
    law_single_word(host);
    law_single_word(port_flag);
    law_single_word(port);
    law_words_split_at_white_space(port_flag, sp, t5);
    law_words_split_at_white_space(host, sp, t4);
    law_words_split_at_white_space(host_flag, sp, t3);
    law_words_split_at_white_space(model_repo, sp, t2);
    law_words_split_at_white_space(hf, sp, t1);
    assert(words(t0) =~= seq![hf, model_repo, host_flag, host, port_flag, port]);
}

} // verus!

verus! {

/// The API is served at `http://127.0.0.1:8081`.
pub proof fn law_api_base()
    ensures
        api_base_spec() == "http://127.0.0.1:8081"@,
{
    reveal_strlit("http://");
    reveal_strlit(":");
    reveal_strlit("127.0.0.1");
    reveal_strlit("http://127.0.0.1:8081");
    assert(decimal(PORT as nat) =~= seq!['8', '0', '8', '1']) by {
        reveal_with_fuel(decimal, 5);
        assert(digit_char(8) == '8');
        assert(digit_char(0) == '0');
        assert(digit_char(1) == '1');
    }
    assert(api_base_spec() =~= "http://127.0.0.1:8081"@);
}

} // verus!
