use vstd::prelude::*;

verus! {

/// How much of the model has been downloaded, in bytes, of how much.
#[derive(Debug)]
pub struct DownloadProgress {
    downloaded: u64,
    total: u64,
}

/// The mathematical model of a `DownloadProgress`.
pub struct ProgressView {
    pub downloaded: u64,
    pub total: u64,
}

impl View for DownloadProgress {
    type V = ProgressView;

    closed spec fn view(&self) -> ProgressView {
        ProgressView { downloaded: self.downloaded, total: self.total }
    }
}

impl DownloadProgress {
    /// Nothing downloaded of nothing.
    pub fn new() -> (p: DownloadProgress)
        ensures
            p@ == (ProgressView { downloaded: 0, total: 0 }),
    {
        DownloadProgress { downloaded: 0, total: 0 }
    }

    /// The bytes downloaded so far.
    pub fn downloaded(&self) -> (d: u64)
        ensures
            d == self@.downloaded,
    {
        self.downloaded
    }

    /// The size of the download, 0 when the server did not say.
    pub fn total(&self) -> (t: u64)
        ensures
            t == self@.total,
    {
        self.total
    }
}

impl Clone for DownloadProgress {
    fn clone(&self) -> (res: Self)
        ensures
            res@ == self@,
    {
        DownloadProgress { downloaded: self.downloaded, total: self.total }
    }
}

/// What the download reports.
#[derive(Clone, Debug)]
pub enum DownloadUpdate {
    /// Bytes have arrived.
    Progress(DownloadProgress),
    /// The download ended: the directory that holds it, or why it failed.
    Complete(Result<String, String>),
    /// The download failed.
    Error(String),
}

/// The events of the loading screen.
#[derive(Clone, Debug)]
pub enum Message {
    StartDownload,
    DownloadUpdate(DownloadUpdate),
}

/// What the loading screen asks for after an event.
pub enum Action {
    Nothing,
    /// Download the model, reporting with `Message::DownloadUpdate`.
    Download,
    /// Show this error.
    Error(String),
    /// Move on to the conversation.
    Continue,
}

/// The mathematical model of an `Action`.
pub enum ActionView {
    Nothing,
    Download,
    Error(Seq<char>),
    Continue,
}

impl View for Action {
    type V = ActionView;

    open spec fn view(&self) -> ActionView {
        match self {
            Action::Nothing => ActionView::Nothing,
            Action::Download => ActionView::Download,
            Action::Error(e) => ActionView::Error(e@),
            Action::Continue => ActionView::Continue,
        }
    }
}

/// The loading screen: the progress of the model download.
pub struct Loading {
    progress: DownloadProgress,
}

impl View for Loading {
    type V = ProgressView;

    closed spec fn view(&self) -> ProgressView {
        self.progress@
    }
}

/// The transition of the loading screen.
pub open spec fn loading_step(p: ProgressView, m: Message) -> (ProgressView, ActionView) {
    match m {
        Message::StartDownload => (ProgressView { downloaded: 0, total: 0 }, ActionView::Download),
        Message::DownloadUpdate(u) => match u {
            DownloadUpdate::Progress(q) => (q@, ActionView::Nothing),
            DownloadUpdate::Complete(r) => match r {
                Ok(_) => (ProgressView { downloaded: p.total, ..p }, ActionView::Continue),
                Err(e) => (p, ActionView::Error(e@)),
            },
            DownloadUpdate::Error(e) => (p, ActionView::Error(e@)),
        },
    }
}

impl Loading {
    /// The loading screen before anything was downloaded, and the event that starts the download.
    pub fn new() -> (res: (Loading, Message))
        ensures
            res.0@ == (ProgressView { downloaded: 0, total: 0 }),
            res.1 is StartDownload,
    {
        (Loading { progress: DownloadProgress::new() }, Message::StartDownload)
    }

    /// The progress shown.
    pub fn progress(&self) -> (p: &DownloadProgress)
        ensures
            p@ == self@,
    {
        &self.progress
    }

    /// The transition of the loading screen.
    pub fn update(&mut self, message: Message) -> (action: Action)
        ensures
            (final(self)@, action@) == loading_step(old(self)@, message),
    {
        match message {
            Message::StartDownload => {
                self.progress = DownloadProgress::new();
                Action::Download
            },
            Message::DownloadUpdate(update) => match update {
                DownloadUpdate::Progress(progress) => {
                    self.progress = progress;
                    Action::Nothing
                },
                DownloadUpdate::Complete(result) => match result {
                    Ok(_) => {
                        self.progress.downloaded = self.progress.total;
                        Action::Continue
                    },
                    Err(e) => Action::Error(e),
                },
                DownloadUpdate::Error(e) => Action::Error(e),
            },
        }
    }
}

/// A download in progress: the bytes received and the size that the server announced.
pub struct Download {
    downloaded: u64,
    total: u64,
}

impl View for Download {
    type V = ProgressView;

    closed spec fn view(&self) -> ProgressView {
        ProgressView { downloaded: self.downloaded, total: self.total }
    }
}

/// The progress after a chunk of `len` bytes: the count grows by `len`, the size stays.
pub open spec fn chunk_step(p: ProgressView, len: u64) -> ProgressView {
    ProgressView { downloaded: (p.downloaded + len) as u64, ..p }
}

/// The progress after a stream of chunks of these lengths, one `chunk_step` each.
pub open spec fn after_chunks(p: ProgressView, lens: Seq<u64>) -> ProgressView
    decreases lens.len(),
{
    if lens.len() == 0 {
        p
    } else {
        chunk_step(after_chunks(p, lens.drop_last()), lens.last())
    }
}

/// The sum of the chunk lengths.
pub open spec fn total_len(lens: Seq<u64>) -> int
    decreases lens.len(),
{
    if lens.len() == 0 {
        0
    } else {
        total_len(lens.drop_last()) + lens.last()
    }
}

/// Why the download failed, with the underlying error's text.
pub enum DownloadFailure {
    /// The request could not be sent.
    Request(String),
    /// The downloads directory could not be created.
    CreateDir(String),
    /// The file could not be created.
    CreateFile(String),
    /// A chunk could not be received or written.
    Transfer(String),
}

/// The text that reports a failure.
pub open spec fn failure_text(f: DownloadFailure) -> Seq<char> {
    match f {
        DownloadFailure::Request(e) => e@,
        DownloadFailure::CreateDir(e) => "Failed to create directory: "@ + e@,
        DownloadFailure::CreateFile(e) => "Failed to create file: "@ + e@,
        DownloadFailure::Transfer(e) => "Download Error: "@ + e@,
    }
}

impl Download {
    /// A download whose response announced `content_length` bytes (0 when it did not).
    pub fn start(content_length: Option<u64>) -> (d: Download)
        ensures
            d@ == (ProgressView {
                downloaded: 0,
                total: match content_length {
                    Some(n) => n,
                    None => 0,
                },
            }),
    {
        let total = match content_length {
            Some(n) => n,
            None => 0,
        };
        Download { downloaded: 0, total }
    }

    /// The bytes received so far.
    pub fn downloaded(&self) -> (d: u64)
        ensures
            d == self@.downloaded,
    {
        self.downloaded
    }

    /// A chunk of `len` bytes arrived and was written: the progress to report.
    pub fn chunk(&mut self, len: u64) -> (m: Message)
        requires
            old(self)@.downloaded + len <= u64::MAX,
        ensures
            final(self)@ == chunk_step(old(self)@, len),
            m matches Message::DownloadUpdate(DownloadUpdate::Progress(p)) && p@ == final(self)@,
    {
        self.downloaded = self.downloaded + len;
        Message::DownloadUpdate(
            DownloadUpdate::Progress(DownloadProgress { downloaded: self.downloaded, total: self.total }),
        )
    }

    /// The reports that end a download stored in `directory`: the bar filled to the
    /// announced size, then completion.
    pub fn finish(&self, directory: String) -> (ms: (Message, Message))
        ensures
            ms.0 matches Message::DownloadUpdate(DownloadUpdate::Progress(p)) && p@ == (ProgressView {
                downloaded: self@.total,
                total: self@.total,
            }),
            ms.1 matches Message::DownloadUpdate(DownloadUpdate::Complete(Ok(d))) && d@ == directory@,
    {
        (
            Message::DownloadUpdate(
                DownloadUpdate::Progress(DownloadProgress { downloaded: self.total, total: self.total }),
            ),
            Message::DownloadUpdate(DownloadUpdate::Complete(Ok(directory))),
        )
    }
}

/// The report of a failed download.
pub fn failure_message(f: DownloadFailure) -> (m: Message)
    ensures
        m matches Message::DownloadUpdate(DownloadUpdate::Error(t)) && t@ == failure_text(f),
{
    let text = match f {
        DownloadFailure::Request(e) => e,
        DownloadFailure::CreateDir(e) => String::from_str("Failed to create directory: ").concat(e.as_str()),
        DownloadFailure::CreateFile(e) => String::from_str("Failed to create file: ").concat(e.as_str()),
        DownloadFailure::Transfer(e) => String::from_str("Download Error: ").concat(e.as_str()),
    };
    Message::DownloadUpdate(DownloadUpdate::Error(text))
}

/// The position of the last '/' in a text, or -1 when there is none.
pub open spec fn last_slash(s: Seq<char>) -> int
    decreases s.len(),
{
    if s.len() == 0 {
        -1
    } else if s.last() == '/' {
        s.len() - 1
    } else {
        last_slash(s.drop_last())
    }
}

/// The last '/'-separated segment of a text: everything after its last '/'.
pub open spec fn last_segment(s: Seq<char>) -> Seq<char> {
    s.skip(last_slash(s) + 1)
}

/// A '/' at `k` with none after it is the last.
proof fn lemma_last_slash(s: Seq<char>, k: int)
    requires
        -1 <= k < s.len(),
        k >= 0 ==> s[k] == '/',
        forall|j: int| k < j < s.len() ==> s[j] != '/',
    ensures
        last_slash(s) == k,
    decreases s.len(),
{
    if s.len() > 0 && k < s.len() - 1 {
        assert(s.last() != '/');
        let t = s.drop_last();
        assert forall|j: int| k < j < t.len() implies t[j] != '/' by {
            assert(t[j] == s[j]);
        }
        lemma_last_slash(t, k);
    }
}

/// The name under which a download is stored: the last segment of its URL.
pub fn file_name(url: &str) -> (name: String)
    ensures
        name@ == last_segment(url@),
{
    let n = url.unicode_len();
    let mut i: usize = n;
    while i > 0
        invariant
            n == url@.len(),
            i <= n,
            forall|j: int| i <= j < n ==> url@[j] != '/',
        ensures
            i <= n,
            forall|j: int| i <= j < n ==> url@[j] != '/',
            i > 0 ==> url@[i - 1] == '/',
        decreases i,
    {
        if url.get_char(i - 1) == '/' {
            break;
        }
        i = i - 1;
    }
    proof {
        if i > 0 {
            lemma_last_slash(url@, i - 1);
        } else {
            lemma_last_slash(url@, -1);
        }
    }
    String::from_str(url.substring_char(i, n))
}

} // verus!

verus! {

/// A completed download fills the bar and moves on to the conversation.
pub proof fn law_complete_fills_bar(p: ProgressView, directory: String)
    ensures
        loading_step(p, Message::DownloadUpdate(DownloadUpdate::Complete(Ok(directory)))) == (
            ProgressView { downloaded: p.total, total: p.total },
            ActionView::Continue,
        ),
{
}

/// Starting the download again empties the bar, whatever it showed.
pub proof fn law_restart_empties_bar(p: ProgressView)
    ensures
        loading_step(p, Message::StartDownload).0 == (ProgressView { downloaded: 0, total: 0 }),
{
}

} // verus!

verus! {

/// The lengths of a prefix of the chunks add up to no more than all of them.
proof fn lemma_prefix_total(lens: Seq<u64>, i: int)
    requires
        0 <= i <= lens.len(),
    ensures
        0 <= total_len(lens.take(i)) <= total_len(lens),
    decreases lens.len(),
{
    if i == lens.len() {
        assert(lens.take(i) =~= lens);
        lemma_total_nonneg(lens);
    } else {
        assert(lens.take(i) =~= lens.drop_last().take(i));
        lemma_prefix_total(lens.drop_last(), i);
    }
}

/// A sum of lengths is never negative.
proof fn lemma_total_nonneg(lens: Seq<u64>)
    ensures
        total_len(lens) >= 0,
    decreases lens.len(),
{
    if lens.len() > 0 {
        lemma_total_nonneg(lens.drop_last());
    }
}

/// When the count does not overflow, a stream of chunks adds their lengths to it
/// and keeps the size.
proof fn lemma_after_chunks(p: ProgressView, lens: Seq<u64>)
    requires
        p.downloaded + total_len(lens) <= u64::MAX,
    ensures
        after_chunks(p, lens) == (ProgressView {
            downloaded: (p.downloaded + total_len(lens)) as u64,
            total: p.total,
        }),
    decreases lens.len(),
{
    if lens.len() > 0 {
        lemma_total_nonneg(lens.drop_last());
        lemma_after_chunks(p, lens.drop_last());
    }
}

/// The progress reported along a download never goes back: after the first `i`
/// chunks of a stream, the size is the announced one and the count is the sum of
/// their lengths; each report is the one before plus that chunk's length; and a
/// later report counts at least as much as an earlier one. This holds while the
/// count fits in a `u64`, as `Download::chunk` requires.
pub proof fn law_progress_adds_up(p: ProgressView, lens: Seq<u64>)
    requires
        p.downloaded + total_len(lens) <= u64::MAX,
    ensures
        forall|i: int|
            0 <= i <= lens.len() ==> #[trigger] after_chunks(p, lens.take(i)) == (ProgressView {
                downloaded: (p.downloaded + total_len(lens.take(i))) as u64,
                total: p.total,
            }),
        forall|i: int|
            0 <= i < lens.len() ==> #[trigger] after_chunks(p, lens.take(i + 1)).downloaded
                == after_chunks(p, lens.take(i)).downloaded + lens[i],
        forall|i: int, j: int|
            0 <= i <= j <= lens.len() ==> #[trigger] after_chunks(p, lens.take(i)).downloaded
                <= #[trigger] after_chunks(p, lens.take(j)).downloaded,
{
    assert forall|i: int| 0 <= i <= lens.len() implies #[trigger] after_chunks(p, lens.take(i)) == (
    ProgressView { downloaded: (p.downloaded + total_len(lens.take(i))) as u64, total: p.total }) by {
        lemma_prefix_total(lens, i);
        lemma_after_chunks(p, lens.take(i));
    }
    assert forall|i: int| 0 <= i < lens.len() implies #[trigger] after_chunks(p, lens.take(i + 1)).downloaded
        == after_chunks(p, lens.take(i)).downloaded + lens[i] by {
        let t = lens.take(i + 1);
        assert(t.drop_last() =~= lens.take(i));
        assert(t.last() == lens[i]);
        lemma_prefix_total(lens, i + 1);
        lemma_prefix_total(lens, i);
        lemma_after_chunks(p, lens.take(i + 1));
        lemma_after_chunks(p, lens.take(i));
    }
    assert forall|i: int, j: int| 0 <= i <= j <= lens.len() implies #[trigger] after_chunks(
        p,
        lens.take(i),
    ).downloaded <= #[trigger] after_chunks(p, lens.take(j)).downloaded by {
        assert(lens.take(j).take(i) =~= lens.take(i));
        lemma_prefix_total(lens.take(j), i);
        lemma_prefix_total(lens, j);
        lemma_after_chunks(p, lens.take(i));
        lemma_after_chunks(p, lens.take(j));
    }
}

} // verus!

verus! {

/// A progress report replaces the bar with exactly what it reports; an error,
/// or a download that ended in failure, keeps the bar and reports its text.
pub proof fn law_reports_and_errors(p: ProgressView, q: DownloadProgress, e: String)
    ensures
        loading_step(p, Message::DownloadUpdate(DownloadUpdate::Progress(q))) == (
            q@,
            ActionView::Nothing,
        ),
        loading_step(p, Message::DownloadUpdate(DownloadUpdate::Error(e))) == (
            p,
            ActionView::Error(e@),
        ),
        loading_step(p, Message::DownloadUpdate(DownloadUpdate::Complete(Err(e)))) == (
            p,
            ActionView::Error(e@),
        ),
        loading_step(p, Message::StartDownload).1 == ActionView::Download,
{
}

/// The stored file is named by the URL's last segment: it holds no '/', and the
/// URL is some prefix ending in '/' (or nothing) followed by it.
pub proof fn law_file_name_is_last_segment(url: Seq<char>)
    ensures
        forall|i: int| 0 <= i < last_segment(url).len() ==> last_segment(url)[i] != '/',
        url == url.take(url.len() - last_segment(url).len()) + last_segment(url),
        url.len() - last_segment(url).len() == 0 || url[url.len() - last_segment(url).len() - 1]
            == '/',
{
    lemma_last_slash_bounds(url);
    let k = last_slash(url);
    assert(url =~= url.take(k + 1) + url.skip(k + 1));
}

/// The last '/' is a '/', within the text, with none after it.
proof fn lemma_last_slash_bounds(s: Seq<char>)
    ensures
        -1 <= last_slash(s) < s.len(),
        last_slash(s) >= 0 ==> s[last_slash(s)] == '/',
        forall|j: int| last_slash(s) < j < s.len() ==> s[j] != '/',
    decreases s.len(),
{
    if s.len() > 0 && s.last() != '/' {
        let t = s.drop_last();
        lemma_last_slash_bounds(t);
        assert forall|j: int| last_slash(s) < j < s.len() implies s[j] != '/' by {
            if j < t.len() {
                assert(t[j] == s[j]);
            }
        }
    }
}

/// A failure's text ends with the text of the error that caused it.
pub proof fn law_failure_text_ends_with_cause(f: DownloadFailure)
    ensures
        ({
            let cause = match f {
                DownloadFailure::Request(e) => e@,
                DownloadFailure::CreateDir(e) => e@,
                DownloadFailure::CreateFile(e) => e@,
                DownloadFailure::Transfer(e) => e@,
            };
            &&& failure_text(f).len() >= cause.len()
            &&& failure_text(f).skip(failure_text(f).len() - cause.len()) == cause
        }),
{
    match f {
        DownloadFailure::Request(e) => {
            assert(e@.skip(0) =~= e@);
        },
        DownloadFailure::CreateDir(e) => {
            let t = failure_text(f);
            assert(t.skip(t.len() - e@.len()) =~= e@);
        },
        DownloadFailure::CreateFile(e) => {
            let t = failure_text(f);
            assert(t.skip(t.len() - e@.len()) =~= e@);
        },
        DownloadFailure::Transfer(e) => {
            let t = failure_text(f);
            assert(t.skip(t.len() - e@.len()) =~= e@);
        },
    }
}

} // verus!
