use convo::loading::{
    failure_message, file_name, Action, Download, DownloadFailure, DownloadProgress, DownloadUpdate,
    Loading, Message,
};

fn progress_of(m: &Message) -> (u64, u64) {
    match m {
        Message::DownloadUpdate(DownloadUpdate::Progress(p)) => (p.downloaded(), p.total()),
        _ => panic!("not a progress report"),
    }
}

fn error_of(m: Message) -> String {
    match m {
        Message::DownloadUpdate(DownloadUpdate::Error(e)) => e,
        _ => panic!("not an error report"),
    }
}

#[test]
fn progress_starts_empty() {
    let p = DownloadProgress::new();
    assert_eq!((p.downloaded(), p.total()), (0, 0));
}

#[test]
fn loading_starts_by_asking_for_the_download() {
    let (mut l, m) = Loading::new();
    assert!(matches!(m, Message::StartDownload));
    assert!(matches!(l.update(m), Action::Download));
    assert_eq!((l.progress().downloaded(), l.progress().total()), (0, 0));
}

#[test]
fn progress_reports_replace_the_bar() {
    let (mut l, _) = Loading::new();
    let mut d = Download::start(Some(100));
    let m = d.chunk(30);
    assert!(matches!(l.update(m), Action::Nothing));
    assert_eq!((l.progress().downloaded(), l.progress().total()), (30, 100));
}

#[test]
fn completion_fills_the_bar_and_continues() {
    let (mut l, _) = Loading::new();
    let mut d = Download::start(Some(100));
    l.update(d.chunk(30));
    let a = l.update(Message::DownloadUpdate(DownloadUpdate::Complete(Ok("/cache".to_string()))));
    assert!(matches!(a, Action::Continue));
    assert_eq!((l.progress().downloaded(), l.progress().total()), (100, 100));
}

#[test]
fn failed_completion_reports_the_error() {
    let (mut l, _) = Loading::new();
    let a = l.update(Message::DownloadUpdate(DownloadUpdate::Complete(Err("disk full".to_string()))));
    assert!(matches!(a, Action::Error(ref e) if e == "disk full"));
    let b = l.update(Message::DownloadUpdate(DownloadUpdate::Error("offline".to_string())));
    assert!(matches!(b, Action::Error(ref e) if e == "offline"));
}

#[test]
fn restarting_empties_the_bar() {
    let (mut l, _) = Loading::new();
    let mut d = Download::start(Some(10));
    l.update(d.chunk(10));
    assert!(matches!(l.update(Message::StartDownload), Action::Download));
    assert_eq!((l.progress().downloaded(), l.progress().total()), (0, 0));
}

#[test]
fn chunks_add_up() {
    let mut d = Download::start(Some(1000));
    assert_eq!(progress_of(&d.chunk(100)), (100, 1000));
    assert_eq!(progress_of(&d.chunk(250)), (350, 1000));
    assert_eq!(progress_of(&d.chunk(0)), (350, 1000));
}

#[test]
fn unknown_length_counts_as_zero() {
    let mut d = Download::start(None);
    assert_eq!(progress_of(&d.chunk(7)), (7, 0));
}

#[test]
fn finishing_fills_the_bar_then_completes() {
    let mut d = Download::start(Some(64));
    d.chunk(10);
    let (a, b) = d.finish("/cache/dir".to_string());
    assert_eq!(progress_of(&a), (64, 64));
    match b {
        Message::DownloadUpdate(DownloadUpdate::Complete(Ok(dir))) => assert_eq!(dir, "/cache/dir"),
        _ => panic!("not a completion"),
    }
}

#[test]
fn failures_are_reported_with_their_cause() {
    assert_eq!(error_of(failure_message(DownloadFailure::Request("timeout".to_string()))), "timeout");
    assert_eq!(
        error_of(failure_message(DownloadFailure::CreateDir("denied".to_string()))),
        "Failed to create directory: denied"
    );
    assert_eq!(
        error_of(failure_message(DownloadFailure::CreateFile("denied".to_string()))),
        "Failed to create file: denied"
    );
    assert_eq!(
        error_of(failure_message(DownloadFailure::Transfer("reset".to_string()))),
        "Download Error: reset"
    );
}

#[test]
fn file_name_is_the_last_url_segment() {
    assert_eq!(
        file_name("https://huggingface.co/org/repo/resolve/main/model-q4.gguf"),
        "model-q4.gguf"
    );
    assert_eq!(file_name("plain"), "plain");
    assert_eq!(file_name("https://host/dir/"), "");
    assert_eq!(file_name(""), "");
}

#[test]
fn reports_along_a_stream_never_go_back() {
    let mut d = Download::start(Some(500));
    let mut last = 0;
    let mut sum = 0;
    for len in [10u64, 0, 200, 7, 283] {
        let (downloaded, total) = progress_of(&d.chunk(len));
        sum += len;
        assert_eq!(total, 500);
        assert_eq!(downloaded, sum);
        assert!(downloaded >= last);
        last = downloaded;
    }
    assert_eq!(last, 500);
}
