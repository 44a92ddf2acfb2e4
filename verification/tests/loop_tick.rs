use learn_cli::app::{App, DownloadMode, DownloadStatus};
use learn_cli::tick::{Key, KeyKind, KeyOutcome, POPUP_DURATION_MS};
use learn_cli::worker::resolve_outcome;

#[test]
fn empty_submit_changes_nothing_and_starts_nothing() {
    for status in [
        DownloadStatus::Idle,
        DownloadStatus::Downloading,
        DownloadStatus::Success,
        DownloadStatus::Failed,
    ] {
        let mut app = App::new();
        app.status = status;
        let out = app.handle_key(Key::Enter, KeyKind::Press);
        assert!(matches!(out, KeyOutcome::Continue));
        assert!(app.status == status);
        assert_eq!(app.url_input, "");
        assert_eq!(app.history.len(), 0);
    }
}

#[test]
fn submit_is_ignored_while_downloading() {
    let mut app = App::new();
    app.status = DownloadStatus::Downloading;
    app.push_char('u');
    let out = app.handle_key(Key::Enter, KeyKind::Press);
    assert!(matches!(out, KeyOutcome::Continue));
    assert!(app.status == DownloadStatus::Downloading);
    assert_eq!(app.url_input, "u");
}

#[test]
fn submit_snapshots_url_and_mode() {
    let mut app = App::new();
    app.push_char('u');
    app.push_char('r');
    app.push_char('l');
    app.toggle_mode();
    let out = app.handle_key(Key::Enter, KeyKind::Press);
    match out {
        KeyOutcome::Start(req) => {
            assert_eq!(req.url, "url");
            assert!(req.mode == DownloadMode::Video);
        }
        _ => panic!("expected a download to start"),
    }
    assert_eq!(app.url_input, "url");
}

#[test]
fn worker_success_with_title_appends_once_and_popup_times_out() {
    let mut app = App::new();
    app.status = DownloadStatus::Downloading;

    let (status, sent) = resolve_outcome(true, Ok(String::from("T")));
    assert!(status == DownloadStatus::Success);
    assert_eq!(sent.as_deref(), Some("T"));

    app.observe_status(status, 1000);
    assert!(app.status == DownloadStatus::Success);
    assert!(app.show_popup);
    assert_eq!(app.popup_start, Some(1000));

    app.drain_completion(sent);
    assert_eq!(app.history.len(), 1);
    assert_eq!(app.history[0].title, "T");

    app.expire_popup(1000 + POPUP_DURATION_MS - 1);
    assert!(app.show_popup);
    app.expire_popup(1000 + POPUP_DURATION_MS);
    assert!(!app.show_popup);
    assert!(app.popup_start.is_none());
    assert_eq!(app.history.len(), 1);
}

#[test]
fn worker_success_without_title_keeps_history() {
    let mut app = App::new();
    app.status = DownloadStatus::Downloading;

    let (status, sent) = resolve_outcome(true, Err(()));
    assert!(status == DownloadStatus::Success);
    assert!(sent.is_none());

    app.observe_status(status, 50);
    app.drain_completion(sent);
    assert!(app.status == DownloadStatus::Success);
    assert_eq!(app.history.len(), 0);
}

#[test]
fn worker_failure_discards_resolved_title() {
    let (status, sent) = resolve_outcome(false, Ok(String::from("T")));
    assert!(status == DownloadStatus::Failed);
    assert!(sent.is_none());

    let (status, sent) = resolve_outcome(false, Err(()));
    assert!(status == DownloadStatus::Failed);
    assert!(sent.is_none());
}

#[test]
fn resubmit_after_failure_goes_downloading() {
    let mut app = App::new();
    app.status = DownloadStatus::Failed;
    app.push_char('u');
    let out = app.handle_key(Key::Enter, KeyKind::Press);
    assert!(matches!(out, KeyOutcome::Start(_)));
    // the loop publishes Downloading for a started request; the next tick
    // observes it
    app.observe_status(DownloadStatus::Downloading, 10);
    assert!(app.status == DownloadStatus::Downloading);
    assert_eq!(app.history.len(), 0);
    assert!(!app.show_popup);
}

#[test]
fn escape_quits_from_every_status() {
    for status in [
        DownloadStatus::Idle,
        DownloadStatus::Downloading,
        DownloadStatus::Success,
        DownloadStatus::Failed,
    ] {
        let mut app = App::new();
        app.status = status;
        let out = app.handle_key(Key::Escape, KeyKind::Press);
        assert!(matches!(out, KeyOutcome::Quit));
        assert!(app.status == status);
    }
}

#[test]
fn popup_arms_only_on_transition_to_success() {
    let mut app = App::new();
    app.status = DownloadStatus::Success;
    app.observe_status(DownloadStatus::Success, 500);
    assert!(!app.show_popup);
    assert!(app.popup_start.is_none());
}

#[test]
fn popup_expiry_ignores_earlier_clock_readings() {
    let mut app = App::new();
    app.status = DownloadStatus::Downloading;
    app.observe_status(DownloadStatus::Success, 1000);
    assert!(app.show_popup);
    // a reading before the arming time must not hide the popup
    app.expire_popup(0);
    assert!(app.show_popup);
}

#[test]
fn drain_without_pending_title_changes_nothing() {
    let mut app = App::new();
    app.drain_completion(None);
    assert_eq!(app.history.len(), 0);
}

#[test]
fn history_keeps_insertion_order() {
    let mut app = App::new();
    app.record_completion(String::from("first"));
    app.record_completion(String::from("second"));
    assert_eq!(app.history.len(), 2);
    assert_eq!(app.history[0].title, "first");
    assert_eq!(app.history[1].title, "second");
}
