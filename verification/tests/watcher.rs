use upstream::watcher::{should_forward, FsEventKind, WatchError, WatchEvent};

#[test]
fn change_events_are_create_modify_and_remove() {
    for kind in [FsEventKind::Create, FsEventKind::Modify, FsEventKind::Remove] {
        assert!(WatchEvent::Poll(kind).is_change_event());
    }
    for kind in [FsEventKind::Any, FsEventKind::Access, FsEventKind::Other] {
        assert!(!WatchEvent::Poll(kind).is_change_event());
    }
}

#[test]
fn a_debounced_report_changes_when_one_event_does() {
    assert!(WatchEvent::Debounce(vec![FsEventKind::Access, FsEventKind::Modify]).is_change_event());
    assert!(!WatchEvent::Debounce(vec![FsEventKind::Access, FsEventKind::Other]).is_change_event());
    assert!(!WatchEvent::Debounce(vec![]).is_change_event());
}

#[test]
fn only_changes_and_errors_are_forwarded() {
    assert!(should_forward(&Ok(WatchEvent::Poll(FsEventKind::Create))));
    assert!(!should_forward(&Ok(WatchEvent::Poll(FsEventKind::Access))));
    assert!(should_forward(&Err(WatchError::Poll(String::from("gone")))));
    assert!(should_forward(&Err(WatchError::Debounce(vec![]))));
}

#[test]
fn error_messages() {
    assert_eq!(WatchError::Poll(String::from("boom")).message(), "Poll watch error: boom");
    assert_eq!(
        WatchError::Debounce(vec![String::from("a"), String::from("b")]).message(),
        "Debounce watch error: a\nDebounce watch error: b\n"
    );
    assert_eq!(WatchError::Debounce(vec![]).message(), "");
}
