use mark_us_down::events::{Action, CoreError, UiEvent};
use mark_us_down::watch::{delivery_event, should_deliver, WatchManager};

#[test]
fn start_watch_missing_path_is_not_found() {
    let mut w = WatchManager::new();
    let r = w.start_watch(1, "gone.md".to_string(), false);
    assert_eq!(r, Err(CoreError::NotFound));
    assert_eq!(w.len(), 0);
}

#[test]
fn start_watch_registers_the_key() {
    let mut w = WatchManager::new();
    assert_eq!(w.start_watch(1, "a.md".to_string(), true), Ok(()));
    assert!(w.is_watching(1, &"a.md".to_string()));
    assert!(!w.is_watching(2, &"a.md".to_string()));
    assert_eq!(w.len(), 1);
}

#[test]
fn start_watch_twice_keeps_one_entry() {
    let mut w = WatchManager::new();
    assert_eq!(w.start_watch(1, "a.md".to_string(), true), Ok(()));
    assert_eq!(w.start_watch(1, "a.md".to_string(), true), Ok(()));
    assert_eq!(w.len(), 1);
}

#[test]
fn stop_watch_is_idempotent() {
    let mut w = WatchManager::new();
    assert_eq!(w.start_watch(1, "a.md".to_string(), true), Ok(()));
    let path = "a.md".to_string();
    assert_eq!(w.stop_watch(1, &path), Ok(()));
    assert_eq!(w.stop_watch(1, &path), Ok(()));
    assert!(!w.is_watching(1, &path));
}

#[test]
fn stop_watch_on_unknown_key_is_not_an_error() {
    let mut w = WatchManager::new();
    assert_eq!(w.stop_watch(7, &"never.md".to_string()), Ok(()));
}

#[test]
fn watcher_error_removes_only_its_own_entry() {
    let mut w = WatchManager::new();
    w.start_watch(1, "a.md".to_string(), true).unwrap();
    w.start_watch(2, "a.md".to_string(), true).unwrap();
    w.remove_errored(1, &"a.md".to_string());
    assert!(!w.is_watching(1, &"a.md".to_string()));
    assert!(w.is_watching(2, &"a.md".to_string()));
}

#[test]
fn cleanup_session_removes_every_watch_of_that_session() {
    let mut w = WatchManager::new();
    w.start_watch(1, "a.md".to_string(), true).unwrap();
    w.start_watch(1, "b.md".to_string(), true).unwrap();
    w.start_watch(2, "a.md".to_string(), true).unwrap();
    w.cleanup_session(1);
    assert!(!w.is_watching(1, &"a.md".to_string()));
    assert!(!w.is_watching(1, &"b.md".to_string()));
    assert!(w.is_watching(2, &"a.md".to_string()));
    assert_eq!(w.len(), 1);
}

#[test]
fn notification_must_be_modify_and_name_the_watched_path() {
    let watched = "a.md".to_string();
    let paths = vec!["other.md".to_string(), "a.md".to_string()];
    assert!(should_deliver(&watched, true, &paths));
    assert!(!should_deliver(&watched, false, &paths));
    assert!(!should_deliver(&watched, true, &vec!["other.md".to_string()]));
    assert!(!should_deliver(&watched, true, &Vec::new()));
}

#[test]
fn change_emits_once_to_the_owning_session_only() {
    let watched = "shared.md".to_string();
    let to_s = delivery_event(1, &watched, Some("new text".to_string()));
    let to_t = delivery_event(2, &watched, Some("new text".to_string()));
    assert_eq!(
        to_s,
        Some(Action::Emit {
            session: 1,
            event: UiEvent::FileChangedExternally {
                path: "shared.md".to_string(),
                content: "new text".to_string(),
            },
            after_grace: false,
        })
    );
    match to_t {
        Some(Action::Emit { session, .. }) => assert_eq!(session, 2),
        other => panic!("unexpected {:?}", other),
    }
    assert_ne!(to_s, to_t);
}

#[test]
fn external_modification_then_deletion_scenario() {
    let mut w = WatchManager::new();
    let path = "doc.md".to_string();
    w.start_watch(5, path.clone(), true).unwrap();

    // external modification: one event to the owning session
    assert!(should_deliver(&path, true, &vec![path.clone()]));
    let emitted = delivery_event(5, &path, Some("updated".to_string()));
    assert_eq!(
        emitted,
        Some(Action::Emit {
            session: 5,
            event: UiEvent::FileChangedExternally {
                path: "doc.md".to_string(),
                content: "updated".to_string(),
            },
            after_grace: false,
        })
    );

    // the file vanished before the re-read: swallowed, watch stays registered
    let swallowed = delivery_event(5, &path, None);
    assert_eq!(swallowed, None);
    assert!(w.is_watching(5, &path));

    // until explicitly stopped
    assert_eq!(w.stop_watch(5, &path), Ok(()));
    assert!(!w.is_watching(5, &path));
}
