use mark_us_down::events::Action;
use mark_us_down::registry::{Session, SessionState, WindowRegistry};

#[test]
fn session_ids_unique_and_strictly_increasing() {
    let mut reg = WindowRegistry::new(false);
    let mut ids: Vec<u64> = Vec::new();
    for _ in 0..5 {
        let (id, _) = reg.create_session(None);
        ids.push(id);
    }
    for i in 1..ids.len() {
        assert!(ids[i - 1] < ids[i]);
    }
    for i in 0..ids.len() {
        for j in 0..ids.len() {
            if i != j {
                assert_ne!(ids[i], ids[j]);
            }
        }
    }
}

#[test]
fn ids_are_never_reused_after_close() {
    let mut reg = WindowRegistry::new(false);
    let (id1, _) = reg.create_session(None);
    assert!(reg.remove_session(id1));
    let (id2, _) = reg.create_session(None);
    assert!(id2 > id1);
}

#[test]
fn create_session_with_initial_file_defers_delivery() {
    let mut reg = WindowRegistry::new(false);
    let (id, actions) = reg.create_session(Some(("a.md".to_string(), "hello".to_string())));
    assert_eq!(actions.len(), 2);
    assert_eq!(actions[0], Action::CreateWindow { session: id });
    match &actions[1] {
        Action::Emit { session, event, after_grace } => {
            assert_eq!(*session, id);
            assert!(*after_grace);
            match event {
                mark_us_down::events::UiEvent::FileOpened { path, content } => {
                    assert_eq!(path, "a.md");
                    assert_eq!(content, "hello");
                }
                other => panic!("unexpected event {:?}", other),
            }
        }
        other => panic!("unexpected action {:?}", other),
    }
}

#[test]
fn resolve_target_prefers_focused_live_session() {
    let mut reg = WindowRegistry::new(false);
    let (a, _) = reg.create_session(None);
    let (b, _) = reg.create_session(None);
    assert_eq!(reg.resolve_target(Some(b)), Some(b));
    assert_eq!(reg.resolve_target(Some(a)), Some(a));
}

#[test]
fn resolve_target_falls_back_to_oldest_live_session() {
    let mut reg = WindowRegistry::new(false);
    let (a, _) = reg.create_session(None);
    let (_b, _) = reg.create_session(None);
    assert_eq!(reg.resolve_target(None), Some(a));
    assert_eq!(reg.resolve_target(Some(999)), Some(a));
}

#[test]
fn resolve_target_with_no_sessions_is_none() {
    let reg = WindowRegistry::new(false);
    assert_eq!(reg.resolve_target(None), None);
    assert_eq!(reg.resolve_target(Some(1)), None);
}

#[test]
fn mark_ready_changes_only_that_session() {
    let mut reg = WindowRegistry::new(false);
    let (a, _) = reg.create_session(None);
    let (b, _) = reg.create_session(None);
    reg.mark_ready(a);
    assert_eq!(reg.session_at(0), Session { id: a, state: SessionState::Ready });
    assert_eq!(reg.session_at(1), Session { id: b, state: SessionState::Creating });
}

#[test]
fn remove_session_reports_whether_it_was_live() {
    let mut reg = WindowRegistry::new(false);
    let (a, _) = reg.create_session(None);
    assert!(reg.has_session(a));
    assert!(reg.remove_session(a));
    assert!(!reg.has_session(a));
    assert!(!reg.remove_session(a));
    assert_eq!(reg.len(), 0);
}
