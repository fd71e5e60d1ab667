use mark_us_down::events::{Action, UiEvent};
use mark_us_down::launch::{Candidate, LaunchCoordinator, LaunchState};
use mark_us_down::registry::WindowRegistry;

fn candidate(path: &str, content: &str) -> Candidate {
    Candidate { path: path.to_string(), content: Some(content.to_string()) }
}

fn unreadable(path: &str) -> Candidate {
    Candidate { path: path.to_string(), content: None }
}

fn opened(session: u64, path: &str, content: &str, after_grace: bool) -> Action {
    Action::Emit {
        session,
        event: UiEvent::FileOpened { path: path.to_string(), content: content.to_string() },
        after_grace,
    }
}

#[test]
fn two_document_arguments_open_two_sessions_never_merged_or_swapped() {
    let mut lc = LaunchCoordinator::new();
    let mut reg = WindowRegistry::new(false);
    let candidates = vec![candidate("a.md", "alpha"), candidate("b.md", "beta")];
    let actions = lc.start(&mut reg, &candidates);
    assert_eq!(reg.len(), 2);
    assert_eq!(
        actions,
        vec![
            Action::CreateWindow { session: 1 },
            opened(1, "a.md", "alpha", true),
            Action::CreateWindow { session: 2 },
            opened(2, "b.md", "beta", true),
        ]
    );
    assert_eq!(lc.state(), LaunchState::Dispatched);
}

#[test]
fn unreadable_candidates_are_skipped_without_aborting_the_rest() {
    let mut lc = LaunchCoordinator::new();
    let mut reg = WindowRegistry::new(false);
    let candidates = vec![unreadable("bad.md"), candidate("good.md", "ok")];
    let actions = lc.start(&mut reg, &candidates);
    assert_eq!(reg.len(), 1);
    assert_eq!(
        actions,
        vec![Action::CreateWindow { session: 1 }, opened(1, "good.md", "ok", true)]
    );
}

#[test]
fn no_arguments_and_no_pending_event_yield_one_default_session_after_grace() {
    let mut lc = LaunchCoordinator::new();
    let mut reg = WindowRegistry::new(false);
    let actions = lc.start(&mut reg, &Vec::new());
    assert!(actions.is_empty());
    assert_eq!(lc.state(), LaunchState::ArgsInspected);
    assert_eq!(reg.len(), 0);

    let actions = lc.startup_grace_elapsed(&mut reg);
    assert_eq!(actions, vec![Action::CreateWindow { session: 1 }]);
    assert_eq!(reg.len(), 1);

    // a second grace signal with a window present does nothing
    let actions = lc.startup_grace_elapsed(&mut reg);
    assert!(actions.is_empty());
    assert_eq!(reg.len(), 1);
}

#[test]
fn platform_open_before_any_window_buffers_the_first_candidate() {
    let mut lc = LaunchCoordinator::new();
    let mut reg = WindowRegistry::new(false);
    let actions = lc.platform_open(&mut reg, &vec![candidate("a.md", "alpha")], None);
    assert!(actions.is_empty());
    assert!(lc.has_pending());
    assert_eq!(lc.state(), LaunchState::Buffered);
    assert_eq!(reg.len(), 0);
}

#[test]
fn window_ready_takes_and_clears_the_pending_file_exactly_once() {
    let mut lc = LaunchCoordinator::new();
    let mut reg = WindowRegistry::new(false);
    lc.platform_open(&mut reg, &vec![candidate("a.md", "alpha")], None);
    let (id, _) = reg.create_session(None);

    let actions = lc.window_ready(&mut reg, id);
    assert_eq!(actions, vec![opened(id, "a.md", "alpha", true)]);
    assert!(!lc.has_pending());
    assert_eq!(lc.state(), LaunchState::Resolved);

    // a later readiness signal finds the slot empty
    let actions = lc.window_ready(&mut reg, id);
    assert!(actions.is_empty());
}

#[test]
fn platform_open_with_a_window_reuses_it_for_the_first_candidate_only() {
    let mut lc = LaunchCoordinator::new();
    let mut reg = WindowRegistry::new(false);
    let (existing, _) = reg.create_session(None);
    let candidates = vec![candidate("a.md", "alpha"), candidate("b.md", "beta")];
    let actions = lc.platform_open(&mut reg, &candidates, Some(existing));
    assert_eq!(actions.len(), 3);
    assert_eq!(actions[0], opened(existing, "a.md", "alpha", false));
    assert_eq!(actions[1], Action::CreateWindow { session: 2 });
    assert_eq!(actions[2], opened(2, "b.md", "beta", true));
    assert!(!lc.has_pending());
}

#[test]
fn secondary_activation_never_buffers() {
    let mut lc = LaunchCoordinator::new();
    let mut reg = WindowRegistry::new(false);
    let actions = lc.secondary_activation(&mut reg, &vec![candidate("a.md", "alpha")], None);
    assert_eq!(
        actions,
        vec![Action::CreateWindow { session: 1 }, opened(1, "a.md", "alpha", true)]
    );
    assert!(!lc.has_pending());
    assert_eq!(reg.len(), 1);
}

#[test]
fn secondary_activation_with_a_window_emits_immediately_to_it() {
    let mut lc = LaunchCoordinator::new();
    let mut reg = WindowRegistry::new(false);
    let (existing, _) = reg.create_session(None);
    let actions =
        lc.secondary_activation(&mut reg, &vec![candidate("a.md", "alpha")], Some(existing));
    assert_eq!(actions, vec![opened(existing, "a.md", "alpha", false)]);
    assert_eq!(reg.len(), 1);
}

#[test]
fn grace_period_opens_a_buffered_file_when_no_window_appeared() {
    let mut lc = LaunchCoordinator::new();
    let mut reg = WindowRegistry::new(false);
    lc.platform_open(&mut reg, &vec![candidate("a.md", "alpha")], None);
    let actions = lc.startup_grace_elapsed(&mut reg);
    assert_eq!(
        actions,
        vec![Action::CreateWindow { session: 1 }, opened(1, "a.md", "alpha", true)]
    );
    assert!(!lc.has_pending());
    assert_eq!(reg.len(), 1);
}
