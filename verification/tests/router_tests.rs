use mark_us_down::events::{Action, UiEvent};
use mark_us_down::registry::WindowRegistry;
use mark_us_down::router::{
    close_session, command_string, handle_command, parse_command, resolution_of, CommandId,
    Resolution,
};
use mark_us_down::watch::WatchManager;

const ALL_COMMANDS: [CommandId; 16] = [
    CommandId::About,
    CommandId::Quit,
    CommandId::New,
    CommandId::NewWindow,
    CommandId::Open,
    CommandId::Save,
    CommandId::SaveAs,
    CommandId::Close,
    CommandId::Undo,
    CommandId::Redo,
    CommandId::ThemeToggle,
    CommandId::ZoomIn,
    CommandId::ZoomOut,
    CommandId::ResetZoom,
    CommandId::ToggleReadingMode,
    CommandId::DebugInfo,
];

#[test]
fn quit_with_three_sessions_open_terminates_unconditionally() {
    let mut reg = WindowRegistry::new(false);
    let mut watches = WatchManager::new();
    reg.create_session(None);
    reg.create_session(None);
    reg.create_session(None);
    let actions = handle_command(CommandId::Quit, &mut reg, &mut watches, None);
    // exactly one step: exit; no save prompts, no per-session teardown here
    assert_eq!(actions, vec![Action::Exit { code: 0 }]);
    assert_eq!(reg.len(), 3);
}

#[test]
fn new_with_a_window_emits_to_the_current_window() {
    let mut reg = WindowRegistry::new(false);
    let mut watches = WatchManager::new();
    let (id, _) = reg.create_session(None);
    let actions = handle_command(CommandId::New, &mut reg, &mut watches, Some(id));
    assert_eq!(
        actions,
        vec![Action::Emit { session: id, event: UiEvent::MenuNewFile, after_grace: false }]
    );
}

#[test]
fn new_with_no_window_falls_back_to_creating_a_session() {
    let mut reg = WindowRegistry::new(false);
    let mut watches = WatchManager::new();
    let actions = handle_command(CommandId::New, &mut reg, &mut watches, None);
    assert_eq!(actions, vec![Action::CreateWindow { session: 1 }]);
    assert_eq!(reg.len(), 1);
}

#[test]
fn window_scoped_commands_with_no_window_are_no_ops() {
    let mut reg = WindowRegistry::new(false);
    let mut watches = WatchManager::new();
    for cmd in [CommandId::Save, CommandId::Undo, CommandId::ZoomIn, CommandId::About] {
        let actions = handle_command(cmd, &mut reg, &mut watches, None);
        assert!(actions.is_empty());
    }
}

#[test]
fn zoom_and_theme_commands_emit_their_events() {
    let mut reg = WindowRegistry::new(false);
    let mut watches = WatchManager::new();
    let (id, _) = reg.create_session(None);
    let cases = [
        (CommandId::Save, UiEvent::MenuSaveFile),
        (CommandId::SaveAs, UiEvent::MenuSaveAsFile),
        (CommandId::Undo, UiEvent::MenuUndo),
        (CommandId::Redo, UiEvent::MenuRedo),
        (CommandId::ThemeToggle, UiEvent::MenuToggleTheme),
        (CommandId::ZoomIn, UiEvent::MenuZoomIn),
        (CommandId::ZoomOut, UiEvent::MenuZoomOut),
        (CommandId::ResetZoom, UiEvent::MenuResetZoom),
        (CommandId::ToggleReadingMode, UiEvent::MenuToggleReadingMode),
        (CommandId::About, UiEvent::MenuAbout),
        (CommandId::DebugInfo, UiEvent::MenuDebugInfo),
    ];
    for (cmd, event) in cases {
        let actions = handle_command(cmd, &mut reg, &mut watches, Some(id));
        assert_eq!(actions, vec![Action::Emit { session: id, event, after_grace: false }]);
    }
}

#[test]
fn open_command_opens_the_file_dialog() {
    let mut reg = WindowRegistry::new(false);
    let mut watches = WatchManager::new();
    let actions = handle_command(CommandId::Open, &mut reg, &mut watches, None);
    assert_eq!(actions, vec![Action::OpenFileDialog]);
}

#[test]
fn close_command_tears_down_the_focused_session_and_its_watches() {
    let mut reg = WindowRegistry::new(false);
    let mut watches = WatchManager::new();
    let (a, _) = reg.create_session(None);
    let (b, _) = reg.create_session(None);
    watches.start_watch(a, "a.md".to_string(), true).unwrap();
    watches.start_watch(b, "b.md".to_string(), true).unwrap();

    let actions = handle_command(CommandId::Close, &mut reg, &mut watches, Some(a));
    assert_eq!(actions, vec![Action::CloseWindow { session: a }]);
    assert!(!reg.has_session(a));
    assert!(reg.has_session(b));
    assert!(!watches.is_watching(a, &"a.md".to_string()));
    assert!(watches.is_watching(b, &"b.md".to_string()));
}

#[test]
fn closing_the_last_window_exits_only_under_the_host_convention() {
    // convention off: the process stays
    let mut reg = WindowRegistry::new(false);
    let mut watches = WatchManager::new();
    let (a, _) = reg.create_session(None);
    let actions = close_session(&mut reg, &mut watches, a);
    assert_eq!(actions, vec![Action::CloseWindow { session: a }]);

    // convention on: closing the last window terminates the process
    let mut reg = WindowRegistry::new(true);
    let mut watches = WatchManager::new();
    let (a, _) = reg.create_session(None);
    let actions = close_session(&mut reg, &mut watches, a);
    assert_eq!(
        actions,
        vec![Action::CloseWindow { session: a }, Action::Exit { code: 0 }]
    );
}

#[test]
fn close_of_an_unknown_session_does_nothing() {
    let mut reg = WindowRegistry::new(true);
    let mut watches = WatchManager::new();
    let actions = close_session(&mut reg, &mut watches, 42);
    assert!(actions.is_empty());
}

#[test]
fn new_window_always_creates_a_session() {
    let mut reg = WindowRegistry::new(false);
    let mut watches = WatchManager::new();
    let (id, _) = reg.create_session(None);
    let actions = handle_command(CommandId::NewWindow, &mut reg, &mut watches, Some(id));
    assert_eq!(actions, vec![Action::CreateWindow { session: 2 }]);
    assert_eq!(reg.len(), 2);
}

#[test]
fn resolution_table_matches_the_three_handler_shapes() {
    assert_eq!(resolution_of(CommandId::Quit), Resolution::Global);
    assert_eq!(resolution_of(CommandId::NewWindow), Resolution::CreateWindow);
    assert_eq!(resolution_of(CommandId::Save), Resolution::TargetCurrentWindow);
    assert_eq!(resolution_of(CommandId::New), Resolution::TargetCurrentWindow);
}

#[test]
fn command_identifiers_round_trip() {
    for cmd in ALL_COMMANDS {
        let id = command_string(cmd);
        assert_eq!(parse_command(&id), Some(cmd));
    }
}

#[test]
fn unknown_command_identifiers_route_nowhere() {
    assert_eq!(parse_command(&"".to_string()), None);
    assert_eq!(parse_command(&"saveas".to_string()), None);
    assert_eq!(parse_command(&"QUIT".to_string()), None);
}
