//! The command router: a static table from symbolic command identifiers to
//! actions against a resolved target window.

use vstd::prelude::*;
use crate::events::{Action, UiEvent};
use crate::registry::{
    create_session_post, remove_session_post, spec_resolve_target, WindowRegistry,
};
use crate::watch::{cleanup_session_post, WatchManager};

verus! {

/// The symbolic commands a menu or equivalent trigger can raise.
#[derive(Debug, Clone, Copy, PartialEq, Eq, Structural)]
pub enum CommandId {
    About,
    Quit,
    New,
    NewWindow,
    Open,
    Save,
    SaveAs,
    Close,
    Undo,
    Redo,
    ThemeToggle,
    ZoomIn,
    ZoomOut,
    ResetZoom,
    ToggleReadingMode,
    DebugInfo,
}

/// How a command resolves its target.
#[derive(Debug, Clone, Copy, PartialEq, Eq, Structural)]
pub enum Resolution {
    /// Acts on whatever window the user is looking at.
    TargetCurrentWindow,
    /// Unconditionally creates a new session.
    CreateWindow,
    /// Acts on the process as a whole.
    Global,
}

/// The resolution strategy of each command.
pub open spec fn spec_resolution_of(cmd: CommandId) -> Resolution {
    match cmd {
        CommandId::Quit => Resolution::Global,
        CommandId::NewWindow => Resolution::CreateWindow,
        _ => Resolution::TargetCurrentWindow,
    }
}

/// The resolution strategy of each command.
pub fn resolution_of(cmd: CommandId) -> (r: Resolution)
    ensures
        r == spec_resolution_of(cmd),
{
    match cmd {
        CommandId::Quit => Resolution::Global,
        CommandId::NewWindow => Resolution::CreateWindow,
        _ => Resolution::TargetCurrentWindow,
    }
}

/// The event a window-scoped command emits to its target, when it emits one.
pub open spec fn spec_window_event(cmd: CommandId) -> Option<UiEvent> {
    match cmd {
        CommandId::About => Some(UiEvent::MenuAbout),
        CommandId::New => Some(UiEvent::MenuNewFile),
        CommandId::Save => Some(UiEvent::MenuSaveFile),
        CommandId::SaveAs => Some(UiEvent::MenuSaveAsFile),
        CommandId::Undo => Some(UiEvent::MenuUndo),
        CommandId::Redo => Some(UiEvent::MenuRedo),
        CommandId::ThemeToggle => Some(UiEvent::MenuToggleTheme),
        CommandId::ZoomIn => Some(UiEvent::MenuZoomIn),
        CommandId::ZoomOut => Some(UiEvent::MenuZoomOut),
        CommandId::ResetZoom => Some(UiEvent::MenuResetZoom),
        CommandId::ToggleReadingMode => Some(UiEvent::MenuToggleReadingMode),
        CommandId::DebugInfo => Some(UiEvent::MenuDebugInfo),
        CommandId::Quit => None,
        CommandId::NewWindow => None,
        CommandId::Open => None,
        CommandId::Close => None,
    }
}

/// The event a window-scoped command emits to its target, when it emits one.
fn window_event(cmd: CommandId) -> (r: Option<UiEvent>)
    ensures
        r == spec_window_event(cmd),
{
    match cmd {
        CommandId::About => Some(UiEvent::MenuAbout),
        CommandId::New => Some(UiEvent::MenuNewFile),
        CommandId::Save => Some(UiEvent::MenuSaveFile),
        CommandId::SaveAs => Some(UiEvent::MenuSaveAsFile),
        CommandId::Undo => Some(UiEvent::MenuUndo),
        CommandId::Redo => Some(UiEvent::MenuRedo),
        CommandId::ThemeToggle => Some(UiEvent::MenuToggleTheme),
        CommandId::ZoomIn => Some(UiEvent::MenuZoomIn),
        CommandId::ZoomOut => Some(UiEvent::MenuZoomOut),
        CommandId::ResetZoom => Some(UiEvent::MenuResetZoom),
        CommandId::ToggleReadingMode => Some(UiEvent::MenuToggleReadingMode),
        CommandId::DebugInfo => Some(UiEvent::MenuDebugInfo),
        CommandId::Quit => None,
        CommandId::NewWindow => None,
        CommandId::Open => None,
        CommandId::Close => None,
    }
}

/// What closing a session does: its watches are cleaned up before or during
/// the teardown, the session leaves the registry, the runtime is asked to
/// close the window, and — only under the quit-on-last-window-close host
/// convention — the process exits when the last window went away.
pub open spec fn close_session_post(
    pre_r: WindowRegistry,
    pre_w: WatchManager,
    id: u64,
    post_r: WindowRegistry,
    post_w: WatchManager,
    actions: Seq<Action>,
) -> bool {
    &&& cleanup_session_post(pre_w, id, post_w)
    &&& remove_session_post(pre_r, id, post_r, pre_r.contains_id(id))
    &&& actions == if pre_r.contains_id(id) {
        if post_r.live_count() == 0 && pre_r.quits_on_last_close() {
            seq![(Action::CloseWindow { session: id }), (Action::Exit { code: 0 })]
        } else {
            seq![(Action::CloseWindow { session: id })]
        }
    } else {
        Seq::<Action>::empty()
    }
}

/// Closes the session `id`: watch cleanup first, then registry teardown, so a
/// closed session never leaves orphaned watches.
pub fn close_session(reg: &mut WindowRegistry, watches: &mut WatchManager, id: u64) -> (actions:
    Vec<Action>)
    requires
        old(reg).wf(),
        old(watches).wf(),
    ensures
        close_session_post(
            *old(reg),
            *old(watches),
            id,
            *final(reg),
            *final(watches),
            actions@,
        ),
{
    watches.cleanup_session(id);
    let removed = reg.remove_session(id);
    let mut actions: Vec<Action> = Vec::new();
    if removed {
        actions.push(Action::CloseWindow { session: id });
        if reg.len() == 0 && reg.quit_on_last_close() {
            actions.push(Action::Exit { code: 0 });
            proof {
                assert(actions@ =~= seq![
                    (Action::CloseWindow { session: id }),
                    (Action::Exit { code: 0 }),
                ]);
            }
        } else {
            proof {
                assert(actions@ =~= seq![(Action::CloseWindow { session: id })]);
            }
        }
    }
    actions
}

/// What `handle_command` guarantees, command by command.  A window-scoped
/// command with no live window is a no-op, except that a targetless `New`
/// falls back to creating a fresh session, so "new" is never a dead command;
/// `Quit` exits unconditionally, whatever sessions are open.
pub open spec fn handle_command_post(
    cmd: CommandId,
    pre_r: WindowRegistry,
    pre_w: WatchManager,
    focused: Option<u64>,
    post_r: WindowRegistry,
    post_w: WatchManager,
    actions: Seq<Action>,
) -> bool {
    match cmd {
        CommandId::Quit => {
            &&& post_r == pre_r
            &&& post_w == pre_w
            &&& actions == seq![(Action::Exit { code: 0 })]
        },
        CommandId::Open => {
            &&& post_r == pre_r
            &&& post_w == pre_w
            &&& actions == seq![(Action::OpenFileDialog)]
        },
        CommandId::NewWindow => {
            &&& post_w == pre_w
            &&& create_session_post(pre_r, None, post_r, pre_r.next_id_spec(), actions)
        },
        CommandId::New => {
            &&& post_w == pre_w
            &&& if pre_r.live_count() > 0 {
                &&& post_r == pre_r
                &&& actions == seq![
                    (Action::Emit {
                        session: spec_resolve_target(pre_r, focused)->0,
                        event: UiEvent::MenuNewFile,
                        after_grace: false,
                    }),
                ]
            } else {
                create_session_post(pre_r, None, post_r, pre_r.next_id_spec(), actions)
            }
        },
        CommandId::Close => {
            if pre_r.live_count() > 0 {
                close_session_post(
                    pre_r,
                    pre_w,
                    spec_resolve_target(pre_r, focused)->0,
                    post_r,
                    post_w,
                    actions,
                )
            } else {
                &&& post_r == pre_r
                &&& post_w == pre_w
                &&& actions == Seq::<Action>::empty()
            }
        },
        _ => {
            &&& post_r == pre_r
            &&& post_w == pre_w
            &&& actions == if pre_r.live_count() > 0 {
                seq![
                    (Action::Emit {
                        session: spec_resolve_target(pre_r, focused)->0,
                        event: spec_window_event(cmd)->0,
                        after_grace: false,
                    }),
                ]
            } else {
                Seq::<Action>::empty()
            }
        },
    }
}

/// Routes one symbolic command.  Every window-scoped emission is best-effort
/// on the runtime's side: a delivery failure is logged there and never
/// escalated, since the user took no action whose failure needs reporting.
pub fn handle_command(
    cmd: CommandId,
    reg: &mut WindowRegistry,
    watches: &mut WatchManager,
    focused: Option<u64>,
) -> (actions: Vec<Action>)
    requires
        old(reg).wf(),
        old(watches).wf(),
        old(reg).next_id_spec() < u64::MAX,
    ensures
        handle_command_post(
            cmd,
            *old(reg),
            *old(watches),
            focused,
            *final(reg),
            *final(watches),
            actions@,
        ),
{
    match cmd {
        CommandId::Quit => {
            let mut actions: Vec<Action> = Vec::new();
            actions.push(Action::Exit { code: 0 });
            proof {
                assert(actions@ =~= seq![(Action::Exit { code: 0 })]);
            }
            actions
        },
        CommandId::Open => {
            let mut actions: Vec<Action> = Vec::new();
            actions.push(Action::OpenFileDialog);
            proof {
                assert(actions@ =~= seq![(Action::OpenFileDialog)]);
            }
            actions
        },
        CommandId::NewWindow => {
            let (_, actions) = reg.create_session(None);
            actions
        },
        CommandId::New => {
            match reg.resolve_target(focused) {
                Some(t) => {
                    let mut actions: Vec<Action> = Vec::new();
                    actions.push(
                        Action::Emit {
                            session: t,
                            event: UiEvent::MenuNewFile,
                            after_grace: false,
                        },
                    );
                    proof {
                        assert(actions@ =~= seq![
                            (Action::Emit {
                                session: t,
                                event: UiEvent::MenuNewFile,
                                after_grace: false,
                            }),
                        ]);
                    }
                    actions
                },
                None => {
                    let (_, actions) = reg.create_session(None);
                    actions
                },
            }
        },
        CommandId::Close => {
            match reg.resolve_target(focused) {
                Some(t) => close_session(reg, watches, t),
                None => Vec::new(),
            }
        },
        _ => {
            let ev = match window_event(cmd) {
                Some(ev) => ev,
                None => unreached(),
            };
            match reg.resolve_target(focused) {
                Some(t) => {
                    let ghost spec_ev = spec_window_event(cmd)->0;
                    let mut actions: Vec<Action> = Vec::new();
                    actions.push(Action::Emit { session: t, event: ev, after_grace: false });
                    proof {
                        assert(actions@ =~= seq![
                            (Action::Emit { session: t, event: spec_ev, after_grace: false }),
                        ]);
                    }
                    actions
                },
                None => Vec::new(),
            }
        },
    }
}

/// The identifier string of each command, as a menu or trigger names it.
pub open spec fn spec_command_string(cmd: CommandId) -> Seq<char> {
    match cmd {
        CommandId::About => "about"@,
        CommandId::Quit => "quit"@,
        CommandId::New => "new"@,
        CommandId::NewWindow => "new_window"@,
        CommandId::Open => "open"@,
        CommandId::Save => "save"@,
        CommandId::SaveAs => "save_as"@,
        CommandId::Close => "close"@,
        CommandId::Undo => "undo"@,
        CommandId::Redo => "redo"@,
        CommandId::ThemeToggle => "theme_toggle"@,
        CommandId::ZoomIn => "zoom_in"@,
        CommandId::ZoomOut => "zoom_out"@,
        CommandId::ResetZoom => "reset_zoom"@,
        CommandId::ToggleReadingMode => "toggle_reading_mode"@,
        CommandId::DebugInfo => "debug_info"@,
    }
}

/// The command named by an identifier string, if any; an unknown identifier
/// routes nowhere.
pub open spec fn spec_parse_command(s: Seq<char>) -> Option<CommandId> {
    if s == "about"@ {
        Some(CommandId::About)
    } else if s == "quit"@ {
        Some(CommandId::Quit)
    } else if s == "new"@ {
        Some(CommandId::New)
    } else if s == "new_window"@ {
        Some(CommandId::NewWindow)
    } else if s == "open"@ {
        Some(CommandId::Open)
    } else if s == "save"@ {
        Some(CommandId::Save)
    } else if s == "save_as"@ {
        Some(CommandId::SaveAs)
    } else if s == "close"@ {
        Some(CommandId::Close)
    } else if s == "undo"@ {
        Some(CommandId::Undo)
    } else if s == "redo"@ {
        Some(CommandId::Redo)
    } else if s == "theme_toggle"@ {
        Some(CommandId::ThemeToggle)
    } else if s == "zoom_in"@ {
        Some(CommandId::ZoomIn)
    } else if s == "zoom_out"@ {
        Some(CommandId::ZoomOut)
    } else if s == "reset_zoom"@ {
        Some(CommandId::ResetZoom)
    } else if s == "toggle_reading_mode"@ {
        Some(CommandId::ToggleReadingMode)
    } else if s == "debug_info"@ {
        Some(CommandId::DebugInfo)
    } else {
        None
    }
}

/// The identifier string of each command.
pub fn command_string(cmd: CommandId) -> (r: String)
    ensures
        r@ == spec_command_string(cmd),
{
    match cmd {
        CommandId::About => "about".to_owned(),
        CommandId::Quit => "quit".to_owned(),
        CommandId::New => "new".to_owned(),
        CommandId::NewWindow => "new_window".to_owned(),
        CommandId::Open => "open".to_owned(),
        CommandId::Save => "save".to_owned(),
        CommandId::SaveAs => "save_as".to_owned(),
        CommandId::Close => "close".to_owned(),
        CommandId::Undo => "undo".to_owned(),
        CommandId::Redo => "redo".to_owned(),
        CommandId::ThemeToggle => "theme_toggle".to_owned(),
        CommandId::ZoomIn => "zoom_in".to_owned(),
        CommandId::ZoomOut => "zoom_out".to_owned(),
        CommandId::ResetZoom => "reset_zoom".to_owned(),
        CommandId::ToggleReadingMode => "toggle_reading_mode".to_owned(),
        CommandId::DebugInfo => "debug_info".to_owned(),
    }
}

/// The command named by an identifier string, if any.
pub fn parse_command(id: &String) -> (r: Option<CommandId>)
    ensures
        r == spec_parse_command(id@),
{
    if id.eq(&"about".to_owned()) {
        Some(CommandId::About)
    } else if id.eq(&"quit".to_owned()) {
        Some(CommandId::Quit)
    } else if id.eq(&"new".to_owned()) {
        Some(CommandId::New)
    } else if id.eq(&"new_window".to_owned()) {
        Some(CommandId::NewWindow)
    } else if id.eq(&"open".to_owned()) {
        Some(CommandId::Open)
    } else if id.eq(&"save".to_owned()) {
        Some(CommandId::Save)
    } else if id.eq(&"save_as".to_owned()) {
        Some(CommandId::SaveAs)
    } else if id.eq(&"close".to_owned()) {
        Some(CommandId::Close)
    } else if id.eq(&"undo".to_owned()) {
        Some(CommandId::Undo)
    } else if id.eq(&"redo".to_owned()) {
        Some(CommandId::Redo)
    } else if id.eq(&"theme_toggle".to_owned()) {
        Some(CommandId::ThemeToggle)
    } else if id.eq(&"zoom_in".to_owned()) {
        Some(CommandId::ZoomIn)
    } else if id.eq(&"zoom_out".to_owned()) {
        Some(CommandId::ZoomOut)
    } else if id.eq(&"reset_zoom".to_owned()) {
        Some(CommandId::ResetZoom)
    } else if id.eq(&"toggle_reading_mode".to_owned()) {
        Some(CommandId::ToggleReadingMode)
    } else if id.eq(&"debug_info".to_owned()) {
        Some(CommandId::DebugInfo)
    } else {
        None
    }
}

/// Command identifiers round-trip: the string a command is named by parses
/// back to exactly that command, so a menu built from these names never
/// routes to the wrong handler.
pub proof fn lemma_command_string_round_trip(cmd: CommandId)
    ensures
        spec_parse_command(spec_command_string(cmd)) == Some(cmd),
{
    reveal_strlit("about");
    reveal_strlit("quit");
    reveal_strlit("new");
    reveal_strlit("new_window");
    reveal_strlit("open");
    reveal_strlit("save");
    reveal_strlit("save_as");
    reveal_strlit("close");
    reveal_strlit("undo");
    reveal_strlit("redo");
    reveal_strlit("theme_toggle");
    reveal_strlit("zoom_in");
    reveal_strlit("zoom_out");
    reveal_strlit("reset_zoom");
    reveal_strlit("toggle_reading_mode");
    reveal_strlit("debug_info");
    assert("about"@.len() == 5);
    assert("quit"@.len() == 4);
    assert("new"@.len() == 3);
    assert("new_window"@.len() == 10);
    assert("open"@.len() == 4);
    assert("save"@.len() == 4);
    assert("save_as"@.len() == 7);
    assert("close"@.len() == 5);
    assert("undo"@.len() == 4);
    assert("redo"@.len() == 4);
    assert("theme_toggle"@.len() == 12);
    assert("zoom_in"@.len() == 7);
    assert("zoom_out"@.len() == 8);
    assert("reset_zoom"@.len() == 10);
    assert("toggle_reading_mode"@.len() == 19);
    assert("debug_info"@.len() == 10);
    match cmd {
        CommandId::About => {
        },
        CommandId::Quit => {
            assert("quit"@ != "about"@);
        },
        CommandId::New => {
            assert("new"@ != "about"@);
            assert("new"@ != "quit"@);
        },
        CommandId::NewWindow => {
            assert("new_window"@ != "about"@);
            assert("new_window"@ != "quit"@);
            assert("new_window"@ != "new"@);
        },
        CommandId::Open => {
            assert("open"@ != "about"@);
            assert("open"@[0] != "quit"@[0]);
            assert("open"@ != "quit"@);
            assert("open"@ != "new"@);
            assert("open"@ != "new_window"@);
        },
        CommandId::Save => {
            assert("save"@ != "about"@);
            assert("save"@[0] != "quit"@[0]);
            assert("save"@ != "quit"@);
            assert("save"@ != "new"@);
            assert("save"@ != "new_window"@);
            assert("save"@[0] != "open"@[0]);
            assert("save"@ != "open"@);
        },
        CommandId::SaveAs => {
            assert("save_as"@ != "about"@);
            assert("save_as"@ != "quit"@);
            assert("save_as"@ != "new"@);
            assert("save_as"@ != "new_window"@);
            assert("save_as"@ != "open"@);
            assert("save_as"@ != "save"@);
        },
        CommandId::Close => {
            assert("close"@[0] != "about"@[0]);
            assert("close"@ != "about"@);
            assert("close"@ != "quit"@);
            assert("close"@ != "new"@);
            assert("close"@ != "new_window"@);
            assert("close"@ != "open"@);
            assert("close"@ != "save"@);
            assert("close"@ != "save_as"@);
        },
        CommandId::Undo => {
            assert("undo"@ != "about"@);
            assert("undo"@[0] != "quit"@[0]);
            assert("undo"@ != "quit"@);
            assert("undo"@ != "new"@);
            assert("undo"@ != "new_window"@);
            assert("undo"@[0] != "open"@[0]);
            assert("undo"@ != "open"@);
            assert("undo"@[0] != "save"@[0]);
            assert("undo"@ != "save"@);
            assert("undo"@ != "save_as"@);
            assert("undo"@ != "close"@);
        },
        CommandId::Redo => {
            assert("redo"@ != "about"@);
            assert("redo"@[0] != "quit"@[0]);
            assert("redo"@ != "quit"@);
            assert("redo"@ != "new"@);
            assert("redo"@ != "new_window"@);
            assert("redo"@[0] != "open"@[0]);
            assert("redo"@ != "open"@);
            assert("redo"@[0] != "save"@[0]);
            assert("redo"@ != "save"@);
            assert("redo"@ != "save_as"@);
            assert("redo"@ != "close"@);
            assert("redo"@[0] != "undo"@[0]);
            assert("redo"@ != "undo"@);
        },
        CommandId::ThemeToggle => {
            assert("theme_toggle"@ != "about"@);
            assert("theme_toggle"@ != "quit"@);
            assert("theme_toggle"@ != "new"@);
            assert("theme_toggle"@ != "new_window"@);
            assert("theme_toggle"@ != "open"@);
            assert("theme_toggle"@ != "save"@);
            assert("theme_toggle"@ != "save_as"@);
            assert("theme_toggle"@ != "close"@);
            assert("theme_toggle"@ != "undo"@);
            assert("theme_toggle"@ != "redo"@);
        },
        CommandId::ZoomIn => {
            assert("zoom_in"@ != "about"@);
            assert("zoom_in"@ != "quit"@);
            assert("zoom_in"@ != "new"@);
            assert("zoom_in"@ != "new_window"@);
            assert("zoom_in"@ != "open"@);
            assert("zoom_in"@ != "save"@);
            assert("zoom_in"@[0] != "save_as"@[0]);
            assert("zoom_in"@ != "save_as"@);
            assert("zoom_in"@ != "close"@);
            assert("zoom_in"@ != "undo"@);
            assert("zoom_in"@ != "redo"@);
            assert("zoom_in"@ != "theme_toggle"@);
        },
        CommandId::ZoomOut => {
            assert("zoom_out"@ != "about"@);
            assert("zoom_out"@ != "quit"@);
            assert("zoom_out"@ != "new"@);
            assert("zoom_out"@ != "new_window"@);
            assert("zoom_out"@ != "open"@);
            assert("zoom_out"@ != "save"@);
            assert("zoom_out"@ != "save_as"@);
            assert("zoom_out"@ != "close"@);
            assert("zoom_out"@ != "undo"@);
            assert("zoom_out"@ != "redo"@);
            assert("zoom_out"@ != "theme_toggle"@);
            assert("zoom_out"@ != "zoom_in"@);
        },
        CommandId::ResetZoom => {
            assert("reset_zoom"@ != "about"@);
            assert("reset_zoom"@ != "quit"@);
            assert("reset_zoom"@ != "new"@);
            assert("reset_zoom"@[0] != "new_window"@[0]);
            assert("reset_zoom"@ != "new_window"@);
            assert("reset_zoom"@ != "open"@);
            assert("reset_zoom"@ != "save"@);
            assert("reset_zoom"@ != "save_as"@);
            assert("reset_zoom"@ != "close"@);
            assert("reset_zoom"@ != "undo"@);
            assert("reset_zoom"@ != "redo"@);
            assert("reset_zoom"@ != "theme_toggle"@);
            assert("reset_zoom"@ != "zoom_in"@);
            assert("reset_zoom"@ != "zoom_out"@);
        },
        CommandId::ToggleReadingMode => {
            assert("toggle_reading_mode"@ != "about"@);
            assert("toggle_reading_mode"@ != "quit"@);
            assert("toggle_reading_mode"@ != "new"@);
            assert("toggle_reading_mode"@ != "new_window"@);
            assert("toggle_reading_mode"@ != "open"@);
            assert("toggle_reading_mode"@ != "save"@);
            assert("toggle_reading_mode"@ != "save_as"@);
            assert("toggle_reading_mode"@ != "close"@);
            assert("toggle_reading_mode"@ != "undo"@);
            assert("toggle_reading_mode"@ != "redo"@);
            assert("toggle_reading_mode"@ != "theme_toggle"@);
            assert("toggle_reading_mode"@ != "zoom_in"@);
            assert("toggle_reading_mode"@ != "zoom_out"@);
            assert("toggle_reading_mode"@ != "reset_zoom"@);
        },
        CommandId::DebugInfo => {
            assert("debug_info"@ != "about"@);
            assert("debug_info"@ != "quit"@);
            assert("debug_info"@ != "new"@);
            assert("debug_info"@[0] != "new_window"@[0]);
            assert("debug_info"@ != "new_window"@);
            assert("debug_info"@ != "open"@);
            assert("debug_info"@ != "save"@);
            assert("debug_info"@ != "save_as"@);
            assert("debug_info"@ != "close"@);
            assert("debug_info"@ != "undo"@);
            assert("debug_info"@ != "redo"@);
            assert("debug_info"@ != "theme_toggle"@);
            assert("debug_info"@ != "zoom_in"@);
            assert("debug_info"@ != "zoom_out"@);
            assert("debug_info"@[0] != "reset_zoom"@[0]);
            assert("debug_info"@ != "reset_zoom"@);
            assert("debug_info"@ != "toggle_reading_mode"@);
        },
    }
}


} // verus!
