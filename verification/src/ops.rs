//! Operations the front-end collaborator invokes synchronously: resetting a
//! document, and the events owed after a save or a read the hosting runtime
//! performed.

use vstd::prelude::*;
use crate::events::{Action, CoreError, UiEvent};
use crate::registry::{spec_resolve_target, WindowRegistry};

verus! {

/// Resets the current document: the target window receives `FileNew`.
/// Invoked synchronously, so a missing window surfaces as an error.
pub fn plan_file_new(reg: &WindowRegistry, focused: Option<u64>) -> (r: Result<Action, CoreError>)
    requires
        reg.wf(),
    ensures
        reg.live_count() > 0 ==> r == Ok::<Action, CoreError>(
            (Action::Emit {
                session: spec_resolve_target(*reg, focused)->0,
                event: UiEvent::FileNew,
                after_grace: false,
            }),
        ),
        reg.live_count() == 0 ==> r == Err::<Action, CoreError>(CoreError::EmitFailure),
{
    match reg.resolve_target(focused) {
        Some(t) => Ok(
            Action::Emit { session: t, event: UiEvent::FileNew, after_grace: false },
        ),
        None => Err(CoreError::EmitFailure),
    }
}

/// The event owed after the runtime wrote `path` to disk successfully: the
/// target window receives `FileSaved` with that exact path.
pub fn plan_file_saved(reg: &WindowRegistry, focused: Option<u64>, path: String) -> (r: Result<
    Action,
    CoreError,
>)
    requires
        reg.wf(),
    ensures
        reg.live_count() > 0 ==> r == Ok::<Action, CoreError>(
            (Action::Emit {
                session: spec_resolve_target(*reg, focused)->0,
                event: UiEvent::FileSaved { path },
                after_grace: false,
            }),
        ),
        reg.live_count() == 0 ==> r == Err::<Action, CoreError>(CoreError::EmitFailure),
{
    match reg.resolve_target(focused) {
        Some(t) => Ok(
            Action::Emit {
                session: t,
                event: UiEvent::FileSaved { path },
                after_grace: false,
            },
        ),
        None => Err(CoreError::EmitFailure),
    }
}

/// The event owed after the runtime read `path` successfully — a read-file
/// call, a finished open dialog, or a dropped file: the target window
/// receives `FileOpened` with exactly that path and content, never another
/// window.
pub fn plan_file_opened(
    reg: &WindowRegistry,
    focused: Option<u64>,
    path: String,
    content: String,
) -> (r: Result<Action, CoreError>)
    requires
        reg.wf(),
    ensures
        reg.live_count() > 0 ==> r == Ok::<Action, CoreError>(
            (Action::Emit {
                session: spec_resolve_target(*reg, focused)->0,
                event: UiEvent::FileOpened { path, content },
                after_grace: false,
            }),
        ),
        reg.live_count() == 0 ==> r == Err::<Action, CoreError>(CoreError::EmitFailure),
{
    match reg.resolve_target(focused) {
        Some(t) => Ok(
            Action::Emit {
                session: t,
                event: UiEvent::FileOpened { path, content },
                after_grace: false,
            },
        ),
        None => Err(CoreError::EmitFailure),
    }
}

} // verus!
