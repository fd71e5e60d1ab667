//! Event vocabulary: what the coordinator asks the hosting runtime to do.

use vstd::prelude::*;

verus! {

/// An event addressed to one window-owning collaborator.
#[derive(Debug, PartialEq, Eq)]
pub enum UiEvent {
    FileNew,
    FileOpened { path: String, content: String },
    FileSaved { path: String },
    FileChangedExternally { path: String, content: String },
    MenuNewFile,
    MenuSaveFile,
    MenuSaveAsFile,
    MenuUndo,
    MenuRedo,
    MenuToggleTheme,
    MenuZoomIn,
    MenuZoomOut,
    MenuResetZoom,
    MenuToggleReadingMode,
    MenuAbout,
    MenuDebugInfo,
}

/// One step the hosting runtime must carry out on the coordinator's behalf.
///
/// `after_grace` on an emission asks for the fixed short grace delay before
/// delivery, so a freshly created window can finish initializing; it is a
/// bounded wait, not a readiness handshake.
#[derive(Debug, PartialEq, Eq)]
pub enum Action {
    CreateWindow { session: u64 },
    CloseWindow { session: u64 },
    Emit { session: u64, event: UiEvent, after_grace: bool },
    OpenFileDialog,
    Exit { code: i32 },
}

/// Error taxonomy of the coordinator.
#[derive(Debug, Clone, Copy, PartialEq, Eq, Structural)]
pub enum CoreError {
    /// A watch target was absent at the time it was checked.
    NotFound,
    /// A read or write against the disk failed.
    IoError,
    /// Event delivery failed because the target window is gone.
    EmitFailure,
    /// A watch was stopped that no longer exists; not treated as an error.
    AlreadyAbsent,
}

pub open spec fn spec_error_message(e: CoreError) -> Seq<char> {
    match e {
        CoreError::NotFound => "file does not exist"@,
        CoreError::IoError => "file could not be read or written"@,
        CoreError::EmitFailure => "no window is available to receive the event"@,
        CoreError::AlreadyAbsent => "watch was already removed"@,
    }
}

impl CoreError {
    /// A human-readable message, for surfacing a failure to the front end.
    pub fn message(&self) -> (r: String)
        ensures
            r@ == spec_error_message(*self),
    {
        match self {
            CoreError::NotFound => "file does not exist".to_owned(),
            CoreError::IoError => "file could not be read or written".to_owned(),
            CoreError::EmitFailure => "no window is available to receive the event".to_owned(),
            CoreError::AlreadyAbsent => "watch was already removed".to_owned(),
        }
    }
}

} // verus!
