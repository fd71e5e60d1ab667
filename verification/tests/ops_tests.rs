use mark_us_down::events::{Action, CoreError, UiEvent};
use mark_us_down::ops::{plan_file_new, plan_file_opened, plan_file_saved};
use mark_us_down::registry::WindowRegistry;

#[test]
fn new_file_resets_the_focused_window() {
    let mut reg = WindowRegistry::new(false);
    let (id, _) = reg.create_session(None);
    let r = plan_file_new(&reg, Some(id));
    assert_eq!(
        r,
        Ok(Action::Emit { session: id, event: UiEvent::FileNew, after_grace: false })
    );
}

#[test]
fn new_file_with_no_window_surfaces_an_error() {
    let reg = WindowRegistry::new(false);
    assert_eq!(plan_file_new(&reg, None), Err(CoreError::EmitFailure));
}

#[test]
fn a_successful_save_emits_file_saved_with_the_exact_path() {
    let mut reg = WindowRegistry::new(false);
    let (id, _) = reg.create_session(None);
    let r = plan_file_saved(&reg, Some(id), "/tmp/out.md".to_string());
    assert_eq!(
        r,
        Ok(Action::Emit {
            session: id,
            event: UiEvent::FileSaved { path: "/tmp/out.md".to_string() },
            after_grace: false,
        })
    );
}

#[test]
fn a_successful_read_emits_file_opened_with_path_and_content() {
    let mut reg = WindowRegistry::new(false);
    let (id, _) = reg.create_session(None);
    let r = plan_file_opened(&reg, Some(id), "a.md".to_string(), "text".to_string());
    assert_eq!(
        r,
        Ok(Action::Emit {
            session: id,
            event: UiEvent::FileOpened {
                path: "a.md".to_string(),
                content: "text".to_string(),
            },
            after_grace: false,
        })
    );
}

#[test]
fn save_and_open_with_no_window_surface_errors() {
    let reg = WindowRegistry::new(false);
    assert_eq!(
        plan_file_saved(&reg, None, "x.md".to_string()),
        Err(CoreError::EmitFailure)
    );
    assert_eq!(
        plan_file_opened(&reg, None, "x.md".to_string(), "t".to_string()),
        Err(CoreError::EmitFailure)
    );
}

#[test]
fn every_error_variant_carries_a_message() {
    assert_eq!(CoreError::NotFound.message(), "file does not exist");
    assert_eq!(CoreError::IoError.message(), "file could not be read or written");
    assert_eq!(
        CoreError::EmitFailure.message(),
        "no window is available to receive the event"
    );
    assert_eq!(CoreError::AlreadyAbsent.message(), "watch was already removed");
}
