//! The menu model: the command table a menu presents, with its labels and
//! accelerators, rebuilt whole whenever the theme changes.

use vstd::prelude::*;
use crate::router::CommandId;

verus! {

/// A platform-predefined edit item, supplied by the hosting runtime.
#[derive(Debug, Clone, Copy, PartialEq, Eq, Structural)]
pub enum PredefinedItem {
    Cut,
    Copy,
    Paste,
    SelectAll,
}

/// One entry of a submenu.
#[derive(Debug, PartialEq, Eq)]
pub enum MenuEntry {
    /// A command trigger with its label and optional keyboard accelerator.
    Command { command: CommandId, label: String, accelerator: Option<String> },
    Separator,
    /// A platform-predefined item.
    Predefined { item: PredefinedItem },
}

/// One titled submenu.
#[derive(Debug, PartialEq, Eq)]
pub struct Submenu {
    pub title: String,
    pub entries: Vec<MenuEntry>,
}

/// Whether `e` triggers `command` under `label`, with accelerator `accel`.
pub open spec fn cmd_entry(
    e: MenuEntry,
    command: CommandId,
    label: Seq<char>,
    accel: Option<Seq<char>>,
) -> bool {
    match e {
        MenuEntry::Command { command: c, label: l, accelerator: a } => {
            &&& c == command
            &&& l@ == label
            &&& a.deep_view() == accel
        },
        _ => false,
    }
}

/// The label of the theme-toggle item: it offers the mode the front end is
/// not currently in.
pub open spec fn spec_theme_label(is_dark: bool) -> Seq<char> {
    if is_dark {
        "Switch to Light Mode"@
    } else {
        "Switch to Dark Mode"@
    }
}

/// The label of the theme-toggle item.
pub fn theme_label(is_dark: bool) -> (r: String)
    ensures
        r@ == spec_theme_label(is_dark),
{
    if is_dark {
        "Switch to Light Mode".to_owned()
    } else {
        "Switch to Dark Mode".to_owned()
    }
}

/// A command entry.
fn item(command: CommandId, label: &str) -> (r: MenuEntry)
    ensures
        cmd_entry(r, command, label@, None),
{
    MenuEntry::Command { command, label: label.to_owned(), accelerator: None }
}

/// A command entry with a keyboard accelerator.
fn item_accel(command: CommandId, label: &str, accel: &str) -> (r: MenuEntry)
    ensures
        cmd_entry(r, command, label@, Some(accel@)),
{
    MenuEntry::Command { command, label: label.to_owned(), accelerator: Some(accel.to_owned()) }
}

/// What `build_menu` guarantees: four submenus — application, file, edit and
/// view — with exactly these entries, and the theme-toggle label following
/// the current theme.
pub open spec fn menu_post(is_dark: bool, menu: Seq<Submenu>) -> bool {
    &&& menu.len() == 4
    &&& menu[0].title@ == "Mark-us-Down"@
    &&& menu[0].entries@.len() == 3
    &&& cmd_entry(menu[0].entries@[0], CommandId::About, "About Mark-us-Down"@, None)
    &&& menu[0].entries@[1] == MenuEntry::Separator
    &&& cmd_entry(
        menu[0].entries@[2],
        CommandId::Quit,
        "Quit Mark-us-Down"@,
        Some("CmdOrCtrl+Q"@),
    )
    &&& menu[1].title@ == "File"@
    &&& menu[1].entries@.len() == 7
    &&& cmd_entry(menu[1].entries@[0], CommandId::New, "New"@, Some("CmdOrCtrl+N"@))
    &&& cmd_entry(menu[1].entries@[1], CommandId::Open, "Open..."@, Some("CmdOrCtrl+O"@))
    &&& menu[1].entries@[2] == MenuEntry::Separator
    &&& cmd_entry(menu[1].entries@[3], CommandId::Save, "Save"@, Some("CmdOrCtrl+S"@))
    &&& cmd_entry(
        menu[1].entries@[4],
        CommandId::SaveAs,
        "Save As..."@,
        Some("CmdOrCtrl+Shift+S"@),
    )
    &&& menu[1].entries@[5] == MenuEntry::Separator
    &&& cmd_entry(menu[1].entries@[6], CommandId::Close, "Close"@, Some("CmdOrCtrl+W"@))
    &&& menu[2].title@ == "Edit"@
    &&& menu[2].entries@.len() == 8
    &&& cmd_entry(menu[2].entries@[0], CommandId::Undo, "Undo"@, Some("CmdOrCtrl+Z"@))
    &&& cmd_entry(
        menu[2].entries@[1],
        CommandId::Redo,
        "Redo"@,
        Some("CmdOrCtrl+Shift+Z"@),
    )
    &&& menu[2].entries@[2] == MenuEntry::Separator
    &&& menu[2].entries@[3] == (MenuEntry::Predefined { item: PredefinedItem::Cut })
    &&& menu[2].entries@[4] == (MenuEntry::Predefined { item: PredefinedItem::Copy })
    &&& menu[2].entries@[5] == (MenuEntry::Predefined { item: PredefinedItem::Paste })
    &&& menu[2].entries@[6] == MenuEntry::Separator
    &&& menu[2].entries@[7] == (MenuEntry::Predefined { item: PredefinedItem::SelectAll })
    &&& menu[3].title@ == "View"@
    &&& menu[3].entries@.len() == 7
    &&& cmd_entry(
        menu[3].entries@[0],
        CommandId::ThemeToggle,
        spec_theme_label(is_dark),
        Some("CmdOrCtrl+T"@),
    )
    &&& menu[3].entries@[1] == MenuEntry::Separator
    &&& cmd_entry(
        menu[3].entries@[2],
        CommandId::ZoomIn,
        "Zoom In"@,
        Some("CmdOrCtrl+Plus"@),
    )
    &&& cmd_entry(
        menu[3].entries@[3],
        CommandId::ZoomOut,
        "Zoom Out"@,
        Some("CmdOrCtrl+-"@),
    )
    &&& cmd_entry(
        menu[3].entries@[4],
        CommandId::ResetZoom,
        "Reset Zoom"@,
        Some("CmdOrCtrl+0"@),
    )
    &&& menu[3].entries@[5] == MenuEntry::Separator
    &&& cmd_entry(menu[3].entries@[6], CommandId::DebugInfo, "Debug Info"@, None)
}

/// Builds the whole menu for the given theme.  The front end's set-theme
/// operation rebuilds it entirely so the toggle label flips.
pub fn build_menu(is_dark: bool) -> (menu: Vec<Submenu>)
    ensures
        menu_post(is_dark, menu@),
{
    let mut app_entries: Vec<MenuEntry> = Vec::new();
    app_entries.push(item(CommandId::About, "About Mark-us-Down"));
    app_entries.push(MenuEntry::Separator);
    app_entries.push(item_accel(CommandId::Quit, "Quit Mark-us-Down", "CmdOrCtrl+Q"));
    let app_menu = Submenu { title: "Mark-us-Down".to_owned(), entries: app_entries };

    let mut file_entries: Vec<MenuEntry> = Vec::new();
    file_entries.push(item_accel(CommandId::New, "New", "CmdOrCtrl+N"));
    file_entries.push(item_accel(CommandId::Open, "Open...", "CmdOrCtrl+O"));
    file_entries.push(MenuEntry::Separator);
    file_entries.push(item_accel(CommandId::Save, "Save", "CmdOrCtrl+S"));
    file_entries.push(item_accel(CommandId::SaveAs, "Save As...", "CmdOrCtrl+Shift+S"));
    file_entries.push(MenuEntry::Separator);
    file_entries.push(item_accel(CommandId::Close, "Close", "CmdOrCtrl+W"));
    let file_menu = Submenu { title: "File".to_owned(), entries: file_entries };

    let mut edit_entries: Vec<MenuEntry> = Vec::new();
    edit_entries.push(item_accel(CommandId::Undo, "Undo", "CmdOrCtrl+Z"));
    edit_entries.push(item_accel(CommandId::Redo, "Redo", "CmdOrCtrl+Shift+Z"));
    edit_entries.push(MenuEntry::Separator);
    edit_entries.push(MenuEntry::Predefined { item: PredefinedItem::Cut });
    edit_entries.push(MenuEntry::Predefined { item: PredefinedItem::Copy });
    edit_entries.push(MenuEntry::Predefined { item: PredefinedItem::Paste });
    edit_entries.push(MenuEntry::Separator);
    edit_entries.push(MenuEntry::Predefined { item: PredefinedItem::SelectAll });
    let edit_menu = Submenu { title: "Edit".to_owned(), entries: edit_entries };

    let mut view_entries: Vec<MenuEntry> = Vec::new();
    let toggle = MenuEntry::Command {
        command: CommandId::ThemeToggle,
        label: theme_label(is_dark),
        accelerator: Some("CmdOrCtrl+T".to_owned()),
    };
    view_entries.push(toggle);
    view_entries.push(MenuEntry::Separator);
    view_entries.push(item_accel(CommandId::ZoomIn, "Zoom In", "CmdOrCtrl+Plus"));
    view_entries.push(item_accel(CommandId::ZoomOut, "Zoom Out", "CmdOrCtrl+-"));
    view_entries.push(item_accel(CommandId::ResetZoom, "Reset Zoom", "CmdOrCtrl+0"));
    view_entries.push(MenuEntry::Separator);
    view_entries.push(item(CommandId::DebugInfo, "Debug Info"));
    let view_menu = Submenu { title: "View".to_owned(), entries: view_entries };

    let mut menu: Vec<Submenu> = Vec::new();
    menu.push(app_menu);
    menu.push(file_menu);
    menu.push(edit_menu);
    menu.push(view_menu);
    menu
}

} // verus!
