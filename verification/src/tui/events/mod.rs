//! Key handling: each key press moves the console from one state to the
//! next and names at most one outside action (an effect) to perform.

use vstd::prelude::*;
use crate::app::{App, AppScreen, AppView, GroupFormField};
use crate::registry::{command_pos, group_pos, remove_command, remove_group, without_command, without_group};
use crate::tui::events::forms::{form_key_step, handle_form_key_event};
use crate::tui::events::group_forms::{group_key_defined, group_key_step, handle_group_form_key_event};
use crate::tui::events::lists::{
    ListMode, handle_delete_list_key, handle_list_key, handle_update_list_key, list_key_defined,
    list_key_is_defined,
    list_screen_step,
};
use crate::tui::events::navigation::{
    dashboard_defined, dashboard_key_step, export_key_step, handle_dashboard_key, handle_export_key,
    handle_import_key, import_key_step,
};

pub mod forms;
pub mod group_forms;
pub mod lists;
pub mod navigation;

verus! {

/// The keys that the console tells apart.
#[derive(Copy, Clone, PartialEq, Eq, Debug, Structural)]
pub enum KeyCode {
    Char(char),
    Enter,
    Esc,
    Tab,
    BackTab,
    Up,
    Down,
    Left,
    Right,
    Backspace,
    Delete,
    Other,
}

/// A key press with the modifiers that the console reads.
#[derive(Copy, Clone, PartialEq, Eq, Debug, Structural)]
pub struct Key {
    pub code: KeyCode,
    pub shift: bool,
    pub control: bool,
}

/// What part of the registry an export writes.
#[derive(Copy, Clone, PartialEq, Eq, Debug, Structural)]
pub enum ExportKind {
    Commands,
    Groups,
    Everything,
}

/// The outside action that a key press asks for.
pub enum Effect {
    /// Nothing to do outside.
    Nothing,
    /// The registry changed and is to be written back.
    Save,
    /// Run the command with this title.
    RunCommand(String),
    /// Run the group with this name.
    RunGroup(String),
    /// Write the chosen part of the registry to the backup file.
    Export(ExportKind),
    /// Read a backup from this path.
    Import(String),
}

/// The mathematical value of an effect.
pub enum EffectView {
    Nothing,
    Save,
    RunCommand(Seq<char>),
    RunGroup(Seq<char>),
    Export(ExportKind),
    Import(Seq<char>),
}

impl View for Effect {
    type V = EffectView;

    open spec fn view(&self) -> EffectView {
        match self {
            Effect::Nothing => EffectView::Nothing,
            Effect::Save => EffectView::Save,
            Effect::RunCommand(t) => EffectView::RunCommand(t@),
            Effect::RunGroup(n) => EffectView::RunGroup(n@),
            Effect::Export(k) => EffectView::Export(*k),
            Effect::Import(p) => EffectView::Import(p@),
        }
    }
}

/// `s` without its last character, if it has one (`String::pop`).
pub open spec fn pop_last(s: Seq<char>) -> Seq<char> {
    if s.len() > 0 {
        s.drop_last()
    } else {
        s
    }
}

/// The registry without the first entry called `name` (a group when
/// `is_group`, else a command).
pub open spec fn without_entry(db: crate::db::DbView, name: Seq<char>, is_group: bool) -> crate::db::DbView {
    if is_group {
        without_group(db, name)
    } else {
        without_command(db, name)
    }
}

/// A key press while the deletion of `delete_confirm_title` awaits
/// confirmation: Y deletes the entry and resets the selection, N or Esc
/// cancel, any other key is ignored.
pub open spec fn confirm_key_step(a: AppView, key: Key) -> (AppView, EffectView) {
    let t = a.delete_confirm_title->0;
    let yes = key.code == KeyCode::Char('y') || key.code == KeyCode::Char('Y');
    let no = key.code == KeyCode::Char('n') || key.code == KeyCode::Char('N') || key.code
        == KeyCode::Esc;
    if yes {
        let found = if a.delete_confirm_group {
            group_pos(a.db.groups, t) is Some
        } else {
            command_pos(a.db.commands, t) is Some
        };
        (
            AppView {
                db: without_entry(a.db, t, a.delete_confirm_group),
                delete_confirm_title: None,
                list_selected: 0,
                ..a
            },
            if found {
                EffectView::Save
            } else {
                EffectView::Nothing
            },
        )
    } else if no {
        (AppView { delete_confirm_title: None, ..a }, EffectView::Nothing)
    } else {
        (a, EffectView::Nothing)
    }
}

/// A key press on the console: a pending deletion takes it first, else the
/// open screen's handler.
pub open spec fn key_step(a: AppView, key: Key) -> (AppView, EffectView) {
    if a.delete_confirm_title is Some {
        confirm_key_step(a, key)
    } else {
        match a.screen {
            AppScreen::Dashboard => dashboard_key_step(a, key),
            AppScreen::ListCommands => list_screen_step(a, key, ListMode::Browse),
            AppScreen::UpdateCommandList => list_screen_step(a, key, ListMode::Update),
            AppScreen::DeleteCommandList => list_screen_step(a, key, ListMode::Delete),
            AppScreen::ExportMenu => export_key_step(a, key),
            AppScreen::ImportForm => import_key_step(a, key),
            AppScreen::AddCommand | AppScreen::UpdateCommandForm => form_key_step(a, key),
            AppScreen::AddGroup | AppScreen::UpdateGroupForm => group_key_step(a, key),
        }
    }
}

/// The inputs on which a key press is defined (see the screens' own
/// conditions).
pub open spec fn key_defined(a: AppView, key: Key) -> bool {
    a.delete_confirm_title is Some || match a.screen {
        AppScreen::Dashboard => dashboard_defined(a),
        AppScreen::ListCommands => list_key_defined(a, key, ListMode::Browse),
        AppScreen::UpdateCommandList => list_key_defined(a, key, ListMode::Update),
        AppScreen::DeleteCommandList => list_key_defined(a, key, ListMode::Delete),
        AppScreen::AddGroup | AppScreen::UpdateGroupForm => group_key_defined(a, key),
        _ => true,
    }
}

/// Whether `handle_key_event` is defined on this key press
/// (`key_defined`); where it is not, the console would index past the
/// entries it shows.
pub fn key_is_defined(app: &App, key: Key) -> (r: bool)
    ensures
        r == key_defined(app@, key),
{
    if app.delete_confirm_title.is_some() {
        return true;
    }
    match app.screen {
        AppScreen::Dashboard => app.db.commands.len() <= usize::MAX - app.db.groups.len(),
        AppScreen::ListCommands => list_key_is_defined(app, key, ListMode::Browse),
        AppScreen::UpdateCommandList => list_key_is_defined(app, key, ListMode::Update),
        AppScreen::DeleteCommandList => list_key_is_defined(app, key, ListMode::Delete),
        AppScreen::AddGroup | AppScreen::UpdateGroupForm => {
            let sel = app.group_commands_selected;
            let in_list = app.group_focus == GroupFormField::CommandsList;
            let up_ok = !(key.code == KeyCode::Up && key.shift && in_list && sel > 0) || sel
                < app.group_commands.len();
            let j_ok = !((key.code == KeyCode::Char('j') || key.code == KeyCode::Char('J'))
                && in_list) || sel < usize::MAX;
            up_ok && j_ok
        },
        _ => true,
    }
}

/// A key press on the console; returns the outside action it asks for.
pub fn handle_key_event(app: &mut App, key: Key) -> (e: Effect)
    requires
        key_defined(old(app)@, key),
    ensures
        (final(app)@, e@) == key_step(old(app)@, key),
{
    if app.delete_confirm_title.is_some() {
        match key.code {
            KeyCode::Char(c) => {
                if c == 'y' || c == 'Y' {
                    return confirm_delete(app);
                } else if c == 'n' || c == 'N' {
                    app.delete_confirm_title = None;
                }
            },
            KeyCode::Esc => {
                app.delete_confirm_title = None;
            },
            _ => {},
        }
        return Effect::Nothing;
    }
    match app.screen {
        AppScreen::Dashboard => handle_dashboard_key(app, key),
        AppScreen::ListCommands => handle_list_key(app, key),
        AppScreen::UpdateCommandList => handle_update_list_key(app, key),
        AppScreen::DeleteCommandList => handle_delete_list_key(app, key),
        AppScreen::ExportMenu => handle_export_key(app, key),
        AppScreen::ImportForm => handle_import_key(app, key),
        AppScreen::AddCommand | AppScreen::UpdateCommandForm => handle_form_key_event(app, key),
        AppScreen::AddGroup | AppScreen::UpdateGroupForm => handle_group_form_key_event(app, key),
    }
}

/// Deletes the entry that awaits confirmation.
fn confirm_delete(app: &mut App) -> (e: Effect)
    requires
        old(app).delete_confirm_title is Some,
    ensures
        (final(app)@, e@) == confirm_key_step(old(app)@, Key { code: KeyCode::Char('y'), shift: false, control: false }),
{
    let title = app.delete_confirm_title.take().unwrap();
    let found = if app.delete_confirm_group {
        remove_group(&mut app.db, title.as_str())
    } else {
        remove_command(&mut app.db, title.as_str())
    };
    app.list_selected = 0;
    if found {
        Effect::Save
    } else {
        Effect::Nothing
    }
}

} // verus!
