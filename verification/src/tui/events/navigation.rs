//! The dashboard and the backup screens: opening the other screens, running
//! the most used entries, and exporting or importing a backup.

use vstd::prelude::*;
use crate::app::{App, AppScreen, AppView, most_run, with_empty_form, with_empty_group_form};
use crate::db::{Backup, BackupView, restored};
use crate::text::{pop_char, push_char, trim, trimmed};
use crate::tui::events::{Effect, EffectView, ExportKind, Key, KeyCode, pop_last};

verus! {

/// How many entries the dashboard's ranking holds.
pub open spec fn dashboard_len(a: AppView) -> int {
    (a.db.commands.len() + a.db.groups.len()) as int
}

/// The dashboard with its selection brought inside the ranking.
pub open spec fn dashboard_base(a: AppView) -> AppView {
    let n = dashboard_len(a);
    if n == 0 {
        AppView { dashboard_selected: 0, ..a }
    } else if a.dashboard_selected >= n {
        AppView { dashboard_selected: (n - 1) as usize, ..a }
    } else {
        a
    }
}

/// Running the selected entry of the dashboard's ranking.
pub open spec fn dashboard_run(a: AppView) -> EffectView {
    let items = most_run(a.db);
    if items.len() > 0 && a.dashboard_selected < items.len() {
        let it = items[a.dashboard_selected as int];
        if it.is_group {
            EffectView::RunGroup(it.name)
        } else {
            EffectView::RunCommand(it.name)
        }
    } else {
        EffectView::Nothing
    }
}

/// A letter key on the dashboard (after the selection is brought inside).
pub open spec fn dashboard_char_step(b: AppView, c: char) -> (AppView, EffectView) {
    if c == 'q' || c == 'Q' {
        (AppView { should_quit: true, ..b }, EffectView::Nothing)
    } else if c == 'l' || c == 'L' {
        (
            AppView { screen: AppScreen::ListCommands, list_selected: 0, list_tab: 0, ..b },
            EffectView::Nothing,
        )
    } else if c == 'a' || c == 'A' {
        (AppView { screen: AppScreen::AddCommand, ..with_empty_form(b) }, EffectView::Nothing)
    } else if c == 'g' || c == 'G' {
        (AppView { screen: AppScreen::AddGroup, ..with_empty_group_form(b) }, EffectView::Nothing)
    } else if c == 'u' || c == 'U' {
        (
            AppView { screen: AppScreen::UpdateCommandList, list_selected: 0, list_tab: 0, ..b },
            EffectView::Nothing,
        )
    } else if c == 'd' || c == 'D' {
        (
            AppView { screen: AppScreen::DeleteCommandList, list_selected: 0, list_tab: 0, ..b },
            EffectView::Nothing,
        )
    } else if c == 'e' || c == 'E' {
        (
            AppView { screen: AppScreen::ExportMenu, export_selected: 0, export_message: None, ..b },
            EffectView::Nothing,
        )
    } else if c == 'i' || c == 'I' {
        (
            AppView {
                screen: AppScreen::ImportForm,
                import_path: Seq::empty(),
                import_message: None,
                ..b
            },
            EffectView::Nothing,
        )
    } else if c == 'r' || c == 'R' {
        (b, dashboard_run(b))
    } else {
        (b, EffectView::Nothing)
    }
}

/// A key press on the dashboard: the selection is first brought inside the
/// ranking; Q and Esc quit, letters open the other screens, Up and Down move
/// the selection, Enter and R run the selected entry.
pub open spec fn dashboard_key_step(a: AppView, key: Key) -> (AppView, EffectView) {
    let b = dashboard_base(a);
    let n = dashboard_len(a);
    match key.code {
        KeyCode::Esc => (AppView { should_quit: true, ..b }, EffectView::Nothing),
        KeyCode::Char(c) => dashboard_char_step(b, c),
        KeyCode::Up => if b.dashboard_selected > 0 {
            (
                AppView { dashboard_selected: (b.dashboard_selected - 1) as usize, ..b },
                EffectView::Nothing,
            )
        } else {
            (b, EffectView::Nothing)
        },
        KeyCode::Down => if n > 0 && b.dashboard_selected < n - 1 {
            (
                AppView { dashboard_selected: (b.dashboard_selected + 1) as usize, ..b },
                EffectView::Nothing,
            )
        } else {
            (b, EffectView::Nothing)
        },
        KeyCode::Enter => (b, dashboard_run(b)),
        _ => (b, EffectView::Nothing),
    }
}

/// The dashboard counts its entries in a `usize`.
pub open spec fn dashboard_defined(a: AppView) -> bool {
    dashboard_len(a) <= usize::MAX
}

/// Runs the selected entry of the dashboard's ranking.
fn dashboard_run_exec(app: &App) -> (e: Effect)
    ensures
        e@ == dashboard_run(app@),
{
    let items = app.most_run_items();
    if !items.is_empty() && app.dashboard_selected < items.len() {
        let ghost it = most_run(app@.db)[app.dashboard_selected as int];
        assert(it == items@[app.dashboard_selected as int]@);
        let name = items[app.dashboard_selected].name.clone();
        if items[app.dashboard_selected].is_group {
            Effect::RunGroup(name)
        } else {
            Effect::RunCommand(name)
        }
    } else {
        Effect::Nothing
    }
}

/// A letter key on the dashboard.
fn dashboard_char(app: &mut App, c: char) -> (e: Effect)
    ensures
        (final(app)@, e@) == dashboard_char_step(old(app)@, c),
{
    if c == 'q' || c == 'Q' {
        app.should_quit = true;
    } else if c == 'l' || c == 'L' {
        app.screen = AppScreen::ListCommands;
        app.list_selected = 0;
        app.list_tab = 0;
    } else if c == 'a' || c == 'A' {
        app.init_form_empty();
        app.screen = AppScreen::AddCommand;
    } else if c == 'g' || c == 'G' {
        app.init_group_form_empty();
        app.screen = AppScreen::AddGroup;
    } else if c == 'u' || c == 'U' {
        app.screen = AppScreen::UpdateCommandList;
        app.list_selected = 0;
        app.list_tab = 0;
    } else if c == 'd' || c == 'D' {
        app.screen = AppScreen::DeleteCommandList;
        app.list_selected = 0;
        app.list_tab = 0;
    } else if c == 'e' || c == 'E' {
        app.screen = AppScreen::ExportMenu;
        app.export_selected = 0;
        app.export_message = None;
    } else if c == 'i' || c == 'I' {
        app.screen = AppScreen::ImportForm;
        app.import_path = String::new();
        app.import_message = None;
    } else if c == 'r' || c == 'R' {
        return dashboard_run_exec(app);
    }
    Effect::Nothing
}

/// A key press on the dashboard.
pub fn handle_dashboard_key(app: &mut App, key: Key) -> (e: Effect)
    requires
        dashboard_defined(old(app)@),
    ensures
        (final(app)@, e@) == dashboard_key_step(old(app)@, key),
{
    let sorted_len = app.db.commands.len() + app.db.groups.len();
    if sorted_len == 0 {
        app.dashboard_selected = 0;
    } else if app.dashboard_selected >= sorted_len {
        app.dashboard_selected = sorted_len - 1;
    }
    match key.code {
        KeyCode::Esc => {
            app.should_quit = true;
            Effect::Nothing
        },
        KeyCode::Char(c) => dashboard_char(app, c),
        KeyCode::Up => {
            if app.dashboard_selected > 0 {
                app.dashboard_selected = app.dashboard_selected - 1;
            }
            Effect::Nothing
        },
        KeyCode::Down => {
            if sorted_len > 0 && app.dashboard_selected < sorted_len - 1 {
                app.dashboard_selected = app.dashboard_selected + 1;
            }
            Effect::Nothing
        },
        KeyCode::Enter => dashboard_run_exec(app),
        _ => Effect::Nothing,
    }
}

/// The part of the registry that export option `i` writes: commands for 0,
/// groups for 1, everything otherwise.
pub open spec fn export_kind_of(i: usize) -> ExportKind {
    if i == 0 {
        ExportKind::Commands
    } else if i == 1 {
        ExportKind::Groups
    } else {
        ExportKind::Everything
    }
}

/// A key press on the export screen.
pub open spec fn export_key_step(a: AppView, key: Key) -> (AppView, EffectView) {
    match key.code {
        KeyCode::Esc => (AppView { screen: AppScreen::Dashboard, ..a }, EffectView::Nothing),
        KeyCode::Up => if a.export_selected > 0 {
            (
                AppView { export_selected: (a.export_selected - 1) as usize, ..a },
                EffectView::Nothing,
            )
        } else {
            (a, EffectView::Nothing)
        },
        KeyCode::Down => if a.export_selected < 2 {
            (
                AppView { export_selected: (a.export_selected + 1) as usize, ..a },
                EffectView::Nothing,
            )
        } else {
            (a, EffectView::Nothing)
        },
        KeyCode::Enter => (a, EffectView::Export(export_kind_of(a.export_selected))),
        _ => (a, EffectView::Nothing),
    }
}

/// A key press on the export screen; Enter asks for the export.
pub fn handle_export_key(app: &mut App, key: Key) -> (e: Effect)
    ensures
        (final(app)@, e@) == export_key_step(old(app)@, key),
{
    match key.code {
        KeyCode::Esc => {
            app.screen = AppScreen::Dashboard;
            Effect::Nothing
        },
        KeyCode::Up => {
            if app.export_selected > 0 {
                app.export_selected = app.export_selected - 1;
            }
            Effect::Nothing
        },
        KeyCode::Down => {
            if app.export_selected < 2 {
                app.export_selected = app.export_selected + 1;
            }
            Effect::Nothing
        },
        KeyCode::Enter => {
            let kind = if app.export_selected == 0 {
                ExportKind::Commands
            } else if app.export_selected == 1 {
                ExportKind::Groups
            } else {
                ExportKind::Everything
            };
            Effect::Export(kind)
        },
        _ => Effect::Nothing,
    }
}

/// The file that exports are written to.
pub open spec fn backup_file_name() -> Seq<char> {
    "aliace_backup.json"@
}

/// The file that exports are written to.
pub fn export_file_name() -> (s: String)
    ensures
        s@ == backup_file_name(),
{
    String::from_str("aliace_backup.json")
}

/// The message for an export that went through or failed with `result`.
pub open spec fn export_message_of(result: Result<(), Seq<char>>) -> Seq<char> {
    match result {
        Ok(_) => "Exported successfully to "@ + backup_file_name(),
        Err(e) => "Error: "@ + e,
    }
}

impl App {
    /// Records how an export went.
    pub fn finish_export(&mut self, result: Result<(), String>)
        ensures
            final(self)@ == (AppView {
                export_message: Some(
                    export_message_of(
                        match result {
                            Ok(u) => Ok(u),
                            Err(e) => Err(e@),
                        },
                    ),
                ),
                ..old(self)@
            }),
    {
        let msg = match result {
            Ok(_) => {
                let mut m = String::from_str("Exported successfully to ");
                let f = export_file_name();
                m.append(f.as_str());
                m
            },
            Err(e) => {
                let mut m = String::from_str("Error: ");
                m.append(e.as_str());
                m
            },
        };
        self.export_message = Some(msg);
    }
}

/// A key press on the import screen.
pub open spec fn import_key_step(a: AppView, key: Key) -> (AppView, EffectView) {
    match key.code {
        KeyCode::Esc => (AppView { screen: AppScreen::Dashboard, ..a }, EffectView::Nothing),
        KeyCode::Char(c) => (AppView { import_path: a.import_path.push(c), ..a }, EffectView::Nothing),
        KeyCode::Backspace => (
            AppView { import_path: pop_last(a.import_path), ..a },
            EffectView::Nothing,
        ),
        KeyCode::Enter => (a, EffectView::Import(trimmed(a.import_path))),
        _ => (a, EffectView::Nothing),
    }
}

/// A key press on the import screen; Enter asks to import the typed path.
pub fn handle_import_key(app: &mut App, key: Key) -> (e: Effect)
    ensures
        (final(app)@, e@) == import_key_step(old(app)@, key),
{
    match key.code {
        KeyCode::Esc => {
            app.screen = AppScreen::Dashboard;
            Effect::Nothing
        },
        KeyCode::Char(c) => {
            push_char(&mut app.import_path, c);
            Effect::Nothing
        },
        KeyCode::Backspace => {
            pop_char(&mut app.import_path);
            Effect::Nothing
        },
        KeyCode::Enter => Effect::Import(trim(app.import_path.as_str())),
        _ => Effect::Nothing,
    }
}

/// What reading a backup file gave.
pub enum ImportOutcome {
    /// No file at the path.
    FileNotFound,
    /// The file could not be read; the reason.
    ReadFailed(String),
    /// The file holds a backup.
    Parsed(Backup),
    /// The file holds none of the backup formats.
    Invalid,
}

/// The mathematical value of an import outcome.
pub enum ImportOutcomeView {
    FileNotFound,
    ReadFailed(Seq<char>),
    Parsed(BackupView),
    Invalid,
}

impl View for ImportOutcome {
    type V = ImportOutcomeView;

    open spec fn view(&self) -> ImportOutcomeView {
        match self {
            ImportOutcome::FileNotFound => ImportOutcomeView::FileNotFound,
            ImportOutcome::ReadFailed(e) => ImportOutcomeView::ReadFailed(e@),
            ImportOutcome::Parsed(b) => ImportOutcomeView::Parsed(b@),
            ImportOutcome::Invalid => ImportOutcomeView::Invalid,
        }
    }
}

/// The message that the import screen shows for a backup that was restored.
pub open spec fn restored_message(b: BackupView) -> Seq<char> {
    match b {
        BackupView::Everything(_) => "Imported Everything successfully!"@,
        BackupView::Commands(_) => "Imported Commands list successfully!"@,
        BackupView::Groups(_) => "Imported Groups list successfully!"@,
    }
}

/// Applying the outcome of an import: a parsed backup is restored and
/// written; every outcome leaves a message.
pub open spec fn import_outcome_step(a: AppView, o: ImportOutcomeView) -> (AppView, EffectView) {
    match o {
        ImportOutcomeView::FileNotFound => (
            AppView { import_message: Some("Error: File not found"@), ..a },
            EffectView::Nothing,
        ),
        ImportOutcomeView::ReadFailed(e) => (
            AppView { import_message: Some("Error: "@ + e), ..a },
            EffectView::Nothing,
        ),
        ImportOutcomeView::Parsed(b) => (
            AppView { db: restored(a.db, b), import_message: Some(restored_message(b)), ..a },
            EffectView::Save,
        ),
        ImportOutcomeView::Invalid => (
            AppView { import_message: Some("Error: Invalid JSON format"@), ..a },
            EffectView::Nothing,
        ),
    }
}

impl App {
    /// Applies what reading the backup file gave.
    pub fn finish_import(&mut self, outcome: ImportOutcome) -> (e: Effect)
        ensures
            (final(self)@, e@) == import_outcome_step(old(self)@, outcome@),
    {
        match outcome {
            ImportOutcome::FileNotFound => {
                self.import_message = Some(String::from_str("Error: File not found"));
                Effect::Nothing
            },
            ImportOutcome::ReadFailed(err) => {
                let mut m = String::from_str("Error: ");
                m.append(err.as_str());
                self.import_message = Some(m);
                Effect::Nothing
            },
            ImportOutcome::Parsed(b) => {
                let msg = match &b {
                    Backup::Everything(_) => String::from_str("Imported Everything successfully!"),
                    Backup::Commands(_) => String::from_str("Imported Commands list successfully!"),
                    Backup::Groups(_) => String::from_str("Imported Groups list successfully!"),
                };
                self.db.restore(b);
                self.import_message = Some(msg);
                Effect::Save
            },
            ImportOutcome::Invalid => {
                self.import_message = Some(String::from_str("Error: Invalid JSON format"));
                Effect::Nothing
            },
        }
    }
}

} // verus!
