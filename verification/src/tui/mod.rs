//! The interactive console: which screen it opens on, the state it starts
//! from, and how it reacts to keys.

use vstd::prelude::*;
use crate::app::{
    App, AppScreen, AppView, initial_view, with_edit_form, with_edit_group_form, with_empty_form,
    with_empty_group_form,
};
use crate::db::{Database, DbView, opt_view};
use crate::registry::{command_pos, find_command, find_group, group_pos, lemma_command_pos, lemma_group_pos};
use crate::text::owned;

pub mod events;

verus! {

/// How the console is to be opened: its first screen, an initial search
/// query, and the entry to edit for the edit screens.
pub struct TuiLaunch {
    pub screen: AppScreen,
    pub query: Option<String>,
    pub target: Option<String>,
}

/// The mathematical value of a launch request.
pub struct TuiLaunchView {
    pub screen: AppScreen,
    pub query: Option<Seq<char>>,
    pub target: Option<Seq<char>>,
}

impl View for TuiLaunch {
    type V = TuiLaunchView;

    open spec fn view(&self) -> TuiLaunchView {
        TuiLaunchView {
            screen: self.screen,
            query: opt_view(self.query),
            target: opt_view(self.target),
        }
    }
}

/// A launch on `screen` with the given query and no entry to edit.
pub open spec fn launch_on(screen: AppScreen, query: Option<Seq<char>>) -> TuiLaunchView {
    TuiLaunchView { screen, query, target: None }
}

/// The console on the dashboard.
pub fn run_tui_main_dashboard() -> (l: TuiLaunch)
    ensures
        l@ == launch_on(AppScreen::Dashboard, None),
{
    TuiLaunch { screen: AppScreen::Dashboard, query: None, target: None }
}

/// The console on the registry list, searching for `query`.
pub fn run_tui_list(query: Option<String>) -> (l: TuiLaunch)
    ensures
        l@ == launch_on(AppScreen::ListCommands, opt_view(query)),
{
    TuiLaunch { screen: AppScreen::ListCommands, query, target: None }
}

/// The console on the form that adds a command.
pub fn run_tui_add() -> (l: TuiLaunch)
    ensures
        l@ == launch_on(AppScreen::AddCommand, None),
{
    TuiLaunch { screen: AppScreen::AddCommand, query: None, target: None }
}

/// The console on the list of entries to edit, searching for `query`.
pub fn run_tui_update_list(query: Option<String>) -> (l: TuiLaunch)
    ensures
        l@ == launch_on(AppScreen::UpdateCommandList, opt_view(query)),
{
    TuiLaunch { screen: AppScreen::UpdateCommandList, query, target: None }
}

/// The console on the form that edits the command titled `title`.
pub fn run_tui_update_command(title: &str) -> (l: TuiLaunch)
    ensures
        l@ == (TuiLaunchView { screen: AppScreen::UpdateCommandForm, query: None, target: Some(title@) }),
{
    TuiLaunch { screen: AppScreen::UpdateCommandForm, query: None, target: Some(owned(title)) }
}

/// The console on the form that edits the group named `name`.
pub fn run_tui_update_group(name: &str) -> (l: TuiLaunch)
    ensures
        l@ == (TuiLaunchView { screen: AppScreen::UpdateGroupForm, query: None, target: Some(name@) }),
{
    TuiLaunch { screen: AppScreen::UpdateGroupForm, query: None, target: Some(owned(name)) }
}

/// The console on the list of entries to delete, searching for `query`.
pub fn run_tui_delete_list(query: Option<String>) -> (l: TuiLaunch)
    ensures
        l@ == launch_on(AppScreen::DeleteCommandList, opt_view(query)),
{
    TuiLaunch { screen: AppScreen::DeleteCommandList, query, target: None }
}

/// The console on the export screen.
pub fn run_tui_export() -> (l: TuiLaunch)
    ensures
        l@ == launch_on(AppScreen::ExportMenu, None),
{
    TuiLaunch { screen: AppScreen::ExportMenu, query: None, target: None }
}

/// The console on the import screen.
pub fn run_tui_import() -> (l: TuiLaunch)
    ensures
        l@ == launch_on(AppScreen::ImportForm, None),
{
    TuiLaunch { screen: AppScreen::ImportForm, query: None, target: None }
}

/// The state the console starts from: a fresh console on the launch screen,
/// with the launch query as its search; on an edit form with a target, the
/// form is filled from the first entry of that name, or left empty with the
/// name typed in when there is none.
pub open spec fn launched_view(l: TuiLaunchView, db: DbView) -> AppView {
    let a0 = initial_view(l.screen, db);
    let a1 = match l.query {
        Some(q) => AppView { list_search_query: q, ..a0 },
        None => a0,
    };
    match l.target {
        Some(t) => if l.screen == AppScreen::UpdateCommandForm {
            match command_pos(db.commands, t) {
                Some(i) => with_edit_form(a1, db.commands[i]),
                None => AppView { form_title: t, ..with_empty_form(a1) },
            }
        } else if l.screen == AppScreen::UpdateGroupForm {
            match group_pos(db.groups, t) {
                Some(i) => with_edit_group_form(a1, db.groups[i]),
                None => AppView { group_name: t, ..with_empty_group_form(a1) },
            }
        } else {
            a1
        },
        None => a1,
    }
}

/// The selection brought inside the registry list of the open tab (commands
/// on tab 0, groups otherwise), as the list screen draws it.
pub open spec fn clamped_selection(a: AppView) -> AppView {
    let m = if a.list_tab == 0 {
        a.db.commands.len()
    } else {
        a.db.groups.len()
    };
    if m > 0 && a.list_selected >= m {
        AppView { list_selected: (m - 1) as usize, ..a }
    } else {
        a
    }
}

impl App {
    /// The console that `launch` asks for, over the registry `db`.
    pub fn launch(launch: TuiLaunch, db: Database) -> (app: App)
        ensures
            app@ == launched_view(launch@, db@),
    {
        let screen = launch.screen;
        let mut app = App::new(screen, db);
        match launch.query {
            Some(q) => {
                app.list_search_query = q;
            },
            None => {},
        }
        match launch.target {
            Some(t) => {
                if screen == AppScreen::UpdateCommandForm {
                    proof {
                        lemma_command_pos(app@.db.commands, t@);
                    }
                    match find_command(&app.db.commands, t.as_str()) {
                        Some(pos) => {
                            let cmd = app.db.commands[pos].clone();
                            app.init_form_edit(&cmd);
                        },
                        None => {
                            app.init_form_empty();
                            app.form_title = t;
                        },
                    }
                } else if screen == AppScreen::UpdateGroupForm {
                    proof {
                        lemma_group_pos(app@.db.groups, t@);
                    }
                    match find_group(&app.db.groups, t.as_str()) {
                        Some(pos) => {
                            let grp = app.db.groups[pos].clone();
                            app.init_group_form_edit(&grp);
                        },
                        None => {
                            app.init_group_form_empty();
                            app.group_name = t;
                        },
                    }
                }
            },
            None => {},
        }
        app
    }

    /// Brings the list selection inside the open tab's registry list.
    pub fn clamp_list_selected(&mut self)
        ensures
            final(self)@ == clamped_selection(old(self)@),
    {
        let max_len = if self.list_tab == 0 {
            self.db.commands.len()
        } else {
            self.db.groups.len()
        };
        if max_len > 0 && self.list_selected >= max_len {
            self.list_selected = max_len - 1;
        }
    }
}

} // verus!
