//! The tabbed list screens (commands, groups, favourites): search, selection,
//! reordering by grabbing an entry, favourites, and the actions on the
//! selected entry.

use vstd::prelude::*;
use crate::app::{
    App, AppScreen, AppView, ItemView, filtered_commands, filtered_favorites, filtered_groups,
    toggled_favorite, favorite_found, with_edit_form, with_edit_group_form, with_empty_form,
    with_empty_group_form,
};
use crate::db::{DbView, command_views, group_views};
use crate::registry::{
    command_pos, find_command, find_group, group_pos, lemma_command_pos, lemma_group_pos,
};
use crate::text::{pop_char, push_char};
use crate::tui::events::{Effect, EffectView, Key, KeyCode, pop_last};
use crate::tui::events::group_forms::swapped;
use crate::vecs::swap_at;

verus! {

/// How many entries the open tab shows: commands on tab 0, groups on tab 1;
/// favourites on a higher tab number, which no key press opens.
pub open spec fn tab_len(a: AppView) -> int {
    if a.list_tab == 0 {
        filtered_commands(a).len() as int
    } else if a.list_tab == 1 {
        filtered_groups(a).len() as int
    } else {
        filtered_favorites(a).len() as int
    }
}

/// The selection points into the open tab, or the tab is empty.
pub open spec fn selection_ok(a: AppView) -> bool {
    tab_len(a) == 0 || a.list_selected < tab_len(a)
}

/// A key press while typing a search query.
pub open spec fn search_key_step(a: AppView, key: Key) -> AppView {
    match key.code {
        KeyCode::Esc => AppView { list_is_searching: false, ..a },
        KeyCode::Char(c) => AppView {
            list_search_query: a.list_search_query.push(c),
            list_selected: 0,
            ..a
        },
        KeyCode::Backspace => AppView {
            list_search_query: pop_last(a.list_search_query),
            list_selected: 0,
            ..a
        },
        KeyCode::Left => if a.list_tab > 0 {
            AppView { list_tab: (a.list_tab - 1) as usize, list_selected: 0, ..a }
        } else {
            a
        },
        KeyCode::Right => if a.list_tab == 0 {
            AppView { list_tab: 1, list_selected: 0, ..a }
        } else {
            a
        },
        KeyCode::Up => if a.list_selected > 0 {
            AppView { list_selected: (a.list_selected - 1) as usize, ..a }
        } else {
            a
        },
        KeyCode::Down => if tab_len(a) > 0 && a.list_selected < tab_len(a) - 1 {
            AppView { list_selected: (a.list_selected + 1) as usize, ..a }
        } else {
            a
        },
        _ => a,
    }
}

/// Exchanging the registry positions of the `i`th and `j`th shown commands.
pub open spec fn swap_commands_step(a: AppView, i: int, j: int) -> (AppView, EffectView) {
    let f = filtered_commands(a);
    if 0 <= i < f.len() && 0 <= j < f.len() {
        match (command_pos(a.db.commands, f[i].title), command_pos(a.db.commands, f[j].title)) {
            (Some(p), Some(q)) => (
                AppView {
                    db: DbView { commands: swapped(a.db.commands, p, q), ..a.db },
                    ..a
                },
                EffectView::Save,
            ),
            _ => (a, EffectView::Nothing),
        }
    } else {
        (a, EffectView::Nothing)
    }
}

/// Exchanging the registry positions of the `i`th and `j`th shown groups.
pub open spec fn swap_groups_step(a: AppView, i: int, j: int) -> (AppView, EffectView) {
    let f = filtered_groups(a);
    if 0 <= i < f.len() && 0 <= j < f.len() {
        match (group_pos(a.db.groups, f[i].name), group_pos(a.db.groups, f[j].name)) {
            (Some(p), Some(q)) => (
                AppView { db: DbView { groups: swapped(a.db.groups, p, q), ..a.db }, ..a },
                EffectView::Save,
            ),
            _ => (a, EffectView::Nothing),
        }
    } else {
        (a, EffectView::Nothing)
    }
}

/// Exchanging the registry positions of the `i`th and `j`th shown
/// favourites, when both are commands or both are groups.
pub open spec fn swap_favorites_step(a: AppView, i: int, j: int) -> (AppView, EffectView) {
    let f = filtered_favorites(a);
    if 0 <= i < f.len() && 0 <= j < f.len() && f[i].is_group == f[j].is_group {
        if f[i].is_group {
            match (group_pos(a.db.groups, f[i].name), group_pos(a.db.groups, f[j].name)) {
                (Some(p), Some(q)) => (
                    AppView { db: DbView { groups: swapped(a.db.groups, p, q), ..a.db }, ..a },
                    EffectView::Save,
                ),
                _ => (a, EffectView::Nothing),
            }
        } else {
            match (
                command_pos(a.db.commands, f[i].name),
                command_pos(a.db.commands, f[j].name),
            ) {
                (Some(p), Some(q)) => (
                    AppView {
                        db: DbView { commands: swapped(a.db.commands, p, q), ..a.db },
                        ..a
                    },
                    EffectView::Save,
                ),
                _ => (a, EffectView::Nothing),
            }
        }
    } else {
        (a, EffectView::Nothing)
    }
}

/// Exchanging two shown entries of the open tab.
pub open spec fn swap_step(a: AppView, i: int, j: int) -> (AppView, EffectView) {
    if a.list_tab == 0 {
        swap_commands_step(a, i, j)
    } else if a.list_tab == 1 {
        swap_groups_step(a, i, j)
    } else {
        swap_favorites_step(a, i, j)
    }
}

/// Flipping the favourite mark of the entry called `name`.
pub open spec fn favorite_step(a: AppView, name: Seq<char>, is_group: bool) -> (AppView, EffectView) {
    (
        AppView { db: toggled_favorite(a.db, name, is_group), ..a },
        if favorite_found(a.db, name, is_group) {
            EffectView::Save
        } else {
            EffectView::Nothing
        },
    )
}

/// F: flipping the favourite mark of the selected entry of the open tab.
pub open spec fn favorite_selected_step(a: AppView) -> (AppView, EffectView) {
    let sel = a.list_selected as int;
    if a.list_tab == 0 {
        let f = filtered_commands(a);
        if f.len() > 0 {
            favorite_step(a, f[sel].title, false)
        } else {
            (a, EffectView::Nothing)
        }
    } else if a.list_tab == 1 {
        let f = filtered_groups(a);
        if f.len() > 0 {
            favorite_step(a, f[sel].name, true)
        } else {
            (a, EffectView::Nothing)
        }
    } else {
        let f = filtered_favorites(a);
        if f.len() > 0 {
            favorite_step(a, f[sel].name, f[sel].is_group)
        } else {
            (a, EffectView::Nothing)
        }
    }
}

/// Moving the grabbed entry from `g` to `to`, the selection following it.
pub open spec fn move_grabbed(a: AppView, g: usize, to: usize) -> (AppView, EffectView) {
    let (b, e) = swap_step(a, g as int, to as int);
    (AppView { list_selected: to, list_grabbed: Some(to), ..b }, e)
}

/// The keys that every list screen shares: Tab grabs or releases the
/// selected entry, F flips a favourite, Up and Down move a grabbed entry, Esc
/// releases it. The first component tells whether the key was one of these.
pub open spec fn common_key_step(a: AppView, key: Key) -> (bool, AppView, EffectView) {
    match key.code {
        KeyCode::Tab => if a.list_grabbed is Some {
            (true, AppView { list_grabbed: None, ..a }, EffectView::Nothing)
        } else if tab_len(a) > 0 {
            (true, AppView { list_grabbed: Some(a.list_selected), ..a }, EffectView::Nothing)
        } else {
            (true, a, EffectView::Nothing)
        },
        KeyCode::Char(c) => if c == 'f' || c == 'F' {
            let (b, e) = favorite_selected_step(a);
            (true, b, e)
        } else {
            (false, a, EffectView::Nothing)
        },
        KeyCode::Up => match a.list_grabbed {
            Some(g) => if g > 0 {
                let (b, e) = move_grabbed(a, g, (g - 1) as usize);
                (true, b, e)
            } else {
                (true, a, EffectView::Nothing)
            },
            None => (false, a, EffectView::Nothing),
        },
        KeyCode::Down => match a.list_grabbed {
            Some(g) => if g < tab_len(a) - 1 {
                let (b, e) = move_grabbed(a, g, (g + 1) as usize);
                (true, b, e)
            } else {
                (true, a, EffectView::Nothing)
            },
            None => (false, a, EffectView::Nothing),
        },
        KeyCode::Esc => if a.list_grabbed is Some {
            (true, AppView { list_grabbed: None, ..a }, EffectView::Nothing)
        } else {
            (false, a, EffectView::Nothing)
        },
        _ => (false, a, EffectView::Nothing),
    }
}

/// The shared keys are defined except where the console would index past the
/// shown entries: F needs the selection inside the open tab, and Down on a
/// grabbed entry needs the tab to be non-empty.
pub open spec fn common_key_defined(a: AppView, key: Key) -> bool {
    &&& (key.code == KeyCode::Char('f') || key.code == KeyCode::Char('F')) ==> selection_ok(a)
    &&& (key.code == KeyCode::Down && a.list_grabbed is Some) ==> tab_len(a) > 0
}

/// Navigation on a list screen once the shared keys are handled: Esc clears
/// the query or leaves to the dashboard, `/` starts a search, Left and Right
/// switch tabs, Up and Down move the selection. None for any other key.
pub open spec fn list_nav_step(a: AppView, key: Key) -> Option<AppView> {
    match key.code {
        KeyCode::Esc => Some(
            if a.list_search_query.len() > 0 {
                AppView { list_search_query: Seq::empty(), list_selected: 0, ..a }
            } else {
                AppView { screen: AppScreen::Dashboard, ..a }
            },
        ),
        KeyCode::Char(c) => if c == '/' {
            Some(AppView { list_is_searching: true, ..a })
        } else {
            None
        },
        KeyCode::Left => Some(
            if a.list_tab > 0 {
                AppView {
                    list_tab: (a.list_tab - 1) as usize,
                    list_selected: 0,
                    list_grabbed: None,
                    ..a
                }
            } else {
                a
            },
        ),
        KeyCode::Right => Some(
            if a.list_tab == 0 {
                AppView {
                    list_tab: 1,
                    list_selected: 0,
                    list_grabbed: None,
                    ..a
                }
            } else {
                a
            },
        ),
        KeyCode::Up => Some(
            if a.list_selected > 0 {
                AppView { list_selected: (a.list_selected - 1) as usize, ..a }
            } else {
                a
            },
        ),
        KeyCode::Down => Some(
            if tab_len(a) > 0 && a.list_selected < tab_len(a) - 1 {
                AppView { list_selected: (a.list_selected + 1) as usize, ..a }
            } else {
                a
            },
        ),
        _ => None,
    }
}

/// Opening the edit form on the selected entry of the open tab (a favourite
/// is looked up in the registry by name).
pub open spec fn edit_selected(a: AppView) -> AppView {
    let sel = a.list_selected as int;
    if a.list_tab == 0 {
        let f = filtered_commands(a);
        if f.len() > 0 {
            AppView { screen: AppScreen::UpdateCommandForm, ..with_edit_form(a, f[sel]) }
        } else {
            a
        }
    } else if a.list_tab == 1 {
        let f = filtered_groups(a);
        if f.len() > 0 {
            AppView { screen: AppScreen::UpdateGroupForm, ..with_edit_group_form(a, f[sel]) }
        } else {
            a
        }
    } else {
        let f = filtered_favorites(a);
        if f.len() > 0 {
            let it = f[sel];
            if it.is_group {
                match group_pos(a.db.groups, it.name) {
                    Some(i) => AppView {
                        screen: AppScreen::UpdateGroupForm,
                        ..with_edit_group_form(a, a.db.groups[i])
                    },
                    None => a,
                }
            } else {
                match command_pos(a.db.commands, it.name) {
                    Some(i) => AppView {
                        screen: AppScreen::UpdateCommandForm,
                        ..with_edit_form(a, a.db.commands[i])
                    },
                    None => a,
                }
            }
        } else {
            a
        }
    }
}

/// Asking to confirm the deletion of the selected entry of the open tab.
pub open spec fn delete_selected(a: AppView) -> AppView {
    let sel = a.list_selected as int;
    if a.list_tab == 0 {
        let f = filtered_commands(a);
        if f.len() > 0 {
            AppView { delete_confirm_title: Some(f[sel].title), delete_confirm_group: false, ..a }
        } else {
            a
        }
    } else if a.list_tab == 1 {
        let f = filtered_groups(a);
        if f.len() > 0 {
            AppView { delete_confirm_title: Some(f[sel].name), delete_confirm_group: true, ..a }
        } else {
            a
        }
    } else {
        let f = filtered_favorites(a);
        if f.len() > 0 {
            AppView {
                delete_confirm_title: Some(f[sel].name),
                delete_confirm_group: f[sel].is_group,
                ..a
            }
        } else {
            a
        }
    }
}

/// Running the selected entry of the open tab.
pub open spec fn run_selected(a: AppView) -> EffectView {
    let sel = a.list_selected as int;
    if a.list_tab == 0 {
        let f = filtered_commands(a);
        if f.len() > 0 {
            EffectView::RunCommand(f[sel].title)
        } else {
            EffectView::Nothing
        }
    } else if a.list_tab == 1 {
        let f = filtered_groups(a);
        if f.len() > 0 {
            EffectView::RunGroup(f[sel].name)
        } else {
            EffectView::Nothing
        }
    } else {
        let f = filtered_favorites(a);
        if f.len() > 0 {
            if f[sel].is_group {
                EffectView::RunGroup(f[sel].name)
            } else {
                EffectView::RunCommand(f[sel].name)
            }
        } else {
            EffectView::Nothing
        }
    }
}

/// Which screen-specific actions a list screen offers.
#[derive(Copy, Clone, PartialEq, Eq, Debug, Structural)]
pub enum ListMode {
    /// The registry list: run, edit, delete, add.
    Browse,
    /// Choosing an entry to edit.
    Update,
    /// Choosing an entry to delete.
    Delete,
}

/// The screen-specific keys of a list screen.
pub open spec fn list_action_step(a: AppView, key: Key, mode: ListMode) -> (AppView, EffectView) {
    match mode {
        ListMode::Browse => match key.code {
            KeyCode::Char(c) => if c == 'a' || c == 'A' {
                (AppView { screen: AppScreen::AddCommand, ..with_empty_form(a) }, EffectView::Nothing)
            } else if c == 'g' || c == 'G' {
                (
                    AppView { screen: AppScreen::AddGroup, ..with_empty_group_form(a) },
                    EffectView::Nothing,
                )
            } else if c == 'e' || c == 'E' {
                (edit_selected(a), EffectView::Nothing)
            } else if c == 'd' || c == 'D' {
                (delete_selected(a), EffectView::Nothing)
            } else if c == 'r' || c == 'R' {
                (a, run_selected(a))
            } else {
                (a, EffectView::Nothing)
            },
            KeyCode::Enter => (a, run_selected(a)),
            _ => (a, EffectView::Nothing),
        },
        ListMode::Update => match key.code {
            KeyCode::Char(c) => if c == 'e' || c == 'E' {
                (edit_selected(a), EffectView::Nothing)
            } else {
                (a, EffectView::Nothing)
            },
            KeyCode::Enter => (edit_selected(a), EffectView::Nothing),
            _ => (a, EffectView::Nothing),
        },
        ListMode::Delete => match key.code {
            KeyCode::Char(c) => if c == 'd' || c == 'D' {
                (delete_selected(a), EffectView::Nothing)
            } else {
                (a, EffectView::Nothing)
            },
            KeyCode::Enter => (delete_selected(a), EffectView::Nothing),
            _ => (a, EffectView::Nothing),
        },
    }
}

/// Whether a key is one that acts on the selected entry in the given mode.
pub open spec fn acts_on_selection(key: Key, mode: ListMode) -> bool {
    match key.code {
        KeyCode::Enter => true,
        KeyCode::Char(c) => match mode {
            ListMode::Browse => c == 'e' || c == 'E' || c == 'd' || c == 'D' || c == 'r' || c == 'R',
            ListMode::Update => c == 'e' || c == 'E',
            ListMode::Delete => c == 'd' || c == 'D',
        },
        _ => false,
    }
}

/// The state in which a non-search key is handled: Enter ends a search first.
pub open spec fn list_base(a: AppView) -> AppView {
    if a.list_is_searching {
        AppView { list_is_searching: false, ..a }
    } else {
        a
    }
}

/// A key press on a list screen: while searching, keys edit the query
/// (Enter ends the search and is then handled as below); otherwise the shared
/// keys, then navigation, then the screen's own actions.
pub open spec fn list_screen_step(a: AppView, key: Key, mode: ListMode) -> (AppView, EffectView) {
    if a.list_is_searching && key.code != KeyCode::Enter {
        (search_key_step(a, key), EffectView::Nothing)
    } else {
        let b = list_base(a);
        let (handled, c, e) = common_key_step(b, key);
        if handled {
            (c, e)
        } else {
            match list_nav_step(b, key) {
                Some(d) => (d, EffectView::Nothing),
                None => list_action_step(b, key, mode),
            }
        }
    }
}

/// The inputs on which a list key press is defined: the shared keys'
/// conditions, and a selection inside the open tab for a key that acts on it.
pub open spec fn list_key_defined(a: AppView, key: Key, mode: ListMode) -> bool {
    (a.list_is_searching && key.code != KeyCode::Enter) || {
        let b = list_base(a);
        &&& common_key_defined(b, key)
        &&& acts_on_selection(key, mode) ==> selection_ok(b)
    }
}

// ---------------------------------------------------------------------------
// Implementation
// ---------------------------------------------------------------------------

/// How many entries the open tab shows.
pub fn open_tab_len(app: &App) -> (n: usize)
    ensures
        n == tab_len(app@),
{
    if app.list_tab == 0 {
        app.get_filtered_commands().len()
    } else if app.list_tab == 1 {
        app.get_filtered_groups().len()
    } else {
        app.get_filtered_favorites().len()
    }
}

/// Whether a key press on a list screen is one on which the list handlers
/// are defined (`list_key_defined`).
pub fn list_key_is_defined(app: &App, key: Key, mode: ListMode) -> (r: bool)
    ensures
        r == list_key_defined(app@, key, mode),
{
    if app.list_is_searching && key.code != KeyCode::Enter {
        return true;
    }
    let n = open_tab_len(app);
    proof {
        assert(tab_len(list_base(app@)) == tab_len(app@));
    }
    let sel_ok = n == 0 || app.list_selected < n;
    let f_key = key.code == KeyCode::Char('f') || key.code == KeyCode::Char('F');
    let grabbed_down = key.code == KeyCode::Down && app.list_grabbed.is_some();
    let acts = match key.code {
        KeyCode::Enter => true,
        KeyCode::Char(c) => match mode {
            ListMode::Browse => c == 'e' || c == 'E' || c == 'd' || c == 'D' || c == 'r' || c == 'R',
            ListMode::Update => c == 'e' || c == 'E',
            ListMode::Delete => c == 'd' || c == 'D',
        },
        _ => false,
    };
    (!f_key || sel_ok) && (!grabbed_down || n > 0) && (!acts || sel_ok)
}

/// A key press while typing a search query.
pub fn handle_search_key(app: &mut App, key: Key)
    ensures
        final(app)@ == search_key_step(old(app)@, key),
{
    match key.code {
        KeyCode::Esc => {
            app.list_is_searching = false;
        },
        KeyCode::Char(c) => {
            push_char(&mut app.list_search_query, c);
            app.list_selected = 0;
        },
        KeyCode::Backspace => {
            pop_char(&mut app.list_search_query);
            app.list_selected = 0;
        },
        KeyCode::Left => {
            if app.list_tab > 0 {
                app.list_tab = app.list_tab - 1;
                app.list_selected = 0;
            }
        },
        KeyCode::Right => {
            if app.list_tab == 0 {
                app.list_tab = 1;
                app.list_selected = 0;
            }
        },
        KeyCode::Up => {
            if app.list_selected > 0 {
                app.list_selected = app.list_selected - 1;
            }
        },
        KeyCode::Down => {
            let max_len = open_tab_len(app);
            if max_len > 0 && app.list_selected < max_len - 1 {
                app.list_selected = app.list_selected + 1;
            }
        },
        _ => {},
    }
}

/// Exchanges two commands of the registry by their positions.
fn swap_registry_commands(app: &mut App, p: usize, q: usize)
    requires
        p < old(app).db.commands@.len(),
        q < old(app).db.commands@.len(),
    ensures
        final(app)@ == (AppView {
            db: DbView { commands: swapped(old(app)@.db.commands, p as int, q as int), ..old(app)@.db },
            ..old(app)@
        }),
{
    let ghost before = app.db.commands@;
    swap_at(&mut app.db.commands, p, q);
    assert(command_views(app.db.commands@) =~= swapped(command_views(before), p as int, q as int));
}

/// Exchanges two groups of the registry by their positions.
fn swap_registry_groups(app: &mut App, p: usize, q: usize)
    requires
        p < old(app).db.groups@.len(),
        q < old(app).db.groups@.len(),
    ensures
        final(app)@ == (AppView {
            db: DbView { groups: swapped(old(app)@.db.groups, p as int, q as int), ..old(app)@.db },
            ..old(app)@
        }),
{
    let ghost before = app.db.groups@;
    swap_at(&mut app.db.groups, p, q);
    assert(group_views(app.db.groups@) =~= swapped(group_views(before), p as int, q as int));
}

/// Exchanges the registry positions of the `idx1`th and `idx2`th shown
/// commands.
pub fn swap_commands(app: &mut App, idx1: usize, idx2: usize) -> (e: Effect)
    ensures
        (final(app)@, e@) == swap_commands_step(old(app)@, idx1 as int, idx2 as int),
{
    let filtered = app.get_filtered_commands();
    if idx1 < filtered.len() && idx2 < filtered.len() {
        let p = find_command(&app.db.commands, filtered[idx1].title.as_str());
        let q = find_command(&app.db.commands, filtered[idx2].title.as_str());
        proof {
            assert(filtered_commands(app@)[idx1 as int] == filtered@[idx1 as int]@);
            assert(filtered_commands(app@)[idx2 as int] == filtered@[idx2 as int]@);
        }
        match (p, q) {
            (Some(p), Some(q)) => {
                proof {
                    lemma_command_pos(app@.db.commands, filtered@[idx1 as int]@.title);
                    lemma_command_pos(app@.db.commands, filtered@[idx2 as int]@.title);
                }
                swap_registry_commands(app, p, q);
                Effect::Save
            },
            _ => Effect::Nothing,
        }
    } else {
        Effect::Nothing
    }
}

/// Exchanges the registry positions of the `idx1`th and `idx2`th shown
/// groups.
pub fn swap_groups(app: &mut App, idx1: usize, idx2: usize) -> (e: Effect)
    ensures
        (final(app)@, e@) == swap_groups_step(old(app)@, idx1 as int, idx2 as int),
{
    let filtered = app.get_filtered_groups();
    if idx1 < filtered.len() && idx2 < filtered.len() {
        let p = find_group(&app.db.groups, filtered[idx1].name.as_str());
        let q = find_group(&app.db.groups, filtered[idx2].name.as_str());
        proof {
            assert(filtered_groups(app@)[idx1 as int] == filtered@[idx1 as int]@);
            assert(filtered_groups(app@)[idx2 as int] == filtered@[idx2 as int]@);
        }
        match (p, q) {
            (Some(p), Some(q)) => {
                proof {
                    lemma_group_pos(app@.db.groups, filtered@[idx1 as int]@.name);
                    lemma_group_pos(app@.db.groups, filtered@[idx2 as int]@.name);
                }
                swap_registry_groups(app, p, q);
                Effect::Save
            },
            _ => Effect::Nothing,
        }
    } else {
        Effect::Nothing
    }
}

/// Exchanges the registry positions of the `idx1`th and `idx2`th shown
/// favourites, when they are of the same kind.
pub fn swap_favorites(app: &mut App, idx1: usize, idx2: usize) -> (e: Effect)
    ensures
        (final(app)@, e@) == swap_favorites_step(old(app)@, idx1 as int, idx2 as int),
{
    let filtered = app.get_filtered_favorites();
    if idx1 < filtered.len() && idx2 < filtered.len() {
        let ghost f = filtered_favorites(app@);
        proof {
            assert(f[idx1 as int] == filtered@[idx1 as int]@);
            assert(f[idx2 as int] == filtered@[idx2 as int]@);
        }
        if filtered[idx1].is_group == filtered[idx2].is_group {
            if filtered[idx1].is_group {
                let p = find_group(&app.db.groups, filtered[idx1].name.as_str());
                let q = find_group(&app.db.groups, filtered[idx2].name.as_str());
                match (p, q) {
                    (Some(p), Some(q)) => {
                        proof {
                            lemma_group_pos(app@.db.groups, f[idx1 as int].name);
                            lemma_group_pos(app@.db.groups, f[idx2 as int].name);
                        }
                        swap_registry_groups(app, p, q);
                        Effect::Save
                    },
                    _ => Effect::Nothing,
                }
            } else {
                let p = find_command(&app.db.commands, filtered[idx1].name.as_str());
                let q = find_command(&app.db.commands, filtered[idx2].name.as_str());
                match (p, q) {
                    (Some(p), Some(q)) => {
                        proof {
                            lemma_command_pos(app@.db.commands, f[idx1 as int].name);
                            lemma_command_pos(app@.db.commands, f[idx2 as int].name);
                        }
                        swap_registry_commands(app, p, q);
                        Effect::Save
                    },
                    _ => Effect::Nothing,
                }
            }
        } else {
            Effect::Nothing
        }
    } else {
        Effect::Nothing
    }
}

/// Exchanges two shown entries of the open tab.
fn swap_in_tab(app: &mut App, i: usize, j: usize) -> (e: Effect)
    ensures
        (final(app)@, e@) == swap_step(old(app)@, i as int, j as int),
{
    if app.list_tab == 0 {
        swap_commands(app, i, j)
    } else if app.list_tab == 1 {
        swap_groups(app, i, j)
    } else {
        swap_favorites(app, i, j)
    }
}

/// Flips the favourite mark of the entry called `name`.
fn favorite_exec(app: &mut App, name: &str, is_group: bool) -> (e: Effect)
    ensures
        (final(app)@, e@) == favorite_step(old(app)@, name@, is_group),
{
    if app.toggle_favorite(name, is_group) {
        Effect::Save
    } else {
        Effect::Nothing
    }
}

/// F: flips the favourite mark of the selected entry.
fn favorite_selected(app: &mut App) -> (e: Effect)
    requires
        selection_ok(old(app)@),
    ensures
        (final(app)@, e@) == favorite_selected_step(old(app)@),
{
    if app.list_tab == 0 {
        let f = app.get_filtered_commands();
        if !f.is_empty() {
            assert(filtered_commands(app@)[app.list_selected as int] == f@[app.list_selected as int]@);
            let name = f[app.list_selected].title.clone();
            return favorite_exec(app, name.as_str(), false);
        }
    } else if app.list_tab == 1 {
        let f = app.get_filtered_groups();
        if !f.is_empty() {
            assert(filtered_groups(app@)[app.list_selected as int] == f@[app.list_selected as int]@);
            let name = f[app.list_selected].name.clone();
            return favorite_exec(app, name.as_str(), true);
        }
    } else {
        let f = app.get_filtered_favorites();
        if !f.is_empty() {
            assert(filtered_favorites(app@)[app.list_selected as int]
                == f@[app.list_selected as int]@);
            let name = f[app.list_selected].name.clone();
            let g = f[app.list_selected].is_group;
            return favorite_exec(app, name.as_str(), g);
        }
    }
    Effect::Nothing
}

/// The keys shared by the list screens; returns whether the key was one of
/// them, and the effect it asks for.
pub fn handle_list_common_keys(app: &mut App, key: Key) -> (r: (bool, Effect))
    requires
        common_key_defined(old(app)@, key),
    ensures
        ({
            let (handled, b, e) = common_key_step(old(app)@, key);
            r.0 == handled && final(app)@ == b && r.1@ == e
        }),
{
    match key.code {
        KeyCode::Tab => {
            if app.list_grabbed.is_some() {
                app.list_grabbed = None;
            } else {
                let max_len = open_tab_len(app);
                if max_len > 0 {
                    app.list_grabbed = Some(app.list_selected);
                }
            }
            (true, Effect::Nothing)
        },
        KeyCode::Char(c) => {
            if c == 'f' || c == 'F' {
                let e = favorite_selected(app);
                (true, e)
            } else {
                (false, Effect::Nothing)
            }
        },
        KeyCode::Up => {
            match app.list_grabbed {
                Some(g) => {
                    if g > 0 {
                        let e = swap_in_tab(app, g, g - 1);
                        app.list_selected = g - 1;
                        app.list_grabbed = Some(g - 1);
                        (true, e)
                    } else {
                        (true, Effect::Nothing)
                    }
                },
                None => (false, Effect::Nothing),
            }
        },
        KeyCode::Down => {
            match app.list_grabbed {
                Some(g) => {
                    let max_len = open_tab_len(app);
                    if g < max_len - 1 {
                        let e = swap_in_tab(app, g, g + 1);
                        app.list_selected = g + 1;
                        app.list_grabbed = Some(g + 1);
                        (true, e)
                    } else {
                        (true, Effect::Nothing)
                    }
                },
                None => (false, Effect::Nothing),
            }
        },
        KeyCode::Esc => {
            if app.list_grabbed.is_some() {
                app.list_grabbed = None;
                (true, Effect::Nothing)
            } else {
                (false, Effect::Nothing)
            }
        },
        _ => (false, Effect::Nothing),
    }
}

/// Navigation keys of a list screen; returns whether the key was one.
fn handle_list_nav(app: &mut App, key: Key) -> (handled: bool)
    ensures
        match list_nav_step(old(app)@, key) {
            Some(b) => handled && final(app)@ == b,
            None => !handled && final(app)@ == old(app)@,
        },
{
    match key.code {
        KeyCode::Esc => {
            if app.list_search_query.unicode_len() > 0 {
                app.list_search_query = String::new();
                app.list_selected = 0;
            } else {
                app.screen = AppScreen::Dashboard;
            }
            true
        },
        KeyCode::Char(c) => {
            if c == '/' {
                app.list_is_searching = true;
                true
            } else {
                false
            }
        },
        KeyCode::Left => {
            if app.list_tab > 0 {
                app.list_tab = app.list_tab - 1;
                app.list_selected = 0;
                app.list_grabbed = None;
            }
            true
        },
        KeyCode::Right => {
            if app.list_tab == 0 {
                app.list_tab = 1;
                app.list_selected = 0;
                app.list_grabbed = None;
            }
            true
        },
        KeyCode::Up => {
            if app.list_selected > 0 {
                app.list_selected = app.list_selected - 1;
            }
            true
        },
        KeyCode::Down => {
            let max_len = open_tab_len(app);
            if max_len > 0 && app.list_selected < max_len - 1 {
                app.list_selected = app.list_selected + 1;
            }
            true
        },
        _ => false,
    }
}

/// Opens the edit form on the selected entry.
fn edit_selected_exec(app: &mut App)
    requires
        selection_ok(old(app)@),
    ensures
        final(app)@ == edit_selected(old(app)@),
{
    let sel = app.list_selected;
    if app.list_tab == 0 {
        let f = app.get_filtered_commands();
        if !f.is_empty() {
            assert(filtered_commands(app@)[sel as int] == f@[sel as int]@);
            app.init_form_edit(&f[sel]);
            app.screen = AppScreen::UpdateCommandForm;
        }
    } else if app.list_tab == 1 {
        let f = app.get_filtered_groups();
        if !f.is_empty() {
            assert(filtered_groups(app@)[sel as int] == f@[sel as int]@);
            app.init_group_form_edit(&f[sel]);
            app.screen = AppScreen::UpdateGroupForm;
        }
    } else {
        let f = app.get_filtered_favorites();
        if !f.is_empty() {
            let ghost it = filtered_favorites(app@)[sel as int];
            assert(it == f@[sel as int]@);
            if f[sel].is_group {
                proof {
                    lemma_group_pos(app@.db.groups, it.name);
                }
                match find_group(&app.db.groups, f[sel].name.as_str()) {
                    Some(i) => {
                        let grp = app.db.groups[i].clone();
                        app.init_group_form_edit(&grp);
                        app.screen = AppScreen::UpdateGroupForm;
                    },
                    None => {},
                }
            } else {
                proof {
                    lemma_command_pos(app@.db.commands, it.name);
                }
                match find_command(&app.db.commands, f[sel].name.as_str()) {
                    Some(i) => {
                        let cmd = app.db.commands[i].clone();
                        app.init_form_edit(&cmd);
                        app.screen = AppScreen::UpdateCommandForm;
                    },
                    None => {},
                }
            }
        }
    }
}

/// Asks to confirm the deletion of the selected entry.
fn delete_selected_exec(app: &mut App)
    requires
        selection_ok(old(app)@),
    ensures
        final(app)@ == delete_selected(old(app)@),
{
    let sel = app.list_selected;
    if app.list_tab == 0 {
        let f = app.get_filtered_commands();
        if !f.is_empty() {
            assert(filtered_commands(app@)[sel as int] == f@[sel as int]@);
            app.delete_confirm_title = Some(f[sel].title.clone());
            app.delete_confirm_group = false;
        }
    } else if app.list_tab == 1 {
        let f = app.get_filtered_groups();
        if !f.is_empty() {
            assert(filtered_groups(app@)[sel as int] == f@[sel as int]@);
            app.delete_confirm_title = Some(f[sel].name.clone());
            app.delete_confirm_group = true;
        }
    } else {
        let f = app.get_filtered_favorites();
        if !f.is_empty() {
            assert(filtered_favorites(app@)[sel as int] == f@[sel as int]@);
            app.delete_confirm_title = Some(f[sel].name.clone());
            app.delete_confirm_group = f[sel].is_group;
        }
    }
}

/// The run effect for the selected entry.
fn run_selected_exec(app: &App) -> (e: Effect)
    requires
        selection_ok(app@),
    ensures
        e@ == run_selected(app@),
{
    let sel = app.list_selected;
    if app.list_tab == 0 {
        let f = app.get_filtered_commands();
        if !f.is_empty() {
            assert(filtered_commands(app@)[sel as int] == f@[sel as int]@);
            return Effect::RunCommand(f[sel].title.clone());
        }
    } else if app.list_tab == 1 {
        let f = app.get_filtered_groups();
        if !f.is_empty() {
            assert(filtered_groups(app@)[sel as int] == f@[sel as int]@);
            return Effect::RunGroup(f[sel].name.clone());
        }
    } else {
        let f = app.get_filtered_favorites();
        if !f.is_empty() {
            assert(filtered_favorites(app@)[sel as int] == f@[sel as int]@);
            if f[sel].is_group {
                return Effect::RunGroup(f[sel].name.clone());
            } else {
                return Effect::RunCommand(f[sel].name.clone());
            }
        }
    }
    Effect::Nothing
}

/// The screen-specific keys of a list screen.
fn handle_list_action(app: &mut App, key: Key, mode: ListMode) -> (e: Effect)
    requires
        acts_on_selection(key, mode) ==> selection_ok(old(app)@),
    ensures
        (final(app)@, e@) == list_action_step(old(app)@, key, mode),
{
    match mode {
        ListMode::Browse => match key.code {
            KeyCode::Char(c) => {
                if c == 'a' || c == 'A' {
                    app.init_form_empty();
                    app.screen = AppScreen::AddCommand;
                    Effect::Nothing
                } else if c == 'g' || c == 'G' {
                    app.init_group_form_empty();
                    app.screen = AppScreen::AddGroup;
                    Effect::Nothing
                } else if c == 'e' || c == 'E' {
                    edit_selected_exec(app);
                    Effect::Nothing
                } else if c == 'd' || c == 'D' {
                    delete_selected_exec(app);
                    Effect::Nothing
                } else if c == 'r' || c == 'R' {
                    run_selected_exec(app)
                } else {
                    Effect::Nothing
                }
            },
            KeyCode::Enter => run_selected_exec(app),
            _ => Effect::Nothing,
        },
        ListMode::Update => match key.code {
            KeyCode::Char(c) => {
                if c == 'e' || c == 'E' {
                    edit_selected_exec(app);
                }
                Effect::Nothing
            },
            KeyCode::Enter => {
                edit_selected_exec(app);
                Effect::Nothing
            },
            _ => Effect::Nothing,
        },
        ListMode::Delete => match key.code {
            KeyCode::Char(c) => {
                if c == 'd' || c == 'D' {
                    delete_selected_exec(app);
                }
                Effect::Nothing
            },
            KeyCode::Enter => {
                delete_selected_exec(app);
                Effect::Nothing
            },
            _ => Effect::Nothing,
        },
    }
}

/// A key press on a list screen in the given mode.
pub fn handle_list_screen_key(app: &mut App, key: Key, mode: ListMode) -> (e: Effect)
    requires
        list_key_defined(old(app)@, key, mode),
    ensures
        (final(app)@, e@) == list_screen_step(old(app)@, key, mode),
{
    if app.list_is_searching {
        if key.code == KeyCode::Enter {
            app.list_is_searching = false;
        } else {
            handle_search_key(app, key);
            return Effect::Nothing;
        }
    }
    let (handled, e) = handle_list_common_keys(app, key);
    if handled {
        return e;
    }
    if handle_list_nav(app, key) {
        return Effect::Nothing;
    }
    handle_list_action(app, key, mode)
}

/// A key press on the registry list (run, edit, delete, add).
pub fn handle_list_key(app: &mut App, key: Key) -> (e: Effect)
    requires
        list_key_defined(old(app)@, key, ListMode::Browse),
    ensures
        (final(app)@, e@) == list_screen_step(old(app)@, key, ListMode::Browse),
{
    handle_list_screen_key(app, key, ListMode::Browse)
}

/// A key press on the list of entries to edit.
pub fn handle_update_list_key(app: &mut App, key: Key) -> (e: Effect)
    requires
        list_key_defined(old(app)@, key, ListMode::Update),
    ensures
        (final(app)@, e@) == list_screen_step(old(app)@, key, ListMode::Update),
{
    handle_list_screen_key(app, key, ListMode::Update)
}

/// A key press on the list of entries to delete.
pub fn handle_delete_list_key(app: &mut App, key: Key) -> (e: Effect)
    requires
        list_key_defined(old(app)@, key, ListMode::Delete),
    ensures
        (final(app)@, e@) == list_screen_step(old(app)@, key, ListMode::Delete),
{
    handle_list_screen_key(app, key, ListMode::Delete)
}

} // verus!
