//! The group form: name, description, and the ordered sequence of commands
//! that a pipeline runs, built from the registered commands.

use vstd::prelude::*;
use crate::app::{App, AppScreen, AppView, GroupFormField};
use crate::db::{DbView, GroupModel, GroupView, clone_strings, group_views};
use crate::registry::{find_group, group_pos, has_group, lemma_group_pos};
use crate::text::{pop_char, push_char, trim, trimmed, views};
use crate::tui::events::{Effect, EffectView, Key, KeyCode, pop_last};
use crate::vecs::swap_at;

verus! {

/// The part after `f` (Tab, and Down outside the lists).
pub open spec fn next_group_field(f: GroupFormField) -> GroupFormField {
    match f {
        GroupFormField::Name => GroupFormField::Description,
        GroupFormField::Description => GroupFormField::CommandsList,
        GroupFormField::CommandsList => GroupFormField::AvailableCommands,
        GroupFormField::AvailableCommands => GroupFormField::Save,
        GroupFormField::Save => GroupFormField::Cancel,
        GroupFormField::Cancel => GroupFormField::Name,
    }
}

/// The part before `f` (BackTab, and Up outside the lists).
pub open spec fn prev_group_field(f: GroupFormField) -> GroupFormField {
    match f {
        GroupFormField::Name => GroupFormField::Cancel,
        GroupFormField::Description => GroupFormField::Name,
        GroupFormField::CommandsList => GroupFormField::Description,
        GroupFormField::AvailableCommands => GroupFormField::CommandsList,
        GroupFormField::Save => GroupFormField::AvailableCommands,
        GroupFormField::Cancel => GroupFormField::Save,
    }
}

/// `s` with the entries at `i` and `j` exchanged.
pub open spec fn swapped<A>(s: Seq<A>, i: int, j: int) -> Seq<A> {
    s.update(i, s[j]).update(j, s[i])
}

/// The sequence with its selected entry removed; the selection moves to the
/// new last entry when it fell off the end.
pub open spec fn remove_selected(a: AppView) -> AppView {
    let cs = a.group_commands;
    let sel = a.group_commands_selected;
    if cs.len() > 0 && sel < cs.len() {
        let rest = cs.remove(sel as int);
        AppView {
            group_commands: rest,
            group_commands_selected: if sel >= rest.len() && rest.len() > 0 {
                (rest.len() - 1) as usize
            } else {
                sel
            },
            ..a
        }
    } else {
        a
    }
}

/// The highlighted available command appended to the sequence, and selected.
pub open spec fn add_available(a: AppView) -> AppView {
    if a.db.commands.len() > 0 && a.group_avail_selected < a.db.commands.len() {
        let cs = a.group_commands.push(a.db.commands[a.group_avail_selected as int].title);
        AppView { group_commands: cs, group_commands_selected: (cs.len() - 1) as usize, ..a }
    } else {
        a
    }
}

/// The selected entry of the sequence moved one place down (Shift+Down, J).
pub open spec fn moved_down(a: AppView) -> AppView {
    let sel = a.group_commands_selected;
    AppView {
        group_commands: swapped(a.group_commands, sel as int, sel + 1),
        group_commands_selected: (sel + 1) as usize,
        ..a
    }
}

/// The selected entry of the sequence moved one place up (Shift+Up, K).
pub open spec fn moved_up(a: AppView) -> AppView {
    let sel = a.group_commands_selected;
    AppView {
        group_commands: swapped(a.group_commands, sel as int, sel - 1),
        group_commands_selected: (sel - 1) as usize,
        ..a
    }
}

/// The message for a group name that is already taken.
pub open spec fn duplicate_name_message(name: Seq<char>) -> Seq<char> {
    "Group with name '"@ + name + "' already exists"@
}

/// The group that the form describes.
pub open spec fn form_group(a: AppView) -> GroupView {
    GroupView {
        name: trimmed(a.group_name),
        description: trimmed(a.group_desc),
        commands: a.group_commands,
        use_count: 0,
        favorite: false,
    }
}

/// The registry after saving an edit of the group named `target`: the first
/// such group takes the form's name, description and sequence.
pub open spec fn edited_groups(db: DbView, target: Seq<char>, g: GroupView) -> DbView {
    match group_pos(db.groups, target) {
        Some(i) => DbView {
            groups: db.groups.update(
                i,
                GroupView {
                    name: g.name,
                    description: g.description,
                    commands: g.commands,
                    ..db.groups[i]
                },
            ),
            ..db
        },
        None => db,
    }
}

/// Saving the group form: a blank name is refused; on the add screen a
/// taken name is refused, else the group is appended; on the edit screen a
/// name taken by another group is refused, else the edited group is updated.
/// A save that goes through writes the registry and opens the list.
pub open spec fn save_group_step(a: AppView) -> (AppView, EffectView) {
    let g = form_group(a);
    if g.name.len() == 0 {
        (AppView { group_error: Some("Group name cannot be empty"@), ..a }, EffectView::Nothing)
    } else {
        match a.screen {
            AppScreen::AddGroup => if has_group(a.db, g.name) {
                (
                    AppView { group_error: Some(duplicate_name_message(g.name)), ..a },
                    EffectView::Nothing,
                )
            } else {
                (
                    AppView {
                        db: DbView { groups: a.db.groups.push(g), ..a.db },
                        screen: AppScreen::ListCommands,
                        ..a
                    },
                    EffectView::Save,
                )
            },
            AppScreen::UpdateGroupForm => if g.name != a.update_target_group_name && has_group(
                a.db,
                g.name,
            ) {
                (
                    AppView { group_error: Some(duplicate_name_message(g.name)), ..a },
                    EffectView::Nothing,
                )
            } else {
                (
                    AppView {
                        db: edited_groups(a.db, a.update_target_group_name, g),
                        screen: AppScreen::ListCommands,
                        ..a
                    },
                    EffectView::Save,
                )
            },
            _ => (AppView { screen: AppScreen::ListCommands, ..a }, EffectView::Save),
        }
    }
}

/// The inputs on which a key press on the group form is defined: moving the
/// selected entry up needs it to be inside the sequence, and moving it down
/// with J needs its successor index to exist.
pub open spec fn group_key_defined(a: AppView, key: Key) -> bool {
    let sel = a.group_commands_selected;
    &&& (key.code == KeyCode::Up && key.shift && a.group_focus == GroupFormField::CommandsList
        && sel > 0) ==> sel < a.group_commands.len()
    &&& (key.code == KeyCode::Char('j') || key.code == KeyCode::Char('J')) && a.group_focus
        == GroupFormField::CommandsList ==> sel < usize::MAX
}

/// A key press on the group form.
pub open spec fn group_key_step(a: AppView, key: Key) -> (AppView, EffectView) {
    let sel = a.group_commands_selected;
    let len = a.group_commands.len();
    let next = match key.code {
        KeyCode::Esc => AppView { screen: AppScreen::Dashboard, ..a },
        KeyCode::Tab => AppView { group_focus: next_group_field(a.group_focus), ..a },
        KeyCode::BackTab => AppView { group_focus: prev_group_field(a.group_focus), ..a },
        KeyCode::Down => match a.group_focus {
            GroupFormField::CommandsList => if len > 0 && sel < len - 1 {
                if key.shift {
                    moved_down(a)
                } else {
                    AppView { group_commands_selected: (sel + 1) as usize, ..a }
                }
            } else {
                a
            },
            GroupFormField::AvailableCommands => if a.db.commands.len() > 0
                && a.group_avail_selected < a.db.commands.len() - 1 {
                AppView { group_avail_selected: (a.group_avail_selected + 1) as usize, ..a }
            } else {
                a
            },
            _ => AppView { group_focus: next_group_field(a.group_focus), ..a },
        },
        KeyCode::Up => match a.group_focus {
            GroupFormField::CommandsList => if sel > 0 {
                if key.shift {
                    moved_up(a)
                } else {
                    AppView { group_commands_selected: (sel - 1) as usize, ..a }
                }
            } else {
                a
            },
            GroupFormField::AvailableCommands => if a.group_avail_selected > 0 {
                AppView { group_avail_selected: (a.group_avail_selected - 1) as usize, ..a }
            } else {
                a
            },
            _ => AppView { group_focus: prev_group_field(a.group_focus), ..a },
        },
        KeyCode::Enter => match a.group_focus {
            GroupFormField::AvailableCommands => add_available(a),
            GroupFormField::Cancel => AppView { screen: AppScreen::Dashboard, ..a },
            _ => a,
        },
        KeyCode::Backspace | KeyCode::Delete => match a.group_focus {
            GroupFormField::Name => AppView { group_name: pop_last(a.group_name), ..a },
            GroupFormField::Description => AppView { group_desc: pop_last(a.group_desc), ..a },
            GroupFormField::CommandsList => remove_selected(a),
            _ => a,
        },
        KeyCode::Char(c) => match a.group_focus {
            GroupFormField::Name => AppView { group_name: a.group_name.push(c), ..a },
            GroupFormField::Description => AppView { group_desc: a.group_desc.push(c), ..a },
            GroupFormField::CommandsList => if c == 'd' || c == 'D' {
                remove_selected(a)
            } else if c == 'k' || c == 'K' {
                if sel > 0 && sel < len {
                    moved_up(a)
                } else {
                    a
                }
            } else if c == 'j' || c == 'J' {
                if sel + 1 < len {
                    moved_down(a)
                } else {
                    a
                }
            } else {
                a
            },
            GroupFormField::AvailableCommands => if c == 'a' || c == 'A' {
                add_available(a)
            } else {
                a
            },
            _ => a,
        },
        _ => a,
    };
    if key.code == KeyCode::Enter && a.group_focus == GroupFormField::Save {
        save_group_step(a)
    } else {
        (next, EffectView::Nothing)
    }
}

fn next_field(f: GroupFormField) -> (r: GroupFormField)
    ensures
        r == next_group_field(f),
{
    match f {
        GroupFormField::Name => GroupFormField::Description,
        GroupFormField::Description => GroupFormField::CommandsList,
        GroupFormField::CommandsList => GroupFormField::AvailableCommands,
        GroupFormField::AvailableCommands => GroupFormField::Save,
        GroupFormField::Save => GroupFormField::Cancel,
        GroupFormField::Cancel => GroupFormField::Name,
    }
}

fn prev_field(f: GroupFormField) -> (r: GroupFormField)
    ensures
        r == prev_group_field(f),
{
    match f {
        GroupFormField::Name => GroupFormField::Cancel,
        GroupFormField::Description => GroupFormField::Name,
        GroupFormField::CommandsList => GroupFormField::Description,
        GroupFormField::AvailableCommands => GroupFormField::CommandsList,
        GroupFormField::Save => GroupFormField::AvailableCommands,
        GroupFormField::Cancel => GroupFormField::Save,
    }
}

/// Exchanges two entries of the sequence being edited.
fn swap_sequence(app: &mut App, i: usize, j: usize)
    requires
        i < old(app).group_commands@.len(),
        j < old(app).group_commands@.len(),
    ensures
        final(app)@ == (AppView {
            group_commands: swapped(old(app)@.group_commands, i as int, j as int),
            ..old(app)@
        }),
{
    let ghost before = app.group_commands@;
    swap_at(&mut app.group_commands, i, j);
    assert(views(app.group_commands@) =~= swapped(views(before), i as int, j as int));
}

/// Removes the selected entry of the sequence, if there is one.
fn remove_selected_exec(app: &mut App)
    ensures
        final(app)@ == remove_selected(old(app)@),
{
    if !app.group_commands.is_empty() && app.group_commands_selected < app.group_commands.len() {
        let ghost before = app.group_commands@;
        app.group_commands.remove(app.group_commands_selected);
        assert(views(app.group_commands@) =~= views(before).remove(
            app.group_commands_selected as int,
        ));
        if app.group_commands_selected >= app.group_commands.len()
            && !app.group_commands.is_empty() {
            app.group_commands_selected = app.group_commands.len() - 1;
        }
    }
}

/// Appends the highlighted available command to the sequence.
fn add_available_exec(app: &mut App)
    ensures
        final(app)@ == add_available(old(app)@),
{
    if !app.db.commands.is_empty() && app.group_avail_selected < app.db.commands.len() {
        let title = app.db.commands[app.group_avail_selected].title.clone();
        let ghost before = app.group_commands@;
        app.group_commands.push(title);
        assert(views(app.group_commands@) =~= views(before).push(title@));
        app.group_commands_selected = app.group_commands.len() - 1;
    }
}

/// The message for a group name that is already taken.
fn duplicate_name(name: &String) -> (m: String)
    ensures
        m@ == duplicate_name_message(name@),
{
    let mut m = String::from_str("Group with name '");
    m.append(name.as_str());
    m.append("' already exists");
    m
}

/// Saves the group form.
pub fn save_group_form(app: &mut App) -> (e: Effect)
    ensures
        (final(app)@, e@) == save_group_step(old(app)@),
{
    let name = trim(app.group_name.as_str());
    let desc = trim(app.group_desc.as_str());
    let commands = clone_strings(&app.group_commands);
    let ghost g = form_group(app@);
    if name.unicode_len() == 0 {
        app.group_error = Some(String::from_str("Group name cannot be empty"));
        return Effect::Nothing;
    }
    proof {
        lemma_group_pos(app@.db.groups, name@);
        lemma_group_pos(app@.db.groups, app@.update_target_group_name);
    }
    match app.screen {
        AppScreen::AddGroup => {
            if find_group(&app.db.groups, name.as_str()).is_some() {
                app.group_error = Some(duplicate_name(&name));
                return Effect::Nothing;
            }
            let ghost before = app.db.groups@;
            let grp = GroupModel { name, description: desc, commands, use_count: 0, favorite: false };
            assert(grp@ == g);
            app.db.groups.push(grp);
            assert(group_views(app.db.groups@) =~= group_views(before).push(g));
        },
        AppScreen::UpdateGroupForm => {
            let same = name == app.update_target_group_name;
            if !same && find_group(&app.db.groups, name.as_str()).is_some() {
                app.group_error = Some(duplicate_name(&name));
                return Effect::Nothing;
            }
            match find_group(&app.db.groups, app.update_target_group_name.as_str()) {
                Some(pos) => {
                    let mut grp = app.db.groups[pos].clone();
                    grp.name = name;
                    grp.description = desc;
                    grp.commands = commands;
                    let ghost before = app.db.groups@;
                    app.db.groups.set(pos, grp);
                    assert(group_views(app.db.groups@) =~= group_views(before).update(
                        pos as int,
                        grp@,
                    ));
                },
                None => {},
            }
        },
        _ => {},
    }
    app.screen = AppScreen::ListCommands;
    Effect::Save
}

/// A key press on the group form.
pub fn handle_group_form_key_event(app: &mut App, key: Key) -> (e: Effect)
    requires
        group_key_defined(old(app)@, key),
    ensures
        (final(app)@, e@) == group_key_step(old(app)@, key),
{
    match key.code {
        KeyCode::Esc => {
            app.screen = AppScreen::Dashboard;
        },
        KeyCode::Tab => {
            app.group_focus = next_field(app.group_focus);
        },
        KeyCode::BackTab => {
            app.group_focus = prev_field(app.group_focus);
        },
        KeyCode::Down => {
            match app.group_focus {
                GroupFormField::CommandsList => {
                    if !app.group_commands.is_empty() && app.group_commands_selected
                        < app.group_commands.len() - 1 {
                        if key.shift {
                            swap_sequence(
                                app,
                                app.group_commands_selected,
                                app.group_commands_selected + 1,
                            );
                        }
                        app.group_commands_selected = app.group_commands_selected + 1;
                    }
                },
                GroupFormField::AvailableCommands => {
                    if !app.db.commands.is_empty() && app.group_avail_selected
                        < app.db.commands.len() - 1 {
                        app.group_avail_selected = app.group_avail_selected + 1;
                    }
                },
                _ => {
                    app.group_focus = next_field(app.group_focus);
                },
            }
        },
        KeyCode::Up => {
            match app.group_focus {
                GroupFormField::CommandsList => {
                    if app.group_commands_selected > 0 {
                        if key.shift {
                            swap_sequence(
                                app,
                                app.group_commands_selected,
                                app.group_commands_selected - 1,
                            );
                        }
                        app.group_commands_selected = app.group_commands_selected - 1;
                    }
                },
                GroupFormField::AvailableCommands => {
                    if app.group_avail_selected > 0 {
                        app.group_avail_selected = app.group_avail_selected - 1;
                    }
                },
                _ => {
                    app.group_focus = prev_field(app.group_focus);
                },
            }
        },
        KeyCode::Enter => {
            match app.group_focus {
                GroupFormField::AvailableCommands => {
                    add_available_exec(app);
                },
                GroupFormField::Save => {
                    return save_group_form(app);
                },
                GroupFormField::Cancel => {
                    app.screen = AppScreen::Dashboard;
                },
                _ => {},
            }
        },
        KeyCode::Backspace | KeyCode::Delete => {
            match app.group_focus {
                GroupFormField::Name => {
                    pop_char(&mut app.group_name);
                },
                GroupFormField::Description => {
                    pop_char(&mut app.group_desc);
                },
                GroupFormField::CommandsList => {
                    remove_selected_exec(app);
                },
                _ => {},
            }
        },
        KeyCode::Char(c) => {
            match app.group_focus {
                GroupFormField::Name => {
                    push_char(&mut app.group_name, c);
                },
                GroupFormField::Description => {
                    push_char(&mut app.group_desc, c);
                },
                GroupFormField::CommandsList => {
                    if c == 'd' || c == 'D' {
                        remove_selected_exec(app);
                    } else if c == 'k' || c == 'K' {
                        if app.group_commands_selected > 0 && app.group_commands_selected
                            < app.group_commands.len() {
                            swap_sequence(
                                app,
                                app.group_commands_selected,
                                app.group_commands_selected - 1,
                            );
                            app.group_commands_selected = app.group_commands_selected - 1;
                        }
                    } else if c == 'j' || c == 'J' {
                        if app.group_commands_selected + 1 < app.group_commands.len() {
                            swap_sequence(
                                app,
                                app.group_commands_selected,
                                app.group_commands_selected + 1,
                            );
                            app.group_commands_selected = app.group_commands_selected + 1;
                        }
                    }
                },
                GroupFormField::AvailableCommands => {
                    if c == 'a' || c == 'A' {
                        add_available_exec(app);
                    }
                },
                _ => {},
            }
        },
        _ => {},
    }
    Effect::Nothing
}

} // verus!
