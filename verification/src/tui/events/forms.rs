//! The command form: moving the focus, typing into its fields, and saving a
//! new or edited command.

use vstd::prelude::*;
use crate::app::{App, AppScreen, AppView, FormField};
use crate::db::{CommandModel, CommandView, DbView, command_views, opt_view};
use crate::registry::{command_pos, find_command, has_command, lemma_command_pos};
use crate::text::{pop_char, push_char, trim, trimmed};
use crate::tui::events::{Effect, EffectView, Key, KeyCode, pop_last};

verus! {

/// The field after `f` (Tab, Down).
pub open spec fn next_form_field(f: FormField) -> FormField {
    match f {
        FormField::Title => FormField::Description,
        FormField::Description => FormField::Script,
        FormField::Script => FormField::Group,
        FormField::Group => FormField::Save,
        FormField::Save => FormField::Cancel,
        FormField::Cancel => FormField::Title,
    }
}

/// The field before `f` (Up).
pub open spec fn prev_form_field(f: FormField) -> FormField {
    match f {
        FormField::Title => FormField::Cancel,
        FormField::Description => FormField::Title,
        FormField::Script => FormField::Description,
        FormField::Group => FormField::Script,
        FormField::Save => FormField::Group,
        FormField::Cancel => FormField::Save,
    }
}

/// The group a form value names: none when it is blank, else the trimmed
/// value.
pub open spec fn group_of_form(g: Seq<char>) -> Option<Seq<char>> {
    if trimmed(g).len() == 0 {
        None
    } else {
        Some(trimmed(g))
    }
}

/// The message for a command title that is already taken.
pub open spec fn duplicate_title_message(title: Seq<char>) -> Seq<char> {
    "Command with title '"@ + title + "' already exists"@
}

/// The command that the form describes.
pub open spec fn form_command(a: AppView) -> CommandView {
    CommandView {
        title: trimmed(a.form_title),
        description: trimmed(a.form_desc),
        script: trimmed(a.form_script),
        group: group_of_form(a.form_group),
        use_count: 0,
        favorite: false,
    }
}

/// The registry after saving an edit of the command titled `target`: the
/// first such command takes the form's title, description, script and group.
pub open spec fn edited_commands(db: DbView, target: Seq<char>, c: CommandView) -> DbView {
    match command_pos(db.commands, target) {
        Some(i) => DbView {
            commands: db.commands.update(
                i,
                CommandView {
                    title: c.title,
                    description: c.description,
                    script: c.script,
                    group: c.group,
                    ..db.commands[i]
                },
            ),
            ..db
        },
        None => db,
    }
}

/// Saving the command form: a blank title or script is refused with a
/// message; on the add screen a taken title is refused, else the command is
/// appended; on the edit screen a title taken by another command is refused,
/// else the edited command is updated. A save that goes through writes the
/// registry and opens the list.
pub open spec fn save_form_step(a: AppView) -> (AppView, EffectView) {
    let c = form_command(a);
    if c.title.len() == 0 {
        (AppView { form_error: Some("Title cannot be empty"@), ..a }, EffectView::Nothing)
    } else if c.script.len() == 0 {
        (AppView { form_error: Some("Command script cannot be empty"@), ..a }, EffectView::Nothing)
    } else {
        match a.screen {
            AppScreen::AddCommand => if has_command(a.db, c.title) {
                (
                    AppView { form_error: Some(duplicate_title_message(c.title)), ..a },
                    EffectView::Nothing,
                )
            } else {
                (
                    AppView {
                        db: DbView { commands: a.db.commands.push(c), ..a.db },
                        screen: AppScreen::ListCommands,
                        ..a
                    },
                    EffectView::Save,
                )
            },
            AppScreen::UpdateCommandForm => if c.title != a.update_target_title && has_command(
                a.db,
                c.title,
            ) {
                (
                    AppView { form_error: Some(duplicate_title_message(c.title)), ..a },
                    EffectView::Nothing,
                )
            } else {
                (
                    AppView {
                        db: edited_commands(a.db, a.update_target_title, c),
                        screen: AppScreen::ListCommands,
                        ..a
                    },
                    EffectView::Save,
                )
            },
            _ => (AppView { screen: AppScreen::ListCommands, ..a }, EffectView::Save),
        }
    }
}

/// The form with `c` typed into the focused text field, if one is focused.
pub open spec fn form_typed(a: AppView, c: char) -> AppView {
    match a.form_focus {
        FormField::Title => AppView { form_title: a.form_title.push(c), ..a },
        FormField::Description => AppView { form_desc: a.form_desc.push(c), ..a },
        FormField::Script => AppView { form_script: a.form_script.push(c), ..a },
        FormField::Group => AppView { form_group: a.form_group.push(c), ..a },
        _ => a,
    }
}

/// The form with the last character of the focused text field erased.
pub open spec fn form_erased(a: AppView) -> AppView {
    match a.form_focus {
        FormField::Title => AppView { form_title: pop_last(a.form_title), ..a },
        FormField::Description => AppView { form_desc: pop_last(a.form_desc), ..a },
        FormField::Script => AppView { form_script: pop_last(a.form_script), ..a },
        FormField::Group => AppView { form_group: pop_last(a.form_group), ..a },
        _ => a,
    }
}

/// A key press on the command form.
pub open spec fn form_key_step(a: AppView, key: Key) -> (AppView, EffectView) {
    match key.code {
        KeyCode::Esc => (AppView { screen: AppScreen::Dashboard, ..a }, EffectView::Nothing),
        KeyCode::Tab | KeyCode::Down => (
            AppView { form_focus: next_form_field(a.form_focus), ..a },
            EffectView::Nothing,
        ),
        KeyCode::Up => (
            AppView { form_focus: prev_form_field(a.form_focus), ..a },
            EffectView::Nothing,
        ),
        KeyCode::Enter => match a.form_focus {
            FormField::Save => save_form_step(a),
            FormField::Cancel => (AppView { screen: AppScreen::Dashboard, ..a }, EffectView::Nothing),
            _ => (AppView { form_focus: next_form_field(a.form_focus), ..a }, EffectView::Nothing),
        },
        KeyCode::Char(c) => (form_typed(a, c), EffectView::Nothing),
        KeyCode::Backspace => (form_erased(a), EffectView::Nothing),
        _ => (a, EffectView::Nothing),
    }
}

fn next_field(f: FormField) -> (r: FormField)
    ensures
        r == next_form_field(f),
{
    match f {
        FormField::Title => FormField::Description,
        FormField::Description => FormField::Script,
        FormField::Script => FormField::Group,
        FormField::Group => FormField::Save,
        FormField::Save => FormField::Cancel,
        FormField::Cancel => FormField::Title,
    }
}

fn prev_field(f: FormField) -> (r: FormField)
    ensures
        r == prev_form_field(f),
{
    match f {
        FormField::Title => FormField::Cancel,
        FormField::Description => FormField::Title,
        FormField::Script => FormField::Description,
        FormField::Group => FormField::Script,
        FormField::Save => FormField::Group,
        FormField::Cancel => FormField::Save,
    }
}

/// The message for a command title that is already taken.
fn duplicate_title(title: &String) -> (m: String)
    ensures
        m@ == duplicate_title_message(title@),
{
    let mut m = String::from_str("Command with title '");
    m.append(title.as_str());
    m.append("' already exists");
    m
}

/// Saves the command form.
pub fn save_form(app: &mut App) -> (e: Effect)
    ensures
        (final(app)@, e@) == save_form_step(old(app)@),
{
    let title = trim(app.form_title.as_str());
    let script = trim(app.form_script.as_str());
    let desc = trim(app.form_desc.as_str());
    let group_t = trim(app.form_group.as_str());
    let group = if group_t.unicode_len() == 0 {
        None
    } else {
        Some(group_t)
    };
    let ghost c = form_command(app@);
    assert(opt_view(group) == c.group);
    if title.unicode_len() == 0 {
        app.form_error = Some(String::from_str("Title cannot be empty"));
        return Effect::Nothing;
    }
    if script.unicode_len() == 0 {
        app.form_error = Some(String::from_str("Command script cannot be empty"));
        return Effect::Nothing;
    }
    proof {
        lemma_command_pos(app@.db.commands, title@);
        lemma_command_pos(app@.db.commands, app@.update_target_title);
    }
    match app.screen {
        AppScreen::AddCommand => {
            if find_command(&app.db.commands, title.as_str()).is_some() {
                app.form_error = Some(duplicate_title(&title));
                return Effect::Nothing;
            }
            let ghost before = app.db.commands@;
            let cmd = CommandModel {
                title,
                description: desc,
                script,
                group,
                use_count: 0,
                favorite: false,
            };
            assert(cmd@ == c);
            app.db.commands.push(cmd);
            assert(command_views(app.db.commands@) =~= command_views(before).push(c));
        },
        AppScreen::UpdateCommandForm => {
            let same = title == app.update_target_title;
            if !same && find_command(&app.db.commands, title.as_str()).is_some() {
                app.form_error = Some(duplicate_title(&title));
                return Effect::Nothing;
            }
            match find_command(&app.db.commands, app.update_target_title.as_str()) {
                Some(pos) => {
                    let mut cmd = app.db.commands[pos].clone();
                    cmd.title = title;
                    cmd.description = desc;
                    cmd.script = script;
                    cmd.group = group;
                    let ghost before = app.db.commands@;
                    app.db.commands.set(pos, cmd);
                    assert(command_views(app.db.commands@) =~= command_views(before).update(
                        pos as int,
                        cmd@,
                    ));
                },
                None => {},
            }
        },
        _ => {},
    }
    app.screen = AppScreen::ListCommands;
    Effect::Save
}

/// A key press on the command form; Enter on Save saves it.
pub fn handle_form_key_event(app: &mut App, key: Key) -> (e: Effect)
    ensures
        (final(app)@, e@) == form_key_step(old(app)@, key),
{
    match key.code {
        KeyCode::Esc => {
            app.screen = AppScreen::Dashboard;
        },
        KeyCode::Tab | KeyCode::Down => {
            app.form_focus = next_field(app.form_focus);
        },
        KeyCode::Up => {
            app.form_focus = prev_field(app.form_focus);
        },
        KeyCode::Enter => {
            match app.form_focus {
                FormField::Save => {
                    return save_form(app);
                },
                FormField::Cancel => {
                    app.screen = AppScreen::Dashboard;
                },
                _ => {
                    app.form_focus = next_field(app.form_focus);
                },
            }
        },
        KeyCode::Char(c) => {
            match app.form_focus {
                FormField::Title => push_char(&mut app.form_title, c),
                FormField::Description => push_char(&mut app.form_desc, c),
                FormField::Script => push_char(&mut app.form_script, c),
                FormField::Group => push_char(&mut app.form_group, c),
                _ => {},
            }
        },
        KeyCode::Backspace => {
            match app.form_focus {
                FormField::Title => {
                    pop_char(&mut app.form_title);
                },
                FormField::Description => {
                    pop_char(&mut app.form_desc);
                },
                FormField::Script => {
                    pop_char(&mut app.form_script);
                },
                FormField::Group => {
                    pop_char(&mut app.form_group);
                },
                _ => {},
            }
        },
        _ => {},
    }
    Effect::Nothing
}

} // verus!
