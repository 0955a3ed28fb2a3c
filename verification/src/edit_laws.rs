//! What editing and deleting entries does to the registry, stated entry by
//! entry: which entry changes, which of its fields take which input, and
//! that every other entry and every other part of the registry stays.

use vstd::prelude::*;
use crate::app::{AppScreen, AppView};
use crate::cli::admin::{cli_command_step, cli_group_step, CliErrorView, CliOutcomeView};
use crate::cli::flag_value;
use crate::db::{CommandView, DbView, GroupView};
use crate::laws::{unique_names, unique_titles};
use crate::registry::{lemma_command_pos, lemma_first_index, lemma_group_pos};
use crate::text::{comma_list, trimmed};
use crate::tui::events::{key_step, EffectView, Key, KeyCode};
use crate::tui::events::forms::save_form_step;
use crate::tui::events::group_forms::{group_key_step, save_group_step};
use crate::tui::events::forms::form_key_step;
use crate::tui::events::navigation::{import_outcome_step, ImportOutcomeView};
use crate::app::{FormField, GroupFormField, filtered_commands, filtered_groups, most_run, toggled_favorite};
use crate::tui::events::lists::{list_screen_step, ListMode};
use crate::tui::events::navigation::dashboard_key_step;
use crate::cli::run::{
    bumped_command, bumped_group, capped_push, confirms, delete_step, script_of, sequence_of,
    DeleteOutcome, MAX_HISTORY,
};
use crate::db::{BackupView, HistoryView};
use crate::text::{is_substring, unicode_lowercase};
use crate::cli::admin::{command_listing, group_listing, has_arg};
use crate::cli::search_query;
use crate::ranking::{lemma_rank_sorted, rank_of};
use crate::db::{CommandModel, GroupModel};

verus! {

/// `i` is the position of the first command titled `t`.
pub open spec fn first_titled(cs: Seq<CommandView>, t: Seq<char>, i: int) -> bool {
    &&& 0 <= i < cs.len()
    &&& cs[i].title == t
    &&& forall|j: int| 0 <= j < i ==> cs[j].title != t
}

/// `i` is the position of the first group named `n`.
pub open spec fn first_named(gs: Seq<GroupView>, n: Seq<char>, i: int) -> bool {
    &&& 0 <= i < gs.len()
    &&& gs[i].name == n
    &&& forall|j: int| 0 <= j < i ==> gs[j].name != n
}

/// `new` is `old` with only position `i` changed.
pub open spec fn only_changed_at<A>(old: Seq<A>, new: Seq<A>, i: int) -> bool {
    &&& new.len() == old.len()
    &&& forall|j: int| 0 <= j < old.len() && j != i ==> new[j] == old[j]
}

proof fn lemma_first_titled(cs: Seq<CommandView>, t: Seq<char>)
    ensures
        crate::registry::command_pos(cs, t) matches Some(i) ==> first_titled(cs, t, i),
        crate::registry::command_pos(cs, t) is None ==> forall|j: int| 0 <= j < cs.len() ==> cs[j].title != t,
{
    lemma_first_index(cs, |c: CommandView| c.title == t);
}

proof fn lemma_first_named(gs: Seq<GroupView>, n: Seq<char>)
    ensures
        crate::registry::group_pos(gs, n) matches Some(i) ==> first_named(gs, n, i),
        crate::registry::group_pos(gs, n) is None ==> forall|j: int| 0 <= j < gs.len() ==> gs[j].name != n,
{
    lemma_first_index(gs, |g: GroupView| g.name == n);
}

proof fn lemma_first_titled_unique(cs: Seq<CommandView>, t: Seq<char>, i: int, k: int)
    requires
        first_titled(cs, t, i),
        first_titled(cs, t, k),
    ensures
        i == k,
{
}

proof fn lemma_first_named_unique(gs: Seq<GroupView>, n: Seq<char>, i: int, k: int)
    requires
        first_named(gs, n, i),
        first_named(gs, n, k),
    ensures
        i == k,
{
}

// ---------------------------------------------------------------------------
// The console's editor forms
// ---------------------------------------------------------------------------

/// Saving the command editor with a non-blank title and script, a title not
/// taken by another command, and an existing command under edit: the first
/// command titled as the one under edit takes the form's trimmed title,
/// description and script and its group (none when blank), keeps its run
/// count and favourite mark; every other command, the groups and the history
/// stay; the registry is written and the list opens.
pub proof fn law_command_edit_saves_the_form(a: AppView, i: int)
    requires
        a.screen == AppScreen::UpdateCommandForm,
        trimmed(a.form_title).len() > 0,
        trimmed(a.form_script).len() > 0,
        forall|j: int|
            0 <= j < a.db.commands.len() && a.db.commands[j].title == trimmed(a.form_title)
                ==> trimmed(a.form_title) == a.update_target_title,
        first_titled(a.db.commands, a.update_target_title, i),
    ensures
        ({
            let (b, e) = save_form_step(a);
            let old = a.db.commands[i];
            let new = b.db.commands[i];
            &&& e == EffectView::Save
            &&& b.screen == AppScreen::ListCommands
            &&& new.title == trimmed(a.form_title)
            &&& new.description == trimmed(a.form_desc)
            &&& new.script == trimmed(a.form_script)
            &&& new.group == (if trimmed(a.form_group).len() == 0 {
                None
            } else {
                Some(trimmed(a.form_group))
            })
            &&& new.use_count == old.use_count
            &&& new.favorite == old.favorite
            &&& only_changed_at(a.db.commands, b.db.commands, i)
            &&& b.db.groups == a.db.groups
            &&& b.db.history == a.db.history
        }),
{
    lemma_first_titled(a.db.commands, a.update_target_title);
    lemma_command_pos(a.db.commands, trimmed(a.form_title));
    match crate::registry::command_pos(a.db.commands, a.update_target_title) {
        Some(p) => lemma_first_titled_unique(a.db.commands, a.update_target_title, p, i),
        None => {},
    }
}

/// Saving the group editor with a non-blank name not taken by another group
/// and an existing group under edit: the first group named as the one under
/// edit takes the form's trimmed name and description and exactly the form's
/// command sequence, keeps its run count and favourite mark; every other
/// group, the commands and the history stay; the registry is written and the
/// list opens.
pub proof fn law_group_edit_saves_the_form(a: AppView, i: int)
    requires
        a.screen == AppScreen::UpdateGroupForm,
        trimmed(a.group_name).len() > 0,
        forall|j: int|
            0 <= j < a.db.groups.len() && a.db.groups[j].name == trimmed(a.group_name)
                ==> trimmed(a.group_name) == a.update_target_group_name,
        first_named(a.db.groups, a.update_target_group_name, i),
    ensures
        ({
            let (b, e) = save_group_step(a);
            let old = a.db.groups[i];
            let new = b.db.groups[i];
            &&& e == EffectView::Save
            &&& b.screen == AppScreen::ListCommands
            &&& new.name == trimmed(a.group_name)
            &&& new.description == trimmed(a.group_desc)
            &&& new.commands == a.group_commands
            &&& new.use_count == old.use_count
            &&& new.favorite == old.favorite
            &&& only_changed_at(a.db.groups, b.db.groups, i)
            &&& b.db.commands == a.db.commands
            &&& b.db.history == a.db.history
        }),
{
    lemma_first_named(a.db.groups, a.update_target_group_name);
    lemma_group_pos(a.db.groups, trimmed(a.group_name));
    match crate::registry::group_pos(a.db.groups, a.update_target_group_name) {
        Some(p) => lemma_first_named_unique(a.db.groups, a.update_target_group_name, p, i),
        None => {},
    }
}

/// Saving the command form on the add screen with a non-blank title and
/// script that no command has: the registry gains exactly that command, at
/// the end, unused and not a favourite.
pub proof fn law_command_add_form_appends(a: AppView)
    requires
        a.screen == AppScreen::AddCommand,
        trimmed(a.form_title).len() > 0,
        trimmed(a.form_script).len() > 0,
        forall|j: int| 0 <= j < a.db.commands.len() ==> a.db.commands[j].title != trimmed(a.form_title),
    ensures
        ({
            let (b, e) = save_form_step(a);
            &&& e == EffectView::Save
            &&& b.db.commands == a.db.commands.push(
                CommandView {
                    title: trimmed(a.form_title),
                    description: trimmed(a.form_desc),
                    script: trimmed(a.form_script),
                    group: if trimmed(a.form_group).len() == 0 {
                        None
                    } else {
                        Some(trimmed(a.form_group))
                    },
                    use_count: 0,
                    favorite: false,
                },
            )
            &&& b.db.groups == a.db.groups
            &&& b.db.history == a.db.history
        }),
{
    lemma_command_pos(a.db.commands, trimmed(a.form_title));
}

/// Saving the group form on the add screen with a non-blank name that no
/// group has: the registry gains exactly that group, with the form's
/// sequence, at the end, unused and not a favourite.
pub proof fn law_group_add_form_appends(a: AppView)
    requires
        a.screen == AppScreen::AddGroup,
        trimmed(a.group_name).len() > 0,
        forall|j: int| 0 <= j < a.db.groups.len() ==> a.db.groups[j].name != trimmed(a.group_name),
    ensures
        ({
            let (b, e) = save_group_step(a);
            &&& e == EffectView::Save
            &&& b.db.groups == a.db.groups.push(
                GroupView {
                    name: trimmed(a.group_name),
                    description: trimmed(a.group_desc),
                    commands: a.group_commands,
                    use_count: 0,
                    favorite: false,
                },
            )
            &&& b.db.commands == a.db.commands
            &&& b.db.history == a.db.history
        }),
{
    lemma_group_pos(a.db.groups, trimmed(a.group_name));
}

// ---------------------------------------------------------------------------
// Command-line updates and deletions
// ---------------------------------------------------------------------------

/// `command update --title t ...` on a registry with a command titled `t`:
/// it succeeds, and the first such command takes the value of each flag that
/// is given (`--script`, `--desc`, and `--group`, where an empty group
/// clears it) and keeps every other field; every other command, the groups
/// and the history stay.
pub proof fn law_cli_command_update_sets_the_flags(db: DbView, args: Seq<Seq<char>>, t: Seq<char>, i: int)
    requires
        args.len() > 0,
        args[0] == "update"@,
        flag_value(args, "--title"@) == Some(t),
        first_titled(db.commands, t, i),
    ensures
        ({
            let (r, res) = cli_command_step(db, args);
            let old = db.commands[i];
            let new = r.commands[i];
            &&& res == Ok::<CliOutcomeView, CliErrorView>(CliOutcomeView::Updated)
            &&& new.title == old.title
            &&& new.script == (match flag_value(args, "--script"@) {
                Some(v) => v,
                None => old.script,
            })
            &&& new.description == (match flag_value(args, "--desc"@) {
                Some(v) => v,
                None => old.description,
            })
            &&& new.group == (match flag_value(args, "--group"@) {
                Some(v) => if v.len() == 0 {
                    None
                } else {
                    Some(v)
                },
                None => old.group,
            })
            &&& new.use_count == old.use_count
            &&& new.favorite == old.favorite
            &&& only_changed_at(db.commands, r.commands, i)
            &&& r.groups == db.groups
            &&& r.history == db.history
        }),
{
    reveal_strlit("update");
    reveal_strlit("add");
    reveal_strlit("delete");
    assert("update"@.len() == 6 && "add"@.len() == 3 && "delete"@.len() == 6);
    assert("update"@[0] == 'u' && "delete"@[0] == 'd');
    assert(cli_command_step(db, args) == crate::cli::admin::command_update_step(db, args));
    lemma_first_titled(db.commands, t);
    match crate::registry::command_pos(db.commands, t) {
        Some(p) => lemma_first_titled_unique(db.commands, t, p, i),
        None => {},
    }
}

/// `command update --title t` when no command is titled `t`: refused as not
/// found, the registry unchanged.
pub proof fn law_cli_command_update_needs_the_command(db: DbView, args: Seq<Seq<char>>, t: Seq<char>)
    requires
        args.len() > 0,
        args[0] == "update"@,
        flag_value(args, "--title"@) == Some(t),
        forall|j: int| 0 <= j < db.commands.len() ==> db.commands[j].title != t,
    ensures
        cli_command_step(db, args) == (db, Err::<CliOutcomeView, CliErrorView>(CliErrorView::CommandNotFound(t))),
{
    reveal_strlit("update");
    reveal_strlit("add");
    reveal_strlit("delete");
    assert("update"@.len() == 6 && "add"@.len() == 3 && "delete"@.len() == 6);
    assert("update"@[0] == 'u' && "delete"@[0] == 'd');
    lemma_command_pos(db.commands, t);
}

/// `group update --name n ...` on a registry with a group named `n`: it
/// succeeds, and the first such group takes the value of each flag that is
/// given (`--desc`, and `--commands` as a trimmed comma-separated list) and
/// keeps every other field; every other group, the commands and the history
/// stay.
pub proof fn law_cli_group_update_sets_the_flags(db: DbView, args: Seq<Seq<char>>, n: Seq<char>, i: int)
    requires
        args.len() > 0,
        args[0] == "update"@,
        flag_value(args, "--name"@) == Some(n),
        first_named(db.groups, n, i),
    ensures
        ({
            let (r, res) = cli_group_step(db, args);
            let old = db.groups[i];
            let new = r.groups[i];
            &&& res == Ok::<CliOutcomeView, CliErrorView>(CliOutcomeView::Updated)
            &&& new.name == old.name
            &&& new.description == (match flag_value(args, "--desc"@) {
                Some(v) => v,
                None => old.description,
            })
            &&& new.commands == (match flag_value(args, "--commands"@) {
                Some(v) => comma_list(v),
                None => old.commands,
            })
            &&& new.use_count == old.use_count
            &&& new.favorite == old.favorite
            &&& only_changed_at(db.groups, r.groups, i)
            &&& r.commands == db.commands
            &&& r.history == db.history
        }),
{
    reveal_strlit("update");
    reveal_strlit("add");
    reveal_strlit("delete");
    assert("update"@.len() == 6 && "add"@.len() == 3 && "delete"@.len() == 6);
    assert("update"@[0] == 'u' && "delete"@[0] == 'd');
    lemma_first_named(db.groups, n);
    match crate::registry::group_pos(db.groups, n) {
        Some(p) => lemma_first_named_unique(db.groups, n, p, i),
        None => {},
    }
}

/// `command delete --title t` on a registry with a command titled `t`: it
/// succeeds and exactly the first such command is removed; with unique
/// titles no command titled `t` is left. The groups and history stay.
pub proof fn law_cli_command_delete_removes_it(db: DbView, args: Seq<Seq<char>>, t: Seq<char>, i: int)
    requires
        args.len() > 0,
        args[0] == "delete"@,
        flag_value(args, "--title"@) == Some(t),
        first_titled(db.commands, t, i),
    ensures
        ({
            let (r, res) = cli_command_step(db, args);
            &&& res == Ok::<CliOutcomeView, CliErrorView>(CliOutcomeView::Deleted(t))
            &&& r.commands == db.commands.remove(i)
            &&& r.groups == db.groups
            &&& r.history == db.history
            &&& unique_titles(db.commands) ==> forall|k: int|
                0 <= k < r.commands.len() ==> r.commands[k].title != t
        }),
{
    reveal_strlit("update");
    reveal_strlit("add");
    reveal_strlit("delete");
    assert("update"@.len() == 6 && "add"@.len() == 3 && "delete"@.len() == 6);
    assert("update"@[0] == 'u' && "delete"@[0] == 'd');
    lemma_first_titled(db.commands, t);
    match crate::registry::command_pos(db.commands, t) {
        Some(p) => lemma_first_titled_unique(db.commands, t, p, i),
        None => {},
    }
    let r = db.commands.remove(i);
    assert forall|k: int| 0 <= k < r.len() && unique_titles(db.commands) implies r[k].title != t by {
        if k < i {
            assert(r[k] == db.commands[k]);
        } else {
            assert(r[k] == db.commands[k + 1]);
        }
    }
}

// ---------------------------------------------------------------------------
// Confirmed deletion on the console
// ---------------------------------------------------------------------------

/// The Y answer to the console's deletion prompt for a command titled `t`:
/// when one exists, exactly the first such command is removed and the
/// registry is written; with unique titles no command titled `t` is left;
/// when none exists nothing changes in the registry. Either way the prompt
/// closes, the selection returns to the top, and the groups and history stay.
pub proof fn law_confirmed_command_deletion_removes_it(a: AppView, key: Key, t: Seq<char>)
    requires
        a.delete_confirm_title == Some(t),
        !a.delete_confirm_group,
        key.code == KeyCode::Char('y') || key.code == KeyCode::Char('Y'),
    ensures
        ({
            let (b, e) = key_step(a, key);
            &&& b.delete_confirm_title is None
            &&& b.list_selected == 0
            &&& b.db.groups == a.db.groups
            &&& b.db.history == a.db.history
            &&& forall|i: int| first_titled(a.db.commands, t, i) ==> b.db.commands == a.db.commands.remove(i)
                && e == EffectView::Save
            &&& (forall|j: int| 0 <= j < a.db.commands.len() ==> a.db.commands[j].title != t) ==> b.db
                == a.db && e == EffectView::Nothing
            &&& unique_titles(a.db.commands) ==> forall|k: int|
                0 <= k < b.db.commands.len() ==> b.db.commands[k].title != t
        }),
{
    lemma_first_titled(a.db.commands, t);
    let b = key_step(a, key).0;
    match crate::registry::command_pos(a.db.commands, t) {
        Some(p) => {
            assert forall|i: int| first_titled(a.db.commands, t, i) implies i == p by {
                lemma_first_titled_unique(a.db.commands, t, p, i);
            }
            let r = a.db.commands.remove(p);
            assert forall|k: int| 0 <= k < r.len() && unique_titles(a.db.commands) implies r[k].title
                != t by {
                if k < p {
                    assert(r[k] == a.db.commands[k]);
                } else {
                    assert(r[k] == a.db.commands[k + 1]);
                }
            }
        },
        None => {},
    }
}

/// The Y answer to the console's deletion prompt for a group named `n`:
/// when one exists, exactly the first such group is removed and the registry
/// is written; with unique names no group named `n` is left; when none
/// exists nothing changes in the registry. Either way the prompt closes, and
/// the commands and history stay.
pub proof fn law_confirmed_group_deletion_removes_it(a: AppView, key: Key, n: Seq<char>)
    requires
        a.delete_confirm_title == Some(n),
        a.delete_confirm_group,
        key.code == KeyCode::Char('y') || key.code == KeyCode::Char('Y'),
    ensures
        ({
            let (b, e) = key_step(a, key);
            &&& b.delete_confirm_title is None
            &&& b.list_selected == 0
            &&& b.db.commands == a.db.commands
            &&& b.db.history == a.db.history
            &&& forall|i: int| first_named(a.db.groups, n, i) ==> b.db.groups == a.db.groups.remove(i)
                && e == EffectView::Save
            &&& (forall|j: int| 0 <= j < a.db.groups.len() ==> a.db.groups[j].name != n) ==> b.db
                == a.db && e == EffectView::Nothing
            &&& unique_names(a.db.groups) ==> forall|k: int|
                0 <= k < b.db.groups.len() ==> b.db.groups[k].name != n
        }),
{
    lemma_first_named(a.db.groups, n);
    match crate::registry::group_pos(a.db.groups, n) {
        Some(p) => {
            assert forall|i: int| first_named(a.db.groups, n, i) implies i == p by {
                lemma_first_named_unique(a.db.groups, n, p, i);
            }
            let r = a.db.groups.remove(p);
            assert forall|k: int| 0 <= k < r.len() && unique_names(a.db.groups) implies r[k].name
                != n by {
                if k < p {
                    assert(r[k] == a.db.groups[k]);
                } else {
                    assert(r[k] == a.db.groups[k + 1]);
                }
            }
        },
        None => {},
    }
}

/// The N or Esc answer to the console's deletion prompt closes it and leaves
/// the registry as it was.
pub proof fn law_declined_deletion_keeps_the_registry(a: AppView, key: Key)
    requires
        a.delete_confirm_title is Some,
        key.code == KeyCode::Char('n') || key.code == KeyCode::Char('N') || key.code == KeyCode::Esc,
    ensures
        key_step(a, key).0.db == a.db,
        key_step(a, key).0.delete_confirm_title is None,
        key_step(a, key).1 == EffectView::Nothing,
{
}

// ---------------------------------------------------------------------------
// Command-line additions and the answered deletion prompt
// ---------------------------------------------------------------------------

/// `command add --title t --script s ...` with a title no command has: it
/// succeeds and the registry gains exactly that command at the end, with the
/// given description (empty when not given) and group, unused and not a
/// favourite.
pub proof fn law_cli_command_add_appends(db: DbView, args: Seq<Seq<char>>, t: Seq<char>, s: Seq<char>)
    requires
        args.len() > 0,
        args[0] == "add"@,
        flag_value(args, "--title"@) == Some(t),
        flag_value(args, "--script"@) == Some(s),
        forall|j: int| 0 <= j < db.commands.len() ==> db.commands[j].title != t,
    ensures
        ({
            let (r, res) = cli_command_step(db, args);
            &&& res == Ok::<CliOutcomeView, CliErrorView>(CliOutcomeView::Added)
            &&& r.commands == db.commands.push(
                CommandView {
                    title: t,
                    description: match flag_value(args, "--desc"@) {
                        Some(d) => d,
                        None => Seq::empty(),
                    },
                    script: s,
                    group: flag_value(args, "--group"@),
                    use_count: 0,
                    favorite: false,
                },
            )
            &&& r.groups == db.groups
            &&& r.history == db.history
        }),
{
    reveal_strlit("add");
    lemma_command_pos(db.commands, t);
}

/// `group add --name n --desc d ...` with a name no group has: it succeeds
/// and the registry gains exactly that group at the end, with the given
/// commands (none when not given), unused and not a favourite.
pub proof fn law_cli_group_add_appends(db: DbView, args: Seq<Seq<char>>, n: Seq<char>, d: Seq<char>)
    requires
        args.len() > 0,
        args[0] == "add"@,
        flag_value(args, "--name"@) == Some(n),
        flag_value(args, "--desc"@) == Some(d),
        forall|j: int| 0 <= j < db.groups.len() ==> db.groups[j].name != n,
    ensures
        ({
            let (r, res) = cli_group_step(db, args);
            &&& res == Ok::<CliOutcomeView, CliErrorView>(CliOutcomeView::Added)
            &&& r.groups == db.groups.push(
                GroupView {
                    name: n,
                    description: d,
                    commands: match flag_value(args, "--commands"@) {
                        Some(c) => comma_list(c),
                        None => Seq::empty(),
                    },
                    use_count: 0,
                    favorite: false,
                },
            )
            &&& r.commands == db.commands
            &&& r.history == db.history
        }),
{
    reveal_strlit("add");
    lemma_group_pos(db.groups, n);
}

/// `group delete --name n` on a registry with a group named `n`: it
/// succeeds and exactly the first such group is removed.
pub proof fn law_cli_group_delete_removes_it(db: DbView, args: Seq<Seq<char>>, n: Seq<char>, i: int)
    requires
        args.len() > 0,
        args[0] == "delete"@,
        flag_value(args, "--name"@) == Some(n),
        first_named(db.groups, n, i),
    ensures
        ({
            let (r, res) = cli_group_step(db, args);
            &&& res == Ok::<CliOutcomeView, CliErrorView>(CliOutcomeView::Deleted(n))
            &&& r.groups == db.groups.remove(i)
            &&& r.commands == db.commands
            &&& r.history == db.history
        }),
{
    reveal_strlit("update");
    reveal_strlit("add");
    reveal_strlit("delete");
    assert("update"@.len() == 6 && "add"@.len() == 3 && "delete"@.len() == 6);
    assert("update"@[0] == 'u' && "delete"@[0] == 'd');
    lemma_first_named(db.groups, n);
    match crate::registry::group_pos(db.groups, n) {
        Some(p) => lemma_first_named_unique(db.groups, n, p, i),
        None => {},
    }
}

/// `delete <name>` after the prompt: an answer that does not confirm leaves
/// the registry alone; a confirming answer removes exactly the first entry
/// of that name (a command or a group as asked), or reports it gone.
pub proof fn law_answered_deletion(db: DbView, name: Seq<char>, is_command: bool, response: Seq<char>)
    ensures
        ({
            let (r, out) = delete_step(db, name, is_command, response);
            &&& !confirms(response) ==> r == db && out == DeleteOutcome::Cancelled
            &&& confirms(response) && is_command ==> (forall|i: int|
                first_titled(db.commands, name, i) ==> r == (DbView { commands: db.commands.remove(i), ..db })
                    && out == DeleteOutcome::Deleted)
            &&& confirms(response) && !is_command ==> (forall|i: int|
                first_named(db.groups, name, i) ==> r == (DbView { groups: db.groups.remove(i), ..db })
                    && out == DeleteOutcome::Deleted)
            &&& confirms(response) && is_command && (forall|j: int|
                0 <= j < db.commands.len() ==> db.commands[j].title != name) ==> r == db && out
                == DeleteOutcome::Vanished
            &&& confirms(response) && !is_command && (forall|j: int|
                0 <= j < db.groups.len() ==> db.groups[j].name != name) ==> r == db && out
                == DeleteOutcome::Vanished
        }),
{
    lemma_first_titled(db.commands, name);
    lemma_first_named(db.groups, name);
    match crate::registry::command_pos(db.commands, name) {
        Some(p) => {
            assert forall|i: int| first_titled(db.commands, name, i) implies i == p by {
                lemma_first_titled_unique(db.commands, name, p, i);
            }
        },
        None => {},
    }
    match crate::registry::group_pos(db.groups, name) {
        Some(p) => {
            assert forall|i: int| first_named(db.groups, name, i) implies i == p by {
                lemma_first_named_unique(db.groups, name, p, i);
            }
        },
        None => {},
    }
}

// ---------------------------------------------------------------------------
// Favourites, run counts and history
// ---------------------------------------------------------------------------

/// Toggling the favourite mark of a command flips exactly the mark of the
/// first command of that title; toggling a group's flips exactly that
/// group's mark. Nothing else changes.
pub proof fn law_favorite_toggle_flips_one_mark(db: DbView, name: Seq<char>, i: int, k: int)
    ensures
        first_titled(db.commands, name, i) ==> ({
            let r = toggled_favorite(db, name, false);
            &&& r.commands[i] == (CommandView { favorite: !db.commands[i].favorite, ..db.commands[i] })
            &&& only_changed_at(db.commands, r.commands, i)
            &&& r.groups == db.groups
            &&& r.history == db.history
        }),
        first_named(db.groups, name, k) ==> ({
            let r = toggled_favorite(db, name, true);
            &&& r.groups[k] == (GroupView { favorite: !db.groups[k].favorite, ..db.groups[k] })
            &&& only_changed_at(db.groups, r.groups, k)
            &&& r.commands == db.commands
            &&& r.history == db.history
        }),
{
    lemma_first_titled(db.commands, name);
    lemma_first_named(db.groups, name);
    match crate::registry::command_pos(db.commands, name) {
        Some(p) => if first_titled(db.commands, name, i) {
            lemma_first_titled_unique(db.commands, name, p, i);
        },
        None => {},
    }
    match crate::registry::group_pos(db.groups, name) {
        Some(p) => if first_named(db.groups, name, k) {
            lemma_first_named_unique(db.groups, name, p, k);
        },
        None => {},
    }
}

/// Running a command counts exactly one more run of the first command of
/// that title and runs its script; running a group counts one more run of
/// the first group of that name and runs its sequence. Nothing else changes.
pub proof fn law_a_run_counts_once(db: DbView, name: Seq<char>, i: int, k: int)
    ensures
        first_titled(db.commands, name, i) ==> ({
            let r = bumped_command(db, name);
            &&& r.commands[i].use_count == db.commands[i].use_count + 1
                || db.commands[i].use_count == u32::MAX
            &&& r.commands[i] == (CommandView { use_count: r.commands[i].use_count, ..db.commands[i] })
            &&& only_changed_at(db.commands, r.commands, i)
            &&& r.groups == db.groups
            &&& r.history == db.history
            &&& script_of(db, name) == Some(db.commands[i].script)
        }),
        first_named(db.groups, name, k) ==> ({
            let r = bumped_group(db, name);
            &&& r.groups[k].use_count == db.groups[k].use_count + 1 || db.groups[k].use_count
                == u32::MAX
            &&& r.groups[k] == (GroupView { use_count: r.groups[k].use_count, ..db.groups[k] })
            &&& only_changed_at(db.groups, r.groups, k)
            &&& r.commands == db.commands
            &&& r.history == db.history
            &&& sequence_of(db, name) == Some(db.groups[k].commands)
        }),
        (forall|j: int| 0 <= j < db.commands.len() ==> db.commands[j].title != name) ==> bumped_command(
            db,
            name,
        ) == db && script_of(db, name) is None,
        (forall|j: int| 0 <= j < db.groups.len() ==> db.groups[j].name != name) ==> bumped_group(
            db,
            name,
        ) == db && sequence_of(db, name) is None,
{
    lemma_first_titled(db.commands, name);
    lemma_first_named(db.groups, name);
    match crate::registry::command_pos(db.commands, name) {
        Some(p) => if first_titled(db.commands, name, i) {
            lemma_first_titled_unique(db.commands, name, p, i);
        },
        None => {},
    }
    match crate::registry::group_pos(db.groups, name) {
        Some(p) => if first_named(db.groups, name, k) {
            lemma_first_named_unique(db.groups, name, p, k);
        },
        None => {},
    }
}

/// Recording a run keeps the newest entries: all of them with the new one
/// at the end while there is room, else the newest `MAX_HISTORY`.
pub proof fn law_history_keeps_the_newest(h: Seq<HistoryView>, e: HistoryView)
    requires
        h.len() <= MAX_HISTORY,
    ensures
        h.len() < MAX_HISTORY ==> capped_push(h, e) == h.push(e),
        h.len() == MAX_HISTORY ==> capped_push(h, e) == h.push(e).skip(1),
{
    assert(h.push(e).drop_first() =~= h.push(e).skip(1));
}

// ---------------------------------------------------------------------------
// The editor forms' keys
// ---------------------------------------------------------------------------

/// A character typed on the command form goes to the end of the focused
/// text field, Backspace erases that field's last character, and the other
/// fields stay.
pub proof fn law_form_typing_edits_the_focused_field(a: AppView, key: Key)
    ensures
        ({
            let b = form_key_step(a, key).0;
            &&& key.code matches KeyCode::Char(c) ==> {
                &&& b.form_title == (if a.form_focus == FormField::Title {
                    a.form_title.push(c)
                } else {
                    a.form_title
                })
                &&& b.form_desc == (if a.form_focus == FormField::Description {
                    a.form_desc.push(c)
                } else {
                    a.form_desc
                })
                &&& b.form_script == (if a.form_focus == FormField::Script {
                    a.form_script.push(c)
                } else {
                    a.form_script
                })
                &&& b.form_group == (if a.form_focus == FormField::Group {
                    a.form_group.push(c)
                } else {
                    a.form_group
                })
                &&& b.db == a.db
            }
            &&& (key.code == KeyCode::Backspace && a.form_focus == FormField::Script
                && a.form_script.len() > 0) ==> b.form_script == a.form_script.drop_last()
                && b.form_title == a.form_title
            &&& (key.code == KeyCode::Backspace && a.form_focus == FormField::Title
                && a.form_title.len() > 0) ==> b.form_title == a.form_title.drop_last()
                && b.form_script == a.form_script
        }),
{
}

/// Group form keys on the sequence: Shift+Down or J swaps the selected
/// entry with the next and follows it; Shift+Up or K swaps it with the
/// previous and follows it; Backspace, Delete or D removes it. On the
/// available commands, Enter or A appends the highlighted command's title
/// and selects it. The registry is untouched.
pub proof fn law_group_form_keys_edit_the_sequence(a: AppView, key: Key)
    requires
        a.group_commands.len() < usize::MAX,
    ensures
        ({
            let s = a.group_commands;
            let sel = a.group_commands_selected as int;
            let b = group_key_step(a, key).0;
            let down = (key.code == KeyCode::Down && key.shift) || key.code == KeyCode::Char('j')
                || key.code == KeyCode::Char('J');
            let up = (key.code == KeyCode::Up && key.shift) || key.code == KeyCode::Char('k')
                || key.code == KeyCode::Char('K');
            let remove = key.code == KeyCode::Backspace || key.code == KeyCode::Delete || key.code
                == KeyCode::Char('d') || key.code == KeyCode::Char('D');
            let add = key.code == KeyCode::Enter || key.code == KeyCode::Char('a') || key.code
                == KeyCode::Char('A');
            &&& a.group_focus == GroupFormField::CommandsList && down && sel + 1 < s.len() ==> {
                &&& b.group_commands == s.update(sel, s[sel + 1]).update(sel + 1, s[sel])
                &&& b.group_commands_selected == sel + 1
            }
            &&& a.group_focus == GroupFormField::CommandsList && up && 0 < sel < s.len() ==> {
                &&& b.group_commands == s.update(sel, s[sel - 1]).update(sel - 1, s[sel])
                &&& b.group_commands_selected == sel - 1
            }
            &&& a.group_focus == GroupFormField::CommandsList && remove && sel < s.len()
                ==> b.group_commands == s.remove(sel)
            &&& a.group_focus == GroupFormField::AvailableCommands && add && a.group_avail_selected
                < a.db.commands.len() ==> {
                &&& b.group_commands == s.push(a.db.commands[a.group_avail_selected as int].title)
                &&& b.group_commands_selected == s.len()
            }
            &&& b.db == a.db || a.group_focus == GroupFormField::Save
        }),
{
}

// ---------------------------------------------------------------------------
// Import on the console
// ---------------------------------------------------------------------------

/// What reading the backup file gives is applied to the registry: a full
/// backup replaces it, a command or group list replaces that part only, and
/// a missing, unreadable or invalid file leaves it alone.
pub proof fn law_console_import_applies_the_backup(a: AppView, o: ImportOutcomeView)
    ensures
        ({
            let (b, e) = import_outcome_step(a, o);
            &&& o matches ImportOutcomeView::Parsed(BackupView::Everything(d)) ==> b.db == d
                && e == EffectView::Save
            &&& o matches ImportOutcomeView::Parsed(BackupView::Commands(cs)) ==> b.db == (DbView {
                commands: cs,
                ..a.db
            }) && e == EffectView::Save
            &&& o matches ImportOutcomeView::Parsed(BackupView::Groups(gs)) ==> b.db == (DbView {
                groups: gs,
                ..a.db
            }) && e == EffectView::Save
            &&& !(o is Parsed) ==> b.db == a.db && e == EffectView::Nothing
            &&& b.import_message is Some
        }),
{
}

// ---------------------------------------------------------------------------
// The list screens and the dashboard act on the highlighted entry
// ---------------------------------------------------------------------------

/// On the registry list (not searching, nothing grabbed) with the selection
/// on a shown command: D asks to delete that command, Enter and R run it,
/// E opens the editor filled from it, F flips its favourite mark. On the
/// group tab the same keys act on the selected shown group.
pub proof fn law_list_keys_act_on_the_selected_entry(a: AppView, key: Key)
    requires
        !a.list_is_searching,
        a.list_grabbed is None,
    ensures
        ({
            let (b, e) = list_screen_step(a, key, ListMode::Browse);
            let sel = a.list_selected as int;
            let fc = filtered_commands(a);
            let fg = filtered_groups(a);
            &&& a.list_tab == 0 && sel < fc.len() ==> {
                let c = fc[sel];
                &&& (key.code == KeyCode::Char('d') || key.code == KeyCode::Char('D'))
                    ==> b.delete_confirm_title == Some(c.title) && !b.delete_confirm_group
                    && b.db == a.db
                &&& (key.code == KeyCode::Enter || key.code == KeyCode::Char('r')
                    || key.code == KeyCode::Char('R')) ==> e == EffectView::RunCommand(c.title)
                    && b.db == a.db
                &&& (key.code == KeyCode::Char('e') || key.code == KeyCode::Char('E')) ==> {
                    &&& b.screen == AppScreen::UpdateCommandForm
                    &&& b.form_title == c.title
                    &&& b.form_desc == c.description
                    &&& b.form_script == c.script
                    &&& b.update_target_title == c.title
                    &&& b.db == a.db
                }
                &&& (key.code == KeyCode::Char('f') || key.code == KeyCode::Char('F')) ==> b.db
                    == toggled_favorite(a.db, c.title, false)
            }
            &&& a.list_tab == 1 && sel < fg.len() ==> {
                let g = fg[sel];
                &&& (key.code == KeyCode::Char('d') || key.code == KeyCode::Char('D'))
                    ==> b.delete_confirm_title == Some(g.name) && b.delete_confirm_group
                    && b.db == a.db
                &&& (key.code == KeyCode::Enter || key.code == KeyCode::Char('r')
                    || key.code == KeyCode::Char('R')) ==> e == EffectView::RunGroup(g.name)
                    && b.db == a.db
                &&& (key.code == KeyCode::Char('e') || key.code == KeyCode::Char('E')) ==> {
                    &&& b.screen == AppScreen::UpdateGroupForm
                    &&& b.group_name == g.name
                    &&& b.group_desc == g.description
                    &&& b.group_commands == g.commands
                    &&& b.update_target_group_name == g.name
                    &&& b.db == a.db
                }
                &&& (key.code == KeyCode::Char('f') || key.code == KeyCode::Char('F')) ==> b.db
                    == toggled_favorite(a.db, g.name, true)
            }
        }),
{
}

/// Enter or R on the dashboard runs the highlighted entry of the "Most Run"
/// ranking: the command or group of that name.
pub proof fn law_dashboard_runs_the_highlighted_entry(a: AppView, key: Key)
    requires
        a.dashboard_selected < most_run(a.db).len(),
        key.code == KeyCode::Enter || key.code == KeyCode::Char('r') || key.code == KeyCode::Char('R'),
    ensures
        ({
            let it = most_run(a.db)[a.dashboard_selected as int];
            let (b, e) = dashboard_key_step(a, key);
            &&& e == (if it.is_group {
                EffectView::RunGroup(it.name)
            } else {
                EffectView::RunCommand(it.name)
            })
            &&& b.db == a.db
        }),
{
    crate::laws::law_most_run_is_a_ranking(a.db);
}

// ---------------------------------------------------------------------------
// What a search shows
// ---------------------------------------------------------------------------

/// A command matches a query when the lowercased query occurs in its
/// lowercased title, description or script.
pub open spec fn command_matches(c: CommandView, q: Seq<char>) -> bool {
    let lq = unicode_lowercase(q);
    ||| is_substring(lq, unicode_lowercase(c.title))
    ||| is_substring(lq, unicode_lowercase(c.description))
    ||| is_substring(lq, unicode_lowercase(c.script))
}

/// A group matches a query when the lowercased query occurs in its
/// lowercased name, description or one of its command titles.
pub open spec fn group_matches(g: GroupView, q: Seq<char>) -> bool {
    let lq = unicode_lowercase(q);
    ||| is_substring(lq, unicode_lowercase(g.name))
    ||| is_substring(lq, unicode_lowercase(g.description))
    ||| exists|k: int| 0 <= k < g.commands.len() && is_substring(lq, unicode_lowercase(g.commands[k]))
}

/// The console's lists show, in registry order, every command (group) when
/// the query is empty, else exactly those that match it.
pub proof fn law_console_search_shows_the_matches(a: AppView)
    ensures
        filtered_commands(a) == a.db.commands.filter(
            |c: CommandView| a.list_search_query.len() == 0 || command_matches(c, a.list_search_query),
        ),
        filtered_groups(a) == a.db.groups.filter(
            |g: GroupView| a.list_search_query.len() == 0 || group_matches(g, a.list_search_query),
        ),
{
    let q = a.list_search_query;
    let p1 = |c: CommandView| crate::registry::command_selected(c, q, true);
    let p2 = |c: CommandView| q.len() == 0 || command_matches(c, q);
    assert(p1 =~= p2);
    let g1 = |g: GroupView| crate::registry::group_selected(g, q, true);
    let g2 = |g: GroupView| q.len() == 0 || group_matches(g, q);
    assert(g1 =~= g2);
}

/// `command list`: with a query (`--search v`, else the first argument after
/// `list` that does not start with `-`) exactly the matching commands, else
/// all, in registry order; with `--most-run` the same commands ordered by
/// non-increasing run count.
pub proof fn law_cli_command_listing_shows_the_matches(db: DbView, args: Seq<Seq<char>>)
    ensures
        ({
            let q = search_query(args.skip(1));
            let found = match q {
                Some(v) => db.commands.filter(|c: CommandView| command_matches(c, v)),
                None => db.commands,
            };
            command_listing(db, args) matches CliOutcomeView::CommandsListed(shown, searched) && {
                &&& searched == q is Some
                &&& !has_arg(args, "--most-run"@) ==> shown == found
                &&& has_arg(args, "--most-run"@) ==> shown.to_multiset() == found.to_multiset()
                    && forall|i: int, j: int|
                    0 <= i < j < shown.len() ==> shown[i].use_count >= shown[j].use_count
            }
        }),
{
    let q = search_query(args.skip(1));
    match q {
        Some(v) => {
            let p1 = |c: CommandView| crate::registry::command_selected(c, v, false);
            let p2 = |c: CommandView| command_matches(c, v);
            assert(p1 =~= p2);
        },
        None => {},
    }
    let found = match q {
        Some(v) => crate::registry::selected_commands(db.commands, v, false),
        None => db.commands,
    };
    lemma_rank_sorted(found, rank_of::<CommandModel>());
    if has_arg(args, "--most-run"@) {
        crate::laws::law_most_run_listing_is_ranked(db, args);
    }
}

/// `group list`: with a query exactly the matching groups, else all, in
/// registry order; with `--most-run` the same groups ordered by
/// non-increasing run count.
pub proof fn law_cli_group_listing_shows_the_matches(db: DbView, args: Seq<Seq<char>>)
    ensures
        ({
            let q = search_query(args.skip(1));
            let found = match q {
                Some(v) => db.groups.filter(|g: GroupView| group_matches(g, v)),
                None => db.groups,
            };
            group_listing(db, args) matches CliOutcomeView::GroupsListed(shown, searched) && {
                &&& searched == q is Some
                &&& !has_arg(args, "--most-run"@) ==> shown == found
                &&& has_arg(args, "--most-run"@) ==> shown.to_multiset() == found.to_multiset()
                    && forall|i: int, j: int|
                    0 <= i < j < shown.len() ==> shown[i].use_count >= shown[j].use_count
            }
        }),
{
    let q = search_query(args.skip(1));
    match q {
        Some(v) => {
            let p1 = |g: GroupView| crate::registry::group_selected(g, v, false);
            let p2 = |g: GroupView| group_matches(g, v);
            assert(p1 =~= p2);
        },
        None => {},
    }
    let found = match q {
        Some(v) => crate::registry::selected_groups(db.groups, v, false),
        None => db.groups,
    };
    lemma_rank_sorted(found, rank_of::<GroupModel>());
    let shown = crate::ranking::rank_sorted(found, rank_of::<GroupModel>());
    assert forall|i: int, j: int| 0 <= i < j < shown.len() implies shown[i].use_count
        >= shown[j].use_count by {
        assert(crate::ranking::is_rank_ordered(shown, rank_of::<GroupModel>()));
    }
}

} // verus!
