//! Properties of the registry and the console that hold across operations.

use vstd::prelude::*;
use crate::app::{AppView, ItemView, all_items, favorite_items, filtered_commands, filtered_groups, filtered_favorites, most_run, toggled_favorite};
use crate::cli::admin::{command_add_step, group_add_step, command_listing, CliOutcomeView};
use crate::cli::flag_value;
use crate::cli::run::{
    MAX_HISTORY, GroupRunView, capped_push, first_occurrences, next_of, open_since, placeholder_names,
    script_of, tag_occurrences, tag_text,
};
use crate::db::{BackupView, CommandModel, CommandView, DbView, GroupView, HistoryView, restored};
use crate::ranking::{is_rank_ordered, lemma_rank_sorted, rank_of, rank_sorted};
use crate::registry::{
    command_pos, first_index, group_pos, has_command, lemma_command_pos, lemma_first_index,
    lemma_group_pos, selected_commands, selected_groups, without_command, without_group,
    command_selected, group_selected,
};
use crate::text::{is_substring, lowercase_keeps_emptiness, occurs_at, unicode_lowercase};
use crate::registry::{command_hits, field_hit, group_hits};
use crate::tui::events::forms::save_form_step;
use crate::tui::events::group_forms::{
    add_available, group_key_defined, group_key_step, moved_down, moved_up, remove_selected,
    save_group_step, swapped,
};
use crate::app::AppScreen;
use crate::tui::events::lists::{
    ListMode, common_key_step, delete_selected, edit_selected, favorite_selected_step, list_action_step,
    list_base, swap_step,
};

verus! {

broadcast use vstd::seq_lib::group_filter_ensures;

// ---------------------------------------------------------------------------
// Helpers
// ---------------------------------------------------------------------------

/// `first_index` only depends on which positions satisfy the predicate.
proof fn lemma_first_index_same<A, B>(s: Seq<A>, p: spec_fn(A) -> bool, t: Seq<B>, q: spec_fn(B) -> bool)
    requires
        s.len() == t.len(),
        forall|k: int| 0 <= k < s.len() ==> p(s[k]) == q(t[k]),
    ensures
        first_index(s, p) == first_index(t, q),
    decreases s.len(),
{
    if s.len() > 0 {
        assert forall|k: int| 0 <= k < s.drop_last().len() implies p(s.drop_last()[k]) == q(
            t.drop_last()[k],
        ) by {
            assert(s.drop_last()[k] == s[k] && t.drop_last()[k] == t[k]);
        }
        lemma_first_index_same(s.drop_last(), p, t.drop_last(), q);
    }
}

/// Filtering with a predicate that holds everywhere keeps everything.
proof fn lemma_filter_all<A>(s: Seq<A>, p: spec_fn(A) -> bool)
    requires
        forall|x: A| #[trigger] p(x),
    ensures
        s.filter(p) == s,
    decreases s.len(),
{
    reveal(Seq::filter);
    if s.len() > 0 {
        lemma_filter_all(s.drop_last(), p);
        assert(s.drop_last().push(s.last()) =~= s);
    } else {
        assert(s.filter(p) =~= s);
    }
}

// ---------------------------------------------------------------------------
// Ranking
// ---------------------------------------------------------------------------

/// The "Most Run Items" ranking holds every command and group exactly once,
/// with the use counts never increasing down the list.
pub proof fn law_most_run_is_a_ranking(db: DbView)
    ensures
        forall|i: int, j: int|
            0 <= i < j < most_run(db).len() ==> most_run(db)[i].use_count >= most_run(db)[j].use_count,
        most_run(db).to_multiset() == all_items(db).to_multiset(),
        most_run(db).len() == db.commands.len() + db.groups.len(),
{
    lemma_rank_sorted(all_items(db), rank_of::<crate::app::UsedItem>());
    let m = most_run(db);
    assert forall|i: int, j: int| 0 <= i < j < m.len() implies m[i].use_count >= m[j].use_count by {
        assert(is_rank_ordered(m, rank_of::<crate::app::UsedItem>()));
    }
}

/// `command list --most-run` lists the found commands with use counts never
/// increasing down the list, and no command gained or lost.
pub proof fn law_most_run_listing_is_ranked(db: DbView, args: Seq<Seq<char>>)
    requires
        crate::cli::admin::has_arg(args, "--most-run"@),
    ensures
        command_listing(db, args) matches CliOutcomeView::CommandsListed(shown, _) && (forall|
            i: int,
            j: int,
        | 0 <= i < j < shown.len() ==> shown[i].use_count >= shown[j].use_count),
{
    let q = crate::cli::search_query(args.skip(1));
    let found = match q {
        Some(q) => selected_commands(db.commands, q, false),
        None => db.commands,
    };
    lemma_rank_sorted(found, rank_of::<CommandModel>());
    let shown = rank_sorted(found, rank_of::<CommandModel>());
    assert forall|i: int, j: int| 0 <= i < j < shown.len() implies shown[i].use_count
        >= shown[j].use_count by {
        assert(is_rank_ordered(shown, rank_of::<CommandModel>()));
    }
}

// ---------------------------------------------------------------------------
// Search
// ---------------------------------------------------------------------------

/// With an empty search query the list screens show every command, every
/// group and every favourite.
pub proof fn law_empty_search_shows_everything(a: AppView)
    requires
        a.list_search_query.len() == 0,
    ensures
        filtered_commands(a) == a.db.commands,
        filtered_groups(a) == a.db.groups,
        filtered_favorites(a) == favorite_items(a.db),
{
    lemma_filter_all(a.db.commands, |c: CommandView| command_selected(c, a.list_search_query, true));
    lemma_filter_all(a.db.groups, |g: GroupView| group_selected(g, a.list_search_query, true));
    lemma_filter_all(
        favorite_items(a.db),
        |it: ItemView| crate::app::item_selected(it, a.list_search_query),
    );
}

/// A search shows exactly the commands that it selects: every shown
/// command is selected and every selected command is shown.
pub proof fn law_search_shows_exactly_the_matches(cs: Seq<CommandView>, q: Seq<char>, empty_shows_all: bool)
    ensures
        forall|k: int|
            0 <= k < selected_commands(cs, q, empty_shows_all).len() ==> command_selected(
                #[trigger] selected_commands(cs, q, empty_shows_all)[k],
                q,
                empty_shows_all,
            ),
        forall|k: int|
            0 <= k < cs.len() && command_selected(cs[k], q, empty_shows_all) ==> selected_commands(
                cs,
                q,
                empty_shows_all,
            ).contains(#[trigger] cs[k]),
        selected_commands(cs, q, empty_shows_all).len() <= cs.len(),
{
}

// ---------------------------------------------------------------------------
// Unique titles and names
// ---------------------------------------------------------------------------

/// No two commands share a title.
pub open spec fn unique_titles(cs: Seq<CommandView>) -> bool {
    forall|i: int, j: int| 0 <= i < j < cs.len() ==> cs[i].title != cs[j].title
}

/// No two groups share a name.
pub open spec fn unique_names(gs: Seq<GroupView>) -> bool {
    forall|i: int, j: int| 0 <= i < j < gs.len() ==> gs[i].name != gs[j].name
}

proof fn lemma_push_keeps_unique_titles(cs: Seq<CommandView>, c: CommandView)
    requires
        unique_titles(cs),
        forall|i: int| 0 <= i < cs.len() ==> cs[i].title != c.title,
    ensures
        unique_titles(cs.push(c)),
{
    assert forall|i: int, j: int| 0 <= i < j < cs.push(c).len() implies cs.push(c)[i].title
        != cs.push(c)[j].title by {
        if j == cs.len() {
        } else {
        }
    }
}

proof fn lemma_push_keeps_unique_names(gs: Seq<GroupView>, g: GroupView)
    requires
        unique_names(gs),
        forall|i: int| 0 <= i < gs.len() ==> gs[i].name != g.name,
    ensures
        unique_names(gs.push(g)),
{
    assert forall|i: int, j: int| 0 <= i < j < gs.push(g).len() implies gs.push(g)[i].name
        != gs.push(g)[j].name by {
        if j == gs.len() {
        } else {
        }
    }
}

/// `command add` never makes two commands share a title.
pub proof fn law_cli_add_keeps_titles_unique(db: DbView, args: Seq<Seq<char>>)
    requires
        unique_titles(db.commands),
    ensures
        unique_titles(command_add_step(db, args).0.commands),
{
    match flag_value(args, "--title"@) {
        Some(title) => {
            if flag_value(args, "--script"@) is Some && !has_command(db, title) {
                let r = command_add_step(db, args).0.commands;
                let c = r.last();
                assert(r == db.commands.push(c));
                lemma_push_keeps_unique_titles(db.commands, c);
            }
        },
        None => {},
    }
}

/// `group add` never makes two groups share a name.
pub proof fn law_cli_group_add_keeps_names_unique(db: DbView, args: Seq<Seq<char>>)
    requires
        unique_names(db.groups),
    ensures
        unique_names(group_add_step(db, args).0.groups),
{
    match flag_value(args, "--name"@) {
        Some(name) => {
            if flag_value(args, "--desc"@) is Some && !crate::registry::has_group(db, name) {
                let r = group_add_step(db, args).0.groups;
                let g = r.last();
                assert(r == db.groups.push(g));
                lemma_push_keeps_unique_names(db.groups, g);
            }
        },
        None => {},
    }
}

/// Saving the command form, to add or to edit, never makes two commands
/// share a title.
pub proof fn law_form_save_keeps_titles_unique(a: AppView)
    requires
        unique_titles(a.db.commands),
    ensures
        unique_titles(save_form_step(a).0.db.commands),
{
    let c = crate::tui::events::forms::form_command(a);
    let cs = a.db.commands;
    let r = save_form_step(a).0.db.commands;
    if c.title.len() > 0 && c.script.len() > 0 {
        if a.screen == crate::app::AppScreen::AddCommand && !has_command(a.db, c.title) {
            lemma_push_keeps_unique_titles(cs, c);
        } else if a.screen == crate::app::AppScreen::UpdateCommandForm && !(c.title
            != a.update_target_title && has_command(a.db, c.title)) {
            lemma_command_pos(cs, a.update_target_title);
            match command_pos(cs, a.update_target_title) {
                Some(p) => {
                    assert forall|i: int, j: int| 0 <= i < j < r.len() implies r[i].title
                        != r[j].title by {
                        if i == p {
                            if c.title == a.update_target_title {
                            } else {
                                assert(r[j] == cs[j]);
                            }
                        } else if j == p {
                            if c.title == a.update_target_title {
                            } else {
                                assert(r[i] == cs[i]);
                            }
                        } else {
                            assert(r[i] == cs[i] && r[j] == cs[j]);
                        }
                    }
                },
                None => {},
            }
        }
    }
}

/// Saving the group form, to add or to edit, never makes two groups share a
/// name.
pub proof fn law_form_save_keeps_names_unique(a: AppView)
    requires
        unique_names(a.db.groups),
    ensures
        unique_names(save_group_step(a).0.db.groups),
{
    let g = crate::tui::events::group_forms::form_group(a);
    let gs = a.db.groups;
    let r = save_group_step(a).0.db.groups;
    if g.name.len() > 0 {
        if a.screen == crate::app::AppScreen::AddGroup && !crate::registry::has_group(a.db, g.name) {
            lemma_push_keeps_unique_names(gs, g);
        } else if a.screen == crate::app::AppScreen::UpdateGroupForm && !(g.name
            != a.update_target_group_name && crate::registry::has_group(a.db, g.name)) {
            lemma_group_pos(gs, a.update_target_group_name);
            match group_pos(gs, a.update_target_group_name) {
                Some(p) => {
                    assert forall|i: int, j: int| 0 <= i < j < r.len() implies r[i].name
                        != r[j].name by {
                        if i == p {
                            if g.name == a.update_target_group_name {
                            } else {
                                assert(r[j] == gs[j]);
                            }
                        } else if j == p {
                            if g.name == a.update_target_group_name {
                            } else {
                                assert(r[i] == gs[i]);
                            }
                        } else {
                            assert(r[i] == gs[i] && r[j] == gs[j]);
                        }
                    }
                },
                None => {},
            }
        }
    }
}

/// A command added with `command add` is what running its title finds: its
/// script is the one given.
pub proof fn law_added_command_is_found(db: DbView, args: Seq<Seq<char>>)
    requires
        command_add_step(db, args).1 is Ok,
    ensures
        ({
            let title = flag_value(args, "--title"@)->0;
            script_of(command_add_step(db, args).0, title) == flag_value(args, "--script"@)
        }),
{
    let title = flag_value(args, "--title"@)->0;
    let cs = db.commands;
    let r = command_add_step(db, args).0.commands;
    let p = |c: CommandView| c.title == title;
    lemma_command_pos(cs, title);
    lemma_first_index(cs, p);
    assert(r.drop_last() =~= cs);
    assert(first_index(cs, p) is None);
    assert(command_pos(r, title) == Some(cs.len() as int));
}

/// After deleting the command titled `t`, no command has that title, as long
/// as titles were unique.
pub proof fn law_deleted_command_is_gone(db: DbView, t: Seq<char>)
    requires
        unique_titles(db.commands),
    ensures
        !has_command(without_command(db, t), t),
{
    lemma_command_pos(db.commands, t);
    match command_pos(db.commands, t) {
        Some(p) => {
            let r = db.commands.remove(p);
            assert forall|i: int| 0 <= i < r.len() implies r[i].title != t by {
                if i < p {
                    assert(r[i] == db.commands[i]);
                } else {
                    assert(r[i] == db.commands[i + 1]);
                }
            }
        },
        None => {},
    }
}

/// After deleting the group named `n`, no group has that name, as long as
/// names were unique.
pub proof fn law_deleted_group_is_gone(db: DbView, n: Seq<char>)
    requires
        unique_names(db.groups),
    ensures
        !crate::registry::has_group(without_group(db, n), n),
{
    lemma_group_pos(db.groups, n);
    match group_pos(db.groups, n) {
        Some(p) => {
            let r = db.groups.remove(p);
            assert forall|i: int| 0 <= i < r.len() implies r[i].name != n by {
                if i < p {
                    assert(r[i] == db.groups[i]);
                } else {
                    assert(r[i] == db.groups[i + 1]);
                }
            }
        },
        None => {},
    }
}

// ---------------------------------------------------------------------------
// Favourites and reordering
// ---------------------------------------------------------------------------

/// Flipping a favourite mark twice restores the registry.
pub proof fn law_favorite_toggle_twice_restores(db: DbView, name: Seq<char>, is_group: bool)
    ensures
        toggled_favorite(toggled_favorite(db, name, is_group), name, is_group) == db,
{
    let once = toggled_favorite(db, name, is_group);
    if is_group {
        let p = |g: GroupView| g.name == name;
        match group_pos(db.groups, name) {
            Some(i) => {
                lemma_group_pos(db.groups, name);
                lemma_first_index_same(db.groups, p, once.groups, p);
                let back = toggled_favorite(once, name, is_group).groups;
                assert(back[i] == db.groups[i]);
                assert(back =~= db.groups);
            },
            None => {},
        }
    } else {
        let p = |c: CommandView| c.title == name;
        match command_pos(db.commands, name) {
            Some(i) => {
                lemma_command_pos(db.commands, name);
                lemma_first_index_same(db.commands, p, once.commands, p);
                let back = toggled_favorite(once, name, is_group).commands;
                assert(back[i] == db.commands[i]);
                assert(back =~= db.commands);
            },
            None => {},
        }
    }
}

/// In the group form, moving the selected command down and then up again
/// restores the sequence and the selection.
pub proof fn law_move_down_then_up_restores(a: AppView)
    requires
        a.group_commands_selected + 1 < a.group_commands.len(),
        a.group_commands.len() <= usize::MAX,
    ensures
        moved_up(moved_down(a)) == a,
{
    let s = a.group_commands;
    let i = a.group_commands_selected as int;
    let back = moved_up(moved_down(a));
    assert(moved_down(a).group_commands_selected == i + 1);
    assert(back.group_commands_selected == a.group_commands_selected);
    assert(back.group_commands =~= s);
}

// ---------------------------------------------------------------------------
// History and group runs
// ---------------------------------------------------------------------------

/// Recording a run keeps the history within its limit, ends it with the new
/// entry, and keeps the most recent earlier entries in order.
pub proof fn law_history_stays_capped(h: Seq<HistoryView>, e: HistoryView)
    requires
        h.len() <= MAX_HISTORY,
    ensures
        capped_push(h, e).len() <= MAX_HISTORY,
        capped_push(h, e).last() == e,
        capped_push(h, e) == h.push(e).skip(h.push(e).len() - capped_push(h, e).len()),
{
    let r = capped_push(h, e);
    if h.len() + 1 > MAX_HISTORY {
        assert(r =~= h.push(e).skip(1));
    } else {
        assert(r =~= h.push(e).skip(0));
    }
}

/// A pipeline halts at its first failing step: once a step failed no further
/// command is run.
pub proof fn law_group_run_halts_after_failure(r: GroupRunView)
    requires
        r.failed > 0,
    ensures
        next_of(r) is None,
{
}

// ---------------------------------------------------------------------------
// Placeholders
// ---------------------------------------------------------------------------

proof fn lemma_open_since(s: Seq<char>)
    ensures
        open_since(s) matches Some(i) ==> 0 <= i < s.len() && s[i] == '<' && forall|k: int|
            i < k < s.len() ==> s[k] != '<' && s[k] != '>',
    decreases s.len(),
{
    if s.len() > 0 && s.last() != '<' && s.last() != '>' {
        lemma_open_since(s.drop_last());
        if let Some(i) = open_since(s) {
            assert forall|k: int| i < k < s.len() implies s[k] != '<' && s[k] != '>' by {
                if k < s.len() - 1 {
                    assert(s[k] == s.drop_last()[k]);
                }
            }
        }
    }
}

/// Every tag occurrence is a non-empty name without angle brackets that
/// occurs in `s` enclosed in `<` and `>`.
proof fn lemma_tag_occurrences(s: Seq<char>)
    ensures
        forall|k: int|
            0 <= k < tag_occurrences(s).len() ==> {
                let x = #[trigger] tag_occurrences(s)[k];
                &&& x.len() > 0
                &&& !x.contains('<')
                &&& !x.contains('>')
                &&& is_substring(tag_text(x), s)
            },
    decreases s.len(),
{
    if s.len() > 0 {
        let t = s.drop_last();
        lemma_tag_occurrences(t);
        lemma_open_since(t);
        let prev = tag_occurrences(t);
        assert forall|k: int| 0 <= k < prev.len() implies is_substring(tag_text(prev[k]), s) by {
            let x = prev[k];
            let i = choose|i: int| occurs_at(t, tag_text(x), i);
            assert(s.subrange(i, i + tag_text(x).len()) =~= t.subrange(i, i + tag_text(x).len()));
            assert(occurs_at(s, tag_text(x), i));
        }
        if s.last() == '>' {
            if let Some(i) = open_since(t) {
                if i + 1 < s.len() - 1 {
                    let x = s.subrange(i + 1, s.len() - 1);
                    assert(s.subrange(i, s.len() as int) =~= tag_text(x));
                    assert(occurs_at(s, tag_text(x), i));
                    assert forall|c: char| x.contains(c) implies c != '<' && c != '>' by {
                        let m = choose|m: int| 0 <= m < x.len() && x[m] == c;
                        assert(x[m] == s[i + 1 + m]);
                        assert(s[i + 1 + m] == t[i + 1 + m]);
                    }
                    let r = tag_occurrences(s);
                    assert(r == prev.push(x));
                    assert forall|k: int| 0 <= k < r.len() implies {
                        let y = #[trigger] r[k];
                        &&& y.len() > 0
                        &&& !y.contains('<')
                        &&& !y.contains('>')
                        &&& is_substring(tag_text(y), s)
                    } by {
                        if k < prev.len() {
                            assert(r[k] == prev[k]);
                        }
                    }
                }
            }
        }
    }
}

proof fn lemma_first_occurrences<A>(s: Seq<A>)
    ensures
        forall|k: int| 0 <= k < first_occurrences(s).len() ==> s.contains(#[trigger] first_occurrences(s)[k]),
        forall|i: int, j: int|
            0 <= i < j < first_occurrences(s).len() ==> first_occurrences(s)[i] != first_occurrences(s)[j],
    decreases s.len(),
{
    if s.len() > 0 {
        let t = s.drop_last();
        lemma_first_occurrences(t);
        let p = first_occurrences(t);
        let r = first_occurrences(s);
        assert forall|k: int| 0 <= k < r.len() implies s.contains(#[trigger] r[k]) by {
            if k < p.len() {
                assert(r[k] == p[k]);
                assert(t.contains(p[k]));
                let m = choose|m: int| 0 <= m < t.len() && t[m] == p[k];
                assert(s[m] == t[m]);
            } else {
                assert(r[k] == s.last());
                assert(s[s.len() - 1] == s.last());
            }
        }
        if !p.contains(s.last()) {
            assert forall|i: int, j: int| 0 <= i < j < r.len() implies r[i] != r[j] by {
                if j == p.len() {
                    assert(r[i] == p[i]);
                } else {
                    assert(r[i] == p[i] && r[j] == p[j]);
                }
            }
        }
    }
}

/// The placeholders that a run prompts for are distinct, non-empty names
/// without angle brackets, each written as `<name>` in the script.
pub proof fn law_placeholder_names(s: Seq<char>)
    ensures
        forall|i: int, j: int|
            0 <= i < j < placeholder_names(s).len() ==> placeholder_names(s)[i] != placeholder_names(s)[j],
        forall|k: int|
            0 <= k < placeholder_names(s).len() ==> {
                let x = #[trigger] placeholder_names(s)[k];
                &&& x.len() > 0
                &&& !x.contains('<')
                &&& !x.contains('>')
                &&& is_substring(tag_text(x), s)
            },
{
    lemma_tag_occurrences(s);
    lemma_first_occurrences(tag_occurrences(s));
    let occ = tag_occurrences(s);
    let names = placeholder_names(s);
    assert forall|k: int| 0 <= k < names.len() implies {
        let x = #[trigger] names[k];
        &&& x.len() > 0
        &&& !x.contains('<')
        &&& !x.contains('>')
        &&& is_substring(tag_text(x), s)
    } by {
        assert(occ.contains(names[k]));
        let m = choose|m: int| 0 <= m < occ.len() && occ[m] == names[k];
        assert(occ[m] == names[k]);
    }
}

// ---------------------------------------------------------------------------
// Backups
// ---------------------------------------------------------------------------

/// Importing a full backup of a registry gives that registry back, whatever
/// was there before; a backup of commands or of groups replaces only that part.
pub proof fn law_import_gives_back_the_backup(current: DbView, saved: DbView)
    ensures
        restored(current, BackupView::Everything(saved)) == saved,
        restored(current, BackupView::Commands(saved.commands)).commands == saved.commands,
        restored(current, BackupView::Commands(saved.commands)).groups == current.groups,
        restored(current, BackupView::Commands(saved.commands)).history == current.history,
        restored(current, BackupView::Groups(saved.groups)).groups == saved.groups,
        restored(current, BackupView::Groups(saved.groups)).commands == current.commands,
        restored(current, BackupView::Groups(saved.groups)).history == current.history,
{
}

// ---------------------------------------------------------------------------
// List tabs
// ---------------------------------------------------------------------------

/// The registry list has two tabs, single commands (0) and pipeline groups
/// (1): no key press moves the console off them.
pub proof fn law_list_stays_on_two_tabs(a: AppView, key: crate::tui::events::Key)
    requires
        a.list_tab <= 1,
    ensures
        crate::tui::events::key_step(a, key).0.list_tab <= 1,
{
    if a.delete_confirm_title is Some {
        assert(crate::tui::events::confirm_key_step(a, key).0.list_tab == a.list_tab);
    } else {
        match a.screen {
            AppScreen::Dashboard => lemma_tabs_dashboard(a, key),
            AppScreen::ListCommands => lemma_tabs_list(a, key, ListMode::Browse),
            AppScreen::UpdateCommandList => lemma_tabs_list(a, key, ListMode::Update),
            AppScreen::DeleteCommandList => lemma_tabs_list(a, key, ListMode::Delete),
            AppScreen::ExportMenu => {},
            AppScreen::ImportForm => {},
            AppScreen::AddCommand | AppScreen::UpdateCommandForm => lemma_tabs_form(a, key),
            AppScreen::AddGroup | AppScreen::UpdateGroupForm => lemma_tabs_group_form(a, key),
        }
    }
}

proof fn lemma_tabs_dashboard(a: AppView, key: crate::tui::events::Key)
    requires
        a.list_tab <= 1,
    ensures
        crate::tui::events::navigation::dashboard_key_step(a, key).0.list_tab <= 1,
{
}

proof fn lemma_tabs_form(a: AppView, key: crate::tui::events::Key)
    requires
        a.list_tab <= 1,
    ensures
        crate::tui::events::forms::form_key_step(a, key).0.list_tab <= 1,
{
}

proof fn lemma_tabs_group_form(a: AppView, key: crate::tui::events::Key)
    requires
        a.list_tab <= 1,
    ensures
        crate::tui::events::group_forms::group_key_step(a, key).0.list_tab <= 1,
{
}

proof fn lemma_tabs_list(a: AppView, key: crate::tui::events::Key, mode: crate::tui::events::lists::ListMode)
    requires
        a.list_tab <= 1,
    ensures
        crate::tui::events::lists::list_screen_step(a, key, mode).0.list_tab <= 1,
{
    if !(a.list_is_searching && key.code != crate::tui::events::KeyCode::Enter) {
        let b = list_base(a);
        let r = common_key_step(b, key);
        match b.list_grabbed {
            Some(g) => {
                if g > 0 {
                    assert(swap_step(b, g as int, g - 1).0.list_tab == b.list_tab);
                }
                assert(swap_step(b, g as int, g + 1).0.list_tab == b.list_tab);
            },
            None => {},
        }
        assert(favorite_selected_step(b).0.list_tab == b.list_tab);
        assert(r.1.list_tab <= 1);
        assert(edit_selected(b).list_tab == b.list_tab);
        assert(delete_selected(b).list_tab == b.list_tab);
        assert(list_action_step(b, key, mode).0.list_tab <= 1);
    }
}

// ---------------------------------------------------------------------------
// Narrowing a search
// ---------------------------------------------------------------------------

/// `is_substring` is transitive.
proof fn lemma_substring_trans(a: Seq<char>, b: Seq<char>, c: Seq<char>)
    requires
        is_substring(a, b),
        is_substring(b, c),
    ensures
        is_substring(a, c),
{
    let i = choose|i: int| occurs_at(b, a, i);
    let j = choose|j: int| occurs_at(c, b, j);
    assert(c.subrange(i + j, i + j + a.len()) =~= b.subrange(i, i + a.len()));
    assert(occurs_at(c, a, i + j));
}

/// Filtering by a predicate that implies another keeps a subsequence of
/// what the weaker one keeps: the result is that filtered further.
proof fn lemma_filter_narrows<A>(s: Seq<A>, strong: spec_fn(A) -> bool, weak: spec_fn(A) -> bool)
    requires
        forall|x: A| #[trigger] strong(x) ==> weak(x),
    ensures
        s.filter(strong) == s.filter(weak).filter(strong),
    decreases s.len(),
{
    reveal(Seq::filter);
    if s.len() > 0 {
        lemma_filter_narrows(s.drop_last(), strong, weak);
        if weak(s.last()) {
            assert(s.filter(weak).filter(strong) =~= s.drop_last().filter(weak).push(s.last()).filter(
                strong,
            ));
            assert(s.drop_last().filter(weak).push(s.last()).drop_last() =~= s.drop_last().filter(
                weak,
            ));
        }
    } else {
        assert(s.filter(strong) =~= s.filter(weak).filter(strong));
    }
}

/// A field that matches a longer query matches a query whose lowercase form
/// occurs in the longer one's.
proof fn lemma_field_hit_narrows(f: Seq<char>, q1: Seq<char>, q2: Seq<char>)
    requires
        is_substring(unicode_lowercase(q1), unicode_lowercase(q2)),
        field_hit(f, q2),
    ensures
        field_hit(f, q1),
{
    lemma_substring_trans(unicode_lowercase(q1), unicode_lowercase(q2), unicode_lowercase(f));
}

/// Narrowing a search never shows more: when the lowercased first query
/// occurs in the lowercased second one, the commands and groups that the
/// second search shows are exactly those that the first shows, filtered by
/// the second (a subsequence, in registry order). The lowercase forms are
/// those of `to_lowercase`, which is empty exactly when its input is.
pub proof fn law_narrower_search_shows_a_subsequence(cs: Seq<CommandView>, gs: Seq<GroupView>, q1: Seq<char>, q2: Seq<char>, empty_shows_all: bool)
    requires
        is_substring(unicode_lowercase(q1), unicode_lowercase(q2)),
        lowercase_keeps_emptiness(q1),
        lowercase_keeps_emptiness(q2),
    ensures
        selected_commands(cs, q2, empty_shows_all) == selected_commands(cs, q1, empty_shows_all).filter(
            |c: CommandView| command_selected(c, q2, empty_shows_all),
        ),
        selected_groups(gs, q2, empty_shows_all) == selected_groups(gs, q1, empty_shows_all).filter(
            |g: GroupView| group_selected(g, q2, empty_shows_all),
        ),
{
    if q1.len() > 0 && q2.len() == 0 {
        let i = choose|i: int| occurs_at(unicode_lowercase(q2), unicode_lowercase(q1), i);
        assert(unicode_lowercase(q1).len() <= unicode_lowercase(q2).len());
    }
    let sc = |c: CommandView| command_selected(c, q2, empty_shows_all);
    let wc = |c: CommandView| command_selected(c, q1, empty_shows_all);
    assert forall|c: CommandView| #[trigger] sc(c) implies wc(c) by {
        if !(empty_shows_all && q1.len() == 0) && command_hits(c, q2) {
            if field_hit(c.title, q2) {
                lemma_field_hit_narrows(c.title, q1, q2);
            } else if field_hit(c.description, q2) {
                lemma_field_hit_narrows(c.description, q1, q2);
            } else {
                lemma_field_hit_narrows(c.script, q1, q2);
            }
        }
    }
    lemma_filter_narrows(cs, sc, wc);
    let sg = |g: GroupView| group_selected(g, q2, empty_shows_all);
    let wg = |g: GroupView| group_selected(g, q1, empty_shows_all);
    assert forall|g: GroupView| #[trigger] sg(g) implies wg(g) by {
        if !(empty_shows_all && q1.len() == 0) && group_hits(g, q2) {
            if field_hit(g.name, q2) {
                lemma_field_hit_narrows(g.name, q1, q2);
            } else if field_hit(g.description, q2) {
                lemma_field_hit_narrows(g.description, q1, q2);
            } else {
                let k = choose|k: int| 0 <= k < g.commands.len() && field_hit(g.commands[k], q2);
                lemma_field_hit_narrows(g.commands[k], q1, q2);
            }
        }
    }
    lemma_filter_narrows(gs, sg, wg);
}

// ---------------------------------------------------------------------------
// The group form
// ---------------------------------------------------------------------------

/// The group form's two selections point into their lists (or the list is
/// empty).
pub open spec fn group_form_ok(a: AppView) -> bool {
    &&& (a.group_commands.len() == 0 || a.group_commands_selected < a.group_commands.len())
    &&& (a.db.commands.len() == 0 || a.group_avail_selected < a.db.commands.len())
}

/// Every key on the group form keeps both selections inside their lists and
/// leaves the registry's commands alone; the sequence stays as it was, has
/// two entries exchanged, gains one entry at the end, or loses one entry.
pub proof fn law_group_form_keeps_selections_inside(a: AppView, key: crate::tui::events::Key)
    requires
        group_form_ok(a),
        group_key_defined(a, key),
        a.group_commands.len() < usize::MAX,
        a.db.commands.len() <= usize::MAX,
    ensures
        group_form_ok(group_key_step(a, key).0),
        group_key_step(a, key).0.db.commands == a.db.commands,
        ({
            let s = a.group_commands;
            let t = group_key_step(a, key).0.group_commands;
            ||| t == s
            ||| exists|i: int, j: int| 0 <= i < s.len() && 0 <= j < s.len() && t == swapped(s, i, j)
            ||| exists|x: Seq<char>| t == s.push(x)
            ||| exists|i: int| 0 <= i < s.len() && t == s.remove(i)
        }),
{
    let s = a.group_commands;
    let sel = a.group_commands_selected as int;
    let b = group_key_step(a, key).0;
    if b.group_commands != s {
        if b == moved_down(a) {
            assert(b.group_commands == swapped(s, sel, sel + 1));
        } else if b == moved_up(a) {
            assert(b.group_commands == swapped(s, sel, sel - 1));
        } else if b == add_available(a) {
            let x = a.db.commands[a.group_avail_selected as int].title;
            assert(b.group_commands == s.push(x));
        } else {
            assert(b == remove_selected(a));
            assert(b.group_commands == s.remove(sel));
        }
    }
}

} // verus!
