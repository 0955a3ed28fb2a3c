//! The `command` and `group` subcommands: add, update, delete and list
//! registry entries from the command line.

use vstd::prelude::*;
use crate::cli::{flag_value, get_flag_value, get_search_query_from_args, search_query};
use crate::db::{
    CommandModel, CommandView, Database, DbView, GroupModel, GroupView, clone_commands,
    clone_groups, command_views, group_views, opt_view,
};
use crate::ranking::{rank_of, rank_sorted, ranked_views, sort_by_rank};
use crate::registry::{
    command_pos, filter_commands, filter_groups, find_command, find_group, group_pos, has_command,
    has_group, lemma_command_pos, lemma_group_pos, selected_commands, selected_groups,
};
use crate::text::{comma_list, owned, parse_comma_list, str_eq, views};

verus! {

/// Why a subcommand was refused.
pub enum CliError {
    /// A required flag is missing; the flag.
    MissingFlag(String),
    /// A command with this title exists already.
    CommandExists(String),
    /// No command has this title.
    CommandNotFound(String),
    /// A group with this name exists already.
    GroupExists(String),
    /// No group has this name.
    GroupNotFound(String),
}

/// The mathematical value of a refusal.
pub enum CliErrorView {
    MissingFlag(Seq<char>),
    CommandExists(Seq<char>),
    CommandNotFound(Seq<char>),
    GroupExists(Seq<char>),
    GroupNotFound(Seq<char>),
}

impl View for CliError {
    type V = CliErrorView;

    open spec fn view(&self) -> CliErrorView {
        match self {
            CliError::MissingFlag(s) => CliErrorView::MissingFlag(s@),
            CliError::CommandExists(s) => CliErrorView::CommandExists(s@),
            CliError::CommandNotFound(s) => CliErrorView::CommandNotFound(s@),
            CliError::GroupExists(s) => CliErrorView::GroupExists(s@),
            CliError::GroupNotFound(s) => CliErrorView::GroupNotFound(s@),
        }
    }
}

/// The text of a refusal.
pub open spec fn error_message(e: CliErrorView) -> Seq<char> {
    match e {
        CliErrorView::MissingFlag(f) => "Missing "@ + f + " flag"@,
        CliErrorView::CommandExists(t) => "Error: Command with title '"@ + t + "' already exists."@,
        CliErrorView::CommandNotFound(t) => "Error: Command '"@ + t + "' not found."@,
        CliErrorView::GroupExists(n) => "Error: Group '"@ + n + "' already exists."@,
        CliErrorView::GroupNotFound(n) => "Error: Group '"@ + n + "' not found."@,
    }
}

fn framed(before: &str, middle: &String, after: &str) -> (s: String)
    ensures
        s@ == before@ + middle@ + after@,
{
    let mut s = String::from_str(before);
    s.append(middle.as_str());
    s.append(after);
    s
}

impl CliError {
    /// The text of the refusal.
    pub fn message(&self) -> (m: String)
        ensures
            m@ == error_message(self@),
    {
        match self {
            CliError::MissingFlag(f) => framed("Missing ", f, " flag"),
            CliError::CommandExists(t) => framed("Error: Command with title '", t, "' already exists."),
            CliError::CommandNotFound(t) => framed("Error: Command '", t, "' not found."),
            CliError::GroupExists(n) => framed("Error: Group '", n, "' already exists."),
            CliError::GroupNotFound(n) => framed("Error: Group '", n, "' not found."),
        }
    }
}

/// What a subcommand did.
pub enum CliOutcome {
    /// No subcommand was given.
    MissingSubcommand,
    /// The subcommand is not one of add, update, delete, list; the word.
    UnknownSubcommand(String),
    /// An entry was added.
    Added,
    /// An entry was updated.
    Updated,
    /// The entry with this name was deleted.
    Deleted(String),
    /// The commands to list, and whether a search narrowed them.
    CommandsListed(Vec<CommandModel>, bool),
    /// The groups to list, and whether a search narrowed them.
    GroupsListed(Vec<GroupModel>, bool),
}

/// The mathematical value of what a subcommand did.
pub enum CliOutcomeView {
    MissingSubcommand,
    UnknownSubcommand(Seq<char>),
    Added,
    Updated,
    Deleted(Seq<char>),
    CommandsListed(Seq<CommandView>, bool),
    GroupsListed(Seq<GroupView>, bool),
}

impl View for CliOutcome {
    type V = CliOutcomeView;

    open spec fn view(&self) -> CliOutcomeView {
        match self {
            CliOutcome::MissingSubcommand => CliOutcomeView::MissingSubcommand,
            CliOutcome::UnknownSubcommand(s) => CliOutcomeView::UnknownSubcommand(s@),
            CliOutcome::Added => CliOutcomeView::Added,
            CliOutcome::Updated => CliOutcomeView::Updated,
            CliOutcome::Deleted(s) => CliOutcomeView::Deleted(s@),
            CliOutcome::CommandsListed(v, b) => CliOutcomeView::CommandsListed(command_views(v@), *b),
            CliOutcome::GroupsListed(v, b) => CliOutcomeView::GroupsListed(group_views(v@), *b),
        }
    }
}

/// The mathematical value of a subcommand's result.
pub open spec fn cli_result_view(r: Result<CliOutcome, CliError>) -> Result<CliOutcomeView, CliErrorView> {
    match r {
        Ok(o) => Ok(o@),
        Err(e) => Err(e@),
    }
}

/// Whether one of the arguments is exactly `word`.
pub open spec fn has_arg(args: Seq<Seq<char>>, word: Seq<char>) -> bool {
    exists|i: int| 0 <= i < args.len() && args[i] == word
}

/// The optional group that a `--group` value sets: none for an empty value.
pub open spec fn group_setting(g: Seq<char>) -> Option<Seq<char>> {
    if g.len() == 0 {
        None
    } else {
        Some(g)
    }
}

/// `command add`: a title and a script are required, the title must be
/// new; the command is appended with its description (empty by default)
/// and optional group.
pub open spec fn command_add_step(db: DbView, args: Seq<Seq<char>>) -> (DbView, Result<CliOutcomeView, CliErrorView>) {
    match flag_value(args, "--title"@) {
        None => (db, Err(CliErrorView::MissingFlag("--title"@))),
        Some(title) => match flag_value(args, "--script"@) {
            None => (db, Err(CliErrorView::MissingFlag("--script"@))),
            Some(script) => if has_command(db, title) {
                (db, Err(CliErrorView::CommandExists(title)))
            } else {
                let c = CommandView {
                    title,
                    description: match flag_value(args, "--desc"@) {
                        Some(d) => d,
                        None => Seq::empty(),
                    },
                    script,
                    group: flag_value(args, "--group"@),
                    use_count: 0,
                    favorite: false,
                };
                (DbView { commands: db.commands.push(c), ..db }, Ok(CliOutcomeView::Added))
            },
        },
    }
}

/// The command updated by the flags that are given: `--script`,
/// `--desc`, and `--group` (an empty group clears it).
pub open spec fn command_with_flags(c: CommandView, args: Seq<Seq<char>>) -> CommandView {
    CommandView {
        script: match flag_value(args, "--script"@) {
            Some(s) => s,
            None => c.script,
        },
        description: match flag_value(args, "--desc"@) {
            Some(d) => d,
            None => c.description,
        },
        group: match flag_value(args, "--group"@) {
            Some(g) => group_setting(g),
            None => c.group,
        },
        ..c
    }
}

/// `command update`: the first command with the given title takes the
/// given flags.
pub open spec fn command_update_step(db: DbView, args: Seq<Seq<char>>) -> (DbView, Result<CliOutcomeView, CliErrorView>) {
    match flag_value(args, "--title"@) {
        None => (db, Err(CliErrorView::MissingFlag("--title"@))),
        Some(title) => match command_pos(db.commands, title) {
            None => (db, Err(CliErrorView::CommandNotFound(title))),
            Some(i) => (
                DbView {
                    commands: db.commands.update(i, command_with_flags(db.commands[i], args)),
                    ..db
                },
                Ok(CliOutcomeView::Updated),
            ),
        },
    }
}

/// `command delete`: the first command with the given title is removed.
pub open spec fn command_delete_step(db: DbView, args: Seq<Seq<char>>) -> (DbView, Result<CliOutcomeView, CliErrorView>) {
    match flag_value(args, "--title"@) {
        None => (db, Err(CliErrorView::MissingFlag("--title"@))),
        Some(title) => match command_pos(db.commands, title) {
            None => (db, Err(CliErrorView::CommandNotFound(title))),
            Some(i) => (
                DbView { commands: db.commands.remove(i), ..db },
                Ok(CliOutcomeView::Deleted(title)),
            ),
        },
    }
}

/// `command list`: the commands that the search query (from the arguments
/// after `list`) matches, or all without a query; most used first with
/// `--most-run`.
pub open spec fn command_listing(db: DbView, args: Seq<Seq<char>>) -> CliOutcomeView {
    let q = search_query(args.skip(1));
    let found = match q {
        Some(q) => selected_commands(db.commands, q, false),
        None => db.commands,
    };
    let shown = if has_arg(args, "--most-run"@) {
        rank_sorted(found, rank_of::<CommandModel>())
    } else {
        found
    };
    CliOutcomeView::CommandsListed(shown, q is Some)
}

/// The `command` subcommands.
pub open spec fn cli_command_step(db: DbView, args: Seq<Seq<char>>) -> (DbView, Result<CliOutcomeView, CliErrorView>) {
    if args.len() == 0 {
        (db, Ok(CliOutcomeView::MissingSubcommand))
    } else if args[0] == "add"@ {
        command_add_step(db, args)
    } else if args[0] == "update"@ {
        command_update_step(db, args)
    } else if args[0] == "delete"@ {
        command_delete_step(db, args)
    } else if args[0] == "list"@ {
        (db, Ok(command_listing(db, args)))
    } else {
        (db, Ok(CliOutcomeView::UnknownSubcommand(args[0])))
    }
}

/// Whether one of the arguments is exactly `word`.
fn any_arg(args: &[String], word: &str) -> (r: bool)
    ensures
        r == has_arg(views(args@), word@),
{
    let mut i: usize = 0;
    while i < args.len()
        invariant
            i <= args@.len(),
            forall|j: int| 0 <= j < i ==> views(args@)[j] != word@,
        decreases args@.len() - i,
    {
        if str_eq(args[i].as_str(), word) {
            assert(views(args@)[i as int] == word@);
            return true;
        }
        i = i + 1;
    }
    false
}

fn command_add(db: &mut Database, args: &[String]) -> (r: Result<CliOutcome, CliError>)
    ensures
        (final(db)@, cli_result_view(r)) == command_add_step(old(db)@, views(args@)),
{
    let title = match get_flag_value(args, "--title") {
        Some(t) => t,
        None => {
            return Err(CliError::MissingFlag(String::from_str("--title")));
        },
    };
    let script = match get_flag_value(args, "--script") {
        Some(s) => s,
        None => {
            return Err(CliError::MissingFlag(String::from_str("--script")));
        },
    };
    let desc = match get_flag_value(args, "--desc") {
        Some(d) => d,
        None => String::new(),
    };
    let group = get_flag_value(args, "--group");
    proof {
        lemma_command_pos(db@.commands, title@);
    }
    if find_command(&db.commands, title.as_str()).is_some() {
        return Err(CliError::CommandExists(title));
    }
    let ghost before = db.commands@;
    let c = CommandModel { title, description: desc, script, group, use_count: 0, favorite: false };
    let ghost cv = c@;
    db.commands.push(c);
    assert(command_views(db.commands@) =~= command_views(before).push(cv));
    Ok(CliOutcome::Added)
}

fn command_update(db: &mut Database, args: &[String]) -> (r: Result<CliOutcome, CliError>)
    ensures
        (final(db)@, cli_result_view(r)) == command_update_step(old(db)@, views(args@)),
{
    let title = match get_flag_value(args, "--title") {
        Some(t) => t,
        None => {
            return Err(CliError::MissingFlag(String::from_str("--title")));
        },
    };
    proof {
        lemma_command_pos(db@.commands, title@);
    }
    let pos = match find_command(&db.commands, title.as_str()) {
        Some(p) => p,
        None => {
            return Err(CliError::CommandNotFound(title));
        },
    };
    let mut c = db.commands[pos].clone();
    if let Some(script) = get_flag_value(args, "--script") {
        c.script = script;
    }
    if let Some(desc) = get_flag_value(args, "--desc") {
        c.description = desc;
    }
    if let Some(group) = get_flag_value(args, "--group") {
        c.group = if group.unicode_len() == 0 {
            None
        } else {
            Some(group)
        };
    }
    let ghost before = db.commands@;
    assert(c@ == command_with_flags(command_views(before)[pos as int], views(args@)));
    db.commands.set(pos, c);
    assert(command_views(db.commands@) =~= command_views(before).update(pos as int, c@));
    Ok(CliOutcome::Updated)
}

fn command_delete(db: &mut Database, args: &[String]) -> (r: Result<CliOutcome, CliError>)
    ensures
        (final(db)@, cli_result_view(r)) == command_delete_step(old(db)@, views(args@)),
{
    let title = match get_flag_value(args, "--title") {
        Some(t) => t,
        None => {
            return Err(CliError::MissingFlag(String::from_str("--title")));
        },
    };
    proof {
        lemma_command_pos(db@.commands, title@);
    }
    let pos = match find_command(&db.commands, title.as_str()) {
        Some(p) => p,
        None => {
            return Err(CliError::CommandNotFound(title));
        },
    };
    let ghost before = db.commands@;
    db.commands.remove(pos);
    assert(command_views(db.commands@) =~= command_views(before).remove(pos as int));
    Ok(CliOutcome::Deleted(title))
}

fn command_list(db: &Database, args: &[String]) -> (r: CliOutcome)
    requires
        args@.len() > 0,
    ensures
        r@ == command_listing(db@, views(args@)),
{
    let rest = crate::cli::args_from(args, 1);
    let q = get_search_query_from_args(rest.as_slice());
    let most_run = any_arg(args, "--most-run");
    let searched = q.is_some();
    let found = match &q {
        Some(q) => filter_commands(&db.commands, q.as_str(), false),
        None => clone_commands(&db.commands),
    };
    let shown = if most_run {
        let s = sort_by_rank(found);
        proof {
            assert(ranked_views(s@) == command_views(s@));
            assert(ranked_views(found@) == command_views(found@));
        }
        s
    } else {
        found
    };
    CliOutcome::CommandsListed(shown, searched)
}

/// Performs a `command` subcommand on the registry; the arguments are
/// those after `command`.
pub fn handle_cli_command(db: &mut Database, args: &[String]) -> (r: Result<CliOutcome, CliError>)
    ensures
        (final(db)@, cli_result_view(r)) == cli_command_step(old(db)@, views(args@)),
{
    if args.len() == 0 {
        return Ok(CliOutcome::MissingSubcommand);
    }
    let sub = args[0].as_str();
    assert(views(args@)[0] == sub@);
    if str_eq(sub, "add") {
        command_add(db, args)
    } else if str_eq(sub, "update") {
        command_update(db, args)
    } else if str_eq(sub, "delete") {
        command_delete(db, args)
    } else if str_eq(sub, "list") {
        Ok(command_list(db, args))
    } else {
        Ok(CliOutcome::UnknownSubcommand(owned(sub)))
    }
}

// ---------------------------------------------------------------------------
// Groups
// ---------------------------------------------------------------------------

/// `group add`: a name and a description are required and the name must
/// be new; the group is appended with its comma-separated command list
/// (empty by default).
pub open spec fn group_add_step(db: DbView, args: Seq<Seq<char>>) -> (DbView, Result<CliOutcomeView, CliErrorView>) {
    match flag_value(args, "--name"@) {
        None => (db, Err(CliErrorView::MissingFlag("--name"@))),
        Some(name) => match flag_value(args, "--desc"@) {
            None => (db, Err(CliErrorView::MissingFlag("--desc"@))),
            Some(description) => group_added(db, args, name, description),
        },
    }
}

/// `group add` once its name and description are read.
pub open spec fn group_added(db: DbView, args: Seq<Seq<char>>, name: Seq<char>, description: Seq<char>) -> (DbView, Result<CliOutcomeView, CliErrorView>) {
    if has_group(db, name) {
        (db, Err(CliErrorView::GroupExists(name)))
    } else {
        let g = GroupView {
            name,
            description,
            commands: match flag_value(args, "--commands"@) {
                Some(c) => comma_list(c),
                None => Seq::empty(),
            },
            use_count: 0,
            favorite: false,
        };
        (DbView { groups: db.groups.push(g), ..db }, Ok(CliOutcomeView::Added))
    }
}

/// The group updated by the flags that are given: `--desc`, and
/// `--commands` (a comma-separated list; empty clears it).
pub open spec fn group_with_flags(g: GroupView, args: Seq<Seq<char>>) -> GroupView {
    GroupView {
        description: match flag_value(args, "--desc"@) {
            Some(d) => d,
            None => g.description,
        },
        commands: match flag_value(args, "--commands"@) {
            Some(c) => comma_list(c),
            None => g.commands,
        },
        ..g
    }
}

/// `group update`: the first group with the given name takes the given
/// flags.
pub open spec fn group_update_step(db: DbView, args: Seq<Seq<char>>) -> (DbView, Result<CliOutcomeView, CliErrorView>) {
    match flag_value(args, "--name"@) {
        None => (db, Err(CliErrorView::MissingFlag("--name"@))),
        Some(name) => match group_pos(db.groups, name) {
            None => (db, Err(CliErrorView::GroupNotFound(name))),
            Some(i) => (
                DbView { groups: db.groups.update(i, group_with_flags(db.groups[i], args)), ..db },
                Ok(CliOutcomeView::Updated),
            ),
        },
    }
}

/// `group delete`: the first group with the given name is removed.
pub open spec fn group_delete_step(db: DbView, args: Seq<Seq<char>>) -> (DbView, Result<CliOutcomeView, CliErrorView>) {
    match flag_value(args, "--name"@) {
        None => (db, Err(CliErrorView::MissingFlag("--name"@))),
        Some(name) => match group_pos(db.groups, name) {
            None => (db, Err(CliErrorView::GroupNotFound(name))),
            Some(i) => (
                DbView { groups: db.groups.remove(i), ..db },
                Ok(CliOutcomeView::Deleted(name)),
            ),
        },
    }
}

/// `group list`: the groups that the search query matches, or all; most
/// used first with `--most-run`.
pub open spec fn group_listing(db: DbView, args: Seq<Seq<char>>) -> CliOutcomeView {
    let q = search_query(args.skip(1));
    let found = match q {
        Some(q) => selected_groups(db.groups, q, false),
        None => db.groups,
    };
    let shown = if has_arg(args, "--most-run"@) {
        rank_sorted(found, rank_of::<GroupModel>())
    } else {
        found
    };
    CliOutcomeView::GroupsListed(shown, q is Some)
}

/// The `group` subcommands.
pub open spec fn cli_group_step(db: DbView, args: Seq<Seq<char>>) -> (DbView, Result<CliOutcomeView, CliErrorView>) {
    if args.len() == 0 {
        (db, Ok(CliOutcomeView::MissingSubcommand))
    } else if args[0] == "add"@ {
        group_add_step(db, args)
    } else if args[0] == "update"@ {
        group_update_step(db, args)
    } else if args[0] == "delete"@ {
        group_delete_step(db, args)
    } else if args[0] == "list"@ {
        (db, Ok(group_listing(db, args)))
    } else {
        (db, Ok(CliOutcomeView::UnknownSubcommand(args[0])))
    }
}

fn group_add(db: &mut Database, args: &[String]) -> (r: Result<CliOutcome, CliError>)
    ensures
        (final(db)@, cli_result_view(r)) == group_add_step(old(db)@, views(args@)),
{
    let name = match get_flag_value(args, "--name") {
        Some(n) => n,
        None => {
            return Err(CliError::MissingFlag(String::from_str("--name")));
        },
    };
    let desc = match get_flag_value(args, "--desc") {
        Some(d) => d,
        None => {
            return Err(CliError::MissingFlag(String::from_str("--desc")));
        },
    };
    let commands = match get_flag_value(args, "--commands") {
        Some(c) => parse_comma_list(c.as_str()),
        None => {
            let v: Vec<String> = Vec::new();
            assert(views(v@) =~= Seq::<Seq<char>>::empty());
            v
        },
    };
    proof {
        lemma_group_pos(db@.groups, name@);
    }
    if find_group(&db.groups, name.as_str()).is_some() {
        return Err(CliError::GroupExists(name));
    }
    let ghost before = db.groups@;
    let g = GroupModel { name, description: desc, commands, use_count: 0, favorite: false };
    let ghost gv = g@;
    db.groups.push(g);
    assert(group_views(db.groups@) =~= group_views(before).push(gv));
    Ok(CliOutcome::Added)
}

fn group_update(db: &mut Database, args: &[String]) -> (r: Result<CliOutcome, CliError>)
    ensures
        (final(db)@, cli_result_view(r)) == group_update_step(old(db)@, views(args@)),
{
    let name = match get_flag_value(args, "--name") {
        Some(n) => n,
        None => {
            return Err(CliError::MissingFlag(String::from_str("--name")));
        },
    };
    proof {
        lemma_group_pos(db@.groups, name@);
    }
    let pos = match find_group(&db.groups, name.as_str()) {
        Some(p) => p,
        None => {
            return Err(CliError::GroupNotFound(name));
        },
    };
    let mut g = db.groups[pos].clone();
    if let Some(desc) = get_flag_value(args, "--desc") {
        g.description = desc;
    }
    if let Some(commands) = get_flag_value(args, "--commands") {
        g.commands = parse_comma_list(commands.as_str());
    }
    let ghost before = db.groups@;
    assert(g@ == group_with_flags(group_views(before)[pos as int], views(args@)));
    db.groups.set(pos, g);
    assert(group_views(db.groups@) =~= group_views(before).update(pos as int, g@));
    Ok(CliOutcome::Updated)
}

fn group_delete(db: &mut Database, args: &[String]) -> (r: Result<CliOutcome, CliError>)
    ensures
        (final(db)@, cli_result_view(r)) == group_delete_step(old(db)@, views(args@)),
{
    let name = match get_flag_value(args, "--name") {
        Some(n) => n,
        None => {
            return Err(CliError::MissingFlag(String::from_str("--name")));
        },
    };
    proof {
        lemma_group_pos(db@.groups, name@);
    }
    let pos = match find_group(&db.groups, name.as_str()) {
        Some(p) => p,
        None => {
            return Err(CliError::GroupNotFound(name));
        },
    };
    let ghost before = db.groups@;
    db.groups.remove(pos);
    assert(group_views(db.groups@) =~= group_views(before).remove(pos as int));
    Ok(CliOutcome::Deleted(name))
}

fn group_list(db: &Database, args: &[String]) -> (r: CliOutcome)
    requires
        args@.len() > 0,
    ensures
        r@ == group_listing(db@, views(args@)),
{
    let rest = crate::cli::args_from(args, 1);
    let q = get_search_query_from_args(rest.as_slice());
    let most_run = any_arg(args, "--most-run");
    let searched = q.is_some();
    let found = match &q {
        Some(q) => filter_groups(&db.groups, q.as_str(), false),
        None => clone_groups(&db.groups),
    };
    let shown = if most_run {
        let s = sort_by_rank(found);
        proof {
            assert(ranked_views(s@) == group_views(s@));
            assert(ranked_views(found@) == group_views(found@));
        }
        s
    } else {
        found
    };
    CliOutcome::GroupsListed(shown, searched)
}

/// Performs a `group` subcommand on the registry; the arguments are those
/// after `group`.
pub fn handle_cli_group(db: &mut Database, args: &[String]) -> (r: Result<CliOutcome, CliError>)
    ensures
        (final(db)@, cli_result_view(r)) == cli_group_step(old(db)@, views(args@)),
{
    if args.len() == 0 {
        return Ok(CliOutcome::MissingSubcommand);
    }
    let sub = args[0].as_str();
    assert(views(args@)[0] == sub@);
    if str_eq(sub, "add") {
        group_add(db, args)
    } else if str_eq(sub, "update") {
        group_update(db, args)
    } else if str_eq(sub, "delete") {
        group_delete(db, args)
    } else if str_eq(sub, "list") {
        Ok(group_list(db, args))
    } else {
        Ok(CliOutcome::UnknownSubcommand(owned(sub)))
    }
}

} // verus!
