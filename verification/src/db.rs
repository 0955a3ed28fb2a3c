//! The registry's records: commands, pipeline groups, execution history, and
//! the database that holds them, each with its mathematical view.

use vstd::prelude::*;
use crate::text::views;

verus! {

/// A registered shell command.
pub struct CommandModel {
    pub title: String,
    pub description: String,
    pub script: String,
    pub group: Option<String>,
    pub use_count: u32,
    pub favorite: bool,
}

/// A pipeline group: an ordered sequence of command titles.
pub struct GroupModel {
    pub name: String,
    pub description: String,
    pub commands: Vec<String>,
    pub use_count: u32,
    pub favorite: bool,
}

/// One entry of the execution log.
pub struct HistoryModel {
    pub command_title: String,
    pub script: String,
    pub timestamp: String,
    pub duration_ms: u64,
    pub status: String,
}

/// The whole registry.
pub struct Database {
    pub commands: Vec<CommandModel>,
    pub groups: Vec<GroupModel>,
    pub history: Vec<HistoryModel>,
}

/// The mathematical value of a command.
pub struct CommandView {
    pub title: Seq<char>,
    pub description: Seq<char>,
    pub script: Seq<char>,
    pub group: Option<Seq<char>>,
    pub use_count: u32,
    pub favorite: bool,
}

/// The mathematical value of a group.
pub struct GroupView {
    pub name: Seq<char>,
    pub description: Seq<char>,
    pub commands: Seq<Seq<char>>,
    pub use_count: u32,
    pub favorite: bool,
}

/// The mathematical value of a history entry.
pub struct HistoryView {
    pub command_title: Seq<char>,
    pub script: Seq<char>,
    pub timestamp: Seq<char>,
    pub duration_ms: u64,
    pub status: Seq<char>,
}

/// The mathematical value of the registry.
pub struct DbView {
    pub commands: Seq<CommandView>,
    pub groups: Seq<GroupView>,
    pub history: Seq<HistoryView>,
}

/// The view of an optional string.
pub open spec fn opt_view(o: Option<String>) -> Option<Seq<char>> {
    match o {
        Some(s) => Some(s@),
        None => None,
    }
}

impl View for CommandModel {
    type V = CommandView;

    open spec fn view(&self) -> CommandView {
        CommandView {
            title: self.title@,
            description: self.description@,
            script: self.script@,
            group: opt_view(self.group),
            use_count: self.use_count,
            favorite: self.favorite,
        }
    }
}

impl View for GroupModel {
    type V = GroupView;

    open spec fn view(&self) -> GroupView {
        GroupView {
            name: self.name@,
            description: self.description@,
            commands: views(self.commands@),
            use_count: self.use_count,
            favorite: self.favorite,
        }
    }
}

impl View for HistoryModel {
    type V = HistoryView;

    open spec fn view(&self) -> HistoryView {
        HistoryView {
            command_title: self.command_title@,
            script: self.script@,
            timestamp: self.timestamp@,
            duration_ms: self.duration_ms,
            status: self.status@,
        }
    }
}

/// The views of a list of commands.
pub open spec fn command_views(v: Seq<CommandModel>) -> Seq<CommandView> {
    v.map_values(|c: CommandModel| c@)
}

/// The views of a list of groups.
pub open spec fn group_views(v: Seq<GroupModel>) -> Seq<GroupView> {
    v.map_values(|g: GroupModel| g@)
}

/// The views of a list of history entries.
pub open spec fn history_views(v: Seq<HistoryModel>) -> Seq<HistoryView> {
    v.map_values(|h: HistoryModel| h@)
}

impl View for Database {
    type V = DbView;

    open spec fn view(&self) -> DbView {
        DbView {
            commands: command_views(self.commands@),
            groups: group_views(self.groups@),
            history: history_views(self.history@),
        }
    }
}

/// A copy of an optional string.
pub fn clone_opt(o: &Option<String>) -> (r: Option<String>)
    ensures
        opt_view(r) == opt_view(*o),
{
    match o {
        Some(s) => Some(s.clone()),
        None => None,
    }
}

/// A copy of a list of strings.
pub fn clone_strings(v: &Vec<String>) -> (r: Vec<String>)
    ensures
        views(r@) == views(v@),
{
    let mut r: Vec<String> = Vec::new();
    let mut i: usize = 0;
    while i < v.len()
        invariant
            i <= v@.len(),
            views(r@) =~= views(v@).take(i as int),
        decreases v@.len() - i,
    {
        r.push(v[i].clone());
        i = i + 1;
        proof {
            assert(views(v@).take(i as int) =~= views(v@).take(i - 1).push(v@[i - 1]@));
        }
    }
    proof {
        assert(views(v@).take(v@.len() as int) =~= views(v@));
    }
    r
}

impl Clone for CommandModel {
    fn clone(&self) -> (r: Self)
        ensures
            r@ == self@,
    {
        CommandModel {
            title: self.title.clone(),
            description: self.description.clone(),
            script: self.script.clone(),
            group: clone_opt(&self.group),
            use_count: self.use_count,
            favorite: self.favorite,
        }
    }
}

impl Clone for GroupModel {
    fn clone(&self) -> (r: Self)
        ensures
            r@ == self@,
    {
        GroupModel {
            name: self.name.clone(),
            description: self.description.clone(),
            commands: clone_strings(&self.commands),
            use_count: self.use_count,
            favorite: self.favorite,
        }
    }
}

impl Clone for HistoryModel {
    fn clone(&self) -> (r: Self)
        ensures
            r@ == self@,
    {
        HistoryModel {
            command_title: self.command_title.clone(),
            script: self.script.clone(),
            timestamp: self.timestamp.clone(),
            duration_ms: self.duration_ms,
            status: self.status.clone(),
        }
    }
}

impl Database {
    /// An empty registry, as a missing or unreadable store reads.
    pub fn empty() -> (db: Database)
        ensures
            db@.commands.len() == 0,
            db@.groups.len() == 0,
            db@.history.len() == 0,
    {
        Database { commands: Vec::new(), groups: Vec::new(), history: Vec::new() }
    }
}

/// The contents of a backup file: a whole registry, or only its commands,
/// or only its groups.
pub enum Backup {
    Everything(Database),
    Commands(Vec<CommandModel>),
    Groups(Vec<GroupModel>),
}

/// The mathematical value of a backup.
pub enum BackupView {
    Everything(DbView),
    Commands(Seq<CommandView>),
    Groups(Seq<GroupView>),
}

impl View for Backup {
    type V = BackupView;

    open spec fn view(&self) -> BackupView {
        match self {
            Backup::Everything(db) => BackupView::Everything(db@),
            Backup::Commands(v) => BackupView::Commands(command_views(v@)),
            Backup::Groups(v) => BackupView::Groups(group_views(v@)),
        }
    }
}

/// The registry after restoring a backup: a whole registry replaces all
/// three lists; a list of commands or of groups replaces that list only.
pub open spec fn restored(db: DbView, b: BackupView) -> DbView {
    match b {
        BackupView::Everything(all) => all,
        BackupView::Commands(cs) => DbView { commands: cs, ..db },
        BackupView::Groups(gs) => DbView { groups: gs, ..db },
    }
}

impl Database {
    /// Restores a backup into the registry.
    pub fn restore(&mut self, b: Backup)
        ensures
            final(self)@ == restored(old(self)@, b@),
    {
        match b {
            Backup::Everything(all) => {
                self.commands = all.commands;
                self.groups = all.groups;
                self.history = all.history;
            },
            Backup::Commands(cs) => {
                self.commands = cs;
            },
            Backup::Groups(gs) => {
                self.groups = gs;
            },
        }
    }
}

/// A copy of a list of commands.
pub fn clone_commands(v: &Vec<CommandModel>) -> (r: Vec<CommandModel>)
    ensures
        command_views(r@) == command_views(v@),
{
    let mut r: Vec<CommandModel> = Vec::new();
    let mut i: usize = 0;
    while i < v.len()
        invariant
            i <= v@.len(),
            command_views(r@) =~= command_views(v@).take(i as int),
        decreases v@.len() - i,
    {
        r.push(v[i].clone());
        i = i + 1;
        proof {
            assert(command_views(v@).take(i as int) =~= command_views(v@).take(i - 1).push(
                v@[i - 1]@,
            ));
        }
    }
    proof {
        assert(command_views(v@).take(v@.len() as int) =~= command_views(v@));
    }
    r
}

/// A copy of a list of groups.
pub fn clone_groups(v: &Vec<GroupModel>) -> (r: Vec<GroupModel>)
    ensures
        group_views(r@) == group_views(v@),
{
    let mut r: Vec<GroupModel> = Vec::new();
    let mut i: usize = 0;
    while i < v.len()
        invariant
            i <= v@.len(),
            group_views(r@) =~= group_views(v@).take(i as int),
        decreases v@.len() - i,
    {
        r.push(v[i].clone());
        i = i + 1;
        proof {
            assert(group_views(v@).take(i as int) =~= group_views(v@).take(i - 1).push(
                v@[i - 1]@,
            ));
        }
    }
    proof {
        assert(group_views(v@).take(v@.len() as int) =~= group_views(v@));
    }
    r
}

} // verus!
