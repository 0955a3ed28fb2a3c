//! The command line: reading flags and the invocation, and the registry
//! edits and runs that its subcommands perform.

use vstd::prelude::*;
use crate::db::{Backup, BackupView, Database, opt_view, restored};
use crate::registry::{first_index, lemma_first_index};
use crate::text::{starts_with, starts_with_char, str_eq, views};

pub mod admin;
pub mod run;

verus! {

/// The value that follows the first occurrence of `flag` in `args`, if the
/// flag occurs and is not last.
pub open spec fn flag_value(args: Seq<Seq<char>>, flag: Seq<char>) -> Option<Seq<char>> {
    match first_index(args, |a: Seq<char>| a == flag) {
        Some(p) => if p + 1 < args.len() {
            Some(args[p + 1])
        } else {
            None
        },
        None => None,
    }
}

/// The search query of a listing: the value of `--search`, else the first
/// argument that does not start with `-`.
pub open spec fn search_query(args: Seq<Seq<char>>) -> Option<Seq<char>> {
    match flag_value(args, "--search"@) {
        Some(v) => Some(v),
        None => match first_index(args, |a: Seq<char>| !starts_with_char(a, '-')) {
            Some(i) => Some(args[i]),
            None => None,
        },
    }
}

/// The value that follows the first occurrence of `flag` in `args`.
pub fn get_flag_value(args: &[String], flag: &str) -> (r: Option<String>)
    ensures
        opt_view(r) == flag_value(views(args@), flag@),
{
    let ghost a = views(args@);
    let ghost p = |x: Seq<char>| x == flag@;
    let mut i: usize = 0;
    proof {
        lemma_first_index(a, p);
    }
    while i < args.len()
        invariant
            a == views(args@),
            p == (|x: Seq<char>| x == flag@),
            i <= args@.len(),
            forall|j: int| 0 <= j < i ==> !p(a[j]),
            match first_index(a, p) {
                Some(k) => 0 <= k < a.len() && p(a[k]) && forall|j: int| 0 <= j < k ==> !p(a[j]),
                None => forall|j: int| 0 <= j < a.len() ==> !p(a[j]),
            },
        decreases args@.len() - i,
    {
        if str_eq(args[i].as_str(), flag) {
            assert(a[i as int] == args@[i as int]@);
            assert(first_index(a, p) == Some(i as int));
            if i + 1 < args.len() {
                assert(a[i + 1] == args@[i + 1]@);
                return Some(args[i + 1].clone());
            }
            return None;
        }
        assert(a[i as int] == args@[i as int]@);
        i = i + 1;
    }
    None
}

/// The search query of a listing.
pub fn get_search_query_from_args(args: &[String]) -> (r: Option<String>)
    ensures
        opt_view(r) == search_query(views(args@)),
{
    proof {
        reveal_strlit("--search");
    }
    if let Some(val) = get_flag_value(args, "--search") {
        return Some(val);
    }
    let ghost a = views(args@);
    let ghost p = |x: Seq<char>| !starts_with_char(x, '-');
    proof {
        lemma_first_index(a, p);
    }
    let mut i: usize = 0;
    while i < args.len()
        invariant
            a == views(args@),
            p == (|x: Seq<char>| !starts_with_char(x, '-')),
            flag_value(a, "--search"@) is None,
            i <= args@.len(),
            forall|j: int| 0 <= j < i ==> !p(a[j]),
            match first_index(a, p) {
                Some(k) => 0 <= k < a.len() && p(a[k]) && forall|j: int| 0 <= j < k ==> !p(a[j]),
                None => forall|j: int| 0 <= j < a.len() ==> !p(a[j]),
            },
        decreases args@.len() - i,
    {
        assert(a[i as int] == args@[i as int]@);
        if !starts_with(args[i].as_str(), '-') {
            assert(first_index(a, p) == Some(i as int));
            return Some(args[i].clone());
        }
        i = i + 1;
    }
    None
}

/// The message that the command line prints for a restored backup.
pub open spec fn cli_import_message(b: BackupView) -> Seq<char> {
    match b {
        BackupView::Everything(_) => "Successfully imported database backup (Everything)."@,
        BackupView::Commands(_) => "Successfully imported commands list."@,
        BackupView::Groups(_) => "Successfully imported groups list."@,
    }
}

/// Restores a backup read from a file into the registry; returns the
/// message to print.
pub fn cli_import_command(db: &mut Database, backup: Backup) -> (msg: String)
    ensures
        final(db)@ == restored(old(db)@, backup@),
        msg@ == cli_import_message(backup@),
{
    let msg = match &backup {
        Backup::Everything(_) => String::from_str("Successfully imported database backup (Everything)."),
        Backup::Commands(_) => String::from_str("Successfully imported commands list."),
        Backup::Groups(_) => String::from_str("Successfully imported groups list."),
    };
    db.restore(backup);
    msg
}

/// Copies of the arguments from position `k` on.
pub fn args_from(args: &[String], k: usize) -> (r: Vec<String>)
    requires
        k <= args@.len(),
    ensures
        views(r@) == views(args@).skip(k as int),
{
    let mut r: Vec<String> = Vec::new();
    let mut i: usize = k;
    proof {
        assert(views(r@) =~= views(args@).subrange(k as int, k as int));
    }
    while i < args.len()
        invariant
            k <= i <= args@.len(),
            views(r@) =~= views(args@).subrange(k as int, i as int),
        decreases args@.len() - i,
    {
        r.push(args[i].clone());
        i = i + 1;
        proof {
            assert(views(args@).subrange(k as int, i as int) =~= views(args@).subrange(
                k as int,
                i - 1,
            ).push(args@[i - 1]@));
        }
    }
    assert(views(args@).subrange(k as int, args@.len() as int) =~= views(args@).skip(k as int));
    r
}

/// What the program is asked to do.
pub enum Invocation {
    /// No arguments: the dashboard.
    Dashboard,
    /// `-v`, `--version`, `version`.
    Version,
    /// `list`: the interactive registry list.
    List,
    /// `add`: the interactive add form.
    Add,
    /// `update [name]`: the edit form for `name`, or the list of entries to edit.
    Update(Option<String>),
    /// `delete [name]`: delete `name` after confirmation, or the list of entries to delete.
    Delete(Option<String>),
    /// `run [name]`: run a command or group (the name is required).
    Run(Option<String>),
    /// `export`: the export screen.
    Export,
    /// `import [path]`: import a backup file, or the import screen.
    Import(Option<String>),
    /// `command ...`: the command subcommands, with the arguments after `command`.
    Command(Vec<String>),
    /// `group ...`: the group subcommands, with the arguments after `group`.
    Group(Vec<String>),
    /// `help`, `--help`, `-h`.
    Help,
    /// Anything else; the word.
    Unknown(String),
}

/// The mathematical value of an invocation.
pub enum InvocationView {
    Dashboard,
    Version,
    List,
    Add,
    Update(Option<Seq<char>>),
    Delete(Option<Seq<char>>),
    Run(Option<Seq<char>>),
    Export,
    Import(Option<Seq<char>>),
    Command(Seq<Seq<char>>),
    Group(Seq<Seq<char>>),
    Help,
    Unknown(Seq<char>),
}

impl View for Invocation {
    type V = InvocationView;

    open spec fn view(&self) -> InvocationView {
        match self {
            Invocation::Dashboard => InvocationView::Dashboard,
            Invocation::Version => InvocationView::Version,
            Invocation::List => InvocationView::List,
            Invocation::Add => InvocationView::Add,
            Invocation::Update(t) => InvocationView::Update(opt_view(*t)),
            Invocation::Delete(t) => InvocationView::Delete(opt_view(*t)),
            Invocation::Run(t) => InvocationView::Run(opt_view(*t)),
            Invocation::Export => InvocationView::Export,
            Invocation::Import(t) => InvocationView::Import(opt_view(*t)),
            Invocation::Command(v) => InvocationView::Command(views(v@)),
            Invocation::Group(v) => InvocationView::Group(views(v@)),
            Invocation::Help => InvocationView::Help,
            Invocation::Unknown(w) => InvocationView::Unknown(w@),
        }
    }
}

/// What the arguments (the program name first) ask for.
pub open spec fn invocation_of(args: Seq<Seq<char>>) -> InvocationView {
    if args.len() < 2 {
        InvocationView::Dashboard
    } else {
        let c = args[1];
        let third = if args.len() >= 3 {
            Some(args[2])
        } else {
            None
        };
        if c == "-v"@ || c == "--version"@ || c == "version"@ {
            InvocationView::Version
        } else if c == "list"@ {
            InvocationView::List
        } else if c == "add"@ {
            InvocationView::Add
        } else if c == "update"@ {
            InvocationView::Update(third)
        } else if c == "delete"@ {
            InvocationView::Delete(third)
        } else if c == "run"@ {
            InvocationView::Run(third)
        } else if c == "export"@ {
            InvocationView::Export
        } else if c == "import"@ {
            InvocationView::Import(third)
        } else if c == "command"@ {
            InvocationView::Command(args.skip(2))
        } else if c == "group"@ {
            InvocationView::Group(args.skip(2))
        } else if c == "help"@ || c == "--help"@ || c == "-h"@ {
            InvocationView::Help
        } else {
            InvocationView::Unknown(c)
        }
    }
}

/// The third argument, if there is one.
fn third_arg(args: &[String]) -> (r: Option<String>)
    ensures
        opt_view(r) == (if args@.len() >= 3 {
            Some(views(args@)[2])
        } else {
            None
        }),
{
    if args.len() >= 3 {
        Some(args[2].clone())
    } else {
        None
    }
}

/// Reads what the program is asked to do from its arguments.
pub fn parse_invocation(args: &[String]) -> (r: Invocation)
    ensures
        r@ == invocation_of(views(args@)),
{
    if args.len() < 2 {
        return Invocation::Dashboard;
    }
    let c = args[1].as_str();
    assert(views(args@)[1] == c@);
    if str_eq(c, "-v") || str_eq(c, "--version") || str_eq(c, "version") {
        Invocation::Version
    } else if str_eq(c, "list") {
        Invocation::List
    } else if str_eq(c, "add") {
        Invocation::Add
    } else if str_eq(c, "update") {
        Invocation::Update(third_arg(args))
    } else if str_eq(c, "delete") {
        Invocation::Delete(third_arg(args))
    } else if str_eq(c, "run") {
        Invocation::Run(third_arg(args))
    } else if str_eq(c, "export") {
        Invocation::Export
    } else if str_eq(c, "import") {
        Invocation::Import(third_arg(args))
    } else if str_eq(c, "command") {
        Invocation::Command(args_from(args, 2))
    } else if str_eq(c, "group") {
        Invocation::Group(args_from(args, 2))
    } else if str_eq(c, "help") || str_eq(c, "--help") || str_eq(c, "-h") {
        Invocation::Help
    } else {
        Invocation::Unknown(crate::text::owned(c))
    }
}

} // verus!
