//! Queries and edits on the registry: finding entries by name, matching a
//! search query, and the edits that the command line and the forms perform.

use vstd::prelude::*;
use crate::db::{CommandModel, CommandView, Database, DbView, GroupModel, GroupView, command_views, group_views};
use crate::text::{chars_of, contains_chars, is_substring, lowercase_keeps_emptiness, str_eq, to_lowercase, unicode_lowercase, views};

verus! {

// ---------------------------------------------------------------------------
// The first position that satisfies a predicate
// ---------------------------------------------------------------------------

/// The index of the first element of `s` that satisfies `p`, if any
/// (`Iterator::position`).
pub open spec fn first_index<A>(s: Seq<A>, p: spec_fn(A) -> bool) -> Option<int>
    decreases s.len(),
{
    if s.len() == 0 {
        None
    } else {
        match first_index(s.drop_last(), p) {
            Some(i) => Some(i),
            None => if p(s.last()) {
                Some(s.len() - 1)
            } else {
                None
            },
        }
    }
}

/// `first_index` finds the first satisfying element, and finds one exactly
/// when one exists.
pub proof fn lemma_first_index<A>(s: Seq<A>, p: spec_fn(A) -> bool)
    ensures
        match first_index(s, p) {
            Some(i) => 0 <= i < s.len() && p(s[i]) && forall|j: int| 0 <= j < i ==> !p(s[j]),
            None => forall|j: int| 0 <= j < s.len() ==> !p(s[j]),
        },
    decreases s.len(),
{
    if s.len() > 0 {
        lemma_first_index(s.drop_last(), p);
        match first_index(s.drop_last(), p) {
            Some(i) => {
                assert forall|j: int| 0 <= j < i implies !p(s[j]) by {
                    assert(s[j] == s.drop_last()[j]);
                }
                assert(s[i] == s.drop_last()[i]);
            },
            None => {
                assert forall|j: int| 0 <= j < s.len() - 1 implies !p(s[j]) by {
                    assert(s[j] == s.drop_last()[j]);
                }
            },
        }
    }
}

/// A first index found in a prefix stays the first index of the whole.
proof fn lemma_first_index_prefix<A>(s: Seq<A>, p: spec_fn(A) -> bool, n: int)
    requires
        0 <= n <= s.len(),
        first_index(s.take(n), p) is Some,
    ensures
        first_index(s, p) == first_index(s.take(n), p),
    decreases s.len() - n,
{
    if n < s.len() {
        assert(s.take(n + 1).drop_last() =~= s.take(n));
        lemma_first_index_prefix(s, p, n + 1);
    } else {
        assert(s.take(n) =~= s);
    }
}

/// The position of the first command titled `t`.
pub open spec fn command_pos(cs: Seq<CommandView>, t: Seq<char>) -> Option<int> {
    first_index(cs, |c: CommandView| c.title == t)
}

/// The position of the first group named `n`.
pub open spec fn group_pos(gs: Seq<GroupView>, n: Seq<char>) -> Option<int> {
    first_index(gs, |g: GroupView| g.name == n)
}

/// Finds the first command titled `title`.
pub fn find_command(cmds: &Vec<CommandModel>, title: &str) -> (r: Option<usize>)
    ensures
        r matches Some(i) ==> command_pos(command_views(cmds@), title@) == Some(i as int),
        r is None ==> command_pos(command_views(cmds@), title@) is None,
{
    let ghost cs = command_views(cmds@);
    let ghost p = |c: CommandView| c.title == title@;
    let mut i: usize = 0;
    proof {
        assert(cs.take(0) =~= Seq::<CommandView>::empty());
    }
    while i < cmds.len()
        invariant
            cs == command_views(cmds@),
            p == (|c: CommandView| c.title == title@),
            i <= cmds@.len(),
            first_index(cs.take(i as int), p) is None,
        decreases cmds@.len() - i,
    {
        let hit = str_eq(cmds[i].title.as_str(), title);
        proof {
            assert(cs.take(i + 1).drop_last() =~= cs.take(i as int));
            assert(cs[i as int] == cmds@[i as int]@);
        }
        if hit {
            proof {
                lemma_first_index_prefix(cs, p, i + 1);
            }
            return Some(i);
        }
        i = i + 1;
    }
    proof {
        assert(cs.take(i as int) =~= cs);
    }
    None
}

/// Finds the first group named `name`.
pub fn find_group(groups: &Vec<GroupModel>, name: &str) -> (r: Option<usize>)
    ensures
        r matches Some(i) ==> group_pos(group_views(groups@), name@) == Some(i as int),
        r is None ==> group_pos(group_views(groups@), name@) is None,
{
    let ghost gs = group_views(groups@);
    let ghost p = |g: GroupView| g.name == name@;
    let mut i: usize = 0;
    proof {
        assert(gs.take(0) =~= Seq::<GroupView>::empty());
    }
    while i < groups.len()
        invariant
            gs == group_views(groups@),
            p == (|g: GroupView| g.name == name@),
            i <= groups@.len(),
            first_index(gs.take(i as int), p) is None,
        decreases groups@.len() - i,
    {
        let hit = str_eq(groups[i].name.as_str(), name);
        proof {
            assert(gs.take(i + 1).drop_last() =~= gs.take(i as int));
            assert(gs[i as int] == groups@[i as int]@);
        }
        if hit {
            proof {
                lemma_first_index_prefix(gs, p, i + 1);
            }
            return Some(i);
        }
        i = i + 1;
    }
    proof {
        assert(gs.take(i as int) =~= gs);
    }
    None
}

/// Whether a command titled `t` exists.
pub open spec fn has_command(db: DbView, t: Seq<char>) -> bool {
    exists|i: int| 0 <= i < db.commands.len() && db.commands[i].title == t
}

/// Whether a group named `n` exists.
pub open spec fn has_group(db: DbView, n: Seq<char>) -> bool {
    exists|i: int| 0 <= i < db.groups.len() && db.groups[i].name == n
}

/// A command position exists exactly when a command of that title does.
pub proof fn lemma_command_pos(cs: Seq<CommandView>, t: Seq<char>)
    ensures
        command_pos(cs, t) is Some <==> exists|i: int| 0 <= i < cs.len() && cs[i].title == t,
        command_pos(cs, t) matches Some(i) ==> 0 <= i < cs.len() && cs[i].title == t,
{
    lemma_first_index(cs, |c: CommandView| c.title == t);
}

/// A group position exists exactly when a group of that name does.
pub proof fn lemma_group_pos(gs: Seq<GroupView>, n: Seq<char>)
    ensures
        group_pos(gs, n) is Some <==> exists|i: int| 0 <= i < gs.len() && gs[i].name == n,
        group_pos(gs, n) matches Some(i) ==> 0 <= i < gs.len() && gs[i].name == n,
{
    lemma_first_index(gs, |g: GroupView| g.name == n);
}

// ---------------------------------------------------------------------------
// Search
// ---------------------------------------------------------------------------

/// `field` matches the query `q`, case-insensitively: the lowercased query
/// occurs in the lowercased field.
pub open spec fn field_hit(field: Seq<char>, q: Seq<char>) -> bool {
    is_substring(unicode_lowercase(q), unicode_lowercase(field))
}

/// A command matches `q` in its title, description or script.
pub open spec fn command_hits(c: CommandView, q: Seq<char>) -> bool {
    field_hit(c.title, q) || field_hit(c.description, q) || field_hit(c.script, q)
}

/// A group matches `q` in its name, description or one of its command titles.
pub open spec fn group_hits(g: GroupView, q: Seq<char>) -> bool {
    ||| field_hit(g.name, q)
    ||| field_hit(g.description, q)
    ||| exists|k: int| 0 <= k < g.commands.len() && field_hit(g.commands[k], q)
}

/// The selection rule of a search: with `empty_shows_all`, an empty query
/// keeps everything; otherwise the entry must match.
pub open spec fn command_selected(c: CommandView, q: Seq<char>, empty_shows_all: bool) -> bool {
    (empty_shows_all && q.len() == 0) || command_hits(c, q)
}

/// The selection rule of a search over groups.
pub open spec fn group_selected(g: GroupView, q: Seq<char>, empty_shows_all: bool) -> bool {
    (empty_shows_all && q.len() == 0) || group_hits(g, q)
}

/// The commands that a search keeps, in registry order.
pub open spec fn selected_commands(cs: Seq<CommandView>, q: Seq<char>, empty_shows_all: bool) -> Seq<
    CommandView,
> {
    cs.filter(|c: CommandView| command_selected(c, q, empty_shows_all))
}

/// The groups that a search keeps, in registry order.
pub open spec fn selected_groups(gs: Seq<GroupView>, q: Seq<char>, empty_shows_all: bool) -> Seq<
    GroupView,
> {
    gs.filter(|g: GroupView| group_selected(g, q, empty_shows_all))
}

/// Whether `field` matches, given the lowercased query.
fn hit(field: &str, lq: &Vec<char>, Ghost(q): Ghost<Seq<char>>) -> (r: bool)
    requires
        lq@ == unicode_lowercase(q),
    ensures
        r == field_hit(field@, q),
{
    let lf = to_lowercase(field);
    let lfv = chars_of(lf.as_str());
    contains_chars(&lfv, lq)
}

fn command_hits_exec(c: &CommandModel, lq: &Vec<char>, Ghost(q): Ghost<Seq<char>>) -> (r: bool)
    requires
        lq@ == unicode_lowercase(q),
    ensures
        r == command_hits(c@, q),
{
    hit(c.title.as_str(), lq, Ghost(q)) || hit(c.description.as_str(), lq, Ghost(q)) || hit(
        c.script.as_str(),
        lq,
        Ghost(q),
    )
}

fn group_hits_exec(g: &GroupModel, lq: &Vec<char>, Ghost(q): Ghost<Seq<char>>) -> (r: bool)
    requires
        lq@ == unicode_lowercase(q),
    ensures
        r == group_hits(g@, q),
{
    if hit(g.name.as_str(), lq, Ghost(q)) || hit(g.description.as_str(), lq, Ghost(q)) {
        return true;
    }
    let ghost cs = views(g.commands@);
    let mut k: usize = 0;
    while k < g.commands.len()
        invariant
            lq@ == unicode_lowercase(q),
            cs == views(g.commands@),
            k <= g.commands@.len(),
            forall|m: int| 0 <= m < k ==> !field_hit(cs[m], q),
        decreases g.commands@.len() - k,
    {
        if hit(g.commands[k].as_str(), lq, Ghost(q)) {
            assert(g@.commands[k as int] == cs[k as int]);
            assert(field_hit(g@.commands[k as int], q));
            return true;
        }
        k = k + 1;
    }
    false
}

/// The commands of `cmds` that the search for `q` keeps, in order.
pub fn filter_commands(cmds: &Vec<CommandModel>, q: &str, empty_shows_all: bool) -> (r: Vec<
    CommandModel,
>)
    ensures
        command_views(r@) == selected_commands(command_views(cmds@), q@, empty_shows_all),
        lowercase_keeps_emptiness(q@),
{
    let ghost cs = command_views(cmds@);
    let ghost pred = |c: CommandView| command_selected(c, q@, empty_shows_all);
    let lq_s = to_lowercase(q);
    let lq = chars_of(lq_s.as_str());
    let all = empty_shows_all && q.unicode_len() == 0;
    let mut r: Vec<CommandModel> = Vec::new();
    let mut i: usize = 0;
    proof {
        reveal(Seq::filter);
        assert(cs.take(0) =~= Seq::<CommandView>::empty());
    }
    while i < cmds.len()
        invariant
            cs == command_views(cmds@),
            pred == (|c: CommandView| command_selected(c, q@, empty_shows_all)),
            lq@ == unicode_lowercase(q@),
            all == (empty_shows_all && q@.len() == 0),
            i <= cmds@.len(),
            command_views(r@) == cs.take(i as int).filter(pred),
        decreases cmds@.len() - i,
    {
        let keep = all || command_hits_exec(&cmds[i], &lq, Ghost(q@));
        let ghost before = r@;
        proof {
            reveal(Seq::filter);
            assert(cs.take(i + 1).drop_last() =~= cs.take(i as int));
            assert(cs[i as int] == cmds@[i as int]@);
        }
        if keep {
            r.push(cmds[i].clone());
            assert(command_views(r@) =~= command_views(before).push(cmds@[i as int]@));
        }
        i = i + 1;
    }
    proof {
        assert(cs.take(i as int) =~= cs);
    }
    r
}

/// The groups of `groups` that the search for `q` keeps, in order.
pub fn filter_groups(groups: &Vec<GroupModel>, q: &str, empty_shows_all: bool) -> (r: Vec<
    GroupModel,
>)
    ensures
        group_views(r@) == selected_groups(group_views(groups@), q@, empty_shows_all),
        lowercase_keeps_emptiness(q@),
{
    let ghost gs = group_views(groups@);
    let ghost pred = |g: GroupView| group_selected(g, q@, empty_shows_all);
    let lq_s = to_lowercase(q);
    let lq = chars_of(lq_s.as_str());
    let all = empty_shows_all && q.unicode_len() == 0;
    let mut r: Vec<GroupModel> = Vec::new();
    let mut i: usize = 0;
    proof {
        reveal(Seq::filter);
        assert(gs.take(0) =~= Seq::<GroupView>::empty());
    }
    while i < groups.len()
        invariant
            gs == group_views(groups@),
            pred == (|g: GroupView| group_selected(g, q@, empty_shows_all)),
            lq@ == unicode_lowercase(q@),
            all == (empty_shows_all && q@.len() == 0),
            i <= groups@.len(),
            group_views(r@) == gs.take(i as int).filter(pred),
        decreases groups@.len() - i,
    {
        let keep = all || group_hits_exec(&groups[i], &lq, Ghost(q@));
        let ghost before = r@;
        proof {
            reveal(Seq::filter);
            assert(gs.take(i + 1).drop_last() =~= gs.take(i as int));
            assert(gs[i as int] == groups@[i as int]@);
        }
        if keep {
            r.push(groups[i].clone());
            assert(group_views(r@) =~= group_views(before).push(groups@[i as int]@));
        }
        i = i + 1;
    }
    proof {
        assert(gs.take(i as int) =~= gs);
    }
    r
}

// ---------------------------------------------------------------------------
// Removal
// ---------------------------------------------------------------------------

/// The registry without the first command titled `t` (unchanged if none).
pub open spec fn without_command(db: DbView, t: Seq<char>) -> DbView {
    match command_pos(db.commands, t) {
        Some(i) => DbView { commands: db.commands.remove(i), ..db },
        None => db,
    }
}

/// The registry without the first group named `n` (unchanged if none).
pub open spec fn without_group(db: DbView, n: Seq<char>) -> DbView {
    match group_pos(db.groups, n) {
        Some(i) => DbView { groups: db.groups.remove(i), ..db },
        None => db,
    }
}

/// Removes the first command titled `title`; returns whether there was one.
pub fn remove_command(db: &mut Database, title: &str) -> (found: bool)
    ensures
        final(db)@ == without_command(old(db)@, title@),
        found == (command_pos(old(db)@.commands, title@) is Some),
{
    match find_command(&db.commands, title) {
        Some(i) => {
            proof {
                lemma_command_pos(db@.commands, title@);
            }
            let ghost before = db.commands@;
            db.commands.remove(i);
            assert(command_views(db.commands@) =~= command_views(before).remove(i as int));
            true
        },
        None => false,
    }
}

/// Removes the first group named `name`; returns whether there was one.
pub fn remove_group(db: &mut Database, name: &str) -> (found: bool)
    ensures
        final(db)@ == without_group(old(db)@, name@),
        found == (group_pos(old(db)@.groups, name@) is Some),
{
    match find_group(&db.groups, name) {
        Some(i) => {
            proof {
                lemma_group_pos(db@.groups, name@);
            }
            let ghost before = db.groups@;
            db.groups.remove(i);
            assert(group_views(db.groups@) =~= group_views(before).remove(i as int));
            true
        },
        None => false,
    }
}

} // verus!
