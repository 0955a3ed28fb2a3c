//! Running commands and pipeline groups: finding what to run, counting runs,
//! recording the execution history, resolving `<placeholder>` tags, and the
//! decisions of the interactive prompts around a run.

use vstd::prelude::*;
use crate::db::{DbView, Database, CommandView, GroupView, HistoryModel, HistoryView, command_views, group_views, history_views};
use crate::registry::{
    command_pos, find_command, find_group, group_pos, has_command, has_group, lemma_command_pos,
    lemma_group_pos, remove_command, remove_group, without_command, without_group,
};
use crate::text::{
    chars_of, is_substring, push_char, replace_all, replaced, string_from_chars, to_decimal,
    decimal, trim, trimmed, views,
};
use crate::db::clone_strings;
use crate::tui::events::{Key, KeyCode};

verus! {

// ---------------------------------------------------------------------------
// What a name refers to
// ---------------------------------------------------------------------------

/// What a name given on the command line refers to.
#[derive(Copy, Clone, PartialEq, Eq, Debug, Structural)]
pub enum EntryKind {
    Command,
    Group,
    Missing,
}

/// A name refers to a command if one has that title, else to a group if one
/// has that name.
pub open spec fn entry_kind(db: DbView, name: Seq<char>) -> EntryKind {
    if has_command(db, name) {
        EntryKind::Command
    } else if has_group(db, name) {
        EntryKind::Group
    } else {
        EntryKind::Missing
    }
}

/// What `run <name>` runs: the command of that title, else the group of
/// that name.
pub fn cli_run_command_or_group(db: &Database, name: &str) -> (k: EntryKind)
    ensures
        k == entry_kind(db@, name@),
{
    proof {
        lemma_command_pos(db@.commands, name@);
        lemma_group_pos(db@.groups, name@);
    }
    if find_command(&db.commands, name).is_some() {
        EntryKind::Command
    } else if find_group(&db.groups, name).is_some() {
        EntryKind::Group
    } else {
        EntryKind::Missing
    }
}

/// Whether `update <name>` opens the group editor: some group has that name.
pub fn update_target_is_group(db: &Database, name: &str) -> (r: bool)
    ensures
        r == has_group(db@, name@),
{
    proof {
        lemma_group_pos(db@.groups, name@);
    }
    find_group(&db.groups, name).is_some()
}

// ---------------------------------------------------------------------------
// Deleting after confirmation
// ---------------------------------------------------------------------------

/// An answer confirms a deletion when, trimmed, it is `y` in either case.
pub open spec fn confirms(response: Seq<char>) -> bool {
    trimmed(response) == seq!['y'] || trimmed(response) == seq!['Y']
}

/// Whether the answer to the deletion prompt confirms it.
pub fn confirms_deletion(response: &str) -> (r: bool)
    ensures
        r == confirms(response@),
{
    let t = trim(response);
    let v = chars_of(t.as_str());
    let r = v.len() == 1 && (v[0] == 'y' || v[0] == 'Y');
    proof {
        if v@.len() == 1 {
            assert(v@ == seq![v@[0]]);
        }
    }
    r
}

/// How an answered deletion prompt ended.
#[derive(Copy, Clone, PartialEq, Eq, Debug, Structural)]
pub enum DeleteOutcome {
    /// The answer did not confirm.
    Cancelled,
    /// The entry was removed.
    Deleted,
    /// The answer confirmed but the entry was gone.
    Vanished,
}

/// The registry and outcome after answering the prompt to delete `name`, a
/// command when `is_command`, else a group.
pub open spec fn delete_step(db: DbView, name: Seq<char>, is_command: bool, response: Seq<char>) -> (DbView, DeleteOutcome) {
    if !confirms(response) {
        (db, DeleteOutcome::Cancelled)
    } else if is_command {
        (
            without_command(db, name),
            if command_pos(db.commands, name) is Some {
                DeleteOutcome::Deleted
            } else {
                DeleteOutcome::Vanished
            },
        )
    } else {
        (
            without_group(db, name),
            if group_pos(db.groups, name) is Some {
                DeleteOutcome::Deleted
            } else {
                DeleteOutcome::Vanished
            },
        )
    }
}

/// Deletes `name` (a command when `is_command`, else a group) when the
/// answer to the prompt confirms it.
pub fn cli_delete_command(db: &mut Database, name: &str, is_command: bool, response: &str) -> (r: DeleteOutcome)
    ensures
        (final(db)@, r) == delete_step(old(db)@, name@, is_command, response@),
{
    if !confirms_deletion(response) {
        return DeleteOutcome::Cancelled;
    }
    let found = if is_command {
        remove_command(db, name)
    } else {
        remove_group(db, name)
    };
    if found {
        DeleteOutcome::Deleted
    } else {
        DeleteOutcome::Vanished
    }
}

// ---------------------------------------------------------------------------
// Counting runs
// ---------------------------------------------------------------------------

/// The registry with the run count of the first command titled `t` raised
/// by one.
pub open spec fn bumped_command(db: DbView, t: Seq<char>) -> DbView {
    match command_pos(db.commands, t) {
        Some(i) => DbView {
            commands: db.commands.update(
                i,
                CommandView { use_count: (db.commands[i].use_count + 1) as u32, ..db.commands[i] },
            ),
            ..db
        },
        None => db,
    }
}

/// The registry with the run count of the first group named `n` raised by
/// one.
pub open spec fn bumped_group(db: DbView, n: Seq<char>) -> DbView {
    match group_pos(db.groups, n) {
        Some(i) => DbView {
            groups: db.groups.update(
                i,
                GroupView { use_count: (db.groups[i].use_count + 1) as u32, ..db.groups[i] },
            ),
            ..db
        },
        None => db,
    }
}

/// The run count of the command to run can still be raised.
pub open spec fn command_countable(db: DbView, t: Seq<char>) -> bool {
    match command_pos(db.commands, t) {
        Some(i) => db.commands[i].use_count < u32::MAX,
        None => true,
    }
}

/// The run count of the group to run can still be raised.
pub open spec fn group_countable(db: DbView, n: Seq<char>) -> bool {
    match group_pos(db.groups, n) {
        Some(i) => db.groups[i].use_count < u32::MAX,
        None => true,
    }
}

/// The script of the first command titled `t`, if any.
pub open spec fn script_of(db: DbView, t: Seq<char>) -> Option<Seq<char>> {
    match command_pos(db.commands, t) {
        Some(i) => Some(db.commands[i].script),
        None => None,
    }
}

/// The command sequence of the first group named `n`, if any.
pub open spec fn sequence_of(db: DbView, n: Seq<char>) -> Option<Seq<Seq<char>>> {
    match group_pos(db.groups, n) {
        Some(i) => Some(db.groups[i].commands),
        None => None,
    }
}

/// Starts running the command titled `title`: counts the run and returns
/// its script, or nothing when no command has that title.
pub fn cli_run_command(db: &mut Database, title: &str) -> (script: Option<String>)
    requires
        command_countable(old(db)@, title@),
    ensures
        final(db)@ == bumped_command(old(db)@, title@),
        crate::db::opt_view(script) == script_of(old(db)@, title@),
{
    proof {
        lemma_command_pos(db@.commands, title@);
    }
    match find_command(&db.commands, title) {
        Some(i) => {
            let mut c = db.commands[i].clone();
            c.use_count = c.use_count + 1;
            let script = c.script.clone();
            let ghost before = db.commands@;
            db.commands.set(i, c);
            assert(command_views(db.commands@) =~= command_views(before).update(i as int, c@));
            Some(script)
        },
        None => None,
    }
}

/// Starts running the group named `name`: counts the run and returns its
/// command sequence, or nothing when no group has that name.
pub fn cli_run_group(db: &mut Database, name: &str) -> (sequence: Option<Vec<String>>)
    requires
        group_countable(old(db)@, name@),
    ensures
        final(db)@ == bumped_group(old(db)@, name@),
        match sequence {
            Some(v) => sequence_of(old(db)@, name@) == Some(views(v@)),
            None => sequence_of(old(db)@, name@) is None,
        },
{
    proof {
        lemma_group_pos(db@.groups, name@);
    }
    match find_group(&db.groups, name) {
        Some(i) => {
            let mut g = db.groups[i].clone();
            g.use_count = g.use_count + 1;
            let sequence = clone_strings(&g.commands);
            let ghost before = db.groups@;
            db.groups.set(i, g);
            assert(group_views(db.groups@) =~= group_views(before).update(i as int, g@));
            Some(sequence)
        },
        None => None,
    }
}

// ---------------------------------------------------------------------------
// Execution history
// ---------------------------------------------------------------------------

/// The history keeps at most this many entries.
pub const MAX_HISTORY: usize = 100;

/// The history with `e` appended, dropping the oldest entry when it would
/// grow past the limit.
pub open spec fn capped_push(h: Seq<HistoryView>, e: HistoryView) -> Seq<HistoryView> {
    if h.len() + 1 > MAX_HISTORY {
        h.push(e).drop_first()
    } else {
        h.push(e)
    }
}

/// The status text of a run.
pub open spec fn status_text(ok: bool) -> Seq<char> {
    if ok {
        "OK"@
    } else {
        "FAILED"@
    }
}

/// A history entry.
pub fn history_entry(title: String, script: String, timestamp: String, duration_ms: u64, ok: bool) -> (h: HistoryModel)
    ensures
        h@ == (HistoryView {
            command_title: title@,
            script: script@,
            timestamp: timestamp@,
            duration_ms,
            status: status_text(ok),
        }),
{
    let status = if ok {
        String::from_str("OK")
    } else {
        String::from_str("FAILED")
    };
    HistoryModel { command_title: title, script, timestamp, duration_ms, status }
}

/// Appends an entry to the history, dropping the oldest beyond the limit.
pub fn record_history(db: &mut Database, entry: HistoryModel)
    ensures
        final(db)@ == (DbView { history: capped_push(old(db)@.history, entry@), ..old(db)@ }),
{
    let ghost before = db.history@;
    let ghost e = entry@;
    db.history.push(entry);
    if db.history.len() > MAX_HISTORY {
        db.history.remove(0);
        assert(history_views(db.history@) =~= history_views(before).push(e).drop_first());
    } else {
        assert(history_views(db.history@) =~= history_views(before).push(e));
    }
}

/// The newest `n` entries of a history (all of them when there are fewer),
/// newest first.
pub open spec fn recent(h: Seq<HistoryView>, n: nat) -> Seq<HistoryView> {
    let k = if n < h.len() {
        n
    } else {
        h.len()
    };
    Seq::new(k, |i: int| h[h.len() - 1 - i])
}

/// The newest `n` history entries, newest first, as the dashboard lists them.
pub fn recent_history(db: &Database, n: usize) -> (r: Vec<HistoryModel>)
    ensures
        history_views(r@) == recent(db@.history, n as nat),
{
    let mut r: Vec<HistoryModel> = Vec::new();
    let len = db.history.len();
    let mut i: usize = 0;
    proof {
        assert(history_views(r@) =~= recent(db@.history, 0));
    }
    while i < n && i < len
        invariant
            len == db.history@.len(),
            i <= len,
            i <= n,
            history_views(r@) == recent(db@.history, i as nat),
        decreases len - i,
    {
        let ghost before = r@;
        let h = db.history[len - 1 - i].clone();
        r.push(h);
        i = i + 1;
        proof {
            assert(history_views(r@) =~= history_views(before).push(h@));
            assert(db@.history[len - i] == db.history@[len - i]@);
            assert(history_views(r@) =~= recent(db@.history, i as nat));
        }
    }
    proof {
        assert(recent(db@.history, i as nat) =~= recent(db@.history, n as nat));
    }
    r
}

/// Finishes running the command titled `title`: counts the run once more,
/// as the registry is read back after the run, and records it with the
/// resolved script, start time, duration and outcome.
pub fn finish_command_run(db: &mut Database, title: &str, script: String, timestamp: String, duration_ms: u64, ok: bool)
    requires
        command_countable(old(db)@, title@),
    ensures
        final(db)@ == ({
            let b = bumped_command(old(db)@, title@);
            DbView {
                history: capped_push(
                    b.history,
                    HistoryView {
                        command_title: title@,
                        script: script@,
                        timestamp: timestamp@,
                        duration_ms,
                        status: status_text(ok),
                    },
                ),
                ..b
            }
        }),
{
    let _ = cli_run_command(db, title);
    let entry = history_entry(crate::text::owned(title), script, timestamp, duration_ms, ok);
    record_history(db, entry);
}

/// The history title of one step of a group run.
pub fn group_step_title(name: &str, command: &str) -> (t: String)
    ensures
        t@ == name@ + " -> "@ + command@,
{
    let mut t = crate::text::owned(name);
    t.append(" -> ");
    t.append(command);
    t
}

/// The script recorded for a whole group run.
pub open spec fn group_summary_script(n: nat) -> Seq<char> {
    "Execute group of "@ + decimal(n) + " commands"@
}

/// The script recorded for a group run of `n` commands.
pub fn group_summary(n: usize) -> (s: String)
    ensures
        s@ == group_summary_script(n as nat),
{
    let mut s = String::from_str("Execute group of ");
    let d = to_decimal(n as u64);
    s.append(d.as_str());
    s.append(" commands");
    s
}

/// The tally of a group run: steps that succeeded and steps that failed
/// (a missing command counts as failed).
pub struct GroupTally {
    pub success: usize,
    pub failed: usize,
}

/// A group run in progress: the group's name and command sequence, how many
/// steps have been taken, and their tally. A pipeline halts at its first
/// failing step.
pub struct GroupRun {
    pub name: String,
    pub sequence: Vec<String>,
    pub position: usize,
    pub tally: GroupTally,
}

/// The mathematical value of a group run.
pub struct GroupRunView {
    pub name: Seq<char>,
    pub sequence: Seq<Seq<char>>,
    pub position: usize,
    pub success: usize,
    pub failed: usize,
}

impl View for GroupRun {
    type V = GroupRunView;

    open spec fn view(&self) -> GroupRunView {
        GroupRunView {
            name: self.name@,
            sequence: views(self.sequence@),
            position: self.position,
            success: self.tally.success,
            failed: self.tally.failed,
        }
    }
}

/// The command that a group run executes next: the next one in the
/// sequence, unless a step has failed or the sequence is done.
pub open spec fn next_of(r: GroupRunView) -> Option<Seq<char>> {
    if r.failed == 0 && r.position < r.sequence.len() {
        Some(r.sequence[r.position as int])
    } else {
        None
    }
}

/// A group run's steps are counted: every step taken succeeded or failed.
pub open spec fn run_consistent(r: GroupRunView) -> bool {
    r.success + r.failed == r.position && r.position <= r.sequence.len()
}

impl GroupRun {
    /// A run of `sequence` for the group `name`, with no step taken.
    pub fn new(name: String, sequence: Vec<String>) -> (r: GroupRun)
        ensures
            r@ == (GroupRunView { name: name@, sequence: views(sequence@), position: 0, success: 0, failed: 0 }),
            run_consistent(r@),
    {
        GroupRun { name, sequence, position: 0, tally: GroupTally { success: 0, failed: 0 } }
    }

    /// The command to execute next, if the run goes on.
    pub fn next_command(&self) -> (c: Option<String>)
        ensures
            crate::db::opt_view(c) == next_of(self@),
    {
        if self.tally.failed == 0 && self.position < self.sequence.len() {
            assert(views(self.sequence@)[self.position as int] == self.sequence@[self.position as int]@);
            Some(self.sequence[self.position].clone())
        } else {
            None
        }
    }

    /// Counts the step just executed.
    pub fn step_done(&mut self, ok: bool)
        requires
            run_consistent(old(self)@),
            next_of(old(self)@) is Some,
        ensures
            final(self)@ == (GroupRunView {
                position: (old(self)@.position + 1) as usize,
                success: if ok { (old(self)@.success + 1) as usize } else { old(self)@.success },
                failed: if ok { old(self)@.failed } else { (old(self)@.failed + 1) as usize },
                ..old(self)@
            }),
            run_consistent(final(self)@),
    {
        let n = self.sequence.len();
        assert(self.position < n);
        self.position = self.position + 1;
        if ok {
            self.tally.success = self.tally.success + 1;
        } else {
            self.tally.failed = self.tally.failed + 1;
        }
    }

    /// Counts the step whose command is not in the registry: a missing
    /// command is a failed step, so the run halts there.
    pub fn step_missing(&mut self)
        requires
            run_consistent(old(self)@),
            next_of(old(self)@) is Some,
        ensures
            final(self)@ == (GroupRunView {
                position: (old(self)@.position + 1) as usize,
                failed: (old(self)@.failed + 1) as usize,
                ..old(self)@
            }),
            next_of(final(self)@) is None,
            run_consistent(final(self)@),
    {
        self.step_done(false);
    }

    /// Whether every step taken succeeded.
    pub fn all_ok(&self) -> (r: bool)
        ensures
            r == (self@.failed == 0),
    {
        self.tally.failed == 0
    }

    /// The name of the history entry of a step running `command`.
    pub fn step_title(&self, command: &str) -> (t: String)
        ensures
            t@ == self@.name + " -> "@ + command@,
    {
        group_step_title(self.name.as_str(), command)
    }

    /// The history entry that records the whole run.
    pub fn summary_entry(&self, timestamp: String, duration_ms: u64) -> (h: HistoryModel)
        ensures
            h@ == (HistoryView {
                command_title: self@.name,
                script: group_summary_script(self@.sequence.len()),
                timestamp: timestamp@,
                duration_ms,
                status: status_text(self@.failed == 0),
            }),
    {
        let script = group_summary(self.sequence.len());
        history_entry(self.name.clone(), script, timestamp, duration_ms, self.tally.failed == 0)
    }
}

// ---------------------------------------------------------------------------
// Placeholders
// ---------------------------------------------------------------------------

/// The position of the `<` that opens a tag still open at the end of `s`:
/// the last `<` with no `>` after it.
pub open spec fn open_since(s: Seq<char>) -> Option<int>
    decreases s.len(),
{
    if s.len() == 0 {
        None
    } else if s.last() == '<' {
        Some(s.len() - 1)
    } else if s.last() == '>' {
        None
    } else {
        open_since(s.drop_last())
    }
}

/// The names of the `<name>` tags of `s`, left to right, with repeats: each
/// `>` that closes an open `<` with at least one character between them
/// yields the characters between.
pub open spec fn tag_occurrences(s: Seq<char>) -> Seq<Seq<char>>
    decreases s.len(),
{
    if s.len() == 0 {
        Seq::empty()
    } else {
        let prev = tag_occurrences(s.drop_last());
        if s.last() == '>' {
            match open_since(s.drop_last()) {
                Some(i) => if i + 1 < s.len() - 1 {
                    prev.push(s.subrange(i + 1, s.len() - 1))
                } else {
                    prev
                },
                None => prev,
            }
        } else {
            prev
        }
    }
}

/// `s` with every repeat of an earlier element left out.
pub open spec fn first_occurrences<A>(s: Seq<A>) -> Seq<A>
    decreases s.len(),
{
    if s.len() == 0 {
        s
    } else {
        let p = first_occurrences(s.drop_last());
        if p.contains(s.last()) {
            p
        } else {
            p.push(s.last())
        }
    }
}

/// The placeholders of a script, in order of first appearance.
pub open spec fn placeholder_names(s: Seq<char>) -> Seq<Seq<char>> {
    first_occurrences(tag_occurrences(s))
}

/// The tag text for a placeholder name.
pub open spec fn tag_text(name: Seq<char>) -> Seq<char> {
    seq!['<'] + name + seq!['>']
}

/// Whether `v` already holds a string with the characters of `x`.
fn holds(v: &Vec<String>, x: &String) -> (r: bool)
    ensures
        r == views(v@).contains(x@),
{
    let mut i: usize = 0;
    while i < v.len()
        invariant
            i <= v@.len(),
            forall|j: int| 0 <= j < i ==> views(v@)[j] != x@,
        decreases v@.len() - i,
    {
        if v[i] == *x {
            assert(views(v@)[i as int] == x@);
            return true;
        }
        i = i + 1;
    }
    false
}

/// The placeholders of `script`, in order of first appearance.
pub fn placeholder_tags(script: &str) -> (tags: Vec<String>)
    ensures
        views(tags@) == placeholder_names(script@),
{
    let v = chars_of(script);
    let mut tags: Vec<String> = Vec::new();
    let mut open: Option<usize> = None;
    let mut i: usize = 0;
    proof {
        assert(v@.take(0) =~= Seq::<char>::empty());
        assert(views(tags@) =~= Seq::<Seq<char>>::empty());
    }
    while i < v.len()
        invariant
            v@ == script@,
            i <= v@.len(),
            match open {
                Some(o) => open_since(v@.take(i as int)) == Some(o as int) && o < i,
                None => open_since(v@.take(i as int)) is None,
            },
            views(tags@) == first_occurrences(tag_occurrences(v@.take(i as int))),
        decreases v@.len() - i,
    {
        let c = v[i];
        let ghost s = v@.take(i + 1);
        let ghost occ = tag_occurrences(v@.take(i as int));
        proof {
            assert(s.drop_last() =~= v@.take(i as int));
            assert(s.last() == c);
        }
        if c == '<' {
            open = Some(i);
        } else if c == '>' {
            match open {
                Some(o) => {
                    if o + 1 < i {
                        let name = string_from_chars(&v, o + 1, i);
                        proof {
                            assert(name@ =~= s.subrange(o + 1, s.len() - 1));
                            assert(tag_occurrences(s) == occ.push(name@));
                            assert(occ.push(name@).drop_last() =~= occ);
                        }
                        if !holds(&tags, &name) {
                            let ghost before = tags@;
                            tags.push(name);
                            assert(views(tags@) =~= views(before).push(name@));
                        }
                    }
                },
                None => {},
            }
            open = None;
        }
        i = i + 1;
    }
    proof {
        assert(v@.take(v@.len() as int) =~= v@);
    }
    tags
}

/// The script with every `<tag>` replaced by `value`.
pub fn fill_placeholder(script: &str, tag: &str, value: &str) -> (r: String)
    ensures
        r@ == replaced(script@, tag_text(tag@), value@),
{
    let mut pattern = String::new();
    push_char(&mut pattern, '<');
    pattern.append(tag);
    push_char(&mut pattern, '>');
    assert(pattern@ =~= tag_text(tag@));
    replace_all(script, pattern.as_str(), value)
}

// ---------------------------------------------------------------------------
// Prompts
// ---------------------------------------------------------------------------

/// Ctrl+Q cancels a prompt or a running command.
pub open spec fn is_cancel(key: Key) -> bool {
    (key.code == KeyCode::Char('q') || key.code == KeyCode::Char('Q')) && key.control
}

/// Whether the key cancels (Ctrl+Q).
pub fn is_cancel_key(key: Key) -> (r: bool)
    ensures
        r == is_cancel(key),
{
    (key.code == KeyCode::Char('q') || key.code == KeyCode::Char('Q')) && key.control
}

/// What a key press does to a line being typed at a prompt.
#[derive(Copy, Clone, PartialEq, Eq, Debug, Structural)]
pub enum LineStep {
    /// Nothing visible happened.
    Continue,
    /// The character was added and is to be echoed.
    Echo(char),
    /// The last character was erased and is to be rubbed out.
    Erased,
    /// The line is complete.
    Done,
    /// The prompt was cancelled.
    Cancelled,
}

/// A key press at a prompt: Ctrl+Q or Ctrl+C cancel, Enter completes the
/// line, a character is added, Backspace erases the last one if any.
pub open spec fn line_step(input: Seq<char>, key: Key) -> (Seq<char>, LineStep) {
    if is_cancel(key) {
        (input, LineStep::Cancelled)
    } else {
        match key.code {
            KeyCode::Enter => (input, LineStep::Done),
            KeyCode::Char(c) => if c == 'c' && key.control {
                (input, LineStep::Cancelled)
            } else {
                (input.push(c), LineStep::Echo(c))
            },
            KeyCode::Backspace => if input.len() > 0 {
                (input.drop_last(), LineStep::Erased)
            } else {
                (input, LineStep::Continue)
            },
            _ => (input, LineStep::Continue),
        }
    }
}

/// A key press at a prompt, applied to the line typed so far.
pub fn line_input_key(input: &mut String, key: Key) -> (r: LineStep)
    ensures
        (final(input)@, r) == line_step(old(input)@, key),
{
    if is_cancel_key(key) {
        return LineStep::Cancelled;
    }
    match key.code {
        KeyCode::Enter => LineStep::Done,
        KeyCode::Char(c) => {
            if c == 'c' && key.control {
                LineStep::Cancelled
            } else {
                push_char(input, c);
                LineStep::Echo(c)
            }
        },
        KeyCode::Backspace => {
            match crate::text::pop_char(input) {
                Some(_) => LineStep::Erased,
                None => LineStep::Continue,
            }
        },
        _ => LineStep::Continue,
    }
}

} // verus!
