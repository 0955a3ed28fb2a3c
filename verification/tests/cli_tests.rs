use aliace::cli::admin::{handle_cli_command, handle_cli_group, CliError, CliOutcome};
use aliace::cli::run::{
    cli_delete_command, cli_run_command, cli_run_command_or_group, cli_run_group, confirms_deletion,
    fill_placeholder, finish_command_run, group_step_title, group_summary, history_entry,
    is_cancel_key, line_input_key, placeholder_tags, recent_history, record_history, update_target_is_group,
    DeleteOutcome, EntryKind, GroupRun, LineStep, MAX_HISTORY,
};
use aliace::cli::{
    args_from, cli_import_command, get_flag_value, get_search_query_from_args, parse_invocation,
    Invocation,
};
use aliace::db::{Backup, CommandModel, Database, GroupModel};
use aliace::tui::events::{Key, KeyCode};

fn args(words: &[&str]) -> Vec<String> {
    words.iter().map(|w| w.to_string()).collect()
}

fn cmd(title: &str, script: &str, uses: u32) -> CommandModel {
    CommandModel {
        title: title.to_string(),
        description: String::new(),
        script: script.to_string(),
        group: None,
        use_count: uses,
        favorite: false,
    }
}

fn grp(name: &str, commands: &[&str], uses: u32) -> GroupModel {
    GroupModel {
        name: name.to_string(),
        description: String::new(),
        commands: commands.iter().map(|c| c.to_string()).collect(),
        use_count: uses,
        favorite: false,
    }
}

fn sample_db() -> Database {
    Database {
        commands: vec![cmd("build", "cargo build", 2), cmd("test", "cargo test", 9), cmd("lint", "cargo clippy", 4)],
        groups: vec![grp("ci", &["build", "test"], 1), grp("all", &["lint", "ci"], 6)],
        history: vec![],
    }
}

fn key(code: KeyCode) -> Key {
    Key { code, shift: false, control: false }
}

fn ctrl(c: char) -> Key {
    Key { code: KeyCode::Char(c), shift: false, control: true }
}

fn titles(v: &[CommandModel]) -> Vec<String> {
    v.iter().map(|c| c.title.clone()).collect()
}

// ----- flags and invocation -------------------------------------------------

#[test]
fn flag_values() {
    let a = args(&["add", "--title", "x", "--script", "echo hi"]);
    assert_eq!(get_flag_value(&a, "--title"), Some("x".to_string()));
    assert_eq!(get_flag_value(&a, "--script"), Some("echo hi".to_string()));
    assert_eq!(get_flag_value(&a, "--desc"), None);
    let last = args(&["add", "--title"]);
    assert_eq!(get_flag_value(&last, "--title"), None);
    let twice = args(&["--title", "a", "--title", "b"]);
    assert_eq!(get_flag_value(&twice, "--title"), Some("a".to_string()));
}

#[test]
fn search_query_sources() {
    assert_eq!(get_search_query_from_args(&args(&["--search", "git"])), Some("git".to_string()));
    assert_eq!(get_search_query_from_args(&args(&["--most-run", "dock"])), Some("dock".to_string()));
    assert_eq!(get_search_query_from_args(&args(&["--most-run"])), None);
    assert_eq!(get_search_query_from_args(&args(&[])), None);
}

#[test]
fn argument_tail() {
    let a = args(&["list", "--most-run", "x"]);
    assert_eq!(args_from(&a, 1), args(&["--most-run", "x"]));
    assert_eq!(args_from(&a, 3), Vec::<String>::new());
}

#[test]
fn invocations() {
    assert!(matches!(parse_invocation(&args(&["aliace"])), Invocation::Dashboard));
    assert!(matches!(parse_invocation(&args(&["aliace", "-v"])), Invocation::Version));
    assert!(matches!(parse_invocation(&args(&["aliace", "--version"])), Invocation::Version));
    assert!(matches!(parse_invocation(&args(&["aliace", "list"])), Invocation::List));
    assert!(matches!(parse_invocation(&args(&["aliace", "add"])), Invocation::Add));
    assert!(matches!(parse_invocation(&args(&["aliace", "run", "build"])), Invocation::Run(Some(ref n)) if n == "build"));
    assert!(matches!(parse_invocation(&args(&["aliace", "run"])), Invocation::Run(None)));
    assert!(matches!(parse_invocation(&args(&["aliace", "update", "ci"])), Invocation::Update(Some(ref n)) if n == "ci"));
    assert!(matches!(parse_invocation(&args(&["aliace", "delete"])), Invocation::Delete(None)));
    assert!(matches!(parse_invocation(&args(&["aliace", "export"])), Invocation::Export));
    assert!(matches!(parse_invocation(&args(&["aliace", "import", "b.json"])), Invocation::Import(Some(ref p)) if p == "b.json"));
    assert!(matches!(parse_invocation(&args(&["aliace", "-h"])), Invocation::Help));
    assert!(matches!(parse_invocation(&args(&["aliace", "help"])), Invocation::Help));
    assert!(matches!(parse_invocation(&args(&["aliace", "frobnicate"])), Invocation::Unknown(ref w) if w == "frobnicate"));
    match parse_invocation(&args(&["aliace", "command", "list", "--most-run"])) {
        Invocation::Command(rest) => assert_eq!(rest, args(&["list", "--most-run"])),
        _ => panic!("expected the command subcommands"),
    }
    match parse_invocation(&args(&["aliace", "group"])) {
        Invocation::Group(rest) => assert!(rest.is_empty()),
        _ => panic!("expected the group subcommands"),
    }
}

// ----- command subcommands ----------------------------------------------------

#[test]
fn command_add_appends() {
    let mut db = sample_db();
    let r = handle_cli_command(&mut db, &args(&["add", "--title", "fmt", "--script", "cargo fmt", "--group", "style"]));
    assert!(matches!(r, Ok(CliOutcome::Added)));
    let c = db.commands.last().unwrap();
    assert_eq!(c.title, "fmt");
    assert_eq!(c.script, "cargo fmt");
    assert_eq!(c.description, "");
    assert_eq!(c.group, Some("style".to_string()));
    assert_eq!(c.use_count, 0);
    assert!(!c.favorite);
    assert_eq!(db.commands.len(), 4);
}

#[test]
fn command_add_errors() {
    let mut db = sample_db();
    match handle_cli_command(&mut db, &args(&["add", "--script", "x"])) {
        Err(e) => {
            assert!(matches!(e, CliError::MissingFlag(ref f) if f == "--title"));
            assert_eq!(e.message(), "Missing --title flag");
        }
        Ok(_) => panic!("missing title accepted"),
    }
    match handle_cli_command(&mut db, &args(&["add", "--title", "x"])) {
        Err(e) => assert_eq!(e.message(), "Missing --script flag"),
        Ok(_) => panic!("missing script accepted"),
    }
    match handle_cli_command(&mut db, &args(&["add", "--title", "build", "--script", "make"])) {
        Err(e) => {
            assert!(matches!(e, CliError::CommandExists(ref t) if t == "build"));
            assert_eq!(e.message(), "Error: Command with title 'build' already exists.");
        }
        Ok(_) => panic!("duplicate title accepted"),
    }
    assert_eq!(db.commands.len(), 3);
    assert_eq!(db.commands[0].script, "cargo build");
}

#[test]
fn command_update_changes_given_flags() {
    let mut db = sample_db();
    db.commands[0].group = Some("old".to_string());
    let r = handle_cli_command(&mut db, &args(&["update", "--title", "build", "--desc", "Compile", "--group", ""]));
    assert!(matches!(r, Ok(CliOutcome::Updated)));
    assert_eq!(db.commands[0].description, "Compile");
    assert_eq!(db.commands[0].script, "cargo build");
    assert_eq!(db.commands[0].group, None);
    assert_eq!(db.commands[0].use_count, 2);
    match handle_cli_command(&mut db, &args(&["update", "--title", "nope"])) {
        Err(e) => {
            assert!(matches!(e, CliError::CommandNotFound(ref t) if t == "nope"));
            assert_eq!(e.message(), "Error: Command 'nope' not found.");
        }
        Ok(_) => panic!("unknown command updated"),
    }
}

#[test]
fn command_delete_removes() {
    let mut db = sample_db();
    let r = handle_cli_command(&mut db, &args(&["delete", "--title", "test"]));
    assert!(matches!(r, Ok(CliOutcome::Deleted(ref t)) if t == "test"));
    assert_eq!(titles(&db.commands), vec!["build", "lint"]);
    assert!(handle_cli_command(&mut db, &args(&["delete", "--title", "test"])).is_err());
    assert!(handle_cli_command(&mut db, &args(&["delete"])).is_err());
}

#[test]
fn command_listing() {
    let mut db = sample_db();
    match handle_cli_command(&mut db, &args(&["list"])) {
        Ok(CliOutcome::CommandsListed(v, searched)) => {
            assert_eq!(titles(&v), vec!["build", "test", "lint"]);
            assert!(!searched);
        }
        _ => panic!("expected a listing"),
    }
    match handle_cli_command(&mut db, &args(&["list", "--most-run"])) {
        Ok(CliOutcome::CommandsListed(v, searched)) => {
            assert_eq!(titles(&v), vec!["test", "lint", "build"]);
            assert!(!searched);
        }
        _ => panic!("expected a listing"),
    }
    match handle_cli_command(&mut db, &args(&["list", "CLIPPY"])) {
        Ok(CliOutcome::CommandsListed(v, searched)) => {
            assert_eq!(titles(&v), vec!["lint"]);
            assert!(searched);
        }
        _ => panic!("expected a listing"),
    }
    match handle_cli_command(&mut db, &args(&["list", "--search", "cargo", "--most-run"])) {
        Ok(CliOutcome::CommandsListed(v, _)) => assert_eq!(titles(&v), vec!["test", "lint", "build"]),
        _ => panic!("expected a listing"),
    }
}

#[test]
fn command_subcommand_dispatch() {
    let mut db = sample_db();
    assert!(matches!(handle_cli_command(&mut db, &args(&[])), Ok(CliOutcome::MissingSubcommand)));
    assert!(matches!(handle_cli_command(&mut db, &args(&["rename"])), Ok(CliOutcome::UnknownSubcommand(ref w)) if w == "rename"));
}

// ----- group subcommands ------------------------------------------------------

#[test]
fn group_add_update_delete() {
    let mut db = sample_db();
    let r = handle_cli_group(&mut db, &args(&["add", "--name", "release", "--desc", "Ship", "--commands", "build, test ,lint"]));
    assert!(matches!(r, Ok(CliOutcome::Added)));
    let g = db.groups.last().unwrap();
    assert_eq!(g.name, "release");
    assert_eq!(g.description, "Ship");
    assert_eq!(g.commands, args(&["build", "test", "lint"]));
    match handle_cli_group(&mut db, &args(&["add", "--name", "new"])) {
        Err(e) => {
            assert!(matches!(e, CliError::MissingFlag(ref f) if f == "--desc"));
            assert_eq!(e.message(), "Missing --desc flag");
        }
        Ok(_) => panic!("missing description accepted"),
    }
    match handle_cli_group(&mut db, &args(&["add", "--name", "ci", "--desc", "again"])) {
        Err(e) => {
            assert!(matches!(e, CliError::GroupExists(ref n) if n == "ci"));
            assert_eq!(e.message(), "Error: Group 'ci' already exists.");
        }
        Ok(_) => panic!("duplicate group accepted"),
    }
    match handle_cli_group(&mut db, &args(&["add"])) {
        Err(e) => assert_eq!(e.message(), "Missing --name flag"),
        Ok(_) => panic!("missing name accepted"),
    }
    assert!(matches!(handle_cli_group(&mut db, &args(&["update", "--name", "ci", "--commands", ""])), Ok(CliOutcome::Updated)));
    assert!(db.groups[0].commands.is_empty());
    match handle_cli_group(&mut db, &args(&["update", "--name", "cd"])) {
        Err(e) => {
            assert!(matches!(e, CliError::GroupNotFound(ref n) if n == "cd"));
            assert_eq!(e.message(), "Error: Group 'cd' not found.");
        }
        Ok(_) => panic!("unknown group updated"),
    }
    assert!(matches!(handle_cli_group(&mut db, &args(&["delete", "--name", "ci"])), Ok(CliOutcome::Deleted(ref n)) if n == "ci"));
    assert_eq!(db.groups.len(), 2);
}

#[test]
fn group_listing() {
    let mut db = sample_db();
    match handle_cli_group(&mut db, &args(&["list", "--most-run"])) {
        Ok(CliOutcome::GroupsListed(v, searched)) => {
            let names: Vec<String> = v.iter().map(|g| g.name.clone()).collect();
            assert_eq!(names, vec!["all", "ci"]);
            assert!(!searched);
        }
        _ => panic!("expected a listing"),
    }
    match handle_cli_group(&mut db, &args(&["list", "lint"])) {
        Ok(CliOutcome::GroupsListed(v, searched)) => {
            assert_eq!(v.len(), 1);
            assert_eq!(v[0].name, "all");
            assert!(searched);
        }
        _ => panic!("expected a listing"),
    }
}

// ----- import -----------------------------------------------------------------

#[test]
fn import_messages() {
    let mut db = sample_db();
    let m = cli_import_command(&mut db, Backup::Commands(vec![cmd("x", "true", 0)]));
    assert_eq!(m, "Successfully imported commands list.");
    assert_eq!(titles(&db.commands), vec!["x"]);
    assert_eq!(db.groups.len(), 2);
    let m = cli_import_command(&mut db, Backup::Groups(vec![]));
    assert_eq!(m, "Successfully imported groups list.");
    assert!(db.groups.is_empty());
    let m = cli_import_command(&mut db, Backup::Everything(sample_db()));
    assert_eq!(m, "Successfully imported database backup (Everything).");
    assert_eq!(db.commands.len(), 3);
    assert_eq!(db.groups.len(), 2);
}

// ----- running ----------------------------------------------------------------

#[test]
fn run_target_kinds() {
    let mut db = sample_db();
    db.groups.push(grp("build", &[], 0));
    assert_eq!(cli_run_command_or_group(&db, "build"), EntryKind::Command);
    assert_eq!(cli_run_command_or_group(&db, "ci"), EntryKind::Group);
    assert_eq!(cli_run_command_or_group(&db, "zzz"), EntryKind::Missing);
    assert!(update_target_is_group(&db, "ci"));
    assert!(!update_target_is_group(&db, "test"));
}

#[test]
fn running_a_command_counts_it() {
    let mut db = sample_db();
    assert_eq!(cli_run_command(&mut db, "build"), Some("cargo build".to_string()));
    assert_eq!(db.commands[0].use_count, 3);
    assert_eq!(cli_run_command(&mut db, "missing"), None);
    assert_eq!(db.commands[0].use_count, 3);
    assert_eq!(db.commands[1].use_count, 9);
}

#[test]
fn running_a_group_counts_it() {
    let mut db = sample_db();
    assert_eq!(cli_run_group(&mut db, "all"), Some(args(&["lint", "ci"])));
    assert_eq!(db.groups[1].use_count, 7);
    assert_eq!(cli_run_group(&mut db, "nothing"), None);
}

#[test]
fn finishing_a_run_records_it() {
    let mut db = sample_db();
    finish_command_run(&mut db, "test", "cargo test --all".to_string(), "2024-05-01 10:00:00".to_string(), 120, false);
    assert_eq!(db.commands[1].use_count, 10);
    assert_eq!(db.history.len(), 1);
    let h = &db.history[0];
    assert_eq!(h.command_title, "test");
    assert_eq!(h.script, "cargo test --all");
    assert_eq!(h.timestamp, "2024-05-01 10:00:00");
    assert_eq!(h.duration_ms, 120);
    assert_eq!(h.status, "FAILED");
}

#[test]
fn history_keeps_the_latest_hundred() {
    let mut db = Database::empty();
    for i in 0..(MAX_HISTORY + 5) {
        record_history(&mut db, history_entry(format!("c{}", i), "s".to_string(), "t".to_string(), 1, true));
    }
    assert_eq!(db.history.len(), MAX_HISTORY);
    assert_eq!(db.history[0].command_title, "c5");
    assert_eq!(db.history[MAX_HISTORY - 1].command_title, format!("c{}", MAX_HISTORY + 4));
    assert_eq!(db.history[0].status, "OK");
}

#[test]
fn group_run_halts_at_first_failure() {
    let mut run = GroupRun::new("all".to_string(), args(&["lint", "test", "build"]));
    assert_eq!(run.next_command(), Some("lint".to_string()));
    run.step_done(true);
    assert_eq!(run.next_command(), Some("test".to_string()));
    run.step_done(false);
    assert_eq!(run.next_command(), None);
    assert!(!run.all_ok());
    assert_eq!(run.position, 2);
    assert_eq!(run.tally.success, 1);
    assert_eq!(run.tally.failed, 1);
    let h = run.summary_entry("now".to_string(), 5);
    assert_eq!(h.command_title, "all");
    assert_eq!(h.script, "Execute group of 3 commands");
    assert_eq!(h.status, "FAILED");
    assert_eq!(run.step_title("lint"), "all -> lint");
}

#[test]
fn group_run_completes_when_all_succeed() {
    let mut run = GroupRun::new("ci".to_string(), args(&["build", "test"]));
    run.step_done(true);
    run.step_done(true);
    assert_eq!(run.next_command(), None);
    assert!(run.all_ok());
    assert_eq!(run.summary_entry("t".to_string(), 0).status, "OK");
    let empty = GroupRun::new("none".to_string(), vec![]);
    assert_eq!(empty.next_command(), None);
    assert!(empty.all_ok());
}

#[test]
fn group_texts() {
    assert_eq!(group_step_title("ci", "build"), "ci -> build");
    assert_eq!(group_summary(0), "Execute group of 0 commands");
    assert_eq!(group_summary(12), "Execute group of 12 commands");
}

// ----- deletion prompt ----------------------------------------------------------

#[test]
fn deletion_needs_confirmation() {
    assert!(confirms_deletion("y"));
    assert!(confirms_deletion(" Y \n"));
    assert!(!confirms_deletion("yes"));
    assert!(!confirms_deletion(""));
    let mut db = sample_db();
    assert_eq!(cli_delete_command(&mut db, "build", true, "n"), DeleteOutcome::Cancelled);
    assert_eq!(db.commands.len(), 3);
    assert_eq!(cli_delete_command(&mut db, "build", true, "y\n"), DeleteOutcome::Deleted);
    assert_eq!(titles(&db.commands), vec!["test", "lint"]);
    assert_eq!(cli_delete_command(&mut db, "build", true, "y"), DeleteOutcome::Vanished);
    assert_eq!(cli_delete_command(&mut db, "ci", false, "Y"), DeleteOutcome::Deleted);
    assert_eq!(db.groups.len(), 1);
}

// ----- placeholders and prompts -----------------------------------------------

#[test]
fn placeholders_in_order_of_first_appearance() {
    assert_eq!(placeholder_tags("git commit -m \"<message>\""), args(&["message"]));
    assert_eq!(placeholder_tags("<b> <a> <b>"), args(&["b", "a"]));
    assert_eq!(placeholder_tags("no tags"), Vec::<String>::new());
    assert_eq!(placeholder_tags("<> <x"), Vec::<String>::new());
    assert_eq!(placeholder_tags("<<a>"), args(&["a"]));
    assert_eq!(placeholder_tags("a > b <c>"), args(&["c"]));
}

#[test]
fn filling_placeholders() {
    let s = fill_placeholder("git commit -m \"<message>\"", "message", "Initial release");
    assert_eq!(s, "git commit -m \"Initial release\"");
    assert_eq!(fill_placeholder("<x>-<x>", "x", "1"), "1-1");
    assert_eq!(fill_placeholder("<x>", "y", "1"), "<x>");
}

#[test]
fn typing_at_a_prompt() {
    let mut line = String::new();
    assert_eq!(line_input_key(&mut line, key(KeyCode::Char('h'))), LineStep::Echo('h'));
    assert_eq!(line_input_key(&mut line, key(KeyCode::Char('i'))), LineStep::Echo('i'));
    assert_eq!(line, "hi");
    assert_eq!(line_input_key(&mut line, key(KeyCode::Backspace)), LineStep::Erased);
    assert_eq!(line, "h");
    assert_eq!(line_input_key(&mut line, key(KeyCode::Left)), LineStep::Continue);
    assert_eq!(line_input_key(&mut line, key(KeyCode::Enter)), LineStep::Done);
    assert_eq!(line, "h");
    assert_eq!(line_input_key(&mut line, ctrl('q')), LineStep::Cancelled);
    assert_eq!(line_input_key(&mut line, ctrl('c')), LineStep::Cancelled);
    assert_eq!(line, "h");
    let mut empty = String::new();
    assert_eq!(line_input_key(&mut empty, key(KeyCode::Backspace)), LineStep::Continue);
    assert!(is_cancel_key(ctrl('Q')));
    assert!(!is_cancel_key(key(KeyCode::Char('q'))));
}

#[test]
fn recent_history_newest_first() {
    let mut db = Database::empty();
    assert!(recent_history(&db, 3).is_empty());
    for i in 0..5 {
        record_history(&mut db, history_entry(format!("c{}", i), "s".to_string(), "t".to_string(), 1, true));
    }
    let titles: Vec<String> = recent_history(&db, 3).iter().map(|h| h.command_title.clone()).collect();
    assert_eq!(titles, vec!["c4", "c3", "c2"]);
    assert_eq!(recent_history(&db, 10).len(), 5);
    assert_eq!(recent_history(&db, 0).len(), 0);
}

#[test]
fn added_command_is_what_a_run_finds() {
    let mut db = sample_db();
    let r = handle_cli_command(&mut db, &args(&["add", "--title", "deploy", "--script", "./ship.sh"]));
    assert!(matches!(r, Ok(CliOutcome::Added)));
    assert_eq!(cli_run_command_or_group(&db, "deploy"), EntryKind::Command);
    assert_eq!(cli_run_command(&mut db, "deploy"), Some("./ship.sh".to_string()));
    assert_eq!(db.commands[3].use_count, 1);
}

#[test]
fn a_missing_command_fails_the_run() {
    let mut run = GroupRun::new("ci".to_string(), args(&["gone", "test"]));
    assert_eq!(run.next_command(), Some("gone".to_string()));
    run.step_missing();
    assert_eq!(run.next_command(), None);
    assert_eq!(run.tally.failed, 1);
    assert_eq!(run.tally.success, 0);
    assert_eq!(run.position, 1);
    assert!(!run.all_ok());
}
