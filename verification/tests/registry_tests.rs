use aliace::db::{Backup, CommandModel, Database, GroupModel, HistoryModel};
use aliace::ranking::sort_by_rank;
use aliace::registry::{filter_commands, filter_groups, find_command, find_group, remove_command, remove_group};
use aliace::vecs::swap_at;

fn cmd(title: &str, desc: &str, script: &str, uses: u32) -> CommandModel {
    CommandModel {
        title: title.to_string(),
        description: desc.to_string(),
        script: script.to_string(),
        group: None,
        use_count: uses,
        favorite: false,
    }
}

fn grp(name: &str, desc: &str, commands: &[&str], uses: u32) -> GroupModel {
    GroupModel {
        name: name.to_string(),
        description: desc.to_string(),
        commands: commands.iter().map(|c| c.to_string()).collect(),
        use_count: uses,
        favorite: false,
    }
}

fn sample_db() -> Database {
    Database {
        commands: vec![
            cmd("build", "Compile the project", "cargo build", 3),
            cmd("test", "Run the tests", "cargo test", 7),
            cmd("deploy", "Ship it", "scp target/app host:", 3),
        ],
        groups: vec![grp("ci", "Build and test", &["build", "test"], 5)],
        history: vec![],
    }
}

fn titles(v: &[CommandModel]) -> Vec<String> {
    v.iter().map(|c| c.title.clone()).collect()
}

#[test]
fn find_by_title_and_name() {
    let db = sample_db();
    assert_eq!(find_command(&db.commands, "test"), Some(1));
    assert_eq!(find_command(&db.commands, "Test"), None);
    assert_eq!(find_command(&db.commands, "missing"), None);
    assert_eq!(find_group(&db.groups, "ci"), Some(0));
    assert_eq!(find_group(&db.groups, "cd"), None);
}

#[test]
fn find_returns_first_of_duplicates() {
    let cmds = vec![cmd("a", "", "one", 0), cmd("a", "", "two", 0)];
    assert_eq!(find_command(&cmds, "a"), Some(0));
}

#[test]
fn search_is_case_insensitive_over_all_fields() {
    let db = sample_db();
    assert_eq!(titles(&filter_commands(&db.commands, "CARGO", false)), vec!["build", "test"]);
    assert_eq!(titles(&filter_commands(&db.commands, "ship", false)), vec!["deploy"]);
    assert_eq!(titles(&filter_commands(&db.commands, "Build", false)), vec!["build"]);
    assert!(filter_commands(&db.commands, "nothing", false).is_empty());
}

#[test]
fn empty_query_depends_on_mode() {
    let db = sample_db();
    assert_eq!(filter_commands(&db.commands, "", true).len(), 3);
    // An empty needle is contained in every field, so every entry matches anyway.
    assert_eq!(filter_commands(&db.commands, "", false).len(), 3);
}

#[test]
fn group_search_looks_into_sequences() {
    let db = sample_db();
    assert_eq!(filter_groups(&db.groups, "TEST", false).len(), 1);
    assert_eq!(filter_groups(&db.groups, "deploy", false).len(), 0);
    assert_eq!(filter_groups(&db.groups, "", true).len(), 1);
}

#[test]
fn remove_entries() {
    let mut db = sample_db();
    assert!(remove_command(&mut db, "build"));
    assert_eq!(titles(&db.commands), vec!["test", "deploy"]);
    assert!(!remove_command(&mut db, "build"));
    assert_eq!(db.commands.len(), 2);
    assert!(remove_group(&mut db, "ci"));
    assert!(db.groups.is_empty());
    assert!(!remove_group(&mut db, "ci"));
}

#[test]
fn ranking_is_descending_and_stable() {
    let db = sample_db();
    let sorted = sort_by_rank(db.commands);
    assert_eq!(titles(&sorted), vec!["test", "build", "deploy"]);
    let empty: Vec<CommandModel> = vec![];
    assert!(sort_by_rank(empty).is_empty());
}

#[test]
fn swapping_positions() {
    let mut v = vec![1, 2, 3];
    swap_at(&mut v, 0, 2);
    assert_eq!(v, vec![3, 2, 1]);
    swap_at(&mut v, 1, 1);
    assert_eq!(v, vec![3, 2, 1]);
}

#[test]
fn restoring_backups() {
    let mut db = sample_db();
    db.history.push(HistoryModel {
        command_title: "build".to_string(),
        script: "cargo build".to_string(),
        timestamp: "2024-01-01 00:00:00".to_string(),
        duration_ms: 10,
        status: "Success".to_string(),
    });
    db.restore(Backup::Commands(vec![cmd("only", "", "true", 0)]));
    assert_eq!(titles(&db.commands), vec!["only"]);
    assert_eq!(db.groups.len(), 1);
    assert_eq!(db.history.len(), 1);
    db.restore(Backup::Groups(vec![]));
    assert!(db.groups.is_empty());
    assert_eq!(db.commands.len(), 1);
    db.restore(Backup::Everything(sample_db()));
    assert_eq!(titles(&db.commands), vec!["build", "test", "deploy"]);
    assert_eq!(db.groups.len(), 1);
    assert!(db.history.is_empty());
}

#[test]
fn empty_database() {
    let db = Database::empty();
    assert!(db.commands.is_empty());
    assert!(db.groups.is_empty());
    assert!(db.history.is_empty());
}
