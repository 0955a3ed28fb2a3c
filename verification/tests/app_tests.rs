use aliace::app::{filter_items, App, AppScreen, FormField, GroupFormField, UsedItem};
use aliace::db::{Backup, CommandModel, Database, GroupModel};
use aliace::tui::events::lists::{
    handle_list_key, handle_search_key, open_tab_len, swap_commands, swap_favorites, swap_groups,
};
use aliace::tui::events::navigation::{export_file_name, handle_dashboard_key, handle_export_key, handle_import_key, ImportOutcome};
use aliace::tui::events::{handle_key_event, key_is_defined, Effect, ExportKind, Key, KeyCode};
use aliace::tui::{
    run_tui_add, run_tui_delete_list, run_tui_export, run_tui_import, run_tui_list,
    run_tui_main_dashboard, run_tui_update_command, run_tui_update_group, run_tui_update_list,
};

fn cmd(title: &str, script: &str, uses: u32, favorite: bool) -> CommandModel {
    CommandModel {
        title: title.to_string(),
        description: String::new(),
        script: script.to_string(),
        group: None,
        use_count: uses,
        favorite,
    }
}

fn grp(name: &str, commands: &[&str], uses: u32, favorite: bool) -> GroupModel {
    GroupModel {
        name: name.to_string(),
        description: String::new(),
        commands: commands.iter().map(|c| c.to_string()).collect(),
        use_count: uses,
        favorite,
    }
}

fn sample_db() -> Database {
    Database {
        commands: vec![
            cmd("build", "cargo build", 2, false),
            cmd("test", "cargo test", 9, true),
            cmd("lint", "cargo clippy", 4, false),
        ],
        groups: vec![grp("ci", &["build", "test"], 4, true), grp("docs", &["lint"], 0, false)],
        history: vec![],
    }
}

fn key(code: KeyCode) -> Key {
    Key { code, shift: false, control: false }
}

fn shift(code: KeyCode) -> Key {
    Key { code, shift: true, control: false }
}

fn ch(c: char) -> Key {
    key(KeyCode::Char(c))
}

fn names(v: &[UsedItem]) -> Vec<String> {
    v.iter().map(|i| i.name.clone()).collect()
}

fn titles(v: &[CommandModel]) -> Vec<String> {
    v.iter().map(|c| c.title.clone()).collect()
}

fn type_text(app: &mut App, s: &str) {
    for c in s.chars() {
        let _ = handle_key_event(app, ch(c));
    }
}

// ----- state and rankings -----------------------------------------------------

#[test]
fn new_console_state() {
    let app = App::new(AppScreen::Dashboard, sample_db());
    assert_eq!(app.screen, AppScreen::Dashboard);
    assert!(!app.should_quit);
    assert_eq!(app.list_selected, 0);
    assert_eq!(app.form_focus, FormField::Title);
    assert_eq!(app.group_focus, GroupFormField::Name);
    assert!(app.list_is_searching);
    assert_eq!(app.list_search_query, "");
    assert!(app.delete_confirm_title.is_none());
    assert_eq!(app.tick_count, 0);
}

#[test]
fn most_run_ranks_commands_and_groups_together() {
    let app = App::new(AppScreen::Dashboard, sample_db());
    let ranked = app.most_run_items();
    assert_eq!(names(&ranked), vec!["test", "lint", "ci", "build", "docs"]);
    assert!(ranked[2].is_group);
    assert_eq!(ranked[0].use_count, 9);
    assert_eq!(names(&app.all_items()), vec!["build", "test", "lint", "ci", "docs"]);
}

#[test]
fn favourites_commands_first() {
    let app = App::new(AppScreen::Dashboard, sample_db());
    let favs = app.favorite_items();
    assert_eq!(names(&favs), vec!["test", "ci"]);
    assert!(!favs[0].is_group);
    assert!(favs[1].is_group);
}

#[test]
fn searching_the_lists() {
    let mut app = App::new(AppScreen::ListCommands, sample_db());
    assert_eq!(titles(&app.get_filtered_commands()), vec!["build", "test", "lint"]);
    app.list_search_query = "CARGO T".to_string();
    assert_eq!(titles(&app.get_filtered_commands()), vec!["test"]);
    app.list_search_query = "lint".to_string();
    assert_eq!(app.get_filtered_groups().len(), 1);
    assert_eq!(app.get_filtered_groups()[0].name, "docs");
    assert_eq!(names(&app.get_filtered_most_run()), vec!["lint"]);
    app.list_search_query = "C".to_string();
    assert_eq!(names(&app.get_filtered_favorites()), vec!["ci"]);
    let items = vec![UsedItem { name: "Alpha".to_string(), is_group: false, use_count: 1 }];
    assert_eq!(filter_items(items, "alp").len(), 1);
}

#[test]
fn toggling_a_favourite_twice_restores_it() {
    let mut app = App::new(AppScreen::Dashboard, sample_db());
    assert!(app.toggle_favorite("build", false));
    assert!(app.db.commands[0].favorite);
    assert!(app.toggle_favorite("build", false));
    assert!(!app.db.commands[0].favorite);
    assert!(app.toggle_favorite("docs", true));
    assert!(app.db.groups[1].favorite);
    assert!(!app.toggle_favorite("nothing", false));
}

// ----- dashboard ----------------------------------------------------------------

#[test]
fn dashboard_navigation_and_run() {
    let mut app = App::new(AppScreen::Dashboard, sample_db());
    assert!(matches!(handle_dashboard_key(&mut app, key(KeyCode::Down)), Effect::Nothing));
    assert!(matches!(handle_dashboard_key(&mut app, key(KeyCode::Down)), Effect::Nothing));
    assert_eq!(app.dashboard_selected, 2);
    match handle_dashboard_key(&mut app, key(KeyCode::Enter)) {
        Effect::RunGroup(n) => assert_eq!(n, "ci"),
        _ => panic!("expected a group run"),
    }
    let _ = handle_dashboard_key(&mut app, key(KeyCode::Up));
    match handle_dashboard_key(&mut app, ch('r')) {
        Effect::RunCommand(t) => assert_eq!(t, "lint"),
        _ => panic!("expected a command run"),
    }
    for _ in 0..10 {
        let _ = handle_dashboard_key(&mut app, key(KeyCode::Down));
    }
    assert_eq!(app.dashboard_selected, 4);
    app.dashboard_selected = 40;
    let _ = handle_dashboard_key(&mut app, key(KeyCode::Other));
    assert_eq!(app.dashboard_selected, 4);
    let _ = handle_dashboard_key(&mut app, ch('q'));
    assert!(app.should_quit);
}

#[test]
fn dashboard_on_empty_registry() {
    let mut app = App::new(AppScreen::Dashboard, Database::empty());
    app.dashboard_selected = 3;
    assert!(matches!(handle_key_event(&mut app, key(KeyCode::Enter)), Effect::Nothing));
    assert_eq!(app.dashboard_selected, 0);
}

#[test]
fn dashboard_opens_screens() {
    let mut app = App::new(AppScreen::Dashboard, sample_db());
    let _ = handle_key_event(&mut app, ch('L'));
    assert_eq!(app.screen, AppScreen::ListCommands);
    app.screen = AppScreen::Dashboard;
    let _ = handle_key_event(&mut app, ch('a'));
    assert_eq!(app.screen, AppScreen::AddCommand);
    app.screen = AppScreen::Dashboard;
    let _ = handle_key_event(&mut app, ch('g'));
    assert_eq!(app.screen, AppScreen::AddGroup);
    app.screen = AppScreen::Dashboard;
    let _ = handle_key_event(&mut app, ch('u'));
    assert_eq!(app.screen, AppScreen::UpdateCommandList);
    app.screen = AppScreen::Dashboard;
    let _ = handle_key_event(&mut app, ch('d'));
    assert_eq!(app.screen, AppScreen::DeleteCommandList);
    app.screen = AppScreen::Dashboard;
    let _ = handle_key_event(&mut app, ch('e'));
    assert_eq!(app.screen, AppScreen::ExportMenu);
    app.screen = AppScreen::Dashboard;
    let _ = handle_key_event(&mut app, ch('i'));
    assert_eq!(app.screen, AppScreen::ImportForm);
    app.screen = AppScreen::Dashboard;
    let _ = handle_key_event(&mut app, key(KeyCode::Esc));
    assert!(app.should_quit);
}

// ----- command form -------------------------------------------------------------

#[test]
fn adding_a_command_through_the_form() {
    let mut app = App::new(AppScreen::Dashboard, sample_db());
    let _ = handle_key_event(&mut app, ch('a'));
    type_text(&mut app, " fmt ");
    let _ = handle_key_event(&mut app, key(KeyCode::Tab));
    type_text(&mut app, "Format");
    let _ = handle_key_event(&mut app, key(KeyCode::Down));
    type_text(&mut app, "cargo fmtx");
    let _ = handle_key_event(&mut app, key(KeyCode::Backspace));
    assert_eq!(app.form_script, "cargo fmt");
    let _ = handle_key_event(&mut app, key(KeyCode::Enter));
    assert_eq!(app.form_focus, FormField::Group);
    let _ = handle_key_event(&mut app, key(KeyCode::Enter));
    assert_eq!(app.form_focus, FormField::Save);
    assert!(matches!(handle_key_event(&mut app, key(KeyCode::Enter)), Effect::Save));
    assert_eq!(app.screen, AppScreen::ListCommands);
    let c = app.db.commands.last().unwrap();
    assert_eq!(c.title, "fmt");
    assert_eq!(c.description, "Format");
    assert_eq!(c.script, "cargo fmt");
    assert_eq!(c.group, None);
}

#[test]
fn command_form_errors() {
    let mut app = App::new(AppScreen::Dashboard, sample_db());
    let _ = handle_key_event(&mut app, ch('a'));
    app.form_focus = FormField::Save;
    assert!(matches!(handle_key_event(&mut app, key(KeyCode::Enter)), Effect::Nothing));
    assert_eq!(app.form_error, Some("Title cannot be empty".to_string()));
    app.form_title = "build".to_string();
    let _ = handle_key_event(&mut app, key(KeyCode::Enter));
    assert_eq!(app.form_error, Some("Command script cannot be empty".to_string()));
    app.form_script = "make".to_string();
    let _ = handle_key_event(&mut app, key(KeyCode::Enter));
    assert_eq!(app.form_error, Some("Command with title 'build' already exists".to_string()));
    assert_eq!(app.db.commands.len(), 3);
    assert_eq!(app.screen, AppScreen::AddCommand);
    let _ = handle_key_event(&mut app, key(KeyCode::Up));
    assert_eq!(app.form_focus, FormField::Group);
    let _ = handle_key_event(&mut app, key(KeyCode::Esc));
    assert_eq!(app.screen, AppScreen::Dashboard);
}

#[test]
fn editing_a_command_through_the_form() {
    let mut app = App::launch(run_tui_update_command("lint"), sample_db());
    assert_eq!(app.screen, AppScreen::UpdateCommandForm);
    assert_eq!(app.form_title, "lint");
    assert_eq!(app.form_script, "cargo clippy");
    app.form_title = "test".to_string();
    app.form_focus = FormField::Save;
    let _ = handle_key_event(&mut app, key(KeyCode::Enter));
    assert_eq!(app.form_error, Some("Command with title 'test' already exists".to_string()));
    app.form_title = "clippy".to_string();
    app.form_group = "style".to_string();
    assert!(matches!(handle_key_event(&mut app, key(KeyCode::Enter)), Effect::Save));
    assert_eq!(titles(&app.db.commands), vec!["build", "test", "clippy"]);
    assert_eq!(app.db.commands[2].group, Some("style".to_string()));
    assert_eq!(app.db.commands[2].use_count, 4);
}

// ----- group form ---------------------------------------------------------------

#[test]
fn building_a_group_through_the_form() {
    let mut app = App::new(AppScreen::Dashboard, sample_db());
    let _ = handle_key_event(&mut app, ch('g'));
    type_text(&mut app, "release");
    let _ = handle_key_event(&mut app, key(KeyCode::Tab));
    let _ = handle_key_event(&mut app, key(KeyCode::Tab));
    let _ = handle_key_event(&mut app, key(KeyCode::Tab));
    assert_eq!(app.group_focus, GroupFormField::AvailableCommands);
    let _ = handle_key_event(&mut app, key(KeyCode::Enter));
    let _ = handle_key_event(&mut app, key(KeyCode::Down));
    let _ = handle_key_event(&mut app, ch('a'));
    let _ = handle_key_event(&mut app, key(KeyCode::Down));
    let _ = handle_key_event(&mut app, ch('A'));
    assert_eq!(app.group_commands, vec!["build", "test", "lint"]);
    assert_eq!(app.group_commands_selected, 2);
    let _ = handle_key_event(&mut app, key(KeyCode::BackTab));
    assert_eq!(app.group_focus, GroupFormField::CommandsList);
    let _ = handle_key_event(&mut app, ch('k'));
    assert_eq!(app.group_commands, vec!["build", "lint", "test"]);
    assert_eq!(app.group_commands_selected, 1);
    let _ = handle_key_event(&mut app, shift(KeyCode::Up));
    assert_eq!(app.group_commands, vec!["lint", "build", "test"]);
    let _ = handle_key_event(&mut app, shift(KeyCode::Down));
    assert_eq!(app.group_commands, vec!["build", "lint", "test"]);
    assert_eq!(app.group_commands_selected, 1);
    let _ = handle_key_event(&mut app, ch('j'));
    assert_eq!(app.group_commands, vec!["build", "test", "lint"]);
    let _ = handle_key_event(&mut app, key(KeyCode::Delete));
    assert_eq!(app.group_commands, vec!["build", "test"]);
    assert_eq!(app.group_commands_selected, 1);
    app.group_focus = GroupFormField::Save;
    assert!(matches!(handle_key_event(&mut app, key(KeyCode::Enter)), Effect::Save));
    let g = app.db.groups.last().unwrap();
    assert_eq!(g.name, "release");
    assert_eq!(g.commands, vec!["build", "test"]);
    assert_eq!(app.screen, AppScreen::ListCommands);
}

#[test]
fn group_form_errors() {
    let mut app = App::launch(run_tui_update_group("docs"), sample_db());
    assert_eq!(app.screen, AppScreen::UpdateGroupForm);
    assert_eq!(app.group_name, "docs");
    assert_eq!(app.group_commands, vec!["lint"]);
    app.group_name = "ci".to_string();
    app.group_focus = GroupFormField::Save;
    let _ = handle_key_event(&mut app, key(KeyCode::Enter));
    assert_eq!(app.group_error, Some("Group with name 'ci' already exists".to_string()));
    app.group_name = "  ".to_string();
    let _ = handle_key_event(&mut app, key(KeyCode::Enter));
    assert_eq!(app.group_error, Some("Group name cannot be empty".to_string()));
    app.group_name = "manual".to_string();
    assert!(matches!(handle_key_event(&mut app, key(KeyCode::Enter)), Effect::Save));
    assert_eq!(app.db.groups[1].name, "manual");
}

// ----- lists ----------------------------------------------------------------------

#[test]
fn list_search_then_run() {
    let mut app = App::launch(run_tui_list(None), sample_db());
    type_text(&mut app, "clip");
    assert_eq!(app.list_search_query, "clip");
    assert_eq!(open_tab_len(&app), 1);
    match handle_key_event(&mut app, key(KeyCode::Enter)) {
        Effect::RunCommand(t) => assert_eq!(t, "lint"),
        _ => panic!("expected a command run"),
    }
    assert!(!app.list_is_searching);
    let _ = handle_key_event(&mut app, key(KeyCode::Esc));
    assert_eq!(app.list_search_query, "");
    assert_eq!(app.screen, AppScreen::ListCommands);
    let _ = handle_key_event(&mut app, key(KeyCode::Esc));
    assert_eq!(app.screen, AppScreen::Dashboard);
}

#[test]
fn search_keys_edit_the_query() {
    let mut app = App::launch(run_tui_list(Some("ab".to_string())), sample_db());
    assert_eq!(app.list_search_query, "ab");
    handle_search_key(&mut app, key(KeyCode::Backspace));
    assert_eq!(app.list_search_query, "a");
    handle_search_key(&mut app, key(KeyCode::Right));
    assert_eq!(app.list_tab, 1);
    handle_search_key(&mut app, key(KeyCode::Esc));
    assert!(!app.list_is_searching);
}

#[test]
fn list_tabs_favourites_and_deletion() {
    let mut app = App::launch(run_tui_list(None), sample_db());
    let _ = handle_key_event(&mut app, key(KeyCode::Esc));
    let _ = handle_key_event(&mut app, key(KeyCode::Right));
    assert_eq!(app.list_tab, 1);
    assert!(matches!(handle_key_event(&mut app, ch('f')), Effect::Save));
    assert!(!app.db.groups[0].favorite);
    let _ = handle_key_event(&mut app, key(KeyCode::Down));
    let _ = handle_key_event(&mut app, ch('d'));
    assert_eq!(app.delete_confirm_title, Some("docs".to_string()));
    assert!(app.delete_confirm_group);
    assert!(matches!(handle_key_event(&mut app, ch('x')), Effect::Nothing));
    assert!(app.delete_confirm_title.is_some());
    assert!(matches!(handle_key_event(&mut app, ch('Y')), Effect::Save));
    assert!(app.delete_confirm_title.is_none());
    assert_eq!(app.db.groups.len(), 1);
    assert_eq!(app.list_selected, 0);
    let _ = handle_key_event(&mut app, key(KeyCode::Right));
    assert_eq!(app.list_tab, 1);
    assert_eq!(open_tab_len(&app), 1);
    let _ = handle_key_event(&mut app, key(KeyCode::Left));
    assert_eq!(app.list_tab, 0);
    let _ = handle_key_event(&mut app, key(KeyCode::Left));
    assert_eq!(app.list_tab, 0);
}

#[test]
fn two_list_tabs_only() {
    let mut app = App::launch(run_tui_list(None), sample_db());
    handle_search_key(&mut app, key(KeyCode::Right));
    handle_search_key(&mut app, key(KeyCode::Right));
    assert_eq!(app.list_tab, 1);
    let _ = handle_key_event(&mut app, key(KeyCode::Esc));
    for _ in 0..3 {
        let _ = handle_key_event(&mut app, key(KeyCode::Right));
    }
    assert_eq!(app.list_tab, 1);
}

#[test]
fn cancelling_a_deletion() {
    let mut app = App::launch(run_tui_delete_list(None), sample_db());
    let _ = handle_key_event(&mut app, key(KeyCode::Esc));
    let _ = handle_key_event(&mut app, key(KeyCode::Enter));
    assert_eq!(app.delete_confirm_title, Some("build".to_string()));
    let _ = handle_key_event(&mut app, ch('n'));
    assert!(app.delete_confirm_title.is_none());
    assert_eq!(app.db.commands.len(), 3);
}

#[test]
fn grabbing_and_moving_entries() {
    let mut app = App::launch(run_tui_list(None), sample_db());
    let _ = handle_list_key(&mut app, key(KeyCode::Esc));
    let _ = handle_list_key(&mut app, key(KeyCode::Tab));
    assert_eq!(app.list_grabbed, Some(0));
    assert!(matches!(handle_list_key(&mut app, key(KeyCode::Down)), Effect::Save));
    assert_eq!(titles(&app.db.commands), vec!["test", "build", "lint"]);
    assert_eq!(app.list_selected, 1);
    assert_eq!(app.list_grabbed, Some(1));
    let _ = handle_list_key(&mut app, key(KeyCode::Tab));
    assert_eq!(app.list_grabbed, None);
}

#[test]
fn swapping_registry_entries() {
    let mut app = App::new(AppScreen::ListCommands, sample_db());
    assert!(matches!(swap_commands(&mut app, 0, 2), Effect::Save));
    assert_eq!(titles(&app.db.commands), vec!["lint", "test", "build"]);
    assert!(matches!(swap_commands(&mut app, 0, 7), Effect::Nothing));
    assert!(matches!(swap_groups(&mut app, 0, 1), Effect::Save));
    assert_eq!(app.db.groups[0].name, "docs");
    // favourites are "test" (a command) and "ci" (a group): not exchangeable
    assert!(matches!(swap_favorites(&mut app, 0, 1), Effect::Nothing));
}

#[test]
fn update_list_opens_the_editor() {
    let mut app = App::launch(run_tui_update_list(None), sample_db());
    assert_eq!(app.screen, AppScreen::UpdateCommandList);
    let _ = handle_key_event(&mut app, key(KeyCode::Esc));
    let _ = handle_key_event(&mut app, key(KeyCode::Down));
    let _ = handle_key_event(&mut app, ch('e'));
    assert_eq!(app.screen, AppScreen::UpdateCommandForm);
    assert_eq!(app.form_title, "test");
    assert_eq!(app.update_target_title, "test");
}

#[test]
fn clamping_the_list_selection() {
    let mut app = App::new(AppScreen::ListCommands, sample_db());
    app.list_selected = 9;
    app.clamp_list_selected();
    assert_eq!(app.list_selected, 2);
    app.list_tab = 1;
    app.list_selected = 9;
    app.clamp_list_selected();
    assert_eq!(app.list_selected, 1);
}

// ----- launches ---------------------------------------------------------------------

#[test]
fn launch_requests() {
    assert_eq!(run_tui_main_dashboard().screen, AppScreen::Dashboard);
    assert_eq!(run_tui_add().screen, AppScreen::AddCommand);
    assert_eq!(run_tui_export().screen, AppScreen::ExportMenu);
    assert_eq!(run_tui_import().screen, AppScreen::ImportForm);
    assert_eq!(run_tui_delete_list(Some("x".to_string())).query, Some("x".to_string()));
    let l = run_tui_update_command("t");
    assert_eq!(l.screen, AppScreen::UpdateCommandForm);
    assert_eq!(l.target, Some("t".to_string()));
    let app = App::launch(run_tui_update_command("missing"), sample_db());
    assert_eq!(app.form_title, "missing");
    assert_eq!(app.form_script, "");
}

// ----- export and import ----------------------------------------------------------

#[test]
fn export_screen() {
    let mut app = App::launch(run_tui_export(), sample_db());
    let _ = handle_export_key(&mut app, key(KeyCode::Down));
    match handle_export_key(&mut app, key(KeyCode::Enter)) {
        Effect::Export(k) => assert_eq!(k, ExportKind::Groups),
        _ => panic!("expected an export"),
    }
    let _ = handle_export_key(&mut app, key(KeyCode::Down));
    let _ = handle_export_key(&mut app, key(KeyCode::Down));
    assert_eq!(app.export_selected, 2);
    assert!(matches!(handle_export_key(&mut app, key(KeyCode::Enter)), Effect::Export(ExportKind::Everything)));
    assert_eq!(export_file_name(), "aliace_backup.json");
    app.finish_export(Ok(()));
    assert_eq!(app.export_message, Some("Exported successfully to aliace_backup.json".to_string()));
    app.finish_export(Err("disk full".to_string()));
    assert_eq!(app.export_message, Some("Error: disk full".to_string()));
    let _ = handle_export_key(&mut app, key(KeyCode::Esc));
    assert_eq!(app.screen, AppScreen::Dashboard);
}

#[test]
fn import_screen() {
    let mut app = App::launch(run_tui_import(), sample_db());
    for c in " b.jsonx".chars() {
        let _ = handle_import_key(&mut app, ch(c));
    }
    let _ = handle_import_key(&mut app, key(KeyCode::Backspace));
    match handle_import_key(&mut app, key(KeyCode::Enter)) {
        Effect::Import(p) => assert_eq!(p, "b.json"),
        _ => panic!("expected an import"),
    }
    assert!(matches!(app.finish_import(ImportOutcome::FileNotFound), Effect::Nothing));
    assert_eq!(app.import_message, Some("Error: File not found".to_string()));
    assert!(matches!(app.finish_import(ImportOutcome::Invalid), Effect::Nothing));
    assert_eq!(app.import_message, Some("Error: Invalid JSON format".to_string()));
    assert!(matches!(app.finish_import(ImportOutcome::ReadFailed("denied".to_string())), Effect::Nothing));
    assert_eq!(app.import_message, Some("Error: denied".to_string()));
    let outcome = ImportOutcome::Parsed(Backup::Commands(vec![cmd("only", "true", 0, false)]));
    assert!(matches!(app.finish_import(outcome), Effect::Save));
    assert_eq!(app.import_message, Some("Imported Commands list successfully!".to_string()));
    assert_eq!(titles(&app.db.commands), vec!["only"]);
    assert_eq!(app.db.groups.len(), 2);
}

#[test]
fn key_definedness() {
    let mut app = App::launch(run_tui_list(None), sample_db());
    assert!(key_is_defined(&app, ch('e')));
    app.list_is_searching = false;
    app.list_selected = 5;
    assert!(!key_is_defined(&app, ch('e')));
    assert!(!key_is_defined(&app, ch('f')));
    assert!(!key_is_defined(&app, key(KeyCode::Enter)));
    assert!(key_is_defined(&app, key(KeyCode::Up)));
    app.list_selected = 2;
    assert!(key_is_defined(&app, key(KeyCode::Enter)));
    app.delete_confirm_title = Some("x".to_string());
    app.list_selected = 5;
    assert!(key_is_defined(&app, ch('e')));
    let mut form = App::new(AppScreen::AddGroup, sample_db());
    form.group_focus = GroupFormField::CommandsList;
    form.group_commands_selected = 3;
    assert!(!key_is_defined(&form, shift(KeyCode::Up)));
    assert!(key_is_defined(&form, key(KeyCode::Up)));
    assert!(key_is_defined(&form, ch('j')));
    let dash = App::new(AppScreen::Dashboard, Database::empty());
    assert!(key_is_defined(&dash, key(KeyCode::Enter)));
}

#[test]
fn narrowing_a_search_keeps_a_subsequence() {
    let mut app = App::new(AppScreen::ListCommands, sample_db());
    app.list_search_query = "CARGO".to_string();
    let wide = titles(&app.get_filtered_commands());
    assert_eq!(wide, vec!["build", "test", "lint"]);
    app.list_search_query = "cargo t".to_string();
    let narrow = titles(&app.get_filtered_commands());
    assert_eq!(narrow, vec!["test"]);
    assert!(narrow.iter().all(|t| wide.contains(t)));
}

#[test]
fn group_form_selection_stays_inside() {
    let mut app = App::new(AppScreen::AddGroup, sample_db());
    app.group_focus = GroupFormField::AvailableCommands;
    for _ in 0..5 {
        let _ = handle_key_event(&mut app, key(KeyCode::Down));
    }
    assert_eq!(app.group_avail_selected, 2);
    let _ = handle_key_event(&mut app, key(KeyCode::Enter));
    assert_eq!(app.group_commands, vec!["lint"]);
    app.group_focus = GroupFormField::CommandsList;
    let _ = handle_key_event(&mut app, key(KeyCode::Backspace));
    assert!(app.group_commands.is_empty());
    assert_eq!(app.group_commands_selected, 0);
    let _ = handle_key_event(&mut app, key(KeyCode::Backspace));
    assert!(app.group_commands.is_empty());
    assert_eq!(app.db.commands.len(), 3);
}
