use tpm::flow::{
    add_form_valid, dispatch, empty_store_dialogue, empty_store_step, home_dialogue,
    home_shows_welcome, home_step, new_form_name_ok, new_form_path_ok, open_target_dialogue,
    open_target_step, overwrite_dialogue, overwrite_step, project_names, resolve_selection,
    select_dialogue, select_projects_route, selection_cancelled, Action, CliCommand, CommandRoute,
    Dialogue, OpenTargetRoute, OverwriteRoute, Screen,
};
use tpm::ops::OpenAction;
use tpm::project::{Project, Timestamp};
use tpm::store::ProjectStore;
use tpm::text::{get_path_to_shell_profile, join_path, normalize_project_name, str_eq, trim_str,
    valid_shell_name};

fn p(name: &str, path: &str, secs: u64) -> Project {
    Project::new(name.to_string(), path.to_string(), Timestamp::new(secs, 0))
}

#[test]
fn home_menu_maps_each_entry_to_its_screen() {
    assert_eq!(home_step(Some(0)), Screen::SelectProjects(Action::Open));
    assert_eq!(home_step(Some(1)), Screen::AddForm);
    assert_eq!(home_step(Some(2)), Screen::SelectProjects(Action::Edit));
    assert_eq!(home_step(Some(3)), Screen::SelectProjects(Action::Delete));
    assert_eq!(home_step(Some(4)), Screen::NewForm);
    assert_eq!(home_step(Some(5)), Screen::Quit);
    assert_eq!(home_step(Some(99)), Screen::Quit);
    assert_eq!(home_step(None), Screen::Quit);
}

#[test]
fn home_dialogue_lists_the_six_entries() {
    match home_dialogue("What would you like to do?".to_string()) {
        Dialogue::Select { prompt, options, default_index } => {
            assert_eq!(prompt, "What would you like to do?");
            assert_eq!(default_index, 0);
            assert_eq!(
                options,
                vec![
                    "Open project",
                    "Add project",
                    "Edit project",
                    "Delete projects",
                    "New project",
                    "Quit (Esc)"
                ]
            );
        }
        Dialogue::MultiSelect { .. } => panic!("the main menu is a single select"),
    }
}

#[test]
fn welcome_banner_only_on_the_first_visit() {
    assert!(!home_shows_welcome(0));
    assert!(home_shows_welcome(1));
    assert!(!home_shows_welcome(2));
}

#[test]
fn empty_store_routes_to_the_no_projects_screen() {
    assert_eq!(select_projects_route(0, Action::Open), Screen::EmptyStore);
    assert_eq!(select_projects_route(3, Action::Delete), Screen::SelectProjects(Action::Delete));
}

#[test]
fn no_projects_screen_offers_add_or_quit() {
    assert_eq!(empty_store_step(0), Screen::AddForm);
    assert_eq!(empty_store_step(1), Screen::Quit);
    assert_eq!(empty_store_step(7), Screen::Quit);
}

#[test]
fn empty_store_list_scenario_quits_without_writing() {
    // An empty store, a `list` invocation: the user lands on the
    // no-projects screen with {Add project, Quit}; choosing Quit leaves and
    // nothing is ever saved.
    let store = ProjectStore::new();
    let route = dispatch(CliCommand::List, store.is_empty());
    assert!(matches!(route, CommandRoute::ShowEmptyStore));
    let next = empty_store_step(1);
    assert_eq!(next, Screen::Quit);
    assert!(store.get_all().is_empty());
}

#[test]
fn selection_prompt_is_multi_only_for_delete() {
    let names = vec!["a".to_string(), "b".to_string()];
    match select_dialogue(Action::Delete, Some("Pick".to_string()), names.clone()) {
        Dialogue::MultiSelect { prompt, options } => {
            assert_eq!(prompt, "Pick");
            assert_eq!(options, names);
        }
        Dialogue::Select { .. } => panic!("delete selects several"),
    }
    match select_dialogue(Action::Open, None, names.clone()) {
        Dialogue::Select { prompt, options, default_index } => {
            assert_eq!(prompt, "Select a project");
            assert_eq!(options, names);
            assert_eq!(default_index, 0);
        }
        Dialogue::MultiSelect { .. } => panic!("open selects one"),
    }
}

#[test]
fn cancel_and_empty_picks_abandon_the_selection() {
    assert!(selection_cancelled(&None));
    assert!(selection_cancelled(&Some(Vec::new())));
    assert!(!selection_cancelled(&Some(vec![0])));
}

#[test]
fn resolve_selection_maps_positions_to_records() {
    let projects = vec![p("a", "/a", 1), p("b", "/b", 2), p("c", "/c", 3)];
    let sel = resolve_selection(&projects, &vec![2, 0]).unwrap();
    assert_eq!(sel, vec![p("c", "/c", 3), p("a", "/a", 1)]);
    assert!(resolve_selection(&projects, &vec![0, 3]).is_none());
}

#[test]
fn project_names_in_order() {
    let projects = vec![p("x", "/x", 1), p("y", "/y", 2)];
    assert_eq!(project_names(&projects), vec!["x", "y"]);
}

#[test]
fn open_target_menu_mapping() {
    assert_eq!(open_target_step(Some(0)), OpenTargetRoute::OpenTerminal);
    assert_eq!(open_target_step(Some(1)), OpenTargetRoute::OpenEditorAll);
    assert_eq!(open_target_step(Some(2)), OpenTargetRoute::Reselect);
    assert_eq!(open_target_step(Some(3)), OpenTargetRoute::QuitApp);
    assert_eq!(open_target_step(Some(4)), OpenTargetRoute::Stay);
    assert_eq!(open_target_step(None), OpenTargetRoute::Reselect);
}

#[test]
fn overwrite_menu_mapping() {
    assert_eq!(overwrite_step(0), OverwriteRoute::AskConfirm);
    assert_eq!(overwrite_step(1), OverwriteRoute::BackToAddForm);
    assert_eq!(overwrite_step(2), OverwriteRoute::BackHome);
    assert_eq!(overwrite_step(3), OverwriteRoute::QuitApp);
    assert_eq!(overwrite_step(9), OverwriteRoute::QuitApp);
}

#[test]
fn add_form_requires_both_fields() {
    assert!(add_form_valid("a", "/a"));
    assert!(!add_form_valid("", "/a"));
    assert!(!add_form_valid("a", ""));
    assert!(!add_form_valid("", ""));
}

#[test]
fn new_form_rejects_empty_and_taken_values() {
    let projects = vec![p("taken", "/t", 1)];
    assert!(new_form_name_ok(&projects, "fresh"));
    assert!(!new_form_name_ok(&projects, ""));
    assert!(!new_form_name_ok(&projects, "taken"));
    assert!(new_form_path_ok(&projects, "/fresh"));
    assert!(!new_form_path_ok(&projects, ""));
    assert!(!new_form_path_ok(&projects, "/t"));
}

#[test]
fn dispatch_add_falls_back_to_the_form_only_when_both_are_empty() {
    let r = dispatch(CliCommand::Add { name: String::new(), path: String::new() }, false);
    assert!(matches!(r, CommandRoute::ShowAddForm));
    let r = dispatch(CliCommand::Add { name: "n".to_string(), path: String::new() }, false);
    match r {
        CommandRoute::DirectAdd { name, path } => {
            assert_eq!(name, "n");
            assert_eq!(path, "");
        }
        _ => panic!("a named add runs directly"),
    }
}

#[test]
fn dispatch_list_distinguishes_the_empty_store() {
    assert!(matches!(dispatch(CliCommand::List, true), CommandRoute::ShowEmptyStore));
    assert!(matches!(dispatch(CliCommand::List, false), CommandRoute::ShowList));
}

#[test]
fn dispatch_delete_edit_open_fall_back_to_selection() {
    match dispatch(CliCommand::Delete { name: String::new() }, false) {
        CommandRoute::ShowSelect { action } => assert_eq!(action, Action::Delete),
        _ => panic!("unnamed delete selects interactively"),
    }
    match dispatch(CliCommand::Edit { name: String::new() }, false) {
        CommandRoute::ShowSelect { action } => assert_eq!(action, Action::Edit),
        _ => panic!("unnamed edit selects interactively"),
    }
    match dispatch(
        CliCommand::Open { name: String::new(), editor: false, replace: false },
        false,
    ) {
        CommandRoute::ShowSelect { action } => assert_eq!(action, Action::Open),
        _ => panic!("unnamed open selects interactively"),
    }
}

#[test]
fn dispatch_open_picks_terminal_or_editor() {
    match dispatch(
        CliCommand::Open { name: "a".to_string(), editor: true, replace: true },
        false,
    ) {
        CommandRoute::DirectOpen { name, open_action, replace } => {
            assert_eq!(name, "a");
            assert_eq!(open_action, OpenAction::OpenInEditor);
            assert!(replace);
        }
        _ => panic!("a named open runs directly"),
    }
    match dispatch(
        CliCommand::Open { name: "a".to_string(), editor: false, replace: false },
        false,
    ) {
        CommandRoute::DirectOpen { open_action, .. } => {
            assert_eq!(open_action, OpenAction::OpenInTerminal);
        }
        _ => panic!("a named open runs directly"),
    }
}

#[test]
fn dispatch_direct_delete_edit_new_and_home() {
    match dispatch(CliCommand::Delete { name: "a".to_string() }, false) {
        CommandRoute::DirectDelete { name } => assert_eq!(name, "a"),
        _ => panic!("a named delete runs directly"),
    }
    match dispatch(CliCommand::Edit { name: "a".to_string() }, false) {
        CommandRoute::DirectEdit { name } => assert_eq!(name, "a"),
        _ => panic!("a named edit runs directly"),
    }
    match dispatch(CliCommand::New { name: "a".to_string() }, false) {
        CommandRoute::DirectNew { name } => assert_eq!(name, "a"),
        _ => panic!("a named new runs directly"),
    }
    assert!(matches!(dispatch(CliCommand::New { name: String::new() }, false), CommandRoute::ShowNewForm));
    assert!(matches!(dispatch(CliCommand::Interactive, false), CommandRoute::ShowHome));
}

#[test]
fn normalization_keeps_only_alphanumerics() {
    assert_eq!(normalize_project_name("My Cool Project!"), "MyCoolProject");
    assert_eq!(normalize_project_name("a b!"), "ab");
    assert_eq!(normalize_project_name("rust-v2_final"), "rustv2final");
    assert_eq!(normalize_project_name(""), "");
}

#[test]
fn trim_strips_both_ends() {
    assert_eq!(trim_str("  hi there\t"), "hi there");
    assert_eq!(trim_str("clean"), "clean");
    assert_eq!(trim_str(" \t \n"), "");
    assert_eq!(trim_str(""), "");
}

#[test]
fn shell_name_comes_from_the_last_path_segment() {
    assert_eq!(valid_shell_name("/bin/bash"), Some("bash".to_string()));
    assert_eq!(valid_shell_name("/usr/local/bin/zsh"), Some("zsh".to_string()));
    assert_eq!(valid_shell_name("zsh"), Some("zsh".to_string()));
    assert_eq!(valid_shell_name("/usr/bin/fish"), None);
    assert_eq!(valid_shell_name(""), None);
}

#[test]
fn shell_profile_paths() {
    assert_eq!(
        get_path_to_shell_profile("bash", "/home/me"),
        Some("/home/me/.bash_profile".to_string())
    );
    assert_eq!(get_path_to_shell_profile("zsh", "/home/me"), Some("/home/me/.zshrc".to_string()));
    assert_eq!(get_path_to_shell_profile("fish", "/home/me"), None);
}

#[test]
fn join_path_inserts_one_slash() {
    assert_eq!(join_path("/home/me", "projects"), "/home/me/projects");
}

#[test]
fn str_eq_compares_contents() {
    assert!(str_eq("abc", "abc"));
    assert!(!str_eq("abc", "abd"));
    assert!(!str_eq("abc", "ab"));
}

#[test]
fn open_target_menu_lists_its_four_entries() {
    match open_target_dialogue() {
        Dialogue::Select { prompt, options, default_index } => {
            assert_eq!(prompt, "Open project in");
            assert_eq!(options, vec!["Terminal", "Editor", "Back", "Quit"]);
            assert_eq!(default_index, 0);
        }
        Dialogue::MultiSelect { .. } => panic!("the open-target menu is a single select"),
    }
}

#[test]
fn empty_store_menu_offers_add_and_quit() {
    match empty_store_dialogue() {
        Dialogue::Select { prompt, options, default_index } => {
            assert_eq!(prompt, "No projects found");
            assert_eq!(options, vec!["Add project", "Quit"]);
            assert_eq!(default_index, 0);
        }
        Dialogue::MultiSelect { .. } => panic!("the no-projects menu is a single select"),
    }
}

#[test]
fn overwrite_menu_names_the_collision() {
    match overwrite_dialogue("foo") {
        Dialogue::Select { prompt, options, default_index } => {
            assert_eq!(prompt, "Project foo already exists. Overwrite?");
            assert_eq!(options, vec!["Yes", "No", "Back", "Quit"]);
            assert_eq!(default_index, 0);
        }
        Dialogue::MultiSelect { .. } => panic!("the overwrite menu is a single select"),
    }
}

#[test]
fn store_load_normalizes_on_construction() {
    let records = vec![p("a", "/a", 10), p("b", "/b", 30), p("a", "/a", 10)];
    let store = ProjectStore::load(records);
    assert!(!store.is_empty());
    assert_eq!(store.len(), 2);
    let all = store.get_all();
    assert_eq!(all[0], p("b", "/b", 30));
    assert_eq!(all[1], p("a", "/a", 10));
    assert_eq!(store.get_visits(), 0);
}
