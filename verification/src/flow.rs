//! The navigation logic of the interactive menus: which screen follows which
//! choice, which prompt is presented over which options, and how a direct
//! command line is routed. The prompt widgets themselves are an external
//! collaborator; these functions only decide.

use vstd::prelude::*;

use crate::ops::{name_or_path_exists, OpenAction};
use crate::project::Project;

verus! {

/// The action a project selection is made for.
#[derive(Debug, Clone, Copy, PartialEq, Eq, Structural)]
pub enum Action {
    Open,
    Delete,
    Edit,
}

/// The named screens of the interactive flow.
#[derive(Debug, Clone, Copy, PartialEq, Eq, Structural)]
pub enum Screen {
    /// The main menu.
    Home,
    /// Pick one or several projects for the action.
    SelectProjects(Action),
    /// The store is empty: offer to add a project or to leave.
    EmptyStore,
    /// Prompt for the name and path of a project to add.
    AddForm,
    /// Prompt for the name and path of a brand-new project.
    NewForm,
    /// Print the farewell and end the process successfully.
    Quit,
}

/// A prompt to present: the semantic payload only, detached from any
/// rendering library.
pub enum Dialogue {
    /// Pick one option.
    Select { prompt: String, options: Vec<String>, default_index: usize },
    /// Pick any number of options.
    MultiSelect { prompt: String, options: Vec<String> },
}

/// The home screen greets with the welcome banner on the very first visit of
/// the process, and with the caller's prompt afterwards.
pub fn home_shows_welcome(visits: u64) -> (r: bool)
    ensures
        r == (visits == 1),
{
    visits == 1
}

/// The main menu, over the given prompt.
pub fn home_dialogue(prompt: String) -> (r: Dialogue)
    ensures
        r matches Dialogue::Select { prompt: p, options, default_index } && p == prompt
            && default_index == 0 && options@.len() == 6 && options@[0]@ == "Open project"@
            && options@[1]@ == "Add project"@ && options@[2]@ == "Edit project"@ && options@[3]@
            == "Delete projects"@ && options@[4]@ == "New project"@ && options@[5]@
            == "Quit (Esc)"@,
{
    let mut options: Vec<String> = Vec::new();
    options.push("Open project".to_owned());
    options.push("Add project".to_owned());
    options.push("Edit project".to_owned());
    options.push("Delete projects".to_owned());
    options.push("New project".to_owned());
    options.push("Quit (Esc)".to_owned());
    Dialogue::Select { prompt, options, default_index: 0 }
}

/// Where the main menu goes: each entry to its screen, a cancel or anything
/// past the menu to the farewell.
pub fn home_step(selection: Option<usize>) -> (r: Screen)
    ensures
        match selection {
            None => r == Screen::Quit,
            Some(choice) => r == (if choice == 0 {
                Screen::SelectProjects(Action::Open)
            } else if choice == 1 {
                Screen::AddForm
            } else if choice == 2 {
                Screen::SelectProjects(Action::Edit)
            } else if choice == 3 {
                Screen::SelectProjects(Action::Delete)
            } else if choice == 4 {
                Screen::NewForm
            } else {
                Screen::Quit
            }),
        },
{
    match selection {
        None => Screen::Quit,
        Some(choice) => {
            if choice == 0 {
                Screen::SelectProjects(Action::Open)
            } else if choice == 1 {
                Screen::AddForm
            } else if choice == 2 {
                Screen::SelectProjects(Action::Edit)
            } else if choice == 3 {
                Screen::SelectProjects(Action::Delete)
            } else if choice == 4 {
                Screen::NewForm
            } else {
                Screen::Quit
            }
        },
    }
}

/// Selection is only offered over a non-empty store; an empty one routes to
/// the no-projects screen.
pub fn select_projects_route(store_len: usize, action: Action) -> (r: Screen)
    ensures
        r == (if store_len == 0 {
            Screen::EmptyStore
        } else {
            Screen::SelectProjects(action)
        }),
{
    if store_len == 0 {
        Screen::EmptyStore
    } else {
        Screen::SelectProjects(action)
    }
}

/// The no-projects screen: the first entry leads to the add form, everything
/// else — the second entry as well as a cancel — leaves.
pub fn empty_store_step(selection: usize) -> (r: Screen)
    ensures
        r == (if selection == 0 {
            Screen::AddForm
        } else {
            Screen::Quit
        }),
{
    if selection == 0 {
        Screen::AddForm
    } else {
        Screen::Quit
    }
}

/// The names of the records, in order: the options a selection is made over.
pub fn project_names(projects: &Vec<Project>) -> (r: Vec<String>)
    ensures
        r@.len() == projects@.len(),
        forall|k: int| 0 <= k < projects@.len() ==> (#[trigger] r@[k])@ == projects@[k].name@,
{
    let mut out: Vec<String> = Vec::new();
    let mut i: usize = 0;
    while i < projects.len()
        invariant
            0 <= i <= projects@.len(),
            out@.len() == i,
            forall|k: int| 0 <= k < i ==> (#[trigger] out@[k])@ == projects@[k].name@,
        decreases projects@.len() - i,
    {
        out.push(projects[i].name.clone());
        i = i + 1;
    }
    out
}

/// The selection prompt: a multi-select for a delete, a single select
/// (defaulting to the first entry) for everything else; a missing prompt
/// falls back to the generic one.
pub fn select_dialogue(action: Action, prompt: Option<String>, options: Vec<String>) -> (r:
    Dialogue)
    ensures
        ({
            let want = match prompt {
                Some(p) => p@,
                None => "Select a project"@,
            };
            if action is Delete {
                r matches Dialogue::MultiSelect { prompt: p, options: o } && p@ == want && o
                    == options
            } else {
                r matches Dialogue::Select { prompt: p, options: o, default_index } && p@ == want
                    && o == options && default_index == 0
            }
        }),
{
    let p = match prompt {
        Some(p) => p,
        None => "Select a project".to_owned(),
    };
    match action {
        Action::Delete => Dialogue::MultiSelect { prompt: p, options },
        _ => Dialogue::Select { prompt: p, options, default_index: 0 },
    }
}

/// A cancelled prompt or an empty pick both abandon the selection; the flow
/// then returns to the main menu.
pub fn selection_cancelled(selections: &Option<Vec<usize>>) -> (r: bool)
    ensures
        r == match selections {
            None => true,
            Some(picks) => picks@.len() == 0,
        },
{
    match selections {
        None => true,
        Some(picks) => picks.len() == 0,
    }
}

/// The records picked by their positions, or nothing when a position is out
/// of the sequence.
pub fn resolve_selection(projects: &Vec<Project>, picks: &Vec<usize>) -> (r: Option<Vec<Project>>)
    ensures
        match r {
            Some(sel) => {
                &&& forall|k: int| 0 <= k < picks@.len() ==> (#[trigger] picks@[k]) < projects@.len()
                &&& sel@.len() == picks@.len()
                &&& forall|k: int|
                    0 <= k < picks@.len() ==> (#[trigger] sel@[k]) == projects@[picks@[k] as int]
            },
            None => exists|k: int|
                0 <= k < picks@.len() && (#[trigger] picks@[k]) >= projects@.len(),
        },
{
    let mut out: Vec<Project> = Vec::new();
    let mut k: usize = 0;
    while k < picks.len()
        invariant
            0 <= k <= picks@.len(),
            out@.len() == k,
            forall|w: int| 0 <= w < k ==> (#[trigger] picks@[w]) < projects@.len(),
            forall|w: int| 0 <= w < k ==> (#[trigger] out@[w]) == projects@[picks@[w] as int],
        decreases picks@.len() - k,
    {
        let idx = picks[k];
        if idx >= projects.len() {
            return None;
        }
        out.push(projects[idx].clone());
        k = k + 1;
    }
    Some(out)
}

/// The menu asking where to open the picked projects.
pub fn open_target_dialogue() -> (r: Dialogue)
    ensures
        r matches Dialogue::Select { prompt, options, default_index } && prompt@
            == "Open project in"@ && default_index == 0 && options@.len() == 4 && options@[0]@
            == "Terminal"@ && options@[1]@ == "Editor"@ && options@[2]@ == "Back"@ && options@[3]@
            == "Quit"@,
{
    let mut options: Vec<String> = Vec::new();
    options.push("Terminal".to_owned());
    options.push("Editor".to_owned());
    options.push("Back".to_owned());
    options.push("Quit".to_owned());
    Dialogue::Select { prompt: "Open project in".to_owned(), options, default_index: 0 }
}

/// The no-projects menu.
pub fn empty_store_dialogue() -> (r: Dialogue)
    ensures
        r matches Dialogue::Select { prompt, options, default_index } && prompt@
            == "No projects found"@ && default_index == 0 && options@.len() == 2 && options@[0]@
            == "Add project"@ && options@[1]@ == "Quit"@,
{
    let mut options: Vec<String> = Vec::new();
    options.push("Add project".to_owned());
    options.push("Quit".to_owned());
    Dialogue::Select { prompt: "No projects found".to_owned(), options, default_index: 0 }
}

/// The overwrite menu, asking about the colliding name.
pub fn overwrite_dialogue(name: &str) -> (r: Dialogue)
    ensures
        r matches Dialogue::Select { prompt, options, default_index } && prompt@ == "Project "@
            + name@ + " already exists. Overwrite?"@ && default_index == 0 && options@.len() == 4
            && options@[0]@ == "Yes"@ && options@[1]@ == "No"@ && options@[2]@ == "Back"@
            && options@[3]@ == "Quit"@,
{
    let mut prompt = "Project ".to_owned();
    prompt.append(name);
    prompt.append(" already exists. Overwrite?");
    let mut options: Vec<String> = Vec::new();
    options.push("Yes".to_owned());
    options.push("No".to_owned());
    options.push("Back".to_owned());
    options.push("Quit".to_owned());
    Dialogue::Select { prompt, options, default_index: 0 }
}

/// Where the open-target menu goes.
#[derive(Debug, Clone, Copy, PartialEq, Eq, Structural)]
pub enum OpenTargetRoute {
    /// Open the first selected project in the terminal.
    OpenTerminal,
    /// Open every selected project in the editor, one after another.
    OpenEditorAll,
    /// Re-enter the project selection for opening.
    Reselect,
    /// Leave the program.
    QuitApp,
    /// Nothing: an entry past the menu is ignored.
    Stay,
}

/// The open-target menu: Terminal, Editor, Back, Quit; a cancel re-enters
/// the selection.
pub fn open_target_step(selection: Option<usize>) -> (r: OpenTargetRoute)
    ensures
        match selection {
            None => r == OpenTargetRoute::Reselect,
            Some(choice) => r == (if choice == 0 {
                OpenTargetRoute::OpenTerminal
            } else if choice == 1 {
                OpenTargetRoute::OpenEditorAll
            } else if choice == 2 {
                OpenTargetRoute::Reselect
            } else if choice == 3 {
                OpenTargetRoute::QuitApp
            } else {
                OpenTargetRoute::Stay
            }),
        },
{
    match selection {
        None => OpenTargetRoute::Reselect,
        Some(choice) => {
            if choice == 0 {
                OpenTargetRoute::OpenTerminal
            } else if choice == 1 {
                OpenTargetRoute::OpenEditorAll
            } else if choice == 2 {
                OpenTargetRoute::Reselect
            } else if choice == 3 {
                OpenTargetRoute::QuitApp
            } else {
                OpenTargetRoute::Stay
            }
        },
    }
}

/// Where the overwrite prompt goes.
#[derive(Debug, Clone, Copy, PartialEq, Eq, Structural)]
pub enum OverwriteRoute {
    /// Ask the further yes/no confirmation; a confirmed yes performs the
    /// overwrite, and the flow returns home either way.
    AskConfirm,
    /// Back to the add form.
    BackToAddForm,
    /// Back to the main menu, with nothing changed.
    BackHome,
    /// Leave the program.
    QuitApp,
}

/// The overwrite menu: Yes, No, Back, Quit; a failed prompt counts as No.
pub fn overwrite_step(selection: usize) -> (r: OverwriteRoute)
    ensures
        r == (if selection == 0 {
            OverwriteRoute::AskConfirm
        } else if selection == 1 {
            OverwriteRoute::BackToAddForm
        } else if selection == 2 {
            OverwriteRoute::BackHome
        } else {
            OverwriteRoute::QuitApp
        }),
{
    if selection == 0 {
        OverwriteRoute::AskConfirm
    } else if selection == 1 {
        OverwriteRoute::BackToAddForm
    } else if selection == 2 {
        OverwriteRoute::BackHome
    } else {
        OverwriteRoute::QuitApp
    }
}

/// The add form accepts its input only when both fields were filled;
/// otherwise it explains and prompts again.
pub fn add_form_valid(name: &str, path: &str) -> (r: bool)
    ensures
        r == (name@.len() > 0 && path@.len() > 0),
{
    !name.is_empty() && !path.is_empty()
}

/// The new-project form accepts a (trimmed) name only when it was filled and
/// collides with no stored name or path; otherwise it explains and prompts
/// again.
pub fn new_form_name_ok(projects: &Vec<Project>, name: &str) -> (r: bool)
    ensures
        r == (name@.len() > 0 && !name_or_path_exists(projects@, name@)),
{
    !name.is_empty() && !crate::ops::project_already_exists(projects, name)
}

/// The new-project form accepts a (trimmed) path under the same conditions.
pub fn new_form_path_ok(projects: &Vec<Project>, path: &str) -> (r: bool)
    ensures
        r == (path@.len() > 0 && !name_or_path_exists(projects@, path@)),
{
    !path.is_empty() && !crate::ops::project_already_exists(projects, path)
}

/// A parsed command line, as the argument parser hands it over: each
/// subcommand with its (possibly empty) operands.
pub enum CliCommand {
    Add { name: String, path: String },
    List,
    Delete { name: String },
    Edit { name: String },
    Open { name: String, editor: bool, replace: bool },
    New { name: String },
    /// No subcommand at all.
    Interactive,
}

/// What the command dispatcher decided to run.
pub enum CommandRoute {
    /// Prompt interactively for a project to add.
    ShowAddForm,
    /// Add right away with the given name and path.
    DirectAdd { name: String, path: String },
    /// Present the project listing.
    ShowList,
    /// The store is empty: the no-projects screen.
    ShowEmptyStore,
    /// Prompt for a selection, then perform the action on it.
    ShowSelect { action: Action },
    /// Delete right away by name.
    DirectDelete { name: String },
    /// Edit right away by name.
    DirectEdit { name: String },
    /// Touch and open right away by name.
    DirectOpen { name: String, open_action: OpenAction, replace: bool },
    /// Prompt interactively for a brand-new project.
    ShowNewForm,
    /// Create a brand-new project right away by name.
    DirectNew { name: String },
    /// The interactive main menu.
    ShowHome,
}

/// Routes a parsed command: a subcommand with its operand runs directly, one
/// without falls back to the corresponding interactive screen, and a bare
/// invocation opens the main menu. Listing distinguishes the empty store.
pub fn dispatch(cmd: CliCommand, store_is_empty: bool) -> (r: CommandRoute)
    ensures
        match cmd {
            CliCommand::Add { name, path } => {
                if name@.len() == 0 && path@.len() == 0 {
                    r is ShowAddForm
                } else {
                    r matches CommandRoute::DirectAdd { name: n, path: p } && n@ == name@ && p@
                        == path@
                }
            },
            CliCommand::List => {
                if store_is_empty {
                    r is ShowEmptyStore
                } else {
                    r is ShowList
                }
            },
            CliCommand::Delete { name } => {
                if name@.len() == 0 {
                    r matches CommandRoute::ShowSelect { action } && action is Delete
                } else {
                    r matches CommandRoute::DirectDelete { name: n } && n@ == name@
                }
            },
            CliCommand::Edit { name } => {
                if name@.len() == 0 {
                    r matches CommandRoute::ShowSelect { action } && action is Edit
                } else {
                    r matches CommandRoute::DirectEdit { name: n } && n@ == name@
                }
            },
            CliCommand::Open { name, editor, replace } => {
                if name@.len() == 0 {
                    r matches CommandRoute::ShowSelect { action } && action is Open
                } else {
                    r matches CommandRoute::DirectOpen { name: n, open_action, replace: rep }
                        && n@ == name@ && rep == replace && open_action == (if editor {
                        OpenAction::OpenInEditor
                    } else {
                        OpenAction::OpenInTerminal
                    })
                }
            },
            CliCommand::New { name } => {
                if name@.len() == 0 {
                    r is ShowNewForm
                } else {
                    r matches CommandRoute::DirectNew { name: n } && n@ == name@
                }
            },
            CliCommand::Interactive => r is ShowHome,
        },
{
    match cmd {
        CliCommand::Add { name, path } => {
            if name.as_str().is_empty() && path.as_str().is_empty() {
                CommandRoute::ShowAddForm
            } else {
                CommandRoute::DirectAdd { name, path }
            }
        },
        CliCommand::List => {
            if store_is_empty {
                CommandRoute::ShowEmptyStore
            } else {
                CommandRoute::ShowList
            }
        },
        CliCommand::Delete { name } => {
            if name.as_str().is_empty() {
                CommandRoute::ShowSelect { action: Action::Delete }
            } else {
                CommandRoute::DirectDelete { name }
            }
        },
        CliCommand::Edit { name } => {
            if name.as_str().is_empty() {
                CommandRoute::ShowSelect { action: Action::Edit }
            } else {
                CommandRoute::DirectEdit { name }
            }
        },
        CliCommand::Open { name, editor, replace } => {
            if name.as_str().is_empty() {
                CommandRoute::ShowSelect { action: Action::Open }
            } else {
                let open_action = if editor {
                    OpenAction::OpenInEditor
                } else {
                    OpenAction::OpenInTerminal
                };
                CommandRoute::DirectOpen { name, open_action, replace }
            }
        },
        CliCommand::New { name } => {
            if name.as_str().is_empty() {
                CommandRoute::ShowNewForm
            } else {
                CommandRoute::DirectNew { name }
            }
        },
        CliCommand::Interactive => CommandRoute::ShowHome,
    }
}

} // verus!
