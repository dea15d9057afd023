//! Operations on the project registry: existence checks, add with its
//! overwrite resolution, edit, single and bulk delete, and touch-and-open.
//! Every operation takes the store explicitly and says how the cached
//! sequence after the call relates to the one before.

use vstd::prelude::*;

use crate::project::{Project, Timestamp};
use crate::store::ProjectStore;
use crate::text::str_eq;

verus! {

/// The key matches the record's name or its path.
pub open spec fn matches_name_or_path(p: Project, key: Seq<char>) -> bool {
    p.name@ == key || p.path@ == key
}

/// Some record of `s` has `key` as its name or its path.
pub open spec fn name_or_path_exists(s: Seq<Project>, key: Seq<char>) -> bool {
    exists|i: int| 0 <= i < s.len() && matches_name_or_path(#[trigger] s[i], key)
}

/// Some record of `s` is named `name`.
pub open spec fn exists_named(s: Seq<Project>, name: Seq<char>) -> bool {
    exists|i: int| 0 <= i < s.len() && (#[trigger] s[i]).name@ == name
}

/// `s[i]` is the first record named `name`.
pub open spec fn is_first_named(s: Seq<Project>, i: int, name: Seq<char>) -> bool {
    0 <= i < s.len() && s[i].name@ == name && (forall|k: int|
        0 <= k < i ==> (#[trigger] s[k]).name@ != name)
}

/// `s` with every record named `name` removed, order otherwise kept.
pub open spec fn keep_not_named(s: Seq<Project>, name: Seq<char>) -> Seq<Project>
    decreases s.len(),
{
    if s.len() == 0 {
        Seq::empty()
    } else {
        let rest = keep_not_named(s.drop_last(), name);
        if s.last().name@ == name {
            rest
        } else {
            rest.push(s.last())
        }
    }
}

/// `name` occurs in the list of names.
pub open spec fn name_listed(names: Seq<String>, name: Seq<char>) -> bool {
    exists|k: int| 0 <= k < names.len() && (#[trigger] names[k])@ == name
}

/// `s` with every record whose name is listed removed, order otherwise kept.
pub open spec fn keep_unlisted(s: Seq<Project>, names: Seq<String>) -> Seq<Project>
    decreases s.len(),
{
    if s.len() == 0 {
        Seq::empty()
    } else {
        let rest = keep_unlisted(s.drop_last(), names);
        if name_listed(names, s.last().name@) {
            rest
        } else {
            rest.push(s.last())
        }
    }
}

/// The failures an operation can report.
#[derive(Clone, Copy, Debug, PartialEq, Eq, Structural)]
pub enum OpsError {
    /// No record with the requested name is in the store.
    ProjectNotFound,
}

impl OpsError {
    /// The failure as the message shown to the user.
    pub fn message(&self) -> (r: String)
        ensures
            self is ProjectNotFound ==> r@ == "Project not found"@,
    {
        match self {
            OpsError::ProjectNotFound => {
                let m = "Project not found";
                m.to_owned()
            },
        }
    }
}

/// Which way a project is opened.
#[derive(Debug, Clone, Copy, PartialEq, Eq, Structural)]
pub enum OpenAction {
    /// Open the project in the terminal (enter the project folder and start a
    /// shell there).
    OpenInTerminal,
    /// Open the project in the configured editor.
    OpenInEditor,
}

/// What the caller is to perform after a successful touch-and-open: the part
/// of opening that only the surrounding program can do.
pub enum OpenEffect {
    /// Enter the directory and start an interactive shell there.
    ChangeDirectory { path: String },
    /// Start the configured editor on the directory.
    LaunchEditor { path: String, replace: bool },
}

/// True if any stored record has this key as its name or as its path. Both
/// fields guard an insertion, so a new project may collide with an old one by
/// either.
pub fn project_already_exists(projects: &Vec<Project>, name_or_path: &str) -> (r: bool)
    ensures
        r == name_or_path_exists(projects@, name_or_path@),
{
    let mut i: usize = 0;
    while i < projects.len()
        invariant
            0 <= i <= projects@.len(),
            forall|k: int| 0 <= k < i ==> !matches_name_or_path(#[trigger] projects@[k], name_or_path@),
        decreases projects@.len() - i,
    {
        if str_eq(projects[i].name.as_str(), name_or_path)
            || str_eq(projects[i].path.as_str(), name_or_path) {
            proof {
                assert(matches_name_or_path(projects@[i as int], name_or_path@));
            }
            return true;
        }
        i = i + 1;
    }
    false
}

/// The position of the first record named `name`, if any record is.
pub fn find_named_index(projects: &Vec<Project>, name: &str) -> (r: Option<usize>)
    ensures
        match r {
            Some(i) => is_first_named(projects@, i as int, name@),
            None => !exists_named(projects@, name@),
        },
{
    let mut i: usize = 0;
    while i < projects.len()
        invariant
            0 <= i <= projects@.len(),
            forall|k: int| 0 <= k < i ==> (#[trigger] projects@[k]).name@ != name@,
        decreases projects@.len() - i,
    {
        if str_eq(projects[i].name.as_str(), name) {
            return Some(i);
        }
        i = i + 1;
    }
    None
}

/// What `add` decided: the record went in, or its name collided and the
/// candidate is handed to the overwrite-resolution flow instead.
pub enum AddOutcome {
    Added,
    NeedsOverwrite(Project),
}

/// Adds a project. An empty name or path falls back to the given defaults
/// (the current directory's base name and the current directory, resolved by
/// the caller). The candidate's `last_opened` is `now`. On a collision with
/// an existing record's name or path nothing is inserted: the candidate is
/// returned for overwrite resolution.
pub fn add_project(
    store: &mut ProjectStore,
    name: &str,
    path: &str,
    default_name: &str,
    default_path: &str,
    now: Timestamp,
) -> (r: AddOutcome)
    ensures
        final(store).spec_visits() == old(store).spec_visits(),
        ({
            let rname = if name@.len() == 0 { default_name@ } else { name@ };
            let rpath = if path@.len() == 0 { default_path@ } else { path@ };
            if name_or_path_exists(old(store).records(), rname) {
                &&& final(store).records() == old(store).records()
                &&& r matches AddOutcome::NeedsOverwrite(c) && c.name@ == rname && c.path@
                    == rpath && c.last_opened == now
            } else {
                &&& r is Added
                &&& final(store).records().len() == old(store).records().len() + 1
                &&& final(store).records().subrange(0, old(store).records().len() as int)
                    == old(store).records()
                &&& final(store).records().last().name@ == rname
                &&& final(store).records().last().path@ == rpath
                &&& final(store).records().last().last_opened == now
            }
        }),
{
    let rname = if name.is_empty() { default_name.to_owned() } else { name.to_owned() };
    let rpath = if path.is_empty() { default_path.to_owned() } else { path.to_owned() };
    let candidate = Project::new(rname, rpath, now);
    if project_already_exists(store.borrow_records(), candidate.name.as_str()) {
        AddOutcome::NeedsOverwrite(candidate)
    } else {
        let mut records = store.get_all();
        records.push(candidate);
        store.save(records);
        proof {
            assert(final(store).records().subrange(0, old(store).records().len() as int)
                =~= old(store).records());
        }
        AddOutcome::Added
    }
}

/// `records` without the records named `name`, order kept.
fn retain_not_named(records: &Vec<Project>, name: &str) -> (r: Vec<Project>)
    ensures
        r@ == keep_not_named(records@, name@),
{
    let mut out: Vec<Project> = Vec::new();
    let mut i: usize = 0;
    while i < records.len()
        invariant
            0 <= i <= records@.len(),
            out@ == keep_not_named(records@.subrange(0, i as int), name@),
        decreases records@.len() - i,
    {
        proof {
            assert(records@.subrange(0, (i + 1) as int).drop_last()
                =~= records@.subrange(0, i as int));
            assert(records@.subrange(0, (i + 1) as int).last() == records@[i as int]);
        }
        let p = records[i].clone();
        if !str_eq(p.name.as_str(), name) {
            out.push(p);
        }
        i = i + 1;
    }
    proof {
        assert(records@.subrange(0, records@.len() as int) =~= records@);
    }
    out
}

/// A confirmed overwrite: every record that shares the candidate's name — the
/// colliding record as well as any structural duplicate of the candidate —
/// leaves the store, and the candidate is inserted, so that afterwards
/// exactly one record carries that name.
pub fn overwrite_project(store: &mut ProjectStore, candidate: Project)
    ensures
        final(store).spec_visits() == old(store).spec_visits(),
        final(store).records() == keep_not_named(old(store).records(), candidate.name@).push(
            candidate,
        ),
{
    let mut records = retain_not_named(store.borrow_records(), candidate.name.as_str());
    records.push(candidate);
    store.save(records);
}

/// Removes the record(s) matching the name and persists the rest.
pub fn delete_project(store: &mut ProjectStore, name: &str)
    ensures
        final(store).spec_visits() == old(store).spec_visits(),
        final(store).records() == keep_not_named(old(store).records(), name@),
{
    let records = retain_not_named(store.borrow_records(), name);
    store.save(records);
}

/// `name` occurs in the list.
fn name_listed_exec(names: &Vec<String>, name: &str) -> (r: bool)
    ensures
        r == name_listed(names@, name@),
{
    let mut i: usize = 0;
    while i < names.len()
        invariant
            0 <= i <= names@.len(),
            forall|k: int| 0 <= k < i ==> (#[trigger] names@[k])@ != name@,
        decreases names@.len() - i,
    {
        if str_eq(names[i].as_str(), name) {
            return true;
        }
        i = i + 1;
    }
    false
}

/// The bulk form of delete: every record whose name is listed is removed,
/// whatever became of its directory on disk.
pub fn delete_projects(store: &mut ProjectStore, names: &Vec<String>)
    ensures
        final(store).spec_visits() == old(store).spec_visits(),
        final(store).records() == keep_unlisted(old(store).records(), names@),
{
    let mut out: Vec<Project> = Vec::new();
    let mut i: usize = 0;
    let n = store.len();
    while i < n
        invariant
            0 <= i <= n,
            n == store.records().len(),
            *store == *old(store),
            out@ == keep_unlisted(store.records().subrange(0, i as int), names@),
        decreases n - i,
    {
        proof {
            assert(store.records().subrange(0, (i + 1) as int).drop_last()
                =~= store.records().subrange(0, i as int));
            assert(store.records().subrange(0, (i + 1) as int).last()
                == store.records()[i as int]);
        }
        let p = store.borrow_records()[i].clone();
        if !name_listed_exec(names, p.name.as_str()) {
            out.push(p);
        }
        i = i + 1;
    }
    proof {
        assert(store.records().subrange(0, n as int) =~= store.records());
    }
    store.save(out);
}

/// The path of the first record named `name` is `path`.
pub open spec fn path_planned(projects: Seq<Project>, name: Seq<char>, path: Seq<char>) -> bool {
    exists|i: int| is_first_named(projects, i, name) && path == projects[i].path@
}

/// The directories a bulk delete with directory removal is to take off the
/// disk: for each listed name, the path of the first record carrying it. A
/// name with no record fails the whole plan, as the direct bulk delete does.
pub fn dir_removal_plan(projects: &Vec<Project>, names: &Vec<String>) -> (r: Result<
    Vec<String>,
    OpsError,
>)
    ensures
        match r {
            Ok(paths) => {
                &&& paths@.len() == names@.len()
                &&& forall|k: int|
                    0 <= k < names@.len() ==> path_planned(
                        projects@,
                        (#[trigger] names@[k])@,
                        paths@[k]@,
                    )
            },
            Err(e) => {
                &&& e is ProjectNotFound
                &&& exists|k: int|
                    0 <= k < names@.len() && !exists_named(projects@, (#[trigger] names@[k])@)
            },
        },
{
    let mut paths: Vec<String> = Vec::new();
    let mut k: usize = 0;
    while k < names.len()
        invariant
            0 <= k <= names@.len(),
            paths@.len() == k,
            forall|w: int|
                0 <= w < k ==> path_planned(projects@, (#[trigger] names@[w])@, paths@[w]@),
        decreases names@.len() - k,
    {
        match find_named_index(projects, names[k].as_str()) {
            Some(i) => {
                let ghost prev = paths@;
                paths.push(projects[i].path.clone());
                proof {
                    assert forall|w: int| 0 <= w < k + 1 implies path_planned(
                        projects@,
                        (#[trigger] names@[w])@,
                        paths@[w]@,
                    ) by {
                        if w < k {
                            assert(paths@[w] == prev[w]);
                            assert(path_planned(projects@, names@[w]@, prev[w]@));
                        } else {
                            assert(is_first_named(projects@, i as int, names@[w]@) && paths@[w]@
                                == projects@[i as int].path@);
                        }
                    }
                }
            },
            None => {
                return Err(OpsError::ProjectNotFound);
            },
        }
        k = k + 1;
    }
    Ok(paths)
}

/// Replaces the name and the path of the first record named `name`, keeping
/// its `last_opened`, and persists; the edited position comes back. When no
/// record carries the name, nothing changes and no error is raised: the edit
/// is a silent no-op.
pub fn edit_project(store: &mut ProjectStore, name: &str, new_name: &str, new_path: &str) -> (r:
    Option<usize>)
    ensures
        final(store).spec_visits() == old(store).spec_visits(),
        match r {
            None => !exists_named(old(store).records(), name@) && final(store).records()
                == old(store).records(),
            Some(i) => {
                &&& is_first_named(old(store).records(), i as int, name@)
                &&& final(store).records().len() == old(store).records().len()
                &&& final(store).records()[i as int].name@ == new_name@
                &&& final(store).records()[i as int].path@ == new_path@
                &&& final(store).records()[i as int].last_opened == old(store).records()[
                    i as int
                ].last_opened
                &&& forall|k: int|
                    0 <= k < old(store).records().len() && k != i ==> final(store).records()[k]
                        == old(store).records()[k]
            },
        },
{
    let idx = find_named_index(store.borrow_records(), name);
    match idx {
        Some(i) => {
            let mut records = store.get_all();
            let kept = records[i].last_opened;
            let updated = Project::new(new_name.to_owned(), new_path.to_owned(), kept);
            let ghost pre = records@;
            records.remove(i);
            records.insert(i, updated);
            proof {
                assert(records@ =~= pre.update(i as int, updated));
            }
            store.save(records);
            Some(i)
        },
        None => None,
    }
}

/// Touch and open: the first record named `name` gets `now` as its
/// `last_opened` and the store persists; the result says what the caller is
/// to launch — a shell in the directory, or the editor on it. A name with no
/// record reports not-found and changes nothing.
pub fn open_project(
    store: &mut ProjectStore,
    name: &str,
    open_action: OpenAction,
    replace_editor: bool,
    now: Timestamp,
) -> (r: Result<OpenEffect, OpsError>)
    ensures
        final(store).spec_visits() == old(store).spec_visits(),
        !exists_named(old(store).records(), name@) ==> (r matches Err(e) && e is ProjectNotFound
            && final(store).records() == old(store).records()),
        exists_named(old(store).records(), name@) ==> exists|i: int|
            {
                &&& is_first_named(old(store).records(), i, name@)
                &&& final(store).records().len() == old(store).records().len()
                &&& (#[trigger] final(store).records()[i]).name == old(store).records()[i].name
                &&& final(store).records()[i].path == old(store).records()[i].path
                &&& final(store).records()[i].last_opened == now
                &&& forall|k: int|
                    0 <= k < old(store).records().len() && k != i ==> final(store).records()[k]
                        == old(store).records()[k]
                &&& (open_action is OpenInTerminal ==> (r matches Ok(
                    OpenEffect::ChangeDirectory { path },
                ) && path@ == old(store).records()[i].path@))
                &&& (open_action is OpenInEditor ==> (r matches Ok(
                    OpenEffect::LaunchEditor { path, replace },
                ) && path@ == old(store).records()[i].path@ && replace == replace_editor))
            },
{
    let idx = find_named_index(store.borrow_records(), name);
    match idx {
        Some(i) => {
            let mut records = store.get_all();
            let mut touched = records[i].clone();
            touched.set_last_opened(now);
            let path = touched.path.clone();
            let ghost pre = records@;
            records.remove(i);
            records.insert(i, touched);
            proof {
                assert(records@ =~= pre.update(
                    i as int,
                    (Project {
                        name: pre[i as int].name,
                        path: pre[i as int].path,
                        last_opened: now,
                    }),
                ));
            }
            store.save(records);
            let r = match open_action {
                OpenAction::OpenInTerminal => Ok(OpenEffect::ChangeDirectory { path }),
                OpenAction::OpenInEditor => Ok(
                    OpenEffect::LaunchEditor { path, replace: replace_editor },
                ),
            };
            proof {
                assert({
                    &&& is_first_named(old(store).records(), i as int, name@)
                    &&& final(store).records().len() == old(store).records().len()
                    &&& (#[trigger] final(store).records()[i as int]).name
                        == old(store).records()[i as int].name
                    &&& final(store).records()[i as int].path == old(store).records()[
                        i as int
                    ].path
                    &&& final(store).records()[i as int].last_opened == now
                    &&& forall|k: int|
                        0 <= k < old(store).records().len() && k != i
                            ==> final(store).records()[k] == old(store).records()[k]
                });
            }
            r
        },
        None => Err(OpsError::ProjectNotFound),
    }
}

/// The arguments the editor is started with: the project path, then the
/// reuse-window flag when window reuse was asked for and the editor is the
/// one well-known editor that supports it — otherwise an empty argument, and
/// the request is ignored silently.
pub fn editor_invocation(path: &str, editor: &str, replace_editor: bool) -> (args: Vec<String>)
    ensures
        args@.len() == 2,
        args@[0]@ == path@,
        args@[1]@ == if replace_editor && editor@ == "code"@ {
            "--reuse-window"@
        } else {
            ""@
        },
{
    let mut args: Vec<String> = Vec::new();
    args.push(path.to_owned());
    if replace_editor && str_eq(editor, "code") {
        args.push("--reuse-window".to_owned());
    } else {
        args.push("".to_owned());
    }
    args
}

/// What creating a brand-new project decided: the record (and its directory)
/// are to be made, or the name collided and the candidate goes to overwrite
/// resolution.
pub enum NewOutcome {
    Created,
    NameTaken(Project),
}

/// Creates a new project record at `path` — already resolved by the caller,
/// who also made the directory. On a collision with an existing record's
/// name or path the store is left alone and the candidate handed back for
/// overwrite resolution. After a successful creation the caller opens the
/// project in the terminal.
pub fn new_project(store: &mut ProjectStore, name: &str, path: &str, now: Timestamp) -> (r:
    NewOutcome)
    requires
        name@.len() > 0,
    ensures
        final(store).spec_visits() == old(store).spec_visits(),
        if name_or_path_exists(old(store).records(), name@) {
            &&& final(store).records() == old(store).records()
            &&& r matches NewOutcome::NameTaken(c) && c.name@ == name@ && c.path@ == path@
                && c.last_opened == now
        } else {
            &&& r is Created
            &&& final(store).records().len() == old(store).records().len() + 1
            &&& final(store).records().subrange(0, old(store).records().len() as int)
                == old(store).records()
            &&& final(store).records().last().name@ == name@
            &&& final(store).records().last().path@ == path@
            &&& final(store).records().last().last_opened == now
        },
{
    let candidate = Project::new(name.to_owned(), path.to_owned(), now);
    if project_already_exists(store.borrow_records(), candidate.name.as_str()) {
        NewOutcome::NameTaken(candidate)
    } else {
        let mut records = store.get_all();
        records.push(candidate);
        store.save(records);
        proof {
            assert(final(store).records().subrange(0, old(store).records().len() as int)
                =~= old(store).records());
        }
        NewOutcome::Created
    }
}

/// The path a brand-new project lives at: the given one when it was filled,
/// else a folder under `projects` in the home directory, named by the
/// filesystem-safe normalisation of the project name.
pub fn resolve_new_project_path(name: &str, path: &str, home: &str) -> (r: String)
    ensures
        path@.len() > 0 ==> r@ == path@,
        path@.len() == 0 ==> r@ == home@ + "/"@ + "projects"@ + "/"@ + crate::text::normalized_name(
            name@,
        ),
{
    if !path.is_empty() {
        path.to_owned()
    } else {
        let folder = crate::text::join_path(home, "projects");
        let normalized = crate::text::normalize_project_name(name);
        let joined = crate::text::join_path(folder.as_str(), normalized.as_str());
        proof {
            assert(joined@ =~= home@ + "/"@ + "projects"@ + "/"@ + crate::text::normalized_name(
                name@,
            ));
        }
        joined
    }
}

/// Hands back the path a new project directory is to be created at. The
/// chain of missing ancestors the original walk inspects leaves the value
/// untouched: the ancestors are brought into being by the caller's directory
/// creation, and the path itself is what comes out.
pub fn create_path_with_parent_dirs(path: &str) -> (r: String)
    ensures
        r@ == path@,
{
    path.to_owned()
}

} // verus!
