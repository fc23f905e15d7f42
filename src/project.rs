//! A workspace on disk: how it is created, opened and how its embedded engine
//! copy is refreshed.
use vstd::prelude::*;
use crate::descriptor::{descriptor_spec, descriptor_text, game_name_of, game_name_path};
use crate::error::ZeusProjectError;
use crate::paths::{join_path, join_spec};
use crate::plan::{actions_view, ActionView, FsAction};
use crate::toml_doc::{parse_document, toml_parse, toml_strings};

verus! {

/// The descriptor's file name, directly under the workspace root.
pub const DESCRIPTOR_FILE: &'static str = "Zeus.toml";

/// The ignore-rule file's name, directly under the workspace root.
pub const IGNORE_FILE: &'static str = ".gitignore";

/// The ignore rules written at creation: the embedded engine copy stays out
/// of version control.
pub const IGNORE_RULES: &'static str = "/athena";

/// The name of the embedded engine copy's directory inside a workspace.
pub const DEPENDENCY_DIR: &'static str = "athena";

/// The repository that the embedded engine copy is fetched from.
pub const DEPENDENCY_REMOTE: &'static str = "https://github.com/athena-org/zeus.git";

/// The branch of that repository that is fetched.
pub const DEPENDENCY_REFERENCE: &'static str = "develop";

/// The project name written into a new descriptor.
pub const DEFAULT_GAME_NAME: &'static str = "My Game";

/// The author written into a new descriptor.
pub const DEFAULT_AUTHOR: &'static str = "Jane Doe";

/// The actions that create a workspace in `dir`: make the directory, then
/// write the descriptor with its default values and the ignore rules.
pub open spec fn scaffold_spec(dir: Seq<char>) -> Seq<ActionView> {
    seq![
        ActionView::CreateDirAll(dir),
        ActionView::WriteFile(
            join_spec(dir, DESCRIPTOR_FILE@),
            descriptor_spec(DEFAULT_GAME_NAME@, DEFAULT_AUTHOR@),
        ),
        ActionView::WriteFile(join_spec(dir, IGNORE_FILE@), IGNORE_RULES@),
    ]
}

/// The embedded engine copy's directory inside the workspace `dir`.
pub open spec fn dependency_dir_spec(dir: Seq<char>) -> Seq<char> {
    join_spec(dir, DEPENDENCY_DIR@)
}

/// The fetch of the engine's development branch into the workspace `dir`.
pub open spec fn fetch_spec(dir: Seq<char>) -> ActionView {
    ActionView::Fetch(DEPENDENCY_REMOTE@, dependency_dir_spec(dir), DEPENDENCY_REFERENCE@)
}

/// The actions that refresh the embedded engine copy of the workspace `dir`:
/// where an earlier copy is present, clear its read-only attributes and remove
/// it; then fetch a fresh one.
pub open spec fn refresh_spec(dir: Seq<char>, present: bool) -> Seq<ActionView> {
    if present {
        seq![
            ActionView::ClearReadOnly(dependency_dir_spec(dir)),
            ActionView::RemoveTree(dependency_dir_spec(dir)),
            fetch_spec(dir),
        ]
    } else {
        seq![fetch_spec(dir)]
    }
}

/// The project name that a descriptor text gives: `game.name` where the text
/// is a valid document and that entry is a string.
pub open spec fn descriptor_name(text: Seq<char>) -> Option<Seq<char>> {
    match toml_parse(text) {
        Some(m) => if m.contains_key(game_name_path()) {
            Some(m[game_name_path()])
        } else {
            None
        },
        None => None,
    }
}

/// An error that names the file `name`.
pub open spec fn is_corrupted_file(e: ZeusProjectError, name: Seq<char>) -> bool {
    e matches ZeusProjectError::CorruptedFile(f) && f@ == name
}

/// The files that the actions of `plan` write.
pub open spec fn written_files(plan: Seq<ActionView>) -> Set<Seq<char>> {
    Set::new(
        |path: Seq<char>|
            exists|i: int|
                0 <= i < plan.len() && (#[trigger] plan[i] matches ActionView::WriteFile(p, _) && p
                    == path),
    )
}

/// Creating a workspace writes exactly two files, the descriptor and the
/// ignore rules, both directly in its root; besides making the directory it
/// does nothing else: no removal and no fetch.
pub proof fn lemma_create_writes_two_files(dir: Seq<char>)
    requires
        dir.len() > 0,
    ensures
        written_files(scaffold_spec(dir)) == set![
            join_spec(dir, DESCRIPTOR_FILE@),
            join_spec(dir, IGNORE_FILE@),
        ],
        join_spec(dir, DESCRIPTOR_FILE@) != join_spec(dir, IGNORE_FILE@),
        forall|i: int|
            0 <= i < scaffold_spec(dir).len() ==> (#[trigger] scaffold_spec(dir)[i] is CreateDirAll
                || scaffold_spec(dir)[i] is WriteFile),
{
    let plan = scaffold_spec(dir);
    let d = join_spec(dir, DESCRIPTOR_FILE@);
    let g = join_spec(dir, IGNORE_FILE@);
    assert(plan[1] matches ActionView::WriteFile(p, _) && p == d);
    assert(plan[2] matches ActionView::WriteFile(p, _) && p == g);
    assert(written_files(plan) =~= set![d, g]);
    reveal_strlit("Zeus.toml");
    reveal_strlit(".gitignore");
    reveal_strlit("/");
    let k: int = if dir.last() == '/' {
        dir.len() as int
    } else {
        (dir.len() + 1) as int
    };
    assert(d[k] == 'Z');
    assert(g[k] == '.');
}

/// Refreshing twice in a row: each refresh ends by fetching the development
/// branch into the workspace's engine directory, so the copy is there after
/// both. The second refresh finds the first one's copy, clears its read-only
/// attributes, then removes it, then fetches.
pub proof fn lemma_refresh_twice(p: ZeusProject, present_before: bool)
    ensures
        refresh_spec(p.dir(), present_before).last() == fetch_spec(p.dir()),
        refresh_spec(p.dir(), true) == seq![
            ActionView::ClearReadOnly(dependency_dir_spec(p.dir())),
            ActionView::RemoveTree(dependency_dir_spec(p.dir())),
            fetch_spec(p.dir()),
        ],
        fetch_spec(p.dir()) matches ActionView::Fetch(_, dest, reference) && dest
            == dependency_dir_spec(p.dir()) && reference == DEPENDENCY_REFERENCE@,
{
}

/// A workspace: its root directory and the project name from its descriptor.
#[derive(Debug)]
pub struct ZeusProject {
    directory: String,
    game_name: String,
}

impl ZeusProject {
    #[verifier::type_invariant]
    spec fn well_formed(&self) -> bool {
        self.directory@.len() > 0
    }

    /// The workspace's root directory.
    pub closed spec fn dir(&self) -> Seq<char> {
        self.directory@
    }

    /// The project name.
    pub closed spec fn name(&self) -> Seq<char> {
        self.game_name@
    }

    pub fn directory(&self) -> (r: &str)
        ensures
            r@ == self.dir(),
    {
        self.directory.as_str()
    }

    pub fn game_name(&self) -> (r: &str)
        ensures
            r@ == self.name(),
    {
        self.game_name.as_str()
    }

    /// Decides how to create a workspace in `target_dir`, given how many
    /// entries the directory holds (`None` where it does not exist). An empty
    /// path, or a directory that has entries, is refused and nothing is to be
    /// done; otherwise the workspace comes with the actions that build it.
    pub fn create(target_dir: &str, existing_entries: Option<usize>) -> (r: Result<
        (ZeusProject, Vec<FsAction>),
        ZeusProjectError,
    >)
        ensures
            target_dir@.len() == 0 ==> r matches Err(ZeusProjectError::InvalidPath),
            target_dir@.len() > 0 && (existing_entries matches Some(n) && n > 0) ==> r matches Err(
                ZeusProjectError::AlreadyExists,
            ),
            r is Ok <==> target_dir@.len() > 0 && !(existing_entries matches Some(n) && n > 0),
            r matches Ok((p, actions)) ==> p.dir() == target_dir@ && p.name() == DEFAULT_GAME_NAME@
                && actions_view(actions@) == scaffold_spec(target_dir@),
    {
        if target_dir.unicode_len() == 0 {
            return Err(ZeusProjectError::InvalidPath);
        }
        match existing_entries {
            Some(n) => if n != 0 {
                return Err(ZeusProjectError::AlreadyExists);
            },
            None => {},
        }
        let project = ZeusProject {
            directory: String::from_str(target_dir),
            game_name: String::from_str(DEFAULT_GAME_NAME),
        };
        let descriptor = descriptor_text(DEFAULT_GAME_NAME, DEFAULT_AUTHOR);
        let mut actions: Vec<FsAction> = Vec::new();
        actions.push(FsAction::CreateDirAll { path: String::from_str(target_dir) });
        actions.push(project.create_file(DESCRIPTOR_FILE, descriptor.as_str()));
        actions.push(project.create_file(IGNORE_FILE, IGNORE_RULES));
        assert(actions_view(actions@) =~= scaffold_spec(target_dir@));
        Ok((project, actions))
    }

    /// Opens the workspace in `target_dir`, given the text of its descriptor
    /// (`None` where there is no descriptor file). The project name comes
    /// from the descriptor's `game.name`.
    pub fn open(target_dir: &str, descriptor: Option<&str>) -> (r: Result<
        ZeusProject,
        ZeusProjectError,
    >)
        ensures
            target_dir@.len() == 0 ==> r matches Err(ZeusProjectError::InvalidPath),
            target_dir@.len() > 0 && descriptor is None ==> r matches Err(
                ZeusProjectError::NotAZeusProject,
            ),
            target_dir@.len() > 0 && (descriptor matches Some(t) && descriptor_name(t@) is None)
                ==> (r matches Err(e) && is_corrupted_file(e, DESCRIPTOR_FILE@)),
            r is Ok <==> target_dir@.len() > 0 && (descriptor matches Some(t) && descriptor_name(
                t@,
            ) is Some),
            r matches Ok(p) ==> p.dir() == target_dir@ && (descriptor matches Some(t)
                && descriptor_name(t@) == Some(p.name())),
    {
        if target_dir.unicode_len() == 0 {
            return Err(ZeusProjectError::InvalidPath);
        }
        let mut project = ZeusProject {
            directory: String::from_str(target_dir),
            game_name: String::new(),
        };
        let text = match descriptor {
            None => return Err(ZeusProjectError::NotAZeusProject),
            Some(t) => t,
        };
        let doc = match project.parse_file(DESCRIPTOR_FILE, text) {
            Err(e) => return Err(e),
            Ok(v) => v,
        };
        match game_name_of(&doc) {
            None => Err(ZeusProjectError::CorruptedFile(String::from_str(DESCRIPTOR_FILE))),
            Some(name) => {
                project.game_name = name;
                Ok(project)
            },
        }
    }

    /// Plans the rebuild of the editor: a refresh of the embedded engine copy.
    pub fn build_editor(&self, dependency_present: bool) -> (r: Vec<FsAction>)
        ensures
            actions_view(r@) == refresh_spec(self.dir(), dependency_present),
    {
        self.refresh_dependency(dependency_present)
    }

    /// Plans the refresh of the embedded engine copy, given whether a copy is
    /// present: a present copy is made writable and removed, then a fresh one
    /// is fetched.
    pub fn refresh_dependency(&self, dependency_present: bool) -> (r: Vec<FsAction>)
        ensures
            actions_view(r@) == refresh_spec(self.dir(), dependency_present),
    {
        let dependency_dir = self.get_file_path(DEPENDENCY_DIR);
        let mut actions: Vec<FsAction> = Vec::new();
        if dependency_present {
            actions.push(FsAction::ClearReadOnly { path: dependency_dir.clone() });
            actions.push(FsAction::RemoveTree { path: dependency_dir.clone() });
        }
        actions.push(
            FsAction::Fetch {
                remote: String::from_str(DEPENDENCY_REMOTE),
                destination: dependency_dir,
                reference: String::from_str(DEPENDENCY_REFERENCE),
            },
        );
        assert(actions_view(actions@) =~= refresh_spec(self.dir(), dependency_present));
        actions
    }

    /// The path of the file `name` in the workspace root.
    pub fn get_file_path(&self, name: &str) -> (r: String)
        ensures
            r@ == join_spec(self.dir(), name@),
    {
        join_path(self.directory.as_str(), name)
    }

    /// The action that writes `data` into the file `name` in the workspace root.
    pub fn create_file(&self, name: &str, data: &str) -> (r: FsAction)
        ensures
            r@ == ActionView::WriteFile(join_spec(self.dir(), name@), data@),
    {
        FsAction::WriteFile { path: self.get_file_path(name), contents: String::from_str(data) }
    }

    /// Parses `text`, the contents of the file `name` in the workspace root,
    /// as a TOML document; text that is not one is a corrupted file.
    pub fn parse_file(&self, name: &str, text: &str) -> (r: Result<toml::Value, ZeusProjectError>)
        ensures
            r is Ok <==> toml_parse(text@) is Some,
            r matches Ok(v) ==> toml_parse(text@) == Some(toml_strings(v)),
            r matches Err(e) ==> is_corrupted_file(e, name@),
    {
        match parse_document(text) {
            Ok(v) => Ok(v),
            Err(_) => Err(ZeusProjectError::CorruptedFile(String::from_str(name))),
        }
    }
}

} // verus!
