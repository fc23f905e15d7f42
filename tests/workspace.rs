use std::collections::BTreeMap;

use zeus::descriptor::{descriptor_text, game_name_of};
use zeus::error::ZeusProjectError;
use zeus::paths::join_path;
use zeus::plan::{FsAction, PlanRun};
use zeus::project::{ZeusProject, DESCRIPTOR_FILE};

/// A directory tree in memory: directories, and files with their text.
#[derive(Default)]
struct Disk {
    dirs: Vec<String>,
    files: BTreeMap<String, String>,
}

impl Disk {
    fn entries(&self, dir: &str) -> Option<usize> {
        if !self.dirs.iter().any(|d| d == dir) {
            return None;
        }
        let prefix = format!("{}/", dir.trim_end_matches('/'));
        let n = self.files.keys().filter(|f| f.starts_with(&prefix)).count()
            + self.dirs.iter().filter(|d| d.starts_with(&prefix)).count();
        Some(n)
    }

    fn apply(&mut self, action: &FsAction) -> bool {
        match action {
            FsAction::CreateDirAll { path } => {
                if !self.dirs.contains(path) {
                    self.dirs.push(path.clone());
                }
                true
            }
            FsAction::WriteFile { path, contents } => {
                self.files.insert(path.clone(), contents.clone());
                true
            }
            FsAction::ClearReadOnly { path } | FsAction::RemoveTree { path } => {
                self.dirs.iter().any(|d| d == path)
            }
            FsAction::Fetch { destination, .. } => {
                self.dirs.push(destination.clone());
                self.files.insert(format!("{}/README.md", destination), String::from("engine"));
                true
            }
        }
    }

    fn run(&mut self, actions: Vec<FsAction>) -> bool {
        let mut run = PlanRun::new(actions);
        while let Some(a) = run.next_action() {
            let a = a.clone();
            let ok = self.apply(&a);
            run.report(ok);
        }
        run.succeeded()
    }

    fn create(&mut self, dir: &str) -> Result<ZeusProject, ZeusProjectError> {
        let (p, actions) = ZeusProject::create(dir, self.entries(dir))?;
        assert!(self.run(actions));
        Ok(p)
    }

    fn open(&self, dir: &str) -> Result<ZeusProject, ZeusProjectError> {
        let path = join_path(dir, DESCRIPTOR_FILE);
        ZeusProject::open(dir, self.files.get(&path).map(|s| s.as_str()))
    }
}

#[test]
fn create_on_empty_path_is_invalid() {
    let r = ZeusProject::create("", None);
    assert!(matches!(r, Err(ZeusProjectError::InvalidPath)));
    let r = ZeusProject::create("", Some(3));
    assert!(matches!(r, Err(ZeusProjectError::InvalidPath)));
}

#[test]
fn create_on_non_empty_directory_already_exists() {
    let r = ZeusProject::create("./game1", Some(1));
    assert!(matches!(r, Err(ZeusProjectError::AlreadyExists)));
}

#[test]
fn create_on_existing_empty_directory_succeeds() {
    let (p, actions) = ZeusProject::create("./game1", Some(0)).unwrap();
    assert_eq!(p.directory(), "./game1");
    assert_eq!(actions.len(), 3);
}

#[test]
fn create_writes_exactly_two_files() {
    let (p, actions) = ZeusProject::create("./game1", None).unwrap();
    assert_eq!(p.game_name(), "My Game");
    assert_eq!(
        actions,
        vec![
            FsAction::CreateDirAll { path: String::from("./game1") },
            FsAction::WriteFile {
                path: String::from("./game1/Zeus.toml"),
                contents: descriptor_text("My Game", "Jane Doe"),
            },
            FsAction::WriteFile {
                path: String::from("./game1/.gitignore"),
                contents: String::from("/athena"),
            },
        ]
    );
    let writes = actions.iter().filter(|a| matches!(a, FsAction::WriteFile { .. })).count();
    assert_eq!(writes, 2);
}

#[test]
fn descriptor_text_is_exact() {
    assert_eq!(
        descriptor_text("My Game", "Jane Doe"),
        "[game]\nname = \"My Game\"\nversion = \"0.0.1\"\nzeus_version = \"develop\"\nathena_version = \"develop\"\nauthors = [\"Jane Doe\"]"
    );
}

#[test]
fn created_descriptor_parses_back_to_my_game() {
    let (p, _) = ZeusProject::create("./game1", None).unwrap();
    let text = descriptor_text("My Game", "Jane Doe");
    let doc = p.parse_file("Zeus.toml", &text).unwrap();
    assert_eq!(game_name_of(&doc), Some(String::from("My Game")));
}

#[test]
fn open_after_create_round_trips() {
    let mut disk = Disk::default();
    let created = disk.create("./proj").unwrap();
    let opened = disk.open(created.directory()).unwrap();
    assert_eq!(opened.game_name(), "My Game");
    assert_eq!(opened.directory(), "./proj");
}

#[test]
fn open_without_descriptor_is_not_a_project() {
    let r = ZeusProject::open("./game1", None);
    assert!(matches!(r, Err(ZeusProjectError::NotAZeusProject)));
}

#[test]
fn open_on_empty_path_is_invalid() {
    let r = ZeusProject::open("", Some("[game]\nname = \"x\""));
    assert!(matches!(r, Err(ZeusProjectError::InvalidPath)));
}

#[test]
fn open_with_invalid_descriptor_is_corrupted() {
    let r = ZeusProject::open("./game1", Some("[game\nname = "));
    assert_eq!(r.unwrap_err(), ZeusProjectError::CorruptedFile(String::from("Zeus.toml")));
}

#[test]
fn open_without_game_name_is_corrupted() {
    let r = ZeusProject::open("./game1", Some("[game]\nversion = \"0.0.1\""));
    assert_eq!(r.unwrap_err(), ZeusProjectError::CorruptedFile(String::from("Zeus.toml")));
    let r = ZeusProject::open("./game1", Some("name = \"top level\""));
    assert_eq!(r.unwrap_err(), ZeusProjectError::CorruptedFile(String::from("Zeus.toml")));
}

#[test]
fn open_with_non_string_name_is_corrupted() {
    let r = ZeusProject::open("./game1", Some("[game]\nname = 42"));
    assert_eq!(r.unwrap_err(), ZeusProjectError::CorruptedFile(String::from("Zeus.toml")));
    let r = ZeusProject::open("./game1", Some("[game]\nname = [\"a\"]"));
    assert_eq!(r.unwrap_err(), ZeusProjectError::CorruptedFile(String::from("Zeus.toml")));
}

#[test]
fn open_reads_the_name_from_the_descriptor() {
    let p = ZeusProject::open("games/x", Some("[game]\nname = \"Space Race\"\nauthors = []")).unwrap();
    assert_eq!(p.game_name(), "Space Race");
    assert_eq!(p.directory(), "games/x");
}

#[test]
fn parse_file_names_the_file_it_could_not_read() {
    let (p, _) = ZeusProject::create("d", None).unwrap();
    let r = p.parse_file("Other.toml", "= nope");
    assert_eq!(r.unwrap_err(), ZeusProjectError::CorruptedFile(String::from("Other.toml")));
    assert!(p.parse_file("Other.toml", "a = 1").is_ok());
}

#[test]
fn game1_scenario() {
    let mut disk = Disk::default();
    disk.create("./game1").unwrap();
    assert!(disk.dirs.contains(&String::from("./game1")));
    let descriptor = disk.files.get("./game1/Zeus.toml").unwrap();
    assert!(descriptor.contains("name = \"My Game\""));
    assert_eq!(disk.files.get("./game1/.gitignore").unwrap(), "/athena");
    assert_eq!(disk.files.len(), 2);
    let opened = disk.open("./game1").unwrap();
    assert_eq!(opened.game_name(), "My Game");
    assert!(matches!(disk.create("./game1"), Err(ZeusProjectError::AlreadyExists)));
}

#[test]
fn get_file_path_joins_with_one_separator() {
    let (p, _) = ZeusProject::create("a/b", None).unwrap();
    assert_eq!(p.get_file_path("Zeus.toml"), "a/b/Zeus.toml");
    let (q, _) = ZeusProject::create("a/b/", None).unwrap();
    assert_eq!(q.get_file_path("Zeus.toml"), "a/b/Zeus.toml");
    assert_eq!(join_path("", "x"), "x");
}

#[test]
fn create_file_targets_the_workspace_root() {
    let (p, _) = ZeusProject::create("w", None).unwrap();
    assert_eq!(
        p.create_file("notes.txt", "hi"),
        FsAction::WriteFile { path: String::from("w/notes.txt"), contents: String::from("hi") }
    );
}

#[test]
fn refresh_without_copy_only_fetches() {
    let (p, _) = ZeusProject::create("w", None).unwrap();
    assert_eq!(
        p.refresh_dependency(false),
        vec![FsAction::Fetch {
            remote: String::from("https://github.com/athena-org/zeus.git"),
            destination: String::from("w/athena"),
            reference: String::from("develop"),
        }]
    );
}

#[test]
fn refresh_with_copy_clears_removes_then_fetches() {
    let (p, _) = ZeusProject::create("w", None).unwrap();
    let plan = p.build_editor(true);
    assert_eq!(plan.len(), 3);
    assert_eq!(plan[0], FsAction::ClearReadOnly { path: String::from("w/athena") });
    assert_eq!(plan[1], FsAction::RemoveTree { path: String::from("w/athena") });
    assert!(matches!(&plan[2], FsAction::Fetch { destination, reference, .. }
        if destination == "w/athena" && reference == "develop"));
}

#[test]
fn refresh_twice_leaves_the_copy_present() {
    let mut disk = Disk::default();
    let p = disk.create("w").unwrap();
    let first = p.refresh_dependency(disk.entries("w/athena").is_some());
    assert!(disk.run(first));
    assert_eq!(disk.entries("w/athena"), Some(1));
    let second = p.refresh_dependency(disk.entries("w/athena").is_some());
    assert!(matches!(second[0], FsAction::ClearReadOnly { .. }));
    assert!(disk.run(second));
    assert!(disk.entries("w/athena").unwrap() > 0);
}

#[test]
fn plan_run_stops_at_first_failure() {
    let actions = vec![
        FsAction::RemoveTree { path: String::from("a") },
        FsAction::RemoveTree { path: String::from("b") },
    ];
    let mut run = PlanRun::new(actions);
    assert!(run.next_action().is_some());
    run.report(false);
    assert!(run.failed());
    assert!(run.next_action().is_none());
    run.report(true);
    assert!(run.failed());
    assert!(!run.succeeded());
}

#[test]
fn plan_run_succeeds_after_every_action() {
    let mut run = PlanRun::new(vec![FsAction::RemoveTree { path: String::from("a") }]);
    assert_eq!(run.next_action(), Some(&FsAction::RemoveTree { path: String::from("a") }));
    run.report(true);
    assert!(run.next_action().is_none());
    assert!(run.succeeded());
    assert!(!run.failed());
}

#[test]
fn error_messages() {
    assert_eq!(
        ZeusProjectError::AlreadyExists.message(),
        "Destination path already exists and is not empty."
    );
    assert_eq!(ZeusProjectError::NotAZeusProject.message(), "Destination path is not a Zeus project.");
    assert_eq!(ZeusProjectError::InvalidPath.message(), "Destination path is not valid.");
    assert_eq!(
        ZeusProjectError::CorruptedFile(String::from("Zeus.toml")).message(),
        "The file Zeus.toml has been corrupted and could not be read."
    );
}

#[test]
fn error_descriptions() {
    assert_eq!(ZeusProjectError::AlreadyExists.description(), "Already Exists");
    assert_eq!(ZeusProjectError::NotAZeusProject.description(), "Not a Zeus Project");
    assert_eq!(ZeusProjectError::InvalidPath.description(), "Not a Valid Path");
    assert_eq!(ZeusProjectError::CorruptedFile(String::new()).description(), "File Corrupted");
}
