use fitm::action::{Action, Cause, Event, TreeCopyOptions};
use fitm::engine::{derive_state, materialize};
use fitm::fileops::{copy, copy_ignore, mv, rm};
use fitm::layout::{active_dir, active_snapshot, saved_dir, saved_pipes, saved_snapshot};
use fitm::procedure::{ErrorKind, Failure, Procedure};
use fitm::store::{allocate, copy_snapshot_base, promote, propagate, startup};
use std::path::{Path, PathBuf};

// The driver of these scenarios performs every action below a working root
// of its own, with the tree and file primitives of fs_extra. The copy and
// remove tools are stood in for by the same primitives, and the restore
// generator by a record of what it was asked.

fn resolve(root: &str, path: &str) -> PathBuf {
    let p = Path::new(path);
    if p.is_absolute() {
        p.to_path_buf()
    } else {
        Path::new(root).join(path.strip_prefix("./").unwrap_or(path))
    }
}

fn tree_options(options: &TreeCopyOptions) -> fs_extra::dir::CopyOptions {
    fs_extra::dir::CopyOptions::new()
        .overwrite(options.overwrite)
        .skip_exist(options.skip_exist)
        .buffer_size(options.buffer_size)
        .copy_inside(options.copy_inside)
        .content_only(options.content_only)
        .depth(options.depth)
}

fn cause_of(kind: &fs_extra::error::ErrorKind) -> Cause {
    match kind {
        fs_extra::error::ErrorKind::NotFound => Cause::NotFound,
        fs_extra::error::ErrorKind::PermissionDenied => Cause::PermissionDenied,
        fs_extra::error::ErrorKind::AlreadyExists => Cause::AlreadyExists,
        fs_extra::error::ErrorKind::Interrupted => Cause::Interrupted,
        fs_extra::error::ErrorKind::InvalidFolder
        | fs_extra::error::ErrorKind::InvalidFile
        | fs_extra::error::ErrorKind::InvalidFileName
        | fs_extra::error::ErrorKind::InvalidPath => Cause::InvalidPath,
        _ => Cause::Other,
    }
}

fn answer<T>(result: Result<T, fs_extra::error::Error>) -> Event {
    match result {
        Ok(_) => Event::Completed,
        Err(e) => Event::Failed(cause_of(&e.kind)),
    }
}

struct World {
    root: String,
    privileged: bool,
    performed: Vec<Action>,
    generated: Vec<Vec<String>>,
}

impl World {
    fn new(name: &str) -> World {
        let root = format!("/tmp/fitm_scenario_{}", name);
        fs_extra::dir::create_all(&root, true).expect("could not create the working root");
        World { root, privileged: true, performed: Vec::new(), generated: Vec::new() }
    }

    fn with_areas(name: &str) -> World {
        let mut world = World::new(name);
        world.drive(startup()).expect("startup failed");
        world.performed.clear();
        world
    }

    fn path(&self, path: &str) -> PathBuf {
        resolve(&self.root, path)
    }

    fn holds(&self, path: &str) -> bool {
        self.path(path).exists()
    }

    fn write(&self, path: &str, content: &str) {
        let target = self.path(path);
        fs_extra::dir::create_all(target.parent().unwrap(), false).unwrap();
        fs_extra::file::write_all(target, content).unwrap();
    }

    fn read(&self, path: &str) -> String {
        fs_extra::file::read_to_string(self.path(path)).expect("could not read the file")
    }

    fn run_tool(&mut self, program: &str, args: &[String]) -> Event {
        match (program, args) {
            ("cp", [flag, from, to]) if flag == "-r" => {
                let target = self.path(to);
                let options = fs_extra::dir::CopyOptions::new().copy_inside(!target.exists());
                answer(fs_extra::dir::copy(self.path(from), target, &options))
            }
            ("rm", [flag, dir]) if flag == "-rf" => answer(fs_extra::dir::remove(self.path(dir))),
            ("python3", [script, base_state, active_dir]) if script == "create_restore.py" => {
                self.generated.push(vec![base_state.clone(), active_dir.clone()]);
                Event::Completed
            }
            _ => Event::Failed(Cause::NotFound),
        }
    }

    fn perform(&mut self, action: &Action) -> Event {
        self.performed.push(action.clone());
        match action {
            Action::ConfirmPrivilege => {
                if self.privileged {
                    Event::Completed
                } else {
                    Event::Failed(Cause::PermissionDenied)
                }
            }
            Action::Probe { path } => {
                let p = self.path(path);
                let empty = match p.read_dir() {
                    Ok(mut entries) => entries.next().is_none(),
                    Err(_) => false,
                };
                Event::Probed { present: p.exists(), empty }
            }
            Action::EnsureDir { path } => answer(fs_extra::dir::create_all(self.path(path), false)),
            Action::CopyTree { from, to, options } => {
                answer(fs_extra::dir::copy(self.path(from), self.path(to), &tree_options(options)))
            }
            Action::CopyFile { from, to } => answer(fs_extra::file::copy(
                self.path(from),
                self.path(to),
                &fs_extra::file::CopyOptions::new(),
            )),
            Action::RemoveTree { path } => answer(fs_extra::dir::remove(self.path(path))),
            Action::Run { program, args } => self.run_tool(program, args),
        }
    }

    fn drive(&mut self, mut procedure: Procedure) -> Result<(), Failure> {
        loop {
            let event = match procedure.pending() {
                Some(action) => self.perform(action),
                None => break,
            };
            procedure.advance(event);
        }
        procedure.outcome().expect("nothing is pending")
    }

    fn discard(self) {
        fs_extra::dir::remove(&self.root).expect("could not remove the working root");
    }
}

fn check_is_dir(path: &Path) -> bool {
    path.metadata().expect("Could not find copy 'to' folder").file_type().is_dir()
}

#[test]
fn test_copy() {
    let mut world = World::new("copy");
    let root_folder = world.root.clone();
    let from_path = format!("{}/foo/bar", root_folder);
    let from_content_path = format!("{}/foo/bar/content.txt", root_folder);
    let to_content_path = format!("{}/bar/content.txt", root_folder);
    world.write(&from_content_path, "A simple string.");

    world.drive(copy(from_path.clone(), root_folder.clone())).expect("copy failed");

    assert_eq!(Path::new(&from_path).exists(), true);
    assert!(Path::new(&format!("{}/foo", root_folder)).exists());
    assert!(Path::new(&format!("{}/bar", root_folder)).exists());
    assert!(Path::new(&to_content_path).exists());
    assert!(check_is_dir(Path::new(&root_folder)));
    let result_content = fs_extra::file::read_to_string(&to_content_path)
        .expect("Could not read from expected content.txt");
    assert_eq!(result_content, "A simple string.");
    assert_eq!(world.read(&from_content_path), "A simple string.");
    world.discard();
}

#[test]
fn test_mv() {
    let mut world = World::new("mv");
    let root_folder = world.root.clone();
    let from_path = format!("{}/foo/bar", root_folder);
    let to_path = root_folder.clone();
    let from_content_path = format!("{}/foo/bar/content.txt", root_folder);
    let to_content_path = format!("{}/bar/content.txt", root_folder);
    world.write(&from_content_path, "A simple string.");

    world.drive(mv(from_path.clone(), to_path.clone())).expect("mv failed");

    assert_eq!(Path::new(&from_path).exists(), false);
    assert!(Path::new(&format!("{}/foo", root_folder)).exists());
    assert!(Path::new(&format!("{}/bar", root_folder)).exists());
    assert!(Path::new(&to_content_path).exists());
    assert!(check_is_dir(Path::new(&to_path)));
    let result_content = fs_extra::file::read_to_string(&to_content_path)
        .expect("Could not read from expected content.txt");
    assert_eq!(result_content, "A simple string.");
    world.discard();
}

#[test]
fn test_remove_dir_all() {
    let mut world = World::new("remove_dir_all");
    let root_folder = world.root.clone();
    let content_path = format!("{}/foo/bar/content.txt", root_folder);
    world.write(&content_path, "A simple string.");
    let foo_path = format!("{}/foo", root_folder);

    world.drive(rm(foo_path.clone())).expect("Tested remove_dir_all failed");

    assert_eq!(Path::new(&foo_path).exists(), false);
    assert!(Path::new(&root_folder).exists());
    world.discard();
}

#[test]
fn copy_of_a_nested_tree_duplicates_every_file() {
    let mut world = World::new("nested_copy");
    world.write("./a/top.txt", "top");
    world.write("./a/x/mid.txt", "middle");
    world.write("./a/x/y/z/deep.bin", "\u{0}\u{1}deep");
    fs_extra::dir::create_all(world.path("./a/x/hollow"), false).unwrap();

    world.drive(copy("./a".to_string(), "./b".to_string())).unwrap();

    for tree in ["a", "b"] {
        assert_eq!(world.read(&format!("./{}/top.txt", tree)), "top");
        assert_eq!(world.read(&format!("./{}/x/mid.txt", tree)), "middle");
        assert_eq!(world.read(&format!("./{}/x/y/z/deep.bin", tree)), "\u{0}\u{1}deep");
        assert!(check_is_dir(&world.path(&format!("./{}/x/hollow", tree))));
    }
    world.discard();
}

#[test]
fn move_of_a_nested_tree_leaves_only_the_destination() {
    let mut world = World::new("nested_move");
    world.write("./a/top.txt", "top");
    world.write("./a/x/y/deep.txt", "deep");

    world.drive(mv("./a".to_string(), "./b".to_string())).unwrap();

    assert!(!world.holds("./a"));
    assert_eq!(world.read("./b/top.txt"), "top");
    assert_eq!(world.read("./b/x/y/deep.txt"), "deep");
    world.discard();
}

#[test]
fn move_of_a_missing_tree_fails_and_removes_nothing() {
    let mut world = World::new("missing_move");
    world.write("./keep/file.txt", "kept");

    let failure = world.drive(mv("./absent".to_string(), "./keep".to_string())).unwrap_err();

    assert_eq!(failure.kind, ErrorKind::Move);
    assert_eq!(failure.stage, 0);
    assert_eq!(failure.cause, Cause::NotFound);
    assert_eq!(
        failure.action,
        Action::Run {
            program: "cp".to_string(),
            args: vec!["-r".to_string(), "./absent".to_string(), "./keep".to_string()],
        }
    );
    assert_eq!(world.performed.len(), 1);
    assert_eq!(world.read("./keep/file.txt"), "kept");
    world.discard();
}

#[test]
fn copy_of_a_missing_tree_reports_both_paths() {
    let mut world = World::new("missing_copy");
    let failure = world.drive(copy("./nowhere".to_string(), "./there".to_string())).unwrap_err();
    assert_eq!(failure.kind, ErrorKind::Copy);
    assert_eq!(failure.cause, Cause::NotFound);
    match failure.action {
        Action::Run { program, args } => {
            assert_eq!(program, "cp");
            assert_eq!(args, vec!["-r", "./nowhere", "./there"]);
        }
        other => panic!("unexpected action {:?}", other),
    }
    assert!(!world.holds("./there"));
    world.discard();
}

#[test]
fn copy_ignore_completes_without_a_source() {
    let mut world = World::new("copy_ignore");
    world.drive(copy_ignore("./nowhere".to_string(), "./there".to_string())).unwrap();
    assert_eq!(world.performed.len(), 1);
    assert!(!world.holds("./there"));

    world.write("./src/file.txt", "content");
    fs_extra::dir::create_all(world.path("./dst"), false).unwrap();
    world.drive(copy_ignore("./src".to_string(), "./dst".to_string())).unwrap();
    assert_eq!(world.read("./dst/src/file.txt"), "content");
    world.discard();
}

#[test]
fn startup_creates_both_areas_once() {
    let mut world = World::new("startup");
    world.drive(startup()).unwrap();
    assert!(check_is_dir(&world.path("active-state")));
    assert!(check_is_dir(&world.path("saved-states")));

    world.write("./saved-states/c0s0/pipes", "fd3:named");
    world.drive(startup()).unwrap();
    assert_eq!(world.read("./saved-states/c0s0/pipes"), "fd3:named");
    world.discard();
}

#[test]
fn startup_without_privilege_creates_nothing() {
    let mut world = World::new("startup_unprivileged");
    world.privileged = false;
    let failure = world.drive(startup()).unwrap_err();
    assert_eq!(failure.kind, ErrorKind::Startup);
    assert_eq!(failure.stage, 0);
    assert_eq!(failure.action, Action::ConfirmPrivilege);
    assert_eq!(failure.cause, Cause::PermissionDenied);
    assert!(!world.holds("active-state"));
    assert!(!world.holds("saved-states"));
    world.discard();
}

#[test]
fn derived_state_receives_the_base_snapshot() {
    let mut world = World::with_areas("derive");
    world.write(&format!("{}/core.img", saved_snapshot("c0s0")), "ABCD");
    world.write(&saved_pipes("c0s0"), "fd3:named");

    let transition = derive_state(None, (0, 0), true);
    assert_eq!(transition.state, (0, 1));
    assert_eq!(transition.run.base_state, "c0s0");
    assert_eq!(transition.run.active_dir, "c0s1");

    world.drive(allocate(&transition.run.active_dir)).unwrap();
    world.drive(propagate(&transition.run.base_state, &transition.run.active_dir)).unwrap();

    assert_eq!(world.read("./active-state/c0s1/snapshot/core.img"), "ABCD");
    assert_eq!(world.read("./active-state/c0s1/pipes"), "fd3:named");
    assert_eq!(world.read(&format!("{}/core.img", active_snapshot("c0s1"))), "ABCD");
    assert_eq!(world.read("./saved-states/c0s0/snapshot/core.img"), "ABCD");
    assert_eq!(world.read("./saved-states/c0s0/pipes"), "fd3:named");
    assert!(world.generated.is_empty());
    world.discard();
}

#[test]
fn materialization_ends_with_one_restore_request() {
    let mut world = World::with_areas("materialize");
    world.write("./saved-states/fitm-c4s2/snapshot/core.img", "ABCD");
    world.write("./saved-states/fitm-c4s2/snapshot/pages/pages-1.img", "page");
    world.write("./saved-states/fitm-c4s2/pipes", "fd3:named\nfd4:anon");

    let transition = derive_state(Some("fitm"), (4, 2), false);
    assert_eq!(transition.state, (5, 2));
    world.drive(materialize(&transition.run)).unwrap();

    assert_eq!(world.read("./active-state/fitm-c5s2/snapshot/core.img"), "ABCD");
    assert_eq!(world.read("./active-state/fitm-c5s2/snapshot/pages/pages-1.img"), "page");
    assert_eq!(world.read("./active-state/fitm-c5s2/pipes"), "fd3:named\nfd4:anon");
    assert_eq!(world.generated, vec![vec!["fitm-c4s2".to_string(), "fitm-c5s2".to_string()]]);
    assert_eq!(world.performed.len(), 7);
    assert!(matches!(world.performed[6], Action::Run { .. }));
    world.discard();
}

#[test]
fn allocation_of_a_populated_directory_fails_and_keeps_the_file() {
    let mut world = World::with_areas("allocate_populated");
    world.write("./active-state/c1s0/leftover.txt", "do not touch");

    let failure = world.drive(allocate("c1s0")).unwrap_err();

    assert_eq!(failure.kind, ErrorKind::Allocation);
    assert_eq!(failure.cause, Cause::NotEmpty);
    assert_eq!(failure.stage, 0);
    assert_eq!(failure.action, Action::Probe { path: active_dir("c1s0") });
    assert_eq!(world.performed.len(), 1);
    assert_eq!(world.read("./active-state/c1s0/leftover.txt"), "do not touch");
    world.discard();
}

#[test]
fn allocation_creates_an_empty_directory() {
    let mut world = World::with_areas("allocate_fresh");
    world.drive(allocate("c1s0")).unwrap();
    let dir = world.path("./active-state/c1s0");
    assert!(check_is_dir(&dir));
    assert!(dir.read_dir().unwrap().next().is_none());

    world.drive(allocate("c1s0")).unwrap();
    assert!(dir.read_dir().unwrap().next().is_none());
    world.discard();
}

#[test]
fn propagation_from_an_unsaved_base_fails_before_any_copy() {
    let mut world = World::with_areas("propagate_unsaved");
    let transition = derive_state(None, (3, 3), true);

    let failure = world.drive(materialize(&transition.run)).unwrap_err();

    assert_eq!(failure.kind, ErrorKind::Propagation);
    assert_eq!(failure.cause, Cause::NotFound);
    assert_eq!(failure.stage, 2);
    assert_eq!(failure.action, Action::Probe { path: saved_snapshot("c3s3") });
    assert!(world.generated.is_empty());
    assert_eq!(world.performed.len(), 3);
    assert!(world.path("./active-state/c3s4").read_dir().unwrap().next().is_none());
    world.discard();
}

#[test]
fn propagation_without_a_pipe_registry_fails_before_any_copy() {
    let mut world = World::with_areas("propagate_no_pipes");
    world.write("./saved-states/c0s0/snapshot/core.img", "ABCD");
    world.drive(allocate("c0s1")).unwrap();

    let failure = world.drive(propagate("c0s0", "c0s1")).unwrap_err();

    assert_eq!(failure.kind, ErrorKind::Propagation);
    assert_eq!(failure.cause, Cause::NotFound);
    assert_eq!(failure.stage, 1);
    assert_eq!(failure.action, Action::Probe { path: saved_pipes("c0s0") });
    assert!(!world.holds("./active-state/c0s1/snapshot"));
    world.discard();
}

#[test]
fn copy_snapshot_base_copies_without_looking_first() {
    let mut world = World::with_areas("copy_snapshot_base");
    world.write("./saved-states/c0s0/snapshot/core.img", "ABCD");
    world.write("./saved-states/c0s0/pipes", "fd3:named");
    world.drive(allocate("c1s0")).unwrap();
    world.performed.clear();

    world.drive(copy_snapshot_base(&"c0s0".to_string(), &"c1s0".to_string())).unwrap();
    assert_eq!(world.performed.len(), 2);
    assert_eq!(world.read("./active-state/c1s0/snapshot/core.img"), "ABCD");
    assert_eq!(world.read("./active-state/c1s0/pipes"), "fd3:named");

    let failure =
        world.drive(copy_snapshot_base(&"c9s9".to_string(), &"c1s0".to_string())).unwrap_err();
    assert_eq!(failure.kind, ErrorKind::Propagation);
    assert_eq!(failure.stage, 0);
    assert_eq!(failure.cause, Cause::NotFound);
    world.discard();
}

#[test]
fn promotion_moves_the_active_directory_and_refuses_a_second_time() {
    let mut world = World::with_areas("promote");
    world.write("./active-state/c0s1/snapshot/core.img", "EFGH");
    world.write("./active-state/c0s1/pipes", "fd5:named");

    world.drive(promote("c0s1", "c0s1")).unwrap();

    assert!(!world.holds("./active-state/c0s1"));
    assert_eq!(world.read("./saved-states/c0s1/snapshot/core.img"), "EFGH");
    assert_eq!(world.read("./saved-states/c0s1/pipes"), "fd5:named");

    world.write("./active-state/c0s1/snapshot/core.img", "XXXX");
    world.write("./active-state/c0s1/pipes", "other");
    world.performed.clear();
    let failure = world.drive(promote("c0s1", "c0s1")).unwrap_err();
    assert_eq!(failure.kind, ErrorKind::Promotion);
    assert_eq!(failure.cause, Cause::AlreadyExists);
    assert_eq!(failure.stage, 1);
    assert_eq!(failure.action, Action::Probe { path: saved_dir("c0s1") });
    assert_eq!(world.performed.len(), 2);
    assert_eq!(world.read("./saved-states/c0s1/snapshot/core.img"), "EFGH");
    assert_eq!(world.read("./saved-states/c0s1/pipes"), "fd5:named");
    assert_eq!(world.read("./active-state/c0s1/snapshot/core.img"), "XXXX");
    world.discard();
}

#[test]
fn promotion_of_a_missing_directory_fails() {
    let mut world = World::with_areas("promote_missing");
    let failure = world.drive(promote("c7s7", "c7s7")).unwrap_err();
    assert_eq!(failure.kind, ErrorKind::Promotion);
    assert_eq!(failure.cause, Cause::NotFound);
    assert_eq!(failure.stage, 0);
    assert!(!world.holds("./saved-states/c7s7"));
    world.discard();
}

#[test]
fn a_chain_of_derivations_carries_the_snapshot_unchanged() {
    let mut world = World::with_areas("chain");
    let image = "ABCD\u{0}\u{7f}checkpoint";
    let pipes = "fd3:named\nfd4:anon\n";
    world.write("./saved-states/c0s0/snapshot/core.img", image);
    world.write("./saved-states/c0s0/snapshot/inner/pagemap.img", "pagemap");
    world.write("./saved-states/c0s0/pipes", pipes);

    let mut state = (0u32, 0u32);
    for role in [true, false, true, true] {
        let transition = derive_state(None, state, role);
        world.drive(materialize(&transition.run)).unwrap();
        world.drive(promote(&transition.run.active_dir, &transition.run.active_dir)).unwrap();
        state = transition.state;
        let saved = saved_dir(&transition.run.active_dir);
        assert_eq!(world.read(&format!("{}/snapshot/core.img", saved)), image);
        assert_eq!(world.read(&format!("{}/snapshot/inner/pagemap.img", saved)), "pagemap");
        assert_eq!(world.read(&format!("{}/pipes", saved)), pipes);
        assert!(!world.holds(&active_dir(&transition.run.active_dir)));
    }
    assert_eq!(state, (1, 3));
    assert_eq!(world.read("./saved-states/c1s3/snapshot/core.img"), image);
    assert_eq!(world.read("./saved-states/c0s0/snapshot/core.img"), image);
    assert_eq!(world.generated.len(), 4);
    world.discard();
}
