use std::cell::RefCell;
use std::path::Path;

use dotenv::errors::{Error, OsError, OsErrorKind};
use dotenv::find::{candidate, decide, find, unopened, unresolved, Finder, Probe, Step};

/// A file system for the search: the regular files, the directories, and
/// the paths whose metadata cannot be read.
struct Tree {
    files: Vec<&'static str>,
    directories: Vec<&'static str>,
    denied: Vec<&'static str>,
    probed: RefCell<Vec<String>>,
}

impl Tree {
    fn new(files: &[&'static str]) -> Tree {
        Tree {
            files: files.to_vec(),
            directories: Vec::new(),
            denied: Vec::new(),
            probed: RefCell::new(Vec::new()),
        }
    }

    fn probe(&self, path: &str) -> Probe {
        self.probed.borrow_mut().push(path.to_string());
        if self.denied.contains(&path) {
            Probe::Failed(OsError::new(
                OsErrorKind::PermissionDenied,
                String::from("permission denied"),
            ))
        } else if self.files.contains(&path) {
            Probe::Metadata { is_file: true }
        } else if self.directories.contains(&path) {
            Probe::Metadata { is_file: false }
        } else {
            Probe::Failed(OsError::new(
                OsErrorKind::NotFound,
                String::from("No such file or directory (os error 2)"),
            ))
        }
    }

    /// Runs the search to its end, round by round.
    fn search(&self, start: &str, filename: &str) -> Result<String, Error> {
        let mut directory = start.to_string();
        loop {
            let probe = self.probe(&candidate(&directory, filename));
            match find(&directory, filename, probe) {
                Step::Found(path) => return Ok(path),
                Step::Ascend(up) => directory = up,
                Step::Failed(error) => return Err(error),
            }
        }
    }
}

#[test]
fn candidate_is_the_filename_inside_the_directory() {
    assert_eq!("/a/b/.env", candidate("/a/b", ".env"));
    assert_eq!("/.env", candidate("/", ".env"));
    assert_eq!("a/conf/app.env", candidate("a", "conf/app.env"));
    assert_eq!(".env", candidate("", ".env"));
}

#[test]
fn candidate_of_an_absolute_filename_is_that_filename() {
    assert_eq!("/etc/app.env", candidate("/a/b", "/etc/app.env"));
}

#[test]
fn regular_file_ends_the_round_with_its_path() {
    match find("/a/b", ".env", Probe::Metadata { is_file: true }) {
        Step::Found(path) => assert_eq!("/a/b/.env", path),
        other => panic!("expected the file, got {:?}", other),
    }
}

#[test]
fn directory_of_the_same_name_is_passed_over() {
    match find("/a/b", ".env", Probe::Metadata { is_file: false }) {
        Step::Ascend(up) => assert_eq!("/a", up),
        other => panic!("expected an ascent, got {:?}", other),
    }
}

#[test]
fn missing_candidate_ascends_to_the_parent() {
    let gone = OsError::new(OsErrorKind::NotFound, String::from("gone"));
    match find("/a/b/c", ".env", Probe::Failed(gone)) {
        Step::Ascend(up) => assert_eq!("/a/b", up),
        other => panic!("expected an ascent, got {:?}", other),
    }
}

#[test]
fn failed_probe_ends_the_round_with_that_failure() {
    let denied = OsError::new(OsErrorKind::PermissionDenied, String::from("permission denied"));
    match find("/a/b", ".env", Probe::Failed(denied)) {
        Step::Failed(error) => {
            assert!(!error.not_found());
            assert_eq!(Some("/a/b/.env"), error.path());
            assert_eq!("/a/b/.env: permission denied", error.to_string());
        }
        other => panic!("expected a failure, got {:?}", other),
    }
    let broken = OsError::new(OsErrorKind::Other, String::from("input/output error"));
    match find("/", ".env", Probe::Failed(broken)) {
        Step::Failed(error) => {
            assert!(!error.not_found());
            assert_eq!(Some("/.env"), error.path());
        }
        other => panic!("expected a failure, got {:?}", other),
    }
}

#[test]
fn root_without_the_file_ends_the_search_as_not_found() {
    match find("/", ".env", Probe::Metadata { is_file: false }) {
        Step::Failed(error) => {
            assert!(error.not_found());
            assert_eq!(Some("/"), error.path());
            assert_eq!("/: path not found", error.to_string());
        }
        other => panic!("expected a failure, got {:?}", other),
    }
    let gone = OsError::new(OsErrorKind::NotFound, String::from("gone"));
    match find("/", ".env", Probe::Failed(gone)) {
        Step::Failed(error) => {
            assert!(error.not_found());
            assert_eq!("/: path not found", error.to_string());
        }
        other => panic!("expected a failure, got {:?}", other),
    }
}

#[test]
fn find_returns_the_file_of_an_ancestor() {
    let mut tree = Tree::new(&["/a/.env", "/a/x/.env", "/a/b/c/d/.env"]);
    tree.directories = vec!["/", "/a", "/a/b", "/a/b/c", "/a/x"];
    assert_eq!("/a/.env", tree.search("/a/b/c", ".env").unwrap());
    assert_eq!(
        vec!["/a/b/c/.env", "/a/b/.env", "/a/.env"],
        *tree.probed.borrow()
    );
}

#[test]
fn find_from_root_without_a_match_is_not_found() {
    let tree = Tree::new(&[]);
    let error = tree.search("/", ".env").unwrap_err();
    assert!(error.not_found());
    assert_eq!(Some("/"), error.path());
    assert_eq!(vec!["/.env"], *tree.probed.borrow());
}

#[test]
fn nearest_file_wins_over_a_farther_one() {
    let tree = Tree::new(&["/.env", "/a/.env", "/a/b/.env"]);
    assert_eq!("/a/b/.env", tree.search("/a/b/c/d", ".env").unwrap());
    assert_eq!("/a/b/.env", tree.search("/a/b", ".env").unwrap());
    assert_eq!("/a/.env", tree.search("/a", ".env").unwrap());
    assert_eq!("/.env", tree.search("/", ".env").unwrap());
    assert_eq!("/.env", tree.search("/z/y", ".env").unwrap());
}

#[test]
fn start_directory_is_probed_first() {
    let tree = Tree::new(&["/a/b/.env", "/a/.env"]);
    assert_eq!("/a/b/.env", tree.search("/a/b", ".env").unwrap());
    assert_eq!(vec!["/a/b/.env"], *tree.probed.borrow());
}

#[test]
fn search_without_any_file_fails_at_the_root() {
    let tree = Tree::new(&["/a/b/other", "/a/x/.env"]);
    let error = tree.search("/a/b/c", ".env").unwrap_err();
    assert!(error.not_found());
    assert_eq!(Some("/"), error.path());
    assert_eq!("/: path not found", error.to_string());
    assert_eq!(
        vec!["/a/b/c/.env", "/a/b/.env", "/a/.env", "/.env"],
        *tree.probed.borrow()
    );
}

#[test]
fn directory_named_like_the_file_does_not_match() {
    let mut tree = Tree::new(&["/a/.env"]);
    tree.directories = vec!["/a/b/.env"];
    assert_eq!("/a/.env", tree.search("/a/b", ".env").unwrap());

    let mut tree = Tree::new(&[]);
    tree.directories = vec!["/a/.env"];
    let error = tree.search("/a", ".env").unwrap_err();
    assert!(error.not_found());
}

#[test]
fn failed_probe_stops_the_search_below_a_file() {
    let mut tree = Tree::new(&["/a/.env"]);
    tree.denied = vec!["/a/b/.env"];
    let error = tree.search("/a/b/c", ".env").unwrap_err();
    assert!(!error.not_found());
    assert_eq!(Some("/a/b/.env"), error.path());
    assert_eq!("/a/b/.env: permission denied", error.to_string());
    assert_eq!(vec!["/a/b/c/.env", "/a/b/.env"], *tree.probed.borrow());
}

#[test]
fn relative_start_ends_at_the_empty_path() {
    let tree = Tree::new(&[]);
    let error = tree.search("a/b", ".env").unwrap_err();
    assert!(error.not_found());
    assert_eq!(Some(""), error.path());
    assert_eq!(vec!["a/b/.env", "a/.env", ".env"], *tree.probed.borrow());

    let tree = Tree::new(&[".env"]);
    assert_eq!(".env", tree.search("a/b", ".env").unwrap());
}

#[test]
fn finder_searches_for_dot_env_by_default() {
    let finder = Finder::new();
    assert_eq!("/a/b/.env", finder.candidate("/a/b"));
    match finder.find("/a/b", Probe::Metadata { is_file: true }) {
        Step::Found(path) => assert_eq!("/a/b/.env", path),
        other => panic!("expected the file, got {:?}", other),
    }
}

#[test]
fn finder_searches_for_the_filename_it_was_given() {
    let finder = Finder::new().filename("settings.env");
    assert_eq!("/a/b/settings.env", finder.candidate("/a/b"));
    match finder.find("/a/b", Probe::Metadata { is_file: true }) {
        Step::Found(path) => assert_eq!("/a/b/settings.env", path),
        other => panic!("expected the file, got {:?}", other),
    }
    let finder = finder.filename("other.env");
    assert_eq!("/other.env", finder.candidate("/"));
}

#[test]
fn finder_decides_a_round_as_find_does() {
    let finder = Finder::new();
    let gone = OsError::new(OsErrorKind::NotFound, String::from("gone"));
    match finder.find("/a/b", Probe::Failed(gone)) {
        Step::Ascend(up) => assert_eq!("/a", up),
        other => panic!("expected an ascent, got {:?}", other),
    }
    match finder.find("/", Probe::Metadata { is_file: false }) {
        Step::Failed(error) => assert!(error.not_found()),
        other => panic!("expected a failure, got {:?}", other),
    }
    let denied = OsError::new(OsErrorKind::PermissionDenied, String::from("denied"));
    match finder.find("/a", Probe::Failed(denied)) {
        Step::Failed(error) => assert_eq!("/a/.env: denied", error.to_string()),
        other => panic!("expected a failure, got {:?}", other),
    }
}

#[test]
fn unresolved_working_directory_fails_without_a_path() {
    let source = OsError::new(OsErrorKind::NotFound, String::from("current directory is gone"));
    let error = unresolved(source);
    assert_eq!(None, error.path());
    assert!(error.not_found());
    assert_eq!("current directory is gone", error.to_string());
}

#[test]
fn unopened_file_fails_at_its_path() {
    let source = OsError::new(OsErrorKind::PermissionDenied, String::from("permission denied"));
    let error = unopened(String::from("/a/.env"), source);
    assert_eq!(Some("/a/.env"), error.path());
    assert!(!error.not_found());
    assert_eq!("/a/.env: permission denied", error.to_string());
}

#[test]
fn candidate_is_what_the_standard_library_joins() {
    let directories = ["/", "/a", "/a/b/", "a/b", "", ".", "..", "/a/./b", "//a"];
    let filenames = [".env", "conf/.env", "/abs/.env", "", "..", "./x"];
    for directory in directories {
        for filename in filenames {
            let joined = Path::new(directory).join(filename);
            assert_eq!(joined.to_str().unwrap(), candidate(directory, filename));
        }
    }
}

#[test]
fn ascent_goes_to_what_the_standard_library_calls_the_parent() {
    let directories = ["/", "/a", "/a/b/", "a/b", "a", "", ".", "..", "/a/./b", "//a", "/a/.."];
    for directory in directories {
        let expected = Path::new(directory).parent().map(|up| up.to_str().unwrap().to_string());
        match find(directory, ".env", Probe::Metadata { is_file: false }) {
            Step::Ascend(up) => assert_eq!(expected, Some(up)),
            Step::Failed(error) => {
                assert_eq!(None, expected);
                assert!(error.not_found());
                assert_eq!(Some(directory), error.path());
            }
            other => panic!("expected an ascent or a failure, got {:?}", other),
        }
    }
}

#[test]
fn decision_on_a_match_is_the_candidate() {
    let up = Some(String::from("C:\\work"));
    let probe = Probe::Metadata { is_file: true };
    match decide("C:\\work\\app", String::from("C:\\work\\app\\.env"), up, probe) {
        Step::Found(path) => assert_eq!("C:\\work\\app\\.env", path),
        other => panic!("expected the file, got {:?}", other),
    }
    match decide("/a", String::from("/a/.env"), None, Probe::Metadata { is_file: true }) {
        Step::Found(path) => assert_eq!("/a/.env", path),
        other => panic!("expected the file, got {:?}", other),
    }
}

#[test]
fn decision_on_a_miss_is_the_way_up() {
    let gone = OsError::new(OsErrorKind::NotFound, String::from("gone"));
    match decide("/a/b", String::from("/a/b/.env"), Some(String::from("/a")), Probe::Failed(gone)) {
        Step::Ascend(up) => assert_eq!("/a", up),
        other => panic!("expected an ascent, got {:?}", other),
    }
    let probe = Probe::Metadata { is_file: false };
    match decide("x", String::from("x/.env"), Some(String::new()), probe) {
        Step::Ascend(up) => assert_eq!("", up),
        other => panic!("expected an ascent, got {:?}", other),
    }
}

#[test]
fn decision_on_a_miss_without_a_way_up_is_not_found() {
    let gone = OsError::new(OsErrorKind::NotFound, String::from("gone"));
    match decide("/", String::from("/.env"), None, Probe::Failed(gone)) {
        Step::Failed(error) => {
            assert!(error.not_found());
            assert_eq!(Some("/"), error.path());
            assert_eq!("/: path not found", error.to_string());
        }
        other => panic!("expected a failure, got {:?}", other),
    }
}

#[test]
fn decision_on_a_fatal_probe_is_that_failure_at_the_candidate() {
    let denied = OsError::new(OsErrorKind::PermissionDenied, String::from("permission denied"));
    match decide("/a/b", String::from("/a/b/.env"), Some(String::from("/a")), Probe::Failed(denied)) {
        Step::Failed(error) => {
            assert!(!error.not_found());
            assert_eq!(Some("/a/b/.env"), error.path());
            assert_eq!("/a/b/.env: permission denied", error.to_string());
        }
        other => panic!("expected a failure, got {:?}", other),
    }
    let broken = OsError::new(OsErrorKind::Other, String::from("input/output error"));
    match decide("/", String::from("/.env"), None, Probe::Failed(broken)) {
        Step::Failed(error) => {
            assert!(!error.not_found());
            assert_eq!("/.env: input/output error", error.to_string());
        }
        other => panic!("expected a failure, got {:?}", other),
    }
}
