use caffeineclipper::store::{
    capture, capture_into, store_under, Capture, IoOutcome, StoreAction, StoreStep, TokenStore,
    APP_NAMESPACE, TOKEN_FILE_NAME,
};
use std::collections::{BTreeMap, BTreeSet};
use std::path::{Path, PathBuf};

/// A disk in memory: a write needs the directory of its file.
struct Disk {
    directories: BTreeSet<PathBuf>,
    files: BTreeMap<PathBuf, Vec<u8>>,
    log: Vec<String>,
}

impl Disk {
    fn new() -> Disk {
        Disk { directories: BTreeSet::new(), files: BTreeMap::new(), log: Vec::new() }
    }

    fn create_dir_all(&mut self, path: &Path) -> IoOutcome {
        self.log.push(format!("mkdir {}", path.display()));
        for ancestor in path.ancestors() {
            self.directories.insert(ancestor.to_path_buf());
        }
        IoOutcome::Succeeded
    }

    fn write(&mut self, path: &Path, contents: &[u8]) -> IoOutcome {
        self.log.push(format!("write {}", path.display()));
        match path.parent() {
            Some(parent) if self.directories.contains(parent) => {
                self.files.insert(path.to_path_buf(), contents.to_vec());
                IoOutcome::Succeeded
            }
            _ => IoOutcome::Failed,
        }
    }

    fn perform(&mut self, action: StoreAction<'_>) -> IoOutcome {
        match action {
            StoreAction::EnsureDirectory { root, namespace } => {
                self.create_dir_all(&root.join(namespace))
            }
            StoreAction::WriteToken { root, namespace, file_name, contents } => {
                self.write(&root.join(namespace).join(file_name), contents.as_bytes())
            }
        }
    }

    /// Performs the pending operation of `capture`, if there is one.
    fn step(&mut self, capture: &mut Capture) -> bool {
        let outcome = match capture.pending() {
            Some(action) => self.perform(action),
            None => return false,
        };
        capture.advance(outcome);
        true
    }

    fn run(&mut self, capture: &mut Capture) {
        while self.step(capture) {}
    }

    fn token_file(&self, root: &str) -> Option<&[u8]> {
        let path = Path::new(root).join("dev.chand1012.caffeineclipper").join("token.txt");
        self.files.get(&path).map(|bytes| bytes.as_slice())
    }
}

fn begin(root: &str, token: &str) -> Capture {
    Capture::begin(TokenStore::under(PathBuf::from(root)), token.to_string())
}

#[test]
fn store_layout_is_fixed() {
    assert_eq!(APP_NAMESPACE, "dev.chand1012.caffeineclipper");
    assert_eq!(TOKEN_FILE_NAME, "token.txt");
    let store = TokenStore::under(PathBuf::from("/home/alice/.config"));
    assert_eq!(store.root, PathBuf::from("/home/alice/.config"));
}

#[test]
fn capture_asks_for_the_directory_first() {
    let capture = begin("/home/alice/.config", "abc123");
    match capture.pending() {
        Some(StoreAction::EnsureDirectory { root, namespace }) => {
            assert_eq!(root, &PathBuf::from("/home/alice/.config"));
            assert_eq!(namespace, "dev.chand1012.caffeineclipper");
        }
        other => panic!("expected the directory, got {:?}", other),
    }
    assert!(capture.result().is_none());
}

#[test]
fn capture_writes_the_token_after_the_directory() {
    let mut capture = begin("/home/alice/.config", "abc123");
    capture.advance(IoOutcome::Succeeded);
    match capture.pending() {
        Some(StoreAction::WriteToken { root, namespace, file_name, contents }) => {
            assert_eq!(root, &PathBuf::from("/home/alice/.config"));
            assert_eq!(namespace, "dev.chand1012.caffeineclipper");
            assert_eq!(file_name, "token.txt");
            assert_eq!(contents, "abc123");
        }
        other => panic!("expected the write, got {:?}", other),
    }
    assert!(capture.result().is_none());
    capture.advance(IoOutcome::Succeeded);
    assert!(capture.pending().is_none());
    assert!(matches!(capture.result(), Some(Ok(()))));
}

#[test]
fn capture_stores_exactly_the_token() {
    for token in ["abc123", "", " leading and trailing ", "line\nbreak\n", "a+b%20c", "ключ-🔑"] {
        let mut disk = Disk::new();
        let mut capture = begin("/cfg", token);
        disk.run(&mut capture);
        assert!(matches!(capture.result(), Some(Ok(()))));
        assert_eq!(disk.token_file("/cfg"), Some(token.as_bytes()));
        assert_eq!(disk.files.len(), 1);
    }
}

#[test]
fn capturing_twice_is_capturing_once() {
    let mut once = Disk::new();
    once.run(&mut begin("/cfg", "abc123"));
    let mut twice = Disk::new();
    twice.run(&mut begin("/cfg", "abc123"));
    twice.run(&mut begin("/cfg", "abc123"));
    assert_eq!(once.directories, twice.directories);
    assert_eq!(once.files, twice.files);
    assert_eq!(twice.token_file("/cfg"), Some("abc123".as_bytes()));
}

#[test]
fn later_capture_replaces_the_token() {
    let mut disk = Disk::new();
    disk.run(&mut begin("/cfg", "a-long-first-token"));
    disk.run(&mut begin("/cfg", "short"));
    assert_eq!(disk.token_file("/cfg"), Some("short".as_bytes()));
    assert_eq!(disk.files.len(), 1);
}

#[test]
fn overlapping_captures_last_write_wins() {
    let mut disk = Disk::new();
    let mut first = begin("/cfg", "T1");
    let mut second = begin("/cfg", "T2");
    assert!(disk.step(&mut second));
    assert!(disk.step(&mut first));
    assert!(disk.step(&mut first));
    assert_eq!(disk.token_file("/cfg"), Some("T1".as_bytes()));
    assert!(disk.step(&mut second));
    assert!(!disk.step(&mut first));
    assert!(!disk.step(&mut second));
    assert!(matches!(first.result(), Some(Ok(()))));
    assert!(matches!(second.result(), Some(Ok(()))));
    assert_eq!(disk.token_file("/cfg"), Some("T2".as_bytes()));
}

#[test]
fn capture_bootstraps_the_directory() {
    let mut disk = Disk::new();
    assert!(disk.directories.is_empty());
    let mut capture = begin("/home/alice/.config", "abc123");
    disk.run(&mut capture);
    assert!(matches!(capture.result(), Some(Ok(()))));
    for expected in [
        "/",
        "/home",
        "/home/alice",
        "/home/alice/.config",
        "/home/alice/.config/dev.chand1012.caffeineclipper",
    ] {
        assert!(disk.directories.contains(Path::new(expected)), "missing {}", expected);
    }
    assert_eq!(
        disk.log,
        vec![
            "mkdir /home/alice/.config/dev.chand1012.caffeineclipper".to_string(),
            "write /home/alice/.config/dev.chand1012.caffeineclipper/token.txt".to_string(),
        ]
    );
}

#[test]
fn a_write_without_the_directory_cannot_succeed() {
    let mut disk = Disk::new();
    let outcome = disk.write(Path::new("/cfg/dev.chand1012.caffeineclipper/token.txt"), b"x");
    assert_eq!(outcome, IoOutcome::Failed);
}

#[test]
fn failed_directory_ends_the_capture_without_a_write() {
    let mut capture = begin("/cfg", "abc123");
    capture.advance(IoOutcome::Failed);
    assert!(capture.pending().is_none());
    match capture.result() {
        Some(Err(failure)) => {
            assert_eq!(failure.step, StoreStep::EnsureDirectory);
            assert_eq!(failure.root, &PathBuf::from("/cfg"));
            assert_eq!(failure.namespace, "dev.chand1012.caffeineclipper");
        }
        other => panic!("expected a failure, got {:?}", other),
    }
}

#[test]
fn failed_write_ends_the_capture() {
    let mut capture = begin("/cfg", "abc123");
    capture.advance(IoOutcome::Succeeded);
    capture.advance(IoOutcome::Failed);
    assert!(capture.pending().is_none());
    match capture.result() {
        Some(Err(failure)) => {
            assert_eq!(failure.step, StoreStep::WriteToken);
            assert_eq!(failure.root, &PathBuf::from("/cfg"));
            assert_eq!(failure.namespace, "dev.chand1012.caffeineclipper");
        }
        other => panic!("expected a failure, got {:?}", other),
    }
}

#[test]
fn a_finished_capture_takes_no_more_reports() {
    let mut stored = begin("/cfg", "abc123");
    stored.advance(IoOutcome::Succeeded);
    stored.advance(IoOutcome::Succeeded);
    stored.advance(IoOutcome::Failed);
    stored.advance(IoOutcome::Succeeded);
    assert!(matches!(stored.result(), Some(Ok(()))));

    let mut failed = begin("/cfg", "abc123");
    failed.advance(IoOutcome::Failed);
    failed.advance(IoOutcome::Succeeded);
    failed.advance(IoOutcome::Succeeded);
    assert!(failed.pending().is_none());
    match failed.result() {
        Some(Err(failure)) => assert_eq!(failure.step, StoreStep::EnsureDirectory),
        other => panic!("expected a failure, got {:?}", other),
    }
}

#[test]
fn capture_into_the_users_store_starts_with_the_directory() {
    match capture("abc123".to_string()) {
        Some(started) => {
            match started.pending() {
                Some(StoreAction::EnsureDirectory { namespace, .. }) => {
                    assert_eq!(namespace, "dev.chand1012.caffeineclipper");
                }
                other => panic!("expected the directory, got {:?}", other),
            }
            assert!(started.result().is_none());
        }
        None => assert!(TokenStore::locate().is_none()),
    }
}

#[test]
fn store_under_a_root_is_below_it() {
    let store = store_under(Some(PathBuf::from("/home/alice/.config")));
    assert_eq!(store.map(|place| place.root), Some(PathBuf::from("/home/alice/.config")));
}

#[test]
fn no_root_no_store() {
    assert!(store_under(None).is_none());
}

#[test]
fn capture_into_a_store_starts_there_with_the_directory() {
    let store = TokenStore::under(PathBuf::from("/cfg"));
    let mut started = capture_into(Some(store), "abc123".to_string()).expect("a store was given");
    match started.pending() {
        Some(StoreAction::EnsureDirectory { root, namespace }) => {
            assert_eq!(root, &PathBuf::from("/cfg"));
            assert_eq!(namespace, "dev.chand1012.caffeineclipper");
        }
        other => panic!("expected the directory, got {:?}", other),
    }
    started.advance(IoOutcome::Succeeded);
    match started.pending() {
        Some(StoreAction::WriteToken { contents, .. }) => assert_eq!(contents, "abc123"),
        other => panic!("expected the write, got {:?}", other),
    }
}

#[test]
fn no_store_no_capture() {
    assert!(capture_into(None, "abc123".to_string()).is_none());
}

#[test]
fn locate_and_capture_agree_on_whether_there_is_a_store() {
    let located = TokenStore::locate();
    let started = capture("abc123".to_string());
    assert_eq!(located.is_some(), started.is_some());
    if let (Some(place), Some(started)) = (located, started) {
        match started.pending() {
            Some(StoreAction::EnsureDirectory { root, .. }) => assert_eq!(root, &place.root),
            other => panic!("expected the directory, got {:?}", other),
        }
    }
}
