use std::cell::RefCell;
use std::io;
use std::rc::Rc;

use hermit::config::mock::MockConfig;
use hermit::config::{config_path, Config, FilesIter, FsConfig};
use hermit::fs::{Filesystem, WalkItem};

/// What a disk in memory holds: its directories, and its files with their
/// contents.
struct Contents {
    dirs: Vec<String>,
    files: Vec<(String, String)>,
}

/// A disk in memory. Its copies share what it holds.
#[derive(Clone)]
struct Disk(Rc<RefCell<Contents>>);

impl Disk {
    fn new() -> Disk {
        Disk(Rc::new(RefCell::new(Contents { dirs: Vec::new(), files: Vec::new() })))
    }

    fn holds(&self, path: &str) -> bool {
        let held = self.0.borrow();
        held.dirs.iter().any(|d| d == path) || held.files.iter().any(|(f, _)| f == path)
    }

    fn contents(&self, path: &str) -> Option<String> {
        let held = self.0.borrow();
        held.files.iter().find(|(f, _)| f == path).map(|(_, c)| c.clone())
    }

    fn create_dir(&self, path: &str) {
        let mut held = self.0.borrow_mut();
        if !held.dirs.iter().any(|d| d == path) {
            held.dirs.push(path.to_string());
        }
    }
}

impl Filesystem for Disk {
    fn create_dir_all(&mut self, path: &str) -> io::Result<()> {
        let mut upto = String::new();
        for (at, part) in path.split('/').enumerate() {
            if at > 0 {
                upto.push('/');
            }
            upto.push_str(part);
            if !part.is_empty() {
                self.create_dir(&upto);
            }
        }
        Ok(())
    }

    fn init_repository(
        &mut self,
        _path: &str,
        _options: &git2::RepositoryInitOptions,
    ) -> Result<(), String> {
        Ok(())
    }

    fn symlink(&mut self, _target: &str, _link: &str) -> io::Result<()> {
        Ok(())
    }

    fn remove(&mut self, _path: &str) -> io::Result<()> {
        Ok(())
    }

    fn read_to_string(&self, path: &str) -> io::Result<String> {
        match self.contents(path) {
            Some(contents) => Ok(contents),
            None => Err(io::Error::new(io::ErrorKind::NotFound, "no such file")),
        }
    }

    fn write(&mut self, path: &str, contents: &str) -> io::Result<()> {
        if self.is_dir(path) {
            return Err(io::Error::new(io::ErrorKind::Other, "is a directory"));
        }
        let mut held = self.0.borrow_mut();
        held.files.retain(|(f, _)| f != path);
        held.files.push((path.to_string(), contents.to_string()));
        Ok(())
    }

    fn is_dir(&self, path: &str) -> bool {
        self.0.borrow().dirs.iter().any(|d| d == path)
    }

    fn walk(&self, root: &str) -> Vec<WalkItem> {
        let below = format!("{}/", root);
        let held = self.0.borrow();
        let mut items = Vec::new();
        for dir in held.dirs.iter().filter(|d| d.starts_with(&below)) {
            items.push(WalkItem::Entry { path: dir.clone(), is_dir: true });
        }
        for (file, _) in held.files.iter().filter(|(f, _)| f.starts_with(&below)) {
            items.push(WalkItem::Entry { path: file.clone(), is_dir: false });
        }
        items
    }
}

const ROOT: &str = "/tmp/hermit-test";

/// A disk that holds a configuration rooted at `ROOT`: the file that names
/// `current` as the inhabited shell, and a directory for each of `shells`.
fn set_up(_suffix: &str, current: &str, shells: Vec<&str>) -> Disk {
    let mut disk = Disk::new();
    disk.create_dir_all(ROOT).unwrap();
    disk.write(&format!("{}/current_shell", ROOT), current).unwrap();
    disk.create_dir(&format!("{}/shells", ROOT));
    for shell in shells {
        disk.create_dir(&format!("{}/shells/{}", ROOT, shell));
    }
    disk
}

fn create_paths(disk: &Disk, root_path: &str, paths: Vec<&str>) {
    let mut disk = disk.clone();
    for path in paths {
        let full_path = format!("{}/{}", root_path, path);
        let dir_path = full_path.rsplit_once('/').expect("Path had no parent").0;
        disk.create_dir_all(dir_path).expect("Failed to create dir path");
        disk.write(&full_path, "").expect("Could not create file");
    }
}

fn file(path: &str) -> WalkItem {
    WalkItem::Entry { path: path.to_string(), is_dir: false }
}

fn dir(path: &str) -> WalkItem {
    WalkItem::Entry { path: path.to_string(), is_dir: true }
}

fn all(mut iter: FilesIter) -> Vec<String> {
    let mut files = Vec::new();
    while let Some(file) = iter.next() {
        files.push(file);
    }
    files
}

#[test]
fn has_a_root_path() {
    let disk = set_up("root-path", "default", vec!["default"]);
    let config = FsConfig::new(ROOT, disk);
    assert_eq!(config.root_path(), ROOT);
}

#[test]
fn creating_a_config_creates_its_root_dir() {
    let disk = set_up("root-path-create", "default", vec!["default"]);
    let config_root = format!("{}/.hermit", ROOT);

    assert!(!disk.holds(&config_root));
    FsConfig::new(&config_root, disk.clone());
    assert!(disk.holds(&config_root));
}

#[test]
fn returns_the_current_shell_name() {
    let disk = set_up("current-shell-name", "current", vec!["current"]);
    let config = FsConfig::new(ROOT, disk);

    assert_eq!(*config.current_shell_name().unwrap(), "current".to_string());
}

#[test]
fn can_set_the_current_shell_name() {
    let disk = set_up("set-current-shell-name", "default", vec!["default"]);
    let mut config = FsConfig::new(ROOT, disk.clone());
    config.set_current_shell_name("current").unwrap();

    let name_on_disk = disk.contents(&format!("{}/current_shell", ROOT)).unwrap();

    let current = "current".to_string();
    assert_eq!(*config.current_shell_name().unwrap(), current);
    assert_eq!(name_on_disk, current);
}

#[test]
fn can_confirm_a_shell_exists() {
    let disk = set_up(
        "confirm-shell-existence",
        "default",
        vec!["default", "other"],
    );
    let config = FsConfig::new(ROOT, disk);

    assert!(config.shell_exists("other"));
}

#[test]
fn can_confirm_a_shell_does_not_exist() {
    let disk = set_up(
        "confirm-shell-non-existence",
        "default",
        vec!["default", "other"],
    );
    let config = FsConfig::new(ROOT, disk);

    assert!(!config.shell_exists("another"));
}

#[test]
fn can_walk_a_directory() {
    let disk = set_up("walk-directory", "default", vec!["default"]);
    let config = FsConfig::new(ROOT, disk.clone());
    let shell_root = format!("{}/default", config.shell_root_path());
    disk.clone().write(&format!("{}/file1", shell_root), "").expect("Failed to create test file");

    let files = config.shell_files("default");
    assert_eq!(files, vec!["file1"]);
}

#[test]
fn can_walk_a_directory_skipping_subdirectory_entries() {
    let disk = set_up(
        "walk-directory-skipping-subdirs",
        "default",
        vec!["default"],
    );
    let config = FsConfig::new(ROOT, disk.clone());
    let shell_root = format!("{}/default", config.shell_root_path());
    create_paths(&disk, &shell_root, vec!["file1", "subdir/file2"]);

    let files = config.shell_files("default");
    assert!(files.contains(&"file1".into()));
    assert!(files.contains(&"subdir/file2".into()));
    assert!(!files.contains(&"subdir".into()));
}

#[test]
fn lists_the_files_of_the_named_shell() {
    let disk = set_up("walk-named", "default", vec!["default", "other"]);
    let config = FsConfig::new(ROOT, disk.clone());
    let shells = config.shell_root_path();
    create_paths(&disk, &format!("{}/default", shells), vec!["mine"]);
    create_paths(&disk, &format!("{}/other", shells), vec!["theirs"]);

    assert_eq!(config.shell_files("other"), vec!["theirs"]);
    assert_eq!(config.shell_files("default"), vec!["mine"]);
}

#[test]
fn a_shell_that_is_not_there_holds_no_files() {
    let disk = set_up("walk-missing", "default", vec!["default"]);
    let config = FsConfig::new(ROOT, disk);

    assert!(config.shell_files("missing").is_empty());
}

#[test]
fn no_shell_is_current_without_its_file() {
    let config = FsConfig::new(ROOT, Disk::new());

    assert_eq!(config.current_shell_name(), None);
    assert_eq!(config.current_shell_path(), None);
}

#[test]
fn a_failed_write_leaves_the_current_shell_as_it_was() {
    let disk = set_up("set-fails", "default", vec!["default"]);
    let mut config = FsConfig::new(ROOT, disk.clone());
    disk.create_dir(&format!("{}/current_shell", ROOT));

    assert!(config.set_current_shell_name("other").is_err());
    assert_eq!(config.current_shell_name(), Some("default"));
}

#[test]
fn paths_are_built_from_the_root() {
    let disk = set_up("paths", "current", vec!["current"]);
    let config = FsConfig::new(ROOT, disk);

    assert_eq!(config.shell_root_path(), format!("{}/shells", ROOT));
    assert_eq!(config.current_shell_path(), Some(format!("{}/shells/current", ROOT)));
    assert_eq!(config_path(&ROOT.to_string()), format!("{}/current_shell", ROOT));
}

#[test]
fn files_iter_hands_out_files_relative_to_the_prefix() {
    let items = vec![file("/s/d/file1"), dir("/s/d/subdir"), file("/s/d/subdir/file2")];
    let mut iter = FilesIter::new(items, "/s/d");

    assert_eq!(iter.next(), Some("file1".to_string()));
    assert_eq!(iter.next(), Some("subdir/file2".to_string()));
    assert_eq!(iter.next(), None);
    assert_eq!(iter.next(), None);
}

#[test]
fn files_iter_passes_over_what_is_no_file_below_the_prefix() {
    let items = vec![
        dir("/s/d/a"),
        WalkItem::Unreadable,
        file("/elsewhere/x"),
        file("/s/dd/x"),
        file("/s/d/a/b"),
        WalkItem::Unreadable,
        dir("/s/d/z"),
    ];

    assert_eq!(all(FilesIter::new(items, "/s/d")), vec!["a/b"]);
}

#[test]
fn files_iter_keeps_the_order_of_the_walk() {
    let items = vec![file("p/z"), file("p/a"), file("p/m/k")];

    assert_eq!(all(FilesIter::new(items, "p")), vec!["z", "a", "m/k"]);
}

#[test]
fn files_iter_on_an_empty_walk_is_empty() {
    assert_eq!(all(FilesIter::new(Vec::new(), "/s/d")), Vec::<String>::new());
}

#[test]
fn mock_config_starts_with_the_default_shell() {
    let config = MockConfig::new();

    assert_eq!(config.root_path(), "/");
    assert_eq!(config.current_shell_name(), Some("default"));
    assert_eq!(config.shell_root_path(), "/shells");
    assert_eq!(config.current_shell_path(), Some("/shells/default".to_string()));
    assert!(config.shell_exists("default"));
    assert!(!config.shell_exists("missing"));
    assert!(config.shell_files("default").is_empty());
}

#[test]
fn mock_config_reports_the_paths_it_was_given() {
    let mut config = MockConfig::with_root("/cfg");
    config.set_paths(vec![".bashrc", ".boot/profile.boot"]);

    assert_eq!(config.shell_files("default"), vec![".bashrc", ".boot/profile.boot"]);
    assert_eq!(config.root_path(), "/cfg");
}
