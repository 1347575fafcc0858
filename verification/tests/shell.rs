use std::path::{Path, PathBuf};

use hermit::config::mock::MockConfig;
use hermit::file_operations::{FileOperations, Op};
use hermit::shell::{unlink_files, Shell};
use hermit::test_helpers::ops::link_op_for;

fn text(path: impl AsRef<Path>) -> String {
    path.as_ref().to_str().unwrap().to_string()
}

fn root_path(path_str: &str) -> PathBuf {
    PathBuf::from(path_str)
}

fn mock_config<P: AsRef<Path>>(root_path: P) -> MockConfig {
    MockConfig::with_root(&text(root_path))
}

#[test]
fn has_a_name() {
    let config = mock_config("/");
    let s = Shell::new("my_shell", &config);
    assert_eq!(s.name, "my_shell");
}

#[test]
fn has_a_string_name() {
    let config = mock_config("/");
    let s = Shell::new(&String::from("my_shell"), &config);
    assert_eq!(s.name, "my_shell");
}

#[test]
fn can_resolve_its_path() {
    let root_path = root_path("/some/random/path");
    let config = mock_config(root_path.clone());
    let s = Shell::new("default", &config);

    let expected_path = root_path.join("shells").join("default");
    assert_eq!(s.root_path(), text(expected_path));
}

#[test]
fn resolves_empty_string_to_root() {
    let root_path = root_path("/Users/geoff/.config/hermit");
    let config = mock_config(root_path.clone());
    let s = Shell::new("default", &config);

    let expected_path = root_path.join("shells").join("default");
    assert_eq!(s.path_for(""), text(expected_path));
}

#[test]
fn can_resolve_paths() {
    let root_path = root_path("/Users/geoff/.config/hermit");
    let config = mock_config(root_path.clone());
    let s = Shell::new("default", &config);

    let expected_path = root_path.join("shells").join("default").join(".bashrc");
    assert_eq!(s.path_for(".bashrc"), text(expected_path));
}

#[test]
fn can_link_all_paths() {
    let root_path = root_path("/Users/geoff/.config/hermit");
    let mut config = MockConfig::with_root(&text(&root_path));
    config.set_paths(vec![".bashrc", ".boot/profile.boot"]);
    let s = Shell::new("default", &config);
    let op_root = PathBuf::from("op_root");
    let mut file_ops = FileOperations::rooted_at(&text(&op_root));

    s.link(&mut file_ops);

    let shell_root = s.root_path();
    assert_eq!(
        file_ops.operations(),
        &vec![
            link_op_for(&shell_root, &text(&op_root), ".bashrc"),
            link_op_for(&shell_root, &text(&op_root), ".boot/profile.boot")
        ]
    );
}

#[test]
fn can_unlink_all_paths() {
    let root_path = root_path("/Users/geoff/.config/hermit");
    let mut config = MockConfig::with_root(&text(&root_path));
    config.set_paths(vec![".bashrc", ".boot/profile.boot"]);
    let s = Shell::new("default", &config);
    let op_root = PathBuf::from("op_root");
    let mut file_ops = FileOperations::rooted_at(&text(&op_root));

    s.unlink(&mut file_ops);

    assert_eq!(
        file_ops.operations(),
        &vec![
            Op::Remove(text(op_root.join(".bashrc"))),
            Op::Remove(text(op_root.join(".boot/profile.boot")))
        ]
    );
}

#[test]
fn links_point_below_the_shell_root() {
    let mut config = MockConfig::with_root("/cfg");
    config.set_paths(vec![".bashrc", ".boot/profile.boot"]);
    let s = Shell::new("default", &config);
    let mut file_ops = FileOperations::rooted_at("/home/geoff");

    s.link(&mut file_ops);

    assert_eq!(
        file_ops.operations(),
        &vec![
            Op::Link {
                path: "/home/geoff/.bashrc".to_string(),
                target: "/cfg/shells/default/.bashrc".to_string(),
            },
            Op::Link {
                path: "/home/geoff/.boot/profile.boot".to_string(),
                target: "/cfg/shells/default/.boot/profile.boot".to_string(),
            },
        ]
    );
}

#[test]
fn link_files_keeps_what_was_queued_and_follows_the_given_order() {
    let config = MockConfig::with_root("/cfg");
    let s = Shell::new("work", &config);
    let mut file_ops = FileOperations::rooted_at("/home/geoff");
    file_ops.create_dir("first");

    s.link_files(&mut file_ops, &vec!["b".to_string(), "a".to_string()]);

    assert_eq!(
        file_ops.operations(),
        &vec![
            Op::MkDir("/home/geoff/first".to_string()),
            Op::Link {
                path: "/home/geoff/b".to_string(),
                target: "/cfg/shells/work/b".to_string(),
            },
            Op::Link {
                path: "/home/geoff/a".to_string(),
                target: "/cfg/shells/work/a".to_string(),
            },
        ]
    );
}

#[test]
fn unlink_files_queues_one_removal_for_each_file() {
    let mut file_ops = FileOperations::rooted_at("/home/geoff");
    file_ops.create_dir("first");

    unlink_files(&mut file_ops, &vec!["b".to_string(), "sub/a".to_string()]);

    assert_eq!(
        file_ops.operations(),
        &vec![
            Op::MkDir("/home/geoff/first".to_string()),
            Op::Remove("/home/geoff/b".to_string()),
            Op::Remove("/home/geoff/sub/a".to_string()),
        ]
    );
}

#[test]
fn a_shell_without_files_queues_nothing() {
    let config = MockConfig::new();
    let s = Shell::new("default", &config);
    let mut file_ops = FileOperations::rooted_at("/home/geoff");

    s.link(&mut file_ops);
    s.unlink(&mut file_ops);

    assert!(file_ops.operations().is_empty());
}

#[test]
fn link_op_for_joins_both_sides() {
    let op = link_op_for(&"/cfg/shells/default".to_string(), &"/home/geoff".to_string(), ".vimrc");
    assert_eq!(
        op,
        Op::Link {
            path: "/home/geoff/.vimrc".to_string(),
            target: "/cfg/shells/default/.vimrc".to_string(),
        }
    );
}
