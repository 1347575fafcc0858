//! The calls that reach the disk.
//!
//! The library decides what is done and in which order. Doing it is left to a
//! [`Filesystem`], which the caller supplies: nothing is promised of its
//! answers, so every contract that depends on one speaks of the answers that
//! the given filesystem may return. A call that changes the disk takes the
//! filesystem by `&mut`, so that contracts can say in which state each call
//! found it and in which state it left it.

use vstd::prelude::*;

verus! {

/// `std::io::Error`, carried through as it came. Nothing is known of what it
/// holds.
#[verifier::external_type_specification]
#[verifier::external_body]
pub struct ExIoError(std::io::Error);

/// `git2::RepositoryInitOptions`, the settings of a repository that is about
/// to be created. Its fields are private to its crate.
#[verifier::external_type_specification]
#[verifier::external_body]
pub struct ExRepositoryInitOptions(git2::RepositoryInitOptions);

/// What a walk through a directory tree met at one step.
#[derive(Debug, PartialEq, Eq)]
pub enum WalkItem {
    /// An entry, with its full path, and whether it is a directory.
    Entry { path: String, is_dir: bool },
    /// An entry that could not be read.
    Unreadable,
}

/// Access to the disk and to the version-control layer.
pub trait Filesystem {
    /// Makes sure the directory `path` exists, with all the directories above
    /// it.
    fn create_dir_all(&mut self, path: &str) -> std::io::Result<()>;

    /// Creates a repository at `path`; the error is the report of the
    /// version-control layer, in words.
    fn init_repository(&mut self, path: &str, options: &git2::RepositoryInitOptions) -> Result<
        (),
        String,
    >;

    /// Creates a symbolic link at `link` that points at `target`.
    fn symlink(&mut self, target: &str, link: &str) -> std::io::Result<()>;

    /// Deletes the one entry at `path`.
    fn remove(&mut self, path: &str) -> std::io::Result<()>;

    /// Reads the file at `path` as text.
    fn read_to_string(&self, path: &str) -> std::io::Result<String>;

    /// Replaces what the file at `path` holds by `contents`.
    fn write(&mut self, path: &str, contents: &str) -> std::io::Result<()>;

    /// Tells whether `path` is a directory.
    fn is_dir(&self, path: &str) -> bool;

    /// Lists what lies below the directory `root`, links not followed, `root`
    /// itself left out.
    fn walk(&self, root: &str) -> Vec<WalkItem>;
}

} // verus!
