//! The operation log: filesystem changes that are queued first and carried
//! out later, all at once.

use crate::fs::Filesystem;
use crate::path::{join, joined};
use vstd::prelude::*;

verus! {

/// One change to the filesystem. Its paths are complete: they were resolved
/// when the operation was queued.
#[derive(Debug, PartialEq, Eq)]
pub enum Op {
    /// Make sure a directory exists, with the directories above it.
    MkDir(String),
    /// Create a repository.
    GitInit(String),
    /// Create a symbolic link at `path` that points at `target`.
    Link { path: String, target: String },
    /// Delete one entry.
    Remove(String),
}

/// An [`Op`] as contracts see it.
pub enum OpView {
    MkDir(Seq<char>),
    GitInit(Seq<char>),
    Link { path: Seq<char>, target: Seq<char> },
    Remove(Seq<char>),
}

impl View for Op {
    type V = OpView;

    open spec fn view(&self) -> OpView {
        match self {
            Op::MkDir(dir) => OpView::MkDir(dir@),
            Op::GitInit(dir) => OpView::GitInit(dir@),
            Op::Link { path, target } => OpView::Link { path: path@, target: target@ },
            Op::Remove(file) => OpView::Remove(file@),
        }
    }
}

/// Why an operation failed.
#[derive(Debug)]
pub enum Error {
    /// A call to the disk failed.
    IoError(std::io::Error),
    /// The version-control layer refused; this is its report.
    Git2Error(String),
}

impl From<std::io::Error> for Error {
    fn from(error: std::io::Error) -> (r: Error) {
        Error::IoError(error)
    }
}

impl vstd::std_specs::convert::FromSpecImpl<std::io::Error> for Error {
    open spec fn obeys_from_spec() -> bool {
        true
    }

    open spec fn from_spec(error: std::io::Error) -> Error {
        Error::IoError(error)
    }
}

/// How one operation ended.
pub type Result = std::result::Result<(), Error>;

/// Whether the options `options` make the creation of a repository fail where
/// one is already there.
pub uninterp spec fn refuses_reinit(options: git2::RepositoryInitOptions) -> bool;

/// `git2::RepositoryInitOptions::new`: the options that the crate starts
/// from. Nothing is claimed of them.
#[verifier::external_body]
fn new_init_options() -> (options: git2::RepositoryInitOptions) {
    git2::RepositoryInitOptions::new()
}

/// `git2::RepositoryInitOptions::no_reinit`: sets or clears the one flag that
/// makes an existing repository an error. Afterwards the options refuse a
/// second initialisation exactly if `enabled`.
#[verifier::external_body]
fn set_no_reinit(options: &mut git2::RepositoryInitOptions, enabled: bool)
    ensures
        refuses_reinit(*final(options)) == enabled,
{
    options.no_reinit(enabled);
}

/// The views of the operations `ops`, in order.
pub open spec fn views(ops: Seq<Op>) -> Seq<OpView> {
    ops.map_values(|op: Op| op@)
}

/// What an answer of the disk means for the operation that asked.
pub open spec fn io_outcome(reply: std::io::Result<()>) -> Result {
    match reply {
        Ok(()) => Ok(()),
        Err(error) => Err(Error::IoError(error)),
    }
}

/// Turns an answer of the disk into the result of the operation that asked.
fn lift_io(reply: std::io::Result<()>) -> (result: Result)
    ensures
        result == io_outcome(reply),
{
    match reply {
        Ok(()) => Ok(()),
        Err(error) => Err(Error::from(error)),
    }
}

/// What an answer of the version-control layer means for the operation that
/// asked.
pub open spec fn git_outcome(reply: std::result::Result<(), String>) -> Result {
    match reply {
        Ok(()) => Ok(()),
        Err(report) => Err(Error::Git2Error(report)),
    }
}

/// Turns an answer of the version-control layer into the result of the
/// operation that asked.
fn lift_git(reply: std::result::Result<(), String>) -> (result: Result)
    ensures
        result == git_outcome(reply),
{
    match reply {
        Ok(()) => Ok(()),
        Err(report) => Err(Error::Git2Error(report)),
    }
}

/// A log as contracts see it: where it is rooted, what is queued, and whether
/// its repositories refuse to be created twice.
pub struct LogView {
    pub root: Seq<char>,
    pub operations: Seq<OpView>,
    pub no_reinit: bool,
}

/// A queue of filesystem operations below one root directory.
///
/// Queuing touches nothing but the queue. [`FileOperations::commit`] carries
/// the queue out, first in first out, and empties it.
pub struct FileOperations {
    root: String,
    operations: Vec<Op>,
    git_init_opts: git2::RepositoryInitOptions,
}

impl View for FileOperations {
    type V = LogView;

    open spec fn view(&self) -> LogView {
        LogView {
            root: self.root(),
            operations: views(self.queued()),
            no_reinit: refuses_reinit(self.git_options()),
        }
    }
}

impl FileOperations {
    /// The directory that relative paths are resolved against.
    pub closed spec fn root(&self) -> Seq<char> {
        self.root@
    }

    /// The queued operations themselves, oldest first.
    pub closed spec fn queued(&self) -> Seq<Op> {
        self.operations@
    }

    /// The options that repositories are created with.
    pub closed spec fn git_options(&self) -> git2::RepositoryInitOptions {
        self.git_init_opts
    }

    /// An empty log rooted at `path`, whose repositories refuse to be created
    /// twice.
    pub fn rooted_at(path: &str) -> (log: FileOperations)
        ensures
            log@.root == path@,
            log@.operations == Seq::<OpView>::empty(),
            log@.no_reinit,
    {
        let log = FileOperations {
            root: path.to_owned(),
            operations: Vec::new(),
            git_init_opts: FileOperations::default_git_opts(),
        };
        assert(views(log.queued()) =~= Seq::<OpView>::empty());
        log
    }

    fn default_git_opts() -> (options: git2::RepositoryInitOptions)
        ensures
            refuses_reinit(options),
    {
        let mut options = new_init_options();
        set_no_reinit(&mut options, true);
        options
    }

    /// The queue, oldest operation first.
    pub fn operations(&self) -> (ops: &Vec<Op>)
        ensures
            ops@ == self.queued(),
    {
        &self.operations
    }

    fn enqueue(&mut self, op: Op)
        ensures
            final(self).queued() == old(self).queued().push(op),
            final(self)@.operations == old(self)@.operations.push(op@),
            final(self).root() == old(self).root(),
            final(self).git_options() == old(self).git_options(),
    {
        self.operations.push(op);
        assert(views(self.queued()) =~= views(old(self).queued()).push(op@));
    }

    /// Queues the creation of the directory `name`, resolved against the root.
    pub fn create_dir(&mut self, name: &str)
        ensures
            final(self)@ == (LogView {
                operations: old(self)@.operations.push(
                    OpView::MkDir(joined(old(self)@.root, name@)),
                ),
                ..old(self)@
            }),
            final(self).git_options() == old(self).git_options(),
    {
        let dir = join(self.root.as_str(), name);
        self.enqueue(Op::MkDir(dir));
    }

    /// Queues a symbolic link at `path`, resolved against the root, that
    /// points at `target`, which is taken as it is.
    pub fn link(&mut self, path: &str, target: &str)
        ensures
            final(self)@ == (LogView {
                operations: old(self)@.operations.push(
                    OpView::Link { path: joined(old(self)@.root, path@), target: target@ },
                ),
                ..old(self)@
            }),
            final(self).git_options() == old(self).git_options(),
    {
        let at = join(self.root.as_str(), path);
        self.enqueue(Op::Link { path: at, target: target.to_owned() });
    }

    /// Queues the removal of the entry `file`, resolved against the root.
    pub fn remove(&mut self, file: &str)
        ensures
            final(self)@ == (LogView {
                operations: old(self)@.operations.push(
                    OpView::Remove(joined(old(self)@.root, file@)),
                ),
                ..old(self)@
            }),
            final(self).git_options() == old(self).git_options(),
    {
        let entry = join(self.root.as_str(), file);
        self.enqueue(Op::Remove(entry));
    }

    /// Queues the creation of a repository at `name`, resolved against the
    /// root.
    pub fn create_git_repo(&mut self, name: &str)
        ensures
            final(self)@ == (LogView {
                operations: old(self)@.operations.push(
                    OpView::GitInit(joined(old(self)@.root, name@)),
                ),
                ..old(self)@
            }),
            final(self).git_options() == old(self).git_options(),
    {
        let dir = join(self.root.as_str(), name);
        self.enqueue(Op::GitInit(dir));
    }

    /// Carries out every queued operation on `fs`, oldest first, and empties
    /// the queue.
    ///
    /// There is one result for each operation, at the operation's place in
    /// the queue. The filesystem goes through one state after another: each
    /// operation is handed to it once, in the state that the one before left,
    /// as one call (the directory made, the repository created with the
    /// options of the log, the link set, the entry deleted), and the
    /// operation's result is what that call answered. Nothing else is asked
    /// of the filesystem. A failure stops nothing that comes after it, and an
    /// empty queue leaves the filesystem as it was.
    pub fn commit<F: Filesystem>(&mut self, fs: &mut F) -> (results: Vec<Result>)
        ensures
            final(self)@ == (LogView { operations: Seq::<OpView>::empty(), ..old(self)@ }),
            final(self).git_options() == old(self).git_options(),
            results.len() == old(self)@.operations.len(),
            old(self)@.operations.len() == 0 ==> *final(fs) == *old(fs),
            exists|states: Seq<F>|
                states.len() == results.len() + 1 && states[0] == *old(fs) && states[results.len() as int]
                    == *final(fs) && (forall|i: int|
                    0 <= i < results.len() ==> match #[trigger] old(self).queued()[i] {
                        Op::MkDir(dir) => exists|disk: &mut F, path: &str, reply: std::io::Result<()>|
                            *disk == states[i] && *final(disk) == states[i + 1] && path@ == dir@
                                && #[trigger] call_ensures(F::create_dir_all, (disk, path), reply)
                                && results[i] == io_outcome(reply),
                        Op::GitInit(dir) => exists|
                            disk: &mut F,
                            path: &str,
                            reply: std::result::Result<(), String>,
                        |
                            *disk == states[i] && *final(disk) == states[i + 1] && path@ == dir@
                                && #[trigger] call_ensures(F::init_repository, (disk, path, &old(self).git_options()), reply)
                                && results[i] == git_outcome(reply),
                        Op::Link { path, target } => exists|
                            disk: &mut F,
                            to: &str,
                            at: &str,
                            reply: std::io::Result<()>,
                        |
                            *disk == states[i] && *final(disk) == states[i + 1] && to@ == target@ && at@ == path@
                                && #[trigger] call_ensures(F::symlink, (disk, to, at), reply)
                                && results[i] == io_outcome(reply),
                        Op::Remove(file) => exists|disk: &mut F, path: &str, reply: std::io::Result<()>|
                            *disk == states[i] && *final(disk) == states[i + 1] && path@ == file@
                                && #[trigger] call_ensures(F::remove, (disk, path), reply)
                                && results[i] == io_outcome(reply),
                    }),
    {
        let mut results: Vec<Result> = Vec::new();
        let ghost mut states: Seq<F> = seq![*fs];
        let mut next: usize = 0;
        while next < self.operations.len()
            invariant
                *self == *old(self),
                next <= self.operations.len(),
                results.len() == next,
                states.len() == next + 1,
                states[0] == *old(fs),
                states[next as int] == *fs,
                forall|i: int|
                    0 <= i < next ==> match #[trigger] self.queued()[i] {
                        Op::MkDir(dir) => exists|disk: &mut F, path: &str, reply: std::io::Result<()>|
                            *disk == states[i] && *final(disk) == states[i + 1] && path@ == dir@
                                && #[trigger] call_ensures(F::create_dir_all, (disk, path), reply)
                                && results[i] == io_outcome(reply),
                        Op::GitInit(dir) => exists|
                            disk: &mut F,
                            path: &str,
                            reply: std::result::Result<(), String>,
                        |
                            *disk == states[i] && *final(disk) == states[i + 1] && path@ == dir@
                                && #[trigger] call_ensures(F::init_repository, (disk, path, &self.git_options()), reply)
                                && results[i] == git_outcome(reply),
                        Op::Link { path, target } => exists|
                            disk: &mut F,
                            to: &str,
                            at: &str,
                            reply: std::io::Result<()>,
                        |
                            *disk == states[i] && *final(disk) == states[i + 1] && to@ == target@ && at@ == path@
                                && #[trigger] call_ensures(F::symlink, (disk, to, at), reply)
                                && results[i] == io_outcome(reply),
                        Op::Remove(file) => exists|disk: &mut F, path: &str, reply: std::io::Result<()>|
                            *disk == states[i] && *final(disk) == states[i + 1] && path@ == file@
                                && #[trigger] call_ensures(F::remove, (disk, path), reply)
                                && results[i] == io_outcome(reply),
                    },
            decreases self.operations.len() - next,
        {
            let ghost before = states;
            let ghost answered = results@;
            let result = self.do_op(fs, &self.operations[next]);
            results.push(result);
            proof {
                states = states.push(*fs);
                assert forall|i: int| 0 <= i < next + 1 implies match #[trigger] self.queued()[i] {
                    Op::MkDir(dir) => exists|disk: &mut F, path: &str, reply: std::io::Result<()>|
                        *disk == states[i] && *final(disk) == states[i + 1] && path@ == dir@
                            && #[trigger] call_ensures(F::create_dir_all, (disk, path), reply)
                            && results[i] == io_outcome(reply),
                    Op::GitInit(dir) => exists|
                        disk: &mut F,
                        path: &str,
                        reply: std::result::Result<(), String>,
                    |
                        *disk == states[i] && *final(disk) == states[i + 1] && path@ == dir@
                            && #[trigger] call_ensures(F::init_repository, (disk, path, &self.git_options()), reply)
                            && results[i] == git_outcome(reply),
                    Op::Link { path, target } => exists|
                        disk: &mut F,
                        to: &str,
                        at: &str,
                        reply: std::io::Result<()>,
                    |
                        *disk == states[i] && *final(disk) == states[i + 1] && to@ == target@ && at@ == path@
                            && #[trigger] call_ensures(F::symlink, (disk, to, at), reply)
                            && results[i] == io_outcome(reply),
                    Op::Remove(file) => exists|disk: &mut F, path: &str, reply: std::io::Result<()>|
                        *disk == states[i] && *final(disk) == states[i + 1] && path@ == file@
                            && #[trigger] call_ensures(F::remove, (disk, path), reply)
                            && results[i] == io_outcome(reply),
                } by {
                    if i < next {
                        assert(states[i] == before[i]);
                        assert(states[i + 1] == before[i + 1]);
                        assert(results[i] == answered[i]);
                    } else {
                        assert(states[i] == before[next as int]);
                        assert(states[i + 1] == *fs);
                        assert(results[i] == result);
                    }
                }
            }
            next = next + 1;
        }
        self.operations.clear();
        assert(views(self.queued()) =~= Seq::<OpView>::empty());
        results
    }

    /// Hands `op` to `fs` as the one call that carries it out.
    fn do_op<F: Filesystem>(&self, fs: &mut F, op: &Op) -> (result: Result)
        ensures
            match *op {
                Op::MkDir(dir) => exists|disk: &mut F, path: &str, reply: std::io::Result<()>|
                    *disk == *old(fs) && *final(disk) == *final(fs) && path@ == dir@
                        && #[trigger] call_ensures(F::create_dir_all, (disk, path), reply)
                        && result == io_outcome(reply),
                Op::GitInit(dir) => exists|
                    disk: &mut F,
                    path: &str,
                    reply: std::result::Result<(), String>,
                |
                    *disk == *old(fs) && *final(disk) == *final(fs) && path@ == dir@
                        && #[trigger] call_ensures(F::init_repository, (disk, path, &self.git_options()), reply)
                        && result == git_outcome(reply),
                Op::Link { path, target } => exists|
                    disk: &mut F,
                    to: &str,
                    at: &str,
                    reply: std::io::Result<()>,
                |
                    *disk == *old(fs) && *final(disk) == *final(fs) && to@ == target@ && at@ == path@
                        && #[trigger] call_ensures(F::symlink, (disk, to, at), reply)
                        && result == io_outcome(reply),
                Op::Remove(file) => exists|disk: &mut F, path: &str, reply: std::io::Result<()>|
                    *disk == *old(fs) && *final(disk) == *final(fs) && path@ == file@
                        && #[trigger] call_ensures(F::remove, (disk, path), reply)
                        && result == io_outcome(reply),
            },
    {
        match op {
            Op::MkDir(dir) => {
                let reply = fs.create_dir_all(dir.as_str());
                lift_io(reply)
            },
            Op::GitInit(dir) => {
                let options = &self.git_init_opts;
                assert(*options == self.git_options());
                let reply = fs.init_repository(dir.as_str(), options);
                lift_git(reply)
            },
            Op::Link { path, target } => {
                let reply = fs.symlink(target.as_str(), path.as_str());
                lift_io(reply)
            },
            Op::Remove(file) => {
                let reply = fs.remove(file.as_str());
                lift_io(reply)
            },
        }
    }
}

} // verus!
