//! A shell: a named collection of files that can be linked into a home
//! directory.

use crate::config::{lists_files, shell_path, Config};
use crate::file_operations::{FileOperations, LogView, OpView};
use crate::path::{join, joined, texts};
use vstd::prelude::*;

verus! {

/// The links that put the files `files` of the shell at `shell_root` into the
/// directory `root`: one for each file, in the order of `files`, from the
/// file's place below `root` to its place below `shell_root`.
pub open spec fn link_ops(root: Seq<char>, shell_root: Seq<char>, files: Seq<Seq<char>>) -> Seq<
    OpView,
> {
    Seq::new(
        files.len(),
        |i: int| OpView::Link { path: joined(root, files[i]), target: joined(shell_root, files[i]) },
    )
}

/// The removals that take the files `files` out of the directory `root`: one
/// for each file, in the order of `files`.
pub open spec fn remove_ops(root: Seq<char>, files: Seq<Seq<char>>) -> Seq<OpView> {
    Seq::new(files.len(), |i: int| OpView::Remove(joined(root, files[i])))
}

/// A shell of the configuration `config`. It owns nothing on disk: what it
/// holds is asked of the configuration each time.
pub struct Shell<'a, T: Config> {
    pub name: String,
    pub config: &'a T,
}

impl<'a, T: Config> Shell<'a, T> {
    /// The directory of this shell: its name below the directory of the
    /// shells.
    pub open spec fn root(&self) -> Seq<char> {
        shell_path(self.config.root(), self.name@)
    }

    /// The shell called `name` of `config`.
    pub fn new(name: &str, config: &'a T) -> (shell: Shell<'a, T>)
        ensures
            shell.name@ == name@,
            shell.config == config,
    {
        Shell { name: name.to_owned(), config }
    }

    /// The directory of this shell.
    pub fn root_path(&self) -> (path: String)
        ensures
            path@ == self.root(),
    {
        join(self.config.shell_root_path().as_str(), self.name.as_str())
    }

    /// The place of the file `filename` in this shell. The empty name stands
    /// for the shell's directory itself.
    pub fn path_for(&self, filename: &str) -> (path: String)
        ensures
            path@ == joined(self.root(), filename@),
            filename@.len() == 0 ==> path@ == self.root(),
    {
        join(self.root_path().as_str(), filename)
    }

    /// Queues on `file_operations` one link for each file that the
    /// configuration lists for this shell, in the order of the listing.
    pub fn link(&self, file_operations: &mut FileOperations)
        ensures
            exists|files: Seq<Seq<char>>|
                lists_files(*self.config, self.name@, files) && #[trigger] links_queued(
                    *old(file_operations),
                    *final(file_operations),
                    self.root(),
                    files,
                ),
    {
        let files = self.config.shell_files(self.name.as_str());
        self.link_files(file_operations, &files);
        assert(links_queued(
            *old(file_operations),
            *file_operations,
            self.root(),
            texts(files@),
        ));
    }

    /// Queues on `file_operations` one link for each of `files`, in order:
    /// from the file's place below the root of the log to its place in this
    /// shell.
    pub fn link_files(&self, file_operations: &mut FileOperations, files: &Vec<String>)
        ensures
            links_queued(*old(file_operations), *final(file_operations), self.root(), texts(files@)),
    {
        let shell_root = self.root_path();
        let ghost root = file_operations@.root;
        let mut next: usize = 0;
        assert(file_operations@.operations =~= old(file_operations)@.operations + link_ops(
            root,
            shell_root@,
            texts(files@).take(0),
        ));
        while next < files.len()
            invariant
                next <= files.len(),
                shell_root@ == self.root(),
                root == old(file_operations)@.root,
                file_operations.git_options() == old(file_operations).git_options(),
                file_operations@ == (LogView {
                    operations: old(file_operations)@.operations + link_ops(
                        root,
                        shell_root@,
                        texts(files@).take(next as int),
                    ),
                    ..old(file_operations)@
                }),
            decreases files.len() - next,
        {
            let file = files[next].as_str();
            let target = join(shell_root.as_str(), file);
            file_operations.link(file, target.as_str());
            proof {
                let done = texts(files@).take(next as int);
                let more = texts(files@).take(next + 1);
                assert(more[next as int] == file@);
                assert(link_ops(root, shell_root@, more) =~= link_ops(root, shell_root@, done).push(
                    OpView::Link { path: joined(root, file@), target: target@ },
                ));
                assert(old(file_operations)@.operations + link_ops(root, shell_root@, more) =~= (
                old(file_operations)@.operations + link_ops(root, shell_root@, done)).push(
                    OpView::Link { path: joined(root, file@), target: target@ },
                ));
            }
            next = next + 1;
        }
        assert(texts(files@).take(files.len() as int) =~= texts(files@));
    }

    /// Queues on `file_operations` one removal for each file that the
    /// configuration lists for this shell, in the order of the listing.
    /// Whatever lies at those places below the root of the log is removed,
    /// a link to this shell or not.
    pub fn unlink(&self, file_operations: &mut FileOperations)
        ensures
            exists|files: Seq<Seq<char>>|
                lists_files(*self.config, self.name@, files) && #[trigger] removals_queued(
                    *old(file_operations),
                    *final(file_operations),
                    files,
                ),
    {
        let files = self.config.shell_files(self.name.as_str());
        unlink_files(file_operations, &files);
        assert(removals_queued(*old(file_operations), *file_operations, texts(files@)));
    }
}

/// Whether `after` is `before` with the links of `files` to the shell at
/// `shell_root` queued behind what was there, and nothing else changed.
pub open spec fn links_queued(
    before: FileOperations,
    after: FileOperations,
    shell_root: Seq<char>,
    files: Seq<Seq<char>>,
) -> bool {
    &&& after.git_options() == before.git_options()
    &&& after@ == (LogView {
        operations: before@.operations + link_ops(before@.root, shell_root, files),
        ..before@
    })
}

/// Whether `after` is `before` with the removals of `files` queued behind what
/// was there, and nothing else changed.
pub open spec fn removals_queued(
    before: FileOperations,
    after: FileOperations,
    files: Seq<Seq<char>>,
) -> bool {
    &&& after.git_options() == before.git_options()
    &&& after@ == (LogView {
        operations: before@.operations + remove_ops(before@.root, files),
        ..before@
    })
}

/// Moving out of one shell and into another removes before it links: of the
/// operations queued for the files `stale` of the old shell and the files
/// `fresh` of the new one, the first are the removals of `stale`, in order,
/// and the rest are the links of `fresh`, in order.
pub proof fn lemma_removals_come_before_links(
    root: Seq<char>,
    shell_root: Seq<char>,
    stale: Seq<Seq<char>>,
    fresh: Seq<Seq<char>>,
)
    ensures
        (remove_ops(root, stale) + link_ops(root, shell_root, fresh)).len() == stale.len()
            + fresh.len(),
        forall|i: int|
            0 <= i < stale.len() ==> #[trigger] (remove_ops(root, stale) + link_ops(
                root,
                shell_root,
                fresh,
            ))[i] == OpView::Remove(joined(root, stale[i])),
        forall|i: int|
            0 <= i < fresh.len() ==> #[trigger] (remove_ops(root, stale) + link_ops(
                root,
                shell_root,
                fresh,
            ))[stale.len() + i] == (OpView::Link {
                path: joined(root, fresh[i]),
                target: joined(shell_root, fresh[i]),
            }),
{
}

/// Queues on `file_operations` one removal for each of `files`, in order, at
/// the file's place below the root of the log.
pub fn unlink_files(file_operations: &mut FileOperations, files: &Vec<String>)
    ensures
        removals_queued(*old(file_operations), *final(file_operations), texts(files@)),
{
    let ghost root = file_operations@.root;
    let mut next: usize = 0;
    assert(file_operations@.operations =~= old(file_operations)@.operations + remove_ops(
        root,
        texts(files@).take(0),
    ));
    while next < files.len()
        invariant
            next <= files.len(),
            root == old(file_operations)@.root,
            file_operations.git_options() == old(file_operations).git_options(),
            file_operations@ == (LogView {
                operations: old(file_operations)@.operations + remove_ops(
                    root,
                    texts(files@).take(next as int),
                ),
                ..old(file_operations)@
            }),
        decreases files.len() - next,
    {
        let file = files[next].as_str();
        file_operations.remove(file);
        proof {
            let done = texts(files@).take(next as int);
            let more = texts(files@).take(next + 1);
            assert(more[next as int] == file@);
            assert(remove_ops(root, more) =~= remove_ops(root, done).push(
                OpView::Remove(joined(root, file@)),
            ));
            assert(old(file_operations)@.operations + remove_ops(root, more) =~= (old(
                file_operations,
            )@.operations + remove_ops(root, done)).push(OpView::Remove(joined(root, file@))));
        }
        next = next + 1;
    }
    assert(texts(files@).take(files.len() as int) =~= texts(files@));
}

} // verus!
