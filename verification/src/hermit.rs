//! Moving into a shell: which operations bring the files of one shell into
//! the home directory and take those of another out.

use crate::config::{
    answers_exists, lemma_shells_root_has_parent, lists_files, shell_path, shells_root, Config,
};
use crate::file_operations::{FileOperations, LogView, OpView};
use crate::path::{parent, parent_of, joined};
use crate::shell::{link_ops, links_queued, remove_ops, removals_queued, Shell};
use vstd::prelude::*;

verus! {

/// Why a request could not be met.
#[derive(Clone, Debug, PartialEq, Eq)]
pub enum Error {
    /// The named subcommand is not there yet.
    SubcommandNotImplemented(&'static str),
    /// There is no shell of that name.
    ShellDoesNotExist,
    /// No shell is inhabited.
    NoActiveShell,
}

impl From<std::io::Error> for Error {
    fn from(error: std::io::Error) -> (r: Error) {
        Error::ShellDoesNotExist
    }
}

impl vstd::std_specs::convert::FromSpecImpl<std::io::Error> for Error {
    open spec fn obeys_from_spec() -> bool {
        true
    }

    open spec fn from_spec(error: std::io::Error) -> Error {
        Error::ShellDoesNotExist
    }
}

pub type Result<T> = std::result::Result<T, Error>;

/// The operations that `init_shell` queues for the shell `name` of a
/// configuration rooted at `config_root`, below the root `root` of the log:
/// the directory that holds the directory of the shells is made, then the
/// repository is created in the shell's directory.
pub open spec fn init_ops(root: Seq<char>, config_root: Seq<char>, name: Seq<char>) -> Seq<OpView> {
    seq![
        OpView::MkDir(joined(root, parent_of(shells_root(config_root))->0)),
        OpView::GitInit(joined(root, shell_path(config_root, name))),
    ]
}

/// Whether `after` is `before` with `ops` queued behind what was there, and
/// nothing else changed.
pub open spec fn queued_behind(before: FileOperations, after: FileOperations, ops: Seq<OpView>) -> bool {
    &&& after.git_options() == before.git_options()
    &&& after@ == (LogView { operations: before@.operations + ops, ..before@ })
}

/// The owner of a configuration, through which shells are created and
/// inhabited. It alone changes the configuration.
pub struct Hermit<T: Config> {
    config: T,
}

impl<T: Config> View for Hermit<T> {
    type V = T;

    /// The configuration as it stands.
    closed spec fn view(&self) -> T {
        self.config
    }
}

impl<T: Config> Hermit<T> {
    pub fn new(config: T) -> (hermit: Hermit<T>)
        ensures
            hermit@ == config,
    {
        Hermit { config }
    }

    /// The configuration as it stands.
    pub fn config(&self) -> (config: &T)
        ensures
            *config == self@,
    {
        &self.config
    }

    /// The inhabited shell, or `NoActiveShell` where none is.
    pub fn current_shell(&self) -> (shell: Result<Shell<'_, T>>)
        ensures
            match shell {
                Ok(current) => self@.current() == Some(current.name@) && *current.config
                    == self@,
                Err(error) => error == Error::NoActiveShell && self@.current() is None,
            },
    {
        match self.config.current_shell_name() {
            Some(shell_name) => Ok(Shell::new(shell_name, &self.config)),
            None => Err(Error::NoActiveShell),
        }
    }

    /// Records `name` as the inhabited shell: the configuration is asked to
    /// record it, once, and the call succeeds exactly if the configuration
    /// does. Where it cannot record the name, the inhabited shell stays what
    /// it was and the call fails with `ShellDoesNotExist`.
    pub fn set_current_shell(&mut self, name: &str) -> (done: Result<()>)
        ensures
            final(self)@.root() == old(self)@.root(),
            exists|config: &mut T, asked: &str, reply: std::io::Result<()>|
                *config == old(self)@ && *final(config) == final(self)@ && asked@ == name@
                    && #[trigger] call_ensures(T::set_current_shell_name, (config, asked), reply)
                    && (done is Ok <==> reply is Ok),
            match done {
                Ok(()) => final(self)@.current() == Some(name@),
                Err(error) => error == Error::ShellDoesNotExist && final(self)@.current()
                    == old(self)@.current(),
            },
    {
        match self.config.set_current_shell_name(name) {
            Ok(()) => Ok(()),
            Err(error) => Err(Error::from(error)),
        }
    }

    /// Makes `name` the inhabited shell and queues what creates it: first the
    /// directory that holds the directory of the shells, then a repository in
    /// the shell's directory. The shell need not have been there before.
    ///
    /// The configuration is asked to record the name, once, and the call
    /// succeeds exactly if it does. Where the name cannot be recorded the
    /// call fails, nothing is queued and the inhabited shell stays what it
    /// was.
    pub fn init_shell(&mut self, file_ops: &mut FileOperations, name: &str) -> (done: Result<()>)
        ensures
            final(self)@.root() == old(self)@.root(),
            exists|config: &mut T, asked: &str, reply: std::io::Result<()>|
                *config == old(self)@ && *final(config) == final(self)@ && asked@ == name@
                    && #[trigger] call_ensures(T::set_current_shell_name, (config, asked), reply)
                    && (done is Ok <==> reply is Ok),
            match done {
                Ok(()) => final(self)@.current() == Some(name@) && queued_behind(
                    *old(file_ops),
                    *final(file_ops),
                    init_ops(old(file_ops)@.root, old(self)@.root(), name@),
                ),
                Err(error) => error == Error::ShellDoesNotExist && final(self)@.current()
                    == old(self)@.current() && *final(file_ops) == *old(file_ops),
            },
    {
        match self.set_current_shell(name) {
            Ok(()) => {},
            Err(error) => {
                return Err(error);
            },
        }
        let new_shell = match self.current_shell() {
            Ok(shell) => shell,
            Err(error) => {
                return Err(error);
            },
        };
        let path = new_shell.root_path();
        let shells = new_shell.config.shell_root_path();
        proof {
            lemma_shells_root_has_parent(old(self)@.root());
        }
        let parent = parent(shells.as_str()).unwrap();
        file_ops.create_dir(parent.as_str());
        file_ops.create_git_repo(path.as_str());
        assert(file_ops@.operations =~= old(file_ops)@.operations + init_ops(
            old(file_ops)@.root,
            old(self)@.root(),
            name@,
        ));
        Ok(())
    }

    /// Moves into the shell `name`.
    ///
    /// The configuration is asked whether the shell exists. Unless it says
    /// so, the call fails with `ShellDoesNotExist`, and neither the queue nor
    /// the configuration has changed. Otherwise the removals of the files of
    /// the shell inhabited so far are queued, if there is one; `name` is
    /// recorded as the inhabited shell; and the links to the files of the new
    /// shell are queued behind the removals. Where the name cannot be
    /// recorded the call fails with `ShellDoesNotExist` too: the removals
    /// stay queued, no link is, and the inhabited shell stays what it was.
    pub fn inhabit(&mut self, file_ops: &mut FileOperations, name: &str) -> (done: Result<()>)
        ensures
            final(self)@.root() == old(self)@.root(),
            !answers_exists(old(self)@, name@, true) ==> done == Err::<(), Error>(
                Error::ShellDoesNotExist,
            ) && *final(file_ops) == *old(file_ops) && final(self)@ == old(self)@,
            (answers_exists(old(self)@, name@, false) && done is Err && final(self)@ == old(self)@
                && *final(file_ops) == *old(file_ops)) || (answers_exists(
                old(self)@,
                name@,
                true,
            ) && (exists|config: &mut T, asked: &str, reply: std::io::Result<()>|
                *config == old(self)@ && *final(config) == final(self)@ && asked@ == name@
                    && #[trigger] call_ensures(T::set_current_shell_name, (config, asked), reply)
                    && (done is Ok <==> reply is Ok))),
            match done {
                Ok(()) => {
                    &&& answers_exists(old(self)@, name@, true)
                    &&& final(self)@.current() == Some(name@)
                    &&& exists|stale: Seq<Seq<char>>, fresh: Seq<Seq<char>>|
                        #![trigger remove_ops(old(file_ops)@.root, stale), link_ops(old(file_ops)@.root, shell_path(old(self)@.root(), name@), fresh)]
                        {
                            &&& unlinks(old(self)@, stale)
                            &&& lists_files(final(self)@, name@, fresh)
                            &&& queued_behind(
                                *old(file_ops),
                                *final(file_ops),
                                remove_ops(old(file_ops)@.root, stale) + link_ops(
                                    old(file_ops)@.root,
                                    shell_path(old(self)@.root(), name@),
                                    fresh,
                                ),
                            )
                        }
                },
                Err(error) => {
                    &&& error == Error::ShellDoesNotExist
                    &&& final(self)@.current() == old(self)@.current()
                    &&& {
                        ||| answers_exists(old(self)@, name@, false) && *final(file_ops)
                            == *old(file_ops) && final(self)@ == old(self)@
                        ||| answers_exists(old(self)@, name@, true) && exists|
                            stale: Seq<Seq<char>>,
                        |
                            unlinks(old(self)@, stale) && #[trigger] queued_behind(
                                *old(file_ops),
                                *final(file_ops),
                                remove_ops(old(file_ops)@.root, stale),
                            )
                    }
                },
            },
    {
        if self.config.shell_exists(name) {
            let ghost stale: Seq<Seq<char>>;
            match self.current_shell() {
                Ok(shell) => {
                    shell.unlink(file_ops);
                    proof {
                        stale = choose|files: Seq<Seq<char>>|
                            lists_files(*shell.config, shell.name@, files) && #[trigger] removals_queued(
                                *old(file_ops),
                                *file_ops,
                                files,
                            );
                    }
                },
                Err(_) => {
                    proof {
                        stale = Seq::empty();
                        assert(file_ops@.operations =~= old(file_ops)@.operations + remove_ops(
                            old(file_ops)@.root,
                            stale,
                        ));
                    }
                },
            }
            assert(unlinks(old(self)@, stale));
            assert(queued_behind(*old(file_ops), *file_ops, remove_ops(old(file_ops)@.root, stale)));
            let ghost unlinked = *file_ops;
            match self.set_current_shell(name) {
                Ok(()) => {},
                Err(error) => {
                    return Err(error);
                },
            }
            match self.current_shell() {
                Ok(shell) => {
                    shell.link(file_ops);
                    proof {
                        let fresh = choose|files: Seq<Seq<char>>|
                            lists_files(*shell.config, shell.name@, files) && #[trigger] links_queued(
                                unlinked,
                                *file_ops,
                                shell.root(),
                                files,
                            );
                        let root = old(file_ops)@.root;
                        let target = shell_path(old(self)@.root(), name@);
                        assert(file_ops@.operations =~= old(file_ops)@.operations + (remove_ops(
                            root,
                            stale,
                        ) + link_ops(root, target, fresh)));
                        assert(queued_behind(
                            *old(file_ops),
                            *file_ops,
                            remove_ops(root, stale) + link_ops(root, target, fresh),
                        ));
                    }
                },
                Err(_) => {},
            }
            Ok(())
        } else {
            Err(Error::ShellDoesNotExist)
        }
    }
}

/// The answer to a request for the subcommand `name`, which is not there yet.
pub fn not_implemented(name: &'static str) -> (answer: Result<()>)
    ensures
        answer == Err::<(), Error>(Error::SubcommandNotImplemented(name)),
{
    Err(Error::SubcommandNotImplemented(name))
}

/// Whether `stale` is what moving out of the shell that `config` inhabits
/// takes away: one of the listings that `config` may give of that shell, or
/// nothing where no shell is inhabited.
pub open spec fn unlinks<T: Config>(config: T, stale: Seq<Seq<char>>) -> bool {
    match config.current() {
        Some(current) => lists_files(config, current, stale),
        None => stale.len() == 0,
    }
}

} // verus!
