//! Where the shells are kept and which one is inhabited.

use crate::fs::{Filesystem, WalkItem};
use crate::path::{join, joined, parent_of, relative_to, strip_prefix, texts, trimmed};
use vstd::prelude::*;

pub mod mock;

verus! {

/// The directory that holds the shells of a configuration rooted at `root`.
pub open spec fn shells_root(root: Seq<char>) -> Seq<char> {
    joined(root, "shells"@)
}

/// The directory of the shells lies in some directory, whatever the root of
/// the configuration is.
pub proof fn lemma_shells_root_has_parent(root: Seq<char>)
    ensures
        parent_of(shells_root(root)) is Some,
{
    reveal_strlit("shells");
    let shells = shells_root(root);
    assert("shells"@.len() == 6);
    assert("shells"@[0] == 's');
    assert("shells"@[5] == 's');
    assert(shells.len() > 0 && shells.last() == 's');
    assert(trimmed(shells) == shells);
}

/// The directory of the shell `name` of a configuration rooted at `root`.
pub open spec fn shell_path(root: Seq<char>, name: Seq<char>) -> Seq<char> {
    joined(shells_root(root), name)
}

/// The file in which a configuration rooted at `root` keeps the name of the
/// inhabited shell.
pub open spec fn config_file(root: Seq<char>) -> Seq<char> {
    joined(root, "current_shell"@)
}

/// What the library needs to know of the shells: where they are kept, which
/// one is inhabited, which ones exist and what they hold.
///
/// The root and the inhabited shell are the configuration's own state, and
/// the contracts pin them down. Whether a shell exists and what it holds is
/// read from the disk when it is asked for: two answers may differ, and
/// nothing is promised of either.
pub trait Config {
    /// The directory everything is kept under.
    spec fn root(&self) -> Seq<char>;

    /// The name of the inhabited shell, if there is one.
    spec fn current(&self) -> Option<Seq<char>>;

    fn root_path(&self) -> (path: &String)
        ensures
            path@ == self.root(),
    ;

    fn shell_root_path(&self) -> (path: String)
        ensures
            path@ == shells_root(self.root()),
    {
        join(self.root_path().as_str(), "shells")
    }

    fn current_shell_name(&self) -> (name: Option<&str>)
        ensures
            name is Some <==> self.current() is Some,
            name matches Some(text) ==> self.current() == Some(text@),
    ;

    fn current_shell_path(&self) -> (path: Option<String>)
        ensures
            path is Some <==> self.current() is Some,
            path matches Some(dir) ==> dir@ == shell_path(self.root(), self.current()->0),
    {
        match self.current_shell_name() {
            Some(name) => Some(join(self.shell_root_path().as_str(), name)),
            None => None,
        }
    }

    /// Records `name` as the inhabited shell. Either that is done, or nothing
    /// has changed.
    fn set_current_shell_name(&mut self, name: &str) -> (done: std::io::Result<()>)
        ensures
            final(self).root() == old(self).root(),
            done is Ok ==> final(self).current() == Some(name@),
            done is Err ==> final(self).current() == old(self).current(),
    ;

    /// Tells whether there is a shell called `name`.
    fn shell_exists(&self, name: &str) -> bool;

    /// The files of the shell `name`, each by its path below the shell's
    /// directory. Directories are not among them.
    fn shell_files(&self, name: &str) -> Vec<String>;
}

/// Whether `answer` is something `config` may say when asked if the shell
/// `name` exists.
pub open spec fn answers_exists<T: Config>(config: T, name: Seq<char>, answer: bool) -> bool {
    exists|asked: &str|
        asked@ == name && #[trigger] call_ensures(T::shell_exists, (&config, asked), answer)
}

/// Whether `files` is a listing that `config` may give of the shell `name`.
pub open spec fn lists_files<T: Config>(config: T, name: Seq<char>, files: Seq<Seq<char>>) -> bool {
    exists|asked: &str, found: Vec<String>|
        asked@ == name && #[trigger] call_ensures(T::shell_files, (&config, asked), found)
            && texts(found@) == files
}

/// What one step of a walk contributes to the listing of the files below
/// `prefix`: the path of a file, taken relative to `prefix`. A directory, an
/// entry that could not be read and an entry that does not lie below `prefix`
/// contribute nothing.
pub open spec fn yielded(item: WalkItem, prefix: Seq<char>) -> Option<Seq<char>> {
    match item {
        WalkItem::Entry { path, is_dir } => if is_dir {
            None
        } else {
            relative_to(path@, prefix)
        },
        WalkItem::Unreadable => None,
    }
}

/// The files that the walk `items` found below `prefix`, in the order of the
/// walk.
pub open spec fn files_below(items: Seq<WalkItem>, prefix: Seq<char>) -> Seq<Seq<char>>
    decreases items.len(),
{
    if items.len() == 0 {
        Seq::empty()
    } else {
        match yielded(items[0], prefix) {
            Some(file) => seq![file] + files_below(items.skip(1), prefix),
            None => files_below(items.skip(1), prefix),
        }
    }
}

/// Hands out, one by one, the files that a walk found below a directory.
pub struct FilesIter {
    items: Vec<WalkItem>,
    prefix: String,
    position: usize,
}

impl FilesIter {
    /// The files that are still to come, next one first.
    pub closed spec fn remaining(&self) -> Seq<Seq<char>> {
        if self.position <= self.items@.len() {
            files_below(self.items@.skip(self.position as int), self.prefix@)
        } else {
            Seq::empty()
        }
    }

    /// Starts on the walk `items`, which was made from the directory
    /// `prefix`.
    pub fn new(items: Vec<WalkItem>, prefix: &str) -> (iter: FilesIter)
        ensures
            iter.remaining() == files_below(items@, prefix@),
    {
        assert(items@.skip(0) =~= items@);
        FilesIter { items, prefix: prefix.to_owned(), position: 0 }
    }

    /// The next file, or `None` when there is none left.
    pub fn next(&mut self) -> (file: Option<String>)
        ensures
            old(self).remaining().len() == 0 ==> file is None && final(self).remaining().len()
                == 0,
            old(self).remaining().len() > 0 ==> file is Some && file->0@ == old(
                self,
            ).remaining()[0] && final(self).remaining() == old(self).remaining().skip(1),
    {
        while self.position < self.items.len()
            invariant
                self.items == old(self).items,
                self.prefix == old(self).prefix,
                self.remaining() == old(self).remaining(),
            decreases self.items@.len() - self.position,
        {
            let ghost rest = self.items@.skip(self.position as int);
            proof {
                assert(rest[0] == self.items@[self.position as int]);
                assert(rest.skip(1) =~= self.items@.skip(self.position + 1));
            }
            let found = match &self.items[self.position] {
                WalkItem::Entry { path, is_dir } => if *is_dir {
                    None
                } else {
                    strip_prefix(path.as_str(), self.prefix.as_str())
                },
                WalkItem::Unreadable => None,
            };
            self.position = self.position + 1;
            if let Some(file) = found {
                proof {
                    let tail = files_below(rest.skip(1), self.prefix@);
                    assert((seq![file@] + tail)[0] == file@);
                    assert((seq![file@] + tail).skip(1) =~= tail);
                }
                return Some(file);
            }
        }
        assert(self.items@.skip(self.items@.len() as int) =~= Seq::<WalkItem>::empty());
        None
    }
}

/// The path of the file that names the inhabited shell, for a configuration
/// rooted at `root_path`.
pub fn config_path(root_path: &String) -> (path: String)
    ensures
        path@ == config_file(root_path@),
{
    join(root_path.as_str(), "current_shell")
}

/// What a configuration rooted at `root` takes as its inhabited shell, given
/// one of the answers that `fs` may give when the file that names it is read:
/// the text of the file, or no shell where the file cannot be read.
pub open spec fn reads_current<F: Filesystem>(
    fs: F,
    root: Seq<char>,
    current: Option<Seq<char>>,
) -> bool {
    exists|file: &str, reply: std::io::Result<String>|
        file@ == config_file(root) && #[trigger] call_ensures(F::read_to_string, (&fs, file), reply)
            && current == match reply {
            Ok(text) => Some(text@),
            Err(_) => None,
        }
}

/// Whether `answer` is something `fs` may say when asked if the directory of
/// the shell `name` is there.
pub open spec fn finds_shell<F: Filesystem>(
    fs: F,
    root: Seq<char>,
    name: Seq<char>,
    answer: bool,
) -> bool {
    exists|dir: &str|
        dir@ == shell_path(root, name) && #[trigger] call_ensures(F::is_dir, (&fs, dir), answer)
}

/// Whether `files` is the listing that comes of one of the walks that `fs` may
/// make of the directory of the shell `name`.
pub open spec fn walks_shell<F: Filesystem>(
    fs: F,
    root: Seq<char>,
    name: Seq<char>,
    files: Seq<Seq<char>>,
) -> bool {
    exists|dir: &str, items: Vec<WalkItem>|
        dir@ == shell_path(root, name) && #[trigger] call_ensures(F::walk, (&fs, dir), items)
            && files == files_below(items@, shell_path(root, name))
}

/// A configuration kept on a filesystem: the shells are the directories below
/// `shells` in its root, and the file `current_shell` names the inhabited one.
pub struct FsConfig<F: Filesystem> {
    root_path: String,
    current_shell: Option<String>,
    fs: F,
}

impl<F: Filesystem> FsConfig<F> {
    /// The filesystem that this configuration is kept on.
    pub closed spec fn filesystem(&self) -> F {
        self.fs
    }

    /// Opens the configuration rooted at `root_path` on `fs`: asks `fs`, once,
    /// to make the root, whatever comes of it, keeps the filesystem as that
    /// call left it, and takes the inhabited shell from its file.
    pub fn new(root_path: &str, fs: F) -> (config: FsConfig<F>)
        ensures
            config.root() == root_path@,
            exists|disk: &mut F, dir: &str, reply: std::io::Result<()>|
                *disk == fs && *final(disk) == config.filesystem() && dir@ == root_path@
                    && #[trigger] call_ensures(F::create_dir_all, (disk, dir), reply),
            reads_current(config.filesystem(), root_path@, config.current()),
    {
        let mut fs = fs;
        let root_path = root_path.to_owned();
        let _ = fs.create_dir_all(root_path.as_str());
        let config_path = config_path(&root_path);
        let current_shell = match fs.read_to_string(config_path.as_str()) {
            Ok(text) => Some(text),
            Err(_) => None,
        };
        FsConfig { root_path, current_shell, fs }
    }

    fn config_path(&self) -> (path: String)
        ensures
            path@ == config_file(self.root()),
    {
        config_path(self.root_path())
    }
}

impl<F: Filesystem> Config for FsConfig<F> {
    closed spec fn root(&self) -> Seq<char> {
        self.root_path@
    }

    closed spec fn current(&self) -> Option<Seq<char>> {
        match self.current_shell {
            Some(name) => Some(name@),
            None => None,
        }
    }

    fn root_path(&self) -> (path: &String) {
        &self.root_path
    }

    fn current_shell_name(&self) -> (name: Option<&str>) {
        match &self.current_shell {
            Some(name) => Some(name.as_str()),
            None => None,
        }
    }

    /// Asks the filesystem, once, to put `name` into the file that names the
    /// inhabited shell, and answers what the filesystem answered. The name
    /// is taken as the inhabited shell exactly if that write succeeded.
    fn set_current_shell_name(&mut self, name: &str) -> (done: std::io::Result<()>)
        ensures
            exists|disk: &mut F, file: &str, text: &str|
                *disk == old(self).filesystem() && *final(disk) == final(self).filesystem()
                    && file@ == config_file(old(self).root()) && text@ == name@
                    && #[trigger] call_ensures(F::write, (disk, file, text), done),
    {
        let config_path = self.config_path();
        let file = config_path.as_str();
        let done = self.fs.write(file, name);
        if done.is_ok() {
            self.current_shell = Some(name.to_owned());
        }
        done
    }

    /// A shell exists where its directory does.
    fn shell_exists(&self, name: &str) -> (exists: bool)
        ensures
            finds_shell(self.filesystem(), self.root(), name@, exists),
    {
        let shell_path = join(self.shell_root_path().as_str(), name);
        self.fs.is_dir(shell_path.as_str())
    }

    /// Walks the directory of the shell `name`.
    fn shell_files(&self, name: &str) -> (files: Vec<String>)
        ensures
            walks_shell(self.filesystem(), self.root(), name@, texts(files@)),
    {
        let shell_path = join(self.shell_root_path().as_str(), name);
        let items = self.fs.walk(shell_path.as_str());
        let ghost walked = items@;
        let mut iter = FilesIter::new(items, shell_path.as_str());
        let mut files: Vec<String> = Vec::new();
        assert(texts(files@) =~= Seq::<Seq<char>>::empty());
        loop
            invariant
                texts(files@) + iter.remaining() == files_below(walked, shell_path@),
            ensures
                texts(files@) == files_below(walked, shell_path@),
            decreases iter.remaining().len(),
        {
            let ghost before = iter.remaining();
            match iter.next() {
                Some(file) => {
                    let ghost listed = texts(files@);
                    files.push(file);
                    proof {
                        assert(texts(files@) =~= listed.push(file@));
                        assert(listed.push(file@) + before.skip(1) =~= listed + before);
                    }
                },
                None => {
                    proof {
                        assert(texts(files@) + iter.remaining() =~= texts(files@));
                    }
                    break ;
                },
            }
        }
        files
    }
}

} // verus!
