//! A configuration held in memory, for trying the library out without a disk.

use crate::config::Config;
use crate::path::texts;
use vstd::prelude::*;

verus! {

/// A configuration that knows a fixed set of shell names and reports one list
/// of files for every shell.
#[derive(Clone, Debug, Eq, PartialEq)]
pub struct MockConfig {
    root_path: String,
    current_shell: String,
    allowed_shell_names: Vec<String>,
    files: Vec<String>,
}

impl MockConfig {
    /// The names of the shells that exist.
    pub closed spec fn allowed(&self) -> Seq<Seq<char>> {
        texts(self.allowed_shell_names@)
    }

    /// The files that every shell is said to hold.
    pub closed spec fn files(&self) -> Seq<Seq<char>> {
        texts(self.files@)
    }

    /// A configuration rooted at `/` that inhabits `default`, its only shell,
    /// which holds no files.
    pub fn new() -> (config: MockConfig)
        ensures
            config.root() == "/"@,
            config.current() == Some("default"@),
            config.allowed() == seq!["default"@],
            config.files() == Seq::<Seq<char>>::empty(),
    {
        MockConfig::with_root("/")
    }

    /// As [`MockConfig::new`], rooted at `root`.
    pub fn with_root(root: &str) -> (config: MockConfig)
        ensures
            config.root() == root@,
            config.current() == Some("default"@),
            config.allowed() == seq!["default"@],
            config.files() == Seq::<Seq<char>>::empty(),
    {
        let mut allowed_shell_names: Vec<String> = Vec::new();
        allowed_shell_names.push("default".to_owned());
        let config = MockConfig {
            root_path: root.to_owned(),
            current_shell: "default".to_owned(),
            allowed_shell_names,
            files: Vec::new(),
        };
        assert(config.allowed() =~= seq!["default"@]);
        assert(config.files() =~= Seq::<Seq<char>>::empty());
        config
    }

    /// Makes every shell hold the files `paths`.
    pub fn set_paths(&mut self, paths: Vec<&str>)
        ensures
            final(self).files() == paths@.map_values(|path: &str| path@),
            final(self).root() == old(self).root(),
            final(self).current() == old(self).current(),
            final(self).allowed() == old(self).allowed(),
    {
        let mut files: Vec<String> = Vec::new();
        let mut next: usize = 0;
        while next < paths.len()
            invariant
                next <= paths.len(),
                files.len() == next,
                forall|i: int| 0 <= i < next ==> files[i]@ == paths[i]@,
            decreases paths.len() - next,
        {
            files.push(paths[next].to_owned());
            next = next + 1;
        }
        self.files = files;
        assert(self.files() =~= paths@.map_values(|path: &str| path@));
    }
}

impl Config for MockConfig {
    closed spec fn root(&self) -> Seq<char> {
        self.root_path@
    }

    closed spec fn current(&self) -> Option<Seq<char>> {
        Some(self.current_shell@)
    }

    fn root_path(&self) -> (path: &String) {
        &self.root_path
    }

    fn current_shell_name(&self) -> (name: Option<&str>) {
        Some(self.current_shell.as_str())
    }

    /// Always done.
    fn set_current_shell_name(&mut self, name: &str) -> (done: std::io::Result<()>)
        ensures
            done is Ok,
            final(self).allowed() == old(self).allowed(),
            final(self).files() == old(self).files(),
    {
        self.current_shell = name.to_owned();
        Ok(())
    }

    /// A shell exists where its name is one of the known names.
    fn shell_exists(&self, name: &str) -> (exists: bool)
        ensures
            exists == self.allowed().contains(name@),
    {
        let wanted = name.to_owned();
        let mut next: usize = 0;
        while next < self.allowed_shell_names.len()
            invariant
                wanted@ == name@,
                next <= self.allowed_shell_names.len(),
                forall|i: int| 0 <= i < next ==> self.allowed_shell_names[i]@ != name@,
            decreases self.allowed_shell_names.len() - next,
        {
            if self.allowed_shell_names[next] == wanted {
                assert(self.allowed()[next as int] == name@);
                return true;
            }
            next = next + 1;
        }
        assert forall|i: int| 0 <= i < self.allowed().len() implies self.allowed()[i] != name@ by {
            assert(self.allowed()[i] == self.allowed_shell_names[i]@);
        }
        false
    }

    /// The same files for every shell.
    fn shell_files(&self, name: &str) -> (files: Vec<String>)
        ensures
            texts(files@) == self.files(),
    {
        let mut files: Vec<String> = Vec::new();
        let mut next: usize = 0;
        while next < self.files.len()
            invariant
                next <= self.files.len(),
                files.len() == next,
                forall|i: int| 0 <= i < next ==> files[i]@ == self.files[i]@,
            decreases self.files.len() - next,
        {
            files.push(self.files[next].clone());
            next = next + 1;
        }
        assert(texts(files@) =~= self.files());
        files
    }
}

} // verus!
