//! The state of the build server: the compilation database of a project
//! and the compile arguments of its files, looked up through a cache that
//! is dropped whenever the database on disk has changed.
use vstd::prelude::*;
use vstd::string::*;
use crate::error::{Error, ErrorView};
use crate::registry::Registry;
use crate::text::{copy_strings, join2};

verus! {

/// The compile arguments of one file.
#[derive(Debug)]
pub struct FileArgs {
    /// Path of the file.
    pub path: String,
    /// The arguments to compile it with.
    pub args: Vec<String>,
}

/// The mathematical value of [`FileArgs`].
pub struct FileArgsView {
    pub path: Seq<char>,
    pub args: Seq<Seq<char>>,
}

impl View for FileArgs {
    type V = FileArgsView;

    open spec fn view(&self) -> FileArgsView {
        FileArgsView { path: self.path@, args: self.args.deep_view() }
    }
}

/// The values of the files of one compile command.
pub open spec fn command_view(files: Seq<FileArgs>) -> Seq<FileArgsView> {
    Seq::new(files.len(), |i: int| files[i]@)
}

/// The values of the compile commands of a database: for each command the
/// files it compiles, each with its arguments.
pub open spec fn database_view(commands: Seq<Vec<FileArgs>>) -> Seq<Seq<FileArgsView>> {
    Seq::new(commands.len(), |i: int| command_view(commands[i]@))
}

/// The files of all commands, in the order of the commands.
pub open spec fn flattened(commands: Seq<Seq<FileArgsView>>) -> Seq<FileArgsView>
    decreases commands.len(),
{
    if commands.len() == 0 {
        Seq::empty()
    } else {
        flattened(commands.drop_last()) + commands.last()
    }
}

/// The arguments of each file of a list; where a file occurs more than
/// once, the last occurrence counts.
pub open spec fn indexed(files: Seq<FileArgsView>) -> Map<Seq<char>, Seq<Seq<char>>>
    decreases files.len(),
{
    if files.len() == 0 {
        Map::empty()
    } else {
        indexed(files.drop_last()).insert(files.last().path, files.last().args)
    }
}

/// The compile arguments of every file that a database knows.
pub open spec fn file_args_of(commands: Seq<Seq<FileArgsView>>) -> Map<Seq<char>, Seq<Seq<char>>> {
    indexed(flattened(commands))
}

/// The error of a file that the database does not know.
pub open spec fn missing_arguments(path: Seq<char>) -> ErrorView {
    ErrorView::Unexpected("Missing compile arguments for "@ + path)
}

/// What the arguments cache holds, as a map.
pub open spec fn cache_map(cache: &Registry<Vec<String>>) -> Map<Seq<char>, Seq<Seq<char>>> {
    Map::new(|k: Seq<char>| cache.contains(k), |k: Seq<char>| cache.value_of(k).deep_view())
}

/// The state of the build server.
pub struct State {
    compile_db: Vec<Vec<FileArgs>>,
    file_args: Registry<Vec<String>>,
    root_path: String,
    compile_filepath: String,
    last_modified: u128,
}

impl State {
    /// The compilation database that was read last.
    pub closed spec fn compile_db(&self) -> Seq<Seq<FileArgsView>> {
        database_view(self.compile_db@)
    }

    /// The cache of compile arguments by file.
    pub closed spec fn file_args(&self) -> Map<Seq<char>, Seq<Seq<char>>> {
        cache_map(&self.file_args)
    }

    /// The root of the project.
    pub closed spec fn root_path(&self) -> Seq<char> {
        self.root_path@
    }

    /// The path of the file that holds the compilation database.
    pub closed spec fn compile_filepath(&self) -> Seq<char> {
        self.compile_filepath@
    }

    /// The modification time of the database file when it was read last.
    pub closed spec fn last_modified(&self) -> u128 {
        self.last_modified
    }

    /// The cache is empty, or it holds the arguments of every file of the
    /// database that was read last, and of no other.
    pub closed spec fn wf(&self) -> bool {
        &&& self.file_args.wf()
        &&& (self.file_args() == Map::<Seq<char>, Seq<Seq<char>>>::empty() || self.file_args()
            == file_args_of(self.compile_db()))
    }

    /// The cache is empty or in line with the database.
    pub proof fn lemma_cache(&self)
        requires
            self.wf(),
        ensures
            self.file_args() == Map::<Seq<char>, Seq<Seq<char>>>::empty() || self.file_args()
                == file_args_of(self.compile_db()),
    {
    }

    /// The state after the database was read for the first time.
    pub fn new(
        root_path: String,
        compile_filepath: String,
        compile_db: Vec<Vec<FileArgs>>,
        last_modified: u128,
    ) -> (s: State)
        ensures
            s.wf(),
            s.root_path() == root_path@,
            s.compile_filepath() == compile_filepath@,
            s.compile_db() == database_view(compile_db@),
            s.last_modified() == last_modified,
            s.file_args() == Map::<Seq<char>, Seq<Seq<char>>>::empty(),
    {
        let s = State {
            compile_db,
            file_args: Registry::new(),
            root_path,
            compile_filepath,
            last_modified,
        };
        assert(s.file_args() =~= Map::<Seq<char>, Seq<Seq<char>>>::empty());
        s
    }

    /// The root of the project.
    pub fn root(&self) -> (r: &str)
        ensures
            r@ == self.root_path(),
    {
        self.root_path.as_str()
    }

    /// The path of the file that holds the compilation database.
    pub fn database_path(&self) -> (r: &str)
        ensures
            r@ == self.compile_filepath(),
    {
        self.compile_filepath.as_str()
    }

    /// Whether the database file has to be read again: its modification
    /// time is another than when it was read last.
    pub fn needs_reload(&self, modified: u128) -> (r: bool)
        ensures
            r == (modified != self.last_modified()),
    {
        modified != self.last_modified
    }

    /// Takes a database that was read again: the cache is dropped, and the
    /// modification time of the file is remembered.
    pub fn reload(&mut self, compile_db: Vec<Vec<FileArgs>>, modified: u128)
        ensures
            final(self).wf(),
            final(self).compile_db() == database_view(compile_db@),
            final(self).last_modified() == modified,
            final(self).file_args() == Map::<Seq<char>, Seq<Seq<char>>>::empty(),
            final(self).root_path() == old(self).root_path(),
            final(self).compile_filepath() == old(self).compile_filepath(),
    {
        self.compile_db = compile_db;
        self.file_args.clear();
        self.last_modified = modified;
        assert(self.file_args() =~= Map::<Seq<char>, Seq<Seq<char>>>::empty());
    }

    /// Fills the cache from the database.
    fn rebuild(&mut self)
        requires
            old(self).file_args.wf(),
            old(self).file_args() == Map::<Seq<char>, Seq<Seq<char>>>::empty(),
        ensures
            final(self).wf(),
            final(self).file_args() == file_args_of(old(self).compile_db()),
            final(self).compile_db() == old(self).compile_db(),
            final(self).last_modified() == old(self).last_modified(),
            final(self).root_path() == old(self).root_path(),
            final(self).compile_filepath() == old(self).compile_filepath(),
    {
        let ghost db = self.compile_db();
        let mut i: usize = 0;
        assert(db.take(0) =~= Seq::<Seq<FileArgsView>>::empty());
        while i < self.compile_db.len()
            invariant
                self.file_args.wf(),
                self.compile_db == old(self).compile_db,
                self.last_modified == old(self).last_modified,
                self.root_path == old(self).root_path,
                self.compile_filepath == old(self).compile_filepath,
                db == self.compile_db(),
                i <= self.compile_db.len(),
                cache_map(&self.file_args) == indexed(flattened(db.take(i as int))),
            decreases self.compile_db.len() - i,
        {
            let ghost done = flattened(db.take(i as int));
            let ghost command = db[i as int];
            let n = self.compile_db[i].len();
            let mut j: usize = 0;
            assert(done + command.take(0) =~= done);
            while j < n
                invariant
                    self.file_args.wf(),
                    self.compile_db == old(self).compile_db,
                    self.last_modified == old(self).last_modified,
                    self.root_path == old(self).root_path,
                    self.compile_filepath == old(self).compile_filepath,
                    db == self.compile_db(),
                    i < self.compile_db.len(),
                    command == db[i as int],
                    n == self.compile_db[i as int].len(),
                    j <= n,
                    cache_map(&self.file_args) == indexed(done + command.take(j as int)),
                decreases n - j,
            {
                let path = self.compile_db[i][j].path.clone();
                let args = copy_strings(&self.compile_db[i][j].args);
                let ghost before = self.file_args;
                self.file_args.set(path, args);
                proof {
                    let file = command[j as int];
                    assert(file == self.compile_db[i as int][j as int]@);
                    let next = done + command.take(j + 1);
                    assert(next.drop_last() =~= done + command.take(j as int));
                    assert(next.last() == file);
                    assert(cache_map(&self.file_args) =~= cache_map(&before).insert(
                        file.path,
                        file.args,
                    ));
                }
                j = j + 1;
            }
            proof {
                assert(command.take(n as int) =~= command);
                assert(db.take(i + 1).drop_last() =~= db.take(i as int));
                assert(db.take(i + 1).last() == command);
            }
            i = i + 1;
        }
        assert(db.take(self.compile_db.len() as int) =~= db);
    }

    /// The compile arguments of the file at `path`. A cache that is empty
    /// is filled from the database first. A file that the database does
    /// not know is an error.
    pub fn get_compile_args(&mut self, path: &str) -> (r: Result<Vec<String>, Error>)
        requires
            old(self).wf(),
        ensures
            final(self).wf(),
            final(self).compile_db() == old(self).compile_db(),
            final(self).last_modified() == old(self).last_modified(),
            final(self).root_path() == old(self).root_path(),
            final(self).compile_filepath() == old(self).compile_filepath(),
            final(self).file_args() == file_args_of(old(self).compile_db()),
            final(self).file_args().contains_key(path@) ==> r.is_ok() && r.unwrap().deep_view()
                == final(self).file_args()[path@],
            !final(self).file_args().contains_key(path@) ==> r.is_err() && r.unwrap_err()@
                == missing_arguments(path@),
    {
        if self.file_args.is_empty() {
            assert(self.file_args() =~= Map::<Seq<char>, Seq<Seq<char>>>::empty());
            self.rebuild();
        } else {
            proof {
                let k = self.file_args.keys()[0];
                assert(self.file_args.contains(k));
                assert(self.file_args().contains_key(k));
            }
        }
        match self.file_args.get(path) {
            Some(args) => Ok(copy_strings(args)),
            None => Err(Error::Unexpected(join2("Missing compile arguments for ", path))),
        }
    }
}

} // verus!
