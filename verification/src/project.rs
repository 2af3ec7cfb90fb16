//! The model of a project and the registry of the projects that clients
//! are attached to.
use vstd::prelude::*;
use vstd::string::*;
use crate::error::{not_found, Error, ErrorView};
use crate::event::{Event, EventKind, EventView};
use crate::registry::Registry;
use crate::text::{copy_strings, join2, join_path, joined_path};
use crate::types::Client;

verus! {

/// The platform a target is built for.
#[derive(Debug, Clone, Copy, PartialEq, Eq, Structural)]
pub enum Platform {
    IOS,
    WatchOS,
    TvOS,
    MacOS,
    Unknown,
}

/// A target of a project with the platform it is built for.
#[derive(Debug)]
pub struct Target {
    pub name: String,
    pub platform: Platform,
}

/// The mathematical value of a [`Target`].
pub struct TargetView {
    pub name: Seq<char>,
    pub platform: Platform,
}

impl View for Target {
    type V = TargetView;

    open spec fn view(&self) -> TargetView {
        TargetView { name: self.name@, platform: self.platform }
    }
}

/// The values of a list of targets.
pub open spec fn targets_view(targets: Seq<Target>) -> Seq<TargetView> {
    Seq::new(targets.len(), |i: int| targets[i]@)
}

/// The test that a process id is another one than `pid`.
pub open spec fn other_than(pid: i32) -> spec_fn(i32) -> bool {
    |p: i32| p != pid
}

/// The process ids of `pids` without `pid`.
pub open spec fn without(pids: Seq<i32>, pid: i32) -> Seq<i32> {
    pids.filter(other_than(pid))
}

/// A process id is left exactly when it was there and is another than the
/// one taken out.
pub proof fn lemma_without(pids: Seq<i32>, pid: i32, p: i32)
    ensures
        without(pids, pid).contains(p) <==> pids.contains(p) && p != pid,
{
    let f = other_than(pid);
    if without(pids, pid).contains(p) {
        let j = without(pids, pid).index_of(p);
        assert(without(pids, pid)[j] == p);
        pids.lemma_filter_pred(f, j);
        pids.lemma_filter_contains_rev(f, p);
    }
    if pids.contains(p) && p != pid {
        let i = pids.index_of(p);
        assert(pids[i] == p);
        pids.lemma_filter_contains(f, i);
    }
}

/// The process ids of `pids` without `pid`, in their order.
pub fn remove_pid(pids: &Vec<i32>, pid: i32) -> (r: Vec<i32>)
    ensures
        r@ == without(pids@, pid),
{
    let mut r: Vec<i32> = Vec::new();
    let mut i: usize = 0;
    proof {
        reveal(Seq::filter);
        assert(pids@.take(0) =~= Seq::<i32>::empty());
    }
    while i < pids.len()
        invariant
            i <= pids.len(),
            r@ == without(pids@.take(i as int), pid),
        decreases pids.len() - i,
    {
        proof {
            assert(pids@.take(i + 1) =~= pids@.take(i as int).push(pids[i as int]));
            pids@.take(i as int).lemma_filter_push(pids[i as int], other_than(pid));
        }
        if pids[i] != pid {
            r.push(pids[i]);
        }
        i = i + 1;
    }
    assert(pids@.take(pids.len() as int) =~= pids@);
    r
}

/// Whether `pid` is one of `pids`.
pub fn has_pid(pids: &Vec<i32>, pid: i32) -> (r: bool)
    ensures
        r == pids@.contains(pid),
{
    let mut i: usize = 0;
    while i < pids.len()
        invariant
            i <= pids.len(),
            forall|j: int| 0 <= j < i ==> pids[j] != pid,
        decreases pids.len() - i,
    {
        if pids[i] == pid {
            return true;
        }
        i = i + 1;
    }
    false
}

/// A project that is described by an Xcode project file alone.
#[derive(Debug)]
pub struct BareboneProject {
    root: String,
    name: String,
    targets: Vec<Target>,
    clients: Vec<i32>,
    watchignore: Vec<String>,
}

/// The mathematical value of a [`BareboneProject`].
pub struct ProjectView {
    pub root: Seq<char>,
    pub name: Seq<char>,
    pub targets: Seq<TargetView>,
    pub clients: Seq<i32>,
    pub watchignore: Seq<Seq<char>>,
}

impl View for BareboneProject {
    type V = ProjectView;

    closed spec fn view(&self) -> ProjectView {
        ProjectView {
            root: self.root@,
            name: self.name@,
            targets: targets_view(self.targets@),
            clients: self.clients@,
            watchignore: self.watchignore.deep_view(),
        }
    }
}

/// The error of a root without a project definition.
pub open spec fn definition_missing() -> ErrorView {
    ErrorView::DefinitionLocating
}

/// Whether an event changes the structure of a project, so that what was
/// generated from it is out of date: a creation, a removal or a rename.
pub open spec fn event_regenerates(event: EventView) -> bool {
    event.kind == EventKind::Create || event.kind == EventKind::Remove || event.kind
        == EventKind::Rename
}

/// The arguments with which the compilation database of the project `name`
/// is generated: the given ones, the cache directory as `SYMROOT`, and the
/// workspace with the scheme of the project's name where there is a
/// workspace, else the project file.
pub open spec fn compile_database_arguments(
    base: Seq<Seq<char>>,
    name: Seq<char>,
    cache_root: Seq<char>,
    has_workspace: bool,
) -> Seq<Seq<char>> {
    if has_workspace {
        base + seq!["SYMROOT="@ + cache_root, "-workspace"@, name + ".xcworkspace"@, "-scheme"@, name]
    } else {
        base + seq!["SYMROOT="@ + cache_root, "-project"@, name + ".xcodeproj"@]
    }
}

impl BareboneProject {
    /// The project file to read, of those found under a root: the first.
    /// A root without any has no project definition.
    pub fn definition(found: &Vec<String>) -> (r: Result<&str, Error>)
        ensures
            found.len() == 0 ==> r.is_err() && r.unwrap_err()@ == definition_missing(),
            found.len() > 0 ==> r.is_ok() && r.unwrap()@ == found[0]@,
    {
        if found.len() == 0 {
            Err(Error::DefinitionLocating)
        } else {
            Ok(found[0].as_str())
        }
    }

    /// The project at the root of `client`, with that client attached.
    pub fn new(client: &Client, name: String, targets: Vec<Target>, watchignore: Vec<String>) -> (p:
        BareboneProject)
        ensures
            p@ == (ProjectView {
                root: client@.root,
                name: name@,
                targets: targets_view(targets@),
                clients: seq![client.pid],
                watchignore: watchignore.deep_view(),
            }),
    {
        let mut clients: Vec<i32> = Vec::new();
        clients.push(client.pid);
        assert(clients@ =~= seq![client.pid]);
        BareboneProject { root: client.root.clone(), name, targets, clients, watchignore }
    }

    /// The root directory.
    pub fn root(&self) -> (r: &String)
        ensures
            r@ == self@.root,
    {
        &self.root
    }

    /// The display name.
    pub fn name(&self) -> (r: &str)
        ensures
            r@ == self@.name,
    {
        self.name.as_str()
    }

    /// The targets with their platforms.
    pub fn targets(&self) -> (r: &Vec<Target>)
        ensures
            targets_view(r@) == self@.targets,
    {
        &self.targets
    }

    /// The process ids of the attached clients.
    pub fn clients(&self) -> (r: &Vec<i32>)
        ensures
            r@ == self@.clients,
    {
        &self.clients
    }

    /// The ignore patterns of the project's watcher.
    pub fn watchignore(&self) -> (r: &Vec<String>)
        ensures
            r.deep_view() == self@.watchignore,
    {
        &self.watchignore
    }

    /// Attaches a client; one that is attached already is not listed twice.
    pub fn attach(&mut self, pid: i32)
        ensures
            final(self)@ == (ProjectView {
                clients: if old(self)@.clients.contains(pid) {
                    old(self)@.clients
                } else {
                    old(self)@.clients.push(pid)
                },
                ..old(self)@
            }),
    {
        if !has_pid(&self.clients, pid) {
            self.clients.push(pid);
        }
    }

    /// Detaches a client.
    pub fn detach(&mut self, pid: i32)
        ensures
            final(self)@ == (ProjectView {
                clients: without(old(self)@.clients, pid),
                ..old(self)@
            }),
    {
        self.clients = remove_pid(&self.clients, pid);
    }

    /// The path of the workspace of the project's name in the root. Where
    /// there is one, the compilation database is generated from it.
    pub fn workspace(&self) -> (r: String)
        ensures
            r@ == joined_path(self@.root, self@.name + ".xcworkspace"@),
    {
        let name = join2(self.name.as_str(), ".xcworkspace");
        join_path(self.root.as_str(), name.as_str())
    }

    /// Whether an event calls for the compilation database to be generated
    /// anew.
    pub fn should_generate(&self, event: &Event) -> (r: bool)
        ensures
            r == event_regenerates(event@),
    {
        event.is_create_event() || event.is_remove_event() || event.is_rename_event()
    }

    /// The arguments with which the compilation database is generated.
    pub fn update_compile_database(
        &self,
        base: &Vec<String>,
        cache_root: &str,
        has_workspace: bool,
    ) -> (args: Vec<String>)
        ensures
            args.deep_view() == compile_database_arguments(
                base.deep_view(),
                self@.name,
                cache_root@,
                has_workspace,
            ),
    {
        let mut args = copy_strings(base);
        let ghost base_view = args.deep_view();
        args.push(join2("SYMROOT=", cache_root));
        if has_workspace {
            args.push(String::from_str("-workspace"));
            args.push(join2(self.name.as_str(), ".xcworkspace"));
            args.push(String::from_str("-scheme"));
            args.push(self.name.clone());
        } else {
            args.push(String::from_str("-project"));
            args.push(join2(self.name.as_str(), ".xcodeproj"));
        }
        assert(args.deep_view() =~= compile_database_arguments(
            base.deep_view(),
            self@.name,
            cache_root@,
            has_workspace,
        ));
        args
    }
}

/// What was found at the root of a client that attaches: the project
/// files under the root and, read from the first of them, the name and the
/// targets of the project; and the ignore patterns for the root's watcher.
#[derive(Debug)]
pub struct Discovery {
    pub definitions: Vec<String>,
    pub name: String,
    pub targets: Vec<Target>,
    pub watchignore: Vec<String>,
}

/// The projects that clients are attached to, each under its root.
pub struct ProjectStore {
    projects: Registry<BareboneProject>,
}

impl ProjectStore {
    /// The roots of the projects, oldest first.
    pub closed spec fn roots(&self) -> Seq<Seq<char>> {
        self.projects.keys()
    }

    /// Whether there is a project for `root`.
    pub open spec fn contains(&self, root: Seq<char>) -> bool {
        self.roots().contains(root)
    }

    /// The project for `root`, where there is one.
    pub closed spec fn project_of(&self, root: Seq<char>) -> ProjectView {
        self.projects.value_of(root)@
    }

    /// No root has two projects, every project is stored under its own
    /// root, and every project has a client.
    pub open spec fn wf(&self) -> bool {
        &&& self.roots().no_duplicates()
        &&& forall|root: Seq<char>| #[trigger]
            self.contains(root) ==> self.project_of(root).root == root && self.project_of(
                root,
            ).clients.len() > 0
    }

    /// Whether two stores hold the same projects apart from the one for
    /// `root`.
    pub open spec fn same_but(&self, other: &ProjectStore, root: Seq<char>) -> bool {
        forall|r: Seq<char>|
            r != root ==> (#[trigger] self.contains(r) <==> other.contains(r)) && (self.contains(r)
                ==> self.project_of(r) == other.project_of(r))
    }

    /// A store without projects.
    pub fn new() -> (s: ProjectStore)
        ensures
            s.wf(),
            s.roots() == Seq::<Seq<char>>::empty(),
    {
        ProjectStore { projects: Registry::new() }
    }

    /// Whether there is a project for `root`.
    pub fn contains_root(&self, root: &str) -> (r: bool)
        ensures
            r == self.contains(root@),
    {
        self.projects.contains_key(root)
    }

    /// Attaches a client to the project at its root. Where the root has no
    /// project yet, one is made from what was found there; where it has
    /// one, the client joins it. A root at which no project file was found
    /// has no project definition: an error, and no change.
    pub fn add(&mut self, client: &Client, found: Discovery) -> (r: Result<(), Error>)
        requires
            old(self).wf(),
        ensures
            final(self).wf(),
            final(self).same_but(old(self), client@.root),
            found.definitions.len() == 0 ==> r.is_err() && r.unwrap_err()@ == definition_missing()
                && final(self).roots() == old(self).roots() && (old(self).contains(client@.root)
                ==> final(self).project_of(client@.root) == old(self).project_of(client@.root)),
            found.definitions.len() > 0 ==> r.is_ok() && final(self).contains(client@.root),
            found.definitions.len() > 0 && old(self).contains(client@.root) ==> final(self).roots()
                == old(self).roots() && final(self).project_of(client@.root) == (ProjectView {
                clients: if old(self).project_of(client@.root).clients.contains(client.pid) {
                    old(self).project_of(client@.root).clients
                } else {
                    old(self).project_of(client@.root).clients.push(client.pid)
                },
                ..old(self).project_of(client@.root)
            }),
            found.definitions.len() > 0 && !old(self).contains(client@.root) ==> final(self).roots() == old(self).roots().push(client@.root) && final(self).project_of(
                client@.root,
            ) == (ProjectView {
                root: client@.root,
                name: found.name@,
                targets: targets_view(found.targets@),
                clients: seq![client.pid],
                watchignore: found.watchignore.deep_view(),
            }),
    {
        let ghost before = self.projects;
        proof {
            before.lemma_lengths();
        }
        if found.definitions.len() == 0 {
            return Err(Error::DefinitionLocating);
        }
        match self.projects.get_mut(client.root.as_str()) {
            Some(project) => {
                project.attach(client.pid);
                proof {
                    let i = before.index_of(client@.root);
                    self.projects.lemma_lengths();
                    assert forall|r: Seq<char>| #[trigger] self.contains(r) implies old(self).contains(r) && (r != client@.root ==> self.project_of(r) == old(self).project_of(r)) && (r == client@.root ==> self.projects.value_of(r)
                        == self.projects.values()[i]) by {
                        let j = self.projects.index_of(r);
                        assert(before.keys()[j] == r);
                        before.lemma_position(j);
                    }
                }
                Ok(())
            },
            None => {
                let Discovery { definitions: _, name, targets, watchignore } = found;
                let project = BareboneProject::new(client, name, targets, watchignore);
                self.projects.insert(client.root.clone(), project);
                proof {
                    let n = before.keys().len() as int;
                    self.projects.lemma_lengths();
                    self.projects.lemma_position(n);
                    assert forall|r: Seq<char>| #[trigger] old(self).contains(r) implies self.contains(
                        r,
                    ) && self.project_of(r) == old(self).project_of(r) by {
                        let j = before.index_of(r);
                        assert(self.projects.keys()[j] == r);
                        self.projects.lemma_position(j);
                    }
                    assert forall|r: Seq<char>| #[trigger] self.contains(r) implies r
                        == client@.root || old(self).contains(r) by {
                        let j = self.projects.index_of(r);
                        if j < n {
                            assert(before.keys()[j] == r);
                        }
                    }
                }
                Ok(())
            },
        }
    }

    /// Mutable access to the project for `root`; an error where there is
    /// none. The roots and the other projects stay as they are; the
    /// project for `root` is what the caller leaves behind.
    pub fn get_mut(&mut self, root: &String) -> (r: Result<&mut BareboneProject, Error>)
        requires
            old(self).wf(),
        ensures
            r.is_ok() == old(self).contains(root@),
            final(self).roots() == old(self).roots(),
            final(self).same_but(old(self), root@),
            r.is_ok() ==> r.unwrap()@ == old(self).project_of(root@) && final(self).project_of(
                root@,
            ) == final(r.unwrap())@,
            r.is_err() ==> r.unwrap_err()@ == not_found("Project"@, root@) && (forall|k: Seq<char>|
                #[trigger] final(self).project_of(k) == old(self).project_of(k)),
    {
        proof {
            self.projects.lemma_lengths();
            let before = self.projects;
            assert forall|k: Seq<char>| #[trigger] before.contains(k) implies 0 <= before.index_of(k)
                < before.keys().len() by {}
        }
        match self.projects.get_mut(root.as_str()) {
            Some(project) => Ok(project),
            None => Err(Error::missing("Project", root.as_str())),
        }
    }

    /// The project for `root`; an error where there is none.
    pub fn get(&self, root: &String) -> (r: Result<&BareboneProject, Error>)
        requires
            self.wf(),
        ensures
            r.is_ok() == self.contains(root@),
            r.is_ok() ==> r.unwrap()@ == self.project_of(root@),
            r.is_err() ==> r.unwrap_err()@ == not_found("Project"@, root@),
    {
        match self.projects.get(root.as_str()) {
            Some(project) => Ok(project),
            None => Err(Error::missing("Project", root.as_str())),
        }
    }

    /// Detaches a client from the project at its root. A project that is
    /// left without clients leaves the store and is returned, so that the
    /// caller can tear down what belongs to it; a project that still has
    /// clients stays. An error, and no change, where the root has no
    /// project.
    pub fn remove(&mut self, client: &Client) -> (r: Result<Option<BareboneProject>, Error>)
        requires
            old(self).wf(),
        ensures
            final(self).wf(),
            final(self).same_but(old(self), client@.root),
            !old(self).contains(client@.root) ==> r.is_err() && r.unwrap_err()@ == not_found(
                "Project"@,
                client@.root,
            ) && final(self).roots() == old(self).roots(),
            old(self).contains(client@.root) ==> r.is_ok() && (r.unwrap().is_some() <==> without(
                old(self).project_of(client@.root).clients,
                client.pid,
            ).len() == 0),
            r.is_ok() && r.unwrap().is_some() ==> !final(self).contains(client@.root)
                && r.unwrap().unwrap()@ == (ProjectView {
                clients: Seq::empty(),
                ..old(self).project_of(client@.root)
            }),
            r.is_ok() && r.unwrap().is_none() ==> final(self).roots() == old(self).roots()
                && final(self).project_of(client@.root) == (ProjectView {
                clients: without(old(self).project_of(client@.root).clients, client.pid),
                ..old(self).project_of(client@.root)
            }),
    {
        let ghost before = self.projects;
        proof {
            before.lemma_lengths();
        }
        if !self.projects.contains_key(client.root.as_str()) {
            return Err(Error::missing("Project", client.root.as_str()));
        }
        let emptied = match self.projects.get_mut(client.root.as_str()) {
            Some(project) => {
                project.detach(client.pid);
                project.clients.len() == 0
            },
            None => false,
        };
        let ghost middle = self.projects;
        proof {
            let i = before.index_of(client@.root);
            middle.lemma_lengths();
            assert(middle.values()[i]@.clients == without(
                old(self).project_of(client@.root).clients,
                client.pid,
            ));
            assert forall|r: Seq<char>| #[trigger] middle.contains(r) implies before.contains(r) && (r
                != client@.root ==> middle.value_of(r) == before.value_of(r)) && (r == client@.root
                ==> middle.value_of(r) == middle.values()[i]) by {
                let j = middle.index_of(r);
                assert(before.keys()[j] == r);
                before.lemma_position(j);
            }
        }
        if emptied {
            let removed = self.projects.remove(client.root.as_str());
            proof {
                let i = before.index_of(client@.root);
                self.projects.lemma_lengths();
                assert(removed.unwrap()@.clients =~= Seq::<i32>::empty());
                assert forall|r: Seq<char>| #[trigger] self.contains(r) implies middle.contains(r) && r
                    != client@.root && self.projects.value_of(r) == middle.value_of(r) by {
                    let j = self.projects.index_of(r);
                    self.projects.lemma_position(j);
                    if j < i {
                        assert(middle.keys()[j] == r);
                        middle.lemma_position(j);
                    } else {
                        assert(middle.keys()[j + 1] == r);
                        middle.lemma_position(j + 1);
                    }
                }
                assert forall|r: Seq<char>| middle.contains(r) && r != client@.root implies #[trigger]
                    self.contains(r) by {
                    let x = middle.index_of(r);
                    if x < i {
                        assert(self.projects.keys()[x] == r);
                    } else {
                        assert(self.projects.keys()[x - 1] == r);
                    }
                }
            }
            proof {
                assert forall|r: Seq<char>| #[trigger] self.contains(r) implies self.project_of(r).root
                    == r && self.project_of(r).clients.len() > 0 by {
                    assert(middle.contains(r));
                    assert(old(self).contains(r));
                }
            }
            Ok(removed)
        } else {
            proof {
                let i = before.index_of(client@.root);
                assert(self.roots().no_duplicates());
                assert(old(self).contains(client@.root));
                assert(before.value_of(client@.root) == before.values()[i]);
                assert(middle.values()[i]@.root == client@.root);
                assert(middle.values()[i]@.clients.len() > 0);
                assert forall|r: Seq<char>| #[trigger] self.contains(r) implies self.project_of(r).root
                    == r && self.project_of(r).clients.len() > 0 by {
                    assert(middle.contains(r));
                    if r != client@.root {
                        assert(old(self).contains(r));
                    }
                }
            }
            Ok(None)
        }
    }
}

} // verus!
