//! The shared state of the daemon: projects, clients and watchers, and the
//! rules that tie them together.
//!
//! Every operation on the state takes it whole and leaves it well-formed.
//! An operation decides and records; what it returns tells the caller what
//! to do outside: start or stop a watcher, tell an editor, build, run.
use vstd::prelude::*;
use vstd::string::*;
use crate::client::{ClientEntryView, ClientStore};
use crate::error::{not_found, Error};
use crate::project::{
    definition_missing, lemma_without, without, BareboneProject, Discovery, ProjectStore,
    ProjectView,
};
use crate::registry::Registry;
use crate::text::decimal;
use crate::types::{Client, ClientView};
use crate::watch::{Listener, WatchService};

verus! {

/// Projects, clients and watchers of the daemon.
pub struct State {
    /// The projects, by root.
    pub projects: ProjectStore,
    /// The attached clients, by process id.
    pub clients: ClientStore,
    /// The watch service of each project, by root.
    pub watcher: Registry<WatchService>,
}

/// What attaching a client did.
#[derive(Debug, Clone, Copy, PartialEq, Eq, Structural)]
pub enum Registered {
    /// The client was attached before; nothing changed.
    Already,
    /// The client joined a project that other clients are attached to.
    Joined,
    /// The client is the first at its root: the project was made, and its
    /// watcher is to be started.
    Created,
}

/// What detaching a client left to do.
#[derive(Debug)]
pub struct Dropped {
    /// The project that lost its last client and left the state; its
    /// watcher is to be stopped.
    pub project: Option<BareboneProject>,
    /// The watchables that were registered for that project when it left,
    /// oldest first; they are to be discarded.
    pub listeners: Vec<Listener>,
}

impl State {
    /// Each store is well-formed, and so is every watch service: within
    /// one service no two watchables share an identity.
    pub open spec fn stores_wf(&self) -> bool {
        &&& self.projects.wf()
        &&& self.clients.wf()
        &&& self.watcher.wf()
        &&& forall|root: Seq<char>| #[trigger]
            self.watcher.contains(root) ==> self.watcher.value_of(root).wf()
    }

    /// A root has a watch service exactly when it has a project.
    pub open spec fn watched_iff_project(&self) -> bool {
        forall|root: Seq<char>| #[trigger]
            self.watcher.contains(root) <==> self.projects.contains(root)
    }

    /// Every process id in the client list of a project is that of an
    /// attached client, whose root is the project's.
    pub open spec fn projects_list_clients(&self) -> bool {
        forall|root: Seq<char>, pid: i32|
            self.projects.contains(root) && #[trigger] self.projects.project_of(
                root,
            ).clients.contains(pid) ==> self.clients.contains(pid) && self.clients.entry_of(
                pid,
            ).client.root == root
    }

    /// Every attached client is in the client list of the project at its
    /// root.
    pub open spec fn clients_in_projects(&self) -> bool {
        forall|pid: i32| #[trigger]
            self.clients.contains(pid) ==> self.projects.contains(
                self.clients.entry_of(pid).client.root,
            ) && self.projects.project_of(
                self.clients.entry_of(pid).client.root,
            ).clients.contains(pid)
    }

    /// A client is flagged as watching exactly when one of the watchables
    /// of its root is its own.
    pub open spec fn flags_exact(&self) -> bool {
        forall|pid: i32| #[trigger]
            self.clients.contains(pid) ==> self.clients.entry_of(pid).watching
                == self.watcher.value_of(self.clients.entry_of(pid).client.root).owned_by(pid)
    }

    /// The invariant of the state.
    pub open spec fn wf(&self) -> bool {
        &&& self.stores_wf()
        &&& self.watched_iff_project()
        &&& self.projects_list_clients()
        &&& self.clients_in_projects()
        &&& self.flags_exact()
    }

    /// A state without projects, clients and watchers.
    pub fn new() -> (s: State)
        ensures
            s.wf(),
            s.projects.roots() == Seq::<Seq<char>>::empty(),
            s.clients.pids() == Seq::<i32>::empty(),
            s.watcher.keys() == Seq::<Seq<char>>::empty(),
    {
        State { projects: ProjectStore::new(), clients: ClientStore::new(), watcher: Registry::new() }
    }

    /// What attaching `client` with what was found at its root does to the
    /// state `self`, and what it returns. A client that is attached already
    /// stays as it is. Else the client joins the project at its root, or is
    /// the first client of a new project with a new, empty watch service;
    /// a root at which no project file was found has no project
    /// definition, which is an error and changes nothing. The watching
    /// flag of the client is in line with the watchables of its root.
    pub open spec fn register_spec(
        &self,
        client: ClientView,
        found: Discovery,
        post: &State,
        r: Result<Registered, Error>,
    ) -> bool {
        if self.clients.contains(client.pid) {
            r.is_ok() && r.unwrap() == Registered::Already && *post == *self
        } else if found.definitions.len() == 0 {
            r.is_err() && r.unwrap_err()@ == definition_missing() && *post == *self
        } else {
            &&& r.is_ok()
            &&& r.unwrap() == (if self.projects.contains(client.root) {
                Registered::Joined
            } else {
                Registered::Created
            })
            &&& post.clients.contains(client.pid)
            &&& post.clients.entry_of(client.pid).client == client
            &&& post.projects.contains(client.root)
            &&& post.projects.same_but(&self.projects, client.root)
            &&& post.projects.project_of(client.root) == (if self.projects.contains(client.root) {
                ProjectView {
                    clients: self.projects.project_of(client.root).clients.push(client.pid),
                    ..self.projects.project_of(client.root)
                }
            } else {
                ProjectView {
                    root: client.root,
                    name: found.name@,
                    targets: crate::project::targets_view(found.targets@),
                    clients: seq![client.pid],
                    watchignore: found.watchignore.deep_view(),
                }
            })
            &&& forall|p: i32| #[trigger]
                post.clients.contains(p) <==> self.clients.contains(p) || p == client.pid
            &&& forall|p: i32| #[trigger]
                self.clients.contains(p) ==> post.clients.entry_of(p) == self.clients.entry_of(p)
            &&& forall|root: Seq<char>| #[trigger]
                post.watcher.contains(root) <==> self.watcher.contains(root) || root == client.root
            &&& forall|root: Seq<char>| #[trigger]
                self.watcher.contains(root) ==> post.watcher.value_of(root)
                    == self.watcher.value_of(root)
            &&& !self.projects.contains(client.root) ==> post.watcher.value_of(
                client.root,
            ).keys() == Seq::<Seq<char>>::empty()
        }
    }

    /// Attaches a client.
    pub fn register(&mut self, client: &Client, found: Discovery) -> (r: Result<Registered, Error>)
        requires
            old(self).wf(),
        ensures
            final(self).wf(),
            old(self).register_spec(client@, found, final(self), r),
    {
        if self.clients.contains_key(client.pid) {
            return Ok(Registered::Already);
        }
        if found.definitions.len() == 0 {
            return Err(Error::DefinitionLocating);
        }
        let joined = self.projects.contains_root(client.root.as_str());
        proof {
            if joined {
                // The client is new, so the project at its root does not list it.
                assert(!old(self).projects.project_of(client@.root).clients.contains(client.pid));
            }
        }
        let _ = self.projects.add(client, found);
        self.clients.add(client);
        if !joined {
            self.watcher.insert(client.root.clone(), WatchService::new());
        }
        let ghost middle = *self;
        proof {
            assert(self.watcher.contains(client@.root));
        }
        match self.watcher.get(client.root.as_str()) {
            Some(service) => {
                self.clients.sync(client.root.as_str(), service);
            },
            None => {},
        }
        proof {
            let root = client@.root;
            let pid = client.pid;
            let list = self.projects.project_of(root).clients;
            assert(list.contains(pid)) by {
                if joined {
                    let before = old(self).projects.project_of(root).clients;
                    assert(list[before.len() as int] == pid);
                } else {
                    assert(list[0] == pid);
                }
            }
            assert forall|p: i32| #[trigger] self.clients.contains(p) implies middle.clients.contains(p)
                && (old(self).clients.contains(p) || p == pid) by {}
            assert forall|p: i32| old(self).clients.contains(p) || p == pid implies #[trigger]
                self.clients.contains(p) by {
                assert(middle.clients.contains(p));
            }
            assert forall|p: i32| #[trigger] old(self).clients.contains(p) implies self.clients.entry_of(
                p,
            ) == old(self).clients.entry_of(p) by {
                assert(middle.clients.contains(p));
                assert(old(self).watcher.contains(old(self).clients.entry_of(p).client.root));
            }
            assert(self.projects_list_clients()) by {
                assert forall|r2: Seq<char>, p: i32|
                    self.projects.contains(r2) && #[trigger] self.projects.project_of(
                        r2,
                    ).clients.contains(p) implies self.clients.contains(p)
                    && self.clients.entry_of(p).client.root == r2 by {
                    if r2 == root && p != pid {
                        assert(old(self).projects.project_of(root).clients.contains(p));
                    }
                    assert(middle.clients.contains(p));
                }
            }
            assert(self.clients_in_projects()) by {
                assert forall|p: i32| #[trigger] self.clients.contains(p) implies self.projects.contains(
                    self.clients.entry_of(p).client.root,
                ) && self.projects.project_of(self.clients.entry_of(p).client.root).clients.contains(
                    p,
                ) by {
                    if p != pid {
                        let r2 = old(self).clients.entry_of(p).client.root;
                        let before = old(self).projects.project_of(r2).clients;
                        if r2 == root {
                            assert(list[before.index_of(p)] == p);
                        } else {
                            assert(self.projects.contains(r2));
                        }
                    }
                }
            }
            assert(self.flags_exact()) by {
                assert forall|p: i32| #[trigger] self.clients.contains(p) implies self.clients.entry_of(
                    p,
                ).watching == self.watcher.value_of(self.clients.entry_of(p).client.root).owned_by(
                    p,
                ) by {
                    if p != pid {
                        assert(old(self).watcher.contains(old(self).clients.entry_of(p).client.root));
                    }
                }
            }
        }
        Ok(if joined {
            Registered::Joined
        } else {
            Registered::Created
        })
    }

    /// Whether `after` is `self` with other watchables at `root` and the
    /// watching flags of the clients at `root` brought in line with them:
    /// the projects, the clients and the watchables of the other roots are
    /// the same.
    pub open spec fn differs_at(&self, after: &State, root: Seq<char>) -> bool {
        &&& after.projects == self.projects
        &&& after.watcher.keys() == self.watcher.keys()
        &&& forall|r: Seq<char>| #[trigger]
            self.watcher.contains(r) && r != root ==> after.watcher.value_of(r)
                == self.watcher.value_of(r)
        &&& after.clients.pids() == self.clients.pids()
        &&& forall|p: i32| #[trigger]
            self.clients.contains(p) ==> after.clients.entry_of(p) == (ClientEntryView {
                watching: if self.clients.entry_of(p).client.root == root
                    && self.watcher.contains(root) {
                    after.watcher.value_of(root).owned_by(p)
                } else {
                    self.clients.entry_of(p).watching
                },
                ..self.clients.entry_of(p)
            })
    }

    /// A state that differs from a well-formed one in the watchables of
    /// one root alone is well-formed where those are.
    pub proof fn lemma_differs_at(&self, after: &State, root: Seq<char>)
        requires
            self.wf(),
            self.differs_at(after, root),
            after.clients.wf(),
            after.watcher.wf(),
            self.watcher.contains(root) ==> after.watcher.value_of(root).wf(),
        ensures
            after.wf(),
    {
        assert forall|r: Seq<char>| #[trigger] after.watcher.contains(r) implies after.watcher.value_of(
            r,
        ).wf() by {
            assert(self.watcher.contains(r));
        }
        assert forall|p: i32| #[trigger] after.clients.contains(p) implies self.clients.contains(p) by {}
        assert(after.stores_wf());
        assert(after.watched_iff_project()) by {
            assert forall|r: Seq<char>| #[trigger]
                after.watcher.contains(r) <==> after.projects.contains(r) by {
                assert(self.watcher.contains(r) <==> self.projects.contains(r));
            }
        }
        assert(after.projects_list_clients()) by {
            assert forall|r2: Seq<char>, p: i32|
                after.projects.contains(r2) && #[trigger] after.projects.project_of(
                    r2,
                ).clients.contains(p) implies after.clients.contains(p)
                && after.clients.entry_of(p).client.root == r2 by {
                assert(self.clients.contains(p));
            }
        }
        assert(after.clients_in_projects()) by {
            assert forall|p: i32| #[trigger] after.clients.contains(p) implies after.projects.contains(
                after.clients.entry_of(p).client.root,
            ) && after.projects.project_of(after.clients.entry_of(p).client.root).clients.contains(
                p,
            ) by {
                assert(self.clients.contains(p));
            }
        }
        assert(after.flags_exact()) by {
            assert forall|p: i32| #[trigger] after.clients.contains(p) implies after.clients.entry_of(
                p,
            ).watching == after.watcher.value_of(after.clients.entry_of(p).client.root).owned_by(
                p,
            ) by {
                assert(self.clients.contains(p));
                let r2 = self.clients.entry_of(p).client.root;
                assert(self.projects.contains(r2));
                assert(self.watcher.contains(r2));
            }
        }
    }

    /// Brings the watching flags of the clients at `root` in line with the
    /// watchables of that root, after these have changed.
    pub(crate) fn settle(&mut self, root: &str, Ghost(before): Ghost<State>)
        requires
            before.wf(),
            old(self).projects == before.projects,
            old(self).clients == before.clients,
            old(self).watcher.wf(),
            old(self).watcher.keys() == before.watcher.keys(),
            forall|r: Seq<char>| #[trigger]
                before.watcher.contains(r) && r != root@ ==> old(self).watcher.value_of(r)
                    == before.watcher.value_of(r),
            before.watcher.contains(root@) ==> old(self).watcher.value_of(root@).wf(),
        ensures
            final(self).wf(),
            final(self).watcher == old(self).watcher,
            before.differs_at(final(self), root@),
    {
        match self.watcher.get(root) {
            Some(service) => {
                self.clients.sync(root, service);
            },
            None => {},
        }
        proof {
            before.lemma_differs_at(self, root@);
        }
    }

    /// What detaching the client `pid` does to the state `self`, and what
    /// it returns. A client that is not attached is an error and no
    /// change. Else the client leaves the registry and the client list of
    /// the project at the root it was attached with. A project that is
    /// left without clients leaves the state together with its watch
    /// service, and both are handed to the caller; else projects and watch
    /// services stay as they are.
    pub open spec fn drop_spec(&self, pid: i32, post: &State, r: Result<Dropped, Error>) -> bool {
        if !self.clients.contains(pid) {
            r.is_err() && r.unwrap_err()@ == not_found("Client"@, decimal(pid as int)) && *post
                == *self
        } else {
            let root = self.clients.entry_of(pid).client.root;
            let remaining = without(self.projects.project_of(root).clients, pid);
            &&& r.is_ok()
            &&& forall|p: i32| #[trigger] post.clients.contains(p) <==> self.clients.contains(p) && p != pid
            &&& forall|p: i32| #[trigger]
                post.clients.contains(p) ==> post.clients.entry_of(p) == self.clients.entry_of(p)
            &&& post.projects.same_but(&self.projects, root)
            &&& forall|k: Seq<char>| #[trigger]
                post.watcher.contains(k) <==> self.watcher.contains(k) && (k != root
                    || remaining.len() > 0)
            &&& forall|k: Seq<char>| #[trigger]
                post.watcher.contains(k) ==> post.watcher.value_of(k) == self.watcher.value_of(k)
            &&& if remaining.len() == 0 {
                &&& !post.projects.contains(root)
                &&& r.unwrap().project.is_some()
                &&& r.unwrap().project.unwrap()@ == (ProjectView {
                    clients: Seq::empty(),
                    ..self.projects.project_of(root)
                })
                &&& r.unwrap().listeners.len() == self.watcher.value_of(root).keys().len()
                &&& forall|i: int|
                    0 <= i < r.unwrap().listeners.len() ==> (#[trigger] r.unwrap().listeners[i])@
                        == self.watcher.value_of(root).listener_of(
                        self.watcher.value_of(root).keys()[i],
                    )
            } else {
                &&& post.projects.contains(root)
                &&& post.projects.project_of(root) == (ProjectView {
                    clients: remaining,
                    ..self.projects.project_of(root)
                })
                &&& r.unwrap().project.is_none()
                &&& r.unwrap().listeners.len() == 0
            }
        }
    }

    /// Detaches a client.
    pub fn drop_client(&mut self, pid: i32) -> (r: Result<Dropped, Error>)
        requires
            old(self).wf(),
        ensures
            final(self).wf(),
            old(self).drop_spec(pid, final(self), r),
    {
        let client = match self.clients.get(&pid) {
            Ok(entry) => entry.client.clone(),
            Err(e) => {
                return Err(e);
            },
        };
        let ghost root = client@.root;
        let ghost list = old(self).projects.project_of(root).clients;
        proof {
            old(self).clients.lemma_entry_pid(pid);
            assert(old(self).projects.contains(root));
            assert(old(self).watcher.contains(root));
            assert forall|p: i32| without(list, pid).contains(p) <==> list.contains(p) && p != pid by {
                lemma_without(list, pid, p);
            }
        }
        let _ = self.clients.remove(pid);
        let project = match self.projects.remove(&client) {
            Ok(project) => project,
            Err(e) => None,
        };
        let mut listeners: Vec<Listener> = Vec::new();
        if project.is_some() {
            match self.watcher.get(client.root.as_str()) {
                Some(service) => {
                    listeners = service.listeners();
                },
                None => {},
            }
            let _ = self.watcher.remove(client.root.as_str());
        }
        proof {
            assert(self.watched_iff_project()) by {
                assert forall|r: Seq<char>| #[trigger]
                    self.watcher.contains(r) <==> self.projects.contains(r) by {
                    assert(old(self).watcher.contains(r) <==> old(self).projects.contains(r));
                }
            }
            assert(self.stores_wf()) by {
                assert forall|r: Seq<char>| #[trigger] self.watcher.contains(r) implies self.watcher.value_of(
                    r,
                ).wf() by {
                    assert(old(self).watcher.contains(r));
                }
            }
            assert(self.projects_list_clients()) by {
                assert forall|r2: Seq<char>, p: i32|
                    self.projects.contains(r2) && #[trigger] self.projects.project_of(
                        r2,
                    ).clients.contains(p) implies self.clients.contains(p)
                    && self.clients.entry_of(p).client.root == r2 by {
                    if r2 == root {
                        assert(list.contains(p) && p != pid);
                        assert(old(self).projects.project_of(root).clients.contains(p));
                    } else {
                        assert(old(self).projects.contains(r2));
                        assert(old(self).projects.project_of(r2).clients.contains(p));
                    }
                    assert(old(self).clients.contains(p));
                    assert(p != pid);
                    assert(self.clients.contains(p));
                }
            }
            assert forall|p: i32| #[trigger] self.clients.contains(p) implies old(self).clients.contains(
                p,
            ) && p != pid && old(self).projects.contains(old(self).clients.entry_of(p).client.root)
                && old(self).projects.project_of(
                old(self).clients.entry_of(p).client.root,
            ).clients.contains(p) && (old(self).clients.entry_of(p).client.root == root
                ==> without(list, pid).contains(p)) by {}
            assert(self.clients_in_projects()) by {
                assert forall|p: i32| #[trigger] self.clients.contains(p) implies self.projects.contains(
                    self.clients.entry_of(p).client.root,
                ) && self.projects.project_of(self.clients.entry_of(p).client.root).clients.contains(
                    p,
                ) by {
                    let r2 = old(self).clients.entry_of(p).client.root;
                    assert(old(self).projects.contains(r2));
                    if r2 == root {
                        assert(without(list, pid).contains(p));
                        assert(without(list, pid).len() > 0);
                    } else {
                        assert(self.projects.contains(r2));
                    }
                }
            }
            assert(self.flags_exact()) by {
                assert forall|p: i32| #[trigger] self.clients.contains(p) implies self.clients.entry_of(
                    p,
                ).watching == self.watcher.value_of(self.clients.entry_of(p).client.root).owned_by(
                    p,
                ) by {
                    let r2 = old(self).clients.entry_of(p).client.root;
                    assert(old(self).watcher.contains(r2));
                    if r2 == root {
                        assert(without(list, pid).contains(p));
                        assert(without(list, pid).len() > 0);
                    }
                    assert(self.watcher.contains(r2));
                }
            }
        }
        Ok(Dropped { project, listeners })
    }
}

} // verus!
