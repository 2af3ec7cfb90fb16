//! How the daemon answers the requests to build and to run: what changes
//! in the state, and what the caller is to do.
use vstd::prelude::*;
use vstd::string::*;
use crate::client::{Echo, EchoView};
use crate::error::{not_found, Error};
use crate::state::State;
use crate::text::{decimal, decimal_string, join2, join3};
use crate::error::ErrorView;
use crate::types::{BuildMethodView, Operation};
use crate::watch::{
    build_identity, run_identity, BuildRequest, BuildRequestView, Listener, ListenerView,
    RunRequest, RunRequestView, RunService, RunServiceView, Watchable,
};

verus! {

/// What a request to build or to run comes to.
#[derive(Debug)]
pub enum Outcome {
    /// The work is to be carried out once, now; nothing was registered.
    Once,
    /// A watchable was registered for the request.
    Watching,
    /// A watchable with the identity of the request is registered already;
    /// nothing changed, and the client is to be told so.
    AlreadyWatching(Echo),
    /// The project is to be built and started; when it runs, the watchable
    /// is registered with [`State::started`].
    Start,
    /// The watchable of the request was taken out of the registry and is to
    /// be discarded.
    Stopped(Listener),
}

/// The text that tells a client that `key` is being watched already.
pub open spec fn already_watching(key: Seq<char>) -> Seq<char> {
    "Already watching with "@ + key + "!!"@
}

/// The message that tells the client `pid` that `key` is being watched
/// already.
pub open spec fn already_watching_echo(pid: i32, key: Seq<char>) -> EchoView {
    EchoView { pid, scope: Seq::empty(), text: already_watching(key), error: true }
}

/// Whether `post` is `pre` with `listener` registered at `root` behind the
/// watchables that were there, and the watching flags in line with that.
pub open spec fn watched(pre: &State, post: &State, root: Seq<char>, listener: ListenerView) -> bool {
    &&& pre.differs_at(post, root)
    &&& post.watcher.value_of(root).keys() == pre.watcher.value_of(root).keys().push(
        listener.identity(),
    )
    &&& post.watcher.value_of(root).listener_of(listener.identity()) == listener
    &&& forall|k: Seq<char>| #[trigger]
        pre.watcher.value_of(root).contains(k) ==> post.watcher.value_of(root).listener_of(k)
            == pre.watcher.value_of(root).listener_of(k)
}

/// Whether `post` is `pre` without the watchable `key` at `root`, and the
/// watching flags in line with that.
pub open spec fn unwatched(pre: &State, post: &State, root: Seq<char>, key: Seq<char>) -> bool {
    &&& pre.differs_at(post, root)
    &&& post.watcher.value_of(root).keys() == pre.watcher.value_of(root).keys().remove(
        pre.watcher.value_of(root).keys().index_of(key),
    )
    &&& forall|k: Seq<char>| #[trigger]
        post.watcher.value_of(root).contains(k) <==> pre.watcher.value_of(root).contains(k) && k
            != key
    &&& forall|k: Seq<char>| #[trigger]
        post.watcher.value_of(root).contains(k) ==> post.watcher.value_of(root).listener_of(k)
            == pre.watcher.value_of(root).listener_of(k)
}

/// What a request of the client `pid` to watch with `listener` at `root`
/// does to the state `pre`, and what it returns. The client has to be
/// attached and the root has to have a watch service, in that order, else
/// a lookup error. An identity that is registered is not registered again:
/// the client is told, and nothing changes.
pub open spec fn watch_spec(
    pre: &State,
    pid: i32,
    root: Seq<char>,
    listener: ListenerView,
    post: &State,
    r: Result<Outcome, Error>,
) -> bool {
    if !pre.clients.contains(pid) {
        r.is_err() && r.unwrap_err()@ == not_found("Client"@, decimal(pid as int)) && *post == *pre
    } else if !pre.watcher.contains(root) {
        r.is_err() && r.unwrap_err()@ == not_found("Watcher"@, root) && *post == *pre
    } else if pre.watcher.value_of(root).contains(listener.identity()) {
        &&& r.is_ok()
        &&& r.unwrap() is AlreadyWatching
        &&& r.unwrap()->AlreadyWatching_0@ == already_watching_echo(pid, listener.identity())
        &&& *post == *pre
    } else {
        r.is_ok() && r.unwrap() is Watching && watched(pre, post, root, listener)
    }
}

/// What a request of the client `pid` to stop the watchable `key` at
/// `root` does to the state `pre`, and what it returns. The client has to
/// be attached, the root has to have a watch service and the watchable has
/// to be registered, in that order, else a lookup error and no change.
pub open spec fn stop_spec(
    pre: &State,
    pid: i32,
    root: Seq<char>,
    key: Seq<char>,
    post: &State,
    r: Result<Outcome, Error>,
) -> bool {
    if !pre.clients.contains(pid) {
        r.is_err() && r.unwrap_err()@ == not_found("Client"@, decimal(pid as int)) && *post == *pre
    } else if !pre.watcher.contains(root) {
        r.is_err() && r.unwrap_err()@ == not_found("Watcher"@, root) && *post == *pre
    } else if !pre.watcher.value_of(root).contains(key) {
        r.is_err() && r.unwrap_err()@ == not_found("Watchable"@, key) && *post == *pre
    } else {
        &&& r.is_ok()
        &&& r.unwrap() is Stopped
        &&& r.unwrap()->Stopped_0@ == pre.watcher.value_of(root).listener_of(key)
        &&& unwatched(pre, post, root, key)
    }
}

impl State {
    /// Registers a watchable for the client `pid` at `root`.
    pub fn watch(&mut self, pid: i32, root: &String, listener: Listener) -> (r: Result<
        Outcome,
        Error,
    >)
        requires
            old(self).wf(),
        ensures
            final(self).wf(),
            watch_spec(old(self), pid, root@, listener@, final(self), r),
    {
        if !self.clients.contains_key(pid) {
            let key = decimal_string(pid as i64);
            return Err(Error::missing("Client", key.as_str()));
        }
        let key = listener.to_string();
        let taken = match self.watcher.get(root.as_str()) {
            Some(service) => service.contains_key(key.as_str()),
            None => {
                return Err(Error::missing("Watcher", root.as_str()));
            },
        };
        if taken {
            let text = join3("Already watching with ", key.as_str(), "!!");
            return Ok(
                Outcome::AlreadyWatching(Echo { pid, scope: String::new(), text, error: true }),
            );
        }
        let ghost before = *self;
        match self.watcher.get_mut(root.as_str()) {
            Some(service) => {
                let _ = service.add(listener);
            },
            None => {},
        }
        proof {
            before.watcher.lemma_lengths();
            before.watcher.lemma_updated(self.watcher, root@);
        }
        self.settle(root.as_str(), Ghost(before));
        Ok(Outcome::Watching)
    }

    /// Takes the watchable `key` at `root` out of the registry, for the
    /// client `pid`.
    pub fn stop(&mut self, pid: i32, root: &String, key: &String) -> (r: Result<Outcome, Error>)
        requires
            old(self).wf(),
        ensures
            final(self).wf(),
            stop_spec(old(self), pid, root@, key@, final(self), r),
    {
        if !self.clients.contains_key(pid) {
            let key = decimal_string(pid as i64);
            return Err(Error::missing("Client", key.as_str()));
        }
        let present = match self.watcher.get(root.as_str()) {
            Some(service) => service.contains_key(key.as_str()),
            None => {
                return Err(Error::missing("Watcher", root.as_str()));
            },
        };
        if !present {
            return Err(Error::missing("Watchable", key.as_str()));
        }
        let ghost before = *self;
        let removed = match self.watcher.get_mut(root.as_str()) {
            Some(service) => service.remove(key),
            None => Err(Error::missing("Watcher", root.as_str())),
        };
        proof {
            before.watcher.lemma_lengths();
            before.watcher.lemma_updated(self.watcher, root@);
        }
        self.settle(root.as_str(), Ghost(before));
        match removed {
            Ok(listener) => Ok(Outcome::Stopped(listener)),
            Err(e) => Err(e),
        }
    }
}

/// What a request of the client `pid` to build, or to build and run, once
/// at `root` comes to: the project and the client are looked up, in that
/// order, and nothing changes.
pub open spec fn once_spec(
    pre: &State,
    pid: i32,
    root: Seq<char>,
    post: &State,
    r: Result<Outcome, Error>,
) -> bool {
    &&& *post == *pre
    &&& if !pre.projects.contains(root) {
        r.is_err() && r.unwrap_err()@ == not_found("Project"@, root)
    } else if !pre.clients.contains(pid) {
        r.is_err() && r.unwrap_err()@ == not_found("Client"@, decimal(pid as int))
    } else {
        r.is_ok() && r.unwrap() is Once
    }
}

/// What a request to build does to the state `pre`, and what it returns.
pub open spec fn build_spec(
    pre: &State,
    request: BuildRequestView,
    post: &State,
    r: Result<Outcome, Error>,
) -> bool {
    match request.ops {
        Operation::Once => once_spec(pre, request.client.pid, request.client.root, post, r),
        Operation::Watch => watch_spec(
            pre,
            request.client.pid,
            request.client.root,
            ListenerView::Build(request),
            post,
            r,
        ),
        Operation::Stop => stop_spec(
            pre,
            request.client.pid,
            request.client.root,
            build_identity(request.settings),
            post,
            r,
        ),
    }
}

/// The run that a request to run is watched as.
pub open spec fn run_service(request: RunRequestView) -> ListenerView {
    ListenerView::Run(
        RunServiceView {
            client: request.client,
            settings: request.settings,
            device: request.device,
        },
    )
}

/// What a request to run does to the state `pre`, and what it returns. A
/// request to watch changes nothing yet: where it can be met the project
/// is to be built and started first.
pub open spec fn run_spec(
    pre: &State,
    request: RunRequestView,
    post: &State,
    r: Result<Outcome, Error>,
) -> bool {
    match request.ops {
        Operation::Once => once_spec(pre, request.client.pid, request.client.root, post, r),
        Operation::Watch => {
            &&& *post == *pre
            &&& if !pre.clients.contains(request.client.pid) {
                r.is_err() && r.unwrap_err()@ == not_found(
                    "Client"@,
                    decimal(request.client.pid as int),
                )
            } else if !pre.watcher.contains(request.client.root) {
                r.is_err() && r.unwrap_err()@ == not_found("Watcher"@, request.client.root)
            } else if pre.watcher.value_of(request.client.root).contains(
                run_identity(request.settings),
            ) {
                &&& r.is_ok()
                &&& r.unwrap() is AlreadyWatching
                &&& r.unwrap()->AlreadyWatching_0@ == already_watching_echo(
                    request.client.pid,
                    run_identity(request.settings),
                )
            } else {
                r.is_ok() && r.unwrap() is Start
            }
        },
        Operation::Stop => stop_spec(
            pre,
            request.client.pid,
            request.client.root,
            run_identity(request.settings),
            post,
            r,
        ),
    }
}

/// The error of a build that failed before a run.
pub open spec fn build_failed(method: BuildMethodView) -> ErrorView {
    ErrorView::Build("["@ + method.log_info() + "] failed to be built"@)
}

impl BuildRequest {
    /// The title of the log of a build for this request: `Build` for a
    /// request that is carried out once, `Rebuild` for one that is watched,
    /// then a colon and the name of the scheme or target.
    pub fn title(&self) -> (s: String)
        ensures
            s@ == (if self.ops == Operation::Once {
                "Build:"@
            } else {
                "Rebuild:"@
            }) + self@.settings.method.scheme_or_target(),
    {
        if self.ops.is_once() {
            join2("Build:", self.settings.method.scheme_or_target())
        } else {
            join2("Rebuild:", self.settings.method.scheme_or_target())
        }
    }

    /// What the client is told when the build failed.
    pub fn failure(&self) -> (s: String)
        ensures
            s@ == "Failed: "@ + self@.settings.command_line() + " "@,
    {
        join3("Failed: ", self.settings.to_string().as_str(), " ")
    }
}

impl RunRequest {
    /// The title of the log while the project is built.
    pub fn build_title(&self) -> (s: String)
        ensures
            s@ == "Build:"@ + self@.settings.method.scheme_or_target(),
    {
        join2("Build:", self.settings.method.scheme_or_target())
    }

    /// The title of the log while the project runs.
    pub fn run_title(&self) -> (s: String)
        ensures
            s@ == "Run:"@ + self@.settings.method.scheme_or_target(),
    {
        join2("Run:", self.settings.method.scheme_or_target())
    }

    /// The error of a run whose build failed.
    pub fn build_failure(&self) -> (e: Error)
        ensures
            e@ == build_failed(self@.settings.method),
    {
        Error::Build(join3("[", self.settings.method.format_for_log_info().as_str(), "] failed to be built"))
    }
}

impl State {
    /// Answers a request to carry work out once.
    fn once(&self, pid: i32, root: &String) -> (r: Result<Outcome, Error>)
        requires
            self.wf(),
        ensures
            once_spec(self, pid, root@, self, r),
    {
        if !self.projects.contains_root(root.as_str()) {
            return Err(Error::missing("Project", root.as_str()));
        }
        if !self.clients.contains_key(pid) {
            let key = decimal_string(pid as i64);
            return Err(Error::missing("Client", key.as_str()));
        }
        Ok(Outcome::Once)
    }

    /// Answers a request to build: once, at every change from now on, or
    /// no longer.
    pub fn build(&mut self, request: BuildRequest) -> (r: Result<Outcome, Error>)
        requires
            old(self).wf(),
        ensures
            final(self).wf(),
            build_spec(old(self), request@, final(self), r),
    {
        match request.ops {
            Operation::Once => self.once(request.client.pid, &request.client.root),
            Operation::Watch => {
                let pid = request.client.pid;
                let root = request.client.root.clone();
                self.watch(pid, &root, Listener::Build(request))
            },
            Operation::Stop => {
                let key = request.to_string();
                self.stop(request.client.pid, &request.client.root, &key)
            },
        }
    }

    /// Answers a request to run: once, at every change from now on, or no
    /// longer. A request to watch is only examined here: where the answer
    /// is [`Outcome::Start`], the caller builds and starts the project and
    /// reports with [`State::started`].
    pub fn run(&mut self, request: &RunRequest) -> (r: Result<Outcome, Error>)
        requires
            old(self).wf(),
        ensures
            final(self).wf(),
            run_spec(old(self), request@, final(self), r),
    {
        match request.ops {
            Operation::Once => self.once(request.client.pid, &request.client.root),
            Operation::Watch => {
                let pid = request.client.pid;
                if !self.clients.contains_key(pid) {
                    let key = decimal_string(pid as i64);
                    return Err(Error::missing("Client", key.as_str()));
                }
                let key = request.to_string();
                match self.watcher.get(request.client.root.as_str()) {
                    Some(service) => {
                        if service.contains_key(key.as_str()) {
                            let text = join3("Already watching with ", key.as_str(), "!!");
                            Ok(
                                Outcome::AlreadyWatching(
                                    Echo { pid, scope: String::new(), text, error: true },
                                ),
                            )
                        } else {
                            Ok(Outcome::Start)
                        }
                    },
                    None => Err(Error::missing("Watcher", request.client.root.as_str())),
                }
            },
            Operation::Stop => {
                let key = request.to_string();
                self.stop(request.client.pid, &request.client.root, &key)
            },
        }
    }

    /// Takes note of how the build for a request to run and watch went.
    /// After a build that failed nothing is registered, and the error says
    /// what failed. After one that succeeded the run is registered as a
    /// watchable, as [`State::watch`] does it.
    pub fn started(&mut self, request: &RunRequest, built: bool) -> (r: Result<Outcome, Error>)
        requires
            old(self).wf(),
        ensures
            final(self).wf(),
            !built ==> r.is_err() && r.unwrap_err()@ == build_failed(request@.settings.method)
                && *final(self) == *old(self),
            built ==> watch_spec(
                old(self),
                request.client.pid,
                request@.client.root,
                run_service(request@),
                final(self),
                r,
            ),
    {
        if !built {
            return Err(request.build_failure());
        }
        self.watch(request.client.pid, &request.client.root, Listener::Run(RunService::new(request)))
    }
}

} // verus!
