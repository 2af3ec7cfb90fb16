//! Watchables and the registry of them that a project root owns.
//!
//! A watchable is a unit of work that is carried out again when the
//! filesystem changes. This module decides; it does not build or run. For
//! each event the registry says, watchable by watchable, whether it is to be
//! discarded, triggered or left alone, and the caller carries that out.
use vstd::prelude::*;
use vstd::string::*;
use crate::error::{not_found, Error};
use crate::event::{Event, EventKind, EventView};
use crate::registry::Registry;
use crate::text::{contains_text, join2};
use crate::types::{
    BuildSettings, BuildSettingsView, Client, ClientView, DeviceLookup, DeviceLookupView,
    Operation,
};

verus! {

/// A request to build a project once, at every change, or no longer.
#[derive(Debug)]
pub struct BuildRequest {
    pub client: Client,
    pub settings: BuildSettings,
    pub ops: Operation,
}

/// The mathematical value of a [`BuildRequest`].
pub struct BuildRequestView {
    pub client: ClientView,
    pub settings: BuildSettingsView,
    pub ops: Operation,
}

impl View for BuildRequest {
    type V = BuildRequestView;

    open spec fn view(&self) -> BuildRequestView {
        BuildRequestView { client: self.client@, settings: self.settings@, ops: self.ops }
    }
}

impl Clone for BuildRequest {
    fn clone(&self) -> (r: BuildRequest)
        ensures
            r@ == self@,
    {
        BuildRequest {
            client: self.client.clone(),
            settings: self.settings.clone(),
            ops: self.ops,
        }
    }
}

/// A request to build and run a project once, at every change, or no longer.
#[derive(Debug)]
pub struct RunRequest {
    pub client: Client,
    pub settings: BuildSettings,
    pub device: DeviceLookup,
    pub ops: Operation,
}

/// The mathematical value of a [`RunRequest`].
pub struct RunRequestView {
    pub client: ClientView,
    pub settings: BuildSettingsView,
    pub device: DeviceLookupView,
    pub ops: Operation,
}

impl View for RunRequest {
    type V = RunRequestView;

    open spec fn view(&self) -> RunRequestView {
        RunRequestView {
            client: self.client@,
            settings: self.settings@,
            device: self.device@,
            ops: self.ops,
        }
    }
}

impl Clone for RunRequest {
    fn clone(&self) -> (r: RunRequest)
        ensures
            r@ == self@,
    {
        RunRequest {
            client: self.client.clone(),
            settings: self.settings.clone(),
            device: self.device.clone(),
            ops: self.ops,
        }
    }
}

/// A project that was built and started for a [`RunRequest`], watched so
/// that it is built and started again when the sources change. The process
/// itself is the caller's.
#[derive(Debug)]
pub struct RunService {
    pub client: Client,
    pub settings: BuildSettings,
    pub device: DeviceLookup,
}

/// The mathematical value of a [`RunService`].
pub struct RunServiceView {
    pub client: ClientView,
    pub settings: BuildSettingsView,
    pub device: DeviceLookupView,
}

impl View for RunService {
    type V = RunServiceView;

    open spec fn view(&self) -> RunServiceView {
        RunServiceView { client: self.client@, settings: self.settings@, device: self.device@ }
    }
}

impl Clone for RunService {
    fn clone(&self) -> (r: RunService)
        ensures
            r@ == self@,
    {
        RunService {
            client: self.client.clone(),
            settings: self.settings.clone(),
            device: self.device.clone(),
        }
    }
}

impl RunService {
    /// The service that a run request starts.
    pub fn new(request: &RunRequest) -> (s: RunService)
        ensures
            s@ == (RunServiceView {
                client: request@.client,
                settings: request@.settings,
                device: request@.device,
            }),
    {
        RunService {
            client: request.client.clone(),
            settings: request.settings.clone(),
            device: request.device.clone(),
        }
    }
}

/// The identity of a build watchable for the given settings.
pub open spec fn build_identity(settings: BuildSettingsView) -> Seq<char> {
    "Build:"@ + settings.identity()
}

/// The identity of a run watchable for the given settings.
pub open spec fn run_identity(settings: BuildSettingsView) -> Seq<char> {
    "Run:"@ + settings.identity()
}

/// Whether an event makes a build or a run start again: any change of
/// content, rename, creation or removal, and any event for a path that is
/// gone and was not seen just before.
pub open spec fn event_triggers(event: EventView, path_exists: bool) -> bool {
    ||| event.kind == EventKind::ContentUpdate
    ||| event.kind == EventKind::Rename
    ||| event.kind == EventKind::Create
    ||| event.kind == EventKind::Remove
    ||| !(path_exists || event.seen)
}

/// Whether an event makes a build or a run start again.
pub fn triggers(event: &Event, path_exists: bool) -> (r: bool)
    ensures
        r == event_triggers(event@, path_exists),
{
    event.is_content_update_event() || event.is_rename_event() || event.is_create_event()
        || event.is_remove_event() || !(path_exists || event.is_seen())
}

/// Something that reacts to filesystem changes. What this trait decides is
/// when; to carry out a trigger or a discard is left to the caller.
pub trait Watchable {
    /// The key under which the watchable is registered.
    spec fn identity(&self) -> Seq<char>;

    /// The process id of the client that registered the watchable.
    spec fn owner(&self) -> i32;

    /// Whether the event makes the watchable start again.
    spec fn triggered_by(&self, event: EventView, path_exists: bool) -> bool;

    /// Whether the watchable is to be dropped, given whether what it
    /// started has come to an end.
    spec fn discarded_by(&self, event: EventView, ended: bool) -> bool;

    /// The key under which the watchable is registered.
    fn to_string(&self) -> (s: String)
        ensures
            s@ == self.identity(),
    ;

    /// Whether the event makes the watchable start again.
    fn should_trigger(&self, event: &Event, path_exists: bool) -> (r: bool)
        ensures
            r == self.triggered_by(event@, path_exists),
    ;

    /// Whether the watchable is to be dropped.
    fn should_discard(&self, event: &Event, ended: bool) -> (r: bool)
        ensures
            r == self.discarded_by(event@, ended),
    ;
}

impl Watchable for BuildRequest {
    open spec fn identity(&self) -> Seq<char> {
        build_identity(self@.settings)
    }

    open spec fn owner(&self) -> i32 {
        self.client.pid
    }

    open spec fn triggered_by(&self, event: EventView, path_exists: bool) -> bool {
        event_triggers(event, path_exists)
    }

    /// A build is never dropped on an event.
    open spec fn discarded_by(&self, event: EventView, ended: bool) -> bool {
        false
    }

    fn to_string(&self) -> (s: String) {
        join2("Build:", self.settings.identity().as_str())
    }

    fn should_trigger(&self, event: &Event, path_exists: bool) -> (r: bool) {
        triggers(event, path_exists)
    }

    fn should_discard(&self, event: &Event, ended: bool) -> (r: bool) {
        false
    }
}

impl RunRequest {
    /// The key under which a run for this request is registered.
    pub fn to_string(&self) -> (s: String)
        ensures
            s@ == run_identity(self@.settings),
    {
        join2("Run:", self.settings.identity().as_str())
    }
}

impl Watchable for RunService {
    open spec fn identity(&self) -> Seq<char> {
        run_identity(self@.settings)
    }

    open spec fn owner(&self) -> i32 {
        self.client.pid
    }

    open spec fn triggered_by(&self, event: EventView, path_exists: bool) -> bool {
        event_triggers(event, path_exists)
    }

    /// A run is dropped once its process has exited.
    open spec fn discarded_by(&self, event: EventView, ended: bool) -> bool {
        ended
    }

    fn to_string(&self) -> (s: String) {
        join2("Run:", self.settings.identity().as_str())
    }

    fn should_trigger(&self, event: &Event, path_exists: bool) -> (r: bool) {
        triggers(event, path_exists)
    }

    fn should_discard(&self, event: &Event, ended: bool) -> (r: bool) {
        ended
    }
}

/// A registered watchable: a build or a run.
#[derive(Debug)]
pub enum Listener {
    Build(BuildRequest),
    Run(RunService),
}

/// The mathematical value of a [`Listener`].
pub enum ListenerView {
    Build(BuildRequestView),
    Run(RunServiceView),
}

impl ListenerView {
    /// The key under which the watchable is registered.
    pub open spec fn identity(self) -> Seq<char> {
        match self {
            ListenerView::Build(b) => build_identity(b.settings),
            ListenerView::Run(r) => run_identity(r.settings),
        }
    }

    /// The process id of the client that registered the watchable.
    pub open spec fn owner(self) -> i32 {
        match self {
            ListenerView::Build(b) => b.client.pid,
            ListenerView::Run(r) => r.client.pid,
        }
    }

    /// Whether the watchable is dropped once what it started has ended:
    /// a run is, a build never.
    pub open spec fn discarded_by(self, ended: bool) -> bool {
        match self {
            ListenerView::Build(_) => false,
            ListenerView::Run(_) => ended,
        }
    }

    /// What an event means for the watchable. An event of a rename whose
    /// path is gone is left over from a rename to another place and means
    /// nothing. Else a watchable that is to be dropped is discarded, also
    /// where the event would trigger it; one that is not is triggered where
    /// the event calls for it.
    pub open spec fn decide(self, event: EventView, path_exists: bool, ended: bool) -> Decision {
        if event.kind == EventKind::Rename && !path_exists {
            Decision::Keep
        } else if self.discarded_by(ended) {
            Decision::Discard
        } else if event_triggers(event, path_exists) {
            Decision::Trigger
        } else {
            Decision::Keep
        }
    }
}

impl View for Listener {
    type V = ListenerView;

    open spec fn view(&self) -> ListenerView {
        match self {
            Listener::Build(b) => ListenerView::Build(b@),
            Listener::Run(r) => ListenerView::Run(r@),
        }
    }
}

impl Clone for Listener {
    fn clone(&self) -> (r: Listener)
        ensures
            r@ == self@,
    {
        match self {
            Listener::Build(b) => Listener::Build(b.clone()),
            Listener::Run(r) => Listener::Run(r.clone()),
        }
    }
}

impl Watchable for Listener {
    open spec fn identity(&self) -> Seq<char> {
        self@.identity()
    }

    open spec fn owner(&self) -> i32 {
        self@.owner()
    }

    open spec fn triggered_by(&self, event: EventView, path_exists: bool) -> bool {
        event_triggers(event, path_exists)
    }

    open spec fn discarded_by(&self, event: EventView, ended: bool) -> bool {
        self@.discarded_by(ended)
    }

    fn to_string(&self) -> (s: String) {
        match self {
            Listener::Build(b) => b.to_string(),
            Listener::Run(r) => r.to_string(),
        }
    }

    fn should_trigger(&self, event: &Event, path_exists: bool) -> (r: bool) {
        triggers(event, path_exists)
    }

    fn should_discard(&self, event: &Event, ended: bool) -> (r: bool) {
        match self {
            Listener::Build(b) => b.should_discard(event, ended),
            Listener::Run(r) => r.should_discard(event, ended),
        }
    }
}

impl Listener {
    /// The process id of the client that registered the watchable.
    pub fn pid(&self) -> (p: i32)
        ensures
            p == self@.owner(),
    {
        match self {
            Listener::Build(b) => b.client.pid,
            Listener::Run(r) => r.client.pid,
        }
    }

    /// What an event means for the watchable.
    pub fn decision(&self, event: &Event, path_exists: bool, ended: bool) -> (d: Decision)
        ensures
            d == self@.decide(event@, path_exists, ended),
    {
        if event.is_rename_event() && !path_exists {
            Decision::Keep
        } else if self.should_discard(event, ended) {
            Decision::Discard
        } else if self.should_trigger(event, path_exists) {
            Decision::Trigger
        } else {
            Decision::Keep
        }
    }
}

/// What the dispatcher does with a watchable at an event.
#[derive(Debug, Clone, Copy, PartialEq, Eq, Structural)]
pub enum Decision {
    /// Nothing.
    Keep,
    /// The watchable starts again and stays registered.
    Trigger,
    /// The watchable is discarded and leaves the registry.
    Discard,
}

/// One line of a dispatch: a watchable as it was registered, and what is
/// to be done with it.
#[derive(Debug)]
pub struct Step {
    pub key: String,
    pub listener: Listener,
    pub decision: Decision,
}

/// The watchables of one project root, each under its identity.
pub struct WatchService {
    listeners: Registry<Listener>,
}

impl WatchService {
    /// The identities of the registered watchables, oldest first.
    pub closed spec fn keys(&self) -> Seq<Seq<char>> {
        self.listeners.keys()
    }

    /// Whether a watchable is registered under `key`.
    pub open spec fn contains(&self, key: Seq<char>) -> bool {
        self.keys().contains(key)
    }

    /// The watchable registered under `key`, where there is one.
    pub closed spec fn listener_of(&self, key: Seq<char>) -> ListenerView {
        self.listeners.value_of(key)@
    }

    /// No identity is registered twice, and every watchable is registered
    /// under its own identity.
    pub open spec fn wf(&self) -> bool {
        &&& self.keys().no_duplicates()
        &&& forall|k: Seq<char>| #[trigger] self.contains(k) ==> self.listener_of(k).identity() == k
    }

    /// Whether the client with process id `pid` has registered one of the
    /// watchables.
    pub open spec fn owned_by(&self, pid: i32) -> bool {
        exists|k: Seq<char>| #[trigger] self.contains(k) && self.listener_of(k).owner() == pid
    }

    /// The flags that keep what a dispatch does not discard.
    pub open spec fn survivors(
        &self,
        event: EventView,
        path_exists: bool,
        exited: Seq<Seq<char>>,
    ) -> Seq<bool> {
        Seq::new(
            self.keys().len(),
            |i: int|
                self.listener_of(self.keys()[i]).decide(
                    event,
                    path_exists,
                    exited.contains(self.keys()[i]),
                ) != Decision::Discard,
        )
    }

    /// A service without watchables.
    pub fn new() -> (s: WatchService)
        ensures
            s.wf(),
            s.keys() == Seq::<Seq<char>>::empty(),
    {
        WatchService { listeners: Registry::new() }
    }

    /// The number of registered watchables.
    pub fn len(&self) -> (n: usize)
        ensures
            n == self.keys().len(),
    {
        self.listeners.len()
    }

    /// Whether a watchable is registered under `key`.
    pub fn contains_key(&self, key: &str) -> (r: bool)
        ensures
            r == self.contains(key@),
    {
        self.listeners.contains_key(key)
    }

    /// The watchable registered under `key`, if there is one.
    pub fn get(&self, key: &str) -> (r: Option<&Listener>)
        requires
            self.wf(),
        ensures
            r.is_some() == self.contains(key@),
            r.is_some() ==> r.unwrap()@ == self.listener_of(key@),
    {
        self.listeners.get(key)
    }

    /// Whether the client with process id `pid` has registered one of the
    /// watchables.
    pub fn has_listener_of(&self, pid: i32) -> (r: bool)
        requires
            self.wf(),
        ensures
            r == self.owned_by(pid),
    {
        let n = self.listeners.len();
        let mut i: usize = 0;
        while i < n
            invariant
                self.wf(),
                n == self.listeners.keys().len(),
                n == self.listeners.values().len(),
                i <= n,
                forall|j: int|
                    0 <= j < i ==> (#[trigger] self.listeners.values()[j])@.owner() != pid,
            decreases n - i,
        {
            if self.listeners.value_at(i).pid() == pid {
                proof {
                    self.listeners.lemma_position(i as int);
                    assert(self.contains(self.keys()[i as int]));
                }
                return true;
            }
            i = i + 1;
        }
        proof {
            assert forall|k: Seq<char>| #[trigger] self.contains(k) implies self.listener_of(
                k,
            ).owner() != pid by {
                let j = self.listeners.index_of(k);
                assert(0 <= j < self.listeners.keys().len());
            }
        }
        false
    }

    /// Copies of the registered watchables, oldest first.
    pub fn listeners(&self) -> (r: Vec<Listener>)
        requires
            self.wf(),
        ensures
            r.len() == self.keys().len(),
            forall|i: int|
                0 <= i < r.len() ==> (#[trigger] r[i])@ == self.listener_of(self.keys()[i]),
    {
        let mut r: Vec<Listener> = Vec::new();
        let n = self.listeners.len();
        let mut i: usize = 0;
        while i < n
            invariant
                self.wf(),
                n == self.listeners.keys().len(),
                n == self.listeners.values().len(),
                i <= n,
                r.len() == i,
                forall|j: int|
                    0 <= j < i ==> (#[trigger] r[j])@ == self.listener_of(self.keys()[j]),
            decreases n - i,
        {
            proof {
                self.listeners.lemma_position(i as int);
            }
            r.push(self.listeners.value_at(i).clone());
            i = i + 1;
        }
        r
    }

    /// Registers a watchable under its identity. Where the identity is
    /// taken, the registered watchable stays and the new one is dropped.
    pub fn add(&mut self, watchable: Listener) -> (r: Result<(), Error>)
        requires
            old(self).wf(),
        ensures
            r.is_ok(),
            final(self).wf(),
            old(self).contains(watchable@.identity()) ==> final(self).keys() == old(self).keys()
                && forall|k: Seq<char>| #[trigger]
                final(self).contains(k) ==> final(self).listener_of(k) == old(self).listener_of(k),
            !old(self).contains(watchable@.identity()) ==> final(self).keys() == old(self).keys().push(watchable@.identity()) && final(self).listener_of(
                watchable@.identity(),
            ) == watchable@ && forall|k: Seq<char>| #[trigger]
                old(self).contains(k) ==> final(self).listener_of(k) == old(self).listener_of(k),
    {
        let key = watchable.to_string();
        if self.listeners.contains_key(key.as_str()) {
            return Ok(());
        }
        proof {
            self.listeners.lemma_lengths();
        }
        let ghost before = self.listeners;
        self.listeners.insert(key, watchable);
        proof {
            let n = before.keys().len() as int;
            self.listeners.lemma_lengths();
            self.listeners.lemma_position(n);
            assert forall|k: Seq<char>| #[trigger] old(self).contains(k) implies self.listener_of(k)
                == old(self).listener_of(k) by {
                let j = before.index_of(k);
                assert(self.listeners.keys()[j] == k);
                self.listeners.lemma_position(j);
            }
            assert forall|k: Seq<char>| #[trigger] self.contains(k) implies self.listener_of(
                k,
            ).identity() == k by {
                let j = self.listeners.index_of(k);
                if j < n {
                    assert(before.keys()[j] == k);
                    assert(old(self).contains(k));
                }
            }
        }
        Ok(())
    }

    /// Takes the watchable registered under `key` out and returns it; an
    /// error, and no change, where there is none.
    pub fn remove(&mut self, key: &String) -> (r: Result<Listener, Error>)
        requires
            old(self).wf(),
        ensures
            final(self).wf(),
            !final(self).contains(key@),
            old(self).contains(key@) ==> r.is_ok() && r.unwrap()@ == old(self).listener_of(key@)
                && final(self).keys() == old(self).keys().remove(old(self).keys().index_of(key@)),
            !old(self).contains(key@) ==> r.is_err() && r.unwrap_err()@ == not_found(
                "Watchable"@,
                key@,
            ) && final(self).keys() == old(self).keys(),
            forall|k: Seq<char>| #[trigger]
                final(self).contains(k) <==> old(self).contains(k) && k != key@,
            forall|k: Seq<char>| #[trigger]
                final(self).contains(k) ==> final(self).listener_of(k) == old(self).listener_of(k),
    {
        let ghost before = self.listeners;
        proof {
            before.lemma_lengths();
        }
        match self.listeners.remove(key.as_str()) {
            Some(listener) => {
                proof {
                    let i = before.index_of(key@);
                    let ks = before.keys();
                    self.listeners.lemma_lengths();
                    assert forall|k: Seq<char>| #[trigger] self.contains(k) implies old(self).contains(k) && k != key@ && self.listener_of(k) == old(self).listener_of(
                        k,
                    ) by {
                        let j = self.listeners.index_of(k);
                        self.listeners.lemma_position(j);
                        if j < i {
                            assert(ks[j] == k);
                            before.lemma_position(j);
                        } else {
                            assert(ks[j + 1] == k);
                            before.lemma_position(j + 1);
                        }
                    }
                    assert forall|k: Seq<char>| old(self).contains(k) && k != key@ implies #[trigger]
                        self.contains(k) by {
                        let x = before.index_of(k);
                        if x < i {
                            assert(self.listeners.keys()[x] == k);
                        } else {
                            assert(self.listeners.keys()[x - 1] == k);
                        }
                    }
                }
                Ok(listener)
            },
            None => {
                proof {
                    assert forall|k: Seq<char>| #[trigger] self.contains(k) implies self.listener_of(
                        k,
                    ) == old(self).listener_of(k) && old(self).contains(k) by {
                        assert(self.listeners.index_of(k) == before.index_of(k));
                    }
                }
                Err(Error::missing("Watchable", key.as_str()))
            },
        }
    }

    /// Decides for every registered watchable what an event means for it,
    /// and takes the discarded ones out of the registry. The steps come in
    /// the order of registration, one for each watchable that was
    /// registered, with the watchable as it was. `exited` names the runs
    /// whose process has come to an end.
    pub fn dispatch(&mut self, event: &Event, path_exists: bool, exited: &Vec<String>) -> (plan:
        Vec<Step>)
        requires
            old(self).wf(),
        ensures
            final(self).wf(),
            plan.len() == old(self).keys().len(),
            forall|i: int|
                0 <= i < plan.len() ==> (#[trigger] plan[i]).key@ == old(self).keys()[i]
                    && plan[i].listener@ == old(self).listener_of(old(self).keys()[i])
                    && plan[i].decision == plan[i].listener@.decide(
                    event@,
                    path_exists,
                    exited.deep_view().contains(old(self).keys()[i]),
                ),
            final(self).keys() == crate::keep::kept(
                old(self).keys(),
                old(self).survivors(event@, path_exists, exited.deep_view()),
            ),
            forall|k: Seq<char>| #[trigger]
                final(self).contains(k) <==> old(self).contains(k) && old(self).listener_of(
                    k,
                ).decide(event@, path_exists, exited.deep_view().contains(k)) != Decision::Discard,
            forall|k: Seq<char>| #[trigger]
                final(self).contains(k) ==> final(self).listener_of(k) == old(self).listener_of(k),
    {
        let mut plan: Vec<Step> = Vec::new();
        let mut keep: Vec<bool> = Vec::new();
        let n = self.listeners.len();
        let mut i: usize = 0;
        while i < n
            invariant
                self.wf(),
                *self == *old(self),
                n == self.listeners.keys().len(),
                i <= n,
                plan.len() == i,
                keep.len() == i,
                forall|j: int|
                    0 <= j < i ==> (#[trigger] plan[j]).key@ == self.keys()[j] && plan[j].listener@
                        == self.listener_of(self.keys()[j]) && plan[j].decision
                        == plan[j].listener@.decide(
                        event@,
                        path_exists,
                        exited.deep_view().contains(self.keys()[j]),
                    ),
                forall|j: int|
                    0 <= j < i ==> #[trigger] keep[j] == (self.listener_of(self.keys()[j]).decide(
                        event@,
                        path_exists,
                        exited.deep_view().contains(self.keys()[j]),
                    ) != Decision::Discard),
            decreases n - i,
        {
            proof {
                self.listeners.lemma_lengths();
                self.listeners.lemma_position(i as int);
            }
            let key = self.listeners.key_at(i);
            let listener = self.listeners.value_at(i);
            let ended = contains_text(exited, key);
            let decision = listener.decision(event, path_exists, ended);
            keep.push(!matches!(decision, Decision::Discard));
            plan.push(Step { key: String::from_str(key), listener: listener.clone(), decision });
            i = i + 1;
        }
        proof {
            assert(keep@ =~= old(self).survivors(event@, path_exists, exited.deep_view()));
        }
        let ghost before = self.listeners;
        self.listeners.retain(&keep);
        proof {
            assert forall|k: Seq<char>| #[trigger] self.contains(k) implies old(self).contains(k)
                && old(self).listener_of(k).decide(
                event@,
                path_exists,
                exited.deep_view().contains(k),
            ) != Decision::Discard by {
                assert(self.listeners.contains(k));
                let x = before.index_of(k);
                assert(before.keys()[x] == k);
            }
            assert forall|k: Seq<char>|
                old(self).contains(k) && old(self).listener_of(k).decide(
                    event@,
                    path_exists,
                    exited.deep_view().contains(k),
                ) != Decision::Discard implies #[trigger] self.contains(k) by {
                let x = before.index_of(k);
                assert(before.keys()[x] == k);
                assert(keep[x]);
                assert(self.listeners.contains(k));
            }
            assert forall|k: Seq<char>| #[trigger] self.contains(k) implies self.listener_of(k)
                == old(self).listener_of(k) by {
                assert(self.listeners.contains(k));
            }
        }
        plan
    }
}

} // verus!
