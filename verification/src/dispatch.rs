//! What the daemon does with a filesystem event at a project root.
use vstd::prelude::*;
use vstd::string::*;
use crate::client::{Echo, EchoView};
use crate::error::{not_found, Error};
use crate::event::{Event, EventKind, EventView};
use crate::keep::kept;
use crate::project::event_regenerates;
use crate::path::abbreviated;
use crate::state::State;
use crate::types::Client;
use crate::watch::{Decision, Step, WatchService};

verus! {

/// Whether an event is left over from a rename to another place: a rename
/// whose path is gone. Such an event is passed over.
pub open spec fn vanished_rename(event: EventView, path_exists: bool) -> bool {
    event.kind == EventKind::Rename && !path_exists
}

/// Whether an event is one after which the compilation database may be out
/// of date at all: a creation, a removal, a change of content, or a rename
/// that was not seen just before.
pub open spec fn worth_checking(event: EventView) -> bool {
    ||| event.kind == EventKind::Create
    ||| event.kind == EventKind::Remove
    ||| event.kind == EventKind::ContentUpdate
    ||| event.kind == EventKind::Rename && !event.seen
}

/// Whether the compilation database of a project is to be generated anew
/// at an event: the event is not passed over, it is worth checking, and it
/// changes the structure of the project.
pub open spec fn recompiles(event: EventView, path_exists: bool) -> bool {
    !vanished_rename(event, path_exists) && worth_checking(event) && event_regenerates(event)
}

/// What the steps of a dispatch say of the watchables that were registered
/// in `service`: one step for each, in the order of registration, with the
/// watchable as it was and the decision for it.
pub open spec fn plan_of(
    service: &WatchService,
    event: EventView,
    path_exists: bool,
    exited: Seq<Seq<char>>,
    plan: Seq<Step>,
) -> bool {
    &&& plan.len() == service.keys().len()
    &&& forall|i: int|
        0 <= i < plan.len() ==> (#[trigger] plan[i]).key@ == service.keys()[i] && plan[i].listener@
            == service.listener_of(service.keys()[i]) && plan[i].decision
            == plan[i].listener@.decide(event, path_exists, exited.contains(service.keys()[i]))
}

/// What a service holds after a dispatch: the watchables that were not
/// discarded, as they were and in their order.
pub open spec fn survived(
    before: &WatchService,
    event: EventView,
    path_exists: bool,
    exited: Seq<Seq<char>>,
    after: &WatchService,
) -> bool {
    &&& after.keys() == kept(before.keys(), before.survivors(event, path_exists, exited))
    &&& forall|k: Seq<char>| #[trigger]
        after.contains(k) <==> before.contains(k) && before.listener_of(k).decide(
            event,
            path_exists,
            exited.contains(k),
        ) != Decision::Discard
    &&& forall|k: Seq<char>| #[trigger]
        after.contains(k) ==> after.listener_of(k) == before.listener_of(k)
}

/// What the dispatch of an event at `root` does to the state `pre`, and
/// what it returns. A root without a watch service is a lookup error and
/// no change: the project is gone, and its watcher is to end. Else the
/// steps say what is to be done with each watchable of the root, the
/// discarded ones have left the registry, and the watching flags of the
/// clients at the root are in line with what is left.
pub open spec fn dispatch_spec(
    pre: &State,
    root: Seq<char>,
    event: EventView,
    path_exists: bool,
    exited: Seq<Seq<char>>,
    post: &State,
    r: Result<Vec<Step>, Error>,
) -> bool {
    if !pre.watcher.contains(root) {
        r.is_err() && r.unwrap_err()@ == not_found("Watcher"@, root) && *post == *pre
    } else {
        &&& r.is_ok()
        &&& plan_of(&pre.watcher.value_of(root), event, path_exists, exited, r.unwrap()@)
        &&& pre.differs_at(post, root)
        &&& survived(
            &pre.watcher.value_of(root),
            event,
            path_exists,
            exited,
            &post.watcher.value_of(root),
        )
    }
}

impl State {
    /// Whether the compilation database of the project at `root` is to be
    /// generated anew at an event, before the watchables are asked; a
    /// lookup error where the root has no project.
    pub fn recompile(&self, root: &String, event: &Event, path_exists: bool) -> (r: Result<
        bool,
        Error,
    >)
        requires
            self.wf(),
        ensures
            self.projects.contains(root@) ==> r.is_ok() && r.unwrap() == recompiles(
                event@,
                path_exists,
            ),
            !self.projects.contains(root@) ==> r.is_err() && r.unwrap_err()@ == not_found(
                "Project"@,
                root@,
            ),
    {
        let project = match self.projects.get(root) {
            Ok(project) => project,
            Err(e) => {
                return Err(e);
            },
        };
        if event.is_rename_event() && !path_exists {
            return Ok(false);
        }
        let worth = event.is_create_event() || event.is_remove_event()
            || event.is_content_update_event() || event.is_rename_event() && !event.is_seen();
        Ok(worth && project.should_generate(event))
    }

    /// Dispatches an event to the watchables of `root`. `exited` names the
    /// runs whose process has come to an end.
    pub fn dispatch(
        &mut self,
        root: &String,
        event: &Event,
        path_exists: bool,
        exited: &Vec<String>,
    ) -> (r: Result<Vec<Step>, Error>)
        requires
            old(self).wf(),
        ensures
            final(self).wf(),
            dispatch_spec(
                old(self),
                root@,
                event@,
                path_exists,
                exited.deep_view(),
                final(self),
                r,
            ),
    {
        if !self.watcher.contains_key(root.as_str()) {
            return Err(Error::missing("Watcher", root.as_str()));
        }
        let ghost before = *self;
        let plan = match self.watcher.get_mut(root.as_str()) {
            Some(service) => service.dispatch(event, path_exists, exited),
            None => Vec::new(),
        };
        proof {
            before.watcher.lemma_lengths();
            before.watcher.lemma_updated(self.watcher, root@);
        }
        self.settle(root.as_str(), Ghost(before));
        Ok(plan)
    }

    /// What the clients are told after the compilation database of the
    /// project of `client` was generated anew: a message for every client
    /// at that root, oldest first, about the short form of the root.
    pub fn recompiled(&self, client: &Client) -> (r: Vec<Echo>)
        ensures
            r.len() == self.clients.recipients(client@.root).len(),
            forall|i: int|
                0 <= i < r.len() ==> (#[trigger] r[i])@ == (EchoView {
                    pid: self.clients.recipients(client@.root)[i],
                    scope: abbreviated(client@.root),
                    text: "new compilation database generated ✅"@,
                    error: false,
                }),
    {
        let name = client.abbrev_root();
        self.clients.echo_msg(
            client.root.as_str(),
            name.as_str(),
            "new compilation database generated ✅",
        )
    }
}

} // verus!
