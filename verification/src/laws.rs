//! Laws of the daemon's state that hold of every well-formed state and of
//! every run of its operations.
use vstd::prelude::*;
use crate::dispatch::{dispatch_spec, recompiles};
use crate::error::{not_found, Error};
use crate::event::{EventKind, EventView};
use crate::project::Discovery;
use crate::project::{lemma_without, without};
use crate::request::{already_watching_echo, build_spec, stop_spec, watch_spec, Outcome};
use crate::state::{Dropped, Registered, State};
use crate::bsp::file_args_of;
use crate::extensions::RegisterAction;
use crate::types::{BuildConfigurationView, ClientView, Operation};
use crate::watch::{BuildRequestView, Decision, ListenerView, Step};

verus! {

/// Every process id in the client list of a project belongs to an attached
/// client, and that client is attached with the project's root.
pub proof fn law_listed_clients_are_attached(state: &State, root: Seq<char>, pid: i32)
    requires
        state.wf(),
        state.projects.contains(root),
        state.projects.project_of(root).clients.contains(pid),
    ensures
        state.clients.contains(pid),
        state.clients.entry_of(pid).client.root == root,
{
}

/// Every attached client has a project and a watch service at its root,
/// and is listed by that project.
pub proof fn law_attached_clients_are_listed(state: &State, pid: i32)
    requires
        state.wf(),
        state.clients.contains(pid),
    ensures
        state.projects.contains(state.clients.entry_of(pid).client.root),
        state.watcher.contains(state.clients.entry_of(pid).client.root),
        state.projects.project_of(state.clients.entry_of(pid).client.root).clients.contains(pid),
{
    let root = state.clients.entry_of(pid).client.root;
    assert(state.projects.contains(root));
    assert(state.watcher.contains(root));
}

/// A project has a client as long as it is in the state.
pub proof fn law_projects_have_clients(state: &State, root: Seq<char>)
    requires
        state.wf(),
        state.projects.contains(root),
    ensures
        state.projects.project_of(root).clients.len() > 0,
{
}

/// Detaching the last client of a project removes the project and its
/// watch service.
pub proof fn law_last_client_takes_project(
    pre: &State,
    pid: i32,
    post: &State,
    r: Result<Dropped, Error>,
)
    requires
        pre.wf(),
        pre.clients.contains(pid),
        pre.drop_spec(pid, post, r),
        forall|p: i32|
            pre.projects.project_of(pre.clients.entry_of(pid).client.root).clients.contains(p)
                ==> p == pid,
    ensures
        r.is_ok(),
        r.unwrap().project.is_some(),
        !post.clients.contains(pid),
        !post.projects.contains(pre.clients.entry_of(pid).client.root),
        !post.watcher.contains(pre.clients.entry_of(pid).client.root),
{
    let root = pre.clients.entry_of(pid).client.root;
    let list = pre.projects.project_of(root).clients;
    let rest = without(list, pid);
    if rest.len() > 0 {
        lemma_without(list, pid, rest[0]);
        assert(rest.contains(rest[0]));
    }
}

/// Within one watch service no two watchables share an identity.
pub proof fn law_identities_unique(state: &State, root: Seq<char>, i: int, j: int)
    requires
        state.wf(),
        state.watcher.contains(root),
        0 <= i < j < state.watcher.value_of(root).keys().len(),
    ensures
        state.watcher.value_of(root).keys()[i] != state.watcher.value_of(root).keys()[j],
{
    assert(state.watcher.value_of(root).wf());
}

/// A client is flagged as watching exactly when one of the watchables
/// registered for its root is its own.
pub proof fn law_watching_flag(state: &State, pid: i32)
    requires
        state.wf(),
        state.clients.contains(pid),
    ensures
        state.clients.entry_of(pid).watching <==> exists|key: Seq<char>| #[trigger]
            state.watcher.value_of(state.clients.entry_of(pid).client.root).contains(key)
                && state.watcher.value_of(state.clients.entry_of(pid).client.root).listener_of(
                key,
            ).owner() == pid,
{
}

/// After a request to stop has been met, the watchable is registered no
/// longer; nor is it after the request has failed for want of it.
pub proof fn law_stop_removes(
    pre: &State,
    pid: i32,
    root: Seq<char>,
    key: Seq<char>,
    post: &State,
    r: Result<Outcome, Error>,
)
    requires
        pre.wf(),
        stop_spec(pre, pid, root, key, post, r),
        r.is_ok() || (pre.clients.contains(pid) && pre.watcher.contains(root)),
    ensures
        post.watcher.contains(root),
        !post.watcher.value_of(root).contains(key),
{
    if pre.clients.contains(pid) && pre.watcher.contains(root) && pre.watcher.value_of(
        root,
    ).contains(key) {
        assert(post.watcher.value_of(root).contains(key) <==> pre.watcher.value_of(root).contains(
            key,
        ) && key != key);
    }
}

/// A request to stop a watchable that is not registered fails with a
/// lookup error for the watchable and changes nothing.
pub proof fn law_stop_unknown(
    pre: &State,
    pid: i32,
    root: Seq<char>,
    key: Seq<char>,
    post: &State,
    r: Result<Outcome, Error>,
)
    requires
        pre.wf(),
        pre.clients.contains(pid),
        pre.watcher.contains(root),
        !pre.watcher.value_of(root).contains(key),
        stop_spec(pre, pid, root, key, post, r),
    ensures
        r.is_err(),
        r.unwrap_err()@ == not_found("Watchable"@, key),
        *post == *pre,
{
}

/// Two requests to watch with the same identity, one after the other,
/// leave one watchable under that identity, and the second is answered
/// with the message that the identity is being watched already and
/// changes nothing.
pub proof fn law_watch_twice(
    s0: &State,
    s1: &State,
    s2: &State,
    pid: i32,
    root: Seq<char>,
    first: ListenerView,
    second: ListenerView,
    r1: Result<Outcome, Error>,
    r2: Result<Outcome, Error>,
)
    requires
        s0.wf(),
        s1.wf(),
        first.identity() == second.identity(),
        watch_spec(s0, pid, root, first, s1, r1),
        watch_spec(s1, pid, root, second, s2, r2),
        r1.is_ok(),
    ensures
        r2.is_ok(),
        r2.unwrap() is AlreadyWatching,
        r2.unwrap()->AlreadyWatching_0@ == already_watching_echo(pid, first.identity()),
        *s2 == *s1,
        s2.watcher.value_of(root).contains(first.identity()),
        s2.watcher.value_of(root).keys().no_duplicates(),
        s0.watcher.value_of(root).contains(first.identity()) ==> *s1 == *s0,
        !s0.watcher.value_of(root).contains(first.identity()) ==> s1.watcher.value_of(
            root,
        ).listener_of(first.identity()) == first,
{
    let key = first.identity();
    assert(s0.clients.contains(pid));
    assert(s0.watcher.contains(root));
    if !s0.watcher.value_of(root).contains(key) {
        let before = s0.watcher.value_of(root).keys();
        assert(s1.watcher.value_of(root).keys() == before.push(key));
        assert(before.push(key)[before.len() as int] == key);
    }
    assert(s1.watcher.value_of(root).contains(key));
    assert(s1.clients.contains(pid));
    assert(s1.watcher.contains(root));
    assert(s1.watcher.value_of(root).wf());
}

/// What the cache of the build server holds for a file is what the
/// database that was read last says of it.
pub proof fn law_cache_follows_database(state: &crate::bsp::State, path: Seq<char>)
    requires
        state.wf(),
        state.file_args().contains_key(path),
    ensures
        file_args_of(state.compile_db()).contains_key(path),
        state.file_args()[path] == file_args_of(state.compile_db())[path],
{
    state.lemma_cache();
    assert(!Map::<Seq<char>, Seq<Seq<char>>>::empty().contains_key(path));
}

/// Writing an operation as text and reading the text gives the operation
/// back.
pub proof fn law_operation_round_trip(op: Operation)
    ensures
        Operation::parse(op.name()) == Some(op),
{
    reveal_strlit("Watch");
    reveal_strlit("Stop");
    reveal_strlit("Once");
    assert("Watch"@.len() == 5 && "Stop"@.len() == 4 && "Once"@.len() == 4);
    assert("Stop"@[0] == 'S' && "Once"@[0] == 'O');
}

/// Writing a register action as text and reading the text gives the
/// action back.
pub proof fn law_register_action_round_trip(action: RegisterAction)
    ensures
        RegisterAction::parse(action.name()) == Some(action),
{
    reveal_strlit("register");
    reveal_strlit("unregister");
    assert("register"@.len() == 8 && "unregister"@.len() == 10);
}

/// Writing a configuration as text and reading the text gives the
/// configuration back, unless it is a custom configuration with a name:
/// the text of a custom configuration does not hold its name.
pub proof fn law_configuration_round_trip(configuration: BuildConfigurationView)
    requires
        configuration matches BuildConfigurationView::Custom(name) ==> name.len() == 0,
    ensures
        BuildConfigurationView::parse(configuration.name()) == Some(configuration),
{
    reveal_strlit("Debug");
    reveal_strlit("Release");
    reveal_strlit("Custom");
    assert("Debug"@.len() == 5 && "Release"@.len() == 7 && "Custom"@.len() == 6);
    match configuration {
        BuildConfigurationView::Custom(name) => {
            assert(name =~= Seq::<char>::empty());
        },
        _ => {},
    }
}

/// A dispatch decides once for every watchable of the root, one after the
/// other in the order of registration: no identity occurs in two of its
/// steps, and a watchable is left behind exactly when its step does not
/// discard it.
pub proof fn law_dispatch_decides_once(
    pre: &State,
    root: Seq<char>,
    event: EventView,
    path_exists: bool,
    exited: Seq<Seq<char>>,
    post: &State,
    r: Result<Vec<Step>, Error>,
    i: int,
    j: int,
)
    requires
        pre.wf(),
        pre.watcher.contains(root),
        dispatch_spec(pre, root, event, path_exists, exited, post, r),
        0 <= i < j < r.unwrap()@.len(),
    ensures
        r.is_ok(),
        r.unwrap()@[i].key@ != r.unwrap()@[j].key@,
        post.watcher.value_of(root).contains(r.unwrap()@[i].key@) <==> r.unwrap()@[i].decision
            != Decision::Discard,
{
    let service = pre.watcher.value_of(root);
    assert(service.wf());
    let plan = r.unwrap()@;
    assert(plan[i].key@ == service.keys()[i]);
    assert(plan[j].key@ == service.keys()[j]);
    assert(service.contains(service.keys()[i]));
}

/// A client that attaches as the first at its root and detaches again
/// leaves the state without itself, without the project and without the
/// watch service of the root; the projects and watch services of the other
/// roots are what they were.
pub proof fn law_register_then_drop(
    s0: &State,
    client: ClientView,
    found: Discovery,
    s1: &State,
    r1: Result<Registered, Error>,
    s2: &State,
    r2: Result<Dropped, Error>,
)
    requires
        s0.wf(),
        s1.wf(),
        !s0.clients.contains(client.pid),
        !s0.projects.contains(client.root),
        s0.register_spec(client, found, s1, r1),
        r1.is_ok(),
        s1.drop_spec(client.pid, s2, r2),
    ensures
        r1.unwrap() == Registered::Created,
        s1.projects.project_of(client.root).clients == seq![client.pid],
        r2.is_ok(),
        r2.unwrap().project.is_some(),
        r2.unwrap().listeners.len() == 0,
        !s2.clients.contains(client.pid),
        !s2.projects.contains(client.root),
        !s2.watcher.contains(client.root),
        forall|root: Seq<char>| #[trigger] s2.projects.contains(root) <==> s0.projects.contains(root),
        forall|root: Seq<char>| #[trigger] s2.watcher.contains(root) <==> s0.watcher.contains(root),
        forall|p: i32| #[trigger] s2.clients.contains(p) <==> s0.clients.contains(p),
{
    let list = seq![client.pid];
    assert(s1.clients.contains(client.pid));
    assert(s1.clients.entry_of(client.pid).client.root == client.root);
    let rest = without(list, client.pid);
    if rest.len() > 0 {
        lemma_without(list, client.pid, rest[0]);
        assert(rest.contains(rest[0]));
    }
    assert(!s0.watcher.contains(client.root));
    assert forall|root: Seq<char>| #[trigger] s2.projects.contains(root) <==> s0.projects.contains(
        root,
    ) by {
        if root != client.root {
            assert(s1.projects.contains(root) <==> s0.projects.contains(root));
            assert(s2.projects.contains(root) <==> s1.projects.contains(root));
        }
    }
    assert forall|root: Seq<char>| #[trigger] s2.watcher.contains(root) <==> s0.watcher.contains(
        root,
    ) by {
        assert(s1.watcher.contains(root) <==> s0.watcher.contains(root) || root == client.root);
    }
    assert forall|p: i32| #[trigger] s2.clients.contains(p) <==> s0.clients.contains(p) by {
        assert(s1.clients.contains(p) <==> s0.clients.contains(p) || p == client.pid);
    }
}

/// A request to build once changes nothing in the state: no watchable is
/// registered for it.
pub proof fn law_build_once_registers_nothing(
    pre: &State,
    request: BuildRequestView,
    post: &State,
    r: Result<Outcome, Error>,
)
    requires
        pre.wf(),
        request.ops == Operation::Once,
        build_spec(pre, request, post, r),
    ensures
        *post == *pre,
        r.is_ok() <==> pre.projects.contains(request.client.root) && pre.clients.contains(
            request.client.pid,
        ),
        r.is_ok() ==> r.unwrap() is Once,
{
}

/// The compilation database is generated anew at a creation or a removal
/// and at a rename that was not seen just before and whose path is there;
/// never at a change of content.
pub proof fn law_regeneration(event: EventView, path_exists: bool)
    ensures
        recompiles(event, path_exists) <==> event.kind == EventKind::Create || event.kind
            == EventKind::Remove || (event.kind == EventKind::Rename && !event.seen
            && path_exists),
        event.kind == EventKind::ContentUpdate ==> !recompiles(event, path_exists),
{
}

/// After a watchable was registered for a client at the root it is
/// attached with, the client is flagged as watching.
pub proof fn law_watch_sets_flag(
    pre: &State,
    pid: i32,
    root: Seq<char>,
    listener: ListenerView,
    post: &State,
    r: Result<Outcome, Error>,
)
    requires
        pre.wf(),
        watch_spec(pre, pid, root, listener, post, r),
        r.is_ok(),
        r.unwrap() is Watching,
        listener.owner() == pid,
        pre.clients.contains(pid),
        pre.clients.entry_of(pid).client.root == root,
    ensures
        post.clients.entry_of(pid).watching,
{
    let key = listener.identity();
    let before = pre.watcher.value_of(root).keys();
    assert(post.watcher.value_of(root).keys() == before.push(key));
    assert(before.push(key)[before.len() as int] == key);
    assert(post.watcher.value_of(root).contains(key));
}

} // verus!
