//! Filesystem events as the watcher hands them to its watchables.
use vstd::prelude::*;
use vstd::string::*;
use crate::clock::InternalState;
use crate::error::Error;
use crate::glob::{glob_any_match, invalid_patterns, is_ignored};

verus! {

/// What happened to a path.
#[derive(Debug, Clone, Copy, PartialEq, Eq, Structural)]
pub enum EventKind {
    Create,
    Remove,
    Rename,
    ContentUpdate,
    Other,
}

/// The kind of a raw notification of the operating system's watcher, as far
/// as the daemon tells kinds apart.
#[derive(Debug, Clone, Copy, PartialEq, Eq, Structural)]
pub enum RawKind {
    /// A file or directory was read or opened.
    Access,
    /// A file or directory was created.
    Create,
    /// The content of a file changed.
    ModifyData,
    /// Permissions, times or other metadata changed.
    ModifyMetadata,
    /// A file or directory was renamed.
    ModifyName,
    /// Another or an unknown modification.
    ModifyOther,
    /// A file or directory was removed.
    Remove,
    /// Anything else.
    Other,
}

impl RawKind {
    /// The one kind of event that a raw notification of this kind becomes.
    pub open spec fn kind(self) -> EventKind {
        match self {
            RawKind::Create => EventKind::Create,
            RawKind::Remove => EventKind::Remove,
            RawKind::ModifyName => EventKind::Rename,
            RawKind::ModifyData => EventKind::ContentUpdate,
            _ => EventKind::Other,
        }
    }

    /// The one kind of event that a raw notification of this kind becomes.
    pub fn classify(&self) -> (k: EventKind)
        ensures
            k == self.kind(),
    {
        match self {
            RawKind::Create => EventKind::Create,
            RawKind::Remove => EventKind::Remove,
            RawKind::ModifyName => EventKind::Rename,
            RawKind::ModifyData => EventKind::ContentUpdate,
            _ => EventKind::Other,
        }
    }
}

/// A raw notification: its kind and the paths it names.
#[derive(Debug)]
pub struct Notification {
    pub kind: RawKind,
    pub paths: Vec<String>,
}

/// A normalized filesystem event.
#[derive(Debug)]
pub struct Event {
    path: String,
    kind: EventKind,
    seen: bool,
}

/// The mathematical value of an [`Event`].
pub struct EventView {
    pub path: Seq<char>,
    pub kind: EventKind,
    pub seen: bool,
}

impl View for Event {
    type V = EventView;

    closed spec fn view(&self) -> EventView {
        EventView { path: self.path@, kind: self.kind, seen: self.seen }
    }
}

/// The event that a notification of kind `kind` for `path` becomes when the
/// watcher last saw `last_path`, `elapsed` milliseconds ago.
pub open spec fn normalized(
    kind: RawKind,
    path: Seq<char>,
    last_path: Seq<char>,
    elapsed: u128,
    threshold: u128,
) -> EventView {
    EventView { path, kind: kind.kind(), seen: last_path == path && elapsed < threshold }
}

impl Event {
    /// An event with the given parts.
    pub fn with(path: String, kind: EventKind, seen: bool) -> (e: Event)
        ensures
            e@ == (EventView { path: path@, kind, seen }),
    {
        Event { path, kind, seen }
    }

    /// The path the event is about.
    pub fn path(&self) -> (p: &str)
        ensures
            p@ == self@.path,
    {
        self.path.as_str()
    }

    /// What happened to the path.
    pub fn kind(&self) -> (k: EventKind)
        ensures
            k == self@.kind,
    {
        self.kind
    }

    /// Whether the same path was notified just before.
    pub fn is_seen(&self) -> (r: bool)
        ensures
            r == self@.seen,
    {
        self.seen
    }

    /// Whether a file or directory was created.
    pub fn is_create_event(&self) -> (r: bool)
        ensures
            r == (self@.kind == EventKind::Create),
    {
        matches!(self.kind, EventKind::Create)
    }

    /// Whether a file or directory was removed.
    pub fn is_remove_event(&self) -> (r: bool)
        ensures
            r == (self@.kind == EventKind::Remove),
    {
        matches!(self.kind, EventKind::Remove)
    }

    /// Whether a file or directory was renamed.
    pub fn is_rename_event(&self) -> (r: bool)
        ensures
            r == (self@.kind == EventKind::Rename),
    {
        matches!(self.kind, EventKind::Rename)
    }

    /// Whether the content of a file changed.
    pub fn is_content_update_event(&self) -> (r: bool)
        ensures
            r == (self@.kind == EventKind::ContentUpdate),
    {
        matches!(self.kind, EventKind::ContentUpdate)
    }

    /// The event of a notification that is not ignored: its first path and
    /// the kind it is classified as, marked as seen where it repeats the
    /// remembered path within the threshold. The path is remembered. A
    /// notification without a path gives no event and changes nothing.
    pub fn accept(
        state: &mut InternalState,
        notification: &Notification,
        elapsed: u128,
        threshold: u128,
    ) -> (r: Option<Event>)
        ensures
            notification.paths.len() == 0 ==> r.is_none() && final(state).path() == old(state).path(),
            notification.paths.len() > 0 ==> r.is_some() && r.unwrap()@ == normalized(
                notification.kind,
                notification.paths[0]@,
                old(state).path(),
                elapsed,
                threshold,
            ) && final(state).path() == notification.paths[0]@,
    {
        if notification.paths.len() == 0 {
            return None;
        }
        let path = notification.paths[0].clone();
        let seen = state.is_repeat(path.as_str(), elapsed, threshold);
        state.remember(path.as_str());
        Some(Event { path, kind: notification.kind.classify(), seen })
    }

    /// Normalizes a raw notification. A notification without a path, or
    /// whose first path matches one of the ignore patterns, is dropped: no
    /// event, and the remembered path stays. Otherwise the event is that of
    /// [`Event::accept`], with the time since the last event read from the
    /// debounce clock. Ignore patterns that are no glob expressions are an
    /// error.
    pub fn new(
        ignore: &Vec<String>,
        state: &mut InternalState,
        notification: &Notification,
        threshold: u128,
    ) -> (r: Result<Option<Event>, Error>)
        ensures
            notification.paths.len() == 0 ==> r.is_ok() && r.unwrap().is_none() && final(state).path() == old(state).path(),
            notification.paths.len() > 0 ==> match glob_any_match(
                ignore.deep_view(),
                notification.paths[0]@,
            ) {
                None => r.is_err() && r.unwrap_err()@ == invalid_patterns() && final(state).path() == old(state).path(),
                Some(true) => r.is_ok() && r.unwrap().is_none() && final(state).path() == old(state).path(),
                Some(false) => r.is_ok() && r.unwrap().is_some() && final(state).path()
                    == notification.paths[0]@ && exists|elapsed: u128|
                    r.unwrap().unwrap()@ == normalized(
                        notification.kind,
                        notification.paths[0]@,
                        old(state).path(),
                        elapsed,
                        threshold,
                    ),
            },
    {
        if notification.paths.len() == 0 {
            return Ok(None);
        }
        match is_ignored(ignore, notification.paths[0].as_str()) {
            Err(e) => Err(e),
            Ok(true) => Ok(None),
            Ok(false) => {
                let elapsed = state.last_run();
                Ok(Event::accept(state, notification, elapsed, threshold))
            },
        }
    }
}

impl Default for Event {
    /// The event handed to a watchable that is triggered by a request and
    /// not by the filesystem: no path, kind `Other`, not seen.
    fn default() -> (e: Event)
        ensures
            e@ == (EventView { path: Seq::empty(), kind: EventKind::Other, seen: false }),
    {
        Event { path: String::new(), kind: EventKind::Other, seen: false }
    }
}

} // verus!
