//! The debounce clock of a watcher and the memo of the last path it saw.
use vstd::prelude::*;
use vstd::string::*;
use std::time::{Duration, SystemTime};
use crate::text::same_text;

verus! {

/// A point in time of the system clock, opaque to the proofs.
#[verifier::external_type_specification]
#[verifier::external_body]
pub struct ExSystemTime(SystemTime);

/// `SystemTime::now` reads the system clock; nothing is known of the value.
pub assume_specification[ SystemTime::now ]() -> (t: SystemTime)
;

/// `Duration::as_millis` gives the whole milliseconds of a duration; the
/// duration is opaque, so nothing is stated of the number.
pub assume_specification[ Duration::as_millis ](d: &Duration) -> (ms: u128)
;

/// `SystemTime::elapsed` measures the time since `since` on the system
/// clock; it fails where the clock has gone back behind `since`, which
/// gives `None` here.
#[verifier::external_body]
fn elapsed_since(since: &SystemTime) -> (r: Option<Duration>) {
    since.elapsed().ok()
}

/// The default threshold, in milliseconds, under which a second
/// notification for the same path counts as seen.
pub const DEBOUNCE_MILLIS: u128 = 150;

/// What a watcher remembers between two notifications: when it last
/// finished an event, and the path of the last notification.
pub struct InternalState {
    debounce: SystemTime,
    last_path: String,
}

impl InternalState {
    /// The remembered path.
    pub closed spec fn path(&self) -> Seq<char> {
        self.last_path@
    }

    /// A state that remembers no path, with the clock started now.
    pub fn new() -> (s: InternalState)
        ensures
            s.path() == Seq::<char>::empty(),
    {
        InternalState { debounce: SystemTime::now(), last_path: String::new() }
    }

    /// Restarts the debounce clock. The remembered path stays.
    pub fn update_debounce(&mut self)
        ensures
            final(self).path() == old(self).path(),
    {
        self.debounce = SystemTime::now();
    }

    /// Milliseconds since the debounce clock was last restarted; zero where
    /// the system clock has gone back behind that moment.
    pub fn last_run(&self) -> (ms: u128) {
        match elapsed_since(&self.debounce) {
            Some(d) => d.as_millis(),
            None => 0,
        }
    }

    /// The remembered path.
    #[must_use]
    pub fn last_path(&self) -> (p: String)
        ensures
            p@ == self.path(),
    {
        self.last_path.clone()
    }

    /// Remembers `path` as the last one seen.
    pub fn remember(&mut self, path: &str)
        ensures
            final(self).path() == path@,
    {
        self.last_path = String::from_str(path);
    }

    /// Whether a notification for `path` that comes `elapsed` milliseconds
    /// after the last event repeats what was just seen.
    pub open spec fn repeats(&self, path: Seq<char>, elapsed: u128, threshold: u128) -> bool {
        self.path() == path && elapsed < threshold
    }

    /// Whether a notification for `path` that comes `elapsed` milliseconds
    /// after the last event repeats what was just seen.
    pub fn is_repeat(&self, path: &str, elapsed: u128, threshold: u128) -> (r: bool)
        ensures
            r == self.repeats(path@, elapsed, threshold),
    {
        same_text(self.last_path.as_str(), path) && elapsed < threshold
    }
}

impl Default for InternalState {
    fn default() -> (s: InternalState)
        ensures
            s.path() == Seq::<char>::empty(),
    {
        InternalState::new()
    }
}

} // verus!
