//! What a poller is asked to watch for, and what it is told.

use vstd::prelude::*;

verus! {

/// An interest in a source of events, or the notice that the source is ready.
///
/// The fields are all that can be asked for through a poller's event type.
#[derive(Clone, Copy, Debug, PartialEq, Eq, Structural)]
pub struct Event {
    /// Which source the event belongs to.
    pub key: usize,
    /// Can the source be read without blocking?
    pub readable: bool,
    /// Can the source be written without blocking?
    pub writable: bool,
    /// Has the other side gone away?
    pub interrupt: bool,
    /// Is there urgent data to read?
    pub priority: bool,
}

/// For how long, and on what occasion, an interest is served.
#[derive(Clone, Copy, Debug, PartialEq, Eq, Structural)]
pub enum PollMode {
    /// One event, after which the interest is gone.
    Oneshot,
    /// An event for as long as the source is ready.
    Level,
    /// An event each time that the source becomes ready.
    Edge,
    /// One event when the source next becomes ready, after which the interest is gone.
    EdgeOneshot,
}

impl PollMode {
    /// Does an interest in this mode end with its first event?
    pub open spec fn ends_after_event(self) -> bool {
        self is Oneshot || self is EdgeOneshot
    }
}

/// `event` under another key.
pub open spec fn keyed(event: Event, key: usize) -> Event {
    Event { key, ..event }
}

/// Puts `event` under `key`, and leaves the rest of it alone.
pub fn with_key(event: Event, key: usize) -> (res: Event)
    ensures
        res == keyed(event, key),
        res.key == key,
        res.readable == event.readable,
        res.writable == event.writable,
        res.interrupt == event.interrupt,
        res.priority == event.priority,
{
    let mut event = event;
    event.key = key;
    event
}

/// Under another key, an event has that key and asks for what it asked for before. The key it
/// had is forgotten.
pub proof fn law_only_the_key_changes(event: Event, first: usize, second: usize)
    ensures
        keyed(event, first).key == first,
        keyed(event, first).readable == event.readable,
        keyed(event, first).writable == event.writable,
        keyed(event, first).interrupt == event.interrupt,
        keyed(event, first).priority == event.priority,
        keyed(keyed(event, first), second) == keyed(event, second),
        keyed(event, event.key) == event,
{
}

} // verus!
