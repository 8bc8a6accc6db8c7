//! Document lifecycle events.

use vstd::prelude::*;

verus! {

/// What happened to a document.
#[derive(Clone, Copy, Debug, PartialEq, Eq, Structural)]
pub enum EventKind {
    Opened,
    Changed,
    Closed,
    Saved,
}

impl EventKind {
    /// Whether the event wrote the document to disk: true of a save only.
    pub open spec fn writes(self) -> bool {
        self == EventKind::Saved
    }

    /// Whether the event wrote the document to disk.
    pub fn is_write(self) -> (write: bool)
        ensures
            write == self.writes(),
    {
        match self {
            EventKind::Saved => true,
            EventKind::Opened | EventKind::Changed | EventKind::Closed => false,
        }
    }
}

/// One document lifecycle event, built for each document notification and
/// consumed at once.
#[derive(Clone, Debug, PartialEq, Eq)]
pub struct ActivityEvent {
    /// Location of the affected file.
    pub entity_path: String,
    pub kind: EventKind,
}

/// Mathematical model of an [`ActivityEvent`].
pub struct EventModel {
    pub entity_path: Seq<char>,
    pub kind: EventKind,
}

impl View for ActivityEvent {
    type V = EventModel;

    open spec fn view(&self) -> EventModel {
        EventModel { entity_path: self.entity_path@, kind: self.kind }
    }
}

impl ActivityEvent {
    /// Records that `kind` happened to the document at `entity_path`.
    pub fn new(entity_path: String, kind: EventKind) -> (event: ActivityEvent)
        ensures
            event@ == (EventModel { entity_path: entity_path@, kind }),
    {
        ActivityEvent { entity_path, kind }
    }

    /// Whether the event wrote the document to disk.
    pub fn is_write(&self) -> (write: bool)
        ensures
            write == self@.kind.writes(),
    {
        self.kind.is_write()
    }
}

} // verus!
