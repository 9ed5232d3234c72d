use vstd::prelude::*;

verus! {

/// An append-only log of the events of one frame. Rotating it at a frame
/// boundary drops its events and starts a new generation, so that readers
/// can tell that their offsets are stale.
pub struct EventLog<T> {
    events: Vec<T>,
    generation: u64,
}

impl<T> EventLog<T> {
    /// The events of the current generation, in delivery order.
    pub closed spec fn events(&self) -> Seq<T> {
        self.events@
    }

    pub closed spec fn generation(&self) -> u64 {
        self.generation
    }

    pub fn new() -> (r: Self)
        ensures
            r.events().len() == 0,
            r.generation() == 0,
    {
        EventLog { events: Vec::new(), generation: 0 }
    }

    /// Appends one event.
    pub fn send(&mut self, event: T)
        ensures
            final(self).events() == old(self).events().push(event),
            final(self).generation() == old(self).generation(),
    {
        self.events.push(event);
    }

    /// Drops every event and starts the next generation.
    pub fn rotate(&mut self)
        ensures
            final(self).events().len() == 0,
            final(self).generation() != old(self).generation(),
    {
        self.events.clear();
        self.generation = if self.generation == u64::MAX {
            0
        } else {
            self.generation + 1
        };
    }

    pub fn len(&self) -> (r: usize)
        ensures
            r == self.events().len(),
    {
        self.events.len()
    }

    pub fn get(&self, index: usize) -> (r: &T)
        requires
            index < self.events().len(),
        ensures
            *r == self.events()[index as int],
    {
        &self.events[index]
    }
}

/// One consumer's read position in an `EventLog`.
pub struct EventCursor {
    pub generation: u64,
    pub offset: usize,
}

impl EventCursor {
    /// A cursor that has read nothing.
    pub fn new() -> (r: Self)
        ensures
            r.generation == 0,
            r.offset == 0,
    {
        EventCursor { generation: 0, offset: 0 }
    }

    /// Where the unread events of `log` start: the cursor's offset while
    /// the log is of the generation it last read and that long at least, else
    /// the start of the log.
    pub open spec fn unread_start<T>(&self, log: &EventLog<T>) -> int {
        if self.generation == log.generation() && self.offset <= log.events().len() {
            self.offset as int
        } else {
            0
        }
    }

    /// Takes the events of `log` that this cursor has not read yet: returns
    /// the range `start..end` of their indices and moves the cursor past
    /// them. Each event is handed out at most once while its generation
    /// lasts, and never past the end of the log.
    pub fn read<T>(&mut self, log: &EventLog<T>) -> (r: (usize, usize))
        ensures
            r.0 == old(self).unread_start(log),
            r.1 == log.events().len(),
            r.0 <= r.1,
            final(self).generation == log.generation(),
            final(self).offset == log.events().len(),
    {
        let n = log.len();
        let start = if self.generation == log.generation && self.offset <= n {
            self.offset
        } else {
            0
        };
        self.generation = log.generation;
        self.offset = n;
        (start, n)
    }
}

/// A cursor that has just read a log finds nothing more to read in it until
/// new events are sent: no event is handed out twice.
pub proof fn lemma_read_leaves_nothing_unread<T>(cursor: EventCursor, log: EventLog<T>)
    requires
        cursor.generation == log.generation(),
        cursor.offset == log.events().len(),
    ensures
        cursor.unread_start(&log) == log.events().len(),
{
}

} // verus!
