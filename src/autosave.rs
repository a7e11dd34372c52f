//! The autosave synchronizer: decides, tick by tick, when an edited buffer
//! has been quiet long enough to be written to the store.
//!
//! The timer loop itself runs outside; each tick hands the current time and
//! buffer to `Autosave::tick`, performs the write it returns, and reports the
//! outcome through `Autosave::finish`.

use vstd::prelude::*;
use crate::storage::{StoreOp, StoreOpM, save_op, save_op_of};

verus! {

/// The period of the autosave timer, in milliseconds.
pub const TICK_MS: u64 = 500;

/// How long the buffer must go without an edit before it is written, in
/// milliseconds.
pub const QUIET_MS: u64 = 1000;

/// Where the synchronizer stands.
#[derive(Debug, Clone, Copy, PartialEq, Eq, Structural)]
pub enum SaveState {
    /// Nothing is waiting to be written.
    Idle,
    /// The buffer has changed since the last write.
    Dirty,
    /// A write was issued and has not finished.
    Flushing,
}

/// The autosave watermark of one editable document.
#[derive(Debug)]
pub struct Autosave {
    /// The key the document is stored under.
    pub key: String,
    pub state: SaveState,
    /// Whether a write was issued and has not finished. It stays set when
    /// an edit makes the buffer dirty again meanwhile.
    pub in_flight: bool,
    /// When the buffer was last edited, in milliseconds.
    pub last_edit_time: u64,
    /// When a write last finished, in milliseconds.
    pub last_flush_time: u64,
}

/// The synchronizer after an edit at `now`.
pub open spec fn edited(s: Autosave, now: u64) -> Autosave {
    Autosave { state: SaveState::Dirty, last_edit_time: now, ..s }
}

/// A tick at `now` writes when the buffer is dirty, no write is in flight,
/// and the buffer has been quiet for the whole quiet period.
pub open spec fn flush_due(s: Autosave, now: u64) -> bool {
    &&& s.state == SaveState::Dirty
    &&& !s.in_flight
    &&& now as int - s.last_edit_time as int >= QUIET_MS as int
}

/// The synchronizer after a tick at `now`.
pub open spec fn ticked(s: Autosave, now: u64) -> Autosave {
    if flush_due(s, now) {
        Autosave { state: SaveState::Flushing, in_flight: true, ..s }
    } else {
        s
    }
}

/// The write a tick at `now` issues, if any.
pub open spec fn tick_op(s: Autosave, now: u64, buffer: Seq<char>) -> Option<StoreOpM> {
    if flush_due(s, now) {
        Some(save_op_of(s.key@, buffer))
    } else {
        None
    }
}

/// The synchronizer after the write in flight finished at `now`. A failed
/// write leaves the buffer dirty, so the next due tick writes again; an
/// edit made while it was in flight keeps the buffer dirty either way.
/// With no write in flight nothing changes.
pub open spec fn finished(s: Autosave, now: u64, ok: bool) -> Autosave {
    if !s.in_flight {
        s
    } else {
        Autosave {
            state: if s.state == SaveState::Flushing {
                if ok {
                    SaveState::Idle
                } else {
                    SaveState::Dirty
                }
            } else {
                s.state
            },
            in_flight: false,
            last_flush_time: if ok {
                now
            } else {
                s.last_flush_time
            },
            ..s
        }
    }
}

/// An optional store operation as an optional model.
pub open spec fn op_view(o: Option<StoreOp>) -> Option<StoreOpM> {
    match o {
        Some(op) => Some(op@),
        None => None,
    }
}

impl Autosave {
    /// A fresh synchronizer for the document under `key`.
    pub open spec fn new_spec(key: String) -> Autosave {
        Autosave { key, state: SaveState::Idle, in_flight: false, last_edit_time: 0, last_flush_time: 0 }
    }

    /// A synchronizer for the document under `key`, with nothing to write.
    pub fn new(key: String) -> (r: Autosave)
        ensures
            r == Autosave::new_spec(key),
    {
        Autosave { key, state: SaveState::Idle, in_flight: false, last_edit_time: 0, last_flush_time: 0 }
    }

    /// Records an edit of the buffer at `now`.
    pub fn edit(&mut self, now: u64)
        ensures
            *final(self) == edited(*old(self), now),
    {
        self.state = SaveState::Dirty;
        self.last_edit_time = now;
    }

    /// Whether a tick at `now` writes.
    pub fn is_flush_due(&self, now: u64) -> (r: bool)
        ensures
            r == flush_due(*self, now),
    {
        self.state == SaveState::Dirty && !self.in_flight && now >= self.last_edit_time && now
            - self.last_edit_time >= QUIET_MS
    }

    /// One timer tick at `now`, with the buffer as it stands: returns the
    /// write to perform, if one is due. No write is issued while another is
    /// in flight.
    pub fn tick(&mut self, now: u64, buffer: &str) -> (r: Option<StoreOp>)
        ensures
            *final(self) == ticked(*old(self), now),
            op_view(r) == tick_op(*old(self), now, buffer@),
            old(self).in_flight ==> r is None,
            r is Some ==> final(self).in_flight,
    {
        if self.is_flush_due(now) {
            self.state = SaveState::Flushing;
            self.in_flight = true;
            Some(save_op(self.key.as_str(), buffer))
        } else {
            None
        }
    }

    /// Records that the write in flight finished at `now`, and whether it
    /// succeeded.
    pub fn finish(&mut self, now: u64, ok: bool)
        ensures
            *final(self) == finished(*old(self), now, ok),
    {
        if !self.in_flight {
            return;
        }
        if self.state == SaveState::Flushing {
            self.state = if ok { SaveState::Idle } else { SaveState::Dirty };
        }
        self.in_flight = false;
        if ok {
            self.last_flush_time = now;
        }
    }
}

/// Debounce: with no write in flight, after edits at `t1` and then `t2`, no
/// tick before `t2` plus the quiet period writes or changes anything; a tick
/// at or after it writes the buffer. While that write is in flight no tick
/// issues another, not even after a further edit, and once it has finished
/// no tick writes again until the next edit.
pub proof fn lemma_debounce(
    s: Autosave,
    t1: u64,
    t2: u64,
    now: u64,
    done: u64,
    later: u64,
    buffer: Seq<char>,
    later_buffer: Seq<char>,
)
    requires
        t1 <= t2,
        !s.in_flight,
    ensures
        ({
            let e = edited(edited(s, t1), t2);
            &&& now < t2 + QUIET_MS ==> tick_op(e, now, buffer) is None && ticked(e, now) == e
            &&& now >= t2 + QUIET_MS ==> tick_op(e, now, buffer) == Some(save_op_of(s.key@, buffer))
            &&& now >= t2 + QUIET_MS ==> tick_op(ticked(e, now), later, later_buffer) is None
            &&& now >= t2 + QUIET_MS ==> tick_op(finished(ticked(e, now), done, true), later, later_buffer) is None
            &&& now >= t2 + QUIET_MS ==> tick_op(edited(ticked(e, now), done), later, later_buffer) is None
        }),
{
}

/// At most one write is in flight: a tick issues none while one is, an
/// edit does not end it, and a tick that writes marks one in flight.
pub proof fn lemma_one_write_in_flight(s: Autosave, now: u64, t: u64, buffer: Seq<char>)
    ensures
        s.in_flight ==> tick_op(s, now, buffer) is None && ticked(s, now) == s,
        edited(s, t).in_flight == s.in_flight,
        tick_op(s, now, buffer) is Some ==> !s.in_flight && ticked(s, now).in_flight,
{
}

} // verus!
