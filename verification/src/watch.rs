//! Single-session watch state machine over the board file.
//!
//! A process holds one `WatchSlot`. Starting a watch first retires any
//! session that is still installed and only then installs a fresh one, so
//! the slot moves strictly through the idle state and never holds two
//! live sessions. Each installed session is identified by a handle that
//! is never reused; the loop that consumes file-system events for a
//! session asks the slot, per event, whether its handle is still the
//! active one and whether the event's kind warrants the change signal.

use vstd::prelude::*;

verus! {

/// The kind of a raw file-system event, as far as the engine reads it.
/// Only content modifications produce the change signal; creation,
/// removal, access and everything else are discarded.
#[derive(Clone, Copy, PartialEq, Eq, Structural, Debug)]
pub enum WatchEventKind {
    Create,
    Modify,
    Remove,
    Access,
    Other,
}

/// The process-wide slot that owns at most one active watch session.
pub struct WatchSlot {
    /// The handle of the active session, `None` when idle.
    pub active: Option<u64>,
    /// The next handle to hand out; every handle below it is spent.
    pub next_handle: u64,
}

impl WatchSlot {
    /// Handles are handed out in order, so an installed handle is spent.
    pub open spec fn wf(self) -> bool {
        self.active matches Option::Some(h) ==> h < self.next_handle
    }

    /// The slot as a fresh process starts: idle, no handle spent.
    pub open spec fn spec_idle() -> WatchSlot {
        WatchSlot { active: Option::None, next_handle: 0 }
    }

    /// The start transition: the previous session, if any, is retired and
    /// a session under a fresh handle is installed.
    pub open spec fn spec_start(self) -> (WatchSlot, u64) {
        (
            WatchSlot {
                active: Option::Some(self.next_handle),
                next_handle: (self.next_handle + 1) as u64,
            },
            self.next_handle,
        )
    }

    /// The stop transition: the slot becomes idle; stopping an idle slot
    /// changes nothing.
    pub open spec fn spec_stop(self) -> WatchSlot {
        WatchSlot { active: Option::None, next_handle: self.next_handle }
    }

    /// Whether an event observed by the session under `handle` produces
    /// the change signal: only while that session is still the active one,
    /// and only for a content modification.
    pub open spec fn spec_emits(self, handle: u64, kind: WatchEventKind) -> bool {
        self.active == Option::Some(handle) && kind == WatchEventKind::Modify
    }

    /// A fresh, idle slot.
    pub fn idle() -> (s: WatchSlot)
        ensures
            s == WatchSlot::spec_idle(),
            s.wf(),
    {
        WatchSlot { active: Option::None, next_handle: 0 }
    }

    /// Whether a session is currently installed.
    pub fn is_watching(&self) -> (b: bool)
        ensures
            b == (self.active is Some),
    {
        match self.active {
            Option::Some(_) => true,
            Option::None => false,
        }
    }

    /// Starts a session: retires the previous one first, then installs a
    /// fresh handle, so the transition passes through the idle state. The
    /// returned handle is distinct from every handle handed out before.
    pub fn start(&mut self) -> (h: u64)
        requires
            old(self).wf(),
            old(self).next_handle < u64::MAX,
        ensures
            final (self).wf(),
            (*final (self), h) == old(self).spec_start(),
            final (self).active == Option::Some(h),
            old(self).active matches Option::Some(prev) ==> prev != h,
    {
        self.active = Option::None;
        let h = self.next_handle;
        self.next_handle = h + 1;
        self.active = Option::Some(h);
        h
    }

    /// Stops the active session, if any; a no-op while idle.
    pub fn stop(&mut self)
        requires
            old(self).wf(),
        ensures
            final (self).wf(),
            *final (self) == old(self).spec_stop(),
    {
        self.active = Option::None;
    }

    /// Decides, for one raw event observed by the session under `handle`,
    /// whether the change signal is to be emitted.
    pub fn should_emit(&self, handle: u64, kind: WatchEventKind) -> (b: bool)
        ensures
            b == self.spec_emits(handle, kind),
    {
        match self.active {
            Option::Some(a) => a == handle && kind == WatchEventKind::Modify,
            Option::None => false,
        }
    }
}

} // verus!
