//! The evented resource: one non-blocking OS socket handle's bookkeeping.
//!
//! An evented resource couples a raw handle (held by the runtime) with its
//! reactor registration token, its readiness state, and its two deadlines —
//! a read deadline and a write deadline, set independently. This module
//! holds everything about that bookkeeping that is plain data: the token,
//! the `ReadyState`, the timeouts, and the deadline arithmetic the retry
//! loop consults before each suspension. The handle itself, its reactor
//! registration and its eventual close are the runtime's work.

use vstd::prelude::*;

use crate::ready::ReadyFlag;
use crate::waiters::ReadyState;

verus! {

/// Which deadline a socket operation consults: reads (accept, read,
/// recv_from) and writes (connect, write, send_to) have distinct deadlines.
#[derive(Clone, Copy, Debug, PartialEq, Eq, Structural)]
pub enum OpKind {
    Read,
    Write,
}

impl OpKind {
    /// The readiness flag this kind of operation waits for.
    pub open spec fn flag_spec(self) -> ReadyFlag {
        match self {
            OpKind::Read => ReadyFlag::Readable,
            OpKind::Write => ReadyFlag::Writable,
        }
    }

    pub fn flag(self) -> (f: ReadyFlag)
        ensures
            f == self.flag_spec(),
    {
        match self {
            OpKind::Read => ReadyFlag::Readable,
            OpKind::Write => ReadyFlag::Writable,
        }
    }
}

/// `a + b`, capped at the largest representable instant.
pub open spec fn saturating_add(a: u64, b: u64) -> u64 {
    if a + b <= u64::MAX {
        (a + b) as u64
    } else {
        u64::MAX
    }
}

/// The absolute deadline for a wait that starts at `now` under timeout
/// `timeout`. A timeout of zero yields a deadline that has already passed,
/// so the wait fails with a timeout at once, without suspending.
pub fn deadline_from(now: u64, timeout: u64) -> (d: u64)
    ensures
        d == saturating_add(now, timeout),
        d >= now,
{
    if timeout <= u64::MAX - now {
        now + timeout
    } else {
        u64::MAX
    }
}

/// The bookkeeping of one evented resource.
pub struct Evented {
    /// The reactor registration token; its lifetime is bound to this
    /// resource, and the runtime deregisters it on destruction.
    pub token: u64,
    /// This resource's readiness flags and suspended waiters.
    pub ready: ReadyState,
    /// Timeout applied to read-side waits; `None` waits indefinitely.
    pub read_timeout: Option<u64>,
    /// Timeout applied to write-side waits; `None` waits indefinitely.
    pub write_timeout: Option<u64>,
}

impl Evented {
    pub open spec fn wf(self) -> bool {
        self.ready.wf()
    }

    pub open spec fn timeout_spec(self, kind: OpKind) -> Option<u64> {
        match kind {
            OpKind::Read => self.read_timeout,
            OpKind::Write => self.write_timeout,
        }
    }

    /// A freshly registered resource: assumed not ready in any way (the
    /// first operation must confirm real readiness), no waiters, no
    /// deadlines.
    pub fn new(token: u64) -> (e: Evented)
        ensures
            e.wf(),
            e.token == token,
            e.ready.waiters@.len() == 0,
            forall|f: ReadyFlag| !e.ready.flags.has(f),
            e.read_timeout is None,
            e.write_timeout is None,
    {
        Evented {
            token,
            ready: ReadyState::new(),
            read_timeout: None,
            write_timeout: None,
        }
    }

    /// The bookkeeping of a clone made by duplicating the OS handle: a
    /// brand-new resource with its own registration token and its own fresh
    /// readiness state. Nothing is inherited — a possibly-stale flag of the
    /// original must not let the clone skip its first real readiness check —
    /// and the original is untouched, so the two handles' readiness is
    /// tracked independently from here on.
    pub fn clone_bookkeeping(&self, new_token: u64) -> (c: Evented)
        ensures
            c.wf(),
            c.token == new_token,
            c.ready.waiters@.len() == 0,
            forall|f: ReadyFlag| !c.ready.flags.has(f),
            c.read_timeout is None,
            c.write_timeout is None,
    {
        Evented::new(new_token)
    }

    /// Set the read deadline. It is consulted the next time a read-side wait
    /// suspends — waits recompute their deadline each time, so a change
    /// never applies retroactively to a wait already under way.
    pub fn set_read_timeout(&mut self, timeout: Option<u64>)
        ensures
            final(self).read_timeout == timeout,
            final(self).write_timeout == old(self).write_timeout,
            final(self).ready == old(self).ready,
            final(self).token == old(self).token,
    {
        self.read_timeout = timeout;
    }

    /// Set the write deadline; the counterpart of `set_read_timeout`.
    pub fn set_write_timeout(&mut self, timeout: Option<u64>)
        ensures
            final(self).write_timeout == timeout,
            final(self).read_timeout == old(self).read_timeout,
            final(self).ready == old(self).ready,
            final(self).token == old(self).token,
    {
        self.write_timeout = timeout;
    }

    pub fn get_read_timeout(&self) -> (t: Option<u64>)
        ensures
            t == self.read_timeout,
    {
        self.read_timeout
    }

    pub fn get_write_timeout(&self) -> (t: Option<u64>)
        ensures
            t == self.write_timeout,
    {
        self.write_timeout
    }

    /// The absolute deadline a wait starting at `now` runs under: none when
    /// no timeout is configured for this operation kind.
    pub fn deadline_for(&self, kind: OpKind, now: u64) -> (d: Option<u64>)
        ensures
            d == match self.timeout_spec(kind) {
                None => None::<u64>,
                Some(t) => Some(saturating_add(now, t)),
            },
    {
        let t = match kind {
            OpKind::Read => self.read_timeout,
            OpKind::Write => self.write_timeout,
        };
        match t {
            None => None,
            Some(t) => Some(deadline_from(now, t)),
        }
    }
}

} // verus!
