//! Per-socket readiness tracking: the wait/notify protocol.
//!
//! A `ReadyState` couples the socket's current readiness flags with the
//! collection of currently-suspended waiters, each tagged with the flag it is
//! waiting for. Setting a flag notifies *every* waiter interested in that
//! flag — a broadcast, not a single wakeup — because several coroutines may
//! legitimately wait on the same listener for accept readiness. A waiter is
//! never left registered after its wait concludes, on any path.

use vstd::prelude::*;

use crate::ready::ReadyFlag;
use crate::ready::ReadySet;

verus! {

/// One suspended coroutine, tagged with the readiness flag it waits for.
#[derive(Clone, Copy, Debug, PartialEq, Eq, Structural)]
pub struct Waiter {
    pub id: u64,
    pub interest: ReadyFlag,
}

/// The waiters of `ws` that are not interested in `f`: those a notification
/// of `f` leaves suspended.
pub open spec fn kept_waiters(ws: Seq<Waiter>, f: ReadyFlag) -> Seq<Waiter>
    decreases ws.len(),
{
    if ws.len() == 0 {
        Seq::empty()
    } else {
        let rest = kept_waiters(ws.drop_last(), f);
        if ws.last().interest == f {
            rest
        } else {
            rest.push(ws.last())
        }
    }
}

/// The ids of the waiters of `ws` interested in `f`, in registration order:
/// those a notification of `f` makes runnable.
pub open spec fn woken_ids(ws: Seq<Waiter>, f: ReadyFlag) -> Seq<u64>
    decreases ws.len(),
{
    if ws.len() == 0 {
        Seq::empty()
    } else {
        let rest = woken_ids(ws.drop_last(), f);
        if ws.last().interest == f {
            rest.push(ws.last().id)
        } else {
            rest
        }
    }
}

/// The waiters of `ws` whose id is not `id`.
pub open spec fn without_id(ws: Seq<Waiter>, id: u64) -> Seq<Waiter>
    decreases ws.len(),
{
    if ws.len() == 0 {
        Seq::empty()
    } else {
        let rest = without_id(ws.drop_last(), id);
        if ws.last().id == id {
            rest
        } else {
            rest.push(ws.last())
        }
    }
}

/// No two waiters share an id.
pub open spec fn unique_ids(ws: Seq<Waiter>) -> bool {
    forall|i: int, j: int|
        0 <= i < j < ws.len() ==> (#[trigger] ws[i]).id != (#[trigger] ws[j]).id
}

proof fn lemma_drop_last_unique(ws: Seq<Waiter>)
    requires
        ws.len() > 0,
        unique_ids(ws),
    ensures
        unique_ids(ws.drop_last()),
{
    assert forall|i: int, j: int|
        0 <= i < j < ws.drop_last().len() implies (#[trigger] ws.drop_last()[i]).id != (
    #[trigger] ws.drop_last()[j]).id by {
        assert(ws.drop_last()[i] == ws[i]);
        assert(ws.drop_last()[j] == ws[j]);
    }
}

/// What removing one id from the waiter list leaves: no waiter with that id
/// remains, every other waiter remains, nothing new appears, and distinctness
/// of ids is preserved.
pub proof fn lemma_without_id(ws: Seq<Waiter>, id: u64)
    ensures
        forall|j: int|
            0 <= j < without_id(ws, id).len() ==> (#[trigger] without_id(ws, id)[j]).id != id,
        forall|j: int|
            0 <= j < without_id(ws, id).len() ==> ws.contains(#[trigger] without_id(ws, id)[j]),
        forall|w: Waiter| ws.contains(w) && w.id != id ==> without_id(ws, id).contains(w),
        unique_ids(ws) ==> unique_ids(without_id(ws, id)),
    decreases ws.len(),
{
    if ws.len() == 0 {
    } else {
        let prev = ws.drop_last();
        let last = ws.last();
        lemma_without_id(prev, id);
        let r = without_id(ws, id);
        let rp = without_id(prev, id);
        assert(ws[ws.len() - 1] == last);
        assert forall|j: int| 0 <= j < rp.len() implies ws.contains(#[trigger] rp[j]) by {
            let k = choose|k: int| 0 <= k < prev.len() && prev[k] == rp[j];
            assert(ws[k] == rp[j]);
        }
        if unique_ids(ws) {
            lemma_drop_last_unique(ws);
        }
        assert forall|w: Waiter| ws.contains(w) && w.id != id implies r.contains(w) by {
            let k = choose|k: int| 0 <= k < ws.len() && ws[k] == w;
            if k < ws.len() - 1 {
                assert(prev[k] == w);
                assert(prev.contains(w));
                let j = choose|j: int| 0 <= j < rp.len() && rp[j] == w;
                assert(r[j] == w);
            } else {
                assert(w == last);
                assert(r[r.len() - 1] == w);
            }
        }
        if last.id != id {
            assert(r == rp.push(last));
            if unique_ids(ws) {
                assert forall|i: int, j: int|
                    0 <= i < j < r.len() implies (#[trigger] r[i]).id != (#[trigger] r[j]).id by {
                    if j < rp.len() {
                        assert(r[i] == rp[i]);
                        assert(r[j] == rp[j]);
                    } else {
                        assert(r[j] == last);
                        assert(r[i] == rp[i]);
                        assert(prev.contains(rp[i]));
                        let k = choose|k: int| 0 <= k < prev.len() && prev[k] == rp[i];
                        assert(ws[k] == rp[i]);
                        assert(ws[k].id != ws[ws.len() - 1].id);
                    }
                }
            }
        }
    }
}

/// What a broadcast notification of `f` does to the waiter list: every waiter
/// interested in `f` has its id in the woken list, every waiter not
/// interested remains registered, nothing new appears, and distinctness of
/// ids is preserved.
pub proof fn lemma_notify_partition(ws: Seq<Waiter>, f: ReadyFlag)
    ensures
        forall|j: int|
            0 <= j < kept_waiters(ws, f).len() ==> (#[trigger] kept_waiters(ws, f)[j]).interest
                != f,
        forall|j: int|
            0 <= j < kept_waiters(ws, f).len() ==> ws.contains(#[trigger] kept_waiters(ws, f)[j]),
        forall|w: Waiter| ws.contains(w) && w.interest != f ==> kept_waiters(ws, f).contains(w),
        forall|i: int|
            0 <= i < ws.len() && (#[trigger] ws[i]).interest == f ==> woken_ids(ws, f).contains(
                ws[i].id,
            ),
        unique_ids(ws) ==> unique_ids(kept_waiters(ws, f)),
    decreases ws.len(),
{
    if ws.len() == 0 {
    } else {
        let prev = ws.drop_last();
        let last = ws.last();
        lemma_notify_partition(prev, f);
        let r = kept_waiters(ws, f);
        let rp = kept_waiters(prev, f);
        let w = woken_ids(ws, f);
        let wp = woken_ids(prev, f);
        assert(ws[ws.len() - 1] == last);
        assert forall|j: int| 0 <= j < rp.len() implies ws.contains(#[trigger] rp[j]) by {
            let k = choose|k: int| 0 <= k < prev.len() && prev[k] == rp[j];
            assert(ws[k] == rp[j]);
        }
        if unique_ids(ws) {
            lemma_drop_last_unique(ws);
        }
        assert forall|w2: Waiter| ws.contains(w2) && w2.interest != f implies r.contains(w2) by {
            let k = choose|k: int| 0 <= k < ws.len() && ws[k] == w2;
            if k < ws.len() - 1 {
                assert(prev[k] == w2);
                assert(prev.contains(w2));
                let j = choose|j: int| 0 <= j < rp.len() && rp[j] == w2;
                assert(r[j] == w2);
            } else {
                assert(w2 == last);
                assert(r[r.len() - 1] == w2);
            }
        }
        assert forall|i: int|
            0 <= i < ws.len() && (#[trigger] ws[i]).interest == f implies w.contains(
            ws[i].id) by {
            if i < ws.len() - 1 {
                assert(prev[i] == ws[i]);
                assert(wp.contains(ws[i].id));
                let j = choose|j: int| 0 <= j < wp.len() && wp[j] == ws[i].id;
                if last.interest == f {
                    assert(w[j] == ws[i].id);
                } else {
                    assert(w[j] == ws[i].id);
                }
            } else {
                assert(last.interest == f);
                assert(w[w.len() - 1] == last.id);
            }
        }
        if last.interest != f {
            assert(r == rp.push(last));
            if unique_ids(ws) {
                assert forall|i: int, j: int|
                    0 <= i < j < r.len() implies (#[trigger] r[i]).id != (#[trigger] r[j]).id by {
                    if j < rp.len() {
                        assert(r[i] == rp[i]);
                        assert(r[j] == rp[j]);
                    } else {
                        assert(r[j] == last);
                        assert(r[i] == rp[i]);
                        assert(prev.contains(rp[i]));
                        let k = choose|k: int| 0 <= k < prev.len() && prev[k] == rp[i];
                        assert(ws[k] == rp[i]);
                        assert(ws[k].id != ws[ws.len() - 1].id);
                    }
                }
            }
        }
    }
}

/// The readiness flags and suspended waiters of one evented resource.
pub struct ReadyState {
    pub flags: ReadySet,
    pub waiters: Vec<Waiter>,
}

impl ReadyState {
    /// Well-formed: no coroutine is registered twice.
    pub open spec fn wf(self) -> bool {
        unique_ids(self.waiters@)
    }

    /// Whether the coroutine `id` is currently registered as a waiter.
    pub open spec fn registered(self, id: u64) -> bool {
        exists|i: int| 0 <= i < self.waiters@.len() && (#[trigger] self.waiters@[i]).id == id
    }

    /// A fresh state: assumed not ready in any way, with no waiters.
    pub fn new() -> (s: ReadyState)
        ensures
            s.wf(),
            s.waiters@.len() == 0,
            forall|f: ReadyFlag| !s.flags.has(f),
    {
        ReadyState { flags: ReadySet::none(), waiters: Vec::new() }
    }

    pub fn is_ready(&self, f: ReadyFlag) -> (r: bool)
        ensures
            r == self.flags.has(f),
    {
        self.flags.contains(f)
    }

    /// The operation observed a would-block result: the OS says the resource
    /// is not ready now, even if a stale flag claims otherwise.
    pub fn clear(&mut self, f: ReadyFlag)
        ensures
            forall|k: ReadyFlag| final(self).flags.has(k) == (old(self).flags.has(k) && k != f),
            final(self).waiters@ == old(self).waiters@,
    {
        self.flags.remove(f);
    }

    /// Register `id` as a waiter for `interest`.
    pub fn register(&mut self, id: u64, interest: ReadyFlag)
        requires
            old(self).wf(),
            !old(self).registered(id),
        ensures
            final(self).wf(),
            final(self).waiters@ == old(self).waiters@.push(Waiter { id, interest }),
            final(self).flags == old(self).flags,
            final(self).registered(id),
    {
        let ghost ws = self.waiters@;
        self.waiters.push(Waiter { id, interest });
        proof {
            let n = ws.len() as int;
            assert(self.waiters@[n].id == id);
            assert forall|i: int, j: int|
                0 <= i < j < self.waiters@.len() implies (#[trigger] self.waiters@[i]).id != (
            #[trigger] self.waiters@[j]).id by {
                if j < n {
                    assert(ws[i].id != ws[j].id);
                } else {
                    assert(self.waiters@[i] == ws[i]);
                    if ws[i].id == id {
                        assert(old(self).registered(id));
                    }
                }
            }
        }
    }

    /// Remove every registration of `id`; every other waiter stays.
    pub fn deregister(&mut self, id: u64)
        requires
            old(self).wf(),
        ensures
            final(self).wf(),
            final(self).waiters@ == without_id(old(self).waiters@, id),
            !final(self).registered(id),
            final(self).flags == old(self).flags,
            forall|w: Waiter|
                old(self).waiters@.contains(w) && w.id != id ==> final(self).waiters@.contains(w),
    {
        let ghost ws = self.waiters@;
        let mut kept: Vec<Waiter> = Vec::new();
        let n: usize = self.waiters.len();
        let mut i: usize = 0;
        while i < n
            invariant
                i <= n,
                n == self.waiters@.len(),
                self.waiters@ == ws,
                self.flags == old(self).flags,
                kept@ == without_id(ws.take(i as int), id),
            decreases n - i,
        {
            let w = self.waiters[i];
            proof {
                assert(ws.take(i as int + 1).drop_last() =~= ws.take(i as int));
                assert(ws.take(i as int + 1).last() == ws[i as int]);
            }
            if w.id != id {
                kept.push(w);
            }
            i = i + 1;
        }
        proof {
            assert(ws.take(n as int) =~= ws);
            lemma_without_id(ws, id);
        }
        self.waiters = kept;
        proof {
            if self.registered(id) {
                let j = choose|j: int|
                    0 <= j < self.waiters@.len() && (#[trigger] self.waiters@[j]).id == id;
                assert(without_id(ws, id)[j].id != id);
            }
        }
    }

    /// The reactor delivered `f`: set the flag and make every waiter
    /// interested in it runnable. The returned ids are handed to the
    /// scheduler; waking is "make runnable", not immediate execution, and no
    /// order among the woken is promised. Waiters interested in other flags
    /// stay registered.
    pub fn notify(&mut self, f: ReadyFlag) -> (woken: Vec<u64>)
        requires
            old(self).wf(),
        ensures
            final(self).wf(),
            forall|k: ReadyFlag| final(self).flags.has(k) == (old(self).flags.has(k) || k == f),
            final(self).waiters@ == kept_waiters(old(self).waiters@, f),
            woken@ == woken_ids(old(self).waiters@, f),
    {
        let ghost ws = self.waiters@;
        self.flags.insert(f);
        let mut kept: Vec<Waiter> = Vec::new();
        let mut woken: Vec<u64> = Vec::new();
        let n: usize = self.waiters.len();
        let mut i: usize = 0;
        while i < n
            invariant
                i <= n,
                n == self.waiters@.len(),
                self.waiters@ == ws,
                forall|k: ReadyFlag| self.flags.has(k) == (old(self).flags.has(k) || k == f),
                kept@ == kept_waiters(ws.take(i as int), f),
                woken@ == woken_ids(ws.take(i as int), f),
            decreases n - i,
        {
            let w = self.waiters[i];
            proof {
                assert(ws.take(i as int + 1).drop_last() =~= ws.take(i as int));
                assert(ws.take(i as int + 1).last() == ws[i as int]);
            }
            if w.interest == f {
                woken.push(w.id);
            } else {
                kept.push(w);
            }
            i = i + 1;
        }
        proof {
            assert(ws.take(n as int) =~= ws);
            lemma_notify_partition(ws, f);
        }
        self.waiters = kept;
        woken
    }
}

impl ReadyState {
    /// The resource is being torn down while coroutines may still be
    /// suspended on it — a listener closed mid-accept, for instance. Every
    /// waiter is made runnable, whatever flag it waits for, and the hang-up
    /// flag is raised: each woken coroutine retries, observes the closed
    /// handle's failure, and returns it explicitly. No waiter is ever left
    /// suspended on a resource that no longer exists.
    pub fn close_all(&mut self) -> (woken: Vec<u64>)
        requires
            old(self).wf(),
        ensures
            final(self).wf(),
            final(self).waiters@.len() == 0,
            woken@ == old(self).waiters@.map_values(|w: Waiter| w.id),
            forall|k: ReadyFlag|
                final(self).flags.has(k) == (old(self).flags.has(k) || k == ReadyFlag::HangUp),
    {
        let ghost ws = self.waiters@;
        self.flags.insert(ReadyFlag::HangUp);
        let mut woken: Vec<u64> = Vec::new();
        let n: usize = self.waiters.len();
        let mut i: usize = 0;
        while i < n
            invariant
                i <= n,
                n == self.waiters@.len(),
                self.waiters@ == ws,
                forall|k: ReadyFlag|
                    self.flags.has(k) == (old(self).flags.has(k) || k == ReadyFlag::HangUp),
                woken@ == ws.take(i as int).map_values(|w: Waiter| w.id),
            decreases n - i,
        {
            let w = self.waiters[i];
            woken.push(w.id);
            proof {
                assert(ws.take(i as int + 1).map_values(|w: Waiter| w.id) =~= ws.take(
                    i as int,
                ).map_values(|w: Waiter| w.id).push(ws[i as int].id));
            }
            i = i + 1;
        }
        proof {
            assert(ws.take(n as int) =~= ws);
        }
        self.waiters = Vec::new();
        woken
    }
}

/// Broadcast wakeup: every waiter registered for the notified flag is made
/// runnable. In particular, with several coroutines waiting to accept on one
/// listener, a single readable event wakes all of them; each retries the
/// non-blocking accept, so none can be left waiting on an event that already
/// happened.
pub proof fn lemma_notify_is_broadcast(ws: Seq<Waiter>, f: ReadyFlag, i: int)
    requires
        0 <= i < ws.len(),
        ws[i].interest == f,
    ensures
        woken_ids(ws, f).contains(ws[i].id),
{
    lemma_notify_partition(ws, f);
}

/// No lost wakeup: once a coroutine is armed as a waiter — which happens
/// before the non-blocking recheck and hence before any suspension — a
/// notification of its flag is guaranteed to include it in the woken set,
/// even if the notification lands between the recheck and the suspension.
pub proof fn lemma_armed_waiter_is_woken(s: ReadyState, id: u64, interest: ReadyFlag, i: int)
    requires
        0 <= i < s.waiters@.len(),
        s.waiters@[i] == (Waiter { id, interest }),
    ensures
        woken_ids(s.waiters@, interest).contains(id),
{
    lemma_notify_partition(s.waiters@, interest);
}

/// The race-free suspend guard.
///
/// Constructing it registers the coroutine as a waiter *before* the
/// non-blocking recheck that decides whether to actually suspend, closing the
/// window in which a readiness event could be lost. Disarming releases the
/// registration without suspending; every exit path of a wait disarms, so a
/// waiter entry never outlives its wait.
pub struct SuspendGuard {
    pub waiter: u64,
    pub armed: bool,
}

impl SuspendGuard {
    /// Arm: register the current coroutine for `interest` on `state`.
    pub fn arm(state: &mut ReadyState, waiter: u64, interest: ReadyFlag) -> (g: SuspendGuard)
        requires
            old(state).wf(),
            !old(state).registered(waiter),
        ensures
            final(state).wf(),
            final(state).waiters@ == old(state).waiters@.push(Waiter { id: waiter, interest }),
            final(state).flags == old(state).flags,
            final(state).registered(waiter),
            g.armed,
            g.waiter == waiter,
    {
        state.register(waiter, interest);
        SuspendGuard { waiter, armed: true }
    }

    /// Disarm: release the registration without suspending, because the
    /// recheck found the socket ready after all, an error occurred, or the
    /// wait concluded. Leaves no waiter entry behind.
    pub fn disarm(&mut self, state: &mut ReadyState)
        requires
            old(state).wf(),
        ensures
            final(state).wf(),
            final(state).waiters@ == without_id(old(state).waiters@, old(self).waiter),
            !final(state).registered(old(self).waiter),
            final(state).flags == old(state).flags,
            forall|w: Waiter|
                old(state).waiters@.contains(w) && w.id != old(self).waiter
                    ==> final(state).waiters@.contains(w),
            !final(self).armed,
            final(self).waiter == old(self).waiter,
    {
        state.deregister(self.waiter);
        self.armed = false;
    }
}

} // verus!
