//! A value-level model of a listener's pending-connection queue.
//!
//! Several coroutines may have `accept` calls outstanding on one listener;
//! a readable event wakes all of them (see `waiters`), and each retries the
//! non-blocking accept. The OS hands out each pending connection once: the
//! racing coroutines may each win some connection, but no connection is ever
//! delivered twice, and a coroutine that loses a race simply observes
//! would-block and waits again.

use vstd::prelude::*;

verus! {

/// The connections accepted by the OS on one listener and not yet handed
/// out, identified in arrival order.
pub struct ListenerQueue {
    /// Pending connection ids, oldest first.
    pub pending: Vec<u64>,
    /// The id the next arriving connection gets; larger than every id ever
    /// handed out, so ids never repeat.
    pub next_conn: u64,
}

impl ListenerQueue {
    /// Well-formed: pending ids are pairwise distinct, and all were drawn
    /// from below `next_conn`.
    pub open spec fn wf(self) -> bool {
        &&& forall|i: int|
            0 <= i < self.pending@.len() ==> (#[trigger] self.pending@[i]) < self.next_conn
        &&& forall|i: int, j: int|
            0 <= i < j < self.pending@.len() ==> self.pending@[i] != self.pending@[j]
    }

    /// A newly bound listener: nothing pending yet.
    pub fn new() -> (q: ListenerQueue)
        ensures
            q.wf(),
            q.pending@.len() == 0,
            q.next_conn == 0,
    {
        ListenerQueue { pending: Vec::new(), next_conn: 0 }
    }

    /// The OS completed a handshake: one fresh connection joins the back of
    /// the queue. Freshness of the id is what makes "distinct connections"
    /// meaningful below.
    pub fn arrive(&mut self) -> (id: u64)
        requires
            old(self).wf(),
            old(self).next_conn < u64::MAX,
        ensures
            final(self).wf(),
            id == old(self).next_conn,
            final(self).pending@ == old(self).pending@.push(id),
            final(self).next_conn == old(self).next_conn + 1,
    {
        let id = self.next_conn;
        self.pending.push(id);
        self.next_conn = self.next_conn + 1;
        id
    }

    /// One non-blocking accept: the oldest pending connection, if any, is
    /// removed from the queue and handed to exactly the caller; with nothing
    /// pending the caller observes would-block. Two coroutines racing for
    /// one connection therefore cannot both receive it — the loser sees
    /// `None` and retries.
    pub fn try_accept(&mut self) -> (r: Option<u64>)
        requires
            old(self).wf(),
        ensures
            final(self).wf(),
            final(self).next_conn == old(self).next_conn,
            old(self).pending@.len() == 0 ==> r is None && final(self).pending@ == old(
                self,
            ).pending@,
            old(self).pending@.len() > 0 ==> r == Some(old(self).pending@[0])
                && final(self).pending@ == old(self).pending@.drop_first(),
    {
        if self.pending.len() == 0 {
            None
        } else {
            let id = self.pending.remove(0);
            proof {
                assert(self.pending@ =~= old(self).pending@.drop_first());
            }
            Some(id)
        }
    }
}

/// Two coroutines race to accept with two connections pending — both were
/// woken by the same broadcast readable event. Whichever order the
/// scheduler runs them in, each receives one connection, and the two
/// connections are distinct: no connection is delivered twice.
pub fn accept_race_pair(q: &mut ListenerQueue) -> (r: (u64, u64))
    requires
        old(q).wf(),
        old(q).pending@.len() >= 2,
    ensures
        final(q).wf(),
        r.0 == old(q).pending@[0],
        r.1 == old(q).pending@[1],
        r.0 != r.1,
{
    let a = match q.try_accept() {
        Some(id) => id,
        None => {
            proof {
                assert(false);
            }
            0
        },
    };
    let b = match q.try_accept() {
        Some(id) => id,
        None => {
            proof {
                assert(false);
            }
            0
        },
    };
    (a, b)
}

/// No double delivery: the connection an accept hands out is no longer
/// pending, so no later accept — by this coroutine or any other — can
/// return it again. With K coroutines accepting K arrived connections, each
/// delivered connection is therefore distinct; the broadcast lemma in
/// `waiters` supplies the other half, that all K waiting coroutines are
/// woken to claim one.
pub proof fn lemma_no_double_delivery(q: ListenerQueue)
    requires
        q.wf(),
        q.pending@.len() > 0,
    ensures
        !q.pending@.drop_first().contains(q.pending@.first()),
{
    if q.pending@.drop_first().contains(q.pending@.first()) {
        let j = choose|j: int|
            0 <= j < q.pending@.drop_first().len() && q.pending@.drop_first()[j] == q.pending@.first();
        assert(q.pending@[j + 1] == q.pending@[0]);
    }
}

} // verus!
