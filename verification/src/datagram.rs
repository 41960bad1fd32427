//! A value-level model of a datagram socket's receive queue.
//!
//! Datagrams keep their boundaries: one `send_to` produces one datagram,
//! one `recv_from` consumes one whole datagram and reports its sender.
//! A receive into a buffer smaller than the datagram keeps the leading
//! bytes and discards the rest of that datagram — it does not spill into
//! the next receive.

use vstd::prelude::*;

verus! {

/// One queued datagram: its payload and the address it came from,
/// identified by a peer number the runtime assigns.
pub struct Datagram {
    pub payload: Vec<u8>,
    pub peer: u64,
}

/// What one non-blocking receive attempt on the model socket observed.
pub enum RecvPoll {
    /// One whole datagram was pending: the bytes kept and their sender.
    Packet(Vec<u8>, u64),
    /// Nothing pending: would-block.
    NotReady,
}

/// The datagrams delivered to one socket and not yet received, oldest
/// first.
pub struct DatagramQueue {
    pub queue: Vec<Datagram>,
}

impl DatagramQueue {
    pub fn new() -> (q: DatagramQueue)
        ensures
            q.queue@.len() == 0,
    {
        DatagramQueue { queue: Vec::new() }
    }

    /// The OS delivered one datagram from `peer`: it joins the back of the
    /// queue whole — datagrams are never merged or split in flight.
    pub fn deliver(&mut self, payload: Vec<u8>, peer: u64)
        ensures
            final(self).queue@.len() == old(self).queue@.len() + 1,
            final(self).queue@ == old(self).queue@.push(
                Datagram { payload: payload, peer: peer },
            ),
    {
        self.queue.push(Datagram { payload, peer });
    }

    /// One non-blocking receive with room for `cap` bytes: the oldest
    /// pending datagram is consumed whole; the caller gets its first
    /// `min(cap, len)` bytes and the sender's address, and any excess of
    /// that one datagram is discarded. With nothing pending the caller
    /// observes would-block.
    pub fn poll_recv(&mut self, cap: usize) -> (r: RecvPoll)
        ensures
            old(self).queue@.len() == 0 ==> r is NotReady && final(self).queue@ == old(
                self,
            ).queue@,
            old(self).queue@.len() > 0 ==> {
                let first = old(self).queue@[0];
                let k = if cap < first.payload@.len() {
                    cap as int
                } else {
                    first.payload@.len() as int
                };
                &&& r is Packet
                &&& r->Packet_0@ == first.payload@.take(k)
                &&& r->Packet_1 == first.peer
                &&& final(self).queue@ == old(self).queue@.drop_first()
            },
    {
        if self.queue.len() == 0 {
            RecvPoll::NotReady
        } else {
            let d = self.queue.remove(0);
            proof {
                assert(self.queue@ =~= old(self).queue@.drop_first());
            }
            let n = d.payload.len();
            let k = if cap < n {
                cap
            } else {
                n
            };
            let mut out: Vec<u8> = Vec::new();
            let mut i: usize = 0;
            while i < k
                invariant
                    i <= k,
                    k <= d.payload@.len(),
                    out@ == d.payload@.take(i as int),
                decreases k - i,
            {
                proof {
                    assert(d.payload@.take(i as int + 1) =~= d.payload@.take(i as int).push(
                        d.payload@[i as int],
                    ));
                }
                out.push(d.payload[i]);
                i = i + 1;
            }
            RecvPoll::Packet(out, d.peer)
        }
    }
}

/// Datagram echo round trip: a payload that fits the receive buffer comes
/// back whole. A datagram sent to a socket and received with enough room is
/// delivered byte-for-byte with its sender's address, in one piece.
pub proof fn lemma_datagram_round_trip(payload: Seq<u8>, cap: int)
    requires
        payload.len() <= cap,
    ensures
        payload.take(if cap < payload.len() {
            cap
        } else {
            payload.len() as int
        }) == payload,
{
    assert(payload.take(payload.len() as int) =~= payload);
}

} // verus!
