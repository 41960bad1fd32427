//! A value-level model of one direction of a connected byte stream.
//!
//! The runtime's read and write calls move bytes between OS buffers; this
//! model captures exactly what those calls are allowed to do with them. The
//! OS decides *how many* bytes a call transfers — a partial read or write is
//! returned as-is, and the caller decides whether to loop — but never which
//! bytes: data crosses the stream unchanged and in order. The round-trip law
//! at the bottom makes that exact: however the OS splits the transfers, the
//! pieces reassemble to precisely the payload that was written.

use vstd::prelude::*;

verus! {

/// Bytes written to a stream and not yet read, together with whether the
/// writer end has been closed.
pub struct StreamBuf {
    pub data: Vec<u8>,
    pub writer_closed: bool,
}

/// What one non-blocking read attempt on the model stream observed.
pub enum ReadPoll {
    /// At least one byte was available; here are the bytes transferred.
    Data(Vec<u8>),
    /// The writer end is closed and nothing is left: a clean end of stream.
    /// This is a success with length zero, not an error — a caller can tell
    /// "peer closed" from a failure.
    Eof,
    /// Nothing is buffered but the writer may still write: would-block.
    NotReady,
}

impl StreamBuf {
    /// A fresh, open, empty stream direction.
    pub fn new() -> (s: StreamBuf)
        ensures
            s.data@.len() == 0,
            !s.writer_closed,
    {
        StreamBuf { data: Vec::new(), writer_closed: false }
    }

    /// The writer end was closed. Bytes already buffered stay readable; only
    /// the end-of-stream mark is added after them.
    pub fn close_writer(&mut self)
        ensures
            final(self).writer_closed,
            final(self).data@ == old(self).data@,
    {
        self.writer_closed = true;
    }

    /// The OS accepted the first `accepted` bytes of `chunk` — a partial
    /// write when `accepted < chunk.len()`. Exactly those bytes, unchanged
    /// and in order, join the stream after everything written before them.
    pub fn commit_write(&mut self, chunk: &Vec<u8>, accepted: usize)
        requires
            accepted <= chunk@.len(),
            !old(self).writer_closed,
        ensures
            final(self).data@ == old(self).data@ + chunk@.take(accepted as int),
            !final(self).writer_closed,
    {
        let mut i: usize = 0;
        while i < accepted
            invariant
                i <= accepted,
                accepted <= chunk@.len(),
                self.writer_closed == old(self).writer_closed,
                self.data@ == old(self).data@ + chunk@.take(i as int),
            decreases accepted - i,
        {
            proof {
                assert(chunk@.take(i as int + 1) =~= chunk@.take(i as int).push(chunk@[i as int]));
            }
            self.data.push(chunk[i]);
            i = i + 1;
        }
    }

    /// One non-blocking read with room for `cap` bytes. With data buffered
    /// it transfers the first `min(cap, buffered)` bytes and leaves the
    /// rest; on an empty buffer it reports end-of-stream if the writer end
    /// is closed — a success — and would-block otherwise. Nothing else ever
    /// happens: no byte is reordered, duplicated or dropped.
    pub fn poll_read(&mut self, cap: usize) -> (r: ReadPoll)
        requires
            cap > 0,
        ensures
            final(self).writer_closed == old(self).writer_closed,
            old(self).data@.len() == 0 && old(self).writer_closed ==> r is Eof
                && final(self).data@ == old(self).data@,
            old(self).data@.len() == 0 && !old(self).writer_closed ==> r is NotReady
                && final(self).data@ == old(self).data@,
            old(self).data@.len() > 0 ==> {
                let k = if cap < old(self).data@.len() {
                    cap as int
                } else {
                    old(self).data@.len() as int
                };
                &&& r is Data
                &&& r->Data_0@ == old(self).data@.take(k)
                &&& final(self).data@ == old(self).data@.skip(k)
            },
    {
        let n = self.data.len();
        if n == 0 {
            if self.writer_closed {
                ReadPoll::Eof
            } else {
                ReadPoll::NotReady
            }
        } else {
            let k = if cap < n {
                cap
            } else {
                n
            };
            let ghost orig = self.data@;
            let mut out: Vec<u8> = Vec::new();
            let mut i: usize = 0;
            while i < k
                invariant
                    i <= k,
                    k <= self.data@.len(),
                    self.data@ == orig,
                    out@ == orig.take(i as int),
                decreases k - i,
            {
                proof {
                    assert(orig.take(i as int + 1) =~= orig.take(i as int).push(orig[i as int]));
                }
                out.push(self.data[i]);
                i = i + 1;
            }
            let mut rest: Vec<u8> = Vec::new();
            let mut j: usize = k;
            while j < n
                invariant
                    k <= j <= n,
                    n == self.data@.len(),
                    self.data@ == orig,
                    rest@ == orig.subrange(k as int, j as int),
                decreases n - j,
            {
                proof {
                    assert(orig.subrange(k as int, j as int + 1) =~= orig.subrange(
                        k as int,
                        j as int,
                    ).push(orig[j as int]));
                }
                rest.push(self.data[j]);
                j = j + 1;
            }
            proof {
                assert(orig.subrange(k as int, n as int) =~= orig.skip(k as int));
            }
            self.data = rest;
            ReadPoll::Data(out)
        }
    }
}

/// Read in chunks of at most `cap` bytes until the stream has nothing more
/// buffered: the reader's side of an echo exchange. Whatever partial reads
/// this takes, the result is byte-for-byte the data that was buffered, and
/// the stream is drained; whether the writer end was closed is untouched.
pub fn read_to_end_chunked(s: &mut StreamBuf, cap: usize) -> (out: Vec<u8>)
    requires
        cap > 0,
    ensures
        out@ == old(s).data@,
        final(s).data@.len() == 0,
        final(s).writer_closed == old(s).writer_closed,
{
    let mut out: Vec<u8> = Vec::new();
    loop
        invariant
            cap > 0,
            out@ + s.data@ == old(s).data@,
            s.writer_closed == old(s).writer_closed,
        ensures
            out@ == old(s).data@,
            s.data@.len() == 0,
            s.writer_closed == old(s).writer_closed,
        decreases s.data@.len(),
    {
        match s.poll_read(cap) {
            ReadPoll::Data(mut piece) => {
                proof {
                    assert(piece@.len() > 0);
                }
                out.append(&mut piece);
                proof {
                    assert(out@ + s.data@ =~= old(s).data@);
                }
            },
            ReadPoll::Eof => {
                proof {
                    assert(out@ =~= old(s).data@);
                }
                break ;
            },
            ReadPoll::NotReady => {
                proof {
                    assert(out@ =~= old(s).data@);
                }
                break ;
            },
        }
    }
    out
}

/// The running sum of a sequence of transfer sizes.
pub open spec fn total(cuts: Seq<int>) -> int
    decreases cuts.len(),
{
    if cuts.len() == 0 {
        0
    } else {
        cuts.first() + total(cuts.drop_first())
    }
}

/// `s` cut into consecutive pieces of the given sizes, in order — the
/// pieces a run of partial reads of those sizes transfers.
pub open spec fn chunks_of(s: Seq<u8>, cuts: Seq<int>) -> Seq<Seq<u8>>
    decreases cuts.len(),
{
    if cuts.len() == 0 {
        Seq::empty()
    } else {
        seq![s.take(cuts.first())] + chunks_of(s.skip(cuts.first()), cuts.drop_first())
    }
}

/// The pieces joined back together, in order.
pub open spec fn concat_chunks(cs: Seq<Seq<u8>>) -> Seq<u8>
    decreases cs.len(),
{
    if cs.len() == 0 {
        Seq::empty()
    } else {
        cs.first() + concat_chunks(cs.drop_first())
    }
}

proof fn lemma_total_nonneg(cuts: Seq<int>)
    requires
        forall|i: int| 0 <= i < cuts.len() ==> 0 <= #[trigger] cuts[i],
    ensures
        total(cuts) >= 0,
    decreases cuts.len(),
{
    if cuts.len() > 0 {
        assert forall|i: int| 0 <= i < cuts.drop_first().len() implies 0 <= #[trigger] cuts.drop_first()[i] by {
            assert(cuts.drop_first()[i] == cuts[i + 1]);
        }
        lemma_total_nonneg(cuts.drop_first());
    }
}

/// Round trip: however many partial reads the OS performs, and whatever
/// their sizes, the transferred pieces reassemble byte-for-byte to exactly
/// the payload that was in the stream. Together with `commit_write` — which
/// shows the stream holds exactly the concatenation of the written pieces —
/// this says a payload written on one end and read until fully received
/// arrives unchanged, regardless of how the OS splits the writes and reads.
pub proof fn lemma_round_trip(s: Seq<u8>, cuts: Seq<int>)
    requires
        forall|i: int| 0 <= i < cuts.len() ==> 0 <= #[trigger] cuts[i],
        total(cuts) == s.len(),
    ensures
        concat_chunks(chunks_of(s, cuts)) == s,
    decreases cuts.len(),
{
    if cuts.len() == 0 {
        assert(concat_chunks(chunks_of(s, cuts)) =~= s);
    } else {
        let c = cuts.first();
        let rest = cuts.drop_first();
        assert forall|i: int| 0 <= i < rest.len() implies 0 <= #[trigger] rest[i] by {
            assert(rest[i] == cuts[i + 1]);
        }
        lemma_total_nonneg(rest);
        assert(0 <= c <= s.len());
        assert(s.skip(c).len() == total(rest));
        lemma_round_trip(s.skip(c), rest);
        let cs = chunks_of(s, cuts);
        assert(cs == seq![s.take(c)] + chunks_of(s.skip(c), rest));
        assert(cs.first() == s.take(c));
        assert(cs.drop_first() =~= chunks_of(s.skip(c), rest));
        assert(concat_chunks(cs) == s.take(c) + concat_chunks(chunks_of(s.skip(c), rest)));
        assert(s.take(c) + s.skip(c) =~= s);
    }
}

} // verus!
