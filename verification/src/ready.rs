//! Readiness flags and the per-socket flag set.
//!
//! The reactor reports a socket as readable, writable, hung up or errored.
//! A socket's current readiness is a bitset of these four flags: they are not
//! exclusive states, and several may be set at once. An operation that
//! observes a would-block result clears the flag it depends on; reactor event
//! delivery sets flags.

use vstd::prelude::*;

verus! {

/// One readiness condition of a socket, as the reactor reports it.
#[derive(Clone, Copy, Debug, PartialEq, Eq, Structural)]
pub enum ReadyFlag {
    Readable,
    Writable,
    HangUp,
    Error,
}

impl ReadyFlag {
    /// The bit this flag occupies in a [`ReadySet`].
    pub open spec fn mask_spec(self) -> u8 {
        match self {
            ReadyFlag::Readable => 1,
            ReadyFlag::Writable => 2,
            ReadyFlag::HangUp => 4,
            ReadyFlag::Error => 8,
        }
    }

    pub fn mask(self) -> (m: u8)
        ensures
            m == self.mask_spec(),
    {
        match self {
            ReadyFlag::Readable => 1,
            ReadyFlag::Writable => 2,
            ReadyFlag::HangUp => 4,
            ReadyFlag::Error => 8,
        }
    }
}

/// Distinct flags occupy distinct bits.
proof fn lemma_mask_injective(a: ReadyFlag, b: ReadyFlag)
    ensures
        (a.mask_spec() == b.mask_spec()) <==> a == b,
{
}

proof fn lemma_zero_has_no_bit(m: u8)
    by (bit_vector)
    ensures
        0u8 & m == 0,
{
}

proof fn lemma_set_bit(b: u8, m: u8, k: u8)
    by (bit_vector)
    requires
        m == 1 || m == 2 || m == 4 || m == 8,
        k == 1 || k == 2 || k == 4 || k == 8,
    ensures
        ((b | m) & k != 0) <==> ((b & k != 0) || k == m),
{
}

proof fn lemma_clear_bit(b: u8, m: u8, k: u8)
    by (bit_vector)
    requires
        m == 1 || m == 2 || m == 4 || m == 8,
        k == 1 || k == 2 || k == 4 || k == 8,
    ensures
        ((b & !m) & k != 0) <==> ((b & k != 0) && k != m),
{
}

/// A bitset of [`ReadyFlag`]s: the readiness a socket currently shows.
#[derive(Clone, Copy, Debug, PartialEq, Eq, Structural)]
pub struct ReadySet {
    pub bits: u8,
}

impl ReadySet {
    /// Whether flag `f` is currently set.
    pub open spec fn has(self, f: ReadyFlag) -> bool {
        self.bits & f.mask_spec() != 0
    }

    /// The empty set: a socket assumed not ready in any way.
    pub fn none() -> (s: ReadySet)
        ensures
            forall|f: ReadyFlag| !s.has(f),
    {
        proof {
            assert forall|f: ReadyFlag| 0u8 & f.mask_spec() == 0 by {
                lemma_zero_has_no_bit(f.mask_spec());
            }
        }
        ReadySet { bits: 0 }
    }

    pub fn contains(&self, f: ReadyFlag) -> (r: bool)
        ensures
            r == self.has(f),
    {
        self.bits & f.mask() != 0
    }

    /// Set `f`, leaving every other flag as it was.
    pub fn insert(&mut self, f: ReadyFlag)
        ensures
            forall|k: ReadyFlag| final(self).has(k) == (old(self).has(k) || k == f),
    {
        let m = f.mask();
        self.bits = self.bits | m;
        proof {
            assert forall|k: ReadyFlag|
                final(self).has(k) == (old(self).has(k) || k == f) by {
                lemma_set_bit(old(self).bits, f.mask_spec(), k.mask_spec());
                lemma_mask_injective(k, f);
            }
        }
    }

    /// Clear `f`, leaving every other flag as it was.
    pub fn remove(&mut self, f: ReadyFlag)
        ensures
            forall|k: ReadyFlag| final(self).has(k) == (old(self).has(k) && k != f),
    {
        let m = f.mask();
        self.bits = self.bits & !m;
        proof {
            assert forall|k: ReadyFlag|
                final(self).has(k) == (old(self).has(k) && k != f) by {
                lemma_clear_bit(old(self).bits, f.mask_spec(), k.mask_spec());
                lemma_mask_injective(k, f);
            }
        }
    }
}

} // verus!
