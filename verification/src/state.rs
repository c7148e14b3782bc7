//! The core state machine: the 16-word state, block production, and the
//! block counter with seek.
//!
//! A `SalsaCore` owns the state under the layout of the backend chosen at
//! construction. Producing a block leaves every word untouched except the two
//! counter words, which advance by exactly one block; seek overwrites only
//! those two words. The counter never wraps: production past `u64::MAX`
//! blocks is refused rather than repeating keystream.

use vstd::prelude::*;

use crate::rounds::{add_words, block_bytes, block_words, run_rounds, scalar_rounds, wadd};
use crate::schedule::{build_state, initial_state};
use crate::vector::{
    lemma_backend_equivalence, permute_state, permuted, unpermute_state, unpermuted,
    vector_block_bytes, vector_rounds,
};
use crate::words::{le_bytes_of_words, lemma_le_bytes_of_words_len, push_word_bytes};

verus! {

/// The round-count variants of the family: 8, 12 or 20 rounds.
#[derive(Clone, Copy, PartialEq, Eq, Structural, Debug)]
pub enum Rounds {
    Eight,
    Twelve,
    Twenty,
}

impl Rounds {
    /// The number of double rounds run per block: half the round count.
    pub open spec fn spec_double_rounds(self) -> nat {
        match self {
            Rounds::Eight => 4,
            Rounds::Twelve => 6,
            Rounds::Twenty => 10,
        }
    }

    /// The number of double rounds run per block.
    pub fn double_rounds(self) -> (r: usize)
        ensures
            r == self.spec_double_rounds(),
    {
        match self {
            Rounds::Eight => 4,
            Rounds::Twelve => 6,
            Rounds::Twenty => 10,
        }
    }
}

/// The two block-production strategies. Both are proved to emit identical
/// bytes; they differ only in the physical word layout they keep.
#[derive(Clone, Copy, PartialEq, Eq, Structural, Debug)]
pub enum Backend {
    Scalar,
    Vectorized,
}

/// Why a cipher state could not be constructed.
#[derive(Clone, Copy, PartialEq, Eq, Structural, Debug)]
pub enum ConstructionError {
    /// The key is neither 16 nor 32 bytes long.
    KeyLength,
    /// The nonce length does not match the variant (8 bytes, or 24 for the
    /// extended construction).
    NonceLength,
}

/// The low 32 bits of a block counter value.
pub open spec fn lo32(c: u64) -> u32 {
    (c & 0xffff_ffff) as u32
}

/// The high 32 bits of a block counter value.
pub open spec fn hi32(c: u64) -> u32 {
    (c >> 32) as u32
}

/// The logical counter held in words 8 and 9 of a logical state.
pub open spec fn counter_of(s: Seq<u32>) -> u64
    recommends
        s.len() == 16,
{
    (s[8] as u64) | ((s[9] as u64) << 32)
}

/// The logical state `s` with its counter words overwritten by `ctr`.
pub open spec fn with_counter(s: Seq<u32>, ctr: u64) -> Seq<u32>
    recommends
        s.len() == 16,
{
    s.update(8, lo32(ctr)).update(9, hi32(ctr))
}

/// Writing back the counter a state already holds changes nothing.
pub proof fn lemma_counter_reconstruct(s: Seq<u32>)
    requires
        s.len() == 16,
    ensures
        with_counter(s, counter_of(s)) == s,
{
    let a = s[8];
    let b = s[9];
    assert((((a as u64) | ((b as u64) << 32)) & 0xffff_ffff) as u32 == a) by (bit_vector);
    assert((((a as u64) | ((b as u64) << 32)) >> 32) as u32 == b) by (bit_vector);
    assert(with_counter(s, counter_of(s)) =~= s);
}

/// A state whose counter words are zero holds counter zero, and writing
/// counter zero to it changes nothing.
pub proof fn lemma_zero_counter(s: Seq<u32>)
    requires
        s.len() == 16,
        s[8] == 0,
        s[9] == 0,
    ensures
        counter_of(s) == 0,
        with_counter(s, 0) == s,
{
    assert((0u32 as u64) | ((0u32 as u64) << 32) == 0) by (bit_vector);
    assert((0u64 & 0xffff_ffff) as u32 == 0 && (0u64 >> 32) as u32 == 0) by (bit_vector);
    assert(with_counter(s, 0) =~= s);
}

pub proof fn lemma_with_counter(s: Seq<u32>, ctr: u64)
    requires
        s.len() == 16,
    ensures
        counter_of(with_counter(s, ctr)) == ctr,
{
    assert(((ctr & 0xffff_ffff) as u32 as u64) | (((ctr >> 32) as u32 as u64) << 32) == ctr)
        by (bit_vector);
}

/// Index purity: the keystream block generated at counter value `n` does not
/// depend on the counter the state held before, so seeking to `n` and
/// producing one block yields exactly the block that a fresh state produces
/// as its `n`-th.
pub proof fn lemma_index_purity(s: Seq<u32>, dr: nat, c: u64, n: u64)
    requires
        s.len() == 16,
    ensures
        block_bytes(with_counter(with_counter(s, c), n), dr) == block_bytes(with_counter(s, n), dr),
{
    assert(with_counter(with_counter(s, c), n) =~= with_counter(s, n));
}

/// The Salsa core function: state, round count and backend.
pub struct SalsaCore {
    state: [u32; 16],
    rounds: Rounds,
    backend: Backend,
}

impl SalsaCore {
    /// The state in logical word order, whatever the physical layout.
    pub closed spec fn logical(&self) -> Seq<u32> {
        match self.backend {
            Backend::Scalar => self.state@,
            Backend::Vectorized => unpermuted(self.state@),
        }
    }

    pub closed spec fn spec_rounds(&self) -> Rounds {
        self.rounds
    }

    pub closed spec fn spec_backend(&self) -> Backend {
        self.backend
    }

    /// The number of double rounds this core runs per block.
    pub open spec fn dr(&self) -> nat {
        self.spec_rounds().spec_double_rounds()
    }

    /// The logical block counter.
    pub open spec fn counter(&self) -> u64 {
        counter_of(self.logical())
    }

    /// The logical state always has exactly 16 words.
    pub proof fn lemma_logical_len(&self)
        ensures
            self.logical().len() == 16,
    {
    }

    /// Capability probe for the block-production strategy. Both strategies
    /// here are portable code, so the lane-oriented layout is always
    /// available; a target without it would fall back to `Scalar`.
    pub fn select_backend() -> (r: Backend)
        ensures
            r == Backend::Vectorized,
    {
        Backend::Vectorized
    }

    /// Builds a core from a pre-formed logical 16-word state, bypassing the
    /// key schedule. Intended for companion key-derivation routines that
    /// already hold a valid state, not for general use.
    pub fn from_raw_state(state: [u32; 16], rounds: Rounds, backend: Backend) -> (r: SalsaCore)
        ensures
            r.logical() == state@,
            r.spec_rounds() == rounds,
            r.spec_backend() == backend,
    {
        let stored = match backend {
            Backend::Scalar => state,
            Backend::Vectorized => permute_state(&state),
        };
        proof {
            crate::vector::lemma_layout_inverse(state@);
        }
        SalsaCore { state: stored, rounds, backend }
    }

    /// Builds a core for the base variant from a 16- or 32-byte key and an
    /// 8-byte nonce, with the backend chosen by the capability probe.
    /// Construction is refused, with the offending input named, on any other
    /// lengths.
    pub fn new(key: &[u8], nonce: &[u8], rounds: Rounds) -> (r: Result<
        SalsaCore,
        ConstructionError,
    >)
        ensures
            r is Ok <==> ((key@.len() == 16 || key@.len() == 32) && nonce@.len() == 8),
            r is Ok ==> r->Ok_0.logical() == initial_state(key@, nonce@) && r->Ok_0.spec_rounds()
                == rounds,
            !(key@.len() == 16 || key@.len() == 32) ==> r == Result::<
                SalsaCore,
                ConstructionError,
            >::Err(ConstructionError::KeyLength),
            (key@.len() == 16 || key@.len() == 32) && nonce@.len() != 8 ==> r == Result::<
                SalsaCore,
                ConstructionError,
            >::Err(ConstructionError::NonceLength),
    {
        Self::new_with_backend(key, nonce, rounds, Self::select_backend())
    }

    /// As `new`, with the block-production strategy chosen by the caller.
    pub fn new_with_backend(key: &[u8], nonce: &[u8], rounds: Rounds, backend: Backend) -> (r:
        Result<SalsaCore, ConstructionError>)
        ensures
            r is Ok <==> ((key@.len() == 16 || key@.len() == 32) && nonce@.len() == 8),
            r is Ok ==> r->Ok_0.logical() == initial_state(key@, nonce@) && r->Ok_0.spec_rounds()
                == rounds && r->Ok_0.spec_backend() == backend,
            !(key@.len() == 16 || key@.len() == 32) ==> r == Result::<
                SalsaCore,
                ConstructionError,
            >::Err(ConstructionError::KeyLength),
            (key@.len() == 16 || key@.len() == 32) && nonce@.len() != 8 ==> r == Result::<
                SalsaCore,
                ConstructionError,
            >::Err(ConstructionError::NonceLength),
    {
        if !(key.len() == 16 || key.len() == 32) {
            return Err(ConstructionError::KeyLength);
        }
        if nonce.len() != 8 {
            return Err(ConstructionError::NonceLength);
        }
        let state = build_state(key, nonce);
        Ok(Self::from_raw_state(state, rounds, backend))
    }

    /// Reads the logical block counter out of the two layout-specific
    /// counter words.
    pub fn get_block_pos(&self) -> (r: u64)
        ensures
            r == self.counter(),
    {
        match self.backend {
            Backend::Scalar => (self.state[8] as u64) | ((self.state[9] as u64) << 32),
            Backend::Vectorized => (self.state[8] as u64) | ((self.state[5] as u64) << 32),
        }
    }

    /// Overwrites the two layout-specific counter words with `pos`; every
    /// other word is untouched. Subsequent production starts at block `pos`.
    pub fn set_block_pos(&mut self, pos: u64)
        ensures
            final(self).logical() == with_counter(old(self).logical(), pos),
            final(self).counter() == pos,
            final(self).spec_rounds() == old(self).spec_rounds(),
            final(self).spec_backend() == old(self).spec_backend(),
    {
        proof {
            assert(pos & 0xffff_ffff < 0x1_0000_0000 && pos >> 32 < 0x1_0000_0000) by (bit_vector);
        }
        let lo = (pos & 0xffff_ffff) as u32;
        let hi = (pos >> 32) as u32;
        match self.backend {
            Backend::Scalar => {
                self.state[8] = lo;
                self.state[9] = hi;
            },
            Backend::Vectorized => {
                self.state[8] = lo;
                self.state[5] = hi;
            },
        }
        proof {
            assert(self.logical() =~= with_counter(old(self).logical(), pos));
            lemma_with_counter(old(self).logical(), pos);
        }
    }

    /// How many blocks can still be produced before the counter is
    /// exhausted: `u64::MAX - counter`. A return of 0 means the next
    /// production attempt is refused.
    pub fn remaining_blocks(&self) -> (r: u64)
        ensures
            r == u64::MAX - self.counter(),
    {
        u64::MAX - self.get_block_pos()
    }

    /// Produces the next 64-byte keystream block and advances the counter by
    /// exactly one. The bytes are a pure function of the logical state and
    /// the round count; no other word of the state changes.
    pub fn produce_block(&mut self) -> (out: Vec<u8>)
        requires
            old(self).counter() < u64::MAX,
        ensures
            out@ == block_bytes(old(self).logical(), old(self).dr()),
            out@.len() == 64,
            final(self).logical() == with_counter(
                old(self).logical(),
                (old(self).counter() + 1) as u64,
            ),
            final(self).counter() == old(self).counter() + 1,
            final(self).spec_rounds() == old(self).spec_rounds(),
            final(self).spec_backend() == old(self).spec_backend(),
    {
        let dr = self.rounds.double_rounds();
        let mut w: [u32; 16] = self.state;
        let logical_words: [u32; 16] = match self.backend {
            Backend::Scalar => {
                scalar_rounds(&mut w, dr);
                add_back(&mut w, &self.state);
                proof {
                    assert(w@ == block_words(old(self).logical(), old(self).dr()));
                }
                w
            },
            Backend::Vectorized => {
                vector_rounds(&mut w, dr);
                add_back(&mut w, &self.state);
                let lw = unpermute_state(&w);
                proof {
                    crate::vector::lemma_layout_inverse(self.state@);
                    assert(permuted(old(self).logical()) == self.state@);
                    lemma_backend_equivalence(old(self).logical(), old(self).dr());
                    assert(le_bytes_of_words(lw@) == vector_block_bytes(
                        old(self).logical(),
                        old(self).dr(),
                    ));
                }
                lw
            },
        };
        let out = serialize_words(logical_words.as_slice());
        proof {
            assert(out@ == block_bytes(old(self).logical(), old(self).dr()));
            lemma_le_bytes_of_words_len(logical_words@);
            crate::rounds::lemma_run_rounds_len(old(self).logical(), old(self).dr());
        }
        let pos = self.get_block_pos();
        self.set_block_pos(pos + 1);
        out
    }

    /// As `produce_block`, but reports counter exhaustion instead of
    /// requiring the caller to rule it out: `None` exactly when the counter
    /// has reached its limit, in which case nothing changes.
    pub fn try_produce_block(&mut self) -> (out: Option<Vec<u8>>)
        ensures
            out is Some <==> old(self).counter() < u64::MAX,
            out is Some ==> out->0@ == block_bytes(old(self).logical(), old(self).dr())
                && final(self).logical() == with_counter(
                old(self).logical(),
                (old(self).counter() + 1) as u64,
            ),
            out is None ==> *final(self) == *old(self),
            final(self).spec_rounds() == old(self).spec_rounds(),
            final(self).spec_backend() == old(self).spec_backend(),
    {
        if self.remaining_blocks() == 0 {
            None
        } else {
            Some(self.produce_block())
        }
    }

    /// Secure erase: overwrites all 16 state words with zero. The teardown
    /// path for callers that must not leave key material behind.
    pub fn erase(&mut self)
        ensures
            forall|i: int| 0 <= i < 16 ==> final(self).logical()[i] == 0,
            final(self).spec_rounds() == old(self).spec_rounds(),
            final(self).spec_backend() == old(self).spec_backend(),
    {
        let mut i: usize = 0;
        while i < 16
            invariant
                i <= 16,
                self.state@.len() == 16,
                forall|j: int| 0 <= j < i ==> self.state@[j] == 0,
                self.rounds == old(self).rounds,
                self.backend == old(self).backend,
            decreases 16 - i,
        {
            self.state[i] = 0;
            i = i + 1;
        }
    }
}

/// Adds the pre-round words into the rounds output, elementwise mod 2^32.
fn add_back(w: &mut [u32; 16], st: &[u32; 16])
    ensures
        final(w)@ == add_words(old(w)@, st@),
{
    let mut i: usize = 0;
    while i < 16
        invariant
            i <= 16,
            w@.len() == 16,
            forall|j: int| 0 <= j < i ==> w@[j] == wadd(old(w)@[j], st@[j]),
            forall|j: int| i <= j < 16 ==> w@[j] == old(w)@[j],
        decreases 16 - i,
    {
        w[i] = w[i].wrapping_add(st[i]);
        i = i + 1;
    }
    proof {
        assert(w@ =~= add_words(old(w)@, st@));
    }
}

/// Serializes a word sequence to its little-endian bytes in word order.
pub(crate) fn serialize_words(w: &[u32]) -> (out: Vec<u8>)
    ensures
        out@ == le_bytes_of_words(w@),
{
    let mut out: Vec<u8> = Vec::new();
    let mut i: usize = 0;
    while i < w.len()
        invariant
            i <= w@.len(),
            out@ == le_bytes_of_words(w@.take(i as int)),
        decreases w@.len() - i,
    {
        push_word_bytes(&mut out, w[i]);
        proof {
            assert(w@.take(i + 1 as int).drop_last() =~= w@.take(i as int));
            assert(w@.take(i + 1 as int).last() == w@[i as int]);
        }
        i = i + 1;
    }
    proof {
        assert(w@.take(w@.len() as int) =~= w@);
    }
    out
}

} // verus!
