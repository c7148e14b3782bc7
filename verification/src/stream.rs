//! Keystream application: XORing the stream into caller buffers.
//!
//! A `Salsa` wraps a core and keeps a byte-within-block cursor, so the
//! keystream can be consumed in chunks of any size without skipping or
//! repeating a byte. The keystream itself is a pure function of the
//! counter-free state, the round count and the byte position.

use vstd::pervasive::VecAdditionalExecFns;
use vstd::prelude::*;

use crate::rounds::block_bytes;
use crate::schedule::initial_state;
use crate::state::{
    lemma_counter_reconstruct, lemma_zero_counter, with_counter, ConstructionError,
    Rounds, SalsaCore,
};
use crate::xsalsa::{hsalsa_spec, xsalsa_core};

verus! {

/// The largest stream position: `u64::MAX` blocks of 64 bytes. The block at
/// index `u64::MAX` itself is never produced, so the counter cannot wrap.
pub open spec fn max_stream_len() -> nat {
    0xffff_ffff_ffff_ffff * 64
}

/// The keystream block at block index `n` of the stream whose counter-free
/// state is `base`.
pub open spec fn block_at(base: Seq<u32>, dr: nat, n: u64) -> Seq<u8>
    recommends
        base.len() == 16,
{
    block_bytes(with_counter(base, n), dr)
}

/// Byte `j` of the keystream.
pub open spec fn keystream_byte(base: Seq<u32>, dr: nat, j: nat) -> u8
    recommends
        base.len() == 16,
        j < max_stream_len(),
{
    block_at(base, dr, (j / 64) as u64)[(j % 64) as int]
}

/// `buf` XORed with the keystream bytes starting at stream position `start`.
pub open spec fn xor_keystream(base: Seq<u32>, dr: nat, start: nat, buf: Seq<u8>) -> Seq<u8>
    recommends
        base.len() == 16,
        start + buf.len() <= max_stream_len(),
{
    Seq::new(buf.len(), |i: int| buf[i] ^ keystream_byte(base, dr, (start + i) as nat))
}

proof fn lemma_xor_cancel(x: u8, k: u8)
    ensures
        (x ^ k) ^ k == x,
{
    assert((x ^ k) ^ k == x) by (bit_vector);
}

/// Involution: applying the keystream twice from the same position restores
/// the buffer, since XOR with the same pad is self-inverse.
pub proof fn lemma_keystream_involution(base: Seq<u32>, dr: nat, start: nat, buf: Seq<u8>)
    ensures
        xor_keystream(base, dr, start, xor_keystream(base, dr, start, buf)) == buf,
{
    let once = xor_keystream(base, dr, start, buf);
    let twice = xor_keystream(base, dr, start, once);
    assert forall|i: int| 0 <= i < buf.len() implies twice[i] == buf[i] by {
        lemma_xor_cancel(buf[i], keystream_byte(base, dr, (start + i) as nat));
    }
    assert(twice =~= buf);
}

/// Chunking invariance: applying the keystream to a concatenation equals
/// applying it to the two parts in sequence, the second starting where the
/// first ended. By induction this covers chunked application of any shape.
pub proof fn lemma_chunking(base: Seq<u32>, dr: nat, start: nat, b1: Seq<u8>, b2: Seq<u8>)
    ensures
        xor_keystream(base, dr, start, b1 + b2) == xor_keystream(base, dr, start, b1)
            + xor_keystream(base, dr, (start + b1.len()) as nat, b2),
{
    let lhs = xor_keystream(base, dr, start, b1 + b2);
    let rhs = xor_keystream(base, dr, start, b1) + xor_keystream(
        base,
        dr,
        (start + b1.len()) as nat,
        b2,
    );
    assert forall|i: int| 0 <= i < lhs.len() implies lhs[i] == rhs[i] by {
        if i < b1.len() {
            assert((b1 + b2)[i] == b1[i]);
        } else {
            assert((b1 + b2)[i] == b2[i - b1.len()]);
        }
    }
    assert(lhs =~= rhs);
}

/// A cipher: a core plus the byte-within-block cursor that lets callers
/// consume the keystream in chunks of any size.
pub struct Salsa {
    core: SalsaCore,
    block: Vec<u8>,
    off: usize,
}

impl Salsa {
    /// The counter-free logical state. Together with the round count it
    /// determines every keystream byte; it never changes after construction.
    pub closed spec fn base(&self) -> Seq<u32> {
        with_counter(self.core.logical(), 0)
    }

    pub closed spec fn spec_rounds(&self) -> Rounds {
        self.core.spec_rounds()
    }

    /// Double rounds per block.
    pub open spec fn dr(&self) -> nat {
        self.spec_rounds().spec_double_rounds()
    }

    /// The stream position: how many keystream bytes have been consumed
    /// since construction or the last seek.
    pub closed spec fn pos(&self) -> nat {
        if self.off == 0 {
            self.core.counter() as nat * 64
        } else {
            ((self.core.counter() - 1) * 64 + self.off) as nat
        }
    }

    /// The cursor is inside a block, and a partially consumed block is the
    /// buffered one.
    pub closed spec fn wf(&self) -> bool {
        &&& self.off < 64
        &&& (self.off > 0 ==> self.core.counter() >= 1 && self.block@ == block_at(
            self.base(),
            self.dr(),
            (self.core.counter() - 1) as u64,
        ) && self.block@.len() == 64)
    }

    /// Wraps an already built core. The stream position continues from the
    /// core's block counter.
    pub fn from_core(core: SalsaCore) -> (r: Salsa)
        ensures
            r.wf(),
            r.base() == with_counter(core.logical(), 0),
            r.spec_rounds() == core.spec_rounds(),
            r.pos() == core.counter() as nat * 64,
    {
        Salsa { core, block: Vec::new(), off: 0 }
    }

    /// Builds a cipher from a 16- or 32-byte key and a nonce of 8 bytes
    /// (base variant) or 24 bytes (extended variant, via the two-stage
    /// derivation). Any other lengths are refused, the key checked first.
    pub fn new(key: &[u8], nonce: &[u8], rounds: Rounds) -> (r: Result<Salsa, ConstructionError>)
        ensures
            r is Ok <==> ((key@.len() == 16 || key@.len() == 32) && (nonce@.len() == 8
                || nonce@.len() == 24)),
            r is Ok ==> r->Ok_0.wf() && r->Ok_0.pos() == 0 && r->Ok_0.spec_rounds() == rounds,
            r is Ok && nonce@.len() == 8 ==> r->Ok_0.base() == initial_state(key@, nonce@),
            r is Ok && nonce@.len() == 24 ==> r->Ok_0.base() == initial_state(
                hsalsa_spec(key@, nonce@.take(16), rounds.spec_double_rounds()),
                nonce@.skip(16),
            ),
            !(key@.len() == 16 || key@.len() == 32) ==> r == Result::<
                Salsa,
                ConstructionError,
            >::Err(ConstructionError::KeyLength),
            (key@.len() == 16 || key@.len() == 32) && !(nonce@.len() == 8 || nonce@.len() == 24)
                ==> r == Result::<Salsa, ConstructionError>::Err(ConstructionError::NonceLength),
    {
        if !(key.len() == 16 || key.len() == 32) {
            return Err(ConstructionError::KeyLength);
        }
        let core = if nonce.len() == 8 {
            match SalsaCore::new(key, nonce, rounds) {
                Ok(c) => c,
                Err(e) => {
                    return Err(e);
                },
            }
        } else if nonce.len() == 24 {
            match xsalsa_core(key, nonce, rounds) {
                Ok(c) => c,
                Err(e) => {
                    return Err(e);
                },
            }
        } else {
            return Err(ConstructionError::NonceLength);
        };
        proof {
            lemma_zero_counter(core.logical());
        }
        Ok(Salsa { core, block: Vec::new(), off: 0 })
    }

    /// Repositions the stream at the start of block `block_index`; only the
    /// counter words change. Sub-block offsets are reached by consuming
    /// leading bytes of the block.
    pub fn seek(&mut self, block_index: u64)
        ensures
            final(self).wf(),
            final(self).pos() == block_index as nat * 64,
            final(self).base() == old(self).base(),
            final(self).spec_rounds() == old(self).spec_rounds(),
    {
        self.core.set_block_pos(block_index);
        self.off = 0;
        proof {
            old(self).core.lemma_logical_len();
            assert(self.base() =~= old(self).base());
        }
    }

    /// The block counter of the wrapped core.
    pub closed spec fn counter(&self) -> u64 {
        self.core.counter()
    }

    /// How many whole blocks can still be produced before the counter is
    /// exhausted.
    pub fn remaining_blocks(&self) -> (r: u64)
        ensures
            r == u64::MAX - self.counter(),
    {
        self.core.remaining_blocks()
    }

    /// XORs the next `data.len()` keystream bytes into `data` in place,
    /// advancing the stream position by exactly that many bytes: no byte of
    /// the keystream is skipped or repeated across calls.
    pub fn apply_keystream(&mut self, data: &mut Vec<u8>)
        requires
            old(self).wf(),
            old(self).pos() + old(data)@.len() <= max_stream_len(),
        ensures
            final(self).wf(),
            final(data)@ == xor_keystream(
                old(self).base(),
                old(self).dr(),
                old(self).pos(),
                old(data)@,
            ),
            final(data)@.len() == old(data)@.len(),
            final(self).pos() == old(self).pos() + old(data)@.len(),
            final(self).base() == old(self).base(),
            final(self).spec_rounds() == old(self).spec_rounds(),
    {
        let ghost base = self.base();
        let ghost gdr = self.dr();
        let ghost pos0 = self.pos();
        let ghost orig = data@;
        let n = data.len();
        let mut i: usize = 0;
        while i < n
            invariant
                self.wf(),
                i <= n,
                n == data@.len(),
                orig.len() == n,
                self.base() == base,
                self.spec_rounds() == old(self).spec_rounds(),
                self.dr() == gdr,
                self.pos() == pos0 + i,
                pos0 + n <= max_stream_len(),
                forall|j: int|
                    0 <= j < i ==> data@[j] == orig[j] ^ keystream_byte(
                        base,
                        gdr,
                        (pos0 + j) as nat,
                    ),
                forall|j: int| i <= j < n ==> data@[j] == orig[j],
            decreases n - i,
        {
            if self.off == 0 {
                proof {
                    assert(self.core.counter() as nat * 64 == pos0 + i);
                    assert(self.core.counter() < u64::MAX);
                    self.core.lemma_logical_len();
                }
                let ghost l = self.core.logical();
                let ghost c = self.core.counter();
                let b = self.core.produce_block();
                self.block = b;
                proof {
                    lemma_counter_reconstruct(l);
                    assert(with_counter(with_counter(l, 0), c) =~= with_counter(l, c));
                    assert(self.block@ == block_at(base, gdr, c));
                    assert(self.base() =~= base);
                }
            }
            let ghost c1 = (self.core.counter() - 1) as nat;
            proof {
                assert(pos0 + i == c1 * 64 + self.off);
                assert((c1 * 64 + self.off as nat) / 64 == c1 && (c1 * 64 + self.off as nat) % 64
                    == self.off as nat) by (nonlinear_arith)
                    requires
                        0 <= self.off < 64,
                        c1 >= 0,
                ;
                assert(keystream_byte(base, gdr, (pos0 + i) as nat) == self.block@[self.off as int]);
            }
            let ks = self.block[self.off];
            let d = data[i];
            data.set(i, d ^ ks);
            self.off = if self.off == 63 {
                0
            } else {
                self.off + 1
            };
            i = i + 1;
        }
        proof {
            assert(data@ =~= xor_keystream(base, gdr, pos0, orig));
        }
    }

    /// Secure erase: zeroes all 16 core state words and the buffered block
    /// bytes, and resets the cursor.
    pub fn erase(&mut self)
        ensures
            final(self).wf(),
            forall|i: int| 0 <= i < 16 ==> final(self).base()[i] == 0,
            final(self).block_view().len() == 0,
    {
        let mut k: usize = 0;
        let blen = self.block.len();
        while k < blen
            invariant
                k <= blen,
                blen == self.block@.len(),
                forall|j: int| 0 <= j < k ==> self.block@[j] == 0,
            decreases blen - k,
        {
            self.block.set(k, 0);
            k = k + 1;
        }
        self.block = Vec::new();
        self.core.erase();
        self.off = 0;
        proof {
            self.core.lemma_logical_len();
            lemma_zero_counter(self.core.logical());
        }
    }

    /// The buffered block bytes; empty after an erase.
    pub closed spec fn block_view(&self) -> Seq<u8> {
        self.block@
    }
}

} // verus!
