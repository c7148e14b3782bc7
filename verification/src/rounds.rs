//! The Salsa round-function engine.
//!
//! A quarter round mixes four words with 32-bit modular additions, fixed
//! rotations and XORs; a double round applies it to the four columns and then
//! to the four rows of the state viewed as a 4x4 matrix. A keystream block is
//! the rounds output added elementwise (mod 2^32) to the pre-round state,
//! serialized little-endian.

use vstd::prelude::*;

use crate::words::le_bytes_of_words;

verus! {

/// 32-bit modular addition: wraparound is the intended semantics.
pub open spec fn wadd(x: u32, y: u32) -> u32 {
    vstd::wrapping::u32_specs::wrapping_add(x, y)
}

/// Left rotation of a 32-bit word by `n` places, `0 < n < 32`.
pub open spec fn rotl(x: u32, n: u32) -> u32
    recommends
        0 < n < 32,
{
    (x << n) | (x >> ((32 - n) as u32))
}

/// The quarter round on `(a, b, c, d)`, returning the mixed words in the
/// same order.
pub open spec fn quarter_round(a: u32, b: u32, c: u32, d: u32) -> (u32, u32, u32, u32) {
    let b1 = b ^ rotl(wadd(a, d), 7);
    let c1 = c ^ rotl(wadd(b1, a), 9);
    let d1 = d ^ rotl(wadd(c1, b1), 13);
    let a1 = a ^ rotl(wadd(d1, c1), 18);
    (a1, b1, c1, d1)
}

/// The state after a quarter round over the words at indices
/// `(ia, ib, ic, id)`.
pub open spec fn qr_at(s: Seq<u32>, ia: int, ib: int, ic: int, id: int) -> Seq<u32>
    recommends
        s.len() == 16,
        0 <= ia < 16,
        0 <= ib < 16,
        0 <= ic < 16,
        0 <= id < 16,
{
    let q = quarter_round(s[ia], s[ib], s[ic], s[id]);
    s.update(ia, q.0).update(ib, q.1).update(ic, q.2).update(id, q.3)
}

/// Quarter rounds over the four columns of the 4x4 state matrix.
pub open spec fn column_round(s: Seq<u32>) -> Seq<u32>
    recommends
        s.len() == 16,
{
    qr_at(qr_at(qr_at(qr_at(s, 0, 4, 8, 12), 5, 9, 13, 1), 10, 14, 2, 6), 15, 3, 7, 11)
}

/// Quarter rounds over the four rows of the 4x4 state matrix.
pub open spec fn row_round(s: Seq<u32>) -> Seq<u32>
    recommends
        s.len() == 16,
{
    qr_at(qr_at(qr_at(qr_at(s, 0, 1, 2, 3), 5, 6, 7, 4), 10, 11, 8, 9), 15, 12, 13, 14)
}

/// One double round: the column pass followed by the row pass.
pub open spec fn double_round(s: Seq<u32>) -> Seq<u32>
    recommends
        s.len() == 16,
{
    row_round(column_round(s))
}

/// The state after `dr` double rounds (a round count of `2 * dr`).
pub open spec fn run_rounds(s: Seq<u32>, dr: nat) -> Seq<u32>
    recommends
        s.len() == 16,
    decreases dr,
{
    if dr == 0 {
        s
    } else {
        double_round(run_rounds(s, (dr - 1) as nat))
    }
}

/// Elementwise 32-bit modular sum of two word sequences of equal length.
pub open spec fn add_words(a: Seq<u32>, b: Seq<u32>) -> Seq<u32>
    recommends
        a.len() == b.len(),
{
    Seq::new(a.len(), |i: int| wadd(a[i], b[i]))
}

/// The 16 words of the keystream block generated from state `s` with `dr`
/// double rounds: the rounds output plus the pre-round state.
pub open spec fn block_words(s: Seq<u32>, dr: nat) -> Seq<u32>
    recommends
        s.len() == 16,
{
    add_words(run_rounds(s, dr), s)
}

/// The 64 keystream bytes generated from state `s` with `dr` double rounds.
pub open spec fn block_bytes(s: Seq<u32>, dr: nat) -> Seq<u8>
    recommends
        s.len() == 16,
{
    le_bytes_of_words(block_words(s, dr))
}

pub proof fn lemma_run_rounds_len(s: Seq<u32>, dr: nat)
    requires
        s.len() == 16,
    ensures
        run_rounds(s, dr).len() == 16,
    decreases dr,
{
    if dr > 0 {
        lemma_run_rounds_len(s, (dr - 1) as nat);
    }
}

/// Left rotation of `x` by `n` places.
pub fn rotl_word(x: u32, n: u32) -> (r: u32)
    requires
        0 < n < 32,
    ensures
        r == rotl(x, n),
{
    (x << n) | (x >> (32 - n))
}

/// Applies the quarter round in place to the words of `s` at indices
/// `(ia, ib, ic, id)`.
pub(crate) fn quarter(s: &mut [u32; 16], ia: usize, ib: usize, ic: usize, id: usize)
    requires
        ia < 16,
        ib < 16,
        ic < 16,
        id < 16,
        ia != ib,
        ia != ic,
        ia != id,
        ib != ic,
        ib != id,
        ic != id,
    ensures
        final(s)@ == qr_at(old(s)@, ia as int, ib as int, ic as int, id as int),
{
    let a = s[ia];
    let b = s[ib];
    let c = s[ic];
    let d = s[id];
    let b1 = b ^ rotl_word(a.wrapping_add(d), 7);
    let c1 = c ^ rotl_word(b1.wrapping_add(a), 9);
    let d1 = d ^ rotl_word(c1.wrapping_add(b1), 13);
    let a1 = a ^ rotl_word(d1.wrapping_add(c1), 18);
    s[ia] = a1;
    s[ib] = b1;
    s[ic] = c1;
    s[id] = d1;
    proof {
        assert(s@ =~= qr_at(old(s)@, ia as int, ib as int, ic as int, id as int));
    }
}

/// One double round in place, on the logical (scalar) word layout.
pub(crate) fn scalar_double_round(s: &mut [u32; 16])
    ensures
        final(s)@ == double_round(old(s)@),
{
    quarter(s, 0, 4, 8, 12);
    quarter(s, 5, 9, 13, 1);
    quarter(s, 10, 14, 2, 6);
    quarter(s, 15, 3, 7, 11);
    quarter(s, 0, 1, 2, 3);
    quarter(s, 5, 6, 7, 4);
    quarter(s, 10, 11, 8, 9);
    quarter(s, 15, 12, 13, 14);
}

/// Runs `dr` double rounds in place, on the logical (scalar) word layout.
pub(crate) fn scalar_rounds(s: &mut [u32; 16], dr: usize)
    ensures
        final(s)@ == run_rounds(old(s)@, dr as nat),
{
    let mut i: usize = 0;
    while i < dr
        invariant
            i <= dr,
            s@ == run_rounds(old(s)@, i as nat),
        decreases dr - i,
    {
        scalar_double_round(s);
        i = i + 1;
    }
}

} // verus!
