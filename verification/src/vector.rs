//! The vectorized backend: a lane-oriented physical word layout.
//!
//! The state is stored under a fixed permutation that lines the four matrix
//! columns up as physical rows, the layout a lane-parallel engine would use.
//! The round engine indexes the permuted positions directly, and the module
//! proves that the permuted pipeline emits exactly the bytes of the scalar
//! one (`lemma_backend_equivalence`).

use vstd::prelude::*;

use crate::rounds::{add_words, block_bytes, block_words, double_round, qr_at, quarter, run_rounds};
use crate::words::le_bytes_of_words;

verus! {

/// The physical (vectorized) layout of a logical state: word `i` of the
/// result holds logical word `[0, 5, 10, 15, 4, 9, 14, 3, 8, 13, 2, 7, 12, 1,
/// 6, 11][i]`, so each column quarter round reads one physical word of each
/// group of four.
pub open spec fn permuted(s: Seq<u32>) -> Seq<u32>
    recommends
        s.len() == 16,
{
    seq![
        s[0],
        s[5],
        s[10],
        s[15],
        s[4],
        s[9],
        s[14],
        s[3],
        s[8],
        s[13],
        s[2],
        s[7],
        s[12],
        s[1],
        s[6],
        s[11],
    ]
}

/// The logical state recovered from the vectorized layout; the inverse of
/// `permuted`.
pub open spec fn unpermuted(p: Seq<u32>) -> Seq<u32>
    recommends
        p.len() == 16,
{
    seq![
        p[0],
        p[13],
        p[10],
        p[7],
        p[4],
        p[1],
        p[14],
        p[11],
        p[8],
        p[5],
        p[2],
        p[15],
        p[12],
        p[9],
        p[6],
        p[3],
    ]
}

/// The two layout maps invert each other.
pub proof fn lemma_layout_inverse(s: Seq<u32>)
    requires
        s.len() == 16,
    ensures
        unpermuted(permuted(s)) == s,
        permuted(unpermuted(s)) == s,
{
    assert(unpermuted(permuted(s)) =~= s);
    assert(permuted(unpermuted(s)) =~= s);
}

/// One double round expressed on the vectorized layout: the column pass works
/// on the physical groups of four, the row pass on the shuffled positions the
/// layout sends each row to.
pub open spec fn vector_double_round_spec(p: Seq<u32>) -> Seq<u32>
    recommends
        p.len() == 16,
{
    let c = qr_at(qr_at(qr_at(qr_at(p, 0, 4, 8, 12), 1, 5, 9, 13), 2, 6, 10, 14), 3, 7, 11, 15);
    qr_at(qr_at(qr_at(qr_at(c, 0, 13, 10, 7), 1, 14, 11, 4), 2, 15, 8, 5), 3, 12, 9, 6)
}

/// The vectorized layout after `dr` double rounds.
pub open spec fn vector_rounds_spec(p: Seq<u32>, dr: nat) -> Seq<u32>
    recommends
        p.len() == 16,
    decreases dr,
{
    if dr == 0 {
        p
    } else {
        vector_double_round_spec(vector_rounds_spec(p, (dr - 1) as nat))
    }
}

/// A double round on the vectorized layout is the permuted image of a double
/// round on the logical layout.
pub proof fn lemma_vector_double_round(p: Seq<u32>)
    requires
        p.len() == 16,
    ensures
        vector_double_round_spec(p) == permuted(double_round(unpermuted(p))),
{
    let l = unpermuted(p);
    lemma_layout_inverse(l);
    let l1 = qr_at(l, 0, 4, 8, 12);
    let p1 = qr_at(p, 0, 4, 8, 12);
    assert(p1 =~= permuted(l1));
    let l2 = qr_at(l1, 5, 9, 13, 1);
    let p2 = qr_at(p1, 1, 5, 9, 13);
    assert(p2 =~= permuted(l2));
    let l3 = qr_at(l2, 10, 14, 2, 6);
    let p3 = qr_at(p2, 2, 6, 10, 14);
    assert(p3 =~= permuted(l3));
    let l4 = qr_at(l3, 15, 3, 7, 11);
    let p4 = qr_at(p3, 3, 7, 11, 15);
    assert(p4 =~= permuted(l4));
    let l5 = qr_at(l4, 0, 1, 2, 3);
    let p5 = qr_at(p4, 0, 13, 10, 7);
    assert(p5 =~= permuted(l5));
    let l6 = qr_at(l5, 5, 6, 7, 4);
    let p6 = qr_at(p5, 1, 14, 11, 4);
    assert(p6 =~= permuted(l6));
    let l7 = qr_at(l6, 10, 11, 8, 9);
    let p7 = qr_at(p6, 2, 15, 8, 5);
    assert(p7 =~= permuted(l7));
    let l8 = qr_at(l7, 15, 12, 13, 14);
    let p8 = qr_at(p7, 3, 12, 9, 6);
    assert(p8 =~= permuted(l8));
}

/// Running the rounds on the vectorized layout tracks the logical rounds
/// under the layout map.
pub proof fn lemma_vector_rounds(s: Seq<u32>, dr: nat)
    requires
        s.len() == 16,
    ensures
        vector_rounds_spec(permuted(s), dr) == permuted(run_rounds(s, dr)),
    decreases dr,
{
    if dr > 0 {
        lemma_vector_rounds(s, (dr - 1) as nat);
        crate::rounds::lemma_run_rounds_len(s, (dr - 1) as nat);
        lemma_layout_inverse(run_rounds(s, (dr - 1) as nat));
        lemma_vector_double_round(permuted(run_rounds(s, (dr - 1) as nat)));
    }
}

/// The elementwise modular sum commutes with the layout map.
pub proof fn lemma_add_words_permuted(a: Seq<u32>, b: Seq<u32>)
    requires
        a.len() == 16,
        b.len() == 16,
    ensures
        add_words(permuted(a), permuted(b)) == permuted(add_words(a, b)),
{
    assert(add_words(permuted(a), permuted(b)) =~= permuted(add_words(a, b)));
}

/// The keystream bytes of the whole vectorized pipeline: permute the state,
/// run the rounds on the permuted layout, add the permuted pre-round words,
/// recover the logical order and serialize.
pub open spec fn vector_block_bytes(s: Seq<u32>, dr: nat) -> Seq<u8>
    recommends
        s.len() == 16,
{
    le_bytes_of_words(unpermuted(add_words(vector_rounds_spec(permuted(s), dr), permuted(s))))
}

/// Backend equivalence: for every state and round count the vectorized
/// pipeline emits exactly the bytes of the scalar one, so the two strategies
/// are byte-identical on every key, nonce, round count and block index.
pub proof fn lemma_backend_equivalence(s: Seq<u32>, dr: nat)
    requires
        s.len() == 16,
    ensures
        vector_block_bytes(s, dr) == block_bytes(s, dr),
{
    lemma_vector_rounds(s, dr);
    crate::rounds::lemma_run_rounds_len(s, dr);
    lemma_add_words_permuted(run_rounds(s, dr), s);
    lemma_layout_inverse(add_words(run_rounds(s, dr), s));
    assert(unpermuted(add_words(vector_rounds_spec(permuted(s), dr), permuted(s))) == block_words(
        s,
        dr,
    ));
}

/// Stores a logical state in the vectorized layout.
pub(crate) fn permute_state(s: &[u32; 16]) -> (r: [u32; 16])
    ensures
        r@ == permuted(s@),
{
    let r = [
        s[0],
        s[5],
        s[10],
        s[15],
        s[4],
        s[9],
        s[14],
        s[3],
        s[8],
        s[13],
        s[2],
        s[7],
        s[12],
        s[1],
        s[6],
        s[11],
    ];
    proof {
        assert(r@ =~= permuted(s@));
    }
    r
}

/// Recovers the logical order from the vectorized layout.
pub(crate) fn unpermute_state(p: &[u32; 16]) -> (r: [u32; 16])
    ensures
        r@ == unpermuted(p@),
{
    let r = [
        p[0],
        p[13],
        p[10],
        p[7],
        p[4],
        p[1],
        p[14],
        p[11],
        p[8],
        p[5],
        p[2],
        p[15],
        p[12],
        p[9],
        p[6],
        p[3],
    ];
    proof {
        assert(r@ =~= unpermuted(p@));
    }
    r
}

/// One double round in place, on the vectorized layout.
pub(crate) fn vector_double_round(s: &mut [u32; 16])
    ensures
        final(s)@ == vector_double_round_spec(old(s)@),
{
    quarter(s, 0, 4, 8, 12);
    quarter(s, 1, 5, 9, 13);
    quarter(s, 2, 6, 10, 14);
    quarter(s, 3, 7, 11, 15);
    quarter(s, 0, 13, 10, 7);
    quarter(s, 1, 14, 11, 4);
    quarter(s, 2, 15, 8, 5);
    quarter(s, 3, 12, 9, 6);
}

/// Runs `dr` double rounds in place, on the vectorized layout.
pub(crate) fn vector_rounds(s: &mut [u32; 16], dr: usize)
    ensures
        final(s)@ == vector_rounds_spec(old(s)@, dr as nat),
{
    let mut i: usize = 0;
    while i < dr
        invariant
            i <= dr,
            s@ == vector_rounds_spec(old(s)@, i as nat),
        decreases dr - i,
    {
        vector_double_round(s);
        i = i + 1;
    }
}

} // verus!
