//! The extended-nonce (two-stage) construction.
//!
//! A 24-byte nonce is split into a 16-byte derivation nonce and an 8-byte
//! core nonce. The derivation stage builds a state from the key and the
//! derivation nonce, runs the round transform *without* the final add-back,
//! and reads a 32-byte subkey out of eight fixed word positions; an ordinary
//! core keyed with that subkey and the core nonce then generates the
//! keystream. The round count is the same in both stages.

use vstd::prelude::*;

use crate::rounds::run_rounds;
use crate::schedule::{build_derivation_state, derivation_state, initial_state};
use crate::state::{serialize_words, ConstructionError, Rounds, SalsaCore};
use crate::words::le_bytes_of_words;

verus! {

/// The words the subkey is read from, in order: the rounds output at logical
/// positions 0, 5, 10, 15, 6, 7, 8, 9.
pub open spec fn subkey_words(r: Seq<u32>) -> Seq<u32>
    recommends
        r.len() == 16,
{
    seq![r[0], r[5], r[10], r[15], r[6], r[7], r[8], r[9]]
}

/// The 32-byte subkey derived from a key and a 16-byte derivation nonce with
/// `dr` double rounds: the round transform of the derivation state, without
/// add-back, read at the eight fixed positions.
pub open spec fn hsalsa_spec(key: Seq<u8>, dnonce: Seq<u8>, dr: nat) -> Seq<u8>
    recommends
        key.len() == 16 || key.len() == 32,
        dnonce.len() == 16,
{
    le_bytes_of_words(subkey_words(run_rounds(derivation_state(key, dnonce), dr)))
}

/// The derivation stage: a 32-byte subkey from a key and a 16-byte
/// derivation nonce. Unlike block production, the pre-round state is not
/// added back; the rounds output is used directly.
pub fn hsalsa(key: &[u8], dnonce: &[u8], rounds: Rounds) -> (out: Vec<u8>)
    requires
        key@.len() == 16 || key@.len() == 32,
        dnonce@.len() == 16,
    ensures
        out@ == hsalsa_spec(key@, dnonce@, rounds.spec_double_rounds()),
        out@.len() == 32,
{
    let mut st = build_derivation_state(key, dnonce);
    crate::rounds::scalar_rounds(&mut st, rounds.double_rounds());
    let sel: [u32; 8] = [st[0], st[5], st[10], st[15], st[6], st[7], st[8], st[9]];
    proof {
        crate::rounds::lemma_run_rounds_len(
            derivation_state(key@, dnonce@),
            rounds.spec_double_rounds(),
        );
        assert(sel@ =~= subkey_words(
            run_rounds(derivation_state(key@, dnonce@), rounds.spec_double_rounds()),
        ));
        crate::words::lemma_le_bytes_of_words_len(sel@);
    }
    serialize_words(sel.as_slice())
}

/// Builds a core for the extended variant: derives the subkey from the first
/// 16 nonce bytes, then keys an ordinary core with it and the last 8 nonce
/// bytes. Refused when the key is neither 16 nor 32 bytes or the nonce is
/// not 24 bytes.
pub fn xsalsa_core(key: &[u8], nonce: &[u8], rounds: Rounds) -> (r: Result<
    SalsaCore,
    ConstructionError,
>)
    ensures
        r is Ok <==> ((key@.len() == 16 || key@.len() == 32) && nonce@.len() == 24),
        r is Ok ==> r->Ok_0.logical() == initial_state(
            hsalsa_spec(key@, nonce@.take(16), rounds.spec_double_rounds()),
            nonce@.skip(16),
        ) && r->Ok_0.spec_rounds() == rounds,
        !(key@.len() == 16 || key@.len() == 32) ==> r == Result::<
            SalsaCore,
            ConstructionError,
        >::Err(ConstructionError::KeyLength),
        (key@.len() == 16 || key@.len() == 32) && nonce@.len() != 24 ==> r == Result::<
            SalsaCore,
            ConstructionError,
        >::Err(ConstructionError::NonceLength),
{
    if !(key.len() == 16 || key.len() == 32) {
        return Err(ConstructionError::KeyLength);
    }
    if nonce.len() != 24 {
        return Err(ConstructionError::NonceLength);
    }
    let dnonce = vstd::slice::slice_subrange(nonce, 0, 16);
    let core_nonce = vstd::slice::slice_subrange(nonce, 16, 24);
    let subkey = hsalsa(key, dnonce, rounds);
    proof {
        assert(nonce@.subrange(0, 16) =~= nonce@.take(16));
        assert(nonce@.subrange(16, 24) =~= nonce@.skip(16));
    }
    match SalsaCore::new(subkey.as_slice(), core_nonce, rounds) {
        Ok(core) => Ok(core),
        Err(e) => Err(e),
    }
}

} // verus!
