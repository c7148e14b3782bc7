//! Constant and key-schedule builder.
//!
//! The four domain-separation constants embed the two ASCII decimal digits of
//! the (clamped) key length into the fixed text `expand ..-byte k`, so ciphers
//! keyed with 16 and with 32 bytes are algorithmically distinct. The initial
//! 16-word state packs the constants, the key, the nonce and a zeroed block
//! counter in the fixed logical order.

use vstd::prelude::*;

use crate::words::{le_word, word_at};

verus! {

/// The four constant words for a given key length: the little-endian words of
/// `expand NN-byte k`, where `NN` are the decimal digits of the key length,
/// clamped to 99.
pub open spec fn constants_spec(key_len: int) -> Seq<u32>
    recommends
        0 <= key_len,
{
    let kl = if key_len >= 100 {
        99
    } else {
        key_len
    };
    let d1 = (0x30 + kl / 10) as u8;
    let d2 = (0x30 + kl % 10) as u8;
    seq![
        le_word(0x65, 0x78, 0x70, 0x61),
        le_word(0x6e, 0x64, 0x20, d1),
        le_word(d2, 0x2d, 0x62, 0x79),
        le_word(0x74, 0x65, 0x20, 0x6b),
    ]
}

/// The initial logical state for a key of 16 or 32 bytes and an 8-byte nonce:
/// constants at words 0, 5, 10 and 15, the first 16 key bytes at words 1..=4,
/// the nonce at words 6..=7, the zeroed block counter at words 8..=9, and the
/// last 16 key bytes at words 11..=14 (a 16-byte key is reused whole).
pub open spec fn initial_state(key: Seq<u8>, nonce: Seq<u8>) -> Seq<u32>
    recommends
        key.len() == 16 || key.len() == 32,
        nonce.len() == 8,
{
    let c = constants_spec(key.len() as int);
    let t = key.len() - 16;
    seq![
        c[0],
        word_at(key, 0),
        word_at(key, 4),
        word_at(key, 8),
        word_at(key, 12),
        c[1],
        word_at(nonce, 0),
        word_at(nonce, 4),
        0u32,
        0u32,
        c[2],
        word_at(key, t),
        word_at(key, t + 4),
        word_at(key, t + 8),
        word_at(key, t + 12),
        c[3],
    ]
}

/// The state fed to the extended-nonce derivation: as `initial_state`, but
/// words 6..=9 hold the 16 bytes of the derivation nonce and no counter words
/// are reserved.
pub open spec fn derivation_state(key: Seq<u8>, dnonce: Seq<u8>) -> Seq<u32>
    recommends
        key.len() == 16 || key.len() == 32,
        dnonce.len() == 16,
{
    let c = constants_spec(key.len() as int);
    let t = key.len() - 16;
    seq![
        c[0],
        word_at(key, 0),
        word_at(key, 4),
        word_at(key, 8),
        word_at(key, 12),
        c[1],
        word_at(dnonce, 0),
        word_at(dnonce, 4),
        word_at(dnonce, 8),
        word_at(dnonce, 12),
        c[2],
        word_at(key, t),
        word_at(key, t + 4),
        word_at(key, t + 8),
        word_at(key, t + 12),
        c[3],
    ]
}

/// Packs four bytes into their little-endian word.
fn pack_word(b0: u8, b1: u8, b2: u8, b3: u8) -> (w: u32)
    ensures
        w == le_word(b0, b1, b2, b3),
{
    (b0 as u32) | ((b1 as u32) << 8) | ((b2 as u32) << 16) | ((b3 as u32) << 24)
}

/// The key-expansion constants for a given key length: the little-endian
/// words of `expand NN-byte k`, with the key length rendered as two decimal
/// digits (lengths of 100 or more are clamped to 99).
pub fn constants(key_len: usize) -> (r: [u32; 4])
    ensures
        r@ == constants_spec(key_len as int),
{
    let kl: u8 = if key_len >= 100 {
        99
    } else {
        key_len as u8
    };
    let d1: u8 = 0x30 + kl / 10;
    let d2: u8 = 0x30 + kl % 10;
    let r = [
        pack_word(0x65, 0x78, 0x70, 0x61),
        pack_word(0x6e, 0x64, 0x20, d1),
        pack_word(d2, 0x2d, 0x62, 0x79),
        pack_word(0x74, 0x65, 0x20, 0x6b),
    ];
    proof {
        assert(r@ =~= constants_spec(key_len as int));
    }
    r
}

/// Builds the initial logical state from a key and an 8-byte nonce.
pub(crate) fn build_state(key: &[u8], nonce: &[u8]) -> (r: [u32; 16])
    requires
        key@.len() == 16 || key@.len() == 32,
        nonce@.len() == 8,
    ensures
        r@ == initial_state(key@, nonce@),
{
    let c = constants(key.len());
    let t = key.len() - 16;
    let r = [
        c[0],
        crate::words::load_word(key, 0),
        crate::words::load_word(key, 4),
        crate::words::load_word(key, 8),
        crate::words::load_word(key, 12),
        c[1],
        crate::words::load_word(nonce, 0),
        crate::words::load_word(nonce, 4),
        0u32,
        0u32,
        c[2],
        crate::words::load_word(key, t),
        crate::words::load_word(key, t + 4),
        crate::words::load_word(key, t + 8),
        crate::words::load_word(key, t + 12),
        c[3],
    ];
    proof {
        assert(r@ =~= initial_state(key@, nonce@));
    }
    r
}

/// Builds the derivation state from a key and a 16-byte derivation nonce.
pub(crate) fn build_derivation_state(key: &[u8], dnonce: &[u8]) -> (r: [u32; 16])
    requires
        key@.len() == 16 || key@.len() == 32,
        dnonce@.len() == 16,
    ensures
        r@ == derivation_state(key@, dnonce@),
{
    let c = constants(key.len());
    let t = key.len() - 16;
    let r = [
        c[0],
        crate::words::load_word(key, 0),
        crate::words::load_word(key, 4),
        crate::words::load_word(key, 8),
        crate::words::load_word(key, 12),
        c[1],
        crate::words::load_word(dnonce, 0),
        crate::words::load_word(dnonce, 4),
        crate::words::load_word(dnonce, 8),
        crate::words::load_word(dnonce, 12),
        c[2],
        crate::words::load_word(key, t),
        crate::words::load_word(key, t + 4),
        crate::words::load_word(key, t + 8),
        crate::words::load_word(key, t + 12),
        c[3],
    ];
    proof {
        assert(r@ =~= derivation_state(key@, dnonce@));
    }
    r
}

/// Key-length domain separation: the initial states built from a 16-byte key
/// and from a 32-byte key always differ, whatever the key bytes and the
/// nonce, because the embedded length digits make the constant words differ.
pub proof fn lemma_key_length_separation(k16: Seq<u8>, k32: Seq<u8>, nonce: Seq<u8>)
    requires
        k16.len() == 16,
        k32.len() == 32,
        nonce.len() == 8,
    ensures
        initial_state(k16, nonce) != initial_state(k32, nonce),
{
    assert(le_word(0x6e, 0x64, 0x20, 0x31) != le_word(0x6e, 0x64, 0x20, 0x33)) by (bit_vector);
    assert(initial_state(k16, nonce)[5] == le_word(0x6e, 0x64, 0x20, 0x31));
    assert(initial_state(k32, nonce)[5] == le_word(0x6e, 0x64, 0x20, 0x33));
}

} // verus!
