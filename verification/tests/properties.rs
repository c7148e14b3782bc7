//! Behavioural properties: chunking, seek purity, backend equivalence,
//! key-length separation, counter bounds.

use salsa20::{Backend, Rounds, Salsa, SalsaCore};

fn core_with(key: &[u8], nonce: &[u8], rounds: Rounds, backend: Backend) -> SalsaCore {
    match SalsaCore::new_with_backend(key, nonce, rounds, backend) {
        Ok(c) => c,
        Err(_) => panic!("construction failed"),
    }
}

fn stream_cipher(key: &[u8], nonce: &[u8], rounds: Rounds) -> Salsa {
    match Salsa::new(key, nonce, rounds) {
        Ok(c) => c,
        Err(_) => panic!("construction failed"),
    }
}

fn sample_key() -> [u8; 32] {
    let mut key = [0u8; 32];
    for (i, b) in key.iter_mut().enumerate() {
        *b = (i as u8).wrapping_mul(7).wrapping_add(3);
    }
    key
}

#[test]
fn chunked_application_matches_whole() {
    let key = sample_key();
    let nonce = [9u8; 8];
    let original: Vec<u8> = (0..250u32).map(|i| (i * 11 % 256) as u8).collect();

    let mut whole = original.clone();
    let mut c = stream_cipher(&key, &nonce, Rounds::Twenty);
    c.apply_keystream(&mut whole);

    let mut chunked = Vec::new();
    let mut c2 = stream_cipher(&key, &nonce, Rounds::Twenty);
    let mut rest: &[u8] = &original;
    for size in [1usize, 3, 7, 64, 65, 200] {
        let take = size.min(rest.len());
        let mut piece = rest[..take].to_vec();
        rest = &rest[take..];
        c2.apply_keystream(&mut piece);
        chunked.extend_from_slice(&piece);
        if rest.is_empty() {
            break;
        }
    }
    assert_eq!(whole, chunked);
}

#[test]
fn seek_matches_sequential_production() {
    let key = sample_key();
    let nonce = [1u8; 8];
    let n: u64 = 5;

    let mut sequential = core_with(&key, &nonce, Rounds::Twenty, Backend::Scalar);
    let mut last = Vec::new();
    for _ in 0..=n {
        last = sequential.produce_block();
    }

    let mut seeked = core_with(&key, &nonce, Rounds::Twenty, Backend::Scalar);
    seeked.set_block_pos(n);
    assert_eq!(seeked.produce_block(), last);
}

#[test]
fn backends_emit_identical_blocks() {
    let key = sample_key();
    let nonce = [0xabu8; 8];
    for rounds in [Rounds::Eight, Rounds::Twelve, Rounds::Twenty] {
        let mut scalar = core_with(&key, &nonce, rounds, Backend::Scalar);
        let mut vector = core_with(&key, &nonce, rounds, Backend::Vectorized);
        for _ in 0..3 {
            assert_eq!(scalar.produce_block(), vector.produce_block());
        }
        scalar.set_block_pos(0x1_0000_0001);
        vector.set_block_pos(0x1_0000_0001);
        assert_eq!(scalar.produce_block(), vector.produce_block());
    }
}

#[test]
fn stream_seek_matches_one_shot() {
    let key = sample_key();
    let nonce = [0x31u8; 8];
    let mut whole = vec![0u8; 192];
    stream_cipher(&key, &nonce, Rounds::Twenty).apply_keystream(&mut whole);

    let mut seeked = stream_cipher(&key, &nonce, Rounds::Twenty);
    seeked.seek(2);
    let mut tail = vec![0u8; 64];
    seeked.apply_keystream(&mut tail);
    assert_eq!(tail, whole[128..192]);
}

#[test]
fn key_lengths_produce_different_keystreams() {
    let key32 = sample_key();
    let key16: [u8; 16] = key32[..16].try_into().unwrap();
    let nonce = [5u8; 8];
    let mut a = vec![0u8; 64];
    let mut b = vec![0u8; 64];
    stream_cipher(&key16, &nonce, Rounds::Twenty).apply_keystream(&mut a);
    stream_cipher(&key32, &nonce, Rounds::Twenty).apply_keystream(&mut b);
    assert_ne!(a, b);
}

#[test]
fn block_pos_roundtrip() {
    let key = sample_key();
    let nonce = [3u8; 8];
    for backend in [Backend::Scalar, Backend::Vectorized] {
        let mut core = core_with(&key, &nonce, Rounds::Twenty, backend);
        assert_eq!(core.get_block_pos(), 0);
        core.set_block_pos(0x1234_5678_9abc_def0);
        assert_eq!(core.get_block_pos(), 0x1234_5678_9abc_def0);
        core.produce_block();
        assert_eq!(core.get_block_pos(), 0x1234_5678_9abc_def1);
    }
}

#[test]
fn remaining_blocks_counts_down() {
    let key = sample_key();
    let nonce = [3u8; 8];
    let mut core = core_with(&key, &nonce, Rounds::Twenty, Backend::Scalar);
    assert_eq!(core.remaining_blocks(), u64::MAX);
    core.produce_block();
    core.produce_block();
    assert_eq!(core.remaining_blocks(), u64::MAX - 2);
}

#[test]
fn production_refused_at_counter_limit() {
    let key = sample_key();
    let nonce = [3u8; 8];
    let mut core = core_with(&key, &nonce, Rounds::Twenty, Backend::Scalar);
    core.set_block_pos(u64::MAX - 1);
    match core.try_produce_block() {
        Some(block) => assert_eq!(block.len(), 64),
        None => panic!("one block was still owed"),
    }
    assert_eq!(core.remaining_blocks(), 0);
    assert!(core.try_produce_block().is_none());
    assert_eq!(core.get_block_pos(), u64::MAX);
}

#[test]
fn from_raw_state_matches_schedule() {
    // A core rebuilt from the raw logical state continues the same stream,
    // in either layout.
    let key = sample_key();
    let nonce = [0x77u8; 8];
    let mut reference = core_with(&key, &nonce, Rounds::Twenty, Backend::Scalar);
    let first = reference.produce_block();

    let mut state = [0u32; 16];
    let consts = salsa20::constants(32);
    state[0] = consts[0];
    state[5] = consts[1];
    state[10] = consts[2];
    state[15] = consts[3];
    for i in 0..4 {
        state[1 + i] = u32::from_le_bytes(key[4 * i..4 * i + 4].try_into().unwrap());
        state[11 + i] = u32::from_le_bytes(key[16 + 4 * i..16 + 4 * i + 4].try_into().unwrap());
    }
    state[6] = u32::from_le_bytes(nonce[0..4].try_into().unwrap());
    state[7] = u32::from_le_bytes(nonce[4..8].try_into().unwrap());

    for backend in [Backend::Scalar, Backend::Vectorized] {
        let mut raw = SalsaCore::from_raw_state(state, Rounds::Twenty, backend);
        assert_eq!(raw.produce_block(), first);
    }
}

#[test]
fn erased_states_are_indistinguishable() {
    let nonce = [6u8; 8];
    let mut a = stream_cipher(&sample_key(), &nonce, Rounds::Twenty);
    let mut b = stream_cipher(&[0xeeu8; 32], &[1u8; 8], Rounds::Twenty);
    a.erase();
    b.erase();
    let mut x = vec![0u8; 64];
    let mut y = vec![0u8; 64];
    a.apply_keystream(&mut x);
    b.apply_keystream(&mut y);
    assert_eq!(x, y);
}

#[test]
fn hsalsa_is_deterministic_and_key_dependent() {
    let key = sample_key();
    let dnonce = [0x11u8; 16];
    let a = salsa20::hsalsa(&key, &dnonce, Rounds::Twenty);
    let b = salsa20::hsalsa(&key, &dnonce, Rounds::Twenty);
    assert_eq!(a, b);
    assert_eq!(a.len(), 32);
    let other = salsa20::hsalsa(&[0x55u8; 32], &dnonce, Rounds::Twenty);
    assert_ne!(a, other);
    let fewer_rounds = salsa20::hsalsa(&key, &dnonce, Rounds::Eight);
    assert_ne!(a, fewer_rounds);
}

#[test]
fn empty_buffer_consumes_no_keystream() {
    let key = sample_key();
    let nonce = [4u8; 8];
    let mut c = stream_cipher(&key, &nonce, Rounds::Twenty);
    let mut empty: Vec<u8> = Vec::new();
    c.apply_keystream(&mut empty);
    assert!(empty.is_empty());
    let mut a = vec![0u8; 64];
    c.apply_keystream(&mut a);
    let mut fresh = stream_cipher(&key, &nonce, Rounds::Twenty);
    let mut b = vec![0u8; 64];
    fresh.apply_keystream(&mut b);
    assert_eq!(a, b);
}

#[test]
fn counter_crosses_word_boundary() {
    let key = sample_key();
    let nonce = [8u8; 8];
    for backend in [Backend::Scalar, Backend::Vectorized] {
        let mut core = core_with(&key, &nonce, Rounds::Twenty, backend);
        core.set_block_pos(0xffff_ffff);
        core.produce_block();
        assert_eq!(core.get_block_pos(), 0x1_0000_0000);
        core.produce_block();
        assert_eq!(core.get_block_pos(), 0x1_0000_0001);
    }
}

#[test]
fn round_counts_differ() {
    let key = sample_key();
    let nonce = [2u8; 8];
    let mut eight = core_with(&key, &nonce, Rounds::Eight, Backend::Scalar);
    let mut twelve = core_with(&key, &nonce, Rounds::Twelve, Backend::Scalar);
    let mut twenty = core_with(&key, &nonce, Rounds::Twenty, Backend::Scalar);
    let b8 = eight.produce_block();
    let b12 = twelve.produce_block();
    let b20 = twenty.produce_block();
    assert_ne!(b8, b12);
    assert_ne!(b12, b20);
    assert_ne!(b8, b20);
}
