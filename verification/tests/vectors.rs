//! Reference vectors and the constant schedule.

use salsa20::{constants, Rounds, Salsa};

fn cipher(key: &[u8], nonce: &[u8], rounds: Rounds) -> Salsa {
    match Salsa::new(key, nonce, rounds) {
        Ok(c) => c,
        Err(_) => panic!("construction failed"),
    }
}

#[test]
fn constants_32_byte_key() {
    // "expand 32-byte k"
    assert_eq!(constants(32), [0x61707865, 0x3320646e, 0x79622d32, 0x6b206574]);
}

#[test]
fn constants_16_byte_key() {
    // "expand 16-byte k"
    assert_eq!(constants(16), [0x61707865, 0x3120646e, 0x79622d36, 0x6b206574]);
}

#[test]
fn constants_clamp_at_two_digits() {
    assert_eq!(constants(100), constants(99));
    assert_eq!(constants(250), constants(99));
    // "expand 99-byte k"
    assert_eq!(constants(99)[1], 0x3920646e);
    assert_eq!(constants(99)[2], 0x79622d39);
}

#[test]
fn salsa20_reference_vector() {
    let key = [0x42u8; 32];
    let nonce = [0x24u8; 8];
    let plaintext: Vec<u8> = vec![
        0x00, 0x01, 0x02, 0x03, 0x04, 0x05, 0x06, 0x07, 0x08, 0x09, 0x0a, 0x0b, 0x0c, 0x0d, 0x0e,
        0x0f,
    ];
    let ciphertext: Vec<u8> = vec![
        0x85, 0x84, 0x3c, 0xc5, 0xd5, 0x8c, 0xce, 0x7b, 0x5d, 0xd3, 0xdd, 0x04, 0xfa, 0x00, 0x5d,
        0xed,
    ];
    let mut c = cipher(&key, &nonce, Rounds::Twenty);
    let mut buf = plaintext.clone();
    c.apply_keystream(&mut buf);
    assert_eq!(buf, ciphertext);
}

#[test]
fn involution_restores_plaintext() {
    let key = [0x42u8; 32];
    let nonce = [0x24u8; 8];
    for rounds in [Rounds::Eight, Rounds::Twelve, Rounds::Twenty] {
        let mut c = cipher(&key, &nonce, rounds);
        let original: Vec<u8> = (0u8..=200).collect();
        let mut buf = original.clone();
        c.seek(0);
        c.apply_keystream(&mut buf);
        assert_ne!(buf, original);
        c.seek(0);
        c.apply_keystream(&mut buf);
        assert_eq!(buf, original);
    }
}

#[test]
fn xsalsa20_reference_vector() {
    // The extended-nonce stream test from the NaCl distribution: the first
    // 32 keystream bytes under this key and 24-byte nonce.
    let key: Vec<u8> = vec![
        0x1b, 0x27, 0x55, 0x64, 0x73, 0xe9, 0x85, 0xd4, 0x62, 0xcd, 0x51, 0x19, 0x7a, 0x9a, 0x46,
        0xc7, 0x60, 0x09, 0x54, 0x9e, 0xac, 0x64, 0x74, 0xf2, 0x06, 0xc4, 0xee, 0x08, 0x44, 0xf6,
        0x83, 0x89,
    ];
    let nonce: Vec<u8> = vec![
        0x69, 0x69, 0x6e, 0xe9, 0x55, 0xb6, 0x2b, 0x73, 0xcd, 0x62, 0xbd, 0xa8, 0x75, 0xfc, 0x73,
        0xd6, 0x82, 0x19, 0xe0, 0x03, 0x6b, 0x7a, 0x0b, 0x37,
    ];
    let expected: Vec<u8> = vec![
        0xee, 0xa6, 0xa7, 0x25, 0x1c, 0x1e, 0x72, 0x91, 0x6d, 0x11, 0xc2, 0xcb, 0x21, 0x4d, 0x3c,
        0x25, 0x25, 0x39, 0x12, 0x1d, 0x8e, 0x23, 0x4e, 0x65, 0x2d, 0x65, 0x1f, 0xa4, 0xc8, 0xcf,
        0xf8, 0x80,
    ];
    let mut c = cipher(&key, &nonce, Rounds::Twenty);
    let mut buf = vec![0u8; 32];
    c.apply_keystream(&mut buf);
    assert_eq!(buf, expected);
}

#[test]
fn hsalsa20_reference_vector() {
    // The HSalsa20 core test from the NaCl distribution: 20 rounds, all-zero
    // 16-byte input.
    let key: Vec<u8> = vec![
        0x4a, 0x5d, 0x9d, 0x5b, 0xa4, 0xce, 0x2d, 0xe1, 0x72, 0x8e, 0x3b, 0xf4, 0x80, 0x35, 0x0f,
        0x25, 0xe0, 0x7e, 0x21, 0xc9, 0x47, 0xd1, 0x9e, 0x33, 0x76, 0xf0, 0x9b, 0x3c, 0x1e, 0x16,
        0x17, 0x42,
    ];
    let expected: Vec<u8> = vec![
        0x1b, 0x27, 0x55, 0x64, 0x73, 0xe9, 0x85, 0xd4, 0x62, 0xcd, 0x51, 0x19, 0x7a, 0x9a, 0x46,
        0xc7, 0x60, 0x09, 0x54, 0x9e, 0xac, 0x64, 0x74, 0xf2, 0x06, 0xc4, 0xee, 0x08, 0x44, 0xf6,
        0x83, 0x89,
    ];
    let out = salsa20::hsalsa(&key, &[0u8; 16], Rounds::Twenty);
    assert_eq!(out, expected);
}

#[test]
fn extended_nonce_differs_from_truncation() {
    // Running the 24-byte nonce through the two-stage derivation must not
    // equal naively keying the base cipher with the first 8 nonce bytes.
    let key = [0x42u8; 32];
    let nonce24 = [0x24u8; 24];
    let nonce8 = [0x24u8; 8];
    let mut extended = cipher(&key, &nonce24, Rounds::Twenty);
    let mut truncated = cipher(&key, &nonce8, Rounds::Twenty);
    let mut a = vec![0u8; 64];
    let mut b = vec![0u8; 64];
    extended.apply_keystream(&mut a);
    truncated.apply_keystream(&mut b);
    assert_ne!(a, b);
}
