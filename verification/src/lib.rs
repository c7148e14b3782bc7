//! Keystream generator for the Salsa family of stream ciphers.
//!
//! The crate builds the 16-word cipher state from a key and a nonce, runs the
//! quarter-round engine for 8, 12 or 20 rounds, and emits 64-byte keystream
//! blocks that callers XOR against their data. Two backends (a scalar layout
//! and a permuted, lane-oriented layout) are provided and proved to emit
//! identical bytes. An extended-nonce construction derives a fresh 32-byte
//! subkey from a 24-byte nonce before running the ordinary cipher.
//!
//! The keystream is a pseudorandom pad only: the crate performs no
//! authentication and no key management.

pub mod rounds;
pub mod schedule;
pub mod state;
pub mod stream;
pub mod vector;
pub mod words;
pub mod xsalsa;

pub use schedule::constants;
pub use state::{Backend, ConstructionError, Rounds, SalsaCore};
pub use stream::Salsa;
pub use words::le_word;
pub use xsalsa::hsalsa;
