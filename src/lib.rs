//! The forward AES-128 block cipher.

pub mod sbox;
pub mod transforms;
pub mod key_schedule;
pub mod cipher;
