//! The AES-128 encryption of one block.

use vstd::prelude::*;
use crate::key_schedule::{
    next_round_key, rcon, rcon_word, round_constant, round_key_spec, ROUNDS,
};
use crate::sbox::{sub_bytes, sub_bytes_spec};
use crate::transforms::{
    add_round_key, mix_columns, mix_columns_spec, shift_rows, shift_rows_spec, xor_bytes,
};

verus! {

/// Round key `i` derived from the cipher key: round key 0 is the cipher key
/// itself, and each later one follows from the one before it.
pub open spec fn expanded_key(key: Seq<u8>, i: nat) -> Seq<u8>
    decreases i,
{
    if i == 0 {
        key
    } else {
        round_key_spec(expanded_key(key, (i - 1) as nat), rcon_word(rcon((i - 1) as nat)))
    }
}

/// One full round: SubBytes, ShiftRows, MixColumns, then AddRoundKey with `rk`.
pub open spec fn full_round(state: Seq<u8>, rk: Seq<u8>) -> Seq<u8> {
    xor_bytes(mix_columns_spec(shift_rows_spec(sub_bytes_spec(state))), rk)
}

/// The state after the initial key addition and `i` full rounds.
pub open spec fn state_after_round(plaintext: Seq<u8>, key: Seq<u8>, i: nat) -> Seq<u8>
    decreases i,
{
    if i == 0 {
        xor_bytes(plaintext, key)
    } else {
        full_round(state_after_round(plaintext, key, (i - 1) as nat), expanded_key(key, i))
    }
}

/// The AES-128 ciphertext of `plaintext` under `key`: nine full rounds, then a
/// final round without MixColumns.
pub open spec fn aes128_encrypt(plaintext: Seq<u8>, key: Seq<u8>) -> Seq<u8> {
    xor_bytes(
        shift_rows_spec(sub_bytes_spec(state_after_round(plaintext, key, 9))),
        expanded_key(key, 10),
    )
}

/// Encrypts one 16-byte block under a 16-byte key.
pub fn encrypt(plaintext: &[u8], key: &[u8]) -> (r: Vec<u8>)
    requires
        plaintext@.len() == 16,
        key@.len() == 16,
    ensures
        r@ == aes128_encrypt(plaintext@, key@),
{
    let mut state = add_round_key(plaintext, key);
    let mut rk: Vec<u8> = vstd::slice::slice_to_vec(key);
    let mut round: usize = 1;
    while round < ROUNDS
        invariant
            1 <= round <= ROUNDS,
            plaintext@.len() == 16,
            key@.len() == 16,
            state@ == state_after_round(plaintext@, key@, (round - 1) as nat),
            rk@ == expanded_key(key@, (round - 1) as nat),
            state@.len() == 16,
            rk@.len() == 16,
        decreases ROUNDS - round,
    {
        state = sub_bytes(state.as_slice());
        state = shift_rows(state.as_slice());
        state = mix_columns(state.as_slice());
        rk = next_round_key(rk.as_slice(), round_constant(round - 1));
        state = add_round_key(state.as_slice(), rk.as_slice());
        round += 1;
    }
    state = sub_bytes(state.as_slice());
    state = shift_rows(state.as_slice());
    rk = next_round_key(rk.as_slice(), round_constant(ROUNDS - 1));
    state = add_round_key(state.as_slice(), rk.as_slice());
    state
}

/// Encryption depends on the plaintext and the key alone: equal inputs give
/// equal ciphertexts.
pub proof fn lemma_encrypt_deterministic(p1: Seq<u8>, k1: Seq<u8>, p2: Seq<u8>, k2: Seq<u8>)
    requires
        p1 == p2,
        k1 == k2,
    ensures
        aes128_encrypt(p1, k1) == aes128_encrypt(p2, k2),
{
}

} // verus!
