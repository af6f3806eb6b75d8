//! The AES-128 key schedule: round constants and the round-key step.

use vstd::prelude::*;
use crate::sbox::{sbox, substitute};
use crate::transforms::{gf_double, xtime};

verus! {

/// The number of rounds of AES-128.
pub const ROUNDS: usize = 10;

/// Round constant `i` (counting from 0): 1 doubled `i` times in GF(2^8).
pub open spec fn rcon(i: nat) -> u8
    decreases i,
{
    if i == 0 {
        1
    } else {
        gf_double(rcon((i - 1) as nat))
    }
}

/// Round constant `i` (counting from 0), for the key step of round `i + 1`.
pub fn round_constant(i: usize) -> (r: u8)
    requires
        i < ROUNDS,
    ensures
        r == rcon(i as nat),
{
    let mut r: u8 = 1;
    let mut j: usize = 0;
    while j < i
        invariant
            j <= i,
            r == rcon(j as nat),
        decreases i - j,
    {
        r = xtime(r);
        j += 1;
    }
    r
}

/// Byte `c` of row `r` of the key that follows `prev` under the round-constant
/// word `rcon`.
///
/// Column 0 is column 0 of `prev` XOR the substituted last column of `prev`
/// rotated up by one byte, XOR `rcon`; each later column is the same column
/// of `prev` XOR the column just computed.
pub open spec fn next_key_byte(prev: Seq<u8>, rcon: Seq<u8>, r: int, c: int) -> u8
    decreases c,
{
    if c <= 0 {
        prev[4 * r] ^ sbox(prev[4 * ((r + 1) % 4) + 3]) ^ rcon[r]
    } else {
        prev[4 * r + c] ^ next_key_byte(prev, rcon, r, c - 1)
    }
}

/// The round key that follows `prev` under the round-constant word `rcon`.
pub open spec fn round_key_spec(prev: Seq<u8>, rcon: Seq<u8>) -> Seq<u8> {
    Seq::new(16, |i: int| next_key_byte(prev, rcon, i / 4, i % 4))
}

/// Derives the next round key from `prev` and the round-constant word `rcon`
/// (the round constant followed by three zero bytes).
pub fn round_key(prev: &[u8], rcon: &[u8]) -> (r: Vec<u8>)
    requires
        prev@.len() == 16,
        rcon@.len() == 4,
    ensures
        r@ == round_key_spec(prev@, rcon@),
{
    let mut result: Vec<u8> = Vec::with_capacity(16);
    let mut idx: usize = 0;
    while idx < 16
        invariant
            idx <= 16,
            prev@.len() == 16,
            rcon@.len() == 4,
            result@ == round_key_spec(prev@, rcon@).subrange(0, idx as int),
        decreases 16 - idx,
    {
        let b = if idx % 4 == 0 {
            prev[idx] ^ substitute(prev[(idx + 7) % 16]) ^ rcon[idx / 4]
        } else {
            prev[idx] ^ result[idx - 1]
        };
        proof {
            let r = idx / 4;
            let c = idx % 4;
            assert(idx == 4 * r + c);
            if c == 0 {
                assert((idx + 7) % 16 == 4 * ((r + 1) % 4) + 3);
            } else {
                assert((idx - 1) / 4 == r && (idx - 1) % 4 == c - 1);
            }
        }
        result.push(b);
        assert(result@ =~= round_key_spec(prev@, rcon@).subrange(0, idx + 1));
        idx += 1;
    }
    assert(result@ =~= round_key_spec(prev@, rcon@));
    result
}

/// The round-constant word for round constant `rc`: `rc` followed by three
/// zero bytes.
pub open spec fn rcon_word(rc: u8) -> Seq<u8> {
    seq![rc, 0u8, 0u8, 0u8]
}

/// Derives the next round key from `prev` and the single-byte round constant
/// `rc` of the round.
pub fn next_round_key(prev: &[u8], rc: u8) -> (r: Vec<u8>)
    requires
        prev@.len() == 16,
    ensures
        r@ == round_key_spec(prev@, rcon_word(rc)),
{
    let word: Vec<u8> = vec![rc, 0, 0, 0];
    assert(word@ =~= rcon_word(rc));
    round_key(prev, word.as_slice())
}

} // verus!
