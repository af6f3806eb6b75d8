//! The round transforms of the cipher on a 16-byte state.
//!
//! A state is laid out row by row: row `r` is the four bytes at positions
//! `4 * r .. 4 * r + 4`, and column `c` is the four bytes at positions
//! `c`, `c + 4`, `c + 8` and `c + 12`.

use vstd::prelude::*;

verus! {

/// Multiplication by `x` (that is, by 2) in GF(2^8) modulo `x^8 + x^4 + x^3 + x + 1`.
pub open spec fn gf_double(b: u8) -> u8 {
    if b & 0x80 == 0 {
        b << 1
    } else {
        (b << 1) ^ 0x1B
    }
}

/// Multiplication by `x + 1` (that is, by 3) in GF(2^8).
pub open spec fn gf_triple(b: u8) -> u8 {
    gf_double(b) ^ b
}

/// Doubles `b` in GF(2^8).
pub fn xtime(b: u8) -> (r: u8)
    ensures
        r == gf_double(b),
{
    if b & 0x80 == 0 {
        b << 1
    } else {
        (b << 1) ^ 0x1B
    }
}

/// One output byte of the column mixing: `2 * p + 3 * q + r + s` in GF(2^8).
pub open spec fn mix_row(p: u8, q: u8, r: u8, s: u8) -> u8 {
    gf_double(p) ^ gf_triple(q) ^ r ^ s
}

/// The product of the fixed circulant matrix with rows `{2,3,1,1}`,
/// `{1,2,3,1}`, `{1,1,2,3}`, `{3,1,1,2}` and the column `a`.
pub open spec fn mix_column_spec(a: Seq<u8>) -> Seq<u8> {
    seq![
        mix_row(a[0], a[1], a[2], a[3]),
        mix_row(a[1], a[2], a[3], a[0]),
        mix_row(a[2], a[3], a[0], a[1]),
        mix_row(a[3], a[0], a[1], a[2]),
    ]
}

/// Mixes one 4-byte column.
pub fn mix_column(input: &[u8]) -> (r: Vec<u8>)
    requires
        input@.len() == 4,
    ensures
        r@ == mix_column_spec(input@),
{
    let a0 = input[0];
    let a1 = input[1];
    let a2 = input[2];
    let a3 = input[3];
    let b0 = xtime(a0);
    let b1 = xtime(a1);
    let b2 = xtime(a2);
    let b3 = xtime(a3);
    let mut result: Vec<u8> = Vec::with_capacity(4);
    result.push(b0 ^ (b1 ^ a1) ^ a2 ^ a3);
    result.push(b1 ^ (b2 ^ a2) ^ a3 ^ a0);
    result.push(b2 ^ (b3 ^ a3) ^ a0 ^ a1);
    result.push(b3 ^ (b0 ^ a0) ^ a1 ^ a2);
    assert(result@ =~= mix_column_spec(input@));
    result
}

/// Column `c` of the state `s`, top to bottom.
pub open spec fn column(s: Seq<u8>, c: int) -> Seq<u8> {
    seq![s[c], s[c + 4], s[c + 8], s[c + 12]]
}

/// MixColumns: each column of `s` replaced by its mixed column.
pub open spec fn mix_columns_spec(s: Seq<u8>) -> Seq<u8> {
    Seq::new(16, |i: int| mix_column_spec(column(s, i % 4))[i / 4])
}

/// MixColumns: mixes each of the four columns of the state independently.
pub fn mix_columns(input: &[u8]) -> (r: Vec<u8>)
    requires
        input@.len() == 16,
    ensures
        r@ == mix_columns_spec(input@),
{
    let mut result: Vec<u8> = vec![0u8; 16];
    let mut c: usize = 0;
    while c < 4
        invariant
            c <= 4,
            input@.len() == 16,
            result@.len() == 16,
            forall|i: int| 0 <= i < 16 && i % 4 < c ==> result@[i] == mix_columns_spec(input@)[i],
        decreases 4 - c,
    {
        let col: Vec<u8> = vec![input[c], input[c + 4], input[c + 8], input[c + 12]];
        assert(col@ =~= column(input@, c as int));
        let mixed = mix_column(col.as_slice());
        result.set(c, mixed[0]);
        result.set(c + 4, mixed[1]);
        result.set(c + 8, mixed[2]);
        result.set(c + 12, mixed[3]);
        assert forall|i: int| 0 <= i < 16 && i % 4 <= c implies result@[i] == mix_columns_spec(
            input@,
        )[i] by {
            if i % 4 == c {
                assert(i == c + 4 * (i / 4));
            }
        }
        c += 1;
    }
    assert(result@ =~= mix_columns_spec(input@));
    result
}

/// ShiftRows: row `r` of `s` rotated left by `r` positions.
pub open spec fn shift_rows_spec(s: Seq<u8>) -> Seq<u8> {
    Seq::new(16, |i: int| s[4 * (i / 4) + (i % 4 + i / 4) % 4])
}

/// ShiftRows: rotates row `r` of the state left by `r` positions.
pub fn shift_rows(input: &[u8]) -> (r: Vec<u8>)
    requires
        input@.len() == 16,
    ensures
        r@ == shift_rows_spec(input@),
{
    let mut result: Vec<u8> = Vec::with_capacity(16);
    let mut i: usize = 0;
    while i < 16
        invariant
            i <= 16,
            input@.len() == 16,
            result@ == shift_rows_spec(input@).subrange(0, i as int),
        decreases 16 - i,
    {
        let row = i / 4;
        result.push(input[4 * row + (i % 4 + row) % 4]);
        assert(result@ =~= shift_rows_spec(input@).subrange(0, i + 1));
        i += 1;
    }
    assert(result@ =~= shift_rows_spec(input@));
    result
}

/// Rotating every row four times brings each row back: ShiftRows applied
/// four times to a state gives the state back.
pub proof fn lemma_shift_rows_four_times(s: Seq<u8>)
    requires
        s.len() == 16,
    ensures
        shift_rows_spec(shift_rows_spec(shift_rows_spec(shift_rows_spec(s)))) == s,
{
    let s4 = shift_rows_spec(shift_rows_spec(shift_rows_spec(shift_rows_spec(s))));
    assert forall|i: int| 0 <= i < 16 implies s4[i] == s[i] by {
        let r = i / 4;
        let c = i % 4;
        assert(i == 4 * r + c);
        assert(0 <= r < 4 && 0 <= c < 4);
        if r == 0 {
        } else if r == 1 {
        } else if r == 2 {
        } else {
        }
    }
    assert(s4 =~= s);
}

/// The byte-wise exclusive or of `a` and `b`.
pub open spec fn xor_bytes(a: Seq<u8>, b: Seq<u8>) -> Seq<u8> {
    Seq::new(a.len(), |i: int| a[i] ^ b[i])
}

/// AddRoundKey: XORs the state with the round key, byte by byte.
pub fn add_round_key(input: &[u8], round_key: &[u8]) -> (r: Vec<u8>)
    requires
        input@.len() == 16,
        round_key@.len() == 16,
    ensures
        r@ == xor_bytes(input@, round_key@),
{
    let mut result: Vec<u8> = Vec::with_capacity(16);
    let mut i: usize = 0;
    while i < 16
        invariant
            i <= 16,
            input@.len() == 16,
            round_key@.len() == 16,
            result@ == xor_bytes(input@, round_key@).subrange(0, i as int),
        decreases 16 - i,
    {
        result.push(input[i] ^ round_key[i]);
        assert(result@ =~= xor_bytes(input@, round_key@).subrange(0, i + 1));
        i += 1;
    }
    assert(result@ =~= xor_bytes(input@, round_key@));
    result
}

/// AddRoundKey is an involution: adding the same round key twice gives the
/// state back.
pub proof fn lemma_add_round_key_involution(s: Seq<u8>, k: Seq<u8>)
    requires
        s.len() == 16,
        k.len() == 16,
    ensures
        xor_bytes(xor_bytes(s, k), k) == s,
{
    assert forall|i: int| 0 <= i < 16 implies xor_bytes(xor_bytes(s, k), k)[i] == s[i] by {
        let (x, y) = (s[i], k[i]);
        assert((x ^ y) ^ y == x) by (bit_vector);
    }
    assert(xor_bytes(xor_bytes(s, k), k) =~= s);
}

/// One output byte of the column mixing distributes over exclusive or.
proof fn lemma_mix_row_linear(p: u8, q: u8, r: u8, s: u8, w: u8, x: u8, y: u8, z: u8)
    ensures
        mix_row(p ^ w, q ^ x, r ^ y, s ^ z) == mix_row(p, q, r, s) ^ mix_row(w, x, y, z),
{
    assert(gf_double(p ^ w) == gf_double(p) ^ gf_double(w)) by (bit_vector);
    assert(gf_double(q ^ x) == gf_double(q) ^ gf_double(x)) by (bit_vector);
    let (dp, dq, dw, dx) = (gf_double(p), gf_double(q), gf_double(w), gf_double(x));
    assert((dp ^ dw) ^ ((dq ^ dx) ^ (q ^ x)) ^ (r ^ y) ^ (s ^ z) == (dp ^ (dq ^ q) ^ r ^ s) ^ (
    dw ^ (dx ^ x) ^ y ^ z)) by (bit_vector);
}

/// MixColumns is linear over GF(2): mixing the exclusive or of two states
/// gives the exclusive or of the mixed states.
pub proof fn lemma_mix_columns_linear(a: Seq<u8>, b: Seq<u8>)
    requires
        a.len() == 16,
        b.len() == 16,
    ensures
        mix_columns_spec(xor_bytes(a, b)) == xor_bytes(mix_columns_spec(a), mix_columns_spec(b)),
{
    let lhs = mix_columns_spec(xor_bytes(a, b));
    let rhs = xor_bytes(mix_columns_spec(a), mix_columns_spec(b));
    assert forall|i: int| 0 <= i < 16 implies lhs[i] == rhs[i] by {
        let r = i / 4;
        let c = i % 4;
        assert(0 <= r < 4 && 0 <= c < 4);
        let (a0, a1, a2, a3) = (a[c], a[c + 4], a[c + 8], a[c + 12]);
        let (b0, b1, b2, b3) = (b[c], b[c + 4], b[c + 8], b[c + 12]);
        if r == 0 {
            lemma_mix_row_linear(a0, a1, a2, a3, b0, b1, b2, b3);
        } else if r == 1 {
            lemma_mix_row_linear(a1, a2, a3, a0, b1, b2, b3, b0);
        } else if r == 2 {
            lemma_mix_row_linear(a2, a3, a0, a1, b2, b3, b0, b1);
        } else {
            lemma_mix_row_linear(a3, a0, a1, a2, b3, b0, b1, b2);
        }
    }
    assert(lhs =~= rhs);
}

} // verus!
