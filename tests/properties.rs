use aes128::cipher::encrypt;
use aes128::key_schedule::{next_round_key, round_constant, round_key, ROUNDS};
use aes128::sbox::{sub_bytes, substitute};
use aes128::transforms::{add_round_key, mix_column, mix_columns, shift_rows, xtime};

fn xor(a: &[u8], b: &[u8]) -> Vec<u8> {
    a.iter().zip(b.iter()).map(|(x, y)| x ^ y).collect()
}

#[test]
fn substitute_is_a_permutation() {
    let mut seen = [false; 256];
    for u in 0..=255u8 {
        let v = substitute(u) as usize;
        assert!(!seen[v]);
        seen[v] = true;
    }
    assert!(seen.iter().all(|&s| s));
}

#[test]
fn substitute_known_values() {
    assert_eq!(substitute(0x00), 0x63);
    assert_eq!(substitute(0xFF), 0x16);
    assert_eq!(substitute(0x53), 0xED);
}

#[test]
fn sub_bytes_of_empty_input_is_empty() {
    assert_eq!(sub_bytes(&[]), Vec::<u8>::new());
}

#[test]
fn sub_bytes_full_block() {
    let input = [0x19u8, 0xA0, 0x9A, 0xE9, 0x3D, 0xF4, 0xC6, 0xF8,
                 0xE3, 0xE2, 0x8D, 0x48, 0xBE, 0x2B, 0x2A, 0x08];
    let expected = vec![0xD4u8, 0xE0, 0xB8, 0x1E, 0x27, 0xBF, 0xB4, 0x41,
                        0x11, 0x98, 0x5D, 0x52, 0xAE, 0xF1, 0xE5, 0x30];
    assert_eq!(sub_bytes(&input), expected);
}

#[test]
fn shift_rows_four_times_is_identity() {
    let s: Vec<u8> = (0..16u8).map(|i| i.wrapping_mul(37).wrapping_add(5)).collect();
    let mut t = s.clone();
    for _ in 0..4 {
        t = shift_rows(&t);
    }
    assert_eq!(t, s);
    assert_ne!(shift_rows(&s), s);
}

#[test]
fn mix_columns_is_linear() {
    let a: Vec<u8> = (0..16u8).collect();
    let b: Vec<u8> = (0..16u8).map(|i| i.wrapping_mul(7).wrapping_add(3)).collect();
    let lhs = mix_columns(&xor(&a, &b));
    let rhs = xor(&mix_columns(&a), &mix_columns(&b));
    assert_eq!(lhs, rhs);
    assert_eq!(lhs, vec![0x43, 0x6B, 0x73, 0x5B, 0x3B, 0xC3, 0xEB, 0xF3,
                         0x93, 0x4B, 0x03, 0x3B, 0x9B, 0xD3, 0x8B, 0x83]);
}

#[test]
fn mix_column_of_zero_is_zero() {
    assert_eq!(mix_column(&[0, 0, 0, 0]), vec![0, 0, 0, 0]);
    assert_eq!(mix_column(&[1, 1, 1, 1]), vec![1, 1, 1, 1]);
}

#[test]
fn add_round_key_twice_gives_state_back() {
    let s: Vec<u8> = (0..16u8).map(|i| i.wrapping_mul(29)).collect();
    let k: Vec<u8> = (0..16u8).map(|i| 0xF0 ^ i).collect();
    let once = add_round_key(&s, &k);
    assert_ne!(once, s);
    assert_eq!(add_round_key(&once, &k), s);
}

#[test]
fn xtime_known_values() {
    assert_eq!(xtime(0x57), 0xAE);
    assert_eq!(xtime(0xAE), 0x47);
    assert_eq!(xtime(0x80), 0x1B);
    assert_eq!(xtime(0x00), 0x00);
}

#[test]
fn round_constants() {
    let all: Vec<u8> = (0..ROUNDS).map(round_constant).collect();
    assert_eq!(all, vec![0x01, 0x02, 0x04, 0x08, 0x10, 0x20, 0x40, 0x80, 0x1B, 0x36]);
}

#[test]
fn last_round_key() {
    let mut key = vec![0x2B, 0x28, 0xAB, 0x09, 0x7E, 0xAE, 0xF7, 0xCF,
                       0x15, 0xD2, 0x15, 0x4F, 0x16, 0xA6, 0x88, 0x3C];
    for i in 0..ROUNDS {
        key = round_key(&key, &[round_constant(i), 0, 0, 0]);
    }
    assert_eq!(key, vec![0xD0, 0xC9, 0xE1, 0xB6, 0x14, 0xEE, 0x3F, 0x63,
                         0xF9, 0x25, 0x0C, 0x0C, 0xA8, 0x89, 0xC8, 0xA6]);
}

#[test]
fn encrypt_second_known_answer() {
    let plain = [0x00, 0x44, 0x88, 0xCC, 0x11, 0x55, 0x99, 0xDD,
                 0x22, 0x66, 0xAA, 0xEE, 0x33, 0x77, 0xBB, 0xFF];
    let key = [0x00, 0x04, 0x08, 0x0C, 0x01, 0x05, 0x09, 0x0D,
               0x02, 0x06, 0x0A, 0x0E, 0x03, 0x07, 0x0B, 0x0F];
    assert_eq!(encrypt(&plain, &key), vec![0x69, 0x6A, 0xD8, 0x70, 0xC4, 0x7B, 0xCD, 0xB4,
                                           0xE0, 0x04, 0xB7, 0xC5, 0xD8, 0x30, 0x80, 0x5A]);
}

#[test]
fn encrypt_is_deterministic() {
    let plain = [0x5Au8; 16];
    let key = [0xC3u8; 16];
    let first = encrypt(&plain, &key);
    for _ in 0..3 {
        assert_eq!(encrypt(&plain, &key), first);
    }
    assert_ne!(first, plain.to_vec());
}

#[test]
fn next_round_key_with_single_byte_constant() {
    let key = [0x2B, 0x28, 0xAB, 0x09, 0x7E, 0xAE, 0xF7, 0xCF,
               0x15, 0xD2, 0x15, 0x4F, 0x16, 0xA6, 0x88, 0x3C];
    let expected = vec![0xA0, 0x88, 0x23, 0x2A, 0xFA, 0x54, 0xA3, 0x6C,
                        0xFE, 0x2C, 0x39, 0x76, 0x17, 0xB1, 0x39, 0x05];
    assert_eq!(next_round_key(&key, 0x01), expected);
    assert_eq!(next_round_key(&key, 0x01), round_key(&key, &[0x01, 0, 0, 0]));
}
