use blockchain::{append_decimal, has_zero_prefix, lower_hex, Block};

#[test]
fn decimal_of_zero_is_one_digit() {
    let mut s = String::new();
    append_decimal(&mut s, 0);
    assert_eq!(s, "0");
}

#[test]
fn decimal_appends_after_existing_text() {
    let mut s = String::from("n=");
    append_decimal(&mut s, 1234567890);
    assert_eq!(s, "n=1234567890");
}

#[test]
fn decimal_of_largest_u128() {
    let mut s = String::new();
    append_decimal(&mut s, u128::MAX);
    assert_eq!(s, u128::MAX.to_string());
}

#[test]
fn hex_is_two_lowercase_digits_per_byte() {
    assert_eq!(lower_hex(&vec![0x00, 0x0f, 0xab, 0xff, 0x10]), "000fabff10");
    assert_eq!(lower_hex(&vec![]), "");
}

#[test]
fn zero_prefix_counts_leading_zeros() {
    assert!(has_zero_prefix("00ab", 0));
    assert!(has_zero_prefix("00ab", 2));
    assert!(!has_zero_prefix("00ab", 3));
    assert!(!has_zero_prefix("00", 3));
    assert!(has_zero_prefix("", 0));
    assert!(!has_zero_prefix("a0", 1));
}

#[test]
fn hash_of_genesis_fields_is_sha256_hex() {
    let h = Block::calculate_hash(0, 1000, "Genesis Block", "0", 0, "01000");
    assert_eq!(h, "01128f251efe551d9c55036e62053595275e82a3519b5df54afa4160f86ecca2");
}

#[test]
fn hash_of_fields_in_fixed_order() {
    let h = Block::calculate_hash(1, 2000, "x", "abc", 7, "12000");
    assert_eq!(h, "2624bcee31a148a19f3a75cc2f381c372cd2dbad404b4365b0b44250de135b28");
}

#[test]
fn hash_encodes_payload_as_utf8() {
    let h = Block::calculate_hash(2, 5, "h\u{e9}llo", "0", 0, "25");
    assert_eq!(h, "c7533870e780ec55fec5b1fd09c77dee1a0f640d96660c0aabd2e127875895ee");
}

#[test]
fn hash_is_deterministic_over_calls() {
    let a = Block::calculate_hash(9, 123456, "payload", "prev", 42, "9123456");
    let b = Block::calculate_hash(9, 123456, "payload", "prev", 42, "9123456");
    assert_eq!(a, b);
    assert_eq!(a.len(), 64);
    let c = Block::calculate_hash(9, 123456, "payload", "prev", 43, "9123456");
    assert_ne!(a, c);
}

#[test]
fn search_returns_first_nonce_meeting_target() {
    let (nonce, hash) = Block::search_nonces(1, 2000, "x", "abc", 1, "12000", 1000).unwrap();
    assert!(hash.starts_with('0'));
    assert_eq!(hash, Block::calculate_hash(1, 2000, "x", "abc", nonce, "12000"));
    for m in 0..nonce {
        let h = Block::calculate_hash(1, 2000, "x", "abc", m, "12000");
        assert!(!h.starts_with('0'));
    }
}

#[test]
fn difficulty_zero_accepts_nonce_zero() {
    let (nonce, hash) = Block::mine_block(5, 77, "any", "prev", 0, "577").unwrap();
    assert_eq!(nonce, 0);
    assert_eq!(hash, Block::calculate_hash(5, 77, "any", "prev", 0, "577"));
}

#[test]
fn exhausted_budget_reports_restart() {
    for n in 0..=3u64 {
        let h = Block::calculate_hash(1, 2000, "x", "abc", n, "12000");
        assert!(!h.starts_with("00000000"));
    }
    assert!(Block::search_nonces(1, 2000, "x", "abc", 8, "12000", 3).is_none());
}

#[test]
fn difficulty_beyond_digest_length_never_succeeds() {
    assert!(Block::search_nonces(0, 0, "", "0", 65, "00", 20).is_none());
}
