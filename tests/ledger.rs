use blockchain::{Block, Blockchain, ChainFault};

#[test]
fn block_new_derives_salt_and_seals() {
    let b = Block::new(3, "data".to_string(), "prev".to_string(), 1, 42).unwrap();
    assert_eq!(b.index, 3);
    assert_eq!(b.timestamp, 42);
    assert_eq!(b.data, "data");
    assert_eq!(b.previous_hash, "prev");
    assert_eq!(b.salt, "342");
    assert!(b.hash.starts_with('0'));
    assert_eq!(b.hash, Block::calculate_hash(3, 42, "data", "prev", b.nonce, "342"));
}

#[test]
fn genesis_uses_sentinel_and_fixed_payload() {
    let bc = Blockchain::new(0, 1000).unwrap();
    assert_eq!(bc.chain.len(), 1);
    assert_eq!(bc.difficulty, 0);
    let g = &bc.chain[0];
    assert_eq!(g.index, 0);
    assert_eq!(g.data, "Genesis Block");
    assert_eq!(g.previous_hash, "0");
    assert_eq!(g.nonce, 0);
    assert_eq!(g.salt, "01000");
    assert_eq!(g.hash, "01128f251efe551d9c55036e62053595275e82a3519b5df54afa4160f86ecca2");
}

#[test]
fn difficulty_zero_end_to_end() {
    let mut bc = Blockchain::new(0, 1000).unwrap();
    assert_eq!(bc.chain[0].nonce, 0);
    assert_eq!(bc.chain[0].hash.len(), 64);
    assert!(bc.add_block("x".to_string(), 1001));
    assert!(bc.validate_chain());
    assert_eq!(bc.find_fault(), None);
    assert_eq!(bc.chain.len(), 2);
    assert_eq!(bc.chain[0].index, 0);
    assert_eq!(bc.chain[1].index, 1);
    assert_eq!(bc.chain[1].nonce, 0);
}

#[test]
fn difficulty_one_hashes_start_with_zero() {
    let mut bc = Blockchain::new(1, 5000).unwrap();
    assert!(bc.add_block("First real block.".to_string(), 5001));
    assert!(bc.add_block("Second Block.".to_string(), 5002));
    for b in &bc.chain {
        assert!(b.hash.starts_with('0'));
    }
    assert!(bc.validate_chain());
}

#[test]
fn appends_are_linked_and_indexed() {
    let mut bc = Blockchain::new(1, 10).unwrap();
    for k in 0..4u128 {
        assert!(bc.add_block(format!("record {}", k), 11 + k));
    }
    assert_eq!(bc.chain.len(), 5);
    for i in 0..bc.chain.len() {
        assert_eq!(bc.chain[i].index as usize, i);
        if i > 0 {
            assert_eq!(bc.chain[i].previous_hash, bc.chain[i - 1].hash);
        }
    }
    assert!(bc.validate_chain());
}

#[test]
fn append_to_empty_chain_uses_sentinel() {
    let mut bc = Blockchain { chain: Vec::new(), difficulty: 0 };
    assert!(bc.add_block("first".to_string(), 7));
    assert_eq!(bc.chain.len(), 1);
    assert_eq!(bc.chain[0].previous_hash, "0");
    assert_eq!(bc.chain[0].salt, "07");
}

#[test]
fn empty_and_genesis_only_chains_are_valid() {
    let empty = Blockchain { chain: Vec::new(), difficulty: 2 };
    assert!(empty.validate_chain());
    let single = Blockchain::new(0, 1).unwrap();
    assert!(single.validate_chain());
}

#[test]
fn payload_tampering_is_reported_at_its_record() {
    let mut bc = Blockchain::new(1, 100).unwrap();
    assert!(bc.add_block("a".to_string(), 101));
    assert!(bc.add_block("b".to_string(), 102));
    bc.chain[1].data = "forged".to_string();
    assert!(!bc.validate_chain());
    assert_eq!(bc.find_fault(), Some(ChainFault::HashMismatch(1)));
}

#[test]
fn nonce_tampering_is_reported_at_its_record() {
    let mut bc = Blockchain::new(0, 100).unwrap();
    assert!(bc.add_block("a".to_string(), 101));
    assert!(bc.add_block("b".to_string(), 102));
    bc.chain[2].nonce += 1;
    assert!(!bc.validate_chain());
    assert_eq!(bc.find_fault(), Some(ChainFault::HashMismatch(2)));
}

#[test]
fn previous_hash_tampering_breaks_the_link() {
    let mut bc = Blockchain::new(0, 100).unwrap();
    assert!(bc.add_block("a".to_string(), 101));
    assert!(bc.add_block("b".to_string(), 102));
    bc.chain[2].previous_hash = "0".repeat(64);
    assert!(!bc.validate_chain());
    assert_eq!(bc.find_fault(), Some(ChainFault::BrokenLink(2)));
}

#[test]
fn replaced_hash_is_reported_before_the_next_link() {
    let mut bc = Blockchain::new(0, 100).unwrap();
    assert!(bc.add_block("a".to_string(), 101));
    assert!(bc.add_block("b".to_string(), 102));
    bc.chain[1].hash = "f".repeat(64);
    assert_eq!(bc.find_fault(), Some(ChainFault::HashMismatch(1)));
}

#[test]
fn resealed_record_still_breaks_the_next_link() {
    let mut bc = Blockchain::new(0, 100).unwrap();
    assert!(bc.add_block("a".to_string(), 101));
    assert!(bc.add_block("b".to_string(), 102));
    let b = &bc.chain[1];
    let resealed = Block::calculate_hash(b.index, b.timestamp, "forged", &b.previous_hash, b.nonce, &b.salt);
    bc.chain[1].data = "forged".to_string();
    bc.chain[1].hash = resealed;
    assert_eq!(bc.find_fault(), Some(ChainFault::BrokenLink(2)));
}

#[test]
fn genesis_record_is_not_checked() {
    let mut bc = Blockchain::new(0, 100).unwrap();
    bc.chain[0].data = "altered".to_string();
    assert!(bc.validate_chain());
}

#[test]
fn unchanged_preimage_text_escapes_detection() {
    let mut bc = Blockchain::new(0, 100).unwrap();
    assert!(bc.add_block("a".to_string(), 23));
    assert_eq!(bc.chain[1].salt, "123");
    bc.chain[1].index = 12;
    bc.chain[1].timestamp = 3;
    assert!(bc.validate_chain());
}
