use sha2::Digest;
use toy_blockchain::block::{mine_block, Block};

fn reference_hash(previous_hash: &[u8], data: &str, timestamp_nanos: u128, nonce: u64) -> Vec<u8> {
    let mut hasher = sha2::Sha256::new();
    hasher.update(previous_hash);
    hasher.update(data.as_bytes());
    hasher.update(timestamp_nanos.to_le_bytes());
    hasher.update(nonce.to_le_bytes());
    hasher.finalize().to_vec()
}

#[test]
fn compute_hash_matches_sha256_over_the_documented_field_order() {
    let block = Block {
        timestamp: 12345,
        previous_hash: vec![1, 2, 3],
        hash: Vec::new(),
        data: "abc".to_string(),
        nonce: 7,
    };
    let expected = reference_hash(&[1, 2, 3], "abc", 12345, 7);
    let recomputed = block.compute_hash();
    assert_eq!(recomputed.len(), 32);
    assert_eq!(recomputed, expected);
}

#[test]
fn compute_hash_is_deterministic() {
    let block = Block {
        timestamp: 987654321,
        previous_hash: vec![0xde, 0xad, 0xbe, 0xef],
        hash: Vec::new(),
        data: "same inputs, same digest".to_string(),
        nonce: 42,
    };
    let first = block.compute_hash();
    let second = block.compute_hash();
    assert_eq!(first, second);
}

#[test]
fn mined_block_meets_its_difficulty() {
    let block = Block::new("difficulty two".to_string(), vec![5, 6, 7], 2)
        .expect("mining at difficulty 2 failed");
    let hex = block.hash_hex();
    assert!(hex.starts_with("00"));
    assert_eq!(block.hash, block.compute_hash());
    assert_eq!(block.previous_hash, vec![5, 6, 7]);
    assert_eq!(block.data, "difficulty two");
}

#[test]
fn mine_block_with_fixed_timestamp_is_reproducible() {
    let data = "fixed time".to_string();
    let prev: Vec<u8> = vec![8, 8, 8];
    let (nonce, hash) = mine_block(&data, &prev, 424242, 1).expect("mining failed");
    assert_eq!(hash, reference_hash(&prev, &data, 424242, nonce));
    assert!(hex::encode(&hash).starts_with("0"));
}

#[test]
fn hash_hex_matches_the_hex_crate() {
    let block = Block {
        timestamp: 1,
        previous_hash: vec![0xff, 0x00, 0xa5],
        hash: vec![0x0a, 0xb0],
        data: String::new(),
        nonce: 0,
    };
    assert_eq!(block.hash_hex(), "0ab0");
    assert_eq!(block.previous_hash_hex(), "ff00a5");
    assert_eq!(block.hash_hex(), hex::encode(&block.hash));
}

#[test]
fn unicode_payload_hashes_over_its_utf8_bytes() {
    let block = Block {
        timestamp: 5,
        previous_hash: Vec::new(),
        hash: Vec::new(),
        data: "héllo ☃".to_string(),
        nonce: 9,
    };
    let expected = reference_hash(&[], "héllo ☃", 5, 9);
    assert_eq!(block.compute_hash(), expected);
}
