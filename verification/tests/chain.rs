use toy_blockchain::block::{Block, MineError};
use toy_blockchain::blockchain::Blockchain;
use toy_blockchain::hashing::{bytes_eq, check_difficulty};

fn expect_chain(difficulty: u8) -> Blockchain {
    Blockchain::from_difficulty(difficulty).expect("mining the genesis block failed")
}

#[test]
fn hello_goodbye_scenario() {
    let mut chain = expect_chain(1);
    chain
        .add_block("Hello World!".to_string())
        .expect("mining block 1 failed");
    chain
        .add_block("Goodbye world!".to_string())
        .expect("mining block 2 failed");
    assert_eq!(chain.blocks.len(), 3);
    assert!(chain.is_chain_valid());
    for block in &chain.blocks {
        assert!(block.hash_hex().starts_with("0"));
    }
    assert_eq!(chain.blocks[1].data, "Hello World!");
    assert_eq!(chain.blocks[2].data, "Goodbye world!");
}

#[test]
fn genesis_only_chain() {
    let chain = expect_chain(0);
    assert_eq!(chain.blocks.len(), 1);
    let genesis = &chain.blocks[0];
    assert!(genesis.previous_hash.is_empty());
    assert_eq!(genesis.data, "Genesis Block");
    assert_eq!(genesis.compute_hash(), genesis.hash);
    assert!(chain.is_chain_valid());
}

#[test]
fn default_difficulty_is_six() {
    // Mining at the default difficulty is far too slow for a test, so only
    // the recorded difficulty of a lower-difficulty chain is checked here,
    // together with the exported default.
    assert_eq!(toy_blockchain::blockchain::DEFAULT_DIFFICULTY, 6);
    let chain = expect_chain(2);
    assert_eq!(chain.difficulty, 2);
}

#[test]
fn chain_links_every_block_to_its_predecessor() {
    let mut chain = expect_chain(1);
    chain.add_block("a".to_string()).expect("mining failed");
    chain.add_block("b".to_string()).expect("mining failed");
    chain.add_block("c".to_string()).expect("mining failed");
    for i in 1..chain.blocks.len() {
        assert_eq!(chain.blocks[i].previous_hash, chain.blocks[i - 1].hash);
    }
    assert!(chain.is_chain_valid());
}

#[test]
fn tampered_data_is_detected() {
    let mut chain = expect_chain(1);
    chain.add_block("original payload".to_string()).expect("mining failed");
    chain.add_block("another payload".to_string()).expect("mining failed");
    assert!(chain.is_chain_valid());
    chain.blocks[1].data = "tampered payload".to_string();
    assert!(!chain.is_chain_valid());
}

#[test]
fn broken_link_is_detected() {
    let mut chain = expect_chain(1);
    chain.add_block("first".to_string()).expect("mining failed");
    chain.add_block("second".to_string()).expect("mining failed");
    assert!(chain.is_chain_valid());
    // Point the middle block at an unrelated predecessor hash, then keep
    // its own stored hash self-consistent: only the linkage check can fail.
    chain.blocks[1].previous_hash = vec![9, 9, 9, 9];
    chain.blocks[1].hash = chain.blocks[1].compute_hash();
    assert!(!chain.is_chain_valid());
}

#[test]
fn tampered_stored_hash_is_detected() {
    let mut chain = expect_chain(1);
    chain.add_block("payload".to_string()).expect("mining failed");
    assert!(chain.is_chain_valid());
    let mut forged = chain.blocks[1].hash.clone();
    forged[0] ^= 0xff;
    chain.blocks[1].hash = forged;
    assert!(!chain.is_chain_valid());
}

#[test]
fn impossible_difficulty_exhausts_mining() {
    // A SHA-256 hash has 64 hex digits, so a difficulty of 65 can never be
    // met and mining reports exhaustion instead of a block.
    match Blockchain::from_difficulty(65) {
        Err(MineError::NonceExhausted) => {}
        other => panic!("expected NonceExhausted, got {:?}", other),
    }
    match Block::new("never mined".to_string(), Vec::new(), 70) {
        Err(MineError::NonceExhausted) => {}
        other => panic!("expected NonceExhausted, got {:?}", other),
    }
}

#[test]
fn helper_contracts_on_concrete_bytes() {
    // "001f" has two leading zero hex digits, not three.
    let v: Vec<u8> = vec![0x00, 0x1f];
    assert!(check_difficulty(&v, 0));
    assert!(check_difficulty(&v, 2));
    assert!(!check_difficulty(&v, 3));
    // The difficulty can never exceed the number of hex digits.
    assert!(!check_difficulty(&v, 5));
    let w: Vec<u8> = vec![0x00, 0x1f];
    assert!(bytes_eq(&v, &w));
    assert!(!bytes_eq(&v, &vec![0x00, 0x1e]));
    assert!(!bytes_eq(&v, &vec![0x00]));
}
