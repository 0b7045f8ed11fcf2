use powchain::block::{starts_with_zeros, Block};
use powchain::blockchain::Blockchain;
use powchain::encode::hash_payload;

#[test]
fn hash_is_deterministic() {
    let block = Block::new(3, String::from("00abc"));
    let first = block.generate_block_hash();
    let second = block.generate_block_hash();
    assert_eq!(first, second);
    assert_eq!(block.hash, first);
}

#[test]
fn hash_ignores_self_hash() {
    let a = Block {
        index: 1,
        timestamp: 42,
        proof_of_work: 7,
        previous_hash: String::from("00ff"),
        hash: String::from("aaaa"),
    };
    let b = Block {
        index: 1,
        timestamp: 42,
        proof_of_work: 7,
        previous_hash: String::from("00ff"),
        hash: String::from("bbbb"),
    };
    assert_eq!(a.generate_block_hash(), b.generate_block_hash());
}

#[test]
fn known_hash_of_fixed_fields() {
    let a = Block {
        index: 0,
        timestamp: 0,
        proof_of_work: 0,
        previous_hash: String::new(),
        hash: String::new(),
    };
    assert_eq!(
        a.generate_block_hash(),
        "4adf956e262d1486db82cc6e54178b37f571aa3e0a2c42ce7ab5a86e811be0fe"
    );
    let b = Block {
        index: 7,
        timestamp: 1648236489123,
        proof_of_work: 2048,
        previous_hash: String::from("00ab"),
        hash: String::new(),
    };
    assert_eq!(
        b.generate_block_hash(),
        "2af612c59d4f2966d12e3146014d9d778a53efa6c76a47618d33a12bb8055a5a"
    );
}

#[test]
fn payload_layout_and_escaping() {
    let p = hash_payload(1, 2, 3, "a\"b\\c\nd");
    assert_eq!(
        String::from_utf8(p).unwrap(),
        "{\"index\":1,\"timestamp\":2,\"proof_of_work\":3,\"previous_hash\":\"a\\\"b\\\\c\\nd\"}"
    );
    let q = hash_payload(u64::MAX, 0, 10, "\u{1}\u{1f}");
    assert_eq!(
        String::from_utf8(q).unwrap(),
        "{\"index\":18446744073709551615,\"timestamp\":0,\"proof_of_work\":10,\"previous_hash\":\"\\u0001\\u001f\"}"
    );
}

#[test]
fn mine_zero_difficulty_returns_immediately() {
    let mut b = Block::new(1, String::from("abc"));
    let before = b.hash.clone();
    b.mine(0);
    assert_eq!(b.proof_of_work, 0);
    assert_eq!(b.hash, before);
}

#[test]
fn mine_difficulty_one() {
    let mut b = Block::new(1, String::from("00"));
    b.mine(1);
    assert!(b.hash.starts_with("0"));
    assert_eq!(b.hash, b.generate_block_hash());
}

#[test]
fn genesis_exemption() {
    for d in [0usize, 1, 2, 5] {
        let c = Blockchain::new(d);
        assert_eq!(c.chain.len(), 1);
        assert_eq!(c.chain[0].index, 0);
        assert_eq!(c.chain[0].previous_hash, "");
        assert_eq!(c.genesis_block.index, 0);
        assert_eq!(c.genesis_block.previous_hash, "");
        assert_eq!(c.genesis_block.hash, c.chain[0].hash);
    }
}

#[test]
fn three_blocks_at_zero_difficulty() {
    let mut c = Blockchain::new(0);
    c.add_block();
    c.add_block();
    assert_eq!(c.chain.len(), 3);
    assert_eq!(c.chain[0].index, 0);
    assert_eq!(c.chain[1].index, 1);
    assert_eq!(c.chain[2].index, 2);
    assert_eq!(c.chain[0].proof_of_work, 0);
    assert_eq!(c.chain[1].proof_of_work, 0);
    assert_eq!(c.chain[2].proof_of_work, 0);
    assert_eq!(c.chain[1].previous_hash, c.chain[0].hash);
    assert_eq!(c.chain[2].previous_hash, c.chain[1].hash);
}

#[test]
fn mined_block_meets_difficulty_one() {
    let mut c = Blockchain::new(1);
    c.add_block();
    assert_eq!(c.chain.len(), 2);
    assert!(c.chain[1].hash.starts_with("0"));
    assert_eq!(c.chain[1].previous_hash, c.chain[0].hash);
    assert_eq!(c.chain[1].index, 1);
}

#[test]
fn zero_prefix_check() {
    assert!(starts_with_zeros("000ab", 3));
    assert!(!starts_with_zeros("00ab", 3));
    assert!(starts_with_zeros("", 0));
    assert!(!starts_with_zeros("ab", 1));
    assert!(!starts_with_zeros("0", 2));
}
