use multiset_hash::RistrettoHash;

#[test]
fn test_add_with_multiplicity() {
    let data = b"test data";

    let mut hash1 = RistrettoHash::new();
    let mut hash2 = RistrettoHash::new();

    hash1.add(data, 3).unwrap();
    hash2.add(data, 1).unwrap();
    hash2.add(data, 1).unwrap();
    hash2.add(data, 1).unwrap();

    let output1 = hash1.finalize().unwrap();
    let output2 = hash2.finalize().unwrap();
    assert_eq!(output1, output2)
}

#[test]
fn test_hash_commutative() {
    let data_a = b"test data A";
    let data_b = b"test data B";

    let mut hash1 = RistrettoHash::new();
    let mut hash2 = RistrettoHash::new();

    hash1.add(data_a, 1).unwrap();
    hash1.add(data_b, 1).unwrap();

    hash2.add(data_b, 1).unwrap();
    hash2.add(data_a, 1).unwrap();

    let output1 = hash1.finalize().unwrap();
    let output2 = hash2.finalize().unwrap();
    assert_eq!(output1, output2)
}

#[test]
fn test_partial_updates() {
    let mut hash1 = RistrettoHash::new();
    let mut hash2 = RistrettoHash::new();

    hash1.add(b"the full data", 3).unwrap();
    hash2.update(b"the");
    hash2.update(b" full");
    hash2.update(b" data");
    hash2.end_update(3);

    let output1 = hash1.finalize().unwrap();
    let output2 = hash2.finalize().unwrap();
    assert_eq!(output1, output2)
}

#[test]
fn test_add_before_end_update_panics() {
    let mut hash = RistrettoHash::new();
    hash.update(b"some data");
    assert!(hash.add(b"more data", 1).is_err());
}

#[test]
fn test_finalize_before_end_update_panics() {
    let mut hash = RistrettoHash::new();
    hash.update(b"some data");
    assert!(hash.finalize().is_err());
}

#[test]
fn grouping_and_order_of_four_elements() {
    let mut hash1 = RistrettoHash::new();
    hash1.add(b"cat", 2).unwrap();
    hash1.add(b"dog", 2).unwrap();

    let mut hash2 = RistrettoHash::new();
    hash2.add(b"dog", 1).unwrap();
    hash2.add(b"cat", 1).unwrap();
    hash2.add(b"cat", 1).unwrap();
    hash2.add(b"dog", 1).unwrap();

    assert_eq!(hash1.finalize().unwrap(), hash2.finalize().unwrap());
}

#[test]
fn fresh_finalize_is_compressed_identity() {
    let hash = RistrettoHash::new();
    assert_eq!(hash.finalize().unwrap(), [0u8; 32]);
}

#[test]
fn zero_multiplicity_leaves_digest_unchanged() {
    let mut hash1 = RistrettoHash::new();
    hash1.add(b"anything", 0).unwrap();
    let fresh = RistrettoHash::new();
    assert_eq!(hash1.finalize().unwrap(), fresh.finalize().unwrap());

    let mut hash2 = RistrettoHash::new();
    hash2.update(b"partial");
    hash2.end_update(0);
    assert_eq!(hash2.finalize().unwrap(), [0u8; 32]);
}

#[test]
fn different_elements_give_different_digests() {
    let mut hash1 = RistrettoHash::new();
    hash1.add(b"cat", 1).unwrap();
    let mut hash2 = RistrettoHash::new();
    hash2.add(b"dog", 1).unwrap();
    let fresh = RistrettoHash::new();

    let d1 = hash1.finalize().unwrap();
    let d2 = hash2.finalize().unwrap();
    assert_ne!(d1, d2);
    assert_ne!(d1, fresh.finalize().unwrap());
}

#[test]
fn end_update_without_update_commits_empty_element() {
    let mut hash1 = RistrettoHash::new();
    hash1.end_update(1);
    let mut hash2 = RistrettoHash::new();
    hash2.add(b"", 1).unwrap();

    let d1 = hash1.finalize().unwrap();
    let d2 = hash2.finalize().unwrap();
    assert_eq!(d1, d2);
    assert_ne!(d1, [0u8; 32]);
}

#[test]
fn merge_equals_single_instance() {
    let mut part1 = RistrettoHash::new();
    part1.add(b"alpha", 2).unwrap();
    let mut part2 = RistrettoHash::new();
    part2.add(b"beta", 1).unwrap();
    part2.add(b"alpha", 1).unwrap();
    part1.merge(&part2).unwrap();

    let mut whole = RistrettoHash::new();
    whole.add(b"beta", 1).unwrap();
    whole.add(b"alpha", 3).unwrap();

    assert_eq!(part1.finalize().unwrap(), whole.finalize().unwrap());
}

#[test]
fn merge_fails_while_pending() {
    let mut hash1 = RistrettoHash::new();
    let mut hash2 = RistrettoHash::new();
    hash2.update(b"partial");
    assert!(hash1.merge(&hash2).is_err());
    assert!(hash2.merge(&hash1).is_err());
    hash2.end_update(1);
    assert!(hash1.merge(&hash2).is_ok());
}

#[test]
fn finalize_and_reset_allows_reuse() {
    let mut hash = RistrettoHash::new();
    hash.add(b"one", 1).unwrap();

    let mut reference = RistrettoHash::new();
    reference.add(b"one", 1).unwrap();
    assert_eq!(hash.finalize_and_reset().unwrap(), reference.finalize().unwrap());

    hash.add(b"two", 2).unwrap();
    let mut reference2 = RistrettoHash::new();
    reference2.add(b"two", 2).unwrap();
    assert_eq!(hash.finalize_and_reset().unwrap(), reference2.finalize().unwrap());
}

#[test]
fn finalize_and_reset_fails_while_pending() {
    let mut hash = RistrettoHash::new();
    hash.update(b"some data");
    assert!(hash.finalize_and_reset().is_err());
    assert!(hash.is_pending());
    hash.end_update(1);
    assert!(!hash.is_pending());
    assert!(hash.finalize_and_reset().is_ok());
}

#[test]
fn reset_discards_everything() {
    let mut hash = RistrettoHash::new();
    hash.add(b"committed", 5).unwrap();
    hash.update(b"pending");
    hash.reset();
    assert!(!hash.is_pending());
    assert_eq!(hash.finalize().unwrap(), [0u8; 32]);
}
