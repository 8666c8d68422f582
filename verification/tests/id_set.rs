use ckb_block_verifier::id_set::IdSet;

#[test]
fn each_id_is_new_once() {
    let mut set = IdSet::new();
    assert!(set.insert(&[1, 2, 3]));
    assert!(set.insert(&[1, 2]));
    assert!(set.insert(&[]));
    assert!(!set.insert(&[1, 2, 3]));
    assert!(!set.insert(&[]));
    assert!(set.insert(&[0; 8]));
    assert!(set.insert(&[0; 9]));
    assert!(set.insert(&[0; 10]));
    assert!(!set.insert(&[0; 9]));
}
