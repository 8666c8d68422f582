use ckb_block_verifier::block_verifier::HeaderResolverWrapper;
use ckb_block_verifier::types::{Byte32, HeaderView};

fn header(hash: u8, parent: u8) -> HeaderView {
    HeaderView {
        hash: Byte32 { bytes: [hash; 32] },
        number: 3,
        version: 0,
        compact_target: 0,
        epoch: 0,
        timestamp: 0,
        parent_hash: Byte32 { bytes: [parent; 32] },
        transactions_root: Byte32::zero(),
        proposals_hash: Byte32::zero(),
        uncles_hash: Byte32::zero(),
        dao: Byte32::zero(),
        nonce: u128::from(hash),
    }
}

#[test]
fn wrapper_from_given_parent() {
    let child = header(2, 1);
    let wrapper = HeaderResolverWrapper::build(&child, Some(header(9, 8)));
    assert_eq!(wrapper.header().hash.bytes, [2; 32]);
    assert_eq!(wrapper.header().nonce, 2);
    assert_eq!(wrapper.parent().map(|parent| parent.hash.bytes), Some([9; 32]));
    assert_eq!(wrapper.parent().map(|parent| parent.nonce), Some(9));
    assert!(HeaderResolverWrapper::build(&child, None).parent().is_none());
}

#[test]
fn wrapper_from_store() {
    let store = vec![header(0, 7), header(1, 0), header(2, 1)];
    let get = |hash: &Byte32| store.iter().find(|h| h.hash == *hash).cloned();
    let child = header(2, 1);
    let wrapper = HeaderResolverWrapper::new(&child, &get);
    assert_eq!(wrapper.header().hash.bytes, [2; 32]);
    assert_eq!(wrapper.parent().map(|parent| parent.hash.bytes), Some([1; 32]));
    let orphan = header(0, 7);
    assert!(HeaderResolverWrapper::new(&orphan, &get).parent().is_none());
}
