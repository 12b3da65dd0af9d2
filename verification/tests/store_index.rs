use mule::index::MappingIndex;
use mule::store::BlobStore;

#[test]
fn blobs_come_back_byte_identical() {
    let mut store = BlobStore::new();
    assert!(store.get("k1").is_none());
    store.put("k1", vec![1, 2, 3]);
    assert_eq!(store.get("k1").unwrap().as_slice(), &[1, 2, 3]);
    assert!(store.contains("k1"));
    assert!(!store.contains("k2"));
}

#[test]
fn a_later_write_to_the_same_key_wins() {
    let mut store = BlobStore::new();
    store.put("k", b"old".to_vec());
    store.put("k", b"new".to_vec());
    assert_eq!(store.get("k").unwrap().as_slice(), b"new");
}

#[test]
fn distinct_keys_are_independent() {
    let mut store = BlobStore::new();
    store.put("a", vec![1]);
    store.put("b", vec![2]);
    assert_eq!(store.get("a").unwrap().as_slice(), &[1]);
    assert_eq!(store.get("b").unwrap().as_slice(), &[2]);
}

#[test]
fn the_index_keeps_insertion_order_and_duplicates() {
    let mut index = MappingIndex::new();
    assert_eq!(index.len(), 0);
    index.append("d1", "u1");
    index.append("d2", "u2");
    index.append("d1", "u1");
    assert_eq!(index.len(), 3);
    let all = index.scan_all();
    assert_eq!(
        all,
        vec![
            ("d1".to_string(), "u1".to_string()),
            ("d2".to_string(), "u2".to_string()),
            ("d1".to_string(), "u1".to_string()),
        ]
    );
}

#[test]
fn a_scan_rereads_the_full_state() {
    let mut index = MappingIndex::new();
    index.append("d1", "u1");
    let first = index.scan_all();
    let second = index.scan_all();
    assert_eq!(first, second);
}
