use lake_indexer::cache::{ReceiptsCache, MAX_CACHE_CAPACITY};
use lake_indexer::errors::IndexerError;
use lake_indexer::hashes::{CryptoHash, ReceiptOrDataId};

fn hash(n: u8) -> CryptoHash {
    CryptoHash { bytes: [n; 32] }
}

#[test]
fn a_cache_of_size_zero_is_refused() {
    assert!(matches!(ReceiptsCache::with_size(0), Err(IndexerError::BadInput)));
}

#[test]
fn a_cache_above_the_largest_is_refused() {
    assert_eq!(MAX_CACHE_CAPACITY, 16_777_216);
    assert!(matches!(ReceiptsCache::with_size(MAX_CACHE_CAPACITY + 1), Err(IndexerError::BadInput)));
    assert!(matches!(ReceiptsCache::with_size(usize::MAX), Err(IndexerError::BadInput)));
    assert!(ReceiptsCache::with_size(100_000).is_ok());
}

#[test]
fn a_third_entry_evicts_the_first_of_two() {
    let mut cache = ReceiptsCache::with_size(2).unwrap();
    let a = ReceiptOrDataId::ReceiptId(hash(1));
    let b = ReceiptOrDataId::ReceiptId(hash(2));
    let c = ReceiptOrDataId::ReceiptId(hash(3));
    assert_eq!(cache.cache_set(a, "tx-a".to_string()), None);
    assert_eq!(cache.cache_set(b, "tx-b".to_string()), None);
    assert_eq!(cache.cache_set(c, "tx-c".to_string()), None);
    assert_eq!(cache.cache_get(&a), None);
    assert_eq!(cache.cache_get(&b), Some("tx-b".to_string()));
    assert_eq!(cache.cache_get(&c), Some("tx-c".to_string()));
}

#[test]
fn a_read_entry_outlives_an_unread_one() {
    let mut cache = ReceiptsCache::with_size(2).unwrap();
    let a = ReceiptOrDataId::ReceiptId(hash(1));
    let b = ReceiptOrDataId::ReceiptId(hash(2));
    let c = ReceiptOrDataId::ReceiptId(hash(3));
    cache.cache_set(a, "tx-a".to_string());
    cache.cache_set(b, "tx-b".to_string());
    assert_eq!(cache.cache_get(&a), Some("tx-a".to_string()));
    cache.cache_set(c, "tx-c".to_string());
    assert_eq!(cache.cache_get(&b), None);
    assert_eq!(cache.cache_get(&a), Some("tx-a".to_string()));
}

#[test]
fn setting_a_key_again_returns_the_old_text_and_keeps_its_place() {
    let mut cache = ReceiptsCache::with_size(2).unwrap();
    let a = ReceiptOrDataId::ReceiptId(hash(1));
    let b = ReceiptOrDataId::ReceiptId(hash(2));
    let c = ReceiptOrDataId::ReceiptId(hash(3));
    cache.cache_set(a, "tx-a".to_string());
    cache.cache_set(b, "tx-b".to_string());
    assert_eq!(cache.cache_set(a, "tx-a2".to_string()), Some("tx-a".to_string()));
    cache.cache_set(c, "tx-c".to_string());
    assert_eq!(cache.cache_get(&a), None);
    assert_eq!(cache.cache_get(&b), Some("tx-b".to_string()));
}

#[test]
fn a_removed_entry_is_gone() {
    let mut cache = ReceiptsCache::with_size(4).unwrap();
    let a = ReceiptOrDataId::DataId(hash(1));
    cache.cache_set(a, "tx-a".to_string());
    assert_eq!(cache.cache_remove(&a), Some("tx-a".to_string()));
    assert_eq!(cache.cache_remove(&a), None);
    assert_eq!(cache.cache_get(&a), None);
}

#[test]
fn receipt_ids_and_data_ids_are_different_keys() {
    let mut cache = ReceiptsCache::with_size(4).unwrap();
    cache.cache_set(ReceiptOrDataId::ReceiptId(hash(1)), "tx-r".to_string());
    assert_eq!(cache.cache_get(&ReceiptOrDataId::DataId(hash(1))), None);
    assert_eq!(cache.cache_get(&ReceiptOrDataId::ReceiptId(hash(1))), Some("tx-r".to_string()));
}

#[test]
fn a_cache_never_holds_more_than_its_capacity() {
    let mut cache = ReceiptsCache::with_size(3).unwrap();
    assert_eq!(cache.cache_size(), 0);
    for n in 1..=10u8 {
        cache.cache_set(ReceiptOrDataId::ReceiptId(hash(n)), format!("tx-{}", n));
        assert!(cache.cache_size() <= 3);
    }
    assert_eq!(cache.cache_size(), 3);
    let held: Vec<u8> = (1..=10u8)
        .filter(|n| cache.cache_get(&ReceiptOrDataId::ReceiptId(hash(*n))).is_some())
        .collect();
    assert_eq!(held, vec![8, 9, 10]);
    assert_eq!(cache.cache_remove(&ReceiptOrDataId::ReceiptId(hash(9))), Some("tx-9".to_string()));
    assert_eq!(cache.cache_size(), 2);
}
