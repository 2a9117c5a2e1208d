//! Content addressing and deduplicated storage.

use rustmail::storage::{address, message_rel_path, store_message, MessageStore};

/// The address is the lowercase hex SHA-1 of folder bytes followed by the
/// identifier's decimal digits.
#[test]
fn address_known_value() {
    assert_eq!(address("a", 1), "f29bc91bbdab169fc0c0a326965953d11c7dff83");
    assert_eq!(address("inbox", 101), "f755cdfff3ebf2044d5505aa6f446be1f2a345ac");
}

/// Determinism: repeated calls over the same pair agree.
#[test]
fn address_deterministic() {
    let first = address("inbox", 42);
    let second = address("inbox", 42);
    assert_eq!(first, second);
    assert_eq!(first.len(), 40);
}

/// Partition: the folder is part of the digest input, so the same identifier
/// in two folders gets two addresses.
#[test]
fn address_partition_by_folder() {
    assert_ne!(address("a", 1), address("b", 1));
    assert_eq!(address("b", 1), "7e83ca2a65d6f90a809c8570c6c905a941b87732");
}

/// The on-disk layout is `rustmail/<email>/<folder>/<address>.eml`.
#[test]
fn rel_path_layout() {
    let p = message_rel_path("me@example.com", "archive", 7);
    assert_eq!(
        p,
        "rustmail/me@example.com/archive/8f0f6df9394a2268fba84ea19f1600e13b058f61.eml"
    );
}

/// Idempotent storage: the second store of the same message changes nothing
/// and performs no write; the original bytes stay.
#[test]
fn store_twice_is_one_file() {
    let mut store = MessageStore::new();
    let body = vec![1u8, 2, 3];
    let (path1, wrote1) = store_message(&mut store, "me@example.com", "inbox", 101, &body);
    assert!(wrote1);
    assert_eq!(store.len(), 1);
    let (path2, wrote2) = store_message(&mut store, "me@example.com", "inbox", 101, &body);
    assert!(!wrote2);
    assert_eq!(path1, path2);
    assert_eq!(store.len(), 1);
    assert_eq!(store.files[0].body, vec![1u8, 2, 3]);
}

/// An occupied path is never rewritten, even by different bytes.
#[test]
fn store_keeps_first_bytes() {
    let mut store = MessageStore::new();
    let first = vec![9u8];
    let other = vec![7u8, 7];
    let (_, wrote1) = store_message(&mut store, "me@example.com", "inbox", 5, &first);
    let (_, wrote2) = store_message(&mut store, "me@example.com", "inbox", 5, &other);
    assert!(wrote1);
    assert!(!wrote2);
    assert_eq!(store.len(), 1);
    assert_eq!(store.files[0].body, vec![9u8]);
}

/// Distinct identifiers store distinct files.
#[test]
fn store_distinct_uids() {
    let mut store = MessageStore::new();
    let body = vec![0u8];
    let (pa, _) = store_message(&mut store, "me@example.com", "inbox", 101, &body);
    let (pb, _) = store_message(&mut store, "me@example.com", "inbox", 102, &body);
    assert_ne!(pa, pb);
    assert_eq!(store.len(), 2);
}
