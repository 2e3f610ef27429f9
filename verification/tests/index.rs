//! The index of byte-string keys.
use celes::KeyIndex;

#[test]
fn an_empty_index_holds_nothing() {
    let index = KeyIndex::new();
    assert_eq!(index.len(), 0);
    assert_eq!(index.get(b"af"), None);
    assert_eq!(index.get(b""), None);
    assert!(!index.contains_key(b"af"));
}

#[test]
fn insert_then_get() {
    let mut index = KeyIndex::new();
    assert!(index.insert(b"af", 0));
    assert!(index.insert(b"ax", 1));
    assert!(index.insert(b"", 2));
    assert_eq!(index.len(), 3);
    assert_eq!(index.get(b"af"), Some(0));
    assert_eq!(index.get(b"ax"), Some(1));
    assert_eq!(index.get(b""), Some(2));
    assert_eq!(index.get(b"a"), None);
    assert_eq!(index.get(b"afx"), None);
    assert_eq!(index.get(b"AF"), None);
    assert!(index.contains_key(b"ax"));
}

#[test]
fn the_first_registration_stays() {
    let mut index = KeyIndex::new();
    assert!(index.insert(b"samoa", 4));
    assert!(!index.insert(b"samoa", 190));
    assert_eq!(index.get(b"samoa"), Some(4));
    assert_eq!(index.len(), 1);
}

#[test]
fn one_bucket_holds_every_key() {
    let mut index = KeyIndex::with_buckets(1);
    for i in 0..200usize {
        assert!(index.insert(format!("key{}", i).as_bytes(), i));
    }
    assert_eq!(index.len(), 200);
    for i in 0..200usize {
        assert_eq!(index.get(format!("key{}", i).as_bytes()), Some(i));
    }
    assert_eq!(index.get(b"key200"), None);
}

#[test]
fn no_buckets_asked_for_gives_one() {
    let mut index = KeyIndex::with_buckets(0);
    assert!(index.insert(b"a", 7));
    assert!(index.insert(b"b", 8));
    assert_eq!(index.get(b"a"), Some(7));
    assert_eq!(index.get(b"b"), Some(8));
}

#[test]
fn absorb_keeps_what_is_there() {
    let mut names = KeyIndex::new();
    names.insert(b"samoa", 190);
    names.insert(b"chad", 40);
    let mut aliases = KeyIndex::new();
    aliases.insert(b"samoa", 4);
    aliases.insert(b"holland", 150);

    let mut unified = KeyIndex::new();
    unified.absorb(&names);
    unified.absorb(&aliases);
    assert_eq!(unified.len(), 3);
    assert_eq!(unified.get(b"samoa"), Some(190));
    assert_eq!(unified.get(b"chad"), Some(40));
    assert_eq!(unified.get(b"holland"), Some(150));
    assert_eq!(names.len(), 2);
    assert_eq!(aliases.get(b"samoa"), Some(4));
}

#[test]
fn the_number_of_buckets_is_what_was_asked_for() {
    assert_eq!(KeyIndex::with_buckets(7).buckets(), 7);
    assert_eq!(KeyIndex::with_buckets(1).buckets(), 1);
    assert_eq!(KeyIndex::with_buckets(0).buckets(), 1);
    assert_eq!(KeyIndex::with_buckets(4096).buckets(), 4096);
    assert_eq!(KeyIndex::new().buckets(), celes::index::DEFAULT_BUCKETS);
    assert_eq!(KeyIndex::new().buckets(), 1024);
}

#[test]
fn the_number_of_buckets_stays() {
    let mut index = KeyIndex::with_buckets(3);
    for i in 0..50usize {
        index.insert(format!("k{}", i).as_bytes(), i);
    }
    assert_eq!(index.buckets(), 3);
    assert_eq!(index.len(), 50);
    let mut other = KeyIndex::with_buckets(5);
    other.absorb(&index);
    assert_eq!(other.buckets(), 5);
    assert_eq!(other.len(), 50);
    assert_eq!(index.buckets(), 3);
}
