//! Lookup keys.
use celes::key::{lower_byte, normalize, same_bytes};

#[test]
fn ascii_letters_are_folded() {
    assert_eq!(normalize("US"), b"us".to_vec());
    assert_eq!(normalize("us"), b"us".to_vec());
    assert_eq!(normalize("TheUnitedStatesOfAmerica"), b"theunitedstatesofamerica".to_vec());
    assert_eq!(normalize("AZaz@[`{"), b"azaz@[`{".to_vec());
}

#[test]
fn nothing_but_case_is_changed() {
    assert_eq!(normalize(""), Vec::<u8>::new());
    assert_eq!(normalize("004"), b"004".to_vec());
    assert_eq!(normalize(" United Kingdom\t"), b" united kingdom\t".to_vec());
    assert_eq!(normalize("timor-leste_1"), b"timor-leste_1".to_vec());
}

#[test]
fn letters_beyond_ascii_are_folded_and_kept() {
    assert_eq!(normalize("TÜRKIYE"), "türkiye".as_bytes().to_vec());
    assert_eq!(normalize("Türkiye"), "türkiye".as_bytes().to_vec());
    assert_ne!(normalize("Türkiye"), normalize("Turkiye"));
    assert_eq!(normalize("台灣"), "台灣".as_bytes().to_vec());
    assert_eq!(normalize("ÅLAND"), "åland".as_bytes().to_vec());
}

#[test]
fn folding_bytes() {
    assert_eq!(lower_byte(b'A'), b'a');
    assert_eq!(lower_byte(b'Z'), b'z');
    assert_eq!(lower_byte(b'a'), b'a');
    assert_eq!(lower_byte(b'@'), b'@');
    assert_eq!(lower_byte(b'['), b'[');
    assert_eq!(lower_byte(0), 0);
    assert_eq!(lower_byte(255), 255);
    for b in 0..=255u8 {
        assert_eq!(lower_byte(b), b.to_ascii_lowercase());
    }
}

#[test]
fn the_same_bytes() {
    assert!(same_bytes(b"", b""));
    assert!(same_bytes(b"abc", b"abc"));
    assert!(!same_bytes(b"abc", b"abd"));
    assert!(!same_bytes(b"abc", b"ab"));
    assert!(!same_bytes(b"", b"a"));
}
