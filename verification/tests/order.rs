//! Equality and order of records.
use celes::order::compare_bytes;
use celes::{Country, EmptyLookupTable};
use std::cmp::Ordering;

#[test]
fn byte_strings_in_order() {
    assert_eq!(compare_bytes(b"", b""), Ordering::Equal);
    assert_eq!(compare_bytes(b"", b"a"), Ordering::Less);
    assert_eq!(compare_bytes(b"a", b""), Ordering::Greater);
    assert_eq!(compare_bytes(b"abc", b"abc"), Ordering::Equal);
    assert_eq!(compare_bytes(b"abc", b"abd"), Ordering::Less);
    assert_eq!(compare_bytes(b"abd", b"abc"), Ordering::Greater);
    assert_eq!(compare_bytes(b"ab", b"abc"), Ordering::Less);
    assert_eq!(compare_bytes(b"abc", b"ab"), Ordering::Greater);
    assert_eq!(compare_bytes(b"Z", b"a"), Ordering::Less);
    assert_eq!(compare_bytes(&[0x7f], &[0x80]), Ordering::Less);
    assert_eq!(compare_bytes(&[0xff], &[0x00, 0x01]), Ordering::Greater);
}

#[test]
fn byte_order_is_the_order_of_str() {
    let all = Country::get_countries();
    for a in all.iter() {
        for b in all.iter() {
            assert_eq!(compare_bytes(a.long_name.as_bytes(), b.long_name.as_bytes()), a.long_name.cmp(b.long_name));
        }
    }
}

#[test]
fn records_are_ordered_by_name() {
    let albania = Country::albania();
    let chad = Country::chad();
    let turkey = Country::turkey();
    let zambia = Country::zambia();
    assert_eq!(albania.partial_cmp(&chad), Some(Ordering::Less));
    assert_eq!(chad.partial_cmp(&albania), Some(Ordering::Greater));
    assert_eq!(chad.partial_cmp(&chad), Some(Ordering::Equal));
    assert!(albania < chad);
    assert!(zambia > chad);
    assert!(albania <= albania);
    // "Türkiye" sorts after "Tuvalu": its second letter is beyond ASCII.
    assert!(Country::tuvalu() < turkey);
    assert!(Country::tunisia() < turkey);
    assert!(turkey < Country::uganda());
    // Names are compared as they are looked up, in lower case and without
    // spaces: "uganda" comes before "usvirginislands".
    assert!(Country::uganda() < Country::us_virgin_islands());
    assert!(Country::guinea() < Country::guinea_bissau());
}

#[test]
fn spaces_and_case_do_not_count_in_the_order() {
    let none = EmptyLookupTable.into_country_table();
    let a = Country::new("001", 1, "AA", "AAA", "New Land", none);
    let b = Country::new("002", 2, "BB", "BBB", "NEWLAND", none);
    let c = Country::new("003", 3, "CC", "CCC", "New Lane", none);
    assert_eq!(a.partial_cmp(&b), Some(Ordering::Equal));
    assert_eq!(b.partial_cmp(&a), Some(Ordering::Equal));
    assert_ne!(a, b);
    assert_eq!(a.partial_cmp(&c), Some(Ordering::Less));
    assert_eq!(c.partial_cmp(&b), Some(Ordering::Greater));
    assert_eq!(a.name_key(), b"newland".to_vec());
    assert_eq!(Country::turkey().name_key(), "türkiye".as_bytes().to_vec());
}

#[test]
fn the_order_tells_all_records_apart() {
    let all = Country::get_countries();
    for (i, a) in all.iter().enumerate() {
        for (j, b) in all.iter().enumerate() {
            assert_eq!(a.partial_cmp(b) == Some(Ordering::Equal), i == j);
            assert_eq!(a == b, i == j);
            assert_eq!(a.partial_cmp(b).map(Ordering::reverse), b.partial_cmp(a));
        }
    }
}

#[test]
fn sorting_by_name() {
    let mut all = Country::get_countries().to_vec();
    all.sort_by(|a, b| a.partial_cmp(b).unwrap());
    assert_eq!(all[0], Country::afghanistan());
    assert_eq!(all[249], Country::zimbabwe());
    for pair in all.windows(2) {
        assert!(pair[0].to_string().to_lowercase() < pair[1].to_string().to_lowercase());
    }
    let mut keys: Vec<String> = Country::get_countries().iter().map(|c| c.to_string().to_lowercase()).collect();
    keys.sort();
    let sorted: Vec<String> = all.iter().map(|c| c.to_string().to_lowercase()).collect();
    assert_eq!(sorted, keys);
}

#[test]
fn every_field_counts_for_equality() {
    let base = Country::new("001", 1, "AA", "AAA", "First", EmptyLookupTable.into_country_table());
    assert_eq!(base, Country::new("001", 1, "AA", "AAA", "First", EmptyLookupTable.into_country_table()));
    assert_ne!(base, Country::new("002", 1, "AA", "AAA", "First", EmptyLookupTable.into_country_table()));
    assert_ne!(base, Country::new("001", 2, "AA", "AAA", "First", EmptyLookupTable.into_country_table()));
    assert_ne!(base, Country::new("001", 1, "AB", "AAA", "First", EmptyLookupTable.into_country_table()));
    assert_ne!(base, Country::new("001", 1, "AA", "AAB", "First", EmptyLookupTable.into_country_table()));
    assert_ne!(base, Country::new("001", 1, "AA", "AAA", "Second", EmptyLookupTable.into_country_table()));
    assert_ne!(base, Country::new("001", 1, "AA", "AAA", "first", EmptyLookupTable.into_country_table()));
    assert_ne!(Country::american_samoa(), Country::samoa());
    let mut other = Country::american_samoa();
    other.aliases = EmptyLookupTable.into_country_table();
    assert_ne!(Country::american_samoa(), other);
}
