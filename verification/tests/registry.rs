//! Building a registry.
use celes::{Alias, Country, CountryTable, DuplicateKey, EmptyLookupTable, KeySpace, Registry};

fn plain(code: &'static str, value: usize, alpha2: &'static str, alpha3: &'static str, name: &'static str) -> Country {
    Country::new(code, value, alpha2, alpha3, name, EmptyLookupTable.into_country_table())
}

#[test]
fn the_standard_registry_is_valid() {
    let registry = Registry::standard();
    assert!(registry.is_ok());
    let registry = registry.unwrap();
    assert_eq!(registry.len(), 250);
    assert_eq!(registry.records().len(), 250);
    assert_eq!(registry.records(), &Country::get_countries()[..]);
}

#[test]
fn an_empty_registry() {
    let registry = Registry::build(Vec::new()).unwrap();
    assert_eq!(registry.len(), 0);
    assert!(Country::from_str(&registry, "US").is_err());
    assert!(Country::from_value(&registry, 840).is_err());
}

#[test]
fn records_keep_their_order() {
    let list = vec![Country::zimbabwe(), Country::albania(), Country::chad()];
    let registry = Registry::build(list.clone()).unwrap();
    assert_eq!(registry.records(), &list[..]);
    assert_eq!(registry.find(KeySpace::Alpha2, b"zw"), Some(0));
    assert_eq!(registry.find(KeySpace::Alpha2, b"al"), Some(1));
    assert_eq!(registry.find(KeySpace::Alpha2, b"td"), Some(2));
    assert!(Country::from_alpha2(&registry, "US").is_err());
}

#[test]
fn duplicate_numeric_value() {
    let list = vec![
        plain("001", 1, "AA", "AAA", "First"),
        plain("002", 2, "BB", "BBB", "Second"),
        plain("003", 1, "CC", "CCC", "Third"),
    ];
    let e = Registry::build(list).unwrap_err();
    assert_eq!(e, DuplicateKey { space: KeySpace::NumericValue, first: 0, second: 2 });
}

#[test]
fn duplicate_numeric_code() {
    let list = vec![
        plain("001", 1, "AA", "AAA", "First"),
        plain("002", 2, "BB", "BBB", "Second"),
        plain("002", 3, "CC", "CCC", "Third"),
    ];
    let e = Registry::build(list).unwrap_err();
    assert_eq!(e, DuplicateKey { space: KeySpace::NumericCode, first: 1, second: 2 });
}

#[test]
fn duplicate_alpha2_in_another_case() {
    let list = vec![
        plain("001", 1, "AA", "AAA", "First"),
        plain("002", 2, "aa", "BBB", "Second"),
    ];
    let e = Registry::build(list).unwrap_err();
    assert_eq!(e, DuplicateKey { space: KeySpace::Alpha2, first: 0, second: 1 });
}

#[test]
fn duplicate_alpha3() {
    let list = vec![
        plain("001", 1, "AA", "AAA", "First"),
        plain("002", 2, "BB", "BBB", "Second"),
        plain("003", 3, "CC", "CCC", "Third"),
        plain("004", 4, "DD", "BBB", "Fourth"),
    ];
    let e = Registry::build(list).unwrap_err();
    assert_eq!(e, DuplicateKey { space: KeySpace::Alpha3, first: 1, second: 3 });
}

#[test]
fn duplicate_name_up_to_spaces_and_case() {
    let list = vec![
        plain("001", 1, "AA", "AAA", "New Land"),
        plain("002", 2, "BB", "BBB", "Newland"),
    ];
    let e = Registry::build(list).unwrap_err();
    assert_eq!(e, DuplicateKey { space: KeySpace::Name, first: 0, second: 1 });
}

#[test]
fn the_first_defect_is_reported() {
    // The names collide first in the list, but the three-letter codes are
    // looked at before the names; of the colliding pairs of codes the one
    // that is complete first is reported.
    let list = vec![
        plain("001", 1, "AA", "AAA", "Same"),
        plain("002", 2, "BB", "BBB", "Same"),
        plain("003", 3, "CC", "CCC", "Third"),
        plain("004", 4, "DD", "CCC", "Fourth"),
        plain("005", 5, "EE", "AAA", "Fifth"),
    ];
    let e = Registry::build(list).unwrap_err();
    assert_eq!(e, DuplicateKey { space: KeySpace::Alpha3, first: 2, second: 3 });
}

#[test]
fn the_first_registered_alias_wins() {
    static ONE: [Alias; 2] =
        [Alias { text: "Shared", deprecated: false }, Alias { text: "OnlyOne", deprecated: false }];
    static TWO: [Alias; 2] =
        [Alias { text: "SHARED", deprecated: true }, Alias { text: "OnlyTwo", deprecated: false }];
    let one = Country::new("001", 1, "AA", "AAA", "First", CountryTable::Aliases(&ONE));
    let two = Country::new("002", 2, "BB", "BBB", "Second", CountryTable::Aliases(&TWO));
    let registry = Registry::build(vec![one, two]).unwrap();
    assert_eq!(Country::from_alias(&registry, "shared").unwrap(), one);
    assert_eq!(Country::from_alias(&registry, "onlyone").unwrap(), one);
    assert_eq!(Country::from_alias(&registry, "onlytwo").unwrap(), two);
    assert_eq!(Country::from_str(&registry, "Shared").unwrap(), one);

    let registry = Registry::build(vec![two, one]).unwrap();
    assert_eq!(Country::from_alias(&registry, "shared").unwrap(), two);
}

#[test]
fn deprecation_does_not_change_resolution() {
    static MARKED: [Alias; 1] = [Alias { text: "Oldland", deprecated: true }];
    static UNMARKED: [Alias; 1] = [Alias { text: "Oldland", deprecated: false }];
    let marked = Country::new("001", 1, "AA", "AAA", "Newland", CountryTable::Aliases(&MARKED));
    let unmarked = Country::new("001", 1, "AA", "AAA", "Newland", CountryTable::Aliases(&UNMARKED));
    let with_mark = Registry::build(vec![marked]).unwrap();
    let without = Registry::build(vec![unmarked]).unwrap();
    for key in ["oldland", "Oldland", "newland", "aa", "aaa", "001", "nothing"].iter() {
        assert_eq!(with_mark.find(KeySpace::Any, key.to_lowercase().as_bytes()), without.find(KeySpace::Any, key.to_lowercase().as_bytes()));
        assert_eq!(Country::from_alias(&with_mark, key).is_ok(), Country::from_alias(&without, key).is_ok());
    }
    assert_eq!(Country::from_alias(&with_mark, "oldland").unwrap(), marked);
    assert_eq!(Country::from_name(&with_mark, "newland").unwrap(), marked);
}

#[test]
fn an_alias_may_repeat_a_code_of_its_own_record() {
    static OWN: [Alias; 2] = [Alias { text: "AA", deprecated: false }, Alias { text: "First", deprecated: false }];
    let one = Country::new("001", 1, "AA", "AAA", "First", CountryTable::Aliases(&OWN));
    let registry = Registry::build(vec![one]).unwrap();
    assert_eq!(Country::from_alias(&registry, "aa").unwrap(), one);
    assert_eq!(Country::from_str(&registry, "aa").unwrap(), one);
}

#[test]
fn no_two_standard_records_share_a_key() {
    let all = Country::get_countries();
    for (i, a) in all.iter().enumerate() {
        for b in all.iter().skip(i + 1) {
            assert_ne!(a.value, b.value);
            assert_ne!(a.code, b.code);
            assert_ne!(a.alpha2, b.alpha2);
            assert_ne!(a.alpha3, b.alpha3);
            assert_ne!(a.long_name, b.long_name);
            assert_ne!(a.to_string().to_lowercase(), b.to_string().to_lowercase());
            assert_ne!(a, b);
        }
    }
}

#[test]
fn a_country_renamed_twice_keeps_both_old_names() {
    static OLD: [Alias; 3] = [
        Alias { text: "Firstland", deprecated: true },
        Alias { text: "Secondland", deprecated: true },
        Alias { text: "Thirdy", deprecated: false },
    ];
    let renamed = Country::new("001", 1, "AA", "AAA", "Third Land", CountryTable::Aliases(&OLD));
    let other = plain("002", 2, "BB", "BBB", "Elsewhere");
    let registry = Registry::build(vec![other, renamed]).unwrap();
    assert_eq!(registry.len(), 2);
    for key in ["Firstland", "secondland", "THIRDY", "ThirdLand", "aa", "AAA", "001"].iter() {
        assert_eq!(Country::from_str(&registry, key).unwrap(), renamed);
    }
    assert_eq!(Country::from_alias(&registry, "firstland").unwrap(), renamed);
    assert_eq!(Country::from_alias(&registry, "secondland").unwrap(), renamed);
    assert_eq!(Country::from_name(&registry, "thirdland").unwrap(), renamed);
    assert!(Country::from_name(&registry, "firstland").is_err());
}
