//! The shape of records.
use celes::shape::{code_spells, letter_code, word};
use celes::{Alias, Country, CountryTable, EmptyLookupTable, Registry};

#[test]
fn three_digits_spell_a_number() {
    assert!(code_spells("004", 4));
    assert!(code_spells("000", 0));
    assert!(code_spells("999", 999));
    assert!(code_spells("840", 840));
    assert!(code_spells("048", 48));
    assert!(!code_spells("004", 5));
    assert!(!code_spells("4", 4));
    assert!(!code_spells("04", 4));
    assert!(!code_spells("0004", 4));
    assert!(!code_spells("", 0));
    assert!(!code_spells("00a", 0));
    assert!(!code_spells("٠٠٤", 4));
    assert!(!code_spells("1000", 1000));
    assert!(!code_spells("000", 1000));
}

#[test]
fn letter_codes_are_capital_letters() {
    assert!(letter_code("AF", 2));
    assert!(letter_code("AFG", 3));
    assert!(letter_code("", 0));
    assert!(!letter_code("AF", 3));
    assert!(!letter_code("AFG", 2));
    assert!(!letter_code("af", 2));
    assert!(!letter_code("A1", 2));
    assert!(!letter_code("A ", 2));
    assert!(!letter_code("ÅF", 2));
    assert!(!letter_code("@[", 2));
}

#[test]
fn a_word_has_no_space() {
    assert!(word("Samoa"));
    assert!(word("UnitedKingdomOfGreatBritainAndNorthernIreland"));
    assert!(word("Türkiye"));
    assert!(word("a"));
    assert!(!word(""));
    assert!(!word(" "));
    assert!(!word("Great Britain"));
    assert!(!word("Samoa "));
    assert!(!word(" Samoa"));
}

#[test]
fn every_country_is_well_formed() {
    for c in &Country::get_countries() {
        assert!(c.is_well_formed(), "{}", c.to_string());
    }
    for c in Registry::standard().unwrap().records() {
        assert!(c.is_well_formed());
    }
}

#[test]
fn records_that_are_not_well_formed() {
    let none = EmptyLookupTable.into_country_table();
    assert!(Country::new("001", 1, "AA", "AAA", "First", none).is_well_formed());
    assert!(!Country::new("001", 2, "AA", "AAA", "First", none).is_well_formed());
    assert!(!Country::new("1", 1, "AA", "AAA", "First", none).is_well_formed());
    assert!(!Country::new("001", 1, "aa", "AAA", "First", none).is_well_formed());
    assert!(!Country::new("001", 1, "AAA", "AAA", "First", none).is_well_formed());
    assert!(!Country::new("001", 1, "AA", "AA", "First", none).is_well_formed());
    assert!(!Country::new("001", 1, "AA", "AaA", "First", none).is_well_formed());
    assert!(!Country::new("001", 1, "AA", "AAA", "", none).is_well_formed());
    static SPACED: [Alias; 2] =
        [Alias { text: "Fine", deprecated: false }, Alias { text: "Not Fine", deprecated: false }];
    assert!(!Country::new("001", 1, "AA", "AAA", "First", CountryTable::Aliases(&SPACED)).is_well_formed());
    static EMPTY: [Alias; 1] = [Alias { text: "", deprecated: true }];
    assert!(!Country::new("001", 1, "AA", "AAA", "First", CountryTable::Aliases(&EMPTY)).is_well_formed());
    static FINE: [Alias; 1] = [Alias { text: "Fine", deprecated: true }];
    assert!(Country::new("001", 1, "AA", "AAA", "First", CountryTable::Aliases(&FINE)).is_well_formed());
}

#[test]
fn a_number_resolves_as_its_three_digits() {
    let registry = Registry::standard().unwrap();
    for value in 0..1000usize {
        let code = format!("{:03}", value);
        let by_value = Country::from_value(&registry, value).ok();
        let by_code = Country::from_code(&registry, &code).ok();
        assert_eq!(by_value, by_code);
    }
}
