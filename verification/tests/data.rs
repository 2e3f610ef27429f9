//! The list of countries.
use celes::{Country, LookupTable};

#[test]
fn there_are_250_countries() {
    let all = Country::get_countries();
    assert_eq!(all.len(), 250);
    assert_eq!(celes::data::COUNTRIES, 250);
    assert_eq!(all[0], Country::afghanistan());
    assert_eq!(all[1], Country::aland_islands());
    assert_eq!(all[4], Country::american_samoa());
    assert_eq!(all[249], Country::zimbabwe());
}

#[test]
fn the_fields_of_a_record() {
    let gb = Country::the_united_kingdom_of_great_britain_and_northern_ireland();
    assert_eq!(gb.code, "826");
    assert_eq!(gb.value, 826);
    assert_eq!(gb.alpha2, "GB");
    assert_eq!(gb.alpha3, "GBR");
    assert_eq!(gb.long_name, "The United Kingdom Of Great Britain And Northern Ireland");
    assert_eq!(gb.aliases.len(), 7);

    let af = Country::afghanistan();
    assert_eq!(af.code, "004");
    assert_eq!(af.value, 4);
    assert_eq!(af.alpha2, "AF");
    assert_eq!(af.alpha3, "AFG");
    assert_eq!(af.long_name, "Afghanistan");
    assert!(af.aliases.is_empty());
}

#[test]
fn the_name_is_shown_without_spaces() {
    assert_eq!(Country::aland_islands().to_string(), "AlandIslands");
    assert_eq!(Country::afghanistan().to_string(), "Afghanistan");
    assert_eq!(Country::the_united_states_of_america().to_string(), "TheUnitedStatesOfAmerica");
    assert_eq!(Country::taiwan().to_string(), "Taiwan,RepublicOfChina");
    assert_eq!(Country::turkey().to_string(), "Türkiye");
    assert_eq!(Country::timor_leste().to_string(), "TimorLeste");
}

#[test]
fn codes_have_their_shape() {
    for c in &Country::get_countries() {
        assert_eq!(c.code.len(), 3);
        assert!(c.code.bytes().all(|b| b.is_ascii_digit()));
        assert_eq!(c.code.parse::<usize>().unwrap(), c.value);
        assert_eq!(c.code, format!("{:03}", c.value));
        assert_eq!(c.alpha2.len(), 2);
        assert!(c.alpha2.bytes().all(|b| b.is_ascii_uppercase()));
        assert_eq!(c.alpha3.len(), 3);
        assert!(c.alpha3.bytes().all(|b| b.is_ascii_uppercase()));
        assert!(!c.long_name.is_empty());
    }
}

#[test]
fn copies_are_equal() {
    let c = Country::samoa();
    let d = c;
    assert_eq!(c, d);
    assert_eq!(c.clone(), d);
    assert_eq!(format!("{:?}", c.value), "882");
}
