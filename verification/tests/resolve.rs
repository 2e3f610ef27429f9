//! Lookups in the registry of all the countries.
use celes::{Country, DecodeError, KeySpace, LookupInput, LookupTable, NotFound, Registry};

fn standard() -> Registry {
    Registry::standard().unwrap()
}

#[test]
fn numeric_code_004_is_afghanistan() {
    let registry = standard();
    let found = Country::from_code(&registry, "004").unwrap();
    assert_eq!(found.alpha2, "AF");
    assert_eq!(found, Country::afghanistan());
}

#[test]
fn numeric_code_needs_its_leading_zeros() {
    let registry = standard();
    assert!(Country::from_code(&registry, "4").is_err());
    assert!(Country::from_code(&registry, "04").is_err());
    assert!(Country::from_code(&registry, "8").is_err());
    assert!(Country::from_code(&registry, "08").is_err());
    assert_eq!(Country::from_code(&registry, "008").unwrap(), Country::albania());
}

#[test]
fn numeric_value_needs_no_padding() {
    let registry = standard();
    assert_eq!(Country::from_value(&registry, 4).unwrap(), Country::afghanistan());
    assert_eq!(Country::from_value(&registry, 8).unwrap(), Country::albania());
    assert_eq!(Country::from_value(&registry, 840).unwrap(), Country::the_united_states_of_america());
    assert!(Country::from_value(&registry, 1).is_err());
    assert!(Country::from_value(&registry, 2).is_err());
    assert!(Country::from_value(&registry, 0).is_err());
    assert!(Country::from_value(&registry, 1000).is_err());
    assert!(Country::from_value(&registry, usize::MAX).is_err());
}

#[test]
fn unknown_keys_are_not_found() {
    let registry = standard();
    assert!(Country::from_str(&registry, "zzzznotacountry").is_err());
    assert!(Country::from_alpha2(&registry, "zz").is_err());
    assert!(Country::from_str(&registry, "").is_err());
    assert!(Country::from_alpha2(&registry, "").is_err());
    assert!(Country::from_name(&registry, " ").is_err());
}

#[test]
fn not_found_carries_the_input_and_the_space() {
    let registry = standard();
    let e = Country::from_alpha2(&registry, "Zz").unwrap_err();
    assert_eq!(e, NotFound { input: LookupInput::Text("Zz".to_string()), index_space: KeySpace::Alpha2 });
    assert_eq!(e.message(), "invalid alpha2");

    let e = Country::from_value(&registry, 3).unwrap_err();
    assert_eq!(e, NotFound { input: LookupInput::Number(3), index_space: KeySpace::NumericValue });
    assert_eq!(e.message(), "invalid value");

    let e = Country::from_code(&registry, "4").unwrap_err();
    assert_eq!(e.input, LookupInput::Text("4".to_string()));
    assert_eq!(e.index_space, KeySpace::NumericCode);
    assert_eq!(e.message(), "invalid code");

    let e = Country::from_alpha3(&registry, "us").unwrap_err();
    assert_eq!(e.index_space, KeySpace::Alpha3);
    assert_eq!(e.message(), "invalid alpha3");

    let e = Country::from_alias(&registry, "us").unwrap_err();
    assert_eq!(e.index_space, KeySpace::Alias);
    assert_eq!(e.message(), "invalid alias");

    let e = Country::from_name(&registry, "russianfederation").unwrap_err();
    assert_eq!(e.index_space, KeySpace::Name);
    assert_eq!(e.message(), "unknown value");

    let e = Country::from_str(&registry, "Hello World").unwrap_err();
    assert_eq!(e.input, LookupInput::Text("Hello World".to_string()));
    assert_eq!(e.index_space, KeySpace::Any);
    assert_eq!(e.message(), "unknown value");
}

#[test]
fn alpha2_in_any_case() {
    let registry = standard();
    let usa = Country::the_united_states_of_america();
    assert!(Country::from_alpha2(&registry, "u").is_err());
    assert_eq!(Country::from_alpha2(&registry, "us").unwrap(), usa);
    assert_eq!(Country::from_alpha2(&registry, "Us").unwrap(), usa);
    assert_eq!(Country::from_alpha2(&registry, "uS").unwrap(), usa);
    assert_eq!(Country::from_alpha2(&registry, "US").unwrap(), usa);
    assert!(Country::from_alpha2(&registry, "usa").is_err());
    assert!(Country::from_alpha2(&registry, " us").is_err());
    assert!(Country::from_alpha2(&registry, "us ").is_err());
}

#[test]
fn alpha3_in_any_case() {
    let registry = standard();
    let usa = Country::the_united_states_of_america();
    assert!(Country::from_alpha3(&registry, "u").is_err());
    assert!(Country::from_alpha3(&registry, "us").is_err());
    assert_eq!(Country::from_alpha3(&registry, "Usa").unwrap(), usa);
    assert_eq!(Country::from_alpha3(&registry, "uSa").unwrap(), usa);
    assert_eq!(Country::from_alpha3(&registry, "USA").unwrap(), usa);
}

#[test]
fn aliases_resolve_among_aliases_only() {
    let registry = standard();
    assert!(Country::from_alias(&registry, "u").is_err());
    assert!(Country::from_alias(&registry, "us").is_err());
    assert_eq!(Country::from_alias(&registry, "america").unwrap(), Country::the_united_states_of_america());
    assert_eq!(Country::from_alias(&registry, "russia").unwrap(), Country::the_russian_federation());
    assert_eq!(
        Country::from_alias(&registry, "england").unwrap(),
        Country::the_united_kingdom_of_great_britain_and_northern_ireland()
    );
    assert_eq!(Country::from_alias(&registry, "HOLLAND").unwrap(), Country::the_netherlands());
    assert!(Country::from_alias(&registry, "TheNetherlands").is_err());
    assert!(Country::from_alias(&registry, "NL").is_err());
    assert!(Country::from_alias(&registry, "528").is_err());
}

#[test]
fn names_resolve_among_names_only() {
    let registry = standard();
    assert!(Country::from_name(&registry, "russianfederation").is_err());
    assert!(Country::from_name(&registry, "unitedstatesofamerica").is_err());
    assert_eq!(Country::from_name(&registry, "Albania").unwrap(), Country::albania());
    assert_eq!(
        Country::from_name(&registry, "theunitedstatesofamerica").unwrap(),
        Country::the_united_states_of_america()
    );
    assert_eq!(Country::from_name(&registry, "therussianfederation").unwrap(), Country::the_russian_federation());
    assert_eq!(
        Country::from_name(&registry, "theunitedkingdomofgreatbritainandnorthernireland").unwrap(),
        Country::the_united_kingdom_of_great_britain_and_northern_ireland()
    );
    assert!(Country::from_name(&registry, "The Russian Federation").is_err());
    assert!(Country::from_name(&registry, "RU").is_err());
    assert_eq!(Country::from_name(&registry, "Taiwan,RepublicOfChina").unwrap(), Country::taiwan());
}

#[test]
fn any_key_resolves_in_the_unified_space() {
    let registry = standard();
    let usa = Country::the_united_states_of_america();
    assert_eq!(Country::from_str(&registry, "USA").unwrap().alpha2, "US");
    assert_eq!(Country::from_str(&registry, "US").unwrap().alpha2, "US");
    assert_eq!(Country::from_str(&registry, "America").unwrap().alpha2, "US");
    assert_eq!(Country::from_str(&registry, "UnitedStates").unwrap().alpha2, "US");
    assert_eq!(Country::from_str(&registry, "TheUnitedStatesOfAmerica").unwrap().alpha2, "US");
    assert_eq!(Country::from_str(&registry, "840").unwrap(), usa);

    assert_eq!(Country::from_str(&registry, "England").unwrap().alpha2, "GB");
    assert_eq!(Country::from_str(&registry, "gb").unwrap().alpha2, "GB");
    assert_eq!(Country::from_str(&registry, "Scotland").unwrap().alpha2, "GB");
    assert_eq!(
        Country::from_str(&registry, "TheUnitedKingdomOfGreatBritainAndNorthernIreland").unwrap().alpha2,
        "GB"
    );
    assert!(Country::from_str(&registry, "4").is_err());
    assert!(Country::from_str(&registry, "04").is_err());
}

#[test]
fn a_name_comes_before_an_alias_of_another_country() {
    let registry = standard();
    let american_samoa = Country::american_samoa();
    let samoa = Country::samoa();
    assert!(american_samoa.aliases.contains("Samoa"));
    assert_eq!(Country::from_alias(&registry, "Samoa").unwrap(), american_samoa);
    assert_eq!(Country::from_name(&registry, "Samoa").unwrap(), samoa);
    assert_eq!(Country::from_str(&registry, "Samoa").unwrap(), samoa);
    assert_eq!(Country::from_str(&registry, "samoa").unwrap(), samoa);
}

#[test]
fn case_variants_resolve_alike() {
    let registry = standard();
    let variants = ["unitedkingdom", "UNITEDKINGDOM", "UnitedKingdom", "uNiTeDkInGdOm"];
    for v in variants.iter() {
        assert_eq!(Country::from_alias(&registry, v).unwrap().alpha3, "GBR");
        assert_eq!(Country::from_str(&registry, v).unwrap().alpha3, "GBR");
    }
    for c in &Country::get_countries() {
        let lower = c.alpha3.to_ascii_lowercase();
        assert_eq!(Country::from_alpha3(&registry, &lower).unwrap(), *c);
        assert_eq!(Country::from_str(&registry, &lower).unwrap(), *c);
        let name = c.to_string().to_uppercase();
        assert_eq!(Country::from_name(&registry, &name).unwrap(), *c);
    }
}

#[test]
fn letters_beyond_ascii_fold_too() {
    let registry = standard();
    let turkey = Country::turkey();
    assert_eq!(turkey.long_name, "Türkiye");
    assert_eq!(Country::from_name(&registry, "Türkiye").unwrap(), turkey);
    assert_eq!(Country::from_name(&registry, "türkiye").unwrap(), turkey);
    assert_eq!(Country::from_name(&registry, "TÜRKIYE").unwrap(), turkey);
    assert_eq!(Country::from_str(&registry, "TÜRKIYE").unwrap(), turkey);
    assert!(Country::from_name(&registry, "Turkiye").is_err());
    assert!(Country::from_name(&registry, "Tu\u{308}rkiye").is_err());
    // U+212A, the Kelvin sign, folds to the letter k.
    assert_eq!(Country::from_alpha2(&registry, "\u{212A}z").unwrap(), Country::kazakhstan());
}

#[test]
fn old_names_still_resolve() {
    let registry = standard();
    let renamed = [
        ("Turkey", "Türkiye", "TR"),
        ("CzechRepublic", "Czechia", "CZ"),
        ("EastTimor", "TimorLeste", "TL"),
        ("Macedonia", "RepublicOfNorthMacedonia", "MK"),
    ];
    for (old, new, alpha2) in renamed.iter() {
        let by_old = Country::from_alias(&registry, old).unwrap();
        let by_new = Country::from_name(&registry, new).unwrap();
        assert_eq!(by_old, by_new);
        assert_eq!(by_old.alpha2, *alpha2);
        assert_eq!(Country::from_str(&registry, old).unwrap(), by_new);
        let marked: Vec<bool> =
            by_old.aliases.iter().filter(|a| a.text == *old).map(|a| a.deprecated).collect();
        assert_eq!(marked, vec![true]);
    }
}

#[test]
fn wire_form_round_trip() {
    let registry = standard();
    for c in &Country::get_countries() {
        assert_eq!(c.wire_form(), c.alpha2);
        assert_eq!(Country::from_wire(&registry, c.wire_form()).unwrap(), *c);
    }
    assert_eq!(Country::from_wire(&registry, "de").unwrap(), Country::germany());
}

#[test]
fn wire_form_that_names_no_country() {
    let registry = standard();
    let e: DecodeError = Country::from_wire(&registry, "ZZ").unwrap_err();
    assert_eq!(e.cause.input, LookupInput::Text("ZZ".to_string()));
    assert_eq!(e.cause.index_space, KeySpace::Alpha2);
    assert_eq!(e.expecting(), "a two letter string");
    assert!(Country::from_wire(&registry, "DEU").is_err());
    assert!(Country::from_wire(&registry, "Germany").is_err());
    assert!(Country::from_wire(&registry, "276").is_err());
}

#[test]
fn resolve_by_space() {
    let registry = standard();
    let chad = Country::chad();
    assert_eq!(registry.resolve(KeySpace::NumericCode, "148").unwrap(), chad);
    assert_eq!(registry.resolve(KeySpace::Alpha2, "td").unwrap(), chad);
    assert_eq!(registry.resolve(KeySpace::Alpha3, "tcd").unwrap(), chad);
    assert_eq!(registry.resolve(KeySpace::Name, "chad").unwrap(), chad);
    assert_eq!(registry.resolve(KeySpace::Any, "chad").unwrap(), chad);
    assert!(registry.resolve(KeySpace::Alias, "chad").is_err());
    assert!(registry.resolve(KeySpace::NumericValue, "148").is_err());
    assert_eq!(registry.resolve_value(148).unwrap(), chad);
}

#[test]
fn find_takes_the_key_as_it_is() {
    let registry = standard();
    assert_eq!(registry.find(KeySpace::Alpha2, b"af"), Some(0));
    assert_eq!(registry.find(KeySpace::Alpha2, b"AF"), None);
    assert_eq!(registry.find(KeySpace::Any, b"zwe"), Some(249));
    assert_eq!(registry.find(KeySpace::Any, "t\u{fc}rkiye".as_bytes()), registry.find(KeySpace::Name, "t\u{fc}rkiye".as_bytes()));
    assert_eq!(registry.find(KeySpace::NumericValue, b"004"), None);
    assert_eq!(registry.find_value(4), Some(0));
    assert_eq!(registry.find_value(5), None);
    assert_eq!(registry.get(0), Country::afghanistan());
}

#[test]
fn aliases_resolve_in_the_unified_space() {
    let registry = standard();
    let mut shadowed = Vec::new();
    for c in &Country::get_countries() {
        for alias in c.aliases.iter() {
            let found = Country::from_str(&registry, alias.text).unwrap();
            if found != *c {
                shadowed.push((alias.text, c.alpha2, found.alpha2));
            }
        }
    }
    // One alias is the name of another country, and the name comes first.
    assert_eq!(shadowed, vec![("Samoa", "AS", "WS")]);
}

#[test]
fn stored_keys_resolve_to_their_records() {
    let registry = standard();
    for (place, c) in Country::get_countries().iter().enumerate() {
        let key = c.name_key();
        assert_eq!(registry.find(KeySpace::Name, &key), Some(place));
        assert_eq!(registry.find(KeySpace::Any, &key), Some(place));
        let key = String::from_utf8(key).unwrap();
        assert_eq!(Country::from_name(&registry, &key).unwrap(), *c);
        assert_eq!(registry.find(KeySpace::NumericCode, c.code.as_bytes()), Some(place));
        assert_eq!(registry.find(KeySpace::Alpha2, c.alpha2.to_lowercase().as_bytes()), Some(place));
        assert_eq!(registry.find(KeySpace::Alpha3, c.alpha3.to_lowercase().as_bytes()), Some(place));
        assert_eq!(registry.find_value(c.value), Some(place));
    }
}
