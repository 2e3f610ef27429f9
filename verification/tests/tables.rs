//! Alias tables.
use celes::tables::{list_contains, list_deprecation, list_to_string, same_list, same_text};
use celes::{Alias, Country, CountryTable, EmptyLookupTable, LookupTable, EMPTY_LOOKUP_TABLE};
use std::cmp::Ordering;

#[test]
fn the_empty_table() {
    let empty = EmptyLookupTable;
    assert_eq!(empty.len(), 0);
    assert!(empty.is_empty());
    assert!(!empty.contains("samoa"));
    assert!(!empty.contains(""));
    assert_eq!(empty.iter().count(), 0);
    assert_eq!(empty.as_slice().len(), 0);
    assert_eq!(empty.into_country_table(), CountryTable::Empty(EmptyLookupTable));
    assert_eq!(CountryTable::from(empty), CountryTable::Empty(EmptyLookupTable));
    assert_eq!(empty.partial_cmp(&EmptyLookupTable), Some(Ordering::Equal));
    assert_eq!(empty, EmptyLookupTable::default());
}

#[test]
fn a_country_without_aliases() {
    let c = Country::afghanistan();
    assert_eq!(c.aliases.len(), 0);
    assert!(c.aliases.is_empty());
    assert!(!c.aliases.contains("Afghanistan"));
    assert_eq!(c.aliases.iter().count(), 0);
}

#[test]
fn the_aliases_of_the_united_kingdom() {
    let gb = Country::the_united_kingdom_of_great_britain_and_northern_ireland();
    assert_eq!(gb.aliases.len(), 7);
    assert!(!gb.aliases.is_empty());
    let texts: Vec<&str> = gb.aliases.iter().map(|a| a.text).collect();
    assert_eq!(
        texts,
        vec![
            "England",
            "Scotland",
            "GreatBritain",
            "UnitedKingdom",
            "NorthernIreland",
            "UnitedKingdomOfGreatBritain",
            "UnitedKingdomOfGreatBritainAndNorthernIreland"
        ]
    );
    assert!(gb.aliases.iter().all(|a| !a.deprecated));
    assert!(gb.aliases.contains("england"));
    assert!(gb.aliases.contains("ENGLAND"));
    assert!(gb.aliases.contains("Scotland"));
    assert!(!gb.aliases.contains("Wales"));
    assert!(!gb.aliases.contains("Great Britain"));
}

#[test]
fn contains_sets_case_aside() {
    let islands = Country::heard_island_and_mc_donald_islands();
    assert!(islands.aliases.contains("McDonaldIslands"));
    assert!(islands.aliases.contains("mcdonaldislands"));
    assert!(islands.aliases.contains("MCDONALDISLANDS"));
    assert!(islands.aliases.contains("heardisland"));
    assert!(!islands.aliases.contains("heard"));
    static LIST: [Alias; 1] = [Alias { text: "Åland", deprecated: false }];
    assert!(list_contains(&LIST, "ÅLAND"));
    assert!(list_contains(&LIST, "åland"));
    assert!(!list_contains(&LIST, "aland"));
    assert!(!list_contains(&[], "aland"));
}

#[test]
fn there_are_80_aliases_and_4_old_names() {
    let all = Country::get_countries();
    let aliases: usize = all.iter().map(|c| c.aliases.len()).sum();
    assert_eq!(aliases, 80);
    let with_aliases = all.iter().filter(|c| !c.aliases.is_empty()).count();
    assert_eq!(with_aliases, 56);
    let mut old: Vec<&str> =
        all.iter().flat_map(|c| c.aliases.iter()).filter(|a| a.deprecated).map(|a| a.text).collect();
    old.sort();
    assert_eq!(old, vec!["CzechRepublic", "EastTimor", "Macedonia", "Turkey"]);
    for c in all.iter() {
        for a in c.aliases.iter() {
            assert!(!a.text.contains(' '));
            assert!(!a.text.is_empty());
        }
    }
}

#[test]
fn tables_are_equal_when_their_entries_are() {
    static A: [Alias; 2] = [Alias { text: "One", deprecated: false }, Alias { text: "Two", deprecated: true }];
    static B: [Alias; 2] = [Alias { text: "One", deprecated: false }, Alias { text: "Two", deprecated: true }];
    static C: [Alias; 2] = [Alias { text: "One", deprecated: false }, Alias { text: "Two", deprecated: false }];
    static D: [Alias; 1] = [Alias { text: "One", deprecated: false }];
    static E: [Alias; 2] = [Alias { text: "Two", deprecated: true }, Alias { text: "One", deprecated: false }];
    assert_eq!(CountryTable::Aliases(&A), CountryTable::Aliases(&B));
    assert_ne!(CountryTable::Aliases(&A), CountryTable::Aliases(&C));
    assert_ne!(CountryTable::Aliases(&A), CountryTable::Aliases(&D));
    assert_ne!(CountryTable::Aliases(&A), CountryTable::Aliases(&E));
    assert_ne!(CountryTable::Aliases(&A), CountryTable::Empty(EmptyLookupTable));
    assert_eq!(CountryTable::Aliases(&[]), CountryTable::Empty(EmptyLookupTable));
    assert!(same_list(&A, &B));
    assert!(!same_list(&A, &C));
    assert!(same_list(&[], &[]));
    assert_eq!(A[0], B[0]);
    assert_ne!(A[1], C[1]);
    assert_ne!(A[0], A[1]);
}

#[test]
fn texts_are_compared_by_their_characters() {
    assert!(same_text("", ""));
    assert!(same_text("Türkiye", "T\u{fc}rkiye"));
    assert!(!same_text("Türkiye", "Turkiye"));
    assert!(!same_text("AF", "af"));
    assert!(!same_text("AF", "AFG"));
}

#[test]
fn tables_are_ordered_by_length_then_by_entries() {
    static A: [Alias; 1] = [Alias { text: "Zed", deprecated: false }];
    static B: [Alias; 2] = [Alias { text: "Alpha", deprecated: false }, Alias { text: "Beta", deprecated: false }];
    static C: [Alias; 2] = [Alias { text: "Alpha", deprecated: false }, Alias { text: "Gamma", deprecated: false }];
    static D: [Alias; 2] = [Alias { text: "Alpha", deprecated: false }, Alias { text: "Beta", deprecated: true }];
    let empty = CountryTable::Empty(EmptyLookupTable);
    let a = CountryTable::Aliases(&A);
    let b = CountryTable::Aliases(&B);
    let c = CountryTable::Aliases(&C);
    let d = CountryTable::Aliases(&D);
    assert_eq!(empty.partial_cmp(&a), Some(Ordering::Less));
    assert_eq!(a.partial_cmp(&empty), Some(Ordering::Greater));
    assert_eq!(empty.partial_cmp(&empty), Some(Ordering::Equal));
    assert_eq!(a.partial_cmp(&b), Some(Ordering::Less));
    assert_eq!(b.partial_cmp(&c), Some(Ordering::Less));
    assert_eq!(c.partial_cmp(&b), Some(Ordering::Greater));
    assert_eq!(b.partial_cmp(&b), Some(Ordering::Equal));
    assert_eq!(b.partial_cmp(&d), Some(Ordering::Less));
    assert_eq!(d.partial_cmp(&b), Some(Ordering::Greater));
    assert!(a < b);
    assert!(B[0] < B[1]);
    assert!(B[1] < D[1]);
    assert_eq!(B[0].partial_cmp(&C[0]), Some(Ordering::Equal));
}

#[test]
fn a_table_is_shown_in_brackets() {
    assert_eq!(EmptyLookupTable.to_string(), "[]");
    assert_eq!(Country::afghanistan().aliases.to_string(), "[]");
    assert_eq!(Country::american_samoa().aliases.to_string(), "[Samoa]");
    assert_eq!(Country::the_netherlands().aliases.to_string(), "[Netherlands,Holland]");
    assert_eq!(
        Country::the_united_states_of_america().aliases.to_string(),
        "[America,UnitedStates,UnitedStatesOfAmerica]"
    );
    assert_eq!(list_to_string(&[]), "[]");
    static LIST: [Alias; 2] = [Alias { text: "Å", deprecated: true }, Alias { text: "", deprecated: false }];
    assert_eq!(list_to_string(&LIST), "[Å,]");
}

#[test]
fn the_empty_table_as_a_constant() {
    assert_eq!(EMPTY_LOOKUP_TABLE, EmptyLookupTable);
    assert_eq!(EMPTY_LOOKUP_TABLE.len(), 0);
    assert_eq!(EMPTY_LOOKUP_TABLE.into_country_table(), Country::afghanistan().aliases);
}

#[test]
fn the_mark_of_an_alias() {
    let turkey = Country::turkey();
    assert_eq!(turkey.aliases.deprecation("Turkey"), Some(true));
    assert_eq!(turkey.aliases.deprecation("TURKEY"), Some(true));
    assert_eq!(turkey.aliases.deprecation("Türkiye"), None);
    let netherlands = Country::the_netherlands();
    assert_eq!(netherlands.aliases.deprecation("holland"), Some(false));
    assert_eq!(netherlands.aliases.deprecation("Netherlands"), Some(false));
    assert_eq!(netherlands.aliases.deprecation("Dutchland"), None);
    assert_eq!(EmptyLookupTable.deprecation("holland"), None);
    assert_eq!(Country::czechia().aliases.deprecation("czechrepublic"), Some(true));
    assert_eq!(Country::timor_leste().aliases.deprecation("EastTimor"), Some(true));
    assert_eq!(Country::republic_of_north_macedonia().aliases.deprecation("Macedonia"), Some(true));
    // Where a list holds an alias twice, the first entry counts.
    static TWICE: [Alias; 3] = [
        Alias { text: "Other", deprecated: false },
        Alias { text: "Same", deprecated: true },
        Alias { text: "SAME", deprecated: false },
    ];
    assert_eq!(list_deprecation(&TWICE, "same"), Some(true));
    assert_eq!(list_deprecation(&TWICE, "other"), Some(false));
    assert_eq!(list_deprecation(&TWICE, ""), None);
    assert_eq!(list_deprecation(&[], "same"), None);
}
