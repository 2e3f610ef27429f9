//! What holds of every valid registry.
//!
//! The laws speak of lists of records and of `resolution`, of which the
//! contracts of the resolvers speak too.

use crate::country::CountryView;
use crate::key::{
    fold_case, key_bytes, lemma_fold_case_idempotent_ascii, lemma_key_bytes_equal,
    same_ignoring_case,
};
use crate::shape::{
    all_well_formed, lemma_digits_fold_to_themselves, lemma_each_well_formed,
    lemma_spelling_is_one_to_one, spells,
};
use crate::spaces::{
    collide, first_holder, holds_key, is_first_with_value, key_resolution,
    lemma_collide_is_shared_key, lemma_first_holder, lemma_first_holder_is, lemma_first_with_value,
    lemma_no_holder, lemma_no_value, resolution, texts_of, unique_in, valid_registry,
    value_resolution, KeySpace,
};
use crate::tables::AliasView;
use vstd::prelude::*;
use vstd::utf8::is_ascii_chars;

verus! {

/// In a valid registry every record is what its own numeric code, its
/// letter codes and its name resolve to, in whatever case of letters they
/// are written.
pub proof fn lemma_round_trip(records: Seq<CountryView>, space: KeySpace, i: int, input: Seq<char>)
    requires
        valid_registry(records),
        0 <= i < records.len(),
        space.is_exclusive(),
        space.is_text(),
        same_ignoring_case(input, texts_of(records[i], space)[0]),
    ensures
        resolution(records, space, input) == Some(i),
{
    let key = key_bytes(input);
    lemma_collide_is_shared_key(records[i], records[i], space);
    lemma_key_bytes_equal(input, texts_of(records[i], space)[0]);
    assert(key_bytes(texts_of(records[i], space)[0]) == key);
    assert(holds_key(records[i], space, key));
    assert(unique_in(records, space));
    assert forall|j: int| 0 <= j < i implies !holds_key(#[trigger] records[j], space, key) by {
        lemma_collide_is_shared_key(records[j], records[i], space);
        assert(!collide(records[j], records[i], space));
    }
    lemma_first_holder(records, space, key, i);
}

/// In a valid registry every record is what the number of its numeric code
/// resolves to.
pub proof fn lemma_value_round_trip(records: Seq<CountryView>, i: int)
    requires
        valid_registry(records),
        0 <= i < records.len(),
    ensures
        value_resolution(records, records[i].value) == Some(i),
{
    assert(KeySpace::NumericValue.is_exclusive());
    assert(unique_in(records, KeySpace::NumericValue));
    assert forall|j: int| 0 <= j < i implies (#[trigger] records[j]).value != records[i].value by {
        assert(!collide(records[j], records[i], KeySpace::NumericValue));
    }
    lemma_first_with_value(records, records[i].value, i);
}

/// Among well-formed records a number resolves as the three digits that
/// spell it do: the numeric value and the numeric code lead to one record,
/// or both to none.
pub proof fn lemma_number_resolves_as_code(records: Seq<CountryView>, code: Seq<char>, value: nat)
    requires
        all_well_formed(records),
        spells(code, value),
    ensures
        value_resolution(records, value) == resolution(records, KeySpace::NumericCode, code),
{
    let key = key_bytes(code);
    lemma_digits_fold_to_themselves(code, value);
    assert forall|i: int| 0 <= i < records.len() implies (holds_key(
        #[trigger] records[i],
        KeySpace::NumericCode,
        key,
    ) <==> records[i].value == value) by {
        lemma_each_well_formed(records, i);
        reveal(CountryView::well_formed);
        let own = records[i].code;
        lemma_digits_fold_to_themselves(own, records[i].value);
        lemma_spelling_is_one_to_one(own, records[i].value, code, value);
        lemma_key_bytes_equal(own, code);
        assert(texts_of(records[i], KeySpace::NumericCode)[0] == own);
        if holds_key(records[i], KeySpace::NumericCode, key) {
            let t = choose|t: int|
                0 <= t < texts_of(records[i], KeySpace::NumericCode).len() && t < texts_of(
                    records[i],
                    KeySpace::NumericCode,
                ).len() && key_bytes(#[trigger] texts_of(records[i], KeySpace::NumericCode)[t])
                    == key;
            assert(t == 0);
        }
    }
    lemma_first_holder_is(records, KeySpace::NumericCode, key);
    match first_holder(records, KeySpace::NumericCode, key) {
        Some(i) => {
            assert forall|j: int| 0 <= j < i implies (#[trigger] records[j]).value != value by {
                assert(!holds_key(records[j], KeySpace::NumericCode, key));
            }
            lemma_first_with_value(records, value, i);
        },
        None => {
            assert forall|j: int| 0 <= j < records.len() implies (#[trigger] records[j]).value
                != value by {
                assert(!holds_key(records[j], KeySpace::NumericCode, key));
            }
            lemma_no_value(records, value);
        },
    }
}

/// The key under which a record is stored resolves to the record, where
/// the text it was made from is ASCII: a stored ASCII key is its own key.
pub proof fn lemma_stored_key_round_trip(records: Seq<CountryView>, space: KeySpace, i: int)
    requires
        valid_registry(records),
        0 <= i < records.len(),
        space.is_exclusive(),
        space.is_text(),
        is_ascii_chars(texts_of(records[i], space)[0]),
    ensures
        resolution(records, space, fold_case(texts_of(records[i], space)[0])) == Some(i),
{
    lemma_fold_case_idempotent_ascii(texts_of(records[i], space)[0]);
    lemma_round_trip(records, space, i, fold_case(texts_of(records[i], space)[0]));
}

/// An alias resolves to the first record that has it, in whatever case of
/// letters it is written.
pub proof fn lemma_alias_round_trip(records: Seq<CountryView>, i: int, t: int, input: Seq<char>)
    requires
        0 <= i < records.len(),
        0 <= t < records[i].aliases.len(),
        same_ignoring_case(input, records[i].aliases[t].text),
        forall|j: int|
            0 <= j < i ==> !holds_key(#[trigger] records[j], KeySpace::Alias, key_bytes(input)),
    ensures
        resolution(records, KeySpace::Alias, input) == Some(i),
{
    let key = key_bytes(input);
    let texts = texts_of(records[i], KeySpace::Alias);
    lemma_key_bytes_equal(input, records[i].aliases[t].text);
    assert(texts[t] == records[i].aliases[t].text);
    assert(key_bytes(texts[t]) == key);
    assert(holds_key(records[i], KeySpace::Alias, key));
    lemma_first_holder(records, KeySpace::Alias, key, i);
}

/// Whether the record at `i` is shadowed for `key`: whether another record
/// holds the key as a numeric code, a letter code or a name, in a space
/// that is searched before every such space in which the record at `i`
/// holds it.
pub open spec fn is_shadowed(records: Seq<CountryView>, i: int, key: Seq<u8>) -> bool {
    exists|j: int, space: KeySpace|
        0 <= j < records.len() && j != i && space.is_exclusive() && #[trigger] holds_key(
            records[j],
            space,
            key,
        ) && forall|before: KeySpace|
            before.is_exclusive() && before.rank() < space.rank() ==> !#[trigger] holds_key(
                records[i],
                before,
                key,
            )
}

/// An alias resolves in the unified space to the first record that has it,
/// unless that record is shadowed for the alias: the numeric codes, the
/// letter codes and the names are searched before the aliases.
pub proof fn lemma_alias_resolves_anywhere(
    records: Seq<CountryView>,
    i: int,
    t: int,
    input: Seq<char>,
)
    requires
        valid_registry(records),
        0 <= i < records.len(),
        0 <= t < records[i].aliases.len(),
        same_ignoring_case(input, records[i].aliases[t].text),
        forall|j: int|
            0 <= j < i ==> !holds_key(#[trigger] records[j], KeySpace::Alias, key_bytes(input)),
        !is_shadowed(records, i, key_bytes(input)),
    ensures
        resolution(records, KeySpace::Any, input) == Some(i),
{
    let key = key_bytes(input);
    lemma_alias_round_trip(records, i, t, input);
    lemma_sole_holder(records, KeySpace::NumericCode, key);
    lemma_sole_holder(records, KeySpace::Alpha2, key);
    lemma_sole_holder(records, KeySpace::Alpha3, key);
    lemma_sole_holder(records, KeySpace::Name, key);
    lemma_first_holder_is(records, KeySpace::NumericCode, key);
    lemma_first_holder_is(records, KeySpace::Alpha2, key);
    lemma_first_holder_is(records, KeySpace::Alpha3, key);
    lemma_first_holder_is(records, KeySpace::Name, key);
    let code = first_holder(records, KeySpace::NumericCode, key);
    let alpha2 = first_holder(records, KeySpace::Alpha2, key);
    let alpha3 = first_holder(records, KeySpace::Alpha3, key);
    let name = first_holder(records, KeySpace::Name, key);
    assert(!holds_key(records[i], KeySpace::NumericValue, key));
    let found = if code is Some {
        KeySpace::NumericCode
    } else if alpha2 is Some {
        KeySpace::Alpha2
    } else if alpha3 is Some {
        KeySpace::Alpha3
    } else {
        KeySpace::Name
    };
    let first = first_holder(records, found, key);
    if first is Some && first != Some(i) {
        let j = first->0;
        assert(holds_key(records[j], found, key));
        assert forall|before: KeySpace|
            before.is_exclusive() && before.rank() < found.rank() implies !#[trigger] holds_key(
            records[i],
            before,
            key,
        ) by {
            assert(before == KeySpace::NumericValue || before == KeySpace::NumericCode || before
                == KeySpace::Alpha2 || before == KeySpace::Alpha3);
        }
        assert(is_shadowed(records, i, key));
    }
}

/// A record that is shadowed for a key is not what the key resolves to in
/// the unified space.
pub proof fn lemma_shadowed_is_not_found(records: Seq<CountryView>, i: int, key: Seq<u8>)
    requires
        valid_registry(records),
        0 <= i < records.len(),
        is_shadowed(records, i, key),
    ensures
        key_resolution(records, KeySpace::Any, key) != Some(i),
{
    let (j, space) = choose|j: int, space: KeySpace|
        0 <= j < records.len() && j != i && space.is_exclusive() && #[trigger] holds_key(
            records[j],
            space,
            key,
        ) && forall|before: KeySpace|
            before.is_exclusive() && before.rank() < space.rank() ==> !#[trigger] holds_key(
                records[i],
                before,
                key,
            );
    assert(space != KeySpace::NumericValue);
    lemma_sole_holder(records, KeySpace::NumericCode, key);
    lemma_sole_holder(records, KeySpace::Alpha2, key);
    lemma_sole_holder(records, KeySpace::Alpha3, key);
    lemma_sole_holder(records, KeySpace::Name, key);
    assert(KeySpace::NumericCode.is_exclusive());
    assert(KeySpace::Alpha2.is_exclusive());
    assert(KeySpace::Alpha3.is_exclusive());
    assert(KeySpace::Name.is_exclusive());
    assert(first_holder(records, space, key) == Some(j));
    if key_resolution(records, KeySpace::Any, key) == Some(i) {
        let code = first_holder(records, KeySpace::NumericCode, key);
        let alpha2 = first_holder(records, KeySpace::Alpha2, key);
        let alpha3 = first_holder(records, KeySpace::Alpha3, key);
        if code is Some {
            assert(holds_key(records[i], KeySpace::NumericCode, key));
            assert(KeySpace::NumericCode.rank() < space.rank() || space == KeySpace::NumericCode);
        } else if alpha2 is Some {
            assert(holds_key(records[i], KeySpace::Alpha2, key));
            assert(KeySpace::Alpha2.rank() < space.rank() || space == KeySpace::Alpha2);
        } else if alpha3 is Some {
            assert(holds_key(records[i], KeySpace::Alpha3, key));
            assert(KeySpace::Alpha3.rank() < space.rank() || space == KeySpace::Alpha3);
        } else {
            assert(space == KeySpace::Name);
        }
    }
}

/// In an exclusive text space of a valid registry at most one record holds
/// a key: the one that the key resolves to, and where it resolves to none,
/// none.
proof fn lemma_sole_holder(records: Seq<CountryView>, space: KeySpace, key: Seq<u8>)
    requires
        valid_registry(records),
        space.is_exclusive(),
        space.is_text(),
    ensures
        forall|j: int|
            0 <= j < records.len() && holds_key(#[trigger] records[j], space, key)
                ==> first_holder(records, space, key) == Some(j),
        first_holder(records, space, key) matches Some(f) ==> 0 <= f < records.len() && holds_key(
            records[f],
            space,
            key,
        ),
{
    lemma_first_holder_is(records, space, key);
    assert(unique_in(records, space));
    assert forall|j: int|
        0 <= j < records.len() && holds_key(#[trigger] records[j], space, key) implies first_holder(
        records,
        space,
        key,
    ) == Some(j) by {
        let f = first_holder(records, space, key)->0;
        if f != j {
            lemma_collide_is_shared_key(records[f], records[j], space);
            lemma_collide_is_shared_key(records[j], records[f], space);
            lemma_holds_own_key(records[f], space, key);
            lemma_holds_own_key(records[j], space, key);
            if f < j {
                assert(!collide(records[f], records[j], space));
            } else {
                assert(!collide(records[j], records[f], space));
            }
        }
    }
}

/// In an exclusive text space the key that a record holds is the key of its
/// one text.
proof fn lemma_holds_own_key(c: CountryView, space: KeySpace, key: Seq<u8>)
    requires
        space.is_exclusive(),
        space.is_text(),
        holds_key(c, space, key),
    ensures
        key == key_bytes(texts_of(c, space)[0]),
{
    let t = choose|t: int|
        0 <= t < texts_of(c, space).len() && t < texts_of(c, space).len() && key_bytes(
            #[trigger] texts_of(c, space)[t],
        ) == key;
    assert(t == 0);
}

/// Two inputs that differ in the case of letters only resolve alike, in
/// every space and every list of records.
pub proof fn lemma_case_insensitive(
    records: Seq<CountryView>,
    space: KeySpace,
    a: Seq<char>,
    b: Seq<char>,
)
    requires
        same_ignoring_case(a, b),
    ensures
        resolution(records, space, a) == resolution(records, space, b),
{
    lemma_key_bytes_equal(a, b);
}

/// No two records of a valid registry share a numeric value, a numeric
/// code, a two-letter code, a three-letter code or a name.
pub proof fn lemma_unique_keys(records: Seq<CountryView>, i: int, j: int)
    requires
        valid_registry(records),
        0 <= i < records.len(),
        0 <= j < records.len(),
        i != j,
    ensures
        records[i].value != records[j].value,
        records[i].code != records[j].code,
        records[i].alpha2 != records[j].alpha2,
        records[i].alpha3 != records[j].alpha3,
        records[i].long_name != records[j].long_name,
        forall|space: KeySpace| #[trigger]
            space.is_exclusive() ==> !collide(records[i], records[j], space),
{
    assert forall|space: KeySpace| #[trigger] space.is_exclusive() implies !collide(
        records[i],
        records[j],
        space,
    ) by {
        assert(unique_in(records, space));
        if i < j {
            assert(!collide(records[i], records[j], space));
        } else {
            assert(!collide(records[j], records[i], space));
        }
    }
    assert(KeySpace::NumericValue.is_exclusive());
    assert(KeySpace::NumericCode.is_exclusive());
    assert(KeySpace::Alpha2.is_exclusive());
    assert(KeySpace::Alpha3.is_exclusive());
    assert(KeySpace::Name.is_exclusive());
    assert(!collide(records[i], records[j], KeySpace::NumericValue));
    assert(!collide(records[i], records[j], KeySpace::NumericCode));
    assert(!collide(records[i], records[j], KeySpace::Alpha2));
    assert(!collide(records[i], records[j], KeySpace::Alpha3));
    assert(!collide(records[i], records[j], KeySpace::Name));
}

/// Two records of a valid registry hold the same exactly when they are one
/// record: lookups that lead to one place give equal records, and lookups
/// that lead to two places give records that differ.
pub proof fn lemma_equality_is_identity(records: Seq<CountryView>, i: int, j: int)
    requires
        valid_registry(records),
        0 <= i < records.len(),
        0 <= j < records.len(),
    ensures
        records[i] == records[j] <==> i == j,
{
    if i != j {
        lemma_unique_keys(records, i, j);
    }
}

/// Whether two lists of records differ in nothing but the marks that say
/// which aliases are deprecated.
pub open spec fn same_but_for_deprecation(a: Seq<CountryView>, b: Seq<CountryView>) -> bool {
    &&& a.len() == b.len()
    &&& forall|i: int|
        0 <= i < a.len() ==> {
            &&& (#[trigger] a[i]).code == b[i].code
            &&& a[i].value == b[i].value
            &&& a[i].alpha2 == b[i].alpha2
            &&& a[i].alpha3 == b[i].alpha3
            &&& a[i].long_name == b[i].long_name
            &&& a[i].aliases.len() == b[i].aliases.len()
            &&& forall|t: int|
                0 <= t < a[i].aliases.len() ==> (#[trigger] a[i].aliases[t]).text
                    == b[i].aliases[t].text
        }
}

/// Whether an alias is deprecated has no part in resolution: lists of
/// records that differ in those marks only resolve every key alike.
pub proof fn lemma_deprecation_is_metadata(
    a: Seq<CountryView>,
    b: Seq<CountryView>,
    space: KeySpace,
    key: Seq<u8>,
    value: nat,
)
    requires
        same_but_for_deprecation(a, b),
    ensures
        key_resolution(a, space, key) == key_resolution(b, space, key),
        value_resolution(a, value) == value_resolution(b, value),
{
    assert forall|i: int, s: KeySpace| 0 <= i < a.len() implies #[trigger] texts_of(a[i], s)
        == texts_of(b[i], s) by {
        let x = a[i].aliases.map_values(|e: AliasView| e.text);
        let y = b[i].aliases.map_values(|e: AliasView| e.text);
        assert forall|t: int| 0 <= t < x.len() implies x[t] == y[t] by {
            assert(a[i].aliases[t].text == b[i].aliases[t].text);
        }
        assert(x =~= y);
    }
    assert forall|s: KeySpace| #[trigger] first_holder(a, s, key) == first_holder(b, s, key) by {
        lemma_same_texts_same_holder(a, b, s, key);
    }
    assert forall|i: int| is_first_with_value(a, value, i) == is_first_with_value(b, value, i) by {
        if is_first_with_value(a, value, i) {
            assert forall|j: int| 0 <= j < i implies (#[trigger] b[j]).value != value by {
                assert(a[j].value != value);
            }
        }
        if is_first_with_value(b, value, i) {
            assert forall|j: int| 0 <= j < i implies (#[trigger] a[j]).value != value by {
                assert(b[j].value != value);
            }
        }
    }
}

/// Lists of records that register the same texts have the same first
/// holder of every key.
proof fn lemma_same_texts_same_holder(
    a: Seq<CountryView>,
    b: Seq<CountryView>,
    space: KeySpace,
    key: Seq<u8>,
)
    requires
        a.len() == b.len(),
        forall|i: int| 0 <= i < a.len() ==> #[trigger] texts_of(a[i], space) == texts_of(b[i], space),
    ensures
        first_holder(a, space, key) == first_holder(b, space, key),
{
    assert forall|i: int| 0 <= i < a.len() implies holds_key(#[trigger] a[i], space, key)
        == holds_key(b[i], space, key) by {
        assert(texts_of(a[i], space) == texts_of(b[i], space));
    }
    lemma_first_holder_is(a, space, key);
    match first_holder(a, space, key) {
        Some(i) => {
            assert forall|j: int| 0 <= j < i implies !holds_key(#[trigger] b[j], space, key) by {
                assert(!holds_key(a[j], space, key));
            }
            assert(holds_key(a[i], space, key));
            lemma_first_holder(b, space, key, i);
        },
        None => {
            assert forall|j: int| 0 <= j < b.len() implies !holds_key(
                #[trigger] b[j],
                space,
                key,
            ) by {
                assert(!holds_key(a[j], space, key));
            }
            lemma_no_holder(b, space, key);
        },
    }
}

/// A name that a country no longer goes by still resolves to the record
/// of the country: the alias that keeps the old name leads where the name
/// of today leads.
pub proof fn lemma_deprecated_alias_stable(records: Seq<CountryView>, i: int, t: int)
    requires
        valid_registry(records),
        0 <= i < records.len(),
        0 <= t < records[i].aliases.len(),
        records[i].aliases[t].deprecated,
        forall|j: int|
            0 <= j < i ==> !holds_key(
                #[trigger] records[j],
                KeySpace::Alias,
                key_bytes(records[i].aliases[t].text),
            ),
    ensures
        resolution(records, KeySpace::Alias, records[i].aliases[t].text) == Some(i),
        resolution(records, KeySpace::Alias, records[i].aliases[t].text) == resolution(
            records,
            KeySpace::Name,
            records[i].display_name(),
        ),
{
    lemma_alias_round_trip(records, i, t, records[i].aliases[t].text);
    assert(texts_of(records[i], KeySpace::Name)[0] == records[i].display_name());
    lemma_round_trip(records, KeySpace::Name, i, records[i].display_name());
}

/// The wire form of a record of a valid registry decodes to the record.
pub proof fn lemma_wire_round_trip(records: Seq<CountryView>, i: int)
    requires
        valid_registry(records),
        0 <= i < records.len(),
    ensures
        resolution(records, KeySpace::Alpha2, records[i].wire_form()) == Some(i),
{
    assert(texts_of(records[i], KeySpace::Alpha2)[0] == records[i].alpha2);
    lemma_round_trip(records, KeySpace::Alpha2, i, records[i].wire_form());
}

} // verus!
