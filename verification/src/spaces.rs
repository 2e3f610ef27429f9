//! The key spaces of the registry, and what it means for a list of records
//! to resolve a key.
//!
//! A record registers in five spaces of text keys: its numeric code, its
//! two-letter code, its three-letter code, its name and its aliases. In a
//! sixth space it registers the number that its numeric code spells. The
//! unified space is the union of the five text spaces, searched in that
//! order. Within a space the record that stands first in the list wins.

use crate::country::CountryView;
use crate::key::{key_bytes, lemma_key_bytes_equal, same_ignoring_case};
use crate::tables::AliasView;
use vstd::prelude::*;

verus! {

/// A space of keys in which records can be looked up.
#[derive(Clone, Copy, Debug, PartialEq, Eq, Structural, Hash)]
pub enum KeySpace {
    /// The numeric code as a number.
    NumericValue,
    /// The numeric code as three digits.
    NumericCode,
    /// The two-letter code.
    Alpha2,
    /// The three-letter code.
    Alpha3,
    /// The name, written without spaces.
    Name,
    /// The aliases.
    Alias,
    /// The numeric code, the letter codes, the name and the aliases
    /// together.
    Any,
}

impl KeySpace {
    /// Whether the keys of the space are texts that records register.
    pub open spec fn is_text(self) -> bool {
        self is NumericCode || self is Alpha2 || self is Alpha3 || self is Name || self is Alias
    }

    /// Whether no two records of a registry may share a key of the space.
    pub open spec fn is_exclusive(self) -> bool {
        self is NumericValue || self is NumericCode || self is Alpha2 || self is Alpha3
            || self is Name
    }

    /// Whether no two records of a registry may share a key of the space.
    pub fn exclusive(self) -> (r: bool)
        ensures
            r == self.is_exclusive(),
    {
        match self {
            KeySpace::Alias => false,
            KeySpace::Any => false,
            _ => true,
        }
    }

    /// The place of the space in the order in which the spaces are built
    /// and searched.
    pub open spec fn rank(self) -> int {
        match self {
            KeySpace::NumericValue => 0,
            KeySpace::NumericCode => 1,
            KeySpace::Alpha2 => 2,
            KeySpace::Alpha3 => 3,
            KeySpace::Name => 4,
            KeySpace::Alias => 5,
            KeySpace::Any => 6,
        }
    }
}

/// The texts under which a record registers in a space, in the order in
/// which it registers them.
pub open spec fn texts_of(c: CountryView, space: KeySpace) -> Seq<Seq<char>> {
    match space {
        KeySpace::NumericCode => seq![c.code],
        KeySpace::Alpha2 => seq![c.alpha2],
        KeySpace::Alpha3 => seq![c.alpha3],
        KeySpace::Name => seq![c.display_name()],
        KeySpace::Alias => c.aliases.map_values(|a: AliasView| a.text),
        KeySpace::NumericValue => Seq::empty(),
        KeySpace::Any => Seq::empty(),
    }
}

/// Whether `key` is the key of one of the first `limit` texts under which
/// the record registers in the space.
pub open spec fn holds_key_within(c: CountryView, space: KeySpace, key: Seq<u8>, limit: int) -> bool {
    exists|t: int|
        0 <= t < limit && t < texts_of(c, space).len() && key_bytes(
            #[trigger] texts_of(c, space)[t],
        ) == key
}

/// Whether `key` is the key of a text under which the record registers in
/// the space.
pub open spec fn holds_key(c: CountryView, space: KeySpace, key: Seq<u8>) -> bool {
    holds_key_within(c, space, key, texts_of(c, space).len() as int)
}

/// Whether the record at `i` is the first of `records` to hold `key` in
/// the space.
pub open spec fn is_first_holder(
    records: Seq<CountryView>,
    space: KeySpace,
    key: Seq<u8>,
    i: int,
) -> bool {
    &&& 0 <= i < records.len()
    &&& holds_key(records[i], space, key)
    &&& forall|j: int| 0 <= j < i ==> !holds_key(#[trigger] records[j], space, key)
}

/// The place of the first of `records` that holds `key` in the space.
pub open spec fn first_holder(records: Seq<CountryView>, space: KeySpace, key: Seq<u8>) -> Option<
    int,
> {
    if exists|i: int| is_first_holder(records, space, key, i) {
        Some(choose|i: int| is_first_holder(records, space, key, i))
    } else {
        None
    }
}

/// The first of two answers that is one.
pub open spec fn or_else(first: Option<int>, second: Option<int>) -> Option<int> {
    if first is Some {
        first
    } else {
        second
    }
}

/// The place of the record that a key resolves to in a space: in a text
/// space the first record that holds the key; in the unified space what the
/// first text space with an answer gives.
pub open spec fn key_resolution(records: Seq<CountryView>, space: KeySpace, key: Seq<u8>) -> Option<
    int,
> {
    match space {
        KeySpace::NumericValue => None,
        KeySpace::Any => or_else(
            first_holder(records, KeySpace::NumericCode, key),
            or_else(
                first_holder(records, KeySpace::Alpha2, key),
                or_else(
                    first_holder(records, KeySpace::Alpha3, key),
                    or_else(
                        first_holder(records, KeySpace::Name, key),
                        first_holder(records, KeySpace::Alias, key),
                    ),
                ),
            ),
        ),
        _ => first_holder(records, space, key),
    }
}

/// The place of the record that an input resolves to in a space.
pub open spec fn resolution(records: Seq<CountryView>, space: KeySpace, input: Seq<char>) -> Option<
    int,
> {
    key_resolution(records, space, key_bytes(input))
}

/// Whether the record at `i` is the first of `records` whose numeric code
/// spells `value`.
pub open spec fn is_first_with_value(records: Seq<CountryView>, value: nat, i: int) -> bool {
    &&& 0 <= i < records.len()
    &&& records[i].value == value
    &&& forall|j: int| 0 <= j < i ==> (#[trigger] records[j]).value != value
}

/// The place of the record that a number resolves to.
pub open spec fn value_resolution(records: Seq<CountryView>, value: nat) -> Option<int> {
    if exists|i: int| is_first_with_value(records, value, i) {
        Some(choose|i: int| is_first_with_value(records, value, i))
    } else {
        None
    }
}

/// Whether two records share their key of an exclusive space.
pub open spec fn collide(a: CountryView, b: CountryView, space: KeySpace) -> bool {
    match space {
        KeySpace::NumericValue => a.value == b.value,
        KeySpace::NumericCode => same_ignoring_case(a.code, b.code),
        KeySpace::Alpha2 => same_ignoring_case(a.alpha2, b.alpha2),
        KeySpace::Alpha3 => same_ignoring_case(a.alpha3, b.alpha3),
        KeySpace::Name => same_ignoring_case(a.display_name(), b.display_name()),
        KeySpace::Alias => false,
        KeySpace::Any => false,
    }
}

/// Whether no two of the first `n` records share their key of the space.
pub open spec fn unique_within(records: Seq<CountryView>, space: KeySpace, n: int) -> bool {
    forall|i: int, j: int|
        0 <= i < j < n && j < records.len() ==> !collide(
            #[trigger] records[i],
            #[trigger] records[j],
            space,
        )
}

/// Whether no two records share their key of the space.
pub open spec fn unique_in(records: Seq<CountryView>, space: KeySpace) -> bool {
    unique_within(records, space, records.len() as int)
}

/// Whether a list of records can be a registry: no two of them share a
/// numeric value, a numeric code, a two-letter code, a three-letter code or
/// a name.
pub open spec fn valid_registry(records: Seq<CountryView>) -> bool {
    forall|space: KeySpace| #[trigger] space.is_exclusive() ==> unique_in(records, space)
}

/// Whether the records at `first` and `second` are the first collision of
/// the space: they share their key, and no two records before `second` do.
pub open spec fn is_first_collision(
    records: Seq<CountryView>,
    space: KeySpace,
    first: int,
    second: int,
) -> bool {
    &&& 0 <= first < second < records.len()
    &&& collide(records[first], records[second], space)
    &&& unique_within(records, space, second)
}

/// If a record is the first holder of a key, the key resolves to it.
pub proof fn lemma_first_holder(records: Seq<CountryView>, space: KeySpace, key: Seq<u8>, i: int)
    requires
        is_first_holder(records, space, key, i),
    ensures
        first_holder(records, space, key) == Some(i),
{
    let j = choose|j: int| is_first_holder(records, space, key, j);
    if j < i {
        assert(!holds_key(records[j], space, key));
    } else if i < j {
        assert(!holds_key(records[i], space, key));
    }
}

/// If no record holds a key, the key resolves to none.
pub proof fn lemma_no_holder(records: Seq<CountryView>, space: KeySpace, key: Seq<u8>)
    requires
        forall|i: int| 0 <= i < records.len() ==> !holds_key(#[trigger] records[i], space, key),
    ensures
        first_holder(records, space, key) is None,
{
    if exists|i: int| is_first_holder(records, space, key, i) {
        let i = choose|i: int| is_first_holder(records, space, key, i);
        assert(!holds_key(records[i], space, key));
    }
}

/// What `first_holder` answers, said without `choose`.
pub proof fn lemma_first_holder_is(records: Seq<CountryView>, space: KeySpace, key: Seq<u8>)
    ensures
        match first_holder(records, space, key) {
            Some(i) => is_first_holder(records, space, key, i),
            None => forall|i: int|
                0 <= i < records.len() ==> !holds_key(#[trigger] records[i], space, key),
        },
{
    if first_holder(records, space, key) is None {
        assert forall|i: int| 0 <= i < records.len() implies !holds_key(
            #[trigger] records[i],
            space,
            key,
        ) by {
            if holds_key(records[i], space, key) {
                lemma_some_holder(records, space, key, i);
            }
        }
    }
}

/// If some record holds a key, one of them is the first.
pub proof fn lemma_some_holder(records: Seq<CountryView>, space: KeySpace, key: Seq<u8>, i: int)
    requires
        0 <= i < records.len(),
        holds_key(records[i], space, key),
    ensures
        exists|f: int| 0 <= f <= i && is_first_holder(records, space, key, f),
    decreases i,
{
    if exists|j: int| 0 <= j < i && holds_key(#[trigger] records[j], space, key) {
        let j = choose|j: int| 0 <= j < i && holds_key(#[trigger] records[j], space, key);
        lemma_some_holder(records, space, key, j);
    } else {
        assert(is_first_holder(records, space, key, i));
    }
}

/// If a record is the first with a value, the value resolves to it.
pub proof fn lemma_first_with_value(records: Seq<CountryView>, value: nat, i: int)
    requires
        is_first_with_value(records, value, i),
    ensures
        value_resolution(records, value) == Some(i),
{
    let j = choose|j: int| is_first_with_value(records, value, j);
    if j < i {
        assert(records[j].value != value);
    } else if i < j {
        assert(records[i].value != value);
    }
}

/// If no record has a value, the value resolves to none.
pub proof fn lemma_no_value(records: Seq<CountryView>, value: nat)
    requires
        forall|i: int| 0 <= i < records.len() ==> (#[trigger] records[i]).value != value,
    ensures
        value_resolution(records, value) is None,
{
    if exists|i: int| is_first_with_value(records, value, i) {
        let i = choose|i: int| is_first_with_value(records, value, i);
        assert(records[i].value != value);
    }
}

/// In an exclusive text space a record holds exactly the key of its one
/// text, so two records collide exactly when the one holds the key of the
/// other.
pub proof fn lemma_collide_is_shared_key(a: CountryView, b: CountryView, space: KeySpace)
    requires
        space.is_exclusive(),
        space.is_text(),
    ensures
        texts_of(a, space).len() == 1,
        texts_of(b, space).len() == 1,
        collide(a, b, space) <==> holds_key(a, space, key_bytes(texts_of(b, space)[0])),
{
    let ta = texts_of(a, space)[0];
    let tb = texts_of(b, space)[0];
    lemma_key_bytes_equal(ta, tb);
    if holds_key(a, space, key_bytes(tb)) {
        let t = choose|t: int|
            0 <= t < texts_of(a, space).len() && key_bytes(#[trigger] texts_of(a, space)[t])
                == key_bytes(tb);
        assert(t == 0);
    }
    if collide(a, b, space) {
        assert(key_bytes(texts_of(a, space)[0]) == key_bytes(tb));
    }
}

} // verus!
