//! The order of country records: the order of the keys of their names, byte
//! by byte. The order of alias tables.

use crate::country::{Country, CountryView};
use crate::key::{key_bytes, lemma_encode_utf8_injective, lemma_key_bytes_equal};
use crate::laws::lemma_unique_keys;
use crate::spaces::{collide, valid_registry, KeySpace};
use crate::suffix::{lemma_rest, rest};
use crate::tables::{
    alias_views, lemma_alias_view_at, Alias, AliasView, CountryTable, EmptyLookupTable, LookupTable,
};
use core::cmp::Ordering;
use vstd::prelude::*;
use vstd::std_specs::cmp::PartialOrdSpecImpl;
use vstd::utf8::encode_utf8;

verus! {

/// The order of two byte strings: that of the first bytes in which they
/// differ. A string that another one begins with comes before it.
pub open spec fn byte_order(a: Seq<u8>, b: Seq<u8>) -> Ordering
    decreases a.len(),
{
    if a.len() == 0 {
        if b.len() == 0 {
            Ordering::Equal
        } else {
            Ordering::Less
        }
    } else if b.len() == 0 {
        Ordering::Greater
    } else if a[0] < b[0] {
        Ordering::Less
    } else if a[0] > b[0] {
        Ordering::Greater
    } else {
        byte_order(a.drop_first(), b.drop_first())
    }
}

/// The order of two records: that of the keys under which they register
/// their names.
pub open spec fn name_order(a: CountryView, b: CountryView) -> Ordering {
    byte_order(key_bytes(a.display_name()), key_bytes(b.display_name()))
}

/// The order turned round.
pub open spec fn turned(o: Ordering) -> Ordering {
    match o {
        Ordering::Less => Ordering::Greater,
        Ordering::Equal => Ordering::Equal,
        Ordering::Greater => Ordering::Less,
    }
}

/// Two byte strings are equal in the order exactly when they are the same.
pub proof fn lemma_order_equal(a: Seq<u8>, b: Seq<u8>)
    ensures
        byte_order(a, b) == Ordering::Equal <==> a == b,
    decreases a.len(),
{
    if a.len() > 0 && b.len() > 0 {
        lemma_order_equal(a.drop_first(), b.drop_first());
        if a[0] == b[0] && a.drop_first() == b.drop_first() {
            assert(a =~= seq![a[0]] + a.drop_first());
            assert(b =~= seq![b[0]] + b.drop_first());
        }
    } else if a.len() == 0 && b.len() == 0 {
        assert(a =~= b);
    }
}

/// Taking two byte strings the other way round turns their order round.
pub proof fn lemma_order_turned(a: Seq<u8>, b: Seq<u8>)
    ensures
        byte_order(b, a) == turned(byte_order(a, b)),
    decreases a.len(),
{
    if a.len() > 0 && b.len() > 0 {
        lemma_order_turned(a.drop_first(), b.drop_first());
    }
}

/// What comes before a byte string comes before all that comes after it.
pub proof fn lemma_order_transitive(a: Seq<u8>, b: Seq<u8>, c: Seq<u8>)
    requires
        byte_order(a, b) != Ordering::Greater,
        byte_order(b, c) != Ordering::Greater,
    ensures
        byte_order(a, c) != Ordering::Greater,
        byte_order(a, b) == Ordering::Less || byte_order(b, c) == Ordering::Less ==> byte_order(a, c)
            == Ordering::Less,
    decreases a.len(),
{
    if a.len() > 0 && b.len() > 0 && c.len() > 0 {
        if a[0] == b[0] && b[0] == c[0] {
            lemma_order_transitive(a.drop_first(), b.drop_first(), c.drop_first());
        }
    }
}

/// The order of two byte strings.
pub fn compare_bytes(a: &[u8], b: &[u8]) -> (r: Ordering)
    ensures
        r == byte_order(a@, b@),
{
    let mut i: usize = 0;
    proof {
        lemma_rest(a@, 0);
        lemma_rest(b@, 0);
    }
    while i < a.len() && i < b.len()
        invariant
            i <= a@.len(),
            i <= b@.len(),
            byte_order(a@, b@) == byte_order(rest(a@, i), rest(b@, i)),
        decreases a@.len() - i,
    {
        proof {
            lemma_rest(a@, i);
            lemma_rest(b@, i);
        }
        if a[i] < b[i] {
            return Ordering::Less;
        }
        if a[i] > b[i] {
            return Ordering::Greater;
        }
        i += 1;
    }
    proof {
        lemma_rest(a@, i);
        lemma_rest(b@, i);
    }
    if i < b.len() {
        Ordering::Less
    } else if i < a.len() {
        Ordering::Greater
    } else {
        Ordering::Equal
    }
}

/// The order of two aliases: that of their texts, and for one text the
/// alias in use before the deprecated one.
pub open spec fn alias_order(a: AliasView, b: AliasView) -> Ordering {
    match byte_order(encode_utf8(a.text), encode_utf8(b.text)) {
        Ordering::Equal => if a.deprecated == b.deprecated {
            Ordering::Equal
        } else if b.deprecated {
            Ordering::Less
        } else {
            Ordering::Greater
        },
        Ordering::Less => Ordering::Less,
        Ordering::Greater => Ordering::Greater,
    }
}

/// The order of two lists of aliases of one length: that of the first
/// entries in which they differ.
pub open spec fn entries_order(a: Seq<AliasView>, b: Seq<AliasView>) -> Ordering
    decreases a.len(),
{
    if a.len() == 0 || b.len() == 0 {
        Ordering::Equal
    } else {
        match alias_order(a[0], b[0]) {
            Ordering::Equal => entries_order(a.drop_first(), b.drop_first()),
            Ordering::Less => Ordering::Less,
            Ordering::Greater => Ordering::Greater,
        }
    }
}

/// The order of two alias tables: the shorter one first, and of two of one
/// length the one that is first entry by entry.
pub open spec fn table_order(a: Seq<AliasView>, b: Seq<AliasView>) -> Ordering {
    if a.len() < b.len() {
        Ordering::Less
    } else if a.len() > b.len() {
        Ordering::Greater
    } else {
        entries_order(a, b)
    }
}

/// Two aliases are equal in the order exactly when they hold the same.
pub proof fn lemma_alias_order_equal(a: AliasView, b: AliasView)
    ensures
        alias_order(a, b) == Ordering::Equal <==> a == b,
{
    lemma_order_equal(encode_utf8(a.text), encode_utf8(b.text));
    if encode_utf8(a.text) == encode_utf8(b.text) {
        lemma_encode_utf8_injective(a.text, b.text);
    }
}

/// Two alias tables are equal in the order exactly when they hold the
/// same entries.
pub proof fn lemma_table_order_equal(a: Seq<AliasView>, b: Seq<AliasView>)
    ensures
        table_order(a, b) == Ordering::Equal <==> a == b,
{
    if a.len() == b.len() {
        lemma_entries_order_equal(a, b);
    }
}

proof fn lemma_entries_order_equal(a: Seq<AliasView>, b: Seq<AliasView>)
    requires
        a.len() == b.len(),
    ensures
        entries_order(a, b) == Ordering::Equal <==> a == b,
    decreases a.len(),
{
    if a.len() == 0 {
        assert(a =~= b);
    } else {
        lemma_alias_order_equal(a[0], b[0]);
        lemma_entries_order_equal(a.drop_first(), b.drop_first());
        if a[0] == b[0] && a.drop_first() == b.drop_first() {
            assert(a =~= seq![a[0]] + a.drop_first());
            assert(b =~= seq![b[0]] + b.drop_first());
        }
    }
}

/// The order of two aliases.
pub fn compare_aliases(a: &Alias, b: &Alias) -> (r: Ordering)
    ensures
        r == alias_order(a@, b@),
{
    match compare_bytes(a.text.as_bytes(), b.text.as_bytes()) {
        Ordering::Equal => if a.deprecated == b.deprecated {
            Ordering::Equal
        } else if b.deprecated {
            Ordering::Less
        } else {
            Ordering::Greater
        },
        Ordering::Less => Ordering::Less,
        Ordering::Greater => Ordering::Greater,
    }
}

/// The order of two lists of aliases as alias tables.
pub fn compare_lists(a: &[Alias], b: &[Alias]) -> (r: Ordering)
    ensures
        r == table_order(alias_views(a@), alias_views(b@)),
{
    if a.len() < b.len() {
        return Ordering::Less;
    }
    if a.len() > b.len() {
        return Ordering::Greater;
    }
    let ghost left = alias_views(a@);
    let ghost right = alias_views(b@);
    let mut i: usize = 0;
    proof {
        lemma_rest(left, 0);
        lemma_rest(right, 0);
    }
    while i < a.len()
        invariant
            left == alias_views(a@),
            right == alias_views(b@),
            a@.len() == b@.len(),
            i <= a@.len(),
            entries_order(left, right) == entries_order(rest(left, i), rest(right, i)),
        decreases a@.len() - i,
    {
        let x = a[i];
        let y = b[i];
        proof {
            lemma_alias_view_at(a@, i, x);
            lemma_alias_view_at(b@, i, y);
            lemma_rest(left, i);
            lemma_rest(right, i);
        }
        match compare_aliases(&x, &y) {
            Ordering::Equal => {},
            Ordering::Less => {
                return Ordering::Less;
            },
            Ordering::Greater => {
                return Ordering::Greater;
            },
        }
        i += 1;
    }
    proof {
        lemma_rest(left, i);
        lemma_rest(right, i);
    }
    Ordering::Equal
}

/// Aliases are ordered by their texts.
impl PartialOrd for Alias {
    fn partial_cmp(&self, other: &Alias) -> (r: Option<Ordering>) {
        Some(compare_aliases(self, other))
    }
}

impl PartialOrdSpecImpl for Alias {
    open spec fn obeys_partial_cmp_spec() -> bool {
        true
    }

    open spec fn partial_cmp_spec(&self, other: &Alias) -> Option<Ordering> {
        Some(alias_order(self@, other@))
    }
}

/// Tables without entries are all alike.
impl PartialOrd for EmptyLookupTable {
    fn partial_cmp(&self, other: &EmptyLookupTable) -> (r: Option<Ordering>) {
        Some(Ordering::Equal)
    }
}

impl PartialOrdSpecImpl for EmptyLookupTable {
    open spec fn obeys_partial_cmp_spec() -> bool {
        true
    }

    open spec fn partial_cmp_spec(&self, other: &EmptyLookupTable) -> Option<Ordering> {
        Some(Ordering::Equal)
    }
}

/// Alias tables are ordered by their length, and then entry by entry.
impl PartialOrd for CountryTable {
    fn partial_cmp(&self, other: &CountryTable) -> (r: Option<Ordering>) {
        Some(compare_lists(self.as_slice(), other.as_slice()))
    }
}

impl PartialOrdSpecImpl for CountryTable {
    open spec fn obeys_partial_cmp_spec() -> bool {
        true
    }

    open spec fn partial_cmp_spec(&self, other: &CountryTable) -> Option<Ordering> {
        Some(table_order(self@, other@))
    }
}

/// Records are ordered by their names, as the names are looked up: without
/// spaces and in lower case.
impl PartialOrd for Country {
    fn partial_cmp(&self, other: &Country) -> (r: Option<Ordering>) {
        let own = self.name_key();
        let others = other.name_key();
        Some(compare_bytes(own.as_slice(), others.as_slice()))
    }
}

impl PartialOrdSpecImpl for Country {
    open spec fn obeys_partial_cmp_spec() -> bool {
        true
    }

    open spec fn partial_cmp_spec(&self, other: &Country) -> Option<Ordering> {
        Some(name_order(self@, other@))
    }
}

/// Two records are equal in the order exactly when their names collide:
/// when they are the same but for spaces and the case of letters.
pub proof fn lemma_name_order_equal(a: CountryView, b: CountryView)
    ensures
        name_order(a, b) == Ordering::Equal <==> collide(a, b, KeySpace::Name),
{
    lemma_order_equal(key_bytes(a.display_name()), key_bytes(b.display_name()));
    lemma_key_bytes_equal(a.display_name(), b.display_name());
}

/// The order tells the records of a valid registry apart: two of them are
/// equal in the order only where they are one record.
pub proof fn lemma_order_tells_apart(records: Seq<CountryView>, i: int, j: int)
    requires
        valid_registry(records),
        0 <= i < records.len(),
        0 <= j < records.len(),
    ensures
        name_order(records[i], records[j]) == Ordering::Equal <==> i == j,
{
    lemma_name_order_equal(records[i], records[j]);
    if i != j {
        lemma_unique_keys(records, i, j);
        assert(KeySpace::Name.is_exclusive());
    }
}

} // verus!
