//! The aliases of a country: the other names by which it is known.
//!
//! An alias that was once the country's official name is marked as
//! deprecated. The mark says what the alias is; it changes nothing about
//! how the alias resolves.

use crate::key::{
    key_bytes, lemma_encode_utf8_injective, lemma_key_bytes_equal, normalize, same_bytes,
    same_ignoring_case,
};
use vstd::prelude::*;
use vstd::std_specs::slice::{axiom_spec_slice_iter, into_iter_elts};
use vstd::string::StringExecFns;

verus! {

/// Whether two strings hold the same characters.
pub fn same_text(a: &str, b: &str) -> (r: bool)
    ensures
        r == (a@ == b@),
{
    let r = same_bytes(a.as_bytes(), b.as_bytes());
    proof {
        if r {
            lemma_encode_utf8_injective(a@, b@);
        }
    }
    r
}

/// One alias of a country.
#[derive(Clone, Copy, Debug, Hash)]
pub struct Alias {
    /// The alias, written without spaces.
    pub text: &'static str,
    /// Whether the alias is a name that the country no longer goes by.
    pub deprecated: bool,
}

/// What an `Alias` holds.
pub struct AliasView {
    pub text: Seq<char>,
    pub deprecated: bool,
}

impl View for Alias {
    type V = AliasView;

    open spec fn view(&self) -> AliasView {
        AliasView { text: self.text@, deprecated: self.deprecated }
    }
}

impl PartialEq for Alias {
    fn eq(&self, other: &Alias) -> (r: bool) {
        same_text(self.text, other.text) && self.deprecated == other.deprecated
    }
}

impl vstd::std_specs::cmp::PartialEqSpecImpl for Alias {
    open spec fn obeys_eq_spec() -> bool {
        true
    }

    open spec fn eq_spec(&self, other: &Alias) -> bool {
        self@ == other@
    }
}

impl Eq for Alias {

}

/// What a list of aliases holds.
pub open spec fn alias_views(list: Seq<Alias>) -> Seq<AliasView> {
    list.map_values(|a: Alias| a@)
}

/// What the entry at `i` of a list holds is the entry at `i` of what the
/// list holds.
pub proof fn lemma_alias_view_at(list: Seq<Alias>, i: usize, entry: Alias)
    requires
        i < list.len(),
        entry == list[i as int],
    ensures
        alias_views(list)[i as int] == entry@,
        alias_views(list).len() == list.len(),
{
}

/// Whether one of `entries` is `alias`, the case of letters set aside.
pub open spec fn lists_alias(entries: Seq<AliasView>, alias: Seq<char>) -> bool {
    exists|i: int| 0 <= i < entries.len() && same_ignoring_case((#[trigger] entries[i]).text, alias)
}

/// Whether one of `list` is `alias`, the case of letters set aside.
pub fn list_contains(list: &[Alias], alias: &str) -> (r: bool)
    ensures
        r == lists_alias(alias_views(list@), alias@),
{
    let wanted = normalize(alias);
    let mut i: usize = 0;
    while i < list.len()
        invariant
            i <= list@.len(),
            wanted@ == key_bytes(alias@),
            forall|j: int|
                0 <= j < i ==> !same_ignoring_case((#[trigger] alias_views(list@)[j]).text, alias@),
        decreases list@.len() - i,
    {
        let held = normalize(list[i].text);
        proof {
            lemma_key_bytes_equal(list@[i as int].text@, alias@);
            assert(alias_views(list@)[i as int].text == list@[i as int].text@);
        }
        if same_bytes(held.as_slice(), wanted.as_slice()) {
            return true;
        }
        i += 1;
    }
    false
}

/// Whether the entry at `i` is the first of `entries` that is `alias`, the
/// case of letters set aside.
pub open spec fn is_first_listing(entries: Seq<AliasView>, alias: Seq<char>, i: int) -> bool {
    &&& 0 <= i < entries.len()
    &&& same_ignoring_case(entries[i].text, alias)
    &&& forall|j: int| 0 <= j < i ==> !same_ignoring_case((#[trigger] entries[j]).text, alias)
}

/// Whether `alias` is deprecated among `entries`: the mark of the first
/// entry that is `alias`, the case of letters set aside, if there is one.
pub open spec fn deprecation_of(entries: Seq<AliasView>, alias: Seq<char>) -> Option<bool> {
    if lists_alias(entries, alias) {
        Some(entries[choose|i: int| is_first_listing(entries, alias, i)].deprecated)
    } else {
        None
    }
}

/// Whether `alias` is deprecated in `list`, if the list holds it.
pub fn list_deprecation(list: &[Alias], alias: &str) -> (r: Option<bool>)
    ensures
        r == deprecation_of(alias_views(list@), alias@),
{
    let ghost entries = alias_views(list@);
    let wanted = normalize(alias);
    let mut i: usize = 0;
    while i < list.len()
        invariant
            entries == alias_views(list@),
            i <= list@.len(),
            wanted@ == key_bytes(alias@),
            forall|j: int| 0 <= j < i ==> !same_ignoring_case((#[trigger] entries[j]).text, alias@),
        decreases list@.len() - i,
    {
        let held = normalize(list[i].text);
        proof {
            lemma_key_bytes_equal(list@[i as int].text@, alias@);
            assert(entries[i as int] == list@[i as int]@);
        }
        if same_bytes(held.as_slice(), wanted.as_slice()) {
            proof {
                let at: int = i as int;
                assert(is_first_listing(entries, alias@, at));
                let chosen = choose|c: int| is_first_listing(entries, alias@, c);
                if chosen < at {
                    assert(!same_ignoring_case(entries[chosen].text, alias@));
                } else if at < chosen {
                    assert(!same_ignoring_case(entries[at].text, alias@));
                }
            }
            return Some(list[i].deprecated);
        }
        i += 1;
    }
    None
}

/// Whether two lists hold the same aliases in the same order.
pub fn same_list(a: &[Alias], b: &[Alias]) -> (r: bool)
    ensures
        r == (alias_views(a@) == alias_views(b@)),
{
    if a.len() != b.len() {
        assert(alias_views(a@).len() != alias_views(b@).len());
        return false;
    }
    let mut i: usize = 0;
    while i < a.len()
        invariant
            a@.len() == b@.len(),
            i <= a@.len(),
            forall|j: int| 0 <= j < i ==> (#[trigger] a@[j])@ == b@[j]@,
        decreases a@.len() - i,
    {
        if !(a[i] == b[i]) {
            assert(alias_views(a@)[i as int] != alias_views(b@)[i as int]);
            return false;
        }
        i += 1;
    }
    assert(alias_views(a@) =~= alias_views(b@));
    true
}

/// The texts of the entries, parted by commas.
pub open spec fn joined(entries: Seq<AliasView>) -> Seq<char>
    decreases entries.len(),
{
    if entries.len() == 0 {
        Seq::empty()
    } else if entries.len() == 1 {
        entries[0].text
    } else {
        joined(entries.drop_last()) + seq![','] + entries.last().text
    }
}

/// How a table is shown: the texts of its entries, parted by commas, in
/// square brackets.
pub open spec fn shown(entries: Seq<AliasView>) -> Seq<char> {
    seq!['['] + joined(entries) + seq![']']
}

/// How a list of aliases is shown as a table.
pub fn list_to_string(list: &[Alias]) -> (text: String)
    ensures
        text@ == shown(alias_views(list@)),
{
    let ghost entries = alias_views(list@);
    let mut text = String::new();
    proof {
        reveal_strlit("[");
        reveal_strlit(",");
        reveal_strlit("]");
    }
    text.append("[");
    let mut i: usize = 0;
    assert(entries.take(0) =~= Seq::<AliasView>::empty());
    while i < list.len()
        invariant
            entries == alias_views(list@),
            i <= list@.len(),
            text@ == seq!['['] + joined(entries.take(i as int)),
            ","@ == seq![','],
        decreases list@.len() - i,
    {
        let ghost before = entries.take(i as int);
        let ghost after = entries.take(i + 1);
        proof {
            assert(after.drop_last() =~= before);
            assert(after.last() == entries[i as int]);
            assert(entries[i as int].text == list@[i as int].text@);
        }
        if i > 0 {
            text.append(",");
        }
        text.append(list[i].text);
        proof {
            if i == 0 {
                assert(before =~= Seq::<AliasView>::empty());
            }
            assert(text@ =~= seq!['['] + joined(after));
        }
        i += 1;
    }
    assert(entries.take(list@.len() as int) =~= entries);
    text.append("]");
    text
}

/// A table of aliases whose entries are known when the program is built.
pub trait LookupTable {
    /// The entries of the table, in their order.
    spec fn entries(&self) -> Seq<AliasView>;

    /// The entries of the table, in their order.
    fn as_slice(&self) -> (list: &'static [Alias])
        ensures
            alias_views(list@) == self.entries(),
    ;

    /// Whether the table holds `alias`, the case of letters set aside.
    fn contains(&self, alias: &str) -> (r: bool)
        ensures
            r == lists_alias(self.entries(), alias@),
    ;

    /// Whether `alias` is deprecated, if the table holds it. The mark is
    /// for those who want to warn; lookups take no notice of it.
    fn deprecation(&self, alias: &str) -> (r: Option<bool>)
        ensures
            r == deprecation_of(self.entries(), alias@),
    {
        list_deprecation(self.as_slice(), alias)
    }

    /// The number of entries.
    fn len(&self) -> (n: usize)
        ensures
            n == self.entries().len(),
    ;

    /// Whether the table has no entry.
    fn is_empty(&self) -> (r: bool)
        ensures
            r == (self.entries().len() == 0),
    {
        self.len() == 0
    }

    /// How the table is shown.
    fn to_string(&self) -> (text: String)
        ensures
            text@ == shown(self.entries()),
    {
        list_to_string(self.as_slice())
    }

    /// An iterator over the entries of the table, in their order.
    fn iter(&self) -> (entries: core::slice::Iter<'static, Alias>)
        ensures
            alias_views(into_iter_elts(entries)) == self.entries(),
    {
        let list = self.as_slice();
        let entries = list.iter();
        proof {
            axiom_spec_slice_iter(list);
            assert(into_iter_elts(entries) =~= list@);
        }
        entries
    }
}

/// The table without entries.
#[derive(Clone, Copy, Debug, Default, Hash, PartialEq, Eq, Structural)]
pub struct EmptyLookupTable;

/// The table without entries.
pub const EMPTY_LOOKUP_TABLE: EmptyLookupTable = EmptyLookupTable;

impl EmptyLookupTable {
    /// This table as the alias table of a country.
    pub fn into_country_table(self) -> (table: CountryTable)
        ensures
            table == CountryTable::Empty(self),
            table@ == Seq::<AliasView>::empty(),
    {
        CountryTable::Empty(self)
    }
}

impl From<EmptyLookupTable> for CountryTable {
    fn from(table: EmptyLookupTable) -> (r: CountryTable) {
        table.into_country_table()
    }
}

impl vstd::std_specs::convert::FromSpecImpl<EmptyLookupTable> for CountryTable {
    open spec fn obeys_from_spec() -> bool {
        true
    }

    open spec fn from_spec(table: EmptyLookupTable) -> CountryTable {
        CountryTable::Empty(table)
    }
}

impl LookupTable for EmptyLookupTable {
    open spec fn entries(&self) -> Seq<AliasView> {
        Seq::empty()
    }

    fn as_slice(&self) -> (list: &'static [Alias]) {
        let list: &'static [Alias] = &[];
        assert(alias_views(list@) =~= Seq::<AliasView>::empty());
        list
    }

    fn contains(&self, alias: &str) -> (r: bool) {
        false
    }

    fn len(&self) -> (n: usize) {
        0
    }
}

/// The alias table of a country.
#[derive(Clone, Copy, Debug)]
pub enum CountryTable {
    /// The country has no alias.
    Empty(EmptyLookupTable),
    /// The aliases of the country, in the order in which they register.
    Aliases(&'static [Alias]),
}

impl View for CountryTable {
    type V = Seq<AliasView>;

    open spec fn view(&self) -> Seq<AliasView> {
        match self {
            CountryTable::Empty(_) => Seq::empty(),
            CountryTable::Aliases(list) => alias_views(list@),
        }
    }
}

impl LookupTable for CountryTable {
    open spec fn entries(&self) -> Seq<AliasView> {
        self@
    }

    fn as_slice(&self) -> (list: &'static [Alias]) {
        match self {
            CountryTable::Empty(empty) => empty.as_slice(),
            CountryTable::Aliases(list) => list,
        }
    }

    fn contains(&self, alias: &str) -> (r: bool) {
        list_contains(self.as_slice(), alias)
    }

    fn len(&self) -> (n: usize) {
        self.as_slice().len()
    }
}

impl PartialEq for CountryTable {
    fn eq(&self, other: &CountryTable) -> (r: bool) {
        same_list(self.as_slice(), other.as_slice())
    }
}

impl vstd::std_specs::cmp::PartialEqSpecImpl for CountryTable {
    open spec fn obeys_eq_spec() -> bool {
        true
    }

    open spec fn eq_spec(&self, other: &CountryTable) -> bool {
        self@ == other@
    }
}

impl Eq for CountryTable {

}

} // verus!
