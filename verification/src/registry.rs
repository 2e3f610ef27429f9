//! The registry: a list of country records with an index for each key
//! space.
//!
//! A registry is built once from its records and never changed. Building
//! fails when two records share a key of a space in which keys are
//! exclusive.

use crate::country::{country_views, Country, CountryView};
use crate::index::KeyIndex;
use crate::key::{key_bytes, normalize};
use crate::spaces::{
    collide, first_holder, holds_key, holds_key_within, is_first_collision, is_first_holder,
    is_first_with_value, key_resolution, lemma_collide_is_shared_key, lemma_first_holder,
    lemma_first_with_value, lemma_no_holder, lemma_no_value, texts_of, unique_in, unique_within,
    valid_registry, value_resolution, KeySpace,
};
use crate::tables::LookupTable;
use std::collections::HashMap;
use vstd::prelude::*;

verus! {

broadcast use vstd::std_specs::hash::group_hash_axioms;

/// Two records of a list share a key of an exclusive space.
#[derive(Clone, Copy, Debug, PartialEq, Eq, Structural)]
pub struct DuplicateKey {
    /// The space of the shared key.
    pub space: KeySpace,
    /// The place of the record that registered the key.
    pub first: usize,
    /// The place of the record that came with the key again.
    pub second: usize,
}

/// Whether `e` names the first defect of `records`: the first collision of
/// the first exclusive space that has one.
pub open spec fn is_first_defect(records: Seq<CountryView>, e: DuplicateKey) -> bool {
    &&& e.space.is_exclusive()
    &&& forall|earlier: KeySpace|
        earlier.is_exclusive() && #[trigger] earlier.rank() < e.space.rank() ==> unique_in(
            records,
            earlier,
        )
    &&& is_first_collision(records, e.space, e.first as int, e.second as int)
}

/// A list of country records with its indices.
#[derive(Debug)]
pub struct Registry {
    records: Vec<Country>,
    by_value: HashMap<usize, usize>,
    by_code: KeyIndex,
    by_alpha2: KeyIndex,
    by_alpha3: KeyIndex,
    by_name: KeyIndex,
    by_alias: KeyIndex,
    unified: KeyIndex,
}

/// Every key that one of the first `n` records holds in the space is a key
/// of the index.
spec fn covers(index: Map<Seq<u8>, usize>, records: Seq<CountryView>, space: KeySpace, n: int) -> bool {
    forall|i: int, key: Seq<u8>|
        0 <= i < n && i < records.len() && #[trigger] holds_key(records[i], space, key)
            ==> index.contains_key(key)
}

/// Every key of the index leads to the first record that holds it in the
/// space.
spec fn leads(index: Map<Seq<u8>, usize>, records: Seq<CountryView>, space: KeySpace) -> bool {
    forall|key: Seq<u8>| #[trigger]
        index.contains_key(key) ==> is_first_holder(records, space, key, index[key] as int)
}

/// The index is the index of the records in the space.
spec fn indexes(index: Map<Seq<u8>, usize>, records: Seq<CountryView>, space: KeySpace) -> bool {
    covers(index, records, space, records.len() as int) && leads(index, records, space)
}

/// What holds of the index while the record at `n` registers its texts and
/// has registered `t` of them.
spec fn leads_so_far(
    index: Map<Seq<u8>, usize>,
    records: Seq<CountryView>,
    space: KeySpace,
    n: int,
    t: int,
) -> bool {
    forall|key: Seq<u8>| #[trigger]
        index.contains_key(key) ==> {
            &&& index[key] <= n
            &&& index[key] < n ==> is_first_holder(records, space, key, index[key] as int)
            &&& index[key] == n ==> holds_key_within(records[n], space, key, t) && forall|
                j: int,
            |
                0 <= j < n ==> !holds_key(#[trigger] records[j], space, key)
        }
}

/// The number index is the index of the first `n` records by their numeric
/// value.
spec fn values_indexed(index: Map<usize, usize>, records: Seq<CountryView>, n: int) -> bool {
    &&& forall|i: int|
        0 <= i < n && i < records.len() ==> index.contains_key((#[trigger] records[i]).value as usize)
    &&& forall|value: usize| #[trigger]
        index.contains_key(value) ==> index[value] < n && is_first_with_value(
            records,
            value as nat,
            index[value] as int,
        )
}

/// The unified index of five indices: a key leads where the first of them
/// that has it leads.
spec fn unified_map(
    by_code: Map<Seq<u8>, usize>,
    by_alpha2: Map<Seq<u8>, usize>,
    by_alpha3: Map<Seq<u8>, usize>,
    by_name: Map<Seq<u8>, usize>,
    by_alias: Map<Seq<u8>, usize>,
) -> Map<Seq<u8>, usize> {
    by_alias.union_prefer_right(
        by_name.union_prefer_right(
            by_alpha3.union_prefer_right(by_alpha2.union_prefer_right(by_code)),
        ),
    )
}

/// What an index of the space answers is what the records resolve the key
/// to.
proof fn lemma_index_answer(
    index: Map<Seq<u8>, usize>,
    records: Seq<CountryView>,
    space: KeySpace,
    key: Seq<u8>,
)
    requires
        indexes(index, records, space),
    ensures
        first_holder(records, space, key) == (if index.contains_key(key) {
            Some(index[key] as int)
        } else {
            None
        }),
{
    if index.contains_key(key) {
        lemma_first_holder(records, space, key, index[key] as int);
    } else {
        lemma_no_holder(records, space, key);
    }
}

/// The number of texts under which the record registers in a text space.
fn text_count(c: &Country, space: KeySpace) -> (n: usize)
    requires
        space.is_text(),
    ensures
        n == texts_of(c@, space).len(),
{
    match space {
        KeySpace::Alias => c.aliases.len(),
        _ => 1,
    }
}

/// The key of the `t`-th text under which the record registers in a text
/// space.
fn text_key(c: &Country, space: KeySpace, t: usize) -> (key: Vec<u8>)
    requires
        space.is_text(),
        t < texts_of(c@, space).len(),
    ensures
        key@ == key_bytes(texts_of(c@, space)[t as int]),
{
    match space {
        KeySpace::NumericCode => normalize(c.code),
        KeySpace::Alpha2 => normalize(c.alpha2),
        KeySpace::Alpha3 => normalize(c.alpha3),
        KeySpace::Name => c.name_key(),
        _ => {
            let list = c.aliases.as_slice();
            assert(crate::tables::alias_views(list@)[t as int].text == list@[t as int].text@);
            normalize(list[t].text)
        },
    }
}

/// The index of the records in a text space. In an exclusive space the
/// first collision ends the work.
fn build_index(records: &Vec<Country>, space: KeySpace) -> (r: Result<KeyIndex, DuplicateKey>)
    requires
        space.is_text(),
    ensures
        match r {
            Ok(index) => {
                &&& index.wf()
                &&& indexes(index@, country_views(records@), space)
                &&& space.is_exclusive() ==> unique_in(country_views(records@), space)
            },
            Err(e) => {
                &&& space.is_exclusive()
                &&& e.space == space
                &&& is_first_collision(
                    country_views(records@),
                    space,
                    e.first as int,
                    e.second as int,
                )
            },
        },
{
    let ghost views = country_views(records@);
    let exclusive = space.exclusive();
    let mut index = KeyIndex::new();
    let mut n: usize = 0;
    while n < records.len()
        invariant
            views == country_views(records@),
            space.is_text(),
            exclusive == space.is_exclusive(),
            n <= records@.len(),
            index.wf(),
            covers(index@, views, space, n as int),
            leads_so_far(index@, views, space, n as int, 0),
            exclusive ==> unique_within(views, space, n as int),
        decreases records@.len() - n,
    {
        let record = &records[n];
        assert(record@ == views[n as int]);
        let count = text_count(record, space);
        let mut t: usize = 0;
        while t < count
            invariant
                views == country_views(records@),
                space.is_text(),
                exclusive == space.is_exclusive(),
                n < records@.len(),
                record@ == views[n as int],
                count == texts_of(views[n as int], space).len(),
                t <= count,
                index.wf(),
                covers(index@, views, space, n as int),
                leads_so_far(index@, views, space, n as int, t as int),
                forall|u: int|
                    0 <= u < t ==> index@.contains_key(
                        key_bytes(#[trigger] texts_of(views[n as int], space)[u]),
                    ),
                exclusive ==> unique_within(views, space, n as int),
                exclusive && t > 0 ==> forall|i: int|
                    0 <= i < n ==> !collide(#[trigger] views[i], views[n as int], space),
            decreases count - t,
        {
            let key = text_key(record, space, t);
            let ghost held = index@;
            match index.get(key.as_slice()) {
                Some(first) => {
                    if exclusive {
                        proof {
                            lemma_collide_is_shared_key(views[first as int], views[n as int], space);
                            assert(t == 0);
                            assert(!holds_key_within(views[n as int], space, key@, 0));
                            assert(is_first_holder(views, space, key@, first as int));
                        }
                        return Err(DuplicateKey { space, first, second: n });
                    }
                },
                None => {
                    index.insert(key.as_slice(), n);
                    proof {
                        assert forall|j: int| 0 <= j < n implies !holds_key(
                            #[trigger] views[j],
                            space,
                            key@,
                        ) by {
                            if holds_key(views[j], space, key@) {
                                assert(held.contains_key(key@));
                            }
                        }
                        if exclusive {
                            assert forall|i: int| 0 <= i < n implies !collide(
                                #[trigger] views[i],
                                views[n as int],
                                space,
                            ) by {
                                lemma_collide_is_shared_key(views[i], views[n as int], space);
                            }
                        }
                    }
                },
            }
            proof {
                let now = index@;
                assert(holds_key_within(views[n as int], space, key@, t + 1)) by {
                    assert(key_bytes(texts_of(views[n as int], space)[t as int]) == key@);
                }
                assert forall|k: Seq<u8>| #[trigger] now.contains_key(k) implies {
                    &&& now[k] <= n
                    &&& now[k] < n ==> is_first_holder(views, space, k, now[k] as int)
                    &&& now[k] == n ==> holds_key_within(views[n as int], space, k, t + 1)
                        && forall|j: int| 0 <= j < n ==> !holds_key(#[trigger] views[j], space, k)
                } by {
                    if held.contains_key(k) {
                        assert(now[k] == held[k]);
                        if held[k] == n {
                            let u = choose|u: int|
                                0 <= u < t && u < texts_of(views[n as int], space).len() && key_bytes(
                                    #[trigger] texts_of(views[n as int], space)[u],
                                ) == k;
                            assert(0 <= u < t + 1);
                        }
                    } else {
                        assert(k == key@);
                    }
                }
            }
            t += 1;
        }
        proof {
            let m: int = n as int;
            assert forall|i: int, key: Seq<u8>|
                0 <= i < m + 1 && i < views.len() && #[trigger] holds_key(
                    views[i],
                    space,
                    key,
                ) implies index@.contains_key(key) by {
                if i == m {
                    let u = choose|u: int|
                        0 <= u < texts_of(views[m], space).len() && u < texts_of(views[m], space).len()
                            && key_bytes(#[trigger] texts_of(views[m], space)[u]) == key;
                    assert(index@.contains_key(key_bytes(texts_of(views[m], space)[u])));
                }
            }
            assert forall|key: Seq<u8>| #[trigger] index@.contains_key(key) implies {
                &&& index@[key] <= m + 1
                &&& index@[key] < m + 1 ==> is_first_holder(views, space, key, index@[key] as int)
                &&& index@[key] == m + 1 ==> holds_key_within(views[m + 1], space, key, 0)
                    && forall|j: int| 0 <= j < m + 1 ==> !holds_key(#[trigger] views[j], space, key)
            } by {
                if index@[key] == m {
                    assert(holds_key(views[m], space, key));
                }
            }
            if exclusive {
                lemma_collide_is_shared_key(views[m], views[m], space);
                assert(count == 1);
                assert forall|i: int, j: int| 0 <= i < j < m + 1 && j < views.len() implies !collide(
                    #[trigger] views[i],
                    #[trigger] views[j],
                    space,
                ) by {}
            }
        }
        n += 1;
    }
    proof {
        assert forall|key: Seq<u8>| #[trigger] index@.contains_key(key) implies is_first_holder(
            views,
            space,
            key,
            index@[key] as int,
        ) by {
            assert(index@[key] < n);
        }
    }
    Ok(index)
}

/// The index of the records by their numeric value, or the first collision
/// of that space.
fn build_values(records: &Vec<Country>) -> (r: Result<HashMap<usize, usize>, DuplicateKey>)
    ensures
        match r {
            Ok(index) => {
                &&& values_indexed(
                    index@,
                    country_views(records@),
                    records@.len() as int,
                )
                &&& unique_in(country_views(records@), KeySpace::NumericValue)
            },
            Err(e) => {
                &&& e.space == KeySpace::NumericValue
                &&& is_first_collision(
                    country_views(records@),
                    KeySpace::NumericValue,
                    e.first as int,
                    e.second as int,
                )
            },
        },
{
    let ghost views = country_views(records@);
    let mut index: HashMap<usize, usize> = HashMap::new();
    let mut n: usize = 0;
    while n < records.len()
        invariant
            views == country_views(records@),
            n <= records@.len(),
            values_indexed(index@, views, n as int),
            unique_within(views, KeySpace::NumericValue, n as int),
        decreases records@.len() - n,
    {
        let value = records[n].value;
        assert(views[n as int].value == value);
        let ghost held = index@;
        match index.get(&value) {
            Some(first) => {
                return Err(DuplicateKey { space: KeySpace::NumericValue, first: *first, second: n });
            },
            None => {
                index.insert(value, n);
            },
        }
        proof {
            let m: int = n as int;
            assert forall|i: int| 0 <= i < m implies (#[trigger] views[i]).value != value by {
                if views[i].value == value {
                    assert(held.contains_key(views[i].value as usize));
                }
            }
            assert forall|v: usize| #[trigger] index@.contains_key(v) implies index@[v] < m + 1
                && is_first_with_value(views, v as nat, index@[v] as int) by {
                if v != value {
                    assert(held.contains_key(v));
                }
            }
            assert forall|i: int, j: int| 0 <= i < j < m + 1 && j < views.len() implies !collide(
                #[trigger] views[i],
                #[trigger] views[j],
                KeySpace::NumericValue,
            ) by {}
        }
        n += 1;
    }
    Ok(index)
}

impl View for Registry {
    type V = Seq<CountryView>;

    closed spec fn view(&self) -> Seq<CountryView> {
        country_views(self.records@)
    }
}

impl Registry {
    #[verifier::type_invariant]
    spec fn inv(&self) -> bool {
        &&& valid_registry(self@)
        &&& values_indexed(self.by_value@, self@, self@.len() as int)
        &&& self.by_code.wf()
        &&& self.by_alpha2.wf()
        &&& self.by_alpha3.wf()
        &&& self.by_name.wf()
        &&& self.by_alias.wf()
        &&& self.unified.wf()
        &&& indexes(self.by_code@, self@, KeySpace::NumericCode)
        &&& indexes(self.by_alpha2@, self@, KeySpace::Alpha2)
        &&& indexes(self.by_alpha3@, self@, KeySpace::Alpha3)
        &&& indexes(self.by_name@, self@, KeySpace::Name)
        &&& indexes(self.by_alias@, self@, KeySpace::Alias)
        &&& self.unified@ == unified_map(
            self.by_code@,
            self.by_alpha2@,
            self.by_alpha3@,
            self.by_name@,
            self.by_alias@,
        )
    }

    /// The registry of `records`, in their order.
    ///
    /// Fails exactly when `records` are no valid registry, and then names
    /// the first collision of the first exclusive space that has one.
    pub fn build(records: Vec<Country>) -> (r: Result<Registry, DuplicateKey>)
        ensures
            match r {
                Ok(registry) => registry@ == country_views(records@) && valid_registry(registry@),
                Err(e) => is_first_defect(country_views(records@), e),
            },
            r is Ok <==> valid_registry(country_views(records@)),
    {
        let ghost views = country_views(records@);
        let by_value = match build_values(&records) {
            Ok(index) => index,
            Err(e) => {
                proof {
                    lemma_defect(views, e);
                }
                return Err(e);
            },
        };
        let by_code = match build_index(&records, KeySpace::NumericCode) {
            Ok(index) => index,
            Err(e) => {
                proof {
                    lemma_defect(views, e);
                }
                return Err(e);
            },
        };
        let by_alpha2 = match build_index(&records, KeySpace::Alpha2) {
            Ok(index) => index,
            Err(e) => {
                proof {
                    lemma_defect(views, e);
                }
                return Err(e);
            },
        };
        let by_alpha3 = match build_index(&records, KeySpace::Alpha3) {
            Ok(index) => index,
            Err(e) => {
                proof {
                    lemma_defect(views, e);
                }
                return Err(e);
            },
        };
        let by_name = match build_index(&records, KeySpace::Name) {
            Ok(index) => index,
            Err(e) => {
                proof {
                    lemma_defect(views, e);
                }
                return Err(e);
            },
        };
        let by_alias = match build_index(&records, KeySpace::Alias) {
            Ok(index) => index,
            Err(e) => {
                return Err(e);
            },
        };
        let mut unified = KeyIndex::new();
        unified.absorb(&by_code);
        unified.absorb(&by_alpha2);
        unified.absorb(&by_alpha3);
        unified.absorb(&by_name);
        unified.absorb(&by_alias);
        proof {
            assert(by_code@.union_prefer_right(Map::<Seq<u8>, usize>::empty()) =~= by_code@);
            assert forall|space: KeySpace| #[trigger] space.is_exclusive() implies unique_in(
                views,
                space,
            ) by {}
        }
        Ok(
            Registry {
                records,
                by_value,
                by_code,
                by_alpha2,
                by_alpha3,
                by_name,
                by_alias,
                unified,
            },
        )
    }

    /// The number of records.
    pub fn len(&self) -> (n: usize)
        ensures
            n == self@.len(),
            valid_registry(self@),
    {
        proof {
            use_type_invariant(self);
        }
        self.records.len()
    }

    /// The records, in their order.
    pub fn records(&self) -> (list: &[Country])
        ensures
            country_views(list@) == self@,
            valid_registry(self@),
    {
        proof {
            use_type_invariant(self);
        }
        self.records.as_slice()
    }

    /// The place of the record that a key resolves to in a space.
    ///
    /// The key is taken as it is: it is not folded to lower case again.
    pub fn find(&self, space: KeySpace, key: &[u8]) -> (place: Option<usize>)
        ensures
            match key_resolution(self@, space, key@) {
                Some(i) => place is Some && place->0 == i && 0 <= i < self@.len(),
                None => place is None,
            },
    {
        proof {
            use_type_invariant(self);
            lemma_index_answer(self.by_code@, self@, KeySpace::NumericCode, key@);
            lemma_index_answer(self.by_alpha2@, self@, KeySpace::Alpha2, key@);
            lemma_index_answer(self.by_alpha3@, self@, KeySpace::Alpha3, key@);
            lemma_index_answer(self.by_name@, self@, KeySpace::Name, key@);
            lemma_index_answer(self.by_alias@, self@, KeySpace::Alias, key@);
        }
        match space {
            KeySpace::NumericValue => None,
            KeySpace::NumericCode => self.by_code.get(key),
            KeySpace::Alpha2 => self.by_alpha2.get(key),
            KeySpace::Alpha3 => self.by_alpha3.get(key),
            KeySpace::Name => self.by_name.get(key),
            KeySpace::Alias => self.by_alias.get(key),
            KeySpace::Any => self.unified.get(key),
        }
    }

    /// The place of the record whose numeric code spells `value`.
    pub fn find_value(&self, value: usize) -> (place: Option<usize>)
        ensures
            match value_resolution(self@, value as nat) {
                Some(i) => place is Some && place->0 == i && 0 <= i < self@.len(),
                None => place is None,
            },
    {
        proof {
            use_type_invariant(self);
        }
        match self.by_value.get(&value) {
            Some(place) => {
                proof {
                    lemma_first_with_value(self@, value as nat, *place as int);
                }
                Some(*place)
            },
            None => {
                proof {
                    assert forall|i: int| 0 <= i < self@.len() implies (#[trigger] self@[i]).value
                        != value as nat by {
                        if self@[i].value == value as nat {
                            assert(self.by_value@.contains_key(self@[i].value as usize));
                        }
                    }
                    lemma_no_value(self@, value as nat);
                }
                None
            },
        }
    }

    /// The record at a place.
    pub fn get(&self, place: usize) -> (c: Country)
        requires
            place < self@.len(),
        ensures
            c@ == self@[place as int],
    {
        self.records[place]
    }
}

/// A collision that was found after all spaces before it were found free of
/// one is the first defect.
proof fn lemma_defect(records: Seq<CountryView>, e: DuplicateKey)
    requires
        e.space.is_exclusive(),
        is_first_collision(records, e.space, e.first as int, e.second as int),
        forall|earlier: KeySpace|
            earlier.is_exclusive() && #[trigger] earlier.rank() < e.space.rank() ==> unique_in(
                records,
                earlier,
            ),
    ensures
        is_first_defect(records, e),
        !valid_registry(records),
{
    assert(e.space.is_exclusive());
    assert(collide(records[e.first as int], records[e.second as int], e.space));
    if valid_registry(records) {
        assert(unique_in(records, e.space));
    }
}

} // verus!
