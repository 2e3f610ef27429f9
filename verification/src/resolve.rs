//! The resolvers: from a key to the record of a country.
//!
//! Every resolver answers from a registry. A key that resolves to no record
//! gives `NotFound`, which says what was asked and where. No resolver
//! panics.

use crate::country::{Country, CountryView};
use crate::key::normalize;
use crate::registry::Registry;
use crate::spaces::{resolution, value_resolution, KeySpace};
use vstd::prelude::*;

verus! {

/// What a resolver was asked for.
#[derive(Debug, PartialEq, Eq)]
pub enum LookupInput {
    /// A numeric code as a number.
    Number(usize),
    /// A text, as it was given.
    Text(String),
}

/// What a `LookupInput` holds.
pub enum LookupInputView {
    Number(nat),
    Text(Seq<char>),
}

impl View for LookupInput {
    type V = LookupInputView;

    open spec fn view(&self) -> LookupInputView {
        match self {
            LookupInput::Number(n) => LookupInputView::Number(*n as nat),
            LookupInput::Text(s) => LookupInputView::Text(s@),
        }
    }
}

/// The input matches no key of the space in which it was looked up.
#[derive(Debug, PartialEq, Eq)]
pub struct NotFound {
    /// What was looked up, unchanged.
    pub input: LookupInput,
    /// The space in which it was looked up.
    pub index_space: KeySpace,
}

/// What a `NotFound` holds.
pub struct NotFoundView {
    pub input: LookupInputView,
    pub index_space: KeySpace,
}

impl View for NotFound {
    type V = NotFoundView;

    open spec fn view(&self) -> NotFoundView {
        NotFoundView { input: self.input@, index_space: self.index_space }
    }
}

/// What `NotFound::message` says for a space.
pub open spec fn message_of(space: KeySpace) -> Seq<char> {
    match space {
        KeySpace::NumericValue => "invalid value"@,
        KeySpace::NumericCode => "invalid code"@,
        KeySpace::Alpha2 => "invalid alpha2"@,
        KeySpace::Alpha3 => "invalid alpha3"@,
        KeySpace::Alias => "invalid alias"@,
        KeySpace::Name => "unknown value"@,
        KeySpace::Any => "unknown value"@,
    }
}

impl NotFound {
    /// A short description of the failure, by the space of the lookup.
    pub fn message(&self) -> (text: &'static str)
        ensures
            text@ == message_of(self.index_space),
    {
        match self.index_space {
            KeySpace::NumericValue => "invalid value",
            KeySpace::NumericCode => "invalid code",
            KeySpace::Alpha2 => "invalid alpha2",
            KeySpace::Alpha3 => "invalid alpha3",
            KeySpace::Alias => "invalid alias",
            KeySpace::Name => "unknown value",
            KeySpace::Any => "unknown value",
        }
    }
}

/// A text in the wire form of a record names no record.
#[derive(Debug, PartialEq, Eq)]
pub struct DecodeError {
    /// The lookup that failed.
    pub cause: NotFound,
}

impl DecodeError {
    /// What the wire form of a record is.
    pub fn expecting(&self) -> (text: &'static str)
        ensures
            text@ == "a two letter string"@,
    {
        "a two letter string"
    }
}

/// Whether `r` is the answer to a lookup of `input` in `space` that leads
/// to the record at `place`, or to none.
pub open spec fn answers_with(
    r: Result<Country, NotFound>,
    records: Seq<CountryView>,
    place: Option<int>,
    input: LookupInputView,
    space: KeySpace,
) -> bool {
    match place {
        Some(i) => r is Ok && r->Ok_0@ == records[i],
        None => r is Err && r->Err_0@ == (NotFoundView { input, index_space: space }),
    }
}

impl Registry {
    /// The record that `input` resolves to in `space`.
    ///
    /// The input is folded to lower case and otherwise taken as it is.
    pub fn resolve(&self, space: KeySpace, input: &str) -> (r: Result<Country, NotFound>)
        ensures
            answers_with(
                r,
                self@,
                resolution(self@, space, input@),
                LookupInputView::Text(input@),
                space,
            ),
    {
        let key = normalize(input);
        match self.find(space, key.as_slice()) {
            Some(place) => Ok(self.get(place)),
            None => Err(NotFound { input: LookupInput::Text(input.to_owned()), index_space: space }),
        }
    }

    /// The record whose numeric code spells `value`.
    pub fn resolve_value(&self, value: usize) -> (r: Result<Country, NotFound>)
        ensures
            answers_with(
                r,
                self@,
                value_resolution(self@, value as nat),
                LookupInputView::Number(value as nat),
                KeySpace::NumericValue,
            ),
    {
        match self.find_value(value) {
            Some(place) => Ok(self.get(place)),
            None => Err(
                NotFound { input: LookupInput::Number(value), index_space: KeySpace::NumericValue },
            ),
        }
    }
}

impl Country {
    /// The country whose numeric code spells `value`. Leading zeros play no
    /// part: the key is a number.
    pub fn from_value(registry: &Registry, value: usize) -> (r: Result<Country, NotFound>)
        ensures
            answers_with(
                r,
                registry@,
                value_resolution(registry@, value as nat),
                LookupInputView::Number(value as nat),
                KeySpace::NumericValue,
            ),
    {
        registry.resolve_value(value)
    }

    /// The country with the numeric code `code`, which is matched as a
    /// text: a code written without its leading zeros matches nothing.
    pub fn from_code(registry: &Registry, code: &str) -> (r: Result<Country, NotFound>)
        ensures
            answers_with(
                r,
                registry@,
                resolution(registry@, KeySpace::NumericCode, code@),
                LookupInputView::Text(code@),
                KeySpace::NumericCode,
            ),
    {
        registry.resolve(KeySpace::NumericCode, code)
    }

    /// The country with the two-letter code `alpha2`, in any case of
    /// letters.
    pub fn from_alpha2(registry: &Registry, alpha2: &str) -> (r: Result<Country, NotFound>)
        ensures
            answers_with(
                r,
                registry@,
                resolution(registry@, KeySpace::Alpha2, alpha2@),
                LookupInputView::Text(alpha2@),
                KeySpace::Alpha2,
            ),
    {
        registry.resolve(KeySpace::Alpha2, alpha2)
    }

    /// The country with the three-letter code `alpha3`, in any case of
    /// letters.
    pub fn from_alpha3(registry: &Registry, alpha3: &str) -> (r: Result<Country, NotFound>)
        ensures
            answers_with(
                r,
                registry@,
                resolution(registry@, KeySpace::Alpha3, alpha3@),
                LookupInputView::Text(alpha3@),
                KeySpace::Alpha3,
            ),
    {
        registry.resolve(KeySpace::Alpha3, alpha3)
    }

    /// The first country that has the alias `alias`, in any case of
    /// letters. Names and codes are not searched.
    pub fn from_alias(registry: &Registry, alias: &str) -> (r: Result<Country, NotFound>)
        ensures
            answers_with(
                r,
                registry@,
                resolution(registry@, KeySpace::Alias, alias@),
                LookupInputView::Text(alias@),
                KeySpace::Alias,
            ),
    {
        registry.resolve(KeySpace::Alias, alias)
    }

    /// The country with the name `name`, written without spaces, in any
    /// case of letters. Aliases and codes are not searched.
    pub fn from_name(registry: &Registry, name: &str) -> (r: Result<Country, NotFound>)
        ensures
            answers_with(
                r,
                registry@,
                resolution(registry@, KeySpace::Name, name@),
                LookupInputView::Text(name@),
                KeySpace::Name,
            ),
    {
        registry.resolve(KeySpace::Name, name)
    }

    /// The country that `text` names in any way: by its numeric code, a
    /// letter code, its name or an alias, in that order of search.
    pub fn from_str(registry: &Registry, text: &str) -> (r: Result<Country, NotFound>)
        ensures
            answers_with(
                r,
                registry@,
                resolution(registry@, KeySpace::Any, text@),
                LookupInputView::Text(text@),
                KeySpace::Any,
            ),
    {
        registry.resolve(KeySpace::Any, text)
    }

    /// The country whose wire form is `code`.
    pub fn from_wire(registry: &Registry, code: &str) -> (r: Result<Country, DecodeError>)
        ensures
            match resolution(registry@, KeySpace::Alpha2, code@) {
                Some(i) => r is Ok && r->Ok_0@ == registry@[i],
                None => r is Err && r->Err_0.cause@ == (NotFoundView {
                    input: LookupInputView::Text(code@),
                    index_space: KeySpace::Alpha2,
                }),
            },
    {
        match Country::from_alpha2(registry, code) {
            Ok(country) => Ok(country),
            Err(cause) => Err(DecodeError { cause }),
        }
    }
}

} // verus!
