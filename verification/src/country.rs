//! The record of one country.

use crate::key::{key_bytes, normalize};
use crate::tables::{same_text, AliasView, CountryTable};
use vstd::prelude::*;
use vstd::string::{StrSliceExecFns, StringExecFns};
use vstd::utf8::is_ascii_chars;

verus! {

/// `s` without its space characters.
pub open spec fn without_spaces(s: Seq<char>) -> Seq<char> {
    s.filter(|c: char| c != ' ')
}

/// `s` without its space characters.
pub fn remove_spaces(s: &str) -> (r: String)
    ensures
        r@ == without_spaces(s@),
{
    let ascii = s.is_ascii();
    let n = s.unicode_len();
    let mut out = String::new();
    let mut i: usize = 0;
    proof {
        reveal(Seq::filter);
        assert(s@.take(0) =~= Seq::<char>::empty());
    }
    while i < n
        invariant
            n == s@.len(),
            i <= n,
            ascii == is_ascii_chars(s@),
            out@ == without_spaces(s@.take(i as int)),
        decreases n - i,
    {
        proof {
            reveal(Seq::filter);
            let next = s@.take(i + 1);
            assert(next.drop_last() =~= s@.take(i as int));
            assert(next.last() == s@[i as int]);
        }
        let kept = if ascii {
            proof {
                assert(0 <= (s@[i as int] as nat) < 128);
            }
            s.get_ascii(i) != 32
        } else {
            s.get_char(i) != ' '
        };
        if kept {
            let piece = if ascii {
                s.substring_ascii(i, i + 1)
            } else {
                s.substring_char(i, i + 1)
            };
            assert(piece@ =~= seq![s@[i as int]]);
            out.append(piece);
            assert(out@ =~= without_spaces(s@.take(i + 1)));
        }
        i += 1;
    }
    assert(s@.take(n as int) =~= s@);
    out
}

/// A country of ISO 3166-1.
#[derive(Clone, Copy, Debug)]
pub struct Country {
    /// The numeric code, three digits with leading zeros.
    pub code: &'static str,
    /// The numeric code as a number.
    pub value: usize,
    /// The two-letter code, in upper case.
    pub alpha2: &'static str,
    /// The three-letter code, in upper case.
    pub alpha3: &'static str,
    /// The official name of the state, its words parted by spaces.
    pub long_name: &'static str,
    /// The other names by which the country is known.
    pub aliases: CountryTable,
}

/// What a `Country` holds.
pub struct CountryView {
    pub code: Seq<char>,
    pub value: nat,
    pub alpha2: Seq<char>,
    pub alpha3: Seq<char>,
    pub long_name: Seq<char>,
    pub aliases: Seq<AliasView>,
}

impl View for Country {
    type V = CountryView;

    open spec fn view(&self) -> CountryView {
        CountryView {
            code: self.code@,
            value: self.value as nat,
            alpha2: self.alpha2@,
            alpha3: self.alpha3@,
            long_name: self.long_name@,
            aliases: self.aliases@,
        }
    }
}

impl CountryView {
    /// The name as it is shown and as it is looked up: the official name
    /// without its spaces.
    pub open spec fn display_name(self) -> Seq<char> {
        without_spaces(self.long_name)
    }

    /// The form in which a record travels: its two-letter code.
    pub open spec fn wire_form(self) -> Seq<char> {
        self.alpha2
    }
}

/// What a list of countries holds.
pub open spec fn country_views(list: Seq<Country>) -> Seq<CountryView> {
    list.map_values(|c: Country| c@)
}

impl Country {
    /// The name of the country as it is shown: the official name without
    /// its spaces.
    pub fn to_string(&self) -> (shown: String)
        ensures
            shown@ == self@.display_name(),
    {
        remove_spaces(self.long_name)
    }

    /// The key under which the record registers its name: the name as it
    /// is shown, folded to lower case.
    pub fn name_key(&self) -> (key: Vec<u8>)
        ensures
            key@ == key_bytes(self@.display_name()),
    {
        let shown = self.to_string();
        normalize(shown.as_str())
    }

    /// The form in which the record travels: its two-letter code.
    pub fn wire_form(&self) -> (code: &'static str)
        ensures
            code@ == self@.wire_form(),
    {
        self.alpha2
    }
}

/// Two records are equal when every field of the one equals the same field
/// of the other.
impl PartialEq for Country {
    fn eq(&self, other: &Country) -> (r: bool) {
        same_text(self.code, other.code) && self.value == other.value && same_text(
            self.alpha2,
            other.alpha2,
        ) && same_text(self.alpha3, other.alpha3) && same_text(self.long_name, other.long_name)
            && self.aliases == other.aliases
    }
}

impl vstd::std_specs::cmp::PartialEqSpecImpl for Country {
    open spec fn obeys_eq_spec() -> bool {
        true
    }

    open spec fn eq_spec(&self, other: &Country) -> bool {
        self@ == other@
    }
}

impl Eq for Country {

}

} // verus!
