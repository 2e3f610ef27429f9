//! The shape of a record of ISO 3166-1: a numeric code of three digits
//! that spell the numeric value, letter codes of two and of three capital
//! letters, a name, and aliases written as one word each.

use crate::country::{Country, CountryView};
use crate::key::{ascii_lower, fold_case};
use crate::tables::{alias_views, Alias, LookupTable};
use vstd::prelude::*;
use vstd::string::StrSliceExecFns;
use vstd::utf8::is_ascii_chars;

verus! {

/// Whether the character is a decimal digit.
pub open spec fn is_digit(c: char) -> bool {
    '0' <= c && c <= '9'
}

/// Whether the character is a capital letter of ASCII.
pub open spec fn is_capital(c: char) -> bool {
    'A' <= c && c <= 'Z'
}

/// The number that a decimal digit stands for.
pub open spec fn digit_value(c: char) -> nat {
    (c as nat - '0' as nat) as nat
}

/// Whether `code` is the number `value` written with three digits.
pub open spec fn spells(code: Seq<char>, value: nat) -> bool {
    &&& code.len() == 3
    &&& is_digit(code[0])
    &&& is_digit(code[1])
    &&& is_digit(code[2])
    &&& value == 100 * digit_value(code[0]) + 10 * digit_value(code[1]) + digit_value(code[2])
}

/// Whether `text` is made of `n` capital letters.
pub open spec fn is_letter_code(text: Seq<char>, n: nat) -> bool {
    &&& text.len() == n
    &&& forall|i: int| 0 <= i < text.len() ==> is_capital(#[trigger] text[i])
}

/// Whether `text` is one word: not empty, and without a space.
pub open spec fn is_word(text: Seq<char>) -> bool {
    &&& text.len() > 0
    &&& forall|i: int| 0 <= i < text.len() ==> #[trigger] text[i] != ' '
}

impl CountryView {
    /// Whether the record has the shape of a record of ISO 3166-1.
    #[verifier::opaque]
    pub open spec fn well_formed(self) -> bool {
        &&& spells(self.code, self.value)
        &&& is_letter_code(self.alpha2, 2)
        &&& is_letter_code(self.alpha3, 3)
        &&& self.long_name.len() > 0
        &&& forall|t: int| 0 <= t < self.aliases.len() ==> is_word((#[trigger] self.aliases[t]).text)
    }
}

/// Whether every record of the list has the shape of a record of
/// ISO 3166-1.
#[verifier::opaque]
pub open spec fn all_well_formed(records: Seq<CountryView>) -> bool {
    forall|i: int| 0 <= i < records.len() ==> (#[trigger] records[i]).well_formed()
}

/// Every record of a list of well-formed records is well-formed.
pub proof fn lemma_each_well_formed(records: Seq<CountryView>, i: int)
    requires
        all_well_formed(records),
        0 <= i < records.len(),
    ensures
        records[i].well_formed(),
{
    reveal(all_well_formed);
}

/// The number that a decimal digit stands for.
fn digit(c: char) -> (r: Option<usize>)
    ensures
        r is Some <==> is_digit(c),
        r matches Some(d) ==> d == digit_value(c),
{
    if c >= '0' && c <= '9' {
        Some((c as u32 - '0' as u32) as usize)
    } else {
        None
    }
}

/// Whether `code` is the number `value` written with three digits.
pub fn code_spells(code: &str, value: usize) -> (r: bool)
    ensures
        r == spells(code@, value as nat),
{
    if code.unicode_len() != 3 {
        return false;
    }
    match (digit(code.get_char(0)), digit(code.get_char(1)), digit(code.get_char(2))) {
        (Some(hundreds), Some(tens), Some(ones)) => value == 100 * hundreds + 10 * tens + ones,
        _ => false,
    }
}

/// Whether `text` is made of `n` capital letters.
pub fn letter_code(text: &str, n: usize) -> (r: bool)
    ensures
        r == is_letter_code(text@, n as nat),
{
    if text.unicode_len() != n {
        return false;
    }
    let mut i: usize = 0;
    while i < n
        invariant
            text@.len() == n,
            i <= n,
            forall|j: int| 0 <= j < i ==> is_capital(#[trigger] text@[j]),
        decreases n - i,
    {
        let c = text.get_char(i);
        if !(c >= 'A' && c <= 'Z') {
            return false;
        }
        i += 1;
    }
    true
}

/// Whether `text` is one word: not empty, and without a space.
pub fn word(text: &str) -> (r: bool)
    ensures
        r == is_word(text@),
{
    let n = text.unicode_len();
    if n == 0 {
        return false;
    }
    let mut i: usize = 0;
    while i < n
        invariant
            text@.len() == n,
            i <= n,
            forall|j: int| 0 <= j < i ==> #[trigger] text@[j] != ' ',
        decreases n - i,
    {
        if text.get_char(i) == ' ' {
            return false;
        }
        i += 1;
    }
    true
}

impl Country {
    /// Whether the record has the shape of a record of ISO 3166-1.
    pub fn is_well_formed(&self) -> (r: bool)
        ensures
            r == self@.well_formed(),
    {
        proof {
            reveal(CountryView::well_formed);
        }
        if !code_spells(self.code, self.value) || !letter_code(self.alpha2, 2) || !letter_code(
            self.alpha3,
            3,
        ) || self.long_name.unicode_len() == 0 {
            return false;
        }
        let list = self.aliases.as_slice();
        let mut t: usize = 0;
        while t < list.len()
            invariant
                spells(self@.code, self@.value),
                is_letter_code(self@.alpha2, 2),
                is_letter_code(self@.alpha3, 3),
                self@.long_name.len() > 0,
                alias_views(list@) == self@.aliases,
                t <= list@.len(),
                forall|u: int| 0 <= u < t ==> is_word((#[trigger] self@.aliases[u]).text),
            decreases list@.len() - t,
        {
            let alias: Alias = list[t];
            proof {
                reveal(CountryView::well_formed);
                assert(alias_views(list@)[t as int] == alias@);
            }
            if !word(alias.text) {
                return false;
            }
            t += 1;
        }
        true
    }
}

/// Digits are ASCII characters without a case: a text of three digits is
/// its own lower-case form.
pub proof fn lemma_digits_fold_to_themselves(code: Seq<char>, value: nat)
    requires
        spells(code, value),
    ensures
        is_ascii_chars(code),
        fold_case(code) == code,
{
    assert(is_ascii_chars(code)) by {
        assert forall|i: int| 0 <= i < code.len() implies 0 <= (#[trigger] code[i] as nat) < 128 by {
            assert(i == 0 || i == 1 || i == 2);
        }
    }
    assert(fold_case(code) =~= code) by {
        assert forall|i: int| 0 <= i < code.len() implies ascii_lower(#[trigger] code[i])
            == code[i] by {
            assert(i == 0 || i == 1 || i == 2);
        }
    }
}

/// Two numbers that three digits spell are the same exactly when the
/// digits are.
pub proof fn lemma_spelling_is_one_to_one(a: Seq<char>, x: nat, b: Seq<char>, y: nat)
    requires
        spells(a, x),
        spells(b, y),
    ensures
        x == y <==> a == b,
{
    if x == y {
        assert(digit_value(a[0]) == digit_value(b[0]));
        assert(digit_value(a[1]) == digit_value(b[1]));
        assert(digit_value(a[2]) == digit_value(b[2]));
        assert(a =~= b);
    }
}

} // verus!
