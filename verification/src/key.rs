//! Lookup keys.
//!
//! Every string handed to a resolver is folded to lower case before it is
//! compared with anything. Nothing else is done to it: no trimming, no
//! transliteration. The folded text is held as its UTF-8 bytes.
//!
//! Text made of ASCII characters only is folded by the code of this module.
//! All other text is folded by the standard library, whose result the
//! contracts can only name.

use vstd::prelude::*;
use vstd::slice::slice_to_vec;
use vstd::utf8::{encode_utf8, is_ascii_chars};

verus! {

/// The characters that `str::to_lowercase` of the standard library returns
/// for a string made of the characters `s`.
pub uninterp spec fn lowercased(s: Seq<char>) -> Seq<char>;

/// Calls `str::to_lowercase`. The contract claims one thing: the result is
/// a function of the characters of `s` alone, which the contracts of this
/// crate call `lowercased`.
#[verifier::external_body]
fn to_lowercase(s: &str) -> (r: String)
    ensures
        r@ == lowercased(s@),
{
    s.to_lowercase()
}

/// The lower-case form of one ASCII character; any other character is
/// itself.
pub open spec fn ascii_lower(c: char) -> char {
    if 'A' <= c && c <= 'Z' {
        ((c as u8) + 32) as char
    } else {
        c
    }
}

/// The lower-case form of one byte of ASCII text.
pub open spec fn ascii_lower_byte(b: u8) -> u8 {
    if 65 <= b && b <= 90 {
        (b + 32) as u8
    } else {
        b
    }
}

/// `s` folded to lower case.
pub open spec fn fold_case(s: Seq<char>) -> Seq<char> {
    if is_ascii_chars(s) {
        s.map_values(|c: char| ascii_lower(c))
    } else {
        lowercased(s)
    }
}

/// The lookup key of `s`: the UTF-8 bytes of `s` folded to lower case.
pub open spec fn key_bytes(s: Seq<char>) -> Seq<u8> {
    encode_utf8(fold_case(s))
}

/// Two texts are case variants of one another when they fold to the same
/// text.
pub open spec fn same_ignoring_case(a: Seq<char>, b: Seq<char>) -> bool {
    fold_case(a) == fold_case(b)
}

/// Folding ASCII text character by character keeps it ASCII.
pub proof fn lemma_fold_case_ascii(s: Seq<char>)
    requires
        is_ascii_chars(s),
    ensures
        is_ascii_chars(fold_case(s)),
        fold_case(s).len() == s.len(),
        forall|i: int| 0 <= i < s.len() ==> fold_case(s)[i] == ascii_lower(#[trigger] s[i]),
{
    let t = s.map_values(|c: char| ascii_lower(c));
    assert forall|i: int| 0 <= i < t.len() implies (0 <= (#[trigger] t[i] as nat) < 128) by {
        assert(0 <= (s[i] as nat) < 128);
    }
}

/// Folding is idempotent on ASCII text: a key made of ASCII characters is
/// its own key.
pub proof fn lemma_fold_case_idempotent_ascii(s: Seq<char>)
    requires
        is_ascii_chars(s),
    ensures
        fold_case(fold_case(s)) == fold_case(s),
{
    lemma_fold_case_ascii(s);
    let t = fold_case(s);
    assert forall|i: int| 0 <= i < t.len() implies ascii_lower(#[trigger] t[i]) == t[i] by {
        assert(t[i] == ascii_lower(s[i]));
        assert(0 <= (s[i] as nat) < 128);
    }
    assert(fold_case(t) =~= t);
}

/// ASCII texts of one length whose characters agree up to the case of
/// letters are case variants of one another.
pub proof fn lemma_ascii_case_variants(a: Seq<char>, b: Seq<char>)
    requires
        is_ascii_chars(a),
        is_ascii_chars(b),
        a.len() == b.len(),
        forall|i: int| 0 <= i < a.len() ==> ascii_lower(#[trigger] a[i]) == ascii_lower(b[i]),
    ensures
        same_ignoring_case(a, b),
{
    assert(fold_case(a) =~= fold_case(b));
}

/// Texts with different characters have different UTF-8 bytes.
pub proof fn lemma_encode_utf8_injective(a: Seq<char>, b: Seq<char>)
    requires
        encode_utf8(a) == encode_utf8(b),
    ensures
        a == b,
{
    vstd::utf8::encode_utf8_decode_utf8(a);
    vstd::utf8::encode_utf8_decode_utf8(b);
}

/// Two texts have the same lookup key exactly when they are case variants
/// of one another.
pub proof fn lemma_key_bytes_equal(a: Seq<char>, b: Seq<char>)
    ensures
        key_bytes(a) == key_bytes(b) <==> same_ignoring_case(a, b),
{
    if key_bytes(a) == key_bytes(b) {
        lemma_encode_utf8_injective(fold_case(a), fold_case(b));
    }
}

/// The lower-case form of one byte of ASCII text.
pub fn lower_byte(b: u8) -> (r: u8)
    ensures
        r == ascii_lower_byte(b),
{
    if 65 <= b && b <= 90 {
        b + 32
    } else {
        b
    }
}

/// The UTF-8 bytes of ASCII text are its characters, one byte each, and
/// folding the text folds each byte.
proof fn lemma_ascii_key_bytes(s: Seq<char>)
    requires
        is_ascii_chars(s),
    ensures
        encode_utf8(s).len() == s.len(),
        key_bytes(s).len() == s.len(),
        forall|i: int|
            0 <= i < s.len() ==> #[trigger] key_bytes(s)[i] == ascii_lower_byte(encode_utf8(s)[i]),
{
    lemma_fold_case_ascii(s);
    vstd::utf8::is_ascii_chars_encode_utf8(s);
    vstd::utf8::is_ascii_chars_encode_utf8(fold_case(s));
    assert forall|i: int| 0 <= i < s.len() implies #[trigger] key_bytes(s)[i] == ascii_lower_byte(
        encode_utf8(s)[i],
    ) by {
        assert(0 <= (s[i] as nat) < 128);
        assert(fold_case(s)[i] == ascii_lower(s[i]));
        assert(encode_utf8(s)[i] == s[i] as u8);
        assert(key_bytes(s)[i] == fold_case(s)[i] as u8);
    }
}

/// The lookup key of `s`.
///
/// Never fails: every string has a key.
pub fn normalize(s: &str) -> (key: Vec<u8>)
    ensures
        key@ == key_bytes(s@),
{
    if s.is_ascii() {
        let bytes = s.as_bytes();
        let mut key: Vec<u8> = Vec::new();
        let mut i: usize = 0;
        proof {
            lemma_ascii_key_bytes(s@);
        }
        while i < bytes.len()
            invariant
                i <= bytes@.len(),
                bytes@ == encode_utf8(s@),
                key@.len() == i,
                forall|j: int| 0 <= j < i ==> key@[j] == ascii_lower_byte(#[trigger] bytes@[j]),
            decreases bytes@.len() - i,
        {
            key.push(lower_byte(bytes[i]));
            i += 1;
        }
        assert(key@ =~= key_bytes(s@));
        key
    } else {
        let lowered = to_lowercase(s);
        slice_to_vec(lowered.as_str().as_bytes())
    }
}

/// Whether two byte strings are the same.
pub fn same_bytes(a: &[u8], b: &[u8]) -> (r: bool)
    ensures
        r == (a@ == b@),
{
    if a.len() != b.len() {
        return false;
    }
    let mut i: usize = 0;
    while i < a.len()
        invariant
            a@.len() == b@.len(),
            i <= a@.len(),
            forall|j: int| 0 <= j < i ==> a@[j] == b@[j],
        decreases a@.len() - i,
    {
        if a[i] != b[i] {
            return false;
        }
        i += 1;
    }
    assert(a@ =~= b@);
    true
}

} // verus!
