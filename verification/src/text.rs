//! Byte-wise ordering of text and ASCII case folding.
//!
//! Names and timestamps are ordered by the bytes of their UTF-8 encoding,
//! which is the order `str` itself uses.

use vstd::prelude::*;
use vstd::utf8::encode_utf8;

verus! {

/// Lexicographic "strictly less" on two byte strings, looking only at the
/// positions from `i` on: the first position where the two differ decides,
/// and a string that ends first is the smaller one.
pub open spec fn bytes_before_from(a: Seq<u8>, b: Seq<u8>, i: int) -> bool
    decreases a.len() - i,
{
    if i < 0 || i >= b.len() {
        false
    } else if i >= a.len() {
        true
    } else if a[i] != b[i] {
        a[i] < b[i]
    } else {
        bytes_before_from(a, b, i + 1)
    }
}

/// Strict lexicographic order on byte strings.
pub open spec fn bytes_before(a: Seq<u8>, b: Seq<u8>) -> bool {
    bytes_before_from(a, b, 0)
}

/// The two byte strings have the same length and agree from `i` on.
pub open spec fn bytes_same_from(a: Seq<u8>, b: Seq<u8>, i: int) -> bool {
    a.len() == b.len() && forall|j: int| i <= j < a.len() ==> a[j] == b[j]
}

/// Strict order on text: the lexicographic order of the UTF-8 encodings.
pub open spec fn text_before(a: Seq<char>, b: Seq<char>) -> bool {
    bytes_before(encode_utf8(a), encode_utf8(b))
}

/// From any position on, exactly one of "a before b", "b before a" and
/// "a and b agree" holds.
pub proof fn lemma_bytes_trichotomy_from(a: Seq<u8>, b: Seq<u8>, i: int)
    requires
        0 <= i <= a.len(),
        i <= b.len(),
    ensures
        bytes_before_from(a, b, i) || bytes_before_from(b, a, i) || bytes_same_from(a, b, i),
        !(bytes_before_from(a, b, i) && bytes_before_from(b, a, i)),
        bytes_same_from(a, b, i) ==> !bytes_before_from(a, b, i) && !bytes_before_from(b, a, i),
    decreases a.len() + b.len() - i,
{
    if i < a.len() && i < b.len() && a[i] == b[i] {
        lemma_bytes_trichotomy_from(a, b, i + 1);
    }
}

/// The order is transitive from any position on.
pub proof fn lemma_bytes_transitive_from(a: Seq<u8>, b: Seq<u8>, c: Seq<u8>, i: int)
    requires
        bytes_before_from(a, b, i),
        bytes_before_from(b, c, i),
    ensures
        bytes_before_from(a, c, i),
    decreases a.len() - i,
{
    if i < a.len() && a[i] == b[i] && b[i] == c[i] {
        lemma_bytes_transitive_from(a, b, c, i + 1);
    }
}

/// `bytes_before` is a strict total order: no string is before itself, two
/// different strings are ordered one way and not the other, and the order is
/// transitive.
pub proof fn lemma_bytes_strict_total_order(a: Seq<u8>, b: Seq<u8>, c: Seq<u8>)
    ensures
        !bytes_before(a, a),
        !(bytes_before(a, b) && bytes_before(b, a)),
        bytes_before(a, b) || bytes_before(b, a) || a == b,
        bytes_before(a, b) && bytes_before(b, c) ==> bytes_before(a, c),
        !bytes_before(a, b) && !bytes_before(b, c) ==> !bytes_before(a, c),
{
    lemma_bytes_trichotomy_from(a, a, 0);
    lemma_bytes_trichotomy_from(a, b, 0);
    lemma_bytes_trichotomy_from(b, c, 0);
    lemma_bytes_trichotomy_from(a, c, 0);
    if bytes_same_from(a, b, 0) {
        assert(a =~= b);
    }
    if bytes_same_from(b, c, 0) {
        assert(b =~= c);
    }
    if bytes_before(a, b) && bytes_before(b, c) {
        lemma_bytes_transitive_from(a, b, c, 0);
    }
    if bytes_before(c, b) && bytes_before(b, a) {
        lemma_bytes_transitive_from(c, b, a, 0);
    }
}

/// Whether `a` sorts strictly before `b`.
pub fn is_text_before(a: &str, b: &str) -> (r: bool)
    ensures
        r == text_before(a@, b@),
{
    let x = a.as_bytes();
    let y = b.as_bytes();
    let mut i: usize = 0;
    while i < x.len() && i < y.len()
        invariant
            i <= x.len(),
            i <= y.len(),
            x@ == encode_utf8(a@),
            y@ == encode_utf8(b@),
            bytes_before(x@, y@) == bytes_before_from(x@, y@, i as int),
        decreases x.len() - i,
    {
        if x[i] != y[i] {
            return x[i] < y[i];
        }
        i += 1;
    }
    i < y.len()
}

/// An ASCII upper-case letter becomes its lower-case form; every other byte
/// stays as it is.
pub open spec fn ascii_lower(b: u8) -> u8 {
    if 0x41 <= b <= 0x5a {
        (b + 0x20) as u8
    } else {
        b
    }
}

/// `s` spells `word` once its ASCII upper-case letters are folded to lower
/// case. `word` is meant to be a lower-case ASCII keyword.
pub open spec fn bytes_spell(s: Seq<u8>, word: Seq<u8>) -> bool {
    s.len() == word.len() && forall|i: int| 0 <= i < s.len() ==> ascii_lower(#[trigger] s[i]) == word[i]
}

/// `s` is the keyword `word`, written in any mix of upper and lower case.
pub open spec fn text_spells(s: Seq<char>, word: Seq<char>) -> bool {
    bytes_spell(encode_utf8(s), encode_utf8(word))
}

/// The text is made of the letters `a` to `z` alone.
pub open spec fn is_lower_case_word(word: Seq<char>) -> bool {
    forall|i: int| 0 <= i < word.len() ==> 'a' <= #[trigger] word[i] <= 'z'
}

/// The text starts with a dot.
pub open spec fn starts_with_dot(s: Seq<char>) -> bool {
    encode_utf8(s).len() > 0 && encode_utf8(s)[0] == 0x2e
}

/// Among lower-case words, one spells the other only if they are the same.
pub proof fn lemma_lower_case_words_spell_themselves_only(a: Seq<char>, b: Seq<char>)
    requires
        is_lower_case_word(a),
        is_lower_case_word(b),
    ensures
        text_spells(a, b) == (a == b),
{
    vstd::utf8::is_ascii_chars_encode_utf8(a);
    vstd::utf8::is_ascii_chars_encode_utf8(b);
    let x = encode_utf8(a);
    let y = encode_utf8(b);
    if a == b {
        assert forall|i: int| 0 <= i < x.len() implies ascii_lower(#[trigger] x[i]) == y[i] by {
            assert(x[i] == a[i] as u8);
        }
    }
    if text_spells(a, b) {
        assert forall|i: int| 0 <= i < a.len() implies a[i] == b[i] by {
            assert(x[i] == a[i] as u8);
            assert(y[i] == b[i] as u8);
            assert(ascii_lower(x[i]) == y[i]);
        }
        assert(a =~= b);
    }
}

/// Appends one character to the text.
///
/// This is `String::push` of the standard library, which is documented to
/// append the given character to the end of the string.
#[verifier::external_body]
pub(crate) fn push_char(text: &mut String, c: char)
    ensures
        final(text)@ == old(text)@.push(c),
{
    text.push(c)
}

/// The character of a decimal digit.
pub open spec fn digit_char(digit: nat) -> char {
    if digit == 0 {
        '0'
    } else if digit == 1 {
        '1'
    } else if digit == 2 {
        '2'
    } else if digit == 3 {
        '3'
    } else if digit == 4 {
        '4'
    } else if digit == 5 {
        '5'
    } else if digit == 6 {
        '6'
    } else if digit == 7 {
        '7'
    } else if digit == 8 {
        '8'
    } else {
        '9'
    }
}

/// A number written in decimal digits, without leading zeros.
pub open spec fn decimal_text(n: nat) -> Seq<char>
    decreases n,
{
    if n < 10 {
        seq![digit_char(n)]
    } else {
        decimal_text(n / 10).push(digit_char(n % 10))
    }
}

/// The character of a decimal digit.
fn digit(value: u8) -> (r: char)
    requires
        value < 10,
    ensures
        r == digit_char(value as nat),
{
    match value {
        0 => '0',
        1 => '1',
        2 => '2',
        3 => '3',
        4 => '4',
        5 => '5',
        6 => '6',
        7 => '7',
        8 => '8',
        _ => '9',
    }
}

/// Writes a number in decimal digits.
pub fn decimal(n: u64) -> (r: String)
    ensures
        r@ == decimal_text(n as nat),
    decreases n,
{
    if n < 10 {
        let mut text = String::new();
        push_char(&mut text, digit(n as u8));
        assert(text@ =~= seq![digit_char(n as nat)]);
        text
    } else {
        let mut text = decimal(n / 10);
        push_char(&mut text, digit((n % 10) as u8));
        text
    }
}

/// Folds one byte to lower case.
pub fn to_ascii_lower(b: u8) -> (r: u8)
    ensures
        r == ascii_lower(b),
{
    if 0x41 <= b && b <= 0x5a {
        b + 0x20
    } else {
        b
    }
}

/// Whether `s` is the lower-case keyword `word`, ignoring ASCII case.
pub fn spells(s: &str, word: &str) -> (r: bool)
    ensures
        r == text_spells(s@, word@),
{
    let x = s.as_bytes();
    let y = word.as_bytes();
    if x.len() != y.len() {
        return false;
    }
    let mut i: usize = 0;
    while i < x.len()
        invariant
            i <= x.len(),
            x.len() == y.len(),
            x@ == encode_utf8(s@),
            y@ == encode_utf8(word@),
            forall|j: int| 0 <= j < i ==> ascii_lower(#[trigger] x@[j]) == y@[j],
        decreases x.len() - i,
    {
        if to_ascii_lower(x[i]) != y[i] {
            return false;
        }
        i += 1;
    }
    true
}

/// Two texts with the same UTF-8 encoding are the same text.
pub proof fn lemma_encoding_tells_texts_apart(a: Seq<char>, b: Seq<char>)
    ensures
        (encode_utf8(a) == encode_utf8(b)) == (a == b),
{
    vstd::utf8::encode_utf8_decode_utf8(a);
    vstd::utf8::encode_utf8_decode_utf8(b);
}

/// Whether the two texts are equal.
pub fn same_text(a: &str, b: &str) -> (r: bool)
    ensures
        r == (a@ == b@),
{
    let x = a.as_bytes();
    let y = b.as_bytes();
    proof {
        lemma_encoding_tells_texts_apart(a@, b@);
    }
    if x.len() != y.len() {
        return false;
    }
    let mut i: usize = 0;
    while i < x.len()
        invariant
            i <= x.len(),
            x.len() == y.len(),
            x@ == encode_utf8(a@),
            y@ == encode_utf8(b@),
            (encode_utf8(a@) == encode_utf8(b@)) == (a@ == b@),
            forall|j: int| 0 <= j < i ==> x@[j] == y@[j],
        decreases x.len() - i,
    {
        if x[i] != y[i] {
            return false;
        }
        i += 1;
    }
    assert(x@ =~= y@);
    true
}

/// Whether the text starts with a dot.
pub fn has_leading_dot(s: &str) -> (r: bool)
    ensures
        r == starts_with_dot(s@),
{
    let x = s.as_bytes();
    x.len() > 0 && x[0] == 0x2e
}

} // verus!
