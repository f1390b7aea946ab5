//! Strings as sequences of characters: equality, decimal and hexadecimal
//! notation.

use vstd::prelude::*;
use vstd::string::{StrSliceExecFns, StringExecFns};
use vstd::utf8::encode_utf8_decode_utf8;

verus! {

/// The character that writes the digit `d` in base ten or sixteen (lower case).
pub open spec fn digit_char(d: nat) -> char {
    if d == 0 {
        '0'
    } else if d == 1 {
        '1'
    } else if d == 2 {
        '2'
    } else if d == 3 {
        '3'
    } else if d == 4 {
        '4'
    } else if d == 5 {
        '5'
    } else if d == 6 {
        '6'
    } else if d == 7 {
        '7'
    } else if d == 8 {
        '8'
    } else if d == 9 {
        '9'
    } else if d == 10 {
        'a'
    } else if d == 11 {
        'b'
    } else if d == 12 {
        'c'
    } else if d == 13 {
        'd'
    } else if d == 14 {
        'e'
    } else {
        'f'
    }
}

/// The decimal notation of `n`, without leading zeros; zero is `"0"`.
pub open spec fn decimal_digits(n: nat) -> Seq<char>
    decreases n,
{
    if n < 10 {
        seq![digit_char(n)]
    } else {
        decimal_digits(n / 10).push(digit_char(n % 10))
    }
}

/// The number that `bytes` write in base 256, most significant byte first.
pub open spec fn be_value(bytes: Seq<u8>) -> nat
    decreases bytes.len(),
{
    if bytes.len() == 0 {
        0
    } else {
        be_value(bytes.drop_last()) * 256 + bytes.last() as nat
    }
}

/// Two lower-case hexadecimal digits for each byte, in order.
pub open spec fn lower_hex(bytes: Seq<u8>) -> Seq<char>
    decreases bytes.len(),
{
    if bytes.len() == 0 {
        Seq::empty()
    } else {
        lower_hex(bytes.drop_last()).push(digit_char(bytes.last() as nat / 16)).push(
            digit_char(bytes.last() as nat % 16),
        )
    }
}

/// A big-endian number is zero exactly when all its bytes are.
pub proof fn lemma_be_value_zero(bytes: Seq<u8>)
    ensures
        (be_value(bytes) == 0) == (forall|i: int| 0 <= i < bytes.len() ==> bytes[i] == 0),
    decreases bytes.len(),
{
    if bytes.len() > 0 {
        let front = bytes.drop_last();
        lemma_be_value_zero(front);
        if be_value(bytes) == 0 {
            assert(be_value(front) == 0 && bytes.last() == 0) by (nonlinear_arith)
                requires
                    be_value(front) * 256 + bytes.last() as nat == 0,
            ;
            assert forall|i: int| 0 <= i < bytes.len() implies bytes[i] == 0 by {
                if i < front.len() {
                    assert(bytes[i] == front[i]);
                }
            }
        } else if forall|i: int| 0 <= i < bytes.len() ==> bytes[i] == 0 {
            assert forall|i: int| 0 <= i < front.len() implies front[i] == 0 by {
                assert(front[i] == bytes[i]);
            }
            assert(bytes.last() == bytes[bytes.len() - 1]);
        }
    }
}

/// 256 to the power `n`.
pub open spec fn pow256(n: nat) -> nat
    decreases n,
{
    if n == 0 {
        1
    } else {
        256 * pow256((n - 1) as nat)
    }
}

/// A big-endian number of `n` bytes is below 256 to the power `n`.
pub proof fn lemma_be_value_bound(bytes: Seq<u8>)
    ensures
        be_value(bytes) < pow256(bytes.len()),
    decreases bytes.len(),
{
    if bytes.len() > 0 {
        lemma_be_value_bound(bytes.drop_last());
    }
}

/// The number that two byte strings write together: the first shifted by
/// the length of the second, plus the second.
pub proof fn lemma_be_value_concat(high: Seq<u8>, low: Seq<u8>)
    ensures
        be_value(high + low) == be_value(high) * pow256(low.len()) + be_value(low),
    decreases low.len(),
{
    if low.len() == 0 {
        assert(high + low =~= high);
        assert(be_value(low) == 0);
        assert(pow256(0) == 1);
        assert(be_value(high) * 1 == be_value(high)) by (nonlinear_arith);
    } else {
        let front = low.drop_last();
        let all = high + low;
        assert(all.drop_last() =~= high + front);
        assert(all.last() == low.last());
        lemma_be_value_concat(high, front);
        let h = be_value(high);
        let p = pow256(front.len());
        assert(pow256(low.len()) == 256 * p);
        assert(be_value(all) == be_value(high + front) * 256 + low.last() as nat);
        assert(be_value(low) == be_value(front) * 256 + low.last() as nat);
        assert((h * p + be_value(front)) * 256 == h * (256 * p) + be_value(front) * 256)
            by (nonlinear_arith);
    }
}

/// 256 to the power 16 is one more than the largest 128-bit number.
pub proof fn lemma_pow256_16()
    ensures
        pow256(16) == 0x1_0000_0000_0000_0000_0000_0000_0000_0000,
        pow256(15) == 0x100_0000_0000_0000_0000_0000_0000_0000,
{
    reveal_with_fuel(pow256, 17);
}

/// The number that the 32 bytes write, where it fits in 128 bits.
pub fn word_to_u128(word: &[u8; 32]) -> (value: Option<u128>)
    ensures
        match value {
            Some(v) => be_value(word@) == v,
            None => be_value(word@) > u128::MAX,
        },
{
    let ghost high = word@.subrange(0, 16);
    let ghost low = word@.subrange(16, 32);
    proof {
        assert(word@ =~= high + low);
        lemma_be_value_concat(high, low);
        lemma_be_value_zero(high);
        lemma_be_value_bound(low);
        lemma_pow256_16();
    }
    let mut i: usize = 0;
    while i < 16
        invariant
            i <= 16,
            high == word@.subrange(0, 16),
            low == word@.subrange(16, 32),
            forall|j: int| 0 <= j < i ==> high[j] == 0,
        decreases 16 - i,
    {
        if word[i] != 0 {
            proof {
                assert(word@ =~= high + low);
                lemma_be_value_zero(high);
                lemma_be_value_concat(high, low);
                lemma_pow256_16();
                assert(high[i as int] != 0);
                assert(be_value(high) >= 1);
                assert(be_value(high) * pow256(16) >= pow256(16)) by (nonlinear_arith)
                    requires
                        be_value(high) >= 1,
                ;
            }
            return None;
        }
        i += 1;
    }
    let mut value: u128 = 0;
    let mut k: usize = 0;
    assert(low.take(0) =~= Seq::<u8>::empty());
    while k < 16
        invariant
            k <= 16,
            high == word@.subrange(0, 16),
            low == word@.subrange(16, 32),
            forall|j: int| 0 <= j < 16 ==> high[j] == 0,
            value == be_value(low.take(k as int)),
        decreases 16 - k,
    {
        proof {
            lemma_be_value_bound(low.take(k as int));
            lemma_pow256_16();
            lemma_pow256_grows(k as nat, 15);
            let next = low.take(k + 1);
            assert(next.drop_last() =~= low.take(k as int));
            assert(next.last() == word@[16 + k]);
        }
        value = value * 256 + word[16 + k] as u128;
        k += 1;
    }
    proof {
        assert(low.take(16) =~= low);
        assert(word@ =~= high + low);
        lemma_be_value_zero(high);
        lemma_be_value_concat(high, low);
        assert(be_value(high) == 0);
        assert(0 * pow256(low.len()) == 0) by (nonlinear_arith);
    }
    Some(value)
}

/// Powers of 256 grow with the exponent.
pub proof fn lemma_pow256_grows(small: nat, large: nat)
    requires
        small <= large,
    ensures
        pow256(small) <= pow256(large),
    decreases large - small,
{
    if small < large {
        lemma_pow256_grows(small, (large - 1) as nat);
    }
}

/// Whether the 32 bytes write the number zero.
pub fn word_is_zero(word: &[u8; 32]) -> (zero: bool)
    ensures
        zero == (be_value(word@) == 0),
{
    let mut i: usize = 0;
    while i < 32
        invariant
            i <= 32,
            forall|j: int| 0 <= j < i ==> word@[j] == 0,
        decreases 32 - i,
    {
        if word[i] != 0 {
            proof {
                lemma_be_value_zero(word@);
                assert(word@[i as int] != 0);
            }
            return false;
        }
        i += 1;
    }
    proof {
        lemma_be_value_zero(word@);
    }
    true
}

/// Whether two byte slices hold the same bytes.
pub fn bytes_eq(a: &[u8], b: &[u8]) -> (same: bool)
    ensures
        same == (a@ == b@),
{
    if a.len() != b.len() {
        return false;
    }
    let mut i: usize = 0;
    while i < a.len()
        invariant
            a@.len() == b@.len(),
            i <= a@.len(),
            forall|j: int| 0 <= j < i ==> a@[j] == b@[j],
        decreases a@.len() - i,
    {
        if a[i] != b[i] {
            return false;
        }
        i += 1;
    }
    assert(a@ =~= b@);
    true
}

/// Whether two strings hold the same characters.
pub fn str_eq(a: &str, b: &str) -> (same: bool)
    ensures
        same == (a@ == b@),
{
    proof {
        encode_utf8_decode_utf8(a@);
        encode_utf8_decode_utf8(b@);
    }
    bytes_eq(a.as_bytes(), b.as_bytes())
}

/// The one-character string for a decimal digit.
fn digit_str(d: u8) -> (s: &'static str)
    requires
        d < 10,
    ensures
        s@ == seq![digit_char(d as nat)],
{
    proof {
        reveal_strlit("0");
        reveal_strlit("1");
        reveal_strlit("2");
        reveal_strlit("3");
        reveal_strlit("4");
        reveal_strlit("5");
        reveal_strlit("6");
        reveal_strlit("7");
        reveal_strlit("8");
        reveal_strlit("9");
    }
    let s = if d == 0 {
        "0"
    } else if d == 1 {
        "1"
    } else if d == 2 {
        "2"
    } else if d == 3 {
        "3"
    } else if d == 4 {
        "4"
    } else if d == 5 {
        "5"
    } else if d == 6 {
        "6"
    } else if d == 7 {
        "7"
    } else if d == 8 {
        "8"
    } else {
        "9"
    };
    assert(s@ =~= seq![digit_char(d as nat)]);
    s
}

/// The one-character string for a hexadecimal digit, in lower case.
fn hex_digit_str(d: u8) -> (s: &'static str)
    requires
        d < 16,
    ensures
        s@ == seq![digit_char(d as nat)],
{
    proof {
        reveal_strlit("a");
        reveal_strlit("b");
        reveal_strlit("c");
        reveal_strlit("d");
        reveal_strlit("e");
        reveal_strlit("f");
    }
    if d < 10 {
        digit_str(d)
    } else {
        let s = if d == 10 {
            "a"
        } else if d == 11 {
            "b"
        } else if d == 12 {
            "c"
        } else if d == 13 {
            "d"
        } else if d == 14 {
            "e"
        } else {
            "f"
        };
        assert(s@ =~= seq![digit_char(d as nat)]);
        s
    }
}

/// The bytes in hexadecimal notation: `0x`, then two lower-case digits for
/// each byte.
pub open spec fn prefixed_hex(bytes: Seq<u8>) -> Seq<char> {
    seq!['0', 'x'] + lower_hex(bytes)
}

/// Writes the bytes in hexadecimal notation, lower case, after `0x`.
pub fn hex_string(bytes: &[u8]) -> (s: String)
    ensures
        s@ == prefixed_hex(bytes@),
{
    let mut s = String::new();
    proof {
        reveal_strlit("0x");
    }
    s.append("0x");
    assert(s@ =~= seq!['0', 'x'] + lower_hex(bytes@.take(0))) by {
        assert(bytes@.take(0) =~= Seq::<u8>::empty());
    }
    let mut i: usize = 0;
    while i < bytes.len()
        invariant
            i <= bytes@.len(),
            s@ == seq!['0', 'x'] + lower_hex(bytes@.take(i as int)),
        decreases bytes@.len() - i,
    {
        let b: u8 = bytes[i];
        s.append(hex_digit_str(b / 16));
        s.append(hex_digit_str(b % 16));
        proof {
            let next = bytes@.take(i + 1);
            assert(next.drop_last() =~= bytes@.take(i as int));
            assert(next.last() == b);
            assert(s@ =~= seq!['0', 'x'] + lower_hex(next));
        }
        i += 1;
    }
    assert(bytes@.take(i as int) =~= bytes@);
    s
}

/// Writes `n` in decimal notation.
pub fn u64_to_decimal(n: u64) -> (s: String)
    ensures
        s@ == decimal_digits(n as nat),
    decreases n,
{
    if n < 10 {
        let mut s = String::new();
        s.append(digit_str(n as u8));
        assert(s@ =~= decimal_digits(n as nat));
        s
    } else {
        let mut s = u64_to_decimal(n / 10);
        s.append(digit_str((n % 10) as u8));
        assert(s@ =~= decimal_digits(n as nat));
        s
    }
}

/// The texts that a sequence of strings holds, in order.
pub open spec fn texts_view(strings: Seq<String>) -> Seq<Seq<char>> {
    strings.map_values(|s: String| s@)
}

/// Appending a string to a vector appends its text to the vector's texts.
pub proof fn lemma_texts_push(strings: Seq<String>, last: String)
    ensures
        texts_view(strings.push(last)) == texts_view(strings).push(last@),
{
    assert(texts_view(strings.push(last)) =~= texts_view(strings).push(last@));
}

/// Appends a copy of `text` to `strings`.
pub fn push_text(strings: &mut Vec<String>, text: &str)
    ensures
        texts_view(final(strings)@) == texts_view(old(strings)@).push(text@),
{
    let owned = String::from_str(text);
    proof {
        lemma_texts_push(strings@, owned);
    }
    strings.push(owned);
}

/// Appends `text` itself to `strings`.
pub fn push_string(strings: &mut Vec<String>, text: String)
    ensures
        texts_view(final(strings)@) == texts_view(old(strings)@).push(text@),
{
    proof {
        lemma_texts_push(strings@, text);
    }
    strings.push(text);
}

/// The lower-case form of a text.
pub uninterp spec fn lowercase_text(text: Seq<char>) -> Seq<char>;

/// The upper-case form of a text.
pub uninterp spec fn uppercase_text(text: Seq<char>) -> Seq<char>;

/// Whether `needle` occurs in `haystack` as a run of consecutive characters.
pub open spec fn contains_text(haystack: Seq<char>, needle: Seq<char>) -> bool {
    exists|i: int|
        0 <= i && i + needle.len() <= haystack.len() && #[trigger] haystack.subrange(
            i,
            i + needle.len(),
        ) == needle
}

/// Calls `str::to_lowercase`. Trusted: the result is the lower-case form of
/// the text, which depends on the text alone.
#[verifier::external_body]
pub(crate) fn to_lowercase(text: &str) -> (lower: String)
    ensures
        lower@ == lowercase_text(text@),
{
    text.to_lowercase()
}

/// Calls `str::to_uppercase`. Trusted: the result is the upper-case form of
/// the text, which depends on the text alone.
#[verifier::external_body]
pub(crate) fn to_uppercase(text: &str) -> (upper: String)
    ensures
        upper@ == uppercase_text(text@),
{
    text.to_uppercase()
}

/// Calls `str::contains` with a string pattern. Trusted: the result says
/// whether the pattern occurs in the text as a substring.
#[verifier::external_body]
pub(crate) fn str_contains(haystack: &str, needle: &str) -> (found: bool)
    ensures
        found == contains_text(haystack@, needle@),
{
    haystack.contains(needle)
}

/// The lines of a text, without their line endings.
pub uninterp spec fn text_lines(text: Seq<char>) -> Seq<Seq<char>>;

/// The text without the white space at its two ends.
pub uninterp spec fn trimmed_text(text: Seq<char>) -> Seq<char>;

/// The words of a text: what white space separates, nothing empty.
pub uninterp spec fn text_words(text: Seq<char>) -> Seq<Seq<char>>;

/// The parts of a text that `separator` parts from each other.
pub uninterp spec fn text_parts(text: Seq<char>, separator: char) -> Seq<Seq<char>>;

/// Whether a character is an upper-case letter.
pub uninterp spec fn is_uppercase_char(c: char) -> bool;

/// Whether a character is a lower-case letter.
pub uninterp spec fn is_lowercase_char(c: char) -> bool;

/// The upper-case form of an ASCII letter; any other character unchanged.
pub open spec fn ascii_uppercase(c: char) -> char {
    if 'a' <= c && c <= 'z' {
        ((c as u8) - 32) as char
    } else {
        c
    }
}

/// Calls `str::lines` and owns each line. Trusted: the result is the lines
/// of the text, which depend on the text alone.
#[verifier::external_body]
pub(crate) fn lines_of(text: &str) -> (lines: Vec<String>)
    ensures
        texts_view(lines@) == text_lines(text@),
{
    text.lines().map(|line| line.to_string()).collect()
}

/// Calls `str::trim`. Trusted: the result is the text without the white
/// space at its ends, which depends on the text alone.
#[verifier::external_body]
pub(crate) fn trim(text: &str) -> (trimmed: &str)
    ensures
        trimmed@ == trimmed_text(text@),
{
    text.trim()
}

/// Calls `str::split_whitespace` and owns each word. Trusted: the result is
/// the words of the text, which depend on the text alone.
#[verifier::external_body]
pub(crate) fn words_of(text: &str) -> (words: Vec<String>)
    ensures
        texts_view(words@) == text_words(text@),
{
    text.split_whitespace().map(|word| word.to_string()).collect()
}

/// Calls `str::split` with a character and owns each part. Trusted: the
/// result is the parts of the text, which depend on the text and the
/// separator alone.
#[verifier::external_body]
pub(crate) fn parts_of(text: &str, separator: char) -> (parts: Vec<String>)
    ensures
        texts_view(parts@) == text_parts(text@, separator),
{
    text.split(separator).map(|part| part.to_string()).collect()
}

/// Calls `char::is_uppercase`. Trusted: the answer depends on the character
/// alone.
#[verifier::external_body]
pub(crate) fn is_uppercase(c: char) -> (upper: bool)
    ensures
        upper == is_uppercase_char(c),
{
    c.is_uppercase()
}

/// Calls `char::is_lowercase`. Trusted: the answer depends on the character
/// alone.
#[verifier::external_body]
pub(crate) fn is_lowercase(c: char) -> (lower: bool)
    ensures
        lower == is_lowercase_char(c),
{
    c.is_lowercase()
}

/// Calls `char::to_ascii_uppercase`. Trusted: an ASCII lower-case letter
/// becomes its upper-case form, any other character stays.
#[verifier::external_body]
pub(crate) fn to_ascii_uppercase(c: char) -> (upper: char)
    ensures
        upper == ascii_uppercase(c),
{
    c.to_ascii_uppercase()
}

/// Calls `String::push`. Trusted: the character is appended at the end.
#[verifier::external_body]
pub(crate) fn push_char(text: &mut String, c: char)
    ensures
        final(text)@ == old(text)@.push(c),
{
    text.push(c)
}

/// Whether `text` begins with `prefix`.
pub fn starts_with(text: &str, prefix: &str) -> (yes: bool)
    ensures
        yes == prefix@.is_prefix_of(text@),
{
    let n = prefix.unicode_len();
    if n > text.unicode_len() {
        return false;
    }
    let mut i: usize = 0;
    while i < n
        invariant
            i <= n,
            n == prefix@.len(),
            n <= text@.len(),
            forall|j: int| 0 <= j < i ==> text@[j] == prefix@[j],
        decreases n - i,
    {
        if text.get_char(i) != prefix.get_char(i) {
            assert(text@.subrange(0, n as int)[i as int] != prefix@[i as int]);
            return false;
        }
        i += 1;
    }
    assert(text@.subrange(0, n as int) =~= prefix@);
    true
}

/// The text without every leading repetition of `pattern`.
pub uninterp spec fn without_leading(text: Seq<char>, pattern: Seq<char>) -> Seq<char>;

/// The number that a text writes in hexadecimal notation, if it writes one
/// that fits in 64 bits.
pub uninterp spec fn hex_number(text: Seq<char>) -> Option<u64>;

/// Calls `str::trim_start_matches` with a string pattern. Trusted: the
/// result depends on the text and the pattern alone.
#[verifier::external_body]
pub(crate) fn trim_start_matches<'a>(text: &'a str, pattern: &str) -> (rest: &'a str)
    ensures
        rest@ == without_leading(text@, pattern@),
{
    text.trim_start_matches(pattern)
}

/// Calls `u64::from_str_radix` with radix 16. Trusted: whether a number
/// comes back, and which, depends on the text alone.
#[verifier::external_body]
pub(crate) fn parse_hex_u64(text: &str) -> (number: Option<u64>)
    ensures
        number == hex_number(text@),
{
    u64::from_str_radix(text, 16).ok()
}

} // verus!
