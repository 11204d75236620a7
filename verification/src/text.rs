//! Decimal text for integers, and the few string primitives of std that the
//! rest of the crate builds on.

use vstd::prelude::*;

verus! {

/// `String::push` of std appends one character to the end of the string.
pub assume_specification[ String::push ](s: &mut String, c: char)
    ensures
        final(s)@ == old(s)@.push(c),
;

/// `String::push_str` of std appends a string slice to the end of the
/// string.
pub assume_specification[ String::push_str ](s: &mut String, other: &str)
    ensures
        final(s)@ == old(s)@ + other@,
;

/// Equality of string slices in std, `a == b`, compares their characters.
#[verifier::external_body]
pub(crate) fn same_text(a: &str, b: &str) -> (r: bool)
    ensures
        r == (a@ == b@),
{
    a == b
}

/// The text inside an optional string.
pub open spec fn opt_text(o: Option<String>) -> Option<Seq<char>> {
    match o {
        Some(s) => Some(s@),
        None => None,
    }
}

/// The text inside an optional string slice.
pub open spec fn opt_str(o: Option<&str>) -> Option<Seq<char>> {
    match o {
        Some(s) => Some(s@),
        None => None,
    }
}

/// The texts inside a list of strings.
pub open spec fn texts(v: Seq<String>) -> Seq<Seq<char>> {
    Seq::new(v.len(), |i: int| v[i]@)
}

/// The character that stands for one decimal digit.
pub open spec fn digit_char(d: int) -> char {
    if d == 0 {
        '0'
    } else if d == 1 {
        '1'
    } else if d == 2 {
        '2'
    } else if d == 3 {
        '3'
    } else if d == 4 {
        '4'
    } else if d == 5 {
        '5'
    } else if d == 6 {
        '6'
    } else if d == 7 {
        '7'
    } else if d == 8 {
        '8'
    } else {
        '9'
    }
}

/// The decimal digits of a natural number, most significant first, without
/// leading zeros (zero itself is the single digit `0`).
pub open spec fn decimal_digits(n: nat) -> Seq<char>
    decreases n,
{
    if n < 10 {
        seq![digit_char(n as int)]
    } else {
        decimal_digits(n / 10).push(digit_char((n % 10) as int))
    }
}

/// The decimal text of an integer: a minus sign for a negative number, then
/// the digits of its magnitude.
pub open spec fn decimal_text(i: int) -> Seq<char> {
    if i < 0 {
        seq!['-'] + decimal_digits((-i) as nat)
    } else {
        decimal_digits(i as nat)
    }
}

fn digit_of(d: u8) -> (c: char)
    requires
        d < 10,
    ensures
        c == digit_char(d as int),
{
    if d == 0 {
        '0'
    } else if d == 1 {
        '1'
    } else if d == 2 {
        '2'
    } else if d == 3 {
        '3'
    } else if d == 4 {
        '4'
    } else if d == 5 {
        '5'
    } else if d == 6 {
        '6'
    } else if d == 7 {
        '7'
    } else if d == 8 {
        '8'
    } else {
        '9'
    }
}

/// Appends the decimal digits of `n` to `out`.
pub fn push_decimal(out: &mut String, n: u128)
    ensures
        final(out)@ == old(out)@ + decimal_digits(n as nat),
    decreases n,
{
    if n >= 10 {
        push_decimal(out, n / 10);
    }
    let d: u8 = (n % 10) as u8;
    out.push(digit_of(d));
    proof {
        if n >= 10 {
            assert(old(out)@ + decimal_digits((n / 10) as nat).push(digit_char((n % 10) as int))
                =~= (old(out)@ + decimal_digits((n / 10) as nat)).push(
                digit_char((n % 10) as int),
            ));
        } else {
            assert(old(out)@ + seq![digit_char(n as int)] =~= old(out)@.push(digit_char(n as int)));
        }
    }
}

/// The decimal text of an unsigned integer.
pub fn u64_to_string(n: u64) -> (s: String)
    ensures
        s@ == decimal_text(n as int),
{
    let mut s = String::new();
    push_decimal(&mut s, n as u128);
    assert(Seq::<char>::empty() + decimal_digits(n as nat) =~= decimal_digits(n as nat));
    s
}

/// The decimal text of a signed integer.
pub fn i64_to_string(i: i64) -> (s: String)
    ensures
        s@ == decimal_text(i as int),
{
    let mut s = String::new();
    if i < 0 {
        s.push('-');
        let magnitude: u128 = (-(i as i128)) as u128;
        push_decimal(&mut s, magnitude);
        assert(Seq::<char>::empty().push('-') =~= seq!['-']);
    } else {
        push_decimal(&mut s, i as u128);
        assert(Seq::<char>::empty() + decimal_digits(i as nat) =~= decimal_digits(i as nat));
    }
    s
}

/// The character that stands for one hexadecimal digit, in lower case.
pub open spec fn hex_char(d: int) -> char {
    if d < 10 {
        digit_char(d)
    } else if d == 10 {
        'a'
    } else if d == 11 {
        'b'
    } else if d == 12 {
        'c'
    } else if d == 13 {
        'd'
    } else if d == 14 {
        'e'
    } else {
        'f'
    }
}

/// The character of a hexadecimal digit.
pub fn hex_of(d: u8) -> (c: char)
    requires
        d < 16,
    ensures
        c == hex_char(d as int),
{
    if d < 10 {
        digit_of(d)
    } else if d == 10 {
        'a'
    } else if d == 11 {
        'b'
    } else if d == 12 {
        'c'
    } else if d == 13 {
        'd'
    } else if d == 14 {
        'e'
    } else {
        'f'
    }
}

/// The upper half of a byte.
pub open spec fn high_nibble(b: u8) -> u8 {
    b / 16
}

/// The lower half of a byte.
pub open spec fn low_nibble(b: u8) -> u8 {
    b % 16
}

/// Bytes in hexadecimal: two lower-case digits for each byte, the upper
/// half first.
pub open spec fn hex_lower(bytes: Seq<u8>) -> Seq<char> {
    Seq::new(
        2 * bytes.len(),
        |i: int|
            if i % 2 == 0 {
                hex_char(high_nibble(bytes[i / 2]) as int)
            } else {
                hex_char(low_nibble(bytes[i / 2]) as int)
            },
    )
}

/// Writes bytes in hexadecimal, two lower-case digits for each byte.
pub fn to_hex_lower(bytes: &Vec<u8>) -> (s: String)
    ensures
        s@ == hex_lower(bytes@),
{
    let mut s = String::new();
    let mut i: usize = 0;
    while i < bytes.len()
        invariant
            i <= bytes.len(),
            s@ == hex_lower(bytes@.subrange(0, i as int)),
        decreases bytes.len() - i,
    {
        let b = bytes[i];
        s.push(hex_of(b / 16));
        s.push(hex_of(b % 16));
        proof {
            let before = bytes@.subrange(0, i as int);
            let after = bytes@.subrange(0, i + 1);
            assert(s@ =~= hex_lower(after)) by {
                assert(s@.len() == 2 * (i + 1));
                assert forall|k: int| 0 <= k < 2 * (i + 1) implies s@[k] == hex_lower(after)[k] by {
                    if k < 2 * i {
                        assert(s@[k] == hex_lower(before)[k]);
                        assert(before[k / 2] == after[k / 2]);
                    } else {
                        assert(k / 2 == i);
                        assert(after[i as int] == b);
                    }
                }
            }
        }
        i += 1;
    }
    assert(bytes@.subrange(0, bytes.len() as int) =~= bytes@);
    s
}


/// The lower-case form of a text, as Unicode defines it.
pub uninterp spec fn lowercase(s: Seq<char>) -> Seq<char>;

/// The upper-case form of a text, as Unicode defines it.
pub uninterp spec fn uppercase(s: Seq<char>) -> Seq<char>;

/// Whether Unicode counts a character as white space.
pub uninterp spec fn is_whitespace(c: char) -> bool;

/// `str::to_lowercase` of std: the lower-case equivalent of the text, as a
/// new string. It depends on the text alone.
#[verifier::external_body]
pub(crate) fn to_lowercase(s: &str) -> (r: String)
    ensures
        r@ == lowercase(s@),
{
    s.to_lowercase()
}

/// `str::to_uppercase` of std: the upper-case equivalent of the text, as a
/// new string. It depends on the text alone.
#[verifier::external_body]
pub(crate) fn to_uppercase(s: &str) -> (r: String)
    ensures
        r@ == uppercase(s@),
{
    s.to_uppercase()
}

/// `char::is_whitespace` of std: whether the character has the Unicode
/// property `White_Space`. The space character has it.
#[verifier::external_body]
pub(crate) fn char_is_whitespace(c: char) -> (b: bool)
    ensures
        b == is_whitespace(c),
        c == ' ' ==> b,
{
    c.is_whitespace()
}

/// The words of a text: its longest runs of characters that are not white
/// space, in their order.
pub open spec fn words(s: Seq<char>) -> Seq<Seq<char>>
    decreases s.len(),
{
    if s.len() == 0 {
        Seq::empty()
    } else {
        let before = words(s.drop_last());
        if is_whitespace(s.last()) {
            before
        } else if s.len() >= 2 && !is_whitespace(s[s.len() - 2]) {
            before.drop_last().push(before.last().push(s.last()))
        } else {
            before.push(seq![s.last()])
        }
    }
}

/// A text that does not end in white space ends in a word.
pub proof fn lemma_last_word(s: Seq<char>)
    requires
        s.len() > 0,
        !is_whitespace(s.last()),
    ensures
        words(s).len() > 0,
    decreases s.len(),
{
    if s.len() >= 2 && !is_whitespace(s[s.len() - 2]) {
        let t = s.drop_last();
        assert(t.last() == s[s.len() - 2]);
        lemma_last_word(t);
    }
}

/// A text has at least as many words as each of its beginnings.
pub proof fn lemma_words_grow(s: Seq<char>, upto: int)
    requires
        0 <= upto <= s.len(),
    ensures
        words(s.subrange(0, upto)).len() <= words(s).len(),
    decreases s.len() - upto,
{
    if upto == s.len() {
        assert(s.subrange(0, upto) =~= s);
    } else {
        let shorter = s.subrange(0, upto);
        let longer = s.subrange(0, upto + 1);
        assert(longer.drop_last() =~= shorter);
        if !is_whitespace(longer.last()) && longer.len() >= 2 && !is_whitespace(
            longer[longer.len() - 2],
        ) {
            assert(shorter.last() == longer[longer.len() - 2]);
            lemma_last_word(shorter);
        }
        lemma_words_grow(s, upto + 1);
    }
}

/// A text with a character that is not white space has a word.
pub proof fn lemma_visible_text_has_words(s: Seq<char>, place: int)
    requires
        0 <= place < s.len(),
        !is_whitespace(s[place]),
    ensures
        words(s).len() > 0,
{
    let beginning = s.subrange(0, place + 1);
    assert(beginning.last() == s[place]);
    lemma_last_word(beginning);
    lemma_words_grow(s, place + 1);
}

/// Splits a text into its words.
pub fn split_words(s: &str) -> (out: Vec<String>)
    ensures
        texts(out@) == words(s@),
{
    let mut out: Vec<String> = Vec::new();
    let mut current = String::new();
    let mut open = false;
    for c in it: s.chars()
        invariant
            it.seq() == s@,
            open ==> it.index() > 0 && !is_whitespace(s@[it.index() - 1]) && current@.len() > 0,
            !open ==> current@.len() == 0 && (it.index() > 0 ==> is_whitespace(
                s@[it.index() - 1],
            )),
            words(s@.subrange(0, it.index() as int)) == if open {
                texts(out@).push(current@)
            } else {
                texts(out@)
            },
    {
        let ghost k = it.index() as int;
        let ghost prefix = s@.subrange(0, k);
        let ghost next = s@.subrange(0, k + 1);
        proof {
            assert(next.drop_last() =~= prefix);
            assert(next.last() == c);
            if k > 0 {
                assert(next[next.len() - 2] == s@[k - 1]);
            }
        }
        if char_is_whitespace(c) {
            if open {
                let ghost before = texts(out@);
                out.push(current);
                assert(texts(out@) =~= before.push(current@));
                current = String::new();
                open = false;
            }
        } else {
            if open {
                let ghost word = current@;
                current.push(c);
                assert(texts(out@).push(word).drop_last() =~= texts(out@));
            } else {
                current.push(c);
                assert(current@ =~= seq![c]);
            }
            open = true;
        }
    }
    proof {
        assert(s@.subrange(0, s@.len() as int) =~= s@);
    }
    if open {
        let ghost before = texts(out@);
        out.push(current);
        assert(texts(out@) =~= before.push(current@));
    }
    out
}

} // verus!
