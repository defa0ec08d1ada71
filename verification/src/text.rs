//! Text helpers shared by the model: whitespace trimming, case folding,
//! substring search and decimal rendering, each with its meaning over
//! sequences of characters.

use vstd::prelude::*;

verus! {

/// `str == str` of the standard library: two string slices are equal exactly
/// when they hold the same characters.
pub assume_specification[ <str as PartialEq>::eq ](a: &str, b: &str) -> (r: bool)
    ensures
        r == (a@ == b@),
;

/// Whether `c` carries the Unicode `White_Space` property.
pub open spec fn is_whitespace(c: char) -> bool {
    let u = c as u32;
    ||| 0x09 <= u <= 0x0D
    ||| u == 0x20
    ||| u == 0x85
    ||| u == 0xA0
    ||| u == 0x1680
    ||| 0x2000 <= u <= 0x200A
    ||| u == 0x2028
    ||| u == 0x2029
    ||| u == 0x202F
    ||| u == 0x205F
    ||| u == 0x3000
}

/// `s` without its leading whitespace.
pub open spec fn trim_start(s: Seq<char>) -> Seq<char>
    decreases s.len(),
{
    if s.len() > 0 && is_whitespace(s[0]) {
        trim_start(s.skip(1))
    } else {
        s
    }
}

/// `s` without its trailing whitespace.
pub open spec fn trim_end(s: Seq<char>) -> Seq<char>
    decreases s.len(),
{
    if s.len() > 0 && is_whitespace(s.last()) {
        trim_end(s.drop_last())
    } else {
        s
    }
}

/// `s` without leading and trailing whitespace.
pub open spec fn trimmed(s: Seq<char>) -> Seq<char> {
    trim_end(trim_start(s))
}

/// Every character of `s` is whitespace (the empty text included).
pub open spec fn is_blank(s: Seq<char>) -> bool {
    forall|i: int| 0 <= i < s.len() ==> is_whitespace(#[trigger] s[i])
}

/// `str::trim` of the standard library: the slice that remains once leading
/// and trailing characters with the `White_Space` property are removed.
pub assume_specification[ str::trim ](s: &str) -> (r: &str)
    ensures
        r@ == trimmed(s@),
;

proof fn lemma_trim_start_shape(s: Seq<char>)
    ensures
        trim_start(s).len() <= s.len(),
        trim_start(s).len() == 0 <==> is_blank(s),
        trim_start(s).len() > 0 ==> !is_whitespace(trim_start(s)[0]),
        trim_start(s).len() > 0 ==> trim_start(s).last() == s.last(),
    decreases s.len(),
{
    if s.len() > 0 && is_whitespace(s[0]) {
        let rest = s.skip(1);
        lemma_trim_start_shape(rest);
        if is_blank(rest) {
            assert forall|i: int| 0 <= i < s.len() implies is_whitespace(#[trigger] s[i]) by {
                if i > 0 {
                    assert(s[i] == rest[i - 1]);
                }
            }
        }
        if is_blank(s) {
            assert forall|i: int| 0 <= i < rest.len() implies is_whitespace(#[trigger] rest[i]) by {
                assert(rest[i] == s[i + 1]);
            }
        }
    } else if s.len() > 0 {
        assert(!is_whitespace(s[0]));
    }
}

proof fn lemma_trim_end_shape(s: Seq<char>)
    ensures
        trim_end(s).len() <= s.len(),
        trim_end(s).len() == 0 <==> is_blank(s),
        trim_end(s).len() > 0 ==> !is_whitespace(trim_end(s).last()),
        trim_end(s).len() > 0 ==> trim_end(s)[0] == s[0],
    decreases s.len(),
{
    if s.len() > 0 && is_whitespace(s.last()) {
        let rest = s.drop_last();
        lemma_trim_end_shape(rest);
        if is_blank(rest) {
            assert forall|i: int| 0 <= i < s.len() implies is_whitespace(#[trigger] s[i]) by {
                if i < rest.len() {
                    assert(s[i] == rest[i]);
                }
            }
        }
        if is_blank(s) {
            assert forall|i: int| 0 <= i < rest.len() implies is_whitespace(#[trigger] rest[i]) by {
                assert(rest[i] == s[i]);
            }
        }
    } else if s.len() > 0 {
        assert(!is_whitespace(s.last()));
    }
}

/// Trimming leaves nothing exactly when the text is blank, never lengthens
/// the text, and leaves a text that starts and ends with a character that is
/// not whitespace.
pub proof fn lemma_trimmed_shape(s: Seq<char>)
    ensures
        trimmed(s).len() <= s.len(),
        trimmed(s).len() == 0 <==> is_blank(s),
        trimmed(s).len() > 0 ==> !is_whitespace(trimmed(s)[0]) && !is_whitespace(
            trimmed(s).last(),
        ),
{
    lemma_trim_start_shape(s);
    lemma_trim_end_shape(trim_start(s));
}

/// The lower-case form that `str::to_lowercase` gives a text.
pub uninterp spec fn lowercase(s: Seq<char>) -> Seq<char>;

/// `str::to_lowercase` of the standard library: the Unicode lower-case
/// mapping of the whole text, which depends on the text alone.
pub assume_specification[ str::to_lowercase ](s: &str) -> (r: String)
    ensures
        r@ == lowercase(s@),
;

/// `needle` stands in `haystack` at offset `i`.
pub open spec fn occurs_at(needle: Seq<char>, haystack: Seq<char>, i: int) -> bool {
    &&& 0 <= i
    &&& i + needle.len() <= haystack.len()
    &&& haystack.subrange(i, i + needle.len()) == needle
}

/// `needle` stands somewhere in `haystack`.
pub open spec fn is_substring(needle: Seq<char>, haystack: Seq<char>) -> bool {
    exists|i: int| occurs_at(needle, haystack, i)
}

/// Whether `needle` stands somewhere in `haystack`, as a run of characters
/// without a gap. The empty text stands in every text.
pub fn contains_text(haystack: &str, needle: &str) -> (r: bool)
    ensures
        r == is_substring(needle@, haystack@),
{
    let n = haystack.unicode_len();
    let m = needle.unicode_len();
    if m == 0 {
        assert(haystack@.subrange(0, 0) =~= needle@);
        assert(occurs_at(needle@, haystack@, 0));
        return true;
    }
    if m > n {
        return false;
    }
    let last = n - m;
    let mut i: usize = 0;
    while i <= last
        invariant
            n == haystack@.len(),
            m == needle@.len(),
            0 < m <= n,
            last == n - m,
            i <= last + 1,
            forall|j: int| 0 <= j < i ==> !occurs_at(needle@, haystack@, j),
        decreases last + 1 - i,
    {
        if haystack.substring_char(i, i + m).eq(needle) {
            assert(occurs_at(needle@, haystack@, i as int));
            return true;
        }
        i += 1;
    }
    false
}

/// Whether `c` occurs in `s`.
pub fn contains_char(s: &str, c: char) -> (r: bool)
    ensures
        r == s@.contains(c),
{
    let n = s.unicode_len();
    let mut i: usize = 0;
    while i < n
        invariant
            n == s@.len(),
            i <= n,
            forall|j: int| 0 <= j < i ==> s@[j] != c,
        decreases n - i,
    {
        if s.get_char(i) == c {
            return true;
        }
        i += 1;
    }
    false
}

/// The character of the decimal digit `d`.
pub open spec fn digit_char(d: nat) -> char {
    if d == 0 {
        '0'
    } else if d == 1 {
        '1'
    } else if d == 2 {
        '2'
    } else if d == 3 {
        '3'
    } else if d == 4 {
        '4'
    } else if d == 5 {
        '5'
    } else if d == 6 {
        '6'
    } else if d == 7 {
        '7'
    } else if d == 8 {
        '8'
    } else {
        '9'
    }
}

/// The decimal numeral of `n`, without leading zeros.
pub open spec fn decimal(n: nat) -> Seq<char>
    decreases n,
{
    if n < 10 {
        seq![digit_char(n)]
    } else {
        decimal(n / 10).push(digit_char(n % 10))
    }
}

/// The decimal numeral of `n`, with a leading zero where it has one digit.
pub open spec fn two_digits(n: nat) -> Seq<char> {
    if n < 10 {
        seq!['0'].push(digit_char(n))
    } else {
        decimal(n)
    }
}

/// Minutes and seconds as `MM:SS`.
pub open spec fn clock(seconds: nat) -> Seq<char> {
    two_digits(seconds / 60).push(':') + two_digits(seconds % 60)
}

fn digit_text(d: u64) -> (r: &'static str)
    requires
        d < 10,
    ensures
        r@ == seq![digit_char(d as nat)],
{
    proof {
        reveal_strlit("0");
        reveal_strlit("1");
        reveal_strlit("2");
        reveal_strlit("3");
        reveal_strlit("4");
        reveal_strlit("5");
        reveal_strlit("6");
        reveal_strlit("7");
        reveal_strlit("8");
        reveal_strlit("9");
    }
    let r = if d == 0 {
        "0"
    } else if d == 1 {
        "1"
    } else if d == 2 {
        "2"
    } else if d == 3 {
        "3"
    } else if d == 4 {
        "4"
    } else if d == 5 {
        "5"
    } else if d == 6 {
        "6"
    } else if d == 7 {
        "7"
    } else if d == 8 {
        "8"
    } else {
        "9"
    };
    assert(r@ =~= seq![digit_char(d as nat)]);
    r
}

/// The decimal numeral of `n`.
pub fn decimal_text(n: u64) -> (r: String)
    ensures
        r@ == decimal(n as nat),
    decreases n,
{
    if n < 10 {
        digit_text(n).to_string()
    } else {
        let mut head = decimal_text(n / 10);
        head.append(digit_text(n % 10));
        assert(head@ =~= decimal(n as nat));
        head
    }
}

/// The decimal numeral of `n`, zero-padded to two digits.
pub fn two_digit_text(n: u64) -> (r: String)
    ensures
        r@ == two_digits(n as nat),
{
    if n < 10 {
        proof {
            reveal_strlit("0");
        }
        let mut head = "0".to_string();
        head.append(digit_text(n));
        assert(head@ =~= two_digits(n as nat));
        head
    } else {
        decimal_text(n)
    }
}

/// `seconds` as minutes and seconds, `MM:SS`.
pub fn clock_text(seconds: u64) -> (r: String)
    ensures
        r@ == clock(seconds as nat),
{
    proof {
        reveal_strlit(":");
    }
    let mut text = two_digit_text(seconds / 60);
    text.append(":");
    let tail = two_digit_text(seconds % 60);
    text.append(tail.as_str());
    assert(text@ =~= clock(seconds as nat));
    text
}

/// `head` followed by `tail`.
pub fn joined(head: &str, tail: &str) -> (r: String)
    ensures
        r@ == head@ + tail@,
{
    let mut text = head.to_string();
    text.append(tail);
    text
}

/// The value of `c` as a digit in base `radix`, where it is one: `0` to
/// `9`, then the letters in either case for ten and up.
pub open spec fn digit_value(c: char, radix: nat) -> Option<nat> {
    let u = c as u32;
    let value: nat = if 0x30 <= u <= 0x39 {
        (u - 0x30) as nat
    } else if 0x61 <= u <= 0x7A {
        (u - 0x61 + 10) as nat
    } else if 0x41 <= u <= 0x5A {
        (u - 0x41 + 10) as nat
    } else {
        radix
    };
    if value < radix {
        Some(value)
    } else {
        None
    }
}

/// The number that the digits `s` spell in base `radix`, where each of
/// them is a digit of that base.
pub open spec fn digits_value(s: Seq<char>, radix: nat) -> Option<nat>
    decreases s.len(),
{
    if s.len() == 0 {
        Some(0)
    } else {
        match (digits_value(s.drop_last(), radix), digit_value(s.last(), radix)) {
            (Some(head), Some(digit)) => Some(head * radix + digit),
            _ => None,
        }
    }
}

/// The number that `s` spells in base `radix` as the standard library
/// reads unsigned numbers: an optional `+`, then one digit or more and
/// nothing else.
pub open spec fn unsigned_value(s: Seq<char>, radix: nat) -> Option<nat> {
    let digits = if s.len() > 0 && s[0] == '+' {
        s.skip(1)
    } else {
        s
    };
    if digits.len() == 0 {
        None
    } else {
        digits_value(digits, radix)
    }
}

/// `u32::from_str_radix` of the standard library in base 16: the number
/// that the text spells, unless it is no number or does not fit.
#[verifier::external_body]
pub(crate) fn parse_hex_u32(s: &str) -> (number: Option<u32>)
    ensures
        number == match unsigned_value(s@, 16) {
            Some(value) => if value <= u32::MAX {
                Some(value as u32)
            } else {
                None
            },
            None => None,
        },
{
    u32::from_str_radix(s, 16).ok()
}

/// `str::parse::<u8>` of the standard library: the decimal number that the
/// text spells, unless it is no number or does not fit.
#[verifier::external_body]
pub(crate) fn parse_u8(s: &str) -> (number: Option<u8>)
    ensures
        number == match unsigned_value(s@, 10) {
            Some(value) => if value <= u8::MAX {
                Some(value as u8)
            } else {
                None
            },
            None => None,
        },
{
    s.parse::<u8>().ok()
}

} // verus!
