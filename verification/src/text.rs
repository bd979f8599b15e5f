//! Text helpers shared by the control surfaces: trimming, comparison
//! without regard to ASCII case, and decimal integers in both directions.

use vstd::prelude::*;
use vstd::std_specs::iter::IteratorSpec;

verus! {

/// `String::push` appends one character to the end of the string.
pub assume_specification[ String::push ](s: &mut String, ch: char)
    ensures
        final(s)@ == old(s)@.push(ch),
;

/// `String::push_str` appends a string slice to the end of the string.
pub assume_specification[ String::push_str ](s: &mut String, string: &str)
    ensures
        final(s)@ == old(s)@ + string@,
;

/// True for the characters that Unicode lists as white space.
pub open spec fn is_whitespace(c: char) -> bool {
    let u = c as u32;
    u == 0x20 || (0x09 <= u <= 0x0D) || u == 0x85 || u == 0xA0 || u == 0x1680 || (0x2000 <= u
        <= 0x200A) || u == 0x2028 || u == 0x2029 || u == 0x202F || u == 0x205F || u == 0x3000
}

/// The index of the first character at or after `i` that is no white
/// space, or the length of `s` where there is none.
pub open spec fn skip_whitespace(s: Seq<char>, i: int) -> int
    decreases s.len() - i,
{
    if 0 <= i < s.len() && is_whitespace(s[i]) {
        skip_whitespace(s, i + 1)
    } else {
        i
    }
}

/// The end of the text that remains when trailing white space is dropped
/// from `s[lo..j]`.
pub open spec fn drop_trailing_whitespace(s: Seq<char>, lo: int, j: int) -> int
    decreases j,
{
    if 0 <= lo < j <= s.len() && is_whitespace(s[j - 1]) {
        drop_trailing_whitespace(s, lo, j - 1)
    } else {
        j
    }
}

/// Where the trimmed text starts in `s`.
pub open spec fn trim_start(s: Seq<char>) -> int {
    skip_whitespace(s, 0)
}

/// Where the trimmed text ends in `s`.
pub open spec fn trim_end(s: Seq<char>) -> int {
    drop_trailing_whitespace(s, trim_start(s), s.len() as int)
}

/// `s` without leading and trailing white space.
pub open spec fn trimmed(s: Seq<char>) -> Seq<char> {
    s.subrange(trim_start(s), trim_end(s))
}

/// The lower-case form of an ASCII letter; any other character itself.
pub open spec fn ascii_lower(c: char) -> char {
    if 'A' <= c <= 'Z' {
        ((c as u8) + 32) as u8 as char
    } else {
        c
    }
}

/// `s` with every ASCII letter in lower case.
pub open spec fn lowered(s: Seq<char>) -> Seq<char> {
    Seq::new(s.len(), |i: int| ascii_lower(s[i]))
}

/// True where the two texts are equal once ASCII letters are lowered.
pub open spec fn same_ignoring_case(a: Seq<char>, b: Seq<char>) -> bool {
    lowered(a) == lowered(b)
}

/// True for the ASCII digits.
pub open spec fn is_digit(c: char) -> bool {
    '0' <= c <= '9'
}

/// True where every character of `s` is an ASCII digit.
pub open spec fn all_digits(s: Seq<char>) -> bool {
    forall|i: int| 0 <= i < s.len() ==> is_digit(#[trigger] s[i])
}

/// The number that a run of decimal digits denotes.
pub open spec fn digits_value(s: Seq<char>) -> int
    decreases s.len(),
{
    if s.len() == 0 {
        0
    } else {
        digits_value(s.drop_last()) * 10 + (s.last() as int - '0' as int)
    }
}

/// The digits of `s` after an optional sign.
pub open spec fn unsigned_part(s: Seq<char>) -> Seq<char> {
    if s.len() > 0 && (s[0] == '-' || s[0] == '+') {
        s.subrange(1, s.len() as int)
    } else {
        s
    }
}

/// The integer that `s` denotes: an optional `+` or `-`, then at least one
/// decimal digit. A text of another form denotes nothing.
pub open spec fn decimal_value(s: Seq<char>) -> Option<int> {
    let body = unsigned_part(s);
    if body.len() == 0 || !all_digits(body) {
        None
    } else if s[0] == '-' {
        Some(-digits_value(body))
    } else {
        Some(digits_value(body))
    }
}

/// The 32-bit integer that `s` denotes, if it denotes one that fits.
pub open spec fn parsed_i32(s: Seq<char>) -> Option<i32> {
    match decimal_value(s) {
        Some(v) => if i32::MIN <= v <= i32::MAX {
            Some(v as i32)
        } else {
            None
        },
        None => None,
    }
}

/// The character for the digit `d`.
pub open spec fn digit_char(d: int) -> char {
    ((48 + d) as u8) as char
}

/// The decimal digits of a natural number, without leading zeros.
pub open spec fn natural_text(n: nat) -> Seq<char>
    decreases n,
{
    if n < 10 {
        seq![digit_char(n as int)]
    } else {
        natural_text(n / 10).push(digit_char((n % 10) as int))
    }
}

/// The decimal form of an integer, with `-` before a negative one.
pub open spec fn integer_text(v: int) -> Seq<char> {
    if v < 0 {
        seq!['-'] + natural_text((-v) as nat)
    } else {
        natural_text(v as nat)
    }
}

/// The text that `text` holds, if it holds one.
pub open spec fn optional_text(text: Option<String>) -> Option<Seq<char>> {
    match text {
        Some(t) => Some(t@),
        None => None,
    }
}

/// The characters of a string slice.
pub fn chars_of(s: &str) -> (chars: Vec<char>)
    ensures
        chars@ == s@,
{
    let mut chars: Vec<char> = Vec::new();
    let mut rest = s.chars();
    loop
        invariant
            chars@ + rest.remaining() == s@,
            rest.decrease() is Some,
        ensures
            chars@ == s@,
        decreases rest.decrease()->0,
    {
        let ghost before = rest.remaining();
        match rest.next() {
            Some(c) => {
                chars.push(c);
                assert(chars@ + rest.remaining() =~= s@);
            },
            None => {
                assert(chars@ =~= chars@ + before);
                break ;
            },
        }
    }
    chars
}

/// Tells whether `c` is white space.
pub fn char_is_whitespace(c: char) -> (white: bool)
    ensures
        white == is_whitespace(c),
{
    let u: u32 = c as u32;
    u == 0x20 || (0x09 <= u && u <= 0x0D) || u == 0x85 || u == 0xA0 || u == 0x1680 || (0x2000 <= u
        && u <= 0x200A) || u == 0x2028 || u == 0x2029 || u == 0x202F || u == 0x205F || u == 0x3000
}

/// The bounds of `s` without leading and trailing white space.
pub fn trim_bounds(s: &[char]) -> (bounds: (usize, usize))
    ensures
        bounds.0 == trim_start(s@),
        bounds.1 == trim_end(s@),
        bounds.0 <= bounds.1 <= s@.len(),
{
    let n: usize = s.len();
    let mut start: usize = 0;
    while start < n && char_is_whitespace(s[start])
        invariant
            n == s@.len(),
            start <= n,
            skip_whitespace(s@, start as int) == skip_whitespace(s@, 0),
        decreases n - start,
    {
        start += 1;
    }
    let mut end: usize = n;
    while end > start && char_is_whitespace(s[end - 1])
        invariant
            n == s@.len(),
            start <= end <= n,
            drop_trailing_whitespace(s@, start as int, end as int) == drop_trailing_whitespace(
                s@,
                start as int,
                n as int,
            ),
        decreases end,
    {
        end -= 1;
    }
    (start, end)
}

/// `s` without leading and trailing white space.
pub fn trim_chars(s: &[char]) -> (out: Vec<char>)
    ensures
        out@ == trimmed(s@),
{
    let (start, end) = trim_bounds(s);
    let mut out: Vec<char> = Vec::new();
    let mut i: usize = start;
    while i < end
        invariant
            start <= i <= end <= s@.len(),
            out@ == s@.subrange(start as int, i as int),
        decreases end - i,
    {
        out.push(s[i]);
        i += 1;
        assert(out@ =~= s@.subrange(start as int, i as int));
    }
    out
}

/// The lower-case form of an ASCII letter; any other character itself.
pub fn lower_char(c: char) -> (out: char)
    ensures
        out == ascii_lower(c),
{
    if 'A' <= c && c <= 'Z' {
        ((c as u8) + 32) as char
    } else {
        c
    }
}

/// Compares a text with a word, without regard to the case of ASCII letters.
pub fn eq_ignore_case(text: &[char], word: &str) -> (same: bool)
    ensures
        same == same_ignoring_case(text@, word@),
{
    let other: Vec<char> = chars_of(word);
    if text.len() != other.len() {
        assert(lowered(text@).len() != lowered(word@).len());
        return false;
    }
    let n: usize = text.len();
    let mut i: usize = 0;
    while i < n
        invariant
            n == text@.len(),
            n == other@.len(),
            other@ == word@,
            i <= n,
            forall|k: int| 0 <= k < i ==> ascii_lower(text@[k]) == ascii_lower(other@[k]),
        decreases n - i,
    {
        if lower_char(text[i]) != lower_char(other[i]) {
            assert(lowered(text@)[i as int] != lowered(word@)[i as int]);
            return false;
        }
        i += 1;
    }
    assert(lowered(text@) =~= lowered(word@));
    true
}

/// Compares a text with a word, character by character.
pub fn eq_exact(text: &[char], word: &str) -> (same: bool)
    ensures
        same == (text@ == word@),
{
    let other: Vec<char> = chars_of(word);
    if text.len() != other.len() {
        return false;
    }
    let n: usize = text.len();
    let mut i: usize = 0;
    while i < n
        invariant
            n == text@.len(),
            n == other@.len(),
            other@ == word@,
            i <= n,
            forall|k: int| 0 <= k < i ==> text@[k] == other@[k],
        decreases n - i,
    {
        if text[i] != other[i] {
            return false;
        }
        i += 1;
    }
    assert(text@ =~= word@);
    true
}

/// A run of digits that extends another denotes at least as much.
proof fn lemma_digits_value_grows(s: Seq<char>, k: int)
    requires
        all_digits(s),
        0 <= k <= s.len(),
    ensures
        0 <= digits_value(s.subrange(0, k)) <= digits_value(s),
    decreases s.len() - k,
{
    lemma_digits_value_nonnegative(s.subrange(0, k));
    if k < s.len() {
        let longer = s.subrange(0, k + 1);
        assert(longer.drop_last() =~= s.subrange(0, k));
        assert(is_digit(s[k]));
        assert(longer.last() == s[k]);
        lemma_digits_value_grows(s, k + 1);
    } else {
        assert(s.subrange(0, k) =~= s);
    }
}

/// A run of digits denotes no negative number.
proof fn lemma_digits_value_nonnegative(s: Seq<char>)
    requires
        all_digits(s),
    ensures
        0 <= digits_value(s),
    decreases s.len(),
{
    if s.len() > 0 {
        assert(is_digit(s[s.len() - 1]));
        lemma_digits_value_nonnegative(s.drop_last());
    }
}

/// Reads a decimal integer of 32 bits: an optional sign, then digits.
/// Anything else, and a number that does not fit, gives `None`.
pub fn parse_i32(s: &[char]) -> (value: Option<i32>)
    ensures
        value == parsed_i32(s@),
{
    let n: usize = s.len();
    if n == 0 {
        return None;
    }
    let negative: bool = s[0] == '-';
    let first: usize = if s[0] == '-' || s[0] == '+' {
        1
    } else {
        0
    };
    if first == n {
        return None;
    }
    let ghost body = unsigned_part(s@);
    assert(body =~= s@.subrange(first as int, n as int));
    let limit: i64 = 2147483648;
    let mut acc: i64 = 0;
    let mut i: usize = first;
    while i < n
        invariant
            first <= i <= n,
            n == s@.len(),
            body == s@.subrange(first as int, n as int),
            body == unsigned_part(s@),
            limit == 2147483648,
            all_digits(body.subrange(0, i - first)),
            acc == digits_value(body.subrange(0, i - first)),
            0 <= acc <= limit,
        decreases n - i,
    {
        let c: char = s[i];
        if !('0' <= c && c <= '9') {
            assert(!is_digit(body[i - first]));
            return None;
        }
        let d: i64 = (c as u32 - 48) as i64;
        let ghost longer = body.subrange(0, i - first + 1);
        proof {
            assert(longer.drop_last() =~= body.subrange(0, i - first));
            assert(longer.last() == c);
            assert forall|k: int| 0 <= k < longer.len() implies is_digit(#[trigger] longer[k]) by {
                if k < i - first {
                    assert(longer[k] == body.subrange(0, i - first)[k]);
                }
            }
        }
        let next: i64 = acc * 10 + d;
        if next > limit {
            // Too large whatever follows: only the form is left to check.
            let mut j: usize = i + 1;
            while j < n
                invariant
                    i < j <= n,
                    n == s@.len(),
                    first <= i,
                    body == s@.subrange(first as int, n as int),
                    body == unsigned_part(s@),
                    all_digits(body.subrange(0, j - first)),
                    digits_value(body.subrange(0, i - first + 1)) > 2147483648,
                    all_digits(body.subrange(0, i - first + 1)),
                decreases n - j,
            {
                let cj: char = s[j];
                if !('0' <= cj && cj <= '9') {
                    assert(!is_digit(body[j - first]));
                    return None;
                }
                proof {
                    let wider = body.subrange(0, j - first + 1);
                    assert forall|k: int| 0 <= k < wider.len() implies is_digit(
                        #[trigger] wider[k],
                    ) by {
                        if k < j - first {
                            assert(wider[k] == body.subrange(0, j - first)[k]);
                        }
                    }
                }
                j += 1;
            }
            proof {
                assert(body.subrange(0, n - first) =~= body);
                lemma_digits_value_grows(body, i - first + 1);
            }
            return None;
        }
        acc = next;
        i += 1;
    }
    proof {
        assert(body.subrange(0, n - first) =~= body);
    }
    if negative {
        Some((-acc) as i32)
    } else if acc == limit {
        None
    } else {
        Some(acc as i32)
    }
}

/// Appends the decimal digits of `n` to `out`.
pub fn push_natural(out: &mut String, n: u32)
    ensures
        final(out)@ == old(out)@ + natural_text(n as nat),
    decreases n,
{
    if n >= 10 {
        push_natural(out, n / 10);
    }
    let d: u8 = (n % 10) as u8;
    out.push((48 + d) as char);
    assert(final(out)@ =~= old(out)@ + natural_text(n as nat));
}

/// Appends the decimal form of `v` to `out`.
pub fn push_integer(out: &mut String, v: i32)
    ensures
        final(out)@ == old(out)@ + integer_text(v as int),
{
    if v < 0 {
        out.push('-');
        let magnitude: u32 = (-(v as i64)) as u32;
        push_natural(out, magnitude);
        assert(final(out)@ =~= old(out)@ + integer_text(v as int));
    } else {
        push_natural(out, v as u32);
    }
}

} // verus!
