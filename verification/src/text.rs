//! Text helpers: decimal rendering, alignment, integer parsing and editing of `String`s.
use vstd::prelude::*;

verus! {

/// The decimal digit for `d` (0..=9).
pub open spec fn digit_char(d: nat) -> char {
    if d == 0 { '0' }
    else if d == 1 { '1' }
    else if d == 2 { '2' }
    else if d == 3 { '3' }
    else if d == 4 { '4' }
    else if d == 5 { '5' }
    else if d == 6 { '6' }
    else if d == 7 { '7' }
    else if d == 8 { '8' }
    else { '9' }
}

/// Decimal rendering of `n`, without sign or leading zeros ("0" for zero).
pub open spec fn decimal(n: nat) -> Seq<char>
    decreases n,
{
    if n < 10 {
        seq![digit_char(n)]
    } else {
        decimal(n / 10).push(digit_char(n % 10))
    }
}

/// The value of a string of decimal digits (0 for the empty string).
pub open spec fn digits_value(s: Seq<char>) -> int
    decreases s.len(),
{
    if s.len() == 0 {
        0
    } else {
        digits_value(s.drop_last()) * 10 + (s.last() as int - '0' as int)
    }
}

pub open spec fn all_digits(s: Seq<char>) -> bool {
    forall|i: int| 0 <= i < s.len() ==> '0' <= #[trigger] s[i] <= '9'
}

/// What `str::parse` gives for an unsigned integer type whose largest value is `max`:
/// an optional `+` followed by at least one decimal digit, with no other character, and a
/// value that fits.
pub open spec fn parse_unsigned(s: Seq<char>, max: int) -> Option<int> {
    let body = if s.len() > 0 && s[0] == '+' {
        s.drop_first()
    } else {
        s
    };
    if body.len() > 0 && all_digits(body) && digits_value(body) <= max {
        Some(digits_value(body))
    } else {
        None
    }
}

/// The value `s` parses to, or `default` when it does not parse.
pub open spec fn parsed_or(s: Seq<char>, max: int, default: int) -> int {
    match parse_unsigned(s, max) {
        Some(v) => v,
        None => default,
    }
}

/// `s` right-aligned in a field of `width` characters, padded with spaces on the left.
pub open spec fn right_aligned(s: Seq<char>, width: nat) -> Seq<char> {
    if s.len() >= width {
        s
    } else {
        Seq::new((width - s.len()) as nat, |i: int| ' ') + s
    }
}

/// The decimal digit for `d`.
fn digit(d: usize) -> (c: char)
    requires
        d < 10,
    ensures
        c == digit_char(d as nat),
{
    match d {
        0 => '0',
        1 => '1',
        2 => '2',
        3 => '3',
        4 => '4',
        5 => '5',
        6 => '6',
        7 => '7',
        8 => '8',
        _ => '9',
    }
}

/// Decimal rendering of an unsigned integer, as `to_string` prints it.
pub fn usize_text(n: usize) -> (r: String)
    ensures
        r@ == decimal(n as nat),
    decreases n,
{
    if n < 10 {
        let mut r = String::new();
        push_char(&mut r, digit(n));
        proof {
            assert(r@ =~= seq![digit_char(n as nat)]);
        }
        r
    } else {
        let mut r = usize_text(n / 10);
        push_char(&mut r, digit(n % 10));
        r
    }
}

/// A prefix of a string of digits is worth no more than the whole string, and no value is
/// negative.
proof fn lemma_digits_prefix(s: Seq<char>, i: int)
    requires
        all_digits(s),
        0 <= i <= s.len(),
    ensures
        0 <= digits_value(s.take(i)) <= digits_value(s),
    decreases s.len(),
{
    if i == s.len() {
        assert(s.take(i) =~= s);
        if s.len() > 0 {
            lemma_digits_prefix(s.drop_last(), s.len() - 1);
            assert(s.drop_last().take(s.len() - 1) =~= s.drop_last());
        }
    } else {
        lemma_digits_prefix(s.drop_last(), i);
        assert(s.drop_last().take(i) =~= s.take(i));
        lemma_digits_prefix(s.drop_last(), s.len() - 1);
        assert(s.drop_last().take(s.len() - 1) =~= s.drop_last());
    }
}

/// A parsed value lies between zero and the type's largest value.
pub proof fn lemma_parse_unsigned_range(s: Seq<char>, max: int)
    ensures
        parse_unsigned(s, max) matches Some(v) ==> 0 <= v <= max,
{
    let body = if s.len() > 0 && s[0] == '+' {
        s.drop_first()
    } else {
        s
    };
    if body.len() > 0 && all_digits(body) {
        lemma_digits_prefix(body, body.len() as int);
        assert(body.take(body.len() as int) =~= body);
    }
}

/// Parses an unsigned decimal number no larger than `max`, as `str::parse` does for an
/// unsigned type whose largest value is `max`.
pub fn parse_decimal(s: &str, max: u64) -> (r: Option<u64>)
    ensures
        r matches Some(v) ==> parse_unsigned(s@, max as int) == Some(v as int),
        r is None ==> parse_unsigned(s@, max as int) is None,
{
    let n: usize = s.unicode_len();
    let start: usize = if n > 0 && s.get_char(0) == '+' {
        1
    } else {
        0
    };
    let ghost body = s@.subrange(start as int, n as int);
    proof {
        if n > 0 && s@[0] == '+' {
            assert(body =~= s@.drop_first());
        } else {
            assert(body =~= s@);
        }
    }
    if start == n {
        return None;
    }
    let mut acc: u64 = 0;
    let mut i: usize = start;
    proof {
        assert(s@.subrange(start as int, start as int) =~= Seq::<char>::empty());
    }
    while i < n
        invariant
            n == s@.len(),
            start <= i <= n,
            start < n,
            body == s@.subrange(start as int, n as int),
            body == (if s@.len() > 0 && s@[0] == '+' {
                s@.drop_first()
            } else {
                s@
            }),
            all_digits(s@.subrange(start as int, i as int)),
            acc as int == digits_value(s@.subrange(start as int, i as int)),
            acc <= max,
        decreases n - i,
    {
        let c: char = s.get_char(i);
        if c < '0' || c > '9' {
            proof {
                assert(body[i - start] == c);
                assert(!all_digits(body));
                assert(parse_unsigned(s@, max as int) is None);
            }
            return None;
        }
        let d: u64 = ((c as u32) - 48) as u64;
        let ghost next = s@.subrange(start as int, i + 1);
        proof {
            assert(next.drop_last() =~= s@.subrange(start as int, i as int));
            assert(next.last() == c);
            assert(all_digits(next));
            assert(digits_value(next) == acc * 10 + d);
        }
        let overflow: bool = match acc.checked_mul(10) {
            None => true,
            Some(t) => match t.checked_add(d) {
                None => true,
                Some(v) => {
                    if v > max {
                        true
                    } else {
                        acc = v;
                        false
                    }
                },
            },
        };
        if overflow {
            proof {
                assert(digits_value(next) > max);
                if all_digits(body) {
                    lemma_digits_prefix(body, i + 1 - start);
                    assert(body.take(i + 1 - start) =~= next);
                    assert(digits_value(body) > max);
                }
                assert(parse_unsigned(s@, max as int) is None);
            }
            return None;
        }
        i = i + 1;
    }
    Some(acc)
}

/// Parses a `u32` as `str::parse::<u32>` does.
pub fn parse_u32(s: &str) -> (r: Option<u32>)
    ensures
        r matches Some(v) ==> parse_unsigned(s@, u32::MAX as int) == Some(v as int),
        r is None ==> parse_unsigned(s@, u32::MAX as int) is None,
{
    match parse_decimal(s, u32::MAX as u64) {
        Some(v) => Some(v as u32),
        None => None,
    }
}

/// Parses a `usize` as `str::parse::<usize>` does.
pub fn parse_usize(s: &str) -> (r: Option<usize>)
    ensures
        r matches Some(v) ==> parse_unsigned(s@, usize::MAX as int) == Some(v as int),
        r is None ==> parse_unsigned(s@, usize::MAX as int) is None,
{
    match parse_decimal(s, usize::MAX as u64) {
        Some(v) => Some(v as usize),
        None => None,
    }
}

/// Parses a `u64` as `str::parse::<u64>` does.
pub fn parse_u64(s: &str) -> (r: Option<u64>)
    ensures
        r matches Some(v) ==> parse_unsigned(s@, u64::MAX as int) == Some(v as int),
        r is None ==> parse_unsigned(s@, u64::MAX as int) is None,
{
    parse_decimal(s, u64::MAX)
}

/// Appends one character.
///
/// Trusted: calls `String::push`, documented to append the character to the end.
#[verifier::external_body]
pub(crate) fn push_char(s: &mut String, c: char)
    ensures
        final(s)@ == old(s)@.push(c),
{
    s.push(c);
}

/// Removes the last character, if any.
///
/// Trusted: calls `String::pop`, documented to remove and return the last character, or to
/// return `None` and leave the string as it is when it is empty.
#[verifier::external_body]
pub(crate) fn pop_char(s: &mut String) -> (r: Option<char>)
    ensures
        old(s)@.len() == 0 ==> r is None && final(s)@ == old(s)@,
        old(s)@.len() > 0 ==> r == Some(old(s)@.last()) && final(s)@ == old(s)@.drop_last(),
{
    s.pop()
}

/// What `str::trim` returns for `s`: the string without leading and trailing Unicode white
/// space.
pub uninterp spec fn trimmed(s: Seq<char>) -> Seq<char>;

/// What `str::to_lowercase` returns for `s`: the Unicode lowercase mapping of every character.
pub uninterp spec fn lowercased(s: Seq<char>) -> Seq<char>;

/// Trusted: calls `str::trim`; the result is named by `trimmed`, and nothing more is stated.
#[verifier::external_body]
pub(crate) fn trim_text(s: &str) -> (r: &str)
    ensures
        r@ == trimmed(s@),
{
    s.trim()
}

/// Trusted: calls `str::to_lowercase`; the result is named by `lowercased`, and nothing more is
/// stated.
#[verifier::external_body]
pub(crate) fn lowercase_text(s: &str) -> (r: String)
    ensures
        r@ == lowercased(s@),
{
    s.to_lowercase()
}

/// `text` right-aligned in `width` characters, as `format!("{:>width$}", text)` lays it out
/// for a string of single-width characters.
pub fn pad_left(text: &str, width: usize) -> (r: String)
    ensures
        r@ == right_aligned(text@, width as nat),
{
    let n: usize = text.unicode_len();
    let mut out = String::new();
    if n < width {
        let mut i: usize = 0;
        while i < width - n
            invariant
                n < width,
                i <= width - n,
                out@ == Seq::new(i as nat, |k: int| ' '),
            decreases width - n - i,
        {
            out.append(" ");
            proof {
                reveal_strlit(" ");
                assert(out@ =~= Seq::new((i + 1) as nat, |k: int| ' '));
            }
            i = i + 1;
        }
    }
    out.append(text);
    proof {
        if n >= width {
            assert(out@ =~= text@);
        }
    }
    out
}

/// The decimal text of `n`, right-aligned in `width` characters.
pub fn aligned_number(n: usize, width: usize) -> (r: String)
    ensures
        r@ == right_aligned(decimal(n as nat), width as nat),
{
    let t = usize_text(n);
    pad_left(t.as_str(), width)
}

/// `c` with an ASCII capital letter turned into its small letter; every other character as it
/// is.
pub open spec fn ascii_lower(c: char) -> char {
    if 'A' <= c <= 'Z' {
        ((c as u32) + 32) as char
    } else {
        c
    }
}

/// `s` with its ASCII capitals turned into small letters.
pub open spec fn ascii_lowered(s: Seq<char>) -> Seq<char> {
    s.map_values(|c: char| ascii_lower(c))
}

fn ascii_lower_char(c: char) -> (r: char)
    ensures
        r == ascii_lower(c),
{
    if 'A' <= c && c <= 'Z' {
        let b: u8 = c as u8;
        (b + 32) as char
    } else {
        c
    }
}

/// Equality of two texts up to ASCII letter case.
pub fn eq_ignore_ascii_case(a: &str, b: &str) -> (r: bool)
    ensures
        r == (ascii_lowered(a@) == ascii_lowered(b@)),
{
    let n: usize = a.unicode_len();
    if n != b.unicode_len() {
        proof {
            assert(ascii_lowered(a@).len() != ascii_lowered(b@).len());
        }
        return false;
    }
    let mut i: usize = 0;
    while i < n
        invariant
            n == a@.len(),
            n == b@.len(),
            i <= n,
            forall|j: int| 0 <= j < i ==> ascii_lower(a@[j]) == ascii_lower(b@[j]),
        decreases n - i,
    {
        if ascii_lower_char(a.get_char(i)) != ascii_lower_char(b.get_char(i)) {
            proof {
                assert(ascii_lowered(a@)[i as int] != ascii_lowered(b@)[i as int]);
            }
            return false;
        }
        i = i + 1;
    }
    proof {
        assert(ascii_lowered(a@) =~= ascii_lowered(b@));
    }
    true
}

/// Character-by-character equality of two texts.
pub fn text_eq(a: &str, b: &str) -> (r: bool)
    ensures
        r == (a@ == b@),
{
    let n: usize = a.unicode_len();
    if n != b.unicode_len() {
        return false;
    }
    let mut i: usize = 0;
    while i < n
        invariant
            n == a@.len(),
            n == b@.len(),
            i <= n,
            forall|j: int| 0 <= j < i ==> a@[j] == b@[j],
        decreases n - i,
    {
        if a.get_char(i) != b.get_char(i) {
            return false;
        }
        i = i + 1;
    }
    proof {
        assert(a@ =~= b@);
    }
    true
}

} // verus!
