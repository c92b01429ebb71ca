use vstd::prelude::*;
use vstd::string::*;

verus! {

/// The ASCII digit for `d < 10`.
pub open spec fn digit_char(d: nat) -> char {
    if d == 0 { '0' }
    else if d == 1 { '1' }
    else if d == 2 { '2' }
    else if d == 3 { '3' }
    else if d == 4 { '4' }
    else if d == 5 { '5' }
    else if d == 6 { '6' }
    else if d == 7 { '7' }
    else if d == 8 { '8' }
    else { '9' }
}

/// The base-10 text of `n`, without sign or leading zeros.
pub open spec fn decimal(n: nat) -> Seq<char>
    decreases n,
{
    if n < 10 {
        seq![digit_char(n)]
    } else {
        decimal(n / 10).push(digit_char(n % 10))
    }
}

fn digit_str(d: u64) -> (r: &'static str)
    requires
        d < 10,
    ensures
        r@ == seq![digit_char(d as nat)],
{
    let digits = "0123456789";
    proof {
        reveal_strlit("0123456789");
    }
    let r = digits.substring_char(d as usize, d as usize + 1);
    assert(r@ =~= seq![digit_char(d as nat)]);
    r
}

/// Renders `n` in base 10, as `u64`'s `Display` does.
pub fn decimal_text(n: u64) -> (r: String)
    ensures
        r@ == decimal(n as nat),
    decreases n,
{
    if n < 10 {
        String::from_str(digit_str(n))
    } else {
        let mut s = decimal_text(n / 10);
        s.append(digit_str(n % 10));
        s
    }
}

/// Why a numeric text was refused.
#[derive(Clone, Copy, Debug, PartialEq, Eq, Structural)]
pub enum ParseError {
    /// Nothing but whitespace.
    Empty,
    /// The number before the suffix, or the whole token, is no float.
    InvalidNumber,
    /// A letter suffix other than K, M, G or T.
    UnsupportedUnit,
}

/// `char::is_whitespace`: the Unicode White_Space property.
pub open spec fn is_white(c: char) -> bool {
    ('\t' <= c && c <= '\r') || c == ' ' || c == '\u{85}' || c == '\u{a0}' || c == '\u{1680}'
        || ('\u{2000}' <= c && c <= '\u{200a}') || c == '\u{2028}' || c == '\u{2029}'
        || c == '\u{202f}' || c == '\u{205f}' || c == '\u{3000}'
}

pub fn is_white_char(c: char) -> (r: bool)
    ensures
        r == is_white(c),
{
    ('\t' <= c && c <= '\r') || c == ' ' || c == '\u{85}' || c == '\u{a0}' || c == '\u{1680}'
        || ('\u{2000}' <= c && c <= '\u{200a}') || c == '\u{2028}' || c == '\u{2029}'
        || c == '\u{202f}' || c == '\u{205f}' || c == '\u{3000}'
}

/// `s[a..b]` is the first whitespace-delimited token of `s`.
pub open spec fn token_bounds(s: Seq<char>, a: int, b: int) -> bool {
    &&& 0 <= a < b <= s.len()
    &&& forall|j: int| 0 <= j < a ==> is_white(#[trigger] s[j])
    &&& forall|j: int| a <= j < b ==> !is_white(#[trigger] s[j])
    &&& (b == s.len() || is_white(s[b]))
}

pub open spec fn all_white(s: Seq<char>) -> bool {
    forall|j: int| 0 <= j < s.len() ==> is_white(#[trigger] s[j])
}

/// The first whitespace-delimited token of `input`, which is what the number
/// parser reads: `"16.09 J/TH"` gives `"16.09"`.
pub fn number_token(input: &str) -> (r: Result<String, ParseError>)
    ensures
        r is Err <==> all_white(input@),
        r is Err ==> r == Err::<String, ParseError>(ParseError::Empty),
        r is Ok ==> exists|a: int, b: int|
            token_bounds(input@, a, b) && r->Ok_0@ == input@.subrange(a, b),
{
    let n = input.unicode_len();
    let mut a: usize = 0;
    while a < n && is_white_char(input.get_char(a))
        invariant
            n == input@.len(),
            a <= n,
            forall|j: int| 0 <= j < a ==> is_white(#[trigger] input@[j]),
        decreases n - a,
    {
        a = a + 1;
    }
    if a == n {
        return Err(ParseError::Empty);
    }
    let mut b: usize = a + 1;
    while b < n && !is_white_char(input.get_char(b))
        invariant
            n == input@.len(),
            a < b <= n,
            forall|j: int| a <= j < b ==> !is_white(#[trigger] input@[j]),
        decreases n - b,
    {
        b = b + 1;
    }
    let t = String::from_str(input.substring_char(a, b));
    assert(token_bounds(input@, a as int, b as int));
    Ok(t)
}

pub open spec fn is_ascii_letter(c: char) -> bool {
    ('a' <= c && c <= 'z') || ('A' <= c && c <= 'Z')
}

/// A token that ends in an ASCII letter, split into the text before it and
/// the letter.
pub open spec fn suffix_split(t: Seq<char>) -> Option<(Seq<char>, char)> {
    if t.len() > 0 && is_ascii_letter(t.last()) {
        Some((t.drop_last(), t.last()))
    } else {
        None
    }
}

/// The scale of a unit letter, in either case.
pub open spec fn unit_scale(c: char) -> Option<u64> {
    if c == 'K' || c == 'k' {
        Some(1_000)
    } else if c == 'M' || c == 'm' {
        Some(1_000_000)
    } else if c == 'G' || c == 'g' {
        Some(1_000_000_000)
    } else if c == 'T' || c == 't' {
        Some(1_000_000_000_000)
    } else {
        None
    }
}

/// Splits the unit letter off a token that did not read as a plain float.
pub fn split_suffix(token: &str) -> (r: Option<(String, char)>)
    ensures
        match (r, suffix_split(token@)) {
            (Some((head, c)), Some((h, d))) => head@ == h && c == d,
            (None, None) => true,
            _ => false,
        },
{
    let n = token.unicode_len();
    if n == 0 {
        return None;
    }
    let c = token.get_char(n - 1);
    if ('a' <= c && c <= 'z') || ('A' <= c && c <= 'Z') {
        let head = String::from_str(token.substring_char(0, n - 1));
        assert(head@ =~= token@.drop_last());
        Some((head, c))
    } else {
        None
    }
}

/// The factor of a unit letter; any letter but K, M, G, T is refused.
pub fn scale_of(c: char) -> (r: Result<u64, ParseError>)
    ensures
        match unit_scale(c) {
            Some(k) => r == Ok::<u64, ParseError>(k),
            None => r == Err::<u64, ParseError>(ParseError::UnsupportedUnit),
        },
{
    if c == 'K' || c == 'k' {
        Ok(1_000)
    } else if c == 'M' || c == 'm' {
        Ok(1_000_000)
    } else if c == 'G' || c == 'g' {
        Ok(1_000_000_000)
    } else if c == 'T' || c == 't' {
        Ok(1_000_000_000_000)
    } else {
        Err(ParseError::UnsupportedUnit)
    }
}

/// A number written with a supported unit letter splits back into that
/// number's text and the letter's scale.
pub proof fn lemma_suffix_round_trip(number: Seq<char>, c: char)
    requires
        unit_scale(c).is_some(),
    ensures
        suffix_split(number.push(c)) == Some((number, c)),
        is_ascii_letter(c),
{
    assert(number.push(c).drop_last() =~= number);
}

pub open spec fn is_digit(c: char) -> bool {
    '0' <= c && c <= '9'
}

pub open spec fn digit_value(c: char) -> nat {
    (c as u32 - '0' as u32) as nat
}

/// The value of a run of decimal digits.
pub open spec fn digits_value(s: Seq<char>) -> nat
    decreases s.len(),
{
    if s.len() == 0 {
        0
    } else {
        digits_value(s.drop_last()) * 10 + digit_value(s.last())
    }
}

/// What `str::parse::<u64>` gives: an optional `+`, then one or more digits
/// whose value fits.
pub open spec fn u64_of_text(s: Seq<char>) -> Option<u64> {
    let ds = unsigned_digits(s);
    if ds.len() > 0 && all_digits(ds) && digits_value(ds) <= u64::MAX {
        Some(digits_value(ds) as u64)
    } else {
        None
    }
}

/// The text after an optional leading `+`.
pub open spec fn unsigned_digits(s: Seq<char>) -> Seq<char> {
    if s.len() > 0 && s[0] == '+' { s.drop_first() } else { s }
}

pub open spec fn all_digits(ds: Seq<char>) -> bool {
    forall|j: int| 0 <= j < ds.len() ==> is_digit(#[trigger] ds[j])
}

proof fn lemma_digits_value_grows(s: Seq<char>, i: int, j: int)
    requires
        0 <= i <= j <= s.len(),
        forall|k: int| 0 <= k < s.len() ==> is_digit(#[trigger] s[k]),
    ensures
        digits_value(s.subrange(0, i)) <= digits_value(s.subrange(0, j)),
    decreases j - i,
{
    if i < j {
        lemma_digits_value_grows(s, i, j - 1);
        assert(s.subrange(0, j).drop_last() =~= s.subrange(0, j - 1));
    }
}

/// Reads an unsigned integer as `str::parse::<u64>` does.
pub fn parse_u64(text: &str) -> (r: Option<u64>)
    ensures
        r == u64_of_text(text@),
{
    let n = text.unicode_len();
    let ghost s = text@;
    let start: usize = if n > 0 && text.get_char(0) == '+' { 1 } else { 0 };
    let ghost ds = unsigned_digits(s);
    assert(ds =~= s.subrange(start as int, n as int));
    if start == n {
        return None;
    }
    let mut i: usize = start;
    while i < n
        invariant
            start <= i <= n,
            n == s.len(),
            s == text@,
            ds =~= s.subrange(start as int, n as int),
            ds == unsigned_digits(s),
            forall|k: int| start <= k < i ==> is_digit(#[trigger] s[k]),
        decreases n - i,
    {
        let c = text.get_char(i);
        if !('0' <= c && c <= '9') {
            assert(ds[i - start] == s[i as int]);
            assert(!is_digit(ds[i - start]));
            assert(!all_digits(ds));
            return None;
        }
        i = i + 1;
    }
    assert forall|j: int| 0 <= j < ds.len() implies is_digit(#[trigger] ds[j]) by {
        assert(ds[j] == s[j + start]);
    }
    let mut acc: u64 = 0;
    let mut i: usize = start;
    while i < n
        invariant
            start <= i <= n,
            n == s.len(),
            s == text@,
            ds =~= s.subrange(start as int, n as int),
            ds == unsigned_digits(s),
            forall|j: int| 0 <= j < ds.len() ==> is_digit(#[trigger] ds[j]),
            acc as nat == digits_value(ds.subrange(0, i - start)),
        decreases n - i,
    {
        let c = text.get_char(i);
        proof {
            assert(ds[i - start] == s[i as int]);
            assert(is_digit(c));
        }
        let d = (c as u32 - '0' as u32) as u64;
        proof {
            let k = i - start;
            assert(ds.subrange(0, k + 1).drop_last() =~= ds.subrange(0, k));
            assert(ds.subrange(0, k + 1).last() == c);
            assert(digits_value(ds.subrange(0, k + 1)) == acc * 10 + d);
        }
        if acc > (u64::MAX - d) / 10 {
            proof {
                lemma_digits_value_grows(ds, i - start + 1, ds.len() as int);
                assert(ds.subrange(0, ds.len() as int) =~= ds);
                assert(acc * 10 + d > u64::MAX) by (nonlinear_arith)
                    requires
                        acc > (u64::MAX - d) / 10,
                        d <= 9,
                ;
                assert(digits_value(ds) > u64::MAX);
                assert(u64_of_text(s).is_none());
            }
            return None;
        }
        proof {
            assert(acc * 10 + d <= u64::MAX) by (nonlinear_arith)
                requires
                    acc <= (u64::MAX - d) / 10,
                    d <= 9,
            ;
        }
        acc = acc * 10 + d;
        i = i + 1;
    }
    assert(ds.subrange(0, ds.len() as int) =~= ds);
    Some(acc)
}

/// Whether `s` starts with `prefix`.
pub fn has_prefix(s: &str, prefix: &str) -> (r: bool)
    ensures
        r == prefix@.is_prefix_of(s@),
{
    let n = s.unicode_len();
    let k = prefix.unicode_len();
    if n < k {
        return false;
    }
    let mut i: usize = 0;
    while i < k
        invariant
            i <= k <= n,
            n == s@.len(),
            k == prefix@.len(),
            forall|j: int| 0 <= j < i ==> s@[j] == prefix@[j],
        decreases k - i,
    {
        if s.get_char(i) != prefix.get_char(i) {
            return false;
        }
        i = i + 1;
    }
    assert(prefix@ =~= s@.subrange(0, k as int));
    true
}

/// Whether the first character of `s` other than whitespace is `c`.
pub open spec fn first_visible_is(s: Seq<char>, c: char) -> bool {
    exists|i: int| 0 <= i < s.len() && s[i] == c && all_white(s.subrange(0, i))
}

pub fn first_visible_char_is(s: &str, c: char) -> (r: bool)
    requires
        !is_white(c),
    ensures
        r == first_visible_is(s@, c),
{
    let n = s.unicode_len();
    let mut i: usize = 0;
    while i < n && is_white_char(s.get_char(i))
        invariant
            n == s@.len(),
            i <= n,
            forall|j: int| 0 <= j < i ==> is_white(#[trigger] s@[j]),
        decreases n - i,
    {
        i = i + 1;
    }
    assert(all_white(s@.subrange(0, i as int)));
    if i == n {
        assert forall|k: int| 0 <= k < s@.len() && s@[k] == c implies !all_white(s@.subrange(0, k)) by {
            assert(s@.subrange(0, k)[k - k] == s@[k - k]);
            assert(is_white(s@[k]));
        }
        return false;
    }
    let r = s.get_char(i) == c;
    if !r {
        assert forall|k: int| 0 <= k < s@.len() && s@[k] == c implies !all_white(s@.subrange(0, k)) by {
            if k > i {
                assert(s@.subrange(0, k)[i as int] == s@[i as int]);
            } else {
                assert(is_white(s@[k]));
            }
        }
    }
    r
}

} // verus!
