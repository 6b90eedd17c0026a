use vstd::prelude::*;
use vstd::utf8::{decode_utf8, valid_utf8};

verus! {

/// `m` occurs in `s` starting at position `i`.
pub open spec fn occurs_at(s: Seq<char>, m: Seq<char>, i: int) -> bool {
    0 <= i && i + m.len() <= s.len() && s.subrange(i, i + m.len()) == m
}

/// `m` occurs somewhere in `s`.
pub open spec fn contains(s: Seq<char>, m: Seq<char>) -> bool {
    exists|i: int| occurs_at(s, m, i)
}

/// The first position at or after `i` where `m` occurs in `s`.
pub open spec fn first_from(s: Seq<char>, m: Seq<char>, i: int) -> Option<int>
    decreases s.len() + 1 - i,
{
    if i < 0 || i + m.len() > s.len() {
        None
    } else if occurs_at(s, m, i) {
        Some(i)
    } else {
        first_from(s, m, i + 1)
    }
}

pub proof fn lemma_first_from(s: Seq<char>, m: Seq<char>, i: int)
    requires
        0 <= i,
    ensures
        first_from(s, m, i) matches Some(j) ==> i <= j && occurs_at(s, m, j) && forall|k: int|
            i <= k < j ==> !occurs_at(s, m, k),
        first_from(s, m, i) is None ==> forall|k: int| i <= k ==> !occurs_at(s, m, k),
    decreases s.len() + 1 - i,
{
    if i + m.len() > s.len() {
    } else if occurs_at(s, m, i) {
    } else {
        lemma_first_from(s, m, i + 1);
        assert forall|k: int| i <= k && !(i + 1 <= k) implies !occurs_at(s, m, k) by {}
    }
}

/// Copies the characters of `s` into a vector.
pub fn chars_of(s: &str) -> (r: Vec<char>)
    ensures
        r@ == s@,
{
    let n = s.unicode_len();
    let mut r: Vec<char> = Vec::new();
    let mut i: usize = 0;
    while i < n
        invariant
            n == s@.len(),
            i <= n,
            r@ == s@.subrange(0, i as int),
        decreases n - i,
    {
        r.push(s.get_char(i));
        i = i + 1;
    }
    assert(r@ =~= s@);
    r
}

/// Whether `m` occurs in `s` at position `i`.
fn matches_at(s: &Vec<char>, m: &Vec<char>, i: usize) -> (r: bool)
    requires
        i + m@.len() <= s@.len(),
    ensures
        r == occurs_at(s@, m@, i as int),
{
    let n = s.len();
    let mut j: usize = 0;
    while j < m.len()
        invariant
            n == s@.len(),
            i + m@.len() <= s@.len(),
            j <= m@.len(),
            forall|k: int| 0 <= k < j ==> s@[i + k] == m@[k],
        decreases m@.len() - j,
    {
        if s[i + j] != m[j] {
            assert(s@.subrange(i as int, i + m@.len())[j as int] != m@[j as int]);
            return false;
        }
        j = j + 1;
    }
    assert(s@.subrange(i as int, i + m@.len()) =~= m@);
    true
}

/// The first position at or after `start` where `m` occurs in `s`.
pub fn find_from(s: &Vec<char>, m: &Vec<char>, start: usize) -> (r: Option<usize>)
    ensures
        match r {
            Some(k) => first_from(s@, m@, start as int) == Some(k as int),
            None => first_from(s@, m@, start as int) is None,
        },
{
    let mut i: usize = start;
    while i <= s.len() && m.len() <= s.len() - i
        invariant
            start <= i,
            first_from(s@, m@, start as int) == first_from(s@, m@, i as int),
        decreases s@.len() + 1 - i,
    {
        if matches_at(s, m, i) {
            return Some(i);
        }
        proof {
            if m@.len() == 0 {
                assert(s@.subrange(i as int, i as int) =~= m@);
            }
        }
        i = i + 1;
    }
    None
}

/// Whether `m` occurs in `s`.
pub fn contains_chars(s: &Vec<char>, m: &Vec<char>) -> (r: bool)
    ensures
        r == contains(s@, m@),
{
    let found = find_from(s, m, 0);
    proof {
        lemma_first_from(s@, m@, 0);
    }
    found.is_some()
}

/// The decimal digit character for `d < 10`.
pub open spec fn digit_char(d: nat) -> char {
    if d == 0 {
        '0'
    } else if d == 1 {
        '1'
    } else if d == 2 {
        '2'
    } else if d == 3 {
        '3'
    } else if d == 4 {
        '4'
    } else if d == 5 {
        '5'
    } else if d == 6 {
        '6'
    } else if d == 7 {
        '7'
    } else if d == 8 {
        '8'
    } else {
        '9'
    }
}

/// The decimal notation of `n`, without sign or leading zeros.
pub open spec fn decimal_of(n: nat) -> Seq<char>
    decreases n,
{
    if n < 10 {
        seq![digit_char(n)]
    } else {
        decimal_of(n / 10) + seq![digit_char(n % 10)]
    }
}

fn digit_str(d: u64) -> (r: &'static str)
    requires
        d < 10,
    ensures
        r@ == seq![digit_char(d as nat)],
{
    let r = if d == 0 {
        "0"
    } else if d == 1 {
        "1"
    } else if d == 2 {
        "2"
    } else if d == 3 {
        "3"
    } else if d == 4 {
        "4"
    } else if d == 5 {
        "5"
    } else if d == 6 {
        "6"
    } else if d == 7 {
        "7"
    } else if d == 8 {
        "8"
    } else {
        "9"
    };
    proof {
        reveal_strlit("0");
        reveal_strlit("1");
        reveal_strlit("2");
        reveal_strlit("3");
        reveal_strlit("4");
        reveal_strlit("5");
        reveal_strlit("6");
        reveal_strlit("7");
        reveal_strlit("8");
        reveal_strlit("9");
    }
    assert(r@ =~= seq![digit_char(d as nat)]);
    r
}

/// Appends the decimal notation of `n` to `out`.
pub fn push_decimal(out: &mut String, n: u64)
    ensures
        final(out)@ == old(out)@ + decimal_of(n as nat),
    decreases n,
{
    if n >= 10 {
        push_decimal(out, n / 10);
    }
    out.append(digit_str(n % 10));
    assert(final(out)@ =~= old(out)@ + decimal_of(n as nat));
}

pub open spec fn is_digit(c: char) -> bool {
    '0' <= c && c <= '9'
}

pub open spec fn all_digits(s: Seq<char>) -> bool {
    forall|i: int| 0 <= i < s.len() ==> is_digit(#[trigger] s[i])
}

/// The value of a string of decimal digits.
pub open spec fn digits_value(s: Seq<char>) -> nat
    decreases s.len(),
{
    if s.len() == 0 {
        0
    } else {
        digits_value(s.drop_last()) * 10 + (s.last() as int - '0' as int) as nat
    }
}

/// `s` read as a decimal number that fits in 16 bits.
pub open spec fn decimal_u16(s: Seq<char>) -> Option<u16> {
    if s.len() > 0 && all_digits(s) && digits_value(s) <= 65535 {
        Some(digits_value(s) as u16)
    } else {
        None
    }
}

proof fn lemma_digits_value_grows(s: Seq<char>, i: int)
    requires
        0 <= i <= s.len(),
        all_digits(s),
    ensures
        digits_value(s.subrange(0, i)) <= digits_value(s),
    decreases s.len() - i,
{
    if i < s.len() {
        lemma_digits_value_grows(s, i + 1);
        assert(s.subrange(0, i + 1).drop_last() =~= s.subrange(0, i));
        assert(is_digit(s[i]));
    } else {
        assert(s.subrange(0, i) =~= s);
    }
}

/// Reads `s` as a decimal number of at most 16 bits: one or more digits
/// and nothing else.
pub fn parse_decimal_u16(s: &str) -> (r: Option<u16>)
    ensures
        r == decimal_u16(s@),
{
    let cs = chars_of(s);
    if cs.len() == 0 {
        return None;
    }
    let mut value: u32 = 0;
    let mut i: usize = 0;
    while i < cs.len()
        invariant
            cs@ == s@,
            i <= cs@.len(),
            value <= 65535,
            all_digits(cs@.subrange(0, i as int)),
            value == digits_value(cs@.subrange(0, i as int)),
        decreases cs@.len() - i,
    {
        let c = cs[i];
        if c < '0' || c > '9' {
            assert(!is_digit(cs@[i as int]));
            return None;
        }
        assert(cs@.subrange(0, i + 1).drop_last() =~= cs@.subrange(0, i as int));
        let next: u32 = value * 10 + (c as u32 - '0' as u32);
        assert(all_digits(cs@.subrange(0, i + 1)));
        if next > 65535 {
            proof {
                if all_digits(cs@) {
                    lemma_digits_value_grows(cs@, i + 1);
                }
            }
            return None;
        }
        value = next;
        i = i + 1;
    }
    assert(cs@.subrange(0, i as int) =~= cs@);
    Some(value as u16)
}

/// What `String::from_utf8_lossy` makes of `b`.
pub uninterp spec fn lossy_text_of(b: Seq<u8>) -> Seq<char>;

/// Relies on `String::from_utf8_lossy`: the text depends on the bytes alone,
/// and valid UTF-8 is decoded as it stands.
#[verifier::external_body]
pub(crate) fn decode_lossy(b: &[u8]) -> (r: String)
    ensures
        r@ == lossy_text_of(b@),
        valid_utf8(b@) ==> r@ == decode_utf8(b@),
{
    String::from_utf8_lossy(b).into_owned()
}

/// Relies on `std::str::from_utf8`: it succeeds exactly on valid UTF-8.
#[verifier::external_body]
pub(crate) fn decode_strict(b: &[u8]) -> (r: Option<String>)
    ensures
        r is Some <==> valid_utf8(b@),
        r matches Some(t) ==> t@ == decode_utf8(b@),
{
    match std::str::from_utf8(b) {
        Ok(t) => Some(t.to_string()),
        Err(_) => None,
    }
}

/// A character with the Unicode property White_Space.
pub open spec fn is_white_space(c: char) -> bool {
    ('\t' <= c && c <= '\r') || c == ' ' || c == '\u{85}' || c == '\u{a0}' || c == '\u{1680}'
        || ('\u{2000}' <= c && c <= '\u{200a}') || c == '\u{2028}' || c == '\u{2029}'
        || c == '\u{202f}' || c == '\u{205f}' || c == '\u{3000}'
}

/// `s` without its leading white space.
pub open spec fn trim_start_of(s: Seq<char>) -> Seq<char>
    decreases s.len(),
{
    if s.len() > 0 && is_white_space(s[0]) {
        trim_start_of(s.drop_first())
    } else {
        s
    }
}

/// `s` without its trailing white space.
pub open spec fn trim_end_of(s: Seq<char>) -> Seq<char>
    decreases s.len(),
{
    if s.len() > 0 && is_white_space(s.last()) {
        trim_end_of(s.drop_last())
    } else {
        s
    }
}

/// `s` without white space at either end.
pub open spec fn trimmed(s: Seq<char>) -> Seq<char> {
    trim_end_of(trim_start_of(s))
}

/// Relies on `str::trim`: it removes the leading and trailing characters
/// that have the Unicode property White_Space.
#[verifier::external_body]
pub(crate) fn trim_text(s: &str) -> (r: String)
    ensures
        r@ == trimmed(s@),
{
    s.trim().to_string()
}

} // verus!
