//! Character-level text helpers: blank detection, decimal numbers, substring
//! search, truncation and padding.

use vstd::prelude::*;

verus! {

/// Unicode `White_Space` characters.
pub open spec fn is_white(c: char) -> bool {
    ('\u{9}' <= c && c <= '\u{d}') || c == ' ' || c == '\u{85}' || c == '\u{a0}' || c
        == '\u{1680}' || ('\u{2000}' <= c && c <= '\u{200a}') || c == '\u{2028}' || c
        == '\u{2029}' || c == '\u{202f}' || c == '\u{205f}' || c == '\u{3000}'
}

/// A text made of white space only (the empty text included).
pub open spec fn is_blank(s: Seq<char>) -> bool {
    forall|i: int| 0 <= i < s.len() ==> is_white(#[trigger] s[i])
}

/// Whether `c` is Unicode white space.
pub fn is_white_char(c: char) -> (r: bool)
    ensures
        r == is_white(c),
{
    ('\u{9}' <= c && c <= '\u{d}') || c == ' ' || c == '\u{85}' || c == '\u{a0}' || c
        == '\u{1680}' || ('\u{2000}' <= c && c <= '\u{200a}') || c == '\u{2028}' || c
        == '\u{2029}' || c == '\u{202f}' || c == '\u{205f}' || c == '\u{3000}'
}

/// Whether `s` holds white space only.
pub fn is_blank_text(s: &str) -> (r: bool)
    ensures
        r == is_blank(s@),
{
    let n = s.unicode_len();
    let mut i: usize = 0;
    while i < n
        invariant
            n == s@.len(),
            i <= n,
            forall|j: int| 0 <= j < i ==> is_white(#[trigger] s@[j]),
        decreases n - i,
    {
        if !is_white_char(s.get_char(i)) {
            return false;
        }
        i += 1;
    }
    true
}

pub open spec fn is_digit(c: char) -> bool {
    '0' <= c && c <= '9'
}

pub open spec fn digit_value(c: char) -> nat {
    (c as int - '0' as int) as nat
}

pub open spec fn all_digits(s: Seq<char>) -> bool {
    forall|i: int| 0 <= i < s.len() ==> is_digit(#[trigger] s[i])
}

/// The number that a string of decimal digits denotes.
pub open spec fn digits_value(s: Seq<char>) -> nat
    decreases s.len(),
{
    if s.len() == 0 {
        0
    } else {
        digits_value(s.drop_last()) * 10 + digit_value(s.last())
    }
}

/// The digits after an optional leading `+`.
pub open spec fn after_plus(s: Seq<char>) -> Seq<char> {
    if s.len() > 0 && s[0] == '+' {
        s.drop_first()
    } else {
        s
    }
}

/// A non-empty string of digits whose value is at most `cap`.
pub open spec fn digits_within(d: Seq<char>, cap: int) -> bool {
    d.len() > 0 && all_digits(d) && digits_value(d) <= cap
}

/// The `u32` written by `s`: an optional `+`, then one or more ASCII digits.
pub open spec fn text_u32(s: Seq<char>) -> Option<u32> {
    let d = after_plus(s);
    if digits_within(d, u32::MAX as int) {
        Some(digits_value(d) as u32)
    } else {
        None
    }
}

/// The `i64` written by `s`: an optional `+` or `-`, then one or more ASCII digits.
pub open spec fn text_i64(s: Seq<char>) -> Option<i64> {
    if s.len() > 0 && s[0] == '-' {
        let d = s.drop_first();
        if digits_within(d, 0x8000_0000_0000_0000) {
            Some((-digits_value(d)) as i64)
        } else {
            None
        }
    } else {
        let d = after_plus(s);
        if digits_within(d, i64::MAX as int) {
            Some(digits_value(d) as i64)
        } else {
            None
        }
    }
}

proof fn lemma_prefix_value_bounded(s: Seq<char>, k: int)
    requires
        all_digits(s),
        0 <= k <= s.len(),
    ensures
        digits_value(s.subrange(0, k)) <= digits_value(s),
    decreases s.len(),
{
    if k < s.len() {
        let t = s.drop_last();
        assert(t.subrange(0, k) =~= s.subrange(0, k));
        lemma_prefix_value_bounded(t, k);
    } else {
        assert(s.subrange(0, k) =~= s);
    }
}

/// The value of the digits of `s` from `from` on, where they are one or more
/// digits worth at most `cap`.
fn digits_from(s: &str, from: usize, cap: u64) -> (r: Option<u64>)
    requires
        from <= s@.len(),
    ensures
        ({
            let d = s@.subrange(from as int, s@.len() as int);
            &&& r is Some <==> digits_within(d, cap as int)
            &&& r is Some ==> r->0 as nat == digits_value(d)
        }),
{
    let n = s.unicode_len();
    if from == n {
        return None;
    }
    let ghost full = s@.subrange(from as int, n as int);
    let mut acc: u64 = 0;
    let mut i: usize = from;
    while i < n
        invariant
            n == s@.len(),
            from <= i <= n,
            full == s@.subrange(from as int, n as int),
            all_digits(s@.subrange(from as int, i as int)),
            acc as nat == digits_value(s@.subrange(from as int, i as int)),
            acc <= cap,
        decreases n - i,
    {
        let c = s.get_char(i);
        if !('0' <= c && c <= '9') {
            assert(!is_digit(full[i - from]));
            return None;
        }
        let next: u128 = acc as u128 * 10 + (c as u32 - '0' as u32) as u128;
        let ghost p = s@.subrange(from as int, i + 1);
        assert(p.drop_last() =~= s@.subrange(from as int, i as int));
        assert(p =~= full.subrange(0, i + 1 - from));
        if next > cap as u128 {
            proof {
                if all_digits(full) {
                    lemma_prefix_value_bounded(full, i + 1 - from);
                }
            }
            return None;
        }
        acc = next as u64;
        i += 1;
    }
    assert(s@.subrange(from as int, i as int) =~= full);
    Some(acc)
}

/// Reads a `u32` written in decimal, with an optional leading `+`.
pub fn parse_u32(s: &str) -> (r: Option<u32>)
    ensures
        r == text_u32(s@),
{
    let n = s.unicode_len();
    let from: usize = if n > 0 && s.get_char(0) == '+' {
        1
    } else {
        0
    };
    assert(s@.subrange(from as int, n as int) =~= after_plus(s@));
    match digits_from(s, from, 0xffff_ffff) {
        Some(v) => Some(v as u32),
        None => None,
    }
}

/// Reads an `i64` written in decimal, with an optional leading `+` or `-`.
pub fn parse_i64(s: &str) -> (r: Option<i64>)
    ensures
        r == text_i64(s@),
{
    let n = s.unicode_len();
    if n > 0 && s.get_char(0) == '-' {
        assert(s@.subrange(1, n as int) =~= s@.drop_first());
        match digits_from(s, 1, 0x8000_0000_0000_0000) {
            Some(v) => {
                let r: i64 = if v == 0x8000_0000_0000_0000 {
                    i64::MIN
                } else {
                    -(v as i64)
                };
                Some(r)
            },
            None => None,
        }
    } else {
        let from: usize = if n > 0 && s.get_char(0) == '+' {
            1
        } else {
            0
        };
        assert(s@.subrange(from as int, n as int) =~= after_plus(s@));
        match digits_from(s, from, 0x7fff_ffff_ffff_ffff) {
            Some(v) => Some(v as i64),
            None => None,
        }
    }
}

/// The character of a decimal digit.
pub open spec fn digit_char(d: nat) -> char {
    if d == 0 { '0' } else if d == 1 { '1' } else if d == 2 { '2' } else if d == 3 { '3' }
    else if d == 4 { '4' } else if d == 5 { '5' } else if d == 6 { '6' } else if d == 7 { '7' }
    else if d == 8 { '8' } else { '9' }
}

/// The decimal notation of `n`, without leading zeros.
pub open spec fn decimal(n: nat) -> Seq<char>
    decreases n,
{
    if n < 10 {
        seq![digit_char(n)]
    } else {
        decimal(n / 10).push(digit_char(n % 10))
    }
}

/// The decimal notation of `n`, with a `-` before a negative number.
pub open spec fn signed_decimal(n: int) -> Seq<char> {
    if n < 0 {
        seq!['-'] + decimal((-n) as nat)
    } else {
        decimal(n as nat)
    }
}

fn digit_text(d: u64) -> (r: &'static str)
    requires
        d < 10,
    ensures
        r@ == seq![digit_char(d as nat)],
{
    proof {
        reveal_strlit("0");
        reveal_strlit("1");
        reveal_strlit("2");
        reveal_strlit("3");
        reveal_strlit("4");
        reveal_strlit("5");
        reveal_strlit("6");
        reveal_strlit("7");
        reveal_strlit("8");
        reveal_strlit("9");
    }
    let r = if d == 0 { "0" } else if d == 1 { "1" } else if d == 2 { "2" } else if d == 3 { "3" }
    else if d == 4 { "4" } else if d == 5 { "5" } else if d == 6 { "6" } else if d == 7 { "7" }
    else if d == 8 { "8" } else { "9" };
    assert(r@ =~= seq![digit_char(d as nat)]);
    r
}

/// The decimal notation of `n`.
pub fn decimal_text(n: u64) -> (r: String)
    ensures
        r@ == decimal(n as nat),
    decreases n,
{
    if n < 10 {
        String::from_str(digit_text(n))
    } else {
        let mut r = decimal_text(n / 10);
        r.append(digit_text(n % 10));
        r
    }
}

/// The decimal notation of `n`, with a `-` before a negative number.
pub fn signed_decimal_text(n: i64) -> (r: String)
    ensures
        r@ == signed_decimal(n as int),
{
    if n < 0 {
        proof {
            reveal_strlit("-");
        }
        let m: u64 = (0 - (n as i128)) as u64;
        let mut r = String::from_str("-");
        r.append(decimal_text(m).as_str());
        r
    } else {
        decimal_text(n as u64)
    }
}

/// Whether `needle` stands in `hay` at position `i`.
pub open spec fn occurs_at(hay: Seq<char>, needle: Seq<char>, i: int) -> bool {
    0 <= i && i + needle.len() <= hay.len() && hay.subrange(i, i + needle.len()) == needle
}

/// Whether `needle` stands somewhere in `hay`.
pub open spec fn occurs_in(hay: Seq<char>, needle: Seq<char>) -> bool {
    exists|i: int| occurs_at(hay, needle, i)
}

fn matches_at(hay: &str, needle: &str, i: usize) -> (r: bool)
    requires
        i + needle@.len() <= hay@.len(),
    ensures
        r == occurs_at(hay@, needle@, i as int),
{
    let n = hay.unicode_len();
    let m = needle.unicode_len();
    let mut j: usize = 0;
    while j < m
        invariant
            n == hay@.len(),
            m == needle@.len(),
            i + m <= hay@.len(),
            j <= m,
            forall|k: int| 0 <= k < j ==> hay@[i + k] == needle@[k],
        decreases m - j,
    {
        if hay.get_char(i + j) != needle.get_char(j) {
            assert(hay@.subrange(i as int, i + m)[j as int] != needle@[j as int]);
            return false;
        }
        j += 1;
    }
    assert(hay@.subrange(i as int, i + m) =~= needle@);
    true
}

/// Whether `needle` occurs in `hay`.
pub fn text_contains(hay: &str, needle: &str) -> (r: bool)
    ensures
        r == occurs_in(hay@, needle@),
{
    let n = hay.unicode_len();
    let m = needle.unicode_len();
    if m > n {
        return false;
    }
    if m == 0 {
        assert(hay@.subrange(0, 0) =~= needle@);
        assert(occurs_at(hay@, needle@, 0));
        return true;
    }
    let mut i: usize = 0;
    while i <= n - m
        invariant
            n == hay@.len(),
            m == needle@.len(),
            1 <= m <= n,
            i <= n - m + 1,
            forall|k: int| 0 <= k < i ==> !occurs_at(hay@, needle@, k),
        decreases n - m + 1 - i,
    {
        if matches_at(hay, needle, i) {
            return true;
        }
        i += 1;
    }
    assert forall|k: int| !occurs_at(hay@, needle@, k) by {
        if 0 <= k && k + m <= n {
            assert(k < i);
        }
    }
    false
}

/// The first `k` characters of `s`, or all of `s` where it is shorter.
pub open spec fn head(s: Seq<char>, k: nat) -> Seq<char> {
    if s.len() <= k {
        s
    } else {
        s.subrange(0, k as int)
    }
}

/// The last `k` characters of `s`, or all of `s` where it is shorter.
pub open spec fn tail(s: Seq<char>, k: nat) -> Seq<char> {
    if s.len() <= k {
        s
    } else {
        s.subrange(s.len() - k, s.len() as int)
    }
}

/// `s` cut to at most `max_len` characters: a longer text keeps its start and
/// ends in `...`, the whole staying `max_len` characters long.
pub open spec fn truncated(s: Seq<char>, max_len: nat) -> Seq<char> {
    if s.len() <= max_len {
        s
    } else {
        s.subrange(0, max_len - 3) + seq!['.', '.', '.']
    }
}

/// `s` followed by spaces up to `width` characters.
pub open spec fn padded(s: Seq<char>, width: nat) -> Seq<char> {
    if s.len() >= width {
        s
    } else {
        s + Seq::new((width - s.len()) as nat, |i: int| ' ')
    }
}

/// The first `k` characters of `s`.
pub fn head_text(s: &str, k: usize) -> (r: String)
    ensures
        r@ == head(s@, k as nat),
{
    let n = s.unicode_len();
    if n <= k {
        assert(s@.subrange(0, n as int) =~= s@);
        String::from_str(s.substring_char(0, n))
    } else {
        String::from_str(s.substring_char(0, k))
    }
}

/// The last `k` characters of `s`: where a text is cut, its end is kept.
pub fn tail_text(s: &str, k: usize) -> (r: String)
    ensures
        r@ == tail(s@, k as nat),
{
    let n = s.unicode_len();
    if n <= k {
        assert(s@.subrange(0, n as int) =~= s@);
        String::from_str(s.substring_char(0, n))
    } else {
        String::from_str(s.substring_char(n - k, n))
    }
}

/// Cuts `s` to `max_len` characters, ending a cut text with `...`.
pub fn truncate(s: &str, max_len: usize) -> (r: String)
    requires
        max_len >= 3,
    ensures
        r@ == truncated(s@, max_len as nat),
{
    let n = s.unicode_len();
    if n <= max_len {
        assert(s@.subrange(0, n as int) =~= s@);
        String::from_str(s.substring_char(0, n))
    } else {
        proof {
            reveal_strlit("...");
        }
        let mut r = String::from_str(s.substring_char(0, max_len - 3));
        r.append("...");
        assert(r@ =~= truncated(s@, max_len as nat));
        r
    }
}

/// `s` padded with spaces on the right to `width` characters.
pub fn pad_right(s: &str, width: usize) -> (r: String)
    ensures
        r@ == padded(s@, width as nat),
{
    let n = s.unicode_len();
    let mut r = String::from_str(s);
    if n >= width {
        return r;
    }
    proof {
        reveal_strlit(" ");
    }
    let mut i: usize = n;
    assert(r@ =~= s@ + Seq::new((i - n) as nat, |j: int| ' '));
    while i < width
        invariant
            n == s@.len(),
            n <= i <= width,
            " "@ == seq![' '],
            r@ == s@ + Seq::new((i - n) as nat, |j: int| ' '),
        decreases width - i,
    {
        r.append(" ");
        assert(r@ =~= s@ + Seq::new((i + 1 - n) as nat, |j: int| ' '));
        i += 1;
    }
    r
}

} // verus!
