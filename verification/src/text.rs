//! Text helpers: characters of a string, decimal numbers, trimming,
//! splitting and joining, each with the meaning that std gives it.

use vstd::prelude::*;

verus! {

/// Appends one character to a string.
///
/// Calls `String::push`; std documents it as appending the given `char`
/// to the end of the string, and the contract says exactly that.
#[verifier::external_body]
pub(crate) fn push_char(s: &mut String, c: char)
    ensures
        final(s)@ == old(s)@.push(c),
{
    s.push(c);
}

/// The characters of a string slice, in order.
pub fn chars_of(s: &str) -> (v: Vec<char>)
    ensures
        v@ == s@,
{
    let n = s.unicode_len();
    let mut v: Vec<char> = Vec::new();
    for i in 0..n
        invariant
            n == s@.len(),
            v@ == s@.take(i as int),
    {
        v.push(s.get_char(i));
        assert(s@.take((i + 1) as int) == s@.take(i as int).push(s@[i as int]));
    }
    assert(s@.take(n as int) == s@);
    v
}

/// A string made of the characters `v[lo..hi]`.
pub fn string_from_range(v: &Vec<char>, lo: usize, hi: usize) -> (s: String)
    requires
        lo <= hi <= v.len(),
    ensures
        s@ == v@.subrange(lo as int, hi as int),
{
    let mut s = String::new();
    for i in lo..hi
        invariant
            lo <= hi <= v.len(),
            s@ == v@.subrange(lo as int, i as int),
    {
        push_char(&mut s, v[i]);
        assert(v@.subrange(lo as int, (i + 1) as int) == v@.subrange(lo as int, i as int).push(
            v@[i as int],
        ));
    }
    s
}

/// An owned copy of a string slice.
pub fn owned(s: &str) -> (r: String)
    ensures
        r@ == s@,
{
    let v = chars_of(s);
    string_from_range(&v, 0, v.len())
}

/// Appends a string slice to a string.
pub fn push_str(s: &mut String, t: &str)
    ensures
        final(s)@ == old(s)@ + t@,
{
    let v = chars_of(t);
    let ghost start = s@;
    for i in 0..v.len()
        invariant
            v@ == t@,
            s@ == start + v@.take(i as int),
    {
        push_char(s, v[i]);
        assert(v@.take((i + 1) as int) == v@.take(i as int).push(v@[i as int]));
    }
    assert(v@.take(v.len() as int) == v@);
}

/// Whether two strings hold the same characters.
pub fn same_text(a: &str, b: &str) -> (r: bool)
    ensures
        r == (a@ == b@),
{
    let x = chars_of(a);
    let y = chars_of(b);
    if x.len() != y.len() {
        return false;
    }
    for i in 0..x.len()
        invariant
            x@ == a@,
            y@ == b@,
            x.len() == y.len(),
            forall|j: int| 0 <= j < i ==> x@[j] == y@[j],
    {
        if x[i] != y[i] {
            return false;
        }
    }
    assert(x@ == y@);
    true
}

/// A copy of a list of strings.
pub fn clone_strings(v: &Vec<String>) -> (r: Vec<String>)
    ensures
        r@ == v@,
{
    let mut r: Vec<String> = Vec::new();
    for i in 0..v.len()
        invariant
            r@ == v@.take(i as int),
    {
        r.push(v[i].clone());
        assert(v@.take((i + 1) as int) == v@.take(i as int).push(v@[i as int]));
    }
    assert(v@.take(v.len() as int) == v@);
    r
}

/// Adding an element to a sequence adds it, and only it, to what the
/// sequence contains.
pub proof fn lemma_push_contains<T>(s: Seq<T>, x: T, y: T)
    ensures
        s.push(x).contains(y) <==> (s.contains(y) || x == y),
{
    if s.contains(y) {
        let k = choose|k: int| 0 <= k < s.len() && s[k] == y;
        assert(s.push(x)[k] == y);
    }
    if x == y {
        assert(s.push(x)[s.len() as int] == y);
    }
    if s.push(x).contains(y) {
        let k = choose|k: int| 0 <= k < s.push(x).len() && s.push(x)[k] == y;
        if k < s.len() {
            assert(s[k] == y);
        }
    }
}

// ---------------------------------------------------------------------------
// Decimal numbers

/// The character of the decimal digit `d`.
pub open spec fn digit_char(d: int) -> char {
    (48 + d) as char
}

/// The value of a decimal digit character.
pub open spec fn digit_value(c: char) -> int {
    c as int - 48
}

/// Whether `c` is one of the ASCII digits `0`..`9`.
pub open spec fn is_digit(c: char) -> bool {
    '0' <= c && c <= '9'
}

/// Whether every character of `s` is an ASCII digit.
pub open spec fn all_digits(s: Seq<char>) -> bool {
    forall|i: int| 0 <= i < s.len() ==> is_digit(#[trigger] s[i])
}

/// The decimal digits of a natural number, most significant first, with no
/// leading zero (zero itself is the single digit `0`).
pub open spec fn nat_decimal(n: nat) -> Seq<char>
    decreases n,
{
    if n < 10 {
        seq![digit_char(n as int)]
    } else {
        nat_decimal(n / 10).push(digit_char((n % 10) as int))
    }
}

/// The decimal text of an integer, as `Display` writes it: a `-` before the
/// digits of a negative number, no sign otherwise.
pub open spec fn int_decimal(n: int) -> Seq<char> {
    if n < 0 {
        seq!['-'] + nat_decimal((-n) as nat)
    } else {
        nat_decimal(n as nat)
    }
}

/// The number that a sequence of decimal digits denotes.
pub open spec fn digits_value(s: Seq<char>) -> int
    decreases s.len(),
{
    if s.len() == 0 {
        0
    } else {
        digits_value(s.drop_last()) * 10 + digit_value(s.last())
    }
}

/// The sign of a numeral and the characters after it: a leading `-` or `+`
/// is taken off, and `-` makes the number negative.
pub open spec fn sign_and_digits(s: Seq<char>) -> (bool, Seq<char>) {
    if s.len() > 0 && s[0] == '-' {
        (true, s.drop_first())
    } else if s.len() > 0 && s[0] == '+' {
        (false, s.drop_first())
    } else {
        (false, s)
    }
}

/// What `str::parse::<i32>` gives: an optional sign followed by at least one
/// ASCII digit and nothing else, whose value fits in an `i32`.
pub open spec fn spec_parse_i32(s: Seq<char>) -> Option<i32> {
    let (negative, digits) = sign_and_digits(s);
    if digits.len() == 0 || !all_digits(digits) {
        None
    } else {
        let v = if negative {
            -digits_value(digits)
        } else {
            digits_value(digits)
        };
        if i32::MIN <= v <= i32::MAX {
            Some(v as i32)
        } else {
            None
        }
    }
}

fn digit_char_exec(d: u64) -> (c: char)
    requires
        d < 10,
    ensures
        c == digit_char(d as int),
{
    ((48 + d) as u8) as char
}

fn push_nat_decimal(out: &mut String, n: u64)
    ensures
        final(out)@ == old(out)@ + nat_decimal(n as nat),
    decreases n,
{
    if n >= 10 {
        push_nat_decimal(out, n / 10);
    }
    push_char(out, digit_char_exec(n % 10));
}

/// The decimal text of an `i32`, as `i32::to_string` gives it.
pub fn decimal_string(n: i32) -> (s: String)
    ensures
        s@ == int_decimal(n as int),
{
    let mut s = String::new();
    if n < 0 {
        push_char(&mut s, '-');
        let m: i64 = -(n as i64);
        push_nat_decimal(&mut s, m as u64);
    } else {
        push_nat_decimal(&mut s, n as u64);
    }
    s
}

/// One more than the largest magnitude an `i32` can have; the parser stops
/// counting there.
const PARSE_CAP: i64 = 2147483649;

/// Parses a decimal `i32` as `str::parse::<i32>` does.
pub fn parse_i32(s: &str) -> (r: Option<i32>)
    ensures
        r == spec_parse_i32(s@),
{
    let v = chars_of(s);
    let n = v.len();
    let mut negative = false;
    let mut start: usize = 0;
    if n > 0 && v[0] == '-' {
        negative = true;
        start = 1;
    } else if n > 0 && v[0] == '+' {
        start = 1;
    }
    assert(sign_and_digits(s@) == (negative, v@.subrange(start as int, n as int)));
    if start == n {
        return None;
    }
    let mut acc: i64 = 0;
    for i in start..n
        invariant
            v@ == s@,
            n == v.len(),
            start < n,
            sign_and_digits(s@) == (negative, v@.subrange(start as int, n as int)),
            all_digits(v@.subrange(start as int, i as int)),
            digits_value(v@.subrange(start as int, i as int)) >= 0,
            acc == (if digits_value(v@.subrange(start as int, i as int)) >= PARSE_CAP {
                PARSE_CAP as int
            } else {
                digits_value(v@.subrange(start as int, i as int))
            }),
    {
        let c = v[i];
        if !('0' <= c && c <= '9') {
            assert(v@.subrange(start as int, n as int)[i - start] == c);
            assert(!is_digit(v@.subrange(start as int, n as int)[i - start]));
            return None;
        }
        let d: i64 = (c as u32 - 48) as i64;
        let ghost prev = v@.subrange(start as int, i as int);
        let ghost next = v@.subrange(start as int, (i + 1) as int);
        assert(next.drop_last() == prev);
        assert(next.last() == c);
        assert(digits_value(next) == digits_value(prev) * 10 + d);
        if acc < PARSE_CAP {
            let t = acc * 10 + d;
            if t >= PARSE_CAP {
                acc = PARSE_CAP;
            } else {
                acc = t;
            }
        }
        assert forall|j: int| 0 <= j < next.len() implies is_digit(#[trigger] next[j]) by {
            if j < prev.len() {
                assert(next[j] == prev[j]);
            }
        }
    }
    assert(v@.subrange(start as int, n as int).len() > 0);
    if negative {
        if acc <= 2147483648 {
            Some((-acc) as i32)
        } else {
            None
        }
    } else {
        if acc <= 2147483647 {
            Some(acc as i32)
        } else {
            None
        }
    }
}

proof fn lemma_digit_char_value(d: int)
    requires
        0 <= d < 10,
    ensures
        digit_value(digit_char(d)) == d,
        is_digit(digit_char(d)),
{
}

/// The digits of a natural number are digits, at least one of them, and they
/// denote that number.
pub proof fn lemma_nat_decimal(n: nat)
    ensures
        all_digits(nat_decimal(n)),
        nat_decimal(n).len() >= 1,
        digits_value(nat_decimal(n)) == n,
    decreases n,
{
    if n < 10 {
        lemma_digit_char_value(n as int);
        assert(nat_decimal(n).drop_last().len() == 0);
        assert(digits_value(nat_decimal(n).drop_last()) == 0);
    } else {
        lemma_nat_decimal(n / 10);
        lemma_digit_char_value((n % 10) as int);
        let s = nat_decimal(n);
        assert(s.drop_last() == nat_decimal(n / 10));
        assert(digits_value(s) == digits_value(nat_decimal(n / 10)) * 10 + (n % 10));
        assert((n / 10) * 10 + n % 10 == n);
        assert forall|i: int| 0 <= i < s.len() implies is_digit(#[trigger] s[i]) by {
            if i < s.len() - 1 {
                assert(s[i] == nat_decimal(n / 10)[i]);
            }
        }
    }
}

/// Reading back the decimal text of an `i32` gives that `i32`.
pub proof fn lemma_parse_decimal_round_trip(n: i32)
    ensures
        spec_parse_i32(int_decimal(n as int)) == Some(n),
{
    if n < 0 {
        let m: nat = (-(n as int)) as nat;
        lemma_nat_decimal(m);
        let s = int_decimal(n as int);
        assert(s.drop_first() == nat_decimal(m));
        assert(sign_and_digits(s) == (true, nat_decimal(m)));
    } else {
        lemma_nat_decimal(n as nat);
        let s = nat_decimal(n as nat);
        assert(is_digit(s[0]));
        assert(sign_and_digits(s) == (false, s));
    }
}

// ---------------------------------------------------------------------------
// Trimming

/// Whether `c` has the Unicode `White_Space` property, which is what
/// `char::is_whitespace` tests.
pub open spec fn is_whitespace(c: char) -> bool {
    ||| '\u{9}' <= c && c <= '\u{d}'
    ||| c == ' '
    ||| c == '\u{85}'
    ||| c == '\u{a0}'
    ||| c == '\u{1680}'
    ||| '\u{2000}' <= c && c <= '\u{200a}'
    ||| c == '\u{2028}'
    ||| c == '\u{2029}'
    ||| c == '\u{202f}'
    ||| c == '\u{205f}'
    ||| c == '\u{3000}'
}

fn is_whitespace_char(c: char) -> (b: bool)
    ensures
        b == is_whitespace(c),
{
    ('\u{9}' <= c && c <= '\u{d}') || c == ' ' || c == '\u{85}' || c == '\u{a0}' || c
        == '\u{1680}' || ('\u{2000}' <= c && c <= '\u{200a}') || c == '\u{2028}' || c
        == '\u{2029}' || c == '\u{202f}' || c == '\u{205f}' || c == '\u{3000}'
}

/// `s` without its leading whitespace.
pub open spec fn trim_start(s: Seq<char>) -> Seq<char>
    decreases s.len(),
{
    if s.len() > 0 && is_whitespace(s[0]) {
        trim_start(s.drop_first())
    } else {
        s
    }
}

/// `s` without its trailing whitespace.
pub open spec fn trim_end(s: Seq<char>) -> Seq<char>
    decreases s.len(),
{
    if s.len() > 0 && is_whitespace(s.last()) {
        trim_end(s.drop_last())
    } else {
        s
    }
}

/// `s` without leading and trailing whitespace, as `str::trim` gives it.
pub open spec fn trim(s: Seq<char>) -> Seq<char> {
    trim_end(trim_start(s))
}

/// Removes leading and trailing whitespace, as `str::trim` does.
pub fn trim_whitespace(s: &str) -> (r: String)
    ensures
        r@ == trim(s@),
{
    let v = chars_of(s);
    let n = v.len();
    let mut i: usize = 0;
    assert(v@.subrange(0, n as int) == s@);
    while i < n && is_whitespace_char(v[i])
        invariant
            v@ == s@,
            n == v.len(),
            i <= n,
            trim_start(s@) == trim_start(v@.subrange(i as int, n as int)),
        decreases n - i,
    {
        assert(v@.subrange(i as int, n as int).drop_first() == v@.subrange(
            (i + 1) as int,
            n as int,
        ));
        i = i + 1;
    }
    assert(trim_start(s@) == v@.subrange(i as int, n as int));
    let mut j: usize = n;
    while j > i && is_whitespace_char(v[j - 1])
        invariant
            v@ == s@,
            n == v.len(),
            i <= j <= n,
            trim(s@) == trim_end(v@.subrange(i as int, j as int)),
        decreases j - i,
    {
        assert(v@.subrange(i as int, j as int).drop_last() == v@.subrange(
            i as int,
            (j - 1) as int,
        ));
        j = j - 1;
    }
    string_from_range(&v, i, j)
}

/// Text that starts and ends with a character other than whitespace is left
/// as it is by trimming.
pub proof fn lemma_trim_unchanged(s: Seq<char>)
    requires
        s.len() > 0,
        !is_whitespace(s[0]),
        !is_whitespace(s.last()),
    ensures
        trim(s) == s,
{
}

/// The decimal text of an integer has no whitespace at either end.
pub proof fn lemma_int_decimal_trimmed(n: int)
    ensures
        trim(int_decimal(n)) == int_decimal(n),
{
    if n < 0 {
        lemma_nat_decimal((-n) as nat);
        let d = nat_decimal((-n) as nat);
        assert(is_digit(d[d.len() - 1]));
        assert(int_decimal(n).last() == d.last());
    } else {
        lemma_nat_decimal(n as nat);
        let d = nat_decimal(n as nat);
        assert(is_digit(d[0]));
        assert(is_digit(d[d.len() - 1]));
    }
    lemma_trim_unchanged(int_decimal(n));
}

/// `s` is `before`, the character `sep`, then `after`, and `sep` does not
/// occur in `before`: the split that `str::split_once` makes at the first
/// occurrence of `sep`.
pub open spec fn splits_at_first(s: Seq<char>, sep: char, before: Seq<char>, after: Seq<char>) -> bool {
    &&& s == before + seq![sep] + after
    &&& !before.contains(sep)
}

/// Splits `s` at the first occurrence of `sep`, as `str::split_once` does
/// with a `char` pattern.
pub fn split_once_char(s: &str, sep: char) -> (r: Option<(String, String)>)
    ensures
        r is None <==> !s@.contains(sep),
        r matches Some((before, after)) ==> splits_at_first(s@, sep, before@, after@),
{
    let v = chars_of(s);
    let n = v.len();
    for i in 0..n
        invariant
            v@ == s@,
            n == v.len(),
            forall|j: int| 0 <= j < i ==> v@[j] != sep,
    {
        if v[i] == sep {
            let before = string_from_range(&v, 0, i);
            let after = string_from_range(&v, i + 1, n);
            assert(v@ == v@.subrange(0, i as int) + seq![sep] + v@.subrange(
                (i + 1) as int,
                n as int,
            ));
            assert(!before@.contains(sep)) by {
                if before@.contains(sep) {
                    let k = choose|k: int| 0 <= k < before@.len() && before@[k] == sep;
                    assert(v@[k] == sep);
                }
            }
            return Some((before, after));
        }
    }
    assert(!s@.contains(sep)) by {
        if s@.contains(sep) {
            let k = choose|k: int| 0 <= k < s@.len() && s@[k] == sep;
            assert(v@[k] == sep);
        }
    }
    None
}

/// The parts joined with `sep` between each two of them, as `[String]::join`
/// gives it.
pub open spec fn join_with(parts: Seq<Seq<char>>, sep: Seq<char>) -> Seq<char>
    decreases parts.len(),
{
    if parts.len() == 0 {
        Seq::empty()
    } else if parts.len() == 1 {
        parts[0]
    } else {
        join_with(parts.drop_last(), sep) + sep + parts.last()
    }
}

/// Joins strings with a separator, as `[String]::join` does.
pub fn join_strings(parts: &Vec<String>, sep: &str) -> (r: String)
    ensures
        r@ == join_with(parts.deep_view(), sep@),
{
    let mut r = String::new();
    let ghost views = parts.deep_view();
    for i in 0..parts.len()
        invariant
            views == parts.deep_view(),
            r@ == join_with(views.take(i as int), sep@),
    {
        assert(views.take((i + 1) as int).drop_last() == views.take(i as int));
        if i != 0 {
            push_str(&mut r, sep);
        }
        push_str(&mut r, parts[i].as_str());
        assert(views.take((i + 1) as int).last() == parts[i as int]@);
    }
    assert(views.take(parts.len() as int) == views);
    r
}

} // verus!
