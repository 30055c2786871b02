//! The port range `start-end` and its parser.
use vstd::prelude::*;

verus! {

/// Represents the range of ports to be scanned.
#[derive(Clone, Copy, Debug, PartialEq, Eq, Structural)]
pub struct PortRange {
    pub start: u16,
    pub end: u16,
}

/// The message of every refused range.
pub open spec fn range_error_message() -> Seq<char> {
    "the range format must be 'start-end'. Example: 1-1000."@
}

/// An ASCII decimal digit.
pub open spec fn is_digit(c: char) -> bool {
    '0' <= c && c <= '9'
}

/// The number that a string of decimal digits writes.
pub open spec fn decimal_value(d: Seq<char>) -> int
    decreases d.len(),
{
    if d.len() == 0 {
        0
    } else {
        decimal_value(d.drop_last()) * 10 + (d.last() as int - '0' as int)
    }
}

/// What remains of a number's text once an optional leading `+` is taken off.
pub open spec fn unsigned_digits(t: Seq<char>) -> Seq<char> {
    if t.len() > 0 && t[0] == '+' {
        t.drop_first()
    } else {
        t
    }
}

/// The `u16` that a text writes, as std's `u16::from_str` reads it: an optional
/// `+`, then one or more ASCII digits whose value is at most `u16::MAX`.
pub open spec fn spec_parse_u16(t: Seq<char>) -> Option<u16> {
    let d = unsigned_digits(t);
    if d.len() > 0 && (forall|k: int| 0 <= k < d.len() ==> is_digit(#[trigger] d[k]))
        && decimal_value(d) <= u16::MAX {
        Some(decimal_value(d) as u16)
    } else {
        None
    }
}

/// `i` is the place of the one and only `-` in `s`.
pub open spec fn single_dash_at(s: Seq<char>, i: int) -> bool {
    &&& 0 <= i < s.len()
    &&& s[i] == '-'
    &&& forall|j: int| 0 <= j < s.len() && j != i ==> #[trigger] s[j] != '-'
}

/// The range that a text `start-end` writes: exactly one `-`, with a `u16` on
/// each side of it. Any other text writes no range.
pub open spec fn spec_parse_range(s: Seq<char>) -> Option<PortRange> {
    if exists|i: int| single_dash_at(s, i) {
        let i = choose|i: int| single_dash_at(s, i);
        match (spec_parse_u16(s.take(i)), spec_parse_u16(s.skip(i + 1))) {
            (Some(start), Some(end)) => Some(PortRange { start, end }),
            _ => None,
        }
    } else {
        None
    }
}

/// A string of digits is worth at least as much as any of its prefixes.
proof fn lemma_decimal_value_prefix(d: Seq<char>, k: int)
    requires
        0 <= k <= d.len(),
        forall|j: int| 0 <= j < d.len() ==> is_digit(#[trigger] d[j]),
    ensures
        0 <= decimal_value(d.take(k)) <= decimal_value(d),
    decreases d.len(),
{
    if d.len() > 0 {
        let p = d.drop_last();
        assert forall|j: int| 0 <= j < p.len() implies is_digit(#[trigger] p[j]) by {
            assert(p[j] == d[j]);
        }
        if k == d.len() {
            assert(d.take(k) =~= d);
            lemma_decimal_value_prefix(p, 0);
            assert(is_digit(d[d.len() - 1]));
        } else {
            lemma_decimal_value_prefix(p, k);
            assert(p.take(k) =~= d.take(k));
            lemma_decimal_value_prefix(p, p.len() as int);
            assert(p.take(p.len() as int) =~= p);
            assert(is_digit(d[d.len() - 1]));
        }
    } else {
        assert(d.take(k) =~= d);
    }
}

/// The digit character of `d`, for `0 <= d < 10`.
pub open spec fn digit_char(d: int) -> char {
    ('0' as int + d) as char
}

/// The decimal text of a number, without leading zeros.
pub open spec fn decimal_text(n: nat) -> Seq<char>
    decreases n,
{
    if n < 10 {
        seq![digit_char(n as int)]
    } else {
        decimal_text(n / 10).push(digit_char((n % 10) as int))
    }
}

/// The decimal text of a number is a non-empty string of digits that writes
/// that number.
pub proof fn lemma_decimal_text(n: nat)
    ensures
        decimal_text(n).len() > 0,
        forall|k: int| 0 <= k < decimal_text(n).len() ==> is_digit(#[trigger] decimal_text(n)[k]),
        decimal_value(decimal_text(n)) == n,
    decreases n,
{
    if n < 10 {
        let t = decimal_text(n);
        assert(t.drop_last() =~= Seq::<char>::empty());
        assert(digit_char(n as int) as int == '0' as int + n);
        assert(t.last() == digit_char(n as int));
        assert(decimal_value(t) == decimal_value(Seq::<char>::empty()) * 10 + n);
    } else {
        lemma_decimal_text(n / 10);
        let t = decimal_text(n);
        assert(t.drop_last() =~= decimal_text(n / 10));
        assert(digit_char((n % 10) as int) as int == '0' as int + n % 10);
        assert(t.last() == digit_char((n % 10) as int));
        assert(decimal_value(t) == (n / 10) * 10 + (n % 10));
        assert forall|k: int| 0 <= k < t.len() implies is_digit(#[trigger] t[k]) by {
            if k < t.len() - 1 {
                assert(t[k] == decimal_text(n / 10)[k]);
            }
        }
    }
}

/// Every port range reads back from its text `start-end`, with both ports
/// written in decimal.
pub proof fn lemma_parse_range_roundtrip(r: PortRange)
    ensures
        spec_parse_range(decimal_text(r.start as nat) + seq!['-'] + decimal_text(r.end as nat))
            == Some(r),
{
    let a = decimal_text(r.start as nat);
    let b = decimal_text(r.end as nat);
    let s = a + seq!['-'] + b;
    lemma_decimal_text(r.start as nat);
    lemma_decimal_text(r.end as nat);
    let i = a.len() as int;
    assert forall|j: int| 0 <= j < s.len() && j != i implies #[trigger] s[j] != '-' by {
        if j < i {
            assert(s[j] == a[j]);
            assert(is_digit(a[j]));
        } else {
            assert(s[j] == b[j - i - 1]);
            assert(is_digit(b[j - i - 1]));
        }
    }
    assert(single_dash_at(s, i));
    let k = choose|k: int| single_dash_at(s, k);
    assert(s[i] == '-');
    assert(k == i);
    assert(s.take(i) =~= a);
    assert(s.skip(i + 1) =~= b);
    assert(a[0] != '+') by {
        assert(is_digit(a[0]));
    }
    assert(b[0] != '+') by {
        assert(is_digit(b[0]));
    }
    assert(unsigned_digits(a) == a);
    assert(unsigned_digits(b) == b);
}

/// The characters of a string slice, in order.
fn chars_of(input: &str) -> (out: Vec<char>)
    ensures
        out@ == input@,
{
    let mut out: Vec<char> = Vec::new();
    for c in it: input.chars()
        invariant
            out@ == it.seq().take(it.index() as int),
            it.seq() == input@,
    {
        out.push(c);
    }
    out
}

/// Reads `chars[lo..hi]` as a `u16`, as `u16::from_str` does.
fn parse_u16_at(chars: &Vec<char>, lo: usize, hi: usize) -> (res: Option<u16>)
    requires
        lo <= hi <= chars.len(),
    ensures
        res == spec_parse_u16(chars@.subrange(lo as int, hi as int)),
{
    let ghost t = chars@.subrange(lo as int, hi as int);
    let ghost d = unsigned_digits(t);
    let mut i: usize = lo;
    if i < hi && chars[i] == '+' {
        i = i + 1;
    }
    let start: usize = i;
    proof {
        assert(d =~= chars@.subrange(start as int, hi as int));
    }
    if i == hi {
        return None;
    }
    let mut val: u32 = 0;
    while i < hi
        invariant
            lo <= start <= i <= hi <= chars.len(),
            t == chars@.subrange(lo as int, hi as int),
            d == unsigned_digits(t),
            d == chars@.subrange(start as int, hi as int),
            d.len() > 0,
            forall|k: int| 0 <= k < i - start ==> is_digit(#[trigger] d[k]),
            val == decimal_value(d.take(i - start)),
            val <= u16::MAX,
        decreases hi - i,
    {
        let c = chars[i];
        proof {
            assert(d[i - start] == c);
        }
        if !('0' <= c && c <= '9') {
            return None;
        }
        let digit: u32 = (c as u32) - ('0' as u32);
        proof {
            let p = d.take(i - start + 1);
            assert(p.drop_last() =~= d.take(i - start));
            assert(p.last() == c);
        }
        val = val * 10 + digit;
        if val > 65535 {
            proof {
                if forall|k: int| 0 <= k < d.len() ==> is_digit(#[trigger] d[k]) {
                    lemma_decimal_value_prefix(d, i - start + 1);
                }
            }
            return None;
        }
        i = i + 1;
    }
    proof {
        assert(d.take(d.len() as int) =~= d);
    }
    Some(val as u16)
}

/// Parses a port range written `start-end`, such as `1-1000`.
///
/// The text must hold exactly one `-`, with a `u16` on each side of it, each
/// written as `u16::from_str` reads it. Every other text gives the error
/// message "the range format must be 'start-end'. Example: 1-1000."
pub fn parse_range(input: &str) -> (res: Result<PortRange, String>)
    ensures
        match res {
            Ok(r) => spec_parse_range(input@) == Some(r),
            Err(e) => spec_parse_range(input@) is None && e@ == range_error_message(),
        },
{
    let chars = chars_of(input);
    let ghost s = input@;
    let n: usize = chars.len();
    let mut dashes: usize = 0;
    let mut dash_at: usize = 0;
    let ghost mut other: int = 0;
    let mut i: usize = 0;
    while i < n
        invariant
            n == chars.len(),
            chars@ == s,
            i <= n,
            dashes <= 2,
            dashes == 0 ==> forall|j: int| 0 <= j < i ==> #[trigger] s[j] != '-',
            dashes == 1 ==> dash_at < i && s[dash_at as int] == '-' && forall|j: int|
                0 <= j < i && j != dash_at ==> #[trigger] s[j] != '-',
            dashes == 2 ==> dash_at < i && 0 <= other < i && other != dash_at && s[dash_at as int]
                == '-' && s[other] == '-',
        decreases n - i,
    {
        if chars[i] == '-' {
            if dashes == 0 {
                dash_at = i;
                dashes = 1;
            } else if dashes == 1 {
                proof {
                    other = i as int;
                }
                dashes = 2;
            }
        }
        i = i + 1;
    }
    let msg = "the range format must be 'start-end'. Example: 1-1000.";
    if dashes != 1 {
        proof {
            assert forall|k: int| !single_dash_at(s, k) by {
                if single_dash_at(s, k) {
                    if dashes == 2 {
                        assert(s[dash_at as int] == '-');
                        assert(s[other] == '-');
                    } else {
                        assert(s[k] == '-');
                    }
                }
            }
        }
        return Err(msg.to_owned());
    }
    proof {
        assert(single_dash_at(s, dash_at as int));
        let k = choose|k: int| single_dash_at(s, k);
        assert(s[dash_at as int] == '-');
        assert(k == dash_at);
        assert(s.take(dash_at as int) =~= chars@.subrange(0, dash_at as int));
        assert(s.skip(dash_at + 1) =~= chars@.subrange(dash_at + 1, n as int));
    }
    let start = parse_u16_at(&chars, 0, dash_at);
    let end = parse_u16_at(&chars, dash_at + 1, n);
    match (start, end) {
        (Some(start), Some(end)) => Ok(PortRange { start, end }),
        _ => Err(msg.to_owned()),
    }
}

} // verus!

verus! {

/// A text is refused where it has no `-`, two or more `-`, nothing before
/// or after its `-`, or a character that is neither a digit, `-` nor `+`.
pub proof fn lemma_parse_range_refuses(s: Seq<char>)
    ensures
        (forall|j: int| 0 <= j < s.len() ==> #[trigger] s[j] != '-') ==> spec_parse_range(s) is None,
        (exists|i: int, k: int| 0 <= i < k < s.len() && #[trigger] s[i] == '-' && #[trigger] s[k] == '-')
            ==> spec_parse_range(s) is None,
        s.len() > 0 && s[0] == '-' ==> spec_parse_range(s) is None,
        s.len() > 0 && s[s.len() - 1] == '-' ==> spec_parse_range(s) is None,
        (exists|j: int|
            0 <= j < s.len() && !is_digit(#[trigger] s[j]) && s[j] != '-' && s[j] != '+')
            ==> spec_parse_range(s) is None,
{
    if exists|i: int| single_dash_at(s, i) {
        let i = choose|i: int| single_dash_at(s, i);
        let a = s.take(i);
        let b = s.skip(i + 1);
        if exists|i2: int, k: int| 0 <= i2 < k < s.len() && #[trigger] s[i2] == '-' && #[trigger] s[k] == '-' {
            let (i2, k) = choose|i2: int, k: int| 0 <= i2 < k < s.len() && #[trigger] s[i2] == '-' && #[trigger] s[k] == '-';
            assert(s[i2] == '-' && s[k] == '-');
        }
        if s.len() > 0 && s[0] == '-' {
            assert(i == 0);
            assert(a.len() == 0);
        }
        if s.len() > 0 && s[s.len() - 1] == '-' {
            assert(i == s.len() - 1);
            assert(b.len() == 0);
        }
        if exists|j: int| 0 <= j < s.len() && !is_digit(#[trigger] s[j]) && s[j] != '-' && s[j] != '+' {
            let j = choose|j: int| 0 <= j < s.len() && !is_digit(#[trigger] s[j]) && s[j] != '-' && s[j] != '+';
            if j < i {
                assert(a[j] == s[j]);
                let d = unsigned_digits(a);
                if a.len() > 0 && a[0] == '+' {
                    assert(d[j - 1] == a[j]);
                } else {
                    assert(d[j] == a[j]);
                }
            } else {
                assert(j > i);
                assert(b[j - i - 1] == s[j]);
                let d = unsigned_digits(b);
                if b.len() > 0 && b[0] == '+' {
                    assert(d[j - i - 2] == b[j - i - 1]);
                } else {
                    assert(d[j - i - 1] == b[j - i - 1]);
                }
            }
        }
    }
}

/// A number's text reads as that number where it fits in a `u16`, also with
/// a leading `+`, and is refused where it does not.
pub proof fn lemma_parse_u16_decimal(n: nat)
    ensures
        n <= 65535 ==> spec_parse_u16(decimal_text(n)) == Some(n as u16),
        n <= 65535 ==> spec_parse_u16(seq!['+'] + decimal_text(n)) == Some(n as u16),
        n > 65535 ==> spec_parse_u16(decimal_text(n)) is None,
{
    lemma_decimal_text(n);
    let t = decimal_text(n);
    assert(is_digit(t[0]));
    assert(unsigned_digits(t) == t);
    assert((seq!['+'] + t).drop_first() =~= t);
    assert(unsigned_digits(seq!['+'] + t) == t);
}

} // verus!
