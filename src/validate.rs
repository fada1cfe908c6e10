//! Checks on what a user types into the form that adds a server.
use vstd::prelude::*;
use vstd::utf8::encode_utf8;

verus! {

/// Whether `c` is an ASCII decimal digit.
pub open spec fn is_digit(c: char) -> bool {
    '0' <= c && c <= '9'
}

/// The value of a string of decimal digits.
pub open spec fn digits_value(d: Seq<char>) -> nat
    decreases d.len(),
{
    if d.len() == 0 {
        0
    } else {
        digits_value(d.drop_last()) * 10 + ((d.last() as u32) - 48) as nat
    }
}

/// Whether every character of `d` is a decimal digit.
pub open spec fn all_digits(d: Seq<char>) -> bool {
    forall|i: int| 0 <= i < d.len() ==> is_digit(#[trigger] d[i])
}

/// The digits of an unsigned number's text: one leading `+` is dropped.
pub open spec fn unsigned_digits(t: Seq<char>) -> Seq<char> {
    if t.len() > 0 && t[0] == '+' {
        t.drop_first()
    } else {
        t
    }
}

/// The value of `t` read as an unsigned decimal number no larger than `max`:
/// an optional `+`, then one or more digits; `None` for any other text.
pub open spec fn unsigned_value(t: Seq<char>, max: nat) -> Option<nat> {
    let d = unsigned_digits(t);
    if d.len() > 0 && all_digits(d) && digits_value(d) <= max {
        Some(digits_value(d))
    } else {
        None
    }
}

/// Reads `t` as an unsigned decimal number no larger than `max`, as `str::parse`
/// does for the unsigned integer type whose largest value is `max`.
pub fn parse_unsigned(t: &str, max: u64) -> (r: Option<u64>)
    ensures
        r matches Some(v) ==> unsigned_value(t@, max as nat) == Some(v as nat),
        r is None ==> unsigned_value(t@, max as nat) is None,
{
    let n = t.unicode_len();
    let mut start: usize = 0;
    if n > 0 && t.get_char(0) == '+' {
        start = 1;
    }
    let ghost d = unsigned_digits(t@);
    assert(d == t@.subrange(start as int, n as int));
    if start == n {
        return None;
    }
    let mut value: u64 = 0;
    let mut i: usize = start;
    while i < n
        invariant
            n == t@.len(),
            start < n,
            start <= i <= n,
            d == t@.subrange(start as int, n as int),
            d == unsigned_digits(t@),
            forall|k: int| 0 <= k < i - start ==> is_digit(#[trigger] d[k]),
            value == digits_value(d.subrange(0, i - start)),
            value <= max,
        decreases n - i,
    {
        let c = t.get_char(i);
        assert(d[i - start] == c);
        if c < '0' || c > '9' {
            assert(!is_digit(d[i - start]));
            return None;
        }
        let digit: u64 = c as u64 - 48;
        assert(d.subrange(0, i + 1 - start).drop_last() == d.subrange(0, i - start));
        if value > (u64::MAX - digit) / 10 {
            assert(value * 10 + digit > u64::MAX) by (nonlinear_arith)
                requires
                    value > (u64::MAX - digit) / 10,
                    digit <= 9,
            ;
            proof {
                if all_digits(d) {
                    lemma_digits_value_prefix(d, i + 1 - start);
                }
            }
            return None;
        }
        let next: u64 = value * 10 + digit;
        if next > max {
            proof {
                if all_digits(d) {
                    lemma_digits_value_prefix(d, i + 1 - start);
                }
            }
            return None;
        }
        value = next;
        i = i + 1;
    }
    assert(d.subrange(0, n - start) == d);
    Some(value)
}

proof fn lemma_digits_value_prefix(d: Seq<char>, k: int)
    requires
        0 <= k <= d.len(),
        forall|i: int| 0 <= i < d.len() ==> is_digit(#[trigger] d[i]),
    ensures
        digits_value(d.subrange(0, k)) <= digits_value(d),
    decreases d.len() - k,
{
    if k < d.len() {
        lemma_digits_value_prefix(d, k + 1);
        assert(d.subrange(0, k + 1).drop_last() == d.subrange(0, k));
    } else {
        assert(d.subrange(0, k) == d);
    }
}

/// The pieces of `s` between occurrences of `sep`, as `str::split` yields them.
pub open spec fn split_on(s: Seq<char>, sep: char) -> Seq<Seq<char>>
    decreases s.len(),
{
    if s.len() == 0 {
        seq![Seq::empty()]
    } else {
        let rest = split_on(s.drop_last(), sep);
        if s.last() == sep {
            rest.push(Seq::empty())
        } else {
            rest.update(rest.len() - 1, rest.last().push(s.last()))
        }
    }
}

/// Four dot-separated numbers, each from 0 to 255 as `str::parse::<u8>` reads it.
pub open spec fn is_ipv4(s: Seq<char>) -> bool {
    let parts = split_on(s, '.');
    parts.len() == 4 && forall|k: int| 0 <= k < 4 ==> (#[trigger] unsigned_value(parts[k], 255)) is Some
}

/// Whether `ip` is a dotted IPv4 address.
pub fn is_valid_ipv4(ip: &str) -> (r: bool)
    ensures
        r == is_ipv4(ip@),
{
    let n = ip.unicode_len();
    let ghost done: Seq<Seq<char>> = Seq::empty();
    let mut dots: usize = 0;
    let mut all_ok = true;
    let mut start: usize = 0;
    let mut i: usize = 0;
    assert(ip@.subrange(0, 0) =~= Seq::<char>::empty());
    assert(ip@.subrange(0, 0) =~= ip@.subrange(0, 0));
    while i < n
        invariant
            n == ip@.len(),
            start <= i <= n,
            dots == done.len(),
            dots <= i,
            split_on(ip@.subrange(0, i as int), '.') == done.push(ip@.subrange(start as int, i as int)),
            all_ok == forall|k: int| 0 <= k < done.len() ==> (#[trigger] unsigned_value(done[k], 255)) is Some,
        decreases n - i,
    {
        let c = ip.get_char(i);
        let ghost prefix = ip@.subrange(0, i + 1);
        assert(prefix.drop_last() == ip@.subrange(0, i as int));
        assert(prefix.last() == c);
        if c == '.' {
            let piece = ip.substring_char(start, i);
            let ok = parse_unsigned(piece, 255).is_some();
            let ghost old_done = done;
            all_ok = all_ok && ok;
            proof {
                done = done.push(ip@.subrange(start as int, i as int));
                assert(forall|k: int| 0 <= k < old_done.len() ==> done[k] == old_done[k]);
                assert(ip@.subrange(i + 1, i + 1) =~= Seq::<char>::empty());
                if all_ok {
                    assert forall|k: int| 0 <= k < done.len() implies (#[trigger] unsigned_value(done[k], 255)) is Some by {
                        if k < old_done.len() {
                            assert(unsigned_value(old_done[k], 255) is Some);
                        }
                    }
                } else if !ok {
                    assert(unsigned_value(done[old_done.len() as int], 255) is None);
                } else {
                    let k = choose|k: int| 0 <= k < old_done.len() && !((#[trigger] unsigned_value(old_done[k], 255)) is Some);
                    assert(unsigned_value(done[k], 255) is None);
                }
            }
            dots = dots + 1;
            start = i + 1;
        } else {
            assert(ip@.subrange(start as int, i + 1) =~= ip@.subrange(start as int, i as int).push(c));
        }
        i = i + 1;
    }
    assert(ip@.subrange(0, n as int) == ip@);
    if dots != 3 {
        return false;
    }
    let last = ip.substring_char(start, n);
    let ok = parse_unsigned(last, 255).is_some();
    proof {
        let parts = split_on(ip@, '.');
        assert(forall|k: int| 0 <= k < done.len() ==> parts[k] == done[k]);
        assert(parts[3] == ip@.subrange(start as int, n as int));
        if all_ok && ok {
            assert forall|k: int| 0 <= k < 4 implies (#[trigger] unsigned_value(parts[k], 255)) is Some by {
                if k < 3 {
                    assert(unsigned_value(done[k], 255) is Some);
                }
            }
        } else if !ok {
            assert(unsigned_value(parts[3], 255) is None);
        } else {
            let k = choose|k: int| 0 <= k < done.len() && !((#[trigger] unsigned_value(done[k], 255)) is Some);
            assert(unsigned_value(parts[k], 255) is None);
        }
    }
    all_ok && ok
}

/// Whether `c` is alphabetic or numeric in Unicode's sense.
pub uninterp spec fn alphanumeric(c: char) -> bool;

/// Relies on `char::is_alphanumeric`: whether `c` is alphabetic or numeric.
#[verifier::external_body]
fn char_is_alphanumeric(c: char) -> (r: bool)
    ensures
        r == alphanumeric(c),
{
    c.is_alphanumeric()
}

/// A character that may stand in a host name.
pub open spec fn hostname_char(c: char) -> bool {
    alphanumeric(c) || c == '.' || c == '-'
}

/// At most 253 bytes of UTF-8, not empty, letters, digits, dots and hyphens only,
/// and neither beginning nor ending with a dot or a hyphen.
pub open spec fn is_hostname(s: Seq<char>) -> bool {
    &&& encode_utf8(s).len() <= 253
    &&& s.len() > 0
    &&& forall|i: int| 0 <= i < s.len() ==> hostname_char(#[trigger] s[i])
    &&& s[0] != '.' && s[0] != '-'
    &&& s.last() != '.' && s.last() != '-'
}

/// Whether `hostname` has the shape of a host name.
pub fn is_valid_hostname(hostname: &str) -> (r: bool)
    ensures
        r == is_hostname(hostname@),
{
    if hostname.as_bytes().len() > 253 || hostname.is_empty() {
        return false;
    }
    let n = hostname.unicode_len();
    let mut i: usize = 0;
    while i < n
        invariant
            n == hostname@.len(),
            i <= n,
            forall|k: int| 0 <= k < i ==> hostname_char(#[trigger] hostname@[k]),
        decreases n - i,
    {
        let c = hostname.get_char(i);
        if !(char_is_alphanumeric(c) || c == '.' || c == '-') {
            assert(!hostname_char(hostname@[i as int]));
            return false;
        }
        i = i + 1;
    }
    let first = hostname.get_char(0);
    let last = hostname.get_char(n - 1);
    first != '.' && last != '.' && first != '-' && last != '-'
}

/// A dotted IPv4 address or a host name.
pub open spec fn is_address(s: Seq<char>) -> bool {
    s.len() > 0 && (is_ipv4(s) || is_hostname(s))
}

/// Whether `input` names a server: an IPv4 address or a host name.
pub fn is_valid_ip_or_hostname(input: &str) -> (r: bool)
    ensures
        r == is_address(input@),
{
    if input.is_empty() {
        return false;
    }
    if is_valid_ipv4(input) {
        return true;
    }
    is_valid_hostname(input)
}

/// Whether `c` has Unicode's White_Space property.
pub uninterp spec fn white_space(c: char) -> bool;

/// `s` without its leading white space.
pub open spec fn trim_start(s: Seq<char>) -> Seq<char>
    decreases s.len(),
{
    if s.len() > 0 && white_space(s[0]) {
        trim_start(s.drop_first())
    } else {
        s
    }
}

/// `s` without its trailing white space.
pub open spec fn trim_end(s: Seq<char>) -> Seq<char>
    decreases s.len(),
{
    if s.len() > 0 && white_space(s.last()) {
        trim_end(s.drop_last())
    } else {
        s
    }
}

/// `s` without leading and trailing white space.
pub open spec fn trimmed(s: Seq<char>) -> Seq<char> {
    trim_end(trim_start(s))
}

/// Relies on `str::trim`: the slice without leading and trailing characters
/// that have the White_Space property.
#[verifier::external_body]
pub(crate) fn trim(s: &str) -> (r: &str)
    ensures
        r@ == trimmed(s@),
        r@.len() > 0 ==> !white_space(r@[0]) && !white_space(r@.last()),
{
    s.trim()
}

} // verus!
