//! Character-level helpers over `str` and `String`, each stated over the
//! `Seq<char>` view.
use vstd::prelude::*;

verus! {

/// Relies on `String::push`: appends one character to the end of the string.
#[verifier::external_body]
pub(crate) fn push_char(s: &mut String, c: char)
    ensures
        final(s)@ == old(s)@.push(c),
{
    s.push(c);
}

/// Whether `a` and `b` hold the same characters.
pub fn same_text(a: &str, b: &str) -> (r: bool)
    ensures
        r == (a@ == b@),
{
    let n = a.unicode_len();
    if n != b.unicode_len() {
        return false;
    }
    let mut i: usize = 0;
    while i < n
        invariant
            n == a@.len(),
            n == b@.len(),
            i <= n,
            a@.subrange(0, i as int) == b@.subrange(0, i as int),
        decreases n - i,
    {
        if a.get_char(i) != b.get_char(i) {
            return false;
        }
        assert(a@.subrange(0, i + 1) == a@.subrange(0, i as int).push(a@[i as int]));
        assert(b@.subrange(0, i + 1) == b@.subrange(0, i as int).push(b@[i as int]));
        i = i + 1;
    }
    assert(a@ == a@.subrange(0, n as int));
    assert(b@ == b@.subrange(0, n as int));
    true
}

/// The first position at or after `k` where `pat` occurs in `hay`.
pub open spec fn find_from(hay: Seq<char>, pat: Seq<char>, k: int) -> Option<int>
    decreases hay.len() + 1 - k,
{
    if k < 0 || k + pat.len() > hay.len() {
        None
    } else if hay.subrange(k, k + pat.len()) == pat {
        Some(k)
    } else {
        find_from(hay, pat, k + 1)
    }
}

/// The first position where `pat` occurs in `hay`.
pub open spec fn find_first(hay: Seq<char>, pat: Seq<char>) -> Option<int> {
    find_from(hay, pat, 0)
}

pub proof fn lemma_find_from_bounds(hay: Seq<char>, pat: Seq<char>, k: int)
    ensures
        find_from(hay, pat, k) matches Some(p) ==> k <= p && p + pat.len() <= hay.len()
            && hay.subrange(p, p + pat.len()) == pat,
    decreases hay.len() + 1 - k,
{
    if k < 0 || k + pat.len() > hay.len() {
    } else if hay.subrange(k, k + pat.len()) == pat {
    } else {
        lemma_find_from_bounds(hay, pat, k + 1);
    }
}

/// Whether `hay[k..k + pat.len()]` equals `pat`; the caller keeps the range in bounds.
fn occurs_at(hay: &str, pat: &str, k: usize) -> (r: bool)
    requires
        k + pat@.len() <= hay@.len(),
    ensures
        r == (hay@.subrange(k as int, k + pat@.len()) == pat@),
{
    let n = hay.unicode_len();
    let m = pat.unicode_len();
    let mut j: usize = 0;
    while j < m
        invariant
            n == hay@.len(),
            m == pat@.len(),
            k + m <= hay@.len(),
            j <= m,
            hay@.subrange(k as int, k + j) == pat@.subrange(0, j as int),
        decreases m - j,
    {
        if hay.get_char(k + j) != pat.get_char(j) {
            assert(hay@.subrange(k as int, k + m)[j as int] != pat@[j as int]);
            return false;
        }
        assert(hay@.subrange(k as int, k + j + 1) == hay@.subrange(k as int, k + j).push(
            hay@[k + j],
        ));
        assert(pat@.subrange(0, j + 1) == pat@.subrange(0, j as int).push(pat@[j as int]));
        j = j + 1;
    }
    assert(pat@ == pat@.subrange(0, m as int));
    true
}

/// The first character position at or after `from` where `pat` occurs in `hay`.
pub fn find_text(hay: &str, pat: &str, from: usize) -> (r: Option<usize>)
    ensures
        r matches Some(p) ==> find_from(hay@, pat@, from as int) == Some(p as int),
        r is None ==> find_from(hay@, pat@, from as int) is None,
{
    let n = hay.unicode_len();
    let m = pat.unicode_len();
    if m > n {
        return None;
    }
    if from > n - m {
        return None;
    }
    let mut k: usize = from;
    loop
        invariant
            n == hay@.len(),
            m == pat@.len(),
            m <= n,
            from <= k <= n - m,
            find_from(hay@, pat@, from as int) == find_from(hay@, pat@, k as int),
        decreases n - m - k,
    {
        if occurs_at(hay, pat, k) {
            return Some(k);
        }
        if k == n - m {
            assert(find_from(hay@, pat@, k + 1) is None);
            return None;
        }
        k = k + 1;
    }
}

/// Whether `pat` occurs somewhere in `hay`.
pub fn contains_text(hay: &str, pat: &str) -> (r: bool)
    ensures
        r == find_first(hay@, pat@) is Some,
{
    find_text(hay, pat, 0).is_some()
}

/// The decimal digit character for `d` (which is below ten).
pub open spec fn digit_char(d: nat) -> char {
    ((48 + d) as u8) as char
}

/// The decimal text of `n`, without leading zeros.
pub open spec fn decimal(n: nat) -> Seq<char>
    decreases n,
{
    if n < 10 {
        seq![digit_char(n)]
    } else {
        decimal(n / 10).push(digit_char(n % 10))
    }
}

/// `k` zero characters.
pub open spec fn zeros(k: nat) -> Seq<char> {
    Seq::new(k, |_i: int| '0')
}

/// The decimal text of `n`, padded on the left with zeros to at least `width` characters.
pub open spec fn padded(n: nat, width: nat) -> Seq<char> {
    let d = decimal(n);
    if d.len() < width {
        zeros((width - d.len()) as nat) + d
    } else {
        d
    }
}

/// The decimal text of a signed integer: a minus sign before negative values.
pub open spec fn signed_decimal(v: int) -> Seq<char> {
    if v < 0 {
        seq!['-'] + decimal((-v) as nat)
    } else {
        decimal(v as nat)
    }
}

fn digit(d: u64) -> (c: char)
    requires
        d < 10,
    ensures
        c == digit_char(d as nat),
{
    ((48 + d) as u8) as char
}

/// The decimal text of `n`.
pub fn decimal_text(n: u64) -> (r: String)
    ensures
        r@ == decimal(n as nat),
    decreases n,
{
    if n < 10 {
        let mut r = String::new();
        push_char(&mut r, digit(n));
        r
    } else {
        let mut r = decimal_text(n / 10);
        push_char(&mut r, digit(n % 10));
        r
    }
}

/// The decimal text of `n`, padded on the left with zeros to at least `width` characters.
pub fn padded_text(n: u64, width: usize) -> (r: String)
    ensures
        r@ == padded(n as nat, width as nat),
{
    let d = decimal_text(n);
    let len = d.as_str().unicode_len();
    let mut r = String::new();
    let mut i: usize = len;
    while i < width
        invariant
            len == d@.len(),
            len <= i,
            i <= width || i == len,
            r@ == zeros((i - len) as nat),
        decreases width - i,
    {
        push_char(&mut r, '0');
        assert(r@ =~= zeros((i + 1 - len) as nat));
        i = i + 1;
    }
    r.append(d.as_str());
    if len < width {
        assert(i == width);
    } else {
        assert(r@ =~= d@);
    }
    r
}

/// The decimal text of `v`, with a minus sign when negative.
pub fn signed_text(v: i64) -> (r: String)
    ensures
        r@ == signed_decimal(v as int),
{
    if v < 0 {
        let magnitude: u64 = if v == i64::MIN {
            9223372036854775808u64
        } else {
            (-v) as u64
        };
        let d = decimal_text(magnitude);
        let mut r = String::new();
        push_char(&mut r, '-');
        r.append(d.as_str());
        assert(r@ =~= seq!['-'] + d@);
        r
    } else {
        decimal_text(v as u64)
    }
}

/// Whether `a[i..]` comes before `b[i..]` in lexicographic order of code points.
pub open spec fn lex_less_from(a: Seq<char>, b: Seq<char>, i: int) -> bool
    decreases a.len() - i,
{
    if i < 0 || i >= b.len() {
        false
    } else if i >= a.len() {
        true
    } else if a[i] != b[i] {
        a[i] < b[i]
    } else {
        lex_less_from(a, b, i + 1)
    }
}

/// Whether `a` comes before `b` in lexicographic order of code points, the
/// order that `Ord` gives `str`.
pub open spec fn lex_less(a: Seq<char>, b: Seq<char>) -> bool {
    lex_less_from(a, b, 0)
}

/// Whether `s` is in increasing order with no value twice.
pub open spec fn strictly_sorted(s: Seq<Seq<char>>) -> bool {
    forall|i: int, j: int| 0 <= i < j < s.len() ==> lex_less(#[trigger] s[i], #[trigger] s[j])
}

/// The texts held by a vector of strings.
pub open spec fn texts(v: Seq<String>) -> Seq<Seq<char>> {
    v.map_values(|s: String| s@)
}

proof fn lemma_lex_transitive(a: Seq<char>, b: Seq<char>, c: Seq<char>, i: int)
    requires
        lex_less_from(a, b, i),
        lex_less_from(b, c, i),
    ensures
        lex_less_from(a, c, i),
    decreases a.len() - i,
{
    if i < a.len() && a[i] == b[i] && b[i] == c[i] {
        lemma_lex_transitive(a, b, c, i + 1);
    }
}

proof fn lemma_lex_irreflexive(a: Seq<char>, i: int)
    ensures
        !lex_less_from(a, a, i),
    decreases a.len() - i,
{
    if 0 <= i < a.len() {
        lemma_lex_irreflexive(a, i + 1);
    }
}

proof fn lemma_lex_total(a: Seq<char>, b: Seq<char>, i: int)
    requires
        0 <= i <= a.len(),
        i <= b.len(),
        a.subrange(i, a.len() as int) != b.subrange(i, b.len() as int),
    ensures
        lex_less_from(a, b, i) || lex_less_from(b, a, i),
    decreases a.len() - i,
{
    if i < a.len() && i < b.len() && a[i] == b[i] {
        if a.subrange(i + 1, a.len() as int) == b.subrange(i + 1, b.len() as int) {
            assert(a.subrange(i, a.len() as int) =~= seq![a[i]] + a.subrange(i + 1, a.len() as int));
            assert(b.subrange(i, b.len() as int) =~= seq![b[i]] + b.subrange(i + 1, b.len() as int));
        }
        lemma_lex_total(a, b, i + 1);
    } else if i == a.len() && i == b.len() {
        assert(a.subrange(i, a.len() as int) =~= b.subrange(i, b.len() as int));
    }
}

/// Whether `a` comes before `b` in lexicographic order of code points.
pub fn text_less(a: &str, b: &str) -> (r: bool)
    ensures
        r == lex_less(a@, b@),
{
    let n = a.unicode_len();
    let m = b.unicode_len();
    let mut i: usize = 0;
    loop
        invariant
            n == a@.len(),
            m == b@.len(),
            i <= n,
            i <= m,
            lex_less(a@, b@) == lex_less_from(a@, b@, i as int),
        decreases n - i,
    {
        if i >= m {
            return false;
        }
        if i >= n {
            return true;
        }
        let x = a.get_char(i);
        let y = b.get_char(i);
        if x != y {
            return x < y;
        }
        i = i + 1;
    }
}

/// Puts `x` into the sorted `v` at its place, unless `v` already holds it.
pub fn insert_sorted(v: &mut Vec<String>, x: String)
    requires
        strictly_sorted(texts(old(v)@)),
    ensures
        strictly_sorted(texts(final(v)@)),
        forall|s: Seq<char>|
            texts(final(v)@).contains(s) <==> (texts(old(v)@).contains(s) || s == x@),
{
    let ghost old_texts = texts(v@);
    let n = v.len();
    let mut pos: usize = 0;
    while pos < n
        invariant
            n == v@.len(),
            old_texts == texts(v@),
            pos <= n,
            forall|k: int| 0 <= k < pos ==> lex_less(#[trigger] old_texts[k], x@),
        ensures
            pos <= n,
            forall|k: int| 0 <= k < pos ==> lex_less(#[trigger] old_texts[k], x@),
            pos < n ==> !lex_less(old_texts[pos as int], x@),
        decreases n - pos,
    {
        if !text_less(v[pos].as_str(), x.as_str()) {
            break;
        }
        pos = pos + 1;
    }
    if pos < n && same_text(v[pos].as_str(), x.as_str()) {
        assert(old_texts[pos as int] == x@);
        return;
    }
    let ghost xv = x@;
    v.insert(pos, x);
    proof {
        let w = texts(v@);
        assert(w =~= old_texts.insert(pos as int, xv));
        if pos < n {
            assert(!lex_less(old_texts[pos as int], xv));
            assert(old_texts[pos as int] != xv);
            assert(old_texts[pos as int].subrange(0, old_texts[pos as int].len() as int)
                =~= old_texts[pos as int]);
            assert(xv.subrange(0, xv.len() as int) =~= xv);
            lemma_lex_total(xv, old_texts[pos as int], 0);
        }
        assert forall|i: int, j: int| 0 <= i < j < w.len() implies lex_less(
            #[trigger] w[i],
            #[trigger] w[j],
        ) by {
            if i < pos && j == pos {
            } else if i < pos && j > pos {
                assert(w[j] == old_texts[j - 1]);
                assert(lex_less(old_texts[i], old_texts[j - 1]));
            } else if i == pos {
                assert(w[j] == old_texts[j - 1]);
                if j - 1 > pos {
                    assert(lex_less(old_texts[pos as int], old_texts[j - 1]));
                    lemma_lex_transitive(xv, old_texts[pos as int], old_texts[j - 1], 0);
                }
            } else if i > pos {
                assert(w[i] == old_texts[i - 1]);
                assert(w[j] == old_texts[j - 1]);
                assert(lex_less(old_texts[i - 1], old_texts[j - 1]));
            } else {
                assert(w[i] == old_texts[i]);
                assert(w[j] == old_texts[j]);
            }
        }
        assert forall|s: Seq<char>| w.contains(s) <==> (old_texts.contains(s) || s == xv) by {
            if w.contains(s) {
                let k = choose|k: int| 0 <= k < w.len() && w[k] == s;
                if k < pos {
                    assert(old_texts[k] == s);
                } else if k > pos {
                    assert(old_texts[k - 1] == s);
                }
            }
            if old_texts.contains(s) {
                let k = choose|k: int| 0 <= k < old_texts.len() && old_texts[k] == s;
                if k < pos {
                    assert(w[k] == s);
                } else {
                    assert(w[k + 1] == s);
                }
            }
            if s == xv {
                assert(w[pos as int] == s);
            }
        }
    }
}

} // verus!
