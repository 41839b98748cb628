//! Line, whitespace and number handling over character sequences: the
//! behaviour of `str::lines`, `str::trim`, `str::split_whitespace`,
//! `strip_prefix` and unsigned `from_str_radix`, stated as spec functions
//! and implemented over index ranges of a `Vec<char>`.

use vstd::prelude::*;
use crate::text::push_char;

verus! {

/// Unicode `White_Space`, the set `char::is_whitespace` tests.
pub open spec fn is_ws(c: char) -> bool {
    ||| ('\u{9}' <= c && c <= '\u{d}')
    ||| c == ' '
    ||| c == '\u{85}'
    ||| c == '\u{a0}'
    ||| c == '\u{1680}'
    ||| ('\u{2000}' <= c && c <= '\u{200a}')
    ||| c == '\u{2028}'
    ||| c == '\u{2029}'
    ||| c == '\u{202f}'
    ||| c == '\u{205f}'
    ||| c == '\u{3000}'
}

/// Whether `c` is white space.
pub fn is_whitespace(c: char) -> (r: bool)
    ensures
        r == is_ws(c),
{
    ('\u{9}' <= c && c <= '\u{d}') || c == ' ' || c == '\u{85}' || c == '\u{a0}' || c == '\u{1680}'
        || ('\u{2000}' <= c && c <= '\u{200a}') || c == '\u{2028}' || c == '\u{2029}'
        || c == '\u{202f}' || c == '\u{205f}' || c == '\u{3000}'
}

/// Number of white-space characters at the start of `s`.
pub open spec fn leading_ws(s: Seq<char>) -> nat
    decreases s.len(),
{
    if s.len() == 0 {
        0
    } else if is_ws(s[0]) {
        1 + leading_ws(s.drop_first())
    } else {
        0
    }
}

/// Number of white-space characters at the end of `s`.
pub open spec fn trailing_ws(s: Seq<char>) -> nat
    decreases s.len(),
{
    if s.len() == 0 {
        0
    } else if is_ws(s.last()) {
        1 + trailing_ws(s.drop_last())
    } else {
        0
    }
}

/// `s` without leading and trailing white space (`str::trim`).
pub open spec fn trim(s: Seq<char>) -> Seq<char> {
    let t = s.skip(leading_ws(s) as int);
    t.take(t.len() - trailing_ws(t))
}

/// The rest of `s` after `p`, when `s` starts with `p` (`strip_prefix`).
pub open spec fn strip_prefix(s: Seq<char>, p: Seq<char>) -> Option<Seq<char>> {
    if p.len() <= s.len() && s.take(p.len() as int) == p {
        Some(s.skip(p.len() as int))
    } else {
        None
    }
}

/// `s` without a `\r` at its end.
pub open spec fn strip_cr(s: Seq<char>) -> Seq<char> {
    if s.len() > 0 && s.last() == '\r' {
        s.drop_last()
    } else {
        s
    }
}

/// The lines of `cur + s`, where `cur` is the part of the current line
/// already read: a `\n` ends a line (and a `\r` right before it is
/// dropped); a last line without `\n` counts when it is not empty.
pub open spec fn lines_from(s: Seq<char>, cur: Seq<char>) -> Seq<Seq<char>>
    decreases s.len(),
{
    if s.len() == 0 {
        if cur.len() == 0 { Seq::empty() } else { seq![cur] }
    } else if s[0] == '\n' {
        seq![strip_cr(cur)] + lines_from(s.drop_first(), Seq::empty())
    } else {
        lines_from(s.drop_first(), cur.push(s[0]))
    }
}

/// The lines of `s` (`str::lines`).
pub open spec fn lines_of(s: Seq<char>) -> Seq<Seq<char>> {
    lines_from(s, Seq::empty())
}

/// The white-space separated words of `cur + s`, where `cur` is the part
/// of the current word already read.
pub open spec fn words_from(s: Seq<char>, cur: Seq<char>) -> Seq<Seq<char>>
    decreases s.len(),
{
    if s.len() == 0 {
        if cur.len() == 0 { Seq::empty() } else { seq![cur] }
    } else if is_ws(s[0]) {
        (if cur.len() == 0 { Seq::empty() } else { seq![cur] }) + words_from(s.drop_first(), Seq::empty())
    } else {
        words_from(s.drop_first(), cur.push(s[0]))
    }
}

/// The white-space separated words of `s` (`str::split_whitespace`).
pub open spec fn words_of(s: Seq<char>) -> Seq<Seq<char>> {
    words_from(s, Seq::empty())
}

/// The value of a digit in base `radix` (2..=36), if it is one.
pub open spec fn digit_value(c: char, radix: nat) -> Option<nat> {
    let d: int = if '0' <= c && c <= '9' {
        c as int - '0' as int
    } else if 'a' <= c && c <= 'z' {
        c as int - 'a' as int + 10
    } else if 'A' <= c && c <= 'Z' {
        c as int - 'A' as int + 10
    } else {
        radix as int
    };
    if d < radix { Some(d as nat) } else { None }
}

/// Whether every character of `s` is a digit in base `radix`.
pub open spec fn all_digits(s: Seq<char>, radix: nat) -> bool {
    forall|i: int| 0 <= i < s.len() ==> digit_value(#[trigger] s[i], radix) is Some
}

/// The number that the digits `s` spell in base `radix`.
pub open spec fn digits_value(s: Seq<char>, radix: nat) -> nat
    decreases s.len(),
{
    if s.len() == 0 {
        0
    } else {
        digits_value(s.drop_last(), radix) * radix + digit_value(s.last(), radix).unwrap()
    }
}

/// Unsigned parsing in base `radix` with a largest value `max`
/// (`from_str_radix` / `str::parse` of an unsigned type): an optional `+`
/// followed by at least one digit, of a value at most `max`.
pub open spec fn parse_unsigned(s: Seq<char>, radix: nat, max: nat) -> Option<nat> {
    let d = if s.len() > 0 && s[0] == '+' { s.drop_first() } else { s };
    if d.len() > 0 && all_digits(d, radix) && digits_value(d, radix) <= max {
        Some(digits_value(d, radix))
    } else {
        None
    }
}

/// The decimal digit character of `d` (< 10).
pub open spec fn digit_char(d: nat) -> char {
    ('0' as int + d) as char
}

/// The decimal representation of `n`, without leading zeros.
pub open spec fn decimal(n: nat) -> Seq<char>
    decreases n,
{
    if n < 10 {
        seq![digit_char(n)]
    } else {
        decimal(n / 10).push(digit_char(n % 10))
    }
}

/// Characters of `v` in `[lo, hi)`.
pub open spec fn slice(v: Seq<char>, lo: int, hi: int) -> Seq<char> {
    v.subrange(lo, hi)
}

proof fn lemma_leading_ws(s: Seq<char>, k: int)
    requires
        0 <= k <= s.len(),
        forall|j: int| 0 <= j < k ==> is_ws(s[j]),
        k == s.len() || !is_ws(s[k]),
    ensures
        leading_ws(s) == k,
    decreases k,
{
    if k > 0 {
        lemma_leading_ws(s.drop_first(), k - 1);
    } else if s.len() > 0 {
    }
}

proof fn lemma_trailing_ws(s: Seq<char>, k: int)
    requires
        0 <= k <= s.len(),
        forall|j: int| s.len() - k <= j < s.len() ==> is_ws(s[j]),
        k == s.len() || !is_ws(s[s.len() - k - 1]),
    ensures
        trailing_ws(s) == k,
    decreases k,
{
    if k > 0 {
        lemma_trailing_ws(s.drop_last(), k - 1);
    }
}

/// The bounds of `trim(v[lo..hi])` inside `v`.
pub fn trim_range(v: &Vec<char>, lo: usize, hi: usize) -> (r: (usize, usize))
    requires
        lo <= hi <= v@.len(),
    ensures
        lo <= r.0 <= r.1 <= hi,
        v@.subrange(r.0 as int, r.1 as int) == trim(v@.subrange(lo as int, hi as int)),
{
    let ghost s = v@.subrange(lo as int, hi as int);
    let mut a = lo;
    while a < hi && is_whitespace(v[a])
        invariant
            lo <= a <= hi,
            hi <= v@.len(),
            s == v@.subrange(lo as int, hi as int),
            forall|j: int| lo <= j < a ==> is_ws(v@[j]),
        decreases hi - a,
    {
        a = a + 1;
    }
    proof {
        lemma_leading_ws(s, a - lo);
    }
    let ghost t = s.skip(a - lo);
    assert(t =~= v@.subrange(a as int, hi as int));
    let mut b = hi;
    while b > a && is_whitespace(v[b - 1])
        invariant
            a <= b <= hi,
            hi <= v@.len(),
            forall|j: int| b <= j < hi ==> is_ws(v@[j]),
        decreases b - a,
    {
        b = b - 1;
    }
    proof {
        lemma_trailing_ws(t, hi - b);
        assert(t.take(t.len() - trailing_ws(t)) =~= v@.subrange(a as int, b as int));
    }
    (a, b)
}

/// Whether `v[lo..hi]` starts with `p`.
pub fn starts_with_at(v: &Vec<char>, lo: usize, hi: usize, p: &Vec<char>) -> (r: bool)
    requires
        lo <= hi <= v@.len(),
    ensures
        r == (strip_prefix(v@.subrange(lo as int, hi as int), p@) is Some),
{
    let ghost s = v@.subrange(lo as int, hi as int);
    let n = p.len();
    if n > hi - lo {
        return false;
    }
    let mut i: usize = 0;
    while i < n
        invariant
            n == p@.len(),
            n <= hi - lo,
            lo <= hi <= v@.len(),
            s == v@.subrange(lo as int, hi as int),
            i <= n,
            forall|j: int| 0 <= j < i ==> v@[lo + j] == p@[j],
        decreases n - i,
    {
        if v[lo + i] != p[i] {
            proof {
                assert(s.take(n as int)[i as int] == v@[lo + i]);
            }
            return false;
        }
        i = i + 1;
    }
    assert(s.take(n as int) =~= p@);
    true
}

/// The ranges of the lines of `v` (see [`lines_of`]).
pub fn line_ranges(v: &Vec<char>) -> (r: Vec<(usize, usize)>)
    ensures
        r@.len() == lines_of(v@).len(),
        forall|i: int| 0 <= i < r@.len() ==> (#[trigger] r@[i]).0 <= r@[i].1 <= v@.len(),
        forall|i: int| 0 <= i < r@.len() ==> v@.subrange(r@[i].0 as int, r@[i].1 as int) == #[trigger] lines_of(v@)[i],
{
    let n = v.len();
    let mut r: Vec<(usize, usize)> = Vec::new();
    let mut start: usize = 0;
    let mut i: usize = 0;
    let ghost mut done: Seq<Seq<char>> = Seq::empty();
    assert(v@.skip(0) =~= v@);
    assert(v@.subrange(0, 0) =~= Seq::<char>::empty());
    assert(done + lines_of(v@) =~= lines_of(v@));
    while i < n
        invariant
            n == v@.len(),
            start <= i <= n,
            r@.len() == done.len(),
            forall|k: int| 0 <= k < r@.len() ==> (#[trigger] r@[k]).0 <= r@[k].1 <= n,
            forall|k: int| 0 <= k < r@.len() ==> v@.subrange(r@[k].0 as int, r@[k].1 as int) == #[trigger] done[k],
            done + lines_from(v@.skip(i as int), v@.subrange(start as int, i as int)) == lines_of(v@),
        decreases n - i,
    {
        let ghost rest = v@.skip(i as int);
        let ghost cur = v@.subrange(start as int, i as int);
        assert(rest.drop_first() =~= v@.skip(i + 1));
        if v[i] == '\n' {
            let end = if i > start && v[i - 1] == '\r' { i - 1 } else { i };
            let ghost r_old = r@;
            let ghost d_old = done;
            r.push((start, end));
            proof {
                assert(v@.subrange(start as int, end as int) =~= strip_cr(cur));
                assert(v@.subrange((i + 1) as int, (i + 1) as int) =~= Seq::<char>::empty());
                assert(done.push(strip_cr(cur)) + lines_from(v@.skip(i + 1), Seq::empty())
                    =~= done + (seq![strip_cr(cur)] + lines_from(v@.skip(i + 1), Seq::empty())));
                done = done.push(strip_cr(cur));
                assert forall|k: int| 0 <= k < r@.len() implies
                    v@.subrange(r@[k].0 as int, r@[k].1 as int) == #[trigger] done[k] by {
                    if k < r_old.len() {
                        assert(r@[k] == r_old[k]);
                        assert(done[k] == d_old[k]);
                    }
                }
            }
            start = i + 1;
        } else {
            proof {
                assert(cur.push(v@[i as int]) =~= v@.subrange(start as int, i + 1));
            }
        }
        i = i + 1;
    }
    proof {
        assert(v@.skip(n as int) =~= Seq::<char>::empty());
    }
    if start < n {
        let ghost r_old = r@;
        let ghost d_old = done;
        r.push((start, n));
        proof {
            assert(done.push(v@.subrange(start as int, n as int)) =~= done + seq![v@.subrange(start as int, n as int)]);
            done = done.push(v@.subrange(start as int, n as int));
            assert forall|k: int| 0 <= k < r@.len() implies
                v@.subrange(r@[k].0 as int, r@[k].1 as int) == #[trigger] done[k] by {
                if k < r_old.len() {
                    assert(r@[k] == r_old[k]);
                    assert(done[k] == d_old[k]);
                }
            }
        }
    } else {
        assert(done + Seq::<Seq<char>>::empty() =~= done);
    }
    assert(done == lines_of(v@));
    r
}

/// The ranges of the words of `v[lo..hi]` (see [`words_of`]).
pub fn word_ranges(v: &Vec<char>, lo: usize, hi: usize) -> (r: Vec<(usize, usize)>)
    requires
        lo <= hi <= v@.len(),
    ensures
        r@.len() == words_of(v@.subrange(lo as int, hi as int)).len(),
        forall|i: int| 0 <= i < r@.len() ==> lo <= (#[trigger] r@[i]).0 <= r@[i].1 <= hi,
        forall|i: int| 0 <= i < r@.len() ==> v@.subrange(r@[i].0 as int, r@[i].1 as int)
            == #[trigger] words_of(v@.subrange(lo as int, hi as int))[i],
{
    let ghost s = v@.subrange(lo as int, hi as int);
    let mut r: Vec<(usize, usize)> = Vec::new();
    let mut start: usize = lo;
    let mut i: usize = lo;
    let ghost mut done: Seq<Seq<char>> = Seq::empty();
    assert(s.skip(0) =~= s);
    assert(v@.subrange(lo as int, lo as int) =~= Seq::<char>::empty());
    assert(done + words_of(s) =~= words_of(s));
    while i < hi
        invariant
            lo <= start <= i <= hi,
            hi <= v@.len(),
            s == v@.subrange(lo as int, hi as int),
            r@.len() == done.len(),
            forall|k: int| 0 <= k < r@.len() ==> lo <= (#[trigger] r@[k]).0 <= r@[k].1 <= hi,
            forall|k: int| 0 <= k < r@.len() ==> v@.subrange(r@[k].0 as int, r@[k].1 as int) == #[trigger] done[k],
            done + words_from(s.skip(i - lo), v@.subrange(start as int, i as int)) == words_of(s),
        decreases hi - i,
    {
        let ghost rest = s.skip(i - lo);
        let ghost cur = v@.subrange(start as int, i as int);
        assert(rest.drop_first() =~= s.skip(i + 1 - lo));
        assert(rest[0] == v@[i as int]);
        if is_whitespace(v[i]) {
            proof {
                assert(v@.subrange((i + 1) as int, (i + 1) as int) =~= Seq::<char>::empty());
            }
            if i > start {
                let ghost r_old = r@;
                let ghost d_old = done;
                r.push((start, i));
                proof {
                    assert(done.push(cur) + words_from(s.skip(i + 1 - lo), Seq::empty())
                        =~= done + (seq![cur] + words_from(s.skip(i + 1 - lo), Seq::empty())));
                    done = done.push(cur);
                    assert forall|k: int| 0 <= k < r@.len() implies
                        v@.subrange(r@[k].0 as int, r@[k].1 as int) == #[trigger] done[k] by {
                        if k < r_old.len() {
                            assert(r@[k] == r_old[k]);
                            assert(done[k] == d_old[k]);
                        }
                    }
                }
            } else {
                proof {
                    assert(cur =~= Seq::<char>::empty());
                    assert(Seq::<Seq<char>>::empty() + words_from(s.skip(i + 1 - lo), Seq::empty())
                        =~= words_from(s.skip(i + 1 - lo), Seq::empty()));
                }
            }
            start = i + 1;
        } else {
            proof {
                assert(cur.push(v@[i as int]) =~= v@.subrange(start as int, i + 1));
            }
        }
        i = i + 1;
    }
    proof {
        assert(s.skip(hi - lo) =~= Seq::<char>::empty());
    }
    if start < hi {
        let ghost r_old = r@;
        let ghost d_old = done;
        r.push((start, hi));
        proof {
            assert(done.push(v@.subrange(start as int, hi as int)) =~= done + seq![v@.subrange(start as int, hi as int)]);
            done = done.push(v@.subrange(start as int, hi as int));
            assert forall|k: int| 0 <= k < r@.len() implies
                v@.subrange(r@[k].0 as int, r@[k].1 as int) == #[trigger] done[k] by {
                if k < r_old.len() {
                    assert(r@[k] == r_old[k]);
                    assert(done[k] == d_old[k]);
                }
            }
        }
    } else {
        assert(done + Seq::<Seq<char>>::empty() =~= done);
    }
    assert(done == words_of(s));
    r
}

/// The value of a digit character in base `radix`, if it is one.
pub fn digit_of(c: char, radix: u32) -> (r: Option<u32>)
    requires
        2 <= radix <= 36,
    ensures
        r matches Some(d) ==> digit_value(c, radix as nat) == Some(d as nat),
        r is None ==> digit_value(c, radix as nat) is None,
{
    let d: u32 = if '0' <= c && c <= '9' {
        (c as u32) - ('0' as u32)
    } else if 'a' <= c && c <= 'z' {
        (c as u32) - ('a' as u32) + 10
    } else if 'A' <= c && c <= 'Z' {
        (c as u32) - ('A' as u32) + 10
    } else {
        radix
    };
    if d < radix { Some(d) } else { None }
}

proof fn lemma_digits_value_push(s: Seq<char>, c: char, radix: nat)
    requires
        digit_value(c, radix) is Some,
    ensures
        digits_value(s.push(c), radix) == digits_value(s, radix) * radix + digit_value(c, radix).unwrap(),
{
    assert(s.push(c).drop_last() =~= s);
}

proof fn lemma_digits_value_grows(s: Seq<char>, c: char, radix: nat)
    requires
        digit_value(c, radix) is Some,
        radix >= 1,
    ensures
        digits_value(s.push(c), radix) >= digits_value(s, radix),
{
    lemma_digits_value_push(s, c, radix);
    assert(digits_value(s, radix) * radix >= digits_value(s, radix)) by (nonlinear_arith)
        requires
            radix >= 1,
    ;
}

proof fn lemma_all_digits_prefix(s: Seq<char>, k: int, radix: nat)
    requires
        0 <= k <= s.len(),
        all_digits(s, radix),
    ensures
        all_digits(s.take(k), radix),
        digits_value(s.take(k), radix) <= digits_value(s, radix),
    decreases s.len() - k,
{
    if k < s.len() {
        lemma_all_digits_prefix(s, k + 1, radix);
        assert(s.take(k + 1) =~= s.take(k).push(s[k]));
        assert(digit_value(s[k], radix) is Some);
        if radix >= 1 {
            lemma_digits_value_grows(s.take(k), s[k], radix);
        }
    } else {
        assert(s.take(k) =~= s);
    }
}

/// Parses `v[lo..hi]` as an unsigned number in base `radix` whose value
/// must not exceed `max` (see [`parse_unsigned`]).
pub fn parse_radix(v: &Vec<char>, lo: usize, hi: usize, radix: u32, max: u64) -> (r: Option<u64>)
    requires
        lo <= hi <= v@.len(),
        2 <= radix <= 36,
    ensures
        r matches Some(x) ==> parse_unsigned(v@.subrange(lo as int, hi as int), radix as nat, max as nat) == Some(x as nat),
        r is None ==> parse_unsigned(v@.subrange(lo as int, hi as int), radix as nat, max as nat) is None,
{
    let ghost s = v@.subrange(lo as int, hi as int);
    let start = if hi > lo && v[lo] == '+' { lo + 1 } else { lo };
    let ghost d = if s.len() > 0 && s[0] == '+' { s.drop_first() } else { s };
    assert(d =~= v@.subrange(start as int, hi as int));
    if start == hi {
        return None;
    }
    let mut acc: u64 = 0;
    let mut i: usize = start;
    assert(v@.subrange(start as int, start as int) =~= Seq::<char>::empty());
    while i < hi
        invariant
            start <= i <= hi,
            hi <= v@.len(),
            2 <= radix <= 36,
            s == v@.subrange(lo as int, hi as int),
            d == (if s.len() > 0 && s[0] == '+' { s.drop_first() } else { s }),
            d == v@.subrange(start as int, hi as int),
            all_digits(v@.subrange(start as int, i as int), radix as nat),
            acc == digits_value(v@.subrange(start as int, i as int), radix as nat),
            acc <= max,
        decreases hi - i,
    {
        let ghost pre = v@.subrange(start as int, i as int);
        assert(pre.push(v@[i as int]) =~= v@.subrange(start as int, i + 1));
        match digit_of(v[i], radix) {
            None => {
                proof {
                    assert(d[i - start] == v@[i as int]);
                    assert(digit_value(d[i - start], radix as nat) is None);
                    assert(!all_digits(d, radix as nat));
                }
                return None;
            },
            Some(dg) => {
                proof {
                    lemma_digits_value_push(pre, v@[i as int], radix as nat);
                }
                proof {
                    assert((acc as int) * (radix as int) + (dg as int) < 0x1_0000_0000_0000_0000_0000_0000_0000_0000) by (nonlinear_arith)
                        requires
                            acc <= u64::MAX,
                            radix <= 36,
                            dg < 36,
                    ;
                }
                let big: u128 = acc as u128 * radix as u128 + dg as u128;
                if big > max as u128 {
                    proof {
                        if all_digits(d, radix as nat) {
                            lemma_all_digits_prefix(d, i + 1 - start, radix as nat);
                            assert(d.take(i + 1 - start) =~= v@.subrange(start as int, i + 1));
                        }
                    }
                    return None;
                }
                acc = big as u64;
            },
        }
        i = i + 1;
    }
    Some(acc)
}

} // verus!

verus! {

/// Number of leading `c` characters of `s`.
pub open spec fn leading_char(s: Seq<char>, c: char) -> nat
    decreases s.len(),
{
    if s.len() == 0 {
        0
    } else if s[0] == c {
        1 + leading_char(s.drop_first(), c)
    } else {
        0
    }
}

/// Number of trailing `c` characters of `s`.
pub open spec fn trailing_char(s: Seq<char>, c: char) -> nat
    decreases s.len(),
{
    if s.len() == 0 {
        0
    } else if s.last() == c {
        1 + trailing_char(s.drop_last(), c)
    } else {
        0
    }
}

/// `s` without leading and trailing `c` (`str::trim_matches(c)`).
pub open spec fn trim_matches(s: Seq<char>, c: char) -> Seq<char> {
    let t = s.skip(leading_char(s, c) as int);
    t.take(t.len() - trailing_char(t, c))
}

/// `s` without any number of leading copies of `p`
/// (`str::trim_start_matches(p)` for a non-empty `p`).
pub open spec fn trim_start_prefix(s: Seq<char>, p: Seq<char>) -> Seq<char>
    decreases s.len(),
{
    if p.len() > 0 && p.len() <= s.len() && s.take(p.len() as int) == p {
        trim_start_prefix(s.skip(p.len() as int), p)
    } else {
        s
    }
}

/// The first `Some` that `f` gives over `lines`, in order.
pub open spec fn find_map<T>(lines: Seq<Seq<char>>, f: spec_fn(Seq<char>) -> Option<T>) -> Option<T>
    decreases lines.len(),
{
    if lines.len() == 0 {
        None
    } else {
        match f(lines[0]) {
            Some(x) => Some(x),
            None => find_map(lines.drop_first(), f),
        }
    }
}

/// `find_map` over a suffix advances by one line.
pub proof fn lemma_find_map_step<T>(lines: Seq<Seq<char>>, i: int, f: spec_fn(Seq<char>) -> Option<T>)
    requires
        0 <= i < lines.len(),
    ensures
        find_map(lines.skip(i), f) == (match f(lines[i]) {
            Some(x) => Some(x),
            None => find_map(lines.skip(i + 1), f),
        }),
{
    assert(lines.skip(i).drop_first() =~= lines.skip(i + 1));
    assert(lines.skip(i)[0] == lines[i]);
}

/// `leading_char` is the length of the run of `c` that starts `s`.
pub proof fn lemma_leading_char(s: Seq<char>, c: char, k: int)
    requires
        0 <= k <= s.len(),
        forall|j: int| 0 <= j < k ==> s[j] == c,
        k == s.len() || s[k] != c,
    ensures
        leading_char(s, c) == k,
    decreases k,
{
    if k > 0 {
        lemma_leading_char(s.drop_first(), c, k - 1);
    }
}

/// Appends `s` without its leading run of `c`
/// (`str::trim_start_matches(c)`).
pub fn push_skipping_leading(r: &mut String, s: &str, c: char)
    ensures
        final(r)@ == old(r)@ + s@.skip(leading_char(s@, c) as int),
{
    let ghost r0 = r@;
    let n = s.unicode_len();
    let mut i: usize = 0;
    while i < n && s.get_char(i) == c
        invariant
            n == s@.len(),
            i <= n,
            forall|k: int| 0 <= k < i ==> s@[k] == c,
        decreases n - i,
    {
        i = i + 1;
    }
    proof {
        lemma_leading_char(s@, c, i as int);
    }
    let mut j: usize = i;
    while j < n
        invariant
            n == s@.len(),
            i <= j <= n,
            r@ == r0 + s@.subrange(i as int, j as int),
        decreases n - j,
    {
        push_char(r, s.get_char(j));
        j = j + 1;
        assert(r@ =~= r0 + s@.subrange(i as int, j as int));
    }
    assert(s@.subrange(i as int, n as int) =~= s@.skip(i as int));
}

proof fn lemma_trailing_char(s: Seq<char>, c: char, k: int)
    requires
        0 <= k <= s.len(),
        forall|j: int| s.len() - k <= j < s.len() ==> s[j] == c,
        k == s.len() || s[s.len() - k - 1] != c,
    ensures
        trailing_char(s, c) == k,
    decreases k,
{
    if k > 0 {
        lemma_trailing_char(s.drop_last(), c, k - 1);
    }
}

/// The bounds of `trim_matches(v[lo..hi], c)` inside `v`.
pub fn trim_char_range(v: &Vec<char>, lo: usize, hi: usize, c: char) -> (r: (usize, usize))
    requires
        lo <= hi <= v@.len(),
    ensures
        lo <= r.0 <= r.1 <= hi,
        v@.subrange(r.0 as int, r.1 as int) == trim_matches(v@.subrange(lo as int, hi as int), c),
{
    let ghost s = v@.subrange(lo as int, hi as int);
    let mut a = lo;
    while a < hi && v[a] == c
        invariant
            lo <= a <= hi,
            hi <= v@.len(),
            forall|j: int| lo <= j < a ==> v@[j] == c,
        decreases hi - a,
    {
        a = a + 1;
    }
    proof {
        lemma_leading_char(s, c, a - lo);
    }
    let ghost t = s.skip(a - lo);
    assert(t =~= v@.subrange(a as int, hi as int));
    let mut b = hi;
    while b > a && v[b - 1] == c
        invariant
            a <= b <= hi,
            hi <= v@.len(),
            forall|j: int| b <= j < hi ==> v@[j] == c,
        decreases b - a,
    {
        b = b - 1;
    }
    proof {
        lemma_trailing_char(t, c, hi - b);
        assert(t.take(t.len() - trailing_char(t, c)) =~= v@.subrange(a as int, b as int));
    }
    (a, b)
}

/// The start of `trim_start_prefix(v[lo..hi], p)` inside `v`.
pub fn trim_prefix_start(v: &Vec<char>, lo: usize, hi: usize, p: &Vec<char>) -> (r: usize)
    requires
        lo <= hi <= v@.len(),
        p@.len() > 0,
    ensures
        lo <= r <= hi,
        v@.subrange(r as int, hi as int) == trim_start_prefix(v@.subrange(lo as int, hi as int), p@),
{
    let mut a = lo;
    while starts_with_at(v, a, hi, p)
        invariant
            lo <= a <= hi,
            hi <= v@.len(),
            p@.len() > 0,
            trim_start_prefix(v@.subrange(a as int, hi as int), p@) == trim_start_prefix(v@.subrange(lo as int, hi as int), p@),
        decreases hi - a,
    {
        let ghost s = v@.subrange(a as int, hi as int);
        assert(s.skip(p@.len() as int) =~= v@.subrange(a + p@.len(), hi as int));
        a = a + p.len();
    }
    a
}

/// The decimal text of `n`.
pub fn decimal_string(n: u64) -> (r: String)
    ensures
        r@ == decimal(n as nat),
{
    let mut digits: Vec<char> = Vec::new();
    let mut m: u64 = n;
    proof {
        assert(decimal(n as nat) =~= decimal(m as nat) + digits@.reverse());
    }
    while m >= 10
        invariant
            decimal(n as nat) == decimal(m as nat) + digits@.reverse(),
        decreases m,
    {
        let d = m % 10;
        let c = (('0' as u8) + (d as u8)) as char;
        proof {
            assert(c == digit_char(d as nat));
            let r0 = digits@.reverse();
            assert(digits@.push(c).reverse() =~= seq![c] + r0);
            assert(decimal(m as nat) == decimal((m / 10) as nat).push(digit_char((m % 10) as nat)));
            assert(decimal((m / 10) as nat).push(c) + r0 =~= decimal((m / 10) as nat) + (seq![c] + r0));
        }
        digits.push(c);
        m = m / 10;
    }
    let c = (('0' as u8) + (m as u8)) as char;
    proof {
        assert(c == digit_char(m as nat));
        assert(digits@.push(c).reverse() =~= seq![c] + digits@.reverse());
        assert(decimal(m as nat) =~= seq![c]);
    }
    digits.push(c);
    let mut r = String::new();
    let mut i: usize = digits.len();
    proof {
        assert(r@ =~= digits@.subrange(i as int, digits@.len() as int).reverse());
    }
    while i > 0
        invariant
            i <= digits@.len(),
            r@ == digits@.subrange(i as int, digits@.len() as int).reverse(),
        decreases i,
    {
        i = i - 1;
        proof {
            assert(digits@.subrange(i as int, digits@.len() as int).reverse()
                =~= digits@.subrange(i + 1, digits@.len() as int).reverse().push(digits@[i as int]));
        }
        push_char(&mut r, digits[i]);
    }
    proof {
        assert(digits@.subrange(0, digits@.len() as int) =~= digits@);
    }
    r
}

} // verus!
