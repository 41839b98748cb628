//! Human-readable numbers: byte counts with binary units, delays, rates
//! and timestamps.

use vstd::prelude::*;
use crate::calendar::{civil_from_days, days_from_civil, valid_date};
use crate::parse::{decimal, decimal_string, digit_char};
use crate::text::{push_char};

verus! {

/// `1024^k`.
pub open spec fn pow1024(k: nat) -> nat
    decreases k,
{
    if k == 0 { 1 } else { 1024 * pow1024((k - 1) as nat) }
}

/// `2^k`.
pub open spec fn pow_two(k: nat) -> nat
    decreases k,
{
    if k == 0 { 1 } else { 2 * pow_two((k - 1) as nat) }
}

/// `n / d` rounded to the nearest integer, ties to the even neighbour.
pub open spec fn round_half_even(n: nat, d: nat) -> nat {
    let q = n / d;
    let r = n % d;
    if 2 * r > d || (2 * r == d && q % 2 == 1) { q + 1 } else { q }
}

/// How many of the 53 significant bits of a double `n` is short of:
/// the number of low bits dropped when `n` is converted to `f64`.
pub open spec fn excess_bits(n: nat) -> nat
    decreases n,
{
    if n < 0x20_0000_0000_0000 { 0 } else { 1 + excess_bits(n / 2) }
}

/// The integer value of `n as f64` (round to nearest, ties to even).
pub open spec fn double_of(n: nat) -> nat {
    let p = pow_two(excess_bits(n));
    round_half_even(n, p) * p
}

/// The unit that a value `f` is shown in: the number of divisions by 1024
/// made while the value is at least 1000, at most five (`PB`).
pub open spec fn unit_from(f: nat, k: nat) -> nat
    decreases 5 - k,
{
    if k < 5 && f >= 1000 * pow1024(k) { unit_from(f, k + 1) } else { k }
}

/// Name of unit `k`: B, KB, MB, GB, TB, PB.
pub open spec fn unit_name(k: nat) -> Seq<char> {
    if k == 0 { seq!['B'] }
    else if k == 1 { seq!['K', 'B'] }
    else if k == 2 { seq!['M', 'B'] }
    else if k == 3 { seq!['G', 'B'] }
    else if k == 4 { seq!['T', 'B'] }
    else { seq!['P', 'B'] }
}

/// A count of tenths as one decimal place, with a trailing `.0` dropped.
pub open spec fn tenths_text(t: nat) -> Seq<char> {
    if t % 10 == 0 {
        decimal(t / 10)
    } else {
        decimal(t / 10) + seq!['.', digit_char(t % 10)]
    }
}

/// A byte count as text: plain bytes below 1000, otherwise the value in
/// the largest binary unit that keeps it under 1000 (up to PB), with one
/// decimal place unless that is zero.
pub open spec fn network_bytes_text(bytes: nat) -> Seq<char> {
    let f = double_of(bytes);
    let k = unit_from(f, 0);
    if k == 0 {
        decimal(bytes) + seq![' ', 'B']
    } else {
        tenths_text(round_half_even(f * 10, pow1024(k))) + seq![' '] + unit_name(k)
    }
}

/// The unit chosen from unit `k` on is at most PB, keeps the value under
/// 1000 unless it is PB, and was reached only past values of at least
/// 1000 in the unit below.
proof fn lemma_unit_from(f: nat, k: nat)
    requires
        k <= 5,
        k == 0 || f >= 1000 * pow1024((k - 1) as nat),
    ensures
        k <= unit_from(f, k) <= 5,
        unit_from(f, k) < 5 ==> f < 1000 * pow1024(unit_from(f, k)),
        unit_from(f, k) > 0 ==> f >= 1000 * pow1024((unit_from(f, k) - 1) as nat),
    decreases 5 - k,
{
    if k < 5 && f >= 1000 * pow1024(k) {
        lemma_unit_from(f, k + 1);
    }
}

/// A byte count is shown in the unit that keeps its value under 1000 (up
/// to PB), and a unit above bytes is used only when the value in the unit
/// below would have had four digits or more.
pub proof fn lemma_unit_keeps_three_digits(bytes: nat)
    ensures
        unit_from(double_of(bytes), 0) <= 5,
        unit_from(double_of(bytes), 0) < 5 ==> double_of(bytes) < 1000 * pow1024(unit_from(double_of(bytes), 0)),
        unit_from(double_of(bytes), 0) > 0 ==> double_of(bytes) >= 1000 * pow1024(
            (unit_from(double_of(bytes), 0) - 1) as nat,
        ),
{
    lemma_unit_from(double_of(bytes), 0);
}

proof fn lemma_pow1024_bound(k: nat)
    requires
        k <= 5,
    ensures
        1 <= pow1024(k) <= 0x4_0000_0000_0000,
{
    assert(pow1024(0) == 1);
    assert(pow1024(1) == 1024);
    assert(pow1024(2) == 0x10_0000);
    assert(pow1024(3) == 0x4000_0000);
    assert(pow1024(4) == 0x100_0000_0000);
    assert(pow1024(5) == 0x4_0000_0000_0000);
}

proof fn lemma_div_mod_parts(n: nat, d: nat)
    requires
        d > 0,
    ensures
        n == d * (n / d) + n % d,
        n % d < d,
{
    vstd::arithmetic::div_mod::lemma_fundamental_div_mod(n as int, d as int);
}

/// `round_half_even(n, d)` computed from the quotient and remainder.
fn round_div(n: u128, d: u128) -> (r: u128)
    requires
        d > 0,
        n / d < u128::MAX,
    ensures
        r == round_half_even(n as nat, d as nat),
{
    let q = n / d;
    let r = n % d;
    if (r > d - r) || (r == d - r && q % 2 == 1) {
        q + 1
    } else {
        q
    }
}

proof fn lemma_pow_two_mono(a: nat, b: nat)
    requires
        a <= b,
    ensures
        pow_two(a) <= pow_two(b),
    decreases b,
{
    if a < b {
        lemma_pow_two_mono(a, (b - 1) as nat);
    }
}

/// The integer value of `n as f64`.
fn to_double(n: u64) -> (f: u128)
    ensures
        f == double_of(n as nat),
        f <= 0x1_0000_0000_0000_0000,
{
    let mut m: u64 = n;
    let mut p: u128 = 1;
    let ghost mut s: nat = 0;
    proof {
        reveal_with_fuel(pow_two, 12);
        assert(pow_two(11) == 2048);
    }
    while m >= 0x20_0000_0000_0000
        invariant
            p == pow_two(s),
            m == n as nat / (p as nat),
            excess_bits(n as nat) == s + excess_bits(m as nat),
            s <= 11,
            1 <= p <= 2048,
            pow_two(11) == 2048,
            p * m <= n,
        decreases m,
    {
        proof {
            if s >= 11 {
                lemma_pow_two_mono(11, s);
                assert(p * m >= 2048 * 0x20_0000_0000_0000) by (nonlinear_arith)
                    requires
                        p >= 2048,
                        m >= 0x20_0000_0000_0000,
                ;
            }
            lemma_pow_two_mono(s + 1, 11);
            vstd::arithmetic::div_mod::lemma_div_denominator(n as int, p as int, 2);
            lemma_div_mod_parts(m as nat, 2);
            assert(p * 2 * (m / 2) <= p * m) by (nonlinear_arith)
                requires
                    2 * (m / 2) <= m,
                    p >= 1,
            ;
        }
        m = m / 2;
        p = p * 2;
        proof {
            s = s + 1;
        }
    }
    proof {
        lemma_div_mod_parts(n as nat, p as nat);
    }
    let q: u128 = m as u128;
    let r = round_div(n as u128, p);
    proof {
        assert(r <= q + 1);
        assert(r * p <= 0x1_0000_0000_0000_0000) by (nonlinear_arith)
            requires
                r <= q + 1,
                p <= 2048,
                q < 0x20_0000_0000_0000,
        ;
    }
    r * p
}

/// Appends the name of unit `k` (at most 5).
fn push_unit(r: &mut String, k: u64)
    requires
        k <= 5,
    ensures
        final(r)@ == old(r)@ + unit_name(k as nat),
{
    let ghost r0 = r@;
    if k == 0 {
        push_char(r, 'B');
        assert(r@ =~= r0 + unit_name(k as nat));
        return;
    }
    let c = if k == 1 { 'K' } else if k == 2 { 'M' } else if k == 3 { 'G' } else if k == 4 { 'T' } else { 'P' };
    push_char(r, c);
    push_char(r, 'B');
    assert(r@ =~= r0 + unit_name(k as nat));
}

/// A byte count with binary units: `999 B`, `1 KB`, `1.5 KB`, `10 MB`.
/// The value is shown in the largest unit (up to PB) reached by dividing
/// by 1024 while it is at least 1000, rounded to one decimal place (ties
/// to even) with a trailing `.0` dropped.
pub fn format_network_bytes(bytes: u64) -> (r: String)
    ensures
        r@ == network_bytes_text(bytes as nat),
{
    let f = to_double(bytes);
    let mut k: u64 = 0;
    let mut pw: u128 = 1;
    proof {
        lemma_pow1024_bound(5);
    }
    while k < 5 && f >= 1000 * pw
        invariant
            k <= 5,
            pw == pow1024(k as nat),
            pw <= 0x4_0000_0000_0000,
            f == double_of(bytes as nat),
            unit_from(f as nat, 0) == unit_from(f as nat, k as nat),
        decreases 5 - k,
    {
        proof {
            lemma_pow1024_bound((k + 1) as nat);
        }
        k = k + 1;
        pw = pw * 1024;
    }
    assert(unit_from(f as nat, k as nat) == k);
    if k == 0 {
        let mut r = decimal_string(bytes);
        let ghost r0 = r@;
        push_char(&mut r, ' ');
        push_char(&mut r, 'B');
        assert(r@ =~= r0 + seq![' ', 'B']);
        return r;
    }
    proof {
        lemma_pow1024_bound(k as nat);
        assert(pw >= 1024) by {
            assert(pow1024(k as nat) == 1024 * pow1024((k - 1) as nat));
            lemma_pow1024_bound((k - 1) as nat);
        }
        lemma_div_mod_parts((f * 10) as nat, pw as nat);
        assert(((f * 10) as nat) / (pw as nat) <= 0x280_0000_0000_0000) by (nonlinear_arith)
            requires
                pw * (((f * 10) as nat) / (pw as nat)) <= f * 10,
                pw >= 1024,
                f <= 0x1_0000_0000_0000_0000,
        ;
    }
    let t = round_div(f * 10, pw);
    let whole: u64 = (t / 10) as u64;
    let frac: u64 = (t % 10) as u64;
    let mut r = decimal_string(whole);
    let ghost r0 = r@;
    if frac != 0 {
        let c = (('0' as u8) + (frac as u8)) as char;
        assert(c == digit_char(frac as nat));
        push_char(&mut r, '.');
        push_char(&mut r, c);
        assert(r@ =~= tenths_text(t as nat));
    } else {
        assert(r@ =~= tenths_text(t as nat));
    }
    let ghost r1 = r@;
    push_char(&mut r, ' ');
    push_unit(&mut r, k);
    assert(r@ =~= r1 + seq![' '] + unit_name(k as nat));
    r
}

/// A delay in milliseconds: `42 ms`.
pub fn format_delay(delay: u16) -> (r: String)
    ensures
        r@ == decimal(delay as nat) + seq![' ', 'm', 's'],
{
    let mut r = decimal_string(delay as u64);
    let ghost r0 = r@;
    push_char(&mut r, ' ');
    push_char(&mut r, 'm');
    push_char(&mut r, 's');
    assert(r@ =~= r0 + seq![' ', 'm', 's']);
    r
}

/// A transfer rate: the byte count per second, `1.5 KB/s`.
pub fn format_rate(bytes_per_second: u64) -> (r: String)
    ensures
        r@ == network_bytes_text(bytes_per_second as nat) + seq!['/', 's'],
{
    let mut r = format_network_bytes(bytes_per_second);
    let ghost r0 = r@;
    push_char(&mut r, '/');
    push_char(&mut r, 's');
    assert(r@ =~= r0 + seq!['/', 's']);
    r
}

/// `n` zeros.
pub open spec fn zeros(n: nat) -> Seq<char> {
    Seq::new(n, |i: int| '0')
}

/// The decimal text of `n`, padded with leading zeros to at least `w`
/// characters.
pub open spec fn pad_decimal(n: nat, w: nat) -> Seq<char> {
    let d = decimal(n);
    if d.len() >= w { d } else { zeros((w - d.len()) as nat) + d }
}

/// A year padded to four characters, the sign counted: `0042`, `-005`.
pub open spec fn year_text(y: int) -> Seq<char> {
    if y >= 0 {
        pad_decimal(y as nat, 4)
    } else {
        seq!['-'] + pad_decimal((-y) as nat, 3)
    }
}

/// `YYYY-MM-DD HH:MM:SS` for the date `(y, mo, d)` and the second `sod`
/// of that day.
pub open spec fn timestamp_text(y: int, mo: int, d: int, sod: int) -> Seq<char> {
    year_text(y) + seq!['-'] + pad_decimal(mo as nat, 2) + seq!['-'] + pad_decimal(d as nat, 2)
        + seq![' '] + pad_decimal((sod / 3600) as nat, 2) + seq![':']
        + pad_decimal(((sod % 3600) / 60) as nat, 2) + seq![':'] + pad_decimal((sod % 60) as nat, 2)
}

/// Appends `n` in decimal, padded with leading zeros to `w` characters.
fn push_padded(r: &mut String, n: u64, w: usize)
    ensures
        final(r)@ == old(r)@ + pad_decimal(n as nat, w as nat),
{
    let ghost r0 = r@;
    let ds = decimal_string(n);
    let len = ds.as_str().unicode_len();
    let mut i: usize = len;
    while i < w
        invariant
            len == decimal(n as nat).len(),
            len <= i,
            i <= w || i == len,
            r@ == r0 + zeros((i - len) as nat),
        decreases w - i,
    {
        push_char(r, '0');
        i = i + 1;
        assert(r@ =~= r0 + zeros((i - len) as nat));
    }
    r.append(ds.as_str());
    if len >= w {
        assert(zeros((i - len) as nat) =~= Seq::<char>::empty());
    }
    assert(r@ =~= r0 + pad_decimal(n as nat, w as nat));
}

/// `secs` split into whole days and the second of the day (floor
/// division).
fn split_days(secs: i64) -> (r: (i64, u64))
    ensures
        r.0 as int == secs as int / 86400,
        r.1 as int == secs as int % 86400,
{
    if secs >= 0 {
        (secs / 86400, (secs % 86400) as u64)
    } else {
        let a: i64 = -(secs + 1);
        let q: i64 = -(a / 86400) - 1;
        let rem: u64 = (86399 - a % 86400) as u64;
        proof {
            lemma_div_mod_parts(a as nat, 86400);
            vstd::arithmetic::div_mod::lemma_fundamental_div_mod_converse(
                secs as int,
                86400,
                q as int,
                rem as int,
            );
        }
        (q, rem)
    }
}

/// The UTC time `YYYY-MM-DD HH:MM:SS` of a Unix timestamp: the date whose
/// day number is `secs / 86400` (there is exactly one, see
/// `lemma_date_unique`), then the time of day.
pub open spec fn unix_time_text(secs: int) -> Seq<char> {
    let (y, mo, d) = choose|y: int, mo: int, d: int|
        valid_date(y, mo, d) && days_from_civil(y, mo, d) == secs / 86400;
    timestamp_text(y, mo, d, secs % 86400)
}

/// A Unix timestamp as the UTC time `YYYY-MM-DD HH:MM:SS` (proleptic
/// Gregorian calendar).
pub fn format_unix_time(secs: i64) -> (r: String)
    ensures
        exists|y: int, mo: int, d: int|
            valid_date(y, mo, d) && days_from_civil(y, mo, d) == secs as int / 86400
                && r@ == timestamp_text(y, mo, d, secs as int % 86400),
        r@ == unix_time_text(secs as int),
{
    let (days, sod) = split_days(secs);
    let (year, month, day) = civil_from_days(days);
    let mut r = String::new();
    if year >= 0 {
        push_padded(&mut r, year as u64, 4);
    } else {
        push_char(&mut r, '-');
        let mag: u64 = ((-(year + 1)) as u64) + 1;
        push_padded(&mut r, mag, 3);
    }
    assert(r@ =~= year_text(year as int));
    push_char(&mut r, '-');
    push_padded(&mut r, month as u64, 2);
    push_char(&mut r, '-');
    push_padded(&mut r, day as u64, 2);
    push_char(&mut r, ' ');
    push_padded(&mut r, sod / 3600, 2);
    push_char(&mut r, ':');
    push_padded(&mut r, (sod % 3600) / 60, 2);
    push_char(&mut r, ':');
    push_padded(&mut r, sod % 60, 2);
    assert(r@ =~= timestamp_text(year as int, month as int, day as int, secs as int % 86400));
    proof {
        let (y, mo, d) = choose|y: int, mo: int, d: int|
            valid_date(y, mo, d) && days_from_civil(y, mo, d) == secs as int / 86400;
        assert(valid_date(year as int, month as int, day as int));
        crate::calendar::lemma_date_unique(y, mo, d, year as int, month as int, day as int);
    }
    r
}

/// The smallest element of `s` (0 for an empty sequence).
pub open spec fn seq_min(s: Seq<u64>) -> u64
    decreases s.len(),
{
    if s.len() == 0 {
        0
    } else if s.len() == 1 {
        s[0]
    } else {
        let m = seq_min(s.drop_last());
        if s.last() < m { s.last() } else { m }
    }
}

/// The largest element of `s` (0 for an empty sequence).
pub open spec fn seq_max(s: Seq<u64>) -> u64
    decreases s.len(),
{
    if s.len() == 0 {
        0
    } else if s.len() == 1 {
        s[0]
    } else {
        let m = seq_max(s.drop_last());
        if s.last() > m { s.last() } else { m }
    }
}

/// The last (at most) 18 values, the ones a sparkline shows.
pub open spec fn spark_window(s: Seq<u64>) -> Seq<u64> {
    if s.len() > 18 { s.subrange(s.len() - 18, s.len() as int) } else { s }
}

/// The bar of height `i` (0..=7): `▁▂▃▄▅▆▇█`.
pub open spec fn spark_bar(i: int) -> char {
    if i <= 0 { '▁' }
    else if i == 1 { '▂' }
    else if i == 2 { '▃' }
    else if i == 3 { '▄' }
    else if i == 4 { '▅' }
    else if i == 5 { '▆' }
    else if i == 6 { '▇' }
    else { '█' }
}

/// The sparkline of the last 18 values: each value scaled between the
/// smallest and the largest of them to a bar of height 0..=7.
pub open spec fn sparkline_text(values: Seq<u64>) -> Seq<char> {
    let vis = spark_window(values);
    let lo = seq_min(vis);
    let hi = seq_max(vis);
    let span: int = if hi - lo >= 1 { hi - lo } else { 1 };
    Seq::new(vis.len(), |i: int| spark_bar((vis[i] - lo) * 7 / span))
}

proof fn lemma_min_max_bounds(s: Seq<u64>)
    ensures
        forall|i: int| 0 <= i < s.len() ==> seq_min(s) <= #[trigger] s[i] <= seq_max(s),
    decreases s.len(),
{
    if s.len() > 1 {
        lemma_min_max_bounds(s.drop_last());
        assert forall|i: int| 0 <= i < s.len() implies seq_min(s) <= #[trigger] s[i] <= seq_max(s) by {
            if i < s.len() - 1 {
                assert(s[i] == s.drop_last()[i]);
            }
        }
    }
}

fn bar_char(i: u64) -> (c: char)
    ensures
        c == spark_bar(i as int),
{
    if i == 0 { '▁' }
    else if i == 1 { '▂' }
    else if i == 2 { '▃' }
    else if i == 3 { '▄' }
    else if i == 4 { '▅' }
    else if i == 5 { '▆' }
    else if i == 6 { '▇' }
    else { '█' }
}

/// A sparkline of the last 18 values (`▁▂▃▄▅▆▇█`), scaled between their
/// smallest and largest value; empty for no values.
pub fn sparkline_u64(values: &[u64]) -> (r: String)
    requires
        (seq_max(spark_window(values@)) - seq_min(spark_window(values@))) * 7 <= u64::MAX,
    ensures
        r@ == sparkline_text(values@),
{
    let n = values.len();
    if n == 0 {
        let r = String::new();
        assert(r@ =~= sparkline_text(values@));
        return r;
    }
    let start: usize = if n > 18 { n - 18 } else { 0 };
    let ghost vis = spark_window(values@);
    assert(vis =~= values@.subrange(start as int, n as int));
    let mut lo: u64 = values[start];
    let mut hi: u64 = values[start];
    let mut i: usize = start + 1;
    assert(values@.subrange(start as int, i as int) =~= seq![values@[start as int]]);
    while i < n
        invariant
            start < i <= n,
            n == values@.len(),
            lo == seq_min(values@.subrange(start as int, i as int)),
            hi == seq_max(values@.subrange(start as int, i as int)),
        decreases n - i,
    {
        let v = values[i];
        assert(values@.subrange(start as int, i + 1).drop_last() =~= values@.subrange(start as int, i as int));
        if v < lo {
            lo = v;
        }
        if v > hi {
            hi = v;
        }
        i = i + 1;
    }
    proof {
        lemma_min_max_bounds(vis);
    }
    let span: u64 = if hi - lo >= 1 { hi - lo } else { 1 };
    let mut r = String::new();
    let mut j: usize = start;
    while j < n
        invariant
            start <= j <= n,
            n == values@.len(),
            vis == values@.subrange(start as int, n as int),
            vis == spark_window(values@),
            lo == seq_min(vis),
            hi == seq_max(vis),
            span == (if hi - lo >= 1 { hi - lo } else { 1 }),
            (hi - lo) * 7 <= u64::MAX,
            forall|k: int| 0 <= k < vis.len() ==> lo <= #[trigger] vis[k] <= hi,
            r@ == sparkline_text(values@).take(j - start),
        decreases n - j,
    {
        let v = values[j];
        assert(v == vis[j - start]);
        let d = v - lo;
        assert(d * 7 <= (hi - lo) * 7) by (nonlinear_arith)
            requires
                d <= hi - lo,
        ;
        let idx = d * 7 / span;
        let c = bar_char(idx);
        proof {
            let sp = sparkline_text(values@);
            assert(sp.len() == vis.len());
            assert(sp[j - start] == spark_bar((vis[j - start] - lo) * 7 / (span as int)));
            assert(c == sp[j - start]);
        }
        push_char(&mut r, c);
        j = j + 1;
        assert(r@ =~= sparkline_text(values@).take(j - start));
    }
    assert(sparkline_text(values@).take(n - start) =~= sparkline_text(values@));
    r
}

/// `sparkline_u64` of 16-bit values.
pub fn sparkline_u16(values: &[u16]) -> (r: String)
    ensures
        r@ == sparkline_text(values@.map_values(|v: u16| v as u64)),
{
    let mut wide: Vec<u64> = Vec::new();
    let mut i: usize = 0;
    while i < values.len()
        invariant
            i <= values@.len(),
            wide@ == values@.take(i as int).map_values(|v: u16| v as u64),
            forall|k: int| 0 <= k < wide@.len() ==> #[trigger] wide@[k] <= 0xffff,
        decreases values@.len() - i,
    {
        wide.push(values[i] as u64);
        i = i + 1;
        assert(wide@ =~= values@.take(i as int).map_values(|v: u16| v as u64));
    }
    assert(values@.take(i as int) =~= values@);
    proof {
        let vis = spark_window(wide@);
        lemma_min_max_bounds(vis);
        if vis.len() > 0 {
            assert(vis[0] <= 0xffff);
            assert(seq_max(vis) <= 0xffff) by {
                lemma_max_is_element(vis);
            }
        } else {
            assert(seq_max(vis) == 0);
        }
    }
    sparkline_u64(wide.as_slice())
}

proof fn lemma_max_is_element(s: Seq<u64>)
    requires
        s.len() > 0,
    ensures
        exists|i: int| 0 <= i < s.len() && s[i] == seq_max(s),
    decreases s.len(),
{
    if s.len() > 1 {
        lemma_max_is_element(s.drop_last());
        let i = choose|i: int| 0 <= i < s.drop_last().len() && s.drop_last()[i] == seq_max(s.drop_last());
        assert(s[i] == s.drop_last()[i]);
        if s.last() > seq_max(s.drop_last()) {
            assert(s[s.len() - 1] == seq_max(s));
        }
    } else {
        assert(s[0] == seq_max(s));
    }
}

/// `n` copies of `c`.
pub open spec fn repeat_char(c: char, n: nat) -> Seq<char> {
    Seq::new(n, |i: int| c)
}

/// Appends `n` copies of `c`.
pub fn push_repeat(r: &mut String, c: char, n: usize)
    ensures
        final(r)@ == old(r)@ + repeat_char(c, n as nat),
{
    let ghost r0 = r@;
    let mut i: usize = 0;
    while i < n
        invariant
            i <= n,
            r@ == r0 + repeat_char(c, i as nat),
        decreases n - i,
    {
        push_char(r, c);
        i = i + 1;
        assert(r@ =~= r0 + repeat_char(c, i as nat));
    }
}

/// A bar of `width` cells, `done / total` of them filled (rounded up);
/// all cells empty when there is nothing to measure.
pub open spec fn progress_text(done: nat, total: nat, width: nat) -> Seq<char> {
    if total == 0 || width == 0 {
        repeat_char('░', width)
    } else {
        let filled: nat = ((done * width + total - 1) as nat) / total;
        repeat_char('█', filled) + repeat_char('░', if width > filled { (width - filled) as nat } else { 0 })
    }
}

/// A progress bar of `width` cells for `done` of `total` items.
pub fn progress_bar(done: usize, total: usize, width: usize) -> (r: String)
    requires
        total == 0 || width == 0 || done * width + total <= usize::MAX,
    ensures
        r@ == progress_text(done as nat, total as nat, width as nat),
{
    let mut r = String::new();
    if total == 0 || width == 0 {
        push_repeat(&mut r, '░', width);
        return r;
    }
    let filled: usize = (done * width + total - 1) / total;
    push_repeat(&mut r, '█', filled);
    let rest: usize = if width > filled { width - filled } else { 0 };
    push_repeat(&mut r, '░', rest);
    r
}

/// How many of `width` cells a delay earns: all below 180 ms, two
/// thirds below 500 ms, a third below 1000 ms, a sixth otherwise.
pub open spec fn latency_score(delay: nat, width: nat) -> nat {
    if delay < 180 {
        width
    } else if delay < 500 {
        (if 2 * width > usize::MAX { usize::MAX as nat } else { 2 * width }) / 3
    } else if delay < 1000 {
        width / 3
    } else {
        width / 6
    }
}

/// A bar of `width` cells scoring a delay.
pub fn latency_bar(delay: u16, width: usize) -> (r: String)
    ensures
        r@ == repeat_char('█', latency_score(delay as nat, width as nat))
            + repeat_char('░', (width - latency_score(delay as nat, width as nat)) as nat),
        latency_score(delay as nat, width as nat) <= width,
{
    let score: usize = if delay < 180 {
        width
    } else if delay < 500 {
        let doubled: usize = if width > usize::MAX / 2 { usize::MAX } else { width * 2 };
        doubled / 3
    } else if delay < 1000 {
        width / 3
    } else {
        width / 6
    };
    let mut r = String::new();
    push_repeat(&mut r, '█', score);
    push_repeat(&mut r, '░', width - score);
    r
}

/// `-` for an empty value, the value itself otherwise.
pub open spec fn dash_if_empty(value: Seq<char>) -> Seq<char> {
    if value.len() == 0 { seq!['-'] } else { value }
}

/// `value`, or `-` when it is empty.
pub fn empty_as_dash(value: &str) -> (r: &str)
    ensures
        r@ == dash_if_empty(value@),
{
    if value.unicode_len() == 0 {
        proof {
            reveal_strlit("-");
        }
        "-"
    } else {
        value
    }
}

/// The first and the last hop of a proxy chain: `-` for none, the hop
/// itself for one, `first → last` otherwise.
pub open spec fn chain_text(chains: Seq<Seq<char>>) -> Seq<char> {
    if chains.len() == 0 {
        seq!['-']
    } else if chains.len() == 1 {
        chains[0]
    } else {
        chains[0] + seq![' ', '→', ' '] + chains.last()
    }
}

/// `first → last` of a proxy chain (see `chain_text`).
pub fn compact_chain(chains: &[String]) -> (r: String)
    ensures
        r@ == chain_text(chains@.map_values(|c: String| c@)),
{
    let n = chains.len();
    let ghost cs = chains@.map_values(|c: String| c@);
    let mut r = String::new();
    if n == 0 {
        push_char(&mut r, '-');
        assert(r@ =~= chain_text(cs));
        return r;
    }
    r.append(chains[0].as_str());
    if n > 1 {
        push_char(&mut r, ' ');
        push_char(&mut r, '→');
        push_char(&mut r, ' ');
        r.append(chains[n - 1].as_str());
    }
    assert(r@ =~= chain_text(cs));
    r
}

} // verus!
