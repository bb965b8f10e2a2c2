use vstd::prelude::*;
use vstd::string::StringExecFns;
use crate::pipeline::{FrameState, FrameStateView};
use crate::text::{
    dec, digit_value, first_index, find_char, char_len, char_at, is_digit, parse_u32, parse_u32_spec,
    substring, trim, trim_str, IntErrorKind,
};

verus! {

#[derive(Debug, Clone, Copy, PartialEq, Eq, Structural)]
pub struct FrameSize {
    pub width: u32,
    pub height: u32,
}

/// Ten to the power `n`.
pub open spec fn pow10(n: nat) -> nat
    decreases n,
{
    if n == 0 { 1 } else { 10 * pow10((n - 1) as nat) }
}

/// The value of a string of decimal digits.
pub open spec fn digits_val(d: Seq<char>) -> nat
    decreases d.len(),
{
    if d.len() == 0 { 0 } else { digits_val(d.drop_last()) * 10 + digit_value(d.last()) }
}

pub open spec fn all_digits(d: Seq<char>) -> bool {
    forall|i: int| 0 <= i < d.len() ==> is_digit(#[trigger] d[i])
}

/// An exponent's digits are read up to this value (2^80): a larger exponent
/// makes the number zero or too large here, as this one does.
pub const EXPONENT_CAP: u128 = 0x1_0000_0000_0000_0000_0000;

/// The position of the first `e` or `E`, or -1.
pub open spec fn exponent_index(b: Seq<char>) -> int {
    let i = first_index(b, 'e');
    let j = first_index(b, 'E');
    if i < 0 { j } else if j < 0 { i } else if i < j { i } else { j }
}

/// The exponent written `[+|-]digits`, its digits read up to `EXPONENT_CAP`.
pub open spec fn exponent_spec(x: Seq<char>) -> Option<int> {
    let neg = x.len() > 0 && x[0] == '-';
    let d = if x.len() > 0 && (x[0] == '+' || x[0] == '-') { x.drop_first() } else { x };
    if d.len() == 0 || !all_digits(d) {
        None
    } else {
        let v: int = if digits_val(d) < EXPONENT_CAP { digits_val(d) as int } else { EXPONENT_CAP as int };
        Some(if neg { -v } else { v })
    }
}

/// A non-negative decimal number, written `[+]digits[.digits][e[+|-]digits]`
/// (also `digits.` or `.digits`, and `E` for `e`), as the value `m` of all its
/// digits and the power `f` of ten that `m` is divided by.
pub open spec fn decimal_parts(s: Seq<char>) -> Option<(nat, int)> {
    let b = if s.len() > 0 && s[0] == '+' { s.drop_first() } else { s };
    let e = exponent_index(b);
    let mant = if e < 0 { b } else { b.subrange(0, e) };
    let exp = if e < 0 { Some(0int) } else { exponent_spec(b.subrange(e + 1, b.len() as int)) };
    let k = first_index(mant, '.');
    let ip = if k < 0 { mant } else { mant.subrange(0, k) };
    let fp = if k < 0 { Seq::<char>::empty() } else { mant.subrange(k + 1, mant.len() as int) };
    if k >= 0 && first_index(fp, '.') >= 0 {
        None
    } else if !all_digits(ip) || !all_digits(fp) || ip.len() + fp.len() == 0 {
        None
    } else {
        match exp {
            Some(x) => Some((digits_val(ip + fp), fp.len() - x)),
            None => None,
        }
    }
}

/// `m / 10^f` times `10^k`, rounded down.
pub open spec fn scaled(m: nat, f: int, k: nat) -> nat {
    if k >= f { m * pow10((k - f) as nat) } else { m / pow10((f - k) as nat) }
}

/// The largest number of decimal places, from `k` down, at which the value is
/// below 2^32.
pub open spec fn fit_scale(m: nat, f: int, k: nat) -> Option<nat>
    decreases k,
{
    if scaled(m, f, k) < 0x1_0000_0000 {
        Some(k)
    } else if k == 0 {
        None
    } else {
        fit_scale(m, f, (k - 1) as nat)
    }
}

/// A non-negative decimal number (see `decimal_parts`) as a fraction
/// (numerator, 10^places): with its own decimal places, at most nine, fewer
/// where the numerator would reach 2^32; digits beyond those places are cut
/// off. None when the text is no such number or its whole part reaches 2^32.
pub open spec fn parse_decimal_spec(s: Seq<char>) -> Option<(nat, nat)> {
    match decimal_parts(s) {
        Some((m, f)) => {
            let k0: nat = if f < 0 { 0 } else if f > 9 { 9 } else { f as nat };
            match fit_scale(m, f, k0) {
                Some(k) => Some((scaled(m, f, k), pow10(k))),
                None => None,
            }
        },
        None => None,
    }
}

proof fn lemma_pow10_bound(n: nat)
    requires
        n <= 9,
    ensures
        1 <= pow10(n) <= 1_000_000_000,
    decreases n,
{
    reveal_with_fuel(pow10, 10);
}

proof fn lemma_digits_val_mono(d: Seq<char>, i: int)
    requires
        0 <= i <= d.len(),
    ensures
        digits_val(d.take(i)) <= digits_val(d),
    decreases d.len() - i,
{
    if i < d.len() {
        lemma_digits_val_mono(d, i + 1);
        assert(d.take(i + 1).drop_last() =~= d.take(i));
    } else {
        assert(d.take(i) =~= d);
    }
}

fn all_digits_exec(s: &str) -> (r: bool)
    ensures
        r == all_digits(s@),
{
    let n = char_len(s);
    let mut i: usize = 0;
    while i < n
        invariant
            n == s@.len(),
            i <= n,
            forall|j: int| 0 <= j < i ==> is_digit(#[trigger] s@[j]),
        decreases n - i,
    {
        let c = char_at(s, i);
        if !('0' <= c && c <= '9') {
            return false;
        }
        i = i + 1;
    }
    true
}

proof fn lemma_pow10_pos(n: nat)
    ensures
        pow10(n) >= 1,
    decreases n,
{
    if n > 0 {
        lemma_pow10_pos((n - 1) as nat);
    }
}

proof fn lemma_pow10_add(a: nat, b: nat)
    ensures
        pow10(a + b) == pow10(a) * pow10(b),
    decreases b,
{
    if b == 0 {
        assert(pow10(0) == 1);
        assert(a + b == a);
        assert(pow10(a) * 1 == pow10(a));
    } else {
        lemma_pow10_add(a, (b - 1) as nat);
        assert(pow10(a + b) == 10 * pow10((a + b - 1) as nat));
        assert(pow10(b) == 10 * pow10((b - 1) as nat));
        assert(10 * (pow10(a) * pow10((b - 1) as nat)) == pow10(a) * (10 * pow10((b - 1) as nat))) by (nonlinear_arith);
    }
}

proof fn lemma_pow10_mono(a: nat, b: nat)
    requires
        a <= b,
    ensures
        pow10(a) <= pow10(b),
{
    lemma_pow10_add(a, (b - a) as nat);
    lemma_pow10_pos((b - a) as nat);
    lemma_pow10_pos(a);
    assert(pow10(a) * pow10((b - a) as nat) >= pow10(a) * 1) by (nonlinear_arith)
        requires pow10((b - a) as nat) >= 1, pow10(a) >= 1;
}

/// Digits are worth less than ten to the power of their count.
proof fn lemma_digits_val_bound(d: Seq<char>)
    requires
        all_digits(d),
    ensures
        digits_val(d) < pow10(d.len()),
    decreases d.len(),
{
    if d.len() > 0 {
        let x = d.drop_last();
        assert(all_digits(x)) by {
            assert forall|i: int| 0 <= i < x.len() implies is_digit(#[trigger] x[i]) by {
                assert(x[i] == d[i]);
            }
        }
        lemma_digits_val_bound(x);
        assert(is_digit(d[d.len() - 1]));
        assert(digit_value(d.last()) <= 9);
        assert(digits_val(x) * 10 + digit_value(d.last()) < pow10(x.len()) * 10) by (nonlinear_arith)
            requires digits_val(x) < pow10(x.len()), digit_value(d.last()) <= 9;
    }
}

/// The digits' value is that of a prefix shifted, plus that of the rest.
proof fn lemma_digits_val_split(d: Seq<char>, p: int)
    requires
        0 <= p <= d.len(),
    ensures
        digits_val(d) == digits_val(d.take(p)) * pow10((d.len() - p) as nat) + digits_val(d.skip(p)),
    decreases d.len() - p,
{
    if p < d.len() {
        let x = d.drop_last();
        if p < d.len() {
            lemma_digits_val_split(x, p);
            assert(x.take(p) =~= d.take(p));
            assert(x.skip(p) =~= d.skip(p).drop_last());
            assert(d.skip(p).last() == d.last());
            assert(digits_val(d.skip(p)) == digits_val(x.skip(p)) * 10 + digit_value(d.last()));
            let a = digits_val(d.take(p));
            let q = pow10((x.len() - p) as nat);
            let r = digits_val(x.skip(p));
            assert(pow10((d.len() - p) as nat) == 10 * q);
            assert((a * q + r) * 10 + digit_value(d.last()) == a * (10 * q) + (r * 10 + digit_value(d.last())))
                by (nonlinear_arith);
        }
    } else {
        assert(d.take(p) =~= d);
        assert(d.skip(p).len() == 0);
        assert(pow10(0) == 1);
        assert(digits_val(d.skip(p)) == 0);
        assert(digits_val(d) * 1 == digits_val(d));
    }
}

/// Dividing digits' value by ten to the `j` drops the last `j` digits.
proof fn lemma_digits_val_div(d: Seq<char>, j: nat)
    requires
        all_digits(d),
    ensures
        j <= d.len() ==> digits_val(d) / pow10(j) == digits_val(d.take(d.len() - j)),
        j > d.len() ==> digits_val(d) / pow10(j) == 0,
{
    lemma_pow10_pos(j);
    if j <= d.len() {
        let p = d.len() - j;
        lemma_digits_val_split(d, p);
        let rest = d.skip(p);
        assert(all_digits(rest)) by {
            assert forall|i: int| 0 <= i < rest.len() implies is_digit(#[trigger] rest[i]) by {
                assert(rest[i] == d[i + p]);
            }
        }
        lemma_digits_val_bound(rest);
        vstd::arithmetic::div_mod::lemma_fundamental_div_mod_converse(digits_val(d) as int, pow10(j) as int,
            digits_val(d.take(p)) as int, digits_val(rest) as int);
    } else {
        lemma_digits_val_bound(d);
        lemma_pow10_mono(d.len(), j);
        vstd::arithmetic::div_mod::lemma_basic_div(digits_val(d) as int, pow10(j) as int);
    }
}

/// The value found from `k` down has that many places at most, and is below 2^32.
proof fn lemma_fit_scale(m: nat, f: int, k: nat)
    ensures
        fit_scale(m, f, k) matches Some(j) ==> j <= k && scaled(m, f, j) < 0x1_0000_0000,
    decreases k,
{
    if scaled(m, f, k) >= 0x1_0000_0000 && k > 0 {
        lemma_fit_scale(m, f, (k - 1) as nat);
    }
}

/// The position of the first `e` or `E` (see `exponent_index`).
fn exponent_position(b: &str) -> (r: Option<usize>)
    ensures
        match r {
            Some(i) => i as int == exponent_index(b@) && i < b@.len(),
            None => exponent_index(b@) < 0,
        },
{
    match (find_char(b, 'e'), find_char(b, 'E')) {
        (Some(i), Some(j)) => Some(if i < j { i } else { j }),
        (Some(i), None) => Some(i),
        (None, Some(j)) => Some(j),
        (None, None) => None,
    }
}

/// Reads an exponent (see `exponent_spec`).
fn parse_exponent(x: &str) -> (r: Option<i128>)
    ensures
        match r {
            Some(v) => exponent_spec(x@) == Some(v as int),
            None => exponent_spec(x@).is_none(),
        },
{
    let n = char_len(x);
    let neg = n > 0 && char_at(x, 0) == '-';
    let signed = n > 0 && (char_at(x, 0) == '+' || char_at(x, 0) == '-');
    let d: &str = if signed { substring(x, 1, n) } else { x };
    assert(d@ == (if x@.len() > 0 && (x@[0] == '+' || x@[0] == '-') { x@.drop_first() } else { x@ }));
    let dn = char_len(d);
    if dn == 0 || !all_digits_exec(d) {
        return None;
    }
    let mut acc: u128 = 0;
    let mut i: usize = 0;
    while i < dn
        invariant
            dn == d@.len(),
            i <= dn,
            all_digits(d@),
            acc as int == (if digits_val(d@.take(i as int)) < EXPONENT_CAP { digits_val(d@.take(i as int)) as int } else {
                EXPONENT_CAP as int
            }),
        decreases dn - i,
    {
        let c = char_at(d, i);
        assert(is_digit(d@[i as int]));
        let v: u128 = ((c as u32) - ('0' as u32)) as u128;
        assert(d@.take(i as int + 1).drop_last() =~= d@.take(i as int));
        assert(d@.take(i as int + 1).last() == d@[i as int]);
        if acc < EXPONENT_CAP {
            acc = acc * 10 + v;
            if acc >= EXPONENT_CAP {
                acc = EXPONENT_CAP;
            }
        }
        i = i + 1;
    }
    assert(d@.take(dn as int) =~= d@);
    Some(if neg { -(acc as i128) } else { acc as i128 })
}

/// The value of the first `p` digits, when below 2^32.
fn prefix_value(d: &str, p: usize) -> (r: Option<u64>)
    requires
        p <= d@.len(),
        all_digits(d@),
    ensures
        match r {
            Some(v) => v as nat == digits_val(d@.take(p as int)) && v < 0x1_0000_0000,
            None => digits_val(d@.take(p as int)) >= 0x1_0000_0000,
        },
{
    let mut acc: u64 = 0;
    let mut i: usize = 0;
    while i < p
        invariant
            p <= d@.len(),
            all_digits(d@),
            i <= p,
            acc as nat == digits_val(d@.take(i as int)),
            acc < 0x1_0000_0000,
        decreases p - i,
    {
        let c = char_at(d, i);
        assert(is_digit(d@[i as int]));
        let v: u64 = ((c as u32) - ('0' as u32)) as u64;
        assert(d@.take(i as int + 1).drop_last() =~= d@.take(i as int));
        assert(d@.take(i as int + 1).last() == d@[i as int]);
        acc = acc * 10 + v;
        if acc >= 0x1_0000_0000 {
            proof {
                lemma_digits_val_mono(d@.take(p as int), i as int + 1);
                assert(d@.take(p as int).take(i as int + 1) =~= d@.take(i as int + 1));
            }
            return None;
        }
        i = i + 1;
    }
    Some(acc)
}

/// `scaled(digits, f, k)` when below 2^32.
fn scaled_below(d: &str, f: i128, k: u64) -> (r: Option<u64>)
    requires
        all_digits(d@),
        k <= 9,
        -0x1_0000_0000_0000_0000_0000_0000 <= f <= 0x1_0000_0000_0000_0000_0000_0000,
    ensures
        match r {
            Some(v) => v as nat == scaled(digits_val(d@), f as int, k as nat) && v < 0x1_0000_0000,
            None => scaled(digits_val(d@), f as int, k as nat) >= 0x1_0000_0000,
        },
{
    let n = char_len(d);
    let t: i128 = k as i128 - f;
    let ghost m = digits_val(d@);
    assert(d@.take(n as int) =~= d@);
    if t >= 0 {
        let mv = match prefix_value(d, n) {
            Some(mv) => mv,
            None => {
                proof {
                    lemma_pow10_pos(t as nat);
                    assert(m >= 0x1_0000_0000);
                    assert(m * pow10(t as nat) >= m) by (nonlinear_arith)
                        requires pow10(t as nat) >= 1, m >= 0;
                    assert(scaled(m, f as int, k as nat) == m * pow10(t as nat));
                }
                return None;
            },
        };
        if mv == 0 {
            assert(m == 0);
            assert(m * pow10(t as nat) == 0) by (nonlinear_arith)
                requires m == 0;
            assert(scaled(m, f as int, k as nat) == m * pow10(t as nat));
            return Some(0);
        }
        let mut acc: u64 = mv;
        let mut i: i128 = 0;
        assert(pow10(0) == 1);
        assert(m * 1 == m);
        while i < t
            invariant
                0 <= i <= t,
                t == k as i128 - f,
                m == digits_val(d@),
                m == mv as nat,
                mv >= 1,
                acc as nat == m * pow10(i as nat),
                acc < 0x1_0000_0000,
            decreases t - i,
        {
            assert(pow10((i + 1) as nat) == 10 * pow10(i as nat));
            assert(m * (10 * pow10(i as nat)) == 10 * (m * pow10(i as nat))) by (nonlinear_arith);
            acc = acc * 10;
            if acc >= 0x1_0000_0000 {
                proof {
                    lemma_pow10_mono((i + 1) as nat, t as nat);
                    assert(m * pow10((i + 1) as nat) <= m * pow10(t as nat)) by (nonlinear_arith)
                        requires pow10((i + 1) as nat) <= pow10(t as nat);
                    assert(scaled(m, f as int, k as nat) == m * pow10(t as nat));
                }
                return None;
            }
            i = i + 1;
        }
        assert(scaled(m, f as int, k as nat) == m * pow10(t as nat));
        Some(acc)
    } else {
        let j: i128 = -t;
        proof { lemma_digits_val_div(d@, j as nat); }
        assert(scaled(m, f as int, k as nat) == m / pow10(j as nat));
        if j >= n as i128 {
            if j > n as i128 {
                return Some(0);
            }
            assert(d@.take(0) =~= Seq::<char>::empty());
            assert(digits_val(d@.take(0)) == 0);
            return Some(0);
        }
        let p: usize = (n as i128 - j) as usize;
        assert(p as int == d@.len() - j);
        prefix_value(d, p)
    }
}

/// Parses a non-negative decimal number into a fraction (see `parse_decimal_spec`).
pub fn parse_decimal(s: &str) -> (r: Option<(u64, u64)>)
    ensures
        match r {
            Some((n, d)) => parse_decimal_spec(s@) == Some((n as nat, d as nat)),
            None => parse_decimal_spec(s@).is_none(),
        },
{
    let n = char_len(s);
    let b: &str = if n > 0 && char_at(s, 0) == '+' { substring(s, 1, n) } else { s };
    assert(b@ == (if s@.len() > 0 && s@[0] == '+' { s@.drop_first() } else { s@ }));
    let bn = char_len(b);
    let (mant, exp): (&str, Option<i128>) = match exponent_position(b) {
        Some(e) => (substring(b, 0, e), parse_exponent(substring(b, e + 1, bn))),
        None => (b, Some(0)),
    };
    let exp = match exp {
        Some(x) => x,
        None => {
            return None;
        },
    };
    let mn = char_len(mant);
    let k = find_char(mant, '.');
    let (ip, fp): (&str, &str) = match k {
        Some(k) => (substring(mant, 0, k), substring(mant, k + 1, mn)),
        None => (mant, substring(mant, mn, mn)),
    };
    proof {
        let kk = first_index(mant@, '.');
        if kk < 0 {
            assert(fp@ =~= Seq::<char>::empty());
        }
    }
    if k.is_some() && find_char(fp, '.').is_some() {
        return None;
    }
    if !all_digits_exec(ip) || !all_digits_exec(fp) {
        return None;
    }
    let il = char_len(ip);
    let fl = char_len(fp);
    if il == 0 && fl == 0 {
        return None;
    }
    let mut all = ip.to_owned();
    all.append(fp);
    let ghost d = ip@ + fp@;
    assert(all@ == d);
    assert(all_digits(d)) by {
        assert forall|i: int| 0 <= i < d.len() implies is_digit(#[trigger] d[i]) by {
            if i < ip@.len() {
                assert(d[i] == ip@[i]);
            } else {
                assert(d[i] == fp@[i - ip@.len()]);
            }
        }
    }
    let f: i128 = fl as i128 - exp;
    let k0: u64 = if f < 0 { 0 } else if f > 9 { 9 } else { f as u64 };
    assert(decimal_parts(s@) == Some((digits_val(d), f as int)));
    let mut k: u64 = k0;
    loop
        invariant
            k <= k0 <= 9,
            all@ == d,
            all_digits(d),
            -0x1_0000_0000_0000_0000_0000_0000 <= f <= 0x1_0000_0000_0000_0000_0000_0000,
            decimal_parts(s@) == Some((digits_val(d), f as int)),
            k0 as nat == (if f < 0 { 0nat } else if f > 9 { 9nat } else { f as nat }),
            fit_scale(digits_val(d), f as int, k0 as nat) == fit_scale(digits_val(d), f as int, k as nat),
        decreases k,
    {
        match scaled_below(all.as_str(), f, k) {
            Some(v) => {
                let mut den: u64 = 1;
                let mut j: u64 = 0;
                while j < k
                    invariant
                        j <= k <= 9,
                        den as nat == pow10(j as nat),
                    decreases k - j,
                {
                    proof { lemma_pow10_bound(j as nat); }
                    den = den * 10;
                    j = j + 1;
                }
                return Some((v, den));
            },
            None => {
                if k == 0 {
                    return None;
                }
                k = k - 1;
            },
        }
    }
}

/// A ratio `a:b` whose two parts are decimal numbers: the part before the first
/// `:` and the part between the first and a second `:` (or the end), as the
/// fraction (numerator, denominator). None when there is no `:`, a part does not
/// parse or the second part is zero.
pub open spec fn parse_ratio_spec(r: Seq<char>) -> Option<(nat, nat)> {
    let k = first_index(r, ':');
    if k < 0 {
        None
    } else {
        let a = r.subrange(0, k);
        let rest = r.subrange(k + 1, r.len() as int);
        let k2 = first_index(rest, ':');
        let b = if k2 < 0 { rest } else { rest.subrange(0, k2) };
        match (parse_decimal_spec(a), parse_decimal_spec(b)) {
            (Some((an, ad)), Some((bn, bd))) => if bn > 0 {
                Some((an * bd, ad * bn))
            } else {
                None
            },
            _ => None,
        }
    }
}

pub proof fn lemma_parse_decimal_bounds(s: Seq<char>)
    ensures
        parse_decimal_spec(s) matches Some((n, d)) ==> n < 0x1_0000_0000 && 1 <= d <= 1_000_000_000,
{
    if let Some((m, f)) = decimal_parts(s) {
        let k0: nat = if f < 0 { 0 } else if f > 9 { 9 } else { f as nat };
        lemma_fit_scale(m, f, k0);
        if let Some(k) = fit_scale(m, f, k0) {
            lemma_pow10_bound(k);
        }
    }
}

proof fn lemma_mul_bound(a: nat, b: nat, x: nat, y: nat)
    requires
        a <= x,
        b <= y,
    ensures
        a * b <= x * y,
{
    vstd::arithmetic::mul::lemma_mul_upper_bound(a as int, x as int, b as int, y as int);
}

/// Parses a ratio (see `parse_ratio_spec`).
pub fn parse_ratio(r: &str) -> (res: Option<(u64, u64)>)
    ensures
        match res {
            Some((n, d)) => parse_ratio_spec(r@) == Some((n as nat, d as nat)),
            None => parse_ratio_spec(r@).is_none(),
        },
{
    let len = char_len(r);
    let k = match find_char(r, ':') {
        Some(k) => k,
        None => return None,
    };
    let a = substring(r, 0, k);
    let rest = substring(r, k + 1, len);
    let rl = char_len(rest);
    let b: &str = match find_char(rest, ':') {
        Some(k2) => substring(rest, 0, k2),
        None => rest,
    };
    let pa = parse_decimal(a);
    let pb = parse_decimal(b);
    proof {
        lemma_parse_decimal_bounds(a@);
        lemma_parse_decimal_bounds(b@);
    }
    match (pa, pb) {
        (Some((an, ad)), Some((bn, bd))) => {
            if bn > 0 {
                proof {
                    lemma_mul_bound(an as nat, bd as nat, 0x1_0000_0000, 1_000_000_000);
                    lemma_mul_bound(ad as nat, bn as nat, 1_000_000_000, 0x1_0000_0000);
                }
                Some((an * bd, ad * bn))
            } else {
                None
            }
        },
        _ => None,
    }
}

proof fn lemma_parse_ratio_bounds(r: Seq<char>)
    ensures
        parse_ratio_spec(r) matches Some((n, d)) ==> n < 0x1_0000_0000 * 1_000_000_000 && 0 < d
            && d < 0x1_0000_0000 * 1_000_000_000,
{
    let k = first_index(r, ':');
    if k >= 0 {
        let a = r.subrange(0, k);
        let rest = r.subrange(k + 1, r.len() as int);
        let k2 = first_index(rest, ':');
        let b = if k2 < 0 { rest } else { rest.subrange(0, k2) };
        lemma_parse_decimal_bounds(a);
        lemma_parse_decimal_bounds(b);
        if let (Some((an, ad)), Some((bn, bd))) = (parse_decimal_spec(a), parse_decimal_spec(b)) {
            if bn > 0 {
                lemma_mul_bound(an, bd, 0xffff_ffff, 1_000_000_000);
                lemma_mul_bound(ad, bn, 1_000_000_000, 0xffff_ffff);
                vstd::arithmetic::mul::lemma_mul_strictly_positive(ad as int, bn as int);
            }
        }
    }
}

/// How a frame's stored width stretches to its displayed width.
pub enum SampleAspect {
    /// A ratio: displayed width = stored width * num / den.
    Ratio(u64, u64),
    /// A decimal display aspect ratio num / den: displayed width = height * num / den.
    DisplayDecimal(u64, u64),
}

/// The sample aspect ratio of a frame: its own, or else one derived from its
/// display aspect ratio (a decimal number, or a ratio `a:b`).
pub open spec fn sar_spec(s: FrameStateView) -> Option<SampleAspect> {
    if s.sample_aspect_ratio.is_none() || s.sample_aspect_ratio == Some("0:0"@) {
        match s.display_aspect_ratio {
            Some(d) => match parse_decimal_spec(d) {
                Some((n, dd)) => Some(SampleAspect::DisplayDecimal(n as u64, dd as u64)),
                None => match parse_ratio_spec(d) {
                    Some((n, dd)) => Some(SampleAspect::Ratio(n as u64, dd as u64)),
                    None => None,
                },
            },
            None => None,
        }
    } else {
        match parse_ratio_spec(s.sample_aspect_ratio.unwrap()) {
            Some((n, d)) => Some(SampleAspect::Ratio(n as u64, d as u64)),
            None => None,
        }
    }
}

/// The displayed width of a frame as a fraction (numerator, denominator).
pub open spec fn source_width(s: FrameStateView) -> (nat, nat) {
    let w = s.size.width as nat;
    let h = s.size.height as nat;
    if s.is_anamorphic {
        match sar_spec(s) {
            Some(SampleAspect::Ratio(n, d)) => (w * (n as nat), d as nat),
            Some(SampleAspect::DisplayDecimal(n, d)) => if w == 0 { (0, 1) } else { (h * (n as nat), d as nat) },
            None => (w, 1),
        }
    } else {
        (w, 1)
    }
}

/// `a / b` rounded to the nearest integer, ties to even.
pub open spec fn round_half_even(a: nat, b: nat) -> nat
    recommends
        b > 0,
{
    let q = a / b;
    let r = a % b;
    if 2 * r > b {
        q + 1
    } else if 2 * r < b {
        q
    } else if q % 2 == 1 {
        q + 1
    } else {
        q
    }
}

pub open spec fn min_nat(a: nat, b: nat) -> nat {
    if a <= b { a } else { b }
}

impl FrameSize {
    /// The largest size with the displayed aspect ratio of `state` that fits in
    /// `self` (scaled by the smaller of the two ratios, rounded half to even).
    pub open spec fn spec_contain(self, state: FrameStateView) -> FrameSize {
        let (swn, swd) = source_width(state);
        let h = state.size.height as nat;
        let tw = self.width as nat;
        let th = self.height as nat;
        if h == 0 {
            if swn > 0 {
                FrameSize { width: self.width, height: 0 }
            } else {
                FrameSize { width: 0, height: 0 }
            }
        } else if swn == 0 {
            FrameSize { width: 0, height: self.height }
        } else if tw * h * swd <= th * swn {
            FrameSize { width: self.width, height: min_nat(round_half_even(h * tw * swd, swn), th) as u32 }
        } else {
            FrameSize { width: min_nat(round_half_even(swn * th, swd * h), tw) as u32, height: self.height }
        }
    }

    /// The smallest size with the displayed aspect ratio of `state` that covers
    /// `self` (scaled by the larger of the two ratios, rounded half to even, at
    /// most `u32::MAX`); `self` itself for a frame without height or width.
    pub open spec fn spec_cover(self, state: FrameStateView) -> FrameSize {
        let (swn, swd) = source_width(state);
        let h = state.size.height as nat;
        let tw = self.width as nat;
        let th = self.height as nat;
        if h == 0 || swn == 0 {
            self
        } else if tw * h * swd >= th * swn {
            FrameSize { width: self.width, height: min_nat(round_half_even(h * tw * swd, swn), u32::MAX as nat) as u32 }
        } else {
            FrameSize { width: min_nat(round_half_even(swn * th, swd * h), u32::MAX as nat) as u32, height: self.height }
        }
    }
}

/// The sample aspect ratio of a frame (see `sar_spec`).
pub fn sample_aspect(state: &FrameState) -> (r: Option<SampleAspect>)
    ensures
        r == sar_spec(state@),
{
    let sar_missing = match &state.sample_aspect_ratio {
        None => true,
        Some(s) => {
            let t = s.as_str();
            proof { reveal_strlit("0:0"); }
            char_len(t) == 3 && char_at(t, 0) == '0' && char_at(t, 1) == ':' && char_at(t, 2) == '0'
        },
    };
    proof {
        reveal_strlit("0:0");
        if let Some(s) = &state.sample_aspect_ratio {
            if s@.len() == 3 && s@[0] == '0' && s@[1] == ':' && s@[2] == '0' {
                assert(s@ =~= "0:0"@);
            }
        }
    }
    if sar_missing {
        match &state.display_aspect_ratio {
            Some(d) => match parse_decimal(d.as_str()) {
                Some((n, dd)) => Some(SampleAspect::DisplayDecimal(n, dd)),
                None => match parse_ratio(d.as_str()) {
                    Some((n, dd)) => Some(SampleAspect::Ratio(n, dd)),
                    None => None,
                },
            },
            None => None,
        }
    } else {
        match &state.sample_aspect_ratio {
            Some(s) => match parse_ratio(s.as_str()) {
                Some((n, d)) => Some(SampleAspect::Ratio(n, d)),
                None => None,
            },
            None => None,
        }
    }
}

proof fn lemma_sar_bounds(s: FrameStateView)
    ensures
        sar_spec(s) matches Some(SampleAspect::Ratio(n, d)) ==> n < 0x1_0000_0000 * 1_000_000_000 && 0 < d
            && d < 0x1_0000_0000 * 1_000_000_000,
        sar_spec(s) matches Some(SampleAspect::DisplayDecimal(n, d)) ==> n < 0x1_0000_0000 && 1 <= d
            <= 1_000_000_000,
{
    if let Some(d) = s.display_aspect_ratio {
        lemma_parse_decimal_bounds(d);
        lemma_parse_ratio_bounds(d);
    }
    if let Some(r) = s.sample_aspect_ratio {
        lemma_parse_ratio_bounds(r);
    }
}

/// The displayed width of a frame as a fraction (see `source_width`).
fn source_width_exec(state: &FrameState) -> (r: (u128, u128))
    ensures
        (r.0 as nat, r.1 as nat) == source_width(state@),
        r.0 < 0x1_0000_0000 * 0x1_0000_0000 * 1_000_000_000,
        0 < r.1 < 0x1_0000_0000 * 1_000_000_000,
{
    let w = state.size.width as u128;
    let h = state.size.height as u128;
    proof { lemma_sar_bounds(state@); }
    if state.is_anamorphic {
        match sample_aspect(state) {
            Some(SampleAspect::Ratio(n, d)) => {
                proof { lemma_mul_bound(w as nat, n as nat, 0xffff_ffff, 0x1_0000_0000 * 1_000_000_000); }
                (w * (n as u128), d as u128)
            },
            Some(SampleAspect::DisplayDecimal(n, d)) => {
                if w == 0 {
                    (0, 1)
                } else {
                    proof { lemma_mul_bound(h as nat, n as nat, 0xffff_ffff, 0xffff_ffff); }
                    (h * (n as u128), d as u128)
                }
            },
            None => (w, 1),
        }
    } else {
        (w, 1)
    }
}

/// `a / b` rounded to the nearest integer, ties to even.
fn round_half_even_exec(a: u128, b: u128) -> (r: u128)
    requires
        0 < b < 0x8000_0000_0000_0000_0000_0000_0000_0000,
    ensures
        r as nat == round_half_even(a as nat, b as nat),
{
    let q = a / b;
    let r = a % b;
    if 2 * r > b {
        assert(q < a || q == 0 || b == 1 || q <= a);
        proof {
            vstd::arithmetic::div_mod::lemma_fundamental_div_mod(a as int, b as int);
            assert(q * b <= a) by (nonlinear_arith)
                requires q * b + r == a, r >= 0;
            assert(q < 0x8000_0000_0000_0000_0000_0000_0000_0000) by (nonlinear_arith)
                requires q * b <= a, b >= 2, a < 0x1_0000_0000_0000_0000_0000_0000_0000_0000;
        }
        q + 1
    } else if 2 * r < b {
        q
    } else if q % 2 == 1 {
        proof {
            vstd::arithmetic::div_mod::lemma_fundamental_div_mod(a as int, b as int);
            assert(q * b <= a) by (nonlinear_arith)
                requires q * b + r == a, r >= 0;
            assert(q < 0x8000_0000_0000_0000_0000_0000_0000_0000) by (nonlinear_arith)
                requires q * b <= a, b >= 2, a < 0x1_0000_0000_0000_0000_0000_0000_0000_0000;
        }
        q + 1
    } else {
        q
    }
}

impl FrameSize {
    /// The largest size with the displayed aspect ratio of `state` that fits in `self`.
    pub fn square_pixel_size_contain(&self, state: &FrameState) -> (r: FrameSize)
        ensures
            r == self.spec_contain(state@),
    {
        let (swn, swd) = source_width_exec(state);
        let h = state.size.height as u128;
        let tw = self.width as u128;
        let th = self.height as u128;
        if h == 0 {
            if swn > 0 {
                FrameSize { width: self.width, height: 0 }
            } else {
                FrameSize { width: 0, height: 0 }
            }
        } else if swn == 0 {
            FrameSize { width: 0, height: self.height }
        } else {
            proof {
                lemma_mul_bound(tw as nat, h as nat, 0xffff_ffff, 0xffff_ffff);
                lemma_mul_bound((tw * h) as nat, swd as nat, 0xffff_ffff * 0xffff_ffff, 0x1_0000_0000 * 1_000_000_000);
                lemma_mul_bound(th as nat, swn as nat, 0xffff_ffff, 0x1_0000_0000 * 0x1_0000_0000 * 1_000_000_000);
                lemma_mul_bound(h as nat, tw as nat, 0xffff_ffff, 0xffff_ffff);
                lemma_mul_bound(swn as nat, th as nat, 0x1_0000_0000 * 0x1_0000_0000 * 1_000_000_000, 0xffff_ffff);
                lemma_mul_bound(swd as nat, h as nat, 0x1_0000_0000 * 1_000_000_000, 0xffff_ffff);
                assert(h * tw * swd == tw * h * swd) by (nonlinear_arith);
            }
            if tw * h * swd <= th * swn {
                let v = round_half_even_exec(h * tw * swd, swn);
                let hh: u32 = if v <= th { v as u32 } else { self.height };
                FrameSize { width: self.width, height: hh }
            } else {
                proof { vstd::arithmetic::mul::lemma_mul_strictly_positive(swd as int, h as int); }
                let v = round_half_even_exec(swn * th, swd * h);
                let ww: u32 = if v <= tw { v as u32 } else { self.width };
                FrameSize { width: ww, height: self.height }
            }
        }
    }

    /// The smallest size with the displayed aspect ratio of `state` that covers `self`.
    pub fn square_pixel_size_cover(&self, state: &FrameState) -> (r: FrameSize)
        ensures
            r == self.spec_cover(state@),
    {
        let (swn, swd) = source_width_exec(state);
        let h = state.size.height as u128;
        let tw = self.width as u128;
        let th = self.height as u128;
        if h == 0 || swn == 0 {
            *self
        } else {
            proof {
                lemma_mul_bound(tw as nat, h as nat, 0xffff_ffff, 0xffff_ffff);
                lemma_mul_bound((tw * h) as nat, swd as nat, 0xffff_ffff * 0xffff_ffff, 0x1_0000_0000 * 1_000_000_000);
                lemma_mul_bound(th as nat, swn as nat, 0xffff_ffff, 0x1_0000_0000 * 0x1_0000_0000 * 1_000_000_000);
                lemma_mul_bound(h as nat, tw as nat, 0xffff_ffff, 0xffff_ffff);
                lemma_mul_bound(swn as nat, th as nat, 0x1_0000_0000 * 0x1_0000_0000 * 1_000_000_000, 0xffff_ffff);
                lemma_mul_bound(swd as nat, h as nat, 0x1_0000_0000 * 1_000_000_000, 0xffff_ffff);
                assert(h * tw * swd == tw * h * swd) by (nonlinear_arith);
            }
            if tw * h * swd >= th * swn {
                let v = round_half_even_exec(h * tw * swd, swn);
                let hh: u32 = if v <= 0xffff_ffff { v as u32 } else { u32::MAX };
                FrameSize { width: self.width, height: hh }
            } else {
                proof { vstd::arithmetic::mul::lemma_mul_strictly_positive(swd as int, h as int); }
                let v = round_half_even_exec(swn * th, swd * h);
                let ww: u32 = if v <= 0xffff_ffff { v as u32 } else { u32::MAX };
                FrameSize { width: ww, height: self.height }
            }
        }
    }

    /// The same as `square_pixel_size_contain`.
    pub fn square_pixel_size(&self, state: &FrameState) -> (r: FrameSize)
        ensures
            r == self.spec_contain(state@),
    {
        self.square_pixel_size_contain(state)
    }
}

/// The error text of `FrameSize::parse` for a string that does not hold exactly one `x`.
pub open spec fn size_format_error(s: Seq<char>) -> Seq<char> {
    "invalid frame size format: '"@ + s + "', expected 'WIDTHxHEIGHT'"@
}

/// What `FrameSize::parse` gives: the parts before and after the single `x`,
/// each trimmed of whitespace and read as a `u32`.
pub open spec fn parse_size_spec(s: Seq<char>) -> Result<FrameSize, Seq<char>> {
    let k = first_index(s, 'x');
    if k < 0 {
        Err(size_format_error(s))
    } else {
        let w = s.subrange(0, k);
        let h = s.subrange(k + 1, s.len() as int);
        if first_index(h, 'x') >= 0 {
            Err(size_format_error(s))
        } else {
            match parse_u32_spec(trim(w)) {
                Err(e) => Err("invalid width '"@ + w + "': "@ + e.spec_message()),
                Ok(width) => match parse_u32_spec(trim(h)) {
                    Err(e) => Err("invalid height '"@ + h + "': "@ + e.spec_message()),
                    Ok(height) => Ok(FrameSize { width, height }),
                },
            }
        }
    }
}

/// Writing a size as `WIDTHxHEIGHT` and parsing it gives the size back.
pub proof fn law_frame_size_text_round_trip(size: FrameSize)
    ensures
        parse_size_spec(dec(size.width as nat) + "x"@ + dec(size.height as nat)) == Ok::<FrameSize, Seq<char>>(size),
{
    reveal_strlit("x");
    let w = dec(size.width as nat);
    let h = dec(size.height as nat);
    let s = w + "x"@ + h;
    crate::text::lemma_dec_digits(size.width as nat);
    crate::text::lemma_dec_digits(size.height as nat);
    assert(s[w.len() as int] == 'x');
    assert forall|j: int| 0 <= j < s.len() && j < w.len() implies s[j] != 'x' by {
        assert(s[j] == w[j]);
    }
    crate::text::lemma_first_index_unique(s, 'x', w.len() as int);
    assert(s.subrange(0, w.len() as int) =~= w);
    assert(s.subrange(w.len() as int + 1, s.len() as int) =~= h);
    assert forall|j: int| 0 <= j < h.len() implies h[j] != 'x' by {
        assert(crate::text::is_digit(h[j]));
    }
    crate::text::lemma_first_index_unique(h, 'x', -1);
    crate::text::lemma_trim_dec(size.width as nat);
    crate::text::lemma_trim_dec(size.height as nat);
    crate::text::lemma_parse_dec(size.width as nat);
    crate::text::lemma_parse_dec(size.height as nat);
}

pub open spec fn result_view(r: Result<FrameSize, String>) -> Result<FrameSize, Seq<char>> {
    match r {
        Ok(f) => Ok(f),
        Err(e) => Err(e@),
    }
}

impl FrameSize {
    /// Parses `WIDTHxHEIGHT`.
    pub fn parse(s: &str) -> (r: Result<FrameSize, String>)
        ensures
            result_view(r) == parse_size_spec(s@),
    {
        let n = char_len(s);
        let k = match find_char(s, 'x') {
            Some(k) => k,
            None => {
                let mut e = "invalid frame size format: '".to_owned();
                e.append(s);
                e.append("', expected 'WIDTHxHEIGHT'");
                return Err(e);
            },
        };
        let w = substring(s, 0, k);
        let h = substring(s, k + 1, n);
        if find_char(h, 'x').is_some() {
            let mut e = "invalid frame size format: '".to_owned();
            e.append(s);
            e.append("', expected 'WIDTHxHEIGHT'");
            return Err(e);
        }
        let width = match parse_u32(trim_str(w)) {
            Ok(v) => v,
            Err(kind) => {
                let mut e = "invalid width '".to_owned();
                e.append(w);
                e.append("': ");
                e.append(kind.message());
                return Err(e);
            },
        };
        let height = match parse_u32(trim_str(h)) {
            Ok(v) => v,
            Err(kind) => {
                let mut e = "invalid height '".to_owned();
                e.append(h);
                e.append("': ");
                e.append(kind.message());
                return Err(e);
            },
        };
        Ok(FrameSize { width, height })
    }
}


impl std::str::FromStr for FrameSize {
    type Err = String;

    /// Parses `WIDTHxHEIGHT` (see `FrameSize::parse`).
    fn from_str(s: &str) -> (r: Result<FrameSize, String>)
        ensures
            result_view(r) == parse_size_spec(s@),
    {
        FrameSize::parse(s)
    }
}


impl FrameSize {
    /// `FrameSize(w=W,h=H)`.
    pub fn to_string(&self) -> (r: String)
        ensures
            r@ == "FrameSize(w="@ + dec(self.width as nat) + ",h="@ + dec(self.height as nat) + ")"@,
    {
        let mut r = "FrameSize(w=".to_owned();
        let w = crate::text::u64_to_string(self.width as u64);
        r.append(w.as_str());
        r.append(",h=");
        let h = crate::text::u64_to_string(self.height as u64);
        r.append(h.as_str());
        r.append(")");
        r
    }
}

/// Rounding to the nearest integer is off by at most a half.
proof fn lemma_round_close(a: nat, b: nat)
    requires
        b > 0,
    ensures
        2 * (round_half_even(a, b) * b - a) <= b,
        2 * (a - round_half_even(a, b) * b) <= b,
{
    let q = a / b;
    let m = a % b;
    vstd::arithmetic::div_mod::lemma_fundamental_div_mod(a as int, b as int);
    vstd::arithmetic::div_mod::lemma_mod_bound(a as int, b as int);
    assert(a == q * b + m);
    assert((q + 1) * b == q * b + b) by (nonlinear_arith);
}

/// Rounding a value at most `c` gives at most `c`.
proof fn lemma_round_le(a: nat, b: nat, c: nat)
    requires
        b > 0,
        a <= c * b,
    ensures
        round_half_even(a, b) <= c,
{
    let q = a / b;
    let m = a % b;
    vstd::arithmetic::div_mod::lemma_fundamental_div_mod(a as int, b as int);
    vstd::arithmetic::div_mod::lemma_mod_bound(a as int, b as int);
    assert(a == q * b + m);
    assert(q <= c) by (nonlinear_arith)
        requires a == q * b + m, 0 <= m, a <= c * b, b > 0;
    if q == c {
        assert(m == 0) by (nonlinear_arith)
            requires a == q * b + m, 0 <= m, a <= c * b, q == c;
    }
}

/// Rounding a value at least `c` gives at least `c`.
proof fn lemma_round_ge(a: nat, b: nat, c: nat)
    requires
        b > 0,
        a >= c * b,
    ensures
        round_half_even(a, b) >= c,
{
    let q = a / b;
    let m = a % b;
    vstd::arithmetic::div_mod::lemma_fundamental_div_mod(a as int, b as int);
    vstd::arithmetic::div_mod::lemma_mod_bound(a as int, b as int);
    assert(a == q * b + m);
    assert(q >= c) by (nonlinear_arith)
        requires a == q * b + m, m < b, a >= c * b, b > 0;
}

/// Scaling to fit keeps the frame's displayed shape: the size fits in the
/// target, fills its width or its height, and its width to height ratio is the
/// displayed width `swn / swd` to the frame's height, up to rounding the
/// scaled side to whole pixels.
pub proof fn law_contain_keeps_aspect(target: FrameSize, s: FrameStateView)
    requires
        s.size.height > 0,
        source_width(s).0 > 0,
    ensures
        ({
            let (swn, swd) = source_width(s);
            let h = s.size.height as nat;
            let r = target.spec_contain(s);
            let slack = if swn >= swd * h { swn } else { swd * h };
            &&& r.width <= target.width && r.height <= target.height
            &&& r.width == target.width || r.height == target.height
            &&& 2 * (r.width * swd * h - r.height * swn) <= slack
            &&& 2 * (r.height * swn - r.width * swd * h) <= slack
        }),
{
    lemma_sar_bounds(s);
    let (swn, swd) = source_width(s);
    assert(swd > 0);
    let h = s.size.height as nat;
    let tw = target.width as nat;
    let th = target.height as nat;
    assert(swd * h > 0) by (nonlinear_arith) requires swd > 0, h > 0;
    if tw * h * swd <= th * swn {
        let v = round_half_even(h * tw * swd, swn);
        lemma_round_close(h * tw * swd, swn);
        assert(h * tw * swd <= th * swn) by (nonlinear_arith) requires tw * h * swd <= th * swn;
        lemma_round_le(h * tw * swd, swn, th);
        let r = target.spec_contain(s);
        assert(r.height == v);
        assert(tw * swd * h == h * tw * swd) by (nonlinear_arith);
    } else {
        let v = round_half_even(swn * th, swd * h);
        lemma_round_close(swn * th, swd * h);
        assert(swn * th <= tw * (swd * h)) by (nonlinear_arith) requires !(tw * h * swd <= th * swn);
        lemma_round_le(swn * th, swd * h, tw);
        let r = target.spec_contain(s);
        assert(r.width == v);
        assert(v * swd * h == v * (swd * h)) by (nonlinear_arith);
        assert(th * swn == swn * th) by (nonlinear_arith);
    }
}

/// Scaling to cover keeps the frame's displayed shape: the size covers the
/// target, matches its width or its height, and its width to height ratio is
/// the frame's displayed one up to rounding, when the scaled side fits in a
/// `u32`.
pub proof fn law_cover_keeps_aspect(target: FrameSize, s: FrameStateView)
    requires
        s.size.height > 0,
        source_width(s).0 > 0,
        ({
            let (swn, swd) = source_width(s);
            let h = s.size.height as nat;
            &&& target.height * swn <= u32::MAX * (swd * h)
            &&& target.width * swd * h <= u32::MAX * swn
        }),
    ensures
        ({
            let (swn, swd) = source_width(s);
            let h = s.size.height as nat;
            let r = target.spec_cover(s);
            let slack = if swn >= swd * h { swn } else { swd * h };
            &&& r.width >= target.width && r.height >= target.height
            &&& r.width == target.width || r.height == target.height
            &&& 2 * (r.width * swd * h - r.height * swn) <= slack
            &&& 2 * (r.height * swn - r.width * swd * h) <= slack
        }),
{
    lemma_sar_bounds(s);
    let (swn, swd) = source_width(s);
    assert(swd > 0);
    let h = s.size.height as nat;
    let tw = target.width as nat;
    let th = target.height as nat;
    assert(swd * h > 0) by (nonlinear_arith) requires swd > 0, h > 0;
    if tw * h * swd >= th * swn {
        let v = round_half_even(h * tw * swd, swn);
        lemma_round_close(h * tw * swd, swn);
        assert(h * tw * swd >= th * swn) by (nonlinear_arith) requires tw * h * swd >= th * swn;
        lemma_round_ge(h * tw * swd, swn, th);
        assert(h * tw * swd <= u32::MAX * swn) by (nonlinear_arith) requires tw * swd * h <= u32::MAX * swn;
        lemma_round_le(h * tw * swd, swn, u32::MAX as nat);
        let r = target.spec_cover(s);
        assert(r.height == v);
        assert(tw * swd * h == h * tw * swd) by (nonlinear_arith);
    } else {
        let v = round_half_even(swn * th, swd * h);
        lemma_round_close(swn * th, swd * h);
        assert(swn * th >= tw * (swd * h)) by (nonlinear_arith) requires !(tw * h * swd >= th * swn);
        lemma_round_ge(swn * th, swd * h, tw);
        assert(swn * th <= u32::MAX * (swd * h)) by (nonlinear_arith) requires th * swn <= u32::MAX * (swd * h);
        lemma_round_le(swn * th, swd * h, u32::MAX as nat);
        let r = target.spec_cover(s);
        assert(r.width == v);
        assert(v * swd * h == v * (swd * h)) by (nonlinear_arith);
        assert(th * swn == swn * th) by (nonlinear_arith);
    }
}

} // verus!
