//! Text helpers over characters: prefix and substring tests, and decimal
//! rendering of integers and fixed-point quantities.

use vstd::prelude::*;

verus! {

/// `p` is a prefix of `s`.
pub open spec fn is_prefix(p: Seq<char>, s: Seq<char>) -> bool {
    p.len() <= s.len() && s.subrange(0, p.len() as int) == p
}

/// `p` occurs in `s` starting at position `k`.
pub open spec fn occurs_at(p: Seq<char>, s: Seq<char>, k: int) -> bool {
    0 <= k && k + p.len() <= s.len() && s.subrange(k, k + p.len()) == p
}

/// `p` occurs somewhere in `s`.
pub open spec fn contains_seq(s: Seq<char>, p: Seq<char>) -> bool {
    exists|k: int| #[trigger] occurs_at(p, s, k)
}

/// Whether `p` occurs in `s` at position `k`, compared character by character.
fn matches_at(s: &str, p: &str, k: usize, n: usize, m: usize) -> (r: bool)
    requires
        n == s@.len(),
        m == p@.len(),
        k + m <= n,
    ensures
        r == occurs_at(p@, s@, k as int),
{
    let mut i: usize = 0;
    while i < m
        invariant
            i <= m,
            k + m <= n,
            n == s@.len(),
            m == p@.len(),
            forall|j: int| 0 <= j < i ==> s@[k + j] == p@[j],
        decreases m - i,
    {
        if s.get_char(k + i) != p.get_char(i) {
            proof {
                assert(s@.subrange(k as int, k + m)[i as int] != p@[i as int]);
            }
            return false;
        }
        i = i + 1;
    }
    proof {
        assert(s@.subrange(k as int, k + m) =~= p@);
    }
    true
}

/// Whether `s` begins with `prefix`.
pub fn str_starts_with(s: &str, prefix: &str) -> (r: bool)
    ensures
        r == is_prefix(prefix@, s@),
{
    let n = s.unicode_len();
    let m = prefix.unicode_len();
    if m > n {
        return false;
    }
    matches_at(s, prefix, 0, n, m)
}

/// Whether `a` and `b` hold the same characters.
pub fn str_equals(a: &str, b: &str) -> (r: bool)
    ensures
        r == (a@ == b@),
{
    let n = a.unicode_len();
    let m = b.unicode_len();
    if n != m {
        return false;
    }
    let r = matches_at(a, b, 0, n, m);
    proof {
        assert(a@ =~= a@.subrange(0, m as int));
    }
    r
}

/// What `str::to_uppercase` makes of `s`: the Unicode upper-case mapping of
/// each character.
pub uninterp spec fn uppercase_text(s: Seq<char>) -> Seq<char>;

/// ASCII characters (below U+0080).
pub open spec fn all_ascii_chars(s: Seq<char>) -> bool {
    forall|i: int| 0 <= i < s.len() ==> (s[i] as u32) < 128
}

/// Upper-case form of an ASCII character.
pub open spec fn ascii_upper_char(c: char) -> char {
    if 'a' <= c && c <= 'z' { ((c as u32) - 32) as char } else { c }
}

/// Upper-case form of ASCII text.
pub open spec fn ascii_upper(s: Seq<char>) -> Seq<char> {
    Seq::new(s.len(), |i: int| ascii_upper_char(s[i]))
}

/// `str::to_uppercase`.
///
/// Claims that the result is the named upper-case mapping of `s`, and that on
/// ASCII text it maps `a`..`z` to `A`..`Z` and keeps every other character, as
/// the documentation of `to_uppercase` and of Unicode case mapping state.
#[verifier::external_body]
pub fn to_uppercase(s: &str) -> (r: String)
    ensures
        r@ == uppercase_text(s@),
        all_ascii_chars(s@) ==> r@ == ascii_upper(s@),
{
    s.to_uppercase()
}

/// Whether `p` occurs anywhere in `s`.
pub fn str_contains(s: &str, p: &str) -> (r: bool)
    ensures
        r == contains_seq(s@, p@),
{
    let n = s.unicode_len();
    let m = p.unicode_len();
    if m > n {
        proof {
            assert forall|k: int| !occurs_at(p@, s@, k) by {}
        }
        return false;
    }
    if m == 0 {
        proof {
            assert(s@.subrange(0, 0) =~= p@);
            assert(occurs_at(p@, s@, 0));
        }
        return true;
    }
    let mut k: usize = 0;
    while k <= n - m
        invariant
            1 <= m <= n,
            n == s@.len(),
            m == p@.len(),
            k <= n - m + 1,
            forall|j: int| 0 <= j < k ==> !occurs_at(p@, s@, j),
        decreases n - m + 1 - k,
    {
        if matches_at(s, p, k, n, m) {
            return true;
        }
        k = k + 1;
    }
    proof {
        assert forall|j: int| !occurs_at(p@, s@, j) by {
            if 0 <= j < k {
            }
        }
    }
    false
}

/// The character of a decimal digit.
pub open spec fn digit_char(d: int) -> char {
    (48 + d) as char
}

/// Decimal rendering of a natural number, most significant digit first.
pub open spec fn decimal(n: nat) -> Seq<char>
    decreases n,
{
    if n < 10 {
        seq![digit_char(n as int)]
    } else {
        decimal(n / 10).push(digit_char((n % 10) as int))
    }
}

/// Two-digit rendering of a number below one hundred, with a leading zero.
pub open spec fn two_digits(n: nat) -> Seq<char> {
    seq![digit_char((n / 10) as int), digit_char((n % 10) as int)]
}

/// A signed quantity of hundredths rendered with two decimals, as `{:.2}`
/// renders the same value: an optional minus sign, the whole part, a point and
/// two digits.
pub open spec fn fixed2(v: int) -> Seq<char> {
    let a = if v < 0 { -v } else { v };
    let sign = if v < 0 { seq!['-'] } else { Seq::<char>::empty() };
    sign + decimal((a / 100) as nat) + seq!['.'] + two_digits((a % 100) as nat)
}

/// `a` divided by `unit`, rounded to the nearest whole number, an exact
/// half going to the even neighbour.
pub open spec fn round_half_even(a: nat, unit: nat) -> nat
    recommends
        unit > 0,
{
    let q = a / unit;
    let r = a % unit;
    if 2 * r > unit || (2 * r == unit && q % 2 == 1) {
        q + 1
    } else {
        q
    }
}

/// Rounds `a / unit` to the nearest, an exact half to even.
pub fn round_half_even_exec(a: u64, unit: u64) -> (r: u64)
    requires
        unit > 0,
        a < u64::MAX,
    ensures
        r == round_half_even(a as nat, unit as nat),
{
    let q = a / unit;
    let rem = a % unit;
    proof {
        assert(q * unit + rem == a) by (nonlinear_arith)
            requires
                q == a / unit,
                rem == a % unit,
                unit > 0,
        ;
        assert(q <= a) by (nonlinear_arith)
            requires
                q * unit + rem == a,
                unit > 0,
                rem >= 0,
        ;
    }
    let twice: u128 = 2 * (rem as u128);
    if twice > unit as u128 || (twice == unit as u128 && q % 2 == 1) {
        q + 1
    } else {
        q
    }
}

/// Hundredths from which a value no longer has a hundredths digit in `f32`
/// (2^24).
pub const F32_EXACT_LIMIT: u64 = 0x100_0000;

/// The power of two that scales `a` hundredths into `f32`'s mantissa range:
/// doubled while the scaled value stays below 2^23 units, at most `fuel`
/// times.
pub open spec fn scale_up(a: int, p: int, fuel: nat) -> int
    decreases fuel,
{
    if fuel == 0 || a * p >= 838860800 {
        p
    } else {
        scale_up(a, 2 * p, (fuel - 1) as nat)
    }
}

/// For `0 < a < 2^24`: whether the `f32` nearest to `a / 100` lies above it
/// (1), below it (-1), or is exact (0). The `f32` keeps 24 significant bits:
/// `a / 100` scaled by the power of two `p` lies in [2^23, 2^24), and is
/// rounded to the nearest whole number, an exact half to even.
pub open spec fn f32_excess(a: int) -> int {
    let n = a * scale_up(a, 1, 30);
    let q = n / 100;
    let r = n % 100;
    if r == 0 {
        0
    } else if 2 * r > 100 || (2 * r == 100 && q % 2 == 1) {
        1
    } else {
        -1
    }
}

/// `a` hundredths held as the nearest `f32` and rounded to units of
/// `unit` hundredths as Rust's formatting rounds it: to the nearest, where
/// a value that is exactly half-way in decimal goes up or down with the
/// `f32`, and one that stays exactly half-way goes to the even neighbour.
/// From 2^24 hundredths on, where the `f32` no longer holds the value to the
/// hundredth, the exact half goes to even.
pub open spec fn round_f32_hundredths(a: nat, unit: nat) -> nat
    recommends
        unit > 0,
{
    let q = a / unit;
    let r = a % unit;
    if a >= F32_EXACT_LIMIT {
        round_half_even(a, unit)
    } else if 2 * r != unit {
        if 2 * r > unit { q + 1 } else { q }
    } else {
        let e = f32_excess(a as int);
        if e > 0 {
            q + 1
        } else if e < 0 {
            q
        } else if q % 2 == 1 {
            q + 1
        } else {
            q
        }
    }
}

/// `a * p` for the small operands of the `f32` scaling.
fn scaled_product(a: u64, p: u64) -> (r: u64)
    requires
        a < F32_EXACT_LIMIT,
        p <= 1677721600,
    ensures
        r == a * p,
{
    proof {
        assert(a * p <= 0xFF_FFFF * 1677721600) by (nonlinear_arith)
            requires
                a < 0x100_0000,
                p <= 1677721600,
        ;
    }
    a * p
}

/// Whether the `f32` nearest to `a / 100` lies above, below or on it.
fn f32_excess_exec(a: u64) -> (r: i8)
    requires
        0 < a < F32_EXACT_LIMIT,
    ensures
        r as int == f32_excess(a as int),
{
    let mut p: u64 = 1;
    let mut fuel: u64 = 30;
    while fuel > 0 && scaled_product(a, p) < 838860800
        invariant
            0 < a < F32_EXACT_LIMIT,
            1 <= p <= 1677721600,
            fuel <= 30,
            scale_up(a as int, 1, 30) == scale_up(a as int, p as int, fuel as nat),
        decreases fuel,
    {
        proof {
            assert(p < 838860800) by (nonlinear_arith)
                requires
                    a * p < 838860800,
                    a >= 1,
            ;
        }
        p = 2 * p;
        fuel = fuel - 1;
    }
    let n = scaled_product(a, p);
    let q = n / 100;
    let rem = n % 100;
    if rem == 0 {
        0
    } else if 2 * rem > 100 || (2 * rem == 100 && q % 2 == 1) {
        1
    } else {
        -1
    }
}

/// Rounds `a` hundredths, held as the nearest `f32`, to units of `unit`
/// hundredths as Rust's formatting does.
pub fn round_f32_hundredths_exec(a: u64, unit: u64) -> (r: u64)
    requires
        unit > 0,
        a < u64::MAX,
    ensures
        r == round_f32_hundredths(a as nat, unit as nat),
{
    if a >= F32_EXACT_LIMIT {
        return round_half_even_exec(a, unit);
    }
    let q = a / unit;
    let rem = a % unit;
    proof {
        assert(q * unit + rem == a) by (nonlinear_arith)
            requires
                q == a / unit,
                rem == a % unit,
                unit > 0,
        ;
        assert(q <= a) by (nonlinear_arith)
            requires
                q * unit + rem == a,
                unit > 0,
                rem >= 0,
        ;
    }
    let twice: u128 = 2 * (rem as u128);
    if twice != unit as u128 {
        if twice > unit as u128 { q + 1 } else { q }
    } else {
        let e = f32_excess_exec(a);
        if e > 0 {
            q + 1
        } else if e < 0 {
            q
        } else if q % 2 == 1 {
            q + 1
        } else {
            q
        }
    }
}

/// A signed quantity of hundredths, held as the nearest `f32`, rendered
/// with one decimal as `{:.1}` renders that `f32` (see
/// `round_f32_hundredths`).
pub open spec fn fixed1_of_hundredths(v: int) -> Seq<char> {
    let a = if v < 0 { -v } else { v };
    let tenths = round_f32_hundredths(a as nat, 10) as int;
    let sign = if v < 0 { seq!['-'] } else { Seq::<char>::empty() };
    sign + decimal((tenths / 10) as nat) + seq!['.'] + seq![digit_char(tenths % 10)]
}

/// `true` or `false`, as `{}` renders a boolean.
pub open spec fn bool_text(b: bool) -> Seq<char> {
    if b { seq!['t', 'r', 'u', 'e'] } else { seq!['f', 'a', 'l', 's', 'e'] }
}

/// The one-character string of a decimal digit.
fn digit_str(d: u64) -> (r: &'static str)
    requires
        d < 10,
    ensures
        r@ == seq![digit_char(d as int)],
{
    proof {
        reveal_strlit("0");
        reveal_strlit("1");
        reveal_strlit("2");
        reveal_strlit("3");
        reveal_strlit("4");
        reveal_strlit("5");
        reveal_strlit("6");
        reveal_strlit("7");
        reveal_strlit("8");
        reveal_strlit("9");
    }
    if d == 0 {
        "0"
    } else if d == 1 {
        "1"
    } else if d == 2 {
        "2"
    } else if d == 3 {
        "3"
    } else if d == 4 {
        "4"
    } else if d == 5 {
        "5"
    } else if d == 6 {
        "6"
    } else if d == 7 {
        "7"
    } else if d == 8 {
        "8"
    } else {
        "9"
    }
}

/// Decimal rendering of `n`.
pub fn decimal_string(n: u64) -> (r: String)
    ensures
        r@ == decimal(n as nat),
    decreases n,
{
    if n < 10 {
        String::from_str(digit_str(n))
    } else {
        let mut s = decimal_string(n / 10);
        s.append(digit_str(n % 10));
        proof {
            assert(s@ =~= decimal((n / 10) as nat).push(digit_char((n % 10) as int)));
        }
        s
    }
}

/// Appends the literal `lit` to `s`.
pub fn push_text(s: &mut String, lit: &str)
    ensures
        final(s)@ == old(s)@ + lit@,
{
    s.append(lit);
}

/// Appends the decimal rendering of `n` to `s`.
pub fn push_decimal(s: &mut String, n: u64)
    ensures
        final(s)@ == old(s)@ + decimal(n as nat),
{
    let d = decimal_string(n);
    s.append(d.as_str());
}

/// Appends `true` or `false` to `s`.
pub fn push_bool(s: &mut String, b: bool)
    ensures
        final(s)@ == old(s)@ + bool_text(b),
{
    proof {
        reveal_strlit("true");
        reveal_strlit("false");
    }
    if b {
        s.append("true");
    } else {
        s.append("false");
    }
    proof {
        assert("true"@ =~= bool_text(true));
        assert("false"@ =~= bool_text(false));
    }
}

/// Appends a signed quantity of hundredths with two decimals to `s`.
pub fn push_fixed2(s: &mut String, v: i64)
    ensures
        final(s)@ == old(s)@ + fixed2(v as int),
{
    proof {
        reveal_strlit("-");
        reveal_strlit(".");
    }
    let ghost start = s@;
    let a: u64 = if v < 0 {
        if v == i64::MIN { 9223372036854775808u64 } else { (-v) as u64 }
    } else {
        v as u64
    };
    assert(a as int == (if v < 0 { -(v as int) } else { v as int }));
    if v < 0 {
        s.append("-");
    }
    push_decimal(s, a / 100);
    s.append(".");
    let f = a % 100;
    s.append(digit_str(f / 10));
    s.append(digit_str(f % 10));
    proof {
        let sign = if v < 0 { seq!['-'] } else { Seq::<char>::empty() };
        assert(s@ =~= start + (sign + decimal((a / 100) as nat) + seq!['.'] + two_digits(f as nat)));
    }
}

/// Appends a signed quantity of hundredths, rounded to tenths, with one
/// decimal to `s`.
pub fn push_fixed1_of_hundredths(s: &mut String, v: i64)
    ensures
        final(s)@ == old(s)@ + fixed1_of_hundredths(v as int),
{
    proof {
        reveal_strlit("-");
        reveal_strlit(".");
    }
    let ghost start = s@;
    let a: u64 = if v < 0 {
        if v == i64::MIN { 9223372036854775808u64 } else { (-v) as u64 }
    } else {
        v as u64
    };
    assert(a as int == (if v < 0 { -(v as int) } else { v as int }));
    let tenths: u64 = round_f32_hundredths_exec(a, 10);
    if v < 0 {
        s.append("-");
    }
    push_decimal(s, tenths / 10);
    s.append(".");
    s.append(digit_str(tenths % 10));
    proof {
        let sign = if v < 0 { seq!['-'] } else { Seq::<char>::empty() };
        assert(s@ =~= start + (sign + decimal((tenths / 10) as nat) + seq!['.'] + seq![digit_char((tenths % 10) as int)]));
    }
}

/// A count of tenths rendered with one decimal.
pub open spec fn fixed1_of_tenths(v: nat) -> Seq<char> {
    decimal(v / 10) + seq!['.'] + seq![digit_char((v % 10) as int)]
}

/// Appends a count of tenths with one decimal to `s`.
pub fn push_fixed1_of_tenths(s: &mut String, v: u64)
    ensures
        final(s)@ == old(s)@ + fixed1_of_tenths(v as nat),
{
    proof {
        reveal_strlit(".");
    }
    let ghost start = s@;
    push_decimal(s, v / 10);
    s.append(".");
    s.append(digit_str(v % 10));
    proof {
        assert(s@ =~= start + fixed1_of_tenths(v as nat));
    }
}

/// Decimal rendering of a signed integer, as `{}` renders it.
pub open spec fn signed_decimal(v: int) -> Seq<char> {
    if v < 0 { seq!['-'] + decimal((-v) as nat) } else { decimal(v as nat) }
}

/// Appends the decimal rendering of a signed integer to `s`.
pub fn push_signed_decimal(s: &mut String, v: i32)
    ensures
        final(s)@ == old(s)@ + signed_decimal(v as int),
{
    proof {
        reveal_strlit("-");
    }
    let ghost start = s@;
    if v < 0 {
        s.append("-");
        let a: u64 = (-(v as i64)) as u64;
        push_decimal(s, a);
        proof {
            assert(s@ =~= start + signed_decimal(v as int));
        }
    } else {
        push_decimal(s, v as u64);
    }
}

} // verus!
