//! The few floating-point results that conversions need, worked out on the bits of
//! the numbers with integers alone.
//!
//! A double is a sign, a biased exponent of eleven bits and a fraction of 52 bits; a
//! single has eight and 23. A finite number is its significand times a power of two.

use vstd::arithmetic::power2::{lemma2_to64, lemma_pow2_adds, lemma_pow2_pos, lemma_pow2_strictly_increases, lemma_pow2_unfold, pow2};
use vstd::prelude::*;

verus! {

/// The number of binary digits of `n`.
pub open spec fn bit_len(n: nat) -> nat
    decreases n,
{
    if n == 0 {
        0
    } else {
        1 + bit_len(n / 2)
    }
}

/// `n / 2^k`, halves rounded up.
pub open spec fn half_up(n: nat, k: nat) -> nat {
    if k == 0 {
        n
    } else {
        (n + pow2((k - 1) as nat)) / pow2(k)
    }
}

/// `n / 2^k`, halves rounded to the even neighbour.
pub open spec fn half_even(n: nat, k: nat) -> nat {
    let q = n / pow2(k);
    let r = n % pow2(k);
    if 2 * r > pow2(k) || (2 * r == pow2(k) && q % 2 == 1) {
        q + 1
    } else {
        q
    }
}

/// Whether the double is negative.
pub open spec fn double_negative(b: u64) -> bool {
    b >= 0x8000_0000_0000_0000
}

/// The biased exponent of a double.
pub open spec fn double_exponent(b: u64) -> nat {
    (b as nat / 0x10_0000_0000_0000) % 0x800
}

/// The fraction of a double.
pub open spec fn double_fraction(b: u64) -> nat {
    b as nat % 0x10_0000_0000_0000
}

/// The significand of a finite double.
pub open spec fn double_significand(b: u64) -> nat {
    if double_exponent(b) == 0 {
        double_fraction(b)
    } else {
        double_fraction(b) + 0x10_0000_0000_0000
    }
}

/// The power of two by which the significand of a finite double is scaled.
pub open spec fn double_scale(b: u64) -> int {
    if double_exponent(b) == 0 {
        -1074
    } else {
        double_exponent(b) - 1075
    }
}

/// Whether the single is negative.
pub open spec fn single_negative(b: u32) -> bool {
    b >= 0x8000_0000
}

/// The biased exponent of a single.
pub open spec fn single_exponent(b: u32) -> nat {
    (b as nat / 0x80_0000) % 0x100
}

/// The fraction of a single.
pub open spec fn single_fraction(b: u32) -> nat {
    b as nat % 0x80_0000
}

/// The significand of a finite single.
pub open spec fn single_significand(b: u32) -> nat {
    if single_exponent(b) == 0 {
        single_fraction(b)
    } else {
        single_fraction(b) + 0x80_0000
    }
}

/// The power of two by which the significand of a finite single is scaled.
pub open spec fn single_scale(b: u32) -> int {
    if single_exponent(b) == 0 {
        -149
    } else {
        single_exponent(b) - 150
    }
}

/// The bits of the double `x / 2^shift`.
pub open spec fn double_of_fixed(x: int, shift: nat) -> u64 {
    if x == 0 {
        0
    } else {
        let n = if x < 0 { (-x) as nat } else { x as nat };
        let sign: int = if x < 0 { 0x8000_0000_0000_0000 } else { 0 };
        (sign + (1022 + bit_len(n) - shift) * 0x10_0000_0000_0000 + (n * pow2((53 - bit_len(n)) as nat)
            - 0x10_0000_0000_0000)) as u64
    }
}

/// The bits of the single `x / 16`.
pub open spec fn single_of_sixteenths(x: int) -> u32 {
    if x == 0 {
        0
    } else {
        let n = if x < 0 { (-x) as nat } else { x as nat };
        let sign: int = if x < 0 { 0x8000_0000 } else { 0 };
        (sign + (122 + bit_len(n)) * 0x80_0000 + (n * pow2((24 - bit_len(n)) as nat) - 0x80_0000)) as u32
    }
}

/// Which binary order of magnitude `n / 63` has, counted from `1 / 64`.
pub open spec fn sixty_third_order(n: nat) -> nat {
    if n >= 126 {
        7
    } else if n >= 63 {
        6
    } else if n >= 32 {
        5
    } else if n >= 16 {
        4
    } else if n >= 8 {
        3
    } else if n >= 4 {
        2
    } else if n >= 2 {
        1
    } else {
        0
    }
}

/// The bits of the single nearest to `x / 63`.
pub open spec fn single_of_sixty_thirds(x: int) -> u32 {
    if x == 0 {
        0
    } else {
        let n = if x < 0 { (-x) as nat } else { x as nat };
        let sign: int = if x < 0 { 0x8000_0000 } else { 0 };
        let order = sixty_third_order(n);
        (sign + (121 + order) * 0x80_0000 + ((2 * n * pow2((29 - order) as nat) + 63) / 126 - 0x80_0000)) as u32
    }
}

/// `n` as a signed 32-bit integer of the given sign, held at the ends of the range.
pub open spec fn saturate(negative: bool, n: nat) -> i32 {
    if negative {
        if n > 0x8000_0000 {
            i32::MIN
        } else {
            (-n) as i32
        }
    } else if n > 0x7FFF_FFFF {
        i32::MAX
    } else {
        n as i32
    }
}

/// The magnitude of 32 times a finite double, rounded to an integer, halves away from
/// zero.
pub open spec fn thirty_seconds_rounded(b: u64) -> nat {
    let k = double_scale(b) + 5;
    if k >= 0 {
        double_significand(b) * pow2(k as nat)
    } else {
        half_up(double_significand(b), (-k) as nat)
    }
}

/// The magnitude of 32 times a finite double, cut off to an integer.
pub open spec fn thirty_seconds_cut(b: u64) -> nat {
    let k = double_scale(b) + 5;
    if k >= 0 {
        double_significand(b) * pow2(k as nat)
    } else {
        double_significand(b) / pow2((-k) as nat)
    }
}

/// A double as a fixed-point number of 32 steps a unit, rounded, held at the ends of the
/// range. What is not a number gives zero.
pub open spec fn fixed_rounded(b: u64) -> i32 {
    if double_exponent(b) == 0x7FF {
        if double_fraction(b) == 0 {
            saturate(double_negative(b), 0x1_0000_0000)
        } else {
            0
        }
    } else {
        saturate(double_negative(b), thirty_seconds_rounded(b))
    }
}

/// A double as a fixed-point number of 32 steps a unit, cut off toward zero, held at the
/// ends of the range. What is not a number gives zero.
pub open spec fn fixed_cut(b: u64) -> i32 {
    if double_exponent(b) == 0x7FF {
        if double_fraction(b) == 0 {
            saturate(double_negative(b), 0x1_0000_0000)
        } else {
            0
        }
    } else {
        saturate(double_negative(b), thirty_seconds_cut(b))
    }
}

/// The sixteenth of a block that a single between 0 and 1 falls in: 16 times it, cut off
/// and held between 0 and 15. What is not a number gives zero.
pub open spec fn sixteenths(b: u32) -> i8 {
    if single_negative(b) || (single_exponent(b) == 0xFF && single_fraction(b) != 0) {
        0
    } else if single_exponent(b) == 0xFF {
        15
    } else {
        let k = single_scale(b) + 4;
        let n = if k >= 0 {
            single_significand(b) * pow2(k as nat)
        } else {
            single_significand(b) / pow2((-k) as nat)
        };
        if n > 15 {
            15
        } else {
            n as i8
        }
    }
}

/// A volume as a byte of 63 steps a unit: 63 times the single, as a single, rounded to an
/// integer, halves away from zero, and held between 0 and 255. What is not a number gives
/// zero.
pub open spec fn volume_steps(b: u32) -> u8 {
    if single_negative(b) || (single_exponent(b) == 0xFF && single_fraction(b) != 0) {
        0
    } else if single_exponent(b) == 0xFF {
        255
    } else {
        let n = 63 * single_significand(b);
        let k = if bit_len(n) > 24 { (bit_len(n) - 24) as nat } else { 0 };
        let q = half_even(n, k);
        let e = single_scale(b) + k;
        let v = if e >= 0 { q * pow2(e as nat) } else { half_up(q, (-e) as nat) };
        if v > 255 {
            255
        } else {
            v as u8
        }
    }
}

/// The single nearest to a double, halves to the even neighbour. What is not a number
/// stays so, with the top of its fraction kept.
pub open spec fn narrowed(b: u64) -> u32 {
    let sign: int = if double_negative(b) { 0x8000_0000 } else { 0 };
    let exp = double_exponent(b);
    let frac = double_fraction(b);
    let magnitude = if exp == 0x7FF {
        let top = frac / 0x2000_0000;
        if frac == 0 {
            0x7F80_0000
        } else if top < 0x40_0000 {
            0x7FC0_0000 + top
        } else {
            0x7F80_0000 + top
        }
    } else {
        let n = if exp >= 897 {
            half_even(((exp - 896) * 0x10_0000_0000_0000 + frac) as nat, 29)
        } else {
            half_even(double_significand(b), (-149 - double_scale(b)) as nat)
        };
        if n > 0x7F80_0000 {
            0x7F80_0000
        } else {
            n
        }
    };
    (sign + magnitude) as u32
}

/// The significand of the double 1.62, scaled by two to the minus 52nd.
pub const EYE_HEIGHT_SIGNIFICAND: u64 = 0x19_EB85_1EB8_51EC;

/// The bits of the double 1.62.
pub const EYE_HEIGHT_BITS: u64 = 0x3FF9_EB85_1EB8_51EC;

/// The exact sum of a finite double and 1.62, in units of two to the power `sum_scale`.
pub open spec fn eye_height_sum(b: u64) -> int {
    let f = sum_scale(b);
    let y = double_significand(b) * pow2((double_scale(b) - f) as nat);
    let c = EYE_HEIGHT_SIGNIFICAND * pow2((-52 - f) as nat);
    if double_negative(b) {
        c - y
    } else {
        c + y
    }
}

/// The smaller of the two scales that are added.
pub open spec fn sum_scale(b: u64) -> int {
    if double_scale(b) < -52 {
        double_scale(b)
    } else {
        -52
    }
}

/// The bits of the double nearest to `n * 2^scale`, halves to the even neighbour, for a
/// positive `n` and a scale at which no result is subnormal.
pub open spec fn nearest_double(negative: bool, n: nat, scale: int) -> u64 {
    let sign: int = if negative { 0x8000_0000_0000_0000 } else { 0 };
    let len = bit_len(n);
    let significand = if len <= 53 {
        n * pow2((53 - len) as nat)
    } else {
        half_even(n, (len - 53) as nat)
    };
    (sign + (len + scale + 1022) * 0x10_0000_0000_0000 + (significand - 0x10_0000_0000_0000)) as u64
}

/// The bits of a double plus 1.62. Beside a double of 2^74 or more in size 1.62 is less
/// than half a step, and one below 2^-72 is less than half a step of 1.62.
pub open spec fn plus_eye_height(b: u64) -> u64 {
    if double_exponent(b) == 0x7FF {
        if double_fraction(b) == 0 || double_fraction(b) >= 0x8_0000_0000_0000 {
            b
        } else {
            (b + 0x8_0000_0000_0000) as u64
        }
    } else if double_scale(b) > 21 {
        b
    } else if double_scale(b) < -125 {
        EYE_HEIGHT_BITS
    } else {
        let sum = eye_height_sum(b);
        if sum == 0 {
            0
        } else if sum < 0 {
            nearest_double(true, (-sum) as nat, sum_scale(b))
        } else {
            nearest_double(false, sum as nat, sum_scale(b))
        }
    }
}

/// A positive number lies between the powers of two that its length gives.
pub proof fn bit_len_bounds(n: nat)
    requires
        n > 0,
    ensures
        bit_len(n) >= 1,
        pow2((bit_len(n) - 1) as nat) <= n < pow2(bit_len(n)),
    decreases n,
{
    lemma2_to64();
    if n >= 2 {
        bit_len_bounds(n / 2);
        let l = bit_len(n / 2);
        lemma_pow2_unfold(l + 1);
        lemma_pow2_unfold(l);
    } else {
        assert(bit_len(1) == 1 + bit_len(0));
    }
}

/// A number below `2^k` has at most `k` digits.
proof fn bit_len_at_most(n: nat, k: nat)
    requires
        n < pow2(k),
    ensures
        bit_len(n) <= k,
{
    if n > 0 {
        bit_len_bounds(n);
        let l = bit_len(n);
        if l > k {
            if l - 1 > k {
                lemma_pow2_strictly_increases(k, (l - 1) as nat);
            }
        }
    }
}

/// A number of at least `2^k` has more than `k` digits.
proof fn bit_len_more_than(n: nat, k: nat)
    requires
        n >= pow2(k),
    ensures
        bit_len(n) > k,
{
    lemma_pow2_pos(k);
    bit_len_bounds(n);
    let l = bit_len(n);
    if l < k {
        lemma_pow2_strictly_increases(l, k);
    }
}

/// Shifting a number up to `p` digits puts it between `2^(p-1)` and `2^p`.
proof fn normalized(n: nat, p: nat)
    requires
        n > 0,
        bit_len(n) <= p,
    ensures
        pow2((p - 1) as nat) <= n * pow2((p - bit_len(n)) as nat) < pow2(p),
{
    bit_len_bounds(n);
    let l = bit_len(n);
    let k = (p - l) as nat;
    lemma_pow2_adds((l - 1) as nat, k);
    lemma_pow2_adds(l, k);
    lemma_pow2_pos(k);
    let (a, b, c) = (pow2((l - 1) as nat), pow2(l), pow2(k));
    assert(a * c <= n * c < b * c) by (nonlinear_arith)
        requires
            a <= n < b,
            c > 0,
    ;
}

/// The powers of two that stand as literals here.
proof fn powers()
    ensures
        pow2(22) == 0x40_0000,
        pow2(23) == 0x80_0000,
        pow2(24) == 0x100_0000,
        pow2(29) == 0x2000_0000,
        pow2(30) == 0x4000_0000,
        pow2(31) == 0x8000_0000,
        pow2(32) == 0x1_0000_0000,
        pow2(52) == 0x10_0000_0000_0000,
        pow2(53) == 0x20_0000_0000_0000,
        pow2(54) == 0x40_0000_0000_0000,
        pow2(63) == 0x8000_0000_0000_0000,
{
    lemma2_to64();
    vstd::arithmetic::power2::lemma2_to64_rest();
}

/// `2^k`.
fn two_to(k: u32) -> (p: u64)
    requires
        k < 64,
    ensures
        p == pow2(k as nat),
        p > 0,
{
    let mut p: u64 = 1;
    let mut i: u32 = 0;
    proof {
        lemma2_to64();
    }
    while i < k
        invariant
            i <= k < 64,
            p == pow2(i as nat),
            p > 0,
        decreases k - i,
    {
        proof {
            lemma_pow2_unfold((i + 1) as nat);
            powers();
            if i < 62 {
                lemma_pow2_strictly_increases(i as nat, 62);
            }
            lemma_pow2_unfold(63);
        }
        p = p * 2;
        i = i + 1;
    }
    p
}

/// `2^k`, up to the 126th power.
fn wide_two_to(k: u32) -> (p: u128)
    requires
        k <= 126,
    ensures
        p == pow2(k as nat),
{
    if k < 64 {
        return two_to(k) as u128;
    }
    let low: u128 = two_to(63) as u128;
    let high: u128 = two_to(k - 63) as u128;
    proof {
        lemma_pow2_adds(63, (k - 63) as nat);
        powers();
        if k < 126 {
            lemma_pow2_strictly_increases((k - 63) as nat, 63);
        }
        assert(low * high <= 0x8000_0000_0000_0000 * 0x8000_0000_0000_0000) by (nonlinear_arith)
            requires
                low <= 0x8000_0000_0000_0000,
                high <= 0x8000_0000_0000_0000,
        ;
    }
    low * high
}

/// The number of binary digits of `n`.
fn digits(n: u128) -> (l: u32)
    ensures
        l == bit_len(n as nat),
        l <= 128,
{
    let mut t: u128 = n;
    let mut l: u32 = 0;
    proof {
        assert(pow2(128) == 0x1_0000_0000_0000_0000_0000_0000_0000_0000int) by {
            powers();
            lemma_pow2_adds(64, 64);
            lemma2_to64();
        }
        bit_len_at_most(n as nat, 128);
    }
    while t > 0
        invariant
            l + bit_len(t as nat) == bit_len(n as nat),
            bit_len(n as nat) <= 128,
        decreases t,
    {
        t = t / 2;
        l = l + 1;
    }
    l
}

/// The bits of the double `x / 2^shift`.
pub fn fixed_to_double(x: i32, shift: u32) -> (b: u64)
    requires
        shift <= 5,
    ensures
        b == double_of_fixed(x as int, shift as nat),
{
    if x == 0 {
        return 0;
    }
    let wide: i64 = x as i64;
    let n: u64 = if wide < 0 { (-wide) as u64 } else { wide as u64 };
    let len: u32 = digits(n as u128);
    proof {
        powers();
        bit_len_at_most(n as nat, 32);
        bit_len_bounds(n as nat);
        normalized(n as nat, 53);
    }
    let significand: u64 = n * two_to(53 - len);
    let body: u64 = (1022 + len - shift) as u64 * 0x10_0000_0000_0000 + (significand - 0x10_0000_0000_0000);
    if x < 0 {
        0x8000_0000_0000_0000 + body
    } else {
        body
    }
}

/// The bits of the single `x / 16`.
pub fn sixteenths_to_single(x: i16) -> (b: u32)
    requires
        -0x100 < x < 0x100,
    ensures
        b == single_of_sixteenths(x as int),
{
    if x == 0 {
        return 0;
    }
    let wide: i32 = x as i32;
    let n: u64 = if wide < 0 { (-wide) as u64 } else { wide as u64 };
    let len: u32 = digits(n as u128);
    proof {
        powers();
        lemma2_to64();
        bit_len_at_most(n as nat, 8);
        bit_len_bounds(n as nat);
        normalized(n as nat, 24);
    }
    let significand: u64 = n * two_to(24 - len);
    let body: u32 = (122 + len) * 0x80_0000 + (significand as u32 - 0x80_0000);
    if x < 0 {
        0x8000_0000 + body
    } else {
        body
    }
}

/// The bits of the single nearest to `x / 63`.
pub fn sixty_thirds_to_single(x: i8) -> (b: u32)
    ensures
        b == single_of_sixty_thirds(x as int),
{
    if x == 0 {
        return 0;
    }
    let wide: i32 = x as i32;
    let n: u64 = if wide < 0 { (-wide) as u64 } else { wide as u64 };
    let order: u32 = if n >= 126 {
        7
    } else if n >= 63 {
        6
    } else if n >= 32 {
        5
    } else if n >= 16 {
        4
    } else if n >= 8 {
        3
    } else if n >= 4 {
        2
    } else if n >= 2 {
        1
    } else {
        0
    };
    let scale: u64 = two_to(29 - order);
    proof {
        lemma2_to64();
        vstd::arithmetic::power2::lemma2_to64_rest();
        assert(scale <= 0x2000_0000);
        assert(2 * n * scale <= 0x20_0000_0000) by (nonlinear_arith)
            requires
                n <= 128,
                scale <= 0x2000_0000,
        ;
        assert(0x80_0000 * 126 <= 2 * n * scale + 63 < 0x100_0000 * 126) by (nonlinear_arith)
            requires
                order == 7 ==> 126 <= n <= 128 && scale == 0x40_0000,
                order == 6 ==> 63 <= n < 126 && scale == 0x80_0000,
                order == 5 ==> 32 <= n < 63 && scale == 0x100_0000,
                order == 4 ==> 16 <= n < 32 && scale == 0x200_0000,
                order == 3 ==> 8 <= n < 16 && scale == 0x400_0000,
                order == 2 ==> 4 <= n < 8 && scale == 0x800_0000,
                order == 1 ==> 2 <= n < 4 && scale == 0x1000_0000,
                order == 0 ==> n == 1 && scale == 0x2000_0000,
                order <= 7,
        ;
    }
    let significand: u64 = (2 * n * scale + 63) / 126;
    let body: u32 = (121 + order) * 0x80_0000 + (significand as u32 - 0x80_0000);
    if x < 0 {
        0x8000_0000 + body
    } else {
        body
    }
}

/// `n` as a signed 32-bit integer of the given sign, held at the ends of the range.
fn saturated(negative: bool, n: u64) -> (x: i32)
    ensures
        x == saturate(negative, n as nat),
{
    if negative {
        if n > 0x8000_0000 {
            i32::MIN
        } else {
            (-(n as i64)) as i32
        }
    } else if n > 0x7FFF_FFFF {
        i32::MAX
    } else {
        n as i32
    }
}

/// A double as a fixed-point number of 32 steps a unit, rounded.
pub fn double_to_fixed_rounded(b: u64) -> (x: i32)
    ensures
        x == fixed_rounded(b),
{
    let negative: bool = b >= 0x8000_0000_0000_0000;
    let exp: u64 = b / 0x10_0000_0000_0000 % 0x800;
    let frac: u64 = b % 0x10_0000_0000_0000;
    if exp == 0x7FF {
        return if frac == 0 {
            saturated(negative, 0x1_0000_0000)
        } else {
            0
        };
    }
    let m: u64 = if exp == 0 { frac } else { frac + 0x10_0000_0000_0000 };
    let k: i32 = if exp == 0 { -1069 } else { exp as i32 - 1070 };
    proof {
        powers();
    }
    if k > 10 {
        proof {
            lemma_pow2_pos(k as nat);
            let p = pow2(k as nat);
            assert(m * p >= 0x10_0000_0000_0000) by (nonlinear_arith)
                requires
                    m >= 0x10_0000_0000_0000,
                    p >= 1,
            ;
        }
        saturated(negative, 0x1_0000_0000)
    } else if k >= 0 {
        let p: u64 = two_to(k as u32);
        proof {
            lemma2_to64();
            if k < 10 {
                lemma_pow2_strictly_increases(k as nat, 10);
            }
            assert(m * p <= 0x20_0000_0000_0000 * 1024) by (nonlinear_arith)
                requires
                    m <= 0x20_0000_0000_0000,
                    p <= 1024,
            ;
        }
        saturated(negative, m * p)
    } else if k >= -54 {
        let half: u64 = two_to((-k - 1) as u32);
        let p: u64 = two_to((-k) as u32);
        proof {
            if k > -54 {
                lemma_pow2_strictly_increases((-k - 1) as nat, 53);
            }
        }
        saturated(negative, (m + half) / p)
    } else {
        proof {
            let j = (-k) as nat;
            lemma_pow2_unfold(j);
            if j > 55 {
                lemma_pow2_strictly_increases(54, (j - 1) as nat);
            }
            vstd::arithmetic::div_mod::lemma_basic_div((m + pow2((j - 1) as nat)) as int, pow2(j) as int);
        }
        saturated(negative, 0)
    }
}

/// A double as a fixed-point number of 32 steps a unit, cut off.
pub fn double_to_fixed_cut(b: u64) -> (x: i32)
    ensures
        x == fixed_cut(b),
{
    let negative: bool = b >= 0x8000_0000_0000_0000;
    let exp: u64 = b / 0x10_0000_0000_0000 % 0x800;
    let frac: u64 = b % 0x10_0000_0000_0000;
    if exp == 0x7FF {
        return if frac == 0 {
            saturated(negative, 0x1_0000_0000)
        } else {
            0
        };
    }
    let m: u64 = if exp == 0 { frac } else { frac + 0x10_0000_0000_0000 };
    let k: i32 = if exp == 0 { -1069 } else { exp as i32 - 1070 };
    proof {
        powers();
    }
    if k > 10 {
        proof {
            lemma_pow2_pos(k as nat);
            let p = pow2(k as nat);
            assert(m * p >= 0x10_0000_0000_0000) by (nonlinear_arith)
                requires
                    m >= 0x10_0000_0000_0000,
                    p >= 1,
            ;
        }
        saturated(negative, 0x1_0000_0000)
    } else if k >= 0 {
        let p: u64 = two_to(k as u32);
        proof {
            lemma2_to64();
            if k < 10 {
                lemma_pow2_strictly_increases(k as nat, 10);
            }
            assert(m * p <= 0x20_0000_0000_0000 * 1024) by (nonlinear_arith)
                requires
                    m <= 0x20_0000_0000_0000,
                    p <= 1024,
            ;
        }
        saturated(negative, m * p)
    } else if k >= -54 {
        saturated(negative, m / two_to((-k) as u32))
    } else {
        proof {
            let j = (-k) as nat;
            lemma_pow2_strictly_increases(54, j);
            vstd::arithmetic::div_mod::lemma_basic_div(m as int, pow2(j) as int);
        }
        saturated(negative, 0)
    }
}

/// The sixteenth of a block that a single between 0 and 1 falls in.
pub fn single_to_sixteenths(b: u32) -> (x: i8)
    ensures
        x == sixteenths(b),
{
    let exp: u32 = b / 0x80_0000 % 0x100;
    let frac: u32 = b % 0x80_0000;
    if b >= 0x8000_0000 || (exp == 0xFF && frac != 0) {
        return 0;
    }
    if exp == 0xFF {
        return 15;
    }
    let m: u64 = if exp == 0 { frac as u64 } else { (frac + 0x80_0000) as u64 };
    let k: i32 = if exp == 0 { -145 } else { exp as i32 - 146 };
    proof {
        powers();
    }
    if k >= 0 {
        proof {
            lemma_pow2_pos(k as nat);
            let p = pow2(k as nat);
            assert(m * p >= 0x80_0000) by (nonlinear_arith)
                requires
                    m >= 0x80_0000,
                    p >= 1,
            ;
        }
        return 15;
    }
    if k < -30 {
        proof {
            let j = (-k) as nat;
            lemma_pow2_strictly_increases(30, j);
            vstd::arithmetic::div_mod::lemma_basic_div(m as int, pow2(j) as int);
        }
        return 0;
    }
    let n: u64 = m / two_to((-k) as u32);
    if n > 15 {
        15
    } else {
        n as i8
    }
}

/// `n / 2^k`, halves rounded to the even neighbour.
fn rounded_even(n: u128, k: u32) -> (q: u128)
    requires
        k <= 126,
        n < 0x8000_0000_0000_0000_0000_0000_0000_0000,
    ensures
        q == half_even(n as nat, k as nat),
{
    let p: u128 = wide_two_to(k);
    proof {
        lemma_pow2_pos(k as nat);
        let d = p as int;
        vstd::arithmetic::div_mod::lemma_fundamental_div_mod(n as int, d);
        assert(n as int / d <= n as int) by {
            vstd::arithmetic::div_mod::lemma_div_is_ordered_by_denominator(n as int, 1, d);
        }
    }
    let q: u128 = n / p;
    let r: u128 = n % p;
    if r > p - r || (r == p - r && q % 2 == 1) {
        q + 1
    } else {
        q
    }
}

/// A volume as a byte of 63 steps a unit.
pub fn single_to_volume(b: u32) -> (v: u8)
    ensures
        v == volume_steps(b),
{
    let exp: u32 = b / 0x80_0000 % 0x100;
    let frac: u32 = b % 0x80_0000;
    if b >= 0x8000_0000 || (exp == 0xFF && frac != 0) {
        return 0;
    }
    if exp == 0xFF {
        return 255;
    }
    let m: u128 = if exp == 0 { frac as u128 } else { (frac + 0x80_0000) as u128 };
    let scale: i32 = if exp == 0 { -149 } else { exp as i32 - 150 };
    let n: u128 = 63 * m;
    let len: u32 = digits(n);
    proof {
        powers();
        bit_len_at_most(n as nat, 30);
    }
    let k: u32 = if len > 24 { len - 24 } else { 0 };
    let q: u128 = rounded_even(n, k);
    proof {
        rounding_stays(n as nat, 24, k as nat);
    }
    let e: i32 = scale + k as i32;
    if e >= 8 {
        proof {
            lemma_pow2_pos(k as nat);
            lemma2_to64();
            assert(exp > 0);
            bit_len_more_than(n as nat, 23);
            assert(q >= 1) by {
                rounding_positive(n as nat, k as nat);
            }
            if e > 8 {
                lemma_pow2_strictly_increases(8, e as nat);
            }
            let p = pow2(e as nat);
            assert(q * p >= 256) by (nonlinear_arith)
                requires
                    q >= 1,
                    p >= 256,
            ;
        }
        return 255;
    }
    let v: u128 = if e >= 0 {
        let p: u64 = two_to(e as u32);
        proof {
            lemma2_to64();
            if e < 8 {
                lemma_pow2_strictly_increases(e as nat, 8);
            }
            assert(q * p <= 0x100_0000 * 256) by (nonlinear_arith)
                requires
                    q <= 0x100_0000,
                    p <= 256,
            ;
        }
        q * p as u128
    } else if e >= -30 {
        let half: u64 = two_to((-e - 1) as u32);
        let p: u64 = two_to((-e) as u32);
        proof {
            if e > -30 {
                lemma_pow2_strictly_increases((-e - 1) as nat, 29);
            }
        }
        (q + half as u128) / (p as u128)
    } else {
        proof {
            let j = (-e) as nat;
            lemma_pow2_unfold(j);
            if j > 31 {
                lemma_pow2_strictly_increases(30, (j - 1) as nat);
            }
            vstd::arithmetic::div_mod::lemma_basic_div((q + pow2((j - 1) as nat)) as int, pow2(j) as int);
        }
        0
    };
    if v > 255 {
        255
    } else {
        v as u8
    }
}

/// Cutting a number to `p` digits with rounding leaves at most `2^p`.
proof fn rounding_stays(n: nat, p: nat, k: nat)
    requires
        bit_len(n) <= p + k,
    ensures
        half_even(n, k) <= pow2(p),
{
    lemma_pow2_pos(k);
    lemma_pow2_pos(p);
    lemma_pow2_adds(p, k);
    if n > 0 {
        bit_len_bounds(n);
        if bit_len(n) < p + k {
            lemma_pow2_strictly_increases(bit_len(n), p + k);
        }
    } else {
        lemma_pow2_pos(p + k);
    }
    let (a, b) = (pow2(p), pow2(k));
    assert(n / b < a) by (nonlinear_arith)
        requires
            n < a * b,
            b > 0,
    ;
}

/// A number of more than `k` digits keeps something when `k` are cut.
proof fn rounding_positive(n: nat, k: nat)
    requires
        bit_len(n) > k,
    ensures
        half_even(n, k) >= 1,
{
    lemma_pow2_pos(k);
    assert(n > 0);
    bit_len_bounds(n);
    if bit_len(n) - 1 > k {
        lemma_pow2_strictly_increases(k, (bit_len(n) - 1) as nat);
    }
    let b = pow2(k);
    assert(n / b >= 1) by (nonlinear_arith)
        requires
            n >= b,
            b > 0,
    ;
}

/// The single nearest to a double.
pub fn double_to_single(b: u64) -> (x: u32)
    ensures
        x == narrowed(b),
{
    let exp: u64 = b / 0x10_0000_0000_0000 % 0x800;
    let frac: u64 = b % 0x10_0000_0000_0000;
    proof {
        powers();
    }
    let magnitude: u32 = if exp == 0x7FF {
        let top: u32 = (frac / 0x2000_0000) as u32;
        if frac == 0 {
            0x7F80_0000
        } else if top < 0x40_0000 {
            0x7FC0_0000 + top
        } else {
            0x7F80_0000 + top
        }
    } else {
        let n: u128 = if exp >= 897 {
            rounded_even(((exp - 896) * 0x10_0000_0000_0000 + frac) as u128, 29)
        } else {
            let m: u64 = if exp == 0 { frac } else { frac + 0x10_0000_0000_0000 };
            let k: u32 = if exp == 0 { 925 } else { 926 - exp as u32 };
            if k > 54 {
                proof {
                    lemma_pow2_strictly_increases(54, k as nat);
                    vstd::arithmetic::div_mod::lemma_basic_div(m as int, pow2(k as nat) as int);
                    vstd::arithmetic::div_mod::lemma_small_mod(m as nat, pow2(k as nat));
                }
                0
            } else {
                rounded_even(m as u128, k)
            }
        };
        if n > 0x7F80_0000 {
            0x7F80_0000
        } else {
            n as u32
        }
    };
    if b >= 0x8000_0000_0000_0000 {
        0x8000_0000 + magnitude
    } else {
        magnitude
    }
}

/// The bits of the double nearest to `n * 2^scale`.
fn to_nearest_double(negative: bool, n: u128, scale: i32) -> (b: u64)
    requires
        0 < n < 0x8000_0000_0000_0000_0000_0000_0000_0000,
        -125 <= scale <= -52,
    ensures
        b == nearest_double(negative, n as nat, scale as int),
{
    let len: u32 = digits(n);
    proof {
        powers();
        bit_len_bounds(n as nat);
        assert(pow2(127) == 0x8000_0000_0000_0000_0000_0000_0000_0000int) by {
            lemma_pow2_adds(64, 63);
            lemma2_to64();
        }
        bit_len_at_most(n as nat, 127);
    }
    let significand: u64 = if len <= 53 {
        proof {
            normalized(n as nat, 53);
            assert(n < 0x20_0000_0000_0000) by {
                if len < 53 {
                    lemma_pow2_strictly_increases(len as nat, 53);
                }
            }
        }
        n as u64 * two_to(53 - len)
    } else {
        let q: u128 = rounded_even(n, len - 53);
        proof {
            rounding_stays(n as nat, 53, (len - 53) as nat);
            cut_stays(n as nat, 53);
        }
        q as u64
    };
    let body: u64 = (len as i32 + scale + 1022) as u64 * 0x10_0000_0000_0000 + (significand
        - 0x10_0000_0000_0000);
    if negative {
        0x8000_0000_0000_0000 + body
    } else {
        body
    }
}

/// What is cut to `p` digits has `p` digits.
proof fn cut_stays(n: nat, p: nat)
    requires
        p >= 1,
        bit_len(n) > p,
    ensures
        half_even(n, (bit_len(n) - p) as nat) >= pow2((p - 1) as nat),
{
    bit_len_bounds(n);
    let k = (bit_len(n) - p) as nat;
    lemma_pow2_adds((p - 1) as nat, k);
    lemma_pow2_pos(k);
    let (a, b) = (pow2((p - 1) as nat), pow2(k));
    assert(n / b >= a) by (nonlinear_arith)
        requires
            n >= a * b,
            b > 0,
    ;
}

/// The bits of a double plus 1.62, the height of the eyes above the feet.
pub fn add_eye_height(b: u64) -> (x: u64)
    ensures
        x == plus_eye_height(b),
{
    let exp: u64 = b / 0x10_0000_0000_0000 % 0x800;
    let frac: u64 = b % 0x10_0000_0000_0000;
    if exp == 0x7FF {
        return if frac == 0 || frac >= 0x8_0000_0000_0000 {
            b
        } else {
            b + 0x8_0000_0000_0000
        };
    }
    let m: u64 = if exp == 0 { frac } else { frac + 0x10_0000_0000_0000 };
    let e: i32 = if exp == 0 { -1074 } else { exp as i32 - 1075 };
    if e > 21 {
        return b;
    }
    if e < -125 {
        return EYE_HEIGHT_BITS;
    }
    let f: i32 = if e < -52 { e } else { -52 };
    let up_y: u32 = (e - f) as u32;
    let up_c: u32 = (-52 - f) as u32;
    let py: u128 = wide_two_to(up_y);
    let pc: u128 = wide_two_to(up_c);
    proof {
        powers();
        lemma_pow2_adds(53, up_y as nat);
        lemma_pow2_adds(53, up_c as nat);
        assert(pow2(126) == 0x4000_0000_0000_0000_0000_0000_0000_0000int) by {
            lemma_pow2_adds(63, 63);
        }
        if up_y < 73 {
            lemma_pow2_strictly_increases(53 + up_y as nat, 126);
        }
        if up_c < 73 {
            lemma_pow2_strictly_increases(53 + up_c as nat, 126);
        }
        assert(m * py <= 0x20_0000_0000_0000 * py) by (nonlinear_arith)
            requires
                m <= 0x20_0000_0000_0000,
        ;
        assert(EYE_HEIGHT_SIGNIFICAND * pc <= 0x20_0000_0000_0000 * pc) by (nonlinear_arith);
        lemma_pow2_pos(up_c as nat);
        assert(EYE_HEIGHT_SIGNIFICAND * pc > 0) by (nonlinear_arith)
            requires
                pc > 0,
        ;
    }
    let y: u128 = m as u128 * py;
    let c: u128 = EYE_HEIGHT_SIGNIFICAND as u128 * pc;
    if b >= 0x8000_0000_0000_0000 {
        if y == c {
            0
        } else if y > c {
            to_nearest_double(true, y - c, f)
        } else {
            to_nearest_double(false, c - y, f)
        }
    } else {
        to_nearest_double(false, c + y, f)
    }
}

/// The bits of the single nearest to `n * 2^scale`, halves to the even neighbour, for a
/// scale of at least -149 and a value below the largest single.
pub open spec fn nearest_single(n: nat, scale: int) -> u32 {
    let len = bit_len(n);
    if n == 0 {
        0
    } else if len + scale <= -126 {
        (n * pow2((scale + 149) as nat)) as u32
    } else {
        let significand = if len <= 24 {
            n * pow2((24 - len) as nat)
        } else {
            half_even(n, (len - 24) as nat)
        };
        ((len + scale + 126) * 0x80_0000 + (significand - 0x80_0000)) as u32
    }
}

/// The bits of the single nearest to a whole number.
pub open spec fn single_of_count(n: nat) -> u32 {
    nearest_single(n, 0)
}

/// The bits of twice a single that is not negative.
pub open spec fn doubled_single(b: u32) -> u32 {
    if b < 0x80_0000 {
        (2 * b) as u32
    } else if b >= 0x7F00_0000 {
        0x7F80_0000
    } else {
        (b + 0x80_0000) as u32
    }
}

/// The bits of the sum of two finite singles that are not negative.
pub open spec fn single_sum(a: u32, b: u32) -> u32 {
    let (x, y) = (single_scale(a), single_scale(b));
    let low = if x < y { x } else { y };
    nearest_single(single_significand(a) * pow2((x - low) as nat) + single_significand(b) * pow2((y - low) as nat), low)
}

/// The bits of a single of at least one, less one.
pub open spec fn single_less_one(b: u32) -> u32 {
    let scale = single_scale(b);
    if scale <= 0 {
        nearest_single((single_significand(b) - pow2((-scale) as nat)) as nat, scale)
    } else {
        nearest_single((single_significand(b) * pow2(scale as nat) - 1) as nat, 0)
    }
}

/// The bits of the single 1.
pub const SINGLE_ONE: u32 = 0x3F80_0000;

/// The bits of the single 2^32.
pub const SINGLE_LIMIT: u32 = 0x4F80_0000;

/// The bits of the single nearest to `n * 2^scale`.
fn to_nearest_single(n: u128, scale: i32) -> (b: u32)
    requires
        n < 0x8000_0000_0000_0000_0000_0000_0000_0000,
        -149 <= scale <= 126,
        bit_len(n as nat) + scale <= 100,
    ensures
        b == nearest_single(n as nat, scale as int),
        scale <= 0 && bit_len(n as nat) + scale <= 33 ==> b <= SINGLE_LIMIT + 0x80_0000,
{
    if n == 0 {
        return 0;
    }
    let len: u32 = digits(n);
    proof {
        powers();
        bit_len_bounds(n as nat);
        assert(pow2(127) == 0x8000_0000_0000_0000_0000_0000_0000_0000int) by {
            lemma_pow2_adds(64, 63);
            lemma2_to64();
        }
        bit_len_at_most(n as nat, 127);
    }
    if len as i32 + scale <= -126 {
        let up: u32 = (scale + 149) as u32;
        proof {
            lemma_pow2_adds(len as nat, up as nat);
            if len + up < 23 {
                lemma_pow2_strictly_increases((len + up) as nat, 23);
            }
            if len < 23 {
                lemma_pow2_strictly_increases(len as nat, 23);
            }
            lemma_pow2_pos(up as nat);
            let (a, p) = (pow2(len as nat), pow2(up as nat));
            assert(n * p < a * p) by (nonlinear_arith)
                requires
                    n < a,
                    p > 0,
            ;
        }
        return (n as u64 * two_to(up)) as u32;
    }
    let significand: u64 = if len <= 24 {
        proof {
            normalized(n as nat, 24);
            if len < 24 {
                lemma_pow2_strictly_increases(len as nat, 24);
            }
        }
        n as u64 * two_to(24 - len)
    } else {
        let q: u128 = rounded_even(n, len - 24);
        proof {
            rounding_stays(n as nat, 24, (len - 24) as nat);
            cut_stays(n as nat, 24);
        }
        q as u64
    };
    (len as i32 + scale + 126) as u32 * 0x80_0000 + (significand as u32 - 0x80_0000)
}

/// The bits of the single nearest to a whole number.
pub fn count_to_single(n: u32) -> (b: u32)
    ensures
        b == single_of_count(n as nat),
        b <= SINGLE_LIMIT,
        n > 0 ==> b >= SINGLE_ONE,
{
    proof {
        powers();
        bit_len_at_most(n as nat, 32);
    }
    let b: u32 = to_nearest_single(n as u128, 0);
    proof {
        if n > 0 {
            bit_len_bounds(n as nat);
            let len = bit_len(n as nat);
            if len <= 24 {
                normalized(n as nat, 24);
            } else {
                rounding_stays(n as nat, 24, (len - 24) as nat);
                cut_stays(n as nat, 24);
            }
        }
    }
    b
}

/// The bits of twice a single that is not negative.
pub fn double_single(b: u32) -> (r: u32)
    requires
        b <= 0x7F80_0000,
    ensures
        r == doubled_single(b),
        r <= 0x7F80_0000,
{
    if b < 0x80_0000 {
        2 * b
    } else if b >= 0x7F00_0000 {
        0x7F80_0000
    } else {
        b + 0x80_0000
    }
}

/// Beside a single more than 100 binary places up, another is less than half a step.
proof fn far_apart(high: nat, low: nat, d: nat, scale: int)
    requires
        0x80_0000 <= high < 0x100_0000,
        low < 0x100_0000,
        d > 100,
        scale + d >= -149,
        0 <= 150 + d + scale < 0x100,
    ensures
        nearest_single(high * pow2(d) + low, scale) == (150 + d + scale) * 0x80_0000 + (high - 0x80_0000),
{
    powers();
    lemma_pow2_strictly_increases(30, d);
    let p = pow2(d);
    let n = high * p + low;
    assert(n >= 0) by (nonlinear_arith)
        requires
            n == high * p + low,
    ;
    lemma_pow2_adds(23, d);
    lemma_pow2_adds(24, d);
    assert(0x80_0000 * p <= n < 0x100_0000 * p) by (nonlinear_arith)
        requires
            n == high * p + low,
            0x80_0000 <= high < 0x100_0000,
            low < p,
    ;
    bit_len_more_than(n, 23 + d);
    bit_len_at_most(n, 24 + d);
    vstd::arithmetic::div_mod::lemma_fundamental_div_mod_converse(n as int, p as int, high as int, low as int);
}

/// A sum in units of the lower of the two scales.
proof fn sum_in_units(a: u32, b: u32)
    ensures
        single_scale(a) <= single_scale(b) ==> single_sum(a, b) == nearest_single(
            single_significand(b) * pow2((single_scale(b) - single_scale(a)) as nat) + single_significand(a),
            single_scale(a),
        ),
        single_scale(b) <= single_scale(a) ==> single_sum(a, b) == nearest_single(
            single_significand(a) * pow2((single_scale(a) - single_scale(b)) as nat) + single_significand(b),
            single_scale(b),
        ),
{
    lemma2_to64();
    let one = pow2(0);
    let (m, n) = (single_significand(a), single_significand(b));
    assert(m * one == m && n * one == n) by (nonlinear_arith)
        requires
            one == 1,
    ;
}

/// The significand of a single that is not negative, and the power of two by which it is scaled.
fn parts_of_single(b: u32) -> (parts: (u32, i32))
    requires
        b <= SINGLE_LIMIT,
    ensures
        parts.0 == single_significand(b),
        parts.1 == single_scale(b),
        parts.0 < 0x100_0000,
        -149 <= parts.1 <= 9,
        parts.1 > -149 ==> parts.0 >= 0x80_0000,
{
    let e: u32 = b / 0x80_0000;
    if e == 0 {
        (b, -149)
    } else {
        (b % 0x80_0000 + 0x80_0000, e as i32 - 150)
    }
}

/// A smaller single is not scaled by more.
proof fn scales_in_order(a: u32, b: u32)
    requires
        b <= a <= SINGLE_LIMIT,
    ensures
        single_scale(b) <= single_scale(a),
{
    assert(b / 0x80_0000 <= a / 0x80_0000);
}

/// A single more than 100 binary places down is lost in a sum.
proof fn lost_in_sum(a: u32, b: u32)
    requires
        b <= a <= SINGLE_LIMIT,
        single_scale(a) - single_scale(b) > 100,
    ensures
        single_sum(a, b) == a,
{
    let (top, bottom) = (single_scale(a), single_scale(b));
    sum_in_units(a, b);
    far_apart(single_significand(a), single_significand(b), (top - bottom) as nat, bottom);
    assert((150 + top) * 0x80_0000 + (single_significand(a) - 0x80_0000) == a);
}

/// The bits of the sum of a single and one that is not larger, neither negative.
fn add_smaller(a: u32, b: u32) -> (r: u32)
    requires
        b <= a <= SINGLE_LIMIT,
    ensures
        r == single_sum(a, b),
{
    let (high, top): (u32, i32) = parts_of_single(a);
    let (low, bottom): (u32, i32) = parts_of_single(b);
    proof {
        scales_in_order(a, b);
    }
    let d: u32 = (top - bottom) as u32;
    if d > 100 {
        proof {
            lost_in_sum(a, b);
        }
        return a;
    }
    let p: u128 = wide_two_to(d);
    proof {
        sum_in_units(a, b);
        within_126(high as nat, low as nat, d as nat);
    }
    let n: u128 = high as u128 * p + low as u128;
    to_nearest_single(n, bottom)
}

/// Two significands of which one is shifted up by at most 100 places add up without loss.
proof fn within_126(high: nat, low: nat, d: nat)
    requires
        high < 0x100_0000,
        low < 0x100_0000,
        d <= 100,
    ensures
        high * pow2(d) + low < 0x4000_0000_0000_0000_0000_0000_0000_0000,
        bit_len(high * pow2(d) + low) <= 25 + d,
{
    powers();
    let p = pow2(d);
    lemma_pow2_pos(d);
    lemma_pow2_adds(24, d);
    lemma_pow2_unfold(25 + d);
    assert(pow2(126) == 0x4000_0000_0000_0000_0000_0000_0000_0000int) by {
        lemma_pow2_adds(63, 63);
    }
    lemma_pow2_strictly_increases(25 + d, 126);
    assert(high * p + low < 2 * (0x100_0000 * p)) by (nonlinear_arith)
        requires
            high < 0x100_0000,
            low < 0x100_0000,
            p > 0,
    ;
    bit_len_at_most(high * p + low, 25 + d);
}

/// The bits of the sum of two singles that are not negative.
pub fn add_singles(a: u32, b: u32) -> (r: u32)
    requires
        a <= SINGLE_LIMIT,
        b <= SINGLE_LIMIT,
    ensures
        r == single_sum(a, b),
{
    if b <= a {
        add_smaller(a, b)
    } else {
        add_smaller(b, a)
    }
}

/// The bits of a single of at least one, less one.
pub fn take_one(b: u32) -> (r: u32)
    requires
        SINGLE_ONE <= b <= SINGLE_LIMIT,
    ensures
        r == single_less_one(b),
        r <= b,
{
    let e: u32 = b / 0x80_0000;
    let m: u32 = b % 0x80_0000 + 0x80_0000;
    proof {
        lemma2_to64();
        powers();
    }
    if e <= 150 {
        let one: u64 = two_to(150 - e);
        proof {
            if e > 127 {
                lemma_pow2_strictly_increases((150 - e) as nat, 23);
            }
            bit_len_at_most((m - one) as nat, 24);
        }
        let n: u64 = m as u64 - one;
        let r: u32 = to_nearest_single(n as u128, e as i32 - 150);
        proof {
            if n > 0 {
                normalized(n as nat, 24);
                if bit_len(n as nat) == 24 {
                    let none = pow2(0);
                    assert(n * none == n) by (nonlinear_arith)
                        requires
                            none == 1,
                    ;
                }
            }
        }
        r
    } else {
        let k: u32 = e - 150;
        let p: u64 = two_to(k);
        proof {
            if k < 9 {
                lemma_pow2_strictly_increases(k as nat, 9);
            }
            assert(0x80_0000 * p <= m * p < 0x100_0000 * p) by (nonlinear_arith)
                requires
                    0x80_0000 <= m < 0x100_0000,
                    p > 0,
            ;
        }
        let n: u64 = m as u64 * p - 1;
        proof {
            less_one_of_large(m as nat, k as nat);
        }
        to_nearest_single(n as u128, 0)
    }
}

/// One less than a whole number above 2^24 rounds to no more than the number.
proof fn less_one_of_large(m: nat, k: nat)
    requires
        0x80_0000 <= m < 0x100_0000,
        1 <= k <= 9,
    ensures
        m * pow2(k) >= 1,
        bit_len((m * pow2(k) - 1) as nat) <= 24 + k,
        nearest_single((m * pow2(k) - 1) as nat, 0) <= (150 + k) * 0x80_0000 + (m - 0x80_0000),
{
    powers();
    lemma2_to64();
    let p = pow2(k);
    lemma_pow2_unfold(k);
    lemma_pow2_pos((k - 1) as nat);
    lemma_pow2_adds(24, k);
    lemma_pow2_adds(23, k);
    lemma_pow2_adds(22, k);
    assert(0x80_0000 * p <= m * p < 0x100_0000 * p) by (nonlinear_arith)
        requires
            0x80_0000 <= m < 0x100_0000,
            p > 0,
    ;
    let n = (m * p - 1) as nat;
    bit_len_at_most(n, 24 + k);
    bit_len_more_than(n, 22 + k);
    let len = bit_len(n);
    if len == 24 + k {
        assert(n == (m - 1) * p + (p - 1)) by (nonlinear_arith)
            requires
                n == m * p - 1,
        ;
        vstd::arithmetic::div_mod::lemma_fundamental_div_mod_converse(n as int, p as int, m - 1, p - 1);
        assert(half_even(n, k) <= m);
        cut_stays(n, 24);
    } else {
        assert(m == 0x80_0000) by {
            if m > 0x80_0000 {
                assert(m * p >= 0x80_0001 * p) by (nonlinear_arith)
                    requires
                        m >= 0x80_0001,
                ;
                bit_len_more_than(n, 23 + k);
            }
        }
        if k > 1 {
            rounding_stays(n, 24, (k - 1) as nat);
            cut_stays(n, 24);
        } else {
            normalized(n, 24);
        }
    }
}

/// A number shifted up by `k` digits has `k` more of them.
proof fn bit_len_shifted(n: nat, k: nat)
    requires
        n > 0,
    ensures
        bit_len(n * pow2(k)) == bit_len(n) + k,
{
    bit_len_bounds(n);
    let l = bit_len(n);
    lemma_pow2_adds((l - 1) as nat, k);
    lemma_pow2_adds(l, k);
    lemma_pow2_pos(k);
    let (a, b, p) = (pow2((l - 1) as nat), pow2(l), pow2(k));
    assert(a * p <= n * p < b * p) by (nonlinear_arith)
        requires
            a <= n < b,
            p > 0,
    ;
    bit_len_more_than(n * p, (l - 1 + k) as nat);
    bit_len_at_most(n * p, l + k);
}

/// The parts of a whole number below 2^24.
proof fn count_in_parts(n: nat)
    requires
        1 <= n < 0x100_0000,
    ensures
        ({
            let b = single_of_count(n);
            let k = (24 - bit_len(n)) as nat;
            &&& 1 <= bit_len(n) <= 24
            &&& SINGLE_ONE <= b <= SINGLE_LIMIT
            &&& single_exponent(b) == bit_len(n) + 126
            &&& single_significand(b) == n * pow2(k)
            &&& single_scale(b) == -k
        }),
{
    powers();
    bit_len_bounds(n);
    bit_len_at_most(n, 24);
    normalized(n, 24);
    let l = bit_len(n);
    let b = single_of_count(n);
    let s = n * pow2((24 - l) as nat);
    assert(b == (l + 126) * 0x80_0000 + (s - 0x80_0000));
    assert(single_exponent(b) == l + 126);
    assert(single_fraction(b) == s - 0x80_0000);
}

/// The parts of 2^24.
proof fn count_of_2_to_24()
    ensures
        single_of_count(0x100_0000) == 151 * 0x80_0000,
        single_exponent((151 * 0x80_0000) as u32) == 151,
        single_significand((151 * 0x80_0000) as u32) == 0x80_0000,
        single_scale((151 * 0x80_0000) as u32) == 1,
{
    powers();
    lemma2_to64();
    bit_len_at_most(0x100_0000, 25);
    bit_len_more_than(0x100_0000, 24);
    assert(half_even(0x100_0000, 1) == 0x80_0000);
}

/// Taking one from a whole number of at most 2^24 leaves the whole number before it.
pub proof fn counting_down(n: nat)
    requires
        1 <= n <= 0x100_0000,
    ensures
        single_less_one(single_of_count(n)) == single_of_count((n - 1) as nat),
        SINGLE_ONE <= single_of_count(n) <= SINGLE_LIMIT,
        single_of_count((n - 1) as nat) <= single_of_count(n),
        single_of_count(0) == 0,
{
    if n == 0x100_0000 {
        count_of_2_to_24();
        count_in_parts(0xFF_FFFF);
        let (s, two) = (0x80_0000nat, pow2(1));
        assert(two == 2) by {
            lemma2_to64();
        }
        assert(s * two - 1 == 0xFF_FFFF) by (nonlinear_arith)
            requires
                s == 0x80_0000,
                two == 2,
        ;
    } else {
        count_in_parts(n);
        let l = bit_len(n);
        let k = (24 - l) as nat;
        let m = (n - 1) as nat;
        let p = pow2(k);
        assert(n * p - p == m * p && (m == 0 ==> m * p == 0)) by (nonlinear_arith)
            requires
                m == n - 1,
        ;
        if m > 0 {
            bit_len_shifted(m, k);
            bit_len_bounds(n);
            bit_len_bounds(m);
            let j = bit_len(m);
            assert(j <= l) by {
                bit_len_at_most(m, l);
            }
            let (q, r) = (pow2((24 - j - k) as nat), pow2((24 - j) as nat));
            lemma_pow2_adds(k, (24 - j - k) as nat);
            assert((m * p) * q == m * r) by (nonlinear_arith)
                requires
                    p * q == r,
            ;
            assert(nearest_single(m * p, -k) == nearest_single(m, 0));
            count_in_parts(m);
            if j == l {
                assert(m * p <= n * p) by (nonlinear_arith)
                    requires
                        m <= n,
                ;
            }
        }
    }
}

/// Adding nothing to a whole number of at most 2^24 leaves it.
pub proof fn adding_nothing(n: nat)
    requires
        n <= 0x100_0000,
    ensures
        single_sum(single_of_count(n), 0) == single_of_count(n),
{
    let b = single_of_count(n);
    assert(single_scale(0) == -149 && single_significand(0) == 0);
    sum_in_units(b, 0);
    if n == 0x100_0000 {
        count_of_2_to_24();
        far_apart(0x80_0000, 0, 150, -149);
    } else if n > 0 {
        count_in_parts(n);
        powers();
        normalized(n, 24);
        far_apart(single_significand(b), 0, (single_scale(b) + 149) as nat, -149);
    } else {
        lemma2_to64();
    }
}

/// `d / 128`, cut off toward zero.
pub open spec fn over_128(d: int) -> int {
    if d >= 0 {
        d / 128
    } else {
        -((-d) / 128)
    }
}

/// `d / 128`, cut off toward zero.
pub fn trunc_128(d: i16) -> (q: i16)
    ensures
        q == over_128(d as int),
        -256 <= q <= 255,
{
    if d >= 0 {
        d / 128
    } else {
        (-((-(d as i32)) / 128)) as i16
    }
}

// Laws.

/// Adding a single to nothing leaves it.
pub proof fn nothing_and(b: u32)
    requires
        b < 0x7F80_0000,
    ensures
        single_sum(0, b) == b,
{
    powers();
    lemma2_to64();
    let (e, sig) = (single_exponent(b), single_significand(b));
    assert(single_scale(0) == -149 && single_significand(0) == 0);
    if e == 0 {
        assert(b < 0x80_0000);
        assert(single_sum(0, b) == nearest_single((0 * pow2(0) + b * pow2(0)) as nat, -149));
        assert(0 * pow2(0) + b * pow2(0) == b);
        if b > 0 {
            bit_len_at_most(b as nat, 23);
        }
    } else {
        let d = (e - 1) as nat;
        let p = pow2(d);
        let n = sig * p;
        lemma_pow2_pos(d);
        bit_len_at_most(sig, 24);
        bit_len_more_than(sig, 23);
        bit_len_shifted(sig, d);
        assert(single_sum(0, b) == nearest_single((0 * pow2(0) + n) as nat, -149));
        assert(b == e * 0x80_0000 + (sig - 0x80_0000));
        assert(bit_len(n) == 24 + d);
        if d > 0 {
            assert(p * sig == n) by (nonlinear_arith)
                requires
                    n == sig * p,
            ;
            vstd::arithmetic::div_mod::lemma_fundamental_div_mod_converse(n as int, p as int, sig as int, 0);
            assert(half_even(n, d) == sig);
        } else {
            assert(n * pow2(0) == sig) by (nonlinear_arith)
                requires
                    n == sig * p,
                    p == 1,
                    pow2(0) == 1,
            ;
        }
    }
}

/// The parts of the double `x / 32`: its sign, and a significand and an exponent that are worth
/// `n * 2^-5` together.
pub proof fn thirty_second_parts(x: i32)
    requires
        x != 0,
    ensures
        ({
            let n = (if x < 0 { -x } else { x as int }) as nat;
            let b = double_of_fixed(x as int, 5);
            &&& 1 <= bit_len(n) <= 32
            &&& double_negative(b) == (x < 0)
            &&& double_exponent(b) == 1017 + bit_len(n)
            &&& double_significand(b) == n * pow2((53 - bit_len(n)) as nat)
        }),
{
    powers();
    let n = (if x < 0 { -x } else { x as int }) as nat;
    bit_len_bounds(n);
    bit_len_at_most(n, 32);
    normalized(n, 53);
    let l = bit_len(n);
    let b = double_of_fixed(x as int, 5);
    let s = n * pow2((53 - l) as nat);
    let sign: int = if x < 0 { 0x8000_0000_0000_0000 } else { 0 };
    assert(b == sign + (1017 + l) * 0x10_0000_0000_0000 + (s - 0x10_0000_0000_0000));
}

/// Every number of 32nds is a double, and rounding or cutting off that double to 32nds gives it
/// back.
pub proof fn thirty_seconds_survive(x: i32)
    ensures
        fixed_rounded(double_of_fixed(x as int, 5)) == x,
        fixed_cut(double_of_fixed(x as int, 5)) == x,
{
    powers();
    if x == 0 {
        lemma_pow2_pos(1069);
        lemma_pow2_pos(1068);
        lemma_pow2_unfold(1069);
        let (h, p) = (pow2(1068), pow2(1069));
        assert(h / p == 0 && 0int / p as int == 0) by (nonlinear_arith)
            requires
                p == 2 * h,
                h > 0,
        ;
    } else {
        let n = (if x < 0 { -x } else { x as int }) as nat;
        thirty_second_parts(x);
        let m = (53 - bit_len(n)) as nat;
        lemma_pow2_pos(m);
        lemma_pow2_pos((m - 1) as nat);
        lemma_pow2_unfold(m);
        let (p, h) = (pow2(m), pow2((m - 1) as nat));
        assert(p * n == n * p) by (nonlinear_arith);
        vstd::arithmetic::div_mod::lemma_fundamental_div_mod_converse((n * p + h) as int, p as int, n as int, h as int);
        vstd::arithmetic::div_mod::lemma_fundamental_div_mod_converse((n * p) as int, p as int, n as int, 0);
        assert(half_up(n * p, m) == n);
    }
}

/// A double that is worth `m / 2^k` in 32nds rounds to the nearest whole number, halves away
/// from zero, and is held at the ends of the range.
pub proof fn rounding_is_nearest(b: u64, k: nat, r: nat)
    requires
        double_exponent(b) != 0x7FF,
        double_scale(b) + 5 == -k,
        k > 0,
        (2 * r - 1) * pow2(k) <= 2 * double_significand(b),
        2 * double_significand(b) < (2 * r + 1) * pow2(k),
    ensures
        !double_negative(b) ==> fixed_rounded(b) == if r > 0x7FFF_FFFF { 0x7FFF_FFFF } else { r as int },
        double_negative(b) ==> fixed_rounded(b) == if r > 0x8000_0000 { -0x8000_0000 } else { -r },
{
    let (s, p, h) = (double_significand(b) as int, pow2(k) as int, pow2((k - 1) as nat) as int);
    lemma_pow2_unfold(k);
    lemma_pow2_pos(k);
    lemma_pow2_pos((k - 1) as nat);
    let x = s + h - r * p;
    assert(0 <= x < p && s + h == p * r + x) by (nonlinear_arith)
        requires
            (2 * r - 1) * p <= 2 * s,
            2 * s < (2 * r + 1) * p,
            p == 2 * h,
            x == s + h - r * p,
    ;
    assert(p * r == r * p) by (nonlinear_arith);
    vstd::arithmetic::div_mod::lemma_fundamental_div_mod_converse(s + h, p, r as int, x);
}

/// Doubling the bits of a single doubles what it is worth.
pub proof fn doubling_doubles(b: u32)
    requires
        b < 0x7F00_0000,
    ensures
        doubled_single(b) < 0x7F80_0000,
        b >= 0x80_0000 ==> single_significand(doubled_single(b)) == single_significand(b)
            && single_scale(doubled_single(b)) == single_scale(b) + 1,
        b < 0x80_0000 ==> single_significand(doubled_single(b)) == 2 * single_significand(b)
            && single_scale(doubled_single(b)) == single_scale(b),
{
}

/// The parts of the single `x / 16`: its sign, and a significand and a scale that are worth
/// `n * 2^-4` together.
pub proof fn sixteenth_parts(x: i16)
    requires
        x != 0,
    ensures
        ({
            let n = (if x < 0 { -x } else { x as int }) as nat;
            let b = single_of_sixteenths(x as int);
            &&& 1 <= bit_len(n) <= 16
            &&& single_negative(b) == (x < 0)
            &&& single_significand(b) == n * pow2((24 - bit_len(n)) as nat)
            &&& single_scale(b) + (24 - bit_len(n)) == -4
        }),
{
    powers();
    lemma2_to64();
    let n = (if x < 0 { -x } else { x as int }) as nat;
    bit_len_bounds(n);
    bit_len_at_most(n, 16);
    normalized(n, 24);
    let l = bit_len(n);
    let b = single_of_sixteenths(x as int);
    let s = n * pow2((24 - l) as nat);
    let sign: int = if x < 0 { 0x8000_0000 } else { 0 };
    assert(b == sign + (122 + l) * 0x80_0000 + (s - 0x80_0000));
    assert(single_exponent(b) == 122 + l);
}

/// A sixteenth of a block that becomes a single becomes the same sixteenth again.
pub proof fn sixteenths_survive(x: i16)
    requires
        0 <= x <= 15,
    ensures
        sixteenths(single_of_sixteenths(x as int)) == x,
{
    if x == 0 {
        lemma_pow2_pos(145);
        let p = pow2(145);
        assert(0int / p as int == 0) by (nonlinear_arith)
            requires
                p > 0,
        ;
    } else {
        sixteenth_parts(x);
        let n = x as nat;
        let m = (24 - bit_len(n)) as nat;
        let p = pow2(m);
        lemma_pow2_pos(m);
        assert(p * n == n * p) by (nonlinear_arith);
        vstd::arithmetic::div_mod::lemma_fundamental_div_mod_converse((n * p) as int, p as int, n as int, 0);
        powers();
        let b = single_of_sixteenths(x as int);
        assert(single_exponent(b) != 0xFF);
    }
}

/// A double that a single can hold becomes that single: the sign and the top of the fraction
/// stay, and the exponent is counted from its own middle.
pub proof fn narrowing_keeps(b: u64)
    requires
        897 <= double_exponent(b) <= 1150,
        double_fraction(b) % 0x2000_0000 == 0,
    ensures
        single_negative(narrowed(b)) == double_negative(b),
        single_exponent(narrowed(b)) == double_exponent(b) - 896,
        single_fraction(narrowed(b)) == double_fraction(b) / 0x2000_0000,
{
    powers();
    let (e, f) = ((double_exponent(b) - 896) as nat, double_fraction(b));
    let n = e * 0x10_0000_0000_0000 + f;
    let q = e * 0x80_0000 + f / 0x2000_0000;
    assert(n == q * 0x2000_0000);
    assert(half_even(n, 29) == q);
    assert(f / 0x2000_0000 < 0x80_0000);
    assert(q <= 0x7F80_0000);
}

} // verus!
