use vstd::arithmetic::power2::{lemma2_to64, lemma_pow2_pos, lemma2_to64_rest, lemma_pow2_strictly_increases, lemma_pow2_unfold, pow2};
use vstd::arithmetic::power::{lemma_pow0, lemma_pow_positive, pow};
use vstd::prelude::*;
use vstd::std_specs::bits::{u16_trailing_zeros, u32_trailing_zeros, u64_trailing_zeros, u8_trailing_zeros};

verus! {

/// `r` is the position of the highest set bit of the positive number `v`.
pub open spec fn is_floor_log2(v: int, r: int) -> bool {
    &&& 0 <= r
    &&& pow2(r as nat) <= v < pow2((r + 1) as nat)
}

proof fn lemma_halve(p: int, x: int, v: int)
    requires
        p > 0,
        x >= 2,
        p * x <= v,
        v < p * (x + 1),
    ensures
        (2 * p) * (x / 2) <= v,
        v < (2 * p) * (x / 2 + 1),
{
    let h = x / 2;
    assert(x == 2 * h || x == 2 * h + 1);
    assert(p * (2 * h) <= p * x) by (nonlinear_arith)
        requires
            p > 0,
            2 * h <= x,
    ;
    assert(p * (x + 1) <= p * (2 * h + 2)) by (nonlinear_arith)
        requires
            p > 0,
            x + 1 <= 2 * h + 2,
    ;
    assert((2 * p) * h == p * (2 * h)) by (nonlinear_arith);
    assert((2 * p) * (h + 1) == p * (2 * h + 2)) by (nonlinear_arith);
}

/// Halves `v` until one is left, counting the halvings.
fn floor_log2_of(v: u64) -> (r: u32)
    requires
        v > 0,
    ensures
        r < 64,
        is_floor_log2(v as int, r as int),
{
    let mut x: u64 = v;
    let mut r: u32 = 0;
    proof {
        lemma2_to64();
    }
    while x > 1
        invariant
            1 <= x <= v,
            r < 64,
            pow2(r as nat) * x <= v,
            v < pow2(r as nat) * (x + 1),
        decreases x,
    {
        proof {
            lemma_pow2_pos(r as nat);
            lemma_pow2_unfold((r + 1) as nat);
            lemma_halve(pow2(r as nat) as int, x as int, v as int);
            assert(pow2((r + 1) as nat) <= v) by (nonlinear_arith)
                requires
                    pow2((r + 1) as nat) * (x / 2) <= v,
                    x / 2 >= 1,
            ;
            if r + 1 >= 64 {
                lemma2_to64_rest();
                if r + 1 > 64 {
                    lemma_pow2_strictly_increases(64, (r + 1) as nat);
                }
            }
        }
        x = x / 2;
        r = r + 1;
    }
    proof {
        lemma_pow2_unfold((r + 1) as nat);
        assert(x == 1);
    }
    r
}

/// Number of set bits of `x`.
pub open spec fn ones(x: nat) -> nat
    decreases x,
{
    if x == 0 {
        0
    } else {
        x % 2 + ones(x / 2)
    }
}

/// The lowest `n` digits of `x` in base `base`, in reverse order.
pub open spec fn reverse_digits(x: nat, base: nat, n: nat) -> nat
    decreases n,
{
    if n == 0 {
        0
    } else {
        (x % base) * pow(base as int, (n - 1) as nat) as nat + reverse_digits(x / base, base, (n - 1) as nat)
    }
}

/// Counts set bits by shifting them out one at a time.
fn count_ones_of(v: u64) -> (r: u32)
    ensures
        r == ones(v as nat),
        r <= 64,
{
    let mut x: u64 = v;
    let mut c: u32 = 0;
    let mut k: u32 = 0;
    proof {
        lemma2_to64();
        lemma2_to64_rest();
    }
    while x != 0
        invariant
            c + ones(x as nat) == ones(v as nat),
            c <= k,
            k <= 64,
            x < pow2((64 - k) as nat),
        decreases x,
    {
        proof {
            lemma2_to64();
            if k == 64 {
                assert(false);
            }
            lemma_pow2_unfold((64 - k) as nat);
        }
        c = c + (x % 2) as u32;
        x = x / 2;
        k = k + 1;
    }
    c
}

proof fn lemma_reverse_step(r: int, d: int, b: int, m: nat, rest: int)
    requires
        m > 0,
    ensures
        r * pow(b, m) + (d * pow(b, (m - 1) as nat) + rest) == (r * b + d) * pow(b, (m - 1) as nat)
            + rest,
{
    assert(pow(b, m) == b * pow(b, (m - 1) as nat)) by {
        reveal(pow);
    }
    let p = pow(b, (m - 1) as nat);
    assert(r * (b * p) + d * p == (r * b + d) * p) by (nonlinear_arith);
}

/// Reverses the lowest `n` base-`base` digits of `v`, reading them off from the
/// least significant end.
fn reverse_digits_of(v: u64, base: u64, n: u32) -> (r: u64)
    requires
        base == 2 || base == 256,
        base == 2 ==> n <= 64,
        base == 256 ==> n <= 8,
    ensures
        r == reverse_digits(v as nat, base as nat, n as nat),
        base == 2 ==> r < pow2(n as nat),
        base == 256 ==> r < pow2((8 * n) as nat),
{
    let mut x: u64 = v;
    let mut r: u64 = 0;
    let mut k: u32 = 0;
    proof {
        lemma_pow0(base as int);
        lemma_digit_bound(base as int, n as nat);
    }
    while k < n
        invariant
            base == 2 || base == 256,
            base == 2 ==> n <= 64,
            base == 256 ==> n <= 8,
            k <= n,
            r < pow(base as int, k as nat),
            reverse_digits(v as nat, base as nat, n as nat) == r * pow(base as int, (n - k) as nat)
                + reverse_digits(x as nat, base as nat, (n - k) as nat),
        decreases n - k,
    {
        let d = x % base;
        proof {
            let m = (n - k) as nat;
            lemma_pow_positive(base as int, (m - 1) as nat);
            assert(reverse_digits(x as nat, base as nat, m) == (x as nat % base as nat) * pow(
                base as int,
                (m - 1) as nat,
            ) as nat + reverse_digits(x as nat / base as nat, base as nat, (m - 1) as nat));
            lemma_reverse_step(
                r as int,
                d as int,
                base as int,
                (n - k) as nat,
                reverse_digits((x / base) as nat, base as nat, (n - k - 1) as nat) as int,
            );
            assert(pow(base as int, (k + 1) as nat) == base * pow(base as int, k as nat)) by {
                reveal(pow);
            }
            assert(r * base + d < pow(base as int, (k + 1) as nat)) by (nonlinear_arith)
                requires
                    r < pow(base as int, k as nat),
                    d < base,
                    pow(base as int, (k + 1) as nat) == base * pow(base as int, k as nat),
            ;
            lemma_pow_increases(base as int, (k + 1) as nat, n as nat);
            lemma_digit_bound(base as int, n as nat);
        }
        r = r * base + d;
        x = x / base;
        k = k + 1;
    }
    proof {
        lemma_pow0(base as int);
        assert(k == n);
        assert(reverse_digits(x as nat, base as nat, 0) == 0);
        assert(r * pow(base as int, 0) == r);
        lemma_pow_as_pow2(base as int, n as nat);
    }
    r
}

/// Powers of the two digit bases as powers of two.
proof fn lemma_pow_as_pow2(base: int, n: nat)
    requires
        base == 2 || base == 256,
    ensures
        base == 2 ==> pow(base, n) == pow2(n),
        base == 256 ==> pow(base, n) == pow2(8 * n),
{
    vstd::arithmetic::power2::lemma_pow2(n);
    vstd::arithmetic::power2::lemma_pow2(8);
    vstd::arithmetic::power2::lemma_pow2(8 * n);
    lemma2_to64();
    vstd::arithmetic::power::lemma_pow_multiplies(2, 8, n);
}

/// `base^n` fits in 64 bits for the digit sizes used here.
proof fn lemma_digit_bound(base: int, n: nat)
    requires
        base == 2 || base == 256,
        base == 2 ==> n <= 64,
        base == 256 ==> n <= 8,
    ensures
        pow(base, n) <= 0x1_0000_0000_0000_0000,
{
    lemma2_to64();
    lemma2_to64_rest();
    vstd::arithmetic::power2::lemma_pow2(n);
    if base == 2 {
        lemma_pow2_le(n, 64);
        vstd::arithmetic::power2::lemma_pow2(64);
    } else {
        vstd::arithmetic::power::lemma_pow_multiplies(2, 8, n);
        vstd::arithmetic::power2::lemma_pow2(8);
        vstd::arithmetic::power2::lemma_pow2((8 * n) as nat);
        lemma_pow2_le((8 * n) as nat, 64);
        vstd::arithmetic::power2::lemma_pow2(64);
    }
}

proof fn lemma_pow2_le(a: nat, b: nat)
    requires
        a <= b,
    ensures
        pow2(a) <= pow2(b),
{
    if a < b {
        lemma_pow2_strictly_increases(a, b);
    }
}

/// `base^k <= base^n` for `k <= n`.
proof fn lemma_pow_increases(base: int, k: nat, n: nat)
    requires
        base >= 2,
        k <= n,
    ensures
        pow(base, k) <= pow(base, n),
{
    if k < n {
        vstd::arithmetic::power::lemma_pow_strictly_increases(base as nat, k, n);
    }
}

/// Position of the highest set bit of a positive `v`.
pub fn floor_log2_i8(v: i8) -> (r: i32)
    requires
        v > 0,
    ensures
        is_floor_log2(v as int, r as int),
{
    floor_log2_of(v as u64) as i32
}

/// Position of the highest set bit of a positive `v`.
pub fn floor_log2_i16(v: i16) -> (r: i32)
    requires
        v > 0,
    ensures
        is_floor_log2(v as int, r as int),
{
    floor_log2_of(v as u64) as i32
}

/// Position of the highest set bit of a positive `v`.
pub fn floor_log2_i32(v: i32) -> (r: i32)
    requires
        v > 0,
    ensures
        is_floor_log2(v as int, r as int),
{
    floor_log2_of(v as u64) as i32
}

/// Position of the highest set bit of a positive `v`.
pub fn floor_log2_i64(v: i64) -> (r: i32)
    requires
        v > 0,
    ensures
        is_floor_log2(v as int, r as int),
{
    floor_log2_of(v as u64) as i32
}

/// Position of the highest set bit of a positive `v`.
pub fn floor_log2_u8(v: u8) -> (r: i32)
    requires
        v > 0,
    ensures
        is_floor_log2(v as int, r as int),
{
    floor_log2_of(v as u64) as i32
}

/// Position of the highest set bit of a positive `v`.
pub fn floor_log2_u16(v: u16) -> (r: i32)
    requires
        v > 0,
    ensures
        is_floor_log2(v as int, r as int),
{
    floor_log2_of(v as u64) as i32
}

/// Position of the highest set bit of a positive `v`.
pub fn floor_log2_u32(v: u32) -> (r: i32)
    requires
        v > 0,
    ensures
        is_floor_log2(v as int, r as int),
{
    floor_log2_of(v as u64) as i32
}

/// Position of the highest set bit of a positive `v`.
pub fn floor_log2_u64(v: u64) -> (r: i32)
    requires
        v > 0,
    ensures
        is_floor_log2(v as int, r as int),
{
    floor_log2_of(v as u64) as i32
}

/// Number of zero bits below the lowest set bit; the bit width for zero.
pub fn trailing_zeros_i8(v: i8) -> (r: i32)
    ensures
        r == u8_trailing_zeros(v as u8),
{
    (v as u8).trailing_zeros() as i32
}

/// Number of zero bits below the lowest set bit; the bit width for zero.
pub fn trailing_zeros_i16(v: i16) -> (r: i32)
    ensures
        r == u16_trailing_zeros(v as u16),
{
    (v as u16).trailing_zeros() as i32
}

/// Number of zero bits below the lowest set bit; the bit width for zero.
pub fn trailing_zeros_i32(v: i32) -> (r: i32)
    ensures
        r == u32_trailing_zeros(v as u32),
{
    (v as u32).trailing_zeros() as i32
}

/// Number of zero bits below the lowest set bit; the bit width for zero.
pub fn trailing_zeros_i64(v: i64) -> (r: i32)
    ensures
        r == u64_trailing_zeros(v as u64),
{
    (v as u64).trailing_zeros() as i32
}

/// Number of zero bits below the lowest set bit; the bit width for zero.
pub fn trailing_zeros_u8(v: u8) -> (r: i32)
    ensures
        r == u8_trailing_zeros(v),
{
    v.trailing_zeros() as i32
}

/// Number of zero bits below the lowest set bit; the bit width for zero.
pub fn trailing_zeros_u16(v: u16) -> (r: i32)
    ensures
        r == u16_trailing_zeros(v),
{
    v.trailing_zeros() as i32
}

/// Number of zero bits below the lowest set bit; the bit width for zero.
pub fn trailing_zeros_u32(v: u32) -> (r: i32)
    ensures
        r == u32_trailing_zeros(v),
{
    v.trailing_zeros() as i32
}

/// Number of zero bits below the lowest set bit; the bit width for zero.
pub fn trailing_zeros_u64(v: u64) -> (r: i32)
    ensures
        r == u64_trailing_zeros(v),
{
    v.trailing_zeros() as i32
}

/// Number of set bits of `v`.
pub fn count_ones_i8(v: i8) -> (r: i32)
    ensures
        r == ones((v as u8) as nat),
{
    count_ones_of(v as u8 as u64) as i32
}

/// Number of set bits of `v`.
pub fn count_ones_i16(v: i16) -> (r: i32)
    ensures
        r == ones((v as u16) as nat),
{
    count_ones_of(v as u16 as u64) as i32
}

/// Number of set bits of `v`.
pub fn count_ones_i32(v: i32) -> (r: i32)
    ensures
        r == ones((v as u32) as nat),
{
    count_ones_of(v as u32 as u64) as i32
}

/// Number of set bits of `v`.
pub fn count_ones_i64(v: i64) -> (r: i32)
    ensures
        r == ones((v as u64) as nat),
{
    count_ones_of(v as u64 as u64) as i32
}

/// Number of set bits of `v`.
pub fn count_ones_u8(v: u8) -> (r: i32)
    ensures
        r == ones(v as nat),
{
    count_ones_of(v as u64) as i32
}

/// Number of set bits of `v`.
pub fn count_ones_u16(v: u16) -> (r: i32)
    ensures
        r == ones(v as nat),
{
    count_ones_of(v as u64) as i32
}

/// Number of set bits of `v`.
pub fn count_ones_u32(v: u32) -> (r: i32)
    ensures
        r == ones(v as nat),
{
    count_ones_of(v as u64) as i32
}

/// Number of set bits of `v`.
pub fn count_ones_u64(v: u64) -> (r: i32)
    ensures
        r == ones(v as nat),
{
    count_ones_of(v) as i32
}

/// 1 when `v` has an odd number of set bits, else 0.
pub fn parity_i8(v: i8) -> (r: i32)
    ensures
        r == ones((v as u8) as nat) % 2,
{
    (count_ones_of(v as u8 as u64) % 2) as i32
}

/// 1 when `v` has an odd number of set bits, else 0.
pub fn parity_i16(v: i16) -> (r: i32)
    ensures
        r == ones((v as u16) as nat) % 2,
{
    (count_ones_of(v as u16 as u64) % 2) as i32
}

/// 1 when `v` has an odd number of set bits, else 0.
pub fn parity_i32(v: i32) -> (r: i32)
    ensures
        r == ones((v as u32) as nat) % 2,
{
    (count_ones_of(v as u32 as u64) % 2) as i32
}

/// 1 when `v` has an odd number of set bits, else 0.
pub fn parity_i64(v: i64) -> (r: i32)
    ensures
        r == ones((v as u64) as nat) % 2,
{
    (count_ones_of(v as u64 as u64) % 2) as i32
}

/// 1 when `v` has an odd number of set bits, else 0.
pub fn parity_u8(v: u8) -> (r: i32)
    ensures
        r == ones(v as nat) % 2,
{
    (count_ones_of(v as u64) % 2) as i32
}

/// 1 when `v` has an odd number of set bits, else 0.
pub fn parity_u16(v: u16) -> (r: i32)
    ensures
        r == ones(v as nat) % 2,
{
    (count_ones_of(v as u64) % 2) as i32
}

/// 1 when `v` has an odd number of set bits, else 0.
pub fn parity_u32(v: u32) -> (r: i32)
    ensures
        r == ones(v as nat) % 2,
{
    (count_ones_of(v as u64) % 2) as i32
}

/// 1 when `v` has an odd number of set bits, else 0.
pub fn parity_u64(v: u64) -> (r: i32)
    ensures
        r == ones(v as nat) % 2,
{
    (count_ones_of(v) % 2) as i32
}

/// Reverses the byte order of `v`.
pub fn swap_bytes_i8(v: i8) -> (r: i8)
    ensures
        r == reverse_digits((v as u8) as nat, 256, 1) as u8 as i8,
{
    let r = reverse_digits_of(v as u8 as u64, 256, 1);
    proof {
        lemma2_to64();
        lemma2_to64_rest();
    }
    r as u8 as i8
}

/// Reverses the byte order of `v`.
pub fn swap_bytes_i16(v: i16) -> (r: i16)
    ensures
        r == reverse_digits((v as u16) as nat, 256, 2) as u16 as i16,
{
    let r = reverse_digits_of(v as u16 as u64, 256, 2);
    proof {
        lemma2_to64();
        lemma2_to64_rest();
    }
    r as u16 as i16
}

/// Reverses the byte order of `v`.
pub fn swap_bytes_i32(v: i32) -> (r: i32)
    ensures
        r == reverse_digits((v as u32) as nat, 256, 4) as u32 as i32,
{
    let r = reverse_digits_of(v as u32 as u64, 256, 4);
    proof {
        lemma2_to64();
        lemma2_to64_rest();
    }
    r as u32 as i32
}

/// Reverses the byte order of `v`.
pub fn swap_bytes_i64(v: i64) -> (r: i64)
    ensures
        r == reverse_digits((v as u64) as nat, 256, 8) as u64 as i64,
{
    let r = reverse_digits_of(v as u64 as u64, 256, 8);
    proof {
        lemma2_to64();
        lemma2_to64_rest();
    }
    r as u64 as i64
}

/// Reverses the byte order of `v`.
pub fn swap_bytes_u8(v: u8) -> (r: u8)
    ensures
        r == reverse_digits(v as nat, 256, 1),
{
    let r = reverse_digits_of(v as u64, 256, 1);
    proof {
        lemma2_to64();
        lemma2_to64_rest();
    }
    r as u8
}

/// Reverses the byte order of `v`.
pub fn swap_bytes_u16(v: u16) -> (r: u16)
    ensures
        r == reverse_digits(v as nat, 256, 2),
{
    let r = reverse_digits_of(v as u64, 256, 2);
    proof {
        lemma2_to64();
        lemma2_to64_rest();
    }
    r as u16
}

/// Reverses the byte order of `v`.
pub fn swap_bytes_u32(v: u32) -> (r: u32)
    ensures
        r == reverse_digits(v as nat, 256, 4),
{
    let r = reverse_digits_of(v as u64, 256, 4);
    proof {
        lemma2_to64();
        lemma2_to64_rest();
    }
    r as u32
}

/// Reverses the byte order of `v`.
pub fn swap_bytes_u64(v: u64) -> (r: u64)
    ensures
        r == reverse_digits(v as nat, 256, 8),
{
    let r = reverse_digits_of(v, 256, 8);
    proof {
        lemma2_to64();
        lemma2_to64_rest();
    }
    r
}

/// Reverses the bit order of `v`.
pub fn reverse_bits_i8(v: i8) -> (r: i8)
    ensures
        r == reverse_digits((v as u8) as nat, 2, 8) as u8 as i8,
{
    let r = reverse_digits_of(v as u8 as u64, 2, 8);
    proof {
        lemma2_to64();
        lemma2_to64_rest();
    }
    r as u8 as i8
}

/// Reverses the bit order of `v`.
pub fn reverse_bits_i16(v: i16) -> (r: i16)
    ensures
        r == reverse_digits((v as u16) as nat, 2, 16) as u16 as i16,
{
    let r = reverse_digits_of(v as u16 as u64, 2, 16);
    proof {
        lemma2_to64();
        lemma2_to64_rest();
    }
    r as u16 as i16
}

/// Reverses the bit order of `v`.
pub fn reverse_bits_i32(v: i32) -> (r: i32)
    ensures
        r == reverse_digits((v as u32) as nat, 2, 32) as u32 as i32,
{
    let r = reverse_digits_of(v as u32 as u64, 2, 32);
    proof {
        lemma2_to64();
        lemma2_to64_rest();
    }
    r as u32 as i32
}

/// Reverses the bit order of `v`.
pub fn reverse_bits_i64(v: i64) -> (r: i64)
    ensures
        r == reverse_digits((v as u64) as nat, 2, 64) as u64 as i64,
{
    let r = reverse_digits_of(v as u64 as u64, 2, 64);
    proof {
        lemma2_to64();
        lemma2_to64_rest();
    }
    r as u64 as i64
}

/// Reverses the bit order of `v`.
pub fn reverse_bits_u8(v: u8) -> (r: u8)
    ensures
        r == reverse_digits(v as nat, 2, 8),
{
    let r = reverse_digits_of(v as u64, 2, 8);
    proof {
        lemma2_to64();
        lemma2_to64_rest();
    }
    r as u8
}

/// Reverses the bit order of `v`.
pub fn reverse_bits_u16(v: u16) -> (r: u16)
    ensures
        r == reverse_digits(v as nat, 2, 16),
{
    let r = reverse_digits_of(v as u64, 2, 16);
    proof {
        lemma2_to64();
        lemma2_to64_rest();
    }
    r as u16
}

/// Reverses the bit order of `v`.
pub fn reverse_bits_u32(v: u32) -> (r: u32)
    ensures
        r == reverse_digits(v as nat, 2, 32),
{
    let r = reverse_digits_of(v as u64, 2, 32);
    proof {
        lemma2_to64();
        lemma2_to64_rest();
    }
    r as u32
}

/// Reverses the bit order of `v`.
pub fn reverse_bits_u64(v: u64) -> (r: u64)
    ensures
        r == reverse_digits(v as nat, 2, 64),
{
    let r = reverse_digits_of(v, 2, 64);
    proof {
        lemma2_to64();
        lemma2_to64_rest();
    }
    r
}

/// One round of the downward involution: `r ^ ((r & mask) >> shift)`.
pub open spec fn fold_down(r: u64, mask: u64, shift: u64) -> u64 {
    r ^ ((r & mask) >> shift)
}

/// The downward involution over the low `width` bytes of `v`, computed on 64 bits.
pub open spec fn downward_involution_bits(v: u64, width: int) -> u64 {
    let r1 = if width > 4 { v ^ (v >> 32u64) } else { v };
    let r2 = if width > 2 { fold_down(r1, 0xffff0000ffff0000u64, 16) } else { r1 };
    let r3 = if width > 1 { fold_down(r2, 0xff00ff00ff00ff00u64, 8) } else { r2 };
    let r4 = fold_down(r3, 0xf0f0f0f0f0f0f0f0u64, 4);
    let r5 = fold_down(r4, 0xccccccccccccccccu64, 2);
    fold_down(r5, 0xaaaaaaaaaaaaaaaau64, 1)
}


/// Mixes each bit into the bits below it; keeps the highest set bit and is its
/// own inverse.
pub fn downward_involution_i8(v: i8) -> (r: i8)
    ensures
        r == downward_involution_bits(v as u64, 1) as i8,
{
    let mut r: u64 = v as u64;
    r ^= (r & 0xf0f0f0f0f0f0f0f0u64) >> 4u64;
    r ^= (r & 0xccccccccccccccccu64) >> 2u64;
    r ^= (r & 0xaaaaaaaaaaaaaaaau64) >> 1u64;
    r as i8
}

/// Mixes each bit into the bits below it; keeps the highest set bit and is its
/// own inverse.
pub fn downward_involution_i16(v: i16) -> (r: i16)
    ensures
        r == downward_involution_bits(v as u64, 2) as i16,
{
    let mut r: u64 = v as u64;
    r ^= (r & 0xff00ff00ff00ff00u64) >> 8u64;
    r ^= (r & 0xf0f0f0f0f0f0f0f0u64) >> 4u64;
    r ^= (r & 0xccccccccccccccccu64) >> 2u64;
    r ^= (r & 0xaaaaaaaaaaaaaaaau64) >> 1u64;
    r as i16
}

/// Mixes each bit into the bits below it; keeps the highest set bit and is its
/// own inverse.
pub fn downward_involution_i32(v: i32) -> (r: i32)
    ensures
        r == downward_involution_bits(v as u64, 4) as i32,
{
    let mut r: u64 = v as u64;
    r ^= (r & 0xffff0000ffff0000u64) >> 16u64;
    r ^= (r & 0xff00ff00ff00ff00u64) >> 8u64;
    r ^= (r & 0xf0f0f0f0f0f0f0f0u64) >> 4u64;
    r ^= (r & 0xccccccccccccccccu64) >> 2u64;
    r ^= (r & 0xaaaaaaaaaaaaaaaau64) >> 1u64;
    r as i32
}

/// Mixes each bit into the bits below it; keeps the highest set bit and is its
/// own inverse.
pub fn downward_involution_i64(v: i64) -> (r: i64)
    ensures
        r == downward_involution_bits(v as u64, 8) as i64,
{
    let mut r: u64 = v as u64;
    r ^= r >> 32u64;
    r ^= (r & 0xffff0000ffff0000u64) >> 16u64;
    r ^= (r & 0xff00ff00ff00ff00u64) >> 8u64;
    r ^= (r & 0xf0f0f0f0f0f0f0f0u64) >> 4u64;
    r ^= (r & 0xccccccccccccccccu64) >> 2u64;
    r ^= (r & 0xaaaaaaaaaaaaaaaau64) >> 1u64;
    r as i64
}

/// Mixes each bit into the bits below it; keeps the highest set bit and is its
/// own inverse.
pub fn downward_involution_u8(v: u8) -> (r: u8)
    ensures
        r == downward_involution_bits(v as u64, 1) as u8,
{
    let mut r: u64 = v as u64;
    r ^= (r & 0xf0f0f0f0f0f0f0f0u64) >> 4u64;
    r ^= (r & 0xccccccccccccccccu64) >> 2u64;
    r ^= (r & 0xaaaaaaaaaaaaaaaau64) >> 1u64;
    r as u8
}

/// Mixes each bit into the bits below it; keeps the highest set bit and is its
/// own inverse.
pub fn downward_involution_u16(v: u16) -> (r: u16)
    ensures
        r == downward_involution_bits(v as u64, 2) as u16,
{
    let mut r: u64 = v as u64;
    r ^= (r & 0xff00ff00ff00ff00u64) >> 8u64;
    r ^= (r & 0xf0f0f0f0f0f0f0f0u64) >> 4u64;
    r ^= (r & 0xccccccccccccccccu64) >> 2u64;
    r ^= (r & 0xaaaaaaaaaaaaaaaau64) >> 1u64;
    r as u16
}

/// Mixes each bit into the bits below it; keeps the highest set bit and is its
/// own inverse.
pub fn downward_involution_u32(v: u32) -> (r: u32)
    ensures
        r == downward_involution_bits(v as u64, 4) as u32,
{
    let mut r: u64 = v as u64;
    r ^= (r & 0xffff0000ffff0000u64) >> 16u64;
    r ^= (r & 0xff00ff00ff00ff00u64) >> 8u64;
    r ^= (r & 0xf0f0f0f0f0f0f0f0u64) >> 4u64;
    r ^= (r & 0xccccccccccccccccu64) >> 2u64;
    r ^= (r & 0xaaaaaaaaaaaaaaaau64) >> 1u64;
    r as u32
}

/// Mixes each bit into the bits below it; keeps the highest set bit and is its
/// own inverse.
pub fn downward_involution_u64(v: u64) -> (r: u64)
    ensures
        r == downward_involution_bits(v, 8),
{
    let mut r: u64 = v;
    r ^= r >> 32u64;
    r ^= (r & 0xffff0000ffff0000u64) >> 16u64;
    r ^= (r & 0xff00ff00ff00ff00u64) >> 8u64;
    r ^= (r & 0xf0f0f0f0f0f0f0f0u64) >> 4u64;
    r ^= (r & 0xccccccccccccccccu64) >> 2u64;
    r ^= (r & 0xaaaaaaaaaaaaaaaau64) >> 1u64;
    r
}

/// Applying the downward involution twice gives back the input.
pub proof fn lemma_downward_involution_i8(v: i8)
    ensures
        downward_involution_bits(downward_involution_bits(v as u64, 1) as i8 as u64, 1) as i8 == v,
{
    let a = downward_involution_bits(v as u64, 1) as i8;
    assert(downward_involution_bits(a as u64, 1) as i8 == v) by (bit_vector)
        requires
            a == downward_involution_bits(v as u64, 1) as i8,
    ;
}

/// Applying the downward involution twice gives back the input.
pub proof fn lemma_downward_involution_i16(v: i16)
    ensures
        downward_involution_bits(downward_involution_bits(v as u64, 2) as i16 as u64, 2) as i16 == v,
{
    let a = downward_involution_bits(v as u64, 2) as i16;
    assert(downward_involution_bits(a as u64, 2) as i16 == v) by (bit_vector)
        requires
            a == downward_involution_bits(v as u64, 2) as i16,
    ;
}

/// Applying the downward involution twice gives back the input.
pub proof fn lemma_downward_involution_i32(v: i32)
    ensures
        downward_involution_bits(downward_involution_bits(v as u64, 4) as i32 as u64, 4) as i32 == v,
{
    let a = downward_involution_bits(v as u64, 4) as i32;
    assert(downward_involution_bits(a as u64, 4) as i32 == v) by (bit_vector)
        requires
            a == downward_involution_bits(v as u64, 4) as i32,
    ;
}

/// Applying the downward involution twice gives back the input.
pub proof fn lemma_downward_involution_i64(v: i64)
    ensures
        downward_involution_bits(downward_involution_bits(v as u64, 8) as i64 as u64, 8) as i64 == v,
{
    let a = downward_involution_bits(v as u64, 8) as i64;
    assert(downward_involution_bits(a as u64, 8) as i64 == v) by (bit_vector)
        requires
            a == downward_involution_bits(v as u64, 8) as i64,
    ;
}

/// Applying the downward involution twice gives back the input.
pub proof fn lemma_downward_involution_u8(v: u8)
    ensures
        downward_involution_bits(downward_involution_bits(v as u64, 1) as u8 as u64, 1) as u8 == v,
{
    let a = downward_involution_bits(v as u64, 1) as u8;
    assert(downward_involution_bits(a as u64, 1) as u8 == v) by (bit_vector)
        requires
            a == downward_involution_bits(v as u64, 1) as u8,
    ;
}

/// Applying the downward involution twice gives back the input.
pub proof fn lemma_downward_involution_u16(v: u16)
    ensures
        downward_involution_bits(downward_involution_bits(v as u64, 2) as u16 as u64, 2) as u16 == v,
{
    let a = downward_involution_bits(v as u64, 2) as u16;
    assert(downward_involution_bits(a as u64, 2) as u16 == v) by (bit_vector)
        requires
            a == downward_involution_bits(v as u64, 2) as u16,
    ;
}

/// Applying the downward involution twice gives back the input.
pub proof fn lemma_downward_involution_u32(v: u32)
    ensures
        downward_involution_bits(downward_involution_bits(v as u64, 4) as u32 as u64, 4) as u32 == v,
{
    let a = downward_involution_bits(v as u64, 4) as u32;
    assert(downward_involution_bits(a as u64, 4) as u32 == v) by (bit_vector)
        requires
            a == downward_involution_bits(v as u64, 4) as u32,
    ;
}

/// Applying the downward involution twice gives back the input.
pub proof fn lemma_downward_involution_u64(v: u64)
    ensures
        downward_involution_bits(downward_involution_bits(v, 8), 8) == v,
{
    let a = downward_involution_bits(v, 8);
    assert(downward_involution_bits(a, 8) == v) by (bit_vector)
        requires
            a == downward_involution_bits(v, 8),
    ;
}

} // verus!
