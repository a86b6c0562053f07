//! Fixed-point numbers and the rounding rules the rest of the crate uses.
//!
//! Lengths are millimetres, phases are turns and matrix entries are plain
//! ratios; all of them are held as a [`Scalar`], an integer that counts
//! millionths. Sums and differences of scalars are exact. Wherever a quotient
//! has to be cut back to an integer, one of the rounding functions of this
//! module says how.
//!
//! [`round_div`] divides by any number. Its value on given numbers is best
//! had from [`lemma_round_div_is`], which needs two products and no division.
//! [`rescaled`], [`halved`] and [`round_div_low`] divide by a number that is
//! written out where they are used, and evaluate directly.

use vstd::arithmetic::div_mod::lemma_fundamental_div_mod;
use vstd::arithmetic::div_mod::lemma_fundamental_div_mod_converse;
use vstd::prelude::*;

verus! {

/// A fixed-point number: the integer `x` stands for the value `x / ONE`.
pub type Scalar = i64;

/// The scalar that stands for the value one.
pub const ONE: Scalar = 1_000_000;

/// The distance of `x` from zero.
pub open spec fn magnitude(x: int) -> int {
    if x >= 0 {
        x
    } else {
        -x
    }
}

/// The integer nearest to the ratio `n / d`; a ratio half way between two
/// integers goes to the one further from zero. The divisor is not zero.
pub open spec fn round_div(n: int, d: int) -> int
    recommends
        d != 0,
{
    let q = (2 * magnitude(n) + magnitude(d)) / (2 * magnitude(d));
    if (n >= 0) == (d > 0) {
        q
    } else {
        -q
    }
}

/// The scalar nearest to `n / ONE`, a tie going away from zero: what a
/// product of two scalars is cut back to. This is `round_div(n, ONE)`, written
/// with the divisor as a number so that it can be evaluated on given values.
#[verifier::inline]
pub open spec fn rescaled(n: int) -> int {
    if n >= 0 {
        (2 * n + 1_000_000) / 2_000_000
    } else {
        -((2 * (-n) + 1_000_000) / 2_000_000)
    }
}

/// Half of `n`, rounded to the nearest integer, a tie going away from zero.
/// This is `round_div(n, 2)`, written with the divisor as a number.
#[verifier::inline]
pub open spec fn halved(n: int) -> int {
    if n >= 0 {
        (n + 1) / 2
    } else {
        -((-n + 1) / 2)
    }
}

/// The integer nearest to the ratio `n / d` of a number that is not negative
/// and a positive divisor; a ratio half way between two integers goes to the
/// lower one.
#[verifier::inline]
pub open spec fn round_div_low(n: int, d: int) -> int
    recommends
        n >= 0,
        d > 0,
{
    (2 * n + d - 1) / (2 * d)
}

/// `n mod d` taken so that the remainder has the sign of `n`, as the `%` of
/// the machine integers does.
pub open spec fn signed_rem(n: int, d: int) -> int
    recommends
        d != 0,
{
    if n >= 0 {
        n % magnitude(d)
    } else {
        -((-n) % magnitude(d))
    }
}

/// The quotient that goes with [`signed_rem`]: `n / d` with its fraction
/// dropped.
pub open spec fn signed_quot(n: int, d: int) -> int
    recommends
        d != 0,
{
    let q = magnitude(n) / magnitude(d);
    if (n >= 0) == (d > 0) {
        q
    } else {
        -q
    }
}

/// Whether `q` and `r` are quotient and remainder of `n` by `d`, the
/// remainder with the sign of `n`, said without a division.
pub open spec fn is_signed_div(n: int, d: int, q: int, r: int) -> bool {
    &&& n == q * d + r
    &&& magnitude(r) < magnitude(d)
    &&& n >= 0 ==> r >= 0
    &&& n <= 0 ==> r <= 0
}

/// `signed_quot` and `signed_rem` are the one pair that passes
/// `is_signed_div`.
pub proof fn lemma_signed_div_is(n: int, d: int, q: int, r: int)
    requires
        d != 0,
    ensures
        is_signed_div(n, d, q, r) <==> q == signed_quot(n, d) && r == signed_rem(n, d),
{
    let nm = magnitude(n);
    let dm = magnitude(d);
    let q0 = nm / dm;
    let r0 = nm % dm;
    lemma_fundamental_div_mod(nm, dm);
    let sq = signed_quot(n, d);
    let sr = signed_rem(n, d);
    assert(n == sq * d + sr) by (nonlinear_arith)
        requires
            nm == dm * q0 + r0,
            nm == magnitude(n),
            dm == magnitude(d),
            d != 0,
            sq == if (n >= 0) == (d > 0) { q0 } else { -q0 },
            sr == if n >= 0 { r0 } else { -r0 },
    ;
    if is_signed_div(n, d, q, r) && q != sq {
        assert(sr - r == (q - sq) * d) by (nonlinear_arith)
            requires
                n == q * d + r,
                n == sq * d + sr,
        ;
        assert(magnitude((q - sq) * d) >= dm) by (nonlinear_arith)
            requires
                q != sq,
                dm == magnitude(d),
        ;
    }
}

/// `round_div` is the nearest integer: twice the distance between `n` and
/// `round_div(n, d) * d` is at most the size of `d`.
pub proof fn lemma_round_div_is_nearest(n: int, d: int)
    requires
        d != 0,
    ensures
        2 * magnitude(n - round_div(n, d) * d) <= magnitude(d),
{
    let nm = magnitude(n);
    let dm = magnitude(d);
    let q = (2 * nm + dm) / (2 * dm);
    lemma_fundamental_div_mod(2 * nm + dm, 2 * dm);
    let r = (2 * nm + dm) % (2 * dm);
    // 2 * (nm - q * dm) == r - dm, which lies in [-dm, dm)
    assert(2 * (nm - q * dm) == r - dm) by (nonlinear_arith)
        requires
            2 * nm + dm == (2 * dm) * q + r,
    ;
    if (n >= 0) == (d > 0) {
        assert(magnitude(n - q * d) == magnitude(nm - q * dm)) by (nonlinear_arith)
            requires
                (n >= 0) == (d > 0),
                nm == magnitude(n),
                dm == magnitude(d),
                d != 0,
        ;
    } else {
        assert(magnitude(n - (-q) * d) == magnitude(nm - q * dm)) by (nonlinear_arith)
            requires
                (n >= 0) != (d > 0),
                nm == magnitude(n),
                dm == magnitude(d),
                d != 0,
        ;
    }
}

/// `rescaled` and `halved` are `round_div` by `ONE` and by two.
pub proof fn lemma_round_div_by_constant(n: int)
    ensures
        rescaled(n) == round_div(n, ONE as int),
        halved(n) == round_div(n, 2),
{
    let m = magnitude(n);
    assert((2 * m + 2) / 4int == (m + 1) / 2int);
}

/// A scalar times `ONE` is cut back to that scalar.
pub proof fn lemma_rescaled_exact(k: int)
    ensures
        rescaled(k * ONE) == k,
{
}

/// Whether `q` is the integer nearest to `n / d`, a tie going away from zero,
/// said without a division: `q * d` is within half a `d` of `n`, and where it
/// is exactly half a `d` away it is the further from zero.
pub open spec fn is_round_div(n: int, d: int, q: int) -> bool {
    &&& 2 * magnitude(n - q * d) <= magnitude(d)
    &&& 2 * magnitude(n - q * d) == magnitude(d) ==> magnitude(q * d) > magnitude(n)
}

/// `round_div(n, d)` is the one integer that passes `is_round_div`. With this
/// the value of `round_div` on given numbers follows from two products.
pub proof fn lemma_round_div_is(n: int, d: int, q: int)
    requires
        d != 0,
    ensures
        is_round_div(n, d, q) <==> q == round_div(n, d),
{
    let nm = magnitude(n);
    let dm = magnitude(d);
    let q0 = (2 * nm + dm) / (2 * dm);
    lemma_fundamental_div_mod(2 * nm + dm, 2 * dm);
    let r = (2 * nm + dm) % (2 * dm);
    let same = (n >= 0) == (d > 0);
    let rd = round_div(n, d);
    // the rounded value itself passes
    assert(q0 >= 0) by (nonlinear_arith)
        requires
            2 * nm + dm == (2 * dm) * q0 + r,
            r < 2 * dm,
            nm >= 0,
            dm > 0,
    ;
    assert(2 * (nm - q0 * dm) == r - dm) by (nonlinear_arith)
        requires
            2 * nm + dm == (2 * dm) * q0 + r,
    ;
    assert(magnitude(n - rd * d) == magnitude(nm - q0 * dm) && magnitude(rd * d) == q0 * dm)
        by (nonlinear_arith)
        requires
            rd == if same { q0 } else { -q0 },
            same == ((n >= 0) == (d > 0)),
            nm == magnitude(n),
            dm == magnitude(d),
            d != 0,
            q0 >= 0,
    ;
    // and no other integer does
    if is_round_div(n, d, q) && q != rd {
        let e = n - rd * d;
        let f = n - q * d;
        assert(e - f == (q - rd) * d) by (nonlinear_arith)
            requires
                e == n - rd * d,
                f == n - q * d,
        ;
        assert(magnitude((q - rd) * d) >= dm) by (nonlinear_arith)
            requires
                q != rd,
                dm == magnitude(d),
        ;
        // both are exactly half a `d` away, on opposite sides of `n`
        let x = rd * d;
        let y = q * d;
        // two multiples of `d` on either side of zero are at least two `d` apart
        if (x > 0 && y < 0) || (x < 0 && y > 0) {
            assert(magnitude((q - rd) * d) >= 2 * dm) by (nonlinear_arith)
                requires
                    x == rd * d,
                    y == q * d,
                    (x > 0 && y < 0) || (x < 0 && y > 0),
                    dm == magnitude(d),
            ;
        }
    }
}

/// A ratio that is an integer is its own rounding.
pub proof fn lemma_round_div_exact(k: int, d: int)
    requires
        d != 0,
    ensures
        round_div(k * d, d) == k,
{
    let n = k * d;
    let km = magnitude(k);
    let dm = magnitude(d);
    assert(magnitude(n) == km * dm) by (nonlinear_arith)
        requires
            n == k * d,
            km == magnitude(k),
            dm == magnitude(d),
    ;
    assert(2 * (km * dm) + dm == km * (2 * dm) + dm) by (nonlinear_arith);
    lemma_fundamental_div_mod_converse(2 * magnitude(n) + dm, 2 * dm, km, dm);
    if k == 0 {
        assert(n == 0) by (nonlinear_arith)
            requires
                n == k * d,
                k == 0,
        ;
    } else {
        assert((n >= 0) == (d > 0) <==> k > 0) by (nonlinear_arith)
            requires
                n == k * d,
                k != 0,
                d != 0,
        ;
    }
}

/// A ratio of size at most `b` rounds to an integer of size at most `b`.
pub proof fn lemma_round_div_bound(n: int, d: int, b: int)
    requires
        d != 0,
        b >= 0,
        magnitude(n) <= b * magnitude(d),
    ensures
        magnitude(round_div(n, d)) <= b,
{
    let nm = magnitude(n);
    let dm = magnitude(d);
    let q = (2 * nm + dm) / (2 * dm);
    lemma_fundamental_div_mod(2 * nm + dm, 2 * dm);
    let r = (2 * nm + dm) % (2 * dm);
    assert(q <= b) by (nonlinear_arith)
        requires
            2 * nm + dm == (2 * dm) * q + r,
            0 <= r,
            nm <= b * dm,
            dm > 0,
    ;
    assert(q >= 0) by (nonlinear_arith)
        requires
            2 * nm + dm == (2 * dm) * q + r,
            r < 2 * dm,
            nm >= 0,
            dm > 0,
    ;
}

/// Divides and rounds to the nearest integer, a tie going away from zero.
pub(crate) fn div_nearest(n: i128, d: i128) -> (q: i128)
    requires
        d != 0,
        n > i128::MIN,
        d > i128::MIN,
    ensures
        q == round_div(n as int, d as int),
        magnitude(q as int) <= magnitude(n as int),
{
    let nm: u128 = if n >= 0 {
        n as u128
    } else {
        (-n) as u128
    };
    let dm: u128 = if d >= 0 {
        d as u128
    } else {
        (-d) as u128
    };
    let q0: u128 = nm / dm;
    let r: u128 = nm % dm;
    let up: bool = r >= dm - r;
    proof {
        lemma_fundamental_div_mod(nm as int, dm as int);
        assert(q0 <= dm * q0) by (nonlinear_arith)
            requires
                dm >= 1,
                q0 >= 0,
        ;
        if up {
            assert(2 * q0 <= dm * q0) by (nonlinear_arith)
                requires
                    dm >= 2,
                    q0 >= 0,
            ;
            assert(2 * nm + dm == (q0 + 1) * (2 * dm) + (2 * r - dm)) by (nonlinear_arith)
                requires
                    nm == dm * q0 + r,
            ;
            lemma_fundamental_div_mod_converse(2 * nm + dm, 2 * dm, q0 + 1, 2 * r - dm);
        } else {
            assert(2 * nm + dm == q0 * (2 * dm) + (2 * r + dm)) by (nonlinear_arith)
                requires
                    nm == dm * q0 + r,
            ;
            lemma_fundamental_div_mod_converse(2 * nm + dm, 2 * dm, q0 as int, 2 * r + dm);
        }
    }
    let qm: u128 = if up {
        q0 + 1
    } else {
        q0
    };
    if (n >= 0) == (d > 0) {
        qm as i128
    } else {
        -(qm as i128)
    }
}

/// Divides a number that is not negative by a positive one and rounds to the
/// nearest integer, a tie going to the lower one.
pub(crate) fn div_nearest_low(n: u64, d: u64) -> (q: u64)
    requires
        d > 0,
        2 * n + d <= u64::MAX,
        2 * d <= u64::MAX,
    ensures
        q == round_div_low(n as int, d as int),
{
    (2 * n + d - 1) / (2 * d)
}

/// The remainder of `n` after division by `d`, with the sign of `n`.
pub(crate) fn remainder(n: i64, d: i64) -> (r: i64)
    requires
        d != 0,
    ensures
        r == signed_rem(n as int, d as int),
{
    let nw: i128 = n as i128;
    let dw: i128 = d as i128;
    let nm: u128 = if nw >= 0 {
        nw as u128
    } else {
        (-nw) as u128
    };
    let dm: u128 = if dw >= 0 {
        dw as u128
    } else {
        (-dw) as u128
    };
    let rm: u128 = nm % dm;
    if n >= 0 {
        rm as i64
    } else {
        -(rm as i64)
    }
}

} // verus!
