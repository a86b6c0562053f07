//! Vectors, quaternions and column-major 4x4 matrices over fixed-point
//! scalars, and the few constructions the viewers need from them.
//!
//! A matrix is an array of four columns, so `m[3]` is the translation column
//! of an affine transform and `m[c][r]` is the entry in row `r` of column `c`.
//! Contracts speak of a vector as a `Seq<int>` and of a matrix as a
//! `Seq<Seq<int>>`, through [`vec3_view`], [`vec4_view`] and [`mat4_view`].

use crate::scalar::div_nearest;
use crate::scalar::lemma_rescaled_exact;
use crate::scalar::lemma_round_div_bound;
use crate::scalar::lemma_round_div_by_constant;
use crate::scalar::magnitude;
use crate::scalar::rescaled;
use crate::scalar::Scalar;
use crate::scalar::ONE;
use vstd::prelude::*;

verus! {

pub type Vector3 = vecmath::Vector3<Scalar>;

pub type Vector4 = vecmath::Vector4<Scalar>;

pub type Matrix4 = vecmath::Matrix4<Scalar>;

/// A rotation as `(w, [x, y, z])`. The components are fixed-point like a
/// [`Scalar`] but held in 32 bits: those of a rotation lie between minus one
/// and one.
pub type Quaterion = quaternion::Quaternion<i32>;

/// The three components of a vector as integers.
pub open spec fn vec3_view(v: Vector3) -> Seq<int> {
    seq![v[0] as int, v[1] as int, v[2] as int]
}

/// The four components of a vector as integers.
pub open spec fn vec4_view(v: Vector4) -> Seq<int> {
    seq![v[0] as int, v[1] as int, v[2] as int, v[3] as int]
}

/// The four columns of a matrix, each as integers.
pub open spec fn mat4_view(m: Matrix4) -> Seq<Seq<int>> {
    seq![vec4_view(m[0]), vec4_view(m[1]), vec4_view(m[2]), vec4_view(m[3])]
}

/// Whether `m` has the shape of a 4x4 matrix.
pub open spec fn is_mat4(m: Seq<Seq<int>>) -> bool {
    &&& m.len() == 4
    &&& forall|c: int| 0 <= c < 4 ==> (#[trigger] m[c]).len() == 4
}

/// Whether every entry of `m` is a value that a [`Scalar`] can hold.
pub open spec fn mat4_fits(m: Seq<Seq<int>>) -> bool {
    forall|c: int, r: int|
        0 <= c < 4 && 0 <= r < 4 ==> i64::MIN <= #[trigger] m[c][r] <= i64::MAX
}

/// The vector `v` with a fourth component of zero.
pub open spec fn to_vec4_spec(v: Seq<int>) -> Seq<int> {
    seq![v[0], v[1], v[2], 0]
}

/// The matrix that scales every axis by `s`.
pub open spec fn mat4_scale_spec(s: int) -> Seq<Seq<int>> {
    seq![
        seq![s, 0, 0, 0],
        seq![0, s, 0, 0],
        seq![0, 0, s, 0],
        seq![0, 0, 0, ONE as int],
    ]
}

/// The matrix that moves the origin to `pos`.
pub open spec fn mat4_t_spec(pos: Seq<int>) -> Seq<Seq<int>> {
    seq![
        seq![ONE as int, 0, 0, 0],
        seq![0, ONE as int, 0, 0],
        seq![0, 0, ONE as int, 0],
        seq![pos[0], pos[1], pos[2], ONE as int],
    ]
}

/// The matrix that scales every axis by `scale` and then moves the origin to
/// `pos`.
pub open spec fn mat4_ts_spec(pos: Seq<int>, scale: int) -> Seq<Seq<int>> {
    seq![
        seq![scale, 0, 0, 0],
        seq![0, scale, 0, 0],
        seq![0, 0, scale, 0],
        seq![pos[0], pos[1], pos[2], ONE as int],
    ]
}

/// The rotation matrix of the unit quaternion `(w, [x, y, z])`. Each entry is
/// the usual polynomial in the components, cut back to a scalar with
/// [`rescaled`].
pub open spec fn mat4_rot_spec(w: int, x: int, y: int, z: int) -> Seq<Seq<int>> {
    seq![
        seq![
            rescaled(1_000_000_000_000 - 2 * y * y - 2 * z * z),
            rescaled(2 * x * y + 2 * w * z),
            rescaled(2 * x * z - 2 * w * y),
            0,
        ],
        seq![
            rescaled(2 * x * y - 2 * w * z),
            rescaled(1_000_000_000_000 - 2 * x * x - 2 * z * z),
            rescaled(2 * y * z + 2 * w * x),
            0,
        ],
        seq![
            rescaled(2 * x * z + 2 * w * y),
            rescaled(2 * y * z - 2 * w * x),
            rescaled(1_000_000_000_000 - 2 * x * x - 2 * y * y),
            0,
        ],
        seq![0, 0, 0, 1_000_000],
    ]
}

/// The entry in row `r` of column `c` of the matrix product `a * b`, over the
/// integers.
pub open spec fn mat4_product_entry(a: Seq<Seq<int>>, b: Seq<Seq<int>>, c: int, r: int) -> int {
    a[0][r] * b[c][0] + a[1][r] * b[c][1] + a[2][r] * b[c][2] + a[3][r] * b[c][3]
}

/// The product `a * b` of two fixed-point matrices: each entry of the integer
/// product, cut back to a scalar with [`rescaled`].
pub open spec fn mat4_mul_spec(a: Seq<Seq<int>>, b: Seq<Seq<int>>) -> Seq<Seq<int>> {
    Seq::new(4, |c: int| Seq::new(4, |r: int| rescaled(mat4_product_entry(a, b, c, r))))
}

/// The transform `m` moved by `travel`: the first three entries of the
/// translation column grow by the components of `travel`.
pub open spec fn mat4_translated(m: Seq<Seq<int>>, travel: Seq<int>) -> Seq<Seq<int>> {
    m.update(3, seq![m[3][0] + travel[0], m[3][1] + travel[1], m[3][2] + travel[2], m[3][3]])
}

/// The transform `m` with its origin put at `pos`: the first three entries of
/// the translation column become the components of `pos`.
pub open spec fn mat4_moved_to(m: Seq<Seq<int>>, pos: Seq<int>) -> Seq<Seq<int>> {
    m.update(3, seq![pos[0], pos[1], pos[2], m[3][3]])
}

/// The square of the distance between `l` and `r`.
pub open spec fn dist_sq(l: Seq<int>, r: Seq<int>) -> int {
    (l[0] - r[0]) * (l[0] - r[0]) + (l[1] - r[1]) * (l[1] - r[1]) + (l[2] - r[2]) * (l[2] - r[2])
}

/// Whether `root` is the integer nearest to the square root of `n`. The square
/// root of an integer is never half way between two integers, so exactly one
/// `root` passes for each `n` that is not negative.
pub open spec fn is_nearest_root(n: int, root: int) -> bool {
    &&& root >= 0
    &&& n <= root * root + root
    &&& (root == 0 || root * root - root < n)
}

/// Applies `func` to each component of `v`.
pub fn vec3_map<F, T>(v: Vector3, func: F) -> (out: [T; 3]) where F: Fn(Scalar) -> T
    requires
        forall|i: int| 0 <= i < 3 ==> call_requires(func, (#[trigger] v[i],)),
    ensures
        forall|i: int| 0 <= i < 3 ==> call_ensures(func, (v[i],), #[trigger] out[i]),
{
    [func(v[0]), func(v[1]), func(v[2])]
}

/// Applies `func` to each component of `v`.
pub fn vec4_map<F, T>(v: Vector4, func: F) -> (out: [T; 4]) where F: Fn(Scalar) -> T
    requires
        forall|i: int| 0 <= i < 4 ==> call_requires(func, (#[trigger] v[i],)),
    ensures
        forall|i: int| 0 <= i < 4 ==> call_ensures(func, (v[i],), #[trigger] out[i]),
{
    [func(v[0]), func(v[1]), func(v[2]), func(v[3])]
}

/// Extends a vector by a fourth component of zero.
pub fn to_vec4(v: Vector3) -> (out: Vector4)
    ensures
        vec4_view(out) == to_vec4_spec(vec3_view(v)),
{
    let out: Vector4 = [v[0], v[1], v[2], 0];
    assert(vec4_view(out) =~= to_vec4_spec(vec3_view(v)));
    out
}

/// The matrix that scales every axis by `s`.
pub fn mat4_scale(s: Scalar) -> (m: Matrix4)
    ensures
        mat4_view(m) == mat4_scale_spec(s as int),
{
    let m: Matrix4 = [[s, 0, 0, 0], [0, s, 0, 0], [0, 0, s, 0], [0, 0, 0, ONE]];
    assert(mat4_view(m) =~~= mat4_scale_spec(s as int));
    m
}

/// The matrix that moves the origin to `pos`.
pub fn mat4_t(pos: Vector3) -> (m: Matrix4)
    ensures
        mat4_view(m) == mat4_t_spec(vec3_view(pos)),
{
    let m: Matrix4 = [
        [ONE, 0, 0, 0],
        [0, ONE, 0, 0],
        [0, 0, ONE, 0],
        [pos[0], pos[1], pos[2], ONE],
    ];
    assert(mat4_view(m) =~~= mat4_t_spec(vec3_view(pos)));
    m
}

/// The matrix that scales every axis by `scale` and then moves the origin to
/// `pos`.
pub fn mat4_ts(pos: Vector3, scale: Scalar) -> (m: Matrix4)
    ensures
        mat4_view(m) == mat4_ts_spec(vec3_view(pos), scale as int),
{
    let m: Matrix4 = [
        [scale, 0, 0, 0],
        [0, scale, 0, 0],
        [0, 0, scale, 0],
        [pos[0], pos[1], pos[2], ONE],
    ];
    assert(mat4_view(m) =~~= mat4_ts_spec(vec3_view(pos), scale as int));
    m
}

/// Two integers that are each the nearest to the square root of `n` are the
/// same integer.
pub proof fn lemma_nearest_root_unique(n: int, a: int, b: int)
    requires
        is_nearest_root(n, a),
        is_nearest_root(n, b),
    ensures
        a == b,
{
    if a < b {
        assert(b * b - b >= a * a + a) by (nonlinear_arith)
            requires
                0 <= a,
                a + 1 <= b,
        ;
    } else if b < a {
        assert(a * a - a >= b * b + b) by (nonlinear_arith)
            requires
                0 <= b,
                b + 1 <= a,
        ;
    }
}

/// The largest separation along one axis that [`dist`] takes.
pub const MAX_SEPARATION: Scalar = 0x4000_0000_0000_0000;

/// Whether every entry of `m` lies between `-bound` and `bound`.
pub open spec fn wide_within(m: vecmath::Matrix4<i128>, bound: int) -> bool {
    forall|c: int, r: int| 0 <= c < 4 && 0 <= r < 4 ==> -bound <= #[trigger] m[c][r] <= bound
}

/// `vecmath::vec3_sub`, on 128-bit integers: the difference of two vectors,
/// component by component. The bounds keep each subtraction inside the
/// integer type.
#[verifier::external_body]
fn vec3_sub(a: vecmath::Vector3<i128>, b: vecmath::Vector3<i128>) -> (out: vecmath::Vector3<
    i128,
>)
    requires
        forall|i: int| 0 <= i < 3 ==> i64::MIN <= #[trigger] a[i] <= i64::MAX,
        forall|i: int| 0 <= i < 3 ==> i64::MIN <= #[trigger] b[i] <= i64::MAX,
    ensures
        forall|i: int| 0 <= i < 3 ==> #[trigger] out[i] == a[i] - b[i],
{
    vecmath::vec3_sub(a, b)
}

/// `vecmath::vec3_dot`, on 128-bit integers: the sum of the three products of
/// matching components. The bounds keep each product and each partial sum
/// inside the integer type.
#[verifier::external_body]
fn vec3_dot(a: vecmath::Vector3<i128>, b: vecmath::Vector3<i128>) -> (out: i128)
    requires
        forall|i: int| 0 <= i < 3 ==> -MAX_SEPARATION <= #[trigger] a[i] <= MAX_SEPARATION,
        forall|i: int| 0 <= i < 3 ==> -MAX_SEPARATION <= #[trigger] b[i] <= MAX_SEPARATION,
    ensures
        out == a[0] * b[0] + a[1] * b[1] + a[2] * b[2],
{
    vecmath::vec3_dot(a, b)
}

/// `vecmath::col_mat4_mul`, on 128-bit integers: the product `a * b` of two
/// column-major matrices, each entry the sum of four products of a row of `a`
/// with a column of `b`. The bounds keep each product and each partial sum
/// inside the integer type.
#[verifier::external_body]
fn col_mat4_mul(a: vecmath::Matrix4<i128>, b: vecmath::Matrix4<i128>) -> (out: vecmath::Matrix4<
    i128,
>)
    requires
        wide_within(a, 0x8000_0000_0000_0000),
        wide_within(b, 0x2000_0000_0000_0000),
    ensures
        forall|c: int, r: int|
            0 <= c < 4 && 0 <= r < 4 ==> #[trigger] out[c][r] == a[0][r] * b[c][0] + a[1][r]
                * b[c][1] + a[2][r] * b[c][2] + a[3][r] * b[c][3],
{
    vecmath::col_mat4_mul(a, b)
}

/// The integer nearest to the square root of `n`.
fn nearest_root(n: u128) -> (root: u64)
    requires
        n <= 3 * 0x1000_0000_0000_0000_0000_0000_0000_0000,
    ensures
        is_nearest_root(n as int, root as int),
        root <= i64::MAX,
{
    let mut lo: u128 = 0;
    let mut hi: u128 = 0x7fff_ffff_ffff_ffff;
    assert(n < hi * hi) by (nonlinear_arith)
        requires
            n <= 3 * 0x1000_0000_0000_0000_0000_0000_0000_0000,
            hi == 0x7fff_ffff_ffff_ffff,
    ;
    while hi - lo > 1
        invariant
            lo < hi <= 0x7fff_ffff_ffff_ffff,
            lo * lo <= n < hi * hi,
        decreases hi - lo,
    {
        let mid: u128 = lo + (hi - lo) / 2;
        assert(mid * mid < 0x4000_0000_0000_0000_0000_0000_0000_0000) by (nonlinear_arith)
            requires
                0 <= mid < 0x8000_0000_0000_0000,
        ;
        if mid * mid <= n {
            lo = mid;
        } else {
            hi = mid;
        }
    }
    assert(lo * lo < 0x4000_0000_0000_0000_0000_0000_0000_0000) by (nonlinear_arith)
        requires
            0 <= lo < 0x8000_0000_0000_0000,
    ;
    if n - lo * lo > lo {
        assert((lo + 1) * (lo + 1) - (lo + 1) == lo * lo + lo) by (nonlinear_arith);
        (lo + 1) as u64
    } else {
        lo as u64
    }
}

/// The distance between `l` and `r`, to the nearest integer. Along each axis
/// the two points lie at most [`MAX_SEPARATION`] apart. That a given number
/// is the distance of two given points follows from
/// [`lemma_nearest_root_unique`].
pub fn dist(l: Vector3, r: Vector3) -> (d: Scalar)
    requires
        -MAX_SEPARATION <= l[0] - r[0] <= MAX_SEPARATION,
        -MAX_SEPARATION <= l[1] - r[1] <= MAX_SEPARATION,
        -MAX_SEPARATION <= l[2] - r[2] <= MAX_SEPARATION,
    ensures
        is_nearest_root(dist_sq(vec3_view(l), vec3_view(r)), d as int),
{
    let lw: vecmath::Vector3<i128> = [l[0] as i128, l[1] as i128, l[2] as i128];
    let rw: vecmath::Vector3<i128> = [r[0] as i128, r[1] as i128, r[2] as i128];
    let d = vec3_sub(lw, rw);
    let n: i128 = vec3_dot(d, d);
    proof {
        assert forall|i: int| 0 <= i < 3 implies 0 <= #[trigger] (d[i] * d[i])
            <= 0x1000_0000_0000_0000_0000_0000_0000_0000 by {
            let x = d[i] as int;
            assert(0 <= x * x <= 0x1000_0000_0000_0000_0000_0000_0000_0000) by (nonlinear_arith)
                requires
                    -0x4000_0000_0000_0000 <= x <= 0x4000_0000_0000_0000,
            ;
        }
    }
    let root: u64 = nearest_root(n as u128);
    root as i64
}

/// The product of two quaternion components.
fn component_product(a: i32, b: i32) -> (p: i128)
    ensures
        p == a * b,
        -0x4000_0000_0000_0000 <= p <= 0x4000_0000_0000_0000,
{
    let x: i128 = a as i128;
    let y: i128 = b as i128;
    assert(-0x4000_0000_0000_0000 <= x * y <= 0x4000_0000_0000_0000) by (nonlinear_arith)
        requires
            -0x8000_0000 <= x <= 0x7fff_ffff,
            -0x8000_0000 <= y <= 0x7fff_ffff,
    ;
    x * y
}

/// The largest size of an entry of a rotation matrix.
pub open spec fn rot_entry_bound() -> int {
    0x4000_0000_0000
}

/// Rounds the numerator of an entry of a rotation matrix back to a scalar.
fn rot_entry(n: i128) -> (e: Scalar)
    requires
        magnitude(n as int) <= 0x2_0000_0000_0000_0000,
    ensures
        e == rescaled(n as int),
        magnitude(e as int) <= rot_entry_bound(),
{
    let q: i128 = div_nearest(n, ONE as i128);
    proof {
        lemma_round_div_bound(n as int, ONE as int, rot_entry_bound());
        lemma_round_div_by_constant(n as int);
    }
    q as i64
}

/// The rotation matrix of a unit quaternion.
pub fn mat4_rot(rot: Quaterion) -> (m: Matrix4)
    ensures
        mat4_view(m) == mat4_rot_spec(rot.0 as int, rot.1[0] as int, rot.1[1] as int, rot.1[2] as int),
        forall|c: int, r: int|
            0 <= c < 4 && 0 <= r < 4 ==> magnitude(#[trigger] m[c][r] as int) <= rot_entry_bound(),
{
    let x: i32 = rot.1[0];
    let y: i32 = rot.1[1];
    let z: i32 = rot.1[2];
    let w: i32 = rot.0;
    let one: i128 = (ONE as i128) * (ONE as i128);
    let xx: i128 = component_product(x, x);
    let yy: i128 = component_product(y, y);
    let zz: i128 = component_product(z, z);
    let xy: i128 = component_product(x, y);
    let xz: i128 = component_product(x, z);
    let yz: i128 = component_product(y, z);
    let wx: i128 = component_product(w, x);
    let wy: i128 = component_product(w, y);
    let wz: i128 = component_product(w, z);
    let m: Matrix4 = [
        [
            rot_entry(one - 2 * yy - 2 * zz),
            rot_entry(2 * xy + 2 * wz),
            rot_entry(2 * xz - 2 * wy),
            0,
        ],
        [
            rot_entry(2 * xy - 2 * wz),
            rot_entry(one - 2 * xx - 2 * zz),
            rot_entry(2 * yz + 2 * wx),
            0,
        ],
        [
            rot_entry(2 * xz + 2 * wy),
            rot_entry(2 * yz - 2 * wx),
            rot_entry(one - 2 * xx - 2 * yy),
            0,
        ],
        [0, 0, 0, ONE],
    ];
    proof {
        assert(2 * yy == 2 * y * y) by (nonlinear_arith)
            requires
                yy == y * y,
        ;
        assert(2 * zz == 2 * z * z) by (nonlinear_arith)
            requires
                zz == z * z,
        ;
        assert(2 * xx == 2 * x * x) by (nonlinear_arith)
            requires
                xx == x * x,
        ;
        assert(2 * xy == 2 * x * y) by (nonlinear_arith)
            requires
                xy == x * y,
        ;
        assert(2 * xz == 2 * x * z) by (nonlinear_arith)
            requires
                xz == x * z,
        ;
        assert(2 * yz == 2 * y * z) by (nonlinear_arith)
            requires
                yz == y * z,
        ;
        assert(2 * wx == 2 * w * x) by (nonlinear_arith)
            requires
                wx == w * x,
        ;
        assert(2 * wy == 2 * w * y) by (nonlinear_arith)
            requires
                wy == w * y,
        ;
        assert(2 * wz == 2 * w * z) by (nonlinear_arith)
            requires
                wz == w * z,
        ;
        assert(one == 1_000_000_000_000) by (nonlinear_arith)
            requires
                one == ONE * ONE,
                ONE == 1_000_000,
        ;
        assert(mat4_view(m) =~~= mat4_rot_spec(w as int, x as int, y as int, z as int));
    }
    m
}

/// The transform `m` turned by the rotation `(w, [x, y, z])`: the fixed-point
/// product of `m` with the rotation's matrix, the rotation applied first.
pub open spec fn mat4_rotated(m: Seq<Seq<int>>, w: int, x: int, y: int, z: int) -> Seq<Seq<int>> {
    mat4_mul_spec(m, mat4_rot_spec(w, x, y, z))
}

proof fn lemma_product_bound(x: int, y: int)
    requires
        -0x8000_0000_0000_0000 <= x <= 0x8000_0000_0000_0000,
        -0x4000_0000_0000 <= y <= 0x4000_0000_0000,
    ensures
        -0x2000_0000_0000_0000_0000_0000_0000 <= x * y <= 0x2000_0000_0000_0000_0000_0000_0000,
{
    assert(-0x2000_0000_0000_0000_0000_0000_0000 <= x * y <= 0x2000_0000_0000_0000_0000_0000_0000)
        by (nonlinear_arith)
        requires
            -0x8000_0000_0000_0000 <= x <= 0x8000_0000_0000_0000,
            -0x4000_0000_0000 <= y <= 0x4000_0000_0000,
    ;
}

/// The same matrix over 128-bit integers.
fn widen(m: Matrix4) -> (out: vecmath::Matrix4<i128>)
    ensures
        forall|c: int, r: int| 0 <= c < 4 && 0 <= r < 4 ==> #[trigger] out[c][r] == m[c][r],
{
    [
        [m[0][0] as i128, m[0][1] as i128, m[0][2] as i128, m[0][3] as i128],
        [m[1][0] as i128, m[1][1] as i128, m[1][2] as i128, m[1][3] as i128],
        [m[2][0] as i128, m[2][1] as i128, m[2][2] as i128, m[2][3] as i128],
        [m[3][0] as i128, m[3][1] as i128, m[3][2] as i128, m[3][3] as i128],
    ]
}

/// Rounds an entry of an integer product back to a scalar, if it fits one.
fn narrow_entry(n: i128) -> (out: Option<Scalar>)
    requires
        n > i128::MIN,
    ensures
        out is Some <==> i64::MIN <= rescaled(n as int) <= i64::MAX,
        out is Some ==> out.unwrap() == rescaled(n as int),
{
    let q: i128 = div_nearest(n, ONE as i128);
    proof {
        lemma_round_div_by_constant(n as int);
    }
    if q < i64::MIN as i128 || q > i64::MAX as i128 {
        None
    } else {
        Some(q as i64)
    }
}

/// Rounds a column of an integer product back to scalars, if all four fit.
fn narrow_column(col: vecmath::Vector4<i128>) -> (out: Option<Vector4>)
    requires
        forall|r: int| 0 <= r < 4 ==> #[trigger] col[r] > i128::MIN,
    ensures
        out is Some <==> forall|r: int|
            0 <= r < 4 ==> i64::MIN <= rescaled(#[trigger] col[r] as int) <= i64::MAX,
        out is Some ==> forall|r: int|
            0 <= r < 4 ==> #[trigger] out.unwrap()[r] == rescaled(col[r] as int),
{
    let e0 = narrow_entry(col[0]);
    let e1 = narrow_entry(col[1]);
    let e2 = narrow_entry(col[2]);
    let e3 = narrow_entry(col[3]);
    match (e0, e1, e2, e3) {
        (Some(a), Some(b), Some(c), Some(d)) => Some([a, b, c, d]),
        _ => None,
    }
}

/// Turns the transform `m` by `rot`, the rotation applied first. The result is
/// `None` when an entry of the turned transform is too large for a scalar.
pub fn mat4_rotate(m: Matrix4, rot: Quaterion) -> (out: Option<Matrix4>)
    ensures
        out is Some <==> mat4_fits(
            mat4_rotated(
                mat4_view(m),
                rot.0 as int,
                rot.1[0] as int,
                rot.1[1] as int,
                rot.1[2] as int,
            ),
        ),
        out is Some ==> mat4_view(out.unwrap()) == mat4_rotated(
            mat4_view(m),
            rot.0 as int,
            rot.1[0] as int,
            rot.1[1] as int,
            rot.1[2] as int,
        ),
{
    let turn: Matrix4 = mat4_rot(rot);
    let a = widen(m);
    let b = widen(turn);
    // every entry of a rotation matrix is small
    assert(wide_within(b, rot_entry_bound()));
    let p = col_mat4_mul(a, b);
    let ghost target = mat4_rotated(
        mat4_view(m),
        rot.0 as int,
        rot.1[0] as int,
        rot.1[1] as int,
        rot.1[2] as int,
    );
    proof {
        assert forall|c: int, r: int| 0 <= c < 4 && 0 <= r < 4 implies #[trigger] p[c][r]
            == mat4_product_entry(mat4_view(m), mat4_view(turn), c, r) && p[c][r] > i128::MIN
            && target[c][r] == rescaled(p[c][r] as int) by {
            lemma_product_bound(a[0][r] as int, b[c][0] as int);
            lemma_product_bound(a[1][r] as int, b[c][1] as int);
            lemma_product_bound(a[2][r] as int, b[c][2] as int);
            lemma_product_bound(a[3][r] as int, b[c][3] as int);
        }
    }
    let c0 = narrow_column(p[0]);
    let c1 = narrow_column(p[1]);
    let c2 = narrow_column(p[2]);
    let c3 = narrow_column(p[3]);
    match (c0, c1, c2, c3) {
        (Some(k0), Some(k1), Some(k2), Some(k3)) => {
            let out: Matrix4 = [k0, k1, k2, k3];
            proof {
                assert(mat4_view(out) =~~= target);
            }
            Some(out)
        },
        _ => {
            proof {
                let c: int = if c0 is None {
                    0
                } else if c1 is None {
                    1
                } else if c2 is None {
                    2
                } else {
                    3
                };
                let r = choose|r: int|
                    0 <= r < 4 && !(i64::MIN <= rescaled(#[trigger] p[c][r] as int)
                        <= i64::MAX);
            }
            None
        },
    }
}

/// The sum of a sequence of vectors, component by component.
pub open spec fn vec3_sum(deltas: Seq<Seq<int>>) -> Seq<int>
    decreases deltas.len(),
{
    if deltas.len() == 0 {
        seq![0int, 0int, 0int]
    } else {
        let rest = vec3_sum(deltas.drop_last());
        let d = deltas.last();
        seq![rest[0] + d[0], rest[1] + d[1], rest[2] + d[2]]
    }
}

/// The transform `m` moved by each vector of `deltas` in turn.
pub open spec fn mat4_translated_all(m: Seq<Seq<int>>, deltas: Seq<Seq<int>>) -> Seq<Seq<int>>
    decreases deltas.len(),
{
    if deltas.len() == 0 {
        m
    } else {
        mat4_translated(mat4_translated_all(m, deltas.drop_last()), deltas.last())
    }
}

/// Moving a transform by several vectors in turn is moving it once by their
/// sum: the translation column ends as where it started plus the sum of all
/// the moves, and nothing else changes.
pub proof fn lemma_translations_add_up(m: Seq<Seq<int>>, deltas: Seq<Seq<int>>)
    requires
        is_mat4(m),
    ensures
        mat4_translated_all(m, deltas) == mat4_translated(m, vec3_sum(deltas)),
        is_mat4(mat4_translated_all(m, deltas)),
    decreases deltas.len(),
{
    if deltas.len() == 0 {
        assert(mat4_translated(m, vec3_sum(deltas)) =~~= m);
    } else {
        lemma_translations_add_up(m, deltas.drop_last());
        assert(mat4_translated_all(m, deltas) =~~= mat4_translated(m, vec3_sum(deltas)));
    }
}

proof fn lemma_sum_without(s: Seq<Seq<int>>, j: int)
    requires
        0 <= j < s.len(),
    ensures
        vec3_sum(s) == seq![
            vec3_sum(s.remove(j))[0] + s[j][0],
            vec3_sum(s.remove(j))[1] + s[j][1],
            vec3_sum(s.remove(j))[2] + s[j][2],
        ],
        vec3_sum(s).len() == 3,
    decreases s.len(),
{
    if j == s.len() - 1 {
        assert(s.remove(j) =~= s.drop_last());
    } else {
        lemma_sum_without(s.drop_last(), j);
        assert(s.drop_last().remove(j) =~= s.remove(j).drop_last());
        assert(vec3_sum(s) =~= seq![
            vec3_sum(s.remove(j))[0] + s[j][0],
            vec3_sum(s.remove(j))[1] + s[j][1],
            vec3_sum(s.remove(j))[2] + s[j][2],
        ]);
    }
}

/// The sum of a sequence of vectors does not depend on their order.
pub proof fn lemma_sum_any_order(a: Seq<Seq<int>>, b: Seq<Seq<int>>)
    requires
        a.to_multiset() == b.to_multiset(),
    ensures
        vec3_sum(a) == vec3_sum(b),
    decreases a.len(),
{
    a.to_multiset_ensures();
    b.to_multiset_ensures();
    if a.len() > 0 {
        // the last vector of `a` stands somewhere in `b`: take it out of both
        let x = a.last();
        assert(b.to_multiset().count(x) > 0);
        let j = choose|j: int| 0 <= j < b.len() && b[j] == x;
        assert(a.drop_last() =~= a.remove(a.len() - 1));
        lemma_sum_any_order(a.drop_last(), b.remove(j));
        lemma_sum_without(b, j);
    }
}

/// Moving a transform by several vectors gives the same transform in
/// whatever order the moves are made.
pub proof fn lemma_translations_any_order(m: Seq<Seq<int>>, a: Seq<Seq<int>>, b: Seq<Seq<int>>)
    requires
        is_mat4(m),
        a.to_multiset() == b.to_multiset(),
    ensures
        mat4_translated_all(m, a) == mat4_translated_all(m, b),
{
    lemma_translations_add_up(m, a);
    lemma_translations_add_up(m, b);
    lemma_sum_any_order(a, b);
}

/// The rotation matrix of the quaternion `(ONE, [0, 0, 0])`, which turns by
/// no angle, is the identity.
pub proof fn lemma_no_turn_is_identity()
    ensures
        mat4_rot_spec(ONE as int, 0, 0, 0) == mat4_scale_spec(ONE as int),
{
    let one = ONE as int;
    assert(mat4_rot_spec(one, 0, 0, 0) =~~= mat4_scale_spec(one));
}

/// Turning a transform by no angle leaves it as it is.
pub proof fn lemma_rotated_by_no_turn(m: Seq<Seq<int>>)
    requires
        is_mat4(m),
    ensures
        mat4_rotated(m, ONE as int, 0, 0, 0) == m,
{
    let one = ONE as int;
    lemma_no_turn_is_identity();
    let id = mat4_scale_spec(one);
    assert forall|c: int, r: int| 0 <= c < 4 && 0 <= r < 4 implies #[trigger] mat4_mul_spec(
        m,
        id,
    )[c][r] == m[c][r] by {
        assert(mat4_product_entry(m, id, c, r) == m[c][r] * one) by (nonlinear_arith)
            requires
                mat4_product_entry(m, id, c, r) == m[0][r] * id[c][0] + m[1][r] * id[c][1] + m[2][r]
                    * id[c][2] + m[3][r] * id[c][3],
                id[c][c] == one,
                forall|k: int| 0 <= k < 4 && k != c ==> id[c][k] == 0,
                0 <= c < 4,
        ;
        lemma_rescaled_exact(m[c][r]);
    }
    assert(mat4_mul_spec(m, id) =~~= m);
}

/// Turning a transform leaves its translation column as it is.
pub proof fn lemma_rotation_keeps_translation(m: Seq<Seq<int>>, w: int, x: int, y: int, z: int)
    requires
        is_mat4(m),
    ensures
        mat4_rotated(m, w, x, y, z)[3] == m[3],
{
    let one = ONE as int;
    let rot = mat4_rot_spec(w, x, y, z);
    assert forall|r: int| 0 <= r < 4 implies #[trigger] mat4_rotated(m, w, x, y, z)[3][r]
        == m[3][r] by {
        assert(mat4_product_entry(m, rot, 3, r) == m[3][r] * one) by (nonlinear_arith)
            requires
                mat4_product_entry(m, rot, 3, r) == m[0][r] * rot[3][0] + m[1][r] * rot[3][1]
                    + m[2][r] * rot[3][2] + m[3][r] * rot[3][3],
                rot[3][0] == 0,
                rot[3][1] == 0,
                rot[3][2] == 0,
                rot[3][3] == one,
        ;
        lemma_rescaled_exact(m[3][r]);
    }
    assert(mat4_rotated(m, w, x, y, z)[3] =~= m[3]);
}

/// Moving and turning a transform can be done in either order: the move
/// touches only the translation column, which the turn neither reads for the
/// other columns nor changes.
pub proof fn lemma_translation_rotation_commute(
    m: Seq<Seq<int>>,
    travel: Seq<int>,
    w: int,
    x: int,
    y: int,
    z: int,
)
    requires
        is_mat4(m),
    ensures
        mat4_translated(mat4_rotated(m, w, x, y, z), travel) == mat4_rotated(
            mat4_translated(m, travel),
            w,
            x,
            y,
            z,
        ),
{
    let rot = mat4_rot_spec(w, x, y, z);
    let moved = mat4_translated(m, travel);
    let left = mat4_translated(mat4_rotated(m, w, x, y, z), travel);
    let right = mat4_rotated(moved, w, x, y, z);
    lemma_rotation_keeps_translation(m, w, x, y, z);
    lemma_rotation_keeps_translation(moved, w, x, y, z);
    assert forall|c: int, r: int| 0 <= c < 3 && 0 <= r < 4 implies #[trigger] left[c][r]
        == right[c][r] by {
        assert(mat4_product_entry(m, rot, c, r) == mat4_product_entry(moved, rot, c, r))
            by (nonlinear_arith)
            requires
                mat4_product_entry(m, rot, c, r) == m[0][r] * rot[c][0] + m[1][r] * rot[c][1]
                    + m[2][r] * rot[c][2] + m[3][r] * rot[c][3],
                mat4_product_entry(moved, rot, c, r) == moved[0][r] * rot[c][0] + moved[1][r]
                    * rot[c][1] + moved[2][r] * rot[c][2] + moved[3][r] * rot[c][3],
                rot[c][3] == 0,
                moved[0][r] == m[0][r],
                moved[1][r] == m[1][r],
                moved[2][r] == m[2][r],
        ;
    }
    assert(left =~~= right);
}

} // verus!
