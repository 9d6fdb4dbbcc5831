//! The 4x4 transformation matrix and its composition operations.
//!
//! A [`Matrix`] wraps sixteen IEEE-754 binary32 values in row-major order
//! (the element at row `r`, column `c` sits at linear index `r * 4 + c`),
//! each handled as its 32-bit pattern. Every operation leaves its receiver
//! untouched and returns a new value: it builds a fixed elementary matrix for
//! the requested transform and multiplies it onto the current one, with the
//! elementary matrix as the left operand of the product formula.

#![allow(non_snake_case)]

use crate::scalar::{
    add_of, feq, is_finite, is_zero, mul_of, neg_bits, negate, add_bits, mul_bits, ONE_BITS,
    ZERO_BITS,
};
use vstd::prelude::*;

verus! {

/// One element of the product: the dot product of row `i` of `b` with column
/// `j` of `a`, the four products summed left to right.
pub open spec fn cell(a: Seq<u32>, b: Seq<u32>, i: int, j: int) -> u32 {
    add_of(
        add_of(
            add_of(mul_of(b[4 * i + 0], a[0 + j]), mul_of(b[4 * i + 1], a[4 + j])),
            mul_of(b[4 * i + 2], a[8 + j]),
        ),
        mul_of(b[4 * i + 3], a[12 + j]),
    )
}

/// The 4x4 product with `b` as the left matrix and `a` as the right one:
/// element `(i, j)` of the result is the dot product of row `i` of `b` with
/// column `j` of `a`.
pub open spec fn mat_mul(a: Seq<u32>, b: Seq<u32>) -> Seq<u32> {
    seq![
        cell(a, b, 0, 0),
        cell(a, b, 0, 1),
        cell(a, b, 0, 2),
        cell(a, b, 0, 3),
        cell(a, b, 1, 0),
        cell(a, b, 1, 1),
        cell(a, b, 1, 2),
        cell(a, b, 1, 3),
        cell(a, b, 2, 0),
        cell(a, b, 2, 1),
        cell(a, b, 2, 2),
        cell(a, b, 2, 3),
        cell(a, b, 3, 0),
        cell(a, b, 3, 1),
        cell(a, b, 3, 2),
        cell(a, b, 3, 3),
    ]
}

/// The identity matrix: ones on the diagonal, positive zeros elsewhere.
pub open spec fn identity_seq() -> Seq<u32> {
    seq![
        ONE_BITS, ZERO_BITS, ZERO_BITS, ZERO_BITS,
        ZERO_BITS, ONE_BITS, ZERO_BITS, ZERO_BITS,
        ZERO_BITS, ZERO_BITS, ONE_BITS, ZERO_BITS,
        ZERO_BITS, ZERO_BITS, ZERO_BITS, ONE_BITS,
    ]
}

/// The elementary translation matrix: the identity with its last row set to
/// `[tx, ty, tz, 1]`.
pub open spec fn translation_seq(tx: u32, ty: u32, tz: u32) -> Seq<u32> {
    seq![
        ONE_BITS, ZERO_BITS, ZERO_BITS, ZERO_BITS,
        ZERO_BITS, ONE_BITS, ZERO_BITS, ZERO_BITS,
        ZERO_BITS, ZERO_BITS, ONE_BITS, ZERO_BITS,
        tx, ty, tz, ONE_BITS,
    ]
}

/// The elementary rotation about the X axis, from the cosine and sine of the
/// angle: row 1 is `[0, c, s, 0]`, row 2 is `[0, -s, c, 0]`, rows 0 and 3 are
/// identity rows.
pub open spec fn x_rotation_seq(c: u32, s: u32) -> Seq<u32> {
    seq![
        ONE_BITS, ZERO_BITS, ZERO_BITS, ZERO_BITS,
        ZERO_BITS, c, s, ZERO_BITS,
        ZERO_BITS, neg_bits(s), c, ZERO_BITS,
        ZERO_BITS, ZERO_BITS, ZERO_BITS, ONE_BITS,
    ]
}

/// The elementary rotation about the Y axis: row 0 is `[c, 0, -s, 0]`, row 2
/// is `[s, 0, c, 0]`, rows 1 and 3 are identity rows.
pub open spec fn y_rotation_seq(c: u32, s: u32) -> Seq<u32> {
    seq![
        c, ZERO_BITS, neg_bits(s), ZERO_BITS,
        ZERO_BITS, ONE_BITS, ZERO_BITS, ZERO_BITS,
        s, ZERO_BITS, c, ZERO_BITS,
        ZERO_BITS, ZERO_BITS, ZERO_BITS, ONE_BITS,
    ]
}

/// The elementary rotation about the Z axis: row 0 is `[c, s, 0, 0]`, row 1
/// is `[-s, c, 0, 0]`, rows 2 and 3 are identity rows.
pub open spec fn z_rotation_seq(c: u32, s: u32) -> Seq<u32> {
    seq![
        c, s, ZERO_BITS, ZERO_BITS,
        neg_bits(s), c, ZERO_BITS, ZERO_BITS,
        ZERO_BITS, ZERO_BITS, ONE_BITS, ZERO_BITS,
        ZERO_BITS, ZERO_BITS, ZERO_BITS, ONE_BITS,
    ]
}

/// The elementary scaling matrix: diagonal `[sx, sy, sz, 1]`, positive zeros
/// elsewhere.
pub open spec fn scaling_seq(sx: u32, sy: u32, sz: u32) -> Seq<u32> {
    seq![
        sx, ZERO_BITS, ZERO_BITS, ZERO_BITS,
        ZERO_BITS, sy, ZERO_BITS, ZERO_BITS,
        ZERO_BITS, ZERO_BITS, sz, ZERO_BITS,
        ZERO_BITS, ZERO_BITS, ZERO_BITS, ONE_BITS,
    ]
}

/// The matrix is numerically the identity: exact ones on the diagonal and
/// zeros of either sign elsewhere. Multiplying by such a matrix changes no
/// finite element's value.
pub open spec fn is_identity_like(b: Seq<u32>) -> bool {
    &&& b.len() == 16
    &&& b[0] == ONE_BITS
    &&& is_zero(b[1])
    &&& is_zero(b[2])
    &&& is_zero(b[3])
    &&& is_zero(b[4])
    &&& b[5] == ONE_BITS
    &&& is_zero(b[6])
    &&& is_zero(b[7])
    &&& is_zero(b[8])
    &&& is_zero(b[9])
    &&& b[10] == ONE_BITS
    &&& is_zero(b[11])
    &&& is_zero(b[12])
    &&& is_zero(b[13])
    &&& is_zero(b[14])
    &&& b[15] == ONE_BITS
}

/// Every element encodes a finite value.
pub open spec fn finite16(a: Seq<u32>) -> bool {
    &&& a.len() == 16
    &&& is_finite(a[0])
    &&& is_finite(a[1])
    &&& is_finite(a[2])
    &&& is_finite(a[3])
    &&& is_finite(a[4])
    &&& is_finite(a[5])
    &&& is_finite(a[6])
    &&& is_finite(a[7])
    &&& is_finite(a[8])
    &&& is_finite(a[9])
    &&& is_finite(a[10])
    &&& is_finite(a[11])
    &&& is_finite(a[12])
    &&& is_finite(a[13])
    &&& is_finite(a[14])
    &&& is_finite(a[15])
}

/// The two matrices agree element by element as numbers (bit for bit, except
/// that zeros of either sign compare equal).
pub open spec fn mat_feq(x: Seq<u32>, y: Seq<u32>) -> bool {
    &&& x.len() == 16
    &&& y.len() == 16
    &&& feq(x[0], y[0])
    &&& feq(x[1], y[1])
    &&& feq(x[2], y[2])
    &&& feq(x[3], y[3])
    &&& feq(x[4], y[4])
    &&& feq(x[5], y[5])
    &&& feq(x[6], y[6])
    &&& feq(x[7], y[7])
    &&& feq(x[8], y[8])
    &&& feq(x[9], y[9])
    &&& feq(x[10], y[10])
    &&& feq(x[11], y[11])
    &&& feq(x[12], y[12])
    &&& feq(x[13], y[13])
    &&& feq(x[14], y[14])
    &&& feq(x[15], y[15])
}

/// An immutable 4x4 affine transform, sixteen binary32 patterns in row-major
/// order. A fresh value equals the identity matrix; every operation returns a
/// new value and never mutates its receiver.
#[derive(Clone, Copy, PartialEq, Eq, Debug)]
pub struct Matrix([u32; 16]);

impl View for Matrix {
    type V = Seq<u32>;

    closed spec fn view(&self) -> Seq<u32> {
        self.0@
    }
}

impl Matrix {
    /// A fresh transform: the identity matrix.
    pub fn new() -> (r: Matrix)
        ensures
            r@ == identity_seq(),
    {
        Matrix::unit()
    }

    /// The identity matrix.
    pub fn unit() -> (r: Matrix)
        ensures
            r@ == identity_seq(),
    {
        Matrix(unit())
    }

    /// Wraps sixteen row-major binary32 patterns as a transform.
    pub fn from(mat: [u32; 16]) -> (r: Matrix)
        ensures
            r@ == mat@,
    {
        Matrix(mat)
    }

    /// Reads out the sixteen row-major binary32 patterns.
    pub fn raw(&self) -> (r: [u32; 16])
        ensures
            r@ == self@,
    {
        self.0
    }

    /// Composes a translation by `(tx, ty, tz)` onto this transform, each
    /// component a binary32 pattern. Translating by zeros changes no finite
    /// element's value; translating the identity yields the elementary
    /// translation matrix itself.
    pub fn translate(&self, tx: u32, ty: u32, tz: u32) -> (r: Matrix)
        ensures
            r@ == mat_mul(self@, translation_seq(tx, ty, tz)),
            tx == ZERO_BITS && ty == ZERO_BITS && tz == ZERO_BITS && finite16(self@)
                ==> mat_feq(r@, self@),
            self@ == identity_seq() && is_finite(tx) && is_finite(ty) && is_finite(tz)
                ==> mat_feq(r@, translation_seq(tx, ty, tz)),
    {
        Matrix(multiply(self.0, translation(tx, ty, tz)))
    }

    /// Composes a rotation about the X axis onto this transform, given the
    /// binary32 patterns of the cosine and sine of the angle (evaluating the
    /// trigonometric functions themselves needs floating-point hardware,
    /// which stays with the caller). A rotation by angle zero, whose cosine
    /// is one and whose sine is a zero, changes no finite element's value;
    /// rotating the identity yields the elementary rotation matrix itself.
    pub fn xRotate(&self, c: u32, s: u32) -> (r: Matrix)
        ensures
            r@ == mat_mul(self@, x_rotation_seq(c, s)),
            c == ONE_BITS && is_zero(s) && finite16(self@) ==> mat_feq(r@, self@),
            self@ == identity_seq() && is_finite(c) && is_finite(s)
                ==> mat_feq(r@, x_rotation_seq(c, s)),
    {
        Matrix(multiply(self.0, xRotation(c, s)))
    }

    /// Composes a rotation about the Y axis onto this transform, given the
    /// binary32 patterns of the cosine and sine of the angle. A rotation by
    /// angle zero changes no finite element's value; rotating the identity
    /// yields the elementary rotation matrix itself.
    pub fn yRotate(&self, c: u32, s: u32) -> (r: Matrix)
        ensures
            r@ == mat_mul(self@, y_rotation_seq(c, s)),
            c == ONE_BITS && is_zero(s) && finite16(self@) ==> mat_feq(r@, self@),
            self@ == identity_seq() && is_finite(c) && is_finite(s)
                ==> mat_feq(r@, y_rotation_seq(c, s)),
    {
        Matrix(multiply(self.0, yRotation(c, s)))
    }

    /// Composes a rotation about the Z axis onto this transform, given the
    /// binary32 patterns of the cosine and sine of the angle. A rotation by
    /// angle zero changes no finite element's value; rotating the identity
    /// yields the elementary rotation matrix itself.
    pub fn zRotate(&self, c: u32, s: u32) -> (r: Matrix)
        ensures
            r@ == mat_mul(self@, z_rotation_seq(c, s)),
            c == ONE_BITS && is_zero(s) && finite16(self@) ==> mat_feq(r@, self@),
            self@ == identity_seq() && is_finite(c) && is_finite(s)
                ==> mat_feq(r@, z_rotation_seq(c, s)),
    {
        Matrix(multiply(self.0, zRotation(c, s)))
    }

    /// Composes a scaling by `(sx, sy, sz)` onto this transform, each factor
    /// a binary32 pattern. Scaling by ones changes no finite element's value;
    /// scaling the identity yields the elementary scaling matrix itself.
    pub fn scale(&self, sx: u32, sy: u32, sz: u32) -> (r: Matrix)
        ensures
            r@ == mat_mul(self@, scaling_seq(sx, sy, sz)),
            sx == ONE_BITS && sy == ONE_BITS && sz == ONE_BITS && finite16(self@)
                ==> mat_feq(r@, self@),
            self@ == identity_seq() && is_finite(sx) && is_finite(sy) && is_finite(sz)
                ==> mat_feq(r@, scaling_seq(sx, sy, sz)),
    {
        Matrix(multiply(self.0, scaling(sx, sy, sz)))
    }
}

/// The elementary translation matrix as a raw array.
fn translation(tx: u32, ty: u32, tz: u32) -> (r: [u32; 16])
    ensures
        r@ == translation_seq(tx, ty, tz),
{
    let r: [u32; 16] = [
        ONE_BITS, ZERO_BITS, ZERO_BITS, ZERO_BITS,
        ZERO_BITS, ONE_BITS, ZERO_BITS, ZERO_BITS,
        ZERO_BITS, ZERO_BITS, ONE_BITS, ZERO_BITS,
        tx, ty, tz, ONE_BITS,
    ];
    proof {
        assert(r@ =~= translation_seq(tx, ty, tz));
    }
    r
}

/// The elementary rotation about the X axis, from the cosine and sine of the
/// angle.
fn xRotation(c: u32, s: u32) -> (r: [u32; 16])
    ensures
        r@ == x_rotation_seq(c, s),
{
    let ns = negate(s);
    let r: [u32; 16] = [
        ONE_BITS, ZERO_BITS, ZERO_BITS, ZERO_BITS,
        ZERO_BITS, c, s, ZERO_BITS,
        ZERO_BITS, ns, c, ZERO_BITS,
        ZERO_BITS, ZERO_BITS, ZERO_BITS, ONE_BITS,
    ];
    proof {
        assert(r@ =~= x_rotation_seq(c, s));
    }
    r
}

/// The elementary rotation about the Y axis, from the cosine and sine of the
/// angle.
fn yRotation(c: u32, s: u32) -> (r: [u32; 16])
    ensures
        r@ == y_rotation_seq(c, s),
{
    let ns = negate(s);
    let r: [u32; 16] = [
        c, ZERO_BITS, ns, ZERO_BITS,
        ZERO_BITS, ONE_BITS, ZERO_BITS, ZERO_BITS,
        s, ZERO_BITS, c, ZERO_BITS,
        ZERO_BITS, ZERO_BITS, ZERO_BITS, ONE_BITS,
    ];
    proof {
        assert(r@ =~= y_rotation_seq(c, s));
    }
    r
}

/// The elementary rotation about the Z axis, from the cosine and sine of the
/// angle.
fn zRotation(c: u32, s: u32) -> (r: [u32; 16])
    ensures
        r@ == z_rotation_seq(c, s),
{
    let ns = negate(s);
    let r: [u32; 16] = [
        c, s, ZERO_BITS, ZERO_BITS,
        ns, c, ZERO_BITS, ZERO_BITS,
        ZERO_BITS, ZERO_BITS, ONE_BITS, ZERO_BITS,
        ZERO_BITS, ZERO_BITS, ZERO_BITS, ONE_BITS,
    ];
    proof {
        assert(r@ =~= z_rotation_seq(c, s));
    }
    r
}

/// The elementary scaling matrix as a raw array.
fn scaling(sx: u32, sy: u32, sz: u32) -> (r: [u32; 16])
    ensures
        r@ == scaling_seq(sx, sy, sz),
{
    let r: [u32; 16] = [
        sx, ZERO_BITS, ZERO_BITS, ZERO_BITS,
        ZERO_BITS, sy, ZERO_BITS, ZERO_BITS,
        ZERO_BITS, ZERO_BITS, sz, ZERO_BITS,
        ZERO_BITS, ZERO_BITS, ZERO_BITS, ONE_BITS,
    ];
    proof {
        assert(r@ =~= scaling_seq(sx, sy, sz));
    }
    r
}

/// The dense 4x4 product, `b` as the left matrix and `a` as the right one:
/// 64 scalar products and 48 sums, each row-times-column dot product summed
/// left to right. When `b` is numerically the identity, every finite element
/// of `a` comes through unchanged as a number.
fn multiply(a: [u32; 16], b: [u32; 16]) -> (r: [u32; 16])
    ensures
        r@ == mat_mul(a@, b@),
        is_identity_like(b@) && finite16(a@) ==> mat_feq(r@, a@),
        is_identity_like(a@) && finite16(b@) ==> mat_feq(r@, b@),
{
    let b00 = b[0];
    let b01 = b[1];
    let b02 = b[2];
    let b03 = b[3];
    let b10 = b[4];
    let b11 = b[5];
    let b12 = b[6];
    let b13 = b[7];
    let b20 = b[8];
    let b21 = b[9];
    let b22 = b[10];
    let b23 = b[11];
    let b30 = b[12];
    let b31 = b[13];
    let b32 = b[14];
    let b33 = b[15];
    let a00 = a[0];
    let a01 = a[1];
    let a02 = a[2];
    let a03 = a[3];
    let a10 = a[4];
    let a11 = a[5];
    let a12 = a[6];
    let a13 = a[7];
    let a20 = a[8];
    let a21 = a[9];
    let a22 = a[10];
    let a23 = a[11];
    let a30 = a[12];
    let a31 = a[13];
    let a32 = a[14];
    let a33 = a[15];

    let d00 = add_bits(
        add_bits(add_bits(mul_bits(b00, a00), mul_bits(b01, a10)), mul_bits(b02, a20)),
        mul_bits(b03, a30),
    );
    let d01 = add_bits(
        add_bits(add_bits(mul_bits(b00, a01), mul_bits(b01, a11)), mul_bits(b02, a21)),
        mul_bits(b03, a31),
    );
    let d02 = add_bits(
        add_bits(add_bits(mul_bits(b00, a02), mul_bits(b01, a12)), mul_bits(b02, a22)),
        mul_bits(b03, a32),
    );
    let d03 = add_bits(
        add_bits(add_bits(mul_bits(b00, a03), mul_bits(b01, a13)), mul_bits(b02, a23)),
        mul_bits(b03, a33),
    );
    let d10 = add_bits(
        add_bits(add_bits(mul_bits(b10, a00), mul_bits(b11, a10)), mul_bits(b12, a20)),
        mul_bits(b13, a30),
    );
    let d11 = add_bits(
        add_bits(add_bits(mul_bits(b10, a01), mul_bits(b11, a11)), mul_bits(b12, a21)),
        mul_bits(b13, a31),
    );
    let d12 = add_bits(
        add_bits(add_bits(mul_bits(b10, a02), mul_bits(b11, a12)), mul_bits(b12, a22)),
        mul_bits(b13, a32),
    );
    let d13 = add_bits(
        add_bits(add_bits(mul_bits(b10, a03), mul_bits(b11, a13)), mul_bits(b12, a23)),
        mul_bits(b13, a33),
    );
    let d20 = add_bits(
        add_bits(add_bits(mul_bits(b20, a00), mul_bits(b21, a10)), mul_bits(b22, a20)),
        mul_bits(b23, a30),
    );
    let d21 = add_bits(
        add_bits(add_bits(mul_bits(b20, a01), mul_bits(b21, a11)), mul_bits(b22, a21)),
        mul_bits(b23, a31),
    );
    let d22 = add_bits(
        add_bits(add_bits(mul_bits(b20, a02), mul_bits(b21, a12)), mul_bits(b22, a22)),
        mul_bits(b23, a32),
    );
    let d23 = add_bits(
        add_bits(add_bits(mul_bits(b20, a03), mul_bits(b21, a13)), mul_bits(b22, a23)),
        mul_bits(b23, a33),
    );
    let d30 = add_bits(
        add_bits(add_bits(mul_bits(b30, a00), mul_bits(b31, a10)), mul_bits(b32, a20)),
        mul_bits(b33, a30),
    );
    let d31 = add_bits(
        add_bits(add_bits(mul_bits(b30, a01), mul_bits(b31, a11)), mul_bits(b32, a21)),
        mul_bits(b33, a31),
    );
    let d32 = add_bits(
        add_bits(add_bits(mul_bits(b30, a02), mul_bits(b31, a12)), mul_bits(b32, a22)),
        mul_bits(b33, a32),
    );
    let d33 = add_bits(
        add_bits(add_bits(mul_bits(b30, a03), mul_bits(b31, a13)), mul_bits(b32, a23)),
        mul_bits(b33, a33),
    );

    let r: [u32; 16] = [
        d00, d01, d02, d03,
        d10, d11, d12, d13,
        d20, d21, d22, d23,
        d30, d31, d32, d33,
    ];
    proof {
        assert(r@ =~= mat_mul(a@, b@));
    }
    r
}

/// The identity matrix as a raw array.
fn unit() -> (r: [u32; 16])
    ensures
        r@ == identity_seq(),
{
    let r: [u32; 16] = [
        ONE_BITS, ZERO_BITS, ZERO_BITS, ZERO_BITS,
        ZERO_BITS, ONE_BITS, ZERO_BITS, ZERO_BITS,
        ZERO_BITS, ZERO_BITS, ONE_BITS, ZERO_BITS,
        ZERO_BITS, ZERO_BITS, ZERO_BITS, ONE_BITS,
    ];
    proof {
        assert(r@ =~= identity_seq());
    }
    r
}

} // verus!
