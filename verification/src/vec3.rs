//! Three-component fixed-point vectors: points, directions and colors.

use vstd::prelude::*;
use crate::fixed::{Fixed, fadd, fsub, fneg, fmul, fdiv, fsqrt};

verus! {

/// A vector of three fixed-point components.
#[derive(Clone, Copy, PartialEq, Eq, Structural, Debug)]
pub struct Vec3 {
    pub x: Fixed,
    pub y: Fixed,
    pub z: Fixed,
}

/// Spec mirror of `Vec3::add`.
pub open spec fn v3_add(a: Vec3, b: Vec3) -> Vec3 {
    Vec3 { x: fadd(a.x, b.x), y: fadd(a.y, b.y), z: fadd(a.z, b.z) }
}

/// Spec mirror of `Vec3::sub`.
pub open spec fn v3_sub(a: Vec3, b: Vec3) -> Vec3 {
    Vec3 { x: fsub(a.x, b.x), y: fsub(a.y, b.y), z: fsub(a.z, b.z) }
}

/// Spec mirror of `Vec3::neg`.
pub open spec fn v3_neg(a: Vec3) -> Vec3 {
    Vec3 { x: fneg(a.x), y: fneg(a.y), z: fneg(a.z) }
}

/// Spec mirror of `Vec3::scale`.
pub open spec fn v3_scale(a: Vec3, s: Fixed) -> Vec3 {
    Vec3 { x: fmul(a.x, s), y: fmul(a.y, s), z: fmul(a.z, s) }
}

/// Spec mirror of `Vec3::divs`.
pub open spec fn v3_divs(a: Vec3, s: Fixed) -> Vec3 {
    Vec3 { x: fdiv(a.x, s), y: fdiv(a.y, s), z: fdiv(a.z, s) }
}

/// Spec mirror of `Vec3::comp_mul`.
pub open spec fn v3_comp_mul(a: Vec3, b: Vec3) -> Vec3 {
    Vec3 { x: fmul(a.x, b.x), y: fmul(a.y, b.y), z: fmul(a.z, b.z) }
}

/// Spec mirror of `Vec3::dot`.
pub open spec fn v3_dot(a: Vec3, b: Vec3) -> Fixed {
    fadd(fadd(fmul(a.x, b.x), fmul(a.y, b.y)), fmul(a.z, b.z))
}

/// Spec mirror of `Vec3::cross`.
pub open spec fn v3_cross(a: Vec3, b: Vec3) -> Vec3 {
    Vec3 {
        x: fsub(fmul(a.y, b.z), fmul(a.z, b.y)),
        y: fsub(fmul(a.z, b.x), fmul(a.x, b.z)),
        z: fsub(fmul(a.x, b.y), fmul(a.y, b.x)),
    }
}

/// Spec mirror of `Vec3::length`: the square root of the self dot product.
pub open spec fn v3_length(a: Vec3) -> Fixed {
    fsqrt(v3_dot(a, a))
}

/// Spec mirror of `Vec3::unit`: the vector divided by its length
/// (componentwise zero when the length is zero).
pub open spec fn v3_unit(a: Vec3) -> Vec3 {
    v3_divs(a, v3_length(a))
}

impl Vec3 {
    /// Builds a vector from its components.
    pub fn new(x: Fixed, y: Fixed, z: Fixed) -> (res: Vec3)
        ensures
            res == (Vec3 { x, y, z }),
    {
        Vec3 { x, y, z }
    }

    /// The zero vector.
    pub fn zero() -> (res: Vec3)
        ensures
            res == (Vec3 { x: Fixed { r: 0 }, y: Fixed { r: 0 }, z: Fixed { r: 0 } }),
    {
        Vec3 { x: Fixed { r: 0 }, y: Fixed { r: 0 }, z: Fixed { r: 0 } }
    }

    /// Componentwise saturating addition.
    pub fn add(self, o: Vec3) -> (res: Vec3)
        ensures
            res == v3_add(self, o),
    {
        Vec3 { x: self.x.add(o.x), y: self.y.add(o.y), z: self.z.add(o.z) }
    }

    /// Componentwise saturating subtraction.
    pub fn sub(self, o: Vec3) -> (res: Vec3)
        ensures
            res == v3_sub(self, o),
    {
        Vec3 { x: self.x.sub(o.x), y: self.y.sub(o.y), z: self.z.sub(o.z) }
    }

    /// Componentwise negation.
    pub fn neg(self) -> (res: Vec3)
        ensures
            res == v3_neg(self),
    {
        Vec3 { x: self.x.neg(), y: self.y.neg(), z: self.z.neg() }
    }

    /// Multiplication by a scalar.
    pub fn scale(self, s: Fixed) -> (res: Vec3)
        ensures
            res == v3_scale(self, s),
    {
        Vec3 { x: self.x.mul(s), y: self.y.mul(s), z: self.z.mul(s) }
    }

    /// Division by a scalar (componentwise zero when the scalar is zero).
    pub fn divs(self, s: Fixed) -> (res: Vec3)
        ensures
            res == v3_divs(self, s),
    {
        Vec3 { x: self.x.div(s), y: self.y.div(s), z: self.z.div(s) }
    }

    /// Componentwise product, the attenuation step of the integrator.
    pub fn comp_mul(self, o: Vec3) -> (res: Vec3)
        ensures
            res == v3_comp_mul(self, o),
    {
        Vec3 { x: self.x.mul(o.x), y: self.y.mul(o.y), z: self.z.mul(o.z) }
    }

    /// The dot product.
    pub fn dot(self, o: Vec3) -> (res: Fixed)
        ensures
            res == v3_dot(self, o),
    {
        self.x.mul(o.x).add(self.y.mul(o.y)).add(self.z.mul(o.z))
    }

    /// The cross product.
    pub fn cross(self, o: Vec3) -> (res: Vec3)
        ensures
            res == v3_cross(self, o),
    {
        Vec3 {
            x: self.y.mul(o.z).sub(self.z.mul(o.y)),
            y: self.z.mul(o.x).sub(self.x.mul(o.z)),
            z: self.x.mul(o.y).sub(self.y.mul(o.x)),
        }
    }

    /// The Euclidean length.
    pub fn length(self) -> (res: Fixed)
        ensures
            res == v3_length(self),
    {
        self.dot(self).sqrt()
    }

    /// The vector scaled to unit length (zero when the length is zero).
    pub fn unit(self) -> (res: Vec3)
        ensures
            res == v3_unit(self),
    {
        let l = self.length();
        self.divs(l)
    }
}

/// The square of a fixed-point number is nonnegative.
pub proof fn lemma_fmul_self_nonneg(a: Fixed)
    ensures
        fmul(a, a).r >= 0,
{
    assert((a.r as int) * (a.r as int) >= 0) by (nonlinear_arith);
}

/// A self dot product is nonnegative.
pub proof fn lemma_dot_self_nonneg(a: Vec3)
    ensures
        v3_dot(a, a).r >= 0,
{
    lemma_fmul_self_nonneg(a.x);
    lemma_fmul_self_nonneg(a.y);
    lemma_fmul_self_nonneg(a.z);
}

/// Negating one factor negates a fixed-point product, for factors inside
/// the saturation range.
pub proof fn lemma_fmul_neg(a: Fixed, b: Fixed)
    requires
        b.r > -0x7fff_ffff_ffff_ffffi64 - 1,
    ensures
        fmul(a, fneg(b)) == fneg(fmul(a, b)),
{
    assert((a.r as int) * (fneg(b).r as int) == -((a.r as int) * (b.r as int)))
        by (nonlinear_arith)
        requires
            fneg(b).r as int == -(b.r as int),
    ;
}

/// Negating one argument negates the dot product, for components inside
/// the saturation range.
pub proof fn lemma_dot_neg(a: Vec3, b: Vec3)
    requires
        b.x.r > -0x7fff_ffff_ffff_ffffi64 - 1,
        b.y.r > -0x7fff_ffff_ffff_ffffi64 - 1,
        b.z.r > -0x7fff_ffff_ffff_ffffi64 - 1,
    ensures
        v3_dot(a, v3_neg(b)) == fneg(v3_dot(a, b)),
{
    lemma_fmul_neg(a.x, b.x);
    lemma_fmul_neg(a.y, b.y);
    lemma_fmul_neg(a.z, b.z);
}

} // verus!
