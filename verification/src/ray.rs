//! Rays and the range of acceptable ray parameters.

use vstd::prelude::*;
use crate::fixed::Fixed;
use crate::vec3::{Vec3, v3_add, v3_scale};

verus! {

/// A half line: an origin and a direction.
#[derive(Clone, Copy, PartialEq, Eq, Structural, Debug)]
pub struct Ray {
    pub origin: Vec3,
    pub direction: Vec3,
}

/// Spec mirror of `Ray::point_at_parameter`.
pub open spec fn ray_at(ray: Ray, t: Fixed) -> Vec3 {
    v3_add(ray.origin, v3_scale(ray.direction, t))
}

/// The origin of a ray, for contracts.
pub open spec fn ray_origin(ray: Ray) -> Vec3 {
    ray.origin
}

/// The direction of a ray, for contracts.
pub open spec fn ray_direction(ray: Ray) -> Vec3 {
    ray.direction
}

impl Ray {
    /// Builds a ray from an origin and a direction.
    pub fn new(origin: Vec3, direction: Vec3) -> (res: Ray)
        ensures
            res == (Ray { origin, direction }),
    {
        Ray { origin, direction }
    }

    /// The origin.
    pub fn origin(&self) -> (res: Vec3)
        ensures
            res == ray_origin(*self),
    {
        self.origin
    }

    /// The direction.
    pub fn direction(&self) -> (res: Vec3)
        ensures
            res == ray_direction(*self),
    {
        self.direction
    }

    /// The point `origin + t * direction`.
    pub fn point_at_parameter(&self, t: Fixed) -> (res: Vec3)
        ensures
            res == ray_at(*self, t),
    {
        self.origin.add(self.direction.scale(t))
    }
}

/// An interval of acceptable ray parameters; callers keep `min <= max`.
#[derive(Clone, Copy, PartialEq, Eq, Structural, Debug)]
pub struct FactorRange {
    pub max: Fixed,
    pub min: Fixed,
}

/// Spec mirror of `FactorRange::clamp`.
pub open spec fn clamp_of(range: FactorRange, value: Fixed) -> Fixed {
    let lo = if value.r < range.min.r {
        range.min
    } else {
        value
    };
    if lo.r > range.max.r {
        range.max
    } else {
        lo
    }
}

impl FactorRange {
    /// Builds a range from its bounds.
    pub fn new(min: Fixed, max: Fixed) -> (res: Self)
        ensures
            res == (FactorRange { max, min }),
    {
        Self { min, max }
    }

    /// The value pulled into `[min, max]`.
    pub fn clamp(&self, value: Fixed) -> (res: Fixed)
        ensures
            res == clamp_of(*self, value),
    {
        let lo = if value.r < self.min.r {
            self.min
        } else {
            value
        };
        if lo.r > self.max.r {
            self.max
        } else {
            lo
        }
    }

    /// Whether the value lies strictly between the bounds.
    pub fn surrounds(&self, value: Fixed) -> (res: bool)
        ensures
            res == (self.min.r < value.r && value.r < self.max.r),
    {
        self.min.r < value.r && value.r < self.max.r
    }
}

} // verus!
