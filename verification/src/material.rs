//! The closed set of surface materials and their scattering behavior.
//!
//! Scattering consumes draws from the caller's generator, so each outcome is
//! pinned to a spec mirror over the incoming generator state: the same state
//! always yields the same scattered ray.  Diffuse and metallic surfaces pick
//! their bounce from a rejection-sampled point of the unit ball; a dielectric
//! chooses between reflection and Snell refraction by Schlick's reflectance
//! against a uniform draw, and is forced to reflect under total internal
//! reflection.

use vstd::prelude::*;
use crate::fixed::{Fixed, SCALE, fadd, fsub, fneg, fmul, fdiv, fsqrt};
use crate::hitable::HitRecord;
use crate::ray::Ray;
use crate::rng::{Rng, rng_step, frac_of, symmetric_of};
use crate::vec3::{Vec3, v3_add, v3_sub, v3_neg, v3_scale, v3_dot, v3_unit, v3_length};

verus! {

/// How many rejection-sampling attempts a random draw from the unit ball
/// makes before falling back to a fixed interior point.
pub const SAMPLE_TRIES: u32 = 64;

/// Raw threshold below which a scatter direction counts as degenerate.
pub const NEAR_ZERO_RAW: i64 = 7;

/// The color white, the attenuation of a dielectric surface.
pub open spec fn white() -> Vec3 {
    Vec3 { x: Fixed { r: SCALE }, y: Fixed { r: SCALE }, z: Fixed { r: SCALE } }
}

/// A surface material: an ideal diffuse reflector, a fuzzed specular
/// reflector, or a transparent refractor.
#[derive(Clone, Copy, PartialEq, Eq, Structural, Debug)]
pub enum Material {
    Lambertian { albedo: Vec3 },
    Metal { albedo: Vec3, fuzz: Fixed },
    Dielectric { refraction_index: Fixed },
}

impl Default for Material {
    /// A black diffuse surface.
    fn default() -> (res: Self)
        ensures
            res == (Material::Lambertian {
                albedo: Vec3 { x: Fixed { r: 0 }, y: Fixed { r: 0 }, z: Fixed { r: 0 } },
            }),
    {
        Material::Lambertian {
            albedo: Vec3 { x: Fixed { r: 0 }, y: Fixed { r: 0 }, z: Fixed { r: 0 } },
        }
    }
}

/// The point of the open unit ball drawn by rejection sampling from the
/// state `state`, together with the state after the draw; a fixed interior
/// point when every attempt was rejected.
pub open spec fn unit_sphere_sample(state: u64, tries: nat) -> (Vec3, u64)
    decreases tries,
{
    if tries == 0 {
        (Vec3 { x: Fixed { r: 32768 }, y: Fixed { r: 0 }, z: Fixed { r: 0 } }, state)
    } else {
        let s1 = rng_step(state);
        let s2 = rng_step(s1);
        let s3 = rng_step(s2);
        let p = Vec3 { x: symmetric_of(s1), y: symmetric_of(s2), z: symmetric_of(s3) };
        if v3_dot(p, p).r < SCALE {
            (p, s3)
        } else {
            unit_sphere_sample(s3, (tries - 1) as nat)
        }
    }
}

/// The unit-scale direction drawn from the state: the unit-ball sample,
/// normalized.
pub open spec fn unit_vector_sample(state: u64, tries: nat) -> (Vec3, u64) {
    let ps = unit_sphere_sample(state, tries);
    (v3_unit(ps.0), ps.1)
}

/// The reflection of `v` about the normal `n`: `v - 2 (v . n) n`.
pub open spec fn reflect_of(v: Vec3, n: Vec3) -> Vec3 {
    v3_sub(v, v3_scale(n, fmul(Fixed { r: 131072 }, v3_dot(v, n))))
}

/// The magnitude of a fixed-point number.
pub open spec fn fabs(a: Fixed) -> Fixed {
    if a.r >= 0 {
        a
    } else {
        fneg(a)
    }
}

/// The cosine term `min(-uv . n, 1)` of the refraction formulas.
pub open spec fn cos_theta_of(uv: Vec3, n: Vec3) -> Fixed {
    let d = v3_dot(v3_neg(uv), n);
    if d.r < SCALE {
        d
    } else {
        Fixed { r: SCALE }
    }
}

/// Snell refraction of the unit direction `uv` at the normal `n` with
/// relative index `etai_over_etat`, by perpendicular and parallel parts.
pub open spec fn refract_of(uv: Vec3, n: Vec3, etai_over_etat: Fixed) -> Vec3 {
    let cos = cos_theta_of(uv, n);
    let r_out_perp = v3_scale(v3_add(uv, v3_scale(n, cos)), etai_over_etat);
    let diff = fabs(fsub(Fixed { r: SCALE }, v3_dot(r_out_perp, r_out_perp)));
    let r_out_parallel = v3_scale(n, fneg(fsqrt(diff)));
    v3_add(r_out_perp, r_out_parallel)
}

/// Schlick's reflectance approximation `r0 + (1 - r0)(1 - cos)^5` with
/// `r0 = ((1 - n)/(1 + n))^2`.
pub open spec fn reflectance_of(cosine: Fixed, refraction_index: Fixed) -> Fixed {
    let one = Fixed { r: SCALE };
    let r0 = fdiv(fsub(one, refraction_index), fadd(one, refraction_index));
    let r0s = fmul(r0, r0);
    let om = fsub(one, cosine);
    let om5 = fmul(fmul(fmul(fmul(om, om), om), om), om);
    fadd(r0s, fmul(fsub(one, r0s), om5))
}

/// The relative refraction index a dielectric uses at a hit: inverted when
/// the ray strikes the outside of the surface.
pub open spec fn relative_index_of(refraction_index: Fixed, rec: HitRecord) -> Fixed {
    if rec.front_face {
        fdiv(Fixed { r: SCALE }, refraction_index)
    } else {
        refraction_index
    }
}

/// Whether a dielectric hit is under total internal reflection:
/// `relative_index * sin_theta > 1`.
pub open spec fn dielectric_cannot_refract(
    refraction_index: Fixed,
    ray: Ray,
    rec: HitRecord,
) -> bool {
    let ri = relative_index_of(refraction_index, rec);
    let ud = v3_unit(ray.direction);
    let cos = cos_theta_of(ud, rec.normal);
    let sin = fsqrt(fsub(Fixed { r: SCALE }, fmul(cos, cos)));
    fmul(ri, sin).r > SCALE
}

/// The outcome of scattering `m` at the hit `rec`, as a function of the
/// incoming generator state, paired with the state after the draw.
pub open spec fn scatter_of(m: Material, ray: Ray, rec: HitRecord, state: u64) -> (Option<
    (Ray, Vec3),
>, u64) {
    match m {
        Material::Lambertian { albedo } => {
            let vs = unit_vector_sample(state, SAMPLE_TRIES as nat);
            let dir = if v3_length(vs.0).r < NEAR_ZERO_RAW {
                rec.normal
            } else {
                vs.0
            };
            let reflected = v3_add(rec.normal, dir);
            (
                Some((Ray { origin: rec.source_point, direction: reflected }, albedo)),
                vs.1,
            )
        },
        Material::Metal { albedo, fuzz } => {
            let reflected = reflect_of(ray.direction, rec.normal);
            let vs = unit_vector_sample(state, SAMPLE_TRIES as nat);
            let dir = v3_add(v3_unit(reflected), v3_scale(vs.0, fuzz));
            (Some((Ray { origin: rec.source_point, direction: dir }, albedo)), vs.1)
        },
        Material::Dielectric { refraction_index } => {
            let ri = relative_index_of(refraction_index, rec);
            let ud = v3_unit(ray.direction);
            let cos = cos_theta_of(ud, rec.normal);
            if dielectric_cannot_refract(refraction_index, ray, rec) {
                (
                    Some((Ray { origin: rec.source_point, direction: reflect_of(ud, rec.normal) }, white())),
                    state,
                )
            } else {
                let s1 = rng_step(state);
                let dir = if reflectance_of(cos, ri).r > frac_of(s1).r {
                    reflect_of(ud, rec.normal)
                } else {
                    refract_of(ud, rec.normal, ri)
                };
                (Some((Ray { origin: rec.source_point, direction: dir }, white())), s1)
            }
        },
    }
}

/// The attenuation each material applies: its albedo, or pure white for a
/// dielectric.
pub open spec fn scatter_attenuation(m: Material) -> Vec3 {
    match m {
        Material::Lambertian { albedo } => albedo,
        Material::Metal { albedo, fuzz } => albedo,
        Material::Dielectric { refraction_index } => white(),
    }
}

/// Draws a point of the open unit ball by bounded rejection sampling.
pub fn random_in_unit_sphere(rng: &mut Rng, tries: u32) -> (res: Vec3)
    ensures
        res == unit_sphere_sample(old(rng).state, tries as nat).0,
        final(rng).state == unit_sphere_sample(old(rng).state, tries as nat).1,
        v3_dot(res, res).r < SCALE,
    decreases tries,
{
    if tries == 0 {
        let p = Vec3 { x: Fixed { r: 32768 }, y: Fixed { r: 0 }, z: Fixed { r: 0 } };
        proof {
            assert(32768int * 32768int == 1073741824int);
            assert(1073741824int / 65536int == 16384int) by (nonlinear_arith);
            assert(crate::fixed::tdiv_s(1073741824int, 65536int) == 16384int);
            assert(fmul(p.x, p.x) == Fixed { r: 16384 });
            assert(fmul(p.y, p.y) == Fixed { r: 0 });
            assert(fmul(p.z, p.z) == Fixed { r: 0 });
            assert(v3_dot(p, p) == Fixed { r: 16384 });
        }
        p
    } else {
        let x = rng.next_symmetric();
        let y = rng.next_symmetric();
        let z = rng.next_symmetric();
        let p = Vec3::new(x, y, z);
        if p.dot(p).r < SCALE {
            p
        } else {
            random_in_unit_sphere(rng, tries - 1)
        }
    }
}

/// Draws a unit-scale direction: a unit-ball point, normalized.
pub fn random_unit_vector(rng: &mut Rng, tries: u32) -> (res: Vec3)
    ensures
        res == unit_vector_sample(old(rng).state, tries as nat).0,
        final(rng).state == unit_vector_sample(old(rng).state, tries as nat).1,
{
    let p = random_in_unit_sphere(rng, tries);
    p.unit()
}

/// Reflects `v` about the normal `n`.
pub fn reflect(v: Vec3, n: Vec3) -> (res: Vec3)
    ensures
        res == reflect_of(v, n),
{
    let two = Fixed { r: 131072 };
    v.sub(n.scale(two.mul(v.dot(n))))
}

/// Refracts the unit direction `uv` at the normal `n`.
pub fn refract(uv: Vec3, n: Vec3, etai_over_etat: Fixed) -> (res: Vec3)
    ensures
        res == refract_of(uv, n, etai_over_etat),
{
    let one = Fixed { r: SCALE };
    let d = uv.neg().dot(n);
    let cos = if d.r < SCALE {
        d
    } else {
        one
    };
    let r_out_perp = uv.add(n.scale(cos)).scale(etai_over_etat);
    let diff = one.sub(r_out_perp.dot(r_out_perp));
    let diff_abs = if diff.r >= 0 {
        diff
    } else {
        diff.neg()
    };
    let r_out_parallel = n.scale(diff_abs.sqrt().neg());
    r_out_perp.add(r_out_parallel)
}

/// Schlick's reflectance approximation.
pub fn reflectance(cosine: Fixed, refraction_index: Fixed) -> (res: Fixed)
    ensures
        res == reflectance_of(cosine, refraction_index),
{
    let one = Fixed { r: SCALE };
    let r0 = one.sub(refraction_index).div(one.add(refraction_index));
    let r0s = r0.mul(r0);
    let om = one.sub(cosine);
    let om5 = om.mul(om).mul(om).mul(om).mul(om);
    r0s.add(one.sub(r0s).mul(om5))
}

impl Material {
    /// Scatters the incoming ray at the hit: the result is a function of the
    /// material, the ray, the record and the generator state; no material
    /// ever absorbs a ray, and a dielectric never tints one.  Under total
    /// internal reflection the scattered direction is the pure reflection of
    /// the unit incoming direction about the normal.
    pub fn scatter(&self, ray: &Ray, record: &HitRecord, rng: &mut Rng) -> (res: Option<
        (Ray, Vec3),
    >)
        ensures
            res == scatter_of(*self, *ray, *record, old(rng).state).0,
            final(rng).state == scatter_of(*self, *ray, *record, old(rng).state).1,
            res matches Some(p) && p.1 == scatter_attenuation(*self),
            res matches Some(p) && p.0.origin == record.source_point,
            (match *self {
                Material::Dielectric { refraction_index } => dielectric_cannot_refract(
                    refraction_index,
                    *ray,
                    *record,
                ) ==> res == Some(
                    (
                        Ray {
                            origin: record.source_point,
                            direction: reflect_of(v3_unit(ray.direction), record.normal),
                        },
                        white(),
                    ),
                ),
                _ => true,
            }),
    {
        match *self {
            Material::Lambertian { albedo } => {
                let rv = random_unit_vector(rng, SAMPLE_TRIES);
                let near_zero = rv.length().r < NEAR_ZERO_RAW;
                let direction = if near_zero {
                    record.normal
                } else {
                    rv
                };
                let reflected = record.normal.add(direction);
                let scattered = Ray::new(record.source_point, reflected);
                Some((scattered, albedo))
            },
            Material::Metal { albedo, fuzz } => {
                let reflected = reflect(ray.direction(), record.normal);
                let rv = random_unit_vector(rng, SAMPLE_TRIES);
                let direction = reflected.unit().add(rv.scale(fuzz));
                let scattered = Ray::new(record.source_point, direction);
                Some((scattered, albedo))
            },
            Material::Dielectric { refraction_index } => {
                let one = Fixed { r: SCALE };
                let ri = if record.front_face {
                    one.div(refraction_index)
                } else {
                    refraction_index
                };
                let unit_direction = ray.direction().unit();
                let d = unit_direction.neg().dot(record.normal);
                let cos_theta = if d.r < SCALE {
                    d
                } else {
                    one
                };
                let sin_theta = one.sub(cos_theta.mul(cos_theta)).sqrt();
                let cannot_refract = ri.mul(sin_theta).r > SCALE;

                if cannot_refract {
                    let direction = reflect(unit_direction, record.normal);
                    let scattered = Ray::new(record.source_point, direction);
                    Some((scattered, Vec3::new(one, one, one)))
                } else {
                    let draw = rng.next_fraction();
                    let direction = if reflectance(cos_theta, ri).r > draw.r {
                        reflect(unit_direction, record.normal)
                    } else {
                        refract(unit_direction, record.normal, ri)
                    };
                    let scattered = Ray::new(record.source_point, direction);
                    Some((scattered, Vec3::new(one, one, one)))
                }
            },
        }
    }
}

} // verus!
