//! Sphere geometry and the scene collection, with the closest-hit contract.

use vstd::prelude::*;
use crate::fixed::{
    Fixed, fadd, fsub, fneg, fmul, fdiv, fsqrt, tdiv_s, lemma_tdiv_mono, lemma_clip_mono,
};
use crate::material::Material;
use crate::ray::{FactorRange, Ray, ray_at};
use crate::vec3::{
    Vec3, v3_sub, v3_neg, v3_divs, v3_dot, lemma_dot_self_nonneg, lemma_dot_neg,
};

verus! {

/// The outcome of a successful intersection test: the hit point, its ray
/// parameter, the unit-scale normal oriented against the ray, the surface
/// material, and whether the ray struck the outside of the surface.
#[derive(Clone, Copy, PartialEq, Eq, Structural, Debug)]
pub struct HitRecord {
    pub source_point: Vec3,
    pub ray_factor: Fixed,
    pub normal: Vec3,
    pub material: Material,
    pub front_face: bool,
}

/// A sphere: center, radius and material.
#[derive(Clone, Copy, PartialEq, Eq, Structural, Debug)]
pub struct Sphere {
    pub center: Vec3,
    pub radius: Fixed,
    pub material: Material,
}

/// The vector from the sphere center to the ray origin.
#[verifier::opaque]
pub open spec fn sphere_oc(s: Sphere, ray: Ray) -> Vec3 {
    v3_sub(ray.origin, s.center)
}

/// The quadratic coefficient `a = D . D`.
#[verifier::opaque]
pub open spec fn sphere_a(ray: Ray) -> Fixed {
    v3_dot(ray.direction, ray.direction)
}

/// The half coefficient `half_b = (O - C) . D`.
#[verifier::opaque]
pub open spec fn sphere_half_b(s: Sphere, ray: Ray) -> Fixed {
    v3_dot(sphere_oc(s, ray), ray.direction)
}

/// The constant coefficient `c = (O - C) . (O - C) - r^2`.
#[verifier::opaque]
pub open spec fn sphere_c(s: Sphere, ray: Ray) -> Fixed {
    fsub(v3_dot(sphere_oc(s, ray), sphere_oc(s, ray)), fmul(s.radius, s.radius))
}

/// The quarter discriminant `half_b^2 - a * c`.
#[verifier::opaque]
pub open spec fn sphere_disc(s: Sphere, ray: Ray) -> Fixed {
    fsub(fmul(sphere_half_b(s, ray), sphere_half_b(s, ray)), fmul(sphere_a(ray), sphere_c(s, ray)))
}

/// The smaller quadratic root `(-half_b - sqrt(disc)) / a`.
#[verifier::opaque]
pub open spec fn sphere_root1(s: Sphere, ray: Ray) -> Fixed {
    fdiv(fsub(fneg(sphere_half_b(s, ray)), fsqrt(sphere_disc(s, ray))), sphere_a(ray))
}

/// The larger quadratic root `(-half_b + sqrt(disc)) / a`.
#[verifier::opaque]
pub open spec fn sphere_root2(s: Sphere, ray: Ray) -> Fixed {
    fdiv(fadd(fneg(sphere_half_b(s, ray)), fsqrt(sphere_disc(s, ray))), sphere_a(ray))
}

/// Whether `t` is a root of the sphere's quadratic lying strictly inside
/// the given parameter bounds.
pub open spec fn is_hit_root(s: Sphere, ray: Ray, min: Fixed, max: Fixed, t: Fixed) -> bool {
    &&& sphere_disc(s, ray).r >= 0
    &&& (t == sphere_root1(s, ray) || t == sphere_root2(s, ray))
    &&& min.r < t.r
    &&& t.r < max.r
}

/// The outward normal `(P(t) - C) / r` at the hit point.
#[verifier::opaque]
pub open spec fn outward_normal(s: Sphere, ray: Ray, t: Fixed) -> Vec3 {
    v3_divs(v3_sub(ray_at(ray, t), s.center), s.radius)
}

/// The record a hit at parameter `t` produces: the normal is flipped to
/// oppose the incoming ray when the outward normal does not already.
#[verifier::opaque]
pub open spec fn hit_record_at(s: Sphere, ray: Ray, t: Fixed) -> HitRecord {
    let p = ray_at(ray, t);
    let n = outward_normal(s, ray, t);
    let ff = v3_dot(ray.direction, n).r <= 0;
    HitRecord {
        source_point: p,
        ray_factor: t,
        normal: if ff {
            n
        } else {
            v3_neg(n)
        },
        material: s.material,
        front_face: ff,
    }
}

/// The intersection result as a function of the inputs: the nearest
/// in-range root's record, if either root lies in range.
#[verifier::opaque]
pub open spec fn sphere_hit_spec(s: Sphere, ray: Ray, min: Fixed, max: Fixed) -> Option<
    HitRecord,
> {
    if sphere_disc(s, ray).r < 0 {
        None
    } else if min.r < sphere_root1(s, ray).r && sphere_root1(s, ray).r < max.r {
        Some(hit_record_at(s, ray, sphere_root1(s, ray)))
    } else if min.r < sphere_root2(s, ray).r && sphere_root2(s, ray).r < max.r {
        Some(hit_record_at(s, ray, sphere_root2(s, ray)))
    } else {
        None
    }
}

/// The scene intersection over the first `k` members as a function of the
/// inputs: a single pass that narrows the upper bound to each hit found.
pub open spec fn list_hit_upto_spec(
    spheres: Seq<Sphere>,
    k: int,
    ray: Ray,
    min: Fixed,
    max: Fixed,
) -> Option<HitRecord>
    decreases k,
{
    if k <= 0 {
        None
    } else {
        let prev = list_hit_upto_spec(spheres, k - 1, ray, min, max);
        let cur_max = match prev {
            Some(r) => r.ray_factor,
            None => max,
        };
        match sphere_hit_spec(spheres[k - 1], ray, min, cur_max) {
            Some(h) => Some(h),
            None => prev,
        }
    }
}

/// The scene intersection over a whole scene as a function of the inputs.
pub open spec fn list_hit_spec(spheres: Seq<Sphere>, ray: Ray, min: Fixed, max: Fixed) -> Option<
    HitRecord,
> {
    list_hit_upto_spec(spheres, spheres.len() as int, ray, min, max)
}

/// The capability of being intersected by a ray, shared by a single
/// primitive and by a whole scene: each implementor names its intersection
/// function and its method is held to it.
pub trait Hitable {
    /// The intersection this implementor computes, as a function of the ray
    /// and the open parameter interval.
    spec fn hit_spec(&self, ray: Ray, min: Fixed, max: Fixed) -> Option<HitRecord>;

    /// Intersects the ray over the open parameter interval.
    fn hit(&self, ray: &Ray, range: FactorRange) -> (res: Option<HitRecord>)
        ensures
            res == self.hit_spec(*ray, range.min, range.max),
    ;
}

impl Hitable for Sphere {
    open spec fn hit_spec(&self, ray: Ray, min: Fixed, max: Fixed) -> Option<HitRecord> {
        sphere_hit_spec(*self, ray, min, max)
    }

    fn hit(&self, ray: &Ray, range: FactorRange) -> (res: Option<HitRecord>) {
        Sphere::hit(self, ray, range)
    }
}

impl Hitable for HitableList {
    open spec fn hit_spec(&self, ray: Ray, min: Fixed, max: Fixed) -> Option<HitRecord> {
        list_hit_spec(self.list@, ray, min, max)
    }

    fn hit(&self, ray: &Ray, range: FactorRange) -> (res: Option<HitRecord>) {
        HitableList::hit(self, ray, range)
    }
}

/// The closest-hit contract over the first `k` members of a scene: a
/// returned record is a hit of some member, no member hits strictly closer,
/// and an empty result means no member hits at all.
pub open spec fn closest_hit_upto(
    spheres: Seq<Sphere>,
    k: int,
    ray: Ray,
    min: Fixed,
    max: Fixed,
    res: Option<HitRecord>,
) -> bool {
    match res {
        Some(rec) => {
            &&& (exists|i: int|
                0 <= i < k && is_hit_root(spheres[i], ray, min, max, rec.ray_factor) && rec
                    == hit_record_at(spheres[i], ray, rec.ray_factor))
            &&& (forall|i: int, t: Fixed|
                0 <= i < k && is_hit_root(spheres[i], ray, min, max, t)
                    ==> rec.ray_factor.r <= t.r)
        },
        None => forall|i: int, t: Fixed|
            0 <= i < k ==> !is_hit_root(spheres[i], ray, min, max, t),
    }
}

/// The closest-hit contract over a whole scene.
pub open spec fn closest_hit_of(
    spheres: Seq<Sphere>,
    ray: Ray,
    min: Fixed,
    max: Fixed,
    res: Option<HitRecord>,
) -> bool {
    closest_hit_upto(spheres, spheres.len() as int, ray, min, max, res)
}

impl Sphere {
    /// Builds a sphere.
    pub fn new(center: Vec3, radius: Fixed, material: Material) -> (res: Self)
        ensures
            res == (Sphere { center, radius, material }),
    {
        Self { center, radius, material }
    }

    /// Intersects the ray with the sphere over the open parameter interval:
    /// the nearest in-range quadratic root wins, and the returned normal is
    /// oriented against the ray.
    pub fn hit(&self, ray: &Ray, range: FactorRange) -> (res: Option<HitRecord>)
        ensures
            match res {
                Some(rec) => {
                    &&& is_hit_root(*self, *ray, range.min, range.max, rec.ray_factor)
                    &&& rec == hit_record_at(*self, *ray, rec.ray_factor)
                    &&& (forall|t: Fixed|
                        is_hit_root(*self, *ray, range.min, range.max, t)
                            ==> rec.ray_factor.r <= t.r)
                    &&& v3_dot(ray.direction, rec.normal).r <= 0
                    &&& rec.front_face == (v3_dot(
                        ray.direction,
                        outward_normal(*self, *ray, rec.ray_factor),
                    ).r <= 0)
                },
                None => forall|t: Fixed| !is_hit_root(*self, *ray, range.min, range.max, t),
            },
            res == sphere_hit_spec(*self, *ray, range.min, range.max),
            res is None <==> (sphere_disc(*self, *ray).r < 0 || (!(range.min.r < sphere_root1(
                *self,
                *ray,
            ).r && sphere_root1(*self, *ray).r < range.max.r) && !(range.min.r < sphere_root2(
                *self,
                *ray,
            ).r && sphere_root2(*self, *ray).r < range.max.r))),
    {
        proof {
            reveal(crate::hitable::sphere_hit_spec);
            reveal(crate::hitable::sphere_oc);
            reveal(crate::hitable::sphere_a);
            reveal(crate::hitable::sphere_half_b);
            reveal(crate::hitable::sphere_c);
            reveal(crate::hitable::sphere_disc);
            reveal(crate::hitable::sphere_root1);
            reveal(crate::hitable::sphere_root2);
            reveal(crate::hitable::outward_normal);
            reveal(crate::hitable::hit_record_at);
        }
        let oc = ray.origin().sub(self.center);
        let a = ray.direction().dot(ray.direction());
        let half_b = oc.dot(ray.direction());
        let c = oc.dot(oc).sub(self.radius.mul(self.radius));
        let discriminant = half_b.mul(half_b).sub(a.mul(c));

        if discriminant.r < 0 {
            return None;
        }

        let sqrtd = discriminant.sqrt();
        let root1 = half_b.neg().sub(sqrtd).div(a);
        let root2 = half_b.neg().add(sqrtd).div(a);
        proof {
            lemma_dot_self_nonneg(ray.direction);
            lemma_roots_ordered(
                fneg(sphere_half_b(*self, *ray)),
                fsqrt(sphere_disc(*self, *ray)),
                sphere_a(*ray),
            );
        }

        let root = if range.surrounds(root1) {
            root1
        } else if range.surrounds(root2) {
            root2
        } else {
            return None;
        };

        let source_point = ray.point_at_parameter(root);
        let outward = source_point.sub(self.center).divs(self.radius);
        let front_face = ray.direction().dot(outward).r <= 0;
        let normal = if front_face {
            outward
        } else {
            proof {
                lemma_dot_neg(ray.direction, outward_normal(*self, *ray, root));
            }
            outward.neg()
        };

        Some(
            HitRecord {
                ray_factor: root,
                source_point,
                material: self.material,
                normal,
                front_face,
            },
        )
    }
}

/// The smaller root stays the smaller one after fixed-point rounding: with
/// `q >= 0` and `a >= 0`, `(n - q) / a <= (n + q) / a`.
proof fn lemma_roots_ordered(n: Fixed, q: Fixed, a: Fixed)
    requires
        q.r >= 0,
        a.r >= 0,
    ensures
        fdiv(fsub(n, q), a).r <= fdiv(fadd(n, q), a).r,
{
    if a.r == 0 {
    } else {
        let lo = fsub(n, q);
        let hi = fadd(n, q);
        assert(lo.r <= hi.r) by {
            lemma_clip_mono(n.r - q.r, n.r + q.r);
        }
        assert(lo.r * (crate::fixed::SCALE as int) <= hi.r * (crate::fixed::SCALE as int));
        lemma_tdiv_mono(
            lo.r * (crate::fixed::SCALE as int),
            hi.r * (crate::fixed::SCALE as int),
            a.r as int,
        );
        lemma_clip_mono(
            tdiv_s(lo.r * (crate::fixed::SCALE as int), a.r as int),
            tdiv_s(hi.r * (crate::fixed::SCALE as int), a.r as int),
        );
    }
}

/// Appending an object that hits no closer than a returned record leaves
/// the closest-hit contract satisfied by the same record: a farther object
/// never changes the result.
pub proof fn lemma_farther_object_keeps_hit(
    spheres: Seq<Sphere>,
    ray: Ray,
    min: Fixed,
    max: Fixed,
    rec: HitRecord,
    sp: Sphere,
)
    requires
        closest_hit_of(spheres, ray, min, max, Some(rec)),
        forall|t: Fixed| is_hit_root(sp, ray, min, max, t) ==> rec.ray_factor.r <= t.r,
    ensures
        closest_hit_of(spheres.push(sp), ray, min, max, Some(rec)),
{
    let len = spheres.len() as int;
    let i0 = choose|i: int|
        0 <= i < len && is_hit_root(spheres[i], ray, min, max, rec.ray_factor) && rec
            == hit_record_at(spheres[i], ray, rec.ray_factor);
    assert(spheres.push(sp)[i0] == spheres[i0]);
    assert(0 <= i0 < len + 1 && is_hit_root(spheres.push(sp)[i0], ray, min, max, rec.ray_factor)
        && rec == hit_record_at(spheres.push(sp)[i0], ray, rec.ray_factor));
    assert forall|i: int, t: Fixed|
        0 <= i < len + 1 && is_hit_root(spheres.push(sp)[i], ray, min, max, t)
        implies rec.ray_factor.r <= t.r by {
        if i < len {
            assert(spheres.push(sp)[i] == spheres[i]);
        } else {
            assert(spheres.push(sp)[i] == sp);
        }
    }
}

/// Appending an object with a hit root strictly closer than any returned
/// record forces every result satisfying the contract to move at least as
/// close as that root: a closer object always updates the result.
pub proof fn lemma_closer_object_updates_hit(
    spheres: Seq<Sphere>,
    ray: Ray,
    min: Fixed,
    max: Fixed,
    res: Option<HitRecord>,
    sp: Sphere,
    t0: Fixed,
    res2: Option<HitRecord>,
)
    requires
        closest_hit_of(spheres, ray, min, max, res),
        is_hit_root(sp, ray, min, max, t0),
        res matches Some(rec) ==> t0.r < rec.ray_factor.r,
        closest_hit_of(spheres.push(sp), ray, min, max, res2),
    ensures
        res2 matches Some(rec2) && rec2.ray_factor.r <= t0.r,
        res matches Some(rec) ==> (res2 matches Some(rec2) && rec2.ray_factor.r
            < rec.ray_factor.r),
{
    let len = spheres.len() as int;
    assert(spheres.push(sp)[len] == sp);
    match res2 {
        Some(rec2) => {
            assert(0 <= len < len + 1 && is_hit_root(spheres.push(sp)[len], ray, min, max, t0));
            assert(rec2.ray_factor.r <= t0.r);
        },
        None => {
            assert(!is_hit_root(spheres.push(sp)[len], ray, min, max, t0));
        },
    }
}

/// The ordered collection of scene objects.
#[derive(Debug)]
pub struct HitableList {
    pub list: Vec<Sphere>,
}

impl Default for HitableList {
    /// An empty scene.
    fn default() -> (res: Self)
        ensures
            res.list@ == Seq::<Sphere>::empty(),
    {
        HitableList { list: Vec::new() }
    }
}

impl HitableList {
    /// Appends an object to the scene.
    pub fn push(&mut self, sphere: Sphere)
        ensures
            final(self).list@ == old(self).list@.push(sphere),
    {
        self.list.push(sphere);
    }

    /// Intersects the ray with every member, returning the hit with the
    /// smallest in-range parameter, if any member hits at all.
    pub fn hit(&self, ray: &Ray, range: FactorRange) -> (res: Option<HitRecord>)
        ensures
            closest_hit_of(self.list@, *ray, range.min, range.max, res),
            res == list_hit_spec(self.list@, *ray, range.min, range.max),
    {
        let mut closest_so_far = range.max;
        let mut record: Option<HitRecord> = None;
        let n = self.list.len();
        let mut k: usize = 0;
        while k < n
            invariant
                k <= n,
                n == self.list@.len(),
                closest_so_far.r <= range.max.r,
                match record {
                    Some(rec) => {
                        &&& closest_so_far == rec.ray_factor
                        &&& range.min.r < rec.ray_factor.r
                        &&& rec.ray_factor.r < range.max.r
                    },
                    None => closest_so_far == range.max,
                },
                closest_hit_upto(self.list@, k as int, *ray, range.min, range.max, record),
                record == list_hit_upto_spec(self.list@, k as int, *ray, range.min, range.max),
            decreases n - k,
        {
            let sub_range = FactorRange::new(range.min, closest_so_far);
            let sphere = self.list[k];
            let ghost spheres = self.list@;
            let ghost kk = k as int;
            match sphere.hit(ray, sub_range) {
                Some(hit_record) => {
                    proof {
                        assert forall|i: int, t: Fixed|
                            0 <= i < kk + 1 && is_hit_root(
                                spheres[i],
                                *ray,
                                range.min,
                                range.max,
                                t,
                            ) implies hit_record.ray_factor.r <= t.r by {
                            if i < kk {
                                match record {
                                    Some(rec) => {
                                        assert(rec.ray_factor.r <= t.r);
                                    },
                                    None => {},
                                }
                            } else {
                                if t.r < closest_so_far.r {
                                    assert(is_hit_root(sphere, *ray, range.min, closest_so_far, t));
                                }
                            }
                        }
                    }
                    closest_so_far = hit_record.ray_factor;
                    record = Some(hit_record);
                },
                None => {
                    proof {
                        match record {
                            Some(rec) => {
                                assert forall|i: int, t: Fixed|
                                    0 <= i < kk + 1 && is_hit_root(
                                        spheres[i],
                                        *ray,
                                        range.min,
                                        range.max,
                                        t,
                                    ) implies rec.ray_factor.r <= t.r by {
                                    if i == kk {
                                        if t.r < closest_so_far.r {
                                            assert(is_hit_root(
                                                sphere,
                                                *ray,
                                                sub_range.min,
                                                sub_range.max,
                                                t,
                                            ));
                                        } else {
                                            assert(rec.ray_factor.r <= t.r);
                                        }
                                    } else {
                                        assert(is_hit_root(spheres[i], *ray, range.min, range.max, t));
                                        assert(rec.ray_factor.r <= t.r);
                                    }
                                }
                            },
                            None => {
                                assert forall|i: int, t: Fixed| 0 <= i < kk + 1 implies
                                    !is_hit_root(spheres[i], *ray, range.min, range.max, t) by {
                                    if i == kk {
                                        if is_hit_root(sphere, *ray, range.min, range.max, t) {
                                            assert(is_hit_root(
                                                sphere,
                                                *ray,
                                                range.min,
                                                closest_so_far,
                                                t,
                                            ));
                                        }
                                    }
                                }
                            },
                        }
                    }
                },
            }
            k = k + 1;
        }
        record
    }
}

} // verus!
