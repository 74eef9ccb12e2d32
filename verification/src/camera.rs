//! The camera: viewport derivation, per-pixel sample rays, the recursive
//! sky-lit integrator, tone mapping, and row-major buffer assembly.
//!
//! A render is a function of the camera, the scene and one seed: each row is
//! traced with its own generator seeded from the run seed and the row index,
//! so rows can be computed in any order — or in parallel — and reassembled
//! top to bottom into the same buffer.

use vstd::prelude::*;
use crate::fixed::{Fixed, SCALE, RAW_MAX, fadd, fsub, fneg, fmul, fdiv, fint, tdiv_s};
use crate::hitable::{HitableList, Sphere, list_hit_spec};
use crate::material::{white, scatter_of, SAMPLE_TRIES};
use crate::ray::{FactorRange, Ray, clamp_of};
use crate::rng::{Rng, rng_step, jitter_of, symmetric_of};
use crate::vec3::{
    Vec3, v3_add, v3_sub, v3_neg, v3_scale, v3_divs, v3_comp_mul, v3_cross, v3_unit,
};

verus! {

/// The raw value of pi.
pub const PI_RAW: i64 = 205887;

/// The lower bound of acceptable hit parameters, just above zero to avoid
/// self-intersection.
pub const T_MIN_RAW: i64 = 66;

/// The raw clamp ceiling of a tone-mapped channel, just below one.
pub const INTENSITY_MAX_RAW: i64 = 65470;

/// The color black.
pub open spec fn black() -> Vec3 {
    Vec3 { x: Fixed { r: 0 }, y: Fixed { r: 0 }, z: Fixed { r: 0 } }
}

/// The sky color at the top of the gradient.
pub open spec fn sky_blue() -> Vec3 {
    Vec3 { x: Fixed { r: 32768 }, y: Fixed { r: 45875 }, z: Fixed { r: 65536 } }
}

/// A number with its negative part cut off.
pub open spec fn nneg(x: int) -> int {
    if x < 0 {
        0
    } else {
        x
    }
}

/// Degrees turned into radians.
pub open spec fn radians_of(deg: Fixed) -> Fixed {
    fdiv(fmul(deg, Fixed { r: PI_RAW }), fint(180))
}

/// The sine by its Taylor series up to the seventh power, accurate on the
/// half-turn the camera needs.
pub open spec fn sin_of(x: Fixed) -> Fixed {
    let x2 = fmul(x, x);
    let x3 = fmul(x2, x);
    let x5 = fmul(x3, x2);
    let x7 = fmul(x5, x2);
    fadd(fsub(x, fdiv(x3, fint(6))), fsub(fdiv(x5, fint(120)), fdiv(x7, fint(5040))))
}

/// The cosine by its Taylor series up to the sixth power.
pub open spec fn cos_of(x: Fixed) -> Fixed {
    let x2 = fmul(x, x);
    let x4 = fmul(x2, x2);
    let x6 = fmul(x4, x2);
    fadd(fsub(Fixed { r: SCALE }, fdiv(x2, fint(2))), fsub(fdiv(x4, fint(24)), fdiv(x6, fint(720))))
}

/// The tangent as the ratio of the two series.
pub open spec fn tan_of(x: Fixed) -> Fixed {
    fdiv(sin_of(x), cos_of(x))
}

/// Computes the radians of an angle in degrees.
pub fn to_radians(deg: Fixed) -> (res: Fixed)
    ensures
        res == radians_of(deg),
{
    deg.mul(Fixed { r: PI_RAW }).div(Fixed::from_int(180))
}

/// Computes the series sine.
pub fn sin_approx(x: Fixed) -> (res: Fixed)
    ensures
        res == sin_of(x),
{
    let x2 = x.mul(x);
    let x3 = x2.mul(x);
    let x5 = x3.mul(x2);
    let x7 = x5.mul(x2);
    x.sub(x3.div(Fixed::from_int(6))).add(
        x5.div(Fixed::from_int(120)).sub(x7.div(Fixed::from_int(5040))),
    )
}

/// Computes the series cosine.
pub fn cos_approx(x: Fixed) -> (res: Fixed)
    ensures
        res == cos_of(x),
{
    let x2 = x.mul(x);
    let x4 = x2.mul(x2);
    let x6 = x4.mul(x2);
    Fixed { r: SCALE }.sub(x2.div(Fixed::from_int(2))).add(
        x4.div(Fixed::from_int(24)).sub(x6.div(Fixed::from_int(720))),
    )
}

/// Computes the series tangent.
pub fn tan_approx(x: Fixed) -> (res: Fixed)
    ensures
        res == tan_of(x),
{
    sin_approx(x).div(cos_approx(x))
}

/// The image height derived from a width and an aspect ratio: the truncated
/// quotient, at least 1, saturated to the width type's range.
pub open spec fn height_of(width: int, aspect_ratio: Fixed) -> int {
    let f = fdiv(fint(width), aspect_ratio);
    let h = tdiv_s(f.r as int, SCALE as int);
    if h < 1 {
        1
    } else if h > 0x7fff_ffff {
        0x7fff_ffff
    } else {
        h
    }
}

/// The camera configuration: framing, sampling and lens parameters.
#[derive(Clone, Copy, PartialEq, Eq, Structural, Debug)]
pub struct CameraParams {
    pub aspect_ratio: Fixed,
    pub image_width: i32,
    pub samples_per_pixel: i32,
    pub max_depth: i32,
    pub vertical_fov: Fixed,
    pub look_from: Vec3,
    pub look_at: Vec3,
    pub view_up: Vec3,
    pub defocus_angle: Fixed,
    pub focus_distance: Fixed,
}

/// The state a render needs, derived once from a configuration.
#[derive(Clone, Copy, PartialEq, Eq, Structural, Debug)]
pub struct Camera {
    pub image_width: i32,
    pub image_height: i32,
    pub center: Vec3,
    pub pixel00_loc: Vec3,
    pub pixel_delta_u: Vec3,
    pub pixel_delta_v: Vec3,
    pub samples_per_pixel: i32,
    pub pixel_samples_scale: Fixed,
    pub max_depth: i32,
    pub defocus_angle: Fixed,
    pub defocus_disk_u: Vec3,
    pub defocus_disk_v: Vec3,
}

/// The derivation of the camera state from its configuration: viewport
/// size from the field of view at the focus distance, an orthonormal basis
/// from the look direction, per-pixel deltas, the location of pixel (0,0),
/// and the defocus-disk basis.
#[verifier::opaque]
pub open spec fn camera_of(p: CameraParams) -> Camera {
    let image_height = height_of(p.image_width as int, p.aspect_ratio);
    let center = p.look_from;
    let theta = radians_of(p.vertical_fov);
    let half_theta = fdiv(theta, fint(2));
    let viewport_height = fmul(fmul(fint(2), tan_of(half_theta)), p.focus_distance);
    let viewport_width = fmul(viewport_height, fdiv(fint(p.image_width as int), fint(image_height)));
    let w = v3_unit(v3_sub(p.look_from, p.look_at));
    let u = v3_unit(v3_cross(p.view_up, w));
    let v = v3_cross(w, u);
    let viewport_u = v3_scale(u, viewport_width);
    let viewport_v = v3_scale(v3_neg(v), viewport_height);
    let pixel_delta_u = v3_divs(viewport_u, fint(p.image_width as int));
    let pixel_delta_v = v3_divs(viewport_v, fint(image_height));
    let half = Fixed { r: 32768 };
    let viewport_upper_left = v3_sub(
        v3_sub(center, v3_scale(w, p.focus_distance)),
        v3_scale(v3_add(viewport_u, viewport_v), half),
    );
    let pixel00_loc = v3_add(viewport_upper_left, v3_scale(v3_add(pixel_delta_u, pixel_delta_v), half));
    let pixel_samples_scale = fdiv(fint(1), fint(p.samples_per_pixel as int));
    let defocus_radius = fmul(p.focus_distance, tan_of(radians_of(fdiv(p.defocus_angle, fint(2)))));
    Camera {
        image_width: p.image_width,
        image_height: image_height as i32,
        center,
        pixel00_loc,
        pixel_delta_u,
        pixel_delta_v,
        samples_per_pixel: p.samples_per_pixel,
        pixel_samples_scale,
        max_depth: p.max_depth,
        defocus_angle: p.defocus_angle,
        defocus_disk_u: v3_scale(u, defocus_radius),
        defocus_disk_v: v3_scale(v, defocus_radius),
    }
}

/// The point of the open unit disk drawn by rejection sampling, with the
/// state after the draw; the center when every attempt was rejected.
pub open spec fn disk_sample(state: u64, tries: nat) -> (Fixed, Fixed, u64)
    decreases tries,
{
    if tries == 0 {
        (Fixed { r: 0 }, Fixed { r: 0 }, state)
    } else {
        let s1 = rng_step(state);
        let x = symmetric_of(s1);
        let s2 = rng_step(s1);
        let y = symmetric_of(s2);
        if fadd(fmul(x, x), fmul(y, y)).r < SCALE {
            (x, y, s2)
        } else {
            disk_sample(s2, (tries - 1) as nat)
        }
    }
}

/// The sample ray for pixel `(i, j)` as a function of the generator state:
/// a jittered point of the pixel's viewport cell, shot from the camera
/// center, or from a point of the defocus disk when the lens has aperture.
pub open spec fn get_ray_of(cam: Camera, i: int, j: int, state: u64) -> (Ray, u64) {
    let s1 = rng_step(state);
    let ox = jitter_of(s1);
    let s2 = rng_step(s1);
    let oy = jitter_of(s2);
    let pixel_sample = v3_add(
        v3_add(cam.pixel00_loc, v3_scale(cam.pixel_delta_u, fadd(fint(i), ox))),
        v3_scale(cam.pixel_delta_v, fadd(fint(j), oy)),
    );
    if cam.defocus_angle.r <= 0 {
        (Ray { origin: cam.center, direction: v3_sub(pixel_sample, cam.center) }, s2)
    } else {
        let ds = disk_sample(s2, SAMPLE_TRIES as nat);
        let origin = v3_add(
            v3_add(cam.center, v3_scale(cam.defocus_disk_u, ds.0)),
            v3_scale(cam.defocus_disk_v, ds.1),
        );
        (Ray { origin, direction: v3_sub(pixel_sample, origin) }, ds.2)
    }
}

/// The sky gradient at a miss: a linear blend from white to sky blue by the
/// normalized direction's vertical component.
pub open spec fn sky_blend_of(ratio: Fixed) -> Vec3 {
    v3_add(v3_scale(white(), fsub(Fixed { r: SCALE }, ratio)), v3_scale(sky_blue(), ratio))
}

/// The sky blend meets its endpoints exactly: a ratio of zero yields pure
/// white and a ratio of one yields the sky blue.
pub proof fn lemma_sky_blend_extremes()
    ensures
        sky_blend_of(Fixed { r: 0 }) == white(),
        sky_blend_of(Fixed { r: SCALE }) == sky_blue(),
{
    crate::fixed::lemma_fmul_one(Fixed { r: SCALE });
    crate::fixed::lemma_fmul_one(Fixed { r: 32768 });
    crate::fixed::lemma_fmul_one(Fixed { r: 45875 });
    crate::fixed::lemma_fmul_zero(Fixed { r: SCALE });
    crate::fixed::lemma_fmul_zero(Fixed { r: 32768 });
    crate::fixed::lemma_fmul_zero(Fixed { r: 45875 });
}

/// The blend ratio and color of the sky for a ray.
pub open spec fn sky_color_of(ray: Ray) -> Vec3 {
    let ud = v3_unit(ray.direction);
    let ratio = fmul(Fixed { r: 32768 }, fadd(ud.y, Fixed { r: SCALE }));
    sky_blend_of(ratio)
}

/// The traced color of a ray as a function of the scene, the depth budget
/// and the generator state: black when the budget is spent, the scattered
/// color attenuated at a hit, the sky gradient at a miss.
pub open spec fn ray_color_of(spheres: Seq<Sphere>, ray: Ray, depth: int, state: u64) -> (
    Vec3,
    u64,
)
    decreases depth,
{
    if depth <= 0 {
        (black(), state)
    } else {
        match list_hit_spec(spheres, ray, Fixed { r: T_MIN_RAW }, Fixed { r: RAW_MAX }) {
            Some(rec) => {
                let sc = scatter_of(rec.material, ray, rec, state);
                match sc.0 {
                    Some(pair) => {
                        let rc = ray_color_of(spheres, pair.0, depth - 1, sc.1);
                        (v3_comp_mul(pair.1, rc.0), rc.1)
                    },
                    None => (black(), sc.1),
                }
            },
            None => (sky_color_of(ray), state),
        }
    }
}

/// One tone-mapped 8-bit channel: square-root gamma, a clamp just below
/// one, and quantization.
pub open spec fn byte_of(c: Fixed) -> u8 {
    let s = crate::fixed::fsqrt(c);
    let cl = clamp_of(
        FactorRange { max: Fixed { r: INTENSITY_MAX_RAW }, min: Fixed { r: 0 } },
        s,
    );
    (cl.r / 256) as u8
}

/// The sum of `k` traced pixel samples added onto `acc`.
pub open spec fn sample_accum(
    cam: Camera,
    spheres: Seq<Sphere>,
    i: int,
    j: int,
    acc: Vec3,
    k: int,
    state: u64,
) -> (Vec3, u64)
    decreases k,
{
    if k <= 0 {
        (acc, state)
    } else {
        let gr = get_ray_of(cam, i, j, state);
        let rc = ray_color_of(spheres, gr.0, cam.max_depth as int, gr.1);
        sample_accum(cam, spheres, i, j, v3_add(acc, rc.0), k - 1, rc.1)
    }
}

/// The row bytes from pixel `i` rightward appended onto `acc`.
pub open spec fn row_accum(
    cam: Camera,
    spheres: Seq<Sphere>,
    j: int,
    acc: Seq<u8>,
    i: int,
    state: u64,
) -> (Seq<u8>, u64)
    decreases cam.image_width - i,
{
    if i >= cam.image_width {
        (acc, state)
    } else {
        let ps = sample_accum(
            cam,
            spheres,
            i,
            j,
            black(),
            cam.samples_per_pixel as int,
            state,
        );
        let avg = v3_scale(ps.0, cam.pixel_samples_scale);
        let bytes = acc + seq![byte_of(avg.x), byte_of(avg.y), byte_of(avg.z)];
        row_accum(cam, spheres, j, bytes, i + 1, ps.1)
    }
}

/// The bytes of row `j`, traced with the given starting state.
pub open spec fn render_row_of(cam: Camera, spheres: Seq<Sphere>, j: int, state: u64) -> (
    Seq<u8>,
    u64,
) {
    row_accum(cam, spheres, j, Seq::empty(), 0, state)
}

/// The generator state row `j` starts from: the run seed combined with the
/// row index, normalized away from the zero fixed point.
pub open spec fn row_state_of(seed: u64, j: int) -> u64 {
    let s = seed ^ (j as u64);
    if s == 0 {
        0x9e37_79b9_7f4a_7c15u64
    } else {
        s
    }
}

/// The rows from `j` downward appended onto `acc`.
pub open spec fn render_accum(
    cam: Camera,
    spheres: Seq<Sphere>,
    seed: u64,
    acc: Seq<u8>,
    j: int,
) -> Seq<u8>
    decreases cam.image_height - j,
{
    if j >= cam.image_height {
        acc
    } else {
        let row = render_row_of(cam, spheres, j, row_state_of(seed, j)).0;
        render_accum(cam, spheres, seed, acc + row, j + 1)
    }
}

/// The whole image: every row in top-to-bottom order.
pub open spec fn render_of(cam: Camera, spheres: Seq<Sphere>, seed: u64) -> Seq<u8> {
    render_accum(cam, spheres, seed, Seq::empty(), 0)
}

/// Two renders of the same camera, scene and seed yield the same bytes:
/// the output buffer is a function of those three alone.
pub proof fn lemma_render_round_trip(
    cam: Camera,
    spheres: Seq<Sphere>,
    seed: u64,
    a: Seq<u8>,
    b: Seq<u8>,
)
    requires
        a == render_of(cam, spheres, seed),
        b == render_of(cam, spheres, seed),
    ensures
        a == b,
{
}

/// Draws a point of the open unit disk by bounded rejection sampling.
pub fn random_in_unit_disk(rng: &mut Rng, tries: u32) -> (res: (Fixed, Fixed))
    ensures
        res.0 == disk_sample(old(rng).state, tries as nat).0,
        res.1 == disk_sample(old(rng).state, tries as nat).1,
        final(rng).state == disk_sample(old(rng).state, tries as nat).2,
    decreases tries,
{
    if tries == 0 {
        (Fixed { r: 0 }, Fixed { r: 0 })
    } else {
        let x = rng.next_symmetric();
        let y = rng.next_symmetric();
        if x.mul(x).add(y.mul(y)).r < SCALE {
            (x, y)
        } else {
            random_in_unit_disk(rng, tries - 1)
        }
    }
}

impl Camera {
    /// Derives the render state from a configuration.
    pub fn new(params: CameraParams) -> (res: Self)
        ensures
            res == camera_of(params),
    {
        proof {
            reveal(crate::camera::camera_of);
        }
        let aspect_ratio = params.aspect_ratio;
        let image_width = params.image_width;

        let hf = Fixed::from_int(image_width as i64).div(aspect_ratio);
        let ht = hf.trunc();
        let image_height: i32 = if ht < 1 {
            1
        } else if ht > 0x7fff_ffff {
            0x7fff_ffff
        } else {
            ht as i32
        };

        let center = params.look_from;
        let theta = to_radians(params.vertical_fov);
        let half_theta = theta.div(Fixed::from_int(2));
        let viewport_height = Fixed::from_int(2).mul(tan_approx(half_theta)).mul(
            params.focus_distance,
        );
        let viewport_width = viewport_height.mul(
            Fixed::from_int(image_width as i64).div(Fixed::from_int(image_height as i64)),
        );

        let w = params.look_from.sub(params.look_at).unit();
        let u = params.view_up.cross(w).unit();
        let v = w.cross(u);

        let viewport_u = u.scale(viewport_width);
        let viewport_v = v.neg().scale(viewport_height);

        let pixel_delta_u = viewport_u.divs(Fixed::from_int(image_width as i64));
        let pixel_delta_v = viewport_v.divs(Fixed::from_int(image_height as i64));

        let half = Fixed { r: 32768 };
        let viewport_upper_left = center.sub(w.scale(params.focus_distance)).sub(
            viewport_u.add(viewport_v).scale(half),
        );
        let pixel00_loc = viewport_upper_left.add(pixel_delta_u.add(pixel_delta_v).scale(half));

        let pixel_samples_scale = Fixed::from_int(1).div(
            Fixed::from_int(params.samples_per_pixel as i64),
        );

        let defocus_radius = params.focus_distance.mul(
            tan_approx(to_radians(params.defocus_angle.div(Fixed::from_int(2)))),
        );
        let defocus_disk_u = u.scale(defocus_radius);
        let defocus_disk_v = v.scale(defocus_radius);

        Self {
            image_width,
            image_height,
            center,
            pixel00_loc,
            pixel_delta_u,
            pixel_delta_v,
            samples_per_pixel: params.samples_per_pixel,
            pixel_samples_scale,
            max_depth: params.max_depth,
            defocus_angle: params.defocus_angle,
            defocus_disk_u,
            defocus_disk_v,
        }
    }

    /// Generates the sample ray for pixel `(i, j)`, jittered within the
    /// pixel cell and shot from the defocus disk when the lens has aperture.
    pub fn get_ray(&self, i: i32, j: i32, rng: &mut Rng) -> (res: Ray)
        ensures
            res == get_ray_of(*self, i as int, j as int, old(rng).state).0,
            final(rng).state == get_ray_of(*self, i as int, j as int, old(rng).state).1,
    {
        let ox = rng.next_jitter();
        let oy = rng.next_jitter();
        let pixel_sample = self.pixel00_loc.add(
            self.pixel_delta_u.scale(Fixed::from_int(i as i64).add(ox)),
        ).add(self.pixel_delta_v.scale(Fixed::from_int(j as i64).add(oy)));

        let ray_origin = if self.defocus_angle.r <= 0 {
            self.center
        } else {
            let ds = random_in_unit_disk(rng, SAMPLE_TRIES);
            self.center.add(self.defocus_disk_u.scale(ds.0)).add(
                self.defocus_disk_v.scale(ds.1),
            )
        };

        Ray::new(ray_origin, pixel_sample.sub(ray_origin))
    }

    /// Traces a ray: black once the depth budget is spent, the attenuated
    /// scattered color at a hit, and the sky gradient at a miss.
    pub fn ray_color(ray: &Ray, depth: i32, world: &HitableList, rng: &mut Rng) -> (res: Vec3)
        ensures
            res == ray_color_of(world.list@, *ray, depth as int, old(rng).state).0,
            final(rng).state == ray_color_of(world.list@, *ray, depth as int, old(rng).state).1,
            depth <= 0 ==> res == black(),
            depth > 0 && list_hit_spec(
                world.list@,
                *ray,
                Fixed { r: T_MIN_RAW },
                Fixed { r: RAW_MAX },
            ) is None ==> res == sky_color_of(*ray),
        decreases depth,
    {
        if depth <= 0 {
            return Vec3::zero();
        }

        let range = FactorRange::new(Fixed { r: T_MIN_RAW }, Fixed { r: RAW_MAX });
        match world.hit(ray, range) {
            Some(record) => {
                match record.material.scatter(ray, &record, rng) {
                    Some((scattered, attenuation)) => {
                        let color = Self::ray_color(&scattered, depth - 1, world, rng);
                        attenuation.comp_mul(color)
                    },
                    None => Vec3::zero(),
                }
            },
            None => {
                let unit_direction = ray.direction().unit();
                let ratio = Fixed { r: 32768 }.mul(unit_direction.y.add(Fixed { r: SCALE }));
                let one = Fixed { r: SCALE };
                let white_v = Vec3::new(one, one, one);
                let blue_v = Vec3 {
                    x: Fixed { r: 32768 },
                    y: Fixed { r: 45875 },
                    z: Fixed { r: 65536 },
                };
                white_v.scale(one.sub(ratio)).add(blue_v.scale(ratio))
            },
        }
    }

    /// Tone-maps one channel to a byte.
    fn tone_map(c: Fixed) -> (res: u8)
        ensures
            res == byte_of(c),
    {
        let s = c.sqrt();
        let range = FactorRange::new(Fixed { r: 0 }, Fixed { r: INTENSITY_MAX_RAW });
        let cl = range.clamp(s);
        proof {
            assert(0 <= cl.r <= INTENSITY_MAX_RAW);
        }
        ((cl.r as u64) / 256) as u8
    }

    /// Renders row `j` into `3 * image_width` bytes with the given
    /// generator.
    #[verifier::rlimit(100)]
    pub fn render_row(&self, world: &HitableList, j: i32, rng: &mut Rng) -> (res: Vec<u8>)
        ensures
            res@ == render_row_of(*self, world.list@, j as int, old(rng).state).0,
            final(rng).state == render_row_of(*self, world.list@, j as int, old(rng).state).1,
            res@.len() == 3 * nneg(self.image_width as int),
    {
        let ghost s0 = rng.state;
        let mut row_buffer: Vec<u8> = Vec::new();
        let mut i: i32 = 0;
        proof {
            assert(row_accum(*self, world.list@, j as int, Seq::empty(), 0, s0)
                == row_accum(*self, world.list@, j as int, row_buffer@, i as int, rng.state));
        }
        while i < self.image_width
            invariant
                0 <= i,
                i <= nneg(self.image_width as int),
                row_buffer@.len() == 3 * i,
                render_row_of(*self, world.list@, j as int, s0) == row_accum(
                    *self,
                    world.list@,
                    j as int,
                    row_buffer@,
                    i as int,
                    rng.state,
                ),
            decreases self.image_width - i,
        {
            let mut sum = Vec3::zero();
            let mut k: i32 = 0;
            let ghost si = rng.state;
            while k < self.samples_per_pixel
                invariant
                    0 <= k,
                    k <= nneg(self.samples_per_pixel as int),
                    sample_accum(
                        *self,
                        world.list@,
                        i as int,
                        j as int,
                        black(),
                        self.samples_per_pixel as int,
                        si,
                    ) == sample_accum(
                        *self,
                        world.list@,
                        i as int,
                        j as int,
                        sum,
                        self.samples_per_pixel as int - k,
                        rng.state,
                    ),
                decreases self.samples_per_pixel - k,
            {
                let ray = self.get_ray(i, j, rng);
                let color = Self::ray_color(&ray, self.max_depth, world, rng);
                sum = sum.add(color);
                k = k + 1;
            }
            let avg = sum.scale(self.pixel_samples_scale);
            let ghost buf0 = row_buffer@;
            row_buffer.push(Self::tone_map(avg.x));
            row_buffer.push(Self::tone_map(avg.y));
            row_buffer.push(Self::tone_map(avg.z));
            proof {
                let bytes = seq![byte_of(avg.x), byte_of(avg.y), byte_of(avg.z)];
                assert(row_buffer@ =~= buf0 + bytes);
                assert(sample_accum(
                    *self,
                    world.list@,
                    i as int,
                    j as int,
                    black(),
                    self.samples_per_pixel as int,
                    si,
                ) == (sum, rng.state));
                assert(row_accum(*self, world.list@, j as int, buf0, i as int, si) == row_accum(
                    *self,
                    world.list@,
                    j as int,
                    row_buffer@,
                    i as int + 1,
                    rng.state,
                ));
            }
            i = i + 1;
        }
        row_buffer
    }

    /// Renders the whole image into a flat row-major RGB byte buffer, each
    /// row seeded from the run seed and its index: the output is a function
    /// of the camera, the scene and the seed alone.
    pub fn render(&self, world: &HitableList, seed: u64) -> (res: Vec<u8>)
        ensures
            res@ == render_of(*self, world.list@, seed),
            res@.len() == 3 * nneg(self.image_width as int) * nneg(self.image_height as int),
    {
        let mut image_buffer: Vec<u8> = Vec::new();
        let mut j: i32 = 0;
        while j < self.image_height
            invariant
                0 <= j,
                j <= nneg(self.image_height as int),
                image_buffer@.len() == 3 * nneg(self.image_width as int) * j,
                render_of(*self, world.list@, seed) == render_accum(
                    *self,
                    world.list@,
                    seed,
                    image_buffer@,
                    j as int,
                ),
            decreases self.image_height - j,
        {
            let row_seed = seed ^ (j as u64);
            let mut rng = Rng::from_seed(row_seed);
            proof {
                assert(rng.state == row_state_of(seed, j as int));
            }
            let mut row = self.render_row(world, j, &mut rng);
            proof {
                let w = nneg(self.image_width as int);
                assert(3 * w * (j as int + 1) == 3 * w * (j as int) + 3 * w) by (nonlinear_arith);
            }
            image_buffer.append(&mut row);
            j = j + 1;
        }
        image_buffer
    }
}

} // verus!
