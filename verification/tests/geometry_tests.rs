use ray_tracing::fixed::{Fixed, RAW_MAX};
use ray_tracing::hitable::{HitableList, Sphere};
use ray_tracing::material::Material;
use ray_tracing::ray::{FactorRange, Ray};
use ray_tracing::vec3::Vec3;

fn v(x: i64, y: i64, z: i64) -> Vec3 {
    Vec3::new(Fixed::from_int(x), Fixed::from_int(y), Fixed::from_int(z))
}

fn grey() -> Material {
    Material::Lambertian { albedo: Vec3::new(Fixed { r: 32768 }, Fixed { r: 32768 }, Fixed { r: 32768 }) }
}

fn wide_range() -> FactorRange {
    FactorRange::new(Fixed { r: 66 }, Fixed { r: RAW_MAX })
}

#[test]
fn point_at_parameter_walks_the_ray() {
    let ray = Ray::new(v(1, 0, 0), v(0, 0, -1));
    let p = ray.point_at_parameter(Fixed::from_int(2));
    assert_eq!(p, v(1, 0, -2));
}

#[test]
fn factor_range_surrounds_is_strict() {
    let range = FactorRange::new(Fixed::from_int(1), Fixed::from_int(3));
    assert!(range.surrounds(Fixed::from_int(2)));
    assert!(!range.surrounds(Fixed::from_int(1)));
    assert!(!range.surrounds(Fixed::from_int(3)));
}

#[test]
fn factor_range_clamp_pins_to_bounds() {
    let range = FactorRange::new(Fixed::from_int(0), Fixed::from_int(1));
    assert_eq!(range.clamp(Fixed::from_int(-5)), Fixed::from_int(0));
    assert_eq!(range.clamp(Fixed::from_int(5)), Fixed::from_int(1));
    assert_eq!(range.clamp(Fixed { r: 100 }), Fixed { r: 100 });
}

#[test]
fn sphere_hit_head_on_is_exact() {
    let sphere = Sphere::new(v(0, 0, -3), Fixed::from_int(1), grey());
    let ray = Ray::new(v(0, 0, 0), v(0, 0, -1));
    let rec = sphere.hit(&ray, wide_range()).expect("must hit");
    assert_eq!(rec.ray_factor, Fixed::from_int(2));
    assert_eq!(rec.source_point, v(0, 0, -2));
    assert_eq!(rec.normal, v(0, 0, 1));
    assert!(rec.front_face);
}

#[test]
fn sphere_miss_has_no_hit() {
    let sphere = Sphere::new(v(0, 5, -3), Fixed::from_int(1), grey());
    let ray = Ray::new(v(0, 0, 0), v(0, 0, -1));
    assert!(sphere.hit(&ray, wide_range()).is_none());
}

#[test]
fn sphere_behind_the_ray_has_no_hit() {
    // Both quadratic roots are negative, outside the interval.
    let sphere = Sphere::new(v(0, 0, 3), Fixed::from_int(1), grey());
    let ray = Ray::new(v(0, 0, 0), v(0, 0, -1));
    assert!(sphere.hit(&ray, wide_range()).is_none());
}

#[test]
fn hit_from_inside_takes_second_root_and_flips_normal() {
    let sphere = Sphere::new(v(0, 0, 0), Fixed::from_int(2), grey());
    let ray = Ray::new(v(0, 0, 0), v(0, 0, -1));
    let rec = sphere.hit(&ray, wide_range()).expect("must hit");
    assert_eq!(rec.ray_factor, Fixed::from_int(2));
    assert!(!rec.front_face);
    // The outward normal points along -z; flipped, it opposes the ray.
    assert_eq!(rec.normal, v(0, 0, 1));
    let d = ray.direction().dot(rec.normal);
    assert!(d.r <= 0);
}

#[test]
fn scene_returns_the_closest_hit() {
    let mut world = HitableList::default();
    world.push(Sphere::new(v(0, 0, -9), Fixed::from_int(1), grey()));
    world.push(Sphere::new(v(0, 0, -3), Fixed::from_int(1), grey()));
    let ray = Ray::new(v(0, 0, 0), v(0, 0, -1));
    let rec = world.hit(&ray, wide_range()).expect("must hit");
    assert_eq!(rec.ray_factor, Fixed::from_int(2));
}

#[test]
fn scene_closest_hit_is_order_independent() {
    let mut near_first = HitableList::default();
    near_first.push(Sphere::new(v(0, 0, -3), Fixed::from_int(1), grey()));
    near_first.push(Sphere::new(v(0, 0, -9), Fixed::from_int(1), grey()));
    let mut far_first = HitableList::default();
    far_first.push(Sphere::new(v(0, 0, -9), Fixed::from_int(1), grey()));
    far_first.push(Sphere::new(v(0, 0, -3), Fixed::from_int(1), grey()));
    let ray = Ray::new(v(0, 0, 0), v(0, 0, -1));
    let a = near_first.hit(&ray, wide_range()).expect("must hit");
    let b = far_first.hit(&ray, wide_range()).expect("must hit");
    assert_eq!(a.ray_factor, b.ray_factor);
    assert_eq!(a.source_point, b.source_point);
}

#[test]
fn adding_a_farther_object_keeps_the_result() {
    let ray = Ray::new(v(0, 0, 0), v(0, 0, -1));
    let mut world = HitableList::default();
    world.push(Sphere::new(v(0, 0, -3), Fixed::from_int(1), grey()));
    let before = world.hit(&ray, wide_range()).expect("must hit");
    world.push(Sphere::new(v(0, 0, -20), Fixed::from_int(1), grey()));
    let after = world.hit(&ray, wide_range()).expect("must hit");
    assert_eq!(before.ray_factor, after.ray_factor);
    assert_eq!(before.source_point, after.source_point);
}

#[test]
fn adding_a_closer_object_updates_the_result() {
    let ray = Ray::new(v(0, 0, 0), v(0, 0, -1));
    let mut world = HitableList::default();
    world.push(Sphere::new(v(0, 0, -9), Fixed::from_int(1), grey()));
    let before = world.hit(&ray, wide_range()).expect("must hit");
    world.push(Sphere::new(v(0, 0, -3), Fixed::from_int(1), grey()));
    let after = world.hit(&ray, wide_range()).expect("must hit");
    assert!(after.ray_factor.r < before.ray_factor.r);
    assert_eq!(after.ray_factor, Fixed::from_int(2));
}

#[test]
fn empty_scene_never_hits() {
    let world = HitableList::default();
    let ray = Ray::new(v(0, 0, 0), v(0, 0, -1));
    assert!(world.hit(&ray, wide_range()).is_none());
}
