use ray_tracing::fixed::{Fixed, SCALE};
use ray_tracing::hitable::HitRecord;
use ray_tracing::material::{reflect, Material};
use ray_tracing::ray::Ray;
use ray_tracing::rng::Rng;
use ray_tracing::vec3::Vec3;

fn v(x: i64, y: i64, z: i64) -> Vec3 {
    Vec3::new(Fixed::from_int(x), Fixed::from_int(y), Fixed::from_int(z))
}

fn white() -> Vec3 {
    Vec3::new(Fixed { r: SCALE }, Fixed { r: SCALE }, Fixed { r: SCALE })
}

fn record_at(point: Vec3, normal: Vec3, material: Material, front_face: bool) -> HitRecord {
    HitRecord { source_point: point, ray_factor: Fixed::from_int(1), normal, material, front_face }
}

#[test]
fn default_material_is_black_lambertian() {
    let m = Material::default();
    assert_eq!(m, Material::Lambertian { albedo: v(0, 0, 0) });
}

#[test]
fn lambertian_always_scatters_with_its_albedo() {
    let albedo = Vec3::new(Fixed { r: 32768 }, Fixed { r: 16384 }, Fixed { r: 8192 });
    let m = Material::Lambertian { albedo };
    let ray = Ray::new(v(0, 0, 0), v(0, 0, -1));
    let rec = record_at(v(0, 0, -2), v(0, 0, 1), m, true);
    let mut rng = Rng::from_seed(11);
    let (scattered, attenuation) = m.scatter(&ray, &rec, &mut rng).expect("never absorbs");
    assert_eq!(attenuation, albedo);
    assert_eq!(scattered.origin(), rec.source_point);
}

#[test]
fn metal_always_scatters_with_its_albedo() {
    let albedo = Vec3::new(Fixed { r: 52428 }, Fixed { r: 39321 }, Fixed { r: 13107 });
    let m = Material::Metal { albedo, fuzz: Fixed { r: 6553 } };
    let ray = Ray::new(v(0, 0, 0), v(0, 0, -1));
    let rec = record_at(v(0, 0, -2), v(0, 0, 1), m, true);
    let mut rng = Rng::from_seed(12);
    let (scattered, attenuation) = m.scatter(&ray, &rec, &mut rng).expect("never absorbs");
    assert_eq!(attenuation, albedo);
    assert_eq!(scattered.origin(), rec.source_point);
}

#[test]
fn dielectric_always_scatters_pure_white() {
    let m = Material::Dielectric { refraction_index: Fixed { r: 98304 } };
    let ray = Ray::new(v(0, 0, 1), v(0, 0, -1));
    let rec = record_at(v(0, 0, 0), v(0, 0, 1), m, true);
    let mut rng = Rng::from_seed(13);
    let (_, attenuation) = m.scatter(&ray, &rec, &mut rng).expect("never absorbs");
    assert_eq!(attenuation, white());
}

#[test]
fn dielectric_total_internal_reflection_is_pure_reflection() {
    // Inside glass (index 1.5), hitting the surface at 45 degrees:
    // 1.5 * sin(45) > 1, so refraction is impossible.
    let m = Material::Dielectric { refraction_index: Fixed { r: 98304 } };
    let dir = Vec3::new(Fixed { r: 65536 }, Fixed { r: 0 }, Fixed { r: -65536 });
    let ray = Ray::new(v(0, 0, 1), dir);
    let normal = v(0, 0, 1);
    let rec = record_at(v(0, 0, 0), normal, m, false);
    let mut rng = Rng::from_seed(14);
    let state_before = rng.state;
    let (scattered, attenuation) = m.scatter(&ray, &rec, &mut rng).expect("never absorbs");
    assert_eq!(attenuation, white());
    let expected = reflect(ray.direction().unit(), normal);
    assert_eq!(scattered.direction(), expected);
    // The forced reflection consumes no random draw.
    assert_eq!(rng.state, state_before);
}

#[test]
fn scatter_is_deterministic_in_the_seed() {
    let albedo = Vec3::new(Fixed { r: 32768 }, Fixed { r: 32768 }, Fixed { r: 32768 });
    let m = Material::Lambertian { albedo };
    let ray = Ray::new(v(0, 0, 0), v(0, 0, -1));
    let rec = record_at(v(0, 0, -2), v(0, 0, 1), m, true);
    let mut rng1 = Rng::from_seed(99);
    let mut rng2 = Rng::from_seed(99);
    let (s1, _) = m.scatter(&ray, &rec, &mut rng1).unwrap();
    let (s2, _) = m.scatter(&ray, &rec, &mut rng2).unwrap();
    assert_eq!(s1.direction(), s2.direction());
    assert_eq!(rng1.state, rng2.state);
}

#[test]
fn rng_draws_are_deterministic_and_in_range() {
    let mut a = Rng::from_seed(5);
    let mut b = Rng::from_seed(5);
    for _ in 0..100 {
        let fa = a.next_fraction();
        let fb = b.next_fraction();
        assert_eq!(fa, fb);
        assert!(0 <= fa.r && fa.r < 65536);
        let ja = a.next_jitter();
        let jb = b.next_jitter();
        assert_eq!(ja, jb);
        assert!(-32768 <= ja.r && ja.r < 32768);
    }
}

#[test]
fn zero_seed_is_replaced() {
    let rng = Rng::from_seed(0);
    assert!(rng.state != 0);
}

#[test]
fn entropy_seeded_generator_is_usable() {
    let mut rng = Rng::from_entropy();
    assert!(rng.state != 0);
    let f = rng.next_fraction();
    assert!(0 <= f.r && f.r < 65536);
}
