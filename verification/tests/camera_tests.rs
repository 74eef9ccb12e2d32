use ray_tracing::camera::{Camera, CameraParams};
use ray_tracing::fixed::{Fixed, RAW_MAX, SCALE};
use ray_tracing::hitable::{HitableList, Sphere};
use ray_tracing::material::Material;
use ray_tracing::ray::{FactorRange, Ray};
use ray_tracing::rng::Rng;
use ray_tracing::vec3::Vec3;

fn v(x: i64, y: i64, z: i64) -> Vec3 {
    Vec3::new(Fixed::from_int(x), Fixed::from_int(y), Fixed::from_int(z))
}

fn small_camera(width: i32, look_from: Vec3, look_at: Vec3) -> Camera {
    Camera::new(CameraParams {
        aspect_ratio: Fixed::from_int(1),
        image_width: width,
        samples_per_pixel: 1,
        max_depth: 4,
        vertical_fov: Fixed::from_int(90),
        look_from,
        look_at,
        view_up: v(0, 1, 0),
        defocus_angle: Fixed { r: 0 },
        focus_distance: Fixed::from_int(1),
    })
}

fn sky_color(ray: &Ray) -> Vec3 {
    let one = Fixed { r: SCALE };
    let ud = ray.direction().unit();
    let ratio = Fixed { r: 32768 }.mul(ud.y.add(one));
    let white = Vec3::new(one, one, one);
    let blue = Vec3::new(Fixed { r: 32768 }, Fixed { r: 45875 }, Fixed { r: 65536 });
    white.scale(one.sub(ratio)).add(blue.scale(ratio))
}

fn tone_map(c: Fixed) -> u8 {
    let s = c.sqrt();
    let cl = FactorRange::new(Fixed { r: 0 }, Fixed { r: 65470 }).clamp(s);
    (cl.r / 256) as u8
}

#[test]
fn image_height_follows_the_aspect_ratio() {
    let cam = Camera::new(CameraParams {
        aspect_ratio: Fixed::from_int(2),
        image_width: 100,
        samples_per_pixel: 1,
        max_depth: 1,
        vertical_fov: Fixed::from_int(40),
        look_from: v(0, 0, 0),
        look_at: v(0, 0, -1),
        view_up: v(0, 1, 0),
        defocus_angle: Fixed { r: 0 },
        focus_distance: Fixed::from_int(1),
    });
    assert_eq!(cam.image_height, 50);
}

#[test]
fn image_height_is_at_least_one() {
    let cam = Camera::new(CameraParams {
        aspect_ratio: Fixed::from_int(16).div(Fixed::from_int(9)),
        image_width: 1,
        samples_per_pixel: 1,
        max_depth: 1,
        vertical_fov: Fixed::from_int(40),
        look_from: v(0, 0, 0),
        look_at: v(0, 0, -1),
        view_up: v(0, 1, 0),
        defocus_angle: Fixed { r: 0 },
        focus_distance: Fixed::from_int(1),
    });
    assert_eq!(cam.image_height, 1);
}

#[test]
fn ray_color_at_zero_depth_is_black() {
    let mut world = HitableList::default();
    world.push(Sphere::new(v(0, 0, -3), Fixed::from_int(1), Material::default()));
    let ray = Ray::new(v(0, 0, 0), v(0, 0, -1));
    let mut rng = Rng::from_seed(1);
    let c = Camera::ray_color(&ray, 0, &world, &mut rng);
    assert_eq!(c, v(0, 0, 0));
    let c2 = Camera::ray_color(&ray, -3, &world, &mut rng);
    assert_eq!(c2, v(0, 0, 0));
}

#[test]
fn miss_straight_up_is_exactly_sky_blue() {
    let world = HitableList::default();
    let ray = Ray::new(v(0, 0, 0), v(0, 1, 0));
    let mut rng = Rng::from_seed(2);
    let c = Camera::ray_color(&ray, 5, &world, &mut rng);
    assert_eq!(c, Vec3::new(Fixed { r: 32768 }, Fixed { r: 45875 }, Fixed { r: 65536 }));
}

#[test]
fn miss_straight_down_is_exactly_white() {
    let world = HitableList::default();
    let ray = Ray::new(v(0, 0, 0), v(0, -1, 0));
    let mut rng = Rng::from_seed(3);
    let c = Camera::ray_color(&ray, 5, &world, &mut rng);
    assert_eq!(c, Vec3::new(Fixed { r: SCALE }, Fixed { r: SCALE }, Fixed { r: SCALE }));
}

#[test]
fn miss_color_matches_the_blend_formula() {
    let world = HitableList::default();
    let ray = Ray::new(v(0, 0, 0), Vec3::new(Fixed { r: 20000 }, Fixed { r: 30000 }, Fixed { r: -65536 }));
    let mut rng = Rng::from_seed(4);
    let c = Camera::ray_color(&ray, 5, &world, &mut rng);
    assert_eq!(c, sky_color(&ray));
}

#[test]
fn render_buffer_has_row_major_rgb_size() {
    let world = HitableList::default();
    let cam = small_camera(3, v(0, 0, 0), v(0, 0, -1));
    assert_eq!(cam.image_height, 3);
    let buffer = cam.render(&world, 7);
    assert_eq!(buffer.len(), 3 * 3 * 3);
}

#[test]
fn empty_scene_renders_the_sky_gradient_exactly() {
    let world = HitableList::default();
    let cam = small_camera(2, v(0, 0, 0), v(0, 0, -1));
    let seed: u64 = 42;
    let buffer = cam.render(&world, seed);
    assert_eq!(buffer.len(), 12);

    let mut expected: Vec<u8> = Vec::new();
    for j in 0..cam.image_height {
        let mut rng = Rng::from_seed(seed ^ (j as u64));
        for i in 0..cam.image_width {
            let ray = cam.get_ray(i, j, &mut rng);
            let color = Camera::ray_color(&ray, cam.max_depth, &world, &mut rng);
            // With no geometry, every traced color is the sky formula.
            assert_eq!(color, sky_color(&ray));
            let avg = color.scale(cam.pixel_samples_scale);
            expected.push(tone_map(avg.x));
            expected.push(tone_map(avg.y));
            expected.push(tone_map(avg.z));
        }
    }
    assert_eq!(buffer, expected);
}

#[test]
fn ground_scene_pixels_that_miss_match_the_sky() {
    // A huge ground sphere below a camera looking at the horizon: rays above
    // the horizon miss and must show the exact sky gradient.
    let mut world = HitableList::default();
    world.push(Sphere::new(
        Vec3::new(Fixed { r: 0 }, Fixed { r: -6553600000 }, Fixed { r: -65536 }),
        Fixed { r: 6553600000 },
        Material::Lambertian { albedo: Vec3::new(Fixed { r: 32768 }, Fixed { r: 32768 }, Fixed { r: 32768 }) },
    ));
    let cam = small_camera(4, v(0, 1, 0), v(0, 1, -1));
    let seed: u64 = 5;
    let buffer = cam.render(&world, seed);
    let range = FactorRange::new(Fixed { r: 66 }, Fixed { r: RAW_MAX });

    let mut misses = 0;
    let mut hits = 0;
    for j in 0..cam.image_height {
        let mut rng = Rng::from_seed(seed ^ (j as u64));
        for i in 0..cam.image_width {
            let ray = cam.get_ray(i, j, &mut rng);
            let color = Camera::ray_color(&ray, cam.max_depth, &world, &mut rng);
            let idx = ((j * cam.image_width + i) * 3) as usize;
            if world.hit(&ray, range).is_none() {
                misses += 1;
                assert_eq!(color, sky_color(&ray));
                let avg = color.scale(cam.pixel_samples_scale);
                assert_eq!(buffer[idx], tone_map(avg.x));
                assert_eq!(buffer[idx + 1], tone_map(avg.y));
                assert_eq!(buffer[idx + 2], tone_map(avg.z));
            } else {
                hits += 1;
            }
        }
    }
    assert!(misses > 0);
    assert!(hits > 0);
}

#[test]
fn rendering_twice_with_one_seed_is_byte_identical() {
    let mut world = HitableList::default();
    world.push(Sphere::new(v(0, 0, -3), Fixed::from_int(1), Material::default()));
    world.push(Sphere::new(
        v(1, 0, -4),
        Fixed::from_int(1),
        Material::Metal {
            albedo: Vec3::new(Fixed { r: 52428 }, Fixed { r: 39321 }, Fixed { r: 13107 }),
            fuzz: Fixed { r: 6553 },
        },
    ));
    world.push(Sphere::new(
        v(-1, 0, -4),
        Fixed::from_int(1),
        Material::Dielectric { refraction_index: Fixed { r: 98304 } },
    ));
    let cam = small_camera(3, v(0, 0, 0), v(0, 0, -1));
    let a = cam.render(&world, 1234);
    let b = cam.render(&world, 1234);
    assert_eq!(a, b);
}

#[test]
fn rows_rendered_separately_reassemble_the_image() {
    let mut world = HitableList::default();
    world.push(Sphere::new(v(0, 0, -3), Fixed::from_int(1), Material::default()));
    let cam = small_camera(3, v(0, 0, 0), v(0, 0, -1));
    let seed: u64 = 77;
    let whole = cam.render(&world, seed);
    let mut assembled: Vec<u8> = Vec::new();
    for j in 0..cam.image_height {
        let mut rng = Rng::from_seed(seed ^ (j as u64));
        let row = cam.render_row(&world, j, &mut rng);
        assembled.extend_from_slice(&row);
    }
    assert_eq!(whole, assembled);
}
