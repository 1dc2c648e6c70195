//! The camera: viewport derivation, ray generation, and an end-to-end
//! render of a two-sphere scene.

use rand::rngs::StdRng;
use rand::SeedableRng;
use raytracer::camera::Camera;
use raytracer::color::Color;
use raytracer::fixed::Fx;
use raytracer::lambert::Lambert;
use raytracer::material::Material;
use raytracer::point::Point;
use raytracer::scene::Scene;
use raytracer::shape::Shape;
use raytracer::sphere::Sphere;
use raytracer::vector::Vector;

fn fi(i: i64) -> Fx {
    Fx::from_int(i)
}

#[test]
fn initialize() {
    let mut c = Camera::new(2000, 1000);
    c.set_vfov(fi(90));
    c.set_look_from(Point::zero());
    c.set_look_at(Point::new(fi(1), fi(0), fi(0)));
    c.set_defocus_angle(fi(90));
    c.set_focus_distance(fi(10));

    c.initialize();
    // The fixed-point tangent of 45 degrees is 65244/65536, so the derived
    // viewport sits a fraction below the real-valued reference.
    assert_eq!(
        c.pixel00_location,
        Point::new(Fx::new(655360), Fx::new(651788), Fx::new(-1304228))
    );
    assert_eq!(c.pixel_delta_u, Vector::new(Fx::new(0), Fx::new(0), Fx::new(1304)));
    assert_eq!(c.pixel_delta_v, Vector::new(Fx::new(0), Fx::new(-1304), Fx::new(0)));
    assert_eq!(c.defocus_disk_u, Vector::new(Fx::new(0), Fx::new(0), Fx::new(652440)));
    assert_eq!(c.defocus_disk_v, Vector::new(Fx::new(0), Fx::new(652440), Fx::new(0)));
}

#[test]
fn get_ray() {
    let mut rng = StdRng::seed_from_u64(21);
    let mut c = Camera::new(2000, 1000);
    c.set_look_from(Point::new(fi(1), fi(0), fi(0)));
    c.initialize();

    let r = c.get_ray(10, 10, &mut rng);
    let pixel_center = c.pixel00_location.add(
        c.pixel_delta_u.add(c.pixel_delta_v).scale(fi(10)),
    );
    assert_eq!(r.at(fi(0)), c.look_from);
    assert!(r.at(fi(1)).sub(pixel_center).length().raw <= c.pixel_delta_u.length().raw);
}

#[test]
fn sky_gradient() {
    // With an empty scene the radiance estimator returns the sky blend
    // exactly: pale blue at the zenith, the mid blend at the horizon, and
    // white toward the ground.
    let mut rng = StdRng::seed_from_u64(3);
    let scene = Scene::new();
    let camera = Camera::new(4, 4);
    let up = raytracer::ray::Ray::new(Point::zero(), Vector::new(fi(0), fi(1), fi(0)));
    let horiz = raytracer::ray::Ray::new(Point::zero(), Vector::new(fi(1), fi(0), fi(0)));
    let down = raytracer::ray::Ray::new(Point::zero(), Vector::new(fi(0), fi(-1), fi(0)));
    let c_up = camera.ray_color(up, 1, &scene, &mut rng);
    let c_horiz = camera.ray_color(horiz, 1, &scene, &mut rng);
    let c_down = camera.ray_color(down, 1, &scene, &mut rng);
    assert_eq!(c_up, Color::new(Fx::new(32768), Fx::new(45875), Fx::new(65536)));
    assert_eq!(c_horiz, Color::new(Fx::new(49152), Fx::new(55705), Fx::new(65536)));
    assert_eq!(c_down, Color::white());
    // An exhausted recursion budget contributes black.
    assert_eq!(camera.ray_color(up, 0, &scene, &mut rng), Color::black());
}

#[test]
fn render_two_sphere_scene() {
    // A small Lambertian sphere in front of the camera and a large ground
    // sphere below it.  Rays that miss both see the pure sky gradient,
    // whose blue channel is exactly one; rays that hit the small sphere
    // come back attenuated by its albedo (or absorbed by the bounce limit).
    let mut scene = Scene::new();
    let albedo = Color::new(Fx::new(32768), Fx::new(32768), Fx::new(32768));
    scene.add(Shape::Sphere(Sphere::new(
        Point::new(fi(0), fi(0), fi(-1)),
        Fx::new(32768),
        Material::Lambert(Lambert::new(albedo)),
    )));
    scene.add(Shape::Sphere(Sphere::new(
        Point::new(fi(0), Fx::new(-6586368), fi(-1)),
        fi(100),
        Material::Lambert(Lambert::new(albedo)),
    )));

    let mut camera = Camera::new(10, 10);
    camera.set_samples_per_pixel(1);
    camera.set_max_depth(2);
    camera.set_look_from(Point::zero());
    camera.set_look_at(Point::new(fi(0), fi(0), fi(-1)));

    let mut rng = StdRng::seed_from_u64(7);
    let pixels = camera.render(&scene, &mut rng);
    assert_eq!(pixels.len(), 100);

    // Every pixel is a valid radiance with the sky's channel ordering.
    for p in &pixels {
        let (r, g, b) = (p.values.x.raw, p.values.y.raw, p.values.z.raw);
        assert!(0 <= r && r <= g && g <= b && b <= 65536);
    }
    // The whole top row misses both spheres: pure sky, blue exactly one.
    for x in 0..10 {
        assert_eq!(pixels[x].values.z.raw, 65536);
    }
    // The center pixel hits the small sphere: its radiance is the albedo
    // attenuating the sky behind the bounce, or black when the scattered
    // ray's own bounce budget ran out.
    let center = &pixels[5 * 10 + 5];
    assert!(center.values.z.raw == 32768 || center.values.z.raw == 0);
    assert!(center.values.z.raw < 65536);
}
