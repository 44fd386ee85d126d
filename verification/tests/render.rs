use raycast::camera::Camera;
use raycast::fixed::channel_byte;
use raycast::intersection::Intersection;
use raycast::light::{Light, Point};
use raycast::material::Material;
use raycast::scene::Scene;
use raycast::shape::Shape;
use raycast::sphere::Sphere;
use raycast::tracelog::TraceLogLevel;
use raycast::vec3::Vec3;

const S: i128 = 65536;

fn surface_point() -> Intersection {
    Intersection {
        t: S,
        p: Vec3::new(0, 0, 0),
        normal: Vec3::new(0, S, 0),
        material: Material::white(),
    }
}

fn lamp() -> Point {
    Point::new(Vec3::new(0, 10 * S, 0), Vec3::new(S, S, S), S)
}

#[test]
fn occluder_blocks_the_light() {
    let occluder = Sphere::new(Vec3::new(0, 5 * S, 0), S, Material::white());
    let scene = Scene {
        objects: vec![Shape::Sphere(occluder)],
        lights: vec![],
        ambient_light: Vec3::new(0, 0, 0),
    };
    let c = lamp().color_at(&surface_point(), Vec3::new(0, 0, -S), &scene);
    assert_eq!(c, Vec3::new(0, 0, 0));
}

#[test]
fn removing_the_occluder_restores_light() {
    let scene = Scene {
        objects: vec![],
        lights: vec![],
        ambient_light: Vec3::new(0, 0, 0),
    };
    let c = lamp().color_at(&surface_point(), Vec3::new(0, 0, -S), &scene);
    assert!(c.x > 0 && c.y > 0 && c.z > 0);
}

#[test]
fn nearest_intersection_picks_the_closer_sphere() {
    let near = Sphere::new(Vec3::new(0, 0, -5 * S), S, Material::green());
    let far = Sphere::new(Vec3::new(0, 0, -10 * S), S, Material::red());
    let scene = Scene {
        objects: vec![Shape::Sphere(far), Shape::Sphere(near)],
        lights: vec![],
        ambient_light: Vec3::new(0, 0, 0),
    };
    let r = raycast::ray::Ray::new(Vec3::new(0, 0, 0), Vec3::new(0, 0, -S));
    let i = scene.nearest_intersection(&r).expect("both spheres face the ray");
    assert_eq!(i.t, 4 * S);
    assert_eq!(i.material, Material::green());
}

#[test]
fn background_is_black() {
    let scene = Scene {
        objects: vec![],
        lights: vec![Light::Point(lamp())],
        ambient_light: Vec3::new(13107, 13107, 13107),
    };
    let cam = Camera::new(Vec3::new(0, 0, 0), S, S, S);
    let img = cam.render_scene(&scene, 4, 4);
    assert_eq!(img.len(), 48);
    assert!(img.iter().all(|&b| b == 0));
}

#[test]
fn render_twice_is_byte_identical() {
    let ball = Sphere::new(Vec3::new(0, 0, -5 * S), 2 * S, Material::green());
    let scene = Scene {
        objects: vec![Shape::Sphere(ball)],
        lights: vec![Light::Point(Point::new(
            Vec3::new(0, 6 * S, -10 * S),
            Vec3::new(S, 42598, 45875),
            32768,
        ))],
        ambient_light: Vec3::new(13107, 13107, 13107),
    };
    let cam = Camera::new(Vec3::new(0, 0, 0), S, S, S);
    let b1 = cam.render_scene(&scene, 8, 8);
    let b2 = cam.render_scene(&scene, 8, 8);
    assert_eq!(b1.len(), 192);
    assert_eq!(b1, b2);
    assert!(b1.iter().any(|&b| b != 0));
}

#[test]
fn overbright_channel_saturates_at_255() {
    // Double-strength ambient light on a 0.8 coefficient exceeds one per
    // channel, so every channel of the hit pixel clamps to 255.
    let ball = Sphere::new(Vec3::new(0, 0, -5 * S), S, Material::white());
    let scene = Scene {
        objects: vec![Shape::Sphere(ball)],
        lights: vec![],
        ambient_light: Vec3::new(2 * S, 2 * S, 2 * S),
    };
    let cam = Camera::new(Vec3::new(0, 0, 0), S, S, S);
    let img = cam.render_scene(&scene, 1, 1);
    assert_eq!(img, vec![255, 255, 255]);
}

#[test]
fn channel_byte_clamps_and_scales() {
    assert_eq!(channel_byte(0), 0);
    assert_eq!(channel_byte(-5 * S), 0);
    assert_eq!(channel_byte(S), 255);
    assert_eq!(channel_byte(10 * S), 255);
    assert_eq!(channel_byte(32768), 127);
}

#[test]
fn quarter_turns_compose_to_identity() {
    let mut cam = Camera::new(Vec3::new(0, 0, 0), S, S, S);
    let start = cam.coord_system;
    for _ in 0..4 {
        cam.rotate(Vec3::new(0, 0, S), 0, S);
    }
    assert_eq!(cam.coord_system, start);
}

#[test]
fn rotate_forth_and_back_restores_the_basis() {
    let mut cam = Camera::new(Vec3::new(0, 0, 0), S, S, S);
    let start = cam.coord_system;
    let (c30, s30) = (56756, 32768);
    cam.rotate(Vec3::new(0, 0, S), c30, s30);
    assert_ne!(cam.coord_system, start);
    cam.rotate(Vec3::new(0, 0, S), c30, -s30);
    let close = |a: Vec3, b: Vec3| {
        (a.x - b.x).abs() <= 64 && (a.y - b.y).abs() <= 64 && (a.z - b.z).abs() <= 64
    };
    assert!(close(cam.coord_system.x_axis, start.x_axis));
    assert!(close(cam.coord_system.y_axis, start.y_axis));
    assert!(close(cam.coord_system.z_axis, start.z_axis));
}

#[test]
fn log_level_codes() {
    assert_eq!(TraceLogLevel::All.code(), 0);
    assert_eq!(TraceLogLevel::Info.code(), 3);
    assert_eq!(TraceLogLevel::Fatal.code(), 6);
    assert_eq!(TraceLogLevel::Off.code(), 7);
}

#[test]
fn scene_and_camera_checks() {
    let scene = Scene {
        objects: vec![Shape::Sphere(Sphere::new(Vec3::new(0, 0, -5 * S), S, Material::red()))],
        lights: vec![Light::Point(lamp())],
        ambient_light: Vec3::new(13107, 13107, 13107),
    };
    assert!(scene.check_wf());
    let bad = Scene {
        objects: vec![Shape::Sphere(Sphere::new(Vec3::new(0, 0, 0), -S, Material::red()))],
        lights: vec![],
        ambient_light: Vec3::new(0, 0, 0),
    };
    assert!(!bad.check_wf());
    let cam = Camera::new(Vec3::new(0, 0, 0), S, S, S);
    assert!(cam.check_wf());
}
