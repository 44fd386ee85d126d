use raycast::cilinder::Cilinder;
use raycast::cone::Cone;
use raycast::material::Material;
use raycast::plane::Plane;
use raycast::ray::Ray;
use raycast::sphere::Sphere;
use raycast::vec3::Vec3;

const S: i128 = 65536;

#[test]
fn dot_product_exact() {
    let a = Vec3::new(S, 2 * S, 3 * S);
    let b = Vec3::new(4 * S, 5 * S, 6 * S);
    assert_eq!(a.dot(b), 32 * S);
}

#[test]
fn cross_product_exact() {
    let x = Vec3::new(S, 0, 0);
    let y = Vec3::new(0, S, 0);
    assert_eq!(x.cross(y), Vec3::new(0, 0, S));
    assert_eq!(y.cross(x), Vec3::new(0, 0, -S));
}

#[test]
fn length_and_normalize() {
    let v = Vec3::new(3 * S, 4 * S, 0);
    assert_eq!(v.length(), 5 * S);
    assert_eq!(v.magnitude(), 5 * S);
    assert_eq!(v.magnitude_squared(), 25 * S);
    let n = v.normalized();
    assert_eq!(n, Vec3::new(39321, 52428, 0));
    let zero = Vec3::new(0, 0, 0);
    assert_eq!(zero.normalized(), zero);
}

#[test]
fn reject_and_project() {
    let axis = Vec3::new(0, 0, S);
    let v = Vec3::new(5 * S, 0, 3 * S);
    assert_eq!(v.project_onto(axis), Vec3::new(0, 0, 3 * S));
    assert_eq!(v.reject_from(axis), Vec3::new(5 * S, 0, 0));
}

#[test]
fn ray_at_parameter() {
    let r = Ray::new(Vec3::new(S, 0, 0), Vec3::new(0, 0, -S));
    assert_eq!(r.at(4 * S), Vec3::new(S, 0, -4 * S));
}

#[test]
fn sphere_head_on_hit() {
    let s = Sphere::new(Vec3::new(0, 0, -5 * S), S, Material::white());
    let r = Ray::new(Vec3::new(0, 0, 0), Vec3::new(0, 0, -S));
    let i = s.intersects(&r).expect("the ray points straight at the sphere");
    assert_eq!(i.t, 4 * S);
    assert_eq!(i.p, Vec3::new(0, 0, -4 * S));
    assert_eq!(i.normal, Vec3::new(0, 0, S));
}

#[test]
fn sphere_miss_is_none() {
    let s = Sphere::new(Vec3::new(0, 0, -5 * S), S, Material::white());
    let r = Ray::new(Vec3::new(0, 0, 0), Vec3::new(0, 0, S));
    assert!(s.intersects(&r).is_none());
    let r2 = Ray::new(Vec3::new(0, 4 * S, 0), Vec3::new(0, 0, -S));
    assert!(s.intersects(&r2).is_none());
}

#[test]
fn plane_parallel_ray_is_none() {
    let pl = Plane::new(Vec3::new(3 * S, -2 * S, 5 * S), Vec3::new(0, 0, S), Material::white());
    for origin in [
        Vec3::new(0, 0, 0),
        Vec3::new(7 * S, -3 * S, 2 * S),
        Vec3::new(0, 0, 100 * S),
    ] {
        assert!(pl.intersects(&Ray::new(origin, Vec3::new(S, 0, 0))).is_none());
        assert!(pl.intersects(&Ray::new(origin, Vec3::new(0, S, 0))).is_none());
    }
}

#[test]
fn plane_head_on_hit() {
    let pl = Plane::new(Vec3::new(0, -2 * S, 0), Vec3::new(0, S, 0), Material::white());
    let r = Ray::new(Vec3::new(0, 0, 0), Vec3::new(0, -S, 0));
    let i = pl.intersects(&r).expect("the ray points straight at the plane");
    assert_eq!(i.t, 2 * S);
    assert_eq!(i.p, Vec3::new(0, -2 * S, 0));
    assert_eq!(i.normal, Vec3::new(0, S, 0));
}

#[test]
fn plane_behind_origin_is_none() {
    let pl = Plane::new(Vec3::new(0, -2 * S, 0), Vec3::new(0, S, 0), Material::white());
    let r = Ray::new(Vec3::new(0, 0, 0), Vec3::new(0, S, 0));
    assert!(pl.intersects(&r).is_none());
}

#[test]
fn cylinder_axial_root_rejected() {
    // The infinite quadratic has two real roots at axial height 3, but
    // the cylinder is only 1 unit tall: both must be rejected.
    let cyl = Cilinder::new(
        Vec3::new(0, 0, 0),
        Vec3::new(0, 0, S),
        S,
        S,
        false,
        false,
        Material::white(),
    );
    let r = Ray::new(Vec3::new(5 * S, 0, 3 * S), Vec3::new(-S, 0, 0));
    assert!(cyl.intersects(&r).is_none());
}

#[test]
fn cylinder_tall_enough_hits() {
    let cyl = Cilinder::new(
        Vec3::new(0, 0, 0),
        Vec3::new(0, 0, S),
        4 * S,
        S,
        false,
        false,
        Material::white(),
    );
    let r = Ray::new(Vec3::new(5 * S, 0, 3 * S), Vec3::new(-S, 0, 0));
    let i = cyl.intersects(&r).expect("the root at axial height 3 is inside [0, 4]");
    assert_eq!(i.t, 4 * S);
    assert_eq!(i.p, Vec3::new(S, 0, 3 * S));
    assert_eq!(i.normal, Vec3::new(S, 0, 0));
}

#[test]
fn cylinder_caps_hit() {
    let cyl = Cilinder::new(
        Vec3::new(0, 0, 0),
        Vec3::new(0, 0, S),
        2 * S,
        S,
        true,
        true,
        Material::white(),
    );
    // Straight down the axis from above: the top cap is the nearest hit.
    let r = Ray::new(Vec3::new(0, 0, 5 * S), Vec3::new(0, 0, -S));
    let i = cyl.intersects(&r).expect("the top cap faces the ray");
    assert_eq!(i.t, 3 * S);
    assert_eq!(i.p, Vec3::new(0, 0, 2 * S));
    assert_eq!(i.normal, Vec3::new(0, 0, S));
}

#[test]
fn cone_mirror_nappe_rejected() {
    // Above the apex the algebraic surface has a second nappe; roots on
    // it have positive parameters yet must be rejected.
    let cone = Cone::new(
        Vec3::new(0, 0, 0),
        Vec3::new(0, 0, S),
        S,
        S,
        false,
        Material::white(),
    );
    let r = Ray::new(Vec3::new(5 * S, 0, 2 * S), Vec3::new(-S, 0, 0));
    assert!(cone.intersects(&r).is_none());
}

#[test]
fn cone_lateral_hit() {
    let cone = Cone::new(
        Vec3::new(0, 0, 0),
        Vec3::new(0, 0, S),
        S,
        S,
        false,
        Material::white(),
    );
    // At half height the cone's radius is one half.
    let r = Ray::new(Vec3::new(5 * S, 0, 32768), Vec3::new(-S, 0, 0));
    let i = cone.intersects(&r).expect("the ray crosses the lateral surface");
    assert_eq!(i.t, 294912);
    assert_eq!(i.p, Vec3::new(32768, 0, 32768));
}

#[test]
fn material_presets() {
    let w = Material::white();
    assert_eq!(w.k_amb, Vec3::new(52429, 52429, 52429));
    assert_eq!(w.e, 15);
    let r = Material::red();
    assert_eq!(r.k_dif, Vec3::new(52429, 19661, 19661));
    let g = Material::green();
    assert_eq!(g.k_esp, Vec3::new(19661, 52429, 19661));
    let b = Material::blue();
    assert_eq!(b.k_amb, Vec3::new(19661, 19661, 52429));
}

#[test]
fn vector_constructors_and_accessors() {
    let v = Vec3::new(1, 2, 3);
    assert_eq!((v.x(), v.y(), v.z()), (1, 2, 3));
    assert_eq!(Vec3::splat(7), Vec3::new(7, 7, 7));
    assert_eq!(Vec3::all(9), Vec3::new(9, 9, 9));
    assert_eq!(v.clamp(2, 2), Vec3::new(2, 2, 2));
    assert_eq!(Vec3::new(S, 2 * S, 0).rgb_255(), Vec3::new(255 * S, 510 * S, 0));
    assert_eq!(Vec3::new(255 * S, 510 * S, 0).rgb_normal(), Vec3::new(S, 2 * S, 0));
}
