//! A CPU ray tracer over fixed-point arithmetic.
//!
//! Every scalar quantity (coordinate, length, colour channel, cosine) is an
//! `i128` counted in 1/65536 units, so the whole geometric core - quadratic
//! root finding, sub-surface tie-breaking, shadow rays, Phong shading and the
//! pixel loop - is exact integer arithmetic with proved contracts.

pub mod camera;
pub mod cilinder;
pub mod cone;
pub mod fixed;
pub mod plane;
pub mod sphere;
pub mod intersection;
pub mod light;
pub mod scene;
pub mod shape;
pub mod material;
pub mod ray;
pub mod tracelog;
pub mod transforms;
pub mod vec3;

pub use camera::Camera;
pub use cilinder::Cilinder;
pub use cone::Cone;
pub use fixed::SCALE;
pub use intersection::Intersection;
pub use light::{Light, Point};
pub use material::Material;
pub use plane::Plane;
pub use ray::Ray;
pub use scene::Scene;
pub use shape::Shape;
pub use sphere::Sphere;
pub use tracelog::TraceLogLevel;
pub use transforms::Mat3;
pub use vec3::Vec3;
