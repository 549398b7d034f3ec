//! Geometric operations: dot product, cross product, clamping, and step.

use vecalg::{vec2, vec3, vec4, HasDot, HasCross, HasFaceForward, HasMinMax, HasReflect, HasStep};

#[test]
fn basis_cross_product() {
    assert_eq!(vec3(1i64, 0, 0).cross(vec3(0, 1, 0)), vec3(0, 0, 1));
}

#[test]
fn dot_product_vec4() {
    assert_eq!(vec4(1i64, 2, 3, 4).dot(vec4(4, 3, 2, 1)), 20);
}

#[test]
fn dot_product_symmetry() {
    let a = vec3(3i64, -4, 5);
    let b = vec3(7i64, 2, -9);
    assert_eq!(a.dot(b), b.dot(a));
    let c = vec2(12i64, -7);
    let d = vec2(-5i64, 3);
    assert_eq!(c.dot(d), d.dot(c));
}

#[test]
fn cross_product_anticommutes() {
    let a = vec3(2i64, -3, 5);
    let b = vec3(7i64, 11, -13);
    assert_eq!(a.cross(b), -(b.cross(a)));
}

#[test]
fn cross_product_is_orthogonal() {
    let a = vec3(2i64, -3, 5);
    let b = vec3(7i64, 11, -13);
    let c = a.cross(b);
    assert_eq!(c.dot(a), 0);
    assert_eq!(c.dot(b), 0);
}

#[test]
fn clamp_scenario() {
    let v = vec3(-1.0f64, 0.5, 2.0);
    let lo = vec3(0.0f64, 0.0, 0.0);
    let hi = vec3(1.0f64, 1.0, 1.0);
    assert_eq!(v.clamp(lo, hi), vec3(0.0, 0.5, 1.0));
}

#[test]
fn clamp_integers() {
    let v = vec4(-5i64, 0, 3, 10);
    let lo = vec4(0i64, 0, 0, 0);
    let hi = vec4(4i64, 4, 4, 4);
    assert_eq!(v.clamp(lo, hi), vec4(0, 0, 3, 4));
}

#[test]
fn min_max_component_wise() {
    let a = vec2(1i64, 9);
    let b = vec2(5i64, 2);
    assert_eq!(a.min(b), vec2(1, 2));
    assert_eq!(a.max(b), vec2(5, 9));
    let e = vec3(4i64, 4, 4);
    assert_eq!(e.min(e), e);
    assert_eq!(e.max(e), e);
}

#[test]
fn step_against_edges() {
    let v = vec3(1i64, 5, 3);
    let edge = vec3(2i64, 2, 3);
    assert_eq!(v.step(edge), vec3(0, 1, 1));
}

#[test]
fn dot_product_f64() {
    let a = vec2(0.5f64, 2.0);
    let b = vec2(4.0f64, 0.25);
    assert_eq!(a.dot(b), 2.5);
}

#[test]
fn reflect_about_normal() {
    let incident = vec3(1i64, -1, 0);
    let normal = vec3(0i64, 1, 0);
    assert_eq!(incident.reflect(normal), vec3(1, 1, 0));
}

#[test]
fn faceforward_orients_normal() {
    let normal = vec3(0i64, 0, 1);
    let reference = vec3(0i64, 0, 1);
    assert_eq!(normal.faceforward(vec3(0, 0, -1), reference), normal);
    assert_eq!(normal.faceforward(vec3(0, 0, 1), reference), vec3(0, 0, -1));
}
