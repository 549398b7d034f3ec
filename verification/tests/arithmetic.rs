//! Operator bindings: vector-vector and vector-scalar arithmetic, negation,
//! and the per-element map and zip operations.

use vecalg::{vec2, vec3, vec4, HasAbs, HasMix, HasMod, HasPerElementBinOps, HasPerElementOps, HasSign, Vec2};

#[test]
fn vector_add_and_scalar_mul() {
    assert_eq!(vec2(1i64, 2) + vec2(3, 4), vec2(4, 6));
    assert_eq!(vec2(1i64, 2) * 2, vec2(2, 4));
}

#[test]
fn vector_vector_operators() {
    assert_eq!(vec3(1i64, 2, 3) + vec3(10, 20, 30), vec3(11, 22, 33));
    assert_eq!(vec3(10i64, 20, 30) - vec3(1, 2, 3), vec3(9, 18, 27));
    assert_eq!(vec3(2i64, 3, 4) * vec3(5, 6, 7), vec3(10, 18, 28));
    assert_eq!(vec3(10i64, 21, 36) / vec3(2, 3, 4), vec3(5, 7, 9));
    assert_eq!(vec3(10i64, 21, 36) % vec3(4, 5, 7), vec3(2, 1, 1));
    assert_eq!(vec4(1i64, 2, 3, 4) + vec4(4, 3, 2, 1), vec4(5, 5, 5, 5));
}

#[test]
fn scalar_broadcast_operators() {
    assert_eq!(vec3(1i64, 2, 3) + 10, vec3(11, 12, 13));
    assert_eq!(vec3(10i64, 20, 30) - 5, vec3(5, 15, 25));
    assert_eq!(vec3(10i64, 20, 30) / 10, vec3(1, 2, 3));
    assert_eq!(vec3(10i64, 21, 32) % 10, vec3(0, 1, 2));
    assert_eq!(vec4(1i64, 2, 3, 4) * 3, vec4(3, 6, 9, 12));
    assert_eq!(vec2(7i64, 8) - 7, vec2(0, 1));
}

#[test]
fn scalar_broadcast_reaches_every_component() {
    let v = vec4(3i64, -1, 4, -5);
    let s = 11i64;
    let sum = v + s;
    for i in 0..4usize {
        assert_eq!(sum[i], v[i] + s);
    }
}

#[test]
fn negation() {
    assert_eq!(-vec2(1i64, -2), vec2(-1, 2));
    assert_eq!(-vec3(1i64, -2, 3), vec3(-1, 2, -3));
    assert_eq!(-vec4(1i64, -2, 3, 0), vec4(-1, 2, -3, 0));
}

#[test]
fn additive_identity() {
    let v = vec4(5i64, -6, 7, -8);
    assert_eq!(v + vecalg::Vec4::zero(), v);
    assert_eq!(v + 0i64, v);
    let w = vec2(9i32, -4);
    assert_eq!(w + Vec2::zero(), w);
}

#[test]
fn float_operators_run() {
    assert_eq!(vec2(1.5f64, 2.5) + vec2(0.5, 0.5), vec2(2.0, 3.0));
    assert_eq!(vec3(1.0f64, 2.0, 3.0) * 0.5, vec3(0.5, 1.0, 1.5));
    assert_eq!(vec2(1.0f64, 2.0) / vec2(4.0, 8.0), vec2(0.25, 0.25));
}

#[test]
fn per_element_map() {
    let v = vec3(1i64, 2, 3);
    let doubled = v.apply_op(|t| t * 2);
    for i in 0..3usize {
        assert_eq!(doubled[i], 2 * v[i]);
    }
    assert_eq!(vec2(-4i64, 9).apply_op(|t| t + 1), vec2(-3, 10));
}

#[test]
fn per_element_zip() {
    let a = vec3(1i64, 20, 300);
    let b = vec3(4i64, 5, 6);
    let sum = a.apply_bin_op(b, |s, t| s + t);
    for i in 0..3usize {
        assert_eq!(sum[i], a[i] + b[i]);
    }
    assert_eq!(
        vec4(8i64, 6, 4, 2).apply_bin_op(vec4(2, 3, 4, 2), |s, t| s / t),
        vec4(4, 2, 1, 1)
    );
}

#[test]
fn modulus_component_wise() {
    assert_eq!(vec3(10i64, 21, 36).modulus(vec3(4, 5, 7)), vec3(2, 1, 1));
    assert_eq!(vec2(9i64, 10).modulus(vec2(2, 3)), vec2(1, 1));
}

#[test]
fn mix_blends_components() {
    let a = vec3(10i64, 20, 30);
    let b = vec3(50i64, 60, 70);
    assert_eq!(a.mix(b, 0), a);
    assert_eq!(a.mix(b, 1), b);
    let c = vec2(10i64, -10);
    let d = vec2(20i64, 10);
    // the endpoint blend factors select the matching operand
    assert_eq!(c.mix(d, 1), d);
    assert_eq!(c.mix(d, 0), c);
}

#[test]
fn abs_component_wise() {
    assert_eq!(vec3(-5i64, 0, 7).abs(), vec3(5, 0, 7));
    assert_eq!(vec2(-1i32, -2).abs(), vec2(1, 2));
}

#[test]
fn sign_component_wise() {
    assert_eq!(vec3(-5i64, 0, 7).sign(), vec3(-1, 0, 1));
    assert_eq!(vec4(0i32, -9, 9, 0).sign(), vec4(0, -1, 1, 0));
}
