//! Construction, component access, and indexing.

use vecalg::{vec2, vec3, vec4, HasX, HasY, HasZ, HasW, Vec2, Vec3, Vec4};

#[test]
fn round_trip_vec2() {
    let a = [10i64, 20];
    assert_eq!(Vec2::new(a).as_array(), a);
}

#[test]
fn round_trip_vec3() {
    let a = [1i64, -2, 3];
    assert_eq!(Vec3::new(a).as_array(), a);
}

#[test]
fn round_trip_vec4() {
    let a = [7i64, 8, 9, -10];
    assert_eq!(Vec4::new(a).as_array(), a);
}

#[test]
fn round_trip_f64() {
    let a = [0.5f64, -1.25, 3.0];
    assert_eq!(Vec3::new(a).as_array(), a);
}

#[test]
fn constructor_matches_new() {
    assert_eq!(vec2(1i64, 2), Vec2::new([1, 2]));
    assert_eq!(vec3(1i64, 2, 3), Vec3::new([1, 2, 3]));
    assert_eq!(vec4(1i64, 2, 3, 4), Vec4::new([1, 2, 3, 4]));
}

#[test]
fn indexing_matches_named_accessors_vec3() {
    let v = vec3(4i64, 5, 6);
    assert_eq!(v[0], v.x());
    assert_eq!(v[1], v.y());
    assert_eq!(v[2], v.z());
}

#[test]
fn indexing_matches_named_accessors_vec2() {
    let v = vec2(4i64, 5);
    assert_eq!(v[0], v.x());
    assert_eq!(v[1], v.y());
}

#[test]
fn indexing_matches_named_accessors_vec4() {
    let v = vec4(4i64, 5, 6, 7);
    assert_eq!(v[0], v.x());
    assert_eq!(v[1], v.y());
    assert_eq!(v[2], v.z());
    assert_eq!(v[3], v.w());
}

#[test]
fn out_of_range_index_is_rejected() {
    let v = vec3(1i64, 2, 3);
    assert_eq!(v.get(5), None);
    assert_eq!(v.get(3), None);
    assert_eq!(v.get(2), Some(3));
    assert_eq!(vec2(1i64, 2).get(2), None);
    assert_eq!(vec4(1i64, 2, 3, 4).get(4), None);
}

#[test]
fn set_replaces_one_component() {
    let mut v = vec3(1i64, 2, 3);
    v.set(1, 9);
    assert_eq!(v, vec3(1, 9, 3));
}

#[test]
fn zero_and_unit_vectors() {
    assert_eq!(Vec4::<i64>::zero(), vec4(0, 0, 0, 0));
    assert_eq!(Vec4::<i64>::unit_x(), vec4(1, 0, 0, 0));
    assert_eq!(Vec4::<i64>::unit_y(), vec4(0, 1, 0, 0));
    assert_eq!(Vec4::<i64>::unit_z(), vec4(0, 0, 1, 0));
    assert_eq!(Vec4::<i64>::unit_w(), vec4(0, 0, 0, 1));
    assert_eq!(Vec3::<i64>::zero(), vec3(0, 0, 0));
    assert_eq!(Vec3::<i64>::unit_z(), vec3(0, 0, 1));
    assert_eq!(Vec2::<i32>::zero(), vec2(0, 0));
    assert_eq!(Vec2::<i32>::unit_y(), vec2(0, 1));
}
