//! Fixed-dimension vector algebra: 2-, 3-, and 4-component vectors over a
//! generic scalar type, with component access, per-element transformation,
//! arithmetic operators, and geometric operations exposed through a
//! capability-based trait hierarchy.

mod laws;
mod traits;
mod vec2;
mod vec3;
mod vec4;

pub use laws::{
    lemma_accessors_match_components_vec2, lemma_accessors_match_components_vec3,
    lemma_accessors_match_components_vec4, lemma_add_zero_identity_vec2,
    lemma_add_zero_identity_vec3, lemma_add_zero_identity_vec4, lemma_broadcast_add_vec2,
    lemma_broadcast_add_vec3, lemma_broadcast_add_vec4, lemma_cross_anticommutes_i64,
    lemma_cross_orthogonal_i64, lemma_dot_symmetric_vec2, lemma_dot_symmetric_vec2_i64,
    lemma_dot_symmetric_vec3, lemma_dot_symmetric_vec3_i64, lemma_dot_symmetric_vec4,
    lemma_dot_symmetric_vec4_i64, lemma_round_trip_vec2, lemma_round_trip_vec3,
    lemma_round_trip_vec4,
};
pub use traits::{
    HasAbs, HasCeil, HasComponents, HasCross, HasDistance, HasDot, HasExponential,
    HasFaceForward, HasFloor, HasFract, HasLength, HasMinMax, HasMix, HasMod, HasOne,
    HasPerElementBinOps, HasPerElementOps, HasReflect, HasRefract, HasSign, HasSmoothStep,
    HasSqrt, HasStep, HasTrig, HasW, HasX, HasY, HasZ, HasZero,
};
pub use vec2::{vec2, Vec2};
pub use vec3::{vec3, Vec3};
pub use vec4::{vec4, Vec4};
