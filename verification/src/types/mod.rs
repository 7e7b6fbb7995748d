//! Vectors, matrices and quaternions.
use vstd::prelude::*;
use vstd::std_specs::convert::FromSpecImpl;

pub mod mat3;
pub mod mat4;
pub mod quat;
pub mod vec2;
pub mod vec3;
pub mod vec4;

pub use mat3::Mat3;
pub use mat4::Mat4;
pub use quat::Quat;
pub use vec2::Vec2;
pub use vec3::Vec3;
pub use vec4::Vec4;

verus! {

impl<Value: Copy> FromSpecImpl<Vec3<Value>> for Vec2<Value> {
    open spec fn obeys_from_spec() -> bool {
        true
    }

    open spec fn from_spec(v: Vec3<Value>) -> Self {
        Vec2([v.0[0], v.0[1]])
    }
}

/// The first two components.
impl<Value: Copy> From<Vec3<Value>> for Vec2<Value> {
    fn from(v: Vec3<Value>) -> (r: Self) {
        Vec2::new(v.x(), v.y())
    }
}

impl<Value: Copy> FromSpecImpl<Vec4<Value>> for Vec2<Value> {
    open spec fn obeys_from_spec() -> bool {
        true
    }

    open spec fn from_spec(v: Vec4<Value>) -> Self {
        Vec2([v.0[0], v.0[1]])
    }
}

/// The first two components.
impl<Value: Copy> From<Vec4<Value>> for Vec2<Value> {
    fn from(v: Vec4<Value>) -> (r: Self) {
        Vec2::new(v.x(), v.y())
    }
}

impl<Value: Copy> FromSpecImpl<Vec4<Value>> for Vec3<Value> {
    open spec fn obeys_from_spec() -> bool {
        true
    }

    open spec fn from_spec(v: Vec4<Value>) -> Self {
        Vec3([v.0[0], v.0[1], v.0[2]])
    }
}

/// The first three components.
impl<Value: Copy> From<Vec4<Value>> for Vec3<Value> {
    fn from(v: Vec4<Value>) -> (r: Self) {
        Vec3::new(v.x(), v.y(), v.z())
    }
}

} // verus!
