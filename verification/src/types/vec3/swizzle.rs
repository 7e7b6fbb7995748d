//! Every vector of two, three or four components that can be made of the components of a
//! [`Vec3`], each under the name that spells the components it takes.
use crate::types::vec2::Vec2Model;
use crate::types::vec3::Vec3Model;
use crate::types::vec4::Vec4Model;
use crate::types::Vec2;
use crate::types::Vec3;
use crate::types::Vec4;
use vstd::prelude::*;

verus! {

impl<Number: Copy> Vec3<Number> {
    pub fn xx(&self) -> (r: Vec2<Number>)
        ensures
            r == Vec2([self.0[0], self.0[0]]),
            r@ == (Vec2Model { x: self@.x, y: self@.x }),
    {
        Vec2::new(self.0[0], self.0[0])
    }

    pub fn xxx(&self) -> (r: Vec3<Number>)
        ensures
            r == Vec3([self.0[0], self.0[0], self.0[0]]),
            r@ == (Vec3Model { x: self@.x, y: self@.x, z: self@.x }),
    {
        Vec3::new(self.0[0], self.0[0], self.0[0])
    }

    pub fn xxxx(&self) -> (r: Vec4<Number>)
        ensures
            r == Vec4([self.0[0], self.0[0], self.0[0], self.0[0]]),
            r@ == (Vec4Model { x: self@.x, y: self@.x, z: self@.x, w: self@.x }),
    {
        Vec4::new(self.0[0], self.0[0], self.0[0], self.0[0])
    }

    pub fn xxxy(&self) -> (r: Vec4<Number>)
        ensures
            r == Vec4([self.0[0], self.0[0], self.0[0], self.0[1]]),
            r@ == (Vec4Model { x: self@.x, y: self@.x, z: self@.x, w: self@.y }),
    {
        Vec4::new(self.0[0], self.0[0], self.0[0], self.0[1])
    }

    pub fn xxxz(&self) -> (r: Vec4<Number>)
        ensures
            r == Vec4([self.0[0], self.0[0], self.0[0], self.0[2]]),
            r@ == (Vec4Model { x: self@.x, y: self@.x, z: self@.x, w: self@.z }),
    {
        Vec4::new(self.0[0], self.0[0], self.0[0], self.0[2])
    }

    pub fn xxy(&self) -> (r: Vec3<Number>)
        ensures
            r == Vec3([self.0[0], self.0[0], self.0[1]]),
            r@ == (Vec3Model { x: self@.x, y: self@.x, z: self@.y }),
    {
        Vec3::new(self.0[0], self.0[0], self.0[1])
    }

    pub fn xxyx(&self) -> (r: Vec4<Number>)
        ensures
            r == Vec4([self.0[0], self.0[0], self.0[1], self.0[0]]),
            r@ == (Vec4Model { x: self@.x, y: self@.x, z: self@.y, w: self@.x }),
    {
        Vec4::new(self.0[0], self.0[0], self.0[1], self.0[0])
    }

    pub fn xxyy(&self) -> (r: Vec4<Number>)
        ensures
            r == Vec4([self.0[0], self.0[0], self.0[1], self.0[1]]),
            r@ == (Vec4Model { x: self@.x, y: self@.x, z: self@.y, w: self@.y }),
    {
        Vec4::new(self.0[0], self.0[0], self.0[1], self.0[1])
    }

    pub fn xxyz(&self) -> (r: Vec4<Number>)
        ensures
            r == Vec4([self.0[0], self.0[0], self.0[1], self.0[2]]),
            r@ == (Vec4Model { x: self@.x, y: self@.x, z: self@.y, w: self@.z }),
    {
        Vec4::new(self.0[0], self.0[0], self.0[1], self.0[2])
    }

    pub fn xxz(&self) -> (r: Vec3<Number>)
        ensures
            r == Vec3([self.0[0], self.0[0], self.0[2]]),
            r@ == (Vec3Model { x: self@.x, y: self@.x, z: self@.z }),
    {
        Vec3::new(self.0[0], self.0[0], self.0[2])
    }

    pub fn xxzx(&self) -> (r: Vec4<Number>)
        ensures
            r == Vec4([self.0[0], self.0[0], self.0[2], self.0[0]]),
            r@ == (Vec4Model { x: self@.x, y: self@.x, z: self@.z, w: self@.x }),
    {
        Vec4::new(self.0[0], self.0[0], self.0[2], self.0[0])
    }

    pub fn xxzy(&self) -> (r: Vec4<Number>)
        ensures
            r == Vec4([self.0[0], self.0[0], self.0[2], self.0[1]]),
            r@ == (Vec4Model { x: self@.x, y: self@.x, z: self@.z, w: self@.y }),
    {
        Vec4::new(self.0[0], self.0[0], self.0[2], self.0[1])
    }

    pub fn xxzz(&self) -> (r: Vec4<Number>)
        ensures
            r == Vec4([self.0[0], self.0[0], self.0[2], self.0[2]]),
            r@ == (Vec4Model { x: self@.x, y: self@.x, z: self@.z, w: self@.z }),
    {
        Vec4::new(self.0[0], self.0[0], self.0[2], self.0[2])
    }

    pub fn xy(&self) -> (r: Vec2<Number>)
        ensures
            r == Vec2([self.0[0], self.0[1]]),
            r@ == (Vec2Model { x: self@.x, y: self@.y }),
    {
        Vec2::new(self.0[0], self.0[1])
    }

    pub fn xyx(&self) -> (r: Vec3<Number>)
        ensures
            r == Vec3([self.0[0], self.0[1], self.0[0]]),
            r@ == (Vec3Model { x: self@.x, y: self@.y, z: self@.x }),
    {
        Vec3::new(self.0[0], self.0[1], self.0[0])
    }

    pub fn xyxx(&self) -> (r: Vec4<Number>)
        ensures
            r == Vec4([self.0[0], self.0[1], self.0[0], self.0[0]]),
            r@ == (Vec4Model { x: self@.x, y: self@.y, z: self@.x, w: self@.x }),
    {
        Vec4::new(self.0[0], self.0[1], self.0[0], self.0[0])
    }

    pub fn xyxy(&self) -> (r: Vec4<Number>)
        ensures
            r == Vec4([self.0[0], self.0[1], self.0[0], self.0[1]]),
            r@ == (Vec4Model { x: self@.x, y: self@.y, z: self@.x, w: self@.y }),
    {
        Vec4::new(self.0[0], self.0[1], self.0[0], self.0[1])
    }

    pub fn xyxz(&self) -> (r: Vec4<Number>)
        ensures
            r == Vec4([self.0[0], self.0[1], self.0[0], self.0[2]]),
            r@ == (Vec4Model { x: self@.x, y: self@.y, z: self@.x, w: self@.z }),
    {
        Vec4::new(self.0[0], self.0[1], self.0[0], self.0[2])
    }

    pub fn xyy(&self) -> (r: Vec3<Number>)
        ensures
            r == Vec3([self.0[0], self.0[1], self.0[1]]),
            r@ == (Vec3Model { x: self@.x, y: self@.y, z: self@.y }),
    {
        Vec3::new(self.0[0], self.0[1], self.0[1])
    }

    pub fn xyyx(&self) -> (r: Vec4<Number>)
        ensures
            r == Vec4([self.0[0], self.0[1], self.0[1], self.0[0]]),
            r@ == (Vec4Model { x: self@.x, y: self@.y, z: self@.y, w: self@.x }),
    {
        Vec4::new(self.0[0], self.0[1], self.0[1], self.0[0])
    }

    pub fn xyyy(&self) -> (r: Vec4<Number>)
        ensures
            r == Vec4([self.0[0], self.0[1], self.0[1], self.0[1]]),
            r@ == (Vec4Model { x: self@.x, y: self@.y, z: self@.y, w: self@.y }),
    {
        Vec4::new(self.0[0], self.0[1], self.0[1], self.0[1])
    }

    pub fn xyyz(&self) -> (r: Vec4<Number>)
        ensures
            r == Vec4([self.0[0], self.0[1], self.0[1], self.0[2]]),
            r@ == (Vec4Model { x: self@.x, y: self@.y, z: self@.y, w: self@.z }),
    {
        Vec4::new(self.0[0], self.0[1], self.0[1], self.0[2])
    }

    pub fn xyz(&self) -> (r: Vec3<Number>)
        ensures
            r == Vec3([self.0[0], self.0[1], self.0[2]]),
            r@ == (Vec3Model { x: self@.x, y: self@.y, z: self@.z }),
    {
        Vec3::new(self.0[0], self.0[1], self.0[2])
    }

    pub fn xyzx(&self) -> (r: Vec4<Number>)
        ensures
            r == Vec4([self.0[0], self.0[1], self.0[2], self.0[0]]),
            r@ == (Vec4Model { x: self@.x, y: self@.y, z: self@.z, w: self@.x }),
    {
        Vec4::new(self.0[0], self.0[1], self.0[2], self.0[0])
    }

    pub fn xyzy(&self) -> (r: Vec4<Number>)
        ensures
            r == Vec4([self.0[0], self.0[1], self.0[2], self.0[1]]),
            r@ == (Vec4Model { x: self@.x, y: self@.y, z: self@.z, w: self@.y }),
    {
        Vec4::new(self.0[0], self.0[1], self.0[2], self.0[1])
    }

    pub fn xyzz(&self) -> (r: Vec4<Number>)
        ensures
            r == Vec4([self.0[0], self.0[1], self.0[2], self.0[2]]),
            r@ == (Vec4Model { x: self@.x, y: self@.y, z: self@.z, w: self@.z }),
    {
        Vec4::new(self.0[0], self.0[1], self.0[2], self.0[2])
    }

    pub fn xz(&self) -> (r: Vec2<Number>)
        ensures
            r == Vec2([self.0[0], self.0[2]]),
            r@ == (Vec2Model { x: self@.x, y: self@.z }),
    {
        Vec2::new(self.0[0], self.0[2])
    }

    pub fn xzx(&self) -> (r: Vec3<Number>)
        ensures
            r == Vec3([self.0[0], self.0[2], self.0[0]]),
            r@ == (Vec3Model { x: self@.x, y: self@.z, z: self@.x }),
    {
        Vec3::new(self.0[0], self.0[2], self.0[0])
    }

    pub fn xzxx(&self) -> (r: Vec4<Number>)
        ensures
            r == Vec4([self.0[0], self.0[2], self.0[0], self.0[0]]),
            r@ == (Vec4Model { x: self@.x, y: self@.z, z: self@.x, w: self@.x }),
    {
        Vec4::new(self.0[0], self.0[2], self.0[0], self.0[0])
    }

    pub fn xzxy(&self) -> (r: Vec4<Number>)
        ensures
            r == Vec4([self.0[0], self.0[2], self.0[0], self.0[1]]),
            r@ == (Vec4Model { x: self@.x, y: self@.z, z: self@.x, w: self@.y }),
    {
        Vec4::new(self.0[0], self.0[2], self.0[0], self.0[1])
    }

    pub fn xzxz(&self) -> (r: Vec4<Number>)
        ensures
            r == Vec4([self.0[0], self.0[2], self.0[0], self.0[2]]),
            r@ == (Vec4Model { x: self@.x, y: self@.z, z: self@.x, w: self@.z }),
    {
        Vec4::new(self.0[0], self.0[2], self.0[0], self.0[2])
    }

    pub fn xzy(&self) -> (r: Vec3<Number>)
        ensures
            r == Vec3([self.0[0], self.0[2], self.0[1]]),
            r@ == (Vec3Model { x: self@.x, y: self@.z, z: self@.y }),
    {
        Vec3::new(self.0[0], self.0[2], self.0[1])
    }

    pub fn xzyx(&self) -> (r: Vec4<Number>)
        ensures
            r == Vec4([self.0[0], self.0[2], self.0[1], self.0[0]]),
            r@ == (Vec4Model { x: self@.x, y: self@.z, z: self@.y, w: self@.x }),
    {
        Vec4::new(self.0[0], self.0[2], self.0[1], self.0[0])
    }

    pub fn xzyy(&self) -> (r: Vec4<Number>)
        ensures
            r == Vec4([self.0[0], self.0[2], self.0[1], self.0[1]]),
            r@ == (Vec4Model { x: self@.x, y: self@.z, z: self@.y, w: self@.y }),
    {
        Vec4::new(self.0[0], self.0[2], self.0[1], self.0[1])
    }

    pub fn xzyz(&self) -> (r: Vec4<Number>)
        ensures
            r == Vec4([self.0[0], self.0[2], self.0[1], self.0[2]]),
            r@ == (Vec4Model { x: self@.x, y: self@.z, z: self@.y, w: self@.z }),
    {
        Vec4::new(self.0[0], self.0[2], self.0[1], self.0[2])
    }

    pub fn xzz(&self) -> (r: Vec3<Number>)
        ensures
            r == Vec3([self.0[0], self.0[2], self.0[2]]),
            r@ == (Vec3Model { x: self@.x, y: self@.z, z: self@.z }),
    {
        Vec3::new(self.0[0], self.0[2], self.0[2])
    }

    pub fn xzzx(&self) -> (r: Vec4<Number>)
        ensures
            r == Vec4([self.0[0], self.0[2], self.0[2], self.0[0]]),
            r@ == (Vec4Model { x: self@.x, y: self@.z, z: self@.z, w: self@.x }),
    {
        Vec4::new(self.0[0], self.0[2], self.0[2], self.0[0])
    }

    pub fn xzzy(&self) -> (r: Vec4<Number>)
        ensures
            r == Vec4([self.0[0], self.0[2], self.0[2], self.0[1]]),
            r@ == (Vec4Model { x: self@.x, y: self@.z, z: self@.z, w: self@.y }),
    {
        Vec4::new(self.0[0], self.0[2], self.0[2], self.0[1])
    }

    pub fn xzzz(&self) -> (r: Vec4<Number>)
        ensures
            r == Vec4([self.0[0], self.0[2], self.0[2], self.0[2]]),
            r@ == (Vec4Model { x: self@.x, y: self@.z, z: self@.z, w: self@.z }),
    {
        Vec4::new(self.0[0], self.0[2], self.0[2], self.0[2])
    }

    pub fn yx(&self) -> (r: Vec2<Number>)
        ensures
            r == Vec2([self.0[1], self.0[0]]),
            r@ == (Vec2Model { x: self@.y, y: self@.x }),
    {
        Vec2::new(self.0[1], self.0[0])
    }

    pub fn yxx(&self) -> (r: Vec3<Number>)
        ensures
            r == Vec3([self.0[1], self.0[0], self.0[0]]),
            r@ == (Vec3Model { x: self@.y, y: self@.x, z: self@.x }),
    {
        Vec3::new(self.0[1], self.0[0], self.0[0])
    }

    pub fn yxxx(&self) -> (r: Vec4<Number>)
        ensures
            r == Vec4([self.0[1], self.0[0], self.0[0], self.0[0]]),
            r@ == (Vec4Model { x: self@.y, y: self@.x, z: self@.x, w: self@.x }),
    {
        Vec4::new(self.0[1], self.0[0], self.0[0], self.0[0])
    }

    pub fn yxxy(&self) -> (r: Vec4<Number>)
        ensures
            r == Vec4([self.0[1], self.0[0], self.0[0], self.0[1]]),
            r@ == (Vec4Model { x: self@.y, y: self@.x, z: self@.x, w: self@.y }),
    {
        Vec4::new(self.0[1], self.0[0], self.0[0], self.0[1])
    }

    pub fn yxxz(&self) -> (r: Vec4<Number>)
        ensures
            r == Vec4([self.0[1], self.0[0], self.0[0], self.0[2]]),
            r@ == (Vec4Model { x: self@.y, y: self@.x, z: self@.x, w: self@.z }),
    {
        Vec4::new(self.0[1], self.0[0], self.0[0], self.0[2])
    }

    pub fn yxy(&self) -> (r: Vec3<Number>)
        ensures
            r == Vec3([self.0[1], self.0[0], self.0[1]]),
            r@ == (Vec3Model { x: self@.y, y: self@.x, z: self@.y }),
    {
        Vec3::new(self.0[1], self.0[0], self.0[1])
    }

    pub fn yxyx(&self) -> (r: Vec4<Number>)
        ensures
            r == Vec4([self.0[1], self.0[0], self.0[1], self.0[0]]),
            r@ == (Vec4Model { x: self@.y, y: self@.x, z: self@.y, w: self@.x }),
    {
        Vec4::new(self.0[1], self.0[0], self.0[1], self.0[0])
    }

    pub fn yxyy(&self) -> (r: Vec4<Number>)
        ensures
            r == Vec4([self.0[1], self.0[0], self.0[1], self.0[1]]),
            r@ == (Vec4Model { x: self@.y, y: self@.x, z: self@.y, w: self@.y }),
    {
        Vec4::new(self.0[1], self.0[0], self.0[1], self.0[1])
    }

    pub fn yxyz(&self) -> (r: Vec4<Number>)
        ensures
            r == Vec4([self.0[1], self.0[0], self.0[1], self.0[2]]),
            r@ == (Vec4Model { x: self@.y, y: self@.x, z: self@.y, w: self@.z }),
    {
        Vec4::new(self.0[1], self.0[0], self.0[1], self.0[2])
    }

    pub fn yxz(&self) -> (r: Vec3<Number>)
        ensures
            r == Vec3([self.0[1], self.0[0], self.0[2]]),
            r@ == (Vec3Model { x: self@.y, y: self@.x, z: self@.z }),
    {
        Vec3::new(self.0[1], self.0[0], self.0[2])
    }

    pub fn yxzx(&self) -> (r: Vec4<Number>)
        ensures
            r == Vec4([self.0[1], self.0[0], self.0[2], self.0[0]]),
            r@ == (Vec4Model { x: self@.y, y: self@.x, z: self@.z, w: self@.x }),
    {
        Vec4::new(self.0[1], self.0[0], self.0[2], self.0[0])
    }

    pub fn yxzy(&self) -> (r: Vec4<Number>)
        ensures
            r == Vec4([self.0[1], self.0[0], self.0[2], self.0[1]]),
            r@ == (Vec4Model { x: self@.y, y: self@.x, z: self@.z, w: self@.y }),
    {
        Vec4::new(self.0[1], self.0[0], self.0[2], self.0[1])
    }

    pub fn yxzz(&self) -> (r: Vec4<Number>)
        ensures
            r == Vec4([self.0[1], self.0[0], self.0[2], self.0[2]]),
            r@ == (Vec4Model { x: self@.y, y: self@.x, z: self@.z, w: self@.z }),
    {
        Vec4::new(self.0[1], self.0[0], self.0[2], self.0[2])
    }

    pub fn yy(&self) -> (r: Vec2<Number>)
        ensures
            r == Vec2([self.0[1], self.0[1]]),
            r@ == (Vec2Model { x: self@.y, y: self@.y }),
    {
        Vec2::new(self.0[1], self.0[1])
    }

    pub fn yyx(&self) -> (r: Vec3<Number>)
        ensures
            r == Vec3([self.0[1], self.0[1], self.0[0]]),
            r@ == (Vec3Model { x: self@.y, y: self@.y, z: self@.x }),
    {
        Vec3::new(self.0[1], self.0[1], self.0[0])
    }

    pub fn yyxx(&self) -> (r: Vec4<Number>)
        ensures
            r == Vec4([self.0[1], self.0[1], self.0[0], self.0[0]]),
            r@ == (Vec4Model { x: self@.y, y: self@.y, z: self@.x, w: self@.x }),
    {
        Vec4::new(self.0[1], self.0[1], self.0[0], self.0[0])
    }

    pub fn yyxy(&self) -> (r: Vec4<Number>)
        ensures
            r == Vec4([self.0[1], self.0[1], self.0[0], self.0[1]]),
            r@ == (Vec4Model { x: self@.y, y: self@.y, z: self@.x, w: self@.y }),
    {
        Vec4::new(self.0[1], self.0[1], self.0[0], self.0[1])
    }

    pub fn yyxz(&self) -> (r: Vec4<Number>)
        ensures
            r == Vec4([self.0[1], self.0[1], self.0[0], self.0[2]]),
            r@ == (Vec4Model { x: self@.y, y: self@.y, z: self@.x, w: self@.z }),
    {
        Vec4::new(self.0[1], self.0[1], self.0[0], self.0[2])
    }

    pub fn yyy(&self) -> (r: Vec3<Number>)
        ensures
            r == Vec3([self.0[1], self.0[1], self.0[1]]),
            r@ == (Vec3Model { x: self@.y, y: self@.y, z: self@.y }),
    {
        Vec3::new(self.0[1], self.0[1], self.0[1])
    }

    pub fn yyyx(&self) -> (r: Vec4<Number>)
        ensures
            r == Vec4([self.0[1], self.0[1], self.0[1], self.0[0]]),
            r@ == (Vec4Model { x: self@.y, y: self@.y, z: self@.y, w: self@.x }),
    {
        Vec4::new(self.0[1], self.0[1], self.0[1], self.0[0])
    }

    pub fn yyyy(&self) -> (r: Vec4<Number>)
        ensures
            r == Vec4([self.0[1], self.0[1], self.0[1], self.0[1]]),
            r@ == (Vec4Model { x: self@.y, y: self@.y, z: self@.y, w: self@.y }),
    {
        Vec4::new(self.0[1], self.0[1], self.0[1], self.0[1])
    }

    pub fn yyyz(&self) -> (r: Vec4<Number>)
        ensures
            r == Vec4([self.0[1], self.0[1], self.0[1], self.0[2]]),
            r@ == (Vec4Model { x: self@.y, y: self@.y, z: self@.y, w: self@.z }),
    {
        Vec4::new(self.0[1], self.0[1], self.0[1], self.0[2])
    }

    pub fn yyz(&self) -> (r: Vec3<Number>)
        ensures
            r == Vec3([self.0[1], self.0[1], self.0[2]]),
            r@ == (Vec3Model { x: self@.y, y: self@.y, z: self@.z }),
    {
        Vec3::new(self.0[1], self.0[1], self.0[2])
    }

    pub fn yyzx(&self) -> (r: Vec4<Number>)
        ensures
            r == Vec4([self.0[1], self.0[1], self.0[2], self.0[0]]),
            r@ == (Vec4Model { x: self@.y, y: self@.y, z: self@.z, w: self@.x }),
    {
        Vec4::new(self.0[1], self.0[1], self.0[2], self.0[0])
    }

    pub fn yyzy(&self) -> (r: Vec4<Number>)
        ensures
            r == Vec4([self.0[1], self.0[1], self.0[2], self.0[1]]),
            r@ == (Vec4Model { x: self@.y, y: self@.y, z: self@.z, w: self@.y }),
    {
        Vec4::new(self.0[1], self.0[1], self.0[2], self.0[1])
    }

    pub fn yyzz(&self) -> (r: Vec4<Number>)
        ensures
            r == Vec4([self.0[1], self.0[1], self.0[2], self.0[2]]),
            r@ == (Vec4Model { x: self@.y, y: self@.y, z: self@.z, w: self@.z }),
    {
        Vec4::new(self.0[1], self.0[1], self.0[2], self.0[2])
    }

    pub fn yz(&self) -> (r: Vec2<Number>)
        ensures
            r == Vec2([self.0[1], self.0[2]]),
            r@ == (Vec2Model { x: self@.y, y: self@.z }),
    {
        Vec2::new(self.0[1], self.0[2])
    }

    pub fn yzx(&self) -> (r: Vec3<Number>)
        ensures
            r == Vec3([self.0[1], self.0[2], self.0[0]]),
            r@ == (Vec3Model { x: self@.y, y: self@.z, z: self@.x }),
    {
        Vec3::new(self.0[1], self.0[2], self.0[0])
    }

    pub fn yzxx(&self) -> (r: Vec4<Number>)
        ensures
            r == Vec4([self.0[1], self.0[2], self.0[0], self.0[0]]),
            r@ == (Vec4Model { x: self@.y, y: self@.z, z: self@.x, w: self@.x }),
    {
        Vec4::new(self.0[1], self.0[2], self.0[0], self.0[0])
    }

    pub fn yzxy(&self) -> (r: Vec4<Number>)
        ensures
            r == Vec4([self.0[1], self.0[2], self.0[0], self.0[1]]),
            r@ == (Vec4Model { x: self@.y, y: self@.z, z: self@.x, w: self@.y }),
    {
        Vec4::new(self.0[1], self.0[2], self.0[0], self.0[1])
    }

    pub fn yzxz(&self) -> (r: Vec4<Number>)
        ensures
            r == Vec4([self.0[1], self.0[2], self.0[0], self.0[2]]),
            r@ == (Vec4Model { x: self@.y, y: self@.z, z: self@.x, w: self@.z }),
    {
        Vec4::new(self.0[1], self.0[2], self.0[0], self.0[2])
    }

    pub fn yzy(&self) -> (r: Vec3<Number>)
        ensures
            r == Vec3([self.0[1], self.0[2], self.0[1]]),
            r@ == (Vec3Model { x: self@.y, y: self@.z, z: self@.y }),
    {
        Vec3::new(self.0[1], self.0[2], self.0[1])
    }

    pub fn yzyx(&self) -> (r: Vec4<Number>)
        ensures
            r == Vec4([self.0[1], self.0[2], self.0[1], self.0[0]]),
            r@ == (Vec4Model { x: self@.y, y: self@.z, z: self@.y, w: self@.x }),
    {
        Vec4::new(self.0[1], self.0[2], self.0[1], self.0[0])
    }

    pub fn yzyy(&self) -> (r: Vec4<Number>)
        ensures
            r == Vec4([self.0[1], self.0[2], self.0[1], self.0[1]]),
            r@ == (Vec4Model { x: self@.y, y: self@.z, z: self@.y, w: self@.y }),
    {
        Vec4::new(self.0[1], self.0[2], self.0[1], self.0[1])
    }

    pub fn yzyz(&self) -> (r: Vec4<Number>)
        ensures
            r == Vec4([self.0[1], self.0[2], self.0[1], self.0[2]]),
            r@ == (Vec4Model { x: self@.y, y: self@.z, z: self@.y, w: self@.z }),
    {
        Vec4::new(self.0[1], self.0[2], self.0[1], self.0[2])
    }

    pub fn yzz(&self) -> (r: Vec3<Number>)
        ensures
            r == Vec3([self.0[1], self.0[2], self.0[2]]),
            r@ == (Vec3Model { x: self@.y, y: self@.z, z: self@.z }),
    {
        Vec3::new(self.0[1], self.0[2], self.0[2])
    }

    pub fn yzzx(&self) -> (r: Vec4<Number>)
        ensures
            r == Vec4([self.0[1], self.0[2], self.0[2], self.0[0]]),
            r@ == (Vec4Model { x: self@.y, y: self@.z, z: self@.z, w: self@.x }),
    {
        Vec4::new(self.0[1], self.0[2], self.0[2], self.0[0])
    }

    pub fn yzzy(&self) -> (r: Vec4<Number>)
        ensures
            r == Vec4([self.0[1], self.0[2], self.0[2], self.0[1]]),
            r@ == (Vec4Model { x: self@.y, y: self@.z, z: self@.z, w: self@.y }),
    {
        Vec4::new(self.0[1], self.0[2], self.0[2], self.0[1])
    }

    pub fn yzzz(&self) -> (r: Vec4<Number>)
        ensures
            r == Vec4([self.0[1], self.0[2], self.0[2], self.0[2]]),
            r@ == (Vec4Model { x: self@.y, y: self@.z, z: self@.z, w: self@.z }),
    {
        Vec4::new(self.0[1], self.0[2], self.0[2], self.0[2])
    }

    pub fn zx(&self) -> (r: Vec2<Number>)
        ensures
            r == Vec2([self.0[2], self.0[0]]),
            r@ == (Vec2Model { x: self@.z, y: self@.x }),
    {
        Vec2::new(self.0[2], self.0[0])
    }

    pub fn zxx(&self) -> (r: Vec3<Number>)
        ensures
            r == Vec3([self.0[2], self.0[0], self.0[0]]),
            r@ == (Vec3Model { x: self@.z, y: self@.x, z: self@.x }),
    {
        Vec3::new(self.0[2], self.0[0], self.0[0])
    }

    pub fn zxxx(&self) -> (r: Vec4<Number>)
        ensures
            r == Vec4([self.0[2], self.0[0], self.0[0], self.0[0]]),
            r@ == (Vec4Model { x: self@.z, y: self@.x, z: self@.x, w: self@.x }),
    {
        Vec4::new(self.0[2], self.0[0], self.0[0], self.0[0])
    }

    pub fn zxxy(&self) -> (r: Vec4<Number>)
        ensures
            r == Vec4([self.0[2], self.0[0], self.0[0], self.0[1]]),
            r@ == (Vec4Model { x: self@.z, y: self@.x, z: self@.x, w: self@.y }),
    {
        Vec4::new(self.0[2], self.0[0], self.0[0], self.0[1])
    }

    pub fn zxxz(&self) -> (r: Vec4<Number>)
        ensures
            r == Vec4([self.0[2], self.0[0], self.0[0], self.0[2]]),
            r@ == (Vec4Model { x: self@.z, y: self@.x, z: self@.x, w: self@.z }),
    {
        Vec4::new(self.0[2], self.0[0], self.0[0], self.0[2])
    }

    pub fn zxy(&self) -> (r: Vec3<Number>)
        ensures
            r == Vec3([self.0[2], self.0[0], self.0[1]]),
            r@ == (Vec3Model { x: self@.z, y: self@.x, z: self@.y }),
    {
        Vec3::new(self.0[2], self.0[0], self.0[1])
    }

    pub fn zxyx(&self) -> (r: Vec4<Number>)
        ensures
            r == Vec4([self.0[2], self.0[0], self.0[1], self.0[0]]),
            r@ == (Vec4Model { x: self@.z, y: self@.x, z: self@.y, w: self@.x }),
    {
        Vec4::new(self.0[2], self.0[0], self.0[1], self.0[0])
    }

    pub fn zxyy(&self) -> (r: Vec4<Number>)
        ensures
            r == Vec4([self.0[2], self.0[0], self.0[1], self.0[1]]),
            r@ == (Vec4Model { x: self@.z, y: self@.x, z: self@.y, w: self@.y }),
    {
        Vec4::new(self.0[2], self.0[0], self.0[1], self.0[1])
    }

    pub fn zxyz(&self) -> (r: Vec4<Number>)
        ensures
            r == Vec4([self.0[2], self.0[0], self.0[1], self.0[2]]),
            r@ == (Vec4Model { x: self@.z, y: self@.x, z: self@.y, w: self@.z }),
    {
        Vec4::new(self.0[2], self.0[0], self.0[1], self.0[2])
    }

    pub fn zxz(&self) -> (r: Vec3<Number>)
        ensures
            r == Vec3([self.0[2], self.0[0], self.0[2]]),
            r@ == (Vec3Model { x: self@.z, y: self@.x, z: self@.z }),
    {
        Vec3::new(self.0[2], self.0[0], self.0[2])
    }

    pub fn zxzx(&self) -> (r: Vec4<Number>)
        ensures
            r == Vec4([self.0[2], self.0[0], self.0[2], self.0[0]]),
            r@ == (Vec4Model { x: self@.z, y: self@.x, z: self@.z, w: self@.x }),
    {
        Vec4::new(self.0[2], self.0[0], self.0[2], self.0[0])
    }

    pub fn zxzy(&self) -> (r: Vec4<Number>)
        ensures
            r == Vec4([self.0[2], self.0[0], self.0[2], self.0[1]]),
            r@ == (Vec4Model { x: self@.z, y: self@.x, z: self@.z, w: self@.y }),
    {
        Vec4::new(self.0[2], self.0[0], self.0[2], self.0[1])
    }

    pub fn zxzz(&self) -> (r: Vec4<Number>)
        ensures
            r == Vec4([self.0[2], self.0[0], self.0[2], self.0[2]]),
            r@ == (Vec4Model { x: self@.z, y: self@.x, z: self@.z, w: self@.z }),
    {
        Vec4::new(self.0[2], self.0[0], self.0[2], self.0[2])
    }

    pub fn zy(&self) -> (r: Vec2<Number>)
        ensures
            r == Vec2([self.0[2], self.0[1]]),
            r@ == (Vec2Model { x: self@.z, y: self@.y }),
    {
        Vec2::new(self.0[2], self.0[1])
    }

    pub fn zyx(&self) -> (r: Vec3<Number>)
        ensures
            r == Vec3([self.0[2], self.0[1], self.0[0]]),
            r@ == (Vec3Model { x: self@.z, y: self@.y, z: self@.x }),
    {
        Vec3::new(self.0[2], self.0[1], self.0[0])
    }

    pub fn zyxx(&self) -> (r: Vec4<Number>)
        ensures
            r == Vec4([self.0[2], self.0[1], self.0[0], self.0[0]]),
            r@ == (Vec4Model { x: self@.z, y: self@.y, z: self@.x, w: self@.x }),
    {
        Vec4::new(self.0[2], self.0[1], self.0[0], self.0[0])
    }

    pub fn zyxy(&self) -> (r: Vec4<Number>)
        ensures
            r == Vec4([self.0[2], self.0[1], self.0[0], self.0[1]]),
            r@ == (Vec4Model { x: self@.z, y: self@.y, z: self@.x, w: self@.y }),
    {
        Vec4::new(self.0[2], self.0[1], self.0[0], self.0[1])
    }

    pub fn zyxz(&self) -> (r: Vec4<Number>)
        ensures
            r == Vec4([self.0[2], self.0[1], self.0[0], self.0[2]]),
            r@ == (Vec4Model { x: self@.z, y: self@.y, z: self@.x, w: self@.z }),
    {
        Vec4::new(self.0[2], self.0[1], self.0[0], self.0[2])
    }

    pub fn zyy(&self) -> (r: Vec3<Number>)
        ensures
            r == Vec3([self.0[2], self.0[1], self.0[1]]),
            r@ == (Vec3Model { x: self@.z, y: self@.y, z: self@.y }),
    {
        Vec3::new(self.0[2], self.0[1], self.0[1])
    }

    pub fn zyyx(&self) -> (r: Vec4<Number>)
        ensures
            r == Vec4([self.0[2], self.0[1], self.0[1], self.0[0]]),
            r@ == (Vec4Model { x: self@.z, y: self@.y, z: self@.y, w: self@.x }),
    {
        Vec4::new(self.0[2], self.0[1], self.0[1], self.0[0])
    }

    pub fn zyyy(&self) -> (r: Vec4<Number>)
        ensures
            r == Vec4([self.0[2], self.0[1], self.0[1], self.0[1]]),
            r@ == (Vec4Model { x: self@.z, y: self@.y, z: self@.y, w: self@.y }),
    {
        Vec4::new(self.0[2], self.0[1], self.0[1], self.0[1])
    }

    pub fn zyyz(&self) -> (r: Vec4<Number>)
        ensures
            r == Vec4([self.0[2], self.0[1], self.0[1], self.0[2]]),
            r@ == (Vec4Model { x: self@.z, y: self@.y, z: self@.y, w: self@.z }),
    {
        Vec4::new(self.0[2], self.0[1], self.0[1], self.0[2])
    }

    pub fn zyz(&self) -> (r: Vec3<Number>)
        ensures
            r == Vec3([self.0[2], self.0[1], self.0[2]]),
            r@ == (Vec3Model { x: self@.z, y: self@.y, z: self@.z }),
    {
        Vec3::new(self.0[2], self.0[1], self.0[2])
    }

    pub fn zyzx(&self) -> (r: Vec4<Number>)
        ensures
            r == Vec4([self.0[2], self.0[1], self.0[2], self.0[0]]),
            r@ == (Vec4Model { x: self@.z, y: self@.y, z: self@.z, w: self@.x }),
    {
        Vec4::new(self.0[2], self.0[1], self.0[2], self.0[0])
    }

    pub fn zyzy(&self) -> (r: Vec4<Number>)
        ensures
            r == Vec4([self.0[2], self.0[1], self.0[2], self.0[1]]),
            r@ == (Vec4Model { x: self@.z, y: self@.y, z: self@.z, w: self@.y }),
    {
        Vec4::new(self.0[2], self.0[1], self.0[2], self.0[1])
    }

    pub fn zyzz(&self) -> (r: Vec4<Number>)
        ensures
            r == Vec4([self.0[2], self.0[1], self.0[2], self.0[2]]),
            r@ == (Vec4Model { x: self@.z, y: self@.y, z: self@.z, w: self@.z }),
    {
        Vec4::new(self.0[2], self.0[1], self.0[2], self.0[2])
    }

    pub fn zz(&self) -> (r: Vec2<Number>)
        ensures
            r == Vec2([self.0[2], self.0[2]]),
            r@ == (Vec2Model { x: self@.z, y: self@.z }),
    {
        Vec2::new(self.0[2], self.0[2])
    }

    pub fn zzx(&self) -> (r: Vec3<Number>)
        ensures
            r == Vec3([self.0[2], self.0[2], self.0[0]]),
            r@ == (Vec3Model { x: self@.z, y: self@.z, z: self@.x }),
    {
        Vec3::new(self.0[2], self.0[2], self.0[0])
    }

    pub fn zzxx(&self) -> (r: Vec4<Number>)
        ensures
            r == Vec4([self.0[2], self.0[2], self.0[0], self.0[0]]),
            r@ == (Vec4Model { x: self@.z, y: self@.z, z: self@.x, w: self@.x }),
    {
        Vec4::new(self.0[2], self.0[2], self.0[0], self.0[0])
    }

    pub fn zzxy(&self) -> (r: Vec4<Number>)
        ensures
            r == Vec4([self.0[2], self.0[2], self.0[0], self.0[1]]),
            r@ == (Vec4Model { x: self@.z, y: self@.z, z: self@.x, w: self@.y }),
    {
        Vec4::new(self.0[2], self.0[2], self.0[0], self.0[1])
    }

    pub fn zzxz(&self) -> (r: Vec4<Number>)
        ensures
            r == Vec4([self.0[2], self.0[2], self.0[0], self.0[2]]),
            r@ == (Vec4Model { x: self@.z, y: self@.z, z: self@.x, w: self@.z }),
    {
        Vec4::new(self.0[2], self.0[2], self.0[0], self.0[2])
    }

    pub fn zzy(&self) -> (r: Vec3<Number>)
        ensures
            r == Vec3([self.0[2], self.0[2], self.0[1]]),
            r@ == (Vec3Model { x: self@.z, y: self@.z, z: self@.y }),
    {
        Vec3::new(self.0[2], self.0[2], self.0[1])
    }

    pub fn zzyx(&self) -> (r: Vec4<Number>)
        ensures
            r == Vec4([self.0[2], self.0[2], self.0[1], self.0[0]]),
            r@ == (Vec4Model { x: self@.z, y: self@.z, z: self@.y, w: self@.x }),
    {
        Vec4::new(self.0[2], self.0[2], self.0[1], self.0[0])
    }

    pub fn zzyy(&self) -> (r: Vec4<Number>)
        ensures
            r == Vec4([self.0[2], self.0[2], self.0[1], self.0[1]]),
            r@ == (Vec4Model { x: self@.z, y: self@.z, z: self@.y, w: self@.y }),
    {
        Vec4::new(self.0[2], self.0[2], self.0[1], self.0[1])
    }

    pub fn zzyz(&self) -> (r: Vec4<Number>)
        ensures
            r == Vec4([self.0[2], self.0[2], self.0[1], self.0[2]]),
            r@ == (Vec4Model { x: self@.z, y: self@.z, z: self@.y, w: self@.z }),
    {
        Vec4::new(self.0[2], self.0[2], self.0[1], self.0[2])
    }

    pub fn zzz(&self) -> (r: Vec3<Number>)
        ensures
            r == Vec3([self.0[2], self.0[2], self.0[2]]),
            r@ == (Vec3Model { x: self@.z, y: self@.z, z: self@.z }),
    {
        Vec3::new(self.0[2], self.0[2], self.0[2])
    }

    pub fn zzzx(&self) -> (r: Vec4<Number>)
        ensures
            r == Vec4([self.0[2], self.0[2], self.0[2], self.0[0]]),
            r@ == (Vec4Model { x: self@.z, y: self@.z, z: self@.z, w: self@.x }),
    {
        Vec4::new(self.0[2], self.0[2], self.0[2], self.0[0])
    }

    pub fn zzzy(&self) -> (r: Vec4<Number>)
        ensures
            r == Vec4([self.0[2], self.0[2], self.0[2], self.0[1]]),
            r@ == (Vec4Model { x: self@.z, y: self@.z, z: self@.z, w: self@.y }),
    {
        Vec4::new(self.0[2], self.0[2], self.0[2], self.0[1])
    }

    pub fn zzzz(&self) -> (r: Vec4<Number>)
        ensures
            r == Vec4([self.0[2], self.0[2], self.0[2], self.0[2]]),
            r@ == (Vec4Model { x: self@.z, y: self@.z, z: self@.z, w: self@.z }),
    {
        Vec4::new(self.0[2], self.0[2], self.0[2], self.0[2])
    }
}

} // verus!
