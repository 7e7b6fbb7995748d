//! Every vector of two, three or four components that can be made of the components of a
//! [`Vec2`], each under the name that spells the components it takes.
use crate::types::vec2::Vec2Model;
use crate::types::vec3::Vec3Model;
use crate::types::vec4::Vec4Model;
use crate::types::Vec2;
use crate::types::Vec3;
use crate::types::Vec4;
use vstd::prelude::*;

verus! {

impl<Number: Copy> Vec2<Number> {
    pub fn xx(&self) -> (r: Vec2<Number>)
        ensures
            r == Vec2([self.0[0], self.0[0]]),
            r@ == (Vec2Model { x: self@.x, y: self@.x }),
    {
        Vec2::new(self.0[0], self.0[0])
    }

    pub fn xxx(&self) -> (r: Vec3<Number>)
        ensures
            r == Vec3([self.0[0], self.0[0], self.0[0]]),
            r@ == (Vec3Model { x: self@.x, y: self@.x, z: self@.x }),
    {
        Vec3::new(self.0[0], self.0[0], self.0[0])
    }

    pub fn xxxx(&self) -> (r: Vec4<Number>)
        ensures
            r == Vec4([self.0[0], self.0[0], self.0[0], self.0[0]]),
            r@ == (Vec4Model { x: self@.x, y: self@.x, z: self@.x, w: self@.x }),
    {
        Vec4::new(self.0[0], self.0[0], self.0[0], self.0[0])
    }

    pub fn xxxy(&self) -> (r: Vec4<Number>)
        ensures
            r == Vec4([self.0[0], self.0[0], self.0[0], self.0[1]]),
            r@ == (Vec4Model { x: self@.x, y: self@.x, z: self@.x, w: self@.y }),
    {
        Vec4::new(self.0[0], self.0[0], self.0[0], self.0[1])
    }

    pub fn xxy(&self) -> (r: Vec3<Number>)
        ensures
            r == Vec3([self.0[0], self.0[0], self.0[1]]),
            r@ == (Vec3Model { x: self@.x, y: self@.x, z: self@.y }),
    {
        Vec3::new(self.0[0], self.0[0], self.0[1])
    }

    pub fn xxyx(&self) -> (r: Vec4<Number>)
        ensures
            r == Vec4([self.0[0], self.0[0], self.0[1], self.0[0]]),
            r@ == (Vec4Model { x: self@.x, y: self@.x, z: self@.y, w: self@.x }),
    {
        Vec4::new(self.0[0], self.0[0], self.0[1], self.0[0])
    }

    pub fn xxyy(&self) -> (r: Vec4<Number>)
        ensures
            r == Vec4([self.0[0], self.0[0], self.0[1], self.0[1]]),
            r@ == (Vec4Model { x: self@.x, y: self@.x, z: self@.y, w: self@.y }),
    {
        Vec4::new(self.0[0], self.0[0], self.0[1], self.0[1])
    }

    pub fn xy(&self) -> (r: Vec2<Number>)
        ensures
            r == Vec2([self.0[0], self.0[1]]),
            r@ == (Vec2Model { x: self@.x, y: self@.y }),
    {
        Vec2::new(self.0[0], self.0[1])
    }

    pub fn xyx(&self) -> (r: Vec3<Number>)
        ensures
            r == Vec3([self.0[0], self.0[1], self.0[0]]),
            r@ == (Vec3Model { x: self@.x, y: self@.y, z: self@.x }),
    {
        Vec3::new(self.0[0], self.0[1], self.0[0])
    }

    pub fn xyxx(&self) -> (r: Vec4<Number>)
        ensures
            r == Vec4([self.0[0], self.0[1], self.0[0], self.0[0]]),
            r@ == (Vec4Model { x: self@.x, y: self@.y, z: self@.x, w: self@.x }),
    {
        Vec4::new(self.0[0], self.0[1], self.0[0], self.0[0])
    }

    pub fn xyxy(&self) -> (r: Vec4<Number>)
        ensures
            r == Vec4([self.0[0], self.0[1], self.0[0], self.0[1]]),
            r@ == (Vec4Model { x: self@.x, y: self@.y, z: self@.x, w: self@.y }),
    {
        Vec4::new(self.0[0], self.0[1], self.0[0], self.0[1])
    }

    pub fn xyy(&self) -> (r: Vec3<Number>)
        ensures
            r == Vec3([self.0[0], self.0[1], self.0[1]]),
            r@ == (Vec3Model { x: self@.x, y: self@.y, z: self@.y }),
    {
        Vec3::new(self.0[0], self.0[1], self.0[1])
    }

    pub fn xyyx(&self) -> (r: Vec4<Number>)
        ensures
            r == Vec4([self.0[0], self.0[1], self.0[1], self.0[0]]),
            r@ == (Vec4Model { x: self@.x, y: self@.y, z: self@.y, w: self@.x }),
    {
        Vec4::new(self.0[0], self.0[1], self.0[1], self.0[0])
    }

    pub fn xyyy(&self) -> (r: Vec4<Number>)
        ensures
            r == Vec4([self.0[0], self.0[1], self.0[1], self.0[1]]),
            r@ == (Vec4Model { x: self@.x, y: self@.y, z: self@.y, w: self@.y }),
    {
        Vec4::new(self.0[0], self.0[1], self.0[1], self.0[1])
    }

    pub fn yx(&self) -> (r: Vec2<Number>)
        ensures
            r == Vec2([self.0[1], self.0[0]]),
            r@ == (Vec2Model { x: self@.y, y: self@.x }),
    {
        Vec2::new(self.0[1], self.0[0])
    }

    pub fn yxx(&self) -> (r: Vec3<Number>)
        ensures
            r == Vec3([self.0[1], self.0[0], self.0[0]]),
            r@ == (Vec3Model { x: self@.y, y: self@.x, z: self@.x }),
    {
        Vec3::new(self.0[1], self.0[0], self.0[0])
    }

    pub fn yxxx(&self) -> (r: Vec4<Number>)
        ensures
            r == Vec4([self.0[1], self.0[0], self.0[0], self.0[0]]),
            r@ == (Vec4Model { x: self@.y, y: self@.x, z: self@.x, w: self@.x }),
    {
        Vec4::new(self.0[1], self.0[0], self.0[0], self.0[0])
    }

    pub fn yxxy(&self) -> (r: Vec4<Number>)
        ensures
            r == Vec4([self.0[1], self.0[0], self.0[0], self.0[1]]),
            r@ == (Vec4Model { x: self@.y, y: self@.x, z: self@.x, w: self@.y }),
    {
        Vec4::new(self.0[1], self.0[0], self.0[0], self.0[1])
    }

    pub fn yxy(&self) -> (r: Vec3<Number>)
        ensures
            r == Vec3([self.0[1], self.0[0], self.0[1]]),
            r@ == (Vec3Model { x: self@.y, y: self@.x, z: self@.y }),
    {
        Vec3::new(self.0[1], self.0[0], self.0[1])
    }

    pub fn yxyx(&self) -> (r: Vec4<Number>)
        ensures
            r == Vec4([self.0[1], self.0[0], self.0[1], self.0[0]]),
            r@ == (Vec4Model { x: self@.y, y: self@.x, z: self@.y, w: self@.x }),
    {
        Vec4::new(self.0[1], self.0[0], self.0[1], self.0[0])
    }

    pub fn yxyy(&self) -> (r: Vec4<Number>)
        ensures
            r == Vec4([self.0[1], self.0[0], self.0[1], self.0[1]]),
            r@ == (Vec4Model { x: self@.y, y: self@.x, z: self@.y, w: self@.y }),
    {
        Vec4::new(self.0[1], self.0[0], self.0[1], self.0[1])
    }

    pub fn yy(&self) -> (r: Vec2<Number>)
        ensures
            r == Vec2([self.0[1], self.0[1]]),
            r@ == (Vec2Model { x: self@.y, y: self@.y }),
    {
        Vec2::new(self.0[1], self.0[1])
    }

    pub fn yyx(&self) -> (r: Vec3<Number>)
        ensures
            r == Vec3([self.0[1], self.0[1], self.0[0]]),
            r@ == (Vec3Model { x: self@.y, y: self@.y, z: self@.x }),
    {
        Vec3::new(self.0[1], self.0[1], self.0[0])
    }

    pub fn yyxx(&self) -> (r: Vec4<Number>)
        ensures
            r == Vec4([self.0[1], self.0[1], self.0[0], self.0[0]]),
            r@ == (Vec4Model { x: self@.y, y: self@.y, z: self@.x, w: self@.x }),
    {
        Vec4::new(self.0[1], self.0[1], self.0[0], self.0[0])
    }

    pub fn yyxy(&self) -> (r: Vec4<Number>)
        ensures
            r == Vec4([self.0[1], self.0[1], self.0[0], self.0[1]]),
            r@ == (Vec4Model { x: self@.y, y: self@.y, z: self@.x, w: self@.y }),
    {
        Vec4::new(self.0[1], self.0[1], self.0[0], self.0[1])
    }

    pub fn yyy(&self) -> (r: Vec3<Number>)
        ensures
            r == Vec3([self.0[1], self.0[1], self.0[1]]),
            r@ == (Vec3Model { x: self@.y, y: self@.y, z: self@.y }),
    {
        Vec3::new(self.0[1], self.0[1], self.0[1])
    }

    pub fn yyyx(&self) -> (r: Vec4<Number>)
        ensures
            r == Vec4([self.0[1], self.0[1], self.0[1], self.0[0]]),
            r@ == (Vec4Model { x: self@.y, y: self@.y, z: self@.y, w: self@.x }),
    {
        Vec4::new(self.0[1], self.0[1], self.0[1], self.0[0])
    }

    pub fn yyyy(&self) -> (r: Vec4<Number>)
        ensures
            r == Vec4([self.0[1], self.0[1], self.0[1], self.0[1]]),
            r@ == (Vec4Model { x: self@.y, y: self@.y, z: self@.y, w: self@.y }),
    {
        Vec4::new(self.0[1], self.0[1], self.0[1], self.0[1])
    }
}

} // verus!
