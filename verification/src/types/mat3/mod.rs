//! Square matrices of three rows, stored column after column.
use crate::angle::Radians;
use crate::traits::float::Float;
use crate::traits::obeys_arith;
use crate::traits::obeys_neg;
use crate::traits::order::obeys_order;
use crate::traits::Division;
use crate::traits::Identity;
use crate::traits::Negation;
use crate::traits::Numeric;
use crate::traits::Ring;
use crate::traits::Term;
use crate::traits::Zero;
use crate::types::quat::QuatModel;
use crate::types::vec3::Vec3Model;
use crate::types::Quat;
use crate::types::Vec2;
use crate::types::Vec3;
use core::ops::Neg;
use vstd::prelude::*;

pub mod consts;
pub mod ops;

verus! {

/// A matrix of three rows and three columns. The array holds it column after column:
/// the entry of row `r` and column `c` is at `c * 3 + r`.
#[derive(Copy, Clone, Debug, PartialEq, PartialOrd)]
pub struct Mat3<Value>(pub [Value; 9]);

/// The entries of a [`Mat3`] by row and column: `r1c2` is that of row 1 and column 2.
pub struct Mat3Model<E> {
    pub r0c0: E,
    pub r0c1: E,
    pub r0c2: E,
    pub r1c0: E,
    pub r1c1: E,
    pub r1c2: E,
    pub r2c0: E,
    pub r2c1: E,
    pub r2c2: E,
}

impl<Value> View for Mat3<Value> {
    type V = Mat3Model<Value>;

    open spec fn view(&self) -> Mat3Model<Value> {
        Mat3Model {
            r0c0: self.0[0],
            r0c1: self.0[3],
            r0c2: self.0[6],
            r1c0: self.0[1],
            r1c1: self.0[4],
            r1c2: self.0[7],
            r2c0: self.0[2],
            r2c1: self.0[5],
            r2c2: self.0[8],
        }
    }
}

impl<Value> Mat3<Value> {
    /// The entries as the terms of a formula.
    pub open spec fn terms(self) -> Mat3Model<Term<Value>> {
        self@.terms()
    }
}

impl<E> Mat3Model<E> {
    /// The matrix of these entries.
    pub open spec fn matrix(self) -> Mat3<E> {
        Mat3(
            [
                self.r0c0, self.r1c0, self.r2c0,
                self.r0c1, self.r1c1, self.r2c1,
                self.r0c2, self.r1c2, self.r2c2,
            ],
        )
    }

    /// The matrix whose rows are the given tuples.
    pub open spec fn of_rows(r0: (E, E, E), r1: (E, E, E), r2: (E, E, E)) -> Self {
        Mat3Model {
            r0c0: r0.0,
            r0c1: r0.1,
            r0c2: r0.2,
            r1c0: r1.0,
            r1c1: r1.1,
            r1c2: r1.2,
            r2c0: r2.0,
            r2c1: r2.1,
            r2c2: r2.2,
        }
    }

    /// The matrix whose columns are the given tuples.
    pub open spec fn of_columns(c0: (E, E, E), c1: (E, E, E), c2: (E, E, E)) -> Self {
        Mat3Model {
            r0c0: c0.0,
            r0c1: c1.0,
            r0c2: c2.0,
            r1c0: c0.1,
            r1c1: c1.1,
            r1c2: c2.1,
            r2c0: c0.2,
            r2c1: c1.2,
            r2c2: c2.2,
        }
    }

    /// Each entry as a term of a formula.
    pub open spec fn terms(self) -> Mat3Model<Term<E>> {
        Mat3Model {
            r0c0: Term::of(self.r0c0),
            r0c1: Term::of(self.r0c1),
            r0c2: Term::of(self.r0c2),
            r1c0: Term::of(self.r1c0),
            r1c1: Term::of(self.r1c1),
            r1c2: Term::of(self.r1c2),
            r2c0: Term::of(self.r2c0),
            r2c1: Term::of(self.r2c1),
            r2c2: Term::of(self.r2c2),
        }
    }

    /// Rows and columns exchanged.
    pub open spec fn transposed(self) -> Self {
        Mat3Model {
            r0c0: self.r0c0,
            r0c1: self.r1c0,
            r0c2: self.r2c0,
            r1c0: self.r0c1,
            r1c1: self.r1c1,
            r1c2: self.r2c1,
            r2c0: self.r0c2,
            r2c1: self.r1c2,
            r2c2: self.r2c2,
        }
    }
}

impl<V> Mat3Model<Term<V>> {
    /// Every entry is defined.
    pub open spec fn defined(self) -> bool {
        self.r0c0.defined && self.r0c1.defined && self.r0c2.defined && self.r1c0.defined && self.r1c1.defined && self.r1c2.defined && self.r2c0.defined && self.r2c1.defined && self.r2c2.defined
    }

    /// The entries' values.
    pub open spec fn values(self) -> Mat3Model<V> {
        Mat3Model {
            r0c0: self.r0c0.value,
            r0c1: self.r0c1.value,
            r0c2: self.r0c2.value,
            r1c0: self.r1c0.value,
            r1c1: self.r1c1.value,
            r1c2: self.r1c2.value,
            r2c0: self.r2c0.value,
            r2c1: self.r2c1.value,
            r2c2: self.r2c2.value,
        }
    }

    /// The matrix of the entries' values.
    pub open spec fn value(self) -> Mat3<V> {
        Mat3(
            [
                self.r0c0.value, self.r1c0.value, self.r2c0.value,
                self.r0c1.value, self.r1c1.value, self.r2c1.value,
                self.r0c2.value, self.r1c2.value, self.r2c2.value,
            ],
        )
    }
}

impl<E: Division> Mat3Model<E> {
    /// Every entry divided by `k`.
    pub open spec fn over_each(self, k: E) -> Self {
        Mat3Model {
            r0c0: self.r0c0.over(k),
            r0c1: self.r0c1.over(k),
            r0c2: self.r0c2.over(k),
            r1c0: self.r1c0.over(k),
            r1c1: self.r1c1.over(k),
            r1c2: self.r1c2.over(k),
            r2c0: self.r2c0.over(k),
            r2c1: self.r2c1.over(k),
            r2c2: self.r2c2.over(k),
        }
    }
}

impl<E: Ring> Mat3Model<E> {
    /// One on the diagonal, zero elsewhere.
    pub open spec fn identity() -> Self {
        Mat3Model {
            r0c0: E::one(),
            r0c1: E::zero(),
            r0c2: E::zero(),
            r1c0: E::zero(),
            r1c1: E::one(),
            r1c2: E::zero(),
            r2c0: E::zero(),
            r2c1: E::zero(),
            r2c2: E::one(),
        }
    }

    /// `self + other`, entry by entry.
    pub open spec fn plus(self, other: Self) -> Self {
        Mat3Model {
            r0c0: self.r0c0.plus(other.r0c0),
            r0c1: self.r0c1.plus(other.r0c1),
            r0c2: self.r0c2.plus(other.r0c2),
            r1c0: self.r1c0.plus(other.r1c0),
            r1c1: self.r1c1.plus(other.r1c1),
            r1c2: self.r1c2.plus(other.r1c2),
            r2c0: self.r2c0.plus(other.r2c0),
            r2c1: self.r2c1.plus(other.r2c1),
            r2c2: self.r2c2.plus(other.r2c2),
        }
    }

    /// `self - other`, entry by entry.
    pub open spec fn minus(self, other: Self) -> Self {
        Mat3Model {
            r0c0: self.r0c0.minus(other.r0c0),
            r0c1: self.r0c1.minus(other.r0c1),
            r0c2: self.r0c2.minus(other.r0c2),
            r1c0: self.r1c0.minus(other.r1c0),
            r1c1: self.r1c1.minus(other.r1c1),
            r1c2: self.r1c2.minus(other.r1c2),
            r2c0: self.r2c0.minus(other.r2c0),
            r2c1: self.r2c1.minus(other.r2c1),
            r2c2: self.r2c2.minus(other.r2c2),
        }
    }

    /// The matrix product `self · other`: the entry of row `r` and column `c` is the sum over
    /// `k` of `self[r][k] · other[k][c]`, added up from `k = 0`.
    pub open spec fn times(self, other: Self) -> Self {
        Mat3Model {
            r0c0: self.r0c0.times(other.r0c0).plus(self.r0c1.times(other.r1c0)).plus(self.r0c2.times(other.r2c0)),
            r0c1: self.r0c0.times(other.r0c1).plus(self.r0c1.times(other.r1c1)).plus(self.r0c2.times(other.r2c1)),
            r0c2: self.r0c0.times(other.r0c2).plus(self.r0c1.times(other.r1c2)).plus(self.r0c2.times(other.r2c2)),
            r1c0: self.r1c0.times(other.r0c0).plus(self.r1c1.times(other.r1c0)).plus(self.r1c2.times(other.r2c0)),
            r1c1: self.r1c0.times(other.r0c1).plus(self.r1c1.times(other.r1c1)).plus(self.r1c2.times(other.r2c1)),
            r1c2: self.r1c0.times(other.r0c2).plus(self.r1c1.times(other.r1c2)).plus(self.r1c2.times(other.r2c2)),
            r2c0: self.r2c0.times(other.r0c0).plus(self.r2c1.times(other.r1c0)).plus(self.r2c2.times(other.r2c0)),
            r2c1: self.r2c0.times(other.r0c1).plus(self.r2c1.times(other.r1c1)).plus(self.r2c2.times(other.r2c1)),
            r2c2: self.r2c0.times(other.r0c2).plus(self.r2c1.times(other.r1c2)).plus(self.r2c2.times(other.r2c2)),
        }
    }

    /// The product `self · v` of the matrix with a column vector: the component of row `r` is
    /// the sum over `c` of `self[r][c] · v[c]`, added up from `c = 0`.
    pub open spec fn apply(self, v: Vec3Model<E>) -> Vec3Model<E> {
        Vec3Model {
            x: self.r0c0.times(v.x).plus(self.r0c1.times(v.y)).plus(self.r0c2.times(v.z)),
            y: self.r1c0.times(v.x).plus(self.r1c1.times(v.y)).plus(self.r1c2.times(v.z)),
            z: self.r2c0.times(v.x).plus(self.r2c1.times(v.y)).plus(self.r2c2.times(v.z)),
        }
    }

    /// Every entry multiplied by `k`.
    pub open spec fn times_each(self, k: E) -> Self {
        Mat3Model {
            r0c0: self.r0c0.times(k),
            r0c1: self.r0c1.times(k),
            r0c2: self.r0c2.times(k),
            r1c0: self.r1c0.times(k),
            r1c1: self.r1c1.times(k),
            r1c2: self.r1c2.times(k),
            r2c0: self.r2c0.times(k),
            r2c1: self.r2c1.times(k),
            r2c2: self.r2c2.times(k),
        }
    }

    /// The rotation that the quaternion `q` stands for, from the products of its parts.
    pub open spec fn from_quat(q: QuatModel<E>) -> Self {
        let x = q.v.x;
        let y = q.v.y;
        let z = q.v.z;
        let s = q.s;
        let xx = x.times(x);
        let xy = x.times(y);
        let xz = x.times(z);
        let xs = x.times(s);
        let yy = y.times(y);
        let yz = y.times(z);
        let ys = y.times(s);
        let zz = z.times(z);
        let zs = z.times(s);
        let two = E::one().plus(E::one());
        Mat3Model {
            r0c0: E::one().minus(yy.plus(zz).times(two)),
            r0c1: xy.minus(zs).times(two),
            r0c2: xz.plus(ys).times(two),
            r1c0: xy.plus(zs).times(two),
            r1c1: E::one().minus(xx.plus(zz).times(two)),
            r1c2: yz.minus(xs).times(two),
            r2c0: xz.minus(ys).times(two),
            r2c1: yz.plus(xs).times(two),
            r2c2: E::one().minus(xx.plus(yy).times(two)),
        }
    }

    /// The rotation about the axis `unit`, of unit length, by the angle of which `s` and `c`
    /// are the sine and the cosine, by the formula of Rodrigues.
    pub open spec fn rodrigues(unit: Vec3Model<E>, s: E, c: E) -> Self {
        let x = unit.x;
        let y = unit.y;
        let z = unit.z;
        let t = E::one().minus(c);
        let r0c0 = c.plus(x.times(x).times(t));
        let r1c1 = c.plus(y.times(y).times(t));
        let r2c2 = c.plus(z.times(z).times(t));
        let x_y_t = x.times(y).times(t);
        let z_s = z.times(s);
        let r1c0 = x_y_t.plus(z_s);
        let r0c1 = x_y_t.minus(z_s);
        let x_z_t = x.times(z).times(t);
        let y_s = y.times(s);
        let r2c0 = x_z_t.minus(y_s);
        let r0c2 = x_z_t.plus(y_s);
        let y_z_t = y.times(z).times(t);
        let x_s = x.times(s);
        let r2c1 = y_z_t.plus(x_s);
        let r1c2 = y_z_t.minus(x_s);
        Mat3Model {
            r0c0: r0c0,
            r0c1: r0c1,
            r0c2: r0c2,
            r1c0: r1c0,
            r1c1: r1c1,
            r1c2: r1c2,
            r2c0: r2c0,
            r2c1: r2c1,
            r2c2: r2c2,
        }
    }

    /// The rotation about the z axis by the angle of which `s` and `c` are the sine and
    /// the cosine, applied after `self`: the product of that rotation with `self`, of which
    /// only the rows 0 and 1 change.
    pub open spec fn turned_2d(self, s: E, c: E) -> Self {
        Mat3Model {
            r0c0: c.times(self.r0c0).minus(s.times(self.r1c0)),
            r0c1: c.times(self.r0c1).minus(s.times(self.r1c1)),
            r0c2: c.times(self.r0c2).minus(s.times(self.r1c2)),
            r1c0: s.times(self.r0c0).plus(c.times(self.r1c0)),
            r1c1: s.times(self.r0c1).plus(c.times(self.r1c1)),
            r1c2: s.times(self.r0c2).plus(c.times(self.r1c2)),
            r2c0: self.r2c0,
            r2c1: self.r2c1,
            r2c2: self.r2c2,
        }
    }
}

impl<E: Ring + Negation> Mat3Model<E> {
    /// The rotation about the x axis, right-handed, by the angle of which `s` and `c` are
    /// the sine and the cosine: the identity with `[[c, -s], [s, c]]` in the block of the other two axes.
    pub open spec fn rotation_x(s: E, c: E) -> Self {
        Mat3Model {
            r0c0: E::one(),
            r0c1: E::zero(),
            r0c2: E::zero(),
            r1c0: E::zero(),
            r1c1: c,
            r1c2: s.negated(),
            r2c0: E::zero(),
            r2c1: s,
            r2c2: c,
        }
    }

    /// The rotation about the y axis, right-handed, by the angle of which `s` and `c` are
    /// the sine and the cosine: the identity with `[[c, s], [-s, c]]` in the block of the other two axes.
    pub open spec fn rotation_y(s: E, c: E) -> Self {
        Mat3Model {
            r0c0: c,
            r0c1: E::zero(),
            r0c2: s,
            r1c0: E::zero(),
            r1c1: E::one(),
            r1c2: E::zero(),
            r2c0: s.negated(),
            r2c1: E::zero(),
            r2c2: c,
        }
    }

    /// The rotation about the z axis, right-handed, by the angle of which `s` and `c` are
    /// the sine and the cosine: the identity with `[[c, -s], [s, c]]` in the block of the other two axes.
    pub open spec fn rotation_z(s: E, c: E) -> Self {
        Mat3Model {
            r0c0: c,
            r0c1: s.negated(),
            r0c2: E::zero(),
            r1c0: s,
            r1c1: c,
            r1c2: E::zero(),
            r2c0: E::zero(),
            r2c1: E::zero(),
            r2c2: E::one(),
        }
    }

    /// The determinant, expanded along the first row.
    pub open spec fn determinant(self) -> E {
        self.r0c0.times(self.r1c1.times(self.r2c2).minus(self.r2c1.times(self.r1c2))).minus(self.r0c1.times(self.r1c0.times(self.r2c2).minus(self.r1c2.times(self.r2c0)))).plus(self.r0c2.times(self.r1c0.times(self.r2c1).minus(self.r1c1.times(self.r2c0))))
    }

    /// The adjugate: the transposed matrix of cofactors, each a minor of two rows.
    pub open spec fn adjugate(self) -> Self {
        Mat3Model {
            r0c0: self.r1c1.times(self.r2c2).minus(self.r2c1.times(self.r1c2)),
            r0c1: self.r0c2.times(self.r2c1).minus(self.r0c1.times(self.r2c2)),
            r0c2: self.r0c1.times(self.r1c2).minus(self.r0c2.times(self.r1c1)),
            r1c0: self.r1c2.times(self.r2c0).minus(self.r1c0.times(self.r2c2)),
            r1c1: self.r0c0.times(self.r2c2).minus(self.r0c2.times(self.r2c0)),
            r1c2: self.r1c0.times(self.r0c2).minus(self.r0c0.times(self.r1c2)),
            r2c0: self.r1c0.times(self.r2c1).minus(self.r2c0.times(self.r1c1)),
            r2c1: self.r2c0.times(self.r0c1).minus(self.r0c0.times(self.r2c1)),
            r2c2: self.r0c0.times(self.r1c1).minus(self.r1c0.times(self.r0c1)),
        }
    }
}

impl<E: Ring + Negation + Division> Mat3Model<E> {
    /// The adjugate times `1 / determinant`.
    pub open spec fn inverse(self) -> Self {
        self.adjugate().times_each(E::one().over(self.determinant()))
    }
}

impl<V: Float> Mat3Model<Term<V>> {
    /// The rotation by `angle` about the x axis.
    pub open spec fn from_rotation_x(angle: Term<V>) -> Self {
        Self::rotation_x(angle.sin(), angle.cos())
    }

    /// The rotation by `angle` about the y axis.
    pub open spec fn from_rotation_y(angle: Term<V>) -> Self {
        Self::rotation_y(angle.sin(), angle.cos())
    }

    /// The rotation by `angle` about the z axis.
    pub open spec fn from_rotation_z(angle: Term<V>) -> Self {
        Self::rotation_z(angle.sin(), angle.cos())
    }

    /// The rotation by `angle` about the z axis applied after `self`.
    pub open spec fn rotated_2d(self, angle: Term<V>) -> Self {
        self.turned_2d(angle.sin(), angle.cos())
    }

    /// The rotation by `angle` about `axis`, which is normalized first.
    pub open spec fn from_axis_angle(axis: Vec3Model<Term<V>>, angle: Term<V>) -> Self {
        Self::rodrigues(axis.normalized(), angle.sin(), angle.cos())
    }
}

impl<Value> Mat3<Value> {
    /// What [`from_columns`](Self::from_columns) returns, for use in specifications.
    pub open spec fn spec_from_columns(c0: (Value, Value, Value), c1: (Value, Value, Value), c2: (Value, Value, Value)) -> Self {
        Mat3(
            [
                c0.0, c0.1, c0.2,
                c1.0, c1.1, c1.2,
                c2.0, c2.1, c2.2,
            ],
        )
    }

    /// What [`from_rows`](Self::from_rows) returns, for use in specifications.
    pub open spec fn spec_from_rows(r0: (Value, Value, Value), r1: (Value, Value, Value), r2: (Value, Value, Value)) -> Self {
        Mat3(
            [
                r0.0, r1.0, r2.0,
                r0.1, r1.1, r2.1,
                r0.2, r1.2, r2.2,
            ],
        )
    }

    /// What [`from_array`](Self::from_array) returns, for use in specifications.
    pub open spec fn spec_from_array(data: [Value; 9]) -> Self {
        Mat3(data)
    }

    /// The matrix whose columns are the given tuples.
    #[must_use]
    #[verifier::when_used_as_spec(spec_from_columns)]
    pub fn from_columns(c0: (Value, Value, Value), c1: (Value, Value, Value), c2: (Value, Value, Value)) -> (r: Self)
        ensures
            r == Self::spec_from_columns(c0, c1, c2),
            r == Mat3(
                [
                    c0.0, c0.1, c0.2,
                    c1.0, c1.1, c1.2,
                    c2.0, c2.1, c2.2,
                ],
            ),
            r@ == Mat3Model::of_columns(c0, c1, c2),
    {
        Mat3(
            [
                c0.0, c0.1, c0.2,
                c1.0, c1.1, c1.2,
                c2.0, c2.1, c2.2,
            ],
        )
    }

    /// The matrix whose rows are the given tuples.
    #[must_use]
    #[verifier::when_used_as_spec(spec_from_rows)]
    pub fn from_rows(r0: (Value, Value, Value), r1: (Value, Value, Value), r2: (Value, Value, Value)) -> (r: Self)
        ensures
            r == Self::spec_from_rows(r0, r1, r2),
            r == Mat3(
                [
                    r0.0, r1.0, r2.0,
                    r0.1, r1.1, r2.1,
                    r0.2, r1.2, r2.2,
                ],
            ),
            r@ == Mat3Model::of_rows(r0, r1, r2),
    {
        Mat3(
            [
                r0.0, r1.0, r2.0,
                r0.1, r1.1, r2.1,
                r0.2, r1.2, r2.2,
            ],
        )
    }

    /// The matrix of the given array, which is taken to hold it column after column.
    #[must_use]
    #[verifier::when_used_as_spec(spec_from_array)]
    pub fn from_array(data: [Value; 9]) -> (r: Self)
        ensures
            r == Self::spec_from_array(data),
            r.0 == data,
    {
        Mat3(data)
    }

    /// The array of the matrix, column after column.
    pub fn as_slice(&self) -> (r: &[Value; 9])
        ensures
            *r == self.0,
    {
        &self.0
    }

    /// The entries, column after column.
    pub fn iter(&self) -> (r: core::slice::Iter<'_, Value>)
        ensures
            vstd::std_specs::slice::into_iter_elts(r) == self.0@,
    {
        self.0.iter()
    }

    /// `f` applied to each entry.
    pub fn map<F>(self, f: F) -> (r: Self) where F: Fn(&Value) -> Value
        requires
            forall|i: int| 0 <= i < 9 ==> call_requires(f, (&#[trigger] self.0[i],)),
        ensures
            forall|i: int| 0 <= i < 9 ==> call_ensures(f, (&self.0[i],), #[trigger] r.0[i]),
    {
        Mat3(
            [
                f(&self.0[0]),
                f(&self.0[1]),
                f(&self.0[2]),
                f(&self.0[3]),
                f(&self.0[4]),
                f(&self.0[5]),
                f(&self.0[6]),
                f(&self.0[7]),
                f(&self.0[8]),
            ],
        )
    }
}

impl<Value: Copy> Mat3<Value> {
    /// The matrix with rows and columns exchanged.
    pub fn transposed(self) -> (r: Self)
        ensures
            r@ == self@.transposed(),
            r == self@.transposed().matrix(),
    {
        Mat3(
            [
                self.0[consts::R0C0], self.0[consts::R0C1], self.0[consts::R0C2],
                self.0[consts::R1C0], self.0[consts::R1C1], self.0[consts::R1C2],
                self.0[consts::R2C0], self.0[consts::R2C1], self.0[consts::R2C2],
            ],
        )
    }
}

impl<Value> vstd::std_specs::core::IndexSpecImpl<usize> for Mat3<Value> {
    open spec fn index_req(&self, i: &usize) -> bool {
        *i < 9
    }
}

impl<Value> core::ops::Index<usize> for Mat3<Value> {
    type Output = Value;

    fn index(&self, i: usize) -> (r: &Value)
        ensures
            *r == self.0[i as int],
    {
        &self.0[i]
    }
}

impl<Value> core::ops::IndexMut<usize> for Mat3<Value> {
    fn index_mut(&mut self, i: usize) -> (r: &mut Value)
        requires
            i < 9,
        ensures
            *r == old(self).0[i as int],
            final(self).0@ == old(self).0@.update(i as int, *final(r)),
    {
        &mut self.0[i]
    }
}

impl<Value: Clone> Mat3<Value> {
    /// Overwrites the matrix with clones of `data`, column after column.
    pub fn fill(&mut self, data: &[Value; 9])
        ensures
            forall|i: int| 0 <= i < 9 ==> cloned(data[i], #[trigger] final(self).0[i]),
    {
        *self = Mat3(
            [
                data[0].clone(),
                data[1].clone(),
                data[2].clone(),
                data[3].clone(),
                data[4].clone(),
                data[5].clone(),
                data[6].clone(),
                data[7].clone(),
                data[8].clone(),
            ],
        );
    }
}

impl<Value: Identity + Zero> Identity for Mat3<Value> {
    open spec fn identity_spec() -> Self {
        Mat3(
            [
                Value::identity_spec(), Value::zero_spec(), Value::zero_spec(),
                Value::zero_spec(), Value::identity_spec(), Value::zero_spec(),
                Value::zero_spec(), Value::zero_spec(), Value::identity_spec(),
            ],
        )
    }

    fn identity() -> (r: Self) {
        Mat3(
            [
                Value::identity(), Value::zero(), Value::zero(),
                Value::zero(), Value::identity(), Value::zero(),
                Value::zero(), Value::zero(), Value::identity(),
            ],
        )
    }
}

impl<Value: Zero> Zero for Mat3<Value> {
    open spec fn zero_spec() -> Self {
        Mat3(
            [
                Value::zero_spec(), Value::zero_spec(), Value::zero_spec(),
                Value::zero_spec(), Value::zero_spec(), Value::zero_spec(),
                Value::zero_spec(), Value::zero_spec(), Value::zero_spec(),
            ],
        )
    }

    fn zero() -> (r: Self) {
        Mat3(
            [
                Value::zero(), Value::zero(), Value::zero(),
                Value::zero(), Value::zero(), Value::zero(),
                Value::zero(), Value::zero(), Value::zero(),
            ],
        )
    }
}

impl<Value: Identity + Zero> Default for Mat3<Value> {
    fn default() -> (r: Self)
        ensures
            r == Self::identity_spec(),
    {
        Self::identity()
    }
}

impl<Value: Identity + Zero> Mat3<Value> {
    /// The matrix of the given first two rows, the last row that of the identity.
    #[must_use]
    pub fn from_affine_2d(r0: (Value, Value, Value), r1: (Value, Value, Value)) -> (r: Self)
        ensures
            r == Mat3(
                [
                    r0.0, r1.0, Value::zero_spec(),
                    r0.1, r1.1, Value::zero_spec(),
                    r0.2, r1.2, Value::identity_spec(),
                ],
            ),
            r@ == (Mat3Model {
                r0c0: r0.0,
                r0c1: r0.1,
                r0c2: r0.2,
                r1c0: r1.0,
                r1c1: r1.1,
                r1c2: r1.2,
                r2c0: Value::zero_spec(),
                r2c1: Value::zero_spec(),
                r2c2: Value::identity_spec(),
            }),
    {
        Mat3(
            [
                r0.0, r1.0, Value::zero(),
                r0.1, r1.1, Value::zero(),
                r0.2, r1.2, Value::identity(),
            ],
        )
    }
}

impl<Value: Numeric> Mat3<Value> {
    /// The identity with the translation `v` in the last column.
    pub fn from_translation_2d(v: Vec2<Value>) -> (r: Mat3<Value>)
        ensures
            r == Mat3(
                [
                    Value::identity_spec(), Value::zero_spec(), Value::zero_spec(),
                    Value::zero_spec(), Value::identity_spec(), Value::zero_spec(),
                    v.0[0], v.0[1], Value::identity_spec(),
                ],
            ),
            r@ == (Mat3Model {
                r0c0: Value::identity_spec(),
                r0c1: Value::zero_spec(),
                r0c2: v@.x,
                r1c0: Value::zero_spec(),
                r1c1: Value::identity_spec(),
                r1c2: v@.y,
                r2c0: Value::zero_spec(),
                r2c1: Value::zero_spec(),
                r2c2: Value::identity_spec(),
            }),
    {
        let mut res = Self::identity();
        res.0[consts::TX] = v.x();
        res.0[consts::TY] = v.y();
        assert(res.0 =~= Mat3(
            [
                Value::identity_spec(), Value::zero_spec(), Value::zero_spec(),
                Value::zero_spec(), Value::identity_spec(), Value::zero_spec(),
                v.0[0], v.0[1], Value::identity_spec(),
            ],
        ).0);
        res
    }

    /// The identity with the scale `v` in the first two places of the diagonal.
    pub fn from_scale_2d(v: Vec2<Value>) -> (r: Mat3<Value>)
        ensures
            r == Mat3(
                [
                    v.0[0], Value::zero_spec(), Value::zero_spec(),
                    Value::zero_spec(), v.0[1], Value::zero_spec(),
                    Value::zero_spec(), Value::zero_spec(), Value::identity_spec(),
                ],
            ),
            r@ == (Mat3Model {
                r0c0: v@.x,
                r0c1: Value::zero_spec(),
                r0c2: Value::zero_spec(),
                r1c0: Value::zero_spec(),
                r1c1: v@.y,
                r1c2: Value::zero_spec(),
                r2c0: Value::zero_spec(),
                r2c1: Value::zero_spec(),
                r2c2: Value::identity_spec(),
            }),
    {
        let mut res = Self::identity();
        res.0[consts::SX] = v.x();
        res.0[consts::SY] = v.y();
        assert(res.0 =~= Mat3(
            [
                v.0[0], Value::zero_spec(), Value::zero_spec(),
                Value::zero_spec(), v.0[1], Value::zero_spec(),
                Value::zero_spec(), Value::zero_spec(), Value::identity_spec(),
            ],
        ).0);
        res
    }

    /// The matrix with the scale `v` on the diagonal.
    pub fn from_scale(v: Vec3<Value>) -> (r: Mat3<Value>)
        ensures
            r == Mat3(
                [
                    v.0[0], Value::zero_spec(), Value::zero_spec(),
                    Value::zero_spec(), v.0[1], Value::zero_spec(),
                    Value::zero_spec(), Value::zero_spec(), v.0[2],
                ],
            ),
            r@ == (Mat3Model {
                r0c0: v@.x,
                r0c1: Value::zero_spec(),
                r0c2: Value::zero_spec(),
                r1c0: Value::zero_spec(),
                r1c1: v@.y,
                r1c2: Value::zero_spec(),
                r2c0: Value::zero_spec(),
                r2c1: Value::zero_spec(),
                r2c2: v@.z,
            }),
    {
        let mut res = Self::identity();
        res.0[consts::SX] = v.x();
        res.0[consts::SY] = v.y();
        res.0[consts::SZ] = v.z();
        assert(res.0 =~= Mat3(
            [
                v.0[0], Value::zero_spec(), Value::zero_spec(),
                Value::zero_spec(), v.0[1], Value::zero_spec(),
                Value::zero_spec(), Value::zero_spec(), v.0[2],
            ],
        ).0);
        res
    }
}

impl<Value: Numeric + Neg<Output = Value>> Mat3<Value> {
    /// The adjugate and the determinant, by the closed formulas.
    pub fn adjugate_determinant(&self) -> (r: (Self, Value))
        requires
            obeys_arith::<Value>(),
            self.terms().adjugate().defined(),
            self.terms().determinant().defined,
        ensures
            r.0 == self.terms().adjugate().value(),
            r.0@ == self.terms().adjugate().values(),
            r.1 == self.terms().determinant().value,
    {
        let r0c0 = self.0[consts::R0C0];
        let r0c1 = self.0[consts::R0C1];
        let r0c2 = self.0[consts::R0C2];
        let r1c0 = self.0[consts::R1C0];
        let r1c1 = self.0[consts::R1C1];
        let r1c2 = self.0[consts::R1C2];
        let r2c0 = self.0[consts::R2C0];
        let r2c1 = self.0[consts::R2C1];
        let r2c2 = self.0[consts::R2C2];
        let det = r0c0 * (r1c1 * r2c2 - r2c1 * r1c2) - r0c1 * (r1c0 * r2c2 - r1c2 * r2c0) + r0c2 * (r1c0 * r2c1 - r1c1 * r2c0);
        let adj = Mat3(
            [
                r1c1 * r2c2 - r2c1 * r1c2, r1c2 * r2c0 - r1c0 * r2c2, r1c0 * r2c1 - r2c0 * r1c1,
                r0c2 * r2c1 - r0c1 * r2c2, r0c0 * r2c2 - r0c2 * r2c0, r2c0 * r0c1 - r0c0 * r2c1,
                r0c1 * r1c2 - r0c2 * r1c1, r1c0 * r0c2 - r0c0 * r1c2, r0c0 * r1c1 - r1c0 * r0c1,
            ],
        );
        (adj, det)
    }

    /// The inverse: the adjugate times `1 / determinant`. A matrix whose determinant is
    /// exactly zero has none; nothing is said of one that is only close to singular.
    pub fn inverse(&self) -> (r: Self)
        requires
            obeys_arith::<Value>(),
            self.terms().inverse().defined(),
            self.terms().determinant().value != Value::zero_spec(),
        ensures
            r == self.terms().inverse().value(),
            r@ == self.terms().inverse().values(),
    {
        let (adj, det) = self.adjugate_determinant();
        let invdet = Value::identity() / det;
        adj * invdet
    }
}

impl<Value: Float> Mat3<Value> {
    /// The rotation by `angle` about the x axis, in right-handed coordinates.
    pub fn from_rotation_x(angle: Radians<Value>) -> (r: Mat3<Value>)
        requires
            obeys_neg::<Value>(),
            Mat3Model::from_rotation_x(angle.term()).defined(),
        ensures
            r == Mat3Model::from_rotation_x(angle.term()).value(),
            r@ == Mat3Model::from_rotation_x(angle.term()).values(),
    {
        let mut res = Self::identity();
        let (s, c) = angle.sin_cos();
        res.0[consts::RX00] = c;
        res.0[consts::RX01] = s.neg();
        res.0[consts::RX10] = s;
        res.0[consts::RX11] = c;
        assert(res.0 =~= Mat3Model::from_rotation_x(angle.term()).value().0);
        res
    }

    /// The rotation by `angle` about the y axis, in right-handed coordinates.
    pub fn from_rotation_y(angle: Radians<Value>) -> (r: Mat3<Value>)
        requires
            obeys_neg::<Value>(),
            Mat3Model::from_rotation_y(angle.term()).defined(),
        ensures
            r == Mat3Model::from_rotation_y(angle.term()).value(),
            r@ == Mat3Model::from_rotation_y(angle.term()).values(),
    {
        let mut res = Self::identity();
        let (s, c) = angle.sin_cos();
        res.0[consts::RY00] = c;
        res.0[consts::RY01] = s;
        res.0[consts::RY10] = s.neg();
        res.0[consts::RY11] = c;
        assert(res.0 =~= Mat3Model::from_rotation_y(angle.term()).value().0);
        res
    }

    /// The rotation by `angle` about the z axis, in right-handed coordinates.
    pub fn from_rotation_z(angle: Radians<Value>) -> (r: Mat3<Value>)
        requires
            obeys_neg::<Value>(),
            Mat3Model::from_rotation_z(angle.term()).defined(),
        ensures
            r == Mat3Model::from_rotation_z(angle.term()).value(),
            r@ == Mat3Model::from_rotation_z(angle.term()).values(),
    {
        let mut res = Self::identity();
        let (s, c) = angle.sin_cos();
        res.0[consts::RZ00] = c;
        res.0[consts::RZ01] = s.neg();
        res.0[consts::RZ10] = s;
        res.0[consts::RZ11] = c;
        assert(res.0 =~= Mat3Model::from_rotation_z(angle.term()).value().0);
        res
    }

    /// The rotation by `angle` in the plane: that about the z axis.
    pub fn from_rotation_2d(angle: Radians<Value>) -> (r: Mat3<Value>)
        requires
            obeys_neg::<Value>(),
            Mat3Model::from_rotation_z(angle.term()).defined(),
        ensures
            r == Mat3Model::from_rotation_z(angle.term()).value(),
            r@ == Mat3Model::from_rotation_z(angle.term()).values(),
    {
        Self::from_rotation_z(angle)
    }

    /// The rotation that the quaternion stands for.
    pub fn from_quat(quat: &Quat<Value>) -> (r: Mat3<Value>)
        requires
            obeys_arith::<Value>(),
            Mat3Model::from_quat(quat.terms()).defined(),
        ensures
            r == Mat3Model::from_quat(quat.terms()).value(),
            r@ == Mat3Model::from_quat(quat.terms()).values(),
    {
        let x = quat.x();
        let y = quat.y();
        let z = quat.z();
        let s = quat.s();
        let zero = Value::zero();
        let one = Value::identity();
        let xx = x * x;
        let xy = x * y;
        let xz = x * z;
        let xs = x * s;
        let yy = y * y;
        let yz = y * z;
        let ys = y * s;
        let zz = z * z;
        let zs = z * s;
        let two = one + one;
        Mat3(
            [
                one - (yy + zz) * two, (xy + zs) * two, (xz - ys) * two,
                (xy - zs) * two, one - (xx + zz) * two, (yz + xs) * two,
                (xz + ys) * two, (yz - xs) * two, one - (xx + yy) * two,
            ],
        )
    }

    /// Turns what the matrix maps to by `angle` about the z axis, in place: the matrix
    /// becomes the product of that rotation with it.
    pub fn rotate_2d(&mut self, angle: Radians<Value>)
        requires
            obeys_arith::<Value>(),
            old(self).terms().rotated_2d(angle.term()).defined(),
        ensures
            *final(self) == old(self).terms().rotated_2d(angle.term()).value(),
            final(self)@ == old(self).terms().rotated_2d(angle.term()).values(),
    {
        let r0c0 = self.0[consts::R0C0];
        let r0c1 = self.0[consts::R0C1];
        let r0c2 = self.0[consts::R0C2];
        let r1c0 = self.0[consts::R1C0];
        let r1c1 = self.0[consts::R1C1];
        let r1c2 = self.0[consts::R1C2];
        let r2c0 = self.0[consts::R2C0];
        let r2c1 = self.0[consts::R2C1];
        let r2c2 = self.0[consts::R2C2];
        let (s, c) = angle.sin_cos();
        *self = Mat3(
            [
                c * r0c0 - s * r1c0, s * r0c0 + c * r1c0, r2c0,
                c * r0c1 - s * r1c1, s * r0c1 + c * r1c1, r2c1,
                c * r0c2 - s * r1c2, s * r0c2 + c * r1c2, r2c2,
            ],
        );
    }

    /// The rotation by `angle` about `axis`, which need not be of unit length.
    pub fn from_axis_angle(axis: Vec3<Value>, angle: Radians<Value>) -> (r: Self)
        requires
            obeys_arith::<Value>(),
            obeys_order::<Value>(),
            Mat3Model::from_axis_angle(axis.terms(), angle.term()).defined(),
        ensures
            r == Mat3Model::from_axis_angle(axis.terms(), angle.term()).value(),
            r@ == Mat3Model::from_axis_angle(axis.terms(), angle.term()).values(),
    {
        let (s, c) = angle.sin_cos();
        let zero = Value::zero();
        let one = Value::identity();
        let mut axis = axis;
        axis.normalize();
        let x = axis.x();
        let y = axis.y();
        let z = axis.z();
        let t = one - c;
        let r0c0 = c + x * x * t;
        let r1c1 = c + y * y * t;
        let r2c2 = c + z * z * t;
        let x_y_t = x * y * t;
        let z_s = z * s;
        let r1c0 = x_y_t + z_s;
        let r0c1 = x_y_t - z_s;
        let x_z_t = x * z * t;
        let y_s = y * s;
        let r2c0 = x_z_t - y_s;
        let r0c2 = x_z_t + y_s;
        let y_z_t = y * z * t;
        let x_s = x * s;
        let r2c1 = y_z_t + x_s;
        let r1c2 = y_z_t - x_s;
        Mat3(
            [
                r0c0, r1c0, r2c0,
                r0c1, r1c1, r2c1,
                r0c2, r1c2, r2c2,
            ],
        )
    }
}

/// Tuples taken as rows make the transposed of the matrix that they make taken as columns.
pub proof fn lemma_mat3_rows_are_transposed_columns<E>(t0: (E, E, E), t1: (E, E, E), t2: (E, E, E))
    ensures
        Mat3Model::of_rows(t0, t1, t2) == Mat3Model::of_columns(t0, t1, t2).transposed(),
        Mat3Model::of_columns(t0, t1, t2) == Mat3Model::of_rows(t0, t1, t2).transposed(),
{
}

/// Exchanging rows and columns twice gives the matrix back.
pub proof fn lemma_mat3_transposed_twice<E>(m: Mat3Model<E>)
    ensures
        m.transposed().transposed() == m,
{
}

/// A matrix transposed twice is the matrix it was.
pub proof fn lemma_mat3_transposed_twice_is_same<Value>(m: Mat3<Value>)
    ensures
        m@.transposed().transposed().matrix() == m,
{
    assert(m@.transposed().transposed().matrix().0 =~= m.0);
}

/// A matrix made of the array of a matrix is that matrix.
pub proof fn lemma_mat3_array_round_trip<Value>(m: Mat3<Value>)
    ensures
        Mat3(m.0) == m,
        m@.matrix() == m,
{
    assert(m@.matrix().0 =~= m.0);
}

} // verus!
