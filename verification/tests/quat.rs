use linmath::angle::AsRadians;
use linmath::traits::float::{Float, Round, Sqrt, Trig};
use linmath::traits::{Identity, Numeric, Signed, Zero};
use linmath::types::{Quat, Vec3, Vec4};

/// A single-precision number as an element type.
#[derive(Copy, Clone, Debug, Default, PartialEq, PartialOrd)]
struct F(f32);

impl core::ops::Add for F {
    type Output = F;
    fn add(self, o: F) -> F {
        F(self.0 + o.0)
    }
}

impl core::ops::Sub for F {
    type Output = F;
    fn sub(self, o: F) -> F {
        F(self.0 - o.0)
    }
}

impl core::ops::Mul for F {
    type Output = F;
    fn mul(self, o: F) -> F {
        F(self.0 * o.0)
    }
}

impl core::ops::Div for F {
    type Output = F;
    fn div(self, o: F) -> F {
        F(self.0 / o.0)
    }
}

impl core::ops::Rem for F {
    type Output = F;
    fn rem(self, o: F) -> F {
        F(self.0 % o.0)
    }
}

impl core::ops::Neg for F {
    type Output = F;
    fn neg(self) -> F {
        F(-self.0)
    }
}

// The `*_spec` functions exist for the verifier alone and are never run.
impl Identity for F {
    fn identity_spec() -> F {
        unreachable!()
    }
    fn identity() -> F {
        F(1.0)
    }
}

impl Zero for F {
    fn zero_spec() -> F {
        unreachable!()
    }
    fn zero() -> F {
        F(0.0)
    }
}

impl Numeric for F {}

impl Signed for F {
    fn abs_req(self) -> bool {
        unreachable!()
    }
    fn abs_spec(self) -> F {
        unreachable!()
    }
    fn signum_spec(self) -> F {
        unreachable!()
    }
    fn abs(&self) -> F {
        F(self.0.abs())
    }
    fn signum(&self) -> F {
        F(self.0.signum())
    }
}

impl Sqrt for F {
    fn sqrt_spec(self) -> F {
        unreachable!()
    }
    fn sqrt(&self) -> F {
        F(self.0.sqrt())
    }
}

impl Round for F {
    fn round_spec(self) -> F {
        unreachable!()
    }
    fn floor_spec(self) -> F {
        unreachable!()
    }
    fn trunc_spec(self) -> F {
        unreachable!()
    }
    fn ceil_spec(self) -> F {
        unreachable!()
    }
    fn round(&self) -> F {
        F(self.0.round())
    }
    fn floor(&self) -> F {
        F(self.0.floor())
    }
    fn trunc(&self) -> F {
        F(self.0.trunc())
    }
    fn ceil(&self) -> F {
        F(self.0.ceil())
    }
}

impl Trig for F {
    fn acos_spec(self) -> F {
        unreachable!()
    }
    fn asin_spec(self) -> F {
        unreachable!()
    }
    fn atan_spec(self) -> F {
        unreachable!()
    }
    fn cos_spec(self) -> F {
        unreachable!()
    }
    fn sin_spec(self) -> F {
        unreachable!()
    }
    fn tan_spec(self) -> F {
        unreachable!()
    }
    fn pi_spec() -> F {
        unreachable!()
    }
    fn acos(&self) -> F {
        F(self.0.acos())
    }
    fn asin(&self) -> F {
        F(self.0.asin())
    }
    fn atan(&self) -> F {
        F(self.0.atan())
    }
    fn cos(&self) -> F {
        F(self.0.cos())
    }
    fn sin(&self) -> F {
        F(self.0.sin())
    }
    fn tan(&self) -> F {
        F(self.0.tan())
    }
    fn pi() -> F {
        F(core::f32::consts::PI)
    }
}

impl Float for F {}

const TOLERANCE: f32 = 10.0 * core::f32::EPSILON;

/// Fails unless `left` is within the tolerance of `right`.
fn assert_approx_eq(left: F, right: F, what: &str) {
    if left - F(TOLERANCE) > right || left + F(TOLERANCE) < right {
        panic!("assertion failed: `(left == right)`\n  left: `{:?}`,\n right: `{:?}`: {}", left, right, what);
    }
}

/// A double-precision number as an element type.
#[derive(Copy, Clone, Debug, Default, PartialEq, PartialOrd)]
struct D(f64);

impl core::ops::Add for D {
    type Output = D;
    fn add(self, o: D) -> D {
        D(self.0 + o.0)
    }
}

impl core::ops::Sub for D {
    type Output = D;
    fn sub(self, o: D) -> D {
        D(self.0 - o.0)
    }
}

impl core::ops::Mul for D {
    type Output = D;
    fn mul(self, o: D) -> D {
        D(self.0 * o.0)
    }
}

impl core::ops::Div for D {
    type Output = D;
    fn div(self, o: D) -> D {
        D(self.0 / o.0)
    }
}

impl core::ops::Rem for D {
    type Output = D;
    fn rem(self, o: D) -> D {
        D(self.0 % o.0)
    }
}

impl core::ops::Neg for D {
    type Output = D;
    fn neg(self) -> D {
        D(-self.0)
    }
}

impl Identity for D {
    fn identity_spec() -> D {
        unreachable!()
    }
    fn identity() -> D {
        D(1.0)
    }
}

impl Zero for D {
    fn zero_spec() -> D {
        unreachable!()
    }
    fn zero() -> D {
        D(0.0)
    }
}

impl Numeric for D {}

impl Signed for D {
    fn abs_req(self) -> bool {
        unreachable!()
    }
    fn abs_spec(self) -> D {
        unreachable!()
    }
    fn signum_spec(self) -> D {
        unreachable!()
    }
    fn abs(&self) -> D {
        D(self.0.abs())
    }
    fn signum(&self) -> D {
        D(self.0.signum())
    }
}

impl Sqrt for D {
    fn sqrt_spec(self) -> D {
        unreachable!()
    }
    fn sqrt(&self) -> D {
        D(self.0.sqrt())
    }
}

impl Round for D {
    fn round_spec(self) -> D {
        unreachable!()
    }
    fn floor_spec(self) -> D {
        unreachable!()
    }
    fn trunc_spec(self) -> D {
        unreachable!()
    }
    fn ceil_spec(self) -> D {
        unreachable!()
    }
    fn round(&self) -> D {
        D(self.0.round())
    }
    fn floor(&self) -> D {
        D(self.0.floor())
    }
    fn trunc(&self) -> D {
        D(self.0.trunc())
    }
    fn ceil(&self) -> D {
        D(self.0.ceil())
    }
}

impl Trig for D {
    fn acos_spec(self) -> D {
        unreachable!()
    }
    fn asin_spec(self) -> D {
        unreachable!()
    }
    fn atan_spec(self) -> D {
        unreachable!()
    }
    fn cos_spec(self) -> D {
        unreachable!()
    }
    fn sin_spec(self) -> D {
        unreachable!()
    }
    fn tan_spec(self) -> D {
        unreachable!()
    }
    fn pi_spec() -> D {
        unreachable!()
    }
    fn acos(&self) -> D {
        D(self.0.acos())
    }
    fn asin(&self) -> D {
        D(self.0.asin())
    }
    fn atan(&self) -> D {
        D(self.0.atan())
    }
    fn cos(&self) -> D {
        D(self.0.cos())
    }
    fn sin(&self) -> D {
        D(self.0.sin())
    }
    fn tan(&self) -> D {
        D(self.0.tan())
    }
    fn pi() -> D {
        D(core::f64::consts::PI)
    }
}

impl Float for D {}

/// Fails unless each component of `left` is within the tolerance of that of `right`.
fn assert_approx_eq_vec3(left: Vec3<F>, right: Vec3<F>, what: &str) {
    for (l, r) in left.iter().zip(right.iter()) {
        assert_approx_eq(*l, *r, &format!("{}: {:?} against {:?}", what, left, right));
    }
}

/// A number times a vector, the number on the left.
impl core::ops::Mul<Vec3<F>> for F {
    type Output = Vec3<F>;
    fn mul(self, v: Vec3<F>) -> Vec3<F> {
        Vec3::new(self * v.x(), self * v.y(), self * v.z())
    }
}

fn vec3(x: f32, y: f32, z: f32) -> Vec3<F> {
    Vec3::new(F(x), F(y), F(z))
}

fn quat(s: f32, v: [f32; 3]) -> Quat<F> {
    Quat::new(F(s), [F(v[0]), F(v[1]), F(v[2])].into())
}

fn quat64(s: f64, v: [f64; 3]) -> Quat<D> {
    Quat::new(D(s), Vec3::new(D(v[0]), D(v[1]), D(v[2])))
}

fn assert_quat_approx_eq(left: &Quat<F>, right: &Quat<F>, what: &str) {
    assert_approx_eq(left.s(), right.s(), what);
    assert_approx_eq_vec3(left.v(), right.v(), what);
}

#[test]
fn quat_constructor_and_accessors_should_match() {
    let q = Quat::new(5, Vec3::new(2, 3, 4));
    assert_eq!(q.s(), 5);
    assert_eq!(q.v(), Vec3::new(2, 3, 4));
    assert_eq!(q.x(), 2);
    assert_eq!(q.y(), 3);
    assert_eq!(q.z(), 4);
}

#[test]
fn quat_should_have_identity_as_s1_v0() {
    let q: Quat<i32> = Quat::identity();
    assert_eq!(q.s(), 1);
    assert_eq!(q.v(), Vec3::zero());
}

#[test]
fn quat_default_should_be_identity() {
    let q: Quat<i32> = Quat::default();
    assert_eq!(q, Quat::identity());
}

#[test]
fn quat_from_vec4_should_work() {
    let v = Vec4::new(2, 3, 4, 5);
    let q = Quat::from_vec4(v);
    assert_eq!(q.x(), v.x());
    assert_eq!(q.y(), v.y());
    assert_eq!(q.z(), v.z());
    assert_eq!(q.s(), v.w());
}

#[test]
fn quat_into_vec4_should_work() {
    let v = Vec4::new(2, 3, 4, 5);
    let q = Quat::from_vec4(v);
    assert_eq!(q.into_vec4(), v);
}

#[test]
fn quat_setter_should_work() {
    let mut q = Quat::new(3, Vec3::new(1, 2, 4));
    q.set(9, Vec3::new(8, 7, 6));
    assert_eq!(q.s(), 9);
    assert_eq!(q.x(), 8);
    assert_eq!(q.y(), 7);
    assert_eq!(q.z(), 6);
}

#[test]
fn quat_addition_should_work() {
    let q1 = Quat::new(3, Vec3::new(1, 2, 4));
    let q2 = Quat::new(7, Vec3::new(4, 3, 1));
    let q3 = Quat::new(10, Vec3::new(5, 5, 5));
    assert_eq!(q1 + q2, q3);
    assert_eq!(q2 + q1, q3);

    let mut q = q1;
    q += q2;
    assert_eq!(q, q3);
}

#[test]
fn quat_subtraction_should_work() {
    let q1 = Quat::new(3, Vec3::new(1, 2, 4));
    let q2 = Quat::new(7, Vec3::new(4, 3, 1));
    let q3 = Quat::new(-4, Vec3::new(-3, -1, 3));
    let q4 = Quat::new(4, Vec3::new(3, 1, -3));
    assert_eq!(q1 - q2, q3);
    assert_eq!(q2 - q1, q4);

    let mut q = q1;
    q -= q2;
    assert_eq!(q, q3);
}

#[test]
fn quat_multiplication_should_work() {
    let q1 = Quat::new(3, Vec3::new(1, 2, 4));
    let q2 = Quat::new(6, Vec3::new(4, 3, 1));
    let q3 = Quat::new(4, Vec3::new(8, 36, 22));
    let q4 = Quat::new(4, Vec3::new(28, 6, 32));
    assert_eq!(q1 * q2, q3);
    assert_eq!(q2 * q1, q4);

    let mut q = q1;
    q *= q2;
    assert_eq!(q, q3);
}

#[test]
fn quat_scalar_multiplication_should_work() {
    let q1 = Quat::new(3, Vec3::new(1, 2, 4));

    for i in -10..10 {
        let q2 = q1 * i;
        assert_eq!(q2.s(), q1.s() * i);
        assert_eq!(q2.v(), q1.v() * i);
    }

    let mut q = q1;
    q *= 5;
    assert_eq!(q, q1 * 5);
}

#[test]
fn quat_scalar_division_should_work() {
    let q1 = quat(3.0, [1.0, 2.0, 4.0]);

    for i in (-10..-1).chain(1..10) {
        let n = F(i as f32);
        let q2 = q1 / n;
        assert_eq!(q2.s(), q1.s() / n);
        assert_eq!(q2.v(), q1.v() / n);
    }

    let mut q = q1;
    q /= F(5.0);
    assert_eq!(q, q1 / F(5.0));
}

#[test]
fn quat_square_should_be_own_product() {
    let q1 = quat64(3.0, [1.0, 2.0, 4.0]);
    assert_eq!(q1.square(), q1 * q1);
}

#[test]
fn quat_norm_should_work() {
    let q1 = quat(3.0, [1.0, 2.0, 4.0]);
    assert_approx_eq(q1.magnitude(), q1.into_vec4().magnitude(), "magnitude");
}

#[test]
fn quat_square_norm_should_work() {
    let q1 = quat(3.0, [1.0, 2.0, 4.0]);
    assert_approx_eq(q1.square_magnitude(), q1.into_vec4().square_magnitude(), "square magnitude");
}

#[test]
fn quat_conjugate_should_negate_vector_part() {
    let q1 = quat64(3.0, [1.0, 2.0, 4.0]);
    let q2 = quat64(3.0, [-1.0, -2.0, -4.0]);
    assert_eq!(q1.conjugate(), q2);
}

#[test]
fn product_of_quat_and_its_inverse_should_be_identity_quat() {
    let q1 = quat64(3.0, [1.0, 2.0, 4.0]);
    assert_eq!(q1 * q1.inverse(), Quat::identity());
    assert_eq!(q1.inverse() * q1, Quat::identity());
}

#[test]
fn normalizing_a_quat_makes_it_unit_size() {
    let q1 = quat(3.0, [1.0, 2.0, 4.0]);
    assert_approx_eq(q1.normalized().magnitude(), F(1.0), "magnitude");
    assert_approx_eq(q1.normalized().square_magnitude(), F(1.0), "square magnitude");
}

fn from_axis_angle_test_helper(axis: Vec3<F>, axis_name: &str) {
    const PI: f32 = core::f32::consts::PI;
    const PI_HALF: f32 = PI / 2.0;
    const PI_QUARTER: f32 = PI / 4.0;

    let mut unit_axis = axis;
    unit_axis.normalize();

    let q1 = Quat::from_axis_angle(axis, F(PI + PI).as_radians());
    let q2 = Quat::new(F(-1.0), Vec3::zero());
    assert_quat_approx_eq(&q1, &q2, &format!("{}: 1 turn", axis_name));

    let q1 = Quat::from_axis_angle(axis, F(PI + PI_HALF).as_radians());
    let q2 = Quat::new(F(-PI_QUARTER.cos()), F(PI_QUARTER.cos()) * unit_axis);
    assert_quat_approx_eq(&q1, &q2, &format!("{}: 3/4 turn", axis_name));

    let q1 = Quat::from_axis_angle(axis, F(PI).as_radians());
    let q2 = Quat::new(F(0.0), unit_axis);
    assert_quat_approx_eq(&q1, &q2, &format!("{}: 1/2 turn", axis_name));

    let q1 = Quat::from_axis_angle(axis, F(PI_HALF).as_radians());
    let q2 = Quat::new(F(PI_QUARTER.cos()), F(PI_QUARTER.cos()) * unit_axis);
    assert_quat_approx_eq(&q1, &q2, &format!("{}: 1/4 turn", axis_name));

    let q1 = Quat::from_axis_angle(axis, F(0.0).as_radians());
    let q2 = Quat::new(F(1.0), Vec3::zero());
    assert_quat_approx_eq(&q1, &q2, &format!("{}: 0 turn", axis_name));

    let q1 = Quat::from_axis_angle(axis, -F(PI_HALF).as_radians());
    let q2 = Quat::new(F(PI_QUARTER.cos()), F(-PI_QUARTER.cos()) * unit_axis);
    assert_quat_approx_eq(&q1, &q2, &format!("{}: -1/4 turn", axis_name));

    let q1 = Quat::from_axis_angle(axis, -F(PI).as_radians());
    let q2 = Quat::new(F(0.0), -unit_axis);
    assert_quat_approx_eq(&q1, &q2, &format!("{}: -1/2 turn", axis_name));

    let q1 = Quat::from_axis_angle(axis, -F(PI + PI_HALF).as_radians());
    let q2 = Quat::new(F(-PI_QUARTER.cos()), F(-PI_QUARTER.cos()) * unit_axis);
    assert_quat_approx_eq(&q1, &q2, &format!("{}: -3/4 turn", axis_name));

    let q1 = Quat::from_axis_angle(axis, -F(PI + PI).as_radians());
    let q2 = Quat::new(F(-1.0), Vec3::zero());
    assert_quat_approx_eq(&q1, &q2, &format!("{}: -1 turn", axis_name));
}

#[test]
fn quat_from_axis_angle_should_work_for_x_axis() {
    from_axis_angle_test_helper(Vec3::unit_x(), "x-axis");
}

#[test]
fn quat_from_axis_angle_should_work_for_negative_x_axis() {
    from_axis_angle_test_helper(-Vec3::unit_x(), "negative x-axis");
}

#[test]
fn quat_from_axis_angle_should_work_for_y_axis() {
    from_axis_angle_test_helper(Vec3::unit_y(), "y-axis");
}

#[test]
fn quat_from_axis_angle_should_work_for_negative_y_axis() {
    from_axis_angle_test_helper(-Vec3::unit_y(), "negative y-axis");
}

#[test]
fn quat_from_axis_angle_should_work_for_z_axis() {
    from_axis_angle_test_helper(Vec3::unit_z(), "z-axis");
}

#[test]
fn quat_from_axis_angle_should_work_for_negative_z_axis() {
    from_axis_angle_test_helper(-Vec3::unit_z(), "negative z-axis");
}

#[test]
fn quat_from_axis_angle_should_work_for_any_axis() {
    from_axis_angle_test_helper(vec3(3.0, 1.0, 2.0), "(x, y, z) = (3, 1, 2)");
    from_axis_angle_test_helper(vec3(5.0, -3.0, 0.0), "(x, y, z) = (5, -3, 0)");
    from_axis_angle_test_helper(vec3(1.0, 0.0, -5.0), "(x, y, z) = (1, 0, -5)");
    from_axis_angle_test_helper(vec3(0.0, 1000.0, -1000.0), "(x, y, z) = (0, 1000, -1000)");
}

#[test]
fn quat_should_rotate_vec3s_correctly() {
    const PI: f32 = core::f32::consts::PI;

    let qs = [
        Quat::from_axis_angle(Vec3::unit_x(), F(PI).as_radians()),
        Quat::from_axis_angle(Vec3::unit_y(), F(PI / 2.0).as_radians()),
        Quat::from_axis_angle(Vec3::unit_z(), -F(3.0 * PI / 4.0).as_radians()),
        Quat::from_axis_angle(vec3(4.0, 2.0, 1.0), F(-2.315).as_radians()),
    ];

    let vs = [
        vec3(1.0, 2.0, 3.0),
        vec3(-5.0, 2.6, 4.9),
        vec3(0.0, -4.1, -0.1),
        vec3(-1.3, 1.5, -2.4),
    ];

    for q in &qs {
        for v in &vs {
            assert_approx_eq_vec3(
                q.apply_rotation(v),
                (q * Quat::new(F(0.0), *v) * q.inverse()).v(),
                "rotation",
            );
        }
    }
}

fn cardinal_axes() -> [Quat<F>; 4] {
    [
        quat(1.0, [0.0, 0.0, 0.0]),
        quat(0.0, [1.0, 0.0, 0.0]),
        quat(0.0, [0.0, 1.0, 0.0]),
        quat(0.0, [0.0, 0.0, 1.0]),
    ]
}

#[test]
fn quats_should_lerp_correctly_between_cardinal_axes() {
    let qs = cardinal_axes();

    const STEPS: usize = 100;
    const FSTEPS: f32 = STEPS as f32;
    const INCREMENT: f32 = 1.0 / FSTEPS;

    for p in &qs {
        for q in &qs {
            for i in 0..=STEPS {
                let f = i as f32;
                let t = F(INCREMENT * f);

                let r = if p == q { *p } else { p + (q - p) * t };
                assert_quat_approx_eq(
                    &p.lerp(q, t),
                    &r,
                    &format!("lerp({:?}, {:?}, {:?}) == {:?}", p, q, t, r),
                );
            }
        }
    }
}

#[test]
fn quats_should_lerp_correctly_between_arbitrary_orientations() {
    let p = quat(1.0 / 3.0, [2.0 / 3.0, 2.0 / 3.0, 0.0]);
    let q = quat(0.0, [-2.0 / 3.0, 2.0 / 3.0, -1.0 / 3.0]);

    let tests = [
        (0.0, p),
        (0.1, quat(0.3, [0.533333333333, 0.666666666667, -0.0333333333333])),
        (0.2, quat(0.266666666667, [0.4, 0.666666666667, -0.0666666666667])),
        (0.3, quat(0.233333333333, [0.266666666667, 0.666666666667, -0.1])),
        (0.5, quat(0.166666666667, [0.0, 0.666666666667, -0.166666666667])),
        (0.75, quat(0.0833333333333, [-0.333333333333, 0.666666666667, -0.25])),
        (0.9, quat(0.0333333333333, [-0.533333333333, 0.666666666667, -0.3])),
        (1.0, q),
    ];

    for (t, r) in &tests {
        assert_quat_approx_eq(
            &p.lerp(&q, F(*t)),
            r,
            &format!("lerp({:?}, {:?}, {}) == {:?}", p, q, t, r),
        );
    }
}

#[test]
fn quats_should_nlerp_correctly_between_cardinal_axes() {
    let qs = cardinal_axes();

    const STEPS: usize = 100;
    const FSTEPS: f32 = STEPS as f32;
    const INCREMENT: f32 = 1.0 / FSTEPS;

    for p in &qs {
        for q in &qs {
            for i in 0..=STEPS {
                let f = i as f32;
                let t = F(INCREMENT * f);

                let r = if p == q { *p } else { (p + (q - p) * t).normalized() };

                assert_quat_approx_eq(
                    &p.nlerp(q, t),
                    &r,
                    &format!("nlerp({:?}, {:?}, {:?}) == {:?}", p, q, t, r),
                );
            }
        }
    }
}

#[test]
fn quats_should_nlerp_correctly_between_arbitrary_orientations() {
    let p = quat(1.0 / 3.0, [2.0 / 3.0, 2.0 / 3.0, 0.0]);
    let q = quat(0.0, [-2.0 / 3.0, 2.0 / 3.0, -1.0 / 3.0]);

    let tests = [
        (0.0, p),
        (0.1, quat(0.331294578225, [0.588968139066, 0.736210173832, -0.0368105086916])),
        (0.2, quat(0.323380833382, [0.485071250073, 0.808452083454, -0.0808452083454])),
        (0.3, quat(0.306381676673, [0.350150487626, 0.875376219065, -0.13130643286])),
        (0.5, quat(0.235702260396, [0.0, 0.942809041582, -0.235702260396])),
        (0.75, quat(0.105409255339, [-0.421637021356, 0.843274042712, -0.316227766017])),
        (0.9, quat(0.0368105086916, [-0.588968139066, 0.736210173832, -0.331294578225])),
        (1.0, q),
    ];

    for (t, r) in &tests {
        assert_quat_approx_eq(
            &p.nlerp(&q, F(*t)),
            r,
            &format!("nlerp({:?}, {:?}, {}) == {:?}", p, q, t, r),
        );
    }
}

#[test]
fn quats_should_slerp_correctly_between_cardinal_axes() {
    const PI: f32 = core::f32::consts::PI;

    let qs = cardinal_axes();

    const STEPS: usize = 100;
    const FSTEPS: f32 = STEPS as f32;
    const FSTEPS_2: f32 = 2.0 * FSTEPS;
    const INCREMENT: f32 = 1.0 / FSTEPS;

    for p in &qs {
        for q in &qs {
            for i in 0..=STEPS {
                let f = i as f32;
                let t = F(INCREMENT * f);

                let r = if p == q {
                    *p
                } else {
                    let a = F((f * PI / FSTEPS_2).cos());
                    let b = F(((FSTEPS - f) * PI / FSTEPS_2).cos());
                    Quat::new(a * p.s + b * q.s, a * p.v + b * q.v)
                };

                assert_quat_approx_eq(
                    &p.slerp(q, t),
                    &r,
                    &format!("slerp({:?}, {:?}, {:?}) == {:?}", p, q, t, r),
                );
            }
        }
    }
}

#[test]
fn quats_should_slerp_correctly_between_arbitrary_orientations() {
    const FRAC_PI_4: f32 = core::f32::consts::FRAC_PI_4;
    let p = quat(1.0 / 3.0, [2.0 / 3.0, 2.0 / 3.0, 0.0]);
    let q = Quat::from_axis_angle(
        vec3(FRAC_PI_4.cos(), 0.0, FRAC_PI_4.cos()),
        F(FRAC_PI_4).as_radians(),
    );

    let tests = [
        (0.0, p),
        (0.1, quat(0.42378840777972404, [0.6562517646050643, 0.623425575504739, 0.0328261891003253])),
        (0.2, quat(0.5094809729615506, [0.6384619437126412, 0.5731784642993116, 0.0652834794133296])),
        (0.3, quat(0.5894480208585584, [0.6134971249529246, 0.5164900071383027, 0.0970071178146219])),
        (0.5, quat(0.7286853469983307, [0.5432421858711844, 0.38640252938062086, 0.15683965649056364])),
        (0.75, quat(0.8562033639126905, [0.42165530463757955, 0.2001973717233015, 0.22145793291427807])),
        (0.9, quat(0.9043917861995282, [0.333919802286284, 0.08087318464036171, 0.2530466176459223])),
        (1.0, q),
    ];

    for (t, r) in &tests {
        assert_quat_approx_eq(
            &p.slerp(&q, F(*t)),
            r,
            &format!("slerp({:?}, {:?}, {}) == {:?}", p, q, t, r),
        );
    }
}

// Edge cases and exact values.

#[test]
fn quat_product_does_not_commute_but_associates() {
    let p = Quat::new(3, Vec3::new(1, 2, 4));
    let q = Quat::new(6, Vec3::new(4, 3, 1));
    let r = Quat::new(-2, Vec3::new(5, 0, 7));
    assert_ne!(p * q, q * p);
    assert_eq!((p * q) * r, p * (q * r));
    assert_eq!(&p * q, p * &q);
}

#[test]
fn quat_square_of_integers_is_own_product() {
    let q = Quat::new(3, Vec3::new(1, 2, 4));
    assert_eq!(q.square(), q * q);
    assert_eq!(q.square(), Quat::new(-12, Vec3::new(6, 12, 24)));
    assert_eq!(q.square_magnitude(), 30);
}

#[test]
fn quat_negation_negates_both_parts() {
    let q = Quat::new(3, Vec3::new(1, -2, 4));
    assert_eq!(-q, Quat::new(-3, Vec3::new(-1, 2, -4)));
    assert_eq!(-&q, Quat::new(-3, Vec3::new(-1, 2, -4)));
    assert_eq!(q.conjugate(), Quat::new(3, Vec3::new(-1, 2, -4)));
}

#[test]
fn quat_inverse_of_a_unit_of_integers_is_its_conjugate() {
    let k = Quat::new(0, Vec3::new(0, 0, 1));
    assert_eq!(k.inverse(), Quat::new(0, Vec3::new(0, 0, -1)));
    assert_eq!(k * k.inverse(), Quat::identity());
}

#[test]
fn quat_apply_rotation_by_half_a_turn_about_z_is_exact() {
    let k = quat(0.0, [0.0, 0.0, 1.0]);
    assert_eq!(k.apply_rotation(&vec3(1.0, 2.0, 3.0)), vec3(-1.0, -2.0, 3.0));
    assert_eq!(
        k.apply_rotation(&vec3(1.0, 2.0, 3.0)),
        (k * Quat::new(F(0.0), vec3(1.0, 2.0, 3.0)) * k.inverse()).v()
    );
}

#[test]
fn quat_slerp_of_a_quaternion_with_itself_is_that_quaternion() {
    let p = quat(0.0, [1.0, 0.0, 0.0]);
    assert_eq!(p.slerp(&p, F(0.3)), p);
    assert_eq!(p.slerp(&(-p), F(0.3)), p);
}

#[test]
fn quat_slerp_starts_at_the_first_and_ends_at_the_second() {
    let p = quat(1.0, [0.0, 0.0, 0.0]);
    let q = quat(0.0, [0.0, 1.0, 0.0]);
    assert_quat_approx_eq(&p.slerp(&q, F(0.0)), &p, "start");
    assert_quat_approx_eq(&p.slerp(&q, F(1.0)), &q, "end");
}

#[test]
fn quat_of_zero_magnitude_is_left_alone_by_normalize() {
    let mut q = quat64(0.0, [0.0, 0.0, 0.0]);
    q.normalize();
    assert_eq!(q, quat64(0.0, [0.0, 0.0, 0.0]));
    assert_eq!(quat64(0.0, [0.0, 0.0, 0.0]).normalized(), quat64(0.0, [0.0, 0.0, 0.0]));
    let z = quat(0.0, [0.0, 0.0, 0.0]);
    assert_eq!(z.nlerp(&z, F(0.5)), z);
}

#[test]
fn quat_normalize_divides_by_the_magnitude() {
    let mut q = quat64(0.0, [3.0, 0.0, 4.0]);
    q.normalize();
    assert_eq!(q, quat64(0.0, [3.0 / 5.0, 0.0, 4.0 / 5.0]));
}

#[test]
fn quat_slerp_takes_the_shorter_arc() {
    // the dot product of the two is negative: at the start stands the opposite of the first,
    // which is the same rotation
    let p = quat(1.0, [0.0, 0.0, 0.0]);
    let q = quat(-0.6, [0.8, 0.0, 0.0]);
    assert_quat_approx_eq(&p.slerp(&q, F(0.0)), &(-p), "start");
    assert_quat_approx_eq(&p.slerp(&q, F(1.0)), &q, "end");
}

#[test]
fn quat_nlerp_is_of_unit_size() {
    let p = quat(1.0, [0.0, 0.0, 0.0]);
    let q = quat(0.0, [0.0, 1.0, 0.0]);
    assert_approx_eq(p.nlerp(&q, F(0.25)).magnitude(), F(1.0), "magnitude");
}

#[test]
fn quat_lerp_of_integers_is_exact() {
    let p = Quat::new(1, Vec3::new(2, 3, 4));
    let q = Quat::new(5, Vec3::new(0, 3, -4));
    assert_eq!(p + (q - p) * 3, Quat::new(13, Vec3::new(-4, 3, -20)));
}
