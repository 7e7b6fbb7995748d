use linmath::traits::{Identity, Signed, Zero};
use linmath::types::mat3::consts as at3;
use linmath::types::mat4::consts as at4;
use linmath::types::{Mat3, Mat4, Vec2, Vec3, Vec4};

#[test]
fn integers_have_their_one_and_their_zero() {
    assert_eq!(<i8 as Identity>::identity(), 1);
    assert_eq!(<u64 as Identity>::identity(), 1);
    assert_eq!(<i128 as Zero>::zero(), 0);
    assert_eq!(<usize as Zero>::zero(), 0);
}

#[test]
fn signed_integers_have_their_absolute_value_and_sign() {
    assert_eq!(Signed::abs(&-5i32), 5);
    assert_eq!(Signed::abs(&5i32), 5);
    assert_eq!(Signed::abs(&0i64), 0);
    assert_eq!(Signed::abs(&-127i8), 127);
    assert_eq!(Signed::signum(&-5i32), -1);
    assert_eq!(Signed::signum(&0i32), 0);
    assert_eq!(Signed::signum(&9i16), 1);
    assert_eq!(Signed::signum(&i64::MIN), -1);
}

#[test]
fn numbers_on_the_left_work_on_each_component() {
    assert_eq!(2 * Vec2::new(3, -4), Vec2::new(6, -8));
    assert_eq!(10 - Vec3::new(1, 2, 3), Vec3::new(9, 8, 7));
    assert_eq!(12 / Vec3::new(1, 2, -3), Vec3::new(12, 6, -4));
    assert_eq!(1 + Vec4::new(1, 2, 3, 4), Vec4::new(2, 3, 4, 5));
    assert_eq!(3u8 * Vec4::new(1u8, 2, 3, 4), Vec4::new(3u8, 6, 9, 12));
    assert_eq!(7i64 - Vec2::new(7i64, 8), Vec2::new(0i64, -1));
}

#[test]
fn division_of_integers_rounds_towards_zero() {
    assert_eq!(Vec3::new(7, -7, 9) / 2, Vec3::new(3, -3, 4));
    assert_eq!(Vec2::new(-9, 9) / Vec2::new(4, -4), Vec2::new(-2, -2));
}

#[test]
fn entries_can_be_written_by_index() {
    let mut v = Vec3::new(1, 2, 3);
    v[1] = 20;
    assert_eq!(v, Vec3::new(1, 20, 3));
    let mut m = Mat3::<i32>::identity();
    m[at3::TX] = 5;
    m[at3::TY] = 6;
    assert_eq!(m, Mat3::from_translation_2d(Vec2::new(5, 6)));
    let mut n = Mat4::<i32>::identity();
    n[at4::SX] = 2;
    n[at4::SY] = 3;
    n[at4::SZ] = 4;
    assert_eq!(n, Mat4::from_scale(Vec3::new(2, 3, 4)));
}

#[test]
fn the_named_places_lie_where_the_layout_puts_them() {
    let m = Mat3::from_array([0, 1, 2, 3, 4, 5, 6, 7, 8]);
    assert_eq!((m[at3::R0C0], m[at3::R1C0], m[at3::R2C0]), (0, 1, 2));
    assert_eq!((m[at3::R0C1], m[at3::R1C1], m[at3::R2C1]), (3, 4, 5));
    assert_eq!((m[at3::RX00], m[at3::RX01], m[at3::RX10], m[at3::RX11]), (4, 7, 5, 8));
    assert_eq!((m[at3::RY00], m[at3::RY01], m[at3::RY10], m[at3::RY11]), (0, 6, 2, 8));
    assert_eq!((m[at3::RZ00], m[at3::RZ01], m[at3::RZ10], m[at3::RZ11]), (0, 3, 1, 4));
    let n = Mat4::from_array([0, 1, 2, 3, 4, 5, 6, 7, 8, 9, 10, 11, 12, 13, 14, 15]);
    assert_eq!((n[at4::R0C3], n[at4::R3C0], n[at4::R2C1]), (12, 3, 6));
    assert_eq!((n[at4::TX], n[at4::TY], n[at4::TZ]), (12, 13, 14));
    assert_eq!((n[at4::SX], n[at4::SY], n[at4::SZ]), (0, 5, 10));
    assert_eq!((n[at4::RX00], n[at4::RX01], n[at4::RX10], n[at4::RX11]), (5, 9, 6, 10));
}

#[test]
fn a_matrix_times_the_identity_is_the_matrix() {
    let m = Mat3::from_rows((1, 9, 4), (2, -8, 5), (3, 7, 6));
    assert_eq!(m * &Mat3::identity(), m);
    assert_eq!(Mat3::identity() * &m, m);
    let v = Vec3::new(4, 5, 6);
    assert_eq!(&Mat3::<i32>::identity() * v, v);
}

#[test]
fn the_product_of_matrices_does_not_commute() {
    let m = Mat3::from_rows((1, 2, 0), (0, 1, 0), (0, 0, 1));
    let n = Mat3::from_rows((1, 0, 0), (3, 1, 0), (0, 0, 1));
    assert_ne!(m * &n, n * &m);
}

#[test]
fn the_inverse_of_a_matrix_of_determinant_minus_one_is_exact() {
    let m = Mat4::from_rows((0, 1, 0, 0), (1, 0, 0, 0), (0, 0, 1, 5), (0, 0, 0, 1));
    assert_eq!(m.adjugate_determinant().1, -1);
    assert_eq!(m * &m.inverse(), Mat4::identity());
}
