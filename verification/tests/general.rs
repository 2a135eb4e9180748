use ndvec::Component;
use ndvec::Vec1D;
use ndvec::Vec2D;
use ndvec::Vec3D;
use ndvec::VecND;
use ndvec::Vector;
use ndvec::VectorAssignOps;
use ndvec::VectorRefAssignOps;

/// A scalar wrapping `f32`, serving as the vector component under test.
#[derive(Clone, Copy, Debug, PartialEq)]
struct S32(f32);

impl Component for S32 {
    fn sp_add(self, rhs: Self) -> Self {
        S32(self.0 + rhs.0)
    }

    fn sp_sub(self, rhs: Self) -> Self {
        S32(self.0 - rhs.0)
    }

    fn sp_mul(self, rhs: Self) -> Self {
        S32(self.0 * rhs.0)
    }

    fn sp_div(self, rhs: Self) -> Self {
        S32(self.0 / rhs.0)
    }

    fn sp_neg(self) -> Self {
        S32(-self.0)
    }

    fn sp_zero() -> Self {
        S32(0.0)
    }

    fn sp_sqrt(self) -> Self {
        S32(self.0.sqrt())
    }

    fn sp_abs(self) -> Self {
        S32(self.0.abs())
    }

    fn sp_is_zero(self) -> bool {
        self.0 == 0.0
    }

    fn sp_is_nan(self) -> bool {
        self.0.is_nan()
    }

    fn sp_is_finite(self) -> bool {
        self.0.is_finite()
    }

    fn add(self, rhs: Self) -> Self {
        S32(self.0 + rhs.0)
    }

    fn sub(self, rhs: Self) -> Self {
        S32(self.0 - rhs.0)
    }

    fn mul(self, rhs: Self) -> Self {
        S32(self.0 * rhs.0)
    }

    fn div(self, rhs: Self) -> Self {
        S32(self.0 / rhs.0)
    }

    fn neg(self) -> Self {
        S32(-self.0)
    }

    fn zero() -> Self {
        S32(0.0)
    }

    fn sqrt(self) -> Self {
        S32(self.0.sqrt())
    }

    fn abs(self) -> Self {
        S32(self.0.abs())
    }

    fn is_zero(self) -> bool {
        self.0 == 0.0
    }

    fn is_nan(self) -> bool {
        self.0.is_nan()
    }

    fn is_finite(self) -> bool {
        self.0.is_finite()
    }
}

impl std::fmt::Display for S32 {
    fn fmt(&self, f: &mut std::fmt::Formatter<'_>) -> std::fmt::Result {
        f.write_str(&format!("{}", self.0))
    }
}

/// A scalar wrapping `f64`, serving as the vector component under test.
#[derive(Clone, Copy, Debug, PartialEq)]
struct S64(f64);

impl Component for S64 {
    fn sp_add(self, rhs: Self) -> Self {
        S64(self.0 + rhs.0)
    }

    fn sp_sub(self, rhs: Self) -> Self {
        S64(self.0 - rhs.0)
    }

    fn sp_mul(self, rhs: Self) -> Self {
        S64(self.0 * rhs.0)
    }

    fn sp_div(self, rhs: Self) -> Self {
        S64(self.0 / rhs.0)
    }

    fn sp_neg(self) -> Self {
        S64(-self.0)
    }

    fn sp_zero() -> Self {
        S64(0.0)
    }

    fn sp_sqrt(self) -> Self {
        S64(self.0.sqrt())
    }

    fn sp_abs(self) -> Self {
        S64(self.0.abs())
    }

    fn sp_is_zero(self) -> bool {
        self.0 == 0.0
    }

    fn sp_is_nan(self) -> bool {
        self.0.is_nan()
    }

    fn sp_is_finite(self) -> bool {
        self.0.is_finite()
    }

    fn add(self, rhs: Self) -> Self {
        S64(self.0 + rhs.0)
    }

    fn sub(self, rhs: Self) -> Self {
        S64(self.0 - rhs.0)
    }

    fn mul(self, rhs: Self) -> Self {
        S64(self.0 * rhs.0)
    }

    fn div(self, rhs: Self) -> Self {
        S64(self.0 / rhs.0)
    }

    fn neg(self) -> Self {
        S64(-self.0)
    }

    fn zero() -> Self {
        S64(0.0)
    }

    fn sqrt(self) -> Self {
        S64(self.0.sqrt())
    }

    fn abs(self) -> Self {
        S64(self.0.abs())
    }

    fn is_zero(self) -> bool {
        self.0 == 0.0
    }

    fn is_nan(self) -> bool {
        self.0.is_nan()
    }

    fn is_finite(self) -> bool {
        self.0.is_finite()
    }
}

impl std::fmt::Display for S64 {
    fn fmt(&self, f: &mut std::fmt::Formatter<'_>) -> std::fmt::Result {
        f.write_str(&format!("{}", self.0))
    }
}

impl<const N: usize> std::ops::Mul<VecND<S32, N>> for S32 {
    type Output = VecND<S32, N>;

    fn mul(self, rhs: VecND<S32, N>) -> VecND<S32, N> {
        rhs.left_mul(self)
    }
}

impl<const N: usize> std::ops::Mul<&VecND<S32, N>> for S32 {
    type Output = VecND<S32, N>;

    fn mul(self, rhs: &VecND<S32, N>) -> VecND<S32, N> {
        (*rhs).left_mul(self)
    }
}

impl<const N: usize> std::ops::Mul<VecND<S32, N>> for &S32 {
    type Output = VecND<S32, N>;

    fn mul(self, rhs: VecND<S32, N>) -> VecND<S32, N> {
        rhs.left_mul(*self)
    }
}

impl<const N: usize> std::ops::Mul<&VecND<S32, N>> for &S32 {
    type Output = VecND<S32, N>;

    fn mul(self, rhs: &VecND<S32, N>) -> VecND<S32, N> {
        (*rhs).left_mul(*self)
    }
}

impl<const N: usize> std::ops::Mul<VecND<S64, N>> for S64 {
    type Output = VecND<S64, N>;

    fn mul(self, rhs: VecND<S64, N>) -> VecND<S64, N> {
        rhs.left_mul(self)
    }
}

impl<const N: usize> std::ops::Mul<&VecND<S64, N>> for S64 {
    type Output = VecND<S64, N>;

    fn mul(self, rhs: &VecND<S64, N>) -> VecND<S64, N> {
        (*rhs).left_mul(self)
    }
}

impl<const N: usize> std::ops::Mul<VecND<S64, N>> for &S64 {
    type Output = VecND<S64, N>;

    fn mul(self, rhs: VecND<S64, N>) -> VecND<S64, N> {
        rhs.left_mul(*self)
    }
}

impl<const N: usize> std::ops::Mul<&VecND<S64, N>> for &S64 {
    type Output = VecND<S64, N>;

    fn mul(self, rhs: &VecND<S64, N>) -> VecND<S64, N> {
        (*rhs).left_mul(*self)
    }
}
fn nd_check_norm_sqr<V: Vector + std::fmt::Debug>(v: V, a: V::Cmp) where
    V::Cmp: std::fmt::Debug + std::fmt::Display + PartialEq,
{
    assert_eq!(v.norm_sqr(), a, "sqrt({v:?}) != {a}");
}

fn nd_check_dot<V: Vector + std::fmt::Debug>(a: V, b: V, p: V::Cmp) where
    V::Cmp: std::fmt::Debug + std::fmt::Display + PartialEq,
{
    assert_eq!(a.dot(b), p, "{a:?} dot {b:?} != {p}");
}

fn nd_check_norm<V: Vector + std::fmt::Debug>(v: V, a: V::Cmp) where
    V::Cmp: std::fmt::Debug + std::fmt::Display + PartialEq,
{
    assert_eq!(v.norm(), a, "sqrt({v:?}) != {a}");
}

#[test]
fn tests_norm_sqr() {
    nd_check_norm_sqr(VecND::from([S32(2.0)]), S32(4.0));
    nd_check_norm_sqr(VecND::from([S64(-3.0)]), S64(9.0));
    nd_check_norm_sqr(VecND::from([S32(2.0), S32(3.0)]), S32(13.0));
    nd_check_norm_sqr(VecND::from([S64(-4.0), S64(3.0)]), S64(25.0));
    nd_check_norm_sqr(VecND::from([S32(3.0), S32(4.0), S32(5.0)]), S32(50.0));
    nd_check_norm_sqr(VecND::from([S64(-4.0), S64(3.0), S64(2.0)]), S64(29.0));
}

#[test]
fn tests_dot() {
    nd_check_dot(VecND::from([S32(2.0)]), VecND::from([S32(5.0)]), S32(10.0));
    nd_check_dot(VecND::from([S64(2.0)]), VecND::from([S64(-4.0)]), S64(-8.0));
    nd_check_dot(VecND::from([S32(2.0), S32(3.0)]), VecND::from([S32(3.0), S32(5.0)]), S32(21.0));
    nd_check_dot(VecND::from([S64(-5.0), S64(8.0)]), VecND::from([S64(6.0), S64(9.0)]), S64(42.0));
    nd_check_dot(
        VecND::from([S32(10.0), S32(-8.0), S32(6.0)]),
        VecND::from([S32(3.0), S32(-5.0), S32(7.0)]),
        S32(112.0),
    );
    nd_check_dot(
        VecND::from([S64(2.0), S64(3.0), S64(4.0)]),
        VecND::from([S64(3.0), S64(4.0), S64(-5.0)]),
        S64(-2.0),
    );
}

#[test]
fn tests_is_finite() {
    assert!(!VecND::from([S64(f64::NAN)]).is_finite());
    assert!(VecND::from([S64(0.0)]).is_finite());
    assert!(!VecND::from([S64(f64::NAN), S64(f64::NAN)]).is_finite());
    assert!(!VecND::from([S64(f64::INFINITY), S64(0.0)]).is_finite());
    assert!(!VecND::from([S64(0.0), S64(f64::INFINITY)]).is_finite());
    assert!(VecND::from([S64(0.0), S64(0.0)]).is_finite());
    assert!(!VecND::from([S64(f64::NAN), S64(f64::NAN), S64(f64::NAN)]).is_finite());
    assert!(!VecND::from([S64(f64::NAN), S64(f64::INFINITY), S64(0.0)]).is_finite());
    assert!(!VecND::from([S64(f64::NAN), S64(0.0), S64(f64::INFINITY)]).is_finite());
    assert!(!VecND::from([S64(f64::INFINITY), S64(0.0), S64(0.0)]).is_finite());
    assert!(!VecND::from([S64(0.0), S64(f64::INFINITY), S64(f64::INFINITY)]).is_finite());
    assert!(!VecND::from([S64(0.0), S64(f64::NAN), S64(0.0)]).is_finite());
    assert!(!VecND::from([S64(0.0), S64(0.0), S64(f64::NAN)]).is_finite());
    assert!(VecND::from([S64(0.0), S64(0.0), S64(0.0)]).is_finite());
}

#[test]
fn tests_has_nan() {
    assert!(VecND::from([S64(f64::NAN)]).has_nan());
    assert!(!VecND::from([S64(0.0)]).has_nan());
    assert!(VecND::from([S64(f64::NAN), S64(f64::NAN)]).has_nan());
    assert!(VecND::from([S64(f64::NAN), S64(0.0)]).has_nan());
    assert!(VecND::from([S64(0.0), S64(f64::NAN)]).has_nan());
    assert!(!VecND::from([S64(0.0), S64(0.0)]).has_nan());
    assert!(VecND::from([S64(f64::NAN), S64(f64::NAN), S64(f64::NAN)]).has_nan());
    assert!(VecND::from([S64(f64::NAN), S64(f64::NAN), S64(0.0)]).has_nan());
    assert!(VecND::from([S64(f64::NAN), S64(0.0), S64(f64::NAN)]).has_nan());
    assert!(VecND::from([S64(f64::NAN), S64(0.0), S64(0.0)]).has_nan());
    assert!(VecND::from([S64(0.0), S64(f64::NAN), S64(f64::NAN)]).has_nan());
    assert!(VecND::from([S64(0.0), S64(f64::NAN), S64(0.0)]).has_nan());
    assert!(VecND::from([S64(0.0), S64(0.0), S64(f64::NAN)]).has_nan());
    assert!(!VecND::from([S64(0.0), S64(0.0), S64(0.0)]).has_nan());
}

#[test]
fn tests_norm() {
    nd_check_norm(VecND::from([S32(2.0)]), S32(2.0));
    nd_check_norm(VecND::from([S64(-3.0)]), S64(3.0));
    nd_check_norm(VecND::from([S32(5.0), S32(12.0)]), S32(13.0));
    nd_check_norm(VecND::from([S64(-4.0), S64(3.0)]), S64(5.0));
    nd_check_norm(VecND::from([S32(2.0), S32(3.0), S32(6.0)]), S32(7.0));
    nd_check_norm(VecND::from([S64(-9.0), S64(6.0), S64(2.0)]), S64(11.0));
}

#[test]
fn tests_distance() {
    assert_eq!(VecND::from([S64(1.0)]).distance(VecND::from([S64(3.0)])), S64(2.0));
    assert_eq!(
        VecND::from([S64(1.0), S64(2.0)]).distance(VecND::from([S64(5.0), S64(-1.0)])),
        S64(5.0)
    );
    assert_eq!(
        VecND::from([S32(3.0), S32(2.0), S32(1.0)]).distance(VecND::from([S32(4.0), S32(-2.0), S32(9.0)])),
        S32(9.0)
    );
}

#[test]
fn tests_distance_sqr() {
    assert_eq!(VecND::from([S32(1.0)]).distance_sqr(VecND::from([S32(3.0)])), S32(4.0));
    assert_eq!(
        VecND::from([S32(1.0), S32(2.0)]).distance_sqr(VecND::from([S32(5.0), S32(-1.0)])),
        S32(25.0)
    );
    assert_eq!(
        VecND::from([S64(3.0), S64(2.0), S64(1.0)]).distance_sqr(VecND::from([S64(4.0), S64(-2.0), S64(9.0)])),
        S64(81.0)
    );
}

#[test]
fn tests_zero() {
    assert_eq!(VecND::zero(), VecND::from([S32(0.0)]));
    assert_eq!(VecND::zero(), VecND::from([S64(0.0), S64(0.0)]));
    assert_eq!(VecND::zero(), VecND::from([S32(0.0), S32(0.0), S32(0.0)]));
}

#[test]
fn tests_is_zero() {
    assert!(VecND::from([S64(0.0)]).is_zero());
    assert!(!VecND::from([S64(1.0)]).is_zero());
    assert!(VecND::from([S64(0.0), S64(0.0)]).is_zero());
    assert!(!VecND::from([S64(0.0), S64(1.0)]).is_zero());
    assert!(!VecND::from([S64(1.0), S64(0.0)]).is_zero());
    assert!(!VecND::from([S64(1.0), S64(1.0)]).is_zero());
    assert!(VecND::from([S64(0.0), S64(0.0), S64(0.0)]).is_zero());
    assert!(!VecND::from([S64(0.0), S64(0.0), S64(1.0)]).is_zero());
    assert!(!VecND::from([S64(0.0), S64(1.0), S64(0.0)]).is_zero());
    assert!(!VecND::from([S64(0.0), S64(1.0), S64(1.0)]).is_zero());
    assert!(!VecND::from([S64(1.0), S64(0.0), S64(0.0)]).is_zero());
    assert!(!VecND::from([S64(1.0), S64(0.0), S64(1.0)]).is_zero());
    assert!(!VecND::from([S64(1.0), S64(1.0), S64(0.0)]).is_zero());
    assert!(!VecND::from([S64(1.0), S64(1.0), S64(1.0)]).is_zero());
}

#[test]
fn tests_neg() {
    assert_eq!(-VecND::from([S32(2.0)]), VecND::from([S32(-2.0)]));
    assert_eq!(-&VecND::from([S64(-3.0)]), VecND::from([S64(3.0)]));
    assert_eq!(-VecND::from([S32(2.0), S32(-5.0)]), VecND::from([S32(-2.0), S32(5.0)]));
    assert_eq!(-&VecND::from([S64(-3.0), S64(-12.0)]), VecND::from([S64(3.0), S64(12.0)]));
    assert_eq!(
        -VecND::from([S32(2.0), S32(-5.0), S32(1.0)]),
        VecND::from([S32(-2.0), S32(5.0), S32(-1.0)])
    );
    assert_eq!(
        -&VecND::from([S64(-3.0), S64(-12.0), S64(5.0)]),
        VecND::from([S64(3.0), S64(12.0), S64(-5.0)])
    );
}

#[test]
fn tests_add() {
    assert_eq!(
        VecND::from([S32(1.0)]) + VecND::from([S32(4.0)]),
        VecND::from([S32(5.0)])
    );
    assert_eq!(
        VecND::from([S32(1.0)]) + &VecND::from([S32(4.0)]),
        VecND::from([S32(5.0)])
    );
    assert_eq!(
        &VecND::from([S32(1.0)]) + VecND::from([S32(4.0)]),
        VecND::from([S32(5.0)])
    );
    assert_eq!(
        &VecND::from([S32(1.0)]) + &VecND::from([S32(4.0)]),
        VecND::from([S32(5.0)])
    );

    assert_eq!(
        VecND::from([S64(1.0), S64(5.0)]) + VecND::from([S64(4.0), S64(2.0)]),
        VecND::from([S64(5.0), S64(7.0)])
    );
    assert_eq!(
        VecND::from([S64(1.0), S64(5.0)]) + &VecND::from([S64(4.0), S64(2.0)]),
        VecND::from([S64(5.0), S64(7.0)])
    );
    assert_eq!(
        &VecND::from([S64(1.0), S64(5.0)]) + VecND::from([S64(4.0), S64(2.0)]),
        VecND::from([S64(5.0), S64(7.0)])
    );
    assert_eq!(
        &VecND::from([S64(1.0), S64(5.0)]) + &VecND::from([S64(4.0), S64(2.0)]),
        VecND::from([S64(5.0), S64(7.0)])
    );

    assert_eq!(
        VecND::from([S64(1.0), S64(5.0), S64(-2.0)]) + VecND::from([S64(4.0), S64(2.0), S64(-1.0)]),
        VecND::from([S64(5.0), S64(7.0), S64(-3.0)])
    );
    assert_eq!(
        VecND::from([S64(1.0), S64(5.0), S64(-2.0)]) + &VecND::from([S64(4.0), S64(2.0), S64(-1.0)]),
        VecND::from([S64(5.0), S64(7.0), S64(-3.0)])
    );
    assert_eq!(
        &VecND::from([S64(1.0), S64(5.0), S64(-2.0)]) + VecND::from([S64(4.0), S64(2.0), S64(-1.0)]),
        VecND::from([S64(5.0), S64(7.0), S64(-3.0)])
    );
    assert_eq!(
        &VecND::from([S64(1.0), S64(5.0), S64(-2.0)]) + &VecND::from([S64(4.0), S64(2.0), S64(-1.0)]),
        VecND::from([S64(5.0), S64(7.0), S64(-3.0)])
    );
}

#[test]
fn tests_sub() {
    assert_eq!(
        VecND::from([S32(1.0)]) - VecND::from([S32(4.0)]),
        VecND::from([S32(-3.0)])
    );
    assert_eq!(
        VecND::from([S32(1.0)]) - &VecND::from([S32(4.0)]),
        VecND::from([S32(-3.0)])
    );
    assert_eq!(
        &VecND::from([S32(1.0)]) - VecND::from([S32(4.0)]),
        VecND::from([S32(-3.0)])
    );
    assert_eq!(
        &VecND::from([S32(1.0)]) - &VecND::from([S32(4.0)]),
        VecND::from([S32(-3.0)])
    );

    assert_eq!(
        VecND::from([S64(1.0), S64(5.0)]) - VecND::from([S64(4.0), S64(2.0)]),
        VecND::from([S64(-3.0), S64(3.0)])
    );
    assert_eq!(
        VecND::from([S64(1.0), S64(5.0)]) - &VecND::from([S64(4.0), S64(2.0)]),
        VecND::from([S64(-3.0), S64(3.0)])
    );
    assert_eq!(
        &VecND::from([S64(1.0), S64(5.0)]) - VecND::from([S64(4.0), S64(2.0)]),
        VecND::from([S64(-3.0), S64(3.0)])
    );
    assert_eq!(
        &VecND::from([S64(1.0), S64(5.0)]) - &VecND::from([S64(4.0), S64(2.0)]),
        VecND::from([S64(-3.0), S64(3.0)])
    );

    assert_eq!(
        VecND::from([S64(1.0), S64(5.0), S64(-2.0)]) - VecND::from([S64(4.0), S64(2.0), S64(-1.0)]),
        VecND::from([S64(-3.0), S64(3.0), S64(-1.0)])
    );
    assert_eq!(
        VecND::from([S64(1.0), S64(5.0), S64(-2.0)]) - &VecND::from([S64(4.0), S64(2.0), S64(-1.0)]),
        VecND::from([S64(-3.0), S64(3.0), S64(-1.0)])
    );
    assert_eq!(
        &VecND::from([S64(1.0), S64(5.0), S64(-2.0)]) - VecND::from([S64(4.0), S64(2.0), S64(-1.0)]),
        VecND::from([S64(-3.0), S64(3.0), S64(-1.0)])
    );
    assert_eq!(
        &VecND::from([S64(1.0), S64(5.0), S64(-2.0)]) - &VecND::from([S64(4.0), S64(2.0), S64(-1.0)]),
        VecND::from([S64(-3.0), S64(3.0), S64(-1.0)])
    );
}

#[test]
fn tests_mul() {
    assert_eq!(VecND::from([S32(4.0)]) * S32(3.0), VecND::from([S32(12.0)]));
    assert_eq!(VecND::from([S32(4.0)]) * &S32(3.0), VecND::from([S32(12.0)]));
    assert_eq!(&VecND::from([S32(4.0)]) * S32(3.0), VecND::from([S32(12.0)]));
    assert_eq!(&VecND::from([S32(4.0)]) * &S32(3.0), VecND::from([S32(12.0)]));

    assert_eq!(
        VecND::from([S64(2.0), S64(3.0)]) * S64(-5.0),
        VecND::from([S64(-10.0), S64(-15.0)])
    );
    assert_eq!(
        VecND::from([S64(2.0), S64(3.0)]) * &S64(-5.0),
        VecND::from([S64(-10.0), S64(-15.0)])
    );
    assert_eq!(
        &VecND::from([S64(2.0), S64(3.0)]) * S64(-5.0),
        VecND::from([S64(-10.0), S64(-15.0)])
    );
    assert_eq!(
        &VecND::from([S64(2.0), S64(3.0)]) * &S64(-5.0),
        VecND::from([S64(-10.0), S64(-15.0)])
    );

    assert_eq!(
        VecND::from([S64(-1.0), S64(7.0), S64(5.0)]) * S64(-10.0),
        VecND::from([S64(10.0), S64(-70.0), S64(-50.0)])
    );
    assert_eq!(
        VecND::from([S64(-1.0), S64(7.0), S64(5.0)]) * &S64(-10.0),
        VecND::from([S64(10.0), S64(-70.0), S64(-50.0)])
    );
    assert_eq!(
        &VecND::from([S64(-1.0), S64(7.0), S64(5.0)]) * S64(-10.0),
        VecND::from([S64(10.0), S64(-70.0), S64(-50.0)])
    );
    assert_eq!(
        &VecND::from([S64(-1.0), S64(7.0), S64(5.0)]) * &S64(-10.0),
        VecND::from([S64(10.0), S64(-70.0), S64(-50.0)])
    );
}

#[test]
fn tests_div() {
    assert_eq!(VecND::from([S64(12.0)]) / S64(3.0), VecND::from([S64(4.0)]));
    assert_eq!(VecND::from([S64(12.0)]) / &S64(3.0), VecND::from([S64(4.0)]));
    assert_eq!(&VecND::from([S64(12.0)]) / S64(3.0), VecND::from([S64(4.0)]));
    assert_eq!(&VecND::from([S64(12.0)]) / &S64(3.0), VecND::from([S64(4.0)]));

    assert_eq!(
        VecND::from([S32(-10.0), S32(-15.0)]) / S32(-5.0),
        VecND::from([S32(2.0), S32(3.0)])
    );
    assert_eq!(
        VecND::from([S32(-10.0), S32(-15.0)]) / &S32(-5.0),
        VecND::from([S32(2.0), S32(3.0)])
    );
    assert_eq!(
        &VecND::from([S32(-10.0), S32(-15.0)]) / S32(-5.0),
        VecND::from([S32(2.0), S32(3.0)])
    );
    assert_eq!(
        &VecND::from([S32(-10.0), S32(-15.0)]) / &S32(-5.0),
        VecND::from([S32(2.0), S32(3.0)])
    );

    assert_eq!(
        VecND::from([S32(10.0), S32(-70.0), S32(-50.0)]) / S32(-10.0),
        VecND::from([S32(-1.0), S32(7.0), S32(5.0)])
    );
    assert_eq!(
        VecND::from([S32(10.0), S32(-70.0), S32(-50.0)]) / &S32(-10.0),
        VecND::from([S32(-1.0), S32(7.0), S32(5.0)])
    );
    assert_eq!(
        &VecND::from([S32(10.0), S32(-70.0), S32(-50.0)]) / S32(-10.0),
        VecND::from([S32(-1.0), S32(7.0), S32(5.0)])
    );
    assert_eq!(
        &VecND::from([S32(10.0), S32(-70.0), S32(-50.0)]) / &S32(-10.0),
        VecND::from([S32(-1.0), S32(7.0), S32(5.0)])
    );
}

#[test]
fn tests_num_mul() {
    assert_eq!(S32(3.0) * VecND::from([S32(4.0)]), VecND::from([S32(12.0)]));
    assert_eq!(&S32(3.0) * VecND::from([S32(4.0)]), VecND::from([S32(12.0)]));
    assert_eq!(S32(3.0) * &VecND::from([S32(4.0)]), VecND::from([S32(12.0)]));
    assert_eq!(&S32(3.0) * &VecND::from([S32(4.0)]), VecND::from([S32(12.0)]));

    assert_eq!(
        S64(-5.0) * VecND::from([S64(2.0), S64(3.0)]),
        VecND::from([S64(-10.0), S64(-15.0)])
    );
    assert_eq!(
        &S64(-5.0) * VecND::from([S64(2.0), S64(3.0)]),
        VecND::from([S64(-10.0), S64(-15.0)])
    );
    assert_eq!(
        S64(-5.0) * &VecND::from([S64(2.0), S64(3.0)]),
        VecND::from([S64(-10.0), S64(-15.0)])
    );
    assert_eq!(
        &S64(-5.0) * &VecND::from([S64(2.0), S64(3.0)]),
        VecND::from([S64(-10.0), S64(-15.0)])
    );

    assert_eq!(
        S64(-10.0) * VecND::from([S64(-1.0), S64(7.0), S64(5.0)]),
        VecND::from([S64(10.0), S64(-70.0), S64(-50.0)])
    );
    assert_eq!(
        &S64(-10.0) * VecND::from([S64(-1.0), S64(7.0), S64(5.0)]),
        VecND::from([S64(10.0), S64(-70.0), S64(-50.0)])
    );
    assert_eq!(
        S64(-10.0) * &VecND::from([S64(-1.0), S64(7.0), S64(5.0)]),
        VecND::from([S64(10.0), S64(-70.0), S64(-50.0)])
    );
    assert_eq!(
        &S64(-10.0) * &VecND::from([S64(-1.0), S64(7.0), S64(5.0)]),
        VecND::from([S64(10.0), S64(-70.0), S64(-50.0)])
    );
}

#[test]
fn tests_add_assign() {
    let mut x = VecND::from([S32(1.0)]);
    x.add_assign(VecND::from([S32(4.0)]));
    assert_eq!(x, VecND::from([S32(5.0)]));
    let mut x = VecND::from([S32(1.0)]);
    x.ref_add_assign(&VecND::from([S32(4.0)]));
    assert_eq!(x, VecND::from([S32(5.0)]));

    let mut x = VecND::from([S64(1.0), S64(5.0)]);
    x.add_assign(VecND::from([S64(4.0), S64(2.0)]));
    assert_eq!(x, VecND::from([S64(5.0), S64(7.0)]));
    let mut x = VecND::from([S64(1.0), S64(5.0)]);
    x.ref_add_assign(&VecND::from([S64(4.0), S64(2.0)]));
    assert_eq!(x, VecND::from([S64(5.0), S64(7.0)]));

    let mut x = VecND::from([S64(1.0), S64(5.0), S64(-2.0)]);
    x.add_assign(VecND::from([S64(4.0), S64(2.0), S64(-1.0)]));
    assert_eq!(x, VecND::from([S64(5.0), S64(7.0), S64(-3.0)]));
    let mut x = VecND::from([S64(1.0), S64(5.0), S64(-2.0)]);
    x.ref_add_assign(&VecND::from([S64(4.0), S64(2.0), S64(-1.0)]));
    assert_eq!(x, VecND::from([S64(5.0), S64(7.0), S64(-3.0)]));
}

#[test]
fn tests_sub_assign() {
    let mut x = VecND::from([S32(1.0)]);
    x.sub_assign(VecND::from([S32(4.0)]));
    assert_eq!(x, VecND::from([S32(-3.0)]));
    let mut x = VecND::from([S32(1.0)]);
    x.ref_sub_assign(&VecND::from([S32(4.0)]));
    assert_eq!(x, VecND::from([S32(-3.0)]));

    let mut x = VecND::from([S64(1.0), S64(5.0)]);
    x.sub_assign(VecND::from([S64(4.0), S64(2.0)]));
    assert_eq!(x, VecND::from([S64(-3.0), S64(3.0)]));

    let mut x = VecND::from([S64(1.0), S64(5.0)]);
    x.ref_sub_assign(&VecND::from([S64(4.0), S64(2.0)]));
    assert_eq!(x, VecND::from([S64(-3.0), S64(3.0)]));

    let mut x = VecND::from([S64(1.0), S64(5.0), S64(-2.0)]);
    x.sub_assign(VecND::from([S64(4.0), S64(2.0), S64(-1.0)]));
    assert_eq!(x, VecND::from([S64(-3.0), S64(3.0), S64(-1.0)]));

    let mut x = VecND::from([S64(1.0), S64(5.0), S64(-2.0)]);
    x.ref_sub_assign(&VecND::from([S64(4.0), S64(2.0), S64(-1.0)]));
    assert_eq!(x, VecND::from([S64(-3.0), S64(3.0), S64(-1.0)]));
}

#[test]
fn tests_mul_assign() {
    let mut x = VecND::from([S32(4.0)]);
    x.mul_assign(S32(3.0));
    assert_eq!(x, VecND::from([S32(12.0)]));
    let mut x = VecND::from([S32(4.0)]);
    x.ref_mul_assign(&S32(3.0));
    assert_eq!(x, VecND::from([S32(12.0)]));

    let mut x = VecND::from([S64(2.0), S64(3.0)]);
    x.mul_assign(S64(-5.0));
    assert_eq!(x, VecND::from([S64(-10.0), S64(-15.0)]));
    let mut x = VecND::from([S64(2.0), S64(3.0)]);
    x.ref_mul_assign(&S64(-5.0));
    assert_eq!(x, VecND::from([S64(-10.0), S64(-15.0)]));

    let mut x = VecND::from([S64(-1.0), S64(7.0), S64(5.0)]);
    x.mul_assign(S64(-10.0));
    assert_eq!(x, VecND::from([S64(10.0), S64(-70.0), S64(-50.0)]));
    let mut x = VecND::from([S64(-1.0), S64(7.0), S64(5.0)]);
    x.ref_mul_assign(&S64(-10.0));
    assert_eq!(x, VecND::from([S64(10.0), S64(-70.0), S64(-50.0)]));
}

#[test]
fn tests_div_assign() {
    let mut x = VecND::from([S64(12.0)]);
    x.div_assign(S64(3.0));
    assert_eq!(x, VecND::from([S64(4.0)]));
    let mut x = VecND::from([S64(12.0)]);
    x.ref_div_assign(&S64(3.0));
    assert_eq!(x, VecND::from([S64(4.0)]));

    let mut x = VecND::from([S32(-10.0), S32(-15.0)]);
    x.div_assign(S32(-5.0));
    assert_eq!(x, VecND::from([S32(2.0), S32(3.0)]));
    let mut x = VecND::from([S32(-10.0), S32(-15.0)]);
    x.ref_div_assign(&S32(-5.0));
    assert_eq!(x, VecND::from([S32(2.0), S32(3.0)]));

    let mut x = VecND::from([S32(10.0), S32(-70.0), S32(-50.0)]);
    x.div_assign(S32(-10.0));
    assert_eq!(x, VecND::from([S32(-1.0), S32(7.0), S32(5.0)]));
    let mut x = VecND::from([S32(10.0), S32(-70.0), S32(-50.0)]);
    x.ref_div_assign(&S32(-10.0));
    assert_eq!(x, VecND::from([S32(-1.0), S32(7.0), S32(5.0)]));
}

#[test]
fn tests_sum() {
    assert_eq!(
        VecND::sum(&vec![VecND::from([S64(1.0)]), VecND::from([S64(3.0)]), VecND::from([S64(-2.0)])]),
        VecND::from([S64(2.0)])
    );

    assert_eq!(
        VecND::sum(&vec![VecND::from([S64(1.0), S64(5.0)]), VecND::from([S64(3.0), S64(-3.0)]), VecND::from([S64(-2.0), S64(7.0)])]),
        VecND::from([S64(2.0), S64(9.0)])
    );

    assert_eq!(
        VecND::sum(&vec![VecND::from([S32(1.0), S32(5.0), S32(2.0)]), VecND::from([S32(3.0), S32(-3.0), S32(9.0)]), VecND::from([S32(-2.0), S32(7.0), S32(-18.0)])]),
        VecND::from([S32(2.0), S32(9.0), S32(-7.0)])
    );
}

#[test]
fn from_into_arr() {
    let x: [_; 1] = VecND::from([S32(5.0)]).into();
    assert_eq!(x, [S32(5.0)]);
    let x: [_; 2] = VecND::from([S32(5.0), S32(-2.0)]).into();
    assert_eq!(x, [S32(5.0), S32(-2.0)]);
    let x: [_; 3] = VecND::from([S64(5.0), S64(-2.0), S64(7.0)]).into();
    assert_eq!(x, [S64(5.0), S64(-2.0), S64(7.0)]);
}
