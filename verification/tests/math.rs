use gpgpu::math::{Identity, Polynomial};
use gpgpu::plane::{origin, Plane, Point};

#[test]
fn polynomial_degree_counts_coefficients() {
    let p = Polynomial::new(vec![1i64, 2, 3]);
    assert_eq!(p.degree(), 3);
    let q: Polynomial<i64> = Polynomial::new(vec![]);
    assert_eq!(q.degree(), 0);
}

#[test]
fn polynomial_eval_is_textbook_value() {
    // 1 + 2x + 3x^2 at x = 2 is 17
    let p = Polynomial::new(vec![1i64, 2, 3]);
    assert_eq!(p.eval(2), 17);
    assert_eq!(p.eval(0), 1);
    assert_eq!(p.eval(-1), 2);
    let q: Polynomial<i64> = Polynomial::new(vec![]);
    assert_eq!(q.eval(5), 0);
    let r = Polynomial::new(vec![0u32, 0, 0, 1]);
    assert_eq!(r.eval(3), 27);
}

#[test]
fn identity_is_one() {
    assert_eq!(<i64 as Identity>::identity(), 1);
    assert_eq!(<u8 as Identity>::identity(), 1);
}

#[test]
fn origin_is_default_point() {
    let p: Point<i32> = origin();
    assert_eq!((p.x(), p.y()), (0, 0));
}

#[test]
fn point_dot_translate_scale() {
    let a: Point<i64> = (2, 3).into();
    let b: Point<i64> = (5, -7).into();
    assert_eq!(a.dot(b), 10 - 21);
    let t = a.translate(b);
    assert_eq!((t.x(), t.y()), (7, -4));
    let s = a.scale(4);
    assert_eq!((s.x(), s.y()), (8, 12));
    let n = -a;
    assert_eq!((n.x(), n.y()), (-2, -3));
    let sum = a + b;
    assert_eq!((sum.x(), sum.y()), (7, -4));
}

#[derive(Clone, Copy, Debug, PartialEq)]
struct N(i64);

impl std::ops::Add for N {
    type Output = N;

    fn add(self, o: N) -> N {
        N(self.0 + o.0)
    }
}

impl std::ops::Mul for N {
    type Output = N;

    fn mul(self, o: N) -> N {
        N(self.0 * o.0)
    }
}

impl gpgpu::math::Sqrt for N {
    type Output = N;

    fn sqrt(self) -> N {
        let mut r = 0i64;
        while (r + 1) * (r + 1) <= self.0 {
            r += 1;
        }
        N(r)
    }
}

#[test]
fn point_length_is_euclidean() {
    // x * x + y * y = 9 + 16 = 25, root 5
    let a: Point<N> = (N(3), N(4)).into();
    assert_eq!(a.length(), N(5));
    let b: Point<N> = (N(0), N(7)).into();
    assert_eq!(b.length(), N(7));
}

#[test]
fn plane_point_for_evaluates_both_polynomials() {
    let plane = Plane::new(Polynomial::new(vec![1i64, 1]), Polynomial::new(vec![0i64, 0, 1]));
    let p = plane.point_for(3);
    assert_eq!((p.x(), p.y()), (4, 9));
}
