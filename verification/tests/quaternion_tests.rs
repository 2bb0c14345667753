use orbital::fixed::{fdiv, fmul, isqrt, SCALE};
use orbital::quaternion::Quaternion;

fn norm_sq(q: &Quaternion) -> i128 {
    q.r() * q.r() + q.i() * q.i() + q.j() * q.j() + q.k() * q.k()
}

fn from_f64(x: f64) -> i128 {
    (x * 1_000_000.0).round() as i128
}

#[test]
fn fixed_point_products_are_exact_on_round_values() {
    assert_eq!(fmul(2_500_000, 4_000_000), 10_000_000);
    assert_eq!(fmul(-2_500_000, 4_000_000), -10_000_000);
    assert_eq!(fdiv(10_000_000, 4_000_000), 2_500_000);
    // Truncation is toward zero on both sides.
    assert_eq!(fmul(-1, 1), 0);
    assert_eq!(fmul(1, -1), 0);
}

#[test]
fn integer_square_root_brackets() {
    assert_eq!(isqrt(0), 0);
    assert_eq!(isqrt(15), 3);
    assert_eq!(isqrt(16), 4);
    assert_eq!(isqrt(1_000_000_000_000), 1_000_000);
    let s = isqrt(2_000_000_000_000);
    assert!(s as u128 * s as u128 <= 2_000_000_000_000);
    assert!((s + 1) as u128 * (s + 1) as u128 > 2_000_000_000_000);
}

#[test]
fn normalise_restores_unit_norm() {
    // A drifted quaternion, a few percent off unit norm.
    let mut q = Quaternion::new(1_010_000, 30_000, -20_000, 5_000);
    q.normalise();
    let n = norm_sq(&q);
    // Within 1e-5 of one (squared norm scale is SCALE * SCALE).
    assert!((n - 1_000_000_000_000).abs() <= 10_000_000, "norm_sq = {n}");
}

#[test]
fn normalise_of_exact_unit_is_identity_map() {
    let mut q = Quaternion::new(600_000, 800_000, 0, 0);
    q.normalise();
    assert_eq!(q.r(), 600_000);
    assert_eq!(q.i(), 800_000);
    assert_eq!(q.j(), 0);
    assert_eq!(q.k(), 0);
}

#[test]
fn rotation_matrix_is_orthogonal_for_unit_quaternion() {
    // A rotation of 73 degrees about an oblique axis.
    let half = 73.0_f64.to_radians() / 2.0;
    let (ax, ay, az) = (2.0 / 3.0, -1.0 / 3.0, 2.0 / 3.0);
    let mut q = Quaternion::new(
        from_f64(half.cos()),
        from_f64(half.sin() * ax),
        from_f64(half.sin() * ay),
        from_f64(half.sin() * az),
    );
    q.normalise();
    let m = q.rotation_matrix().contents();
    let tol: i128 = 100_000_000; // 1e-4 of the squared scale
    for c1 in 0..3 {
        for c2 in 0..3 {
            let dot: i128 = (0..3).map(|t| m[t][c1] * m[t][c2]).sum();
            let expect = if c1 == c2 { 1_000_000_000_000 } else { 0 };
            assert!((dot - expect).abs() <= tol, "col {c1} . col {c2} = {dot}");
        }
    }
    // Determinant of the 3x3 block is +1 (scale SCALE^3), not -1.
    let det = m[0][0] * (m[1][1] * m[2][2] - m[1][2] * m[2][1])
        - m[0][1] * (m[1][0] * m[2][2] - m[1][2] * m[2][0])
        + m[0][2] * (m[1][0] * m[2][1] - m[1][1] * m[2][0]);
    let one = 1_000_000_000_000_000_000_i128;
    assert!((det - one).abs() <= one / 1_000, "det = {det}");
}

#[test]
fn multiplying_by_inverse_gives_identity() {
    let half = 0.7_f64;
    let mut q = Quaternion::new(
        from_f64(half.cos()),
        from_f64(half.sin() * 0.36),
        from_f64(half.sin() * 0.48),
        from_f64(half.sin() * 0.8),
    );
    q.normalise();
    let mut inv = q;
    inv.invert();
    let p = q.multiply(&inv);
    assert_eq!(p.i(), 0);
    assert_eq!(p.j(), 0);
    assert_eq!(p.k(), 0);
    assert!((p.r() - SCALE).abs() <= 13, "real part = {}", p.r());
}

#[test]
fn hamilton_product_is_associative_within_rounding() {
    let a = Quaternion::new(973_249, 189_251, -100_221, 84_715);
    let b = Quaternion::new(500_000, -500_000, 500_000, 500_000);
    let c = Quaternion::new(-12_345, 999_800, 7_070, -3_141);
    let ab_c = a.multiply(&b).multiply(&c);
    let a_bc = a.multiply(&b.multiply(&c));
    for (x, y) in [
        (ab_c.r(), a_bc.r()),
        (ab_c.i(), a_bc.i()),
        (ab_c.j(), a_bc.j()),
        (ab_c.k(), a_bc.k()),
    ] {
        assert!((x - y).abs() <= 10, "{x} vs {y}");
    }
}

#[test]
fn hamilton_product_is_not_commutative() {
    let a = Quaternion::new(0, 1_000_000, 0, 0);
    let b = Quaternion::new(0, 0, 1_000_000, 0);
    let ab = a.multiply(&b);
    let ba = b.multiply(&a);
    // i * j == k but j * i == -k.
    assert_eq!(ab.k(), 1_000_000);
    assert_eq!(ba.k(), -1_000_000);
    assert_ne!(ab.k(), ba.k());
}

#[test]
fn left_and_right_multiply_compose_in_opposite_orders() {
    let a = Quaternion::new(973_249, 189_251, -100_221, 84_715);
    let b = Quaternion::new(500_000, -500_000, 500_000, 500_000);
    let mut left = a;
    left.left_multiply(&b);
    let expect_left = b.multiply(&a);
    assert_eq!(left.r(), expect_left.r());
    assert_eq!(left.i(), expect_left.i());
    assert_eq!(left.j(), expect_left.j());
    assert_eq!(left.k(), expect_left.k());
    let mut right = a;
    right.right_multiply(&b);
    let expect_right = a.multiply(&b);
    assert_eq!(right.r(), expect_right.r());
    assert_eq!(right.i(), expect_right.i());
    assert_eq!(right.j(), expect_right.j());
    assert_eq!(right.k(), expect_right.k());
}

#[test]
fn integer_square_root_at_the_top_of_the_range() {
    let top = u128::MAX;
    let s = isqrt(top);
    assert_eq!(s, u64::MAX as u128);
}
