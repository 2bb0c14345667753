use orbital::atom::Atom;
use orbital::camera::Camera;
use orbital::matrix::Matrix;
use orbital::molecule::Molecule;

const K: i128 = 1_000_000;

fn pair_of_degrees(angle_degrees: f64) -> (i128, i128) {
    let half = angle_degrees.to_radians() / 2.0;
    (
        (half.cos() * 1_000_000.0).round() as i128,
        (half.sin() * 1_000_000.0).round() as i128,
    )
}

/// A camera in the home pose: identity orientation, r = 2, focus at the
/// origin, fov 90 degrees (scale factor 1), near 1, far 10, screen 4:3.
fn home_camera() -> Camera {
    Camera::new(
        [0, 0, 0],
        K,
        0,
        K,
        0,
        K,
        0,
        2 * K,
        K,
        K,
        10 * K,
        800,
        600,
    )
}

#[test]
fn zoom_in_stops_at_the_floor() {
    let mut camera = home_camera();
    camera.set_angles(K, 0, K, 0, K, 0, 100_000);
    camera.zoom_in();
    assert_eq!(camera.quaternion().r(), K);
    let mut probe = camera.vp_matrix().contents();
    // r stayed at one step: zooming in again changes nothing either.
    camera.zoom_in();
    assert_eq!(probe, camera.vp_matrix().contents());
    probe = camera.view_matrix().contents();
    assert_eq!(probe[2][3], 100_000);
}

#[test]
fn five_zoom_steps_from_five_steps_reach_the_floor_and_stay_positive() {
    let mut camera = home_camera();
    camera.set_angles(K, 0, K, 0, K, 0, 500_000);
    for _ in 0..5 {
        camera.zoom_in();
        assert!(camera.view_matrix().contents()[2][3] > 0);
    }
    // 500000 -> 400000 -> 300000 -> 200000 -> 100000, then the guard holds.
    assert_eq!(camera.view_matrix().contents()[2][3], 100_000);
}

#[test]
fn zoom_out_adds_one_step() {
    let mut camera = home_camera();
    camera.zoom_out();
    assert_eq!(camera.view_matrix().contents()[2][3], 2 * K + 100_000);
}

#[test]
fn update_is_deterministic() {
    let mut one = home_camera();
    let mut two = home_camera();
    one.update();
    one.update();
    two.update();
    assert_eq!(one.view_matrix().contents(), two.view_matrix().contents());
    assert_eq!(
        one.perspective_matrix().contents(),
        two.perspective_matrix().contents()
    );
    assert_eq!(one.vp_matrix().contents(), two.vp_matrix().contents());
}

#[test]
fn home_pose_perspective_matrix() {
    let camera = home_camera();
    let p = camera.perspective_matrix().contents();
    // s = 1, aspect 4:3: s / (w / h) = 750000 horizontally, s vertically.
    assert_eq!(p[0][0], 750_000);
    assert_eq!(p[1][1], K);
    // (f + n) / (f - n) = 11 / 9; 2 f n / (n - f) = -20 / 9.
    assert_eq!(p[2][2], 1_222_222);
    assert_eq!(p[2][3], -2_222_222);
    assert_eq!(p[3][2], K);
    assert_eq!(p[3][3], 0);
}

#[test]
fn full_revolution_of_spins_returns_home() {
    let mut camera = home_camera();
    let home_view = camera.view_matrix().contents();
    for _ in 0..72 {
        camera.spin_clockwise();
    }
    // 72 steps of 5 degrees: a full revolution. The quaternion is back at
    // the identity up to the sign ambiguity of the double cover.
    let q = camera.quaternion();
    assert!(q.r().abs() >= K - 2_000, "r = {}", q.r());
    assert!(q.i().abs() <= 2_000, "i = {}", q.i());
    assert!(q.j().abs() <= 2_000, "j = {}", q.j());
    assert!(q.k().abs() <= 2_000, "k = {}", q.k());
    let view = camera.view_matrix().contents();
    for r in 0..4 {
        for c in 0..4 {
            assert!(
                (view[r][c] - home_view[r][c]).abs() <= 5_000,
                "entry {r},{c}: {} vs {}",
                view[r][c],
                home_view[r][c]
            );
        }
    }
}

#[test]
fn spin_then_counterspin_returns_home() {
    let mut camera = home_camera();
    let home_view = camera.view_matrix().contents();
    for _ in 0..10 {
        camera.spin_clockwise();
    }
    for _ in 0..10 {
        camera.spin_anticlockwise();
    }
    let view = camera.view_matrix().contents();
    for r in 0..4 {
        for c in 0..4 {
            assert!((view[r][c] - home_view[r][c]).abs() <= 2_000);
        }
    }
}

#[test]
fn focus_point_sits_at_distance_r_along_the_view_axis() {
    let mut camera = home_camera();
    let (c45, s45) = pair_of_degrees(90.0);
    camera.set_angles(c45, s45, K, 0, K, 0, 2 * K);
    // The focus point, in homogeneous coordinates.
    let out = camera.view_matrix().apply(&[0, 0, 0, K]);
    assert_eq!(out[0], 0);
    assert_eq!(out[1], 0);
    assert_eq!(out[2], 2 * K);
    assert_eq!(out[3], K);
}

#[test]
fn orbiting_moves_a_world_point_but_keeps_the_focus_fixed() {
    let mut camera = home_camera();
    let before_point = camera.view_matrix().apply(&[K, 0, 0, K]);
    camera.orbit_left();
    let after_focus = camera.view_matrix().apply(&[0, 0, 0, K]);
    let after_point = camera.view_matrix().apply(&[K, 0, 0, K]);
    // The focus is pinned at [0, 0, r, 1] whatever the orbit.
    assert_eq!(after_focus, [0, 0, 2 * K, K]);
    assert_ne!(before_point, after_point);
}

#[test]
fn screen_resize_changes_only_the_perspective() {
    let mut camera = home_camera();
    let view = camera.view_matrix().contents();
    camera.set_screen_size(600, 800);
    assert_eq!(camera.view_matrix().contents(), view);
    let p = camera.perspective_matrix().contents();
    // Portrait: the vertical axis now carries the aspect correction.
    assert_eq!(p[0][0], K);
    assert_eq!(p[1][1], 750_000);
}

#[test]
fn matrix_multiply_and_apply_agree_with_hand_calculation() {
    let a = Matrix::new([
        [K, 0, 0, 5 * K],
        [0, K, 0, 0],
        [0, 0, 2 * K, 0],
        [0, 0, 0, K],
    ]);
    let b = Matrix::new([
        [K, 0, 0, 0],
        [0, 3 * K, 0, 0],
        [0, 0, K, 7 * K],
        [0, 0, 0, K],
    ]);
    let c = a.multiply(&b).contents();
    assert_eq!(c[0][0], K);
    assert_eq!(c[0][3], 5 * K);
    assert_eq!(c[1][1], 3 * K);
    assert_eq!(c[2][2], 2 * K);
    assert_eq!(c[2][3], 14 * K);
    assert_eq!(c[3][3], K);
    let v = a.apply(&[K, 2 * K, 3 * K, K]);
    assert_eq!(v, [6 * K, 2 * K, 6 * K, K]);
}

#[test]
fn atom_model_matrix_scales_and_translates() {
    let atom = Atom::new(200_000, [K, 2 * K, -K]);
    let m = atom.model_matrix().contents();
    assert_eq!(m[0][0], 200_000);
    assert_eq!(m[1][1], 200_000);
    assert_eq!(m[2][2], 200_000);
    assert_eq!(m[0][3], K);
    assert_eq!(m[1][3], 2 * K);
    assert_eq!(m[2][3], -K);
    assert_eq!(m[3][3], K);
}

#[test]
fn billboard_rotation_against_home_camera_keeps_the_transform() {
    let camera = home_camera();
    let mut atom = Atom::new(200_000, [K, 2 * K, -K]);
    let before = atom.model_matrix().contents();
    atom.rotate_against_camera(&camera);
    // The home orientation is the identity: the billboard transform is the
    // plain scale-and-translate matrix.
    assert_eq!(atom.model_matrix().contents(), before);
}

#[test]
fn molecule_rotates_every_atom() {
    let mut camera = home_camera();
    camera.orbit_right();
    let mut molecule = Molecule::new();
    molecule.add_atom(100_000, [0, 0, 0]);
    molecule.add_atom(400_000, [K, K, K]);
    let before: Vec<_> = molecule
        .atoms()
        .iter()
        .map(|a| a.model_matrix().contents())
        .collect();
    molecule.rotate_atoms_against_camera(&camera);
    let after: Vec<_> = molecule
        .atoms()
        .iter()
        .map(|a| a.model_matrix().contents())
        .collect();
    assert_eq!(before.len(), 2);
    // The rotation block changed for both atoms; translations are kept.
    for i in 0..2 {
        assert_ne!(before[i], after[i]);
        assert_eq!(before[i][0][3], after[i][0][3]);
        assert_eq!(before[i][1][3], after[i][1][3]);
        assert_eq!(before[i][2][3], after[i][2][3]);
    }
}

#[test]
fn square_screen_needs_no_aspect_correction() {
    let mut camera = home_camera();
    camera.set_screen_size(700, 700);
    let p = camera.perspective_matrix().contents();
    assert_eq!(p[0][0], K);
    assert_eq!(p[1][1], K);
}

#[test]
fn negative_angles_tilt_the_other_way() {
    let mut up = home_camera();
    let mut down = home_camera();
    let (c, s) = pair_of_degrees(30.0);
    up.set_angles(c, s, K, 0, K, 0, 2 * K);
    down.set_angles(c, -s, K, 0, K, 0, 2 * K);
    let qu = up.quaternion();
    let qd = down.quaternion();
    assert_eq!(qu.r(), qd.r());
    assert_eq!(qu.i(), -qd.i());
    // A world point off the tilt axis moves oppositely in depth.
    let pu = up.view_matrix().apply(&[0, K, 0, K]);
    let pd = down.view_matrix().apply(&[0, K, 0, K]);
    assert_eq!(pu[0], pd[0]);
    assert_ne!(pu[2], pd[2]);
}

#[test]
fn set_angles_composes_spin_orbit_azimuth() {
    let mut camera = home_camera();
    // theta (azimuth, x) and phi (orbit, y) both 2*atan(0.8/0.6), psi zero:
    // q = Qy(phi) * Qx(theta), whose k component is -sin * sin = -0.64.
    // The reversed order Qx * Qy would give +0.64 instead.
    camera.set_angles(600_000, 800_000, 600_000, 800_000, K, 0, 2 * K);
    let q = camera.quaternion();
    assert_eq!(q.r(), 360_000);
    assert_eq!(q.i(), 480_000);
    assert_eq!(q.j(), 480_000);
    assert_eq!(q.k(), -640_000);
}

#[test]
fn clip_planes_may_sit_closer_than_one_unit() {
    // near 1.0, far 1.5: a legitimate configuration.
    let camera = Camera::new(
        [0, 0, 0],
        K,
        0,
        K,
        0,
        K,
        0,
        2 * K,
        K,
        K,
        1_500_000,
        800,
        600,
    );
    let p = camera.perspective_matrix().contents();
    // (f + n) / (f - n) = 2.5 / 0.5 = 5; 2 f n / (n - f) = 3 / -0.5 = -6.
    assert_eq!(p[2][2], 5 * K);
    assert_eq!(p[2][3], -6 * K);
}
