//! The view matrix: the eye maps to the view-space origin, and the whole
//! matrix matches the reference look-at, bit for bit.

use cgmath::{Matrix4, Point3, Vector3};
use mvp_math::transform::create_view;

fn b(x: f32) -> u32 {
    x.to_bits()
}

fn b3(v: [f32; 3]) -> [u32; 3] {
    [b(v[0]), b(v[1]), b(v[2])]
}

fn from_cg(m: Matrix4<f32>) -> [u32; 16] {
    let a: &[f32; 16] = m.as_ref();
    let mut r = [0u32; 16];
    for k in 0..16 {
        r[k] = a[k].to_bits();
    }
    r
}

/// Column-major matrix times column vector, in double precision.
fn apply(m: &[u32; 16], v: [f64; 4]) -> [f64; 4] {
    let e = m.map(|x| f32::from_bits(x) as f64);
    let mut r = [0.0f64; 4];
    for i in 0..4 {
        r[i] = e[i] * v[0] + e[4 + i] * v[1] + e[8 + i] * v[2] + e[12 + i] * v[3];
    }
    r
}

const CASES: [([f32; 3], [f32; 3], [f32; 3]); 4] = [
    ([3.0, 1.5, 3.0], [0.0, 0.0, 0.0], [0.0, 1.0, 0.0]),
    ([0.0, 0.0, 5.0], [0.0, 0.0, 0.0], [0.0, 1.0, 0.0]),
    ([-2.5, 4.0, 1.25], [1.0, -1.0, 0.5], [0.0, 1.0, 0.0]),
    ([10.0, -3.0, 7.5], [2.0, 2.0, -4.0], [0.25, 0.9, -0.1]),
];

#[test]
fn view_matrix_sends_eye_to_origin() {
    for (eye, target, up) in CASES {
        let view = create_view(b3(eye), b3(target), b3(up)).entries();
        let mapped = apply(&view, [eye[0] as f64, eye[1] as f64, eye[2] as f64, 1.0]);
        assert!(mapped[0].abs() <= 1.0e-5, "x: {}", mapped[0]);
        assert!(mapped[1].abs() <= 1.0e-5, "y: {}", mapped[1]);
        assert!(mapped[2].abs() <= 1.0e-5, "z: {}", mapped[2]);
        assert!((mapped[3] - 1.0).abs() <= 1.0e-6, "w: {}", mapped[3]);
    }
}

#[test]
fn view_matrix_matches_reference_bits() {
    for (eye, target, up) in CASES {
        let ours = create_view(b3(eye), b3(target), b3(up)).entries();
        let reference = from_cg(Matrix4::look_at_rh(
            Point3::new(eye[0], eye[1], eye[2]),
            Point3::new(target[0], target[1], target[2]),
            Vector3::new(up[0], up[1], up[2]),
        ));
        assert_eq!(ours, reference);
    }
}

#[test]
fn degenerate_look_direction_gives_nan_entries() {
    // Eye equal to the target: the forward vector has length zero and the
    // matrix degenerates silently instead of failing.
    let view = create_view(b3([1.0, 2.0, 3.0]), b3([1.0, 2.0, 3.0]), b3([0.0, 1.0, 0.0]))
        .entries();
    assert!(view.iter().any(|x| f32::from_bits(*x).is_nan()));
}
