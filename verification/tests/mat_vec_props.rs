//! Matrix and vector arithmetic against cgmath, bit for bit.

use cgmath::{InnerSpace, Matrix4, Vector3};
use mvp_math::mat4::Mat4;
use mvp_math::vec3::{vec3_cross, vec3_dot, vec3_normalize, vec3_sub};

fn b(x: f32) -> u32 {
    x.to_bits()
}

fn b3(v: [f32; 3]) -> [u32; 3] {
    [b(v[0]), b(v[1]), b(v[2])]
}

fn from_cg(m: Matrix4<f32>) -> [u32; 16] {
    let a: &[f32; 16] = m.as_ref();
    let mut r = [0u32; 16];
    for k in 0..16 {
        r[k] = a[k].to_bits();
    }
    r
}

fn mat(entries: [f32; 16]) -> Mat4 {
    let mut e = [0u32; 16];
    for k in 0..16 {
        e[k] = entries[k].to_bits();
    }
    Mat4::from_entries(e)
}

fn cg(e: [f32; 16]) -> Matrix4<f32> {
    Matrix4::new(
        e[0], e[1], e[2], e[3], e[4], e[5], e[6], e[7], e[8], e[9], e[10], e[11], e[12], e[13],
        e[14], e[15],
    )
}

#[test]
fn dot_product_exact_value() {
    // (1 * 4 + 2 * 5) + 3 * 6 = 32, exactly representable.
    let r = vec3_dot(&b3([1.0, 2.0, 3.0]), &b3([4.0, 5.0, 6.0]));
    assert_eq!(r, b(32.0));
}

#[test]
fn vector_ops_match_cgmath() {
    let pairs = [
        ([0.3f32, -1.7, 2.9], [1.1f32, 0.4, -0.2]),
        ([100.5, 0.001, -3.75], [-0.3, 9.125, 2.5]),
        ([1.0, 0.0, 0.0], [0.0, 1.0, 0.0]),
    ];
    for (x, y) in pairs {
        let a = Vector3::new(x[0], x[1], x[2]);
        let c = Vector3::new(y[0], y[1], y[2]);
        assert_eq!(vec3_dot(&b3(x), &b3(y)), b(a.dot(c)));
        let cr = a.cross(c);
        assert_eq!(vec3_cross(&b3(x), &b3(y)), b3([cr.x, cr.y, cr.z]));
        let s = a - c;
        assert_eq!(vec3_sub(&b3(x), &b3(y)), b3([s.x, s.y, s.z]));
        let n = a.normalize();
        assert_eq!(vec3_normalize(&b3(x)), b3([n.x, n.y, n.z]));
    }
}

#[test]
fn normalize_of_zero_vector_degenerates_to_nan() {
    let r = vec3_normalize(&b3([0.0, 0.0, 0.0]));
    for component in r {
        assert!(f32::from_bits(component).is_nan());
    }
}

#[test]
fn matrix_multiply_matches_cgmath() {
    let p = mat([
        0.5, -1.25, 3.0, 0.75, 2.5, 0.125, -0.625, 1.0, -2.0, 4.5, 0.25, -0.5, 1.5, 2.25, -3.5,
        0.875,
    ]);
    let q = mat([
        1.0, 2.0, -0.5, 0.25, -1.75, 0.375, 2.125, -0.125, 0.625, -2.25, 1.375, 3.0, -0.875, 0.75,
        -1.125, 2.625,
    ]);
    let pc = cg(p.entries().map(f32::from_bits));
    let qc = cg(q.entries().map(f32::from_bits));
    assert_eq!(p.multiply(&q).entries(), from_cg(pc * qc));
    assert_eq!(q.multiply(&p).entries(), from_cg(qc * pc));
}

#[test]
fn rotation_constructors_match_cgmath() {
    for theta in [0.0f32, 0.5, -1.2, 3.0] {
        let (s, c) = (theta.sin(), theta.cos());
        assert_eq!(
            Mat4::rotation_x(b(s), b(c)).entries(),
            from_cg(Matrix4::from_angle_x(cgmath::Rad(theta)))
        );
        assert_eq!(
            Mat4::rotation_y(b(s), b(c)).entries(),
            from_cg(Matrix4::from_angle_y(cgmath::Rad(theta)))
        );
        assert_eq!(
            Mat4::rotation_z(b(s), b(c)).entries(),
            from_cg(Matrix4::from_angle_z(cgmath::Rad(theta)))
        );
    }
}

#[test]
fn translation_and_scale_constructors_match_cgmath() {
    let t = [0.5f32, -2.75, 8.0];
    assert_eq!(
        Mat4::from_translation(&b3(t)).entries(),
        from_cg(Matrix4::from_translation(Vector3::new(t[0], t[1], t[2])))
    );
    let s = [1.5f32, 0.25, -3.0];
    assert_eq!(
        Mat4::from_nonuniform_scale(&b3(s)).entries(),
        from_cg(Matrix4::from_nonuniform_scale(s[0], s[1], s[2]))
    );
}
