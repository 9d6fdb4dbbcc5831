use mat4::Matrix;

fn floats(m: &Matrix) -> [f32; 16] {
    let raw = m.raw();
    let mut out = [0.0f32; 16];
    let mut i: usize = 0;
    while i < 16 {
        out[i] = f32::from_bits(raw[i]);
        i += 1;
    }
    out
}

fn close(a: f32, b: f32) -> bool {
    (a - b).abs() <= 1e-6
}

const IDENTITY: [f32; 16] = [
    1.0, 0.0, 0.0, 0.0,
    0.0, 1.0, 0.0, 0.0,
    0.0, 0.0, 1.0, 0.0,
    0.0, 0.0, 0.0, 1.0,
];

#[test]
fn identity_law() {
    let m = Matrix::unit();
    assert_eq!(floats(&m), IDENTITY);
    let expected_bits: [u32; 16] = [
        1.0f32.to_bits(), 0, 0, 0,
        0, 1.0f32.to_bits(), 0, 0,
        0, 0, 1.0f32.to_bits(), 0,
        0, 0, 0, 1.0f32.to_bits(),
    ];
    assert_eq!(m.raw(), expected_bits);
}

#[test]
fn new_equals_unit() {
    assert_eq!(Matrix::new().raw(), Matrix::unit().raw());
}

#[test]
fn translate_then_read() {
    let m = Matrix::unit().translate(2.0f32.to_bits(), 3.0f32.to_bits(), 4.0f32.to_bits());
    let expected: [f32; 16] = [
        1.0, 0.0, 0.0, 0.0,
        0.0, 1.0, 0.0, 0.0,
        0.0, 0.0, 1.0, 0.0,
        2.0, 3.0, 4.0, 1.0,
    ];
    assert_eq!(floats(&m), expected);
}

#[test]
fn translate_accumulates() {
    let m = Matrix::unit()
        .translate(1.0f32.to_bits(), 2.0f32.to_bits(), 3.0f32.to_bits())
        .translate(10.0f32.to_bits(), 20.0f32.to_bits(), 30.0f32.to_bits());
    let expected: [f32; 16] = [
        1.0, 0.0, 0.0, 0.0,
        0.0, 1.0, 0.0, 0.0,
        0.0, 0.0, 1.0, 0.0,
        11.0, 22.0, 33.0, 1.0,
    ];
    assert_eq!(floats(&m), expected);
}

#[test]
fn scale_composition() {
    let one = 1.0f32.to_bits();
    let m = Matrix::unit()
        .scale(2.0f32.to_bits(), one, one)
        .scale(one, 3.0f32.to_bits(), one);
    let expected: [f32; 16] = [
        2.0, 0.0, 0.0, 0.0,
        0.0, 3.0, 0.0, 0.0,
        0.0, 0.0, 1.0, 0.0,
        0.0, 0.0, 0.0, 1.0,
    ];
    assert_eq!(floats(&m), expected);
}

#[test]
fn rotation_zero_is_identity() {
    let c = 0.0f32.cos().to_bits();
    let s = 0.0f32.sin().to_bits();
    let identity_bits = Matrix::unit().raw();
    assert_eq!(Matrix::unit().xRotate(c, s).raw(), identity_bits);
    assert_eq!(Matrix::unit().yRotate(c, s).raw(), identity_bits);
    assert_eq!(Matrix::unit().zRotate(c, s).raw(), identity_bits);
}

#[test]
fn rotate_x_quarter_turn() {
    let angle = std::f32::consts::FRAC_PI_2;
    let m = Matrix::unit().xRotate(angle.cos().to_bits(), angle.sin().to_bits());
    let got = floats(&m);
    let expected: [f32; 16] = [
        1.0, 0.0, 0.0, 0.0,
        0.0, 0.0, 1.0, 0.0,
        0.0, -1.0, 0.0, 0.0,
        0.0, 0.0, 0.0, 1.0,
    ];
    let mut i: usize = 0;
    while i < 16 {
        assert!(close(got[i], expected[i]), "element {}: {} vs {}", i, got[i], expected[i]);
        i += 1;
    }
}

#[test]
fn rotate_y_quarter_turn() {
    let angle = std::f32::consts::FRAC_PI_2;
    let m = Matrix::unit().yRotate(angle.cos().to_bits(), angle.sin().to_bits());
    let got = floats(&m);
    let expected: [f32; 16] = [
        0.0, 0.0, -1.0, 0.0,
        0.0, 1.0, 0.0, 0.0,
        1.0, 0.0, 0.0, 0.0,
        0.0, 0.0, 0.0, 1.0,
    ];
    let mut i: usize = 0;
    while i < 16 {
        assert!(close(got[i], expected[i]), "element {}: {} vs {}", i, got[i], expected[i]);
        i += 1;
    }
}

#[test]
fn rotate_z_quarter_turn() {
    let angle = std::f32::consts::FRAC_PI_2;
    let m = Matrix::unit().zRotate(angle.cos().to_bits(), angle.sin().to_bits());
    let got = floats(&m);
    let expected: [f32; 16] = [
        0.0, 1.0, 0.0, 0.0,
        -1.0, 0.0, 0.0, 0.0,
        0.0, 0.0, 1.0, 0.0,
        0.0, 0.0, 0.0, 1.0,
    ];
    let mut i: usize = 0;
    while i < 16 {
        assert!(close(got[i], expected[i]), "element {}: {} vs {}", i, got[i], expected[i]);
        i += 1;
    }
}

#[test]
fn non_commutativity() {
    let angle = std::f32::consts::FRAC_PI_2;
    let c = angle.cos().to_bits();
    let s = angle.sin().to_bits();
    let one = 1.0f32.to_bits();
    let zero = 0.0f32.to_bits();
    let translate_then_rotate = Matrix::unit().translate(one, zero, zero).zRotate(c, s);
    let rotate_then_translate = Matrix::unit().zRotate(c, s).translate(one, zero, zero);
    assert_ne!(translate_then_rotate.raw(), rotate_then_translate.raw());
    let a = floats(&translate_then_rotate);
    let b = floats(&rotate_then_translate);
    assert!((a[12] - b[12]).abs() > 0.5, "translation row should differ: {} vs {}", a[12], b[12]);
}

#[test]
fn noop_composition_preserves() {
    let angle = 1.0f32;
    let t = Matrix::unit()
        .translate(5.0f32.to_bits(), 6.0f32.to_bits(), 7.0f32.to_bits())
        .zRotate(angle.cos().to_bits(), angle.sin().to_bits())
        .scale(2.0f32.to_bits(), 3.0f32.to_bits(), 4.0f32.to_bits());
    let zero = 0.0f32.to_bits();
    let one = 1.0f32.to_bits();
    let u = t.translate(zero, zero, zero).scale(one, one, one);
    let before = floats(&t);
    let after = floats(&u);
    let mut i: usize = 0;
    while i < 16 {
        assert!(after[i] == before[i], "element {}: {} vs {}", i, after[i], before[i]);
        i += 1;
    }
}

#[test]
fn from_round_trip() {
    let raw: [u32; 16] = [
        1.5f32.to_bits(), 0, 0, 0,
        0, 2.5f32.to_bits(), 0, 0,
        0, 0, 3.5f32.to_bits(), 0,
        4.5f32.to_bits(), 5.5f32.to_bits(), 6.5f32.to_bits(), 1.0f32.to_bits(),
    ];
    let m = Matrix::from(raw);
    assert_eq!(m.raw(), raw);
}
