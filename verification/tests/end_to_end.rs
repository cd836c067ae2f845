use sdf_march::frame::plane_point;
use sdf_march::march::{Hit, March, Step};
use sdf_march::primitive::{box_terms, cyl_terms, homogeneous_divisor};
use sdf_march::scalar::Scalar;
use sdf_march::scene::{find_distance, ArchParts, ChevronParts, RingParts, Sample, SceneParts};
use sdf_march::shade::{base_color, light_level, quantize, Rgb};
use sdf_march::vector::Vec3;

// The arithmetic on doubles that a renderer wraps around the library.

type V = (f64, f64, f64);
type M = [f64; 16];

fn s(x: f64) -> Scalar {
    Scalar::from_bits(x.to_bits())
}

fn f(x: Scalar) -> f64 {
    f64::from_bits(x.to_bits())
}

fn add(a: V, b: V) -> V {
    (a.0 + b.0, a.1 + b.1, a.2 + b.2)
}

fn sub(a: V, b: V) -> V {
    (a.0 - b.0, a.1 - b.1, a.2 - b.2)
}

fn scale(a: V, k: f64) -> V {
    (a.0 * k, a.1 * k, a.2 * k)
}

fn length(a: V) -> f64 {
    (a.0 * a.0 + a.1 * a.1 + a.2 * a.2).sqrt()
}

fn normal(a: V) -> V {
    let l = length(a);
    (a.0 / l, a.1 / l, a.2 / l)
}

fn cross(a: V, b: V) -> V {
    (a.1 * b.2 - a.2 * b.1, a.2 * b.0 - a.0 * b.2, a.0 * b.1 - a.1 * b.0)
}

fn dot(a: V, b: V) -> f64 {
    a.0 * b.0 + a.1 * b.1 + a.2 * b.2
}

fn id() -> M {
    [1., 0., 0., 0., 0., 1., 0., 0., 0., 0., 1., 0., 0., 0., 0., 1.]
}

fn transform(m: &M, p: V) -> V {
    let (x, y, z) = p;
    let w = f(homogeneous_divisor(s(m[3] * x + m[7] * y + m[11] * z + m[15])));
    (
        (m[0] * x + m[4] * y + m[8] * z + m[12]) / w,
        (m[1] * x + m[5] * y + m[9] * z + m[13]) / w,
        (m[2] * x + m[6] * y + m[10] * z + m[14]) / w,
    )
}

fn mmul(a: &M, b: &M) -> M {
    let mut r = [0.; 16];
    for i in 0..4 {
        for j in 0..4 {
            r[4 * i + j] = b[4 * i] * a[j] + b[4 * i + 1] * a[4 + j] + b[4 * i + 2] * a[8 + j] + b[4 * i + 3] * a[12 + j];
        }
    }
    r
}

fn from_rpy(roll: f64, pitch: f64, yaw: f64) -> M {
    let (sr, cr) = (roll.sin(), roll.cos());
    let (sp, cp) = (pitch.sin(), pitch.cos());
    let (sy, cy) = (yaw.sin(), yaw.cos());
    let m_roll = [1., 0., 0., 0., 0., cr, sr, 0., 0., -sr, cr, 0., 0., 0., 0., 1.];
    let m_pitch = [cp, 0., -sp, 0., 0., 1., 0., 0., sp, 0., cp, 0., 0., 0., 0., 1.];
    let m_yaw = [cy, sy, 0., 0., -sy, cy, 0., 0., 0., 0., 1., 0., 0., 0., 0., 1.];
    mmul(&mmul(&m_yaw, &m_pitch), &m_roll)
}

fn rotate(m: &M, roll: f64, pitch: f64, yaw: f64) -> M {
    mmul(m, &from_rpy(roll, pitch, yaw))
}

fn translate(a: &M, t: V) -> M {
    let (x, y, z) = t;
    let mut r = *a;
    for j in 0..4 {
        r[12 + j] = a[j] * x + a[4 + j] * y + a[8 + j] * z + a[12 + j];
    }
    r
}

fn inv(a: &M) -> M {
    let b00 = a[0] * a[5] - a[1] * a[4];
    let b01 = a[0] * a[6] - a[2] * a[4];
    let b02 = a[0] * a[7] - a[3] * a[4];
    let b03 = a[1] * a[6] - a[2] * a[5];
    let b04 = a[1] * a[7] - a[3] * a[5];
    let b05 = a[2] * a[7] - a[3] * a[6];
    let b06 = a[8] * a[13] - a[9] * a[12];
    let b07 = a[8] * a[14] - a[10] * a[12];
    let b08 = a[8] * a[15] - a[11] * a[12];
    let b09 = a[9] * a[14] - a[10] * a[13];
    let b10 = a[9] * a[15] - a[11] * a[13];
    let b11 = a[10] * a[15] - a[11] * a[14];
    let det = 1. / (b00 * b11 - b01 * b10 + b02 * b09 + b03 * b08 - b04 * b07 + b05 * b06);
    [
        (a[5] * b11 - a[6] * b10 + a[7] * b09) * det,
        (a[2] * b10 - a[1] * b11 - a[3] * b09) * det,
        (a[13] * b05 - a[14] * b04 + a[15] * b03) * det,
        (a[10] * b04 - a[9] * b05 - a[11] * b03) * det,
        (a[6] * b08 - a[4] * b11 - a[7] * b07) * det,
        (a[0] * b11 - a[2] * b08 + a[3] * b07) * det,
        (a[14] * b02 - a[12] * b05 - a[15] * b01) * det,
        (a[8] * b05 - a[10] * b02 + a[11] * b01) * det,
        (a[4] * b10 - a[5] * b08 + a[7] * b06) * det,
        (a[1] * b08 - a[0] * b10 - a[3] * b06) * det,
        (a[12] * b04 - a[13] * b02 + a[15] * b00) * det,
        (a[9] * b02 - a[8] * b04 - a[11] * b00) * det,
        (a[5] * b07 - a[4] * b09 - a[6] * b06) * det,
        (a[0] * b09 - a[1] * b07 + a[2] * b06) * det,
        (a[13] * b01 - a[12] * b03 - a[14] * b00) * det,
        (a[8] * b03 - a[9] * b01 + a[10] * b00) * det,
    ]
}

fn rad(deg: f64) -> f64 {
    deg * std::f64::consts::PI / 180.
}

fn sdf_sphere(ray: V, pos: V, radius: f64) -> f64 {
    length(sub(pos, ray)) - radius
}

fn sdf_box(ray: V, pos: V, size: V) -> f64 {
    let adj = sub(ray, pos);
    let q = (adj.0.abs() - size.0, adj.1.abs() - size.1, adj.2.abs() - size.2);
    let t = box_terms(Vec3(s(q.0), s(q.1), s(q.2)));
    f(t.inner) + length((f(t.outer.0), f(t.outer.1), f(t.outer.2)))
}

fn sdf_cyl(ray: V, h: f64, r: f64) -> f64 {
    let p = (ray.0.abs(), ray.1.abs(), ray.2.abs());
    let x = (p.0 * p.0 + p.2 * p.2).sqrt().abs() - h;
    let y = p.1 - r;
    let t = cyl_terms(s(x), s(y));
    let (cx, cy) = (f(t.outer_radial), f(t.outer_axial));
    f(t.inner) + (cx * cx + cy * cy).sqrt()
}

const DEPTH: f64 = 0.5;
const S45: f64 = 0.7071067811865475;
const S60: f64 = 0.8660254037844386;

const V0: M = [0.5, -S60, 0., 0., S60, 0.5, 0., 0., 0., 0., 1., 0., -1., 0., 0., 1.];
const V1: M = [-0.5, -S60, 0., 0., S60, -0.5, 0., 0., 0., 0., 1., 0., -1., 0., 0., 1.];
const V2: M = [1., 0., 0., 0., 0., 0., -1., 0., 0., 1., 0., -0., 0., 0., 0., 1.];
const V_TR: M = [1., 0., 0., 0., 0., 1., 0., 0., 0., 0., 1., 0., 1.5, 0.5, 0., 1.];
const E0: M = [1., 0., 0., 0., 0., 0., -1., 0., 0., 1., 0., -0., 0., 0., 0., 1.];
const E1: M = [S45, -0., S45, 0., 0., 1., 0., 0., -S45, 0., S45, 0., -0.2121320343559642, 0., -0.5, 1.];
const E_TR: M = [1., 0., 0., 0., 0., 1., 0., 0., 0., 0., 1., 0., 0., 0., 0., 1.];
const N_TR: M = [1., 0., 0., 0., 0., 1., 0., 0., 0., 0., 1., 0., -1.5, 0., 0., 1.];
const U0: M = [1., 0., 0., 0., 0., -1., -0., 0., 0., 0., -1., 0., -0., 0., 0., 1.];
const U_TR: M = [1., 0., 0., 0., 0., 1., 0., 0., 0., 0., 1., 0., -3., 0., 0., 1.];

fn measure(ray: V) -> SceneParts {
    let o = (0., 0., 0.);
    let v_ray = transform(&V_TR, ray);
    let chevron = ChevronParts {
        first_arm: s(sdf_box(transform(&V0, v_ray), o, (1., 0.1, DEPTH))),
        second_arm: s(sdf_box(transform(&V1, v_ray), o, (1., 0.1, DEPTH))),
        hinge: s(sdf_cyl(transform(&V2, v_ray), 0.1, DEPTH)),
    };
    let e0_ray = transform(&E_TR, transform(&E0, ray));
    let e1_ray = transform(&E1, e0_ray);
    let ring = RingParts {
        bore: s(sdf_cyl(e0_ray, 0.4, DEPTH * 2.)),
        rim: s(sdf_cyl(e0_ray, 0.6, DEPTH)),
        notch_box: s(sdf_box(e0_ray, (0.5, 0., -0.1), (0.5, DEPTH * 2., 0.2))),
        notch_wedge: s(sdf_box(e1_ray, o, (0.2, DEPTH * 2., 0.2))),
        crossbar: s(sdf_box(e0_ray, o, (0.5, DEPTH, 0.1))),
    };
    let n_ray = transform(&N_TR, e0_ray);
    let first_arch = ArchParts {
        bore: s(sdf_cyl(n_ray, 0.4, DEPTH * 2.)),
        rim: s(sdf_cyl(n_ray, 0.6, DEPTH)),
        cut: s(sdf_box(n_ray, (0., 0., 0.6), (0.6, DEPTH * 2., 0.6))),
        long_leg: s(sdf_box(n_ray, (-0.5, 0., 0.), (0.1, DEPTH, 0.6))),
        short_leg: s(sdf_box(n_ray, (0.5, 0., 0.3), (0.1, DEPTH, 0.3))),
    };
    let u_ray = transform(&U_TR, transform(&U0, e0_ray));
    let second_arch = ArchParts {
        bore: s(sdf_cyl(u_ray, 0.4, DEPTH * 2.)),
        rim: s(sdf_cyl(u_ray, 0.6, DEPTH)),
        cut: s(sdf_box(u_ray, (0., 0., 0.6), (0.6, DEPTH * 2., 0.6))),
        long_leg: s(sdf_box(u_ray, (0.5, 0., 0.), (0.1, DEPTH, 0.6))),
        short_leg: s(sdf_box(u_ray, (-0.5, 0., 0.3), (0.1, DEPTH, 0.3))),
    };
    SceneParts { chevron, ring, first_arch, second_arch }
}

fn field(p: V) -> Sample {
    find_distance(&measure(p))
}

fn trace(eye: V, dir: V) -> (Hit, usize, f64) {
    let mut march = March::begin();
    let mut probes = 0;
    loop {
        match march.step() {
            Step::Probe(at) => {
                probes += 1;
                let sample = field(add(eye, scale(dir, f(at))));
                march.advance(sample, s(f(at) + f(sample.distance)));
            }
            Step::Done(hit) => return (hit, probes, f(march.last.distance)),
        }
    }
}

const EYE: V = (3., 2., 4.);
const TARGET: V = (1.25, 0., 0.);
const LAMP: V = (4., 2., 2.);

fn eye_ray(column: u32, row: u32) -> V {
    let plane = plane_point(column, row);
    let px = plane.x_numerator as f64 / plane.denominator as f64;
    let py = plane.y_numerator as f64 / plane.denominator as f64;
    let roll: f64 = 0.;
    let ww = normal(sub(TARGET, EYE));
    let uu = normal(cross(ww, (roll.sin(), roll.cos(), 0.)));
    let vv = normal(cross(uu, ww));
    let ert = [uu.0, vv.0, ww.0, 0., uu.1, vv.1, ww.1, 0., uu.2, vv.2, ww.2, 0., 0., 0., 0., 1.];
    normal(transform(&ert, (px, py, 2.)))
}

fn normal_at(hit: V) -> V {
    let e = 0.001;
    let dx = f(field(add(hit, (e, 0., 0.))).distance) - f(field(sub(hit, (e, 0., 0.))).distance);
    let dy = f(field(add(hit, (0., e, 0.))).distance) - f(field(sub(hit, (0., e, 0.))).distance);
    let dz = f(field(add(hit, (0., 0., e))).distance) - f(field(sub(hit, (0., 0., e))).distance);
    normal((dx, dy, dz))
}

fn render_pixel(column: u32, row: u32) -> (usize, Rgb) {
    let dir = eye_ray(column, row);
    let (hit, _, _) = trace(EYE, dir);
    let hit_pos = add(EYE, scale(dir, f(hit.distance)));
    let nv = normal_at(hit_pos);
    let facing = dot(normal(sub(LAMP, hit_pos)), nv);
    let lit = f(light_level(s(facing))) / 255.;
    let base = base_color(hit.material);
    let color = scale((base.red as f64, base.green as f64, base.blue as f64), lit);
    (hit.material, quantize(s(255. * color.0), s(255. * color.1), s(255. * color.2)))
}

fn close(a: &M, b: &M) -> bool {
    a.iter().zip(b.iter()).all(|(x, y)| (x - y).abs() < 1e-12)
}

#[test]
fn the_identity_transform_keeps_every_point() {
    for p in [(0., 0., 0.), (1., 2., 3.), (-0.5, 1e9, -7.25), (1e-300, -1e300, 0.1)] {
        assert_eq!(transform(&id(), p), p);
    }
}

#[test]
fn a_zero_homogeneous_coordinate_divides_by_one() {
    let mut m = id();
    m[15] = 0.;
    assert_eq!(transform(&m, (1., 2., 3.)), (1., 2., 3.));
}

#[test]
fn every_scene_matrix_times_its_inverse_is_the_identity() {
    for m in [V0, V1, V2, V_TR, E0, E1, E_TR, N_TR, U0, U_TR].iter() {
        assert!(close(&mmul(&inv(m), m), &id()), "{:?}", m);
        assert!(close(&mmul(m, &inv(m)), &id()), "{:?}", m);
        assert!(close(&inv(&inv(m)), m), "{:?}", m);
    }
}

#[test]
fn the_scene_matrices_undo_their_placements() {
    let placements: [(M, M); 9] = [
        (translate(&rotate(&id(), 0., 0., rad(60.)), (1., 0., 0.)), V0),
        (translate(&rotate(&id(), 0., 0., rad(120.)), (1., 0., 0.)), V1),
        (translate(&rotate(&id(), rad(90.), 0., 0.), (0., 0., 0.)), V2),
        (translate(&id(), (-1.5, -0.5, 0.)), V_TR),
        (rotate(&id(), rad(90.), 0., 0.), E0),
        (translate(&id(), (0., 0., 0.)), E_TR),
        (translate(&id(), (1.5, 0., 0.)), N_TR),
        (rotate(&id(), rad(180.), 0., 0.), U0),
        (translate(&id(), (3., 0., 0.)), U_TR),
    ];
    for (placement, inverse) in placements.iter() {
        assert!(close(&inv(placement), inverse), "{:?} {:?}", inv(placement), inverse);
        assert!(close(&mmul(inverse, placement), &id()));
    }
}

#[test]
fn rotation_is_yaw_times_pitch_times_roll() {
    let quarter = rad(90.);
    // A quarter turn of roll takes the z axis to the y axis.
    let p = transform(&from_rpy(quarter, 0., 0.), (0., 0., 1.));
    assert!((p.0).abs() < 1e-15 && (p.1 + 1.).abs() < 1e-15 && (p.2).abs() < 1e-15, "{:?}", p);
    let both = from_rpy(0.3, 0.2, 0.1);
    let by_hand = mmul(&mmul(&from_rpy(0., 0., 0.1), &from_rpy(0., 0.2, 0.)), &from_rpy(0.3, 0., 0.));
    assert!(close(&both, &by_hand));
}

#[test]
fn translation_runs_along_the_matrix_axes() {
    let turned = rotate(&id(), 0., 0., rad(90.));
    let moved = translate(&turned, (1., 0., 0.));
    let along = transform(&turned, (1., 0., 0.));
    assert!((moved[12] - along.0).abs() < 1e-15);
    assert!((moved[13] - along.1).abs() < 1e-15);
    assert!((moved[14] - along.2).abs() < 1e-15);
    assert_eq!(translate(&id(), (1., 2., 3.))[12..15], [1., 2., 3.]);
}

#[test]
fn a_sphere_is_negative_within_and_positive_without() {
    let centre = (1., -2., 0.5);
    assert_eq!(sdf_sphere((1., -2., 3.5), centre, 3.), 0.);
    assert_eq!(sdf_sphere((4., -2., 0.5), centre, 3.), 0.);
    assert!(sdf_sphere((1., -2., 0.5), centre, 3.) < 0.);
    assert_eq!(sdf_sphere((1., -2., 0.5), centre, 3.), -3.);
    assert!(sdf_sphere((2., -1., 1.), centre, 3.) < 0.);
    assert!(sdf_sphere((4., -2., 0.6), centre, 3.) > 0.);
    assert_eq!(sdf_sphere((1., 3., 0.5), centre, 3.), 2.);
}

#[test]
fn a_box_is_zero_at_its_own_corner() {
    for (sx, sy, sz) in [(1., 1., 1.), (-1., 1., 1.), (1., -1., -1.), (-1., -1., -1.)] {
        let corner = (0.5 + sx * 0.5, sy * 1.0, -0.1 + sz * 0.2);
        assert!(sdf_box(corner, (0.5, 0., -0.1), (0.5, 1.0, 0.2)).abs() < 1e-15);
    }
    assert_eq!(sdf_box((1., 0.1, 0.5), (0., 0., 0.), (1., 0.1, 0.5)), 0.);
}

#[test]
fn a_ray_away_from_the_scene_escapes() {
    let away = normal(sub(EYE, TARGET));
    let (hit, probes, _) = trace(EYE, away);
    assert_eq!(hit, Hit { distance: s(30.), material: 0 });
    assert!(probes < 100);
    let up = (0., 1., 0.);
    let (hit, _, _) = trace(EYE, up);
    assert_eq!(hit, Hit { distance: s(30.), material: 0 });
}

#[test]
fn a_ray_at_each_compound_reports_its_material() {
    // World-space points inside each compound, by its placement.
    let aims: [(V, usize); 4] = [
        ((-1.5, -0.5, 0.), 1),
        ((0., 0., 0.), 2),
        ((1., 0., 0.), 3),
        ((3.5, 0., 0.), 4),
    ];
    for (aim, material) in aims {
        assert!(f(field(aim).distance) < 0., "{:?}", aim);
        assert_eq!(field(aim).material, material);
        let (hit, probes, gap) = trace(EYE, normal(sub(aim, EYE)));
        assert!(probes < 100, "{:?}", aim);
        assert!(gap < 0.001);
        assert_eq!(hit.material, material, "{:?}", aim);
        assert!(f(hit.distance) < length(sub(aim, EYE)));
    }
}

#[test]
fn the_centre_pixel_is_the_golden_one() {
    let (material, color) = render_pixel(640, 360);
    assert_eq!((material, color), (3, Rgb { red: 43, green: 67, blue: 40 }));
}

#[test]
fn a_strip_of_pixels_shows_every_material() {
    let mut seen = [false; 5];
    let mut column = 0;
    while column < 1280 {
        let (material, color) = render_pixel(column, 360);
        assert!(material <= 4);
        if material == 0 {
            assert_eq!(color, Rgb { red: 0, green: 0, blue: 0 });
        } else {
            let base = base_color(material);
            assert!(color.red <= base.red && color.green <= base.green && color.blue <= base.blue);
        }
        seen[material] = true;
        column += 8;
    }
    assert_eq!(seen, [true; 5]);
}
