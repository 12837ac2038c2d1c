//! Tests for the fixed-point arithmetic, trigonometry, and transforms.

use fello::fixed::{cospi, sat_add, sat_neg, sat_sub, sinpi, tanpi, FixedPoint};
use fello::transform::Transform;
use fello::locale::{Cjk, Locale};
use fello::color::{Color, Palette, PaletteLookup};
use fello::color::apply_alpha;
use fello::data::FallbackData;
use fello::data::LowercaseString;
use fello::data::SourcePaths;
use fello::hint::HintConfig;
use fello::hint_state::Hinting;
use fello::hint_state::{CoordMode, ProjectState};
use fello::hint_state::{GraphicsState, InstanceState};
use fello::hint_state::{RoundMode, RoundState};
use fello::library::{FontFamilyId, GenericFontFamily};
use fello::library::{FontSource, FontSourceId, FontSourceKind};

#[test]
fn floor_rounds_down() {
    assert_eq!(fello::hint_math::floor(0), 0);
    assert_eq!(fello::hint_math::floor(63), 0);
    assert_eq!(fello::hint_math::floor(64), 64);
    assert_eq!(fello::hint_math::floor(-1), -64);
    assert_eq!(fello::hint_math::floor(-64), -64);
    assert_eq!(fello::hint_math::floor(-65), -128);
}

#[test]
fn round_to_nearest_grid() {
    assert_eq!(fello::hint_math::round(31), 0);
    assert_eq!(fello::hint_math::round(32), 64);
    assert_eq!(fello::hint_math::round(95), 64);
    assert_eq!(fello::hint_math::round(96), 128);
    assert_eq!(fello::hint_math::round(-31), 0);
    assert_eq!(fello::hint_math::round(-33), -64);
}

#[test]
fn ceil_rounds_up() {
    assert_eq!(fello::hint_math::ceil(1), 64);
    assert_eq!(fello::hint_math::ceil(64), 64);
    assert_eq!(fello::hint_math::ceil(-1), 0);
    assert_eq!(fello::hint_math::ceil(-64), -64);
}

#[test]
fn pad_variants() {
    assert_eq!(fello::hint_math::floor_pad(70, 32), 64);
    assert_eq!(fello::hint_math::floor_pad(-70, 32), -96);
    assert_eq!(fello::hint_math::round_pad(70, 32), 64);
    assert_eq!(fello::hint_math::round_pad(81, 32), 96);
}

#[test]
fn mul_16_16() {
    // 1.5 * 2.0 == 3.0 in 16.16.
    assert_eq!(fello::hint_math::mul(0x18000, 0x20000), 0x30000);
    assert_eq!(fello::hint_math::mul(-0x18000, 0x20000), -0x30000);
    assert_eq!(fello::hint_math::mul(0x10000, 7), 7);
    // Rounds to nearest: 0.5 * 1/65536 rounds up.
    assert_eq!(fello::hint_math::mul(0x8000, 1), 1);
}

#[test]
fn div_16_16() {
    // 3.0 / 2.0 == 1.5.
    assert_eq!(fello::hint_math::div(0x30000, 0x20000), 0x18000);
    assert_eq!(fello::hint_math::div(-0x30000, 0x20000), -0x18000);
    // Division by zero saturates.
    assert_eq!(fello::hint_math::div(5, 0), 0x7fffffff);
    assert_eq!(fello::hint_math::div(-5, 0), -0x7fffffff);
}

#[test]
fn muldiv_rounds() {
    assert_eq!(fello::hint_math::muldiv(6, 10, 4), 15);
    assert_eq!(fello::hint_math::muldiv(-6, 10, 4), -15);
    assert_eq!(fello::hint_math::muldiv(6, 10, -4), -15);
    assert_eq!(fello::hint_math::muldiv(1, 1, 0), 0x7fffffff);
    assert_eq!(fello::hint_math::muldiv_no_round(7, 10, 4), 17);
}

#[test]
fn mul14_and_dot14() {
    // 1.0 * 1.0 in 2.14.
    assert_eq!(fello::hint_math::mul14(0x4000, 0x4000), 0x4000);
    assert_eq!(fello::hint_math::dot14(0x4000, 0, 0x4000, 0), 0x4000);
    assert_eq!(fello::hint_math::dot14(0x4000, 0x4000, 0x4000, -0x4000), 0);
}

#[test]
fn saturating_ops() {
    assert_eq!(sat_add(i32::MAX, 1), i32::MAX);
    assert_eq!(sat_add(i32::MIN, -1), i32::MIN);
    assert_eq!(sat_add(2, 3), 5);
    assert_eq!(sat_sub(i32::MIN, 1), i32::MIN);
    assert_eq!(sat_neg(i32::MIN), i32::MAX);
    assert_eq!(sat_neg(5), -5);
}

#[test]
fn sine_quarters_exact() {
    assert_eq!(sinpi(0), 0);
    assert_eq!(sinpi(0x8000), 0x10000); // 90 degrees
    assert_eq!(sinpi(0x10000), 0); // 180 degrees
    assert_eq!(sinpi(0x18000), -0x10000); // 270 degrees
    assert_eq!(sinpi(0x20000), 0); // full turn
    assert_eq!(cospi(0), 0x10000);
    assert_eq!(cospi(0x8000), 0);
    assert_eq!(cospi(0x10000), -0x10000);
}

#[test]
fn sine_midpoint_close() {
    // sin(45 degrees) ~= 0.7071 -> about 46341 in 16.16.
    let s = sinpi(0x4000);
    assert!((s - 46341).abs() < 16, "sin(45) = {}", s);
    // tan(45 degrees) is exactly one because sine and cosine agree.
    assert_eq!(tanpi(0x4000), 0x10000);
}

#[test]
fn transform_identity_multiplication() {
    let t = Transform::translate(3 << 16, 4 << 16);
    let i = Transform::identity();
    assert_eq!(i.mul(&t), t);
    assert_eq!(t.mul(&i), t);
}

#[test]
fn transform_translate_then_scale() {
    let tr = Transform::translate(3 << 16, 4 << 16);
    let sc = Transform::scale(2 << 16, 2 << 16);
    let m = tr.mul(&sc);
    assert_eq!(m.xx, 2 << 16);
    assert_eq!(m.yy, 2 << 16);
    assert_eq!(m.xy, 0);
    assert_eq!(m.yx, 0);
    assert_eq!(m.dx, 3 << 16);
    assert_eq!(m.dy, 4 << 16);
}

#[test]
fn transform_rotate_quarter() {
    let r = Transform::rotate(0x8000); // 90 degrees
    assert_eq!(r.xx, 0);
    assert_eq!(r.yx, 0x10000);
    assert_eq!(r.xy, -0x10000);
    assert_eq!(r.yy, 0);
}

#[test]
fn transform_around_center() {
    // Scaling by 2 about (1, 1) sends the origin to (-1, -1).
    let sc = Transform::scale(2 << 16, 2 << 16).around_center(1 << 16, 1 << 16);
    assert_eq!(sc.xx, 2 << 16);
    assert_eq!(sc.dx, -(1 << 16));
    assert_eq!(sc.dy, -(1 << 16));
}

#[test]
fn rounding_state_modes() {
    let grid = RoundState { mode: RoundMode::Grid, threshold: 0, phase: 0, period: 64 };
    assert_eq!(grid.round(32), 64);
    assert_eq!(grid.round(31), 0);
    assert_eq!(grid.round(-32), -64);
    let half = RoundState { mode: RoundMode::HalfGrid, ..grid };
    assert_eq!(half.round(0), 32);
    assert_eq!(half.round(-1), -32);
    let up = RoundState { mode: RoundMode::UpToGrid, ..grid };
    assert_eq!(up.round(1), 64);
    let down = RoundState { mode: RoundMode::DownToGrid, ..grid };
    assert_eq!(down.round(63), 0);
    let off = RoundState { mode: RoundMode::Off, ..grid };
    assert_eq!(off.round(37), 37);
    let sup = RoundState { mode: RoundMode::Super, threshold: 32, phase: 0, period: 64 };
    assert_eq!(sup.round(32), 64);
    assert_eq!(sup.round(31), 0);
}

#[test]
fn projection_state_axes() {
    let mut st = ProjectState::default();
    st.pv = FixedPoint { x: 0x4000, y: 0 };
    st.fv = FixedPoint { x: 0x4000, y: 0 };
    st.dv = FixedPoint { x: 0, y: 0x4000 };
    st.update();
    assert_eq!(st.mode, CoordMode::X);
    assert_eq!(st.dual_mode, CoordMode::Y);
    assert_eq!(st.move_mode, CoordMode::X);
    assert_eq!(st.fdotp, 0x4000);
    let a = FixedPoint { x: 100, y: 7 };
    let b = FixedPoint { x: 60, y: 3 };
    assert_eq!(st.project(a, b), 40);
    assert_eq!(st.dual_project(a, b), 4);
    assert_eq!(st.fast_project(a), 100);
    assert_eq!(st.fast_dual_project(a), 7);
}

#[test]
fn projection_state_diagonal() {
    let mut st = ProjectState::default();
    // 45-degree unit vector in 2.14: (0.7071, 0.7071).
    st.pv = FixedPoint { x: 11585, y: 11585 };
    st.fv = FixedPoint { x: 11585, y: 11585 };
    st.update();
    assert_eq!(st.mode, CoordMode::Both);
    // fdotp ~= 1.0 in 2.14.
    assert!((st.fdotp - 0x4000).abs() < 8, "fdotp = {}", st.fdotp);
}

#[test]
fn hint_config_lifecycle() {
    let mut cfg = HintConfig::new(Some(Hinting::VerticalSubpixel));
    assert!(cfg.is_enabled());
    cfg.is_enabled = false;
    assert!(!cfg.is_enabled());
    cfg.reset();
    assert!(cfg.is_enabled());
    let none = HintConfig::new(None);
    assert!(!none.is_enabled());
}

#[test]
fn instance_state_flags() {
    let mut st = InstanceState::default();
    assert!(st.hinting_enabled());
    assert!(!st.compat_enabled());
    st.graphics = GraphicsState { instruct_control: 1, ..GraphicsState::default() };
    assert!(!st.hinting_enabled());
    st.compat = true;
    assert!(st.compat_enabled());
}

#[test]
fn lowercase_string_ascii() {
    let mut buf = LowercaseString::new();
    let r = buf.get("Times New ROMAN").expect("ascii");
    assert_eq!(r, b"times new roman");
    let mut buf2 = LowercaseString::new();
    assert!(buf2.get("\u{e9}toile").is_none());
}

#[test]
fn fallback_data_generic_families() {
    let mut data = FallbackData::default();
    data.generic_families[1] = vec![FontFamilyId(7), FontFamilyId(9)];
    assert_eq!(
        data.generic_families(GenericFontFamily::SansSerif),
        &[FontFamilyId(7), FontFamilyId(9)]
    );
    assert_eq!(data.generic_families(GenericFontFamily::Serif), &[]);
    data.default_families = vec![FontFamilyId(1)];
    assert_eq!(data.default_families(), &[FontFamilyId(1)]);
}

#[test]
fn source_paths_cursor() {
    static PATHS: [&str; 2] = ["/a/fonts", "/b/fonts"];
    let mut cursor = SourcePaths::from_static(&PATHS);
    assert_eq!(cursor.next(), Some("/a/fonts"));
    assert_eq!(cursor.next(), Some("/b/fonts"));
    assert_eq!(cursor.next(), None);
}

#[test]
fn font_source_accessors() {
    let src = FontSource::new(FontSourceId(3), FontSourceKind::FileName("a.ttf"));
    assert_eq!(src.id(), FontSourceId(3));
    match src.kind() {
        FontSourceKind::FileName(name) => assert_eq!(*name, "a.ttf"),
        _ => panic!("wrong kind"),
    }
}

#[test]
fn apply_alpha_scales_channel() {
    let c = Color { r: 10, g: 20, b: 30, a: 200 };
    let half = apply_alpha(c, 0x8000);
    assert_eq!(half.a, 100);
    assert_eq!(half.r, 10);
    let full = apply_alpha(c, 0x10000);
    assert_eq!(full.a, 200);
    let over = apply_alpha(c, 0x20000);
    assert_eq!(over.a, 200);
    let neg = apply_alpha(c, -5);
    assert_eq!(neg.a, 0);
}

#[test]
fn palette_lookup_sentinel() {
    let pal = Palette {
        colors: vec![
            Color { r: 1, g: 2, b: 3, a: 255 },
            Color { r: 4, g: 5, b: 6, a: 255 },
        ],
        foreground: Color { r: 9, g: 9, b: 9, a: 255 },
    };
    assert_eq!(pal.color(1).r, 4);
    assert_eq!(pal.color(0xffff).r, 9);
    assert_eq!(pal.color(700).r, 9);
}

#[test]
fn locale_language_and_region() {
    let l = Locale::new("en-US").expect("valid");
    assert_eq!(l.language(), b"en".to_vec());
    assert_eq!(l.region(), Some(b"US".to_vec()));
    assert_eq!(l.script(), None);
    assert_eq!(l.cjk(), Cjk::Unspecified);
    let lower = Locale::new("en-us").expect("valid");
    assert_eq!(lower.region(), Some(b"US".to_vec()));
    let numeric = Locale::new("es-419").expect("valid");
    assert_eq!(numeric.region(), Some(b"419".to_vec()));
}

#[test]
fn locale_script_and_cjk() {
    // The script slot only accepts an upper-lower-upper-lower shape, so a
    // title-case subtag such as "Hans" passes through unrecorded and the
    // Chinese codes resolve to the traditional flavor.
    let hans = Locale::new("zh-Hans").expect("valid");
    assert_eq!(hans.script(), None);
    assert_eq!(hans.cjk(), Cjk::Traditional);
    let tw = Locale::new("zh-TW").expect("valid");
    assert_eq!(tw.cjk(), Cjk::Traditional);
    assert_eq!(Locale::new("ja").unwrap().cjk(), Cjk::Japanese);
    assert_eq!(Locale::new("ko").unwrap().cjk(), Cjk::Korean);
    let sr = Locale::new("sr-LaTn-RS").expect("valid");
    assert_eq!(sr.script(), Some(*b"LaTn"));
    assert_eq!(sr.region(), Some(b"RS".to_vec()));
}

#[test]
fn locale_rejects_bad_tags() {
    assert!(Locale::new("x").is_none());
    assert!(Locale::new("toolong").is_none());
    assert!(Locale::new("\u{e9}t").is_none());
}
