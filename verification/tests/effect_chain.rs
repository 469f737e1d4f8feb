//! The steps of a clip's effect chain.

use avio_editor::effects::{
    apply_color_grade, apply_freeze, apply_keying, apply_reverse, apply_transform,
    apply_video_effects, Clip, FramePixels,
};
use avio_editor::filter_step::FilterStep;
use avio_editor::float::{F32, F64};
use avio_editor::framing::{
    apply_animation, apply_aspect, apply_mask, apply_overlay, apply_subtitle, aspect_terms,
};
use avio_editor::keyframes::{ClipAnimation, Key, KeyEasing};
use avio_editor::matte::{KeyMode, Keying, Mask, MaskShape};
use avio_editor::overlay::{
    Overlay, OverlayPosition, Subtitle, SubtitleFormat, SubtitlePosition,
};
use avio_editor::state::{
    ColorWheel, ColorWheels, FitMode, ToneCurves, Transform, VideoEffects, WB_NEUTRAL_TEMP,
};
use avio_editor::time::Duration;
use avio_editor::timeline_clip::Freeze;

fn f(v: f32) -> F32 {
    F32 { bits: v.to_bits() }
}

fn d(v: f64) -> F64 {
    F64 { bits: v.to_bits() }
}

fn f32_of(v: F32) -> f32 {
    f32::from_bits(v.bits)
}

fn f64_of(v: F64) -> f64 {
    f64::from_bits(v.bits)
}

fn no_pixels() -> FramePixels {
    FramePixels {
        crop_left: 0,
        crop_right: 0,
        crop_top: 0,
        crop_bottom: 0,
        mask_x: 0,
        mask_y: 0,
        mask_w: 0,
        mask_h: 0,
        aberration: 0,
        aspect_side: 0,
        overlay_factor: String::new(),
    }
}

fn crop_pixels(t: &Transform, width: u32, height: u32) -> FramePixels {
    let px = |pct: F32, side: u32| (side as f32 * f32_of(pct) / 100.0).round().max(0.0) as u32;
    FramePixels {
        crop_left: px(t.crop_left, width),
        crop_right: px(t.crop_right, width),
        crop_top: px(t.crop_top, height),
        crop_bottom: px(t.crop_bottom, height),
        ..no_pixels()
    }
}

fn mask_pixels(m: &Mask, width: u32, height: u32) -> FramePixels {
    let px = |pct: F32, side: u32| ((f32_of(pct) / 100.0) * side as f32).round().max(0.0) as u32;
    FramePixels {
        mask_x: px(m.rect_x, width),
        mask_y: px(m.rect_y, height),
        mask_w: px(m.rect_w, width),
        mask_h: px(m.rect_h, height),
        ..no_pixels()
    }
}

fn aspect(fit: FitMode, src_w: u32, src_h: u32, canvas_w: u32, canvas_h: u32) -> Vec<FilterStep> {
    let side = match aspect_terms(fit, src_w, src_h, canvas_w, canvas_h) {
        Some((a, b, c)) => (a as f32 * b as f32 / c as f32).round().max(0.0) as u32,
        None => 0,
    };
    apply_aspect(Clip::new("test.mp4"), fit, src_w, src_h, canvas_w, canvas_h, side)
        .video_effect_chain()
}

fn ease(easing: KeyEasing, u: f64) -> f64 {
    match easing {
        KeyEasing::Linear => u,
        KeyEasing::EaseIn => u * u * u,
        KeyEasing::EaseOut => 1.0 - (1.0 - u).powi(3),
        KeyEasing::EaseInOut => 3.0 * u * u - 2.0 * u * u * u,
        KeyEasing::Hold => 0.0,
    }
}

/// The value of a track at a time: a segment goes by the easing of its first key.
fn value_at(track: &[Key], at: Duration) -> f64 {
    let after = track.iter().position(|k| k.at.nanos > at.nanos);
    match after {
        Some(0) => f64_of(track[0].value),
        None => f64_of(track[track.len() - 1].value),
        Some(i) => {
            let (a, b) = (&track[i - 1], &track[i]);
            let u = (at.nanos - a.at.nanos) as f64 / (b.at.nanos - a.at.nanos) as f64;
            let (from, to) = (f64_of(a.value), f64_of(b.value));
            from + (to - from) * ease(a.easing, u)
        }
    }
}

fn secs(s: u64) -> Duration {
    Duration::from_secs(s)
}

fn millis(ms: u64) -> Duration {
    Duration::from_millis(ms)
}

fn full_grade(
    tone: (f32, f32, f32),
    balance: (u32, f32),
    hue: f32,
    gamma: (f32, f32, f32),
    wheels: &ColorWheels,
    curves: &ToneCurves,
    lut: Option<&str>,
    vignette: (f32, f32, f32),
) -> Vec<FilterStep> {
    apply_color_grade(
        Clip::new("test.mp4"),
        f(tone.0),
        f(tone.1),
        f(tone.2),
        balance.0,
        f(balance.1),
        f(hue),
        f(gamma.0),
        f(gamma.1),
        f(gamma.2),
        wheels,
        curves,
        lut,
        f(vignette.0),
        f(vignette.1),
        f(vignette.2),
        1920,
        1080,
    )
    .video_effect_chain()
}

fn chain(
    tone: (f32, f32, f32),
    balance: (u32, f32),
    hue: f32,
    gamma: (f32, f32, f32),
    lut: Option<&str>,
) -> Vec<FilterStep> {
    full_grade(
        tone,
        balance,
        hue,
        gamma,
        &ColorWheels::default(),
        &ToneCurves::default(),
        lut,
        (0.0, 50.0, 50.0),
    )
}

const NEUTRAL: (u32, f32) = (WB_NEUTRAL_TEMP, 0.0);
const FLAT: (f32, f32, f32) = (0.0, 1.0, 1.0);
const ONES: (f32, f32, f32) = (1.0, 1.0, 1.0);

#[test]
fn neutral_params_produce_no_steps() {
    let steps = chain(FLAT, NEUTRAL, 0.0, ONES, None);
    assert!(steps.is_empty());
}

#[test]
fn eq_step_carries_all_three_values() {
    let steps = chain((0.2, 1.5, 0.8), NEUTRAL, 0.0, ONES, None);
    assert_eq!(steps.len(), 1);
    match &steps[0] {
        FilterStep::Eq { brightness, contrast, saturation } => {
            assert_eq!(f32_of(*brightness), 0.2);
            assert_eq!(f32_of(*contrast), 1.5);
            assert_eq!(f32_of(*saturation), 0.8);
        }
        other => panic!("expected Eq, got {other:?}"),
    }
}

#[test]
fn white_balance_emitted_on_temperature_change() {
    let steps = chain(FLAT, (5000, 0.0), 0.0, ONES, None);
    assert_eq!(steps.len(), 1);
    match &steps[0] {
        FilterStep::WhiteBalance { temperature_k, tint } => {
            assert_eq!(*temperature_k, 5000);
            assert_eq!(f32_of(*tint), 0.0);
        }
        other => panic!("expected WhiteBalance, got {other:?}"),
    }
}

#[test]
fn white_balance_emitted_on_tint_change() {
    let steps = chain(FLAT, (WB_NEUTRAL_TEMP, 0.1), 0.0, ONES, None);
    assert_eq!(steps.len(), 1);
    assert!(matches!(steps[0], FilterStep::WhiteBalance { .. }));
}

#[test]
fn hue_step_carries_degrees() {
    let steps = chain(FLAT, NEUTRAL, 45.0, ONES, None);
    assert_eq!(steps.len(), 1);
    match &steps[0] {
        FilterStep::Hue { degrees } => assert_eq!(f32_of(*degrees), 45.0),
        other => panic!("expected Hue, got {other:?}"),
    }
}

#[test]
fn gamma_step_carries_per_channel_values() {
    let steps = chain(FLAT, NEUTRAL, 0.0, (1.1, 0.9, 1.2), None);
    assert_eq!(steps.len(), 1);
    match &steps[0] {
        FilterStep::Gamma { r, g, b } => {
            assert_eq!(f32_of(*r), 1.1);
            assert_eq!(f32_of(*g), 0.9);
            assert_eq!(f32_of(*b), 1.2);
        }
        other => panic!("expected Gamma, got {other:?}"),
    }
}

#[test]
fn lut_step_carries_path() {
    let steps = chain(FLAT, NEUTRAL, 0.0, ONES, Some("look.cube"));
    assert_eq!(steps.len(), 1);
    match &steps[0] {
        FilterStep::Lut3d { path } => assert_eq!(path, "look.cube"),
        other => panic!("expected Lut3d, got {other:?}"),
    }
}

#[test]
fn full_chain_is_in_canonical_order() {
    let steps = chain((0.1, 1.2, 1.3), (5000, 0.05), 45.0, (1.1, 0.9, 1.0), Some("look.cube"));
    assert_eq!(steps.len(), 5);
    assert!(matches!(steps[0], FilterStep::Eq { .. }));
    assert!(matches!(steps[1], FilterStep::WhiteBalance { .. }));
    assert!(matches!(steps[2], FilterStep::Hue { .. }));
    assert!(matches!(steps[3], FilterStep::Gamma { .. }));
    assert!(matches!(steps[4], FilterStep::Lut3d { .. }));
}

#[test]
fn vignette_step_maps_strength_and_centre() {
    let steps = full_grade(
        FLAT,
        NEUTRAL,
        0.0,
        ONES,
        &ColorWheels::default(),
        &ToneCurves::default(),
        None,
        (50.0, 25.0, 75.0),
    );
    assert_eq!(steps.len(), 1);
    match &steps[0] {
        FilterStep::Vignette { strength, centre_x, centre_y, width, height } => {
            let angle = (f32_of(*strength) / 100.0) * std::f32::consts::FRAC_PI_2;
            let x0 = (f32_of(*centre_x) / 100.0) * *width as f32;
            let y0 = (f32_of(*centre_y) / 100.0) * *height as f32;
            assert!((angle - std::f32::consts::FRAC_PI_2 * 0.5).abs() < 1e-4);
            assert!((x0 - 480.0).abs() < 1e-3);
            assert!((y0 - 810.0).abs() < 1e-3);
        }
        other => panic!("expected Vignette, got {other:?}"),
    }
}

#[test]
fn vignette_neutral_produces_no_step() {
    let steps = chain(FLAT, NEUTRAL, 0.0, ONES, None);
    assert!(steps.is_empty());
}

#[test]
fn curves_step_carries_control_points() {
    let curves = ToneCurves {
        master: vec![(f(0.0), f(0.0)), (f(0.5), f(0.6)), (f(1.0), f(1.0))],
        r: vec![(f(0.0), f(0.1)), (f(1.0), f(1.0))],
        g: Vec::new(),
        b: Vec::new(),
    };
    let steps = full_grade(
        FLAT,
        NEUTRAL,
        0.0,
        ONES,
        &ColorWheels::default(),
        &curves,
        None,
        (0.0, 50.0, 50.0),
    );
    assert_eq!(steps.len(), 1);
    match &steps[0] {
        FilterStep::Curves { master, r, g, b } => {
            assert_eq!(master.len(), 3);
            assert_eq!(master[1], (f(0.5), f(0.6)));
            assert_eq!(r.len(), 2);
            assert!(g.is_empty());
            assert!(b.is_empty());
        }
        other => panic!("expected Curves, got {other:?}"),
    }
}

fn wheel_channels(w: &ColorWheel) -> (f32, f32, f32) {
    let (x, y, luma) = (f32_of(w.x), f32_of(w.y), f32_of(w.luma));
    let channel = |pull: f32| (1.0 + luma * 0.25 + pull * 0.25).max(0.0);
    (channel(y), channel(-0.866 * x - 0.5 * y), channel(0.866 * x - 0.5 * y))
}

#[test]
fn color_wheels_map_to_three_way_cc() {
    let mut wheels = ColorWheels::default();
    wheels.gain.y = f(1.0);
    let steps = full_grade(
        FLAT,
        NEUTRAL,
        0.0,
        ONES,
        &wheels,
        &ToneCurves::default(),
        None,
        (0.0, 50.0, 50.0),
    );
    assert_eq!(steps.len(), 1);
    match &steps[0] {
        FilterStep::ThreeWayCC { gain, gamma, .. } => {
            let (r, g, b) = wheel_channels(gain);
            assert!(r > 1.0);
            assert!(g < 1.0 && b < 1.0);
            let (r, g, b) = wheel_channels(gamma);
            assert!(r > 0.0 && g > 0.0 && b > 0.0);
        }
        other => panic!("expected ThreeWayCC, got {other:?}"),
    }
}

#[test]
fn every_grade_step_in_order() {
    let mut wheels = ColorWheels::default();
    wheels.lift.x = f(0.1);
    let curves = ToneCurves { master: vec![(f(0.0), f(0.0))], ..ToneCurves::default() };
    let steps = full_grade(
        (0.1, 1.0, 1.0),
        (5000, 0.0),
        45.0,
        (1.1, 1.0, 1.0),
        &wheels,
        &curves,
        Some("look.cube"),
        (10.0, 50.0, 50.0),
    );
    assert_eq!(steps.len(), 8);
    assert!(matches!(steps[0], FilterStep::Eq { .. }));
    assert!(matches!(steps[1], FilterStep::WhiteBalance { .. }));
    assert!(matches!(steps[2], FilterStep::Hue { .. }));
    assert!(matches!(steps[3], FilterStep::Gamma { .. }));
    assert!(matches!(steps[4], FilterStep::ThreeWayCC { .. }));
    assert!(matches!(steps[5], FilterStep::Curves { .. }));
    assert!(matches!(steps[6], FilterStep::Lut3d { .. }));
    assert!(matches!(steps[7], FilterStep::Vignette { .. }));
}

#[test]
fn video_effects_attach_steps_in_order() {
    let neutral = VideoEffects::default();
    let steps = apply_video_effects(Clip::new("test.mp4"), &neutral, &no_pixels());
    assert!(steps.video_effect_chain().is_empty());

    let fx = VideoEffects {
        blur: f(4.0),
        sharpen: f(0.0),
        denoise: f(0.0),
        grain: f(0.0),
        glow: f(0.5),
        motion_blur: f(0.0),
        chromatic_aberration: f(3.0),
    };
    let px = FramePixels {
        aberration: f32_of(fx.chromatic_aberration).round() as u32,
        ..no_pixels()
    };
    let steps = apply_video_effects(Clip::new("test.mp4"), &fx, &px).video_effect_chain();
    assert_eq!(steps.len(), 3);
    assert!(matches!(steps[0], FilterStep::GBlur { .. }));
    match &steps[1] {
        FilterStep::Glow { threshold, radius, intensity } => {
            assert_eq!((*threshold, *radius, *intensity), (f(0.6), f(8.0), f(0.5)));
        }
        other => panic!("expected Glow, got {other:?}"),
    }
    match &steps[2] {
        FilterStep::ChromaticAberration { rh, bh } => {
            assert_eq!(*rh, 3);
            assert_eq!(*bh, -3);
        }
        other => panic!("expected ChromaticAberration, got {other:?}"),
    }
}

#[test]
fn all_video_effects_in_order() {
    let one = f(1.0);
    let fx = VideoEffects {
        blur: one,
        sharpen: one,
        denoise: one,
        grain: one,
        glow: one,
        motion_blur: f(180.0),
        chromatic_aberration: one,
    };
    let steps = apply_video_effects(Clip::new("test.mp4"), &fx, &no_pixels()).video_effect_chain();
    assert_eq!(steps.len(), 7);
    assert!(matches!(steps[0], FilterStep::GBlur { .. }));
    assert!(matches!(steps[1], FilterStep::Unsharp { .. }));
    assert!(matches!(steps[2], FilterStep::Hqdn3d { .. }));
    assert!(matches!(steps[3], FilterStep::FilmGrain { .. }));
    assert!(matches!(steps[4], FilterStep::Glow { .. }));
    match &steps[5] {
        FilterStep::MotionBlur { shutter_angle_degrees, sub_frames } => {
            assert_eq!(*shutter_angle_degrees, f(180.0));
            assert_eq!(*sub_frames, 8);
        }
        other => panic!("expected MotionBlur, got {other:?}"),
    }
    assert!(matches!(steps[6], FilterStep::ChromaticAberration { rh: 0, bh: 0 }));
}

#[test]
fn transform_neutral_produces_no_step() {
    let t = Transform::default();
    let steps = apply_transform(Clip::new("test.mp4"), &t, 1920, 1080, &no_pixels());
    assert!(steps.video_effect_chain().is_empty());
}

#[test]
fn crop_insets_map_to_even_rect() {
    let t = Transform {
        crop_left: f(10.0),
        crop_right: f(10.0),
        crop_top: f(25.0),
        crop_bottom: f(25.0),
        ..Transform::default()
    };
    let px = crop_pixels(&t, 1920, 1080);
    let steps = apply_transform(Clip::new("test.mp4"), &t, 1920, 1080, &px).video_effect_chain();
    assert_eq!(steps.len(), 2);
    match &steps[0] {
        FilterStep::Crop { x, y, width, height } => {
            assert_eq!(*x, 192);
            assert_eq!(*y, 270);
            assert_eq!(*width, 1920 - 192 - 192);
            assert_eq!(*height, 1080 - 270 - 270);
            assert_eq!(*x % 2, 0);
            assert_eq!(*y % 2, 0);
            assert_eq!(*width % 2, 0);
            assert_eq!(*height % 2, 0);
        }
        other => panic!("expected Crop, got {other:?}"),
    }
    match &steps[1] {
        FilterStep::Scale { width, height, .. } => {
            assert_eq!(*width, 1920);
            assert_eq!(*height, 1080);
        }
        other => panic!("expected Scale, got {other:?}"),
    }
}

#[test]
fn odd_insets_are_rounded_down_to_even() {
    let t = Transform { crop_left: f(1.0), ..Transform::default() };
    let px = FramePixels { crop_left: 3, crop_right: 1, crop_top: 5, ..no_pixels() };
    let steps = apply_transform(Clip::new("test.mp4"), &t, 101, 61, &px).video_effect_chain();
    match &steps[0] {
        FilterStep::Crop { x, y, width, height } => {
            assert_eq!((*x, *y, *width, *height), (2, 4, 98, 56));
        }
        other => panic!("expected Crop, got {other:?}"),
    }
}

#[test]
fn crop_insets_exceeding_frame_skip() {
    let t = Transform {
        crop_left: f(45.0),
        crop_right: f(45.0),
        crop_top: f(45.0),
        crop_bottom: f(45.0),
        ..Transform::default()
    };
    let px = crop_pixels(&t, 8, 8);
    let steps = apply_transform(Clip::new("test.mp4"), &t, 8, 8, &px).video_effect_chain();
    assert!(steps.is_empty());
}

#[test]
fn flip_and_rotation_emit_steps_in_order() {
    let t = Transform { rotation: f(30.0), flip_h: true, flip_v: true, ..Transform::default() };
    let steps = apply_transform(Clip::new("test.mp4"), &t, 1920, 1080, &no_pixels());
    let steps = steps.video_effect_chain();
    assert_eq!(steps.len(), 3);
    assert!(matches!(steps[0], FilterStep::HFlip));
    assert!(matches!(steps[1], FilterStep::VFlip));
    match &steps[2] {
        FilterStep::Rotate { angle_degrees, fill_color } => {
            assert!((f32_of(*angle_degrees) as f64 - 30.0).abs() < 1e-9);
            assert_eq!(fill_color, "black");
        }
        other => panic!("expected Rotate, got {other:?}"),
    }
}

#[test]
fn aspect_matching_size_produces_no_step() {
    let steps = aspect(FitMode::Fill, 1920, 1080, 1920, 1080);
    assert!(steps.is_empty());
}

#[test]
fn aspect_without_a_size_produces_no_step() {
    assert!(aspect(FitMode::Fill, 0, 1080, 1920, 1080).is_empty());
    assert!(aspect(FitMode::Fit, 1920, 1080, 1920, 0).is_empty());
}

#[test]
fn aspect_fit_scales_then_pads() {
    let steps = aspect(FitMode::Fit, 1920, 1080, 1080, 1920);
    assert_eq!(steps.len(), 2);
    let (fw, fh) = match &steps[0] {
        FilterStep::Scale { width, height, .. } => (*width, *height),
        other => panic!("expected Scale, got {other:?}"),
    };
    assert_eq!(fw, 1080);
    assert!(fh <= 1920 && fh % 2 == 0);
    match &steps[1] {
        FilterStep::Pad { width, height, x, y, color } => {
            assert_eq!(*width, 1080);
            assert_eq!(*height, 1920);
            assert_eq!(*x, 0);
            assert_eq!(*y, ((1920 - fh) / 2) as i32);
            assert_eq!(color, "black");
        }
        other => panic!("expected Pad, got {other:?}"),
    }
}

#[test]
fn aspect_fill_crops_then_scales() {
    let steps = aspect(FitMode::Fill, 1920, 1080, 1080, 1920);
    assert_eq!(steps.len(), 2);
    let (cx, cw, ch) = match &steps[0] {
        FilterStep::Crop { x, y, width, height } => {
            assert_eq!(*y, 0);
            assert!(*width < 1920 && *width % 2 == 0);
            assert_eq!(*height, 1080);
            assert!(*x + *width <= 1920);
            (*x, *width, *height)
        }
        other => panic!("expected Crop, got {other:?}"),
    };
    assert_eq!(cx, (1920 - cw) / 2 & !1);
    assert_eq!(ch, 1080);
    match &steps[1] {
        FilterStep::Scale { width, height, .. } => {
            assert_eq!(*width, 1080);
            assert_eq!(*height, 1920);
        }
        other => panic!("expected Scale, got {other:?}"),
    }
}

#[test]
fn aspect_of_a_tall_source_crops_top_and_bottom() {
    let steps = aspect(FitMode::Fill, 1080, 1920, 1920, 1080);
    match &steps[0] {
        FilterStep::Crop { x, y, width, height } => {
            assert_eq!((*x, *width), (0, 1080));
            assert_eq!(*height, 608);
            assert_eq!(*y, 656);
        }
        other => panic!("expected Crop, got {other:?}"),
    }
    let steps = aspect(FitMode::Fit, 1080, 1920, 1920, 1080);
    match (&steps[0], &steps[1]) {
        (FilterStep::Scale { width, height, .. }, FilterStep::Pad { x, y, .. }) => {
            assert_eq!((*width, *height), (608, 1080));
            assert_eq!((*x, *y), (656, 0));
        }
        other => panic!("expected Scale and Pad, got {other:?}"),
    }
}

#[test]
fn overlay_none_produces_no_step() {
    let overlay = Overlay::default();
    let steps = apply_overlay(Clip::new("test.mp4"), &overlay, "1").video_effect_chain();
    assert!(steps.is_empty());
}

#[test]
fn overlay_emits_overlay_image_bottom_right() {
    let overlay = Overlay {
        path: Some("logo.png".to_string()),
        position: OverlayPosition::BottomRight,
        margin: 20,
        opacity: f(0.5),
        scale: f(100.0),
    };
    let steps = apply_overlay(Clip::new("test.mp4"), &overlay, "1").video_effect_chain();
    assert_eq!(steps.len(), 1);
    match &steps[0] {
        FilterStep::OverlayImage { path, x, y, opacity, width, height } => {
            assert_eq!(path, "logo.png");
            assert_eq!(x, "W-w-20");
            assert_eq!(y, "H-h-20");
            assert_eq!(f32_of(*opacity), 0.5);
            assert!(width.is_none());
            assert!(height.is_none());
        }
        other => panic!("expected OverlayImage, got {other:?}"),
    }
}

#[test]
fn overlay_scale_maps_to_size_exprs() {
    let overlay = Overlay {
        path: Some("logo.png".to_string()),
        position: OverlayPosition::TopLeft,
        margin: 10,
        opacity: f(1.0),
        scale: f(50.0),
    };
    let factor = format!("{}", f32_of(overlay.scale) / 100.0);
    let steps = apply_overlay(Clip::new("test.mp4"), &overlay, &factor).video_effect_chain();
    assert_eq!(steps.len(), 1);
    match &steps[0] {
        FilterStep::OverlayImage { width, height, .. } => {
            assert_eq!(width.as_deref(), Some("iw*0.5"));
            assert_eq!(height.as_deref(), Some("ih*0.5"));
        }
        other => panic!("expected OverlayImage, got {other:?}"),
    }
}

#[test]
fn overlay_opacity_is_clamped() {
    let overlay = Overlay {
        path: Some("logo.png".to_string()),
        opacity: f(1.5),
        ..Overlay::default()
    };
    let steps = apply_overlay(Clip::new("test.mp4"), &overlay, "1").video_effect_chain();
    match &steps[0] {
        FilterStep::OverlayImage { opacity, .. } => assert_eq!(*opacity, f(1.0)),
        other => panic!("expected OverlayImage, got {other:?}"),
    }
}

#[test]
fn subtitle_none_produces_no_step() {
    let sub = Subtitle::default();
    let steps = apply_subtitle(Clip::new("test.mp4"), &sub).video_effect_chain();
    assert!(steps.is_empty());
}

#[test]
fn subtitle_srt_emits_force_style() {
    let sub = Subtitle {
        path: Some("ep1.srt".to_string()),
        format: SubtitleFormat::Srt,
        font_size: 28,
        colour: [255, 0, 0],
        position: SubtitlePosition::Top,
    };
    let steps = apply_subtitle(Clip::new("test.mp4"), &sub).video_effect_chain();
    assert_eq!(steps.len(), 1);
    match &steps[0] {
        FilterStep::SubtitlesSrt { path, force_style } => {
            assert_eq!(path, "ep1.srt");
            let fs = force_style.as_deref().expect("force_style");
            assert!(fs.contains("Fontsize=28"));
            assert!(fs.contains("PrimaryColour=&H000000FF&"));
            assert!(fs.contains("Alignment=8"));
        }
        other => panic!("expected SubtitlesSrt, got {other:?}"),
    }
}

#[test]
fn subtitle_ass_emits_ass_step() {
    let sub = Subtitle {
        path: Some("ep1.ass".to_string()),
        format: SubtitleFormat::Ass,
        ..Subtitle::default()
    };
    let steps = apply_subtitle(Clip::new("test.mp4"), &sub).video_effect_chain();
    assert_eq!(steps.len(), 1);
    match &steps[0] {
        FilterStep::SubtitlesAss { path } => assert_eq!(path, "ep1.ass"),
        other => panic!("expected SubtitlesAss, got {other:?}"),
    }
}

#[test]
fn keying_disabled_produces_no_step() {
    let k = Keying::default();
    let steps = apply_keying(Clip::new("test.mp4"), &k).video_effect_chain();
    assert!(steps.is_empty());
}

#[test]
fn keying_chroma_emits_chromakey_and_spill() {
    let k = Keying {
        enabled: true,
        mode: KeyMode::Chroma,
        color: [0, 255, 0],
        similarity: f(0.3),
        blend: f(0.1),
        spill: f(0.5),
    };
    let steps = apply_keying(Clip::new("test.mp4"), &k).video_effect_chain();
    assert_eq!(steps.len(), 2);
    match &steps[0] {
        FilterStep::ChromaKey { color, similarity, blend } => {
            assert_eq!(color, "0x00FF00");
            assert!((f32_of(*similarity) - 0.3).abs() < 1e-6);
            assert!((f32_of(*blend) - 0.1).abs() < 1e-6);
        }
        other => panic!("expected ChromaKey, got {other:?}"),
    }
    match &steps[1] {
        FilterStep::SpillSuppress { key_color, strength } => {
            assert_eq!(key_color, "0x00FF00");
            assert!((f32_of(*strength) - 0.5).abs() < 1e-6);
        }
        other => panic!("expected SpillSuppress, got {other:?}"),
    }
}

#[test]
fn keying_color_mode_no_spill() {
    let k = Keying {
        enabled: true,
        mode: KeyMode::Color,
        color: [0, 0, 255],
        similarity: f(0.2),
        blend: f(0.05),
        spill: f(0.0),
    };
    let steps = apply_keying(Clip::new("test.mp4"), &k).video_effect_chain();
    assert_eq!(steps.len(), 1);
    match &steps[0] {
        FilterStep::ColorKey { color, .. } => assert_eq!(color, "0x0000FF"),
        other => panic!("expected ColorKey, got {other:?}"),
    }
}

#[test]
fn mask_none_produces_no_step() {
    let m = Mask::default();
    let px = mask_pixels(&m, 1920, 1080);
    let steps = apply_mask(Clip::new("test.mp4"), &m, 1920, 1080, &px).video_effect_chain();
    assert!(steps.is_empty());
}

#[test]
fn mask_rectangle_emits_rectmask_with_feather() {
    let m = Mask {
        shape: MaskShape::Rectangle,
        invert: true,
        feather: 8,
        rect_x: f(10.0),
        rect_y: f(20.0),
        rect_w: f(50.0),
        rect_h: f(25.0),
        ..Mask::default()
    };
    let px = mask_pixels(&m, 1920, 1080);
    let steps = apply_mask(Clip::new("test.mp4"), &m, 1920, 1080, &px).video_effect_chain();
    assert_eq!(steps.len(), 2);
    match &steps[0] {
        FilterStep::RectMask { x, y, width, height, invert } => {
            assert_eq!(*x, 192);
            assert_eq!(*y, 216);
            assert_eq!(*width, 960);
            assert_eq!(*height, 270);
            assert!(*invert);
        }
        other => panic!("expected RectMask, got {other:?}"),
    }
    match &steps[1] {
        FilterStep::FeatherMask { radius } => assert_eq!(*radius, 8),
        other => panic!("expected FeatherMask, got {other:?}"),
    }
}

#[test]
fn mask_rectangle_is_clamped_to_the_frame() {
    let m = Mask {
        shape: MaskShape::Rectangle,
        rect_x: f(75.0),
        rect_y: f(0.0),
        rect_w: f(50.0),
        rect_h: f(100.0),
        ..Mask::default()
    };
    let px = mask_pixels(&m, 1000, 500);
    let steps = apply_mask(Clip::new("test.mp4"), &m, 1000, 500, &px).video_effect_chain();
    match &steps[0] {
        FilterStep::RectMask { x, y, width, height, invert } => {
            assert_eq!((*x, *y, *width, *height, *invert), (750, 0, 250, 500, false));
        }
        other => panic!("expected RectMask, got {other:?}"),
    }
    let gone = Mask { rect_x: f(100.0), ..m };
    let px = mask_pixels(&gone, 1000, 500);
    let steps = apply_mask(Clip::new("test.mp4"), &gone, 1000, 500, &px).video_effect_chain();
    assert!(steps.is_empty());
}

#[test]
fn mask_luma_emits_lumakey() {
    let m = Mask {
        shape: MaskShape::Luma,
        luma_threshold: f(0.6),
        luma_tolerance: f(0.2),
        luma_softness: f(0.1),
        ..Mask::default()
    };
    let px = mask_pixels(&m, 1920, 1080);
    let steps = apply_mask(Clip::new("test.mp4"), &m, 1920, 1080, &px).video_effect_chain();
    assert_eq!(steps.len(), 1);
    assert!(matches!(steps[0], FilterStep::LumaKey { .. }));
}

#[test]
fn mask_polygon_needs_three_vertices() {
    let two = Mask {
        shape: MaskShape::Polygon,
        polygon: vec![(f(0.1), f(0.1)), (f(0.9), f(0.1))],
        ..Mask::default()
    };
    let px = mask_pixels(&two, 1920, 1080);
    assert!(apply_mask(Clip::new("t.mp4"), &two, 1920, 1080, &px).video_effect_chain().is_empty());

    let quad = Mask {
        shape: MaskShape::Polygon,
        polygon: Mask::default_quad(),
        ..Mask::default()
    };
    let steps = apply_mask(Clip::new("t.mp4"), &quad, 1920, 1080, &px).video_effect_chain();
    assert_eq!(steps.len(), 1);
    match &steps[0] {
        FilterStep::PolygonMatte { vertices, .. } => assert_eq!(vertices.len(), 4),
        other => panic!("expected PolygonMatte, got {other:?}"),
    }
}

#[test]
fn mask_polygon_has_at_most_sixteen_clamped_vertices() {
    let px = no_pixels();
    let of = |n: usize| Mask {
        shape: MaskShape::Polygon,
        polygon: vec![(f(-0.5), f(1.5)); n],
        ..Mask::default()
    };
    let most = apply_mask(Clip::new("t.mp4"), &of(16), 10, 10, &px).video_effect_chain();
    match &most[0] {
        FilterStep::PolygonMatte { vertices, .. } => {
            assert_eq!(vertices.len(), 16);
            assert_eq!(vertices[0], (f(0.0), f(1.0)));
        }
        other => panic!("expected PolygonMatte, got {other:?}"),
    }
    assert!(apply_mask(Clip::new("t.mp4"), &of(17), 10, 10, &px).video_effect_chain().is_empty());
}

#[test]
fn overlay_position_exprs() {
    assert_eq!(
        OverlayPosition::TopLeft.to_exprs(10),
        ("10".to_string(), "10".to_string())
    );
    assert_eq!(
        OverlayPosition::Centre.to_exprs(10),
        ("(W-w)/2".to_string(), "(H-h)/2".to_string())
    );
    assert_eq!(
        OverlayPosition::TopRight.to_exprs(30),
        ("W-w-30".to_string(), "30".to_string())
    );
    assert_eq!(
        OverlayPosition::BottomCentre.to_exprs(15),
        ("(W-w)/2".to_string(), "H-h-15".to_string())
    );
}

fn animate(
    anim: &ClipAnimation,
    start: Duration,
    position: (f32, f32),
    scale: f32,
    src: (u32, u32),
) -> Clip {
    let position = (f(position.0), f(position.1));
    apply_animation(Clip::new("t.mp4"), anim, start, position, f(scale), src)
}

#[test]
fn animation_empty_is_noop() {
    let anim = ClipAnimation::default();
    let clip = animate(&anim, Duration::zero(), (0.0, 0.0), 100.0, (0, 0));
    assert!(clip.opacity_track.is_none());
}

#[test]
fn animation_opacity_track_is_offset_to_global_time() {
    let mut anim = ClipAnimation::default();
    anim.opacity.insert(secs(0), d(0.0), KeyEasing::Linear);
    anim.opacity.insert(secs(1), d(1.0), KeyEasing::Linear);
    let clip = animate(&anim, secs(2), (0.0, 0.0), 100.0, (0, 0));
    let track = clip.opacity_track.expect("opacity track set");
    assert!(value_at(&track, secs(2)).abs() < 1e-9);
    assert!((value_at(&track, millis(2500)) - 0.5).abs() < 1e-9);
    assert!((value_at(&track, secs(3)) - 1.0).abs() < 1e-9);
}

#[test]
fn animation_opacity_segment_uses_first_key_easing() {
    let segment = |first: KeyEasing, last: KeyEasing| {
        let mut anim = ClipAnimation::default();
        anim.opacity.insert(secs(0), d(0.0), first);
        anim.opacity.insert(secs(2), d(1.0), last);
        animate(&anim, Duration::zero(), (0.0, 0.0), 100.0, (0, 0)).opacity_track.expect("track")
    };
    let et = segment(KeyEasing::EaseInOut, KeyEasing::Linear);
    let q = value_at(&et, millis(500));
    assert!(q < 0.24, "EaseInOut should ease below linear (0.25) at quarter, got {q}");
    assert!((value_at(&et, secs(1)) - 0.5).abs() < 1e-6);

    let lt = segment(KeyEasing::Linear, KeyEasing::EaseInOut);
    assert!(
        (value_at(&lt, millis(500)) - 0.25).abs() < 1e-6,
        "easing on the last key must not change the segment (stays linear)"
    );

    let ht = segment(KeyEasing::Hold, KeyEasing::Linear);
    assert!(value_at(&ht, secs(1)).abs() < 1e-9, "Hold holds start mid-segment");
    assert!((value_at(&ht, secs(2)) - 1.0).abs() < 1e-9, "Hold snaps at end");
}

#[test]
fn animation_opacity_is_clamped_and_position_is_not() {
    let mut anim = ClipAnimation::default();
    anim.opacity.insert(secs(0), d(1.5), KeyEasing::Linear);
    anim.pos_x.insert(secs(0), d(-40.0), KeyEasing::Linear);
    let clip = animate(&anim, secs(0), (0.0, 0.0), 100.0, (0, 0));
    assert_eq!(clip.opacity_track.expect("opacity")[0].value, d(1.0));
    assert_eq!(clip.x_track.expect("x")[0].value, d(-40.0));
}

#[test]
fn animation_position_static_and_tracks() {
    let anim = ClipAnimation::default();
    let clip = animate(&anim, Duration::zero(), (100.0, 50.0), 100.0, (0, 0));
    assert_eq!((f32_of(clip.x), f32_of(clip.y)), (100.0, 50.0));
    assert!(clip.x_track.is_none() && clip.y_track.is_none());

    let mut a = ClipAnimation::default();
    a.pos_x.insert(secs(0), d(0.0), KeyEasing::Linear);
    a.pos_x.insert(secs(2), d(640.0), KeyEasing::Linear);
    a.pos_y.insert(secs(0), d(0.0), KeyEasing::Linear);
    a.pos_y.insert(secs(2), d(360.0), KeyEasing::Linear);
    let clip = animate(&a, secs(1), (0.0, 0.0), 100.0, (0, 0));
    let xt = clip.x_track.expect("x track");
    let yt = clip.y_track.expect("y track");
    assert!((value_at(&xt, secs(2)) - 320.0).abs() < 1e-9);
    assert!((value_at(&yt, secs(2)) - 180.0).abs() < 1e-9);
}

#[test]
fn animation_scale_static_and_track() {
    let anim = ClipAnimation::default();
    let clip = animate(&anim, Duration::zero(), (0.0, 0.0), 50.0, (1920, 1080));
    let size = clip.video_effect_chain().into_iter().find_map(|s| match s {
        FilterStep::ScaleStatic { percent, width, height, .. } => {
            let factor = f32_of(percent) as f64 / 100.0;
            Some((width as f64 * factor, height as f64 * factor))
        }
        _ => None,
    });
    let (w, h) = size.expect("static ScaleAnimated present");
    assert!((w - 960.0).abs() < 1e-6);
    assert!((h - 540.0).abs() < 1e-6);

    let mut a = ClipAnimation::default();
    a.scale.insert(secs(0), d(100.0), KeyEasing::Linear);
    a.scale.insert(secs(2), d(50.0), KeyEasing::Linear);
    let clip = animate(&a, secs(1), (0.0, 0.0), 100.0, (1000, 500));
    let scaled = clip.video_effect_chain().into_iter().find_map(|s| match s {
        FilterStep::ScaleAnimated { percent, width, height, .. } => Some((percent, width, height)),
        _ => None,
    });
    let (percent, width, height) = scaled.expect("animated ScaleAnimated present");
    let w = |at: Duration| value_at(&percent, at) / 100.0 * width as f64;
    let h = |at: Duration| value_at(&percent, at) / 100.0 * height as f64;
    assert!((w(secs(1)) - 1000.0).abs() < 1e-6);
    assert!((w(secs(3)) - 500.0).abs() < 1e-6);
    assert!((h(secs(1)) - 500.0).abs() < 1e-6);
}

#[test]
fn animation_volume_track_maps_to_volume_track() {
    let anim = ClipAnimation::default();
    let none = animate(&anim, Duration::zero(), (0.0, 0.0), 100.0, (1920, 1080));
    assert!(none.volume_track.is_none());

    let mut a = ClipAnimation::default();
    a.volume.insert(secs(0), d(0.0), KeyEasing::Linear);
    a.volume.insert(secs(2), d(-12.0), KeyEasing::Linear);
    let clip = animate(&a, secs(1), (0.0, 0.0), 100.0, (1920, 1080));
    let track = clip.volume_track.expect("volume track present");
    assert!((value_at(&track, secs(1)) - 0.0).abs() < 1e-6);
    assert!((value_at(&track, secs(2)) - (-6.0)).abs() < 1e-6);
    assert!((value_at(&track, secs(3)) - (-12.0)).abs() < 1e-6);
}

#[test]
fn reverse_touches_both_chains_and_freeze_the_picture() {
    let clip = apply_reverse(Clip::new("t.mp4"), true);
    assert!(matches!(clip.video_effects[0], FilterStep::Reverse));
    assert!(matches!(clip.audio_effects[0], FilterStep::AReverse));
    let still = apply_freeze(clip, Some(Freeze { at_secs: d(1.0), hold_secs: d(2.0) }));
    match &still.video_effects[1] {
        FilterStep::FreezeFrame { at_secs, hold_secs } => {
            assert_eq!((*at_secs, *hold_secs), (d(1.0), d(2.0)));
        }
        other => panic!("expected FreezeFrame, got {other:?}"),
    }
    assert_eq!(still.audio_effects.len(), 1);
    assert!(apply_reverse(Clip::new("t.mp4"), false).video_effects.is_empty());
    assert!(apply_freeze(Clip::new("t.mp4"), None).video_effects.is_empty());
}
