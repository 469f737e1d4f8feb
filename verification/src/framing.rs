//! The end of a clip's effect chain: the project canvas, what is laid over the
//! picture, the mask and the animation.

use crate::effects::{
    count, even, keeps_unit32, keys_of, least, minus, step_if, video_chain, Clip, FramePixels,
};
use crate::filter_step::{FilterStep, ScaleAlgorithm, Step};
use crate::float::{eq32, f32_of, positive32, unit32, zero32, F32, F32_HUNDRED};
use crate::keyframes::{
    fits_on_timeline, keys_move_with_their_clip, keytrack_on_timeline, plays_from,
    track_on_timeline, ClipAnimation, Key, KeyTrack,
};
use crate::matte::{Mask, MaskShape};
use crate::overlay::{
    build_force_style, force_style, x_expr, y_expr, Overlay, Subtitle, SubtitleFormat,
};
use crate::state::FitMode;
use crate::time::Duration;
use vstd::prelude::*;
use vstd::string::*;

verus! {

// ── Project canvas ────────────────────────────────────────────────────────────

/// The distance between whole numbers near `n` in single precision.
pub open spec fn single_step(n: int) -> int {
    if n < 0x100_0000 {
        1
    } else if n < 0x200_0000 {
        2
    } else if n < 0x400_0000 {
        4
    } else if n < 0x800_0000 {
        8
    } else if n < 0x1000_0000 {
        16
    } else if n < 0x2000_0000 {
        32
    } else if n < 0x4000_0000 {
        64
    } else if n < 0x8000_0000 {
        128
    } else {
        256
    }
}

/// The multiple of `m` nearest to `n`; halfway between two, the even one.
pub open spec fn nearest_multiple(n: int, m: int) -> int {
    let q = n / m;
    let rest = n % m;
    if 2 * rest < m || (2 * rest == m && q % 2 == 0) {
        q * m
    } else {
        (q + 1) * m
    }
}

/// Half of the count `n` as single precision has it, rounded up to a whole
/// number where it is not one.
pub open spec fn half_rounded(n: int) -> int {
    (nearest_multiple(n, single_step(n)) + 1) / 2
}

/// The source is wider in shape than the canvas.
pub open spec fn wider(src_w: u32, src_h: u32, canvas_w: u32, canvas_h: u32) -> bool {
    src_w * canvas_h > canvas_w * src_h
}

/// The clip is to be fitted into the canvas: both have a size, and not the same.
pub open spec fn reframes(src_w: u32, src_h: u32, canvas_w: u32, canvas_h: u32) -> bool {
    src_w != 0 && src_h != 0 && canvas_w != 0 && canvas_h != 0 && !(src_w == canvas_w && src_h
        == canvas_h)
}

/// The part of the source that covers the canvas.
pub open spec fn fill_size(src_w: u32, src_h: u32, canvas_w: u32, canvas_h: u32, side: u32) -> (
    int,
    int,
) {
    if wider(src_w, src_h, canvas_w, canvas_h) {
        (least(even(side as int), even(src_w as int)), even(src_h as int))
    } else {
        (even(src_w as int), least(even(side as int), even(src_h as int)))
    }
}

/// The size at which the source fits inside the canvas.
pub open spec fn fit_size(src_w: u32, src_h: u32, canvas_w: u32, canvas_h: u32, side: u32) -> (
    int,
    int,
) {
    if wider(src_w, src_h, canvas_w, canvas_h) {
        (even(canvas_w as int), least(even(side as int), even(canvas_h as int)))
    } else {
        (least(even(side as int), even(canvas_w as int)), even(canvas_h as int))
    }
}

/// Fill crops the middle of the source to the shape of the canvas and scales it
/// up; fit scales the source down into the canvas and pads it with black.
pub open spec fn aspect_steps(
    fit_mode: FitMode,
    src_w: u32,
    src_h: u32,
    canvas_w: u32,
    canvas_h: u32,
    side: u32,
) -> Seq<Step> {
    if !reframes(src_w, src_h, canvas_w, canvas_h) {
        Seq::empty()
    } else {
        match fit_mode {
            FitMode::Fill => {
                let (w, h) = fill_size(src_w, src_h, canvas_w, canvas_h, side);
                seq![
                    Step::Crop {
                        x: even(half_rounded(src_w - w)) as u32,
                        y: even(half_rounded(src_h - h)) as u32,
                        width: w as u32,
                        height: h as u32,
                    },
                    Step::Scale {
                        width: canvas_w,
                        height: canvas_h,
                        algorithm: ScaleAlgorithm::Bicubic,
                    },
                ]
            },
            FitMode::Fit => {
                let (w, h) = fit_size(src_w, src_h, canvas_w, canvas_h, side);
                seq![
                    Step::Scale {
                        width: w as u32,
                        height: h as u32,
                        algorithm: ScaleAlgorithm::Bicubic,
                    },
                    Step::Pad {
                        width: canvas_w,
                        height: canvas_h,
                        x: ((canvas_w - w) / 2) as i32,
                        y: ((canvas_h - h) / 2) as i32,
                        color: "black"@,
                    },
                ]
            },
        }
    }
}

/// The part of the source that fill keeps lies inside the source, the picture
/// that fit places lies inside the canvas, and all their sizes are even.
pub proof fn aspect_stays_inside(
    src_w: u32,
    src_h: u32,
    canvas_w: u32,
    canvas_h: u32,
    side: u32,
)
    ensures
        ({
            let (w, h) = fill_size(src_w, src_h, canvas_w, canvas_h, side);
            &&& w % 2 == 0 && h % 2 == 0
            &&& 0 <= even(half_rounded(src_w - w))
            &&& 0 <= even(half_rounded(src_h - h))
            &&& even(half_rounded(src_w - w)) + w <= src_w
            &&& even(half_rounded(src_h - h)) + h <= src_h
        }),
        ({
            let (w, h) = fit_size(src_w, src_h, canvas_w, canvas_h, side);
            &&& w % 2 == 0 && h % 2 == 0
            &&& 0 <= w && (canvas_w - w) / 2 + w <= canvas_w
            &&& 0 <= h && (canvas_h - h) / 2 + h <= canvas_h
        }),
{
    let (w, h) = fill_size(src_w, src_h, canvas_w, canvas_h, side);
    half_rounded_bounds(src_w - w);
    half_rounded_bounds(src_h - h);
}

proof fn half_rounded_bounds(n: int)
    requires
        0 <= n <= u32::MAX,
    ensures
        0 <= even(half_rounded(n)) <= n,
        0 <= half_rounded(n) <= 0x8000_0000,
        0 <= nearest_multiple(n, single_step(n)) <= 0x1_0000_0000,
{
    let m = single_step(n);
    let q = n / m;
    assert(q * m + n % m == n && 0 <= n % m < m) by (nonlinear_arith)
        requires
            m > 0,
            q == n / m,
    ;
    assert((q + 1) * m == q * m + m) by (nonlinear_arith);
    assert(q * m >= 0) by (nonlinear_arith)
        requires
            q >= 0,
            m > 0,
    ;
    if m > 1 {
        assert(q + 1 <= 0x100_0000 * 2) by (nonlinear_arith)
            requires
                q * m <= n,
                n < 0x200_0000 * m,
                m > 0,
        ;
        assert((q + 1) * m <= 0x1_0000_0000) by (nonlinear_arith)
            requires
                q * m <= n,
                n <= 0xffff_ffff,
                m == 2 || m == 4 || m == 8 || m == 16 || m == 32 || m == 64 || m == 128 || m
                    == 256,
        ;
    }
}

fn half(n: u32) -> (r: u32)
    ensures
        r == half_rounded(n as int),
{
    let m: u64 = if n < 0x100_0000 {
        1
    } else if n < 0x200_0000 {
        2
    } else if n < 0x400_0000 {
        4
    } else if n < 0x800_0000 {
        8
    } else if n < 0x1000_0000 {
        16
    } else if n < 0x2000_0000 {
        32
    } else if n < 0x4000_0000 {
        64
    } else if n < 0x8000_0000 {
        128
    } else {
        256
    };
    proof {
        half_rounded_bounds(n as int);
    }
    let q: u64 = n as u64 / m;
    let rest: u64 = n as u64 % m;
    let nearest: u64 = if 2 * rest < m || (2 * rest == m && q % 2 == 0) {
        n as u64 - rest
    } else {
        n as u64 - rest + m
    };
    assert(nearest == nearest_multiple(n as int, m as int)) by {
        assert(q * m + rest == n) by (nonlinear_arith)
            requires
                m > 0,
                q == n as u64 / m,
                rest == n as u64 % m,
        ;
        assert((q + 1) * m == q * m + m) by (nonlinear_arith);
    }
    ((nearest + 1) / 2) as u32
}

/// The numbers `a`, `b` and `c` of the side `a * b / c` that fits the clip to
/// the canvas, where there is anything to fit.
pub fn aspect_terms(
    fit_mode: FitMode,
    src_w: u32,
    src_h: u32,
    canvas_w: u32,
    canvas_h: u32,
) -> (t: Option<(u32, u32, u32)>)
    requires
        src_w * canvas_h <= u32::MAX,
        canvas_w * src_h <= u32::MAX,
    ensures
        t == (if !reframes(src_w, src_h, canvas_w, canvas_h) {
            None
        } else {
            Some(
                match (fit_mode, wider(src_w, src_h, canvas_w, canvas_h)) {
                    (FitMode::Fill, true) => (src_h, canvas_w, canvas_h),
                    (FitMode::Fill, false) => (src_w, canvas_h, canvas_w),
                    (FitMode::Fit, true) => (src_h, canvas_w, src_w),
                    (FitMode::Fit, false) => (src_w, canvas_h, src_h),
                },
            )
        }),
{
    if src_w == 0 || src_h == 0 || canvas_w == 0 || canvas_h == 0 {
        return None;
    }
    if src_w == canvas_w && src_h == canvas_h {
        return None;
    }
    let src_wider = src_w * canvas_h > canvas_w * src_h;
    match fit_mode {
        FitMode::Fill => if src_wider {
            Some((src_h, canvas_w, canvas_h))
        } else {
            Some((src_w, canvas_h, canvas_w))
        },
        FitMode::Fit => if src_wider {
            Some((src_h, canvas_w, src_w))
        } else {
            Some((src_w, canvas_h, src_h))
        },
    }
}

fn even_least(side: u32, limit: u32) -> (r: u32)
    ensures
        r == least(even(side as int), even(limit as int)),
        r <= limit,
{
    let a: u32 = side - side % 2;
    let b: u32 = limit - limit % 2;
    if a <= b {
        a
    } else {
        b
    }
}

/// Fits a clip into the project canvas. It comes after grade and effects. `side`
/// is the quotient of the [`aspect_terms`], rounded to whole pixels.
pub fn apply_aspect(
    clip: Clip,
    fit_mode: FitMode,
    src_w: u32,
    src_h: u32,
    canvas_w: u32,
    canvas_h: u32,
    side: u32,
) -> (r: Clip)
    requires
        src_w * canvas_h <= u32::MAX,
        canvas_w * src_h <= u32::MAX,
    ensures
        r == (Clip { video_effects: r.video_effects, ..clip }),
        video_chain(r) == video_chain(clip) + aspect_steps(
            fit_mode,
            src_w,
            src_h,
            canvas_w,
            canvas_h,
            side,
        ),
{
    let ghost steps = aspect_steps(fit_mode, src_w, src_h, canvas_w, canvas_h, side);
    if src_w == 0 || src_h == 0 || canvas_w == 0 || canvas_h == 0 || (src_w == canvas_w && src_h
        == canvas_h) {
        assert(video_chain(clip) =~= video_chain(clip) + steps);
        return clip;
    }
    let src_wider = src_w * canvas_h > canvas_w * src_h;
    let r = match fit_mode {
        FitMode::Fill => {
            let w: u32 = if src_wider { even_least(side, src_w) } else { src_w - src_w % 2 };
            let h: u32 = if src_wider { src_h - src_h % 2 } else { even_least(side, src_h) };
            let half_x: u32 = half(src_w - w);
            let half_y: u32 = half(src_h - h);
            clip.with_video_effect(
                FilterStep::Crop {
                    x: half_x - half_x % 2,
                    y: half_y - half_y % 2,
                    width: w,
                    height: h,
                },
            ).with_video_effect(
                FilterStep::Scale {
                    width: canvas_w,
                    height: canvas_h,
                    algorithm: ScaleAlgorithm::Bicubic,
                },
            )
        },
        FitMode::Fit => {
            let w: u32 = if src_wider { canvas_w - canvas_w % 2 } else {
                even_least(side, canvas_w)
            };
            let h: u32 = if src_wider { even_least(side, canvas_h) } else {
                canvas_h - canvas_h % 2
            };
            let x: i32 = ((canvas_w - w) / 2) as i32;
            let y: i32 = ((canvas_h - h) / 2) as i32;
            clip.with_video_effect(
                FilterStep::Scale { width: w, height: h, algorithm: ScaleAlgorithm::Bicubic },
            ).with_video_effect(
                FilterStep::Pad {
                    width: canvas_w,
                    height: canvas_h,
                    x,
                    y,
                    color: "black".to_owned(),
                },
            )
        },
    };
    assert(video_chain(r) =~= video_chain(clip) + steps);
    r
}

// ── Overlay and subtitle ──────────────────────────────────────────────────────

/// An overlay that is not shown at its own size.
pub open spec fn overlay_scales(o: Overlay) -> bool {
    positive32(o.scale) && !eq32(o.scale, f32_of(F32_HUNDRED))
}

/// The step of an overlay image.
pub open spec fn overlay_steps(o: Overlay, factor: Seq<char>) -> Seq<Step> {
    match o.path {
        Some(path) => seq![
            Step::OverlayImage {
                path: path@,
                x: x_expr(o.position, o.margin),
                y: y_expr(o.position, o.margin),
                opacity: unit32(o.opacity),
                width: if overlay_scales(o) {
                    Some("iw*"@ + factor)
                } else {
                    None
                },
                height: if overlay_scales(o) {
                    Some("ih*"@ + factor)
                } else {
                    None
                },
            },
        ],
        None => Seq::empty(),
    }
}

/// Lays an image over the framed picture. `factor` is the overlay's scale as a
/// factor, in decimal.
pub fn apply_overlay(clip: Clip, overlay: &Overlay, factor: &str) -> (r: Clip)
    ensures
        r == (Clip { video_effects: r.video_effects, ..clip }),
        video_chain(r) == video_chain(clip) + overlay_steps(*overlay, factor@),
{
    let r = match &overlay.path {
        None => clip,
        Some(path) => {
            let (x, y) = overlay.position.to_exprs(overlay.margin);
            let scales = overlay.scale.is_positive() && !overlay.scale.equals(F32::of(F32_HUNDRED));
            let width = if scales {
                Some("iw*".to_owned().concat(factor))
            } else {
                None
            };
            let height = if scales {
                Some("ih*".to_owned().concat(factor))
            } else {
                None
            };
            clip.with_video_effect(
                FilterStep::OverlayImage {
                    path: path.clone(),
                    x,
                    y,
                    opacity: overlay.opacity.unit(),
                    width,
                    height,
                },
            )
        },
    };
    assert(video_chain(r) =~= video_chain(clip) + overlay_steps(*overlay, factor@));
    r
}

/// The step of a burned-in subtitle. Only SRT files take a style; the others
/// bring their own.
pub open spec fn subtitle_steps(s: Subtitle) -> Seq<Step> {
    match s.path {
        Some(path) => seq![
            match s.format {
                SubtitleFormat::Srt => Step::SubtitlesSrt {
                    path: path@,
                    force_style: Some(force_style(s)),
                },
                SubtitleFormat::Ass => Step::SubtitlesAss { path: path@ },
            },
        ],
        None => Seq::empty(),
    }
}

/// Burns a subtitle in, on top of the overlay.
pub fn apply_subtitle(clip: Clip, sub: &Subtitle) -> (r: Clip)
    ensures
        r == (Clip { video_effects: r.video_effects, ..clip }),
        video_chain(r) == video_chain(clip) + subtitle_steps(*sub),
{
    let r = match &sub.path {
        None => clip,
        Some(path) => match sub.format {
            SubtitleFormat::Srt => clip.with_video_effect(
                FilterStep::SubtitlesSrt {
                    path: path.clone(),
                    force_style: Some(build_force_style(sub)),
                },
            ),
            SubtitleFormat::Ass => clip.with_video_effect(
                FilterStep::SubtitlesAss { path: path.clone() },
            ),
        },
    };
    assert(video_chain(r) =~= video_chain(clip) + subtitle_steps(*sub));
    r
}

// ── Mask ──────────────────────────────────────────────────────────────────────

/// The corners of a polygon, each moved into the frame.
pub open spec fn corners(polygon: Seq<(F32, F32)>) -> Seq<(F32, F32)> {
    polygon.map_values(|p: (F32, F32)| (unit32(p.0), unit32(p.1)))
}

/// The region that a mask keeps, if it has one: a rectangle with at least one
/// pixel inside the frame, a range of brightness, or a polygon of three to
/// sixteen corners.
pub open spec fn mask_region(m: Mask, src_w: u32, src_h: u32, px: FramePixels) -> Option<Step> {
    match m.shape {
        MaskShape::Off => None,
        MaskShape::Rectangle => {
            let w = least(px.mask_w as int, minus(src_w as int, px.mask_x as int));
            let h = least(px.mask_h as int, minus(src_h as int, px.mask_y as int));
            if src_w == 0 || src_h == 0 || w < 1 || h < 1 {
                None
            } else {
                Some(
                    Step::RectMask {
                        x: px.mask_x,
                        y: px.mask_y,
                        width: w as u32,
                        height: h as u32,
                        invert: m.invert,
                    },
                )
            }
        },
        MaskShape::Luma => Some(
            Step::LumaKey {
                threshold: unit32(m.luma_threshold),
                tolerance: unit32(m.luma_tolerance),
                softness: unit32(m.luma_softness),
                invert: m.invert,
            },
        ),
        MaskShape::Polygon => if 3 <= m.polygon@.len() <= 16 {
            Some(Step::PolygonMatte { vertices: corners(m.polygon@), invert: m.invert })
        } else {
            None
        },
    }
}

/// The region, then the softening of its edge where there is one.
pub open spec fn mask_steps(m: Mask, src_w: u32, src_h: u32, px: FramePixels) -> Seq<Step> {
    match mask_region(m, src_w, src_h, px) {
        Some(region) => seq![region] + step_if(
            m.feather > 0,
            Step::FeatherMask { radius: m.feather },
        ),
        None => Seq::empty(),
    }
}

fn clamp_corners(polygon: &Vec<(F32, F32)>) -> (v: Vec<(F32, F32)>)
    ensures
        v@ == corners(polygon@),
{
    let mut v: Vec<(F32, F32)> = Vec::new();
    let mut i: usize = 0;
    while i < polygon.len()
        invariant
            i <= polygon@.len(),
            v@ == corners(polygon@.take(i as int)),
        decreases polygon@.len() - i,
    {
        let (x, y) = polygon[i];
        v.push((x.unit(), y.unit()));
        i = i + 1;
        assert(v@ =~= corners(polygon@.take(i as int)));
    }
    assert(polygon@.take(i as int) =~= polygon@);
    v
}

fn mask_step(m: &Mask, src_w: u32, src_h: u32, px: &FramePixels) -> (s: Option<FilterStep>)
    ensures
        match s {
            Some(step) => mask_region(*m, src_w, src_h, *px) == Some(step@),
            None => mask_region(*m, src_w, src_h, *px) is None,
        },
{
    match m.shape {
        MaskShape::Off => None,
        MaskShape::Rectangle => {
            if src_w == 0 || src_h == 0 {
                return None;
            }
            let room_w: u32 = if src_w >= px.mask_x { src_w - px.mask_x } else { 0 };
            let room_h: u32 = if src_h >= px.mask_y { src_h - px.mask_y } else { 0 };
            let w: u32 = if px.mask_w <= room_w { px.mask_w } else { room_w };
            let h: u32 = if px.mask_h <= room_h { px.mask_h } else { room_h };
            if w < 1 || h < 1 {
                return None;
            }
            Some(
                FilterStep::RectMask {
                    x: px.mask_x,
                    y: px.mask_y,
                    width: w,
                    height: h,
                    invert: m.invert,
                },
            )
        },
        MaskShape::Luma => Some(
            FilterStep::LumaKey {
                threshold: m.luma_threshold.unit(),
                tolerance: m.luma_tolerance.unit(),
                softness: m.luma_softness.unit(),
                invert: m.invert,
            },
        ),
        MaskShape::Polygon => {
            if m.polygon.len() < 3 || m.polygon.len() > 16 {
                return None;
            }
            Some(
                FilterStep::PolygonMatte { vertices: clamp_corners(&m.polygon), invert: m.invert },
            )
        },
    }
}

/// Keeps a region of the clip and makes the rest transparent.
pub fn apply_mask(clip: Clip, m: &Mask, src_w: u32, src_h: u32, px: &FramePixels) -> (r: Clip)
    ensures
        r == (Clip { video_effects: r.video_effects, ..clip }),
        video_chain(r) == video_chain(clip) + mask_steps(*m, src_w, src_h, *px),
{
    let r = match mask_step(m, src_w, src_h, px) {
        None => clip,
        Some(step) => {
            let masked = clip.with_video_effect(step);
            if m.feather > 0 {
                masked.with_video_effect(FilterStep::FeatherMask { radius: m.feather })
            } else {
                masked
            }
        },
    };
    assert(video_chain(r) =~= video_chain(clip) + mask_steps(*m, src_w, src_h, *px));
    r
}

// ── Position, scale and keyframes ─────────────────────────────────────────────

/// The track of a property that has keys, as the timeline sees it.
pub open spec fn animated(keys: Seq<Key>, start: Duration, unit: bool) -> Option<Seq<Key>> {
    if keys.len() > 0 {
        Some(track_on_timeline(keys, start, unit))
    } else {
        None
    }
}

/// `new` where there is a track, `old` otherwise.
pub open spec fn track_or(new: Option<Seq<Key>>, old: Option<Seq<Key>>) -> Option<Seq<Key>> {
    match new {
        Some(keys) => Some(keys),
        None => old,
    }
}

/// The resize of a clip: by its keys, or else by its fixed scale where that is not
/// the size of the source.
pub open spec fn scale_steps(
    anim: ClipAnimation,
    start: Duration,
    scale_pct: F32,
    src_w: u32,
    src_h: u32,
) -> Seq<Step> {
    if src_w == 0 || src_h == 0 {
        Seq::empty()
    } else {
        match animated(anim.scale.keys@, start, false) {
            Some(percent) => seq![
                Step::ScaleAnimated {
                    percent,
                    width: src_w,
                    height: src_h,
                    algorithm: ScaleAlgorithm::Lanczos,
                },
            ],
            None => step_if(
                !eq32(scale_pct, f32_of(F32_HUNDRED)),
                Step::ScaleStatic {
                    percent: scale_pct,
                    width: src_w,
                    height: src_h,
                    algorithm: ScaleAlgorithm::Lanczos,
                },
            ),
        }
    }
}

fn track_for(
    keys: &KeyTrack,
    start: Duration,
    unit: bool,
    current: Option<Vec<Key>>,
) -> (t: Option<Vec<Key>>)
    requires
        fits_on_timeline(keys.keys@, start),
    ensures
        keys_of(t) == track_or(animated(keys.keys@, start, unit), keys_of(current)),
        keys.keys@.len() == 0 ==> t == current,
{
    if keys.is_active() {
        Some(keytrack_on_timeline(keys, start, unit))
    } else {
        current
    }
}

/// Sets position and keyframe tracks and adds the resize. Key times are moved to
/// where the clip starts; opacity keys are moved into `0.0..=1.0`.
pub fn apply_animation(
    clip: Clip,
    anim: &ClipAnimation,
    start_on_track: Duration,
    position: (F32, F32),
    scale_pct: F32,
    src: (u32, u32),
) -> (r: Clip)
    requires
        anim.fits(start_on_track),
    ensures
        r == (Clip {
            x: if !zero32(position.0) || !zero32(position.1) {
                position.0
            } else {
                clip.x
            },
            y: if !zero32(position.0) || !zero32(position.1) {
                position.1
            } else {
                clip.y
            },
            opacity_track: r.opacity_track,
            x_track: r.x_track,
            y_track: r.y_track,
            volume_track: r.volume_track,
            video_effects: r.video_effects,
            ..clip
        }),
        keys_of(r.opacity_track) == track_or(
            animated(anim.opacity.keys@, start_on_track, true),
            keys_of(clip.opacity_track),
        ),
        keys_of(r.x_track) == track_or(
            animated(anim.pos_x.keys@, start_on_track, false),
            keys_of(clip.x_track),
        ),
        keys_of(r.y_track) == track_or(
            animated(anim.pos_y.keys@, start_on_track, false),
            keys_of(clip.y_track),
        ),
        keys_of(r.volume_track) == track_or(
            animated(anim.volume.keys@, start_on_track, false),
            keys_of(clip.volume_track),
        ),
        video_chain(r) == video_chain(clip) + scale_steps(
            *anim,
            start_on_track,
            scale_pct,
            src.0,
            src.1,
        ),
{
    let ghost before = clip;
    let mut r = clip;
    if !position.0.is_zero() || !position.1.is_zero() {
        r.x = position.0;
        r.y = position.1;
    }
    r.opacity_track = track_for(&anim.opacity, start_on_track, true, r.opacity_track);
    r.x_track = track_for(&anim.pos_x, start_on_track, false, r.x_track);
    r.y_track = track_for(&anim.pos_y, start_on_track, false, r.y_track);
    r.volume_track = track_for(&anim.volume, start_on_track, false, r.volume_track);
    let (src_w, src_h) = src;
    if src_w > 0 && src_h > 0 {
        if anim.scale.is_active() {
            r = r.with_video_effect(
                FilterStep::ScaleAnimated {
                    percent: keytrack_on_timeline(&anim.scale, start_on_track, false),
                    width: src_w,
                    height: src_h,
                    algorithm: ScaleAlgorithm::Lanczos,
                },
            );
        } else if !scale_pct.equals(F32::of(F32_HUNDRED)) {
            r = r.with_video_effect(
                FilterStep::ScaleStatic {
                    percent: scale_pct,
                    width: src_w,
                    height: src_h,
                    algorithm: ScaleAlgorithm::Lanczos,
                },
            );
        }
    }
    assert(video_chain(r) =~= video_chain(before) + scale_steps(
        *anim,
        start_on_track,
        scale_pct,
        src.0,
        src.1,
    ));
    r
}

// ── What the steps do ─────────────────────────────────────────────────────────

/// A clip that has the size of the canvas, or one of the two without a size, is left as
/// it is; any other is brought to the canvas in two steps.
pub proof fn own_size_is_kept(
    fit_mode: FitMode,
    src_w: u32,
    src_h: u32,
    canvas_w: u32,
    canvas_h: u32,
    side: u32,
)
    ensures
        aspect_steps(fit_mode, src_w, src_h, canvas_w, canvas_h, side).len() == (if src_w > 0
            && src_h > 0 && canvas_w > 0 && canvas_h > 0 && (src_w != canvas_w || src_h
            != canvas_h) {
            2int
        } else {
            0
        }),
{
}

/// Filling keeps the middle of the source, whole in the direction in which the source is
/// the smaller, and scales it to the canvas.
pub proof fn filling_covers_the_canvas(
    src_w: u32,
    src_h: u32,
    canvas_w: u32,
    canvas_h: u32,
    side: u32,
)
    requires
        src_w > 0 && src_h > 0 && canvas_w > 0 && canvas_h > 0,
        src_w != canvas_w || src_h != canvas_h,
    ensures
        ({
            let s = aspect_steps(FitMode::Fill, src_w, src_h, canvas_w, canvas_h, side);
            let wide = src_w * canvas_h > canvas_w * src_h;
            let kept = side - side % 2;
            &&& s[0] is Crop
            &&& s[1] == (Step::Scale {
                width: canvas_w,
                height: canvas_h,
                algorithm: ScaleAlgorithm::Bicubic,
            })
            &&& s[0]->Crop_width == (if wide && kept < src_w {
                kept
            } else {
                src_w - src_w % 2
            })
            &&& s[0]->Crop_height == (if !wide && kept < src_h {
                kept
            } else {
                src_h - src_h % 2
            })
            &&& s[0]->Crop_x + s[0]->Crop_width <= src_w
            &&& s[0]->Crop_y + s[0]->Crop_height <= src_h
            &&& s[0]->Crop_x % 2 == 0 && s[0]->Crop_y % 2 == 0
            &&& src_w < 0x100_0000 ==> -1 <= src_w - s[0]->Crop_width - 2 * s[0]->Crop_x <= 2
            &&& src_h < 0x100_0000 ==> -1 <= src_h - s[0]->Crop_height - 2 * s[0]->Crop_y <= 2
        }),
{
    let (w, h) = fill_size(src_w, src_h, canvas_w, canvas_h, side);
    assert(0 <= w <= src_w && 0 <= h <= src_h);
    let x = even(half_rounded(src_w - w));
    let y = even(half_rounded(src_h - h));
    centred(src_w - w);
    centred(src_h - h);
    let s = aspect_steps(FitMode::Fill, src_w, src_h, canvas_w, canvas_h, side);
    assert(s[0] == (Step::Crop { x: x as u32, y: y as u32, width: w as u32, height: h as u32 }));
}

proof fn centred(n: int)
    requires
        0 <= n <= u32::MAX,
    ensures
        0 <= even(half_rounded(n)) <= n,
        even(half_rounded(n)) % 2 == 0,
        n < 0x100_0000 ==> -1 <= n - 2 * even(half_rounded(n)) <= 2,
{
    half_rounded_bounds(n);
    if n < 0x100_0000 {
        assert(nearest_multiple(n, 1) == n);
        assert(half_rounded(n) == (n + 1) / 2);
    }
}

/// Fitting scales the whole source to a rectangle as large as the canvas in the direction
/// in which the source is the larger, and pads it with black to the canvas, the same on
/// both sides.
pub proof fn fitting_stays_in_the_canvas(
    src_w: u32,
    src_h: u32,
    canvas_w: u32,
    canvas_h: u32,
    side: u32,
)
    requires
        src_w > 0 && src_h > 0 && canvas_w > 0 && canvas_h > 0,
        src_w != canvas_w || src_h != canvas_h,
    ensures
        ({
            let s = aspect_steps(FitMode::Fit, src_w, src_h, canvas_w, canvas_h, side);
            let wide = src_w * canvas_h > canvas_w * src_h;
            let kept = side - side % 2;
            &&& s[0] is Scale
            &&& s[0]->Scale_algorithm == ScaleAlgorithm::Bicubic
            &&& s[0]->Scale_width == (if !wide && kept < canvas_w {
                kept
            } else {
                canvas_w - canvas_w % 2
            })
            &&& s[0]->Scale_height == (if wide && kept < canvas_h {
                kept
            } else {
                canvas_h - canvas_h % 2
            })
            &&& s[1] is Pad
            &&& s[1]->Pad_width == canvas_w && s[1]->Pad_height == canvas_h
            &&& 0 <= canvas_w - s[0]->Scale_width - 2 * s[1]->Pad_x <= 1
            &&& 0 <= canvas_h - s[0]->Scale_height - 2 * s[1]->Pad_y <= 1
            &&& s[1]->Pad_color == "black"@
        }),
{
}

/// An overlay shows its own image at its own anchor and opacity, both sides scaled by one
/// factor where it is not shown at its own size. Without an image there is none.
pub proof fn overlay_shows_its_image(o: Overlay, factor: Seq<char>)
    ensures
        ({
            let s = overlay_steps(o, factor);
            let scaled = positive32(o.scale) && !eq32(o.scale, f32_of(F32_HUNDRED));
            &&& s.len() == count(o.path is Some)
            &&& o.path is Some ==> {
                &&& s[0] is OverlayImage
                &&& s[0]->OverlayImage_path == o.path->0@
                &&& s[0]->OverlayImage_x == x_expr(o.position, o.margin)
                &&& s[0]->OverlayImage_y == y_expr(o.position, o.margin)
                &&& keeps_unit32(s[0]->OverlayImage_opacity, o.opacity)
                &&& s[0]->OverlayImage_width == (if scaled {
                    Some("iw*"@ + factor)
                } else {
                    None
                })
                &&& s[0]->OverlayImage_height == (if scaled {
                    Some("ih*"@ + factor)
                } else {
                    None
                })
            }
        }),
{
}

/// A subtitle burns its own file in: an SRT file in the style that is set, any other as it
/// is. Without a file there is none.
pub proof fn subtitle_burns_its_file(sub: Subtitle)
    ensures
        ({
            let s = subtitle_steps(sub);
            &&& s.len() == count(sub.path is Some)
            &&& sub.path is Some && sub.format == SubtitleFormat::Srt ==> s[0]
                == (Step::SubtitlesSrt {
                path: sub.path->0@,
                force_style: Some(force_style(sub)),
            })
            &&& sub.path is Some && sub.format == SubtitleFormat::Ass ==> s[0]
                == (Step::SubtitlesAss { path: sub.path->0@ })
        }),
{
}

/// A mask keeps the region that it is set to, or all but that region where it is inverted,
/// and softens its edge by its feather. A rectangle is cut to the frame; one without a
/// pixel in it, and a polygon of fewer than three or more than sixteen corners, mask
/// nothing.
pub proof fn mask_keeps_its_region(m: Mask, src_w: u32, src_h: u32, px: FramePixels)
    ensures
        ({
            let s = mask_steps(m, src_w, src_h, px);
            let inside = px.mask_x < src_w && px.mask_y < src_h && px.mask_w > 0 && px.mask_h > 0;
            let on = match m.shape {
                MaskShape::Off => false,
                MaskShape::Rectangle => inside,
                MaskShape::Luma => true,
                MaskShape::Polygon => 3 <= m.polygon@.len() <= 16,
            };
            &&& s.len() == (if on {
                1 + count(m.feather > 0)
            } else {
                0
            })
            &&& on && m.feather > 0 ==> s[1] == (Step::FeatherMask { radius: m.feather })
            &&& on && m.shape == MaskShape::Rectangle ==> {
                &&& s[0] is RectMask
                &&& s[0]->RectMask_x == px.mask_x && s[0]->RectMask_y == px.mask_y
                &&& s[0]->RectMask_invert == m.invert
                &&& s[0]->RectMask_width == (if px.mask_x + px.mask_w <= src_w {
                    px.mask_w as int
                } else {
                    src_w - px.mask_x
                })
                &&& s[0]->RectMask_height == (if px.mask_y + px.mask_h <= src_h {
                    px.mask_h as int
                } else {
                    src_h - px.mask_y
                })
            }
            &&& m.shape == MaskShape::Luma ==> {
                &&& s[0] is LumaKey
                &&& keeps_unit32(s[0]->LumaKey_threshold, m.luma_threshold)
                &&& keeps_unit32(s[0]->LumaKey_tolerance, m.luma_tolerance)
                &&& keeps_unit32(s[0]->LumaKey_softness, m.luma_softness)
                &&& s[0]->LumaKey_invert == m.invert
            }
            &&& on && m.shape == MaskShape::Polygon ==> {
                &&& s[0] is PolygonMatte
                &&& s[0]->PolygonMatte_invert == m.invert
                &&& s[0]->vertices.len() == m.polygon@.len()
                &&& forall|i: int|
                    0 <= i < m.polygon@.len() ==> keeps_unit32(
                        (#[trigger] s[0]->vertices[i]).0,
                        m.polygon@[i].0,
                    ) && keeps_unit32(s[0]->vertices[i].1, m.polygon@[i].1)
            }
        }),
{
}

/// A property with keys has a track that plays them from the clip's start on; one without
/// keys has none.
pub proof fn track_plays_its_keys(keys: Seq<Key>, start: Duration, unit: bool)
    requires
        fits_on_timeline(keys, start),
    ensures
        animated(keys, start, unit) is Some <==> keys.len() > 0,
        keys.len() > 0 ==> plays_from(animated(keys, start, unit)->0, keys, start, unit),
{
    keys_move_with_their_clip(keys, start, unit);
}

/// A clip is resized by its keys, or else by its fixed percentage where that is not a
/// hundred, always in terms of its own frame; without a frame it is not resized.
pub proof fn resize_follows_its_keys(
    anim: ClipAnimation,
    start: Duration,
    scale_pct: F32,
    src_w: u32,
    src_h: u32,
)
    requires
        fits_on_timeline(anim.scale.keys@, start),
    ensures
        ({
            let s = scale_steps(anim, start, scale_pct, src_w, src_h);
            let framed = src_w > 0 && src_h > 0;
            let moving = framed && anim.scale.keys@.len() > 0;
            let fixed = framed && !moving && !eq32(scale_pct, f32_of(F32_HUNDRED));
            &&& s.len() == count(moving || fixed)
            &&& moving ==> {
                &&& s[0] is ScaleAnimated
                &&& plays_from(s[0]->ScaleAnimated_percent, anim.scale.keys@, start, false)
                &&& s[0]->ScaleAnimated_width == src_w && s[0]->ScaleAnimated_height == src_h
                &&& s[0]->ScaleAnimated_algorithm == ScaleAlgorithm::Lanczos
            }
            &&& fixed ==> s[0] == (Step::ScaleStatic {
                percent: scale_pct,
                width: src_w,
                height: src_h,
                algorithm: ScaleAlgorithm::Lanczos,
            })
        }),
{
    keys_move_with_their_clip(anim.scale.keys@, start, false);
}

/// Half of a count is taken as single precision has the count: to 24 binary digits, the
/// nearest such number, of two equally near the one that ends in an even digit. What is
/// left of a pixel counts as one.
pub proof fn half_is_of_the_nearest_single(n: int)
    requires
        0 <= n <= u32::MAX,
    ensures
        ({
            let m = single_step(n);
            let k = nearest_multiple(n, m);
            &&& m == 1 || m == 2 || m == 4 || m == 8 || m == 16 || m == 32 || m == 64 || m == 128
                || m == 256
            &&& n < 0x100_0000 * m
            &&& m > 1 ==> n >= 0x80_0000 * m
            &&& k % m == 0
            &&& -m <= 2 * (k - n) <= m
            &&& 2 * (k - n) == m || 2 * (k - n) == -m ==> (k / m) % 2 == 0
            &&& 2 * half_rounded(n) - 1 <= k <= 2 * half_rounded(n)
        }),
{
    let m = single_step(n);
    let q = n / m;
    let k = nearest_multiple(n, m);
    assert(q * m + n % m == n && 0 <= n % m < m) by (nonlinear_arith)
        requires
            m > 0,
            q == n / m,
    ;
    assert((q + 1) * m == q * m + m) by (nonlinear_arith);
    assert((q * m) % m == 0 && ((q + 1) * m) % m == 0) by (nonlinear_arith)
        requires
            m > 0,
    ;
    assert((q * m) / m == q && ((q + 1) * m) / m == q + 1) by (nonlinear_arith)
        requires
            m > 0,
    ;
}

} // verus!
