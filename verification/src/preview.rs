//! Preview frames: their pixels, the grade of the clip that is shown, and the frames
//! of sprite sheets.

use crate::app_state::AppState;
use crate::effects::{
    apply_color_grade, corrects_color, grade_has_its_parts, grade_steps, keeps32, lut_text,
    video_chain, Clip, ColorGrade,
};
use crate::filter_step::chain_of;
use crate::float::{eq32, one32, positive32, zero32, F32, F32_ONE, F32_ZERO};
use crate::imported::ImportedClip;
use crate::media::BlendMode;
use crate::state::{ColorWheels, ToneCurves};
use crate::time::Duration;
use crate::timeline_clip::{
    paths_agree, points_agree, same_curves, same_path, same_wheels, wheels_agree, TimelineClip,
};
use std::sync::Arc;
use vstd::prelude::*;
use vstd::string::*;

verus! {

// ── Pixels ────────────────────────────────────────────────────────────────────

/// How the pixels of a frame are packed.
#[derive(Clone, Copy, PartialEq, Eq, Structural, Debug)]
pub enum PixelLayout {
    Rgba,
    Rgb,
}

/// How a frame of so many bytes is packed; none where the bytes fit no packing.
pub open spec fn layout_of(bytes: int, width: int, height: int) -> Option<PixelLayout> {
    if bytes == width * height * 4 {
        Some(PixelLayout::Rgba)
    } else if bytes == width * height * 3 {
        Some(PixelLayout::Rgb)
    } else {
        None
    }
}

/// How a frame of so many bytes is packed.
pub fn pixel_layout(bytes: usize, width: u32, height: u32) -> (l: Option<PixelLayout>)
    ensures
        l == layout_of(bytes as int, width as int, height as int),
{
    assert(0 <= width * height <= 0xffff_ffff * 0xffff_ffff) by (nonlinear_arith)
        requires
            0 <= width <= 0xffff_ffff,
            0 <= height <= 0xffff_ffff,
    ;
    let pixels: u128 = width as u128 * height as u128;
    if bytes as u128 == pixels * 4 {
        Some(PixelLayout::Rgba)
    } else if bytes as u128 == pixels * 3 {
        Some(PixelLayout::Rgb)
    } else {
        None
    }
}

/// A picture without the padding at the end of its rows: the first `n` rows of `row`
/// bytes, each from its place in steps of `stride`.
pub open spec fn packed_rows(plane: Seq<u8>, stride: int, row: int, n: int) -> Seq<u8>
    decreases n,
{
    if n <= 0 {
        Seq::empty()
    } else {
        packed_rows(plane, stride, row, n - 1) + plane.subrange(
            (n - 1) * stride,
            (n - 1) * stride + row,
        )
    }
}

/// Takes the padding off the rows of a picture of three bytes a pixel.
pub fn strip_stride(plane: &Vec<u8>, stride: usize, width: usize, height: usize) -> (r: Vec<u8>)
    requires
        height > 0 ==> (height - 1) * stride + width * 3 <= plane@.len(),
    ensures
        r@ == packed_rows(plane@, stride as int, width * 3, height as int),
{
    let bytes: usize = plane.len();
    let mut r: Vec<u8> = Vec::new();
    let mut y: usize = 0;
    while y < height
        invariant
            y <= height,
            bytes == plane@.len(),
            height > 0 ==> (height - 1) * stride + width * 3 <= plane@.len(),
            r@ == packed_rows(plane@, stride as int, width * 3, y as int),
        decreases height - y,
    {
        assert(0 <= y * stride <= (height - 1) * stride) by (nonlinear_arith)
            requires
                0 <= y < height,
                0 <= stride,
        ;
        assert(width * 3 <= plane@.len() && y * stride + width * 3 <= plane@.len());
        let start: usize = y * stride;
        let row: usize = width * 3;
        let mut x: usize = 0;
        let ghost done = r@;
        assert(plane@.subrange(start as int, start as int) =~= Seq::empty());
        while x < row
            invariant
                x <= row,
                bytes == plane@.len(),
                start + row <= bytes,
                r@ == done + plane@.subrange(start as int, start + x),
            decreases row - x,
        {
            r.push(plane[start + x]);
            x = x + 1;
            assert(r@ =~= done + plane@.subrange(start as int, start + x));
        }
        y = y + 1;
    }
    r
}

/// A picture without padding has three bytes for each pixel.
pub proof fn packed_length(plane: Seq<u8>, stride: int, row: int, n: int)
    requires
        0 <= n,
        0 <= row,
        0 <= stride,
        n > 0 ==> (n - 1) * stride + row <= plane.len(),
    ensures
        packed_rows(plane, stride, row, n).len() == n * row,
    decreases n,
{
    if n > 0 {
        assert(0 <= (n - 1) * stride) by (nonlinear_arith)
            requires
                0 < n,
                0 <= stride,
        ;
        if n > 1 {
            assert((n - 2) * stride <= (n - 1) * stride) by (nonlinear_arith)
                requires
                    1 < n,
                    0 <= stride,
            ;
        }
        packed_length(plane, stride, row, n - 1);
        assert(n * row == (n - 1) * row + row) by (nonlinear_arith);
    } else {
        assert(n * row == 0) by (nonlinear_arith)
            requires
                n == 0,
        ;
    }
}

// ── Sprite sheets ─────────────────────────────────────────────────────────────

/// A sheet of small frames from over the length of a clip.
#[derive(Clone, Copy, PartialEq, Eq, Structural, Debug)]
pub struct SpriteSheetData {
    pub columns: usize,
    pub rows: usize,
    pub frame_count: usize,
    pub clip_duration: Duration,
}

impl SpriteSheetData {
    /// The column and row of the frame with this number; the last frame for numbers
    /// past the end.
    pub fn cell(&self, frame: usize) -> (c: (usize, usize))
        requires
            self.columns > 0,
            self.frame_count > 0,
        ensures
            ({
                let last = self.frame_count - 1;
                let at = if frame < last {
                    frame as int
                } else {
                    last
                };
                c.0 == at % (self.columns as int) && c.1 == at / (self.columns as int)
            }),
            c.0 < self.columns,
    {
        let last: usize = self.frame_count - 1;
        let at: usize = if frame < last {
            frame
        } else {
            last
        };
        (at % self.columns, at / self.columns)
    }
}

// ── The grade of the clip that is shown ───────────────────────────────────────

/// What the grade of a preview depends on. As long as it stays the same, so does the
/// renderer.
#[derive(Debug)]
pub struct PreviewColorSig {
    pub brightness: F32,
    pub contrast: F32,
    pub saturation: F32,
    pub wb_temperature: u32,
    pub wb_tint: F32,
    pub hue_degrees: F32,
    pub gamma_r: F32,
    pub gamma_g: F32,
    pub gamma_b: F32,
    pub wheels: ColorWheels,
    pub curves: Arc<ToneCurves>,
    pub lut_path: Option<String>,
    pub vignette: F32,
    pub vignette_x: F32,
    pub vignette_y: F32,
    pub width: u32,
    pub height: u32,
}

/// Whether two grades are the same.
pub open spec fn same_sig(a: PreviewColorSig, b: PreviewColorSig) -> bool {
    &&& eq32(a.brightness, b.brightness)
    &&& eq32(a.contrast, b.contrast)
    &&& eq32(a.saturation, b.saturation)
    &&& a.wb_temperature == b.wb_temperature
    &&& eq32(a.wb_tint, b.wb_tint)
    &&& eq32(a.hue_degrees, b.hue_degrees)
    &&& eq32(a.gamma_r, b.gamma_r)
    &&& eq32(a.gamma_g, b.gamma_g)
    &&& eq32(a.gamma_b, b.gamma_b)
    &&& same_wheels(a.wheels, b.wheels)
    &&& same_curves(*a.curves, *b.curves)
    &&& same_path(a.lut_path, b.lut_path)
    &&& eq32(a.vignette, b.vignette)
    &&& eq32(a.vignette_x, b.vignette_x)
    &&& eq32(a.vignette_y, b.vignette_y)
    &&& a.width == b.width
    &&& a.height == b.height
}

impl PreviewColorSig {
    /// Whether two grades are the same.
    pub fn same_as(&self, other: &PreviewColorSig) -> (r: bool)
        ensures
            r == same_sig(*self, *other),
    {
        let (a, b) = (self, other);
        let wheels = wheels_agree(a.wheels.lift, b.wheels.lift) && wheels_agree(
            a.wheels.gamma,
            b.wheels.gamma,
        ) && wheels_agree(a.wheels.gain, b.wheels.gain);
        let curves = points_agree(&a.curves.master, &b.curves.master) && points_agree(
            &a.curves.r,
            &b.curves.r,
        ) && points_agree(&a.curves.g, &b.curves.g) && points_agree(&a.curves.b, &b.curves.b);
        a.brightness.equals(b.brightness) && a.contrast.equals(b.contrast) && a.saturation.equals(
            b.saturation,
        ) && a.wb_temperature == b.wb_temperature && a.wb_tint.equals(b.wb_tint)
            && a.hue_degrees.equals(b.hue_degrees) && a.gamma_r.equals(b.gamma_r)
            && a.gamma_g.equals(b.gamma_g) && a.gamma_b.equals(b.gamma_b) && wheels && curves
            && paths_agree(&a.lut_path, &b.lut_path) && a.vignette.equals(b.vignette)
            && a.vignette_x.equals(b.vignette_x) && a.vignette_y.equals(b.vignette_y) && a.width
            == b.width && a.height == b.height
    }
}

/// Whether the renderer has to be built anew for a grade.
pub fn needs_rebuild(cached: &Option<PreviewColorSig>, sig: &PreviewColorSig) -> (r: bool)
    ensures
        r == (cached is None || !same_sig(cached->0, *sig)),
{
    match cached {
        Some(c) => !c.same_as(sig),
        None => true,
    }
}

/// How long a clip is shown: its trim where both ends are set in order, else its whole
/// source; no time without a source.
pub open spec fn shown_length(c: TimelineClip, sources: Seq<ImportedClip>) -> int {
    match (c.in_point, c.out_point) {
        (Some(i), Some(o)) if o.nanos > i.nanos => o.nanos - i.nanos,
        _ => if c.source_index < sources.len() {
            sources[c.source_index as int].duration.nanos as int
        } else {
            0
        },
    }
}

/// Whether a clip is shown at a time.
pub open spec fn shown_at(c: TimelineClip, sources: Seq<ImportedClip>, pts: Duration) -> bool {
    c.start_on_track.nanos <= pts.nanos && pts.nanos < c.start_on_track.nanos + shown_length(
        c,
        sources,
    )
}

/// The first clip from `from` on that is shown at a time, or the end.
pub open spec fn first_shown(
    clips: Seq<TimelineClip>,
    sources: Seq<ImportedClip>,
    pts: Duration,
    from: int,
) -> int
    decreases clips.len() - from,
{
    if from < 0 || from >= clips.len() || shown_at(clips[from], sources, pts) {
        from
    } else {
        first_shown(clips, sources, pts, from + 1)
    }
}

/// How long a clip is shown.
pub fn length_shown(c: &TimelineClip, sources: &Vec<ImportedClip>) -> (d: Duration)
    ensures
        d.nanos == shown_length(*c, sources@),
{
    if let (Some(i), Some(o)) = (c.in_point, c.out_point) {
        if o.nanos > i.nanos {
            return Duration { nanos: o.nanos - i.nanos };
        }
    }
    if c.source_index < sources.len() {
        sources[c.source_index].duration
    } else {
        Duration::zero()
    }
}

/// The place of the clip of the bottom track that is shown at a time.
pub open spec fn active_clip(state: AppState, pts: Duration) -> Option<int> {
    let tracks = state.timeline.lanes();
    if tracks.len() == 0 {
        None
    } else {
        let i = first_shown(tracks[0].clips, state.clips@, pts, 0);
        if i < tracks[0].clips.len() {
            Some(i)
        } else {
            None
        }
    }
}

/// The colours of a clip.
pub open spec fn grade_of(c: TimelineClip) -> ColorGrade {
    ColorGrade {
        brightness: c.brightness,
        contrast: c.contrast,
        saturation: c.saturation,
        wb_temperature: c.wb_temperature,
        wb_tint: c.wb_tint,
        hue_degrees: c.hue_degrees,
        gamma_r: c.gamma_r,
        gamma_g: c.gamma_g,
        gamma_b: c.gamma_b,
        wheels: c.wheels,
        curves: *c.curves,
        lut_path: match c.lut_path {
            Some(p) => Some(p@),
            None => None,
        },
        vignette: c.vignette,
        vignette_x: c.vignette_x,
        vignette_y: c.vignette_y,
    }
}

/// Whether a clip's colours change anything.
pub open spec fn is_graded(c: TimelineClip, width: u32, height: u32) -> bool {
    corrects_color(c.brightness, c.contrast, c.saturation) || grade_steps(
        grade_of(c),
        width,
        height,
    ).len() > 0
}

/// What the grade of a clip depends on.
pub open spec fn sig_of(c: TimelineClip, width: u32, height: u32) -> PreviewColorSig {
    PreviewColorSig {
        brightness: c.brightness,
        contrast: c.contrast,
        saturation: c.saturation,
        wb_temperature: c.wb_temperature,
        wb_tint: c.wb_tint,
        hue_degrees: c.hue_degrees,
        gamma_r: c.gamma_r,
        gamma_g: c.gamma_g,
        gamma_b: c.gamma_b,
        wheels: c.wheels,
        curves: c.curves,
        lut_path: c.lut_path,
        vignette: c.vignette,
        vignette_x: c.vignette_x,
        vignette_y: c.vignette_y,
        width,
        height,
    }
}

/// The path of a clip's source; empty where the source is gone.
pub open spec fn source_path(c: TimelineClip, sources: Seq<ImportedClip>) -> Seq<char> {
    if c.source_index < sources.len() {
        sources[c.source_index as int].path@
    } else {
        Seq::empty()
    }
}

/// Whether `r` is a clip of that source that carries the grade and nothing else.
pub open spec fn carries_grade(
    c: TimelineClip,
    source: Seq<char>,
    width: u32,
    height: u32,
    r: Clip,
) -> bool {
    &&& r.source@ == source
    &&& r.in_point is None
    &&& r.out_point is None
    &&& r.offset.nanos == 0
    &&& r.metadata@.len() == 0
    &&& r.proxy is None
    &&& r.transition_duration.nanos == 0
    &&& r.only_graded()
    &&& video_chain(r) == grade_steps(grade_of(c), width, height)
    &&& (r.brightness, r.contrast, r.saturation) == (if corrects_color(
        c.brightness,
        c.contrast,
        c.saturation,
    ) {
        (c.brightness, c.contrast, c.saturation)
    } else {
        (F32 { bits: F32_ZERO }, F32 { bits: F32_ONE }, F32 { bits: F32_ONE })
    })
}

fn find_shown(
    clips: &Vec<TimelineClip>,
    sources: &Vec<ImportedClip>,
    pts: Duration,
) -> (i: usize)
    ensures
        i == first_shown(clips@, sources@, pts, 0),
        i <= clips@.len(),
{
    let mut i: usize = 0;
    while i < clips.len()
        invariant
            i <= clips@.len(),
            first_shown(clips@, sources@, pts, 0) == first_shown(clips@, sources@, pts, i as int),
        decreases clips@.len() - i,
    {
        let c = &clips[i];
        let length = length_shown(c, sources);
        if c.start_on_track.nanos <= pts.nanos && pts.nanos - c.start_on_track.nanos
            < length.nanos {
            return i;
        }
        i = i + 1;
    }
    i
}

/// The grade of the clip that is shown at a time, and what it depends on; none where
/// no clip is shown or its colours change nothing.
pub fn active_clip_grade(
    state: &AppState,
    pts: Duration,
    width: u32,
    height: u32,
) -> (r: Option<(PreviewColorSig, Clip)>)
    ensures
        match active_clip(*state, pts) {
            Some(i) => {
                let c = state.timeline.lanes()[0].clips[i];
                if is_graded(c, width, height) {
                    r is Some && (r->Some_0).0 == sig_of(c, width, height) && carries_grade(
                        c,
                        source_path(c, state.clips@),
                        width,
                        height,
                        (r->Some_0).1,
                    )
                } else {
                    r is None
                }
            },
            None => r is None,
        },
{
    if state.timeline.tracks.len() == 0 {
        return None;
    }
    let clips = &state.timeline.tracks[0].clips;
    assert(state.timeline.lanes()[0].clips == clips@);
    let at: usize = find_shown(clips, &state.clips, pts);
    if at >= clips.len() {
        return None;
    }
    let c = &clips[at];
    let source = if c.source_index < state.clips.len() {
        Clip::new(state.clips[c.source_index].path.as_str())
    } else {
        Clip::new("")
    };
    let ghost plain = source;
    assert(plain.source@ =~= source_path(*c, state.clips@)) by {
        reveal_strlit("");
    }
    assert(video_chain(plain) =~= Seq::empty());
    let lut = match &c.lut_path {
        Some(p) => Some(p.as_str()),
        None => None,
    };
    let clip = apply_color_grade(
        source,
        c.brightness,
        c.contrast,
        c.saturation,
        c.wb_temperature,
        c.wb_tint,
        c.hue_degrees,
        c.gamma_r,
        c.gamma_g,
        c.gamma_b,
        &c.wheels,
        &c.curves,
        lut,
        c.vignette,
        c.vignette_x,
        c.vignette_y,
        width,
        height,
    );
    proof {
        assert(lut_text(lut) == grade_of(*c).lut_path);
        assert(video_chain(clip) =~= grade_steps(grade_of(*c), width, height));
        assert(clip.video_effects@.len() == video_chain(clip).len());
    }
    let neutral = c.brightness.is_zero() && c.contrast.is_one() && c.saturation.is_one();
    if neutral && clip.video_effects.len() == 0 {
        return None;
    }
    let sig = PreviewColorSig {
        brightness: c.brightness,
        contrast: c.contrast,
        saturation: c.saturation,
        wb_temperature: c.wb_temperature,
        wb_tint: c.wb_tint,
        hue_degrees: c.hue_degrees,
        gamma_r: c.gamma_r,
        gamma_g: c.gamma_g,
        gamma_b: c.gamma_b,
        wheels: c.wheels,
        curves: Arc::clone(&c.curves),
        lut_path: c.lut_path.clone(),
        vignette: c.vignette,
        vignette_x: c.vignette_x,
        vignette_y: c.vignette_y,
        width,
        height,
    };
    Some((sig, clip))
}

/// Four bytes for each pixel are red, green, blue and alpha, three are without alpha; any
/// other number of bytes is no picture.
pub proof fn bytes_tell_the_layout(bytes: int, width: int, height: int)
    requires
        0 < width,
        0 < height,
    ensures
        layout_of(4 * (width * height), width, height) == Some(PixelLayout::Rgba),
        layout_of(3 * (width * height), width, height) == Some(PixelLayout::Rgb),
        bytes != 4 * (width * height) && bytes != 3 * (width * height) ==> layout_of(
            bytes,
            width,
            height,
        ) is None,
{
    assert(width * height > 0) by (nonlinear_arith)
        requires
            0 < width,
            0 < height,
    ;
}

/// Without its padding a picture has the same bytes in the same rows: the byte at `x` of
/// row `y` is the one at `x` of that row before.
pub proof fn pixels_stay_in_their_rows(
    plane: Seq<u8>,
    stride: int,
    row: int,
    n: int,
    y: int,
    x: int,
)
    requires
        0 <= y < n,
        0 <= x < row,
        0 <= stride,
        (n - 1) * stride + row <= plane.len(),
    ensures
        0 <= y * row + x < packed_rows(plane, stride, row, n).len(),
        packed_rows(plane, stride, row, n)[y * row + x] == plane[y * stride + x],
    decreases n,
{
    packed_length(plane, stride, row, n);
    assert(0 <= (n - 1) * stride) by (nonlinear_arith)
        requires
            0 < n,
            0 <= stride,
    ;
    assert(0 <= y * row && y * row + row <= n * row) by (nonlinear_arith)
        requires
            0 <= y < n,
            0 < row,
    ;
    if n > 1 {
        assert((n - 2) * stride <= (n - 1) * stride) by (nonlinear_arith)
            requires
                1 < n,
                0 <= stride,
        ;
    }
    packed_length(plane, stride, row, n - 1);
    if y < n - 1 {
        pixels_stay_in_their_rows(plane, stride, row, n - 1, y, x);
    }
}

/// A clip with both marks in order is shown from the one to the other; any other for the
/// length of its source, and not at all without one.
pub proof fn clip_is_shown_between_its_marks(c: TimelineClip, sources: Seq<ImportedClip>)
    ensures
        c.in_point is Some && c.out_point is Some && c.in_point->0.nanos < c.out_point->0.nanos
            ==> c.in_point->0.nanos + shown_length(c, sources) == c.out_point->0.nanos,
        c.in_point is None || c.out_point is None || c.in_point->0.nanos >= c.out_point->0.nanos
            ==> {
            &&& c.source_index < sources.len() ==> shown_length(c, sources)
                == sources[c.source_index as int].duration.nanos
            &&& c.source_index >= sources.len() ==> shown_length(c, sources) == 0
        },
{
}

proof fn first_shown_bounds(
    clips: Seq<TimelineClip>,
    sources: Seq<ImportedClip>,
    pts: Duration,
    from: int,
)
    requires
        0 <= from <= clips.len(),
    ensures
        from <= first_shown(clips, sources, pts, from) <= clips.len(),
        first_shown(clips, sources, pts, from) < clips.len() ==> shown_at(
            clips[first_shown(clips, sources, pts, from)],
            sources,
            pts,
        ),
        forall|k: int|
            from <= k < first_shown(clips, sources, pts, from) ==> !shown_at(
                #[trigger] clips[k],
                sources,
                pts,
            ),
    decreases clips.len() - from,
{
    if from < clips.len() && !shown_at(clips[from], sources, pts) {
        first_shown_bounds(clips, sources, pts, from + 1);
    }
}

/// The clip whose colours are shown is the first one of the bottom track that the time
/// falls into; there is none where it falls into no clip.
pub proof fn shown_clip_is_under_the_time(state: AppState, pts: Duration)
    ensures
        state.timeline.tracks@.len() == 0 ==> active_clip(state, pts) is None,
        state.timeline.tracks@.len() > 0 ==> {
            let clips = state.timeline.tracks@[0].clips@;
            match active_clip(state, pts) {
                Some(i) => {
                    &&& 0 <= i < clips.len()
                    &&& clips[i].start_on_track.nanos <= pts.nanos
                    &&& pts.nanos < clips[i].start_on_track.nanos + shown_length(
                        clips[i],
                        state.clips@,
                    )
                    &&& forall|k: int|
                        0 <= k < i ==> pts.nanos < (#[trigger] clips[k]).start_on_track.nanos
                            || pts.nanos >= clips[k].start_on_track.nanos + shown_length(
                            clips[k],
                            state.clips@,
                        )
                },
                None => forall|k: int|
                    0 <= k < clips.len() ==> pts.nanos < (#[trigger] clips[k]).start_on_track.nanos
                        || pts.nanos >= clips[k].start_on_track.nanos + shown_length(
                        clips[k],
                        state.clips@,
                    ),
            }
        },
{
    if state.timeline.tracks@.len() > 0 {
        let clips = state.timeline.tracks@[0].clips@;
        assert(state.timeline.lanes()[0].clips == clips);
        first_shown_bounds(clips, state.clips@, pts, 0);
        let at = first_shown(clips, state.clips@, pts, 0);
        assert forall|k: int| 0 <= k < at implies pts.nanos < (
        #[trigger] clips[k]).start_on_track.nanos || pts.nanos >= clips[k].start_on_track.nanos
            + shown_length(clips[k], state.clips@) by {
            assert(!shown_at(clips[k], state.clips@, pts));
        }
    }
}

/// A preview has the colours of its clip: each one under its own name.
pub proof fn preview_has_the_clips_colors(c: TimelineClip)
    ensures
        ({
            let g = grade_of(c);
            &&& g.brightness == c.brightness
            &&& g.contrast == c.contrast
            &&& g.saturation == c.saturation
            &&& g.wb_temperature == c.wb_temperature
            &&& g.wb_tint == c.wb_tint
            &&& g.hue_degrees == c.hue_degrees
            &&& g.gamma_r == c.gamma_r
            &&& g.gamma_g == c.gamma_g
            &&& g.gamma_b == c.gamma_b
            &&& g.wheels == c.wheels
            &&& g.curves == *c.curves
            &&& g.lut_path is Some <==> c.lut_path is Some
            &&& c.lut_path is Some ==> g.lut_path->0 == c.lut_path->0@
            &&& g.vignette == c.vignette
            &&& g.vignette_x == c.vignette_x
            &&& g.vignette_y == c.vignette_y
        }),
{
}

/// The renderer of a preview is kept only while every colour of the clip and the size of
/// the frame are the same as when it was built.
pub proof fn changed_color_is_seen(
    a: TimelineClip,
    b: TimelineClip,
    width: u32,
    height: u32,
    other_width: u32,
    other_height: u32,
)
    requires
        same_sig(sig_of(a, width, height), sig_of(b, other_width, other_height)),
    ensures
        eq32(a.brightness, b.brightness),
        eq32(a.contrast, b.contrast),
        eq32(a.saturation, b.saturation),
        a.wb_temperature == b.wb_temperature,
        eq32(a.wb_tint, b.wb_tint),
        eq32(a.hue_degrees, b.hue_degrees),
        eq32(a.gamma_r, b.gamma_r) && eq32(a.gamma_g, b.gamma_g) && eq32(a.gamma_b, b.gamma_b),
        eq32(a.wheels.lift.x, b.wheels.lift.x) && eq32(a.wheels.lift.y, b.wheels.lift.y) && eq32(
            a.wheels.lift.luma,
            b.wheels.lift.luma,
        ),
        eq32(a.wheels.gamma.x, b.wheels.gamma.x) && eq32(a.wheels.gamma.y, b.wheels.gamma.y)
            && eq32(a.wheels.gamma.luma, b.wheels.gamma.luma),
        eq32(a.wheels.gain.x, b.wheels.gain.x) && eq32(a.wheels.gain.y, b.wheels.gain.y) && eq32(
            a.wheels.gain.luma,
            b.wheels.gain.luma,
        ),
        a.curves.master@.len() == b.curves.master@.len() && a.curves.r@.len() == b.curves.r@.len(),
        a.curves.g@.len() == b.curves.g@.len() && a.curves.b@.len() == b.curves.b@.len(),
        a.lut_path is Some <==> b.lut_path is Some,
        a.lut_path is Some ==> a.lut_path->0@ == b.lut_path->0@,
        eq32(a.vignette, b.vignette) && eq32(a.vignette_x, b.vignette_x) && eq32(
            a.vignette_y,
            b.vignette_y,
        ),
        width == other_width && height == other_height,
{
}

/// The renderer is kept where colours and size are the same as when it was built.
pub proof fn unchanged_color_is_kept(a: TimelineClip, b: TimelineClip, width: u32, height: u32)
    requires
        eq32(a.brightness, b.brightness),
        eq32(a.contrast, b.contrast),
        eq32(a.saturation, b.saturation),
        a.wb_temperature == b.wb_temperature,
        eq32(a.wb_tint, b.wb_tint),
        eq32(a.hue_degrees, b.hue_degrees),
        eq32(a.gamma_r, b.gamma_r) && eq32(a.gamma_g, b.gamma_g) && eq32(a.gamma_b, b.gamma_b),
        same_wheels(a.wheels, b.wheels),
        same_curves(*a.curves, *b.curves),
        same_path(a.lut_path, b.lut_path),
        eq32(a.vignette, b.vignette) && eq32(a.vignette_x, b.vignette_x) && eq32(
            a.vignette_y,
            b.vignette_y,
        ),
    ensures
        same_sig(sig_of(a, width, height), sig_of(b, width, height)),
{
}

/// What is rendered for a preview is the source of the clip, untrimmed and at the start,
/// with the clip's brightness, contrast and saturation and nothing else but its grade.
pub proof fn preview_renders_only_the_grade(
    c: TimelineClip,
    sources: Seq<ImportedClip>,
    width: u32,
    height: u32,
    r: Clip,
)
    requires
        carries_grade(c, source_path(c, sources), width, height, r),
    ensures
        c.source_index < sources.len() ==> r.source@ == sources[c.source_index as int].path@,
        c.source_index >= sources.len() ==> r.source@.len() == 0,
        r.in_point is None && r.out_point is None && r.proxy is None,
        r.offset.nanos == 0,
        keeps32(r.brightness, c.brightness),
        keeps32(r.contrast, c.contrast),
        keeps32(r.saturation, c.saturation),
        one32(r.speed) && one32(r.opacity) && zero32(r.volume_db),
        zero32(r.x) && zero32(r.y),
        r.fade_in.nanos == 0 && r.fade_out.nanos == 0,
        r.transition is None && r.blend_mode == BlendMode::Normal,
        r.audio_effects@.len() == 0,
        chain_of(r.video_effects@) == grade_steps(grade_of(c), width, height),
{
}

/// A clip is shown with a grade as soon as one of its colours is not neutral.
pub proof fn any_color_makes_a_grade(c: TimelineClip, width: u32, height: u32)
    ensures
        !zero32(c.brightness) || !one32(c.contrast) || !one32(c.saturation) ==> is_graded(
            c,
            width,
            height,
        ),
        c.wb_temperature != 6500 || !zero32(c.wb_tint) || !zero32(c.hue_degrees) ==> is_graded(
            c,
            width,
            height,
        ),
        !one32(c.gamma_r) || !one32(c.gamma_g) || !one32(c.gamma_b) || c.lut_path is Some
            ==> is_graded(c, width, height),
        c.curves.master@.len() > 0 || c.curves.r@.len() > 0 || c.curves.g@.len() > 0
            || c.curves.b@.len() > 0 ==> is_graded(c, width, height),
        positive32(c.vignette) && width > 0 && height > 0 ==> is_graded(c, width, height),
{
    grade_has_its_parts(grade_of(c), width, height);
}

} // verus!
