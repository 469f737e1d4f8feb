//! The plan of an export: which clips are rendered, on which canvas, with which
//! titles and which sound, and the queue of exports.

use crate::effects::{Clip, FramePixels};
use crate::export_clip::{can_render, clips_to_avio, rendered, ExportClip};
use crate::float::{F64, F64_THIRTY};
use crate::presets::{EncoderConfigDraft, ExportFilterDraft};
use crate::range::{
    clip_range_filter, later, range_filtered, timing_fits, title_range_filter, titles_in_range,
    RangeTiming,
};
use crate::state::TitleClip;
use crate::time::{Duration, MAX_NANOS};
use crate::titles::{any_text, build_lavfi_overlay_filter, draw_titles, title_canvas, TitleTimes};
use vstd::prelude::*;

verus! {

/// All that an export needs, as it was when the export was asked for.
#[derive(Debug)]
pub struct ExportSnapshot {
    /// The clips of every video track, bottom track first.
    pub video_clips: Vec<Vec<ExportClip>>,
    pub a1_clips: Vec<ExportClip>,
    pub encoder_config: EncoderConfigDraft,
    pub export_filters: ExportFilterDraft,
    pub loudness_normalize: bool,
    pub loudness_target: F64,
    pub title_clips: Vec<TitleClip>,
    /// The range to export, where there is one.
    pub export_in: Option<Duration>,
    pub export_out: Option<Duration>,
    /// The canvas of the project's aspect ratio, where it has one.
    pub canvas: Option<(u32, u32)>,
}

// ── Range ─────────────────────────────────────────────────────────────────────

/// The range of an export: both ends set, the first before the second.
pub open spec fn export_range(s: ExportSnapshot) -> Option<(Duration, Duration)> {
    match (s.export_in, s.export_out) {
        (Some(i), Some(o)) => if i.nanos < o.nanos {
            Some((i, o))
        } else {
            None
        },
        _ => None,
    }
}

/// The timings match the clips of a track.
pub open spec fn timings_match(clips: Seq<ExportClip>, timings: Seq<RangeTiming>) -> bool {
    timings.len() == clips.len() && forall|i: int|
        0 <= i < clips.len() ==> timing_fits(#[trigger] clips[i], timings[i])
}

/// The timings match the clips of every track.
pub open spec fn tracks_match(
    tracks: Seq<Vec<ExportClip>>,
    timings: Seq<Vec<RangeTiming>>,
) -> bool {
    timings.len() == tracks.len() && forall|i: int|
        0 <= i < tracks.len() ==> timings_match(#[trigger] tracks[i]@, timings[i]@)
}

fn filter_tracks(
    tracks: Vec<Vec<ExportClip>>,
    timings: &Vec<Vec<RangeTiming>>,
    range_in: Duration,
    range_out: Duration,
) -> (out: Vec<Vec<ExportClip>>)
    requires
        tracks_match(tracks@, timings@),
    ensures
        out@.len() == tracks@.len(),
        forall|i: int|
            0 <= i < tracks@.len() ==> (#[trigger] out@[i])@ == range_filtered(
                tracks@[i]@,
                timings@[i]@,
                range_in,
                range_out,
            ),
{
    let ghost all = tracks@;
    let total: usize = timings.len();
    let mut out: Vec<Vec<ExportClip>> = Vec::new();
    let mut n: usize = 0;
    for track in it: tracks
        invariant
            it.seq() == all,
            n == it.index(),
            total == timings@.len(),
            tracks_match(all, timings@),
            out@.len() == n,
            forall|i: int|
                0 <= i < n ==> (#[trigger] out@[i])@ == range_filtered(
                    all[i]@,
                    timings@[i]@,
                    range_in,
                    range_out,
                ),
    {
        assert(track == all[n as int]);
        assert(timings_match(all[n as int]@, timings@[n as int]@));
        out.push(clip_range_filter(track, &timings[n], range_in, range_out));
        n = n + 1;
    }
    out
}

/// Cuts clips and titles down to the range of the export. Without a range
/// nothing changes.
pub fn apply_range(
    snapshot: ExportSnapshot,
    video_timings: &Vec<Vec<RangeTiming>>,
    a1_timings: &Vec<RangeTiming>,
) -> (r: ExportSnapshot)
    requires
        export_range(snapshot) is Some ==> {
            &&& tracks_match(snapshot.video_clips@, video_timings@)
            &&& timings_match(snapshot.a1_clips@, a1_timings@)
            &&& forall|i: int|
                0 <= i < snapshot.title_clips@.len() ==> (
                #[trigger] snapshot.title_clips@[i]).start_on_track.nanos
                    + snapshot.title_clips@[i].duration.nanos <= MAX_NANOS
        },
    ensures
        r == (ExportSnapshot {
            video_clips: r.video_clips,
            a1_clips: r.a1_clips,
            title_clips: r.title_clips,
            ..snapshot
        }),
        match export_range(snapshot) {
            Some((i, o)) => {
                &&& r.video_clips@.len() == snapshot.video_clips@.len()
                &&& forall|t: int|
                    0 <= t < snapshot.video_clips@.len() ==> (#[trigger] r.video_clips@[t])@
                        == range_filtered(
                        snapshot.video_clips@[t]@,
                        video_timings@[t]@,
                        i,
                        o,
                    )
                &&& r.a1_clips@ == range_filtered(snapshot.a1_clips@, a1_timings@, i, o)
                &&& r.title_clips@ == titles_in_range(snapshot.title_clips@, i, o)
            },
            None => r == snapshot,
        },
{
    let mut s = snapshot;
    if let (Some(range_in), Some(range_out)) = (s.export_in, s.export_out) {
        if range_in.nanos < range_out.nanos {
            s.video_clips = filter_tracks(s.video_clips, video_timings, range_in, range_out);
            s.a1_clips = clip_range_filter(s.a1_clips, a1_timings, range_in, range_out);
            s.title_clips = title_range_filter(s.title_clips, range_in, range_out);
        }
    }
    s
}

// ── Length ────────────────────────────────────────────────────────────────────

/// How long a clip counts for: from in to out point, up to the out point where
/// only that is set, else the whole source.
pub open spec fn counted_length(c: ExportClip) -> int {
    match (c.in_point, c.out_point) {
        (Some(i), Some(o)) => later(o.nanos - i.nanos, 0),
        (None, Some(o)) => o.nanos as int,
        _ => c.source_duration.nanos as int,
    }
}

/// When a clip ends on the timeline.
pub open spec fn clip_end(c: ExportClip) -> int {
    c.start_on_track.nanos + counted_length(c)
}

/// `end` is the latest end of all clips, or zero where there is none.
pub open spec fn is_latest_end(tracks: Seq<Vec<ExportClip>>, end: int) -> bool {
    &&& forall|t: int, i: int|
        0 <= t < tracks.len() && 0 <= i < tracks[t]@.len() ==> clip_end(#[trigger] tracks[t]@[i])
            <= end
    &&& end == 0 || exists|t: int, i: int|
        0 <= t < tracks.len() && 0 <= i < tracks[t]@.len() && clip_end(#[trigger] tracks[t]@[i])
            == end
    &&& end >= 0
}

fn end_of(c: &ExportClip) -> (d: Duration)
    requires
        clip_end(*c) <= MAX_NANOS,
    ensures
        d.nanos == clip_end(*c),
{
    let length = match (c.in_point, c.out_point) {
        (Some(i), Some(o)) => o.saturating_sub(i),
        (None, Some(o)) => o,
        _ => c.source_duration,
    };
    c.start_on_track.plus(length)
}

/// The end of the last clip to end, over all video tracks.
pub fn timeline_end(tracks: &Vec<Vec<ExportClip>>) -> (end: Duration)
    requires
        forall|t: int, i: int|
            0 <= t < tracks@.len() && 0 <= i < tracks@[t]@.len() ==> clip_end(
                #[trigger] tracks@[t]@[i],
            ) <= MAX_NANOS,
    ensures
        is_latest_end(tracks@, end.nanos as int),
{
    let mut end = Duration::zero();
    let mut t: usize = 0;
    while t < tracks.len()
        invariant
            t <= tracks@.len(),
            forall|u: int, i: int|
                0 <= u < tracks@.len() && 0 <= i < tracks@[u]@.len() ==> clip_end(
                    #[trigger] tracks@[u]@[i],
                ) <= MAX_NANOS,
            forall|u: int, i: int|
                0 <= u < t && 0 <= i < tracks@[u]@.len() ==> clip_end(#[trigger] tracks@[u]@[i])
                    <= end.nanos,
            end.nanos == 0 || exists|u: int, i: int|
                0 <= u < t && 0 <= i < tracks@[u]@.len() && clip_end(#[trigger] tracks@[u]@[i])
                    == end.nanos,
        decreases tracks@.len() - t,
    {
        let track = &tracks[t];
        let mut i: usize = 0;
        while i < track.len()
            invariant
                t < tracks@.len(),
                track@ == tracks@[t as int]@,
                i <= track@.len(),
                forall|u: int, k: int|
                    0 <= u < tracks@.len() && 0 <= k < tracks@[u]@.len() ==> clip_end(
                        #[trigger] tracks@[u]@[k],
                    ) <= MAX_NANOS,
                forall|u: int, k: int|
                    0 <= u < t && 0 <= k < tracks@[u]@.len() ==> clip_end(
                        #[trigger] tracks@[u]@[k],
                    ) <= end.nanos,
                forall|k: int| 0 <= k < i ==> clip_end(#[trigger] track@[k]) <= end.nanos,
                end.nanos == 0 || exists|u: int, k: int|
                    0 <= u <= t && 0 <= k < tracks@[u]@.len() && clip_end(
                        #[trigger] tracks@[u]@[k],
                    ) == end.nanos,
            decreases track@.len() - i,
        {
            assert(clip_end(tracks@[t as int]@[i as int]) <= MAX_NANOS);
            end = end.max(end_of(&track[i]));
            i = i + 1;
        }
        t = t + 1;
    }
    end
}

/// The frame rate that the length of an export is counted in: that of the first
/// clip of the first track, or 30.
pub fn export_frame_rate(tracks: &Vec<Vec<ExportClip>>) -> (fps: F64)
    ensures
        fps == (if tracks@.len() > 0 && tracks@[0]@.len() > 0 {
            tracks@[0]@[0].fps
        } else {
            F64 { bits: F64_THIRTY }
        }),
{
    if tracks.len() > 0 && tracks[0].len() > 0 {
        tracks[0][0].fps
    } else {
        F64 { bits: F64_THIRTY }
    }
}

// ── Canvas ────────────────────────────────────────────────────────────────────

/// The canvas of the output: that of the aspect ratio, or else the chosen size
/// where scaling is on.
pub open spec fn output_canvas(s: ExportSnapshot) -> Option<(u32, u32)> {
    match s.canvas {
        Some(c) => Some(c),
        None => if s.export_filters.scale_enabled {
            Some((s.export_filters.output_width, s.export_filters.output_height))
        } else {
            None
        },
    }
}

/// The frame that titles are laid out in.
pub open spec fn title_frame(s: ExportSnapshot) -> (u32, u32) {
    match output_canvas(s) {
        Some(c) => c,
        None => (s.export_filters.output_width, s.export_filters.output_height),
    }
}

impl ExportSnapshot {
    /// The canvas of the output.
    pub fn builder_canvas(&self) -> (c: Option<(u32, u32)>)
        ensures
            c == output_canvas(*self),
    {
        match self.canvas {
            Some(c) => Some(c),
            None => if self.export_filters.scale_enabled {
                Some((self.export_filters.output_width, self.export_filters.output_height))
            } else {
                None
            },
        }
    }

    /// The frame that titles are laid out in.
    pub fn overlay_size(&self) -> (d: (u32, u32))
        ensures
            d == title_frame(*self),
    {
        match self.builder_canvas() {
            Some(c) => c,
            None => (self.export_filters.output_width, self.export_filters.output_height),
        }
    }
}

// ── Plan ──────────────────────────────────────────────────────────────────────

/// What is handed to the renderer.
#[derive(Debug)]
pub struct RenderPlan {
    pub canvas: Option<(u32, u32)>,
    /// The filter graph of the titles.
    pub overlay: Option<String>,
    /// The clips of every video track.
    pub video: Vec<Vec<Clip>>,
    /// The video tracks that are composited, bottom first.
    pub video_order: Vec<usize>,
    /// The video tracks whose sound is mixed in.
    pub audio_order: Vec<usize>,
    /// The clips of the audio track; mixed in where there are any.
    pub a1: Vec<Clip>,
}

/// Why an export cannot be rendered.
#[derive(Clone, Copy, PartialEq, Eq, Structural, Debug)]
pub enum ExportError {
    /// The bottom video track has no clips.
    NoClips,
}

impl ExportError {
    /// What the user is told.
    pub fn message(self) -> (s: &'static str)
        ensures
            s@ == "V1 track has no clips to export"@,
    {
        "V1 track has no clips to export"
    }
}

/// The positions at which a flag is set, in order.
pub open spec fn set_positions(flags: Seq<bool>) -> Seq<usize>
    decreases flags.len(),
{
    if flags.len() == 0 {
        Seq::empty()
    } else {
        let rest = set_positions(flags.drop_last());
        if flags.last() {
            rest.push((flags.len() - 1) as usize)
        } else {
            rest
        }
    }
}

/// Some clip of the track has sound.
pub open spec fn has_sound(track: Seq<ExportClip>) -> bool {
    exists|i: int| 0 <= i < track.len() && (#[trigger] track[i]).has_audio
}

/// Which tracks have clips.
pub open spec fn filled(tracks: Seq<Vec<ExportClip>>) -> Seq<bool> {
    tracks.map_values(|t: Vec<ExportClip>| t@.len() > 0)
}

/// Which tracks have clips with sound.
pub open spec fn sounding(tracks: Seq<Vec<ExportClip>>) -> Seq<bool> {
    tracks.map_values(|t: Vec<ExportClip>| has_sound(t@))
}

/// Some clip ends after the start of the timeline.
pub open spec fn lasts(tracks: Seq<Vec<ExportClip>>) -> bool {
    exists|t: int, i: int|
        0 <= t < tracks.len() && 0 <= i < tracks[t]@.len() && clip_end(#[trigger] tracks[t]@[i])
            > 0
}

fn positions(flags: &Vec<bool>) -> (v: Vec<usize>)
    ensures
        v@ == set_positions(flags@),
{
    let mut v: Vec<usize> = Vec::new();
    let mut i: usize = 0;
    while i < flags.len()
        invariant
            i <= flags@.len(),
            v@ == set_positions(flags@.take(i as int)),
        decreases flags@.len() - i,
    {
        assert(flags@.take(i + 1).drop_last() =~= flags@.take(i as int));
        if flags[i] {
            v.push(i);
        }
        i = i + 1;
    }
    assert(flags@.take(i as int) =~= flags@);
    v
}

fn any_sound(track: &Vec<ExportClip>) -> (r: bool)
    ensures
        r == has_sound(track@),
{
    let mut i: usize = 0;
    while i < track.len()
        invariant
            i <= track@.len(),
            forall|k: int| 0 <= k < i ==> !(#[trigger] track@[k]).has_audio,
        decreases track@.len() - i,
    {
        if track[i].has_audio {
            return true;
        }
        i = i + 1;
    }
    false
}

fn flags_of(tracks: &Vec<Vec<ExportClip>>) -> (f: (Vec<bool>, Vec<bool>))
    ensures
        f.0@ == filled(tracks@),
        f.1@ == sounding(tracks@),
{
    let mut full: Vec<bool> = Vec::new();
    let mut loud: Vec<bool> = Vec::new();
    let mut i: usize = 0;
    while i < tracks.len()
        invariant
            i <= tracks@.len(),
            full@ == filled(tracks@.take(i as int)),
            loud@ == sounding(tracks@.take(i as int)),
        decreases tracks@.len() - i,
    {
        full.push(tracks[i].len() > 0);
        loud.push(any_sound(&tracks[i]));
        i = i + 1;
        assert(full@ =~= filled(tracks@.take(i as int)));
        assert(loud@ =~= sounding(tracks@.take(i as int)));
    }
    assert(tracks@.take(i as int) =~= tracks@);
    (full, loud)
}

/// Every clip of a track can be rendered.
pub open spec fn can_render_track(
    clips: Seq<ExportClip>,
    canvas: Option<(u32, u32)>,
    px: Seq<FramePixels>,
) -> bool {
    px.len() == clips.len() && forall|i: int|
        0 <= i < clips.len() ==> can_render(#[trigger] clips[i], canvas, px[i])
}

/// Every clip of a track is rendered.
pub open spec fn rendered_track(
    out: Seq<Clip>,
    clips: Seq<ExportClip>,
    canvas: Option<(u32, u32)>,
    px: Seq<FramePixels>,
) -> bool {
    out.len() == clips.len() && forall|i: int|
        0 <= i < clips.len() ==> rendered(#[trigger] out[i], clips[i], canvas, px[i])
}

fn render_tracks(
    tracks: &Vec<Vec<ExportClip>>,
    canvas: Option<(u32, u32)>,
    px: &Vec<Vec<FramePixels>>,
) -> (out: Vec<Vec<Clip>>)
    requires
        px@.len() == tracks@.len(),
        forall|t: int|
            0 <= t < tracks@.len() ==> can_render_track(#[trigger] tracks@[t]@, canvas, px@[t]@),
    ensures
        out@.len() == tracks@.len(),
        forall|t: int|
            0 <= t < tracks@.len() ==> rendered_track(
                #[trigger] out@[t]@,
                tracks@[t]@,
                canvas,
                px@[t]@,
            ),
{
    let mut out: Vec<Vec<Clip>> = Vec::new();
    let mut t: usize = 0;
    while t < tracks.len()
        invariant
            t <= tracks@.len(),
            px@.len() == tracks@.len(),
            forall|u: int|
                0 <= u < tracks@.len() ==> can_render_track(
                    #[trigger] tracks@[u]@,
                    canvas,
                    px@[u]@,
                ),
            out@.len() == t,
            forall|u: int|
                0 <= u < t ==> rendered_track(#[trigger] out@[u]@, tracks@[u]@, canvas, px@[u]@),
        decreases tracks@.len() - t,
    {
        assert(can_render_track(tracks@[t as int]@, canvas, px@[t as int]@));
        out.push(clips_to_avio(&tracks[t], canvas, &px[t]));
        t = t + 1;
    }
    out
}

/// What the plan of an export holds.
pub open spec fn plans(
    p: RenderPlan,
    s: ExportSnapshot,
    video_px: Seq<Vec<FramePixels>>,
    a1_px: Seq<FramePixels>,
    times: Seq<TitleTimes>,
    duration: Seq<char>,
) -> bool {
    &&& p.canvas == output_canvas(s)
    &&& p.video@.len() == s.video_clips@.len()
    &&& forall|t: int|
        0 <= t < s.video_clips@.len() ==> rendered_track(
            #[trigger] p.video@[t]@,
            s.video_clips@[t]@,
            s.canvas,
            video_px[t]@,
        )
    &&& rendered_track(p.a1@, s.a1_clips@, s.canvas, a1_px)
    &&& p.video_order@ == set_positions(filled(s.video_clips@))
    &&& p.audio_order@ == set_positions(sounding(s.video_clips@))
    &&& match p.overlay {
        Some(graph) => lasts(s.video_clips@) && any_text(s.title_clips@) && graph@ == title_canvas(
            title_frame(s).0,
            title_frame(s).1,
            duration,
        ) + draw_titles(s.title_clips@, times),
        None => !lasts(s.video_clips@) || !any_text(s.title_clips@),
    }
}

/// Plans an export. `times` and `duration` are the times of the titles and the
/// length of the timeline as text.
pub fn render_plan(
    s: &ExportSnapshot,
    video_px: &Vec<Vec<FramePixels>>,
    a1_px: &Vec<FramePixels>,
    times: &Vec<TitleTimes>,
    duration: &str,
) -> (r: Result<RenderPlan, ExportError>)
    requires
        video_px@.len() == s.video_clips@.len(),
        forall|t: int|
            0 <= t < s.video_clips@.len() ==> can_render_track(
                #[trigger] s.video_clips@[t]@,
                s.canvas,
                video_px@[t]@,
            ),
        can_render_track(s.a1_clips@, s.canvas, a1_px@),
        times@.len() == s.title_clips@.len(),
        forall|t: int, i: int|
            0 <= t < s.video_clips@.len() && 0 <= i < s.video_clips@[t]@.len() ==> clip_end(
                #[trigger] s.video_clips@[t]@[i],
            ) <= MAX_NANOS,
    ensures
        match r {
            Ok(p) => s.video_clips@.len() > 0 && s.video_clips@[0]@.len() > 0 && plans(
                p,
                *s,
                video_px@,
                a1_px@,
                times@,
                duration@,
            ),
            Err(e) => e == ExportError::NoClips && (s.video_clips@.len() == 0
                || s.video_clips@[0]@.len() == 0),
        },
{
    if s.video_clips.len() == 0 || s.video_clips[0].len() == 0 {
        return Err(ExportError::NoClips);
    }
    let end = timeline_end(&s.video_clips);
    let (w, h) = s.overlay_size();
    let overlay = if end.nanos > 0 {
        build_lavfi_overlay_filter(&s.title_clips, times, w, h, duration)
    } else {
        None
    };
    let (full, loud) = flags_of(&s.video_clips);
    Ok(
        RenderPlan {
            canvas: s.builder_canvas(),
            overlay,
            video: render_tracks(&s.video_clips, s.canvas, video_px),
            video_order: positions(&full),
            audio_order: positions(&loud),
            a1: clips_to_avio(&s.a1_clips, s.canvas, a1_px),
        },
    )
}

/// The bottom track of a plan is always composited, and first.
pub proof fn bottom_track_comes_first(tracks: Seq<Vec<ExportClip>>)
    requires
        tracks.len() > 0,
        tracks[0]@.len() > 0,
    ensures
        set_positions(filled(tracks)).len() > 0,
        set_positions(filled(tracks))[0] == 0,
    decreases tracks.len(),
{
    assert(filled(tracks).drop_last() =~= filled(tracks.drop_last()));
    if tracks.len() > 1 {
        bottom_track_comes_first(tracks.drop_last());
    } else {
        assert(filled(tracks).last());
        assert(set_positions(filled(tracks).drop_last()).len() == 0);
    }
}

/// The listed positions are those whose flag is set, in ascending order.
pub proof fn set_positions_are_exact(flags: Seq<bool>)
    requires
        flags.len() <= usize::MAX,
    ensures
        forall|k: int|
            0 <= k < set_positions(flags).len() ==> (#[trigger] set_positions(flags)[k])
                < flags.len() && flags[set_positions(flags)[k] as int],
        forall|j: int, k: int|
            0 <= j < k < set_positions(flags).len() ==> set_positions(flags)[j]
                < set_positions(flags)[k],
        forall|i: int|
            0 <= i < flags.len() && #[trigger] flags[i] ==> set_positions(flags).contains(
                i as usize,
            ),
    decreases flags.len(),
{
    if flags.len() > 0 {
        let shorter = flags.drop_last();
        set_positions_are_exact(shorter);
        let rest = set_positions(shorter);
        assert forall|k: int| 0 <= k < set_positions(flags).len() implies (
        #[trigger] set_positions(flags)[k]) < flags.len()
            && flags[set_positions(flags)[k] as int] by {
            if k < rest.len() {
                assert(rest[k] < shorter.len() && shorter[rest[k] as int]);
            }
        }
        assert forall|i: int| 0 <= i < flags.len() && #[trigger] flags[i] implies set_positions(
            flags,
        ).contains(i as usize) by {
            if i < shorter.len() {
                assert(shorter[i]);
                let k = rest.index_of(i as usize);
                assert(set_positions(flags)[k] == i as usize);
            } else {
                assert(set_positions(flags)[rest.len() as int] == i as usize);
            }
        }
    }
}

/// An export is cut to its range where both ends are set and in order, and else not at
/// all.
pub proof fn range_needs_both_ends(s: ExportSnapshot)
    ensures
        export_range(s) is Some <==> s.export_in is Some && s.export_out is Some
            && s.export_in->0.nanos < s.export_out->0.nanos,
        export_range(s) is Some ==> export_range(s) == Some((s.export_in->0, s.export_out->0)),
{
}

/// A clip counts from its start for as long as it plays: between its marks, up to the
/// out-point where only that is set, or else its whole source.
pub proof fn clip_ends_where_it_is_out(c: ExportClip)
    ensures
        c.in_point is Some && c.out_point is Some && c.in_point->0.nanos <= c.out_point->0.nanos
            ==> clip_end(c) == c.start_on_track.nanos + c.out_point->0.nanos - c.in_point->0.nanos,
        c.in_point is Some && c.out_point is Some && c.in_point->0.nanos > c.out_point->0.nanos
            ==> clip_end(c) == c.start_on_track.nanos,
        c.in_point is None && c.out_point is Some ==> clip_end(c) == c.start_on_track.nanos
            + c.out_point->0.nanos,
        c.out_point is None ==> clip_end(c) == c.start_on_track.nanos + c.source_duration.nanos,
{
}

/// The length of an export is when its last clip ends: no clip ends later, and one ends
/// then, or none ends behind the start.
pub proof fn length_is_the_last_end(tracks: Seq<Vec<ExportClip>>, end: int, t: int, i: int)
    requires
        is_latest_end(tracks, end),
        0 <= t < tracks.len(),
        0 <= i < tracks[t]@.len(),
    ensures
        clip_end(tracks[t]@[i]) <= end,
        lasts(tracks) <==> end > 0,
        end > 0 ==> exists|u: int, k: int|
            0 <= u < tracks.len() && 0 <= k < tracks[u]@.len() && clip_end(#[trigger] tracks[u]@[k])
                == end,
{
    assert(clip_end(tracks[t]@[i]) <= end);
    if lasts(tracks) {
        let (u, k) = choose|u: int, k: int|
            0 <= u < tracks.len() && 0 <= k < tracks[u]@.len() && clip_end(#[trigger] tracks[u]@[k])
                > 0;
        assert(clip_end(tracks[u]@[k]) <= end);
    }
}

/// The output has the canvas of the project's aspect ratio; without one, the chosen size
/// where scaling is on, and else none. Titles are laid out on the canvas, or in the chosen
/// size where there is none.
pub proof fn aspect_goes_before_scaling(s: ExportSnapshot)
    ensures
        s.canvas is Some ==> output_canvas(s) == s.canvas && title_frame(s) == s.canvas->0,
        s.canvas is None && s.export_filters.scale_enabled ==> output_canvas(s) == Some(
            (s.export_filters.output_width, s.export_filters.output_height),
        ),
        s.canvas is None && !s.export_filters.scale_enabled ==> output_canvas(s) is None,
        s.canvas is None ==> title_frame(s) == (
            s.export_filters.output_width,
            s.export_filters.output_height,
        ),
{
}

/// A plan renders every clip of the snapshot, composites exactly the video tracks that have
/// clips, from the bottom up, and mixes in exactly those that have a clip with sound. Titles
/// are burned in where one has a text and the export has a length.
pub proof fn plan_covers_the_snapshot(
    p: RenderPlan,
    s: ExportSnapshot,
    video_px: Seq<Vec<FramePixels>>,
    a1_px: Seq<FramePixels>,
    times: Seq<TitleTimes>,
    duration: Seq<char>,
)
    requires
        plans(p, s, video_px, a1_px, times, duration),
        s.video_clips@.len() <= usize::MAX,
    ensures
        ({
            let tracks = s.video_clips@;
            &&& p.video@.len() == tracks.len()
            &&& forall|t: int|
                0 <= t < tracks.len() ==> (#[trigger] p.video@[t])@.len() == tracks[t]@.len()
            &&& forall|t: int, i: int|
                0 <= t < tracks.len() && 0 <= i < tracks[t]@.len() ==> (
                #[trigger] p.video@[t]@[i]).source@ == tracks[t]@[i].path@ && p.video@[t]@[i].offset
                    == tracks[t]@[i].start_on_track
            &&& p.a1@.len() == s.a1_clips@.len()
            &&& forall|i: int|
                0 <= i < s.a1_clips@.len() ==> (#[trigger] p.a1@[i]).source@ == s.a1_clips@[i].path@
                    && p.a1@[i].offset == s.a1_clips@[i].start_on_track
            &&& forall|j: int, k: int|
                0 <= j < k < p.video_order@.len() ==> p.video_order@[j] < p.video_order@[k]
            &&& forall|j: int, k: int|
                0 <= j < k < p.audio_order@.len() ==> p.audio_order@[j] < p.audio_order@[k]
            &&& forall|t: int|
                0 <= t < tracks.len() ==> (p.video_order@.contains(t as usize) <==> (
                #[trigger] tracks[t])@.len() > 0)
            &&& forall|t: int|
                0 <= t < tracks.len() ==> (p.audio_order@.contains(t as usize) <==> exists|i: int|
                    0 <= i < (#[trigger] tracks[t])@.len() && tracks[t]@[i].has_audio)
            &&& p.overlay is Some ==> exists|i: int|
                0 <= i < s.title_clips@.len() && (#[trigger] s.title_clips@[i]).text@.len() > 0
        }),
{
    let tracks = s.video_clips@;
    let full = filled(tracks);
    let loud = sounding(tracks);
    set_positions_are_exact(full);
    set_positions_are_exact(loud);
    assert forall|t: int| 0 <= t < tracks.len() implies (#[trigger] p.video@[t])@.len()
        == tracks[t]@.len() by {
        assert(rendered_track(p.video@[t]@, tracks[t]@, s.canvas, video_px[t]@));
    }
    assert forall|t: int, i: int| 0 <= t < tracks.len() && 0 <= i < tracks[t]@.len() implies (
    #[trigger] p.video@[t]@[i]).source@ == tracks[t]@[i].path@ && p.video@[t]@[i].offset
        == tracks[t]@[i].start_on_track by {
        assert(rendered_track(p.video@[t]@, tracks[t]@, s.canvas, video_px[t]@));
        assert(rendered(p.video@[t]@[i], tracks[t]@[i], s.canvas, video_px[t]@[i]));
    }
    assert forall|i: int| 0 <= i < s.a1_clips@.len() implies (#[trigger] p.a1@[i]).source@
        == s.a1_clips@[i].path@ && p.a1@[i].offset == s.a1_clips@[i].start_on_track by {
        assert(rendered(p.a1@[i], s.a1_clips@[i], s.canvas, a1_px[i]));
    }
    assert forall|t: int| 0 <= t < tracks.len() implies (p.video_order@.contains(t as usize) <==> (
    #[trigger] tracks[t])@.len() > 0) by {
        assert(full[t] == (tracks[t]@.len() > 0));
        if p.video_order@.contains(t as usize) {
            let k = choose|k: int| 0 <= k < p.video_order@.len() && p.video_order@[k] == t as usize;
            assert(full[set_positions(full)[k] as int]);
        }
    }
    assert forall|t: int| 0 <= t < tracks.len() implies (p.audio_order@.contains(t as usize)
        <==> exists|i: int|
        0 <= i < (#[trigger] tracks[t])@.len() && tracks[t]@[i].has_audio) by {
        assert(loud[t] == has_sound(tracks[t]@));
        if p.audio_order@.contains(t as usize) {
            let k = choose|k: int| 0 <= k < p.audio_order@.len() && p.audio_order@[k] == t as usize;
            assert(loud[set_positions(loud)[k] as int]);
            let i = choose|i: int| 0 <= i < tracks[t]@.len() && (#[trigger] tracks[t]@[i]).has_audio;
            assert(tracks[t]@[i].has_audio);
        }
        if exists|i: int| 0 <= i < tracks[t]@.len() && tracks[t]@[i].has_audio {
            let i = choose|i: int| 0 <= i < tracks[t]@.len() && tracks[t]@[i].has_audio;
            assert(tracks[t]@[i].has_audio);
            assert(loud[t]);
        }
    }
}

/// A plan renders each clip for the project's canvas with that clip's own pixels, puts out
/// the canvas of the output, and burns the titles in exactly where one has a text and some
/// clip ends behind the start: on a frame of the canvas, or of the chosen size without one.
pub proof fn plan_has_its_canvas_and_titles(
    p: RenderPlan,
    s: ExportSnapshot,
    video_px: Seq<Vec<FramePixels>>,
    a1_px: Seq<FramePixels>,
    times: Seq<TitleTimes>,
    duration: Seq<char>,
    t: int,
    i: int,
)
    requires
        plans(p, s, video_px, a1_px, times, duration),
    ensures
        s.canvas is Some ==> p.canvas == s.canvas,
        s.canvas is None && s.export_filters.scale_enabled ==> p.canvas == Some(
            (s.export_filters.output_width, s.export_filters.output_height),
        ),
        s.canvas is None && !s.export_filters.scale_enabled ==> p.canvas is None,
        0 <= t < s.video_clips@.len() && 0 <= i < s.video_clips@[t]@.len() ==> rendered(
            p.video@[t]@[i],
            s.video_clips@[t]@[i],
            s.canvas,
            video_px[t]@[i],
        ),
        0 <= i < s.a1_clips@.len() ==> rendered(p.a1@[i], s.a1_clips@[i], s.canvas, a1_px[i]),
        0 <= t < s.title_clips@.len() && s.title_clips@[t].text@.len() > 0 && lasts(s.video_clips@)
            ==> p.overlay is Some,
        p.overlay is Some ==> lasts(s.video_clips@),
        p.overlay is Some && s.canvas is Some ==> {
            let (w, h) = s.canvas->0;
            p.overlay->0@ == title_canvas(w, h, duration) + draw_titles(s.title_clips@, times)
        },
        p.overlay is Some && s.canvas is None ==> p.overlay->0@ == title_canvas(
            s.export_filters.output_width,
            s.export_filters.output_height,
            duration,
        ) + draw_titles(s.title_clips@, times),
{
    if 0 <= t < s.video_clips@.len() && 0 <= i < s.video_clips@[t]@.len() {
        assert(rendered_track(
            p.video@[t]@,
            s.video_clips@[t]@,
            s.canvas,
            video_px[t]@,
        ));
        assert(rendered(p.video@[t]@[i], s.video_clips@[t]@[i], s.canvas, video_px[t]@[i]));
    }
    if 0 <= i < s.a1_clips@.len() {
        assert(rendered(p.a1@[i], s.a1_clips@[i], s.canvas, a1_px[i]));
    }
    if 0 <= t < s.title_clips@.len() && s.title_clips@[t].text@.len() > 0 {
        assert(any_text(s.title_clips@));
    }
}

/// A snapshot lasts as soon as one of its clips ends behind the start.
pub proof fn any_clip_makes_it_last(tracks: Seq<Vec<ExportClip>>, t: int, i: int)
    requires
        0 <= t < tracks.len(),
        0 <= i < tracks[t]@.len(),
        clip_end(tracks[t]@[i]) > 0,
    ensures
        lasts(tracks),
{
    assert(clip_end(tracks[t]@[i]) > 0);
}

} // verus!
