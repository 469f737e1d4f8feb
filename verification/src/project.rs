//! Project files: what is saved of an editing session, and how it is brought back.

use crate::app_state::{AppState, Playback, Selection};
use crate::float::{F32, F64, F32_ONE, F64_ZERO};
use crate::imported::ImportedClip;
use crate::matte::MaskShape;
use crate::media::{
    audio_codec_name, blend_mode_from_str, blend_mode_name, blend_mode_named, blend_mode_round_trip,
    blend_mode_to_str, is_saved_blend_mode, video_codec_name, xfade_from_str, xfade_name,
    xfade_named, xfade_round_trip,
};
use crate::presets::{
    audio_codec_named, preset_audio, preset_round_trip, preset_video, video_codec_named,
    ExportFilterDraft, PresetFile,
};
use crate::state::{
    same_title, AspectPreset, BrowserTab, HAlign, TitleClip, TrackKind, VAlign, WB_NEUTRAL_TEMP,
};
use crate::text::same_text;
use crate::time::Duration;
use crate::timeline::{
    empty_lane, lanes, video_end, video_end_bounds, Lane, TimelineState, Track,
};
use crate::timeline_clip::{fresh_clip, TimelineClip};
use vstd::prelude::*;
use vstd::string::*;

verus! {

/// The version of the project files that are written.
pub const PROJECT_VERSION: u32 = 1;

/// A saved editing session.
#[derive(Debug)]
pub struct ProjectFile {
    pub version: u32,
    pub clips: Vec<ProjectClip>,
    pub video_tracks: Vec<Vec<ProjectTimelineClip>>,
    pub audio_clips: Vec<ProjectTimelineClip>,
    pub title_clips: Vec<ProjectTitleClip>,
    pub encoder_config: PresetFile,
    pub export_filters: ProjectExportFilters,
    pub loudness_normalize: bool,
    pub loudness_target: F64,
    pub export_in: Option<Duration>,
    pub export_out: Option<Duration>,
    pub export_range_enabled: bool,
    pub timeline_loop_enabled: bool,
    pub pixels_per_second: F32,
}

/// A saved imported clip.
#[derive(Debug)]
pub struct ProjectClip {
    pub path: String,
    pub in_point: Option<Duration>,
    pub out_point: Option<Duration>,
}

/// A saved clip of the timeline.
#[derive(Debug)]
pub struct ProjectTimelineClip {
    pub source_path: String,
    pub start_on_track: Duration,
    pub in_point: Option<Duration>,
    pub out_point: Option<Duration>,
    pub transition: Option<String>,
    pub transition_duration: Duration,
    pub gain_db: F32,
    pub fade_in: Duration,
    pub fade_out: Duration,
    pub brightness: F32,
    pub contrast: F32,
    pub saturation: F32,
    pub speed: F32,
    pub opacity: F32,
    pub blend_mode: String,
    pub lut_path: Option<String>,
    pub wb_temperature: u32,
    pub wb_tint: F32,
    pub hue_degrees: F32,
    pub gamma_r: F32,
    pub gamma_g: F32,
    pub gamma_b: F32,
}

/// A saved title.
#[derive(Debug)]
pub struct ProjectTitleClip {
    pub start_on_track: Duration,
    pub duration: Duration,
    pub text: String,
    pub font_size: u32,
    pub color: [u8; 4],
    pub h_align: String,
    pub v_align: String,
}

/// The saved output filters.
#[derive(Clone, Copy, PartialEq, Eq, Structural, Debug)]
pub struct ProjectExportFilters {
    pub scale_enabled: bool,
    pub output_width: u32,
    pub output_height: u32,
    pub colorbalance_enabled: bool,
    pub brightness: F32,
    pub contrast: F32,
    pub saturation: F32,
}

/// The white balance of clips from files that do not name one.
pub fn default_wb_temperature() -> (t: u32)
    ensures
        t == WB_NEUTRAL_TEMP,
{
    WB_NEUTRAL_TEMP
}

/// The gamma of clips from files that do not name one.
pub fn default_gamma() -> (g: F32)
    ensures
        g.bits == F32_ONE,
{
    F32::of(F32_ONE)
}

// ── Names of alignments ───────────────────────────────────────────────────────

/// The name of an alignment.
pub open spec fn halign_name(a: HAlign) -> Seq<char> {
    match a {
        HAlign::Left => "Left"@,
        HAlign::Centre => "Centre"@,
        HAlign::Right => "Right"@,
    }
}

/// The name of an alignment.
pub open spec fn valign_name(a: VAlign) -> Seq<char> {
    match a {
        VAlign::Top => "Top"@,
        VAlign::Middle => "Middle"@,
        VAlign::Bottom => "Bottom"@,
    }
}

/// The alignment of this name; the centre for any other text.
pub open spec fn halign_named(s: Seq<char>) -> HAlign {
    if s == "Left"@ {
        HAlign::Left
    } else if s == "Right"@ {
        HAlign::Right
    } else {
        HAlign::Centre
    }
}

/// The alignment of this name; the middle for any other text.
pub open spec fn valign_named(s: Seq<char>) -> VAlign {
    if s == "Top"@ {
        VAlign::Top
    } else if s == "Bottom"@ {
        VAlign::Bottom
    } else {
        VAlign::Middle
    }
}

/// The name of an alignment.
pub fn halign_to_str(a: HAlign) -> (s: &'static str)
    ensures
        s@ == halign_name(a),
{
    match a {
        HAlign::Left => "Left",
        HAlign::Centre => "Centre",
        HAlign::Right => "Right",
    }
}

/// The alignment of this name; the centre for any other text.
pub fn halign_from_str(s: &str) -> (a: HAlign)
    ensures
        a == halign_named(s@),
{
    if same_text(s, "Left") {
        HAlign::Left
    } else if same_text(s, "Right") {
        HAlign::Right
    } else {
        HAlign::Centre
    }
}

/// The name of an alignment.
pub fn valign_to_str(a: VAlign) -> (s: &'static str)
    ensures
        s@ == valign_name(a),
{
    match a {
        VAlign::Top => "Top",
        VAlign::Middle => "Middle",
        VAlign::Bottom => "Bottom",
    }
}

/// The alignment of this name; the middle for any other text.
pub fn valign_from_str(s: &str) -> (a: VAlign)
    ensures
        a == valign_named(s@),
{
    if same_text(s, "Top") {
        VAlign::Top
    } else if same_text(s, "Bottom") {
        VAlign::Bottom
    } else {
        VAlign::Middle
    }
}

/// Every alignment comes back from its name.
pub proof fn align_round_trip(h: HAlign, v: VAlign)
    ensures
        halign_named(halign_name(h)) == h,
        valign_named(valign_name(v)) == v,
{
    reveal_strlit("Left");
    reveal_strlit("Centre");
    reveal_strlit("Right");
    reveal_strlit("Top");
    reveal_strlit("Middle");
    reveal_strlit("Bottom");
    assert("Left"@.len() == 4 && "Centre"@.len() == 6 && "Right"@.len() == 5);
    assert("Top"@.len() == 3 && "Middle"@.len() == 6 && "Bottom"@.len() == 6);
    assert("Middle"@[0] != "Bottom"@[0]);
}

// ── Clips of the timeline ─────────────────────────────────────────────────────

/// The path of a clip's source; nothing where it has none.
pub open spec fn path_of(c: TimelineClip, sources: Seq<ImportedClip>) -> Seq<char> {
    if c.source_index < sources.len() {
        sources[c.source_index as int].path@
    } else {
        Seq::empty()
    }
}

/// An optional text as a value.
pub open spec fn text_of(t: Option<String>) -> Option<Seq<char>> {
    match t {
        Some(s) => Some(s@),
        None => None,
    }
}

/// Whether `p` is what is saved of the clip.
pub open spec fn saves_clip(
    c: TimelineClip,
    sources: Seq<ImportedClip>,
    p: ProjectTimelineClip,
) -> bool {
    &&& p.source_path@ == path_of(c, sources)
    &&& p.start_on_track == c.start_on_track
    &&& p.in_point == c.in_point
    &&& p.out_point == c.out_point
    &&& text_of(p.transition) == (match c.transition {
        Some(t) => Some(xfade_name(t)),
        None => None,
    })
    &&& p.transition_duration == c.transition_duration
    &&& p.gain_db == c.gain_db
    &&& p.fade_in == c.fade_in
    &&& p.fade_out == c.fade_out
    &&& p.brightness == c.brightness
    &&& p.contrast == c.contrast
    &&& p.saturation == c.saturation
    &&& p.speed == c.speed
    &&& p.opacity == c.opacity
    &&& p.blend_mode@ == blend_mode_name(c.blend_mode)
    &&& text_of(p.lut_path) == text_of(c.lut_path)
    &&& p.wb_temperature == c.wb_temperature
    &&& p.wb_tint == c.wb_tint
    &&& p.hue_degrees == c.hue_degrees
    &&& p.gamma_r == c.gamma_r
    &&& p.gamma_g == c.gamma_g
    &&& p.gamma_b == c.gamma_b
}

fn copy_text(t: &Option<String>) -> (r: Option<String>)
    ensures
        text_of(r) == text_of(*t),
{
    match t {
        Some(s) => Some(s.clone()),
        None => None,
    }
}

/// What is saved of a clip of the timeline.
pub fn timeline_clip_to_project(tc: &TimelineClip, clips: &Vec<ImportedClip>) -> (p:
    ProjectTimelineClip)
    ensures
        saves_clip(*tc, clips@, p),
{
    let source_path = if tc.source_index < clips.len() {
        clips[tc.source_index].path.clone()
    } else {
        "".to_owned()
    };
    proof {
        reveal_strlit("");
        assert(""@ =~= Seq::<char>::empty());
    }
    let transition = match tc.transition {
        Some(t) => Some(t.as_str().to_owned()),
        None => None,
    };
    ProjectTimelineClip {
        source_path,
        start_on_track: tc.start_on_track,
        in_point: tc.in_point,
        out_point: tc.out_point,
        transition,
        transition_duration: tc.transition_duration,
        gain_db: tc.gain_db,
        fade_in: tc.fade_in,
        fade_out: tc.fade_out,
        brightness: tc.brightness,
        contrast: tc.contrast,
        saturation: tc.saturation,
        speed: tc.speed,
        opacity: tc.opacity,
        blend_mode: blend_mode_to_str(tc.blend_mode).to_owned(),
        lut_path: copy_text(&tc.lut_path),
        wb_temperature: tc.wb_temperature,
        wb_tint: tc.wb_tint,
        hue_degrees: tc.hue_degrees,
        gamma_r: tc.gamma_r,
        gamma_g: tc.gamma_g,
        gamma_b: tc.gamma_b,
    }
}

/// The last of the first `n` imported clips with this path.
pub open spec fn last_with_path(
    pool: Seq<ImportedClip>,
    path: Seq<char>,
    n: int,
) -> Option<usize>
    decreases n,
{
    if n <= 0 {
        None
    } else if pool[n - 1].path@ == path {
        Some((n - 1) as usize)
    } else {
        last_with_path(pool, path, n - 1)
    }
}

/// The source that a saved clip names.
pub open spec fn source_named(pool: Seq<ImportedClip>, p: ProjectTimelineClip) -> Option<usize> {
    last_with_path(pool, p.source_path@, pool.len() as int)
}

fn find_last(pool: &Vec<ImportedClip>, path: &str) -> (i: Option<usize>)
    ensures
        i == last_with_path(pool@, path@, pool@.len() as int),
{
    let mut n: usize = pool.len();
    while n > 0
        invariant
            n <= pool@.len(),
            last_with_path(pool@, path@, pool@.len() as int) == last_with_path(
                pool@,
                path@,
                n as int,
            ),
        decreases n,
    {
        if same_text(pool[n - 1].path.as_str(), path) {
            return Some(n - 1);
        }
        n = n - 1;
    }
    None
}

/// Whether `c` is the clip that a saved one brings back: what was saved, and in every
/// other way a new clip.
pub open spec fn restores_clip(p: ProjectTimelineClip, source: usize, c: TimelineClip) -> bool {
    &&& c.transition == (match p.transition {
        Some(s) => xfade_named(s@),
        None => None,
    })
    &&& c.transition_duration == p.transition_duration
    &&& c.gain_db == p.gain_db
    &&& c.fade_in == p.fade_in
    &&& c.fade_out == p.fade_out
    &&& c.brightness == p.brightness
    &&& c.contrast == p.contrast
    &&& c.saturation == p.saturation
    &&& c.speed == p.speed
    &&& c.opacity == p.opacity
    &&& c.blend_mode == blend_mode_named(p.blend_mode@)
    &&& text_of(c.lut_path) == text_of(p.lut_path)
    &&& c.wb_temperature == p.wb_temperature
    &&& c.wb_tint == p.wb_tint
    &&& c.hue_degrees == p.hue_degrees
    &&& c.gamma_r == p.gamma_r
    &&& c.gamma_g == p.gamma_g
    &&& c.gamma_b == p.gamma_b
    &&& exists|n: TimelineClip|
        fresh_clip(n, source, p.start_on_track, p.in_point, p.out_point) && c == (TimelineClip {
            transition: c.transition,
            transition_duration: c.transition_duration,
            gain_db: c.gain_db,
            fade_in: c.fade_in,
            fade_out: c.fade_out,
            brightness: c.brightness,
            contrast: c.contrast,
            saturation: c.saturation,
            speed: c.speed,
            opacity: c.opacity,
            blend_mode: c.blend_mode,
            lut_path: c.lut_path,
            wb_temperature: c.wb_temperature,
            wb_tint: c.wb_tint,
            hue_degrees: c.hue_degrees,
            gamma_r: c.gamma_r,
            gamma_g: c.gamma_g,
            gamma_b: c.gamma_b,
            ..n
        })
}

/// What is said of a saved clip whose source is missing.
pub open spec fn missing_source(path: Seq<char>) -> Seq<char> {
    "Missing source file: "@ + path
}

/// Texts as values.
pub open spec fn texts(s: Seq<String>) -> Seq<Seq<char>> {
    s.map_values(|t: String| t@)
}

/// The clip that a saved one brings back. Where its source is missing there is none,
/// and a warning.
pub fn project_to_timeline_clip(
    ptc: &ProjectTimelineClip,
    pool: &Vec<ImportedClip>,
    warnings: &mut Vec<String>,
) -> (r: Option<TimelineClip>)
    ensures
        match source_named(pool@, *ptc) {
            Some(source) => r is Some && restores_clip(*ptc, source, r->0) && final(warnings)@
                == old(warnings)@,
            None => r is None && texts(final(warnings)@) == texts(old(warnings)@).push(
                missing_source(ptc.source_path@),
            ),
        },
{
    match find_last(pool, ptc.source_path.as_str()) {
        Some(source_index) => {
            let mut c = TimelineClip::new(
                source_index,
                ptc.start_on_track,
                ptc.in_point,
                ptc.out_point,
            );
            let ghost n = c;
            c.transition = match &ptc.transition {
                Some(s) => xfade_from_str(s.as_str()),
                None => None,
            };
            c.transition_duration = ptc.transition_duration;
            c.gain_db = ptc.gain_db;
            c.fade_in = ptc.fade_in;
            c.fade_out = ptc.fade_out;
            c.brightness = ptc.brightness;
            c.contrast = ptc.contrast;
            c.saturation = ptc.saturation;
            c.speed = ptc.speed;
            c.opacity = ptc.opacity;
            c.blend_mode = blend_mode_from_str(ptc.blend_mode.as_str());
            c.lut_path = copy_text(&ptc.lut_path);
            c.wb_temperature = ptc.wb_temperature;
            c.wb_tint = ptc.wb_tint;
            c.hue_degrees = ptc.hue_degrees;
            c.gamma_r = ptc.gamma_r;
            c.gamma_g = ptc.gamma_g;
            c.gamma_b = ptc.gamma_b;
            assert(fresh_clip(n, source_index, ptc.start_on_track, ptc.in_point, ptc.out_point));
            Some(c)
        },
        None => {
            let mut w = "Missing source file: ".to_owned();
            w.append(ptc.source_path.as_str());
            warnings.push(w);
            assert(texts(warnings@) =~= texts(old(warnings)@).push(
                missing_source(ptc.source_path@),
            ));
            None
        },
    }
}

/// A clip whose source is imported, under a path that no later import has, comes back
/// from its project with everything that is saved of it: its place, its piece of the
/// source, transition, sound, colours, speed, opacity and look-up table, and the blend
/// mode where that is one of those that are saved.
pub proof fn clip_round_trip(
    c: TimelineClip,
    pool: Seq<ImportedClip>,
    p: ProjectTimelineClip,
    r: TimelineClip,
)
    requires
        saves_clip(c, pool, p),
        c.source_index < pool.len(),
        forall|i: int|
            c.source_index < i < pool.len() ==> (#[trigger] pool[i]).path@
                != pool[c.source_index as int].path@,
        restores_clip(p, c.source_index, r),
    ensures
        source_named(pool, p) == Some(c.source_index),
        r.source_index == c.source_index,
        r.start_on_track == c.start_on_track,
        r.in_point == c.in_point,
        r.out_point == c.out_point,
        r.transition == c.transition,
        r.transition_duration == c.transition_duration,
        r.gain_db == c.gain_db,
        r.fade_in == c.fade_in,
        r.fade_out == c.fade_out,
        r.brightness == c.brightness,
        r.contrast == c.contrast,
        r.saturation == c.saturation,
        r.speed == c.speed,
        r.opacity == c.opacity,
        is_saved_blend_mode(c.blend_mode) ==> r.blend_mode == c.blend_mode,
        text_of(r.lut_path) == text_of(c.lut_path),
        r.wb_temperature == c.wb_temperature,
        r.wb_tint == c.wb_tint,
        r.hue_degrees == c.hue_degrees,
        r.gamma_r == c.gamma_r,
        r.gamma_g == c.gamma_g,
        r.gamma_b == c.gamma_b,
{
    last_is_found(pool, c.source_index as int, pool.len() as int);
    blend_mode_round_trip(c.blend_mode);
    if c.transition is Some {
        xfade_round_trip(c.transition->0);
    }
}

proof fn last_is_found(pool: Seq<ImportedClip>, at: int, n: int)
    requires
        0 <= at < n <= pool.len(),
        at <= usize::MAX,
        forall|i: int| at < i < pool.len() ==> (#[trigger] pool[i]).path@ != pool[at].path@,
    ensures
        last_with_path(pool, pool[at].path@, n) == Some(at as usize),
    decreases n,
{
    if n - 1 > at {
        last_is_found(pool, at, n - 1);
    }
}

// ── Saving ────────────────────────────────────────────────────────────────────

/// Whether the saved clips are those of a track.
pub open spec fn saves_track(
    clips: Seq<TimelineClip>,
    sources: Seq<ImportedClip>,
    saved: Seq<ProjectTimelineClip>,
) -> bool {
    saved.len() == clips.len() && forall|i: int|
        0 <= i < clips.len() ==> saves_clip(clips[i], sources, #[trigger] saved[i])
}

/// Whether the saved title is that title.
pub open spec fn saves_title(t: TitleClip, p: ProjectTitleClip) -> bool {
    &&& p.start_on_track == t.start_on_track
    &&& p.duration == t.duration
    &&& p.text@ == t.text@
    &&& p.font_size == t.font_size
    &&& p.color == t.color
    &&& p.h_align@ == halign_name(t.h_align)
    &&& p.v_align@ == valign_name(t.v_align)
}

/// Whether the saved filters are those filters.
pub open spec fn saves_filters(d: ExportFilterDraft, p: ProjectExportFilters) -> bool {
    &&& p.scale_enabled == d.scale_enabled
    &&& p.output_width == d.output_width
    &&& p.output_height == d.output_height
    &&& p.colorbalance_enabled == d.colorbalance_enabled
    &&& p.brightness == d.brightness
    &&& p.contrast == d.contrast
    &&& p.saturation == d.saturation
}

/// Whether the saved imports are those imports.
pub open spec fn saves_imports(clips: Seq<ImportedClip>, saved: Seq<ProjectClip>) -> bool {
    saved.len() == clips.len() && forall|i: int|
        0 <= i < clips.len() ==> (#[trigger] saved[i]).path@ == clips[i].path@ && saved[i].in_point
            == clips[i].in_point && saved[i].out_point == clips[i].out_point
}

/// Whether the saved titles are those titles.
pub open spec fn saves_titles(titles: Seq<TitleClip>, saved: Seq<ProjectTitleClip>) -> bool {
    saved.len() == titles.len() && forall|i: int|
        0 <= i < titles.len() ==> saves_title(titles[i], #[trigger] saved[i])
}

/// Whether `p` is what is saved of a session.
pub open spec fn saves(state: AppState, p: ProjectFile) -> bool {
    let tracks = state.timeline.lanes();
    let audio = video_end(tracks, 0);
    &&& p.version == PROJECT_VERSION
    &&& saves_imports(state.clips@, p.clips@)
    &&& p.video_tracks@.len() == audio
    &&& forall|i: int|
        0 <= i < audio ==> saves_track(
            tracks[i].clips,
            state.clips@,
            (#[trigger] p.video_tracks@[i])@,
        )
    &&& audio < tracks.len() ==> saves_track(tracks[audio].clips, state.clips@, p.audio_clips@)
    &&& audio >= tracks.len() ==> p.audio_clips@.len() == 0
    &&& saves_titles(state.timeline.title_clips@, p.title_clips@)
    &&& p.encoder_config.video_codec@ == video_codec_name(state.export.encoder_config.video_codec)
    &&& p.encoder_config.audio_codec@ == audio_codec_name(state.export.encoder_config.audio_codec)
    &&& p.encoder_config.crf == state.export.encoder_config.crf
    &&& saves_filters(state.export.export_filters, p.export_filters)
    &&& p.loudness_normalize == state.export.loudness_normalize
    &&& p.loudness_target == state.export.loudness_target
    &&& p.export_in == state.playback.export_in
    &&& p.export_out == state.playback.export_out
    &&& p.export_range_enabled == state.export.range_enabled
    &&& p.timeline_loop_enabled == state.playback.timeline_loop_enabled
    &&& p.pixels_per_second == state.timeline.pixels_per_second
}

fn save_track(clips: &Vec<TimelineClip>, sources: &Vec<ImportedClip>) -> (r: Vec<
    ProjectTimelineClip,
>)
    ensures
        saves_track(clips@, sources@, r@),
{
    let mut r: Vec<ProjectTimelineClip> = Vec::new();
    let mut i: usize = 0;
    while i < clips.len()
        invariant
            i <= clips@.len(),
            r@.len() == i,
            forall|k: int| 0 <= k < i ==> saves_clip(clips@[k], sources@, #[trigger] r@[k]),
        decreases clips@.len() - i,
    {
        r.push(timeline_clip_to_project(&clips[i], sources));
        i = i + 1;
    }
    r
}

fn save_titles(titles: &Vec<TitleClip>) -> (r: Vec<ProjectTitleClip>)
    ensures
        saves_titles(titles@, r@),
{
    let mut r: Vec<ProjectTitleClip> = Vec::new();
    let mut i: usize = 0;
    while i < titles.len()
        invariant
            i <= titles@.len(),
            r@.len() == i,
            forall|k: int| 0 <= k < i ==> saves_title(titles@[k], #[trigger] r@[k]),
        decreases titles@.len() - i,
    {
        let t = &titles[i];
        r.push(
            ProjectTitleClip {
                start_on_track: t.start_on_track,
                duration: t.duration,
                text: t.text.clone(),
                font_size: t.font_size,
                color: t.color,
                h_align: halign_to_str(t.h_align).to_owned(),
                v_align: valign_to_str(t.v_align).to_owned(),
            },
        );
        i = i + 1;
    }
    r
}

fn save_imports(clips: &Vec<ImportedClip>) -> (r: Vec<ProjectClip>)
    ensures
        saves_imports(clips@, r@),
{
    let mut r: Vec<ProjectClip> = Vec::new();
    let mut i: usize = 0;
    while i < clips.len()
        invariant
            i <= clips@.len(),
            r@.len() == i,
            forall|k: int|
                0 <= k < i ==> (#[trigger] r@[k]).path@ == clips@[k].path@ && r@[k].in_point
                    == clips@[k].in_point && r@[k].out_point == clips@[k].out_point,
        decreases clips@.len() - i,
    {
        let c = &clips[i];
        r.push(
            ProjectClip { path: c.path.clone(), in_point: c.in_point, out_point: c.out_point },
        );
        i = i + 1;
    }
    r
}

/// What is saved of a session.
pub fn save_project(state: &AppState) -> (p: ProjectFile)
    ensures
        saves(*state, p),
{
    let audio_start: usize = state.timeline.audio_track_start();
    let mut video_tracks: Vec<Vec<ProjectTimelineClip>> = Vec::new();
    let mut i: usize = 0;
    while i < audio_start
        invariant
            i <= audio_start <= state.timeline.tracks@.len(),
            video_tracks@.len() == i,
            forall|k: int|
                0 <= k < i ==> saves_track(
                    state.timeline.lanes()[k].clips,
                    state.clips@,
                    (#[trigger] video_tracks@[k])@,
                ),
        decreases audio_start - i,
    {
        video_tracks.push(save_track(&state.timeline.tracks[i].clips, &state.clips));
        i = i + 1;
    }
    let audio_clips = if audio_start < state.timeline.tracks.len() {
        save_track(&state.timeline.tracks[audio_start].clips, &state.clips)
    } else {
        Vec::new()
    };
    let ef = &state.export.export_filters;
    ProjectFile {
        version: PROJECT_VERSION,
        clips: save_imports(&state.clips),
        video_tracks,
        audio_clips,
        title_clips: save_titles(&state.timeline.title_clips),
        encoder_config: PresetFile::from_draft(&state.export.encoder_config),
        export_filters: ProjectExportFilters {
            scale_enabled: ef.scale_enabled,
            output_width: ef.output_width,
            output_height: ef.output_height,
            colorbalance_enabled: ef.colorbalance_enabled,
            brightness: ef.brightness,
            contrast: ef.contrast,
            saturation: ef.saturation,
        },
        loudness_normalize: state.export.loudness_normalize,
        loudness_target: state.export.loudness_target,
        export_in: state.playback.export_in,
        export_out: state.playback.export_out,
        export_range_enabled: state.export.range_enabled,
        timeline_loop_enabled: state.playback.timeline_loop_enabled,
        pixels_per_second: state.timeline.pixels_per_second,
    }
}

// ── Loading ───────────────────────────────────────────────────────────────────

/// What opening a media file tells of it.
#[derive(Clone, Copy, Debug)]
pub struct OpenedMedia {
    pub duration: Duration,
    pub frame_rate: Option<F64>,
    pub video: Option<(u32, u32)>,
    pub has_audio: bool,
}

/// The places of the first `n` files that could be opened.
pub open spec fn opened_files(opened: Seq<Result<OpenedMedia, String>>, n: int) -> Seq<int>
    decreases n,
{
    if n <= 0 {
        Seq::empty()
    } else if opened[n - 1] is Ok {
        opened_files(opened, n - 1).push(n - 1)
    } else {
        opened_files(opened, n - 1)
    }
}

/// What is said of a file that could not be opened.
pub open spec fn cannot_open(path: Seq<char>, error: Seq<char>) -> Seq<char> {
    "Cannot open \""@ + path + "\": "@ + error + " — clip skipped"@
}

/// What is said of the first `n` files.
pub open spec fn open_warnings(
    saved: Seq<ProjectClip>,
    opened: Seq<Result<OpenedMedia, String>>,
    n: int,
) -> Seq<Seq<char>>
    decreases n,
{
    if n <= 0 {
        Seq::empty()
    } else {
        match opened[n - 1] {
            Ok(_) => open_warnings(saved, opened, n - 1),
            Err(e) => open_warnings(saved, opened, n - 1).push(
                cannot_open(saved[n - 1].path@, e@),
            ),
        }
    }
}

/// Whether `c` is the import that a saved one brings back.
pub open spec fn restores_import(p: ProjectClip, m: OpenedMedia, c: ImportedClip) -> bool {
    &&& c.path@ == p.path@
    &&& c.duration == m.duration
    &&& c.frame_rate == m.frame_rate
    &&& c.video == m.video
    &&& c.has_audio == m.has_audio
    &&& c.in_point == p.in_point
    &&& c.out_point == p.out_point
    &&& c.proxy_path is None
    &&& c.scenes@.len() == 0
    &&& c.silence_regions@.len() == 0
    &&& c.waveform@.len() == 0
}

/// Whether the clips are the imports that could be opened, in order.
pub open spec fn restores_imports(
    saved: Seq<ProjectClip>,
    opened: Seq<Result<OpenedMedia, String>>,
    clips: Seq<ImportedClip>,
    n: int,
) -> bool {
    let files = opened_files(opened, n);
    clips.len() == files.len() && forall|k: int|
        0 <= k < clips.len() ==> restores_import(
            saved[files[k]],
            opened[files[k]]->Ok_0,
            #[trigger] clips[k],
        )
}

/// The places of the first `n` saved clips whose source is there.
pub open spec fn with_source(
    saved: Seq<ProjectTimelineClip>,
    pool: Seq<ImportedClip>,
    n: int,
) -> Seq<int>
    decreases n,
{
    if n <= 0 {
        Seq::empty()
    } else if source_named(pool, saved[n - 1]) is Some {
        with_source(saved, pool, n - 1).push(n - 1)
    } else {
        with_source(saved, pool, n - 1)
    }
}

/// What is said of the first `n` saved clips.
pub open spec fn source_warnings(
    saved: Seq<ProjectTimelineClip>,
    pool: Seq<ImportedClip>,
    n: int,
) -> Seq<Seq<char>>
    decreases n,
{
    if n <= 0 {
        Seq::empty()
    } else if source_named(pool, saved[n - 1]) is Some {
        source_warnings(saved, pool, n - 1)
    } else {
        source_warnings(saved, pool, n - 1).push(missing_source(saved[n - 1].source_path@))
    }
}

/// Whether the clips are those that the first `n` saved ones bring back, in order.
pub open spec fn restores_track(
    saved: Seq<ProjectTimelineClip>,
    pool: Seq<ImportedClip>,
    clips: Seq<TimelineClip>,
    n: int,
) -> bool {
    let there = with_source(saved, pool, n);
    clips.len() == there.len() && forall|k: int|
        0 <= k < clips.len() ==> restores_clip(
            saved[there[k]],
            source_named(pool, saved[there[k]])->0,
            #[trigger] clips[k],
        )
}

/// What is said of the clips of the first `n` video tracks.
pub open spec fn track_warnings(
    tracks: Seq<Vec<ProjectTimelineClip>>,
    pool: Seq<ImportedClip>,
    n: int,
) -> Seq<Seq<char>>
    decreases n,
{
    if n <= 0 {
        Seq::empty()
    } else {
        track_warnings(tracks, pool, n - 1) + source_warnings(
            tracks[n - 1]@,
            pool,
            tracks[n - 1]@.len() as int,
        )
    }
}

/// Whether `t` is the title that a saved one brings back.
pub open spec fn restores_title(p: ProjectTitleClip, t: TitleClip) -> bool {
    &&& t.start_on_track == p.start_on_track
    &&& t.duration == p.duration
    &&& t.text@ == p.text@
    &&& t.font_size == p.font_size
    &&& t.color == p.color
    &&& t.h_align == halign_named(p.h_align@)
    &&& t.v_align == valign_named(p.v_align@)
}

fn restore_imports(
    saved: &Vec<ProjectClip>,
    opened: &Vec<Result<OpenedMedia, String>>,
) -> (r: (Vec<ImportedClip>, Vec<String>))
    requires
        saved@.len() == opened@.len(),
    ensures
        restores_imports(saved@, opened@, r.0@, opened@.len() as int),
        texts(r.1@) == open_warnings(saved@, opened@, opened@.len() as int),
{
    let mut clips: Vec<ImportedClip> = Vec::new();
    let mut warnings: Vec<String> = Vec::new();
    let mut i: usize = 0;
    assert(texts(warnings@) =~= Seq::empty());
    while i < saved.len()
        invariant
            i <= saved@.len(),
            saved@.len() == opened@.len(),
            restores_imports(saved@, opened@, clips@, i as int),
            texts(warnings@) == open_warnings(saved@, opened@, i as int),
        decreases saved@.len() - i,
    {
        let p = &saved[i];
        let ghost had = clips@;
        let ghost said = warnings@;
        match &opened[i] {
            Ok(m) => {
                let mut c = ImportedClip::new(
                    p.path.clone(),
                    m.duration,
                    m.frame_rate,
                    m.video,
                    m.has_audio,
                );
                c.in_point = p.in_point;
                c.out_point = p.out_point;
                clips.push(c);
                proof {
                    let files = opened_files(opened@, i as int);
                    let more = opened_files(opened@, i + 1);
                    assert forall|k: int| 0 <= k < clips@.len() implies restores_import(
                        saved@[more[k]],
                        opened@[more[k]]->Ok_0,
                        #[trigger] clips@[k],
                    ) by {
                        if k < had.len() {
                            assert(clips@[k] == had[k]);
                            assert(more[k] == files[k]);
                        }
                    }
                }
            },
            Err(e) => {
                let mut w = "Cannot open \"".to_owned();
                w.append(p.path.as_str());
                w.append("\": ");
                w.append(e.as_str());
                w.append(" — clip skipped");
                warnings.push(w);
                assert(texts(warnings@) =~= texts(said).push(
                    cannot_open(saved@[i as int].path@, opened@[i as int]->Err_0@),
                ));
            },
        }
        i = i + 1;
    }
    (clips, warnings)
}

fn restore_track(
    saved: &Vec<ProjectTimelineClip>,
    pool: &Vec<ImportedClip>,
    warnings: &mut Vec<String>,
) -> (clips: Vec<TimelineClip>)
    ensures
        restores_track(saved@, pool@, clips@, saved@.len() as int),
        texts(final(warnings)@) == texts(old(warnings)@) + source_warnings(
            saved@,
            pool@,
            saved@.len() as int,
        ),
{
    let mut clips: Vec<TimelineClip> = Vec::new();
    let mut i: usize = 0;
    assert(texts(warnings@) =~= texts(old(warnings)@) + Seq::empty());
    while i < saved.len()
        invariant
            i <= saved@.len(),
            restores_track(saved@, pool@, clips@, i as int),
            texts(warnings@) == texts(old(warnings)@) + source_warnings(saved@, pool@, i as int),
        decreases saved@.len() - i,
    {
        let ghost had = clips@;
        let ghost said = texts(warnings@);
        let p = &saved[i];
        if let Some(c) = project_to_timeline_clip(p, pool, warnings) {
            clips.push(c);
            proof {
                let there = with_source(saved@, pool@, i as int);
                let more = with_source(saved@, pool@, i + 1);
                assert forall|k: int| 0 <= k < clips@.len() implies restores_clip(
                    saved@[more[k]],
                    source_named(pool@, saved@[more[k]])->0,
                    #[trigger] clips@[k],
                ) by {
                    if k < had.len() {
                        assert(clips@[k] == had[k]);
                        assert(more[k] == there[k]);
                    }
                }
            }
        } else {
            assert(texts(warnings@) =~= texts(old(warnings)@) + source_warnings(
                saved@,
                pool@,
                i + 1,
            ));
        }
        i = i + 1;
    }
    clips
}

fn restore_titles(saved: &Vec<ProjectTitleClip>) -> (r: Vec<TitleClip>)
    ensures
        r@.len() == saved@.len(),
        forall|i: int| 0 <= i < saved@.len() ==> restores_title(saved@[i], #[trigger] r@[i]),
{
    let mut r: Vec<TitleClip> = Vec::new();
    let mut i: usize = 0;
    while i < saved.len()
        invariant
            i <= saved@.len(),
            r@.len() == i,
            forall|k: int| 0 <= k < i ==> restores_title(saved@[k], #[trigger] r@[k]),
        decreases saved@.len() - i,
    {
        let p = &saved[i];
        r.push(
            TitleClip {
                start_on_track: p.start_on_track,
                duration: p.duration,
                text: p.text.clone(),
                font_size: p.font_size,
                color: p.color,
                h_align: halign_from_str(p.h_align.as_str()),
                v_align: valign_from_str(p.v_align.as_str()),
            },
        );
        i = i + 1;
    }
    r
}

/// The track that saved clips bring back: neither muted nor soloed.
pub open spec fn restores_lane(
    saved: Seq<ProjectTimelineClip>,
    pool: Seq<ImportedClip>,
    kind: TrackKind,
    lane: Lane,
) -> bool {
    &&& lane.kind == kind
    &&& !lane.muted
    &&& !lane.soloed
    &&& restores_track(saved, pool, lane.clips, saved.len() as int)
}

/// How many video tracks a project has: those that were saved, and at least two.
pub open spec fn video_tracks_of(p: ProjectFile) -> int {
    if p.video_tracks@.len() < 2 {
        2
    } else {
        p.video_tracks@.len() as int
    }
}

/// Whether the tracks are those that a project brings back: the video tracks, filled
/// up to two with empty ones, and one audio track.
pub open spec fn restores_tracks(
    p: ProjectFile,
    pool: Seq<ImportedClip>,
    tracks: Seq<Lane>,
) -> bool {
    let n = video_tracks_of(p);
    &&& tracks.len() == n + 1
    &&& forall|i: int|
        0 <= i < p.video_tracks@.len() ==> restores_lane(
            p.video_tracks@[i]@,
            pool,
            TrackKind::Video,
            #[trigger] tracks[i],
        )
    &&& forall|i: int|
        p.video_tracks@.len() <= i < n ==> #[trigger] tracks[i] == empty_lane(TrackKind::Video)
    &&& restores_lane(p.audio_clips@, pool, TrackKind::Audio, tracks[n])
}

/// Whether the state is the session that a project brings back, with files that were
/// opened for its imports. What is not saved is as in a new session.
pub open spec fn restores(
    p: ProjectFile,
    opened: Seq<Result<OpenedMedia, String>>,
    state: AppState,
    warnings: Seq<Seq<char>>,
) -> bool {
    let pool = state.clips@;
    &&& restores_imports(p.clips@, opened, pool, opened.len() as int)
    &&& restores_tracks(p, pool, state.timeline.lanes())
    &&& state.timeline.title_clips@.len() == p.title_clips@.len()
    &&& forall|i: int|
        0 <= i < p.title_clips@.len() ==> restores_title(
            p.title_clips@[i],
            #[trigger] state.timeline.title_clips@[i],
        )
    &&& state.timeline.pixels_per_second == p.pixels_per_second
    &&& state.export.encoder_config.video_codec == video_codec_named(p.encoder_config.video_codec@)
    &&& state.export.encoder_config.audio_codec == audio_codec_named(p.encoder_config.audio_codec@)
    &&& state.export.encoder_config.crf == p.encoder_config.crf
    &&& saves_filters(state.export.export_filters, p.export_filters)
    &&& state.export.loudness_normalize == p.loudness_normalize
    &&& state.export.loudness_target == p.loudness_target
    &&& state.export.range_enabled == p.export_range_enabled
    &&& state.playback == (Playback {
        export_in: p.export_in,
        export_out: p.export_out,
        timeline_loop_enabled: p.timeline_loop_enabled,
        ..Playback::idle()
    })
    &&& state.undo_stack@.len() == 0
    &&& state.redo_stack@.len() == 0
    &&& state.timeline_clipboard is None
    &&& state.selection == (Selection {
        timeline_selected: None,
        selected_title_clip: None,
        clip_drag: None,
        clip_trim: None,
        title_clip_drag: None,
        title_clip_trim: None,
    })
    &&& state.monitor.clip_index is None
    &&& state.monitor.seek_pos_secs.bits == F64_ZERO
    &&& !state.monitor.seek_exact
    &&& state.monitor.keyframes@.len() == 0
    &&& state.monitor.av_offset_ms == 0
    &&& state.export.queue@.len() == 0
    &&& !state.export.queue_rendering
    &&& state.export.loudness_result is None
    &&& !state.export.use_proxies
    &&& state.export.project_aspect == AspectPreset::Original
    &&& !state.export.show_settings
    &&& state.browser.tab == BrowserTab::Media
    &&& state.browser.selected_clip_index is None
    &&& state.browser.text_presets@.len() == 0
    &&& state.browser.selected_text_preset is None
    &&& state.jobs.trim@.len() == 0
    &&& state.jobs.gif@.len() == 0
    &&& state.jobs.proxy@.len() == 0
    &&& warnings == open_warnings(p.clips@, opened, opened.len() as int) + track_warnings(
        p.video_tracks@,
        pool,
        p.video_tracks@.len() as int,
    ) + source_warnings(p.audio_clips@, pool, p.audio_clips@.len() as int)
}

fn restore_tracks(
    project: &ProjectFile,
    pool: &Vec<ImportedClip>,
    warnings: &mut Vec<String>,
) -> (tracks: Vec<Track>)
    ensures
        restores_tracks(*project, pool@, lanes(tracks@)),
        texts(final(warnings)@) == texts(old(warnings)@) + track_warnings(
            project.video_tracks@,
            pool@,
            project.video_tracks@.len() as int,
        ) + source_warnings(project.audio_clips@, pool@, project.audio_clips@.len() as int),
{
    let ghost said = texts(warnings@);
    let saved = &project.video_tracks;
    let mut tracks: Vec<Track> = Vec::new();
    let mut i: usize = 0;
    assert(said =~= said + Seq::empty());
    while i < saved.len()
        invariant
            i <= saved@.len(),
            tracks@.len() == i,
            forall|k: int|
                0 <= k < i ==> restores_lane(
                    saved@[k]@,
                    pool@,
                    TrackKind::Video,
                    (#[trigger] tracks@[k])@,
                ),
            texts(warnings@) == said + track_warnings(saved@, pool@, i as int),
        decreases saved@.len() - i,
    {
        let clips = restore_track(&saved[i], pool, warnings);
        assert(texts(warnings@) =~= said + track_warnings(saved@, pool@, i + 1));
        tracks.push(Track { kind: TrackKind::Video, clips, muted: false, soloed: false });
        i = i + 1;
    }
    while tracks.len() < 2
        invariant
            saved@ == project.video_tracks@,
            saved@.len() <= tracks@.len(),
            tracks@.len() == saved@.len() || tracks@.len() <= 2,
            forall|k: int|
                0 <= k < saved@.len() ==> restores_lane(
                    saved@[k]@,
                    pool@,
                    TrackKind::Video,
                    (#[trigger] tracks@[k])@,
                ),
            forall|k: int|
                saved@.len() <= k < tracks@.len() ==> (#[trigger] tracks@[k])@ == empty_lane(
                    TrackKind::Video,
                ),
        decreases 2 - tracks@.len(),
    {
        tracks.push(Track::empty(TrackKind::Video));
    }
    let clips = restore_track(&project.audio_clips, pool, warnings);
    tracks.push(Track { kind: TrackKind::Audio, clips, muted: false, soloed: false });
    proof {
        let all = lanes(tracks@);
        let n = video_tracks_of(*project);
        assert(all.len() == n + 1);
        assert forall|k: int| 0 <= k < saved@.len() implies restores_lane(
            saved@[k]@,
            pool@,
            TrackKind::Video,
            #[trigger] all[k],
        ) by {
            assert(all[k] == tracks@[k]@);
        }
        assert forall|k: int| saved@.len() <= k < n implies #[trigger] all[k] == empty_lane(
            TrackKind::Video,
        ) by {
            assert(all[k] == tracks@[k]@);
        }
        assert(all[n] == tracks@[n]@);
    }
    tracks
}

/// Brings a session back. `opened` holds, for each import of the project, what
/// opening its file told or why that failed. Files and clips that are missing are
/// skipped with a warning.
pub fn load_project(
    project: &ProjectFile,
    opened: &Vec<Result<OpenedMedia, String>>,
) -> (r: (AppState, Vec<String>))
    requires
        opened@.len() == project.clips@.len(),
    ensures
        restores(*project, opened@, r.0, texts(r.1@)),
{
    let (clips, mut warnings) = restore_imports(&project.clips, opened);
    let tracks = restore_tracks(project, &clips, &mut warnings);
    let title_clips = restore_titles(&project.title_clips);
    let ef = &project.export_filters;
    let mut state = AppState::default();
    state.clips = clips;
    state.timeline = TimelineState {
        tracks,
        pixels_per_second: project.pixels_per_second,
        title_clips,
    };
    state.export.encoder_config = project.encoder_config.to_draft();
    state.export.export_filters = ExportFilterDraft {
        scale_enabled: ef.scale_enabled,
        output_width: ef.output_width,
        output_height: ef.output_height,
        colorbalance_enabled: ef.colorbalance_enabled,
        brightness: ef.brightness,
        contrast: ef.contrast,
        saturation: ef.saturation,
    };
    state.export.loudness_normalize = project.loudness_normalize;
    state.export.loudness_target = project.loudness_target;
    state.export.range_enabled = project.export_range_enabled;
    state.playback.export_in = project.export_in;
    state.playback.export_out = project.export_out;
    state.playback.timeline_loop_enabled = project.timeline_loop_enabled;
    (state, warnings)
}

// ── Saving and loading together ───────────────────────────────────────────────

/// A loaded timeline has its video tracks before its one audio track.
pub proof fn loaded_tracks_are_ordered(
    p: ProjectFile,
    pool: Seq<ImportedClip>,
    tracks: Seq<Lane>,
)
    requires
        restores_tracks(p, pool, tracks),
    ensures
        video_end(tracks, 0) == video_tracks_of(p),
        tracks.len() == video_tracks_of(p) + 1,
{
    let n = video_tracks_of(p);
    assert forall|i: int| 0 <= i < n implies (#[trigger] tracks[i]).kind == TrackKind::Video by {
        if i < p.video_tracks@.len() {
            assert(restores_lane(p.video_tracks@[i]@, pool, TrackKind::Video, tracks[i]));
        }
    }
    video_end_bounds(tracks, 0);
    let e = video_end(tracks, 0);
    if e < n {
        assert(tracks[e].kind == TrackKind::Audio);
    }
    if e > n {
        assert(tracks[n].kind == TrackKind::Video);
    }
}

/// Whether two clips agree in everything that a project keeps.
pub open spec fn keeps_clip(c: TimelineClip, r: TimelineClip) -> bool {
    &&& r.source_index == c.source_index
    &&& r.start_on_track == c.start_on_track
    &&& r.in_point == c.in_point
    &&& r.out_point == c.out_point
    &&& r.transition == c.transition
    &&& r.transition_duration == c.transition_duration
    &&& r.gain_db == c.gain_db
    &&& r.fade_in == c.fade_in
    &&& r.fade_out == c.fade_out
    &&& r.brightness == c.brightness
    &&& r.contrast == c.contrast
    &&& r.saturation == c.saturation
    &&& r.speed == c.speed
    &&& r.opacity == c.opacity
    &&& is_saved_blend_mode(c.blend_mode) ==> r.blend_mode == c.blend_mode
    &&& text_of(r.lut_path) == text_of(c.lut_path)
    &&& r.wb_temperature == c.wb_temperature
    &&& r.wb_tint == c.wb_tint
    &&& r.hue_degrees == c.hue_degrees
    &&& r.gamma_r == c.gamma_r
    &&& r.gamma_g == c.gamma_g
    &&& r.gamma_b == c.gamma_b
}

/// Every clip of the track has a source, under a path that no later import has.
pub open spec fn sources_clear(clips: Seq<TimelineClip>, pool: Seq<ImportedClip>) -> bool {
    &&& forall|c: int| 0 <= c < clips.len() ==> (#[trigger] clips[c]).source_index < pool.len()
    &&& forall|c: int, i: int|
        0 <= c < clips.len() && clips[c].source_index < i < pool.len() ==> (
        #[trigger] pool[i]).path@ != pool[(#[trigger] clips[c]).source_index as int].path@
}

/// The two lists of imports have the same paths.
pub open spec fn same_paths(a: Seq<ImportedClip>, b: Seq<ImportedClip>) -> bool {
    a.len() == b.len() && forall|i: int|
        0 <= i < a.len() ==> (#[trigger] a[i]).path@ == (#[trigger] b[i]).path@
}

proof fn same_paths_same_source(
    a: Seq<ImportedClip>,
    b: Seq<ImportedClip>,
    path: Seq<char>,
    n: int,
)
    requires
        same_paths(a, b),
        0 <= n <= a.len(),
    ensures
        last_with_path(a, path, n) == last_with_path(b, path, n),
    decreases n,
{
    if n > 0 {
        assert(a[n - 1].path@ == b[n - 1].path@);
        same_paths_same_source(a, b, path, n - 1);
    }
}

proof fn all_opened(opened: Seq<Result<OpenedMedia, String>>, saved: Seq<ProjectClip>, n: int)
    requires
        0 <= n <= opened.len(),
        forall|i: int| 0 <= i < opened.len() ==> (#[trigger] opened[i]) is Ok,
    ensures
        opened_files(opened, n).len() == n,
        forall|k: int| 0 <= k < n ==> #[trigger] opened_files(opened, n)[k] == k,
        open_warnings(saved, opened, n) == Seq::<Seq<char>>::empty(),
    decreases n,
{
    if n > 0 {
        all_opened(opened, saved, n - 1);
        assert(opened[n - 1] is Ok);
        let some = opened_files(opened, n - 1);
        let more = opened_files(opened, n);
        assert forall|k: int| 0 <= k < n implies #[trigger] more[k] == k by {
            if k < n - 1 {
                assert(more[k] == some[k]);
            }
        }
    }
}

proof fn all_sources_found(
    clips: Seq<TimelineClip>,
    pool: Seq<ImportedClip>,
    loaded: Seq<ImportedClip>,
    saved: Seq<ProjectTimelineClip>,
    n: int,
)
    requires
        saves_track(clips, pool, saved),
        sources_clear(clips, pool),
        same_paths(pool, loaded),
        0 <= n <= saved.len(),
    ensures
        with_source(saved, loaded, n).len() == n,
        forall|k: int| 0 <= k < n ==> #[trigger] with_source(saved, loaded, n)[k] == k,
        source_warnings(saved, loaded, n) == Seq::<Seq<char>>::empty(),
        forall|k: int|
            0 <= k < n ==> source_named(loaded, #[trigger] saved[k]) == Some(
                clips[k].source_index,
            ),
    decreases n,
{
    if n > 0 {
        all_sources_found(clips, pool, loaded, saved, n - 1);
        let k = n - 1;
        assert(saves_clip(clips[k], pool, saved[k]));
        let at = clips[k].source_index as int;
        assert forall|i: int| at < i < pool.len() implies (#[trigger] pool[i]).path@
            != pool[at].path@ by {
            assert(clips[k].source_index == at);
        }
        last_is_found(pool, at, pool.len() as int);
        same_paths_same_source(pool, loaded, saved[k].source_path@, pool.len() as int);
        let some = with_source(saved, loaded, n - 1);
        let more = with_source(saved, loaded, n);
        assert forall|j: int| 0 <= j < n implies #[trigger] more[j] == j by {
            if j < n - 1 {
                assert(more[j] == some[j]);
            }
        }
    }
}

proof fn track_round_trip(
    clips: Seq<TimelineClip>,
    pool: Seq<ImportedClip>,
    loaded: Seq<ImportedClip>,
    saved: Seq<ProjectTimelineClip>,
    back: Seq<TimelineClip>,
)
    requires
        saves_track(clips, pool, saved),
        sources_clear(clips, pool),
        same_paths(pool, loaded),
        restores_track(saved, loaded, back, saved.len() as int),
    ensures
        back.len() == clips.len(),
        forall|k: int| 0 <= k < clips.len() ==> keeps_clip(clips[k], #[trigger] back[k]),
        source_warnings(saved, loaded, saved.len() as int) == Seq::<Seq<char>>::empty(),
{
    all_sources_found(clips, pool, loaded, saved, saved.len() as int);
    let there = with_source(saved, loaded, saved.len() as int);
    assert forall|k: int| 0 <= k < clips.len() implies keeps_clip(clips[k], #[trigger] back[k]) by {
        assert(there[k] == k);
        assert(saves_clip(clips[k], pool, saved[k]));
        assert(source_named(loaded, saved[k]) == Some(clips[k].source_index));
        assert(restores_clip(saved[k], clips[k].source_index, back[k]));
        assert forall|i: int| clips[k].source_index < i < pool.len() implies (
        #[trigger] pool[i]).path@ != pool[clips[k].source_index as int].path@ by {
            assert(clips[k].source_index < i);
        }
        clip_round_trip(clips[k], pool, saved[k], back[k]);
    }
}

proof fn no_track_warnings(
    tracks: Seq<Lane>,
    pool: Seq<ImportedClip>,
    loaded: Seq<ImportedClip>,
    saved: Seq<Vec<ProjectTimelineClip>>,
    n: int,
)
    requires
        0 <= n <= saved.len() <= tracks.len(),
        same_paths(pool, loaded),
        forall|i: int|
            0 <= i < saved.len() ==> saves_track(tracks[i].clips, pool, (#[trigger] saved[i])@),
        forall|i: int| 0 <= i < saved.len() ==> sources_clear((#[trigger] tracks[i]).clips, pool),
    ensures
        track_warnings(saved, loaded, n) == Seq::<Seq<char>>::empty(),
    decreases n,
{
    if n > 0 {
        no_track_warnings(tracks, pool, loaded, saved, n - 1);
        let k = n - 1;
        assert(saves_track(tracks[k].clips, pool, saved[k]@));
        assert(sources_clear(tracks[k].clips, pool));
        all_sources_found(tracks[k].clips, pool, loaded, saved[k]@, saved[k]@.len() as int);
        assert(track_warnings(saved, loaded, n) =~= Seq::<Seq<char>>::empty());
    }
}

/// Whether the clips of two tracks agree in everything that a project keeps.
pub open spec fn keeps_clips(clips: Seq<TimelineClip>, back: Seq<TimelineClip>) -> bool {
    back.len() == clips.len() && forall|k: int|
        0 <= k < clips.len() ==> keeps_clip(clips[k], #[trigger] back[k])
}

/// A session whose clips have sources of distinct paths comes back from its project
/// without a warning where all files can be opened: the imports with their marks,
/// every clip of the video tracks and of the first audio track with all that a
/// project keeps of it, the titles, the output filters, the loudness target, the zoom,
/// and the loop and range. Codecs come back where presets know them.
pub proof fn project_round_trip(
    state: AppState,
    p: ProjectFile,
    opened: Seq<Result<OpenedMedia, String>>,
    back: AppState,
    warnings: Seq<Seq<char>>,
)
    requires
        saves(state, p),
        restores(p, opened, back, warnings),
        opened.len() == p.clips@.len(),
        forall|i: int| 0 <= i < opened.len() ==> (#[trigger] opened[i]) is Ok,
        forall|i: int|
            0 <= i < state.timeline.lanes().len() ==> sources_clear(
                (#[trigger] state.timeline.lanes()[i]).clips,
                state.clips@,
            ),
    ensures
        warnings.len() == 0,
        back.clips@.len() == state.clips@.len(),
        forall|i: int|
            0 <= i < state.clips@.len() ==> (#[trigger] back.clips@[i]).path@
                == state.clips@[i].path@ && back.clips@[i].in_point == state.clips@[i].in_point
                && back.clips@[i].out_point == state.clips@[i].out_point,
        ({
            let tracks = state.timeline.lanes();
            let now = back.timeline.lanes();
            let n = video_end(tracks, 0);
            &&& now.len() == (if n < 2 { 2 } else { n }) + 1
            &&& forall|t: int|
                0 <= t < n ==> keeps_clips(tracks[t].clips, (#[trigger] now[t]).clips)
            &&& n < tracks.len() ==> keeps_clips(tracks[n].clips, now.last().clips)
            &&& n >= tracks.len() ==> now.last().clips.len() == 0
        }),
        back.timeline.title_clips@.len() == state.timeline.title_clips@.len(),
        forall|i: int|
            0 <= i < state.timeline.title_clips@.len() ==> same_title(
                state.timeline.title_clips@[i],
                #[trigger] back.timeline.title_clips@[i],
            ),
        back.playback.export_in == state.playback.export_in,
        back.playback.export_out == state.playback.export_out,
        back.playback.timeline_loop_enabled == state.playback.timeline_loop_enabled,
        back.export.range_enabled == state.export.range_enabled,
        back.export.export_filters == state.export.export_filters,
        back.export.loudness_normalize == state.export.loudness_normalize,
        back.export.loudness_target == state.export.loudness_target,
        back.timeline.pixels_per_second == state.timeline.pixels_per_second,
        back.export.encoder_config.crf == state.export.encoder_config.crf,
        preset_video(state.export.encoder_config.video_codec) && preset_audio(
            state.export.encoder_config.audio_codec,
        ) ==> back.export.encoder_config == state.export.encoder_config,
{
    let codecs = state.export.encoder_config;
    if preset_video(codecs.video_codec) && preset_audio(codecs.audio_codec) {
        preset_round_trip(codecs);
    }
    let pool = state.clips@;
    let loaded = back.clips@;
    let tracks = state.timeline.lanes();
    let now = back.timeline.lanes();
    let n = video_end(tracks, 0);
    video_end_bounds(tracks, 0);
    all_opened(opened, p.clips@, opened.len() as int);
    let files = opened_files(opened, opened.len() as int);
    assert forall|i: int| 0 <= i < pool.len() implies (#[trigger] loaded[i]).path@ == pool[i].path@
        && loaded[i].in_point == pool[i].in_point && loaded[i].out_point == pool[i].out_point by {
        assert(files[i] == i);
        assert(restores_import(p.clips@[files[i]], opened[files[i]]->Ok_0, loaded[i]));
        assert(p.clips@[i].path@ == pool[i].path@);
    }
    assert(same_paths(pool, loaded));
    assert forall|t: int| 0 <= t < n implies keeps_clips(
        tracks[t].clips,
        (#[trigger] now[t]).clips,
    ) by {
        let saved = p.video_tracks@[t]@;
        assert(saves_track(tracks[t].clips, pool, saved));
        assert(sources_clear(tracks[t].clips, pool));
        assert(restores_lane(saved, loaded, TrackKind::Video, now[t]));
        track_round_trip(tracks[t].clips, pool, loaded, saved, now[t].clips);
    }
    no_track_warnings(tracks, pool, loaded, p.video_tracks@, n);
    if n < tracks.len() {
        assert(sources_clear(tracks[n].clips, pool));
        track_round_trip(tracks[n].clips, pool, loaded, p.audio_clips@, now.last().clips);
    }
    assert forall|i: int| 0 <= i < state.timeline.title_clips@.len() implies same_title(
        state.timeline.title_clips@[i],
        #[trigger] back.timeline.title_clips@[i],
    ) by {
        let t = state.timeline.title_clips@[i];
        assert(saves_title(t, p.title_clips@[i]));
        align_round_trip(t.h_align, t.v_align);
    }
}

// ── What a project holds ──────────────────────────────────────────────────────

/// Alignments are saved under their names; any other text is read as the middle one.
pub proof fn alignments_have_their_names(s: Seq<char>)
    ensures
        halign_name(HAlign::Left) == "Left"@ && halign_named("Left"@) == HAlign::Left,
        halign_name(HAlign::Centre) == "Centre"@ && halign_named("Centre"@) == HAlign::Centre,
        halign_name(HAlign::Right) == "Right"@ && halign_named("Right"@) == HAlign::Right,
        valign_name(VAlign::Top) == "Top"@ && valign_named("Top"@) == VAlign::Top,
        valign_name(VAlign::Middle) == "Middle"@ && valign_named("Middle"@) == VAlign::Middle,
        valign_name(VAlign::Bottom) == "Bottom"@ && valign_named("Bottom"@) == VAlign::Bottom,
        s != "Left"@ && s != "Right"@ ==> halign_named(s) == HAlign::Centre,
        s != "Top"@ && s != "Bottom"@ ==> valign_named(s) == VAlign::Middle,
{
    align_round_trip(HAlign::Left, VAlign::Top);
    align_round_trip(HAlign::Centre, VAlign::Middle);
    align_round_trip(HAlign::Right, VAlign::Bottom);
}

/// A clip is saved under the path of its source, with each setting under its own name and
/// the transition and the blend mode by theirs.
pub proof fn clip_is_saved_as_set(
    c: TimelineClip,
    sources: Seq<ImportedClip>,
    p: ProjectTimelineClip,
)
    requires
        saves_clip(c, sources, p),
    ensures
        c.source_index < sources.len() ==> p.source_path@ == sources[c.source_index as int].path@,
        c.source_index >= sources.len() ==> p.source_path@.len() == 0,
        p.start_on_track == c.start_on_track,
        p.in_point == c.in_point,
        p.out_point == c.out_point,
        p.transition_duration == c.transition_duration,
        p.gain_db == c.gain_db,
        p.fade_in == c.fade_in,
        p.fade_out == c.fade_out,
        p.brightness == c.brightness,
        p.contrast == c.contrast,
        p.saturation == c.saturation,
        p.speed == c.speed,
        p.opacity == c.opacity,
        p.wb_temperature == c.wb_temperature,
        p.wb_tint == c.wb_tint,
        p.hue_degrees == c.hue_degrees,
        p.gamma_r == c.gamma_r,
        p.gamma_g == c.gamma_g,
        p.gamma_b == c.gamma_b,
        p.transition is Some <==> c.transition is Some,
        c.transition is Some ==> p.transition->0@ == xfade_name(c.transition->0),
        p.blend_mode@ == blend_mode_name(c.blend_mode),
        p.lut_path is Some <==> c.lut_path is Some,
        c.lut_path is Some ==> p.lut_path->0@ == c.lut_path->0@,
{
}

/// A saved clip comes back with each setting that was saved under its own name, and with
/// all that is not saved as in a new clip.
pub proof fn clip_comes_back_as_saved(p: ProjectTimelineClip, source: usize, c: TimelineClip)
    requires
        restores_clip(p, source, c),
    ensures
        c.source_index == source,
        c.start_on_track == p.start_on_track,
        c.in_point == p.in_point,
        c.out_point == p.out_point,
        c.transition_duration == p.transition_duration,
        c.gain_db == p.gain_db,
        c.fade_in == p.fade_in,
        c.fade_out == p.fade_out,
        c.brightness == p.brightness,
        c.contrast == p.contrast,
        c.saturation == p.saturation,
        c.speed == p.speed,
        c.opacity == p.opacity,
        c.wb_temperature == p.wb_temperature,
        c.wb_tint == p.wb_tint,
        c.hue_degrees == p.hue_degrees,
        c.gamma_r == p.gamma_r,
        c.gamma_g == p.gamma_g,
        c.gamma_b == p.gamma_b,
        p.transition is None ==> c.transition is None,
        p.transition is Some ==> c.transition == xfade_named(p.transition->0@),
        c.blend_mode == blend_mode_named(p.blend_mode@),
        c.lut_path is Some <==> p.lut_path is Some,
        c.lut_path is Some ==> c.lut_path->0@ == p.lut_path->0@,
        !c.reverse && c.freeze is None,
        c.position_x.bits == 0 && c.position_y.bits == 0 && c.scale_pct.bits == 0x42c8_0000,
        c.vignette.bits == 0 && c.vignette_x.bits == 0x4248_0000 && c.vignette_y.bits
            == 0x4248_0000,
        c.curves.neutral() && c.wheels.neutral() && c.video_effects.neutral()
            && c.transform.neutral(),
        c.overlay.path is None && c.subtitle.path is None,
        !c.keying.enabled && c.mask.shape == MaskShape::Off,
        c.animation.opacity.keys@.len() == 0 && c.animation.volume.keys@.len() == 0,
        c.animation.pos_x.keys@.len() == 0 && c.animation.pos_y.keys@.len() == 0,
        c.animation.scale.keys@.len() == 0,
{
}

/// A saved clip is of the last import with its path; where no import has it, the clip has
/// no source.
pub proof fn source_is_found_by_its_path(pool: Seq<ImportedClip>, path: Seq<char>, n: int)
    requires
        0 <= n <= pool.len() <= usize::MAX,
    ensures
        match last_with_path(pool, path, n) {
            Some(i) => i < n && pool[i as int].path@ == path && (forall|k: int|
                i < k < n ==> (#[trigger] pool[k]).path@ != path),
            None => forall|k: int| 0 <= k < n ==> (#[trigger] pool[k]).path@ != path,
        },
    decreases n,
{
    if n > 0 && pool[n - 1].path@ != path {
        source_is_found_by_its_path(pool, path, n - 1);
    }
}

/// A title is saved and comes back with its time, text, size and colour, and with its
/// alignments by their names.
pub proof fn title_is_saved_as_set(t: TitleClip, p: ProjectTitleClip, back: TitleClip)
    requires
        saves_title(t, p),
        restores_title(p, back),
    ensures
        p.start_on_track == t.start_on_track && back.start_on_track == t.start_on_track,
        p.duration == t.duration && back.duration == t.duration,
        p.text@ == t.text@ && back.text@ == t.text@,
        p.font_size == t.font_size && back.font_size == t.font_size,
        p.color == t.color && back.color == t.color,
        p.h_align@ == halign_name(t.h_align) && back.h_align == t.h_align,
        p.v_align@ == valign_name(t.v_align) && back.v_align == t.v_align,
{
    align_round_trip(t.h_align, t.v_align);
}

/// A project holds the session: every import with its path and marks, the clips of every
/// video track and of the first audio track in their order, the titles, and the settings of
/// the export, the range, the loop and the zoom, each under its own name.
pub proof fn project_holds_the_session(state: AppState, p: ProjectFile)
    requires
        saves(state, p),
    ensures
        ({
            let tracks = state.timeline.tracks@;
            let n = p.video_tracks@.len() as int;
            &&& p.version == 1
            &&& p.clips@.len() == state.clips@.len()
            &&& forall|i: int|
                0 <= i < p.clips@.len() ==> (#[trigger] p.clips@[i]).path@ == state.clips@[i].path@
                    && p.clips@[i].in_point == state.clips@[i].in_point && p.clips@[i].out_point
                    == state.clips@[i].out_point
            &&& n <= tracks.len()
            &&& forall|t: int| 0 <= t < n ==> (#[trigger] tracks[t]).kind == TrackKind::Video
            &&& n < tracks.len() ==> tracks[n].kind == TrackKind::Audio
            &&& forall|t: int|
                0 <= t < n ==> (#[trigger] p.video_tracks@[t])@.len() == tracks[t].clips@.len()
            &&& forall|t: int, i: int|
                0 <= t < n && 0 <= i < p.video_tracks@[t]@.len() ==> saves_clip(
                    tracks[t].clips@[i],
                    state.clips@,
                    #[trigger] p.video_tracks@[t]@[i],
                )
            &&& p.audio_clips@.len() == (if n < tracks.len() {
                tracks[n].clips@.len()
            } else {
                0
            })
            &&& forall|i: int|
                0 <= i < p.audio_clips@.len() ==> saves_clip(
                    tracks[n].clips@[i],
                    state.clips@,
                    #[trigger] p.audio_clips@[i],
                )
            &&& p.title_clips@.len() == state.timeline.title_clips@.len()
            &&& forall|i: int|
                0 <= i < p.title_clips@.len() ==> saves_title(
                    state.timeline.title_clips@[i],
                    #[trigger] p.title_clips@[i],
                )
        }),
        p.encoder_config.crf == state.export.encoder_config.crf,
        p.encoder_config.video_codec@ == video_codec_name(state.export.encoder_config.video_codec),
        p.encoder_config.audio_codec@ == audio_codec_name(state.export.encoder_config.audio_codec),
        p.export_filters.scale_enabled == state.export.export_filters.scale_enabled,
        p.export_filters.output_width == state.export.export_filters.output_width,
        p.export_filters.output_height == state.export.export_filters.output_height,
        p.export_filters.colorbalance_enabled == state.export.export_filters.colorbalance_enabled,
        p.export_filters.brightness == state.export.export_filters.brightness,
        p.export_filters.contrast == state.export.export_filters.contrast,
        p.export_filters.saturation == state.export.export_filters.saturation,
        p.loudness_normalize == state.export.loudness_normalize,
        p.loudness_target == state.export.loudness_target,
        p.export_in == state.playback.export_in && p.export_out == state.playback.export_out,
        p.export_range_enabled == state.export.range_enabled,
        p.timeline_loop_enabled == state.playback.timeline_loop_enabled,
        p.pixels_per_second == state.timeline.pixels_per_second,
{
    let tracks = state.timeline.tracks@;
    let seen = state.timeline.lanes();
    video_end_bounds(seen, 0);
    let n = video_end(seen, 0);
    assert(seen.len() == tracks.len());
    assert forall|t: int| 0 <= t < n implies (#[trigger] tracks[t]).kind == TrackKind::Video by {
        assert(seen[t].kind == TrackKind::Video);
    }
    if n < tracks.len() {
        assert(seen[n].kind == TrackKind::Audio);
        assert(seen[n].clips == tracks[n].clips@);
    }
    assert forall|t: int| 0 <= t < n implies (#[trigger] p.video_tracks@[t])@.len()
        == tracks[t].clips@.len() by {
        assert(saves_track(seen[t].clips, state.clips@, p.video_tracks@[t]@));
        assert(seen[t].clips == tracks[t].clips@);
    }
    assert forall|t: int, i: int| 0 <= t < n && 0 <= i < p.video_tracks@[t]@.len() implies saves_clip(
        tracks[t].clips@[i],
        state.clips@,
        #[trigger] p.video_tracks@[t]@[i],
    ) by {
        assert(saves_track(seen[t].clips, state.clips@, p.video_tracks@[t]@));
        assert(seen[t].clips == tracks[t].clips@);
    }
}

/// The imports that come back are those whose files could be opened, in their order, with
/// the saved path and marks and what the file told; each file that could not be opened is
/// named once.
pub proof fn opened_files_come_back(
    saved: Seq<ProjectClip>,
    opened: Seq<Result<OpenedMedia, String>>,
    n: int,
)
    requires
        0 <= n < opened.len(),
        opened.len() == saved.len(),
    ensures
        opened_files(opened, 0).len() == 0 && open_warnings(saved, opened, 0).len() == 0,
        opened[n] is Ok ==> {
            &&& opened_files(opened, n + 1) == opened_files(opened, n).push(n)
            &&& open_warnings(saved, opened, n + 1) == open_warnings(saved, opened, n)
        },
        opened[n] is Err ==> {
            &&& opened_files(opened, n + 1) == opened_files(opened, n)
            &&& open_warnings(saved, opened, n + 1) == open_warnings(saved, opened, n).push(
                "Cannot open \""@ + saved[n].path@ + "\": "@ + opened[n]->Err_0@
                    + " — clip skipped"@,
            )
        },
{
}

/// An import comes back under its saved path and marks, with what its file told and
/// nothing analysed.
pub proof fn import_comes_back_as_opened(p: ProjectClip, m: OpenedMedia, c: ImportedClip)
    requires
        restores_import(p, m, c),
    ensures
        c.path@ == p.path@,
        c.in_point == p.in_point && c.out_point == p.out_point,
        c.duration == m.duration && c.frame_rate == m.frame_rate,
        c.video == m.video && c.has_audio == m.has_audio,
        c.proxy_path is None,
        c.scenes@.len() == 0 && c.silence_regions@.len() == 0 && c.waveform@.len() == 0,
{
}

/// The clips of a track that come back are those whose source is there, in their order; for
/// each of the others the missing file is named once.
pub proof fn clips_with_a_source_come_back(
    saved: Seq<ProjectTimelineClip>,
    pool: Seq<ImportedClip>,
    n: int,
)
    requires
        0 <= n < saved.len(),
    ensures
        with_source(saved, pool, 0).len() == 0 && source_warnings(saved, pool, 0).len() == 0,
        (exists|i: int| 0 <= i < pool.len() && (#[trigger] pool[i]).path@ == saved[n].source_path@)
            && pool.len() <= usize::MAX ==> {
            &&& with_source(saved, pool, n + 1) == with_source(saved, pool, n).push(n)
            &&& source_warnings(saved, pool, n + 1) == source_warnings(saved, pool, n)
        },
        !(exists|i: int| 0 <= i < pool.len() && (#[trigger] pool[i]).path@ == saved[n].source_path@)
            && pool.len() <= usize::MAX ==> {
            &&& with_source(saved, pool, n + 1) == with_source(saved, pool, n)
            &&& source_warnings(saved, pool, n + 1) == source_warnings(saved, pool, n).push(
                "Missing source file: "@ + saved[n].source_path@,
            )
        },
{
    if pool.len() <= usize::MAX {
        source_is_found_by_its_path(pool, saved[n].source_path@, pool.len() as int);
    }
}

/// A session comes back from its project: the imports that opened, the video tracks filled
/// up to two, one audio track, the titles and the settings, each from its own place. Tracks
/// are neither muted nor soloed, nothing is selected or can be undone, and nothing plays.
pub proof fn session_comes_back(
    p: ProjectFile,
    opened: Seq<Result<OpenedMedia, String>>,
    state: AppState,
    warnings: Seq<Seq<char>>,
)
    requires
        restores(p, opened, state, warnings),
    ensures
        ({
            let tracks = state.timeline.tracks@;
            let saved = p.video_tracks@;
            let n = tracks.len() - 1;
            &&& n == (if saved.len() < 2 {
                2
            } else {
                saved.len() as int
            })
            &&& tracks[n].kind == TrackKind::Audio
            &&& forall|t: int| 0 <= t < n ==> (#[trigger] tracks[t]).kind == TrackKind::Video
            &&& forall|t: int|
                0 <= t <= n ==> !(#[trigger] tracks[t]).muted && !tracks[t].soloed
            &&& forall|t: int|
                saved.len() <= t < n ==> (#[trigger] tracks[t]).clips@.len() == 0
            &&& forall|t: int|
                0 <= t < saved.len() ==> restores_track(
                    saved[t]@,
                    state.clips@,
                    (#[trigger] tracks[t]).clips@,
                    saved[t]@.len() as int,
                )
            &&& restores_track(
                p.audio_clips@,
                state.clips@,
                tracks[n].clips@,
                p.audio_clips@.len() as int,
            )
        }),
        state.timeline.pixels_per_second == p.pixels_per_second,
        state.playback.export_in == p.export_in && state.playback.export_out == p.export_out,
        state.playback.timeline_loop_enabled == p.timeline_loop_enabled,
        state.export.range_enabled == p.export_range_enabled,
        state.export.loudness_normalize == p.loudness_normalize,
        state.export.loudness_target == p.loudness_target,
        state.export.encoder_config.crf == p.encoder_config.crf,
        state.export.export_filters.scale_enabled == p.export_filters.scale_enabled,
        state.export.export_filters.output_width == p.export_filters.output_width,
        state.export.export_filters.output_height == p.export_filters.output_height,
        state.export.export_filters.colorbalance_enabled == p.export_filters.colorbalance_enabled,
        state.export.export_filters.brightness == p.export_filters.brightness,
        state.export.export_filters.contrast == p.export_filters.contrast,
        state.export.export_filters.saturation == p.export_filters.saturation,
        state.undo_stack@.len() == 0 && state.redo_stack@.len() == 0,
        state.selection.timeline_selected is None && state.selection.selected_title_clip is None,
        state.timeline_clipboard is None && state.export.queue@.len() == 0,
        !state.playback.timeline_player.runs() && !state.playback.player.runs(),
        state.playback.timeline_playhead.nanos == 0,
{
    let tracks = state.timeline.tracks@;
    let saved = p.video_tracks@;
    let seen = state.timeline.lanes();
    let n = video_tracks_of(p);
    assert(seen.len() == tracks.len());
    assert(seen[n].clips == tracks[n].clips@);
    assert forall|t: int| 0 <= t < saved.len() implies restores_track(
        saved[t]@,
        state.clips@,
        (#[trigger] tracks[t]).clips@,
        saved[t]@.len() as int,
    ) by {
        assert(restores_lane(saved[t]@, state.clips@, TrackKind::Video, seen[t]));
    }
    assert forall|t: int| 0 <= t < n implies (#[trigger] tracks[t]).kind == TrackKind::Video
        && !tracks[t].muted && !tracks[t].soloed by {
        if t < saved.len() {
            assert(restores_lane(saved[t]@, state.clips@, TrackKind::Video, seen[t]));
        } else {
            assert(seen[t] == empty_lane(TrackKind::Video));
        }
    }
    assert forall|t: int| saved.len() <= t < n implies (#[trigger] tracks[t]).clips@.len() == 0 by {
        assert(seen[t] == empty_lane(TrackKind::Video));
    }
}

/// The clips of a track come back one for one from those that have a source.
pub proof fn track_comes_back_clip_by_clip(
    saved: Seq<ProjectTimelineClip>,
    pool: Seq<ImportedClip>,
    clips: Seq<TimelineClip>,
    n: int,
    k: int,
)
    requires
        restores_track(saved, pool, clips, n),
        0 <= k < clips.len(),
    ensures
        ({
            let at = with_source(saved, pool, n)[k];
            restores_clip(saved[at], source_named(pool, saved[at])->0, clips[k])
        }),
        clips.len() == with_source(saved, pool, n).len(),
{
}

/// The imports come back one for one from the files that could be opened.
pub proof fn imports_come_back_file_by_file(
    saved: Seq<ProjectClip>,
    opened: Seq<Result<OpenedMedia, String>>,
    clips: Seq<ImportedClip>,
    n: int,
    k: int,
)
    requires
        restores_imports(saved, opened, clips, n),
        0 <= k < clips.len(),
    ensures
        ({
            let at = opened_files(opened, n)[k];
            restores_import(saved[at], opened[at]->Ok_0, clips[k])
        }),
        clips.len() == opened_files(opened, n).len(),
{
}

/// Warnings come in the order of the project: those of the imports, then those of the video
/// tracks from the first on, then those of the audio track.
pub proof fn warnings_come_in_order(
    p: ProjectFile,
    opened: Seq<Result<OpenedMedia, String>>,
    state: AppState,
    warnings: Seq<Seq<char>>,
    n: int,
)
    requires
        restores(p, opened, state, warnings),
        0 <= n < p.video_tracks@.len(),
    ensures
        ({
            let pool = state.clips@;
            let first = open_warnings(p.clips@, opened, opened.len() as int);
            let last = source_warnings(p.audio_clips@, pool, p.audio_clips@.len() as int);
            let middle = track_warnings(p.video_tracks@, pool, p.video_tracks@.len() as int);
            &&& warnings.len() == first.len() + middle.len() + last.len()
            &&& warnings.take(first.len() as int) == first
            &&& warnings.skip(warnings.len() - last.len()) == last
            &&& warnings.subrange(first.len() as int, (first.len() + middle.len()) as int) == middle
        }),
        track_warnings(p.video_tracks@, state.clips@, 0).len() == 0,
        track_warnings(p.video_tracks@, state.clips@, n + 1) == track_warnings(
            p.video_tracks@,
            state.clips@,
            n,
        ) + source_warnings(
            p.video_tracks@[n]@,
            state.clips@,
            p.video_tracks@[n]@.len() as int,
        ),
{
    let pool = state.clips@;
    let first = open_warnings(p.clips@, opened, opened.len() as int);
    let last = source_warnings(p.audio_clips@, pool, p.audio_clips@.len() as int);
    let middle = track_warnings(p.video_tracks@, pool, p.video_tracks@.len() as int);
    assert(warnings.take(first.len() as int) =~= first);
    assert(warnings.skip(warnings.len() - last.len()) =~= last);
    assert(warnings.subrange(first.len() as int, (first.len() + middle.len()) as int) =~= middle);
}

} // verus!
