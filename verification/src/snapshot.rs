//! What an export takes of the session.

use crate::app_state::{AppState, ExportSettings};
use crate::edit_command::copy_titles;
use crate::export::ExportSnapshot;
use crate::effects::{audio_chain, keeps32, keeps_unit32, step_if, Clip, FramePixels};
use crate::export_clip::{can_render, clip_is_rendered_as_set, rendered, ExportClip};
use crate::filter_step::Step;
use crate::float::{F64, F64_THIRTY};
use crate::imported::{size_of_frame, ImportedClip};
use crate::playback::sources_known;
use crate::queue::QueueJob;
use crate::state::TrackKind;
use crate::timeline::{
    any_solo, is_active, track_is_active, video_end, video_end_bounds, Lane, TimelineState,
};
use crate::timeline_clip::TimelineClip;
use std::sync::Arc;
use vstd::prelude::*;

verus! {

/// The clip that is exported for a clip of the timeline.
pub open spec fn export_of(c: TimelineClip, source: ImportedClip, use_proxy: bool) -> ExportClip {
    ExportClip {
        path: source.path,
        start_on_track: c.start_on_track,
        in_point: c.in_point,
        out_point: c.out_point,
        transition: c.transition,
        transition_duration: c.transition_duration,
        source_duration: source.duration,
        fps: match source.frame_rate {
            Some(fps) => fps,
            None => F64 { bits: F64_THIRTY },
        },
        has_audio: source.has_audio,
        gain_db: c.gain_db,
        fade_in: c.fade_in,
        fade_out: c.fade_out,
        brightness: c.brightness,
        contrast: c.contrast,
        saturation: c.saturation,
        speed: c.speed,
        reverse: c.reverse,
        freeze: c.freeze,
        opacity: c.opacity,
        blend_mode: c.blend_mode,
        position_x: c.position_x,
        position_y: c.position_y,
        scale_pct: c.scale_pct,
        proxy_path: if use_proxy {
            source.proxy_path
        } else {
            None
        },
        lut_path: c.lut_path,
        wb_temperature: c.wb_temperature,
        wb_tint: c.wb_tint,
        hue_degrees: c.hue_degrees,
        gamma_r: c.gamma_r,
        gamma_g: c.gamma_g,
        gamma_b: c.gamma_b,
        vignette: c.vignette,
        vignette_x: c.vignette_x,
        vignette_y: c.vignette_y,
        width: size_of_frame(source).0,
        height: size_of_frame(source).1,
        curves: c.curves,
        wheels: c.wheels,
        video_effects: c.video_effects,
        transform: c.transform,
        overlay: c.overlay,
        subtitle: c.subtitle,
        keying: c.keying,
        mask: c.mask,
        animation: c.animation,
    }
}

fn export_with(c: &TimelineClip, source: &ImportedClip, use_proxy: bool) -> (e: ExportClip)
    ensures
        e == export_of(*c, *source, use_proxy),
{
    let (width, height) = source.frame_size();
    ExportClip {
        path: source.path.clone(),
        start_on_track: c.start_on_track,
        in_point: c.in_point,
        out_point: c.out_point,
        transition: c.transition,
        transition_duration: c.transition_duration,
        source_duration: source.duration,
        fps: match source.frame_rate {
            Some(fps) => fps,
            None => F64 { bits: F64_THIRTY },
        },
        has_audio: source.has_audio,
        gain_db: c.gain_db,
        fade_in: c.fade_in,
        fade_out: c.fade_out,
        brightness: c.brightness,
        contrast: c.contrast,
        saturation: c.saturation,
        speed: c.speed,
        reverse: c.reverse,
        freeze: c.freeze,
        opacity: c.opacity,
        blend_mode: c.blend_mode,
        position_x: c.position_x,
        position_y: c.position_y,
        scale_pct: c.scale_pct,
        proxy_path: if use_proxy {
            source.proxy_path.clone()
        } else {
            None
        },
        lut_path: c.lut_path.clone(),
        wb_temperature: c.wb_temperature,
        wb_tint: c.wb_tint,
        hue_degrees: c.hue_degrees,
        gamma_r: c.gamma_r,
        gamma_g: c.gamma_g,
        gamma_b: c.gamma_b,
        vignette: c.vignette,
        vignette_x: c.vignette_x,
        vignette_y: c.vignette_y,
        width,
        height,
        curves: Arc::clone(&c.curves),
        wheels: c.wheels,
        video_effects: c.video_effects,
        transform: c.transform,
        overlay: c.overlay.clone(),
        subtitle: c.subtitle.clone(),
        keying: c.keying,
        mask: Arc::clone(&c.mask),
        animation: Arc::clone(&c.animation),
    }
}

/// The clip that is exported for a clip of the timeline, where its source is there.
pub fn timeline_clip_to_export_clip(
    tc: &TimelineClip,
    pool: &Vec<ImportedClip>,
    use_proxy: bool,
) -> (e: Option<ExportClip>)
    ensures
        e == (if tc.source_index < pool@.len() {
            Some(export_of(*tc, pool@[tc.source_index as int], use_proxy))
        } else {
            None
        }),
{
    if tc.source_index < pool.len() {
        Some(export_with(tc, &pool[tc.source_index], use_proxy))
    } else {
        None
    }
}

/// What is exported of a track: its clips, or nothing where it is not active.
pub open spec fn exported_lane(
    tracks: Seq<Lane>,
    track: int,
    pool: Seq<ImportedClip>,
    use_proxy: bool,
) -> Seq<ExportClip> {
    if is_active(tracks, track) {
        tracks[track].clips.map_values(
            |c: TimelineClip| export_of(c, pool[c.source_index as int], use_proxy),
        )
    } else {
        Seq::empty()
    }
}

fn export_track(
    timeline: &TimelineState,
    track: usize,
    pool: &Vec<ImportedClip>,
    use_proxy: bool,
) -> (r: Vec<ExportClip>)
    requires
        track < timeline.tracks@.len(),
        track <= video_end(timeline.lanes(), 0),
        sources_known(timeline.lanes(), pool@),
    ensures
        r@ == exported_lane(timeline.lanes(), track as int, pool@, use_proxy),
{
    let mut r: Vec<ExportClip> = Vec::new();
    if track_is_active(&timeline.tracks, track) {
        let clips = &timeline.tracks[track].clips;
        assert(timeline.lanes()[track as int].clips == clips@);
        let mut i: usize = 0;
        while i < clips.len()
            invariant
                i <= clips@.len(),
                track < timeline.tracks@.len(),
                track <= video_end(timeline.lanes(), 0),
                clips@ == timeline.lanes()[track as int].clips,
                is_active(timeline.lanes(), track as int),
                sources_known(timeline.lanes(), pool@),
                r@.len() == i,
                forall|k: int|
                    0 <= k < i ==> #[trigger] r@[k] == export_of(
                        clips@[k],
                        pool@[clips@[k].source_index as int],
                        use_proxy,
                    ),
            decreases clips@.len() - i,
        {
            let c = &clips[i];
            assert(timeline.lanes()[track as int].clips[i as int].source_index < pool@.len());
            r.push(export_with(c, &pool[c.source_index], use_proxy));
            i = i + 1;
        }
        assert(r@ =~= exported_lane(timeline.lanes(), track as int, pool@, use_proxy));
    }
    r
}

/// Whether `s` is what an export takes of the session.
pub open spec fn snapshot_of(state: AppState, s: ExportSnapshot) -> bool {
    let tracks = state.timeline.lanes();
    let audio = video_end(tracks, 0);
    let proxies = state.export.use_proxies;
    &&& s.video_clips@.len() == audio
    &&& forall|i: int|
        0 <= i < audio ==> (#[trigger] s.video_clips@[i])@ == exported_lane(
            tracks,
            i,
            state.clips@,
            proxies,
        )
    &&& s.a1_clips@ == (if audio < tracks.len() {
        exported_lane(tracks, audio, state.clips@, proxies)
    } else {
        Seq::empty()
    })
    &&& s.encoder_config == state.export.encoder_config
    &&& s.export_filters == state.export.export_filters
    &&& s.loudness_normalize == state.export.loudness_normalize
    &&& s.loudness_target == state.export.loudness_target
    &&& s.title_clips@ == state.timeline.title_clips@
    &&& s.export_in == (if state.export.range_enabled {
        state.playback.export_in
    } else {
        None
    })
    &&& s.export_out == (if state.export.range_enabled {
        state.playback.export_out
    } else {
        None
    })
    &&& s.canvas == state.export.project_aspect.canvas()
}

/// What an export takes of the session.
pub fn export_snapshot(state: &AppState) -> (s: ExportSnapshot)
    requires
        sources_known(state.timeline.lanes(), state.clips@),
    ensures
        snapshot_of(*state, s),
{
    let audio_start: usize = state.timeline.audio_track_start();
    let proxies = state.export.use_proxies;
    let mut video_clips: Vec<Vec<ExportClip>> = Vec::new();
    let mut i: usize = 0;
    while i < audio_start
        invariant
            i <= audio_start <= state.timeline.tracks@.len(),
            audio_start == video_end(state.timeline.lanes(), 0),
            sources_known(state.timeline.lanes(), state.clips@),
            video_clips@.len() == i,
            forall|k: int|
                0 <= k < i ==> (#[trigger] video_clips@[k])@ == exported_lane(
                    state.timeline.lanes(),
                    k,
                    state.clips@,
                    proxies,
                ),
        decreases audio_start - i,
    {
        video_clips.push(export_track(&state.timeline, i, &state.clips, proxies));
        i = i + 1;
    }
    let a1_clips = if audio_start < state.timeline.tracks.len() {
        export_track(&state.timeline, audio_start, &state.clips, proxies)
    } else {
        Vec::new()
    };
    ExportSnapshot {
        video_clips,
        a1_clips,
        encoder_config: state.export.encoder_config,
        export_filters: state.export.export_filters,
        loudness_normalize: state.export.loudness_normalize,
        loudness_target: state.export.loudness_target,
        title_clips: copy_titles(&state.timeline.title_clips),
        export_in: if state.export.range_enabled {
            state.playback.export_in
        } else {
            None
        },
        export_out: if state.export.range_enabled {
            state.playback.export_out
        } else {
            None
        },
        canvas: state.export.project_aspect.dims(),
    }
}

/// Puts an export of the session as it is now at the end of the queue.
pub fn queue_export(state: &mut AppState, output_path: String)
    requires
        sources_known(old(state).timeline.lanes(), old(state).clips@),
    ensures
        final(state).export.queue@.len() == old(state).export.queue@.len() + 1,
        final(state).export.queue@.drop_last() == old(state).export.queue@,
        final(state).export.queue@.last().output_path == output_path,
        final(state).export.queue@.last().status is Pending,
        final(state).export.queue@.last().snapshot is Some,
        snapshot_of(*old(state), final(state).export.queue@.last().snapshot->0),
        *final(state) == (AppState {
            export: ExportSettings { queue: final(state).export.queue, ..old(state).export },
            ..*old(state)
        }),
{
    let snapshot = export_snapshot(state);
    state.export.queue.push(QueueJob::new(snapshot, output_path));
    assert(state.export.queue@.drop_last() =~= old(state).export.queue@);
}

/// A muted track, or one beside a soloed track, gives nothing to an export; every
/// other video track gives all of its clips.
pub proof fn inactive_tracks_are_silent(
    tracks: Seq<Lane>,
    track: int,
    pool: Seq<ImportedClip>,
    use_proxy: bool,
)
    requires
        0 <= track < tracks.len(),
    ensures
        !is_active(tracks, track) ==> exported_lane(tracks, track, pool, use_proxy).len() == 0,
        is_active(tracks, track) ==> exported_lane(tracks, track, pool, use_proxy).len()
            == tracks[track].clips.len(),
{
}

/// Whether an exported clip has every setting of a clip of the timeline.
pub open spec fn has_settings_of(e: ExportClip, c: TimelineClip) -> bool {
    &&& e.start_on_track == c.start_on_track
    &&& e.in_point == c.in_point
    &&& e.out_point == c.out_point
    &&& e.transition == c.transition
    &&& e.transition_duration == c.transition_duration
    &&& e.gain_db == c.gain_db
    &&& e.fade_in == c.fade_in
    &&& e.fade_out == c.fade_out
    &&& e.brightness == c.brightness
    &&& e.contrast == c.contrast
    &&& e.saturation == c.saturation
    &&& e.speed == c.speed
    &&& e.reverse == c.reverse
    &&& e.freeze == c.freeze
    &&& e.opacity == c.opacity
    &&& e.blend_mode == c.blend_mode
    &&& e.position_x == c.position_x
    &&& e.position_y == c.position_y
    &&& e.scale_pct == c.scale_pct
    &&& e.lut_path == c.lut_path
    &&& e.wb_temperature == c.wb_temperature
    &&& e.wb_tint == c.wb_tint
    &&& e.hue_degrees == c.hue_degrees
    &&& e.gamma_r == c.gamma_r
    &&& e.gamma_g == c.gamma_g
    &&& e.gamma_b == c.gamma_b
    &&& e.vignette == c.vignette
    &&& e.vignette_x == c.vignette_x
    &&& e.vignette_y == c.vignette_y
    &&& e.curves == c.curves
    &&& e.wheels == c.wheels
    &&& e.video_effects == c.video_effects
    &&& e.transform == c.transform
    &&& e.overlay == c.overlay
    &&& e.subtitle == c.subtitle
    &&& e.keying == c.keying
    &&& e.mask == c.mask
    &&& e.animation == c.animation
}

/// An exported clip has every setting of its clip unchanged, and tells of its source the
/// path, length, frame size, frame rate and sound; the proxy comes along where proxies
/// are used. A source of unknown rate counts as thirty frames a second.
pub proof fn export_keeps_every_setting(c: TimelineClip, source: ImportedClip, use_proxy: bool)
    ensures
        ({
            let e = export_of(c, source, use_proxy);
            &&& has_settings_of(e, c)
            &&& e.path == source.path
            &&& e.source_duration == source.duration
            &&& e.has_audio == source.has_audio
            &&& source.frame_rate is Some ==> e.fps == source.frame_rate->0
            &&& source.frame_rate is None ==> e.fps.bits == 0x403e_0000_0000_0000u64
            &&& source.video is Some ==> (e.width, e.height) == source.video->0
            &&& source.video is None ==> e.width == 0 && e.height == 0
            &&& use_proxy ==> e.proxy_path == source.proxy_path
            &&& !use_proxy ==> e.proxy_path is None
        }),
{
}

/// Playing backwards reaches the render: the clip rendered from the export of a reversed
/// clip has its sound reversed, and that of any other has not; and it fades, plays and is
/// placed as the clip on the timeline asks.
pub proof fn timeline_settings_reach_the_render(
    r: Clip,
    c: TimelineClip,
    source: ImportedClip,
    use_proxy: bool,
    canvas: Option<(u32, u32)>,
    px: FramePixels,
)
    requires
        can_render(export_of(c, source, use_proxy), canvas, px),
        rendered(r, export_of(c, source, use_proxy), canvas, px),
    ensures
        audio_chain(r) == step_if(c.reverse, Step::AReverse),
        r.source@ == source.path@,
        r.offset == c.start_on_track,
        c.in_point is Some && c.out_point is Some ==> r.in_point == c.in_point && r.out_point
            == c.out_point,
        r.fade_in == c.fade_in && r.fade_out == c.fade_out,
        r.transition == c.transition,
        r.blend_mode == c.blend_mode,
        keeps32(r.speed, c.speed),
        keeps_unit32(r.opacity, c.opacity),
        c.animation.volume.keys@.len() == 0 ==> keeps32(r.volume_db, c.gain_db),
{
    let e = export_of(c, source, use_proxy);
    clip_is_rendered_as_set(r, e, canvas, px);
    assert(audio_chain(r) =~= step_if(c.reverse, Step::AReverse));
}

/// An export takes the clips of the tracks in their order, each with its own settings: one
/// list for each video track, bottom first, and one for the first audio track. Tracks that
/// are muted, or not soloed beside one that is, give none. Titles, encoder, filters,
/// loudness and canvas are those of the session, the range its marks where it is on.
pub proof fn snapshot_takes_the_session(state: AppState, s: ExportSnapshot)
    requires
        snapshot_of(state, s),
    ensures
        ({
            let tracks = state.timeline.tracks@;
            let n = s.video_clips@.len() as int;
            let solo = exists|i: int| 0 <= i < tracks.len() && (#[trigger] tracks[i]).soloed;
            &&& n <= tracks.len()
            &&& forall|t: int| 0 <= t < n ==> (#[trigger] tracks[t]).kind == TrackKind::Video
            &&& n < tracks.len() ==> tracks[n].kind == TrackKind::Audio
            &&& forall|t: int|
                0 <= t < n ==> {
                    let heard = if solo {
                        tracks[t].soloed
                    } else {
                        !tracks[t].muted
                    };
                    (#[trigger] s.video_clips@[t])@.len() == (if heard {
                        tracks[t].clips@.len()
                    } else {
                        0
                    })
                }
            &&& forall|t: int, i: int|
                0 <= t < n && 0 <= i < s.video_clips@[t]@.len() ==> has_settings_of(
                    #[trigger] s.video_clips@[t]@[i],
                    tracks[t].clips@[i],
                ) && s.video_clips@[t]@[i].path
                    == state.clips@[tracks[t].clips@[i].source_index as int].path
            &&& n < tracks.len() ==> s.a1_clips@.len() == (if (solo && tracks[n].soloed) || (!solo
                && !tracks[n].muted) {
                tracks[n].clips@.len()
            } else {
                0
            })
            &&& n == tracks.len() ==> s.a1_clips@.len() == 0
            &&& forall|i: int|
                0 <= i < s.a1_clips@.len() ==> has_settings_of(
                    #[trigger] s.a1_clips@[i],
                    tracks[n].clips@[i],
                ) && s.a1_clips@[i].path
                    == state.clips@[tracks[n].clips@[i].source_index as int].path
            &&& s.title_clips@ == state.timeline.title_clips@
            &&& s.encoder_config == state.export.encoder_config
            &&& s.export_filters == state.export.export_filters
            &&& s.loudness_normalize == state.export.loudness_normalize
            &&& s.loudness_target == state.export.loudness_target
            &&& s.canvas == state.export.project_aspect.canvas()
            &&& state.export.range_enabled ==> s.export_in == state.playback.export_in
                && s.export_out == state.playback.export_out
            &&& !state.export.range_enabled ==> s.export_in is None && s.export_out is None
        }),
{
    let tracks = state.timeline.tracks@;
    let lanes = state.timeline.lanes();
    video_end_bounds(lanes, 0);
    let n = video_end(lanes, 0);
    assert forall|i: int| 0 <= i < tracks.len() implies #[trigger] tracks[i].soloed
        == lanes[i].soloed && tracks[i].muted == lanes[i].muted && tracks[i].kind == lanes[i].kind
        && tracks[i].clips@ == lanes[i].clips by {}
    if any_solo(lanes) {
        let k = choose|k: int| 0 <= k < lanes.len() && (#[trigger] lanes[k]).soloed;
        assert(tracks[k].soloed);
    }
    if exists|i: int| 0 <= i < tracks.len() && (#[trigger] tracks[i]).soloed {
        let k = choose|k: int| 0 <= k < tracks.len() && (#[trigger] tracks[k]).soloed;
        assert(lanes[k].soloed);
    }
    assert forall|t: int| 0 <= t < n implies (#[trigger] tracks[t]).kind == TrackKind::Video by {
        assert(lanes[t].kind == tracks[t].kind);
    }
    if n < tracks.len() {
        assert(lanes[n].kind == tracks[n].kind);
    }
}

} // verus!
