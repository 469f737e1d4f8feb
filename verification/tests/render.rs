//! From clips of the timeline to what the renderer is handed.

use avio_editor::app_state::AppState;
use avio_editor::clip_effects::{regenerate, ClipParams};
use avio_editor::effects::{Clip, FramePixels};
use avio_editor::export::{
    apply_range, export_frame_rate, render_plan, timeline_end, ExportError, ExportSnapshot,
};
use avio_editor::export_clip::{clips_to_avio, ExportClip};
use avio_editor::filter_step::FilterStep;
use avio_editor::float::{F32, F64};
use avio_editor::imported::ImportedClip;
use avio_editor::keyframes::{ClipAnimation, KeyEasing, KeyTrack};
use avio_editor::matte::{Keying, Mask, MaskShape};
use avio_editor::media::{BlendMode, XfadeTransition};
use avio_editor::overlay::{Overlay, Subtitle};
use avio_editor::presets::{EncoderConfigDraft, ExportFilterDraft};
use avio_editor::range::{
    clip_range_filter, cut_clip, overhang, source_span, title_range_filter, RangeTiming,
};
use avio_editor::snapshot::{export_snapshot, queue_export, timeline_clip_to_export_clip};
use avio_editor::state::{
    AspectPreset, ColorWheel, ColorWheels, HAlign, TitleClip, ToneCurves, TrackKind, Transform,
    VAlign, VideoEffects, WB_NEUTRAL_TEMP,
};
use avio_editor::time::Duration;
use avio_editor::timeline::{Edit, TimelineState};
use avio_editor::timeline_bridge::{
    demo_clip_text, load_demo_clip, store_demo_clip, to_avio, DEMO_CLIP_KEY,
};
use avio_editor::timeline_clip::{Freeze, TimelineClip};
use avio_editor::titles::{build_lavfi_overlay_filter, TitleTimes};
use std::sync::Arc;

fn f(v: f32) -> F32 {
    F32 { bits: v.to_bits() }
}

fn d(v: f64) -> F64 {
    F64 { bits: v.to_bits() }
}

fn secs(s: u64) -> Duration {
    Duration::from_secs(s)
}

fn millis(ms: u64) -> Duration {
    Duration::from_millis(ms)
}

fn pixels() -> FramePixels {
    FramePixels {
        crop_left: 64,
        crop_right: 64,
        crop_top: 0,
        crop_bottom: 0,
        mask_x: 320,
        mask_y: 180,
        mask_w: 640,
        mask_h: 360,
        aberration: 0,
        aspect_side: 1080,
        overlay_factor: "1".to_string(),
    }
}

fn loaded_export_clip() -> ExportClip {
    let mut opacity = KeyTrack::default();
    opacity.insert(secs(0), d(0.0), KeyEasing::Linear);
    opacity.insert(secs(1), d(1.0), KeyEasing::Linear);
    let mut scale = KeyTrack::default();
    scale.insert(secs(0), d(100.0), KeyEasing::Linear);
    scale.insert(secs(2), d(150.0), KeyEasing::Linear);
    ExportClip {
        path: "clip.mp4".to_string(),
        start_on_track: secs(3),
        in_point: None,
        out_point: None,
        transition: Some(XfadeTransition::Fade),
        transition_duration: millis(500),
        source_duration: secs(10),
        fps: d(30.0),
        has_audio: true,
        gain_db: f(-6.0),
        fade_in: millis(250),
        fade_out: millis(250),
        brightness: f(0.1),
        contrast: f(1.2),
        saturation: f(0.9),
        speed: f(2.0),
        reverse: true,
        freeze: Some(Freeze { at_secs: d(1.0), hold_secs: d(2.0) }),
        opacity: f(0.5),
        blend_mode: BlendMode::Multiply,
        position_x: f(100.0),
        position_y: f(50.0),
        scale_pct: f(80.0),
        proxy_path: None,
        lut_path: Some("look.cube".to_string()),
        wb_temperature: 5000,
        wb_tint: f(0.1),
        hue_degrees: f(30.0),
        gamma_r: f(1.1),
        gamma_g: f(1.0),
        gamma_b: f(0.9),
        vignette: f(40.0),
        vignette_x: f(50.0),
        vignette_y: f(50.0),
        width: 1280,
        height: 720,
        curves: Arc::new(ToneCurves {
            master: vec![(f(0.0), f(0.0)), (f(0.5), f(0.6)), (f(1.0), f(1.0))],
            ..ToneCurves::default()
        }),
        wheels: ColorWheels {
            lift: ColorWheel { x: f(0.1), ..ColorWheel::default() },
            ..ColorWheels::default()
        },
        video_effects: VideoEffects { blur: f(3.0), glow: f(0.4), ..VideoEffects::default() },
        transform: Transform {
            crop_left: f(5.0),
            crop_right: f(5.0),
            rotation: f(10.0),
            flip_h: true,
            ..Transform::default()
        },
        overlay: Overlay { path: Some("logo.png".to_string()), ..Overlay::default() },
        subtitle: Subtitle { path: Some("subs.srt".to_string()), ..Subtitle::default() },
        keying: Keying { enabled: true, spill: f(0.3), ..Keying::default() },
        mask: Arc::new(Mask {
            shape: MaskShape::Rectangle,
            feather: 4,
            ..Mask::default()
        }),
        animation: Arc::new(ClipAnimation { opacity, scale, ..ClipAnimation::default() }),
    }
}

fn neutral_export_clip() -> ExportClip {
    let mut c = loaded_export_clip();
    c.transition = None;
    c.gain_db = f(0.0);
    c.fade_in = Duration::zero();
    c.fade_out = Duration::zero();
    c.brightness = f(0.0);
    c.contrast = f(1.0);
    c.saturation = f(1.0);
    c.speed = f(1.0);
    c.reverse = false;
    c.freeze = None;
    c.opacity = f(1.0);
    c.blend_mode = BlendMode::Normal;
    c.position_x = f(0.0);
    c.position_y = f(0.0);
    c.scale_pct = f(100.0);
    c.lut_path = None;
    c.wb_temperature = WB_NEUTRAL_TEMP;
    c.wb_tint = f(0.0);
    c.hue_degrees = f(0.0);
    c.gamma_r = f(1.0);
    c.gamma_g = f(1.0);
    c.gamma_b = f(1.0);
    c.vignette = f(0.0);
    c.curves = Arc::new(ToneCurves::default());
    c.wheels = ColorWheels::default();
    c.video_effects = VideoEffects::default();
    c.transform = Transform::default();
    c.overlay = Overlay::default();
    c.subtitle = Subtitle::default();
    c.keying = Keying::default();
    c.mask = Arc::new(Mask::default());
    c.animation = Arc::new(ClipAnimation::default());
    c
}

fn base_clip(c: &ExportClip) -> Clip {
    let mut base = Clip::new(&c.path);
    base.offset = c.start_on_track;
    base
}

fn assert_regenerate_matches(ec: ExportClip, canvas: Option<(u32, u32)>) {
    let params = ClipParams::from_export_clip(&ec);
    let src = (ec.width, ec.height);
    let base = base_clip(&ec);
    let want = clips_to_avio(&vec![ec], canvas, &vec![pixels()]).remove(0);
    let got = regenerate(base, &params, src, canvas, true, &pixels());

    assert_eq!(
        format!("{:?}", want.video_effects),
        format!("{:?}", got.video_effects),
        "video_effects chain differs"
    );
    assert_eq!(
        format!("{:?}", want.audio_effects),
        format!("{:?}", got.audio_effects),
        "audio_effects chain differs"
    );
    assert_eq!(want.blend_mode, got.blend_mode);
    assert_eq!(want.opacity, got.opacity);
    assert_eq!(want.speed, got.speed);
    assert_eq!(want.volume_db, got.volume_db);
    assert_eq!(want.fade_in, got.fade_in);
    assert_eq!(want.fade_out, got.fade_out);
    assert_eq!(want.transition, got.transition);
    assert_eq!(want.brightness, got.brightness);
    assert_eq!(want.contrast, got.contrast);
    assert_eq!(want.saturation, got.saturation);
    assert_eq!(want.x, got.x);
    assert_eq!(want.y, got.y);
    assert_eq!(want.opacity_track, got.opacity_track);
    assert_eq!(want.volume_track, got.volume_track);
}

#[test]
fn regenerate_matches_clips_to_avio_loaded_with_canvas() {
    assert_regenerate_matches(loaded_export_clip(), Some((1920, 1080)));
}

#[test]
fn regenerate_matches_clips_to_avio_loaded_no_canvas() {
    assert_regenerate_matches(loaded_export_clip(), None);
}

#[test]
fn regenerate_matches_clips_to_avio_neutral() {
    assert_regenerate_matches(neutral_export_clip(), None);
}

#[test]
fn regenerate_gates_reverse_to_export_only() {
    let ec = loaded_export_clip();
    let params = ClipParams::from_export_clip(&ec);
    let src = (ec.width, ec.height);
    let preview = regenerate(base_clip(&ec), &params, src, None, false, &pixels());
    assert!(
        !format!("{:?}", preview.audio_effects).contains("AReverse"),
        "reverse must not leak into the preview chain"
    );
}

#[test]
fn neutral_clip_is_rendered_untouched() {
    let out = clips_to_avio(&vec![neutral_export_clip()], None, &vec![pixels()]).remove(0);
    assert!(out.video_effects.is_empty());
    assert!(out.audio_effects.is_empty());
    assert_eq!(out.source, "clip.mp4");
    assert_eq!(out.offset, secs(3));
    assert_eq!(out.speed, f(1.0));
    assert_eq!(out.opacity, f(1.0));
    assert!(out.transition.is_none());
}

#[test]
fn loaded_clip_keeps_the_order_of_its_chain() {
    let out = clips_to_avio(&vec![loaded_export_clip()], Some((1920, 1080)), &vec![pixels()]);
    let names: Vec<String> = out[0]
        .video_effects
        .iter()
        .map(|s| {
            let text = format!("{s:?}");
            text.split(|c: char| !c.is_alphanumeric()).next().unwrap_or("").to_string()
        })
        .collect();
    assert_eq!(
        names,
        [
            "Reverse",
            "FreezeFrame",
            "ChromaKey",
            "SpillSuppress",
            "Crop",
            "Scale",
            "HFlip",
            "Rotate",
            "WhiteBalance",
            "Hue",
            "Gamma",
            "ThreeWayCC",
            "Curves",
            "Lut3d",
            "Vignette",
            "GBlur",
            "Glow",
            "Crop",
            "Scale",
            "OverlayImage",
            "SubtitlesSrt",
            "RectMask",
            "FeatherMask",
            "ScaleAnimated",
        ]
    );
    assert_eq!((out[0].brightness, out[0].contrast), (f(0.1), f(1.2)));
    assert_eq!(out[0].volume_db, f(-6.0));
}

#[test]
fn clip_params_round_trips_through_metadata() {
    let ec = loaded_export_clip();
    let params = ClipParams::from_export_clip(&ec);
    let text = format!("{params:?}");
    let meta = ClipParams::to_metadata(Some(text.clone()));
    let back = ClipParams::from_metadata(&meta).expect("params present in metadata");
    assert!(text == back, "ClipParams did not round-trip through metadata");
}

fn timing(length: u64, skip: u64, trim: u64) -> RangeTiming {
    RangeTiming { length: secs(length), skip: secs(skip), trim: secs(trim) }
}

#[test]
fn clip_across_the_range_is_cut_at_both_ends() {
    let mut c = neutral_export_clip();
    c.start_on_track = secs(2);
    let (skip, trim) = overhang(secs(2), secs(10), secs(5), secs(9));
    assert_eq!((skip, trim), (secs(3), secs(3)));
    let cut = cut_clip(c, timing(10, 3, 3), secs(5), secs(9)).expect("overlaps");
    assert_eq!(cut.start_on_track, secs(0));
    assert_eq!(cut.in_point, Some(secs(3)));
    assert_eq!(cut.out_point, Some(secs(7)));
    assert_eq!(source_span(&cut), secs(4));
}

#[test]
fn fast_clip_is_cut_to_the_range() {
    let mut c = neutral_export_clip();
    c.start_on_track = secs(2);
    // At twice its speed the ten seconds of the source last five.
    let (before, after) = overhang(secs(2), secs(5), secs(3), secs(6));
    assert_eq!((before, after), (secs(1), secs(1)));
    let cut = cut_clip(c, timing(5, 2, 2), secs(3), secs(6)).expect("overlaps");
    assert_eq!(cut.start_on_track, secs(0));
    assert_eq!((cut.in_point, cut.out_point), (Some(secs(2)), Some(secs(8))));
}

#[test]
fn clip_outside_the_range_is_dropped() {
    let before = neutral_export_clip();
    let after = neutral_export_clip();
    let kept = clip_range_filter(
        vec![before, after],
        &vec![timing(1, 0, 0), timing(10, 0, 0)],
        secs(4),
        secs(20),
    );
    assert_eq!(kept.len(), 1);
    assert!(cut_clip(neutral_export_clip(), timing(10, 0, 0), secs(0), secs(3)).is_none());
}

#[test]
fn out_point_comes_with_an_in_point() {
    let mut c = neutral_export_clip();
    c.start_on_track = secs(0);
    let cut = cut_clip(c, timing(10, 0, 6), secs(0), secs(4)).expect("overlaps");
    assert_eq!(cut.in_point, Some(secs(0)));
    assert_eq!(cut.out_point, Some(secs(4)));
}

fn title(text: &str, start: u64, duration: u64) -> TitleClip {
    TitleClip {
        start_on_track: secs(start),
        duration: secs(duration),
        text: text.to_string(),
        font_size: 48,
        color: [255, 128, 0, 255],
        h_align: HAlign::Centre,
        v_align: VAlign::Bottom,
    }
}

#[test]
fn titles_are_cut_to_the_range() {
    let kept = title_range_filter(
        vec![title("gone", 0, 2), title("cut", 1, 4), title("late", 6, 9)],
        secs(2),
        secs(8),
    );
    assert_eq!(kept.len(), 2);
    assert_eq!((kept[0].start_on_track, kept[0].duration), (secs(0), secs(3)));
    assert_eq!((kept[1].start_on_track, kept[1].duration), (secs(4), secs(2)));
}

fn snapshot_with(video: Vec<Vec<ExportClip>>, a1: Vec<ExportClip>) -> ExportSnapshot {
    ExportSnapshot {
        video_clips: video,
        a1_clips: a1,
        encoder_config: EncoderConfigDraft::default(),
        export_filters: ExportFilterDraft::default(),
        loudness_normalize: false,
        loudness_target: d(-23.0),
        title_clips: Vec::new(),
        export_in: None,
        export_out: None,
        canvas: None,
    }
}

#[test]
fn range_applies_only_where_it_is_not_empty() {
    let mut s = snapshot_with(vec![vec![neutral_export_clip()]], Vec::new());
    s.export_in = Some(secs(5));
    s.export_out = Some(secs(5));
    let same = apply_range(s, &Vec::new(), &Vec::new());
    assert_eq!(same.video_clips[0][0].start_on_track, secs(3));

    let mut s = snapshot_with(vec![vec![neutral_export_clip()]], vec![neutral_export_clip()]);
    s.title_clips = vec![title("cut", 1, 4)];
    s.export_in = Some(secs(2));
    s.export_out = Some(secs(4));
    let cut = apply_range(s, &vec![vec![timing(10, 0, 9)]], &vec![timing(10, 0, 9)]);
    assert_eq!(cut.video_clips[0][0].start_on_track, secs(1));
    assert_eq!(cut.video_clips[0][0].out_point, Some(secs(1)));
    assert_eq!(cut.a1_clips[0].out_point, Some(secs(1)));
    assert_eq!(cut.title_clips[0].duration, secs(2));
}

#[test]
fn export_needs_a_clip_on_the_bottom_track() {
    let s = snapshot_with(vec![Vec::new(), vec![neutral_export_clip()]], Vec::new());
    let px = vec![Vec::new(), vec![pixels()]];
    let r = render_plan(&s, &px, &Vec::new(), &Vec::new(), "13.000");
    assert_eq!(r.err(), Some(ExportError::NoClips));
    assert_eq!(ExportError::NoClips.message(), "V1 track has no clips to export");
}

#[test]
fn plan_orders_tracks_from_the_bottom() {
    let mut silent = neutral_export_clip();
    silent.has_audio = false;
    let mut s = snapshot_with(
        vec![vec![neutral_export_clip()], Vec::new(), vec![silent]],
        vec![neutral_export_clip()],
    );
    s.title_clips = vec![title("It's", 1, 2), title("", 3, 4)];
    let px = vec![vec![pixels()], Vec::new(), vec![pixels()]];
    let times = vec![
        TitleTimes { start: "1.000".to_string(), end: "3.000".to_string() },
        TitleTimes { start: "3.000".to_string(), end: "7.000".to_string() },
    ];
    let plan = render_plan(&s, &px, &vec![pixels()], &times, "13.000").expect("has clips");
    assert_eq!(plan.video_order, [0, 2]);
    assert_eq!(plan.audio_order, [0]);
    assert_eq!(plan.a1.len(), 1);
    assert_eq!(plan.canvas, None);
    let overlay = plan.overlay.expect("a title");
    assert!(overlay.starts_with("color=s=1920x1080:c=black@0.0:d=13.000,drawtext="), "{overlay}");
    assert_eq!(timeline_end(&s.video_clips), secs(13));
    assert_eq!(export_frame_rate(&s.video_clips), d(30.0));
    assert_eq!(export_frame_rate(&Vec::new()), d(30.0));
}

#[test]
fn titles_become_a_filter_graph() {
    let times = vec![TitleTimes { start: "1.000".to_string(), end: "3.000".to_string() }];
    let graph = build_lavfi_overlay_filter(
        &vec![title("It's a \\ b", 1, 2)],
        &times,
        1920,
        1080,
        "10.000",
    );
    assert_eq!(
        graph.as_deref(),
        Some(
            "color=s=1920x1080:c=black@0.0:d=10.000,\
             drawtext=text='It'\\''s a \\\\ b':fontsize=48:fontcolor=#ff8000\
             :x=(w-text_w)/2:y=h-text_h-10:enable='between(t,1.000,3.000)'"
        )
    );
    assert!(build_lavfi_overlay_filter(&vec![title("", 1, 2)], &times, 1, 1, "1.000").is_none());
    assert!(build_lavfi_overlay_filter(&Vec::new(), &Vec::new(), 1, 1, "1.000").is_none());
}

fn media(path: &str, seconds: u64) -> ImportedClip {
    let video = Some((1280, 720));
    ImportedClip::new(path.to_string(), secs(seconds), Some(d(25.0)), video, true)
}

fn tc(source: usize, start: u64, from: u64, to: u64) -> TimelineClip {
    TimelineClip::new(source, secs(start), Some(secs(from)), Some(secs(to)))
}

#[test]
fn store_load_round_trips_and_overrides_structural_from_first_class() {
    let mut c = TimelineClip::new(3, secs(2), Some(secs(1)), Some(secs(5)));
    c.transition = Some(XfadeTransition::Dissolve);
    c.transition_duration = millis(500);
    c.speed = f(1.5);
    c.blend_mode = BlendMode::Multiply;
    c.wb_temperature = 5000;
    c.vignette = f(0.4);
    c.mask = Arc::new(Mask { shape: MaskShape::Rectangle, ..Mask::default() });
    let mut clip = Clip::new("x.mp4");
    clip.offset = secs(9);
    clip.in_point = Some(secs(1));
    clip.out_point = Some(secs(4));
    store_demo_clip(&mut clip, "kept text".to_string());
    assert_eq!(demo_clip_text(&clip).as_deref(), Some("kept text"));
    let back = load_demo_clip(&clip, c.clone());
    c.start_on_track = secs(9);
    c.in_point = Some(secs(1));
    c.out_point = Some(secs(4));
    assert!(back.same_as(&c));
}

#[test]
fn stored_text_replaces_an_older_one() {
    let mut clip = Clip::new("x.mp4");
    assert!(demo_clip_text(&clip).is_none());
    clip.metadata.push(("title".to_string(), "kept".to_string()));
    store_demo_clip(&mut clip, "first".to_string());
    store_demo_clip(&mut clip, "second".to_string());
    assert_eq!(demo_clip_text(&clip).as_deref(), Some("second"));
    assert_eq!(clip.metadata.len(), 2);
    assert_eq!(clip.metadata[0].1, "kept");
    assert_eq!(clip.metadata[1].0, DEMO_CLIP_KEY);
}

#[test]
fn bridge_carries_every_track_with_its_switches() {
    let mut timeline = TimelineState::default();
    timeline.add_clip(0, tc(0, 4, 1, 3));
    timeline.add_clip(0, tc(7, 8, 0, 1));
    timeline.apply(Edit::ToggleMute { track: 0 });
    timeline.apply(Edit::ToggleSolo { track: 2 });
    let pool = vec![media("a.mp4", 20)];
    let px = vec![vec![pixels(), pixels()], Vec::new(), Vec::new()];
    let texts = vec![vec!["one".to_string(), "two".to_string()], Vec::new(), Vec::new()];
    let out = to_avio(&timeline, &pool, None, false, &px, &texts);
    assert_eq!(out.len(), 3);
    assert_eq!((out[0].kind, out[0].muted, out[0].soloed), (TrackKind::Video, true, false));
    assert_eq!((out[2].kind, out[2].muted, out[2].soloed), (TrackKind::Audio, false, true));
    assert_eq!(out[0].clips.len(), 1);
    assert_eq!(out[0].clips[0].source, "a.mp4");
    assert_eq!(out[0].clips[0].offset, secs(4));
    assert_eq!(demo_clip_text(&out[0].clips[0]).as_deref(), Some("one"));
}

#[test]
fn snapshot_leaves_out_what_is_not_heard_or_seen() {
    let mut state = AppState::default();
    state.clips.push(media("a.mp4", 20));
    state.clips[0].proxy_path = Some("a_proxy.mp4".to_string());
    state.timeline.add_clip(0, tc(0, 0, 0, 5));
    state.timeline.add_clip(1, tc(0, 1, 0, 5));
    state.timeline.add_clip(2, tc(0, 2, 0, 5));
    state.timeline.apply(Edit::ToggleMute { track: 1 });
    state.export.project_aspect = AspectPreset::Vertical9x16;
    state.playback.export_in = Some(secs(1));
    state.playback.export_out = Some(secs(2));
    let s = export_snapshot(&state);
    assert_eq!(s.video_clips.len(), 2);
    assert_eq!(s.video_clips[0].len(), 1);
    assert_eq!(s.video_clips[1].len(), 0);
    assert_eq!(s.a1_clips.len(), 1);
    assert_eq!(s.video_clips[0][0].path, "a.mp4");
    assert_eq!(s.video_clips[0][0].proxy_path, None);
    assert_eq!((s.video_clips[0][0].width, s.video_clips[0][0].height), (1280, 720));
    assert_eq!(s.canvas, Some((1080, 1920)));
    assert_eq!((s.export_in, s.export_out), (None, None));

    state.export.use_proxies = true;
    state.export.range_enabled = true;
    let s = export_snapshot(&state);
    assert_eq!(s.video_clips[0][0].proxy_path.as_deref(), Some("a_proxy.mp4"));
    assert_eq!((s.export_in, s.export_out), (Some(secs(1)), Some(secs(2))));

    queue_export(&mut state, "out.mp4".to_string());
    assert_eq!(state.export.queue.len(), 1);
    assert_eq!(state.export.queue[0].output_path, "out.mp4");
    assert!(state.export.use_proxies && state.undo_stack.is_empty());
}

#[test]
fn clip_of_an_unknown_source_is_not_exported() {
    let pool = vec![media("a.mp4", 20)];
    assert!(timeline_clip_to_export_clip(&tc(1, 0, 0, 5), &pool, false).is_none());
    let e = timeline_clip_to_export_clip(&tc(0, 4, 1, 5), &pool, false).expect("known");
    assert_eq!((e.start_on_track, e.in_point, e.out_point), (secs(4), Some(secs(1)), Some(secs(5))));
    assert_eq!((e.fps, e.has_audio, e.source_duration), (d(25.0), true, secs(20)));
}

#[test]
fn reverse_reaches_the_exported_sound() {
    let out = clips_to_avio(&vec![loaded_export_clip()], None, &vec![pixels()]).remove(0);
    assert!(matches!(out.audio_effects[0], FilterStep::AReverse));
    assert_eq!(out.audio_effects.len(), 1);
}
