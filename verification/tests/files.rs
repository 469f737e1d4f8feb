//! Saved projects and presets, look-up tables, the export queue and names.

use avio_editor::app_state::AppState;
use avio_editor::float::{F32, F64};
use avio_editor::imported::ImportedClip;
use avio_editor::lut::{read_cube, Lut3d, LutError};
use avio_editor::media::{
    blend_mode_from_str, blend_mode_label, blend_mode_to_str, xfade_from_str, AudioCodec,
    BlendMode, VideoCodec, XfadeTransition,
};
use avio_editor::overlay::{
    build_force_style, default_overlay_margin, default_overlay_opacity, default_overlay_scale,
    subtitle_format, Col, OverlayPosition, Row, Subtitle, SubtitleFormat, SubtitlePosition,
};
use avio_editor::presets::{EncoderConfigDraft, PresetFile};
use avio_editor::project::{
    default_gamma, default_wb_temperature, halign_from_str, halign_to_str, load_project,
    project_to_timeline_clip, save_project, timeline_clip_to_project, valign_from_str,
    valign_to_str, OpenedMedia, PROJECT_VERSION,
};
use avio_editor::queue::{
    advance, render_outcome, QueueJob, QueueJobStatus, QueueStep, RenderOutcome,
};
use avio_editor::snapshot::export_snapshot;
use avio_editor::state::{AspectPreset, HAlign, TitleClip, VAlign};
use avio_editor::time::Duration;
use avio_editor::timeline_clip::TimelineClip;

fn f(v: f32) -> F32 {
    F32 { bits: v.to_bits() }
}

fn d(v: f64) -> F64 {
    F64 { bits: v.to_bits() }
}

fn secs(s: u64) -> Duration {
    Duration::from_secs(s)
}

fn media(path: &str) -> ImportedClip {
    ImportedClip::new(path.to_string(), secs(20), Some(d(25.0)), Some((1280, 720)), true)
}

fn opened() -> Result<OpenedMedia, String> {
    Ok(OpenedMedia {
        duration: secs(20),
        frame_rate: Some(d(25.0)),
        video: Some((1280, 720)),
        has_audio: true,
    })
}

#[test]
fn preset_stores_engine_codec_names() {
    let p = PresetFile::from_draft(&EncoderConfigDraft::default());
    assert_eq!((p.video_codec.as_str(), p.audio_codec.as_str(), p.crf), ("h264", "aac", 23));
    let p = PresetFile::from_draft(&EncoderConfigDraft {
        video_codec: VideoCodec::H265,
        audio_codec: AudioCodec::Opus,
        crf: 30,
    });
    assert_eq!((p.video_codec.as_str(), p.audio_codec.as_str(), p.crf), ("hevc", "opus", 30));
}

#[test]
fn preset_comes_back_as_it_was_saved() {
    let video = [
        VideoCodec::H264,
        VideoCodec::H265,
        VideoCodec::Vp9,
        VideoCodec::Av1,
        VideoCodec::ProRes,
    ];
    let audio = [
        AudioCodec::Pcm,
        AudioCodec::Aac,
        AudioCodec::Opus,
        AudioCodec::Mp3,
        AudioCodec::Flac,
    ];
    for (video_codec, audio_codec) in video.into_iter().zip(audio) {
        let draft = EncoderConfigDraft { video_codec, audio_codec, crf: 18 };
        assert_eq!(PresetFile::from_draft(&draft).to_draft(), draft);
    }
    let unknown = PresetFile {
        video_codec: "betamax".to_string(),
        audio_codec: "tape".to_string(),
        crf: 7,
    };
    assert_eq!(unknown.to_draft(), EncoderConfigDraft { crf: 7, ..EncoderConfigDraft::default() });
}

#[test]
fn codec_names_are_the_engine_ones() {
    assert_eq!(VideoCodec::ProRes.name(), "prores");
    assert_eq!(VideoCodec::Mpeg4.name(), "mpeg4");
    assert_eq!(AudioCodec::Vorbis.name(), "vorbis");
    assert_eq!(AudioCodec::Eac3.name(), "eac3");
}

#[test]
fn names_of_transitions_and_blend_modes() {
    assert_eq!(XfadeTransition::WipeLeft.as_str(), "wipeleft");
    assert_eq!(xfade_from_str("dissolve"), Some(XfadeTransition::Dissolve));
    assert_eq!(xfade_from_str("spin"), None);
    for mode in [BlendMode::Normal, BlendMode::Multiply, BlendMode::Screen, BlendMode::Overlay] {
        assert_eq!(blend_mode_from_str(blend_mode_to_str(mode)), mode);
    }
    assert_eq!(blend_mode_from_str("nonsense"), BlendMode::Normal);
    assert_eq!(blend_mode_label(BlendMode::Multiply), "Multiply");
}

#[test]
fn names_of_alignments() {
    for h in [HAlign::Left, HAlign::Centre, HAlign::Right] {
        assert_eq!(halign_from_str(halign_to_str(h)), h);
    }
    for v in [VAlign::Top, VAlign::Middle, VAlign::Bottom] {
        assert_eq!(valign_from_str(valign_to_str(v)), v);
    }
    assert_eq!(halign_from_str("elsewhere"), HAlign::Centre);
    assert_eq!(valign_from_str("elsewhere"), VAlign::Middle);
    assert_eq!(default_wb_temperature(), 6500);
    assert_eq!(default_gamma(), f(1.0));
}

#[test]
fn aspect_presets() {
    assert_eq!(AspectPreset::Original.dims(), None);
    assert_eq!(AspectPreset::Widescreen16x9.dims(), Some((1920, 1080)));
    assert_eq!(AspectPreset::Vertical9x16.dims(), Some((1080, 1920)));
    assert_eq!(AspectPreset::Square1x1.dims(), Some((1080, 1080)));
    assert_eq!(AspectPreset::Portrait4x5.dims(), Some((1080, 1350)));
    assert!(AspectPreset::Vertical9x16.label().contains("9:16"));
}

#[test]
fn overlay_anchors_and_defaults() {
    assert_eq!(OverlayPosition::TopLeft.col_row(), (Col::Left, Row::Top));
    assert_eq!(OverlayPosition::MiddleRight.col_row(), (Col::Right, Row::Middle));
    assert_eq!(OverlayPosition::BottomCentre.col_row(), (Col::Centre, Row::Bottom));
    assert_eq!(default_overlay_margin(), 20);
    assert_eq!(default_overlay_opacity(), f(1.0));
    assert_eq!(default_overlay_scale(), f(100.0));
    assert_ne!(OverlayPosition::TopLeft.label(), OverlayPosition::TopRight.label());
}

#[test]
fn subtitle_style_and_format() {
    let sub = Subtitle {
        path: None,
        format: SubtitleFormat::Srt,
        font_size: 24,
        colour: [0x12, 0x34, 0xAB],
        position: SubtitlePosition::Middle,
    };
    assert_eq!(build_force_style(&sub), "Fontsize=24,PrimaryColour=&H00AB3412&,Alignment=5");
    assert_eq!(SubtitlePosition::Bottom.ass_alignment(), 2);
    assert_eq!(subtitle_format("ass"), SubtitleFormat::Ass);
    assert_eq!(subtitle_format("ssa"), SubtitleFormat::Ass);
    assert_eq!(subtitle_format("srt"), SubtitleFormat::Srt);
}

fn project_state() -> AppState {
    let mut state = AppState::default();
    state.clips.push(media("a.mp4"));
    state.clips.push(media("b.mp4"));
    state.clips[1].in_point = Some(secs(1));
    let mut c = TimelineClip::new(1, secs(3), Some(secs(1)), Some(secs(4)));
    c.transition = Some(XfadeTransition::Fade);
    c.transition_duration = Duration::from_millis(500);
    c.blend_mode = BlendMode::Screen;
    c.gain_db = f(-3.0);
    c.lut_path = Some("look.cube".to_string());
    state.timeline.add_clip(1, c);
    state.timeline.add_clip(2, TimelineClip::new(0, secs(0), None, None));
    state.timeline.title_clips.push(TitleClip {
        start_on_track: secs(2),
        duration: secs(3),
        text: "Hello".to_string(),
        font_size: 32,
        color: [1, 2, 3, 4],
        h_align: HAlign::Right,
        v_align: VAlign::Top,
    });
    state.playback.export_in = Some(secs(1));
    state.playback.timeline_loop_enabled = true;
    state.export.encoder_config.crf = 17;
    state
}

#[test]
fn project_round_trips() {
    let state = project_state();
    let file = save_project(&state);
    assert_eq!(file.version, PROJECT_VERSION);
    assert_eq!((file.clips.len(), file.video_tracks.len(), file.audio_clips.len()), (2, 2, 1));
    assert_eq!(file.video_tracks[1][0].source_path, "b.mp4");
    assert_eq!(file.video_tracks[1][0].transition.as_deref(), Some("fade"));
    let (back, warnings) = load_project(&file, &vec![opened(), opened()]);
    assert!(warnings.is_empty(), "{warnings:?}");
    assert_eq!(back.clips.len(), 2);
    assert_eq!(back.clips[1].in_point, Some(secs(1)));
    assert_eq!(back.timeline.tracks.len(), 3);
    for t in 0..3 {
        let (was, now) = (&state.timeline.tracks[t].clips, &back.timeline.tracks[t].clips);
        assert_eq!(was.len(), now.len());
        for (a, b) in was.iter().zip(now) {
            assert!(a.same_as(b));
        }
    }
    assert!(back.timeline.title_clips[0].same_as(&state.timeline.title_clips[0]));
    assert_eq!(back.playback.export_in, Some(secs(1)));
    assert!(back.playback.timeline_loop_enabled);
    assert_eq!(back.export.encoder_config, state.export.encoder_config);
    assert_eq!(back.export.project_aspect, AspectPreset::Original);
    assert!(!back.export.use_proxies && !back.export.show_settings);
}

#[test]
fn missing_media_is_reported_and_skipped() {
    let file = save_project(&project_state());
    let (back, warnings) = load_project(&file, &vec![opened(), Err("not found".to_string())]);
    assert_eq!(back.clips.len(), 1);
    assert_eq!(back.clips[0].path, "a.mp4");
    assert!(back.timeline.tracks[1].clips.is_empty());
    assert_eq!(back.timeline.tracks[2].clips.len(), 1);
    assert!(warnings.iter().any(|w| w.contains("b.mp4")), "{warnings:?}");
}

#[test]
fn clip_of_an_unknown_source_is_saved_without_a_path() {
    let clips = vec![media("a.mp4")];
    let saved = timeline_clip_to_project(&TimelineClip::new(5, secs(0), None, None), &clips);
    assert_eq!(saved.source_path, "");
    let mut warnings = Vec::new();
    assert!(project_to_timeline_clip(&saved, &clips, &mut warnings).is_none());
    assert_eq!(warnings.len(), 1);
    let saved = timeline_clip_to_project(&TimelineClip::new(0, secs(4), None, None), &clips);
    let back = project_to_timeline_clip(&saved, &clips, &mut warnings).expect("known");
    assert_eq!((back.source_index, back.start_on_track), (0, secs(4)));
    assert_eq!(warnings.len(), 1);
}

fn chars(text: &str) -> Vec<char> {
    text.chars().collect()
}

#[test]
fn cube_text_is_read() {
    let text = "# look\nTITLE \"x\"\nLUT_1D_SIZE 16\nLUT_3D_SIZE 2\nDOMAIN_MIN 0 0 0\n\n\
                0 0 0\n1 0 0\n0 1 0\n1 1 0\n0 0 1\n1 0 1\n0 1 1\n1 1 1\n";
    let cube = read_cube(&chars(text)).expect("valid");
    assert_eq!((cube.size, cube.rows.len()), (2, 8));
    assert_eq!(cube.rows[1].r, ['1']);
    assert_eq!(cube.rows[1].b, ['0']);
    let data: Vec<[F32; 3]> = (0..8).map(|i| [f(i as f32), f(0.0), f(0.0)]).collect();
    let lut = Lut3d::new(cube.size, data).expect("eight rows");
    assert_eq!(lut.size(), 2);
    assert_eq!(lut.at(1, 0, 0)[0], f(1.0));
    assert_eq!(lut.at(0, 1, 0)[0], f(2.0));
    assert_eq!(lut.at(0, 0, 1)[0], f(4.0));
}

#[test]
fn bad_cube_text_is_refused() {
    assert_eq!(read_cube(&chars("LUT_3D_SIZE x\n")).err(), Some(LutError::BadSize));
    let flat = read_cube(&chars("LUT_1D_SIZE 4\n0 0 0\n")).expect("the line is skipped");
    assert_eq!((flat.size, flat.rows.len()), (0, 1));
    assert_eq!(Lut3d::new(flat.size, vec![[f(0.0); 3]]).err(), Some(LutError::NoSize));
    let empty = read_cube(&chars("")).expect("no text is no error yet");
    assert_eq!((empty.size, empty.rows.len()), (0, 0));
    assert_eq!(Lut3d::new(empty.size, Vec::new()).err(), Some(LutError::NoSize));
    assert_eq!(Lut3d::new(1, vec![[f(0.0); 3]]).err(), Some(LutError::NoSize));
    let rows = LutError::RowCount { found: 1, size: 2, expected: 8 };
    assert_eq!(Lut3d::new(2, vec![[f(0.0); 3]]).err(), Some(rows));
    assert_eq!(
        rows.message(),
        "LUT entry count 1 does not match LUT_3D_SIZE 2 (expected 8)"
    );
    assert_eq!(LutError::BadSize.message(), "invalid LUT_3D_SIZE");
    assert_eq!(LutError::NoSize.message(), "missing or too-small LUT_3D_SIZE");
}

#[test]
fn queue_renders_one_job_after_the_other() {
    let state = AppState::default();
    let job = |name: &str| QueueJob::new(export_snapshot(&state), name.to_string());
    let mut queue = vec![job("one.mp4"), job("two.mp4")];
    assert_eq!(advance(&queue), QueueStep::Start(0));
    assert!(queue[0].start().is_some());
    assert!(matches!(queue[0].status, QueueJobStatus::Running));
    assert!(!queue[0].removable());
    assert_eq!(advance(&queue), QueueStep::Wait);
    assert!(!queue[0].finish(render_outcome(None, false)));
    assert!(matches!(&queue[0].status, QueueJobStatus::Done(p) if p == "one.mp4"));
    assert_eq!(advance(&queue), QueueStep::Start(1));
    assert!(queue[1].start().is_some());
    assert!(queue[1].start().is_none());
    assert!(queue[1].finish(render_outcome(Some("cancelled".to_string()), true)));
    assert!(matches!(queue[1].status, QueueJobStatus::Cancelled));
    assert_eq!(advance(&queue), QueueStep::Finish);
}

#[test]
fn failed_job_keeps_its_message() {
    let mut job = QueueJob::new(export_snapshot(&AppState::default()), "out.mp4".to_string());
    assert!(job.removable());
    job.start();
    let outcome = render_outcome(Some("disk full".to_string()), false);
    assert!(matches!(&outcome, RenderOutcome::Failed(m) if m == "disk full"));
    job.finish(outcome);
    assert!(matches!(&job.status, QueueJobStatus::Failed(m) if m == "disk full"));
    assert!(job.removable());
}
