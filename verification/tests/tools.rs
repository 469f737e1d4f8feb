//! Snapping, trimming, curves, the inspector and the preview.

use avio_editor::app_state::AppState;
use avio_editor::clip_effects::{ClipParams, PARAMS_KEY};
use avio_editor::curves::{
    add_point, channel_vec, curve_points, move_point, remove_point, set_channel,
};
use avio_editor::float::{F32, F64};
use avio_editor::imported::ImportedClip;
use avio_editor::inspector::{clip_local, panels, Animated, KeyEdit};
use avio_editor::key_marks::key_marks;
use avio_editor::keyframes::{keytrack_on_timeline, ClipAnimation, KeyEasing, KeyTrack};
use avio_editor::metadata::{note, put_note};
use avio_editor::overlay::SubtitleFormat;
use avio_editor::preview::{
    active_clip_grade, length_shown, needs_rebuild, pixel_layout, strip_stride, PixelLayout,
    SpriteSheetData,
};
use avio_editor::snap::{
    other_spans, snap_clip_start, snap_trim_edge, trim_left, trim_right, trim_title_left,
    trim_title_right, Span,
};
use avio_editor::state::{
    CurveChannel, FitMode, ToneCurves, Transform, VideoEffects, WB_NEUTRAL_TEMP,
};
use avio_editor::text::{
    decimal_text, hex_text, padded_text, replace, same_text, upper_hex_text,
};
use avio_editor::time::Duration;
use avio_editor::timeline_clip::TimelineClip;

fn f(v: f32) -> F32 {
    F32 { bits: v.to_bits() }
}

fn d(v: f64) -> F64 {
    F64 { bits: v.to_bits() }
}

fn secs(s: u64) -> Duration {
    Duration::from_secs(s)
}

fn millis(ms: u64) -> Duration {
    Duration::from_millis(ms)
}

fn media() -> ImportedClip {
    ImportedClip::new("a.mp4".to_string(), secs(20), Some(d(25.0)), Some((1280, 720)), true)
}

fn span(from: u64, to: u64) -> Span {
    Span { start: secs(from), end: secs(to) }
}

#[test]
fn durations() {
    assert_eq!(secs(2).saturating_sub(secs(5)), Duration::zero());
    assert_eq!(secs(2).plus(millis(250)).nanos, 2_250_000_000);
    assert_eq!(millis(2250).as_secs(), 2);
    assert_eq!(millis(2250).subsec_millis(), 250);
    assert_eq!(secs(2).min(secs(5)), secs(2));
    assert_eq!(secs(2).max(secs(5)), secs(5));
    assert_eq!(secs(2).abs_diff(secs(5)), secs(3));
}

#[test]
fn length_label_of_an_import() {
    let mut c = media();
    c.duration = millis(83_045);
    assert_eq!(c.duration_label(), "1:23.045");
    c.duration = Duration::zero();
    assert_eq!(c.duration_label(), "0:00.000");
}

#[test]
fn texts() {
    assert_eq!(decimal_text(0), "0");
    assert_eq!(decimal_text(1204), "1204");
    assert_eq!(padded_text(7, 3), "007");
    assert_eq!(padded_text(1234, 3), "1234");
    assert_eq!(hex_text(0x0b), "0b");
    assert_eq!(upper_hex_text(0xfe), "FE");
    assert_eq!(replace("a'b'", '\'', "--"), "a--b--");
    assert!(same_text("abc", "abc") && !same_text("abc", "abd") && !same_text("ab", "abc"));
}

#[test]
fn floats_compare_as_numbers() {
    assert!(f(0.0).equals(f(-0.0)));
    assert!(!f(f32::NAN).equals(f(f32::NAN)));
    assert!(f(-1.0).less(f(0.5)) && f(-2.0).less(f(-1.0)) && !f(f32::NAN).less(f(0.0)));
    assert!(f(-0.0).is_zero() && f(1.0).is_one() && f(0.1).is_positive());
    assert!(!f(0.0).is_positive() && !f(f32::NAN).is_positive());
    assert_eq!(f(5.0).clamp(f(-1.0), f(1.0)), f(1.0));
    assert_eq!(f(-5.0).unit(), f(0.0));
    assert!(f(f32::NAN).unit().is_nan());
    assert_eq!(d(1.5).unit(), d(1.0));
    assert_eq!(d(0.01).at_least(d(0.1)), d(0.1));
    assert!(d(0.5).less(d(1.0)) && d(2.0).equals(d(2.0)));
}

#[test]
fn clip_snaps_to_the_nearest_edge() {
    let others = vec![span(0, 4), span(10, 12)];
    assert_eq!(snap_clip_start(millis(4200), secs(2), &others, millis(500)), secs(4));
    assert_eq!(snap_clip_start(millis(7700), secs(2), &others, millis(500)), secs(8));
    assert_eq!(snap_clip_start(secs(6), secs(2), &others, millis(500)), secs(6));
}

#[test]
fn clip_is_pushed_off_its_neighbour() {
    let others = vec![span(4, 8)];
    assert_eq!(snap_clip_start(secs(7), secs(2), &others, millis(0)), secs(8));
    assert_eq!(snap_clip_start(secs(3), secs(2), &others, millis(0)), secs(2));
}

#[test]
fn clip_without_room_before_its_neighbour_goes_behind_it() {
    let others = vec![Span { start: millis(500), end: secs(2) }];
    assert_eq!(snap_clip_start(millis(600), secs(1), &others, millis(0)), secs(2));
    let others = vec![span(1, 5)];
    assert_eq!(snap_clip_start(millis(0), secs(3), &others, millis(0)), secs(5));
}

#[test]
fn clip_is_pushed_past_gaps_that_are_too_short() {
    let others = vec![span(10, 14), span(15, 20), span(6, 9)];
    // The gaps from 9 to 10 and from 14 to 15 hold no clip of two seconds.
    assert_eq!(snap_clip_start(secs(13), secs(2), &others, millis(0)), secs(20));
    assert_eq!(snap_clip_start(secs(11), secs(2), &others, millis(0)), secs(4));
    // Of two free places that are equally near, the earlier is taken.
    assert_eq!(snap_clip_start(secs(12), secs(2), &others, millis(0)), secs(4));
    // An overlap of one millisecond is no overlap.
    assert_eq!(snap_clip_start(millis(4001), secs(2), &others, millis(0)), millis(4001));
    assert_eq!(snap_clip_start(millis(4002), secs(2), &others, millis(0)), secs(4));
}

#[test]
fn other_spans_leave_out_the_dragged_clip() {
    let clips = vec![
        TimelineClip::new(0, secs(0), None, Some(secs(4))),
        TimelineClip::new(0, secs(6), None, Some(secs(2))),
        TimelineClip::new(9, secs(9), None, None),
    ];
    let lengths = vec![secs(4), secs(2), secs(1)];
    assert_eq!(other_spans(&clips, &lengths, 1, Some(0)), [span(6, 8)]);
    assert_eq!(other_spans(&clips, &lengths, 1, None), [span(0, 4), span(6, 8)]);
}

#[test]
fn trim_edge_snaps() {
    let others = vec![span(0, 4), span(10, 12)];
    assert_eq!(snap_trim_edge(millis(9800), &others, millis(300)), secs(10));
    assert_eq!(snap_trim_edge(millis(9600), &others, millis(300)), millis(9600));
}

#[test]
fn trims_keep_at_least_a_frame() {
    let frame = millis(40);
    assert_eq!(trim_right(secs(2), secs(1), secs(20), frame, secs(6)), secs(5));
    assert_eq!(trim_right(secs(2), secs(1), secs(20), frame, secs(1)), millis(1040));
    assert_eq!(trim_right(secs(2), secs(1), secs(20), frame, secs(90)), secs(20));
    assert_eq!(trim_left(secs(2), secs(1), secs(5), frame, secs(4)), (secs(3), secs(4)));
    assert_eq!(trim_left(secs(2), secs(1), secs(5), frame, secs(0)), (secs(0), secs(1)));
    assert_eq!(trim_left(secs(2), secs(1), secs(5), frame, secs(90)).0, millis(5960));
}

#[test]
fn trimmed_titles_stay_visible() {
    assert_eq!(trim_title_right(secs(2), secs(6)), secs(4));
    assert_eq!(trim_title_right(secs(2), secs(1)), millis(100));
    assert_eq!(trim_title_left(secs(2), secs(4), secs(4), secs(3)), (secs(3), secs(3)));
    assert_eq!(trim_title_left(secs(2), secs(4), secs(4), secs(90)), (millis(5900), millis(100)));
}

#[test]
fn curves_start_as_the_diagonal() {
    let mut curves = ToneCurves::default();
    assert!(curves.is_neutral());
    let line = vec![(f(0.0), f(0.0)), (f(1.0), f(1.0))];
    assert_eq!(curve_points(&curves, CurveChannel::Luma), line);
    set_channel(&mut curves, CurveChannel::G, add_point(line, f(0.5), f(0.7)));
    assert_eq!(channel_vec(&curves, CurveChannel::G)[1], (f(0.5), f(0.7)));
    assert!(channel_vec(&curves, CurveChannel::R).is_empty());
    assert!(!curves.is_neutral());
}

#[test]
fn curve_points_keep_their_order() {
    let mut points = vec![(f(0.0), f(0.0)), (f(0.5), f(0.5)), (f(1.0), f(1.0))];
    move_point(&mut points, 1, f(0.3), f(0.9));
    assert_eq!(points[1], (f(0.3), f(0.9)));
    assert!(points.windows(2).all(|w| f32::from_bits(w[0].0.bits) <= f32::from_bits(w[1].0.bits)));
    assert!(remove_point(&mut points, 1));
    assert_eq!(points.len(), 2);
    assert!(!remove_point(&mut points, 0));
    assert!(!remove_point(&mut points, 7));
}

#[test]
fn keys_stay_sorted_and_unique() {
    let mut track = KeyTrack::default();
    track.insert(secs(2), d(1.0), KeyEasing::Linear);
    track.insert(secs(1), d(0.5), KeyEasing::Hold);
    track.insert(secs(2), d(0.2), KeyEasing::EaseIn);
    assert_eq!(track.keys.len(), 2);
    assert_eq!((track.keys[0].at, track.keys[1].value), (secs(1), d(0.2)));
    let moved = keytrack_on_timeline(&track, secs(10), true);
    assert_eq!((moved[0].at, moved[1].at), (secs(11), secs(12)));
    track.remove(0);
    track.remove(9);
    assert_eq!(track.keys.len(), 1);
    assert!(track.is_active());
}

#[test]
fn key_edits_of_a_clip() {
    let mut c = TimelineClip::new(0, secs(0), None, None);
    c.edit_animation(Animated::Opacity, KeyEdit::Place { at: secs(2), value: d(0.5) });
    c.edit_animation(Animated::Opacity, KeyEdit::Place { at: secs(1), value: d(1.0) });
    c.edit_animation(Animated::Opacity, KeyEdit::Ease { index: 0, easing: KeyEasing::Hold });
    c.edit_animation(Animated::Opacity, KeyEdit::Change { index: 1, value: d(0.25) });
    c.edit_animation(Animated::Scale, KeyEdit::Place { at: secs(0), value: d(80.0) });
    let keys = &c.animation.opacity.keys;
    assert_eq!((keys[0].at, keys[0].easing), (secs(1), KeyEasing::Hold));
    assert_eq!(keys[1].value, d(0.25));
    assert_eq!(c.animation.scale.keys.len(), 1);
    c.edit_animation(Animated::Opacity, KeyEdit::Delete { index: 0 });
    assert_eq!(c.animation.opacity.keys.len(), 1);
    c.edit_animation(Animated::Opacity, KeyEdit::Clear);
    assert!(!c.animation.opacity.is_active());
    assert!(c.animation.is_active());
}

#[test]
fn inspector_switches() {
    let mut c = TimelineClip::new(0, secs(0), None, None);
    assert!(c.tone_off() && c.balance_off() && c.hue_off() && c.vignette_off());
    c.brightness = f(0.3);
    c.wb_tint = f(0.1);
    c.hue_degrees = f(9.0);
    c.vignette = f(20.0);
    assert!(!c.tone_off() && !c.balance_off() && !c.hue_off() && !c.vignette_off());
    c.reset_tone();
    c.reset_balance();
    c.reset_hue();
    c.reset_vignette();
    assert!(c.tone_off() && c.balance_off() && c.hue_off() && c.vignette_off());
    assert_eq!(c.wb_temperature, WB_NEUTRAL_TEMP);
    c.transform.flip_h = true;
    c.transform.fit_mode = FitMode::Fit;
    c.video_effects.blur = f(2.0);
    c.reset_transform();
    c.reset_effects();
    assert_eq!(c.transform, Transform::default());
    assert_eq!(c.transform.fit_mode, FitMode::Fill);
    assert_eq!(c.video_effects, VideoEffects::default());
    c.set_speed(f(9.0));
    c.set_opacity(f(-1.0));
    assert_eq!((c.speed, c.opacity), (f(4.0), f(0.0)));
    c.set_freeze(true, d(2.0));
    assert_eq!(c.freeze.map(|z| z.at_secs), Some(d(2.0)));
    c.change_freeze(d(3.0), d(0.5));
    assert_eq!(c.freeze.map(|z| (z.at_secs, z.hold_secs)), Some((d(3.0), d(0.5))));
    c.set_freeze(false, d(2.0));
    assert!(c.freeze.is_none());
    c.set_subtitle("ep1.ass".to_string(), "ass");
    assert_eq!(c.subtitle.format, SubtitleFormat::Ass);
    assert_eq!(clip_local(secs(5), secs(3)), secs(2));
    assert_eq!(clip_local(secs(1), secs(3)), secs(0));
}

#[test]
fn inspector_panels_go_by_the_track() {
    let bottom = panels(0, 2, true);
    let upper = panels(1, 2, true);
    let sound = panels(2, 2, true);
    assert!(bottom.clip && !bottom.overlay);
    assert!(upper.clip && upper.overlay);
    assert!(!sound.clip && !sound.overlay && !sound.volume);
    assert!(upper.volume && !panels(1, 2, false).volume);
}

#[test]
fn frames_are_told_apart_by_their_size() {
    assert_eq!(pixel_layout(4 * 6, 3, 2), Some(PixelLayout::Rgba));
    assert_eq!(pixel_layout(3 * 6, 3, 2), Some(PixelLayout::Rgb));
    assert_eq!(pixel_layout(7, 3, 2), None);
    let plane = vec![1, 2, 3, 9, 4, 5, 6, 9];
    assert_eq!(strip_stride(&plane, 4, 1, 2), [1, 2, 3, 4, 5, 6]);
}

#[test]
fn sprite_cells_go_row_by_row() {
    let sheet = SpriteSheetData {
        columns: 3,
        rows: 2,
        frame_count: 6,
        clip_duration: secs(6),
    };
    assert_eq!(sheet.cell(0), (0, 0));
    assert_eq!(sheet.cell(4), (1, 1));
}

#[test]
fn preview_follows_the_clip_under_the_playhead() {
    let mut state = AppState::default();
    state.clips.push(media());
    assert!(active_clip_grade(&state, secs(1), 640, 360).is_none());
    let mut c = TimelineClip::new(0, secs(2), Some(secs(0)), Some(secs(4)));
    c.brightness = f(0.2);
    assert_eq!(length_shown(&c, &state.clips), secs(4));
    state.timeline.add_clip(0, c);
    assert!(active_clip_grade(&state, secs(1), 640, 360).is_none());
    let (sig, clip) = active_clip_grade(&state, secs(3), 640, 360).expect("a clip is there");
    assert_eq!((clip.source, clip.brightness), (state.clips[0].path.clone(), f(0.2)));
    assert_eq!((clip.volume_db, clip.x, clip.y), (f(0.0), f(0.0), f(0.0)));
    assert!(clip.in_point.is_none() && clip.out_point.is_none() && clip.metadata.is_empty());
    assert_eq!((sig.brightness, sig.width), (f(0.2), 640));
    assert!(needs_rebuild(&None, &sig));
    let (same, _) = active_clip_grade(&state, secs(4), 640, 360).expect("a clip is there");
    assert!(sig.same_as(&same));
    assert!(!needs_rebuild(&Some(sig), &same));
}

#[test]
fn notes_keep_the_written_block() {
    let notes = ClipParams::to_metadata(Some("{\"speed\":2}".to_string()));
    assert_eq!(notes.len(), 1);
    assert_eq!(notes[0].0, PARAMS_KEY);
    assert_eq!(ClipParams::from_metadata(&notes), Some("{\"speed\":2}".to_string()));
    assert!(ClipParams::to_metadata(None).is_empty());
    assert_eq!(ClipParams::from_metadata(&Vec::new()), None);
}

#[test]
fn default_params_change_nothing() {
    let p = ClipParams::default();
    assert_eq!((p.overlay.margin, p.overlay.scale), (20, f(100.0)));
    assert_eq!((p.subtitle.font_size, p.subtitle.colour), (24, [255, 255, 255]));
    assert_eq!((p.keying.color, p.keying.similarity), ([0, 255, 0], f(0.3)));
    assert_eq!((p.mask.rect_w, p.mask.luma_threshold), (f(100.0), f(0.5)));
    assert_eq!(p.transform.fit_mode, FitMode::Fill);
}

#[test]
fn a_note_replaces_the_one_under_its_key() {
    let mut notes = vec![("a".to_string(), "1".to_string()), ("b".to_string(), "2".to_string())];
    put_note(&mut notes, "b", "3".to_string());
    put_note(&mut notes, "c", "4".to_string());
    assert_eq!(note(&notes, "a"), Some("1".to_string()));
    assert_eq!(note(&notes, "b"), Some("3".to_string()));
    assert_eq!(note(&notes, "c"), Some("4".to_string()));
    assert_eq!(note(&notes, "d"), None);
}

#[test]
fn key_marks_join_keys_of_one_moment() {
    let mut a = ClipAnimation::default();
    assert!(key_marks(&a).is_empty());
    a.opacity.insert(secs(2), d(0.5), KeyEasing::Linear);
    a.opacity.insert(millis(250), d(1.0), KeyEasing::Linear);
    a.volume.insert(secs(2), d(-6.0), KeyEasing::Hold);
    // Half a millisecond counts up.
    a.scale.insert(Duration { nanos: 1_999_500_000 }, d(50.0), KeyEasing::Linear);
    a.pos_x.insert(Duration { nanos: 1_999_499_999 }, d(10.0), KeyEasing::Linear);
    let marks: Vec<(u128, u128)> = key_marks(&a).iter().map(|m| (m.ms, m.keys)).collect();
    assert_eq!(marks, vec![(250, 1), (1999, 1), (2000, 3)]);
}
