//! Edits of the timeline and their undo steps.

use avio_editor::app_state::{AppState, MAX_UNDO};
use avio_editor::cuts::{split_clips, Delete};
use avio_editor::edit_command::{EditCommand, TrackChange};
use avio_editor::float::F32;
use avio_editor::frame_edits::LastEdits;
use avio_editor::imported::ImportedClip;
use avio_editor::media::XfadeTransition;
use avio_editor::ordering::{place, sort};
use avio_editor::state::{HAlign, TextClipPreset, TrackKind, VAlign};
use avio_editor::time::Duration;
use avio_editor::timeline::{track_is_active, track_label, Edit, TimelineState};
use avio_editor::timeline_clip::{clips_agree, Freeze, TimelineClip};
use avio_editor::title_edits::{titles_agree, TitleMove, TitleTrim};

fn f(v: f32) -> F32 {
    F32 { bits: v.to_bits() }
}

fn secs(s: u64) -> Duration {
    Duration::from_secs(s)
}

fn media(seconds: u64) -> ImportedClip {
    ImportedClip::new("a.mp4".to_string(), secs(seconds), None, Some((1280, 720)), true)
}

fn clip(start: u64, from: u64, to: u64) -> TimelineClip {
    TimelineClip::new(0, secs(start), Some(secs(from)), Some(secs(to)))
}

fn starts(timeline: &TimelineState, track: usize) -> Vec<u64> {
    timeline.tracks[track].clips.iter().map(|c| c.start_on_track.as_secs()).collect()
}

fn three_clips() -> TimelineState {
    let mut t = TimelineState::default();
    t.add_clip(0, clip(0, 0, 4));
    t.add_clip(0, clip(4, 0, 3));
    t.add_clip(0, clip(7, 0, 5));
    t
}

fn lengths() -> Vec<Vec<Duration>> {
    vec![vec![secs(4), secs(3), secs(5)], Vec::new(), Vec::new()]
}

fn no_last() -> LastEdits {
    LastEdits {
        deletes: Vec::new(),
        inserts: Vec::new(),
        paste: false,
        duplicate: false,
        split: false,
    }
}

#[test]
fn new_timeline_has_two_video_tracks_and_one_audio_track() {
    let t = TimelineState::default();
    let kinds: Vec<TrackKind> = t.tracks.iter().map(|t| t.kind).collect();
    assert_eq!(kinds, [TrackKind::Video, TrackKind::Video, TrackKind::Audio]);
    assert!(t.tracks.iter().all(|t| t.clips.is_empty() && !t.muted && !t.soloed));
    assert_eq!((t.video_track_count(), t.audio_track_start()), (2, 2));
    assert!(t.title_clips.is_empty());
    assert_eq!(t.pixels_per_second, f(60.0));
}

#[test]
fn video_tracks_stay_in_front() {
    let mut t = TimelineState::default();
    t.add_video_track();
    t.add_video_track();
    assert_eq!((t.video_track_count(), t.tracks.len()), (4, 5));
    assert_eq!(t.tracks[4].kind, TrackKind::Audio);
    assert_eq!(track_label(&t.tracks, 0), "V1");
    assert_eq!(track_label(&t.tracks, 3), "V4");
    assert_eq!(track_label(&t.tracks, 4), "A1");
}

#[test]
fn solo_silences_the_other_tracks() {
    let mut t = TimelineState::default();
    assert!(track_is_active(&t.tracks, 0));
    t.apply(Edit::ToggleMute { track: 0 });
    assert!(!track_is_active(&t.tracks, 0));
    t.apply(Edit::ToggleMute { track: 0 });
    t.apply(Edit::ToggleSolo { track: 1 });
    assert!(!track_is_active(&t.tracks, 0));
    assert!(track_is_active(&t.tracks, 1));
    assert!(!track_is_active(&t.tracks, 2));
    t.apply(Edit::ToggleMute { track: 1 });
    assert!(track_is_active(&t.tracks, 1));
}

#[test]
fn clips_are_kept_in_order_of_their_start() {
    let mut t = TimelineState::default();
    t.add_clip(0, clip(5, 0, 1));
    t.add_clip(0, clip(1, 0, 1));
    t.add_clip(0, clip(3, 0, 1));
    assert_eq!(starts(&t, 0), [1, 3, 5]);
    t.apply(Edit::Move { src_track: 0, src_clip: 0, dst_track: 0, start: secs(4) });
    assert_eq!(starts(&t, 0), [3, 4, 5]);
    t.apply(Edit::Move { src_track: 0, src_clip: 2, dst_track: 1, start: secs(2) });
    assert_eq!(starts(&t, 0), [3, 4]);
    assert_eq!(starts(&t, 1), [2]);
}

#[test]
fn equal_keys_keep_their_order() {
    let mut first = clip(1, 0, 1);
    first.source_index = 10;
    let mut second = clip(1, 0, 1);
    second.source_index = 20;
    let order = |v: &Vec<TimelineClip>| v.iter().map(|c| c.source_index).collect::<Vec<usize>>();
    let sorted = sort(vec![clip(2, 0, 1), first, second]);
    assert_eq!(order(&sorted), [10, 20, 0]);
    let mut list = sorted;
    let mut third = clip(1, 0, 1);
    third.source_index = 30;
    place(&mut list, third);
    assert_eq!(list.len(), 4);
    assert_eq!(list[3].source_index, 0);
}

#[test]
fn settings_are_clamped() {
    let mut t = three_clips();
    t.apply_edits(vec![
        Edit::Speed { track: 0, clip: 0, speed: f(9.0) },
        Edit::Gain { track: 0, clip: 0, gain_db: f(-90.0) },
        Edit::Speed { track: 0, clip: 1, speed: f(0.0) },
        Edit::Gain { track: 0, clip: 1, gain_db: f(13.0) },
        Edit::Fade { track: 0, clip: 2, fade_in: Some(secs(1)), fade_out: None },
        Edit::Transition {
            track: 0,
            clip: 2,
            transition: Some(XfadeTransition::Dissolve),
            duration: Duration::from_millis(500),
        },
    ]);
    let clips = &t.tracks[0].clips;
    assert_eq!((clips[0].speed, clips[0].gain_db), (f(4.0), f(-40.0)));
    assert_eq!((clips[1].speed, clips[1].gain_db), (f(0.1), f(12.0)));
    assert_eq!((clips[2].fade_in, clips[2].fade_out), (secs(1), secs(0)));
    assert_eq!(clips[2].transition, Some(XfadeTransition::Dissolve));
}

#[test]
fn trims_come_before_moves() {
    let mut t = three_clips();
    t.apply_edits(vec![
        Edit::Move { src_track: 0, src_clip: 0, dst_track: 0, start: secs(20) },
        Edit::Trim {
            track: 0,
            clip: 0,
            in_point: Some(secs(1)),
            out_point: Some(secs(2)),
            start: secs(1),
        },
    ]);
    assert_eq!(starts(&t, 0), [4, 7, 20]);
    assert_eq!(t.tracks[0].clips[2].in_point, Some(secs(1)));
}

#[test]
fn plain_delete_leaves_a_gap() {
    let mut t = three_clips();
    t.delete_clips(vec![Delete { track: 0, clip: 1, ripple: false }], lengths());
    assert_eq!(starts(&t, 0), [0, 7]);
}

#[test]
fn ripple_delete_closes_the_gap() {
    let mut t = three_clips();
    t.delete_clips(vec![Delete { track: 0, clip: 1, ripple: true }], lengths());
    assert_eq!(starts(&t, 0), [0, 4]);
}

#[test]
fn deletes_go_from_the_back() {
    let mut t = three_clips();
    t.delete_clips(
        vec![
            Delete { track: 0, clip: 0, ripple: true },
            Delete { track: 0, clip: 2, ripple: false },
        ],
        lengths(),
    );
    assert_eq!(starts(&t, 0), [0]);
    assert_eq!(t.tracks[0].clips[0].out_point, Some(secs(3)));
}

#[test]
fn split_keeps_the_content_of_a_clip() {
    let mut c = clip(4, 2, 10);
    c.fade_in = secs(1);
    c.fade_out = secs(2);
    c.transition = Some(XfadeTransition::Fade);
    let second = clip(20, 0, 1);
    let parts = split_clips(&vec![c, second], &vec![media(30)], secs(7));
    assert_eq!(parts.len(), 3);
    assert_eq!(parts[0].start_on_track, secs(4));
    assert_eq!((parts[0].in_point, parts[0].out_point), (Some(secs(2)), Some(secs(5))));
    assert_eq!((parts[0].fade_in, parts[0].fade_out), (secs(1), secs(0)));
    assert_eq!(parts[0].transition, Some(XfadeTransition::Fade));
    assert_eq!(parts[1].start_on_track, secs(7));
    assert_eq!((parts[1].in_point, parts[1].out_point), (Some(secs(5)), Some(secs(10))));
    assert_eq!((parts[1].fade_in, parts[1].fade_out), (secs(0), secs(2)));
    assert_eq!(parts[1].transition, None);
    assert_eq!(parts[2].start_on_track, secs(20));
}

#[test]
fn split_at_an_edge_changes_nothing() {
    let mut t = three_clips();
    t.split_at(&vec![media(30)], secs(4));
    assert_eq!(starts(&t, 0), [0, 4, 7]);
    t.split_at(&vec![media(30)], secs(5));
    assert_eq!(starts(&t, 0), [0, 4, 5, 7]);
}

#[test]
fn second_part_of_a_split_does_not_freeze() {
    let mut c = clip(0, 0, 10);
    let one = avio_editor::float::F64 { bits: 1.0f64.to_bits() };
    c.freeze = Some(Freeze { at_secs: one, hold_secs: one });
    let parts = split_clips(&vec![c], &vec![media(30)], secs(5));
    assert!(parts[0].freeze.is_some());
    assert!(parts[1].freeze.is_none());
}

#[test]
fn copies_go_behind_the_clip() {
    let mut c = clip(3, 0, 4);
    c.transition = Some(XfadeTransition::Fade);
    let copy = c.copy_behind(secs(4));
    assert_eq!(copy.start_on_track, secs(7));
    assert_eq!(copy.transition, Some(XfadeTransition::Fade));
    assert_eq!(c.duplicate(secs(4)).transition, None);
    assert_eq!(c.source_length(secs(30)), secs(4));
}

#[test]
fn clipboard_pastes_behind_the_copied_clip() {
    let mut state = AppState::default();
    state.clips.push(media(30));
    state.timeline = three_clips();
    assert!(state.paste_copy(secs(4)).is_none());
    state.select_clip(0, 1);
    state.copy_selected();
    let insert = state.paste_copy(secs(3)).expect("copied");
    assert_eq!((insert.track, insert.clip.start_on_track), (0, secs(7)));
    let insert = state.duplicate_selected(secs(3)).expect("selected");
    assert_eq!((insert.track, insert.clip.start_on_track), (0, secs(7)));
    state.select_title(0);
    assert!(state.duplicate_selected(secs(3)).is_none());

    let batch = state.begin_edits();
    let last = LastEdits { inserts: vec![insert], paste: true, ..no_last() };
    state.finish_edits(batch, last, lengths(), true);
    assert_eq!(starts(&state.timeline, 0), [0, 4, 7, 7]);
    assert_eq!(state.undo_label(), "Undo Paste Clip");
}

#[test]
fn frame_of_edits_is_one_undo_step() {
    let mut state = AppState::default();
    state.clips.push(media(30));
    let mut batch = state.begin_edits();
    state.edit(&mut batch, vec![Edit::Add { track: 0, new_clip: clip(2, 0, 4) }]);
    state.finish_edits(batch, no_last(), vec![vec![secs(4)], Vec::new(), Vec::new()], true);
    assert_eq!(state.undo_stack.len(), 1);
    assert_eq!(state.undo_label(), "Undo Add Clip");

    let mut batch = state.begin_edits();
    state.edit(
        &mut batch,
        vec![Edit::Move { src_track: 0, src_clip: 0, dst_track: 1, start: secs(9) }],
    );
    state.finish_edits(batch, no_last(), vec![Vec::new(), vec![secs(4)], Vec::new()], true);
    assert_eq!(state.undo_label(), "Undo Move Clip");
    assert_eq!(starts(&state.timeline, 1), [9]);

    state.apply_undo();
    assert_eq!(starts(&state.timeline, 0), [2]);
    assert_eq!(starts(&state.timeline, 1).len(), 0);
    assert_eq!(state.redo_label(), "Redo Move Clip");
    state.apply_redo();
    assert_eq!(starts(&state.timeline, 1), [9]);
    state.apply_undo();
    state.apply_undo();
    assert_eq!(starts(&state.timeline, 0).len(), 0);
    assert!(state.undo_stack.is_empty());
    assert_eq!(state.redo_stack.len(), 2);
}

#[test]
fn unrecorded_or_empty_frames_make_no_step() {
    let mut state = AppState::default();
    state.timeline = three_clips();
    let mut batch = state.begin_edits();
    state.edit(&mut batch, vec![Edit::ToggleMute { track: 0 }]);
    state.finish_edits(batch, no_last(), lengths(), true);
    assert!(state.undo_stack.is_empty());

    let batch = state.begin_edits();
    let last = LastEdits {
        deletes: vec![Delete { track: 0, clip: 2, ripple: false }],
        ..no_last()
    };
    state.finish_edits(batch, last, lengths(), false);
    assert_eq!(starts(&state.timeline, 0), [0, 4]);
    assert!(state.undo_stack.is_empty());
}

#[test]
fn undo_steps_are_capped_at_the_newest() {
    let mut state = AppState::default();
    for i in 0..(MAX_UNDO as u64 + 5) {
        let before = state.timeline.snapshot();
        state.timeline.add_clip(0, clip(i, 0, 1));
        state.record_edits(&before, Some("Add Clip"));
    }
    assert_eq!(state.undo_stack.len(), MAX_UNDO);
    while !state.undo_stack.is_empty() {
        state.apply_undo();
    }
    assert_eq!(state.timeline.tracks[0].clips.len(), 5);
}

#[test]
fn new_edit_drops_what_could_be_redone() {
    let mut state = AppState::default();
    let before = state.timeline.snapshot();
    state.timeline.add_clip(0, clip(1, 0, 1));
    state.record_edits(&before, Some("Add Clip"));
    state.apply_undo();
    assert_eq!(state.redo_stack.len(), 1);
    state.push_edit(EditCommand::TrackSnapshot {
        snapshots: vec![TrackChange { track: 0, before: Vec::new(), after: Vec::new() }],
        label: "Other",
    });
    assert!(state.redo_stack.is_empty());
    assert_eq!(state.undo_label(), "Undo Other");
    assert_eq!(state.redo_label(), "Redo");
    assert_eq!(AppState::default().undo_label(), "Undo");
}

#[test]
fn snapshot_tells_which_tracks_changed() {
    let mut t = three_clips();
    let before = t.snapshot();
    assert!(t.changes_since(&before).is_empty());
    t.add_clip(1, clip(1, 0, 1));
    let changes = t.changes_since(&before);
    assert_eq!(changes.len(), 1);
    assert_eq!((changes[0].track, changes[0].before.len(), changes[0].after.len()), (1, 0, 1));
    assert!(clips_agree(&before[0], &t.tracks[0].clips));
    assert!(!clips_agree(&before[1], &t.tracks[1].clips));
}

fn titled() -> AppState {
    let mut state = AppState::default();
    let preset = TextClipPreset { text: "Hello".to_string(), ..TextClipPreset::default() };
    assert_eq!(preset.name, "New Title");
    state.browser.text_presets.push(preset);
    state.drop_title(0, secs(5));
    state.drop_title(0, secs(1));
    state
}

#[test]
fn titles_drop_in_order_and_are_selected() {
    let mut state = titled();
    let titles = &state.timeline.title_clips;
    assert_eq!(titles.len(), 2);
    assert_eq!((titles[0].start_on_track, titles[1].start_on_track), (secs(1), secs(5)));
    assert_eq!((titles[0].duration, titles[0].font_size), (secs(3), 48));
    assert_eq!((titles[0].h_align, titles[0].v_align), (HAlign::Centre, VAlign::Middle));
    assert_eq!(state.selection.selected_title_clip, Some(0));
    state.drop_title(4, secs(9));
    assert_eq!(state.timeline.title_clips.len(), 2);
}

#[test]
fn title_edits_can_be_undone() {
    let mut state = titled();
    let kept = avio_editor::edit_command::copy_titles(&state.timeline.title_clips);
    let steps = state.undo_stack.len();
    state.move_titles(&vec![TitleMove { clip: 0, start: secs(8) }]);
    assert_eq!(state.timeline.title_clips[1].start_on_track, secs(8));
    assert_eq!(state.undo_stack.len(), steps + 1);
    state.apply_undo();
    assert!(titles_agree(&kept, &state.timeline.title_clips));

    state.trim_titles(&vec![TitleTrim { clip: 1, start: secs(4), duration: secs(9) }]);
    assert_eq!(state.timeline.title_clips[1].duration, secs(9));
    state.apply_undo();
    assert!(titles_agree(&kept, &state.timeline.title_clips));

    state.select_title(1);
    state.delete_title(0);
    assert_eq!(state.timeline.title_clips.len(), 1);
    assert_eq!(state.selection.selected_title_clip, Some(0));
    state.delete_title(0);
    assert_eq!(state.selection.selected_title_clip, None);
}

#[test]
fn moved_title_stays_selected() {
    let mut state = titled();
    state.timeline.title_clips[0].text = "First".to_string();
    state.move_titles(&vec![TitleMove { clip: 0, start: secs(8) }]);
    assert_eq!(state.selection.selected_title_clip, Some(1));
    assert_eq!(state.timeline.title_clips[1].text, "First");
    // Behind a later place, a title that starts at the same time comes first.
    state.move_titles(&vec![TitleMove { clip: 1, start: secs(5) }]);
    assert_eq!(state.selection.selected_title_clip, Some(1));
    state.move_titles(&vec![TitleMove { clip: 1, start: secs(2) }]);
    assert_eq!(state.selection.selected_title_clip, Some(0));
    assert_eq!(state.timeline.title_clips[0].text, "First");
    state.move_titles(&vec![TitleMove { clip: 7, start: secs(2) }]);
    assert_eq!(state.selection.selected_title_clip, Some(0));
}

#[test]
fn title_edit_without_effect_is_no_step() {
    let mut state = titled();
    let steps = state.undo_stack.len();
    state.move_titles(&vec![TitleMove { clip: 0, start: secs(1) }]);
    assert_eq!(state.undo_stack.len(), steps);
}

#[test]
fn dropped_clip_keeps_its_marks() {
    let mut state = AppState::default();
    state.clips.push(media(30));
    state.mark_clip_in(0, secs(2));
    state.mark_clip_out(0, secs(6));
    match state.drop_edit(1, 0, secs(4)) {
        Edit::Add { track, new_clip } => {
            assert_eq!((track, new_clip.source_index), (1, 0));
            assert_eq!(new_clip.start_on_track, secs(4));
            assert_eq!((new_clip.in_point, new_clip.out_point), (Some(secs(2)), Some(secs(6))));
        }
        other => panic!("expected Add, got {other:?}"),
    }
}
