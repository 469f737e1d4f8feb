//! The two players, the shuttle keys and the source monitor.

use avio_editor::app_state::{AppState, PlayerLink, NORMAL_RATE};
use avio_editor::audio::{resample, samples_to_take};
use avio_editor::browser::ProxyBadge;
use avio_editor::float::{F32, F64};
use avio_editor::imported::{find_by_path, source_dims, ImportedClip};
use avio_editor::jobs::{
    drain_gif_jobs, drain_proxy_jobs, drain_trim_jobs, gif_range, is_proxy_running,
    start_proxy_job, GifJobHandle, GifStatus, ProxyJobHandle, ProxyStatus, TrimJobHandle,
    TrimStatus,
};
use avio_editor::monitor::{snap_to_nearest_keyframe, stop_player, visible_titles};
use avio_editor::playback::{can_play, playback_plan, player_clip, PauseStep};
use avio_editor::state::{HAlign, TitleClip, VAlign};
use avio_editor::time::Duration;
use avio_editor::timeline::Edit;
use avio_editor::timeline_clip::TimelineClip;
use avio_editor::transport::{ActivePlayer, ShuttleKeys, ShuttleStep, SLOW_RATE, TOP_RATE};

fn f(v: f32) -> F32 {
    F32 { bits: v.to_bits() }
}

fn secs(s: u64) -> Duration {
    Duration::from_secs(s)
}

fn media(path: &str) -> ImportedClip {
    let fps = Some(F64 { bits: 25.0f64.to_bits() });
    ImportedClip::new(path.to_string(), secs(20), fps, Some((1280, 720)), true)
}

const RUNNING: PlayerLink =
    PlayerLink { thread: true, finished: false, handle: true, handle_pending: false };

fn playing_timeline() -> AppState {
    let mut state = AppState::default();
    state.play_timeline();
    assert!(!state.drain_timeline_player(true));
    state
}

const NO_KEYS: ShuttleKeys = ShuttleKeys { k_down: false, j: false, k: false, l: false };

#[test]
fn starting_the_timeline_ends_the_source_monitor() {
    let mut state = AppState::default();
    state.monitor.clip_index = Some(0);
    state.source_started();
    state.drain_player_handles(true, Some(true));
    assert!(state.playback.player.handle && state.playback.proxy_active);
    assert_eq!(state.play_timeline(), (true, false));
    assert!(!state.playback.player.is_running());
    assert!(!state.playback.proxy_active);
    assert_eq!(state.monitor.clip_index, None);
    assert!(state.playback.timeline_player.is_running());
    assert!(state.playback.timeline_player.handle_pending);
}

#[test]
fn pause_and_resume() {
    let mut state = AppState::default();
    assert_eq!(state.toggle_pause(), PauseStep::Nothing);
    let mut state = playing_timeline();
    assert_eq!(state.toggle_pause(), PauseStep::Pause);
    assert!(state.playback.timeline_is_paused);
    assert_eq!(state.toggle_pause(), PauseStep::Play);
    assert!(!state.playback.timeline_is_paused);
}

#[test]
fn resume_after_an_edit_starts_anew() {
    let mut state = playing_timeline();
    state.clips.push(media("a.mp4"));
    state.toggle_pause();
    let mut batch = state.begin_edits();
    let clip = TimelineClip::new(0, secs(0), None, None);
    state.edit(&mut batch, vec![Edit::Add { track: 0, new_clip: clip }]);
    state.playback.clips_moved_while_paused = true;
    assert_eq!(state.toggle_pause(), PauseStep::Restart { tell: true });
    assert!(state.playback.timeline_player.handle_pending);
    assert!(!state.playback.clips_moved_while_paused);
}

#[test]
fn resume_after_a_move_or_trim_starts_anew() {
    let kept = secs(5);
    let edits = [
        Edit::Move { src_track: 0, src_clip: 0, dst_track: 0, start: kept },
        Edit::Trim { track: 0, clip: 0, in_point: None, out_point: Some(kept), start: secs(0) },
    ];
    for edit in edits {
        let mut state = playing_timeline();
        state.clips.push(media("a.mp4"));
        state.timeline.add_clip(0, TimelineClip::new(0, secs(0), None, None));
        state.toggle_pause();
        let mut batch = state.begin_edits();
        assert!(!state.edit(&mut batch, vec![edit]));
        assert!(state.playback.clips_moved_while_paused);
        assert_eq!(state.toggle_pause(), PauseStep::Restart { tell: true });
    }
    let mut state = playing_timeline();
    state.clips.push(media("a.mp4"));
    state.timeline.add_clip(0, TimelineClip::new(0, secs(0), None, None));
    let mut batch = state.begin_edits();
    let edit = Edit::Move { src_track: 0, src_clip: 0, dst_track: 0, start: kept };
    state.edit(&mut batch, vec![edit]);
    assert!(!state.playback.clips_moved_while_paused);
}

#[test]
fn finished_timeline_player_is_ended() {
    let mut state = playing_timeline();
    state.playback.timeline_player.finished = true;
    assert!(state.drain_timeline_player(false));
    assert!(!state.playback.timeline_player.thread);
    assert!(!state.drain_timeline_player(false));
}

#[test]
fn stop_goes_back_to_the_start() {
    let mut state = playing_timeline();
    state.frame_shown(secs(7));
    assert_eq!(state.playback.timeline_playhead, secs(7));
    assert!(state.stop_timeline());
    assert_eq!(state.playback.timeline_playhead, secs(0));
    assert!(!state.playback.timeline_player.is_running());
}

#[test]
fn loop_goes_back_to_its_in_point() {
    let mut state = playing_timeline();
    state.frame_shown(secs(2));
    state.mark_in();
    state.frame_shown(secs(6));
    state.mark_out();
    state.playback.timeline_loop_enabled = true;
    assert_eq!(state.frame_shown(secs(5)), None);
    assert_eq!(state.frame_shown(secs(6)), Some(secs(2)));
    assert_eq!(state.playback.timeline_playhead, secs(2));
}

#[test]
fn frames_without_a_timeline_player_belong_to_the_monitor() {
    let mut state = AppState::default();
    assert_eq!(state.frame_shown(secs(3)), None);
    assert_eq!(state.playback.current_pts, Some(secs(3)));
    assert_eq!(state.playback.timeline_playhead, secs(0));
}

#[test]
fn editing_pauses_the_timeline() {
    let mut state = playing_timeline();
    assert!(state.pause_timeline_if_playing());
    assert!(state.playback.timeline_is_paused);
    assert!(!state.pause_timeline_if_playing());
    assert!(!AppState::default().pause_timeline_if_playing());
}

#[test]
fn plan_holds_what_is_active() {
    let mut state = AppState::default();
    state.clips.push(media("a.mp4"));
    assert!(!can_play(&playback_plan(&state.timeline, &state.clips)));
    let mut clip = TimelineClip::new(0, secs(3), Some(secs(1)), Some(secs(4)));
    clip.brightness = f(0.2);
    state.timeline.add_clip(0, clip);
    state.timeline.add_clip(1, TimelineClip::new(0, secs(0), None, None));
    state.timeline.apply(Edit::ToggleMute { track: 1 });
    let plan = playback_plan(&state.timeline, &state.clips);
    assert!(can_play(&plan));
    assert_eq!((plan.video.len(), plan.video[0].len(), plan.video[1].len()), (2, 1, 0));
    assert!(plan.audio.is_empty());
    let data = &plan.video[0][0];
    assert_eq!((data.path.as_str(), data.width, data.height), ("a.mp4", 1280, 720));
    let shown = player_clip(data);
    assert_eq!((shown.offset, shown.in_point), (secs(3), Some(secs(1))));
}

#[test]
fn shuttle_doubles_up_to_the_top() {
    let mut state = playing_timeline();
    let l = ShuttleKeys { l: true, ..NO_KEYS };
    let mut rates = Vec::new();
    for _ in 0..5 {
        match state.handle_jkl_transport(l, false) {
            ShuttleStep::Forward(rate) => rates.push(rate),
            other => panic!("expected Forward, got {other:?}"),
        }
    }
    assert_eq!(rates, [4, 8, 16, 32, 32]);
    assert_eq!(TOP_RATE, 32);
    assert_eq!(state.playback.audio_rate, 32);
    let j = ShuttleKeys { j: true, ..NO_KEYS };
    assert_eq!(state.handle_jkl_transport(j, false), ShuttleStep::Backward(NORMAL_RATE));
    assert_eq!(state.playback.jkl_forward_rate, 0);
    assert_eq!(state.playback.audio_rate, 32);
    let k = ShuttleKeys { k: true, ..NO_KEYS };
    assert_eq!(state.handle_jkl_transport(k, false), ShuttleStep::Pause);
    assert_eq!(state.playback.audio_rate, NORMAL_RATE);
    assert!(state.playback.timeline_is_paused);
}

#[test]
fn held_k_is_slow() {
    let mut state = playing_timeline();
    let slow = ShuttleKeys { k_down: true, l: true, ..NO_KEYS };
    assert_eq!(state.handle_jkl_transport(slow, false), ShuttleStep::Forward(SLOW_RATE));
    let back = ShuttleKeys { k_down: true, j: true, ..NO_KEYS };
    assert_eq!(state.handle_jkl_transport(back, false), ShuttleStep::Backward(SLOW_RATE));
    assert_eq!(state.playback.jkl_reverse_rate, SLOW_RATE);
    state.stop_jkl_reverse();
    assert_eq!(state.playback.jkl_reverse_rate, 0);
}

#[test]
fn shuttle_keys_need_a_player_and_no_typing() {
    let l = ShuttleKeys { l: true, ..NO_KEYS };
    let mut idle = AppState::default();
    assert_eq!(idle.handle_jkl_transport(l, false), ShuttleStep::Nothing);
    let mut state = playing_timeline();
    assert_eq!(state.handle_jkl_transport(l, true), ShuttleStep::Nothing);
    assert_eq!(state.jkl_active_handle(), Some(ActivePlayer::Timeline));
    state.stop_timeline();
    assert_eq!(state.jkl_active_handle(), None);
    state.playback.player = RUNNING;
    assert_eq!(state.jkl_active_handle(), Some(ActivePlayer::SourceMonitor));
    state.handle_jkl_transport(l, false);
    state.handle_jkl_transport(l, false);
    assert_eq!((state.playback.playback_rate, state.playback.audio_rate), (8, 8));
}

#[test]
fn seek_snaps_to_a_near_keyframe() {
    let keys = vec![secs(0), secs(4), secs(8)];
    assert_eq!(snap_to_nearest_keyframe(secs(5), &keys, secs(2)), secs(4));
    assert_eq!(snap_to_nearest_keyframe(secs(6), &keys, secs(2)), secs(4));
    assert_eq!(snap_to_nearest_keyframe(secs(6), &keys, secs(1)), secs(6));
    assert_eq!(snap_to_nearest_keyframe(secs(6), &Vec::new(), secs(9)), secs(6));
}

#[test]
fn only_a_coarse_seek_snaps() {
    let mut state = AppState::default();
    state.monitor.keyframes = vec![secs(4)];
    let near = Duration::from_millis(4500);
    let far = Duration::from_millis(4501);
    assert_eq!((state.seek_target(near), state.seek_target(far)), (secs(4), far));
    state.monitor.seek_exact = true;
    assert_eq!(state.seek_target(near), near);
}

#[test]
fn closing_the_monitor_resets_it() {
    let mut state = AppState::default();
    state.import(media("a.mp4"));
    state.open_in_monitor(0);
    state.source_started();
    state.drain_player_handles(true, None);
    state.monitor.seek_pos_secs = F64 { bits: 2.5f64.to_bits() };
    assert!(state.close_monitor());
    assert_eq!(state.monitor.clip_index, None);
    assert_eq!(state.monitor.seek_pos_secs, F64 { bits: 0 });
    assert!(!state.playback.player.is_running());
    assert!(!state.close_monitor());
}

#[test]
fn source_monitor_pauses_and_stops() {
    let mut state = AppState::default();
    assert_eq!(state.toggle_source_pause(), None);
    state.set_playback_rate(8);
    state.source_started();
    assert_eq!(state.playback.audio_rate, 8);
    state.drain_player_handles(true, None);
    assert!(state.playback.proxy_pending);
    assert_eq!(state.toggle_source_pause(), Some(false));
    assert!(state.playback.is_paused);
    assert_eq!(state.toggle_source_pause(), Some(true));
    assert!(state.set_playback_rate(4));
    assert!(stop_player(&mut state));
    assert!(!state.playback.player.is_running());
    assert!(!stop_player(&mut state));
}

#[test]
fn marks_of_an_import() {
    let mut state = AppState::default();
    let plan = state.import(media("a.mp4"));
    assert_eq!((plan.clip_index, plan.thumbnail, plan.waveform), (0, true, true));
    let sound = ImportedClip::new("b.wav".to_string(), secs(3), None, None, true);
    let plan = state.import(sound);
    assert_eq!((plan.clip_index, plan.thumbnail, plan.silence), (1, false, true));
    assert!(state.clips[1].is_audio_only() && state.clips[1].has_media());
    assert!(!state.clips[0].can_trim());
    state.mark_clip_in(0, secs(5));
    state.mark_clip_out(0, secs(5));
    assert!(state.clips[0].marks_crossed() && state.clips[0].can_trim());
    state.mark_clip_out(0, secs(6));
    assert!(!state.clips[0].marks_crossed());
    state.mark_clip_out(7, secs(6));
    assert_eq!(state.clips.len(), 2);
    assert_eq!(find_by_path(&state.clips, "b.wav"), Some(1));
    assert_eq!(find_by_path(&state.clips, "c.wav"), None);
    assert_eq!(source_dims(&state.clips, "a.mp4"), (1280, 720));
    assert_eq!(source_dims(&state.clips, "b.wav"), (0, 0));
    assert_eq!(state.clips[0].frame_size(), (1280, 720));
}

#[test]
fn analysis_results_reach_their_clip() {
    let mut state = AppState::default();
    state.import(media("a.mp4"));
    state.scenes_found(0, vec![secs(1), secs(2)]);
    state.silence_found(0, vec![(secs(1), secs(2))]);
    state.waveform_found(0, vec![f(0.5)]);
    state.scenes_found(9, Vec::new());
    let clip = &state.clips[0];
    assert_eq!((clip.scenes.len(), clip.silence_regions.len(), clip.waveform.len()), (2, 1, 1));
}

#[test]
fn opening_a_clip_stops_the_one_before() {
    let mut state = AppState::default();
    state.import(media("a.mp4"));
    state.monitor.keyframes = vec![secs(1)];
    let step = state.open_in_monitor(0);
    assert!(!step.stop && step.play);
    assert!(state.monitor.keyframes.is_empty());
    assert_eq!(state.browser.selected_clip_index, Some(0));
    state.source_started();
    state.drain_player_handles(true, None);
    let step = state.open_in_monitor(3);
    assert!(step.stop && !step.play);
    assert_eq!(state.monitor.clip_index, Some(3));
    state.select_import(0);
    assert_eq!(state.browser.selected_clip_index, Some(0));
}

#[test]
fn imports_line_up_on_the_first_track() {
    let mut state = AppState::default();
    state.import(media("a.mp4"));
    state.mark_clip_in(0, secs(2));
    state.mark_clip_out(0, secs(6));
    state.add_to_v1(0);
    state.add_to_v1(0);
    let clips = &state.timeline.tracks[0].clips;
    assert_eq!(clips.len(), 2);
    assert_eq!((clips[0].start_on_track, clips[1].start_on_track), (secs(0), secs(4)));
    assert_eq!(clips[1].in_point, Some(secs(2)));
}

#[test]
fn proxy_badges() {
    let mut state = AppState::default();
    state.import(media("a.mp4"));
    assert_eq!(state.proxy_badge(0), ProxyBadge::Nothing);
    state.jobs.proxy = start_proxy_job(Vec::new(), 0);
    assert_eq!(state.proxy_badge(0), ProxyBadge::Running);
    assert!(is_proxy_running(&state.jobs.proxy, 0));
    assert!(!is_proxy_running(&state.jobs.proxy, 1));
    state.jobs.proxy[0].status = ProxyStatus::Failed("no disk".to_string());
    assert_eq!(state.proxy_badge(0), ProxyBadge::Failed);
    state.clips[0].proxy_path = Some("p.mp4".to_string());
    assert_eq!(state.proxy_badge(0), ProxyBadge::Ready);
    assert!(!state.can_render_all());
}

#[test]
fn new_proxy_job_replaces_the_old_one() {
    let failed = |clip_index: usize| ProxyJobHandle {
        clip_index,
        status: ProxyStatus::Failed("no disk".to_string()),
    };
    let jobs = start_proxy_job(vec![failed(0), failed(1)], 0);
    assert_eq!(jobs.len(), 2);
    assert_eq!(jobs[0].clip_index, 1);
    assert!(matches!(jobs[1].status, ProxyStatus::Running));
}

#[test]
fn finished_jobs_hand_in_their_files() {
    let mut clips = vec![media("a.mp4"), media("b.mp4")];
    let jobs = vec![
        ProxyJobHandle { clip_index: 1, status: ProxyStatus::Done("b_proxy.mp4".to_string()) },
        ProxyJobHandle { clip_index: 9, status: ProxyStatus::Done("gone.mp4".to_string()) },
        ProxyJobHandle { clip_index: 0, status: ProxyStatus::Failed("no".to_string()) },
    ];
    let kept = drain_proxy_jobs(jobs, &mut clips);
    assert_eq!(kept.len(), 1);
    assert_eq!(clips[1].proxy_path.as_deref(), Some("b_proxy.mp4"));
    assert_eq!(clips[0].proxy_path, None);

    let (kept, done) = drain_trim_jobs(vec![
        TrimJobHandle { clip_index: 0, status: TrimStatus::Running },
        TrimJobHandle { clip_index: 1, status: TrimStatus::Done("cut.mp4".to_string()) },
        TrimJobHandle { clip_index: 2, status: TrimStatus::Failed("no".to_string()) },
    ]);
    assert_eq!(done, ["cut.mp4"]);
    assert!(kept.iter().any(|j| j.clip_index == 0));
    assert!(kept.iter().all(|j| j.clip_index != 1));

    let (kept, done) = drain_gif_jobs(vec![
        GifJobHandle { clip_index: 0, status: GifStatus::Running },
        GifJobHandle { clip_index: 1, status: GifStatus::Done("a.gif".to_string()) },
    ]);
    assert_eq!(done, ["a.gif"]);
    assert_eq!(kept.len(), 1);
}

#[test]
fn gif_covers_the_marked_range() {
    assert_eq!(gif_range(Some(secs(2)), Some(secs(5)), secs(20)), (secs(2), secs(3)));
    assert_eq!(gif_range(None, None, secs(20)), (secs(0), secs(20)));
    assert_eq!(gif_range(Some(secs(5)), None, secs(20)), (secs(5), secs(15)));
    assert_eq!(gif_range(Some(secs(5)), Some(secs(2)), secs(20)), (secs(5), secs(0)));
}

#[test]
fn titles_are_seen_from_start_to_end() {
    let title = |text: &str, start: u64| TitleClip {
        start_on_track: secs(start),
        duration: secs(3),
        text: text.to_string(),
        font_size: 48,
        color: [255; 4],
        h_align: HAlign::Left,
        v_align: VAlign::Top,
    };
    let titles = vec![title("one", 0), title("two", 2), title("", 2)];
    assert_eq!(visible_titles(&titles, secs(2)), [0, 1]);
    assert_eq!(visible_titles(&titles, secs(3)), [1]);
    assert_eq!(visible_titles(&titles, secs(5)).len(), 0);
}

#[test]
fn sound_is_stretched_to_the_rate() {
    assert_eq!(samples_to_take(100, NORMAL_RATE), 100);
    assert_eq!(samples_to_take(100, 8), 200);
    assert_eq!(samples_to_take(100, SLOW_RATE), 25);
    let samples: Vec<F32> = (0..4).map(|i| f(i as f32)).collect();
    assert_eq!(resample(&samples, 4), samples);
    assert_eq!(resample(&samples, 2).len(), 2);
    assert_eq!(resample(&Vec::new(), 3).len(), 3);
}
