//! The editor's state: what is imported, what is on the timeline, what is selected,
//! and what the two players are doing.

use crate::edit_command::{last_put_counts, replayed, Change, EditCommand};
use crate::float::{
    f32_of, F64, F32_ONE, F32_SIXTY, F32_ZERO, F64_MINUS_TWENTY_THREE, F64_ZERO,
};
use crate::imported::ImportedClip;
use crate::jobs::{GifJobHandle, ProxyJobHandle, TrimJobHandle};
use crate::media::{AudioCodec, VideoCodec};
use crate::presets::{EncoderConfigDraft, ExportFilterDraft, LoudnessResult};
use crate::queue::QueueJob;
use crate::state::{
    AspectPreset, BrowserTab, TextClipPreset, TimelineClipDrag, TimelineClipTrimDrag,
    TitleClip, TitleClipDrag, TitleClipTrimDrag,
};
use crate::time::Duration;
use crate::timeline::{new_lanes, Lane, TimelineState};
use crate::timeline_clip::TimelineClip;
use vstd::prelude::*;
use vstd::string::*;

verus! {

/// How many edits can be undone.
pub const MAX_UNDO: usize = 50;

/// Normal speed. Playback rates are counted in quarters of it.
pub const NORMAL_RATE: u32 = 4;

/// What there is of a player.
#[derive(Clone, Copy, PartialEq, Eq, Structural, Debug)]
pub struct PlayerLink {
    /// A player was started.
    pub thread: bool,
    /// It has come to its end.
    pub finished: bool,
    /// It can be controlled.
    pub handle: bool,
    /// Its control is still to come.
    pub handle_pending: bool,
}

impl PlayerLink {
    /// The player was started and has not come to its end.
    pub open spec fn runs(self) -> bool {
        self.thread && !self.finished
    }

    /// Whether the player was started and has not come to its end.
    pub fn is_running(&self) -> (r: bool)
        ensures
            r == self.runs(),
    {
        self.thread && !self.finished
    }

    /// No player at all.
    pub open spec fn none() -> Self {
        PlayerLink { thread: false, finished: false, handle: false, handle_pending: false }
    }

    /// A player that was just started.
    pub open spec fn started() -> Self {
        PlayerLink { thread: true, finished: false, handle: false, handle_pending: true }
    }
}

/// What the two players are doing, and how fast.
#[derive(Clone, Copy, PartialEq, Eq, Structural, Debug)]
pub struct Playback {
    /// The player of the source monitor.
    pub player: PlayerLink,
    pub is_paused: bool,
    pub current_pts: Option<Duration>,
    pub proxy_active: bool,
    /// Whether a proxy is used is still to be told.
    pub proxy_pending: bool,
    /// Rate of the source monitor, in quarters of normal speed.
    pub playback_rate: u32,
    /// Rate of the sound, in quarters of normal speed.
    pub audio_rate: u32,
    pub timeline_playhead: Duration,
    pub timeline_player: PlayerLink,
    pub timeline_is_paused: bool,
    /// Clips were changed while the player was paused: it has to be started anew.
    pub clips_moved_while_paused: bool,
    /// Rate of playing forward by key, in quarters; 0 where it is not.
    pub jkl_forward_rate: u32,
    /// Rate of playing backward by key, in quarters; 0 where it is not.
    pub jkl_reverse_rate: u32,
    pub timeline_loop_enabled: bool,
    /// In-point of the loop and of an exported range.
    pub export_in: Option<Duration>,
    /// Out-point of the loop and of an exported range.
    pub export_out: Option<Duration>,
}

/// What is selected or being dragged.
#[derive(Clone, Copy, Debug)]
pub struct Selection {
    /// The selected clip: its track and its place there.
    pub timeline_selected: Option<(usize, usize)>,
    pub selected_title_clip: Option<usize>,
    pub clip_drag: Option<TimelineClipDrag>,
    pub clip_trim: Option<TimelineClipTrimDrag>,
    pub title_clip_drag: Option<TitleClipDrag>,
    pub title_clip_trim: Option<TitleClipTrimDrag>,
}

/// What the source monitor shows.
#[derive(Debug)]
pub struct Monitor {
    pub clip_index: Option<usize>,
    /// Where the seek bar stands, in seconds.
    pub seek_pos_secs: F64,
    pub seek_exact: bool,
    pub keyframes: Vec<Duration>,
    pub av_offset_ms: i32,
}

/// How the project is exported.
#[derive(Debug)]
pub struct ExportSettings {
    pub queue: Vec<QueueJob>,
    pub queue_rendering: bool,
    pub encoder_config: EncoderConfigDraft,
    pub export_filters: ExportFilterDraft,
    pub loudness_result: Option<LoudnessResult>,
    pub loudness_normalize: bool,
    pub loudness_target: F64,
    pub range_enabled: bool,
    pub use_proxies: bool,
    pub project_aspect: AspectPreset,
    pub show_settings: bool,
}

/// What the clip browser shows.
#[derive(Debug)]
pub struct Browser {
    pub tab: BrowserTab,
    pub selected_clip_index: Option<usize>,
    pub text_presets: Vec<TextClipPreset>,
    pub selected_text_preset: Option<usize>,
}

/// The work that goes on in the background.
#[derive(Debug)]
pub struct Jobs {
    pub trim: Vec<TrimJobHandle>,
    pub gif: Vec<GifJobHandle>,
    pub proxy: Vec<ProxyJobHandle>,
}

/// The state of the editor.
#[derive(Debug)]
pub struct AppState {
    pub clips: Vec<ImportedClip>,
    pub timeline: TimelineState,
    pub selection: Selection,
    pub playback: Playback,
    pub undo_stack: Vec<EditCommand>,
    pub redo_stack: Vec<EditCommand>,
    /// The copied clip and the track that it came from.
    pub timeline_clipboard: Option<(usize, TimelineClip)>,
    pub monitor: Monitor,
    pub export: ExportSettings,
    pub browser: Browser,
    pub jobs: Jobs,
}

/// Edits as values.
pub open spec fn edits_of(stack: Seq<EditCommand>) -> Seq<Change> {
    stack.map_values(|c: EditCommand| c@)
}

impl Playback {
    /// Nothing plays, and nothing is marked.
    pub open spec fn idle() -> Self {
        Playback {
            player: PlayerLink::none(),
            is_paused: false,
            current_pts: None,
            proxy_active: false,
            proxy_pending: false,
            playback_rate: NORMAL_RATE,
            audio_rate: NORMAL_RATE,
            timeline_playhead: Duration { nanos: 0 },
            timeline_player: PlayerLink::none(),
            timeline_is_paused: false,
            clips_moved_while_paused: false,
            jkl_forward_rate: 0,
            jkl_reverse_rate: 0,
            timeline_loop_enabled: false,
            export_in: None,
            export_out: None,
        }
    }
}

impl Playback {
    /// After the source monitor's player was ended.
    pub open spec fn without_source(self) -> Self {
        Playback {
            player: PlayerLink::none(),
            proxy_pending: false,
            is_paused: false,
            proxy_active: false,
            ..self
        }
    }

    /// After the timeline's player was ended.
    pub open spec fn without_timeline(self) -> Self {
        Playback {
            timeline_player: PlayerLink::none(),
            timeline_is_paused: false,
            clips_moved_while_paused: false,
            ..self
        }
    }

    /// Whether the timeline plays and its player can be told to pause.
    pub open spec fn can_pause(self) -> bool {
        self.timeline_player.runs() && !self.timeline_is_paused && self.timeline_player.handle
    }

    /// After the timeline was paused, where it plays.
    pub open spec fn with_timeline_paused(self) -> Self {
        Playback {
            timeline_is_paused: self.timeline_is_paused || self.timeline_player.runs(),
            ..self
        }
    }
}

impl Default for AppState {
    fn default() -> (s: Self)
        ensures
            s.clips@.len() == 0,
            s.timeline.lanes() == new_lanes(),
            s.timeline.title_clips@.len() == 0,
            s.timeline.pixels_per_second.bits == F32_SIXTY,
            s.selection == (Selection {
                timeline_selected: None,
                selected_title_clip: None,
                clip_drag: None,
                clip_trim: None,
                title_clip_drag: None,
                title_clip_trim: None,
            }),
            s.playback == Playback::idle(),
            s.undo_stack@.len() == 0,
            s.redo_stack@.len() == 0,
            s.timeline_clipboard is None,
            s.monitor.clip_index is None,
            s.monitor.seek_pos_secs.bits == F64_ZERO,
            !s.monitor.seek_exact,
            s.monitor.keyframes@.len() == 0,
            s.monitor.av_offset_ms == 0,
            s.export.queue@.len() == 0,
            !s.export.queue_rendering,
            s.export.encoder_config == (EncoderConfigDraft {
                video_codec: VideoCodec::H264,
                audio_codec: AudioCodec::Aac,
                crf: 23,
            }),
            s.export.export_filters == (ExportFilterDraft {
                scale_enabled: false,
                output_width: 1920,
                output_height: 1080,
                colorbalance_enabled: false,
                brightness: f32_of(F32_ZERO),
                contrast: f32_of(F32_ONE),
                saturation: f32_of(F32_ONE),
            }),
            s.export.loudness_result is None,
            !s.export.loudness_normalize,
            s.export.loudness_target.bits == F64_MINUS_TWENTY_THREE,
            !s.export.range_enabled,
            !s.export.use_proxies,
            s.export.project_aspect == AspectPreset::Original,
            !s.export.show_settings,
            s.browser.tab == BrowserTab::Media,
            s.browser.selected_clip_index is None,
            s.browser.text_presets@.len() == 0,
            s.browser.selected_text_preset is None,
            s.jobs.trim@.len() == 0,
            s.jobs.gif@.len() == 0,
            s.jobs.proxy@.len() == 0,
    {
        let idle = PlayerLink { thread: false, finished: false, handle: false, handle_pending: false };
        AppState {
            clips: Vec::new(),
            timeline: TimelineState::default(),
            selection: Selection {
                timeline_selected: None,
                selected_title_clip: None,
                clip_drag: None,
                clip_trim: None,
                title_clip_drag: None,
                title_clip_trim: None,
            },
            playback: Playback {
                player: idle,
                is_paused: false,
                current_pts: None,
                proxy_active: false,
                proxy_pending: false,
                playback_rate: NORMAL_RATE,
                audio_rate: NORMAL_RATE,
                timeline_playhead: Duration::zero(),
                timeline_player: idle,
                timeline_is_paused: false,
                clips_moved_while_paused: false,
                jkl_forward_rate: 0,
                jkl_reverse_rate: 0,
                timeline_loop_enabled: false,
                export_in: None,
                export_out: None,
            },
            undo_stack: Vec::new(),
            redo_stack: Vec::new(),
            timeline_clipboard: None,
            monitor: Monitor {
                clip_index: None,
                seek_pos_secs: F64 { bits: F64_ZERO },
                seek_exact: false,
                keyframes: Vec::new(),
                av_offset_ms: 0,
            },
            export: ExportSettings {
                queue: Vec::new(),
                queue_rendering: false,
                encoder_config: EncoderConfigDraft::default(),
                export_filters: ExportFilterDraft::default(),
                loudness_result: None,
                loudness_normalize: false,
                loudness_target: F64 { bits: F64_MINUS_TWENTY_THREE },
                range_enabled: false,
                use_proxies: false,
                project_aspect: AspectPreset::default(),
                show_settings: false,
            },
            browser: Browser {
                tab: BrowserTab::Media,
                selected_clip_index: None,
                text_presets: Vec::new(),
                selected_text_preset: None,
            },
            jobs: Jobs { trim: Vec::new(), gif: Vec::new(), proxy: Vec::new() },
        }
    }
}

/// The edits that can be undone after one more: the oldest gives way where there
/// would be too many.
pub open spec fn pushed(stack: Seq<Change>, edit: Change) -> Seq<Change> {
    let all = stack.push(edit);
    if all.len() > MAX_UNDO {
        all.drop_first()
    } else {
        all
    }
}

impl AppState {
    /// The edits that can be undone, the newest last.
    pub open spec fn undos(self) -> Seq<Change> {
        edits_of(self.undo_stack@)
    }

    /// The edits that can be made again, the next one last.
    pub open spec fn redos(self) -> Seq<Change> {
        edits_of(self.redo_stack@)
    }

    /// Every edit that can be undone or made again names tracks that there are.
    pub open spec fn edits_fit(self) -> bool {
        &&& forall|i: int|
            0 <= i < self.undos().len() ==> (#[trigger] self.undos()[i]).names_tracks(
                self.timeline.tracks@.len(),
            )
        &&& forall|i: int|
            0 <= i < self.redos().len() ==> (#[trigger] self.redos()[i]).names_tracks(
                self.timeline.tracks@.len(),
            )
    }

    /// Ends the player of the source monitor. Says whether it is to be told so.
    pub fn stop_source_monitor_player(&mut self) -> (tell: bool)
        ensures
            tell == old(self).playback.player.handle,
            *final(self) == (AppState {
                playback: old(self).playback.without_source(),
                ..*old(self)
            }),
    {
        let tell = self.playback.player.handle;
        let mut p = self.playback;
        p.player = PlayerLink { thread: false, finished: false, handle: false, handle_pending: false };
        p.proxy_pending = false;
        p.is_paused = false;
        p.proxy_active = false;
        self.playback = p;
        tell
    }

    /// Ends the player of the timeline. Says whether it is to be told so.
    pub fn stop_timeline_player(&mut self) -> (tell: bool)
        ensures
            tell == old(self).playback.timeline_player.handle,
            *final(self) == (AppState {
                playback: old(self).playback.without_timeline(),
                ..*old(self)
            }),
    {
        let tell = self.playback.timeline_player.handle;
        let mut p = self.playback;
        p.timeline_player = PlayerLink {
            thread: false,
            finished: false,
            handle: false,
            handle_pending: false,
        };
        p.timeline_is_paused = false;
        p.clips_moved_while_paused = false;
        self.playback = p;
        tell
    }

    /// Keeps an edit so that it can be undone. What could be made again is gone.
    pub fn push_edit(&mut self, cmd: EditCommand)
        ensures
            final(self).undos() == pushed(old(self).undos(), cmd@),
            final(self).redos().len() == 0,
            old(self).edits_fit() && cmd@.names_tracks(old(self).timeline.tracks@.len())
                ==> final(self).edits_fit(),
            *final(self) == (AppState {
                undo_stack: final(self).undo_stack,
                redo_stack: final(self).redo_stack,
                ..*old(self)
            }),
    {
        self.redo_stack.clear();
        self.undo_stack.push(cmd);
        assert(self.undos() =~= old(self).undos().push(cmd@));
        if self.undo_stack.len() > MAX_UNDO {
            let _oldest = self.undo_stack.remove(0);
            assert(self.undos() =~= old(self).undos().push(cmd@).drop_first());
        }
    }

    /// Pauses the timeline where it plays. Says whether the player is to be told so.
    pub fn pause_timeline_if_playing(&mut self) -> (tell: bool)
        ensures
            tell == old(self).playback.can_pause(),
            *final(self) == (AppState {
                playback: old(self).playback.with_timeline_paused(),
                ..*old(self)
            }),
    {
        if self.playback.timeline_player.is_running() && !self.playback.timeline_is_paused {
            self.playback.timeline_is_paused = true;
            self.playback.timeline_player.handle
        } else {
            false
        }
    }

    /// Undoes the newest edit, where there is one. Says whether the player is to be
    /// paused.
    pub fn apply_undo(&mut self) -> (tell: bool)
        requires
            old(self).undos().len() > 0 ==> old(self).undos().last().names_tracks(
                old(self).timeline.tracks@.len(),
            ),
        ensures
            tell == old(self).playback.can_pause(),
            final(self).timeline.tracks@.len() == old(self).timeline.tracks@.len(),
            final(self).timeline.pixels_per_second == old(self).timeline.pixels_per_second,
            old(self).edits_fit() ==> final(self).edits_fit(),
            if old(self).undos().len() > 0 {
                &&& (final(self).timeline.lanes(), final(self).timeline.title_clips@) == replayed(
                    old(self).timeline.lanes(),
                    old(self).timeline.title_clips@,
                    old(self).undos().last(),
                    false,
                )
                &&& final(self).undos() == old(self).undos().drop_last()
                &&& final(self).redos() == old(self).redos().push(old(self).undos().last())
                &&& final(self).playback == (Playback {
                    clips_moved_while_paused: true,
                    ..old(self).playback.with_timeline_paused()
                })
            } else {
                &&& final(self).timeline == old(self).timeline
                &&& final(self).undos() == old(self).undos()
                &&& final(self).redos() == old(self).redos()
                &&& final(self).playback == old(self).playback.with_timeline_paused()
            },
            *final(self) == (AppState {
                timeline: final(self).timeline,
                undo_stack: final(self).undo_stack,
                redo_stack: final(self).redo_stack,
                playback: final(self).playback,
                ..*old(self)
            }),
    {
        let tell = self.pause_timeline_if_playing();
        let ghost was = *self;
        assert(was.undos() == old(self).undos() && was.redos() == old(self).redos());
        assert(old(self).edits_fit() ==> was.edits_fit());
        if let Some(cmd) = self.undo_stack.pop() {
            assert(self.undos() =~= was.undos().drop_last());
            assert(cmd@ == was.undos().last());
            self.timeline.replay(&cmd, false);
            self.redo_stack.push(cmd);
            assert(self.redos() =~= was.redos().push(cmd@));
            self.playback.clips_moved_while_paused = true;
            proof {
                let n = self.timeline.tracks@.len();
                if was.edits_fit() {
                    assert forall|i: int| 0 <= i < self.undos().len() implies (
                    #[trigger] self.undos()[i]).names_tracks(n) by {
                        assert(self.undos()[i] == was.undos()[i]);
                    }
                    assert forall|i: int| 0 <= i < self.redos().len() implies (
                    #[trigger] self.redos()[i]).names_tracks(n) by {
                        if i < was.redos().len() {
                            assert(self.redos()[i] == was.redos()[i]);
                        } else {
                            assert(self.redos()[i] == was.undos()[was.undos().len() - 1]);
                        }
                    }
                    assert(self.edits_fit());
                }
            }
        } else {
            assert(self.undos() =~= was.undos());
            assert(was.edits_fit() ==> self.edits_fit());
        }
        tell
    }

    /// Makes the edit that was undone last again, where there is one. Says whether
    /// the player is to be paused.
    pub fn apply_redo(&mut self) -> (tell: bool)
        requires
            old(self).redos().len() > 0 ==> old(self).redos().last().names_tracks(
                old(self).timeline.tracks@.len(),
            ),
        ensures
            tell == old(self).playback.can_pause(),
            final(self).timeline.tracks@.len() == old(self).timeline.tracks@.len(),
            final(self).timeline.pixels_per_second == old(self).timeline.pixels_per_second,
            old(self).edits_fit() ==> final(self).edits_fit(),
            if old(self).redos().len() > 0 {
                &&& (final(self).timeline.lanes(), final(self).timeline.title_clips@) == replayed(
                    old(self).timeline.lanes(),
                    old(self).timeline.title_clips@,
                    old(self).redos().last(),
                    true,
                )
                &&& final(self).redos() == old(self).redos().drop_last()
                &&& final(self).undos() == old(self).undos().push(old(self).redos().last())
                &&& final(self).playback == (Playback {
                    clips_moved_while_paused: true,
                    ..old(self).playback.with_timeline_paused()
                })
            } else {
                &&& final(self).timeline == old(self).timeline
                &&& final(self).redos() == old(self).redos()
                &&& final(self).undos() == old(self).undos()
                &&& final(self).playback == old(self).playback.with_timeline_paused()
            },
            *final(self) == (AppState {
                timeline: final(self).timeline,
                undo_stack: final(self).undo_stack,
                redo_stack: final(self).redo_stack,
                playback: final(self).playback,
                ..*old(self)
            }),
    {
        let tell = self.pause_timeline_if_playing();
        let ghost was = *self;
        assert(was.undos() == old(self).undos() && was.redos() == old(self).redos());
        assert(old(self).edits_fit() ==> was.edits_fit());
        if let Some(cmd) = self.redo_stack.pop() {
            assert(self.redos() =~= was.redos().drop_last());
            assert(cmd@ == was.redos().last());
            self.timeline.replay(&cmd, true);
            self.undo_stack.push(cmd);
            assert(self.undos() =~= was.undos().push(cmd@));
            self.playback.clips_moved_while_paused = true;
            proof {
                let n = self.timeline.tracks@.len();
                if was.edits_fit() {
                    assert forall|i: int| 0 <= i < self.redos().len() implies (
                    #[trigger] self.redos()[i]).names_tracks(n) by {
                        assert(self.redos()[i] == was.redos()[i]);
                    }
                    assert forall|i: int| 0 <= i < self.undos().len() implies (
                    #[trigger] self.undos()[i]).names_tracks(n) by {
                        if i < was.undos().len() {
                            assert(self.undos()[i] == was.undos()[i]);
                        } else {
                            assert(self.undos()[i] == was.redos()[was.redos().len() - 1]);
                        }
                    }
                    assert(self.edits_fit());
                }
            }
        } else {
            assert(self.redos() =~= was.redos());
            assert(was.edits_fit() ==> self.edits_fit());
        }
        tell
    }

    /// The text of the undo entry in the menu.
    pub fn undo_label(&self) -> (r: String)
        ensures
            r@ == (if self.undos().len() > 0 {
                "Undo "@ + self.undos().last().label()
            } else {
                "Undo"@
            }),
    {
        let n: usize = self.undo_stack.len();
        if n > 0 {
            assert(self.undos().last() == self.undo_stack@.last()@);
            let mut r = "Undo ".to_owned();
            r.append(self.undo_stack[n - 1].label());
            r
        } else {
            "Undo".to_owned()
        }
    }

    /// The text of the redo entry in the menu.
    pub fn redo_label(&self) -> (r: String)
        ensures
            r@ == (if self.redos().len() > 0 {
                "Redo "@ + self.redos().last().label()
            } else {
                "Redo"@
            }),
    {
        let n: usize = self.redo_stack.len();
        if n > 0 {
            assert(self.redos().last() == self.redo_stack@.last()@);
            let mut r = "Redo ".to_owned();
            r.append(self.redo_stack[n - 1].label());
            r
        } else {
            "Redo".to_owned()
        }
    }
}

/// Undoing the newest edit and making it again gives the timeline back, and what can
/// be undone and made again, where the timeline is as the edit had left it.
pub proof fn redo_cancels_undo(
    tracks: Seq<Lane>,
    titles: Seq<TitleClip>,
    undos: Seq<Change>,
    redos: Seq<Change>,
)
    requires
        undos.len() > 0,
        undos.last().names_tracks(tracks.len()),
        replayed(tracks, titles, undos.last(), true) == (tracks, titles),
    ensures
        ({
            let edit = undos.last();
            let undone = replayed(tracks, titles, edit, false);
            &&& replayed(undone.0, undone.1, edit, true) == (tracks, titles)
            &&& undos.drop_last().push(edit) == undos
            &&& redos.push(edit).drop_last() == redos
        }),
{
    let edit = undos.last();
    assert(redos.push(edit).drop_last() =~= redos);
    assert(undos.drop_last().push(edit) =~= undos);
    if edit is Tracks {
        last_put_counts(tracks, edit->snaps);
    }
}

/// At most so many edits can be undone, and they are the newest, in order.
pub proof fn newest_edits_are_kept(stack: Seq<Change>, edit: Change)
    requires
        stack.len() <= MAX_UNDO,
    ensures
        ({
            let r = pushed(stack, edit);
            &&& r.len() <= MAX_UNDO
            &&& r.last() == edit
            &&& r.len() == (if stack.len() < MAX_UNDO { stack.len() + 1 } else { stack.len() })
            &&& forall|i: int|
                0 <= i < r.len() ==> #[trigger] r[i] == stack.push(edit)[i + stack.len() + 1
                    - r.len()]
        }),
{
}

/// Ending a player takes its thread and its control away and lets nothing pause; the other
/// player, the rates, the marks and the playhead stay.
pub proof fn ended_player_is_gone(p: Playback)
    ensures
        ({
            let s = p.without_source();
            &&& !s.player.thread && !s.player.handle && !s.player.handle_pending
            &&& !s.player.finished && !s.player.runs()
            &&& !s.is_paused && !s.proxy_active && !s.proxy_pending
            &&& s.timeline_player == p.timeline_player
            &&& s.timeline_is_paused == p.timeline_is_paused
            &&& s.clips_moved_while_paused == p.clips_moved_while_paused
            &&& s == (Playback {
                player: s.player,
                is_paused: s.is_paused,
                proxy_active: s.proxy_active,
                proxy_pending: s.proxy_pending,
                ..p
            })
        }),
        ({
            let t = p.without_timeline();
            &&& !t.timeline_player.thread && !t.timeline_player.handle
            &&& !t.timeline_player.handle_pending && !t.timeline_player.finished
            &&& !t.timeline_player.runs() && !t.timeline_is_paused && !t.clips_moved_while_paused
            &&& t == (Playback {
                timeline_player: t.timeline_player,
                timeline_is_paused: t.timeline_is_paused,
                clips_moved_while_paused: t.clips_moved_while_paused,
                ..p
            })
        }),
{
}

/// A player runs from when it was started until it has come to its end. Only a timeline
/// that runs can be paused by an undo, and it is told so where it can be controlled; one
/// that does not run stays as it is.
pub proof fn running_timeline_is_paused(p: Playback)
    ensures
        p.timeline_player.runs() <==> p.timeline_player.thread && !p.timeline_player.finished,
        p.timeline_player.runs() ==> p.with_timeline_paused().timeline_is_paused,
        !p.timeline_player.runs() ==> p.with_timeline_paused() == p,
        p.can_pause() <==> p.timeline_player.thread && !p.timeline_player.finished
            && p.timeline_player.handle && !p.timeline_is_paused,
        p.with_timeline_paused() == (Playback {
            timeline_is_paused: p.with_timeline_paused().timeline_is_paused,
            ..p
        }),
        PlayerLink::started().runs() && !PlayerLink::started().handle,
        PlayerLink::started().handle_pending,
        !PlayerLink::none().runs() && !PlayerLink::none().handle,
        !PlayerLink::none().handle_pending,
{
}

/// In a new session nothing plays, nothing is marked, and all goes at normal speed.
pub proof fn new_session_is_idle()
    ensures
        ({
            let p = Playback::idle();
            &&& !p.player.runs() && !p.timeline_player.runs()
            &&& !p.player.handle && !p.timeline_player.handle
            &&& !p.is_paused && !p.timeline_is_paused && !p.clips_moved_while_paused
            &&& p.playback_rate == 4 && p.audio_rate == 4
            &&& p.jkl_forward_rate == 0 && p.jkl_reverse_rate == 0
            &&& p.timeline_playhead.nanos == 0
            &&& p.export_in is None && p.export_out is None && !p.timeline_loop_enabled
            &&& p.current_pts is None && !p.proxy_active && !p.proxy_pending
        }),
{
}

/// The edits as values are those on the stacks, in their order.
pub proof fn stacks_are_told_in_order(s: AppState)
    ensures
        s.undos().len() == s.undo_stack@.len(),
        s.redos().len() == s.redo_stack@.len(),
        forall|i: int|
            0 <= i < s.undo_stack@.len() ==> #[trigger] s.undos()[i] == s.undo_stack@[i]@,
        forall|i: int|
            0 <= i < s.redo_stack@.len() ==> #[trigger] s.redos()[i] == s.redo_stack@[i]@,
{
}

/// Fifty edits can be undone.
pub proof fn fifty_edits_can_be_undone(stack: Seq<Change>, edit: Change)
    ensures
        stack.len() < 50 ==> pushed(stack, edit) == stack.push(edit),
        stack.len() == 50 ==> pushed(stack, edit) == stack.skip(1).push(edit),
{
    if stack.len() == 50 {
        assert(pushed(stack, edit) =~= stack.skip(1).push(edit));
    }
}

} // verus!
