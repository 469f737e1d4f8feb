//! What the players are given, and how playback is started, paused and looped.

use crate::app_state::{AppState, Monitor, Playback, PlayerLink, NORMAL_RATE};
use crate::effects::Clip;
use crate::imported::{size_of_frame, ImportedClip};
use crate::time::Duration;
use crate::timeline::{is_active, track_is_active, video_end, Lane, TimelineState};
use crate::timeline_clip::TimelineClip;
use vstd::prelude::*;

verus! {

/// A clip as the timeline's player gets it.
#[derive(Debug)]
pub struct TrackClipData {
    pub path: String,
    pub width: u32,
    pub height: u32,
    pub settings: TimelineClip,
}

/// The player's clip for a clip of the timeline.
pub open spec fn data_of(c: TimelineClip, sources: Seq<ImportedClip>) -> TrackClipData {
    let source = sources[c.source_index as int];
    TrackClipData {
        path: source.path,
        width: size_of_frame(source).0,
        height: size_of_frame(source).1,
        settings: c,
    }
}

/// What the player gets of a track: its clips, or nothing where it is not active.
pub open spec fn lane_data(
    tracks: Seq<Lane>,
    track: int,
    sources: Seq<ImportedClip>,
) -> Seq<TrackClipData> {
    if is_active(tracks, track) {
        tracks[track].clips.map_values(|c: TimelineClip| data_of(c, sources))
    } else {
        Seq::empty()
    }
}

/// Every clip of the tracks that play, the video tracks and the first audio track, has
/// a source.
pub open spec fn sources_known(tracks: Seq<Lane>, sources: Seq<ImportedClip>) -> bool {
    forall|t: int, c: int|
        0 <= t < tracks.len() && t <= video_end(tracks, 0) && is_active(tracks, t) && 0 <= c < tracks[t].clips.len() ==> (
        #[trigger] tracks[t].clips[c]).source_index < sources.len()
}

/// The clips for the timeline's player: the video tracks from the bottom up, and the
/// first audio track.
#[derive(Debug)]
pub struct PlaybackPlan {
    pub video: Vec<Vec<TrackClipData>>,
    pub audio: Vec<TrackClipData>,
}

fn track_data(
    timeline: &TimelineState,
    track: usize,
    sources: &Vec<ImportedClip>,
) -> (r: Vec<TrackClipData>)
    requires
        track < timeline.tracks@.len(),
        track <= video_end(timeline.lanes(), 0),
        sources_known(timeline.lanes(), sources@),
    ensures
        r@ == lane_data(timeline.lanes(), track as int, sources@),
{
    let mut r: Vec<TrackClipData> = Vec::new();
    if track_is_active(&timeline.tracks, track) {
        let clips = &timeline.tracks[track].clips;
        assert(timeline.lanes()[track as int].clips == clips@);
        let mut i: usize = 0;
        while i < clips.len()
            invariant
                i <= clips@.len(),
                track < timeline.tracks@.len(),
                track <= video_end(timeline.lanes(), 0),
                clips@ == timeline.lanes()[track as int].clips,
                is_active(timeline.lanes(), track as int),
                sources_known(timeline.lanes(), sources@),
                r@ == clips@.take(i as int).map_values(|c: TimelineClip| data_of(c, sources@)),
            decreases clips@.len() - i,
        {
            let c = &clips[i];
            assert(timeline.lanes()[track as int].clips[i as int].source_index < sources@.len());
            let source = &sources[c.source_index];
            let (width, height) = source.frame_size();
            r.push(
                TrackClipData { path: source.path.clone(), width, height, settings: c.clone() },
            );
            i = i + 1;
            assert(r@ =~= clips@.take(i as int).map_values(
                |c: TimelineClip| data_of(c, sources@),
            ));
        }
        assert(clips@.take(clips@.len() as int) =~= clips@);
    }
    r
}

/// The clips for the timeline's player.
pub fn playback_plan(timeline: &TimelineState, sources: &Vec<ImportedClip>) -> (p: PlaybackPlan)
    requires
        sources_known(timeline.lanes(), sources@),
    ensures
        p.video@.len() == video_end(timeline.lanes(), 0),
        forall|i: int|
            0 <= i < p.video@.len() ==> (#[trigger] p.video@[i])@ == lane_data(
                timeline.lanes(),
                i,
                sources@,
            ),
        p.audio@ == (if video_end(timeline.lanes(), 0) < timeline.lanes().len() {
            lane_data(timeline.lanes(), video_end(timeline.lanes(), 0), sources@)
        } else {
            Seq::empty()
        }),
{
    let audio_start: usize = timeline.audio_track_start();
    let mut video: Vec<Vec<TrackClipData>> = Vec::new();
    let mut i: usize = 0;
    while i < audio_start
        invariant
            i <= audio_start <= timeline.tracks@.len(),
            audio_start == video_end(timeline.lanes(), 0),
            sources_known(timeline.lanes(), sources@),
            video@.len() == i,
            forall|k: int|
                0 <= k < i ==> (#[trigger] video@[k])@ == lane_data(
                    timeline.lanes(),
                    k,
                    sources@,
                ),
        decreases audio_start - i,
    {
        video.push(track_data(timeline, i, sources));
        i = i + 1;
    }
    let audio = if audio_start < timeline.tracks.len() {
        track_data(timeline, audio_start, sources)
    } else {
        Vec::new()
    };
    PlaybackPlan { video, audio }
}

/// Whether `r` is the player's clip for `d`: the piece of the source at its place,
/// with its transition.
pub open spec fn plays(d: TrackClipData, r: Clip) -> bool {
    &&& r.source@ == d.path@
    &&& r.offset == d.settings.start_on_track
    &&& r.in_point == d.settings.in_point
    &&& r.out_point == d.settings.out_point
    &&& r.transition == d.settings.transition
    &&& r.transition_duration == (if d.settings.transition is Some {
        d.settings.transition_duration
    } else {
        Duration { nanos: 0 }
    })
    &&& r.metadata@.len() == 0
    &&& r.proxy is None
    &&& (Clip { transition: None, ..r }).untouched()
}

/// The player's clip.
pub fn player_clip(d: &TrackClipData) -> (r: Clip)
    ensures
        plays(*d, r),
{
    let mut c = Clip::new(d.path.as_str());
    c.offset = d.settings.start_on_track;
    c.in_point = d.settings.in_point;
    c.out_point = d.settings.out_point;
    if let Some(kind) = d.settings.transition {
        c.transition = Some(kind);
        c.transition_duration = d.settings.transition_duration;
    }
    c
}

/// Whether there is anything to play: the bottom video track has clips.
pub fn can_play(plan: &PlaybackPlan) -> (r: bool)
    ensures
        r == (plan.video@.len() > 0 && plan.video@[0]@.len() > 0),
{
    plan.video.len() > 0 && plan.video[0].len() > 0
}

/// What a click on pause or resume asks of the player.
#[derive(Clone, Copy, PartialEq, Eq, Structural, Debug)]
pub enum PauseStep {
    /// Nothing: there is no control of the player yet.
    Nothing,
    Pause,
    Play,
    /// A new player has to be started where the playhead is, and the old one to be
    /// stopped where it can be told.
    Restart { tell: bool },
}

impl Playback {
    /// After the timeline's player was started anew.
    pub open spec fn restarted(self) -> Self {
        Playback {
            audio_rate: NORMAL_RATE,
            timeline_player: PlayerLink::started(),
            timeline_is_paused: false,
            clips_moved_while_paused: false,
            ..self
        }
    }

    /// What a click on pause or resume asks of the player.
    pub open spec fn pause_step(self) -> PauseStep {
        if !self.timeline_is_paused {
            if self.timeline_player.handle {
                PauseStep::Pause
            } else {
                PauseStep::Nothing
            }
        } else if self.clips_moved_while_paused {
            PauseStep::Restart { tell: self.timeline_player.handle }
        } else if self.timeline_player.handle {
            PauseStep::Play
        } else {
            PauseStep::Nothing
        }
    }

    /// Where playback has to go back to after a frame at `pts`: to the in-point, once
    /// the loop's out-point is reached.
    pub open spec fn loops_to(self, pts: Duration) -> Option<Duration> {
        match (self.export_in, self.export_out) {
            (Some(from), Some(to)) => if self.timeline_loop_enabled && !self.timeline_is_paused
                && from.nanos < to.nanos && pts.nanos >= to.nanos && self.timeline_player.handle {
                Some(from)
            } else {
                None
            },
            _ => None,
        }
    }

    /// The link after its player may have sent its control.
    pub open spec fn linked(link: PlayerLink, got_handle: bool) -> PlayerLink {
        PlayerLink {
            handle: link.handle || (link.handle_pending && got_handle),
            handle_pending: link.handle_pending && !got_handle,
            ..link
        }
    }
}

fn link_with(link: PlayerLink, got_handle: bool) -> (r: PlayerLink)
    ensures
        r == Playback::linked(link, got_handle),
{
    PlayerLink {
        thread: link.thread,
        finished: link.finished,
        handle: link.handle || (link.handle_pending && got_handle),
        handle_pending: link.handle_pending && !got_handle,
    }
}

impl AppState {
    /// Starts the timeline's player. Says whether the source monitor's and the
    /// timeline's player are to be told to stop.
    pub fn play_timeline(&mut self) -> (tell: (bool, bool))
        ensures
            tell == (old(self).playback.player.handle, old(self).playback.timeline_player.handle),
            *final(self) == (AppState {
                playback: old(self).playback.without_source().restarted(),
                monitor: Monitor { clip_index: None, ..old(self).monitor },
                ..*old(self)
            }),
    {
        let source = self.stop_source_monitor_player();
        self.monitor.clip_index = None;
        let timeline = self.restart_timeline();
        (source, timeline)
    }

    /// Starts the timeline's player anew. Says whether the old one is to be told to
    /// stop.
    pub fn restart_timeline(&mut self) -> (tell: bool)
        ensures
            tell == old(self).playback.timeline_player.handle,
            *final(self) == (AppState { playback: old(self).playback.restarted(), ..*old(self) }),
    {
        let tell = self.playback.timeline_player.handle;
        let mut p = self.playback;
        p.audio_rate = NORMAL_RATE;
        p.timeline_player = PlayerLink {
            thread: true,
            finished: false,
            handle: false,
            handle_pending: true,
        };
        p.timeline_is_paused = false;
        p.clips_moved_while_paused = false;
        self.playback = p;
        tell
    }

    /// Pauses the timeline's player, or lets it play on. After clips were changed
    /// during a pause it has to be started anew.
    pub fn toggle_pause(&mut self) -> (step: PauseStep)
        ensures
            step == old(self).playback.pause_step(),
            *final(self) == (AppState {
                playback: if step is Restart {
                    old(self).playback.restarted()
                } else {
                    Playback { timeline_is_paused: step is Pause, ..old(self).playback }
                },
                ..*old(self)
            }),
    {
        if !self.playback.timeline_is_paused {
            if self.playback.timeline_player.handle {
                self.playback.timeline_is_paused = true;
                PauseStep::Pause
            } else {
                PauseStep::Nothing
            }
        } else if self.playback.clips_moved_while_paused {
            let tell = self.restart_timeline();
            PauseStep::Restart { tell }
        } else {
            self.playback.timeline_is_paused = false;
            if self.playback.timeline_player.handle {
                PauseStep::Play
            } else {
                PauseStep::Nothing
            }
        }
    }

    /// Stops the timeline and goes back to its start. Says whether the player is to
    /// be told so.
    pub fn stop_timeline(&mut self) -> (tell: bool)
        ensures
            tell == old(self).playback.timeline_player.handle,
            *final(self) == (AppState {
                playback: Playback {
                    timeline_playhead: Duration { nanos: 0 },
                    timeline_loop_enabled: false,
                    ..old(self).playback.without_timeline()
                },
                ..*old(self)
            }),
    {
        let tell = self.stop_timeline_player();
        self.playback.timeline_playhead = Duration::zero();
        self.playback.timeline_loop_enabled = false;
        tell
    }

    /// Sets the in-point of the loop and of an exported range to the playhead.
    pub fn mark_in(&mut self)
        ensures
            *final(self) == (AppState {
                playback: Playback {
                    export_in: Some(old(self).playback.timeline_playhead),
                    ..old(self).playback
                },
                ..*old(self)
            }),
    {
        self.playback.export_in = Some(self.playback.timeline_playhead);
    }

    /// Sets the out-point of the loop and of an exported range to the playhead.
    pub fn mark_out(&mut self)
        ensures
            *final(self) == (AppState {
                playback: Playback {
                    export_out: Some(old(self).playback.timeline_playhead),
                    ..old(self).playback
                },
                ..*old(self)
            }),
    {
        self.playback.export_out = Some(self.playback.timeline_playhead);
    }

    /// Takes over what the source monitor's player has sent: that it can be
    /// controlled, and whether it plays a proxy.
    pub fn drain_player_handles(&mut self, got_handle: bool, proxy: Option<bool>)
        ensures
            *final(self) == (AppState {
                playback: Playback {
                    player: Playback::linked(old(self).playback.player, got_handle),
                    proxy_active: if old(self).playback.proxy_pending && proxy is Some {
                        proxy->0
                    } else {
                        old(self).playback.proxy_active
                    },
                    proxy_pending: old(self).playback.proxy_pending && proxy is None,
                    ..old(self).playback
                },
                ..*old(self)
            }),
    {
        let mut p = self.playback;
        p.player = link_with(p.player, got_handle);
        if p.proxy_pending {
            if let Some(active) = proxy {
                p.proxy_active = active;
                p.proxy_pending = false;
            }
        }
        self.playback = p;
    }

    /// Takes over that the timeline's player can be controlled, and ends it once it
    /// has come to its end. Says whether it is to be told so.
    pub fn drain_timeline_player(&mut self, got_handle: bool) -> (tell: bool)
        ensures
            ({
                let link = Playback::linked(old(self).playback.timeline_player, got_handle);
                &&& tell == (link.thread && link.finished && link.handle)
                &&& *final(self) == (AppState {
                    playback: if tell {
                        old(self).playback.without_timeline()
                    } else {
                        Playback { timeline_player: link, ..old(self).playback }
                    },
                    ..*old(self)
                })
            }),
    {
        let link = link_with(self.playback.timeline_player, got_handle);
        self.playback.timeline_player = link;
        if link.thread && link.finished && link.handle {
            self.stop_timeline_player()
        } else {
            false
        }
    }

    /// Takes note of the time of a frame that is shown. Says where the timeline's
    /// player has to go back to, where it loops.
    pub fn frame_shown(&mut self, pts: Duration) -> (seek: Option<Duration>)
        ensures
            seek == (if old(self).playback.timeline_player.runs() {
                old(self).playback.loops_to(pts)
            } else {
                None
            }),
            *final(self) == (AppState {
                playback: if !old(self).playback.timeline_player.runs() {
                    Playback { current_pts: Some(pts), ..old(self).playback }
                } else {
                    Playback {
                        timeline_playhead: if seek is Some {
                            seek->0
                        } else {
                            pts
                        },
                        ..old(self).playback
                    }
                },
                ..*old(self)
            }),
    {
        let p = self.playback;
        if p.timeline_player.is_running() {
            let seek = match (p.export_in, p.export_out) {
                (Some(from), Some(to)) => if p.timeline_loop_enabled && !p.timeline_is_paused
                    && from.nanos < to.nanos && pts.nanos >= to.nanos && p.timeline_player.handle {
                    Some(from)
                } else {
                    None
                },
                _ => None,
            };
            let at = match seek {
                Some(from) => from,
                None => pts,
            };
            self.playback.timeline_playhead = at;
            seek
        } else {
            self.playback.current_pts = Some(pts);
            None
        }
    }
}

/// In a loop the playhead never comes to rest at or behind the out-point.
pub proof fn loop_stays_inside(state: Playback, pts: Duration)
    requires
        state.timeline_loop_enabled,
        !state.timeline_is_paused,
        state.timeline_player.runs(),
        state.timeline_player.handle,
        state.export_in is Some,
        state.export_out is Some,
        state.export_in->0.nanos < state.export_out->0.nanos,
    ensures
        ({
            let seek = state.loops_to(pts);
            let playhead = if seek is Some { seek->0 } else { pts };
            playhead.nanos < state.export_out->0.nanos
        }),
{
}

/// The player gets the clips of a track in their order, each with its own settings and its
/// own source, where the track is heard and seen, and else none.
pub proof fn player_gets_the_clips(tracks: Seq<Lane>, track: int, sources: Seq<ImportedClip>)
    requires
        0 <= track < tracks.len(),
    ensures
        ({
            let d = lane_data(tracks, track, sources);
            let clips = tracks[track].clips;
            &&& !is_active(tracks, track) ==> d.len() == 0
            &&& is_active(tracks, track) ==> d.len() == clips.len()
            &&& is_active(tracks, track) ==> forall|i: int|
                0 <= i < clips.len() ==> {
                    let source = sources[clips[i].source_index as int];
                    &&& (#[trigger] d[i]).settings == clips[i]
                    &&& d[i].path == source.path
                    &&& source.video is Some ==> (d[i].width, d[i].height) == source.video->0
                    &&& source.video is None ==> d[i].width == 0 && d[i].height == 0
                }
        }),
{
}

/// The player's clip plays the clip's own piece of its source at the clip's own place,
/// with its own transition, and nothing else set.
pub proof fn player_plays_the_piece(d: TrackClipData, r: Clip)
    requires
        plays(d, r),
    ensures
        r.source@ == d.path@,
        r.offset == d.settings.start_on_track,
        r.in_point == d.settings.in_point,
        r.out_point == d.settings.out_point,
        r.transition == d.settings.transition,
        d.settings.transition is Some ==> r.transition_duration == d.settings.transition_duration,
        r.fade_in.nanos == 0 && r.fade_out.nanos == 0,
        r.video_effects@.len() == 0 && r.audio_effects@.len() == 0,
        r.speed.bits == 0x3f80_0000u32 && r.opacity.bits == 0x3f80_0000u32,
        r.volume_db.bits == 0 && r.x.bits == 0 && r.y.bits == 0,
{
}

/// A player that was started anew runs, is not paused, plays at normal speed and still has
/// to send its control; no edit is pending. All else stays.
pub proof fn restarted_player_runs(p: Playback)
    ensures
        ({
            let r = p.restarted();
            &&& r.timeline_player.runs() && !r.timeline_player.handle
            &&& r.timeline_player.handle_pending
            &&& !r.timeline_is_paused && !r.clips_moved_while_paused
            &&& r.audio_rate == 4
            &&& r == (Playback {
                audio_rate: r.audio_rate,
                timeline_player: r.timeline_player,
                timeline_is_paused: r.timeline_is_paused,
                clips_moved_while_paused: r.clips_moved_while_paused,
                ..p
            })
        }),
{
}

/// A click pauses a timeline that is not paused and lets a paused one play on, where the
/// player can be told. After clips were changed during the pause it is started anew, told or
/// not.
pub proof fn click_pauses_or_resumes(p: Playback)
    ensures
        p.pause_step() is Pause <==> !p.timeline_is_paused && p.timeline_player.handle,
        p.pause_step() is Play <==> p.timeline_is_paused && !p.clips_moved_while_paused
            && p.timeline_player.handle,
        p.pause_step() is Restart <==> p.timeline_is_paused && p.clips_moved_while_paused,
        p.pause_step() is Restart ==> p.pause_step()->tell == p.timeline_player.handle,
{
}

/// A loop goes back to its in-point, and only once its out-point is reached, while it is on
/// and plays, with its marks in order and a player that can be told.
pub proof fn loop_goes_back_to_its_start(p: Playback, pts: Duration)
    ensures
        p.loops_to(pts) is Some ==> p.loops_to(pts) == p.export_in,
        p.loops_to(pts) is Some <==> p.timeline_loop_enabled && !p.timeline_is_paused
            && p.timeline_player.handle && p.export_in is Some && p.export_out is Some
            && p.export_in->0.nanos < p.export_out->0.nanos && p.export_out->0.nanos <= pts.nanos,
{
}

/// A player can be controlled once its control has come, which it does at most once, and
/// keeps it from then on.
pub proof fn control_comes_once(link: PlayerLink, got: bool)
    ensures
        ({
            let r = Playback::linked(link, got);
            &&& link.handle ==> r.handle
            &&& r.handle && !link.handle ==> got && link.handle_pending
            &&& got && link.handle_pending ==> r.handle && !r.handle_pending
            &&& !got ==> r == link
            &&& r.thread == link.thread && r.finished == link.finished
            &&& Playback::linked(r, got) == r
        }),
{
}

} // verus!
