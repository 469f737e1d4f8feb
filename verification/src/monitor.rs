//! The source monitor: seeking, marking, and the titles over the picture.

use crate::app_state::{AppState, Monitor, Playback, PlayerLink};
use crate::float::{F64, F64_ZERO};
use crate::imported::ImportedClip;
use crate::state::TitleClip;
use crate::time::{distance, Duration};
use vstd::prelude::*;

verus! {

/// The first of the keyframes up to `n` that is nearest to the target.
pub open spec fn nearest(keyframes: Seq<Duration>, target: Duration, n: int) -> int
    decreases n,
{
    if n <= 1 {
        0
    } else {
        let before = nearest(keyframes, target, n - 1);
        if distance(keyframes[n - 1].nanos as int, target.nanos as int) < distance(
            keyframes[before].nanos as int,
            target.nanos as int,
        ) {
            n - 1
        } else {
            before
        }
    }
}

/// Where a seek lands: on the nearest keyframe where that is near enough, else on the
/// target.
pub open spec fn snapped(keyframes: Seq<Duration>, target: Duration, radius: Duration) -> Duration {
    let at = keyframes[nearest(keyframes, target, keyframes.len() as int)];
    if keyframes.len() > 0 && distance(at.nanos as int, target.nanos as int) <= radius.nanos {
        at
    } else {
        target
    }
}

/// No keyframe is nearer than the chosen one, and none before it is as near.
pub proof fn nearest_is_nearest(keyframes: Seq<Duration>, target: Duration, n: int)
    requires
        1 <= n <= keyframes.len(),
    ensures
        0 <= nearest(keyframes, target, n) < n,
        forall|i: int|
            0 <= i < n ==> distance(
                keyframes[nearest(keyframes, target, n)].nanos as int,
                target.nanos as int,
            ) <= distance(#[trigger] keyframes[i].nanos as int, target.nanos as int),
        forall|i: int|
            0 <= i < nearest(keyframes, target, n) ==> distance(
                keyframes[nearest(keyframes, target, n)].nanos as int,
                target.nanos as int,
            ) < distance(#[trigger] keyframes[i].nanos as int, target.nanos as int),
    decreases n,
{
    if n > 1 {
        nearest_is_nearest(keyframes, target, n - 1);
    }
}

/// Where a seek lands.
pub fn snap_to_nearest_keyframe(
    target: Duration,
    keyframes: &Vec<Duration>,
    radius: Duration,
) -> (r: Duration)
    ensures
        r == snapped(keyframes@, target, radius),
{
    if keyframes.len() == 0 {
        return target;
    }
    let mut best: usize = 0;
    let mut i: usize = 1;
    while i < keyframes.len()
        invariant
            1 <= i <= keyframes@.len(),
            best < i,
            best == nearest(keyframes@, target, i as int),
        decreases keyframes@.len() - i,
    {
        if keyframes[i].abs_diff(target).nanos < keyframes[best].abs_diff(target).nanos {
            best = i;
        }
        i = i + 1;
    }
    let at = keyframes[best];
    if at.abs_diff(target).nanos <= radius.nanos {
        at
    } else {
        target
    }
}

/// How far from a keyframe a coarse seek still goes there: half a second.
pub const SEEK_RADIUS: u128 = 500_000_000;

/// Stops the source monitor's player. Says whether it is to be told so.
pub fn stop_player(state: &mut AppState) -> (tell: bool)
    ensures
        tell == old(state).playback.player.handle,
        *final(state) == (AppState {
            playback: old(state).playback.without_source(),
            ..*old(state)
        }),
{
    state.stop_source_monitor_player()
}

impl AppState {
    /// Where a seek goes: an exact one to the time itself, a coarse one to the nearest
    /// keyframe where that is near enough.
    pub fn seek_target(&self, at: Duration) -> (t: Duration)
        ensures
            t == (if self.monitor.seek_exact {
                at
            } else {
                snapped(self.monitor.keyframes@, at, Duration { nanos: SEEK_RADIUS })
            }),
    {
        if self.monitor.seek_exact {
            at
        } else {
            snap_to_nearest_keyframe(at, &self.monitor.keyframes, Duration { nanos: SEEK_RADIUS })
        }
    }

    /// Stops the source monitor: its player ends, no clip is open, and the seek bar goes
    /// back to the start. Says whether the player is to be told so.
    pub fn close_monitor(&mut self) -> (tell: bool)
        ensures
            tell == old(self).playback.player.handle,
            *final(self) == (AppState {
                playback: old(self).playback.without_source(),
                monitor: Monitor {
                    clip_index: None,
                    seek_pos_secs: F64 { bits: F64_ZERO },
                    ..old(self).monitor
                },
                ..*old(self)
            }),
    {
        let tell = stop_player(self);
        self.monitor.clip_index = None;
        self.monitor.seek_pos_secs = F64 { bits: F64_ZERO };
        tell
    }

    /// Takes note that a player of the source monitor was started.
    pub fn source_started(&mut self)
        ensures
            *final(self) == (AppState {
                playback: Playback {
                    audio_rate: old(self).playback.playback_rate,
                    player: PlayerLink {
                        thread: true,
                        finished: false,
                        handle: old(self).playback.player.handle,
                        handle_pending: true,
                    },
                    proxy_pending: true,
                    proxy_active: false,
                    is_paused: false,
                    ..old(self).playback
                },
                ..*old(self)
            }),
    {
        let p = self.playback;
        self.playback = Playback {
            audio_rate: p.playback_rate,
            player: PlayerLink {
                thread: true,
                finished: false,
                handle: p.player.handle,
                handle_pending: true,
            },
            proxy_pending: true,
            proxy_active: false,
            is_paused: false,
            ..p
        };
    }

    /// Pauses the source monitor's player or lets it play on, where it can be
    /// controlled. Says what it is told: whether it plays.
    pub fn toggle_source_pause(&mut self) -> (play: Option<bool>)
        ensures
            play == (if old(self).playback.player.handle {
                Some(old(self).playback.is_paused)
            } else {
                None
            }),
            *final(self) == (AppState {
                playback: Playback {
                    is_paused: if old(self).playback.player.handle {
                        !old(self).playback.is_paused
                    } else {
                        old(self).playback.is_paused
                    },
                    ..old(self).playback
                },
                ..*old(self)
            }),
    {
        if self.playback.player.handle {
            let play = self.playback.is_paused;
            self.playback.is_paused = !play;
            Some(play)
        } else {
            None
        }
    }

    /// Sets the rate of the source monitor, in quarters of normal speed. Says whether
    /// the player is to be told so.
    pub fn set_playback_rate(&mut self, rate: u32) -> (tell: bool)
        ensures
            tell == old(self).playback.player.handle,
            *final(self) == (AppState {
                playback: Playback { playback_rate: rate, audio_rate: rate, ..old(self).playback },
                ..*old(self)
            }),
    {
        self.playback.playback_rate = rate;
        self.playback.audio_rate = rate;
        self.playback.player.handle
    }

    /// Marks where an imported clip begins, where there is such a clip.
    pub fn mark_clip_in(&mut self, clip: usize, at: Duration)
        ensures
            *final(self) == (AppState { clips: final(self).clips, ..*old(self) }),
            final(self).clips@ == (if clip < old(self).clips@.len() {
                old(self).clips@.update(
                    clip as int,
                    ImportedClip { in_point: Some(at), ..old(self).clips@[clip as int] },
                )
            } else {
                old(self).clips@
            }),
    {
        if clip < self.clips.len() {
            self.clips[clip].in_point = Some(at);
        }
    }

    /// Marks where an imported clip ends, where there is such a clip.
    pub fn mark_clip_out(&mut self, clip: usize, at: Duration)
        ensures
            *final(self) == (AppState { clips: final(self).clips, ..*old(self) }),
            final(self).clips@ == (if clip < old(self).clips@.len() {
                old(self).clips@.update(
                    clip as int,
                    ImportedClip { out_point: Some(at), ..old(self).clips@[clip as int] },
                )
            } else {
                old(self).clips@
            }),
    {
        if clip < self.clips.len() {
            self.clips[clip].out_point = Some(at);
        }
    }
}

impl ImportedClip {
    /// Whether the clip has sound and no picture.
    pub fn is_audio_only(&self) -> (r: bool)
        ensures
            r == (self.video is None && self.has_audio),
    {
        self.video.is_none() && self.has_audio
    }

    /// Whether there is anything to play.
    pub fn has_media(&self) -> (r: bool)
        ensures
            r == (self.video is Some || self.has_audio),
    {
        self.video.is_some() || self.has_audio
    }

    /// Whether the in-point does not lie before the out-point.
    pub fn marks_crossed(&self) -> (r: bool)
        ensures
            r == (self.in_point is Some && self.out_point is Some && self.in_point->0.nanos
                >= self.out_point->0.nanos),
    {
        match (self.in_point, self.out_point) {
            (Some(i), Some(o)) => i.nanos >= o.nanos,
            _ => false,
        }
    }
}

/// Whether a title is seen at a time: it has text, has begun and has not ended.
pub open spec fn title_seen(t: TitleClip, at: Duration) -> bool {
    t.text@.len() > 0 && t.start_on_track.nanos <= at.nanos && at.nanos < t.start_on_track.nanos
        + t.duration.nanos
}

/// The places of the titles that are seen, in order, among the first `n`.
pub open spec fn titles_seen(titles: Seq<TitleClip>, at: Duration, n: int) -> Seq<usize>
    decreases n,
{
    if n <= 0 {
        Seq::empty()
    } else if title_seen(titles[n - 1], at) {
        titles_seen(titles, at, n - 1).push((n - 1) as usize)
    } else {
        titles_seen(titles, at, n - 1)
    }
}

/// The places of the titles that are seen at a time, in order.
pub fn visible_titles(titles: &Vec<TitleClip>, at: Duration) -> (r: Vec<usize>)
    ensures
        r@ == titles_seen(titles@, at, titles@.len() as int),
{
    let mut r: Vec<usize> = Vec::new();
    let mut i: usize = 0;
    while i < titles.len()
        invariant
            i <= titles@.len(),
            r@ == titles_seen(titles@, at, i as int),
        decreases titles@.len() - i,
    {
        let t = &titles[i];
        if t.text.as_str().unicode_len() > 0 && t.start_on_track.nanos <= at.nanos && at.nanos
            - t.start_on_track.nanos < t.duration.nanos {
            r.push(i);
        }
        i = i + 1;
    }
    r
}

/// A seek goes to a keyframe within the radius that no other is nearer than, or to the
/// target itself where no keyframe is within the radius.
pub proof fn seek_lands_near(keyframes: Seq<Duration>, target: Duration, radius: Duration)
    ensures
        ({
            let r = snapped(keyframes, target, radius);
            let off = if r.nanos < target.nanos {
                target.nanos - r.nanos
            } else {
                r.nanos - target.nanos
            };
            &&& off <= radius.nanos
            &&& r == target || keyframes.contains(r)
            &&& forall|i: int|
                0 <= i < keyframes.len() && (#[trigger] keyframes[i]).nanos + radius.nanos
                    >= target.nanos && keyframes[i].nanos <= target.nanos + radius.nanos ==> {
                    &&& keyframes.contains(r)
                    &&& off <= keyframes[i].nanos - target.nanos || off <= target.nanos
                        - keyframes[i].nanos
                }
        }),
{
    if keyframes.len() > 0 {
        let n = keyframes.len() as int;
        nearest_is_nearest(keyframes, target, n);
        let at = nearest(keyframes, target, n);
        assert(keyframes.contains(keyframes[at]));
        let r = snapped(keyframes, target, radius);
        assert forall|i: int|
            0 <= i < keyframes.len() && (#[trigger] keyframes[i]).nanos + radius.nanos
                >= target.nanos && keyframes[i].nanos <= target.nanos + radius.nanos implies {
            &&& keyframes.contains(r)
            &&& distance(r.nanos as int, target.nanos as int) <= distance(
                keyframes[i].nanos as int,
                target.nanos as int,
            )
        } by {
            assert(distance(keyframes[at].nanos as int, target.nanos as int) <= distance(
                keyframes[i].nanos as int,
                target.nanos as int,
            ));
        }
    }
}

/// The titles that are seen are exactly those with a text that have begun and not ended,
/// each once, in their order.
pub proof fn seen_titles_are_on(titles: Seq<TitleClip>, at: Duration, n: int)
    requires
        0 <= n <= titles.len() <= usize::MAX,
    ensures
        ({
            let r = titles_seen(titles, at, n);
            &&& forall|k: int|
                0 <= k < r.len() ==> (#[trigger] r[k]) < n && titles[r[k] as int].text@.len() > 0
                    && titles[r[k] as int].start_on_track.nanos <= at.nanos && at.nanos
                    < titles[r[k] as int].start_on_track.nanos + titles[r[k] as int].duration.nanos
            &&& forall|j: int, k: int| 0 <= j < k < r.len() ==> r[j] < r[k]
            &&& forall|i: int|
                0 <= i < n && (#[trigger] titles[i]).text@.len() > 0
                    && titles[i].start_on_track.nanos <= at.nanos < titles[i].start_on_track.nanos
                    + titles[i].duration.nanos ==> r.contains(i as usize)
        }),
    decreases n,
{
    if n > 0 {
        seen_titles_are_on(titles, at, n - 1);
        let some = titles_seen(titles, at, n - 1);
        let r = titles_seen(titles, at, n);
        assert forall|k: int| 0 <= k < some.len() implies #[trigger] r[k] == some[k] by {}
        assert forall|i: int|
            0 <= i < n && (#[trigger] titles[i]).text@.len() > 0 && titles[i].start_on_track.nanos
                <= at.nanos < titles[i].start_on_track.nanos
                + titles[i].duration.nanos implies r.contains(i as usize) by {
            if i < n - 1 {
                assert(some.contains(i as usize));
                let k = choose|k: int| 0 <= k < some.len() && some[k] == i as usize;
                assert(r[k] == i as usize);
            } else {
                assert(r[some.len() as int] == i as usize);
            }
        }
    }
}

} // verus!
