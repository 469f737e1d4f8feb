//! The clip browser: importing files, opening them in the monitor, and putting them on
//! the timeline.

use crate::app_state::{AppState, Browser, Monitor, Playback};
use crate::float::F32;
use crate::imported::ImportedClip;
use crate::jobs::{ProxyJobHandle, ProxyStatus};
use crate::preview::{length_shown, shown_length};
use crate::queue::QueueJobStatus;
use crate::time::{Duration, MAX_NANOS};
use crate::timeline::with_clips;
use crate::timeline_clip::{fresh_clip, TimelineClip};
use vstd::prelude::*;

verus! {

/// What is found out about a file after it was imported.
#[derive(Clone, Copy, PartialEq, Eq, Structural, Debug)]
pub struct AnalysisPlan {
    pub clip_index: usize,
    pub thumbnail: bool,
    pub scenes: bool,
    pub sprites: bool,
    pub silence: bool,
    pub waveform: bool,
}

/// What happens when a clip is opened in the monitor.
#[derive(Clone, Copy, PartialEq, Eq, Structural, Debug)]
pub struct OpenStep {
    /// The player so far is to be told to stop.
    pub stop: bool,
    /// A player is to be started, and the clip's keyframes are to be found.
    pub play: bool,
}

/// What is shown of a clip's proxy.
#[derive(Clone, Copy, PartialEq, Eq, Structural, Debug)]
pub enum ProxyBadge {
    Nothing,
    Ready,
    Running,
    Failed,
}

/// Whether a file at a place has a picture.
pub open spec fn has_picture(clips: Seq<ImportedClip>, clip: int) -> bool {
    clip < clips.len() && clips[clip].video is Some
}

/// The first proxy job of a clip from `from` on, or the end.
pub open spec fn first_job(jobs: Seq<ProxyJobHandle>, clip: usize, from: int) -> int
    decreases jobs.len() - from,
{
    if from < 0 || from >= jobs.len() || jobs[from].clip_index == clip {
        from
    } else {
        first_job(jobs, clip, from + 1)
    }
}

/// When a clip starts that is put behind the last one of a track.
pub open spec fn behind_last(clips: Seq<TimelineClip>, sources: Seq<ImportedClip>) -> int {
    if clips.len() == 0 {
        0
    } else {
        clips.last().start_on_track.nanos + shown_length(clips.last(), sources)
    }
}

impl AppState {
    /// Adds a file that was opened. Says what is to be found out about it: pictures,
    /// scenes and sprites only where it has a picture.
    pub fn import(&mut self, clip: ImportedClip) -> (plan: AnalysisPlan)
        ensures
            final(self).clips@ == old(self).clips@.push(clip),
            *final(self) == (AppState { clips: final(self).clips, ..*old(self) }),
            plan == (AnalysisPlan {
                clip_index: old(self).clips@.len() as usize,
                thumbnail: clip.video is Some,
                scenes: clip.video is Some,
                sprites: clip.video is Some,
                silence: true,
                waveform: true,
            }),
    {
        let clip_index: usize = self.clips.len();
        let picture = clip.video.is_some();
        self.clips.push(clip);
        AnalysisPlan {
            clip_index,
            thumbnail: picture,
            scenes: picture,
            sprites: picture,
            silence: true,
            waveform: true,
        }
    }

    /// Takes over the scenes that were found in a clip.
    pub fn scenes_found(&mut self, clip: usize, scenes: Vec<Duration>)
        ensures
            *final(self) == (AppState { clips: final(self).clips, ..*old(self) }),
            final(self).clips@ == (if clip < old(self).clips@.len() {
                old(self).clips@.update(
                    clip as int,
                    ImportedClip { scenes, ..old(self).clips@[clip as int] },
                )
            } else {
                old(self).clips@
            }),
    {
        if clip < self.clips.len() {
            self.clips[clip].scenes = scenes;
        }
    }

    /// Takes over the silence that was found in a clip.
    pub fn silence_found(&mut self, clip: usize, regions: Vec<(Duration, Duration)>)
        ensures
            *final(self) == (AppState { clips: final(self).clips, ..*old(self) }),
            final(self).clips@ == (if clip < old(self).clips@.len() {
                old(self).clips@.update(
                    clip as int,
                    ImportedClip { silence_regions: regions, ..old(self).clips@[clip as int] },
                )
            } else {
                old(self).clips@
            }),
    {
        if clip < self.clips.len() {
            self.clips[clip].silence_regions = regions;
        }
    }

    /// Takes over the waveform of a clip.
    pub fn waveform_found(&mut self, clip: usize, waveform: Vec<F32>)
        ensures
            *final(self) == (AppState { clips: final(self).clips, ..*old(self) }),
            final(self).clips@ == (if clip < old(self).clips@.len() {
                old(self).clips@.update(
                    clip as int,
                    ImportedClip { waveform, ..old(self).clips@[clip as int] },
                )
            } else {
                old(self).clips@
            }),
    {
        if clip < self.clips.len() {
            self.clips[clip].waveform = waveform;
        }
    }

    /// Selects a clip of the browser.
    pub fn select_import(&mut self, clip: usize)
        ensures
            *final(self) == (AppState {
                browser: Browser { selected_clip_index: Some(clip), ..old(self).browser },
                ..*old(self)
            }),
    {
        self.browser.selected_clip_index = Some(clip);
    }

    /// Opens a clip in the monitor: the player so far ends, and where the clip has a
    /// picture its keyframes are forgotten and a player is to be started.
    pub fn open_in_monitor(&mut self, clip: usize) -> (step: OpenStep)
        ensures
            step == (OpenStep {
                stop: old(self).playback.player.handle,
                play: has_picture(old(self).clips@, clip as int),
            }),
            final(self).monitor.keyframes@ == (if step.play {
                Seq::empty()
            } else {
                old(self).monitor.keyframes@
            }),
            *final(self) == (AppState {
                browser: Browser { selected_clip_index: Some(clip), ..old(self).browser },
                monitor: Monitor {
                    clip_index: Some(clip),
                    keyframes: final(self).monitor.keyframes,
                    ..old(self).monitor
                },
                playback: Playback {
                    proxy_active: old(self).playback.proxy_active,
                    ..old(self).playback.without_source()
                },
                ..*old(self)
            }),
    {
        let play = clip < self.clips.len() && self.clips[clip].video.is_some();
        let proxy_active = self.playback.proxy_active;
        let stop = self.stop_source_monitor_player();
        self.playback.proxy_active = proxy_active;
        self.browser.selected_clip_index = Some(clip);
        self.monitor.clip_index = Some(clip);
        if play {
            self.monitor.keyframes = Vec::new();
        }
        OpenStep { stop, play }
    }

    /// Puts a clip of the browser behind the last one of the bottom track.
    pub fn add_to_v1(&mut self, clip: usize)
        requires
            old(self).timeline.tracks@.len() > 0,
            behind_last(old(self).timeline.lanes()[0].clips, old(self).clips@) <= MAX_NANOS,
        ensures
            ({
                let was = old(self).timeline.lanes();
                let now = final(self).timeline.lanes();
                let marks = if clip < old(self).clips@.len() {
                    (
                        old(self).clips@[clip as int].in_point,
                        old(self).clips@[clip as int].out_point,
                    )
                } else {
                    (None, None)
                };
                &&& now[0].clips.len() == was[0].clips.len() + 1
                &&& fresh_clip(
                    now[0].clips.last(),
                    clip,
                    (Duration { nanos: behind_last(was[0].clips, old(self).clips@) as u128 }),
                    marks.0,
                    marks.1,
                )
                &&& now == with_clips(was, 0, was[0].clips.push(now[0].clips.last()))
            }),
            final(self).timeline.title_clips == old(self).timeline.title_clips,
            final(self).timeline.pixels_per_second == old(self).timeline.pixels_per_second,
            *final(self) == (AppState { timeline: final(self).timeline, ..*old(self) }),
    {
        let ghost was = self.timeline.lanes();
        let n: usize = self.timeline.tracks[0].clips.len();
        assert(was[0].clips == self.timeline.tracks@[0].clips@);
        let start = if n > 0 {
            let last = &self.timeline.tracks[0].clips[n - 1];
            last.start_on_track.plus(length_shown(last, &self.clips))
        } else {
            Duration::zero()
        };
        let (in_point, out_point) = if clip < self.clips.len() {
            (self.clips[clip].in_point, self.clips[clip].out_point)
        } else {
            (None, None)
        };
        let c = TimelineClip::new(clip, start, in_point, out_point);
        let ghost added = c;
        self.timeline.tracks[0].clips.push(c);
        proof {
            let now = self.timeline.lanes();
            assert(now[0].clips == was[0].clips.push(added));
            assert(now =~= with_clips(was, 0, was[0].clips.push(added)));
        }
    }

    /// What is shown of a clip's proxy.
    pub fn proxy_badge(&self, clip: usize) -> (b: ProxyBadge)
        requires
            clip < self.clips@.len(),
        ensures
            b == (if self.clips@[clip as int].proxy_path is Some {
                ProxyBadge::Ready
            } else {
                let i = first_job(self.jobs.proxy@, clip, 0);
                if i >= self.jobs.proxy@.len() {
                    ProxyBadge::Nothing
                } else {
                    match self.jobs.proxy@[i].status {
                        ProxyStatus::Running => ProxyBadge::Running,
                        ProxyStatus::Failed(_) => ProxyBadge::Failed,
                        ProxyStatus::Done(_) => ProxyBadge::Nothing,
                    }
                }
            }),
    {
        if self.clips[clip].proxy_path.is_some() {
            return ProxyBadge::Ready;
        }
        let jobs = &self.jobs.proxy;
        let mut i: usize = 0;
        while i < jobs.len() && jobs[i].clip_index != clip
            invariant
                i <= jobs@.len(),
                first_job(jobs@, clip, 0) == first_job(jobs@, clip, i as int),
            decreases jobs@.len() - i,
        {
            i = i + 1;
        }
        if i >= jobs.len() {
            return ProxyBadge::Nothing;
        }
        match &jobs[i].status {
            ProxyStatus::Running => ProxyBadge::Running,
            ProxyStatus::Failed(_) => ProxyBadge::Failed,
            ProxyStatus::Done(_) => ProxyBadge::Nothing,
        }
    }

    /// Whether the queue can be rendered: something waits, and nothing is running.
    pub fn can_render_all(&self) -> (r: bool)
        ensures
            r == ((exists|i: int|
                0 <= i < self.export.queue@.len() && (
                #[trigger] self.export.queue@[i]).status is Pending) && !(exists|i: int|
                0 <= i < self.export.queue@.len() && (
                #[trigger] self.export.queue@[i]).status is Running)),
    {
        let queue = &self.export.queue;
        let mut pending = false;
        let mut running = false;
        let mut i: usize = 0;
        while i < queue.len()
            invariant
                i <= queue@.len(),
                pending == exists|k: int| 0 <= k < i && (#[trigger] queue@[k]).status is Pending,
                running == exists|k: int| 0 <= k < i && (#[trigger] queue@[k]).status is Running,
            decreases queue@.len() - i,
        {
            match &queue[i].status {
                QueueJobStatus::Pending => {
                    pending = true;
                },
                QueueJobStatus::Running => {
                    running = true;
                },
                _ => {},
            }
            assert(queue@[i as int] == queue@[i as int]);
            i = i + 1;
        }
        pending && !running
    }
}

impl ImportedClip {
    /// Whether the marked part can be saved: both ends are marked.
    pub fn can_trim(&self) -> (r: bool)
        ensures
            r == (self.in_point is Some && self.out_point is Some),
    {
        self.in_point.is_some() && self.out_point.is_some()
    }
}

/// A clip that is put behind the others starts where the last one ends; on an empty track
/// it starts the timeline.
pub proof fn new_clip_follows_the_last(
    clips: Seq<TimelineClip>,
    last: TimelineClip,
    sources: Seq<ImportedClip>,
)
    ensures
        behind_last(Seq::empty(), sources) == 0,
        behind_last(clips.push(last), sources) - shown_length(last, sources)
            == last.start_on_track.nanos,
{
}

/// Only a file that is there and has a picture is opened with one.
pub proof fn picture_is_told_by_the_file(clips: Seq<ImportedClip>, clip: int)
    requires
        0 <= clip,
    ensures
        clip >= clips.len() ==> !has_picture(clips, clip),
        clip < clips.len() ==> has_picture(clips, clip) == (clips[clip].video is Some),
{
}

/// The job that is shown of a clip's proxies is the first one of that clip.
pub proof fn first_job_of_the_clip(jobs: Seq<ProxyJobHandle>, clip: usize)
    ensures
        ({
            let i = first_job(jobs, clip, 0);
            &&& 0 <= i <= jobs.len()
            &&& i < jobs.len() ==> jobs[i].clip_index == clip
            &&& forall|k: int| 0 <= k < i ==> (#[trigger] jobs[k]).clip_index != clip
        }),
{
    first_job_bounds(jobs, clip, 0);
}

proof fn first_job_bounds(jobs: Seq<ProxyJobHandle>, clip: usize, from: int)
    requires
        0 <= from <= jobs.len(),
    ensures
        from <= first_job(jobs, clip, from) <= jobs.len(),
        first_job(jobs, clip, from) < jobs.len() ==> jobs[first_job(jobs, clip, from)].clip_index
            == clip,
        forall|k: int|
            from <= k < first_job(jobs, clip, from) ==> (#[trigger] jobs[k]).clip_index != clip,
    decreases jobs.len() - from,
{
    if from < jobs.len() && jobs[from].clip_index != clip {
        first_job_bounds(jobs, clip, from + 1);
    }
}

} // verus!
