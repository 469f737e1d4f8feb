//! Tracks and the edits of their clips.

use crate::float::{
    clamp32, f32_of, lt32, F32, F32_FOUR, F32_MINUS_FORTY, F32_SIXTY, F32_TENTH, F32_TWELVE,
};
use crate::media::XfadeTransition;
use crate::state::{TitleClip, TrackKind};
use crate::text::{decimal, decimal_text};
use crate::time::Duration;
use crate::ordering::{
    in_order, place, placed, placed_in_order, slot_bounds, slot_from, sort, sorted,
    sorted_in_order, sorted_is_stable, with_key, Keyed,
};
use crate::timeline_clip::{same_style, TimelineClip};
use vstd::prelude::*;
use vstd::string::*;

verus! {

/// A track and its clips.
#[derive(Debug)]
pub struct Track {
    pub kind: TrackKind,
    pub clips: Vec<TimelineClip>,
    pub muted: bool,
    pub soloed: bool,
}

/// A track as a value.
#[verifier::ext_equal]
pub struct Lane {
    pub kind: TrackKind,
    pub clips: Seq<TimelineClip>,
    pub muted: bool,
    pub soloed: bool,
}

impl View for Track {
    type V = Lane;

    open spec fn view(&self) -> Lane {
        Lane { kind: self.kind, clips: self.clips@, muted: self.muted, soloed: self.soloed }
    }
}

/// The tracks as values.
pub open spec fn lanes(tracks: Seq<Track>) -> Seq<Lane> {
    tracks.map_values(|t: Track| t@)
}

/// The tracks of a project, video tracks before audio tracks, and its titles.
#[derive(Debug)]
pub struct TimelineState {
    pub tracks: Vec<Track>,
    pub pixels_per_second: F32,
    pub title_clips: Vec<TitleClip>,
}

/// A track without clips.
pub open spec fn empty_lane(kind: TrackKind) -> Lane {
    Lane { kind, clips: Seq::empty(), muted: false, soloed: false }
}

/// The tracks of a new timeline, all without clips: V1, V2 and A1.
pub open spec fn new_lanes() -> Seq<Lane> {
    seq![
        empty_lane(TrackKind::Video),
        empty_lane(TrackKind::Video),
        empty_lane(TrackKind::Audio),
    ]
}

impl Track {
    /// A track without clips.
    pub fn empty(kind: TrackKind) -> (t: Track)
        ensures
            t@ == empty_lane(kind),
    {
        let t = Track { kind, clips: Vec::new(), muted: false, soloed: false };
        assert(t@ =~= empty_lane(kind));
        t
    }
}

/// Where the run of video tracks from `from` on ends.
pub open spec fn video_end(tracks: Seq<Lane>, from: int) -> int
    decreases tracks.len() - from,
{
    if 0 <= from < tracks.len() && tracks[from].kind == TrackKind::Video {
        video_end(tracks, from + 1)
    } else {
        from
    }
}

/// All video tracks come before all audio tracks.
pub open spec fn video_first(tracks: Seq<Lane>) -> bool {
    forall|i: int|
        video_end(tracks, 0) <= i < tracks.len() ==> (#[trigger] tracks[i]).kind
            == TrackKind::Audio
}

pub proof fn video_end_bounds(tracks: Seq<Lane>, from: int)
    requires
        0 <= from <= tracks.len(),
    ensures
        from <= video_end(tracks, from) <= tracks.len(),
        forall|i: int|
            from <= i < video_end(tracks, from) ==> (#[trigger] tracks[i]).kind
                == TrackKind::Video,
        video_end(tracks, from) < tracks.len() ==> tracks[video_end(tracks, from)].kind
            == TrackKind::Audio,
    decreases tracks.len() - from,
{
    if from < tracks.len() && tracks[from].kind == TrackKind::Video {
        video_end_bounds(tracks, from + 1);
    }
}

impl Default for TimelineState {
    fn default() -> (t: Self)
        ensures
            lanes(t.tracks@) == new_lanes(),
            t.pixels_per_second.bits == F32_SIXTY,
            t.title_clips@.len() == 0,
    {
        let mut tracks: Vec<Track> = Vec::new();
        tracks.push(Track::empty(TrackKind::Video));
        tracks.push(Track::empty(TrackKind::Video));
        tracks.push(Track::empty(TrackKind::Audio));
        assert(lanes(tracks@) =~= new_lanes());
        TimelineState { tracks, pixels_per_second: F32::of(F32_SIXTY), title_clips: Vec::new() }
    }
}

impl TimelineState {
    /// The tracks as values.
    pub open spec fn lanes(self) -> Seq<Lane> {
        lanes(self.tracks@)
    }

    /// The number of video tracks.
    pub fn video_track_count(&self) -> (n: usize)
        ensures
            n == video_end(self.lanes(), 0),
            n <= self.tracks@.len(),
    {
        let mut n: usize = 0;
        while n < self.tracks.len() && self.tracks[n].kind == TrackKind::Video
            invariant
                n <= self.tracks@.len(),
                video_end(self.lanes(), 0) == video_end(self.lanes(), n as int),
            decreases self.tracks@.len() - n,
        {
            assert(self.lanes()[n as int].kind == TrackKind::Video);
            n = n + 1;
        }
        assert(n < self.tracks@.len() ==> self.lanes()[n as int].kind
            == self.tracks@[n as int].kind);
        n
    }

    /// The index of the first audio track.
    pub fn audio_track_start(&self) -> (n: usize)
        ensures
            n == video_end(self.lanes(), 0),
            n <= self.tracks@.len(),
    {
        self.video_track_count()
    }

    /// Adds an empty video track above the others, before the first audio track.
    pub fn add_video_track(&mut self)
        ensures
            final(self).lanes() == old(self).lanes().insert(
                video_end(old(self).lanes(), 0),
                empty_lane(TrackKind::Video),
            ),
            final(self).pixels_per_second == old(self).pixels_per_second,
            final(self).title_clips == old(self).title_clips,
    {
        let at: usize = self.audio_track_start();
        self.tracks.insert(at, Track::empty(TrackKind::Video));
        assert(self.lanes() =~= old(self).lanes().insert(
            at as int,
            empty_lane(TrackKind::Video),
        ));
    }
}

/// A new video track keeps the video tracks before the audio tracks, and there is
/// one more of them.
pub proof fn new_video_track_keeps_order(tracks: Seq<Lane>)
    requires
        video_first(tracks),
    ensures
        ({
            let n = video_end(tracks, 0);
            let more = tracks.insert(n, empty_lane(TrackKind::Video));
            &&& video_first(more)
            &&& video_end(more, 0) == n + 1
            &&& forall|i: int| 0 <= i < n ==> more[i] == tracks[i]
            &&& forall|i: int| n <= i < tracks.len() ==> more[i + 1] == #[trigger] tracks[i]
        }),
{
    let n = video_end(tracks, 0);
    let more = tracks.insert(n, empty_lane(TrackKind::Video));
    video_end_bounds(tracks, 0);
    video_end_bounds(more, 0);
    if video_end(more, 0) <= n {
        assert(more[video_end(more, 0)].kind == TrackKind::Video);
    }
    if video_end(more, 0) > n + 1 {
        assert(more[n + 1].kind == TrackKind::Video);
        assert(more[n + 1] == tracks[n]);
    }
}

// ── Mute and solo ─────────────────────────────────────────────────────────────

/// Some track is soloed.
pub open spec fn any_solo(tracks: Seq<Lane>) -> bool {
    exists|i: int| 0 <= i < tracks.len() && (#[trigger] tracks[i]).soloed
}

/// The track is heard and seen: where any track is soloed, the soloed ones are;
/// else all that are not muted.
pub open spec fn is_active(tracks: Seq<Lane>, idx: int) -> bool {
    if any_solo(tracks) {
        tracks[idx].soloed
    } else {
        !tracks[idx].muted
    }
}

/// Whether the track is heard and seen.
pub fn track_is_active(tracks: &Vec<Track>, idx: usize) -> (r: bool)
    requires
        idx < tracks@.len(),
    ensures
        r == is_active(lanes(tracks@), idx as int),
{
    let mut solo = false;
    let mut i: usize = 0;
    while i < tracks.len()
        invariant
            i <= tracks@.len(),
            solo == exists|k: int| 0 <= k < i && (#[trigger] lanes(tracks@)[k]).soloed,
        decreases tracks@.len() - i,
    {
        assert(lanes(tracks@)[i as int].soloed == tracks@[i as int].soloed);
        if tracks[i].soloed {
            solo = true;
        }
        i = i + 1;
    }
    assert(lanes(tracks@)[idx as int] == tracks@[idx as int]@);
    if solo {
        tracks[idx].soloed
    } else {
        !tracks[idx].muted
    }
}

// ── Labels ────────────────────────────────────────────────────────────────────

/// How many of the first `n` tracks are of a kind.
pub open spec fn count_kind(tracks: Seq<Lane>, kind: TrackKind, n: int) -> nat
    decreases n,
{
    if n <= 0 {
        0
    } else if tracks[n - 1].kind == kind {
        count_kind(tracks, kind, n - 1) + 1
    } else {
        count_kind(tracks, kind, n - 1)
    }
}

/// The label of a track: its kind, and its number among those of its kind.
pub open spec fn label_of(tracks: Seq<Lane>, idx: int) -> Seq<char> {
    let kind = tracks[idx].kind;
    (if kind == TrackKind::Video {
        "V"@
    } else {
        "A"@
    }) + decimal(count_kind(tracks, kind, idx + 1))
}

/// The label of a track.
pub fn track_label(tracks: &Vec<Track>, idx: usize) -> (s: String)
    requires
        idx < tracks@.len(),
    ensures
        s@ == label_of(lanes(tracks@), idx as int),
{
    let kind = tracks[idx].kind;
    let mut n: usize = 0;
    let mut i: usize = 0;
    while i < idx
        invariant
            i <= idx < tracks@.len(),
            n <= i,
            n == count_kind(lanes(tracks@), kind, i as int),
        decreases idx - i,
    {
        assert(lanes(tracks@)[i as int].kind == tracks@[i as int].kind);
        if tracks[i].kind == kind {
            n = n + 1;
        }
        i = i + 1;
    }
    assert(lanes(tracks@)[idx as int].kind == kind);
    assert(idx < tracks.len());
    let mut s = if kind == TrackKind::Video {
        "V".to_owned()
    } else {
        "A".to_owned()
    };
    s.append(decimal_text((n + 1) as u64).as_str());
    s
}

// ── Edits of clips ────────────────────────────────────────────────────────────

impl Keyed for TimelineClip {
    open spec fn key(self) -> int {
        self.start_on_track.nanos as int
    }

    fn sort_key(&self) -> (k: u128) {
        self.start_on_track.nanos
    }
}

/// A change of the timeline that needs to know nothing but the clips themselves.
#[derive(Debug)]
pub enum Edit {
    /// Moves an edge of a clip.
    Trim {
        track: usize,
        clip: usize,
        in_point: Option<Duration>,
        out_point: Option<Duration>,
        start: Duration,
    },
    Gain { track: usize, clip: usize, gain_db: F32 },
    Fade { track: usize, clip: usize, fade_in: Option<Duration>, fade_out: Option<Duration> },
    ToggleMute { track: usize },
    ToggleSolo { track: usize },
    /// Moves a clip in time and to another track.
    Move { src_track: usize, src_clip: usize, dst_track: usize, start: Duration },
    /// Puts a new clip on a track.
    Add { track: usize, new_clip: TimelineClip },
    Transition {
        track: usize,
        clip: usize,
        transition: Option<XfadeTransition>,
        duration: Duration,
    },
    Speed { track: usize, clip: usize, speed: F32 },
}

/// The edits of one frame take effect in this order.
pub open spec fn stage(e: Edit) -> int {
    match e {
        Edit::Trim { .. } => 0,
        Edit::Gain { .. } => 1,
        Edit::Fade { .. } => 2,
        Edit::ToggleMute { .. } => 3,
        Edit::ToggleSolo { .. } => 4,
        Edit::Move { .. } => 5,
        Edit::Add { .. } => 6,
        Edit::Transition { .. } => 7,
        Edit::Speed { .. } => 8,
    }
}

impl Keyed for Edit {
    open spec fn key(self) -> int {
        stage(self)
    }

    fn sort_key(&self) -> (k: u128) {
        match self {
            Edit::Trim { .. } => 0,
            Edit::Gain { .. } => 1,
            Edit::Fade { .. } => 2,
            Edit::ToggleMute { .. } => 3,
            Edit::ToggleSolo { .. } => 4,
            Edit::Move { .. } => 5,
            Edit::Add { .. } => 6,
            Edit::Transition { .. } => 7,
            Edit::Speed { .. } => 8,
        }
    }
}

/// Whether the edit names tracks that there are.
pub open spec fn names_tracks(e: Edit, tracks: nat) -> bool {
    match e {
        Edit::Trim { track, .. } => track < tracks,
        Edit::Gain { track, .. } => track < tracks,
        Edit::Fade { track, .. } => track < tracks,
        Edit::ToggleMute { track } => track < tracks,
        Edit::ToggleSolo { track } => track < tracks,
        Edit::Move { src_track, dst_track, .. } => src_track < tracks && dst_track < tracks,
        Edit::Add { track, .. } => track < tracks,
        Edit::Transition { track, .. } => track < tracks,
        Edit::Speed { track, .. } => track < tracks,
    }
}

/// The tracks with other clips on one of them.
pub open spec fn with_clips(tracks: Seq<Lane>, track: int, clips: Seq<TimelineClip>) -> Seq<Lane> {
    tracks.update(track, Lane { clips, ..tracks[track] })
}

/// The tracks with one clip replaced, where there is such a clip.
pub open spec fn with_clip(tracks: Seq<Lane>, track: int, clip: int, c: TimelineClip) -> Seq<Lane> {
    if clip < tracks[track].clips.len() {
        with_clips(tracks, track, tracks[track].clips.update(clip, c))
    } else {
        tracks
    }
}

/// The clips of a track, one of them starting at another time, in order.
pub open spec fn restarted(clips: Seq<TimelineClip>, clip: int, start: Duration) -> Seq<
    TimelineClip,
> {
    sorted(
        if clip < clips.len() {
            clips.update(clip, TimelineClip { start_on_track: start, ..clips[clip] })
        } else {
            clips
        },
    )
}

/// The tracks after a clip was moved from one of them to another.
pub open spec fn carried(
    tracks: Seq<Lane>,
    src_track: int,
    src_clip: int,
    dst_track: int,
    start: Duration,
) -> Seq<Lane> {
    if src_clip < tracks[src_track].clips.len() {
        let clip = TimelineClip {
            start_on_track: start,
            ..tracks[src_track].clips[src_clip]
        };
        let without = with_clips(tracks, src_track, tracks[src_track].clips.remove(src_clip));
        with_clips(without, dst_track, placed(without[dst_track].clips, clip))
    } else {
        tracks
    }
}

/// The tracks after an edit.
#[verifier::opaque]
pub open spec fn edited(tracks: Seq<Lane>, e: Edit) -> Seq<Lane> {
    match e {
        Edit::Trim { track, clip, in_point, out_point, start } => with_clip(
            tracks,
            track as int,
            clip as int,
            TimelineClip {
                in_point,
                out_point,
                start_on_track: start,
                ..tracks[track as int].clips[clip as int]
            },
        ),
        Edit::Gain { track, clip, gain_db } => with_clip(
            tracks,
            track as int,
            clip as int,
            TimelineClip {
                gain_db: clamp32(gain_db, f32_of(F32_MINUS_FORTY), f32_of(F32_TWELVE)),
                ..tracks[track as int].clips[clip as int]
            },
        ),
        Edit::Fade { track, clip, fade_in, fade_out } => {
            let c = tracks[track as int].clips[clip as int];
            with_clip(
                tracks,
                track as int,
                clip as int,
                TimelineClip {
                    fade_in: if fade_in is Some { fade_in->0 } else { c.fade_in },
                    fade_out: if fade_out is Some { fade_out->0 } else { c.fade_out },
                    ..c
                },
            )
        },
        Edit::ToggleMute { track } => {
            let t = tracks[track as int];
            tracks.update(track as int, Lane { muted: !t.muted, ..t })
        },
        Edit::ToggleSolo { track } => {
            let t = tracks[track as int];
            tracks.update(track as int, Lane { soloed: !t.soloed, ..t })
        },
        Edit::Move { src_track, src_clip, dst_track, start } => if src_track == dst_track {
            with_clips(
                tracks,
                src_track as int,
                restarted(tracks[src_track as int].clips, src_clip as int, start),
            )
        } else {
            carried(tracks, src_track as int, src_clip as int, dst_track as int, start)
        },
        Edit::Add { track, new_clip } => with_clips(
            tracks,
            track as int,
            placed(tracks[track as int].clips, new_clip),
        ),
        Edit::Transition { track, clip, transition, duration } => with_clip(
            tracks,
            track as int,
            clip as int,
            TimelineClip {
                transition,
                transition_duration: duration,
                ..tracks[track as int].clips[clip as int]
            },
        ),
        Edit::Speed { track, clip, speed } => with_clip(
            tracks,
            track as int,
            clip as int,
            TimelineClip {
                speed: clamp32(speed, f32_of(F32_TENTH), f32_of(F32_FOUR)),
                ..tracks[track as int].clips[clip as int]
            },
        ),
    }
}

/// The tracks after a list of edits, one after the other.
pub open spec fn all_edited(tracks: Seq<Lane>, edits: Seq<Edit>) -> Seq<Lane>
    decreases edits.len(),
{
    if edits.len() == 0 {
        tracks
    } else {
        edited(all_edited(tracks, edits.drop_last()), edits.last())
    }
}

impl TimelineState {
    fn set_clip(&mut self, track: usize, clip: usize, c: TimelineClip)
        requires
            track < old(self).tracks@.len(),
        ensures
            final(self).lanes() == with_clip(old(self).lanes(), track as int, clip as int, c),
            final(self).pixels_per_second == old(self).pixels_per_second,
            final(self).title_clips == old(self).title_clips,
    {
        if clip < self.tracks[track].clips.len() {
            self.tracks[track].clips[clip] = c;
        }
        assert(self.lanes() =~= with_clip(old(self).lanes(), track as int, clip as int, c));
    }

    /// The clip at a place, where there is one.
    pub fn clip_at(&self, track: usize, clip: usize) -> (c: Option<TimelineClip>)
        ensures
            c == (if track < self.lanes().len() && clip < self.lanes()[track as int].clips.len() {
                Some(self.lanes()[track as int].clips[clip as int])
            } else {
                None
            }),
    {
        if track < self.tracks.len() {
            let clips = &self.tracks[track].clips;
            if clip < clips.len() {
                return Some(clips[clip].clone());
            }
        }
        None
    }

    /// Puts a clip on a track, before the first that starts later.
    pub fn add_clip(&mut self, track: usize, new_clip: TimelineClip)
        requires
            track < old(self).tracks@.len(),
        ensures
            final(self).lanes() == with_clips(
                old(self).lanes(),
                track as int,
                placed(old(self).lanes()[track as int].clips, new_clip),
            ),
            final(self).pixels_per_second == old(self).pixels_per_second,
            final(self).title_clips == old(self).title_clips,
    {
        place(&mut self.tracks[track].clips, new_clip);
        assert(self.lanes() =~= with_clips(
            old(self).lanes(),
            track as int,
            placed(old(self).lanes()[track as int].clips, new_clip),
        ));
    }

    /// Gives a clip another start; the clips of the track stay in order.
    pub fn restart_clip(&mut self, track: usize, clip: usize, start: Duration)
        requires
            track < old(self).tracks@.len(),
        ensures
            final(self).lanes() == with_clips(
                old(self).lanes(),
                track as int,
                restarted(old(self).lanes()[track as int].clips, clip as int, start),
            ),
            final(self).pixels_per_second == old(self).pixels_per_second,
            final(self).title_clips == old(self).title_clips,
    {
        let mut clips: Vec<TimelineClip> = Vec::new();
        std::mem::swap(&mut clips, &mut self.tracks[track].clips);
        if clip < clips.len() {
            clips[clip].start_on_track = start;
        }
        self.tracks[track].clips = sort(clips);
        assert(self.lanes() =~= with_clips(
            old(self).lanes(),
            track as int,
            restarted(old(self).lanes()[track as int].clips, clip as int, start),
        ));
    }

    /// Moves a clip to another track.
    pub fn carry_clip(&mut self, src_track: usize, src_clip: usize, dst_track: usize, start: Duration)
        requires
            src_track < old(self).tracks@.len(),
            dst_track < old(self).tracks@.len(),
        ensures
            final(self).lanes() == carried(
                old(self).lanes(),
                src_track as int,
                src_clip as int,
                dst_track as int,
                start,
            ),
            final(self).pixels_per_second == old(self).pixels_per_second,
            final(self).title_clips == old(self).title_clips,
    {
        if src_clip < self.tracks[src_track].clips.len() {
            let mut clip = self.tracks[src_track].clips.remove(src_clip);
            clip.start_on_track = start;
            assert(self.lanes() =~= with_clips(
                old(self).lanes(),
                src_track as int,
                old(self).lanes()[src_track as int].clips.remove(src_clip as int),
            ));
            self.add_clip(dst_track, clip);
        }
    }

    /// Makes an edit.
    #[verifier::rlimit(60)]
    #[verifier::spinoff_prover]
    pub fn apply(&mut self, e: Edit)
        requires
            names_tracks(e, old(self).tracks@.len()),
        ensures
            final(self).lanes() == edited(old(self).lanes(), e),
            final(self).pixels_per_second == old(self).pixels_per_second,
            final(self).title_clips == old(self).title_clips,
    {
        reveal(edited);
        match e {
            Edit::Trim { track, clip, in_point, out_point, start } => {
                if let Some(mut c) = self.clip_at(track, clip) {
                    c.in_point = in_point;
                    c.out_point = out_point;
                    c.start_on_track = start;
                    self.set_clip(track, clip, c);
                }
            },
            Edit::Gain { track, clip, gain_db } => {
                if let Some(mut c) = self.clip_at(track, clip) {
                    c.gain_db = gain_db.clamp(F32::of(F32_MINUS_FORTY), F32::of(F32_TWELVE));
                    self.set_clip(track, clip, c);
                }
            },
            Edit::Fade { track, clip, fade_in, fade_out } => {
                if let Some(mut c) = self.clip_at(track, clip) {
                    if let Some(d) = fade_in {
                        c.fade_in = d;
                    }
                    if let Some(d) = fade_out {
                        c.fade_out = d;
                    }
                    self.set_clip(track, clip, c);
                }
            },
            Edit::ToggleMute { track } => {
                self.tracks[track].muted = !self.tracks[track].muted;
                assert(self.lanes() =~= edited(old(self).lanes(), e));
            },
            Edit::ToggleSolo { track } => {
                self.tracks[track].soloed = !self.tracks[track].soloed;
                assert(self.lanes() =~= edited(old(self).lanes(), e));
            },
            Edit::Move { src_track, src_clip, dst_track, start } => {
                if src_track == dst_track {
                    self.restart_clip(src_track, src_clip, start);
                } else {
                    self.carry_clip(src_track, src_clip, dst_track, start);
                }
            },
            Edit::Add { track, new_clip } => {
                self.add_clip(track, new_clip);
            },
            Edit::Transition { track, clip, transition, duration } => {
                if let Some(mut c) = self.clip_at(track, clip) {
                    c.transition = transition;
                    c.transition_duration = duration;
                    self.set_clip(track, clip, c);
                }
            },
            Edit::Speed { track, clip, speed } => {
                if let Some(mut c) = self.clip_at(track, clip) {
                    c.speed = speed.clamp(F32::of(F32_TENTH), F32::of(F32_FOUR));
                    self.set_clip(track, clip, c);
                }
            },
        }
    }

    /// Makes the edits of a frame, by stage.
    pub fn apply_edits(&mut self, edits: Vec<Edit>)
        requires
            forall|i: int|
                0 <= i < edits@.len() ==> names_tracks(
                    #[trigger] edits@[i],
                    old(self).tracks@.len(),
                ),
        ensures
            final(self).lanes() == all_edited(old(self).lanes(), sorted(edits@)),
            final(self).pixels_per_second == old(self).pixels_per_second,
            final(self).title_clips == old(self).title_clips,
    {
        let ghost all = sorted(edits@);
        proof {
            sorted_in_order(edits@);
            assert forall|i: int| 0 <= i < all.len() implies names_tracks(
                #[trigger] all[i],
                self.tracks@.len(),
            ) by {
                all.to_multiset_ensures();
                edits@.to_multiset_ensures();
                assert(all.contains(all[i]));
                assert(all.to_multiset().count(all[i]) > 0);
                assert(edits@.to_multiset().count(all[i]) > 0);
                assert(edits@.contains(all[i]));
            }
            assert(all.take(0) =~= Seq::empty());
        }
        let in_stages = sort(edits);
        let ghost before = *self;
        for e in it: in_stages
            invariant
                it.seq() == all,
                forall|i: int|
                    0 <= i < all.len() ==> names_tracks(#[trigger] all[i], before.tracks@.len()),
                self.tracks@.len() == before.tracks@.len(),
                self.lanes() == all_edited(before.lanes(), all.take(it.index() as int)),
                self.pixels_per_second == before.pixels_per_second,
                self.title_clips == before.title_clips,
        {
            let ghost so_far = self.lanes();
            proof {
                let n = it.index() as int;
                assert(all.take(n + 1).drop_last() =~= all.take(n));
                assert(all.take(n + 1).last() == e);
            }
            self.apply(e);
            proof {
                reveal(edited);
                assert(self.lanes().len() == so_far.len());
            }
        }
        assert(all.take(all.len() as int) =~= all);
    }
}

/// The clips of every track are in order of time.
pub open spec fn all_in_order(tracks: Seq<Lane>) -> bool {
    forall|i: int| 0 <= i < tracks.len() ==> in_order((#[trigger] tracks[i]).clips)
}

/// Moving, adding and restyling clips keeps the clips of every track in order of
/// time. (A trim may move a clip's start past its neighbour's.)
pub proof fn edits_keep_order(tracks: Seq<Lane>, e: Edit)
    requires
        all_in_order(tracks),
        names_tracks(e, tracks.len()),
        !(e is Trim),
    ensures
        all_in_order(edited(tracks, e)),
{
    reveal(edited);
    let r = edited(tracks, e);
    match e {
        Edit::Move { src_track, src_clip, dst_track, start } => {
            let s = src_track as int;
            let d = dst_track as int;
            let k = src_clip as int;
            if s == d {
                let changed = if k < tracks[s].clips.len() {
                    tracks[s].clips.update(
                        k,
                        TimelineClip { start_on_track: start, ..tracks[s].clips[k] },
                    )
                } else {
                    tracks[s].clips
                };
                sorted_in_order(changed);
            } else if k < tracks[s].clips.len() {
                let clip = TimelineClip { start_on_track: start, ..tracks[s].clips[k] };
                let rest = tracks[s].clips.remove(k);
                assert forall|i: int, j: int| 0 <= i <= j < rest.len() implies #[trigger] rest[i].key()
                    <= #[trigger] rest[j].key() by {
                    let a = if i < k { i } else { i + 1 };
                    let b = if j < k { j } else { j + 1 };
                    assert(rest[i] == tracks[s].clips[a]);
                    assert(rest[j] == tracks[s].clips[b]);
                    assert(in_order(tracks[s].clips));
                }
                assert(in_order(tracks[d].clips));
                placed_in_order(tracks[d].clips, clip);
            }
            assert forall|i: int| 0 <= i < r.len() implies in_order((#[trigger] r[i]).clips) by {
                if i != s && i != d {
                    assert(r[i] == tracks[i]);
                }
            }
        },
        Edit::Add { track, new_clip } => {
            assert(in_order(tracks[track as int].clips));
            placed_in_order(tracks[track as int].clips, new_clip);
            assert forall|i: int| 0 <= i < r.len() implies in_order((#[trigger] r[i]).clips) by {
                if i != track {
                    assert(r[i] == tracks[i]);
                }
            }
        },
        _ => {
            assert forall|i: int| 0 <= i < r.len() implies in_order((#[trigger] r[i]).clips) by {
                assert(in_order(tracks[i].clips));
                assert(r[i].clips.len() == tracks[i].clips.len());
                assert forall|a: int, b: int| 0 <= a <= b < r[i].clips.len() implies #[trigger] r[
                i].clips[a].key() <= #[trigger] r[i].clips[b].key() by {
                    assert(tracks[i].clips[a].key() <= tracks[i].clips[b].key());
                }
            }
        },
    }
}

/// The clips of all tracks together.
pub open spec fn all_clips(tracks: Seq<Lane>) -> vstd::multiset::Multiset<TimelineClip>
    decreases tracks.len(),
{
    if tracks.len() == 0 {
        vstd::multiset::Multiset::empty()
    } else {
        all_clips(tracks.drop_last()).add(tracks.last().clips.to_multiset())
    }
}

proof fn all_clips_of_changed_track(tracks: Seq<Lane>, track: int, clips: Seq<TimelineClip>)
    requires
        0 <= track < tracks.len(),
    ensures
        forall|x: TimelineClip|
            #![trigger all_clips(with_clips(tracks, track, clips)).count(x)]
            all_clips(with_clips(tracks, track, clips)).count(x)
                + tracks[track].clips.to_multiset().count(x) == all_clips(tracks).count(x)
                + clips.to_multiset().count(x),
    decreases tracks.len(),
{
    let changed = with_clips(tracks, track, clips);
    if track == tracks.len() - 1 {
        assert(changed.drop_last() =~= tracks.drop_last());
    } else {
        all_clips_of_changed_track(tracks.drop_last(), track, clips);
        assert(changed.drop_last() =~= with_clips(tracks.drop_last(), track, clips));
        assert forall|x: TimelineClip|
            #![trigger all_clips(with_clips(tracks, track, clips)).count(x)]
            all_clips(changed).count(x) + tracks[track].clips.to_multiset().count(x) == all_clips(
                tracks,
            ).count(x) + clips.to_multiset().count(x) by {
            assert(all_clips(with_clips(tracks.drop_last(), track, clips)).count(x)
                + tracks[track].clips.to_multiset().count(x) == all_clips(tracks.drop_last()).count(x)
                + clips.to_multiset().count(x));
        }
    }
}

/// Moving a clip changes nothing but that clip's start: the timeline holds the same
/// clips as before, this one at its new time.
pub proof fn move_keeps_clips(
    tracks: Seq<Lane>,
    src_track: usize,
    src_clip: usize,
    dst_track: usize,
    start: Duration,
)
    requires
        src_track < tracks.len(),
        dst_track < tracks.len(),
        src_clip < tracks[src_track as int].clips.len(),
    ensures
        ({
            let c = tracks[src_track as int].clips[src_clip as int];
            let e = Edit::Move { src_track, src_clip, dst_track, start };
            all_clips(edited(tracks, e)).insert(c) =~= all_clips(tracks).insert(
                TimelineClip { start_on_track: start, ..c },
            )
        }),
{
    let s = src_track as int;
    let d = dst_track as int;
    let k = src_clip as int;
    let clips = tracks[s].clips;
    let c = clips[k];
    let moved = TimelineClip { start_on_track: start, ..c };
    reveal(edited);
    clips.to_multiset_ensures();
    if s == d {
        sorted_in_order(clips.update(k, moved));
        vstd::seq_lib::to_multiset_update(clips, k, moved);
        let now = restarted(clips, k, start);
        all_clips_of_changed_track(tracks, s, now);
        assert(clips.to_multiset().count(c) > 0) by {
            assert(clips.contains(clips[k]));
        }
        let after = all_clips(with_clips(tracks, s, now));
        assert forall|x: TimelineClip| after.insert(c).count(x) == all_clips(tracks).insert(
            moved,
        ).count(x) by {
            assert(after.count(x) + clips.to_multiset().count(x) == all_clips(tracks).count(x)
                + now.to_multiset().count(x));
        }
    } else {
        let rest = clips.remove(k);
        vstd::seq_lib::to_multiset_remove(clips, k);
        assert(clips.to_multiset().count(c) > 0) by {
            assert(clips.contains(clips[k]));
        }
        let without = with_clips(tracks, s, rest);
        all_clips_of_changed_track(tracks, s, rest);
        let there = without[d].clips;
        slot_bounds(there, moved.key(), 0);
        vstd::seq_lib::to_multiset_insert(there, slot_from(there, moved.key(), 0), moved);
        all_clips_of_changed_track(without, d, placed(there, moved));
        let after = all_clips(with_clips(without, d, placed(there, moved)));
        assert forall|x: TimelineClip| after.insert(c).count(x) == all_clips(tracks).insert(
            moved,
        ).count(x) by {
            assert(after.count(x) + there.to_multiset().count(x) == all_clips(without).count(x)
                + placed(there, moved).to_multiset().count(x));
            assert(all_clips(without).count(x) + clips.to_multiset().count(x) == all_clips(
                tracks,
            ).count(x) + rest.to_multiset().count(x));
        }
    }
}

// ── What edits do ─────────────────────────────────────────────────────────────

/// `kept` is what was asked for, or the limit that it lies beyond.
pub open spec fn keeps_between(kept: F32, asked: F32, lo: F32, hi: F32) -> bool {
    if lt32(asked, lo) {
        kept == lo
    } else if lt32(hi, asked) {
        kept == hi
    } else {
        kept == asked
    }
}

/// Whether all that changed is the clip at one place: the tracks are the same, with the
/// same clips in the same order but for that one.
pub open spec fn only_clip_changed(
    before: Seq<Track>,
    after: Seq<Track>,
    track: int,
    clip: int,
) -> bool {
    &&& after.len() == before.len()
    &&& forall|t: int|
        0 <= t < before.len() ==> {
            &&& (#[trigger] after[t]).kind == before[t].kind
            &&& after[t].muted == before[t].muted
            &&& after[t].soloed == before[t].soloed
            &&& after[t].clips@.len() == before[t].clips@.len()
        }
    &&& forall|t: int, i: int|
        0 <= t < before.len() && 0 <= i < before[t].clips@.len() && !(t == track && i == clip)
            ==> #[trigger] after[t].clips@[i] == before[t].clips@[i]
}

proof fn one_clip_changes(before: TimelineState, after: TimelineState, e: Edit, track: int, clip: int)
    requires
        0 <= track < before.tracks@.len(),
        0 <= clip,
        after.lanes() == edited(before.lanes(), e),
        e matches Edit::Trim { track: t, clip: c, .. } ==> t == track && c == clip,
        e matches Edit::Gain { track: t, clip: c, .. } ==> t == track && c == clip,
        e matches Edit::Fade { track: t, clip: c, .. } ==> t == track && c == clip,
        e matches Edit::Transition { track: t, clip: c, .. } ==> t == track && c == clip,
        e matches Edit::Speed { track: t, clip: c, .. } ==> t == track && c == clip,
        e is Trim || e is Gain || e is Fade || e is Transition || e is Speed,
    ensures
        only_clip_changed(before.tracks@, after.tracks@, track, clip),
        clip < before.tracks@[track].clips@.len() ==> after.tracks@[track].clips@[clip]
            == edited(before.lanes(), e)[track].clips[clip],
{
    reveal(edited);
    assert(after.tracks@.len() == after.lanes().len() && before.tracks@.len() == before.lanes().len());
    assert(after.lanes().len() == before.lanes().len());
    let was = before.lanes();
    let now = after.lanes();
    assert forall|t: int| 0 <= t < was.len() implies {
        &&& (#[trigger] after.tracks@[t]).kind == before.tracks@[t].kind
        &&& after.tracks@[t].muted == before.tracks@[t].muted
        &&& after.tracks@[t].soloed == before.tracks@[t].soloed
        &&& after.tracks@[t].clips@.len() == before.tracks@[t].clips@.len()
    } by {
        assert(now[t] == after.tracks@[t]@);
        assert(was[t] == before.tracks@[t]@);
    }
    assert forall|t: int, i: int|
        0 <= t < was.len() && 0 <= i < before.tracks@[t].clips@.len() && !(t == track && i
            == clip) implies #[trigger] after.tracks@[t].clips@[i]
        == before.tracks@[t].clips@[i] by {
        assert(now[t] == after.tracks@[t]@);
        assert(was[t] == before.tracks@[t]@);
    }
    assert(now[track] == after.tracks@[track]@);
}

/// A trim gives the named clip exactly the in-point, out-point and start that it names,
/// and changes nothing else.
pub proof fn trim_sets_the_edges(
    before: TimelineState,
    after: TimelineState,
    track: usize,
    clip: usize,
    in_point: Option<Duration>,
    out_point: Option<Duration>,
    start: Duration,
)
    requires
        track < before.tracks@.len(),
        after.lanes() == edited(
            before.lanes(),
            Edit::Trim { track, clip, in_point, out_point, start },
        ),
    ensures
        only_clip_changed(before.tracks@, after.tracks@, track as int, clip as int),
        clip < before.tracks@[track as int].clips@.len() ==> {
            let was = before.tracks@[track as int].clips@[clip as int];
            let now = after.tracks@[track as int].clips@[clip as int];
            &&& now.in_point == in_point
            &&& now.out_point == out_point
            &&& now.start_on_track == start
            &&& now.fade_in == was.fade_in && now.fade_out == was.fade_out
            &&& now.transition == was.transition && now.freeze == was.freeze
            &&& same_style(now, was)
        },
{
    reveal(edited);
    assert(after.tracks@.len() == after.lanes().len() && before.tracks@.len() == before.lanes().len());
    assert(after.lanes().len() == before.lanes().len());
    one_clip_changes(
        before,
        after,
        Edit::Trim { track, clip, in_point, out_point, start },
        track as int,
        clip as int,
    );
    assert(before.lanes()[track as int] == before.tracks@[track as int]@);
}

/// A change of gain gives the named clip the named gain, between minus forty and twelve
/// decibels, and changes nothing else.
pub proof fn gain_is_set(
    before: TimelineState,
    after: TimelineState,
    track: usize,
    clip: usize,
    gain_db: F32,
)
    requires
        track < before.tracks@.len(),
        after.lanes() == edited(before.lanes(), Edit::Gain { track, clip, gain_db }),
    ensures
        only_clip_changed(before.tracks@, after.tracks@, track as int, clip as int),
        clip < before.tracks@[track as int].clips@.len() ==> {
            let was = before.tracks@[track as int].clips@[clip as int];
            let now = after.tracks@[track as int].clips@[clip as int];
            &&& keeps_between(
                now.gain_db,
                gain_db,
                f32_of(0xc220_0000u32),
                f32_of(0x4140_0000u32),
            )
            &&& now == (TimelineClip { gain_db: now.gain_db, ..was })
        },
{
    reveal(edited);
    assert(after.tracks@.len() == after.lanes().len() && before.tracks@.len() == before.lanes().len());
    assert(after.lanes().len() == before.lanes().len());
    one_clip_changes(
        before,
        after,
        Edit::Gain { track, clip, gain_db },
        track as int,
        clip as int,
    );
    assert(before.lanes()[track as int] == before.tracks@[track as int]@);
}

/// A change of fades gives the named clip the fades that are named, leaves a fade that is
/// not named as it was, and changes nothing else.
pub proof fn fades_are_set(
    before: TimelineState,
    after: TimelineState,
    track: usize,
    clip: usize,
    fade_in: Option<Duration>,
    fade_out: Option<Duration>,
)
    requires
        track < before.tracks@.len(),
        after.lanes() == edited(before.lanes(), Edit::Fade { track, clip, fade_in, fade_out }),
    ensures
        only_clip_changed(before.tracks@, after.tracks@, track as int, clip as int),
        clip < before.tracks@[track as int].clips@.len() ==> {
            let was = before.tracks@[track as int].clips@[clip as int];
            let now = after.tracks@[track as int].clips@[clip as int];
            &&& fade_in is Some ==> now.fade_in == fade_in->0
            &&& fade_in is None ==> now.fade_in == was.fade_in
            &&& fade_out is Some ==> now.fade_out == fade_out->0
            &&& fade_out is None ==> now.fade_out == was.fade_out
            &&& now == (TimelineClip { fade_in: now.fade_in, fade_out: now.fade_out, ..was })
        },
{
    reveal(edited);
    assert(after.tracks@.len() == after.lanes().len() && before.tracks@.len() == before.lanes().len());
    assert(after.lanes().len() == before.lanes().len());
    one_clip_changes(
        before,
        after,
        Edit::Fade { track, clip, fade_in, fade_out },
        track as int,
        clip as int,
    );
    assert(before.lanes()[track as int] == before.tracks@[track as int]@);
}

/// A change of transition gives the named clip the named transition and its length, and
/// changes nothing else.
pub proof fn transition_is_set(
    before: TimelineState,
    after: TimelineState,
    track: usize,
    clip: usize,
    transition: Option<XfadeTransition>,
    duration: Duration,
)
    requires
        track < before.tracks@.len(),
        after.lanes() == edited(
            before.lanes(),
            Edit::Transition { track, clip, transition, duration },
        ),
    ensures
        only_clip_changed(before.tracks@, after.tracks@, track as int, clip as int),
        clip < before.tracks@[track as int].clips@.len() ==> {
            let was = before.tracks@[track as int].clips@[clip as int];
            let now = after.tracks@[track as int].clips@[clip as int];
            &&& now.transition == transition
            &&& now.transition_duration == duration
            &&& now == (TimelineClip {
                transition: now.transition,
                transition_duration: now.transition_duration,
                ..was
            })
        },
{
    reveal(edited);
    assert(after.tracks@.len() == after.lanes().len() && before.tracks@.len() == before.lanes().len());
    assert(after.lanes().len() == before.lanes().len());
    one_clip_changes(
        before,
        after,
        Edit::Transition { track, clip, transition, duration },
        track as int,
        clip as int,
    );
    assert(before.lanes()[track as int] == before.tracks@[track as int]@);
}

/// A change of speed gives the named clip the named speed, between a tenth and four times,
/// and changes nothing else.
pub proof fn speed_is_set(
    before: TimelineState,
    after: TimelineState,
    track: usize,
    clip: usize,
    speed: F32,
)
    requires
        track < before.tracks@.len(),
        after.lanes() == edited(before.lanes(), Edit::Speed { track, clip, speed }),
    ensures
        only_clip_changed(before.tracks@, after.tracks@, track as int, clip as int),
        clip < before.tracks@[track as int].clips@.len() ==> {
            let was = before.tracks@[track as int].clips@[clip as int];
            let now = after.tracks@[track as int].clips@[clip as int];
            &&& keeps_between(
                now.speed,
                speed,
                f32_of(0x3dcc_cccdu32),
                f32_of(0x4080_0000u32),
            )
            &&& now == (TimelineClip { speed: now.speed, ..was })
        },
{
    reveal(edited);
    assert(after.tracks@.len() == after.lanes().len() && before.tracks@.len() == before.lanes().len());
    assert(after.lanes().len() == before.lanes().len());
    one_clip_changes(
        before,
        after,
        Edit::Speed { track, clip, speed },
        track as int,
        clip as int,
    );
    assert(before.lanes()[track as int] == before.tracks@[track as int]@);
}

/// Muting or soloing turns that switch of that track over and changes nothing else.
pub proof fn switches_turn_over(
    before: TimelineState,
    after: TimelineState,
    track: usize,
    solo: bool,
)
    requires
        track < before.tracks@.len(),
        after.lanes() == edited(
            before.lanes(),
            if solo {
                Edit::ToggleSolo { track }
            } else {
                Edit::ToggleMute { track }
            },
        ),
    ensures
        after.tracks@.len() == before.tracks@.len(),
        after.tracks@[track as int].muted == (before.tracks@[track as int].muted != !solo),
        after.tracks@[track as int].soloed == (before.tracks@[track as int].soloed != solo),
        forall|t: int|
            0 <= t < before.tracks@.len() ==> {
                &&& (#[trigger] after.tracks@[t]).kind == before.tracks@[t].kind
                &&& after.tracks@[t].clips@ == before.tracks@[t].clips@
                &&& t != track ==> after.tracks@[t].muted == before.tracks@[t].muted
                    && after.tracks@[t].soloed == before.tracks@[t].soloed
            },
{
    reveal(edited);
    assert(after.tracks@.len() == after.lanes().len() && before.tracks@.len() == before.lanes().len());
    assert(after.lanes().len() == before.lanes().len());
    let was = before.lanes();
    let now = after.lanes();
    assert forall|t: int| 0 <= t < was.len() implies {
        &&& (#[trigger] after.tracks@[t]).kind == before.tracks@[t].kind
        &&& after.tracks@[t].clips@ == before.tracks@[t].clips@
        &&& t != track ==> after.tracks@[t].muted == before.tracks@[t].muted
            && after.tracks@[t].soloed == before.tracks@[t].soloed
    } by {
        assert(now[t] == after.tracks@[t]@);
        assert(was[t] == before.tracks@[t]@);
    }
    assert(now[track as int] == after.tracks@[track as int]@);
    assert(was[track as int] == before.tracks@[track as int]@);
}

/// Whether `now` is `was` with a clip put in between, behind all that start with it or
/// earlier and before the first that starts later.
pub open spec fn gained(was: Seq<TimelineClip>, now: Seq<TimelineClip>, c: TimelineClip) -> bool {
    exists|p: int|
        #![trigger was.insert(p, c)]
        0 <= p <= was.len() && now == was.insert(p, c) && (forall|i: int|
            0 <= i < p ==> (#[trigger] was[i]).start_on_track.nanos <= c.start_on_track.nanos) && (p
            < was.len() ==> was[p].start_on_track.nanos > c.start_on_track.nanos)
}

/// A new clip is put on the named track in its place in time; no other clip changes.
pub proof fn new_clip_is_put_in_its_place(
    before: TimelineState,
    after: TimelineState,
    track: usize,
    new_clip: TimelineClip,
)
    requires
        track < before.tracks@.len(),
        after.lanes() == edited(before.lanes(), Edit::Add { track, new_clip }),
    ensures
        after.tracks@.len() == before.tracks@.len(),
        gained(
            before.tracks@[track as int].clips@,
            after.tracks@[track as int].clips@,
            new_clip,
        ),
        forall|t: int|
            0 <= t < before.tracks@.len() ==> {
                &&& (#[trigger] after.tracks@[t]).kind == before.tracks@[t].kind
                &&& after.tracks@[t].muted == before.tracks@[t].muted
                &&& after.tracks@[t].soloed == before.tracks@[t].soloed
                &&& t != track ==> after.tracks@[t].clips@ == before.tracks@[t].clips@
            },
{
    reveal(edited);
    assert(after.tracks@.len() == after.lanes().len() && before.tracks@.len() == before.lanes().len());
    assert(after.lanes().len() == before.lanes().len());
    let was = before.lanes();
    let now = after.lanes();
    assert forall|t: int| 0 <= t < was.len() implies {
        &&& (#[trigger] after.tracks@[t]).kind == before.tracks@[t].kind
        &&& after.tracks@[t].muted == before.tracks@[t].muted
        &&& after.tracks@[t].soloed == before.tracks@[t].soloed
        &&& t != track ==> after.tracks@[t].clips@ == before.tracks@[t].clips@
    } by {
        assert(now[t] == after.tracks@[t]@);
        assert(was[t] == before.tracks@[t]@);
    }
    let clips = before.tracks@[track as int].clips@;
    assert(was[track as int].clips == clips);
    assert(now[track as int].clips == after.tracks@[track as int].clips@);
    slot_bounds(clips, new_clip.key(), 0);
    let p = slot_from(clips, new_clip.key(), 0);
    assert(after.tracks@[track as int].clips@ == clips.insert(p, new_clip));
}

/// A move to another track takes the clip from the one track and puts it on the other, at
/// its new time and otherwise as it was; no other clip changes, and without such a clip
/// nothing does.
pub proof fn clip_moves_to_its_track(
    before: TimelineState,
    after: TimelineState,
    src_track: usize,
    src_clip: usize,
    dst_track: usize,
    start: Duration,
)
    requires
        src_track < before.tracks@.len(),
        dst_track < before.tracks@.len(),
        src_track != dst_track,
        after.lanes() == edited(
            before.lanes(),
            Edit::Move { src_track, src_clip, dst_track, start },
        ),
    ensures
        ({
            let was = before.tracks@;
            let now = after.tracks@;
            let s = src_track as int;
            let d = dst_track as int;
            let k = src_clip as int;
            let there = k < was[s].clips@.len();
            &&& now.len() == was.len()
            &&& there ==> now[s].clips@ == was[s].clips@.remove(k)
            &&& there ==> gained(
                was[d].clips@,
                now[d].clips@,
                TimelineClip { start_on_track: start, ..was[s].clips@[k] },
            )
            &&& forall|t: int|
                0 <= t < was.len() ==> {
                    &&& (#[trigger] now[t]).kind == was[t].kind
                    &&& now[t].muted == was[t].muted
                    &&& now[t].soloed == was[t].soloed
                    &&& !there || (t != s && t != d) ==> now[t].clips@ == was[t].clips@
                }
        }),
{
    reveal(edited);
    assert(after.tracks@.len() == after.lanes().len() && before.tracks@.len() == before.lanes().len());
    assert(after.lanes().len() == before.lanes().len());
    let was = before.tracks@;
    let now = after.tracks@;
    let s = src_track as int;
    let d = dst_track as int;
    let k = src_clip as int;
    assert forall|t: int| 0 <= t < was.len() implies {
        &&& (#[trigger] now[t]).kind == was[t].kind
        &&& now[t].muted == was[t].muted
        &&& now[t].soloed == was[t].soloed
        &&& !(k < was[s].clips@.len()) || (t != s && t != d) ==> now[t].clips@ == was[t].clips@
    } by {
        assert(after.lanes()[t] == now[t]@);
        assert(before.lanes()[t] == was[t]@);
        assert(before.lanes()[s] == was[s]@);
    }
    assert(before.lanes()[s] == was[s]@ && before.lanes()[d] == was[d]@);
    assert(after.lanes()[s] == now[s]@ && after.lanes()[d] == now[d]@);
    if k < was[s].clips@.len() {
        let c = TimelineClip { start_on_track: start, ..was[s].clips@[k] };
        slot_bounds(was[d].clips@, c.key(), 0);
        let p = slot_from(was[d].clips@, c.key(), 0);
        assert(now[d].clips@ == was[d].clips@.insert(p, c));
    }
}

/// A move on one track gives the clip its new start and puts the clips in order of time;
/// among equal starts the order stays. The track has the same clips otherwise, and no
/// other track changes.
pub proof fn clip_moves_on_its_track(
    before: TimelineState,
    after: TimelineState,
    track: usize,
    clip: usize,
    start: Duration,
)
    requires
        track < before.tracks@.len(),
        clip < before.tracks@[track as int].clips@.len(),
        after.lanes() == edited(
            before.lanes(),
            Edit::Move { src_track: track, src_clip: clip, dst_track: track, start },
        ),
    ensures
        ({
            let was = before.tracks@;
            let now = after.tracks@;
            let t = track as int;
            let k = clip as int;
            let set = was[t].clips@.update(
                k,
                TimelineClip { start_on_track: start, ..was[t].clips@[k] },
            );
            &&& now.len() == was.len()
            &&& now[t].clips@.to_multiset() =~= set.to_multiset()
            &&& forall|i: int, j: int|
                0 <= i <= j < now[t].clips@.len() ==> (
                #[trigger] now[t].clips@[i]).start_on_track.nanos <= (
                #[trigger] now[t].clips@[j]).start_on_track.nanos
            &&& forall|at: int|
                #[trigger] with_key(now[t].clips@, at) == with_key(set, at)
            &&& forall|u: int|
                0 <= u < was.len() ==> {
                    &&& (#[trigger] now[u]).kind == was[u].kind
                    &&& now[u].muted == was[u].muted
                    &&& now[u].soloed == was[u].soloed
                    &&& u != t ==> now[u].clips@ == was[u].clips@
                }
        }),
{
    reveal(edited);
    assert(after.tracks@.len() == after.lanes().len() && before.tracks@.len() == before.lanes().len());
    assert(after.lanes().len() == before.lanes().len());
    let was = before.tracks@;
    let now = after.tracks@;
    let t = track as int;
    let k = clip as int;
    let set = was[t].clips@.update(k, TimelineClip { start_on_track: start, ..was[t].clips@[k] });
    assert forall|u: int| 0 <= u < was.len() implies {
        &&& (#[trigger] now[u]).kind == was[u].kind
        &&& now[u].muted == was[u].muted
        &&& now[u].soloed == was[u].soloed
        &&& u != t ==> now[u].clips@ == was[u].clips@
    } by {
        assert(after.lanes()[u] == now[u]@);
        assert(before.lanes()[u] == was[u]@);
    }
    assert(before.lanes()[t] == was[t]@ && after.lanes()[t] == now[t]@);
    assert(now[t].clips@ == sorted(set));
    sorted_in_order(set);
    assert forall|at: int| #[trigger] with_key(now[t].clips@, at) == with_key(set, at) by {
        sorted_is_stable(set, at);
    }
    assert forall|i: int, j: int| 0 <= i <= j < now[t].clips@.len() implies (
    #[trigger] now[t].clips@[i]).start_on_track.nanos <= (
    #[trigger] now[t].clips@[j]).start_on_track.nanos by {
        assert(now[t].clips@[i].key() <= now[t].clips@[j].key());
    }
}

/// The edits of a frame take effect by kind: trims, gains, fades, mutes, solos, moves, new
/// clips, transitions, speeds.
pub proof fn edits_take_effect_by_kind(a: Edit, b: Edit)
    ensures
        a is Trim && b is Gain ==> a.key() < b.key(),
        a is Gain && b is Fade ==> a.key() < b.key(),
        a is Fade && b is ToggleMute ==> a.key() < b.key(),
        a is ToggleMute && b is ToggleSolo ==> a.key() < b.key(),
        a is ToggleSolo && b is Move ==> a.key() < b.key(),
        a is Move && b is Add ==> a.key() < b.key(),
        a is Add && b is Transition ==> a.key() < b.key(),
        a is Transition && b is Speed ==> a.key() < b.key(),
        a is Trim && b is Trim ==> a.key() == b.key(),
        a is Gain && b is Gain ==> a.key() == b.key(),
        a is Fade && b is Fade ==> a.key() == b.key(),
        a is Move && b is Move ==> a.key() == b.key(),
        a is Add && b is Add ==> a.key() == b.key(),
        a is Transition && b is Transition ==> a.key() == b.key(),
        a is Speed && b is Speed ==> a.key() == b.key(),
{
}

/// Edits are made one after the other.
pub proof fn edits_follow_each_other(tracks: Seq<Lane>, first: Seq<Edit>, then_do: Edit)
    ensures
        all_edited(tracks, first.push(then_do)) == edited(all_edited(tracks, first), then_do),
        all_edited(tracks, Seq::empty()) == tracks,
{
    assert(first.push(then_do).drop_last() =~= first);
}

/// Where no track is soloed, a track is heard and seen unless it is muted. Where one is,
/// the soloed ones are, muted or not, and no other.
pub proof fn solo_goes_before_mute(tracks: Seq<Track>, idx: int)
    requires
        0 <= idx < tracks.len(),
    ensures
        (forall|i: int| 0 <= i < tracks.len() ==> !(#[trigger] tracks[i]).soloed) ==> (is_active(
            lanes(tracks),
            idx,
        ) <==> !tracks[idx].muted),
        (exists|i: int| 0 <= i < tracks.len() && (#[trigger] tracks[i]).soloed) ==> (is_active(
            lanes(tracks),
            idx,
        ) <==> tracks[idx].soloed),
{
    let l = lanes(tracks);
    assert(l[idx] == tracks[idx]@);
    if any_solo(l) {
        let k = choose|k: int| 0 <= k < l.len() && (#[trigger] l[k]).soloed;
        assert(tracks[k].soloed);
    }
    if exists|i: int| 0 <= i < tracks.len() && (#[trigger] tracks[i]).soloed {
        let k = choose|k: int| 0 <= k < tracks.len() && (#[trigger] tracks[k]).soloed;
        assert(l[k].soloed);
    }
}

proof fn count_in_front(tracks: Seq<Lane>, kind: TrackKind, n: int)
    requires
        0 <= n <= tracks.len(),
        video_first(tracks),
    ensures
        kind == TrackKind::Video && n <= video_end(tracks, 0) ==> count_kind(tracks, kind, n) == n,
        kind == TrackKind::Audio ==> count_kind(tracks, kind, n) == (if n <= video_end(tracks, 0) {
            0
        } else {
            n - video_end(tracks, 0)
        }),
    decreases n,
{
    video_end_bounds(tracks, 0);
    if n > 0 {
        count_in_front(tracks, kind, n - 1);
    }
}

/// Tracks are labelled by kind and number: the video tracks `V1`, `V2` and so on, and
/// behind them the audio tracks from `A1` on.
pub proof fn tracks_are_numbered_by_kind(tracks: Seq<Lane>, idx: int)
    requires
        0 <= idx < tracks.len(),
        video_first(tracks),
    ensures
        tracks[idx].kind == TrackKind::Video ==> label_of(tracks, idx) == "V"@ + decimal(
            (idx + 1) as nat,
        ),
        tracks[idx].kind == TrackKind::Audio ==> label_of(tracks, idx) == "A"@ + decimal(
            (idx + 1 - video_end(tracks, 0)) as nat,
        ),
{
    video_end_bounds(tracks, 0);
    count_in_front(tracks, tracks[idx].kind, idx);
    if tracks[idx].kind == TrackKind::Video && idx >= video_end(tracks, 0) {
        assert(tracks[idx].kind == TrackKind::Audio);
    }
    count_in_front(tracks, tracks[idx].kind, idx + 1);
}

/// A new timeline has two video tracks and one audio track behind them, all empty and
/// neither muted nor soloed.
pub proof fn new_timeline_has_three_tracks(i: int)
    requires
        0 <= i < 3,
    ensures
        new_lanes().len() == 3,
        new_lanes()[i].kind == (if i < 2 {
            TrackKind::Video
        } else {
            TrackKind::Audio
        }),
        new_lanes()[i].clips.len() == 0,
        !new_lanes()[i].muted && !new_lanes()[i].soloed,
{
}

/// A track is told by its kind, its clips in their order, and whether it is muted or soloed.
pub proof fn lane_tells_its_track(t: Track)
    ensures
        t@.kind == t.kind,
        t@.clips == t.clips@,
        t@.muted == t.muted,
        t@.soloed == t.soloed,
{
}

} // verus!
