//! Deleting, duplicating and splitting clips of a track.

use crate::imported::ImportedClip;
use crate::ordering::{placed, slot_from, sort, sorted, sorted_in_order, Keyed};
use crate::time::{Duration, MAX_NANOS};
use crate::timeline::{lanes, with_clips, Lane, TimelineState};
use crate::timeline_clip::{effective_length, same_style, TimelineClip};
use vstd::prelude::*;

verus! {

/// A clip that is to be deleted. With `ripple` the clips behind it close the gap.
#[derive(Clone, Copy, PartialEq, Eq, Structural, Debug)]
pub struct Delete {
    pub track: usize,
    pub clip: usize,
    pub ripple: bool,
}

/// Later clips are deleted first, so that the places of earlier ones hold.
impl Keyed for Delete {
    open spec fn key(self) -> int {
        usize::MAX - self.clip
    }

    fn sort_key(&self) -> (k: u128) {
        (usize::MAX - self.clip) as u128
    }
}

/// How long each clip of a track is on the timeline, with its speed.
pub open spec fn lengths_fit(clips: Seq<TimelineClip>, lengths: Seq<Duration>) -> bool {
    &&& clips.len() == lengths.len()
    &&& forall|i: int|
        0 <= i < clips.len() ==> (#[trigger] clips[i]).start_on_track.nanos + lengths[i].nanos
            <= MAX_NANOS
}

/// How long each clip of each track is.
pub open spec fn all_lengths_fit(tracks: Seq<Lane>, lengths: Seq<Seq<Duration>>) -> bool {
    &&& tracks.len() == lengths.len()
    &&& forall|i: int| 0 <= i < tracks.len() ==> lengths_fit((#[trigger] tracks[i]).clips, lengths[i])
}

/// The clip, moved left by `gap` where it starts at `from` or later.
pub open spec fn pulled(c: TimelineClip, from: int, gap: int) -> TimelineClip {
    if c.start_on_track.nanos >= from {
        TimelineClip {
            start_on_track: Duration { nanos: (c.start_on_track.nanos - gap) as u128 },
            ..c
        }
    } else {
        c
    }
}

/// The clips of a track without one of them.
pub open spec fn without(
    clips: Seq<TimelineClip>,
    lengths: Seq<Duration>,
    clip: int,
    ripple: bool,
) -> Seq<TimelineClip> {
    let rest = clips.remove(clip);
    if ripple {
        let gap = lengths[clip].nanos as int;
        let from = clips[clip].start_on_track.nanos + gap;
        rest.map_values(|c: TimelineClip| pulled(c, from, gap))
    } else {
        rest
    }
}

/// The tracks, and the lengths of their clips, after a deletion. One of a clip that
/// is not there changes nothing.
pub open spec fn deleted(tracks: Seq<Lane>, lengths: Seq<Seq<Duration>>, d: Delete) -> (
    Seq<Lane>,
    Seq<Seq<Duration>>,
) {
    let t = d.track as int;
    let c = d.clip as int;
    if c < tracks[t].clips.len() {
        (
            with_clips(tracks, t, without(tracks[t].clips, lengths[t], c, d.ripple)),
            lengths.update(t, lengths[t].remove(c)),
        )
    } else {
        (tracks, lengths)
    }
}

/// The tracks, and the lengths of their clips, after a list of deletions.
pub open spec fn all_deleted(
    tracks: Seq<Lane>,
    lengths: Seq<Seq<Duration>>,
    deletes: Seq<Delete>,
) -> (Seq<Lane>, Seq<Seq<Duration>>)
    decreases deletes.len(),
{
    if deletes.len() == 0 {
        (tracks, lengths)
    } else {
        let before = all_deleted(tracks, lengths, deletes.drop_last());
        deleted(before.0, before.1, deletes.last())
    }
}

/// The lengths as values.
pub open spec fn lengths_of(lengths: Seq<Vec<Duration>>) -> Seq<Seq<Duration>> {
    lengths.map_values(|v: Vec<Duration>| v@)
}

/// Moves the clips that start at `from` or later left by `gap`.
fn pull(clips: &mut Vec<TimelineClip>, from: Duration, gap: Duration)
    requires
        gap.nanos <= from.nanos,
    ensures
        final(clips)@ == old(clips)@.map_values(
            |c: TimelineClip| pulled(c, from.nanos as int, gap.nanos as int),
        ),
{
    let ghost was = clips@;
    let mut i: usize = 0;
    while i < clips.len()
        invariant
            gap.nanos <= from.nanos,
            i <= clips@.len(),
            clips@.len() == was.len(),
            forall|k: int|
                0 <= k < i ==> #[trigger] clips@[k] == pulled(
                    was[k],
                    from.nanos as int,
                    gap.nanos as int,
                ),
            forall|k: int| i <= k < was.len() ==> #[trigger] clips@[k] == was[k],
        decreases clips@.len() - i,
    {
        let start = clips[i].start_on_track;
        if start.nanos >= from.nanos {
            clips[i].start_on_track = Duration { nanos: start.nanos - gap.nanos };
        }
        i = i + 1;
    }
    assert(clips@ =~= was.map_values(
        |c: TimelineClip| pulled(c, from.nanos as int, gap.nanos as int),
    ));
}

proof fn without_fits(clips: Seq<TimelineClip>, lengths: Seq<Duration>, clip: int, ripple: bool)
    requires
        lengths_fit(clips, lengths),
        0 <= clip < clips.len(),
    ensures
        lengths_fit(without(clips, lengths, clip, ripple), lengths.remove(clip)),
{
    let r = without(clips, lengths, clip, ripple);
    let left = lengths.remove(clip);
    let gap = lengths[clip].nanos as int;
    assert(clips[clip].start_on_track.nanos + gap <= MAX_NANOS);
    assert forall|i: int| 0 <= i < r.len() implies (#[trigger] r[i]).start_on_track.nanos
        + left[i].nanos <= MAX_NANOS by {
        let k = if i < clip { i } else { i + 1 };
        assert(clips.remove(clip)[i] == clips[k]);
        assert(left[i] == lengths[k]);
    }
}

/// Deleting keeps the lengths in step with the clips.
pub proof fn deleted_fits(tracks: Seq<Lane>, lengths: Seq<Seq<Duration>>, d: Delete)
    requires
        all_lengths_fit(tracks, lengths),
        d.track < tracks.len(),
    ensures
        all_lengths_fit(deleted(tracks, lengths, d).0, deleted(tracks, lengths, d).1),
        deleted(tracks, lengths, d).0.len() == tracks.len(),
{
    let t = d.track as int;
    assert(lengths_fit(tracks[t].clips, lengths[t]));
    if d.clip < tracks[t].clips.len() {
        without_fits(tracks[t].clips, lengths[t], d.clip as int, d.ripple);
    }
    let r = deleted(tracks, lengths, d);
    assert forall|i: int| 0 <= i < r.0.len() implies lengths_fit((#[trigger] r.0[i]).clips, r.1[i]) by {
        if i != t {
            assert(r.0[i] == tracks[i]);
        }
    }
}

impl TimelineState {
    /// Deletes a clip, and its length from the list of lengths.
    fn delete_clip(&mut self, lengths: &mut Vec<Vec<Duration>>, d: Delete)
        requires
            d.track < old(self).tracks@.len(),
            all_lengths_fit(old(self).lanes(), lengths_of(old(lengths)@)),
        ensures
            (final(self).lanes(), lengths_of(final(lengths)@)) == deleted(
                old(self).lanes(),
                lengths_of(old(lengths)@),
                d,
            ),
            final(self).pixels_per_second == old(self).pixels_per_second,
            final(self).title_clips == old(self).title_clips,
    {
        let ghost t = d.track as int;
        let ghost was = self.lanes();
        let ghost had = lengths_of(lengths@);
        proof {
            assert(lengths_fit(was[t].clips, had[t]));
        }
        if d.clip < self.tracks[d.track].clips.len() {
            let gone = self.tracks[d.track].clips.remove(d.clip);
            let gap = lengths[d.track].remove(d.clip);
            proof {
                assert(gone == was[t].clips[d.clip as int]);
                assert(gap == had[t][d.clip as int]);
            }
            if d.ripple {
                let from = gone.start_on_track.plus(gap);
                pull(&mut self.tracks[d.track].clips, from, gap);
            }
            assert(self.tracks@[t].clips@ =~= without(was[t].clips, had[t], d.clip as int, d.ripple));
            assert(self.lanes() =~= deleted(was, had, d).0);
            assert(lengths_of(lengths@) =~= deleted(was, had, d).1);
        }
    }

    /// Deletes clips, later ones first. `lengths` says how long each clip of each
    /// track is on the timeline.
    pub fn delete_clips(&mut self, deletes: Vec<Delete>, lengths: Vec<Vec<Duration>>)
        requires
            all_lengths_fit(old(self).lanes(), lengths_of(lengths@)),
            forall|i: int|
                0 <= i < deletes@.len() ==> (#[trigger] deletes@[i]).track < old(
                    self,
                ).tracks@.len(),
        ensures
            final(self).lanes() == all_deleted(
                old(self).lanes(),
                lengths_of(lengths@),
                sorted(deletes@),
            ).0,
            final(self).lanes().len() == old(self).lanes().len(),
            final(self).pixels_per_second == old(self).pixels_per_second,
            final(self).title_clips == old(self).title_clips,
    {
        let ghost all = sorted(deletes@);
        proof {
            sorted_in_order(deletes@);
            assert forall|i: int| 0 <= i < all.len() implies (#[trigger] all[i]).track
                < self.tracks@.len() by {
                all.to_multiset_ensures();
                deletes@.to_multiset_ensures();
                assert(all.contains(all[i]));
                assert(all.to_multiset().count(all[i]) > 0);
                assert(deletes@.to_multiset().count(all[i]) > 0);
                assert(deletes@.contains(all[i]));
            }
            assert(all.take(0) =~= Seq::empty());
        }
        let ghost had = lengths_of(lengths@);
        let ghost before = *self;
        let mut lengths = lengths;
        let in_turn = sort(deletes);
        for d in it: in_turn
            invariant
                it.seq() == all,
                forall|i: int| 0 <= i < all.len() ==> (#[trigger] all[i]).track < before.tracks@.len(),
                self.tracks@.len() == before.tracks@.len(),
                all_lengths_fit(self.lanes(), lengths_of(lengths@)),
                (self.lanes(), lengths_of(lengths@)) == all_deleted(
                    before.lanes(),
                    had,
                    all.take(it.index() as int),
                ),
                self.pixels_per_second == before.pixels_per_second,
                self.title_clips == before.title_clips,
        {
            proof {
                let n = it.index() as int;
                assert(all.take(n + 1).drop_last() =~= all.take(n));
                assert(all.take(n + 1).last() == d);
                deleted_fits(self.lanes(), lengths_of(lengths@), d);
            }
            self.delete_clip(&mut lengths, d);
        }
        assert(all.take(all.len() as int) =~= all);
    }
}

/// No clip of the track starts before an earlier one has ended.
pub open spec fn laid_out(clips: Seq<TimelineClip>, lengths: Seq<Duration>) -> bool {
    forall|i: int, j: int|
        0 <= i < j < clips.len() ==> (#[trigger] clips[i]).start_on_track.nanos + lengths[i].nanos
            <= (#[trigger] clips[j]).start_on_track.nanos
}

/// On a track whose clips do not overlap, a ripple delete moves the clips behind the
/// deleted one left by exactly its length, leaves those before it in place, and
/// makes no overlap.
pub proof fn ripple_keeps_layout(clips: Seq<TimelineClip>, lengths: Seq<Duration>, clip: int)
    requires
        lengths_fit(clips, lengths),
        laid_out(clips, lengths),
        0 <= clip < clips.len(),
    ensures
        ({
            let r = without(clips, lengths, clip, true);
            &&& laid_out(r, lengths.remove(clip))
            &&& forall|i: int|
                0 <= i < clip ==> (#[trigger] r[i]).start_on_track == clips[i].start_on_track
            &&& forall|i: int|
                clip <= i < r.len() ==> (#[trigger] r[i]).start_on_track.nanos == clips[i
                    + 1].start_on_track.nanos - lengths[clip].nanos
        }),
{
    let r = without(clips, lengths, clip, true);
    let left = lengths.remove(clip);
    let gap = lengths[clip].nanos as int;
    let start = clips[clip].start_on_track.nanos as int;
    let from = start + gap;
    assert forall|i: int| 0 <= i < clip implies (#[trigger] r[i]).start_on_track
        == clips[i].start_on_track by {
        assert(clips[i].start_on_track.nanos + lengths[i].nanos <= clips[clip].start_on_track.nanos);
        assert(r[i] == pulled(clips[i], from, gap));
    }
    assert forall|i: int| clip <= i < r.len() implies (#[trigger] r[i]).start_on_track.nanos
        == clips[i + 1].start_on_track.nanos - gap by {
        assert(clips[clip].start_on_track.nanos + lengths[clip].nanos <= clips[i
            + 1].start_on_track.nanos);
        assert(r[i] == pulled(clips[i + 1], from, gap));
    }
    assert forall|i: int, j: int| 0 <= i < j < r.len() implies (
    #[trigger] r[i]).start_on_track.nanos + left[i].nanos <= (
    #[trigger] r[j]).start_on_track.nanos by {
        let a = if i < clip { i } else { i + 1 };
        let b = if j < clip { j } else { j + 1 };
        assert(left[i] == lengths[a]);
        assert(clips[a].start_on_track.nanos + lengths[a].nanos <= clips[b].start_on_track.nanos);
        if a < clip && b > clip {
            assert(clips[a].start_on_track.nanos + lengths[a].nanos
                <= clips[clip].start_on_track.nanos);
            assert(clips[clip].start_on_track.nanos + gap <= clips[b].start_on_track.nanos);
        }
    }
}

// ── Copies ────────────────────────────────────────────────────────────────────

impl TimelineClip {
    /// A copy that starts where this clip ends. `length` is how long the clip is on
    /// the timeline.
    pub fn copy_behind(&self, length: Duration) -> (c: TimelineClip)
        requires
            self.start_on_track.nanos + length.nanos <= MAX_NANOS,
        ensures
            c == (TimelineClip {
                start_on_track: Duration {
                    nanos: (self.start_on_track.nanos + length.nanos) as u128,
                },
                ..*self
            }),
    {
        let mut c = self.clone();
        c.start_on_track = self.start_on_track.plus(length);
        c
    }

    /// A copy that starts where this clip ends, after a hard cut.
    pub fn duplicate(&self, length: Duration) -> (c: TimelineClip)
        requires
            self.start_on_track.nanos + length.nanos <= MAX_NANOS,
        ensures
            c == (TimelineClip {
                start_on_track: Duration {
                    nanos: (self.start_on_track.nanos + length.nanos) as u128,
                },
                transition: None,
                ..*self
            }),
    {
        let mut c = self.copy_behind(length);
        c.transition = None;
        c
    }
}

// ── Splitting at the playhead ─────────────────────────────────────────────────

/// Where the clip's piece of its source begins.
pub open spec fn source_start(c: TimelineClip) -> int {
    match c.in_point {
        Some(d) => d.nanos as int,
        None => 0,
    }
}

/// Whether the playhead lies strictly inside the clip.
pub open spec fn under_playhead(
    c: TimelineClip,
    sources: Seq<ImportedClip>,
    playhead: Duration,
) -> bool {
    &&& c.source_index < sources.len()
    &&& c.start_on_track.nanos < playhead.nanos
    &&& playhead.nanos < c.start_on_track.nanos + effective_length(
        c,
        sources[c.source_index as int].duration,
    )
}

/// Where in the source the playhead is.
pub open spec fn split_point(c: TimelineClip, playhead: Duration) -> Duration {
    Duration { nanos: (source_start(c) + (playhead.nanos - c.start_on_track.nanos)) as u128 }
}

/// The part of a clip before the playhead.
pub open spec fn left_part(c: TimelineClip, playhead: Duration) -> TimelineClip {
    TimelineClip {
        out_point: Some(split_point(c, playhead)),
        fade_out: Duration { nanos: 0 },
        ..c
    }
}

/// The part of a clip from the playhead on.
pub open spec fn right_part(c: TimelineClip, playhead: Duration) -> TimelineClip {
    TimelineClip {
        start_on_track: playhead,
        in_point: Some(split_point(c, playhead)),
        transition: None,
        fade_in: Duration { nanos: 0 },
        freeze: None,
        ..c
    }
}

/// What becomes of a clip when the timeline is split.
pub open spec fn parts(
    c: TimelineClip,
    sources: Seq<ImportedClip>,
    playhead: Duration,
) -> Seq<TimelineClip> {
    if under_playhead(c, sources, playhead) {
        seq![left_part(c, playhead), right_part(c, playhead)]
    } else {
        seq![c]
    }
}

/// What becomes of the clips of a track when the timeline is split.
pub open spec fn all_parts(
    clips: Seq<TimelineClip>,
    sources: Seq<ImportedClip>,
    playhead: Duration,
) -> Seq<TimelineClip>
    decreases clips.len(),
{
    if clips.len() == 0 {
        Seq::empty()
    } else {
        all_parts(clips.drop_last(), sources, playhead) + parts(clips.last(), sources, playhead)
    }
}

/// Whether the times that a split computes can be told.
pub open spec fn can_split(
    c: TimelineClip,
    sources: Seq<ImportedClip>,
    playhead: Duration,
) -> bool {
    c.source_index < sources.len() ==> {
        &&& c.start_on_track.nanos + effective_length(
            c,
            sources[c.source_index as int].duration,
        ) <= MAX_NANOS
        &&& under_playhead(c, sources, playhead) ==> source_start(c) + (playhead.nanos
            - c.start_on_track.nanos) <= MAX_NANOS
    }
}

/// Whether every clip of every track can be split.
pub open spec fn can_split_all(
    tracks: Seq<Lane>,
    sources: Seq<ImportedClip>,
    playhead: Duration,
) -> bool {
    forall|t: int, i: int|
        0 <= t < tracks.len() && 0 <= i < tracks[t].clips.len() ==> can_split(
            #[trigger] tracks[t].clips[i],
            sources,
            playhead,
        )
}

/// The tracks after a split.
pub open spec fn split_tracks(
    tracks: Seq<Lane>,
    sources: Seq<ImportedClip>,
    playhead: Duration,
) -> Seq<Lane> {
    tracks.map_values(
        |t: Lane| Lane { clips: all_parts(t.clips, sources, playhead), ..t },
    )
}

/// Splits the clips of a track that lie under the playhead.
pub fn split_clips(
    clips: &Vec<TimelineClip>,
    sources: &Vec<ImportedClip>,
    playhead: Duration,
) -> (r: Vec<TimelineClip>)
    requires
        forall|i: int| 0 <= i < clips@.len() ==> can_split(#[trigger] clips@[i], sources@, playhead),
    ensures
        r@ == all_parts(clips@, sources@, playhead),
{
    let mut out: Vec<TimelineClip> = Vec::new();
    let mut i: usize = 0;
    assert(clips@.take(0) =~= Seq::empty());
    while i < clips.len()
        invariant
            i <= clips@.len(),
            forall|i: int|
                0 <= i < clips@.len() ==> can_split(#[trigger] clips@[i], sources@, playhead),
            out@ == all_parts(clips@.take(i as int), sources@, playhead),
        decreases clips@.len() - i,
    {
        let c = &clips[i];
        let ghost done = out@;
        proof {
            assert(can_split(clips@[i as int], sources@, playhead));
            assert(clips@.take(i + 1).drop_last() =~= clips@.take(i as int));
            assert(clips@.take(i + 1).last() == clips@[i as int]);
        }
        let mut cut: Option<Duration> = None;
        if c.source_index < sources.len() {
            let length = c.source_length(sources[c.source_index].duration);
            let end = c.start_on_track.plus(length);
            if playhead.nanos > c.start_on_track.nanos && playhead.nanos < end.nanos {
                let from = match c.in_point {
                    Some(d) => d,
                    None => Duration::zero(),
                };
                cut = Some(from.plus(playhead.saturating_sub(c.start_on_track)));
            }
        }
        match cut {
            Some(at) => {
                let mut left = c.clone();
                left.out_point = Some(at);
                left.fade_out = Duration::zero();
                let mut right = c.clone();
                right.start_on_track = playhead;
                right.in_point = Some(at);
                right.transition = None;
                right.fade_in = Duration::zero();
                right.freeze = None;
                out.push(left);
                out.push(right);
            },
            None => {
                out.push(c.clone());
            },
        }
        assert(out@ =~= done + parts(clips@[i as int], sources@, playhead));
        i = i + 1;
    }
    assert(clips@.take(clips@.len() as int) =~= clips@);
    out
}

impl TimelineState {
    /// Splits every clip that lies under the playhead.
    pub fn split_at(&mut self, sources: &Vec<ImportedClip>, playhead: Duration)
        requires
            can_split_all(old(self).lanes(), sources@, playhead),
        ensures
            final(self).lanes() == split_tracks(old(self).lanes(), sources@, playhead),
            final(self).pixels_per_second == old(self).pixels_per_second,
            final(self).title_clips == old(self).title_clips,
    {
        let ghost was = self.tracks@;
        assert forall|t: int, i: int|
            0 <= t < was.len() && 0 <= i < was[t].clips@.len() implies can_split(
            #[trigger] was[t].clips@[i],
            sources@,
            playhead,
        ) by {
            assert(self.lanes()[t].clips[i] == was[t].clips@[i]);
        }
        let mut i: usize = 0;
        while i < self.tracks.len()
            invariant
                i <= self.tracks@.len(),
                self.tracks@.len() == was.len(),
                forall|t: int, i: int|
                    0 <= t < was.len() && 0 <= i < was[t].clips@.len() ==> can_split(
                        #[trigger] was[t].clips@[i],
                        sources@,
                        playhead,
                    ),
                forall|k: int| i <= k < was.len() ==> #[trigger] self.tracks@[k] == was[k],
                forall|k: int|
                    0 <= k < i ==> (#[trigger] self.tracks@[k])@ == (Lane {
                        clips: all_parts(was[k].clips@, sources@, playhead),
                        ..was[k]@
                    }),
                self.pixels_per_second == old(self).pixels_per_second,
                self.title_clips == old(self).title_clips,
            decreases self.tracks@.len() - i,
        {
            let split = split_clips(&self.tracks[i].clips, sources, playhead);
            self.tracks[i].clips = split;
            i = i + 1;
        }
        assert(self.lanes() =~= split_tracks(old(self).lanes(), sources@, playhead));
    }
}

/// The two parts of a split clip abut at the playhead, and together play what the
/// clip played: the left one up to the split point of the source, the right one from
/// there to the end. A clip whose out-point does not lie behind its in-point plays
/// its whole source, and is left out.
pub proof fn split_keeps_content(
    c: TimelineClip,
    sources: Seq<ImportedClip>,
    playhead: Duration,
)
    requires
        under_playhead(c, sources, playhead),
        can_split(c, sources, playhead),
        c.in_point is Some && c.out_point is Some ==> c.in_point->0.nanos < c.out_point->0.nanos,
    ensures
        ({
            let source = sources[c.source_index as int].duration;
            let left = left_part(c, playhead);
            let right = right_part(c, playhead);
            &&& left.start_on_track == c.start_on_track
            &&& right.start_on_track == playhead
            &&& left.start_on_track.nanos + effective_length(left, source) == playhead.nanos
            &&& effective_length(left, source) + effective_length(right, source)
                == effective_length(c, source)
            &&& source_start(left) == source_start(c)
            &&& source_start(right) == source_start(left) + effective_length(left, source)
        }),
{
}

// ── What cuts leave ───────────────────────────────────────────────────────────

/// Both parts of a split clip keep the style of the clip: source, gain, speed, colours,
/// effects, opacity, transform and all the rest. The left part begins as the clip did and
/// ends at the cut without a fade; the right part begins at the cut without transition,
/// fade or frozen frame and ends as the clip did. A clip that the playhead does not cut
/// stays as it is.
pub proof fn split_keeps_settings(
    c: TimelineClip,
    sources: Seq<ImportedClip>,
    playhead: Duration,
)
    requires
        can_split(c, sources, playhead),
    ensures
        ({
            let now = parts(c, sources, playhead);
            let cut = c.source_index < sources.len() && c.start_on_track.nanos < playhead.nanos
                < c.start_on_track.nanos + effective_length(
                c,
                sources[c.source_index as int].duration,
            );
            let at = playhead.nanos - c.start_on_track.nanos + (if c.in_point is Some {
                c.in_point->0.nanos as int
            } else {
                0
            });
            &&& !cut ==> now == seq![c]
            &&& cut ==> now.len() == 2
            &&& cut ==> {
                &&& same_style(now[0], c)
                &&& now[0].start_on_track == c.start_on_track
                &&& now[0].in_point == c.in_point
                &&& now[0].out_point is Some && now[0].out_point->0.nanos == at
                &&& now[0].transition == c.transition
                &&& now[0].fade_in == c.fade_in
                &&& now[0].fade_out.nanos == 0
                &&& now[0].freeze == c.freeze
            }
            &&& cut ==> {
                &&& same_style(now[1], c)
                &&& now[1].start_on_track == playhead
                &&& now[1].in_point is Some && now[1].in_point->0.nanos == at
                &&& now[1].out_point == c.out_point
                &&& now[1].transition is None
                &&& now[1].fade_in.nanos == 0
                &&& now[1].fade_out == c.fade_out
                &&& now[1].freeze is None
            }
        }),
{
}

/// Every clip of a track is split by itself, and the parts take its place in the order.
pub proof fn clips_are_split_by_themselves(
    a: Seq<TimelineClip>,
    b: Seq<TimelineClip>,
    c: TimelineClip,
    sources: Seq<ImportedClip>,
    playhead: Duration,
)
    ensures
        all_parts(a + b, sources, playhead) == all_parts(a, sources, playhead) + all_parts(
            b,
            sources,
            playhead,
        ),
        all_parts(seq![c], sources, playhead) == parts(c, sources, playhead),
        all_parts(Seq::empty(), sources, playhead) == Seq::<TimelineClip>::empty(),
    decreases b.len(),
{
    assert(seq![c].drop_last() =~= Seq::empty());
    assert(all_parts(Seq::empty(), sources, playhead) == Seq::<TimelineClip>::empty());
    assert(Seq::<TimelineClip>::empty() + parts(c, sources, playhead) =~= parts(
        c,
        sources,
        playhead,
    ));
    if b.len() == 0 {
        assert(a + b =~= a);
        assert(all_parts(a, sources, playhead) + all_parts(b, sources, playhead) =~= all_parts(
            a,
            sources,
            playhead,
        ));
    } else {
        clips_are_split_by_themselves(a, b.drop_last(), c, sources, playhead);
        assert((a + b).drop_last() =~= a + b.drop_last());
        assert((a + b).last() == b.last());
        let front = all_parts(a, sources, playhead);
        let middle = all_parts(b.drop_last(), sources, playhead);
        let end = parts(b.last(), sources, playhead);
        assert((front + middle) + end =~= front + (middle + end));
    }
}

/// A split leaves the tracks as they are but for their clips.
pub proof fn split_keeps_the_tracks(
    before: TimelineState,
    after: TimelineState,
    sources: Seq<ImportedClip>,
    playhead: Duration,
)
    requires
        after.lanes() == split_tracks(before.lanes(), sources, playhead),
    ensures
        after.tracks@.len() == before.tracks@.len(),
        forall|t: int|
            0 <= t < before.tracks@.len() ==> {
                &&& (#[trigger] after.tracks@[t]).kind == before.tracks@[t].kind
                &&& after.tracks@[t].muted == before.tracks@[t].muted
                &&& after.tracks@[t].soloed == before.tracks@[t].soloed
                &&& after.tracks@[t].clips@ == all_parts(
                    before.tracks@[t].clips@,
                    sources,
                    playhead,
                )
            },
{
    assert(after.lanes().len() == before.lanes().len());
    assert forall|t: int| 0 <= t < before.tracks@.len() implies {
        &&& (#[trigger] after.tracks@[t]).kind == before.tracks@[t].kind
        &&& after.tracks@[t].muted == before.tracks@[t].muted
        &&& after.tracks@[t].soloed == before.tracks@[t].soloed
        &&& after.tracks@[t].clips@ == all_parts(before.tracks@[t].clips@, sources, playhead)
    } by {
        assert(after.lanes()[t] == after.tracks@[t]@);
        assert(before.lanes()[t] == before.tracks@[t]@);
    }
}

/// Deleting a clip takes that clip away and no other. The clips of its track keep their
/// order and every setting; with ripple those that start where it ended, or later, start
/// earlier by its length, and else all keep their start. No other track changes, and
/// without such a clip nothing does.
pub proof fn delete_takes_one_clip(tracks: Seq<Lane>, lengths: Seq<Seq<Duration>>, d: Delete)
    requires
        all_lengths_fit(tracks, lengths),
        d.track < tracks.len(),
    ensures
        ({
            let now = deleted(tracks, lengths, d).0;
            let t = d.track as int;
            let k = d.clip as int;
            let was = tracks[t].clips;
            &&& now.len() == tracks.len()
            &&& forall|i: int| 0 <= i < tracks.len() && i != t ==> #[trigger] now[i] == tracks[i]
            &&& now[t].kind == tracks[t].kind && now[t].muted == tracks[t].muted && now[t].soloed
                == tracks[t].soloed
            &&& k >= was.len() ==> now == tracks
            &&& k < was.len() ==> now[t].clips.len() == was.len() - 1
            &&& k < was.len() ==> forall|i: int|
                0 <= i < now[t].clips.len() ==> {
                    let old_clip = was[if i < k {
                        i
                    } else {
                        i + 1
                    }];
                    let gap = lengths[t][k].nanos;
                    let end = was[k].start_on_track.nanos + gap;
                    let c = #[trigger] now[t].clips[i];
                    &&& c == (TimelineClip { start_on_track: c.start_on_track, ..old_clip })
                    &&& c.start_on_track.nanos == (if d.ripple
                        && old_clip.start_on_track.nanos >= end {
                        old_clip.start_on_track.nanos - gap
                    } else {
                        old_clip.start_on_track.nanos as int
                    })
                }
        }),
{
    let t = d.track as int;
    let k = d.clip as int;
    let was = tracks[t].clips;
    let now = deleted(tracks, lengths, d).0;
    assert(lengths_fit(was, lengths[t]));
    if k < was.len() {
        assert(was[k].start_on_track.nanos + lengths[t][k].nanos <= MAX_NANOS);
        let rest = was.remove(k);
        assert forall|i: int| 0 <= i < rest.len() implies #[trigger] rest[i] == was[if i < k {
            i
        } else {
            i + 1
        }] by {}
    }
}

/// Of the clips that are deleted together the later ones go first, so that the places of
/// the earlier ones hold.
pub proof fn later_clips_are_deleted_first(deletes: Seq<Delete>)
    ensures
        forall|i: int, j: int|
            0 <= i <= j < sorted(deletes).len() ==> (#[trigger] sorted(deletes)[i]).clip >= (
            #[trigger] sorted(deletes)[j]).clip,
        sorted(deletes).to_multiset() =~= deletes.to_multiset(),
{
    sorted_in_order(deletes);
    assert forall|i: int, j: int| 0 <= i <= j < sorted(deletes).len() implies (
    #[trigger] sorted(deletes)[i]).clip >= (#[trigger] sorted(deletes)[j]).clip by {
        assert(sorted(deletes)[i].key() <= sorted(deletes)[j].key());
    }
}

/// Two clips of a track that are deleted together, in whichever order they were named, are
/// the two clips that had these places before.
pub proof fn two_deletes_take_both(
    tracks: Seq<Lane>,
    lengths: Seq<Seq<Duration>>,
    track: usize,
    a: usize,
    b: usize,
)
    requires
        all_lengths_fit(tracks, lengths),
        track < tracks.len(),
        a < b < tracks[track as int].clips.len(),
    ensures
        ({
            let x = Delete { track, clip: a, ripple: false };
            let y = Delete { track, clip: b, ripple: false };
            let t = track as int;
            let left = tracks[t].clips.remove(b as int).remove(a as int);
            &&& all_deleted(tracks, lengths, sorted(seq![x, y])).0[t].clips == left
            &&& all_deleted(tracks, lengths, sorted(seq![y, x])).0[t].clips == left
        }),
{
    let x = Delete { track, clip: a, ripple: false };
    let y = Delete { track, clip: b, ripple: false };
    later_clips_are_deleted_first(seq![x, y]);
    later_clips_are_deleted_first(seq![y, x]);
    two_in_turn(x, y);
    let in_turn = seq![y, x];
    assert(in_turn.drop_last() =~= seq![y]);
    assert(seq![y].drop_last() =~= Seq::empty());
    reveal_with_fuel(all_deleted, 3);
    assert(lengths_fit(tracks[track as int].clips, lengths[track as int]));
}

proof fn two_in_turn(x: Delete, y: Delete)
    requires
        x.clip < y.clip,
    ensures
        sorted(seq![x, y]) == seq![y, x],
        sorted(seq![y, x]) == seq![y, x],
{
    reveal_with_fuel(sorted, 3);
    reveal_with_fuel(slot_from, 3);
    assert(seq![x, y].drop_last() =~= seq![x]);
    assert(seq![y, x].drop_last() =~= seq![y]);
    assert(seq![x].drop_last() =~= Seq::empty());
    assert(seq![y].drop_last() =~= Seq::empty());
    assert(placed(Seq::empty(), x) =~= seq![x]);
    assert(placed(Seq::empty(), y) =~= seq![y]);
    assert(placed(seq![x], y) =~= seq![y, x]);
    assert(placed(seq![y], x) =~= seq![y, x]);
}

/// Deletions are made one after the other.
pub proof fn deletions_follow_each_other(
    tracks: Seq<Lane>,
    lengths: Seq<Seq<Duration>>,
    first: Seq<Delete>,
    d: Delete,
)
    ensures
        ({
            let before = all_deleted(tracks, lengths, first);
            all_deleted(tracks, lengths, first.push(d)) == deleted(before.0, before.1, d)
        }),
        all_deleted(tracks, lengths, Seq::empty()) == (tracks, lengths),
{
    assert(first.push(d).drop_last() =~= first);
}

/// Lengths are told track by track and clip by clip.
pub proof fn lengths_are_told_in_order(lengths: Seq<Vec<Duration>>, t: int, i: int)
    requires
        0 <= t < lengths.len(),
        0 <= i < lengths[t]@.len(),
    ensures
        lengths_of(lengths).len() == lengths.len(),
        lengths_of(lengths)[t].len() == lengths[t]@.len(),
        lengths_of(lengths)[t][i] == lengths[t]@[i],
{
}

} // verus!
