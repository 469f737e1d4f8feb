//! Reversible edits of the timeline, kept as what was there before and after.

use crate::state::TitleClip;
use crate::timeline::{lanes, with_clips, Lane, TimelineState};
use crate::timeline_clip::{clips_agree, same_clips, TimelineClip};
use vstd::prelude::*;

verus! {

/// The clips of one track before and after an edit.
#[derive(Debug)]
pub struct TrackChange {
    pub track: usize,
    pub before: Vec<TimelineClip>,
    pub after: Vec<TimelineClip>,
}

/// An edit that can be undone and redone.
#[derive(Debug)]
pub enum EditCommand {
    TrackSnapshot {
        /// Every track that the edit changed.
        snapshots: Vec<TrackChange>,
        label: &'static str,
    },
    TitleSnapshot { before: Vec<TitleClip>, after: Vec<TitleClip>, label: &'static str },
}

/// A change of a track as a value.
pub struct Snap {
    pub track: int,
    pub before: Seq<TimelineClip>,
    pub after: Seq<TimelineClip>,
}

impl View for TrackChange {
    type V = Snap;

    open spec fn view(&self) -> Snap {
        Snap { track: self.track as int, before: self.before@, after: self.after@ }
    }
}

/// The changes as values.
pub open spec fn snaps(changes: Seq<TrackChange>) -> Seq<Snap> {
    changes.map_values(|c: TrackChange| c@)
}

/// An edit as a value.
#[allow(inconsistent_fields)]
pub enum Change {
    Tracks { snaps: Seq<Snap>, label: Seq<char> },
    Titles { before: Seq<TitleClip>, after: Seq<TitleClip>, label: Seq<char> },
}

impl View for EditCommand {
    type V = Change;

    open spec fn view(&self) -> Change {
        match *self {
            EditCommand::TrackSnapshot { snapshots, label } => Change::Tracks {
                snaps: snaps(snapshots@),
                label: label@,
            },
            EditCommand::TitleSnapshot { before, after, label } => Change::Titles {
                before: before@,
                after: after@,
                label: label@,
            },
        }
    }
}

impl Change {
    /// What the edit is called.
    pub open spec fn label(self) -> Seq<char> {
        match self {
            Change::Tracks { label, .. } => label,
            Change::Titles { label, .. } => label,
        }
    }

    /// Whether the edit names tracks that there are.
    pub open spec fn names_tracks(self, tracks: nat) -> bool {
        match self {
            Change::Tracks { snaps, .. } => forall|i: int|
                0 <= i < snaps.len() ==> 0 <= (#[trigger] snaps[i]).track < tracks,
            Change::Titles { .. } => true,
        }
    }
}

impl EditCommand {
    /// What the edit is called.
    pub fn label(&self) -> (label: &'static str)
        ensures
            label@ == self@.label(),
    {
        match self {
            EditCommand::TrackSnapshot { label, .. } => label,
            EditCommand::TitleSnapshot { label, .. } => label,
        }
    }
}

/// The tracks with the clips from before (or after) the changes.
pub open spec fn put(tracks: Seq<Lane>, changes: Seq<Snap>, after: bool) -> Seq<Lane>
    decreases changes.len(),
{
    if changes.len() == 0 {
        tracks
    } else {
        let s = changes.last();
        with_clips(
            put(tracks, changes.drop_last(), after),
            s.track,
            if after {
                s.after
            } else {
                s.before
            },
        )
    }
}

/// The tracks and titles after an edit was undone (or made again).
pub open spec fn replayed(
    tracks: Seq<Lane>,
    titles: Seq<TitleClip>,
    change: Change,
    after: bool,
) -> (Seq<Lane>, Seq<TitleClip>) {
    match change {
        Change::Tracks { snaps, .. } => (put(tracks, snaps, after), titles),
        Change::Titles { before, after: later, .. } => (
            tracks,
            if after {
                later
            } else {
                before
            },
        ),
    }
}

/// A copy of a list of clips.
pub fn copy_clips(clips: &Vec<TimelineClip>) -> (r: Vec<TimelineClip>)
    ensures
        r@ == clips@,
{
    let mut r: Vec<TimelineClip> = Vec::new();
    let mut i: usize = 0;
    while i < clips.len()
        invariant
            i <= clips@.len(),
            r@ == clips@.take(i as int),
        decreases clips@.len() - i,
    {
        r.push(clips[i].clone());
        i = i + 1;
        assert(clips@.take(i as int) =~= clips@.take(i - 1).push(clips@[i - 1]));
    }
    assert(clips@.take(clips@.len() as int) =~= clips@);
    r
}

/// A copy of a list of titles.
pub fn copy_titles(titles: &Vec<TitleClip>) -> (r: Vec<TitleClip>)
    ensures
        r@ == titles@,
{
    let mut r: Vec<TitleClip> = Vec::new();
    let mut i: usize = 0;
    while i < titles.len()
        invariant
            i <= titles@.len(),
            r@ == titles@.take(i as int),
        decreases titles@.len() - i,
    {
        r.push(titles[i].clone());
        i = i + 1;
        assert(titles@.take(i as int) =~= titles@.take(i - 1).push(titles@[i - 1]));
    }
    assert(titles@.take(titles@.len() as int) =~= titles@);
    r
}

impl TimelineState {
    /// Puts the clips from before (or after) the changes back on their tracks.
    pub fn put_clips(&mut self, changes: &Vec<TrackChange>, after: bool)
        requires
            forall|i: int|
                0 <= i < changes@.len() ==> (#[trigger] changes@[i]).track < old(
                    self,
                ).tracks@.len(),
        ensures
            final(self).lanes() == put(old(self).lanes(), snaps(changes@), after),
            final(self).tracks@.len() == old(self).tracks@.len(),
            final(self).pixels_per_second == old(self).pixels_per_second,
            final(self).title_clips == old(self).title_clips,
    {
        let ghost all = snaps(changes@);
        let ghost was = *self;
        let mut i: usize = 0;
        assert(all.take(0) =~= Seq::empty());
        while i < changes.len()
            invariant
                i <= changes@.len(),
                all == snaps(changes@),
                self.tracks@.len() == was.tracks@.len(),
                forall|i: int|
                    0 <= i < changes@.len() ==> (#[trigger] changes@[i]).track
                        < was.tracks@.len(),
                self.lanes() == put(was.lanes(), all.take(i as int), after),
                self.pixels_per_second == was.pixels_per_second,
                self.title_clips == was.title_clips,
            decreases changes@.len() - i,
        {
            let c = &changes[i];
            let ghost so_far = self.lanes();
            let clips = if after {
                copy_clips(&c.after)
            } else {
                copy_clips(&c.before)
            };
            self.tracks[c.track].clips = clips;
            assert(self.lanes() =~= with_clips(so_far, c.track as int, clips@));
            assert(all.take(i + 1).drop_last() =~= all.take(i as int));
            i = i + 1;
        }
        assert(all.take(all.len() as int) =~= all);
    }

    /// Undoes an edit, or makes it again.
    pub fn replay(&mut self, command: &EditCommand, after: bool)
        requires
            command@.names_tracks(old(self).tracks@.len()),
        ensures
            (final(self).lanes(), final(self).title_clips@) == replayed(
                old(self).lanes(),
                old(self).title_clips@,
                command@,
                after,
            ),
            final(self).tracks@.len() == old(self).tracks@.len(),
            final(self).pixels_per_second == old(self).pixels_per_second,
    {
        match command {
            EditCommand::TrackSnapshot { snapshots, .. } => {
                assert(command@->snaps == snaps(snapshots@));
                assert forall|i: int| 0 <= i < snapshots@.len() implies (
                #[trigger] snapshots@[i]).track < self.tracks@.len() by {
                    assert(command@->snaps[i].track == snapshots@[i].track);
                }
                self.put_clips(snapshots, after);
            },
            EditCommand::TitleSnapshot { before, after: later, .. } => {
                self.title_clips = if after {
                    copy_titles(later)
                } else {
                    copy_titles(before)
                };
            },
        }
    }
}

// ── What an edit changed ──────────────────────────────────────────────────────

/// The changes of the first `n` tracks: one for each track whose clips differ from
/// those before.
pub open spec fn changes(before: Seq<Seq<TimelineClip>>, now: Seq<Lane>, n: int) -> Seq<Snap>
    decreases n,
{
    if n <= 0 {
        Seq::empty()
    } else if same_clips(now[n - 1].clips, before[n - 1]) {
        changes(before, now, n - 1)
    } else {
        changes(before, now, n - 1).push(
            Snap { track: n - 1, before: before[n - 1], after: now[n - 1].clips },
        )
    }
}

/// The clips of all tracks.
pub open spec fn clips_of(tracks: Seq<Lane>) -> Seq<Seq<TimelineClip>> {
    tracks.map_values(|t: Lane| t.clips)
}

/// The lists of clips as values.
pub open spec fn lists(clips: Seq<Vec<TimelineClip>>) -> Seq<Seq<TimelineClip>> {
    clips.map_values(|v: Vec<TimelineClip>| v@)
}

impl TimelineState {
    /// The clips of all tracks as they are now.
    pub fn snapshot(&self) -> (r: Vec<Vec<TimelineClip>>)
        ensures
            lists(r@) == clips_of(self.lanes()),
    {
        let mut r: Vec<Vec<TimelineClip>> = Vec::new();
        let mut i: usize = 0;
        while i < self.tracks.len()
            invariant
                i <= self.tracks@.len(),
                r@.len() == i,
                forall|k: int| 0 <= k < i ==> (#[trigger] r@[k])@ == self.tracks@[k].clips@,
            decreases self.tracks@.len() - i,
        {
            r.push(copy_clips(&self.tracks[i].clips));
            i = i + 1;
        }
        assert(lists(r@) =~= clips_of(self.lanes()));
        r
    }

    /// The tracks whose clips differ from those in a snapshot.
    pub fn changes_since(&self, before: &Vec<Vec<TimelineClip>>) -> (r: Vec<TrackChange>)
        requires
            before@.len() == self.tracks@.len(),
        ensures
            snaps(r@) == changes(lists(before@), self.lanes(), self.tracks@.len() as int),
    {
        let mut r: Vec<TrackChange> = Vec::new();
        let mut i: usize = 0;
        assert(snaps(r@) =~= Seq::empty());
        while i < self.tracks.len()
            invariant
                i <= self.tracks@.len(),
                before@.len() == self.tracks@.len(),
                snaps(r@) == changes(lists(before@), self.lanes(), i as int),
            decreases self.tracks@.len() - i,
        {
            let ghost had = r@;
            if !clips_agree(&self.tracks[i].clips, &before[i]) {
                let c = TrackChange {
                    track: i,
                    before: copy_clips(&before[i]),
                    after: copy_clips(&self.tracks[i].clips),
                };
                r.push(c);
                assert(snaps(r@) =~= snaps(had).push(c@));
            }
            assert(self.lanes()[i as int].clips == self.tracks@[i as int].clips@);
            assert(lists(before@)[i as int] == before@[i as int]@);
            i = i + 1;
        }
        r
    }
}

/// Every change names a track that there is.
pub proof fn changes_name_tracks(before: Seq<Seq<TimelineClip>>, now: Seq<Lane>, n: int)
    requires
        0 <= n <= now.len(),
    ensures
        forall|i: int|
            0 <= i < changes(before, now, n).len() ==> 0 <= (#[trigger] changes(
                before,
                now,
                n,
            )[i]).track < n,
    decreases n,
{
    if n > 0 {
        changes_name_tracks(before, now, n - 1);
        let some = changes(before, now, n - 1);
        let more = changes(before, now, n);
        assert forall|i: int| 0 <= i < more.len() implies 0 <= (#[trigger] more[i]).track < n by {
            if i < some.len() {
                assert(more[i] == some[i]);
            }
        }
    }
}

proof fn put_changes(
    tracks: Seq<Lane>,
    before: Seq<Seq<TimelineClip>>,
    now: Seq<Lane>,
    n: int,
    after: bool,
)
    requires
        0 <= n <= now.len(),
        tracks.len() == now.len(),
    ensures
        put(tracks, changes(before, now, n), after).len() == tracks.len(),
        forall|i: int|
            0 <= i < tracks.len() ==> #[trigger] put(tracks, changes(before, now, n), after)[i] == (
            if i < n && !same_clips(now[i].clips, before[i]) {
                Lane {
                    clips: if after {
                        now[i].clips
                    } else {
                        before[i]
                    },
                    ..tracks[i]
                }
            } else {
                tracks[i]
            }),
    decreases n,
{
    if n > 0 {
        put_changes(tracks, before, now, n - 1, after);
        if !same_clips(now[n - 1].clips, before[n - 1]) {
            let more = changes(before, now, n);
            assert(more.drop_last() =~= changes(before, now, n - 1));
        }
    }
}

proof fn put_overrides(a: Seq<Lane>, b: Seq<Lane>, changes: Seq<Snap>, after: bool, i: int)
    requires
        a.len() == b.len(),
        0 <= i < a.len(),
        forall|k: int| 0 <= k < changes.len() ==> 0 <= (#[trigger] changes[k]).track < a.len(),
        a[i].kind == b[i].kind && a[i].muted == b[i].muted && a[i].soloed == b[i].soloed,
        a[i].clips == b[i].clips || exists|k: int|
            0 <= k < changes.len() && (#[trigger] changes[k]).track == i,
    ensures
        put(a, changes, after)[i] == put(b, changes, after)[i],
        put(a, changes, after).len() == a.len(),
        put(b, changes, after).len() == b.len(),
        put(a, changes, after)[i].kind == a[i].kind,
        put(a, changes, after)[i].muted == a[i].muted,
        put(a, changes, after)[i].soloed == a[i].soloed,
    decreases changes.len(),
{
    if changes.len() > 0 {
        let fewer = changes.drop_last();
        assert forall|k: int| 0 <= k < fewer.len() implies 0 <= (#[trigger] fewer[k]).track
            < a.len() by {
            assert(fewer[k] == changes[k]);
        }
        assert(changes.last() == changes[changes.len() - 1]);
        put_len(a, fewer, after);
        put_len(b, fewer, after);
        if changes.last().track != i {
            if a[i].clips != b[i].clips {
                let k = choose|k: int|
                    0 <= k < changes.len() && (#[trigger] changes[k]).track == i;
                assert(fewer[k].track == i);
            }
            put_overrides(a, b, fewer, after, i);
        } else {
            put_overrides(a, a, fewer, after, i);
            put_overrides(b, b, fewer, after, i);
        }
    }
}

proof fn put_untouched(tracks: Seq<Lane>, changes: Seq<Snap>, after: bool, i: int)
    requires
        0 <= i < tracks.len(),
        forall|k: int| 0 <= k < changes.len() ==> 0 <= (#[trigger] changes[k]).track < tracks.len(),
        forall|k: int| 0 <= k < changes.len() ==> (#[trigger] changes[k]).track != i,
    ensures
        put(tracks, changes, after)[i] == tracks[i],
    decreases changes.len(),
{
    if changes.len() > 0 {
        let fewer = changes.drop_last();
        assert forall|k: int| 0 <= k < fewer.len() implies 0 <= (
        #[trigger] fewer[k]).track < tracks.len() && fewer[k].track != i by {
            assert(fewer[k] == changes[k]);
        }
        put_untouched(tracks, fewer, after, i);
        put_len(tracks, fewer, after);
        assert(changes.last() == changes[changes.len() - 1]);
    }
}

proof fn put_len(tracks: Seq<Lane>, changes: Seq<Snap>, after: bool)
    requires
        forall|k: int| 0 <= k < changes.len() ==> 0 <= (#[trigger] changes[k]).track < tracks.len(),
    ensures
        put(tracks, changes, after).len() == tracks.len(),
    decreases changes.len(),
{
    if changes.len() > 0 {
        let fewer = changes.drop_last();
        assert forall|k: int| 0 <= k < fewer.len() implies 0 <= (#[trigger] fewer[k]).track
            < tracks.len() by {
            assert(fewer[k] == changes[k]);
        }
        assert(changes.last() == changes[changes.len() - 1]);
        put_len(tracks, fewer, after);
    }
}

/// Putting the clips from before the changes on the tracks and then those from after
/// them is the same as putting only the latter.
pub proof fn last_put_counts(tracks: Seq<Lane>, changes: Seq<Snap>)
    requires
        forall|k: int| 0 <= k < changes.len() ==> 0 <= (#[trigger] changes[k]).track < tracks.len(),
    ensures
        put(put(tracks, changes, false), changes, true) == put(tracks, changes, true),
{
    let undone = put(tracks, changes, false);
    put_len(tracks, changes, false);
    put_len(tracks, changes, true);
    put_len(undone, changes, true);
    assert forall|i: int| 0 <= i < tracks.len() implies put(undone, changes, true)[i] == put(
        tracks,
        changes,
        true,
    )[i] by {
        put_overrides(tracks, tracks, changes, false, i);
        if forall|k: int| 0 <= k < changes.len() ==> (#[trigger] changes[k]).track != i {
            put_untouched(tracks, changes, false, i);
        }
        put_overrides(undone, tracks, changes, true, i);
    }
    assert(put(undone, changes, true) =~= put(tracks, changes, true));
}

/// Undoing an edit of clips gives every track that it changed its clips back, and
/// making it again gives exactly the tracks that the edit had made. A track is taken
/// as unchanged where its clips compare equal.
pub proof fn undo_reverts_edit(before: Seq<Lane>, now: Seq<Lane>, label: Seq<char>)
    requires
        before.len() == now.len(),
        forall|i: int|
            0 <= i < now.len() ==> (#[trigger] now[i]).kind == before[i].kind && now[i].muted
                == before[i].muted && now[i].soloed == before[i].soloed,
    ensures
        ({
            let all = changes(clips_of(before), now, now.len() as int);
            let edit = Change::Tracks { snaps: all, label };
            let undone = replayed(now, Seq::empty(), edit, false).0;
            &&& edit.names_tracks(now.len())
            &&& undone.len() == now.len()
            &&& forall|i: int|
                0 <= i < now.len() ==> #[trigger] undone[i] == (if same_clips(
                    now[i].clips,
                    before[i].clips,
                ) {
                    now[i]
                } else {
                    before[i]
                })
            &&& replayed(undone, Seq::empty(), edit, true).0 == now
        }),
{
    let all = changes(clips_of(before), now, now.len() as int);
    let n = now.len() as int;
    changes_name_tracks(clips_of(before), now, n);
    put_changes(now, clips_of(before), now, n, false);
    let undone = put(now, all, false);
    put_changes(undone, clips_of(before), now, n, true);
    assert forall|i: int| 0 <= i < now.len() implies #[trigger] undone[i] == (if same_clips(
        now[i].clips,
        before[i].clips,
    ) {
        now[i]
    } else {
        before[i]
    }) by {
        assert(put(now, all, false)[i] == undone[i]);
        assert(clips_of(before)[i] == before[i].clips);
    }
    assert(put(undone, all, true) =~= now) by {
        assert forall|i: int| 0 <= i < now.len() implies put(undone, all, true)[i] == now[i] by {
            assert(undone[i].kind == now[i].kind);
        }
    }
}

/// Undoing an edit of titles gives the titles back that there were, making it again those
/// that it had made, and neither touches the tracks. An edit of tracks does not touch the
/// titles.
pub proof fn titles_and_tracks_are_apart(
    tracks: Seq<Lane>,
    titles: Seq<TitleClip>,
    before: Seq<TitleClip>,
    after: Seq<TitleClip>,
    all: Seq<Snap>,
    label: Seq<char>,
    again: bool,
)
    ensures
        replayed(tracks, titles, Change::Titles { before, after, label }, false) == (
            tracks,
            before,
        ),
        replayed(tracks, titles, Change::Titles { before, after, label }, true) == (tracks, after),
        replayed(tracks, titles, Change::Tracks { snaps: all, label }, again).1 == titles,
{
}

/// A change of one track puts the clips from before, or those from after, on that track,
/// and leaves every other track, and all switches, alone.
pub proof fn change_is_put_on_its_track(tracks: Seq<Lane>, s: Snap, t: int)
    requires
        0 <= s.track < tracks.len(),
        0 <= t < tracks.len(),
    ensures
        put(tracks, seq![s], false)[t].clips == (if t == s.track {
            s.before
        } else {
            tracks[t].clips
        }),
        put(tracks, seq![s], true)[t].clips == (if t == s.track {
            s.after
        } else {
            tracks[t].clips
        }),
        put(tracks, seq![s], true)[t].kind == tracks[t].kind,
        put(tracks, seq![s], true)[t].muted == tracks[t].muted,
        put(tracks, seq![s], true)[t].soloed == tracks[t].soloed,
        put(tracks, seq![s], false)[t].kind == tracks[t].kind,
        put(tracks, seq![s], false)[t].muted == tracks[t].muted,
        put(tracks, seq![s], false)[t].soloed == tracks[t].soloed,
{
    reveal_with_fuel(put, 2);
    assert(seq![s].drop_last() =~= Seq::empty());
}

/// The changes of an edit are those of the tracks whose clips differ, each once, in the
/// order of the tracks, with the clips that there were and those that there are.
pub proof fn changes_are_what_differs(before: Seq<Seq<TimelineClip>>, now: Seq<Lane>, n: int)
    requires
        0 <= n <= now.len(),
        n <= before.len(),
    ensures
        ({
            let all = changes(before, now, n);
            &&& forall|k: int|
                0 <= k < all.len() ==> 0 <= (#[trigger] all[k]).track < n && all[k].before
                    == before[all[k].track] && all[k].after == now[all[k].track].clips
                    && !same_clips(all[k].after, all[k].before)
            &&& forall|j: int, k: int|
                0 <= j < k < all.len() ==> (#[trigger] all[j]).track < (#[trigger] all[k]).track
            &&& forall|t: int|
                0 <= t < n && !same_clips((#[trigger] now[t]).clips, before[t]) ==> exists|k: int|
                    0 <= k < all.len() && (#[trigger] all[k]).track == t
        }),
    decreases n,
{
    if n > 0 {
        changes_are_what_differs(before, now, n - 1);
        let some = changes(before, now, n - 1);
        let all = changes(before, now, n);
        assert forall|k: int| 0 <= k < some.len() implies #[trigger] all[k] == some[k] by {}
        assert forall|t: int|
            0 <= t < n && !same_clips((#[trigger] now[t]).clips, before[t]) implies exists|k: int|
            0 <= k < all.len() && (#[trigger] all[k]).track == t by {
            if t < n - 1 {
                let k = choose|k: int| 0 <= k < some.len() && (#[trigger] some[k]).track == t;
                assert(all[k].track == t);
            } else {
                assert(all[some.len() as int].track == t);
            }
        }
    }
}

/// An edit as a value tells the edit itself: its tracks and clips, its titles, its name.
pub proof fn edit_tells_itself(c: EditCommand)
    ensures
        c matches EditCommand::TrackSnapshot { snapshots, label } ==> {
            &&& c@ is Tracks
            &&& c@.label() == label@
            &&& c@->snaps.len() == snapshots@.len()
            &&& forall|i: int|
                0 <= i < snapshots@.len() ==> (#[trigger] c@->snaps[i]).track == snapshots@[i].track
                    && c@->snaps[i].before == snapshots@[i].before@ && c@->snaps[i].after
                    == snapshots@[i].after@
        },
        c matches EditCommand::TitleSnapshot { before, after, label } ==> {
            &&& c@ is Titles
            &&& c@.label() == label@
            &&& c@->Titles_before == before@
            &&& c@->Titles_after == after@
        },
{
}

/// The lists of clips are told track by track, in their order.
pub proof fn lists_are_told_in_order(clips: Seq<Vec<TimelineClip>>, tracks: Seq<Lane>, t: int)
    requires
        0 <= t < clips.len(),
        0 <= t < tracks.len(),
    ensures
        lists(clips).len() == clips.len(),
        lists(clips)[t] == clips[t]@,
        clips_of(tracks).len() == tracks.len(),
        clips_of(tracks)[t] == tracks[t].clips,
{
}

} // verus!
