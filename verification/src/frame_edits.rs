//! The edits of one frame: their order, what they do to the selection and to a
//! paused player, and the one undo step that they make.

use crate::app_state::{pushed, AppState, Playback, Selection};
use crate::cuts::{
    all_deleted, all_lengths_fit, can_split_all, lengths_of, split_tracks, Delete,
};
use crate::edit_command::{
    changes, changes_name_tracks, clips_of, lists, snaps, Change, EditCommand,
};
use crate::imported::ImportedClip;
use crate::ordering::{in_order, placed, placed_in_order, sorted};
use crate::time::{Duration, MAX_NANOS};
use crate::timeline::{all_edited, names_tracks, with_clips, Edit, Lane};
use crate::timeline_clip::{fresh_clip, TimelineClip};
use vstd::prelude::*;

verus! {

/// What was edited so far in a frame.
#[derive(Debug)]
pub struct EditBatch {
    /// The clips of every track before the edits.
    pub before: Vec<Vec<TimelineClip>>,
    pub trimmed: bool,
    pub moved: bool,
    pub added: bool,
    pub transitions: bool,
}

/// A copy that is to be put on a track.
#[derive(Debug)]
pub struct Insert {
    pub track: usize,
    pub clip: TimelineClip,
}

/// The edits that end a frame.
#[derive(Debug)]
pub struct LastEdits {
    pub deletes: Vec<Delete>,
    pub inserts: Vec<Insert>,
    /// The copies come from the clipboard.
    pub paste: bool,
    /// The copies come from the selected clip.
    pub duplicate: bool,
    /// The clips under the playhead are split.
    pub split: bool,
}

/// Some edit is a trim.
pub open spec fn has_trim(edits: Seq<Edit>) -> bool {
    exists|i: int| 0 <= i < edits.len() && (#[trigger] edits[i]) is Trim
}

/// Some edit moves a clip.
pub open spec fn has_move(edits: Seq<Edit>) -> bool {
    exists|i: int| 0 <= i < edits.len() && (#[trigger] edits[i]) is Move
}

/// Some edit adds a clip.
pub open spec fn has_add(edits: Seq<Edit>) -> bool {
    exists|i: int| 0 <= i < edits.len() && (#[trigger] edits[i]) is Add
}

/// Some edit sets a transition.
pub open spec fn has_transition(edits: Seq<Edit>) -> bool {
    exists|i: int| 0 <= i < edits.len() && (#[trigger] edits[i]) is Transition
}

/// Some edit mutes or solos a track, or ends that.
pub open spec fn has_toggle(edits: Seq<Edit>) -> bool {
    exists|i: int|
        0 <= i < edits.len() && ((#[trigger] edits[i]) is ToggleMute || edits[i] is ToggleSolo)
}

/// Some deletion closes the gap.
pub open spec fn has_ripple(deletes: Seq<Delete>) -> bool {
    exists|i: int| 0 <= i < deletes.len() && (#[trigger] deletes[i]).ripple
}

/// The tracks after copies were put on them.
pub open spec fn inserted(tracks: Seq<Lane>, inserts: Seq<Insert>) -> Seq<Lane>
    decreases inserts.len(),
{
    if inserts.len() == 0 {
        tracks
    } else {
        let before = inserted(tracks, inserts.drop_last());
        let i = inserts.last();
        with_clips(before, i.track as int, placed(before[i.track as int].clips, i.clip))
    }
}

/// What the undo step of a frame is called; nothing where no step is made.
pub open spec fn step_label(
    split: bool,
    ripple: bool,
    deleted: bool,
    moved: bool,
    trimmed: bool,
    transitions: bool,
    pasted: bool,
    duplicated: bool,
    added: bool,
) -> Seq<char> {
    if split {
        "Split Clip"@
    } else if ripple {
        "Ripple Delete"@
    } else if deleted {
        "Delete Clip"@
    } else if moved {
        "Move Clip"@
    } else if trimmed {
        "Trim Clip"@
    } else if transitions {
        "Set Transition"@
    } else if pasted {
        "Paste Clip"@
    } else if duplicated {
        "Duplicate Clip"@
    } else if added {
        "Add Clip"@
    } else {
        Seq::empty()
    }
}

/// Whether any kind of edit makes a step.
pub open spec fn makes_step(batch: EditBatch, last: LastEdits) -> bool {
    last.split || last.deletes@.len() > 0 || batch.moved || batch.trimmed || batch.transitions || (
    last.inserts@.len() > 0 && (last.paste || last.duplicate)) || batch.added
}

/// What the undo step of a frame is called.
pub open spec fn label_of(batch: EditBatch, last: LastEdits) -> Seq<char> {
    step_label(
        last.split,
        has_ripple(last.deletes@),
        last.deletes@.len() > 0,
        batch.moved,
        batch.trimmed,
        batch.transitions,
        last.inserts@.len() > 0 && last.paste,
        last.inserts@.len() > 0 && last.duplicate,
        batch.added,
    )
}

/// The tracks after the last edits of a frame.
pub open spec fn finished(
    tracks: Seq<Lane>,
    lengths: Seq<Seq<Duration>>,
    last: LastEdits,
    sources: Seq<ImportedClip>,
    playhead: Duration,
) -> Seq<Lane> {
    let copied = inserted(
        all_deleted(tracks, lengths, sorted(last.deletes@)).0,
        last.inserts@,
    );
    if last.split {
        split_tracks(copied, sources, playhead)
    } else {
        copied
    }
}

/// Which kinds of edits there are.
struct EditKinds {
    trim: bool,
    relocate: bool,
    add: bool,
    transition: bool,
    toggle: bool,
}

fn kinds_of(edits: &Vec<Edit>) -> (k: EditKinds)
    ensures
        k.trim == has_trim(edits@),
        k.relocate == has_move(edits@),
        k.add == has_add(edits@),
        k.transition == has_transition(edits@),
        k.toggle == has_toggle(edits@),
{
    let mut k = EditKinds {
        trim: false,
        relocate: false,
        add: false,
        transition: false,
        toggle: false,
    };
    let mut i: usize = 0;
    while i < edits.len()
        invariant
            i <= edits@.len(),
            k.trim == exists|j: int| 0 <= j < i && (#[trigger] edits@[j]) is Trim,
            k.relocate == exists|j: int| 0 <= j < i && (#[trigger] edits@[j]) is Move,
            k.add == exists|j: int| 0 <= j < i && (#[trigger] edits@[j]) is Add,
            k.transition == exists|j: int| 0 <= j < i && (#[trigger] edits@[j]) is Transition,
            k.toggle == exists|j: int|
                0 <= j < i && ((#[trigger] edits@[j]) is ToggleMute || edits@[j] is ToggleSolo),
        decreases edits@.len() - i,
    {
        match &edits[i] {
            Edit::Trim { .. } => {
                k.trim = true;
            },
            Edit::Move { .. } => {
                k.relocate = true;
            },
            Edit::Add { .. } => {
                k.add = true;
            },
            Edit::Transition { .. } => {
                k.transition = true;
            },
            Edit::ToggleMute { .. } => {
                k.toggle = true;
            },
            Edit::ToggleSolo { .. } => {
                k.toggle = true;
            },
            _ => {},
        }
        assert(edits@[i as int] == edits@[i as int]);
        i = i + 1;
    }
    k
}

fn ripples(deletes: &Vec<Delete>) -> (r: bool)
    ensures
        r == has_ripple(deletes@),
{
    let mut i: usize = 0;
    while i < deletes.len()
        invariant
            i <= deletes@.len(),
            forall|k: int| 0 <= k < i ==> !(#[trigger] deletes@[k]).ripple,
        decreases deletes@.len() - i,
    {
        if deletes[i].ripple {
            assert(deletes@[i as int].ripple);
            return true;
        }
        i = i + 1;
    }
    false
}

fn label_text(
    batch: &EditBatch,
    last: &LastEdits,
) -> (r: Option<&'static str>)
    ensures
        r is Some == makes_step(*batch, *last),
        r is Some ==> r->0@ == label_of(*batch, *last),
{
    let copies = last.inserts.len() > 0;
    if last.split {
        Some("Split Clip")
    } else if ripples(&last.deletes) {
        Some("Ripple Delete")
    } else if last.deletes.len() > 0 {
        Some("Delete Clip")
    } else if batch.moved {
        Some("Move Clip")
    } else if batch.trimmed {
        Some("Trim Clip")
    } else if batch.transitions {
        Some("Set Transition")
    } else if copies && last.paste {
        Some("Paste Clip")
    } else if copies && last.duplicate {
        Some("Duplicate Clip")
    } else if batch.added {
        Some("Add Clip")
    } else {
        None
    }
}

impl AppState {
    /// Copies the selected clip, where there is one, to the clipboard.
    pub fn copy_selected(&mut self)
        ensures
            *final(self) == (AppState {
                timeline_clipboard: match old(self).selection.timeline_selected {
                    Some((t, c)) => if t < old(self).timeline.lanes().len() && c < old(
                        self,
                    ).timeline.lanes()[t as int].clips.len() {
                        Some((t, old(self).timeline.lanes()[t as int].clips[c as int]))
                    } else {
                        old(self).timeline_clipboard
                    },
                    None => old(self).timeline_clipboard,
                },
                ..*old(self)
            }),
    {
        if let Some((t, c)) = self.selection.timeline_selected {
            if let Some(clip) = self.timeline.clip_at(t, c) {
                self.timeline_clipboard = Some((t, clip));
            }
        }
    }

    /// A copy of the clip on the clipboard, behind it on the same track. `length` is
    /// how long that clip is on the timeline.
    pub fn paste_copy(&self, length: Duration) -> (r: Option<Insert>)
        requires
            match self.timeline_clipboard {
                Some((_, clip)) => clip.start_on_track.nanos + length.nanos <= MAX_NANOS,
                None => true,
            },
        ensures
            match self.timeline_clipboard {
                Some((track, clip)) => r == Some(
                    Insert {
                        track,
                        clip: TimelineClip {
                            start_on_track: Duration {
                                nanos: (clip.start_on_track.nanos + length.nanos) as u128,
                            },
                            ..clip
                        },
                    },
                ),
                None => r is None,
            },
    {
        match &self.timeline_clipboard {
            Some((track, clip)) => Some(
                Insert { track: *track, clip: clip.copy_behind(length) },
            ),
            None => None,
        }
    }

    /// A copy of the selected clip, behind it on the same track. `length` is how long
    /// that clip is on the timeline.
    pub fn duplicate_selected(&self, length: Duration) -> (r: Option<Insert>)
        requires
            forall|t: int, c: int|
                0 <= t < self.timeline.lanes().len() && 0 <= c
                    < self.timeline.lanes()[t].clips.len() && self.selection.timeline_selected == Some(
                    (t as usize, c as usize),
                ) ==> (#[trigger] self.timeline.lanes()[t].clips[c]).start_on_track.nanos
                    + length.nanos <= MAX_NANOS,
        ensures
            match self.selection.timeline_selected {
                Some((t, c)) => if t < self.timeline.lanes().len() && c
                    < self.timeline.lanes()[t as int].clips.len() {
                    let clip = self.timeline.lanes()[t as int].clips[c as int];
                    r == Some(
                        Insert {
                            track: t,
                            clip: TimelineClip {
                                start_on_track: Duration {
                                    nanos: (clip.start_on_track.nanos + length.nanos) as u128,
                                },
                                transition: None,
                                ..clip
                            },
                        },
                    )
                } else {
                    r is None
                },
                None => r is None,
            },
    {
        if let Some((t, c)) = self.selection.timeline_selected {
            if let Some(clip) = self.timeline.clip_at(t, c) {
                assert(self.timeline.lanes()[t as int].clips[c as int] == clip);
                return Some(Insert { track: t, clip: clip.duplicate(length) });
            }
        }
        None
    }

    /// The edit that puts an imported clip, with its marks, on a track.
    pub fn drop_edit(&self, track: usize, clip: usize, start: Duration) -> (e: Edit)
        ensures
            e is Add,
            e->Add_track == track,
            fresh_clip(
                e->new_clip,
                clip,
                start,
                if clip < self.clips@.len() {
                    self.clips@[clip as int].in_point
                } else {
                    None
                },
                if clip < self.clips@.len() {
                    self.clips@[clip as int].out_point
                } else {
                    None
                },
            ),
    {
        let (in_point, out_point) = if clip < self.clips.len() {
            (self.clips[clip].in_point, self.clips[clip].out_point)
        } else {
            (None, None)
        };
        Edit::Add { track, new_clip: TimelineClip::new(clip, start, in_point, out_point) }
    }

    /// The start of a frame's edits.
    pub fn begin_edits(&self) -> (batch: EditBatch)
        ensures
            lists(batch.before@) == clips_of(self.timeline.lanes()),
            !batch.trimmed && !batch.moved && !batch.added && !batch.transitions,
    {
        EditBatch {
            before: self.timeline.snapshot(),
            trimmed: false,
            moved: false,
            added: false,
            transitions: false,
        }
    }

    /// Makes edits of clips, by stage. Says whether the player has to be started anew
    /// because a track was muted or soloed; where it does not play, it has to be
    /// before it plays on. So it has to be where clips were trimmed or moved while it
    /// was paused.
    pub fn edit(&mut self, batch: &mut EditBatch, edits: Vec<Edit>) -> (restart: bool)
        requires
            forall|i: int|
                0 <= i < edits@.len() ==> names_tracks(
                    #[trigger] edits@[i],
                    old(self).timeline.tracks@.len(),
                ),
        ensures
            final(self).timeline.lanes() == all_edited(
                old(self).timeline.lanes(),
                sorted(edits@),
            ),
            final(self).timeline.title_clips == old(self).timeline.title_clips,
            final(self).timeline.pixels_per_second == old(self).timeline.pixels_per_second,
            *final(batch) == (EditBatch {
                trimmed: old(batch).trimmed || has_trim(edits@),
                moved: old(batch).moved || has_move(edits@),
                added: old(batch).added || has_add(edits@),
                transitions: old(batch).transitions || has_transition(edits@),
                ..*old(batch)
            }),
            restart == (has_toggle(edits@) && old(self).playback.timeline_player.runs() && !old(
                self,
            ).playback.timeline_is_paused),
            *final(self) == (AppState {
                timeline: final(self).timeline,
                selection: Selection {
                    timeline_selected: if has_move(edits@) {
                        None
                    } else {
                        old(self).selection.timeline_selected
                    },
                    ..old(self).selection
                },
                playback: Playback {
                    clips_moved_while_paused: old(self).playback.clips_moved_while_paused || (
                    has_toggle(edits@) && !restart) || (old(self).playback.timeline_is_paused && (
                    has_trim(edits@) || has_move(edits@))),
                    ..old(self).playback
                },
                ..*old(self)
            }),
    {
        let kinds = kinds_of(&edits);
        self.timeline.apply_edits(edits);
        batch.trimmed = batch.trimmed || kinds.trim;
        batch.moved = batch.moved || kinds.relocate;
        batch.added = batch.added || kinds.add;
        batch.transitions = batch.transitions || kinds.transition;
        let restart = kinds.toggle && self.playback.timeline_player.is_running() && !self.playback.timeline_is_paused;
        let selected = if kinds.relocate {
            None
        } else {
            self.selection.timeline_selected
        };
        let paused = self.playback.timeline_is_paused;
        let moved = self.playback.clips_moved_while_paused || (kinds.toggle && !restart) || (paused
            && (kinds.trim || kinds.relocate));
        self.selection.timeline_selected = selected;
        self.playback.clips_moved_while_paused = moved;
        restart
    }

    /// Puts copies on their tracks.
    fn insert_copies(&mut self, inserts: Vec<Insert>)
        requires
            forall|i: int|
                0 <= i < inserts@.len() ==> (#[trigger] inserts@[i]).track < old(
                    self,
                ).timeline.tracks@.len(),
        ensures
            final(self).timeline.lanes() == inserted(old(self).timeline.lanes(), inserts@),
            final(self).timeline.lanes().len() == old(self).timeline.lanes().len(),
            final(self).timeline.title_clips == old(self).timeline.title_clips,
            final(self).timeline.pixels_per_second == old(self).timeline.pixels_per_second,
            *final(self) == (AppState { timeline: final(self).timeline, ..*old(self) }),
    {
        let ghost all = inserts@;
        let ghost was = *self;
        assert(all.take(0) =~= Seq::empty());
        for x in it: inserts
            invariant
                it.seq() == all,
                forall|i: int|
                    0 <= i < all.len() ==> (#[trigger] all[i]).track < was.timeline.tracks@.len(),
                self.timeline.tracks@.len() == was.timeline.tracks@.len(),
                self.timeline.lanes() == inserted(
                    was.timeline.lanes(),
                    all.take(it.index() as int),
                ),
                self.timeline.title_clips == was.timeline.title_clips,
                self.timeline.pixels_per_second == was.timeline.pixels_per_second,
                *self == (AppState { timeline: self.timeline, ..was }),
        {
            proof {
                let n = it.index() as int;
                assert(all.take(n + 1).drop_last() =~= all.take(n));
                assert(all.take(n + 1).last() == x);
            }
            let ghost so_far = self.timeline.lanes();
            self.timeline.add_clip(x.track, x.clip);
            assert(self.timeline.lanes().len() == so_far.len());
        }
        assert(all.take(all.len() as int) =~= all);
    }

    /// Keeps what changed since a frame's edits began as one undo step under the
    /// given name, where anything did. Without a name nothing is kept.
    pub fn record_edits(&mut self, before: &Vec<Vec<TimelineClip>>, label: Option<&'static str>)
        requires
            before@.len() == old(self).timeline.tracks@.len(),
        ensures
            ({
                let all = changes(
                    lists(before@),
                    old(self).timeline.lanes(),
                    before@.len() as int,
                );
                let step = label is Some && all.len() > 0;
                &&& final(self).undos() == (if step {
                    pushed(
                        old(self).undos(),
                        Change::Tracks { snaps: all, label: label->0@ },
                    )
                } else {
                    old(self).undos()
                })
                &&& final(self).redos() == (if step {
                    Seq::empty()
                } else {
                    old(self).redos()
                })
            }),
            old(self).edits_fit() ==> final(self).edits_fit(),
            *final(self) == (AppState {
                undo_stack: final(self).undo_stack,
                redo_stack: final(self).redo_stack,
                ..*old(self)
            }),
    {
        proof {
            changes_name_tracks(
                lists(before@),
                self.timeline.lanes(),
                before@.len() as int,
            );
        }
        if let Some(text) = label {
            let snapshots = self.timeline.changes_since(before);
            assert(snapshots@.len() == snaps(snapshots@).len());
            if snapshots.len() > 0 {
                self.push_edit(EditCommand::TrackSnapshot { snapshots, label: text });
                assert(self.redos() =~= Seq::empty());
            }
        }
    }

    /// Makes the last edits of a frame.
    fn apply_last(&mut self, last: LastEdits, lengths: Vec<Vec<Duration>>)
        requires
            all_lengths_fit(old(self).timeline.lanes(), lengths_of(lengths@)),
            forall|i: int|
                0 <= i < last.deletes@.len() ==> (#[trigger] last.deletes@[i]).track < old(
                    self,
                ).timeline.tracks@.len(),
            forall|i: int|
                0 <= i < last.inserts@.len() ==> (#[trigger] last.inserts@[i]).track < old(
                    self,
                ).timeline.tracks@.len(),
            last.split ==> can_split_all(
                inserted(
                    all_deleted(
                        old(self).timeline.lanes(),
                        lengths_of(lengths@),
                        sorted(last.deletes@),
                    ).0,
                    last.inserts@,
                ),
                old(self).clips@,
                old(self).playback.timeline_playhead,
            ),
        ensures
            final(self).timeline.lanes() == finished(
                old(self).timeline.lanes(),
                lengths_of(lengths@),
                last,
                old(self).clips@,
                old(self).playback.timeline_playhead,
            ),
            final(self).timeline.tracks@.len() == old(self).timeline.tracks@.len(),
            final(self).timeline.title_clips == old(self).timeline.title_clips,
            final(self).timeline.pixels_per_second == old(self).timeline.pixels_per_second,
            *final(self) == (AppState {
                timeline: final(self).timeline,
                selection: Selection {
                    timeline_selected: if last.deletes@.len() > 0 {
                        None
                    } else {
                        old(self).selection.timeline_selected
                    },
                    ..old(self).selection
                },
                playback: Playback {
                    clips_moved_while_paused: old(self).playback.clips_moved_while_paused || (old(
                        self,
                    ).playback.timeline_is_paused && (last.split || (last.inserts@.len() > 0 && (
                    last.paste || last.duplicate)))),
                    ..old(self).playback
                },
                ..*old(self)
            }),
    {
        let selected = if last.deletes.len() > 0 {
            None
        } else {
            self.selection.timeline_selected
        };
        let copied = last.inserts.len() > 0 && (last.paste || last.duplicate);
        let moved = self.playback.clips_moved_while_paused || (self.playback.timeline_is_paused && (last.split
            || copied));
        self.timeline.delete_clips(last.deletes, lengths);
        assert(self.timeline.tracks@.len() == self.timeline.lanes().len());
        self.insert_copies(last.inserts);
        assert(self.timeline.tracks@.len() == self.timeline.lanes().len());
        if last.split {
            let playhead = self.playback.timeline_playhead;
            self.timeline.split_at(&self.clips, playhead);
            assert(self.timeline.tracks@.len() == self.timeline.lanes().len());
        }
        self.selection.timeline_selected = selected;
        self.playback.clips_moved_while_paused = moved;
    }

    /// Makes the last edits of a frame: deletions, then copies, then the split. What
    /// the frame's edits changed is kept as one undo step, unless the frame undid or
    /// redid an edit. `lengths` says how long each clip is on the timeline.
    pub fn finish_edits(
        &mut self,
        batch: EditBatch,
        last: LastEdits,
        lengths: Vec<Vec<Duration>>,
        record: bool,
    )
        requires
            batch.before@.len() == old(self).timeline.tracks@.len(),
            all_lengths_fit(old(self).timeline.lanes(), lengths_of(lengths@)),
            forall|i: int|
                0 <= i < last.deletes@.len() ==> (#[trigger] last.deletes@[i]).track < old(
                    self,
                ).timeline.tracks@.len(),
            forall|i: int|
                0 <= i < last.inserts@.len() ==> (#[trigger] last.inserts@[i]).track < old(
                    self,
                ).timeline.tracks@.len(),
            last.split ==> can_split_all(
                inserted(
                    all_deleted(
                        old(self).timeline.lanes(),
                        lengths_of(lengths@),
                        sorted(last.deletes@),
                    ).0,
                    last.inserts@,
                ),
                old(self).clips@,
                old(self).playback.timeline_playhead,
            ),
        ensures
            ({
                let now = finished(
                    old(self).timeline.lanes(),
                    lengths_of(lengths@),
                    last,
                    old(self).clips@,
                    old(self).playback.timeline_playhead,
                );
                let all = changes(lists(batch.before@), now, batch.before@.len() as int);
                let step = record && makes_step(batch, last) && all.len() > 0;
                &&& final(self).timeline.lanes() == now
                &&& final(self).undos() == (if step {
                    pushed(
                        old(self).undos(),
                        Change::Tracks { snaps: all, label: label_of(batch, last) },
                    )
                } else {
                    old(self).undos()
                })
                &&& final(self).redos() == (if step {
                    Seq::empty()
                } else {
                    old(self).redos()
                })
            }),
            old(self).edits_fit() ==> final(self).edits_fit(),
            final(self).timeline.title_clips == old(self).timeline.title_clips,
            final(self).timeline.pixels_per_second == old(self).timeline.pixels_per_second,
            *final(self) == (AppState {
                timeline: final(self).timeline,
                undo_stack: final(self).undo_stack,
                redo_stack: final(self).redo_stack,
                selection: Selection {
                    timeline_selected: if last.deletes@.len() > 0 {
                        None
                    } else {
                        old(self).selection.timeline_selected
                    },
                    ..old(self).selection
                },
                playback: Playback {
                    clips_moved_while_paused: old(self).playback.clips_moved_while_paused || (old(
                        self,
                    ).playback.timeline_is_paused && (last.split || (last.inserts@.len() > 0 && (
                    last.paste || last.duplicate)))),
                    ..old(self).playback
                },
                ..*old(self)
            }),
    {
        let label = if record {
            label_text(&batch, &last)
        } else {
            None
        };
        self.apply_last(last, lengths);
        assert(self.undos() == old(self).undos() && self.redos() == old(self).redos());
        assert(old(self).edits_fit() ==> self.edits_fit());
        self.record_edits(&batch.before, label);
    }
}

/// A list of edits has a trim, a move, an added clip, a transition or a switch of a track
/// as soon as one of its edits is that, and no empty list has one.
pub proof fn edits_are_told_by_kind(edits: Seq<Edit>, e: Edit)
    ensures
        has_trim(edits.push(e)) == (has_trim(edits) || e is Trim),
        has_move(edits.push(e)) == (has_move(edits) || e is Move),
        has_add(edits.push(e)) == (has_add(edits) || e is Add),
        has_transition(edits.push(e)) == (has_transition(edits) || e is Transition),
        has_toggle(edits.push(e)) == (has_toggle(edits) || e is ToggleMute || e is ToggleSolo),
        !has_trim(Seq::empty()) && !has_move(Seq::empty()) && !has_add(Seq::empty()),
        !has_transition(Seq::empty()) && !has_toggle(Seq::empty()),
{
    let more = edits.push(e);
    assert(more[edits.len() as int] == e);
    assert(forall|i: int| 0 <= i < edits.len() ==> #[trigger] edits[i] == more[i]);
    assert(forall|i: int| 0 <= i < edits.len() ==> #[trigger] more[i] == edits[i]);
}

/// Deletions close a gap as soon as one of them does.
pub proof fn ripples_are_told(deletes: Seq<Delete>, d: Delete)
    ensures
        has_ripple(deletes.push(d)) == (has_ripple(deletes) || d.ripple),
        !has_ripple(Seq::empty()),
{
    let more = deletes.push(d);
    assert(more[deletes.len() as int] == d);
    assert(forall|i: int| 0 <= i < deletes.len() ==> #[trigger] deletes[i] == more[i]);
    assert(forall|i: int| 0 <= i < deletes.len() ==> #[trigger] more[i] == deletes[i]);
}

/// A step is named after the edit that goes first: a split, then deletions, moves, trims,
/// transitions, copies, and new clips last. A frame without any of them makes no step.
pub proof fn step_is_named_after_its_edit(batch: EditBatch, last: LastEdits)
    ensures
        last.split ==> label_of(batch, last) == "Split Clip"@,
        !last.split ==> {
            let gone = last.deletes@.len() > 0;
            let copies = last.inserts@.len() > 0;
            &&& has_ripple(last.deletes@) ==> label_of(batch, last) == "Ripple Delete"@
            &&& gone && !has_ripple(last.deletes@) ==> label_of(batch, last) == "Delete Clip"@
            &&& !gone && batch.moved ==> label_of(batch, last) == "Move Clip"@
            &&& !gone && !batch.moved && batch.trimmed ==> label_of(batch, last) == "Trim Clip"@
            &&& !gone && !batch.moved && !batch.trimmed && batch.transitions ==> label_of(
                batch,
                last,
            ) == "Set Transition"@
            &&& !gone && !batch.moved && !batch.trimmed && !batch.transitions ==> {
                &&& copies && last.paste ==> label_of(batch, last) == "Paste Clip"@
                &&& copies && last.duplicate && !last.paste ==> label_of(batch, last)
                    == "Duplicate Clip"@
                &&& batch.added && !(copies && (last.paste || last.duplicate)) ==> label_of(
                    batch,
                    last,
                ) == "Add Clip"@
                &&& !batch.added && !(copies && (last.paste || last.duplicate)) ==> !makes_step(
                    batch,
                    last,
                )
            }
        },
        last.split || last.deletes@.len() > 0 || batch.moved || batch.trimmed || batch.transitions
            || batch.added ==> makes_step(batch, last),
        last.inserts@.len() > 0 && (last.paste || last.duplicate) ==> makes_step(batch, last),
{
}

/// Copies are put on their tracks one after the other. Each one is on its track after
/// that, in order of time, beside what was there; the other tracks stay as they are.
pub proof fn copies_are_put_on_their_tracks(tracks: Seq<Lane>, inserts: Seq<Insert>, x: Insert)
    requires
        x.track < inserted(tracks, inserts).len(),
    ensures
        inserted(tracks, Seq::empty()) == tracks,
        ({
            let was = inserted(tracks, inserts);
            let now = inserted(tracks, inserts.push(x));
            let t = x.track as int;
            &&& now.len() == was.len()
            &&& forall|k: int| 0 <= k < was.len() && k != t ==> #[trigger] now[k] == was[k]
            &&& now[t].kind == was[t].kind
            &&& now[t].muted == was[t].muted
            &&& now[t].soloed == was[t].soloed
            &&& in_order(was[t].clips) ==> {
                &&& now[t].clips.to_multiset() == was[t].clips.to_multiset().insert(x.clip)
                &&& in_order(now[t].clips)
            }
        }),
{
    assert(inserts.push(x).drop_last() =~= inserts);
    let was = inserted(tracks, inserts);
    if in_order(was[x.track as int].clips) {
        placed_in_order(was[x.track as int].clips, x.clip);
    }
}

/// The last edits of a frame are made in three parts: what is deleted goes first, copies
/// are put on what is left, and the split comes last.
pub proof fn last_edits_have_an_order(
    tracks: Seq<Lane>,
    lengths: Seq<Seq<Duration>>,
    last: LastEdits,
    only_deletes: LastEdits,
    only_copies: LastEdits,
    only_split: LastEdits,
    sources: Seq<ImportedClip>,
    playhead: Duration,
)
    requires
        only_deletes.deletes@ == last.deletes@,
        only_deletes.inserts@.len() == 0,
        !only_deletes.split,
        only_copies.deletes@.len() == 0,
        only_copies.inserts@ == last.inserts@,
        !only_copies.split,
        only_split.deletes@.len() == 0,
        only_split.inserts@.len() == 0,
        only_split.split == last.split,
    ensures
        ({
            let left = finished(tracks, lengths, only_deletes, sources, playhead);
            let copied = finished(left, lengths, only_copies, sources, playhead);
            &&& left == all_deleted(tracks, lengths, sorted(last.deletes@)).0
            &&& copied == inserted(left, last.inserts@)
            &&& finished(tracks, lengths, last, sources, playhead) == finished(
                copied,
                lengths,
                only_split,
                sources,
                playhead,
            )
            &&& last.split ==> finished(tracks, lengths, last, sources, playhead) == split_tracks(
                copied,
                sources,
                playhead,
            )
            &&& !last.split ==> finished(tracks, lengths, last, sources, playhead) == copied
        }),
{
    let none = Seq::<Delete>::empty();
    assert(only_copies.deletes@ =~= none);
    assert(only_split.deletes@ =~= none);
    assert(sorted(none) =~= none);
    assert(only_deletes.inserts@ =~= Seq::<Insert>::empty());
    assert(only_split.inserts@ =~= Seq::<Insert>::empty());
}

} // verus!
