//! Selecting clips and titles, and editing titles.

use crate::app_state::{pushed, AppState, Selection};
use crate::edit_command::{copy_titles, replayed, Change, EditCommand};
use crate::ordering::{rank, rank_of, sort, sorted, sorted_by_rank, sorted_in_order, Keyed};
use crate::state::{same_title, TextClipPreset, TitleClip};
use crate::time::Duration;
use crate::timeline::Lane;
use vstd::prelude::*;

verus! {

impl Keyed for TitleClip {
    open spec fn key(self) -> int {
        self.start_on_track.nanos as int
    }

    fn sort_key(&self) -> (k: u128) {
        self.start_on_track.nanos
    }
}

/// A move of a title to another time.
#[derive(Clone, Copy, PartialEq, Eq, Structural, Debug)]
pub struct TitleMove {
    pub clip: usize,
    pub start: Duration,
}

/// A new start and length of a title.
#[derive(Clone, Copy, PartialEq, Eq, Structural, Debug)]
pub struct TitleTrim {
    pub clip: usize,
    pub start: Duration,
    pub duration: Duration,
}

/// The title that a preset makes at a time.
pub open spec fn title_from(preset: TextClipPreset, start: Duration) -> TitleClip {
    TitleClip {
        start_on_track: start,
        duration: preset.default_duration,
        text: preset.text,
        font_size: preset.font_size,
        color: preset.color,
        h_align: preset.h_align,
        v_align: preset.v_align,
    }
}

/// The first title from `from` on that starts at `start`, or the end.
pub open spec fn first_starting(titles: Seq<TitleClip>, start: Duration, from: int) -> int
    decreases titles.len() - from,
{
    if from < 0 || from >= titles.len() || titles[from].start_on_track == start {
        from
    } else {
        first_starting(titles, start, from + 1)
    }
}

fn find_starting(titles: &Vec<TitleClip>, start: Duration) -> (i: usize)
    ensures
        i == first_starting(titles@, start, 0),
        i <= titles@.len(),
{
    let mut i: usize = 0;
    while i < titles.len() && titles[i].start_on_track != start
        invariant
            i <= titles@.len(),
            first_starting(titles@, start, 0) == first_starting(titles@, start, i as int),
        decreases titles@.len() - i,
    {
        i = i + 1;
    }
    i
}

proof fn first_starting_found(titles: Seq<TitleClip>, start: Duration, from: int, at: int)
    requires
        0 <= from <= at < titles.len(),
        titles[at].start_on_track == start,
    ensures
        from <= first_starting(titles, start, from) <= at,
        titles[first_starting(titles, start, from)].start_on_track == start,
    decreases at - from,
{
    if titles[from].start_on_track != start {
        first_starting_found(titles, start, from + 1, at);
    }
}

/// The titles with one of them moved, before they are put in order.
pub open spec fn with_move(titles: Seq<TitleClip>, m: TitleMove) -> Seq<TitleClip> {
    let c = m.clip as int;
    if c < titles.len() {
        titles.update(c, TitleClip { start_on_track: m.start, ..titles[c] })
    } else {
        titles
    }
}

/// The titles and the selected one after a move. The moved title is selected.
pub open spec fn moved_title(
    titles: Seq<TitleClip>,
    selected: Option<usize>,
    m: TitleMove,
) -> (Seq<TitleClip>, Option<usize>) {
    let now = with_move(titles, m);
    (
        sorted(now),
        if m.clip < titles.len() {
            Some(rank(now, m.clip as int, now.len() as int) as usize)
        } else {
            selected
        },
    )
}

/// After a move the selection is on the title that was moved.
pub proof fn moved_title_is_selected(
    titles: Seq<TitleClip>,
    selected: Option<usize>,
    m: TitleMove,
)
    requires
        m.clip < titles.len() <= usize::MAX,
    ensures
        ({
            let (now, chosen) = moved_title(titles, selected, m);
            &&& chosen is Some
            &&& chosen->0 < now.len()
            &&& now[chosen->0 as int] == (TitleClip {
                start_on_track: m.start,
                ..titles[m.clip as int]
            })
        }),
{
    sorted_by_rank(with_move(titles, m), m.clip as int);
    sorted_in_order(with_move(titles, m));
}

/// The titles and the selected one after a list of moves.
pub open spec fn moved_titles(
    titles: Seq<TitleClip>,
    selected: Option<usize>,
    moves: Seq<TitleMove>,
) -> (Seq<TitleClip>, Option<usize>)
    decreases moves.len(),
{
    if moves.len() == 0 {
        (titles, selected)
    } else {
        let before = moved_titles(titles, selected, moves.drop_last());
        moved_title(before.0, before.1, moves.last())
    }
}

/// The titles after a trim.
pub open spec fn trimmed_title(titles: Seq<TitleClip>, t: TitleTrim) -> Seq<TitleClip> {
    let c = t.clip as int;
    sorted(
        if c < titles.len() {
            titles.update(
                c,
                TitleClip { start_on_track: t.start, duration: t.duration, ..titles[c] },
            )
        } else {
            titles
        },
    )
}

/// The titles after a list of trims.
pub open spec fn trimmed_titles(titles: Seq<TitleClip>, trims: Seq<TitleTrim>) -> Seq<TitleClip>
    decreases trims.len(),
{
    if trims.len() == 0 {
        titles
    } else {
        trimmed_title(trimmed_titles(titles, trims.drop_last()), trims.last())
    }
}

fn retimed(titles: Vec<TitleClip>, clip: usize, start: Duration, duration: Option<Duration>) -> (r:
    Vec<TitleClip>)
    ensures
        duration is None ==> r@ == with_move(titles@, TitleMove { clip, start }),
        duration is Some ==> sorted(r@) == trimmed_title(
            titles@,
            TitleTrim { clip, start, duration: duration->0 },
        ),
{
    let ghost was = titles@;
    let mut titles = titles;
    if clip < titles.len() {
        let mut title = titles[clip].clone();
        title.start_on_track = start;
        if let Some(d) = duration {
            title.duration = d;
        }
        titles[clip] = title;
        assert(titles@ =~= was.update(clip as int, title));
    }
    titles
}

/// Whether the two lists hold the same titles in the same order.
pub open spec fn same_titles(a: Seq<TitleClip>, b: Seq<TitleClip>) -> bool {
    a.len() == b.len() && forall|i: int| 0 <= i < a.len() ==> same_title(#[trigger] a[i], b[i])
}

/// Whether the two lists hold the same titles in the same order.
pub fn titles_agree(a: &Vec<TitleClip>, b: &Vec<TitleClip>) -> (r: bool)
    ensures
        r == same_titles(a@, b@),
{
    if a.len() != b.len() {
        return false;
    }
    let mut i: usize = 0;
    while i < a.len()
        invariant
            i <= a@.len(),
            a@.len() == b@.len(),
            forall|k: int| 0 <= k < i ==> same_title(#[trigger] a@[k], b@[k]),
        decreases a@.len() - i,
    {
        if !a[i].same_as(&b[i]) {
            assert(!same_title(a@[i as int], b@[i as int]));
            return false;
        }
        i = i + 1;
    }
    true
}

/// The selection after the title at `gone` was deleted.
pub open spec fn selection_without(selected: Option<usize>, gone: usize) -> Option<usize> {
    match selected {
        Some(s) => if s == gone {
            None
        } else if s > gone {
            Some((s - 1) as usize)
        } else {
            Some(s)
        },
        None => None,
    }
}

/// What can be undone after titles changed from `before` to `now`.
pub open spec fn undos_with_titles(
    undos: Seq<Change>,
    before: Seq<TitleClip>,
    now: Seq<TitleClip>,
    label: Seq<char>,
) -> Seq<Change> {
    if same_titles(before, now) {
        undos
    } else {
        pushed(undos, Change::Titles { before, after: now, label })
    }
}

impl AppState {
    /// Selects a clip of the timeline. No title is selected then.
    pub fn select_clip(&mut self, track: usize, clip: usize)
        ensures
            *final(self) == (AppState {
                selection: Selection {
                    timeline_selected: Some((track, clip)),
                    selected_title_clip: None,
                    ..old(self).selection
                },
                ..*old(self)
            }),
    {
        self.selection.timeline_selected = Some((track, clip));
        self.selection.selected_title_clip = None;
    }

    /// Selects a title. No clip is selected then.
    pub fn select_title(&mut self, title: usize)
        ensures
            *final(self) == (AppState {
                selection: Selection {
                    selected_title_clip: Some(title),
                    timeline_selected: None,
                    ..old(self).selection
                },
                ..*old(self)
            }),
    {
        self.selection.selected_title_clip = Some(title);
        self.selection.timeline_selected = None;
    }

    /// Puts a title made from a preset on the title track and selects the first
    /// title that starts then. Without such a preset nothing changes.
    pub fn drop_title(&mut self, preset: usize, start: Duration)
        ensures
            preset >= old(self).browser.text_presets@.len() ==> *final(self) == *old(self),
            preset < old(self).browser.text_presets@.len() ==> {
                let titles = sorted(
                    old(self).timeline.title_clips@.push(
                        title_from(old(self).browser.text_presets@[preset as int], start),
                    ),
                );
                &&& final(self).timeline.title_clips@ == titles
                &&& final(self).timeline.tracks == old(self).timeline.tracks
                &&& final(self).timeline.pixels_per_second == old(
                    self,
                ).timeline.pixels_per_second
                &&& *final(self) == (AppState {
                    timeline: final(self).timeline,
                    selection: Selection {
                        selected_title_clip: Some(first_starting(titles, start, 0) as usize),
                        timeline_selected: None,
                        ..old(self).selection
                    },
                    ..*old(self)
                })
            },
    {
        if preset < self.browser.text_presets.len() {
            let p = &self.browser.text_presets[preset];
            let title = TitleClip {
                start_on_track: start,
                duration: p.default_duration,
                text: p.text.clone(),
                font_size: p.font_size,
                color: p.color,
                h_align: p.h_align,
                v_align: p.v_align,
            };
            let ghost made = title;
            assert(made == title_from(self.browser.text_presets@[preset as int], start));
            let mut titles: Vec<TitleClip> = Vec::new();
            std::mem::swap(&mut titles, &mut self.timeline.title_clips);
            titles.push(title);
            let ghost unsorted = titles@;
            let titles = sort(titles);
            proof {
                sorted_in_order(unsorted);
                unsorted.to_multiset_ensures();
                titles@.to_multiset_ensures();
                assert(unsorted[unsorted.len() - 1] == made);
                assert(unsorted.contains(made));
                assert(unsorted.to_multiset().count(made) > 0);
                assert(titles@.to_multiset().count(made) > 0);
                assert(titles@.contains(made));
                let at = titles@.index_of(made);
                first_starting_found(titles@, start, 0, at);
            }
            let at: usize = find_starting(&titles, start);
            self.timeline.title_clips = titles;
            if at < self.timeline.title_clips.len() {
                self.select_title(at);
            }
        }
    }

    /// Deletes a title, where there is one at that place.
    pub fn delete_title(&mut self, title: usize)
        ensures
            title >= old(self).timeline.title_clips@.len() ==> *final(self) == *old(self),
            title < old(self).timeline.title_clips@.len() ==> {
                &&& final(self).timeline.title_clips@ == old(self).timeline.title_clips@.remove(
                    title as int,
                )
                &&& final(self).timeline.tracks == old(self).timeline.tracks
                &&& final(self).timeline.pixels_per_second == old(
                    self,
                ).timeline.pixels_per_second
                &&& *final(self) == (AppState {
                    timeline: final(self).timeline,
                    selection: Selection {
                        selected_title_clip: selection_without(
                            old(self).selection.selected_title_clip,
                            title,
                        ),
                        ..old(self).selection
                    },
                    ..*old(self)
                })
            },
    {
        if title < self.timeline.title_clips.len() {
            let _gone = self.timeline.title_clips.remove(title);
            self.selection.selected_title_clip = match self.selection.selected_title_clip {
                Some(s) => if s == title {
                    None
                } else if s > title {
                    Some(s - 1)
                } else {
                    Some(s)
                },
                None => None,
            };
        }
    }

    fn move_title(&mut self, m: TitleMove)
        ensures
            (final(self).timeline.title_clips@, final(self).selection.selected_title_clip) == moved_title(
                old(self).timeline.title_clips@,
                old(self).selection.selected_title_clip,
                m,
            ),
            final(self).timeline.tracks == old(self).timeline.tracks,
            final(self).timeline.pixels_per_second == old(self).timeline.pixels_per_second,
            *final(self) == (AppState {
                timeline: final(self).timeline,
                selection: Selection {
                    selected_title_clip: final(self).selection.selected_title_clip,
                    ..old(self).selection
                },
                ..*old(self)
            }),
    {
        let mut titles: Vec<TitleClip> = Vec::new();
        std::mem::swap(&mut titles, &mut self.timeline.title_clips);
        let titles = retimed(titles, m.clip, m.start, None);
        if m.clip < titles.len() {
            self.selection.selected_title_clip = Some(rank_of(&titles, m.clip));
        }
        self.timeline.title_clips = sort(titles);
    }

    /// Moves titles. The moves together are one edit that can be undone, where they
    /// change anything.
    pub fn move_titles(&mut self, moves: &Vec<TitleMove>)
        ensures
            ({
                let before = old(self).timeline.title_clips@;
                let now = moved_titles(before, old(self).selection.selected_title_clip, moves@);
                &&& final(self).timeline.title_clips@ == now.0
                &&& final(self).selection.selected_title_clip == now.1
                &&& moves@.len() == 0 ==> final(self).undo_stack == old(self).undo_stack
                &&& moves@.len() > 0 ==> final(self).undos() == undos_with_titles(
                    old(self).undos(),
                    before,
                    now.0,
                    "Move Title Clip"@,
                )
                &&& final(self).redos() == (if moves@.len() == 0 || same_titles(before, now.0) {
                    old(self).redos()
                } else {
                    Seq::empty()
                })
            }),
            final(self).timeline.tracks == old(self).timeline.tracks,
            final(self).timeline.pixels_per_second == old(self).timeline.pixels_per_second,
            *final(self) == (AppState {
                timeline: final(self).timeline,
                selection: Selection {
                    selected_title_clip: final(self).selection.selected_title_clip,
                    ..old(self).selection
                },
                undo_stack: final(self).undo_stack,
                redo_stack: final(self).redo_stack,
                ..*old(self)
            }),
    {
        let before = copy_titles(&self.timeline.title_clips);
        let ghost was = *self;
        let mut i: usize = 0;
        assert(moves@.take(0) =~= Seq::empty());
        while i < moves.len()
            invariant
                i <= moves@.len(),
                (self.timeline.title_clips@, self.selection.selected_title_clip) == moved_titles(
                    was.timeline.title_clips@,
                    was.selection.selected_title_clip,
                    moves@.take(i as int),
                ),
                self.timeline.tracks == was.timeline.tracks,
                self.timeline.pixels_per_second == was.timeline.pixels_per_second,
                *self == (AppState {
                    timeline: self.timeline,
                    selection: Selection {
                        selected_title_clip: self.selection.selected_title_clip,
                        ..was.selection
                    },
                    ..was
                }),
            decreases moves@.len() - i,
        {
            assert(moves@.take(i + 1).drop_last() =~= moves@.take(i as int));
            self.move_title(moves[i]);
            i = i + 1;
        }
        assert(moves@.take(moves@.len() as int) =~= moves@);
        if moves.len() > 0 && !titles_agree(&before, &self.timeline.title_clips) {
            let after = copy_titles(&self.timeline.title_clips);
            self.push_edit(EditCommand::TitleSnapshot { before, after, label: "Move Title Clip" });
            assert(self.redos() =~= Seq::empty());
        }
    }

    fn trim_title(&mut self, t: TitleTrim)
        ensures
            final(self).timeline.title_clips@ == trimmed_title(old(self).timeline.title_clips@, t),
            final(self).timeline.tracks == old(self).timeline.tracks,
            final(self).timeline.pixels_per_second == old(self).timeline.pixels_per_second,
            *final(self) == (AppState { timeline: final(self).timeline, ..*old(self) }),
    {
        let mut titles: Vec<TitleClip> = Vec::new();
        std::mem::swap(&mut titles, &mut self.timeline.title_clips);
        self.timeline.title_clips = sort(retimed(titles, t.clip, t.start, Some(t.duration)));
    }

    /// Trims titles. The trims together are one edit that can be undone, where they
    /// change anything.
    pub fn trim_titles(&mut self, trims: &Vec<TitleTrim>)
        ensures
            ({
                let before = old(self).timeline.title_clips@;
                let now = trimmed_titles(before, trims@);
                &&& final(self).timeline.title_clips@ == now
                &&& trims@.len() == 0 ==> final(self).undo_stack == old(self).undo_stack
                &&& trims@.len() > 0 ==> final(self).undos() == undos_with_titles(
                    old(self).undos(),
                    before,
                    now,
                    "Trim Title Clip"@,
                )
                &&& final(self).redos() == (if trims@.len() == 0 || same_titles(before, now) {
                    old(self).redos()
                } else {
                    Seq::empty()
                })
            }),
            final(self).timeline.tracks == old(self).timeline.tracks,
            final(self).timeline.pixels_per_second == old(self).timeline.pixels_per_second,
            *final(self) == (AppState {
                timeline: final(self).timeline,
                undo_stack: final(self).undo_stack,
                redo_stack: final(self).redo_stack,
                ..*old(self)
            }),
    {
        let before = copy_titles(&self.timeline.title_clips);
        let ghost was = *self;
        let mut i: usize = 0;
        assert(trims@.take(0) =~= Seq::empty());
        while i < trims.len()
            invariant
                i <= trims@.len(),
                self.timeline.title_clips@ == trimmed_titles(
                    was.timeline.title_clips@,
                    trims@.take(i as int),
                ),
                self.timeline.tracks == was.timeline.tracks,
                self.timeline.pixels_per_second == was.timeline.pixels_per_second,
                *self == (AppState { timeline: self.timeline, ..was }),
            decreases trims@.len() - i,
        {
            assert(trims@.take(i + 1).drop_last() =~= trims@.take(i as int));
            self.trim_title(trims[i]);
            i = i + 1;
        }
        assert(trims@.take(trims@.len() as int) =~= trims@);
        if trims.len() > 0 && !titles_agree(&before, &self.timeline.title_clips) {
            let after = copy_titles(&self.timeline.title_clips);
            self.push_edit(EditCommand::TitleSnapshot { before, after, label: "Trim Title Clip" });
            assert(self.redos() =~= Seq::empty());
        }
    }
}

/// Undoing a recorded edit of titles gives back the titles from before it, and
/// making it again those from after it, whatever is on the tracks.
pub proof fn title_edit_is_undone(
    tracks: Seq<Lane>,
    before: Seq<TitleClip>,
    now: Seq<TitleClip>,
    label: Seq<char>,
)
    ensures
        ({
            let edit = Change::Titles { before, after: now, label };
            &&& replayed(tracks, now, edit, false) == (tracks, before)
            &&& replayed(tracks, before, edit, true) == (tracks, now)
        }),
{
}

/// A title from a preset starts where it was dropped, lasts as long as the preset says,
/// and has its text, size, colour and alignment.
pub proof fn preset_gives_the_title(preset: TextClipPreset, start: Duration)
    ensures
        ({
            let t = title_from(preset, start);
            &&& t.start_on_track == start
            &&& t.duration == preset.default_duration
            &&& t.text@ == preset.text@
            &&& t.font_size == preset.font_size
            &&& t.color == preset.color
            &&& t.h_align == preset.h_align
            &&& t.v_align == preset.v_align
        }),
{
}

/// The title that is selected after a drop starts where it was dropped, and no title
/// before it does.
pub proof fn first_at_the_drop_is_selected(titles: Seq<TitleClip>, start: Duration)
    ensures
        ({
            let i = first_starting(titles, start, 0);
            &&& 0 <= i <= titles.len()
            &&& i < titles.len() ==> titles[i].start_on_track == start
            &&& forall|k: int| 0 <= k < i ==> (#[trigger] titles[k]).start_on_track != start
        }),
{
    first_starting_bounds(titles, start, 0);
}

proof fn first_starting_bounds(titles: Seq<TitleClip>, start: Duration, from: int)
    requires
        0 <= from <= titles.len(),
    ensures
        from <= first_starting(titles, start, from) <= titles.len(),
        first_starting(titles, start, from) < titles.len() ==> titles[first_starting(
            titles,
            start,
            from,
        )].start_on_track == start,
        forall|k: int|
            from <= k < first_starting(titles, start, from) ==> (
            #[trigger] titles[k]).start_on_track != start,
    decreases titles.len() - from,
{
    if from < titles.len() && titles[from].start_on_track != start {
        first_starting_bounds(titles, start, from + 1);
    }
}

proof fn one_title_replaced(titles: Seq<TitleClip>, c: int, t: TitleClip)
    requires
        0 <= c < titles.len(),
    ensures
        titles.update(c, t).to_multiset() == titles.to_multiset().remove(titles[c]).insert(t),
{
    vstd::seq_lib::to_multiset_remove(titles, c);
    let rest = titles.remove(c);
    vstd::seq_lib::to_multiset_insert(rest, c, t);
    assert(rest.insert(c, t) =~= titles.update(c, t));
}

/// A move gives one title another start and keeps the rest of it and all other titles;
/// a move of a title that is not there leaves the titles and the selection. Titles stay in
/// order of their starts.
pub proof fn move_changes_one_start(
    titles: Seq<TitleClip>,
    selected: Option<usize>,
    m: TitleMove,
    moved: TitleClip,
)
    requires
        m.clip < titles.len() ==> {
            let t = titles[m.clip as int];
            &&& moved.start_on_track == m.start
            &&& moved.duration == t.duration
            &&& moved.text == t.text
            &&& moved.font_size == t.font_size
            &&& moved.color == t.color
            &&& moved.h_align == t.h_align
            &&& moved.v_align == t.v_align
        },
    ensures
        ({
            let (now, chosen) = moved_title(titles, selected, m);
            &&& m.clip < titles.len() ==> now.to_multiset() == titles.to_multiset().remove(
                titles[m.clip as int],
            ).insert(moved)
            &&& m.clip >= titles.len() ==> now.to_multiset() == titles.to_multiset() && chosen
                == selected
            &&& forall|i: int, j: int|
                0 <= i <= j < now.len() ==> (#[trigger] now[i]).start_on_track.nanos <= (
                #[trigger] now[j]).start_on_track.nanos
        }),
{
    let now = with_move(titles, m);
    sorted_in_order(now);
    let s = sorted(now);
    assert forall|i: int, j: int| 0 <= i <= j < s.len() implies (
    #[trigger] s[i]).start_on_track.nanos <= (#[trigger] s[j]).start_on_track.nanos by {
        assert(s[i].key() <= s[j].key());
    }
    if m.clip < titles.len() {
        let t = titles[m.clip as int];
        assert(moved == TitleClip { start_on_track: m.start, ..t });
        one_title_replaced(titles, m.clip as int, moved);
    }
}

/// Moves are made one after the other, each on what the ones before it left.
pub proof fn moves_follow_each_other(
    titles: Seq<TitleClip>,
    selected: Option<usize>,
    moves: Seq<TitleMove>,
    m: TitleMove,
)
    ensures
        moved_titles(titles, selected, Seq::empty()) == (titles, selected),
        ({
            let (so_far, chosen) = moved_titles(titles, selected, moves);
            moved_titles(titles, selected, moves.push(m)) == moved_title(so_far, chosen, m)
        }),
{
    assert(moves.push(m).drop_last() =~= moves);
}

/// A trim gives one title another start and length and keeps the rest of it and all
/// other titles; a trim of a title that is not there keeps them all. Titles stay in order
/// of their starts.
pub proof fn trim_changes_start_and_length(
    titles: Seq<TitleClip>,
    t: TitleTrim,
    trimmed: TitleClip,
)
    requires
        t.clip < titles.len() ==> {
            let was = titles[t.clip as int];
            &&& trimmed.start_on_track == t.start
            &&& trimmed.duration == t.duration
            &&& trimmed.text == was.text
            &&& trimmed.font_size == was.font_size
            &&& trimmed.color == was.color
            &&& trimmed.h_align == was.h_align
            &&& trimmed.v_align == was.v_align
        },
    ensures
        ({
            let now = trimmed_title(titles, t);
            &&& t.clip < titles.len() ==> now.to_multiset() == titles.to_multiset().remove(
                titles[t.clip as int],
            ).insert(trimmed)
            &&& t.clip >= titles.len() ==> now.to_multiset() == titles.to_multiset()
            &&& forall|i: int, j: int|
                0 <= i <= j < now.len() ==> (#[trigger] now[i]).start_on_track.nanos <= (
                #[trigger] now[j]).start_on_track.nanos
        }),
{
    let c = t.clip as int;
    let now = if c < titles.len() {
        titles.update(c, trimmed)
    } else {
        titles
    };
    if c < titles.len() {
        assert(trimmed == TitleClip { start_on_track: t.start, duration: t.duration, ..titles[c] });
        one_title_replaced(titles, c, trimmed);
    }
    assert(trimmed_title(titles, t) == sorted(now));
    sorted_in_order(now);
    let s = sorted(now);
    assert forall|i: int, j: int| 0 <= i <= j < s.len() implies (
    #[trigger] s[i]).start_on_track.nanos <= (#[trigger] s[j]).start_on_track.nanos by {
        assert(s[i].key() <= s[j].key());
    }
}

/// Trims are made one after the other, each on what the ones before it left.
pub proof fn trims_follow_each_other(
    titles: Seq<TitleClip>,
    trims: Seq<TitleTrim>,
    t: TitleTrim,
)
    ensures
        trimmed_titles(titles, Seq::empty()) == titles,
        trimmed_titles(titles, trims.push(t)) == trimmed_title(trimmed_titles(titles, trims), t),
{
    assert(trims.push(t).drop_last() =~= trims);
}

/// After a title was deleted the same title is selected as before, and none where the
/// deleted one was.
pub proof fn selection_stays_on_its_title(titles: Seq<TitleClip>, s: usize, gone: usize)
    requires
        gone < titles.len(),
        s < titles.len(),
    ensures
        selection_without(None, gone) is None,
        s == gone ==> selection_without(Some(s), gone) is None,
        s != gone ==> ({
            let now = selection_without(Some(s), gone);
            &&& now is Some
            &&& now->0 < titles.len() - 1
            &&& titles.remove(gone as int)[now->0 as int] == titles[s as int]
        }),
{
}

/// Lists of titles agree only where every title has the same start, length, text, size,
/// colour and alignment in both; and a list agrees with itself.
pub proof fn changed_title_is_seen(a: Seq<TitleClip>, b: Seq<TitleClip>, i: int)
    ensures
        same_titles(a, a),
        same_titles(a, b) ==> a.len() == b.len(),
        same_titles(a, b) && 0 <= i < a.len() ==> {
            &&& a[i].start_on_track == b[i].start_on_track
            &&& a[i].duration == b[i].duration
            &&& a[i].text@ == b[i].text@
            &&& a[i].font_size == b[i].font_size
            &&& a[i].color@ == b[i].color@
            &&& a[i].h_align == b[i].h_align
            &&& a[i].v_align == b[i].v_align
        },
{
    if same_titles(a, b) && 0 <= i < a.len() {
        assert(same_title(a[i], b[i]));
    }
}

/// A change of titles adds one undo step, on top, that holds the titles from before and
/// after it; where nothing changed there is no step.
pub proof fn title_change_is_one_step(
    undos: Seq<Change>,
    before: Seq<TitleClip>,
    now: Seq<TitleClip>,
    label: Seq<char>,
)
    ensures
        same_titles(before, now) ==> undos_with_titles(undos, before, now, label) == undos,
        !same_titles(before, now) ==> {
            let steps = undos_with_titles(undos, before, now, label);
            &&& steps.len() > 0
            &&& steps.last() == (Change::Titles { before, after: now, label })
            &&& undos.len() < 50 ==> steps.drop_last() == undos
        },
{
    if undos.len() < 50 && !same_titles(before, now) {
        assert(undos_with_titles(undos, before, now, label).drop_last() =~= undos);
    }
}

} // verus!
