//! Cutting an export down to a range of the timeline.

use crate::export_clip::ExportClip;
use crate::state::TitleClip;
use crate::time::{Duration, MAX_NANOS};
use vstd::prelude::*;

verus! {

/// How a clip lies on the timeline, in time of the timeline and of its source.
/// The source times follow from the speed of the clip.
#[derive(Clone, Copy, PartialEq, Eq, Structural, Debug)]
pub struct RangeTiming {
    /// How long the clip lasts on the timeline.
    pub length: Duration,
    /// Source time that plays before the range.
    pub skip: Duration,
    /// Source time that plays after the range.
    pub trim: Duration,
}

/// The larger of the two.
pub open spec fn later(a: int, b: int) -> int {
    if a >= b {
        a
    } else {
        b
    }
}

/// The smaller of the two.
pub open spec fn earlier(a: int, b: int) -> int {
    if a <= b {
        a
    } else {
        b
    }
}

/// Where a clip starts in its source.
pub open spec fn source_in(c: ExportClip) -> int {
    match c.in_point {
        Some(d) => d.nanos as int,
        None => 0,
    }
}

/// Where a clip ends in its source.
pub open spec fn source_out(c: ExportClip) -> int {
    match c.out_point {
        Some(d) => d.nanos as int,
        None => c.source_duration.nanos as int,
    }
}

/// How much of its source a clip plays.
pub fn source_span(c: &ExportClip) -> (d: Duration)
    ensures
        d.nanos == later(source_out(*c) - source_in(*c), 0),
{
    let from = match c.in_point {
        Some(d) => d,
        None => Duration::zero(),
    };
    let to = match c.out_point {
        Some(d) => d,
        None => c.source_duration,
    };
    to.saturating_sub(from)
}

/// How much of a clip lies before and after a range, in time of the timeline.
pub fn overhang(
    start: Duration,
    length: Duration,
    range_in: Duration,
    range_out: Duration,
) -> (o: (Duration, Duration))
    requires
        start.nanos + length.nanos <= MAX_NANOS,
    ensures
        o.0.nanos == later(range_in.nanos - start.nanos, 0),
        o.1.nanos == later(start.nanos + length.nanos - range_out.nanos, 0),
{
    (range_in.saturating_sub(start), start.plus(length).saturating_sub(range_out))
}

/// The clip overlaps the range.
pub open spec fn in_range(
    c: ExportClip,
    t: RangeTiming,
    range_in: Duration,
    range_out: Duration,
) -> bool {
    c.start_on_track.nanos + t.length.nanos > range_in.nanos && c.start_on_track.nanos
        < range_out.nanos
}

/// The times of a clip stay within the range of [`Duration`].
pub open spec fn timing_fits(c: ExportClip, t: RangeTiming) -> bool {
    c.start_on_track.nanos + t.length.nanos <= MAX_NANOS && source_in(c) + t.skip.nanos
        <= MAX_NANOS
}

/// The in point after the start of the clip was cut.
pub open spec fn cut_in(c: ExportClip, t: RangeTiming, range_in: Duration) -> Option<Duration> {
    if c.start_on_track.nanos < range_in.nanos {
        Some(Duration { nanos: (source_in(c) + t.skip.nanos) as u128 })
    } else {
        c.in_point
    }
}

/// The out point after the end of the clip was cut. It never lies before the in
/// point.
pub open spec fn cut_out(
    c: ExportClip,
    t: RangeTiming,
    range_in: Duration,
    range_out: Duration,
) -> Option<Duration> {
    if c.start_on_track.nanos + t.length.nanos > range_out.nanos {
        let floor = match cut_in(c, t, range_in) {
            Some(d) => d.nanos as int,
            None => 0,
        };
        Some(Duration { nanos: later(later(source_out(c) - t.trim.nanos, 0), floor) as u128 })
    } else {
        c.out_point
    }
}

/// The clip cut to the range and moved so that the range starts at zero. Where an
/// out point is set, an in point is set with it.
pub open spec fn cut_to_range(
    c: ExportClip,
    t: RangeTiming,
    range_in: Duration,
    range_out: Duration,
) -> ExportClip {
    let out_point = cut_out(c, t, range_in, range_out);
    let in_point = cut_in(c, t, range_in);
    ExportClip {
        start_on_track: Duration {
            nanos: later(c.start_on_track.nanos - range_in.nanos, 0) as u128,
        },
        in_point: if out_point is Some && in_point is None {
            Some(Duration { nanos: source_in(c) as u128 })
        } else {
            in_point
        },
        out_point,
        ..c
    }
}

/// The clips that overlap the range, each cut to it, in their order.
pub open spec fn range_filtered(
    clips: Seq<ExportClip>,
    timings: Seq<RangeTiming>,
    range_in: Duration,
    range_out: Duration,
) -> Seq<ExportClip>
    decreases clips.len(),
{
    if clips.len() == 0 {
        Seq::empty()
    } else {
        let rest = range_filtered(clips.drop_last(), timings.drop_last(), range_in, range_out);
        if in_range(clips.last(), timings.last(), range_in, range_out) {
            rest.push(cut_to_range(clips.last(), timings.last(), range_in, range_out))
        } else {
            rest
        }
    }
}

/// Cuts one clip to the range; `None` where it lies outside.
pub fn cut_clip(
    clip: ExportClip,
    t: RangeTiming,
    range_in: Duration,
    range_out: Duration,
) -> (r: Option<ExportClip>)
    requires
        timing_fits(clip, t),
    ensures
        r == (if in_range(clip, t, range_in, range_out) {
            Some(cut_to_range(clip, t, range_in, range_out))
        } else {
            None
        }),
{
    let eff_in = match clip.in_point {
        Some(d) => d,
        None => Duration::zero(),
    };
    let eff_out = match clip.out_point {
        Some(d) => d,
        None => clip.source_duration,
    };
    let end = clip.start_on_track.plus(t.length);
    if end.nanos <= range_in.nanos || clip.start_on_track.nanos >= range_out.nanos {
        return None;
    }
    let mut c = clip;
    if c.start_on_track.nanos < range_in.nanos {
        c.in_point = Some(eff_in.plus(t.skip));
        c.start_on_track = Duration::zero();
    } else {
        c.start_on_track = c.start_on_track.saturating_sub(range_in);
    }
    if end.nanos > range_out.nanos {
        let floor = match c.in_point {
            Some(d) => d,
            None => Duration::zero(),
        };
        c.out_point = Some(eff_out.saturating_sub(t.trim).max(floor));
    }
    if c.out_point.is_some() && c.in_point.is_none() {
        c.in_point = Some(eff_in);
    }
    Some(c)
}

/// Keeps the clips of a track that overlap the range, each cut to it.
pub fn clip_range_filter(
    clips: Vec<ExportClip>,
    timings: &Vec<RangeTiming>,
    range_in: Duration,
    range_out: Duration,
) -> (out: Vec<ExportClip>)
    requires
        timings@.len() == clips@.len(),
        forall|i: int| 0 <= i < clips@.len() ==> timing_fits(#[trigger] clips@[i], timings@[i]),
    ensures
        out@ == range_filtered(clips@, timings@, range_in, range_out),
{
    let ghost all = clips@;
    let mut out: Vec<ExportClip> = Vec::new();
    let total: usize = timings.len();
    let mut n: usize = 0;
    for c in it: clips
        invariant
            it.seq() == all,
            n == it.index(),
            total == timings@.len(),
            timings@.len() == all.len(),
            forall|i: int| 0 <= i < all.len() ==> timing_fits(#[trigger] all[i], timings@[i]),
            out@ == range_filtered(
                all.take(n as int),
                timings@.take(n as int),
                range_in,
                range_out,
            ),
    {
        proof {
            assert(c == all[n as int]);
            assert(all.take(n + 1).drop_last() =~= all.take(n as int));
            assert(timings@.take(n + 1).drop_last() =~= timings@.take(n as int));
        }
        if let Some(kept) = cut_clip(c, timings[n], range_in, range_out) {
            out.push(kept);
        }
        n = n + 1;
    }
    assert(all.take(n as int) =~= all);
    assert(timings@.take(n as int) =~= timings@);
    out
}

/// The timing of a clip that plays at its own speed.
pub open spec fn plain_timing(
    c: ExportClip,
    range_in: Duration,
    range_out: Duration,
) -> RangeTiming {
    let length = later(source_out(c) - source_in(c), 0);
    RangeTiming {
        length: Duration { nanos: length as u128 },
        skip: Duration { nanos: later(range_in.nanos - c.start_on_track.nanos, 0) as u128 },
        trim: Duration {
            nanos: later(c.start_on_track.nanos + length - range_out.nanos, 0) as u128,
        },
    }
}

/// A clip that plays at its own speed keeps exactly the part that overlaps the
/// range, from the same moments of its source, at the place where the range had
/// it.
pub proof fn cut_keeps_the_overlap(c: ExportClip, range_in: Duration, range_out: Duration)
    requires
        source_in(c) <= source_out(c) <= MAX_NANOS,
        c.start_on_track.nanos + (source_out(c) - source_in(c)) <= MAX_NANOS,
        range_in.nanos < range_out.nanos,
        in_range(c, plain_timing(c, range_in, range_out), range_in, range_out),
    ensures
        ({
            let start = c.start_on_track.nanos as int;
            let end = start + source_out(c) - source_in(c);
            let from = later(start, range_in.nanos as int);
            let to = earlier(end, range_out.nanos as int);
            let cut = cut_to_range(c, plain_timing(c, range_in, range_out), range_in, range_out);
            &&& cut.start_on_track.nanos == from - range_in.nanos
            &&& source_in(cut) == source_in(c) + (from - start)
            &&& source_out(cut) == source_out(c) - (end - to)
            &&& source_out(cut) - source_in(cut) == to - from
            &&& cut.start_on_track.nanos + (source_out(cut) - source_in(cut)) <= range_out.nanos
                - range_in.nanos
        }),
{
}

/// Whatever the speed of a clip, what is left of it lies in the range: it starts where
/// the range has it, lasts what the range leaves of it, and ends in the range. Its source
/// loses what plays before and after.
pub proof fn cut_stays_in_the_range(
    c: ExportClip,
    t: RangeTiming,
    range_in: Duration,
    range_out: Duration,
)
    requires
        timing_fits(c, t),
        range_in.nanos < range_out.nanos,
        in_range(c, t, range_in, range_out),
    ensures
        ({
            let start = c.start_on_track.nanos as int;
            let end = start + t.length.nanos;
            let before = later(range_in.nanos - start, 0);
            let after = later(end - range_out.nanos, 0);
            let cut = cut_to_range(c, t, range_in, range_out);
            let new_start = cut.start_on_track.nanos as int;
            let new_end = new_start + (t.length.nanos - before - after);
            &&& new_start == later(start, range_in.nanos as int) - range_in.nanos
            &&& new_end == earlier(end, range_out.nanos as int) - range_in.nanos
            &&& 0 <= new_start <= new_end <= range_out.nanos - range_in.nanos
            &&& t.length.nanos > 0 ==> new_start < new_end
            &&& source_in(cut) == source_in(c) + (if before > 0 {
                t.skip.nanos as int
            } else {
                0
            })
            &&& source_out(cut) == (if after > 0 {
                later(source_out(c) - t.trim.nanos, source_in(cut))
            } else {
                source_out(c)
            })
        }),
{
}

/// A range that holds every clip whole only moves them.
pub proof fn wide_range_only_moves(
    clips: Seq<ExportClip>,
    timings: Seq<RangeTiming>,
    range_in: Duration,
    range_out: Duration,
)
    requires
        timings.len() == clips.len(),
        forall|i: int|
            0 <= i < clips.len() ==> {
                &&& range_in.nanos <= (#[trigger] clips[i]).start_on_track.nanos
                &&& clips[i].start_on_track.nanos + timings[i].length.nanos <= range_out.nanos
                &&& timings[i].length.nanos > 0
            },
    ensures
        range_filtered(clips, timings, range_in, range_out).len() == clips.len(),
        forall|i: int|
            0 <= i < clips.len() ==> (#[trigger] range_filtered(
                clips,
                timings,
                range_in,
                range_out,
            )[i]).start_on_track.nanos == clips[i].start_on_track.nanos - range_in.nanos,
    decreases clips.len(),
{
    if clips.len() > 0 {
        let shorter = clips.drop_last();
        assert forall|i: int| 0 <= i < shorter.len() implies {
            &&& range_in.nanos <= (#[trigger] shorter[i]).start_on_track.nanos
            &&& shorter[i].start_on_track.nanos + timings.drop_last()[i].length.nanos
                <= range_out.nanos
            &&& timings.drop_last()[i].length.nanos > 0
        } by {
            assert(shorter[i] == clips[i]);
        }
        wide_range_only_moves(shorter, timings.drop_last(), range_in, range_out);
        assert(clips.last() == clips[clips.len() - 1]);
        assert(in_range(clips.last(), timings.last(), range_in, range_out));
    }
}

// ── Titles ────────────────────────────────────────────────────────────────────

/// The title overlaps the range.
pub open spec fn title_in_range(t: TitleClip, range_in: Duration, range_out: Duration) -> bool {
    t.start_on_track.nanos < range_out.nanos && t.start_on_track.nanos + t.duration.nanos
        > range_in.nanos
}

/// The title cut to the range and moved with it, never shorter than a
/// millisecond.
pub open spec fn cut_title_to_range(
    t: TitleClip,
    range_in: Duration,
    range_out: Duration,
) -> TitleClip {
    let end = t.start_on_track.nanos + t.duration.nanos;
    let start = later(t.start_on_track.nanos - range_in.nanos, 0);
    let new_end = later(earlier(end, range_out.nanos as int) - range_in.nanos, 0);
    TitleClip {
        start_on_track: Duration { nanos: start as u128 },
        duration: Duration { nanos: later(new_end - start, 1_000_000) as u128 },
        ..t
    }
}

/// The titles that overlap the range, each cut to it, in their order.
pub open spec fn titles_in_range(
    titles: Seq<TitleClip>,
    range_in: Duration,
    range_out: Duration,
) -> Seq<TitleClip>
    decreases titles.len(),
{
    if titles.len() == 0 {
        Seq::empty()
    } else {
        let rest = titles_in_range(titles.drop_last(), range_in, range_out);
        if title_in_range(titles.last(), range_in, range_out) {
            rest.push(cut_title_to_range(titles.last(), range_in, range_out))
        } else {
            rest
        }
    }
}

/// Keeps the titles that overlap the range, each cut to it.
pub fn title_range_filter(
    titles: Vec<TitleClip>,
    range_in: Duration,
    range_out: Duration,
) -> (out: Vec<TitleClip>)
    requires
        forall|i: int|
            0 <= i < titles@.len() ==> (#[trigger] titles@[i]).start_on_track.nanos
                + titles@[i].duration.nanos <= MAX_NANOS,
    ensures
        out@ == titles_in_range(titles@, range_in, range_out),
{
    let ghost all = titles@;
    let mut out: Vec<TitleClip> = Vec::new();
    for t in it: titles
        invariant
            it.seq() == all,
            forall|i: int|
                0 <= i < all.len() ==> (#[trigger] all[i]).start_on_track.nanos
                    + all[i].duration.nanos <= MAX_NANOS,
            out@ == titles_in_range(all.take(it.index() as int), range_in, range_out),
    {
        proof {
            let n = it.index() as int;
            assert(t == all[n]);
            assert(all.take(n + 1).drop_last() =~= all.take(n));
        }
        let mut title = t;
        let end = title.start_on_track.plus(title.duration);
        if title.start_on_track.nanos < range_out.nanos && end.nanos > range_in.nanos {
            let start = title.start_on_track.saturating_sub(range_in);
            let new_end = end.min(range_out).saturating_sub(range_in);
            title.start_on_track = start;
            title.duration = new_end.saturating_sub(start).max(Duration::from_millis(1));
            out.push(title);
        }
    }
    assert(all.take(all.len() as int) =~= all);
    out
}

/// A title that overlaps the range starts inside it, and ends inside it unless it
/// had to be lengthened to a millisecond.
pub proof fn cut_title_stays_inside(t: TitleClip, range_in: Duration, range_out: Duration)
    requires
        range_in.nanos < range_out.nanos,
        t.start_on_track.nanos + t.duration.nanos <= MAX_NANOS,
        title_in_range(t, range_in, range_out),
    ensures
        ({
            let cut = cut_title_to_range(t, range_in, range_out);
            &&& cut.start_on_track.nanos < range_out.nanos - range_in.nanos
            &&& cut.duration.nanos >= 1_000_000
            &&& cut.duration.nanos > 1_000_000 ==> cut.start_on_track.nanos + cut.duration.nanos
                <= range_out.nanos - range_in.nanos
        }),
{
}

// ── What a cut leaves ─────────────────────────────────────────────────────────

/// A cut changes the place and the trim of a clip and nothing else. A clip that lies whole
/// in the range keeps its trim too; one that begins in the range keeps its in-point, and
/// one that ends in it its out-point.
pub proof fn cut_keeps_the_settings(
    c: ExportClip,
    t: RangeTiming,
    range_in: Duration,
    range_out: Duration,
)
    requires
        timing_fits(c, t),
    ensures
        ({
            let cut = cut_to_range(c, t, range_in, range_out);
            let begins = c.start_on_track.nanos >= range_in.nanos;
            let ends = c.start_on_track.nanos + t.length.nanos <= range_out.nanos;
            &&& cut == (ExportClip {
                start_on_track: cut.start_on_track,
                in_point: cut.in_point,
                out_point: cut.out_point,
                ..c
            })
            &&& begins && c.in_point is Some ==> cut.in_point == c.in_point
            &&& ends ==> cut.out_point == c.out_point
            &&& begins && ends && c.out_point is None ==> cut.in_point == c.in_point
            &&& cut.out_point is Some ==> cut.in_point is Some
            &&& !ends ==> cut.out_point is Some && cut.in_point->0.nanos <= cut.out_point->0.nanos
        }),
{
}

/// Each clip is cut by itself: what is left of a track is what is left of its parts, a clip
/// that overlaps the range is left as it is cut, and one that does not is left out.
pub proof fn clips_are_cut_by_themselves(
    a: Seq<ExportClip>,
    b: Seq<ExportClip>,
    times_a: Seq<RangeTiming>,
    times_b: Seq<RangeTiming>,
    c: ExportClip,
    t: RangeTiming,
    range_in: Duration,
    range_out: Duration,
)
    requires
        times_a.len() == a.len(),
        times_b.len() == b.len(),
    ensures
        range_filtered(a + b, times_a + times_b, range_in, range_out) == range_filtered(
            a,
            times_a,
            range_in,
            range_out,
        ) + range_filtered(b, times_b, range_in, range_out),
        range_filtered(seq![c], seq![t], range_in, range_out) == (if c.start_on_track.nanos
            + t.length.nanos > range_in.nanos && c.start_on_track.nanos < range_out.nanos {
            seq![cut_to_range(c, t, range_in, range_out)]
        } else {
            Seq::empty()
        }),
    decreases b.len(),
{
    assert(seq![c].drop_last() =~= Seq::empty());
    assert(seq![t].drop_last() =~= Seq::empty());
    assert(seq![c].last() == c && seq![t].last() == t);
    assert(range_filtered(Seq::empty(), Seq::empty(), range_in, range_out) == Seq::<
        ExportClip,
    >::empty());
    assert(Seq::<ExportClip>::empty().push(cut_to_range(c, t, range_in, range_out)) =~= seq![
        cut_to_range(c, t, range_in, range_out),
    ]);
    let front = range_filtered(a, times_a, range_in, range_out);
    if b.len() == 0 {
        assert(a + b =~= a);
        assert(times_a + times_b =~= times_a);
        assert(front + range_filtered(b, times_b, range_in, range_out) =~= front);
    } else {
        clips_are_cut_by_themselves(
            a,
            b.drop_last(),
            times_a,
            times_b.drop_last(),
            c,
            t,
            range_in,
            range_out,
        );
        assert((a + b).drop_last() =~= a + b.drop_last());
        assert((times_a + times_b).drop_last() =~= times_a + times_b.drop_last());
        assert((a + b).last() == b.last());
        assert((times_a + times_b).last() == times_b.last());
        let rest = range_filtered(b.drop_last(), times_b.drop_last(), range_in, range_out);
        let cut = cut_to_range(b.last(), times_b.last(), range_in, range_out);
        assert((front + rest).push(cut) =~= front + rest.push(cut));
    }
}

/// A title that is cut keeps its text, size, colour and alignment. It starts where the
/// range has it, and lasts as long as the range shows it, at least a millisecond.
pub proof fn cut_title_keeps_its_look(t: TitleClip, range_in: Duration, range_out: Duration)
    requires
        range_in.nanos < range_out.nanos <= MAX_NANOS,
        t.start_on_track.nanos + t.duration.nanos <= MAX_NANOS,
        title_in_range(t, range_in, range_out),
    ensures
        ({
            let cut = cut_title_to_range(t, range_in, range_out);
            let end = t.start_on_track.nanos + t.duration.nanos;
            let from = if t.start_on_track.nanos > range_in.nanos {
                t.start_on_track.nanos
            } else {
                range_in.nanos
            };
            let to = if end < range_out.nanos {
                end
            } else {
                range_out.nanos as int
            };
            &&& cut.text == t.text && cut.font_size == t.font_size && cut.color == t.color
            &&& cut.h_align == t.h_align && cut.v_align == t.v_align
            &&& cut.start_on_track.nanos == from - range_in.nanos
            &&& to - from >= 1_000_000 ==> cut.duration.nanos == to - from
            &&& to - from < 1_000_000 ==> cut.duration.nanos == 1_000_000
        }),
{
}

/// Each title is cut by itself: one that overlaps the range is left as it is cut, and one
/// that does not is left out.
pub proof fn titles_are_cut_by_themselves(
    a: Seq<TitleClip>,
    b: Seq<TitleClip>,
    t: TitleClip,
    range_in: Duration,
    range_out: Duration,
)
    ensures
        titles_in_range(a + b, range_in, range_out) == titles_in_range(a, range_in, range_out)
            + titles_in_range(b, range_in, range_out),
        titles_in_range(seq![t], range_in, range_out) == (if t.start_on_track.nanos
            < range_out.nanos && t.start_on_track.nanos + t.duration.nanos > range_in.nanos {
            seq![cut_title_to_range(t, range_in, range_out)]
        } else {
            Seq::empty()
        }),
    decreases b.len(),
{
    let cut = cut_title_to_range(t, range_in, range_out);
    assert(seq![t].drop_last() =~= Seq::empty());
    assert(seq![t].last() == t);
    assert(titles_in_range(Seq::empty(), range_in, range_out) == Seq::<TitleClip>::empty());
    assert(Seq::<TitleClip>::empty().push(cut) =~= seq![cut]);
    let front = titles_in_range(a, range_in, range_out);
    if b.len() == 0 {
        assert(a + b =~= a);
        assert(front + titles_in_range(b, range_in, range_out) =~= front);
    } else {
        titles_are_cut_by_themselves(a, b.drop_last(), t, range_in, range_out);
        assert((a + b).drop_last() =~= a + b.drop_last());
        assert((a + b).last() == b.last());
        let rest = titles_in_range(b.drop_last(), range_in, range_out);
        let last = cut_title_to_range(b.last(), range_in, range_out);
        assert((front + rest).push(last) =~= front + rest.push(last));
    }
}

} // verus!
