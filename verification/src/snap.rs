//! Where dragged clips and edges come to rest: snapping to neighbours, and trims
//! within the limits of the source.

use crate::time::{distance, Duration, MAX_NANOS};
use crate::timeline_clip::TimelineClip;
use vstd::prelude::*;

verus! {

/// How far clips may overlap without being pushed apart.
pub const OVERLAP_TOLERANCE: u128 = 1_000_000;

/// The shortest title.
pub const SHORTEST_TITLE: u128 = 100_000_000;

/// Where a clip lies on its track.
#[derive(Clone, Copy, PartialEq, Eq, Structural, Debug)]
pub struct Span {
    pub start: Duration,
    pub end: Duration,
}

/// The span of a clip that is so long on the timeline.
pub open spec fn span_of(c: TimelineClip, length: Duration) -> Span {
    Span {
        start: c.start_on_track,
        end: Duration { nanos: (c.start_on_track.nanos + length.nanos) as u128 },
    }
}

/// The spans of the first `n` clips but for the one at `skip` and those without a
/// source.
pub open spec fn spans(
    clips: Seq<TimelineClip>,
    lengths: Seq<Duration>,
    sources: int,
    skip: Option<usize>,
    n: int,
) -> Seq<Span>
    decreases n,
{
    if n <= 0 {
        Seq::empty()
    } else if skip == Some((n - 1) as usize) || clips[n - 1].source_index >= sources {
        spans(clips, lengths, sources, skip, n - 1)
    } else {
        spans(clips, lengths, sources, skip, n - 1).push(span_of(clips[n - 1], lengths[n - 1]))
    }
}

/// The span is a span of time that can be told.
pub open spec fn well_placed(s: Span) -> bool {
    s.start.nanos <= s.end.nanos <= MAX_NANOS
}

/// The spans of the other clips of a track. `lengths` says how long each clip is on
/// the timeline.
pub fn other_spans(
    clips: &Vec<TimelineClip>,
    lengths: &Vec<Duration>,
    sources: usize,
    skip: Option<usize>,
) -> (r: Vec<Span>)
    requires
        clips@.len() == lengths@.len(),
        forall|i: int|
            0 <= i < clips@.len() ==> (#[trigger] clips@[i]).start_on_track.nanos
                + lengths@[i].nanos <= MAX_NANOS,
    ensures
        r@ == spans(clips@, lengths@, sources as int, skip, clips@.len() as int),
        forall|i: int| 0 <= i < r@.len() ==> well_placed(#[trigger] r@[i]),
{
    let mut r: Vec<Span> = Vec::new();
    let mut i: usize = 0;
    while i < clips.len()
        invariant
            i <= clips@.len(),
            clips@.len() == lengths@.len(),
            forall|i: int|
                0 <= i < clips@.len() ==> (#[trigger] clips@[i]).start_on_track.nanos
                    + lengths@[i].nanos <= MAX_NANOS,
            r@ == spans(clips@, lengths@, sources as int, skip, i as int),
            forall|i: int| 0 <= i < r@.len() ==> well_placed(#[trigger] r@[i]),
        decreases clips@.len() - i,
    {
        let c = &clips[i];
        let skipped = match skip {
            Some(k) => k == i,
            None => false,
        };
        if !skipped && c.source_index < sources {
            let start = c.start_on_track;
            r.push(Span { start, end: start.plus(lengths[i]) });
        }
        i = i + 1;
    }
    r
}

// ── Snapping an edge ──────────────────────────────────────────────────────────

/// The better of two places to snap to: the one so far, unless the new one is nearer.
pub open spec fn nearer(best: int, candidate: int, raw: int) -> int {
    if distance(candidate, raw) < distance(best, raw) {
        candidate
    } else {
        best
    }
}

/// The nearest to `raw` among the start of the timeline and the edges of the first
/// `n` spans; of equally near ones the first.
pub open spec fn nearest_edge(others: Seq<Span>, raw: int, n: int) -> int
    decreases n,
{
    if n <= 0 {
        0
    } else {
        nearer(
            nearer(nearest_edge(others, raw, n - 1), others[n - 1].start.nanos as int, raw),
            others[n - 1].end.nanos as int,
            raw,
        )
    }
}

/// Where a trimmed edge comes to rest: at the nearest edge where that is near enough.
pub open spec fn snapped_edge(others: Seq<Span>, raw: int, radius: int) -> int {
    let best = nearest_edge(others, raw, others.len() as int);
    if distance(best, raw) <= radius {
        best
    } else {
        raw
    }
}

/// No edge of another clip, nor the start of the timeline, is nearer than the one that
/// is snapped to.
pub proof fn nearest_edge_is_nearest(others: Seq<Span>, raw: int, n: int)
    requires
        0 <= n <= others.len(),
    ensures
        distance(nearest_edge(others, raw, n), raw) <= distance(0, raw),
        forall|i: int|
            0 <= i < n ==> distance(nearest_edge(others, raw, n), raw) <= distance(
                (#[trigger] others[i]).start.nanos as int,
                raw,
            ) && distance(nearest_edge(others, raw, n), raw) <= distance(
                others[i].end.nanos as int,
                raw,
            ),
    decreases n,
{
    if n > 0 {
        nearest_edge_is_nearest(others, raw, n - 1);
    }
}

/// Snaps a trimmed edge to the start of the timeline or to another clip's edge.
pub fn snap_trim_edge(raw: Duration, others: &Vec<Span>, radius: Duration) -> (r: Duration)
    ensures
        r.nanos == snapped_edge(others@, raw.nanos as int, radius.nanos as int),
{
    let mut best = Duration::zero();
    let mut i: usize = 0;
    while i < others.len()
        invariant
            i <= others@.len(),
            best.nanos == nearest_edge(others@, raw.nanos as int, i as int),
        decreases others@.len() - i,
    {
        let o = &others[i];
        if o.start.abs_diff(raw).nanos < best.abs_diff(raw).nanos {
            best = o.start;
        }
        if o.end.abs_diff(raw).nanos < best.abs_diff(raw).nanos {
            best = o.end;
        }
        i = i + 1;
    }
    if best.abs_diff(raw).nanos <= radius.nanos {
        best
    } else {
        raw
    }
}

// ── Snapping a clip ───────────────────────────────────────────────────────────

/// The nearest to `raw` among the starts of a clip of length `dur` at which it begins
/// with the timeline, begins where one of the first `n` others ends, or ends where one
/// of them begins; of equally near ones the first.
pub open spec fn nearest_start(others: Seq<Span>, raw: int, dur: int, n: int) -> int
    decreases n,
{
    if n <= 0 {
        0
    } else {
        nearer(
            nearer(nearest_start(others, raw, dur, n - 1), others[n - 1].end.nanos as int, raw),
            others[n - 1].start.nanos - dur,
            raw,
        )
    }
}

/// The later of a time and the start of the timeline.
pub open spec fn on_timeline(t: int) -> int {
    if t < 0 {
        0
    } else {
        t
    }
}

/// Where a moved clip is put before overlaps are resolved.
pub open spec fn snapped_start(others: Seq<Span>, raw: int, dur: int, radius: int) -> int {
    let best = nearest_start(others, raw, dur, others.len() as int);
    if distance(best, raw) <= radius {
        on_timeline(best)
    } else {
        raw
    }
}

/// A clip from `pos` on overlaps another one by more than what is tolerated.
pub open spec fn overlaps(other: Span, pos: int, dur: int) -> bool {
    pos + OVERLAP_TOLERANCE < other.end.nanos && pos + dur > other.start.nanos + OVERLAP_TOLERANCE
}

/// The clip overlaps none of the others.
pub open spec fn clear(others: Seq<Span>, pos: int, dur: int) -> bool {
    forall|i: int| 0 <= i < others.len() ==> !overlaps(#[trigger] others[i], pos, dur)
}

/// A clip from `pos` on touches another one: it ends where that one begins, as far as
/// the start of the timeline leaves room, or begins where that one ends.
pub open spec fn touches(other: Span, pos: int, dur: int) -> bool {
    pos == on_timeline(other.start.nanos - dur) || pos == other.end.nanos
}

/// A place beside one of the others at which the clip overlaps none of them.
pub open spec fn free_place(others: Seq<Span>, pos: int, dur: int) -> bool {
    &&& clear(others, pos, dur)
    &&& exists|i: int| 0 <= i < others.len() && touches(#[trigger] others[i], pos, dur)
}

/// `a` is nearer to `raw` than `b`, or as near and not later.
pub open spec fn preferred(a: int, b: int, raw: int) -> bool {
    distance(a, raw) < distance(b, raw) || (distance(a, raw) == distance(b, raw) && a <= b)
}

/// Whether `pos` is the free place that is nearest to `raw`; of two equally near ones
/// the earlier.
pub open spec fn nearest_free(others: Seq<Span>, raw: int, dur: int, pos: int) -> bool {
    &&& free_place(others, pos, dur)
    &&& forall|p: int| #[trigger] free_place(others, p, dur) ==> preferred(pos, p, raw)
}

/// Whether `pos` is where a moved clip comes to rest: where it snaps to, unless it would
/// overlap another one there, and then at the nearest free place.
pub open spec fn rests_at(others: Seq<Span>, raw: int, dur: int, radius: int, pos: int) -> bool {
    let snapped = snapped_start(others, raw, dur, radius);
    if clear(others, snapped, dur) {
        pos == snapped
    } else {
        nearest_free(others, raw, dur, pos)
    }
}

/// The clip shares no moment at all with the others.
pub open spec fn apart_from_all(others: Seq<Span>, pos: int, dur: int) -> bool {
    forall|i: int|
        0 <= i < others.len() ==> pos >= (#[trigger] others[i]).end.nanos || pos + dur
            <= others[i].start.nanos
}

/// A moved clip comes to rest at one place only, and overlaps nothing there.
pub proof fn rests_at_one_place(
    others: Seq<Span>,
    raw: int,
    dur: int,
    radius: int,
    a: int,
    b: int,
)
    requires
        rests_at(others, raw, dur, radius, a),
        rests_at(others, raw, dur, radius, b),
    ensures
        a == b,
        clear(others, a, dur),
{
}

proof fn nearest_start_is_nearest(others: Seq<Span>, raw: int, dur: int, n: int)
    requires
        0 <= n <= others.len(),
        raw >= 0,
        dur >= 0,
    ensures
        distance(nearest_start(others, raw, dur, n), raw) <= distance(0, raw),
        nearest_start(others, raw, dur, n) >= 0,
        forall|i: int|
            0 <= i < n ==> distance(nearest_start(others, raw, dur, n), raw) <= distance(
                (#[trigger] others[i]).end.nanos as int,
                raw,
            ) && distance(nearest_start(others, raw, dur, n), raw) <= distance(
                others[i].start.nanos - dur,
                raw,
            ),
    decreases n,
{
    if n > 0 {
        nearest_start_is_nearest(others, raw, dur, n - 1);
    }
}

/// A clip that is dropped where it shares no moment with another one is not pushed: it
/// rests where it snaps to.
pub proof fn free_drop_is_not_pushed(
    others: Seq<Span>,
    raw: int,
    dur: int,
    radius: int,
    pos: int,
)
    requires
        raw >= 0,
        dur >= 0,
        apart_from_all(others, raw, dur),
        rests_at(others, raw, dur, radius, pos),
    ensures
        pos == snapped_start(others, raw, dur, radius),
        distance(pos, raw) <= radius || pos == raw,
{
    let snapped = snapped_start(others, raw, dur, radius);
    nearest_start_is_nearest(others, raw, dur, others.len() as int);
    assert forall|i: int| 0 <= i < others.len() implies !overlaps(
        #[trigger] others[i],
        snapped,
        dur,
    ) by {
        assert(raw >= others[i].end.nanos || raw + dur <= others[i].start.nanos);
    }
}

proof fn latest_end(others: Seq<Span>, limit: int, n: int) -> (at: int)
    requires
        0 < n <= others.len(),
        exists|i: int| 0 <= i < n && (#[trigger] others[i]).end.nanos <= limit,
    ensures
        0 <= at < n,
        others[at].end.nanos <= limit,
        forall|i: int|
            0 <= i < n && (#[trigger] others[i]).end.nanos <= limit ==> others[i].end.nanos
                <= others[at].end.nanos,
    decreases n,
{
    if exists|i: int| 0 <= i < n - 1 && (#[trigger] others[i]).end.nanos <= limit {
        let before = latest_end(others, limit, n - 1);
        if others[n - 1].end.nanos <= limit && others[n - 1].end.nanos > others[before].end.nanos {
            n - 1
        } else {
            before
        }
    } else {
        n - 1
    }
}

proof fn earliest_start(others: Seq<Span>, limit: int, n: int) -> (at: int)
    requires
        0 < n <= others.len(),
        exists|i: int| 0 <= i < n && (#[trigger] others[i]).start.nanos >= limit,
    ensures
        0 <= at < n,
        others[at].start.nanos >= limit,
        forall|i: int|
            0 <= i < n && (#[trigger] others[i]).start.nanos >= limit ==> others[i].start.nanos
                >= others[at].start.nanos,
    decreases n,
{
    if exists|i: int| 0 <= i < n - 1 && (#[trigger] others[i]).start.nanos >= limit {
        let before = earliest_start(others, limit, n - 1);
        if others[n - 1].start.nanos >= limit && others[n - 1].start.nanos
            < others[before].start.nanos {
            n - 1
        } else {
            before
        }
    } else {
        n - 1
    }
}

/// Behind the last of the others there is always a free place.
proof fn some_place_is_free(others: Seq<Span>, dur: int) -> (at: int)
    requires
        others.len() > 0,
        forall|i: int| 0 <= i < others.len() ==> well_placed(#[trigger] others[i]),
    ensures
        0 <= at < others.len(),
        free_place(others, others[at].end.nanos as int, dur),
{
    assert(others[0].end.nanos <= MAX_NANOS);
    let at = latest_end(others, MAX_NANOS as int, others.len() as int);
    let pos = others[at].end.nanos as int;
    assert forall|i: int| 0 <= i < others.len() implies !overlaps(#[trigger] others[i], pos, dur) by {
        assert(well_placed(others[i]));
    }
    assert(touches(others[at], pos, dur));
    at
}

/// A pushed clip goes no farther than it has to: no place at which it would share no
/// moment with another clip is nearer to where it was dropped.
pub proof fn pushed_clip_stays_near(
    others: Seq<Span>,
    raw: int,
    dur: int,
    radius: int,
    pos: int,
    free: int,
)
    requires
        raw >= 0,
        dur >= 0,
        free >= 0,
        !clear(others, snapped_start(others, raw, dur, radius), dur),
        rests_at(others, raw, dur, radius, pos),
        apart_from_all(others, free, dur),
    ensures
        distance(pos, raw) <= distance(free, raw),
{
    if apart_from_all(others, raw, dur) {
        free_drop_is_not_pushed(others, raw, dur, radius, pos);
        assert(false);
    }
    let n = others.len() as int;
    let hit = choose|i: int|
        0 <= i < n && !(raw >= (#[trigger] others[i]).end.nanos || raw + dur
            <= others[i].start.nanos);
    assert(free >= others[hit].end.nanos || free + dur <= others[hit].start.nanos);
    if free > raw {
        assert(others[hit].end.nanos <= free);
        let at = latest_end(others, free, n);
        let place = others[at].end.nanos as int;
        assert forall|i: int| 0 <= i < n implies !overlaps(#[trigger] others[i], place, dur) by {
            assert(free >= others[i].end.nanos || free + dur <= others[i].start.nanos);
        }
        assert(touches(others[at], place, dur));
        assert(free_place(others, place, dur));
    } else {
        assert(others[hit].start.nanos >= free + dur);
        let at = earliest_start(others, free + dur, n);
        let place = others[at].start.nanos - dur;
        assert forall|i: int| 0 <= i < n implies !overlaps(#[trigger] others[i], place, dur) by {
            assert(free >= others[i].end.nanos || free + dur <= others[i].start.nanos);
        }
        assert(touches(others[at], place, dur));
        assert(free_place(others, place, dur));
    }
}

/// Snaps a moved clip to its neighbours. Where it would overlap one of the others there,
/// it goes to the nearest place beside one of them at which it does not.
pub fn snap_clip_start(
    raw: Duration,
    dur: Duration,
    others: &Vec<Span>,
    radius: Duration,
) -> (r: Duration)
    requires
        raw.nanos + dur.nanos <= MAX_NANOS,
        forall|i: int| 0 <= i < others@.len() ==> well_placed(#[trigger] others@[i]),
    ensures
        rests_at(
            others@,
            raw.nanos as int,
            dur.nanos as int,
            radius.nanos as int,
            r.nanos as int,
        ),
        clear(others@, r.nanos as int, dur.nanos as int),
{
    let from: i128 = raw.nanos as i128;
    let length: i128 = dur.nanos as i128;
    let mut best: i128 = 0;
    let mut i: usize = 0;
    while i < others.len()
        invariant
            i <= others@.len(),
            from == raw.nanos,
            length == dur.nanos,
            raw.nanos + dur.nanos <= MAX_NANOS,
            forall|i: int| 0 <= i < others@.len() ==> well_placed(#[trigger] others@[i]),
            best == nearest_start(others@, from as int, length as int, i as int),
            -MAX_NANOS <= best <= MAX_NANOS,
        decreases others@.len() - i,
    {
        let o = &others[i];
        assert(well_placed(others@[i as int]));
        best = nearer_of(best, o.end.nanos as i128, from);
        best = nearer_of(best, o.start.nanos as i128 - length, from);
        i = i + 1;
    }
    let mut pos = raw;
    if apart(best, from) <= radius.nanos {
        pos = Duration {
            nanos: if best < 0 {
                0
            } else {
                best as u128
            },
        };
    }
    if is_clear(others, pos, dur) {
        pos
    } else {
        find_free(raw, dur, others)
    }
}

fn find_free(raw: Duration, dur: Duration, others: &Vec<Span>) -> (r: Duration)
    requires
        others@.len() > 0,
        raw.nanos <= MAX_NANOS,
        dur.nanos <= MAX_NANOS,
        forall|i: int| 0 <= i < others@.len() ==> well_placed(#[trigger] others@[i]),
    ensures
        nearest_free(others@, raw.nanos as int, dur.nanos as int, r.nanos as int),
{
    let ghost length = dur.nanos as int;
    let mut best: Option<Duration> = None;
    let mut i: usize = 0;
    while i < others.len()
        invariant
            i <= others@.len(),
            raw.nanos <= MAX_NANOS,
            dur.nanos <= MAX_NANOS,
            length == dur.nanos,
            forall|i: int| 0 <= i < others@.len() ==> well_placed(#[trigger] others@[i]),
            best is Some ==> free_place(others@, best->0.nanos as int, length),
            forall|k: int, p: int|
                #![trigger touches(others@[k], p, length)]
                0 <= k < i && touches(others@[k], p, length) && clear(others@, p, length)
                    ==> best is Some && preferred(best->0.nanos as int, p, raw.nanos as int),
        decreases others@.len() - i,
    {
        let o = &others[i];
        assert(well_placed(others@[i as int]));
        let before = o.start.saturating_sub(dur);
        assert(touches(others@[i as int], before.nanos as int, length));
        assert(touches(others@[i as int], o.end.nanos as int, length));
        best = better_of(best, before, raw, dur, others, Ghost(i as int));
        best = better_of(best, o.end, raw, dur, others, Ghost(i as int));
        i = i + 1;
    }
    proof {
        let at = some_place_is_free(others@, length);
        assert(touches(others@[at], others@[at].end.nanos as int, length));
        assert forall|p: int| #[trigger] free_place(others@, p, length) implies preferred(
            best->0.nanos as int,
            p,
            raw.nanos as int,
        ) by {
            let k = choose|k: int|
                0 <= k < others@.len() && touches(#[trigger] others@[k], p, length);
            assert(touches(others@[k], p, length));
        }
    }
    match best {
        Some(place) => place,
        None => raw,
    }
}

/// The place so far, or a candidate that is free and preferred to it.
fn better_of(
    best: Option<Duration>,
    candidate: Duration,
    raw: Duration,
    dur: Duration,
    others: &Vec<Span>,
    Ghost(at): Ghost<int>,
) -> (r: Option<Duration>)
    requires
        0 <= at < others@.len(),
        touches(others@[at], candidate.nanos as int, dur.nanos as int),
        candidate.nanos <= MAX_NANOS,
        dur.nanos <= MAX_NANOS,
        forall|i: int| 0 <= i < others@.len() ==> well_placed(#[trigger] others@[i]),
        best is Some ==> free_place(others@, best->0.nanos as int, dur.nanos as int),
    ensures
        r is Some ==> free_place(others@, r->0.nanos as int, dur.nanos as int),
        best is Some ==> r is Some && preferred(
            r->0.nanos as int,
            best->0.nanos as int,
            raw.nanos as int,
        ),
        clear(others@, candidate.nanos as int, dur.nanos as int) ==> r is Some && preferred(
            r->0.nanos as int,
            candidate.nanos as int,
            raw.nanos as int,
        ),
{
    if !is_clear(others, candidate, dur) {
        return best;
    }
    assert(free_place(others@, candidate.nanos as int, dur.nanos as int));
    match best {
        None => Some(candidate),
        Some(b) => {
            let (far, near): (u128, u128) = (b.abs_diff(raw).nanos, candidate.abs_diff(raw).nanos);
            if near < far || (near == far && candidate.nanos < b.nanos) {
                Some(candidate)
            } else {
                Some(b)
            }
        },
    }
}

fn is_clear(others: &Vec<Span>, pos: Duration, dur: Duration) -> (r: bool)
    requires
        pos.nanos <= MAX_NANOS,
        dur.nanos <= MAX_NANOS,
        forall|i: int| 0 <= i < others@.len() ==> well_placed(#[trigger] others@[i]),
    ensures
        r == clear(others@, pos.nanos as int, dur.nanos as int),
{
    let mut i: usize = 0;
    while i < others.len()
        invariant
            i <= others@.len(),
            pos.nanos <= MAX_NANOS,
            dur.nanos <= MAX_NANOS,
            forall|i: int| 0 <= i < others@.len() ==> well_placed(#[trigger] others@[i]),
            forall|k: int|
                0 <= k < i ==> !overlaps(
                    #[trigger] others@[k],
                    pos.nanos as int,
                    dur.nanos as int,
                ),
        decreases others@.len() - i,
    {
        let o = &others[i];
        assert(well_placed(others@[i as int]));
        if pos.nanos + OVERLAP_TOLERANCE < o.end.nanos && pos.nanos + dur.nanos > o.start.nanos
            + OVERLAP_TOLERANCE {
            assert(overlaps(others@[i as int], pos.nanos as int, dur.nanos as int));
            return false;
        }
        i = i + 1;
    }
    true
}

fn apart(a: i128, b: i128) -> (d: u128)
    requires
        -MAX_NANOS <= a <= MAX_NANOS,
        0 <= b <= MAX_NANOS,
    ensures
        d == distance(a as int, b as int),
{
    if a < b {
        (b - a) as u128
    } else {
        (a - b) as u128
    }
}

fn nearer_of(best: i128, candidate: i128, raw: i128) -> (r: i128)
    requires
        -MAX_NANOS <= best <= MAX_NANOS,
        -MAX_NANOS <= candidate <= MAX_NANOS,
        0 <= raw <= MAX_NANOS,
    ensures
        r == nearer(best as int, candidate as int, raw as int),
        -MAX_NANOS <= r <= MAX_NANOS,
{
    if apart(candidate, raw) < apart(best, raw) {
        candidate
    } else {
        best
    }
}

// ── Trims ─────────────────────────────────────────────────────────────────────

/// `t` within two limits.
pub open spec fn within(t: int, lo: int, hi: int) -> int {
    if t < lo {
        lo
    } else if t > hi {
        hi
    } else {
        t
    }
}

/// The new out-point of a clip whose right edge was dragged to `edge`: the clip keeps
/// at least one frame and never runs past its source. `from` is where its piece of the
/// source begins.
pub fn trim_right(
    start: Duration,
    from: Duration,
    source: Duration,
    frame: Duration,
    edge: Duration,
) -> (out_point: Duration)
    requires
        from.nanos + frame.nanos <= source.nanos <= MAX_NANOS,
        start.nanos <= MAX_NANOS,
    ensures
        out_point.nanos == from.nanos + within(
            edge.nanos as int,
            start.nanos + frame.nanos,
            start.nanos + (source.nanos - from.nanos),
        ) - start.nanos,
        from.nanos + frame.nanos <= out_point.nanos <= source.nanos,
{
    let lo: u128 = start.nanos + frame.nanos;
    let hi: u128 = start.nanos + (source.nanos - from.nanos);
    let right: u128 = if edge.nanos < lo {
        lo
    } else if edge.nanos > hi {
        hi
    } else {
        edge.nanos
    };
    Duration { nanos: from.nanos + (right - start.nanos) }
}

/// The new in-point and start of a clip whose left edge was dragged to `edge`: the
/// clip keeps at least one frame, never begins before the timeline, and never before
/// its source. What its start gains, its in-point gains too. `length` is how long the
/// clip is on the timeline.
pub fn trim_left(
    start: Duration,
    from: Duration,
    length: Duration,
    frame: Duration,
    edge: Duration,
) -> (r: (Duration, Duration))
    requires
        start.nanos + length.nanos <= MAX_NANOS,
        from.nanos <= MAX_NANOS,
        frame.nanos <= length.nanos || frame.nanos - length.nanos <= start.nanos,
        on_timeline(start.nanos - from.nanos) <= start.nanos + length.nanos - frame.nanos,
    ensures
        r.1.nanos == within(
            edge.nanos as int,
            on_timeline(start.nanos - from.nanos),
            start.nanos + length.nanos - frame.nanos,
        ),
        r.0.nanos == from.nanos + r.1.nanos - start.nanos,
        r.1.nanos + frame.nanos <= start.nanos + length.nanos,
{
    let lo: u128 = start.saturating_sub(from).nanos;
    let hi: u128 = start.nanos + length.nanos - frame.nanos;
    let left: u128 = if edge.nanos < lo {
        lo
    } else if edge.nanos > hi {
        hi
    } else {
        edge.nanos
    };
    let in_point: u128 = from.nanos + left - start.nanos;
    (Duration { nanos: in_point }, Duration { nanos: left })
}

/// The new length of a title whose right edge was dragged to `edge`.
pub fn trim_title_right(start: Duration, edge: Duration) -> (d: Duration)
    ensures
        d.nanos == (if edge.nanos - start.nanos > SHORTEST_TITLE {
            edge.nanos - start.nanos
        } else {
            SHORTEST_TITLE as int
        }),
{
    let d = edge.saturating_sub(start);
    if d.nanos < SHORTEST_TITLE {
        Duration { nanos: SHORTEST_TITLE }
    } else {
        d
    }
}

/// The new start and length of a title whose left edge was dragged to `edge`. A title
/// that is long enough keeps its end. `shown` is how long the title is drawn.
pub fn trim_title_left(
    start: Duration,
    duration: Duration,
    shown: Duration,
    edge: Duration,
) -> (r: (Duration, Duration))
    requires
        start.nanos + duration.nanos <= MAX_NANOS,
        start.nanos + shown.nanos <= MAX_NANOS,
    ensures
        r.0.nanos == on_timeline(
            if edge.nanos < start.nanos + shown.nanos - SHORTEST_TITLE {
                edge.nanos as int
            } else {
                start.nanos + shown.nanos - SHORTEST_TITLE
            },
        ),
        r.1.nanos == (if start.nanos + duration.nanos - r.0.nanos > SHORTEST_TITLE {
            start.nanos + duration.nanos - r.0.nanos
        } else {
            SHORTEST_TITLE as int
        }),
        shown == duration && duration.nanos >= SHORTEST_TITLE ==> r.0.nanos + r.1.nanos
            == start.nanos + duration.nanos,
{
    let latest = start.plus(shown).saturating_sub(Duration { nanos: SHORTEST_TITLE });
    let new_start = edge.min(latest);
    let end = start.plus(duration);
    let left = end.saturating_sub(new_start);
    (new_start, left.max(Duration { nanos: SHORTEST_TITLE }))
}

/// Every other clip with a source has its span, from its start for its length; the moved
/// clip and those without a source have none.
pub proof fn other_clips_have_their_spans(
    clips: Seq<TimelineClip>,
    lengths: Seq<Duration>,
    sources: int,
    skip: Option<usize>,
    n: int,
)
    requires
        0 <= n < clips.len() <= usize::MAX,
        clips.len() == lengths.len(),
        clips[n].start_on_track.nanos + lengths[n].nanos <= MAX_NANOS,
    ensures
        spans(clips, lengths, sources, skip, 0).len() == 0,
        ({
            let before = spans(clips, lengths, sources, skip, n);
            let now = spans(clips, lengths, sources, skip, n + 1);
            if skip == Some(n as usize) || clips[n].source_index >= sources {
                now == before
            } else {
                &&& now.len() == before.len() + 1
                &&& now.drop_last() == before
                &&& now.last().start == clips[n].start_on_track
                &&& now.last().end.nanos - now.last().start.nanos == lengths[n].nanos
            }
        }),
{
    let before = spans(clips, lengths, sources, skip, n);
    let now = spans(clips, lengths, sources, skip, n + 1);
    if !(skip == Some(n as usize) || clips[n].source_index >= sources) {
        assert(now.drop_last() =~= before);
    }
}

/// The place that a trimmed edge can snap to is the start of the timeline or an edge of
/// another clip, and one that is no nearer does not take its place.
pub proof fn edges_are_snapped_to(others: Seq<Span>, raw: int, n: int)
    requires
        0 <= n <= others.len(),
    ensures
        ({
            let best = nearest_edge(others, raw, n);
            ||| best == 0
            ||| exists|i: int|
                0 <= i < n && (best == (#[trigger] others[i]).start.nanos || best
                    == others[i].end.nanos)
        }),
        n < others.len() && distance(others[n].start.nanos as int, raw) >= distance(
            nearest_edge(others, raw, n),
            raw,
        ) && distance(others[n].end.nanos as int, raw) >= distance(
            nearest_edge(others, raw, n),
            raw,
        ) ==> nearest_edge(others, raw, n + 1) == nearest_edge(others, raw, n),
    decreases n,
{
    if n > 0 {
        edges_are_snapped_to(others, raw, n - 1);
        assert(others[n - 1] == others[n - 1]);
    }
}

/// A trimmed edge snaps where an edge is within the radius, and stays where it was dragged
/// to where none is.
pub proof fn edge_snaps_only_when_near(others: Seq<Span>, raw: int, radius: int, i: int)
    requires
        0 <= i < others.len(),
        0 <= radius,
    ensures
        ({
            let r = snapped_edge(others, raw, radius);
            &&& distance(r, raw) <= radius
            &&& distance(others[i].start.nanos as int, raw) <= radius ==> distance(r, raw)
                <= distance(others[i].start.nanos as int, raw)
            &&& distance(others[i].end.nanos as int, raw) <= radius ==> distance(r, raw)
                <= distance(others[i].end.nanos as int, raw)
            &&& distance(0, raw) <= radius ==> distance(r, raw) <= distance(0, raw)
            &&& distance(0, raw) > radius && (forall|k: int|
                0 <= k < others.len() ==> distance(
                    (#[trigger] others[k]).start.nanos as int,
                    raw,
                ) > radius && distance(others[k].end.nanos as int, raw) > radius) ==> r == raw
            &&& r == raw || r == 0 || exists|k: int|
                0 <= k < others.len() && (r == (#[trigger] others[k]).start.nanos || r
                    == others[k].end.nanos)
            &&& distance(0, raw) <= radius || distance(others[i].start.nanos as int, raw) <= radius
                || distance(others[i].end.nanos as int, raw) <= radius ==> r == 0 || exists|k: int|
                0 <= k < others.len() && (r == (#[trigger] others[k]).start.nanos || r
                    == others[k].end.nanos)
        }),
{
    let n = others.len() as int;
    nearest_edge_is_nearest(others, raw, n);
    edges_are_snapped_to(others, raw, n);
}

/// The start that a moved clip can snap to lets it begin with the timeline, begin where
/// another clip ends, or end where another one begins; and one that is no nearer does not
/// take its place.
pub proof fn starts_are_snapped_to(others: Seq<Span>, raw: int, dur: int, n: int)
    requires
        0 <= n <= others.len(),
    ensures
        ({
            let best = nearest_start(others, raw, dur, n);
            ||| best == 0
            ||| exists|i: int|
                0 <= i < n && (best == (#[trigger] others[i]).end.nanos || best + dur
                    == others[i].start.nanos)
        }),
        n < others.len() && distance(others[n].end.nanos as int, raw) >= distance(
            nearest_start(others, raw, dur, n),
            raw,
        ) && distance(others[n].start.nanos - dur, raw) >= distance(
            nearest_start(others, raw, dur, n),
            raw,
        ) ==> nearest_start(others, raw, dur, n + 1) == nearest_start(others, raw, dur, n),
    decreases n,
{
    if n > 0 {
        starts_are_snapped_to(others, raw, dur, n - 1);
        assert(others[n - 1] == others[n - 1]);
    }
}

/// A moved clip snaps to a neighbour within the radius, to the nearest one, and stays where
/// it was dragged to where none is so near.
pub proof fn clip_snaps_only_when_near(
    others: Seq<Span>,
    raw: int,
    dur: int,
    radius: int,
    i: int,
)
    requires
        0 <= i < others.len(),
        0 <= radius,
        0 <= raw,
        0 <= dur,
    ensures
        ({
            let r = snapped_start(others, raw, dur, radius);
            &&& r >= 0
            &&& distance(r, raw) <= radius
            &&& distance(others[i].end.nanos as int, raw) <= radius ==> distance(r, raw)
                <= distance(others[i].end.nanos as int, raw)
            &&& distance(others[i].start.nanos - dur, raw) <= radius ==> distance(r, raw)
                <= distance(others[i].start.nanos - dur, raw)
            &&& distance(0, raw) > radius && (forall|k: int|
                0 <= k < others.len() ==> distance(
                    (#[trigger] others[k]).end.nanos as int,
                    raw,
                ) > radius && distance(others[k].start.nanos - dur, raw) > radius) ==> r == raw
            &&& distance(0, raw) <= radius || distance(others[i].end.nanos as int, raw) <= radius
                || distance(others[i].start.nanos - dur, raw) <= radius ==> r == 0 || exists|k: int|
                0 <= k < others.len() && (r == (#[trigger] others[k]).end.nanos || r + dur
                    == others[k].start.nanos)
        }),
{
    let n = others.len() as int;
    nearest_start_is_nearest(others, raw, dur, n);
    starts_are_snapped_to(others, raw, dur, n);
}

/// Two clips overlap where each reaches more than a millisecond into the other. Clips that
/// only touch do not.
pub proof fn overlap_is_more_than_a_millisecond(other: Span, pos: int, dur: int)
    ensures
        overlaps(other, pos, dur) <==> other.end.nanos - pos > 1_000_000 && pos + dur
            - other.start.nanos > 1_000_000,
        pos == other.end.nanos ==> !overlaps(other, pos, dur),
        pos + dur == other.start.nanos ==> !overlaps(other, pos, dur),
{
}

/// A clip that cannot stay where it snaps to comes to rest beside another one: where that
/// one ends, or so that it ends where that one begins, as far as there is room before it.
pub proof fn pushed_clip_lies_beside_another(
    others: Seq<Span>,
    raw: int,
    dur: int,
    radius: int,
    pos: int,
)
    requires
        rests_at(others, raw, dur, radius, pos),
        !clear(others, snapped_start(others, raw, dur, radius), dur),
    ensures
        exists|i: int|
            0 <= i < others.len() && (pos == (#[trigger] others[i]).end.nanos || pos + dur
                == others[i].start.nanos || (pos == 0 && others[i].start.nanos < dur)),
        forall|i: int| 0 <= i < others.len() ==> !overlaps(#[trigger] others[i], pos, dur),
{
    let i = choose|i: int| 0 <= i < others.len() && touches(#[trigger] others[i], pos, dur);
    assert(pos == others[i].end.nanos || pos + dur == others[i].start.nanos || (pos == 0
        && others[i].start.nanos < dur));
}

/// A time stays between two limits: what lies between them is kept, and anything else goes
/// to the limit on its side.
pub proof fn limits_are_kept(t: int, lo: int, hi: int)
    requires
        lo <= hi,
    ensures
        lo <= within(t, lo, hi) <= hi,
        lo <= t <= hi ==> within(t, lo, hi) == t,
        t < lo ==> within(t, lo, hi) == lo,
        t > hi ==> within(t, lo, hi) == hi,
        on_timeline(t) >= 0,
        t >= 0 ==> on_timeline(t) == t,
        t < 0 ==> on_timeline(t) == 0,
{
}

/// The limits of a drag: a millisecond of overlap is let pass, and no title is shorter than
/// a tenth of a second.
pub proof fn drag_limits()
    ensures
        OVERLAP_TOLERANCE == 1_000_000,
        SHORTEST_TITLE * 10 == 1_000_000_000,
{
}

/// A pushed clip goes to the nearest place beside another one at which it is free, and of
/// two equally near ones to the earlier.
pub proof fn pushed_clip_takes_the_nearest_place(
    others: Seq<Span>,
    raw: int,
    dur: int,
    radius: int,
    pos: int,
    place: int,
    i: int,
)
    requires
        rests_at(others, raw, dur, radius, pos),
        !clear(others, snapped_start(others, raw, dur, radius), dur),
        0 <= i < others.len(),
        place == others[i].end.nanos || (place >= 0 && place + dur == others[i].start.nanos) || (
        place == 0 && others[i].start.nanos < dur),
        forall|k: int| 0 <= k < others.len() ==> !overlaps(#[trigger] others[k], place, dur),
    ensures
        distance(pos, raw) <= distance(place, raw),
        distance(pos, raw) == distance(place, raw) ==> pos <= place,
{
    assert(touches(others[i], place, dur));
    assert(free_place(others, place, dur));
}

} // verus!
