//! The marks on a clip that show where its properties have keys.

use crate::keyframes::{ClipAnimation, Key};
use crate::time::Duration;
use vstd::prelude::*;

verus! {

/// A time in a clip, in milliseconds, and how many keys are there.
#[derive(Clone, Copy, PartialEq, Eq, Structural, Debug)]
pub struct KeyMark {
    pub ms: u128,
    pub keys: u128,
}

/// A time in whole milliseconds, halves up.
pub open spec fn whole_ms(d: Duration) -> u128 {
    ((d.nanos + 500_000) / 1_000_000int) as u128
}

/// The times of the keys of one property.
pub open spec fn key_times(keys: Seq<Key>) -> Seq<u128> {
    keys.map_values(|k: Key| whole_ms(k.at))
}

/// The times of the keys of all properties.
pub open spec fn all_key_times(a: ClipAnimation) -> Seq<u128> {
    key_times(a.opacity.keys@) + key_times(a.pos_x.keys@) + key_times(a.pos_y.keys@) + key_times(
        a.scale.keys@,
    ) + key_times(a.volume.keys@)
}

/// How many of the times are `ms`.
pub open spec fn times_at(times: Seq<u128>, ms: u128) -> nat
    decreases times.len(),
{
    if times.len() == 0 {
        0
    } else {
        times_at(times.drop_last(), ms) + if times.last() == ms {
            1nat
        } else {
            0
        }
    }
}

/// How many keys the marks show at `ms`, among those before place `n`.
pub open spec fn shown_at(marks: Seq<KeyMark>, ms: u128, n: int) -> nat
    decreases n,
{
    if n <= 0 {
        0
    } else {
        shown_at(marks, ms, n - 1) + if marks[n - 1].ms == ms {
            marks[n - 1].keys as nat
        } else {
            0
        }
    }
}

/// The marks are in order of time, no two at the same time, and each shows a key.
pub open spec fn in_time(marks: Seq<KeyMark>) -> bool {
    &&& forall|i: int, j: int| 0 <= i < j < marks.len() ==> marks[i].ms < marks[j].ms
    &&& forall|i: int| 0 <= i < marks.len() ==> (#[trigger] marks[i]).keys > 0
}

/// The marks show every time as often as it is there.
pub open spec fn marks_times(marks: Seq<KeyMark>, times: Seq<u128>) -> bool {
    forall|ms: u128| #[trigger]
        shown_at(marks, ms, marks.len() as int) == times_at(times, ms)
}

proof fn shown_prefix(a: Seq<KeyMark>, b: Seq<KeyMark>, ms: u128, n: int)
    requires
        n <= a.len(),
        n <= b.len(),
        forall|i: int| 0 <= i < n ==> a[i] == b[i],
    ensures
        shown_at(a, ms, n) == shown_at(b, ms, n),
    decreases n,
{
    if n > 0 {
        shown_prefix(a, b, ms, n - 1);
    }
}

proof fn shown_with_one_more(a: Seq<KeyMark>, at: int, ms: u128, n: int)
    requires
        0 <= at < n <= a.len(),
        a[at].keys < u128::MAX,
    ensures
        shown_at(a.update(at, KeyMark { ms: a[at].ms, keys: (a[at].keys + 1) as u128 }), ms, n)
            == shown_at(a, ms, n) + if a[at].ms == ms {
            1nat
        } else {
            0
        },
    decreases n,
{
    let b = a.update(at, KeyMark { ms: a[at].ms, keys: (a[at].keys + 1) as u128 });
    if n - 1 > at {
        shown_with_one_more(a, at, ms, n - 1);
    } else {
        shown_prefix(a, b, ms, n - 1);
    }
}

proof fn shown_with_new(a: Seq<KeyMark>, at: int, m: KeyMark, ms: u128, n: int)
    requires
        0 <= at < n <= a.len() + 1,
    ensures
        shown_at(a.insert(at, m), ms, n) == shown_at(a, ms, n - 1) + if m.ms == ms {
            m.keys as nat
        } else {
            0
        },
    decreases n,
{
    let b = a.insert(at, m);
    if n - 1 > at {
        shown_with_new(a, at, m, ms, n - 1);
        assert(b[n - 1] == a[n - 2]);
    } else {
        assert(b[n - 1] == m);
        shown_prefix(a, b, ms, n - 1);
    }
}

proof fn shown_at_most(marks: Seq<KeyMark>, ms: u128, at: int, n: int)
    requires
        0 <= at < n <= marks.len(),
        marks[at].ms == ms,
    ensures
        marks[at].keys <= shown_at(marks, ms, n),
    decreases n,
{
    if n - 1 > at {
        shown_at_most(marks, ms, at, n - 1);
    }
}

proof fn times_at_most(times: Seq<u128>, ms: u128)
    ensures
        times_at(times, ms) <= times.len(),
    decreases times.len(),
{
    if times.len() > 0 {
        times_at_most(times.drop_last(), ms);
    }
}

fn add_mark(marks: &mut Vec<KeyMark>, ms: u128, Ghost(times): Ghost<Seq<u128>>)
    requires
        in_time(old(marks)@),
        marks_times(old(marks)@, times),
        times.len() < u128::MAX,
    ensures
        in_time(final(marks)@),
        marks_times(final(marks)@, times.push(ms)),
{
    let ghost was = marks@;
    let mut at: usize = 0;
    while at < marks.len() && marks[at].ms < ms
        invariant
            at <= marks@.len(),
            marks@ == was,
            forall|i: int| 0 <= i < at ==> (#[trigger] was[i]).ms < ms,
        decreases marks@.len() - at,
    {
        at = at + 1;
    }
    let ghost more = times.push(ms);
    assert(more.drop_last() =~= times);
    if at < marks.len() && marks[at].ms == ms {
        proof {
            shown_at_most(was, ms, at as int, was.len() as int);
            times_at_most(times, ms);
        }
        let keys: u128 = marks[at].keys;
        marks[at] = KeyMark { ms, keys: keys + 1 };
        proof {
            assert forall|m: u128| #[trigger] shown_at(marks@, m, marks@.len() as int) == times_at(
                more,
                m,
            ) by {
                shown_with_one_more(was, at as int, m, was.len() as int);
                assert(shown_at(was, m, was.len() as int) == times_at(times, m));
            }
        }
    } else {
        let mark = KeyMark { ms, keys: 1 };
        marks.insert(at, mark);
        proof {
            assert forall|m: u128| #[trigger] shown_at(marks@, m, marks@.len() as int) == times_at(
                more,
                m,
            ) by {
                shown_with_new(was, at as int, mark, m, (was.len() + 1) as int);
                assert(shown_at(was, m, was.len() as int) == times_at(times, m));
            }
            assert forall|i: int, j: int| 0 <= i < j < marks@.len() implies marks@[i].ms
                < marks@[j].ms by {
                if at < was.len() {
                    assert(ms < was[at as int].ms);
                }
            }
        }
    }
}

fn add_marks(marks: &mut Vec<KeyMark>, keys: &Vec<Key>, Ghost(times): Ghost<Seq<u128>>)
    requires
        in_time(old(marks)@),
        marks_times(old(marks)@, times),
        times.len() + keys@.len() <= u128::MAX,
    ensures
        in_time(final(marks)@),
        marks_times(final(marks)@, times + key_times(keys@)),
{
    let mut i: usize = 0;
    assert(times + key_times(keys@.take(0)) =~= times);
    while i < keys.len()
        invariant
            i <= keys@.len(),
            times.len() + keys@.len() <= u128::MAX,
            in_time(marks@),
            marks_times(marks@, times + key_times(keys@.take(i as int))),
        decreases keys@.len() - i,
    {
        let nanos: u128 = keys[i].at.nanos;
        let ms: u128 = nanos / 1_000_000 + if nanos % 1_000_000 >= 500_000 {
            1
        } else {
            0
        };
        assert(ms == whole_ms(keys@[i as int].at));
        let ghost done = times + key_times(keys@.take(i as int));
        assert(done.push(ms) =~= times + key_times(keys@.take(i + 1)));
        add_mark(marks, ms, Ghost(done));
        i = i + 1;
    }
    assert(keys@.take(i as int) =~= keys@);
}

/// The marks of a clip: one for each time at which any property has a key, with the
/// number of keys there.
pub fn key_marks(a: &ClipAnimation) -> (marks: Vec<KeyMark>)
    ensures
        in_time(marks@),
        marks_times(marks@, all_key_times(*a)),
{
    let mut marks: Vec<KeyMark> = Vec::new();
    assert(a.opacity.keys.len() + a.pos_x.keys.len() + a.pos_y.keys.len() + a.scale.keys.len()
        + a.volume.keys.len() <= 5 * usize::MAX);
    let ghost t0 = Seq::<u128>::empty();
    let ghost t1 = key_times(a.opacity.keys@);
    let ghost t2 = t1 + key_times(a.pos_x.keys@);
    let ghost t3 = t2 + key_times(a.pos_y.keys@);
    let ghost t4 = t3 + key_times(a.scale.keys@);
    assert(t0 + t1 =~= t1);
    add_marks(&mut marks, &a.opacity.keys, Ghost(t0));
    add_marks(&mut marks, &a.pos_x.keys, Ghost(t1));
    add_marks(&mut marks, &a.pos_y.keys, Ghost(t2));
    add_marks(&mut marks, &a.scale.keys, Ghost(t3));
    add_marks(&mut marks, &a.volume.keys, Ghost(t4));
    marks
}

proof fn shown_once(marks: Seq<KeyMark>, at: int, n: int)
    requires
        in_time(marks),
        0 <= at < marks.len(),
        0 <= n <= marks.len(),
    ensures
        shown_at(marks, marks[at].ms, n) == (if at < n {
            marks[at].keys as nat
        } else {
            0
        }),
    decreases n,
{
    if n > 0 {
        shown_once(marks, at, n - 1);
    }
}

/// A mark stands for exactly the keys at its time.
pub proof fn marks_are_exact(marks: Seq<KeyMark>, times: Seq<u128>)
    requires
        in_time(marks),
        marks_times(marks, times),
    ensures
        forall|i: int|
            0 <= i < marks.len() ==> (#[trigger] marks[i]).keys == times_at(times, marks[i].ms),
{
    assert forall|i: int| 0 <= i < marks.len() implies (#[trigger] marks[i]).keys == times_at(
        times,
        marks[i].ms,
    ) by {
        shown_once(marks, i, marks.len() as int);
        assert(shown_at(marks, marks[i].ms, marks.len() as int) == times_at(times, marks[i].ms));
    }
}

/// A mark's time is that of its keys to the nearest millisecond, halves up.
pub proof fn mark_is_at_the_nearest_ms(d: Duration)
    requires
        d.nanos <= u128::MAX - 500_000,
    ensures
        1_000_000 * whole_ms(d) <= d.nanos + 500_000,
        d.nanos + 500_000 < 1_000_000 * whole_ms(d) + 1_000_000,
{
}

proof fn times_add_up(a: Seq<u128>, b: Seq<u128>, ms: u128)
    ensures
        times_at(a + b, ms) == times_at(a, ms) + times_at(b, ms),
    decreases b.len(),
{
    if b.len() == 0 {
        assert(a + b =~= a);
    } else {
        times_add_up(a, b.drop_last(), ms);
        assert((a + b).drop_last() =~= a + b.drop_last());
    }
}

/// Every key counts once at its own time.
pub proof fn keys_count_once(keys: Seq<Key>, k: Key, ms: u128)
    ensures
        times_at(key_times(Seq::empty()), ms) == 0,
        times_at(key_times(keys.push(k)), ms) == times_at(key_times(keys), ms) + (if whole_ms(k.at)
            == ms {
            1nat
        } else {
            0
        }),
{
    assert(key_times(keys.push(k)).drop_last() =~= key_times(keys));
    assert(key_times(Seq::<Key>::empty()).len() == 0);
}

/// The marks count the keys of all five properties.
pub proof fn marks_count_every_property(a: ClipAnimation, ms: u128)
    ensures
        times_at(all_key_times(a), ms) == times_at(key_times(a.opacity.keys@), ms) + times_at(
            key_times(a.pos_x.keys@),
            ms,
        ) + times_at(key_times(a.pos_y.keys@), ms) + times_at(key_times(a.scale.keys@), ms)
            + times_at(key_times(a.volume.keys@), ms),
{
    let (o, x, y) = (key_times(a.opacity.keys@), key_times(a.pos_x.keys@), key_times(a.pos_y.keys@));
    let (s, v) = (key_times(a.scale.keys@), key_times(a.volume.keys@));
    times_add_up(o + x + y + s, v, ms);
    times_add_up(o + x + y, s, ms);
    times_add_up(o + x, y, ms);
    times_add_up(o, x, ms);
}

proof fn shown_by_a_mark(marks: Seq<KeyMark>, ms: u128, n: int)
    requires
        0 <= n <= marks.len(),
        shown_at(marks, ms, n) > 0,
    ensures
        exists|i: int| 0 <= i < n && (#[trigger] marks[i]).ms == ms,
    decreases n,
{
    if n > 0 && marks[n - 1].ms != ms {
        shown_by_a_mark(marks, ms, n - 1);
        let i = choose|i: int| 0 <= i < n - 1 && (#[trigger] marks[i]).ms == ms;
        assert(marks[i].ms == ms);
    }
}

/// Marks go up in time, each shows a key, and every key has a mark.
pub proof fn every_key_has_a_mark(
    marks: Seq<KeyMark>,
    times: Seq<u128>,
    ms: u128,
    i: int,
    j: int,
)
    requires
        in_time(marks),
        marks_times(marks, times),
        0 <= i < j < marks.len(),
    ensures
        marks[i].ms < marks[j].ms,
        marks[i].keys > 0 && marks[j].keys > 0,
        times_at(times, ms) > 0 ==> exists|k: int|
            0 <= k < marks.len() && (#[trigger] marks[k]).ms == ms,
{
    assert(shown_at(marks, ms, marks.len() as int) == times_at(times, ms));
    if times_at(times, ms) > 0 {
        shown_by_a_mark(marks, ms, marks.len() as int);
    }
}

} // verus!
