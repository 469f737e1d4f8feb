//! Keyframe animation of a clip's opacity, position, scale and volume.

use crate::float::{lt64, unit64, F64, F64_ONE, F64_ZERO};
use crate::time::{Duration, MAX_NANOS};
use vstd::prelude::*;

verus! {

/// How a value moves from one key to the next.
#[derive(Clone, Copy, PartialEq, Eq, Structural, Debug)]
pub enum KeyEasing {
    Linear,
    EaseIn,
    EaseOut,
    EaseInOut,
    Hold,
}

impl KeyEasing {
    /// All easings, in menu order.
    pub const ALL: [KeyEasing; 5] = [
        KeyEasing::Linear,
        KeyEasing::EaseIn,
        KeyEasing::EaseOut,
        KeyEasing::EaseInOut,
        KeyEasing::Hold,
    ];
}

/// A value at one moment. The easing governs the way to the next key.
#[derive(Clone, Copy, PartialEq, Eq, Structural, Debug)]
pub struct Key {
    pub at: Duration,
    pub value: F64,
    pub easing: KeyEasing,
}

/// The keys of one property, in order of time.
#[derive(Debug)]
pub struct KeyTrack {
    pub keys: Vec<Key>,
}

/// Keys that follow each other strictly in time.
pub open spec fn in_order(keys: Seq<Key>) -> bool {
    forall|i: int, j: int| 0 <= i < j < keys.len() ==> keys[i].at.nanos < keys[j].at.nanos
}

/// How many keys at the front, counted from `from`, lie before `t`.
pub open spec fn keys_before(keys: Seq<Key>, t: Duration, from: int) -> int
    decreases keys.len() - from,
{
    if 0 <= from < keys.len() && keys[from].at.nanos < t.nanos {
        keys_before(keys, t, from + 1)
    } else {
        from
    }
}

/// `keys` with `key` in its place; a key at the same moment is replaced.
pub open spec fn with_key(keys: Seq<Key>, key: Key) -> Seq<Key> {
    let p = keys_before(keys, key.at, 0);
    if p < keys.len() && keys[p].at == key.at {
        keys.update(p, key)
    } else {
        keys.insert(p, key)
    }
}

proof fn keys_before_bounds(keys: Seq<Key>, t: Duration, from: int)
    requires
        0 <= from <= keys.len(),
    ensures
        from <= keys_before(keys, t, from) <= keys.len(),
        forall|i: int|
            from <= i < keys_before(keys, t, from) ==> keys[i].at.nanos < t.nanos,
        keys_before(keys, t, from) < keys.len() ==> keys[keys_before(keys, t, from)].at.nanos
            >= t.nanos,
    decreases keys.len() - from,
{
    if from < keys.len() && keys[from].at.nanos < t.nanos {
        keys_before_bounds(keys, t, from + 1);
    }
}

/// Setting a key keeps the track in order and leaves exactly one key at that
/// moment: the new one.
pub proof fn with_key_in_order(keys: Seq<Key>, key: Key)
    requires
        in_order(keys),
    ensures
        in_order(with_key(keys, key)),
        with_key(keys, key).contains(key),
        forall|i: int|
            0 <= i < with_key(keys, key).len() && with_key(keys, key)[i].at == key.at
                ==> with_key(keys, key)[i] == key,
{
    keys_before_bounds(keys, key.at, 0);
    let p = keys_before(keys, key.at, 0);
    assert(with_key(keys, key)[p] == key);
}

impl Default for KeyTrack {
    fn default() -> (t: Self)
        ensures
            t.keys@ == Seq::<Key>::empty(),
    {
        KeyTrack { keys: Vec::new() }
    }
}

impl Clone for KeyTrack {
    fn clone(&self) -> (t: Self)
        ensures
            t.keys@ == self.keys@,
    {
        let mut keys: Vec<Key> = Vec::new();
        let mut i: usize = 0;
        while i < self.keys.len()
            invariant
                i <= self.keys@.len(),
                keys@ == self.keys@.take(i as int),
            decreases self.keys@.len() - i,
        {
            keys.push(self.keys[i]);
            i = i + 1;
            assert(self.keys@.take(i as int) =~= self.keys@.take(i - 1).push(self.keys@[i - 1]));
        }
        assert(self.keys@.take(self.keys@.len() as int) =~= self.keys@);
        KeyTrack { keys }
    }
}

impl KeyTrack {
    /// Whether there is anything to animate.
    pub fn is_active(&self) -> (r: bool)
        ensures
            r == (self.keys@.len() > 0),
    {
        self.keys.len() > 0
    }

    /// Sets the value at a moment.
    pub fn insert(&mut self, at: Duration, value: F64, easing: KeyEasing)
        ensures
            final(self).keys@ == with_key(old(self).keys@, (Key { at, value, easing })),
    {
        let key = Key { at, value, easing };
        let mut p: usize = 0;
        while p < self.keys.len() && self.keys[p].at.nanos < at.nanos
            invariant
                p <= self.keys@.len(),
                keys_before(self.keys@, at, 0) == keys_before(self.keys@, at, p as int),
            decreases self.keys@.len() - p,
        {
            p = p + 1;
        }
        if p < self.keys.len() && self.keys[p].at == at {
            self.keys.set(p, key);
        } else {
            self.keys.insert(p, key);
        }
    }

    /// Takes the key at `index` out, where there is one.
    pub fn remove(&mut self, index: usize)
        ensures
            final(self).keys@ == (if index < old(self).keys@.len() {
                old(self).keys@.remove(index as int)
            } else {
                old(self).keys@
            }),
    {
        if index < self.keys.len() {
            self.keys.remove(index);
        }
    }
}

/// The key as the timeline sees it: moved by the clip's start and, where asked,
/// its value moved into `0.0..=1.0`.
pub open spec fn on_timeline(key: Key, start: Duration, unit: bool) -> Key {
    Key {
        at: Duration { nanos: (start.nanos + key.at.nanos) as u128 },
        value: if unit {
            unit64(key.value)
        } else {
            key.value
        },
        easing: key.easing,
    }
}

/// All keys of a track as the timeline sees them.
pub open spec fn track_on_timeline(keys: Seq<Key>, start: Duration, unit: bool) -> Seq<Key> {
    keys.map_values(|k: Key| on_timeline(k, start, unit))
}

/// Every key of the track still lies within the range of [`Duration`] when the
/// track starts at `start`.
pub open spec fn fits_on_timeline(keys: Seq<Key>, start: Duration) -> bool {
    forall|i: int| 0 <= i < keys.len() ==> start.nanos + keys[i].at.nanos <= MAX_NANOS
}

/// Moving a track onto the timeline keeps its keys in order.
pub proof fn on_timeline_keeps_order(keys: Seq<Key>, start: Duration, unit: bool)
    requires
        in_order(keys),
        fits_on_timeline(keys, start),
    ensures
        in_order(track_on_timeline(keys, start, unit)),
        track_on_timeline(keys, start, unit).len() == keys.len(),
{
    let out = track_on_timeline(keys, start, unit);
    assert forall|i: int, j: int| 0 <= i < j < out.len() implies out[i].at.nanos
        < out[j].at.nanos by {
        assert(keys[i].at.nanos < keys[j].at.nanos);
        assert(start.nanos + keys[i].at.nanos <= MAX_NANOS);
        assert(start.nanos + keys[j].at.nanos <= MAX_NANOS);
    }
}

/// Moves a clip's keys to where they fall on the timeline.
pub fn keytrack_on_timeline(track: &KeyTrack, start: Duration, unit: bool) -> (out: Vec<Key>)
    requires
        fits_on_timeline(track.keys@, start),
    ensures
        out@ == track_on_timeline(track.keys@, start, unit),
{
    let mut out: Vec<Key> = Vec::new();
    let mut i: usize = 0;
    while i < track.keys.len()
        invariant
            i <= track.keys@.len(),
            fits_on_timeline(track.keys@, start),
            out@ == track_on_timeline(track.keys@.take(i as int), start, unit),
        decreases track.keys@.len() - i,
    {
        let key = track.keys[i];
        proof {
            assert(track.keys@[i as int] == key);
            assert(track.keys@.take(i + 1) =~= track.keys@.take(i as int).push(key));
        }
        let value = if unit {
            key.value.unit()
        } else {
            key.value
        };
        out.push(Key { at: start.plus(key.at), value, easing: key.easing });
        assert(out@ =~= track_on_timeline(track.keys@.take(i + 1), start, unit));
        i = i + 1;
    }
    assert(track.keys@.take(i as int) =~= track.keys@);
    out
}

/// The animated properties of a clip. Position is in canvas pixels, scale in
/// percent of the source, volume in decibels.
#[derive(Debug)]
pub struct ClipAnimation {
    pub opacity: KeyTrack,
    pub pos_x: KeyTrack,
    pub pos_y: KeyTrack,
    pub scale: KeyTrack,
    pub volume: KeyTrack,
}

impl Default for ClipAnimation {
    fn default() -> (a: Self)
        ensures
            !a.active(),
    {
        ClipAnimation {
            opacity: KeyTrack::default(),
            pos_x: KeyTrack::default(),
            pos_y: KeyTrack::default(),
            scale: KeyTrack::default(),
            volume: KeyTrack::default(),
        }
    }
}

impl ClipAnimation {
    pub open spec fn active(self) -> bool {
        ||| self.opacity.keys@.len() > 0
        ||| self.pos_x.keys@.len() > 0
        ||| self.pos_y.keys@.len() > 0
        ||| self.scale.keys@.len() > 0
        ||| self.volume.keys@.len() > 0
    }

    /// Every track still fits when the clip starts at `start`.
    pub open spec fn fits(self, start: Duration) -> bool {
        &&& fits_on_timeline(self.opacity.keys@, start)
        &&& fits_on_timeline(self.pos_x.keys@, start)
        &&& fits_on_timeline(self.pos_y.keys@, start)
        &&& fits_on_timeline(self.scale.keys@, start)
        &&& fits_on_timeline(self.volume.keys@, start)
    }

    /// Whether any property has keys.
    pub fn is_active(&self) -> (r: bool)
        ensures
            r == self.active(),
    {
        self.opacity.is_active() || self.pos_x.is_active() || self.pos_y.is_active()
            || self.scale.is_active() || self.volume.is_active()
    }
}

/// Whether `out` is `keys` played from `start` on: as many keys in the same order, each
/// at its own time behind the start, with its own easing and value. With `unit` a value
/// beyond `0.0..=1.0` is at the end that it lies beyond.
pub open spec fn plays_from(out: Seq<Key>, keys: Seq<Key>, start: Duration, unit: bool) -> bool {
    out.len() == keys.len() && forall|i: int|
        0 <= i < keys.len() ==> {
            let v = keys[i].value;
            &&& (#[trigger] out[i]).at.nanos == start.nanos + keys[i].at.nanos
            &&& out[i].easing == keys[i].easing
            &&& out[i].value == (if unit && lt64(v, (F64 { bits: F64_ZERO })) {
                F64 { bits: F64_ZERO }
            } else if unit && lt64((F64 { bits: F64_ONE }), v) {
                F64 { bits: F64_ONE }
            } else {
                v
            })
        }
}

/// The keys of a clip keep their distance from the clip's start, their easings and their
/// values.
pub proof fn keys_move_with_their_clip(keys: Seq<Key>, start: Duration, unit: bool)
    requires
        fits_on_timeline(keys, start),
    ensures
        plays_from(track_on_timeline(keys, start, unit), keys, start, unit),
{
    let out = track_on_timeline(keys, start, unit);
    assert forall|i: int| 0 <= i < keys.len() implies (#[trigger] out[i]).at.nanos == start.nanos
        + keys[i].at.nanos by {
        assert(start.nanos + keys[i].at.nanos <= MAX_NANOS);
    }
}

/// Setting a key leaves every key at another moment as it is, and adds none but its own.
pub proof fn other_keys_are_kept(keys: Seq<Key>, key: Key, other: Key)
    requires
        in_order(keys),
        other.at != key.at,
    ensures
        with_key(keys, key).contains(other) == keys.contains(other),
        with_key(keys, key).len() == keys.len() || with_key(keys, key).len() == keys.len() + 1,
        with_key(keys, key).len() == keys.len() <==> exists|i: int|
            0 <= i < keys.len() && (#[trigger] keys[i]).at == key.at,
{
    keys_before_bounds(keys, key.at, 0);
    let p = keys_before(keys, key.at, 0);
    let now = with_key(keys, key);
    assert(now[p] == key);
    if keys.contains(other) {
        let i = choose|i: int| 0 <= i < keys.len() && keys[i] == other;
        if now.len() == keys.len() {
            assert(now[i] == other);
        } else {
            assert(now[if i < p { i } else { i + 1 }] == other);
        }
    }
    if now.contains(other) {
        let i = choose|i: int| 0 <= i < now.len() && now[i] == other;
        assert(i != p);
        assert(keys[if now.len() == keys.len() || i < p { i } else { i - 1 }] == other);
    }
    if exists|i: int| 0 <= i < keys.len() && (#[trigger] keys[i]).at == key.at {
        let i = choose|i: int| 0 <= i < keys.len() && (#[trigger] keys[i]).at == key.at;
        assert(i >= p);
        if i > p {
            assert(keys[p].at.nanos < keys[i].at.nanos);
        }
        assert(i == p);
    }
}

/// A clip is animated as soon as one of its properties has a key.
pub proof fn any_key_animates(a: ClipAnimation)
    ensures
        a.active() <==> a.opacity.keys@.len() + a.pos_x.keys@.len() + a.pos_y.keys@.len()
            + a.scale.keys@.len() + a.volume.keys@.len() > 0,
{
}

} // verus!
