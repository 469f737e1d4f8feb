//! Editing tone curves by their points.

use crate::float::{is_nan32, lt32, F32, F32_ONE, F32_ZERO};
use crate::ordering::{in_order, sort, sorted, sorted_in_order, sorted_keeps_order, Keyed};
use crate::state::{CurveChannel, ToneCurves};
use vstd::prelude::*;

verus! {

/// The place of a number in the order of all bit patterns: the negative ones first,
/// from the largest magnitude to the smallest, then the others.
pub open spec fn total_rank(x: F32) -> int {
    if x.bits < 0x8000_0000 {
        x.bits + 0x8000_0000
    } else {
        0xffff_ffff - x.bits
    }
}

/// Points are ordered from left to right.
impl Keyed for (F32, F32) {
    open spec fn key(self) -> int {
        total_rank(self.0)
    }

    fn sort_key(&self) -> (k: u128) {
        let bits: u32 = self.0.bits;
        if bits < 0x8000_0000 {
            bits as u128 + 0x8000_0000
        } else {
            0xffff_ffff - bits as u128
        }
    }
}

/// The points of a channel.
pub open spec fn channel(curves: ToneCurves, ch: CurveChannel) -> Seq<(F32, F32)> {
    match ch {
        CurveChannel::Luma => curves.master@,
        CurveChannel::R => curves.r@,
        CurveChannel::G => curves.g@,
        CurveChannel::B => curves.b@,
    }
}

/// The curve that changes nothing.
pub open spec fn straight() -> Seq<(F32, F32)> {
    seq![
        (F32 { bits: F32_ZERO }, F32 { bits: F32_ZERO }),
        (F32 { bits: F32_ONE }, F32 { bits: F32_ONE }),
    ]
}

/// The points that are shown for a channel: its own, or those of the straight line,
/// from left to right.
pub open spec fn shown_points(stored: Seq<(F32, F32)>) -> Seq<(F32, F32)> {
    sorted(
        if stored.len() == 0 {
            straight()
        } else {
            stored
        },
    )
}

/// The points of a channel.
pub fn channel_vec(curves: &ToneCurves, ch: CurveChannel) -> (v: &Vec<(F32, F32)>)
    ensures
        v@ == channel(*curves, ch),
{
    match ch {
        CurveChannel::Luma => &curves.master,
        CurveChannel::R => &curves.r,
        CurveChannel::G => &curves.g,
        CurveChannel::B => &curves.b,
    }
}

/// Gives a channel other points. The other channels stay as they are.
pub fn set_channel(curves: &mut ToneCurves, ch: CurveChannel, points: Vec<(F32, F32)>)
    ensures
        channel(*final(curves), ch) == points@,
        forall|other: CurveChannel|
            other != ch ==> #[trigger] channel(*final(curves), other) == channel(
                *old(curves),
                other,
            ),
{
    match ch {
        CurveChannel::Luma => {
            curves.master = points;
        },
        CurveChannel::R => {
            curves.r = points;
        },
        CurveChannel::G => {
            curves.g = points;
        },
        CurveChannel::B => {
            curves.b = points;
        },
    }
}

fn copy_points(points: &Vec<(F32, F32)>) -> (r: Vec<(F32, F32)>)
    ensures
        r@ == points@,
{
    let mut r: Vec<(F32, F32)> = Vec::new();
    let mut i: usize = 0;
    while i < points.len()
        invariant
            i <= points@.len(),
            r@ == points@.take(i as int),
        decreases points@.len() - i,
    {
        r.push(points[i]);
        i = i + 1;
        assert(points@.take(i as int) =~= points@.take(i - 1).push(points@[i - 1]));
    }
    assert(points@.take(points@.len() as int) =~= points@);
    r
}

/// The points that are shown for a channel.
pub fn curve_points(curves: &ToneCurves, ch: CurveChannel) -> (r: Vec<(F32, F32)>)
    ensures
        r@ == shown_points(channel(*curves, ch)),
{
    let stored = channel_vec(curves, ch);
    if stored.len() == 0 {
        let zero = F32::of(F32_ZERO);
        let one = F32::of(F32_ONE);
        let mut points: Vec<(F32, F32)> = Vec::new();
        points.push((zero, zero));
        points.push((one, one));
        assert(points@ =~= straight());
        sort(points)
    } else {
        sort(copy_points(stored))
    }
}

/// Moves a point. The first and the last one stay in their column.
pub fn move_point(points: &mut Vec<(F32, F32)>, i: usize, x: F32, y: F32)
    requires
        i < old(points)@.len(),
    ensures
        final(points)@ == old(points)@.update(
            i as int,
            (
                if i == 0 || i == old(points)@.len() - 1 {
                    old(points)@[i as int].0
                } else {
                    x
                },
                y,
            ),
        ),
{
    let kept = points[i].0;
    let end = i == 0 || i == points.len() - 1;
    points[i] = if end {
        (kept, y)
    } else {
        (x, y)
    };
}

/// Takes a point away, unless it is the first or the last one. Says whether it did.
pub fn remove_point(points: &mut Vec<(F32, F32)>, i: usize) -> (removed: bool)
    ensures
        removed == (0 < i && i + 1 < old(points)@.len()),
        final(points)@ == (if removed {
            old(points)@.remove(i as int)
        } else {
            old(points)@
        }),
{
    if i > 0 && i < points.len() && i != points.len() - 1 {
        let _gone = points.remove(i);
        true
    } else {
        false
    }
}

/// Adds a point, in order from left to right.
pub fn add_point(points: Vec<(F32, F32)>, x: F32, y: F32) -> (r: Vec<(F32, F32)>)
    ensures
        r@ == sorted(points@.push((x, y))),
{
    let mut points = points;
    points.push((x, y));
    sort(points)
}

/// Each channel has points of its own.
pub proof fn channels_have_their_points(curves: ToneCurves)
    ensures
        channel(curves, CurveChannel::Luma) == curves.master@,
        channel(curves, CurveChannel::R) == curves.r@,
        channel(curves, CurveChannel::G) == curves.g@,
        channel(curves, CurveChannel::B) == curves.b@,
{
}

/// The order of points is that of their places as numbers. Bit patterns that stand for the
/// same number have an order too: the negative zero comes before the positive one, and what
/// is no number lies outside of all numbers on the side of its sign.
pub proof fn points_lie_from_left_to_right(a: (F32, F32), b: (F32, F32))
    ensures
        lt32(a.0, b.0) ==> a.key() < b.key(),
        a.key() == b.key() <==> a.0 == b.0,
        a.0.bits >= 0x8000_0000 && b.0.bits < 0x8000_0000 ==> a.key() < b.key(),
        !is_nan32(a.0.bits) && is_nan32(b.0.bits) && b.0.bits < 0x8000_0000 ==> a.key() < b.key(),
        !is_nan32(a.0.bits) && is_nan32(b.0.bits) && b.0.bits >= 0x8000_0000 ==> b.key() < a.key(),
        a.0.bits < b.0.bits < 0x8000_0000 ==> a.key() < b.key(),
        0x8000_0000 <= a.0.bits < b.0.bits ==> b.key() < a.key(),
{
}

/// A channel without points is shown as the line from black to white; any other with its
/// own points, from left to right.
pub proof fn curve_is_shown_by_its_points(stored: Seq<(F32, F32)>)
    ensures
        stored.len() == 0 ==> {
            let line = shown_points(stored);
            &&& line.len() == 2
            &&& line[0].0.bits == 0 && line[0].1.bits == 0
            &&& line[1].0.bits == 0x3f80_0000 && line[1].1.bits == 0x3f80_0000
        },
        stored.len() > 0 ==> shown_points(stored).to_multiset() == stored.to_multiset(),
        in_order(shown_points(stored)),
{
    sorted_in_order(stored);
    sorted_in_order(straight());
    if stored.len() == 0 {
        assert forall|i: int, j: int| 0 <= i <= j < straight().len() implies
            #[trigger] straight()[i].key() <= #[trigger] straight()[j].key() by {}
        sorted_keeps_order(straight());
    }
}

} // verus!
