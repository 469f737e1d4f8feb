//! Lists that are kept in order of a key; among equal keys, what came first stays
//! first.

use vstd::prelude::*;

verus! {

/// Something with a key by which lists of it are ordered.
pub trait Keyed: Sized {
    /// The key.
    spec fn key(self) -> int;

    /// Computes the key.
    fn sort_key(&self) -> (k: u128)
        ensures
            k == self.key(),
    ;
}

/// The keys never fall.
pub open spec fn in_order<T: Keyed>(s: Seq<T>) -> bool {
    forall|i: int, j: int| 0 <= i <= j < s.len() ==> #[trigger] s[i].key() <= #[trigger] s[j].key()
}

/// The first place from `from` on whose key is greater than `k`, or the end.
pub open spec fn slot_from<T: Keyed>(s: Seq<T>, k: int, from: int) -> int
    decreases s.len() - from,
{
    if from < 0 || from >= s.len() || s[from].key() > k {
        from
    } else {
        slot_from(s, k, from + 1)
    }
}

/// `s` with `x` put before the first element whose key is greater.
pub open spec fn placed<T: Keyed>(s: Seq<T>, x: T) -> Seq<T> {
    s.insert(slot_from(s, x.key(), 0), x)
}

/// `s` in order of the keys.
pub open spec fn sorted<T: Keyed>(s: Seq<T>) -> Seq<T>
    decreases s.len(),
{
    if s.len() == 0 {
        s
    } else {
        placed(sorted(s.drop_last()), s.last())
    }
}

pub proof fn slot_bounds<T: Keyed>(s: Seq<T>, k: int, from: int)
    requires
        0 <= from <= s.len(),
    ensures
        from <= slot_from(s, k, from) <= s.len(),
        forall|i: int| from <= i < slot_from(s, k, from) ==> (#[trigger] s[i]).key() <= k,
        slot_from(s, k, from) < s.len() ==> s[slot_from(s, k, from)].key() > k,
    decreases s.len() - from,
{
    if from < s.len() && s[from].key() <= k {
        slot_bounds(s, k, from + 1);
    }
}

/// What is put into a list in order leaves it in order, and adds exactly that
/// element.
pub proof fn placed_in_order<T: Keyed>(s: Seq<T>, x: T)
    requires
        in_order(s),
    ensures
        in_order(placed(s, x)),
        placed(s, x).to_multiset() =~= s.to_multiset().insert(x),
        placed(s, x).len() == s.len() + 1,
{
    let at = slot_from(s, x.key(), 0);
    slot_bounds(s, x.key(), 0);
    let r = placed(s, x);
    assert forall|i: int, j: int| 0 <= i <= j < r.len() implies #[trigger] r[i].key()
        <= #[trigger] r[j].key() by {
        let a = if i < at { i } else { i - 1 };
        let b = if j < at { j } else { j - 1 };
        if i != at {
            assert(r[i] == s[a]);
        }
        if j != at {
            assert(r[j] == s[b]);
        }
        if at < s.len() {
            assert(s[at].key() > x.key());
        }
    }
    vstd::seq_lib::to_multiset_insert(s, at, x);
}

/// Sorting puts a list in order and keeps its elements.
pub proof fn sorted_in_order<T: Keyed>(s: Seq<T>)
    ensures
        in_order(sorted(s)),
        sorted(s).to_multiset() =~= s.to_multiset(),
        sorted(s).len() == s.len(),
    decreases s.len(),
{
    if s.len() > 0 {
        sorted_in_order(s.drop_last());
        placed_in_order(sorted(s.drop_last()), s.last());
        assert(s =~= s.drop_last().push(s.last()));
        s.drop_last().to_multiset_ensures();
    }
}

/// Sorting leaves a list in order as it is.
pub proof fn sorted_keeps_order<T: Keyed>(s: Seq<T>)
    requires
        in_order(s),
    ensures
        sorted(s) == s,
    decreases s.len(),
{
    if s.len() > 0 {
        let front = s.drop_last();
        assert forall|i: int, j: int| 0 <= i <= j < front.len() implies #[trigger] front[i].key()
            <= #[trigger] front[j].key() by {
            assert(front[i] == s[i] && front[j] == s[j]);
        }
        sorted_keeps_order(front);
        slot_bounds(front, s.last().key(), 0);
        let at = slot_from(front, s.last().key(), 0);
        if at < front.len() {
            assert(front[at] == s[at]);
        }
        assert(placed(front, s.last()) =~= s);
    }
}

/// Having the key `k`.
pub open spec fn has_key<T: Keyed>(k: int) -> spec_fn(T) -> bool {
    |x: T| x.key() == k
}

/// The elements with the key `k`.
pub open spec fn with_key<T: Keyed>(s: Seq<T>, k: int) -> Seq<T> {
    s.filter(has_key(k))
}

proof fn placed_is_stable<T: Keyed>(s: Seq<T>, x: T, k: int)
    requires
        in_order(s),
    ensures
        with_key(placed(s, x), k) == with_key(s.push(x), k),
{
    let f = has_key::<T>(k);
    let at = slot_from(s, x.key(), 0);
    slot_bounds(s, x.key(), 0);
    let front = s.take(at);
    let back = s.skip(at);
    assert(s =~= front + back);
    assert(placed(s, x) =~= front + (seq![x] + back));
    assert(s.push(x) =~= front + (back + seq![x]));
    Seq::filter_distributes_over_add(front, seq![x] + back, f);
    Seq::filter_distributes_over_add(front, back + seq![x], f);
    Seq::filter_distributes_over_add(seq![x], back, f);
    Seq::filter_distributes_over_add(back, seq![x], f);
    if x.key() == k {
        assert forall|i: int| 0 <= i < back.len() implies !f(#[trigger] back[i]) by {
            assert(back[i] == s[at + i]);
            assert(s[at].key() <= s[at + i].key());
        }
        none_kept(back, f);
    } else {
        none_kept(seq![x], f);
    }
    assert(seq![x].filter(f) + back.filter(f) =~= back.filter(f) + seq![x].filter(f));
    assert(front.filter(f) + (seq![x].filter(f) + back.filter(f)) =~= front.filter(f) + (
    back.filter(f) + seq![x].filter(f)));
}

proof fn none_kept<T>(s: Seq<T>, f: spec_fn(T) -> bool)
    requires
        forall|i: int| 0 <= i < s.len() ==> !f(#[trigger] s[i]),
    ensures
        s.filter(f) == Seq::<T>::empty(),
    decreases s.len(),
{
    reveal(Seq::filter);
    if s.len() > 0 {
        none_kept(s.drop_last(), f);
    }
}

/// Sorting is stable: elements with one key keep their order among themselves.
pub proof fn sorted_is_stable<T: Keyed>(s: Seq<T>, k: int)
    ensures
        with_key(sorted(s), k) == with_key(s, k),
    decreases s.len(),
{
    if s.len() > 0 {
        let f = has_key::<T>(k);
        let front = s.drop_last();
        sorted_is_stable(front, k);
        sorted_in_order(front);
        placed_is_stable(sorted(front), s.last(), k);
        assert(sorted(front).push(s.last()) =~= sorted(front) + seq![s.last()]);
        assert(s =~= front + seq![s.last()]);
        Seq::filter_distributes_over_add(sorted(front), seq![s.last()], f);
        Seq::filter_distributes_over_add(front, seq![s.last()], f);
    }
}

/// How many of the first `n` elements have a key of at most `k`.
pub open spec fn up_to<T: Keyed>(s: Seq<T>, k: int, n: int) -> int
    decreases n,
{
    if n <= 0 {
        0
    } else if s[n - 1].key() <= k {
        up_to(s, k, n - 1) + 1
    } else {
        up_to(s, k, n - 1)
    }
}

/// How many of the first `n` elements sorting puts before the one at `c`.
pub open spec fn rank<T: Keyed>(s: Seq<T>, c: int, n: int) -> int
    decreases n,
{
    if n <= 0 {
        0
    } else if s[n - 1].key() < s[c].key() || (s[n - 1].key() == s[c].key() && n - 1 < c) {
        rank(s, c, n - 1) + 1
    } else {
        rank(s, c, n - 1)
    }
}

proof fn rank_agrees<T: Keyed>(a: Seq<T>, b: Seq<T>, c: int, n: int)
    requires
        0 <= n <= a.len(),
        n <= b.len(),
        0 <= c < a.len(),
        c < b.len(),
        a[c] == b[c],
        forall|i: int| 0 <= i < n ==> a[i] == b[i],
    ensures
        rank(a, c, n) == rank(b, c, n),
        up_to(a, a[c].key(), n) == up_to(b, a[c].key(), n),
        n <= c ==> rank(a, c, n) == up_to(a, a[c].key(), n),
        0 <= rank(a, c, n) <= n,
    decreases n,
{
    if n > 0 {
        rank_agrees(a, b, c, n - 1);
    }
}

proof fn up_to_agrees<T: Keyed>(a: Seq<T>, b: Seq<T>, k: int, n: int)
    requires
        0 <= n <= a.len(),
        n <= b.len(),
        forall|i: int| 0 <= i < n ==> a[i] == b[i],
    ensures
        up_to(a, k, n) == up_to(b, k, n),
    decreases n,
{
    if n > 0 {
        up_to_agrees(a, b, k, n - 1);
    }
}

proof fn slot_counts<T: Keyed>(s: Seq<T>, k: int)
    ensures
        slot_from(sorted(s), k, 0) == up_to(s, k, s.len() as int),
    decreases s.len(),
{
    if s.len() > 0 {
        let front = s.drop_last();
        let x = s.last();
        let was = sorted(front);
        let now = sorted(s);
        slot_counts(front, k);
        up_to_agrees(s, front, k, front.len() as int);
        sorted_in_order(front);
        sorted_in_order(s);
        let at = slot_from(was, x.key(), 0);
        let a = slot_from(was, k, 0);
        let b = slot_from(now, k, 0);
        slot_bounds(was, x.key(), 0);
        slot_bounds(was, k, 0);
        slot_bounds(now, k, 0);
        assert forall|i: int| 0 <= i < now.len() implies #[trigger] now[i] == (if i < at {
            was[i]
        } else if i == at {
            x
        } else {
            was[i - 1]
        }) by {}
        let e = if x.key() <= k { a + 1 } else { a };
        if b < e {
            assert(now[b].key() <= k);
        }
        if b > e {
            assert(now[e].key() > k);
        }
    }
}

/// Sorting puts an element behind all those that have a smaller key, or the same one
/// and an earlier place, and before all others.
pub proof fn sorted_by_rank<T: Keyed>(s: Seq<T>, c: int)
    requires
        0 <= c < s.len(),
    ensures
        0 <= rank(s, c, s.len() as int) < s.len(),
        sorted(s)[rank(s, c, s.len() as int)] == s[c],
    decreases s.len(),
{
    let front = s.drop_last();
    let x = s.last();
    let was = sorted(front);
    let k = x.key();
    let at = slot_from(was, k, 0);
    sorted_in_order(front);
    slot_bounds(was, k, 0);
    if c == front.len() {
        slot_counts(front, k);
        rank_agrees(s, s, c, c);
        up_to_agrees(s, front, k, c);
    } else {
        sorted_by_rank(front, c);
        rank_agrees(s, front, c, front.len() as int);
        let p = rank(front, c, front.len() as int);
        assert(was[p] == s[c]);
        if k < s[c].key() {
            assert(at <= p);
        } else {
            assert(p < at);
        }
    }
}

/// The place that sorting gives to the element at `c`.
pub fn rank_of<T: Keyed>(list: &Vec<T>, c: usize) -> (r: usize)
    requires
        c < list@.len(),
    ensures
        r == rank(list@, c as int, list@.len() as int),
        r < list@.len(),
{
    let k: u128 = list[c].sort_key();
    let mut r: usize = 0;
    let mut i: usize = 0;
    while i < list.len()
        invariant
            r <= i <= list@.len(),
            c < list@.len(),
            k == list@[c as int].key(),
            r == rank(list@, c as int, i as int),
        decreases list@.len() - i,
    {
        let other: u128 = list[i].sort_key();
        if other < k || (other == k && i < c) {
            r = r + 1;
        }
        i = i + 1;
    }
    proof {
        sorted_by_rank(list@, c as int);
    }
    r
}

/// Puts `x` before the first element whose key is greater.
pub fn place<T: Keyed>(list: &mut Vec<T>, x: T)
    ensures
        final(list)@ == placed(old(list)@, x),
{
    let k: u128 = x.sort_key();
    let mut at: usize = 0;
    while at < list.len() && list[at].sort_key() <= k
        invariant
            at <= list@.len(),
            k == x.key(),
            slot_from(list@, k as int, 0) == slot_from(list@, k as int, at as int),
        decreases list@.len() - at,
    {
        at = at + 1;
    }
    list.insert(at, x);
}

/// Sorts the list by key.
pub fn sort<T: Keyed>(list: Vec<T>) -> (r: Vec<T>)
    ensures
        r@ == sorted(list@),
{
    let ghost all = list@;
    let mut out: Vec<T> = Vec::new();
    assert(all.take(0) =~= Seq::empty());
    for x in it: list
        invariant
            it.seq() == all,
            out@ == sorted(all.take(it.index() as int)),
    {
        proof {
            let n = it.index() as int;
            assert(all.take(n + 1).drop_last() =~= all.take(n));
        }
        place(&mut out, x);
    }
    assert(all.take(all.len() as int) =~= all);
    out
}

} // verus!
