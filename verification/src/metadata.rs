//! Notes that ride along with a clip, each under a key.

use crate::text::same_text;
use vstd::prelude::*;
use vstd::string::*;

verus! {

/// The place of the first entry with this key from `from` on, or the end.
pub open spec fn first_key(metadata: Seq<(String, String)>, key: Seq<char>, from: int) -> int
    decreases metadata.len() - from,
{
    if from < 0 || from >= metadata.len() || metadata[from].0@ == key {
        from
    } else {
        first_key(metadata, key, from + 1)
    }
}

/// What is kept under a key.
pub open spec fn value_at(metadata: Seq<(String, String)>, key: Seq<char>) -> Option<Seq<char>> {
    let i = first_key(metadata, key, 0);
    if i < metadata.len() {
        Some(metadata[i].1@)
    } else {
        None
    }
}

fn find_key(metadata: &Vec<(String, String)>, key: &str) -> (i: usize)
    ensures
        i == first_key(metadata@, key@, 0),
        i <= metadata@.len(),
{
    let mut i: usize = 0;
    while i < metadata.len()
        invariant
            i <= metadata@.len(),
            first_key(metadata@, key@, 0) == first_key(metadata@, key@, i as int),
        decreases metadata@.len() - i,
    {
        if same_text(metadata[i].0.as_str(), key) {
            return i;
        }
        i = i + 1;
    }
    i
}

proof fn first_key_stays(metadata: Seq<(String, String)>, key: Seq<char>, at: int, from: int)
    requires
        0 <= from <= at < metadata.len(),
        metadata[at].0@ == key,
        forall|i: int| 0 <= i < at ==> (#[trigger] metadata[i]).0@ != key,
    ensures
        first_key(metadata, key, from) == at,
    decreases at - from,
{
    if from < at {
        assert(metadata[from].0@ != key);
        first_key_stays(metadata, key, at, from + 1);
    }
}

proof fn first_key_is_first(metadata: Seq<(String, String)>, key: Seq<char>, from: int)
    requires
        0 <= from <= metadata.len(),
    ensures
        from <= first_key(metadata, key, from) <= metadata.len(),
        forall|i: int|
            from <= i < first_key(metadata, key, from) ==> (#[trigger] metadata[i]).0@ != key,
        first_key(metadata, key, from) < metadata.len() ==> metadata[first_key(
            metadata,
            key,
            from,
        )].0@ == key,
    decreases metadata.len() - from,
{
    if from < metadata.len() && metadata[from].0@ != key {
        first_key_is_first(metadata, key, from + 1);
    }
}

proof fn other_keys_stay(
    was: Seq<(String, String)>,
    now: Seq<(String, String)>,
    key: Seq<char>,
    at: int,
    from: int,
)
    requires
        0 <= from <= was.len(),
        0 <= at <= was.len(),
        now.len() == (if at < was.len() { was.len() } else { was.len() + 1 }),
        forall|i: int| 0 <= i < was.len() && i != at ==> #[trigger] now[i] == was[i],
        at < was.len() ==> was[at].0@ != key,
        now[at].0@ != key,
    ensures
        first_key(was, key, from) < was.len() ==> first_key(now, key, from) == first_key(
            was,
            key,
            from,
        ) && now[first_key(was, key, from)] == was[first_key(was, key, from)] && first_key(
            was,
            key,
            from,
        ) != at,
        first_key(was, key, from) >= was.len() ==> first_key(now, key, from) >= now.len(),
    decreases was.len() - from,
{
    if from < was.len() {
        if from != at {
            assert(now[from] == was[from]);
        }
        if was[from].0@ != key {
            other_keys_stay(was, now, key, at, from + 1);
        }
    } else if now.len() > was.len() {
        assert(first_key(now, key, now.len() as int) == now.len());
    }
}

/// Puts a note under a key, in place of the one that was there.
pub fn put_note(metadata: &mut Vec<(String, String)>, key: &str, text: String)
    ensures
        value_at(final(metadata)@, key@) == Some(text@),
        forall|other: Seq<char>|
            other != key@ ==> #[trigger] value_at(final(metadata)@, other) == value_at(
                old(metadata)@,
                other,
            ),
{
    let ghost was = metadata@;
    let at: usize = find_key(metadata, key);
    proof {
        first_key_is_first(was, key@, 0);
    }
    let ghost kept = text@;
    if at < metadata.len() {
        metadata[at] = (key.to_owned(), text);
    } else {
        metadata.push((key.to_owned(), text));
    }
    proof {
        let now = metadata@;
        assert(now[at as int].0@ == key@ && now[at as int].1@ == kept);
        assert forall|i: int| 0 <= i < at implies (#[trigger] now[i]).0@ != key@ by {
            assert(now[i] == was[i]);
        }
        first_key_stays(now, key@, at as int, 0);
        assert forall|other: Seq<char>| other != key@ implies #[trigger] value_at(now, other)
            == value_at(was, other) by {
            other_keys_stay(was, now, other, at as int, 0);
        }
    }
}

/// The note under a key, where there is one.
pub fn note(metadata: &Vec<(String, String)>, key: &str) -> (t: Option<String>)
    ensures
        t is Some == value_at(metadata@, key@) is Some,
        t is Some ==> t->0@ == value_at(metadata@, key@)->0,
{
    let at: usize = find_key(metadata, key);
    if at < metadata.len() {
        Some(metadata[at].1.clone())
    } else {
        None
    }
}

/// What is kept under a key is the text of the first entry with that key; without such an
/// entry nothing is.
pub proof fn note_is_found_by_its_key(metadata: Seq<(String, String)>, key: Seq<char>, at: int)
    ensures
        0 <= at < metadata.len() && metadata[at].0@ == key && (forall|i: int|
            0 <= i < at ==> (#[trigger] metadata[i]).0@ != key) ==> value_at(metadata, key) == Some(
            metadata[at].1@,
        ),
        (forall|i: int| 0 <= i < metadata.len() ==> (#[trigger] metadata[i]).0@ != key) ==> value_at(
            metadata,
            key,
        ) is None,
{
    first_key_is_first(metadata, key, 0);
    if 0 <= at < metadata.len() && metadata[at].0@ == key && (forall|i: int|
        0 <= i < at ==> (#[trigger] metadata[i]).0@ != key) {
        first_key_stays(metadata, key, at, 0);
    }
}

} // verus!
