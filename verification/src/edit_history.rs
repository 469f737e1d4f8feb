//! Undo and redo over versions of a document.
//!
//! Every edit makes a new version. A structural edit is a step that can be undone;
//! an amendment replaces the current version without a step of its own; a gesture
//! gathers several amendments into one step.

use std::sync::Arc;
use vstd::prelude::*;

verus! {

/// How many versions are kept.
pub const MAX_HISTORY: usize = 50;

/// The versions of a document, and which of them is current.
pub struct EditHistory<T> {
    history: Vec<Arc<T>>,
    cursor: usize,
    /// The version from before an open gesture.
    gesture_pre: Option<Arc<T>>,
}

/// A history as a value: versions from oldest to newest, the place of the current
/// one, and the version from before an open gesture.
#[verifier::ext_equal]
pub struct Versions<T> {
    pub all: Seq<T>,
    pub at: int,
    pub pre: Option<T>,
}

impl<T> Versions<T> {
    /// There is a current version, and not too many of them.
    pub open spec fn wf(self) -> bool {
        0 <= self.at < self.all.len() <= MAX_HISTORY
    }

    /// The current version.
    pub open spec fn now(self) -> T {
        self.all[self.at]
    }

    /// After a step to `next`: what could be redone is gone, and the oldest version
    /// gives way where there are too many.
    pub open spec fn recorded(self, next: T) -> Self {
        let all = self.all.take(self.at + 1).push(next);
        if all.len() > MAX_HISTORY {
            Versions { all: all.drop_first(), at: self.at, pre: self.pre }
        } else {
            Versions { all, at: self.at + 1, pre: self.pre }
        }
    }

    /// After the current version was replaced: what could be redone is gone.
    pub open spec fn amended(self, next: T) -> Self {
        Versions { all: self.all.take(self.at).push(next), at: self.at, pre: self.pre }
    }

    /// After a gesture was opened. One that is open stays as it is.
    pub open spec fn begun(self) -> Self {
        match self.pre {
            Some(_) => self,
            None => Versions { pre: Some(self.now()), ..self },
        }
    }

    /// After a gesture was closed: one step from the version before it.
    pub open spec fn committed(self) -> Self {
        match self.pre {
            Some(pre) => Versions {
                all: self.all.update(self.at, pre),
                at: self.at,
                pre: None,
            }.recorded(self.now()),
            None => self,
        }
    }

    /// After a gesture was given up: the version from before it is current.
    pub open spec fn cancelled(self) -> Self {
        match self.pre {
            Some(pre) => Versions { pre: None, ..self.amended(pre) },
            None => self,
        }
    }

    /// After one step back, where there is one.
    pub open spec fn undone(self) -> Self {
        if self.at > 0 {
            Versions { at: self.at - 1, ..self }
        } else {
            self
        }
    }

    /// After one step forward, where there is one.
    pub open spec fn redone(self) -> Self {
        if self.at + 1 < self.all.len() {
            Versions { at: self.at + 1, ..self }
        } else {
            self
        }
    }
}

/// The states in `path` follow each other by these commands.
pub open spec fn follows<T, C, E, F: Fn(&T, &C) -> Result<T, E>>(
    step: F,
    commands: Seq<C>,
    path: Seq<T>,
) -> bool {
    path.len() == commands.len() + 1 && forall|i: int|
        0 <= i < commands.len() ==> call_ensures(
            step,
            (&path[i], #[trigger] &commands[i]),
            Ok::<T, E>(path[i + 1]),
        )
}

/// `to` can come out of `from` by these commands, one after the other.
pub open spec fn runs_to<T, C, E, F: Fn(&T, &C) -> Result<T, E>>(
    step: F,
    from: T,
    commands: Seq<C>,
    to: T,
) -> bool {
    exists|path: Seq<T>| #[trigger]
        follows(step, commands, path) && path[0] == from && path.last() == to
}

/// The commands can fail with `error`: some command does, after those before it
/// went through.
pub open spec fn fails_with<T, C, E, F: Fn(&T, &C) -> Result<T, E>>(
    step: F,
    from: T,
    commands: Seq<C>,
    error: E,
) -> bool {
    exists|k: int, mid: T|
        0 <= k < commands.len() && #[trigger] runs_to(step, from, commands.take(k), mid)
            && call_ensures(step, (&mid, &commands[k]), Err::<T, E>(error))
}

impl<T> View for EditHistory<T> {
    type V = Versions<T>;

    closed spec fn view(&self) -> Versions<T> {
        Versions {
            all: self.history@.map_values(|v: Arc<T>| *v),
            at: self.cursor as int,
            pre: match self.gesture_pre {
                Some(v) => Some(*v),
                None => None,
            },
        }
    }
}

impl<T> EditHistory<T> {
    /// A history that starts at `initial`.
    pub fn new(initial: T) -> (h: Self)
        ensures
            h@ == (Versions { all: seq![initial], at: 0, pre: None }),
            h@.wf(),
    {
        let mut history: Vec<Arc<T>> = Vec::new();
        history.push(Arc::new(initial));
        let h = EditHistory { history, cursor: 0, gesture_pre: None };
        assert(h@.all =~= seq![initial]);
        h
    }

    /// The current version.
    pub fn current(&self) -> (t: &T)
        requires
            self@.wf(),
        ensures
            *t == self@.now(),
    {
        &self.history[self.cursor]
    }

    fn record(&mut self, next: Arc<T>)
        requires
            old(self)@.wf(),
        ensures
            final(self)@ == old(self)@.recorded(*next),
            final(self)@.now() == *next,
            final(self)@.wf(),
    {
        let ghost before = self@;
        self.history.truncate(self.cursor + 1);
        self.history.push(next);
        assert(self@.all =~= before.all.take(before.at + 1).push(*next));
        self.cursor = self.cursor + 1;
        if self.history.len() > MAX_HISTORY {
            let ghost full = self@.all;
            self.history.remove(0);
            self.cursor = self.cursor - 1;
            assert(self@.all =~= full.drop_first());
        }
    }

    /// Applies one command as one step. Where it fails, nothing changes.
    pub fn apply<C, E, F: Fn(&T, &C) -> Result<T, E>>(
        &mut self,
        command: &C,
        step: F,
    ) -> (r: Result<&T, E>)
        requires
            old(self)@.wf(),
            call_requires(step, (&old(self)@.now(), command)),
        ensures
            final(self)@.wf(),
            match r {
                Ok(t) => *t == final(self)@.now() && final(self)@ == old(self)@.recorded(*t)
                    && call_ensures(step, (&old(self)@.now(), command), Ok::<T, E>(*t)),
                Err(e) => final(self)@ == old(self)@ && call_ensures(
                    step,
                    (&old(self)@.now(), command),
                    Err::<T, E>(e),
                ),
            },
    {
        match step(&self.history[self.cursor], command) {
            Ok(next) => {
                self.record(Arc::new(next));
                Ok(self.current())
            },
            Err(e) => Err(e),
        }
    }

    /// Applies several commands as one step. Without commands nothing changes;
    /// where one fails, nothing changes either.
    pub fn apply_batch<C, E, F: Fn(&T, &C) -> Result<T, E>>(
        &mut self,
        commands: &Vec<C>,
        step: F,
    ) -> (r: Result<&T, E>)
        requires
            old(self)@.wf(),
            forall|t: T, c: C| call_requires(step, (&t, &c)),
        ensures
            final(self)@.wf(),
            match r {
                Ok(t) => *t == final(self)@.now() && if commands@.len() == 0 {
                    final(self)@ == old(self)@
                } else {
                    final(self)@ == old(self)@.recorded(*t) && runs_to(
                        step,
                        old(self)@.now(),
                        commands@,
                        *t,
                    )
                },
                Err(e) => final(self)@ == old(self)@ && fails_with(
                    step,
                    old(self)@.now(),
                    commands@,
                    e,
                ),
            },
    {
        if commands.len() == 0 {
            return Ok(self.current());
        }
        let ghost from = self@.now();
        let ghost mut path: Seq<T> = seq![from];
        let mut next: Arc<T> = Arc::clone(&self.history[self.cursor]);
        let mut i: usize = 0;
        while i < commands.len()
            invariant
                i <= commands@.len(),
                self@ == old(self)@,
                old(self)@.wf(),
                forall|t: T, c: C| call_requires(step, (&t, &c)),
                from == old(self)@.now(),
                follows(step, commands@.take(i as int), path),
                path[0] == from,
                path.last() == *next,
            decreases commands@.len() - i,
        {
            match step(&next, &commands[i]) {
                Ok(t) => {
                    proof {
                        let done = commands@.take(i + 1);
                        let longer = path.push(t);
                        assert forall|k: int| 0 <= k < done.len() implies call_ensures(
                            step,
                            (&longer[k], #[trigger] &done[k]),
                            Ok::<T, E>(longer[k + 1]),
                        ) by {
                            if k < i {
                                assert(commands@.take(i as int)[k] == done[k]);
                            }
                        }
                        path = longer;
                    }
                    next = Arc::new(t);
                },
                Err(e) => {
                    proof {
                        assert(runs_to(step, from, commands@.take(i as int), path.last()));
                    }
                    return Err(e);
                },
            }
            i = i + 1;
        }
        assert(commands@.take(i as int) =~= commands@);
        assert(follows(step, commands@, path));
        self.record(next);
        Ok(self.current())
    }

    /// Replaces the current version without a step.
    pub fn amend(&mut self, next: T)
        requires
            old(self)@.wf(),
        ensures
            final(self)@ == old(self)@.amended(next),
            final(self)@.wf(),
    {
        let ghost before = self@;
        self.history.truncate(self.cursor);
        self.history.push(Arc::new(next));
        assert(self@.all =~= before.all.take(before.at).push(next));
    }

    /// Opens a gesture, unless one is open.
    pub fn begin_gesture(&mut self)
        requires
            old(self)@.wf(),
        ensures
            final(self)@ == old(self)@.begun(),
            final(self)@.wf(),
    {
        if self.gesture_pre.is_none() {
            self.gesture_pre = Some(Arc::clone(&self.history[self.cursor]));
        }
    }

    /// Closes an open gesture as one step.
    pub fn commit_gesture(&mut self)
        requires
            old(self)@.wf(),
        ensures
            final(self)@ == old(self)@.committed(),
            final(self)@.wf(),
    {
        if let Some(pre) = self.gesture_pre.take() {
            let ghost before = self@;
            let post = Arc::clone(&self.history[self.cursor]);
            self.history.set(self.cursor, pre);
            assert(self@.all =~= before.all.update(before.at, *pre));
            self.record(post);
        }
    }

    /// Gives an open gesture up.
    pub fn cancel_gesture(&mut self)
        requires
            old(self)@.wf(),
        ensures
            final(self)@ == old(self)@.cancelled(),
            final(self)@.wf(),
    {
        if let Some(pre) = self.gesture_pre.take() {
            let ghost before = self@;
            self.history.truncate(self.cursor);
            self.history.push(pre);
            assert(self@.all =~= before.all.take(before.at).push(*pre));
        }
    }

    /// Goes one step back; `None` at the oldest version.
    pub fn undo(&mut self) -> (t: Option<&T>)
        requires
            old(self)@.wf(),
        ensures
            final(self)@ == old(self)@.undone(),
            final(self)@.wf(),
            match t {
                Some(v) => old(self)@.at > 0 && *v == old(self)@.undone().now(),
                None => old(self)@.at == 0,
            },
    {
        if self.cursor == 0 {
            return None;
        }
        self.cursor = self.cursor - 1;
        Some(&self.history[self.cursor])
    }

    /// Goes one step forward; `None` at the newest version.
    pub fn redo(&mut self) -> (t: Option<&T>)
        requires
            old(self)@.wf(),
        ensures
            final(self)@ == old(self)@.redone(),
            final(self)@.wf(),
            match t {
                Some(v) => old(self)@.at + 1 < old(self)@.all.len() && *v == old(
                    self,
                )@.redone().now(),
                None => old(self)@.at + 1 == old(self)@.all.len(),
            },
    {
        if self.cursor + 1 >= self.history.len() {
            return None;
        }
        self.cursor = self.cursor + 1;
        Some(&self.history[self.cursor])
    }

    /// Whether there is a step to go back.
    pub fn can_undo(&self) -> (r: bool)
        ensures
            r == (self@.at > 0),
    {
        self.cursor > 0
    }

    /// Whether there is a step to go forward.
    pub fn can_redo(&self) -> (r: bool)
        requires
            self@.wf(),
        ensures
            r == (self@.at + 1 < self@.all.len()),
    {
        self.cursor + 1 < self.history.len()
    }
}

/// Undo and redo take each other back.
pub proof fn undo_redo_cancel<T>(v: Versions<T>)
    requires
        v.wf(),
    ensures
        v.at > 0 ==> v.undone().redone() == v,
        v.at + 1 < v.all.len() ==> v.redone().undone() == v,
{
}

/// A step makes its result current, cannot be redone over, and is undone to the
/// version before it.
pub proof fn step_is_undone<T>(v: Versions<T>, next: T)
    requires
        v.wf(),
    ensures
        v.recorded(next).wf(),
        v.recorded(next).now() == next,
        v.recorded(next).at + 1 == v.recorded(next).all.len(),
        v.recorded(next).at > 0,
        v.recorded(next).undone().now() == v.now(),
{
}

/// However many steps there are, the newest versions are kept: a step drops at
/// most the oldest one, and only from a full history.
pub proof fn newest_versions_are_kept<T>(v: Versions<T>, next: T)
    requires
        v.wf(),
    ensures
        v.recorded(next).all.len() <= MAX_HISTORY,
        v.recorded(next).all.last() == next,
        v.at + 2 <= MAX_HISTORY ==> v.recorded(next).all == v.all.take(v.at + 1).push(next),
        v.at + 2 > MAX_HISTORY ==> v.recorded(next).all == v.all.skip(1).push(next),
{
    if v.at + 2 > MAX_HISTORY {
        assert(v.recorded(next).all =~= v.all.skip(1).push(next));
    }
}

/// An amendment is no step: undo goes to the version before the amended one, and
/// of several amendments only the last counts.
pub proof fn amendment_is_no_step<T>(v: Versions<T>, first: T, second: T)
    requires
        v.wf(),
    ensures
        v.amended(first).wf(),
        v.amended(first).now() == first,
        v.amended(first).at == v.at,
        v.amended(first).at + 1 == v.amended(first).all.len(),
        v.at > 0 ==> v.amended(first).undone().now() == v.undone().now(),
        v.amended(first).amended(second) == v.amended(second),
{
    assert(v.amended(first).amended(second).all =~= v.amended(second).all);
}

/// A gesture of amendments is one step from the version at which it was opened to
/// the last amendment.
pub proof fn gesture_is_one_step<T>(v: Versions<T>, last: T)
    requires
        v.wf(),
        v.pre is None,
    ensures
        v.begun().begun() == v.begun(),
        ({
            let done = v.begun().amended(last).committed();
            &&& done.wf()
            &&& done.pre is None
            &&& done.now() == last
            &&& done.undone().now() == v.now()
            &&& done == v.recorded(last)
        }),
{
    let open = v.begun().amended(last);
    let restored = open.all.update(open.at, v.now());
    assert(restored.take(open.at + 1) =~= v.all.take(v.at + 1));
    assert(open.committed().all =~= v.recorded(last).all);
}

/// A gesture that is given up leaves the version at which it was opened.
pub proof fn cancelled_gesture_leaves_no_trace<T>(v: Versions<T>, last: T)
    requires
        v.wf(),
        v.pre is None,
    ensures
        ({
            let back = v.begun().amended(last).cancelled();
            &&& back.wf()
            &&& back.pre is None
            &&& back.now() == v.now()
            &&& back.at == v.at
            &&& back.all == v.all.take(v.at + 1)
        }),
{
    assert(v.begun().amended(last).cancelled().all =~= v.all.take(v.at + 1));
}

/// Undo and redo go one version at a time and stop at the ends; no version is lost.
pub proof fn undo_goes_one_version<T>(v: Versions<T>)
    requires
        v.wf(),
    ensures
        v.at > 0 ==> v.undone().now() == v.all[v.at - 1],
        v.at == 0 ==> v.undone().now() == v.all[0],
        v.at + 1 < v.all.len() ==> v.redone().now() == v.all[v.at + 1],
        v.at + 1 == v.all.len() ==> v.redone().now() == v.all[v.at],
        v.undone().all == v.all && v.redone().all == v.all,
        v.undone().pre == v.pre && v.redone().pre == v.pre,
{
}

/// An amendment keeps every older version, and an open gesture open.
pub proof fn amendment_keeps_older_versions<T>(v: Versions<T>, next: T, i: int)
    requires
        v.wf(),
        0 <= i < v.at,
    ensures
        v.amended(next).all.len() == v.at + 1,
        v.amended(next).all[i] == v.all[i],
        v.amended(next).pre == v.pre,
        v.recorded(next).pre == v.pre,
{
}

/// A gesture starts from the current version; while it is open no other one is started,
/// and without one there is nothing to close or to give up.
pub proof fn one_gesture_at_a_time<T>(v: Versions<T>)
    requires
        v.wf(),
    ensures
        v.pre is None ==> {
            &&& v.begun().pre == Some(v.now())
            &&& v.begun().all == v.all
            &&& v.begun().at == v.at
            &&& v.committed() == v
            &&& v.cancelled() == v
        },
        v.pre is Some ==> v.begun() == v,
{
}

/// Commands run one after the other, each on what the one before it gave; without commands
/// nothing changes, and a batch fails with the error of the command that failed.
pub proof fn commands_run_in_turn<T, C, E, F: Fn(&T, &C) -> Result<T, E>>(
    step: F,
    from: T,
    commands: Seq<C>,
    command: C,
    mid: T,
    to: T,
    error: E,
)
    ensures
        runs_to(step, from, Seq::<C>::empty(), to) ==> to == from,
        runs_to(step, from, Seq::<C>::empty(), from),
        runs_to(step, from, commands, mid) && call_ensures(step, (&mid, &command), Ok::<T, E>(to))
            ==> runs_to(step, from, commands.push(command), to),
        runs_to(step, from, seq![command], to) ==> call_ensures(
            step,
            (&from, &command),
            Ok::<T, E>(to),
        ),
        fails_with(step, from, seq![command], error) ==> call_ensures(
            step,
            (&from, &command),
            Err::<T, E>(error),
        ),
        runs_to(step, from, commands, mid) && call_ensures(
            step,
            (&mid, &command),
            Err::<T, E>(error),
        ) ==> fails_with(step, from, commands.push(command), error),
        !fails_with(step, from, Seq::<C>::empty(), error),
{
    assert(follows(step, Seq::<C>::empty(), seq![from]));
    let more = commands.push(command);
    assert(more.take(commands.len() as int) =~= commands);
    assert(more[commands.len() as int] == command);
    if runs_to(step, from, commands, mid) && call_ensures(
        step,
        (&mid, &command),
        Ok::<T, E>(to),
    ) {
        let path = choose|path: Seq<T>| #[trigger]
            follows(step, commands, path) && path[0] == from && path.last() == mid;
        let longer = path.push(to);
        assert forall|i: int| 0 <= i < more.len() implies call_ensures(
            step,
            (&longer[i], #[trigger] &more[i]),
            Ok::<T, E>(longer[i + 1]),
        ) by {
            if i < commands.len() {
                assert(more[i] == commands[i]);
            }
        }
        assert(follows(step, more, longer));
    }
    if runs_to(step, from, seq![command], to) {
        let path = choose|path: Seq<T>| #[trigger]
            follows(step, seq![command], path) && path[0] == from && path.last() == to;
        assert(seq![command][0] == command);
        assert(path.last() == path[1]);
    }
    if fails_with(step, from, seq![command], error) {
        let (k, m) = choose|k: int, mid: T|
            0 <= k < seq![command].len() && #[trigger] runs_to(
                step,
                from,
                seq![command].take(k),
                mid,
            ) && call_ensures(step, (&mid, &seq![command][k]), Err::<T, E>(error));
        assert(seq![command].take(0) =~= Seq::<C>::empty());
    }
}

} // verus!
