//! The queue of exports.

use crate::export::ExportSnapshot;
use crate::text::same_text;
use vstd::prelude::*;

verus! {

/// Where an export of the queue stands.
#[derive(Debug)]
pub enum QueueJobStatus {
    Pending,
    Running,
    /// The path of the file that was written.
    Done(String),
    /// What went wrong.
    Failed(String),
    Cancelled,
}

/// An export of the queue. Its snapshot is there until rendering starts.
#[derive(Debug)]
pub struct QueueJob {
    pub output_path: String,
    pub snapshot: Option<ExportSnapshot>,
    pub status: QueueJobStatus,
}

/// What the queue does next.
#[derive(Clone, Copy, PartialEq, Eq, Structural, Debug)]
pub enum QueueStep {
    /// An export is being rendered.
    Wait,
    /// The export at this place is next.
    Start(usize),
    /// Nothing is left to render.
    Finish,
}

/// How rendering ended.
#[derive(Debug)]
pub enum RenderOutcome {
    Finished,
    Cancelled,
    Failed(String),
}

impl QueueJob {
    /// An export that waits for its turn.
    pub fn new(snapshot: ExportSnapshot, output_path: String) -> (j: Self)
        ensures
            j.output_path == output_path,
            j.snapshot == Some(snapshot),
            j.status is Pending,
    {
        QueueJob { output_path, snapshot: Some(snapshot), status: QueueJobStatus::Pending }
    }

    /// Takes the snapshot out to be rendered. There is one to render only where
    /// the export was waiting and its snapshot had not been taken; it is then
    /// running. The snapshot is gone from the queue either way.
    pub fn start(&mut self) -> (s: Option<ExportSnapshot>)
        ensures
            final(self).output_path == old(self).output_path,
            final(self).snapshot is None,
            s == (if old(self).status is Pending {
                old(self).snapshot
            } else {
                None
            }),
            final(self).status == (if s is Some {
                QueueJobStatus::Running
            } else {
                old(self).status
            }),
    {
        match self.snapshot.take() {
            None => None,
            Some(snapshot) => match self.status {
                QueueJobStatus::Pending => {
                    self.status = QueueJobStatus::Running;
                    Some(snapshot)
                },
                _ => None,
            },
        }
    }

    /// Notes how rendering ended. Says whether the unfinished file has to go.
    pub fn finish(&mut self, outcome: RenderOutcome) -> (remove_file: bool)
        ensures
            final(self).output_path == old(self).output_path,
            final(self).snapshot == old(self).snapshot,
            remove_file == (outcome is Cancelled),
            match outcome {
                RenderOutcome::Finished => final(self).status == QueueJobStatus::Done(
                    old(self).output_path,
                ),
                RenderOutcome::Cancelled => final(self).status is Cancelled,
                RenderOutcome::Failed(e) => final(self).status == QueueJobStatus::Failed(e),
            },
    {
        match outcome {
            RenderOutcome::Finished => {
                self.status = QueueJobStatus::Done(self.output_path.clone());
                false
            },
            RenderOutcome::Cancelled => {
                self.status = QueueJobStatus::Cancelled;
                true
            },
            RenderOutcome::Failed(e) => {
                self.status = QueueJobStatus::Failed(e);
                false
            },
        }
    }

    /// Whether the user may take this export off the queue: any but one that is
    /// being rendered.
    pub fn removable(&self) -> (r: bool)
        ensures
            r == !(self.status is Running),
    {
        match self.status {
            QueueJobStatus::Running => false,
            _ => true,
        }
    }
}

/// How rendering ended, by the renderer's error and whether the user had asked to
/// cancel. An error that reads `cancelled` counts as that.
pub fn render_outcome(error: Option<String>, cancelled: bool) -> (o: RenderOutcome)
    ensures
        o == (match error {
            None => RenderOutcome::Finished,
            Some(e) => if cancelled || e@ == "cancelled"@ {
                RenderOutcome::Cancelled
            } else {
                RenderOutcome::Failed(e)
            },
        }),
{
    match error {
        None => RenderOutcome::Finished,
        Some(e) => if cancelled || same_text(e.as_str(), "cancelled") {
            RenderOutcome::Cancelled
        } else {
            RenderOutcome::Failed(e)
        },
    }
}

/// An export is being rendered.
pub open spec fn rendering(queue: Seq<QueueJob>) -> bool {
    exists|i: int| 0 <= i < queue.len() && (#[trigger] queue[i]).status is Running
}

/// The first export that waits, counted from `from`; the length where none does.
pub open spec fn first_pending(queue: Seq<QueueJob>, from: int) -> int
    decreases queue.len() - from,
{
    if 0 <= from < queue.len() && !(queue[from].status is Pending) {
        first_pending(queue, from + 1)
    } else {
        from
    }
}

/// One export at a time, the first that waits.
pub open spec fn next_step(queue: Seq<QueueJob>) -> QueueStep {
    if rendering(queue) {
        QueueStep::Wait
    } else if first_pending(queue, 0) < queue.len() {
        QueueStep::Start(first_pending(queue, 0) as usize)
    } else {
        QueueStep::Finish
    }
}

/// What the queue does next.
pub fn advance(queue: &Vec<QueueJob>) -> (s: QueueStep)
    ensures
        s == next_step(queue@),
{
    let mut i: usize = 0;
    while i < queue.len()
        invariant
            i <= queue@.len(),
            forall|k: int| 0 <= k < i ==> !((#[trigger] queue@[k]).status is Running),
        decreases queue@.len() - i,
    {
        match queue[i].status {
            QueueJobStatus::Running => {
                return QueueStep::Wait;
            },
            _ => {},
        }
        i = i + 1;
    }
    let mut p: usize = 0;
    while p < queue.len()
        invariant
            p <= queue@.len(),
            !rendering(queue@),
            first_pending(queue@, 0) == first_pending(queue@, p as int),
        decreases queue@.len() - p,
    {
        match queue[p].status {
            QueueJobStatus::Pending => {
                return QueueStep::Start(p);
            },
            _ => {},
        }
        p = p + 1;
    }
    QueueStep::Finish
}

/// Starting what [`advance`] names makes it the only export that is rendered: two
/// exports never run at once.
pub proof fn one_export_at_a_time(queue: Seq<QueueJob>, started: Seq<QueueJob>, at: usize)
    requires
        queue.len() <= usize::MAX,
        next_step(queue) == QueueStep::Start(at),
        started.len() == queue.len(),
        started[at as int].status is Running,
        forall|i: int| 0 <= i < queue.len() && i != at ==> started[i] == queue[i],
    ensures
        at < queue.len(),
        queue[at as int].status is Pending,
        next_step(started) == QueueStep::Wait,
        forall|i: int|
            0 <= i < started.len() && i != at ==> !((#[trigger] started[i]).status is Running),
{
    first_pending_bounds(queue, 0);
    assert(started[at as int].status is Running);
}

proof fn first_pending_bounds(queue: Seq<QueueJob>, from: int)
    requires
        0 <= from <= queue.len(),
    ensures
        from <= first_pending(queue, from) <= queue.len(),
        first_pending(queue, from) < queue.len() ==> queue[first_pending(
            queue,
            from,
        )].status is Pending,
        forall|i: int|
            from <= i < first_pending(queue, from) ==> !((#[trigger] queue[i]).status is Pending),
    decreases queue.len() - from,
{
    if from < queue.len() && !(queue[from].status is Pending) {
        first_pending_bounds(queue, from + 1);
    }
}

/// Exports are rendered in the order of the queue: nothing that waits stands
/// before the one that is started.
pub proof fn queue_order_is_kept(queue: Seq<QueueJob>, at: usize)
    requires
        queue.len() <= usize::MAX,
        next_step(queue) == QueueStep::Start(at),
    ensures
        forall|i: int| 0 <= i < at ==> !((#[trigger] queue[i]).status is Pending),
{
    first_pending_bounds(queue, 0);
}

/// The queue waits while anything is rendered, and is finished when nothing waits or runs.
pub proof fn queue_runs_until_nothing_waits(queue: Seq<QueueJob>, i: int)
    requires
        queue.len() <= usize::MAX,
        0 <= i < queue.len(),
    ensures
        queue[i].status is Running ==> next_step(queue) == QueueStep::Wait,
        next_step(queue) == QueueStep::Finish ==> !(queue[i].status is Pending)
            && !(queue[i].status is Running),
        next_step(queue) == QueueStep::Wait ==> exists|k: int|
            0 <= k < queue.len() && (#[trigger] queue[k]).status is Running,
        next_step(Seq::empty()) == QueueStep::Finish,
{
    first_pending_bounds(queue, 0);
    assert(!rendering(Seq::empty()));
}

} // verus!
