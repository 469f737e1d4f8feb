//! Background work: trims, GIFs and proxies that are being made, and the queue of
//! exports.

use crate::imported::ImportedClip;
use crate::time::Duration;
use vstd::prelude::*;

verus! {

#[derive(Debug)]
pub enum TrimStatus {
    Running,
    /// The path of the file that was written.
    Done(String),
    /// What went wrong.
    Failed(String),
}

/// A trim that is being written.
#[derive(Debug)]
pub struct TrimJobHandle {
    pub clip_index: usize,
    pub status: TrimStatus,
}

#[derive(Debug)]
pub enum GifStatus {
    Running,
    Done(String),
    Failed(String),
}

/// A GIF that is being written.
#[derive(Debug)]
pub struct GifJobHandle {
    pub clip_index: usize,
    pub status: GifStatus,
}

#[derive(Debug)]
pub enum ProxyStatus {
    Running,
    Done(String),
    Failed(String),
}

/// A proxy that is being written.
#[derive(Debug)]
pub struct ProxyJobHandle {
    pub clip_index: usize,
    pub status: ProxyStatus,
}

/// The trims that are still running, in order.
pub open spec fn running_trims(jobs: Seq<TrimJobHandle>) -> Seq<TrimJobHandle>
    decreases jobs.len(),
{
    if jobs.len() == 0 {
        Seq::empty()
    } else if jobs.last().status is Running {
        running_trims(jobs.drop_last()).push(jobs.last())
    } else {
        running_trims(jobs.drop_last())
    }
}

/// The files of the trims that are done, in order.
pub open spec fn done_trims(jobs: Seq<TrimJobHandle>) -> Seq<Seq<char>>
    decreases jobs.len(),
{
    if jobs.len() == 0 {
        Seq::empty()
    } else {
        match jobs.last().status {
            TrimStatus::Done(path) => done_trims(jobs.drop_last()).push(path@),
            _ => done_trims(jobs.drop_last()),
        }
    }
}

/// The texts of a list.
pub open spec fn texts(v: Seq<String>) -> Seq<Seq<char>> {
    v.map_values(|s: String| s@)
}

/// Takes finished trims off the list and gives the files that were written. A
/// trim that failed is taken off too.
pub fn drain_trim_jobs(jobs: Vec<TrimJobHandle>) -> (r: (Vec<TrimJobHandle>, Vec<String>))
    ensures
        r.0@ == running_trims(jobs@),
        texts(r.1@) == done_trims(jobs@),
{
    let ghost all = jobs@;
    let mut kept: Vec<TrimJobHandle> = Vec::new();
    let mut done: Vec<String> = Vec::new();
    for job in it: jobs
        invariant
            it.seq() == all,
            kept@ == running_trims(all.take(it.index() as int)),
            texts(done@) == done_trims(all.take(it.index() as int)),
    {
        proof {
            let n = it.index() as int;
            assert(job == all[n]);
            assert(all.take(n + 1).drop_last() =~= all.take(n));
        }
        let TrimJobHandle { clip_index, status } = job;
        match status {
            TrimStatus::Running => {
                kept.push(TrimJobHandle { clip_index, status: TrimStatus::Running });
            },
            TrimStatus::Done(path) => {
                let ghost before = done@;
                done.push(path);
                assert(texts(done@) =~= texts(before).push(path@));
            },
            TrimStatus::Failed(_) => {},
        }
    }
    assert(all.take(all.len() as int) =~= all);
    (kept, done)
}

/// The GIFs that are still running, in order.
pub open spec fn running_gifs(jobs: Seq<GifJobHandle>) -> Seq<GifJobHandle>
    decreases jobs.len(),
{
    if jobs.len() == 0 {
        Seq::empty()
    } else if jobs.last().status is Running {
        running_gifs(jobs.drop_last()).push(jobs.last())
    } else {
        running_gifs(jobs.drop_last())
    }
}

/// The files of the GIFs that are done, in order.
pub open spec fn done_gifs(jobs: Seq<GifJobHandle>) -> Seq<Seq<char>>
    decreases jobs.len(),
{
    if jobs.len() == 0 {
        Seq::empty()
    } else {
        match jobs.last().status {
            GifStatus::Done(path) => done_gifs(jobs.drop_last()).push(path@),
            _ => done_gifs(jobs.drop_last()),
        }
    }
}

/// Takes finished GIFs off the list and gives the files that were written.
pub fn drain_gif_jobs(jobs: Vec<GifJobHandle>) -> (r: (Vec<GifJobHandle>, Vec<String>))
    ensures
        r.0@ == running_gifs(jobs@),
        texts(r.1@) == done_gifs(jobs@),
{
    let ghost all = jobs@;
    let mut kept: Vec<GifJobHandle> = Vec::new();
    let mut done: Vec<String> = Vec::new();
    for job in it: jobs
        invariant
            it.seq() == all,
            kept@ == running_gifs(all.take(it.index() as int)),
            texts(done@) == done_gifs(all.take(it.index() as int)),
    {
        proof {
            let n = it.index() as int;
            assert(job == all[n]);
            assert(all.take(n + 1).drop_last() =~= all.take(n));
        }
        let GifJobHandle { clip_index, status } = job;
        match status {
            GifStatus::Running => {
                kept.push(GifJobHandle { clip_index, status: GifStatus::Running });
            },
            GifStatus::Done(path) => {
                let ghost before = done@;
                done.push(path);
                assert(texts(done@) =~= texts(before).push(path@));
            },
            GifStatus::Failed(_) => {},
        }
    }
    assert(all.take(all.len() as int) =~= all);
    (kept, done)
}

/// The proxies that stay on the list: running ones, and failed ones, which show
/// their error.
pub open spec fn open_proxies(jobs: Seq<ProxyJobHandle>) -> Seq<ProxyJobHandle>
    decreases jobs.len(),
{
    if jobs.len() == 0 {
        Seq::empty()
    } else if jobs.last().status is Done {
        open_proxies(jobs.drop_last())
    } else {
        open_proxies(jobs.drop_last()).push(jobs.last())
    }
}

/// The proxy of clip `index` once every finished job has handed in its file, in
/// order: the last one counts.
pub open spec fn proxy_after(
    jobs: Seq<ProxyJobHandle>,
    index: int,
    before: Option<Seq<char>>,
) -> Option<Seq<char>>
    decreases jobs.len(),
{
    if jobs.len() == 0 {
        before
    } else {
        match jobs.last().status {
            ProxyStatus::Done(path) => if jobs.last().clip_index == index {
                Some(path@)
            } else {
                proxy_after(jobs.drop_last(), index, before)
            },
            _ => proxy_after(jobs.drop_last(), index, before),
        }
    }
}

/// The characters of an optional path.
pub open spec fn path_text(p: Option<String>) -> Option<Seq<char>> {
    match p {
        Some(s) => Some(s@),
        None => None,
    }
}

/// Takes finished proxies off the list and gives each clip its proxy. A proxy for
/// a clip that is gone is dropped.
pub fn drain_proxy_jobs(jobs: Vec<ProxyJobHandle>, clips: &mut Vec<ImportedClip>) -> (r: Vec<
    ProxyJobHandle,
>)
    ensures
        r@ == open_proxies(jobs@),
        final(clips)@.len() == old(clips)@.len(),
        forall|i: int|
            0 <= i < old(clips)@.len() ==> {
                &&& #[trigger] final(clips)@[i] == (ImportedClip {
                    proxy_path: final(clips)@[i].proxy_path,
                    ..old(clips)@[i]
                })
                &&& path_text(final(clips)@[i].proxy_path) == proxy_after(
                    jobs@,
                    i,
                    path_text(old(clips)@[i].proxy_path),
                )
            },
{
    let ghost all = jobs@;
    let ghost before = clips@;
    let mut kept: Vec<ProxyJobHandle> = Vec::new();
    for job in it: jobs
        invariant
            it.seq() == all,
            kept@ == open_proxies(all.take(it.index() as int)),
            clips@.len() == before.len(),
            forall|i: int|
                0 <= i < before.len() ==> {
                    &&& #[trigger] clips@[i] == (ImportedClip {
                        proxy_path: clips@[i].proxy_path,
                        ..before[i]
                    })
                    &&& path_text(clips@[i].proxy_path) == proxy_after(
                        all.take(it.index() as int),
                        i,
                        path_text(before[i].proxy_path),
                    )
                },
    {
        let ghost n = it.index() as int;
        proof {
            assert(job == all[n]);
            assert(all.take(n + 1).drop_last() =~= all.take(n));
        }
        let ProxyJobHandle { clip_index, status } = job;
        match status {
            ProxyStatus::Done(path) => {
                if clip_index < clips.len() {
                    clips[clip_index].proxy_path = Some(path);
                }
            },
            ProxyStatus::Running => {
                kept.push(ProxyJobHandle { clip_index, status: ProxyStatus::Running });
            },
            ProxyStatus::Failed(message) => {
                kept.push(ProxyJobHandle { clip_index, status: ProxyStatus::Failed(message) });
            },
        }
    }
    assert(all.take(all.len() as int) =~= all);
    kept
}

/// A proxy of this clip is being written.
pub open spec fn proxy_running(jobs: Seq<ProxyJobHandle>, clip: usize) -> bool {
    exists|i: int|
        0 <= i < jobs.len() && (#[trigger] jobs[i]).clip_index == clip && jobs[i].status is Running
}

/// Whether a proxy of this clip is being written.
pub fn is_proxy_running(jobs: &Vec<ProxyJobHandle>, clip: usize) -> (r: bool)
    ensures
        r == proxy_running(jobs@, clip),
{
    let mut i: usize = 0;
    while i < jobs.len()
        invariant
            i <= jobs@.len(),
            forall|k: int|
                0 <= k < i ==> !((#[trigger] jobs@[k]).clip_index == clip
                    && jobs@[k].status is Running),
        decreases jobs@.len() - i,
    {
        if jobs[i].clip_index == clip {
            match &jobs[i].status {
                ProxyStatus::Running => {
                    return true;
                },
                _ => {},
            }
        }
        i = i + 1;
    }
    false
}

/// The proxy jobs of other clips, in order.
pub open spec fn proxies_of_others(jobs: Seq<ProxyJobHandle>, clip: usize) -> Seq<ProxyJobHandle>
    decreases jobs.len(),
{
    if jobs.len() == 0 {
        Seq::empty()
    } else if jobs.last().clip_index == clip {
        proxies_of_others(jobs.drop_last(), clip)
    } else {
        proxies_of_others(jobs.drop_last(), clip).push(jobs.last())
    }
}

/// Starts the list entry of a new proxy job; older jobs of the same clip leave.
pub fn start_proxy_job(jobs: Vec<ProxyJobHandle>, clip: usize) -> (r: Vec<ProxyJobHandle>)
    ensures
        r@ == proxies_of_others(jobs@, clip).push(
            ProxyJobHandle { clip_index: clip, status: ProxyStatus::Running },
        ),
{
    let ghost all = jobs@;
    let mut kept: Vec<ProxyJobHandle> = Vec::new();
    for job in it: jobs
        invariant
            it.seq() == all,
            kept@ == proxies_of_others(all.take(it.index() as int), clip),
    {
        proof {
            let n = it.index() as int;
            assert(job == all[n]);
            assert(all.take(n + 1).drop_last() =~= all.take(n));
        }
        if job.clip_index != clip {
            kept.push(job);
        }
    }
    assert(all.take(all.len() as int) =~= all);
    kept.push(ProxyJobHandle { clip_index: clip, status: ProxyStatus::Running });
    kept
}

/// The part of a clip that a GIF shows: from its in point, or its start, to its
/// out point, or its end.
pub fn gif_range(
    in_point: Option<Duration>,
    out_point: Option<Duration>,
    clip_duration: Duration,
) -> (r: (Duration, Duration))
    ensures
        r.0.nanos == (match in_point {
            Some(d) => d.nanos,
            None => 0,
        }),
        r.1.nanos == ({
            let end = match out_point {
                Some(d) => d.nanos,
                None => clip_duration.nanos,
            };
            if end >= r.0.nanos {
                end - r.0.nanos
            } else {
                0
            }
        }),
{
    let start = match in_point {
        Some(d) => d,
        None => Duration::zero(),
    };
    let length = match out_point {
        Some(out) => out.saturating_sub(start),
        None => clip_duration.saturating_sub(start),
    };
    (start, length)
}

/// Each trim is taken off or kept by itself: kept while it runs, in the order of the list.
pub proof fn running_trims_stay(a: Seq<TrimJobHandle>, b: Seq<TrimJobHandle>, job: TrimJobHandle)
    ensures
        running_trims(a + b) == running_trims(a) + running_trims(b),
        running_trims(Seq::empty()).len() == 0,
        running_trims(seq![job]) == (if job.status is Running {
            seq![job]
        } else {
            Seq::empty()
        }),
    decreases b.len(),
{
    reveal_with_fuel(running_trims, 2);
    assert(seq![job].drop_last() =~= Seq::empty());
    assert(job.status is Running ==> running_trims(seq![job]) =~= seq![job]);
    if b.len() == 0 {
        assert(a + b =~= a);
        assert(running_trims(a) + running_trims(b) =~= running_trims(a));
    } else {
        running_trims_stay(a, b.drop_last(), job);
        assert((a + b).drop_last() =~= a + b.drop_last());
        assert((a + b).last() == b.last());
        assert(running_trims(a + b) =~= running_trims(a) + running_trims(b));
    }
}

/// Each trim that is done gives the file that it wrote, in the order of the list; no other gives one.
pub proof fn done_trims_give_their_files(a: Seq<TrimJobHandle>, b: Seq<TrimJobHandle>, job: TrimJobHandle)
    ensures
        done_trims(a + b) == done_trims(a) + done_trims(b),
        done_trims(Seq::empty()).len() == 0,
        done_trims(seq![job]) == (match job.status {
            TrimStatus::Done(path) => seq![path@],
            _ => Seq::empty(),
        }),
    decreases b.len(),
{
    reveal_with_fuel(done_trims, 2);
    assert(seq![job].drop_last() =~= Seq::empty());
    assert(job.status is Done ==> done_trims(seq![job]) =~= seq![job.status->Done_0@]);
    if b.len() == 0 {
        assert(a + b =~= a);
        assert(done_trims(a) + done_trims(b) =~= done_trims(a));
    } else {
        done_trims_give_their_files(a, b.drop_last(), job);
        assert((a + b).drop_last() =~= a + b.drop_last());
        assert((a + b).last() == b.last());
        assert(done_trims(a + b) =~= done_trims(a) + done_trims(b));
    }
}

/// Each GIF is taken off or kept by itself: kept while it is made, in the order of the list.
pub proof fn running_gifs_stay(a: Seq<GifJobHandle>, b: Seq<GifJobHandle>, job: GifJobHandle)
    ensures
        running_gifs(a + b) == running_gifs(a) + running_gifs(b),
        running_gifs(Seq::empty()).len() == 0,
        running_gifs(seq![job]) == (if job.status is Running {
            seq![job]
        } else {
            Seq::empty()
        }),
    decreases b.len(),
{
    reveal_with_fuel(running_gifs, 2);
    assert(seq![job].drop_last() =~= Seq::empty());
    assert(job.status is Running ==> running_gifs(seq![job]) =~= seq![job]);
    if b.len() == 0 {
        assert(a + b =~= a);
        assert(running_gifs(a) + running_gifs(b) =~= running_gifs(a));
    } else {
        running_gifs_stay(a, b.drop_last(), job);
        assert((a + b).drop_last() =~= a + b.drop_last());
        assert((a + b).last() == b.last());
        assert(running_gifs(a + b) =~= running_gifs(a) + running_gifs(b));
    }
}

/// Each GIF that is done gives the file that it wrote, in the order of the list; no other gives one.
pub proof fn done_gifs_give_their_files(a: Seq<GifJobHandle>, b: Seq<GifJobHandle>, job: GifJobHandle)
    ensures
        done_gifs(a + b) == done_gifs(a) + done_gifs(b),
        done_gifs(Seq::empty()).len() == 0,
        done_gifs(seq![job]) == (match job.status {
            GifStatus::Done(path) => seq![path@],
            _ => Seq::empty(),
        }),
    decreases b.len(),
{
    reveal_with_fuel(done_gifs, 2);
    assert(seq![job].drop_last() =~= Seq::empty());
    assert(job.status is Done ==> done_gifs(seq![job]) =~= seq![job.status->Done_0@]);
    if b.len() == 0 {
        assert(a + b =~= a);
        assert(done_gifs(a) + done_gifs(b) =~= done_gifs(a));
    } else {
        done_gifs_give_their_files(a, b.drop_last(), job);
        assert((a + b).drop_last() =~= a + b.drop_last());
        assert((a + b).last() == b.last());
        assert(done_gifs(a + b) =~= done_gifs(a) + done_gifs(b));
    }
}

/// Each proxy is taken off or kept by itself: kept, in the order of the list, until it is done.
pub proof fn open_proxies_stay(a: Seq<ProxyJobHandle>, b: Seq<ProxyJobHandle>, job: ProxyJobHandle)
    ensures
        open_proxies(a + b) == open_proxies(a) + open_proxies(b),
        open_proxies(Seq::empty()).len() == 0,
        open_proxies(seq![job]) == (if job.status is Done {
            Seq::empty()
        } else {
            seq![job]
        }),
    decreases b.len(),
{
    reveal_with_fuel(open_proxies, 2);
    assert(seq![job].drop_last() =~= Seq::empty());
    assert(!(job.status is Done) ==> open_proxies(seq![job]) =~= seq![job]);
    if b.len() == 0 {
        assert(a + b =~= a);
        assert(open_proxies(a) + open_proxies(b) =~= open_proxies(a));
    } else {
        open_proxies_stay(a, b.drop_last(), job);
        assert((a + b).drop_last() =~= a + b.drop_last());
        assert((a + b).last() == b.last());
        assert(open_proxies(a + b) =~= open_proxies(a) + open_proxies(b));
    }
}

/// A finished proxy goes to its own clip, in place of an older one, and to no other; a job
/// that is not done changes nothing.
pub proof fn proxy_goes_to_its_clip(
    jobs: Seq<ProxyJobHandle>,
    job: ProxyJobHandle,
    index: int,
    before: Option<Seq<char>>,
)
    ensures
        proxy_after(Seq::empty(), index, before) == before,
        job.status is Done && job.clip_index == index ==> proxy_after(
            jobs.push(job),
            index,
            before,
        ) == Some(job.status->Done_0@),
        !(job.status is Done) || job.clip_index != index ==> proxy_after(
            jobs.push(job),
            index,
            before,
        ) == proxy_after(jobs, index, before),
{
    assert(jobs.push(job).drop_last() =~= jobs);
}

/// Texts and paths are told by their characters, each in its place.
pub proof fn texts_are_told_in_order(v: Seq<String>, i: int, p: String)
    requires
        0 <= i < v.len(),
    ensures
        texts(v).len() == v.len(),
        texts(v)[i] == v[i]@,
        path_text(Some(p)) == Some(p@),
        path_text(None) is None,
{
}

/// Starting a proxy makes it the only job of its clip; the jobs of other clips stay, in
/// their order.
pub proof fn started_proxy_replaces_older_ones(
    jobs: Seq<ProxyJobHandle>,
    job: ProxyJobHandle,
    clip: usize,
    other: usize,
)
    ensures
        proxies_of_others(Seq::empty(), clip).len() == 0,
        proxies_of_others(jobs.push(job), clip) == (if job.clip_index == clip {
            proxies_of_others(jobs, clip)
        } else {
            proxies_of_others(jobs, clip).push(job)
        }),
        !proxy_running(proxies_of_others(jobs, clip), clip),
        other != clip ==> proxy_running(proxies_of_others(jobs, clip), other) == proxy_running(
            jobs,
            other,
        ),
    decreases jobs.len(),
{
    assert(jobs.push(job).drop_last() =~= jobs);
    if jobs.len() > 0 {
        let front = jobs.drop_last();
        let j = jobs.last();
        started_proxy_replaces_older_ones(front, j, clip, other);
        assert(front.push(j) =~= jobs);
        proxy_runs_by_its_job(front, j, other);
        proxy_runs_by_its_job(proxies_of_others(front, clip), j, clip);
        proxy_runs_by_its_job(proxies_of_others(front, clip), j, other);
    }
}

/// A proxy of a clip is being written as soon as one of its jobs runs.
pub proof fn proxy_runs_by_its_job(jobs: Seq<ProxyJobHandle>, job: ProxyJobHandle, clip: usize)
    ensures
        !proxy_running(Seq::empty(), clip),
        proxy_running(jobs.push(job), clip) == (proxy_running(jobs, clip) || (job.clip_index
            == clip && job.status is Running)),
{
    let more = jobs.push(job);
    assert(more[jobs.len() as int] == job);
    assert(forall|i: int| 0 <= i < jobs.len() ==> #[trigger] jobs[i] == more[i]);
    assert(forall|i: int| 0 <= i < jobs.len() ==> #[trigger] more[i] == jobs[i]);
}

} // verus!
