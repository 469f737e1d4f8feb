//! Clips in the browser: files that were imported, and what is known of them.

use crate::float::{F32, F64};
use crate::text::{
    decimal, decimal_reads_back, decimal_text, number, padded, padded_reads_back, padded_text,
    same_text,
};
use crate::time::{Duration, MAX_NANOS};
use vstd::prelude::*;
use vstd::string::*;

verus! {

/// An imported media file.
#[derive(Debug)]
pub struct ImportedClip {
    pub path: String,
    pub duration: Duration,
    /// Frames per second of the picture, where they are known.
    pub frame_rate: Option<F64>,
    /// Frame size, where there is a picture.
    pub video: Option<(u32, u32)>,
    pub has_audio: bool,
    pub proxy_path: Option<String>,
    pub scenes: Vec<Duration>,
    pub silence_regions: Vec<(Duration, Duration)>,
    pub waveform: Vec<F32>,
    pub in_point: Option<Duration>,
    pub out_point: Option<Duration>,
}

impl ImportedClip {
    /// A file as it was just opened: nothing is analysed or marked yet.
    pub fn new(
        path: String,
        duration: Duration,
        frame_rate: Option<F64>,
        video: Option<(u32, u32)>,
        has_audio: bool,
    ) -> (c: Self)
        ensures
            c.path == path,
            c.duration == duration,
            c.frame_rate == frame_rate,
            c.video == video,
            c.has_audio == has_audio,
            c.proxy_path is None,
            c.scenes@.len() == 0,
            c.silence_regions@.len() == 0,
            c.waveform@.len() == 0,
            c.in_point is None,
            c.out_point is None,
    {
        ImportedClip {
            path,
            duration,
            frame_rate,
            video,
            has_audio,
            proxy_path: None,
            scenes: Vec::new(),
            silence_regions: Vec::new(),
            waveform: Vec::new(),
            in_point: None,
            out_point: None,
        }
    }

    /// The length as minutes, seconds and milliseconds: `m:ss.mmm`.
    pub fn duration_label(&self) -> (s: String)
        requires
            self.duration.nanos <= MAX_NANOS,
        ensures
            s@ == clock_label(self.duration),
    {
        let total: u64 = self.duration.as_secs();
        let mut s = decimal_text(total / 60);
        s.append(":");
        s.append(padded_text(total % 60, 2).as_str());
        s.append(".");
        s.append(padded_text(self.duration.subsec_millis() as u64, 3).as_str());
        s
    }

    /// The frame size, or zeros where there is no picture.
    pub fn frame_size(&self) -> (d: (u32, u32))
        ensures
            d == size_of_frame(*self),
    {
        match self.video {
            Some((w, h)) => (w, h),
            None => (0, 0),
        }
    }
}

/// A length as minutes, seconds and milliseconds.
pub open spec fn clock_label(d: Duration) -> Seq<char> {
    let secs = d.nanos as nat / 1_000_000_000;
    let millis = (d.nanos as nat % 1_000_000_000) / 1_000_000;
    decimal(secs / 60) + ":"@ + padded(secs % 60, 2) + "."@ + padded(millis, 3)
}

/// The frame size of a clip, or zeros where there is no picture.
pub open spec fn size_of_frame(c: ImportedClip) -> (u32, u32) {
    match c.video {
        Some((w, h)) => (w, h),
        None => (0, 0),
    }
}

/// The index of the first clip with this path, counted from `from`; the number of
/// clips where there is none.
pub open spec fn first_with_path(pool: Seq<ImportedClip>, path: Seq<char>, from: int) -> int
    decreases pool.len() - from,
{
    if 0 <= from < pool.len() && pool[from].path@ != path {
        first_with_path(pool, path, from + 1)
    } else {
        from
    }
}

/// The index of the first clip with this path.
pub fn find_by_path(pool: &Vec<ImportedClip>, path: &str) -> (i: Option<usize>)
    ensures
        match i {
            Some(k) => k < pool@.len() && k == first_with_path(pool@, path@, 0),
            None => first_with_path(pool@, path@, 0) == pool@.len(),
        },
{
    let mut i: usize = 0;
    while i < pool.len()
        invariant
            i <= pool@.len(),
            first_with_path(pool@, path@, 0) == first_with_path(pool@, path@, i as int),
        decreases pool@.len() - i,
    {
        if same_text(pool[i].path.as_str(), path) {
            return Some(i);
        }
        i = i + 1;
    }
    None
}

/// The frame size of the file at `source`; zeros where it was not imported or has
/// no picture.
pub fn source_dims(pool: &Vec<ImportedClip>, source: &str) -> (d: (u32, u32))
    ensures
        d == ({
            let i = first_with_path(pool@, source@, 0);
            if i < pool@.len() {
                size_of_frame(pool@[i])
            } else {
                (0u32, 0u32)
            }
        }),
{
    match find_by_path(pool, source) {
        Some(i) => pool[i].frame_size(),
        None => (0, 0),
    }
}

/// A length reads back from its label to the millisecond: minutes, a colon, two digits of
/// seconds, a point and three digits of milliseconds.
pub proof fn label_tells_the_length(d: Duration, at: int)
    requires
        at == clock_label(d).len() - 7,
    ensures
        ({
            let s = clock_label(d);
            let minutes = number(s.take(at));
            let seconds = number(s.subrange(at + 1, at + 3));
            let millis = number(s.subrange(at + 4, at + 7));
            &&& at > 0
            &&& s[at] == ':'
            &&& s[at + 3] == '.'
            &&& seconds < 60
            &&& millis < 1000
            &&& (minutes * 60 + seconds) * 1000 + millis == d.nanos as nat / 1_000_000
        }),
{
    reveal_strlit(":");
    reveal_strlit(".");
    let secs = d.nanos as nat / 1_000_000_000;
    let millis = (d.nanos as nat % 1_000_000_000) / 1_000_000;
    decimal_reads_back(secs / 60);
    padded_reads_back(secs % 60, 2);
    padded_reads_back(millis, 3);
    short_decimal(secs % 60);
    short_decimal(millis);
    let m = decimal(secs / 60);
    let ss = padded(secs % 60, 2);
    let ms = padded(millis, 3);
    let s = clock_label(d);
    assert(ss.len() == 2 && ms.len() == 3);
    assert(s.take(at) =~= m);
    assert(s.subrange(at + 1, at + 3) =~= ss);
    assert(s.subrange(at + 4, at + 7) =~= ms);
}

proof fn short_decimal(n: nat)
    ensures
        n < 100 ==> decimal(n).len() <= 2,
        n < 1000 ==> decimal(n).len() <= 3,
{
    reveal_with_fuel(decimal, 4);
}

/// A file is found by its path: the one that is found has that path, and none before it.
pub proof fn first_file_of_the_path(pool: Seq<ImportedClip>, path: Seq<char>)
    ensures
        ({
            let i = first_with_path(pool, path, 0);
            &&& 0 <= i <= pool.len()
            &&& i < pool.len() ==> pool[i].path@ == path
            &&& forall|k: int| 0 <= k < i ==> (#[trigger] pool[k]).path@ != path
        }),
{
    first_with_path_bounds(pool, path, 0);
}

proof fn first_with_path_bounds(pool: Seq<ImportedClip>, path: Seq<char>, from: int)
    requires
        0 <= from <= pool.len(),
    ensures
        from <= first_with_path(pool, path, from) <= pool.len(),
        first_with_path(pool, path, from) < pool.len() ==> pool[first_with_path(
            pool,
            path,
            from,
        )].path@ == path,
        forall|k: int|
            from <= k < first_with_path(pool, path, from) ==> (#[trigger] pool[k]).path@ != path,
    decreases pool.len() - from,
{
    if from < pool.len() && pool[from].path@ != path {
        first_with_path_bounds(pool, path, from + 1);
    }
}

/// A file's frame has the width and height of its picture; without one both are zero.
pub proof fn frame_has_the_pictures_size(c: ImportedClip, width: u32, height: u32)
    ensures
        c.video == Some((width, height)) ==> size_of_frame(c).0 == width && size_of_frame(c).1
            == height,
        c.video is None ==> size_of_frame(c).0 == 0 && size_of_frame(c).1 == 0,
{
}

} // verus!
