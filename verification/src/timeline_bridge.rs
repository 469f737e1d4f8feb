//! The timeline in the render engine's form.
//!
//! Every clip that is made for the engine keeps the text of the clip of the timeline
//! that it was made from, and tracks keep their mute and solo, so that the engine's
//! timeline holds all that the editor's does.

use crate::effects::{audio_chain, keeps32, keeps_unit32, step_if, Clip, FramePixels};
use crate::filter_step::Step;
use crate::export_clip::{can_render, clip_to_avio, rendered};
use crate::imported::ImportedClip;
use crate::metadata::{note, put_note, value_at};
use crate::snapshot::{
    export_of, timeline_clip_to_export_clip, timeline_settings_reach_the_render,
};
use crate::state::TrackKind;
use crate::timeline::{Lane, TimelineState};
use crate::timeline_clip::TimelineClip;
use vstd::prelude::*;
use vstd::string::*;

verus! {

/// Where a rendered clip keeps the clip of the timeline that it was made from.
pub const DEMO_CLIP_KEY: &'static str = "avio_editor_demo_clip";

/// Keeps the text of a clip of the timeline on the clip rendered from it.
pub fn store_demo_clip(clip: &mut Clip, text: String)
    ensures
        value_at(final(clip).metadata@, DEMO_CLIP_KEY@) == Some(text@),
        forall|key: Seq<char>|
            key != DEMO_CLIP_KEY@ ==> #[trigger] value_at(final(clip).metadata@, key) == value_at(
                old(clip).metadata@,
                key,
            ),
        *final(clip) == (Clip { metadata: final(clip).metadata, ..*old(clip) }),
{
    put_note(&mut clip.metadata, DEMO_CLIP_KEY, text);
}

/// The text of the clip of the timeline that a rendered clip was made from; none where
/// nothing is kept, or an empty text.
pub fn demo_clip_text(clip: &Clip) -> (t: Option<String>)
    ensures
        match value_at(clip.metadata@, DEMO_CLIP_KEY@) {
            Some(text) => if text.len() > 0 {
                t is Some && t->0@ == text
            } else {
                t is None
            },
            None => t is None,
        },
{
    match note(&clip.metadata, DEMO_CLIP_KEY) {
        Some(text) => if text.as_str().unicode_len() > 0 {
            Some(text)
        } else {
            None
        },
        None => None,
    }
}

/// The clip of the timeline that a rendered clip stands for: what was kept of it, at
/// the place and with the trim that the rendered clip has.
pub fn load_demo_clip(clip: &Clip, kept: TimelineClip) -> (c: TimelineClip)
    ensures
        c == (TimelineClip {
            start_on_track: clip.offset,
            in_point: clip.in_point,
            out_point: clip.out_point,
            ..kept
        }),
{
    let mut c = kept;
    c.start_on_track = clip.offset;
    c.in_point = clip.in_point;
    c.out_point = clip.out_point;
    c
}

/// A track for the engine. Muted tracks keep their clips; the engine leaves them out.
#[derive(Debug)]
pub struct EngineTrack {
    pub kind: TrackKind,
    pub muted: bool,
    pub soloed: bool,
    pub clips: Vec<Clip>,
}

/// The places of the first `n` clips whose source is there.
pub open spec fn resolved(clips: Seq<TimelineClip>, pool: Seq<ImportedClip>, n: int) -> Seq<int>
    decreases n,
{
    if n <= 0 {
        Seq::empty()
    } else if clips[n - 1].source_index < pool.len() {
        resolved(clips, pool, n - 1).push(n - 1)
    } else {
        resolved(clips, pool, n - 1)
    }
}

/// Whether `r` is the engine's clip for a clip of the timeline: as it is exported, with
/// the text of that clip kept on it.
pub open spec fn engine_clip(
    c: TimelineClip,
    pool: Seq<ImportedClip>,
    canvas: Option<(u32, u32)>,
    use_proxy: bool,
    px: FramePixels,
    text: Seq<char>,
    r: Clip,
) -> bool {
    &&& value_at(r.metadata@, DEMO_CLIP_KEY@) == Some(text)
    &&& exists|b: Clip|
        #![trigger rendered(
            b,
            export_of(c, pool[c.source_index as int], use_proxy),
            canvas,
            px,
        )]
        rendered(b, export_of(c, pool[c.source_index as int], use_proxy), canvas, px) && r == (
        Clip { metadata: r.metadata, ..b })
}

/// Whether the clips are the engine's clips of the first `n` of a track, in order.
pub open spec fn engine_clips(
    clips: Seq<TimelineClip>,
    pool: Seq<ImportedClip>,
    canvas: Option<(u32, u32)>,
    use_proxy: bool,
    px: Seq<FramePixels>,
    texts: Seq<String>,
    out: Seq<Clip>,
    n: int,
) -> bool {
    let there = resolved(clips, pool, n);
    out.len() == there.len() && forall|k: int|
        0 <= k < out.len() ==> engine_clip(
            clips[there[k]],
            pool,
            canvas,
            use_proxy,
            px[there[k]],
            texts[there[k]]@,
            #[trigger] out[k],
        )
}

/// The engine's clips of a track. `px` holds the pixels that each clip's percentages
/// come to, `texts` the text that is kept of each.
pub fn track_to_engine(
    clips: &Vec<TimelineClip>,
    pool: &Vec<ImportedClip>,
    canvas: Option<(u32, u32)>,
    use_proxy: bool,
    px: &Vec<FramePixels>,
    texts: &Vec<String>,
) -> (out: Vec<Clip>)
    requires
        px@.len() == clips@.len(),
        texts@.len() == clips@.len(),
        forall|i: int|
            0 <= i < clips@.len() && clips@[i].source_index < pool@.len() ==> can_render(
                export_of(
                    #[trigger] clips@[i],
                    pool@[clips@[i].source_index as int],
                    use_proxy,
                ),
                canvas,
                px@[i],
            ),
    ensures
        engine_clips(
            clips@,
            pool@,
            canvas,
            use_proxy,
            px@,
            texts@,
            out@,
            clips@.len() as int,
        ),
{
    let mut out: Vec<Clip> = Vec::new();
    let mut i: usize = 0;
    while i < clips.len()
        invariant
            i <= clips@.len(),
            px@.len() == clips@.len(),
            texts@.len() == clips@.len(),
            forall|i: int|
                0 <= i < clips@.len() && clips@[i].source_index < pool@.len() ==> can_render(
                    export_of(
                        #[trigger] clips@[i],
                        pool@[clips@[i].source_index as int],
                        use_proxy,
                    ),
                    canvas,
                    px@[i],
                ),
            engine_clips(clips@, pool@, canvas, use_proxy, px@, texts@, out@, i as int),
        decreases clips@.len() - i,
    {
        let ghost had = out@;
        if let Some(e) = timeline_clip_to_export_clip(&clips[i], pool, use_proxy) {
            let mut c = clip_to_avio(&e, canvas, &px[i]);
            let ghost base = c;
            store_demo_clip(&mut c, texts[i].clone());
            proof {
                assert(rendered(
                    base,
                    export_of(
                        clips@[i as int],
                        pool@[clips@[i as int].source_index as int],
                        use_proxy,
                    ),
                    canvas,
                    px@[i as int],
                ));
            }
            out.push(c);
            proof {
                let there = resolved(clips@, pool@, i as int);
                let more = resolved(clips@, pool@, i + 1);
                assert forall|k: int| 0 <= k < out@.len() implies engine_clip(
                    clips@[more[k]],
                    pool@,
                    canvas,
                    use_proxy,
                    px@[more[k]],
                    texts@[more[k]]@,
                    #[trigger] out@[k],
                ) by {
                    if k < had.len() {
                        assert(out@[k] == had[k]);
                        assert(more[k] == there[k]);
                    }
                }
            }
        }
        i = i + 1;
    }
    out
}

/// The tables of pixels and texts are there for every clip, and every clip can be
/// rendered.
pub open spec fn can_bridge(
    tracks: Seq<Lane>,
    pool: Seq<ImportedClip>,
    canvas: Option<(u32, u32)>,
    use_proxy: bool,
    px: Seq<Vec<FramePixels>>,
    texts: Seq<Vec<String>>,
) -> bool {
    &&& px.len() == tracks.len()
    &&& texts.len() == tracks.len()
    &&& forall|t: int|
        0 <= t < tracks.len() ==> (#[trigger] px[t])@.len() == tracks[t].clips.len()
    &&& forall|t: int|
        0 <= t < tracks.len() ==> (#[trigger] texts[t])@.len() == tracks[t].clips.len()
    &&& forall|t: int, i: int|
        0 <= t < tracks.len() && 0 <= i < tracks[t].clips.len() && tracks[t].clips[i].source_index
            < pool.len() ==> can_render(
            export_of(
                #[trigger] tracks[t].clips[i],
                pool[tracks[t].clips[i].source_index as int],
                use_proxy,
            ),
            canvas,
            px[t]@[i],
        )
}

/// The timeline for the engine: every track with its kind, its mute and solo, and the
/// clips whose source is there.
pub fn to_avio(
    timeline: &TimelineState,
    pool: &Vec<ImportedClip>,
    canvas: Option<(u32, u32)>,
    use_proxy: bool,
    px: &Vec<Vec<FramePixels>>,
    texts: &Vec<Vec<String>>,
) -> (out: Vec<EngineTrack>)
    requires
        can_bridge(timeline.lanes(), pool@, canvas, use_proxy, px@, texts@),
    ensures
        out@.len() == timeline.lanes().len(),
        forall|t: int|
            0 <= t < out@.len() ==> {
                let lane = timeline.lanes()[t];
                &&& (#[trigger] out@[t]).kind == lane.kind
                &&& out@[t].muted == lane.muted
                &&& out@[t].soloed == lane.soloed
                &&& engine_clips(
                    lane.clips,
                    pool@,
                    canvas,
                    use_proxy,
                    px@[t]@,
                    texts@[t]@,
                    out@[t].clips@,
                    lane.clips.len() as int,
                )
            },
{
    let mut out: Vec<EngineTrack> = Vec::new();
    let mut t: usize = 0;
    while t < timeline.tracks.len()
        invariant
            t <= timeline.tracks@.len(),
            can_bridge(timeline.lanes(), pool@, canvas, use_proxy, px@, texts@),
            out@.len() == t,
            forall|k: int|
                0 <= k < t ==> {
                    let lane = timeline.lanes()[k];
                    &&& (#[trigger] out@[k]).kind == lane.kind
                    &&& out@[k].muted == lane.muted
                    &&& out@[k].soloed == lane.soloed
                    &&& engine_clips(
                        lane.clips,
                        pool@,
                        canvas,
                        use_proxy,
                        px@[k]@,
                        texts@[k]@,
                        out@[k].clips@,
                        lane.clips.len() as int,
                    )
                },
        decreases timeline.tracks@.len() - t,
    {
        let track = &timeline.tracks[t];
        proof {
            let lane = timeline.lanes()[t as int];
            assert(lane.clips == track.clips@);
            assert(px@[t as int]@.len() == lane.clips.len());
            assert(texts@[t as int]@.len() == lane.clips.len());
            assert forall|i: int|
                0 <= i < track.clips@.len() && track.clips@[i].source_index
                    < pool@.len() implies can_render(
                export_of(
                    #[trigger] track.clips@[i],
                    pool@[track.clips@[i].source_index as int],
                    use_proxy,
                ),
                canvas,
                px@[t as int]@[i],
            ) by {
                assert(timeline.lanes()[t as int].clips[i] == track.clips@[i]);
            }
        }
        let clips = track_to_engine(&track.clips, pool, canvas, use_proxy, &px[t], &texts[t]);
        out.push(
            EngineTrack { kind: track.kind, muted: track.muted, soloed: track.soloed, clips },
        );
        t = t + 1;
    }
    out
}

/// The engine gets exactly the clips whose source is there, in the order of the track.
pub proof fn clips_with_a_source_are_bridged(
    clips: Seq<TimelineClip>,
    pool: Seq<ImportedClip>,
    n: int,
)
    requires
        0 <= n <= clips.len(),
    ensures
        ({
            let there = resolved(clips, pool, n);
            &&& forall|k: int|
                0 <= k < there.len() ==> 0 <= #[trigger] there[k] < n && clips[there[k]].source_index
                    < pool.len()
            &&& forall|j: int, k: int| 0 <= j < k < there.len() ==> there[j] < there[k]
            &&& forall|i: int|
                0 <= i < n && (#[trigger] clips[i]).source_index < pool.len() ==> there.contains(i)
        }),
    decreases n,
{
    if n > 0 {
        clips_with_a_source_are_bridged(clips, pool, n - 1);
        let before = resolved(clips, pool, n - 1);
        let there = resolved(clips, pool, n);
        assert forall|i: int|
            0 <= i < n && (#[trigger] clips[i]).source_index < pool.len() implies there.contains(
            i,
        ) by {
            if i < n - 1 {
                assert(before.contains(i));
                let k = before.index_of(i);
                assert(there[k] == i);
            } else {
                assert(there[there.len() - 1] == i);
            }
        }
    }
}

/// The engine's clip keeps the text of the clip that it was made from, plays that clip's
/// source where and as that clip does, and leads back to the clip's place.
pub proof fn engine_clip_stands_for_its_clip(
    c: TimelineClip,
    pool: Seq<ImportedClip>,
    canvas: Option<(u32, u32)>,
    use_proxy: bool,
    px: FramePixels,
    text: Seq<char>,
    r: Clip,
)
    requires
        c.source_index < pool.len(),
        can_render(export_of(c, pool[c.source_index as int], use_proxy), canvas, px),
        engine_clip(c, pool, canvas, use_proxy, px, text, r),
    ensures
        value_at(r.metadata@, "avio_editor_demo_clip"@) == Some(text),
        r.source@ == pool[c.source_index as int].path@,
        r.offset == c.start_on_track,
        c.in_point is Some && c.out_point is Some ==> r.in_point == c.in_point && r.out_point
            == c.out_point,
        r.fade_in == c.fade_in && r.fade_out == c.fade_out,
        r.transition == c.transition,
        r.blend_mode == c.blend_mode,
        keeps32(r.speed, c.speed),
        keeps_unit32(r.opacity, c.opacity),
        audio_chain(r) == step_if(c.reverse, Step::AReverse),
{
    let e = export_of(c, pool[c.source_index as int], use_proxy);
    let b = choose|b: Clip|
        #![trigger rendered(b, e, canvas, px)]
        rendered(b, e, canvas, px) && r == (Clip { metadata: r.metadata, ..b });
    timeline_settings_reach_the_render(
        b,
        c,
        pool[c.source_index as int],
        use_proxy,
        canvas,
        px,
    );
}

/// The engine's clips of a track are those of its clips with a source, one for one and in
/// their order, each with its own pixels and its own text.
pub proof fn engine_clips_come_one_for_one(
    clips: Seq<TimelineClip>,
    pool: Seq<ImportedClip>,
    canvas: Option<(u32, u32)>,
    use_proxy: bool,
    px: Seq<FramePixels>,
    texts: Seq<String>,
    out: Seq<Clip>,
    k: int,
)
    requires
        engine_clips(clips, pool, canvas, use_proxy, px, texts, out, clips.len() as int),
    ensures
        out.len() == resolved(clips, pool, clips.len() as int).len(),
        0 <= k < out.len() ==> {
            let at = resolved(clips, pool, clips.len() as int)[k];
            engine_clip(clips[at], pool, canvas, use_proxy, px[at], texts[at]@, out[k])
        },
{
}

} // verus!
