//! Titles burned into an export as one filter graph.

use crate::state::{HAlign, TitleClip, VAlign};
use crate::text::{
    decimal, decimal_text, hex, hex_text, replace, replaced, replaced_by_character,
    text_joined,
};
use vstd::prelude::*;
use vstd::string::*;

verus! {

/// When a title is shown: start and end in seconds, as text with three decimals.
#[derive(Debug)]
pub struct TitleTimes {
    pub start: String,
    pub end: String,
}

/// The horizontal place of a title in a frame of width `w`.
pub open spec fn title_x(a: HAlign) -> Seq<char> {
    match a {
        HAlign::Left => "10"@,
        HAlign::Centre => "(w-text_w)/2"@,
        HAlign::Right => "w-text_w-10"@,
    }
}

/// The vertical place of a title in a frame of height `h`.
pub open spec fn title_y(a: VAlign) -> Seq<char> {
    match a {
        VAlign::Top => "10"@,
        VAlign::Middle => "(h-text_h)/2"@,
        VAlign::Bottom => "h-text_h-10"@,
    }
}

/// A text inside single quotes of a filter graph: backslashes are doubled, and a
/// quote closes the quotes, stands escaped and opens them again.
pub open spec fn quoted(text: Seq<char>) -> Seq<char> {
    replaced(replaced(text, '\\', "\\\\"@), '\'', "'\\''"@)
}

/// The part of the graph that draws one title.
pub open spec fn draw_title(t: TitleClip, start: Seq<char>, end: Seq<char>) -> Seq<char> {
    ",drawtext=text='"@ + quoted(t.text@) + "':fontsize="@ + decimal(t.font_size as nat)
        + ":fontcolor=#"@ + hex(t.color@[0]) + hex(t.color@[1]) + hex(t.color@[2]) + ":x="@
        + title_x(t.h_align) + ":y="@ + title_y(t.v_align) + ":enable='between(t,"@ + start + ","@
        + end + ")'"@
}

/// The parts of all titles that have a text, in their order.
pub open spec fn draw_titles(titles: Seq<TitleClip>, times: Seq<TitleTimes>) -> Seq<char>
    decreases titles.len(),
{
    if titles.len() == 0 {
        Seq::empty()
    } else {
        let rest = draw_titles(titles.drop_last(), times.drop_last());
        if titles.last().text@.len() > 0 {
            rest + draw_title(titles.last(), times.last().start@, times.last().end@)
        } else {
            rest
        }
    }
}

/// Some title has a text.
pub open spec fn any_text(titles: Seq<TitleClip>) -> bool {
    exists|i: int| 0 <= i < titles.len() && (#[trigger] titles[i]).text@.len() > 0
}

/// The transparent canvas that titles are drawn on.
pub open spec fn title_canvas(w: u32, h: u32, duration: Seq<char>) -> Seq<char> {
    "color=s="@ + decimal(w as nat) + "x"@ + decimal(h as nat) + ":c=black@0.0:d="@ + duration
}

fn append_title(chain: String, t: &TitleClip, times: &TitleTimes) -> (s: String)
    ensures
        s@ == chain@ + draw_title(*t, times.start@, times.end@),
{
    let text = replace(replace(t.text.as_str(), '\\', "\\\\").as_str(), '\'', "'\\''");
    let x = match t.h_align {
        HAlign::Left => "10",
        HAlign::Centre => "(w-text_w)/2",
        HAlign::Right => "w-text_w-10",
    };
    let y = match t.v_align {
        VAlign::Top => "10",
        VAlign::Middle => "(h-text_h)/2",
        VAlign::Bottom => "h-text_h-10",
    };
    let mut part = ",drawtext=text='".to_owned();
    part.append(text.as_str());
    part.append("':fontsize=");
    part.append(decimal_text(t.font_size as u64).as_str());
    part.append(":fontcolor=#");
    part.append(hex_text(t.color[0]).as_str());
    part.append(hex_text(t.color[1]).as_str());
    part.append(hex_text(t.color[2]).as_str());
    part.append(":x=");
    part.append(x);
    part.append(":y=");
    part.append(y);
    part.append(":enable='between(t,");
    part.append(times.start.as_str());
    part.append(",");
    part.append(times.end.as_str());
    part.append(")'");
    assert(part@ == draw_title(*t, times.start@, times.end@));
    chain.concat(part.as_str())
}

/// Builds the filter graph of the titles for a frame of `w` by `h` pixels that
/// lasts `duration`, in seconds as text with three decimals. Without a title that
/// has a text there is no graph.
pub fn build_lavfi_overlay_filter(
    title_clips: &Vec<TitleClip>,
    times: &Vec<TitleTimes>,
    w: u32,
    h: u32,
    duration: &str,
) -> (s: Option<String>)
    requires
        times@.len() == title_clips@.len(),
    ensures
        match s {
            Some(graph) => any_text(title_clips@) && graph@ == title_canvas(w, h, duration@)
                + draw_titles(title_clips@, times@),
            None => !any_text(title_clips@),
        },
{
    let mut chain = "color=s=".to_owned();
    chain.append(decimal_text(w as u64).as_str());
    chain.append("x");
    chain.append(decimal_text(h as u64).as_str());
    chain.append(":c=black@0.0:d=");
    chain.append(duration);
    let ghost head = chain@;
    let mut any = false;
    let mut i: usize = 0;
    proof {
        assert(head == title_canvas(w, h, duration@));
        assert(head =~= head + draw_titles(title_clips@.take(0), times@.take(0)));
    }
    while i < title_clips.len()
        invariant
            i <= title_clips@.len(),
            times@.len() == title_clips@.len(),
            head == title_canvas(w, h, duration@),
            chain@ == head + draw_titles(
                title_clips@.take(i as int),
                times@.take(i as int),
            ),
            any == any_text(title_clips@.take(i as int)),
        decreases title_clips@.len() - i,
    {
        proof {
            let n = i as int;
            assert(title_clips@.take(n + 1).drop_last() =~= title_clips@.take(n));
            assert(times@.take(n + 1).drop_last() =~= times@.take(n));
            assert(title_clips@.take(n + 1).last() == title_clips@[n]);
            assert(times@.take(n + 1).last() == times@[n]);
            if any_text(title_clips@.take(n)) {
                let k = choose|k: int|
                    0 <= k < n && (#[trigger] title_clips@.take(n)[k]).text@.len() > 0;
                assert(title_clips@.take(n + 1)[k].text@.len() > 0);
            }
            if any_text(title_clips@.take(n + 1)) {
                let k = choose|k: int|
                    0 <= k < n + 1 && (#[trigger] title_clips@.take(n + 1)[k]).text@.len() > 0;
                if k < n {
                    assert(title_clips@.take(n)[k].text@.len() > 0);
                }
            }
        }
        if title_clips[i].text.as_str().unicode_len() > 0 {
            let ghost before = chain@;
            chain = append_title(chain, &title_clips[i], &times[i]);
            any = true;
            proof {
                let n = i as int;
                let part = draw_title(title_clips@[n], times@[n].start@, times@[n].end@);
                let rest = draw_titles(title_clips@.take(n), times@.take(n));
                assert(head + rest + part =~= head + (rest + part));
                assert(title_clips@.take(n + 1)[n].text@.len() > 0);
            }
        }
        i = i + 1;
    }
    proof {
        assert(title_clips@.take(i as int) =~= title_clips@);
        assert(times@.take(i as int) =~= times@);
    }
    if any {
        Some(chain)
    } else {
        None
    }
}

// ── What a graph shows ────────────────────────────────────────────────────────

/// A title stands where it is aligned: ten pixels from the left or the right edge or in
/// the middle, ten pixels from the top or the bottom or in the middle. It shows its own
/// text, size and colour, from its start to its end.
pub proof fn title_stands_where_aligned(t: TitleClip, start: Seq<char>, end: Seq<char>)
    ensures
        ({
            let look = ",drawtext=text='"@ + quoted(t.text@) + "':fontsize="@ + decimal(
                t.font_size as nat,
            ) + ":fontcolor=#"@ + hex(t.color@[0]) + hex(t.color@[1]) + hex(t.color@[2]);
            let across = match t.h_align {
                HAlign::Left => ":x=10"@,
                HAlign::Centre => ":x=(w-text_w)/2"@,
                HAlign::Right => ":x=w-text_w-10"@,
            };
            let down = match t.v_align {
                VAlign::Top => ":y=10"@,
                VAlign::Middle => ":y=(h-text_h)/2"@,
                VAlign::Bottom => ":y=h-text_h-10"@,
            };
            draw_title(t, start, end) == look + across + down + ":enable='between(t,"@ + start + ","@
                + end + ")'"@
        }),
{
    reveal_strlit(":x=");
    reveal_strlit(":y=");
    reveal_strlit("10");
    reveal_strlit("(w-text_w)/2");
    reveal_strlit("w-text_w-10");
    reveal_strlit("(h-text_h)/2");
    reveal_strlit("h-text_h-10");
    reveal_strlit(":x=10");
    reveal_strlit(":x=(w-text_w)/2");
    reveal_strlit(":x=w-text_w-10");
    reveal_strlit(":y=10");
    reveal_strlit(":y=(h-text_h)/2");
    reveal_strlit(":y=h-text_h-10");
    let look = ",drawtext=text='"@ + quoted(t.text@) + "':fontsize="@ + decimal(
        t.font_size as nat,
    ) + ":fontcolor=#"@ + hex(t.color@[0]) + hex(t.color@[1]) + hex(t.color@[2]);
    let x = title_x(t.h_align);
    let y = title_y(t.v_align);
    assert(":x="@ + x =~= match t.h_align {
        HAlign::Left => ":x=10"@,
        HAlign::Centre => ":x=(w-text_w)/2"@,
        HAlign::Right => ":x=w-text_w-10"@,
    });
    assert(":y="@ + y =~= match t.v_align {
        VAlign::Top => ":y=10"@,
        VAlign::Middle => ":y=(h-text_h)/2"@,
        VAlign::Bottom => ":y=h-text_h-10"@,
    });
    assert(look + ":x="@ + x =~= look + (":x="@ + x));
    let placed = look + (":x="@ + x);
    assert(placed + ":y="@ + y =~= placed + (":y="@ + y));
}

/// Alignment mirrors: the place of a title at the right edge is the frame less the title
/// less the place of one at the left edge, and so from the bottom to the top. The
/// horizontal place speaks of widths only, the vertical one of heights only.
pub proof fn alignment_mirrors()
    ensures
        title_x(HAlign::Right) == "w-text_w-"@ + title_x(HAlign::Left),
        title_y(VAlign::Bottom) == "h-text_h-"@ + title_y(VAlign::Top),
        !title_x(HAlign::Left).contains('w'),
        !title_y(VAlign::Top).contains('h'),
        title_x(HAlign::Right).contains('w'),
        title_x(HAlign::Centre).contains('w'),
        title_y(VAlign::Bottom).contains('h'),
        title_y(VAlign::Middle).contains('h'),
{
    reveal_strlit("10");
    reveal_strlit("(w-text_w)/2");
    reveal_strlit("w-text_w-10");
    reveal_strlit("(h-text_h)/2");
    reveal_strlit("h-text_h-10");
    reveal_strlit("w-text_w-");
    reveal_strlit("h-text_h-");
    assert(title_x(HAlign::Right) =~= "w-text_w-"@ + title_x(HAlign::Left));
    assert(title_y(VAlign::Bottom) =~= "h-text_h-"@ + title_y(VAlign::Top));
    assert(title_x(HAlign::Right)[0] == 'w');
    assert(title_x(HAlign::Centre)[1] == 'w');
    assert(title_y(VAlign::Bottom)[0] == 'h');
    assert(title_y(VAlign::Middle)[1] == 'h');
}

/// Quoting works on each character by itself. A backslash is doubled, a quote closes the
/// quotes, stands escaped and opens them again, and every other character stays.
pub proof fn quoted_by_character(a: Seq<char>, b: Seq<char>, x: char)
    ensures
        quoted(a + b) == quoted(a) + quoted(b),
        quoted(seq!['\\']) == seq!['\\', '\\'],
        quoted(seq!['\'']) == seq!['\'', '\\', '\'', '\''],
        x != '\\' && x != '\'' ==> quoted(seq![x]) == seq![x],
{
    reveal_strlit("\\\\");
    reveal_strlit("'\\''");
    let back = "\\\\"@;
    let quote = "'\\''"@;
    replaced_by_character(a, b, '\\', x, back);
    replaced_by_character(
        replaced(a, '\\', back),
        replaced(b, '\\', back),
        '\'',
        x,
        quote,
    );
    replaced_by_character(seq!['\\'], seq!['\\'], '\'', '\\', quote);
    replaced_by_character(a, b, '\\', '\'', back);
    assert(back =~= seq!['\\'] + seq!['\\']);
    assert(quoted(seq!['\\']) =~= seq!['\\', '\\']);
    assert(quote =~= seq!['\'', '\\', '\'', '\'']);
}

proof fn one_title_is_drawn(t: TitleClip, times: TitleTimes)
    ensures
        draw_titles(seq![t], seq![times]) == (if t.text@.len() > 0 {
            draw_title(t, times.start@, times.end@)
        } else {
            Seq::empty()
        }),
{
    let part = draw_title(t, times.start@, times.end@);
    assert(seq![t].drop_last() =~= Seq::empty());
    assert(seq![times].drop_last() =~= Seq::empty());
    assert(draw_titles(Seq::empty(), Seq::empty()) == Seq::<char>::empty());
    assert(seq![t].last() == t && seq![times].last() == times);
    assert(Seq::<char>::empty() + part =~= part);
}

/// The titles of a graph are drawn one after the other, each by itself; one without a
/// text draws nothing.
pub proof fn titles_are_drawn_in_order(
    a: Seq<TitleClip>,
    b: Seq<TitleClip>,
    times_a: Seq<TitleTimes>,
    times_b: Seq<TitleTimes>,
    t: TitleClip,
    times: TitleTimes,
)
    requires
        times_a.len() == a.len(),
        times_b.len() == b.len(),
    ensures
        draw_titles(a + b, times_a + times_b) == draw_titles(a, times_a) + draw_titles(b, times_b),
        draw_titles(seq![t], seq![times]) == (if t.text@.len() > 0 {
            draw_title(t, times.start@, times.end@)
        } else {
            Seq::empty()
        }),
    decreases b.len(),
{
    one_title_is_drawn(t, times);
    if b.len() == 0 {
        assert(a + b =~= a);
        assert(times_a + times_b =~= times_a);
        assert(draw_titles(a, times_a) + draw_titles(b, times_b) =~= draw_titles(a, times_a));
    } else {
        titles_are_drawn_in_order(a, b.drop_last(), times_a, times_b.drop_last(), t, times);
        assert((a + b).drop_last() =~= a + b.drop_last());
        assert((times_a + times_b).drop_last() =~= times_a + times_b.drop_last());
        assert((a + b).last() == b.last());
        assert((times_a + times_b).last() == times_b.last());
        if b.last().text@.len() > 0 {
            let last = draw_title(b.last(), times_b.last().start@, times_b.last().end@);
            let front = draw_titles(b.drop_last(), times_b.drop_last());
            text_joined(draw_titles(a, times_a), front, last);
        }
    }
}

/// The canvas of a graph is transparent, as wide and as high as the frame, and lasts as
/// long as asked.
pub proof fn canvas_fits_the_frame(w: u32, h: u32, duration: Seq<char>)
    ensures
        ({
            let size = decimal(w as nat) + "x"@ + decimal(h as nat);
            title_canvas(w, h, duration) == "color=s="@ + size + ":c=black@0.0:d="@ + duration
        }),
{
    assert("color=s="@ + decimal(w as nat) + "x"@ + decimal(h as nat) =~= "color=s="@ + (decimal(
        w as nat,
    ) + "x"@ + decimal(h as nat)));
}

} // verus!
