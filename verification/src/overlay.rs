//! What is drawn on top of a clip: an image and a burned-in subtitle.

use crate::float::{F32, F32_HUNDRED, F32_ONE};
use crate::text::{
    decimal, decimal_text, same_text, text_joined, upper_hex, upper_hex_text,
};
use vstd::prelude::*;
use vstd::string::*;

verus! {

/// Where an overlay image is anchored on the frame.
#[derive(Clone, Copy, PartialEq, Eq, Structural, Debug)]
pub enum OverlayPosition {
    TopLeft,
    TopCentre,
    TopRight,
    MiddleLeft,
    Centre,
    MiddleRight,
    BottomLeft,
    BottomCentre,
    BottomRight,
}

#[derive(Clone, Copy, PartialEq, Eq, Structural, Debug)]
pub enum Col {
    Left,
    Centre,
    Right,
}

#[derive(Clone, Copy, PartialEq, Eq, Structural, Debug)]
pub enum Row {
    Top,
    Middle,
    Bottom,
}

impl Default for OverlayPosition {
    fn default() -> (p: Self)
        ensures
            p == OverlayPosition::BottomRight,
    {
        OverlayPosition::BottomRight
    }
}

/// The column of an anchor.
pub open spec fn column(p: OverlayPosition) -> Col {
    match p {
        OverlayPosition::TopLeft
        | OverlayPosition::MiddleLeft
        | OverlayPosition::BottomLeft => Col::Left,
        OverlayPosition::TopCentre
        | OverlayPosition::Centre
        | OverlayPosition::BottomCentre => Col::Centre,
        _ => Col::Right,
    }
}

/// The row of an anchor.
pub open spec fn row(p: OverlayPosition) -> Row {
    match p {
        OverlayPosition::TopLeft
        | OverlayPosition::TopCentre
        | OverlayPosition::TopRight => Row::Top,
        OverlayPosition::MiddleLeft
        | OverlayPosition::Centre
        | OverlayPosition::MiddleRight => Row::Middle,
        _ => Row::Bottom,
    }
}

/// The horizontal position of an overlay of width `w` in a frame of width `W`.
pub open spec fn x_expr(p: OverlayPosition, margin: u32) -> Seq<char> {
    match column(p) {
        Col::Left => decimal(margin as nat),
        Col::Centre => "(W-w)/2"@,
        Col::Right => "W-w-"@ + decimal(margin as nat),
    }
}

/// The vertical position of an overlay of height `h` in a frame of height `H`.
pub open spec fn y_expr(p: OverlayPosition, margin: u32) -> Seq<char> {
    match row(p) {
        Row::Top => decimal(margin as nat),
        Row::Middle => "(H-h)/2"@,
        Row::Bottom => "H-h-"@ + decimal(margin as nat),
    }
}

/// No two anchors share both column and row.
pub proof fn anchors_distinct(a: OverlayPosition, b: OverlayPosition)
    ensures
        column(a) == column(b) && row(a) == row(b) ==> a == b,
{
}

impl OverlayPosition {
    /// All anchors, in menu order.
    pub const ALL: [OverlayPosition; 9] = [
        OverlayPosition::TopLeft,
        OverlayPosition::TopCentre,
        OverlayPosition::TopRight,
        OverlayPosition::MiddleLeft,
        OverlayPosition::Centre,
        OverlayPosition::MiddleRight,
        OverlayPosition::BottomLeft,
        OverlayPosition::BottomCentre,
        OverlayPosition::BottomRight,
    ];

    /// Short label for the menu.
    pub fn label(self) -> (s: &'static str)
        ensures
            s@ == match self {
                OverlayPosition::TopLeft => "Top Left"@,
                OverlayPosition::TopCentre => "Top Centre"@,
                OverlayPosition::TopRight => "Top Right"@,
                OverlayPosition::MiddleLeft => "Middle Left"@,
                OverlayPosition::Centre => "Centre"@,
                OverlayPosition::MiddleRight => "Middle Right"@,
                OverlayPosition::BottomLeft => "Bottom Left"@,
                OverlayPosition::BottomCentre => "Bottom Centre"@,
                OverlayPosition::BottomRight => "Bottom Right"@,
            },
    {
        match self {
            OverlayPosition::TopLeft => "Top Left",
            OverlayPosition::TopCentre => "Top Centre",
            OverlayPosition::TopRight => "Top Right",
            OverlayPosition::MiddleLeft => "Middle Left",
            OverlayPosition::Centre => "Centre",
            OverlayPosition::MiddleRight => "Middle Right",
            OverlayPosition::BottomLeft => "Bottom Left",
            OverlayPosition::BottomCentre => "Bottom Centre",
            OverlayPosition::BottomRight => "Bottom Right",
        }
    }

    /// Column and row of this anchor.
    pub fn col_row(self) -> (cr: (Col, Row))
        ensures
            cr == (column(self), row(self)),
    {
        match self {
            OverlayPosition::TopLeft => (Col::Left, Row::Top),
            OverlayPosition::TopCentre => (Col::Centre, Row::Top),
            OverlayPosition::TopRight => (Col::Right, Row::Top),
            OverlayPosition::MiddleLeft => (Col::Left, Row::Middle),
            OverlayPosition::Centre => (Col::Centre, Row::Middle),
            OverlayPosition::MiddleRight => (Col::Right, Row::Middle),
            OverlayPosition::BottomLeft => (Col::Left, Row::Bottom),
            OverlayPosition::BottomCentre => (Col::Centre, Row::Bottom),
            OverlayPosition::BottomRight => (Col::Right, Row::Bottom),
        }
    }

    /// The `x` and `y` expressions of the overlay filter for this anchor and a
    /// margin in pixels.
    pub fn to_exprs(self, margin: u32) -> (xy: (String, String))
        ensures
            xy.0@ == x_expr(self, margin),
            xy.1@ == y_expr(self, margin),
    {
        let (col, row) = self.col_row();
        let x = match col {
            Col::Left => decimal_text(margin as u64),
            Col::Centre => "(W-w)/2".to_owned(),
            Col::Right => "W-w-".to_owned().concat(decimal_text(margin as u64).as_str()),
        };
        let y = match row {
            Row::Top => decimal_text(margin as u64),
            Row::Middle => "(H-h)/2".to_owned(),
            Row::Bottom => "H-h-".to_owned().concat(decimal_text(margin as u64).as_str()),
        };
        (x, y)
    }
}

/// The margin of a new overlay, in pixels.
pub fn default_overlay_margin() -> (m: u32)
    ensures
        m == 20,
{
    20
}

/// The opacity of a new overlay.
pub fn default_overlay_opacity() -> (o: F32)
    ensures
        o.bits == F32_ONE,
{
    F32::of(F32_ONE)
}

/// The size of a new overlay, as a percentage of its own size.
pub fn default_overlay_scale() -> (s: F32)
    ensures
        s.bits == F32_HUNDRED,
{
    F32::of(F32_HUNDRED)
}

/// An image laid over a clip, such as a watermark.
#[derive(Debug)]
pub struct Overlay {
    /// Path of the image; without one there is no overlay.
    pub path: Option<String>,
    pub position: OverlayPosition,
    /// Distance from the anchored edges, in pixels.
    pub margin: u32,
    pub opacity: F32,
    /// Size as a percentage of the image's own size.
    pub scale: F32,
}

/// No image, and where and how the first one is shown.
pub open spec fn fresh_overlay(o: Overlay) -> bool {
    &&& o.path is None
    &&& o.position == OverlayPosition::BottomRight
    &&& o.margin == 20
    &&& o.opacity.bits == F32_ONE
    &&& o.scale.bits == F32_HUNDRED
}

impl Default for Overlay {
    fn default() -> (o: Self)
        ensures
            fresh_overlay(o),
    {
        Overlay {
            path: None,
            position: OverlayPosition::BottomRight,
            margin: default_overlay_margin(),
            opacity: default_overlay_opacity(),
            scale: default_overlay_scale(),
        }
    }
}

impl Clone for Overlay {
    fn clone(&self) -> (r: Self)
        ensures
            r == *self,
    {
        Overlay {
            path: self.path.clone(),
            position: self.position,
            margin: self.margin,
            opacity: self.opacity,
            scale: self.scale,
        }
    }
}

impl Overlay {
    /// Whether an image is set.
    pub fn is_active(&self) -> (r: bool)
        ensures
            r == (self.path is Some),
    {
        self.path.is_some()
    }
}

/// Format of a subtitle file.
#[derive(Clone, Copy, PartialEq, Eq, Structural, Debug)]
pub enum SubtitleFormat {
    Srt,
    Ass,
}

/// Where a subtitle sits on the frame.
#[derive(Clone, Copy, PartialEq, Eq, Structural, Debug)]
pub enum SubtitlePosition {
    Bottom,
    Middle,
    Top,
}

/// The alignment number of the ASS format for a centred subtitle.
pub open spec fn alignment(p: SubtitlePosition) -> nat {
    match p {
        SubtitlePosition::Bottom => 2,
        SubtitlePosition::Middle => 5,
        SubtitlePosition::Top => 8,
    }
}

impl SubtitlePosition {
    /// The alignment number of the ASS format.
    pub fn ass_alignment(self) -> (a: u32)
        ensures
            a == alignment(self),
    {
        match self {
            SubtitlePosition::Bottom => 2,
            SubtitlePosition::Middle => 5,
            SubtitlePosition::Top => 8,
        }
    }
}

/// A subtitle file burned into a clip.
#[derive(Debug)]
pub struct Subtitle {
    /// Path of the file; without one there is no subtitle.
    pub path: Option<String>,
    pub format: SubtitleFormat,
    pub font_size: u32,
    /// Red, green and blue.
    pub colour: [u8; 3],
    pub position: SubtitlePosition,
}

/// No subtitle file, and how the first one is shown.
pub open spec fn fresh_subtitle(s: Subtitle) -> bool {
    &&& s.path is None
    &&& s.format == SubtitleFormat::Srt
    &&& s.font_size == 24
    &&& s.colour@ == seq![255u8, 255, 255]
    &&& s.position == SubtitlePosition::Bottom
}

impl Default for Subtitle {
    fn default() -> (s: Self)
        ensures
            fresh_subtitle(s),
    {
        let s = Subtitle {
            path: None,
            format: SubtitleFormat::Srt,
            font_size: 24,
            colour: [255, 255, 255],
            position: SubtitlePosition::Bottom,
        };
        assert(s.colour@ =~= seq![255u8, 255, 255]);
        s
    }
}

impl Clone for Subtitle {
    fn clone(&self) -> (r: Self)
        ensures
            r == *self,
    {
        Subtitle {
            path: self.path.clone(),
            format: self.format,
            font_size: self.font_size,
            colour: self.colour,
            position: self.position,
        }
    }
}

/// The style text of an SRT subtitle: size, colour as `&H00BBGGRR&` and
/// alignment.
pub open spec fn force_style(s: Subtitle) -> Seq<char> {
    "Fontsize="@ + decimal(s.font_size as nat) + ",PrimaryColour=&H00"@ + upper_hex(s.colour@[2])
        + upper_hex(s.colour@[1]) + upper_hex(s.colour@[0]) + "&,Alignment="@ + decimal(
        alignment(s.position),
    )
}

/// Builds the style text of an SRT subtitle.
pub fn build_force_style(sub: &Subtitle) -> (s: String)
    ensures
        s@ == force_style(*sub),
{
    let mut s = "Fontsize=".to_owned();
    s.append(decimal_text(sub.font_size as u64).as_str());
    s.append(",PrimaryColour=&H00");
    s.append(upper_hex_text(sub.colour[2]).as_str());
    s.append(upper_hex_text(sub.colour[1]).as_str());
    s.append(upper_hex_text(sub.colour[0]).as_str());
    s.append("&,Alignment=");
    s.append(decimal_text(sub.position.ass_alignment() as u64).as_str());
    s
}

/// The format of a subtitle file by its extension, in lower case: `ass` and
/// `ssa` files bring their own styles, anything else is read as SRT.
pub fn subtitle_format(extension: &str) -> (f: SubtitleFormat)
    ensures
        f == (if extension@ == "ass"@ || extension@ == "ssa"@ {
            SubtitleFormat::Ass
        } else {
            SubtitleFormat::Srt
        }),
{
    if same_text(extension, "ass") || same_text(extension, "ssa") {
        SubtitleFormat::Ass
    } else {
        SubtitleFormat::Srt
    }
}

/// An overlay at an edge keeps its margin from that edge, and one between two edges lies
/// halfway: the left and the top place are the margin itself, the right and the bottom
/// place the frame less the overlay less the margin.
pub proof fn anchors_keep_their_margin(p: OverlayPosition, margin: u32)
    ensures
        ({
            let m = decimal(margin as nat);
            &&& x_expr(p, margin) == (match p {
                OverlayPosition::TopLeft => m,
                OverlayPosition::MiddleLeft => m,
                OverlayPosition::BottomLeft => m,
                OverlayPosition::TopCentre => "(W-w)/2"@,
                OverlayPosition::Centre => "(W-w)/2"@,
                OverlayPosition::BottomCentre => "(W-w)/2"@,
                OverlayPosition::TopRight => "W-w-"@ + m,
                OverlayPosition::MiddleRight => "W-w-"@ + m,
                OverlayPosition::BottomRight => "W-w-"@ + m,
            })
            &&& y_expr(p, margin) == (match p {
                OverlayPosition::TopLeft => m,
                OverlayPosition::TopCentre => m,
                OverlayPosition::TopRight => m,
                OverlayPosition::MiddleLeft => "(H-h)/2"@,
                OverlayPosition::Centre => "(H-h)/2"@,
                OverlayPosition::MiddleRight => "(H-h)/2"@,
                OverlayPosition::BottomLeft => "H-h-"@ + m,
                OverlayPosition::BottomCentre => "H-h-"@ + m,
                OverlayPosition::BottomRight => "H-h-"@ + m,
            })
        }),
{
}

/// The style of a subtitle tells its own size, its colour with blue first and red last,
/// and the number of its place on a number pad: two at the bottom, five in the middle,
/// eight at the top.
pub proof fn style_tells_the_subtitle(s: Subtitle)
    ensures
        ({
            let blue = upper_hex(s.colour@[2]);
            let green = upper_hex(s.colour@[1]);
            let red = upper_hex(s.colour@[0]);
            force_style(s) == "Fontsize="@ + decimal(s.font_size as nat) + ",PrimaryColour=&H00"@
                + blue + green + red + (match s.position {
                SubtitlePosition::Bottom => "&,Alignment=2"@,
                SubtitlePosition::Middle => "&,Alignment=5"@,
                SubtitlePosition::Top => "&,Alignment=8"@,
            })
        }),
{
    reveal_strlit("&,Alignment=");
    reveal_strlit("&,Alignment=2");
    reveal_strlit("&,Alignment=5");
    reveal_strlit("&,Alignment=8");
    let place = "&,Alignment="@ + decimal(alignment(s.position));
    assert(place =~= match s.position {
        SubtitlePosition::Bottom => "&,Alignment=2"@,
        SubtitlePosition::Middle => "&,Alignment=5"@,
        SubtitlePosition::Top => "&,Alignment=8"@,
    });
    let front = "Fontsize="@ + decimal(s.font_size as nat) + ",PrimaryColour=&H00"@ + upper_hex(
        s.colour@[2],
    ) + upper_hex(s.colour@[1]) + upper_hex(s.colour@[0]);
    text_joined(
        front,
        "&,Alignment="@,
        decimal(alignment(s.position)),
    );
}

/// A new clip has no overlay and no subtitle; the first overlay lies at the bottom right,
/// twenty pixels from the edges, whole and opaque, and the first subtitle is white and at
/// the bottom.
pub proof fn new_overlay_and_subtitle(o: Overlay, s: Subtitle)
    requires
        fresh_overlay(o),
        fresh_subtitle(s),
    ensures
        o.path is None && o.position == OverlayPosition::BottomRight && o.margin == 20,
        o.opacity.bits == 0x3f80_0000 && o.scale.bits == 0x42c8_0000,
        s.path is None && s.format == SubtitleFormat::Srt && s.font_size == 24,
        s.colour@[0] == 255 && s.colour@[1] == 255 && s.colour@[2] == 255,
        s.position == SubtitlePosition::Bottom,
{
}

/// Alignments are counted from the bottom row of a numeric keypad, three to a row, and
/// subtitles stand in the middle of theirs.
pub proof fn alignment_is_on_the_keypad(p: SubtitlePosition)
    ensures
        alignment(p) % 3 == 2,
        alignment(SubtitlePosition::Bottom) < alignment(SubtitlePosition::Middle) < alignment(
            SubtitlePosition::Top,
        ) <= 9,
{
}

} // verus!
