//! The editor's data: clips, tracks, titles, per-clip settings and drafts.

use crate::float::{f32_of, zero32, F32, F32_ZERO};
use crate::time::Duration;
use vstd::prelude::*;

verus! {

/// Neutral white-balance temperature in Kelvin. With a tint of zero it means
/// that white balance is off.
pub const WB_NEUTRAL_TEMP: u32 = 6500;

/// Which edge of a clip is being trimmed.
#[derive(Clone, Copy, PartialEq, Eq, Structural, Debug)]
pub enum TrimEdge {
    Left,
    Right,
}

/// A trim of a timeline clip that is under way.
#[derive(Clone, Copy, PartialEq, Eq, Structural, Debug)]
pub struct TimelineClipTrimDrag {
    pub track_idx: usize,
    pub clip_idx: usize,
    pub edge: TrimEdge,
}

/// A move of a timeline clip that is under way.
#[derive(Clone, Copy, PartialEq, Eq, Structural, Debug)]
pub struct TimelineClipDrag {
    pub src_track: usize,
    pub src_clip: usize,
    /// Time from the clip's left edge to where it was grabbed.
    pub grab_offset: Duration,
}

/// A move of a title that is under way.
#[derive(Clone, Copy, PartialEq, Eq, Structural, Debug)]
pub struct TitleClipDrag {
    pub clip_idx: usize,
    /// Time from the title's left edge to where it was grabbed.
    pub grab_offset: Duration,
}

/// A trim of a title that is under way.
#[derive(Clone, Copy, PartialEq, Eq, Structural, Debug)]
pub struct TitleClipTrimDrag {
    pub clip_idx: usize,
    pub edge: TrimEdge,
}

/// Which tab is open in the clip browser.
#[derive(Clone, Copy, PartialEq, Eq, Structural, Debug)]
pub enum BrowserTab {
    Media,
    Text,
}

/// What is dragged from the browser's text tab: the index of a preset.
#[derive(Clone, Copy, PartialEq, Eq, Structural, Debug)]
pub struct TextClipDragIdx(pub usize);

#[derive(Clone, Copy, PartialEq, Eq, Structural, Debug)]
pub enum TrackKind {
    Video,
    Audio,
}

/// Where a title sits from left to right.
#[derive(Clone, Copy, PartialEq, Eq, Structural, Debug)]
pub enum HAlign {
    Left,
    Centre,
    Right,
}

/// Where a title sits from top to bottom.
#[derive(Clone, Copy, PartialEq, Eq, Structural, Debug)]
pub enum VAlign {
    Top,
    Middle,
    Bottom,
}

/// A text title on the title track.
#[derive(Debug)]
pub struct TitleClip {
    pub start_on_track: Duration,
    pub duration: Duration,
    pub text: String,
    pub font_size: u32,
    /// Red, green, blue and alpha, 0 to 255 each.
    pub color: [u8; 4],
    pub h_align: HAlign,
    pub v_align: VAlign,
}

impl Clone for TitleClip {
    fn clone(&self) -> (r: Self)
        ensures
            r == *self,
    {
        TitleClip {
            start_on_track: self.start_on_track,
            duration: self.duration,
            text: self.text.clone(),
            font_size: self.font_size,
            color: self.color,
            h_align: self.h_align,
            v_align: self.v_align,
        }
    }
}

/// Whether the two titles agree in every field.
pub open spec fn same_title(a: TitleClip, b: TitleClip) -> bool {
    &&& a.start_on_track == b.start_on_track
    &&& a.duration == b.duration
    &&& a.text@ == b.text@
    &&& a.font_size == b.font_size
    &&& a.color@ == b.color@
    &&& a.h_align == b.h_align
    &&& a.v_align == b.v_align
}

impl TitleClip {
    /// Whether the two titles agree in every field.
    pub fn same_as(&self, other: &TitleClip) -> (r: bool)
        ensures
            r == same_title(*self, *other),
    {
        let colors = self.color[0] == other.color[0] && self.color[1] == other.color[1]
            && self.color[2] == other.color[2] && self.color[3] == other.color[3];
        assert(colors ==> self.color@ =~= other.color@);
        self.start_on_track == other.start_on_track && self.duration == other.duration && self.text
            == other.text && self.font_size == other.font_size && colors && self.h_align
            == other.h_align && self.v_align == other.v_align
    }
}

/// A title that can be dropped onto the timeline any number of times.
#[derive(Debug)]
pub struct TextClipPreset {
    pub name: String,
    pub text: String,
    pub font_size: u32,
    pub color: [u8; 4],
    pub h_align: HAlign,
    pub v_align: VAlign,
    /// How long a title dropped from this preset lasts.
    pub default_duration: Duration,
}

impl Default for TextClipPreset {
    fn default() -> (p: Self)
        ensures
            p.name@ == "New Title"@,
            p.text@ == Seq::<char>::empty(),
            p.font_size == 48,
            p.color@ == seq![255u8, 255, 255, 255],
            p.h_align == HAlign::Centre,
            p.v_align == VAlign::Middle,
            p.default_duration.nanos == 3_000_000_000,
    {
        let p = TextClipPreset {
            name: "New Title".to_owned(),
            text: String::new(),
            font_size: 48,
            color: [255, 255, 255, 255],
            h_align: HAlign::Centre,
            v_align: VAlign::Middle,
            default_duration: Duration::from_secs(3),
        };
        assert(p.color@ =~= seq![255u8, 255, 255, 255]);
        p
    }
}

/// Tone curves, one list of control points per channel. A point holds input and
/// output level. An empty list leaves its channel alone.
#[derive(Debug)]
pub struct ToneCurves {
    pub master: Vec<(F32, F32)>,
    pub r: Vec<(F32, F32)>,
    pub g: Vec<(F32, F32)>,
    pub b: Vec<(F32, F32)>,
}

impl Default for ToneCurves {
    fn default() -> (c: Self)
        ensures
            c.neutral(),
    {
        ToneCurves { master: Vec::new(), r: Vec::new(), g: Vec::new(), b: Vec::new() }
    }
}

impl ToneCurves {
    pub open spec fn neutral(self) -> bool {
        self.master@.len() == 0 && self.r@.len() == 0 && self.g@.len() == 0 && self.b@.len() == 0
    }

    /// Whether no channel has a curve, so that the curves step can be left out.
    pub fn is_neutral(&self) -> (r: bool)
        ensures
            r == self.neutral(),
    {
        self.master.len() == 0 && self.r.len() == 0 && self.g.len() == 0 && self.b.len() == 0
    }
}

/// Which tone curve is being edited.
#[derive(Clone, Copy, PartialEq, Eq, Structural, Debug)]
pub enum CurveChannel {
    Luma,
    R,
    G,
    B,
}

/// One wheel of the three-way colour corrector: a colour offset and a luminance
/// offset. All zero is neutral.
#[derive(Clone, Copy, PartialEq, Eq, Structural, Debug)]
pub struct ColorWheel {
    pub x: F32,
    pub y: F32,
    pub luma: F32,
}

/// A wheel in its middle.
pub open spec fn plain_wheel() -> ColorWheel {
    ColorWheel { x: f32_of(F32_ZERO), y: f32_of(F32_ZERO), luma: f32_of(F32_ZERO) }
}

impl Default for ColorWheel {
    fn default() -> (w: Self)
        ensures
            w == plain_wheel(),
    {
        ColorWheel { x: F32::of(F32_ZERO), y: F32::of(F32_ZERO), luma: F32::of(F32_ZERO) }
    }
}

impl ColorWheel {
    pub open spec fn neutral(self) -> bool {
        zero32(self.x) && zero32(self.y) && zero32(self.luma)
    }

    fn is_neutral(&self) -> (r: bool)
        ensures
            r == self.neutral(),
    {
        self.x.is_zero() && self.y.is_zero() && self.luma.is_zero()
    }
}

/// Three-way colour corrector for shadows, midtones and highlights.
#[derive(Clone, Copy, PartialEq, Eq, Structural, Debug)]
pub struct ColorWheels {
    pub lift: ColorWheel,
    pub gamma: ColorWheel,
    pub gain: ColorWheel,
}

/// Wheels that are all in their middle.
pub open spec fn plain_wheels() -> ColorWheels {
    ColorWheels { lift: plain_wheel(), gamma: plain_wheel(), gain: plain_wheel() }
}

impl Default for ColorWheels {
    fn default() -> (w: Self)
        ensures
            w == plain_wheels(),
            w.neutral(),
    {
        ColorWheels {
            lift: ColorWheel::default(),
            gamma: ColorWheel::default(),
            gain: ColorWheel::default(),
        }
    }
}

impl ColorWheels {
    pub open spec fn neutral(self) -> bool {
        self.lift.neutral() && self.gamma.neutral() && self.gain.neutral()
    }

    /// Whether every wheel is at zero.
    pub fn is_neutral(&self) -> (r: bool)
        ensures
            r == self.neutral(),
    {
        self.lift.is_neutral() && self.gamma.is_neutral() && self.gain.is_neutral()
    }
}

/// Stackable video effects. Zero turns an effect off.
#[derive(Clone, Copy, PartialEq, Eq, Structural, Debug)]
pub struct VideoEffects {
    pub blur: F32,
    pub sharpen: F32,
    pub denoise: F32,
    pub grain: F32,
    pub glow: F32,
    /// Shutter angle in degrees.
    pub motion_blur: F32,
    /// Horizontal shift in pixels.
    pub chromatic_aberration: F32,
}

/// Effects that are all at zero.
pub open spec fn plain_effects() -> VideoEffects {
    VideoEffects {
        blur: f32_of(F32_ZERO),
        sharpen: f32_of(F32_ZERO),
        denoise: f32_of(F32_ZERO),
        grain: f32_of(F32_ZERO),
        glow: f32_of(F32_ZERO),
        motion_blur: f32_of(F32_ZERO),
        chromatic_aberration: f32_of(F32_ZERO),
    }
}

impl Default for VideoEffects {
    fn default() -> (fx: Self)
        ensures
            fx == plain_effects(),
            fx.neutral(),
    {
        let zero = F32::of(F32_ZERO);
        VideoEffects {
            blur: zero,
            sharpen: zero,
            denoise: zero,
            grain: zero,
            glow: zero,
            motion_blur: zero,
            chromatic_aberration: zero,
        }
    }
}

impl VideoEffects {
    pub open spec fn neutral(self) -> bool {
        &&& zero32(self.blur)
        &&& zero32(self.sharpen)
        &&& zero32(self.denoise)
        &&& zero32(self.grain)
        &&& zero32(self.glow)
        &&& zero32(self.motion_blur)
        &&& zero32(self.chromatic_aberration)
    }

    /// Whether every effect is off.
    pub fn is_neutral(&self) -> (r: bool)
        ensures
            r == self.neutral(),
    {
        self.blur.is_zero() && self.sharpen.is_zero() && self.denoise.is_zero()
            && self.grain.is_zero() && self.glow.is_zero() && self.motion_blur.is_zero()
            && self.chromatic_aberration.is_zero()
    }
}

/// How a clip fills the project canvas.
#[derive(Clone, Copy, PartialEq, Eq, Structural, Debug)]
pub enum FitMode {
    /// Cover the canvas and crop what overflows.
    Fill,
    /// Fit inside the canvas and add black bars.
    Fit,
}

impl Default for FitMode {
    fn default() -> (m: Self)
        ensures
            m == FitMode::Fill,
    {
        FitMode::Fill
    }
}

/// Crop, rotation and flips of a clip. Crop insets are percentages of the width
/// or height, the rotation is in degrees.
#[derive(Clone, Copy, PartialEq, Eq, Structural, Debug)]
pub struct Transform {
    pub crop_left: F32,
    pub crop_right: F32,
    pub crop_top: F32,
    pub crop_bottom: F32,
    pub rotation: F32,
    pub flip_h: bool,
    pub flip_v: bool,
    pub fit_mode: FitMode,
}

/// The whole picture, upright, filling the canvas.
pub open spec fn plain_transform() -> Transform {
    Transform {
        crop_left: f32_of(F32_ZERO),
        crop_right: f32_of(F32_ZERO),
        crop_top: f32_of(F32_ZERO),
        crop_bottom: f32_of(F32_ZERO),
        rotation: f32_of(F32_ZERO),
        flip_h: false,
        flip_v: false,
        fit_mode: FitMode::Fill,
    }
}

impl Default for Transform {
    fn default() -> (t: Self)
        ensures
            t == plain_transform(),
            t.neutral(),
    {
        let zero = F32::of(F32_ZERO);
        Transform {
            crop_left: zero,
            crop_right: zero,
            crop_top: zero,
            crop_bottom: zero,
            rotation: zero,
            flip_h: false,
            flip_v: false,
            fit_mode: FitMode::Fill,
        }
    }
}

impl Transform {
    pub open spec fn neutral(self) -> bool {
        &&& zero32(self.crop_left)
        &&& zero32(self.crop_right)
        &&& zero32(self.crop_top)
        &&& zero32(self.crop_bottom)
        &&& zero32(self.rotation)
        &&& !self.flip_h
        &&& !self.flip_v
    }

    /// Whether nothing is cropped, rotated or flipped. The fit mode does not count.
    pub fn is_neutral(&self) -> (r: bool)
        ensures
            r == self.neutral(),
    {
        self.crop_left.is_zero() && self.crop_right.is_zero() && self.crop_top.is_zero()
            && self.crop_bottom.is_zero() && self.rotation.is_zero() && !self.flip_h && !self.flip_v
    }
}

/// Output aspect ratio of the project.
#[derive(Clone, Copy, PartialEq, Eq, Structural, Debug)]
pub enum AspectPreset {
    /// Clips keep their own framing.
    Original,
    Widescreen16x9,
    Vertical9x16,
    Square1x1,
    Portrait4x5,
}

impl Default for AspectPreset {
    fn default() -> (a: Self)
        ensures
            a == AspectPreset::Original,
    {
        AspectPreset::Original
    }
}

impl AspectPreset {
    /// All presets, in menu order.
    pub const ALL: [AspectPreset; 5] = [
        AspectPreset::Original,
        AspectPreset::Widescreen16x9,
        AspectPreset::Vertical9x16,
        AspectPreset::Square1x1,
        AspectPreset::Portrait4x5,
    ];

    pub open spec fn canvas(self) -> Option<(u32, u32)> {
        match self {
            AspectPreset::Original => None,
            AspectPreset::Widescreen16x9 => Some((1920u32, 1080u32)),
            AspectPreset::Vertical9x16 => Some((1080u32, 1920u32)),
            AspectPreset::Square1x1 => Some((1080u32, 1080u32)),
            AspectPreset::Portrait4x5 => Some((1080u32, 1350u32)),
        }
    }

    /// Canvas size of this preset; `Original` has none.
    pub fn dims(self) -> (d: Option<(u32, u32)>)
        ensures
            d == self.canvas(),
    {
        match self {
            AspectPreset::Original => None,
            AspectPreset::Widescreen16x9 => Some((1920, 1080)),
            AspectPreset::Vertical9x16 => Some((1080, 1920)),
            AspectPreset::Square1x1 => Some((1080, 1080)),
            AspectPreset::Portrait4x5 => Some((1080, 1350)),
        }
    }

    /// Short label for the menu.
    pub fn label(self) -> (s: &'static str)
        ensures
            s@ == match self {
                AspectPreset::Original => "Original"@,
                AspectPreset::Widescreen16x9 => "16:9"@,
                AspectPreset::Vertical9x16 => "9:16"@,
                AspectPreset::Square1x1 => "1:1"@,
                AspectPreset::Portrait4x5 => "4:5"@,
            },
    {
        match self {
            AspectPreset::Original => "Original",
            AspectPreset::Widescreen16x9 => "16:9",
            AspectPreset::Vertical9x16 => "9:16",
            AspectPreset::Square1x1 => "1:1",
            AspectPreset::Portrait4x5 => "4:5",
        }
    }
}

/// A preset's canvas has the preset's aspect, with a short side of 1080 pixels; the original
/// framing has no canvas.
pub proof fn canvas_has_its_aspect()
    ensures
        AspectPreset::Original.canvas() is None,
        ({
            let (w, h) = AspectPreset::Widescreen16x9.canvas()->0;
            w * 9 == h * 16 && h == 1080
        }),
        ({
            let (w, h) = AspectPreset::Vertical9x16.canvas()->0;
            w * 16 == h * 9 && w == 1080
        }),
        ({
            let (w, h) = AspectPreset::Square1x1.canvas()->0;
            w == h && w == 1080
        }),
        ({
            let (w, h) = AspectPreset::Portrait4x5.canvas()->0;
            w * 5 == h * 4 && w == 1080
        }),
        forall|p: AspectPreset| p != AspectPreset::Original ==> (#[trigger] p.canvas()) is Some,
{
}

/// Two titles agree where all they show and when agrees, and nowhere else.
pub proof fn titles_agree_in_everything(a: TitleClip, b: TitleClip)
    ensures
        same_title(a, a),
        same_title(a, b) == same_title(b, a),
        a.start_on_track != b.start_on_track ==> !same_title(a, b),
        a.duration != b.duration ==> !same_title(a, b),
        a.text@ != b.text@ ==> !same_title(a, b),
        a.font_size != b.font_size ==> !same_title(a, b),
        a.color@ != b.color@ ==> !same_title(a, b),
        a.h_align != b.h_align ==> !same_title(a, b),
        a.v_align != b.v_align ==> !same_title(a, b),
{
}

/// Settings that nobody touched are all at zero, upright and filling the canvas.
pub proof fn untouched_settings_are_zero()
    ensures
        plain_wheel().x.bits == 0 && plain_wheel().y.bits == 0 && plain_wheel().luma.bits == 0,
        plain_wheels().lift == plain_wheel(),
        plain_wheels().gamma == plain_wheel(),
        plain_wheels().gain == plain_wheel(),
        plain_effects().blur.bits == 0 && plain_effects().sharpen.bits == 0,
        plain_effects().denoise.bits == 0 && plain_effects().grain.bits == 0,
        plain_effects().glow.bits == 0 && plain_effects().motion_blur.bits == 0,
        plain_effects().chromatic_aberration.bits == 0,
        plain_transform().crop_left.bits == 0 && plain_transform().crop_right.bits == 0,
        plain_transform().crop_top.bits == 0 && plain_transform().crop_bottom.bits == 0,
        plain_transform().rotation.bits == 0,
        !plain_transform().flip_h && !plain_transform().flip_v,
        plain_transform().fit_mode == FitMode::Fill,
{
}

/// Settings are neutral exactly where each of them is zero; a list of points in any channel
/// makes curves that are not.
pub proof fn neutral_means_zero(
    w: ColorWheel,
    wheels: ColorWheels,
    fx: VideoEffects,
    t: Transform,
    curves: ToneCurves,
)
    ensures
        w.neutral() <==> w.x.bits % 0x8000_0000 == 0 && w.y.bits % 0x8000_0000 == 0 && w.luma.bits
            % 0x8000_0000 == 0,
        wheels.neutral() <==> wheels.lift.neutral() && wheels.gamma.neutral()
            && wheels.gain.neutral(),
        fx.neutral() <==> fx.blur.bits % 0x8000_0000 == 0 && fx.sharpen.bits % 0x8000_0000 == 0
            && fx.denoise.bits % 0x8000_0000 == 0 && fx.grain.bits % 0x8000_0000 == 0
            && fx.glow.bits % 0x8000_0000 == 0 && fx.motion_blur.bits % 0x8000_0000 == 0
            && fx.chromatic_aberration.bits % 0x8000_0000 == 0,
        t.neutral() <==> t.crop_left.bits % 0x8000_0000 == 0 && t.crop_right.bits % 0x8000_0000
            == 0 && t.crop_top.bits % 0x8000_0000 == 0 && t.crop_bottom.bits % 0x8000_0000 == 0
            && t.rotation.bits % 0x8000_0000 == 0 && !t.flip_h && !t.flip_v,
        curves.neutral() <==> curves.master@ + curves.r@ + curves.g@ + curves.b@ == Seq::<
            (F32, F32),
        >::empty(),
{
    assert((curves.master@ + curves.r@ + curves.g@ + curves.b@).len() == curves.master@.len()
        + curves.r@.len() + curves.g@.len() + curves.b@.len());
    if curves.neutral() {
        assert(curves.master@ + curves.r@ + curves.g@ + curves.b@ =~= Seq::<(F32, F32)>::empty());
    }
}

} // verus!
