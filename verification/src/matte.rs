//! What makes parts of a clip transparent: colour keys and masks.

use crate::float::{F32, F32_HUNDRED, F32_ZERO};
use vstd::prelude::*;

verus! {

/// How a key colour is matched.
#[derive(Clone, Copy, PartialEq, Eq, Structural, Debug)]
pub enum KeyMode {
    Chroma,
    Color,
}

/// A colour key, such as a green screen.
#[derive(Clone, Copy, Debug)]
pub struct Keying {
    pub enabled: bool,
    pub mode: KeyMode,
    /// Red, green and blue of the colour that becomes transparent.
    pub color: [u8; 3],
    pub similarity: F32,
    pub blend: F32,
    /// Strength of spill suppression; zero leaves it out.
    pub spill: F32,
}

/// Keying that is off, set for a green screen.
pub open spec fn fresh_keying(k: Keying) -> bool {
    &&& !k.enabled
    &&& k.mode == KeyMode::Chroma
    &&& k.color@ == seq![0u8, 255, 0]
    &&& k.similarity.bits == 0x3e99_999au32
    &&& k.blend.bits == 0x3dcc_cccdu32
    &&& k.spill.bits == F32_ZERO
}

impl Default for Keying {
    fn default() -> (k: Self)
        ensures
            fresh_keying(k),
    {
        let k = Keying {
            enabled: false,
            mode: KeyMode::Chroma,
            color: [0, 255, 0],
            similarity: F32::of(0x3e99_999a),
            blend: F32::of(0x3dcc_cccd),
            spill: F32::of(F32_ZERO),
        };
        assert(k.color@ =~= seq![0u8, 255, 0]);
        k
    }
}

/// The shape of the region that a mask keeps.
#[derive(Clone, Copy, PartialEq, Eq, Structural, Debug)]
pub enum MaskShape {
    /// Nothing is masked.
    Off,
    Rectangle,
    Luma,
    Polygon,
}

/// A region of a clip that is kept; the rest becomes transparent.
#[derive(Debug)]
pub struct Mask {
    pub shape: MaskShape,
    pub invert: bool,
    /// Softness of the edge in pixels; zero leaves it hard.
    pub feather: u32,
    /// Rectangle in percent of the frame.
    pub rect_x: F32,
    pub rect_y: F32,
    pub rect_w: F32,
    pub rect_h: F32,
    pub luma_threshold: F32,
    pub luma_tolerance: F32,
    pub luma_softness: F32,
    /// Corners, each from zero to one across the frame.
    pub polygon: Vec<(F32, F32)>,
}

/// A mask that is off, set to keep the whole frame.
pub open spec fn fresh_mask(m: Mask) -> bool {
    &&& m.shape == MaskShape::Off
    &&& !m.invert
    &&& m.feather == 0
    &&& m.rect_x.bits == F32_ZERO
    &&& m.rect_y.bits == F32_ZERO
    &&& m.rect_w.bits == F32_HUNDRED
    &&& m.rect_h.bits == F32_HUNDRED
    &&& m.luma_threshold.bits == 0x3f00_0000u32
    &&& m.luma_tolerance.bits == 0x3dcc_cccdu32
    &&& m.luma_softness.bits == 0x3dcc_cccdu32
    &&& m.polygon@.len() == 0
}

impl Default for Mask {
    fn default() -> (m: Self)
        ensures
            fresh_mask(m),
    {
        Mask {
            shape: MaskShape::Off,
            invert: false,
            feather: 0,
            rect_x: F32::of(F32_ZERO),
            rect_y: F32::of(F32_ZERO),
            rect_w: F32::of(F32_HUNDRED),
            rect_h: F32::of(F32_HUNDRED),
            luma_threshold: F32::of(0x3f00_0000),
            luma_tolerance: F32::of(0x3dcc_cccd),
            luma_softness: F32::of(0x3dcc_cccd),
            polygon: Vec::new(),
        }
    }
}

impl Mask {
    /// Whether a shape is chosen.
    pub fn is_active(&self) -> (r: bool)
        ensures
            r == (self.shape != MaskShape::Off),
    {
        self.shape != MaskShape::Off
    }

    /// The corners of a rectangle around the middle of the frame: a quarter to
    /// three quarters of the width and height, clockwise from the top left.
    pub fn default_quad() -> (v: Vec<(F32, F32)>)
        ensures
            v@ == seq![
                (F32 { bits: 0x3e80_0000 }, F32 { bits: 0x3e80_0000 }),
                (F32 { bits: 0x3f40_0000 }, F32 { bits: 0x3e80_0000 }),
                (F32 { bits: 0x3f40_0000 }, F32 { bits: 0x3f40_0000 }),
                (F32 { bits: 0x3e80_0000 }, F32 { bits: 0x3f40_0000 }),
            ],
    {
        let near = F32::of(0x3e80_0000);
        let far = F32::of(0x3f40_0000);
        vec![(near, near), (far, near), (far, far), (near, far)]
    }
}

/// A new clip is keyed for pure green, with the key off, and keeps its whole frame.
pub proof fn new_matte_keeps_the_frame(k: Keying, m: Mask)
    requires
        fresh_keying(k),
        fresh_mask(m),
    ensures
        !k.enabled && k.mode == KeyMode::Chroma,
        k.color@[0] == 0 && k.color@[1] == 255 && k.color@[2] == 0,
        k.similarity.bits == 0x3e99_999a && k.blend.bits == 0x3dcc_cccd && k.spill.bits == 0,
        m.shape == MaskShape::Off && !m.invert && m.feather == 0,
        m.rect_x.bits == 0 && m.rect_y.bits == 0,
        m.rect_w.bits == 0x42c8_0000 && m.rect_h.bits == 0x42c8_0000,
        m.luma_threshold.bits == 0x3f00_0000,
        m.luma_tolerance.bits == 0x3dcc_cccd && m.luma_softness.bits == 0x3dcc_cccd,
        m.polygon@.len() == 0,
{
}

} // verus!
