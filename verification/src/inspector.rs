//! Changing the settings of the selected clip.

use crate::float::{
    at_least64, clamp32, eq32, f32_of, one32, zero32, F32, F64, F32_FIFTY, F32_FOUR, F32_ONE,
    F32_TENTH, F32_ZERO, F64_ONE, F64_TENTH, F64_ZERO,
};
use crate::keyframes::{
    in_order, with_key, with_key_in_order, ClipAnimation, Key, KeyEasing, KeyTrack,
};
use crate::overlay::{subtitle_format, SubtitleFormat};
use crate::state::{
    plain_effects, plain_transform, Transform, VideoEffects, WB_NEUTRAL_TEMP,
};
use crate::time::Duration;
use crate::timeline_clip::{Freeze, TimelineClip};
use std::sync::Arc;
use vstd::prelude::*;

verus! {

/// Which groups of settings are offered for a clip.
#[derive(Clone, Copy, PartialEq, Eq, Structural, Debug)]
pub struct Panels {
    /// Any at all: the clip is on a video track.
    pub clip: bool,
    /// Position, scale and blending: the clip lies over another track.
    pub overlay: bool,
    /// Volume: the source has sound.
    pub volume: bool,
}

/// The groups of settings that are offered for a clip on a track.
pub fn panels(track: usize, audio_start: usize, has_audio: bool) -> (p: Panels)
    ensures
        p == (Panels {
            clip: track < audio_start,
            overlay: 1 <= track < audio_start,
            volume: track < audio_start && has_audio,
        }),
{
    let clip = track < audio_start;
    Panels { clip, overlay: clip && track >= 1, volume: clip && has_audio }
}

/// Where the playhead is in a clip, counted from the clip's start.
pub fn clip_local(playhead: Duration, start: Duration) -> (d: Duration)
    ensures
        d.nanos == (if playhead.nanos > start.nanos {
            playhead.nanos - start.nanos
        } else {
            0
        }),
{
    playhead.saturating_sub(start)
}

/// An animated property.
#[derive(Clone, Copy, PartialEq, Eq, Structural, Debug)]
pub enum Animated {
    Opacity,
    PositionX,
    PositionY,
    Scale,
    Volume,
}

/// A change of keys.
#[derive(Clone, Copy, PartialEq, Eq, Structural, Debug)]
pub enum KeyEdit {
    /// Sets the value at a moment.
    Place { at: Duration, value: F64 },
    /// Changes the value of a key.
    Change { index: usize, value: F64 },
    /// Changes the way from a key to the next.
    Ease { index: usize, easing: KeyEasing },
    Delete { index: usize },
    Clear,
}

/// The keys of a property.
pub open spec fn keys_for(a: ClipAnimation, property: Animated) -> Seq<Key> {
    match property {
        Animated::Opacity => a.opacity.keys@,
        Animated::PositionX => a.pos_x.keys@,
        Animated::PositionY => a.pos_y.keys@,
        Animated::Scale => a.scale.keys@,
        Animated::Volume => a.volume.keys@,
    }
}

/// Keys after a change. Changes of keys that are not there do nothing.
pub open spec fn keys_after(keys: Seq<Key>, e: KeyEdit) -> Seq<Key> {
    match e {
        KeyEdit::Place { at, value } => with_key(
            keys,
            Key { at, value, easing: KeyEasing::Linear },
        ),
        KeyEdit::Change { index, value } => if index < keys.len() {
            keys.update(index as int, Key { value, ..keys[index as int] })
        } else {
            keys
        },
        KeyEdit::Ease { index, easing } => if index < keys.len() {
            keys.update(index as int, Key { easing, ..keys[index as int] })
        } else {
            keys
        },
        KeyEdit::Delete { index } => if index < keys.len() {
            keys.remove(index as int)
        } else {
            keys
        },
        KeyEdit::Clear => Seq::empty(),
    }
}

fn edit_keys(track: &KeyTrack, e: KeyEdit) -> (r: KeyTrack)
    ensures
        r.keys@ == keys_after(track.keys@, e),
{
    let mut r = track.clone();
    match e {
        KeyEdit::Place { at, value } => {
            r.insert(at, value, KeyEasing::Linear);
        },
        KeyEdit::Change { index, value } => {
            if index < r.keys.len() {
                let k = r.keys[index];
                r.keys[index] = Key { at: k.at, value, easing: k.easing };
            }
        },
        KeyEdit::Ease { index, easing } => {
            if index < r.keys.len() {
                let k = r.keys[index];
                r.keys[index] = Key { at: k.at, value: k.value, easing };
            }
        },
        KeyEdit::Delete { index } => {
            r.remove(index);
        },
        KeyEdit::Clear => {
            r = KeyTrack::default();
        },
    }
    r
}

fn edited_if(track: &KeyTrack, chosen: bool, e: KeyEdit) -> (r: KeyTrack)
    ensures
        r.keys@ == (if chosen {
            keys_after(track.keys@, e)
        } else {
            track.keys@
        }),
{
    if chosen {
        edit_keys(track, e)
    } else {
        track.clone()
    }
}

/// A change of keys leaves them in order of time.
pub proof fn key_edits_keep_order(keys: Seq<Key>, e: KeyEdit)
    requires
        in_order(keys),
    ensures
        in_order(keys_after(keys, e)),
{
    if let KeyEdit::Place { at, value } = e {
        with_key_in_order(keys, Key { at, value, easing: KeyEasing::Linear });
    }
}

/// Whether brightness, contrast and saturation change nothing.
pub open spec fn tone_is_off(c: TimelineClip) -> bool {
    zero32(c.brightness) && one32(c.contrast) && one32(c.saturation)
}

/// Whether white balance changes nothing.
pub open spec fn balance_is_off(c: TimelineClip) -> bool {
    c.wb_temperature == WB_NEUTRAL_TEMP && zero32(c.wb_tint)
}

/// Whether hue and gamma change nothing.
pub open spec fn hue_is_off(c: TimelineClip) -> bool {
    zero32(c.hue_degrees) && one32(c.gamma_r) && one32(c.gamma_g) && one32(c.gamma_b)
}

/// Whether the vignette is off and in the middle.
pub open spec fn vignette_is_off(c: TimelineClip) -> bool {
    zero32(c.vignette) && eq32(c.vignette_x, f32_of(F32_FIFTY)) && eq32(
        c.vignette_y,
        f32_of(F32_FIFTY),
    )
}

impl TimelineClip {
    /// Sets the speed, between a tenth of and four times normal speed.
    pub fn set_speed(&mut self, speed: F32)
        ensures
            *final(self) == (TimelineClip {
                speed: clamp32(speed, f32_of(F32_TENTH), f32_of(F32_FOUR)),
                ..*old(self)
            }),
    {
        self.speed = speed.clamp(F32::of(F32_TENTH), F32::of(F32_FOUR));
    }

    /// Sets the opacity, between nothing and all.
    pub fn set_opacity(&mut self, opacity: F32)
        ensures
            *final(self) == (TimelineClip {
                opacity: clamp32(opacity, f32_of(F32_ZERO), f32_of(F32_ONE)),
                ..*old(self)
            }),
    {
        self.opacity = opacity.clamp(F32::of(F32_ZERO), F32::of(F32_ONE));
    }

    /// Holds the frame at a moment for one second, or holds none.
    pub fn set_freeze(&mut self, on: bool, at_secs: F64)
        ensures
            *final(self) == (TimelineClip {
                freeze: if on {
                    Some(Freeze { at_secs, hold_secs: F64 { bits: F64_ONE } })
                } else {
                    None
                },
                ..*old(self)
            }),
    {
        self.freeze = if on {
            Some(Freeze { at_secs, hold_secs: F64 { bits: F64_ONE } })
        } else {
            None
        };
    }

    /// Changes which frame is held and for how long: not before the clip, and for a
    /// tenth of a second at least. Without a held frame nothing changes.
    pub fn change_freeze(&mut self, at_secs: F64, hold_secs: F64)
        ensures
            *final(self) == (TimelineClip {
                freeze: if old(self).freeze is Some {
                    Some(
                        Freeze {
                            at_secs: at_least64(at_secs, (F64 { bits: F64_ZERO })),
                            hold_secs: at_least64(hold_secs, (F64 { bits: F64_TENTH })),
                        },
                    )
                } else {
                    None
                },
                ..*old(self)
            }),
    {
        if self.freeze.is_some() {
            self.freeze = Some(
                Freeze {
                    at_secs: at_secs.at_least(F64 { bits: F64_ZERO }),
                    hold_secs: hold_secs.at_least(F64 { bits: F64_TENTH }),
                },
            );
        }
    }

    /// Changes the keys of a property. Those of the others stay as they are.
    pub fn edit_animation(&mut self, property: Animated, e: KeyEdit)
        ensures
            keys_for(*final(self).animation, property) == keys_after(
                keys_for(*old(self).animation, property),
                e,
            ),
            forall|other: Animated|
                other != property ==> #[trigger] keys_for(*final(self).animation, other)
                    == keys_for(*old(self).animation, other),
            *final(self) == (TimelineClip { animation: final(self).animation, ..*old(self) }),
    {
        let a = &self.animation;
        let changed = ClipAnimation {
            opacity: edited_if(&a.opacity, matches!(property, Animated::Opacity), e),
            pos_x: edited_if(&a.pos_x, matches!(property, Animated::PositionX), e),
            pos_y: edited_if(&a.pos_y, matches!(property, Animated::PositionY), e),
            scale: edited_if(&a.scale, matches!(property, Animated::Scale), e),
            volume: edited_if(&a.volume, matches!(property, Animated::Volume), e),
        };
        self.animation = Arc::new(changed);
    }

    /// Whether brightness, contrast and saturation change nothing.
    pub fn tone_off(&self) -> (r: bool)
        ensures
            r == tone_is_off(*self),
    {
        self.brightness.is_zero() && self.contrast.is_one() && self.saturation.is_one()
    }

    /// Takes brightness, contrast and saturation back.
    pub fn reset_tone(&mut self)
        ensures
            *final(self) == (TimelineClip {
                brightness: f32_of(F32_ZERO),
                contrast: f32_of(F32_ONE),
                saturation: f32_of(F32_ONE),
                ..*old(self)
            }),
            tone_is_off(*final(self)),
    {
        self.brightness = F32::of(F32_ZERO);
        self.contrast = F32::of(F32_ONE);
        self.saturation = F32::of(F32_ONE);
    }

    /// Whether white balance changes nothing.
    pub fn balance_off(&self) -> (r: bool)
        ensures
            r == balance_is_off(*self),
    {
        self.wb_temperature == WB_NEUTRAL_TEMP && self.wb_tint.is_zero()
    }

    /// Takes white balance back.
    pub fn reset_balance(&mut self)
        ensures
            *final(self) == (TimelineClip {
                wb_temperature: WB_NEUTRAL_TEMP,
                wb_tint: f32_of(F32_ZERO),
                ..*old(self)
            }),
            balance_is_off(*final(self)),
    {
        self.wb_temperature = WB_NEUTRAL_TEMP;
        self.wb_tint = F32::of(F32_ZERO);
    }

    /// Whether hue and gamma change nothing.
    pub fn hue_off(&self) -> (r: bool)
        ensures
            r == hue_is_off(*self),
    {
        self.hue_degrees.is_zero() && self.gamma_r.is_one() && self.gamma_g.is_one()
            && self.gamma_b.is_one()
    }

    /// Takes hue and gamma back.
    pub fn reset_hue(&mut self)
        ensures
            *final(self) == (TimelineClip {
                hue_degrees: f32_of(F32_ZERO),
                gamma_r: f32_of(F32_ONE),
                gamma_g: f32_of(F32_ONE),
                gamma_b: f32_of(F32_ONE),
                ..*old(self)
            }),
            hue_is_off(*final(self)),
    {
        self.hue_degrees = F32::of(F32_ZERO);
        self.gamma_r = F32::of(F32_ONE);
        self.gamma_g = F32::of(F32_ONE);
        self.gamma_b = F32::of(F32_ONE);
    }

    /// Whether the vignette is off and in the middle.
    pub fn vignette_off(&self) -> (r: bool)
        ensures
            r == vignette_is_off(*self),
    {
        let middle = F32::of(F32_FIFTY);
        self.vignette.is_zero() && self.vignette_x.equals(middle) && self.vignette_y.equals(middle)
    }

    /// Takes the vignette back.
    pub fn reset_vignette(&mut self)
        ensures
            *final(self) == (TimelineClip {
                vignette: f32_of(F32_ZERO),
                vignette_x: f32_of(F32_FIFTY),
                vignette_y: f32_of(F32_FIFTY),
                ..*old(self)
            }),
            vignette_is_off(*final(self)),
    {
        self.vignette = F32::of(F32_ZERO);
        self.vignette_x = F32::of(F32_FIFTY);
        self.vignette_y = F32::of(F32_FIFTY);
    }

    /// Takes crop, rotation, flips and fit back.
    pub fn reset_transform(&mut self)
        ensures
            *final(self) == (TimelineClip { transform: plain_transform(), ..*old(self) }),
            final(self).transform.neutral(),
    {
        self.transform = Transform::default();
    }

    /// Takes the video effects back.
    pub fn reset_effects(&mut self)
        ensures
            *final(self) == (TimelineClip { video_effects: plain_effects(), ..*old(self) }),
            final(self).video_effects.neutral(),
    {
        self.video_effects = VideoEffects::default();
    }

    /// Sets the subtitle file. Its extension, in lower case, says how it is read.
    pub fn set_subtitle(&mut self, path: String, extension: &str)
        ensures
            final(self).subtitle.path == Some(path),
            final(self).subtitle.format == (if extension@ == "ass"@ || extension@ == "ssa"@ {
                SubtitleFormat::Ass
            } else {
                SubtitleFormat::Srt
            }),
            final(self).subtitle.font_size == old(self).subtitle.font_size,
            final(self).subtitle.colour == old(self).subtitle.colour,
            final(self).subtitle.position == old(self).subtitle.position,
            *final(self) == (TimelineClip { subtitle: final(self).subtitle, ..*old(self) }),
    {
        self.subtitle.format = subtitle_format(extension);
        self.subtitle.path = Some(path);
    }
}

/// Each property has keys of its own.
pub proof fn properties_have_their_keys(a: ClipAnimation)
    ensures
        keys_for(a, Animated::Opacity) == a.opacity.keys@,
        keys_for(a, Animated::PositionX) == a.pos_x.keys@,
        keys_for(a, Animated::PositionY) == a.pos_y.keys@,
        keys_for(a, Animated::Scale) == a.scale.keys@,
        keys_for(a, Animated::Volume) == a.volume.keys@,
{
}

/// A change of one key keeps its time and all other keys; a new value keeps the way to the
/// next key, and a new way keeps the value. Deleting takes that one key out, clearing takes
/// all. A key that is not there is not changed.
pub proof fn one_key_is_edited(keys: Seq<Key>, index: usize, value: F64, easing: KeyEasing)
    ensures
        keys_after(keys, KeyEdit::Clear).len() == 0,
        index >= keys.len() ==> {
            &&& keys_after(keys, KeyEdit::Change { index, value }) == keys
            &&& keys_after(keys, KeyEdit::Ease { index, easing }) == keys
            &&& keys_after(keys, KeyEdit::Delete { index }) == keys
        },
        index < keys.len() ==> {
            let i = index as int;
            let changed = keys_after(keys, KeyEdit::Change { index, value });
            let eased = keys_after(keys, KeyEdit::Ease { index, easing });
            let fewer = keys_after(keys, KeyEdit::Delete { index });
            &&& changed.len() == keys.len()
            &&& changed[i].at == keys[i].at
            &&& changed[i].value == value
            &&& changed[i].easing == keys[i].easing
            &&& forall|k: int| 0 <= k < keys.len() && k != i ==> #[trigger] changed[k] == keys[k]
            &&& eased.len() == keys.len()
            &&& eased[i].at == keys[i].at
            &&& eased[i].value == keys[i].value
            &&& eased[i].easing == easing
            &&& forall|k: int| 0 <= k < keys.len() && k != i ==> #[trigger] eased[k] == keys[k]
            &&& fewer.len() == keys.len() - 1
            &&& forall|k: int| 0 <= k < i ==> #[trigger] fewer[k] == keys[k]
            &&& forall|k: int| i <= k < fewer.len() ==> #[trigger] fewer[k] == keys[k + 1]
        },
{
}

/// A value that is set at a moment is there afterwards.
pub proof fn placed_key_is_there(keys: Seq<Key>, at: Duration, value: F64)
    requires
        in_order(keys),
    ensures
        keys_after(keys, KeyEdit::Place { at, value }).contains(
            Key { at, value, easing: KeyEasing::Linear },
        ),
{
    with_key_in_order(keys, Key { at, value, easing: KeyEasing::Linear });
}

/// A group of colours is off only where each of its settings is at its neutral value.
pub proof fn groups_are_off_when_neutral(c: TimelineClip)
    ensures
        tone_is_off(c) == (c.brightness.bits % 0x8000_0000 == 0 && c.contrast.bits
            == 0x3f80_0000 && c.saturation.bits == 0x3f80_0000),
        balance_is_off(c) == (c.wb_temperature == 6500 && c.wb_tint.bits % 0x8000_0000 == 0),
        hue_is_off(c) == (c.hue_degrees.bits % 0x8000_0000 == 0 && c.gamma_r.bits == 0x3f80_0000
            && c.gamma_g.bits == 0x3f80_0000 && c.gamma_b.bits == 0x3f80_0000),
        vignette_is_off(c) == (c.vignette.bits % 0x8000_0000 == 0 && c.vignette_x.bits
            == 0x4248_0000 && c.vignette_y.bits == 0x4248_0000),
{
}

} // verus!
