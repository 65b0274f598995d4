//! The settings that travel to and from the host as documents.

use vstd::prelude::*;
use crate::number::{Double, Single};

verus! {

/// The bit pattern of 0.0, the least value of every bounded setting.
pub const LEVEL_MIN_BITS: u32 = 0x0000_0000;

/// The bit pattern of 5.0, the greatest volume.
pub const VOLUME_MAX_BITS: u32 = 0x40a0_0000;

/// The bit pattern of 4.0, the greatest speed.
pub const SPEED_MAX_BITS: u32 = 0x4080_0000;

/// The bit pattern of 2.0, the greatest pitch.
pub const PITCH_MAX_BITS: u32 = 0x4000_0000;

/// The bit pattern of 2.0, the greatest pitch range.
pub const PITCH_RANGE_MAX_BITS: u32 = 0x4000_0000;

/// The longest middle pause, in milliseconds.
pub const MIDDLE_PAUSE_MAX: u32 = 500;

/// The longest long pause, in milliseconds.
pub const LONG_PAUSE_MAX: u32 = 2000;

/// The longest sentence pause, in milliseconds.
pub const SENTENCE_PAUSE_MAX: u32 = 10000;

/// The playback settings that hold for every voice.
#[derive(Debug, Clone, Copy, PartialEq, Eq, Structural)]
pub struct MasterControl {
    /// Volume, from 0.0 to 5.0.
    pub volume: Single,
    /// Speed, from 0.0 to 4.0.
    pub speed: Single,
    /// Pitch, from 0.0 to 2.0.
    pub pitch: Single,
    /// Pitch range, from 0.0 to 2.0.
    pub pitch_range: Single,
    /// Middle pause in milliseconds, up to 500.
    pub middle_pause: u32,
    /// Long pause in milliseconds, up to 2000.
    pub long_pause: u32,
    /// Sentence pause in milliseconds, up to 10000.
    pub sentence_pause: u32,
}

/// One emotional style of a voice and its weight.
#[derive(Debug)]
pub struct Style {
    /// The style's name: `J` for joy, `A` for anger, `S` for sorrow.
    pub name: String,
    /// The weight of the style in the blend.
    pub value: Double,
}

/// A voice that takes part in a fused voice.
#[derive(Debug)]
pub struct MergedVoice {
    /// The name of the voice.
    pub voice_name: String,
}

/// The voices that a fused voice is made of.
#[derive(Debug)]
pub struct MergedVoiceContainer {
    /// The voice that the pitch is taken from.
    pub base_pitch_voice_name: String,
    /// The voices that are fused, in order.
    pub merged_voices: Vec<MergedVoice>,
}

/// A named bundle of voice settings in the host's registry. Its values
/// are the caller's own and pass unchanged in both directions.
#[derive(Debug)]
pub struct VoicePreset {
    /// The name of the preset.
    pub preset_name: String,
    /// The name of the voice it is built on.
    pub voice_name: String,
    pub volume: Single,
    pub speed: Single,
    pub pitch: Single,
    pub pitch_range: Single,
    /// Middle pause in milliseconds.
    pub middle_pause: u32,
    /// Long pause in milliseconds.
    pub long_pause: u32,
    /// The styles of the voice, in order.
    pub styles: Vec<Style>,
    /// What the voice is fused from.
    pub merged_voice_container: MergedVoiceContainer,
}

/// A style as a value: its name as a sequence of characters.
pub struct StyleView {
    pub name: Seq<char>,
    pub value: Double,
}

/// A merged voice as a value.
pub struct MergedVoiceView {
    pub voice_name: Seq<char>,
}

/// A merged voice container as a value.
pub struct MergedVoiceContainerView {
    pub base_pitch_voice_name: Seq<char>,
    pub merged_voices: Seq<MergedVoiceView>,
}

/// A voice preset as a value.
pub struct VoicePresetView {
    pub preset_name: Seq<char>,
    pub voice_name: Seq<char>,
    pub volume: Single,
    pub speed: Single,
    pub pitch: Single,
    pub pitch_range: Single,
    pub middle_pause: u32,
    pub long_pause: u32,
    pub styles: Seq<StyleView>,
    pub merged_voice_container: MergedVoiceContainerView,
}

impl View for Style {
    type V = StyleView;

    open spec fn view(&self) -> StyleView {
        StyleView { name: self.name@, value: self.value }
    }
}

impl View for MergedVoice {
    type V = MergedVoiceView;

    open spec fn view(&self) -> MergedVoiceView {
        MergedVoiceView { voice_name: self.voice_name@ }
    }
}

impl View for MergedVoiceContainer {
    type V = MergedVoiceContainerView;

    open spec fn view(&self) -> MergedVoiceContainerView {
        MergedVoiceContainerView {
            base_pitch_voice_name: self.base_pitch_voice_name@,
            merged_voices: self.merged_voices@.map_values(|voice: MergedVoice| voice@),
        }
    }
}

impl View for VoicePreset {
    type V = VoicePresetView;

    open spec fn view(&self) -> VoicePresetView {
        VoicePresetView {
            preset_name: self.preset_name@,
            voice_name: self.voice_name@,
            volume: self.volume,
            speed: self.speed,
            pitch: self.pitch,
            pitch_range: self.pitch_range,
            middle_pause: self.middle_pause,
            long_pause: self.long_pause,
            styles: self.styles@.map_values(|style: Style| style@),
            merged_voice_container: self.merged_voice_container@,
        }
    }
}

/// The least value of every bounded level setting, 0.0.
pub open spec fn level_min() -> Single {
    Single { bits: LEVEL_MIN_BITS }
}

/// The greatest volume, 5.0.
pub open spec fn volume_max() -> Single {
    Single { bits: VOLUME_MAX_BITS }
}

/// The greatest speed, 4.0.
pub open spec fn speed_max() -> Single {
    Single { bits: SPEED_MAX_BITS }
}

/// The greatest pitch, 2.0.
pub open spec fn pitch_max() -> Single {
    Single { bits: PITCH_MAX_BITS }
}

/// The greatest pitch range, 2.0.
pub open spec fn pitch_range_max() -> Single {
    Single { bits: PITCH_RANGE_MAX_BITS }
}

/// The smaller of a pause and its limit.
pub open spec fn pause_clamped(pause: u32, limit: u32) -> u32 {
    if pause > limit {
        limit
    } else {
        pause
    }
}

impl MasterControl {
    /// The settings with every field saturated into its range.
    pub open spec fn clamped(self) -> MasterControl {
        MasterControl {
            volume: self.volume.clamp_to(level_min(), volume_max()),
            speed: self.speed.clamp_to(level_min(), speed_max()),
            pitch: self.pitch.clamp_to(level_min(), pitch_max()),
            pitch_range: self.pitch_range.clamp_to(level_min(), pitch_range_max()),
            middle_pause: pause_clamped(self.middle_pause, MIDDLE_PAUSE_MAX),
            long_pause: pause_clamped(self.long_pause, LONG_PAUSE_MAX),
            sentence_pause: pause_clamped(self.sentence_pause, SENTENCE_PAUSE_MAX),
        }
    }

    /// Whether every field lies in its range.
    pub open spec fn in_range(self) -> bool {
        &&& self.volume.within(level_min(), volume_max())
        &&& self.speed.within(level_min(), speed_max())
        &&& self.pitch.within(level_min(), pitch_max())
        &&& self.pitch_range.within(level_min(), pitch_range_max())
        &&& self.middle_pause <= MIDDLE_PAUSE_MAX
        &&& self.long_pause <= LONG_PAUSE_MAX
        &&& self.sentence_pause <= SENTENCE_PAUSE_MAX
    }
}

/// Saturates a pause at its limit.
fn clamp_pause(pause: u32, limit: u32) -> (clamped: u32)
    ensures
        clamped == pause_clamped(pause, limit),
{
    if pause > limit {
        limit
    } else {
        pause
    }
}

/// Saturates every field of the settings into its range: volume into
/// [0.0, 5.0], speed into [0.0, 4.0], pitch and pitch range into
/// [0.0, 2.0], the middle pause into [0, 500], the long pause into
/// [0, 2000] and the sentence pause into [0, 10000]. A value out of range
/// becomes the nearest bound, and a level that is a NaN becomes 0.0.
/// Nothing is rejected, and the result lies in range for every input.
pub fn clamp_master_control(input: &MasterControl) -> (output: MasterControl)
    ensures
        output == input.clamped(),
        output.in_range(),
        input.in_range() ==> output == *input,
{
    let low = Single::from_bits(LEVEL_MIN_BITS);
    MasterControl {
        volume: input.volume.clamp(low, Single::from_bits(VOLUME_MAX_BITS)),
        speed: input.speed.clamp(low, Single::from_bits(SPEED_MAX_BITS)),
        pitch: input.pitch.clamp(low, Single::from_bits(PITCH_MAX_BITS)),
        pitch_range: input.pitch_range.clamp(low, Single::from_bits(PITCH_RANGE_MAX_BITS)),
        middle_pause: clamp_pause(input.middle_pause, MIDDLE_PAUSE_MAX),
        long_pause: clamp_pause(input.long_pause, LONG_PAUSE_MAX),
        sentence_pause: clamp_pause(input.sentence_pause, SENTENCE_PAUSE_MAX),
    }
}

/// Clamping is idempotent: clamped settings clamp to themselves.
pub proof fn lemma_clamp_master_control_idempotent(settings: MasterControl)
    ensures
        settings.clamped().clamped() == settings.clamped(),
{
}

/// Clamping is total: clamped settings lie in range, whatever the
/// settings were.
pub proof fn lemma_clamp_master_control_in_range(settings: MasterControl)
    ensures
        settings.clamped().in_range(),
{
}

/// Settings that lie in range are left as they are.
pub proof fn lemma_clamp_master_control_fixes_range(settings: MasterControl)
    requires
        settings.in_range(),
    ensures
        settings.clamped() == settings,
{
}

} // verus!
