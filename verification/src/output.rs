use vstd::prelude::*;

use crate::bits::{
    field, flag, le_value4, lemma_field_reads_back, lemma_shift_zero, lemma_u32_le_bytes_value,
    push_u32_le, u32_le_bytes, with_field, with_flag,
};

verus! {

/// Force feedback component of [DualSenseOutput]
#[derive(Debug, Clone, Copy)]
pub struct TriggerFFB {
    /// Force feedback mode for more info on this variable see the various functions for this struct
    pub mode: u8,
    /// Depending on [TriggerFFB::mode] representing different forces or positions
    pub parameters: [u8; 10],
}

/// Ten effect parameters: the three given, then zeros.
pub open spec fn ffb_parameters(p0: u8, p1: u8, p2: u8) -> Seq<u8> {
    seq![p0, p1, p2, 0u8, 0u8, 0u8, 0u8, 0u8, 0u8, 0u8]
}

/// The effect with every byte zero: no force feedback.
pub open spec fn ffb_off() -> TriggerFFB {
    TriggerFFB { mode: 0, parameters: vstd::array::spec_array_fill_for_copy_type::<u8, 10>(0) }
}

/// The value no greater than `max` that is closest to `v`.
pub open spec fn at_most(v: u8, max: u8) -> u8 {
    if v <= max {
        v
    } else {
        max
    }
}

impl PartialEq for TriggerFFB {
    fn eq(&self, other: &Self) -> (r: bool) {
        if self.mode != other.mode {
            return false;
        }
        let mut i: usize = 0;
        while i < 10
            invariant
                i <= 10,
                forall|j: int| 0 <= j < i ==> self.parameters[j] == other.parameters[j],
            decreases 10 - i,
        {
            if self.parameters[i] != other.parameters[i] {
                return false;
            }
            i = i + 1;
        }
        proof {
            broadcast use vstd::array::group_array_axioms;

            assert(self.parameters =~= other.parameters);
        }
        true
    }
}

impl vstd::std_specs::cmp::PartialEqSpecImpl for TriggerFFB {
    open spec fn obeys_eq_spec() -> bool {
        true
    }

    open spec fn eq_spec(&self, other: &TriggerFFB) -> bool {
        *self == *other
    }
}

impl Eq for TriggerFFB {

}

impl TriggerFFB {
    /// Effect with the given mode and the three leading parameters, the rest zero.
    fn with_mode(mode: u8, p0: u8, p1: u8, p2: u8) -> (r: Self)
        ensures
            r.mode == mode,
            r.parameters@ == ffb_parameters(p0, p1, p2),
    {
        let mut effect = TriggerFFB { mode, parameters: [0u8; 10] };
        effect.parameters[0] = p0;
        effect.parameters[1] = p1;
        effect.parameters[2] = p2;
        proof {
            broadcast use vstd::array::group_array_axioms;

            assert(effect.parameters@ =~= ffb_parameters(p0, p1, p2));
        }
        effect
    }

    /// No force feedback
    pub fn off() -> (r: Self)
        ensures
            r == ffb_off(),
            r.parameters@ == ffb_parameters(0, 0, 0),
    {
        let r = Self::with_mode(0x00, 0, 0, 0);
        proof {
            broadcast use vstd::array::group_array_axioms;

            assert(r.parameters =~= ffb_off().parameters);
        }
        r
    }

    /// Initialize with feedback mode
    pub fn feedback(start_position: u8, strength: u8) -> (r: Self)
        ensures
            r.mode == 0x01,
            r.parameters@ == ffb_parameters(start_position, strength, 0),
    {
        Self::with_mode(0x01, start_position, strength, 0)
    }

    /// Initialize with weapon mode
    /// If start > end there will only be a short impulse at end
    pub fn weapon(start: u8, end: u8, strength: u8) -> (r: Self)
        ensures
            r.mode == 0x02,
            r.parameters@ == ffb_parameters(start, end, strength),
    {
        Self::with_mode(0x02, start, end, strength)
    }

    /// Fully disengages the force feedback motor and turns off force feedback
    pub fn disengage() -> (r: Self)
        ensures
            r.mode == 0x05,
            r.parameters@ == ffb_parameters(0, 0, 0),
    {
        Self::with_mode(0x05, 0, 0, 0)
    }

    /// Vibration mode. Frequency is in Hertz up to a certain point and then loses granularity and
    /// accuracy. vibration_strength is clamped between 0 and 63
    pub fn vibration(start: u8, frequency: u8, vibration_strength: u8) -> (r: Self)
        ensures
            r.mode == 0x06,
            r.parameters@ == ffb_parameters(frequency, at_most(vibration_strength, 63), start),
    {
        let strength = if vibration_strength > 63 {
            63
        } else {
            vibration_strength
        };
        Self::with_mode(0x06, frequency, strength, start)
    }

    /// Bow trigger effect. Only the lower 3 bits of strength and snap_force are used.
    /// All other bits are masked out.
    pub fn bow(start: u8, end: u8, strength: u8, snap_force: u8) -> (r: Self)
        ensures
            r.mode == 0x22,
            r.parameters@ == ffb_parameters(
                start,
                end,
                ((strength % 8) + 8 * (snap_force % 8)) as u8,
            ),
    {
        // lower 3 bits are strength, bits 3..=5 are snap_force
        let packed = (strength & 0x07) | ((snap_force & 0x07) << 3);
        assert((strength & 0x07) | ((snap_force & 0x07) << 3) == (strength % 8) + 8 * (snap_force
            % 8)) by (bit_vector);
        Self::with_mode(0x22, start, end, packed)
    }
}

impl Default for TriggerFFB {
    fn default() -> (r: Self)
        ensures
            r == ffb_off(),
    {
        Self::off()
    }
}

/// The eleven bytes of a trigger effect: mode, then parameters.
pub open spec fn ffb_bytes(t: TriggerFFB) -> Seq<u8> {
    seq![t.mode] + t.parameters@
}

/// Default `flags_1`: every flag of the byte set (rumble emulation, rumble
/// instead of haptics, both trigger effects, headphone, speaker and mic volume,
/// audio control).
pub const DEFAULT_FLAGS_1: u8 = 0xFF;

/// Default `flags_2`: every flag but "reset lights" (mute light, audio mute,
/// LED color, player indicators, haptic low pass filter, motor power level,
/// audio control).
pub const DEFAULT_FLAGS_2: u8 = 0xF7;

/// Default `flags_3`: light brightness change, color fade animation and improved
/// rumble emulation allowed.
pub const DEFAULT_FLAGS_3: u8 = 0x07;

/// The bits of `flags_3` that name a flag.
pub const FLAGS_3_KNOWN: u8 = 0x07;

/// Length in bytes of an output report's body.
pub const OUTPUT_REPORT_LEN: usize = 47;

/// What an output report holds, field by field, as plain values.
pub ghost struct OutputModel {
    pub flags_1: u8,
    pub flags_2: u8,
    pub rumble_right: u8,
    pub rumble_left: u8,
    pub volume_headphones: u8,
    pub volume_speaker: u8,
    pub volume_mic: u8,
    pub audio_control_flags_1: u8,
    pub mute_light_mode: u8,
    pub power_save_mute_control: u8,
    pub right_trigger_ffb: TriggerFFB,
    pub left_trigger_ffb: TriggerFFB,
    pub host_time_stamp: u32,
    pub motor_power_level: u8,
    pub audio_control_flags_2: u8,
    pub flags_3: u8,
    pub haptic_low_pass_filter: u8,
    pub unknown: u8,
    pub light_fade_animation: u8,
    pub light_brightness: u8,
    pub player_light_flags: u8,
    pub lightbar_red: u8,
    pub lightbar_green: u8,
    pub lightbar_blue: u8,
}

/// The bytes of an output report body, in the order the controller reads them;
/// the host time stamp is little-endian.
pub open spec fn output_bytes(m: OutputModel) -> Seq<u8> {
    seq![
        m.flags_1,
        m.flags_2,
        m.rumble_right,
        m.rumble_left,
        m.volume_headphones,
        m.volume_speaker,
        m.volume_mic,
        m.audio_control_flags_1,
        m.mute_light_mode,
        m.power_save_mute_control,
    ] + ffb_bytes(m.right_trigger_ffb) + ffb_bytes(m.left_trigger_ffb) + u32_le_bytes(
        m.host_time_stamp,
    ) + seq![
        m.motor_power_level,
        m.audio_control_flags_2,
        m.flags_3,
        m.haptic_low_pass_filter,
        m.unknown,
        m.light_fade_animation,
        m.light_brightness,
        m.player_light_flags,
        m.lightbar_red,
        m.lightbar_green,
        m.lightbar_blue,
    ]
}

impl OutputModel {
    /// The output state that [`DualSenseOutput::new`] builds: default flags, echo
    /// and noise cancelling on, both trigger effects off, everything else zero.
    pub open spec fn initial() -> OutputModel {
        OutputModel {
            flags_1: DEFAULT_FLAGS_1,
            flags_2: DEFAULT_FLAGS_2,
            audio_control_flags_1: 0x0C,
            flags_3: DEFAULT_FLAGS_3,
            ..OutputModel::zeroed()
        }
    }

    /// Every byte zero.
    pub open spec fn zeroed() -> OutputModel {
        OutputModel {
            flags_1: 0,
            flags_2: 0,
            rumble_right: 0,
            rumble_left: 0,
            volume_headphones: 0,
            volume_speaker: 0,
            volume_mic: 0,
            audio_control_flags_1: 0,
            mute_light_mode: 0,
            power_save_mute_control: 0,
            right_trigger_ffb: ffb_off(),
            left_trigger_ffb: ffb_off(),
            host_time_stamp: 0,
            motor_power_level: 0,
            audio_control_flags_2: 0,
            flags_3: 0,
            haptic_low_pass_filter: 0,
            unknown: 0,
            light_fade_animation: 0,
            light_brightness: 0,
            player_light_flags: 0,
            lightbar_red: 0,
            lightbar_green: 0,
            lightbar_blue: 0,
        }
    }
}

} // verus!

verus! {

/// Main struct for writing output to the controller.
///
/// Controls rumble motors, the RGB lightbar, audio volumes, trigger force feedback,
/// player indicator LEDs, and power save flags.
#[derive(Debug, Clone, Copy)]
pub struct DualSenseOutput {
    // EnableRumbleEmulation UseRumbleNoHaptics AllowRightTriggerFFB AllowLeftTriggerFFB
    // AllowHeadphoneVolume AllowSpeakerVolume AllowMicVolume AllowAudioControl
    pub(crate) flags_1: u8,
    // AllowMuteLight AllowAudioMute AllowLEDColor ResetLights AllowPlayerIndicators
    // AllowHapticLowPassFilter AllowMotorPowerLevel AllowAudioControl2
    pub(crate) flags_2: u8,
    /// strength of the right side rumble motor
    pub rumble_right: u8,
    /// strength of the left side rumble motor
    pub rumble_left: u8,
    /// Headphone volume
    pub volume_headphones: u8,
    /// Speaker volume
    pub volume_speaker: u8,
    /// Microphone volume
    pub volume_mic: u8,
    // MicSelect2 EchoCancelEnable1 NoiseCancelEnable1 OutputPathSelect2 InputPathSelect2
    pub(crate) audio_control_flags_1: u8,
    pub(crate) mute_light_mode: u8,
    // PowerSave(Touch Motion Haptic Audio) Mute(Mic Speaker Headphone Haptic)
    pub(crate) power_save_mute_control: u8,
    /// Force feedback for the right trigger
    pub right_trigger_ffb: TriggerFFB,
    /// Force feedback for the left trigger
    pub left_trigger_ffb: TriggerFFB,
    /// Host timestamp value
    pub host_time_stamp: u32,
    /// TriggerMotorPowerReduction4 RumbleMotorPowerReduction4
    /// In 12.5% steps; both values only have range 0-7
    pub motor_power_level: u8,
    /// SpeakerCompPreGain3 BeamformingEnable1 Unknown4
    pub audio_control_flags_2: u8,
    /// AllowLightBrightnessChange1 AllowColorLightFadeAnimation1
    /// EnableImprovedRumbleEmulation1 Unused5
    pub flags_3: u8,
    /// HapticLowPassFilter1 Unknown7
    pub haptic_low_pass_filter: u8,
    unknown: u8,
    /// Value to controll light animations
    pub light_fade_animation: u8,
    /// Brightness of the RGB LED
    pub light_brightness: u8,
    /// Value to controll the lit areas on the light strip
    pub player_light_flags: u8,
    /// RGB LED red component
    pub lightbar_red: u8,
    /// RGB LED green component
    pub lightbar_green: u8,
    /// RGB LED blue component
    pub lightbar_blue: u8,
}

impl View for DualSenseOutput {
    type V = OutputModel;

    closed spec fn view(&self) -> OutputModel {
        OutputModel {
            flags_1: self.flags_1,
            flags_2: self.flags_2,
            rumble_right: self.rumble_right,
            rumble_left: self.rumble_left,
            volume_headphones: self.volume_headphones,
            volume_speaker: self.volume_speaker,
            volume_mic: self.volume_mic,
            audio_control_flags_1: self.audio_control_flags_1,
            mute_light_mode: self.mute_light_mode,
            power_save_mute_control: self.power_save_mute_control,
            right_trigger_ffb: self.right_trigger_ffb,
            left_trigger_ffb: self.left_trigger_ffb,
            host_time_stamp: self.host_time_stamp,
            motor_power_level: self.motor_power_level,
            audio_control_flags_2: self.audio_control_flags_2,
            flags_3: self.flags_3,
            haptic_low_pass_filter: self.haptic_low_pass_filter,
            unknown: self.unknown,
            light_fade_animation: self.light_fade_animation,
            light_brightness: self.light_brightness,
            player_light_flags: self.player_light_flags,
            lightbar_red: self.lightbar_red,
            lightbar_green: self.lightbar_green,
            lightbar_blue: self.lightbar_blue,
        }
    }
}

impl PartialEq for DualSenseOutput {
    fn eq(&self, other: &Self) -> (r: bool) {
        self.flags_1 == other.flags_1 && self.flags_2 == other.flags_2 && self.rumble_right
            == other.rumble_right && self.rumble_left == other.rumble_left
            && self.volume_headphones == other.volume_headphones && self.volume_speaker
            == other.volume_speaker && self.volume_mic == other.volume_mic
            && self.audio_control_flags_1 == other.audio_control_flags_1 && self.mute_light_mode
            == other.mute_light_mode && self.power_save_mute_control
            == other.power_save_mute_control && self.right_trigger_ffb.eq(&other.right_trigger_ffb)
            && self.left_trigger_ffb.eq(&other.left_trigger_ffb) && self.host_time_stamp
            == other.host_time_stamp && self.motor_power_level == other.motor_power_level
            && self.audio_control_flags_2 == other.audio_control_flags_2 && self.flags_3
            == other.flags_3 && self.haptic_low_pass_filter == other.haptic_low_pass_filter
            && self.unknown == other.unknown && self.light_fade_animation
            == other.light_fade_animation && self.light_brightness == other.light_brightness
            && self.player_light_flags == other.player_light_flags && self.lightbar_red
            == other.lightbar_red && self.lightbar_green == other.lightbar_green
            && self.lightbar_blue == other.lightbar_blue
    }
}

impl vstd::std_specs::cmp::PartialEqSpecImpl for DualSenseOutput {
    open spec fn obeys_eq_spec() -> bool {
        true
    }

    open spec fn eq_spec(&self, other: &DualSenseOutput) -> bool {
        self@ == other@
    }
}

impl Eq for DualSenseOutput {

}

impl DualSenseOutput {
    /// An output report with every byte zero.
    pub fn new_zeroed() -> (r: Self)
        ensures
            r@ == OutputModel::zeroed(),
    {
        DualSenseOutput {
            flags_1: 0,
            flags_2: 0,
            rumble_right: 0,
            rumble_left: 0,
            volume_headphones: 0,
            volume_speaker: 0,
            volume_mic: 0,
            audio_control_flags_1: 0,
            mute_light_mode: 0,
            power_save_mute_control: 0,
            right_trigger_ffb: TriggerFFB::off(),
            left_trigger_ffb: TriggerFFB::off(),
            host_time_stamp: 0,
            motor_power_level: 0,
            audio_control_flags_2: 0,
            flags_3: 0,
            haptic_low_pass_filter: 0,
            unknown: 0,
            light_fade_animation: 0,
            light_brightness: 0,
            player_light_flags: 0,
            lightbar_red: 0,
            lightbar_green: 0,
            lightbar_blue: 0,
        }
    }

    /// Construct a validated default DualSenseOutput. Use when callers want explicit defaults
    /// and clamped motor power values.
    pub fn new() -> (r: Self)
        ensures
            r@ == OutputModel::initial(),
    {
        let mut s = DualSenseOutput {
            flags_1: DEFAULT_FLAGS_1,
            flags_2: DEFAULT_FLAGS_2,
            rumble_right: 0,
            rumble_left: 0,
            volume_headphones: 0,
            volume_speaker: 0,
            volume_mic: 0,
            audio_control_flags_1: 0b00001100,  // Echo/Noise cancel defaults
            mute_light_mode: 0,
            power_save_mute_control: 0,
            right_trigger_ffb: TriggerFFB::off(),
            left_trigger_ffb: TriggerFFB::off(),
            host_time_stamp: 0,
            motor_power_level: 0,
            audio_control_flags_2: 0,
            flags_3: DEFAULT_FLAGS_3,
            haptic_low_pass_filter: 0,
            unknown: 0,
            light_fade_animation: 0,
            light_brightness: 0,
            player_light_flags: 0,
            lightbar_red: 0,
            lightbar_green: 0,
            lightbar_blue: 0,
        };
        // Initialize motor power with the clamping setters (0..=7 per nibble)
        s.set_trigger_motor_power_reduction(0);
        s.set_rumble_motor_power_reduction(0);
        assert(with_field(with_field(0, 0, 0x0F, 0), 4, 0x0F, 0) == 0) by (bit_vector);
        s
    }

    /// Set trigger motor power reduction (`0..=7`). Value is clamped.
    pub fn set_trigger_motor_power_reduction(&mut self, v: u8)
        ensures
            final(self)@ == (OutputModel {
                motor_power_level: with_field(old(self)@.motor_power_level, 0, 0x0F, at_most(v, 7)),
                ..old(self)@
            }),
    {
        let t = if v > 7 {
            7
        } else {
            v
        };
        proof {
            lemma_shift_zero(0x0F);
            lemma_shift_zero(t & 0x0F);
        }
        self.motor_power_level = (self.motor_power_level & !0x0F) | (t & 0x0F);
    }

    /// Get trigger motor power reduction (`0..=7`).
    /// A nibble above 7 reads as 7.
    pub fn get_trigger_motor_power_reduction(&self) -> (r: u8)
        ensures
            r == at_most(field(self@.motor_power_level, 0, 0x0F), 7),
            r <= 7,
    {
        proof {
            lemma_shift_zero(self.motor_power_level);
        }
        let t = self.motor_power_level & 0x0F;
        if t > 7 {
            7
        } else {
            t
        }
    }

    /// Set rumble motor power reduction (`0..=7`). Value is clamped.
    pub fn set_rumble_motor_power_reduction(&mut self, v: u8)
        ensures
            final(self)@ == (OutputModel {
                motor_power_level: with_field(old(self)@.motor_power_level, 4, 0x0F, at_most(v, 7)),
                ..old(self)@
            }),
    {
        let r = if v > 7 {
            7
        } else {
            v
        };
        self.motor_power_level = (self.motor_power_level & !(0x0F << 4)) | ((r & 0x0F) << 4);
    }

    /// Get rumble motor power reduction (`0..=7`).
    /// A nibble above 7 reads as 7.
    pub fn get_rumble_motor_power_reduction(&self) -> (r: u8)
        ensures
            r == at_most(field(self@.motor_power_level, 4, 0x0F), 7),
            r <= 7,
    {
        let r = (self.motor_power_level >> 4) & 0x0F;
        if r > 7 {
            7
        } else {
            r
        }
    }

    /// Sets the force feedback effect of the right trigger.
    pub fn set_right_trigger_ffb(&mut self, effect: TriggerFFB)
        ensures
            final(self)@ == (OutputModel { right_trigger_ffb: effect, ..old(self)@ }),
    {
        self.right_trigger_ffb = effect;
    }

    /// Sets the force feedback effect of the left trigger.
    pub fn set_left_trigger_ffb(&mut self, effect: TriggerFFB)
        ensures
            final(self)@ == (OutputModel { left_trigger_ffb: effect, ..old(self)@ }),
    {
        self.left_trigger_ffb = effect;
    }

    /// The raw `flags_1` byte.
    pub fn flags1(&self) -> (r: u8)
        ensures
            r == self@.flags_1,
    {
        self.flags_1
    }

    /// The raw `flags_2` byte.
    pub fn flags2(&self) -> (r: u8)
        ensures
            r == self@.flags_2,
    {
        self.flags_2
    }

    /// The raw `flags_3` byte.
    pub fn flags3(&self) -> (r: u8)
        ensures
            r == self@.flags_3,
    {
        self.flags_3
    }

    /// Returns true if rumble emulation is enabled.
    pub fn enable_rumble_emulation(&self) -> (r: bool)
        ensures
            r == flag(self@.flags_1, 0x01),
    {
        (self.flags_1 & 0x01) != 0
    }

    /// Enables or disables rumble emulation.
    pub fn set_enable_rumble_emulation(&mut self, on: bool)
        ensures
            final(self)@ == (OutputModel { flags_1: with_flag(old(self)@.flags_1, 0x01, on), ..old(self)@ }),
    {
        self.flags_1 = if on {
            self.flags_1 | 0x01
        } else {
            self.flags_1 & !0x01
        };
    }

    /// Returns true if rumble motors are used instead of haptics.
    pub fn use_rumble_no_haptics(&self) -> (r: bool)
        ensures
            r == flag(self@.flags_1, 0x02),
    {
        (self.flags_1 & 0x02) != 0
    }

    /// Sets whether rumble motors are used instead of haptic actuators.
    pub fn set_use_rumble_no_haptics(&mut self, on: bool)
        ensures
            final(self)@ == (OutputModel { flags_1: with_flag(old(self)@.flags_1, 0x02, on), ..old(self)@ }),
    {
        self.flags_1 = if on {
            self.flags_1 | 0x02
        } else {
            self.flags_1 & !0x02
        };
    }

    /// Returns true if force feedback is allowed for the right trigger.
    pub fn allow_right_trigger_ffb(&self) -> (r: bool)
        ensures
            r == flag(self@.flags_1, 0x04),
    {
        (self.flags_1 & 0x04) != 0
    }

    /// Enables or disables force feedback updates for the right trigger.
    pub fn set_allow_right_trigger_ffb(&mut self, on: bool)
        ensures
            final(self)@ == (OutputModel { flags_1: with_flag(old(self)@.flags_1, 0x04, on), ..old(self)@ }),
    {
        self.flags_1 = if on {
            self.flags_1 | 0x04
        } else {
            self.flags_1 & !0x04
        };
    }

    /// Returns true if force feedback is allowed for the left trigger.
    pub fn allow_left_trigger_ffb(&self) -> (r: bool)
        ensures
            r == flag(self@.flags_1, 0x08),
    {
        (self.flags_1 & 0x08) != 0
    }

    /// Enables or disables force feedback updates for the left trigger.
    pub fn set_allow_left_trigger_ffb(&mut self, on: bool)
        ensures
            final(self)@ == (OutputModel { flags_1: with_flag(old(self)@.flags_1, 0x08, on), ..old(self)@ }),
    {
        self.flags_1 = if on {
            self.flags_1 | 0x08
        } else {
            self.flags_1 & !0x08
        };
    }

    /// Returns true if headphone volume updates are allowed.
    pub fn allow_headphone_volume(&self) -> (r: bool)
        ensures
            r == flag(self@.flags_1, 0x10),
    {
        (self.flags_1 & 0x10) != 0
    }

    /// Enables or disables headphone volume updates.
    pub fn set_allow_headphone_volume(&mut self, on: bool)
        ensures
            final(self)@ == (OutputModel { flags_1: with_flag(old(self)@.flags_1, 0x10, on), ..old(self)@ }),
    {
        self.flags_1 = if on {
            self.flags_1 | 0x10
        } else {
            self.flags_1 & !0x10
        };
    }

    /// Returns true if built-in speaker volume updates are allowed.
    pub fn allow_speaker_volume(&self) -> (r: bool)
        ensures
            r == flag(self@.flags_1, 0x20),
    {
        (self.flags_1 & 0x20) != 0
    }

    /// Enables or disables built-in speaker volume updates.
    pub fn set_allow_speaker_volume(&mut self, on: bool)
        ensures
            final(self)@ == (OutputModel { flags_1: with_flag(old(self)@.flags_1, 0x20, on), ..old(self)@ }),
    {
        self.flags_1 = if on {
            self.flags_1 | 0x20
        } else {
            self.flags_1 & !0x20
        };
    }

    /// Returns true if microphone volume updates are allowed.
    pub fn allow_mic_volume(&self) -> (r: bool)
        ensures
            r == flag(self@.flags_1, 0x40),
    {
        (self.flags_1 & 0x40) != 0
    }

    /// Enables or disables microphone volume updates.
    pub fn set_allow_mic_volume(&mut self, on: bool)
        ensures
            final(self)@ == (OutputModel { flags_1: with_flag(old(self)@.flags_1, 0x40, on), ..old(self)@ }),
    {
        self.flags_1 = if on {
            self.flags_1 | 0x40
        } else {
            self.flags_1 & !0x40
        };
    }

    /// Returns true if audio control register group 1 is allowed.
    pub fn allow_audio_control_1(&self) -> (r: bool)
        ensures
            r == flag(self@.flags_1, 0x80),
    {
        (self.flags_1 & 0x80) != 0
    }

    /// Enables or disables audio control register group 1 updates.
    pub fn set_allow_audio_control_1(&mut self, on: bool)
        ensures
            final(self)@ == (OutputModel { flags_1: with_flag(old(self)@.flags_1, 0x80, on), ..old(self)@ }),
    {
        self.flags_1 = if on {
            self.flags_1 | 0x80
        } else {
            self.flags_1 & !0x80
        };
    }

    /// Returns true if mute button LED updates are allowed.
    pub fn allow_mute_light(&self) -> (r: bool)
        ensures
            r == flag(self@.flags_2, 0x01),
    {
        (self.flags_2 & 0x01) != 0
    }

    /// Enables or disables mute button LED updates.
    pub fn set_allow_mute_light(&mut self, on: bool)
        ensures
            final(self)@ == (OutputModel { flags_2: with_flag(old(self)@.flags_2, 0x01, on), ..old(self)@ }),
    {
        self.flags_2 = if on {
            self.flags_2 | 0x01
        } else {
            self.flags_2 & !0x01
        };
    }

    /// Returns true if audio mute flag updates are allowed.
    pub fn allow_audio_mute(&self) -> (r: bool)
        ensures
            r == flag(self@.flags_2, 0x02),
    {
        (self.flags_2 & 0x02) != 0
    }

    /// Enables or disables audio mute flag updates.
    pub fn set_allow_audio_mute(&mut self, on: bool)
        ensures
            final(self)@ == (OutputModel { flags_2: with_flag(old(self)@.flags_2, 0x02, on), ..old(self)@ }),
    {
        self.flags_2 = if on {
            self.flags_2 | 0x02
        } else {
            self.flags_2 & !0x02
        };
    }

    /// Returns true if RGB LED lightbar updates are allowed.
    pub fn allow_led_color(&self) -> (r: bool)
        ensures
            r == flag(self@.flags_2, 0x04),
    {
        (self.flags_2 & 0x04) != 0
    }

    /// Enables or disables RGB LED lightbar updates.
    pub fn set_allow_led_color(&mut self, on: bool)
        ensures
            final(self)@ == (OutputModel { flags_2: with_flag(old(self)@.flags_2, 0x04, on), ..old(self)@ }),
    {
        self.flags_2 = if on {
            self.flags_2 | 0x04
        } else {
            self.flags_2 & !0x04
        };
    }

    /// Returns true if reset lights flag is set.
    pub fn reset_lights(&self) -> (r: bool)
        ensures
            r == flag(self@.flags_2, 0x08),
    {
        (self.flags_2 & 0x08) != 0
    }

    /// Enables or disables light reset.
    pub fn set_reset_lights(&mut self, on: bool)
        ensures
            final(self)@ == (OutputModel { flags_2: with_flag(old(self)@.flags_2, 0x08, on), ..old(self)@ }),
    {
        self.flags_2 = if on {
            self.flags_2 | 0x08
        } else {
            self.flags_2 & !0x08
        };
    }

    /// Returns true if player indicator LED updates are allowed.
    pub fn allow_player_indicators(&self) -> (r: bool)
        ensures
            r == flag(self@.flags_2, 0x10),
    {
        (self.flags_2 & 0x10) != 0
    }

    /// Enables or disables player indicator LED updates.
    pub fn set_allow_player_indicators(&mut self, on: bool)
        ensures
            final(self)@ == (OutputModel { flags_2: with_flag(old(self)@.flags_2, 0x10, on), ..old(self)@ }),
    {
        self.flags_2 = if on {
            self.flags_2 | 0x10
        } else {
            self.flags_2 & !0x10
        };
    }

    /// Returns true if haptic low pass filter flag updates are allowed.
    pub fn allow_haptic_low_pass_filter_flag(&self) -> (r: bool)
        ensures
            r == flag(self@.flags_2, 0x20),
    {
        (self.flags_2 & 0x20) != 0
    }

    /// Enables or disables haptic low pass filter flag updates.
    pub fn set_allow_haptic_low_pass_filter_flag(&mut self, on: bool)
        ensures
            final(self)@ == (OutputModel { flags_2: with_flag(old(self)@.flags_2, 0x20, on), ..old(self)@ }),
    {
        self.flags_2 = if on {
            self.flags_2 | 0x20
        } else {
            self.flags_2 & !0x20
        };
    }

    /// Returns true if motor power level flag updates are allowed.
    pub fn allow_motor_power_level_flag(&self) -> (r: bool)
        ensures
            r == flag(self@.flags_2, 0x40),
    {
        (self.flags_2 & 0x40) != 0
    }

    /// Enables or disables motor power level flag updates.
    pub fn set_allow_motor_power_level_flag(&mut self, on: bool)
        ensures
            final(self)@ == (OutputModel { flags_2: with_flag(old(self)@.flags_2, 0x40, on), ..old(self)@ }),
    {
        self.flags_2 = if on {
            self.flags_2 | 0x40
        } else {
            self.flags_2 & !0x40
        };
    }

    /// Returns true if audio control register group 2 is allowed.
    pub fn allow_audio_control_2(&self) -> (r: bool)
        ensures
            r == flag(self@.flags_2, 0x80),
    {
        (self.flags_2 & 0x80) != 0
    }

    /// Enables or disables audio control register group 2 updates.
    pub fn set_allow_audio_control_2(&mut self, on: bool)
        ensures
            final(self)@ == (OutputModel { flags_2: with_flag(old(self)@.flags_2, 0x80, on), ..old(self)@ }),
    {
        self.flags_2 = if on {
            self.flags_2 | 0x80
        } else {
            self.flags_2 & !0x80
        };
    }

    /// Returns true if echo cancellation is enabled.
    pub fn echo_cancel_enable(&self) -> (r: bool)
        ensures
            r == flag(self@.audio_control_flags_1, 0x04),
    {
        (self.audio_control_flags_1 & 0x04) != 0
    }

    /// Enables or disables echo cancellation.
    pub fn set_echo_cancel_enable(&mut self, on: bool)
        ensures
            final(self)@ == (OutputModel { audio_control_flags_1: with_flag(old(self)@.audio_control_flags_1, 0x04, on), ..old(self)@ }),
    {
        self.audio_control_flags_1 = if on {
            self.audio_control_flags_1 | 0x04
        } else {
            self.audio_control_flags_1 & !0x04
        };
    }

    /// Returns true if noise cancellation is enabled.
    pub fn noise_cancel_enable(&self) -> (r: bool)
        ensures
            r == flag(self@.audio_control_flags_1, 0x08),
    {
        (self.audio_control_flags_1 & 0x08) != 0
    }

    /// Enables or disables noise cancellation.
    pub fn set_noise_cancel_enable(&mut self, on: bool)
        ensures
            final(self)@ == (OutputModel { audio_control_flags_1: with_flag(old(self)@.audio_control_flags_1, 0x08, on), ..old(self)@ }),
    {
        self.audio_control_flags_1 = if on {
            self.audio_control_flags_1 | 0x08
        } else {
            self.audio_control_flags_1 & !0x08
        };
    }

    /// Returns true if power save mode for touchpad is enabled.
    pub fn power_save_touch(&self) -> (r: bool)
        ensures
            r == flag(self@.power_save_mute_control, 0x01),
    {
        (self.power_save_mute_control & 0x01) != 0
    }

    /// Enables or disables power save mode for touchpad.
    pub fn set_power_save_touch(&mut self, on: bool)
        ensures
            final(self)@ == (OutputModel { power_save_mute_control: with_flag(old(self)@.power_save_mute_control, 0x01, on), ..old(self)@ }),
    {
        self.power_save_mute_control = if on {
            self.power_save_mute_control | 0x01
        } else {
            self.power_save_mute_control & !0x01
        };
    }

    /// Returns true if power save mode for motion sensors is enabled.
    pub fn power_save_motion(&self) -> (r: bool)
        ensures
            r == flag(self@.power_save_mute_control, 0x02),
    {
        (self.power_save_mute_control & 0x02) != 0
    }

    /// Enables or disables power save mode for motion sensors.
    pub fn set_power_save_motion(&mut self, on: bool)
        ensures
            final(self)@ == (OutputModel { power_save_mute_control: with_flag(old(self)@.power_save_mute_control, 0x02, on), ..old(self)@ }),
    {
        self.power_save_mute_control = if on {
            self.power_save_mute_control | 0x02
        } else {
            self.power_save_mute_control & !0x02
        };
    }

    /// Returns true if power save mode for haptics is enabled.
    pub fn power_save_haptic(&self) -> (r: bool)
        ensures
            r == flag(self@.power_save_mute_control, 0x04),
    {
        (self.power_save_mute_control & 0x04) != 0
    }

    /// Enables or disables power save mode for haptics.
    pub fn set_power_save_haptic(&mut self, on: bool)
        ensures
            final(self)@ == (OutputModel { power_save_mute_control: with_flag(old(self)@.power_save_mute_control, 0x04, on), ..old(self)@ }),
    {
        self.power_save_mute_control = if on {
            self.power_save_mute_control | 0x04
        } else {
            self.power_save_mute_control & !0x04
        };
    }

    /// Returns true if power save mode for audio is enabled.
    pub fn power_save_audio(&self) -> (r: bool)
        ensures
            r == flag(self@.power_save_mute_control, 0x08),
    {
        (self.power_save_mute_control & 0x08) != 0
    }

    /// Enables or disables power save mode for audio.
    pub fn set_power_save_audio(&mut self, on: bool)
        ensures
            final(self)@ == (OutputModel { power_save_mute_control: with_flag(old(self)@.power_save_mute_control, 0x08, on), ..old(self)@ }),
    {
        self.power_save_mute_control = if on {
            self.power_save_mute_control | 0x08
        } else {
            self.power_save_mute_control & !0x08
        };
    }

    /// Returns true if the microphone is muted.
    pub fn mute_mic(&self) -> (r: bool)
        ensures
            r == flag(self@.power_save_mute_control, 0x10),
    {
        (self.power_save_mute_control & 0x10) != 0
    }

    /// Mutes or unmutes the microphone.
    pub fn set_mute_mic(&mut self, muted: bool)
        ensures
            final(self)@ == (OutputModel { power_save_mute_control: with_flag(old(self)@.power_save_mute_control, 0x10, muted), ..old(self)@ }),
    {
        self.power_save_mute_control = if muted {
            self.power_save_mute_control | 0x10
        } else {
            self.power_save_mute_control & !0x10
        };
    }

    /// Returns true if the built-in speaker is muted.
    pub fn mute_speaker(&self) -> (r: bool)
        ensures
            r == flag(self@.power_save_mute_control, 0x20),
    {
        (self.power_save_mute_control & 0x20) != 0
    }

    /// Mutes or unmutes the built-in speaker.
    pub fn set_mute_speaker(&mut self, muted: bool)
        ensures
            final(self)@ == (OutputModel { power_save_mute_control: with_flag(old(self)@.power_save_mute_control, 0x20, muted), ..old(self)@ }),
    {
        self.power_save_mute_control = if muted {
            self.power_save_mute_control | 0x20
        } else {
            self.power_save_mute_control & !0x20
        };
    }

    /// Returns true if the headphone output is muted.
    pub fn mute_headphone(&self) -> (r: bool)
        ensures
            r == flag(self@.power_save_mute_control, 0x40),
    {
        (self.power_save_mute_control & 0x40) != 0
    }

    /// Mutes or unmutes the headphone output.
    pub fn set_mute_headphone(&mut self, muted: bool)
        ensures
            final(self)@ == (OutputModel { power_save_mute_control: with_flag(old(self)@.power_save_mute_control, 0x40, muted), ..old(self)@ }),
    {
        self.power_save_mute_control = if muted {
            self.power_save_mute_control | 0x40
        } else {
            self.power_save_mute_control & !0x40
        };
    }

    /// Returns true if haptics are muted.
    pub fn mute_haptic(&self) -> (r: bool)
        ensures
            r == flag(self@.power_save_mute_control, 0x80),
    {
        (self.power_save_mute_control & 0x80) != 0
    }

    /// Mutes or unmutes haptics.
    pub fn set_mute_haptic(&mut self, on: bool)
        ensures
            final(self)@ == (OutputModel { power_save_mute_control: with_flag(old(self)@.power_save_mute_control, 0x80, on), ..old(self)@ }),
    {
        self.power_save_mute_control = if on {
            self.power_save_mute_control | 0x80
        } else {
            self.power_save_mute_control & !0x80
        };
    }

    /// Returns true if microphone beamforming is enabled.
    pub fn beamforming_enable(&self) -> (r: bool)
        ensures
            r == flag(self@.audio_control_flags_2, 0x08),
    {
        (self.audio_control_flags_2 & 0x08) != 0
    }

    /// Enables or disables microphone beamforming.
    pub fn set_beamforming_enable(&mut self, on: bool)
        ensures
            final(self)@ == (OutputModel { audio_control_flags_2: with_flag(old(self)@.audio_control_flags_2, 0x08, on), ..old(self)@ }),
    {
        self.audio_control_flags_2 = if on {
            self.audio_control_flags_2 | 0x08
        } else {
            self.audio_control_flags_2 & !0x08
        };
    }

    /// Returns true if lightbar brightness changes are allowed.
    pub fn allow_light_brightness_change(&self) -> (r: bool)
        ensures
            r == flag(self@.flags_3, 0x01),
    {
        (self.flags_3 & 0x01) != 0
    }

    /// Enables or disables lightbar brightness changes.
    /// Bits that name no flag of this byte are cleared.
    pub fn set_allow_light_brightness_change(&mut self, on: bool)
        ensures
            final(self)@ == (OutputModel {
                flags_3: with_flag(old(self)@.flags_3 & FLAGS_3_KNOWN, 0x01, on),
                ..old(self)@
            }),
    {
        let f = self.flags_3 & FLAGS_3_KNOWN;
        self.flags_3 = if on {
            f | 0x01
        } else {
            f & !0x01
        };
    }

    /// Returns true if color light fade animations are allowed.
    pub fn allow_color_light_fade_animation(&self) -> (r: bool)
        ensures
            r == flag(self@.flags_3, 0x02),
    {
        (self.flags_3 & 0x02) != 0
    }

    /// Enables or disables color light fade animations.
    /// Bits that name no flag of this byte are cleared.
    pub fn set_allow_color_light_fade_animation(&mut self, on: bool)
        ensures
            final(self)@ == (OutputModel {
                flags_3: with_flag(old(self)@.flags_3 & FLAGS_3_KNOWN, 0x02, on),
                ..old(self)@
            }),
    {
        let f = self.flags_3 & FLAGS_3_KNOWN;
        self.flags_3 = if on {
            f | 0x02
        } else {
            f & !0x02
        };
    }

    /// Returns true if improved rumble emulation is enabled.
    pub fn enable_improved_rumble_emulation(&self) -> (r: bool)
        ensures
            r == flag(self@.flags_3, 0x04),
    {
        (self.flags_3 & 0x04) != 0
    }

    /// Enables or disables improved rumble emulation.
    /// Bits that name no flag of this byte are cleared.
    pub fn set_enable_improved_rumble_emulation(&mut self, on: bool)
        ensures
            final(self)@ == (OutputModel {
                flags_3: with_flag(old(self)@.flags_3 & FLAGS_3_KNOWN, 0x04, on),
                ..old(self)@
            }),
    {
        let f = self.flags_3 & FLAGS_3_KNOWN;
        self.flags_3 = if on {
            f | 0x04
        } else {
            f & !0x04
        };
    }

    /// Returns true if the haptic low pass filter is enabled.
    pub fn haptic_low_pass_filter_enabled(&self) -> (r: bool)
        ensures
            r == flag(self@.haptic_low_pass_filter, 0x01),
    {
        (self.haptic_low_pass_filter & 0x01) != 0
    }

    /// Enables or disables the haptic low pass filter.
    pub fn set_haptic_low_pass_filter_enabled(&mut self, on: bool)
        ensures
            final(self)@ == (OutputModel { haptic_low_pass_filter: with_flag(old(self)@.haptic_low_pass_filter, 0x01, on), ..old(self)@ }),
    {
        self.haptic_low_pass_filter = if on {
            self.haptic_low_pass_filter | 0x01
        } else {
            self.haptic_low_pass_filter & !0x01
        };
    }

    /// Returns the microphone select setting (bits 0-1).
    pub fn mic_select(&self) -> (r: u8)
        ensures
            r == field(self@.audio_control_flags_1, 0, 0x03),
    {
        proof {
            lemma_shift_zero(self.audio_control_flags_1);
        }
        self.audio_control_flags_1 & 0x03
    }

    /// Sets the microphone select setting (bits 0-1).
    pub fn set_mic_select(&mut self, sel: u8)
        ensures
            final(self)@ == (OutputModel {
                audio_control_flags_1: with_field(old(self)@.audio_control_flags_1, 0, 0x03, sel),
                ..old(self)@
            }),
    {
        proof {
            lemma_shift_zero(0x03);
            lemma_shift_zero(sel & 0x03);
        }
        self.audio_control_flags_1 = (self.audio_control_flags_1 & !0x03) | (sel & 0x03);
    }

    /// Returns the audio output path selection (bits 4-5).
    pub fn output_path_select(&self) -> (r: u8)
        ensures
            r == field(self@.audio_control_flags_1, 4, 0x03),
    {
        (self.audio_control_flags_1 >> 4) & 0x03
    }

    /// Sets the audio output path selection (bits 4-5).
    pub fn set_output_path_select(&mut self, sel: u8)
        ensures
            final(self)@ == (OutputModel {
                audio_control_flags_1: with_field(old(self)@.audio_control_flags_1, 4, 0x03, sel),
                ..old(self)@
            }),
    {
        self.audio_control_flags_1 = (self.audio_control_flags_1 & !(0x03 << 4)) | ((sel & 0x03) << 4);
    }

    /// Returns the audio input path selection (bits 6-7).
    pub fn input_path_select(&self) -> (r: u8)
        ensures
            r == field(self@.audio_control_flags_1, 6, 0x03),
    {
        (self.audio_control_flags_1 >> 6) & 0x03
    }

    /// Sets the audio input path selection (bits 6-7).
    pub fn set_input_path_select(&mut self, sel: u8)
        ensures
            final(self)@ == (OutputModel {
                audio_control_flags_1: with_field(old(self)@.audio_control_flags_1, 6, 0x03, sel),
                ..old(self)@
            }),
    {
        self.audio_control_flags_1 = (self.audio_control_flags_1 & !(0x03 << 6)) | ((sel & 0x03) << 6);
    }

    /// Returns speaker compensation pre-gain (bits 0-2).
    pub fn speaker_comp_pregain(&self) -> (r: u8)
        ensures
            r == field(self@.audio_control_flags_2, 0, 0x07),
    {
        proof {
            lemma_shift_zero(self.audio_control_flags_2);
        }
        self.audio_control_flags_2 & 0x07
    }

    /// Sets speaker compensation pre-gain (bits 0-2).
    pub fn set_speaker_comp_pregain(&mut self, v: u8)
        ensures
            final(self)@ == (OutputModel {
                audio_control_flags_2: with_field(old(self)@.audio_control_flags_2, 0, 0x07, v),
                ..old(self)@
            }),
    {
        proof {
            lemma_shift_zero(0x07);
            lemma_shift_zero(v & 0x07);
        }
        self.audio_control_flags_2 = (self.audio_control_flags_2 & !0x07) | (v & 0x07);
    }

    /// Returns upper 4 unknown bits of audio control flags 2.
    pub fn audio_control_flags_2_unknown(&self) -> (r: u8)
        ensures
            r == field(self@.audio_control_flags_2, 4, 0x0F),
    {
        (self.audio_control_flags_2 >> 4) & 0x0F
    }

    /// Sets upper 4 unknown bits of audio control flags 2.
    pub fn set_audio_control_flags_2_unknown(&mut self, v: u8)
        ensures
            final(self)@ == (OutputModel {
                audio_control_flags_2: with_field(old(self)@.audio_control_flags_2, 4, 0x0F, v),
                ..old(self)@
            }),
    {
        self.audio_control_flags_2 = (self.audio_control_flags_2 & !(0x0F << 4)) | ((v & 0x0F) << 4);
    }

    /// Returns unknown bits of haptic low pass filter byte.
    pub fn haptic_low_pass_filter_unknown(&self) -> (r: u8)
        ensures
            r == field(self@.haptic_low_pass_filter, 1, 0x7F),
    {
        (self.haptic_low_pass_filter >> 1) & 0x7F
    }

    /// Sets unknown bits of haptic low pass filter byte.
    pub fn set_haptic_low_pass_filter_unknown(&mut self, v: u8)
        ensures
            final(self)@ == (OutputModel {
                haptic_low_pass_filter: with_field(old(self)@.haptic_low_pass_filter, 1, 0x7F, v),
                ..old(self)@
            }),
    {
        self.haptic_low_pass_filter = (self.haptic_low_pass_filter & !(0x7F << 1)) | ((v & 0x7F) << 1);
    }

    /// Returns the intensity of the right rumble motor (`0..=255`).
    pub fn rumble_right(&self) -> (r: u8)
        ensures
            r == self@.rumble_right,
    {
        self.rumble_right
    }

    /// Sets the intensity of the right rumble motor (`0..=255`).
    pub fn set_rumble_right(&mut self, v: u8)
        ensures
            final(self)@ == (OutputModel { rumble_right: v, ..old(self)@ }),
    {
        self.rumble_right = v;
    }

    /// Returns the intensity of the left rumble motor (`0..=255`).
    pub fn rumble_left(&self) -> (r: u8)
        ensures
            r == self@.rumble_left,
    {
        self.rumble_left
    }

    /// Sets the intensity of the left rumble motor (`0..=255`).
    pub fn set_rumble_left(&mut self, v: u8)
        ensures
            final(self)@ == (OutputModel { rumble_left: v, ..old(self)@ }),
    {
        self.rumble_left = v;
    }

    /// Returns the headphone volume output level (`0..=255`).
    pub fn volume_headphones(&self) -> (r: u8)
        ensures
            r == self@.volume_headphones,
    {
        self.volume_headphones
    }

    /// Sets the headphone volume output level (`0..=255`).
    pub fn set_volume_headphones(&mut self, v: u8)
        ensures
            final(self)@ == (OutputModel { volume_headphones: v, ..old(self)@ }),
    {
        self.volume_headphones = v;
    }

    /// Returns the built-in speaker volume output level (`0..=255`).
    pub fn volume_speaker(&self) -> (r: u8)
        ensures
            r == self@.volume_speaker,
    {
        self.volume_speaker
    }

    /// Sets the built-in speaker volume output level (`0..=255`).
    pub fn set_volume_speaker(&mut self, v: u8)
        ensures
            final(self)@ == (OutputModel { volume_speaker: v, ..old(self)@ }),
    {
        self.volume_speaker = v;
    }

    /// Returns the microphone input gain level (`0..=255`).
    pub fn volume_mic(&self) -> (r: u8)
        ensures
            r == self@.volume_mic,
    {
        self.volume_mic
    }

    /// Sets the microphone input gain level (`0..=255`).
    pub fn set_volume_mic(&mut self, v: u8)
        ensures
            final(self)@ == (OutputModel { volume_mic: v, ..old(self)@ }),
    {
        self.volume_mic = v;
    }

    /// Returns the mute light LED mode mode byte.
    pub fn mute_light_mode(&self) -> (r: u8)
        ensures
            r == self@.mute_light_mode,
    {
        self.mute_light_mode
    }

    /// Sets the mute light LED mode mode byte.
    pub fn set_mute_light_mode(&mut self, v: u8)
        ensures
            final(self)@ == (OutputModel { mute_light_mode: v, ..old(self)@ }),
    {
        self.mute_light_mode = v;
    }

    /// Returns the light fade animation mode byte.
    pub fn light_fade_animation(&self) -> (r: u8)
        ensures
            r == self@.light_fade_animation,
    {
        self.light_fade_animation
    }

    /// Sets the light fade animation mode byte.
    pub fn set_light_fade_animation(&mut self, v: u8)
        ensures
            final(self)@ == (OutputModel { light_fade_animation: v, ..old(self)@ }),
    {
        self.light_fade_animation = v;
    }

    /// Returns lightbar brightness setting (`0..=2` where 0=bright, 1=medium, 2=dim).
    pub fn light_brightness(&self) -> (r: u8)
        ensures
            r == self@.light_brightness,
    {
        self.light_brightness
    }

    /// Sets lightbar brightness setting (`0..=2` where 0=bright, 1=medium, 2=dim).
    pub fn set_light_brightness(&mut self, v: u8)
        ensures
            final(self)@ == (OutputModel { light_brightness: v, ..old(self)@ }),
    {
        self.light_brightness = v;
    }

    /// Returns player indicator LED flags.
    pub fn player_light_flags(&self) -> (r: u8)
        ensures
            r == self@.player_light_flags,
    {
        self.player_light_flags
    }

    /// Sets player indicator LED flags.
    pub fn set_player_light_flags(&mut self, v: u8)
        ensures
            final(self)@ == (OutputModel { player_light_flags: v, ..old(self)@ }),
    {
        self.player_light_flags = v;
    }

    /// Returns the intensity of the red part of the RGB LED (`0..=255`).
    pub fn lightbar_red(&self) -> (r: u8)
        ensures
            r == self@.lightbar_red,
    {
        self.lightbar_red
    }

    /// Sets the intensity of the red part of the RGB LED (`0..=255`).
    pub fn set_lightbar_red(&mut self, v: u8)
        ensures
            final(self)@ == (OutputModel { lightbar_red: v, ..old(self)@ }),
    {
        self.lightbar_red = v;
    }

    /// Returns the intensity of the green part of the RGB LED (`0..=255`).
    pub fn lightbar_green(&self) -> (r: u8)
        ensures
            r == self@.lightbar_green,
    {
        self.lightbar_green
    }

    /// Sets the intensity of the green part of the RGB LED (`0..=255`).
    pub fn set_lightbar_green(&mut self, v: u8)
        ensures
            final(self)@ == (OutputModel { lightbar_green: v, ..old(self)@ }),
    {
        self.lightbar_green = v;
    }

    /// Returns the intensity of the blue part of the RGB LED (`0..=255`).
    pub fn lightbar_blue(&self) -> (r: u8)
        ensures
            r == self@.lightbar_blue,
    {
        self.lightbar_blue
    }

    /// Sets the intensity of the blue part of the RGB LED (`0..=255`).
    pub fn set_lightbar_blue(&mut self, v: u8)
        ensures
            final(self)@ == (OutputModel { lightbar_blue: v, ..old(self)@ }),
    {
        self.lightbar_blue = v;
    }
}

impl TriggerFFB {
    /// Appends the eleven bytes of this effect: mode, then parameters.
    fn push_bytes(&self, out: &mut Vec<u8>)
        ensures
            final(out)@ == old(out)@ + ffb_bytes(*self),
    {
        out.push(self.mode);
        let ghost start = out@;
        let mut i: usize = 0;
        while i < 10
            invariant
                i <= 10,
                out@ == start + self.parameters@.subrange(0, i as int),
            decreases 10 - i,
        {
            out.push(self.parameters[i]);
            assert(self.parameters@.subrange(0, i + 1) =~= self.parameters@.subrange(0, i as int).push(
                self.parameters@[i as int],
            ));
            i = i + 1;
        }
        assert(self.parameters@.subrange(0, 10) =~= self.parameters@);
        assert(final(out)@ =~= old(out)@ + ffb_bytes(*self));
    }
}

impl DualSenseOutput {
    /// The 47 bytes of this output report body, as the controller reads them.
    pub fn to_bytes(&self) -> (r: Vec<u8>)
        ensures
            r@ == output_bytes(self@),
            r@.len() == OUTPUT_REPORT_LEN,
    {
        let mut out: Vec<u8> = Vec::new();
        out.push(self.flags_1);
        out.push(self.flags_2);
        out.push(self.rumble_right);
        out.push(self.rumble_left);
        out.push(self.volume_headphones);
        out.push(self.volume_speaker);
        out.push(self.volume_mic);
        out.push(self.audio_control_flags_1);
        out.push(self.mute_light_mode);
        out.push(self.power_save_mute_control);
        self.right_trigger_ffb.push_bytes(&mut out);
        self.left_trigger_ffb.push_bytes(&mut out);
        push_u32_le(&mut out, self.host_time_stamp);
        out.push(self.motor_power_level);
        out.push(self.audio_control_flags_2);
        out.push(self.flags_3);
        out.push(self.haptic_low_pass_filter);
        out.push(self.unknown);
        out.push(self.light_fade_animation);
        out.push(self.light_brightness);
        out.push(self.player_light_flags);
        out.push(self.lightbar_red);
        out.push(self.lightbar_green);
        out.push(self.lightbar_blue);
        assert(out@ =~= output_bytes(self@));
        out
    }
}

impl Default for DualSenseOutput {
    fn default() -> (r: Self)
        ensures
            r@ == OutputModel::initial(),
    {
        Self::new()
    }
}

/// Writing a motor power reduction and reading it back gives the value clamped to 7.
pub proof fn lemma_motor_power_reads_back(byte: u8, v: u8)
    ensures
        field(with_field(byte, 0, 0x0F, at_most(v, 7)), 0, 0x0F) == at_most(v, 7),
        field(with_field(byte, 4, 0x0F, at_most(v, 7)), 4, 0x0F) == at_most(v, 7),
        at_most(field(with_field(byte, 0, 0x0F, at_most(v, 7)), 0, 0x0F), 7) == at_most(v, 7),
        at_most(field(with_field(byte, 4, 0x0F, at_most(v, 7)), 4, 0x0F), 7) == at_most(v, 7),
        at_most(v, 7) <= 7,
{
    let t = at_most(v, 7);
    lemma_field_reads_back(byte, 0, 0x0F, t);
    lemma_field_reads_back(byte, 4, 0x0F, t);
    assert(t <= 7 ==> t & 0x0F == t) by (bit_vector);
}

} // verus!

verus! {

/// Where each field of an output report body lies in its 47 bytes: `flags_1`,
/// `flags_2`, right and left rumble, headphone, speaker and mic volume, audio
/// control flags, mute light mode and power save / mute control (0 to 9); the
/// right trigger effect, mode then ten parameters (10 to 20); the left trigger
/// effect (21 to 31); the host time stamp, lowest byte first (32 to 35); motor
/// power level (36), audio control flags 2 (37), `flags_3` (38), haptic low
/// pass filter (39), an unknown byte (40), light fade animation (41), light
/// brightness (42), player light flags (43) and the lightbar red, green and
/// blue (44 to 46).
pub proof fn lemma_output_layout(m: OutputModel)
    ensures
        ({
            let b = output_bytes(m);
            &&& b.len() == OUTPUT_REPORT_LEN
            &&& b[0] == m.flags_1 && b[1] == m.flags_2
            &&& b[2] == m.rumble_right && b[3] == m.rumble_left
            &&& b[4] == m.volume_headphones && b[5] == m.volume_speaker && b[6] == m.volume_mic
            &&& b[7] == m.audio_control_flags_1 && b[8] == m.mute_light_mode
            &&& b[9] == m.power_save_mute_control
            &&& b[10] == m.right_trigger_ffb.mode
            &&& (forall|i: int| 0 <= i < 10 ==> b[11 + i] == m.right_trigger_ffb.parameters@[i])
            &&& b[21] == m.left_trigger_ffb.mode
            &&& (forall|i: int| 0 <= i < 10 ==> b[22 + i] == m.left_trigger_ffb.parameters@[i])
            &&& le_value4(b[32], b[33], b[34], b[35]) == m.host_time_stamp
            &&& b[36] == m.motor_power_level && b[37] == m.audio_control_flags_2
            &&& b[38] == m.flags_3 && b[39] == m.haptic_low_pass_filter
            &&& b[40] == m.unknown && b[41] == m.light_fade_animation
            &&& b[42] == m.light_brightness && b[43] == m.player_light_flags
            &&& b[44] == m.lightbar_red && b[45] == m.lightbar_green
            &&& b[46] == m.lightbar_blue
        }),
{
    lemma_u32_le_bytes_value(m.host_time_stamp);
    let b = output_bytes(m);
    assert forall|i: int| 0 <= i < 10 implies b[11 + i] == m.right_trigger_ffb.parameters@[i] by {
    }
    assert forall|i: int| 0 <= i < 10 implies b[22 + i] == m.left_trigger_ffb.parameters@[i] by {
    }
}

} // verus!
