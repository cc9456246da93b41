use vstd::prelude::*;

use crate::bits::{
    field, flag, lemma_field_reads_back, lemma_field_unchanged, lemma_flag_idempotent, lemma_flag_keeps_others,
    lemma_flag_reads_back, with_field, with_flag,
};
use crate::button::Button;
use crate::input::{lemma_diff_button_down, DualSenseInput, InputModel};
use crate::output::{
    at_most, lemma_motor_power_reads_back, DualSenseOutput, OutputModel, TriggerFFB,
};

verus! {

/// The output state after a rumble request: rumble motors used instead of
/// haptics, both motor strengths, and the rumble power reduction (clamped to 7).
pub open spec fn with_rumble(o: OutputModel, left: u8, right: u8, power_reduction: u8) -> OutputModel {
    OutputModel {
        flags_1: with_flag(o.flags_1, 0x02, true),
        rumble_left: left,
        rumble_right: right,
        motor_power_level: with_field(o.motor_power_level, 4, 0x0F, at_most(power_reduction, 7)),
        ..o
    }
}

/// The output state after a trigger request: effects allowed on both triggers,
/// and both effects.
pub open spec fn with_triggers(o: OutputModel, left: TriggerFFB, right: TriggerFFB) -> OutputModel {
    OutputModel {
        flags_1: with_flag(with_flag(o.flags_1, 0x08, true), 0x04, true),
        left_trigger_ffb: left,
        right_trigger_ffb: right,
        ..o
    }
}

/// The output state after a lightbar color request: LED color allowed, light
/// reset off, no fade animation, mute light mode 0, and the color.
pub open spec fn with_led_color(o: OutputModel, r: u8, g: u8, b: u8) -> OutputModel {
    OutputModel {
        flags_2: with_flag(with_flag(o.flags_2, 0x04, true), 0x08, false),
        light_fade_animation: 0,
        mute_light_mode: 0,
        lightbar_red: r,
        lightbar_green: g,
        lightbar_blue: b,
        ..o
    }
}

/// The output state that turns every effect off: all bytes zero, with the
/// flags that let rumble emulation, both trigger effects, the mute light and
/// the lightbar color be updated (to their zero values, so the lightbar goes dark).
pub open spec fn cleared_output() -> OutputModel {
    OutputModel { flags_1: 0x0D, flags_2: 0x05, ..OutputModel::zeroed() }
}

/// The controller's state, as plain values.
pub ghost struct ControllerModel {
    /// The latest input state taken in.
    pub last_input: InputModel,
    /// The buttons pressed between the two latest updates.
    pub diff_pressed: InputModel,
    /// The buttons released between the two latest updates.
    pub diff_released: InputModel,
    /// The output state last requested.
    pub current_output: OutputModel,
}

/// What the controller knows and wants: the latest input, what changed at the
/// latest update, and the output to send. The device thread is not part of it:
/// each request returns whether the output must be sent.
#[derive(Debug)]
pub struct ControllerState {
    last_input: DualSenseInput,
    diff_pressed: DualSenseInput,
    diff_released: DualSenseInput,
    current_output: DualSenseOutput,
}

impl ControllerState {
    /// The rumble power reduction held for sending is always within `0..=7`:
    /// it is only ever written clamped.
    #[verifier::type_invariant]
    spec fn rumble_power_in_range(self) -> bool {
        field(self.current_output@.motor_power_level, 4, 0x0F) <= 7
    }
}

impl View for ControllerState {
    type V = ControllerModel;

    closed spec fn view(&self) -> ControllerModel {
        ControllerModel {
            last_input: self.last_input@,
            diff_pressed: self.diff_pressed@,
            diff_released: self.diff_released@,
            current_output: self.current_output@,
        }
    }
}

impl ControllerState {
    /// No input seen yet (all zero) and the default output.
    pub fn new() -> (r: Self)
        ensures
            r@ == (ControllerModel {
                last_input: InputModel::zero(),
                diff_pressed: InputModel::zero(),
                diff_released: InputModel::zero(),
                current_output: OutputModel::initial(),
            }),
    {
        let current_output = DualSenseOutput::new();
        proof {
            lemma_field_of_zero();
        }
        ControllerState {
            last_input: DualSenseInput::default(),
            diff_pressed: DualSenseInput::default(),
            diff_released: DualSenseInput::default(),
            current_output,
        }
    }

    /// Takes in the latest input state, if any arrived, and records which
    /// buttons were pressed and released since the previous one.
    pub fn update_input(&mut self, latest: Option<DualSenseInput>)
        ensures
            final(self)@.last_input == (match latest {
                Some(x) => x@,
                None => old(self)@.last_input,
            }),
            final(self)@.diff_pressed == final(self)@.last_input.diff(old(self)@.last_input),
            final(self)@.diff_released == old(self)@.last_input.diff(final(self)@.last_input),
            final(self)@.current_output == old(self)@.current_output,
            forall|b: Button|
                #![trigger final(self)@.diff_pressed.button_down(b)]
                final(self)@.diff_pressed.button_down(b) == (final(self)@.last_input.button_down(b)
                    && !old(self)@.last_input.button_down(b)),
            forall|b: Button|
                #![trigger final(self)@.diff_released.button_down(b)]
                final(self)@.diff_released.button_down(b) == (old(self)@.last_input.button_down(b)
                    && !final(self)@.last_input.button_down(b)),
    {
        proof {
            use_type_invariant(&*self);
        }
        let old_input = self.last_input;
        if let Some(input) = latest {
            self.last_input = input;
        }
        self.diff_pressed = self.last_input.diff(&old_input);
        self.diff_released = old_input.diff(&self.last_input);
        proof {
            assert forall|b: Button|
                #![trigger self@.diff_pressed.button_down(b)]
                self@.diff_pressed.button_down(b) == (self@.last_input.button_down(b)
                    && !old_input@.button_down(b)) by {
                lemma_diff_button_down(self@.last_input, old_input@, b);
            }
            assert forall|b: Button|
                #![trigger self@.diff_released.button_down(b)]
                self@.diff_released.button_down(b) == (old_input@.button_down(b)
                    && !self@.last_input.button_down(b)) by {
                lemma_diff_button_down(old_input@, self@.last_input, b);
            }
        }
    }

    /// returns if the button was held down while calling update_input
    pub fn is_button_down(&self, button: Button) -> (r: bool)
        ensures
            r == self@.last_input.button_down(button),
    {
        self.last_input.is_button_down(button)
    }

    /// returns true only if the button was pressed between 2 calls of update_input
    pub fn button_pressed(&self, button: Button) -> (r: bool)
        ensures
            r == self@.diff_pressed.button_down(button),
    {
        self.diff_pressed.is_button_down(button)
    }

    /// returns true only if the button was released between 2 calls of update_input
    pub fn button_released(&self, button: Button) -> (r: bool)
        ensures
            r == self@.diff_released.button_down(button),
    {
        self.diff_released.is_button_down(button)
    }

    /// The latest input state, as the device sent it.
    pub fn get_last_input(&self) -> (r: DualSenseInput)
        ensures
            r@ == self@.last_input,
    {
        self.last_input
    }

    /// The output state last requested.
    pub fn current_output(&self) -> (r: DualSenseOutput)
        ensures
            r@ == self@.current_output,
    {
        self.current_output
    }

    /// Sets the left rumble motor, keeping the right one; returns whether the
    /// output changed and must be sent.
    pub fn set_rumble_left(&mut self, left: u8, power_reduction: u8) -> (send: bool)
        ensures
            final(self)@ == (ControllerModel {
                current_output: with_rumble(
                    old(self)@.current_output,
                    left,
                    old(self)@.current_output.rumble_right,
                    power_reduction,
                ),
                ..old(self)@
            }),
            send == (final(self)@.current_output != old(self)@.current_output),
            final(self)@.current_output.rumble_left == left,
            final(self)@.current_output.rumble_right == old(self)@.current_output.rumble_right,
            flag(final(self)@.current_output.flags_1, 0x02),
            at_most(field(final(self)@.current_output.motor_power_level, 4, 0x0F), 7) == at_most(
                power_reduction,
                7,
            ),
    {
        let right = self.current_output.rumble_right();
        let send = self.set_rumble(left, right, power_reduction);
        proof {
            lemma_rumble_sets(old(self)@.current_output, left, right, power_reduction);
        }
        send
    }

    /// Sets the right rumble motor, keeping the left one; returns whether the
    /// output changed and must be sent.
    pub fn set_rumble_right(&mut self, right: u8, power_reduction: u8) -> (send: bool)
        ensures
            final(self)@ == (ControllerModel {
                current_output: with_rumble(
                    old(self)@.current_output,
                    old(self)@.current_output.rumble_left,
                    right,
                    power_reduction,
                ),
                ..old(self)@
            }),
            send == (final(self)@.current_output != old(self)@.current_output),
            final(self)@.current_output.rumble_right == right,
            final(self)@.current_output.rumble_left == old(self)@.current_output.rumble_left,
            flag(final(self)@.current_output.flags_1, 0x02),
            at_most(field(final(self)@.current_output.motor_power_level, 4, 0x0F), 7) == at_most(
                power_reduction,
                7,
            ),
    {
        let left = self.current_output.rumble_left();
        let send = self.set_rumble(left, right, power_reduction);
        proof {
            lemma_rumble_sets(old(self)@.current_output, left, right, power_reduction);
        }
        send
    }

    fn set_rumble(&mut self, left: u8, right: u8, power_reduction: u8) -> (send: bool)
        ensures
            final(self)@ == (ControllerModel {
                current_output: with_rumble(old(self)@.current_output, left, right, power_reduction),
                ..old(self)@
            }),
            send == (final(self)@.current_output != old(self)@.current_output),
    {
        proof {
            use_type_invariant(&*self);
        }
        let old_output = self.current_output;
        let mut output = self.current_output;
        output.set_use_rumble_no_haptics(true);
        output.set_rumble_left(left);
        output.set_rumble_right(right);
        output.set_rumble_motor_power_reduction(power_reduction);
        proof {
            lemma_motor_power_reads_back(old_output@.motor_power_level, power_reduction);
        }
        self.current_output = output;
        let diff_haptics = old_output.use_rumble_no_haptics()
            != self.current_output.use_rumble_no_haptics();
        let diff_rumble_left = old_output.rumble_left() != self.current_output.rumble_left();
        let diff_rumble_right = old_output.rumble_right() != self.current_output.rumble_right();
        let diff_power_reduction = old_output.get_rumble_motor_power_reduction()
            != self.current_output.get_rumble_motor_power_reduction();
        proof {
            let o = old_output@;
            let n = self@.current_output;
            lemma_flag_reads_back(o.flags_1, 0x02, true);
            if !diff_haptics {
                lemma_flag_idempotent(o.flags_1, 0x02, true);
            }
            if !diff_power_reduction {
                lemma_field_unchanged(o.motor_power_level, 4, 0x0F, at_most(power_reduction, 7));
            }
            assert(!(diff_haptics || diff_rumble_left || diff_rumble_right || diff_power_reduction)
                ==> n == o);
        }
        diff_haptics || diff_rumble_left || diff_rumble_right || diff_power_reduction
    }

    /// Set the force feedback mode for both triggers; returns whether the output
    /// changed and must be sent.
    pub fn set_triggers(&mut self, left: TriggerFFB, right: TriggerFFB) -> (send: bool)
        ensures
            final(self)@ == (ControllerModel {
                current_output: with_triggers(old(self)@.current_output, left, right),
                ..old(self)@
            }),
            send == (final(self)@.current_output != old(self)@.current_output),
            final(self)@.current_output.left_trigger_ffb == left,
            final(self)@.current_output.right_trigger_ffb == right,
            flag(final(self)@.current_output.flags_1, 0x04),
            flag(final(self)@.current_output.flags_1, 0x08),
    {
        proof {
            use_type_invariant(&*self);
        }
        let old_output = self.current_output;
        let mut output = self.current_output;
        output.set_allow_left_trigger_ffb(true);
        output.set_allow_right_trigger_ffb(true);
        output.set_left_trigger_ffb(left);
        output.set_right_trigger_ffb(right);
        proof {
            lemma_triggers_set(old_output@, left, right);
        }
        self.current_output = output;
        old_output != self.current_output
    }

    /// Sets the color of the RGB LED; returns whether the output changed and
    /// must be sent.
    pub fn set_led_color(&mut self, r: u8, g: u8, b: u8) -> (send: bool)
        ensures
            final(self)@ == (ControllerModel {
                current_output: with_led_color(old(self)@.current_output, r, g, b),
                ..old(self)@
            }),
            send == (final(self)@.current_output != old(self)@.current_output),
            final(self)@.current_output.lightbar_red == r,
            final(self)@.current_output.lightbar_green == g,
            final(self)@.current_output.lightbar_blue == b,
            flag(final(self)@.current_output.flags_2, 0x04),
            !flag(final(self)@.current_output.flags_2, 0x08),
    {
        proof {
            use_type_invariant(&*self);
        }
        let old_output = self.current_output;
        let mut output = self.current_output;
        output.set_allow_led_color(true);
        output.set_reset_lights(false);
        output.set_light_fade_animation(0);
        output.set_mute_light_mode(0);
        output.set_lightbar_red(r);
        output.set_lightbar_green(g);
        output.set_lightbar_blue(b);
        proof {
            lemma_led_color_sets(old_output@, r, g, b);
        }
        self.current_output = output;
        old_output != self.current_output
    }

    /// Clears all output effects; returns whether the output changed and must
    /// be sent.
    pub fn clear_effects(&mut self) -> (send: bool)
        ensures
            final(self)@ == (ControllerModel { current_output: cleared_output(), ..old(self)@ }),
            send == (final(self)@.current_output != old(self)@.current_output),
    {
        let old_output = self.current_output;
        let mut cleared = DualSenseOutput::new_zeroed();
        // The update flags are set so that the controller takes the zeroed
        // rumble, trigger and light fields and turns them off.
        cleared.set_enable_rumble_emulation(true);
        cleared.set_allow_right_trigger_ffb(true);
        cleared.set_allow_left_trigger_ffb(true);
        cleared.set_allow_mute_light(true);
        cleared.set_allow_led_color(true);
        proof {
            lemma_field_of_zero();
        }
        self.current_output = cleared;
        assert(with_flag(with_flag(with_flag(0, 0x01, true), 0x04, true), 0x08, true) == 0x0D)
            by (bit_vector);
        assert(with_flag(with_flag(0, 0x01, true), 0x04, true) == 0x05) by (bit_vector);
        old_output != self.current_output
    }
}

} // verus!

verus! {

/// The bit fields of a zero byte are zero.
proof fn lemma_field_of_zero()
    ensures
        field(0, 4, 0x0F) == 0,
        field(0, 0, 0x0F) == 0,
{
    assert(((0u8 >> 4u8) & 0x0Fu8) == 0 && ((0u8 >> 0u8) & 0x0Fu8) == 0) by (bit_vector);
}

/// A rumble request puts the requested strengths on the left and right motors,
/// switches to rumble instead of haptics, and makes the rumble power reduction
/// read as the requested one clamped to 7; nothing else changes but the byte
/// and nibble that hold these.
pub proof fn lemma_rumble_sets(o: OutputModel, left: u8, right: u8, power_reduction: u8)
    ensures
        ({
            let n = with_rumble(o, left, right, power_reduction);
            &&& n.rumble_left == left && n.rumble_right == right
            &&& flag(n.flags_1, 0x02)
            &&& at_most(field(n.motor_power_level, 4, 0x0F), 7) == at_most(power_reduction, 7)
            &&& field(n.motor_power_level, 0, 0x0F) == field(o.motor_power_level, 0, 0x0F)
            &&& n.lightbar_red == o.lightbar_red && n.left_trigger_ffb == o.left_trigger_ffb
            &&& n.right_trigger_ffb == o.right_trigger_ffb && n.flags_2 == o.flags_2
        }),
{
    lemma_flag_reads_back(o.flags_1, 0x02, true);
    lemma_motor_power_reads_back(o.motor_power_level, power_reduction);
    let x = o.motor_power_level;
    let v = at_most(power_reduction, 7);
    assert((((x & !(0x0Fu8 << 4u8)) | ((v & 0x0F) << 4u8)) >> 0u8) & 0x0F == (x >> 0u8) & 0x0F)
        by (bit_vector);
}

/// A trigger request puts `left` on the left trigger and `right` on the right
/// one, and allows effects on both.
pub proof fn lemma_triggers_set(o: OutputModel, left: TriggerFFB, right: TriggerFFB)
    ensures
        ({
            let n = with_triggers(o, left, right);
            &&& n.left_trigger_ffb == left && n.right_trigger_ffb == right
            &&& flag(n.flags_1, 0x04) && flag(n.flags_1, 0x08)
            &&& n.rumble_left == o.rumble_left && n.lightbar_red == o.lightbar_red
        }),
{
    let a = with_flag(o.flags_1, 0x08, true);
    lemma_flag_reads_back(o.flags_1, 0x08, true);
    lemma_flag_reads_back(a, 0x04, true);
    lemma_flag_keeps_others(a, 0x04, true, 0x08);
}

/// A lightbar request sets red, green and blue to `r`, `g`, `b`, allows the
/// LED color update and turns the light reset off.
pub proof fn lemma_led_color_sets(o: OutputModel, r: u8, g: u8, b: u8)
    ensures
        ({
            let n = with_led_color(o, r, g, b);
            &&& n.lightbar_red == r && n.lightbar_green == g && n.lightbar_blue == b
            &&& flag(n.flags_2, 0x04) && !flag(n.flags_2, 0x08)
            &&& n.rumble_left == o.rumble_left && n.left_trigger_ffb == o.left_trigger_ffb
        }),
{
    let a = with_flag(o.flags_2, 0x04, true);
    lemma_flag_reads_back(o.flags_2, 0x04, true);
    lemma_flag_reads_back(a, 0x08, false);
    lemma_flag_keeps_others(a, 0x08, false, 0x04);
}

/// Asking for the same rumble twice changes the output only the first time.
pub proof fn lemma_rumble_idempotent(o: OutputModel, left: u8, right: u8, power_reduction: u8)
    ensures
        with_rumble(with_rumble(o, left, right, power_reduction), left, right, power_reduction)
            == with_rumble(o, left, right, power_reduction),
{
    let n = with_rumble(o, left, right, power_reduction);
    let v = at_most(power_reduction, 7);
    lemma_flag_reads_back(o.flags_1, 0x02, true);
    lemma_flag_idempotent(n.flags_1, 0x02, true);
    lemma_field_reads_back(o.motor_power_level, 4, 0x0F, v);
    lemma_field_reads_back(n.motor_power_level, 4, 0x0F, v);
    lemma_field_unchanged(n.motor_power_level, 4, 0x0F, v);
}

/// Asking for the same trigger effects twice changes the output only the first time.
pub proof fn lemma_triggers_idempotent(o: OutputModel, left: TriggerFFB, right: TriggerFFB)
    ensures
        with_triggers(with_triggers(o, left, right), left, right) == with_triggers(o, left, right),
{
    let a = with_flag(o.flags_1, 0x08, true);
    let x = with_flag(a, 0x04, true);
    lemma_flag_reads_back(o.flags_1, 0x08, true);
    lemma_flag_reads_back(a, 0x04, true);
    lemma_flag_keeps_others(a, 0x04, true, 0x08);
    lemma_flag_idempotent(x, 0x08, true);
    lemma_flag_idempotent(x, 0x04, true);
}

/// Asking for the same lightbar color twice changes the output only the first time.
pub proof fn lemma_led_color_idempotent(o: OutputModel, r: u8, g: u8, b: u8)
    ensures
        with_led_color(with_led_color(o, r, g, b), r, g, b) == with_led_color(o, r, g, b),
{
    let a = with_flag(o.flags_2, 0x04, true);
    let x = with_flag(a, 0x08, false);
    lemma_flag_reads_back(o.flags_2, 0x04, true);
    lemma_flag_reads_back(a, 0x08, false);
    lemma_flag_keeps_others(a, 0x08, false, 0x04);
    lemma_flag_idempotent(x, 0x04, true);
    lemma_flag_idempotent(x, 0x08, false);
}

} // verus!
