use dualsense_controller::output::{
    DualSenseOutput, TriggerFFB, DEFAULT_FLAGS_1, DEFAULT_FLAGS_2, DEFAULT_FLAGS_3,
};

#[test]
fn size_is_47_bytes() {
    assert_eq!(DualSenseOutput::default().to_bytes().len(), 47);
}

#[test]
fn default_values_and_clamping() {
    let d = DualSenseOutput::default();
    // Trigger FFB should be off
    assert_eq!(d.right_trigger_ffb.mode, 0);
    assert_eq!(d.left_trigger_ffb.mode, 0);
    // Motor power should be zeroed and within 0..=7
    assert_eq!(d.get_trigger_motor_power_reduction(), 0);
    assert_eq!(d.get_rumble_motor_power_reduction(), 0);
    // Flags equal defaults
    assert_eq!(d.flags1(), DEFAULT_FLAGS_1);
    assert_eq!(d.flags2(), DEFAULT_FLAGS_2);
    assert_eq!(d.flags_3, DEFAULT_FLAGS_3);
}

#[test]
fn motor_power_clamping() {
    let mut d = DualSenseOutput::default();
    d.set_trigger_motor_power_reduction(255);
    d.set_rumble_motor_power_reduction(255);
    assert_eq!(d.get_trigger_motor_power_reduction(), 7);
    assert_eq!(d.get_rumble_motor_power_reduction(), 7);
}

#[test]
fn get_set_enable_rumble_emulation() {
    let mut out = DualSenseOutput::default();
    assert!(out.enable_rumble_emulation());
    out.set_enable_rumble_emulation(false);
    assert!(!out.enable_rumble_emulation());
    out.set_enable_rumble_emulation(true);
    assert!(out.enable_rumble_emulation());
}

#[test]
fn get_set_use_rumble_no_haptics() {
    let mut out = DualSenseOutput::default();
    assert!(out.use_rumble_no_haptics());
    assert!(out.enable_rumble_emulation());
    out.set_use_rumble_no_haptics(false);
    assert!(!out.use_rumble_no_haptics());
    assert!(out.enable_rumble_emulation());
    out.set_use_rumble_no_haptics(true);
    assert!(out.use_rumble_no_haptics());
    assert!(out.enable_rumble_emulation());
}

#[test]
fn default_report_bytes() {
    let d = DualSenseOutput::new();
    let mut expected = vec![0xFF, 0xF7, 0, 0, 0, 0, 0, 0x0C, 0, 0];
    expected.extend_from_slice(&[0u8; 22]);
    expected.extend_from_slice(&[0, 0, 0, 0]);
    expected.extend_from_slice(&[0, 0, 0x07, 0, 0, 0, 0, 0, 0, 0, 0]);
    assert_eq!(d.to_bytes(), expected);
}

#[test]
fn report_bytes_place_every_field() {
    let mut d = DualSenseOutput::new_zeroed();
    d.set_rumble_right(1);
    d.set_rumble_left(2);
    d.set_volume_headphones(3);
    d.set_volume_speaker(4);
    d.set_volume_mic(5);
    d.set_mute_light_mode(6);
    d.set_right_trigger_ffb(TriggerFFB::weapon(7, 8, 9));
    d.set_left_trigger_ffb(TriggerFFB::feedback(10, 11));
    d.host_time_stamp = 0x1234_5678;
    d.set_light_fade_animation(12);
    d.set_light_brightness(13);
    d.set_player_light_flags(14);
    d.set_lightbar_red(15);
    d.set_lightbar_green(16);
    d.set_lightbar_blue(17);
    let bytes = d.to_bytes();
    assert_eq!(bytes.len(), 47);
    assert_eq!(&bytes[0..10], &[0, 0, 1, 2, 3, 4, 5, 0, 6, 0]);
    assert_eq!(&bytes[10..21], &[2, 7, 8, 9, 0, 0, 0, 0, 0, 0, 0]);
    assert_eq!(&bytes[21..32], &[1, 10, 11, 0, 0, 0, 0, 0, 0, 0, 0]);
    assert_eq!(&bytes[32..36], &[0x78, 0x56, 0x34, 0x12]);
    assert_eq!(&bytes[36..47], &[0, 0, 0, 0, 0, 12, 13, 14, 15, 16, 17]);
}

#[test]
fn every_flag_reads_back_and_keeps_the_others() {
    let mut out = DualSenseOutput::new_zeroed();
    out.set_allow_right_trigger_ffb(true);
    out.set_allow_mic_volume(true);
    assert!(out.allow_right_trigger_ffb());
    assert!(out.allow_mic_volume());
    assert!(!out.allow_left_trigger_ffb());
    assert_eq!(out.flags1(), 0x44);
    out.set_allow_right_trigger_ffb(false);
    assert_eq!(out.flags1(), 0x40);

    out.set_allow_led_color(true);
    out.set_reset_lights(true);
    assert!(out.allow_led_color() && out.reset_lights());
    assert!(!out.allow_mute_light());
    assert_eq!(out.flags2(), 0x0C);

    out.set_mute_mic(true);
    out.set_power_save_audio(true);
    assert!(out.mute_mic() && out.power_save_audio());
    assert!(!out.mute_speaker() && !out.power_save_touch());

    out.set_echo_cancel_enable(true);
    assert!(out.echo_cancel_enable());
    assert!(!out.noise_cancel_enable());
    out.set_beamforming_enable(true);
    assert!(out.beamforming_enable());
    out.set_haptic_low_pass_filter_enabled(true);
    assert!(out.haptic_low_pass_filter_enabled());
    assert_eq!(out.haptic_low_pass_filter_unknown(), 0);
}

#[test]
fn flags_3_setters_clear_undefined_bits() {
    let mut out = DualSenseOutput::new_zeroed();
    out.flags_3 = 0xF8;
    out.set_allow_color_light_fade_animation(true);
    assert_eq!(out.flags_3, 0x02);
    assert!(out.allow_color_light_fade_animation());
    assert!(!out.allow_light_brightness_change());
    out.set_enable_improved_rumble_emulation(true);
    assert!(out.enable_improved_rumble_emulation());
    assert_eq!(out.flags_3, 0x06);
}

#[test]
fn bit_fields_read_back_masked() {
    let mut out = DualSenseOutput::new();
    out.set_mic_select(0xFF);
    assert_eq!(out.mic_select(), 3);
    assert!(out.echo_cancel_enable() && out.noise_cancel_enable());
    out.set_output_path_select(2);
    out.set_input_path_select(1);
    assert_eq!(out.output_path_select(), 2);
    assert_eq!(out.input_path_select(), 1);
    assert_eq!(out.mic_select(), 3);
    out.set_speaker_comp_pregain(0x0D);
    assert_eq!(out.speaker_comp_pregain(), 5);
    out.set_audio_control_flags_2_unknown(0x1A);
    assert_eq!(out.audio_control_flags_2_unknown(), 0x0A);
    assert_eq!(out.speaker_comp_pregain(), 5);
    out.set_haptic_low_pass_filter_enabled(true);
    out.set_haptic_low_pass_filter_unknown(0xFF);
    assert_eq!(out.haptic_low_pass_filter_unknown(), 0x7F);
    assert!(out.haptic_low_pass_filter_enabled());
}

#[test]
fn motor_power_nibbles_are_independent() {
    let mut d = DualSenseOutput::new();
    d.set_trigger_motor_power_reduction(3);
    d.set_rumble_motor_power_reduction(5);
    assert_eq!(d.get_trigger_motor_power_reduction(), 3);
    assert_eq!(d.get_rumble_motor_power_reduction(), 5);
    assert_eq!(d.motor_power_level, 0x53);
}

#[test]
fn trigger_effects() {
    let off = TriggerFFB::off();
    assert_eq!(off.mode, 0);
    assert_eq!(off.parameters, [0; 10]);
    let f = TriggerFFB::feedback(40, 200);
    assert_eq!(f.mode, 0x01);
    assert_eq!(f.parameters, [40, 200, 0, 0, 0, 0, 0, 0, 0, 0]);
    let w = TriggerFFB::weapon(1, 2, 3);
    assert_eq!(w.mode, 0x02);
    assert_eq!(w.parameters, [1, 2, 3, 0, 0, 0, 0, 0, 0, 0]);
    let d = TriggerFFB::disengage();
    assert_eq!(d.mode, 0x05);
    assert_eq!(d.parameters, [0; 10]);
    let v = TriggerFFB::vibration(9, 30, 200);
    assert_eq!(v.mode, 0x06);
    assert_eq!(v.parameters, [30, 63, 9, 0, 0, 0, 0, 0, 0, 0]);
    let v = TriggerFFB::vibration(9, 30, 20);
    assert_eq!(v.parameters[1], 20);
    let b = TriggerFFB::bow(10, 20, 0xFF, 0x0A);
    assert_eq!(b.mode, 0x22);
    assert_eq!(b.parameters, [10, 20, 0x17, 0, 0, 0, 0, 0, 0, 0]);
    assert!(TriggerFFB::default() == TriggerFFB::off());
    assert!(TriggerFFB::weapon(1, 2, 3) != TriggerFFB::weapon(1, 2, 4));
}

#[test]
fn output_equality() {
    let a = DualSenseOutput::new();
    let mut b = DualSenseOutput::new();
    assert!(a == b);
    b.set_lightbar_red(1);
    assert!(a != b);
    b.set_lightbar_red(0);
    assert!(a == b);
    b.set_left_trigger_ffb(TriggerFFB::disengage());
    assert!(a != b);
}

#[test]
fn motor_power_reads_at_most_7() {
    let mut d = DualSenseOutput::new();
    d.motor_power_level = 0xFF;
    assert_eq!(d.get_trigger_motor_power_reduction(), 7);
    assert_eq!(d.get_rumble_motor_power_reduction(), 7);
    d.motor_power_level = 0x6A;
    assert_eq!(d.get_trigger_motor_power_reduction(), 7);
    assert_eq!(d.get_rumble_motor_power_reduction(), 6);
}
