use dualsense_controller::button::Button;
use dualsense_controller::controller::ControllerState;
use dualsense_controller::input::DualSenseInput;
use dualsense_controller::output::{DualSenseOutput, TriggerFFB};

fn input(buttons_low: u8, buttons_high: u8) -> DualSenseInput {
    let mut buf = [0u8; 55];
    buf[7] = buttons_low;
    buf[8] = buttons_high;
    DualSenseInput::read_from_prefix(&buf).unwrap()
}

#[test]
fn pressed_and_released_between_updates() {
    let mut s = ControllerState::new();
    s.update_input(Some(input(0x08, 0x00)));
    s.update_input(Some(input(0x08 | 0x20, 0x01)));
    assert!(s.is_button_down(Button::Cross));
    assert!(s.button_pressed(Button::Cross));
    assert!(s.button_pressed(Button::L1));
    assert!(!s.button_released(Button::Cross));
    s.update_input(Some(input(0x08, 0x01)));
    assert!(!s.is_button_down(Button::Cross));
    assert!(s.button_released(Button::Cross));
    assert!(!s.button_pressed(Button::L1));
    assert!(s.is_button_down(Button::L1));
}

#[test]
fn no_new_input_means_no_change() {
    let mut s = ControllerState::new();
    s.update_input(Some(input(0x08 | 0x40, 0)));
    assert!(s.button_pressed(Button::Circle));
    s.update_input(None);
    assert!(s.is_button_down(Button::Circle));
    assert!(!s.button_pressed(Button::Circle));
    assert!(!s.button_released(Button::Circle));
    assert_eq!(s.get_last_input().to_bytes(), input(0x08 | 0x40, 0).to_bytes());
}

#[test]
fn rumble_sends_only_on_change() {
    let mut s = ControllerState::new();
    assert!(s.set_rumble_left(100, 2));
    assert!(!s.set_rumble_left(100, 2));
    assert!(s.set_rumble_right(50, 2));
    let out = s.current_output();
    assert_eq!(out.rumble_left(), 100);
    assert_eq!(out.rumble_right(), 50);
    assert_eq!(out.get_rumble_motor_power_reduction(), 2);
    assert!(out.use_rumble_no_haptics());
    assert!(s.set_rumble_left(100, 9));
    assert_eq!(s.current_output().get_rumble_motor_power_reduction(), 7);
    assert!(!s.set_rumble_left(100, 200));
}

#[test]
fn led_and_triggers_send_only_on_change() {
    let mut s = ControllerState::new();
    assert!(s.set_led_color(0, 255, 0));
    assert!(!s.set_led_color(0, 255, 0));
    let out = s.current_output();
    assert_eq!(out.lightbar_green(), 255);
    assert!(out.allow_led_color());
    assert!(!out.reset_lights());
    assert!(s.set_triggers(TriggerFFB::feedback(10, 20), TriggerFFB::off()));
    assert!(!s.set_triggers(TriggerFFB::feedback(10, 20), TriggerFFB::off()));
    assert_eq!(s.current_output().left_trigger_ffb.mode, 1);
}

#[test]
fn clear_effects_turns_everything_off() {
    let mut s = ControllerState::new();
    s.set_led_color(1, 2, 3);
    assert!(s.clear_effects());
    let out = s.current_output();
    assert_eq!(out.flags1(), 0x0D);
    assert_eq!(out.flags2(), 0x05);
    assert!(out.allow_led_color());
    assert_eq!(out.lightbar_red(), 0);
    let mut zero = DualSenseOutput::new_zeroed();
    zero.set_enable_rumble_emulation(true);
    zero.set_allow_right_trigger_ffb(true);
    zero.set_allow_left_trigger_ffb(true);
    zero.set_allow_mute_light(true);
    zero.set_allow_led_color(true);
    assert!(out == zero);
    assert!(!s.clear_effects());
}
