use dualsense_controller::button::Button;
use dualsense_controller::input::{
    widest_deviation, DPadState, DualSenseInput, DualSenseInputReportSimpleBT, PowerState,
    TouchData,
};

fn report(bytes: &[(usize, u8)]) -> DualSenseInput {
    let mut buf = [0u8; 55];
    buf[7] = 0x08; // hat switch released
    for &(i, v) in bytes {
        buf[i] = v;
    }
    DualSenseInput::read_from_prefix(&buf).unwrap()
}

const ALL_BUTTONS: [Button; 19] = [
    Button::DpadUp,
    Button::DpadDown,
    Button::DpadLeft,
    Button::DpadRight,
    Button::Square,
    Button::Cross,
    Button::Circle,
    Button::Triangle,
    Button::L1,
    Button::R1,
    Button::L2,
    Button::R2,
    Button::L3,
    Button::R3,
    Button::PS,
    Button::Touchpad,
    Button::Mute,
    Button::Create,
    Button::Menu,
];

#[test]
fn reads_fields_from_bytes() {
    let mut buf = [0u8; 60];
    for (i, b) in buf.iter_mut().enumerate() {
        *b = i as u8;
    }
    let x = DualSenseInput::read_from_prefix(&buf).unwrap();
    assert_eq!(x.left_stick(), (0, 1));
    assert_eq!(x.right_stick(), (2, 3));
    assert_eq!(x.l2_axis(), 4);
    assert_eq!(x.r2_axis(), 5);
    assert_eq!(x.gyro_x, 0x100F);
    assert_eq!(x.gyro_y, 0x1211);
    assert_eq!(x.accel_z, 0x1A19);
    assert_eq!(x.touch_1.contact_id, 32);
    assert_eq!(x.touch_2.y_high, 39);
    assert_eq!(x.to_bytes(), buf[..55].to_vec());
}

#[test]
fn short_buffer_is_refused() {
    assert!(DualSenseInput::read_from_prefix(&[0u8; 54]).is_none());
    assert!(DualSenseInput::read_from_prefix(&[]).is_none());
    assert!(DualSenseInputReportSimpleBT::read_from_prefix(&[1u8; 9]).is_none());
}

#[test]
fn negative_sensor_values() {
    let x = report(&[(15, 0xFF), (16, 0xFF), (21, 0x00), (22, 0x80)]);
    assert_eq!(x.gyro_x, -1);
    assert_eq!(x.accel_x, i16::MIN);
    let bytes = x.to_bytes();
    assert_eq!(&bytes[15..17], &[0xFF, 0xFF]);
    assert_eq!(&bytes[21..23], &[0x00, 0x80]);
}

#[test]
fn buttons_from_bits() {
    let x = report(&[(7, 0x08 | 0x20 | 0x80), (8, 0x01 | 0x10 | 0x80), (9, 0x04)]);
    assert!(x.is_button_down(Button::Cross));
    assert!(x.is_button_down(Button::Triangle));
    assert!(!x.is_button_down(Button::Square));
    assert!(!x.is_button_down(Button::Circle));
    assert!(x.is_button_down(Button::L1));
    assert!(x.is_button_down(Button::Create));
    assert!(x.is_button_down(Button::R3));
    assert!(!x.is_button_down(Button::R1));
    assert!(x.is_button_down(Button::Mute));
    assert!(x.mute());
    assert!(!x.ps());
    assert!(!x.touchpad_click());
    assert_eq!(x.dpad(), DPadState::Released);
    assert!(!x.is_button_down(Button::DpadUp));
}

#[test]
fn dpad_diagonals_press_both_directions() {
    let x = report(&[(7, 0x01)]);
    assert_eq!(x.dpad(), DPadState::NorthEast);
    assert!(x.is_button_down(Button::DpadUp));
    assert!(x.is_button_down(Button::DpadRight));
    assert!(!x.is_button_down(Button::DpadDown));
    assert!(!x.is_button_down(Button::DpadLeft));
    let y = report(&[(7, 0x05)]);
    assert_eq!(y.dpad(), DPadState::SouthWest);
    assert!(y.is_button_down(Button::DpadDown));
    assert!(y.is_button_down(Button::DpadLeft));
}

#[test]
fn dpad_from_value() {
    assert_eq!(DPadState::from(0), DPadState::North);
    assert_eq!(DPadState::from(3), DPadState::SouthEast);
    assert_eq!(DPadState::from(7), DPadState::NorthWest);
    assert_eq!(DPadState::from(8), DPadState::Released);
    assert_eq!(DPadState::from(200), DPadState::Released);
}

#[test]
fn battery_states() {
    assert_eq!(PowerState::from(0x05), PowerState::Discharging(50));
    assert_eq!(PowerState::from(0x15), PowerState::Charging(50));
    assert_eq!(PowerState::from(0x1A), PowerState::Full);
    assert_eq!(PowerState::from(0x0A), PowerState::Discharging(100));
    assert_eq!(PowerState::from(0x1F), PowerState::Charging(100));
    assert_eq!(PowerState::from(0x0C), PowerState::Discharging(100));
    assert_eq!(PowerState::from(0x20), PowerState::Discharging(0));
    let x = report(&[(51, 0x13)]);
    assert_eq!(x.battery_state(), PowerState::Charging(30));
}

#[test]
fn touch_coordinates() {
    let t = TouchData { contact_id: 0x05, x_low: 0x34, y_low_x_high: 0xAB, y_high: 0xCD };
    assert!(t.is_active());
    assert_eq!(t.x(), 0xB34);
    assert_eq!(t.y(), 0xCDA);
    let t = TouchData { contact_id: 0x85, x_low: 0xFF, y_low_x_high: 0xFF, y_high: 0xFF };
    assert!(!t.is_active());
    assert_eq!(t.x(), 4095);
    assert_eq!(t.y(), 4095);
}

#[test]
fn diff_shows_pressed_and_released() {
    let old = report(&[(7, 0x08 | 0x10), (8, 0x02)]);
    let new = report(&[(7, 0x01 | 0x20), (8, 0x02 | 0x04), (9, 0x01)]);
    let pressed = new.diff(&old);
    let released = old.diff(&new);
    for b in ALL_BUTTONS {
        assert_eq!(
            pressed.is_button_down(b),
            new.is_button_down(b) && !old.is_button_down(b)
        );
        assert_eq!(
            released.is_button_down(b),
            old.is_button_down(b) && !new.is_button_down(b)
        );
    }
    assert!(pressed.is_button_down(Button::Cross));
    assert!(pressed.is_button_down(Button::DpadUp));
    assert!(pressed.is_button_down(Button::DpadRight));
    assert!(pressed.is_button_down(Button::L2));
    assert!(pressed.is_button_down(Button::PS));
    assert!(!pressed.is_button_down(Button::R1));
    assert!(released.is_button_down(Button::Square));
    assert!(!released.is_button_down(Button::R1));
    assert_eq!(pressed.dpad(), DPadState::NorthEast);
    assert_eq!(released.dpad(), DPadState::Released);
}

#[test]
fn diff_of_diagonal_moves() {
    let old = report(&[(7, 0x01)]); // north-east
    let new = report(&[(7, 0x03)]); // south-east
    assert_eq!(new.diff(&old).dpad(), DPadState::South);
    assert_eq!(old.diff(&new).dpad(), DPadState::North);
    assert_eq!(new.diff(&new).dpad(), DPadState::Released);
}

#[test]
fn simple_bluetooth_report() {
    let buf = [0x01, 10, 20, 30, 40, 0x28, 0x03, 0x02, 50, 60, 99];
    let r = DualSenseInputReportSimpleBT::read_from_prefix(&buf).unwrap();
    assert_eq!(r.left_stick_x, 10);
    assert_eq!(r.r2_axis, 60);
    assert_eq!(r.to_bytes(), buf[..10].to_vec());
    let x = DualSenseInput::from(r);
    assert_eq!(x.left_stick(), (10, 20));
    assert_eq!(x.right_stick(), (30, 40));
    assert_eq!(x.l2_axis(), 50);
    assert_eq!(x.r2_axis(), 60);
    assert!(x.is_button_down(Button::Cross));
    assert!(x.is_button_down(Button::L1));
    assert!(x.touchpad_click());
    assert_eq!(x.dpad(), DPadState::Released);
    assert_eq!(x.gyro_x, 0);
}

#[test]
fn default_input_is_zero() {
    let x = DualSenseInput::default();
    assert_eq!(x.to_bytes(), vec![0u8; 55]);
    assert_eq!(x.dpad(), DPadState::North);
}

#[test]
fn touch_data_bytes() {
    let t = TouchData::read_from_prefix(&[0x85, 0x34, 0xAB, 0xCD, 0x99]).unwrap();
    assert_eq!(t.contact_id, 0x85);
    assert_eq!(t.x_low, 0x34);
    assert_eq!(t.y_low_x_high, 0xAB);
    assert_eq!(t.y_high, 0xCD);
    assert_eq!(t.to_bytes(), vec![0x85, 0x34, 0xAB, 0xCD]);
    assert!(TouchData::read_from_prefix(&[1, 2, 3]).is_none());
}

#[test]
fn widest_stick_deviation() {
    assert_eq!(widest_deviation((0, 0), (128, 128)), (0, 0));
    assert_eq!(widest_deviation((0, 0), (0, 255)), (128, 127));
    assert_eq!(widest_deviation((10, 10), (130, 100)), (10, 28));
}
