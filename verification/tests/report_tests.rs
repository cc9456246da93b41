use dualsense_controller::button::Button;
use dualsense_controller::device::{is_bluetooth_interface, is_dualsense};
use dualsense_controller::input::DPadState;
use dualsense_controller::output::DualSenseOutput;
use dualsense_controller::report::{
    add_crc, append_crc, bt_output_payload, bt_output_report, bt_report_crc,
    decode_input_report, encode_output_report, usb_output_report, InputReport,
};

#[test]
fn decode_usb_report() {
    let mut buf = vec![0u8; 64];
    buf[0] = 0x01;
    buf[1] = 11;
    buf[8] = 0x08 | 0x40;
    match decode_input_report(&buf, false) {
        InputReport::Input(x) => {
            assert_eq!(x.left_stick().0, 11);
            assert!(x.is_button_down(Button::Circle));
            assert_eq!(x.dpad(), DPadState::Released);
        }
        other => panic!("unexpected {:?}", other),
    }
    assert!(matches!(decode_input_report(&buf[..55], false), InputReport::Nothing));
    assert!(matches!(decode_input_report(&buf[..56], false), InputReport::Input(_)));
}

#[test]
fn decode_bluetooth_reports() {
    let short = [0x01, 1, 2, 3, 4, 0x08, 0, 0, 5, 6];
    match decode_input_report(&short, true) {
        InputReport::Input(x) => {
            assert_eq!(x.left_stick(), (1, 2));
            assert_eq!(x.r2_axis(), 6);
        }
        other => panic!("unexpected {:?}", other),
    }
    let mut full = vec![0u8; 78];
    full[0] = 0x31;
    full[1] = 0xFF;
    full[2] = 42;
    full[9] = 0x02;
    match decode_input_report(&full, true) {
        InputReport::Input(x) => {
            assert_eq!(x.left_stick().0, 42);
            assert_eq!(x.dpad(), DPadState::East);
        }
        other => panic!("unexpected {:?}", other),
    }
    assert!(matches!(decode_input_report(&full[..56], true), InputReport::Nothing));
}

#[test]
fn decode_unknown_and_empty() {
    assert!(matches!(decode_input_report(&[0x05, 1, 2], false), InputReport::Unknown(5)));
    assert!(matches!(decode_input_report(&[], true), InputReport::Nothing));
}

#[test]
fn usb_output_report_layout() {
    let out = DualSenseOutput::new();
    let r = usb_output_report(&out);
    assert_eq!(r.len(), 48);
    assert_eq!(r[0], 0x02);
    assert_eq!(&r[1..], &out.to_bytes()[..]);
    let (bytes, next) = encode_output_report(&out, false, 5);
    assert_eq!(bytes, r);
    assert_eq!(next, 5);
}

#[test]
fn crc_of_known_bytes() {
    assert_eq!(bt_report_crc(b"123456789"), 0x63DA9F12);
    assert_eq!(bt_report_crc(b"123456789"), crc32fast::hash(b"\xA2123456789"));
    let mut v = b"123456789".to_vec();
    add_crc(&mut v);
    assert_eq!(&v[9..], &[0x12, 0x9F, 0xDA, 0x63]);
    let mut w = vec![7u8];
    append_crc(&mut w, 0x0102_0304);
    assert_eq!(w, vec![7, 4, 3, 2, 1]);
}

#[test]
fn bluetooth_output_report_layout() {
    let out = DualSenseOutput::new();
    let p = bt_output_payload(&out, 3);
    assert_eq!(p.len(), 74);
    assert_eq!(&p[0..3], &[0x31, 0x30, 0x10]);
    assert_eq!(&p[3..50], &out.to_bytes()[..]);
    assert!(p[50..].iter().all(|&b| b == 0));
    let r = bt_output_report(&out, 3);
    assert_eq!(r.len(), 78);
    assert_eq!(&r[..74], &p[..]);
    assert_eq!(&r[74..], &0x77F3_8339u32.to_le_bytes());
    let r0 = bt_output_report(&out, 0);
    assert_eq!(&r0[74..], &0xF3B6_9EC2u32.to_le_bytes());
}

#[test]
fn bluetooth_sequence_wraps() {
    let out = DualSenseOutput::new();
    let (bytes, next) = encode_output_report(&out, true, 15);
    assert_eq!(next, 0);
    assert_eq!(bytes[1], 0xF0);
    let (_, next) = encode_output_report(&out, true, 4);
    assert_eq!(next, 5);
}

#[test]
fn device_matching() {
    assert!(is_dualsense(0x054C, 0x0CE6));
    assert!(is_dualsense(0x054C, 0x0DF2));
    assert!(!is_dualsense(0x054C, 0x09CC));
    assert!(!is_dualsense(0x1234, 0x0CE6));
    assert!(is_bluetooth_interface(-1));
    assert!(!is_bluetooth_interface(3));
}
