use vstd::prelude::*;

use crate::bits::{le_value4, lemma_u32_le_bytes_value, push_u32_le, u32_le_bytes};
use crate::crc::{crc32_ieee, Crc32Digest};
use crate::input::{
    input_from_bytes, simple_bt_input, DualSenseInput, DualSenseInputReportSimpleBT, InputModel,
    INPUT_REPORT_LEN, SIMPLE_BT_REPORT_LEN,
};
use crate::output::{output_bytes, DualSenseOutput, OutputModel};

verus! {

/// Report id of a USB input report (and of the short Bluetooth one).
pub const INPUT_REPORT_USB_ID: u8 = 0x01;

/// Report id of a full Bluetooth input report.
pub const INPUT_REPORT_BT_ID: u8 = 0x31;

/// Report id of a USB output report.
pub const OUTPUT_REPORT_USB_ID: u8 = 0x02;

/// Report id of a Bluetooth output report.
pub const OUTPUT_REPORT_BT_ID: u8 = 0x31;

/// Tag byte of a Bluetooth output report.
pub const OUTPUT_REPORT_BT_TAG: u8 = 0x10;

/// Byte fed to the CRC before a Bluetooth output report.
pub const OUTPUT_CRC32_SEED: u8 = 0xA2;

/// Number of reserved zero bytes after the body of a Bluetooth output report.
pub const BT_OUTPUT_RESERVED_LEN: usize = 24;

/// Length of a Bluetooth output report before its CRC.
pub const BT_OUTPUT_PAYLOAD_LEN: usize = 74;

/// What a buffer read from the device holds.
#[derive(Debug)]
pub enum InputReport {
    /// An input state.
    Input(DualSenseInput),
    /// A report whose id this library does not know.
    Unknown(u8),
    /// Nothing usable: no bytes, or a known report cut short.
    Nothing,
}

/// What a buffer read from the device holds, as plain values.
pub ghost enum InputReportModel {
    Input(InputModel),
    Unknown(u8),
    Nothing,
}

impl View for InputReport {
    type V = InputReportModel;

    open spec fn view(&self) -> InputReportModel {
        match self {
            InputReport::Input(x) => InputReportModel::Input(x@),
            InputReport::Unknown(b) => InputReportModel::Unknown(*b),
            InputReport::Nothing => InputReportModel::Nothing,
        }
    }
}

/// The meaning of the buffer `buf` read from a controller connected over
/// Bluetooth (`is_bluetooth`) or USB. Its first byte is the report id: id 1
/// is the short report over Bluetooth and a full body after the id over USB;
/// id 0x31 is a full body after the id and one more byte; a report shorter
/// than its layout means nothing, as does an empty buffer.
pub open spec fn decode_spec(buf: Seq<u8>, is_bluetooth: bool) -> InputReportModel {
    if buf.len() == 0 {
        InputReportModel::Nothing
    } else if buf[0] == INPUT_REPORT_USB_ID {
        if is_bluetooth {
            if buf.len() >= SIMPLE_BT_REPORT_LEN {
                InputReportModel::Input(
                    simple_bt_input(buf.subrange(0, SIMPLE_BT_REPORT_LEN as int)),
                )
            } else {
                InputReportModel::Nothing
            }
        } else if buf.len() >= 1 + INPUT_REPORT_LEN {
            InputReportModel::Input(input_from_bytes(buf.subrange(1, 1 + INPUT_REPORT_LEN)))
        } else {
            InputReportModel::Nothing
        }
    } else if buf[0] == INPUT_REPORT_BT_ID {
        if buf.len() >= 2 + INPUT_REPORT_LEN {
            InputReportModel::Input(input_from_bytes(buf.subrange(2, 2 + INPUT_REPORT_LEN)))
        } else {
            InputReportModel::Nothing
        }
    } else {
        InputReportModel::Unknown(buf[0])
    }
}

/// Reads the report in `buf`, the bytes that one read from the device gave.
pub fn decode_input_report(buf: &[u8], is_bluetooth: bool) -> (r: InputReport)
    ensures
        r@ == decode_spec(buf@, is_bluetooth),
{
    let len = buf.len();
    if len == 0 {
        return InputReport::Nothing;
    }
    let id = buf[0];
    if id == INPUT_REPORT_USB_ID {
        if is_bluetooth {
            match DualSenseInputReportSimpleBT::read_from_prefix(buf) {
                Some(report) => InputReport::Input(DualSenseInput::from(report)),
                None => InputReport::Nothing,
            }
        } else if len >= 1 + INPUT_REPORT_LEN {
            InputReport::Input(DualSenseInput::read_at(buf, 1))
        } else {
            InputReport::Nothing
        }
    } else if id == INPUT_REPORT_BT_ID {
        if len >= 2 + INPUT_REPORT_LEN {
            InputReport::Input(DualSenseInput::read_at(buf, 2))
        } else {
            InputReport::Nothing
        }
    } else {
        InputReport::Unknown(id)
    }
}

/// The bytes of a USB output report: its id, then the body.
pub open spec fn usb_output_bytes(m: OutputModel) -> Seq<u8> {
    seq![OUTPUT_REPORT_USB_ID] + output_bytes(m)
}

/// The bytes of a Bluetooth output report before its CRC: id, the sequence
/// number in the high nibble, tag, body, then 24 reserved zero bytes.
pub open spec fn bt_output_payload_bytes(m: OutputModel, seq: u8) -> Seq<u8> {
    seq![OUTPUT_REPORT_BT_ID, (seq * 16) as u8, OUTPUT_REPORT_BT_TAG] + output_bytes(m) + Seq::new(
        BT_OUTPUT_RESERVED_LEN as nat,
        |i: int| 0u8,
    )
}

/// The complete Bluetooth output report: payload, then the CRC-32 of the seed
/// byte and the payload, little-endian.
pub open spec fn bt_output_bytes(m: OutputModel, seq: u8) -> Seq<u8> {
    let payload = bt_output_payload_bytes(m, seq);
    payload + u32_le_bytes(crc32_ieee(seq![OUTPUT_CRC32_SEED] + payload))
}

/// The USB output report for `output`.
pub fn usb_output_report(output: &DualSenseOutput) -> (r: Vec<u8>)
    ensures
        r@ == usb_output_bytes(output@),
{
    let mut r: Vec<u8> = Vec::new();
    r.push(OUTPUT_REPORT_USB_ID);
    let mut body = output.to_bytes();
    r.append(&mut body);
    assert(r@ =~= usb_output_bytes(output@));
    r
}

/// The Bluetooth output report for `output` with sequence number `seq`,
/// without its CRC.
pub fn bt_output_payload(output: &DualSenseOutput, seq: u8) -> (r: Vec<u8>)
    requires
        seq < 16,
    ensures
        r@ == bt_output_payload_bytes(output@, seq),
        r@.len() == BT_OUTPUT_PAYLOAD_LEN,
{
    let mut r: Vec<u8> = Vec::new();
    r.push(OUTPUT_REPORT_BT_ID);
    assert(seq < 16 ==> seq << 4 == (seq * 16) as u8) by (bit_vector);
    r.push(seq << 4);
    r.push(OUTPUT_REPORT_BT_TAG);
    let mut body = output.to_bytes();
    r.append(&mut body);
    let ghost head = r@;
    let mut i: usize = 0;
    while i < BT_OUTPUT_RESERVED_LEN
        invariant
            i <= BT_OUTPUT_RESERVED_LEN,
            r@ == head + Seq::new(i as nat, |j: int| 0u8),
        decreases BT_OUTPUT_RESERVED_LEN - i,
    {
        r.push(0);
        assert(r@ =~= head + Seq::new((i + 1) as nat, |j: int| 0u8));
        i = i + 1;
    }
    assert(r@ =~= bt_output_payload_bytes(output@, seq));
    r
}

/// Appends `crc` to `report`, lowest byte first.
pub fn append_crc(report: &mut Vec<u8>, crc: u32)
    ensures
        final(report)@ == old(report)@ + u32_le_bytes(crc),
{
    push_u32_le(report, crc);
}

/// The CRC-32 that a Bluetooth output report carries: over the seed byte and
/// then `payload`.
pub fn bt_report_crc(payload: &[u8]) -> (crc: u32)
    requires
        payload@.len() < u64::MAX,
    ensures
        crc == crc32_ieee(seq![OUTPUT_CRC32_SEED] + payload@),
{
    let mut digest = Crc32Digest::new();
    let seed: [u8; 1] = [OUTPUT_CRC32_SEED];
    let seed_slice: &[u8] = seed.as_slice();
    digest.update(seed_slice);
    digest.update(payload);
    assert(Seq::<u8>::empty() + seed@ + payload@ =~= seq![OUTPUT_CRC32_SEED] + payload@);
    digest.finalize()
}

/// Appends to a Bluetooth output report its CRC.
pub fn add_crc(report: &mut Vec<u8>)
    requires
        old(report)@.len() < u64::MAX,
    ensures
        final(report)@ == old(report)@ + u32_le_bytes(
            crc32_ieee(seq![OUTPUT_CRC32_SEED] + old(report)@),
        ),
{
    let crc = bt_report_crc(report.as_slice());
    append_crc(report, crc);
}

/// The Bluetooth output report for `output` with sequence number `seq`.
pub fn bt_output_report(output: &DualSenseOutput, seq: u8) -> (r: Vec<u8>)
    requires
        seq < 16,
    ensures
        r@ == bt_output_bytes(output@, seq),
{
    let mut r = bt_output_payload(output, seq);
    add_crc(&mut r);
    r
}

/// The bytes to write to the device for `output`, and the Bluetooth sequence
/// number to use next: over USB the USB report and `seq` unchanged; over
/// Bluetooth the Bluetooth report numbered `seq`, and `seq + 1` modulo 16.
pub fn encode_output_report(output: &DualSenseOutput, is_bluetooth: bool, seq: u8) -> (r: (
    Vec<u8>,
    u8,
))
    requires
        seq < 16,
    ensures
        !is_bluetooth ==> r.0@ == usb_output_bytes(output@) && r.1 == seq,
        is_bluetooth ==> r.0@ == bt_output_bytes(output@, seq) && r.1 == (seq + 1) % 16,
        r.1 < 16,
{
    if !is_bluetooth {
        (usb_output_report(output), seq)
    } else {
        (bt_output_report(output, seq), (seq + 1) % 16)
    }
}

} // verus!

verus! {

/// How the output reports are framed: the USB report is the id 0x02 then the
/// 47-byte body; the Bluetooth report is the id 0x31, the sequence number in
/// the high nibble of the next byte, the tag 0x10, the body, 24 zero bytes,
/// and last the CRC-32 of the seed byte 0xA2 and the 74 bytes before it,
/// lowest byte first.
pub proof fn lemma_output_report_framing(m: OutputModel, seq: u8)
    requires
        seq < 16,
    ensures
        ({
            let u = usb_output_bytes(m);
            let body = output_bytes(m);
            &&& u.len() == 48 && u[0] == 0x02
            &&& forall|i: int| 0 <= i < 47 ==> u[1 + i] == body[i]
        }),
        ({
            let b = bt_output_bytes(m, seq);
            let body = output_bytes(m);
            let payload = b.subrange(0, 74);
            &&& b.len() == 78 && b[0] == 0x31 && b[1] == seq * 16 && b[2] == 0x10
            &&& b[1] / 16 == seq && b[1] % 16 == 0
            &&& (forall|i: int| 0 <= i < 47 ==> b[3 + i] == body[i])
            &&& (forall|i: int| 50 <= i < 74 ==> b[i] == 0)
            &&& le_value4(b[74], b[75], b[76], b[77]) == crc32_ieee(
                seq![OUTPUT_CRC32_SEED] + payload,
            )
        }),
{
    let body = output_bytes(m);
    let u = usb_output_bytes(m);
    assert forall|i: int| 0 <= i < 47 implies u[1 + i] == body[i] by {}
    let payload = bt_output_payload_bytes(m, seq);
    let crc = crc32_ieee(seq![OUTPUT_CRC32_SEED] + payload);
    let b = bt_output_bytes(m, seq);
    assert(b.subrange(0, 74) =~= payload);
    assert forall|i: int| 0 <= i < 47 implies b[3 + i] == body[i] by {}
    assert forall|i: int| 50 <= i < 74 implies b[i] == 0 by {}
    lemma_u32_le_bytes_value(crc);
    assert(b[74] == u32_le_bytes(crc)[0] && b[75] == u32_le_bytes(crc)[1] && b[76]
        == u32_le_bytes(crc)[2] && b[77] == u32_le_bytes(crc)[3]);
}

} // verus!
