use vstd::prelude::*;

use crate::bits::{
    flag, i16_le, i16_le_bytes, le_value2, le_value4, lemma_flag_is_binary_digit,
    lemma_i16_le_roundtrip, lemma_i16_le_value, lemma_u32_le_roundtrip, lemma_u32_le_value,
    push_i16_le, push_u32_le, read_i16_le, read_u32_le, signed16, single_bit, u32_le,
    u32_le_bytes,
};
use crate::button::Button;

verus! {

/// 8 Directions of the DPad or no direction at all
#[derive(Debug, Clone, Copy, PartialEq, Eq, Structural)]
pub enum DPadState {
    /// Up
    North,
    /// Upper right
    NorthEast,
    /// Right
    East,
    /// Lower right
    SouthEast,
    /// Down
    South,
    /// Lower left
    SouthWest,
    /// left
    West,
    /// Upper left
    NorthWest,
    /// No buttons pressed
    Released,
}

/// The direction that the hat switch value `value` reports: 0 is up, counting
/// clockwise in eighths; 8 and every undefined value mean no direction.
pub open spec fn dpad_of(value: u8) -> DPadState {
    if value == 0 {
        DPadState::North
    } else if value == 1 {
        DPadState::NorthEast
    } else if value == 2 {
        DPadState::East
    } else if value == 3 {
        DPadState::SouthEast
    } else if value == 4 {
        DPadState::South
    } else if value == 5 {
        DPadState::SouthWest
    } else if value == 6 {
        DPadState::West
    } else if value == 7 {
        DPadState::NorthWest
    } else {
        DPadState::Released
    }
}

/// The hat switch value of a direction (the inverse of [`dpad_of`] on `0..=8`).
pub open spec fn dpad_code(d: DPadState) -> u8 {
    match d {
        DPadState::North => 0,
        DPadState::NorthEast => 1,
        DPadState::East => 2,
        DPadState::SouthEast => 3,
        DPadState::South => 4,
        DPadState::SouthWest => 5,
        DPadState::West => 6,
        DPadState::NorthWest => 7,
        DPadState::Released => 8,
    }
}

/// The direction holds "up" (straight up or one of the two upper diagonals).
pub open spec fn points_north(d: DPadState) -> bool {
    d == DPadState::North || d == DPadState::NorthEast || d == DPadState::NorthWest
}

/// The direction holds "right".
pub open spec fn points_east(d: DPadState) -> bool {
    d == DPadState::East || d == DPadState::NorthEast || d == DPadState::SouthEast
}

/// The direction holds "down".
pub open spec fn points_south(d: DPadState) -> bool {
    d == DPadState::South || d == DPadState::SouthEast || d == DPadState::SouthWest
}

/// The direction holds "left".
pub open spec fn points_west(d: DPadState) -> bool {
    d == DPadState::West || d == DPadState::NorthWest || d == DPadState::SouthWest
}

/// The direction made of the given held directions; pairs of neighbours become a
/// diagonal, and nothing held is `Released`.
pub open spec fn dpad_from_directions(n: bool, e: bool, s: bool, w: bool) -> DPadState {
    if n && e {
        DPadState::NorthEast
    } else if e && s {
        DPadState::SouthEast
    } else if s && w {
        DPadState::SouthWest
    } else if n && w {
        DPadState::NorthWest
    } else if n {
        DPadState::North
    } else if e {
        DPadState::East
    } else if s {
        DPadState::South
    } else if w {
        DPadState::West
    } else {
        DPadState::Released
    }
}

/// The directions that `a` holds and `b` does not, as one direction.
pub open spec fn dpad_diff(a: DPadState, b: DPadState) -> DPadState {
    dpad_from_directions(
        points_north(a) && !points_north(b),
        points_east(a) && !points_east(b),
        points_south(a) && !points_south(b),
        points_west(a) && !points_west(b),
    )
}

impl DPadState {
    /// The hat switch value of this direction.
    fn code(&self) -> (r: u8)
        ensures
            r == dpad_code(*self),
    {
        match self {
            DPadState::North => 0,
            DPadState::NorthEast => 1,
            DPadState::East => 2,
            DPadState::SouthEast => 3,
            DPadState::South => 4,
            DPadState::SouthWest => 5,
            DPadState::West => 6,
            DPadState::NorthWest => 7,
            DPadState::Released => 8,
        }
    }

    fn diff_3(&self, other: &DPadState, a: DPadState, b: DPadState, c: DPadState) -> (r: bool)
        ensures
            r == ((*self == a || *self == b || *self == c) && (*other != a && *other != b
                && *other != c)),
    {
        (*self == a || *self == b || *self == c) && (*other != a && *other != b && *other != c)
    }

    /// The directions held in `self` and not in `other`.
    fn diff(&self, other: &DPadState) -> (r: DPadState)
        ensures
            r == dpad_diff(*self, *other),
    {
        let diff_north = self.diff_3(
            other,
            DPadState::North,
            DPadState::NorthEast,
            DPadState::NorthWest,
        );
        let diff_east = self.diff_3(
            other,
            DPadState::East,
            DPadState::NorthEast,
            DPadState::SouthEast,
        );
        let diff_south = self.diff_3(
            other,
            DPadState::South,
            DPadState::SouthEast,
            DPadState::SouthWest,
        );
        let diff_west = self.diff_3(
            other,
            DPadState::West,
            DPadState::NorthWest,
            DPadState::SouthWest,
        );
        match (diff_north, diff_east, diff_south, diff_west) {
            (true, true, _, _) => DPadState::NorthEast,
            (_, true, true, _) => DPadState::SouthEast,
            (_, _, true, true) => DPadState::SouthWest,
            (true, _, _, true) => DPadState::NorthWest,
            (true, _, _, _) => DPadState::North,
            (_, true, _, _) => DPadState::East,
            (_, _, true, _) => DPadState::South,
            (_, _, _, true) => DPadState::West,
            _ => DPadState::Released,
        }
    }
}

impl From<u8> for DPadState {
    fn from(value: u8) -> (r: Self)
        ensures
            r == dpad_of(value),
    {
        match value {
            0 => DPadState::North,
            1 => DPadState::NorthEast,
            2 => DPadState::East,
            3 => DPadState::SouthEast,
            4 => DPadState::South,
            5 => DPadState::SouthWest,
            6 => DPadState::West,
            7 => DPadState::NorthWest,
            _ => DPadState::Released,
        }
    }
}

impl vstd::std_specs::convert::FromSpecImpl<u8> for DPadState {
    open spec fn obeys_from_spec() -> bool {
        true
    }

    open spec fn from_spec(v: u8) -> DPadState {
        dpad_of(v)
    }
}

/// Reading back the hat switch value of a direction gives that direction.
pub proof fn lemma_dpad_code_roundtrip(d: DPadState)
    ensures
        dpad_of(dpad_code(d)) == d,
        dpad_code(d) <= 8,
{
}

/// The difference of two directions holds a direction exactly when the first
/// holds it and the second does not.
pub proof fn lemma_dpad_diff_directions(a: DPadState, b: DPadState)
    ensures
        points_north(dpad_diff(a, b)) == (points_north(a) && !points_north(b)),
        points_east(dpad_diff(a, b)) == (points_east(a) && !points_east(b)),
        points_south(dpad_diff(a, b)) == (points_south(a) && !points_south(b)),
        points_west(dpad_diff(a, b)) == (points_west(a) && !points_west(b)),
{
}

/// Battery power state
#[derive(Debug, Clone, Copy, PartialEq, Eq, Structural)]
pub enum PowerState {
    /// Percentage (0-100)
    Discharging(u8),
    /// Percentage (0-100)
    Charging(u8),
    /// Battery is fully charged
    Full,
    /// Battery state is unknown
    Unknown,
}

/// The battery state that the power byte `value` reports: bit 4 is "charging",
/// the low nibble is the level in tenths, shown as a percentage capped at 100;
/// charging at level 10 is `Full`.
pub open spec fn power_state_of(value: u8) -> PowerState {
    let charging = (value & 0x10) != 0;
    let level = value & 0x0F;
    let percentage: u8 = if level * 10 <= 100 {
        (level * 10) as u8
    } else {
        100
    };
    if charging && level == 10 {
        PowerState::Full
    } else if charging {
        PowerState::Charging(percentage)
    } else {
        PowerState::Discharging(percentage)
    }
}

impl From<u8> for PowerState {
    fn from(value: u8) -> (r: Self)
        ensures
            r == power_state_of(value),
    {
        let is_charging = (value & 0x10) != 0;
        let level = value & 0x0F;
        assert(value & 0x0F <= 15) by (bit_vector);
        let tenfold = level * 10;
        let percentage = if tenfold > 100 {
            100
        } else {
            tenfold
        };
        match (is_charging, level) {
            (true, 10) => PowerState::Full,
            (true, _) => PowerState::Charging(percentage),
            (false, _) => PowerState::Discharging(percentage),
        }
    }
}

impl vstd::std_specs::convert::FromSpecImpl<u8> for PowerState {
    open spec fn obeys_from_spec() -> bool {
        true
    }

    open spec fn from_spec(v: u8) -> PowerState {
        power_state_of(v)
    }
}

/// A reported charge percentage never exceeds 100.
pub proof fn lemma_power_percentage_bound(value: u8)
    ensures
        power_state_of(value) matches PowerState::Charging(p) ==> p <= 100,
        power_state_of(value) matches PowerState::Discharging(p) ==> p <= 100,
        power_state_of(value) != PowerState::Unknown,
{
}

/// Touchpad data for a single finger x and y coordinate are both 12 bit values
#[derive(Debug, Clone, Copy, Default, PartialEq, Eq, Structural)]
pub struct TouchData {
    /// First bit is a flag wether the finger is touching the touchpad.
    /// The other bytes are a finger ID.
    /// Every time a finger touches the touchpad it gets an incremented ID.
    pub contact_id: u8,
    /// lower 8 bits of the x coordinate
    pub x_low: u8,
    /// lower 4 bits of the y coordinate and higher 4 bits of the x coordinate
    pub y_low_x_high: u8,
    /// higher 8 bits of the y coordinate
    pub y_high: u8,
}

impl TouchData {
    /// The x coordinate: `x_low` below the low nibble of `y_low_x_high`.
    pub open spec fn spec_x(&self) -> int {
        (self.y_low_x_high % 16) * 256 + self.x_low
    }

    /// The y coordinate: the high nibble of `y_low_x_high` below `y_high`.
    pub open spec fn spec_y(&self) -> int {
        self.y_high * 16 + self.y_low_x_high / 16
    }

    /// Returns true if the finger is touching the touchpad
    pub fn is_active(&self) -> (r: bool)
        ensures
            r == (self.contact_id < 0x80),
    {
        let c = self.contact_id;
        assert((c & 0x80) == 0 <==> c < 0x80) by (bit_vector);
        (self.contact_id & 0x80) == 0
    }

    /// x coordinate of touching finger
    pub fn x(&self) -> (r: u16)
        ensures
            r == self.spec_x(),
            r < 4096,
    {
        let yx = self.y_low_x_high;
        let xl = self.x_low;
        assert((((yx as u16 & 0x0F) << 8) | xl as u16) == (yx % 16) * 256 + xl) by (bit_vector);
        ((self.y_low_x_high as u16 & 0x0F) << 8) | self.x_low as u16
    }

    /// y coordinate of touching finger
    pub fn y(&self) -> (r: u16)
        ensures
            r == self.spec_y(),
            r < 4096,
    {
        let yx = self.y_low_x_high;
        let yh = self.y_high;
        assert((((yh as u16) << 4) | ((yx as u16 & 0xF0) >> 4)) == yh * 16 + yx / 16)
            by (bit_vector);
        ((self.y_high as u16) << 4) | ((self.y_low_x_high as u16 & 0xF0) >> 4)
    }
}

} // verus!

verus! {

/// What an input report holds, field by field, as plain values.
pub ghost struct InputModel {
    pub left_stick_x: u8,
    pub left_stick_y: u8,
    pub right_stick_x: u8,
    pub right_stick_y: u8,
    pub l2_axis: u8,
    pub r2_axis: u8,
    pub seq_number: u8,
    /// Hat switch (low nibble) and shape buttons (high nibble)
    pub buttons_low: u8,
    /// L1, R1, L2, R2, Create, Menu, L3, R3
    pub buttons_high: u8,
    /// PS, touchpad click, mute
    pub buttons_misc: u8,
    pub unknown_1: Seq<u8>,
    pub gyro_x: i16,
    pub gyro_y: i16,
    pub gyro_z: i16,
    pub accel_x: i16,
    pub accel_y: i16,
    pub accel_z: i16,
    pub sensor_timestamp: u32,
    pub temperature: u8,
    pub touch_1: TouchData,
    pub touch_2: TouchData,
    pub trigger_right: u8,
    pub trigger_left: u8,
    pub host_timestamp: u32,
    pub trigger_effects: u8,
    pub device_timestamp: u32,
    pub power: u8,
    pub misc_flags_1: u8,
    pub misc_flags_2: u8,
    pub aes_cmac: u8,
}

impl InputModel {
    /// The state of the directional pad.
    pub open spec fn dpad(self) -> DPadState {
        dpad_of(self.buttons_low & 0x0F)
    }

    /// Whether button `b` is held down in this report.
    pub open spec fn button_down(self, b: Button) -> bool {
        match b {
            Button::DpadUp => points_north(self.dpad()),
            Button::DpadRight => points_east(self.dpad()),
            Button::DpadDown => points_south(self.dpad()),
            Button::DpadLeft => points_west(self.dpad()),
            Button::Square => flag(self.buttons_low, 0x10),
            Button::Cross => flag(self.buttons_low, 0x20),
            Button::Circle => flag(self.buttons_low, 0x40),
            Button::Triangle => flag(self.buttons_low, 0x80),
            Button::L1 => flag(self.buttons_high, 0x01),
            Button::R1 => flag(self.buttons_high, 0x02),
            Button::L2 => flag(self.buttons_high, 0x04),
            Button::R2 => flag(self.buttons_high, 0x08),
            Button::Create => flag(self.buttons_high, 0x10),
            Button::Menu => flag(self.buttons_high, 0x20),
            Button::L3 => flag(self.buttons_high, 0x40),
            Button::R3 => flag(self.buttons_high, 0x80),
            Button::PS => flag(self.buttons_misc, 0x01),
            Button::Touchpad => flag(self.buttons_misc, 0x02),
            Button::Mute => flag(self.buttons_misc, 0x04),
        }
    }

    /// This report with only the buttons that are down here and not in `other`.
    pub open spec fn diff(self, other: InputModel) -> InputModel {
        InputModel {
            buttons_low: ((self.buttons_low & !other.buttons_low) & 0xF0) | dpad_code(
                dpad_diff(self.dpad(), other.dpad()),
            ),
            buttons_high: self.buttons_high & !other.buttons_high,
            buttons_misc: self.buttons_misc & !other.buttons_misc,
            ..self
        }
    }

    /// The report with every byte zero.
    pub open spec fn zero() -> InputModel {
        InputModel {
            left_stick_x: 0,
            left_stick_y: 0,
            right_stick_x: 0,
            right_stick_y: 0,
            l2_axis: 0,
            r2_axis: 0,
            seq_number: 0,
            buttons_low: 0,
            buttons_high: 0,
            buttons_misc: 0,
            unknown_1: seq![0u8, 0u8, 0u8, 0u8, 0u8],
            gyro_x: 0,
            gyro_y: 0,
            gyro_z: 0,
            accel_x: 0,
            accel_y: 0,
            accel_z: 0,
            sensor_timestamp: 0,
            temperature: 0,
            touch_1: TouchData { contact_id: 0, x_low: 0, y_low_x_high: 0, y_high: 0 },
            touch_2: TouchData { contact_id: 0, x_low: 0, y_low_x_high: 0, y_high: 0 },
            trigger_right: 0,
            trigger_left: 0,
            host_timestamp: 0,
            trigger_effects: 0,
            device_timestamp: 0,
            power: 0,
            misc_flags_1: 0,
            misc_flags_2: 0,
            aes_cmac: 0,
        }
    }
}

/// Clearing the bits of `other` from `self` keeps a single-bit flag exactly when
/// it is set in `self` and not in `other`.
proof fn lemma_and_not_flag(x: u8, y: u8, m: u8)
    requires
        single_bit(m),
    ensures
        flag(x & !y, m) == (flag(x, m) && !flag(y, m)),
{
    assert(single_bit(m) ==> (((x & !y) & m) != 0) == (((x & m) != 0) && ((y & m) == 0)))
        by (bit_vector);
}

/// The shape buttons and the hat switch of a difference byte.
proof fn lemma_diff_low_byte(x: u8, y: u8, c: u8, m: u8)
    requires
        c <= 8,
        m == 0x10 || m == 0x20 || m == 0x40 || m == 0x80,
    ensures
        (((x & !y) & 0xF0) | c) & 0x0F == c,
        flag(((x & !y) & 0xF0) | c, m) == (flag(x, m) && !flag(y, m)),
{
    assert(c <= 8 ==> (((x & !y) & 0xF0) | c) & 0x0F == c) by (bit_vector);
    assert((m == 0x10 || m == 0x20 || m == 0x40 || m == 0x80) && c <= 8 ==> (((((x & !y) & 0xF0)
        | c) & m) != 0) == (((x & m) != 0) && ((y & m) == 0))) by (bit_vector);
}

/// The difference of two reports holds a button down exactly when the first
/// report holds it and the second does not: `new.diff(old)` shows the buttons
/// pressed since `old`, and `old.diff(new)` the buttons released.
pub proof fn lemma_diff_button_down(a: InputModel, b: InputModel, btn: Button)
    ensures
        a.diff(b).button_down(btn) == (a.button_down(btn) && !b.button_down(btn)),
{
    let d = dpad_diff(a.dpad(), b.dpad());
    let c = dpad_code(d);
    lemma_dpad_code_roundtrip(d);
    lemma_diff_low_byte(a.buttons_low, b.buttons_low, c, 0x10);
    lemma_diff_low_byte(a.buttons_low, b.buttons_low, c, 0x20);
    lemma_diff_low_byte(a.buttons_low, b.buttons_low, c, 0x40);
    lemma_diff_low_byte(a.buttons_low, b.buttons_low, c, 0x80);
    assert(a.diff(b).dpad() == d);
    lemma_dpad_diff_directions(a.dpad(), b.dpad());
    match btn {
        Button::L1 => lemma_and_not_flag(a.buttons_high, b.buttons_high, 0x01),
        Button::R1 => lemma_and_not_flag(a.buttons_high, b.buttons_high, 0x02),
        Button::L2 => lemma_and_not_flag(a.buttons_high, b.buttons_high, 0x04),
        Button::R2 => lemma_and_not_flag(a.buttons_high, b.buttons_high, 0x08),
        Button::Create => lemma_and_not_flag(a.buttons_high, b.buttons_high, 0x10),
        Button::Menu => lemma_and_not_flag(a.buttons_high, b.buttons_high, 0x20),
        Button::L3 => lemma_and_not_flag(a.buttons_high, b.buttons_high, 0x40),
        Button::R3 => lemma_and_not_flag(a.buttons_high, b.buttons_high, 0x80),
        Button::PS => lemma_and_not_flag(a.buttons_misc, b.buttons_misc, 0x01),
        Button::Touchpad => lemma_and_not_flag(a.buttons_misc, b.buttons_misc, 0x02),
        Button::Mute => lemma_and_not_flag(a.buttons_misc, b.buttons_misc, 0x04),
        _ => {},
    }
}

/// A report compared with itself shows no button pressed.
pub proof fn lemma_diff_self_empty(a: InputModel, btn: Button)
    ensures
        !a.diff(a).button_down(btn),
{
    lemma_diff_button_down(a, a, btn);
}

} // verus!

verus! {

/// Base struct for input reports
#[derive(Debug, Clone, Copy)]
pub struct DualSenseInput {
    left_stick_x: u8,
    left_stick_y: u8,
    right_stick_x: u8,
    right_stick_y: u8,
    l2_axis: u8,
    r2_axis: u8,
    seq_number: u8,
    buttons_low: u8,
    buttons_high: u8,
    buttons_misc: u8,
    unknown_1: [u8; 5],
    /// X coordinate for the gyro
    pub gyro_x: i16,
    /// Y coordinate for the gyro
    pub gyro_y: i16,
    /// Z coordinate for the gyro
    pub gyro_z: i16,
    /// X coordinate for the accelerometer
    pub accel_x: i16,
    /// Y coordinate for the accelerometer
    pub accel_y: i16,
    /// Z coordinate for the accelerometer
    pub accel_z: i16,
    sensor_timestamp: u32,
    temperature: u8,
    /// Touch data for one finger
    pub touch_1: TouchData,
    /// Touch data for a second finger
    pub touch_2: TouchData,
    trigger_right: u8,
    trigger_left: u8,
    host_timestamp: u32,
    trigger_effects: u8,
    device_timestamp: u32,
    power: u8,
    misc_flags_1: u8,
    misc_flags_2: u8,
    aes_cmac: u8,
}

impl View for DualSenseInput {
    type V = InputModel;

    closed spec fn view(&self) -> InputModel {
        InputModel {
            left_stick_x: self.left_stick_x,
            left_stick_y: self.left_stick_y,
            right_stick_x: self.right_stick_x,
            right_stick_y: self.right_stick_y,
            l2_axis: self.l2_axis,
            r2_axis: self.r2_axis,
            seq_number: self.seq_number,
            buttons_low: self.buttons_low,
            buttons_high: self.buttons_high,
            buttons_misc: self.buttons_misc,
            unknown_1: self.unknown_1@,
            gyro_x: self.gyro_x,
            gyro_y: self.gyro_y,
            gyro_z: self.gyro_z,
            accel_x: self.accel_x,
            accel_y: self.accel_y,
            accel_z: self.accel_z,
            sensor_timestamp: self.sensor_timestamp,
            temperature: self.temperature,
            touch_1: self.touch_1,
            touch_2: self.touch_2,
            trigger_right: self.trigger_right,
            trigger_left: self.trigger_left,
            host_timestamp: self.host_timestamp,
            trigger_effects: self.trigger_effects,
            device_timestamp: self.device_timestamp,
            power: self.power,
            misc_flags_1: self.misc_flags_1,
            misc_flags_2: self.misc_flags_2,
            aes_cmac: self.aes_cmac,
        }
    }
}

impl Default for DualSenseInput {
    fn default() -> (r: Self)
        ensures
            r@ == InputModel::zero(),
    {
        let r = DualSenseInput {
            left_stick_x: 0,
            left_stick_y: 0,
            right_stick_x: 0,
            right_stick_y: 0,
            l2_axis: 0,
            r2_axis: 0,
            seq_number: 0,
            buttons_low: 0,
            buttons_high: 0,
            buttons_misc: 0,
            unknown_1: [0u8; 5],
            gyro_x: 0,
            gyro_y: 0,
            gyro_z: 0,
            accel_x: 0,
            accel_y: 0,
            accel_z: 0,
            sensor_timestamp: 0,
            temperature: 0,
            touch_1: TouchData { contact_id: 0, x_low: 0, y_low_x_high: 0, y_high: 0 },
            touch_2: TouchData { contact_id: 0, x_low: 0, y_low_x_high: 0, y_high: 0 },
            trigger_right: 0,
            trigger_left: 0,
            host_timestamp: 0,
            trigger_effects: 0,
            device_timestamp: 0,
            power: 0,
            misc_flags_1: 0,
            misc_flags_2: 0,
            aes_cmac: 0,
        };
        assert(r.unknown_1@ =~= seq![0u8, 0u8, 0u8, 0u8, 0u8]);
        r
    }
}

impl DualSenseInput {
    /// Returns true if a [Button] is currently being held down
    pub fn is_button_down(&self, b: Button) -> (r: bool)
        ensures
            r == self@.button_down(b),
    {
        match b {
            // D-pad: diagonal positions also press both neighbouring directions
            Button::DpadUp => {
                let d = self.dpad();
                d == DPadState::North || d == DPadState::NorthEast || d == DPadState::NorthWest
            },
            Button::DpadRight => {
                let d = self.dpad();
                d == DPadState::East || d == DPadState::NorthEast || d == DPadState::SouthEast
            },
            Button::DpadDown => {
                let d = self.dpad();
                d == DPadState::South || d == DPadState::SouthEast || d == DPadState::SouthWest
            },
            Button::DpadLeft => {
                let d = self.dpad();
                d == DPadState::West || d == DPadState::NorthWest || d == DPadState::SouthWest
            },
            // Face buttons
            Button::Square => (self.buttons_low & 0x10) != 0,
            Button::Cross => (self.buttons_low & 0x20) != 0,
            Button::Circle => (self.buttons_low & 0x40) != 0,
            Button::Triangle => (self.buttons_low & 0x80) != 0,
            // Shoulders & triggers
            Button::L1 => (self.buttons_high & 0x01) != 0,
            Button::R1 => (self.buttons_high & 0x02) != 0,
            Button::L2 => (self.buttons_high & 0x04) != 0,
            Button::R2 => (self.buttons_high & 0x08) != 0,
            Button::L3 => (self.buttons_high & 0x40) != 0,
            Button::R3 => (self.buttons_high & 0x80) != 0,
            // System/misc buttons
            Button::PS => (self.buttons_misc & 0x01) != 0,
            Button::Touchpad => (self.buttons_misc & 0x02) != 0,
            Button::Mute => (self.buttons_misc & 0x04) != 0,
            Button::Create => (self.buttons_high & 0x10) != 0,
            Button::Menu => (self.buttons_high & 0x20) != 0,
        }
    }

    /// Returns raw data for the (x, y) coordinate of the left stick
    /// Note: deadzones are not applied to these values
    pub fn left_stick(&self) -> (r: (u8, u8))
        ensures
            r == (self@.left_stick_x, self@.left_stick_y),
    {
        (self.left_stick_x, self.left_stick_y)
    }

    /// Returns raw data for the (x, y) coordinate of the right stick
    /// Note: deadzones are not applied to these values
    pub fn right_stick(&self) -> (r: (u8, u8))
        ensures
            r == (self@.right_stick_x, self@.right_stick_y),
    {
        (self.right_stick_x, self.right_stick_y)
    }

    /// returns the variable position data for the L2 button (under the left middle finger)
    pub fn l2_axis(&self) -> (r: u8)
        ensures
            r == self@.l2_axis,
    {
        self.l2_axis
    }

    /// returns the variable position data for the R2 button (under the right middle finger)
    pub fn r2_axis(&self) -> (r: u8)
        ensures
            r == self@.r2_axis,
    {
        self.r2_axis
    }

    /// Returns: [DPadState]
    pub fn dpad(&self) -> (r: DPadState)
        ensures
            r == self@.dpad(),
    {
        DPadState::from(self.buttons_low & 0x0F)
    }

    /// Returns true if the PlayStation button is being pressed
    pub fn ps(&self) -> (r: bool)
        ensures
            r == self@.button_down(Button::PS),
    {
        (self.buttons_misc & 0x01) != 0
    }

    /// Returns true if the touchpad button is being pressed
    pub fn touchpad_click(&self) -> (r: bool)
        ensures
            r == self@.button_down(Button::Touchpad),
    {
        (self.buttons_misc & 0x02) != 0
    }

    /// Returns true if the mute button is being pressed
    pub fn mute(&self) -> (r: bool)
        ensures
            r == self@.button_down(Button::Mute),
    {
        (self.buttons_misc & 0x04) != 0
    }

    /// Returns the [PowerState] of the battery
    pub fn battery_state(&self) -> (r: PowerState)
        ensures
            r == power_state_of(self@.power),
    {
        PowerState::from(self.power)
    }

    /// new.diff(&old).is_button_down() => button pressed
    /// old.diff(&new).is_button_down() => button released
    pub fn diff(&self, other: &DualSenseInput) -> (r: DualSenseInput)
        ensures
            r@ == self@.diff(other@),
    {
        let mut diff = *self;
        diff.buttons_low = self.buttons_low & !other.buttons_low;
        // the hat switch is a value, not a set of bits
        diff.buttons_low = diff.buttons_low & 0xF0;
        diff.buttons_low = diff.buttons_low | self.dpad().diff(&other.dpad()).code();
        diff.buttons_high = self.buttons_high & !other.buttons_high;
        diff.buttons_misc = self.buttons_misc & !other.buttons_misc;
        diff
    }
}

} // verus!

verus! {

/// Length in bytes of an input report's body.
pub const INPUT_REPORT_LEN: usize = 55;

/// The four bytes of one finger's touch data.
pub open spec fn touch_bytes(t: TouchData) -> Seq<u8> {
    seq![t.contact_id, t.x_low, t.y_low_x_high, t.y_high]
}

/// Length in bytes of one finger's touch data.
pub const TOUCH_DATA_LEN: usize = 4;

impl TouchData {
    /// Reads one finger's touch data from the start of `bytes`; `None` when
    /// fewer than four bytes are given. Bytes after the first four are ignored.
    pub fn read_from_prefix(bytes: &[u8]) -> (r: Option<TouchData>)
        ensures
            r is Some <==> bytes@.len() >= TOUCH_DATA_LEN,
            r matches Some(t) ==> touch_bytes(t) == bytes@.subrange(0, TOUCH_DATA_LEN as int),
    {
        if bytes.len() < TOUCH_DATA_LEN {
            return None;
        }
        let t = TouchData {
            contact_id: bytes[0],
            x_low: bytes[1],
            y_low_x_high: bytes[2],
            y_high: bytes[3],
        };
        assert(touch_bytes(t) =~= bytes@.subrange(0, 4));
        Some(t)
    }

    /// The four bytes of this touch data, as the controller sends them.
    pub fn to_bytes(&self) -> (r: Vec<u8>)
        ensures
            r@ == touch_bytes(*self),
    {
        let mut out: Vec<u8> = Vec::new();
        out.push(self.contact_id);
        out.push(self.x_low);
        out.push(self.y_low_x_high);
        out.push(self.y_high);
        assert(out@ =~= touch_bytes(*self));
        out
    }
}

/// The bytes of an input report body, in the order the controller sends them;
/// multi-byte values are little-endian.
pub open spec fn input_bytes(m: InputModel) -> Seq<u8> {
    seq![
        m.left_stick_x,
        m.left_stick_y,
        m.right_stick_x,
        m.right_stick_y,
        m.l2_axis,
        m.r2_axis,
        m.seq_number,
        m.buttons_low,
        m.buttons_high,
        m.buttons_misc,
    ] + m.unknown_1 + i16_le_bytes(m.gyro_x) + i16_le_bytes(m.gyro_y) + i16_le_bytes(m.gyro_z)
        + i16_le_bytes(m.accel_x) + i16_le_bytes(m.accel_y) + i16_le_bytes(m.accel_z)
        + u32_le_bytes(m.sensor_timestamp) + seq![m.temperature] + touch_bytes(m.touch_1)
        + touch_bytes(m.touch_2) + seq![m.trigger_right, m.trigger_left] + u32_le_bytes(
        m.host_timestamp,
    ) + seq![m.trigger_effects] + u32_le_bytes(m.device_timestamp) + seq![
        m.power,
        m.misc_flags_1,
        m.misc_flags_2,
        m.aes_cmac,
    ]
}

/// The input report whose body is the first 55 bytes of `s`.
pub open spec fn input_from_bytes(s: Seq<u8>) -> InputModel {
    InputModel {
        left_stick_x: s[0],
        left_stick_y: s[1],
        right_stick_x: s[2],
        right_stick_y: s[3],
        l2_axis: s[4],
        r2_axis: s[5],
        seq_number: s[6],
        buttons_low: s[7],
        buttons_high: s[8],
        buttons_misc: s[9],
        unknown_1: s.subrange(10, 15),
        gyro_x: i16_le(s[15], s[16]),
        gyro_y: i16_le(s[17], s[18]),
        gyro_z: i16_le(s[19], s[20]),
        accel_x: i16_le(s[21], s[22]),
        accel_y: i16_le(s[23], s[24]),
        accel_z: i16_le(s[25], s[26]),
        sensor_timestamp: u32_le(s[27], s[28], s[29], s[30]),
        temperature: s[31],
        touch_1: TouchData { contact_id: s[32], x_low: s[33], y_low_x_high: s[34], y_high: s[35] },
        touch_2: TouchData { contact_id: s[36], x_low: s[37], y_low_x_high: s[38], y_high: s[39] },
        trigger_right: s[40],
        trigger_left: s[41],
        host_timestamp: u32_le(s[42], s[43], s[44], s[45]),
        trigger_effects: s[46],
        device_timestamp: u32_le(s[47], s[48], s[49], s[50]),
        power: s[51],
        misc_flags_1: s[52],
        misc_flags_2: s[53],
        aes_cmac: s[54],
    }
}

/// Serializing a report gives 55 bytes, and reading them back gives the same report.
pub proof fn lemma_input_bytes_roundtrip(m: InputModel)
    requires
        m.unknown_1.len() == 5,
    ensures
        input_bytes(m).len() == INPUT_REPORT_LEN,
        input_from_bytes(input_bytes(m)) == m,
{
    let s = input_bytes(m);
    lemma_i16_le_roundtrip(m.gyro_x, 0, 0);
    lemma_i16_le_roundtrip(m.gyro_y, 0, 0);
    lemma_i16_le_roundtrip(m.gyro_z, 0, 0);
    lemma_i16_le_roundtrip(m.accel_x, 0, 0);
    lemma_i16_le_roundtrip(m.accel_y, 0, 0);
    lemma_i16_le_roundtrip(m.accel_z, 0, 0);
    lemma_u32_le_roundtrip(m.sensor_timestamp, 0, 0, 0, 0);
    lemma_u32_le_roundtrip(m.host_timestamp, 0, 0, 0, 0);
    lemma_u32_le_roundtrip(m.device_timestamp, 0, 0, 0, 0);
    assert(s.subrange(10, 15) =~= m.unknown_1);
    assert(input_from_bytes(s) =~= m);
}

/// Reading a report from 55 bytes and serializing it gives the same bytes.
pub proof fn lemma_bytes_input_roundtrip(s: Seq<u8>)
    requires
        s.len() == INPUT_REPORT_LEN,
    ensures
        input_bytes(input_from_bytes(s)) == s,
{
    lemma_i16_le_roundtrip(0, s[15], s[16]);
    lemma_i16_le_roundtrip(0, s[17], s[18]);
    lemma_i16_le_roundtrip(0, s[19], s[20]);
    lemma_i16_le_roundtrip(0, s[21], s[22]);
    lemma_i16_le_roundtrip(0, s[23], s[24]);
    lemma_i16_le_roundtrip(0, s[25], s[26]);
    lemma_u32_le_roundtrip(0, s[27], s[28], s[29], s[30]);
    lemma_u32_le_roundtrip(0, s[42], s[43], s[44], s[45]);
    lemma_u32_le_roundtrip(0, s[47], s[48], s[49], s[50]);
    assert(input_bytes(input_from_bytes(s)) =~= s);
}

} // verus!

verus! {

impl DualSenseInput {
    /// Two reports with the same view are the same report.
    pub proof fn lemma_view_injective(a: DualSenseInput, b: DualSenseInput)
        requires
            a@ == b@,
        ensures
            a == b,
    {
        broadcast use vstd::array::group_array_axioms;

        assert(a.unknown_1 =~= b.unknown_1) by {
            assert(a.unknown_1@ == b.unknown_1@);
            assert forall|i: int| 0 <= i < 5 implies a.unknown_1[i] == b.unknown_1[i] by {
                assert(a.unknown_1@[i] == b.unknown_1@[i]);
            }
        }
    }

    /// Every report's unknown block is five bytes long.
    pub proof fn lemma_model_shape(&self)
        ensures
            self@.unknown_1.len() == 5,
    {
    }

    /// Reads a report body from the 55 bytes that start at `off`.
    pub(crate) fn read_at(bytes: &[u8], off: usize) -> (r: DualSenseInput)
        requires
            off + INPUT_REPORT_LEN <= bytes@.len(),
        ensures
            r@ == input_from_bytes(bytes@.subrange(off as int, off + INPUT_REPORT_LEN)),
    {
        let _len = bytes.len();
        let mut unknown_1 = [0u8; 5];
        unknown_1[0] = bytes[off + 10];
        unknown_1[1] = bytes[off + 11];
        unknown_1[2] = bytes[off + 12];
        unknown_1[3] = bytes[off + 13];
        unknown_1[4] = bytes[off + 14];
        let r = DualSenseInput {
            left_stick_x: bytes[off],
            left_stick_y: bytes[off + 1],
            right_stick_x: bytes[off + 2],
            right_stick_y: bytes[off + 3],
            l2_axis: bytes[off + 4],
            r2_axis: bytes[off + 5],
            seq_number: bytes[off + 6],
            buttons_low: bytes[off + 7],
            buttons_high: bytes[off + 8],
            buttons_misc: bytes[off + 9],
            unknown_1,
            gyro_x: read_i16_le(bytes, off + 15),
            gyro_y: read_i16_le(bytes, off + 17),
            gyro_z: read_i16_le(bytes, off + 19),
            accel_x: read_i16_le(bytes, off + 21),
            accel_y: read_i16_le(bytes, off + 23),
            accel_z: read_i16_le(bytes, off + 25),
            sensor_timestamp: read_u32_le(bytes, off + 27),
            temperature: bytes[off + 31],
            touch_1: TouchData {
                contact_id: bytes[off + 32],
                x_low: bytes[off + 33],
                y_low_x_high: bytes[off + 34],
                y_high: bytes[off + 35],
            },
            touch_2: TouchData {
                contact_id: bytes[off + 36],
                x_low: bytes[off + 37],
                y_low_x_high: bytes[off + 38],
                y_high: bytes[off + 39],
            },
            trigger_right: bytes[off + 40],
            trigger_left: bytes[off + 41],
            host_timestamp: read_u32_le(bytes, off + 42),
            trigger_effects: bytes[off + 46],
            device_timestamp: read_u32_le(bytes, off + 47),
            power: bytes[off + 51],
            misc_flags_1: bytes[off + 52],
            misc_flags_2: bytes[off + 53],
            aes_cmac: bytes[off + 54],
        };
        let ghost s = bytes@.subrange(off as int, off + INPUT_REPORT_LEN);
        assert(r.unknown_1@ =~= s.subrange(10, 15));
        assert(r@ =~= input_from_bytes(s));
        r
    }

    /// Reads a report from the start of `bytes`; `None` when fewer than 55
    /// bytes are given. Bytes after the first 55 are ignored.
    pub fn read_from_prefix(bytes: &[u8]) -> (r: Option<DualSenseInput>)
        ensures
            r is Some <==> bytes@.len() >= INPUT_REPORT_LEN,
            r matches Some(x) ==> x@ == input_from_bytes(bytes@),
    {
        if bytes.len() < INPUT_REPORT_LEN {
            None
        } else {
            let r = Self::read_at(bytes, 0);
            assert(input_from_bytes(bytes@.subrange(0, 55)) =~= input_from_bytes(bytes@)) by {
                assert(bytes@.subrange(0, 55).subrange(10, 15) =~= bytes@.subrange(10, 15));
            }
            Some(r)
        }
    }

    /// The 55 bytes of this report body, as the controller sends them.
    pub fn to_bytes(&self) -> (r: Vec<u8>)
        ensures
            r@ == input_bytes(self@),
            r@.len() == INPUT_REPORT_LEN,
    {
        let mut out: Vec<u8> = Vec::new();
        out.push(self.left_stick_x);
        out.push(self.left_stick_y);
        out.push(self.right_stick_x);
        out.push(self.right_stick_y);
        out.push(self.l2_axis);
        out.push(self.r2_axis);
        out.push(self.seq_number);
        out.push(self.buttons_low);
        out.push(self.buttons_high);
        out.push(self.buttons_misc);
        let mut i: usize = 0;
        while i < 5
            invariant
                i <= 5,
                out@.len() == 10 + i,
                out@.subrange(10, 10 + i as int) == self.unknown_1@.subrange(0, i as int),
                out@.subrange(0, 10) == seq![
                    self.left_stick_x,
                    self.left_stick_y,
                    self.right_stick_x,
                    self.right_stick_y,
                    self.l2_axis,
                    self.r2_axis,
                    self.seq_number,
                    self.buttons_low,
                    self.buttons_high,
                    self.buttons_misc,
                ],
            decreases 5 - i,
        {
            let ghost before = out@;
            out.push(self.unknown_1[i]);
            assert(out@.subrange(0, 10) =~= before.subrange(0, 10));
            assert(out@.subrange(10, 10 + i + 1) =~= self.unknown_1@.subrange(0, i + 1));
            i = i + 1;
        }
        let ghost head = out@;
        assert(head =~= head.subrange(0, 10) + head.subrange(10, 15));
        assert(self.unknown_1@.subrange(0, 5) =~= self.unknown_1@);
        push_i16_le(&mut out, self.gyro_x);
        push_i16_le(&mut out, self.gyro_y);
        push_i16_le(&mut out, self.gyro_z);
        push_i16_le(&mut out, self.accel_x);
        push_i16_le(&mut out, self.accel_y);
        push_i16_le(&mut out, self.accel_z);
        push_u32_le(&mut out, self.sensor_timestamp);
        out.push(self.temperature);
        out.push(self.touch_1.contact_id);
        out.push(self.touch_1.x_low);
        out.push(self.touch_1.y_low_x_high);
        out.push(self.touch_1.y_high);
        out.push(self.touch_2.contact_id);
        out.push(self.touch_2.x_low);
        out.push(self.touch_2.y_low_x_high);
        out.push(self.touch_2.y_high);
        out.push(self.trigger_right);
        out.push(self.trigger_left);
        push_u32_le(&mut out, self.host_timestamp);
        out.push(self.trigger_effects);
        push_u32_le(&mut out, self.device_timestamp);
        out.push(self.power);
        out.push(self.misc_flags_1);
        out.push(self.misc_flags_2);
        out.push(self.aes_cmac);
        assert(out@ =~= input_bytes(self@));
        out
    }
}

} // verus!

verus! {

/// Length in bytes of the short Bluetooth input report.
pub const SIMPLE_BT_REPORT_LEN: usize = 10;

/// Bluetooth input report
#[derive(Debug, Clone, Copy)]
pub struct DualSenseInputReportSimpleBT {
    report_id: u8,
    /// X position fo the left stick
    pub left_stick_x: u8,
    /// Y position fo the left stick
    pub left_stick_y: u8,
    /// X position fo the right stick
    pub right_stick_x: u8,
    /// Y position fo the right stick
    pub right_stick_y: u8,
    /// DPad an shape buttons
    pub buttons_low: u8,
    /// L1, R1, L2, R2, Create, Menu, L3, R3 buttons
    pub buttons_high: u8,
    /// All the other buttons
    pub buttons_misc: u8,
    /// Variable position data of the L2 button
    pub l2_axis: u8,
    /// Variable position data of the R2 button
    pub r2_axis: u8,
}

/// A short Bluetooth report is seen as its ten bytes, report id first.
impl View for DualSenseInputReportSimpleBT {
    type V = Seq<u8>;

    closed spec fn view(&self) -> Seq<u8> {
        seq![
            self.report_id,
            self.left_stick_x,
            self.left_stick_y,
            self.right_stick_x,
            self.right_stick_y,
            self.buttons_low,
            self.buttons_high,
            self.buttons_misc,
            self.l2_axis,
            self.r2_axis,
        ]
    }
}

/// The full input report that a short Bluetooth report `s` (its ten bytes)
/// stands for: sticks, buttons and trigger axes copied, everything else zero.
pub open spec fn simple_bt_input(s: Seq<u8>) -> InputModel {
    InputModel {
        left_stick_x: s[1],
        left_stick_y: s[2],
        right_stick_x: s[3],
        right_stick_y: s[4],
        buttons_low: s[5],
        buttons_high: s[6],
        buttons_misc: s[7],
        l2_axis: s[8],
        r2_axis: s[9],
        ..InputModel::zero()
    }
}

impl Default for DualSenseInputReportSimpleBT {
    fn default() -> (r: Self)
        ensures
            r@ == Seq::new(10, |i: int| 0u8),
    {
        let r = DualSenseInputReportSimpleBT {
            report_id: 0,
            left_stick_x: 0,
            left_stick_y: 0,
            right_stick_x: 0,
            right_stick_y: 0,
            buttons_low: 0,
            buttons_high: 0,
            buttons_misc: 0,
            l2_axis: 0,
            r2_axis: 0,
        };
        assert(r@ =~= Seq::new(10, |i: int| 0u8));
        r
    }
}

impl DualSenseInputReportSimpleBT {
    /// Every short Bluetooth report is ten bytes long.
    pub proof fn lemma_model_shape(&self)
        ensures
            self@.len() == SIMPLE_BT_REPORT_LEN,
    {
    }

    /// Reads a short Bluetooth report from the start of `bytes`; `None` when
    /// fewer than ten bytes are given.
    pub fn read_from_prefix(bytes: &[u8]) -> (r: Option<DualSenseInputReportSimpleBT>)
        ensures
            r is Some <==> bytes@.len() >= SIMPLE_BT_REPORT_LEN,
            r matches Some(x) ==> x@ == bytes@.subrange(0, SIMPLE_BT_REPORT_LEN as int),
    {
        if bytes.len() < SIMPLE_BT_REPORT_LEN {
            return None;
        }
        let r = DualSenseInputReportSimpleBT {
            report_id: bytes[0],
            left_stick_x: bytes[1],
            left_stick_y: bytes[2],
            right_stick_x: bytes[3],
            right_stick_y: bytes[4],
            buttons_low: bytes[5],
            buttons_high: bytes[6],
            buttons_misc: bytes[7],
            l2_axis: bytes[8],
            r2_axis: bytes[9],
        };
        assert(r@ =~= bytes@.subrange(0, 10));
        Some(r)
    }

    /// The ten bytes of this report, as the controller sends them.
    pub fn to_bytes(&self) -> (r: Vec<u8>)
        ensures
            r@ == self@,
    {
        let mut out: Vec<u8> = Vec::new();
        out.push(self.report_id);
        out.push(self.left_stick_x);
        out.push(self.left_stick_y);
        out.push(self.right_stick_x);
        out.push(self.right_stick_y);
        out.push(self.buttons_low);
        out.push(self.buttons_high);
        out.push(self.buttons_misc);
        out.push(self.l2_axis);
        out.push(self.r2_axis);
        assert(out@ =~= self@);
        out
    }
}

impl From<DualSenseInputReportSimpleBT> for DualSenseInput {
    fn from(value: DualSenseInputReportSimpleBT) -> (r: Self)
        ensures
            r@ == simple_bt_input(value@),
    {
        let mut r = DualSenseInput::default();
        r.left_stick_x = value.left_stick_x;
        r.left_stick_y = value.left_stick_y;
        r.right_stick_x = value.right_stick_x;
        r.right_stick_y = value.right_stick_y;
        r.buttons_low = value.buttons_low;
        r.buttons_high = value.buttons_high;
        r.buttons_misc = value.buttons_misc;
        r.l2_axis = value.l2_axis;
        r.r2_axis = value.r2_axis;
        assert(r@ =~= simple_bt_input(value@));
        proof {
            let c = choose|c: DualSenseInput| c@ == simple_bt_input(value@);
            DualSenseInput::lemma_view_injective(c, r);
        }
        r
    }
}

impl vstd::std_specs::convert::FromSpecImpl<DualSenseInputReportSimpleBT> for DualSenseInput {
    open spec fn obeys_from_spec() -> bool {
        true
    }

    open spec fn from_spec(v: DualSenseInputReportSimpleBT) -> DualSenseInput {
        choose|r: DualSenseInput| r@ == simple_bt_input(v@)
    }
}

} // verus!

verus! {

/// How far a stick axis value lies from the centre position 128.
pub open spec fn stick_deviation(value: u8) -> int {
    if value >= 128 {
        value - 128
    } else {
        128 - value
    }
}

/// The larger of two values.
pub open spec fn larger(a: int, b: int) -> int {
    if a >= b {
        a
    } else {
        b
    }
}

/// One step of a dead-zone probe: the widest deviation from the centre seen
/// on each axis, after taking in the stick position `stick` (x, y).
pub fn widest_deviation(widest: (u8, u8), stick: (u8, u8)) -> (r: (u8, u8))
    ensures
        r.0 == larger(widest.0 as int, stick_deviation(stick.0)),
        r.1 == larger(widest.1 as int, stick_deviation(stick.1)),
{
    (axis_widest(widest.0, stick.0), axis_widest(widest.1, stick.1))
}

fn axis_widest(widest: u8, value: u8) -> (r: u8)
    ensures
        r == larger(widest as int, stick_deviation(value)),
{
    let deviation = if value >= 128 {
        value - 128
    } else {
        128 - value
    };
    if widest >= deviation {
        widest
    } else {
        deviation
    }
}

} // verus!

verus! {

/// The hat switch counts eighths of a turn clockwise from straight up: value
/// `v` holds "up" for 7, 0 and 1, "right" for 1 to 3, "down" for 3 to 5 and
/// "left" for 5 to 7; every value from 8 on holds no direction.
pub proof fn lemma_hat_switch_directions(v: u8)
    ensures
        points_north(dpad_of(v)) == (v == 7 || v <= 1),
        points_east(dpad_of(v)) == (1 <= v && v <= 3),
        points_south(dpad_of(v)) == (3 <= v && v <= 5),
        points_west(dpad_of(v)) == (5 <= v && v <= 7),
        (dpad_of(v) == DPadState::Released) == (v >= 8),
{
}

/// The hat switch value of a direction is its number of eighths of a turn
/// clockwise from straight up, and 8 for no direction.
pub proof fn lemma_dpad_code_directions(d: DPadState)
    ensures
        points_north(d) == (dpad_code(d) == 7 || dpad_code(d) <= 1),
        points_east(d) == (1 <= dpad_code(d) && dpad_code(d) <= 3),
        points_south(d) == (3 <= dpad_code(d) && dpad_code(d) <= 5),
        points_west(d) == (5 <= dpad_code(d) && dpad_code(d) <= 7),
        (d == DPadState::Released) == (dpad_code(d) == 8),
{
}

/// Which buttons a report holds down, read from its bytes: the d-pad from the
/// hat switch in the low nibble of `buttons_low` (eighths of a turn clockwise
/// from up, diagonals holding both neighbours), the shape buttons from bits 4
/// to 7 of `buttons_low` (square, cross, circle, triangle), L1, R1, L2, R2,
/// Create, Menu, L3, R3 from bits 0 to 7 of `buttons_high`, and PS, touchpad
/// and mute from bits 0 to 2 of `buttons_misc`.
pub proof fn lemma_buttons_from_bytes(m: InputModel)
    ensures
        ({
            let h = m.buttons_low % 16;
            &&& m.button_down(Button::DpadUp) == (h == 7 || h <= 1)
            &&& m.button_down(Button::DpadRight) == (1 <= h && h <= 3)
            &&& m.button_down(Button::DpadDown) == (3 <= h && h <= 5)
            &&& m.button_down(Button::DpadLeft) == (5 <= h && h <= 7)
        }),
        m.button_down(Button::Square) == ((m.buttons_low / 16) % 2 == 1),
        m.button_down(Button::Cross) == ((m.buttons_low / 32) % 2 == 1),
        m.button_down(Button::Circle) == ((m.buttons_low / 64) % 2 == 1),
        m.button_down(Button::Triangle) == ((m.buttons_low / 128) % 2 == 1),
        m.button_down(Button::L1) == (m.buttons_high % 2 == 1),
        m.button_down(Button::R1) == ((m.buttons_high / 2) % 2 == 1),
        m.button_down(Button::L2) == ((m.buttons_high / 4) % 2 == 1),
        m.button_down(Button::R2) == ((m.buttons_high / 8) % 2 == 1),
        m.button_down(Button::Create) == ((m.buttons_high / 16) % 2 == 1),
        m.button_down(Button::Menu) == ((m.buttons_high / 32) % 2 == 1),
        m.button_down(Button::L3) == ((m.buttons_high / 64) % 2 == 1),
        m.button_down(Button::R3) == ((m.buttons_high / 128) % 2 == 1),
        m.button_down(Button::PS) == (m.buttons_misc % 2 == 1),
        m.button_down(Button::Touchpad) == ((m.buttons_misc / 2) % 2 == 1),
        m.button_down(Button::Mute) == ((m.buttons_misc / 4) % 2 == 1),
{
    let b = m.buttons_low;
    assert(b & 0x0F == b % 16) by (bit_vector);
    lemma_hat_switch_directions(b & 0x0F);
    lemma_flag_is_binary_digit(m.buttons_low, 0x10);
    lemma_flag_is_binary_digit(m.buttons_low, 0x20);
    lemma_flag_is_binary_digit(m.buttons_low, 0x40);
    lemma_flag_is_binary_digit(m.buttons_low, 0x80);
    lemma_flag_is_binary_digit(m.buttons_high, 0x01);
    lemma_flag_is_binary_digit(m.buttons_high, 0x02);
    lemma_flag_is_binary_digit(m.buttons_high, 0x04);
    lemma_flag_is_binary_digit(m.buttons_high, 0x08);
    lemma_flag_is_binary_digit(m.buttons_high, 0x10);
    lemma_flag_is_binary_digit(m.buttons_high, 0x20);
    lemma_flag_is_binary_digit(m.buttons_high, 0x40);
    lemma_flag_is_binary_digit(m.buttons_high, 0x80);
    lemma_flag_is_binary_digit(m.buttons_misc, 0x01);
    lemma_flag_is_binary_digit(m.buttons_misc, 0x02);
    lemma_flag_is_binary_digit(m.buttons_misc, 0x04);
}

/// Where each field of an input report body lies in its 55 bytes: one byte
/// each for the sticks (0 to 3), trigger axes (4, 5), sequence number (6) and
/// button bytes (7 to 9); five unknown bytes (10 to 14); the gyro x, y, z and
/// accelerometer x, y, z as two's complement pairs, lowest byte first (15 to 26);
/// the sensor time stamp (27 to 30); temperature (31); two touch points of four
/// bytes (32 to 39); trigger states (40, 41); host time stamp (42 to 45);
/// trigger effects (46); device time stamp (47 to 50); power (51); two misc
/// flag bytes (52, 53) and the CMAC byte (54).
pub proof fn lemma_input_layout(s: Seq<u8>)
    requires
        s.len() >= INPUT_REPORT_LEN,
    ensures
        ({
            let m = input_from_bytes(s);
            &&& m.left_stick_x == s[0] && m.left_stick_y == s[1]
            &&& m.right_stick_x == s[2] && m.right_stick_y == s[3]
            &&& m.l2_axis == s[4] && m.r2_axis == s[5] && m.seq_number == s[6]
            &&& m.buttons_low == s[7] && m.buttons_high == s[8] && m.buttons_misc == s[9]
            &&& m.unknown_1 == s.subrange(10, 15)
            &&& m.gyro_x as int == signed16(le_value2(s[15], s[16]))
            &&& m.gyro_y as int == signed16(le_value2(s[17], s[18]))
            &&& m.gyro_z as int == signed16(le_value2(s[19], s[20]))
            &&& m.accel_x as int == signed16(le_value2(s[21], s[22]))
            &&& m.accel_y as int == signed16(le_value2(s[23], s[24]))
            &&& m.accel_z as int == signed16(le_value2(s[25], s[26]))
            &&& m.sensor_timestamp as int == le_value4(s[27], s[28], s[29], s[30])
            &&& m.temperature == s[31]
            &&& m.touch_1.contact_id == s[32] && m.touch_1.x_low == s[33]
            &&& m.touch_1.y_low_x_high == s[34] && m.touch_1.y_high == s[35]
            &&& m.touch_2.contact_id == s[36] && m.touch_2.x_low == s[37]
            &&& m.touch_2.y_low_x_high == s[38] && m.touch_2.y_high == s[39]
            &&& m.trigger_right == s[40] && m.trigger_left == s[41]
            &&& m.host_timestamp as int == le_value4(s[42], s[43], s[44], s[45])
            &&& m.trigger_effects == s[46]
            &&& m.device_timestamp as int == le_value4(s[47], s[48], s[49], s[50])
            &&& m.power == s[51] && m.misc_flags_1 == s[52] && m.misc_flags_2 == s[53]
            &&& m.aes_cmac == s[54]
        }),
{
    lemma_i16_le_value(s[15], s[16]);
    lemma_i16_le_value(s[17], s[18]);
    lemma_i16_le_value(s[19], s[20]);
    lemma_i16_le_value(s[21], s[22]);
    lemma_i16_le_value(s[23], s[24]);
    lemma_i16_le_value(s[25], s[26]);
    lemma_u32_le_value(s[27], s[28], s[29], s[30]);
    lemma_u32_le_value(s[42], s[43], s[44], s[45]);
    lemma_u32_le_value(s[47], s[48], s[49], s[50]);
}

/// Where the fields of a short Bluetooth report lie in its ten bytes: report id
/// (0), sticks (1 to 4), button bytes (5 to 7), trigger axes (8, 9); the input
/// state it stands for has every other field zero.
pub proof fn lemma_simple_bt_layout(s: Seq<u8>)
    requires
        s.len() >= SIMPLE_BT_REPORT_LEN,
    ensures
        ({
            let m = simple_bt_input(s);
            &&& m.left_stick_x == s[1] && m.left_stick_y == s[2]
            &&& m.right_stick_x == s[3] && m.right_stick_y == s[4]
            &&& m.buttons_low == s[5] && m.buttons_high == s[6] && m.buttons_misc == s[7]
            &&& m.l2_axis == s[8] && m.r2_axis == s[9]
            &&& m.gyro_x == 0 && m.accel_z == 0 && m.power == 0 && m.seq_number == 0
        }),
{
}

} // verus!
