//! Access to the PlayStation 5 DualSense controller: the input and output
//! reports, their byte layout, and the controller state that decides what is
//! sent to the device.
use vstd::prelude::*;

pub mod bits;
pub mod crc;
pub mod device;
pub mod button;
pub mod controller;
pub mod input;
pub mod output;
pub mod report;

verus! {
}
