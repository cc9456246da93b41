use vstd::prelude::*;

verus! {

/// USB vendor id of Sony.
pub const VENDOR_ID: u16 = 0x054C;

/// USB product id of the DualSense controller.
pub const DUALSENSE_PRODUCT_ID: u16 = 0x0CE6;

/// USB product id of the DualSense Edge controller.
pub const DUALSENSE_EDGE_PRODUCT_ID: u16 = 0x0DF2;

/// The HID devices that this library drives: Sony's DualSense and DualSense Edge.
pub open spec fn is_dualsense_spec(vendor_id: u16, product_id: u16) -> bool {
    vendor_id == VENDOR_ID && (product_id == DUALSENSE_PRODUCT_ID || product_id
        == DUALSENSE_EDGE_PRODUCT_ID)
}

/// Returns true if a HID device with these ids is a DualSense controller.
pub fn is_dualsense(vendor_id: u16, product_id: u16) -> (r: bool)
    ensures
        r == is_dualsense_spec(vendor_id, product_id),
{
    vendor_id == VENDOR_ID && (product_id == DUALSENSE_PRODUCT_ID || product_id
        == DUALSENSE_EDGE_PRODUCT_ID)
}

/// Returns true if a HID interface number marks a Bluetooth connection:
/// Bluetooth devices report no interface number (-1).
pub fn is_bluetooth_interface(interface_number: i32) -> (r: bool)
    ensures
        r == (interface_number == -1),
{
    interface_number == -1
}

} // verus!
