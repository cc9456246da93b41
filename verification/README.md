# dualsense-controller

Access to the PlayStation 5 DualSense controller over USB and Bluetooth.

`src/` is the verified library:

- `button`: the buttons of the controller.
- `input`: input reports (sticks, buttons, hat switch, motion sensors, touchpad,
  battery), their 55-byte layout, and the difference of two reports that shows
  which buttons were pressed or released.
- `output`: output reports (rumble, lightbar, audio, trigger effects, power
  save flags), their 47-byte layout and the trigger effect constructors.
- `report`: reading a buffer received from the device, and building the USB
  and Bluetooth output reports, including the Bluetooth CRC-32.
- `controller`: the controller state kept between calls: latest input,
  pressed and released buttons, and the output to send, with each request
  saying whether the output changed.
- `device`: recognising a DualSense among HID devices.
- `bits`, `crc`: bit-field helpers and the CRC-32 digest (crc32fast).

`app/` holds the HID connection (hidapi), the device thread and its channels,
and the analog-stick dead zones, which use floating point.
