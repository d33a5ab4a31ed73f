//! Builder of USB HID report descriptors made of short items, with a gamepad
//! descriptor assembled from buttons, axes and a hat switch.
pub mod codes;
pub mod input_flags;
pub mod item;
pub mod collection;
pub mod hex;
pub mod gamepad;
