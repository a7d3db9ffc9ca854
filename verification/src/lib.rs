//! Control the backlight brightness of an Apple Studio Display over USB.
//!
//! The display speaks a vendor-specific HID feature-report protocol: a fixed
//! 7-byte report carries the brightness in device units, and two class-type
//! control transfers get or set it. This crate holds the codec between
//! percentages and device units, the report packing, the device locate/open
//! sequence, and the two transfer operations, all against a caller-owned
//! session that is constructed once per process.

pub mod codec;
pub mod device;
mod usb;
