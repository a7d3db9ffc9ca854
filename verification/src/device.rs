//! The brightness session and the two feature-report operations against it:
//! locating and opening the display once, then getting or setting brightness
//! through HID feature-report control transfers.

use vstd::prelude::*;

use crate::codec::decode_spec;
use crate::codec::decode_request_data;
use crate::codec::get_request_data;
use crate::codec::nits_to_percent;
use crate::codec::nits_to_percent_spec;
use crate::codec::percent_to_nits;
use crate::usb;

verus! {

/// Vendor id of the target display.
pub const SD_VENDOR_ID: u16 = 0x05ac;

/// Product id of the target display.
pub const SD_PRODUCT_ID: u16 = 0x1114;

/// Interface that carries the brightness feature report.
pub const SD_BRIGHTNESS_INTERFACE: u8 = 0x7;

/// HID GET_REPORT request code.
pub const HID_GET_REPORT: u8 = 0x01;

/// HID SET_REPORT request code.
pub const HID_SET_REPORT: u8 = 0x09;

/// wValue of both transfers: feature-report type 0x0300 with report id 0x01.
pub const SD_FEATURE_REPORT_VALUE: u16 = 0x0301;

/// Timeout of each control transfer, in seconds.
pub const TRANSFER_TIMEOUT_SECS: u64 = 1;

/// The kind of failure a brightness operation surfaces.
#[derive(Clone, Copy, Debug, PartialEq, Eq, Structural)]
pub enum DisplayError {
    /// No attached USB device matched the target vendor and product id.
    DeviceNotFound,
    /// The display was found, but opening, configuring, or claiming its
    /// brightness interface failed.
    OpenOrClaimFailed,
    /// A get or set control transfer failed or came back short.
    TransferFailed,
}

/// The bmRequestType byte of a class request addressed to an interface:
/// 0x20 (class) | 0x01 (interface), with 0x80 set for device-to-host.
pub open spec fn request_type_spec(host_to_device: bool) -> u8 {
    if host_to_device {
        0x21u8
    } else {
        0xa1u8
    }
}

/// Builds the bmRequestType byte of a class request addressed to an
/// interface, as rusb::request_type builds it from its direction, type and
/// recipient bit fields.
pub fn make_request(host_to_device: bool) -> (bm: u8)
    ensures
        bm == request_type_spec(host_to_device),
{
    let direction: u8 = if host_to_device {
        0x00
    } else {
        0x80
    };
    let bm = direction | 0x20 | 0x01;
    proof {
        assert(0x00u8 | 0x20 | 0x01 == 0x21 && 0x80u8 | 0x20 | 0x01 == 0xa1) by (bit_vector);
    }
    bm
}

/// An opened brightness session: the located display's handle, or the error
/// the one-time locate/open/claim attempt produced. Construct one per
/// process and share it; the cached error is returned by every later
/// operation, and a failed attempt is never retried within the session.
pub struct Session {
    /// Outcome of the locate/open/claim sequence this session was built with.
    pub display: Result<usb::DisplayHandle, DisplayError>,
}

/// Locates the target display among the attached USB devices, opens it,
/// activates its configuration, enables kernel-driver auto-detach, and
/// claims the brightness interface. Fails with `DeviceNotFound` when no
/// device matches, and with `OpenOrClaimFailed` when any later step fails.
pub fn get_studio_display() -> (r: Result<usb::DisplayHandle, DisplayError>)
    ensures
        r is Err ==> (r->Err_0 == DisplayError::DeviceNotFound || r->Err_0
            == DisplayError::OpenOrClaimFailed),
{
    let dev = match usb::open_device(SD_VENDOR_ID, SD_PRODUCT_ID) {
        Some(dev) => dev,
        None => { return Err(DisplayError::DeviceNotFound) },
    };
    match usb::set_active_configuration(&dev, 0) {
        Ok(_) => {},
        Err(_) => { return Err(DisplayError::OpenOrClaimFailed) },
    }
    match usb::set_auto_detach_kernel_driver(&dev, true) {
        Ok(_) => {},
        Err(_) => { return Err(DisplayError::OpenOrClaimFailed) },
    }
    match usb::claim_interface(&dev, SD_BRIGHTNESS_INTERFACE) {
        Ok(_) => {},
        Err(_) => { return Err(DisplayError::OpenOrClaimFailed) },
    }
    Ok(dev)
}

impl Session {
    /// Runs the one-time locate/open/claim attempt and freezes its outcome,
    /// success or failure, as this session's value.
    pub fn init() -> (s: Session)
        ensures
            s.display is Err ==> (s.display->Err_0 == DisplayError::DeviceNotFound
                || s.display->Err_0 == DisplayError::OpenOrClaimFailed),
    {
        Session { display: get_studio_display() }
    }
}

/// Reports whether the session holds an open handle to the display.
pub fn has_display(session: &Session) -> (r: bool)
    ensures
        r == (session.display is Ok),
{
    session.display.is_ok()
}

/// Converts a feature report read from the display into a brightness
/// percentage: bytes 1-2 little-endian, then units to percent.
pub fn percent_from_report(report: &[u8; 7]) -> (percent: u8)
    ensures
        percent == nits_to_percent_spec(decode_spec(report@)),
        percent <= 109,
{
    nits_to_percent(decode_request_data(report))
}

/// Sets the display brightness to the given percentage. A session that
/// cached a locate/open failure returns that same error, without attempting
/// a transfer; with an open handle, any transfer failure surfaces as
/// `TransferFailed`.
pub fn set_brightness(session: &Session, percent: u8) -> (r: Result<(), DisplayError>)
    requires
        percent <= 100,
    ensures
        session.display is Err ==> r == Err::<(), DisplayError>(session.display->Err_0),
        r is Err && session.display is Ok ==> r->Err_0 == DisplayError::TransferFailed,
{
    let display = match &session.display {
        Ok(display) => display,
        Err(e) => { return Err(*e) },
    };
    let buffer = get_request_data(percent_to_nits(percent));
    match usb::write_control(
        display,
        make_request(true),
        HID_SET_REPORT,
        SD_FEATURE_REPORT_VALUE,
        SD_BRIGHTNESS_INTERFACE as u16,
        &buffer,
        TRANSFER_TIMEOUT_SECS,
    ) {
        Ok(_) => Ok(()),
        Err(_) => Err(DisplayError::TransferFailed),
    }
}

/// Reads the display brightness as a percentage. A session that cached a
/// locate/open failure returns that same error, without attempting a
/// transfer; a transfer that fails or reads fewer than 7 bytes surfaces as
/// `TransferFailed`.
pub fn get_brightness(session: &Session) -> (r: Result<u8, DisplayError>)
    ensures
        session.display is Err ==> r == Err::<u8, DisplayError>(session.display->Err_0),
        r is Err && session.display is Ok ==> r->Err_0 == DisplayError::TransferFailed,
        r is Ok ==> r->Ok_0 <= 109,
{
    let display = match &session.display {
        Ok(display) => display,
        Err(e) => { return Err(*e) },
    };
    let mut buffer: [u8; 7] = [0, 0, 0, 0, 0, 0, 0];
    match usb::read_control(
        display,
        make_request(false),
        HID_GET_REPORT,
        SD_FEATURE_REPORT_VALUE,
        SD_BRIGHTNESS_INTERFACE as u16,
        &mut buffer,
        TRANSFER_TIMEOUT_SECS,
    ) {
        Ok(n) => {
            if n == 7 {
                Ok(percent_from_report(&buffer))
            } else {
                Err(DisplayError::TransferFailed)
            }
        },
        Err(_) => Err(DisplayError::TransferFailed),
    }
}

} // verus!
