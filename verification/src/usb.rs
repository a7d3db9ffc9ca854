//! Trusted boundary to the rusb crate: type declarations and thin wrappers
//! around the handful of libusb calls the driver needs. Nothing here is
//! verified; each wrapper's contract states only what rusb's source and
//! documentation show.

use vstd::prelude::*;

verus! {

/// rusb's handle to an open USB device, under the process-global libusb
/// context. The handle type cannot be declared to Verus directly (its
/// generic parameter is bound by rusb's UsbContext trait), so this struct
/// carries it opaquely; it is only created by [`open_device`] and used
/// through the other wrappers in this module.
#[verifier::external_body]
pub struct DisplayHandle {
    inner: rusb::DeviceHandle<rusb::GlobalContext>,
}

/// rusb's error enum for libusb failures (timeout, stall, disconnect, ...).
/// Opaque here; callers only map it to this crate's own error kinds.
#[verifier::external_type_specification]
#[verifier::external_body]
pub struct ExUsbError(rusb::Error);

/// Relies on rusb::open_device_with_vid_pid: opens the first attached USB
/// device whose descriptor matches the given vendor and product id, or
/// returns None when none matches or opening fails.
#[verifier::external_body]
pub(crate) fn open_device(vendor_id: u16, product_id: u16) -> Option<DisplayHandle> {
    rusb::open_device_with_vid_pid(vendor_id, product_id).map(|inner| DisplayHandle { inner })
}

/// Relies on DeviceHandle::set_active_configuration: makes the given
/// configuration active on the device, or reports the libusb failure.
#[verifier::external_body]
pub(crate) fn set_active_configuration(
    handle: &DisplayHandle,
    config: u8,
) -> Result<(), rusb::Error> {
    handle.inner.set_active_configuration(config)
}

/// Relies on DeviceHandle::set_auto_detach_kernel_driver: tells libusb to
/// detach any kernel driver automatically when an interface is claimed.
#[verifier::external_body]
pub(crate) fn set_auto_detach_kernel_driver(
    handle: &DisplayHandle,
    auto_detach: bool,
) -> Result<(), rusb::Error> {
    handle.inner.set_auto_detach_kernel_driver(auto_detach)
}

/// Relies on DeviceHandle::claim_interface: claims the given interface for
/// this handle, or reports the libusb failure.
#[verifier::external_body]
pub(crate) fn claim_interface(
    handle: &DisplayHandle,
    iface: u8,
) -> Result<(), rusb::Error> {
    handle.inner.claim_interface(iface)
}

/// Relies on DeviceHandle::read_control: issues an IN control transfer with
/// the given setup-packet fields and fills `buf` with the data received;
/// `Ok(n)` means `n` bytes were read into `buf`, at most its length.
#[verifier::external_body]
pub(crate) fn read_control(
    handle: &DisplayHandle,
    request_type: u8,
    request: u8,
    value: u16,
    index: u16,
    buf: &mut [u8; 7],
    timeout_secs: u64,
) -> (r: Result<usize, rusb::Error>)
    ensures
        r is Ok ==> r->Ok_0 <= 7,
{
    handle.inner.read_control(
        request_type,
        request,
        value,
        index,
        buf,
        std::time::Duration::from_secs(timeout_secs),
    )
}

/// Relies on DeviceHandle::write_control: issues an OUT control transfer with
/// the given setup-packet fields carrying `buf`; `Ok(n)` means `n` bytes of
/// `buf` were transferred, at most its length.
#[verifier::external_body]
pub(crate) fn write_control(
    handle: &DisplayHandle,
    request_type: u8,
    request: u8,
    value: u16,
    index: u16,
    buf: &[u8; 7],
    timeout_secs: u64,
) -> (r: Result<usize, rusb::Error>)
    ensures
        r is Ok ==> r->Ok_0 <= 7,
{
    handle.inner.write_control(
        request_type,
        request,
        value,
        index,
        buf,
        std::time::Duration::from_secs(timeout_secs),
    )
}

} // verus!
