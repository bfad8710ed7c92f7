//! Trusted boundary to the `rusb` USB library.
//!
//! Every item here either declares an `rusb` type so that verified code can
//! carry its values, or wraps one `rusb` call in a function whose contract
//! Verus believes.  The transfers themselves are not verified; the protocol
//! logic that interprets their results lives in [`crate::sniffer`] and is.

use vstd::prelude::*;

verus! {

/// An enumerated USB device, held for the verifier behind an opaque struct:
/// `rusb::Device` is generic over its context trait, which keeps its own
/// declaration out of reach.
#[verifier::external_body]
pub struct UsbDevice {
    dev: rusb::Device<rusb::GlobalContext>,
}

/// An open USB device handle, held for the verifier behind an opaque struct
/// for the same reason as [`UsbDevice`].
#[verifier::external_body]
pub struct UsbHandle {
    handle: rusb::DeviceHandle<rusb::GlobalContext>,
}

#[verifier::external_type_specification]
#[verifier::external_body]
pub struct ExDeviceDescriptor(rusb::DeviceDescriptor);

#[verifier::external_type_specification]
#[verifier::external_body]
pub struct ExUsbError(rusb::Error);

/// A failed bulk transfer, with the transfer that merely ran out of time
/// told apart from every other failure of the USB stack.
pub enum UsbFault {
    /// The transfer timed out with nothing received.
    Timeout(rusb::Error),
    /// Any other failure of the USB stack.
    Stack(rusb::Error),
}

/// One endpoint of an interface, reduced to the plain values the binding
/// logic reads: its address, its direction, and whether it is a bulk
/// endpoint.
#[derive(PartialEq, Eq, Structural, Clone, Copy, Debug)]
pub struct EndpointInfo {
    /// The endpoint address byte, direction bit included.
    pub address: u8,
    /// True for a device-to-host (IN) endpoint.
    pub dir_in: bool,
    /// True for a bulk endpoint.
    pub bulk: bool,
}

/// Relies on `rusb::DeviceList::new` and `rusb::DeviceList::iter`: collects
/// every USB device on the bus, in platform enumeration order.
#[verifier::external_body]
pub(crate) fn list_devices() -> Result<Vec<UsbDevice>, rusb::Error> {
    match rusb::DeviceList::new() {
        Ok(list) => Ok(list.iter().map(|dev| UsbDevice { dev }).collect()),
        Err(e) => Err(e),
    }
}

/// Relies on `rusb::Device::device_descriptor`: reads the device's cached
/// descriptor.
#[verifier::external_body]
pub(crate) fn device_descriptor(
    device: &UsbDevice,
) -> Result<rusb::DeviceDescriptor, rusb::Error> {
    device.dev.device_descriptor()
}

/// Relies on `rusb::DeviceDescriptor::vendor_id`: the descriptor's vendor
/// identifier field.
#[verifier::external_body]
pub(crate) fn descriptor_vendor_id(descriptor: &rusb::DeviceDescriptor) -> u16 {
    descriptor.vendor_id()
}

/// Relies on `rusb::DeviceDescriptor::product_id`: the descriptor's product
/// identifier field.
#[verifier::external_body]
pub(crate) fn descriptor_product_id(descriptor: &rusb::DeviceDescriptor) -> u16 {
    descriptor.product_id()
}

/// Relies on `rusb::Device::open`: opens the device for transfers.
#[verifier::external_body]
pub(crate) fn open_device(device: &UsbDevice) -> Result<UsbHandle, rusb::Error> {
    match device.dev.open() {
        Ok(handle) => Ok(UsbHandle { handle }),
        Err(e) => Err(e),
    }
}

/// Relies on `rusb::DeviceHandle::claim_interface`: claims the interface with
/// the given index.
#[verifier::external_body]
pub(crate) fn claim_interface(handle: &UsbHandle, iface: u8) -> Result<(), rusb::Error> {
    handle.handle.claim_interface(iface)
}

/// Relies on `rusb::Device::active_config_descriptor` and the descriptor
/// accessors `address`, `direction` and `transfer_type`: lists the endpoints
/// of the first interface's first descriptor, in order.  `rusb` derives the
/// direction from bit 7 of the endpoint address (set means device-to-host),
/// so `dir_in` holds exactly when that bit is set.
#[verifier::external_body]
pub(crate) fn interface_endpoints(
    device: &UsbDevice,
) -> (r: Result<Vec<EndpointInfo>, rusb::Error>)
    ensures
        r matches Ok(v) ==> forall|i: int|
            0 <= i < v@.len() ==> (#[trigger] v@[i]).dir_in == (v@[i].address & 0x80 == 0x80),
{
    let cfg = match device.dev.active_config_descriptor() { Ok(c) => c, Err(e) => return Err(e) };
    let mut v = Vec::new();
    if let Some(iface) = cfg.interfaces().next() {
        if let Some(desc) = iface.descriptors().next() {
            for e in desc.endpoint_descriptors() {
                let dir_in = e.direction() == rusb::Direction::In;
                let bulk = e.transfer_type() == rusb::TransferType::Bulk;
                v.push(EndpointInfo { address: e.address(), dir_in, bulk });
            }
        }
    }
    Ok(v)
}

/// Relies on `rusb::DeviceHandle::read_product_string_ascii`: reads the
/// device's product string descriptor.
#[verifier::external_body]
pub(crate) fn read_product_string(
    handle: &UsbHandle,
    descriptor: &rusb::DeviceDescriptor,
) -> Result<String, rusb::Error> {
    handle.handle.read_product_string_ascii(descriptor)
}

/// Relies on `rusb::DeviceHandle::write_bulk`: on success the returned count
/// of bytes written never exceeds the buffer's length.
#[verifier::external_body]
pub(crate) fn bulk_write(
    handle: &UsbHandle,
    endpoint: u8,
    buf: &[u8],
    timeout_ms: u64,
) -> (r: Result<usize, rusb::Error>)
    ensures
        r matches Ok(n) ==> n <= buf@.len(),
{
    handle.handle.write_bulk(endpoint, buf, core::time::Duration::from_millis(timeout_ms))
}

/// Relies on `rusb::DeviceHandle::read_bulk`: fills the front of `buf` with
/// the bytes received; on success the count never exceeds the buffer's
/// length, and the buffer keeps its length either way.  A transfer that
/// `rusb` reports as timed out with nothing received comes back as
/// [`UsbFault::Timeout`], every other failure as [`UsbFault::Stack`].
#[verifier::external_body]
pub(crate) fn bulk_read(
    handle: &UsbHandle,
    endpoint: u8,
    buf: &mut Vec<u8>,
    timeout_ms: u64,
) -> (r: Result<usize, UsbFault>)
    ensures
        final(buf)@.len() == old(buf)@.len(),
        r matches Ok(n) ==> n <= old(buf)@.len(),
{
    let timeout = core::time::Duration::from_millis(timeout_ms);
    match handle.handle.read_bulk(endpoint, buf.as_mut_slice(), timeout) {
        Ok(n) => Ok(n),
        Err(e) => {
            if e == rusb::Error::Timeout {
                Err(UsbFault::Timeout(e))
            } else {
                Err(UsbFault::Stack(e))
            }
        }
    }
}

} // verus!
