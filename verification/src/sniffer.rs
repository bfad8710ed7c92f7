//! Command/acknowledgement engine and packet receiver for the sniffer device.

use vstd::prelude::*;

verus! {

/// Wire values of the device's command, acknowledgement and event codes.
/// Every command code is even and its acknowledgement is the next value; the
/// device reports captured frames under `CmdGotPkt` and failures under
/// `CmdErr`.
#[derive(PartialEq, Eq, Structural, PartialOrd, Clone, Copy, Debug)]
pub enum CmdCodes {
    CmdInit,
    CmdInitAck,
    CmdSetChannel,
    CmdSetChannelAck,
    CmdSendPkt,
    CmdSendPktAck,
    CmdSniffOn,
    CmdSniffOnAck,
    CmdSniffOff,
    CmdSniffOffAck,
    CmdGotPkt,
    CmdErr,
}

impl CmdCodes {
    /// The byte this code has on the wire.
    pub open spec fn spec_code(self) -> u8 {
        match self {
            CmdCodes::CmdInit => 0x00,
            CmdCodes::CmdInitAck => 0x01,
            CmdCodes::CmdSetChannel => 0x02,
            CmdCodes::CmdSetChannelAck => 0x03,
            CmdCodes::CmdSendPkt => 0x04,
            CmdCodes::CmdSendPktAck => 0x05,
            CmdCodes::CmdSniffOn => 0x06,
            CmdCodes::CmdSniffOnAck => 0x07,
            CmdCodes::CmdSniffOff => 0x08,
            CmdCodes::CmdSniffOffAck => 0x09,
            CmdCodes::CmdGotPkt => 0x0A,
            CmdCodes::CmdErr => 0xFF,
        }
    }

    /// The byte this code has on the wire.
    pub fn code(self) -> (r: u8)
        ensures
            r == self.spec_code(),
    {
        match self {
            CmdCodes::CmdInit => 0x00,
            CmdCodes::CmdInitAck => 0x01,
            CmdCodes::CmdSetChannel => 0x02,
            CmdCodes::CmdSetChannelAck => 0x03,
            CmdCodes::CmdSendPkt => 0x04,
            CmdCodes::CmdSendPktAck => 0x05,
            CmdCodes::CmdSniffOn => 0x06,
            CmdCodes::CmdSniffOnAck => 0x07,
            CmdCodes::CmdSniffOff => 0x08,
            CmdCodes::CmdSniffOffAck => 0x09,
            CmdCodes::CmdGotPkt => 0x0A,
            CmdCodes::CmdErr => 0xFF,
        }
    }
}

/// The code a wire byte names; bytes outside the table name `CmdErr`.
pub open spec fn cmd_from_spec(v: u8) -> CmdCodes {
    if v == 0x00 {
        CmdCodes::CmdInit
    } else if v == 0x01 {
        CmdCodes::CmdInitAck
    } else if v == 0x02 {
        CmdCodes::CmdSetChannel
    } else if v == 0x03 {
        CmdCodes::CmdSetChannelAck
    } else if v == 0x04 {
        CmdCodes::CmdSendPkt
    } else if v == 0x05 {
        CmdCodes::CmdSendPktAck
    } else if v == 0x06 {
        CmdCodes::CmdSniffOn
    } else if v == 0x07 {
        CmdCodes::CmdSniffOnAck
    } else if v == 0x08 {
        CmdCodes::CmdSniffOff
    } else if v == 0x09 {
        CmdCodes::CmdSniffOffAck
    } else if v == 0x0A {
        CmdCodes::CmdGotPkt
    } else {
        CmdCodes::CmdErr
    }
}

impl core::convert::From<u8> for CmdCodes {
    fn from(orig: u8) -> (r: Self) {
        if orig == 0x00 {
            CmdCodes::CmdInit
        } else if orig == 0x01 {
            CmdCodes::CmdInitAck
        } else if orig == 0x02 {
            CmdCodes::CmdSetChannel
        } else if orig == 0x03 {
            CmdCodes::CmdSetChannelAck
        } else if orig == 0x04 {
            CmdCodes::CmdSendPkt
        } else if orig == 0x05 {
            CmdCodes::CmdSendPktAck
        } else if orig == 0x06 {
            CmdCodes::CmdSniffOn
        } else if orig == 0x07 {
            CmdCodes::CmdSniffOnAck
        } else if orig == 0x08 {
            CmdCodes::CmdSniffOff
        } else if orig == 0x09 {
            CmdCodes::CmdSniffOffAck
        } else if orig == 0x0A {
            CmdCodes::CmdGotPkt
        } else {
            CmdCodes::CmdErr
        }
    }
}

impl vstd::std_specs::convert::FromSpecImpl<u8> for CmdCodes {
    open spec fn obeys_from_spec() -> bool {
        true
    }

    open spec fn from_spec(v: u8) -> CmdCodes {
        cmd_from_spec(v)
    }
}

/// Failures of a device exchange: `DeviceError` covers binding failures,
/// partial writes and empty reads; `ProtocolError` a frame that fails
/// validation; `TimeOut` a receive deadline that passed without data, which
/// is not a failure; `UsbError` a fault of the USB stack.
#[derive(Debug)]
pub enum SnifferError {
    DeviceError,
    ProtocolError(&'static str),
    TimeOut,
    UsbError(rusb::Error),
}

impl core::convert::From<rusb::Error> for SnifferError {
    fn from(e: rusb::Error) -> (r: Self) {
        SnifferError::UsbError(e)
    }
}

impl vstd::std_specs::convert::FromSpecImpl<rusb::Error> for SnifferError {
    open spec fn obeys_from_spec() -> bool {
        true
    }

    open spec fn from_spec(e: rusb::Error) -> SnifferError {
        SnifferError::UsbError(e)
    }
}

/// XOR-fold checksum with seed `0xFF` over a byte sequence, a device-firmware
/// contract: `checksum(b) == 0xFF ^ b[0] ^ ... ^ b[n-1]`.
pub open spec fn checksum_spec(b: Seq<u8>) -> u8
    decreases b.len(),
{
    if b.len() == 0 {
        0xFF
    } else {
        checksum_spec(b.drop_last()) ^ b.last()
    }
}

/// The checksum is the XOR of the seed `0xFF` and every byte in order:
/// it starts at `0xFF` on the empty sequence and takes in one byte per step.
pub proof fn lemma_checksum_xor_fold(b: Seq<u8>, x: u8)
    ensures
        checksum_spec(Seq::<u8>::empty()) == 0xFF,
        checksum_spec(b.push(x)) == checksum_spec(b) ^ x,
{
    assert(b.push(x).drop_last() =~= b);
    assert(b.push(x).last() == x);
}

/// XOR-fold checksum over the first `len` bytes of `buffer`, as the device
/// firmware computes it.
pub fn calculate_crc(buffer: &[u8], len: usize) -> (r: u8)
    requires
        len <= buffer@.len(),
    ensures
        r == checksum_spec(buffer@.take(len as int)),
{
    let mut checksum: u8 = 0xff;
    let mut i: usize = 0;
    while i < len
        invariant
            i <= len,
            len <= buffer@.len(),
            checksum == checksum_spec(buffer@.take(i as int)),
        decreases len - i,
    {
        checksum = checksum ^ buffer[i];
        proof {
            assert(buffer@.take(i as int + 1).drop_last() =~= buffer@.take(i as int));
        }
        i = i + 1;
    }
    checksum
}

/// The bytes of a command frame: a length byte (three more than the payload
/// length), the command code, the payload, and the XOR checksum over all the
/// preceding bytes.
pub open spec fn command_frame_bytes(code: u8, payload: Seq<u8>) -> Seq<u8> {
    let body = seq![(payload.len() + 3) as u8, code] + payload;
    body.push(checksum_spec(body))
}

/// Builds the command frame sent to the device, exactly as
/// [`command_frame_bytes`] lays it out.
pub fn build_command_frame(command: CmdCodes, payload: &[u8]) -> (r: Vec<u8>)
    requires
        payload@.len() <= 252,
    ensures
        r@ == command_frame_bytes(command.spec_code(), payload@),
        r@.len() == payload@.len() + 3,
{
    let mut buffer: Vec<u8> = Vec::new();
    buffer.push((payload.len() + 3) as u8);
    buffer.push(command.code());
    let mut i: usize = 0;
    while i < payload.len()
        invariant
            i <= payload@.len(),
            payload@.len() <= 252,
            buffer@ == seq![(payload@.len() + 3) as u8, command.spec_code()] + payload@.take(
                i as int,
            ),
        decreases payload@.len() - i,
    {
        buffer.push(payload[i]);
        proof {
            assert(payload@.take(i as int).push(payload@[i as int]) =~= payload@.take(i + 1));
        }
        i = i + 1;
    }
    proof {
        assert(payload@.take(payload@.len() as int) =~= payload@);
    }
    let crc = calculate_crc(buffer.as_slice(), buffer.len());
    proof {
        assert(buffer@.take(buffer@.len() as int) =~= buffer@);
    }
    buffer.push(crc);
    buffer
}

/// The acknowledgement byte owed for a command byte: one above the command,
/// read back through the code table, which maps a value outside it to the
/// error code.
pub open spec fn expected_ack_spec(code: u8) -> u8
    recommends
        code < 0xFF,
{
    cmd_from_spec((code + 1) as u8).spec_code()
}

/// Ack validation: of all response bytes, exactly the expected
/// acknowledgement for the issued command is accepted; every other value is
/// a protocol error.
pub fn check_ack(response: &Vec<u8>, command: CmdCodes) -> (r: Result<(), SnifferError>)
    requires
        response@.len() >= 3,
        command.spec_code() < 0xFF,
    ensures
        r is Ok <==> response@[2] == expected_ack_spec(command.spec_code()),
        r matches Err(e) ==> e matches SnifferError::ProtocolError(m) && m@
            == "unexpected response code"@,
{
    let ack: CmdCodes = CmdCodes::from(command.code() + 1);
    if response[2] != ack.code() {
        return Err(SnifferError::ProtocolError("unexpected response code"));
    }
    Ok(())
}

/// For each of the five command codes the host issues (`0x00` to `0x08`,
/// even), the only accepted response code is the command code plus one.
pub proof fn lemma_ack_validation(code: u8, response: u8)
    requires
        code == 0x00 || code == 0x02 || code == 0x04 || code == 0x06 || code == 0x08,
    ensures
        (response == expected_ack_spec(code)) <==> (response == code + 1),
{
}

/// Decides whether a bulk write moved the whole frame: fewer bytes written
/// than requested is a `DeviceError`, and the write is not retried.
pub fn check_write_count(written: usize, expected: usize) -> (r: Result<(), SnifferError>)
    ensures
        r is Ok <==> written == expected,
        r is Err ==> is_device_error(r),
{
    if written != expected {
        return Err(SnifferError::DeviceError);
    }
    Ok(())
}

/// What the acknowledgement read owes for a response buffer holding `n`
/// freshly read bytes: a zero-byte read is a `DeviceError`; otherwise
/// exactly the expected acknowledgement byte at offset 2 is accepted, and
/// any other value is the fixed protocol error.
pub open spec fn ack_post(data: Seq<u8>, n: int, code: u8, r: Result<(), SnifferError>) -> bool {
    &&& n == 0 ==> is_device_error(r)
    &&& n >= 1 ==> (r is Ok <==> data[2] == expected_ack_spec(code))
    &&& n >= 1 && r is Err ==> is_protocol_error(r, "unexpected response code"@)
}

/// Validates the acknowledgement read for one issued command, exactly as
/// [`ack_post`] lays it out.
pub fn decode_ack(response: &Vec<u8>, n: usize, command: CmdCodes) -> (r: Result<(), SnifferError>)
    requires
        response@.len() >= 3,
        command.spec_code() < 0xFF,
    ensures
        ack_post(response@, n as int, command.spec_code(), r),
{
    if n == 0 {
        return Err(SnifferError::DeviceError);
    }
    check_ack(response, command)
}

/// The command-path meaning of a failed transfer: every transport fault, a
/// timeout included, surfaces as `UsbError` carrying the underlying fault.
pub open spec fn send_fault_error(fault: crate::usb::UsbFault) -> SnifferError {
    match fault {
        crate::usb::UsbFault::Timeout(e) => SnifferError::UsbError(e),
        crate::usb::UsbFault::Stack(e) => SnifferError::UsbError(e),
    }
}

/// Maps a failed transfer of the command path, as [`send_fault_error`] says.
pub fn send_transport_error(fault: crate::usb::UsbFault) -> (r: SnifferError)
    ensures
        r == send_fault_error(fault),
{
    match fault {
        crate::usb::UsbFault::Timeout(e) => SnifferError::UsbError(e),
        crate::usb::UsbFault::Stack(e) => SnifferError::UsbError(e),
    }
}

/// The receive-path meaning of a failed transfer: a timeout is the idle
/// `TimeOut` outcome, not a failure; any other fault surfaces as `UsbError`
/// carrying it.
pub open spec fn receive_fault_error(fault: crate::usb::UsbFault) -> SnifferError {
    match fault {
        crate::usb::UsbFault::Timeout(_) => SnifferError::TimeOut,
        crate::usb::UsbFault::Stack(e) => SnifferError::UsbError(e),
    }
}

/// Maps a failed transfer of the receive path, as [`receive_fault_error`]
/// says.
pub fn receive_transport_error(fault: crate::usb::UsbFault) -> (r: SnifferError)
    ensures
        r == receive_fault_error(fault),
{
    match fault {
        crate::usb::UsbFault::Timeout(_) => SnifferError::TimeOut,
        crate::usb::UsbFault::Stack(e) => SnifferError::UsbError(e),
    }
}

/// The error taxonomy of one command exchange: a failure is a `DeviceError`
/// (short write or empty acknowledgement read), the fixed protocol error on
/// a wrong acknowledgement byte, or a `UsbError`; never the idle `TimeOut`
/// outcome.
pub open spec fn send_error_post(r: Result<(), SnifferError>) -> bool {
    r matches Err(e) ==> match e {
        SnifferError::DeviceError => true,
        SnifferError::ProtocolError(m) => m@ == "unexpected response code"@,
        SnifferError::TimeOut => false,
        SnifferError::UsbError(_) => true,
    }
}

/// Holds when `r` is the protocol error that carries the message `msg`.
pub open spec fn is_protocol_error<T>(r: Result<T, SnifferError>, msg: Seq<char>) -> bool {
    r matches Err(SnifferError::ProtocolError(m)) && m@ == msg
}

/// Holds when `r` is the device error.
pub open spec fn is_device_error<T>(r: Result<T, SnifferError>) -> bool {
    r matches Err(e) && e is DeviceError
}

/// Holds when `r` returns exactly the payload bytes `p`.
pub open spec fn is_payload(r: Result<Vec<u8>, SnifferError>, p: Seq<u8>) -> bool {
    r matches Ok(v) && v@ == p
}

/// What decoding owes for a read buffer `data` holding `n` freshly read
/// bytes, in validation order: an empty read, a USB length byte that differs
/// from the declared packet length, and a code byte other than the
/// packet-received code are each a protocol error; a frame too short to hold
/// the metadata and trailing checksum is rejected rather than read out of
/// bounds; otherwise the bytes between the three header bytes and the
/// trailing checksum come back as the payload.
pub open spec fn decode_post(data: Seq<u8>, n: int, r: Result<Vec<u8>, SnifferError>) -> bool {
    &&& n == 0 ==> is_protocol_error(r, "empty read"@)
    &&& n >= 1 && data[0] != data[1] ==> is_protocol_error(r, "size mismatch"@)
    &&& n >= 1 && data[0] == data[1] && data[2] != 0x0A ==> is_protocol_error(
        r,
        "unexpected command code"@,
    )
    &&& 1 <= n <= 3 && data[0] == data[1] && data[2] == 0x0A ==> is_protocol_error(
        r,
        "truncated frame"@,
    )
    &&& n >= 4 && data[0] == data[1] && data[2] == 0x0A ==> is_payload(r, data.subrange(3, n - 1))
}

/// Validates and decodes one unsolicited data frame read into `buffer`, of
/// which the first `n` bytes came from the device, exactly as
/// [`decode_post`] lays it out; a malformed frame never yields a partially
/// decoded packet.
pub fn decode_data_frame(buffer: &Vec<u8>, n: usize) -> (r: Result<Vec<u8>, SnifferError>)
    requires
        n <= buffer@.len(),
        buffer@.len() >= 3,
    ensures
        decode_post(buffer@, n as int, r),
        r matches Ok(v) ==> 4 <= n && v@ == buffer@.subrange(3, n - 1),
{
    if n == 0 {
        return Err(SnifferError::ProtocolError("empty read"));
    }
    if buffer[0] != buffer[1] {
        return Err(SnifferError::ProtocolError("size mismatch"));
    }
    if buffer[2] != CmdCodes::CmdGotPkt.code() {
        return Err(SnifferError::ProtocolError("unexpected command code"));
    }
    if n < 4 {
        return Err(SnifferError::ProtocolError("truncated frame"));
    }
    let mut payload: Vec<u8> = Vec::new();
    let mut i: usize = 3;
    while i < n - 1
        invariant
            4 <= n <= buffer@.len(),
            3 <= i <= n - 1,
            payload@ == buffer@.subrange(3, i as int),
        decreases n - i,
    {
        payload.push(buffer[i]);
        proof {
            assert(buffer@.subrange(3, i as int).push(buffer@[i as int]) =~= buffer@.subrange(
                3,
                i as int + 1,
            ));
        }
        i = i + 1;
    }
    Ok(payload)
}

/// A data frame as the device delivers it under correct operation: the USB
/// transfer length byte matches the declared packet length, the code byte is
/// the packet-received code, and the frame holds at least the metadata bytes
/// and the trailing checksum.
pub open spec fn valid_data_frame(data: Seq<u8>, n: int) -> bool {
    &&& data.len() == 256
    &&& 6 <= n <= 256
    &&& data[0] == data[1]
    &&& data[2] == 0x0A
}

/// The payload a valid frame decodes to: the bytes after the three header
/// bytes, up to but excluding the trailing checksum; the RSSI byte (frame
/// offset 3) and the LQI byte (frame offset 4) stand at its front.
pub open spec fn frame_payload(data: Seq<u8>, n: int) -> Seq<u8>
    recommends
        valid_data_frame(data, n),
{
    data.subrange(3, n - 1)
}

/// A valid frame always decodes, to its payload and to nothing else: no
/// error, no partial packet.
pub proof fn lemma_valid_frame_decodes(data: Seq<u8>, n: int, r: Result<Vec<u8>, SnifferError>)
    requires
        valid_data_frame(data, n),
        decode_post(data, n, r),
    ensures
        r matches Ok(v) && v@ == frame_payload(data, n),
{
}

/// Ordering and no-loss: a run of valid unsolicited frames decodes to
/// exactly one payload per frame, in delivery order, none dropped or
/// duplicated, each carrying its frame's RSSI byte at offset 0 and LQI byte
/// at offset 1.
pub proof fn lemma_ordered_delivery(frames: Seq<(Seq<u8>, int)>)
    requires
        forall|k: int|
            0 <= k < frames.len() ==> valid_data_frame(
                (#[trigger] frames[k]).0,
                frames[k].1,
            ),
    ensures
        frames.map_values(|f: (Seq<u8>, int)| frame_payload(f.0, f.1)).len() == frames.len(),
        forall|k: int|
            0 <= k < frames.len() ==> frames.map_values(
                |f: (Seq<u8>, int)| frame_payload(f.0, f.1),
            )[k] == frame_payload((#[trigger] frames[k]).0, frames[k].1),
        forall|k: int|
            0 <= k < frames.len() ==> frame_payload((#[trigger] frames[k]).0, frames[k].1).len()
                == frames[k].1 - 4 && frame_payload(frames[k].0, frames[k].1)[0] == frames[k].0[3]
                && frame_payload(frames[k].0, frames[k].1)[1] == frames[k].0[4],
{
}

/// The first bulk endpoint of `s` in the asked direction, scanned in order.
pub open spec fn first_bulk_endpoint(s: Seq<crate::usb::EndpointInfo>, dir_in: bool) -> Option<u8>
    decreases s.len(),
{
    if s.len() == 0 {
        Option::None
    } else if s[0].bulk && s[0].dir_in == dir_in {
        Option::Some(s[0].address)
    } else {
        first_bulk_endpoint(s.drop_first(), dir_in)
    }
}

/// Scans an interface's endpoints for the first bulk endpoint in the given
/// direction; an interface without one is a `DeviceError`.
pub fn find_first_endpoint(endpoints: &Vec<crate::usb::EndpointInfo>, dir_in: bool) -> (r: Result<
    u8,
    SnifferError,
>)
    ensures
        r matches Ok(a) ==> first_bulk_endpoint(endpoints@, dir_in) == Option::Some(a) && exists|
            i: int,
        |
            0 <= i < endpoints@.len() && (#[trigger] endpoints@[i]).bulk && endpoints@[i].dir_in
                == dir_in && endpoints@[i].address == a,
        r matches Err(e) ==> e is DeviceError && first_bulk_endpoint(endpoints@, dir_in) is None,
{
    let mut i: usize = 0;
    proof {
        assert(endpoints@.skip(0) =~= endpoints@);
    }
    while i < endpoints.len()
        invariant
            i <= endpoints@.len(),
            first_bulk_endpoint(endpoints@, dir_in) == first_bulk_endpoint(
                endpoints@.skip(i as int),
                dir_in,
            ),
            forall|j: int|
                0 <= j < i ==> !((#[trigger] endpoints@[j]).bulk && endpoints@[j].dir_in == dir_in),
        decreases endpoints@.len() - i,
    {
        let e = endpoints[i];
        proof {
            assert(endpoints@.skip(i as int)[0] == endpoints@[i as int]);
        }
        if e.bulk && e.dir_in == dir_in {
            return Ok(e.address);
        }
        proof {
            assert(endpoints@.skip(i as int).drop_first() =~= endpoints@.skip(i as int + 1));
        }
        i = i + 1;
    }
    proof {
        assert(endpoints@.skip(endpoints@.len() as int) =~= Seq::<crate::usb::EndpointInfo>::empty());
    }
    Err(SnifferError::DeviceError)
}

/// Selects the first identifier pair that matches the asked vendor and
/// product, scanned in order: the returned index holds the first match, and
/// `None` comes exactly when no pair matches.
pub fn first_match(ids: &Vec<(u16, u16)>, vendor: u16, product: u16) -> (r: Option<usize>)
    ensures
        r matches Some(i) ==> i < ids@.len() && (#[trigger] ids@[i as int]).0 == vendor
            && ids@[i as int].1 == product && forall|j: int|
            0 <= j < i ==> !((#[trigger] ids@[j]).0 == vendor && ids@[j].1 == product),
        r is None ==> forall|j: int|
            0 <= j < ids@.len() ==> !((#[trigger] ids@[j]).0 == vendor && ids@[j].1 == product),
{
    let mut i: usize = 0;
    while i < ids.len()
        invariant
            i <= ids@.len(),
            forall|j: int| 0 <= j < i ==> !((#[trigger] ids@[j]).0 == vendor && ids@[j].1 == product),
        decreases ids@.len() - i,
    {
        let pair = ids[i];
        if pair.0 == vendor && pair.1 == product {
            return Some(i);
        }
        i = i + 1;
    }
    None
}

/// A buffer of `len` zero bytes, ready to receive a bulk transfer.
fn zero_buffer(len: usize) -> (r: Vec<u8>)
    ensures
        r@.len() == len,
        forall|i: int| 0 <= i < len ==> r@[i] == 0u8,
{
    let mut buffer: Vec<u8> = Vec::new();
    let mut i: usize = 0;
    while i < len
        invariant
            i <= len,
            buffer@.len() == i,
            forall|j: int| 0 <= j < i ==> buffer@[j] == 0u8,
        decreases len - i,
    {
        buffer.push(0);
        i = i + 1;
    }
    buffer
}

/// An open sniffer device: the USB handle, the device descriptor, and the
/// bulk endpoint addresses discovered at binding.  The handle is owned
/// exclusively for the whole session; there is no rebinding.
pub struct SnifferDevice {
    handle: crate::usb::UsbHandle,
    descriptor: rusb::DeviceDescriptor,
    out_address: u8,
    in_address: u8,
    debug: bool,
}

impl SnifferDevice {
    /// The endpoint addresses carry their direction in bit 7: set on the
    /// device-to-host (IN) address, clear on the host-to-device (OUT) one.
    pub closed spec fn wf(self) -> bool {
        &&& self.in_address & 0x80 == 0x80
        &&& self.out_address & 0x80 == 0
    }

    /// Whether transfers are echoed for debugging.
    pub closed spec fn debug_enabled(self) -> bool {
        self.debug
    }

    /// The two values share the whole binding: the handle, the descriptor
    /// and both endpoint addresses.
    pub closed spec fn same_binding(self, other: SnifferDevice) -> bool {
        &&& self.handle == other.handle
        &&& self.descriptor == other.descriptor
        &&& self.in_address == other.in_address
        &&& self.out_address == other.out_address
    }

    /// Binds a located device: opens it, claims interface 0, and scans the
    /// first interface descriptor for the first IN and first OUT bulk
    /// endpoint; missing either, or any fault of the USB stack, refuses the
    /// device.
    pub fn new(device: crate::usb::UsbDevice) -> (r: Result<SnifferDevice, SnifferError>)
        ensures
            r matches Ok(d) ==> d.wf() && !d.debug_enabled(),
    {
        let handle = match crate::usb::open_device(&device) {
            Ok(h) => h,
            Err(e) => return Err(SnifferError::from(e)),
        };
        let descriptor = match crate::usb::device_descriptor(&device) {
            Ok(d) => d,
            Err(e) => return Err(SnifferError::from(e)),
        };
        match crate::usb::claim_interface(&handle, 0) {
            Ok(_) => (),
            Err(e) => return Err(SnifferError::from(e)),
        }
        let endpoints = match crate::usb::interface_endpoints(&device) {
            Ok(v) => v,
            Err(e) => return Err(SnifferError::from(e)),
        };
        let in_address = match find_first_endpoint(&endpoints, true) {
            Ok(a) => a,
            Err(e) => return Err(e),
        };
        let out_address = match find_first_endpoint(&endpoints, false) {
            Ok(a) => a,
            Err(e) => return Err(e),
        };
        proof {
            assert(out_address & 0x80 == 0 || out_address & 0x80 == 0x80) by (bit_vector);
        }
        Ok(
            SnifferDevice {
                handle,
                descriptor,
                out_address,
                in_address,
                debug: false,
            },
        )
    }

    /// Enumerates the USB bus and returns the first device whose vendor and
    /// product identifiers both match, in platform enumeration order: reads
    /// every device's identifier pair through the trusted boundary and hands
    /// the whole list to [`first_match`], which carries the selection with
    /// an exact contract.  A bus without a match yields `None`, a valid
    /// negative result; so does a failed enumeration or descriptor read,
    /// which aborts the scan with no later device ever returned.
    pub fn find_device(vendor: u16, product: u16) -> (r: Option<crate::usb::UsbDevice>)
        ensures
            r is Some ==> exists|ids: Seq<(u16, u16)>, i: int|
                0 <= i < ids.len() && (#[trigger] ids[i]).0 == vendor && ids[i].1 == product,
    {
        let mut devices = match crate::usb::list_devices() {
            Ok(v) => v,
            Err(_) => return None,
        };
        let mut ids: Vec<(u16, u16)> = Vec::new();
        let mut i: usize = 0;
        while i < devices.len()
            invariant
                i <= devices@.len(),
                ids@.len() == i,
            decreases devices@.len() - i,
        {
            let descriptor = match crate::usb::device_descriptor(&devices[i]) {
                Ok(d) => d,
                Err(_) => return None,
            };
            let vendor_id = crate::usb::descriptor_vendor_id(&descriptor);
            let product_id = crate::usb::descriptor_product_id(&descriptor);
            ids.push((vendor_id, product_id));
            i = i + 1;
        }
        match first_match(&ids, vendor, product) {
            Some(index) => {
                proof {
                    assert((ids@[index as int]).0 == vendor && ids@[index as int].1 == product);
                }
                Some(devices.remove(index))
            },
            None => None,
        }
    }

    /// The device's product string, if it offers one and the read succeeds.
    pub fn get_product_name(&self) -> Option<String> {
        match crate::usb::read_product_string(&self.handle, &self.descriptor) {
            Ok(n) => Some(n),
            Err(_) => None,
        }
    }

    /// Sends one command frame and validates the acknowledgement, as one
    /// synchronous exchange with at most one write and one read, no retry:
    /// builds the frame of [`command_frame_bytes`], writes it as a single
    /// bulk transfer, decides the returned count by [`check_write_count`],
    /// then reads the response and decides it by [`ack_post`].  A fault of
    /// the USB stack surfaces as [`send_fault_error`] says; the whole error
    /// taxonomy of the exchange is [`send_error_post`], which never holds
    /// the idle `TimeOut` outcome.
    pub fn send_command(&self, command: CmdCodes, payload: &[u8]) -> (r: Result<(), SnifferError>)
        requires
            self.wf(),
            payload@.len() <= 252,
            command.spec_code() < 0xFF,
        ensures
            send_error_post(r),
    {
        let buffer = build_command_frame(command, payload);
        let written = match crate::usb::bulk_write(
            &self.handle,
            self.out_address,
            buffer.as_slice(),
            250,
        ) {
            Ok(n) => n,
            Err(e) => return Err(SnifferError::from(e)),
        };
        match check_write_count(written, buffer.len()) {
            Ok(_) => (),
            Err(e) => return Err(e),
        }
        let mut read_buffer = zero_buffer(256);
        match crate::usb::bulk_read(&self.handle, self.in_address, &mut read_buffer, 250) {
            Ok(n) => decode_ack(&read_buffer, n, command),
            Err(fault) => Err(send_transport_error(fault)),
        }
    }

    /// Reads one unsolicited data frame with a one-second deadline and
    /// decodes it as [`decode_post`] lays out.  Every outcome other than a
    /// transport one is the decode of some read of at most 256 bytes, so a
    /// malformed frame never yields a partially decoded packet.  A deadline
    /// that passes without data is the distinct `TimeOut` outcome, not a
    /// failure: the call borrows the device shared and requires only its
    /// invariant, so a timed-out call changes nothing and the next call may
    /// follow at once.
    pub fn receive_packet(&self) -> (r: Result<Vec<u8>, SnifferError>)
        requires
            self.wf(),
        ensures
            r matches Err(e) && (e is TimeOut || e is UsbError) || exists|data: Seq<u8>, n: int|
                data.len() == 256 && 0 <= n <= 256 && #[trigger] decode_post(data, n, r),
            r matches Ok(v) ==> v@.len() <= 252,
    {
        let mut buffer = zero_buffer(256);
        match crate::usb::bulk_read(&self.handle, self.in_address, &mut buffer, 1000) {
            Ok(n) => {
                let r = decode_data_frame(&buffer, n);
                proof {
                    assert(decode_post(buffer@, n as int, r));
                }
                r
            },
            Err(fault) => Err(receive_transport_error(fault)),
        }
    }

    /// Turns on echoing of transfers for debugging; no other field of the
    /// device changes.
    pub fn set_debug(&mut self)
        ensures
            final(self).debug_enabled(),
            final(self).same_binding(*old(self)),
            final(self).wf() == old(self).wf(),
    {
        self.debug = true;
    }
}

} // verus!
