use ccsniffer::sniffer::CmdCodes;
use ccsniffer::sniffer::SnifferError;
use ccsniffer::sniffer::build_command_frame;
use ccsniffer::sniffer::calculate_crc;
use ccsniffer::sniffer::check_ack;
use ccsniffer::sniffer::check_write_count;
use ccsniffer::sniffer::decode_ack;
use ccsniffer::sniffer::decode_data_frame;
use ccsniffer::sniffer::find_first_endpoint;
use ccsniffer::sniffer::first_match;
use ccsniffer::sniffer::receive_transport_error;
use ccsniffer::sniffer::send_transport_error;
use ccsniffer::usb::EndpointInfo;
use ccsniffer::usb::UsbFault;

fn frame_buffer(front: &[u8]) -> Vec<u8> {
    let mut buffer = vec![0u8; 256];
    buffer[..front.len()].copy_from_slice(front);
    buffer
}

#[test]
fn checksum_of_init_header() {
    assert_eq!(calculate_crc(&[0x03, 0x00], 2), 0xFC);
}

#[test]
fn checksum_starts_at_seed() {
    assert_eq!(calculate_crc(&[], 0), 0xFF);
    assert_eq!(calculate_crc(&[0xFF], 1), 0x00);
}

#[test]
fn checksum_takes_in_one_byte_per_step() {
    let bytes = [0x04u8, 0x02, 0x0D];
    assert_eq!(calculate_crc(&bytes, 3), 0xFFu8 ^ 0x04 ^ 0x02 ^ 0x0D);
    assert_eq!(calculate_crc(&bytes, 2), 0xFFu8 ^ 0x04 ^ 0x02);
}

#[test]
fn init_frame_bytes() {
    let frame = build_command_frame(CmdCodes::CmdInit, &[]);
    assert_eq!(frame, [0x03, 0x00, 0xFC]);
}

#[test]
fn set_channel_frame_bytes() {
    let frame = build_command_frame(CmdCodes::CmdSetChannel, &[13]);
    // 0xFF ^ 0x04 ^ 0x02 ^ 0x0D == 0xF4: the checksum folds in the length
    // byte, the code byte and the payload.
    assert_eq!(frame, [0x04, 0x02, 0x0D, 0xF4]);
}

#[test]
fn ack_accepts_only_command_code_plus_one() {
    let commands = [
        CmdCodes::CmdInit,
        CmdCodes::CmdSetChannel,
        CmdCodes::CmdSendPkt,
        CmdCodes::CmdSniffOn,
        CmdCodes::CmdSniffOff,
    ];
    for command in commands {
        let expected = command.code() + 1;
        for response in 0..=255u8 {
            let buffer = frame_buffer(&[6, 6, response]);
            let result = check_ack(&buffer, command);
            if response == expected {
                assert!(result.is_ok());
            } else {
                match result {
                    Err(SnifferError::ProtocolError(m)) => {
                        assert_eq!(m, "unexpected response code")
                    }
                    _ => panic!("accepted response {:#04x} for {:#04x}", response, command.code()),
                }
            }
        }
    }
}

#[test]
fn code_table_round_trip() {
    assert_eq!(CmdCodes::from(0x05u8), CmdCodes::CmdSendPktAck);
    assert_eq!(CmdCodes::from(0x0Au8), CmdCodes::CmdGotPkt);
    assert_eq!(CmdCodes::from(0x0Bu8), CmdCodes::CmdErr);
    assert_eq!(CmdCodes::from(0xFFu8), CmdCodes::CmdErr);
    assert_eq!(CmdCodes::CmdSniffOff.code(), 0x08);
}

#[test]
fn decode_returns_payload_without_metadata_or_checksum() {
    let buffer = frame_buffer(&[6, 6, 0x0A, 200, 7, 0xEE]);
    let payload = decode_data_frame(&buffer, 6).unwrap();
    assert_eq!(payload, [200, 7]);
}

#[test]
fn decode_keeps_frames_in_order() {
    let first = frame_buffer(&[7, 7, 0x0A, 1, 2, 3, 0xEE]);
    let second = frame_buffer(&[7, 7, 0x0A, 4, 5, 6, 0xEE]);
    let payloads = vec![
        decode_data_frame(&first, 7).unwrap(),
        decode_data_frame(&second, 7).unwrap(),
    ];
    assert_eq!(payloads, [[1, 2, 3], [4, 5, 6]]);
}

#[test]
fn decode_rejects_empty_read() {
    let buffer = frame_buffer(&[]);
    match decode_data_frame(&buffer, 0) {
        Err(SnifferError::ProtocolError(m)) => assert_eq!(m, "empty read"),
        _ => panic!("empty read was not rejected"),
    }
}

#[test]
fn decode_rejects_size_mismatch() {
    let buffer = frame_buffer(&[5, 6, 0x0A, 200, 7, 0xEE]);
    match decode_data_frame(&buffer, 6) {
        Err(SnifferError::ProtocolError(m)) => assert_eq!(m, "size mismatch"),
        _ => panic!("size mismatch was not rejected"),
    }
}

#[test]
fn decode_rejects_unexpected_code() {
    let buffer = frame_buffer(&[6, 6, 0x0B, 200, 7, 0xEE]);
    match decode_data_frame(&buffer, 6) {
        Err(SnifferError::ProtocolError(m)) => assert_eq!(m, "unexpected command code"),
        _ => panic!("unexpected code was not rejected"),
    }
}

#[test]
fn decode_rejects_truncated_frame() {
    let buffer = frame_buffer(&[3, 3, 0x0A]);
    match decode_data_frame(&buffer, 3) {
        Err(SnifferError::ProtocolError(m)) => assert_eq!(m, "truncated frame"),
        _ => panic!("truncated frame was not rejected"),
    }
}

#[test]
fn short_write_is_device_error_full_write_is_ok() {
    assert!(check_write_count(3, 3).is_ok());
    assert!(matches!(check_write_count(2, 3), Err(SnifferError::DeviceError)));
    assert!(matches!(check_write_count(0, 3), Err(SnifferError::DeviceError)));
}

#[test]
fn empty_ack_read_is_device_error() {
    let buffer = frame_buffer(&[3, 3, 0x01]);
    assert!(matches!(
        decode_ack(&buffer, 0, CmdCodes::CmdInit),
        Err(SnifferError::DeviceError)
    ));
    assert!(decode_ack(&buffer, 3, CmdCodes::CmdInit).is_ok());
    assert!(matches!(
        decode_ack(&buffer, 3, CmdCodes::CmdSetChannel),
        Err(SnifferError::ProtocolError("unexpected response code"))
    ));
}

#[test]
fn transport_fault_keeps_the_underlying_error() {
    assert!(matches!(
        send_transport_error(UsbFault::Timeout(rusb::Error::Timeout)),
        SnifferError::UsbError(rusb::Error::Timeout)
    ));
    assert!(matches!(
        send_transport_error(UsbFault::Stack(rusb::Error::Io)),
        SnifferError::UsbError(rusb::Error::Io)
    ));
    assert!(matches!(
        receive_transport_error(UsbFault::Timeout(rusb::Error::Timeout)),
        SnifferError::TimeOut
    ));
    assert!(matches!(
        receive_transport_error(UsbFault::Stack(rusb::Error::NoDevice)),
        SnifferError::UsbError(rusb::Error::NoDevice)
    ));
}

#[test]
fn first_match_takes_the_first_pair_in_order() {
    let ids = vec![(0x0451u16, 0x0001u16), (0x0451, 0x16a8), (0x0451, 0x16a8)];
    assert_eq!(first_match(&ids, 0x0451, 0x16a8), Some(1));
    assert_eq!(first_match(&ids, 0x0451, 0x0001), Some(0));
    assert_eq!(first_match(&ids, 0x1915, 0x16a8), None);
    assert_eq!(first_match(&vec![], 0x0451, 0x16a8), None);
}

#[test]
fn endpoint_scan_picks_first_bulk_of_each_direction() {
    let endpoints = vec![
        EndpointInfo { address: 0x81, dir_in: true, bulk: false },
        EndpointInfo { address: 0x02, dir_in: false, bulk: true },
        EndpointInfo { address: 0x84, dir_in: true, bulk: true },
        EndpointInfo { address: 0x85, dir_in: true, bulk: true },
    ];
    assert_eq!(find_first_endpoint(&endpoints, true).unwrap(), 0x84);
    assert_eq!(find_first_endpoint(&endpoints, false).unwrap(), 0x02);
}

#[test]
fn endpoint_scan_without_match_is_device_error() {
    let endpoints = vec![EndpointInfo { address: 0x02, dir_in: false, bulk: true }];
    assert!(matches!(
        find_first_endpoint(&endpoints, true),
        Err(SnifferError::DeviceError)
    ));
    assert!(matches!(
        find_first_endpoint(&vec![], false),
        Err(SnifferError::DeviceError)
    ));
}
