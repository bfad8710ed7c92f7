use ccsniffer::pcaptap::DecodedPacket;
use ccsniffer::pcaptap::TapBlock;
use ccsniffer::pcaptap::encode_metadata_header;
use ccsniffer::pcaptap::rssi_float_bytes;

#[test]
fn serialize_header() {
    let mut v = vec![1 as u8; 0];
    TapBlock::Header(2).write_to(&mut v);
    assert_eq!(v, [0, 0, 20, 0])
}

#[test]
fn serialize_rssi() {
    let mut v = vec![1 as u8; 0];
    TapBlock::TlvRssi(5).write_to(&mut v);
    assert_eq!(v, [1, 0, 4, 0, 0, 0, 160, 64])
}

#[test]
fn serialize_lqi() {
    let mut v = vec![1 as u8; 0];
    TapBlock::TlvLqi(5).write_to(&mut v);
    assert_eq!(v, [10, 0, 1, 0, 5, 0, 0, 0])
}

#[test]
fn serialize_ca() {
    let mut v = vec![1 as u8; 0];
    TapBlock::ChannelAssignment(11).write_to(&mut v);
    assert_eq!(v, [3, 0, 3, 0, 11, 0, 0, 0])
}

#[test]
fn rssi_bytes_match_ieee_float() {
    let mut v: i16 = -128;
    while v <= 127 {
        let expected = ((v as i8) as f32).to_le_bytes().to_vec();
        assert_eq!(rssi_float_bytes(v as i8), expected);
        v += 1;
    }
}

#[test]
fn full_header_reports_twenty_eight_bytes() {
    let header = encode_metadata_header(5, 5, 11);
    assert_eq!(header.len(), 28);
    assert_eq!(&header[0..4], [0, 0, 28, 0]);
    assert_eq!(&header[4..12], [1, 0, 4, 0, 0, 0, 160, 64]);
    assert_eq!(&header[12..20], [3, 0, 3, 0, 11, 0, 0, 0]);
    assert_eq!(&header[20..28], [10, 0, 1, 0, 5, 0, 0, 0]);
}

#[test]
fn decoded_packet_splits_metadata() {
    let frame = vec![200u8, 7, 1, 2, 3];
    let packet = DecodedPacket::from_frame(&frame, 13).unwrap();
    assert_eq!(packet.rssi_dbm, -56);
    assert_eq!(packet.lqi, 7);
    assert_eq!(packet.channel, 13);
    assert_eq!(packet.payload, [1, 2, 3]);
}

#[test]
fn decoded_packet_refuses_short_frame() {
    assert!(DecodedPacket::from_frame(&vec![200u8], 13).is_none());
}

#[test]
fn encoded_packet_is_header_then_payload() {
    let frame = vec![5u8, 5, 9, 8, 7];
    let packet = DecodedPacket::from_frame(&frame, 11).unwrap();
    let bytes = packet.encode();
    assert_eq!(bytes.len(), 31);
    assert_eq!(&bytes[0..28], encode_metadata_header(5, 5, 11).as_slice());
    assert_eq!(&bytes[28..], [9, 8, 7]);
}
