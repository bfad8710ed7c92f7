//! Driver library for a USB IEEE 802.15.4 sniffer dongle.
//!
//! The library holds the protocol engine: command frames with their XOR
//! checksum, acknowledgement validation, parsing of unsolicited data frames,
//! and the TLV metadata header prepended to each captured radio frame.
//! USB transfers go through the `rusb` crate behind the trusted declarations
//! in [`usb`].

pub mod pcaptap;
pub mod protocol;
pub mod sniffer;
pub mod usb;
