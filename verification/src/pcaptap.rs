//! Self-describing metadata stream prepended to each captured radio frame.
//!
//! The stream is a 4-byte header followed by fixed eight-byte TLV records in
//! a fixed order; downstream tooling reads it byte for byte, so the layout
//! here is a wire contract.  The RSSI record carries its value as an
//! IEEE-754 32-bit float; every dBm value an `i8` can hold is represented
//! exactly, so its bit pattern is computed here in plain integer arithmetic.

use vstd::prelude::*;

verus! {

/// A `u16` in little-endian byte order.
pub open spec fn le16(x: u16) -> Seq<u8> {
    seq![(x & 0xFF) as u8, ((x >> 8) & 0xFF) as u8]
}

/// A `u32` in little-endian byte order.
pub open spec fn le32(x: u32) -> Seq<u8> {
    seq![
        (x & 0xFF) as u8,
        ((x >> 8) & 0xFF) as u8,
        ((x >> 16) & 0xFF) as u8,
        ((x >> 24) & 0xFF) as u8,
    ]
}

/// The magnitude of an RSSI value, between 0 and 128.
pub open spec fn rssi_magnitude(v: i8) -> int {
    if v < 0 {
        -(v as int)
    } else {
        v as int
    }
}

/// The power of two that shifts a magnitude's leading bit to the implicit
/// bit of an IEEE-754 single-precision significand.
pub open spec fn mantissa_shift(m: int) -> int {
    if m >= 128 {
        0x10000
    } else if m >= 64 {
        0x20000
    } else if m >= 32 {
        0x40000
    } else if m >= 16 {
        0x80000
    } else if m >= 8 {
        0x100000
    } else if m >= 4 {
        0x200000
    } else if m >= 2 {
        0x400000
    } else {
        0x800000
    }
}

/// The biased IEEE-754 single-precision exponent of a magnitude between 1
/// and 128.
pub open spec fn biased_exponent(m: int) -> int {
    if m >= 128 {
        134
    } else if m >= 64 {
        133
    } else if m >= 32 {
        132
    } else if m >= 16 {
        131
    } else if m >= 8 {
        130
    } else if m >= 4 {
        129
    } else if m >= 2 {
        128
    } else {
        127
    }
}

/// The IEEE-754 single-precision bit pattern of the integer `v`: zero for
/// zero, otherwise the sign bit, the biased exponent of the magnitude, and
/// the magnitude's bits below its leading one, shifted to the top of the
/// 23-bit significand field.
pub open spec fn rssi_f32_bits(v: i8) -> u32 {
    if v == 0 {
        0
    } else {
        let m = rssi_magnitude(v);
        let sign: int = if v < 0 {
            0x8000_0000
        } else {
            0
        };
        (sign + biased_exponent(m) * 0x800000 + (m * mantissa_shift(m) - 0x800000)) as u32
    }
}

/// Computes [`rssi_f32_bits`] in executable integer arithmetic.
fn rssi_f32(v: i8) -> (r: u32)
    ensures
        r == rssi_f32_bits(v),
{
    if v == 0 {
        return 0;
    }
    let neg = v < 0;
    let m: u32 = if neg {
        (-(v as i32)) as u32
    } else {
        v as u32
    };
    let mut exp: u32 = 127;
    let mut mult: u32 = 0x800000;
    if m >= 128 {
        exp = 134;
        mult = 0x10000;
    } else if m >= 64 {
        exp = 133;
        mult = 0x20000;
    } else if m >= 32 {
        exp = 132;
        mult = 0x40000;
    } else if m >= 16 {
        exp = 131;
        mult = 0x80000;
    } else if m >= 8 {
        exp = 130;
        mult = 0x100000;
    } else if m >= 4 {
        exp = 129;
        mult = 0x200000;
    } else if m >= 2 {
        exp = 128;
        mult = 0x400000;
    }
    let sign: u32 = if neg {
        0x8000_0000
    } else {
        0
    };
    sign + exp * 0x800000 + (m * mult - 0x800000)
}

/// The four little-endian bytes of an RSSI value reinterpreted as an
/// IEEE-754 32-bit float.
pub fn rssi_float_bytes(v: i8) -> (r: Vec<u8>)
    ensures
        r@ == le32(rssi_f32_bits(v)),
{
    let bits = rssi_f32(v);
    let mut w: Vec<u8> = Vec::new();
    push_u32_le(&mut w, bits);
    proof {
        assert(w@ =~= le32(bits));
    }
    w
}

/// Appends `x` to `w` in little-endian byte order.
fn push_u16_le(w: &mut Vec<u8>, x: u16)
    ensures
        final(w)@ == old(w)@ + le16(x),
{
    w.push((x & 0xFF) as u8);
    w.push(((x >> 8) & 0xFF) as u8);
    proof {
        assert(final(w)@ =~= old(w)@ + le16(x));
    }
}

/// Appends `x` to `w` in little-endian byte order.
fn push_u32_le(w: &mut Vec<u8>, x: u32)
    ensures
        final(w)@ == old(w)@ + le32(x),
{
    w.push((x & 0xFF) as u8);
    w.push(((x >> 8) & 0xFF) as u8);
    w.push(((x >> 16) & 0xFF) as u8);
    w.push(((x >> 24) & 0xFF) as u8);
    proof {
        assert(final(w)@ =~= old(w)@ + le32(x));
    }
}

/// One block of the metadata stream: the stream header with its record
/// count, or one fixed eight-byte TLV record.
pub enum TapBlock {
    /// The 4-byte stream header for the given number of TLV records.
    Header(usize),
    /// RSSI in dBm, type 1, serialized as an IEEE-754 32-bit float.
    TlvRssi(i8),
    /// Link Quality Indicator, type 10, zero-padded.
    TlvLqi(u8),
    /// Channel assignment, type 3: the channel and channel page 0,
    /// zero-padded.
    ChannelAssignment(u16),
}

/// The bytes a block serializes to.  The header is version 0, a reserved
/// zero byte, and the total stream length `4 + 8 * records` in little-endian
/// order; each TLV record is its type and declared value length as `u16`s,
/// then the value, zero-padded to eight bytes.
pub open spec fn block_bytes(b: TapBlock) -> Seq<u8> {
    match b {
        TapBlock::Header(blocks) => seq![0u8, 0u8] + le16((4 + 8 * blocks) as u16),
        TapBlock::TlvRssi(v) => le16(1) + le16(4) + le32(rssi_f32_bits(v)),
        TapBlock::TlvLqi(v) => le16(10) + le16(1) + seq![v, 0u8, 0u8, 0u8],
        TapBlock::ChannelAssignment(c) => le16(3) + le16(3) + le16(c) + seq![0u8, 0u8],
    }
}

impl TapBlock {
    /// Serializes the block, appending exactly [`block_bytes`] to `w` and
    /// returning how many bytes that appended: 4 for the header, 8 for a TLV
    /// record.
    pub fn write_to(self, w: &mut Vec<u8>) -> (r: usize)
        requires
            self matches TapBlock::Header(blocks) ==> blocks <= 8191,
        ensures
            final(w)@ == old(w)@ + block_bytes(self),
            r == block_bytes(self).len(),
    {
        match self {
            TapBlock::TlvRssi(v) => {
                push_u16_le(w, 1);
                push_u16_le(w, 4);
                let bits = rssi_f32(v);
                push_u32_le(w, bits);
                proof {
                    assert(final(w)@ =~= old(w)@ + block_bytes(self));
                }
                8
            },
            TapBlock::TlvLqi(v) => {
                push_u16_le(w, 10);
                push_u16_le(w, 1);
                w.push(v);
                w.push(0);
                w.push(0);
                w.push(0);
                proof {
                    assert(final(w)@ =~= old(w)@ + block_bytes(self));
                }
                8
            },
            TapBlock::Header(blocks) => {
                w.push(0);
                w.push(0);
                push_u16_le(w, 4 + 8 * (blocks as u16));
                proof {
                    assert(final(w)@ =~= old(w)@ + block_bytes(self));
                }
                4
            },
            TapBlock::ChannelAssignment(channel) => {
                push_u16_le(w, 3);
                push_u16_le(w, 3);
                push_u16_le(w, channel);
                w.push(0);
                w.push(0);
                proof {
                    assert(final(w)@ =~= old(w)@ + block_bytes(self));
                }
                8
            },
        }
    }
}

/// The complete metadata header for one captured frame: the stream header
/// for three records, then the RSSI, channel-assignment and LQI records in
/// that fixed order; 28 bytes in all.
pub open spec fn metadata_header_bytes(rssi: i8, lqi: u8, channel: u16) -> Seq<u8> {
    block_bytes(TapBlock::Header(3)) + block_bytes(TapBlock::TlvRssi(rssi)) + block_bytes(
        TapBlock::ChannelAssignment(channel),
    ) + block_bytes(TapBlock::TlvLqi(lqi))
}

/// Serializes the complete metadata header for one captured frame.
pub fn encode_metadata_header(rssi: i8, lqi: u8, channel: u16) -> (r: Vec<u8>)
    ensures
        r@ == metadata_header_bytes(rssi, lqi, channel),
        r@.len() == 28,
{
    let mut w: Vec<u8> = Vec::new();
    TapBlock::Header(3).write_to(&mut w);
    TapBlock::TlvRssi(rssi).write_to(&mut w);
    TapBlock::ChannelAssignment(channel).write_to(&mut w);
    TapBlock::TlvLqi(lqi).write_to(&mut w);
    proof {
        assert(w@ =~= metadata_header_bytes(rssi, lqi, channel));
    }
    w
}

/// One captured frame after receive and metadata decode: RSSI in dBm, LQI,
/// the channel the command engine last set, and the raw radio payload.  The
/// capture writer consumes it exactly once per frame.
pub struct DecodedPacket {
    pub rssi_dbm: i8,
    pub lqi: u8,
    pub channel: u16,
    pub payload: Vec<u8>,
}

impl DecodedPacket {
    /// Splits the bytes the packet receiver returns — the RSSI byte at
    /// offset 0, reinterpreted as signed, the LQI byte at offset 1, the raw
    /// radio frame after them — and joins the channel supplied by the
    /// caller.  Bytes too short to hold the two metadata bytes give no
    /// packet.
    pub fn from_frame(frame: &Vec<u8>, channel: u16) -> (r: Option<DecodedPacket>)
        ensures
            r is Some <==> frame@.len() >= 2,
            r matches Some(p) ==> p.rssi_dbm == frame@[0] as i8 && p.lqi == frame@[1] && p.channel
                == channel && p.payload@ == frame@.subrange(2, frame@.len() as int),
    {
        if frame.len() < 2 {
            return None;
        }
        let rssi_dbm = frame[0] as i8;
        let lqi = frame[1];
        let mut payload: Vec<u8> = Vec::new();
        let mut i: usize = 2;
        while i < frame.len()
            invariant
                2 <= i <= frame@.len(),
                payload@ == frame@.subrange(2, i as int),
            decreases frame@.len() - i,
        {
            payload.push(frame[i]);
            proof {
                assert(frame@.subrange(2, i as int).push(frame@[i as int]) =~= frame@.subrange(
                    2,
                    i as int + 1,
                ));
            }
            i = i + 1;
        }
        Some(DecodedPacket { rssi_dbm, lqi, channel, payload })
    }

    /// The frame as the capture writer stores it: the metadata header, then
    /// the raw radio payload.
    pub fn encode(&self) -> (r: Vec<u8>)
        ensures
            r@ == metadata_header_bytes(self.rssi_dbm, self.lqi, self.channel) + self.payload@,
    {
        let mut w = encode_metadata_header(self.rssi_dbm, self.lqi, self.channel);
        let mut i: usize = 0;
        while i < self.payload.len()
            invariant
                i <= self.payload@.len(),
                w@ == metadata_header_bytes(self.rssi_dbm, self.lqi, self.channel)
                    + self.payload@.take(i as int),
            decreases self.payload@.len() - i,
        {
            w.push(self.payload[i]);
            proof {
                assert((metadata_header_bytes(self.rssi_dbm, self.lqi, self.channel)
                    + self.payload@.take(i as int)).push(self.payload@[i as int])
                    =~= metadata_header_bytes(self.rssi_dbm, self.lqi, self.channel)
                    + self.payload@.take(i as int + 1));
            }
            i = i + 1;
        }
        proof {
            assert(self.payload@.take(self.payload@.len() as int) =~= self.payload@);
        }
        w
    }
}

} // verus!
