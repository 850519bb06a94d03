//! The VBAN wire-format codec.
//!
//! A packet is a 28-byte header followed by the payload (all remaining bytes
//! of the datagram). The header: the 4-byte magic `"VBAN"`; one byte packing
//! a 5-bit sample-rate index (low bits) and a 3-bit sub-protocol code (high
//! bits, multiples of 0x20); samples-per-frame and channel-count bytes (wire
//! value = actual count − 1); one byte packing a 3-bit data-type code (low
//! bits) and a 4-bit codec code (high bits, multiples of 0x10, bit 3 unused
//! and always encoded as 0); the 16-byte NUL-padded ASCII stream name; and a
//! 4-byte little-endian frame counter.
//!
//! Each packed enumeration is a closed table of known wire codes plus a
//! raw-preserving catch-all, so that decoding never loses bits that a later
//! encode would need.

use vstd::prelude::*;

use crate::asciistackstr::{
    lemma_trunc_of_padded, spec_pad_nul, spec_trunc_nul, AsciiStackString,
};

verus! {

/// The ASCII bytes of the packet magic "VBAN".
pub const MAGIC_V: u8 = 0x56;

/// The ASCII bytes of the packet magic "VBAN".
pub const MAGIC_B: u8 = 0x42;

/// The ASCII bytes of the packet magic "VBAN".
pub const MAGIC_A: u8 = 0x41;

/// The ASCII bytes of the packet magic "VBAN".
pub const MAGIC_N: u8 = 0x4E;

/// Errors of the conversion helpers around the codec.
#[derive(Debug, Clone, PartialEq, Eq)]
pub enum VbanPacketError {
    /// The rate in Hz matches none of the known sample-rate codes.
    UnknownSampleRate(u32),
    /// A sample-rate index outside the known table.
    UnknownSampleRateIndex(u8),
    /// A stream name that is not at most 16 ASCII bytes.
    InvalidStreamName(String),
    /// More sample frames than the wire byte can carry.
    TooManySamplesPerFrame,
    /// More channels than the wire byte can carry.
    TooManyChannels,
}

/// Why a datagram was rejected by the decoder.
#[derive(Debug, Clone, Copy, PartialEq, Eq, Structural)]
pub enum VbanDecodeError {
    /// Too short for a full header, or the magic does not match.
    MalformedPacket,
    /// The stream-name field holds a non-ASCII byte.
    StreamNameNotAscii,
}

/// The sample rate of the stream: 21 known rates (three geometric families
/// spanning 6 kHz to 705.6 kHz) indexed 0–20 by the low 5 bits of the wire
/// byte, plus a raw-preserving variant for the 11 unassigned indexes.
#[derive(Debug, Clone, Copy, PartialEq, Eq, Structural)]
pub enum SampleRate {
    Hz6000,
    Hz12000,
    Hz24000,
    Hz48000,
    Hz96000,
    Hz192000,
    Hz384000,
    Hz8000,
    Hz16000,
    Hz32000,
    Hz64000,
    Hz128000,
    Hz256000,
    Hz512000,
    Hz11025,
    Hz22050,
    Hz44100,
    Hz88200,
    Hz176400,
    Hz352800,
    Hz705600,
    /// An unassigned 5-bit index, kept verbatim so re-encoding is lossless.
    Undefined(u8),
}

/// The VBAN payload category, keyed by the top 3 bits of byte 4.
#[derive(Debug, Clone, Copy, PartialEq, Eq, Structural)]
pub enum SubProtocol {
    Audio,
    Serial,
    Txt,
    Service,
    Undefined1,
    Undefined2,
    Undefined3,
    User,
}

/// The sample format of the payload, keyed by the low 3 bits of byte 7.
#[derive(Debug, Clone, Copy, PartialEq, Eq, Structural)]
pub enum DataType {
    U8,
    I16,
    I24,
    I32,
    F32,
    F64,
    I12,
    I10,
}

/// The payload compression scheme, keyed by the top 4 bits of byte 7.
#[derive(Debug, Clone, Copy, PartialEq, Eq, Structural)]
pub enum Codec {
    PCM,
    VBCA,
    VBCV,
    Undefined1,
    Undefined2,
    Undefined3,
    Undefined4,
    Undefined5,
    Undefined6,
    Undefined7,
    Undefined8,
    Undefined9,
    Undefined10,
    Undefined11,
    Undefined12,
    User,
}

/// The wire byte a sample rate contributes (an index below 32; the
/// raw-preserving variant contributes its stored byte).
pub open spec fn spec_sample_rate_byte(sr: SampleRate) -> u8 {
    match sr {
        SampleRate::Hz6000 => 0,
        SampleRate::Hz12000 => 1,
        SampleRate::Hz24000 => 2,
        SampleRate::Hz48000 => 3,
        SampleRate::Hz96000 => 4,
        SampleRate::Hz192000 => 5,
        SampleRate::Hz384000 => 6,
        SampleRate::Hz8000 => 7,
        SampleRate::Hz16000 => 8,
        SampleRate::Hz32000 => 9,
        SampleRate::Hz64000 => 10,
        SampleRate::Hz128000 => 11,
        SampleRate::Hz256000 => 12,
        SampleRate::Hz512000 => 13,
        SampleRate::Hz11025 => 14,
        SampleRate::Hz22050 => 15,
        SampleRate::Hz44100 => 16,
        SampleRate::Hz88200 => 17,
        SampleRate::Hz176400 => 18,
        SampleRate::Hz352800 => 19,
        SampleRate::Hz705600 => 20,
        SampleRate::Undefined(v) => v,
    }
}

/// The sample rate read from a wire byte: the low 5 bits select the table
/// entry; unassigned indexes keep the whole byte.
pub open spec fn spec_sample_rate_of_byte(b: u8) -> SampleRate {
    let idx = b & 0x1F;
    if idx == 0 {
        SampleRate::Hz6000
    } else if idx == 1 {
        SampleRate::Hz12000
    } else if idx == 2 {
        SampleRate::Hz24000
    } else if idx == 3 {
        SampleRate::Hz48000
    } else if idx == 4 {
        SampleRate::Hz96000
    } else if idx == 5 {
        SampleRate::Hz192000
    } else if idx == 6 {
        SampleRate::Hz384000
    } else if idx == 7 {
        SampleRate::Hz8000
    } else if idx == 8 {
        SampleRate::Hz16000
    } else if idx == 9 {
        SampleRate::Hz32000
    } else if idx == 10 {
        SampleRate::Hz64000
    } else if idx == 11 {
        SampleRate::Hz128000
    } else if idx == 12 {
        SampleRate::Hz256000
    } else if idx == 13 {
        SampleRate::Hz512000
    } else if idx == 14 {
        SampleRate::Hz11025
    } else if idx == 15 {
        SampleRate::Hz22050
    } else if idx == 16 {
        SampleRate::Hz44100
    } else if idx == 17 {
        SampleRate::Hz88200
    } else if idx == 18 {
        SampleRate::Hz176400
    } else if idx == 19 {
        SampleRate::Hz352800
    } else if idx == 20 {
        SampleRate::Hz705600
    } else {
        SampleRate::Undefined(b)
    }
}

/// The rate in Hz of each known sample-rate code.
pub open spec fn spec_rate_hz(sr: SampleRate) -> Option<u32> {
    match sr {
        SampleRate::Hz6000 => Some(6000u32),
        SampleRate::Hz12000 => Some(12000u32),
        SampleRate::Hz24000 => Some(24000u32),
        SampleRate::Hz48000 => Some(48000u32),
        SampleRate::Hz96000 => Some(96000u32),
        SampleRate::Hz192000 => Some(192000u32),
        SampleRate::Hz384000 => Some(384000u32),
        SampleRate::Hz8000 => Some(8000u32),
        SampleRate::Hz16000 => Some(16000u32),
        SampleRate::Hz32000 => Some(32000u32),
        SampleRate::Hz64000 => Some(64000u32),
        SampleRate::Hz128000 => Some(128000u32),
        SampleRate::Hz256000 => Some(256000u32),
        SampleRate::Hz512000 => Some(512000u32),
        SampleRate::Hz11025 => Some(11025u32),
        SampleRate::Hz22050 => Some(22050u32),
        SampleRate::Hz44100 => Some(44100u32),
        SampleRate::Hz88200 => Some(88200u32),
        SampleRate::Hz176400 => Some(176400u32),
        SampleRate::Hz352800 => Some(352800u32),
        SampleRate::Hz705600 => Some(705600u32),
        SampleRate::Undefined(_) => None,
    }
}

impl SampleRate {
    /// Known variants always re-encode to their table index; the
    /// raw-preserving variant only carries bytes it could actually have been
    /// decoded from: an unassigned index with clear sub-protocol bits.
    pub open spec fn wf(&self) -> bool {
        match *self {
            SampleRate::Undefined(v) => 21 <= v <= 31,
            _ => true,
        }
    }

    /// The byte this sample rate contributes to the packed wire byte.
    pub fn to_wire(self) -> (r: u8)
        ensures
            r == spec_sample_rate_byte(self),
    {
        match self {
            SampleRate::Hz6000 => 0,
            SampleRate::Hz12000 => 1,
            SampleRate::Hz24000 => 2,
            SampleRate::Hz48000 => 3,
            SampleRate::Hz96000 => 4,
            SampleRate::Hz192000 => 5,
            SampleRate::Hz384000 => 6,
            SampleRate::Hz8000 => 7,
            SampleRate::Hz16000 => 8,
            SampleRate::Hz32000 => 9,
            SampleRate::Hz64000 => 10,
            SampleRate::Hz128000 => 11,
            SampleRate::Hz256000 => 12,
            SampleRate::Hz512000 => 13,
            SampleRate::Hz11025 => 14,
            SampleRate::Hz22050 => 15,
            SampleRate::Hz44100 => 16,
            SampleRate::Hz88200 => 17,
            SampleRate::Hz176400 => 18,
            SampleRate::Hz352800 => 19,
            SampleRate::Hz705600 => 20,
            SampleRate::Undefined(v) => v,
        }
    }

    /// The sample rate packed into a wire byte (the low 5 bits).
    pub fn from_wire(b: u8) -> (r: Self)
        ensures
            r == spec_sample_rate_of_byte(b),
    {
        let idx = b & 0x1F;
        if idx == 0 {
            SampleRate::Hz6000
        } else if idx == 1 {
            SampleRate::Hz12000
        } else if idx == 2 {
            SampleRate::Hz24000
        } else if idx == 3 {
            SampleRate::Hz48000
        } else if idx == 4 {
            SampleRate::Hz96000
        } else if idx == 5 {
            SampleRate::Hz192000
        } else if idx == 6 {
            SampleRate::Hz384000
        } else if idx == 7 {
            SampleRate::Hz8000
        } else if idx == 8 {
            SampleRate::Hz16000
        } else if idx == 9 {
            SampleRate::Hz32000
        } else if idx == 10 {
            SampleRate::Hz64000
        } else if idx == 11 {
            SampleRate::Hz128000
        } else if idx == 12 {
            SampleRate::Hz256000
        } else if idx == 13 {
            SampleRate::Hz512000
        } else if idx == 14 {
            SampleRate::Hz11025
        } else if idx == 15 {
            SampleRate::Hz22050
        } else if idx == 16 {
            SampleRate::Hz44100
        } else if idx == 17 {
            SampleRate::Hz88200
        } else if idx == 18 {
            SampleRate::Hz176400
        } else if idx == 19 {
            SampleRate::Hz352800
        } else if idx == 20 {
            SampleRate::Hz705600
        } else {
            SampleRate::Undefined(b)
        }
    }

    /// The rate in Hz, for the known variants.
    pub fn get_rate_if_known(&self) -> (r: Option<u32>)
        ensures
            r == spec_rate_hz(*self),
    {
        match *self {
            SampleRate::Hz6000 => Some(6000),
            SampleRate::Hz12000 => Some(12000),
            SampleRate::Hz24000 => Some(24000),
            SampleRate::Hz48000 => Some(48000),
            SampleRate::Hz96000 => Some(96000),
            SampleRate::Hz192000 => Some(192000),
            SampleRate::Hz384000 => Some(384000),
            SampleRate::Hz8000 => Some(8000),
            SampleRate::Hz16000 => Some(16000),
            SampleRate::Hz32000 => Some(32000),
            SampleRate::Hz64000 => Some(64000),
            SampleRate::Hz128000 => Some(128000),
            SampleRate::Hz256000 => Some(256000),
            SampleRate::Hz512000 => Some(512000),
            SampleRate::Hz11025 => Some(11025),
            SampleRate::Hz22050 => Some(22050),
            SampleRate::Hz44100 => Some(44100),
            SampleRate::Hz88200 => Some(88200),
            SampleRate::Hz176400 => Some(176400),
            SampleRate::Hz352800 => Some(352800),
            SampleRate::Hz705600 => Some(705600),
            SampleRate::Undefined(_) => None,
        }
    }

    /// The sample-rate code of an exact rate in Hz; rates outside the table
    /// are rejected with the offending value.
    pub fn try_from_hz(value: u32) -> (r: Result<Self, VbanPacketError>)
        ensures
            r is Ok <==> spec_rate_hz(r->Ok_0) == Some(value) && r->Ok_0.wf(),
            r is Ok <==> exists|sr: SampleRate| spec_rate_hz(sr) == Some(value),
            r is Err ==> r->Err_0 == VbanPacketError::UnknownSampleRate(value),
    {
        let r = match value {
            6000 => Ok(SampleRate::Hz6000),
            12000 => Ok(SampleRate::Hz12000),
            24000 => Ok(SampleRate::Hz24000),
            48000 => Ok(SampleRate::Hz48000),
            96000 => Ok(SampleRate::Hz96000),
            192000 => Ok(SampleRate::Hz192000),
            384000 => Ok(SampleRate::Hz384000),
            8000 => Ok(SampleRate::Hz8000),
            16000 => Ok(SampleRate::Hz16000),
            32000 => Ok(SampleRate::Hz32000),
            64000 => Ok(SampleRate::Hz64000),
            128000 => Ok(SampleRate::Hz128000),
            256000 => Ok(SampleRate::Hz256000),
            512000 => Ok(SampleRate::Hz512000),
            11025 => Ok(SampleRate::Hz11025),
            22050 => Ok(SampleRate::Hz22050),
            44100 => Ok(SampleRate::Hz44100),
            88200 => Ok(SampleRate::Hz88200),
            176400 => Ok(SampleRate::Hz176400),
            352800 => Ok(SampleRate::Hz352800),
            705600 => Ok(SampleRate::Hz705600),
            _ => Err(VbanPacketError::UnknownSampleRate(value)),
        };
        proof {
            if r is Err {
                assert forall|sr: SampleRate| spec_rate_hz(sr) != Some(value) by {}
            }
        }
        r
    }
}

/// The wire byte of a sub-protocol: its 3-bit code shifted into the top bits
/// (a multiple of 0x20).
pub open spec fn spec_sub_protocol_byte(s: SubProtocol) -> u8 {
    match s {
        SubProtocol::Audio => 0x00,
        SubProtocol::Serial => 0x20,
        SubProtocol::Txt => 0x40,
        SubProtocol::Service => 0x60,
        SubProtocol::Undefined1 => 0x80,
        SubProtocol::Undefined2 => 0xA0,
        SubProtocol::Undefined3 => 0xC0,
        SubProtocol::User => 0xE0,
    }
}

/// The sub-protocol packed into a wire byte (the top 3 bits).
pub open spec fn spec_sub_protocol_of_byte(b: u8) -> SubProtocol {
    let m = b & 0xE0;
    if m == 0x00 {
        SubProtocol::Audio
    } else if m == 0x20 {
        SubProtocol::Serial
    } else if m == 0x40 {
        SubProtocol::Txt
    } else if m == 0x60 {
        SubProtocol::Service
    } else if m == 0x80 {
        SubProtocol::Undefined1
    } else if m == 0xA0 {
        SubProtocol::Undefined2
    } else if m == 0xC0 {
        SubProtocol::Undefined3
    } else {
        SubProtocol::User
    }
}

impl SubProtocol {
    /// The byte this sub-protocol contributes to the packed wire byte.
    pub fn to_wire(self) -> (r: u8)
        ensures
            r == spec_sub_protocol_byte(self),
    {
        match self {
            SubProtocol::Audio => 0x00,
            SubProtocol::Serial => 0x20,
            SubProtocol::Txt => 0x40,
            SubProtocol::Service => 0x60,
            SubProtocol::Undefined1 => 0x80,
            SubProtocol::Undefined2 => 0xA0,
            SubProtocol::Undefined3 => 0xC0,
            SubProtocol::User => 0xE0,
        }
    }

    /// The sub-protocol packed into a wire byte.
    pub fn from_wire(b: u8) -> (r: Self)
        ensures
            r == spec_sub_protocol_of_byte(b),
    {
        let m = b & 0xE0;
        if m == 0x00 {
            SubProtocol::Audio
        } else if m == 0x20 {
            SubProtocol::Serial
        } else if m == 0x40 {
            SubProtocol::Txt
        } else if m == 0x60 {
            SubProtocol::Service
        } else if m == 0x80 {
            SubProtocol::Undefined1
        } else if m == 0xA0 {
            SubProtocol::Undefined2
        } else if m == 0xC0 {
            SubProtocol::Undefined3
        } else {
            SubProtocol::User
        }
    }
}

/// The wire byte of a data type: its 3-bit code in the low bits.
pub open spec fn spec_data_type_byte(d: DataType) -> u8 {
    match d {
        DataType::U8 => 0,
        DataType::I16 => 1,
        DataType::I24 => 2,
        DataType::I32 => 3,
        DataType::F32 => 4,
        DataType::F64 => 5,
        DataType::I12 => 6,
        DataType::I10 => 7,
    }
}

/// The data type packed into a wire byte (the low 3 bits).
pub open spec fn spec_data_type_of_byte(b: u8) -> DataType {
    let i = b & 0x07;
    if i == 0 {
        DataType::U8
    } else if i == 1 {
        DataType::I16
    } else if i == 2 {
        DataType::I24
    } else if i == 3 {
        DataType::I32
    } else if i == 4 {
        DataType::F32
    } else if i == 5 {
        DataType::F64
    } else if i == 6 {
        DataType::I12
    } else {
        DataType::I10
    }
}

impl DataType {
    /// The byte this data type contributes to the packed wire byte.
    pub fn to_wire(self) -> (r: u8)
        ensures
            r == spec_data_type_byte(self),
    {
        match self {
            DataType::U8 => 0,
            DataType::I16 => 1,
            DataType::I24 => 2,
            DataType::I32 => 3,
            DataType::F32 => 4,
            DataType::F64 => 5,
            DataType::I12 => 6,
            DataType::I10 => 7,
        }
    }

    /// The data type packed into a wire byte.
    pub fn from_wire(b: u8) -> (r: Self)
        ensures
            r == spec_data_type_of_byte(b),
    {
        let i = b & 0x07;
        if i == 0 {
            DataType::U8
        } else if i == 1 {
            DataType::I16
        } else if i == 2 {
            DataType::I24
        } else if i == 3 {
            DataType::I32
        } else if i == 4 {
            DataType::F32
        } else if i == 5 {
            DataType::F64
        } else if i == 6 {
            DataType::I12
        } else {
            DataType::I10
        }
    }
}

/// The wire byte of a codec: its 4-bit code shifted into the top bits (a
/// multiple of 0x10).
pub open spec fn spec_codec_byte(c: Codec) -> u8 {
    match c {
        Codec::PCM => 0x00,
        Codec::VBCA => 0x10,
        Codec::VBCV => 0x20,
        Codec::Undefined1 => 0x30,
        Codec::Undefined2 => 0x40,
        Codec::Undefined3 => 0x50,
        Codec::Undefined4 => 0x60,
        Codec::Undefined5 => 0x70,
        Codec::Undefined6 => 0x80,
        Codec::Undefined7 => 0x90,
        Codec::Undefined8 => 0xA0,
        Codec::Undefined9 => 0xB0,
        Codec::Undefined10 => 0xC0,
        Codec::Undefined11 => 0xD0,
        Codec::Undefined12 => 0xE0,
        Codec::User => 0xF0,
    }
}

/// The codec packed into a wire byte (the top 4 bits).
pub open spec fn spec_codec_of_byte(b: u8) -> Codec {
    let m = b & 0xF0;
    if m == 0x00 {
        Codec::PCM
    } else if m == 0x10 {
        Codec::VBCA
    } else if m == 0x20 {
        Codec::VBCV
    } else if m == 0x30 {
        Codec::Undefined1
    } else if m == 0x40 {
        Codec::Undefined2
    } else if m == 0x50 {
        Codec::Undefined3
    } else if m == 0x60 {
        Codec::Undefined4
    } else if m == 0x70 {
        Codec::Undefined5
    } else if m == 0x80 {
        Codec::Undefined6
    } else if m == 0x90 {
        Codec::Undefined7
    } else if m == 0xA0 {
        Codec::Undefined8
    } else if m == 0xB0 {
        Codec::Undefined9
    } else if m == 0xC0 {
        Codec::Undefined10
    } else if m == 0xD0 {
        Codec::Undefined11
    } else if m == 0xE0 {
        Codec::Undefined12
    } else {
        Codec::User
    }
}

impl Codec {
    /// The byte this codec contributes to the packed wire byte.
    pub fn to_wire(self) -> (r: u8)
        ensures
            r == spec_codec_byte(self),
    {
        match self {
            Codec::PCM => 0x00,
            Codec::VBCA => 0x10,
            Codec::VBCV => 0x20,
            Codec::Undefined1 => 0x30,
            Codec::Undefined2 => 0x40,
            Codec::Undefined3 => 0x50,
            Codec::Undefined4 => 0x60,
            Codec::Undefined5 => 0x70,
            Codec::Undefined6 => 0x80,
            Codec::Undefined7 => 0x90,
            Codec::Undefined8 => 0xA0,
            Codec::Undefined9 => 0xB0,
            Codec::Undefined10 => 0xC0,
            Codec::Undefined11 => 0xD0,
            Codec::Undefined12 => 0xE0,
            Codec::User => 0xF0,
        }
    }

    /// The codec packed into a wire byte.
    pub fn from_wire(b: u8) -> (r: Self)
        ensures
            r == spec_codec_of_byte(b),
    {
        let m = b & 0xF0;
        if m == 0x00 {
            Codec::PCM
        } else if m == 0x10 {
            Codec::VBCA
        } else if m == 0x20 {
            Codec::VBCV
        } else if m == 0x30 {
            Codec::Undefined1
        } else if m == 0x40 {
            Codec::Undefined2
        } else if m == 0x50 {
            Codec::Undefined3
        } else if m == 0x60 {
            Codec::Undefined4
        } else if m == 0x70 {
            Codec::Undefined5
        } else if m == 0x80 {
            Codec::Undefined6
        } else if m == 0x90 {
            Codec::Undefined7
        } else if m == 0xA0 {
            Codec::Undefined8
        } else if m == 0xB0 {
            Codec::Undefined9
        } else if m == 0xC0 {
            Codec::Undefined10
        } else if m == 0xD0 {
            Codec::Undefined11
        } else if m == 0xE0 {
            Codec::Undefined12
        } else {
            Codec::User
        }
    }
}

/// A VBAN packet header. This codec is biased towards [`SubProtocol::Audio`]:
/// decoding any other sub-protocol is a contract violation, not a soft
/// failure.
#[derive(Debug)]
pub struct VbanHeader {
    pub sample_rate: SampleRate,
    pub sub_protocol: SubProtocol,
    /// Wire value: actual sample frames per packet minus one.
    pub samples_per_frame: u8,
    /// Wire value: actual channel count minus one. This service only ever
    /// uses 1, meaning 2 physical channels.
    pub channels: u8,
    pub data_type: DataType,
    pub codec: Codec,
    pub stream_name: AsciiStackString<16>,
    /// Counts transmitted packets of the stream; wraps at its maximum.
    pub frame_counter: u32,
}

/// A VBAN packet: header plus all remaining bytes of the datagram (the
/// payload carries no length field; its length is the datagram's).
#[derive(Debug)]
pub struct VbanPacket {
    pub header: VbanHeader,
    pub data: Vec<u8>,
}

/// `c + 1` wrapping at the maximum back to 0.
pub open spec fn spec_wrap_inc(c: u32) -> u32 {
    if c == u32::MAX {
        0
    } else {
        (c + 1) as u32
    }
}

/// The header of the next transmitted frame: the same header with the frame
/// counter advanced by one (wrapping).
pub open spec fn spec_next_header(h: VbanHeader) -> VbanHeader {
    VbanHeader { frame_counter: spec_wrap_inc(h.frame_counter), ..h }
}

/// The 4-byte little-endian wire form of the frame counter.
pub open spec fn spec_le_u32(c: u32) -> Seq<u8> {
    seq![
        (c % 256) as u8,
        ((c / 256) % 256) as u8,
        ((c / 65536) % 256) as u8,
        ((c / 16777216) % 256) as u8,
    ]
}

/// The frame counter read back from its 4-byte little-endian wire form.
pub open spec fn spec_le_u32_value(b: Seq<u8>) -> u32 {
    (b[0] + b[1] * 256 + b[2] * 65536 + b[3] * 16777216) as u32
}

/// The exact wire form of a header: magic, the two packed bytes, the two
/// count bytes, the NUL-padded name, the little-endian counter.
pub open spec fn spec_encode_header(h: VbanHeader) -> Seq<u8> {
    seq![
        MAGIC_V,
        MAGIC_B,
        MAGIC_A,
        MAGIC_N,
        spec_sample_rate_byte(h.sample_rate) | spec_sub_protocol_byte(h.sub_protocol),
        h.samples_per_frame,
        h.channels,
        spec_data_type_byte(h.data_type) | spec_codec_byte(h.codec),
    ] + spec_pad_nul(h.stream_name@, 16) + spec_le_u32(h.frame_counter)
}

/// The exact wire form of a packet: the header followed by the raw payload.
pub open spec fn spec_encode_packet(h: VbanHeader, data: Seq<u8>) -> Seq<u8> {
    spec_encode_header(h) + data
}

/// The datagram starts with the ASCII magic "VBAN".
pub open spec fn spec_has_magic(d: Seq<u8>) -> bool {
    d.len() >= 4 && d[0] == MAGIC_V && d[1] == MAGIC_B && d[2] == MAGIC_A && d[3] == MAGIC_N
}

/// The packed byte carries the Audio sub-protocol (its top 3 bits are 0) —
/// the decoder's hard precondition.
pub open spec fn spec_audio_sub_protocol(d: Seq<u8>) -> bool {
    d.len() >= 5 ==> d[4] & 0xE0 == 0
}

/// Every byte of the 16-byte stream-name field is ASCII.
pub open spec fn spec_name_field_ascii(d: Seq<u8>) -> bool {
    forall|i: int| 8 <= i < 24 && i < d.len() ==> #[trigger] d[i] < 128
}

/// The datagrams the decoder accepts: long enough for a full header, the
/// magic in place, the stream-name field ASCII.
pub open spec fn spec_decodes(d: Seq<u8>) -> bool {
    d.len() >= 28 && spec_has_magic(d) && spec_name_field_ascii(d)
}

impl VbanHeader {
    /// Headers of the fixed audio wire profile: the Audio sub-protocol, a
    /// sample rate that re-encodes to the byte it was decoded from, and a
    /// valid stream name.
    pub open spec fn wf(&self) -> bool {
        &&& self.sub_protocol == SubProtocol::Audio
        &&& self.sample_rate.wf()
        &&& self.stream_name.wf()
    }

    /// Advances the frame counter by exactly one, wrapping to 0 after its
    /// maximum; every other field is preserved.
    pub fn advance_frame(&mut self)
        ensures
            *final(self) == spec_next_header(*old(self)),
    {
        if self.frame_counter == u32::MAX {
            self.frame_counter = 0;
        } else {
            self.frame_counter = self.frame_counter + 1;
        }
    }

    /// The header of the next transmitted frame: this header with the frame
    /// counter advanced by one (wrapping); every other field is preserved.
    pub fn next(self) -> (r: Self)
        ensures
            r == spec_next_header(self),
    {
        let mut h = self;
        h.advance_frame();
        h
    }
}

proof fn lemma_pack_rate_byte(lo: u8, hi: u8)
    by (bit_vector)
    requires
        lo < 32,
        hi % 0x20 == 0,
    ensures
        (lo | hi) & 0x1F == lo,
        (lo | hi) & 0xE0 == hi,
        hi == 0 ==> (lo | hi) == lo,
{
}

proof fn lemma_pack_format_byte(lo: u8, hi: u8)
    by (bit_vector)
    requires
        lo < 8,
        hi % 0x10 == 0,
    ensures
        (lo | hi) & 0x07 == lo,
        (lo | hi) & 0xF0 == hi,
{
}

proof fn lemma_sample_rate_byte_bound(sr: SampleRate)
    requires
        sr.wf(),
    ensures
        spec_sample_rate_byte(sr) < 32,
{
}

proof fn lemma_data_type_byte_bound(d: DataType)
    ensures
        spec_data_type_byte(d) < 8,
{
}

proof fn lemma_codec_byte_multiple(c: Codec)
    ensures
        spec_codec_byte(c) % 0x10 == 0,
{
}

/// Unassigned sample-rate indexes decoded from an Audio packed byte satisfy
/// the re-encoding invariant.
proof fn lemma_sample_rate_of_audio_byte_wf(b: u8)
    requires
        b & 0xE0 == 0,
    ensures
        spec_sample_rate_of_byte(b).wf(),
{
    assert(b & 0x1F >= 21 && b & 0xE0 == 0 ==> 21 <= b <= 31) by (bit_vector);
}

/// Packing a well-formed sample rate with the Audio sub-protocol and reading
/// the packed byte back gives both exactly.
pub proof fn lemma_rate_byte_round_trip(sr: SampleRate)
    requires
        sr.wf(),
    ensures
        spec_sample_rate_byte(sr) | spec_sub_protocol_byte(SubProtocol::Audio)
            == spec_sample_rate_byte(sr),
        spec_sample_rate_of_byte(spec_sample_rate_byte(sr)) == sr,
        spec_sub_protocol_of_byte(spec_sample_rate_byte(sr)) == SubProtocol::Audio,
        spec_sample_rate_byte(sr) & 0xE0 == 0,
{
    lemma_sample_rate_byte_bound(sr);
    lemma_pack_rate_byte(spec_sample_rate_byte(sr), 0);
}

/// Packing any data type with any codec and reading the packed byte back
/// gives both exactly (bit 3 of the packed byte is unused and encodes as 0).
pub proof fn lemma_format_byte_round_trip(dt: DataType, c: Codec)
    ensures
        spec_data_type_of_byte(spec_data_type_byte(dt) | spec_codec_byte(c)) == dt,
        spec_codec_of_byte(spec_data_type_byte(dt) | spec_codec_byte(c)) == c,
{
    lemma_data_type_byte_bound(dt);
    lemma_codec_byte_multiple(c);
    lemma_pack_format_byte(spec_data_type_byte(dt), spec_codec_byte(c));
}

/// Every 5-bit sample-rate pattern survives decode-then-encode exactly: the
/// 21 known codes map to their table entry and back, and the 11 unassigned
/// patterns decode to the raw-preserving variant whose re-encoding is the
/// original byte.
pub proof fn lemma_sample_rate_code_round_trip(b: u8)
    requires
        b < 32,
    ensures
        spec_sample_rate_byte(spec_sample_rate_of_byte(b)) == b,
        b <= 20 ==> !(spec_sample_rate_of_byte(b) is Undefined),
        21 <= b ==> spec_sample_rate_of_byte(b) == SampleRate::Undefined(b),
        spec_sample_rate_of_byte(b).wf(),
{
    assert(b & 0x1F == b) by (bit_vector)
        requires
            b < 32,
    ;
}

/// Decoding recomputes the data type and codec from the packed byte rather
/// than trusting it, so re-encoding them clears the unused bit 3 and keeps
/// every other bit: even a capture with a nonstandard bit 3 re-encodes
/// stably from then on.
pub proof fn lemma_format_byte_normalizes(b: u8)
    ensures
        spec_data_type_byte(spec_data_type_of_byte(b)) | spec_codec_byte(spec_codec_of_byte(b))
            == b & 0xF7,
        (b & 0xF7) & 0xF7 == b & 0xF7,
{
    assert(b & 0x07 < 8 && (b & 0xF0) % 0x10 == 0) by (bit_vector);
    assert((b & 0x07) | (b & 0xF0) == b & 0xF7) by (bit_vector);
    assert((b & 0xF7) & 0xF7 == b & 0xF7) by (bit_vector);
}

/// The little-endian wire form of the frame counter reads back to the same
/// counter.
proof fn lemma_le_u32_round_trip(c: u32)
    by (bit_vector)
    ensures
        (c % 256) + ((c / 256) % 256) * 256 + ((c / 65536) % 256) * 65536 + ((c / 16777216)
            % 256) * 16777216 == c,
{
}

/// Decoding the wire form of any well-formed header and payload reproduces
/// every field and the payload exactly.
pub proof fn lemma_packet_round_trip(h: VbanHeader, payload: Seq<u8>)
    requires
        h.wf(),
    ensures
        ({
            let d = spec_encode_packet(h, payload);
            &&& d.len() == 28 + payload.len()
            &&& spec_has_magic(d)
            &&& spec_audio_sub_protocol(d)
            &&& spec_decodes(d)
            &&& spec_sample_rate_of_byte(d[4]) == h.sample_rate
            &&& spec_sub_protocol_of_byte(d[4]) == h.sub_protocol
            &&& d[5] == h.samples_per_frame
            &&& d[6] == h.channels
            &&& spec_data_type_of_byte(d[7]) == h.data_type
            &&& spec_codec_of_byte(d[7]) == h.codec
            &&& spec_trunc_nul(d.subrange(8, 24)) == h.stream_name@
            &&& spec_le_u32_value(d.subrange(24, 28)) == h.frame_counter
            &&& d.skip(28) == payload
        }),
{
    let d = spec_encode_packet(h, payload);
    let name = h.stream_name@;
    lemma_rate_byte_round_trip(h.sample_rate);
    lemma_format_byte_round_trip(h.data_type, h.codec);
    assert(d[4] == spec_sample_rate_byte(h.sample_rate));
    assert(d.subrange(8, 24) =~= spec_pad_nul(name, 16));
    lemma_trunc_of_padded(name, 16);
    let c = h.frame_counter;
    assert(d.subrange(24, 28) =~= spec_le_u32(c));
    lemma_le_u32_round_trip(c);
    assert(spec_le_u32_value(spec_le_u32(c)) == c);
    assert(d.skip(28) =~= payload);
    assert forall|i: int| 8 <= i < 24 && i < d.len() implies #[trigger] d[i] < 128 by {
        assert(d[i] == spec_pad_nul(name, 16)[i - 8]);
    }
}

/// Encodes a header and payload into one datagram: the 28-byte header
/// followed by the payload bytes unmodified.
pub fn encode_packet(header: &VbanHeader, data: &[u8]) -> (r: Vec<u8>)
    requires
        header.stream_name.wf(),
    ensures
        r@ == spec_encode_packet(*header, data@),
        r@.len() == 28 + data@.len(),
{
    let h = header;
    let mut out: Vec<u8> = Vec::new();
    out.push(MAGIC_V);
    out.push(MAGIC_B);
    out.push(MAGIC_A);
    out.push(MAGIC_N);
    out.push(h.sample_rate.to_wire() | h.sub_protocol.to_wire());
    out.push(h.samples_per_frame);
    out.push(h.channels);
    out.push(h.data_type.to_wire() | h.codec.to_wire());
    let name = h.stream_name.to_fixed_bytes();
    let mut i: usize = 0;
    while i < name.len()
        invariant
            0 <= i <= name@.len() == 16,
            out@.len() == 8 + i,
            out@ == spec_encode_header(*header).take(8 + i),
            name@ == spec_pad_nul(header.stream_name@, 16),
        decreases name@.len() - i,
    {
        out.push(name[i]);
        proof {
            assert(out@ =~= spec_encode_header(*header).take(8 + i + 1));
        }
        i = i + 1;
    }
    let c = h.frame_counter;
    out.push((c % 256) as u8);
    out.push(((c / 256) % 256) as u8);
    out.push(((c / 65536) % 256) as u8);
    out.push(((c / 16777216) % 256) as u8);
    proof {
        assert(out@ =~= spec_encode_header(*header));
    }
    let mut j: usize = 0;
    while j < data.len()
        invariant
            0 <= j <= data@.len(),
            out@ == spec_encode_header(*header) + data@.take(j as int),
        decreases data@.len() - j,
    {
        out.push(data[j]);
        proof {
            assert(out@ =~= spec_encode_header(*header) + data@.take(j + 1));
        }
        j = j + 1;
    }
    proof {
        assert(out@ =~= spec_encode_packet(*header, data@));
    }
    out
}

/// Decodes one datagram. Returns the packet when the datagram is long enough,
/// carries the magic, and has an ASCII stream-name field; rejects it as
/// malformed or non-ASCII otherwise, exactly as classified by
/// [`spec_decodes`]. The caller must already have established that the
/// packed byte carries the Audio sub-protocol — any other sub-protocol is a
/// contract violation of this fixed-profile codec, not a soft failure.
pub fn decode_packet(datagram: &[u8]) -> (r: Result<VbanPacket, VbanDecodeError>)
    requires
        spec_has_magic(datagram@) ==> spec_audio_sub_protocol(datagram@),
    ensures
        r is Ok <==> spec_decodes(datagram@),
        r matches Ok(p) ==> {
            &&& p.header.sample_rate == spec_sample_rate_of_byte(datagram@[4])
            &&& p.header.sub_protocol == SubProtocol::Audio
            &&& p.header.samples_per_frame == datagram@[5]
            &&& p.header.channels == datagram@[6]
            &&& p.header.data_type == spec_data_type_of_byte(datagram@[7])
            &&& p.header.codec == spec_codec_of_byte(datagram@[7])
            &&& p.header.stream_name@ == spec_trunc_nul(datagram@.subrange(8, 24))
            &&& p.header.frame_counter == spec_le_u32_value(datagram@.subrange(24, 28))
            &&& p.data@ == datagram@.skip(28)
            &&& p.header.wf()
        },
        r matches Err(e) && e == VbanDecodeError::MalformedPacket <==> datagram@.len() < 28
            || !spec_has_magic(datagram@),
        r matches Err(e) && e == VbanDecodeError::StreamNameNotAscii <==> datagram@.len() >= 28
            && spec_has_magic(datagram@) && !spec_name_field_ascii(datagram@),
{
    let n = datagram.len();
    if n < 28 {
        return Err(VbanDecodeError::MalformedPacket);
    }
    if datagram[0] != MAGIC_V || datagram[1] != MAGIC_B || datagram[2] != MAGIC_A || datagram[3] != MAGIC_N {
        return Err(VbanDecodeError::MalformedPacket);
    }
    let sample_rate = SampleRate::from_wire(datagram[4]);
    let sub_protocol = SubProtocol::from_wire(datagram[4]);
    let samples_per_frame = datagram[5];
    let channels = datagram[6];
    let data_type = DataType::from_wire(datagram[7]);
    let codec = Codec::from_wire(datagram[7]);
    let mut name_field: Vec<u8> = Vec::new();
    let mut i: usize = 8;
    while i < 24
        invariant
            8 <= i <= 24,
            datagram@.len() >= 28,
            name_field@ == datagram@.subrange(8, i as int),
        decreases 24 - i,
    {
        name_field.push(datagram[i]);
        proof {
            assert(name_field@ =~= datagram@.subrange(8, i + 1));
        }
        i = i + 1;
    }
    let stream_name = match AsciiStackString::<16>::try_from_fixed(name_field.as_slice()) {
        Ok(t) => t,
        Err(_) => {
            proof {
                assert(!spec_name_field_ascii(datagram@));
            }
            return Err(VbanDecodeError::StreamNameNotAscii);
        },
    };
    proof {
        assert forall|i: int| 8 <= i < 24 && i < datagram@.len() implies #[trigger] datagram@[i]
            < 128 by {
            assert(datagram@.subrange(8, 24)[i - 8] < 128);
        }
        lemma_sample_rate_of_audio_byte_wf(datagram@[4]);
    }
    let frame_counter = datagram[24] as u32 + (datagram[25] as u32) * 256 + (datagram[26] as u32)
        * 65536 + (datagram[27] as u32) * 16777216;
    let mut data: Vec<u8> = Vec::new();
    let mut j: usize = 28;
    while j < n
        invariant
            28 <= j <= n == datagram@.len(),
            data@ == datagram@.subrange(28, j as int),
        decreases n - j,
    {
        data.push(datagram[j]);
        proof {
            assert(data@ =~= datagram@.subrange(28, j + 1));
        }
        j = j + 1;
    }
    proof {
        assert(data@ =~= datagram@.skip(28));
        assert(datagram@.subrange(24, 28)[0] == datagram@[24]);
        assert(datagram@.subrange(24, 28)[1] == datagram@[25]);
        assert(datagram@.subrange(24, 28)[2] == datagram@[26]);
        assert(datagram@.subrange(24, 28)[3] == datagram@[27]);
    }
    Ok(
        VbanPacket {
            header: VbanHeader {
                sample_rate,
                sub_protocol,
                samples_per_frame,
                channels,
                data_type,
                codec,
                stream_name,
                frame_counter,
            },
            data,
        },
    )
}

} // verus!
