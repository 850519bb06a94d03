//! The transmitter's packetization and frame counting.
//!
//! The send loop itself — awaiting buffers on the audio channel and writing
//! datagrams to the shared UDP socket — performs I/O and lives with the
//! caller. What stands here is the header template mutated across a run and
//! the step that turns one audio buffer into one datagram:
//! [`Transmitter::next_datagram`] encodes the buffer under the current
//! header and advances the frame counter by exactly one (wrapping).

use vstd::prelude::*;

use crate::asciistackstr::AsciiStackString;
use crate::packet::{
    encode_packet, spec_encode_packet, spec_next_header, Codec, DataType, SampleRate, SubProtocol,
    VbanHeader,
};

verus! {

/// Errors that end a transmit loop (and are classified by the supervisor).
#[derive(Debug, Clone, Copy, PartialEq, Eq, Structural)]
pub enum TransmitterError {
    /// Writing the socket failed.
    SocketWrite,
}

/// Bytes of one sample frame under the fixed profile: 2 channels of 3-byte
/// (24-bit) samples.
pub const SAMPLE_SIZE: u32 = 2 * 3;

/// The payload budget of one datagram, chosen to stay within a common link
/// MTU after the VBAN, UDP and IP headers.
pub const MAX_DATA_PACKET_SIZE: u32 = 1436;

/// Whole sample frames that fit the payload budget: the quotient of the
/// budget by the frame size, which the wire format caps at 256 (its
/// samples-per-frame byte stores the count minus one). [`lemma_packet_sizing`]
/// ties this value to that arithmetic.
pub const SAMPLES_PER_PACKET: u32 = 239;

/// The payload size every inbound audio buffer should have for optimal
/// packetization: whole sample frames only.
pub const USABLE_DATA_PACKET_SIZE: u32 = 1434;

/// Sample frames per packet under a payload budget of `budget` bytes: the
/// quotient, capped at the 256 frames the wire byte can express.
pub open spec fn spec_samples_per_packet_of(budget: u32) -> int {
    let q = budget as int / SAMPLE_SIZE as int;
    if q <= 256 {
        q
    } else {
        256
    }
}

/// Sample frames per packet under the configured budget: at most 256,
/// whatever the budget.
pub fn samples_per_packet() -> (r: u32)
    ensures
        r == spec_samples_per_packet_of(MAX_DATA_PACKET_SIZE),
        r == SAMPLES_PER_PACKET,
        r <= 256,
{
    let quotient = MAX_DATA_PACKET_SIZE / SAMPLE_SIZE;
    if quotient <= 256 {
        quotient
    } else {
        256
    }
}

/// The packetization arithmetic of the fixed profile: 239 six-byte sample
/// frames fill 1434 of the 1436-byte budget, and no budget could ever ask
/// the wire format for more than 256 frames per packet.
pub proof fn lemma_packet_sizing()
    ensures
        SAMPLE_SIZE == 6,
        SAMPLES_PER_PACKET == 239,
        USABLE_DATA_PACKET_SIZE == 1434,
        USABLE_DATA_PACKET_SIZE == SAMPLES_PER_PACKET * SAMPLE_SIZE,
        SAMPLES_PER_PACKET == spec_samples_per_packet_of(MAX_DATA_PACKET_SIZE),
        forall|budget: u32| #[trigger] spec_samples_per_packet_of(budget) <= 256,
{
    assert(1436int / 6int == 239int) by (nonlinear_arith);
}

/// The header every transmit run starts from: the fixed audio profile
/// (48 kHz stereo 24-bit PCM), full packets, the stream's name, and a frame
/// counter at zero.
pub open spec fn spec_initial_header(h: VbanHeader, name: Seq<u8>) -> bool {
    &&& h.sample_rate == SampleRate::Hz48000
    &&& h.sub_protocol == SubProtocol::Audio
    &&& h.samples_per_frame == SAMPLES_PER_PACKET - 1
    &&& h.channels == 1
    &&& h.data_type == DataType::I24
    &&& h.codec == Codec::PCM
    &&& h.stream_name@ == name
    &&& h.frame_counter == 0
}

/// The transmitting half of the stream pair: owns the running header
/// template, mutated only by itself. The socket, the destination address and
/// the inbound audio channel stay with the caller, which turns each received
/// buffer into a datagram through [`Transmitter::next_datagram`] and must
/// send it whole (a short UDP write is a fatal error, not retried).
pub struct Transmitter {
    /// The header of the next packet to send.
    pub header: VbanHeader,
}

impl Transmitter {
    /// A fresh transmitter for one run: the fixed-profile header template
    /// over `stream_name`, starting at frame 0.
    pub fn new(stream_name: AsciiStackString<16>) -> (t: Self)
        requires
            stream_name.wf(),
        ensures
            spec_initial_header(t.header, stream_name@),
            t.header.wf(),
    {
        let samples = samples_per_packet();
        Transmitter {
            header: VbanHeader {
                sample_rate: SampleRate::Hz48000,
                sub_protocol: SubProtocol::Audio,
                samples_per_frame: (samples - 1) as u8,
                channels: 1,
                data_type: DataType::I24,
                codec: Codec::PCM,
                stream_name,
                frame_counter: 0,
            },
        }
    }

    /// Packetizes one audio buffer: returns the datagram encoding the
    /// current header with the buffer as payload, and advances the frame
    /// counter by exactly one (wrapping to 0 after its maximum). All other
    /// header fields are preserved for the life of the run.
    pub fn next_datagram(&mut self, audio: &[u8]) -> (datagram: Vec<u8>)
        requires
            old(self).header.stream_name.wf(),
        ensures
            datagram@ == spec_encode_packet(old(self).header, audio@),
            datagram@.len() == 28 + audio@.len(),
            final(self).header == spec_next_header(old(self).header),
    {
        let datagram = encode_packet(&self.header, audio);
        self.header.advance_frame();
        datagram
    }
}

} // verus!
