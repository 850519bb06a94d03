//! The receiver's datagram filtering and decoding pipeline.
//!
//! The receive loop itself — reading the shared UDP socket and forwarding
//! payloads on the audio channel — performs I/O and lives with the caller.
//! What stands here is the decision taken for each received datagram:
//! [`Receiver::step`] classifies it, in order, by source address match,
//! magic/decodability, stream name, and the fixed audio profile, and hands
//! back either the payload to forward or the way to discard the datagram.

use vstd::prelude::*;

use crate::asciistackstr::{spec_trunc_nul, AsciiStackString};
use crate::packet::{
    decode_packet, spec_codec_of_byte, spec_data_type_of_byte, spec_decodes, spec_has_magic,
    spec_sample_rate_of_byte, Codec, DataType, SampleRate, MAGIC_A, MAGIC_B, MAGIC_N, MAGIC_V,
};

verus! {

/// Errors that end a receive loop (and are classified by the supervisor).
#[derive(Debug, Clone, Copy, PartialEq, Eq, Structural)]
pub enum ReceiverError {
    /// Reading the socket failed.
    SocketRead,
    /// The audio channel's consuming end is gone.
    AudioChannelBroken,
}

/// What the receiver does with one received datagram.
#[derive(Debug)]
pub enum ReceiverAction {
    /// Routine filtering — wrong source address or a foreign stream name:
    /// drop without a log line.
    DiscardSilently,
    /// A malformed datagram — bad magic, too short, or otherwise
    /// undecodable: drop and log a warning.
    DiscardWithWarning,
    /// A matching packet: forward these payload bytes on the audio channel.
    ForwardPayload(Vec<u8>),
    /// A structurally valid, matching packet whose audio profile is not the
    /// fixed one this service speaks — a fatal contract violation, not a
    /// condition to recover from.
    FatalProfileMismatch,
}

/// The datagram fails the cheap pre-filter: shorter than the magic, or the
/// magic absent.
pub open spec fn spec_obviously_invalid(d: Seq<u8>) -> bool {
    d.len() < 4 || !spec_has_magic(d)
}

/// The datagram passes the pre-filter but the full decode fails: a non-Audio
/// sub-protocol, a truncated header, or a non-ASCII stream-name field.
pub open spec fn spec_undecodable(d: Seq<u8>) -> bool {
    spec_has_magic(d) && ((d.len() >= 5 && d[4] & 0xE0 != 0) || !spec_decodes(d))
}

/// The datagram decodes as a fixed-profile audio packet: full header, magic,
/// Audio sub-protocol, ASCII name field.
pub open spec fn spec_wire_ok(d: Seq<u8>) -> bool {
    spec_decodes(d) && d[4] & 0xE0 == 0
}

/// The decoded stream name equals the expected one.
pub open spec fn spec_name_matches(expected: Seq<u8>, d: Seq<u8>) -> bool {
    spec_trunc_nul(d.subrange(8, 24)) == expected
}

/// The decoded header carries exactly the fixed audio profile: 24-bit signed
/// PCM, 48 kHz, channel wire value 1 (two physical channels).
pub open spec fn spec_profile_ok(d: Seq<u8>) -> bool {
    &&& spec_data_type_of_byte(d[7]) == DataType::I24
    &&& spec_codec_of_byte(d[7]) == Codec::PCM
    &&& spec_sample_rate_of_byte(d[4]) == SampleRate::Hz48000
    &&& d[6] == 1
}

/// The receiving half of the stream pair: filters inbound datagrams down to
/// the payloads of well-formed audio packets of this stream. The socket, the
/// expected source address and the outbound audio channel stay with the
/// caller, which feeds each datagram (and whether its source address
/// matched) through [`Receiver::step`].
pub struct Receiver {
    /// The stream name this receiver accepts.
    pub stream_name: AsciiStackString<16>,
}

impl Receiver {
    /// Classifies one received datagram. `source_matches` says whether the
    /// datagram's source address equals the configured expected source. In
    /// order: a foreign source is dropped silently; a datagram without the
    /// magic, or one that does not decode, is dropped with a warning; a
    /// packet of another stream name is dropped silently; a matching packet
    /// outside the fixed audio profile is a fatal contract violation; and a
    /// matching fixed-profile packet has its payload forwarded.
    pub fn step(&self, source_matches: bool, datagram: &[u8]) -> (a: ReceiverAction)
        ensures
            a is DiscardSilently <==> !source_matches || (spec_wire_ok(datagram@)
                && !spec_name_matches(self.stream_name@, datagram@)),
            a is DiscardWithWarning <==> source_matches && (spec_obviously_invalid(datagram@)
                || spec_undecodable(datagram@)),
            a is FatalProfileMismatch <==> source_matches && spec_wire_ok(datagram@)
                && spec_name_matches(self.stream_name@, datagram@) && !spec_profile_ok(datagram@),
            a is ForwardPayload <==> source_matches && spec_wire_ok(datagram@)
                && spec_name_matches(self.stream_name@, datagram@) && spec_profile_ok(datagram@),
            a matches ReceiverAction::ForwardPayload(p) ==> p@ == datagram@.skip(28),
    {
        if !source_matches {
            return ReceiverAction::DiscardSilently;
        }
        if datagram.len() < 4 {
            return ReceiverAction::DiscardWithWarning;
        }
        if datagram[0] != MAGIC_V || datagram[1] != MAGIC_B || datagram[2] != MAGIC_A
            || datagram[3] != MAGIC_N {
            return ReceiverAction::DiscardWithWarning;
        }
        if datagram.len() < 28 {
            return ReceiverAction::DiscardWithWarning;
        }
        if datagram[4] & 0xE0 != 0 {
            return ReceiverAction::DiscardWithWarning;
        }
        let packet = match decode_packet(datagram) {
            Ok(p) => p,
            Err(_) => {
                return ReceiverAction::DiscardWithWarning;
            },
        };
        if !(packet.header.stream_name == self.stream_name) {
            return ReceiverAction::DiscardSilently;
        }
        if packet.header.data_type == DataType::I24 && packet.header.codec == Codec::PCM
            && packet.header.sample_rate == SampleRate::Hz48000 && packet.header.channels == 1 {
            ReceiverAction::ForwardPayload(packet.data)
        } else {
            ReceiverAction::FatalProfileMismatch
        }
    }
}

} // verus!
