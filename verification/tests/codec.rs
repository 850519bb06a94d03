use audio_bicycle::asciistackstr::AsciiStackString;
use audio_bicycle::packet::{
    decode_packet, encode_packet, Codec, DataType, SampleRate, SubProtocol, VbanDecodeError,
    VbanHeader, VbanPacketError,
};
use audio_bicycle::transmitter::SAMPLES_PER_PACKET;

fn sample_header(name: &str, counter: u32) -> VbanHeader {
    VbanHeader {
        sample_rate: SampleRate::Hz48000,
        sub_protocol: SubProtocol::Audio,
        samples_per_frame: (SAMPLES_PER_PACKET - 1) as u8,
        channels: 1,
        data_type: DataType::I24,
        codec: Codec::PCM,
        stream_name: AsciiStackString::try_from_str(name).unwrap(),
        frame_counter: counter,
    }
}

#[test]
fn encode_produces_exact_bytes() {
    let header = sample_header("ab", 0x0403_0201);
    let datagram = encode_packet(&header, &[9, 8, 7]);
    let mut expected = vec![
        0x56, 0x42, 0x41, 0x4E, // "VBAN"
        3,    // 48 kHz index, Audio sub-protocol
        238,  // 239 samples per frame, minus one
        1,    // 2 channels, minus one
        2,    // I24, PCM
    ];
    expected.extend_from_slice(b"ab");
    expected.extend_from_slice(&[0; 14]);
    expected.extend_from_slice(&[0x01, 0x02, 0x03, 0x04]); // little-endian counter
    expected.extend_from_slice(&[9, 8, 7]);
    assert_eq!(datagram, expected);
}

#[test]
fn header_round_trip() {
    let header = sample_header("roundtrip", 0xFFFF_FFFE);
    let payload: Vec<u8> = (0u8..=255).collect();
    let datagram = encode_packet(&header, &payload);
    let packet = decode_packet(&datagram).unwrap();
    assert_eq!(packet.header.sample_rate, SampleRate::Hz48000);
    assert_eq!(packet.header.sub_protocol, SubProtocol::Audio);
    assert_eq!(packet.header.samples_per_frame, 238);
    assert_eq!(packet.header.channels, 1);
    assert_eq!(packet.header.data_type, DataType::I24);
    assert_eq!(packet.header.codec, Codec::PCM);
    assert!(packet.header.stream_name == header.stream_name);
    assert_eq!(packet.header.frame_counter, 0xFFFF_FFFE);
    assert_eq!(packet.data, payload);
}

#[test]
fn reencode_is_stable() {
    let header = sample_header("stable", 77);
    let datagram = encode_packet(&header, &[1, 2]);
    let packet = decode_packet(&datagram).unwrap();
    let again = encode_packet(&packet.header, &packet.data);
    assert_eq!(again, datagram);
}

#[test]
fn unknown_rate_round_trips_through_packet() {
    let mut header = sample_header("raw", 0);
    header.sample_rate = SampleRate::Undefined(25);
    let datagram = encode_packet(&header, &[]);
    assert_eq!(datagram[4], 25);
    let packet = decode_packet(&datagram).unwrap();
    assert!(matches!(packet.header.sample_rate, SampleRate::Undefined(25)));
}

#[test]
fn nonstandard_format_bit_is_cleared_on_reencode() {
    let header = sample_header("bit", 0);
    let mut datagram = encode_packet(&header, &[]);
    assert_eq!(datagram[7], 2); // I24, PCM
    datagram[7] = 2 | 0x08; // set the unused bit 3 of the packed byte
    let packet = decode_packet(&datagram).unwrap();
    assert_eq!(packet.header.data_type, DataType::I24);
    assert_eq!(packet.header.codec, Codec::PCM);
    let reencoded = encode_packet(&packet.header, &packet.data);
    assert_eq!(reencoded[7], 2); // recomputed, not trusted
    let mut expected = datagram.clone();
    expected[7] = 2;
    assert_eq!(reencoded, expected);
}

#[test]
fn decode_rejects_short_datagram() {
    let r = decode_packet(b"VBAN too short");
    assert_eq!(r.unwrap_err(), VbanDecodeError::MalformedPacket);
}

#[test]
fn decode_rejects_bad_magic() {
    let mut d = vec![0u8; 40];
    d[0] = b'X';
    let r = decode_packet(&d);
    assert_eq!(r.unwrap_err(), VbanDecodeError::MalformedPacket);
}

#[test]
fn decode_rejects_non_ascii_name() {
    let header = sample_header("ok", 0);
    let mut datagram = encode_packet(&header, &[]);
    datagram[12] = 0xC3;
    let r = decode_packet(&datagram);
    assert_eq!(r.unwrap_err(), VbanDecodeError::StreamNameNotAscii);
}

#[test]
fn all_sample_rate_codes_round_trip() {
    // the 21 known codes map to a known rate and back to the same byte
    for b in 0u8..=20 {
        let sr = SampleRate::from_wire(b);
        assert!(sr.get_rate_if_known().is_some(), "code {} should be known", b);
        assert_eq!(sr.to_wire(), b);
    }
    // the 11 unassigned patterns keep the raw byte
    for b in 21u8..=31 {
        let sr = SampleRate::from_wire(b);
        assert!(matches!(sr, SampleRate::Undefined(v) if v == b));
        assert!(sr.get_rate_if_known().is_none());
        assert_eq!(sr.to_wire(), b);
    }
}

#[test]
fn sample_rate_table_is_complete() {
    let rates: [u32; 21] = [
        6000, 12000, 24000, 48000, 96000, 192000, 384000, 8000, 16000, 32000, 64000, 128000,
        256000, 512000, 11025, 22050, 44100, 88200, 176400, 352800, 705600,
    ];
    for (index, &hz) in rates.iter().enumerate() {
        let sr = SampleRate::try_from_hz(hz).unwrap();
        assert_eq!(sr.get_rate_if_known(), Some(hz));
        assert_eq!(sr.to_wire(), index as u8);
        assert_eq!(SampleRate::from_wire(index as u8).get_rate_if_known(), Some(hz));
    }
}

#[test]
fn unknown_hz_is_rejected() {
    let r = SampleRate::try_from_hz(44101);
    assert!(matches!(r, Err(VbanPacketError::UnknownSampleRate(44101))));
}

#[test]
fn sub_protocol_codes_round_trip() {
    let all = [
        (SubProtocol::Audio, 0x00),
        (SubProtocol::Serial, 0x20),
        (SubProtocol::Txt, 0x40),
        (SubProtocol::Service, 0x60),
        (SubProtocol::Undefined1, 0x80),
        (SubProtocol::Undefined2, 0xA0),
        (SubProtocol::Undefined3, 0xC0),
        (SubProtocol::User, 0xE0),
    ];
    for (sp, byte) in all {
        assert_eq!(sp.to_wire(), byte);
        assert_eq!(SubProtocol::from_wire(byte | 0x1F), sp); // low bits ignored
    }
}

#[test]
fn data_type_and_codec_codes_round_trip() {
    let types = [
        DataType::U8,
        DataType::I16,
        DataType::I24,
        DataType::I32,
        DataType::F32,
        DataType::F64,
        DataType::I12,
        DataType::I10,
    ];
    let codecs = [
        Codec::PCM,
        Codec::VBCA,
        Codec::VBCV,
        Codec::Undefined1,
        Codec::Undefined2,
        Codec::Undefined3,
        Codec::Undefined4,
        Codec::Undefined5,
        Codec::Undefined6,
        Codec::Undefined7,
        Codec::Undefined8,
        Codec::Undefined9,
        Codec::Undefined10,
        Codec::Undefined11,
        Codec::Undefined12,
        Codec::User,
    ];
    for dt in types {
        for c in codecs {
            let packed = dt.to_wire() | c.to_wire();
            assert_eq!(DataType::from_wire(packed), dt);
            assert_eq!(Codec::from_wire(packed), c);
        }
    }
    assert_eq!(DataType::I24.to_wire() | Codec::PCM.to_wire(), 2);
}

#[test]
fn next_header_increments_counter_only() {
    let header = sample_header("count", 5);
    let next = header.next();
    assert_eq!(next.frame_counter, 6);
    assert_eq!(next.samples_per_frame, 238);
    assert_eq!(next.channels, 1);
    assert_eq!(next.sample_rate, SampleRate::Hz48000);
    assert_eq!(next.data_type, DataType::I24);
    assert_eq!(next.codec, Codec::PCM);
}

#[test]
fn next_header_wraps_to_zero() {
    let header = sample_header("wrap", u32::MAX);
    assert_eq!(header.next().frame_counter, 0);
}
