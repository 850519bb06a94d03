use audio_bicycle::asciistackstr::AsciiStackString;
use audio_bicycle::packet::{encode_packet, Codec, DataType, SampleRate, SubProtocol, VbanHeader};
use audio_bicycle::receiver::{Receiver, ReceiverAction};
use audio_bicycle::transmitter::{
    samples_per_packet, Transmitter, SAMPLES_PER_PACKET, SAMPLE_SIZE, USABLE_DATA_PACKET_SIZE,
};

fn name(s: &str) -> AsciiStackString<16> {
    AsciiStackString::try_from_str(s).unwrap()
}

#[test]
fn packet_sizing_constants() {
    assert_eq!(SAMPLE_SIZE, 6);
    assert_eq!(SAMPLES_PER_PACKET, 239);
    assert_eq!(USABLE_DATA_PACKET_SIZE, 1434);
    assert_eq!(USABLE_DATA_PACKET_SIZE, SAMPLES_PER_PACKET * SAMPLE_SIZE);
    let samples = samples_per_packet();
    assert_eq!(samples, 239);
    assert!(samples <= 256);
}

#[test]
fn receiver_scenario_filters_in_order() {
    let receiver = Receiver { stream_name: name("music") };

    // (a) three bytes of garbage: warned about, not an error
    let a = receiver.step(true, &[1, 2, 3]);
    assert!(matches!(a, ReceiverAction::DiscardWithWarning));

    // (b) starts with the magic but too short for a header
    let b = receiver.step(true, &[0x56, 0x42, 0x41, 0x4E, 3, 0, 0, 0, 0, 0]);
    assert!(matches!(b, ReceiverAction::DiscardWithWarning));

    // (c) a well-formed packet of another stream: silently ignored
    let mut other = Transmitter::new(name("other"));
    let c_datagram = other.next_datagram(&[1, 2, 3, 4, 5, 6]);
    let c = receiver.step(true, &c_datagram);
    assert!(matches!(c, ReceiverAction::DiscardSilently));

    // (d) a well-formed matching packet: only its payload is forwarded
    let mut matching = Transmitter::new(name("music"));
    let payload = vec![10u8, 20, 30, 40, 50, 60];
    let d_datagram = matching.next_datagram(&payload);
    let d = receiver.step(true, &d_datagram);
    match d {
        ReceiverAction::ForwardPayload(p) => assert_eq!(p, payload),
        other => panic!("expected a forwarded payload, got {:?}", other),
    }
}

#[test]
fn receiver_filters_foreign_source_silently() {
    let receiver = Receiver { stream_name: name("music") };
    let mut tx = Transmitter::new(name("music"));
    let datagram = tx.next_datagram(&[0; 6]);
    let action = receiver.step(false, &datagram);
    assert!(matches!(action, ReceiverAction::DiscardSilently));
}

#[test]
fn receiver_warns_on_non_audio_sub_protocol() {
    let receiver = Receiver { stream_name: name("music") };
    let mut datagram = Transmitter::new(name("music")).next_datagram(&[0; 6]);
    datagram[4] = 0x23; // Serial sub-protocol, 48 kHz index
    let action = receiver.step(true, &datagram);
    assert!(matches!(action, ReceiverAction::DiscardWithWarning));
}

#[test]
fn receiver_treats_profile_mismatch_as_fatal() {
    let receiver = Receiver { stream_name: name("music") };
    let header = VbanHeader {
        sample_rate: SampleRate::Hz44100, // structurally valid, wrong rate
        sub_protocol: SubProtocol::Audio,
        samples_per_frame: 238,
        channels: 1,
        data_type: DataType::I24,
        codec: Codec::PCM,
        stream_name: name("music"),
        frame_counter: 0,
    };
    let datagram = encode_packet(&header, &[0; 6]);
    let action = receiver.step(true, &datagram);
    assert!(matches!(action, ReceiverAction::FatalProfileMismatch));
}

#[test]
fn receiver_checks_channel_count() {
    let receiver = Receiver { stream_name: name("music") };
    let header = VbanHeader {
        sample_rate: SampleRate::Hz48000,
        sub_protocol: SubProtocol::Audio,
        samples_per_frame: 238,
        channels: 3, // four physical channels: outside the fixed profile
        data_type: DataType::I24,
        codec: Codec::PCM,
        stream_name: name("music"),
        frame_counter: 0,
    };
    let datagram = encode_packet(&header, &[0; 6]);
    assert!(matches!(receiver.step(true, &datagram), ReceiverAction::FatalProfileMismatch));
}

#[test]
fn transmitter_scenario_counts_frames() {
    let mut tx = Transmitter::new(name("mic"));
    let buffer_a = vec![0xAAu8; USABLE_DATA_PACKET_SIZE as usize];
    let buffer_b = vec![0xBBu8; USABLE_DATA_PACKET_SIZE as usize];
    let first = tx.next_datagram(&buffer_a);
    let second = tx.next_datagram(&buffer_b);

    assert_eq!(first.len(), 28 + 1434);
    assert_eq!(second.len(), 28 + 1434);

    // headers differ only in the frame counter: 0, then 1
    assert_eq!(&first[..24], &second[..24]);
    assert_eq!(&first[24..28], &[0, 0, 0, 0]);
    assert_eq!(&second[24..28], &[1, 0, 0, 0]);
    assert_eq!(&first[28..], &buffer_a[..]);
    assert_eq!(&second[28..], &buffer_b[..]);
}

#[test]
fn transmitter_initial_header_is_fixed_profile() {
    let tx = Transmitter::new(name("mic"));
    assert_eq!(tx.header.sample_rate, SampleRate::Hz48000);
    assert_eq!(tx.header.sub_protocol, SubProtocol::Audio);
    assert_eq!(tx.header.samples_per_frame, 238);
    assert_eq!(tx.header.channels, 1);
    assert_eq!(tx.header.data_type, DataType::I24);
    assert_eq!(tx.header.codec, Codec::PCM);
    assert_eq!(tx.header.frame_counter, 0);
}

#[test]
fn transmitter_counter_wraps() {
    let mut tx = Transmitter::new(name("mic"));
    tx.header.frame_counter = u32::MAX;
    let datagram = tx.next_datagram(&[1, 2, 3]);
    assert_eq!(&datagram[24..28], &[0xFF, 0xFF, 0xFF, 0xFF]);
    assert_eq!(tx.header.frame_counter, 0);
    let datagram = tx.next_datagram(&[1, 2, 3]);
    assert_eq!(&datagram[24..28], &[0, 0, 0, 0]);
    assert_eq!(tx.header.frame_counter, 1);
}

#[test]
fn transmitted_packets_are_received() {
    // the two halves of the stream pair agree on the wire format
    let receiver = Receiver { stream_name: name("loop") };
    let mut tx = Transmitter::new(name("loop"));
    for i in 0u8..5 {
        let payload = vec![i; 12];
        let datagram = tx.next_datagram(&payload);
        match receiver.step(true, &datagram) {
            ReceiverAction::ForwardPayload(p) => assert_eq!(p, payload),
            other => panic!("frame {} not forwarded: {:?}", i, other),
        }
    }
}
