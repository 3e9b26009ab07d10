use voxter::framing::{frame_size_for, OpusFramer};
use voxter::ogg_opus::{next_granule, opus_head_packet, opus_tags_packet, stream_serial, OggOpusStream};
use voxter::speech_check::OggPacketSource;

#[test]
fn frame_sizes_are_twenty_milliseconds() {
    assert_eq!(frame_size_for(16000), 320);
    assert_eq!(frame_size_for(48000), 960);
    assert_eq!(frame_size_for(44100), 882);
    assert_eq!(frame_size_for(49), 0);
}

#[test]
fn framer_hands_out_full_frames_and_pads_the_rest() {
    let mut f = OpusFramer::new(4);
    assert_eq!(f.push(vec![1, 2, 3]), Vec::<Vec<i16>>::new());
    assert_eq!(f.push(vec![4, 5, 6, 7, 8, 9]), vec![vec![1, 2, 3, 4], vec![5, 6, 7, 8]]);
    assert_eq!(f.push(vec![]), Vec::<Vec<i16>>::new());
    assert_eq!(f.frame_size(), 4);
    assert_eq!(f.finish(), Some(vec![9, 0, 0, 0]));
}

#[test]
fn framer_with_nothing_pending_finishes_empty() {
    let mut f = OpusFramer::new(3);
    assert_eq!(f.push(vec![1, 2, 3, 4, 5, 6]), vec![vec![1, 2, 3], vec![4, 5, 6]]);
    assert_eq!(f.finish(), None);
}

#[test]
fn framing_in_pieces_equals_framing_at_once() {
    let samples: Vec<i16> = (0..23).collect();
    let mut whole = OpusFramer::new(5);
    let all_at_once = whole.push(samples.clone());
    let mut pieces = OpusFramer::new(5);
    let mut got = Vec::new();
    for chunk in [&samples[0..2], &samples[2..9], &samples[9..10], &samples[10..23]] {
        got.extend(pieces.push(chunk.to_vec()));
    }
    assert_eq!(got, all_at_once);
    assert_eq!(pieces.finish(), whole.finish());
}

#[test]
fn opus_head_bytes() {
    let h = opus_head_packet(16000);
    assert_eq!(
        h,
        vec![b'O', b'p', b'u', b's', b'H', b'e', b'a', b'd', 1, 1, 0, 0, 0x80, 0x3E, 0, 0, 0, 0, 0]
    );
    let h = opus_head_packet(48000);
    assert_eq!(u32::from_le_bytes([h[12], h[13], h[14], h[15]]), 48000);
    assert_eq!(h.len(), 19);
}

#[test]
fn opus_tags_bytes() {
    let t = opus_tags_packet();
    let mut expected = b"OpusTags".to_vec();
    expected.extend_from_slice(&22u32.to_le_bytes());
    expected.extend_from_slice(b"voxtral-speech-to-text");
    expected.extend_from_slice(&0u32.to_le_bytes());
    assert_eq!(t, expected);
    assert_eq!(t.len(), 38);
}

#[test]
fn granule_advances_in_48k_units_and_saturates() {
    assert_eq!(next_granule(0, 320, 16000), 960);
    assert_eq!(next_granule(960, 960, 48000), 1920);
    assert_eq!(next_granule(0, 882, 44100), 960);
    assert_eq!(next_granule(u64::MAX - 10, 320, 16000), u64::MAX);
}

#[test]
fn serial_mixes_low_bits() {
    assert_eq!(stream_serial(0), 0xF00D_F00D);
    assert_eq!(stream_serial(0x1234_5678_9ABC_DEF0_1122_3344), 0x1122_3344 ^ 0xF00D_F00D);
    let nanos: u128 = 1_700_000_000_123_456_789;
    assert_eq!(stream_serial(nanos), ((nanos as u64) ^ 0xA5A5_5A5A_F00D_F00D) as u32);
}

#[test]
fn ogg_stream_round_trips_through_reader() {
    let mut s = OggOpusStream::start(16000, 42).expect("headers");
    s.write_frame(vec![0xF8, 0xFF, 0xFE]).expect("frame 1");
    s.write_frame(vec![0xF8, 0x01]).expect("frame 2");
    let bytes = s.finish().expect("finish");
    assert_eq!(&bytes[0..4], b"OggS");
    let mut reader = OggPacketSource::new(bytes);
    let mut packets = Vec::new();
    while let Some(p) = reader.next_packet().expect("read") {
        packets.push(p);
    }
    assert!(packets.len() >= 4);
    assert_eq!(packets[0], opus_head_packet(16000));
    assert_eq!(packets[1], opus_tags_packet());
    assert_eq!(packets[2], vec![0xF8, 0xFF, 0xFE]);
    assert_eq!(packets[3], vec![0xF8, 0x01]);
}

#[test]
fn ogg_reader_reports_garbage_with_prefix() {
    let mut reader = OggPacketSource::new(b"definitely not an ogg stream at all".to_vec());
    match reader.next_packet() {
        Err(m) => assert!(m.starts_with("OGG read error: "), "{m}"),
        Ok(p) => panic!("unexpected packet {p:?}"),
    }
}

#[test]
fn two_readers_over_the_same_bytes_read_alike() {
    let mut s = OggOpusStream::start(48000, 7).expect("headers");
    s.write_frame(vec![1, 2, 3]).expect("frame");
    let bytes = s.finish().expect("finish");
    let mut a = OggPacketSource::new(bytes.clone());
    let mut b = OggPacketSource::new(bytes);
    for _ in 0..6 {
        assert_eq!(a.next_packet(), b.next_packet());
    }
    let mut g1 = OggPacketSource::new(b"garbage".to_vec());
    let mut g2 = OggPacketSource::new(b"garbage".to_vec());
    assert_eq!(g1.next_packet(), g2.next_packet());
}

#[test]
fn identical_streams_give_identical_bytes() {
    let make = || {
        let mut s = OggOpusStream::start(16000, 99).expect("headers");
        s.write_frame(vec![9, 8, 7]).expect("frame");
        s.write_frame(vec![6; 300]).expect("frame");
        s.finish().expect("finish")
    };
    assert_eq!(make(), make());
}
