use libcras::{
    CrasIodevInfo, CrasIonodeInfo,
    decode_server_reply, CrasClient, CrasClientType, CrasStreamType, Error, HandshakeStep,
    MessageError, PackedFormat, PendingStream, SampleFormat, ServerReply, ServerState,
    StreamDirection, StreamEffect, StreamError, StreamFormat, StreamPlan,
};

fn le(x: u32) -> Vec<u8> {
    x.to_le_bytes().to_vec()
}

fn connected_bytes(client_id: u32) -> Vec<u8> {
    let mut b = le(12);
    b.extend(le(0));
    b.extend(le(client_id));
    b
}

fn session(client_id: u32) -> CrasClient {
    let reply = decode_server_reply(&connected_bytes(client_id), &vec![7]);
    CrasClient::from_connect_reply(Some(reply)).unwrap()
}

fn stream_connected(err: i32, stream_id: u32, format: PackedFormat) -> ServerReply {
    ServerReply::StreamConnected { err, stream_id, format, header_fd: 10, samples_fd: 11 }
}

fn packed(code: u32, rate: u32, channels: u32) -> PackedFormat {
    PackedFormat { format_code: code, frame_rate: rate, num_channels: channels }
}

fn answer_for(p: &PendingStream) -> ServerReply {
    let f = p.format();
    stream_connected(0, p.stream_id(), packed(f.format.code(), f.frame_rate, f.num_channels as u32))
}

#[test]
fn playback_stream_reports_requested_format() {
    let mut client = session(3);
    let (pending, bytes) = client.new_playback_stream(2, SampleFormat::S16LE, 44100, 256).unwrap();
    assert_eq!(bytes.len(), 99);
    assert_eq!(pending.stream_id(), 3 << 16);
    let reply = stream_connected(0, 3 << 16, packed(2, 44100, 2));
    match pending.on_reply(&reply) {
        HandshakeStep::Connected(s) => {
            assert_eq!(s.direction(), StreamDirection::Playback);
            assert_eq!(s.format().num_channels, 2);
            assert_eq!(s.format().frame_rate, 44100);
            assert_eq!(s.format().format, SampleFormat::S16LE);
            assert_eq!(s.block_size(), 256);
            assert_eq!(s.cursor(), 0);
        }
        _ => panic!("stream not connected"),
    }
}

#[test]
fn handshake_format_matches_for_each_direction_and_format() {
    let mut client = session(1);
    client.enable_cras_capture();
    for dir in [StreamDirection::Playback, StreamDirection::Capture] {
        for fmt in [SampleFormat::U8, SampleFormat::S16LE, SampleFormat::S24LE, SampleFormat::S32LE] {
            let format = StreamFormat { num_channels: 6, format: fmt, frame_rate: 48000 };
            let (pending, _) = client.create_stream(None, 480, dir, format, &vec![]).unwrap();
            match pending.on_reply(&answer_for(&pending)) {
                HandshakeStep::Connected(s) => {
                    assert_eq!(s.format(), format);
                    assert_eq!(s.direction(), dir);
                }
                _ => panic!("stream not connected"),
            }
        }
    }
}

#[test]
fn volume_read_follows_server_state() {
    let mut client = session(1);
    client.update_server_state(ServerState::new(20, false));
    let msg = client.set_system_volume(50);
    assert_eq!(msg, vec![12, 0, 0, 0, 3, 0, 0, 0, 50, 0, 0, 0]);
    assert_eq!(client.get_system_volume(), 20);
    client.update_server_state(ServerState::new(50, false));
    assert_eq!(client.get_system_volume(), 50);
}

#[test]
fn mute_request_bytes() {
    let client = session(1);
    assert_eq!(client.set_system_mute(true), vec![12, 0, 0, 0, 4, 0, 0, 0, 1, 0, 0, 0]);
    assert_eq!(client.set_system_mute(false), vec![12, 0, 0, 0, 4, 0, 0, 0, 0, 0, 0, 0]);
    assert!(!client.get_system_mute());
}

#[test]
fn debug_info_without_reply_is_unexpected_exit() {
    let client = session(1);
    assert_eq!(client.audio_debug_info_request(), vec![8, 0, 0, 0, 14, 0, 0, 0]);
    assert_eq!(client.get_audio_debug_info(None), Err(Error::UnexpectedExit));
}

#[test]
fn debug_info_reply_kinds() {
    let client = session(1);
    assert_eq!(client.get_audio_debug_info(Some(Ok(ServerReply::DebugInfoReady))), Ok(()));
    let other = ServerReply::Connected { client_id: 1, server_state_fd: 3 };
    assert_eq!(client.get_audio_debug_info(Some(Ok(other))), Err(Error::MessageTypeError));
    assert_eq!(
        client.get_audio_debug_info(Some(Err(MessageError::ShortMessage))),
        Err(Error::CrasClientMessageError(MessageError::ShortMessage))
    );
}

#[test]
fn handshake_skips_unrelated_reply() {
    let mut client = session(2);
    let (pending, _) = client.new_playback_stream(2, SampleFormat::S16LE, 44100, 256).unwrap();
    let unrelated = stream_connected(0, (2 << 16) | 9, packed(2, 44100, 2));
    assert!(matches!(pending.on_reply(&unrelated), HandshakeStep::Continue));
    assert!(matches!(pending.on_reply(&ServerReply::DebugInfoReady), HandshakeStep::Continue));
    let replies = vec![unrelated, answer_for(&pending)];
    let (stream, at) = pending.complete(&replies).unwrap();
    assert_eq!(at, 1);
    assert_eq!(stream.stream_id(), 2 << 16);
}

#[test]
fn handshake_without_answer_is_unexpected_exit() {
    let mut client = session(2);
    let (pending, _) = client.new_playback_stream(2, SampleFormat::S16LE, 44100, 256).unwrap();
    let replies = vec![ServerReply::DebugInfoReady];
    assert!(matches!(pending.complete(&replies), Err(Error::UnexpectedExit)));
}

#[test]
fn handshake_failures() {
    let mut client = session(2);
    let (pending, _) = client.new_playback_stream(2, SampleFormat::S16LE, 44100, 256).unwrap();
    let rejected = stream_connected(-22, pending.stream_id(), packed(2, 44100, 2));
    assert!(matches!(
        pending.on_reply(&rejected),
        HandshakeStep::Failed(Error::CrasStreamError(StreamError::ServerRejected(-22)))
    ));
    let other_rate = stream_connected(0, pending.stream_id(), packed(2, 48000, 2));
    assert!(matches!(
        pending.on_reply(&other_rate),
        HandshakeStep::Failed(Error::CrasStreamError(StreamError::FormatMismatch))
    ));
}

#[test]
fn stream_ids_increase() {
    let mut client = session(5);
    let a = client.next_server_stream_id().unwrap();
    let b = client.next_server_stream_id().unwrap();
    let (p, _) = client.new_playback_stream(2, SampleFormat::S16LE, 44100, 256).unwrap();
    let c = client.next_server_stream_id().unwrap();
    assert_eq!(a, 0x50000);
    assert_eq!(b, 0x50001);
    assert_eq!(p.stream_id(), 0x50002);
    assert_eq!(c, 0x50003);
    assert_eq!(client.server_stream_id(7), 0x50007);
}

#[test]
fn stream_ids_run_out() {
    let mut client = session(1);
    let mut last = 0;
    for i in 0..0x10000u32 {
        let id = client.next_server_stream_id().unwrap();
        if i > 0 {
            assert!(id > last);
        }
        last = id;
    }
    assert_eq!(last, 0x1ffff);
    assert_eq!(
        client.next_server_stream_id(),
        Err(Error::CrasStreamError(StreamError::StreamIdsExhausted))
    );
}

#[test]
fn zero_block_size_is_refused() {
    let mut client = session(1);
    assert!(matches!(
        client.new_playback_stream(2, SampleFormat::S16LE, 44100, 0),
        Err(Error::CrasStreamError(StreamError::InvalidBlockSize))
    ));
    assert_eq!(client.next_server_stream_id(), Ok(1 << 16));
}

#[test]
fn capture_disabled_gives_silent_stream() {
    let mut client = session(4);
    match client.new_capture_stream(2, SampleFormat::S16LE, 48000, 480, &vec![]).unwrap() {
        StreamPlan::Noop(noop) => {
            assert_eq!(noop.buffer_size, 480);
            let mut buf = vec![9u8; 16];
            noop.read_silence(&mut buf);
            assert_eq!(buf, vec![0u8; 16]);
            assert!(noop.commit(480).is_none());
        }
        StreamPlan::Connect(..) => panic!("request sent on a capture-disabled session"),
    }
    assert_eq!(client.next_server_stream_id(), Ok(4 << 16));
}

#[test]
fn capture_enabled_sends_request() {
    let mut client = session(4);
    client.enable_cras_capture();
    let effects = vec![StreamEffect::EchoCancellation];
    match client.new_capture_stream(2, SampleFormat::S16LE, 48000, 480, &effects).unwrap() {
        StreamPlan::Connect(p, bytes) => {
            assert_eq!(p.direction(), StreamDirection::Capture);
            assert_eq!(&bytes[12..16], &le(1)[..]);
            assert_eq!(&bytes[63..71], &1u64.to_le_bytes()[..]);
        }
        StreamPlan::Noop(_) => panic!("capture stream not requested"),
    }
}

#[test]
fn shm_stream_capture_disabled() {
    let mut client = session(4);
    let plan = client
        .new_stream(StreamDirection::Capture, 2, SampleFormat::S16LE, 48000, 480, &vec![], 4096, [0, 2048])
        .unwrap();
    assert!(matches!(plan, StreamPlan::Noop(_)));
    let plan = client
        .new_stream(StreamDirection::Playback, 2, SampleFormat::S16LE, 48000, 480, &vec![], 4096, [0, 2048])
        .unwrap();
    match plan {
        StreamPlan::Connect(_, bytes) => {
            assert_eq!(&bytes[75..83], &4096u64.to_le_bytes()[..]);
            assert_eq!(&bytes[83..91], &0u64.to_le_bytes()[..]);
            assert_eq!(&bytes[91..99], &2048u64.to_le_bytes()[..]);
        }
        StreamPlan::Noop(_) => panic!("playback stream not requested"),
    }
}

#[test]
fn connect_request_layout() {
    let mut client = session(1);
    client.set_client_type(CrasClientType::Test);
    client.set_stream_type(CrasStreamType::Multimedia);
    let (_, b) = client
        .new_pinned_playback_stream(5, 2, SampleFormat::S16LE, 44100, 256, &vec![StreamEffect::NoEffect])
        .unwrap();
    assert_eq!(b.len(), 99);
    assert_eq!(&b[0..4], &le(99)[..]);
    assert_eq!(&b[4..8], &le(0)[..]);
    assert_eq!(&b[8..12], &le(9)[..]);
    assert_eq!(&b[12..16], &le(0)[..]);
    assert_eq!(&b[16..20], &le(1 << 16)[..]);
    assert_eq!(&b[20..24], &le(1)[..]);
    assert_eq!(&b[24..28], &le(256)[..]);
    assert_eq!(&b[28..32], &le(256)[..]);
    assert_eq!(&b[32..36], &le(0)[..]);
    assert_eq!(&b[36..40], &le(2)[..]);
    assert_eq!(&b[40..44], &le(44100)[..]);
    assert_eq!(&b[44..48], &le(2)[..]);
    assert_eq!(&b[48..59], &[0, 1, 255, 255, 255, 255, 255, 255, 255, 255, 255][..]);
    assert_eq!(&b[59..63], &le(5)[..]);
    assert_eq!(&b[63..71], &0u64.to_le_bytes()[..]);
    assert_eq!(&b[71..75], &le(2)[..]);
}

#[test]
fn default_device_is_no_device() {
    let mut client = session(1);
    let (_, b) = client.new_playback_stream(1, SampleFormat::U8, 8000, 64).unwrap();
    assert_eq!(&b[59..63], &le(libcras::NO_DEVICE)[..]);
}

#[test]
fn device_lists_come_from_server_state() {
    let mut client = session(1);
    assert!(client.output_devices().is_empty());
    let mut state = ServerState::new(75, true);
    state.output_devices.push(CrasIodevInfo { index: 4, name: "Speaker".to_string() });
    state.input_devices.push(CrasIodevInfo { index: 5, name: "Mic".to_string() });
    state.output_nodes.push(CrasIonodeInfo {
        iodev_index: 4,
        ionode_index: 0,
        plugged: true,
        active: true,
        kind_name: "INTERNAL_SPEAKER".to_string(),
        name: "Speaker".to_string(),
    });
    client.update_server_state(state);
    assert!(client.get_system_mute());
    assert_eq!(client.get_system_volume(), 75);
    let out = client.output_devices();
    assert_eq!(out.len(), 1);
    assert_eq!((out[0].index, out[0].name.as_str()), (4, "Speaker"));
    assert_eq!(client.input_devices()[0].name, "Mic");
    let nodes = client.output_nodes();
    assert_eq!(nodes[0].kind_name, "INTERNAL_SPEAKER");
    assert!(nodes[0].plugged && nodes[0].active);
    assert!(client.input_nodes().is_empty());
}
