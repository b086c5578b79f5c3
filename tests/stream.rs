use libcras::{
    decode_server_reply, AudioMessage, AudioMessageId, CrasClient, CrasStream, Error,
    HandshakeStep, PackedFormat, SampleFormat, ServerReply, StreamError,
};

fn connected_stream(capture: bool, block: usize) -> CrasStream {
    let mut b = 12u32.to_le_bytes().to_vec();
    b.extend(0u32.to_le_bytes());
    b.extend(1u32.to_le_bytes());
    let reply = decode_server_reply(&b, &vec![3]);
    let mut client = CrasClient::from_connect_reply(Some(reply)).unwrap();
    let pending = if capture {
        client.enable_cras_capture();
        client.new_pinned_capture_stream(0, 2, SampleFormat::S16LE, 48000, block, &vec![]).unwrap().0
    } else {
        client.new_playback_stream(2, SampleFormat::S16LE, 48000, block).unwrap().0
    };
    let answer = ServerReply::StreamConnected {
        err: 0,
        stream_id: pending.stream_id(),
        format: PackedFormat { format_code: 2, frame_rate: 48000, num_channels: 2 },
        header_fd: 4,
        samples_fd: 5,
    };
    match pending.on_reply(&answer) {
        HandshakeStep::Connected(s) => s,
        _ => panic!("stream not connected"),
    }
}

fn signal(id: AudioMessageId, frames: u32) -> AudioMessage {
    AudioMessage { id, error: 0, frames }
}

#[test]
fn commits_advance_cursor_modulo_capacity() {
    let mut s = connected_stream(false, 256);
    let h = s.next_buffer(&signal(AudioMessageId::RequestData, 100)).unwrap();
    assert_eq!((h.offset, h.frames), (0, 100));
    let m = s.commit(60).unwrap();
    assert_eq!(m, AudioMessage { id: AudioMessageId::DataReady, error: 0, frames: 60 });
    assert_eq!(s.cursor(), 60);
    let h = s.next_buffer(&signal(AudioMessageId::RequestData, 300)).unwrap();
    assert_eq!((h.offset, h.frames), (60, 196));
    s.commit(196).unwrap();
    assert_eq!(s.cursor(), 0);
    let mut total: u32 = 0;
    for n in [17u32, 250, 3, 256, 99] {
        let h = s.next_buffer(&signal(AudioMessageId::RequestData, n)).unwrap();
        assert!(h.frames <= n);
        s.commit(h.frames).unwrap();
        total += h.frames;
        assert_eq!(s.cursor(), total % 256);
    }
}

#[test]
fn commit_larger_than_buffer_is_refused() {
    let mut s = connected_stream(false, 256);
    s.next_buffer(&signal(AudioMessageId::RequestData, 10)).unwrap();
    assert_eq!(s.commit(11), Err(Error::CrasStreamError(StreamError::CommitTooLarge)));
    assert_eq!(s.cursor(), 0);
    assert_eq!(s.commit(10).unwrap().frames, 10);
}

#[test]
fn commit_without_buffer_is_refused() {
    let mut s = connected_stream(false, 256);
    assert_eq!(s.commit(0), Err(Error::CrasStreamError(StreamError::NoBufferAcquired)));
    assert_eq!(s.release(), Err(Error::CrasStreamError(StreamError::NoBufferAcquired)));
}

#[test]
fn release_commits_whole_buffer() {
    let mut s = connected_stream(true, 128);
    let h = s.next_buffer(&signal(AudioMessageId::DataReady, 40)).unwrap();
    assert_eq!(h.frames, 40);
    let m = s.release().unwrap();
    assert_eq!(m, AudioMessage { id: AudioMessageId::DataCaptured, error: 0, frames: 40 });
    assert_eq!(s.cursor(), 40);
}

#[test]
fn second_acquire_is_refused() {
    let mut s = connected_stream(false, 64);
    s.next_buffer(&signal(AudioMessageId::RequestData, 8)).unwrap();
    assert_eq!(
        s.next_buffer(&signal(AudioMessageId::RequestData, 8)),
        Err(Error::CrasStreamError(StreamError::BufferAlreadyAcquired))
    );
}

#[test]
fn signal_must_fit_direction() {
    let mut s = connected_stream(false, 64);
    assert_eq!(
        s.next_buffer(&signal(AudioMessageId::DataReady, 8)),
        Err(Error::CrasStreamError(StreamError::UnexpectedAudioMessage))
    );
    let bad = AudioMessage { id: AudioMessageId::RequestData, error: -5, frames: 8 };
    assert_eq!(s.next_buffer(&bad), Err(Error::CrasStreamError(StreamError::ServerError(-5))));
}

#[test]
fn closed_stream_refuses_buffers() {
    let mut s = connected_stream(false, 64);
    s.next_buffer(&signal(AudioMessageId::RequestData, 8)).unwrap();
    s.mark_closed();
    assert!(s.is_closed());
    assert_eq!(s.commit(8), Err(Error::IoError));
    assert_eq!(
        s.next_buffer(&signal(AudioMessageId::RequestData, 8)),
        Err(Error::IoError)
    );
}
