use libcras::{
    decode_audio_message, decode_server_reply, effects_to_mask, encode_audio_message,
    server_stream_id, AudioMessage, AudioMessageId, CrasClient, CrasClientType, CrasDlcId,
    CrasSocketType, CrasStreamSourceGenerator, CrasStreamType, Error, MessageError, PackedFormat,
    ServerReply, StreamEffect,
};

fn header(length: u32, kind: u32) -> Vec<u8> {
    let mut b = length.to_le_bytes().to_vec();
    b.extend(kind.to_le_bytes());
    b
}

#[test]
fn decodes_connected() {
    let mut b = header(12, 0);
    b.extend(0x0102u32.to_le_bytes());
    assert_eq!(
        decode_server_reply(&b, &vec![9]),
        Ok(ServerReply::Connected { client_id: 0x0102, server_state_fd: 9 })
    );
    assert_eq!(decode_server_reply(&b, &vec![]), Err(MessageError::MissingFd));
}

#[test]
fn decodes_stream_connected() {
    let mut b = header(51, 1);
    b.extend((-1i32).to_le_bytes());
    b.extend(0x30004u32.to_le_bytes());
    b.extend(2u32.to_le_bytes());
    b.extend(44100u32.to_le_bytes());
    b.extend(2u32.to_le_bytes());
    b.extend([0u8; 11]);
    b.extend(4096u32.to_le_bytes());
    b.extend(0u64.to_le_bytes());
    assert_eq!(b.len(), 51);
    assert_eq!(
        decode_server_reply(&b, &vec![5, 6]),
        Ok(ServerReply::StreamConnected {
            err: -1,
            stream_id: 0x30004,
            format: PackedFormat { format_code: 2, frame_rate: 44100, num_channels: 2 },
            header_fd: 5,
            samples_fd: 6,
        })
    );
    assert_eq!(decode_server_reply(&b, &vec![5]), Err(MessageError::MissingFd));
}

#[test]
fn decode_errors() {
    assert_eq!(decode_server_reply(&vec![1, 2, 3], &vec![]), Err(MessageError::ShortMessage));
    assert_eq!(decode_server_reply(&header(9, 2), &vec![]), Err(MessageError::LengthMismatch));
    assert_eq!(decode_server_reply(&header(8, 0), &vec![1]), Err(MessageError::ShortMessage));
    assert_eq!(decode_server_reply(&header(8, 77), &vec![]), Err(MessageError::UnknownKind(77)));
    assert_eq!(decode_server_reply(&header(8, 2), &vec![]), Ok(ServerReply::DebugInfoReady));
}

#[test]
fn connect_reply_must_register_client() {
    assert!(matches!(
        CrasClient::from_connect_reply(Some(Ok(ServerReply::DebugInfoReady))),
        Err(Error::MessageTypeError)
    ));
    assert!(matches!(CrasClient::from_connect_reply(None), Err(Error::UnexpectedExit)));
    let c = CrasClient::from_connect_reply(Some(Ok(ServerReply::Connected {
        client_id: 8,
        server_state_fd: 3,
    })))
    .unwrap();
    assert_eq!(c.client_id(), 8);
    assert!(!c.is_capture_enabled());
}

#[test]
fn audio_message_round_trip() {
    let m = AudioMessage { id: AudioMessageId::DataCaptured, error: -7, frames: 480 };
    let b = encode_audio_message(&m);
    assert_eq!(b.len(), 12);
    assert_eq!(&b[0..4], &[2, 0, 0, 0]);
    assert_eq!(&b[4..8], &(-7i32).to_le_bytes());
    assert_eq!(&b[8..12], &480u32.to_le_bytes());
    assert_eq!(decode_audio_message(&b), Ok(m));
}

#[test]
fn audio_message_errors() {
    assert_eq!(decode_audio_message(&vec![0; 11]), Err(MessageError::ShortMessage));
    assert_eq!(decode_audio_message(&vec![0; 13]), Err(MessageError::LengthMismatch));
    let mut b = 5u32.to_le_bytes().to_vec();
    b.extend([0u8; 8]);
    assert_eq!(decode_audio_message(&b), Err(MessageError::UnknownKind(5)));
}

#[test]
fn effect_mask() {
    assert_eq!(effects_to_mask(&vec![]), 0);
    assert_eq!(effects_to_mask(&vec![StreamEffect::NoEffect]), 0);
    assert_eq!(effects_to_mask(&vec![StreamEffect::NoEffect, StreamEffect::EchoCancellation]), 1);
}

#[test]
fn stream_id_composition() {
    assert_eq!(server_stream_id(1, 2), 0x10002);
    assert_eq!(server_stream_id(0x12345, 0xffff), 0x2345ffff);
}

#[test]
fn dlc_names() {
    assert_eq!(CrasDlcId::CrasDlcSrBt.as_str(), "sr-bt-dlc");
    assert_eq!(CrasDlcId::CrasDlcNcAp.as_str(), "nc-ap-dlc");
    assert_eq!(CrasDlcId::NumCrasDlc.as_str(), "num");
}

#[test]
fn generator_configures_session() {
    let g = CrasStreamSourceGenerator::new(true, CrasClientType::Crosvm, CrasSocketType::Unified);
    assert_eq!(g.stream_type, CrasStreamType::Default);
    assert_eq!(g.socket_type.socket_path(), "/run/cras/.cras_unified");
    let mut c = CrasClient::from_connect_reply(Some(Ok(ServerReply::Connected {
        client_id: 1,
        server_state_fd: 3,
    })))
    .unwrap();
    g.configure(&mut c);
    assert!(c.is_capture_enabled());
    let g2 = CrasStreamSourceGenerator::with_stream_type(
        false,
        CrasClientType::Test,
        CrasSocketType::Legacy,
        CrasStreamType::ProAudio,
    );
    assert_eq!(g2.stream_type, CrasStreamType::ProAudio);
    assert_eq!(g2.socket_type.socket_path(), "/run/cras/.cras_socket");
}
