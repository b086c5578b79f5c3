use vstd::prelude::*;
use crate::error::MessageError;
use crate::format::{sample_format_code, StreamFormat};
use crate::wire::{le32, le64, lemma_u32_round_trip, push_u32, push_u64, read_u32, u32_at};

verus! {

/// Version of the stream connection protocol this client speaks.
pub const PROTOCOL_VERSION: u32 = 9;

/// Request kinds, client to daemon.
pub const SERVER_CONNECT_STREAM: u32 = 0;
pub const SERVER_SET_SYSTEM_VOLUME: u32 = 3;
pub const SERVER_SET_SYSTEM_MUTE: u32 = 4;
pub const SERVER_DUMP_AUDIO_THREAD: u32 = 14;

/// Reply kinds, daemon to client.
pub const CLIENT_CONNECTED: u32 = 0;
pub const CLIENT_STREAM_CONNECTED: u32 = 1;
pub const CLIENT_AUDIO_DEBUG_INFO_READY: u32 = 2;

/// Device index that lets the daemon pick the device.
pub const NO_DEVICE: u32 = 0;

/// Entries in the channel layout of a packed format.
pub const CHANNEL_LAYOUT_LEN: usize = 11;

/// Sizes in bytes of the messages.
pub const HEADER_LEN: u32 = 8;
pub const VOLUME_REQUEST_LEN: u32 = 12;
pub const MUTE_REQUEST_LEN: u32 = 12;
pub const CONNECT_REQUEST_LEN: u32 = 99;
pub const CONNECTED_REPLY_LEN: u32 = 12;
pub const STREAM_CONNECTED_REPLY_LEN: u32 = 51;

/// A stream format as the wire carries it.
#[derive(Clone, Copy, Debug, PartialEq, Eq, Structural)]
pub struct PackedFormat {
    pub format_code: u32,
    pub frame_rate: u32,
    pub num_channels: u32,
}

pub open spec fn packed_of(f: StreamFormat) -> PackedFormat {
    PackedFormat {
        format_code: sample_format_code(f.format),
        frame_rate: f.frame_rate,
        num_channels: f.num_channels as u32,
    }
}

/// Packs a stream format for the wire.
pub fn pack_format(f: &StreamFormat) -> (r: PackedFormat)
    ensures
        r == packed_of(*f),
{
    PackedFormat {
        format_code: f.format.code(),
        frame_rate: f.frame_rate,
        num_channels: f.num_channels as u32,
    }
}

/// Channel `i` sits at position `i`; unused positions hold -1.
pub open spec fn channel_layout(num_channels: u32) -> Seq<u8> {
    Seq::new(CHANNEL_LAYOUT_LEN as nat, |i: int| if i < num_channels { i as u8 } else { 0xffu8 })
}

pub open spec fn packed_format_bytes(p: PackedFormat) -> Seq<u8> {
    le32(p.format_code) + le32(p.frame_rate) + le32(p.num_channels) + channel_layout(
        p.num_channels,
    )
}

pub open spec fn header_bytes(length: u32, kind: u32) -> Seq<u8> {
    le32(length) + le32(kind)
}

pub open spec fn volume_request(volume: u32) -> Seq<u8> {
    header_bytes(VOLUME_REQUEST_LEN, SERVER_SET_SYSTEM_VOLUME) + le32(volume)
}

pub open spec fn mute_request(mute: bool) -> Seq<u8> {
    header_bytes(MUTE_REQUEST_LEN, SERVER_SET_SYSTEM_MUTE) + le32(if mute { 1u32 } else { 0u32 })
}

pub open spec fn debug_info_request() -> Seq<u8> {
    header_bytes(HEADER_LEN, SERVER_DUMP_AUDIO_THREAD)
}

/// Everything a connect-stream request carries.
#[derive(Clone, Copy, Debug, PartialEq, Eq, Structural)]
pub struct ConnectRequest {
    pub direction: u32,
    pub stream_id: u32,
    pub stream_type: u32,
    /// Used both as the buffer size and as the callback threshold.
    pub block_size: u32,
    pub format: PackedFormat,
    pub dev_idx: u32,
    pub effects: u64,
    pub client_type: u32,
    pub client_shm_size: u64,
    pub buffer_offset_0: u64,
    pub buffer_offset_1: u64,
}

pub open spec fn connect_request_bytes(c: ConnectRequest) -> Seq<u8> {
    header_bytes(CONNECT_REQUEST_LEN, SERVER_CONNECT_STREAM) + le32(PROTOCOL_VERSION) + le32(
        c.direction,
    ) + le32(c.stream_id) + le32(c.stream_type) + le32(c.block_size) + le32(c.block_size) + le32(
        0,
    ) + packed_format_bytes(c.format) + le32(c.dev_idx) + le64(c.effects) + le32(c.client_type)
        + le64(c.client_shm_size) + le64(c.buffer_offset_0) + le64(c.buffer_offset_1)
}

fn push_header(v: &mut Vec<u8>, length: u32, kind: u32)
    ensures
        final(v)@ == old(v)@ + header_bytes(length, kind),
{
    push_u32(v, length);
    push_u32(v, kind);
    assert(final(v)@ =~= old(v)@ + header_bytes(length, kind));
}

/// Request to set the system volume.
pub fn encode_volume_request(volume: u32) -> (r: Vec<u8>)
    ensures
        r@ == volume_request(volume),
{
    let mut v: Vec<u8> = Vec::new();
    push_header(&mut v, VOLUME_REQUEST_LEN, SERVER_SET_SYSTEM_VOLUME);
    push_u32(&mut v, volume);
    assert(v@ =~= volume_request(volume));
    v
}

/// Request to set the system mute state.
pub fn encode_mute_request(mute: bool) -> (r: Vec<u8>)
    ensures
        r@ == mute_request(mute),
{
    let mut v: Vec<u8> = Vec::new();
    push_header(&mut v, MUTE_REQUEST_LEN, SERVER_SET_SYSTEM_MUTE);
    push_u32(&mut v, if mute { 1u32 } else { 0u32 });
    assert(v@ =~= mute_request(mute));
    v
}

/// Request to refresh the debug information in the server state.
pub fn encode_debug_info_request() -> (r: Vec<u8>)
    ensures
        r@ == debug_info_request(),
{
    let mut v: Vec<u8> = Vec::new();
    push_header(&mut v, HEADER_LEN, SERVER_DUMP_AUDIO_THREAD);
    assert(v@ =~= debug_info_request());
    v
}

fn push_packed_format(v: &mut Vec<u8>, p: &PackedFormat)
    ensures
        final(v)@ == old(v)@ + packed_format_bytes(*p),
{
    push_u32(v, p.format_code);
    push_u32(v, p.frame_rate);
    push_u32(v, p.num_channels);
    let ghost start = v@;
    let mut i: usize = 0;
    while i < CHANNEL_LAYOUT_LEN
        invariant
            i <= CHANNEL_LAYOUT_LEN,
            v@ == start + channel_layout(p.num_channels).subrange(0, i as int),
        decreases CHANNEL_LAYOUT_LEN - i,
    {
        if (i as u32) < p.num_channels {
            v.push(i as u8);
        } else {
            v.push(0xffu8);
        }
        assert(channel_layout(p.num_channels).subrange(0, i as int + 1) =~= channel_layout(
            p.num_channels,
        ).subrange(0, i as int).push(channel_layout(p.num_channels)[i as int]));
        i = i + 1;
    }
    assert(channel_layout(p.num_channels).subrange(0, CHANNEL_LAYOUT_LEN as int)
        =~= channel_layout(p.num_channels));
    assert(final(v)@ =~= old(v)@ + packed_format_bytes(*p));
}

/// Encodes a connect-stream request.
pub fn encode_connect_request(c: &ConnectRequest) -> (r: Vec<u8>)
    ensures
        r@ == connect_request_bytes(*c),
{
    let mut v: Vec<u8> = Vec::new();
    push_header(&mut v, CONNECT_REQUEST_LEN, SERVER_CONNECT_STREAM);
    push_u32(&mut v, PROTOCOL_VERSION);
    push_u32(&mut v, c.direction);
    push_u32(&mut v, c.stream_id);
    push_u32(&mut v, c.stream_type);
    push_u32(&mut v, c.block_size);
    push_u32(&mut v, c.block_size);
    push_u32(&mut v, 0);
    push_packed_format(&mut v, &c.format);
    push_u32(&mut v, c.dev_idx);
    push_u64(&mut v, c.effects);
    push_u32(&mut v, c.client_type);
    push_u64(&mut v, c.client_shm_size);
    push_u64(&mut v, c.buffer_offset_0);
    push_u64(&mut v, c.buffer_offset_1);
    assert(v@ =~= connect_request_bytes(*c));
    v
}

/// A decoded message from the daemon on the control socket.
#[derive(Clone, Copy, Debug, PartialEq, Eq, Structural)]
pub enum ServerReply {
    /// The session is registered; carries the descriptor of the server state region.
    Connected { client_id: u32, server_state_fd: i32 },
    /// A stream was connected; carries the header and samples descriptors.
    StreamConnected {
        err: i32,
        stream_id: u32,
        format: PackedFormat,
        header_fd: i32,
        samples_fd: i32,
    },
    /// Fresh debug information is in the server state.
    DebugInfoReady,
}

/// What the bytes `b`, received with descriptors `fds`, decode to.
pub open spec fn decode_reply(b: Seq<u8>, fds: Seq<i32>) -> Result<ServerReply, MessageError> {
    if b.len() < HEADER_LEN {
        Err(MessageError::ShortMessage)
    } else if u32_at(b, 0) as int != b.len() {
        Err(MessageError::LengthMismatch)
    } else {
        let kind = u32_at(b, 4);
        if kind == CLIENT_CONNECTED {
            if b.len() < CONNECTED_REPLY_LEN {
                Err(MessageError::ShortMessage)
            } else if fds.len() < 1 {
                Err(MessageError::MissingFd)
            } else {
                Ok(ServerReply::Connected { client_id: u32_at(b, 8), server_state_fd: fds[0] })
            }
        } else if kind == CLIENT_STREAM_CONNECTED {
            if b.len() < STREAM_CONNECTED_REPLY_LEN {
                Err(MessageError::ShortMessage)
            } else if fds.len() < 2 {
                Err(MessageError::MissingFd)
            } else {
                Ok(
                    ServerReply::StreamConnected {
                        err: #[verifier::truncate] (u32_at(b, 8) as i32),
                        stream_id: u32_at(b, 12),
                        format: PackedFormat {
                            format_code: u32_at(b, 16),
                            frame_rate: u32_at(b, 20),
                            num_channels: u32_at(b, 24),
                        },
                        header_fd: fds[0],
                        samples_fd: fds[1],
                    },
                )
            }
        } else if kind == CLIENT_AUDIO_DEBUG_INFO_READY {
            Ok(ServerReply::DebugInfoReady)
        } else {
            Err(MessageError::UnknownKind(kind))
        }
    }
}

/// Decodes one message read from the control socket together with the
/// descriptors that came with it.
pub fn decode_server_reply(b: &Vec<u8>, fds: &Vec<i32>) -> (r: Result<ServerReply, MessageError>)
    ensures
        r == decode_reply(b@, fds@),
{
    let n: usize = b.len();
    if n < HEADER_LEN as usize {
        return Err(MessageError::ShortMessage);
    }
    let length = read_u32(b, 0);
    if length as u64 != n as u64 {
        return Err(MessageError::LengthMismatch);
    }
    let kind = read_u32(b, 4);
    if kind == CLIENT_CONNECTED {
        if n < CONNECTED_REPLY_LEN as usize {
            Err(MessageError::ShortMessage)
        } else if fds.len() < 1 {
            Err(MessageError::MissingFd)
        } else {
            Ok(ServerReply::Connected { client_id: read_u32(b, 8), server_state_fd: fds[0] })
        }
    } else if kind == CLIENT_STREAM_CONNECTED {
        if n < STREAM_CONNECTED_REPLY_LEN as usize {
            Err(MessageError::ShortMessage)
        } else if fds.len() < 2 {
            Err(MessageError::MissingFd)
        } else {
            Ok(
                ServerReply::StreamConnected {
                    err: #[verifier::truncate] (read_u32(b, 8) as i32),
                    stream_id: read_u32(b, 12),
                    format: PackedFormat {
                        format_code: read_u32(b, 16),
                        frame_rate: read_u32(b, 20),
                        num_channels: read_u32(b, 24),
                    },
                    header_fd: fds[0],
                    samples_fd: fds[1],
                },
            )
        }
    } else if kind == CLIENT_AUDIO_DEBUG_INFO_READY {
        Ok(ServerReply::DebugInfoReady)
    } else {
        Err(MessageError::UnknownKind(kind))
    }
}

/// Signals exchanged over a stream's own socket.
#[derive(Clone, Copy, Debug, PartialEq, Eq, Structural)]
pub enum AudioMessageId {
    /// Daemon to client: the daemon wants this many frames of playback.
    RequestData,
    /// Daemon to client: captured frames are ready. Client to daemon:
    /// playback frames were written.
    DataReady,
    /// Client to daemon: captured frames were read.
    DataCaptured,
}

/// One signal on a stream's socket.
#[derive(Clone, Copy, Debug, PartialEq, Eq, Structural)]
pub struct AudioMessage {
    pub id: AudioMessageId,
    pub error: i32,
    pub frames: u32,
}

/// Size in bytes of an encoded audio message.
pub const AUDIO_MESSAGE_LEN: usize = 12;

pub open spec fn audio_id_code(id: AudioMessageId) -> u32 {
    match id {
        AudioMessageId::RequestData => 0,
        AudioMessageId::DataReady => 1,
        AudioMessageId::DataCaptured => 2,
    }
}

pub open spec fn audio_message_bytes(m: AudioMessage) -> Seq<u8> {
    le32(audio_id_code(m.id)) + le32(#[verifier::truncate] (m.error as u32)) + le32(m.frames)
}

pub open spec fn decode_audio(b: Seq<u8>) -> Result<AudioMessage, MessageError> {
    if b.len() < AUDIO_MESSAGE_LEN {
        Err(MessageError::ShortMessage)
    } else if b.len() > AUDIO_MESSAGE_LEN {
        Err(MessageError::LengthMismatch)
    } else {
        let code = u32_at(b, 0);
        let m = |id: AudioMessageId|
            AudioMessage { id, error: #[verifier::truncate] (u32_at(b, 4) as i32), frames: u32_at(b, 8) };
        if code == 0 {
            Ok(m(AudioMessageId::RequestData))
        } else if code == 1 {
            Ok(m(AudioMessageId::DataReady))
        } else if code == 2 {
            Ok(m(AudioMessageId::DataCaptured))
        } else {
            Err(MessageError::UnknownKind(code))
        }
    }
}

/// Encodes a signal for a stream's socket.
pub fn encode_audio_message(m: &AudioMessage) -> (r: Vec<u8>)
    ensures
        r@ == audio_message_bytes(*m),
{
    let code: u32 = match m.id {
        AudioMessageId::RequestData => 0,
        AudioMessageId::DataReady => 1,
        AudioMessageId::DataCaptured => 2,
    };
    let mut v: Vec<u8> = Vec::new();
    push_u32(&mut v, code);
    push_u32(&mut v, #[verifier::truncate] (m.error as u32));
    push_u32(&mut v, m.frames);
    assert(v@ =~= audio_message_bytes(*m));
    v
}

/// Decodes a signal read from a stream's socket.
pub fn decode_audio_message(b: &Vec<u8>) -> (r: Result<AudioMessage, MessageError>)
    ensures
        r == decode_audio(b@),
{
    let n: usize = b.len();
    if n < AUDIO_MESSAGE_LEN {
        return Err(MessageError::ShortMessage);
    }
    if n > AUDIO_MESSAGE_LEN {
        return Err(MessageError::LengthMismatch);
    }
    let code = read_u32(b, 0);
    let error = #[verifier::truncate] (read_u32(b, 4) as i32);
    let frames = read_u32(b, 8);
    if code == 0 {
        Ok(AudioMessage { id: AudioMessageId::RequestData, error, frames })
    } else if code == 1 {
        Ok(AudioMessage { id: AudioMessageId::DataReady, error, frames })
    } else if code == 2 {
        Ok(AudioMessage { id: AudioMessageId::DataCaptured, error, frames })
    } else {
        Err(MessageError::UnknownKind(code))
    }
}

/// Decoding an encoded audio message gives the message back.
pub proof fn lemma_audio_message_round_trip(m: AudioMessage)
    ensures
        decode_audio(audio_message_bytes(m)) == Ok::<AudioMessage, MessageError>(m),
{
    let b = audio_message_bytes(m);
    let c = audio_id_code(m.id);
    let e = #[verifier::truncate] (m.error as u32);
    lemma_u32_round_trip(c);
    lemma_u32_round_trip(e);
    lemma_u32_round_trip(m.frames);
    assert(b.subrange(0, 4) =~= le32(c));
    assert(b.subrange(4, 8) =~= le32(e));
    assert(b.subrange(8, 12) =~= le32(m.frames));
    assert(u32_at(b, 0) == u32_at(le32(c), 0));
    assert(u32_at(b, 4) == u32_at(le32(e), 0));
    assert(u32_at(b, 8) == u32_at(le32(m.frames), 0));
    let x = m.error;
    assert(((x as u32) as i32) == x) by (bit_vector);
}

} // verus!
