//! Client side of the audio server protocol: session bookkeeping, the control
//! messages exchanged with the daemon, the per-stream connection handshake and
//! the acquire/commit cycle over a stream's shared ring buffer.
//!
//! Socket and shared-memory I/O stay with the caller: the library builds the
//! bytes to send, decodes the bytes received and decides what happens next.

pub mod dlc;
pub mod error;
pub mod format;
pub mod generator;
pub mod handshake;
pub mod message;
pub mod session;
pub mod stream;
pub mod stream_id;
pub mod wire;

pub use crate::dlc::CrasDlcId;
pub use crate::error::{Error, MessageError, StreamError};
pub use crate::format::{
    effects_to_mask, CrasClientType, CrasSocketType, CrasStreamType, SampleFormat,
    StreamDirection, StreamEffect, StreamFormat,
};
pub use crate::generator::CrasStreamSourceGenerator;
pub use crate::handshake::{HandshakeStep, PendingStream};
pub use crate::message::{
    decode_audio_message, decode_server_reply, encode_audio_message, encode_connect_request,
    encode_debug_info_request, encode_mute_request, encode_volume_request, pack_format,
    AudioMessage, AudioMessageId, ConnectRequest, PackedFormat, ServerReply, AUDIO_MESSAGE_LEN,
    NO_DEVICE, PROTOCOL_VERSION,
};
pub use crate::session::{CrasClient, CrasIodevInfo, CrasIonodeInfo, ServerState, StreamPlan};
pub use crate::stream::{BufferHandle, CrasStream, NoopCaptureStream};
pub use crate::stream_id::{server_stream_id, STREAM_COUNTER_LIMIT};
