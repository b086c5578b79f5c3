use vstd::prelude::*;
use crate::error::{Error, MessageError, StreamError};
use crate::format::{
    SampleFormat, client_type_code, direction_code, effect_mask, effects_to_mask, stream_type_code,
    CrasClientType, CrasStreamType, StreamDirection, StreamEffect, StreamFormat,
};
use crate::handshake::{answer_error, connected_view, is_answer, PendingStream, PendingView};
use crate::message::{
    connect_request_bytes, debug_info_request, encode_connect_request, encode_debug_info_request,
    encode_mute_request, encode_volume_request, mute_request, pack_format, packed_of,
    volume_request, ConnectRequest, ServerReply, NO_DEVICE,
};
use crate::stream::NoopCaptureStream;
use crate::stream_id::{
    lemma_stream_ids_increase, server_stream_id, stream_id_of, STREAM_COUNTER_LIMIT,
};

verus! {

/// An audio device as the server state lists it.
#[derive(Debug)]
pub struct CrasIodevInfo {
    pub index: u32,
    pub name: String,
}

/// A node (a jack, a speaker, a microphone) of an audio device.
#[derive(Debug)]
pub struct CrasIonodeInfo {
    pub iodev_index: u32,
    pub ionode_index: u32,
    pub plugged: bool,
    pub active: bool,
    pub kind_name: String,
    pub name: String,
}

/// Values read from the server state region the daemon publishes.
#[derive(Debug)]
pub struct ServerState {
    pub volume: u32,
    pub mute: bool,
    pub output_devices: Vec<CrasIodevInfo>,
    pub input_devices: Vec<CrasIodevInfo>,
    pub output_nodes: Vec<CrasIonodeInfo>,
    pub input_nodes: Vec<CrasIonodeInfo>,
}

impl ServerState {
    /// A state with the given volume and mute flag and no devices.
    pub fn new(volume: u32, mute: bool) -> (r: ServerState)
        ensures
            r.volume == volume,
            r.mute == mute,
            r.output_devices@.len() == 0,
            r.input_devices@.len() == 0,
            r.output_nodes@.len() == 0,
            r.input_nodes@.len() == 0,
    {
        ServerState {
            volume,
            mute,
            output_devices: Vec::new(),
            input_devices: Vec::new(),
            output_nodes: Vec::new(),
            input_nodes: Vec::new(),
        }
    }
}

fn copy_devices(v: &Vec<CrasIodevInfo>) -> (r: Vec<CrasIodevInfo>)
    ensures
        r@ == v@,
{
    let mut r: Vec<CrasIodevInfo> = Vec::new();
    let mut i: usize = 0;
    while i < v.len()
        invariant
            i <= v@.len(),
            r@ == v@.subrange(0, i as int),
        decreases v@.len() - i,
    {
        let d = &v[i];
        r.push(CrasIodevInfo { index: d.index, name: d.name.clone() });
        assert(r@ =~= v@.subrange(0, i as int + 1));
        i = i + 1;
    }
    assert(v@.subrange(0, i as int) =~= v@);
    r
}

fn copy_nodes(v: &Vec<CrasIonodeInfo>) -> (r: Vec<CrasIonodeInfo>)
    ensures
        r@ == v@,
{
    let mut r: Vec<CrasIonodeInfo> = Vec::new();
    let mut i: usize = 0;
    while i < v.len()
        invariant
            i <= v@.len(),
            r@ == v@.subrange(0, i as int),
        decreases v@.len() - i,
    {
        let n = &v[i];
        r.push(
            CrasIonodeInfo {
                iodev_index: n.iodev_index,
                ionode_index: n.ionode_index,
                plugged: n.plugged,
                active: n.active,
                kind_name: n.kind_name.clone(),
                name: n.name.clone(),
            },
        );
        assert(r@ =~= v@.subrange(0, i as int + 1));
        i = i + 1;
    }
    assert(v@.subrange(0, i as int) =~= v@);
    r
}

/// The abstract state of a session.
pub struct ClientView {
    pub client_id: u32,
    /// Counter of the next stream id; never handed out twice.
    pub next_stream_id: u32,
    pub cras_capture: bool,
    pub client_type: CrasClientType,
    pub stream_type: CrasStreamType,
    pub server_state: ServerState,
}

/// One client's session with the audio daemon.
pub struct CrasClient {
    client_id: u32,
    next_stream_id: u32,
    cras_capture: bool,
    client_type: CrasClientType,
    stream_type: CrasStreamType,
    server_state: ServerState,
}

impl View for CrasClient {
    type V = ClientView;

    closed spec fn view(&self) -> ClientView {
        ClientView {
            client_id: self.client_id,
            next_stream_id: self.next_stream_id,
            cras_capture: self.cras_capture,
            client_type: self.client_type,
            stream_type: self.stream_type,
            server_state: self.server_state,
        }
    }
}

/// What a stream request turns into.
pub enum StreamPlan {
    /// Capture is off for this session: a silent stand-in, and nothing is
    /// sent to the daemon.
    Noop(NoopCaptureStream),
    /// Send these bytes on the control socket, then complete the handshake.
    Connect(PendingStream, Vec<u8>),
}

/// A session just registered as `client_id`: no stream yet, capture off,
/// default types, and nothing read from the server state.
pub open spec fn initial_session(c: ClientView, client_id: u32) -> bool {
    &&& c.client_id == client_id
    &&& c.next_stream_id == 0
    &&& !c.cras_capture
    &&& c.client_type == CrasClientType::Unknown
    &&& c.stream_type == CrasStreamType::Default
    &&& c.server_state.volume == 0
    &&& !c.server_state.mute
    &&& c.server_state.output_devices@.len() == 0
    &&& c.server_state.input_devices@.len() == 0
    &&& c.server_state.output_nodes@.len() == 0
    &&& c.server_state.input_nodes@.len() == 0
}

/// The outcome of waiting for one reply: `None` when the channel ended.
pub open spec fn expect_reply(
    reply: Option<Result<ServerReply, MessageError>>,
) -> Result<ServerReply, Error> {
    match reply {
        None => Err(Error::UnexpectedExit),
        Some(Err(e)) => Err(Error::CrasClientMessageError(e)),
        Some(Ok(r)) => Ok(r),
    }
}

/// The connect request a session in state `c` sends for the given stream.
pub open spec fn connect_request_of(
    c: ClientView,
    stream_id: u32,
    device_index: Option<u32>,
    block_size: u32,
    direction: StreamDirection,
    format: StreamFormat,
    effects: Seq<StreamEffect>,
    client_shm_size: u64,
    buffer_offsets: [u64; 2],
) -> ConnectRequest {
    ConnectRequest {
        direction: direction_code(direction),
        stream_id,
        stream_type: stream_type_code(c.stream_type),
        block_size,
        format: packed_of(format),
        dev_idx: match device_index {
            Some(d) => d,
            None => NO_DEVICE,
        },
        effects: effect_mask(effects),
        client_type: client_type_code(c.client_type),
        client_shm_size,
        buffer_offset_0: buffer_offsets@[0],
        buffer_offset_1: buffer_offsets@[1],
    }
}

/// The block size a `usize` buffer size stands for on the wire; one that
/// does not fit counts as no block at all.
pub open spec fn block_of(buffer_size: usize) -> u32 {
    if buffer_size <= u32::MAX {
        buffer_size as u32
    } else {
        0
    }
}

/// What a stream request returns and leaves behind, from session state `c`
/// to `c2`: a zero block size is refused, a used-up counter is refused, and
/// otherwise a fresh stream id goes into the pending stream and the request.
pub open spec fn connect_outcome(
    c: ClientView,
    c2: ClientView,
    r: Result<(PendingView, Seq<u8>), Error>,
    device_index: Option<u32>,
    block_size: u32,
    direction: StreamDirection,
    format: StreamFormat,
    effects: Seq<StreamEffect>,
    client_shm_size: u64,
    buffer_offsets: [u64; 2],
) -> bool {
    if block_size == 0 {
        r == Err::<(PendingView, Seq<u8>), Error>(
            Error::CrasStreamError(StreamError::InvalidBlockSize),
        ) && c2 == c
    } else if c.next_stream_id >= STREAM_COUNTER_LIMIT {
        r == Err::<(PendingView, Seq<u8>), Error>(
            Error::CrasStreamError(StreamError::StreamIdsExhausted),
        ) && c2 == c
    } else {
        let id = stream_id_of(c.client_id, c.next_stream_id);
        &&& r == Ok::<(PendingView, Seq<u8>), Error>(
            (
                PendingView { stream_id: id, direction, format, block_size },
                connect_request_bytes(
                    connect_request_of(
                        c,
                        id,
                        device_index,
                        block_size,
                        direction,
                        format,
                        effects,
                        client_shm_size,
                        buffer_offsets,
                    ),
                ),
            ),
        )
        &&& c2 == ClientView { next_stream_id: (c.next_stream_id + 1) as u32, ..c }
    }
}

pub open spec fn request_view(r: Result<(PendingStream, Vec<u8>), Error>) -> Result<
    (PendingView, Seq<u8>),
    Error,
> {
    match r {
        Ok((p, b)) => Ok((p@, b@)),
        Err(e) => Err(e),
    }
}

/// The connect request inside a plan; `None` for the silent stand-in.
pub open spec fn plan_request(r: Result<StreamPlan, Error>) -> Option<
    Result<(PendingView, Seq<u8>), Error>,
> {
    match r {
        Ok(StreamPlan::Connect(p, b)) => Some(Ok((p@, b@))),
        Ok(StreamPlan::Noop(_)) => None,
        Err(e) => Some(Err(e)),
    }
}

/// The session in state `c` hands out `id` and moves to state `c2`.
pub open spec fn issues_id(c: ClientView, c2: ClientView, id: u32) -> bool {
    &&& c.next_stream_id < STREAM_COUNTER_LIMIT
    &&& id == stream_id_of(c.client_id, c.next_stream_id)
    &&& c2 == ClientView { next_stream_id: (c.next_stream_id + 1) as u32, ..c }
}

/// Stream ids of one session grow strictly: once the session has issued
/// `a`, an id `b` that it issues later, from any state that keeps its
/// session id and has not moved its counter back, is larger. Closing
/// streams in between changes nothing, as the counter never goes back.
pub proof fn lemma_session_ids_increase(
    c1: ClientView,
    c2: ClientView,
    c3: ClientView,
    c4: ClientView,
    a: u32,
    b: u32,
)
    requires
        issues_id(c1, c2, a),
        issues_id(c3, c4, b),
        c3.client_id == c2.client_id,
        c3.next_stream_id >= c2.next_stream_id,
    ensures
        a < b,
{
    lemma_stream_ids_increase(c1.client_id, c1.next_stream_id, c3.next_stream_id);
}

/// A stream request that was prepared and then answered with acceptance
/// yields a stream with exactly the requested direction, format and block
/// size, under the id the request carried, and the answer carried the
/// requested format.
pub proof fn lemma_handshake_keeps_request(
    c: ClientView,
    c2: ClientView,
    r: Result<(PendingView, Seq<u8>), Error>,
    device_index: Option<u32>,
    block_size: u32,
    direction: StreamDirection,
    format: StreamFormat,
    effects: Seq<StreamEffect>,
    client_shm_size: u64,
    buffer_offsets: [u64; 2],
    reply: ServerReply,
)
    requires
        connect_outcome(
            c,
            c2,
            r,
            device_index,
            block_size,
            direction,
            format,
            effects,
            client_shm_size,
            buffer_offsets,
        ),
        r is Ok,
        is_answer(r.unwrap().0, reply),
        answer_error(r.unwrap().0, reply) is None,
    ensures
        connected_view(r.unwrap().0).format == format,
        connected_view(r.unwrap().0).direction == direction,
        connected_view(r.unwrap().0).block_size == block_size,
        connected_view(r.unwrap().0).stream_id == stream_id_of(c.client_id, c.next_stream_id),
        (reply matches ServerReply::StreamConnected { format: f, .. } && f == packed_of(format)),
{
}

impl CrasClient {
    #[verifier::type_invariant]
    spec fn inv(&self) -> bool {
        self.next_stream_id <= STREAM_COUNTER_LIMIT
    }

    /// Starts a session from the first reply on a fresh control socket,
    /// which must register the client.
    pub fn from_connect_reply(reply: Option<Result<ServerReply, MessageError>>) -> (r: Result<
        CrasClient,
        Error,
    >)
        ensures
            expect_reply(reply) matches Err(e) ==> r == Err::<CrasClient, Error>(e),
            expect_reply(reply) matches Ok(m) ==> match m {
                ServerReply::Connected { client_id, .. } => r matches Ok(c) && initial_session(
                    c@,
                    client_id,
                ),
                _ => r == Err::<CrasClient, Error>(Error::MessageTypeError),
            },
    {
        match reply {
            None => Err(Error::UnexpectedExit),
            Some(Err(e)) => Err(Error::CrasClientMessageError(e)),
            Some(Ok(ServerReply::Connected { client_id, .. })) => Ok(
                CrasClient {
                    client_id,
                    next_stream_id: 0,
                    cras_capture: false,
                    client_type: CrasClientType::Unknown,
                    stream_type: CrasStreamType::Default,
                    server_state: ServerState::new(0, false),
                },
            ),
            Some(Ok(_)) => Err(Error::MessageTypeError),
        }
    }

    pub fn client_id(&self) -> (r: u32)
        ensures
            r == self@.client_id,
    {
        self.client_id
    }

    pub fn is_capture_enabled(&self) -> (r: bool)
        ensures
            r == self@.cras_capture,
    {
        self.cras_capture
    }

    /// Allows capture streams to reach the daemon.
    pub fn enable_cras_capture(&mut self)
        ensures
            final(self)@ == (ClientView { cras_capture: true, ..old(self)@ }),
    {
        proof {
            use_type_invariant(&*self);
        }
        self.cras_capture = true;
    }

    /// Sets the client type reported with every later stream request.
    pub fn set_client_type(&mut self, client_type: CrasClientType)
        ensures
            final(self)@ == (ClientView { client_type, ..old(self)@ }),
    {
        proof {
            use_type_invariant(&*self);
        }
        self.client_type = client_type;
    }

    /// Sets the stream type reported with every later stream request.
    pub fn set_stream_type(&mut self, stream_type: CrasStreamType)
        ensures
            final(self)@ == (ClientView { stream_type, ..old(self)@ }),
    {
        proof {
            use_type_invariant(&*self);
        }
        self.stream_type = stream_type;
    }

    /// The request that sets the system volume; no reply follows it.
    pub fn set_system_volume(&self, volume: u32) -> (r: Vec<u8>)
        ensures
            r@ == volume_request(volume),
    {
        encode_volume_request(volume)
    }

    /// The request that sets the system mute state; no reply follows it.
    pub fn set_system_mute(&self, mute: bool) -> (r: Vec<u8>)
        ensures
            r@ == mute_request(mute),
    {
        encode_mute_request(mute)
    }

    /// Records the values last read from the server state region.
    pub fn update_server_state(&mut self, state: ServerState)
        ensures
            final(self)@ == (ClientView { server_state: state, ..old(self)@ }),
    {
        proof {
            use_type_invariant(&*self);
        }
        self.server_state = state;
    }

    /// The system volume as the server state last showed it.
    pub fn get_system_volume(&self) -> (r: u32)
        ensures
            r == self@.server_state.volume,
    {
        self.server_state.volume
    }

    /// The system mute state as the server state last showed it.
    pub fn get_system_mute(&self) -> (r: bool)
        ensures
            r == self@.server_state.mute,
    {
        self.server_state.mute
    }

    /// The output devices the server state last listed.
    pub fn output_devices(&self) -> (r: Vec<CrasIodevInfo>)
        ensures
            r@ == self@.server_state.output_devices@,
    {
        copy_devices(&self.server_state.output_devices)
    }

    /// The input devices the server state last listed.
    pub fn input_devices(&self) -> (r: Vec<CrasIodevInfo>)
        ensures
            r@ == self@.server_state.input_devices@,
    {
        copy_devices(&self.server_state.input_devices)
    }

    /// The output nodes the server state last listed.
    pub fn output_nodes(&self) -> (r: Vec<CrasIonodeInfo>)
        ensures
            r@ == self@.server_state.output_nodes@,
    {
        copy_nodes(&self.server_state.output_nodes)
    }

    /// The input nodes the server state last listed.
    pub fn input_nodes(&self) -> (r: Vec<CrasIonodeInfo>)
        ensures
            r@ == self@.server_state.input_nodes@,
    {
        copy_nodes(&self.server_state.input_nodes)
    }

    /// The request that asks the daemon to refresh its debug information.
    pub fn audio_debug_info_request(&self) -> (r: Vec<u8>)
        ensures
            r@ == debug_info_request(),
    {
        encode_debug_info_request()
    }

    /// Judges the one reply that follows the debug information request: only
    /// a debug-info-ready reply lets the caller read the information.
    pub fn get_audio_debug_info(&self, reply: Option<Result<ServerReply, MessageError>>) -> (r:
        Result<(), Error>)
        ensures
            expect_reply(reply) matches Err(e) ==> r == Err::<(), Error>(e),
            expect_reply(reply) matches Ok(m) ==> (r is Ok <==> m is DebugInfoReady),
            expect_reply(reply) matches Ok(m) ==> (r is Err ==> r == Err::<(), Error>(
                Error::MessageTypeError,
            )),
    {
        match reply {
            None => Err(Error::UnexpectedExit),
            Some(Err(e)) => Err(Error::CrasClientMessageError(e)),
            Some(Ok(ServerReply::DebugInfoReady)) => Ok(()),
            Some(Ok(_)) => Err(Error::MessageTypeError),
        }
    }

    /// The daemon-side id of the stream with counter value `stream_id`.
    pub fn server_stream_id(&self, stream_id: u32) -> (r: u32)
        ensures
            r == stream_id_of(self@.client_id, stream_id),
    {
        server_stream_id(self.client_id, stream_id)
    }

    /// Hands out the next stream id and advances the counter; once the
    /// counter is used up, no id is handed out again.
    pub fn next_server_stream_id(&mut self) -> (r: Result<u32, Error>)
        ensures
            old(self)@.next_stream_id < STREAM_COUNTER_LIMIT ==> (r matches Ok(id) && issues_id(
                old(self)@,
                final(self)@,
                id,
            )),
            old(self)@.next_stream_id >= STREAM_COUNTER_LIMIT ==> r == Err::<u32, Error>(
                Error::CrasStreamError(StreamError::StreamIdsExhausted),
            ) && final(self)@ == old(self)@,
    {
        proof {
            use_type_invariant(&*self);
        }
        if self.next_stream_id >= STREAM_COUNTER_LIMIT {
            return Err(Error::CrasStreamError(StreamError::StreamIdsExhausted));
        }
        let res = self.next_stream_id;
        self.next_stream_id = self.next_stream_id + 1;
        Ok(server_stream_id(self.client_id, res))
    }

    /// Allocates a stream id and builds the connect-stream request for it.
    pub fn prepare_connect_stream(
        &mut self,
        device_index: Option<u32>,
        block_size: u32,
        direction: StreamDirection,
        format: StreamFormat,
        effects: &Vec<StreamEffect>,
        client_shm_size: u64,
        buffer_offsets: [u64; 2],
    ) -> (r: Result<(PendingStream, Vec<u8>), Error>)
        ensures
            connect_outcome(
                old(self)@,
                final(self)@,
                request_view(r),
                device_index,
                block_size,
                direction,
                format,
                effects@,
                client_shm_size,
                buffer_offsets,
            ),
    {
        if block_size == 0 {
            return Err(Error::CrasStreamError(StreamError::InvalidBlockSize));
        }
        let stream_id = match self.next_server_stream_id() {
            Ok(id) => id,
            Err(e) => {
                return Err(e);
            },
        };
        let dev_idx = match device_index {
            Some(d) => d,
            None => NO_DEVICE,
        };
        let request = ConnectRequest {
            direction: direction.code(),
            stream_id,
            stream_type: self.stream_type.code(),
            block_size,
            format: pack_format(&format),
            dev_idx,
            effects: effects_to_mask(effects),
            client_type: self.client_type.code(),
            client_shm_size,
            buffer_offset_0: buffer_offsets[0],
            buffer_offset_1: buffer_offsets[1],
        };
        let bytes = encode_connect_request(&request);
        Ok((PendingStream::new(stream_id, direction, format, block_size), bytes))
    }

    /// Requests a stream through the daemon. Capture needs capture enabled.
    pub fn create_stream(
        &mut self,
        device_index: Option<u32>,
        block_size: u32,
        direction: StreamDirection,
        format: StreamFormat,
        effects: &Vec<StreamEffect>,
    ) -> (r: Result<(PendingStream, Vec<u8>), Error>)
        requires
            direction == StreamDirection::Playback || old(self)@.cras_capture,
        ensures
            connect_outcome(
                old(self)@,
                final(self)@,
                request_view(r),
                device_index,
                block_size,
                direction,
                format,
                effects@,
                0,
                [0u64, 0u64],
            ),
    {
        self.prepare_connect_stream(device_index, block_size, direction, format, effects, 0, [0, 0])
    }

    /// Requests a playback stream on the daemon's default device.
    pub fn new_playback_stream(
        &mut self,
        num_channels: usize,
        format: SampleFormat,
        frame_rate: u32,
        buffer_size: usize,
    ) -> (r: Result<(PendingStream, Vec<u8>), Error>)
        ensures
            connect_outcome(
                old(self)@,
                final(self)@,
                request_view(r),
                None,
                block_of(buffer_size),
                StreamDirection::Playback,
                (StreamFormat { num_channels, format, frame_rate }),
                Seq::empty(),
                0,
                [0u64, 0u64],
            ),
    {
        let no_effects: Vec<StreamEffect> = Vec::new();
        assert(no_effects@ =~= Seq::<StreamEffect>::empty());
        self.create_stream(
            None,
            to_block(buffer_size),
            StreamDirection::Playback,
            StreamFormat { num_channels, format, frame_rate },
            &no_effects,
        )
    }

    /// Requests a playback stream pinned to the device at `device_index`.
    pub fn new_pinned_playback_stream(
        &mut self,
        device_index: u32,
        num_channels: usize,
        format: SampleFormat,
        frame_rate: u32,
        buffer_size: usize,
        effects: &Vec<StreamEffect>,
    ) -> (r: Result<(PendingStream, Vec<u8>), Error>)
        ensures
            connect_outcome(
                old(self)@,
                final(self)@,
                request_view(r),
                Some(device_index),
                block_of(buffer_size),
                StreamDirection::Playback,
                (StreamFormat { num_channels, format, frame_rate }),
                effects@,
                0,
                [0u64, 0u64],
            ),
    {
        self.create_stream(
            Some(device_index),
            to_block(buffer_size),
            StreamDirection::Playback,
            StreamFormat { num_channels, format, frame_rate },
            effects,
        )
    }

    /// Requests a capture stream; on a session without capture the result is
    /// a silent stand-in and nothing is sent to the daemon.
    pub fn new_capture_stream(
        &mut self,
        num_channels: usize,
        format: SampleFormat,
        frame_rate: u32,
        buffer_size: usize,
        effects: &Vec<StreamEffect>,
    ) -> (r: Result<StreamPlan, Error>)
        ensures
            !old(self)@.cras_capture ==> final(self)@ == old(self)@ && (r matches Ok(
                StreamPlan::Noop(n),
            ) && n == (NoopCaptureStream {
                format: StreamFormat { num_channels, format, frame_rate },
                buffer_size: block_of(buffer_size),
            })),
            old(self)@.cras_capture ==> (plan_request(r) matches Some(q) && connect_outcome(
                old(self)@,
                final(self)@,
                q,
                None,
                block_of(buffer_size),
                StreamDirection::Capture,
                (StreamFormat { num_channels, format, frame_rate }),
                effects@,
                0,
                [0u64, 0u64],
            )),
    {
        let fmt = StreamFormat { num_channels, format, frame_rate };
        let block = to_block(buffer_size);
        if !self.cras_capture {
            return Ok(StreamPlan::Noop(NoopCaptureStream::new(fmt, block)));
        }
        match self.create_stream(None, block, StreamDirection::Capture, fmt, effects) {
            Ok((p, b)) => Ok(StreamPlan::Connect(p, b)),
            Err(e) => Err(e),
        }
    }

    /// Requests a capture stream pinned to the device at `device_index`.
    /// Capture must be enabled.
    pub fn new_pinned_capture_stream(
        &mut self,
        device_index: u32,
        num_channels: usize,
        format: SampleFormat,
        frame_rate: u32,
        buffer_size: usize,
        effects: &Vec<StreamEffect>,
    ) -> (r: Result<(PendingStream, Vec<u8>), Error>)
        requires
            old(self)@.cras_capture,
        ensures
            connect_outcome(
                old(self)@,
                final(self)@,
                request_view(r),
                Some(device_index),
                block_of(buffer_size),
                StreamDirection::Capture,
                (StreamFormat { num_channels, format, frame_rate }),
                effects@,
                0,
                [0u64, 0u64],
            ),
    {
        self.create_stream(
            Some(device_index),
            to_block(buffer_size),
            StreamDirection::Capture,
            StreamFormat { num_channels, format, frame_rate },
            effects,
        )
    }

    /// Requests a stream whose samples live in memory the client shares with
    /// the daemon: `client_shm_size` bytes, with the two buffers at
    /// `buffer_offsets`. Capture on a session without capture yields the
    /// silent stand-in and sends nothing.
    pub fn new_stream(
        &mut self,
        direction: StreamDirection,
        num_channels: usize,
        format: SampleFormat,
        frame_rate: u32,
        buffer_size: usize,
        effects: &Vec<StreamEffect>,
        client_shm_size: u64,
        buffer_offsets: [u64; 2],
    ) -> (r: Result<StreamPlan, Error>)
        ensures
            direction == StreamDirection::Capture && !old(self)@.cras_capture ==> (final(self)@
                == old(self)@ && (r matches Ok(StreamPlan::Noop(n)) && n == (NoopCaptureStream {
                format: StreamFormat { num_channels, format, frame_rate },
                buffer_size: block_of(buffer_size),
            }))),
            direction == StreamDirection::Playback || old(self)@.cras_capture ==> (plan_request(
                r,
            ) matches Some(q) && connect_outcome(
                old(self)@,
                final(self)@,
                q,
                None,
                block_of(buffer_size),
                direction,
                (StreamFormat { num_channels, format, frame_rate }),
                effects@,
                client_shm_size,
                buffer_offsets,
            )),
    {
        let fmt = StreamFormat { num_channels, format, frame_rate };
        let block = to_block(buffer_size);
        if direction == StreamDirection::Capture && !self.cras_capture {
            return Ok(StreamPlan::Noop(NoopCaptureStream::new(fmt, block)));
        }
        match self.prepare_connect_stream(
            None,
            block,
            direction,
            fmt,
            effects,
            client_shm_size,
            buffer_offsets,
        ) {
            Ok((p, b)) => Ok(StreamPlan::Connect(p, b)),
            Err(e) => Err(e),
        }
    }
}

/// The block size of a `usize` buffer size; zero when it does not fit.
fn to_block(buffer_size: usize) -> (r: u32)
    ensures
        r == block_of(buffer_size),
{
    if buffer_size <= u32::MAX as usize {
        buffer_size as u32
    } else {
        0
    }
}

} // verus!
