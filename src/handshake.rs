use vstd::prelude::*;
use crate::error::{Error, StreamError};
use crate::format::{StreamDirection, StreamFormat};
use crate::message::{pack_format, packed_of, ServerReply};
use crate::stream::{CrasStream, StreamView};

verus! {

/// What a stream request asked for, while its reply is awaited.
pub struct PendingView {
    pub stream_id: u32,
    pub direction: StreamDirection,
    pub format: StreamFormat,
    pub block_size: u32,
}

/// A stream request that was sent and awaits the daemon's stream-connected
/// reply.
pub struct PendingStream {
    stream_id: u32,
    direction: StreamDirection,
    format: StreamFormat,
    block_size: u32,
}

impl View for PendingStream {
    type V = PendingView;

    closed spec fn view(&self) -> PendingView {
        PendingView {
            stream_id: self.stream_id,
            direction: self.direction,
            format: self.format,
            block_size: self.block_size,
        }
    }
}

/// Outcome of handing one reply to a pending handshake.
pub enum HandshakeStep {
    /// The reply concerns something else: keep waiting.
    Continue,
    /// The stream is connected.
    Connected(CrasStream),
    /// The daemon answered this request and the stream cannot be used.
    Failed(Error),
}

/// Whether `r` is the daemon's answer to the request `p`.
pub open spec fn is_answer(p: PendingView, r: ServerReply) -> bool {
    r matches ServerReply::StreamConnected { stream_id, .. } && stream_id == p.stream_id
}

/// Whether an answer accepts the request: no error, and exactly the format
/// that was asked for.
pub open spec fn answer_error(p: PendingView, r: ServerReply) -> Option<Error> {
    match r {
        ServerReply::StreamConnected { err, format, .. } => {
            if err != 0 {
                Some(Error::CrasStreamError(StreamError::ServerRejected(err)))
            } else if format != packed_of(p.format) {
                Some(Error::CrasStreamError(StreamError::FormatMismatch))
            } else {
                None
            }
        },
        _ => None,
    }
}

/// Position `k` holds the first answer to `p` among `replies`.
pub open spec fn first_answer_at(p: PendingView, replies: Seq<ServerReply>, k: int) -> bool {
    &&& 0 <= k < replies.len()
    &&& is_answer(p, replies[k])
    &&& forall|j: int| 0 <= j < k ==> !is_answer(p, #[trigger] replies[j])
}

/// The state of a stream that the handshake for `p` has just connected.
pub open spec fn connected_view(p: PendingView) -> StreamView {
    StreamView {
        stream_id: p.stream_id,
        direction: p.direction,
        format: p.format,
        block_size: p.block_size,
        cursor: 0,
        acquired: None,
        closed: false,
    }
}

impl PendingStream {
    #[verifier::type_invariant]
    spec fn inv(&self) -> bool {
        self.block_size > 0
    }

    pub closed spec fn well_formed(&self) -> bool {
        self.block_size > 0
    }

    pub(crate) fn new(
        stream_id: u32,
        direction: StreamDirection,
        format: StreamFormat,
        block_size: u32,
    ) -> (r: PendingStream)
        requires
            block_size > 0,
        ensures
            r@ == (PendingView { stream_id, direction, format, block_size }),
    {
        PendingStream { stream_id, direction, format, block_size }
    }

    pub fn stream_id(&self) -> (r: u32)
        ensures
            r == self@.stream_id,
    {
        self.stream_id
    }

    pub fn direction(&self) -> (r: StreamDirection)
        ensures
            r == self@.direction,
    {
        self.direction
    }

    pub fn format(&self) -> (r: StreamFormat)
        ensures
            r == self@.format,
    {
        self.format
    }

    pub fn block_size(&self) -> (r: u32)
        ensures
            r == self@.block_size,
            r > 0,
    {
        proof {
            use_type_invariant(self);
        }
        self.block_size
    }

    /// Takes one reply from the control socket. Replies that are not this
    /// request's stream-connected answer are passed over; the answer either
    /// connects the stream, with exactly the requested format, or fails it.
    pub fn on_reply(&self, reply: &ServerReply) -> (r: HandshakeStep)
        ensures
            !is_answer(self@, *reply) ==> r is Continue,
            is_answer(self@, *reply) && answer_error(self@, *reply) is Some ==> r
                == HandshakeStep::Failed(answer_error(self@, *reply).unwrap()),
            is_answer(self@, *reply) && answer_error(self@, *reply) is None ==> (r matches HandshakeStep::Connected(s) && s@ == connected_view(self@)),
    {
        proof {
            use_type_invariant(self);
        }
        match reply {
            ServerReply::StreamConnected { err, stream_id, format, .. } => {
                if *stream_id != self.stream_id {
                    HandshakeStep::Continue
                } else if *err != 0 {
                    HandshakeStep::Failed(Error::CrasStreamError(StreamError::ServerRejected(*err)))
                } else if *format != pack_format(&self.format) {
                    HandshakeStep::Failed(Error::CrasStreamError(StreamError::FormatMismatch))
                } else {
                    HandshakeStep::Connected(
                        CrasStream::new(
                            self.stream_id,
                            self.direction,
                            self.format,
                            self.block_size,
                        ),
                    )
                }
            },
            _ => HandshakeStep::Continue,
        }
    }

    /// Runs the handshake over the replies in the order they arrived: the
    /// first answer to this request decides, every reply before it is passed
    /// over. Returns the connected stream and the position of its answer; if
    /// no answer is among the replies the channel ended first.
    pub fn complete(&self, replies: &Vec<ServerReply>) -> (r: Result<(CrasStream, usize), Error>)
        ensures
            r matches Ok((s, k)) ==> first_answer_at(self@, replies@, k as int) && answer_error(
                self@,
                replies@[k as int],
            ) is None && s@ == connected_view(self@),
            r matches Err(e) ==> ((forall|j: int|
                0 <= j < replies@.len() ==> !is_answer(self@, #[trigger] replies@[j]))
                && e == Error::UnexpectedExit) || (exists|k: int|
                first_answer_at(self@, replies@, k) && answer_error(self@, replies@[k]) == Some(
                    e,
                )),
            (forall|j: int| 0 <= j < replies@.len() ==> !is_answer(self@, #[trigger] replies@[j]))
                ==> r matches Err(Error::UnexpectedExit),
            (exists|k: int|
                first_answer_at(self@, replies@, k) && answer_error(self@, replies@[k]) is None)
                ==> r is Ok,
    {
        let mut i: usize = 0;
        while i < replies.len()
            invariant
                i <= replies@.len(),
                forall|j: int| 0 <= j < i ==> !is_answer(self@, #[trigger] replies@[j]),
            decreases replies@.len() - i,
        {
            match self.on_reply(&replies[i]) {
                HandshakeStep::Continue => {},
                HandshakeStep::Connected(s) => {
                    return Ok((s, i));
                },
                HandshakeStep::Failed(e) => {
                    assert(first_answer_at(self@, replies@, i as int));
                    return Err(e);
                },
            }
            i = i + 1;
        }
        Err(Error::UnexpectedExit)
    }
}

} // verus!
