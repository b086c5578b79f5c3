use vstd::prelude::*;

verus! {

/// Why bytes received from the daemon could not be decoded.
#[derive(Clone, Copy, Debug, PartialEq, Eq, Structural)]
pub enum MessageError {
    /// Fewer bytes than the message kind needs.
    ShortMessage,
    /// The length in the header differs from the number of bytes received.
    LengthMismatch,
    /// The message kind carries descriptors that did not arrive with it.
    MissingFd,
    /// A message kind this client does not know.
    UnknownKind(u32),
}

/// Failures of stream setup and of the buffer cycle on a stream.
#[derive(Clone, Copy, Debug, PartialEq, Eq, Structural)]
pub enum StreamError {
    /// The daemon refused the stream with this error code.
    ServerRejected(i32),
    /// The daemon accepted the stream with another format than requested.
    FormatMismatch,
    /// A stream needs a block size of at least one frame.
    InvalidBlockSize,
    /// The session has handed out every stream id it can.
    StreamIdsExhausted,
    /// A commit was attempted with no buffer acquired.
    NoBufferAcquired,
    /// A buffer was requested while another one is still held.
    BufferAlreadyAcquired,
    /// A commit reported more frames than the buffer held.
    CommitTooLarge,
    /// The daemon's signal does not fit the stream's direction.
    UnexpectedAudioMessage,
    /// The daemon's readiness signal carried this error code.
    ServerError(i32),
}

/// Errors of the client library.
#[derive(Clone, Copy, Debug, PartialEq, Eq, Structural)]
pub enum Error {
    CrasClientMessageError(MessageError),
    CrasStreamError(StreamError),
    /// The server state region could not be read.
    CrasSysError,
    InvalidCrasSocket,
    /// A read or write on a socket failed, or the stream it belonged to
    /// is closed.
    IoError,
    /// A reply arrived that is not the one the caller waited for.
    MessageTypeError,
    /// The channel closed while a reply was awaited.
    UnexpectedExit,
}

impl Error {
    /// Text that describes the error.
    pub fn description(&self) -> (r: &'static str) {
        match self {
            Error::CrasClientMessageError(_) => "Invalid message from the server",
            Error::CrasStreamError(_) => "Stream error",
            Error::CrasSysError => "Server state error",
            Error::InvalidCrasSocket => "Invalid cras socket name",
            Error::IoError => "I/O error",
            Error::MessageTypeError => "Message type error",
            Error::UnexpectedExit => "Unexpected exit",
        }
    }
}

} // verus!
