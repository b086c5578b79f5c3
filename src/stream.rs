use vstd::prelude::*;
use crate::error::{Error, StreamError};
use crate::format::{StreamDirection, StreamFormat};
use crate::message::{AudioMessage, AudioMessageId};
use vstd::arithmetic::div_mod::{
    lemma_add_mod_noop_right, lemma_mod_bound, lemma_mod_self_0, lemma_small_mod,
};

verus! {

/// A view of the part of the ring buffer handed out for one transfer:
/// `frames` frames starting at frame `offset`.
#[derive(Clone, Copy, Debug, PartialEq, Eq, Structural)]
pub struct BufferHandle {
    pub offset: u32,
    pub frames: u32,
    pub direction: StreamDirection,
}

/// The abstract state of a connected stream.
pub struct StreamView {
    pub stream_id: u32,
    pub direction: StreamDirection,
    pub format: StreamFormat,
    /// Capacity of the ring buffer in frames.
    pub block_size: u32,
    /// Frame at which the next transfer starts.
    pub cursor: u32,
    /// The buffer handed out and not yet committed, if any.
    pub acquired: Option<BufferHandle>,
    pub closed: bool,
}

/// A stream connected to the daemon: the bookkeeping of its ring buffer.
pub struct CrasStream {
    stream_id: u32,
    direction: StreamDirection,
    format: StreamFormat,
    block_size: u32,
    cursor: u32,
    acquired: Option<BufferHandle>,
    closed: bool,
}

impl View for CrasStream {
    type V = StreamView;

    closed spec fn view(&self) -> StreamView {
        StreamView {
            stream_id: self.stream_id,
            direction: self.direction,
            format: self.format,
            block_size: self.block_size,
            cursor: self.cursor,
            acquired: self.acquired,
            closed: self.closed,
        }
    }
}

/// The signal the daemon sends when a buffer is due in direction `d`.
pub open spec fn ready_signal(d: StreamDirection) -> AudioMessageId {
    match d {
        StreamDirection::Playback => AudioMessageId::RequestData,
        StreamDirection::Capture => AudioMessageId::DataReady,
    }
}

/// The signal the client sends back after a transfer in direction `d`.
pub open spec fn commit_signal(d: StreamDirection) -> AudioMessageId {
    match d {
        StreamDirection::Playback => AudioMessageId::DataReady,
        StreamDirection::Capture => AudioMessageId::DataCaptured,
    }
}

pub open spec fn commit_message(d: StreamDirection, frames: u32) -> AudioMessage {
    AudioMessage { id: commit_signal(d), error: 0, frames }
}

pub open spec fn min_u32(a: u32, b: u32) -> u32 {
    if a <= b { a } else { b }
}

/// What `next_buffer` returns in state `s` on signal `m`.
pub open spec fn next_buffer_result(s: StreamView, m: AudioMessage) -> Result<BufferHandle, Error> {
    if s.closed {
        Err(Error::IoError)
    } else if s.acquired.is_some() {
        Err(Error::CrasStreamError(StreamError::BufferAlreadyAcquired))
    } else if m.id != ready_signal(s.direction) {
        Err(Error::CrasStreamError(StreamError::UnexpectedAudioMessage))
    } else if m.error != 0 {
        Err(Error::CrasStreamError(StreamError::ServerError(m.error)))
    } else {
        Ok(
            BufferHandle {
                offset: s.cursor,
                frames: min_u32(m.frames, (s.block_size - s.cursor) as u32),
                direction: s.direction,
            },
        )
    }
}

/// What `commit` returns in state `s` for `frames` frames.
pub open spec fn commit_result(s: StreamView, frames: u32) -> Result<AudioMessage, Error> {
    if s.closed {
        Err(Error::IoError)
    } else if s.acquired.is_none() {
        Err(Error::CrasStreamError(StreamError::NoBufferAcquired))
    } else if frames > s.acquired.unwrap().frames {
        Err(Error::CrasStreamError(StreamError::CommitTooLarge))
    } else {
        Ok(commit_message(s.direction, frames))
    }
}

/// The ring position after moving `frames` frames past `cursor`.
pub open spec fn advance(cursor: u32, frames: u32, capacity: u32) -> u32 {
    ((cursor + frames) % (capacity as int)) as u32
}

/// Total of a run of frame counts.
pub open spec fn sum_frames(ns: Seq<u32>) -> int
    decreases ns.len(),
{
    if ns.len() == 0 {
        0
    } else {
        sum_frames(ns.drop_last()) + ns.last()
    }
}

/// The cursor after committing the counts `ns`, one after another, from
/// `cursor` on a ring of `capacity` frames.
pub open spec fn cursor_after(cursor: u32, ns: Seq<u32>, capacity: u32) -> u32
    decreases ns.len(),
{
    if ns.len() == 0 {
        cursor
    } else {
        advance(cursor_after(cursor, ns.drop_last(), capacity), ns.last(), capacity)
    }
}

/// Whatever run of commits a stream goes through, its cursor ends at the
/// start position plus all committed frames, modulo the ring's capacity.
pub proof fn lemma_cursor_after_commits(cursor: u32, ns: Seq<u32>, capacity: u32)
    requires
        capacity > 0,
        cursor < capacity,
    ensures
        cursor_after(cursor, ns, capacity) == (cursor + sum_frames(ns)) % (capacity as int),
    decreases ns.len(),
{
    if ns.len() > 0 {
        let prefix = ns.drop_last();
        lemma_cursor_after_commits(cursor, prefix, capacity);
        let a = cursor + sum_frames(prefix);
        let l = ns.last() as int;
        lemma_add_mod_noop_right(l, a, capacity as int);
        assert(cursor_after(cursor, prefix, capacity) + l == l + a % (capacity as int));
        assert(a + l == l + a);
        let x = cursor_after(cursor, prefix, capacity) as int;
        lemma_mod_bound(x + l, capacity as int);
        assert(cursor_after(cursor, ns, capacity) == (x + l) % (capacity as int));
    } else {
        lemma_small_mod(cursor as nat, capacity as nat);
    }
}

impl CrasStream {
    #[verifier::type_invariant]
    spec fn inv(&self) -> bool {
        &&& self.block_size > 0
        &&& self.cursor < self.block_size
        &&& self.acquired matches Some(h) ==> h.offset == self.cursor && h.frames
            <= self.block_size - self.cursor && h.direction == self.direction
    }

    pub closed spec fn well_formed(&self) -> bool {
        self.inv()
    }

    /// A stream in its initial state, as a successful handshake leaves it.
    pub(crate) fn new(
        stream_id: u32,
        direction: StreamDirection,
        format: StreamFormat,
        block_size: u32,
    ) -> (r: CrasStream)
        requires
            block_size > 0,
        ensures
            r@ == (StreamView {
                stream_id,
                direction,
                format,
                block_size,
                cursor: 0,
                acquired: None,
                closed: false,
            }),
    {
        CrasStream {
            stream_id,
            direction,
            format,
            block_size,
            cursor: 0,
            acquired: None,
            closed: false,
        }
    }

    pub fn stream_id(&self) -> (r: u32)
        ensures
            r == self@.stream_id,
    {
        self.stream_id
    }

    pub fn direction(&self) -> (r: StreamDirection)
        ensures
            r == self@.direction,
    {
        self.direction
    }

    pub fn format(&self) -> (r: StreamFormat)
        ensures
            r == self@.format,
    {
        self.format
    }

    pub fn block_size(&self) -> (r: u32)
        ensures
            r == self@.block_size,
    {
        self.block_size
    }

    pub fn cursor(&self) -> (r: u32)
        ensures
            r == self@.cursor,
    {
        self.cursor
    }

    pub fn is_closed(&self) -> (r: bool)
        ensures
            r == self@.closed,
    {
        self.closed
    }

    /// Acquires the next buffer once the daemon's readiness signal `signal`
    /// has arrived: the contiguous frames from the cursor, as many as the
    /// daemon asked for or announced, up to the end of the ring.
    pub fn next_buffer(&mut self, signal: &AudioMessage) -> (r: Result<BufferHandle, Error>)
        ensures
            r == next_buffer_result(old(self)@, *signal),
            r.is_ok() ==> final(self)@ == (StreamView {
                acquired: Some(r.unwrap()),
                ..old(self)@
            }),
            r.is_err() ==> final(self)@ == old(self)@,
            r matches Ok(h) ==> h.frames <= old(self)@.block_size - old(self)@.cursor,
    {
        proof {
            use_type_invariant(&*self);
        }
        if self.closed {
            return Err(Error::IoError);
        }
        if self.acquired.is_some() {
            return Err(Error::CrasStreamError(StreamError::BufferAlreadyAcquired));
        }
        let expected = match self.direction {
            StreamDirection::Playback => AudioMessageId::RequestData,
            StreamDirection::Capture => AudioMessageId::DataReady,
        };
        if signal.id != expected {
            return Err(Error::CrasStreamError(StreamError::UnexpectedAudioMessage));
        }
        if signal.error != 0 {
            return Err(Error::CrasStreamError(StreamError::ServerError(signal.error)));
        }
        let room = self.block_size - self.cursor;
        let frames = if signal.frames <= room {
            signal.frames
        } else {
            room
        };
        let h = BufferHandle { offset: self.cursor, frames, direction: self.direction };
        self.acquired = Some(h);
        Ok(h)
    }

    /// Commits `frames` frames of the acquired buffer: the cursor moves on by
    /// that many frames around the ring, and the returned signal tells the
    /// daemon how many frames were transferred.
    pub fn commit(&mut self, frames: u32) -> (r: Result<AudioMessage, Error>)
        ensures
            r == commit_result(old(self)@, frames),
            r.is_ok() ==> final(self)@ == (StreamView {
                cursor: advance(old(self)@.cursor, frames, old(self)@.block_size),
                acquired: None,
                ..old(self)@
            }),
            r.is_err() ==> final(self)@ == old(self)@,
    {
        proof {
            use_type_invariant(&*self);
        }
        if self.closed {
            return Err(Error::IoError);
        }
        let h = match self.acquired {
            Some(h) => h,
            None => {
                return Err(Error::CrasStreamError(StreamError::NoBufferAcquired));
            },
        };
        if frames > h.frames {
            return Err(Error::CrasStreamError(StreamError::CommitTooLarge));
        }
        let next = self.cursor + frames;
        proof {
            if next < self.block_size {
                lemma_small_mod(next as nat, self.block_size as nat);
            } else {
                lemma_mod_self_0(self.block_size as int);
            }
        }
        self.acquired = None;
        self.cursor = if next == self.block_size {
            0
        } else {
            next
        };
        let id = match self.direction {
            StreamDirection::Playback => AudioMessageId::DataReady,
            StreamDirection::Capture => AudioMessageId::DataCaptured,
        };
        Ok(AudioMessage { id, error: 0, frames })
    }

    /// Releases the acquired buffer without an explicit count: the whole
    /// buffer counts as transferred.
    pub fn release(&mut self) -> (r: Result<AudioMessage, Error>)
        ensures
            old(self)@.acquired matches Some(h) ==> {
                &&& r == commit_result(old(self)@, h.frames)
                &&& r.is_ok() ==> final(self)@ == (StreamView {
                    cursor: advance(old(self)@.cursor, h.frames, old(self)@.block_size),
                    acquired: None,
                    ..old(self)@
                })
            },
            old(self)@.acquired is None ==> r == commit_result(old(self)@, 0),
            r.is_err() ==> final(self)@ == old(self)@,
    {
        let frames = match self.acquired {
            Some(h) => h.frames,
            None => 0,
        };
        self.commit(frames)
    }

    /// Marks the stream closed after its socket failed: every later buffer
    /// operation fails.
    pub fn mark_closed(&mut self)
        ensures
            final(self)@ == (StreamView { closed: true, acquired: None, ..old(self)@ }),
    {
        proof {
            use_type_invariant(&*self);
        }
        self.closed = true;
        self.acquired = None;
    }
}

/// Stands in for a capture stream on a session that may not capture: it never
/// talks to the daemon and every buffer it yields is silence.
#[derive(Clone, Copy, Debug, PartialEq, Eq, Structural)]
pub struct NoopCaptureStream {
    pub format: StreamFormat,
    pub buffer_size: u32,
}

impl NoopCaptureStream {
    pub fn new(format: StreamFormat, buffer_size: u32) -> (r: NoopCaptureStream)
        ensures
            r.format == format,
            r.buffer_size == buffer_size,
    {
        NoopCaptureStream { format, buffer_size }
    }

    /// Fills `buf` with silence: every byte becomes zero, the length stays.
    pub fn read_silence(&self, buf: &mut Vec<u8>)
        ensures
            final(buf)@.len() == old(buf)@.len(),
            forall|i: int| 0 <= i < final(buf)@.len() ==> final(buf)@[i] == 0u8,
    {
        let mut i: usize = 0;
        while i < buf.len()
            invariant
                i <= buf@.len(),
                buf@.len() == old(buf)@.len(),
                forall|j: int| 0 <= j < i ==> buf@[j] == 0u8,
            decreases buf@.len() - i,
        {
            buf.set(i, 0u8);
            i = i + 1;
        }
    }

    /// Takes back a buffer: nothing goes anywhere, and no signal is due.
    pub fn commit(&self, frames: u32) -> (r: Option<AudioMessage>)
        ensures
            r is None,
    {
        None
    }
}

} // verus!
