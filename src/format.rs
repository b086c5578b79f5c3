use vstd::prelude::*;

verus! {

/// Layout of one audio sample.
#[derive(Clone, Copy, Debug, PartialEq, Eq, Structural)]
pub enum SampleFormat {
    U8,
    S16LE,
    S24LE,
    S32LE,
}

/// Which way audio flows through a stream.
#[derive(Clone, Copy, Debug, PartialEq, Eq, Structural)]
pub enum StreamDirection {
    Playback,
    Capture,
}

/// A processing effect a stream may ask the daemon for.
#[derive(Clone, Copy, Debug, PartialEq, Eq, Structural)]
pub enum StreamEffect {
    NoEffect,
    EchoCancellation,
}

/// Kind of client reported to the daemon with every stream request.
#[derive(Clone, Copy, Debug, PartialEq, Eq, Structural)]
pub enum CrasClientType {
    Unknown,
    Legacy,
    Test,
    Pcm,
    Chrome,
    Arc,
    Crosvm,
    ServerStream,
    Lacros,
    Plugin,
    Arcvm,
}

/// Purpose of a stream reported to the daemon with every stream request.
#[derive(Clone, Copy, Debug, PartialEq, Eq, Structural)]
pub enum CrasStreamType {
    Default,
    Multimedia,
    VoiceCommunication,
    SpeechRecognition,
    ProAudio,
    Accessibility,
}

/// Which of the daemon's control sockets a session connects to.
#[derive(Clone, Copy, Debug, PartialEq, Eq, Structural)]
pub enum CrasSocketType {
    Legacy,
    Unified,
}

/// Channel count, sample layout and frame rate of a stream.
#[derive(Clone, Copy, Debug, PartialEq, Eq, Structural)]
pub struct StreamFormat {
    pub num_channels: usize,
    pub format: SampleFormat,
    pub frame_rate: u32,
}

/// The number the wire uses for a sample format.
pub open spec fn sample_format_code(f: SampleFormat) -> u32 {
    match f {
        SampleFormat::U8 => 1,
        SampleFormat::S16LE => 2,
        SampleFormat::S24LE => 6,
        SampleFormat::S32LE => 10,
    }
}

/// Bytes per sample.
pub open spec fn sample_bytes(f: SampleFormat) -> nat {
    match f {
        SampleFormat::U8 => 1,
        SampleFormat::S16LE => 2,
        SampleFormat::S24LE => 4,
        SampleFormat::S32LE => 4,
    }
}

pub open spec fn direction_code(d: StreamDirection) -> u32 {
    match d {
        StreamDirection::Playback => 0,
        StreamDirection::Capture => 1,
    }
}

/// Bit that an effect sets in the request's effect mask.
pub open spec fn effect_bit(e: StreamEffect) -> u64 {
    match e {
        StreamEffect::NoEffect => 0,
        StreamEffect::EchoCancellation => 1,
    }
}

/// The effect mask of a list of effects: the union of their bits.
pub open spec fn effect_mask(effects: Seq<StreamEffect>) -> u64
    decreases effects.len(),
{
    if effects.len() == 0 {
        0
    } else {
        effect_mask(effects.drop_last()) | effect_bit(effects.last())
    }
}

pub open spec fn client_type_code(t: CrasClientType) -> u32 {
    match t {
        CrasClientType::Unknown => 0,
        CrasClientType::Legacy => 1,
        CrasClientType::Test => 2,
        CrasClientType::Pcm => 3,
        CrasClientType::Chrome => 4,
        CrasClientType::Arc => 5,
        CrasClientType::Crosvm => 6,
        CrasClientType::ServerStream => 7,
        CrasClientType::Lacros => 8,
        CrasClientType::Plugin => 9,
        CrasClientType::Arcvm => 10,
    }
}

pub open spec fn stream_type_code(t: CrasStreamType) -> u32 {
    match t {
        CrasStreamType::Default => 0,
        CrasStreamType::Multimedia => 1,
        CrasStreamType::VoiceCommunication => 2,
        CrasStreamType::SpeechRecognition => 3,
        CrasStreamType::ProAudio => 4,
        CrasStreamType::Accessibility => 5,
    }
}

impl SampleFormat {
    pub fn code(&self) -> (r: u32)
        ensures
            r == sample_format_code(*self),
    {
        match self {
            SampleFormat::U8 => 1,
            SampleFormat::S16LE => 2,
            SampleFormat::S24LE => 6,
            SampleFormat::S32LE => 10,
        }
    }

    /// Bytes one sample of this format takes.
    pub fn sample_bytes(&self) -> (r: usize)
        ensures
            r == sample_bytes(*self),
    {
        match self {
            SampleFormat::U8 => 1,
            SampleFormat::S16LE => 2,
            SampleFormat::S24LE => 4,
            SampleFormat::S32LE => 4,
        }
    }
}

impl StreamDirection {
    pub fn code(&self) -> (r: u32)
        ensures
            r == direction_code(*self),
    {
        match self {
            StreamDirection::Playback => 0,
            StreamDirection::Capture => 1,
        }
    }
}

impl StreamEffect {
    pub fn bit(&self) -> (r: u64)
        ensures
            r == effect_bit(*self),
    {
        match self {
            StreamEffect::NoEffect => 0,
            StreamEffect::EchoCancellation => 1,
        }
    }
}

/// Folds a list of effects into the mask sent on the wire.
pub fn effects_to_mask(effects: &Vec<StreamEffect>) -> (r: u64)
    ensures
        r == effect_mask(effects@),
{
    let mut mask: u64 = 0;
    let mut i: usize = 0;
    while i < effects.len()
        invariant
            i <= effects.len(),
            mask == effect_mask(effects@.subrange(0, i as int)),
        decreases effects.len() - i,
    {
        assert(effects@.subrange(0, i as int + 1).drop_last() =~= effects@.subrange(0, i as int));
        mask = mask | effects[i].bit();
        i = i + 1;
    }
    assert(effects@.subrange(0, i as int) =~= effects@);
    mask
}

impl CrasClientType {
    pub fn code(&self) -> (r: u32)
        ensures
            r == client_type_code(*self),
    {
        match self {
            CrasClientType::Unknown => 0,
            CrasClientType::Legacy => 1,
            CrasClientType::Test => 2,
            CrasClientType::Pcm => 3,
            CrasClientType::Chrome => 4,
            CrasClientType::Arc => 5,
            CrasClientType::Crosvm => 6,
            CrasClientType::ServerStream => 7,
            CrasClientType::Lacros => 8,
            CrasClientType::Plugin => 9,
            CrasClientType::Arcvm => 10,
        }
    }
}

impl CrasStreamType {
    pub fn code(&self) -> (r: u32)
        ensures
            r == stream_type_code(*self),
    {
        match self {
            CrasStreamType::Default => 0,
            CrasStreamType::Multimedia => 1,
            CrasStreamType::VoiceCommunication => 2,
            CrasStreamType::SpeechRecognition => 3,
            CrasStreamType::ProAudio => 4,
            CrasStreamType::Accessibility => 5,
        }
    }
}

pub open spec fn socket_path_of(t: CrasSocketType) -> Seq<char> {
    match t {
        CrasSocketType::Legacy => "/run/cras/.cras_socket"@,
        CrasSocketType::Unified => "/run/cras/.cras_unified"@,
    }
}

impl CrasSocketType {
    /// Filesystem path of the daemon's control socket of this type.
    pub fn socket_path(&self) -> (r: &'static str)
        ensures
            r@ == socket_path_of(*self),
    {
        match self {
            CrasSocketType::Legacy => "/run/cras/.cras_socket",
            CrasSocketType::Unified => "/run/cras/.cras_unified",
        }
    }
}

} // verus!
