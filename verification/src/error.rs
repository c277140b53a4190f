use vstd::prelude::*;

verus! {

/// Why a request could not be served.
#[derive(Clone, Copy, Debug, PartialEq, Eq, Structural)]
pub enum Reason {
    /// The engine consumed a frame and has no packet yet.
    Encoded,
    /// The engine has handed out every packet of the stream.
    LimitReached,
    /// The engine takes no more frames.
    EnoughData,
    /// The engine waits for pass data.
    NotReady,
    /// The engine reported a fault.
    Failure,
    /// The frame is not a picture.
    FrameKind,
    /// The session encodes samples of another width than eight bits.
    BitDepth,
    /// The frame has another number of planes than the session's chroma layout.
    PlaneCount,
    /// A plane of the frame has a row pitch of zero.
    PlaneStride,
    /// The option's key is not known.
    OptionKey,
    /// The option's value has the wrong shape for its key.
    OptionValue,
    /// The option's value is outside the range of its field.
    OptionRange,
    /// A stream parameter is outside the range of its field.
    ParamRange,
    /// The packet's frame number does not fit the stream index.
    StreamIndex,
    /// The engine refused to open a session.
    Session,
}

/// The name of a reason.
pub open spec fn reason_name(reason: Reason) -> Seq<char> {
    match reason {
        Reason::Encoded => "Encoded"@,
        Reason::LimitReached => "LimitReached"@,
        Reason::EnoughData => "EnoughData"@,
        Reason::NotReady => "NotReady"@,
        Reason::Failure => "Failure"@,
        Reason::FrameKind => "FrameKind"@,
        Reason::BitDepth => "BitDepth"@,
        Reason::PlaneCount => "PlaneCount"@,
        Reason::PlaneStride => "PlaneStride"@,
        Reason::OptionKey => "OptionKey"@,
        Reason::OptionValue => "OptionValue"@,
        Reason::OptionRange => "OptionRange"@,
        Reason::ParamRange => "ParamRange"@,
        Reason::StreamIndex => "StreamIndex"@,
        Reason::Session => "Session"@,
    }
}

impl Reason {
    /// Gives the reason's name, as it is shown to the caller.
    pub fn name(&self) -> (text: String)
        ensures
            text@ == reason_name(*self),
    {
        match self {
            Reason::Encoded => "Encoded".to_owned(),
            Reason::LimitReached => "LimitReached".to_owned(),
            Reason::EnoughData => "EnoughData".to_owned(),
            Reason::NotReady => "NotReady".to_owned(),
            Reason::Failure => "Failure".to_owned(),
            Reason::FrameKind => "FrameKind".to_owned(),
            Reason::BitDepth => "BitDepth".to_owned(),
            Reason::PlaneCount => "PlaneCount".to_owned(),
            Reason::PlaneStride => "PlaneStride".to_owned(),
            Reason::OptionKey => "OptionKey".to_owned(),
            Reason::OptionValue => "OptionValue".to_owned(),
            Reason::OptionRange => "OptionRange".to_owned(),
            Reason::ParamRange => "ParamRange".to_owned(),
            Reason::StreamIndex => "StreamIndex".to_owned(),
            Reason::Session => "Session".to_owned(),
        }
    }
}

/// The errors of the encoder interface.
#[derive(Clone, Copy, Debug, PartialEq, Eq, Structural)]
pub enum EncoderError {
    /// More input is needed before output can be had: expected while pumping.
    MoreDataNeeded,
    /// The request is not supported, for the given reason.
    Unsupported(Reason),
}

} // verus!
