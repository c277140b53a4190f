use vstd::prelude::*;
use crate::error::{EncoderError, Reason};

verus! {

/// The signals by which the engine answers a call on a session.
#[derive(Clone, Copy, Debug, PartialEq, Eq)]
pub enum BackendStatus {
    /// A frame was consumed and no packet is ready yet.
    Encoded,
    /// Every packet of the stream has been handed out.
    LimitReached,
    /// The engine needs another frame, or the end of the stream.
    NeedMoreData,
    /// The engine takes no more frames.
    EnoughData,
    /// The engine waits for pass data.
    NotReady,
    /// The engine reported a fault.
    Failure,
}

/// What the driver has to do after an error.
#[derive(Clone, Copy, Debug, PartialEq, Eq)]
pub enum Reaction {
    /// Ask for a packet again.
    RetryReceive,
    /// Stop asking: the stream is fully drained.
    StopPolling,
    /// Submit another frame, or flush where the input has ended.
    SubmitOrFlush,
    /// Give the session up.
    Fatal,
}

/// The error that stands for each signal of the engine.
pub open spec fn status_error(status: BackendStatus) -> EncoderError {
    match status {
        BackendStatus::Encoded => EncoderError::Unsupported(Reason::Encoded),
        BackendStatus::LimitReached => EncoderError::Unsupported(Reason::LimitReached),
        BackendStatus::NeedMoreData => EncoderError::MoreDataNeeded,
        BackendStatus::EnoughData => EncoderError::Unsupported(Reason::EnoughData),
        BackendStatus::NotReady => EncoderError::Unsupported(Reason::NotReady),
        BackendStatus::Failure => EncoderError::Unsupported(Reason::Failure),
    }
}

/// The reaction that each error asks of the driver.
pub open spec fn required_reaction(error: EncoderError) -> Reaction {
    match error {
        EncoderError::MoreDataNeeded => Reaction::SubmitOrFlush,
        EncoderError::Unsupported(Reason::Encoded) => Reaction::RetryReceive,
        EncoderError::Unsupported(Reason::LimitReached) => Reaction::StopPolling,
        EncoderError::Unsupported(_) => Reaction::Fatal,
    }
}

/// Maps a signal of the engine to the error of the encoder interface.
pub fn rav1e_status_into_av_error(status: BackendStatus) -> (error: EncoderError)
    ensures
        error == status_error(status),
{
    match status {
        BackendStatus::LimitReached => EncoderError::Unsupported(Reason::LimitReached),
        BackendStatus::NeedMoreData => EncoderError::MoreDataNeeded,
        BackendStatus::EnoughData => EncoderError::Unsupported(Reason::EnoughData),
        BackendStatus::NotReady => EncoderError::Unsupported(Reason::NotReady),
        BackendStatus::Failure => EncoderError::Unsupported(Reason::Failure),
        BackendStatus::Encoded => EncoderError::Unsupported(Reason::Encoded),
    }
}

/// Tells the driver how to go on after an error.
pub fn reaction_to(error: EncoderError) -> (reaction: Reaction)
    ensures
        reaction == required_reaction(error),
{
    match error {
        EncoderError::MoreDataNeeded => Reaction::SubmitOrFlush,
        EncoderError::Unsupported(Reason::Encoded) => Reaction::RetryReceive,
        EncoderError::Unsupported(Reason::LimitReached) => Reaction::StopPolling,
        EncoderError::Unsupported(_) => Reaction::Fatal,
    }
}

/// Two different signals never map to the same error.
pub proof fn lemma_status_error_injective(a: BackendStatus, b: BackendStatus)
    ensures
        status_error(a) == status_error(b) <==> a == b,
{
}

/// "More data needed" stands for exactly one signal, and the terminal error
/// for exactly one other: a driver can always tell the two apart.
pub proof fn lemma_more_data_is_not_terminal(status: BackendStatus)
    ensures
        status_error(status) == EncoderError::MoreDataNeeded <==> status
            == BackendStatus::NeedMoreData,
        required_reaction(status_error(status)) == Reaction::StopPolling <==> status
            == BackendStatus::LimitReached,
        required_reaction(status_error(status)) == Reaction::SubmitOrFlush <==> status
            == BackendStatus::NeedMoreData,
        required_reaction(status_error(status)) == Reaction::RetryReceive <==> status
            == BackendStatus::Encoded,
{
}

} // verus!
