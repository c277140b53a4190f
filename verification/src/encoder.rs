use vstd::prelude::*;
use crate::backend::{
    blank,
    end_of_stream,
    pictures_taken,
    plane_samples,
    three_planes,
    NativeFrame,
    finish,
    frame_type_of,
    new_frame,
    open_session,
    poll,
    signal_of,
    submit,
    Session,
};
use crate::config::{default_settings, EncoderSettings};
use crate::error::{EncoderError, Reason};
use crate::frame::{check_frame, fill_frame, frame_rejection, picture_of, Frame};
use crate::options::{requested, OptionValue};
use crate::packet::{packet_from_backend, packet_of, BackendPacket, Packet};
use crate::params::{
    params_accepted,
    reported_bit_rate,
    reported_delay,
    reported_kind,
    with_params,
    CodecParams,
};
use crate::status::{rav1e_status_into_av_error, status_error, BackendStatus};

verus! {

/// What a call that submits a frame returns for each answer of the engine.
pub open spec fn send_result(answer: Result<(), BackendStatus>) -> Result<(), EncoderError> {
    match answer {
        Ok(()) => Ok(()),
        Err(status) => Err(status_error(status)),
    }
}

/// What a call that asks for a packet returns for each answer of the engine.
pub open spec fn receive_result(answer: Result<BackendPacket, BackendStatus>) -> Result<
    Packet,
    EncoderError,
> {
    match answer {
        Ok(packet) => packet_of(packet),
        Err(status) => Err(status_error(status)),
    }
}

/// Turns the engine's answer to a submitted frame into the call's result.
pub fn send_outcome(answer: Result<(), BackendStatus>) -> (r: Result<(), EncoderError>)
    ensures
        r == send_result(answer),
{
    match answer {
        Ok(()) => Ok(()),
        Err(status) => Err(rav1e_status_into_av_error(status)),
    }
}

/// Turns the engine's answer to a request for a packet into the call's
/// result.
pub fn receive_outcome(answer: Result<BackendPacket, BackendStatus>) -> (r: Result<
    Packet,
    EncoderError,
>)
    ensures
        r == receive_result(answer),
{
    match answer {
        Ok(packet) => packet_from_backend(packet),
        Err(status) => Err(rav1e_status_into_av_error(status)),
    }
}

/// The adapter hands out a packet only where the engine handed one out, and
/// then with the engine's payload; a signal of the engine always comes back
/// as its own error. So whether a packet appears, and when the terminal
/// error does, is the engine's doing alone.
pub proof fn lemma_packets_come_from_the_engine(answer: Result<BackendPacket, BackendStatus>)
    ensures
        receive_result(answer) is Ok ==> answer is Ok && receive_result(answer)->Ok_0.data
            == answer->Ok_0.data,
        answer matches Err(status) ==> receive_result(answer) == Err::<Packet, EncoderError>(
            status_error(status),
        ),
        receive_result(answer) == Err::<Packet, EncoderError>(EncoderError::MoreDataNeeded)
            <==> answer == Err::<BackendPacket, BackendStatus>(BackendStatus::NeedMoreData),
        receive_result(answer) == Err::<Packet, EncoderError>(
            EncoderError::Unsupported(Reason::LimitReached),
        ) <==> answer == Err::<BackendPacket, BackendStatus>(BackendStatus::LimitReached),
{
}

/// AV1 encoder: a stored configuration and one live session of the engine.
pub struct Rav1eEncoder {
    cfg: EncoderSettings,
    committed: EncoderSettings,
    session: Session,
}

impl Rav1eEncoder {
    /// The stored configuration.
    pub closed spec fn settings(&self) -> EncoderSettings {
        self.cfg
    }

    /// The configuration that the session was opened on.
    pub closed spec fn committed(&self) -> EncoderSettings {
        self.committed
    }

    /// Whether the session was told that the stream has ended.
    pub closed spec fn flushed(&self) -> bool {
        end_of_stream(self.session)
    }

    /// The pictures that the session has taken, in order: of each, what the
    /// three planes of the engine's frame held when it was handed over.
    pub closed spec fn taken(&self) -> Seq<Seq<Seq<u8>>> {
        pictures_taken(self.session)
    }

    /// Makes an encoder with the default configuration and opens its session
    /// on it at once: the engine takes its default configuration, so an
    /// encoder always comes back. Its session has taken no picture and has
    /// not been told of the end of the stream.
    pub fn new() -> (r: Result<Rav1eEncoder, EncoderError>)
        ensures
            r matches Ok(encoder) && encoder.settings() == default_settings()
                && encoder.committed() == default_settings() && !encoder.flushed()
                && encoder.taken().len() == 0,
    {
        match open_session() {
            Ok(session) => Rav1eEncoder::from_opened(Some(session)),
            Err(_) => Rav1eEncoder::from_opened(None),
        }
    }

    /// Makes an encoder around a session that was opened on the default
    /// configuration, or gives the error where none was opened.
    pub fn from_opened(opened: Option<Session>) -> (r: Result<Rav1eEncoder, EncoderError>)
        ensures
            opened is Some ==> r is Ok && r->Ok_0.settings() == default_settings()
                && r->Ok_0.committed() == default_settings() && r->Ok_0.flushed()
                == end_of_stream(opened->Some_0) && r->Ok_0.taken() == pictures_taken(
                opened->Some_0,
            ),
            opened is None ==> r == Err::<Rav1eEncoder, EncoderError>(
                EncoderError::Unsupported(Reason::Session),
            ),
    {
        match opened {
            Some(session) => Ok(
                Rav1eEncoder {
                    cfg: EncoderSettings::default(),
                    committed: EncoderSettings::default(),
                    session,
                },
            ),
            None => Err(EncoderError::Unsupported(Reason::Session)),
        }
    }

    /// Gives the stored configuration.
    pub fn config(&self) -> (cfg: &EncoderSettings)
        ensures
            *cfg == self.settings(),
    {
        &self.cfg
    }

    /// Gives the configuration that the session was opened on.
    pub fn session_config(&self) -> (cfg: &EncoderSettings)
        ensures
            *cfg == self.committed(),
    {
        &self.committed
    }

    /// Reserved for later setup: does nothing and succeeds.
    pub fn configure(&mut self) -> (r: Result<(), EncoderError>)
        ensures
            r is Ok,
            *final(self) == *old(self),
    {
        Ok(())
    }

    /// The engine writes its headers into the stream: there is no extradata.
    pub fn get_extradata(&self) -> (r: Option<Vec<u8>>)
        ensures
            r is None,
    {
        None
    }

    /// Submits a frame. A frame that the session cannot take is refused
    /// before the engine is called; else a fresh frame of the engine, filled
    /// by `fill_frame`, is handed to the session, and the result is that of
    /// `send_outcome` on the engine's answer. After the end of the stream
    /// that answer is "enough data". Where the call succeeds, the session
    /// has taken one more picture: a blank frame of the engine with the
    /// planes of `frame_in` copied into it. Where it fails, the session has
    /// taken none.
    pub fn send_frame(&mut self, frame_in: &Frame) -> (r: Result<(), EncoderError>)
        ensures
            final(self).settings() == old(self).settings(),
            final(self).committed() == old(self).committed(),
            old(self).flushed() ==> final(self).flushed(),
            r is Err ==> final(self).taken() == old(self).taken(),
            r is Ok ==> exists|fresh: NativeFrame|
                three_planes(fresh) && blank(fresh) && final(self).taken() == old(
                    self,
                ).taken().push(#[trigger] picture_of(fresh, frame_in.planes@)),
            match frame_rejection(old(self).committed(), *frame_in) {
                Some(reason) => r == Err::<(), EncoderError>(EncoderError::Unsupported(reason))
                    && *final(self) == *old(self),
                None => (exists|answer: Result<(), BackendStatus>|
                    r == #[trigger] send_result(answer)) && (old(self).flushed() ==> r == Err::<
                    (),
                    EncoderError,
                >(EncoderError::Unsupported(Reason::EnoughData))),
            },
    {
        if let Some(reason) = check_frame(&self.committed, frame_in) {
            return Err(EncoderError::Unsupported(reason));
        }
        let mut frame_out = new_frame(&self.session);
        let ghost fresh = frame_out;
        fill_frame(&mut frame_out, frame_in);
        assert(plane_samples(frame_out) == picture_of(fresh, frame_in.planes@));
        let answer = match submit(&mut self.session, frame_out) {
            Ok(()) => Ok(()),
            Err(status) => Err(signal_of(status)),
        };
        send_outcome(answer)
    }

    /// Asks the session for one packet. The result is that of
    /// `receive_outcome` on the engine's answer.
    pub fn receive_packet(&mut self) -> (r: Result<Packet, EncoderError>)
        ensures
            final(self).settings() == old(self).settings(),
            final(self).committed() == old(self).committed(),
            final(self).flushed() == old(self).flushed(),
            final(self).taken() == old(self).taken(),
            exists|answer: Result<BackendPacket, BackendStatus>|
                r == #[trigger] receive_result(answer),
    {
        let answer = match poll(&mut self.session) {
            Ok((data, input_frameno, native)) => Ok(
                BackendPacket { data, input_frameno, frame_type: frame_type_of(native) },
            ),
            Err(status) => Err(signal_of(status)),
        };
        receive_outcome(answer)
    }

    /// Tells the session that the stream has ended: the session is flushed
    /// afterwards, and takes no more frames. The engine cannot refuse this.
    pub fn flush(&mut self) -> (r: Result<(), EncoderError>)
        ensures
            r is Ok,
            final(self).flushed(),
            final(self).taken() == old(self).taken(),
            final(self).settings() == old(self).settings(),
            final(self).committed() == old(self).committed(),
    {
        finish(&mut self.session);
        Ok(())
    }

    /// Sets an option in the stored configuration. The session stays as it
    /// was opened. On an error nothing changes.
    pub fn set_option(&mut self, key: &str, val: OptionValue) -> (r: Result<(), EncoderError>)
        ensures
            final(self).committed() == old(self).committed(),
            final(self).flushed() == old(self).flushed(),
            final(self).taken() == old(self).taken(),
            match requested(old(self).settings(), key@, val) {
                Ok(next) => r is Ok && final(self).settings() == next,
                Err(e) => r == Err::<(), EncoderError>(e) && *final(self) == *old(self),
            },
    {
        self.cfg.set_option(key, val)
    }

    /// Reports the stored configuration as generic stream parameters.
    pub fn get_params(&self) -> (r: Result<CodecParams, EncoderError>)
        ensures
            r matches Ok(params) && params.kind == Some(reported_kind(self.settings()))
                && (params.codec_id matches Some(id) && id@ == "av1"@) && params.extradata is None
                && params.bit_rate == reported_bit_rate(self.settings())
                && params.convergence_window == 0 && params.delay == reported_delay(
                self.settings(),
            ),
    {
        Ok(self.cfg.get_params())
    }

    /// Applies generic stream parameters to the stored configuration. The
    /// session stays as it was opened. On an error nothing changes.
    pub fn set_params(&mut self, params: &CodecParams) -> (r: Result<(), EncoderError>)
        ensures
            final(self).committed() == old(self).committed(),
            final(self).flushed() == old(self).flushed(),
            final(self).taken() == old(self).taken(),
            params_accepted(*params) ==> r is Ok && final(self).settings() == with_params(
                old(self).settings(),
                *params,
            ),
            !params_accepted(*params) ==> r == Err::<(), EncoderError>(
                EncoderError::Unsupported(Reason::ParamRange),
            ) && *final(self) == *old(self),
    {
        self.cfg.set_params(params)
    }
}

} // verus!
