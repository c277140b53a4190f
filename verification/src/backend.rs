use vstd::prelude::*;
use crate::packet::PictureType;
use crate::status::BackendStatus;

verus! {

#[verifier::external_type_specification]
pub struct ExEncoderStatus(rav1e::EncoderStatus);

#[verifier::external_type_specification]
pub struct ExFrameType(rav1e::prelude::FrameType);

#[verifier::external_type_specification]
#[verifier::external_body]
pub struct ExInvalidConfig(rav1e::InvalidConfig);

/// A live session of the engine for eight-bit samples (`rav1e::Context<u8>`).
/// The engine's type is generic over a sample trait that the proofs cannot
/// name, so the session is held in a struct of this crate. Nothing inside it
/// is known to the proofs.
#[verifier::external_body]
pub struct Session {
    ctx: rav1e::Context<u8>,
}

/// A frame of the engine with its three planes (`rav1e::Frame<u8>`), held
/// like the session. The proofs know it by `plane_samples` and
/// `plane_pitches` alone.
#[verifier::external_body]
pub struct NativeFrame {
    frame: rav1e::Frame<u8>,
}

/// Whether the end of the stream was signalled to a session: the flag that
/// the engine's context sets when it is flushed and never clears.
pub uninterp spec fn end_of_stream(session: Session) -> bool;

/// The pictures that a session has taken since it was opened, in order: of
/// each, what its three planes held when it was handed over.
pub uninterp spec fn pictures_taken(session: Session) -> Seq<Seq<Seq<u8>>>;

/// Opens a session on the engine's default configuration
/// (`rav1e::Config::new_context` on `rav1e::Config::default()`). The call
/// fails only where the configuration does not pass the engine's validation,
/// and the default configuration passes it: a session is opened. It has
/// taken no picture and has not been told of the end of the stream.
#[verifier::external_body]
pub(crate) fn open_session() -> (r: Result<Session, rav1e::InvalidConfig>)
    ensures
        r is Ok,
        r matches Ok(session) ==> !end_of_stream(session) && pictures_taken(session).len() == 0,
{
    let ctx = rav1e::Config::default().new_context::<u8>()?;
    Ok(Session { ctx })
}

/// What each of a frame's three planes holds: its samples from the plane's
/// origin to the end of its buffer, row after row with the padding between
/// them (what `Plane::data_origin` gives).
pub uninterp spec fn plane_samples(frame: NativeFrame) -> Seq<Seq<u8>>;

/// The row pitch of each of a frame's three planes: the number of samples
/// from one row's start to the next (`PlaneConfig::stride`).
pub uninterp spec fn plane_pitches(frame: NativeFrame) -> Seq<usize>;

/// Every sample of a frame is the middle grey that the engine allocates
/// planes with.
pub open spec fn blank(frame: NativeFrame) -> bool {
    forall|j: int, k: int|
        0 <= j < plane_samples(frame).len() && 0 <= k < plane_samples(frame)[j].len()
            ==> #[trigger] plane_samples(frame)[j][k] == 128
}

/// A frame has three planes, each with a row pitch above zero.
pub open spec fn three_planes(frame: NativeFrame) -> bool {
    &&& plane_samples(frame).len() == 3
    &&& plane_pitches(frame).len() == 3
    &&& forall|j: int| 0 <= j < 3 ==> (#[trigger] plane_pitches(frame)[j]) > 0
}

/// Whether a copy of rows writes the sample at `k`: its row lies within the
/// whole rows of both sides, and its column within a row of the source.
pub open spec fn copy_reaches(len: int, pitch: int, source_len: int, stride: int, k: int) -> bool {
    &&& k / pitch < len / pitch
    &&& k / pitch < source_len / stride
    &&& k % pitch < stride
}

/// The samples of a plane after rows of `stride` bytes were copied into its
/// rows of `pitch` samples: each row takes the start of the source row of the
/// same number, as far as both reach, and every other sample stays.
pub open spec fn rows_copied(dest: Seq<u8>, pitch: int, source: Seq<u8>, stride: int) -> Seq<u8> {
    Seq::new(
        dest.len(),
        |k: int|
            if copy_reaches(dest.len() as int, pitch, source.len() as int, stride, k) {
                source[(k / pitch) * stride + k % pitch]
            } else {
                dest[k]
            },
    )
}

/// Allocates a frame of the session's size (`rav1e::Context::new_frame`).
/// The frame has three planes, and each is allocated with padding, so that
/// its row pitch is above zero, and filled with the sample 128.
#[verifier::external_body]
pub(crate) fn new_frame(session: &Session) -> (frame: NativeFrame)
    ensures
        three_planes(frame),
        blank(frame),
{
    NativeFrame { frame: session.ctx.new_frame() }
}

/// Copies rows of bytes into one plane of a frame
/// (`Plane::copy_from_raw_u8` at a sample width of one byte). The copy
/// refuses a row pitch of zero on either side: that is asked of the caller.
/// It pairs the plane's whole rows, from its origin, with the source's whole
/// rows, and copies each pair as far as the shorter row reaches; the other
/// planes and every pitch stay.
#[verifier::external_body]
pub(crate) fn copy_plane(frame: &mut NativeFrame, index: usize, data: &Vec<u8>, stride: usize)
    requires
        three_planes(*old(frame)),
        index < 3,
        stride > 0,
    ensures
        plane_pitches(*final(frame)) == plane_pitches(*old(frame)),
        plane_samples(*final(frame)) == plane_samples(*old(frame)).update(
            index as int,
            rows_copied(
                plane_samples(*old(frame))[index as int],
                plane_pitches(*old(frame))[index as int] as int,
                data@,
                stride as int,
            ),
        ),
{
    frame.frame.planes[index].copy_from_raw_u8(data.as_slice(), stride, 1usize);
}

/// Hands a frame to the session (`rav1e::Context::send_frame`). A session
/// that was told of the end of the stream takes no frame: it answers
/// `EnoughData` and stays as it is. Where the answer is `Ok`, the session has
/// taken the frame as it was handed over; where it is an error, it has taken
/// none. Which answer another session gives is not claimed.
#[verifier::external_body]
pub(crate) fn submit(session: &mut Session, frame: NativeFrame) -> (r: Result<
    (),
    rav1e::EncoderStatus,
>)
    ensures
        end_of_stream(*old(session)) ==> end_of_stream(*final(session)),
        end_of_stream(*old(session)) ==> r is Err && r->Err_0
            == rav1e::EncoderStatus::EnoughData,
        r is Ok ==> pictures_taken(*final(session)) == pictures_taken(*old(session)).push(
            plane_samples(frame),
        ),
        r is Err ==> pictures_taken(*final(session)) == pictures_taken(*old(session)),
{
    session.ctx.send_frame(frame.frame)
}

/// Asks the session for one packet (`rav1e::Context::receive_packet`) and
/// moves out of it the payload, the frame number and the frame type.
/// Nothing is claimed of the outcome, but that the call leaves the
/// end-of-stream flag alone and takes no picture.
#[verifier::external_body]
pub(crate) fn poll(session: &mut Session) -> (r: Result<
    (Vec<u8>, u64, rav1e::prelude::FrameType),
    rav1e::EncoderStatus,
>)
    ensures
        end_of_stream(*final(session)) == end_of_stream(*old(session)),
        pictures_taken(*final(session)) == pictures_taken(*old(session)),
{
    let packet = session.ctx.receive_packet()?;
    Ok((packet.data, packet.input_frameno, packet.frame_type))
}

/// The frame type that a frame type of the engine stands for.
pub open spec fn frame_type(native: rav1e::prelude::FrameType) -> PictureType {
    match native {
        rav1e::prelude::FrameType::KEY => PictureType::Key,
        rav1e::prelude::FrameType::INTER => PictureType::Inter,
        rav1e::prelude::FrameType::INTRA_ONLY => PictureType::IntraOnly,
        rav1e::prelude::FrameType::SWITCH => PictureType::Switch,
    }
}

/// Tells the frame types of the engine apart.
pub fn frame_type_of(native: rav1e::prelude::FrameType) -> (r: PictureType)
    ensures
        r == frame_type(native),
{
    match native {
        rav1e::prelude::FrameType::KEY => PictureType::Key,
        rav1e::prelude::FrameType::INTER => PictureType::Inter,
        rav1e::prelude::FrameType::INTRA_ONLY => PictureType::IntraOnly,
        rav1e::prelude::FrameType::SWITCH => PictureType::Switch,
    }
}

/// Tells the session that the stream has ended (`rav1e::Context::flush`):
/// the session's end-of-stream flag is set afterwards, whether or not it was
/// before, and no picture is taken.
#[verifier::external_body]
pub(crate) fn finish(session: &mut Session)
    ensures
        end_of_stream(*final(session)),
        pictures_taken(*final(session)) == pictures_taken(*old(session)),
{
    session.ctx.flush();
}

/// The signal that a status of the engine stands for.
pub open spec fn signal(status: rav1e::EncoderStatus) -> BackendStatus {
    match status {
        rav1e::EncoderStatus::Encoded => BackendStatus::Encoded,
        rav1e::EncoderStatus::LimitReached => BackendStatus::LimitReached,
        rav1e::EncoderStatus::NeedMoreData => BackendStatus::NeedMoreData,
        rav1e::EncoderStatus::EnoughData => BackendStatus::EnoughData,
        rav1e::EncoderStatus::NotReady => BackendStatus::NotReady,
        rav1e::EncoderStatus::Failure => BackendStatus::Failure,
    }
}

/// Tells the statuses of the engine apart.
pub fn signal_of(status: rav1e::EncoderStatus) -> (r: BackendStatus)
    ensures
        r == signal(status),
{
    match status {
        rav1e::EncoderStatus::Encoded => BackendStatus::Encoded,
        rav1e::EncoderStatus::LimitReached => BackendStatus::LimitReached,
        rav1e::EncoderStatus::NeedMoreData => BackendStatus::NeedMoreData,
        rav1e::EncoderStatus::EnoughData => BackendStatus::EnoughData,
        rav1e::EncoderStatus::NotReady => BackendStatus::NotReady,
        rav1e::EncoderStatus::Failure => BackendStatus::Failure,
    }
}

} // verus!
