use vstd::prelude::*;
use crate::backend::{
    copy_plane,
    plane_pitches,
    plane_samples,
    rows_copied,
    three_planes,
    NativeFrame,
};
use crate::config::{plane_count, planes_of, EncoderSettings};
use crate::error::Reason;

verus! {

/// What a frame carries.
#[derive(Clone, Copy, Debug, PartialEq, Eq)]
pub enum FrameKind {
    Video,
    Audio,
}

/// One plane of a picture: rows of bytes, `stride` bytes from one row's start
/// to the next.
#[derive(Clone, Debug, PartialEq, Eq)]
pub struct Plane {
    pub data: Vec<u8>,
    pub stride: usize,
}

/// An input frame: its kind and its planes in order.
#[derive(Clone, Debug, PartialEq, Eq)]
pub struct Frame {
    pub kind: FrameKind,
    pub planes: Vec<Plane>,
}

/// Whether some plane has a row pitch of zero.
pub open spec fn has_zero_stride(planes: Seq<Plane>) -> bool {
    exists|i: int| 0 <= i < planes.len() && (#[trigger] planes[i]).stride == 0
}

/// Why a session opened on `committed` cannot take `frame`, if it cannot:
/// the frame is no picture, the session's samples are not eight bits wide,
/// the number of planes is not that of the session's chroma subsampling, or
/// a plane has a row pitch of zero. The first that holds is given.
pub open spec fn frame_rejection(committed: EncoderSettings, frame: Frame) -> Option<Reason> {
    if frame.kind != FrameKind::Video {
        Some(Reason::FrameKind)
    } else if committed.bit_depth != 8 {
        Some(Reason::BitDepth)
    } else if frame.planes@.len() != plane_count(committed.chroma_sampling) {
        Some(Reason::PlaneCount)
    } else if has_zero_stride(frame.planes@) {
        Some(Reason::PlaneStride)
    } else {
        None
    }
}

/// Tests whether some plane has a row pitch of zero.
pub fn any_zero_stride(planes: &Vec<Plane>) -> (found: bool)
    ensures
        found == has_zero_stride(planes@),
{
    let mut i: usize = 0;
    while i < planes.len()
        invariant
            i <= planes.len(),
            forall|j: int| 0 <= j < i ==> (#[trigger] planes@[j]).stride != 0,
        decreases planes.len() - i,
    {
        if planes[i].stride == 0 {
            return true;
        }
        i += 1;
    }
    false
}

/// Tests a frame against the configuration that a session was opened on.
pub fn check_frame(committed: &EncoderSettings, frame: &Frame) -> (rejection: Option<Reason>)
    ensures
        rejection == frame_rejection(*committed, *frame),
{
    match frame.kind {
        FrameKind::Video => {},
        _ => {
            return Some(Reason::FrameKind);
        },
    }
    if committed.bit_depth != 8 {
        Some(Reason::BitDepth)
    } else if frame.planes.len() != planes_of(committed.chroma_sampling) {
        Some(Reason::PlaneCount)
    } else if any_zero_stride(&frame.planes) {
        Some(Reason::PlaneStride)
    } else {
        None
    }
}

/// What the planes of a frame of the engine hold after the planes of a
/// picture were copied into them, the first into the first and so on: a
/// plane that the picture has not stays as it was.
pub open spec fn filled(before: Seq<Seq<u8>>, pitches: Seq<usize>, planes: Seq<Plane>) -> Seq<
    Seq<u8>,
> {
    Seq::new(
        before.len(),
        |j: int|
            if j < planes.len() {
                rows_copied(before[j], pitches[j] as int, planes[j].data@, planes[j].stride as int)
            } else {
                before[j]
            },
    )
}

/// What a frame of the engine holds after the planes of a picture were
/// copied into it.
pub open spec fn picture_of(fresh: NativeFrame, planes: Seq<Plane>) -> Seq<Seq<u8>> {
    filled(plane_samples(fresh), plane_pitches(fresh), planes)
}

/// Copies every plane of a picture into the plane of the same number of a
/// frame of the engine, row by row at one byte per sample.
pub fn fill_frame(frame_out: &mut NativeFrame, frame_in: &Frame)
    requires
        three_planes(*old(frame_out)),
        frame_in.planes@.len() <= 3,
        !has_zero_stride(frame_in.planes@),
    ensures
        three_planes(*final(frame_out)),
        plane_pitches(*final(frame_out)) == plane_pitches(*old(frame_out)),
        plane_samples(*final(frame_out)) == filled(
            plane_samples(*old(frame_out)),
            plane_pitches(*old(frame_out)),
            frame_in.planes@,
        ),
{
    let ghost before = plane_samples(*frame_out);
    let ghost pitches = plane_pitches(*frame_out);
    let count: usize = frame_in.planes.len();
    let mut i: usize = 0;
    while i < count
        invariant
            i <= count,
            count == frame_in.planes@.len(),
            count <= 3,
            !has_zero_stride(frame_in.planes@),
            before.len() == 3,
            three_planes(*frame_out),
            plane_pitches(*frame_out) == pitches,
            plane_samples(*frame_out) =~= filled(before, pitches, frame_in.planes@.take(i as int)),
        decreases count - i,
    {
        let plane = &frame_in.planes[i];
        assert(frame_in.planes@[i as int].stride != 0);
        copy_plane(frame_out, i, &plane.data, plane.stride);
        i += 1;
    }
    assert(frame_in.planes@.take(count as int) =~= frame_in.planes@);
}

/// A frame whose number of planes is not that of the session's chroma
/// subsampling is never accepted.
pub proof fn lemma_plane_mismatch_rejected(committed: EncoderSettings, frame: Frame)
    requires
        frame.planes@.len() != plane_count(committed.chroma_sampling),
    ensures
        frame_rejection(committed, frame) is Some,
{
}

} // verus!
