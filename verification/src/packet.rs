use vstd::prelude::*;
use crate::error::{EncoderError, Reason};

verus! {

/// The kind of a coded frame.
#[derive(Clone, Copy, Debug, PartialEq, Eq)]
pub enum PictureType {
    Key,
    Inter,
    IntraOnly,
    Switch,
}

/// What the adapter reads of a packet of the engine.
#[derive(Clone, Debug, PartialEq, Eq)]
pub struct BackendPacket {
    /// The compressed payload.
    pub data: Vec<u8>,
    /// The number of the input frame that the packet codes.
    pub input_frameno: u64,
    /// The kind of the coded frame.
    pub frame_type: PictureType,
}

/// Timing of a packet; every part may be unset.
#[derive(Clone, Copy, Debug, PartialEq, Eq)]
pub struct TimeInfo {
    pub pts: Option<i64>,
    pub dts: Option<i64>,
    pub duration: Option<u64>,
    pub timebase: Option<(i64, i64)>,
}

/// A unit of compressed output.
#[derive(Clone, Debug, PartialEq, Eq)]
pub struct Packet {
    /// The compressed payload.
    pub data: Vec<u8>,
    /// Position in the stream, if any.
    pub pos: Option<usize>,
    /// The number of the input frame, as the stream-position token.
    pub stream_index: isize,
    /// Timing.
    pub t: TimeInfo,
    /// Whether the packet holds a key frame.
    pub is_key: bool,
    /// Whether the packet is damaged.
    pub is_corrupted: bool,
}

/// Timing with every part unset.
pub open spec fn unset_time() -> TimeInfo {
    TimeInfo { pts: None, dts: None, duration: None, timebase: None }
}

/// The packet that stands for a packet of the engine: the same payload, no
/// position, the frame number as stream index, unset timing, the key flag
/// exactly for a key frame, never damaged. A frame number beyond the stream
/// index's range is refused.
pub open spec fn packet_of(packet: BackendPacket) -> Result<Packet, EncoderError> {
    if packet.input_frameno <= isize::MAX {
        Ok(
            Packet {
                data: packet.data,
                pos: None,
                stream_index: packet.input_frameno as isize,
                t: unset_time(),
                is_key: packet.frame_type == PictureType::Key,
                is_corrupted: false,
            },
        )
    } else {
        Err(EncoderError::Unsupported(Reason::StreamIndex))
    }
}

/// Turns a packet of the engine into a packet of the interface.
pub fn packet_from_backend(packet: BackendPacket) -> (r: Result<Packet, EncoderError>)
    ensures
        r == packet_of(packet),
{
    if packet.input_frameno <= isize::MAX as u64 {
        let is_key = match packet.frame_type {
            PictureType::Key => true,
            _ => false,
        };
        Ok(
            Packet {
                data: packet.data,
                pos: None,
                stream_index: packet.input_frameno as isize,
                t: TimeInfo { pts: None, dts: None, duration: None, timebase: None },
                is_key,
                is_corrupted: false,
            },
        )
    } else {
        Err(EncoderError::Unsupported(Reason::StreamIndex))
    }
}

/// In a packet that was made from one of the engine, the payload and the
/// frame number are the engine's, and the key flag is set for a key frame and
/// for no other.
pub proof fn lemma_packet_keeps_engine_data(packet: BackendPacket)
    requires
        packet.input_frameno <= isize::MAX,
    ensures
        packet_of(packet) is Ok,
        packet_of(packet)->Ok_0.data@ == packet.data@,
        packet_of(packet)->Ok_0.stream_index == packet.input_frameno,
        packet_of(packet)->Ok_0.is_key <==> packet.frame_type == PictureType::Key,
        !packet_of(packet)->Ok_0.is_corrupted,
        packet_of(packet)->Ok_0.pos is None,
{
}

} // verus!
