use vstd::prelude::*;

verus! {

/// A ratio of two unsigned integers.
#[derive(Clone, Copy, Debug, PartialEq, Eq)]
pub struct Rational {
    pub num: u64,
    pub den: u64,
}

/// How the chroma planes are subsampled.
#[derive(Clone, Copy, Debug, PartialEq, Eq)]
pub enum ChromaSampling {
    /// Both directions halved.
    Cs420,
    /// Horizontally halved.
    Cs422,
    /// Not subsampled.
    Cs444,
    /// No chroma planes.
    Cs400,
}

/// Where a chroma sample lies among the luma samples.
#[derive(Clone, Copy, Debug, PartialEq, Eq)]
pub enum ChromaSamplePosition {
    Unknown,
    Vertical,
    Colocated,
}

/// The code that the colour standards give to "unspecified".
pub const UNSPECIFIED: u64 = 2;

/// The colour description of a stream, each part by its standard code.
#[derive(Clone, Copy, Debug, PartialEq, Eq)]
pub struct ColorDescription {
    pub color_primaries: u64,
    pub matrix_coefficients: u64,
    pub transfer_characteristics: u64,
}

/// The configuration that the adapter stores.
#[derive(Clone, Copy, Debug, PartialEq, Eq)]
pub struct EncoderSettings {
    /// Frame width in pixels.
    pub width: usize,
    /// Frame height in pixels.
    pub height: usize,
    /// Lowest quantizer.
    pub min_quantizer: u8,
    /// Highest quantizer.
    pub quantizer: u8,
    /// The stream's time base.
    pub time_base: Rational,
    /// Tile columns.
    pub tile_cols: usize,
    /// Tile rows.
    pub tile_rows: usize,
    /// Tiles in all.
    pub tiles: usize,
    /// Shortest key-frame interval.
    pub min_key_frame_interval: u64,
    /// Longest key-frame interval; 0 for no bound.
    pub max_key_frame_interval: u64,
    /// Frames that the engine looks ahead.
    pub rdo_lookahead_frames: usize,
    /// Low-latency mode.
    pub low_latency: bool,
    /// Bitrate target; 0 or less when unset.
    pub bitrate: i32,
    /// Frames of reservoir delay.
    pub reservoir_frame_delay: Option<i32>,
    /// Colour description.
    pub color_description: Option<ColorDescription>,
    /// Bits per sample.
    pub bit_depth: usize,
    /// Chroma subsampling.
    pub chroma_sampling: ChromaSampling,
    /// Chroma sample position.
    pub chroma_sample_position: ChromaSamplePosition,
    /// Whether PSNR is reported.
    pub show_psnr: bool,
}

/// The configuration of a fresh adapter.
pub open spec fn default_settings() -> EncoderSettings {
    EncoderSettings {
        width: 640,
        height: 480,
        min_quantizer: 0,
        quantizer: 100,
        time_base: Rational { num: 1, den: 30 },
        tile_cols: 0,
        tile_rows: 0,
        tiles: 0,
        min_key_frame_interval: 12,
        max_key_frame_interval: 240,
        rdo_lookahead_frames: 20,
        low_latency: false,
        bitrate: 0,
        reservoir_frame_delay: None,
        color_description: None,
        bit_depth: 8,
        chroma_sampling: ChromaSampling::Cs420,
        chroma_sample_position: ChromaSamplePosition::Unknown,
        show_psnr: false,
    }
}

/// The number of planes in a picture of the given chroma subsampling.
pub open spec fn plane_count(sampling: ChromaSampling) -> usize {
    match sampling {
        ChromaSampling::Cs400 => 1,
        _ => 3,
    }
}

/// Computes the number of planes in a picture of the given chroma subsampling.
pub fn planes_of(sampling: ChromaSampling) -> (count: usize)
    ensures
        count == plane_count(sampling),
{
    match sampling {
        ChromaSampling::Cs400 => 1,
        _ => 3,
    }
}

impl Default for EncoderSettings {
    fn default() -> (settings: EncoderSettings)
        ensures
            settings == default_settings(),
    {
        EncoderSettings {
            width: 640,
            height: 480,
            min_quantizer: 0,
            quantizer: 100,
            time_base: Rational { num: 1, den: 30 },
            tile_cols: 0,
            tile_rows: 0,
            tiles: 0,
            min_key_frame_interval: 12,
            max_key_frame_interval: 240,
            rdo_lookahead_frames: 20,
            low_latency: false,
            bitrate: 0,
            reservoir_frame_delay: None,
            color_description: None,
            bit_depth: 8,
            chroma_sampling: ChromaSampling::Cs420,
            chroma_sample_position: ChromaSamplePosition::Unknown,
            show_psnr: false,
        }
    }
}

} // verus!
