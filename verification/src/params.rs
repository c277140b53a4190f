use vstd::prelude::*;
use crate::config::{
    ChromaSamplePosition,
    ChromaSampling,
    ColorDescription,
    EncoderSettings,
    UNSPECIFIED,
};
use crate::error::{EncoderError, Reason};

verus! {

/// One colour component of a pixel format.
#[derive(Clone, Copy, Debug, PartialEq, Eq)]
pub struct Component {
    /// Bits per sample.
    pub depth: u8,
    /// Horizontal subsampling, as a power of two.
    pub h_ss: u8,
    /// Vertical subsampling, as a power of two.
    pub v_ss: u8,
}

/// What the adapter reads of a pixel format: the colour description, each
/// part by its standard code where the format gives one, the number of
/// components and the first of them.
#[derive(Clone, Copy, Debug, PartialEq, Eq)]
pub struct PixelFormat {
    pub primaries: Option<u64>,
    pub matrix: Option<u64>,
    pub transfer: Option<u64>,
    pub components: usize,
    pub first_component: Option<Component>,
}

/// A picture stream's description.
#[derive(Clone, Copy, Debug, PartialEq, Eq)]
pub struct VideoInfo {
    pub width: usize,
    pub height: usize,
    pub format: Option<PixelFormat>,
}

/// The kind of a stream.
#[derive(Clone, Copy, Debug, PartialEq, Eq)]
pub enum MediaKind {
    Video(VideoInfo),
    Audio,
}

/// The generic parameters of a stream.
#[derive(Clone, Debug, PartialEq, Eq)]
pub struct CodecParams {
    pub kind: Option<MediaKind>,
    pub codec_id: Option<String>,
    pub extradata: Option<Vec<u8>>,
    pub bit_rate: usize,
    pub convergence_window: usize,
    pub delay: usize,
}

/// Planar eight-bit YUV with both chroma directions halved: the format that
/// the adapter reports.
pub open spec fn yuv420() -> PixelFormat {
    PixelFormat {
        primaries: Some(UNSPECIFIED),
        matrix: Some(UNSPECIFIED),
        transfer: Some(UNSPECIFIED),
        components: 3,
        first_component: Some(Component { depth: 8, h_ss: 0, v_ss: 0 }),
    }
}

/// The stream kind that is reported for a configuration.
pub open spec fn reported_kind(cfg: EncoderSettings) -> MediaKind {
    MediaKind::Video(VideoInfo { width: cfg.width, height: cfg.height, format: Some(yuv420()) })
}

/// The bitrate that is reported for a configuration: the target, or 0 where
/// none is set.
pub open spec fn reported_bit_rate(cfg: EncoderSettings) -> usize {
    if cfg.bitrate > 0 {
        cfg.bitrate as usize
    } else {
        0
    }
}

/// The delay that is reported for a configuration: the reservoir's frames,
/// or 0 where none is set.
pub open spec fn reported_delay(cfg: EncoderSettings) -> usize {
    match cfg.reservoir_frame_delay {
        Some(d) => if d > 0 {
            d as usize
        } else {
            0
        },
        None => 0,
    }
}

/// Whether the parameters fit the configuration's fields: the bitrate always,
/// the delay where the stream is a picture stream.
pub open spec fn params_accepted(params: CodecParams) -> bool {
    &&& params.bit_rate <= i32::MAX
    &&& (params.kind matches Some(MediaKind::Video(_)) ==> params.delay <= i32::MAX)
}

/// A code, or that of "unspecified" where there is none.
pub open spec fn code_or_unspecified(code: Option<u64>) -> u64 {
    match code {
        Some(c) => c,
        None => UNSPECIFIED,
    }
}

/// The configuration after a pixel format is applied: the colour
/// description is the format's, the chroma sample position is unknown, and
/// where the format has a first component, the bit depth is its depth and
/// the chroma subsampling is 4:2:0 if its factors are (1, 1), else as before.
pub open spec fn with_format(cfg: EncoderSettings, format: PixelFormat) -> EncoderSettings {
    let described = EncoderSettings {
        color_description: Some(
            ColorDescription {
                color_primaries: code_or_unspecified(format.primaries),
                matrix_coefficients: code_or_unspecified(format.matrix),
                transfer_characteristics: code_or_unspecified(format.transfer),
            },
        ),
        chroma_sample_position: ChromaSamplePosition::Unknown,
        ..cfg
    };
    match format.first_component {
        Some(c) if format.components > 0 => EncoderSettings {
            bit_depth: c.depth as usize,
            chroma_sampling: if c.h_ss == 1 && c.v_ss == 1 {
                ChromaSampling::Cs420
            } else {
                cfg.chroma_sampling
            },
            ..described
        },
        _ => described,
    }
}

/// The configuration after a picture stream's description is applied.
pub open spec fn with_video(cfg: EncoderSettings, info: VideoInfo, delay: usize) -> EncoderSettings {
    let sized = EncoderSettings {
        width: info.width,
        height: info.height,
        reservoir_frame_delay: Some(delay as i32),
        ..cfg
    };
    match info.format {
        Some(format) => with_format(sized, format),
        None => sized,
    }
}

/// The configuration after accepted parameters are applied: the bitrate in
/// any case, the rest where the stream is a picture stream.
pub open spec fn with_params(cfg: EncoderSettings, params: CodecParams) -> EncoderSettings {
    let rated = EncoderSettings { bitrate: params.bit_rate as i32, ..cfg };
    match params.kind {
        Some(MediaKind::Video(info)) => with_video(rated, info, params.delay),
        _ => rated,
    }
}

/// Applies a pixel format to a configuration.
pub fn apply_format(cfg: EncoderSettings, format: &PixelFormat) -> (next: EncoderSettings)
    ensures
        next == with_format(cfg, *format),
{
    let mut next = cfg;
    next.color_description = Some(
        ColorDescription {
            color_primaries: match format.primaries {
                Some(c) => c,
                None => UNSPECIFIED,
            },
            matrix_coefficients: match format.matrix {
                Some(c) => c,
                None => UNSPECIFIED,
            },
            transfer_characteristics: match format.transfer {
                Some(c) => c,
                None => UNSPECIFIED,
            },
        },
    );
    next.chroma_sample_position = ChromaSamplePosition::Unknown;
    if format.components > 0 {
        if let Some(c) = format.first_component {
            next.bit_depth = c.depth as usize;
            if c.h_ss == 1 && c.v_ss == 1 {
                next.chroma_sampling = ChromaSampling::Cs420;
            }
        }
    }
    next
}

impl EncoderSettings {
    /// Reports the configuration as generic stream parameters: the codec
    /// "av1", a picture stream of the configured size in the reported
    /// format, the bitrate and the delay.
    pub fn get_params(&self) -> (params: CodecParams)
        ensures
            params.kind == Some(reported_kind(*self)),
            params.codec_id matches Some(id) && id@ == "av1"@,
            params.extradata is None,
            params.bit_rate == reported_bit_rate(*self),
            params.convergence_window == 0,
            params.delay == reported_delay(*self),
    {
        let format = PixelFormat {
            primaries: Some(UNSPECIFIED),
            matrix: Some(UNSPECIFIED),
            transfer: Some(UNSPECIFIED),
            components: 3,
            first_component: Some(Component { depth: 8, h_ss: 0, v_ss: 0 }),
        };
        let delay: usize = match self.reservoir_frame_delay {
            Some(d) => if d > 0 {
                d as usize
            } else {
                0
            },
            None => 0,
        };
        CodecParams {
            kind: Some(
                MediaKind::Video(
                    VideoInfo { width: self.width, height: self.height, format: Some(format) },
                ),
            ),
            codec_id: Some("av1".to_owned()),
            extradata: None,
            bit_rate: if self.bitrate > 0 {
                self.bitrate as usize
            } else {
                0
            },
            convergence_window: 0,
            delay,
        }
    }

    /// Applies generic stream parameters. Parameters that do not fit the
    /// configuration's fields are refused, and the configuration then stays
    /// as it was.
    pub fn set_params(&mut self, params: &CodecParams) -> (r: Result<(), EncoderError>)
        ensures
            params_accepted(*params) ==> r is Ok && *final(self) == with_params(
                *old(self),
                *params,
            ),
            !params_accepted(*params) ==> r == Err::<(), EncoderError>(
                EncoderError::Unsupported(Reason::ParamRange),
            ) && *final(self) == *old(self),
    {
        if params.bit_rate > i32::MAX as usize {
            return Err(EncoderError::Unsupported(Reason::ParamRange));
        }
        let mut next = *self;
        next.bitrate = params.bit_rate as i32;
        if let Some(MediaKind::Video(info)) = params.kind {
            if params.delay > i32::MAX as usize {
                return Err(EncoderError::Unsupported(Reason::ParamRange));
            }
            next.width = info.width;
            next.height = info.height;
            next.reservoir_frame_delay = Some(params.delay as i32);
            if let Some(format) = info.format {
                next = apply_format(next, &format);
            }
        }
        *self = next;
        Ok(())
    }
}

/// Round trip: what is reported right after accepted parameters of a picture
/// stream were applied has their width, height, bitrate and delay.
pub proof fn lemma_params_round_trip(cfg: EncoderSettings, params: CodecParams)
    requires
        params_accepted(params),
        params.kind matches Some(MediaKind::Video(_)),
    ensures
        ({
            let next = with_params(cfg, params);
            let info = params.kind->Some_0->Video_0;
            &&& reported_kind(next)->Video_0.width == info.width
            &&& reported_kind(next)->Video_0.height == info.height
            &&& reported_bit_rate(next) == params.bit_rate
            &&& reported_delay(next) == params.delay
        }),
{
}

/// Parameters of a stream that is no picture stream change the bitrate and
/// nothing else.
pub proof fn lemma_other_kinds_set_bitrate_only(cfg: EncoderSettings, params: CodecParams)
    requires
        params_accepted(params),
        !(params.kind matches Some(MediaKind::Video(_))),
    ensures
        with_params(cfg, params) == (EncoderSettings { bitrate: params.bit_rate as i32, ..cfg }),
{
}

} // verus!
