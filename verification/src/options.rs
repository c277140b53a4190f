use vstd::prelude::*;
use crate::config::{EncoderSettings, Rational};
use crate::error::{EncoderError, Reason};

verus! {

/// The value of an option.
#[derive(Clone, Copy, Debug, PartialEq, Eq)]
pub enum OptionValue {
    /// A signed integer.
    I64(i64),
    /// An unsigned integer.
    U64(u64),
    /// A boolean.
    Bool(bool),
    /// A pair of signed integers, read as numerator and denominator.
    Pair(i64, i64),
    /// A text.
    Text,
    /// A value of any other shape.
    Other,
}

/// The options that the adapter knows.
#[derive(Clone, Copy, Debug, PartialEq, Eq)]
pub enum OptionKey {
    Width,
    Height,
    MinQuantizer,
    MaxQuantizer,
    TimeBase,
    LowLatency,
    TileCols,
    TileRows,
    Tiles,
    MaxKeyFrame,
    MinKeyFrame,
    LookaheadFrames,
    Psnr,
}

/// The option that a key names, if it names one.
pub open spec fn key_of(key: Seq<char>) -> Option<OptionKey> {
    if key == "w"@ {
        Some(OptionKey::Width)
    } else if key == "h"@ {
        Some(OptionKey::Height)
    } else if key == "qmin"@ {
        Some(OptionKey::MinQuantizer)
    } else if key == "qmax"@ {
        Some(OptionKey::MaxQuantizer)
    } else if key == "timebase"@ {
        Some(OptionKey::TimeBase)
    } else if key == "lowlatency"@ {
        Some(OptionKey::LowLatency)
    } else if key == "tilecols"@ {
        Some(OptionKey::TileCols)
    } else if key == "tilerows"@ {
        Some(OptionKey::TileRows)
    } else if key == "tiles"@ {
        Some(OptionKey::Tiles)
    } else if key == "maxkeyframe"@ {
        Some(OptionKey::MaxKeyFrame)
    } else if key == "minkeyframe"@ {
        Some(OptionKey::MinKeyFrame)
    } else if key == "lookaheadframes"@ {
        Some(OptionKey::LookaheadFrames)
    } else if key == "psnr"@ {
        Some(OptionKey::Psnr)
    } else {
        None
    }
}

/// The error for a value of the wrong shape.
pub open spec fn wrong_shape() -> Result<EncoderSettings, EncoderError> {
    Err(EncoderError::Unsupported(Reason::OptionValue))
}

/// The error for a value outside its field's range.
pub open spec fn out_of_range() -> Result<EncoderSettings, EncoderError> {
    Err(EncoderError::Unsupported(Reason::OptionRange))
}

/// The configuration after an option is set, or the error where the value has
/// the wrong shape for the option or does not fit its field. A size takes an
/// unsigned integer that fits `usize`, a quantizer one up to 255, an interval
/// any unsigned integer, a flag a boolean, and the time base a pair of two
/// positive integers.
pub open spec fn option_outcome(cfg: EncoderSettings, key: OptionKey, val: OptionValue) -> Result<
    EncoderSettings,
    EncoderError,
> {
    match (key, val) {
        (OptionKey::Width, OptionValue::U64(v)) => if v <= usize::MAX {
            Ok(EncoderSettings { width: v as usize, ..cfg })
        } else {
            out_of_range()
        },
        (OptionKey::Height, OptionValue::U64(v)) => if v <= usize::MAX {
            Ok(EncoderSettings { height: v as usize, ..cfg })
        } else {
            out_of_range()
        },
        (OptionKey::MinQuantizer, OptionValue::U64(v)) => if v <= u8::MAX {
            Ok(EncoderSettings { min_quantizer: v as u8, ..cfg })
        } else {
            out_of_range()
        },
        (OptionKey::MaxQuantizer, OptionValue::U64(v)) => if v <= u8::MAX {
            Ok(EncoderSettings { quantizer: v as u8, ..cfg })
        } else {
            out_of_range()
        },
        (OptionKey::TimeBase, OptionValue::Pair(num, den)) => if num > 0 && den > 0 {
            Ok(EncoderSettings { time_base: Rational { num: num as u64, den: den as u64 }, ..cfg })
        } else {
            out_of_range()
        },
        (OptionKey::LowLatency, OptionValue::Bool(v)) => Ok(
            EncoderSettings { low_latency: v, ..cfg },
        ),
        (OptionKey::TileCols, OptionValue::U64(v)) => if v <= usize::MAX {
            Ok(EncoderSettings { tile_cols: v as usize, ..cfg })
        } else {
            out_of_range()
        },
        (OptionKey::TileRows, OptionValue::U64(v)) => if v <= usize::MAX {
            Ok(EncoderSettings { tile_rows: v as usize, ..cfg })
        } else {
            out_of_range()
        },
        (OptionKey::Tiles, OptionValue::U64(v)) => if v <= usize::MAX {
            Ok(EncoderSettings { tiles: v as usize, ..cfg })
        } else {
            out_of_range()
        },
        (OptionKey::MaxKeyFrame, OptionValue::U64(v)) => Ok(
            EncoderSettings { max_key_frame_interval: v, ..cfg },
        ),
        (OptionKey::MinKeyFrame, OptionValue::U64(v)) => Ok(
            EncoderSettings { min_key_frame_interval: v, ..cfg },
        ),
        (OptionKey::LookaheadFrames, OptionValue::U64(v)) => if v <= usize::MAX {
            Ok(EncoderSettings { rdo_lookahead_frames: v as usize, ..cfg })
        } else {
            out_of_range()
        },
        (OptionKey::Psnr, OptionValue::Bool(v)) => Ok(EncoderSettings { show_psnr: v, ..cfg }),
        _ => wrong_shape(),
    }
}

/// The configuration after `key` is set to `val`, or the error: an unknown
/// key is refused before the value is looked at.
pub open spec fn requested(cfg: EncoderSettings, key: Seq<char>, val: OptionValue) -> Result<
    EncoderSettings,
    EncoderError,
> {
    match key_of(key) {
        Some(k) => option_outcome(cfg, k, val),
        None => Err(EncoderError::Unsupported(Reason::OptionKey)),
    }
}

/// `str`'s `==`: whether two strings hold the same characters.
#[verifier::external_body]
fn same_text(a: &str, b: &str) -> (same: bool)
    ensures
        same == (a@ == b@),
{
    a == b
}

/// Finds the option that a key names.
pub fn parse_key(key: &str) -> (found: Option<OptionKey>)
    ensures
        found == key_of(key@),
{
    if same_text(key, "w") {
        Some(OptionKey::Width)
    } else if same_text(key, "h") {
        Some(OptionKey::Height)
    } else if same_text(key, "qmin") {
        Some(OptionKey::MinQuantizer)
    } else if same_text(key, "qmax") {
        Some(OptionKey::MaxQuantizer)
    } else if same_text(key, "timebase") {
        Some(OptionKey::TimeBase)
    } else if same_text(key, "lowlatency") {
        Some(OptionKey::LowLatency)
    } else if same_text(key, "tilecols") {
        Some(OptionKey::TileCols)
    } else if same_text(key, "tilerows") {
        Some(OptionKey::TileRows)
    } else if same_text(key, "tiles") {
        Some(OptionKey::Tiles)
    } else if same_text(key, "maxkeyframe") {
        Some(OptionKey::MaxKeyFrame)
    } else if same_text(key, "minkeyframe") {
        Some(OptionKey::MinKeyFrame)
    } else if same_text(key, "lookaheadframes") {
        Some(OptionKey::LookaheadFrames)
    } else if same_text(key, "psnr") {
        Some(OptionKey::Psnr)
    } else {
        None
    }
}

/// Converts a size given as an option's value.
fn size_of_value(v: u64) -> (size: Option<usize>)
    ensures
        v <= usize::MAX ==> size == Some(v as usize),
        v > usize::MAX ==> size is None,
{
    if v <= usize::MAX as u64 {
        Some(v as usize)
    } else {
        None
    }
}

/// Sets one option in a configuration.
pub fn apply_option(cfg: EncoderSettings, key: OptionKey, val: OptionValue) -> (r: Result<
    EncoderSettings,
    EncoderError,
>)
    ensures
        r == option_outcome(cfg, key, val),
{
    let mut next = cfg;
    let range = Err(EncoderError::Unsupported(Reason::OptionRange));
    match (key, val) {
        (OptionKey::Width, OptionValue::U64(v)) => match size_of_value(v) {
            Some(n) => next.width = n,
            None => return range,
        },
        (OptionKey::Height, OptionValue::U64(v)) => match size_of_value(v) {
            Some(n) => next.height = n,
            None => return range,
        },
        (OptionKey::MinQuantizer, OptionValue::U64(v)) => {
            if v > 255 {
                return range;
            }
            next.min_quantizer = v as u8;
        },
        (OptionKey::MaxQuantizer, OptionValue::U64(v)) => {
            if v > 255 {
                return range;
            }
            next.quantizer = v as u8;
        },
        (OptionKey::TimeBase, OptionValue::Pair(num, den)) => {
            if num <= 0 || den <= 0 {
                return range;
            }
            next.time_base = Rational { num: num as u64, den: den as u64 };
        },
        (OptionKey::LowLatency, OptionValue::Bool(v)) => next.low_latency = v,
        (OptionKey::TileCols, OptionValue::U64(v)) => match size_of_value(v) {
            Some(n) => next.tile_cols = n,
            None => return range,
        },
        (OptionKey::TileRows, OptionValue::U64(v)) => match size_of_value(v) {
            Some(n) => next.tile_rows = n,
            None => return range,
        },
        (OptionKey::Tiles, OptionValue::U64(v)) => match size_of_value(v) {
            Some(n) => next.tiles = n,
            None => return range,
        },
        (OptionKey::MaxKeyFrame, OptionValue::U64(v)) => next.max_key_frame_interval = v,
        (OptionKey::MinKeyFrame, OptionValue::U64(v)) => next.min_key_frame_interval = v,
        (OptionKey::LookaheadFrames, OptionValue::U64(v)) => match size_of_value(v) {
            Some(n) => next.rdo_lookahead_frames = n,
            None => return range,
        },
        (OptionKey::Psnr, OptionValue::Bool(v)) => next.show_psnr = v,
        _ => return Err(EncoderError::Unsupported(Reason::OptionValue)),
    }
    Ok(next)
}

impl EncoderSettings {
    /// Sets the option that `key` names to `val`. On an error the
    /// configuration stays as it was.
    pub fn set_option(&mut self, key: &str, val: OptionValue) -> (r: Result<(), EncoderError>)
        ensures
            match requested(*old(self), key@, val) {
                Ok(next) => r is Ok && *final(self) == next,
                Err(e) => r == Err::<(), EncoderError>(e) && *final(self) == *old(self),
            },
    {
        match parse_key(key) {
            Some(k) => match apply_option(*self, k, val) {
                Ok(next) => {
                    *self = next;
                    Ok(())
                },
                Err(e) => Err(e),
            },
            None => Err(EncoderError::Unsupported(Reason::OptionKey)),
        }
    }
}

/// Setting an option changes at most the field that the option names: what
/// was set with another key before is still there.
pub proof fn lemma_options_do_not_disturb(cfg: EncoderSettings, key: OptionKey, val: OptionValue)
    requires
        option_outcome(cfg, key, val) is Ok,
    ensures
        ({
            let next = option_outcome(cfg, key, val)->Ok_0;
            &&& (key != OptionKey::Width ==> next.width == cfg.width)
            &&& (key != OptionKey::Height ==> next.height == cfg.height)
            &&& (key != OptionKey::MinQuantizer ==> next.min_quantizer == cfg.min_quantizer)
            &&& (key != OptionKey::MaxQuantizer ==> next.quantizer == cfg.quantizer)
            &&& (key != OptionKey::TimeBase ==> next.time_base == cfg.time_base)
            &&& (key != OptionKey::LowLatency ==> next.low_latency == cfg.low_latency)
            &&& (key != OptionKey::TileCols ==> next.tile_cols == cfg.tile_cols)
            &&& (key != OptionKey::TileRows ==> next.tile_rows == cfg.tile_rows)
            &&& (key != OptionKey::Tiles ==> next.tiles == cfg.tiles)
            &&& (key != OptionKey::MaxKeyFrame ==> next.max_key_frame_interval
                == cfg.max_key_frame_interval)
            &&& (key != OptionKey::MinKeyFrame ==> next.min_key_frame_interval
                == cfg.min_key_frame_interval)
            &&& (key != OptionKey::LookaheadFrames ==> next.rdo_lookahead_frames
                == cfg.rdo_lookahead_frames)
            &&& (key != OptionKey::Psnr ==> next.show_psnr == cfg.show_psnr)
            &&& next.bitrate == cfg.bitrate
            &&& next.reservoir_frame_delay == cfg.reservoir_frame_delay
            &&& next.color_description == cfg.color_description
            &&& next.bit_depth == cfg.bit_depth
            &&& next.chroma_sampling == cfg.chroma_sampling
            &&& next.chroma_sample_position == cfg.chroma_sample_position
        }),
{
}

/// Equal quantizer bounds are accepted: after the lower bound is set, the
/// upper bound may be set to the same value, and both are then stored.
pub proof fn lemma_equal_quantizer_bounds(cfg: EncoderSettings, q: u64)
    requires
        q <= u8::MAX,
    ensures
        option_outcome(cfg, OptionKey::MinQuantizer, OptionValue::U64(q)) is Ok,
        ({
            let low = option_outcome(cfg, OptionKey::MinQuantizer, OptionValue::U64(q))->Ok_0;
            let both = option_outcome(low, OptionKey::MaxQuantizer, OptionValue::U64(q));
            both is Ok && both->Ok_0.min_quantizer == q && both->Ok_0.quantizer == q
        }),
{
}

} // verus!
