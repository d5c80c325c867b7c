//! Start-up configuration: read once, validated once, then passed by
//! reference to the stages that need it.

use vstd::prelude::*;
use crate::downsample::MAX_DIMENSION;

verus! {

/// Width that frames are scaled to unless configured otherwise.
pub const DEFAULT_TARGET_WIDTH: u32 = 960;

/// Frames of memory of the background model unless configured otherwise.
pub const DEFAULT_HISTORY: u32 = 500;

/// Whether the background model tells shadow from foreground unless
/// configured otherwise.
pub const DEFAULT_DETECT_SHADOWS: bool = true;

/// Number of lit mask pixels that a frame must exceed to count as motion.
pub const DEFAULT_MOTION_THRESHOLD: u32 = 500;

/// Longest history that the background model takes.
pub const MAX_HISTORY: u32 = 0x7fff_ffff;

/// The options of the pipeline that are whole numbers or flags.
#[derive(Clone, Copy, Debug, PartialEq, Eq, Structural)]
pub struct Settings {
    /// Width that normalised frames are scaled to before detection.
    pub target_width: u32,
    /// Frames of memory of the background model.
    pub history: u32,
    /// Whether the background model marks shadow apart from foreground.
    pub detect_shadows: bool,
    /// Lit mask pixels that a frame must exceed to count as motion.
    pub motion_threshold: u32,
}

/// The option that a start-up value was refused for.
#[derive(Clone, Copy, Debug, PartialEq, Eq, Structural)]
pub enum ConfigError {
    /// The target width is not a positive size.
    TargetWidth,
    /// The history length is not a positive count.
    History,
}

/// The settings in force when nothing is overridden.
pub open spec fn default_settings() -> Settings {
    Settings {
        target_width: DEFAULT_TARGET_WIDTH,
        history: DEFAULT_HISTORY,
        detect_shadows: DEFAULT_DETECT_SHADOWS,
        motion_threshold: DEFAULT_MOTION_THRESHOLD,
    }
}

/// A value that can serve as a positive size or count.
pub open spec fn positive(value: i32) -> bool {
    value >= 1
}

/// The settings that a set of overrides leads to: each option takes its
/// override where one is given, its default otherwise; an override of the
/// target width or of the history that is not positive is refused, the
/// target width first.
pub open spec fn resolved(
    target_width: Option<i32>,
    history: Option<i32>,
    detect_shadows: Option<bool>,
) -> Result<Settings, ConfigError> {
    if target_width matches Some(w) && !positive(w) {
        Err(ConfigError::TargetWidth)
    } else if history matches Some(h) && !positive(h) {
        Err(ConfigError::History)
    } else {
        Ok(
            Settings {
                target_width: match target_width {
                    Some(w) => w as u32,
                    None => DEFAULT_TARGET_WIDTH,
                },
                history: match history {
                    Some(h) => h as u32,
                    None => DEFAULT_HISTORY,
                },
                detect_shadows: match detect_shadows {
                    Some(flag) => flag,
                    None => DEFAULT_DETECT_SHADOWS,
                },
                motion_threshold: DEFAULT_MOTION_THRESHOLD,
            },
        )
    }
}

/// An ASCII capital letter as its small letter, any other byte unchanged.
pub open spec fn ascii_lower(byte: u8) -> u8 {
    if 0x41 <= byte <= 0x5a {
        (byte + 0x20) as u8
    } else {
        byte
    }
}

/// `text` reads as `word` when ASCII capitals count as small letters.
pub open spec fn spells(text: Seq<u8>, word: Seq<u8>) -> bool {
    text.len() == word.len() && forall|i: int|
        0 <= i < text.len() ==> ascii_lower(#[trigger] text[i]) == word[i]
}

/// The bytes of `0`.
pub open spec fn word_zero() -> Seq<u8> {
    seq![0x30u8]
}

/// The bytes of `false`.
pub open spec fn word_false() -> Seq<u8> {
    seq![0x66u8, 0x61u8, 0x6cu8, 0x73u8, 0x65u8]
}

/// The flag that a textual override stands for: off for `0` and for
/// `false` in any mix of capitals, on for every other text.
pub open spec fn flag_of(text: Seq<u8>) -> bool {
    !(spells(text, word_zero()) || spells(text, word_false()))
}

/// Executable `ascii_lower`.
fn lower(byte: u8) -> (small: u8)
    ensures
        small == ascii_lower(byte),
{
    if 0x41 <= byte && byte <= 0x5a {
        byte + 0x20
    } else {
        byte
    }
}

/// Executable `spells`.
fn reads_as(text: &[u8], word: &[u8]) -> (same: bool)
    ensures
        same == spells(text@, word@),
{
    if text.len() != word.len() {
        return false;
    }
    let mut i: usize = 0;
    while i < text.len()
        invariant
            i <= text@.len(),
            text@.len() == word@.len(),
            forall|j: int| 0 <= j < i ==> ascii_lower(#[trigger] text@[j]) == word@[j],
        decreases text@.len() - i,
    {
        if lower(text[i]) != word[i] {
            return false;
        }
        i = i + 1;
    }
    true
}

/// Reads a textual override of a flag.
pub fn parse_flag(text: &[u8]) -> (flag: bool)
    ensures
        flag == flag_of(text@),
{
    let zero: [u8; 1] = [0x30];
    let no: [u8; 5] = [0x66, 0x61, 0x6c, 0x73, 0x65];
    assert(zero@ =~= word_zero());
    assert(no@ =~= word_false());
    !(reads_as(text, zero.as_slice()) || reads_as(text, no.as_slice()))
}

impl Settings {
    /// The target width is a size that the resampler takes and the history
    /// a positive count that the background model takes.
    pub open spec fn valid(&self) -> bool {
        &&& 1 <= self.target_width <= MAX_DIMENSION
        &&& 1 <= self.history <= MAX_HISTORY
    }

    /// Tests at run time whether the settings are valid.
    pub fn is_valid(&self) -> (ok: bool)
        ensures
            ok == self.valid(),
    {
        1 <= self.target_width && self.target_width <= MAX_DIMENSION && 1 <= self.history
            && self.history <= MAX_HISTORY
    }

    /// Builds the settings from the overrides found at start-up.
    pub fn resolve(
        target_width: Option<i32>,
        history: Option<i32>,
        detect_shadows: Option<bool>,
    ) -> (result: Result<Settings, ConfigError>)
        ensures
            result == resolved(target_width, history, detect_shadows),
            result matches Ok(settings) ==> settings.valid(),
    {
        let width: u32 = match target_width {
            Some(w) => {
                if w < 1 {
                    return Err(ConfigError::TargetWidth);
                }
                w as u32
            },
            None => DEFAULT_TARGET_WIDTH,
        };
        let frames: u32 = match history {
            Some(h) => {
                if h < 1 {
                    return Err(ConfigError::History);
                }
                h as u32
            },
            None => DEFAULT_HISTORY,
        };
        let shadows: bool = match detect_shadows {
            Some(flag) => flag,
            None => DEFAULT_DETECT_SHADOWS,
        };
        Ok(
            Settings {
                target_width: width,
                history: frames,
                detect_shadows: shadows,
                motion_threshold: DEFAULT_MOTION_THRESHOLD,
            },
        )
    }
}

impl Default for Settings {
    fn default() -> (settings: Settings)
        ensures
            settings == default_settings(),
            settings.valid(),
    {
        Settings {
            target_width: DEFAULT_TARGET_WIDTH,
            history: DEFAULT_HISTORY,
            detect_shadows: DEFAULT_DETECT_SHADOWS,
            motion_threshold: DEFAULT_MOTION_THRESHOLD,
        }
    }
}

} // verus!
