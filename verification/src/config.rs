//! Operating modes, test patterns, exposure and motion-detection settings,
//! and the driver's error type.

use core::fmt::Write;

use vstd::prelude::*;

use crate::{HEIGHT, MODEL_ID, WIDTH};
use crate::timing::VENDOR_MAX_INTEGRATION_LINES;

verus! {

/// Errors returned by this driver.
#[derive(Debug, Clone, Copy, PartialEq, Eq)]
#[non_exhaustive]
pub enum Error<E> {
    /// The underlying I2C bus returned an error.
    I2c(E),
    /// The part did not identify itself as an HM01B0.
    ///
    /// The sensor answered on the bus but reported a model ID other than
    /// [`MODEL_ID`]. A value of `0xFFFF` usually means the camera rails are
    /// off rather than that the wrong part is fitted.
    ModelId {
        /// The 16-bit model ID actually read back.
        found: u16,
    },
    /// A motion-detection region of interest fell outside the sensor array or
    /// had its start beyond its end.
    InvalidRoi,
}

impl<E> From<E> for Error<E> {
    /// Wraps a bus error.
    fn from(err: E) -> (wrapped: Self) {
        Error::I2c(err)
    }
}

impl<E> vstd::std_specs::convert::FromSpecImpl<E> for Error<E> {
    open spec fn obeys_from_spec() -> bool {
        true
    }

    open spec fn from_spec(err: E) -> Self {
        Error::I2c(err)
    }
}

/// One lowercase hexadecimal digit.
pub open spec fn hex_digit(d: int) -> char {
    if d < 10 {
        (('0' as int) + d) as char
    } else {
        (('a' as int) + d - 10) as char
    }
}

/// A 16-bit value as `0x` and four lowercase hexadecimal digits.
pub open spec fn hex_u16(v: u16) -> Seq<char> {
    seq!['0', 'x', hex_digit((v / 4096) as int), hex_digit(((v / 256) % 16) as int),
        hex_digit(((v / 16) % 16) as int), hex_digit((v % 16) as int)]
}

/// The text of a hexadecimal digit.
fn hex_digit_text(d: u16) -> (text: &'static str)
    requires
        d < 16,
    ensures
        text@ == seq![hex_digit(d as int)],
{
    proof {
        reveal_strlit("0");
        reveal_strlit("1");
        reveal_strlit("2");
        reveal_strlit("3");
        reveal_strlit("4");
        reveal_strlit("5");
        reveal_strlit("6");
        reveal_strlit("7");
        reveal_strlit("8");
        reveal_strlit("9");
        reveal_strlit("a");
        reveal_strlit("b");
        reveal_strlit("c");
        reveal_strlit("d");
        reveal_strlit("e");
        reveal_strlit("f");
    }
    match d {
        0 => "0",
        1 => "1",
        2 => "2",
        3 => "3",
        4 => "4",
        5 => "5",
        6 => "6",
        7 => "7",
        8 => "8",
        9 => "9",
        10 => "a",
        11 => "b",
        12 => "c",
        13 => "d",
        14 => "e",
        _ => "f",
    }
}

/// Appends `v` as `0x` and four lowercase hexadecimal digits.
fn push_hex_u16(text: &mut String, v: u16)
    ensures
        final(text)@ == old(text)@ + hex_u16(v),
{
    proof {
        reveal_strlit("0x");
    }
    text.append("0x");
    text.append(hex_digit_text(v / 4096));
    text.append(hex_digit_text((v / 256) % 16));
    text.append(hex_digit_text((v / 16) % 16));
    text.append(hex_digit_text(v % 16));
    assert(final(text)@ =~= old(text)@ + hex_u16(v));
}

/// The `Debug` rendering of a value, written into a new `String` with
/// `write!`; `None` when the value's `Debug` impl reports a formatting error.
#[verifier::external_body]
fn debug_text<T: core::fmt::Debug>(value: &T) -> Option<String> {
    let mut text = String::new();
    match write!(text, "{value:?}") {
        Ok(()) => Some(text),
        Err(_) => None,
    }
}

impl<E: core::fmt::Debug> Error<E> {
    /// A human-readable description of the error.
    ///
    /// A bus error is described as `"I2C error: "` followed by its `Debug`
    /// rendering; if that rendering fails, the description is `None`, as a
    /// formatter would report the failure rather than produce text.
    pub fn message(&self) -> (text: Option<String>)
        ensures
            match self {
                Error::I2c(_) => text matches Some(t) ==> t@.len() >= 11 && t@.take(11)
                    == "I2C error: "@,
                Error::ModelId { found } => text matches Some(t) && t@
                    == "not an HM01B0: model ID is "@ + hex_u16(*found) + ", expected "@ + hex_u16(
                    MODEL_ID,
                ),
                Error::InvalidRoi => text matches Some(t) && t@
                    == "motion-detection ROI out of range"@,
            },
    {
        match self {
            Error::I2c(e) => {
                let detail = match debug_text(e) {
                    Some(detail) => detail,
                    None => {
                        return None;
                    },
                };
                let mut text = String::from_str("I2C error: ");
                text.append(detail.as_str());
                proof {
                    reveal_strlit("I2C error: ");
                    assert(text@.take(11) =~= "I2C error: "@);
                }
                Some(text)
            },
            Error::ModelId { found } => {
                let mut text = String::from_str("not an HM01B0: model ID is ");
                push_hex_u16(&mut text, *found);
                text.append(", expected ");
                push_hex_u16(&mut text, MODEL_ID);
                Some(text)
            },
            Error::InvalidRoi => Some(String::from_str("motion-detection ROI out of range")),
        }
    }
}

/// Sensor operating mode.
#[derive(Debug, Clone, Copy, PartialEq, Eq, Structural)]
pub enum Mode {
    /// Standby: the sensor stops driving the parallel bus and keeps its
    /// register configuration.
    Standby,
    /// Free-running capture, one frame every `frame_period_us` of the current
    /// integration time.
    Streaming,
    /// Hardware-triggered single-frame capture, one frame per assertion of
    /// the external trigger pin (see [`TriggerLine`](crate::TriggerLine)).
    Trigger,
}

/// The value written to `MODE_SELECT` for each mode.
pub open spec fn spec_mode_value(mode: Mode) -> u8 {
    match mode {
        Mode::Standby => 0,
        Mode::Streaming => 1,
        Mode::Trigger => 5,
    }
}

impl Mode {
    /// The value written to [`registers::MODE_SELECT`](crate::registers::MODE_SELECT).
    pub fn register_value(self) -> (value: u8)
        ensures
            value == spec_mode_value(self),
    {
        match self {
            Mode::Standby => 0,
            Mode::Streaming => 1,
            Mode::Trigger => 5,
        }
    }
}

/// Built-in test patterns.
#[derive(Debug, Clone, Copy, PartialEq, Eq, Structural)]
pub enum TestPattern {
    /// No test pattern; the sensor outputs real pixel data.
    Off,
    /// Colour-bar pattern.
    ColorBar,
    /// Walking-ones pattern, useful for checking the parallel data bus wiring.
    WalkingOnes,
}

/// The value written to `TEST_PATTERN_MODE` for each pattern.
pub open spec fn spec_pattern_value(pattern: TestPattern) -> u8 {
    match pattern {
        TestPattern::Off => 0x00,
        TestPattern::ColorBar => 0x01,
        TestPattern::WalkingOnes => 0x11,
    }
}

impl TestPattern {
    /// The value written to
    /// [`registers::TEST_PATTERN_MODE`](crate::registers::TEST_PATTERN_MODE).
    pub fn register_value(self) -> (value: u8)
        ensures
            value == spec_pattern_value(self),
    {
        match self {
            TestPattern::Off => 0x00,
            TestPattern::ColorBar => 0x01,
            TestPattern::WalkingOnes => 0x11,
        }
    }
}

/// A rectangular region of interest for in-sensor motion detection.
///
/// Coordinates are inclusive pixel indices in the native
/// [`WIDTH`]×[`HEIGHT`] array.
#[derive(Debug, Clone, Copy, PartialEq, Eq, Structural)]
pub struct MotionRoi {
    /// Left-most pixel of the detection zone.
    pub x0: u16,
    /// Top-most pixel of the detection zone.
    pub y0: u16,
    /// Right-most pixel of the detection zone.
    pub x1: u16,
    /// Bottom-most pixel of the detection zone.
    pub y1: u16,
}

impl MotionRoi {
    /// Whether the region lies inside the array and is not inverted.
    pub open spec fn is_valid(self) -> bool {
        self.x0 <= self.x1 && self.y0 <= self.y1 && self.x1 < WIDTH && self.y1 < HEIGHT
    }

    /// The whole sensor array.
    pub fn full() -> (roi: Self)
        ensures
            roi == (MotionRoi { x0: 0, y0: 0, x1: (WIDTH - 1) as u16, y1: (HEIGHT - 1) as u16 }),
            roi.is_valid(),
    {
        Self { x0: 0, y0: 0, x1: WIDTH - 1, y1: HEIGHT - 1 }
    }

    /// Whether the region lies inside the array and is not inverted.
    pub fn validate(&self) -> (ok: bool)
        ensures
            ok == self.is_valid(),
            ok == (self.x0 <= self.x1 && self.y0 <= self.y1 && self.x1 < 324 && self.y1 < 324),
    {
        proof {
            lemma_valid_regions_lie_inside_the_array(*self);
        }
        self.x0 <= self.x1 && self.y0 <= self.y1 && self.x1 < WIDTH && self.y1 < HEIGHT
    }
}

/// A region is valid exactly when it is not inverted in either direction
/// and its far corner lies inside the 324×324 array.
pub proof fn lemma_valid_regions_lie_inside_the_array(roi: MotionRoi)
    ensures
        roi.is_valid() <==> (roi.x0 <= roi.x1 && roi.y0 <= roi.y1 && roi.x1 < 324 && roi.y1 < 324),
        roi.is_valid() ==> roi.x0 < 324 && roi.y0 < 324,
{
}

impl Default for MotionRoi {
    /// The whole sensor array.
    fn default() -> (roi: Self)
        ensures
            roi == (MotionRoi { x0: 0, y0: 0, x1: (WIDTH - 1) as u16, y1: (HEIGHT - 1) as u16 }),
    {
        Self::full()
    }
}

/// A fixed exposure operating point, applied by
/// [`Hm01b0::set_exposure`](crate::Hm01b0::set_exposure).
#[derive(Debug, Clone, Copy, PartialEq, Eq, Structural)]
pub struct Exposure {
    /// Coarse integration time in line periods (one line is
    /// [`LINE_PERIOD_NS`](crate::LINE_PERIOD_NS)).
    pub integration_lines: u16,
    /// Raw value for [`registers::ANALOG_GAIN`](crate::registers::ANALOG_GAIN)
    /// (`n << 4` selects 2ⁿ× per the datasheet).
    pub analog_gain: u8,
    /// Raw 16-bit value for the digital gain register pair; `0x0100` is unity.
    pub digital_gain: u16,
}

impl Default for Exposure {
    /// The vendor auto-exposure ceiling at unity gain: the brightest the stock
    /// configuration can get.
    fn default() -> (exposure: Self)
        ensures
            exposure == (Exposure {
                integration_lines: VENDOR_MAX_INTEGRATION_LINES,
                analog_gain: 0x00,
                digital_gain: 0x0100,
            }),
    {
        Self { integration_lines: VENDOR_MAX_INTEGRATION_LINES, analog_gain: 0x00, digital_gain: 0x0100 }
    }
}

} // verus!
