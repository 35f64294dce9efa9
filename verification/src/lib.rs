//! A verified driver core for the Himax HM01B0 image sensor.
//!
//! The HM01B0 is a 324×324 CMOS sensor with a Bayer colour filter array. It is
//! controlled over I2C (7-bit address `0x24`, 16-bit register addresses, 8-bit
//! register data) and delivers pixels over a separate 8-bit parallel bus.
//!
//! This crate is the control logic, written without performing any I/O: each
//! driver operation is planned as a [`Job`], a sequence of register
//! transfers, and the caller runs it on its bus, handing every result back.
//! The job stops at the first bus error and the driver commits its cached
//! state only when the whole job succeeded. Bring-up, which alternates bus
//! traffic, delays and decisions, is the [`Reset`] state machine.

pub mod bus;
pub mod cfa;
pub mod config;
pub mod driver;
pub mod registers;
pub mod reset;
pub mod timing;
pub mod trigger;

pub use bus::{address_frame, write_frame, Effect, Job, Transfer};
pub use cfa::{cfa_color_at, CfaColor, CFA_PATTERN};
pub use config::{Error, Exposure, Mode, MotionRoi, TestPattern};
pub use driver::Hm01b0;
pub use reset::{Reset, ResetAction};
pub use timing::{
    frame_period_us, max_integration_lines_for_period_us, FRAME_PERIOD_KNEE_LINES,
    LINE_PERIOD_NS, MIN_FRAME_PERIOD_US, VENDOR_MAX_INTEGRATION_LINES,
    VENDOR_MIN_INTEGRATION_LINES,
};
pub use trigger::TriggerLine;

use vstd::prelude::*;

verus! {

/// 7-bit I2C address of the HM01B0 as wired on the Coral Dev Board Micro.
pub const I2C_ADDRESS: u8 = 0x24;

/// Expected value of the 16-bit model ID (`MODEL_ID_H:MODEL_ID_L`).
pub const MODEL_ID: u16 = 0x01B0;

/// Native image width in pixels.
pub const WIDTH: u16 = 324;

/// Native image height in pixels.
pub const HEIGHT: u16 = 324;

/// Bytes per pixel on the parallel output bus: one 8-bit sample per
/// photosite, each photosite seeing one colour of [`CFA_PATTERN`].
pub const BYTES_PER_PIXEL: usize = 1;

/// Size of one native frame in bytes (`WIDTH * HEIGHT * BYTES_PER_PIXEL`).
#[verifier::nonlinear]
pub const FRAME_SIZE: usize = WIDTH as usize * HEIGHT as usize * BYTES_PER_PIXEL;

/// Number of model-ID read attempts made by bring-up ([`Reset`]).
///
/// The sensor may not answer immediately after its rails come up, so the read
/// is retried. This bound is what keeps bring-up from hanging.
pub const ID_ATTEMPTS: u8 = 10;

/// Settle time applied after each software reset, in milliseconds.
pub const RESET_SETTLE_MS: u32 = 10;

} // verus!
