//! HM01B0 register addresses and the power-on register table.
//!
//! The first block below is every register the power-on configuration in
//! [`DEFAULT_REGISTERS`] touches or that this driver writes at run time. The
//! second block holds registers that exist in the datasheet but are outside
//! that configuration; they are marked individually.

use vstd::prelude::*;

verus! {

// ---------------------------------------------------------------------------
// Registers in the power-on configuration
// ---------------------------------------------------------------------------

/// Model ID, high byte. Reads `0x01` on an HM01B0.
pub const MODEL_ID_H: u16 = 0x0000;
/// Model ID, low byte. Reads `0xB0` on an HM01B0.
pub const MODEL_ID_L: u16 = 0x0001;
/// Mode select. See [`Mode`](crate::Mode) for the values.
pub const MODE_SELECT: u16 = 0x0100;
/// Software reset. Written with `0x00`.
pub const SW_RESET: u16 = 0x0103;
/// Analog gain.
pub const ANALOG_GAIN: u16 = 0x0205;
/// Digital gain, high byte (integer part).
pub const DIGITAL_GAIN_H: u16 = 0x020E;
/// Digital gain, low byte (fractional part).
pub const DIGITAL_GAIN_L: u16 = 0x020F;
/// Digital gain control.
pub const DGAIN_CONTROL: u16 = 0x0350;
/// Test pattern mode. See [`TestPattern`](crate::TestPattern).
pub const TEST_PATTERN_MODE: u16 = 0x0601;
/// Black level calibration configuration.
pub const BLC_CFG: u16 = 0x1000;
/// Black level calibration dither.
pub const BLC_DITHER: u16 = 0x1001;
/// Black level calibration dark pixel target.
pub const BLC_DARKPIXEL: u16 = 0x1002;
/// Black level calibration target.
pub const BLC_TGT: u16 = 0x1003;
/// Black level interpolation enable.
pub const BLI_EN: u16 = 0x1006;
/// Second black level calibration target.
pub const BLC2_TGT: u16 = 0x1007;
/// Defect pixel correction control.
pub const DPC_CTRL: u16 = 0x1008;
/// Defect pixel cluster hot threshold.
pub const CLUSTER_THR_HOT: u16 = 0x1009;
/// Defect pixel cluster cold threshold.
pub const CLUSTER_THR_COLD: u16 = 0x100A;
/// Single defect pixel hot threshold.
pub const SINGLE_THR_HOT: u16 = 0x100B;
/// Single defect pixel cold threshold.
pub const SINGLE_THR_COLD: u16 = 0x100C;
/// VSYNC/HSYNC/pixel shift enable. Cleared by
/// [`Hm01b0::configure`](crate::Hm01b0::configure) before streaming.
pub const VSYNC_HSYNC_PIXEL_SHIFT_EN: u16 = 0x1012;
/// Statistics engine control.
pub const STATISTIC_CTRL: u16 = 0x2000;
/// Motion-detection ROI, X start, high byte.
pub const MD_LROI_X_START_H: u16 = 0x2011;
/// Motion-detection ROI, X start, low byte.
pub const MD_LROI_X_START_L: u16 = 0x2012;
/// Motion-detection ROI, Y start, high byte.
pub const MD_LROI_Y_START_H: u16 = 0x2013;
/// Motion-detection ROI, Y start, low byte.
pub const MD_LROI_Y_START_L: u16 = 0x2014;
/// Motion-detection ROI, X end, high byte.
pub const MD_LROI_X_END_H: u16 = 0x2015;
/// Motion-detection ROI, X end, low byte.
pub const MD_LROI_X_END_L: u16 = 0x2016;
/// Motion-detection ROI, Y end, high byte.
pub const MD_LROI_Y_END_H: u16 = 0x2017;
/// Motion-detection ROI, Y end, low byte.
pub const MD_LROI_Y_END_L: u16 = 0x2018;
/// Auto-exposure control. Bit 0 enables the AE loop.
pub const AE_CTRL: u16 = 0x2100;
/// Auto-exposure target mean brightness.
pub const AE_TARGET_MEAN: u16 = 0x2101;
/// Auto-exposure minimum mean brightness.
pub const AE_MIN_MEAN: u16 = 0x2102;
/// Auto-exposure convergence-in threshold.
pub const CONVERGE_IN_TH: u16 = 0x2103;
/// Auto-exposure convergence-out threshold.
pub const CONVERGE_OUT_TH: u16 = 0x2104;
/// Auto-exposure maximum integration time, high byte (in lines).
///
/// [`DEFAULT_REGISTERS`] writes `0x0214` (532 lines) across this and [`MAX_INTG_L`],
/// which is [`VENDOR_MAX_INTEGRATION_LINES`](crate::VENDOR_MAX_INTEGRATION_LINES)
/// and sits deliberately below the frame-rate knee. This is the most
/// consequential default in the table; see
/// [`Hm01b0::set_max_integration_lines`](crate::Hm01b0::set_max_integration_lines).
pub const MAX_INTG_H: u16 = 0x2105;
/// Auto-exposure maximum integration time, low byte (in lines). See
/// [`MAX_INTG_H`].
pub const MAX_INTG_L: u16 = 0x2106;
/// Auto-exposure minimum integration time (in lines). [`DEFAULT_REGISTERS`]
/// writes [`VENDOR_MIN_INTEGRATION_LINES`](crate::VENDOR_MIN_INTEGRATION_LINES).
pub const MIN_INTG: u16 = 0x2107;
/// Auto-exposure maximum analog gain, full resolution.
pub const MAX_AGAIN_FULL: u16 = 0x2108;
/// Auto-exposure maximum analog gain, 2x2 binned.
pub const MAX_AGAIN_BIN2: u16 = 0x2109;
/// Auto-exposure minimum analog gain.
pub const MIN_AGAIN: u16 = 0x210A;
/// Auto-exposure maximum digital gain.
pub const MAX_DGAIN: u16 = 0x210B;
/// Auto-exposure minimum digital gain.
pub const MIN_DGAIN: u16 = 0x210C;
/// Auto-exposure damping factor.
pub const DAMPING_FACTOR: u16 = 0x210D;
/// Flicker-suppression control.
pub const FS_CTRL: u16 = 0x210E;
/// Flicker suppression, 60 Hz, high byte.
pub const FS_60HZ_H: u16 = 0x210F;
/// Flicker suppression, 60 Hz, low byte.
pub const FS_60HZ_L: u16 = 0x2110;
/// Flicker suppression, 50 Hz, high byte.
pub const FS_50HZ_H: u16 = 0x2111;
/// Flicker suppression, 50 Hz, low byte.
pub const FS_50HZ_L: u16 = 0x2112;
/// Motion-detection control.
pub const MD_CTRL: u16 = 0x2150;
/// Clears the motion-detection interrupt when written with `1`.
pub const I2C_CLEAR: u16 = 0x2153;
/// Motion-detection threshold (low).
pub const MD_THL: u16 = 0x215B;
/// Output bit-depth / bus control.
pub const BIT_CONTROL: u16 = 0x3059;
/// Oscillator clock divider. Bit 5 selects gated-clock output mode.
pub const OSC_CLK_DIV: u16 = 0x3060;

// ---------------------------------------------------------------------------
// Registers outside the power-on configuration.
//
// These are what make manual exposure control possible; see the crate-level
// docs. Nothing in the known-good configuration writes them, so treat them as
// datasheet-derived rather than field-proven.
// ---------------------------------------------------------------------------

/// Group parameter hold.
///
/// Write `1` before changing exposure/gain and `0` afterwards so the sensor
/// latches the whole group on the same frame boundary instead of applying the
/// bytes piecemeal.
pub const GRP_PARAM_HOLD: u16 = 0x0104;
/// Coarse integration time, high byte, in lines.
pub const INTEGRATION_H: u16 = 0x0202;
/// Coarse integration time, low byte, in lines.
pub const INTEGRATION_L: u16 = 0x0203;

/// The power-on register table, in the order Google's coralmicro SDK writes
/// it on the Coral Dev Board Micro.
///
/// The values are the SDK's `CameraTask::SetDefaultRegisters()` table, which
/// is the configuration known to produce a good image on this part; they are
/// not invented here and must not be "cleaned up". See in particular the
/// `0x3044` to `0x3058` block, which the datasheet marks RESERVED but without
/// which the picture is bad.
///
/// Note that entry `AE_CTRL = 0x01` leaves auto-exposure enabled; see
/// [`Hm01b0::set_auto_exposure`](crate::Hm01b0::set_auto_exposure). Note also
/// that `MAX_INTG = 0x0214` caps that loop below the frame-rate knee, which
/// makes it underexpose rather than slow down; see
/// [`Hm01b0::set_max_integration_lines`](crate::Hm01b0::set_max_integration_lines).
pub const DEFAULT_REGISTERS: [(u16, u8); 45] = [
    // Analog settings.
    (BLC_TGT, 0x08),
    (BLC2_TGT, 0x08),
    // RESERVED in the datasheet, but the image is bad without them.
    (0x3044, 0x0A),
    (0x3045, 0x00),
    (0x3047, 0x0A),
    (0x3050, 0xC0),
    (0x3051, 0x42),
    (0x3052, 0x50),
    (0x3053, 0x00),
    (0x3054, 0x03),
    (0x3055, 0xF7),
    (0x3056, 0xF8),
    (0x3057, 0x29),
    (0x3058, 0x1F),
    (BIT_CONTROL, 0x1E),
    // Digital settings.
    (BLC_CFG, 0x43),
    (BLC_DITHER, 0x40),
    (BLC_DARKPIXEL, 0x32),
    (DGAIN_CONTROL, 0x7F),
    (BLI_EN, 0x01),
    (DPC_CTRL, 0x00),
    (CLUSTER_THR_HOT, 0xA0),
    (CLUSTER_THR_COLD, 0x60),
    (SINGLE_THR_HOT, 0x90),
    (SINGLE_THR_COLD, 0x40),
    // Auto-exposure settings.
    (STATISTIC_CTRL, 0x07),
    (AE_CTRL, 0x01),
    (AE_TARGET_MEAN, 0x5F),
    (AE_MIN_MEAN, 0x0A),
    (CONVERGE_IN_TH, 0x03),
    (CONVERGE_OUT_TH, 0x05),
    (MAX_INTG_H, 0x02),
    (MAX_INTG_L, 0x14),
    (MIN_INTG, 0x02),
    (MAX_AGAIN_FULL, 0x03),
    (MAX_AGAIN_BIN2, 0x03),
    (MIN_AGAIN, 0x00),
    (MAX_DGAIN, 0x80),
    (MIN_DGAIN, 0x40),
    (DAMPING_FACTOR, 0x20),
    // 60 Hz flicker suppression.
    (FS_CTRL, 0x03),
    (FS_60HZ_H, 0x00),
    (FS_60HZ_L, 0x85),
    (FS_50HZ_H, 0x00),
    (FS_50HZ_L, 0xA0),
];


/// The power-on table programs the auto-exposure bounds the crate documents:
/// `MAX_INTG_H:MAX_INTG_L` is
/// [`VENDOR_MAX_INTEGRATION_LINES`](crate::VENDOR_MAX_INTEGRATION_LINES),
/// `MIN_INTG` is
/// [`VENDOR_MIN_INTEGRATION_LINES`](crate::VENDOR_MIN_INTEGRATION_LINES), and
/// auto-exposure is left enabled; no register appears twice, so these are the
/// values the sensor ends up with.
pub proof fn lemma_default_table_programs_the_vendor_ae_bounds()
    ensures
        DEFAULT_REGISTERS@.len() == 45,
        DEFAULT_REGISTERS@[31] == (MAX_INTG_H, 0x02u8),
        DEFAULT_REGISTERS@[32] == (MAX_INTG_L, 0x14u8),
        DEFAULT_REGISTERS@[33] == (MIN_INTG, 0x02u8),
        DEFAULT_REGISTERS@[26] == (AE_CTRL, 0x01u8),
        0x02 * 256 + 0x14 == crate::VENDOR_MAX_INTEGRATION_LINES,
        0x02 == crate::VENDOR_MIN_INTEGRATION_LINES,
        forall|i: int, j: int|
            0 <= i < j < 45 ==> #[trigger] DEFAULT_REGISTERS@[i].0 != #[trigger] DEFAULT_REGISTERS@[j].0,
{
    assert forall|i: int, j: int| 0 <= i < j < 45 implies #[trigger] DEFAULT_REGISTERS@[i].0
        != #[trigger] DEFAULT_REGISTERS@[j].0 by {
        let t = DEFAULT_REGISTERS@;
        assert(t[0].0 == 0x1003 && t[1].0 == 0x1007 && t[2].0 == 0x3044 && t[3].0 == 0x3045);
        assert(t[4].0 == 0x3047 && t[5].0 == 0x3050 && t[6].0 == 0x3051 && t[7].0 == 0x3052);
        assert(t[8].0 == 0x3053 && t[9].0 == 0x3054 && t[10].0 == 0x3055 && t[11].0 == 0x3056);
        assert(t[12].0 == 0x3057 && t[13].0 == 0x3058 && t[14].0 == 0x3059 && t[15].0 == 0x1000);
        assert(t[16].0 == 0x1001 && t[17].0 == 0x1002 && t[18].0 == 0x0350 && t[19].0 == 0x1006);
        assert(t[20].0 == 0x1008 && t[21].0 == 0x1009 && t[22].0 == 0x100A && t[23].0 == 0x100B);
        assert(t[24].0 == 0x100C && t[25].0 == 0x2000 && t[26].0 == 0x2100 && t[27].0 == 0x2101);
        assert(t[28].0 == 0x2102 && t[29].0 == 0x2103 && t[30].0 == 0x2104 && t[31].0 == 0x2105);
        assert(t[32].0 == 0x2106 && t[33].0 == 0x2107 && t[34].0 == 0x2108 && t[35].0 == 0x2109);
        assert(t[36].0 == 0x210A && t[37].0 == 0x210B && t[38].0 == 0x210C && t[39].0 == 0x210D);
        assert(t[40].0 == 0x210E && t[41].0 == 0x210F && t[42].0 == 0x2110 && t[43].0 == 0x2111);
        assert(t[44].0 == 0x2112);
    }
}

} // verus!
