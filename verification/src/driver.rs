//! The [`Hm01b0`] driver and the register sequences of its operations.
//!
//! Every bus-touching operation returns a [`Job`]: the exact register
//! transfers the operation makes, in order, together with the cached state
//! it commits if they all succeed. The caller runs the job on its bus and
//! hands it back through [`Hm01b0::complete`].

use vstd::prelude::*;

use crate::bus::{spec_high_byte, spec_low_byte, Effect, Job, Transfer};
use crate::config::{spec_mode_value, spec_pattern_value, Error, Exposure, Mode, MotionRoi, TestPattern};
use crate::registers;
use crate::registers::DEFAULT_REGISTERS;
use crate::reset::{reset_outcome, Reset};
use crate::{I2C_ADDRESS, MODEL_ID};

verus! {

/// A register write.
pub open spec fn write_of(reg: u16, value: u8) -> Transfer {
    Transfer::Write { reg, value }
}

/// A register read.
pub open spec fn read_of(reg: u16) -> Transfer {
    Transfer::Read { reg }
}

/// A 16-bit value written to an adjacent high/low register pair, high first.
pub open spec fn pair_writes(high: u16, low: u16, value: u16) -> Seq<Transfer> {
    seq![write_of(high, spec_high_byte(value)), write_of(low, spec_low_byte(value))]
}

/// The power-on register table as writes, in table order.
pub open spec fn default_writes() -> Seq<Transfer> {
    DEFAULT_REGISTERS@.map_values(|entry: (u16, u8)| write_of(entry.0, entry.1))
}

/// The motion-detection registers for a configuration: the region, threshold
/// and interrupt clear when enabled, only the control register when not.
pub open spec fn motion_writes(motion: Option<MotionRoi>) -> Seq<Transfer> {
    match motion {
        Some(roi) => seq![write_of(registers::MD_CTRL, 3), write_of(registers::MD_THL, 1)]
            + pair_writes(registers::MD_LROI_X_START_H, registers::MD_LROI_X_START_L, roi.x0)
            + pair_writes(registers::MD_LROI_Y_START_H, registers::MD_LROI_Y_START_L, roi.y0)
            + pair_writes(registers::MD_LROI_X_END_H, registers::MD_LROI_X_END_L, roi.x1)
            + pair_writes(registers::MD_LROI_Y_END_H, registers::MD_LROI_Y_END_L, roi.y1)
            + seq![write_of(registers::I2C_CLEAR, 1)],
        None => seq![write_of(registers::MD_CTRL, 0)],
    }
}

/// The power-on table followed by the motion-detection registers.
pub open spec fn defaults_with_motion(motion: Option<MotionRoi>) -> Seq<Transfer> {
    default_writes() + motion_writes(motion)
}

/// The power-on configuration after the clock-divider read returned
/// `osc_clk_div`: gated clock (bit 5), the table and motion registers, then
/// the pixel-shift clear.
pub open spec fn configure_writes(osc_clk_div: u8, motion: Option<MotionRoi>) -> Seq<Transfer> {
    seq![write_of(registers::OSC_CLK_DIV, osc_clk_div | 0x20)] + defaults_with_motion(motion)
        + seq![write_of(registers::VSYNC_HSYNC_PIXEL_SHIFT_EN, 0)]
}

/// A group-held integration-time update.
pub open spec fn integration_writes(lines: u16) -> Seq<Transfer> {
    seq![write_of(registers::GRP_PARAM_HOLD, 1)] + pair_writes(
        registers::INTEGRATION_H,
        registers::INTEGRATION_L,
        lines,
    ) + seq![write_of(registers::GRP_PARAM_HOLD, 0)]
}

/// A group-held fixed exposure: auto-exposure off, integration, analogue and
/// digital gain.
pub open spec fn exposure_writes(exposure: Exposure) -> Seq<Transfer> {
    seq![write_of(registers::GRP_PARAM_HOLD, 1), write_of(registers::AE_CTRL, 0)]
        + pair_writes(registers::INTEGRATION_H, registers::INTEGRATION_L, exposure.integration_lines)
        + seq![write_of(registers::ANALOG_GAIN, exposure.analog_gain)]
        + pair_writes(registers::DIGITAL_GAIN_H, registers::DIGITAL_GAIN_L, exposure.digital_gain)
        + seq![write_of(registers::GRP_PARAM_HOLD, 0)]
}

/// The blocks a synthetic image must bypass: auto-exposure, black-level
/// calibration and defect-pixel correction off, unity gain.
pub open spec fn pattern_bypass_writes() -> Seq<Transfer> {
    seq![
        write_of(registers::AE_CTRL, 0),
        write_of(registers::BLC_CFG, 0),
        write_of(registers::DPC_CTRL, 0),
        write_of(registers::ANALOG_GAIN, 0),
        write_of(registers::DIGITAL_GAIN_H, 1),
        write_of(registers::DIGITAL_GAIN_L, 0),
    ]
}

/// Selecting a test pattern: the bypass writes when one is enabled, the whole
/// default configuration when it is turned off, then the pattern register.
pub open spec fn test_pattern_writes(pattern: TestPattern, motion: Option<MotionRoi>) -> Seq<
    Transfer,
> {
    (if pattern == TestPattern::Off {
        defaults_with_motion(motion)
    } else {
        pattern_bypass_writes()
    }) + seq![write_of(registers::TEST_PATTERN_MODE, spec_pattern_value(pattern))]
}

/// The two reads of the model ID, high byte first.
pub open spec fn model_id_reads() -> Seq<Transfer> {
    seq![read_of(registers::MODEL_ID_H), read_of(registers::MODEL_ID_L)]
}

/// The identity check on a model-ID read: the read's error, a mismatch, or
/// success.
pub open spec fn identity_verdict<E>(id: Result<u16, Error<E>>) -> Result<(), Error<E>> {
    match id {
        Err(e) => Err(e),
        Ok(found) => if found == MODEL_ID {
            Ok(())
        } else {
            Err(Error::ModelId { found })
        },
    }
}

/// What a step of the driver's life did to the cached mode.
pub enum ModeStep {
    /// `MODE_SELECT` was written with this mode and the write succeeded.
    Wrote(Mode),
    /// Bring-up succeeded, leaving the sensor in standby.
    Reset,
    /// Nothing the sensor acknowledged changed its mode.
    Unchanged,
}

/// The cached mode after one step.
pub open spec fn mode_after(mode: Mode, step: ModeStep) -> Mode {
    match step {
        ModeStep::Wrote(m) => m,
        ModeStep::Reset => Mode::Standby,
        ModeStep::Unchanged => mode,
    }
}

/// The mode the sensor last acknowledged over a run of steps: that of the
/// latest successful mode write, unless a successful bring-up came after it,
/// and standby if there was none.
pub open spec fn acknowledged_mode(steps: Seq<ModeStep>) -> Mode
    decreases steps.len(),
{
    if steps.len() == 0 {
        Mode::Standby
    } else {
        match steps.last() {
            ModeStep::Wrote(m) => m,
            ModeStep::Reset => Mode::Standby,
            ModeStep::Unchanged => acknowledged_mode(steps.drop_last()),
        }
    }
}

/// How completing a finished job steps the cached mode: a successful job
/// planned by a mode change writes that mode, anything else changes nothing.
pub open spec fn completion_step<E>(job: Job<E>) -> ModeStep {
    match job.commit() {
        Effect::Mode(m) => if job.error() is None {
            ModeStep::Wrote(m)
        } else {
            ModeStep::Unchanged
        },
        _ => ModeStep::Unchanged,
    }
}

/// A job whose effect matches its plan: a mode it commits is the one its
/// single `MODE_SELECT` write sends, and a motion configuration it commits is
/// a valid one whose registers are exactly what it writes. Every job the
/// driver plans is such a job.
pub open spec fn effect_matches_plan<E>(job: Job<E>) -> bool {
    &&& job.commit() matches Effect::Mode(m) ==> job.transfers() == seq![
        write_of(registers::MODE_SELECT, spec_mode_value(m)),
    ]
    &&& job.commit() matches Effect::Motion(r) ==> job.transfers() == motion_writes(r) && (r matches Some(x) ==> x.is_valid())
}

/// The cached mode is the one the sensor last acknowledged: starting from a
/// new driver (standby), if every step is a completion, a finished bring-up
/// or a call that does not touch the mode, the final cached mode is that of
/// the latest successful mode write after the latest successful bring-up, or
/// standby.
pub proof fn lemma_mode_is_the_last_acknowledged(modes: Seq<Mode>, steps: Seq<ModeStep>)
    requires
        modes.len() == steps.len() + 1,
        modes[0] == Mode::Standby,
        forall|i: int| 0 <= i < steps.len() ==> modes[i + 1] == mode_after(modes[i], #[trigger] steps[i]),
    ensures
        modes.last() == acknowledged_mode(steps),
    decreases steps.len(),
{
    if steps.len() > 0 {
        let n = steps.len() as int;
        lemma_mode_is_the_last_acknowledged(modes.drop_last(), steps.drop_last());
        assert(modes[n] == mode_after(modes[n - 1], steps[n - 1]));
    }
}

/// Every transaction a driver issues goes to the address it was built with:
/// no call changes the address, so along any run of calls it stays the
/// construction address that [`Hm01b0::address`] reports to the caller.
pub proof fn lemma_address_is_fixed<I2C>(states: Seq<Hm01b0<I2C>>, address: u8)
    requires
        states.len() > 0,
        states[0].bus_address() == address,
        forall|i: int| 0 <= i < states.len() - 1 ==> #[trigger] states[i + 1].bus_address() == states[i].bus_address(),
    ensures
        forall|i: int| 0 <= i < states.len() ==> #[trigger] states[i].bus_address() == address,
{
    assert forall|i: int| 0 <= i < states.len() implies #[trigger] states[i].bus_address()
        == address by {
        lemma_address_is_fixed_up_to(states, address, i);
    }
}

proof fn lemma_address_is_fixed_up_to<I2C>(states: Seq<Hm01b0<I2C>>, address: u8, i: int)
    requires
        0 <= i < states.len(),
        states[0].bus_address() == address,
        forall|j: int| 0 <= j < states.len() - 1 ==> #[trigger] states[j + 1].bus_address() == states[j].bus_address(),
    ensures
        states[i].bus_address() == address,
    decreases i,
{
    if i > 0 {
        lemma_address_is_fixed_up_to(states, address, i - 1);
        let j = i - 1;
        assert(states[j + 1].bus_address() == states[j].bus_address());
    }
}

/// The job that reads the model ID.
pub(crate) fn model_id_job<E>() -> (job: Job<E>)
    ensures
        job.is_fresh(model_id_reads(), Effect::Nothing),
{
    let mut plan = Vec::new();
    plan.push(Transfer::Read { reg: registers::MODEL_ID_H });
    plan.push(Transfer::Read { reg: registers::MODEL_ID_L });
    assert(plan@ =~= model_id_reads());
    Job::new(plan, Effect::Nothing)
}

/// The software-reset write.
pub open spec fn software_reset_writes() -> Seq<Transfer> {
    seq![write_of(registers::SW_RESET, 0)]
}

/// The job that issues a software reset.
pub(crate) fn software_reset_job<E>() -> (job: Job<E>)
    ensures
        job.is_fresh(software_reset_writes(), Effect::Nothing),
{
    let mut plan = Vec::new();
    push_write(&mut plan, registers::SW_RESET, 0x00);
    Job::new(plan, Effect::Nothing)
}

/// Plan sizes: the default table with motion detection off is 46 writes and
/// with a region 56; the power-on configuration adds the clock and shift
/// writes, 48 and 58. Every one of them is a write.
pub proof fn lemma_plan_sizes(osc_clk_div: u8, roi: MotionRoi)
    ensures
        default_writes().len() == 45,
        defaults_with_motion(None).len() == 46,
        defaults_with_motion(Some(roi)).len() == 56,
        configure_writes(osc_clk_div, None).len() == 48,
        configure_writes(osc_clk_div, Some(roi)).len() == 58,
        forall|i: int|
            0 <= i < configure_writes(osc_clk_div, None).len() ==> #[trigger] configure_writes(
                osc_clk_div,
                None,
            )[i] is Write,
        forall|i: int|
            0 <= i < configure_writes(osc_clk_div, Some(roi)).len() ==> #[trigger] configure_writes(
                osc_clk_div,
                Some(roi),
            )[i] is Write,
{
    registers::lemma_default_table_programs_the_vendor_ae_bounds();
    assert forall|i: int|
        0 <= i < configure_writes(osc_clk_div, None).len() implies #[trigger] configure_writes(
            osc_clk_div,
            None,
        )[i] is Write by {
        if 1 <= i < 46 {
            assert(configure_writes(osc_clk_div, None)[i] == default_writes()[i - 1]);
        }
    }
    assert forall|i: int|
        0 <= i < configure_writes(osc_clk_div, Some(roi)).len() implies #[trigger] configure_writes(
            osc_clk_div,
            Some(roi),
        )[i] is Write by {
        if 1 <= i < 46 {
            assert(configure_writes(osc_clk_div, Some(roi))[i] == default_writes()[i - 1]);
        }
    }
}

/// Re-applying the default table puts the vendor auto-exposure ceiling back:
/// it writes `MAX_INTG_H:MAX_INTG_L` with
/// [`VENDOR_MAX_INTEGRATION_LINES`](crate::VENDOR_MAX_INTEGRATION_LINES) and
/// re-enables auto-exposure, whatever the motion configuration.
pub proof fn lemma_defaults_restore_the_vendor_ceiling(motion: Option<MotionRoi>)
    ensures
        defaults_with_motion(motion)[26] == write_of(registers::AE_CTRL, 1),
        defaults_with_motion(motion).subrange(31, 33) == pair_writes(
            registers::MAX_INTG_H,
            registers::MAX_INTG_L,
            crate::VENDOR_MAX_INTEGRATION_LINES,
        ),
{
    registers::lemma_default_table_programs_the_vendor_ae_bounds();
    assert(defaults_with_motion(motion).subrange(31, 33) =~= pair_writes(
        registers::MAX_INTG_H,
        registers::MAX_INTG_L,
        crate::VENDOR_MAX_INTEGRATION_LINES,
    ));
}

/// Configuration turns on gated-clock output and keeps the rest of the clock
/// divider: its first write goes to `OSC_CLK_DIV` (0x3060) with bit 5 set and
/// every other bit as read.
pub proof fn lemma_configure_sets_only_the_gated_clock_bit(clock: u8, motion: Option<MotionRoi>)
    ensures
        configure_writes(clock, motion).len() >= 1,
        configure_writes(clock, motion)[0] is Write,
        configure_writes(clock, motion)[0]->Write_reg == 0x3060,
        configure_writes(clock, motion)[0]->value & 0x20 == 0x20,
        configure_writes(clock, motion)[0]->value & 0xDF == clock & 0xDF,
{
    assert((clock | 0x20u8) & 0x20u8 == 0x20u8 && (clock | 0x20u8) & 0xDFu8 == clock & 0xDFu8)
        by (bit_vector);
}

/// A fixed exposure is eight writes: group hold on, auto-exposure off, the
/// integration time high then low byte, the analogue gain, the digital gain
/// high then low byte, group hold off. Every value is the caller's, whole:
/// nothing is capped or masked.
pub proof fn lemma_exposure_writes_the_operating_point(exposure: Exposure)
    ensures
        exposure_writes(exposure) == seq![
            Transfer::Write { reg: 0x0104, value: 1 },
            Transfer::Write { reg: 0x2100, value: 0 },
            Transfer::Write { reg: 0x0202, value: (exposure.integration_lines / 256) as u8 },
            Transfer::Write { reg: 0x0203, value: (exposure.integration_lines % 256) as u8 },
            Transfer::Write { reg: 0x0205, value: exposure.analog_gain },
            Transfer::Write { reg: 0x020E, value: (exposure.digital_gain / 256) as u8 },
            Transfer::Write { reg: 0x020F, value: (exposure.digital_gain % 256) as u8 },
            Transfer::Write { reg: 0x0104, value: 0 },
        ],
        (exposure.integration_lines / 256) as u8 * 256 + (exposure.integration_lines % 256) as u8
            == exposure.integration_lines,
        (exposure.digital_gain / 256) as u8 * 256 + (exposure.digital_gain % 256) as u8
            == exposure.digital_gain,
{
    assert(exposure_writes(exposure) =~= seq![
        Transfer::Write { reg: 0x0104, value: 1 },
        Transfer::Write { reg: 0x2100, value: 0 },
        Transfer::Write { reg: 0x0202, value: (exposure.integration_lines / 256) as u8 },
        Transfer::Write { reg: 0x0203, value: (exposure.integration_lines % 256) as u8 },
        Transfer::Write { reg: 0x0205, value: exposure.analog_gain },
        Transfer::Write { reg: 0x020E, value: (exposure.digital_gain / 256) as u8 },
        Transfer::Write { reg: 0x020F, value: (exposure.digital_gain % 256) as u8 },
        Transfer::Write { reg: 0x0104, value: 0 },
    ]);
}

/// An integration-time update is four writes: group hold on, the line count
/// high then low byte, group hold off. The pair written reads back as the
/// line count for every `u16`.
pub proof fn lemma_integration_writes_the_line_count(lines: u16)
    ensures
        integration_writes(lines) == seq![
            Transfer::Write { reg: 0x0104, value: 1 },
            Transfer::Write { reg: 0x0202, value: (lines / 256) as u8 },
            Transfer::Write { reg: 0x0203, value: (lines % 256) as u8 },
            Transfer::Write { reg: 0x0104, value: 0 },
        ],
        (lines / 256) as u8 * 256 + (lines % 256) as u8 == lines,
{
    assert(integration_writes(lines) =~= seq![
        Transfer::Write { reg: 0x0104, value: 1 },
        Transfer::Write { reg: 0x0202, value: (lines / 256) as u8 },
        Transfer::Write { reg: 0x0203, value: (lines % 256) as u8 },
        Transfer::Write { reg: 0x0104, value: 0 },
    ]);
}

/// The auto-exposure ceiling is written as two bytes, `MAX_INTG_H` (0x2105)
/// then `MAX_INTG_L` (0x2106), that read back as the line count.
pub proof fn lemma_ceiling_writes_the_line_count(lines: u16)
    ensures
        pair_writes(registers::MAX_INTG_H, registers::MAX_INTG_L, lines) == seq![
            Transfer::Write { reg: 0x2105, value: (lines / 256) as u8 },
            Transfer::Write { reg: 0x2106, value: (lines % 256) as u8 },
        ],
        (lines / 256) as u8 * 256 + (lines % 256) as u8 == lines,
{
    assert(pair_writes(registers::MAX_INTG_H, registers::MAX_INTG_L, lines) =~= seq![
        Transfer::Write { reg: 0x2105, value: (lines / 256) as u8 },
        Transfer::Write { reg: 0x2106, value: (lines % 256) as u8 },
    ]);
}

/// Every enabled pattern first bypasses the same blocks: auto-exposure
/// (0x2100), black-level calibration (0x1000) and defect-pixel correction
/// (0x1008) off, analogue gain 0 and digital gain 0x0100 (unity), and only
/// then selects the pattern in `TEST_PATTERN_MODE` (0x0601): 0x01 for the
/// colour bars, 0x11 for walking ones. Turning patterns off writes the whole
/// default table first and ends with 0x00.
pub proof fn lemma_test_patterns_bypass_the_image_pipeline(pattern: TestPattern, motion: Option<
    MotionRoi,
>)
    ensures
        pattern != TestPattern::Off ==> test_pattern_writes(pattern, motion) == seq![
            Transfer::Write { reg: 0x2100, value: 0 },
            Transfer::Write { reg: 0x1000, value: 0 },
            Transfer::Write { reg: 0x1008, value: 0 },
            Transfer::Write { reg: 0x0205, value: 0 },
            Transfer::Write { reg: 0x020E, value: 1 },
            Transfer::Write { reg: 0x020F, value: 0 },
            Transfer::Write {
                reg: 0x0601,
                value: if pattern == TestPattern::ColorBar {
                    1u8
                } else {
                    0x11u8
                },
            },
        ],
        pattern == TestPattern::Off ==> test_pattern_writes(pattern, motion).take(45)
            == DEFAULT_REGISTERS@.map_values(
            |entry: (u16, u8)| Transfer::Write { reg: entry.0, value: entry.1 },
        ),
        test_pattern_writes(pattern, motion).last() == (Transfer::Write {
            reg: 0x0601,
            value: match pattern {
                TestPattern::Off => 0u8,
                TestPattern::ColorBar => 1u8,
                TestPattern::WalkingOnes => 0x11u8,
            },
        }),
{
    let writes = test_pattern_writes(pattern, motion);
    if pattern != TestPattern::Off {
        assert(writes =~= seq![
            Transfer::Write { reg: 0x2100, value: 0 },
            Transfer::Write { reg: 0x1000, value: 0 },
            Transfer::Write { reg: 0x1008, value: 0 },
            Transfer::Write { reg: 0x0205, value: 0 },
            Transfer::Write { reg: 0x020E, value: 1 },
            Transfer::Write { reg: 0x020F, value: 0 },
            Transfer::Write {
                reg: 0x0601,
                value: if pattern == TestPattern::ColorBar {
                    1u8
                } else {
                    0x11u8
                },
            },
        ]);
    } else {
        registers::lemma_default_table_programs_the_vendor_ae_bounds();
        assert(writes.take(45) =~= DEFAULT_REGISTERS@.map_values(
            |entry: (u16, u8)| Transfer::Write { reg: entry.0, value: entry.1 },
        ));
    }
}

/// Motion detection on a region writes `MD_CTRL` (0x2150) 3, `MD_THL`
/// (0x215B) 1, the region's corners as high/low byte pairs in 0x2011..0x2018
/// (x start, y start, x end, y end), and clears the interrupt (0x2153 = 1);
/// turning it off writes `MD_CTRL` 0 alone.
pub proof fn lemma_motion_writes_the_region(motion: Option<MotionRoi>)
    ensures
        motion is None ==> motion_writes(motion) == seq![Transfer::Write { reg: 0x2150, value: 0 }],
        motion matches Some(r) ==> motion_writes(motion) == seq![
            Transfer::Write { reg: 0x2150, value: 3 },
            Transfer::Write { reg: 0x215B, value: 1 },
            Transfer::Write { reg: 0x2011, value: (r.x0 / 256) as u8 },
            Transfer::Write { reg: 0x2012, value: (r.x0 % 256) as u8 },
            Transfer::Write { reg: 0x2013, value: (r.y0 / 256) as u8 },
            Transfer::Write { reg: 0x2014, value: (r.y0 % 256) as u8 },
            Transfer::Write { reg: 0x2015, value: (r.x1 / 256) as u8 },
            Transfer::Write { reg: 0x2016, value: (r.x1 % 256) as u8 },
            Transfer::Write { reg: 0x2017, value: (r.y1 / 256) as u8 },
            Transfer::Write { reg: 0x2018, value: (r.y1 % 256) as u8 },
            Transfer::Write { reg: 0x2153, value: 1 },
        ],
{
    if let Some(r) = motion {
        assert(motion_writes(motion) =~= seq![
            Transfer::Write { reg: 0x2150, value: 3 },
            Transfer::Write { reg: 0x215B, value: 1 },
            Transfer::Write { reg: 0x2011, value: (r.x0 / 256) as u8 },
            Transfer::Write { reg: 0x2012, value: (r.x0 % 256) as u8 },
            Transfer::Write { reg: 0x2013, value: (r.y0 / 256) as u8 },
            Transfer::Write { reg: 0x2014, value: (r.y0 % 256) as u8 },
            Transfer::Write { reg: 0x2015, value: (r.x1 / 256) as u8 },
            Transfer::Write { reg: 0x2016, value: (r.x1 % 256) as u8 },
            Transfer::Write { reg: 0x2017, value: (r.y1 / 256) as u8 },
            Transfer::Write { reg: 0x2018, value: (r.y1 % 256) as u8 },
            Transfer::Write { reg: 0x2153, value: 1 },
        ]);
    }
}

/// A mode change is one write of `MODE_SELECT` (0x0100): 0 for standby, 1
/// for streaming, 5 for triggered capture; different modes write different
/// values.
pub proof fn lemma_mode_select_values(mode: Mode, other: Mode)
    ensures
        seq![write_of(registers::MODE_SELECT, spec_mode_value(mode))] == seq![
            Transfer::Write {
                reg: 0x0100,
                value: match mode {
                    Mode::Standby => 0u8,
                    Mode::Streaming => 1u8,
                    Mode::Trigger => 5u8,
                },
            },
        ],
        mode != other ==> spec_mode_value(mode) != spec_mode_value(other),
{
}

/// The model ID is read high byte (register 0x0000) first, then low byte
/// (0x0001); software reset is one write of 0 to 0x0103.
pub proof fn lemma_identity_and_reset_transfers()
    ensures
        model_id_reads() == seq![Transfer::Read { reg: 0x0000 }, Transfer::Read { reg: 0x0001 }],
        software_reset_writes() == seq![Transfer::Write { reg: 0x0103, value: 0 }],
{
}

fn push_write(plan: &mut Vec<Transfer>, reg: u16, value: u8)
    ensures
        final(plan)@ == old(plan)@.push(write_of(reg, value)),
{
    plan.push(Transfer::Write { reg, value });
}

fn push_pair(plan: &mut Vec<Transfer>, high: u16, low: u16, value: u16)
    ensures
        final(plan)@ == old(plan)@ + pair_writes(high, low, value),
{
    let h = crate::bus::high_byte(value);
    let l = crate::bus::low_byte(value);
    plan.push(Transfer::Write { reg: high, value: h });
    plan.push(Transfer::Write { reg: low, value: l });
    assert(final(plan)@ =~= old(plan)@ + pair_writes(high, low, value));
}

fn push_default_registers(plan: &mut Vec<Transfer>)
    ensures
        final(plan)@ == old(plan)@ + default_writes(),
{
    let ghost start = plan@;
    let mut i: usize = 0;
    while i < 45
        invariant
            i <= 45,
            DEFAULT_REGISTERS@.len() == 45,
            plan@ == start + default_writes().take(i as int),
        decreases 45 - i,
    {
        let entry = DEFAULT_REGISTERS[i];
        plan.push(Transfer::Write { reg: entry.0, value: entry.1 });
        assert(default_writes().take(i as int + 1) =~= default_writes().take(i as int).push(
            write_of(entry.0, entry.1),
        ));
        i = i + 1;
    }
    assert(default_writes().take(45) =~= default_writes());
}

fn push_motion_registers(plan: &mut Vec<Transfer>, motion: Option<MotionRoi>)
    ensures
        final(plan)@ == old(plan)@ + motion_writes(motion),
{
    let ghost start = plan@;
    match motion {
        Some(roi) => {
            push_write(plan, registers::MD_CTRL, 3);
            push_write(plan, registers::MD_THL, 1);
            push_pair(plan, registers::MD_LROI_X_START_H, registers::MD_LROI_X_START_L, roi.x0);
            push_pair(plan, registers::MD_LROI_Y_START_H, registers::MD_LROI_Y_START_L, roi.y0);
            push_pair(plan, registers::MD_LROI_X_END_H, registers::MD_LROI_X_END_L, roi.x1);
            push_pair(plan, registers::MD_LROI_Y_END_H, registers::MD_LROI_Y_END_L, roi.y1);
            push_write(plan, registers::I2C_CLEAR, 1);
        },
        None => {
            push_write(plan, registers::MD_CTRL, 0);
        },
    }
    assert(plan@ =~= start + motion_writes(motion));
}

/// Driver for the Himax HM01B0 image sensor.
///
/// The driver owns the I2C bus value, the sensor's bus address and what it
/// knows of the sensor's state: the last mode written successfully and the
/// motion-detection configuration the sensor holds. Pixel data leaves the
/// sensor on a separate parallel bus that this crate does not touch.
#[derive(Debug)]
pub struct Hm01b0<I2C> {
    i2c: I2C,
    cache: SensorCache,
}

/// What the driver knows of the sensor: its address, the last mode written
/// successfully and the motion-detection configuration it holds.
#[derive(Debug)]
struct SensorCache {
    address: u8,
    mode: Mode,
    motion: Option<MotionRoi>,
}

impl SensorCache {
    /// The driver never remembers a motion region the sensor would refuse.
    #[verifier::type_invariant]
    spec fn motion_is_valid(self) -> bool {
        self.motion matches Some(r) ==> r.is_valid()
    }
}

impl<I2C> Hm01b0<I2C> {
    /// The wrapped bus.
    pub closed spec fn bus_value(self) -> I2C {
        self.i2c
    }

    /// The 7-bit bus address of the sensor.
    pub closed spec fn bus_address(self) -> u8 {
        self.cache.address
    }

    /// The last mode written successfully.
    pub closed spec fn current_mode(self) -> Mode {
        self.cache.mode
    }

    /// The motion-detection configuration the sensor was last given.
    pub closed spec fn motion(self) -> Option<MotionRoi> {
        self.cache.motion
    }

    /// The driver after a job committing `effect` has succeeded.
    pub open spec fn committed(self, effect: Effect) -> (Mode, Option<MotionRoi>) {
        match effect {
            Effect::Nothing => (self.current_mode(), self.motion()),
            Effect::Mode(mode) => (mode, self.motion()),
            Effect::Motion(motion) => (self.current_mode(), motion),
        }
    }

    /// A motion-detection configuration that a successful job committed is
    /// the one the default table re-applies afterwards, and committing it
    /// leaves the cached mode alone.
    pub proof fn lemma_committed_motion_is_reapplied(self, roi: Option<MotionRoi>)
        ensures
            self.committed(Effect::Motion(roi)).0 == self.current_mode(),
            defaults_with_motion(self.committed(Effect::Motion(roi)).1) == default_writes()
                + motion_writes(roi),
    {
    }

    /// Creates a driver on the default address, [`I2C_ADDRESS`]. No bus
    /// traffic happens here.
    pub fn new(i2c: I2C) -> (cam: Self)
        ensures
            cam.bus_value() == i2c,
            cam.bus_address() == I2C_ADDRESS,
            cam.current_mode() == Mode::Standby,
            cam.motion() is None,
    {
        Self::with_address(i2c, I2C_ADDRESS)
    }

    /// Creates a driver on a non-default 7-bit I2C address.
    pub fn with_address(i2c: I2C, address: u8) -> (cam: Self)
        ensures
            cam.bus_value() == i2c,
            cam.bus_address() == address,
            cam.current_mode() == Mode::Standby,
            cam.motion() is None,
    {
        Self { i2c, cache: SensorCache { address, mode: Mode::Standby, motion: None } }
    }

    /// Returns the wrapped I2C bus.
    pub fn release(self) -> (i2c: I2C)
        ensures
            i2c == self.bus_value(),
    {
        self.i2c
    }

    /// Borrows the wrapped I2C bus, to run jobs on it or to share it with
    /// other devices.
    pub fn bus(&mut self) -> (i2c: &mut I2C)
        ensures
            *i2c == old(self).bus_value(),
            final(self).bus_value() == *final(i2c),
            final(self).bus_address() == old(self).bus_address(),
            final(self).current_mode() == old(self).current_mode(),
            final(self).motion() == old(self).motion(),
    {
        &mut self.i2c
    }

    /// The sensor's 7-bit bus address.
    pub fn address(&self) -> (address: u8)
        ensures
            address == self.bus_address(),
    {
        self.cache.address
    }

    /// The last mode written with a successful [`Hm01b0::set_mode`] job.
    ///
    /// This is driver state, not a register read; the sensor is assumed to be
    /// in [`Mode::Standby`] before the first mode is written, which is where a
    /// software reset leaves it.
    pub fn mode(&self) -> (mode: Mode)
        ensures
            mode == self.current_mode(),
    {
        self.cache.mode
    }

    /// The motion-detection configuration the sensor was last given.
    pub fn motion_detection(&self) -> (motion: Option<MotionRoi>)
        ensures
            motion == self.motion(),
            motion matches Some(r) ==> r.is_valid(),
    {
        proof {
            use_type_invariant(&self.cache);
        }
        self.cache.motion
    }

    // -- raw register access ------------------------------------------------

    /// Writes one 8-bit register.
    pub fn write_register<E>(&self, reg: u16, value: u8) -> (job: Job<E>)
        ensures
            job.is_fresh(seq![write_of(reg, value)], Effect::Nothing),
    {
        let mut plan = Vec::new();
        push_write(&mut plan, reg, value);
        Job::new(plan, Effect::Nothing)
    }

    /// Reads one 8-bit register; [`Job::byte`] gives the value.
    pub fn read_register<E>(&self, reg: u16) -> (job: Job<E>)
        ensures
            job.is_fresh(seq![read_of(reg)], Effect::Nothing),
            crate::bus::reads_in(job.transfers()) == 1,
    {
        proof {
            let s = seq![read_of(reg)];
            assert(s.drop_last() =~= Seq::<Transfer>::empty());
            assert(crate::bus::reads_in(s.drop_last()) == 0);
            assert(crate::bus::reads_in(s) == 1);
        }
        let mut plan = Vec::new();
        plan.push(Transfer::Read { reg });
        Job::new(plan, Effect::Nothing)
    }

    /// Writes back `f(value)`, where `current` is what a
    /// [`Hm01b0::read_register`] job of `reg` returned: a failed read is
    /// passed on and nothing is written.
    pub fn modify_register<E, F>(&self, reg: u16, current: Result<u8, Error<E>>, f: F) -> (result:
        Result<Job<E>, Error<E>>) where F: FnOnce(u8) -> u8,

        requires
            current matches Ok(value) ==> f.requires((value,)),
        ensures
            match current {
                Err(e) => result == Err::<Job<E>, Error<E>>(e),
                Ok(value) => result matches Ok(job) && (job.is_fresh(
                    job.transfers(),
                    Effect::Nothing,
                ) && job.transfers().len() == 1 && (job.transfers()[0] matches Transfer::Write {
                    reg: r,
                    value: written,
                } && r == reg && f.ensures((value,), written))),
            },
    {
        match current {
            Err(e) => Err(e),
            Ok(value) => {
                let written = f(value);
                Ok(self.write_register(reg, written))
            },
        }
    }

    // -- identity -----------------------------------------------------------

    /// Reads the 16-bit model ID, `MODEL_ID_H` then `MODEL_ID_L`, as two
    /// single-byte reads; [`Job::word`] combines them.
    pub fn model_id<E>(&self) -> (job: Job<E>)
        ensures
            job.is_fresh(model_id_reads(), Effect::Nothing),
            crate::bus::reads_in(job.transfers()) == 2,
    {
        proof {
            crate::bus::lemma_reads_of_model_id();
        }
        model_id_job()
    }

    /// Checks the result of a [`Hm01b0::model_id`] job: a read error is
    /// passed on, and a model ID other than [`MODEL_ID`] is
    /// [`Error::ModelId`] with the value found.
    pub fn verify_identity<E>(&self, id: Result<u16, Error<E>>) -> (verdict: Result<(), Error<E>>)
        ensures
            verdict == identity_verdict(id),
    {
        match id {
            Err(e) => Err(e),
            Ok(found) => if found == MODEL_ID {
                Ok(())
            } else {
                Err(Error::ModelId { found })
            },
        }
    }

    // -- bring-up -----------------------------------------------------------

    /// Starts bring-up: verifies the identity and software-resets the
    /// sensor, retrying up to [`ID_ATTEMPTS`](crate::ID_ATTEMPTS) times
    /// because the sensor may not answer while its rails are still coming
    /// up. See [`Reset`] for the steps.
    pub fn reset<E>(&self) -> (reset: Reset<E>)
        ensures
            reset.is_fresh(),
    {
        Reset::new()
    }

    /// Takes back a finished bring-up and reports its result. On success the
    /// sensor is in standby with default register contents, and the driver's
    /// cached mode and motion-detection configuration say so; on failure they
    /// are left alone.
    pub fn finish_reset<E>(&mut self, reset: Reset<E>) -> (result: Result<(), Error<E>>)
        requires
            reset.finished(),
        ensures
            result == reset_outcome(reset.attempts()),
            final(self).bus_value() == old(self).bus_value(),
            final(self).bus_address() == old(self).bus_address(),
            result is Ok ==> final(self).current_mode() == Mode::Standby && final(self).motion() is None,
            final(self).current_mode() == mode_after(
                old(self).current_mode(),
                if result is Ok {
                    ModeStep::Reset
                } else {
                    ModeStep::Unchanged
                },
            ),
            result is Err ==> final(self).current_mode() == old(self).current_mode()
                && final(self).motion() == old(self).motion(),
    {
        let result = reset.result();
        if result.is_ok() {
            self.cache = SensorCache { address: self.cache.address, mode: Mode::Standby, motion: None };
        }
        result
    }

    /// Loads the power-on register configuration, given what a
    /// [`Hm01b0::read_register`] job of
    /// [`registers::OSC_CLK_DIV`](crate::registers::OSC_CLK_DIV) returned; a
    /// failed read is passed on and nothing is written.
    ///
    /// In order: gated-clock output (bit 5 of `OSC_CLK_DIV`),
    /// [`DEFAULT_REGISTERS`], the motion-detection registers for the current
    /// configuration, then the pixel-shift clear. Does not start capture.
    pub fn configure<E>(&self, osc_clk_div: Result<u8, Error<E>>) -> (result: Result<Job<E>, Error<E>>)
        ensures
            match osc_clk_div {
                Err(e) => result == Err::<Job<E>, Error<E>>(e),
                Ok(clock) => result matches Ok(job) && job.is_fresh(
                    configure_writes(clock, self.motion()),
                    Effect::Nothing,
                ) && job.transfers()[0] is Write && job.transfers()[0]->Write_reg == 0x3060
                    && job.transfers()[0]->value & 0x20 == 0x20 && job.transfers()[0]->value & 0xDF
                    == clock & 0xDF,
            },
    {
        let clock = match osc_clk_div {
            Err(e) => {
                return Err(e);
            },
            Ok(clock) => clock,
        };
        proof {
            lemma_configure_sets_only_the_gated_clock_bit(clock, self.motion());
        }
        assert(clock | (1u8 << 5u8) == clock | 0x20) by (bit_vector);
        let mut plan = Vec::new();
        push_write(&mut plan, registers::OSC_CLK_DIV, clock | (1 << 5));
        push_default_registers(&mut plan);
        push_motion_registers(&mut plan, self.cache.motion);
        push_write(&mut plan, registers::VSYNC_HSYNC_PIXEL_SHIFT_EN, 0x00);
        assert(plan@ =~= configure_writes(clock, self.motion()));
        Ok(Job::new(plan, Effect::Nothing))
    }

    /// Writes [`DEFAULT_REGISTERS`] followed by the motion-detection
    /// registers of the current configuration.
    ///
    /// This also restores the stock auto-exposure ceiling.
    pub fn apply_default_registers<E>(&self) -> (job: Job<E>)
        ensures
            job.is_fresh(defaults_with_motion(self.motion()), Effect::Nothing),
    {
        let mut plan = Vec::new();
        push_default_registers(&mut plan);
        push_motion_registers(&mut plan, self.cache.motion);
        assert(plan@ =~= defaults_with_motion(self.motion()));
        Job::new(plan, Effect::Nothing)
    }

    // -- mode ---------------------------------------------------------------

    /// Writes [`registers::MODE_SELECT`](crate::registers::MODE_SELECT); the
    /// cached mode follows once the write succeeded.
    pub fn set_mode<E>(&self, mode: Mode) -> (job: Job<E>)
        ensures
            job.is_fresh(
                seq![write_of(registers::MODE_SELECT, spec_mode_value(mode))],
                Effect::Mode(mode),
            ),
    {
        let mut plan = Vec::new();
        push_write(&mut plan, registers::MODE_SELECT, mode.register_value());
        Job::new(plan, Effect::Mode(mode))
    }

    /// Starts free-running capture: `set_mode(Mode::Streaming)`.
    pub fn start_streaming<E>(&self) -> (job: Job<E>)
        ensures
            job.is_fresh(
                seq![write_of(registers::MODE_SELECT, 1)],
                Effect::Mode(Mode::Streaming),
            ),
    {
        self.set_mode(Mode::Streaming)
    }

    /// Arms hardware-triggered single-frame capture: `set_mode(Mode::Trigger)`.
    pub fn start_triggered<E>(&self) -> (job: Job<E>)
        ensures
            job.is_fresh(seq![write_of(registers::MODE_SELECT, 5)], Effect::Mode(Mode::Trigger)),
    {
        self.set_mode(Mode::Trigger)
    }

    /// Stops capture and puts the sensor in standby: `set_mode(Mode::Standby)`.
    pub fn stop<E>(&self) -> (job: Job<E>)
        ensures
            job.is_fresh(seq![write_of(registers::MODE_SELECT, 0)], Effect::Mode(Mode::Standby)),
    {
        self.set_mode(Mode::Standby)
    }

    // -- exposure -----------------------------------------------------------

    /// Enables or disables the on-sensor auto-exposure loop
    /// ([`registers::AE_CTRL`](crate::registers::AE_CTRL) bit 0).
    pub fn set_auto_exposure<E>(&self, enable: bool) -> (job: Job<E>)
        ensures
            job.is_fresh(
                seq![write_of(registers::AE_CTRL, if enable { 1u8 } else { 0u8 })],
                Effect::Nothing,
            ),
    {
        self.write_register(registers::AE_CTRL, if enable { 1 } else { 0 })
    }

    /// Disables auto-exposure and pins integration time and gains, all between
    /// `GRP_PARAM_HOLD` 1 and 0 so the sensor latches them on one frame
    /// boundary.
    pub fn set_exposure<E>(&self, exposure: &Exposure) -> (job: Job<E>)
        ensures
            job.is_fresh(exposure_writes(*exposure), Effect::Nothing),
            job.transfers().len() == 8,
            job.transfers()[2] == (Transfer::Write {
                reg: 0x0202,
                value: (exposure.integration_lines / 256) as u8,
            }),
            job.transfers()[3] == (Transfer::Write {
                reg: 0x0203,
                value: (exposure.integration_lines % 256) as u8,
            }),
            job.transfers()[4] == (Transfer::Write { reg: 0x0205, value: exposure.analog_gain }),
            job.transfers()[5] == (Transfer::Write {
                reg: 0x020E,
                value: (exposure.digital_gain / 256) as u8,
            }),
            job.transfers()[6] == (Transfer::Write {
                reg: 0x020F,
                value: (exposure.digital_gain % 256) as u8,
            }),
    {
        proof {
            lemma_exposure_writes_the_operating_point(*exposure);
        }
        let mut plan = Vec::new();
        push_write(&mut plan, registers::GRP_PARAM_HOLD, 0x01);
        push_write(&mut plan, registers::AE_CTRL, 0x00);
        push_pair(
            &mut plan,
            registers::INTEGRATION_H,
            registers::INTEGRATION_L,
            exposure.integration_lines,
        );
        push_write(&mut plan, registers::ANALOG_GAIN, exposure.analog_gain);
        push_pair(
            &mut plan,
            registers::DIGITAL_GAIN_H,
            registers::DIGITAL_GAIN_L,
            exposure.digital_gain,
        );
        push_write(&mut plan, registers::GRP_PARAM_HOLD, 0x00);
        assert(plan@ =~= exposure_writes(*exposure));
        Job::new(plan, Effect::Nothing)
    }

    /// Sets the coarse integration time in line periods, group-held, leaving
    /// gains and the auto-exposure enable alone.
    pub fn set_integration_lines<E>(&self, lines: u16) -> (job: Job<E>)
        ensures
            job.is_fresh(integration_writes(lines), Effect::Nothing),
            job.transfers() == seq![
                Transfer::Write { reg: 0x0104, value: 1 },
                Transfer::Write { reg: 0x0202, value: (lines / 256) as u8 },
                Transfer::Write { reg: 0x0203, value: (lines % 256) as u8 },
                Transfer::Write { reg: 0x0104, value: 0 },
            ],
    {
        proof {
            lemma_integration_writes_the_line_count(lines);
        }
        let mut plan = Vec::new();
        push_write(&mut plan, registers::GRP_PARAM_HOLD, 0x01);
        push_pair(&mut plan, registers::INTEGRATION_H, registers::INTEGRATION_L, lines);
        push_write(&mut plan, registers::GRP_PARAM_HOLD, 0x00);
        assert(plan@ =~= integration_writes(lines));
        Job::new(plan, Effect::Nothing)
    }

    /// Sets the auto-exposure loop's maximum integration time in lines
    /// (`MAX_INTG_H` / `MAX_INTG_L`).
    ///
    /// The vendor value sits just below the frame-rate knee, so in dim light
    /// auto-exposure underexposes rather than slowing down; raising it is the
    /// fix. [`max_integration_lines_for_period_us`](crate::max_integration_lines_for_period_us)
    /// converts a frame-rate budget into a value for this call.
    pub fn set_max_integration_lines<E>(&self, lines: u16) -> (job: Job<E>)
        ensures
            job.is_fresh(
                pair_writes(registers::MAX_INTG_H, registers::MAX_INTG_L, lines),
                Effect::Nothing,
            ),
            job.transfers() == seq![
                Transfer::Write { reg: 0x2105, value: (lines / 256) as u8 },
                Transfer::Write { reg: 0x2106, value: (lines % 256) as u8 },
            ],
    {
        proof {
            lemma_ceiling_writes_the_line_count(lines);
        }
        let mut plan = Vec::new();
        push_pair(&mut plan, registers::MAX_INTG_H, registers::MAX_INTG_L, lines);
        assert(plan@ =~= pair_writes(registers::MAX_INTG_H, registers::MAX_INTG_L, lines));
        Job::new(plan, Effect::Nothing)
    }

    /// Sets the auto-exposure target mean brightness
    /// ([`registers::AE_TARGET_MEAN`](crate::registers::AE_TARGET_MEAN)).
    pub fn set_ae_target_mean<E>(&self, target: u8) -> (job: Job<E>)
        ensures
            job.is_fresh(seq![write_of(registers::AE_TARGET_MEAN, target)], Effect::Nothing),
    {
        self.write_register(registers::AE_TARGET_MEAN, target)
    }

    // -- test patterns ------------------------------------------------------

    /// Selects a built-in test pattern, or returns to real pixel data.
    ///
    /// Enabling a pattern first disables auto-exposure, black-level
    /// calibration and defect-pixel correction and forces unity gain;
    /// disabling it restores the whole default register table.
    pub fn set_test_pattern<E>(&self, pattern: TestPattern) -> (job: Job<E>)
        ensures
            job.is_fresh(test_pattern_writes(pattern, self.motion()), Effect::Nothing),
            pattern != TestPattern::Off ==> job.transfers() == seq![
                Transfer::Write { reg: 0x2100, value: 0 },
                Transfer::Write { reg: 0x1000, value: 0 },
                Transfer::Write { reg: 0x1008, value: 0 },
                Transfer::Write { reg: 0x0205, value: 0 },
                Transfer::Write { reg: 0x020E, value: 1 },
                Transfer::Write { reg: 0x020F, value: 0 },
                Transfer::Write {
                    reg: 0x0601,
                    value: if pattern == TestPattern::ColorBar {
                        1u8
                    } else {
                        0x11u8
                    },
                },
            ],
    {
        proof {
            lemma_test_patterns_bypass_the_image_pipeline(pattern, self.motion());
        }
        let mut plan = Vec::new();
        match pattern {
            TestPattern::Off => {
                push_default_registers(&mut plan);
                push_motion_registers(&mut plan, self.cache.motion);
            },
            _ => {
                push_write(&mut plan, registers::AE_CTRL, 0x00);
                push_write(&mut plan, registers::BLC_CFG, 0x00);
                push_write(&mut plan, registers::DPC_CTRL, 0x00);
                push_write(&mut plan, registers::ANALOG_GAIN, 0x00);
                push_write(&mut plan, registers::DIGITAL_GAIN_H, 0x01);
                push_write(&mut plan, registers::DIGITAL_GAIN_L, 0x00);
            },
        }
        push_write(&mut plan, registers::TEST_PATTERN_MODE, pattern.register_value());
        assert(plan@ =~= test_pattern_writes(pattern, self.motion()));
        Job::new(plan, Effect::Nothing)
    }

    // -- motion detection ---------------------------------------------------

    /// Configures in-sensor motion detection, or disables it with `None`.
    ///
    /// An invalid region is rejected with [`Error::InvalidRoi`] before any
    /// bus traffic. Otherwise the job writes the motion-detection registers
    /// for `roi`, and the driver remembers `roi` (re-applied by
    /// [`Hm01b0::apply_default_registers`]) only once they were all written.
    pub fn set_motion_detection<E>(&self, roi: Option<MotionRoi>) -> (result: Result<Job<E>, Error<E>>)
        ensures
            match roi {
                Some(r) if !r.is_valid() => result matches Err(Error::InvalidRoi),
                _ => result matches Ok(job) && job.is_fresh(motion_writes(roi), Effect::Motion(roi)),
            },
            (result is Err) <==> (roi matches Some(r) && !(r.x0 <= r.x1 && r.y0 <= r.y1 && r.x1
                < 324 && r.y1 < 324)),
            result matches Ok(job) ==> job.transfers().len() == if roi is Some {
                11int
            } else {
                1int
            },
            result matches Ok(job) ==> (roi matches Some(r) ==> job.transfers()[2] == (
            Transfer::Write { reg: 0x2011, value: (r.x0 / 256) as u8 }) && job.transfers()[3] == (
            Transfer::Write { reg: 0x2012, value: (r.x0 % 256) as u8 }) && job.transfers()[4] == (
            Transfer::Write { reg: 0x2013, value: (r.y0 / 256) as u8 }) && job.transfers()[5] == (
            Transfer::Write { reg: 0x2014, value: (r.y0 % 256) as u8 }) && job.transfers()[6] == (
            Transfer::Write { reg: 0x2015, value: (r.x1 / 256) as u8 }) && job.transfers()[7] == (
            Transfer::Write { reg: 0x2016, value: (r.x1 % 256) as u8 }) && job.transfers()[8] == (
            Transfer::Write { reg: 0x2017, value: (r.y1 / 256) as u8 }) && job.transfers()[9] == (
            Transfer::Write { reg: 0x2018, value: (r.y1 % 256) as u8 })),
    {
        proof {
            lemma_motion_writes_the_region(roi);
            if let Some(r) = roi {
                crate::config::lemma_valid_regions_lie_inside_the_array(r);
            }
        }
        if let Some(r) = roi {
            if !r.validate() {
                return Err(Error::InvalidRoi);
            }
        }
        let mut plan = Vec::new();
        push_motion_registers(&mut plan, roi);
        Ok(Job::new(plan, Effect::Motion(roi)))
    }

    /// Acknowledges a motion-detection interrupt
    /// ([`registers::I2C_CLEAR`](crate::registers::I2C_CLEAR) = 1).
    pub fn clear_motion_interrupt<E>(&self) -> (job: Job<E>)
        ensures
            job.is_fresh(seq![write_of(registers::I2C_CLEAR, 1)], Effect::Nothing),
    {
        self.write_register(registers::I2C_CLEAR, 1)
    }

    // -- completion ---------------------------------------------------------

    /// Takes back a finished job and reports its result. The job's effect on
    /// the cached state is committed only if every transfer succeeded; after
    /// a bus error the driver keeps what the sensor last acknowledged. Only
    /// jobs whose effect matches their plan are taken, which every job this
    /// driver plans is, so the cached state only ever follows register writes
    /// the sensor acknowledged.
    pub fn complete<E>(&mut self, job: Job<E>) -> (result: Result<(), Error<E>>)
        requires
            job.finished(),
            effect_matches_plan(job),
        ensures
            result == job.outcome(),
            final(self).bus_value() == old(self).bus_value(),
            final(self).bus_address() == old(self).bus_address(),
            final(self).current_mode() == mode_after(old(self).current_mode(), completion_step(job)),
            result is Ok ==> (final(self).current_mode(), final(self).motion()) == old(
                self,
            ).committed(job.commit()),
            result is Err ==> final(self).current_mode() == old(self).current_mode()
                && final(self).motion() == old(self).motion(),
    {
        proof {
            use_type_invariant(&self.cache);
        }
        let effect = job.effect();
        let result = job.finish();
        if result.is_ok() {
            match effect {
                Effect::Nothing => {},
                Effect::Mode(mode) => {
                    self.cache = SensorCache { address: self.cache.address, mode, motion: self.cache.motion };
                },
                Effect::Motion(motion) => {
                    self.cache = SensorCache { address: self.cache.address, mode: self.cache.mode, motion };
                },
            }
        }
        result
    }
}

} // verus!
