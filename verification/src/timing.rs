//! Frame timing: how integration time turns into frame period, and back.
//!
//! The frame period is flat at [`MIN_FRAME_PERIOD_US`] (17.503 ms, 57.1 Hz)
//! until integration time passes the readout time, and grows linearly with
//! integration after that, at [`LINE_PERIOD_NS`] (31.07 µs) per line. The
//! crossover is [`FRAME_PERIOD_KNEE_LINES`], 564 lines, and
//! [`frame_period_us`] is that whole relationship as a function;
//! [`max_integration_lines_for_period_us`] is its inverse.
//!
//! The power-on table sets the auto-exposure ceiling to
//! [`VENDOR_MAX_INTEGRATION_LINES`], 532 lines, just below the knee: with the
//! stock defaults auto-exposure can never cost a frame, so in dim light it
//! underexposes instead of slowing down.

use vstd::prelude::*;

verus! {

/// Time added to the frame period by one line of integration, in
/// nanoseconds (31.07 µs).
pub const LINE_PERIOD_NS: u32 = 31_070;

/// The shortest frame period the sensor produces, in microseconds
/// (17.503 ms, 57.1 Hz). Below the knee the period does not depend on
/// integration time at all.
pub const MIN_FRAME_PERIOD_US: u32 = 17_503;

/// The integration time, in lines, at which the frame period starts to grow:
/// `ceil(MIN_FRAME_PERIOD_US * 1000 / LINE_PERIOD_NS)`, see
/// [`lemma_knee_is_the_readout_crossover`].
pub const FRAME_PERIOD_KNEE_LINES: u16 = 564;

/// The auto-exposure integration ceiling in the power-on register table
/// (`MAX_INTG` = `0x0214` = 532 lines).
pub const VENDOR_MAX_INTEGRATION_LINES: u16 = 0x0214;

/// The auto-exposure integration floor in the power-on register table
/// (`MIN_INTG` = 2 lines).
pub const VENDOR_MIN_INTEGRATION_LINES: u16 = 2;

/// Integration time of `lines` lines, in microseconds, rounded to nearest.
pub open spec fn integration_us(lines: int) -> int {
    (lines * LINE_PERIOD_NS + 500) / 1000
}

/// The frame period model: `max(MIN_FRAME_PERIOD_US, integration_us(lines))`.
pub open spec fn spec_frame_period_us(lines: int) -> int {
    if integration_us(lines) > MIN_FRAME_PERIOD_US {
        integration_us(lines)
    } else {
        MIN_FRAME_PERIOD_US as int
    }
}

/// The budget inverse: the largest line count whose rounded integration
/// time fits in `period_us`, saturated to the register width; the largest
/// free integration for periods the sensor cannot beat.
pub open spec fn spec_max_integration_lines(period_us: int) -> int {
    if period_us <= MIN_FRAME_PERIOD_US {
        FRAME_PERIOD_KNEE_LINES - 1
    } else if (period_us * 1000 + 499) / (LINE_PERIOD_NS as int) > u16::MAX {
        u16::MAX as int
    } else {
        (period_us * 1000 + 499) / (LINE_PERIOD_NS as int)
    }
}

/// The frame period, in microseconds, for a given integration time in lines.
pub fn frame_period_us(integration_lines: u16) -> (period: u32)
    ensures
        period == spec_frame_period_us(integration_lines as int),
{
    assert(integration_lines as u32 * LINE_PERIOD_NS <= 65535 * 31070) by (nonlinear_arith)
        requires
            integration_lines <= 65535,
    ;
    let integration_us = (integration_lines as u32 * LINE_PERIOD_NS + 500) / 1_000;
    if integration_us > MIN_FRAME_PERIOD_US {
        integration_us
    } else {
        MIN_FRAME_PERIOD_US
    }
}

/// The longest integration time, in lines, that still fits in `period_us`.
pub fn max_integration_lines_for_period_us(period_us: u32) -> (lines: u16)
    ensures
        lines == spec_max_integration_lines(period_us as int),
{
    if period_us <= MIN_FRAME_PERIOD_US {
        return FRAME_PERIOD_KNEE_LINES - 1;
    }
    let lines: u64 = (period_us as u64 * 1_000 + 499) / LINE_PERIOD_NS as u64;
    if lines > u16::MAX as u64 {
        u16::MAX
    } else {
        lines as u16
    }
}


/// The knee is the first line count whose integration outlasts frame
/// readout: `FRAME_PERIOD_KNEE_LINES == ceil(MIN_FRAME_PERIOD_US * 1000 /
/// LINE_PERIOD_NS)`.
pub proof fn lemma_knee_is_the_readout_crossover()
    ensures
        (FRAME_PERIOD_KNEE_LINES - 1) * LINE_PERIOD_NS < MIN_FRAME_PERIOD_US * 1000,
        MIN_FRAME_PERIOD_US * 1000 <= FRAME_PERIOD_KNEE_LINES * LINE_PERIOD_NS,
{
}

/// The vendor auto-exposure bounds are ordered and the ceiling sits below
/// the knee, so auto-exposure within them never lengthens the frame period.
pub proof fn lemma_vendor_ceiling_sits_below_the_knee()
    ensures
        VENDOR_MIN_INTEGRATION_LINES < VENDOR_MAX_INTEGRATION_LINES,
        VENDOR_MAX_INTEGRATION_LINES < FRAME_PERIOD_KNEE_LINES,
        spec_frame_period_us(VENDOR_MAX_INTEGRATION_LINES as int) == MIN_FRAME_PERIOD_US,
{
    lemma_frame_period_is_flat_then_linear(VENDOR_MAX_INTEGRATION_LINES as int);
}

/// Integration time never decreases as the line count grows.
pub proof fn lemma_integration_us_monotone(a: int, b: int)
    requires
        0 <= a <= b,
    ensures
        integration_us(a) <= integration_us(b),
{
    assert(a * LINE_PERIOD_NS <= b * LINE_PERIOD_NS) by (nonlinear_arith)
        requires
            a <= b,
    ;
}

/// Below the knee the frame period is the readout floor; from the knee on it
/// is the integration time, which then exceeds the floor.
pub proof fn lemma_frame_period_is_flat_then_linear(lines: int)
    requires
        0 <= lines,
    ensures
        lines < FRAME_PERIOD_KNEE_LINES ==> spec_frame_period_us(lines) == MIN_FRAME_PERIOD_US,
        lines >= FRAME_PERIOD_KNEE_LINES ==> spec_frame_period_us(lines) == integration_us(lines)
            && integration_us(lines) > MIN_FRAME_PERIOD_US,
{
    if lines < FRAME_PERIOD_KNEE_LINES {
        lemma_integration_us_monotone(lines, FRAME_PERIOD_KNEE_LINES - 1);
    } else {
        lemma_integration_us_monotone(FRAME_PERIOD_KNEE_LINES as int, lines);
    }
}

/// The frame period never decreases as the line count grows.
pub proof fn lemma_frame_period_monotone(a: int, b: int)
    requires
        0 <= a <= b,
    ensures
        spec_frame_period_us(a) <= spec_frame_period_us(b),
{
    lemma_integration_us_monotone(a, b);
}

/// Above the knee, `n` extra lines cost exactly `n` line periods, up to the
/// rounding of each end to the nearest microsecond.
pub proof fn lemma_frame_period_grows_by_line_periods(lines: int, n: int)
    requires
        lines >= FRAME_PERIOD_KNEE_LINES,
        n >= 0,
        (n * LINE_PERIOD_NS) % 1000 == 0,
    ensures
        spec_frame_period_us(lines + n) - spec_frame_period_us(lines) == n * LINE_PERIOD_NS
            / 1000,
{
    lemma_frame_period_is_flat_then_linear(lines);
    lemma_frame_period_is_flat_then_linear(lines + n);
    let k = n * LINE_PERIOD_NS / 1000;
    assert(n * LINE_PERIOD_NS == k * 1000);
    assert((lines + n) * LINE_PERIOD_NS == lines * LINE_PERIOD_NS + n * LINE_PERIOD_NS)
        by (nonlinear_arith);
}

/// The budget helper inverts the frame period. For a budget the sensor can
/// meet, the answer fits in it and one more line would not (unless the
/// answer is already the largest register value). For a budget at or below
/// the readout floor, the answer is the largest integration that is still
/// free.
pub proof fn lemma_budget_inverts_frame_period(period_us: int)
    requires
        0 <= period_us <= u32::MAX,
    ensures
        ({
            let lines = spec_max_integration_lines(period_us);
            &&& 0 <= lines <= u16::MAX
            &&& period_us > MIN_FRAME_PERIOD_US ==> spec_frame_period_us(lines) <= period_us
            &&& period_us > MIN_FRAME_PERIOD_US && lines < u16::MAX
                ==> spec_frame_period_us(lines + 1) > period_us
            &&& period_us <= MIN_FRAME_PERIOD_US ==> spec_frame_period_us(lines)
                == MIN_FRAME_PERIOD_US
            &&& period_us <= MIN_FRAME_PERIOD_US ==> spec_frame_period_us(lines + 1)
                > MIN_FRAME_PERIOD_US
        }),
{
    let lines = spec_max_integration_lines(period_us);
    if period_us <= MIN_FRAME_PERIOD_US {
        lemma_frame_period_is_flat_then_linear(lines);
        lemma_frame_period_is_flat_then_linear(lines + 1);
    } else {
        let q = (period_us * 1000 + 499) / (LINE_PERIOD_NS as int);
        assert(q * LINE_PERIOD_NS <= period_us * 1000 + 499);
        assert((q + 1) * LINE_PERIOD_NS > period_us * 1000 + 499);
        assert(integration_us(q) <= period_us);
        assert(integration_us(q + 1) > period_us);
        lemma_integration_us_monotone(lines, q);
        if lines < u16::MAX {
            assert(lines == q);
        }
    }
}

} // verus!
