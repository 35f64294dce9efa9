//! The sensor's external trigger input, used with
//! [`Mode::Trigger`](crate::Mode::Trigger).
//!
//! The HM01B0 has no I2C "capture now" command: in trigger mode it captures
//! while its trigger pin is asserted, and that pin is a board GPIO. The line
//! is a level, not a pulse: assert it to request a frame and deassert it only
//! once that frame has been read out of the receiving peripheral.

use vstd::prelude::*;

verus! {

/// Whether the line is armed after one report: a successful trigger arms it,
/// a successful release disarms it, and a failed one changes nothing.
pub open spec fn armed_after(armed: bool, trigger: bool, ok: bool) -> bool {
    if ok {
        trigger
    } else {
        armed
    }
}

/// Whether the line is armed after a run of reports, each a pair of (was it
/// a trigger, did the pin change succeed), starting from a new line: the last
/// successful report was a trigger.
pub open spec fn armed_by(reports: Seq<(bool, bool)>) -> bool
    decreases reports.len(),
{
    if reports.len() == 0 {
        false
    } else if reports.last().1 {
        reports.last().0
    } else {
        armed_by(reports.drop_last())
    }
}

/// A line that was new and then received `reports` is armed exactly when some
/// report succeeded and the last successful one was a trigger.
pub proof fn lemma_armed_iff_last_success_was_a_trigger(
    armed: Seq<bool>,
    reports: Seq<(bool, bool)>,
)
    requires
        armed.len() == reports.len() + 1,
        !armed[0],
        forall|i: int|
            0 <= i < reports.len() ==> armed[i + 1] == armed_after(
                armed[i],
                #[trigger] reports[i].0,
                reports[i].1,
            ),
    ensures
        armed.last() == armed_by(reports),
        armed.last() <==> exists|i: int|
            0 <= i < reports.len() && (#[trigger] reports[i]).1 && reports[i].0 && (forall|j: int|
                i < j < reports.len() ==> !(#[trigger] reports[j]).1),
    decreases reports.len(),
{
    if reports.len() > 0 {
        let n = reports.len() as int;
        let prefix = reports.drop_last();
        lemma_armed_iff_last_success_was_a_trigger(armed.drop_last(), prefix);
        assert(armed[n] == armed_after(armed[n - 1], reports[n - 1].0, reports[n - 1].1));
        if reports[n - 1].1 {
            if reports[n - 1].0 {
                assert(forall|j: int| n - 1 < j < n ==> !(#[trigger] reports[j]).1);
            } else {
                assert forall|i: int|
                    0 <= i < n && (#[trigger] reports[i]).1 && reports[i].0 implies exists|j: int|
                    i < j < n && (#[trigger] reports[j]).1 by {
                    assert(reports[n - 1].1);
                }
            }
        } else {
            if armed.last() {
                let i = choose|i: int|
                    0 <= i < prefix.len() && (#[trigger] prefix[i]).1 && prefix[i].0 && (forall|
                        j: int,
                    | i < j < prefix.len() ==> !(#[trigger] prefix[j]).1);
                assert(reports[i] == prefix[i]);
                assert forall|j: int| i < j < n implies !(#[trigger] reports[j]).1 by {
                    if j < n - 1 {
                        assert(reports[j] == prefix[j]);
                    }
                }
            } else {
                assert forall|i: int|
                    0 <= i < n && (#[trigger] reports[i]).1 && reports[i].0 implies exists|j: int|
                    i < j < n && (#[trigger] reports[j]).1 by {
                    assert(reports[i] == prefix[i]);
                    let k = choose|k: int| i < k < prefix.len() && (#[trigger] prefix[k]).1;
                    assert(reports[k] == prefix[k]);
                }
            }
        }
    }
}

/// The trigger line: the output pin wired to the sensor's trigger input, and
/// whether a frame has been requested and not yet released.
///
/// The caller drives the pin (see [`TriggerLine::pin`]) and reports each
/// level change through [`TriggerLine::trigger`] or
/// [`TriggerLine::release`]; the line is armed exactly when the last
/// successful change asserted it.
#[derive(Debug)]
pub struct TriggerLine<P> {
    pin: P,
    armed: bool,
}

impl<P> TriggerLine<P> {
    /// The wrapped pin.
    pub closed spec fn pin_value(self) -> P {
        self.pin
    }

    /// Whether a frame has been requested and not yet released.
    pub closed spec fn armed(self) -> bool {
        self.armed
    }

    /// Wraps an output pin connected to the sensor's trigger input. The pin
    /// is left as it is, and the line starts out not armed.
    pub fn new(pin: P) -> (line: Self)
        ensures
            line.pin_value() == pin,
            !line.armed(),
    {
        Self { pin, armed: false }
    }

    /// Borrows the pin, to drive its level.
    pub fn pin(&mut self) -> (pin: &mut P)
        ensures
            *pin == old(self).pin_value(),
            final(self).pin_value() == *final(pin),
            final(self).armed() == old(self).armed(),
    {
        &mut self.pin
    }

    /// Records the result of driving the pin high, which requests one frame:
    /// the line is armed once the pin has gone high, and a failure to drive
    /// it is passed on without changing anything.
    pub fn trigger<E>(&mut self, set_high: Result<(), E>) -> (result: Result<(), E>)
        ensures
            result == set_high,
            final(self).pin_value() == old(self).pin_value(),
            final(self).armed() == armed_after(old(self).armed(), true, set_high is Ok),
    {
        if set_high.is_ok() {
            self.armed = true;
        }
        set_high
    }

    /// Records the result of driving the pin low, which deasserts the line
    /// once the requested frame has been consumed.
    pub fn release<E>(&mut self, set_low: Result<(), E>) -> (result: Result<(), E>)
        ensures
            result == set_low,
            final(self).pin_value() == old(self).pin_value(),
            final(self).armed() == armed_after(old(self).armed(), false, set_low is Ok),
    {
        if set_low.is_ok() {
            self.armed = false;
        }
        set_low
    }

    /// Whether a frame has been requested and not yet released.
    ///
    /// Check this before waiting on a frame, so that asking for an image that
    /// was never triggered fails instead of blocking forever.
    pub fn is_armed(&self) -> (armed: bool)
        ensures
            armed == self.armed(),
    {
        self.armed
    }

    /// Returns the wrapped pin.
    pub fn free(self) -> (pin: P)
        ensures
            pin == self.pin_value(),
    {
        self.pin
    }
}

} // verus!
