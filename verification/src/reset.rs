//! Bring-up: identity check and software reset, retried a bounded number of
//! times.
//!
//! Each attempt reads the model ID. If the read succeeds, the software reset
//! is issued (also on the attempt that succeeds, so the defaults are always
//! written to a freshly reset sensor); either way the attempt ends with one
//! settle delay. An attempt succeeds when the ID matched and the reset write
//! went through. Bus errors are retried like a mismatch and only surface if
//! the last attempt also fails.

use vstd::prelude::*;

use crate::bus::{Effect, Job, Transfer};
use crate::config::Error;
use crate::driver::{model_id_job, model_id_reads, software_reset_job, software_reset_writes};
use crate::{ID_ATTEMPTS, MODEL_ID, RESET_SETTLE_MS};

verus! {

/// What happened in one bring-up attempt.
pub enum Attempt<E> {
    /// The model-ID read failed with this error.
    IdUnread(Error<E>),
    /// The model ID read back as `found`; the reset write then answered
    /// `reset`.
    Identified { found: u16, reset: Result<(), Error<E>> },
}

/// How an attempt ended: success when the ID matched and the reset went
/// through; otherwise the reset write's error, the read error, or the
/// mismatched ID.
pub open spec fn attempt_verdict<E>(attempt: Attempt<E>) -> Result<(), Error<E>> {
    match attempt {
        Attempt::IdUnread(e) => Err(e),
        Attempt::Identified { found, reset } => match reset {
            Err(e) => Err(e),
            Ok(()) => if found == MODEL_ID {
                Ok(())
            } else {
                Err(Error::ModelId { found })
            },
        },
    }
}

/// The result of bring-up: how its last attempt ended.
pub open spec fn reset_outcome<E>(attempts: Seq<Attempt<E>>) -> Result<(), Error<E>> {
    attempt_verdict(attempts.last())
}

/// Every attempt before the `n`-th failed.
pub open spec fn earlier_attempts_failed<E>(attempts: Seq<Attempt<E>>, n: int) -> bool {
    forall|i: int| 0 <= i < n ==> #[trigger] attempt_verdict(attempts[i]) is Err
}

/// What bring-up needs next.
pub enum ResetAction<E> {
    /// Run this job on the bus and hand it back with [`Reset::job_done`].
    Run(Job<E>),
    /// Wait this many milliseconds, then call [`Reset::settled`].
    Settle { ms: u32 },
    /// Bring-up is over; hand it to [`Hm01b0::finish_reset`](crate::Hm01b0::finish_reset).
    Finished,
}

enum Stage<E> {
    ReadId,
    WriteReset { found: u16 },
    Settle { verdict: Result<(), Error<E>> },
    Done { result: Result<(), Error<E>> },
}

/// The bring-up state machine.
pub struct Reset<E> {
    attempt: u8,
    stage: Stage<E>,
    history: Ghost<Seq<Attempt<E>>>,
    settles: Ghost<nat>,
}

impl<E> Reset<E> {
    /// The attempts whose outcome is known, in order.
    pub closed spec fn attempts(self) -> Seq<Attempt<E>> {
        self.history@
    }

    /// How many settle delays have been completed.
    pub closed spec fn settle_count(self) -> nat {
        self.settles@
    }

    /// Waiting for the model-ID read job.
    pub closed spec fn reading_id(self) -> bool {
        self.stage is ReadId
    }

    /// Waiting for the software-reset job.
    pub closed spec fn resetting(self) -> bool {
        self.stage is WriteReset
    }

    /// The model ID read in the attempt under way, once it is known.
    pub closed spec fn found(self) -> u16 {
        match self.stage {
            Stage::WriteReset { found } => found,
            _ => 0,
        }
    }

    /// Waiting for the settle delay that ends an attempt.
    pub closed spec fn settling(self) -> bool {
        self.stage is Settle
    }

    /// Bring-up is over.
    pub closed spec fn finished(self) -> bool {
        self.stage is Done
    }

    /// An upper bound on the actions still to come: three per remaining
    /// attempt at most.
    pub closed spec fn steps_left(self) -> nat {
        match self.stage {
            Stage::ReadId => (3 * (ID_ATTEMPTS - self.attempt)) as nat,
            Stage::WriteReset { .. } => (3 * (ID_ATTEMPTS - self.attempt) - 1) as nat,
            Stage::Settle { .. } => (3 * (ID_ATTEMPTS - self.attempt) - 2) as nat,
            Stage::Done { .. } => 0,
        }
    }

    /// The machine's bookkeeping is consistent with its history.
    #[verifier::type_invariant]
    pub closed spec fn wf(self) -> bool {
        let h = self.history@;
        match self.stage {
            Stage::ReadId => {
                &&& self.attempt < ID_ATTEMPTS
                &&& h.len() == self.attempt
                &&& self.settles@ == self.attempt
                &&& earlier_attempts_failed(h, h.len() as int)
            },
            Stage::WriteReset { .. } => {
                &&& self.attempt < ID_ATTEMPTS
                &&& h.len() == self.attempt
                &&& self.settles@ == self.attempt
                &&& earlier_attempts_failed(h, h.len() as int)
            },
            Stage::Settle { verdict } => {
                &&& self.attempt < ID_ATTEMPTS
                &&& h.len() == self.attempt + 1
                &&& self.settles@ == self.attempt
                &&& earlier_attempts_failed(h, self.attempt as int)
                &&& verdict == attempt_verdict(h.last())
            },
            Stage::Done { result } => {
                &&& 1 <= h.len() <= ID_ATTEMPTS
                &&& self.settles@ == h.len()
                &&& earlier_attempts_failed(h, h.len() - 1)
                &&& result == reset_outcome(h)
                &&& result is Err ==> h.len() == ID_ATTEMPTS
            },
        }
    }

    /// A bring-up that has not started yet.
    pub open spec fn is_fresh(self) -> bool {
        &&& self.reading_id()
        &&& self.attempts() == Seq::<Attempt<E>>::empty()
        &&& self.settle_count() == 0
        &&& self.steps_left() == 3 * ID_ATTEMPTS
    }

    /// A fresh bring-up.
    pub fn new() -> (reset: Self)
        ensures
            reset.is_fresh(),
    {
        Reset {
            attempt: 0,
            stage: Stage::ReadId,
            history: Ghost(Seq::empty()),
            settles: Ghost(0),
        }
    }

    /// What bring-up needs next.
    pub fn next_action(&self) -> (action: ResetAction<E>)
        ensures
            self.reading_id() ==> (action matches ResetAction::Run(job) && job.is_fresh(
                model_id_reads(),
                Effect::Nothing,
            )),
            self.resetting() ==> (action matches ResetAction::Run(job) && job.is_fresh(
                software_reset_writes(),
                Effect::Nothing,
            )),
            self.settling() ==> (action == (ResetAction::<E>::Settle { ms: RESET_SETTLE_MS })),
            self.finished() ==> (action is Finished),
    {
        match &self.stage {
            Stage::ReadId => ResetAction::Run(model_id_job()),
            Stage::WriteReset { .. } => ResetAction::Run(software_reset_job()),
            Stage::Settle { .. } => ResetAction::Settle { ms: RESET_SETTLE_MS },
            Stage::Done { .. } => ResetAction::Finished,
        }
    }

    /// Whether bring-up is over.
    pub fn is_finished(&self) -> (finished: bool)
        ensures
            finished == self.finished(),
    {
        match &self.stage {
            Stage::Done { .. } => true,
            _ => false,
        }
    }

    /// Hands back the job that [`Reset::next_action`] asked for, once it has
    /// finished.
    ///
    /// After the model-ID read: on success the software reset comes next; on
    /// a bus error the attempt is over. After the reset write the attempt is
    /// over. Either way an attempt that is over waits for its settle delay.
    pub fn job_done(&mut self, job: Job<E>)
        requires
            old(self).reading_id() || old(self).resetting(),
            job.finished(),
            old(self).reading_id() ==> job.transfers() == model_id_reads(),
            old(self).resetting() ==> job.transfers() == software_reset_writes(),
        ensures
            final(self).settle_count() == old(self).settle_count(),
            final(self).steps_left() < old(self).steps_left(),
            old(self).reading_id() ==> match job.word_outcome() {
                Ok(found) => final(self).resetting() && final(self).found() == found
                    && final(self).attempts() == old(self).attempts(),
                Err(e) => final(self).settling() && final(self).attempts() == old(
                    self,
                ).attempts().push(Attempt::IdUnread(e)),
            },
            old(self).resetting() ==> final(self).settling() && final(self).attempts() == old(
                self,
            ).attempts().push(Attempt::Identified { found: old(self).found(), reset: job.outcome() }),
    {
        let mut taken = Reset::new();
        std::mem::swap(self, &mut taken);
        proof {
            use_type_invariant(&taken);
        }
        let Reset { attempt, stage, history, settles } = taken;
        match stage {
            Stage::ReadId => {
                proof {
                    crate::bus::lemma_reads_of_model_id();
                }
                match job.word() {
                    Ok(found) => {
                        *self = Reset { attempt, stage: Stage::WriteReset { found }, history, settles };
                    },
                    Err(e) => {
                        let ghost attempts = history@.push(Attempt::IdUnread(e));
                        assert(earlier_attempts_failed(attempts, attempt as int));
                        *self = Reset {
                            attempt,
                            stage: Stage::Settle { verdict: Err(e) },
                            history: Ghost(attempts),
                            settles,
                        };
                    },
                }
            },
            Stage::WriteReset { found } => {
                let written = job.finish();
                let ghost attempts = history@.push(
                    Attempt::Identified { found, reset: written },
                );
                let verdict = match written {
                    Err(e) => Err(e),
                    Ok(()) => if found == MODEL_ID {
                        Ok(())
                    } else {
                        Err(Error::ModelId { found })
                    },
                };
                assert(earlier_attempts_failed(attempts, attempt as int));
                *self = Reset { attempt, stage: Stage::Settle { verdict }, history: Ghost(attempts), settles };
            },
            _ => {
                assert(false);
            },
        }
    }

    /// Reports that the settle delay [`Reset::next_action`] asked for has
    /// elapsed. Bring-up then ends if the attempt succeeded or was the last
    /// one allowed; otherwise the next attempt starts.
    pub fn settled(&mut self)
        requires
            old(self).settling(),
        ensures
            final(self).attempts() == old(self).attempts(),
            final(self).settle_count() == old(self).settle_count() + 1,
            final(self).steps_left() < old(self).steps_left(),
            final(self).finished() || final(self).reading_id(),
            final(self).finished() <==> (reset_outcome(old(self).attempts()) is Ok
                || old(self).attempts().len() == ID_ATTEMPTS),
    {
        let mut taken = Reset::new();
        std::mem::swap(self, &mut taken);
        proof {
            use_type_invariant(&taken);
        }
        let Reset { attempt, stage, history, settles } = taken;
        let settles = Ghost(settles@ + 1);
        match stage {
            Stage::Settle { verdict } => {
                if verdict.is_ok() || attempt + 1 == ID_ATTEMPTS {
                    *self = Reset { attempt, stage: Stage::Done { result: verdict }, history, settles };
                } else {
                    *self = Reset { attempt: attempt + 1, stage: Stage::ReadId, history, settles };
                }
            },
            _ => {
                assert(false);
            },
        }
    }

    /// The result of a finished bring-up.
    pub fn result(self) -> (result: Result<(), Error<E>>)
        requires
            self.finished(),
        ensures
            result == reset_outcome(self.attempts()),
    {
        proof {
            use_type_invariant(&self);
        }
        match self.stage {
            Stage::Done { result } => result,
            _ => {
                assert(false);
                Ok(())
            },
        }
    }

    /// Bring-up is bounded: at most [`ID_ATTEMPTS`] attempts, each with
    /// exactly one settle delay, so at most `ID_ATTEMPTS * RESET_SETTLE_MS`
    /// milliseconds of waiting and at most three actions per attempt; it can
    /// only give up after the last attempt, and succeeds only on its last
    /// attempt, every earlier one having failed. `wf` is the type's
    /// invariant, so every `Reset` a program holds meets the requirement
    /// (`use_type_invariant`).
    pub proof fn lemma_bring_up_is_bounded(self)
        requires
            self.wf(),
        ensures
            self.attempts().len() <= ID_ATTEMPTS,
            self.settle_count() <= self.attempts().len(),
            self.settle_count() * RESET_SETTLE_MS <= ID_ATTEMPTS * RESET_SETTLE_MS,
            self.steps_left() <= 3 * ID_ATTEMPTS,
            self.reading_id() || self.resetting() || self.settling() || self.finished(),
            !(self.reading_id() && self.resetting()),
            !(self.reading_id() && self.settling()),
            !(self.reading_id() && self.finished()),
            !(self.resetting() && self.settling()),
            !(self.resetting() && self.finished()),
            !(self.settling() && self.finished()),
            self.finished() ==> self.attempts().len() >= 1,
            self.finished() <==> self.steps_left() == 0,
            self.finished() ==> self.settle_count() == self.attempts().len(),
            self.finished() ==> earlier_attempts_failed(
                self.attempts(),
                self.attempts().len() - 1,
            ),
            self.finished() && reset_outcome(self.attempts()) is Err ==> self.attempts().len()
                == ID_ATTEMPTS,
    {
        assert(self.settle_count() * RESET_SETTLE_MS <= ID_ATTEMPTS * RESET_SETTLE_MS)
            by (nonlinear_arith)
            requires
                self.settle_count() <= ID_ATTEMPTS,
        ;
    }
}

} // verus!
