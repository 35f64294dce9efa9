//! Register transfers, their wire format, and [`Job`]: a planned sequence of
//! transfers that a caller runs on its I2C bus.
//!
//! A job hands out one transfer at a time and takes back the bus's answer.
//! After the first bus error it hands out nothing more, so a job is exactly
//! "these transfers, in order, stopping at the first failure".

use vstd::prelude::*;

use crate::config::{Error, Mode, MotionRoi};

verus! {

/// One register-level bus transaction.
#[derive(Debug, Clone, Copy, PartialEq, Eq, Structural)]
pub enum Transfer {
    /// Write one 8-bit register: a single three-byte write, see
    /// [`write_frame`].
    Write { reg: u16, value: u8 },
    /// Read one 8-bit register: a write of the two address bytes (see
    /// [`address_frame`]), a repeated start, then a one-byte read.
    Read { reg: u16 },
}

/// The high byte of a 16-bit value.
pub open spec fn spec_high_byte(v: u16) -> u8 {
    (v / 256) as u8
}

/// The low byte of a 16-bit value.
pub open spec fn spec_low_byte(v: u16) -> u8 {
    (v % 256) as u8
}

/// The high byte of a 16-bit value.
pub fn high_byte(v: u16) -> (b: u8)
    ensures
        b == spec_high_byte(v),
{
    assert((v >> 8u16) as u8 == v / 256) by (bit_vector);
    (v >> 8) as u8
}

/// The low byte of a 16-bit value.
pub fn low_byte(v: u16) -> (b: u8)
    ensures
        b == spec_low_byte(v),
{
    assert(v as u8 == v % 256) by (bit_vector);
    v as u8
}

/// Splitting a 16-bit value into high and low bytes loses nothing.
pub proof fn lemma_bytes_round_trip(v: u16)
    ensures
        spec_high_byte(v) * 256 + spec_low_byte(v) == v,
        spec_high_byte(v) == v / 256,
        spec_low_byte(v) == v % 256,
{
}

/// The bytes of a register write: the register address big-endian, then the
/// data byte.
pub fn write_frame(reg: u16, value: u8) -> (frame: [u8; 3])
    ensures
        frame@ == seq![spec_high_byte(reg), spec_low_byte(reg), value],
{
    let frame = [high_byte(reg), low_byte(reg), value];
    assert(frame@ =~= seq![spec_high_byte(reg), spec_low_byte(reg), value]);
    frame
}

/// The address bytes sent before a register read: the register address
/// big-endian.
pub fn address_frame(reg: u16) -> (frame: [u8; 2])
    ensures
        frame@ == seq![spec_high_byte(reg), spec_low_byte(reg)],
{
    let frame = [high_byte(reg), low_byte(reg)];
    assert(frame@ =~= seq![spec_high_byte(reg), spec_low_byte(reg)]);
    frame
}

/// The driver state a job commits once all its transfers have succeeded.
#[derive(Debug, Clone, Copy, PartialEq, Eq, Structural)]
pub enum Effect {
    /// The job changes no cached state.
    Nothing,
    /// The sensor is now in this mode.
    Mode(Mode),
    /// Motion detection is now configured like this.
    Motion(Option<MotionRoi>),
}

/// How many of `transfers` are reads.
pub open spec fn reads_in(transfers: Seq<Transfer>) -> nat
    decreases transfers.len(),
{
    if transfers.len() == 0 {
        0
    } else {
        reads_in(transfers.drop_last()) + if transfers.last() is Read {
            1nat
        } else {
            0nat
        }
    }
}

/// The model ID is read with two reads.
pub proof fn lemma_reads_of_model_id()
    ensures
        reads_in(crate::driver::model_id_reads()) == 2,
{
    let s = crate::driver::model_id_reads();
    assert(s.drop_last().drop_last() =~= Seq::<Transfer>::empty());
    assert(reads_in(s.drop_last().drop_last()) == 0);
    assert(reads_in(s.drop_last()) == 1);
}

/// A planned sequence of register transfers, with the answers received so
/// far.
pub struct Job<E> {
    plan: Vec<Transfer>,
    completed: usize,
    reads: Vec<u8>,
    failure: Option<E>,
    effect: Effect,
}

impl<E> Job<E> {
    /// The bookkeeping is consistent: no more transfers done than planned, one
    /// byte recorded per successful read, and a failure only at a transfer
    /// that was still to do.
    #[verifier::type_invariant]
    pub closed spec fn wf(self) -> bool {
        &&& self.completed <= self.plan@.len()
        &&& self.reads@.len() == reads_in(self.plan@.take(self.completed as int))
        &&& self.failure is Some ==> self.completed < self.plan@.len()
    }

    /// The planned transfers, in order.
    pub closed spec fn transfers(self) -> Seq<Transfer> {
        self.plan@
    }

    /// How many transfers have succeeded so far.
    pub closed spec fn done(self) -> nat {
        self.completed as nat
    }

    /// The bytes the successful reads returned, in order.
    pub closed spec fn bytes_read(self) -> Seq<u8> {
        self.reads@
    }

    /// The bus error that stopped the job, if any.
    pub closed spec fn error(self) -> Option<E> {
        self.failure
    }

    /// The driver state the job commits if it succeeds.
    pub closed spec fn commit(self) -> Effect {
        self.effect
    }

    /// Nothing is left to send: a transfer failed or all succeeded.
    pub open spec fn finished(self) -> bool {
        self.error() is Some || self.done() == self.transfers().len()
    }

    /// The transfer the bus has to perform next, if any.
    pub open spec fn pending(self) -> Option<Transfer> {
        if self.finished() {
            None
        } else {
            Some(self.transfers()[self.done() as int])
        }
    }

    /// A job that has not yet sent anything.
    pub open spec fn is_fresh(self, transfers: Seq<Transfer>, commit: Effect) -> bool {
        &&& self.transfers() == transfers
        &&& self.done() == 0
        &&& self.bytes_read() == Seq::<u8>::empty()
        &&& self.error() is None
        &&& self.commit() == commit
    }

    /// The bus answer that `finish` reports.
    pub open spec fn outcome(self) -> Result<(), Error<E>> {
        match self.error() {
            Some(e) => Err(Error::I2c(e)),
            None => Ok(()),
        }
    }

    /// The value `byte` reports: the first bus error, or the byte read.
    pub open spec fn byte_outcome(self) -> Result<u8, Error<E>> {
        match self.error() {
            Some(e) => Err(Error::I2c(e)),
            None => Ok(self.bytes_read()[0]),
        }
    }

    /// The value `word` reports: the first bus error, or the two bytes read,
    /// high first.
    pub open spec fn word_outcome(self) -> Result<u16, Error<E>> {
        match self.error() {
            Some(e) => Err(Error::I2c(e)),
            None => Ok((self.bytes_read()[0] * 256 + self.bytes_read()[1]) as u16),
        }
    }

    /// A job of `plan` that commits `effect` when it succeeds.
    pub(crate) fn new(plan: Vec<Transfer>, effect: Effect) -> (job: Self)
        ensures
            job.is_fresh(plan@, effect),
    {
        let job = Job { plan, completed: 0, reads: Vec::new(), failure: None, effect };
        assert(job.plan@.take(0) =~= Seq::<Transfer>::empty());
        job
    }

    /// The transfer to perform next, or `None` once the job is finished.
    pub fn next(&self) -> (transfer: Option<Transfer>)
        ensures
            transfer == self.pending(),
    {
        proof {
            use_type_invariant(self);
        }
        if self.failure.is_some() || self.completed == self.plan.len() {
            None
        } else {
            Some(self.plan[self.completed])
        }
    }

    /// Whether nothing is left to send.
    pub fn is_finished(&self) -> (finished: bool)
        ensures
            finished == self.finished(),
    {
        self.failure.is_some() || self.completed == self.plan.len()
    }

    /// The driver state this job commits if it succeeds.
    pub fn effect(&self) -> (effect: Effect)
        ensures
            effect == self.commit(),
    {
        self.effect
    }

    /// Records the bus's answer to the pending write.
    pub fn wrote(&mut self, result: Result<(), E>)
        requires
            old(self).pending() matches Some(Transfer::Write { .. }),
        ensures
            final(self).transfers() == old(self).transfers(),
            final(self).bytes_read() == old(self).bytes_read(),
            final(self).commit() == old(self).commit(),
            match result {
                Ok(()) => final(self).done() == old(self).done() + 1 && final(self).error() is None,
                Err(e) => final(self).done() == old(self).done() && final(self).error() == Some(e),
            },
    {
        proof {
            use_type_invariant(&*self);
        }
        match result {
            Ok(()) => {
                let planned = self.plan.len();
                assert(self.completed < planned);
                proof {
                    let p = self.plan@;
                    let k = self.completed as int;
                    assert(p.take(k + 1).drop_last() =~= p.take(k));
                }
                self.completed = self.completed + 1;
            },
            Err(e) => {
                self.failure = Some(e);
            },
        }
    }

    /// Records the bus's answer to the pending read.
    pub fn read(&mut self, result: Result<u8, E>)
        requires
            old(self).pending() matches Some(Transfer::Read { .. }),
        ensures
            final(self).transfers() == old(self).transfers(),
            final(self).commit() == old(self).commit(),
            match result {
                Ok(b) => final(self).done() == old(self).done() + 1 && final(self).error() is None
                    && final(self).bytes_read() == old(self).bytes_read().push(b),
                Err(e) => final(self).done() == old(self).done() && final(self).error() == Some(e)
                    && final(self).bytes_read() == old(self).bytes_read(),
            },
    {
        proof {
            use_type_invariant(&*self);
        }
        match result {
            Ok(b) => {
                let mut taken = Job {
                    plan: Vec::new(),
                    completed: 0,
                    reads: Vec::new(),
                    failure: None,
                    effect: Effect::Nothing,
                };
                proof {
                    assert(taken.plan@.take(0) =~= Seq::<Transfer>::empty());
                }
                std::mem::swap(self, &mut taken);
                proof {
                    use_type_invariant(&taken);
                }
                let Job { plan, completed, mut reads, failure, effect } = taken;
                let planned = plan.len();
                assert(completed < planned);
                proof {
                    let p = plan@;
                    let k = completed as int;
                    assert(p.take(k + 1).drop_last() =~= p.take(k));
                }
                reads.push(b);
                *self = Job { plan, completed: completed + 1, reads, failure, effect };
            },
            Err(e) => {
                self.failure = Some(e);
            },
        }
    }

    /// The job's result: the first bus error, or success.
    ///
    /// A job that succeeded performed every transfer of its plan and recorded
    /// one byte per read.
    pub fn finish(self) -> (result: Result<(), Error<E>>)
        requires
            self.finished(),
        ensures
            result == self.outcome(),
            result is Ok ==> self.done() == self.transfers().len()
                && self.bytes_read().len() == reads_in(self.transfers()),
    {
        proof {
            use_type_invariant(&self);
            if self.failure is None {
                assert(self.plan@.take(self.completed as int) =~= self.plan@);
            }
        }
        match self.failure {
            Some(e) => Err(Error::I2c(e)),
            None => Ok(()),
        }
    }

    /// The byte returned by a job whose plan reads exactly one register.
    pub fn byte(self) -> (result: Result<u8, Error<E>>)
        requires
            self.finished(),
            reads_in(self.transfers()) == 1,
        ensures
            result == self.byte_outcome(),
    {
        proof {
            use_type_invariant(&self);
        }
        match self.failure {
            Some(e) => Err(Error::I2c(e)),
            None => {
                assert(self.plan@.take(self.completed as int) =~= self.plan@);
                Ok(self.reads[0])
            },
        }
    }

    /// The 16-bit value returned by a job whose plan reads exactly two
    /// registers, the high byte first.
    pub fn word(self) -> (result: Result<u16, Error<E>>)
        requires
            self.finished(),
            reads_in(self.transfers()) == 2,
        ensures
            result == self.word_outcome(),
    {
        proof {
            use_type_invariant(&self);
        }
        match self.failure {
            Some(e) => Err(Error::I2c(e)),
            None => {
                assert(self.plan@.take(self.completed as int) =~= self.plan@);
                let high = self.reads[0];
                let low = self.reads[1];
                assert((high as u16) << 8u16 | (low as u16) == high * 256 + low) by (bit_vector);
                Ok((high as u16) << 8 | (low as u16))
            },
        }
    }
}

} // verus!
