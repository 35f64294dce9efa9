//! The driver against a fake bus that records every transaction and answers
//! reads from a canned register map. Jobs are run on it the way an
//! application runs them on a real bus.

use std::collections::BTreeMap;

use embedded_hal::delay::DelayNs;
use embedded_hal::i2c::{self, ErrorType, I2c, Operation};

use hm01b0::registers as reg;
use hm01b0::{
    address_frame, write_frame, Error, Exposure, Hm01b0, Job, Mode, MotionRoi, ResetAction,
    TestPattern, Transfer, I2C_ADDRESS, ID_ATTEMPTS, MODEL_ID, RESET_SETTLE_MS,
    VENDOR_MAX_INTEGRATION_LINES, VENDOR_MIN_INTEGRATION_LINES,
};

// ---------------------------------------------------------------------------
// Fakes
// ---------------------------------------------------------------------------

/// One recorded bus transaction.
#[derive(Debug, Clone, PartialEq, Eq)]
enum Txn {
    /// A plain write of `n` bytes.
    Write(Vec<u8>),
    /// A write of the register address followed by a repeated-start read.
    WriteRead(Vec<u8>, Vec<u8>),
}

#[derive(Debug, Clone, Copy, PartialEq, Eq)]
struct MockError;

impl i2c::Error for MockError {
    fn kind(&self) -> i2c::ErrorKind {
        i2c::ErrorKind::NoAcknowledge(i2c::NoAcknowledgeSource::Address)
    }
}

struct MockI2c {
    /// Every transaction, in order.
    txns: Vec<Txn>,
    /// Canned register contents for reads; unlisted registers read `0xFF`.
    regs: BTreeMap<u16, u8>,
    /// Addresses the transactions were addressed to.
    addresses: Vec<u8>,
    /// Number of leading transactions to fail with `MockError`.
    fail_first: usize,
    /// Transactions attempted so far, including failed ones.
    attempts: usize,
    /// Number of leading plain writes to fail with `MockError`.
    nack_writes: usize,
}

impl MockI2c {
    fn new() -> Self {
        let mut regs = BTreeMap::new();
        regs.insert(reg::MODEL_ID_H, 0x01);
        regs.insert(reg::MODEL_ID_L, 0xB0);
        // Arbitrary non-zero power-on value, so the read-modify-write of the
        // gated-clock bit is visible in the recorded transactions.
        regs.insert(reg::OSC_CLK_DIV, 0x0A);
        Self {
            txns: Vec::new(),
            regs,
            addresses: Vec::new(),
            fail_first: 0,
            attempts: 0,
            nack_writes: 0,
        }
    }

    fn with_model_id(mut self, id: u16) -> Self {
        self.regs.insert(reg::MODEL_ID_H, (id >> 8) as u8);
        self.regs.insert(reg::MODEL_ID_L, id as u8);
        self
    }

    fn failing_first(mut self, n: usize) -> Self {
        self.fail_first = n;
        self
    }

    fn nacking_writes(mut self, n: usize) -> Self {
        self.nack_writes = n;
        self
    }

    /// The recorded writes as `(register, value)` pairs, reads dropped.
    fn writes(&self) -> Vec<(u16, u8)> {
        self.txns
            .iter()
            .filter_map(|t| match t {
                Txn::Write(bytes) => {
                    assert_eq!(bytes.len(), 3, "register writes are 3 bytes");
                    Some(((u16::from(bytes[0]) << 8) | u16::from(bytes[1]), bytes[2]))
                }
                Txn::WriteRead(..) => None,
            })
            .collect()
    }

    fn reads(&self) -> Vec<u16> {
        self.txns
            .iter()
            .filter_map(|t| match t {
                Txn::WriteRead(addr, _) => Some((u16::from(addr[0]) << 8) | u16::from(addr[1])),
                Txn::Write(_) => None,
            })
            .collect()
    }
}

impl ErrorType for MockI2c {
    type Error = MockError;
}

impl I2c for MockI2c {
    fn transaction(
        &mut self,
        address: u8,
        operations: &mut [Operation<'_>],
    ) -> Result<(), Self::Error> {
        self.attempts += 1;
        if self.attempts <= self.fail_first {
            return Err(MockError);
        }
        if self.nack_writes > 0 && matches!(operations, [Operation::Write(_)]) {
            self.nack_writes -= 1;
            return Err(MockError);
        }
        self.addresses.push(address);
        match operations {
            [Operation::Write(bytes)] => {
                self.txns.push(Txn::Write(bytes.to_vec()));
            }
            [Operation::Write(addr), Operation::Read(buf)] => {
                assert_eq!(addr.len(), 2, "register addresses are 16-bit");
                let register = (u16::from(addr[0]) << 8) | u16::from(addr[1]);
                for (i, byte) in buf.iter_mut().enumerate() {
                    *byte = *self.regs.get(&(register + i as u16)).unwrap_or(&0xFF);
                }
                self.txns.push(Txn::WriteRead(addr.to_vec(), buf.to_vec()));
            }
            other => panic!("unexpected transaction shape: {} ops", other.len()),
        }
        Ok(())
    }
}

/// Records how long the driver asked to be delayed.
#[derive(Default)]
struct MockDelay {
    total_ns: u64,
    calls: usize,
}

impl DelayNs for MockDelay {
    fn delay_ns(&mut self, ns: u32) {
        self.total_ns += u64::from(ns);
        self.calls += 1;
    }
}

impl MockDelay {
    fn total_ms(&self) -> u64 {
        self.total_ns / 1_000_000
    }
}

type Cam = Hm01b0<MockI2c>;
type Res<T> = Result<T, Error<MockError>>;

fn driver() -> Cam {
    Hm01b0::new(MockI2c::new())
}

// ---------------------------------------------------------------------------
// Running jobs on the bus
// ---------------------------------------------------------------------------

/// Runs a job on the camera's bus until it is finished.
fn run(cam: &mut Cam, mut job: Job<MockError>) -> Job<MockError> {
    let address = cam.address();
    while let Some(transfer) = job.next() {
        match transfer {
            Transfer::Write { reg, value } => {
                let result = cam.bus().write(address, &write_frame(reg, value));
                job.wrote(result);
            }
            Transfer::Read { reg } => {
                let mut buf = [0u8; 1];
                let result = cam.bus().write_read(address, &address_frame(reg), &mut buf);
                job.read(result.map(|()| buf[0]));
            }
        }
    }
    job
}

/// Runs a job and hands it back to the driver.
fn exec(cam: &mut Cam, job: Job<MockError>) -> Res<()> {
    let job = run(cam, job);
    cam.complete(job)
}

fn read_register(cam: &mut Cam, register: u16) -> Res<u8> {
    let job = cam.read_register(register);
    run(cam, job).byte()
}

fn modify_register(cam: &mut Cam, register: u16, f: impl FnOnce(u8) -> u8) -> Res<()> {
    let current = read_register(cam, register);
    let job = cam.modify_register(register, current, f)?;
    exec(cam, job)
}

fn model_id(cam: &mut Cam) -> Res<u16> {
    let job = cam.model_id();
    run(cam, job).word()
}

fn verify_identity(cam: &mut Cam) -> Res<()> {
    let id = model_id(cam);
    cam.verify_identity(id)
}

fn configure(cam: &mut Cam) -> Res<()> {
    let clock = read_register(cam, reg::OSC_CLK_DIV);
    let job = cam.configure(clock)?;
    exec(cam, job)
}

fn reset(cam: &mut Cam, delay: &mut MockDelay) -> Res<()> {
    let mut bring_up = cam.reset();
    loop {
        match bring_up.next_action() {
            ResetAction::Run(job) => {
                let job = run(cam, job);
                bring_up.job_done(job);
            }
            ResetAction::Settle { ms } => {
                delay.delay_ms(ms);
                bring_up.settled();
            }
            ResetAction::Finished => break,
        }
    }
    cam.finish_reset(bring_up)
}

fn init(cam: &mut Cam, delay: &mut MockDelay) -> Res<()> {
    reset(cam, delay)?;
    configure(cam)
}

// ---------------------------------------------------------------------------
// Wire format
// ---------------------------------------------------------------------------

#[test]
fn write_register_is_address_big_endian_then_data() {
    let mut cam = driver();
    let job = cam.write_register(0x1234, 0x56);
    exec(&mut cam, job).unwrap();
    assert_eq!(cam.bus().txns, [Txn::Write(vec![0x12, 0x34, 0x56])]);
    assert_eq!(cam.bus().addresses, [I2C_ADDRESS]);
}

#[test]
fn read_register_is_write_address_then_repeated_start_read() {
    let mut cam = driver();
    let value = read_register(&mut cam, reg::OSC_CLK_DIV).unwrap();
    assert_eq!(value, 0x0A);
    assert_eq!(
        cam.bus().txns,
        [Txn::WriteRead(vec![0x30, 0x60], vec![0x0A])]
    );
}

#[test]
fn the_frames_split_the_register_address_high_byte_first() {
    assert_eq!(write_frame(0xABCD, 0xEF), [0xAB, 0xCD, 0xEF]);
    assert_eq!(write_frame(0x0001, 0x00), [0x00, 0x01, 0x00]);
    assert_eq!(address_frame(0x3060), [0x30, 0x60]);
}

#[test]
fn a_custom_address_is_honoured() {
    let mut cam = Hm01b0::with_address(MockI2c::new(), 0x48);
    let job = cam.write_register(0x0000, 0x00);
    exec(&mut cam, job).unwrap();
    read_register(&mut cam, 0x0000).unwrap();
    assert_eq!(cam.bus().addresses, [0x48, 0x48]);
}

#[test]
fn modify_register_reads_then_writes_back() {
    let mut cam = driver();
    modify_register(&mut cam, reg::OSC_CLK_DIV, |v| v | (1 << 5)).unwrap();
    assert_eq!(
        cam.bus().txns,
        [
            Txn::WriteRead(vec![0x30, 0x60], vec![0x0A]),
            Txn::Write(vec![0x30, 0x60, 0x2A]),
        ]
    );
}

#[test]
fn i2c_errors_are_wrapped() {
    let mut cam = Hm01b0::new(MockI2c::new().failing_first(1));
    let job = cam.write_register(0x0000, 0x00);
    assert_eq!(exec(&mut cam, job), Err(Error::I2c(MockError)));
}

#[test]
fn a_job_stops_at_the_first_bus_error() {
    // The first write fails: nothing after it is sent.
    let mut cam = Hm01b0::new(MockI2c::new().failing_first(1));
    let job = cam.set_exposure(&Exposure::default());
    let job = run(&mut cam, job);
    assert!(job.is_finished());
    assert_eq!(job.next(), None);
    assert_eq!(cam.complete(job), Err(Error::I2c(MockError)));
    assert!(cam.bus().txns.is_empty());
    assert_eq!(cam.bus().attempts, 1);
}

#[test]
fn the_bus_can_be_released() {
    let mut cam = driver();
    let job = cam.clear_motion_interrupt();
    exec(&mut cam, job).unwrap();
    let bus = cam.release();
    assert_eq!(bus.txns, [Txn::Write(vec![0x21, 0x53, 0x01])]);
}

// ---------------------------------------------------------------------------
// Identity
// ---------------------------------------------------------------------------

#[test]
fn model_id_is_two_single_byte_reads_high_first() {
    let mut cam = driver();
    assert_eq!(model_id(&mut cam).unwrap(), MODEL_ID);
    assert_eq!(model_id(&mut cam).unwrap(), 0x01B0);
    assert_eq!(
        cam.bus().reads(),
        [
            reg::MODEL_ID_H,
            reg::MODEL_ID_L,
            reg::MODEL_ID_H,
            reg::MODEL_ID_L
        ]
    );
}

#[test]
fn verify_identity_accepts_an_hm01b0() {
    assert_eq!(verify_identity(&mut driver()), Ok(()));
}

#[test]
fn verify_identity_reports_the_id_it_found() {
    let mut cam = Hm01b0::new(MockI2c::new().with_model_id(0x01B6));
    assert_eq!(
        verify_identity(&mut cam),
        Err(Error::ModelId { found: 0x01B6 })
    );
}

#[test]
fn an_absent_sensor_reads_as_all_ones() {
    let mut cam = Hm01b0::new(MockI2c::new().with_model_id(0xFFFF));
    assert_eq!(
        verify_identity(&mut cam),
        Err(Error::ModelId { found: 0xFFFF })
    );
}

#[test]
fn a_failed_id_read_is_passed_on() {
    let mut cam = Hm01b0::new(MockI2c::new().failing_first(1));
    assert_eq!(verify_identity(&mut cam), Err(Error::I2c(MockError)));
    // The high-byte read failed, so the low byte was never asked for.
    assert_eq!(cam.bus().attempts, 1);
}

// ---------------------------------------------------------------------------
// Bring-up
// ---------------------------------------------------------------------------

/// The exact writes `init` must produce, spelled out as literals.
const EXPECTED_INIT_WRITES: [(u16, u8); 49] = [
    (0x0103, 0x00), // SW_RESET, from the identity/reset loop
    (0x3060, 0x2A), // OSC_CLK_DIV, read 0x0A with bit 5 set for gated clock
    // analog
    (0x1003, 0x08),
    (0x1007, 0x08),
    // reserved-but-required block
    (0x3044, 0x0A),
    (0x3045, 0x00),
    (0x3047, 0x0A),
    (0x3050, 0xC0),
    (0x3051, 0x42),
    (0x3052, 0x50),
    (0x3053, 0x00),
    (0x3054, 0x03),
    (0x3055, 0xF7),
    (0x3056, 0xF8),
    (0x3057, 0x29),
    (0x3058, 0x1F),
    (0x3059, 0x1E),
    // digital
    (0x1000, 0x43),
    (0x1001, 0x40),
    (0x1002, 0x32),
    (0x0350, 0x7F),
    (0x1006, 0x01),
    (0x1008, 0x00),
    (0x1009, 0xA0),
    (0x100A, 0x60),
    (0x100B, 0x90),
    (0x100C, 0x40),
    // auto-exposure
    (0x2000, 0x07),
    (0x2100, 0x01), // AE_CTRL: auto-exposure stays ON
    (0x2101, 0x5F),
    (0x2102, 0x0A),
    (0x2103, 0x03),
    (0x2104, 0x05),
    (0x2105, 0x02), // MAX_INTG_H \_ 532 lines
    (0x2106, 0x14), // MAX_INTG_L /
    (0x2107, 0x02),
    (0x2108, 0x03),
    (0x2109, 0x03),
    (0x210A, 0x00),
    (0x210B, 0x80),
    (0x210C, 0x40),
    (0x210D, 0x20),
    // 60 Hz flicker
    (0x210E, 0x03),
    (0x210F, 0x00),
    (0x2110, 0x85),
    (0x2111, 0x00),
    (0x2112, 0xA0),
    // motion detection, disabled
    (0x2150, 0x00),
    // shifting
    (0x1012, 0x00),
];

#[test]
fn init_writes_the_power_on_sequence_in_order() {
    let mut cam = driver();
    let mut delay = MockDelay::default();
    init(&mut cam, &mut delay).unwrap();

    assert_eq!(cam.bus().writes(), EXPECTED_INIT_WRITES);
    // Two identity reads plus the OSC_CLK_DIV read-modify-write.
    assert_eq!(
        cam.bus().reads(),
        [reg::MODEL_ID_H, reg::MODEL_ID_L, reg::OSC_CLK_DIV]
    );
    // 48 of the 49 writes belong to configure(); the reset write does not.
    assert_eq!(EXPECTED_INIT_WRITES.len() - 1, 48);
}

#[test]
fn the_vendor_table_programs_the_documented_ae_ceiling() {
    let mut cam = driver();
    init(&mut cam, &mut MockDelay::default()).unwrap();
    let writes = cam.bus().writes();
    let byte = |r| writes.iter().find(|(reg, _)| *reg == r).unwrap().1;
    let ceiling = u16::from(byte(reg::MAX_INTG_H)) << 8 | u16::from(byte(reg::MAX_INTG_L));
    assert_eq!(ceiling, VENDOR_MAX_INTEGRATION_LINES);
    assert_eq!(u16::from(byte(reg::MIN_INTG)), VENDOR_MIN_INTEGRATION_LINES);
}

#[test]
fn init_leaves_the_sensor_in_standby() {
    let mut cam = driver();
    init(&mut cam, &mut MockDelay::default()).unwrap();
    assert_eq!(cam.mode(), Mode::Standby);
    assert!(!cam
        .bus()
        .writes()
        .iter()
        .any(|(r, _)| *r == reg::MODE_SELECT));
}

#[test]
fn init_settles_once_after_the_reset_on_the_happy_path() {
    let mut cam = driver();
    let mut delay = MockDelay::default();
    init(&mut cam, &mut delay).unwrap();
    assert_eq!(delay.calls, 1);
    assert_eq!(delay.total_ms(), u64::from(RESET_SETTLE_MS));
}

#[test]
fn init_gives_up_after_a_bounded_number_of_attempts() {
    let mut cam = Hm01b0::new(MockI2c::new().with_model_id(0x00FF));
    let mut delay = MockDelay::default();

    assert_eq!(
        init(&mut cam, &mut delay),
        Err(Error::ModelId { found: 0x00FF })
    );
    assert_eq!(cam.bus().reads().len(), 2 * usize::from(ID_ATTEMPTS));
    assert_eq!(cam.bus().writes().len(), usize::from(ID_ATTEMPTS));
    assert!(cam
        .bus()
        .writes()
        .iter()
        .all(|(r, v)| *r == reg::SW_RESET && *v == 0x00));
    assert_eq!(delay.calls, usize::from(ID_ATTEMPTS));
    assert_eq!(
        delay.total_ms(),
        u64::from(ID_ATTEMPTS) * u64::from(RESET_SETTLE_MS)
    );
}

#[test]
fn init_rides_out_a_bus_error_while_the_rails_come_up() {
    let mut cam = Hm01b0::new(MockI2c::new().failing_first(4));
    let mut delay = MockDelay::default();
    assert_eq!(init(&mut cam, &mut delay), Ok(()));
    assert_eq!(cam.bus().writes(), EXPECTED_INIT_WRITES);
}

#[test]
fn a_permanently_dead_bus_surfaces_the_i2c_error() {
    let mut cam = Hm01b0::new(MockI2c::new().failing_first(usize::MAX));
    let mut delay = MockDelay::default();
    assert_eq!(init(&mut cam, &mut delay), Err(Error::I2c(MockError)));
    // Every attempt failed on its first read and still waited once.
    assert_eq!(cam.bus().attempts, usize::from(ID_ATTEMPTS));
    assert_eq!(delay.calls, usize::from(ID_ATTEMPTS));
}

#[test]
fn bring_up_retries_failed_reads_until_the_sensor_answers() {
    // The first three transactions are the high-byte reads of three
    // attempts; the fourth attempt gets through.
    let mut cam = Hm01b0::new(MockI2c::new().failing_first(3));
    let mut delay = MockDelay::default();
    assert_eq!(reset(&mut cam, &mut delay), Ok(()));
    assert_eq!(delay.calls, 4);
    assert_eq!(cam.bus().writes(), [(0x0103, 0x00)]);
    assert_eq!(cam.bus().reads().len(), 2);
}

#[test]
fn a_failed_reset_write_is_retried() {
    // The identity reads succeed but the first reset write is not
    // acknowledged: that attempt fails, settles, and the next one succeeds.
    let mut cam = Hm01b0::new(MockI2c::new().nacking_writes(1));
    let mut delay = MockDelay::default();
    assert_eq!(reset(&mut cam, &mut delay), Ok(()));
    assert_eq!(delay.calls, 2);
    assert_eq!(cam.bus().reads().len(), 4);
    assert_eq!(cam.bus().writes(), [(0x0103, 0x00)]);
}

#[test]
fn a_reset_write_that_never_goes_through_surfaces_its_error() {
    let mut cam = Hm01b0::new(MockI2c::new().nacking_writes(usize::MAX));
    let mut delay = MockDelay::default();
    assert_eq!(reset(&mut cam, &mut delay), Err(Error::I2c(MockError)));
    assert_eq!(delay.calls, usize::from(ID_ATTEMPTS));
    assert_eq!(cam.mode(), Mode::Standby);
}

#[test]
fn reset_forgets_the_motion_configuration() {
    let mut cam = driver();
    let job = cam.set_motion_detection(Some(MotionRoi::full())).unwrap();
    exec(&mut cam, job).unwrap();
    let job = cam.start_streaming();
    exec(&mut cam, job).unwrap();
    assert_eq!(cam.motion_detection(), Some(MotionRoi::full()));
    reset(&mut cam, &mut MockDelay::default()).unwrap();
    assert_eq!(cam.motion_detection(), None);
    assert_eq!(cam.mode(), Mode::Standby);
}

#[test]
fn a_failed_clock_read_aborts_configuration() {
    let mut cam = Hm01b0::new(MockI2c::new().failing_first(1));
    assert_eq!(configure(&mut cam), Err(Error::I2c(MockError)));
    assert!(cam.bus().txns.is_empty());
    assert_eq!(cam.bus().attempts, 1);
}

#[test]
fn a_failed_read_is_not_written_back() {
    let mut cam = Hm01b0::new(MockI2c::new().failing_first(1));
    let mut called = false;
    let result = modify_register(&mut cam, reg::OSC_CLK_DIV, |v| {
        called = true;
        v
    });
    assert_eq!(result, Err(Error::I2c(MockError)));
    assert!(!called);
    assert!(cam.bus().txns.is_empty());
}

#[test]
fn configure_alone_skips_the_identity_check() {
    let mut cam = driver();
    configure(&mut cam).unwrap();
    assert_eq!(cam.bus().writes().len(), 48);
    assert_eq!(cam.bus().reads(), [reg::OSC_CLK_DIV]);
}

// ---------------------------------------------------------------------------
// Modes
// ---------------------------------------------------------------------------

#[test]
fn mode_transitions_write_mode_select_with_the_documented_values() {
    let mut cam = driver();
    let job = cam.start_streaming();
    exec(&mut cam, job).unwrap();
    assert_eq!(cam.mode(), Mode::Streaming);
    let job = cam.start_triggered();
    exec(&mut cam, job).unwrap();
    assert_eq!(cam.mode(), Mode::Trigger);
    let job = cam.stop();
    exec(&mut cam, job).unwrap();
    assert_eq!(cam.mode(), Mode::Standby);
    let job = cam.set_mode(Mode::Streaming);
    exec(&mut cam, job).unwrap();
    assert_eq!(cam.mode(), Mode::Streaming);

    assert_eq!(
        cam.bus().writes(),
        [(0x0100, 1), (0x0100, 5), (0x0100, 0), (0x0100, 1)]
    );
}

#[test]
fn a_failed_mode_write_does_not_update_the_cached_mode() {
    let mut cam = Hm01b0::new(MockI2c::new().failing_first(1));
    let job = cam.set_mode(Mode::Streaming);
    assert!(exec(&mut cam, job).is_err());
    assert_eq!(cam.mode(), Mode::Standby);
}

// ---------------------------------------------------------------------------
// Exposure
// ---------------------------------------------------------------------------

#[test]
fn set_auto_exposure_toggles_bit_zero_of_ae_ctrl() {
    let mut cam = driver();
    let job = cam.set_auto_exposure(false);
    exec(&mut cam, job).unwrap();
    let job = cam.set_auto_exposure(true);
    exec(&mut cam, job).unwrap();
    assert_eq!(cam.bus().writes(), [(0x2100, 0x00), (0x2100, 0x01)]);
}

#[test]
fn set_exposure_disables_ae_inside_a_group_hold() {
    let mut cam = driver();
    let job = cam.set_exposure(&Exposure {
        integration_lines: 0x0123,
        analog_gain: 0x30,
        digital_gain: 0x0180,
    });
    exec(&mut cam, job).unwrap();

    assert_eq!(
        cam.bus().writes(),
        [
            (0x0104, 0x01), // GRP_PARAM_HOLD on
            (0x2100, 0x00), // AE off
            (0x0202, 0x01), // INTEGRATION_H
            (0x0203, 0x23), // INTEGRATION_L
            (0x0205, 0x30), // ANALOG_GAIN
            (0x020E, 0x01), // DIGITAL_GAIN_H
            (0x020F, 0x80), // DIGITAL_GAIN_L
            (0x0104, 0x00), // GRP_PARAM_HOLD off
        ]
    );
}

#[test]
fn integration_and_ae_bounds_split_into_high_low_pairs() {
    let mut cam = driver();
    let job = cam.set_integration_lines(0x02AB);
    exec(&mut cam, job).unwrap();
    let job = cam.set_max_integration_lines(0x0214);
    exec(&mut cam, job).unwrap();
    let job = cam.set_ae_target_mean(0x40);
    exec(&mut cam, job).unwrap();
    assert_eq!(
        cam.bus().writes(),
        [
            (0x0104, 0x01),
            (0x0202, 0x02),
            (0x0203, 0xAB),
            (0x0104, 0x00),
            (0x2105, 0x02),
            (0x2106, 0x14),
            (0x2101, 0x40),
        ]
    );
}

#[test]
fn raising_the_ae_ceiling_past_the_knee_is_two_writes() {
    let mut cam = driver();
    let job = cam.set_max_integration_lines(1_800);
    exec(&mut cam, job).unwrap();
    assert_eq!(cam.bus().writes(), [(0x2105, 0x07), (0x2106, 0x08)]);
    assert_eq!(0x0708, 1_800);
}

// ---------------------------------------------------------------------------
// Test patterns
// ---------------------------------------------------------------------------

#[test]
fn enabling_a_test_pattern_disables_the_blocks_that_would_corrupt_it() {
    let mut cam = driver();
    let job = cam.set_test_pattern(TestPattern::WalkingOnes);
    exec(&mut cam, job).unwrap();
    assert_eq!(
        cam.bus().writes(),
        [
            (0x2100, 0x00), // AE_CTRL
            (0x1000, 0x00), // BLC_CFG
            (0x1008, 0x00), // DPC_CTRL
            (0x0205, 0x00), // ANALOG_GAIN
            (0x020E, 0x01), // DIGITAL_GAIN_H
            (0x020F, 0x00), // DIGITAL_GAIN_L
            (0x0601, 0x11), // TEST_PATTERN_MODE = walking ones
        ]
    );
}

#[test]
fn the_colour_bar_pattern_uses_the_documented_value() {
    let mut cam = driver();
    let job = cam.set_test_pattern(TestPattern::ColorBar);
    exec(&mut cam, job).unwrap();
    assert_eq!(cam.bus().writes().last(), Some(&(0x0601, 0x01)));
}

#[test]
fn disabling_the_test_pattern_restores_the_whole_default_table() {
    let mut cam = driver();
    let job = cam.set_test_pattern(TestPattern::Off);
    exec(&mut cam, job).unwrap();
    let writes = cam.bus().writes();
    // 45 defaults + MD_CTRL + TEST_PATTERN_MODE.
    assert_eq!(writes.len(), reg::DEFAULT_REGISTERS.len() + 2);
    assert_eq!(writes[0], (0x1003, 0x08));
    assert_eq!(writes.last(), Some(&(0x0601, 0x00)));
}

// ---------------------------------------------------------------------------
// Motion detection
// ---------------------------------------------------------------------------

#[test]
fn motion_detection_splits_the_roi_across_high_low_registers() {
    let mut cam = driver();
    let job = cam
        .set_motion_detection(Some(MotionRoi {
            x0: 0x0004,
            y0: 0x0102,
            x1: 0x0141,
            y1: 0x0143,
        }))
        .unwrap();
    exec(&mut cam, job).unwrap();
    assert_eq!(
        cam.bus().writes(),
        [
            (0x2150, 0x03), // MD_CTRL
            (0x215B, 0x01), // MD_THL
            (0x2011, 0x00), // X start high
            (0x2012, 0x04), // X start low
            (0x2013, 0x01), // Y start high
            (0x2014, 0x02), // Y start low
            (0x2015, 0x01), // X end high
            (0x2016, 0x41), // X end low
            (0x2017, 0x01), // Y end high
            (0x2018, 0x43), // Y end low
            (0x2153, 0x01), // I2C_CLEAR
        ]
    );
}

#[test]
fn an_out_of_range_roi_is_rejected_without_touching_the_bus() {
    let cam = driver();
    for bad in [
        MotionRoi {
            x0: 0,
            y0: 0,
            x1: hm01b0::WIDTH,
            y1: 10,
        },
        MotionRoi {
            x0: 0,
            y0: 0,
            x1: 10,
            y1: hm01b0::HEIGHT,
        },
        MotionRoi {
            x0: 20,
            y0: 0,
            x1: 10,
            y1: 10,
        },
    ] {
        assert!(matches!(
            cam.set_motion_detection::<MockError>(Some(bad)),
            Err(Error::InvalidRoi)
        ));
    }
    let mut cam = cam;
    assert!(cam.bus().txns.is_empty());
}

#[test]
fn a_configured_roi_is_re_applied_by_the_default_table() {
    let mut cam = driver();
    let job = cam.set_motion_detection(Some(MotionRoi::full())).unwrap();
    exec(&mut cam, job).unwrap();
    cam.bus().txns.clear();

    let job = cam.apply_default_registers();
    exec(&mut cam, job).unwrap();
    let writes = cam.bus().writes();
    assert_eq!(writes.len(), reg::DEFAULT_REGISTERS.len() + 11);
    assert_eq!(writes[reg::DEFAULT_REGISTERS.len()], (0x2150, 0x03));
    assert_eq!(writes.last(), Some(&(0x2153, 0x01)));
}

#[test]
fn a_failed_motion_write_leaves_the_cached_roi_alone() {
    let mut cam = Hm01b0::new(MockI2c::new().failing_first(1));
    let job = cam
        .set_motion_detection(Some(MotionRoi {
            x0: 0x0004,
            y0: 0x0102,
            x1: 0x0141,
            y1: 0x0143,
        }))
        .unwrap();
    assert!(exec(&mut cam, job).is_err());

    let job = cam.apply_default_registers();
    exec(&mut cam, job).unwrap();
    let region: Vec<(u16, u8)> = cam
        .bus()
        .writes()
        .into_iter()
        .filter(|(reg, _)| (0x2011..=0x2018).contains(reg))
        .collect();
    assert!(
        region.is_empty(),
        "failed set_motion_detection cached a region anyway: {region:?}"
    );
    assert_eq!(
        cam.bus().writes().last(),
        Some(&(0x2150, 0x00)),
        "motion should still be off"
    );
}

#[test]
fn motion_detection_can_be_switched_back_off() {
    let mut cam = driver();
    let job = cam.set_motion_detection(None).unwrap();
    exec(&mut cam, job).unwrap();
    assert_eq!(cam.bus().writes(), [(0x2150, 0x00)]);
}

#[test]
fn clearing_the_interrupt_writes_i2c_clear() {
    let mut cam = driver();
    let job = cam.clear_motion_interrupt();
    exec(&mut cam, job).unwrap();
    assert_eq!(cam.bus().writes(), [(0x2153, 0x01)]);
}
