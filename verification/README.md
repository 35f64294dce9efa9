# hm01b0

A driver for the Himax HM01B0 324×324 Bayer image sensor, whose control logic
is verified with Verus.

- `src/` is the verified library. It performs no I/O: every driver operation
  returns a `Job`, the exact register transfers it makes and the cached state
  it commits on success; bring-up is the `Reset` state machine. Contracts give
  the exact register sequence of every operation, the frame-timing model and
  its inverse, the Bayer pattern, and the bounded retry of bring-up.
- `app/` is the `embedded-hal` 1.0 front end: it owns the I2C bus, the delay
  and the trigger pin, runs jobs on them, and gives the error type `Display`.
- `tests/` runs jobs against a fake bus that records every transaction.
