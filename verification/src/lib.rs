//! Verified core of an asynchronous serial-port adapter.
//!
//! The adapter bridges a blocking, OS-native serial-device handle into a
//! cooperatively scheduled, non-blocking I/O object: a caller opens a device
//! path and issues read/write/flush calls that suspend the calling task until
//! the underlying condition holds. The platform layer (outside this library)
//! performs the system calls and readiness waits; every decision it takes is
//! made here, with a proved contract: absorbing interrupted calls and
//! spurious wakes, classifying a zero-length read as the line closing,
//! keeping the two transfer directions independent, sequencing construction
//! and surfacing the right error for each failing step, composing the device
//! path, and choosing the device timeout parameters.

pub mod adapter;
pub mod channel;
pub mod errors;
pub mod posix;
pub mod transfer;
pub mod win32;
