//! A verified model of two minimal character devices.
//!
//! The buffer device exposes a fixed-capacity byte buffer that all open
//! handles share; writes overwrite its front and reads are offset-addressed.
//! The signal device is a single-slot rendezvous: a write arms a flag and
//! wakes waiters, a read consumes the flag, blocking until it is armed.
//! A registry binds each device to a small minor number at load time.
//!
//! The library holds the lock-protected data logic and the wait-protocol
//! decisions; the surrounding process supplies the mutex, the condition
//! variable and the copies to and from the caller.

pub mod buffer;
pub mod errors;
pub mod registry;
pub mod signal;
