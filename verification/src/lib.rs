//! Adaptive tuning core for a kernel-resident CPU scheduler.
//!
//! The in-kernel engine makes every dispatch decision; this crate is the
//! control layer that classifies load into regimes, estimates tail wakeup
//! latency, tightens and relaxes the shared tuning knobs, and learns
//! per-process tier classifications. All decision logic lives here, verified;
//! the binary around it only moves bytes between the engine and this crate.

pub mod adaptive;
pub mod arith;
pub mod bytes;
pub mod calibrate;
pub mod engine;
pub mod event;
pub mod kconfig;
pub mod monitor;
pub mod procdb;
pub mod reflex;
pub mod tuning;
