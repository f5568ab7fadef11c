//! Core of a fixed-frequency emulation driver: a bounded call stack, a
//! periodic broadcast clock, and a countdown timer facility that share one
//! cadence discipline. The clock and timer facility are modelled as state
//! machines over plain values; a thin unverified shell owns the actual
//! background threads and channels and consults these state machines for
//! every decision.

pub mod clock;
pub mod cpu;
pub mod lifecycle;
pub mod stack;
pub mod timers;
