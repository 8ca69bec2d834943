//! Clock-tree configuration for the STM32L4x6 family of microcontrollers.
//!
//! The crate models the reset-and-clock-control (RCC) and flash-latency
//! registers as plain data, so that the whole configuration pipeline --
//! oscillator selection, PLL arithmetic, bus-divider search, flash
//! wait-state derivation, and the frozen clock snapshot -- is verified.
//! Committing a finished configuration to the memory-mapped hardware
//! registers is left to a thin unverified layer that owns the peripherals.

pub mod clocking;
pub mod flash;
pub mod rcc;
pub mod time;
