//! Register-level driver for the STM32G4 analog-to-digital converter, with the
//! configuration values of the audio digital filter.
//!
//! The driver never touches memory-mapped registers itself. It keeps an image of
//! the registers it programs, queues every register write in order, and takes the
//! status bits and the data register it needs as plain values. Whoever owns the
//! hardware (or a simulated register bank) writes out the queued writes, performs
//! the requested delay or status read, and hands the result back.
pub mod adc;
pub mod adf;
pub mod bits;
pub mod prescaler;
pub mod regs;
pub mod time;
