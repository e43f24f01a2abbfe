//! The converter's register map: which registers the driver writes, where their
//! bits and fields lie, and the image of the values it has programmed.
use vstd::prelude::*;

verus! {

/// CR: converter enable.
pub const CR_ADEN: u32 = 0;
/// CR: start of a regular conversion.
pub const CR_ADSTART: u32 = 2;
/// CR: voltage regulator enable.
pub const CR_ADVREGEN: u32 = 28;
/// CR: deep-power-down.
pub const CR_DEEPPWD: u32 = 29;
/// CR: calibrate for differential inputs (set) or single-ended inputs (clear).
pub const CR_ADCALDIF: u32 = 30;
/// CR: calibration request, and calibration in progress while it reads as set.
pub const CR_ADCAL: u32 = 31;
/// Value of CR after reset: deep-power-down set.
pub const CR_RESET: u32 = 0x2000_0000;

/// ISR: converter ready.
pub const ISR_ADRDY: u32 = 0;
/// ISR: end of conversion.
pub const ISR_EOC: u32 = 2;
/// ISR: end of regular sequence.
pub const ISR_EOS: u32 = 3;

/// CFGR: resolution field.
pub const CFGR_RES_SHIFT: u32 = 3;
pub const CFGR_RES_MASK: u32 = 3;
/// CFGR: external trigger enable and polarity field.
pub const CFGR_EXTEN_SHIFT: u32 = 10;
pub const CFGR_EXTEN_MASK: u32 = 3;
/// CFGR: continuous conversion.
pub const CFGR_CONT: u32 = 13;
/// Value of CFGR after reset: injected queue disabled.
pub const CFGR_RESET: u32 = 0x8000_0000;

/// CFGR2: regular oversampling enable.
pub const CFGR2_ROVSE: u32 = 0;
/// CFGR2: oversampling ratio field.
pub const CFGR2_OVSR_SHIFT: u32 = 2;
pub const CFGR2_OVSR_MASK: u32 = 7;
/// CFGR2: oversampling shift field.
pub const CFGR2_OVSS_SHIFT: u32 = 5;
pub const CFGR2_OVSS_MASK: u32 = 15;
/// CFGR2: triggered regular oversampling.
pub const CFGR2_TROVS: u32 = 9;
/// CFGR2: regular oversampling mode (resumed when set, continued when clear).
pub const CFGR2_ROVSM: u32 = 10;

/// SMPR1 and SMPR2: width mask of one channel's sample-time field.
pub const SMP_MASK: u32 = 7;
/// Channels below this index have their sample time in SMPR1, the others in SMPR2.
pub const SMPR2_FIRST_CHANNEL: u8 = 10;

/// SQR1: regular sequence length field (number of entries minus one).
pub const SQR1_L_SHIFT: u32 = 0;
pub const SQR1_L_MASK: u32 = 15;
/// SQR1: first regular sequence entry.
pub const SQR1_SQ1_SHIFT: u32 = 6;
pub const SQR1_SQ1_MASK: u32 = 31;

/// CCR: clock prescaler field.
pub const CCR_PRESC_SHIFT: u32 = 18;
pub const CCR_PRESC_MASK: u32 = 15;
/// CCR: internal reference voltage enable.
pub const CCR_VREFEN: u32 = 22;
/// CCR: temperature sensor enable.
pub const CCR_VSENSESEL: u32 = 23;
/// CCR: battery voltage channel enable.
pub const CCR_VBATSEL: u32 = 24;

/// Number of channels of the converter.
pub const CHANNEL_COUNT: u8 = 19;

/// The registers the driver writes.
#[derive(Clone, Copy, Debug, PartialEq, Eq, Structural)]
pub enum Register {
    /// Control register.
    Cr,
    /// Interrupt and status register; a set bit written clears that flag.
    Isr,
    /// Configuration register.
    Cfgr,
    /// Second configuration register (oversampling).
    Cfgr2,
    /// Sample times of the low channels.
    Smpr1,
    /// Sample times of the high channels.
    Smpr2,
    /// Regular sequence register.
    Sqr1,
    /// Differential mode selection, one bit per channel.
    Difsel,
    /// Control register shared by the converters of one group.
    Ccr,
}

/// One write of a whole word into a register.
#[derive(Clone, Copy, Debug, PartialEq, Eq, Structural)]
pub struct RegisterWrite {
    pub register: Register,
    pub value: u32,
}

/// The values the driver has programmed into the registers it owns.
#[derive(Clone, Copy, Debug, PartialEq, Eq, Structural)]
pub struct RegisterImage {
    pub cr: u32,
    pub cfgr: u32,
    pub cfgr2: u32,
    pub smpr1: u32,
    pub smpr2: u32,
    pub sqr1: u32,
    pub difsel: u32,
    pub ccr: u32,
}

impl RegisterImage {
    /// The registers as they read after a reset of the peripheral.
    pub fn reset() -> (r: RegisterImage)
        ensures
            r == reset_image(),
    {
        RegisterImage {
            cr: CR_RESET,
            cfgr: CFGR_RESET,
            cfgr2: 0,
            smpr1: 0,
            smpr2: 0,
            sqr1: 0,
            difsel: 0,
            ccr: 0,
        }
    }
}

/// The registers as they read after a reset of the peripheral.
pub open spec fn reset_image() -> RegisterImage {
    RegisterImage {
        cr: CR_RESET,
        cfgr: CFGR_RESET,
        cfgr2: 0,
        smpr1: 0,
        smpr2: 0,
        sqr1: 0,
        difsel: 0,
        ccr: 0,
    }
}

/// A write of `value` into `register`.
pub open spec fn write_of(register: Register, value: u32) -> RegisterWrite {
    RegisterWrite { register, value }
}

} // verus!
