//! The converter driver: power-up sequence, channel configuration and single
//! conversions, as decisions over a register image.
use vstd::prelude::*;
use crate::bits::{
    assign_bit, bit_is_set, clear_bit, field, lemma_clear_bit, lemma_put_field_idempotent, lemma_put_field_reads_back,
    lemma_set_bit, lemma_set_then_clear, put_field, set_bit, test_bit, with_bit, with_field,
};
use crate::prescaler::{ladder_choice, presc_code, supported_clock, Prescaler, MAX_ADC_CLK_FREQ};
use crate::regs::{
    reset_image, write_of, Register, RegisterImage, RegisterWrite, CCR_PRESC_MASK,
    CCR_PRESC_SHIFT, CCR_VBATSEL, CCR_VREFEN, CCR_VSENSESEL, CFGR2_OVSR_MASK, CFGR2_OVSR_SHIFT,
    CFGR2_OVSS_MASK, CFGR2_OVSS_SHIFT, CFGR2_ROVSE, CFGR2_ROVSM, CFGR2_TROVS, CFGR_CONT,
    CFGR_EXTEN_MASK, CFGR_EXTEN_SHIFT, CFGR_RES_MASK, CFGR_RES_SHIFT, CHANNEL_COUNT, CR_ADCAL,
    CR_ADCALDIF, CR_ADEN, CR_ADSTART, CR_ADVREGEN, CR_DEEPPWD, ISR_ADRDY, ISR_EOC, ISR_EOS,
    SMPR2_FIRST_CHANNEL, SMP_MASK, SQR1_L_MASK, SQR1_L_SHIFT, SQR1_SQ1_MASK, SQR1_SQ1_SHIFT,
};
use crate::time::Hertz;
use vstd::arithmetic::power2::{lemma2_to64, pow2};

verus! {

/// Default reference voltage used to turn samples into millivolts.
pub const VREF_DEFAULT_MV: u32 = 3300;
/// Reference voltage at which the factory calibration value was measured.
pub const VREF_CALIB_MV: u32 = 3300;

/// Channel of the internal reference voltage.
pub const VREF_CHANNEL: u8 = 18;
/// Channel of the temperature sensor.
pub const TEMP_CHANNEL: u8 = 16;
/// Channel of the battery voltage.
pub const VBAT_CHANNEL: u8 = 17;

/// Settle time after the regulator is switched on, in microseconds.
pub const REGULATOR_SETTLE_US: u32 = 10;
/// Settle time after calibration, in microseconds.
pub const CALIBRATION_SETTLE_US: u32 = 1;

/// Time a channel is sampled before conversion, in converter clock cycles.
#[derive(Clone, Copy, Debug, PartialEq, Eq, Structural)]
pub enum SampleTime {
    Cycles2_5,
    Cycles6_5,
    Cycles12_5,
    Cycles24_5,
    Cycles47_5,
    Cycles92_5,
    Cycles247_5,
    Cycles640_5,
}

/// The SMP field value of a sample time.
pub open spec fn sample_time_code(s: SampleTime) -> u32 {
    match s {
        SampleTime::Cycles2_5 => 0,
        SampleTime::Cycles6_5 => 1,
        SampleTime::Cycles12_5 => 2,
        SampleTime::Cycles24_5 => 3,
        SampleTime::Cycles47_5 => 4,
        SampleTime::Cycles92_5 => 5,
        SampleTime::Cycles247_5 => 6,
        SampleTime::Cycles640_5 => 7,
    }
}

impl SampleTime {
    /// The SMP field value.
    pub fn bits(&self) -> (r: u32)
        ensures
            r == sample_time_code(*self),
    {
        match self {
            SampleTime::Cycles2_5 => 0,
            SampleTime::Cycles6_5 => 1,
            SampleTime::Cycles12_5 => 2,
            SampleTime::Cycles24_5 => 3,
            SampleTime::Cycles47_5 => 4,
            SampleTime::Cycles92_5 => 5,
            SampleTime::Cycles247_5 => 6,
            SampleTime::Cycles640_5 => 7,
        }
    }
}

/// Width of a conversion result.
#[derive(Clone, Copy, Debug, PartialEq, Eq, Structural)]
pub enum Resolution {
    Bits12,
    Bits10,
    Bits8,
    Bits6,
}

/// The RES field value of a resolution.
pub open spec fn resolution_code(r: Resolution) -> u32 {
    match r {
        Resolution::Bits12 => 0,
        Resolution::Bits10 => 1,
        Resolution::Bits8 => 2,
        Resolution::Bits6 => 3,
    }
}

impl Resolution {
    /// The RES field value.
    pub fn bits(&self) -> (r: u32)
        ensures
            r == resolution_code(*self),
    {
        match self {
            Resolution::Bits12 => 0,
            Resolution::Bits10 => 1,
            Resolution::Bits8 => 2,
            Resolution::Bits6 => 3,
        }
    }
}

/// Number of result bits selected by a RES field value.
pub open spec fn resolution_width(code: u32) -> nat {
    if code == 0 {
        12
    } else if code == 1 {
        10
    } else if code == 2 {
        8
    } else {
        6
    }
}

/// Number of distinct results at the resolution selected by a RES field value.
pub open spec fn sample_modulus(code: u32) -> u32 {
    if code == 0 {
        4096
    } else if code == 1 {
        1024
    } else if code == 2 {
        256
    } else {
        64
    }
}

/// The resolution programmed in a CFGR word.
pub open spec fn resolution_field(cfgr: u32) -> u32 {
    field(cfgr, CFGR_RES_SHIFT, CFGR_RES_MASK)
}

/// The sample reported for a data register value under the resolution of `cfgr`:
/// its low bits, as many as the resolution has.
pub open spec fn sample_of(dr: u32, cfgr: u32) -> u16 {
    (dr % sample_modulus(resolution_field(cfgr))) as u16
}

/// Sampling mode of regular oversampling.
#[derive(Clone, Copy, Debug, PartialEq, Eq, Structural)]
pub enum RegularOversamplingMode {
    /// Accumulated samples are kept when a conversion is interrupted by an injected one.
    Continued,
    /// Accumulation restarts after an injected conversion.
    Resumed,
}

/// Trigger behaviour of regular oversampling.
#[derive(Clone, Copy, Debug, PartialEq, Eq, Structural)]
pub enum TriggeredOversampling {
    /// All oversampled conversions run after one trigger.
    Automatic,
    /// Each oversampled conversion needs its own trigger.
    TriggerForEachConversion,
}

/// Whether a channel may be converted with the internal-channel switches of `ccr`:
/// the reference, temperature and battery channels need their switch closed.
pub open spec fn channel_readable(ccr: u32, ch: u8) -> bool {
    &&& ch < CHANNEL_COUNT
    &&& (ch == VREF_CHANNEL ==> bit_is_set(ccr, CCR_VREFEN))
    &&& (ch == TEMP_CHANNEL ==> bit_is_set(ccr, CCR_VSENSESEL))
    &&& (ch == VBAT_CHANNEL ==> bit_is_set(ccr, CCR_VBATSEL))
}

/// A channel the converter can read.
pub trait AdcChannel {
    /// The channel's index.
    spec fn spec_channel(&self) -> u8;

    /// The channel's index.
    fn channel(&self) -> (r: u8)
        ensures
            r == self.spec_channel(),
    ;
}

/// Internal voltage reference channel.
pub struct VrefInt;

impl AdcChannel for VrefInt {
    open spec fn spec_channel(&self) -> u8 {
        VREF_CHANNEL
    }

    fn channel(&self) -> (r: u8) {
        VREF_CHANNEL
    }
}

/// Internal temperature channel.
pub struct Temperature;

impl AdcChannel for Temperature {
    open spec fn spec_channel(&self) -> u8 {
        TEMP_CHANNEL
    }

    fn channel(&self) -> (r: u8) {
        TEMP_CHANNEL
    }
}

/// Internal battery voltage channel.
pub struct Vbat;

impl AdcChannel for Vbat {
    open spec fn spec_channel(&self) -> u8 {
        VBAT_CHANNEL
    }

    fn channel(&self) -> (r: u8) {
        VBAT_CHANNEL
    }
}

/// A channel given by its index, such as one wired to an input pin.
#[derive(Clone, Copy, Debug, PartialEq, Eq, Structural)]
pub struct AnyAdcChannel {
    pub index: u8,
}

impl AdcChannel for AnyAdcChannel {
    open spec fn spec_channel(&self) -> u8 {
        self.index
    }

    fn channel(&self) -> (r: u8) {
        self.index
    }
}

/// Stages of the power-up sequence, in the order they are passed.
#[derive(Clone, Copy, Debug, PartialEq, Eq, Structural)]
pub enum Phase {
    Unpowered,
    PoweringUp,
    DefaultElectricalMode,
    Calibrating,
    Calibrated,
    Enabling,
    Enabled,
    Configured,
}

/// What the register owner reports back to the power-up sequence.
#[derive(Clone, Copy, Debug, PartialEq, Eq, Structural)]
pub enum Input {
    /// The previous action was carried out.
    Proceed,
    /// The control register read this value.
    ControlRead(u32),
    /// The interrupt and status register read this value.
    StatusRead(u32),
}

/// What the register owner does next, after writing out the queued register writes.
#[derive(Clone, Copy, Debug, PartialEq, Eq, Structural)]
pub enum Action {
    /// Wait this many microseconds, then report `Proceed`.
    DelayUs(u32),
    /// Report `Proceed` at once.
    Continue,
    /// Read the control register and report it.
    ReadControl,
    /// Read the interrupt and status register and report it.
    ReadStatus,
    /// The sequence is complete.
    Finished,
    /// The input does not fit the current stage; nothing was changed.
    OutOfOrder,
}

/// Whether a sequence of calibration-bit reads saw the bit set and, later, clear.
pub open spec fn set_then_clear(reads: Seq<bool>) -> bool {
    exists|i: int, j: int| 0 <= i < j < reads.len() && #[trigger] reads[i] && !#[trigger] reads[j]
}

/// Whether a sequence of calibration-bit reads saw the bit set.
pub open spec fn any_set(reads: Seq<bool>) -> bool {
    exists|i: int| 0 <= i < reads.len() && #[trigger] reads[i]
}

/// Stages reached only after calibration completed.
pub open spec fn past_calibration(p: Phase) -> bool {
    p == Phase::Calibrated || p == Phase::Enabling || p == Phase::Enabled || p
        == Phase::Configured
}

/// The abstract state of a driver handle.
pub struct AdcModel {
    /// Register values programmed so far.
    pub regs: RegisterImage,
    /// Register writes not yet handed out, oldest first.
    pub writes: Seq<RegisterWrite>,
    pub phase: Phase,
    /// Sample time applied to the channel of each conversion.
    pub sample_time: SampleTime,
    /// Channel of the conversion in flight.
    pub pending: Option<u8>,
    /// Whether a calibration read has shown the calibration bit set.
    pub busy_seen: bool,
    /// Every calibration-bit value read during calibration, in order.
    pub cal_reads: Seq<bool>,
}

/// The image after `register` is written with `value`.
pub open spec fn image_after(img: RegisterImage, register: Register, value: u32) -> RegisterImage {
    match register {
        Register::Cr => RegisterImage { cr: value, ..img },
        Register::Isr => img,
        Register::Cfgr => RegisterImage { cfgr: value, ..img },
        Register::Cfgr2 => RegisterImage { cfgr2: value, ..img },
        Register::Smpr1 => RegisterImage { smpr1: value, ..img },
        Register::Smpr2 => RegisterImage { smpr2: value, ..img },
        Register::Sqr1 => RegisterImage { sqr1: value, ..img },
        Register::Difsel => RegisterImage { difsel: value, ..img },
        Register::Ccr => RegisterImage { ccr: value, ..img },
    }
}

impl AdcModel {
    /// The state invariant.
    pub open spec fn wf(self) -> bool {
        &&& self.busy_seen == any_set(self.cal_reads)
        &&& (past_calibration(self.phase) ==> set_then_clear(self.cal_reads))
        &&& (self.pending is Some ==> self.phase == Phase::Configured && channel_readable(
            self.regs.ccr,
            self.pending->0,
        ))
    }

    /// The state after `register` is written with `value`.
    pub open spec fn programmed(self, register: Register, value: u32) -> AdcModel {
        AdcModel {
            regs: image_after(self.regs, register, value),
            writes: self.writes.push(write_of(register, value)),
            ..self
        }
    }

    /// The state in another phase.
    pub open spec fn in_phase(self, phase: Phase) -> AdcModel {
        AdcModel { phase, ..self }
    }

    /// Ready for channel configuration and conversions.
    pub open spec fn idle(self) -> bool {
        self.phase == Phase::Configured && self.pending is None
    }
}

/// CR after the power-up request: out of deep-power-down, regulator on.
pub open spec fn powered_cr(cr: u32) -> u32 {
    set_bit(clear_bit(cr, CR_DEEPPWD), CR_ADVREGEN)
}

/// CFGR of the steady state: single conversion mode, software trigger.
pub open spec fn configured_cfgr(cfgr: u32) -> u32 {
    put_field(clear_bit(cfgr, CFGR_CONT), CFGR_EXTEN_SHIFT, CFGR_EXTEN_MASK, 0)
}

/// One transition of the power-up sequence: the next state and the action to take.
pub open spec fn sequence_step(m: AdcModel, input: Input) -> (AdcModel, Action) {
    match (m.phase, input) {
        (Phase::Unpowered, Input::Proceed) => (
            m.programmed(Register::Cr, powered_cr(m.regs.cr)).in_phase(Phase::PoweringUp),
            Action::DelayUs(REGULATOR_SETTLE_US),
        ),
        (Phase::PoweringUp, Input::Proceed) => (
            m.programmed(Register::Difsel, 0).in_phase(Phase::DefaultElectricalMode),
            Action::Continue,
        ),
        (Phase::DefaultElectricalMode, Input::Proceed) => {
            let single_ended = clear_bit(m.regs.cr, CR_ADCALDIF);
            (
                m.programmed(Register::Cr, single_ended).programmed(
                    Register::Cr,
                    set_bit(single_ended, CR_ADCAL),
                ).in_phase(Phase::Calibrating),
                Action::ReadControl,
            )
        },
        (Phase::Calibrating, Input::ControlRead(cr)) => {
            let busy = bit_is_set(cr, CR_ADCAL);
            let recorded = AdcModel { cal_reads: m.cal_reads.push(busy), ..m };
            if busy {
                (AdcModel { busy_seen: true, ..recorded }, Action::ReadControl)
            } else if m.busy_seen {
                (
                    AdcModel {
                        regs: RegisterImage { cr: clear_bit(m.regs.cr, CR_ADCAL), ..m.regs },
                        phase: Phase::Calibrated,
                        ..recorded
                    },
                    Action::DelayUs(CALIBRATION_SETTLE_US),
                )
            } else {
                (recorded, Action::ReadControl)
            }
        },
        (Phase::Calibrated, Input::Proceed) => (
            m.programmed(Register::Isr, set_bit(0, ISR_ADRDY)).in_phase(Phase::Enabling),
            Action::Continue,
        ),
        (Phase::Enabling, Input::Proceed) => {
            if !bit_is_set(m.regs.cr, CR_ADEN) {
                (m.programmed(Register::Cr, set_bit(m.regs.cr, CR_ADEN)), Action::ReadStatus)
            } else {
                (m, Action::OutOfOrder)
            }
        },
        (Phase::Enabling, Input::StatusRead(isr)) => {
            if !bit_is_set(m.regs.cr, CR_ADEN) {
                (m, Action::OutOfOrder)
            } else if bit_is_set(isr, ISR_ADRDY) {
                (
                    m.programmed(Register::Isr, set_bit(0, ISR_ADRDY)).in_phase(Phase::Enabled),
                    Action::Continue,
                )
            } else {
                (m, Action::ReadStatus)
            }
        },
        (Phase::Enabled, Input::Proceed) => (
            m.programmed(Register::Cfgr, configured_cfgr(m.regs.cfgr)).in_phase(
                Phase::Configured,
            ),
            Action::Finished,
        ),
        _ => (m, Action::OutOfOrder),
    }
}

/// Exclusive handle of one converter.
pub struct Adc {
    regs: RegisterImage,
    writes: Vec<RegisterWrite>,
    phase: Phase,
    sample_time: SampleTime,
    pending: Option<u8>,
    busy_seen: bool,
    cal_reads: Ghost<Seq<bool>>,
}

impl View for Adc {
    type V = AdcModel;

    closed spec fn view(&self) -> AdcModel {
        AdcModel {
            regs: self.regs,
            writes: self.writes@,
            phase: self.phase,
            sample_time: self.sample_time,
            pending: self.pending,
            busy_seen: self.busy_seen,
            cal_reads: self.cal_reads@,
        }
    }
}

impl Adc {
    /// The state invariant.
    pub open spec fn wf(&self) -> bool {
        self@.wf()
    }

    /// Queues a write of `value` into `register` and records it in the image.
    fn program(&mut self, register: Register, value: u32)
        ensures
            final(self)@ == old(self)@.programmed(register, value),
    {
        match register {
            Register::Cr => self.regs.cr = value,
            Register::Isr => {},
            Register::Cfgr => self.regs.cfgr = value,
            Register::Cfgr2 => self.regs.cfgr2 = value,
            Register::Smpr1 => self.regs.smpr1 = value,
            Register::Smpr2 => self.regs.smpr2 = value,
            Register::Sqr1 => self.regs.sqr1 = value,
            Register::Difsel => self.regs.difsel = value,
            Register::Ccr => self.regs.ccr = value,
        }
        self.writes.push(RegisterWrite { register, value });
    }

    /// Creates the handle of a freshly reset converter whose kernel clock runs at
    /// `frequency`, and programs the clock prescaler. The power-up sequence is then
    /// run through `advance`.
    pub fn new(frequency: Hertz) -> (r: Adc)
        requires
            supported_clock(frequency.0),
        ensures
            r.wf(),
            r@ == (AdcModel {
                regs: RegisterImage { ccr: new_ccr(frequency.0), ..reset_image() },
                writes: seq![write_of(Register::Ccr, new_ccr(frequency.0))],
                phase: Phase::Unpowered,
                sample_time: SampleTime::Cycles2_5,
                pending: None,
                busy_seen: false,
                cal_reads: Seq::empty(),
            }),
    {
        let prescaler = match Prescaler::from_ker_ck(frequency) {
            Some(p) => p,
            None => Prescaler::NotDivided,
        };
        let mut s = Adc {
            regs: RegisterImage::reset(),
            writes: Vec::new(),
            phase: Phase::Unpowered,
            sample_time: SampleTime::Cycles2_5,
            pending: None,
            busy_seen: false,
            cal_reads: Ghost(Seq::empty()),
        };
        let ccr = with_field(s.regs.ccr, CCR_PRESC_SHIFT, CCR_PRESC_MASK, prescaler.presc());
        s.program(Register::Ccr, ccr);
        proof {
            assert(s@.writes =~= seq![write_of(Register::Ccr, new_ccr(frequency.0))]);
        }
        s
    }

    /// Runs one transition of the power-up sequence on what the register owner
    /// reports, and says what it does next.
    pub fn advance(&mut self, input: Input) -> (action: Action)
        requires
            old(self).wf(),
        ensures
            final(self).wf(),
            (final(self)@, action) == sequence_step(old(self)@, input),
    {
        match (self.phase, input) {
            (Phase::Unpowered, Input::Proceed) => {
                let cr = with_bit(with_bit(self.regs.cr, CR_DEEPPWD, false), CR_ADVREGEN, true);
                self.program(Register::Cr, cr);
                self.phase = Phase::PoweringUp;
                Action::DelayUs(REGULATOR_SETTLE_US)
            },
            (Phase::PoweringUp, Input::Proceed) => {
                self.program(Register::Difsel, 0);
                self.phase = Phase::DefaultElectricalMode;
                Action::Continue
            },
            (Phase::DefaultElectricalMode, Input::Proceed) => {
                let single_ended = with_bit(self.regs.cr, CR_ADCALDIF, false);
                self.program(Register::Cr, single_ended);
                self.program(Register::Cr, with_bit(single_ended, CR_ADCAL, true));
                self.phase = Phase::Calibrating;
                Action::ReadControl
            },
            (Phase::Calibrating, Input::ControlRead(cr)) => {
                let busy = test_bit(cr, CR_ADCAL);
                let ghost old_reads = self.cal_reads@;
                self.cal_reads = Ghost(self.cal_reads@.push(busy));
                proof {
                    lemma_push_keeps_reads(old_reads, busy);
                }
                if busy {
                    self.busy_seen = true;
                    proof {
                        assert(self.cal_reads@[old_reads.len() as int]);
                    }
                    Action::ReadControl
                } else if self.busy_seen {
                    proof {
                        let i = choose|i: int| 0 <= i < old_reads.len() && #[trigger] old_reads[i];
                        assert(self.cal_reads@[i]);
                        assert(!self.cal_reads@[old_reads.len() as int]);
                        assert(set_then_clear(self.cal_reads@));
                    }
                    self.regs.cr = with_bit(self.regs.cr, CR_ADCAL, false);
                    self.phase = Phase::Calibrated;
                    Action::DelayUs(CALIBRATION_SETTLE_US)
                } else {
                    Action::ReadControl
                }
            },
            (Phase::Calibrated, Input::Proceed) => {
                self.program(Register::Isr, with_bit(0, ISR_ADRDY, true));
                self.phase = Phase::Enabling;
                Action::Continue
            },
            (Phase::Enabling, Input::Proceed) => {
                if !test_bit(self.regs.cr, CR_ADEN) {
                    let cr = with_bit(self.regs.cr, CR_ADEN, true);
                    self.program(Register::Cr, cr);
                    Action::ReadStatus
                } else {
                    Action::OutOfOrder
                }
            },
            (Phase::Enabling, Input::StatusRead(isr)) => {
                if !test_bit(self.regs.cr, CR_ADEN) {
                    Action::OutOfOrder
                } else if test_bit(isr, ISR_ADRDY) {
                    self.program(Register::Isr, with_bit(0, ISR_ADRDY, true));
                    self.phase = Phase::Enabled;
                    Action::Continue
                } else {
                    Action::ReadStatus
                }
            },
            (Phase::Enabled, Input::Proceed) => {
                let cfgr = with_field(
                    with_bit(self.regs.cfgr, CFGR_CONT, false),
                    CFGR_EXTEN_SHIFT,
                    CFGR_EXTEN_MASK,
                    0,
                );
                self.program(Register::Cfgr, cfgr);
                self.phase = Phase::Configured;
                Action::Finished
            },
            _ => Action::OutOfOrder,
        }
    }
}

/// CCR of a new handle: the prescaler chosen for the kernel clock.
pub open spec fn new_ccr(frequency: u32) -> u32 {
    put_field(0, CCR_PRESC_SHIFT, CCR_PRESC_MASK, presc_code(ladder_choice(frequency)))
}

/// Appending a read keeps the earlier reads, and a set bit among them.
proof fn lemma_push_keeps_reads(s: Seq<bool>, b: bool)
    ensures
        forall|i: int| 0 <= i < s.len() ==> s.push(b)[i] == s[i],
        any_set(s.push(b)) == (b || any_set(s)),
        set_then_clear(s) ==> set_then_clear(s.push(b)),
{
    let t = s.push(b);
    if exists|i: int| 0 <= i < t.len() && #[trigger] t[i] {
        let i = choose|i: int| 0 <= i < t.len() && #[trigger] t[i];
        if i < s.len() {
            assert(s[i]);
        }
    }
    if exists|i: int| 0 <= i < s.len() && #[trigger] s[i] {
        let i = choose|i: int| 0 <= i < s.len() && #[trigger] s[i];
        assert(t[i]);
    }
    if b {
        assert(t[s.len() as int]);
    }
    if set_then_clear(s) {
        let (i, j) = choose|i: int, j: int|
            0 <= i < j < s.len() && #[trigger] s[i] && !#[trigger] s[j];
        assert(t[i] && !t[j]);
    }
}


/// Shift of a channel's sample-time field within its SMPR register.
pub open spec fn smp_shift(ch: u8) -> u32 {
    if ch < SMPR2_FIRST_CHANNEL {
        (3 * ch) as u32
    } else {
        (3 * (ch - SMPR2_FIRST_CHANNEL)) as u32
    }
}

/// The state after channel `ch` gets sample time `st`, in the SMPR register of its bank.
pub open spec fn sample_time_programmed(m: AdcModel, ch: u8, st: SampleTime) -> AdcModel {
    if ch < SMPR2_FIRST_CHANNEL {
        m.programmed(
            Register::Smpr1,
            put_field(m.regs.smpr1, smp_shift(ch), SMP_MASK, sample_time_code(st)),
        )
    } else {
        m.programmed(
            Register::Smpr2,
            put_field(m.regs.smpr2, smp_shift(ch), SMP_MASK, sample_time_code(st)),
        )
    }
}

/// SQR1 of a regular sequence of one entry, channel `ch`.
pub open spec fn single_entry_sequence(ch: u8) -> u32 {
    put_field(put_field(0, SQR1_SQ1_SHIFT, SQR1_SQ1_MASK, ch as u32), SQR1_L_SHIFT, SQR1_L_MASK, 0)
}

/// The flags cleared before a conversion: end of conversion and end of sequence.
pub open spec fn conversion_flags() -> u32 {
    set_bit(set_bit(0, ISR_EOS), ISR_EOC)
}

/// The state after a conversion of channel `ch` is set up and started.
pub open spec fn read_started(m: AdcModel, ch: u8) -> AdcModel {
    let m1 = sample_time_programmed(m, ch, m.sample_time);
    let m2 = m1.programmed(Register::Sqr1, single_entry_sequence(ch));
    let m3 = m2.programmed(Register::Isr, conversion_flags());
    let m4 = m3.programmed(Register::Cr, set_bit(m3.regs.cr, CR_ADSTART));
    AdcModel { pending: Some(ch), ..m4 }
}

/// The state and result after the status register read `isr` and the data
/// register read `dr` while a conversion is in flight.
pub open spec fn read_finished(m: AdcModel, isr: u32, dr: u32) -> (AdcModel, Option<u16>) {
    if bit_is_set(isr, ISR_EOS) {
        (
            AdcModel {
                regs: RegisterImage { cr: clear_bit(m.regs.cr, CR_ADSTART), ..m.regs },
                pending: None,
                ..m
            },
            Some(sample_of(dr, m.regs.cfgr)),
        )
    } else {
        (m, None)
    }
}

/// The state after the differential selection of channel `ch` is changed, with
/// the converter disabled around the change.
pub open spec fn differential_set(m: AdcModel, ch: u32, enable: bool) -> AdcModel {
    let off = clear_bit(m.regs.cr, CR_ADEN);
    m.programmed(Register::Cr, off).programmed(
        Register::Difsel,
        assign_bit(m.regs.difsel, ch, enable),
    ).programmed(Register::Cr, set_bit(off, CR_ADEN))
}

impl Adc {
    /// Selects differential (`enable`) or single-ended input for channel `ch`,
    /// disabling the converter around the change.
    ///
    /// In differential mode the negative input of `ch` is another channel's pin,
    /// which must then not be converted on its own; this is not checked.
    pub fn set_differential_channel(&mut self, ch: usize, enable: bool)
        requires
            old(self).wf(),
            old(self)@.idle(),
            ch < CHANNEL_COUNT,
        ensures
            final(self).wf(),
            final(self)@ == differential_set(old(self)@, ch as u32, enable),
    {
        let off = with_bit(self.regs.cr, CR_ADEN, false);
        self.program(Register::Cr, off);
        let difsel = with_bit(self.regs.difsel, ch as u32, enable);
        self.program(Register::Difsel, difsel);
        self.program(Register::Cr, with_bit(off, CR_ADEN, true));
    }

    /// Selects differential or single-ended input for a channel.
    pub fn set_differential<C: AdcChannel>(&mut self, channel: &C, enable: bool)
        requires
            old(self).wf(),
            old(self)@.idle(),
            channel.spec_channel() < CHANNEL_COUNT,
        ensures
            final(self).wf(),
            final(self)@ == differential_set(old(self)@, channel.spec_channel() as u32, enable),
    {
        self.set_differential_channel(channel.channel() as usize, enable);
    }

    /// Sets the oversampling right shift.
    pub fn set_oversampling_shift(&mut self, shift: u8)
        requires
            old(self).wf(),
            old(self)@.idle(),
        ensures
            final(self).wf(),
            final(self)@ == old(self)@.programmed(
                Register::Cfgr2,
                put_field(old(self)@.regs.cfgr2, CFGR2_OVSS_SHIFT, CFGR2_OVSS_MASK, shift as u32),
            ),
    {
        let v = with_field(self.regs.cfgr2, CFGR2_OVSS_SHIFT, CFGR2_OVSS_MASK, shift as u32);
        self.program(Register::Cfgr2, v);
    }

    /// Sets the oversampling ratio.
    pub fn set_oversampling_ratio(&mut self, ratio: u8)
        requires
            old(self).wf(),
            old(self)@.idle(),
        ensures
            final(self).wf(),
            final(self)@ == old(self)@.programmed(
                Register::Cfgr2,
                put_field(old(self)@.regs.cfgr2, CFGR2_OVSR_SHIFT, CFGR2_OVSR_MASK, ratio as u32),
            ),
    {
        let v = with_field(self.regs.cfgr2, CFGR2_OVSR_SHIFT, CFGR2_OVSR_MASK, ratio as u32);
        self.program(Register::Cfgr2, v);
    }

    /// Sets the trigger behaviour and the mode of regular oversampling, then
    /// switches regular oversampling on or off.
    pub fn enable_regular_oversampling_mode(
        &mut self,
        mode: RegularOversamplingMode,
        trig_mode: TriggeredOversampling,
        enable: bool,
    )
        requires
            old(self).wf(),
            old(self)@.idle(),
        ensures
            final(self).wf(),
            ({
                let w1 = assign_bit(
                    old(self)@.regs.cfgr2,
                    CFGR2_TROVS,
                    trig_mode == TriggeredOversampling::TriggerForEachConversion,
                );
                let w2 = assign_bit(w1, CFGR2_ROVSM, mode == RegularOversamplingMode::Resumed);
                let w3 = assign_bit(w2, CFGR2_ROVSE, enable);
                final(self)@ == old(self)@.programmed(Register::Cfgr2, w1).programmed(
                    Register::Cfgr2,
                    w2,
                ).programmed(Register::Cfgr2, w3)
            }),
    {
        let per_trigger = match trig_mode {
            TriggeredOversampling::Automatic => false,
            TriggeredOversampling::TriggerForEachConversion => true,
        };
        let w1 = with_bit(self.regs.cfgr2, CFGR2_TROVS, per_trigger);
        self.program(Register::Cfgr2, w1);
        let resumed = match mode {
            RegularOversamplingMode::Continued => false,
            RegularOversamplingMode::Resumed => true,
        };
        let w2 = with_bit(w1, CFGR2_ROVSM, resumed);
        self.program(Register::Cfgr2, w2);
        self.program(Register::Cfgr2, with_bit(w2, CFGR2_ROVSE, enable));
    }

    /// Sets the sample time used by the following conversions.
    pub fn set_sample_time(&mut self, sample_time: SampleTime)
        requires
            old(self).wf(),
            old(self)@.idle(),
        ensures
            final(self).wf(),
            final(self)@ == (AdcModel { sample_time, ..old(self)@ }),
    {
        self.sample_time = sample_time;
    }

    /// Sets the resolution of the following conversions.
    pub fn set_resolution(&mut self, resolution: Resolution)
        requires
            old(self).wf(),
            old(self)@.idle(),
        ensures
            final(self).wf(),
            final(self)@ == old(self)@.programmed(
                Register::Cfgr,
                put_field(
                    old(self)@.regs.cfgr,
                    CFGR_RES_SHIFT,
                    CFGR_RES_MASK,
                    resolution_code(resolution),
                ),
            ),
    {
        let v = with_field(self.regs.cfgr, CFGR_RES_SHIFT, CFGR_RES_MASK, resolution.bits());
        self.program(Register::Cfgr, v);
    }

    /// Closes the switch of the internal reference voltage channel.
    pub fn enable_vrefint(&mut self) -> (r: VrefInt)
        requires
            old(self).wf(),
            old(self)@.idle(),
        ensures
            final(self).wf(),
            final(self)@ == old(self)@.programmed(
                Register::Ccr,
                set_bit(old(self)@.regs.ccr, CCR_VREFEN),
            ),
    {
        let v = with_bit(self.regs.ccr, CCR_VREFEN, true);
        self.program(Register::Ccr, v);
        VrefInt
    }

    /// Closes the switch of the temperature sensor channel.
    pub fn enable_temperature(&mut self) -> (r: Temperature)
        requires
            old(self).wf(),
            old(self)@.idle(),
        ensures
            final(self).wf(),
            final(self)@ == old(self)@.programmed(
                Register::Ccr,
                set_bit(old(self)@.regs.ccr, CCR_VSENSESEL),
            ),
    {
        let v = with_bit(self.regs.ccr, CCR_VSENSESEL, true);
        self.program(Register::Ccr, v);
        Temperature
    }

    /// Closes the switch of the battery voltage channel.
    pub fn enable_vbat(&mut self) -> (r: Vbat)
        requires
            old(self).wf(),
            old(self)@.idle(),
        ensures
            final(self).wf(),
            final(self)@ == old(self)@.programmed(
                Register::Ccr,
                set_bit(old(self)@.regs.ccr, CCR_VBATSEL),
            ),
    {
        let v = with_bit(self.regs.ccr, CCR_VBATSEL, true);
        self.program(Register::Ccr, v);
        Vbat
    }

    /// Programs the sample time of channel `ch` in the register of its bank.
    fn set_channel_sample_time(&mut self, ch: u8, sample_time: SampleTime)
        requires
            ch < CHANNEL_COUNT,
        ensures
            final(self)@ == sample_time_programmed(old(self)@, ch, sample_time),
    {
        let code = sample_time.bits();
        if ch < SMPR2_FIRST_CHANNEL {
            let v = with_field(self.regs.smpr1, 3 * ch as u32, SMP_MASK, code);
            self.program(Register::Smpr1, v);
        } else {
            let v = with_field(
                self.regs.smpr2,
                3 * (ch - SMPR2_FIRST_CHANNEL) as u32,
                SMP_MASK,
                code,
            );
            self.program(Register::Smpr2, v);
        }
    }

    /// Sets up a conversion of channel `channel` as the single entry of the
    /// regular sequence, clears the end flags and starts it. The result comes
    /// from `convert`.
    pub fn read_channel(&mut self, channel: u8)
        requires
            old(self).wf(),
            old(self)@.idle(),
            channel_readable(old(self)@.regs.ccr, channel),
        ensures
            final(self).wf(),
            final(self)@ == read_started(old(self)@, channel),
    {
        let st = self.sample_time;
        self.set_channel_sample_time(channel, st);
        let sq = with_field(
            with_field(0, SQR1_SQ1_SHIFT, SQR1_SQ1_MASK, channel as u32),
            SQR1_L_SHIFT,
            SQR1_L_MASK,
            0,
        );
        self.program(Register::Sqr1, sq);
        self.program(Register::Isr, with_bit(with_bit(0, ISR_EOS, true), ISR_EOC, true));
        let cr = with_bit(self.regs.cr, CR_ADSTART, true);
        self.program(Register::Cr, cr);
        self.pending = Some(channel);
    }

    /// Starts a conversion of `channel`; the result comes from `convert`.
    pub fn blocking_read<C: AdcChannel>(&mut self, channel: &C)
        requires
            old(self).wf(),
            old(self)@.idle(),
            channel_readable(old(self)@.regs.ccr, channel.spec_channel()),
        ensures
            final(self).wf(),
            final(self)@ == read_started(old(self)@, channel.spec_channel()),
    {
        let ch = channel.channel();
        self.read_channel(ch);
    }

    /// Takes the status register read `isr` and the data register read `dr` of
    /// the conversion in flight. While the end of sequence is not flagged the
    /// conversion is still running and `None` comes back; once it is, the result
    /// is the data register cut to the configured resolution.
    pub fn convert(&mut self, isr: u32, dr: u32) -> (r: Option<u16>)
        requires
            old(self).wf(),
            old(self)@.pending is Some,
        ensures
            final(self).wf(),
            (final(self)@, r) == read_finished(old(self)@, isr, dr),
            r matches Some(v) ==> (v as nat) < pow2(
                resolution_width(resolution_field(old(self)@.regs.cfgr)),
            ),
    {
        if test_bit(isr, ISR_EOS) {
            let code = (self.regs.cfgr >> CFGR_RES_SHIFT) & CFGR_RES_MASK;
            let modulus: u32 = if code == 0 {
                4096
            } else if code == 1 {
                1024
            } else if code == 2 {
                256
            } else {
                64
            };
            let sample = (dr % modulus) as u16;
            self.regs.cr = with_bit(self.regs.cr, CR_ADSTART, false);
            self.pending = None;
            proof {
                lemma2_to64();
            }
            Some(sample)
        } else {
            None
        }
    }

    /// Hands out the queued register writes, oldest first, and empties the queue.
    pub fn take_writes(&mut self) -> (r: Vec<RegisterWrite>)
        requires
            old(self).wf(),
        ensures
            final(self).wf(),
            r@ == old(self)@.writes,
            final(self)@ == (AdcModel { writes: Seq::empty(), ..old(self)@ }),
    {
        let mut taken = Vec::new();
        std::mem::swap(&mut taken, &mut self.writes);
        taken
    }

    /// The stage of the power-up sequence.
    pub fn phase(&self) -> (r: Phase)
        ensures
            r == self@.phase,
    {
        self.phase
    }

    /// The register values programmed so far.
    pub fn registers(&self) -> (r: RegisterImage)
        ensures
            r == self@.regs,
    {
        self.regs
    }

    /// Whether a conversion of channel `ch` may be started now.
    pub fn can_read(&self, ch: u8) -> (r: bool)
        ensures
            r == (self@.idle() && channel_readable(self@.regs.ccr, ch)),
    {
        self.is_idle() && ch < CHANNEL_COUNT && (ch != VREF_CHANNEL || test_bit(
            self.regs.ccr,
            CCR_VREFEN,
        )) && (ch != TEMP_CHANNEL || test_bit(self.regs.ccr, CCR_VSENSESEL)) && (ch
            != VBAT_CHANNEL || test_bit(self.regs.ccr, CCR_VBATSEL))
    }

    /// Whether the handle accepts configuration and conversions.
    pub fn is_idle(&self) -> (r: bool)
        ensures
            r == self@.idle(),
    {
        matches!(self.phase, Phase::Configured) && self.pending.is_none()
    }
}


/// A handle in the configured stage has seen, while calibrating, the calibration
/// bit read as set and, at a later read, as clear.
pub proof fn lemma_configured_after_calibration(m: AdcModel)
    requires
        m.wf(),
        m.phase == Phase::Configured,
    ensures
        set_then_clear(m.cal_reads),
{
}

/// Two conversions of one channel in a row, with no configuration change between
/// them and the same data register value, give the same sample and leave the
/// same register image.
pub proof fn lemma_repeated_read(m: AdcModel, ch: u8, isr: u32, dr: u32)
    requires
        m.wf(),
        m.idle(),
        channel_readable(m.regs.ccr, ch),
        bit_is_set(isr, ISR_EOS),
    ensures
        ({
            let (m1, r1) = read_finished(read_started(m, ch), isr, dr);
            let (m2, r2) = read_finished(read_started(m1, ch), isr, dr);
            &&& r1 is Some
            &&& r2 == r1
            &&& m2.regs == m1.regs
            &&& m2.phase == m1.phase
            &&& m2.sample_time == m1.sample_time
            &&& m2.pending == m1.pending
        }),
{
    let (m1, r1) = read_finished(read_started(m, ch), isr, dr);
    let (m2, r2) = read_finished(read_started(m1, ch), isr, dr);
    let code = sample_time_code(m.sample_time);
    lemma_put_field_idempotent(m.regs.smpr1, smp_shift(ch), SMP_MASK, code);
    lemma_put_field_idempotent(m.regs.smpr2, smp_shift(ch), SMP_MASK, code);
    lemma_clear_bit(set_bit(m.regs.cr, CR_ADSTART), CR_ADSTART, CR_ADSTART);
    lemma_set_then_clear(m1.regs.cr, CR_ADSTART);
    assert(m2.regs == m1.regs);
}

/// Closing the reference-voltage switch sets its enable bit in the shared control
/// register, and that bit is what makes the reference channel readable: without it
/// the channel is not readable.
pub proof fn lemma_vrefint_enables_channel(m: AdcModel)
    ensures
        ({
            let ccr = m.programmed(Register::Ccr, set_bit(m.regs.ccr, CCR_VREFEN)).regs.ccr;
            &&& bit_is_set(ccr, CCR_VREFEN)
            &&& channel_readable(ccr, VREF_CHANNEL)
        }),
        !bit_is_set(m.regs.ccr, CCR_VREFEN) ==> !channel_readable(m.regs.ccr, VREF_CHANNEL),
{
    lemma_set_bit(m.regs.ccr, CCR_VREFEN, CCR_VREFEN);
}

/// Selecting differential input for a channel and then single-ended input again
/// leaves the channel single-ended and every other channel's selection as it was,
/// so a channel that was single-ended before gets the selection register back bit
/// for bit. The converter is enabled again at the end.
pub proof fn lemma_differential_round_trip(m: AdcModel, ch: u32)
    requires
        ch < CHANNEL_COUNT,
    ensures
        ({
            let m2 = differential_set(differential_set(m, ch, true), ch, false);
            &&& m2.regs.difsel == clear_bit(m.regs.difsel, ch)
            &&& (!bit_is_set(m.regs.difsel, ch) ==> m2.regs.difsel == m.regs.difsel)
            &&& bit_is_set(m2.regs.cr, CR_ADEN)
        }),
{
    let m1 = differential_set(m, ch, true);
    lemma_set_then_clear(m.regs.difsel, ch);
    lemma_set_bit(clear_bit(m1.regs.cr, CR_ADEN), CR_ADEN, CR_ADEN);
}


/// Programming a channel's sample time writes the register of the channel's bank,
/// SMPR1 below the threshold index and SMPR2 from it on, and the channel's field
/// there reads back the code of the sample time.
pub proof fn lemma_sample_time_reads_back(m: AdcModel, ch: u8, st: SampleTime)
    requires
        ch < CHANNEL_COUNT,
    ensures
        ({
            let m2 = sample_time_programmed(m, ch, st);
            let bank = if ch < SMPR2_FIRST_CHANNEL {
                m2.regs.smpr1
            } else {
                m2.regs.smpr2
            };
            &&& m2.writes.last().register == (if ch < SMPR2_FIRST_CHANNEL {
                Register::Smpr1
            } else {
                Register::Smpr2
            })
            &&& field(bank, smp_shift(ch), SMP_MASK) == sample_time_code(st)
        }),
{
    assert(7u32 == ((1u32 << 3u32) - 1) as u32) by (bit_vector);
    let code = sample_time_code(st);
    assert(code & SMP_MASK == code) by (bit_vector)
        requires
            code < 8,
    ;
    lemma_put_field_reads_back(m.regs.smpr1, smp_shift(ch), 3, code);
    lemma_put_field_reads_back(m.regs.smpr2, smp_shift(ch), 3, code);
}


/// Position of a stage in the power-up sequence.
pub open spec fn phase_index(p: Phase) -> nat {
    match p {
        Phase::Unpowered => 0,
        Phase::PoweringUp => 1,
        Phase::DefaultElectricalMode => 2,
        Phase::Calibrating => 3,
        Phase::Calibrated => 4,
        Phase::Enabling => 5,
        Phase::Enabled => 6,
        Phase::Configured => 7,
    }
}

/// One transition of the power-up sequence stays in its stage or moves to the
/// next one: no stage is skipped, and none is left backwards.
pub proof fn lemma_no_stage_skipped(m: AdcModel, input: Input)
    ensures
        ({
            let next = sequence_step(m, input).0.phase;
            next == m.phase || phase_index(next) == phase_index(m.phase) + 1
        }),
{
}

} // verus!
