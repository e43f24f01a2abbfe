use stm32_adc::adc::{
    Action, Adc, AnyAdcChannel, Input, Phase, RegularOversamplingMode, Resolution, SampleTime,
    TriggeredOversampling, VrefInt,
};
use stm32_adc::bits::{test_bit, with_bit};
use stm32_adc::regs::{Register, RegisterWrite, CCR_VREFEN, CR_ADCAL, CR_ADEN, ISR_ADRDY, ISR_EOS};
use stm32_adc::time::Hertz;

/// A simulated register bank: applies the driver's writes and answers status reads.
struct Bank {
    cr: u32,
    isr: u32,
    difsel: u32,
    ccr: u32,
    log: Vec<RegisterWrite>,
    /// Reads of CR that still show calibration in progress.
    calibration_reads: u32,
    /// Reads of ISR that still show the converter not ready.
    ready_reads: u32,
}

impl Bank {
    fn new(calibration_reads: u32) -> Bank {
        Bank { cr: 0, isr: 0, difsel: 0xffff_ffff, ccr: 0, log: Vec::new(), calibration_reads, ready_reads: 2 }
    }

    fn flush(&mut self, adc: &mut Adc) {
        for w in adc.take_writes() {
            match w.register {
                Register::Cr => self.cr = w.value,
                Register::Isr => self.isr &= !w.value,
                Register::Difsel => self.difsel = w.value,
                Register::Ccr => self.ccr = w.value,
                _ => {}
            }
            self.log.push(w);
        }
    }

    fn read_cr(&mut self) -> u32 {
        if test_bit(self.cr, CR_ADCAL) {
            if self.calibration_reads == 0 {
                self.cr = with_bit(self.cr, CR_ADCAL, false);
            } else {
                self.calibration_reads -= 1;
            }
        }
        self.cr
    }

    fn read_isr(&mut self) -> u32 {
        if test_bit(self.cr, CR_ADEN) {
            if self.ready_reads == 0 {
                self.isr = with_bit(self.isr, ISR_ADRDY, true);
            } else {
                self.ready_reads -= 1;
            }
        }
        self.isr
    }
}

/// Runs the power-up sequence against the bank for at most `steps` transitions.
fn power_up(adc: &mut Adc, bank: &mut Bank, steps: usize) -> Vec<Action> {
    let mut actions = Vec::new();
    let mut input = Input::Proceed;
    for _ in 0..steps {
        let action = adc.advance(input);
        bank.flush(adc);
        actions.push(action);
        input = match action {
            Action::DelayUs(_) | Action::Continue => Input::Proceed,
            Action::ReadControl => Input::ControlRead(bank.read_cr()),
            Action::ReadStatus => Input::StatusRead(bank.read_isr()),
            Action::Finished | Action::OutOfOrder => break,
        };
    }
    actions
}

fn ready_adc() -> (Adc, Bank) {
    let mut adc = Adc::new(Hertz::mhz(160));
    let mut bank = Bank::new(3);
    power_up(&mut adc, &mut bank, 100);
    assert_eq!(adc.phase(), Phase::Configured);
    bank.log.clear();
    (adc, bank)
}

#[test]
fn new_programs_prescaler() {
    let mut adc = Adc::new(Hertz::mhz(160));
    assert_eq!(adc.phase(), Phase::Unpowered);
    let writes = adc.take_writes();
    assert_eq!(writes, vec![RegisterWrite { register: Register::Ccr, value: 2 << 18 }]);
    assert_eq!(adc.registers().cr, 0x2000_0000);
}

#[test]
fn power_up_reaches_configured() {
    let mut adc = Adc::new(Hertz::mhz(160));
    let mut bank = Bank::new(3);
    let actions = power_up(&mut adc, &mut bank, 100);
    assert_eq!(adc.phase(), Phase::Configured);
    assert!(adc.is_idle());
    assert_eq!(actions[0], Action::DelayUs(10));
    assert_eq!(*actions.last().unwrap(), Action::Finished);
    assert!(actions.contains(&Action::DelayUs(1)));
    // regulator on, out of deep power-down, calibration done, enabled
    assert_eq!(bank.cr, (1 << 28) | 1);
    assert_eq!(bank.difsel, 0);
    // single conversion, software trigger
    assert_eq!(adc.registers().cfgr & ((1 << 13) | (3 << 10)), 0);
}

#[test]
fn power_up_write_order() {
    let mut adc = Adc::new(Hertz::mhz(100));
    let mut bank = Bank::new(1);
    power_up(&mut adc, &mut bank, 100);
    let regs: Vec<Register> = bank.log.iter().map(|w| w.register).collect();
    assert_eq!(
        regs,
        vec![
            Register::Ccr,
            Register::Cr,
            Register::Difsel,
            Register::Cr,
            Register::Cr,
            Register::Isr,
            Register::Cr,
            Register::Isr,
            Register::Cfgr,
        ]
    );
    assert_eq!(bank.log[3].value, 1 << 28);
    assert_eq!(bank.log[4].value, (1 << 31) | (1 << 28));
    assert_eq!(bank.log[5].value, 1);
    assert_eq!(bank.log[6].value, (1 << 28) | 1);
}

#[test]
fn calibration_never_seen_busy_does_not_finish() {
    let mut adc = Adc::new(Hertz::mhz(160));
    for _ in 0..3 {
        adc.advance(Input::Proceed);
    }
    assert_eq!(adc.phase(), Phase::Calibrating);
    for _ in 0..5 {
        assert_eq!(adc.advance(Input::ControlRead(0)), Action::ReadControl);
    }
    assert_eq!(adc.phase(), Phase::Calibrating);
    assert_eq!(adc.advance(Input::ControlRead(1 << 31)), Action::ReadControl);
    assert_eq!(adc.advance(Input::ControlRead(0)), Action::DelayUs(1));
    assert_eq!(adc.phase(), Phase::Calibrated);
}

#[test]
fn out_of_order_input_changes_nothing() {
    let mut adc = Adc::new(Hertz::mhz(160));
    assert_eq!(adc.advance(Input::StatusRead(1)), Action::OutOfOrder);
    assert_eq!(adc.phase(), Phase::Unpowered);
    let (mut adc, _bank) = ready_adc();
    assert_eq!(adc.advance(Input::Proceed), Action::OutOfOrder);
    assert_eq!(adc.phase(), Phase::Configured);
}

#[test]
fn read_returns_data_cut_to_resolution() {
    let cases: [(Resolution, u16); 4] = [
        (Resolution::Bits12, 4095),
        (Resolution::Bits10, 1023),
        (Resolution::Bits8, 255),
        (Resolution::Bits6, 63),
    ];
    for (res, max) in cases {
        let (mut adc, _bank) = ready_adc();
        adc.set_resolution(res);
        adc.blocking_read(&AnyAdcChannel { index: 5 });
        assert_eq!(adc.convert(0, 0xffff), None);
        assert_eq!(adc.convert(1 << ISR_EOS, 0xffff), Some(max));
        adc.read_channel(5);
        assert_eq!(adc.convert(1 << ISR_EOS, 0x1234), Some(0x1234 & max));
    }
}

#[test]
fn repeated_reads_are_identical() {
    let (mut adc, _bank) = ready_adc();
    adc.set_sample_time(SampleTime::Cycles47_5);
    let ch = AnyAdcChannel { index: 12 };
    adc.blocking_read(&ch);
    let first = adc.convert(1 << ISR_EOS, 1000);
    let regs_first = adc.registers();
    adc.blocking_read(&ch);
    let second = adc.convert(1 << ISR_EOS, 1000);
    assert_eq!(first, Some(1000));
    assert_eq!(first, second);
    assert_eq!(regs_first, adc.registers());
}

#[test]
fn read_programs_sample_time_and_sequence() {
    let (mut adc, _bank) = ready_adc();
    adc.set_sample_time(SampleTime::Cycles640_5);
    adc.read_channel(3);
    let writes = adc.take_writes();
    assert_eq!(writes[0], RegisterWrite { register: Register::Smpr1, value: 7 << 9 });
    assert_eq!(writes[1], RegisterWrite { register: Register::Sqr1, value: 3 << 6 });
    assert_eq!(writes[2], RegisterWrite { register: Register::Isr, value: (1 << 3) | (1 << 2) });
    assert_eq!(writes[3].register, Register::Cr);
    assert_eq!(writes[3].value & 4, 4);
    adc.convert(1 << ISR_EOS, 0);
    adc.set_sample_time(SampleTime::Cycles12_5);
    adc.read_channel(12);
    let writes = adc.take_writes();
    assert_eq!(writes[0], RegisterWrite { register: Register::Smpr2, value: 2 << 6 });
}

#[test]
fn vrefint_enable_sets_shared_bit() {
    let (mut adc, mut bank) = ready_adc();
    assert!(!test_bit(adc.registers().ccr, CCR_VREFEN));
    let token: VrefInt = adc.enable_vrefint();
    bank.flush(&mut adc);
    assert!(test_bit(bank.ccr, CCR_VREFEN));
    assert_eq!(bank.log[0].register, Register::Ccr);
    adc.blocking_read(&token);
    assert_eq!(adc.take_writes()[1], RegisterWrite { register: Register::Sqr1, value: 18 << 6 });
}

#[test]
fn temperature_and_vbat_enable_bits() {
    let (mut adc, _bank) = ready_adc();
    adc.enable_temperature();
    assert!(test_bit(adc.registers().ccr, 23));
    adc.enable_vbat();
    assert!(test_bit(adc.registers().ccr, 24));
}

#[test]
fn differential_round_trip_restores_bits() {
    let (mut adc, mut bank) = ready_adc();
    let before = adc.registers().difsel;
    adc.set_differential_channel(7, true);
    assert_eq!(adc.registers().difsel, before | (1 << 7));
    adc.set_differential(&AnyAdcChannel { index: 7 }, false);
    assert_eq!(adc.registers().difsel, before);
    bank.flush(&mut adc);
    let regs: Vec<Register> = bank.log.iter().map(|w| w.register).collect();
    assert_eq!(regs, vec![Register::Cr, Register::Difsel, Register::Cr, Register::Cr, Register::Difsel, Register::Cr]);
    assert_eq!(bank.log[0].value & 1, 0);
    assert_eq!(bank.log[2].value & 1, 1);
    assert!(test_bit(adc.registers().cr, CR_ADEN));
}

#[test]
fn oversampling_fields() {
    let (mut adc, _bank) = ready_adc();
    adc.set_oversampling_ratio(3);
    adc.set_oversampling_shift(4);
    assert_eq!(adc.registers().cfgr2, (3 << 2) | (4 << 5));
    adc.enable_regular_oversampling_mode(
        RegularOversamplingMode::Resumed,
        TriggeredOversampling::TriggerForEachConversion,
        true,
    );
    assert_eq!(adc.registers().cfgr2, (3 << 2) | (4 << 5) | (1 << 9) | (1 << 10) | 1);
    adc.enable_regular_oversampling_mode(
        RegularOversamplingMode::Continued,
        TriggeredOversampling::Automatic,
        false,
    );
    assert_eq!(adc.registers().cfgr2, (3 << 2) | (4 << 5));
}

#[test]
fn internal_channels_readable_only_after_enable() {
    let (mut adc, _bank) = ready_adc();
    assert!(adc.can_read(5));
    assert!(!adc.can_read(18));
    assert!(!adc.can_read(16));
    assert!(!adc.can_read(17));
    assert!(!adc.can_read(19));
    adc.enable_vrefint();
    assert!(adc.can_read(18));
    assert!(!adc.can_read(16));
    adc.enable_temperature();
    adc.enable_vbat();
    assert!(adc.can_read(16));
    assert!(adc.can_read(17));
    adc.read_channel(16);
    assert!(!adc.can_read(5));
    assert_eq!(adc.convert(1 << ISR_EOS, 7), Some(7));
    assert!(adc.can_read(5));
}

#[test]
fn not_configured_handle_cannot_read() {
    let adc = Adc::new(Hertz::mhz(160));
    assert!(!adc.is_idle());
    assert!(!adc.can_read(5));
}
