use stm32_adc::prescaler::{Prescaler, MAX_ADC_CLK_FREQ};
use stm32_adc::time::Hertz;

#[test]
fn prescaler_160_mhz_divides_by_four() {
    let p = Prescaler::from_ker_ck(Hertz::mhz(160)).unwrap();
    assert_eq!(p, Prescaler::DividedBy4);
    assert_eq!(p.divisor(), 4);
    assert_eq!(160_000_000 / p.divisor(), 40_000_000);
}

#[test]
fn prescaler_800_mhz_is_rejected() {
    assert_eq!(Prescaler::from_ker_ck(Hertz::mhz(800)), None);
}

#[test]
fn prescaler_below_ceiling_is_undivided() {
    assert_eq!(Prescaler::from_ker_ck(Hertz(0)), Some(Prescaler::NotDivided));
    assert_eq!(Prescaler::from_ker_ck(Hertz(59_999_999)), Some(Prescaler::NotDivided));
}

#[test]
fn prescaler_ladder_steps() {
    let cases: [(u32, Prescaler); 7] = [
        (100_000_000, Prescaler::DividedBy2),
        (200_000_000, Prescaler::DividedBy4),
        (300_000_000, Prescaler::DividedBy6),
        (450_000_000, Prescaler::DividedBy8),
        (500_000_000, Prescaler::DividedBy10),
        (650_000_000, Prescaler::DividedBy12),
        (719_999_999, Prescaler::DividedBy12),
    ];
    for (f, expected) in cases {
        let p = Prescaler::from_ker_ck(Hertz(f)).unwrap();
        assert_eq!(p, expected);
        assert!(f / p.divisor() <= MAX_ADC_CLK_FREQ);
        assert!(f > MAX_ADC_CLK_FREQ * (p.divisor() / 2));
    }
}

#[test]
fn prescaler_exact_multiple_takes_next_divider() {
    assert_eq!(Prescaler::from_ker_ck(Hertz::mhz(60)), Some(Prescaler::DividedBy2));
    assert_eq!(Prescaler::from_ker_ck(Hertz::mhz(720)), None);
}

#[test]
fn prescaler_field_codes() {
    assert_eq!(Prescaler::NotDivided.presc(), 0);
    assert_eq!(Prescaler::DividedBy6.presc(), 3);
    assert_eq!(Prescaler::DividedBy12.presc(), 6);
    assert_eq!(Prescaler::DividedBy256.presc(), 11);
    assert_eq!(Prescaler::DividedBy256.divisor(), 256);
}

#[test]
fn hertz_from_megahertz() {
    assert_eq!(Hertz::mhz(60), Hertz(60_000_000));
}
