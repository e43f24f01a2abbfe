//! Choice of the converter clock divider.
use vstd::prelude::*;
use crate::time::Hertz;

verus! {

/// Highest clock frequency the converter may run at, in hertz.
pub const MAX_ADC_CLK_FREQ: u32 = 60_000_000;

/// The dividers that the common control register can select.
///
/// Only the first seven are ever chosen; the larger ones exist in hardware.
#[derive(Clone, Copy, Debug, PartialEq, Eq, Structural)]
pub enum Prescaler {
    NotDivided,
    DividedBy2,
    DividedBy4,
    DividedBy6,
    DividedBy8,
    DividedBy10,
    DividedBy12,
    DividedBy16,
    DividedBy32,
    DividedBy64,
    DividedBy128,
    DividedBy256,
}

/// The division factor of a prescaler.
pub open spec fn divisor_of(p: Prescaler) -> u32 {
    match p {
        Prescaler::NotDivided => 1,
        Prescaler::DividedBy2 => 2,
        Prescaler::DividedBy4 => 4,
        Prescaler::DividedBy6 => 6,
        Prescaler::DividedBy8 => 8,
        Prescaler::DividedBy10 => 10,
        Prescaler::DividedBy12 => 12,
        Prescaler::DividedBy16 => 16,
        Prescaler::DividedBy32 => 32,
        Prescaler::DividedBy64 => 64,
        Prescaler::DividedBy128 => 128,
        Prescaler::DividedBy256 => 256,
    }
}

/// The value of the PRESC field that selects a prescaler.
pub open spec fn presc_code(p: Prescaler) -> u32 {
    match p {
        Prescaler::NotDivided => 0,
        Prescaler::DividedBy2 => 1,
        Prescaler::DividedBy4 => 2,
        Prescaler::DividedBy6 => 3,
        Prescaler::DividedBy8 => 4,
        Prescaler::DividedBy10 => 5,
        Prescaler::DividedBy12 => 6,
        Prescaler::DividedBy16 => 7,
        Prescaler::DividedBy32 => 8,
        Prescaler::DividedBy64 => 9,
        Prescaler::DividedBy128 => 10,
        Prescaler::DividedBy256 => 11,
    }
}

/// The dividers this driver chooses from, smallest first.
pub open spec fn in_ladder(d: u32) -> bool {
    d == 1 || d == 2 || d == 4 || d == 6 || d == 8 || d == 10 || d == 12
}

/// How many whole times the kernel clock exceeds the ceiling.
pub open spec fn clock_ratio(frequency: u32) -> u32 {
    frequency / MAX_ADC_CLK_FREQ
}

/// A kernel clock that some divider of the ladder brings to the ceiling or below.
pub open spec fn supported_clock(frequency: u32) -> bool {
    clock_ratio(frequency) < 12
}

/// The prescaler chosen for a kernel clock: the smallest divider of the ladder
/// that exceeds the clock ratio.
pub open spec fn ladder_choice(frequency: u32) -> Prescaler {
    let ratio = clock_ratio(frequency);
    if ratio == 0 {
        Prescaler::NotDivided
    } else if ratio == 1 {
        Prescaler::DividedBy2
    } else if ratio <= 3 {
        Prescaler::DividedBy4
    } else if ratio <= 5 {
        Prescaler::DividedBy6
    } else if ratio <= 7 {
        Prescaler::DividedBy8
    } else if ratio <= 9 {
        Prescaler::DividedBy10
    } else {
        Prescaler::DividedBy12
    }
}

impl Prescaler {
    /// Picks the prescaler for a kernel clock, or `None` when no divider of the
    /// ladder is large enough.
    pub fn from_ker_ck(frequency: Hertz) -> (r: Option<Prescaler>)
        ensures
            r == (if supported_clock(frequency.0) {
                Some(ladder_choice(frequency.0))
            } else {
                None
            }),
            r matches Some(p) ==> {
                &&& in_ladder(divisor_of(p))
                &&& clock_ratio(frequency.0) < divisor_of(p)
                &&& frequency.0 / divisor_of(p) <= MAX_ADC_CLK_FREQ
            },
    {
        let raw_prescaler = frequency.0 / MAX_ADC_CLK_FREQ;
        let r = if raw_prescaler == 0 {
            Some(Prescaler::NotDivided)
        } else if raw_prescaler == 1 {
            Some(Prescaler::DividedBy2)
        } else if raw_prescaler <= 3 {
            Some(Prescaler::DividedBy4)
        } else if raw_prescaler <= 5 {
            Some(Prescaler::DividedBy6)
        } else if raw_prescaler <= 7 {
            Some(Prescaler::DividedBy8)
        } else if raw_prescaler <= 9 {
            Some(Prescaler::DividedBy10)
        } else if raw_prescaler <= 11 {
            Some(Prescaler::DividedBy12)
        } else {
            None
        };
        proof {
            if let Some(p) = r {
                lemma_divided_clock_within_ceiling(frequency.0, divisor_of(p));
            }
        }
        r
    }

    /// The division factor.
    pub fn divisor(&self) -> (r: u32)
        ensures
            r == divisor_of(*self),
    {
        match self {
            Prescaler::NotDivided => 1,
            Prescaler::DividedBy2 => 2,
            Prescaler::DividedBy4 => 4,
            Prescaler::DividedBy6 => 6,
            Prescaler::DividedBy8 => 8,
            Prescaler::DividedBy10 => 10,
            Prescaler::DividedBy12 => 12,
            Prescaler::DividedBy16 => 16,
            Prescaler::DividedBy32 => 32,
            Prescaler::DividedBy64 => 64,
            Prescaler::DividedBy128 => 128,
            Prescaler::DividedBy256 => 256,
        }
    }

    /// The PRESC field value that selects this prescaler.
    pub fn presc(&self) -> (r: u32)
        ensures
            r == presc_code(*self),
            r < 16,
    {
        match self {
            Prescaler::NotDivided => 0,
            Prescaler::DividedBy2 => 1,
            Prescaler::DividedBy4 => 2,
            Prescaler::DividedBy6 => 3,
            Prescaler::DividedBy8 => 4,
            Prescaler::DividedBy10 => 5,
            Prescaler::DividedBy12 => 6,
            Prescaler::DividedBy16 => 7,
            Prescaler::DividedBy32 => 8,
            Prescaler::DividedBy64 => 9,
            Prescaler::DividedBy128 => 10,
            Prescaler::DividedBy256 => 11,
        }
    }
}

/// A divider larger than the clock ratio brings the clock to the ceiling or below.
proof fn lemma_divided_clock_within_ceiling(f: u32, d: u32)
    requires
        d > 0,
        f / MAX_ADC_CLK_FREQ < d,
    ensures
        f / d <= MAX_ADC_CLK_FREQ,
{
    let c = MAX_ADC_CLK_FREQ as int;
    let fi = f as int;
    let di = d as int;
    let q = fi / c;
    assert(fi == c * q + fi % c) by (nonlinear_arith)
        requires
            c > 0,
            q == fi / c,
    ;
    assert(fi < c * di) by (nonlinear_arith)
        requires
            fi == c * q + fi % c,
            0 <= fi % c < c,
            q < di,
            c > 0,
    ;
    assert(fi / di <= c) by (nonlinear_arith)
        requires
            di > 0,
            fi >= 0,
            fi < c * di,
    ;
}

/// Off exact multiples of `c`, `f` is at most `c * k` exactly when its quotient is below `k`.
proof fn lemma_off_multiple(f: int, c: int, q: int, k: int)
    requires
        c > 0,
        k >= 1,
        f >= 0,
        q == f / c,
        f == 0 || f % c != 0,
    ensures
        f <= c * k <==> q < k,
{
    assert(f == c * q + f % c) by (nonlinear_arith)
        requires
            c > 0,
            q == f / c,
    ;
    if q < k {
        assert(c * q + c <= c * k) by (nonlinear_arith)
            requires
                c > 0,
                q + 1 <= k,
        ;
    } else {
        assert(c * k <= c * q) by (nonlinear_arith)
            requires
                c > 0,
                k <= q,
        ;
    }
}

/// The chosen divider is the smallest of the ladder under which the divided clock
/// stays within the ceiling, and a kernel clock is refused exactly when even the
/// largest divider of the ladder leaves it above the ceiling. This holds for every
/// kernel clock that is not a whole multiple of the ceiling; at an exact multiple
/// the chosen divider is the next one up.
pub proof fn lemma_smallest_sufficient_divisor(frequency: u32, d: u32)
    requires
        frequency == 0 || frequency % MAX_ADC_CLK_FREQ != 0,
    ensures
        supported_clock(frequency) <==> frequency <= MAX_ADC_CLK_FREQ * 12,
        supported_clock(frequency) ==> {
            let chosen = divisor_of(ladder_choice(frequency));
            &&& in_ladder(chosen)
            &&& frequency <= MAX_ADC_CLK_FREQ * chosen
            &&& (in_ladder(d) && frequency <= MAX_ADC_CLK_FREQ * d ==> chosen <= d)
        },
{
    let c = MAX_ADC_CLK_FREQ as int;
    let f = frequency as int;
    let q = f / c;
    assert(f == c * q + f % c) by (nonlinear_arith)
        requires
            c > 0,
            q == f / c,
    ;
    lemma_off_multiple(f, c, q, 12);
    if d >= 1 {
        lemma_off_multiple(f, c, q, d as int);
    }
    lemma_off_multiple(f, c, q, divisor_of(ladder_choice(frequency)) as int);
    assert(f <= c * 12 <==> q < 12);
    let chosen = divisor_of(ladder_choice(frequency)) as int;
    assert(f <= c * chosen <==> q < chosen);
}

} // verus!
