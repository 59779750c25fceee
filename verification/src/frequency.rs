//! Definition of bus frequency details for f4 and the clock tree settings
//! that give them.

use vstd::prelude::*;

pub mod ahb;
pub mod apb1;
pub mod apb2;

verus! {

/// Frequency of the external oscillator that feeds the PLL.
pub const HSE_FREQUENCY: u32 = 8_000_000;

/// The PLL configuration register as it is after reset with every divider
/// field cleared: only the reserved bit that reads as one is left.
pub const PLLCFGR_RESERVED: u32 = 0x2000_0000;

/// The voltage scaling field that selects scale 1 mode, which system
/// frequencies up to 168 MHz need.
pub const VOLTAGE_SCALE_1: u8 = 3;

/// The prescaler field that divides the AHB clock by `divider`, for the
/// dividers the prescaler offers.
pub open spec fn spec_ahb_prescaler(divider: u16) -> Option<u8> {
    if divider == 1 {
        Some(0u8)
    } else if divider == 2 {
        Some(8u8)
    } else if divider == 4 {
        Some(9u8)
    } else if divider == 8 {
        Some(10u8)
    } else if divider == 16 {
        Some(11u8)
    } else if divider == 64 {
        Some(12u8)
    } else if divider == 128 {
        Some(13u8)
    } else if divider == 256 {
        Some(14u8)
    } else if divider == 512 {
        Some(15u8)
    } else {
        None
    }
}

/// The prescaler field that divides an APB clock by `divider`, for the
/// dividers the prescaler offers.
pub open spec fn spec_apb_prescaler(divider: u8) -> Option<u8> {
    if divider == 1 {
        Some(0u8)
    } else if divider == 2 {
        Some(4u8)
    } else if divider == 4 {
        Some(5u8)
    } else if divider == 8 {
        Some(6u8)
    } else if divider == 16 {
        Some(7u8)
    } else {
        None
    }
}

/// The prescaler field that divides the AHB clock by `divider`.
pub fn ahb_prescaler(divider: u16) -> (field: Option<u8>)
    ensures
        field == spec_ahb_prescaler(divider),
{
    match divider {
        1 => Some(0),
        2 => Some(8),
        4 => Some(9),
        8 => Some(10),
        16 => Some(11),
        64 => Some(12),
        128 => Some(13),
        256 => Some(14),
        512 => Some(15),
        _ => None,
    }
}

/// The prescaler field that divides an APB clock by `divider`.
pub fn apb_prescaler(divider: u8) -> (field: Option<u8>)
    ensures
        field == spec_apb_prescaler(divider),
{
    match divider {
        1 => Some(0),
        2 => Some(4),
        4 => Some(5),
        8 => Some(6),
        16 => Some(7),
        _ => None,
    }
}

/// Dividers and multiplier of the main PLL.
#[derive(Clone, Copy, Debug, PartialEq, Eq, Structural)]
pub struct Pll {
    /// Division factor of the PLL input clock.
    pub m: u8,
    /// Multiplication factor of the VCO.
    pub n: u16,
    /// Division factor of the main system clock.
    pub p: u8,
    /// Division factor of the 48 MHz clock.
    pub q: u8,
}

impl Pll {
    /// Every factor fits its register field, and every divider divides.
    pub open spec fn valid(&self) -> bool {
        &&& 1 <= self.m < 64
        &&& self.n < 512
        &&& (self.p == 2 || self.p == 4 || self.p == 6 || self.p == 8)
        &&& 1 <= self.q < 16
    }

    /// The system clock that the PLL derives from a source of `source` Hz.
    pub open spec fn spec_sysclk(&self, source: u32) -> int {
        ((source as int / self.m as int) * self.n as int) / self.p as int
    }

    /// The configuration register word for these factors with the external
    /// oscillator as the source.
    pub open spec fn spec_pllcfgr(&self) -> u32 {
        PLLCFGR_RESERVED | (self.m as u32) | ((self.n as u32) << 6) | ((((self.p >> 1) - 1) as u32)
            << 16) | 0x0040_0000u32 | ((self.q as u32) << 24)
    }

    /// Whether every factor fits its register field and every divider
    /// divides.
    pub fn is_valid(&self) -> (valid: bool)
        ensures
            valid == self.valid(),
    {
        1 <= self.m && self.m < 64 && self.n < 512 && (self.p == 2 || self.p == 4 || self.p == 6
            || self.p == 8) && 1 <= self.q && self.q < 16
    }

    /// The system clock that the PLL derives from a source of `source` Hz.
    pub fn sysclk(&self, source: u32) -> (hz: u64)
        requires
            self.valid(),
        ensures
            hz == self.spec_sysclk(source),
    {
        let input: u64 = source as u64 / self.m as u64;
        assert(input * self.n as u64 <= 0xffff_ffff * 512) by (nonlinear_arith)
            requires
                input <= 0xffff_ffff,
                self.n < 512,
        ;
        input * self.n as u64 / self.p as u64
    }

    /// The configuration register word for these factors with the external
    /// oscillator as the source.
    pub fn pllcfgr(&self) -> (word: u32)
        requires
            self.valid(),
        ensures
            word == self.spec_pllcfgr(),
    {
        let p = self.p;
        assert((p >> 1) >= 1) by (bit_vector)
            requires
                p == 2 || p == 4 || p == 6 || p == 8,
        ;
        PLLCFGR_RESERVED | (self.m as u32) | ((self.n as u32) << 6) | ((((self.p >> 1) - 1) as u32)
            << 16) | 0x0040_0000u32 | ((self.q as u32) << 24)
    }

    /// Each field of the register word reads back the factor it encodes, the
    /// source bit selects the external oscillator, and nothing else is set
    /// but the reserved bit.
    pub proof fn lemma_pllcfgr_fields(&self)
        requires
            self.valid(),
        ensures
            self.spec_pllcfgr() & 0x3f == self.m,
            (self.spec_pllcfgr() >> 6) & 0x1ff == self.n,
            ((self.spec_pllcfgr() >> 16) & 3) == self.p / 2 - 1,
            (self.spec_pllcfgr() >> 22) & 1 == 1,
            (self.spec_pllcfgr() >> 24) & 0xf == self.q,
            self.spec_pllcfgr() & !0x0f43_7fffu32 == PLLCFGR_RESERVED,
    {
        let m = self.m;
        let n = self.n;
        let p = self.p;
        let q = self.q;
        let w: u32 = 0x2000_0000u32 | (m as u32) | ((n as u32) << 6) | ((((p >> 1) - 1) as u32) << 16)
            | 0x0040_0000u32 | ((q as u32) << 24);
        assert(w & 0x3f == m && (w >> 6) & 0x1ff == n && ((w >> 16) & 3) == p / 2 - 1 && (w >> 22) & 1
            == 1 && (w >> 24) & 0xf == q && w & !0x0f43_7fffu32 == 0x2000_0000u32) by (bit_vector)
            requires
                w == 0x2000_0000u32 | (m as u32) | ((n as u32) << 6) | ((((p >> 1) - 1) as u32) << 16)
                    | 0x0040_0000u32 | ((q as u32) << 24),
                1 <= m < 64,
                n < 512,
                p == 2 || p == 4 || p == 6 || p == 8,
                1 <= q < 16,
        ;
    }
}

/// The settings of the clock tree: the PLL, the bus prescalers and the
/// flash wait states that the resulting speed needs.
#[derive(Clone, Copy, Debug, PartialEq, Eq, Structural)]
pub struct ClockSetup {
    /// The main PLL, fed by the external oscillator.
    pub pll: Pll,
    /// HCLK = SYSCLK / `ahb_divider`
    pub ahb_divider: u16,
    /// PCLK1 = HCLK / `apb1_divider`
    pub apb1_divider: u8,
    /// PCLK2 = HCLK / `apb2_divider`
    pub apb2_divider: u8,
    /// Wait states of the flash interface.
    pub flash_latency: u8,
}

impl ClockSetup {
    /// The frequency of the AHB under these settings.
    pub open spec fn hclk(&self) -> int {
        self.pll.spec_sysclk(HSE_FREQUENCY) / self.ahb_divider as int
    }

    /// The frequency of the APB1 under these settings.
    pub open spec fn pclk1(&self) -> int {
        self.hclk() / self.apb1_divider as int
    }

    /// The frequency of the APB2 under these settings.
    pub open spec fn pclk2(&self) -> int {
        self.hclk() / self.apb2_divider as int
    }
}

/// Initializes the system clocks for the given clock speeds: answers with
/// the settings under which the three buses run at the frequencies this
/// module declares. Writing them to the clock controller is the caller's
/// part.
pub fn init() -> (setup: ClockSetup)
    ensures
        setup == (ClockSetup {
            pll: Pll { m: 4, n: 168, p: 2, q: 7 },
            ahb_divider: 1,
            apb1_divider: 4,
            apb2_divider: 2,
            flash_latency: 5,
        }),
        setup.pll.valid(),
        spec_ahb_prescaler(setup.ahb_divider) is Some,
        spec_apb_prescaler(setup.apb1_divider) is Some,
        spec_apb_prescaler(setup.apb2_divider) is Some,
        setup.hclk() == ahb::FREQUENCY,
        setup.pclk1() == apb1::FREQUENCY,
        setup.pclk2() == apb2::FREQUENCY,
{
    ClockSetup {
        pll: Pll { m: 4, n: 168, p: 2, q: 7 },
        ahb_divider: 1,
        apb1_divider: 4,
        apb2_divider: 2,
        flash_latency: 5,
    }
}

} // verus!
