//! The target frequency plan for the clock tree and its validity rules.

use vstd::prelude::*;

verus! {

/// Least legal external-crystal frequency, in Hz.
pub const OSC_HZ_MIN: u32 = 4_000_000;

/// Greatest legal external-crystal frequency, in Hz.
pub const OSC_HZ_MAX: u32 = 26_000_000;

/// Least legal frequency at the PLL input, after the input divider, in Hz.
pub const PLL_IN_HZ_MIN: u32 = 1_000_000;

/// Greatest legal frequency at the PLL input, after the input divider, in Hz.
pub const PLL_IN_HZ_MAX: u32 = 2_000_000;

/// Least legal frequency of the PLL's internal oscillator (VCO), in Hz.
pub const VCO_HZ_MIN: u32 = 100_000_000;

/// Greatest legal frequency of the PLL's internal oscillator (VCO), in Hz.
pub const VCO_HZ_MAX: u32 = 432_000_000;

/// Greatest rated system-clock frequency, in Hz.
pub const SYSCLK_HZ_MAX: u32 = 168_000_000;

/// Greatest frequency the auxiliary output divider may produce, in Hz.
pub const AUX_HZ_MAX: u32 = 48_000_000;

/// Greatest rated frequency of the low-speed peripheral bus, in Hz.
pub const APB1_HZ_MAX: u32 = 42_000_000;

/// Greatest rated frequency of the high-speed peripheral bus, in Hz.
pub const APB2_HZ_MAX: u32 = 84_000_000;

/// Greatest programmable flash wait-state count.
pub const FLASH_WS_MAX: u32 = 7;

/// The flash can serve one wait-state step per this many Hz of system clock.
pub const FLASH_HZ_PER_WS: u32 = 30_000_000;

/// A fault of the clock bring-up sequence.
#[derive(Clone, Copy, PartialEq, Eq, Structural, Debug)]
pub enum ClockFault {
    /// The requested plan lies outside the documented legal ranges.
    InvalidPlan,
    /// The external oscillator never reported ready.
    OscillatorTimeout,
    /// The PLL never reported ready.
    PllTimeout,
    /// The post-switch read-back did not report the PLL as system clock.
    SwitchFailed,
}

/// The target configuration of the clock tree: oscillator frequency, PLL
/// divider chain, bus prescalers and flash wait states.
#[derive(Clone, Copy, PartialEq, Eq, Structural, Debug)]
pub struct ClockPlan {
    /// External crystal frequency, in Hz.
    pub osc_hz: u32,
    /// PLL input divider M.
    pub pll_m: u32,
    /// PLL multiplier N.
    pub pll_n: u32,
    /// PLL system-clock output divider P.
    pub pll_p: u32,
    /// PLL auxiliary output divider Q.
    pub pll_q: u32,
    /// AHB prescaler, as a divisor value.
    pub ahb_div: u32,
    /// Low-speed peripheral bus prescaler, as a divisor value.
    pub apb1_div: u32,
    /// High-speed peripheral bus prescaler, as a divisor value.
    pub apb2_div: u32,
    /// Flash wait-state count.
    pub flash_ws: u32,
}

impl ClockPlan {
    /// Frequency of the PLL's internal oscillator, in Hz.
    pub open spec fn vco_hz(self) -> int {
        self.osc_hz * self.pll_n / self.pll_m as int
    }

    /// Frequency of the system clock the plan produces, in Hz.
    pub open spec fn sysclk_hz(self) -> int {
        self.vco_hz() / self.pll_p as int
    }

    /// Frequency of the auxiliary output, in Hz.
    pub open spec fn aux_hz(self) -> int {
        self.vco_hz() / self.pll_q as int
    }

    /// Frequency of the AHB bus, in Hz.
    pub open spec fn ahb_hz(self) -> int {
        self.sysclk_hz() / self.ahb_div as int
    }

    /// The divider fields lie within their documented encodable ranges.
    pub open spec fn dividers_legal(self) -> bool {
        &&& OSC_HZ_MIN <= self.osc_hz <= OSC_HZ_MAX
        &&& 2 <= self.pll_m <= 63
        &&& 50 <= self.pll_n <= 432
        &&& (self.pll_p == 2 || self.pll_p == 4 || self.pll_p == 6 || self.pll_p == 8)
        &&& 2 <= self.pll_q <= 15
        &&& (self.ahb_div == 1 || self.ahb_div == 2 || self.ahb_div == 4 || self.ahb_div == 8
            || self.ahb_div == 16 || self.ahb_div == 64 || self.ahb_div == 128
            || self.ahb_div == 256 || self.ahb_div == 512)
        &&& (self.apb1_div == 1 || self.apb1_div == 2 || self.apb1_div == 4
            || self.apb1_div == 8 || self.apb1_div == 16)
        &&& (self.apb2_div == 1 || self.apb2_div == 2 || self.apb2_div == 4
            || self.apb2_div == 8 || self.apb2_div == 16)
        &&& self.flash_ws <= FLASH_WS_MAX
    }

    /// The frequencies the plan produces lie within their documented bounds.
    pub open spec fn frequencies_legal(self) -> bool {
        &&& PLL_IN_HZ_MIN <= self.osc_hz as int / self.pll_m as int <= PLL_IN_HZ_MAX
        &&& VCO_HZ_MIN <= self.vco_hz() <= VCO_HZ_MAX
        &&& self.sysclk_hz() <= SYSCLK_HZ_MAX
        &&& self.aux_hz() <= AUX_HZ_MAX
        &&& self.ahb_hz() / self.apb1_div as int <= APB1_HZ_MAX
        &&& self.ahb_hz() / self.apb2_div as int <= APB2_HZ_MAX
        &&& self.sysclk_hz() <= FLASH_HZ_PER_WS * (self.flash_ws + 1)
    }

    /// A plan is valid when every divider is encodable and every derived
    /// frequency lies within its documented bound.
    pub open spec fn valid(self) -> bool {
        self.dividers_legal() && self.frequencies_legal()
    }

    /// A plan the validator accepts yields frequencies within the
    /// documented bounds: the PLL's internal oscillator, the system clock,
    /// the auxiliary output and both peripheral buses.
    pub proof fn lemma_valid_frequencies(self)
        ensures
            self.valid() ==> {
                &&& VCO_HZ_MIN <= self.vco_hz() <= VCO_HZ_MAX
                &&& self.sysclk_hz() <= SYSCLK_HZ_MAX
                &&& self.aux_hz() <= AUX_HZ_MAX
                &&& self.ahb_hz() / self.apb1_div as int <= APB1_HZ_MAX
                &&& self.ahb_hz() / self.apb2_div as int <= APB2_HZ_MAX
            },
    {
    }

    /// Checks the plan against the documented legal ranges; accepts exactly
    /// the valid plans and rejects every other plan before any register is
    /// touched.
    pub fn validate(&self) -> (r: Result<(), ClockFault>)
        ensures
            r is Ok <==> self.valid(),
            r is Err ==> r == Result::<(), ClockFault>::Err(ClockFault::InvalidPlan),
    {
        if !(OSC_HZ_MIN <= self.osc_hz && self.osc_hz <= OSC_HZ_MAX) {
            return Err(ClockFault::InvalidPlan);
        }
        if !(2 <= self.pll_m && self.pll_m <= 63) {
            return Err(ClockFault::InvalidPlan);
        }
        if !(50 <= self.pll_n && self.pll_n <= 432) {
            return Err(ClockFault::InvalidPlan);
        }
        if !(self.pll_p == 2 || self.pll_p == 4 || self.pll_p == 6 || self.pll_p == 8) {
            return Err(ClockFault::InvalidPlan);
        }
        if !(2 <= self.pll_q && self.pll_q <= 15) {
            return Err(ClockFault::InvalidPlan);
        }
        if !(self.ahb_div == 1 || self.ahb_div == 2 || self.ahb_div == 4 || self.ahb_div == 8
            || self.ahb_div == 16 || self.ahb_div == 64 || self.ahb_div == 128
            || self.ahb_div == 256 || self.ahb_div == 512) {
            return Err(ClockFault::InvalidPlan);
        }
        if !(self.apb1_div == 1 || self.apb1_div == 2 || self.apb1_div == 4
            || self.apb1_div == 8 || self.apb1_div == 16) {
            return Err(ClockFault::InvalidPlan);
        }
        if !(self.apb2_div == 1 || self.apb2_div == 2 || self.apb2_div == 4
            || self.apb2_div == 8 || self.apb2_div == 16) {
            return Err(ClockFault::InvalidPlan);
        }
        if !(self.flash_ws <= FLASH_WS_MAX) {
            return Err(ClockFault::InvalidPlan);
        }
        let pll_in: u32 = self.osc_hz / self.pll_m;
        if !(PLL_IN_HZ_MIN <= pll_in && pll_in <= PLL_IN_HZ_MAX) {
            return Err(ClockFault::InvalidPlan);
        }
        assert((self.osc_hz as u64) * (self.pll_n as u64) <= 26_000_000u64 * 432u64)
            by (nonlinear_arith)
            requires
                self.osc_hz <= 26_000_000u64,
                self.pll_n <= 432u64,
        ;
        let vco64: u64 = (self.osc_hz as u64) * (self.pll_n as u64) / (self.pll_m as u64);
        assert(vco64 == self.vco_hz());
        if !((VCO_HZ_MIN as u64) <= vco64 && vco64 <= (VCO_HZ_MAX as u64)) {
            return Err(ClockFault::InvalidPlan);
        }
        let vco: u32 = vco64 as u32;
        let sysclk: u32 = vco / self.pll_p;
        assert(sysclk == self.sysclk_hz());
        if !(sysclk <= SYSCLK_HZ_MAX) {
            return Err(ClockFault::InvalidPlan);
        }
        let aux: u32 = vco / self.pll_q;
        if !(aux <= AUX_HZ_MAX) {
            return Err(ClockFault::InvalidPlan);
        }
        let ahb: u32 = sysclk / self.ahb_div;
        if !(ahb / self.apb1_div <= APB1_HZ_MAX) {
            return Err(ClockFault::InvalidPlan);
        }
        if !(ahb / self.apb2_div <= APB2_HZ_MAX) {
            return Err(ClockFault::InvalidPlan);
        }
        if !(sysclk <= FLASH_HZ_PER_WS * (self.flash_ws + 1)) {
            return Err(ClockFault::InvalidPlan);
        }
        Ok(())
    }
}

} // verus!
