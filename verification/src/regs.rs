//! Identifiers and bit-level constants for the peripheral registers the
//! bring-up touches, and the register-write descriptor the state machines
//! emit.

use vstd::prelude::*;

verus! {

/// A GPIO bank used by the Ethernet pin multiplexing.
#[derive(Clone, Copy, PartialEq, Eq, Structural, Debug)]
pub enum Bank {
    A,
    B,
    C,
    D,
    E,
}

/// One of the per-bank GPIO configuration registers.
#[derive(Clone, Copy, PartialEq, Eq, Structural, Debug)]
pub enum GpioReg {
    Moder,
    Otyper,
    Ospeedr,
    Pupdr,
    Afrl,
    Afrh,
    Bsrr,
}

/// A peripheral register addressed by the bring-up sequences.
#[derive(Clone, Copy, PartialEq, Eq, Structural, Debug)]
pub enum RegId {
    RccCr,
    RccPllCfgr,
    RccCfgr,
    RccAhb1Enr,
    RccAhb1Rstr,
    FlashAcr,
    SyscfgPmc,
    Gpio(Bank, GpioReg),
    MacMiiAddr,
    MacMiiData,
}

/// One read-modify-write of a peripheral register: the bits under `mask` are
/// replaced by `value`; all other bits keep their current contents.
#[derive(Clone, Copy, PartialEq, Eq, Structural, Debug)]
pub struct RegWrite {
    pub reg: RegId,
    pub mask: u32,
    pub value: u32,
}

/// External-oscillator enable bit of the clock-control register.
pub const RCC_CR_HSEON: u32 = 0x0001_0000;

/// External-oscillator ready flag of the clock-control register.
pub const RCC_CR_HSERDY: u32 = 0x0002_0000;

/// Clock-security-system enable bit of the clock-control register.
pub const RCC_CR_CSSON: u32 = 0x0008_0000;

/// PLL enable bit of the clock-control register.
pub const RCC_CR_PLLON: u32 = 0x0100_0000;

/// PLL ready flag of the clock-control register.
pub const RCC_CR_PLLRDY: u32 = 0x0200_0000;

/// System-clock source request field of the clock-configuration register.
pub const RCC_CFGR_SW_MASK: u32 = 0x0000_0003;

/// Request encoding that selects the PLL as system clock.
pub const RCC_CFGR_SW_PLL: u32 = 0x0000_0002;

/// System-clock source read-back field of the clock-configuration register.
pub const RCC_CFGR_SWS_MASK: u32 = 0x0000_000C;

/// Read-back encoding that reports the PLL as the active system clock.
pub const RCC_CFGR_SWS_PLL: u32 = 0x0000_0008;

/// AHB prescaler field of the clock-configuration register.
pub const RCC_CFGR_HPRE_MASK: u32 = 0x0000_00F0;

/// Low-speed bus (APB1) prescaler field of the clock-configuration register.
pub const RCC_CFGR_PPRE1_MASK: u32 = 0x0000_1C00;

/// High-speed bus (APB2) prescaler field of the clock-configuration register.
pub const RCC_CFGR_PPRE2_MASK: u32 = 0x0000_E000;

/// PLL input-divider field of the PLL-configuration register.
pub const RCC_PLLCFGR_PLLM_MASK: u32 = 0x0000_003F;

/// PLL multiplier field of the PLL-configuration register.
pub const RCC_PLLCFGR_PLLN_MASK: u32 = 0x0000_7FC0;

/// PLL system-output-divider field of the PLL-configuration register.
pub const RCC_PLLCFGR_PLLP_MASK: u32 = 0x0003_0000;

/// PLL source-select bit; set selects the external oscillator.
pub const RCC_PLLCFGR_PLLSRC_HSE: u32 = 0x0040_0000;

/// PLL auxiliary-output-divider field of the PLL-configuration register.
pub const RCC_PLLCFGR_PLLQ_MASK: u32 = 0x0F00_0000;

/// Flash wait-state field of the flash access-control register.
pub const FLASH_ACR_LATENCY_MASK: u32 = 0x0000_0007;

/// Prefetch-enable bit of the flash access-control register.
pub const FLASH_ACR_PRFTEN: u32 = 0x0000_0100;

/// Instruction-cache-enable bit of the flash access-control register.
pub const FLASH_ACR_ICEN: u32 = 0x0000_0200;

/// Data-cache-enable bit of the flash access-control register.
pub const FLASH_ACR_DCEN: u32 = 0x0000_0400;

/// Clock-enable bits of the GPIO banks the Ethernet pins live in.
pub const RCC_AHB1ENR_GPIO_ABCE: u32 = 0x0000_0017;

/// Clock-enable bits of the MAC: core, transmit, receive and timestamping.
pub const RCC_AHB1ENR_MAC_ALL: u32 = 0x1E00_0000;

/// Clock-enable bits of the MAC held on while it runs: core, transmit,
/// receive.
pub const RCC_AHB1ENR_MAC_RUN: u32 = 0x0E00_0000;

/// Reset bit of the MAC in the bus-reset register.
pub const RCC_AHB1RSTR_ETHMACRST: u32 = 0x0200_0000;

/// Interface-mode select bit of the interconnect multiplexer; set selects
/// the reduced (RMII) interface.
pub const SYSCFG_PMC_MII_RMII_SEL: u32 = 0x0080_0000;

/// Busy flag of the station-management-interface address register.
pub const MACMIIAR_MB: u32 = 0x0000_0001;

/// Write-direction bit of the station-management-interface address register.
pub const MACMIIAR_MW: u32 = 0x0000_0002;

/// Clock-range field of the station-management-interface address register.
pub const MACMIIAR_CR_MASK: u32 = 0x0000_001C;

/// Clock-range encoding for a bus clock between 150 and 168 MHz.
pub const MACMIIAR_CR_150_168: u32 = 0x0000_0010;

/// PHY register-index field of the station-management-interface address
/// register.
pub const MACMIIAR_MR_MASK: u32 = 0x0000_07C0;

/// PHY address field of the station-management-interface address register.
pub const MACMIIAR_PA_MASK: u32 = 0x0000_F800;

/// Data field of the station-management-interface data register.
pub const MACMIIDR_TD_MASK: u32 = 0x0000_FFFF;

/// The station-management interface is busy when the busy flag of its
/// address-register read-back is set.
pub open spec fn smi_busy(v: u32) -> bool {
    v & MACMIIAR_MB != 0
}

/// The external oscillator is ready when its ready flag is set in a
/// clock-control read-back.
pub open spec fn hse_ready(v: u32) -> bool {
    v & RCC_CR_HSERDY != 0
}

/// The PLL is ready when its ready flag is set in a clock-control read-back.
pub open spec fn pll_ready(v: u32) -> bool {
    v & RCC_CR_PLLRDY != 0
}

/// A clock-configuration read-back reports the PLL as the active system
/// clock when its source field holds the PLL encoding.
pub open spec fn sws_is_pll(v: u32) -> bool {
    v & RCC_CFGR_SWS_MASK == RCC_CFGR_SWS_PLL
}

} // verus!
