//! The clock-tree bring-up sequencer: external oscillator, PLL, bus
//! prescalers, flash wait states and the final system-clock switch.
//!
//! The sequencer is a state machine. [`clock_step`] takes the current state
//! and the value last read back from a register and returns the next state
//! together with the operation to perform. [`clock_run`] drives the machine
//! from a recorded sequence of status read-backs, as a test harness does;
//! a hardware driver performs the same loop against the real registers.

use vstd::prelude::*;

use crate::plan::ClockFault;
use crate::plan::ClockPlan;
use crate::regs::hse_ready;
use crate::regs::pll_ready;
use crate::regs::sws_is_pll;
use crate::regs::RegId;
use crate::regs::RegWrite;
use crate::regs::FLASH_ACR_DCEN;
use crate::regs::FLASH_ACR_ICEN;
use crate::regs::FLASH_ACR_LATENCY_MASK;
use crate::regs::FLASH_ACR_PRFTEN;
use crate::regs::RCC_CFGR_HPRE_MASK;
use crate::regs::RCC_CFGR_PPRE1_MASK;
use crate::regs::RCC_CFGR_PPRE2_MASK;
use crate::regs::RCC_CFGR_SW_MASK;
use crate::regs::RCC_CFGR_SW_PLL;
use crate::regs::RCC_CR_CSSON;
use crate::regs::RCC_CR_HSEON;
use crate::regs::RCC_CR_HSERDY;
use crate::regs::RCC_CR_PLLON;
use crate::regs::RCC_CR_PLLRDY;
use crate::regs::RCC_PLLCFGR_PLLM_MASK;
use crate::regs::RCC_PLLCFGR_PLLN_MASK;
use crate::regs::RCC_PLLCFGR_PLLP_MASK;
use crate::regs::RCC_PLLCFGR_PLLQ_MASK;
use crate::regs::RCC_PLLCFGR_PLLSRC_HSE;

verus! {

/// Position of the clock sequencer in its bring-up sequence.
#[derive(Clone, Copy, PartialEq, Eq, Structural, Debug)]
pub enum ClockState {
    /// Request the external oscillator, after validating the plan.
    OscillatorEnable,
    /// Poll until the external oscillator reports ready.
    OscillatorWait,
    /// Program flash wait states, prefetch and caches.
    FlashConfig,
    /// Program the bus prescalers.
    BusPrescale,
    /// Program the PLL divider chain.
    PllConfig,
    /// Enable the PLL.
    PllEnable,
    /// Poll until the PLL reports ready.
    PllWait,
    /// Request the PLL as system clock.
    SwitchSysclk,
    /// Read back the active clock source and verify it is the PLL.
    VerifySwitch,
    /// The system clock runs from the PLL as planned.
    Ready,
    /// The sequence stopped on the carried fault.
    Failed(ClockFault),
}

/// The operation a clock-sequencer step asks its driver to perform.
#[derive(Clone, Copy, PartialEq, Eq, Structural, Debug)]
pub enum ClockAction {
    /// Perform this register read-modify-write, then step again with no
    /// read-back.
    Write(RegWrite),
    /// Read this register and step again with the value read.
    Poll(RegId),
    /// Step again with no read-back.
    Proceed,
    /// The sequence is complete; stop.
    Done,
    /// The sequence failed with this fault; stop.
    Fault(ClockFault),
}

/// The read-back shows the external oscillator ready.
pub open spec fn resp_hse_ready(resp: Option<u32>) -> bool {
    match resp {
        Some(v) => hse_ready(v),
        None => false,
    }
}

/// The read-back shows the PLL ready.
pub open spec fn resp_pll_ready(resp: Option<u32>) -> bool {
    match resp {
        Some(v) => pll_ready(v),
        None => false,
    }
}

/// The read-back reports the PLL as the active system clock.
pub open spec fn resp_sws_pll(resp: Option<u32>) -> bool {
    match resp {
        Some(v) => sws_is_pll(v),
        None => false,
    }
}

/// Field encoding of the AHB prescaler for a divisor value.
pub open spec fn hpre_bits(d: u32) -> u32 {
    if d == 1 {
        0
    } else if d == 2 {
        8
    } else if d == 4 {
        9
    } else if d == 8 {
        10
    } else if d == 16 {
        11
    } else if d == 64 {
        12
    } else if d == 128 {
        13
    } else if d == 256 {
        14
    } else {
        15
    }
}

/// Field encoding of a peripheral-bus prescaler for a divisor value.
pub open spec fn ppre_bits(d: u32) -> u32 {
    if d == 1 {
        0
    } else if d == 2 {
        4
    } else if d == 4 {
        5
    } else if d == 8 {
        6
    } else {
        7
    }
}

/// Field encoding of the PLL system-output divider for a divisor value.
pub open spec fn pllp_bits(p: u32) -> u32 {
    if p == 2 {
        0
    } else if p == 4 {
        1
    } else if p == 6 {
        2
    } else {
        3
    }
}

/// The write that requests the external oscillator and enables the
/// clock-security system.
pub open spec fn osc_enable_op() -> RegWrite {
    RegWrite {
        reg: RegId::RccCr,
        mask: RCC_CR_CSSON | RCC_CR_HSEON,
        value: RCC_CR_CSSON | RCC_CR_HSEON,
    }
}

/// The write that programs the flash wait states and enables prefetch and
/// both caches.
pub open spec fn flash_op(plan: ClockPlan) -> RegWrite {
    RegWrite {
        reg: RegId::FlashAcr,
        mask: FLASH_ACR_LATENCY_MASK | FLASH_ACR_PRFTEN | FLASH_ACR_ICEN | FLASH_ACR_DCEN,
        value: plan.flash_ws | FLASH_ACR_PRFTEN | FLASH_ACR_ICEN | FLASH_ACR_DCEN,
    }
}

/// The write that programs the three bus prescalers.
pub open spec fn prescale_op(plan: ClockPlan) -> RegWrite {
    RegWrite {
        reg: RegId::RccCfgr,
        mask: RCC_CFGR_HPRE_MASK | RCC_CFGR_PPRE1_MASK | RCC_CFGR_PPRE2_MASK,
        value: (hpre_bits(plan.ahb_div) << 4) | (ppre_bits(plan.apb1_div) << 10) | (
        ppre_bits(plan.apb2_div) << 13),
    }
}

/// The write that programs the PLL source and divider chain.
pub open spec fn pllcfg_op(plan: ClockPlan) -> RegWrite {
    RegWrite {
        reg: RegId::RccPllCfgr,
        mask: RCC_PLLCFGR_PLLM_MASK | RCC_PLLCFGR_PLLN_MASK | RCC_PLLCFGR_PLLP_MASK
            | RCC_PLLCFGR_PLLSRC_HSE | RCC_PLLCFGR_PLLQ_MASK,
        value: plan.pll_m | (plan.pll_n << 6) | (pllp_bits(plan.pll_p) << 16)
            | RCC_PLLCFGR_PLLSRC_HSE | (plan.pll_q << 24),
    }
}

/// The write that enables the PLL.
pub open spec fn pllon_op() -> RegWrite {
    RegWrite { reg: RegId::RccCr, mask: RCC_CR_PLLON, value: RCC_CR_PLLON }
}

/// The write that requests the PLL as system clock.
pub open spec fn switch_op() -> RegWrite {
    RegWrite { reg: RegId::RccCfgr, mask: RCC_CFGR_SW_MASK, value: RCC_CFGR_SW_PLL }
}

/// The complete sequence of register writes a successful clock bring-up
/// performs, in order.
pub open spec fn clock_ops_spec(plan: ClockPlan) -> Seq<RegWrite> {
    seq![
        osc_enable_op(),
        flash_op(plan),
        prescale_op(plan),
        pllcfg_op(plan),
        pllon_op(),
        switch_op(),
    ]
}

/// The transition relation of the clock sequencer: from a state and the
/// response to that state's previous request, the next state and the request
/// to perform.
pub open spec fn clock_step_spec(plan: ClockPlan, state: ClockState, resp: Option<u32>) -> (
    ClockState,
    ClockAction,
) {
    match state {
        ClockState::OscillatorEnable => if plan.valid() {
            (ClockState::OscillatorWait, ClockAction::Write(osc_enable_op()))
        } else {
            (
                ClockState::Failed(ClockFault::InvalidPlan),
                ClockAction::Fault(ClockFault::InvalidPlan),
            )
        },
        ClockState::OscillatorWait => if resp_hse_ready(resp) {
            (ClockState::FlashConfig, ClockAction::Proceed)
        } else {
            (ClockState::OscillatorWait, ClockAction::Poll(RegId::RccCr))
        },
        ClockState::FlashConfig => (ClockState::BusPrescale, ClockAction::Write(flash_op(plan))),
        ClockState::BusPrescale => (ClockState::PllConfig, ClockAction::Write(prescale_op(plan))),
        ClockState::PllConfig => (ClockState::PllEnable, ClockAction::Write(pllcfg_op(plan))),
        ClockState::PllEnable => (ClockState::PllWait, ClockAction::Write(pllon_op())),
        ClockState::PllWait => if resp_pll_ready(resp) {
            (ClockState::SwitchSysclk, ClockAction::Proceed)
        } else {
            (ClockState::PllWait, ClockAction::Poll(RegId::RccCr))
        },
        ClockState::SwitchSysclk => (ClockState::VerifySwitch, ClockAction::Write(switch_op())),
        ClockState::VerifySwitch => match resp {
            Some(v) => if sws_is_pll(v) {
                (ClockState::Ready, ClockAction::Done)
            } else {
                (
                    ClockState::Failed(ClockFault::SwitchFailed),
                    ClockAction::Fault(ClockFault::SwitchFailed),
                )
            },
            None => (ClockState::VerifySwitch, ClockAction::Poll(RegId::RccCfgr)),
        },
        ClockState::Ready => (ClockState::Ready, ClockAction::Done),
        ClockState::Failed(f) => (ClockState::Failed(f), ClockAction::Fault(f)),
    }
}

/// Encodes the AHB prescaler divisor into its register field value.
fn hpre_bits_of(d: u32) -> (r: u32)
    ensures
        r == hpre_bits(d),
{
    if d == 1 {
        0
    } else if d == 2 {
        8
    } else if d == 4 {
        9
    } else if d == 8 {
        10
    } else if d == 16 {
        11
    } else if d == 64 {
        12
    } else if d == 128 {
        13
    } else if d == 256 {
        14
    } else {
        15
    }
}

/// Encodes a peripheral-bus prescaler divisor into its register field value.
fn ppre_bits_of(d: u32) -> (r: u32)
    ensures
        r == ppre_bits(d),
{
    if d == 1 {
        0
    } else if d == 2 {
        4
    } else if d == 4 {
        5
    } else if d == 8 {
        6
    } else {
        7
    }
}

/// Encodes the PLL system-output divisor into its register field value.
fn pllp_bits_of(p: u32) -> (r: u32)
    ensures
        r == pllp_bits(p),
{
    if p == 2 {
        0
    } else if p == 4 {
        1
    } else if p == 6 {
        2
    } else {
        3
    }
}

/// Performs one step of the clock sequencer: from the current state and the
/// response to the previous request, the next state and the next request.
pub fn clock_step(plan: &ClockPlan, state: ClockState, resp: Option<u32>) -> (r: (
    ClockState,
    ClockAction,
))
    ensures
        r == clock_step_spec(*plan, state, resp),
{
    match state {
        ClockState::OscillatorEnable => {
            match plan.validate() {
                Ok(()) => (
                    ClockState::OscillatorWait,
                    ClockAction::Write(
                        RegWrite {
                            reg: RegId::RccCr,
                            mask: RCC_CR_CSSON | RCC_CR_HSEON,
                            value: RCC_CR_CSSON | RCC_CR_HSEON,
                        },
                    ),
                ),
                Err(f) => (ClockState::Failed(f), ClockAction::Fault(f)),
            }
        },
        ClockState::OscillatorWait => {
            match resp {
                Some(v) if v & crate::regs::RCC_CR_HSERDY != 0 => (
                    ClockState::FlashConfig,
                    ClockAction::Proceed,
                ),
                _ => (ClockState::OscillatorWait, ClockAction::Poll(RegId::RccCr)),
            }
        },
        ClockState::FlashConfig => (
            ClockState::BusPrescale,
            ClockAction::Write(
                RegWrite {
                    reg: RegId::FlashAcr,
                    mask: FLASH_ACR_LATENCY_MASK | FLASH_ACR_PRFTEN | FLASH_ACR_ICEN
                        | FLASH_ACR_DCEN,
                    value: plan.flash_ws | FLASH_ACR_PRFTEN | FLASH_ACR_ICEN | FLASH_ACR_DCEN,
                },
            ),
        ),
        ClockState::BusPrescale => (
            ClockState::PllConfig,
            ClockAction::Write(
                RegWrite {
                    reg: RegId::RccCfgr,
                    mask: RCC_CFGR_HPRE_MASK | RCC_CFGR_PPRE1_MASK | RCC_CFGR_PPRE2_MASK,
                    value: (hpre_bits_of(plan.ahb_div) << 4u32) | (ppre_bits_of(plan.apb1_div)
                        << 10u32) | (ppre_bits_of(plan.apb2_div) << 13u32),
                },
            ),
        ),
        ClockState::PllConfig => (
            ClockState::PllEnable,
            ClockAction::Write(
                RegWrite {
                    reg: RegId::RccPllCfgr,
                    mask: RCC_PLLCFGR_PLLM_MASK | RCC_PLLCFGR_PLLN_MASK | RCC_PLLCFGR_PLLP_MASK
                        | RCC_PLLCFGR_PLLSRC_HSE | RCC_PLLCFGR_PLLQ_MASK,
                    value: plan.pll_m | (plan.pll_n << 6u32) | (pllp_bits_of(plan.pll_p) << 16u32)
                        | RCC_PLLCFGR_PLLSRC_HSE | (plan.pll_q << 24u32),
                },
            ),
        ),
        ClockState::PllEnable => (
            ClockState::PllWait,
            ClockAction::Write(
                RegWrite { reg: RegId::RccCr, mask: RCC_CR_PLLON, value: RCC_CR_PLLON },
            ),
        ),
        ClockState::PllWait => {
            match resp {
                Some(v) if v & crate::regs::RCC_CR_PLLRDY != 0 => (
                    ClockState::SwitchSysclk,
                    ClockAction::Proceed,
                ),
                _ => (ClockState::PllWait, ClockAction::Poll(RegId::RccCr)),
            }
        },
        ClockState::SwitchSysclk => (
            ClockState::VerifySwitch,
            ClockAction::Write(
                RegWrite { reg: RegId::RccCfgr, mask: RCC_CFGR_SW_MASK, value: RCC_CFGR_SW_PLL },
            ),
        ),
        ClockState::VerifySwitch => {
            match resp {
                Some(v) => if v & crate::regs::RCC_CFGR_SWS_MASK == crate::regs::RCC_CFGR_SWS_PLL {
                    (ClockState::Ready, ClockAction::Done)
                } else {
                    (
                        ClockState::Failed(ClockFault::SwitchFailed),
                        ClockAction::Fault(ClockFault::SwitchFailed),
                    )
                },
                None => (ClockState::VerifySwitch, ClockAction::Poll(RegId::RccCfgr)),
            }
        },
        ClockState::Ready => (ClockState::Ready, ClockAction::Done),
        ClockState::Failed(f) => (ClockState::Failed(f), ClockAction::Fault(f)),
    }
}

/// How many more transitions the sequencer can take before it must either
/// consume a read-back or stop; orders the states along the sequence.
pub open spec fn clock_rank(state: ClockState) -> int {
    match state {
        ClockState::OscillatorEnable => 11,
        ClockState::OscillatorWait => 10,
        ClockState::FlashConfig => 9,
        ClockState::BusPrescale => 8,
        ClockState::PllConfig => 7,
        ClockState::PllEnable => 6,
        ClockState::PllWait => 5,
        ClockState::SwitchSysclk => 4,
        ClockState::VerifySwitch => 3,
        ClockState::Ready => 0,
        ClockState::Failed(_) => 0,
    }
}

/// Index of the first read-back at or past `from` with a bit of `mask`
/// set, or `-1` when no later read-back has one.
pub open spec fn scan_set(tr: Seq<u32>, from: int, mask: u32) -> int
    decreases tr.len() - from,
{
    if from < 0 || from >= tr.len() {
        -1
    } else if tr[from] & mask != 0 {
        from
    } else {
        scan_set(tr, from + 1, mask)
    }
}

/// Scanning may start after any stretch of read-backs without the bit.
proof fn lemma_scan_skip(tr: Seq<u32>, from: int, to: int, mask: u32)
    requires
        0 <= from <= to <= tr.len(),
        forall|k: int| from <= k < to ==> #[trigger] (tr[k] & mask) == 0,
    ensures
        scan_set(tr, from, mask) == scan_set(tr, to, mask),
    decreases to - from,
{
    if from < to {
        lemma_scan_skip(tr, from + 1, to, mask);
    }
}

/// Index of the read-back on which the oscillator first reported ready.
pub open spec fn osc_ready_at(tr: Seq<u32>) -> int {
    scan_set(tr, 0, RCC_CR_HSERDY)
}

/// Index of the read-back on which the PLL first reported ready, once the
/// oscillator had.
pub open spec fn pll_ready_at(tr: Seq<u32>) -> int {
    scan_set(tr, osc_ready_at(tr) + 1, RCC_CR_PLLRDY)
}

/// The outcome of driving the clock sequencer from recorded read-backs.
pub struct ClockRun {
    /// Success, or the fault that stopped the sequence.
    pub result: Result<(), ClockFault>,
    /// How many recorded clock-control status read-backs were consumed.
    pub status_reads: usize,
    /// The register writes the sequence performed, in order.
    pub ops: Vec<RegWrite>,
}

/// Drives the clock sequencer to completion against a recorded sequence of
/// clock-control status read-backs and a recorded clock-configuration
/// read-back, as a harness standing in for the hardware.
///
/// Status polls consume `cr_reads` in order; the post-switch verification
/// read returns `cfgr_read`. A poll past the end of `cr_reads` is a
/// stabilization timeout.
///
/// The outcome is a function of the plan and the recordings alone: an
/// invalid plan is rejected with nothing written; otherwise the sequence
/// succeeds exactly when the recordings show the oscillator ready, the PLL
/// ready after it, and the PLL as the active clock source, and each missing
/// piece names its own fault.
pub fn clock_run(plan: &ClockPlan, cr_reads: &Vec<u32>, cfgr_read: u32) -> (r: ClockRun)
    ensures
        r.status_reads <= cr_reads@.len(),
        !plan.valid() <==> r.result == Err::<(), ClockFault>(ClockFault::InvalidPlan),
        r.result == Err::<(), ClockFault>(ClockFault::InvalidPlan) ==> r.ops@.len() == 0
            && r.status_reads == 0,
        plan.valid() && osc_ready_at(cr_reads@) < 0 ==> r.result == Err::<(), ClockFault>(
            ClockFault::OscillatorTimeout,
        ) && r.status_reads == cr_reads@.len(),
        plan.valid() && osc_ready_at(cr_reads@) >= 0 && pll_ready_at(cr_reads@) < 0 ==> r.result
            == Err::<(), ClockFault>(ClockFault::PllTimeout) && r.status_reads
            == cr_reads@.len(),
        plan.valid() && osc_ready_at(cr_reads@) >= 0 && pll_ready_at(cr_reads@) >= 0
            && sws_is_pll(cfgr_read) ==> r.result is Ok && r.status_reads == pll_ready_at(
            cr_reads@,
        ) + 1,
        plan.valid() && osc_ready_at(cr_reads@) >= 0 && pll_ready_at(cr_reads@) >= 0
            && !sws_is_pll(cfgr_read) ==> r.result == Err::<(), ClockFault>(
            ClockFault::SwitchFailed,
        ) && r.status_reads == pll_ready_at(cr_reads@) + 1,
        r.result is Ok ==> plan.valid() && sws_is_pll(cfgr_read) && r.ops@ == clock_ops_spec(
            *plan,
        ),
{
    let mut state = ClockState::OscillatorEnable;
    let mut resp: Option<u32> = None;
    let mut idx: usize = 0;
    let mut ops: Vec<RegWrite> = Vec::new();
    loop
        invariant
            idx <= cr_reads@.len(),
            !(state is Ready),
            !(state is Failed),
            !(state is OscillatorEnable) ==> plan.valid(),
            state is OscillatorEnable ==> idx == 0 && ops@.len() == 0,
            state is OscillatorWait ==> ops@ =~= clock_ops_spec(*plan).subrange(0, 1),
            state is FlashConfig ==> ops@ =~= clock_ops_spec(*plan).subrange(0, 1),
            state is BusPrescale ==> ops@ =~= clock_ops_spec(*plan).subrange(0, 2),
            state is PllConfig ==> ops@ =~= clock_ops_spec(*plan).subrange(0, 3),
            state is PllEnable ==> ops@ =~= clock_ops_spec(*plan).subrange(0, 4),
            state is PllWait ==> ops@ =~= clock_ops_spec(*plan).subrange(0, 5),
            state is SwitchSysclk ==> ops@ =~= clock_ops_spec(*plan).subrange(0, 5),
            state is VerifySwitch ==> ops@ =~= clock_ops_spec(*plan),
            state is OscillatorWait ==> match resp {
                Some(v) => idx >= 1 && v == cr_reads@[idx - 1] && forall|k: int|
                    0 <= k < idx - 1 ==> #[trigger] (cr_reads@[k] & RCC_CR_HSERDY) == 0,
                None => idx == 0,
            },
            (state is FlashConfig || state is BusPrescale || state is PllConfig
                || state is PllEnable) ==> idx >= 1 && osc_ready_at(cr_reads@) == idx - 1,
            state is PllWait ==> osc_ready_at(cr_reads@) >= 0 && match resp {
                Some(v) => idx >= osc_ready_at(cr_reads@) + 2 && v == cr_reads@[idx - 1]
                    && forall|k: int|
                    osc_ready_at(cr_reads@) + 1 <= k < idx - 1 ==> #[trigger] (cr_reads@[k]
                        & RCC_CR_PLLRDY) == 0,
                None => idx == osc_ready_at(cr_reads@) + 1,
            },
            (state is SwitchSysclk || state is VerifySwitch) ==> idx >= 1 && osc_ready_at(
                cr_reads@,
            ) >= 0 && pll_ready_at(cr_reads@) == idx - 1,
            state is VerifySwitch ==> match resp {
                Some(v) => v == cfgr_read,
                None => true,
            },
        decreases cr_reads@.len() - idx, clock_rank(state), (if resp is None { 1int } else { 0int }),
    {
        let (next, act) = clock_step(plan, state, resp);
        proof {
            lemma_ready_requires_pll_readback(*plan, state, resp);
            if state is OscillatorWait && resp_hse_ready(resp) {
                lemma_scan_skip(cr_reads@, 0, idx - 1, RCC_CR_HSERDY);
            }
            if state is PllWait && resp_pll_ready(resp) {
                lemma_scan_skip(
                    cr_reads@,
                    osc_ready_at(cr_reads@) + 1,
                    idx - 1,
                    RCC_CR_PLLRDY,
                );
            }
        }
        state = next;
        match act {
            ClockAction::Write(w) => {
                ops.push(w);
                resp = None;
            },
            ClockAction::Poll(reg) => {
                match reg {
                    RegId::RccCfgr => {
                        resp = Some(cfgr_read);
                    },
                    _ => {
                        if idx < cr_reads.len() {
                            resp = Some(cr_reads[idx]);
                            idx = idx + 1;
                        } else {
                            proof {
                                if state is OscillatorWait {
                                    lemma_scan_skip(
                                        cr_reads@,
                                        0,
                                        cr_reads@.len() as int,
                                        RCC_CR_HSERDY,
                                    );
                                } else {
                                    lemma_scan_skip(
                                        cr_reads@,
                                        osc_ready_at(cr_reads@) + 1,
                                        cr_reads@.len() as int,
                                        RCC_CR_PLLRDY,
                                    );
                                }
                            }
                            let f = match state {
                                ClockState::PllWait => ClockFault::PllTimeout,
                                _ => ClockFault::OscillatorTimeout,
                            };
                            return ClockRun { result: Err(f), status_reads: idx, ops };
                        }
                    },
                }
            },
            ClockAction::Proceed => {
                resp = None;
            },
            ClockAction::Done => {
                return ClockRun { result: Ok(()), status_reads: idx, ops };
            },
            ClockAction::Fault(f) => {
                return ClockRun { result: Err(f), status_reads: idx, ops };
            },
        }
    }
}

/// The sequencer reports `Ready` only from the verification state, and only
/// on a read-back whose clock-source field reports the PLL.
pub proof fn lemma_ready_requires_pll_readback(
    plan: ClockPlan,
    state: ClockState,
    resp: Option<u32>,
)
    ensures
        (clock_step_spec(plan, state, resp).0 is Ready && !(state is Ready)) ==> (
        state is VerifySwitch && resp_sws_pll(resp)),
{
}

} // verus!
