use bringup::clock::clock_run;
use bringup::clock::clock_step;
use bringup::clock::ClockAction;
use bringup::clock::ClockState;
use bringup::eth::eth_run;
use bringup::eth::eth_step;
use bringup::eth::phy_identity_check;
use bringup::eth::rmii_pins;
use bringup::eth::EthAction;
use bringup::eth::EthBatch;
use bringup::eth::EthFault;
use bringup::eth::EthState;
use bringup::eth::PHY_CTRL_SOFT_RESET;
use bringup::plan::ClockFault;
use bringup::plan::ClockPlan;
use bringup::regs::Bank;
use bringup::regs::GpioReg;
use bringup::regs::RegId;
use bringup::regs::MACMIIAR_MB;
use bringup::regs::RCC_AHB1ENR_MAC_RUN;
use bringup::regs::RCC_CFGR_SWS_PLL;
use bringup::regs::RCC_CR_HSERDY;
use bringup::regs::RCC_CR_PLLRDY;

/// The board's plan: 8 MHz crystal to a 168 MHz system clock and a 48 MHz
/// auxiliary clock.
fn board_plan() -> ClockPlan {
    ClockPlan {
        osc_hz: 8_000_000,
        pll_m: 8,
        pll_n: 336,
        pll_p: 2,
        pll_q: 7,
        ahb_div: 1,
        apb1_div: 4,
        apb2_div: 2,
        flash_ws: 5,
    }
}

#[test]
fn board_plan_is_valid() {
    assert_eq!(board_plan().validate(), Ok(()));
}

#[test]
fn plan_rejects_divider_out_of_range() {
    let mut p = board_plan();
    p.pll_m = 1;
    assert_eq!(p.validate(), Err(ClockFault::InvalidPlan));
    let mut p = board_plan();
    p.pll_n = 433;
    assert_eq!(p.validate(), Err(ClockFault::InvalidPlan));
    let mut p = board_plan();
    p.pll_p = 3;
    assert_eq!(p.validate(), Err(ClockFault::InvalidPlan));
    let mut p = board_plan();
    p.pll_q = 16;
    assert_eq!(p.validate(), Err(ClockFault::InvalidPlan));
}

#[test]
fn plan_rejects_vco_out_of_range() {
    // 8 MHz / 8 * 50 = 50 MHz VCO, below the 100 MHz floor.
    let mut p = board_plan();
    p.pll_n = 50;
    assert_eq!(p.validate(), Err(ClockFault::InvalidPlan));
}

#[test]
fn plan_rejects_overclocked_sysclk() {
    // 8 / 4 * 336 / 2 = 336 MHz system clock, above the 168 MHz rating.
    let mut p = board_plan();
    p.pll_m = 4;
    assert_eq!(p.validate(), Err(ClockFault::InvalidPlan));
}

#[test]
fn plan_rejects_starved_flash() {
    // 168 MHz needs five wait states; four allows only up to 150 MHz.
    let mut p = board_plan();
    p.flash_ws = 4;
    assert_eq!(p.validate(), Err(ClockFault::InvalidPlan));
}

#[test]
fn plan_rejects_fast_apb1() {
    // 168 MHz / 2 = 84 MHz on the low-speed bus, above its 42 MHz rating.
    let mut p = board_plan();
    p.apb1_div = 2;
    assert_eq!(p.validate(), Err(ClockFault::InvalidPlan));
}

/// Oscillator ready on the third status poll, PLL ready on the fifth after
/// that, switch read-back reporting the PLL: the sequencer succeeds after
/// exactly eight status reads.
#[test]
fn clock_sequence_counts_eight_status_reads() {
    let cr_reads = vec![
        0,
        0,
        RCC_CR_HSERDY,
        0,
        0,
        0,
        0,
        RCC_CR_PLLRDY,
    ];
    let run = clock_run(&board_plan(), &cr_reads, RCC_CFGR_SWS_PLL);
    assert_eq!(run.result, Ok(()));
    assert_eq!(run.status_reads, 8);
    assert_eq!(run.ops.len(), 6);
}

#[test]
fn clock_sequence_writes_planned_registers() {
    let cr_reads = vec![RCC_CR_HSERDY, RCC_CR_PLLRDY];
    let run = clock_run(&board_plan(), &cr_reads, RCC_CFGR_SWS_PLL);
    assert_eq!(run.result, Ok(()));
    // Oscillator request first, then flash, prescalers, PLL configuration,
    // PLL enable, and the switch request last.
    assert_eq!(run.ops[0].reg, RegId::RccCr);
    assert_eq!(run.ops[0].value, 0x0009_0000);
    assert_eq!(run.ops[1].reg, RegId::FlashAcr);
    assert_eq!(run.ops[1].value, 0x0000_0705);
    assert_eq!(run.ops[2].reg, RegId::RccCfgr);
    assert_eq!(run.ops[2].value, 0x0000_9400);
    assert_eq!(run.ops[3].reg, RegId::RccPllCfgr);
    assert_eq!(run.ops[3].value, 0x0740_5408);
    assert_eq!(run.ops[4].reg, RegId::RccCr);
    assert_eq!(run.ops[4].value, 0x0100_0000);
    assert_eq!(run.ops[5].reg, RegId::RccCfgr);
    assert_eq!(run.ops[5].value, 0x0000_0002);
}

#[test]
fn clock_sequence_fails_on_wrong_switch_readback() {
    let cr_reads = vec![RCC_CR_HSERDY, RCC_CR_PLLRDY];
    let run = clock_run(&board_plan(), &cr_reads, 0);
    assert_eq!(run.result, Err(ClockFault::SwitchFailed));
}

#[test]
fn clock_sequence_times_out_on_dead_oscillator() {
    let cr_reads = vec![0, 0, 0, 0];
    let run = clock_run(&board_plan(), &cr_reads, RCC_CFGR_SWS_PLL);
    assert_eq!(run.result, Err(ClockFault::OscillatorTimeout));
    assert_eq!(run.status_reads, 4);
}

#[test]
fn clock_sequence_times_out_on_empty_recording() {
    let cr_reads = vec![];
    let run = clock_run(&board_plan(), &cr_reads, RCC_CFGR_SWS_PLL);
    assert_eq!(run.result, Err(ClockFault::OscillatorTimeout));
    assert_eq!(run.status_reads, 0);
    // The oscillator request was still written before the first poll.
    assert_eq!(run.ops.len(), 1);
    assert_eq!(run.ops[0].reg, RegId::RccCr);
}

#[test]
fn eth_sequence_times_out_on_empty_data_recording() {
    let busy_reads = vec![false; 8];
    let data = vec![];
    let run = eth_run(&busy_reads, &data);
    assert_eq!(run.result, Err(EthFault::SmiTimeout));
    assert_eq!(run.data_used, 0);
}

#[test]
fn clock_sequence_times_out_on_dead_pll() {
    let cr_reads = vec![RCC_CR_HSERDY, 0, 0];
    let run = clock_run(&board_plan(), &cr_reads, RCC_CFGR_SWS_PLL);
    assert_eq!(run.result, Err(ClockFault::PllTimeout));
}

#[test]
fn clock_sequence_rejects_invalid_plan_without_writes() {
    let mut p = board_plan();
    p.pll_n = 20;
    let cr_reads = vec![RCC_CR_HSERDY, RCC_CR_PLLRDY];
    let run = clock_run(&p, &cr_reads, RCC_CFGR_SWS_PLL);
    assert_eq!(run.result, Err(ClockFault::InvalidPlan));
    assert_eq!(run.ops.len(), 0);
    assert_eq!(run.status_reads, 0);
}

#[test]
fn phy_identity_is_a_function_of_the_two_words() {
    // The expected part: identifier 1 exactly, identifier 2 up to its
    // revision bits.
    assert!(phy_identity_check(0x0007, 0xC0F0));
    assert!(phy_identity_check(0x0007, 0xC0F4));
    assert!(phy_identity_check(0x0007, 0xC0FF));
    assert!(!phy_identity_check(0x0006, 0xC0F0));
    assert!(!phy_identity_check(0x0008, 0xC0F4));
    assert!(!phy_identity_check(0x0000, 0xC0F0));
    assert!(!phy_identity_check(0x0007, 0xC0E0));
    assert!(!phy_identity_check(0x0007, 0x0000));
}

/// Data read-backs for a handshake that sees the expected identity, one
/// diagnostic status value, `set_reads` control reads with the soft-reset
/// bit still set, and then one with it clear.
fn handshake_data(set_reads: usize) -> Vec<u16> {
    let mut data = vec![0x0007, 0xC0F4, 0x3100];
    for _ in 0..set_reads {
        data.push(PHY_CTRL_SOFT_RESET);
    }
    data.push(0x0000);
    data
}

#[test]
fn eth_sequence_returns_verified_identity() {
    let busy_reads = vec![false; 64];
    let run = eth_run(&busy_reads, &handshake_data(1));
    let pid = run.result.expect("handshake should succeed");
    assert_eq!(pid.id1, 0x0007);
    assert_eq!(pid.id2, 0xC0F4);
}

/// With a PHY that clears its soft-reset bit after exactly K control reads,
/// the reset-completion poll performs exactly K + 1 reads.
#[test]
fn eth_reset_poll_reads_exactly_k_plus_one() {
    for k in 0..4 {
        let busy_reads = vec![false; 64];
        let run = eth_run(&busy_reads, &handshake_data(k));
        assert!(run.result.is_ok());
        // Three reads precede the reset poll: the two identifiers and the
        // diagnostic status.
        assert_eq!(run.data_used - 3, k + 1);
    }
}

#[test]
fn eth_reset_poll_times_out_when_bit_never_clears() {
    let busy_reads = vec![false; 64];
    let mut data = vec![0x0007, 0xC0F4, 0x3100];
    for _ in 0..8 {
        data.push(PHY_CTRL_SOFT_RESET);
    }
    let run = eth_run(&busy_reads, &data);
    assert_eq!(run.result, Err(EthFault::ResetTimeout));
    assert_eq!(run.data_used, data.len());
}

#[test]
fn eth_sequence_fails_on_wrong_id1() {
    let busy_reads = vec![false; 64];
    let data = vec![0x1234];
    let run = eth_run(&busy_reads, &data);
    assert_eq!(run.result, Err(EthFault::UnexpectedPhyId));
}

#[test]
fn eth_sequence_fails_on_wrong_id2_model() {
    let busy_reads = vec![false; 64];
    let data = vec![0x0007, 0x1234];
    let run = eth_run(&busy_reads, &data);
    assert_eq!(run.result, Err(EthFault::UnexpectedPhyId));
}

#[test]
fn eth_sequence_times_out_on_stuck_interface() {
    let busy_reads = vec![true; 16];
    let data = vec![0x0007];
    let run = eth_run(&busy_reads, &data);
    assert_eq!(run.result, Err(EthFault::SmiTimeout));
    assert_eq!(run.busy_used, 16);
}

/// Every pin of the interface is configured before the MAC-enable write.
#[test]
fn eth_pins_configured_before_mac_enable() {
    let busy_reads = vec![false; 64];
    let run = eth_run(&busy_reads, &handshake_data(0));
    assert!(run.result.is_ok());
    let mac_enable = run
        .ops
        .iter()
        .position(|w| w.reg == RegId::RccAhb1Enr && w.value == RCC_AHB1ENR_MAC_RUN)
        .expect("MAC enable write present");
    for pin in rmii_pins() {
        let moder = run
            .ops
            .iter()
            .position(|w| {
                w.reg == RegId::Gpio(pin.bank, GpioReg::Moder) && w.mask == 3 << (2 * pin.pin)
            })
            .expect("pin mode write present");
        assert!(moder < mac_enable, "pin configured only after MAC enable");
    }
}

/// The two control-register writes reach the interface bit-for-bit: first
/// the autonegotiation override, then the soft-reset request.
#[test]
fn eth_control_write_values_preserved() {
    let busy_reads = vec![false; 64];
    let run = eth_run(&busy_reads, &handshake_data(0));
    assert!(run.result.is_ok());
    let data_writes: Vec<u32> = run
        .ops
        .iter()
        .filter(|w| w.reg == RegId::MacMiiData)
        .map(|w| w.value)
        .collect();
    assert_eq!(data_writes, vec![0x40E0, 0x8000]);
    // The management-clock setup write carries the 150-168 MHz range code
    // and does not raise the busy flag.
    let first_addr = run
        .ops
        .iter()
        .find(|w| w.reg == RegId::MacMiiAddr)
        .expect("management writes present");
    assert_eq!(first_addr.value, 0x10);
    assert_eq!(first_addr.value & MACMIIAR_MB, 0);
}

/// Transaction discipline against a mock interface: while the mock reports
/// busy, the machine never touches the management address register.
#[test]
fn eth_machine_never_issues_while_busy() {
    let mut state = EthState::PinSetup;
    let mut resp: Option<u32> = None;
    // The mock interface reports busy for three polls after every
    // transaction start, and delivers plausible data for every read.
    let mut busy_left = 0u32;
    let data = [0x0007u16, 0xC0F4, 0x3100, 0x8000, 0x0000];
    let mut next_data = 0usize;
    let mut last_addr_read_busy = None;
    for _ in 0..400 {
        let (next, act) = eth_step(state, resp);
        state = next;
        match act {
            EthAction::Batch(b) => {
                if !matches!(b, EthBatch::PhaseA) {
                    assert_eq!(
                        last_addr_read_busy,
                        Some(false),
                        "issued a transaction without seeing the interface free"
                    );
                }
                if matches!(b, EthBatch::IssueRead(_) | EthBatch::IssueWrite(..)) {
                    busy_left = 3;
                }
                resp = None;
                last_addr_read_busy = None;
            }
            EthAction::Poll(RegId::MacMiiAddr) => {
                let busy = busy_left > 0;
                if busy {
                    busy_left -= 1;
                }
                last_addr_read_busy = Some(busy);
                resp = Some(if busy { MACMIIAR_MB } else { 0 });
            }
            EthAction::Poll(_) => {
                let d = data[next_data.min(data.len() - 1)];
                next_data += 1;
                resp = Some(d as u32);
                last_addr_read_busy = None;
            }
            EthAction::Done(pid) => {
                assert!(phy_identity_check(pid.id1, pid.id2));
                return;
            }
            EthAction::Fault(f) => panic!("unexpected fault {:?}", f),
        }
    }
    panic!("machine did not finish");
}

/// The clock machine, stepped by hand, reaches `Ready` only through the
/// verification read.
#[test]
fn clock_machine_verifies_before_ready() {
    let plan = board_plan();
    let mut state = ClockState::OscillatorEnable;
    let mut resp: Option<u32> = None;
    let mut saw_verify = false;
    for _ in 0..64 {
        let (next, act) = clock_step(&plan, state, resp);
        if matches!(state, ClockState::VerifySwitch) && matches!(next, ClockState::Ready) {
            saw_verify = true;
        }
        state = next;
        match act {
            ClockAction::Write(_) => resp = None,
            ClockAction::Poll(RegId::RccCfgr) => resp = Some(RCC_CFGR_SWS_PLL),
            ClockAction::Poll(_) => resp = Some(RCC_CR_HSERDY | RCC_CR_PLLRDY),
            ClockAction::Proceed => resp = None,
            ClockAction::Done => {
                assert!(saw_verify, "Ready without the verification read");
                return;
            }
            ClockAction::Fault(f) => panic!("unexpected fault {:?}", f),
        }
    }
    panic!("machine did not finish");
}
