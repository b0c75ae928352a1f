//! Ethernet MAC and PHY bring-up: bank clocks, pin multiplexing, MAC reset,
//! and the PHY handshake over the station-management interface (SMI).
//!
//! Like the clock sequencer, the bring-up is a state machine: [`eth_step`]
//! maps the current state and the last register read-back to the next state
//! and the operation to perform, and [`eth_run`] drives the machine from
//! recorded read-backs as a harness standing in for the hardware.

use vstd::prelude::*;

use crate::regs::smi_busy;
use crate::regs::Bank;
use crate::regs::GpioReg;
use crate::regs::RegId;
use crate::regs::RegWrite;
use crate::regs::MACMIIAR_CR_150_168;
use crate::regs::MACMIIAR_CR_MASK;
use crate::regs::MACMIIAR_MB;
use crate::regs::MACMIIAR_MR_MASK;
use crate::regs::MACMIIAR_MW;
use crate::regs::MACMIIAR_PA_MASK;
use crate::regs::MACMIIDR_TD_MASK;
use crate::regs::RCC_AHB1ENR_GPIO_ABCE;
use crate::regs::RCC_AHB1ENR_MAC_ALL;
use crate::regs::RCC_AHB1ENR_MAC_RUN;
use crate::regs::RCC_AHB1RSTR_ETHMACRST;
use crate::regs::SYSCFG_PMC_MII_RMII_SEL;

verus! {

/// A fault of the Ethernet bring-up sequence.
#[derive(Clone, Copy, PartialEq, Eq, Structural, Debug)]
pub enum EthFault {
    /// A PHY identifier register read back an unexpected value.
    UnexpectedPhyId,
    /// The PHY soft-reset bit never read back clear.
    ResetTimeout,
    /// The station-management interface never reported free.
    SmiTimeout,
}

/// The two identifier words read back from the PHY.
#[derive(Clone, Copy, PartialEq, Eq, Structural, Debug)]
pub struct PhyIdentity {
    /// Organizationally-unique-identifier word (identifier register 1).
    pub id1: u16,
    /// Model and revision word (identifier register 2).
    pub id2: u16,
}

/// SMI address of the PHY, wired on the board.
pub const PHY_ADDR: u32 = 0;

/// Index of the PHY basic control register.
pub const PHY_REG_CTRL: u32 = 0;

/// Index of PHY identifier register 1.
pub const PHY_REG_ID1: u32 = 2;

/// Index of PHY identifier register 2.
pub const PHY_REG_ID2: u32 = 3;

/// Expected value of PHY identifier register 1 for the board's PHY part.
pub const PHY_ID1_EXPECTED: u16 = 0x0007;

/// Bits of identifier register 2 that carry the model; the rest is a
/// revision number and is not checked.
pub const PHY_ID2_MODEL_MASK: u16 = 0xFFF0;

/// Expected model bits of PHY identifier register 2.
pub const PHY_ID2_MODEL_EXPECTED: u16 = 0xC0F0;

/// Control-register value that overrides the strap-derived mode: enable
/// autonegotiation with the full advertised capability set.
pub const PHY_CTRL_AUTONEG_OVERRIDE: u16 = 0x40E0;

/// Control-register value that requests a PHY soft reset.
pub const PHY_CTRL_SOFT_RESET: u16 = 0x8000;

/// The data field a station-management read transaction delivered.
pub open spec fn data_of(v: u32) -> u16 {
    (v & MACMIIDR_TD_MASK) as u16
}

/// The PHY identity matches the expected part: identifier word 1 equals the
/// expected constant and the model bits of identifier word 2 equal the
/// expected model.
pub open spec fn phy_id_matches(id1: u16, id2: u16) -> bool {
    id1 == PHY_ID1_EXPECTED && id2 & PHY_ID2_MODEL_MASK == PHY_ID2_MODEL_EXPECTED
}

/// Checks the two PHY identifier words against the expected part; a pure
/// function of the two read-back values.
pub fn phy_identity_check(id1: u16, id2: u16) -> (r: bool)
    ensures
        r == phy_id_matches(id1, id2),
{
    id1 == PHY_ID1_EXPECTED && id2 & PHY_ID2_MODEL_MASK == PHY_ID2_MODEL_EXPECTED
}

/// The required configuration of one GPIO pin.
#[derive(Clone, Copy, PartialEq, Eq, Structural, Debug)]
pub struct PinCfg {
    /// The bank the pin lives in.
    pub bank: Bank,
    /// The pin number within its bank.
    pub pin: u32,
    /// The alternate-function number routed to the pin.
    pub af: u32,
    /// Open-drain output, as the management data line requires; push-pull
    /// otherwise.
    pub open_drain: bool,
    /// Pull configuration field value; zero is floating.
    pub pull: u32,
    /// Slew-rate field value; zero is the slowest.
    pub speed: u32,
}

impl PinCfg {
    /// The field values fit their register fields.
    pub open spec fn wf(self) -> bool {
        self.pin < 16 && self.af < 16 && self.pull < 4 && self.speed < 4
    }
}

/// The five register writes that configure one pin for its alternate
/// function: function number, mode, pull, output type and slew rate.
pub open spec fn pin_ops(p: PinCfg) -> Seq<RegWrite> {
    let sh2 = (2 * p.pin) as u32;
    let sh4 = (4 * (p.pin % 8)) as u32;
    let afr = if p.pin < 8 {
        GpioReg::Afrl
    } else {
        GpioReg::Afrh
    };
    let ot: u32 = if p.open_drain {
        1
    } else {
        0
    };
    seq![
        RegWrite { reg: RegId::Gpio(p.bank, afr), mask: 0xFu32 << sh4, value: p.af << sh4 },
        RegWrite { reg: RegId::Gpio(p.bank, GpioReg::Moder), mask: 3u32 << sh2, value: 2u32 << sh2 },
        RegWrite {
            reg: RegId::Gpio(p.bank, GpioReg::Pupdr),
            mask: 3u32 << sh2,
            value: p.pull << sh2,
        },
        RegWrite { reg: RegId::Gpio(p.bank, GpioReg::Otyper), mask: 1u32 << p.pin, value: ot << p.pin },
        RegWrite {
            reg: RegId::Gpio(p.bank, GpioReg::Ospeedr),
            mask: 3u32 << sh2,
            value: p.speed << sh2,
        },
    ]
}

/// The pin assignment of the reduced-interface and management signals:
/// reference clock, management data and clock, carrier sense, transmit
/// enable, and the transmit and receive data pairs.
pub open spec fn rmii_pins_spec() -> Seq<PinCfg> {
    seq![
        // Reference clock.
        PinCfg { bank: Bank::A, pin: 1, af: 11, open_drain: false, pull: 0, speed: 0 },
        // Management data; open drain with an external pull-up.
        PinCfg { bank: Bank::A, pin: 2, af: 11, open_drain: true, pull: 0, speed: 0 },
        // Carrier sense / data valid.
        PinCfg { bank: Bank::A, pin: 7, af: 11, open_drain: false, pull: 0, speed: 0 },
        // Transmit enable.
        PinCfg { bank: Bank::B, pin: 11, af: 11, open_drain: false, pull: 0, speed: 2 },
        // Transmit data pair.
        PinCfg { bank: Bank::B, pin: 12, af: 11, open_drain: false, pull: 0, speed: 2 },
        PinCfg { bank: Bank::B, pin: 13, af: 11, open_drain: false, pull: 0, speed: 2 },
        // Management clock.
        PinCfg { bank: Bank::C, pin: 1, af: 11, open_drain: false, pull: 0, speed: 0 },
        // Receive data pair.
        PinCfg { bank: Bank::C, pin: 4, af: 11, open_drain: false, pull: 0, speed: 0 },
        PinCfg { bank: Bank::C, pin: 5, af: 11, open_drain: false, pull: 0, speed: 0 },
    ]
}

/// Every pin of the reduced-interface assignment is well-formed.
pub proof fn lemma_rmii_pins_wf()
    ensures
        forall|k: int|
            0 <= k < rmii_pins_spec().len() ==> (#[trigger] rmii_pins_spec()[k]).wf(),
{
    assert forall|k: int| 0 <= k < rmii_pins_spec().len() implies (
    #[trigger] rmii_pins_spec()[k]).wf() by {
        assert(rmii_pins_spec()[0].wf());
        assert(rmii_pins_spec()[1].wf());
        assert(rmii_pins_spec()[2].wf());
        assert(rmii_pins_spec()[3].wf());
        assert(rmii_pins_spec()[4].wf());
        assert(rmii_pins_spec()[5].wf());
        assert(rmii_pins_spec()[6].wf());
        assert(rmii_pins_spec()[7].wf());
        assert(rmii_pins_spec()[8].wf());
    }
}

/// The write that enables the clocks of the GPIO banks the pins live in.
pub open spec fn bank_clocks_op() -> RegWrite {
    RegWrite {
        reg: RegId::RccAhb1Enr,
        mask: RCC_AHB1ENR_GPIO_ABCE,
        value: RCC_AHB1ENR_GPIO_ABCE,
    }
}

/// The write that releases the MAC from its bus reset.
pub open spec fn mac_reset_release_op() -> RegWrite {
    RegWrite { reg: RegId::RccAhb1Rstr, mask: RCC_AHB1RSTR_ETHMACRST, value: 0 }
}

/// The write that enables the MAC's core, transmit and receive clocks.
pub open spec fn mac_clocks_on_op() -> RegWrite {
    RegWrite { reg: RegId::RccAhb1Enr, mask: RCC_AHB1ENR_MAC_RUN, value: RCC_AHB1ENR_MAC_RUN }
}

/// The writes that precede the pin configuration: bank clocks on, PHY reset
/// pin driven inactive, MAC held in reset with its clocks off, and the
/// reduced interface selected while the MAC is still in reset.
pub open spec fn eth_pre_ops() -> Seq<RegWrite> {
    seq![
        bank_clocks_op(),
        // PHY reset pin: output.
        RegWrite { reg: RegId::Gpio(Bank::E, GpioReg::Moder), mask: 3u32 << 4, value: 1u32 << 4 },
        // PHY reset pin: push-pull.
        RegWrite { reg: RegId::Gpio(Bank::E, GpioReg::Otyper), mask: 1u32 << 2, value: 0 },
        // PHY reset pin: driven high, the inactive level.
        RegWrite { reg: RegId::Gpio(Bank::E, GpioReg::Bsrr), mask: 1u32 << 2, value: 1u32 << 2 },
        // Hold the MAC in reset while it is configured.
        RegWrite {
            reg: RegId::RccAhb1Rstr,
            mask: RCC_AHB1RSTR_ETHMACRST,
            value: RCC_AHB1RSTR_ETHMACRST,
        },
        // MAC clocks off while in reset.
        RegWrite { reg: RegId::RccAhb1Enr, mask: RCC_AHB1ENR_MAC_ALL, value: 0 },
        // Select the reduced interface before the MAC leaves reset.
        RegWrite {
            reg: RegId::SyscfgPmc,
            mask: SYSCFG_PMC_MII_RMII_SEL,
            value: SYSCFG_PMC_MII_RMII_SEL,
        },
    ]
}

/// The writes that follow the pin configuration: MAC clocks on and the MAC
/// released from reset.
pub open spec fn eth_post_ops() -> Seq<RegWrite> {
    seq![mac_clocks_on_op(), mac_reset_release_op()]
}

/// The pin-configuration writes of a pin list, in list order.
pub open spec fn pins_ops_seq(pins: Seq<PinCfg>) -> Seq<RegWrite>
    decreases pins.len(),
{
    if pins.len() == 0 {
        Seq::empty()
    } else {
        pin_ops(pins[0]) + pins_ops_seq(pins.drop_first())
    }
}

/// The complete reset-and-pin-setup write sequence for a pin list: the
/// preparatory writes, then every pin's configuration, then MAC enable and
/// reset release.
pub open spec fn phase_a_spec(pins: Seq<PinCfg>) -> Seq<RegWrite> {
    eth_pre_ops() + pins_ops_seq(pins) + eth_post_ops()
}

/// Index of the MAC-enable write within the reset-and-pin-setup sequence.
pub open spec fn mac_enable_index(pins: Seq<PinCfg>) -> int {
    eth_pre_ops().len() + pins_ops_seq(pins).len() as int
}

/// A pin list's configuration writes number five per pin.
pub proof fn lemma_pins_ops_len(pins: Seq<PinCfg>)
    ensures
        pins_ops_seq(pins).len() == 5 * pins.len(),
    decreases pins.len(),
{
    if pins.len() > 0 {
        lemma_pins_ops_len(pins.drop_first());
    }
}

/// Each configuration write of a pin list stands at a fixed place: the
/// writes of pin `k` occupy indices `5 * k` through `5 * k + 4`.
pub proof fn lemma_pins_ops_index(pins: Seq<PinCfg>, k: int, i: int)
    requires
        0 <= k < pins.len(),
        0 <= i < 5,
    ensures
        pins_ops_seq(pins).len() == 5 * pins.len(),
        pins_ops_seq(pins)[5 * k + i] == pin_ops(pins[k])[i],
    decreases k,
{
    lemma_pins_ops_len(pins);
    if k == 0 {
        assert(pins_ops_seq(pins)[i] == pin_ops(pins[0])[i]);
    } else {
        lemma_pins_ops_index(pins.drop_first(), k - 1, i);
        assert(pins.drop_first()[k - 1] == pins[k]);
        lemma_pins_ops_len(pins.drop_first());
        assert(pins_ops_seq(pins)[5 * k + i] == pins_ops_seq(pins.drop_first())[5 * (k - 1) + i]);
    }
}

/// Appending a pin to a list appends its five writes to the list's writes.
pub proof fn lemma_pins_ops_snoc(s: Seq<PinCfg>, p: PinCfg)
    ensures
        pins_ops_seq(s.push(p)) =~= pins_ops_seq(s) + pin_ops(p),
    decreases s.len(),
{
    if s.len() == 0 {
        assert(s.push(p)[0] == p);
        assert(s.push(p).drop_first() =~= Seq::<PinCfg>::empty());
        assert(pins_ops_seq(s.push(p).drop_first()) =~= Seq::<RegWrite>::empty());
        assert(pins_ops_seq(s) =~= Seq::<RegWrite>::empty());
        assert(pin_ops(p) + Seq::<RegWrite>::empty() =~= Seq::<RegWrite>::empty() + pin_ops(p));
    } else {
        assert(s.push(p)[0] == s[0]);
        assert(s.push(p).drop_first() =~= s.drop_first().push(p));
        lemma_pins_ops_snoc(s.drop_first(), p);
        assert(pin_ops(s[0]) + (pins_ops_seq(s.drop_first()) + pin_ops(p)) =~= (pin_ops(s[0])
            + pins_ops_seq(s.drop_first())) + pin_ops(p));
    }
}

/// Ordering law of the reset-and-pin-setup sequence: the MAC-enable write
/// stands in the sequence, and every configuration write of every pin in
/// the list stands strictly before it.
pub proof fn lemma_pins_before_mac_enable(pins: Seq<PinCfg>)
    ensures
        mac_enable_index(pins) < phase_a_spec(pins).len(),
        phase_a_spec(pins)[mac_enable_index(pins)] == mac_clocks_on_op(),
        forall|k: int, i: int|
            0 <= k < pins.len() && 0 <= i < 5 ==> eth_pre_ops().len() + 5 * k + i
                < mac_enable_index(pins) && phase_a_spec(pins)[eth_pre_ops().len() + 5 * k + i]
                == pin_ops(pins[k])[i],
{
    lemma_pins_ops_len(pins);
    assert forall|k: int, i: int| 0 <= k < pins.len() && 0 <= i < 5 implies eth_pre_ops().len() + 5
        * k + i < mac_enable_index(pins) && phase_a_spec(pins)[eth_pre_ops().len() + 5 * k + i]
        == pin_ops(pins[k])[i] by {
        lemma_pins_ops_index(pins, k, i);
    }
}

/// Appends the five configuration writes of one pin.
fn push_pin_writes(r: &mut Vec<RegWrite>, p: &PinCfg)
    requires
        p.wf(),
    ensures
        final(r)@ =~= old(r)@ + pin_ops(*p),
{
    let sh2: u32 = 2 * p.pin;
    let sh4: u32 = 4 * (p.pin % 8);
    let afr = if p.pin < 8 {
        GpioReg::Afrl
    } else {
        GpioReg::Afrh
    };
    let ot: u32 = if p.open_drain {
        1
    } else {
        0
    };
    r.push(RegWrite { reg: RegId::Gpio(p.bank, afr), mask: 0xFu32 << sh4, value: p.af << sh4 });
    r.push(
        RegWrite { reg: RegId::Gpio(p.bank, GpioReg::Moder), mask: 3u32 << sh2, value: 2u32 << sh2 },
    );
    r.push(
        RegWrite {
            reg: RegId::Gpio(p.bank, GpioReg::Pupdr),
            mask: 3u32 << sh2,
            value: p.pull << sh2,
        },
    );
    r.push(
        RegWrite {
            reg: RegId::Gpio(p.bank, GpioReg::Otyper),
            mask: 1u32 << p.pin,
            value: ot << p.pin,
        },
    );
    r.push(
        RegWrite {
            reg: RegId::Gpio(p.bank, GpioReg::Ospeedr),
            mask: 3u32 << sh2,
            value: p.speed << sh2,
        },
    );
}

/// The pin assignment of the reduced-interface and management signals, as a
/// value a driver or harness can walk.
pub fn rmii_pins() -> (r: Vec<PinCfg>)
    ensures
        r@ =~= rmii_pins_spec(),
{
    let mut r: Vec<PinCfg> = Vec::new();
    r.push(PinCfg { bank: Bank::A, pin: 1, af: 11, open_drain: false, pull: 0, speed: 0 });
    r.push(PinCfg { bank: Bank::A, pin: 2, af: 11, open_drain: true, pull: 0, speed: 0 });
    r.push(PinCfg { bank: Bank::A, pin: 7, af: 11, open_drain: false, pull: 0, speed: 0 });
    r.push(PinCfg { bank: Bank::B, pin: 11, af: 11, open_drain: false, pull: 0, speed: 2 });
    r.push(PinCfg { bank: Bank::B, pin: 12, af: 11, open_drain: false, pull: 0, speed: 2 });
    r.push(PinCfg { bank: Bank::B, pin: 13, af: 11, open_drain: false, pull: 0, speed: 2 });
    r.push(PinCfg { bank: Bank::C, pin: 1, af: 11, open_drain: false, pull: 0, speed: 0 });
    r.push(PinCfg { bank: Bank::C, pin: 4, af: 11, open_drain: false, pull: 0, speed: 0 });
    r.push(PinCfg { bank: Bank::C, pin: 5, af: 11, open_drain: false, pull: 0, speed: 0 });
    r
}

/// Appends the complete reset-and-pin-setup sequence for a pin list.
pub fn push_phase_a(r: &mut Vec<RegWrite>, pins: &Vec<PinCfg>)
    requires
        forall|k: int| 0 <= k < pins@.len() ==> (#[trigger] pins@[k]).wf(),
    ensures
        final(r)@ =~= old(r)@ + phase_a_spec(pins@),
{
    let ghost base = r@;
    r.push(
        RegWrite {
            reg: RegId::RccAhb1Enr,
            mask: RCC_AHB1ENR_GPIO_ABCE,
            value: RCC_AHB1ENR_GPIO_ABCE,
        },
    );
    r.push(RegWrite { reg: RegId::Gpio(Bank::E, GpioReg::Moder), mask: 3u32 << 4, value: 1u32 << 4 });
    r.push(RegWrite { reg: RegId::Gpio(Bank::E, GpioReg::Otyper), mask: 1u32 << 2, value: 0 });
    r.push(RegWrite { reg: RegId::Gpio(Bank::E, GpioReg::Bsrr), mask: 1u32 << 2, value: 1u32 << 2 });
    r.push(
        RegWrite {
            reg: RegId::RccAhb1Rstr,
            mask: RCC_AHB1RSTR_ETHMACRST,
            value: RCC_AHB1RSTR_ETHMACRST,
        },
    );
    r.push(RegWrite { reg: RegId::RccAhb1Enr, mask: RCC_AHB1ENR_MAC_ALL, value: 0 });
    r.push(
        RegWrite {
            reg: RegId::SyscfgPmc,
            mask: SYSCFG_PMC_MII_RMII_SEL,
            value: SYSCFG_PMC_MII_RMII_SEL,
        },
    );
    assert(r@ =~= base + eth_pre_ops());
    let mut i: usize = 0;
    while i < pins.len()
        invariant
            i <= pins@.len(),
            forall|k: int| 0 <= k < pins@.len() ==> (#[trigger] pins@[k]).wf(),
            r@ =~= base + eth_pre_ops() + pins_ops_seq(pins@.subrange(0, i as int)),
        decreases pins@.len() - i,
    {
        let p = pins[i];
        push_pin_writes(r, &p);
        proof {
            lemma_pins_ops_snoc(pins@.subrange(0, i as int), pins@[i as int]);
            assert(pins@.subrange(0, i as int + 1) =~= pins@.subrange(0, i as int).push(
                pins@[i as int],
            ));
        }
        i = i + 1;
    }
    proof {
        assert(pins@.subrange(0, pins@.len() as int) =~= pins@);
    }
    r.push(RegWrite { reg: RegId::RccAhb1Enr, mask: RCC_AHB1ENR_MAC_RUN, value: RCC_AHB1ENR_MAC_RUN });
    r.push(RegWrite { reg: RegId::RccAhb1Rstr, mask: RCC_AHB1RSTR_ETHMACRST, value: 0 });
    assert(r@ =~= base + phase_a_spec(pins@));
}

/// A batch of register writes the Ethernet machine asks its driver to
/// perform in order.
#[derive(Clone, Copy, PartialEq, Eq, Structural, Debug)]
pub enum EthBatch {
    /// The complete reset-and-pin-setup sequence.
    PhaseA,
    /// Program the management-clock range and the PHY address.
    SmiClock,
    /// Start a management read of this PHY register.
    IssueRead(u32),
    /// Start a management write of this value to this PHY register.
    IssueWrite(u32, u16),
}

/// The single write that programs the management-clock range and the PHY
/// address while no transaction runs.
pub open spec fn smi_clock_ops() -> Seq<RegWrite> {
    seq![
        RegWrite {
            reg: RegId::MacMiiAddr,
            mask: MACMIIAR_PA_MASK | MACMIIAR_CR_MASK,
            value: (PHY_ADDR << 11) | MACMIIAR_CR_150_168,
        },
    ]
}

/// The single write that starts a management read: register index, read
/// direction, busy flag set.
pub open spec fn issue_read_ops(reg: u32) -> Seq<RegWrite> {
    seq![
        RegWrite {
            reg: RegId::MacMiiAddr,
            mask: MACMIIAR_MR_MASK | MACMIIAR_MW | MACMIIAR_MB,
            value: ((reg & 0x1F) << 6) | MACMIIAR_MB,
        },
    ]
}

/// The two writes that start a management write: the payload, then register
/// index, write direction and busy flag.
pub open spec fn issue_write_ops(reg: u32, data: u16) -> Seq<RegWrite> {
    seq![
        RegWrite { reg: RegId::MacMiiData, mask: MACMIIDR_TD_MASK, value: data as u32 },
        RegWrite {
            reg: RegId::MacMiiAddr,
            mask: MACMIIAR_MR_MASK | MACMIIAR_MW | MACMIIAR_MB,
            value: ((reg & 0x1F) << 6) | MACMIIAR_MW | MACMIIAR_MB,
        },
    ]
}

/// The register writes a batch performs, in order.
pub open spec fn eth_batch_spec(b: EthBatch) -> Seq<RegWrite> {
    match b {
        EthBatch::PhaseA => phase_a_spec(rmii_pins_spec()),
        EthBatch::SmiClock => smi_clock_ops(),
        EthBatch::IssueRead(reg) => issue_read_ops(reg),
        EthBatch::IssueWrite(reg, data) => issue_write_ops(reg, data),
    }
}

/// Appends the writes of a batch.
pub fn push_batch(r: &mut Vec<RegWrite>, b: &EthBatch)
    ensures
        final(r)@ =~= old(r)@ + eth_batch_spec(*b),
{
    match b {
        EthBatch::PhaseA => {
            let pins = rmii_pins();
            proof {
                lemma_rmii_pins_wf();
            }
            push_phase_a(r, &pins);
        },
        EthBatch::SmiClock => {
            r.push(
                RegWrite {
                    reg: RegId::MacMiiAddr,
                    mask: MACMIIAR_PA_MASK | MACMIIAR_CR_MASK,
                    value: (PHY_ADDR << 11u32) | MACMIIAR_CR_150_168,
                },
            );
        },
        EthBatch::IssueRead(reg) => {
            r.push(
                RegWrite {
                    reg: RegId::MacMiiAddr,
                    mask: MACMIIAR_MR_MASK | MACMIIAR_MW | MACMIIAR_MB,
                    value: ((*reg & 0x1F) << 6u32) | MACMIIAR_MB,
                },
            );
        },
        EthBatch::IssueWrite(reg, data) => {
            r.push(
                RegWrite { reg: RegId::MacMiiData, mask: MACMIIDR_TD_MASK, value: *data as u32 },
            );
            r.push(
                RegWrite {
                    reg: RegId::MacMiiAddr,
                    mask: MACMIIAR_MR_MASK | MACMIIAR_MW | MACMIIAR_MB,
                    value: ((*reg & 0x1F) << 6u32) | MACMIIAR_MW | MACMIIAR_MB,
                },
            );
        },
    }
}

/// Position of the Ethernet bring-up in its sequence. The wait states poll
/// the management interface's busy flag and advance only on a read-back
/// that shows it free; the read states consume the data a completed
/// management read delivered.
#[derive(Clone, Copy, PartialEq, Eq, Structural, Debug)]
pub enum EthState {
    /// Perform the whole reset-and-pin-setup sequence.
    PinSetup,
    /// Wait for a free interface, then program the management-clock range.
    ClockCfgWait,
    /// Wait for a free interface, then start the read of identifier 1.
    Id1Wait,
    /// Wait for the identifier-1 read to complete.
    Id1Done,
    /// Check the identifier-1 data against the expected constant.
    Id1Read,
    /// Wait for a free interface, then start the read of identifier 2.
    Id2Wait(u16),
    /// Wait for the identifier-2 read to complete.
    Id2Done(u16),
    /// Check the identifier-2 model bits against the expected model.
    Id2Read(u16),
    /// Wait for a free interface, then start the diagnostic control read.
    StatWait(PhyIdentity),
    /// Wait for the diagnostic read to complete.
    StatDone(PhyIdentity),
    /// Consume the diagnostic data; it is observed, never gated on.
    StatRead(PhyIdentity),
    /// Wait for a free interface, then write the autonegotiation override.
    CtrlWait(PhyIdentity),
    /// Wait for a free interface, then write the soft-reset request.
    RstWait(PhyIdentity),
    /// Wait for a free interface, then start a control-register read.
    RstReadWait(PhyIdentity),
    /// Wait for the control-register read to complete.
    RstReadDone(PhyIdentity),
    /// Check whether the soft-reset bit has cleared; if not, read again.
    RstRead(PhyIdentity),
    /// The PHY answered with the expected identity and left soft reset.
    Ready(PhyIdentity),
    /// The sequence stopped on the carried fault.
    Failed(EthFault),
}

/// The operation an Ethernet-machine step asks its driver to perform.
#[derive(Clone, Copy, PartialEq, Eq, Structural, Debug)]
pub enum EthAction {
    /// Perform these register writes in order, then step again with no
    /// read-back.
    Batch(EthBatch),
    /// Read this register and step again with the value read.
    Poll(RegId),
    /// The sequence is complete with this verified identity; stop.
    Done(PhyIdentity),
    /// The sequence failed with this fault; stop.
    Fault(EthFault),
}

/// The read-back shows the management interface free.
pub open spec fn resp_smi_free(resp: Option<u32>) -> bool {
    match resp {
        Some(v) => !smi_busy(v),
        None => false,
    }
}

/// The batch touches the management-interface address register and so must
/// only be issued while the interface is free.
pub open spec fn smi_issue(a: EthAction) -> bool {
    match a {
        EthAction::Batch(b) => !(b is PhaseA),
        _ => false,
    }
}

/// The transition relation of the Ethernet bring-up: from a state and the
/// response to that state's previous request, the next state and the
/// request to perform.
pub open spec fn eth_step_spec(state: EthState, resp: Option<u32>) -> (EthState, EthAction) {
    match state {
        EthState::PinSetup => (EthState::ClockCfgWait, EthAction::Batch(EthBatch::PhaseA)),
        EthState::ClockCfgWait => if resp_smi_free(resp) {
            (EthState::Id1Wait, EthAction::Batch(EthBatch::SmiClock))
        } else {
            (EthState::ClockCfgWait, EthAction::Poll(RegId::MacMiiAddr))
        },
        EthState::Id1Wait => if resp_smi_free(resp) {
            (EthState::Id1Done, EthAction::Batch(EthBatch::IssueRead(PHY_REG_ID1)))
        } else {
            (EthState::Id1Wait, EthAction::Poll(RegId::MacMiiAddr))
        },
        EthState::Id1Done => if resp_smi_free(resp) {
            (EthState::Id1Read, EthAction::Poll(RegId::MacMiiData))
        } else {
            (EthState::Id1Done, EthAction::Poll(RegId::MacMiiAddr))
        },
        EthState::Id1Read => match resp {
            Some(v) => if data_of(v) == PHY_ID1_EXPECTED {
                (EthState::Id2Wait(data_of(v)), EthAction::Poll(RegId::MacMiiAddr))
            } else {
                (
                    EthState::Failed(EthFault::UnexpectedPhyId),
                    EthAction::Fault(EthFault::UnexpectedPhyId),
                )
            },
            None => (EthState::Id1Read, EthAction::Poll(RegId::MacMiiData)),
        },
        EthState::Id2Wait(id1) => if resp_smi_free(resp) {
            (EthState::Id2Done(id1), EthAction::Batch(EthBatch::IssueRead(PHY_REG_ID2)))
        } else {
            (EthState::Id2Wait(id1), EthAction::Poll(RegId::MacMiiAddr))
        },
        EthState::Id2Done(id1) => if resp_smi_free(resp) {
            (EthState::Id2Read(id1), EthAction::Poll(RegId::MacMiiData))
        } else {
            (EthState::Id2Done(id1), EthAction::Poll(RegId::MacMiiAddr))
        },
        EthState::Id2Read(id1) => match resp {
            Some(v) => if data_of(v) & PHY_ID2_MODEL_MASK == PHY_ID2_MODEL_EXPECTED {
                (
                    EthState::StatWait(PhyIdentity { id1, id2: data_of(v) }),
                    EthAction::Poll(RegId::MacMiiAddr),
                )
            } else {
                (
                    EthState::Failed(EthFault::UnexpectedPhyId),
                    EthAction::Fault(EthFault::UnexpectedPhyId),
                )
            },
            None => (EthState::Id2Read(id1), EthAction::Poll(RegId::MacMiiData)),
        },
        EthState::StatWait(pid) => if resp_smi_free(resp) {
            (EthState::StatDone(pid), EthAction::Batch(EthBatch::IssueRead(PHY_REG_CTRL)))
        } else {
            (EthState::StatWait(pid), EthAction::Poll(RegId::MacMiiAddr))
        },
        EthState::StatDone(pid) => if resp_smi_free(resp) {
            (EthState::StatRead(pid), EthAction::Poll(RegId::MacMiiData))
        } else {
            (EthState::StatDone(pid), EthAction::Poll(RegId::MacMiiAddr))
        },
        EthState::StatRead(pid) => match resp {
            Some(_) => (EthState::CtrlWait(pid), EthAction::Poll(RegId::MacMiiAddr)),
            None => (EthState::StatRead(pid), EthAction::Poll(RegId::MacMiiData)),
        },
        EthState::CtrlWait(pid) => if resp_smi_free(resp) {
            (
                EthState::RstWait(pid),
                EthAction::Batch(EthBatch::IssueWrite(PHY_REG_CTRL, PHY_CTRL_AUTONEG_OVERRIDE)),
            )
        } else {
            (EthState::CtrlWait(pid), EthAction::Poll(RegId::MacMiiAddr))
        },
        EthState::RstWait(pid) => if resp_smi_free(resp) {
            (
                EthState::RstReadWait(pid),
                EthAction::Batch(EthBatch::IssueWrite(PHY_REG_CTRL, PHY_CTRL_SOFT_RESET)),
            )
        } else {
            (EthState::RstWait(pid), EthAction::Poll(RegId::MacMiiAddr))
        },
        EthState::RstReadWait(pid) => if resp_smi_free(resp) {
            (EthState::RstReadDone(pid), EthAction::Batch(EthBatch::IssueRead(PHY_REG_CTRL)))
        } else {
            (EthState::RstReadWait(pid), EthAction::Poll(RegId::MacMiiAddr))
        },
        EthState::RstReadDone(pid) => if resp_smi_free(resp) {
            (EthState::RstRead(pid), EthAction::Poll(RegId::MacMiiData))
        } else {
            (EthState::RstReadDone(pid), EthAction::Poll(RegId::MacMiiAddr))
        },
        EthState::RstRead(pid) => match resp {
            Some(v) => if data_of(v) & PHY_CTRL_SOFT_RESET == 0 {
                (EthState::Ready(pid), EthAction::Done(pid))
            } else {
                (EthState::RstReadWait(pid), EthAction::Poll(RegId::MacMiiAddr))
            },
            None => (EthState::RstRead(pid), EthAction::Poll(RegId::MacMiiData)),
        },
        EthState::Ready(pid) => (EthState::Ready(pid), EthAction::Done(pid)),
        EthState::Failed(f) => (EthState::Failed(f), EthAction::Fault(f)),
    }
}

/// Transaction discipline of the management interface: a step starts a new
/// transaction, or touches the interface's address register at all, only on
/// a read-back that shows the interface free.
pub proof fn lemma_smi_discipline(state: EthState, resp: Option<u32>)
    ensures
        smi_issue(eth_step_spec(state, resp).1) ==> resp_smi_free(resp),
{
}

/// Performs one step of the Ethernet bring-up: from the current state and
/// the response to the previous request, the next state and the next
/// request.
pub fn eth_step(state: EthState, resp: Option<u32>) -> (r: (EthState, EthAction))
    ensures
        r == eth_step_spec(state, resp),
{
    match state {
        EthState::PinSetup => (EthState::ClockCfgWait, EthAction::Batch(EthBatch::PhaseA)),
        EthState::ClockCfgWait => {
            match resp {
                Some(v) if v & MACMIIAR_MB == 0 => (
                    EthState::Id1Wait,
                    EthAction::Batch(EthBatch::SmiClock),
                ),
                _ => (EthState::ClockCfgWait, EthAction::Poll(RegId::MacMiiAddr)),
            }
        },
        EthState::Id1Wait => {
            match resp {
                Some(v) if v & MACMIIAR_MB == 0 => (
                    EthState::Id1Done,
                    EthAction::Batch(EthBatch::IssueRead(PHY_REG_ID1)),
                ),
                _ => (EthState::Id1Wait, EthAction::Poll(RegId::MacMiiAddr)),
            }
        },
        EthState::Id1Done => {
            match resp {
                Some(v) if v & MACMIIAR_MB == 0 => (
                    EthState::Id1Read,
                    EthAction::Poll(RegId::MacMiiData),
                ),
                _ => (EthState::Id1Done, EthAction::Poll(RegId::MacMiiAddr)),
            }
        },
        EthState::Id1Read => {
            match resp {
                Some(v) => {
                    let d: u16 = (v & MACMIIDR_TD_MASK) as u16;
                    if d == PHY_ID1_EXPECTED {
                        (EthState::Id2Wait(d), EthAction::Poll(RegId::MacMiiAddr))
                    } else {
                        (
                            EthState::Failed(EthFault::UnexpectedPhyId),
                            EthAction::Fault(EthFault::UnexpectedPhyId),
                        )
                    }
                },
                None => (EthState::Id1Read, EthAction::Poll(RegId::MacMiiData)),
            }
        },
        EthState::Id2Wait(id1) => {
            match resp {
                Some(v) if v & MACMIIAR_MB == 0 => (
                    EthState::Id2Done(id1),
                    EthAction::Batch(EthBatch::IssueRead(PHY_REG_ID2)),
                ),
                _ => (EthState::Id2Wait(id1), EthAction::Poll(RegId::MacMiiAddr)),
            }
        },
        EthState::Id2Done(id1) => {
            match resp {
                Some(v) if v & MACMIIAR_MB == 0 => (
                    EthState::Id2Read(id1),
                    EthAction::Poll(RegId::MacMiiData),
                ),
                _ => (EthState::Id2Done(id1), EthAction::Poll(RegId::MacMiiAddr)),
            }
        },
        EthState::Id2Read(id1) => {
            match resp {
                Some(v) => {
                    let d: u16 = (v & MACMIIDR_TD_MASK) as u16;
                    if d & PHY_ID2_MODEL_MASK == PHY_ID2_MODEL_EXPECTED {
                        (
                            EthState::StatWait(PhyIdentity { id1, id2: d }),
                            EthAction::Poll(RegId::MacMiiAddr),
                        )
                    } else {
                        (
                            EthState::Failed(EthFault::UnexpectedPhyId),
                            EthAction::Fault(EthFault::UnexpectedPhyId),
                        )
                    }
                },
                None => (EthState::Id2Read(id1), EthAction::Poll(RegId::MacMiiData)),
            }
        },
        EthState::StatWait(pid) => {
            match resp {
                Some(v) if v & MACMIIAR_MB == 0 => (
                    EthState::StatDone(pid),
                    EthAction::Batch(EthBatch::IssueRead(PHY_REG_CTRL)),
                ),
                _ => (EthState::StatWait(pid), EthAction::Poll(RegId::MacMiiAddr)),
            }
        },
        EthState::StatDone(pid) => {
            match resp {
                Some(v) if v & MACMIIAR_MB == 0 => (
                    EthState::StatRead(pid),
                    EthAction::Poll(RegId::MacMiiData),
                ),
                _ => (EthState::StatDone(pid), EthAction::Poll(RegId::MacMiiAddr)),
            }
        },
        EthState::StatRead(pid) => {
            match resp {
                Some(_) => (EthState::CtrlWait(pid), EthAction::Poll(RegId::MacMiiAddr)),
                None => (EthState::StatRead(pid), EthAction::Poll(RegId::MacMiiData)),
            }
        },
        EthState::CtrlWait(pid) => {
            match resp {
                Some(v) if v & MACMIIAR_MB == 0 => (
                    EthState::RstWait(pid),
                    EthAction::Batch(
                        EthBatch::IssueWrite(PHY_REG_CTRL, PHY_CTRL_AUTONEG_OVERRIDE),
                    ),
                ),
                _ => (EthState::CtrlWait(pid), EthAction::Poll(RegId::MacMiiAddr)),
            }
        },
        EthState::RstWait(pid) => {
            match resp {
                Some(v) if v & MACMIIAR_MB == 0 => (
                    EthState::RstReadWait(pid),
                    EthAction::Batch(EthBatch::IssueWrite(PHY_REG_CTRL, PHY_CTRL_SOFT_RESET)),
                ),
                _ => (EthState::RstWait(pid), EthAction::Poll(RegId::MacMiiAddr)),
            }
        },
        EthState::RstReadWait(pid) => {
            match resp {
                Some(v) if v & MACMIIAR_MB == 0 => (
                    EthState::RstReadDone(pid),
                    EthAction::Batch(EthBatch::IssueRead(PHY_REG_CTRL)),
                ),
                _ => (EthState::RstReadWait(pid), EthAction::Poll(RegId::MacMiiAddr)),
            }
        },
        EthState::RstReadDone(pid) => {
            match resp {
                Some(v) if v & MACMIIAR_MB == 0 => (
                    EthState::RstRead(pid),
                    EthAction::Poll(RegId::MacMiiData),
                ),
                _ => (EthState::RstReadDone(pid), EthAction::Poll(RegId::MacMiiAddr)),
            }
        },
        EthState::RstRead(pid) => {
            match resp {
                Some(v) => {
                    let d: u16 = (v & MACMIIDR_TD_MASK) as u16;
                    if d & PHY_CTRL_SOFT_RESET == 0 {
                        (EthState::Ready(pid), EthAction::Done(pid))
                    } else {
                        (EthState::RstReadWait(pid), EthAction::Poll(RegId::MacMiiAddr))
                    }
                },
                None => (EthState::RstRead(pid), EthAction::Poll(RegId::MacMiiData)),
            }
        },
        EthState::Ready(pid) => (EthState::Ready(pid), EthAction::Done(pid)),
        EthState::Failed(f) => (EthState::Failed(f), EthAction::Fault(f)),
    }
}

/// A state's carried identity words came from the first two data
/// read-backs and passed their checks.
spec fn ids_from(pid: PhyIdentity, data: Seq<u16>) -> bool {
    &&& pid.id1 == data[0]
    &&& pid.id2 == data[1]
    &&& data[0] == PHY_ID1_EXPECTED
    &&& data[1] & PHY_ID2_MODEL_MASK == PHY_ID2_MODEL_EXPECTED
}

/// How far into the recorded data read-backs the machine has come in each
/// state, and what the consumed read-backs showed.
spec fn eth_trace_inv(state: EthState, data: Seq<u16>, didx: int, resp: Option<u32>) -> bool {
    match state {
        EthState::PinSetup => didx == 0,
        EthState::ClockCfgWait => didx == 0,
        EthState::Id1Wait => didx == 0,
        EthState::Id1Done => didx == 0,
        EthState::Id1Read => match resp {
            Some(v) => didx == 1 && v == data[0] as u32,
            None => didx == 0,
        },
        EthState::Id2Wait(id1) => didx == 1 && id1 == data[0] && data[0] == PHY_ID1_EXPECTED,
        EthState::Id2Done(id1) => didx == 1 && id1 == data[0] && data[0] == PHY_ID1_EXPECTED,
        EthState::Id2Read(id1) => match resp {
            Some(v) => didx == 2 && v == data[1] as u32 && id1 == data[0] && data[0]
                == PHY_ID1_EXPECTED,
            None => didx == 1 && id1 == data[0] && data[0] == PHY_ID1_EXPECTED,
        },
        EthState::StatWait(pid) => didx == 2 && ids_from(pid, data),
        EthState::StatDone(pid) => didx == 2 && ids_from(pid, data),
        EthState::StatRead(pid) => match resp {
            Some(_) => didx == 3 && ids_from(pid, data),
            None => didx == 2 && ids_from(pid, data),
        },
        EthState::CtrlWait(pid) => didx == 3 && ids_from(pid, data),
        EthState::RstWait(pid) => didx == 3 && ids_from(pid, data),
        EthState::RstReadWait(pid) => didx >= 3 && ids_from(pid, data) && forall|k: int|
            3 <= k < didx ==> #[trigger] (data[k] & PHY_CTRL_SOFT_RESET) != 0,
        EthState::RstReadDone(pid) => didx >= 3 && ids_from(pid, data) && forall|k: int|
            3 <= k < didx ==> #[trigger] (data[k] & PHY_CTRL_SOFT_RESET) != 0,
        EthState::RstRead(pid) => ids_from(pid, data) && match resp {
            Some(v) => didx >= 4 && v == data[didx - 1] as u32 && forall|k: int|
                3 <= k < didx - 1 ==> #[trigger] (data[k] & PHY_CTRL_SOFT_RESET) != 0,
            None => didx >= 3 && forall|k: int|
                3 <= k < didx ==> #[trigger] (data[k] & PHY_CTRL_SOFT_RESET) != 0,
        },
        EthState::Ready(_) => true,
        EthState::Failed(_) => true,
    }
}

/// How many more transitions the machine can take before it must either
/// consume a read-back or stop; orders the states along the sequence.
pub open spec fn eth_rank(state: EthState) -> int {
    match state {
        EthState::PinSetup => 20,
        EthState::ClockCfgWait => 19,
        EthState::Id1Wait => 18,
        EthState::Id1Done => 17,
        EthState::Id1Read => 16,
        EthState::Id2Wait(_) => 15,
        EthState::Id2Done(_) => 14,
        EthState::Id2Read(_) => 13,
        EthState::StatWait(_) => 12,
        EthState::StatDone(_) => 11,
        EthState::StatRead(_) => 10,
        EthState::CtrlWait(_) => 9,
        EthState::RstWait(_) => 8,
        EthState::RstReadWait(_) => 7,
        EthState::RstReadDone(_) => 6,
        EthState::RstRead(_) => 5,
        EthState::Ready(_) => 0,
        EthState::Failed(_) => 0,
    }
}

/// A successful outcome carries an identity that matches the expected part.
pub open spec fn result_id_ok(r: Result<PhyIdentity, EthFault>) -> bool {
    match r {
        Ok(pid) => phy_id_matches(pid.id1, pid.id2),
        Err(_) => true,
    }
}

/// What a successful handshake proves of the recorded data read-backs:
/// the first two carried the expected identity and became the result; the
/// third was the diagnostic capture; every control read after it showed
/// the soft-reset bit still set except the last, which showed it clear.
pub open spec fn handshake_accepts(data: Seq<u16>, used: int, pid: PhyIdentity) -> bool {
    &&& 4 <= used <= data.len()
    &&& pid.id1 == data[0]
    &&& pid.id2 == data[1]
    &&& phy_id_matches(data[0], data[1])
    &&& forall|k: int| 3 <= k < used - 1 ==> #[trigger] (data[k] & PHY_CTRL_SOFT_RESET) != 0
    &&& data[used - 1] & PHY_CTRL_SOFT_RESET == 0
}

/// What a rejected identity proves of the recorded data read-backs: either
/// the first read-back was not the expected identifier word 1, or it was
/// and the second carried the wrong model bits.
pub open spec fn handshake_rejects(data: Seq<u16>, used: int) -> bool {
    ||| (used == 1 && 1 <= data.len() && data[0] != PHY_ID1_EXPECTED)
    ||| (used == 2 && 2 <= data.len() && data[0] == PHY_ID1_EXPECTED && data[1]
        & PHY_ID2_MODEL_MASK != PHY_ID2_MODEL_EXPECTED)
}

/// Exact ledger of busy-flag polls in each state when every recorded busy
/// read-back shows the interface free: how many busy and data read-backs
/// have been consumed, and that any held busy read-back shows free.
spec fn eth_busy_ledger(state: EthState, resp: Option<u32>, bidx: int, didx: int) -> bool {
    match state {
        EthState::PinSetup => bidx == 0 && didx == 0,
        EthState::ClockCfgWait => match resp {
            None => bidx == 0 && didx == 0,
            Some(v) => v == 0 && bidx == 1 && didx == 0,
        },
        EthState::Id1Wait => match resp {
            None => bidx == 1 && didx == 0,
            Some(v) => v == 0 && bidx == 2 && didx == 0,
        },
        EthState::Id1Done => match resp {
            None => bidx == 2 && didx == 0,
            Some(v) => v == 0 && bidx == 3 && didx == 0,
        },
        EthState::Id1Read => match resp {
            None => false,
            Some(_) => bidx == 3 && didx == 1,
        },
        EthState::Id2Wait(_) => match resp {
            None => false,
            Some(v) => v == 0 && bidx == 4 && didx == 1,
        },
        EthState::Id2Done(_) => match resp {
            None => bidx == 4 && didx == 1,
            Some(v) => v == 0 && bidx == 5 && didx == 1,
        },
        EthState::Id2Read(_) => match resp {
            None => false,
            Some(_) => bidx == 5 && didx == 2,
        },
        EthState::StatWait(_) => match resp {
            None => false,
            Some(v) => v == 0 && bidx == 6 && didx == 2,
        },
        EthState::StatDone(_) => match resp {
            None => bidx == 6 && didx == 2,
            Some(v) => v == 0 && bidx == 7 && didx == 2,
        },
        EthState::StatRead(_) => match resp {
            None => false,
            Some(_) => bidx == 7 && didx == 3,
        },
        EthState::CtrlWait(_) => match resp {
            None => false,
            Some(v) => v == 0 && bidx == 8 && didx == 3,
        },
        EthState::RstWait(_) => match resp {
            None => bidx == 8 && didx == 3,
            Some(v) => v == 0 && bidx == 9 && didx == 3,
        },
        EthState::RstReadWait(_) => match resp {
            None => bidx == 9 && didx == 3,
            Some(v) => v == 0 && didx >= 3 && bidx == 2 * didx + 4,
        },
        EthState::RstReadDone(_) => match resp {
            None => didx >= 3 && bidx == 2 * didx + 4,
            Some(v) => v == 0 && didx >= 3 && bidx == 2 * didx + 5,
        },
        EthState::RstRead(_) => match resp {
            None => false,
            Some(_) => didx >= 4 && bidx == 2 * didx + 3,
        },
        EthState::Ready(_) => true,
        EthState::Failed(_) => true,
    }
}

/// The outcome of driving the Ethernet bring-up from recorded read-backs.
pub struct EthRun {
    /// The verified identity, or the fault that stopped the sequence.
    pub result: Result<PhyIdentity, EthFault>,
    /// How many recorded busy-flag read-backs were consumed.
    pub busy_used: usize,
    /// How many recorded data read-backs were consumed.
    pub data_used: usize,
    /// The register writes the sequence performed, in order.
    pub ops: Vec<RegWrite>,
}

/// Truncating a data word to a register read-back and back is the identity.
proof fn lemma_data_roundtrip(x: u16)
    ensures
        ((x as u32) & MACMIIDR_TD_MASK) as u16 == x,
{
    assert(((x as u32) & 0xFFFFu32) as u16 == x) by (bit_vector);
}

/// Drives the Ethernet bring-up to completion against recorded read-backs,
/// as a harness standing in for the hardware: polls of the interface's busy
/// flag consume `busy_reads` in order, and data fetches of completed
/// management reads consume `data_reads` in order.
///
/// A poll past the end of either recording is a timeout: of the interface
/// while a transaction is awaited, of the PHY's soft reset while the
/// reset-completion poll runs.
pub fn eth_run(busy_reads: &Vec<bool>, data_reads: &Vec<u16>) -> (r: EthRun)
    ensures
        result_id_ok(r.result),
        r.busy_used <= busy_reads@.len(),
        r.data_used <= data_reads@.len(),
        r.ops@.len() >= phase_a_spec(rmii_pins_spec()).len(),
        forall|j: int|
            0 <= j < phase_a_spec(rmii_pins_spec()).len() ==> r.ops@[j] == phase_a_spec(
                rmii_pins_spec(),
            )[j],
        match r.result {
            Ok(pid) => handshake_accepts(data_reads@, r.data_used as int, pid),
            Err(_) => true,
        },
        r.result == Err::<PhyIdentity, EthFault>(EthFault::UnexpectedPhyId)
            ==> handshake_rejects(data_reads@, r.data_used as int),
        r.result == Err::<PhyIdentity, EthFault>(EthFault::ResetTimeout) ==> r.data_used
            == data_reads@.len() && r.data_used >= 3 && forall|k: int|
            3 <= k < data_reads@.len() ==> #[trigger] (data_reads@[k] & PHY_CTRL_SOFT_RESET)
                != 0,
        r.result == Err::<PhyIdentity, EthFault>(EthFault::SmiTimeout) ==> r.busy_used
            == busy_reads@.len() || r.data_used == data_reads@.len(),
        (forall|k: int| 0 <= k < busy_reads@.len() ==> !(#[trigger] busy_reads@[k]))
            && busy_reads@.len() >= 2 * data_reads@.len() + 12 && data_reads@.len() >= 3 ==> !(
        r.result == Err::<PhyIdentity, EthFault>(EthFault::SmiTimeout)),
{
    let mut state = EthState::PinSetup;
    let mut resp: Option<u32> = None;
    let mut bidx: usize = 0;
    let mut didx: usize = 0;
    let mut ops: Vec<RegWrite> = Vec::new();
    loop
        invariant
            bidx <= busy_reads@.len(),
            didx <= data_reads@.len(),
            !(state is Ready),
            !(state is Failed),
            eth_trace_inv(state, data_reads@, didx as int, resp),
            state is PinSetup ==> ops@.len() == 0,
            !(state is PinSetup) ==> ops@.len() >= phase_a_spec(rmii_pins_spec()).len() && (
            forall|j: int|
                0 <= j < phase_a_spec(rmii_pins_spec()).len() ==> ops@[j] == phase_a_spec(
                    rmii_pins_spec(),
                )[j]),
            state is RstRead ==> match resp {
                Some(v) => didx >= 1 && v == data_reads@[didx - 1] as u32,
                None => true,
            },
            (forall|k: int| 0 <= k < busy_reads@.len() ==> !(#[trigger] busy_reads@[k]))
                ==> eth_busy_ledger(state, resp, bidx as int, didx as int),
        decreases (busy_reads@.len() - bidx) + (data_reads@.len() - didx),
            eth_rank(state),
            (if resp is None {
                1int
            } else {
                0int
            }),
    {
        let (next, act) = eth_step(state, resp);
        proof {
            assert(0u32 & 1u32 == 0u32) by (bit_vector);
            if didx >= 1 {
                lemma_data_roundtrip(data_reads@[didx as int - 1]);
            }
        }
        state = next;
        match act {
            EthAction::Batch(b) => {
                push_batch(&mut ops, &b);
                resp = None;
            },
            EthAction::Poll(reg) => {
                match reg {
                    RegId::MacMiiData => {
                        if didx < data_reads.len() {
                            let d = data_reads[didx];
                            proof {
                                lemma_data_roundtrip(data_reads@[didx as int]);
                            }
                            resp = Some(d as u32);
                            didx = didx + 1;
                        } else {
                            let f = match state {
                                EthState::RstRead(_) => EthFault::ResetTimeout,
                                _ => EthFault::SmiTimeout,
                            };
                            return EthRun {
                                result: Err(f),
                                busy_used: bidx,
                                data_used: didx,
                                ops,
                            };
                        }
                    },
                    _ => {
                        if bidx < busy_reads.len() {
                            let b = busy_reads[bidx];
                            resp = Some(
                                if b {
                                    1
                                } else {
                                    0
                                },
                            );
                            bidx = bidx + 1;
                        } else {
                            return EthRun {
                                result: Err(EthFault::SmiTimeout),
                                busy_used: bidx,
                                data_used: didx,
                                ops,
                            };
                        }
                    },
                }
            },
            EthAction::Done(pid) => {
                return EthRun { result: Ok(pid), busy_used: bidx, data_used: didx, ops };
            },
            EthAction::Fault(f) => {
                return EthRun { result: Err(f), busy_used: bidx, data_used: didx, ops };
            },
        }
    }
}

} // verus!
