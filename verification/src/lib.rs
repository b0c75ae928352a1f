//! Bring-up sequencing for a microcontroller clock tree and Ethernet PHY link.
//!
//! The library holds the decision logic of the bring-up as pure state
//! machines: each step takes the current state and the value read back from a
//! hardware register and returns the next state together with the register
//! operation to perform. A thin driver performs the operations on the real
//! registers; tests drive the same machines from recorded read values.

use vstd::prelude::*;

pub mod clock;
pub mod eth;
pub mod plan;
pub mod regs;
