//! Device-coordination core for an interrupt-driven AXI DMA engine behind a
//! generic interrupt controller on a bare-metal, single-core target.
//!
//! The crate holds the decisions of the driver layer as verified functions on
//! plain values: the register layout and the read-modify-write rules, the
//! mirror of the engine's and the controller's state, and the mapping of the
//! vendor driver's status codes to typed results. The code that touches the
//! hardware hands the values it read to these functions and performs what
//! they return.

pub mod ff;
pub mod regs;
pub mod status;
pub mod xalloc;
pub mod xaxidma;
pub mod xscugic;
