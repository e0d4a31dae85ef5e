//! The AXI DMA engine: its configuration table, its register layout, and the
//! mirror of the engine's state that the driver layer keeps.
//!
//! The hardware runs transfers on its own. A function here that depends on
//! what the hardware or the vendor's driver answered takes that answer as an
//! argument (`status`, `raw`), so that the decision is made in one place for
//! every answer there can be.

use crate::regs::{word_at, RegisterFile};
use crate::status::{XST_DMA_ERROR, XST_FAILURE, XST_INVALID_PARAM, XST_NOT_SGDMA, XST_SUCCESS};
use vstd::prelude::*;

verus! {

/// Channel number of the memory-to-device direction in driver calls.
pub const XAXIDMA_DMA_TO_DEVICE: u32 = 0;

/// Channel number of the device-to-memory direction in driver calls.
pub const XAXIDMA_DEVICE_TO_DMA: u32 = 1;

/// Distance between the register banks of the two directions.
pub const XAXIDMA_RX_OFFSET: u32 = 0x30;

/// Offset of the control register within a bank.
pub const XAXIDMA_CR_OFFSET: u32 = 0x00;

/// Offset of the status register within a bank.
pub const XAXIDMA_SR_OFFSET: u32 = 0x04;

/// The interrupt-mask bits of a control register: completion, delay, error.
pub const XAXIDMA_IRQ_ALL_MASK: u32 = 0x7000;

/// Bytes of address space that the engine's registers take up, counted
/// from the base address.
pub const XAXIDMA_REGISTER_SPAN: u32 = 0x5C;

/// The ways in which an operation on the DMA engine fails.
#[derive(Debug, Clone, Copy, PartialEq, Eq, Structural)]
pub enum DmaError {
    InvalidParam,
    NotInit,
    NotSGDMA,
    Unknown,
    Channel,
    Submisson,
    ConfigInit,
}

/// The two directions of transfer, each with a register bank of its own.
///
/// DMAToDevice: memory to device (the MM2S register bank)
/// DeviceToDMA: device to memory (the S2MM register bank)
#[derive(Debug, Clone, Copy, PartialEq, Eq, Structural)]
pub enum DmaDirection {
    DMAToDevice,
    DeviceToDMA,
}

impl DmaDirection {
    /// The direction's channel number, for use in contracts.
    pub open spec fn spec_channel(self) -> u32 {
        match self {
            DmaDirection::DMAToDevice => XAXIDMA_DMA_TO_DEVICE,
            DmaDirection::DeviceToDMA => XAXIDMA_DEVICE_TO_DMA,
        }
    }

    /// Offset of the direction's control register from the engine's base.
    pub open spec fn spec_control_offset(self) -> u32 {
        match self {
            DmaDirection::DMAToDevice => 0x00,
            DmaDirection::DeviceToDMA => 0x30,
        }
    }

    /// The number by which driver calls name this direction.
    pub fn channel(self) -> (code: u32)
        ensures
            code == self.spec_channel(),
    {
        match self {
            DmaDirection::DMAToDevice => XAXIDMA_DMA_TO_DEVICE,
            DmaDirection::DeviceToDMA => XAXIDMA_DEVICE_TO_DMA,
        }
    }

    /// Offset of the direction's register bank from the engine's base: the
    /// bank distance times the channel number.
    pub fn bank_offset(self) -> (offset: u32)
        ensures
            offset == XAXIDMA_RX_OFFSET * self.spec_channel(),
            offset == self.spec_control_offset(),
    {
        XAXIDMA_RX_OFFSET * self.channel()
    }

    /// Offset of the direction's control register from the engine's base.
    pub fn control_offset(self) -> (offset: u32)
        ensures
            offset == self.spec_control_offset(),
    {
        self.bank_offset() + XAXIDMA_CR_OFFSET
    }

    /// Offset of the direction's status register from the engine's base.
    pub fn status_offset(self) -> (offset: u32)
        ensures
            offset == match self {
                DmaDirection::DMAToDevice => 0x04u32,
                DmaDirection::DeviceToDMA => 0x34u32,
            },
    {
        self.bank_offset() + XAXIDMA_SR_OFFSET
    }

    /// Offset of the register that takes the buffer address of a simple
    /// transfer in this direction.
    pub fn address_offset(self) -> (offset: u32)
        ensures
            offset == match self {
                DmaDirection::DMAToDevice => 0x18u32,
                DmaDirection::DeviceToDMA => 0x48u32,
            },
    {
        match self {
            DmaDirection::DMAToDevice => 0x18,
            DmaDirection::DeviceToDMA => 0x48,
        }
    }

    /// Offset of the register that takes the length of a simple transfer in
    /// this direction.
    pub fn length_offset(self) -> (offset: u32)
        ensures
            offset == match self {
                DmaDirection::DMAToDevice => 0x20u32,
                DmaDirection::DeviceToDMA => 0x58u32,
            },
    {
        match self {
            DmaDirection::DMAToDevice => 0x20,
            DmaDirection::DeviceToDMA => 0x58,
        }
    }
}

//-------------------------------------------------------------------------------------------------
// XAxiDmaConfig
//-------------------------------------------------------------------------------------------------

/// The configuration of one DMA engine: one entry of the table that
/// describes the engines of the platform.
#[derive(Debug, Clone, Copy, PartialEq, Eq, Structural)]
pub struct XAxiDmaConfig {
    /// The number by which the platform names the engine.
    pub device_id: u32,
    /// Address of the engine's first register.
    pub base_addr: u32,
    /// Whether the engine is built for scatter-gather mode.
    pub has_sg: bool,
}

impl XAxiDmaConfig {
    /// Whether `table` holds an entry for the device `id`.
    pub open spec fn is_listed(table: Seq<XAxiDmaConfig>, id: u32) -> bool {
        exists|i: int| 0 <= i < table.len() && (#[trigger] table[i]).device_id == id
    }

    /// Whether the engine's registers lie within the 32-bit address space.
    pub open spec fn fits_address_space(self) -> bool {
        self.base_addr + XAXIDMA_REGISTER_SPAN <= 0x1_0000_0000
    }

    /// Looks up the configuration of the engine `id`: the first entry of
    /// `table` for that device.
    ///
    /// # Errors
    /// `ConfigInit` if no entry of the table is for the device.
    pub fn lookup_config(table: &[XAxiDmaConfig], id: u32) -> (found: Result<Self, DmaError>)
        ensures
            found is Ok <==> Self::is_listed(table@, id),
            found matches Err(e) ==> e == DmaError::ConfigInit,
            found matches Ok(config) ==> exists|i: int|
                0 <= i < table@.len() && #[trigger] table@[i] == config && config.device_id == id
                    && forall|j: int| 0 <= j < i ==> (#[trigger] table@[j]).device_id != id,
    {
        let mut i: usize = 0;
        while i < table.len()
            invariant
                i <= table@.len(),
                forall|j: int| 0 <= j < i ==> (#[trigger] table@[j]).device_id != id,
            decreases table@.len() - i,
        {
            if table[i].device_id == id {
                return Ok(table[i]);
            }
            i += 1;
        }
        Err(DmaError::ConfigInit)
    }
}

//-------------------------------------------------------------------------------------------------
// The engine's state
//-------------------------------------------------------------------------------------------------

/// What an initialized engine is doing, as far as the driver layer knows.
#[derive(Debug, Clone, Copy, PartialEq, Eq, Structural)]
pub enum EngineState {
    /// No transfer is in flight.
    Idle,
    /// A transfer is in flight in at least one direction.
    Running,
    /// The engine was paused and has not been resumed.
    Paused,
}

/// One simple transfer: where the buffer lies, how long it is, and which
/// way the data goes.
#[derive(Debug, Clone, Copy, PartialEq, Eq, Structural)]
pub struct TransferDescriptor {
    /// Address of the first byte of the buffer.
    pub buff_addr: usize,
    /// Number of bytes to move.
    pub length: u32,
    /// The direction of the transfer.
    pub direction: DmaDirection,
}

/// The mathematical model of an engine instance.
pub struct EngineView {
    /// Address of the engine's first register.
    pub reg_base: u32,
    /// Whether the engine is built for scatter-gather mode.
    pub has_sg: bool,
    /// Whether a transfer from memory to the device is in flight.
    pub to_device_busy: bool,
    /// Whether a transfer from the device to memory is in flight.
    pub from_device_busy: bool,
    /// Whether the engine was paused and has not been resumed.
    pub paused: bool,
}

impl EngineView {
    /// Whether a transfer is in flight in `direction`.
    pub open spec fn in_flight(self, direction: DmaDirection) -> bool {
        match direction {
            DmaDirection::DMAToDevice => self.to_device_busy,
            DmaDirection::DeviceToDMA => self.from_device_busy,
        }
    }

    /// The engine's state: paused if it was paused, else running if a
    /// transfer is in flight in either direction, else idle.
    pub open spec fn state(self) -> EngineState {
        if self.paused {
            EngineState::Paused
        } else if self.to_device_busy || self.from_device_busy {
            EngineState::Running
        } else {
            EngineState::Idle
        }
    }

    /// The engine with the in-flight mark of `direction` set to `busy` and
    /// everything else as it was.
    pub open spec fn with_in_flight(self, direction: DmaDirection, busy: bool) -> EngineView {
        match direction {
            DmaDirection::DMAToDevice => EngineView { to_device_busy: busy, ..self },
            DmaDirection::DeviceToDMA => EngineView { from_device_busy: busy, ..self },
        }
    }

    /// The engine after a reset: nothing in flight in either direction and
    /// not paused.
    pub open spec fn after_reset(self) -> EngineView {
        EngineView { to_device_busy: false, from_device_busy: false, paused: false, ..self }
    }

    /// Address of the control register of `direction`.
    pub open spec fn control_register(self, direction: DmaDirection) -> u32 {
        (self.reg_base + direction.spec_control_offset()) as u32
    }

    /// Whether a simple transfer in `direction` can be handed to the engine:
    /// the engine is not built for scatter-gather mode and nothing is in
    /// flight in that direction.
    pub open spec fn accepts_transfer(self, direction: DmaDirection) -> bool {
        !self.has_sg && !self.in_flight(direction)
    }
}

/// What initialization returns for the status that the driver's own
/// initialization gave.
pub open spec fn initialize_outcome(status: i32) -> Result<(), DmaError> {
    if status == XST_SUCCESS {
        Ok(())
    } else if status == XST_INVALID_PARAM {
        Err(DmaError::InvalidParam)
    } else {
        Err(DmaError::Unknown)
    }
}

/// What pausing returns for the status that the driver gave.
pub open spec fn pause_outcome(status: i32) -> Result<(), DmaError> {
    if status == XST_SUCCESS {
        Ok(())
    } else if status == XST_NOT_SGDMA {
        Err(DmaError::NotSGDMA)
    } else {
        Err(DmaError::Unknown)
    }
}

/// What resuming returns for the status that the driver gave.
pub open spec fn resume_outcome(status: i32) -> Result<(), DmaError> {
    if status == XST_SUCCESS {
        Ok(())
    } else if status == XST_NOT_SGDMA {
        Err(DmaError::NotSGDMA)
    } else if status == XST_DMA_ERROR {
        Err(DmaError::Channel)
    } else {
        Err(DmaError::Unknown)
    }
}

/// What submitting a transfer returns for the status that the driver gave.
pub open spec fn submit_outcome(status: i32) -> Result<(), DmaError> {
    if status == XST_SUCCESS {
        Ok(())
    } else if status == XST_FAILURE {
        Err(DmaError::Submisson)
    } else if status == XST_INVALID_PARAM {
        Err(DmaError::InvalidParam)
    } else {
        Err(DmaError::Unknown)
    }
}

/// What the self-test returns for the status that the driver gave.
pub open spec fn self_test_outcome(status: i32) -> Result<(), DmaError> {
    if status == XST_SUCCESS {
        Ok(())
    } else {
        Err(DmaError::Unknown)
    }
}

/// A control register's word with the interrupt-mask bits set.
pub open spec fn spec_irq_enabled(control: u32) -> u32 {
    control | XAXIDMA_IRQ_ALL_MASK
}

/// A control register's word with the interrupt-mask bits cleared.
pub open spec fn spec_irq_disabled(control: u32) -> u32 {
    control & !XAXIDMA_IRQ_ALL_MASK
}

/// The word to write to a control register that holds `control` so that the
/// engine raises its interrupts: the interrupt-mask bits are set, every
/// other bit is kept.
pub fn irq_enabled(control: u32) -> (word: u32)
    ensures
        word == spec_irq_enabled(control),
        word & XAXIDMA_IRQ_ALL_MASK == XAXIDMA_IRQ_ALL_MASK,
        word & !XAXIDMA_IRQ_ALL_MASK == control & !XAXIDMA_IRQ_ALL_MASK,
{
    let word: u32 = control | XAXIDMA_IRQ_ALL_MASK;
    assert((control | 0x7000u32) & 0x7000u32 == 0x7000u32) by (bit_vector);
    assert((control | 0x7000u32) & !0x7000u32 == control & !0x7000u32) by (bit_vector);
    word
}

/// The word to write to a control register that holds `control` so that the
/// engine raises no interrupt: the interrupt-mask bits are cleared, every
/// other bit is kept.
pub fn irq_disabled(control: u32) -> (word: u32)
    ensures
        word == spec_irq_disabled(control),
        word & XAXIDMA_IRQ_ALL_MASK == 0,
        word & !XAXIDMA_IRQ_ALL_MASK == control & !XAXIDMA_IRQ_ALL_MASK,
{
    let word: u32 = control & !XAXIDMA_IRQ_ALL_MASK;
    assert((control & !0x7000u32) & 0x7000u32 == 0) by (bit_vector);
    assert((control & !0x7000u32) & !0x7000u32 == control & !0x7000u32) by (bit_vector);
    word
}

/// The register space after the interrupts of `direction` were enabled on
/// the engine `engine`.
pub open spec fn regs_irq_enabled(
    engine: EngineView,
    regs: Map<u32, u32>,
    direction: DmaDirection,
) -> Map<u32, u32> {
    let addr = engine.control_register(direction);
    regs.insert(addr, spec_irq_enabled(word_at(regs, addr)))
}

/// The register space after the interrupts of `direction` were disabled on
/// the engine `engine`.
pub open spec fn regs_irq_disabled(
    engine: EngineView,
    regs: Map<u32, u32>,
    direction: DmaDirection,
) -> Map<u32, u32> {
    let addr = engine.control_register(direction);
    regs.insert(addr, spec_irq_disabled(word_at(regs, addr)))
}

//-------------------------------------------------------------------------------------------------
// XAxiDma
//-------------------------------------------------------------------------------------------------

/// An initialized DMA engine, as the driver layer sees it.
///
/// A value of this type exists only for an engine whose initialization
/// succeeded. One value stands for one physical engine: keep one per engine.
/// The marks of what is in flight follow what the caller reports: a
/// transfer that the driver accepted is in flight until [`XAxiDma::busy`]
/// hears from the hardware that it is not, until its completion is recorded
/// with [`XAxiDma::transfer_complete`], or until the engine is reset.
#[derive(Debug)]
pub struct XAxiDma {
    reg_base: u32,
    has_sg: bool,
    to_device_busy: bool,
    from_device_busy: bool,
    paused: bool,
}

impl View for XAxiDma {
    type V = EngineView;

    closed spec fn view(&self) -> EngineView {
        EngineView {
            reg_base: self.reg_base,
            has_sg: self.has_sg,
            to_device_busy: self.to_device_busy,
            from_device_busy: self.from_device_busy,
            paused: self.paused,
        }
    }
}

impl XAxiDma {
    #[verifier::type_invariant]
    spec fn registers_fit(&self) -> bool {
        self.reg_base + XAXIDMA_REGISTER_SPAN <= 0x1_0000_0000
    }

    /// Builds the instance for the engine that `config` describes, given the
    /// `status` that the driver's initialization of that engine returned.
    ///
    /// The new engine is idle: nothing is in flight and it is not paused.
    ///
    /// # Errors
    /// `InvalidParam` if the registers that `config` names do not lie within
    /// the address space, or if the driver refused its arguments; `Unknown`
    /// for every other status but success.
    pub fn cfg_initialize(config: &XAxiDmaConfig, status: i32) -> (made: Result<XAxiDma, DmaError>)
        ensures
            !config.fits_address_space() ==> made == Err::<XAxiDma, DmaError>(
                DmaError::InvalidParam,
            ),
            config.fits_address_space() ==> match initialize_outcome(status) {
                Ok(()) => made matches Ok(engine) && engine@ == (EngineView {
                    reg_base: config.base_addr,
                    has_sg: config.has_sg,
                    to_device_busy: false,
                    from_device_busy: false,
                    paused: false,
                }),
                Err(e) => made == Err::<XAxiDma, DmaError>(e),
            },
    {
        if config.base_addr > u32::MAX - (XAXIDMA_REGISTER_SPAN - 1) {
            return Err(DmaError::InvalidParam);
        }
        if status == XST_SUCCESS {
            Ok(
                XAxiDma {
                    reg_base: config.base_addr,
                    has_sg: config.has_sg,
                    to_device_busy: false,
                    from_device_busy: false,
                    paused: false,
                },
            )
        } else if status == XST_INVALID_PARAM {
            Err(DmaError::InvalidParam)
        } else {
            Err(DmaError::Unknown)
        }
    }

    /// Address of the engine's first register.
    pub fn reg_base(&self) -> (base: u32)
        ensures
            base == self@.reg_base,
            base + XAXIDMA_REGISTER_SPAN <= 0x1_0000_0000,
    {
        proof {
            use_type_invariant(self);
        }
        self.reg_base
    }

    /// Whether the engine is built for scatter-gather mode.
    pub fn has_sg(&self) -> (sg: bool)
        ensures
            sg == self@.has_sg,
    {
        self.has_sg
    }

    /// Whether a transfer is in flight in `direction`, as far as this
    /// instance was told.
    pub fn in_flight(&self, direction: DmaDirection) -> (busy: bool)
        ensures
            busy == self@.in_flight(direction),
    {
        match direction {
            DmaDirection::DMAToDevice => self.to_device_busy,
            DmaDirection::DeviceToDMA => self.from_device_busy,
        }
    }

    /// The engine's state.
    pub fn state(&self) -> (state: EngineState)
        ensures
            state == self@.state(),
    {
        if self.paused {
            EngineState::Paused
        } else if self.to_device_busy || self.from_device_busy {
            EngineState::Running
        } else {
            EngineState::Idle
        }
    }

    /// Address of the control register of `direction`.
    pub fn control_register(&self, direction: DmaDirection) -> (addr: u32)
        ensures
            addr == self@.control_register(direction),
            addr == self@.reg_base + direction.spec_control_offset(),
    {
        proof {
            use_type_invariant(self);
        }
        self.reg_base + direction.control_offset()
    }

    /// Records a reset of the engine. A reset covers both directions: after
    /// it nothing is in flight and the engine is not paused, whatever it was
    /// doing before.
    pub fn reset(&mut self)
        ensures
            final(self)@ == old(self)@.after_reset(),
    {
        proof {
            use_type_invariant(&*self);
        }
        self.to_device_busy = false;
        self.from_device_busy = false;
        self.paused = false;
    }

    /// Whether a reset has finished, given the flag `raw` that the driver
    /// returned when asked. The engine takes no command before this is true.
    pub fn reset_is_done(&self, raw: u32) -> (done: bool)
        ensures
            done == (raw != 0),
    {
        raw != 0
    }

    /// Records the outcome of pausing the engine, given the `status` that
    /// the driver returned.
    ///
    /// # Errors
    /// `NotSGDMA` if the engine is not built for scatter-gather mode,
    /// whatever the status, or if the driver said so; `Unknown` for every
    /// other status but success. On an error the engine is as it was.
    pub fn pause(&mut self, status: i32) -> (outcome: Result<(), DmaError>)
        ensures
            !old(self)@.has_sg ==> outcome == Err::<(), DmaError>(DmaError::NotSGDMA),
            old(self)@.has_sg ==> outcome == pause_outcome(status),
            outcome is Ok ==> final(self)@ == (EngineView { paused: true, ..old(self)@ }),
            outcome is Err ==> final(self)@ == old(self)@,
    {
        proof {
            use_type_invariant(&*self);
        }
        if !self.has_sg {
            Err(DmaError::NotSGDMA)
        } else if status == XST_SUCCESS {
            self.paused = true;
            Ok(())
        } else if status == XST_NOT_SGDMA {
            Err(DmaError::NotSGDMA)
        } else {
            Err(DmaError::Unknown)
        }
    }

    /// Records the outcome of resuming the engine, given the `status` that
    /// the driver returned.
    ///
    /// # Errors
    /// `NotSGDMA` if the engine is not built for scatter-gather mode,
    /// whatever the status, or if the driver said so; `Channel` if a channel
    /// reported an error; `Unknown` for every other status but success. On
    /// an error the engine is as it was.
    pub fn resume(&mut self, status: i32) -> (outcome: Result<(), DmaError>)
        ensures
            !old(self)@.has_sg ==> outcome == Err::<(), DmaError>(DmaError::NotSGDMA),
            old(self)@.has_sg ==> outcome == resume_outcome(status),
            outcome is Ok ==> final(self)@ == (EngineView { paused: false, ..old(self)@ }),
            outcome is Err ==> final(self)@ == old(self)@,
    {
        proof {
            use_type_invariant(&*self);
        }
        if !self.has_sg {
            Err(DmaError::NotSGDMA)
        } else if status == XST_SUCCESS {
            self.paused = false;
            Ok(())
        } else if status == XST_NOT_SGDMA {
            Err(DmaError::NotSGDMA)
        } else if status == XST_DMA_ERROR {
            Err(DmaError::Channel)
        } else {
            Err(DmaError::Unknown)
        }
    }

    /// Whether the engine is busy in `direction`, given the flag `raw` that
    /// the driver returned when asked about that direction. The answer is
    /// recorded as the in-flight mark of that direction; the other
    /// direction is not touched.
    pub fn busy(&mut self, direction: DmaDirection, raw: u32) -> (busy: bool)
        ensures
            busy == (raw != 0),
            final(self)@ == old(self)@.with_in_flight(direction, busy),
    {
        proof {
            use_type_invariant(&*self);
        }
        let busy = raw != 0;
        match direction {
            DmaDirection::DMAToDevice => {
                self.to_device_busy = busy;
            },
            DmaDirection::DeviceToDMA => {
                self.from_device_busy = busy;
            },
        }
        busy
    }

    /// Records that the transfer in `direction` has completed, as an
    /// interrupt of the engine told: nothing is in flight in that direction
    /// any more. The other direction is not touched.
    pub fn transfer_complete(&mut self, direction: DmaDirection)
        ensures
            final(self)@ == old(self)@.with_in_flight(direction, false),
    {
        proof {
            use_type_invariant(&*self);
        }
        match direction {
            DmaDirection::DMAToDevice => {
                self.to_device_busy = false;
            },
            DmaDirection::DeviceToDMA => {
                self.from_device_busy = false;
            },
        }
    }

    /// Decides whether a simple transfer can be handed to the driver, and
    /// describes it if so. The engine is not changed.
    ///
    /// # Errors
    /// `Submisson` if a transfer is in flight in `direction`, or if the
    /// engine is built for scatter-gather mode. Nothing is to be handed to
    /// the driver then.
    pub fn transfer_request(&self, buff_addr: usize, length: u32, direction: DmaDirection) -> (request:
        Result<TransferDescriptor, DmaError>)
        ensures
            self@.accepts_transfer(direction) ==> request == Ok::<TransferDescriptor, DmaError>(
                TransferDescriptor { buff_addr, length, direction },
            ),
            !self@.accepts_transfer(direction) ==> request == Err::<TransferDescriptor, DmaError>(
                DmaError::Submisson,
            ),
    {
        if self.has_sg || self.in_flight(direction) {
            Err(DmaError::Submisson)
        } else {
            Ok(TransferDescriptor { buff_addr, length, direction })
        }
    }

    /// Records the outcome of one simple transfer submission, given the
    /// `status` that the driver returned for `request`. On success the
    /// transfer is in flight in its direction.
    ///
    /// # Errors
    /// `Submisson` if a transfer is in flight in that direction or the
    /// engine is built for scatter-gather mode, whatever the status, or if
    /// the driver refused the submission; `InvalidParam` if the driver
    /// refused its arguments; `Unknown` for every other status but success.
    /// On an error the engine is as it was.
    pub fn simple_transfer(&mut self, request: TransferDescriptor, status: i32) -> (outcome: Result<
        (),
        DmaError,
    >)
        ensures
            !old(self)@.accepts_transfer(request.direction) ==> outcome == Err::<(), DmaError>(
                DmaError::Submisson,
            ),
            old(self)@.accepts_transfer(request.direction) ==> outcome == submit_outcome(status),
            outcome is Ok ==> final(self)@ == old(self)@.with_in_flight(request.direction, true),
            outcome is Err ==> final(self)@ == old(self)@,
    {
        proof {
            use_type_invariant(&*self);
        }
        if self.has_sg || self.in_flight(request.direction) {
            Err(DmaError::Submisson)
        } else if status == XST_SUCCESS {
            match request.direction {
                DmaDirection::DMAToDevice => {
                    self.to_device_busy = true;
                },
                DmaDirection::DeviceToDMA => {
                    self.from_device_busy = true;
                },
            }
            Ok(())
        } else if status == XST_FAILURE {
            Err(DmaError::Submisson)
        } else if status == XST_INVALID_PARAM {
            Err(DmaError::InvalidParam)
        } else {
            Err(DmaError::Unknown)
        }
    }

    /// The outcome of the engine's self-test, given the `status` that the
    /// driver returned.
    ///
    /// # Errors
    /// `Unknown` for every status but success.
    pub fn self_test(&self, status: i32) -> (outcome: Result<(), DmaError>)
        ensures
            outcome == self_test_outcome(status),
    {
        if status == XST_SUCCESS {
            Ok(())
        } else {
            Err(DmaError::Unknown)
        }
    }

    /// Enables the interrupts of `direction`: sets the interrupt-mask bits
    /// in that direction's control register in `regs` and keeps its other
    /// bits. No other register changes.
    pub fn irq_interrupt_enable(&self, regs: &mut RegisterFile, direction: DmaDirection)
        ensures
            final(regs)@ == regs_irq_enabled(self@, old(regs)@, direction),
    {
        let addr = self.control_register(direction);
        let control = regs.read_reg(addr, XAXIDMA_CR_OFFSET);
        regs.write_reg(addr, XAXIDMA_CR_OFFSET, irq_enabled(control));
    }

    /// Disables the interrupts of `direction`: clears the interrupt-mask
    /// bits in that direction's control register in `regs` and keeps its
    /// other bits. No other register changes.
    pub fn irq_interrupt_disable(&self, regs: &mut RegisterFile, direction: DmaDirection)
        ensures
            final(regs)@ == regs_irq_disabled(self@, old(regs)@, direction),
    {
        let addr = self.control_register(direction);
        let control = regs.read_reg(addr, XAXIDMA_CR_OFFSET);
        regs.write_reg(addr, XAXIDMA_CR_OFFSET, irq_disabled(control));
    }
}

//-------------------------------------------------------------------------------------------------
// What holds of the operations together
//-------------------------------------------------------------------------------------------------

/// Enabling the interrupts of a direction and then disabling them leaves
/// every bit of its control register outside the interrupt mask as it was
/// before both, with the interrupt-mask bits clear, and leaves every other
/// register as it was.
pub proof fn lemma_irq_enable_then_disable_keeps_other_bits(
    engine: EngineView,
    regs: Map<u32, u32>,
    direction: DmaDirection,
)
    ensures
        ({
            let control = engine.control_register(direction);
            let after = regs_irq_disabled(
                engine,
                regs_irq_enabled(engine, regs, direction),
                direction,
            );
            &&& word_at(after, control) & !XAXIDMA_IRQ_ALL_MASK == word_at(regs, control)
                & !XAXIDMA_IRQ_ALL_MASK
            &&& word_at(after, control) & XAXIDMA_IRQ_ALL_MASK == 0
            &&& forall|addr: u32| addr != control ==> word_at(after, addr) == word_at(regs, addr)
        }),
{
    let control = engine.control_register(direction);
    let before = word_at(regs, control);
    assert(((before | 0x7000u32) & !0x7000u32) & !0x7000u32 == before & !0x7000u32)
        by (bit_vector);
    assert(((before | 0x7000u32) & !0x7000u32) & 0x7000u32 == 0) by (bit_vector);
}

/// Enabling the interrupts of a direction changes no bit outside the
/// interrupt mask of its control register, and disabling them changes none
/// either.
pub proof fn lemma_irq_words_keep_other_bits(control: u32)
    ensures
        spec_irq_enabled(control) & !XAXIDMA_IRQ_ALL_MASK == control & !XAXIDMA_IRQ_ALL_MASK,
        spec_irq_disabled(control) & !XAXIDMA_IRQ_ALL_MASK == control & !XAXIDMA_IRQ_ALL_MASK,
        spec_irq_enabled(control) & XAXIDMA_IRQ_ALL_MASK == XAXIDMA_IRQ_ALL_MASK,
        spec_irq_disabled(control) & XAXIDMA_IRQ_ALL_MASK == 0,
{
    assert((control | 0x7000u32) & !0x7000u32 == control & !0x7000u32) by (bit_vector);
    assert((control & !0x7000u32) & !0x7000u32 == control & !0x7000u32) by (bit_vector);
    assert((control | 0x7000u32) & 0x7000u32 == 0x7000u32) by (bit_vector);
    assert((control & !0x7000u32) & 0x7000u32 == 0) by (bit_vector);
}

/// Each direction has a control register of its own: where the engine's
/// registers lie within the address space, the control registers of the two
/// directions differ, and enabling or disabling the interrupts of one
/// direction leaves the control register of the other as it was.
pub proof fn lemma_directions_have_banks_of_their_own(
    engine: EngineView,
    regs: Map<u32, u32>,
    direction: DmaDirection,
    other: DmaDirection,
)
    requires
        direction != other,
        engine.reg_base + XAXIDMA_REGISTER_SPAN <= 0x1_0000_0000,
    ensures
        engine.control_register(direction) != engine.control_register(other),
        word_at(regs_irq_enabled(engine, regs, direction), engine.control_register(other))
            == word_at(regs, engine.control_register(other)),
        word_at(regs_irq_disabled(engine, regs, direction), engine.control_register(other))
            == word_at(regs, engine.control_register(other)),
{
}

/// After a reset the engine is idle and nothing is in flight in either
/// direction, whatever it was doing before; a simple transfer is then
/// accepted in each direction unless the engine is built for scatter-gather
/// mode.
pub proof fn lemma_reset_leaves_engine_idle(engine: EngineView, direction: DmaDirection)
    ensures
        engine.after_reset().state() == EngineState::Idle,
        !engine.after_reset().in_flight(direction),
        engine.after_reset().accepts_transfer(direction) == !engine.has_sg,
        engine.after_reset().reg_base == engine.reg_base,
        engine.after_reset().has_sg == engine.has_sg,
{
}

/// While a direction is marked busy no simple transfer is accepted in it,
/// and the mark of the other direction does not matter to that.
pub proof fn lemma_busy_direction_refuses_transfer(engine: EngineView, direction: DmaDirection)
    ensures
        !engine.with_in_flight(direction, true).accepts_transfer(direction),
        engine.in_flight(direction) ==> !engine.accepts_transfer(direction),
{
}

/// The two directions are independent: a change of one direction's
/// in-flight mark leaves the other direction's mark as it was.
pub proof fn lemma_directions_are_independent(
    engine: EngineView,
    direction: DmaDirection,
    other: DmaDirection,
    busy: bool,
)
    requires
        direction != other,
    ensures
        engine.with_in_flight(direction, busy).in_flight(other) == engine.in_flight(other),
        engine.with_in_flight(direction, busy).in_flight(direction) == busy,
{
}

/// A transfer that an idle engine accepted makes the engine run, and when
/// it is reported complete the engine is idle again, exactly as before the
/// transfer.
pub proof fn lemma_completed_transfer_returns_to_idle(engine: EngineView, direction: DmaDirection)
    requires
        engine.state() == EngineState::Idle,
    ensures
        engine.with_in_flight(direction, true).state() == EngineState::Running,
        engine.with_in_flight(direction, true).with_in_flight(direction, false) == engine,
{
}

} // verus!
