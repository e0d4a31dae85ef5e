//! The generic interrupt controller: its configuration table, the table of
//! handlers that it keeps per interrupt source, which sources are enabled,
//! and the bits by which interrupts are masked at the controller and at the
//! processor.
//!
//! A handler is known here by the address of its entry. Running it is the
//! caller's part: [`XScuGic::dispatch`] says which handler, if any, is to
//! run when a source raises its interrupt.

use crate::regs::{word_at, RegisterFile};
use crate::status::{XST_INVALID_PARAM, XST_SUCCESS};
use std::collections::{HashMap, HashSet};
use vstd::prelude::*;

verus! {

broadcast use vstd::std_specs::hash::group_hash_axioms;

/// The bit of the controller's control register that routes interrupts to
/// the fast-interrupt line.
pub const XSCUGIC_CNTR_FIQEN_MASK: u32 = 0x8;

/// The bit of the processor's status register that masks ordinary
/// interrupts.
pub const XIL_EXCEPTION_IRQ: u32 = 0x80;

/// The bit of the processor's status register that masks fast interrupts.
pub const XIL_EXCEPTION_FIQ: u32 = 0x40;

/// Both interrupt-mask bits of the processor's status register.
pub const XIL_EXCEPTION_ALL: u32 = 0xC0;

//-------------------------------------------------------------------------------------------------
// XScuGicConfig
//-------------------------------------------------------------------------------------------------

/// The configuration of one interrupt controller: one entry of the table
/// that describes the controllers of the platform.
#[derive(Debug, Clone, Copy, PartialEq, Eq, Structural)]
pub struct XScuGicConfig {
    /// The number by which the platform names the controller.
    pub device_id: u16,
    /// Address of the controller's processor interface.
    pub cpu_base_address: u32,
    /// Address of the controller's distributor.
    pub dist_base_address: u32,
}

impl XScuGicConfig {
    /// Whether `table` holds an entry for the device `id`.
    pub open spec fn is_listed(table: Seq<XScuGicConfig>, id: u16) -> bool {
        exists|i: int| 0 <= i < table.len() && (#[trigger] table[i]).device_id == id
    }

    /// Looks up the configuration of the controller `id`: the first entry
    /// of `table` for that device.
    ///
    /// # Errors
    /// `()` if no entry of the table is for the device.
    pub fn lookup_config(table: &[XScuGicConfig], id: u16) -> (found: Result<Self, ()>)
        ensures
            found is Ok <==> Self::is_listed(table@, id),
            found matches Ok(config) ==> exists|i: int|
                0 <= i < table@.len() && #[trigger] table@[i] == config && config.device_id == id
                    && forall|j: int| 0 <= j < i ==> (#[trigger] table@[j]).device_id != id,
    {
        let mut i: usize = 0;
        while i < table.len()
            invariant
                i <= table@.len(),
                forall|j: int| 0 <= j < i ==> (#[trigger] table@[j]).device_id != id,
            decreases table@.len() - i,
        {
            if table[i].device_id == id {
                return Ok(table[i]);
            }
            i += 1;
        }
        Err(())
    }

    /// The address of the controller's processor interface, which serves as
    /// the effective address at initialization.
    pub fn get_cpu_base_addr(&self) -> (addr: u32)
        ensures
            addr == self.cpu_base_address,
    {
        self.cpu_base_address
    }
}

//-------------------------------------------------------------------------------------------------
// The controller's state
//-------------------------------------------------------------------------------------------------

/// The ways in which the initialization of a controller fails.
#[derive(Debug, Clone, Copy, PartialEq, Eq, Structural)]
pub enum GicError {
    /// The driver refused its arguments.
    InvalidParam,
    /// The driver returned a status that names no known failure.
    Unknown,
}

/// What initialization returns for the status that the driver's own
/// initialization gave.
pub open spec fn initialize_outcome(status: i32) -> Result<(), GicError> {
    if status == XST_SUCCESS {
        Ok(())
    } else if status == XST_INVALID_PARAM {
        Err(GicError::InvalidParam)
    } else {
        Err(GicError::Unknown)
    }
}

/// A routine that serves an interrupt, known by the address of its entry.
#[derive(Debug, Clone, Copy, PartialEq, Eq, Structural)]
pub struct Handler {
    /// Address of the routine's entry.
    pub entry: usize,
}

/// The mathematical model of a controller instance.
pub struct GicView {
    /// The number by which the platform names the controller.
    pub device_id: u16,
    /// The address at which the controller's processor interface is reached.
    pub cpu_base: u32,
    /// The handler of each source that has one.
    pub handlers: Map<u32, Handler>,
    /// The sources whose interrupts are delivered.
    pub enabled: Set<u32>,
    /// Whether the controller's dispatcher is installed as the target of the
    /// processor's interrupt exception.
    pub dispatcher_installed: bool,
}

impl GicView {
    /// The controller after `handler` was registered for the source `id`:
    /// the source has this handler and no other. With no handler given the
    /// source has none.
    pub open spec fn connected(self, id: u32, handler: Option<Handler>) -> GicView {
        match handler {
            Some(h) => GicView { handlers: self.handlers.insert(id, h), ..self },
            None => GicView { handlers: self.handlers.remove(id), ..self },
        }
    }

    /// The controller after the registration of the source `id` was cleared.
    pub open spec fn disconnected(self, id: u32) -> GicView {
        GicView { handlers: self.handlers.remove(id), ..self }
    }

    /// The controller after delivery from the source `id` was switched on
    /// (`on`) or off.
    pub open spec fn with_enabled(self, id: u32, on: bool) -> GicView {
        if on {
            GicView { enabled: self.enabled.insert(id), ..self }
        } else {
            GicView { enabled: self.enabled.remove(id), ..self }
        }
    }

    /// The handler that runs when the source `id` raises its interrupt at
    /// the controller: the one registered for it, if the source is enabled.
    pub open spec fn dispatch(self, id: u32) -> Option<Handler> {
        if self.enabled.contains(id) && self.handlers.contains_key(id) {
            Some(self.handlers[id])
        } else {
            None
        }
    }

    /// The handler that runs when the source `id` raises its interrupt
    /// while the processor's status register holds `cpsr`: the one that the
    /// controller dispatches to, if the dispatcher is installed and the
    /// processor does not mask interrupts.
    pub open spec fn deliver(self, cpsr: u32, id: u32) -> Option<Handler> {
        if self.dispatcher_installed && irq_unmasked(cpsr) {
            self.dispatch(id)
        } else {
            None
        }
    }
}

/// Whether a processor whose status register holds `cpsr` takes ordinary
/// interrupts: the bit that masks them is clear.
pub open spec fn irq_unmasked(cpsr: u32) -> bool {
    cpsr & XIL_EXCEPTION_IRQ == 0
}

/// The status register's word after the exceptions in `mask` were enabled.
pub open spec fn spec_exception_enable_mask(cpsr: u32, mask: u32) -> u32 {
    cpsr & !(mask & XIL_EXCEPTION_ALL)
}

/// A control register's word with the fast-interrupt bit cleared.
pub open spec fn spec_fiq_disabled(control: u32) -> u32 {
    control & !XSCUGIC_CNTR_FIQEN_MASK
}

//-------------------------------------------------------------------------------------------------
// XScuGic
//-------------------------------------------------------------------------------------------------

/// An initialized interrupt controller, as the driver layer sees it.
///
/// A value of this type exists only for a controller whose initialization
/// succeeded. One value stands for one physical controller.
#[derive(Debug)]
pub struct XScuGic {
    device_id: u16,
    cpu_base: u32,
    handlers: HashMap<u32, Handler>,
    enabled: HashSet<u32>,
    dispatcher_installed: bool,
}

impl View for XScuGic {
    type V = GicView;

    closed spec fn view(&self) -> GicView {
        GicView {
            device_id: self.device_id,
            cpu_base: self.cpu_base,
            handlers: self.handlers@,
            enabled: self.enabled@,
            dispatcher_installed: self.dispatcher_installed,
        }
    }
}

impl XScuGic {
    /// Builds the instance for the controller that `config` describes,
    /// reached at `effective_addr`, given the `status` that the driver's
    /// initialization of that controller returned.
    ///
    /// The new controller has no handler registered, no source enabled, and
    /// its dispatcher is not installed. The caller keeps the mapping of
    /// `effective_addr` to the device unchanged from here on.
    ///
    /// # Errors
    /// `InvalidParam` if the driver refused its arguments; `Unknown` for
    /// every other status but success.
    pub fn cfg_initialize(config: &XScuGicConfig, effective_addr: u32, status: i32) -> (made: Result<
        XScuGic,
        GicError,
    >)
        ensures
            match initialize_outcome(status) {
                Ok(()) => made matches Ok(gic) && gic@ == (GicView {
                    device_id: config.device_id,
                    cpu_base: effective_addr,
                    handlers: Map::<u32, Handler>::empty(),
                    enabled: Set::<u32>::empty(),
                    dispatcher_installed: false,
                }),
                Err(e) => made == Err::<XScuGic, GicError>(e),
            },
    {
        if status == XST_INVALID_PARAM {
            return Err(GicError::InvalidParam);
        }
        if status != XST_SUCCESS {
            return Err(GicError::Unknown);
        }
        Ok(
            XScuGic {
                device_id: config.device_id,
                cpu_base: effective_addr,
                handlers: HashMap::new(),
                enabled: HashSet::new(),
                dispatcher_installed: false,
            },
        )
    }

    /// The address at which the controller's processor interface is reached.
    pub fn cpu_base(&self) -> (addr: u32)
        ensures
            addr == self@.cpu_base,
    {
        self.cpu_base
    }

    /// Records the registration of `handler` for the interrupt source `id`,
    /// given the `status` that the driver returned for it. A registration
    /// replaces the one that the source had.
    ///
    /// # Errors
    /// Every status but success is handed back as the error, and the
    /// controller is as it was.
    pub fn connect(&mut self, id: u32, handler: Option<Handler>, status: i32) -> (outcome: Result<
        (),
        i32,
    >)
        ensures
            status != XST_SUCCESS ==> outcome == Err::<(), i32>(status) && final(self)@ == old(
                self,
            )@,
            status == XST_SUCCESS ==> outcome == Ok::<(), i32>(()) && final(self)@ == old(
                self,
            )@.connected(id, handler),
    {
        if status != XST_SUCCESS {
            return Err(status);
        }
        match handler {
            Some(h) => {
                self.handlers.insert(id, h);
            },
            None => {
                self.handlers.remove(&id);
            },
        }
        Ok(())
    }

    /// Clears the registration of the interrupt source `id`. Where the
    /// source has no handler nothing changes.
    pub fn disconnect(&mut self, id: u32)
        ensures
            final(self)@ == old(self)@.disconnected(id),
    {
        self.handlers.remove(&id);
    }

    /// Switches on the delivery of interrupts from the source `id`. The
    /// table of handlers is not touched.
    pub fn enable(&mut self, id: u32)
        ensures
            final(self)@ == old(self)@.with_enabled(id, true),
    {
        self.enabled.insert(id);
    }

    /// Switches off the delivery of interrupts from the source `id`. The
    /// table of handlers is not touched.
    pub fn disable(&mut self, id: u32)
        ensures
            final(self)@ == old(self)@.with_enabled(id, false),
    {
        self.enabled.remove(&id);
    }

    /// Whether delivery from the source `id` is switched on.
    pub fn is_enabled(&self, id: u32) -> (on: bool)
        ensures
            on == self@.enabled.contains(id),
    {
        self.enabled.contains(&id)
    }

    /// The handler registered for the source `id`, if there is one.
    pub fn handler(&self, id: u32) -> (found: Option<Handler>)
        ensures
            found == if self@.handlers.contains_key(id) {
                Some(self@.handlers[id])
            } else {
                None
            },
    {
        match self.handlers.get(&id) {
            Some(h) => Some(*h),
            None => None,
        }
    }

    /// Records that the controller's dispatcher was installed as the target
    /// of the processor's interrupt exception.
    pub fn exception_register_handler(&mut self)
        ensures
            final(self)@ == (GicView { dispatcher_installed: true, ..old(self)@ }),
    {
        self.dispatcher_installed = true;
    }

    /// Records that the target of the processor's interrupt exception was
    /// removed.
    pub fn exception_remove_handler(&mut self)
        ensures
            final(self)@ == (GicView { dispatcher_installed: false, ..old(self)@ }),
    {
        self.dispatcher_installed = false;
    }

    /// Whether the controller's dispatcher is installed.
    pub fn is_dispatcher_installed(&self) -> (installed: bool)
        ensures
            installed == self@.dispatcher_installed,
    {
        self.dispatcher_installed
    }

    /// The handler to run when the source `id` raises its interrupt at the
    /// controller: the one registered for the source if the source is
    /// enabled, none otherwise.
    pub fn dispatch(&self, id: u32) -> (run: Option<Handler>)
        ensures
            run == self@.dispatch(id),
    {
        if self.enabled.contains(&id) {
            self.handler(id)
        } else {
            None
        }
    }

    /// The handler to run when the source `id` raises its interrupt while
    /// the processor's status register holds `cpsr`: the one that
    /// [`XScuGic::dispatch`] names, if the dispatcher is installed and the
    /// processor does not mask interrupts; none otherwise.
    pub fn deliver(&self, cpsr: u32, id: u32) -> (run: Option<Handler>)
        ensures
            run == self@.deliver(cpsr, id),
    {
        if self.dispatcher_installed && cpsr & XIL_EXCEPTION_IRQ == 0 {
            self.dispatch(id)
        } else {
            None
        }
    }

    /// Masks the fast-interrupt line: clears the fast-interrupt bit in the
    /// control register at `gic_base` in `regs` and keeps its other bits. No
    /// other register changes.
    pub fn disable_fiq(&self, regs: &mut RegisterFile, gic_base: u32)
        ensures
            final(regs)@ == old(regs)@.insert(
                gic_base,
                spec_fiq_disabled(word_at(old(regs)@, gic_base)),
            ),
    {
        let reg = regs.read_reg(gic_base, 0);
        regs.write_reg(gic_base, 0, fiq_disabled(reg));
    }
}

/// The word to write to a control register that holds `control` so that
/// the fast-interrupt line is masked: the fast-interrupt bit is cleared,
/// every other bit is kept.
pub fn fiq_disabled(control: u32) -> (word: u32)
    ensures
        word == spec_fiq_disabled(control),
        word & XSCUGIC_CNTR_FIQEN_MASK == 0,
        word & !XSCUGIC_CNTR_FIQEN_MASK == control & !XSCUGIC_CNTR_FIQEN_MASK,
{
    let word: u32 = control & !XSCUGIC_CNTR_FIQEN_MASK;
    assert((control & !0x8u32) & 0x8u32 == 0) by (bit_vector);
    assert((control & !0x8u32) & !0x8u32 == control & !0x8u32) by (bit_vector);
    word
}

//-------------------------------------------------------------------------------------------------
// Interrupt masking at the processor
//-------------------------------------------------------------------------------------------------

/// The word to write to the processor's status register that holds `cpsr`
/// so that the exceptions in `mask` are taken: the bits of `mask` that mask
/// an interrupt are cleared, every other bit is kept.
pub fn xil_exception_enable_mask(cpsr: u32, mask: u32) -> (word: u32)
    ensures
        word == spec_exception_enable_mask(cpsr, mask),
        word & (mask & XIL_EXCEPTION_ALL) == 0,
        word & !(mask & XIL_EXCEPTION_ALL) == cpsr & !(mask & XIL_EXCEPTION_ALL),
{
    let word: u32 = cpsr & !(mask & XIL_EXCEPTION_ALL);
    assert((cpsr & !(mask & 0xC0u32)) & (mask & 0xC0u32) == 0) by (bit_vector);
    assert((cpsr & !(mask & 0xC0u32)) & !(mask & 0xC0u32) == cpsr & !(mask & 0xC0u32))
        by (bit_vector);
    word
}

/// The word to write to the processor's status register that holds `cpsr`
/// so that ordinary interrupts are taken. Only the bit that masks them
/// changes.
pub fn xil_exception_enable(cpsr: u32) -> (word: u32)
    ensures
        word == spec_exception_enable_mask(cpsr, XIL_EXCEPTION_IRQ),
        irq_unmasked(word),
        word & !XIL_EXCEPTION_IRQ == cpsr & !XIL_EXCEPTION_IRQ,
{
    let word = xil_exception_enable_mask(cpsr, XIL_EXCEPTION_IRQ);
    assert((cpsr & !(0x80u32 & 0xC0u32)) & 0x80u32 == 0) by (bit_vector);
    assert((cpsr & !(0x80u32 & 0xC0u32)) & !0x80u32 == cpsr & !0x80u32) by (bit_vector);
    word
}

//-------------------------------------------------------------------------------------------------
// What holds of the operations together
//-------------------------------------------------------------------------------------------------

/// When a handler is connected to a source and the source is then enabled,
/// an interrupt of that source runs exactly that handler.
pub proof fn lemma_connected_enabled_source_runs_handler(gic: GicView, id: u32, handler: Handler)
    ensures
        gic.connected(id, Some(handler)).with_enabled(id, true).dispatch(id) == Some(handler),
{
}

/// When a source is disconnected, an interrupt of that source runs no
/// handler, whether or not the source is enabled and whatever was connected
/// to it before.
pub proof fn lemma_disconnected_source_runs_nothing(gic: GicView, id: u32)
    ensures
        gic.disconnected(id).dispatch(id) is None,
        gic.disconnected(id).with_enabled(id, true).dispatch(id) is None,
{
}

/// A source that is not enabled runs no handler, and disabling is not
/// enabling: after a source was enabled and then disabled its interrupt
/// runs nothing, while its handler stays registered.
pub proof fn lemma_disabled_source_runs_nothing(gic: GicView, id: u32)
    ensures
        gic.with_enabled(id, false).dispatch(id) is None,
        gic.with_enabled(id, true).with_enabled(id, false).dispatch(id) is None,
        gic.with_enabled(id, false).handlers == gic.handlers,
        gic.with_enabled(id, true).handlers == gic.handlers,
{
}

/// Connecting replaces: of two handlers connected to one source in turn the
/// second is the one that runs.
pub proof fn lemma_connect_overwrites(gic: GicView, id: u32, first: Handler, second: Handler)
    ensures
        gic.connected(id, Some(first)).connected(id, Some(second)).with_enabled(id, true).dispatch(
            id,
        ) == Some(second),
{
}

/// What is done to one source leaves every other source as it was.
pub proof fn lemma_sources_are_independent(
    gic: GicView,
    id: u32,
    other: u32,
    handler: Option<Handler>,
    on: bool,
)
    requires
        id != other,
    ensures
        gic.connected(id, handler).dispatch(other) == gic.dispatch(other),
        gic.disconnected(id).dispatch(other) == gic.dispatch(other),
        gic.with_enabled(id, on).dispatch(other) == gic.dispatch(other),
{
}

/// With the dispatcher installed, interrupts unmasked at the processor, a
/// handler connected and its source enabled, an interrupt of that source
/// reaches the handler. Without the dispatcher, or with interrupts masked
/// at the processor, it reaches none.
pub proof fn lemma_armed_source_is_delivered(gic: GicView, cpsr: u32, id: u32, handler: Handler)
    ensures
        ({
            let armed = (GicView { dispatcher_installed: true, ..gic }).connected(
                id,
                Some(handler),
            ).with_enabled(id, true);
            let unmasked = spec_exception_enable_mask(cpsr, XIL_EXCEPTION_IRQ);
            &&& armed.deliver(unmasked, id) == Some(handler)
            &&& (GicView { dispatcher_installed: false, ..armed }).deliver(unmasked, id) is None
            &&& !irq_unmasked(cpsr) ==> armed.deliver(cpsr, id) is None
        }),
{
    assert((cpsr & !(0x80u32 & 0xC0u32)) & 0x80u32 == 0) by (bit_vector);
}

} // verus!
