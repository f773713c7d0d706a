//! Owning façade over a CAN controller.
//!
//! | Function | CAN1 | CAN1 remapped | CAN2 | CAN2 remapped |
//! |----------|------|---------------|------|---------------|
//! | TX       | PA12 | PB9           | PB13 | PB6           |
//! | RX       | PA11 | PB8           | PB12 | PB5           |
//!
//! TX is an alternate-function output, RX an input.
use crate::afio::Pins;
use crate::pac::{CAN1, CAN2, USB};
use crate::rcc::{Enable, Rcc};
use crate::sealed::Sealed;
use vstd::prelude::*;

verus! {

/// Filter banks of the controller pair; the master owns them and may lend
/// some to the second controller.
pub const NUM_FILTER_BANKS: u8 = 28;

/// Base address of the CAN1 register block.
pub const CAN1_BASE: u32 = 0x4000_6400;

/// Base address of the CAN2 register block.
pub const CAN2_BASE: u32 = 0x4000_6800;

/// A CAN controller that a façade can own.
pub trait CanInstance: Enable + Sealed {
    spec fn spec_base_address() -> u32;

    /// Whether this controller owns the filter banks and arbitrates the
    /// pair: true of CAN1 alone.
    spec fn spec_is_master() -> bool;

    fn base_address() -> (r: u32)
        ensures
            r == Self::spec_base_address(),
    ;

    fn is_master() -> (r: bool)
        ensures
            r == Self::spec_is_master(),
    ;
}

impl Sealed for CAN1 {}

impl Sealed for CAN2 {}

impl CanInstance for CAN1 {
    open spec fn spec_base_address() -> u32 {
        CAN1_BASE
    }

    open spec fn spec_is_master() -> bool {
        true
    }

    fn base_address() -> (r: u32) {
        CAN1_BASE
    }

    fn is_master() -> (r: bool) {
        true
    }
}

impl CanInstance for CAN2 {
    open spec fn spec_base_address() -> u32 {
        CAN2_BASE
    }

    open spec fn spec_is_master() -> bool {
        false
    }

    fn base_address() -> (r: u32) {
        CAN2_BASE
    }

    fn is_master() -> (r: bool) {
        false
    }
}

/// Interface to one CAN controller.
pub struct Can<Instance> {
    _peripheral: Instance,
}

impl<Instance: CanInstance> Can<Instance> {
    /// Creates the interface and switches the controller's clock on.
    ///
    /// CAN shares its packet memory with USB on the smaller parts: the USB
    /// token is taken, and held, so that USB cannot be used beside it.
    pub fn new(can: Instance, _usb: USB, rcc: &mut Rcc) -> (r: Can<Instance>)
        ensures
            final(rcc).enabled_from(*old(rcc), Instance::spec_bus(), Instance::spec_bit()),
    {
        Instance::enable(rcc);
        Can { _peripheral: can }
    }

    /// Creates the interface on a connectivity-line part, where CAN has
    /// memory of its own, and switches the controller's clock on.
    pub fn new_connectivity(can: Instance, rcc: &mut Rcc) -> (r: Can<Instance>)
        ensures
            final(rcc).enabled_from(*old(rcc), Instance::spec_bus(), Instance::spec_bit()),
    {
        Instance::enable(rcc);
        Can { _peripheral: can }
    }

    /// Routes the TX and RX signals to pins. Only a routing made for this
    /// controller is accepted; the register write took place when it was
    /// made.
    pub fn assign_pins<P>(&self, _pins: P) where P: Pins<Instance> {
    }

    /// Base address of the controller's register block.
    pub fn base_address(&self) -> (r: u32)
        ensures
            r == Instance::spec_base_address(),
    {
        Instance::base_address()
    }

    /// Number of filter banks of the controller pair.
    pub fn num_filter_banks(&self) -> (r: u8)
        ensures
            r == NUM_FILTER_BANKS,
    {
        NUM_FILTER_BANKS
    }

    /// Whether this controller is the arbitration master of the pair.
    pub fn is_master(&self) -> (r: bool)
        ensures
            r == Instance::spec_is_master(),
    {
        Instance::is_master()
    }
}

} // verus!
