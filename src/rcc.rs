//! Clock-enable state of the reset and clock controller.
use crate::pac::{AFIO, CAN1, CAN2};
use vstd::prelude::*;

verus! {

/// The two peripheral buses, each with its own clock-enable register.
#[derive(Clone, Copy, Debug, PartialEq, Eq, Structural)]
pub enum Bus {
    Apb1,
    Apb2,
}

pub open spec fn other_bus(bus: Bus) -> Bus {
    match bus {
        Bus::Apb1 => Bus::Apb2,
        Bus::Apb2 => Bus::Apb1,
    }
}

/// The clock-enable registers (APB1ENR, APB2ENR).
pub struct Rcc {
    apb1enr: u32,
    apb2enr: u32,
}

impl Rcc {
    /// Value of the clock-enable register of `bus`.
    pub closed spec fn spec_enr(&self, bus: Bus) -> u32 {
        match bus {
            Bus::Apb1 => self.apb1enr,
            Bus::Apb2 => self.apb2enr,
        }
    }

    pub open spec fn all_disabled(&self) -> bool {
        self.spec_enr(Bus::Apb1) == 0 && self.spec_enr(Bus::Apb2) == 0
    }

    pub open spec fn spec_is_enabled(&self, bus: Bus, bit: u32) -> bool {
        (self.spec_enr(bus) >> bit) & 1 == 1
    }

    /// `self` is `old` with clock `bit` of `bus` switched on and nothing
    /// else changed.
    pub open spec fn enabled_from(&self, old: Rcc, bus: Bus, bit: u32) -> bool {
        &&& self.spec_enr(bus) == old.spec_enr(bus) | (1u32 << bit)
        &&& self.spec_enr(other_bus(bus)) == old.spec_enr(other_bus(bus))
    }

    /// The registers as they read after a power-on reset: every clock off.
    pub(crate) fn reset_state() -> (r: Rcc)
        ensures
            r.all_disabled(),
    {
        Rcc { apb1enr: 0, apb2enr: 0 }
    }

    pub fn enr(&self, bus: Bus) -> (r: u32)
        ensures
            r == self.spec_enr(bus),
    {
        match bus {
            Bus::Apb1 => self.apb1enr,
            Bus::Apb2 => self.apb2enr,
        }
    }

    /// Whether clock `bit` of `bus` is on.
    pub fn is_enabled(&self, bus: Bus, bit: u32) -> (r: bool)
        requires
            bit < 32,
        ensures
            r == self.spec_is_enabled(bus, bit),
    {
        (self.enr(bus) >> bit) & 1 == 1
    }

    /// Switches on clock `bit` of `bus` (a read-modify-write of its register).
    pub(crate) fn set_enable(&mut self, bus: Bus, bit: u32)
        requires
            bit < 32,
        ensures
            final(self).enabled_from(*old(self), bus, bit),
    {
        match bus {
            Bus::Apb1 => self.apb1enr = self.apb1enr | (1u32 << bit),
            Bus::Apb2 => self.apb2enr = self.apb2enr | (1u32 << bit),
        }
    }
}

/// A peripheral whose clock has one enable bit.
pub trait Enable {
    spec fn spec_bus() -> Bus;

    spec fn spec_bit() -> u32;

    /// Switches the peripheral's clock on.
    fn enable(rcc: &mut Rcc)
        ensures
            Self::spec_bit() < 32,
            final(rcc).enabled_from(*old(rcc), Self::spec_bus(), Self::spec_bit()),
    ;
}

impl Enable for AFIO {
    open spec fn spec_bus() -> Bus {
        Bus::Apb2
    }

    open spec fn spec_bit() -> u32 {
        0
    }

    fn enable(rcc: &mut Rcc) {
        rcc.set_enable(Bus::Apb2, 0);
    }
}

impl Enable for CAN1 {
    open spec fn spec_bus() -> Bus {
        Bus::Apb1
    }

    open spec fn spec_bit() -> u32 {
        25
    }

    fn enable(rcc: &mut Rcc) {
        rcc.set_enable(Bus::Apb1, 25);
    }
}

impl Enable for CAN2 {
    open spec fn spec_bus() -> Bus {
        Bus::Apb1
    }

    open spec fn spec_bit() -> u32 {
        26
    }

    fn enable(rcc: &mut Rcc) {
        rcc.set_enable(Bus::Apb1, 26);
    }
}

} // verus!
