//! Ownership tokens of the peripherals, handed out once per program.
use crate::gpio::DebugPins;
use crate::rcc::Rcc;
use vstd::prelude::*;

verus! {

/// Exclusive possession of the alternate-function I/O controller.
pub struct AFIO {
    _0: (),
}

/// Exclusive possession of the first CAN controller.
pub struct CAN1 {
    _0: (),
}

/// Exclusive possession of the second CAN controller (connectivity line).
pub struct CAN2 {
    _0: (),
}

/// Exclusive possession of the USB controller, which shares its packet
/// memory with the CAN controllers on the smaller parts.
pub struct USB {
    _0: (),
}

/// Every ownership token, together with the lines that the debug port holds
/// at reset.
pub struct Peripherals {
    pub rcc: Rcc,
    pub afio: AFIO,
    pub can1: CAN1,
    pub can2: CAN2,
    pub usb: USB,
    pub debug_pins: DebugPins,
}

impl Peripherals {
    /// Hands out the tokens the first time it is asked and nothing after.
    /// `taken` is the process-wide record of whether that has happened; the
    /// caller keeps it in one place for the whole run.
    pub fn take(taken: &mut bool) -> (r: Option<Peripherals>)
        ensures
            r is Some <==> !*old(taken),
            *final(taken),
            r matches Some(p) ==> p.rcc.all_disabled(),
    {
        if *taken {
            None
        } else {
            *taken = true;
            Some(
                Peripherals {
                    rcc: Rcc::reset_state(),
                    afio: AFIO { _0: () },
                    can1: CAN1 { _0: () },
                    can2: CAN2 { _0: () },
                    usb: USB { _0: () },
                    debug_pins: DebugPins::claimed(),
                },
            )
        }
    }
}

} // verus!
