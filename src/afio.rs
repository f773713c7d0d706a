//! Alternate-function I/O: the remap / debug configuration register and
//! the closed table of CAN pin routings.
use crate::gpio::{
    Alternate, Debugger, Floating, Input, Pin, PA11, PA12, PA15, PB12, PB13, PB3, PB4, PB5, PB6, PB8,
    PB9,
};
use crate::pac::{AFIO, CAN1, CAN2};
use crate::rcc::{Bus, Enable, Rcc};
use crate::sealed::Sealed;
use core::marker::PhantomData;
use vstd::prelude::*;

verus! {

/// SWJ_CFG, bits 26..24 of MAPR: which debug-port functions hold their pins.
pub const SWJ_CFG_MASK: u32 = 0x0700_0000;

pub const SWJ_CFG_SHIFT: u32 = 24;

/// SWJ_CFG value with the full debug port (JTAG and serial wire) enabled.
pub const SWJ_FULL: u32 = 0b000;

/// SWJ_CFG value with JTAG off and serial wire kept.
pub const SWJ_NO_JTAG: u32 = 0b010;

/// CAN1_REMAP, bits 14..13 of MAPR.
pub const CAN1_REMAP_MASK: u32 = 0x0000_6000;

pub const CAN1_REMAP_SHIFT: u32 = 13;

/// CAN2_REMAP, bit 22 of MAPR.
pub const CAN2_REMAP_MASK: u32 = 0x0040_0000;

pub open spec fn swj_field(v: u32) -> u32 {
    (v & SWJ_CFG_MASK) >> SWJ_CFG_SHIFT
}

pub open spec fn can1_field(v: u32) -> u32 {
    (v & CAN1_REMAP_MASK) >> CAN1_REMAP_SHIFT
}

pub open spec fn can2_field(v: u32) -> bool {
    v & CAN2_REMAP_MASK != 0
}

/// `v` with SWJ_CFG replaced by `d` (`d < 8`).
pub open spec fn with_swj(v: u32, d: u32) -> u32 {
    (v & !SWJ_CFG_MASK) | (d << SWJ_CFG_SHIFT)
}

/// `v` with CAN1_REMAP replaced by `p` (`p < 4`).
pub open spec fn with_can1(v: u32, p: u32) -> u32 {
    (v & !CAN1_REMAP_MASK) | (p << CAN1_REMAP_SHIFT)
}

/// `v` with CAN2_REMAP set or cleared.
pub open spec fn with_can2(v: u32, set: bool) -> u32 {
    if set {
        v | CAN2_REMAP_MASK
    } else {
        v & !CAN2_REMAP_MASK
    }
}

/// The SWJ_CFG pattern that goes with the debug-port flag.
pub open spec fn debug_bits(jtag_enabled: bool) -> u32 {
    if jtag_enabled {
        SWJ_FULL
    } else {
        SWJ_NO_JTAG
    }
}

/// One entry of the routing table: the remap field that a pin pairing
/// selects, and the value written there.
#[derive(Clone, Copy, Debug, PartialEq, Eq, Structural)]
pub enum RemapSelection {
    /// CAN1_REMAP takes this two-bit pattern.
    Can1(u32),
    /// CAN2_REMAP is set (`true`) or cleared.
    Can2(bool),
}

impl RemapSelection {
    pub open spec fn valid(self) -> bool {
        match self {
            RemapSelection::Can1(p) => p < 4,
            RemapSelection::Can2(_) => true,
        }
    }

    /// The register value after writing this selection into `v`.
    pub open spec fn apply(self, v: u32) -> u32 {
        match self {
            RemapSelection::Can1(p) => with_can1(v, p),
            RemapSelection::Can2(set) => with_can2(v, set),
        }
    }

    /// Whether register value `v` holds this selection.
    pub open spec fn holds_in(self, v: u32) -> bool {
        match self {
            RemapSelection::Can1(p) => can1_field(v) == p,
            RemapSelection::Can2(set) => can2_field(v) == set,
        }
    }
}

proof fn lemma_swj_of_with_swj(v: u32, d: u32)
    requires
        d < 8,
    ensures
        swj_field(with_swj(v, d)) == d,
{
    assert(((((v & !0x0700_0000u32) | (d << 24u32)) & 0x0700_0000u32) >> 24u32) == d)
        by (bit_vector)
        requires
            d < 8,
    ;
}

/// Writing a valid selection sets its field to the chosen value and leaves
/// the debug-port field as it was.
pub proof fn lemma_selection_written(v: u32, s: RemapSelection)
    requires
        s.valid(),
    ensures
        s.holds_in(s.apply(v)),
        swj_field(s.apply(v)) == swj_field(v),
{
    match s {
        RemapSelection::Can1(p) => {
            assert(((((v & !0x6000u32) | (p << 13u32)) & 0x6000u32) >> 13u32) == p) by (bit_vector)
                requires
                    p < 4,
            ;
            assert(((((v & !0x6000u32) | (p << 13u32)) & 0x0700_0000u32) >> 24u32) == ((v
                & 0x0700_0000u32) >> 24u32)) by (bit_vector)
                requires
                    p < 4,
            ;
        },
        RemapSelection::Can2(set) => {
            assert((v | 0x0040_0000u32) & 0x0040_0000u32 != 0) by (bit_vector);
            assert((v & !0x0040_0000u32) & 0x0040_0000u32 == 0) by (bit_vector);
            assert((((v | 0x0040_0000u32) & 0x0700_0000u32) >> 24u32) == ((v & 0x0700_0000u32)
                >> 24u32)) by (bit_vector);
            assert((((v & !0x0040_0000u32) & 0x0700_0000u32) >> 24u32) == ((v & 0x0700_0000u32)
                >> 24u32)) by (bit_vector);
        },
    }
}

/// Rewriting the debug-port field with the value it already holds changes
/// nothing.
proof fn lemma_with_swj_same(v: u32)
    ensures
        with_swj(v, swj_field(v)) == v,
{
    assert(((v & !0x0700_0000u32) | (((v & 0x0700_0000u32) >> 24u32) << 24u32)) == v)
        by (bit_vector);
}

/// A plain 32-bit configuration register.
pub struct Register {
    value: u32,
}

impl Register {
    pub closed spec fn spec_value(&self) -> u32 {
        self.value
    }

    /// The register at its reset value, zero.
    fn reset() -> (r: Register)
        ensures
            r.spec_value() == 0,
    {
        Register { value: 0 }
    }

    pub fn read(&self) -> (r: u32)
        ensures
            r == self.spec_value(),
    {
        self.value
    }

    pub fn write(&mut self, value: u32)
        ensures
            final(self).spec_value() == value,
    {
        self.value = value;
    }
}

/// Event control register (EVCR).
pub struct EVCR {
    reg: Register,
}

impl EVCR {
    pub closed spec fn spec_reg(&self) -> Register {
        self.reg
    }

    pub fn evcr(&mut self) -> (r: &mut Register)
        ensures
            *r == old(self).spec_reg(),
            final(self).spec_reg() == *final(r),
    {
        &mut self.reg
    }
}

/// External interrupt configuration register 1 (EXTICR1).
pub struct EXTICR1 {
    reg: Register,
}

impl EXTICR1 {
    pub closed spec fn spec_reg(&self) -> Register {
        self.reg
    }

    pub fn exticr1(&mut self) -> (r: &mut Register)
        ensures
            *r == old(self).spec_reg(),
            final(self).spec_reg() == *final(r),
    {
        &mut self.reg
    }
}

/// External interrupt configuration register 2 (EXTICR2).
pub struct EXTICR2 {
    reg: Register,
}

impl EXTICR2 {
    pub closed spec fn spec_reg(&self) -> Register {
        self.reg
    }

    pub fn exticr2(&mut self) -> (r: &mut Register)
        ensures
            *r == old(self).spec_reg(),
            final(self).spec_reg() == *final(r),
    {
        &mut self.reg
    }
}

/// External interrupt configuration register 3 (EXTICR3).
pub struct EXTICR3 {
    reg: Register,
}

impl EXTICR3 {
    pub closed spec fn spec_reg(&self) -> Register {
        self.reg
    }

    pub fn exticr3(&mut self) -> (r: &mut Register)
        ensures
            *r == old(self).spec_reg(),
            final(self).spec_reg() == *final(r),
    {
        &mut self.reg
    }
}

/// External interrupt configuration register 4 (EXTICR4).
pub struct EXTICR4 {
    reg: Register,
}

impl EXTICR4 {
    pub closed spec fn spec_reg(&self) -> Register {
        self.reg
    }

    pub fn exticr4(&mut self) -> (r: &mut Register)
        ensures
            *r == old(self).spec_reg(),
            final(self).spec_reg() == *final(r),
    {
        &mut self.reg
    }
}

/// Second remap and debug configuration register (MAPR2).
pub struct MAPR2 {
    reg: Register,
}

impl MAPR2 {
    pub closed spec fn spec_reg(&self) -> Register {
        self.reg
    }

    pub fn mapr2(&mut self) -> (r: &mut Register)
        ensures
            *r == old(self).spec_reg(),
            final(self).spec_reg() == *final(r),
    {
        &mut self.reg
    }
}

/// Remap and debug I/O configuration register (MAPR), with the debug-port
/// flag that decides its SWJ_CFG field.
///
/// The one handle to the register: every write through it forces SWJ_CFG to
/// the pattern of the flag, whatever the writer asked for.
pub struct MAPR {
    reg: Register,
    jtag_enabled: bool,
}

impl MAPR {
    pub closed spec fn spec_bits(&self) -> u32 {
        self.reg.value
    }

    pub closed spec fn spec_jtag_enabled(&self) -> bool {
        self.jtag_enabled
    }

    /// The register's debug field agrees with the flag.
    pub open spec fn wf(&self) -> bool {
        swj_field(self.spec_bits()) == debug_bits(self.spec_jtag_enabled())
    }

    fn mapr(&mut self) -> (r: &mut Register)
        ensures
            r.spec_value() == old(self).spec_bits(),
            final(r).spec_value() == final(self).spec_bits(),
            final(self).spec_jtag_enabled() == old(self).spec_jtag_enabled(),
    {
        &mut self.reg
    }

    /// Current register value.
    pub fn read(&self) -> (r: u32)
        ensures
            r == self.spec_bits(),
    {
        self.reg.read()
    }

    /// The SWJ_CFG field.
    pub fn swj_cfg(&self) -> (r: u32)
        ensures
            r == swj_field(self.spec_bits()),
    {
        (self.read() & SWJ_CFG_MASK) >> SWJ_CFG_SHIFT
    }

    /// The CAN1_REMAP field.
    pub fn can1_remap(&self) -> (r: u32)
        ensures
            r == can1_field(self.spec_bits()),
    {
        (self.read() & CAN1_REMAP_MASK) >> CAN1_REMAP_SHIFT
    }

    /// The CAN2_REMAP bit.
    pub fn can2_remap(&self) -> (r: bool)
        ensures
            r == can2_field(self.spec_bits()),
    {
        self.read() & CAN2_REMAP_MASK != 0
    }

    /// Whether the JTAG port still holds its pins.
    pub fn jtag_enabled(&self) -> (r: bool)
        ensures
            r == self.spec_jtag_enabled(),
    {
        self.jtag_enabled
    }

    /// Read-modify-write: `mod_fn` maps the current value to the one to
    /// write, and SWJ_CFG of what is written is then set from the flag.
    pub fn modify_mapr<F: FnOnce(u32) -> u32>(&mut self, mod_fn: F)
        requires
            mod_fn.requires((old(self).spec_bits(),)),
        ensures
            final(self).spec_jtag_enabled() == old(self).spec_jtag_enabled(),
            swj_field(final(self).spec_bits()) == debug_bits(old(self).spec_jtag_enabled()),
            final(self).wf(),
            exists|w: u32|
                mod_fn.ensures((old(self).spec_bits(),), w) && final(self).spec_bits() == with_swj(
                    w,
                    debug_bits(old(self).spec_jtag_enabled()),
                ),
    {
        let debug: u32 = if self.jtag_enabled {
            SWJ_FULL
        } else {
            SWJ_NO_JTAG
        };
        let reg = self.mapr();
        let r = reg.read();
        let w = mod_fn(r);
        reg.write((w & !SWJ_CFG_MASK) | (debug << SWJ_CFG_SHIFT));
        proof {
            lemma_swj_of_with_swj(w, debug);
        }
    }

    /// Turns the JTAG port off, keeping serial-wire debug, and hands its
    /// three pins back as floating inputs. Consuming the debug-mode handles
    /// makes a second call impossible to write.
    pub fn disable_jtag(
        &mut self,
        pa15: PA15<Debugger>,
        pb3: PB3<Debugger>,
        pb4: PB4<Debugger>,
    ) -> (r: (PA15<Input<Floating>>, PB3<Input<Floating>>, PB4<Input<Floating>>))
        ensures
            !final(self).spec_jtag_enabled(),
            swj_field(final(self).spec_bits()) == SWJ_NO_JTAG,
            final(self).spec_bits() == with_swj(old(self).spec_bits(), SWJ_NO_JTAG),
            final(self).wf(),
    {
        self.jtag_enabled = false;
        self.modify_mapr(|w: u32| -> (r: u32) ensures r == w { w });
        (pa15.activate(), pb3.activate(), pb4.activate())
    }
}

/// Once the debug port is off, every later write through the handle leaves
/// SWJ_CFG at the JTAG-off pattern and the flag off, whatever value `w` the
/// writer's transform produced, the full-debug pattern included.
pub proof fn lemma_debug_override_wins(before: MAPR, after: MAPR, w: u32)
    requires
        !before.spec_jtag_enabled(),
        after.spec_jtag_enabled() == before.spec_jtag_enabled(),
        after.spec_bits() == with_swj(w, debug_bits(before.spec_jtag_enabled())),
    ensures
        swj_field(after.spec_bits()) == SWJ_NO_JTAG,
        !after.spec_jtag_enabled(),
        after.wf(),
{
    lemma_swj_of_with_swj(w, SWJ_NO_JTAG);
}

/// The AFIO registers, split into one owned handle each.
pub struct Parts {
    pub evcr: EVCR,
    pub mapr: MAPR,
    pub exticr1: EXTICR1,
    pub exticr2: EXTICR2,
    pub exticr3: EXTICR3,
    pub exticr4: EXTICR4,
    pub mapr2: MAPR2,
}

impl Parts {
    /// Every register at its reset value and the debug port enabled.
    pub open spec fn at_reset(&self) -> bool {
        &&& self.mapr.spec_bits() == 0
        &&& self.mapr.spec_jtag_enabled()
        &&& self.mapr.wf()
        &&& self.evcr.spec_reg().spec_value() == 0
        &&& self.exticr1.spec_reg().spec_value() == 0
        &&& self.exticr2.spec_reg().spec_value() == 0
        &&& self.exticr3.spec_reg().spec_value() == 0
        &&& self.exticr4.spec_reg().spec_value() == 0
        &&& self.mapr2.spec_reg().spec_value() == 0
    }
}

/// Splitting the AFIO token into its register handles.
pub trait AfioExt {
    /// Switches the AFIO clock on, resets the block, and returns its
    /// registers. Consuming the token makes this happen once per program.
    fn constrain(self, rcc: &mut Rcc) -> (r: Parts)
        ensures
            r.at_reset(),
            final(rcc).enabled_from(*old(rcc), Bus::Apb2, 0),
    ;
}

impl AfioExt for AFIO {
    fn constrain(self, rcc: &mut Rcc) -> (r: Parts) {
        AFIO::enable(rcc);
        proof {
            assert(swj_field(0) == 0) by (bit_vector);
        }
        Parts {
            evcr: EVCR { reg: Register::reset() },
            mapr: MAPR { reg: Register::reset(), jtag_enabled: true },
            exticr1: EXTICR1 { reg: Register::reset() },
            exticr2: EXTICR2 { reg: Register::reset() },
            exticr3: EXTICR3 { reg: Register::reset() },
            exticr4: EXTICR4 { reg: Register::reset() },
            mapr2: MAPR2 { reg: Register::reset() },
        }
    }
}

/// Proof that pins `PINS` were routed to peripheral `PER`. Only `remap`
/// makes one, after writing the routing.
pub struct Alt<PER, PINS> {
    _pins: PINS,
    _marker: PhantomData<PER>,
}

/// Pins that are routed to `PER`.
pub trait Pins<PER>: Sealed {}

impl<PER, PINS> Sealed for Alt<PER, PINS> {}

impl<PER, PINS> Pins<PER> for Alt<PER, PINS> {}

/// A transmit / receive pin pairing that may be routed to `PER`. The impls
/// below are the whole table; the trait is sealed.
pub trait Remap<PER>: Sealed + Sized {
    /// Which field this pairing selects, and its value.
    spec fn spec_selection() -> RemapSelection;

    /// Writes the pairing's selection through the register handle and
    /// takes the pins, returning the proof of routing.
    fn remap(self, mapr: &mut MAPR) -> (r: Alt<PER, Self>)
        requires
            old(mapr).wf(),
        ensures
            Self::spec_selection().valid(),
            final(mapr).wf(),
            final(mapr).spec_jtag_enabled() == old(mapr).spec_jtag_enabled(),
            final(mapr).spec_bits() == Self::spec_selection().apply(old(mapr).spec_bits()),
            Self::spec_selection().holds_in(final(mapr).spec_bits()),
            swj_field(final(mapr).spec_bits()) == swj_field(old(mapr).spec_bits()),
    ;
}

impl<
    const P1: u8,
    const N1: u8,
    MODE1,
    const P2: u8,
    const N2: u8,
    MODE2,
> Sealed for (Pin<P1, N1, MODE1>, Pin<P2, N2, MODE2>) {}

fn set_can1(w: u32, p: u32) -> (r: u32)
    ensures
        r == with_can1(w, p),
{
    (w & !CAN1_REMAP_MASK) | (p << CAN1_REMAP_SHIFT)
}

fn set_can2(w: u32, set: bool) -> (r: u32)
    ensures
        r == with_can2(w, set),
{
    if set {
        w | CAN2_REMAP_MASK
    } else {
        w & !CAN2_REMAP_MASK
    }
}

/// Writes selection `s` through `mapr`, keeping its debug field.
fn write_selection(mapr: &mut MAPR, s: RemapSelection)
    requires
        old(mapr).wf(),
        s.valid(),
    ensures
        final(mapr).wf(),
        final(mapr).spec_jtag_enabled() == old(mapr).spec_jtag_enabled(),
        final(mapr).spec_bits() == s.apply(old(mapr).spec_bits()),
        s.holds_in(final(mapr).spec_bits()),
        swj_field(final(mapr).spec_bits()) == swj_field(old(mapr).spec_bits()),
{
    match s {
        RemapSelection::Can1(p) => {
            mapr.modify_mapr(|w: u32| -> (r: u32) ensures r == with_can1(w, p) { set_can1(w, p) });
        },
        RemapSelection::Can2(set) => {
            mapr.modify_mapr(|w: u32| -> (r: u32) ensures r == with_can2(w, set) { set_can2(w, set) });
        },
    }
    proof {
        let v = old(mapr).spec_bits();
        lemma_selection_written(v, s);
        lemma_with_swj_same(s.apply(v));
    }
}

/// CAN1 on PA12 (TX) / PA11 (RX): CAN1_REMAP = 0b00.
impl<INMODE, OUTMODE> Remap<CAN1> for (PA12<Alternate<OUTMODE>>, PA11<Input<INMODE>>) {
    open spec fn spec_selection() -> RemapSelection {
        RemapSelection::Can1(0b00)
    }

    fn remap(self, mapr: &mut MAPR) -> (r: Alt<CAN1, Self>) {
        write_selection(mapr, RemapSelection::Can1(0b00));
        Alt { _pins: self, _marker: PhantomData }
    }
}

/// CAN1 on PB9 (TX) / PB8 (RX): CAN1_REMAP = 0b10.
impl<INMODE, OUTMODE> Remap<CAN1> for (PB9<Alternate<OUTMODE>>, PB8<Input<INMODE>>) {
    open spec fn spec_selection() -> RemapSelection {
        RemapSelection::Can1(0b10)
    }

    fn remap(self, mapr: &mut MAPR) -> (r: Alt<CAN1, Self>) {
        write_selection(mapr, RemapSelection::Can1(0b10));
        Alt { _pins: self, _marker: PhantomData }
    }
}

/// CAN2 on PB13 (TX) / PB12 (RX): CAN2_REMAP cleared.
impl<INMODE, OUTMODE> Remap<CAN2> for (PB13<Alternate<OUTMODE>>, PB12<Input<INMODE>>) {
    open spec fn spec_selection() -> RemapSelection {
        RemapSelection::Can2(false)
    }

    fn remap(self, mapr: &mut MAPR) -> (r: Alt<CAN2, Self>) {
        write_selection(mapr, RemapSelection::Can2(false));
        Alt { _pins: self, _marker: PhantomData }
    }
}

/// CAN2 on PB6 (TX) / PB5 (RX): CAN2_REMAP set.
impl<INMODE, OUTMODE> Remap<CAN2> for (PB6<Alternate<OUTMODE>>, PB5<Input<INMODE>>) {
    open spec fn spec_selection() -> RemapSelection {
        RemapSelection::Can2(true)
    }

    fn remap(self, mapr: &mut MAPR) -> (r: Alt<CAN2, Self>) {
        write_selection(mapr, RemapSelection::Can2(true));
        Alt { _pins: self, _marker: PhantomData }
    }
}

} // verus!
