//! Pin handles, typed by port, line and mode.
use core::marker::PhantomData;
use vstd::prelude::*;

verus! {

/// Pull of an input line.
#[derive(Clone, Copy, Debug, PartialEq, Eq, Structural)]
pub enum InputMode {
    Floating,
    PullUp,
    PullDown,
}

/// Driver of an alternate-function output line.
#[derive(Clone, Copy, Debug, PartialEq, Eq, Structural)]
pub enum OutputMode {
    PushPull,
    OpenDrain,
}

/// The function a line currently serves.
#[derive(Clone, Copy, Debug, PartialEq, Eq, Structural)]
pub enum PinMode {
    /// Claimed by the debug port: neither readable nor writable.
    Debugger,
    Input(InputMode),
    Alternate(OutputMode),
}

/// Type-level tag of an input pull.
pub trait InputKind {
    spec fn spec_input() -> InputMode;

    fn input() -> (r: InputMode)
        ensures
            r == Self::spec_input(),
    ;
}

/// Type-level tag of an output driver.
pub trait OutputKind {
    spec fn spec_output() -> OutputMode;

    fn output() -> (r: OutputMode)
        ensures
            r == Self::spec_output(),
    ;
}

/// Type-level tag of a pin mode.
pub trait ModeTag {
    spec fn spec_mode() -> PinMode;

    fn mode() -> (r: PinMode)
        ensures
            r == Self::spec_mode(),
    ;
}

/// Modes that the application may reconfigure freely (all but `Debugger`).
pub trait Active: ModeTag {}

pub struct Floating;

pub struct PullUp;

pub struct PullDown;

pub struct PushPull;

pub struct OpenDrain;

/// Line owned by the debug port.
pub struct Debugger;

/// Input line with pull `PULL`.
pub struct Input<PULL> {
    _pull: PhantomData<PULL>,
}

/// Alternate-function output line driven as `OUT`.
pub struct Alternate<OUT> {
    _out: PhantomData<OUT>,
}

impl InputKind for Floating {
    open spec fn spec_input() -> InputMode {
        InputMode::Floating
    }

    fn input() -> (r: InputMode) {
        InputMode::Floating
    }
}

impl InputKind for PullUp {
    open spec fn spec_input() -> InputMode {
        InputMode::PullUp
    }

    fn input() -> (r: InputMode) {
        InputMode::PullUp
    }
}

impl InputKind for PullDown {
    open spec fn spec_input() -> InputMode {
        InputMode::PullDown
    }

    fn input() -> (r: InputMode) {
        InputMode::PullDown
    }
}

impl OutputKind for PushPull {
    open spec fn spec_output() -> OutputMode {
        OutputMode::PushPull
    }

    fn output() -> (r: OutputMode) {
        OutputMode::PushPull
    }
}

impl OutputKind for OpenDrain {
    open spec fn spec_output() -> OutputMode {
        OutputMode::OpenDrain
    }

    fn output() -> (r: OutputMode) {
        OutputMode::OpenDrain
    }
}

impl ModeTag for Debugger {
    open spec fn spec_mode() -> PinMode {
        PinMode::Debugger
    }

    fn mode() -> (r: PinMode) {
        PinMode::Debugger
    }
}

impl<PULL: InputKind> ModeTag for Input<PULL> {
    open spec fn spec_mode() -> PinMode {
        PinMode::Input(PULL::spec_input())
    }

    fn mode() -> (r: PinMode) {
        PinMode::Input(PULL::input())
    }
}

impl<OUT: OutputKind> ModeTag for Alternate<OUT> {
    open spec fn spec_mode() -> PinMode {
        PinMode::Alternate(OUT::spec_output())
    }

    fn mode() -> (r: PinMode) {
        PinMode::Alternate(OUT::output())
    }
}

impl<PULL: InputKind> Active for Input<PULL> {}

impl<OUT: OutputKind> Active for Alternate<OUT> {}

/// Index of port A, as `Pin` records it.
pub const PORT_A: u8 = 0;

/// Index of port B, as `Pin` records it.
pub const PORT_B: u8 = 1;

/// One physical line, line `N` of port `P`, in mode `MODE`.
///
/// A handle is moved, never copied: a change of mode consumes it and yields
/// the handle in the new mode, so a line is never held in two modes at once.
pub struct Pin<const P: u8, const N: u8, MODE> {
    _mode: PhantomData<MODE>,
}

pub type PA11<MODE> = Pin<0, 11, MODE>;

pub type PA12<MODE> = Pin<0, 12, MODE>;

pub type PA15<MODE> = Pin<0, 15, MODE>;

pub type PB3<MODE> = Pin<1, 3, MODE>;

pub type PB4<MODE> = Pin<1, 4, MODE>;

pub type PB5<MODE> = Pin<1, 5, MODE>;

pub type PB6<MODE> = Pin<1, 6, MODE>;

pub type PB8<MODE> = Pin<1, 8, MODE>;

pub type PB9<MODE> = Pin<1, 9, MODE>;

pub type PB12<MODE> = Pin<1, 12, MODE>;

pub type PB13<MODE> = Pin<1, 13, MODE>;

impl<const P: u8, const N: u8, MODE> Pin<P, N, MODE> {
    /// Index of the line's port.
    pub fn port(&self) -> (r: u8)
        ensures
            r == P,
    {
        P
    }

    /// Number of the line within its port.
    pub fn number(&self) -> (r: u8)
        ensures
            r == N,
    {
        N
    }
}

impl<const P: u8, const N: u8, MODE: ModeTag> Pin<P, N, MODE> {
    /// The mode that the handle's type records.
    pub fn mode(&self) -> (r: PinMode)
        ensures
            r == MODE::spec_mode(),
    {
        MODE::mode()
    }
}

impl<const P: u8, const N: u8> Pin<P, N, Input<Floating>> {
    /// Takes a line in its reset state, a floating input.
    pub fn new() -> (r: Self) {
        Pin { _mode: PhantomData }
    }
}

impl<const P: u8, const N: u8> Pin<P, N, Debugger> {
    /// Hands a debug-port line over as a floating input. Only the debug-port
    /// release in `afio` calls this, once the port no longer drives the line.
    pub(crate) fn activate(self) -> (r: Pin<P, N, Input<Floating>>) {
        Pin { _mode: PhantomData }
    }
}

impl<const P: u8, const N: u8, MODE: Active> Pin<P, N, MODE> {
    pub fn into_floating_input(self) -> (r: Pin<P, N, Input<Floating>>) {
        Pin { _mode: PhantomData }
    }

    pub fn into_pull_up_input(self) -> (r: Pin<P, N, Input<PullUp>>) {
        Pin { _mode: PhantomData }
    }

    pub fn into_pull_down_input(self) -> (r: Pin<P, N, Input<PullDown>>) {
        Pin { _mode: PhantomData }
    }

    pub fn into_alternate_push_pull(self) -> (r: Pin<P, N, Alternate<PushPull>>) {
        Pin { _mode: PhantomData }
    }

    pub fn into_alternate_open_drain(self) -> (r: Pin<P, N, Alternate<OpenDrain>>) {
        Pin { _mode: PhantomData }
    }
}

/// The three lines that the debug port claims at reset: JTDI, JTDO and
/// NJTRST.
pub struct DebugPins {
    pub pa15: PA15<Debugger>,
    pub pb3: PB3<Debugger>,
    pub pb4: PB4<Debugger>,
}

impl DebugPins {
    /// The debug lines as the port holds them at reset.
    pub(crate) fn claimed() -> (r: DebugPins) {
        DebugPins {
            pa15: Pin { _mode: PhantomData },
            pb3: Pin { _mode: PhantomData },
            pb4: Pin { _mode: PhantomData },
        }
    }
}

} // verus!
