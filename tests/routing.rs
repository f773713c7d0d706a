use afio_remap::afio::{AfioExt, Remap, SWJ_FULL, SWJ_NO_JTAG};
use afio_remap::can::{Can, CAN1_BASE, CAN2_BASE, NUM_FILTER_BANKS};
use afio_remap::gpio::{
    DebugPins, Floating, Input, InputMode, OutputMode, PinMode, PA11, PA12, PB12, PB13, PB5, PB6,
    PB8, PB9, PORT_A, PORT_B,
};
use afio_remap::pac::Peripherals;
use afio_remap::rcc::Bus;

fn peripherals() -> Peripherals {
    let mut taken = false;
    Peripherals::take(&mut taken).unwrap()
}

#[test]
fn take_hands_out_tokens_once() {
    let mut taken = false;
    assert!(Peripherals::take(&mut taken).is_some());
    assert!(taken);
    assert!(Peripherals::take(&mut taken).is_none());
    assert!(taken);
}

#[test]
fn constrain_enables_afio_clock_and_resets_registers() {
    let p = peripherals();
    let mut rcc = p.rcc;
    assert_eq!(rcc.enr(Bus::Apb2), 0);
    let mut parts = p.afio.constrain(&mut rcc);
    assert_eq!(rcc.enr(Bus::Apb2), 1);
    assert_eq!(rcc.enr(Bus::Apb1), 0);
    assert!(rcc.is_enabled(Bus::Apb2, 0));
    assert_eq!(parts.mapr.read(), 0);
    assert!(parts.mapr.jtag_enabled());
    assert_eq!(parts.evcr.evcr().read(), 0);
    assert_eq!(parts.exticr1.exticr1().read(), 0);
    assert_eq!(parts.exticr2.exticr2().read(), 0);
    assert_eq!(parts.exticr3.exticr3().read(), 0);
    assert_eq!(parts.exticr4.exticr4().read(), 0);
    assert_eq!(parts.mapr2.mapr2().read(), 0);
}

#[test]
fn plain_registers_keep_what_is_written() {
    let p = peripherals();
    let mut rcc = p.rcc;
    let mut parts = p.afio.constrain(&mut rcc);
    parts.exticr2.exticr2().write(0x1234);
    assert_eq!(parts.exticr2.exticr2().read(), 0x1234);
    parts.evcr.evcr().write(0x80);
    assert_eq!(parts.evcr.evcr().read(), 0x80);
}

#[test]
fn scenario_remap_can1_secondary_pins() {
    let p = peripherals();
    let mut rcc = p.rcc;
    let mut parts = p.afio.constrain(&mut rcc);
    let tx = PB9::<Input<Floating>>::new().into_alternate_push_pull();
    let rx = PB8::<Input<Floating>>::new();
    let _routed = (tx, rx).remap(&mut parts.mapr);
    assert_eq!(parts.mapr.can1_remap(), 0b10);
    assert_eq!(parts.mapr.swj_cfg(), SWJ_FULL);
    assert_eq!(parts.mapr.read(), 0b10 << 13);
}

#[test]
fn remap_can1_default_pins_clears_field() {
    let p = peripherals();
    let mut rcc = p.rcc;
    let mut parts = p.afio.constrain(&mut rcc);
    let tx = PB9::<Input<Floating>>::new().into_alternate_push_pull();
    let rx = PB8::<Input<Floating>>::new();
    let _ = (tx, rx).remap(&mut parts.mapr);
    let tx = PA12::<Input<Floating>>::new().into_alternate_open_drain();
    let rx = PA11::<Input<Floating>>::new().into_pull_up_input();
    let _ = (tx, rx).remap(&mut parts.mapr);
    assert_eq!(parts.mapr.can1_remap(), 0);
    assert_eq!(parts.mapr.read(), 0);
}

#[test]
fn remap_keeps_unrelated_bits() {
    let p = peripherals();
    let mut rcc = p.rcc;
    let mut parts = p.afio.constrain(&mut rcc);
    parts.mapr.modify_mapr(|w| w | 0x0000_0005);
    let tx = PB6::<Input<Floating>>::new().into_alternate_push_pull();
    let rx = PB5::<Input<Floating>>::new();
    let _ = (tx, rx).remap(&mut parts.mapr);
    assert_eq!(parts.mapr.read(), 0x0040_0005);
    assert!(parts.mapr.can2_remap());
    let tx = PB13::<Input<Floating>>::new().into_alternate_push_pull();
    let rx = PB12::<Input<Floating>>::new();
    let _ = (tx, rx).remap(&mut parts.mapr);
    assert_eq!(parts.mapr.read(), 0x0000_0005);
    assert!(!parts.mapr.can2_remap());
}

#[test]
fn remap_after_jtag_disabled_keeps_debug_field() {
    let p = peripherals();
    let mut rcc = p.rcc;
    let mut parts = p.afio.constrain(&mut rcc);
    let DebugPins { pa15, pb3, pb4 } = p.debug_pins;
    let _ = parts.mapr.disable_jtag(pa15, pb3, pb4);
    let tx = PB9::<Input<Floating>>::new().into_alternate_push_pull();
    let rx = PB8::<Input<Floating>>::new();
    let _ = (tx, rx).remap(&mut parts.mapr);
    assert_eq!(parts.mapr.swj_cfg(), SWJ_NO_JTAG);
    assert_eq!(parts.mapr.can1_remap(), 0b10);
    assert_eq!(parts.mapr.read(), 0x0200_4000);
}

#[test]
fn scenario_disable_debug_port() {
    let p = peripherals();
    let mut rcc = p.rcc;
    let mut parts = p.afio.constrain(&mut rcc);
    let DebugPins { pa15, pb3, pb4 } = p.debug_pins;
    assert_eq!(pa15.mode(), PinMode::Debugger);
    let (pa15, pb3, pb4) = parts.mapr.disable_jtag(pa15, pb3, pb4);
    assert_eq!(parts.mapr.swj_cfg(), SWJ_NO_JTAG);
    assert!(!parts.mapr.jtag_enabled());
    assert_eq!(parts.mapr.read(), 0x0200_0000);
    let floating = PinMode::Input(InputMode::Floating);
    assert_eq!(pa15.mode(), floating);
    assert_eq!(pb3.mode(), floating);
    assert_eq!(pb4.mode(), floating);
    assert_eq!((pa15.port(), pa15.number()), (PORT_A, 15));
    assert_eq!((pb3.port(), pb3.number()), (PORT_B, 3));
    assert_eq!((pb4.port(), pb4.number()), (PORT_B, 4));
}

#[test]
fn override_wins_after_debug_port_disabled() {
    let p = peripherals();
    let mut rcc = p.rcc;
    let mut parts = p.afio.constrain(&mut rcc);
    let DebugPins { pa15, pb3, pb4 } = p.debug_pins;
    let _ = parts.mapr.disable_jtag(pa15, pb3, pb4);
    parts.mapr.modify_mapr(|w| w & !0x0700_0000);
    assert_eq!(parts.mapr.swj_cfg(), SWJ_NO_JTAG);
    parts.mapr.modify_mapr(|_| 0x0700_0001);
    assert_eq!(parts.mapr.swj_cfg(), SWJ_NO_JTAG);
    assert_eq!(parts.mapr.read(), 0x0200_0001);
    assert!(!parts.mapr.jtag_enabled());
}

#[test]
fn override_wins_while_debug_port_enabled() {
    let p = peripherals();
    let mut rcc = p.rcc;
    let mut parts = p.afio.constrain(&mut rcc);
    parts.mapr.modify_mapr(|_| 0x0400_6000);
    assert_eq!(parts.mapr.swj_cfg(), SWJ_FULL);
    assert_eq!(parts.mapr.can1_remap(), 0b11);
    assert_eq!(parts.mapr.read(), 0x0000_6000);
}

#[test]
fn scenario_can2_facade_with_remapped_pins() {
    let p = peripherals();
    let mut rcc = p.rcc;
    let mut parts = p.afio.constrain(&mut rcc);
    let tx = PB6::<Input<Floating>>::new().into_alternate_push_pull();
    let rx = PB5::<Input<Floating>>::new();
    let routed = (tx, rx).remap(&mut parts.mapr);
    assert!(parts.mapr.can2_remap());
    let can = Can::new(p.can2, p.usb, &mut rcc);
    assert!(rcc.is_enabled(Bus::Apb1, 26));
    assert!(!rcc.is_enabled(Bus::Apb1, 25));
    can.assign_pins(routed);
    assert_eq!(can.num_filter_banks(), 28);
    assert_eq!(NUM_FILTER_BANKS, 28);
    assert!(!can.is_master());
    assert_eq!(can.base_address(), CAN2_BASE);
}

#[test]
fn can1_facade_is_master() {
    let p = peripherals();
    let mut rcc = p.rcc;
    let mut parts = p.afio.constrain(&mut rcc);
    let tx = PA12::<Input<Floating>>::new().into_alternate_push_pull();
    let rx = PA11::<Input<Floating>>::new();
    let routed = (tx, rx).remap(&mut parts.mapr);
    let can = Can::new_connectivity(p.can1, &mut rcc);
    assert_eq!(rcc.enr(Bus::Apb1), 1 << 25);
    assert_eq!(rcc.enr(Bus::Apb2), 1);
    can.assign_pins(routed);
    assert!(can.is_master());
    assert_eq!(can.base_address(), CAN1_BASE);
    assert_eq!(can.base_address(), 0x4000_6400);
    assert_eq!(can.num_filter_banks(), 28);
}

#[test]
fn pin_modes_follow_transitions() {
    let pin = PB9::<Input<Floating>>::new();
    assert_eq!(pin.mode(), PinMode::Input(InputMode::Floating));
    let pin = pin.into_alternate_push_pull();
    assert_eq!(pin.mode(), PinMode::Alternate(OutputMode::PushPull));
    let pin = pin.into_alternate_open_drain();
    assert_eq!(pin.mode(), PinMode::Alternate(OutputMode::OpenDrain));
    let pin = pin.into_pull_down_input();
    assert_eq!(pin.mode(), PinMode::Input(InputMode::PullDown));
    let pin = pin.into_pull_up_input();
    assert_eq!(pin.mode(), PinMode::Input(InputMode::PullUp));
    let pin = pin.into_floating_input();
    assert_eq!(pin.mode(), PinMode::Input(InputMode::Floating));
    assert_eq!((pin.port(), pin.number()), (PORT_B, 9));
}
