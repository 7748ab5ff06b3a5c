use esp_emac::gpio::{io_mux_offset, route_rmii_data_pins, route_smi_pins};
use esp_emac::hw::HwOp;
use esp_emac::RmiiPins;

#[test]
fn io_mux_offsets_of_clock_pads_match_clock_module() {
    assert_eq!(io_mux_offset(0), Some(0x44));
    assert_eq!(io_mux_offset(16), Some(0x4C));
    assert_eq!(io_mux_offset(17), Some(0x50));
    assert_eq!(io_mux_offset(39), Some(0x10));
    assert_eq!(io_mux_offset(28), None);
    assert_eq!(io_mux_offset(40), None);
}

#[test]
fn smi_routing_needs_pads() {
    assert!(route_smi_pins(RmiiPins { mdc: 23, mdio: 18 }).is_some());
    assert!(route_smi_pins(RmiiPins { mdc: 30, mdio: 18 }).is_none());
    assert!(route_smi_pins(RmiiPins { mdc: 23, mdio: 255 }).is_none());
}

#[test]
fn smi_routing_on_high_gpio_uses_second_enable_register() {
    let ops = route_smi_pins(RmiiPins { mdc: 32, mdio: 33 }).unwrap();
    assert_eq!(ops.len(), 7);
    assert_eq!(ops[0], HwOp::Modify { addr: 0x3FF4_901C, clear: 0x7C00, set: 0x2800 });
    assert_eq!(ops[2], HwOp::Write { addr: 0x3FF4_4030, value: 1 });
    assert_eq!(ops[6], HwOp::Write { addr: 0x3FF4_4030, value: 1 << 1 });
}

#[test]
fn rmii_data_pads_on_function_5() {
    let ops = route_rmii_data_pins();
    assert_eq!(ops.len(), 6);
    assert_eq!(ops[2], HwOp::Modify { addr: 0x3FF4_9080, clear: 0x7C00, set: 0x5800 });
    assert_eq!(ops[5], HwOp::Modify { addr: 0x3FF4_902C, clear: 0x7C00, set: 0x5A00 });
}
