//! Pad routing for the EMAC: the SMI pins through the GPIO matrix and
//! the fixed RMII data pads through IO_MUX function 5.

use vstd::prelude::*;

use crate::clock::{
    FUN_DRV_MASK, FUN_IE, GPIO_BASE, GPIO_ENABLE_W1TS, GPIO_FUNC_OUT_SEL_BASE, IO_MUX_BASE,
    MCU_SEL_EMAC, MCU_SEL_MASK,
};
use crate::config::RmiiPins;
use crate::hw::HwOp;

verus! {

/// GPIO matrix input-select register base: for signal `s`,
/// `GPIO_FUNC_IN_SEL_BASE + 4 * s`.
pub const GPIO_FUNC_IN_SEL_BASE: usize = GPIO_BASE + 0x130;

/// Output-enable set (write-1-to-set) register of GPIO32..=39.
pub const GPIO_ENABLE1_W1TS: usize = GPIO_BASE + 0x030;

/// GPIO matrix output signal driving MDC.
pub const EMAC_MDC_O_IDX: u32 = 200;

/// GPIO matrix signal of MDIO: the output and the input share it.
pub const EMAC_MDIO_IDX: u32 = 201;

/// `GPIO_FUNCn_IN_SEL_CFG.SIG_IN_SEL`: route the input through the matrix.
pub const SIG_IN_SEL: u32 = 0x0000_0080;

/// IO_MUX function 2 (plain GPIO, through the matrix) in MCU_SEL.
pub const MCU_SEL_GPIO: u32 = 0x0000_2000;

/// Default drive strength (2) in the FUN_DRV field.
pub const FUN_DRV_DEFAULT: u32 = 0x0000_0800;

/// IO_MUX register offset of each pad that has one (ESP32 TRM, IO_MUX
/// pad list); `None` for GPIO numbers without a pad.
pub open spec fn spec_io_mux_offset(gpio: u8) -> Option<usize> {
    match gpio {
        0 => Some(0x44usize),
        1 => Some(0x88usize),
        2 => Some(0x40usize),
        3 => Some(0x84usize),
        4 => Some(0x48usize),
        5 => Some(0x6Cusize),
        6 => Some(0x60usize),
        7 => Some(0x64usize),
        8 => Some(0x68usize),
        9 => Some(0x54usize),
        10 => Some(0x58usize),
        11 => Some(0x5Cusize),
        12 => Some(0x34usize),
        13 => Some(0x38usize),
        14 => Some(0x30usize),
        15 => Some(0x3Cusize),
        16 => Some(0x4Cusize),
        17 => Some(0x50usize),
        18 => Some(0x70usize),
        19 => Some(0x74usize),
        20 => Some(0x78usize),
        21 => Some(0x7Cusize),
        22 => Some(0x80usize),
        23 => Some(0x8Cusize),
        24 => Some(0x90usize),
        25 => Some(0x24usize),
        26 => Some(0x28usize),
        27 => Some(0x2Cusize),
        32 => Some(0x1Cusize),
        33 => Some(0x20usize),
        34 => Some(0x14usize),
        35 => Some(0x18usize),
        36 => Some(0x04usize),
        37 => Some(0x08usize),
        38 => Some(0x0Cusize),
        39 => Some(0x10usize),
        _ => None,
    }
}

/// IO_MUX register offset of pad `gpio`, if it has one.
pub fn io_mux_offset(gpio: u8) -> (r: Option<usize>)
    ensures
        r == spec_io_mux_offset(gpio),
{
    match gpio {
        0 => Some(0x44),
        1 => Some(0x88),
        2 => Some(0x40),
        3 => Some(0x84),
        4 => Some(0x48),
        5 => Some(0x6C),
        6 => Some(0x60),
        7 => Some(0x64),
        8 => Some(0x68),
        9 => Some(0x54),
        10 => Some(0x58),
        11 => Some(0x5C),
        12 => Some(0x34),
        13 => Some(0x38),
        14 => Some(0x30),
        15 => Some(0x3C),
        16 => Some(0x4C),
        17 => Some(0x50),
        18 => Some(0x70),
        19 => Some(0x74),
        20 => Some(0x78),
        21 => Some(0x7C),
        22 => Some(0x80),
        23 => Some(0x8C),
        24 => Some(0x90),
        25 => Some(0x24),
        26 => Some(0x28),
        27 => Some(0x2C),
        32 => Some(0x1C),
        33 => Some(0x20),
        34 => Some(0x14),
        35 => Some(0x18),
        36 => Some(0x04),
        37 => Some(0x08),
        38 => Some(0x0C),
        39 => Some(0x10),
        _ => None,
    }
}

/// Every IO_MUX pad register lies within the first 0x90 bytes of the
/// IO_MUX block.
pub proof fn lemma_io_mux_offset_bound(gpio: u8)
    ensures
        spec_io_mux_offset(gpio) matches Some(off) ==> off <= 0x90,
{
}

/// Both SMI pins have a pad.
pub open spec fn smi_pins_valid(pins: RmiiPins) -> bool {
    spec_io_mux_offset(pins.mdc) is Some && spec_io_mux_offset(pins.mdio) is Some
}

/// IO_MUX function `function` (already in the MCU_SEL field) with the
/// default drive strength, input enabled when `input`, on the pad at
/// `offset`.
pub open spec fn pad_function_op(offset: usize, function: u32, input: bool) -> HwOp {
    HwOp::Modify {
        addr: (IO_MUX_BASE + offset) as usize,
        clear: MCU_SEL_MASK | FUN_DRV_MASK,
        set: function | FUN_DRV_DEFAULT | (if input {
            FUN_IE
        } else {
            0
        }),
    }
}

/// Enable the output driver of `gpio`.
pub open spec fn enable_output_op(gpio: u8) -> HwOp {
    if gpio < 32 {
        HwOp::Write { addr: GPIO_ENABLE_W1TS, value: 1u32 << gpio }
    } else {
        HwOp::Write { addr: GPIO_ENABLE1_W1TS, value: 1u32 << ((gpio - 32) as u8) }
    }
}

/// MDC out of `pins.mdc` and MDIO both ways on `pins.mdio`, through the
/// GPIO matrix.
pub open spec fn smi_pins_program(pins: RmiiPins) -> Seq<HwOp> {
    let mdc_off = spec_io_mux_offset(pins.mdc)->0;
    let mdio_off = spec_io_mux_offset(pins.mdio)->0;
    seq![
        pad_function_op(mdc_off, MCU_SEL_GPIO, false),
        HwOp::Write {
            addr: (GPIO_FUNC_OUT_SEL_BASE + 4 * pins.mdc) as usize,
            value: EMAC_MDC_O_IDX,
        },
        enable_output_op(pins.mdc),
        pad_function_op(mdio_off, MCU_SEL_GPIO, true),
        HwOp::Write {
            addr: (GPIO_FUNC_OUT_SEL_BASE + 4 * pins.mdio) as usize,
            value: EMAC_MDIO_IDX,
        },
        HwOp::Write {
            addr: (GPIO_FUNC_IN_SEL_BASE + 4 * EMAC_MDIO_IDX) as usize,
            value: (pins.mdio as u32) | SIG_IN_SEL,
        },
        enable_output_op(pins.mdio),
    ]
}

/// The six fixed RMII data pads on IO_MUX function 5: TXD0=19,
/// TX_EN=21, TXD1=22 out; RXD0=25, RXD1=26, CRS_DV=27 in.
pub open spec fn rmii_data_pins_program() -> Seq<HwOp> {
    seq![
        pad_function_op(0x74, MCU_SEL_EMAC, false),
        pad_function_op(0x7C, MCU_SEL_EMAC, false),
        pad_function_op(0x80, MCU_SEL_EMAC, false),
        pad_function_op(0x24, MCU_SEL_EMAC, true),
        pad_function_op(0x28, MCU_SEL_EMAC, true),
        pad_function_op(0x2C, MCU_SEL_EMAC, true),
    ]
}

fn pad_function(offset: usize, function: u32, input: bool) -> (r: HwOp)
    requires
        offset <= 0x90,
    ensures
        r == pad_function_op(offset, function, input),
{
    let ie: u32 = if input {
        FUN_IE
    } else {
        0
    };
    HwOp::Modify {
        addr: IO_MUX_BASE + offset,
        clear: MCU_SEL_MASK | FUN_DRV_MASK,
        set: function | FUN_DRV_DEFAULT | ie,
    }
}

fn enable_output(gpio: u8) -> (r: HwOp)
    requires
        gpio < 64,
    ensures
        r == enable_output_op(gpio),
{
    if gpio < 32 {
        HwOp::Write { addr: GPIO_ENABLE_W1TS, value: 1u32 << gpio }
    } else {
        HwOp::Write { addr: GPIO_ENABLE1_W1TS, value: 1u32 << (gpio - 32) }
    }
}

/// The program routing the SMI pins, or `None` when either pin has no
/// pad.
pub fn route_smi_pins(pins: RmiiPins) -> (r: Option<Vec<HwOp>>)
    ensures
        r is None <==> !smi_pins_valid(pins),
        r matches Some(ops) ==> ops@ == smi_pins_program(pins),
{
    let mdc_off = match io_mux_offset(pins.mdc) {
        Some(off) => off,
        None => return None,
    };
    let mdio_off = match io_mux_offset(pins.mdio) {
        Some(off) => off,
        None => return None,
    };
    let mut ops: Vec<HwOp> = Vec::new();
    ops.push(pad_function(mdc_off, MCU_SEL_GPIO, false));
    ops.push(
        HwOp::Write {
            addr: GPIO_FUNC_OUT_SEL_BASE + 4 * (pins.mdc as usize),
            value: EMAC_MDC_O_IDX,
        },
    );
    ops.push(enable_output(pins.mdc));
    ops.push(pad_function(mdio_off, MCU_SEL_GPIO, true));
    ops.push(
        HwOp::Write {
            addr: GPIO_FUNC_OUT_SEL_BASE + 4 * (pins.mdio as usize),
            value: EMAC_MDIO_IDX,
        },
    );
    ops.push(
        HwOp::Write {
            addr: GPIO_FUNC_IN_SEL_BASE + 4 * 201,
            value: (pins.mdio as u32) | SIG_IN_SEL,
        },
    );
    ops.push(enable_output(pins.mdio));
    assert(ops@ =~= smi_pins_program(pins));
    Some(ops)
}

/// The program routing the six fixed RMII data pads.
pub fn route_rmii_data_pins() -> (r: Vec<HwOp>)
    ensures
        r@ == rmii_data_pins_program(),
{
    let mut ops: Vec<HwOp> = Vec::new();
    ops.push(pad_function(0x74, MCU_SEL_EMAC, false));
    ops.push(pad_function(0x7C, MCU_SEL_EMAC, false));
    ops.push(pad_function(0x80, MCU_SEL_EMAC, false));
    ops.push(pad_function(0x24, MCU_SEL_EMAC, true));
    ops.push(pad_function(0x28, MCU_SEL_EMAC, true));
    ops.push(pad_function(0x2C, MCU_SEL_EMAC, true));
    assert(ops@ =~= rmii_data_pins_program());
    ops
}

} // verus!
