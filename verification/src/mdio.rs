//! MDIO (Management Data Input/Output) controller.
//!
//! Communicates with Ethernet PHY chips via the ESP32 EMAC's built-in SMI
//! (Station Management Interface). A register access is a short hardware
//! program: wait for the SMI to be idle, post the address (and data),
//! wait again, then read the data back. [`EspMdio::read`] and
//! [`EspMdio::write`] validate the addresses and return that program.

use vstd::prelude::*;

use crate::error::EmacError;
use crate::hw::HwOp;
use crate::regs::mac::{self as mac_regs, miiaddr};

verus! {

/// MDC clock divider based on system clock frequency.
///
/// The MDC clock must not exceed 2.5 MHz per IEEE 802.3.
#[derive(Debug, Clone, Copy, PartialEq, Eq, Structural)]
pub enum MdcClockDivider {
    /// Clock/16 (20-35 MHz system clock)
    Div16,
    /// Clock/26 (35-60 MHz system clock)
    Div26,
    /// Clock/42 (60-100 MHz system clock) — ESP32 @ 80 MHz
    Div42,
    /// Clock/62 (100-150 MHz system clock)
    Div62,
    /// Clock/102 (150-250 MHz system clock)
    Div102,
    /// Clock/124 (250-300 MHz system clock)
    Div124,
}

/// The divider chosen for a system clock of `hz`.
pub open spec fn divider_for_hz(hz: u32) -> MdcClockDivider {
    if hz < 35_000_000 {
        MdcClockDivider::Div16
    } else if hz < 60_000_000 {
        MdcClockDivider::Div26
    } else if hz < 100_000_000 {
        MdcClockDivider::Div42
    } else if hz < 150_000_000 {
        MdcClockDivider::Div62
    } else if hz < 250_000_000 {
        MdcClockDivider::Div102
    } else {
        MdcClockDivider::Div124
    }
}

/// The factor by which a divider slows the system clock down.
pub open spec fn divisor(d: MdcClockDivider) -> int {
    match d {
        MdcClockDivider::Div16 => 16,
        MdcClockDivider::Div26 => 26,
        MdcClockDivider::Div42 => 42,
        MdcClockDivider::Div62 => 62,
        MdcClockDivider::Div102 => 102,
        MdcClockDivider::Div124 => 124,
    }
}

/// The CSR clock-range code of a divider (`GMACMIIADDR.CR`).
pub open spec fn divider_code(d: MdcClockDivider) -> u32 {
    match d {
        MdcClockDivider::Div42 => 0,
        MdcClockDivider::Div62 => 1,
        MdcClockDivider::Div16 => 2,
        MdcClockDivider::Div26 => 3,
        MdcClockDivider::Div102 => 4,
        MdcClockDivider::Div124 => 5,
    }
}

/// The chosen divider keeps MDC within the IEEE 802.3 limit of
/// 2.5 MHz for every system clock up to 310 MHz, where the largest
/// divider (124) brings MDC to exactly 2.5 MHz.
pub proof fn lemma_mdc_within_limit(hz: u32)
    requires
        hz <= 310_000_000,
    ensures
        hz <= 2_500_000 * divisor(divider_for_hz(hz)),
{
}

impl MdcClockDivider {
    /// Select the appropriate divider for a given system clock frequency.
    pub fn from_sys_clock_hz(hz: u32) -> (r: Self)
        ensures
            r == divider_for_hz(hz),
    {
        if hz < 35_000_000 {
            Self::Div16
        } else if hz < 60_000_000 {
            Self::Div26
        } else if hz < 100_000_000 {
            Self::Div42
        } else if hz < 150_000_000 {
            Self::Div62
        } else if hz < 250_000_000 {
            Self::Div102
        } else {
            Self::Div124
        }
    }

    /// Get the register value for this divider.
    pub fn reg_value(self) -> (r: u32)
        ensures
            r == divider_code(self),
    {
        match self {
            Self::Div42 => 0,
            Self::Div62 => 1,
            Self::Div16 => 2,
            Self::Div26 => 3,
            Self::Div102 => 4,
            Self::Div124 => 5,
        }
    }
}

impl Default for MdcClockDivider {
    /// Default: Div42 (correct for ESP32 @ 80 MHz).
    fn default() -> (r: Self)
        ensures
            r == MdcClockDivider::Div42,
    {
        Self::Div42
    }
}

/// Maximum valid PHY address (5-bit field).
pub const MAX_PHY_ADDR: u8 = 31;

/// Maximum valid register address (5-bit field).
pub const MAX_REG_ADDR: u8 = 31;

/// MDIO timeout in polling iterations.
pub const MDIO_TIMEOUT_ITERS: u32 = 1000;

/// Address of `GMACMIIADDR`.
pub const MII_ADDR_REG: usize = mac_regs::BASE + mac_regs::GMACMIIADDR;

/// Address of `GMACMIIDATA`.
pub const MII_DATA_REG: usize = mac_regs::BASE + mac_regs::GMACMIIDATA;

/// The `GMACMIIADDR` value that starts an SMI transaction: PHY address,
/// register address, clock range, write flag and the busy bit.
pub open spec fn mii_addr_value(
    phy_addr: u8,
    reg_addr: u8,
    divider: MdcClockDivider,
    is_write: bool,
) -> u32 {
    (((phy_addr as u32) << miiaddr::PA_SHIFT) & miiaddr::PA_MASK) | (((reg_addr as u32)
        << miiaddr::GR_SHIFT) & miiaddr::GR_MASK) | ((divider_code(divider) << miiaddr::CR_SHIFT)
        & miiaddr::CR_MASK) | (if is_write {
        miiaddr::GW
    } else {
        0
    }) | miiaddr::GB
}

/// Wait until the SMI is idle; fail with a timeout otherwise.
pub open spec fn mdio_wait_idle() -> HwOp {
    HwOp::RequireClear { addr: MII_ADDR_REG, mask: miiaddr::GB, max_polls: MDIO_TIMEOUT_ITERS }
}

/// The SMI program reading PHY register `reg_addr` of `phy_addr`; its
/// result is the register's 16-bit value.
pub open spec fn mdio_read_program(phy_addr: u8, reg_addr: u8, divider: MdcClockDivider) -> Seq<
    HwOp,
> {
    seq![
        mdio_wait_idle(),
        HwOp::Write {
            addr: MII_ADDR_REG,
            value: mii_addr_value(phy_addr, reg_addr, divider, false),
        },
        mdio_wait_idle(),
        HwOp::ReadLow16 { addr: MII_DATA_REG },
    ]
}

/// The SMI program writing `value` to PHY register `reg_addr` of
/// `phy_addr`: the data goes out before the address that starts the
/// transaction.
pub open spec fn mdio_write_program(
    phy_addr: u8,
    reg_addr: u8,
    value: u16,
    divider: MdcClockDivider,
) -> Seq<HwOp> {
    seq![
        mdio_wait_idle(),
        HwOp::Write { addr: MII_DATA_REG, value: value as u32 },
        HwOp::Write {
            addr: MII_ADDR_REG,
            value: mii_addr_value(phy_addr, reg_addr, divider, true),
        },
        mdio_wait_idle(),
    ]
}

/// ESP32 MDIO controller.
///
/// Builds the SMI register programs that read and write PHY registers
/// via the EMAC's built-in SMI. Running them requires the EMAC
/// peripheral clock to be enabled.
pub struct EspMdio {
    clock_divider: MdcClockDivider,
}

impl EspMdio {
    /// The MDC clock divider in use.
    pub closed spec fn divider(&self) -> MdcClockDivider {
        self.clock_divider
    }

    /// Create a new MDIO controller with default clock divider (Div42 for 80 MHz).
    pub fn new() -> (r: Self)
        ensures
            r.divider() == MdcClockDivider::Div42,
    {
        Self { clock_divider: MdcClockDivider::default() }
    }

    /// Create with a specific clock divider.
    pub fn with_clock_divider(divider: MdcClockDivider) -> (r: Self)
        ensures
            r.divider() == divider,
    {
        Self { clock_divider: divider }
    }

    /// The SMI program reading a PHY register.
    ///
    /// Fails with [`EmacError::InvalidPhyAddress`] for a PHY address
    /// above 31 and with [`EmacError::InvalidConfig`] for a register
    /// address above 31. Running the program fails with
    /// [`EmacError::Timeout`] when the SMI stays busy.
    pub fn read(&mut self, phy_addr: u8, reg_addr: u8) -> (r: Result<Vec<HwOp>, EmacError>)
        ensures
            final(self).divider() == old(self).divider(),
            phy_addr > MAX_PHY_ADDR ==> r == Err::<Vec<HwOp>, EmacError>(
                EmacError::InvalidPhyAddress,
            ),
            phy_addr <= MAX_PHY_ADDR && reg_addr > MAX_REG_ADDR ==> r == Err::<
                Vec<HwOp>,
                EmacError,
            >(EmacError::InvalidConfig),
            phy_addr <= MAX_PHY_ADDR && reg_addr <= MAX_REG_ADDR ==> r.is_ok() && r.unwrap()@
                == mdio_read_program(phy_addr, reg_addr, old(self).divider()),
    {
        if phy_addr > MAX_PHY_ADDR {
            return Err(EmacError::InvalidPhyAddress);
        }
        if reg_addr > MAX_REG_ADDR {
            return Err(EmacError::InvalidConfig);
        }
        let mut ops: Vec<HwOp> = Vec::new();
        ops.push(Self::wait_not_busy());
        let addr = self.build_mii_addr(phy_addr, reg_addr, false);
        ops.push(HwOp::Write { addr: MII_ADDR_REG, value: addr });
        ops.push(Self::wait_not_busy());
        ops.push(HwOp::ReadLow16 { addr: MII_DATA_REG });
        assert(ops@ =~= mdio_read_program(phy_addr, reg_addr, self.divider()));
        Ok(ops)
    }

    /// The SMI program writing a PHY register.
    ///
    /// Same address validation as [`read`](Self::read).
    pub fn write(&mut self, phy_addr: u8, reg_addr: u8, value: u16) -> (r: Result<
        Vec<HwOp>,
        EmacError,
    >)
        ensures
            final(self).divider() == old(self).divider(),
            phy_addr > MAX_PHY_ADDR ==> r == Err::<Vec<HwOp>, EmacError>(
                EmacError::InvalidPhyAddress,
            ),
            phy_addr <= MAX_PHY_ADDR && reg_addr > MAX_REG_ADDR ==> r == Err::<
                Vec<HwOp>,
                EmacError,
            >(EmacError::InvalidConfig),
            phy_addr <= MAX_PHY_ADDR && reg_addr <= MAX_REG_ADDR ==> r.is_ok() && r.unwrap()@
                == mdio_write_program(phy_addr, reg_addr, value, old(self).divider()),
    {
        if phy_addr > MAX_PHY_ADDR {
            return Err(EmacError::InvalidPhyAddress);
        }
        if reg_addr > MAX_REG_ADDR {
            return Err(EmacError::InvalidConfig);
        }
        let mut ops: Vec<HwOp> = Vec::new();
        ops.push(Self::wait_not_busy());
        ops.push(HwOp::Write { addr: MII_DATA_REG, value: value as u32 });
        let addr = self.build_mii_addr(phy_addr, reg_addr, true);
        ops.push(HwOp::Write { addr: MII_ADDR_REG, value: addr });
        ops.push(Self::wait_not_busy());
        assert(ops@ =~= mdio_write_program(phy_addr, reg_addr, value, self.divider()));
        Ok(ops)
    }

    /// Build the GMACMIIADDR register value.
    ///
    /// For addresses within 0..=31 each field decodes back to its input.
    pub fn build_mii_addr(&self, phy_addr: u8, reg_addr: u8, is_write: bool) -> (r: u32)
        ensures
            r == mii_addr_value(phy_addr, reg_addr, self.divider(), is_write),
            phy_addr <= MAX_PHY_ADDR ==> (r & miiaddr::PA_MASK) >> miiaddr::PA_SHIFT
                == phy_addr as u32,
            reg_addr <= MAX_REG_ADDR ==> (r & miiaddr::GR_MASK) >> miiaddr::GR_SHIFT
                == reg_addr as u32,
            (r & miiaddr::CR_MASK) >> miiaddr::CR_SHIFT == divider_code(self.divider()),
            (r & miiaddr::GW != 0) == is_write,
            r & miiaddr::GB != 0,
    {
        let cr = self.clock_divider.reg_value();
        let mut addr = 0u32;
        addr = addr | (((phy_addr as u32) << miiaddr::PA_SHIFT) & miiaddr::PA_MASK);
        addr = addr | (((reg_addr as u32) << miiaddr::GR_SHIFT) & miiaddr::GR_MASK);
        addr = addr | ((cr << miiaddr::CR_SHIFT) & miiaddr::CR_MASK);
        let w: u32 = if is_write {
            miiaddr::GW
        } else {
            0
        };
        addr = addr | w;
        addr = addr | miiaddr::GB;
        let p = phy_addr as u32;
        let g = reg_addr as u32;
        assert(addr == ((p << 11u32) & 0xF800u32) | ((g << 6u32) & 0x07C0u32) | ((cr << 2u32)
            & 0x003Cu32) | w | 1u32 && (p <= 31 ==> (addr & 0xF800u32) >> 11u32 == p) && (g <= 31
            ==> (addr & 0x07C0u32) >> 6u32 == g) && (cr <= 5 ==> (addr & 0x003Cu32) >> 2u32 == cr)
            && ((addr & 2u32 != 0) == (w == 2u32)) && addr & 1u32 != 0) by (bit_vector)
            requires
                addr == (((((0u32 | ((p << 11u32) & 0xF800u32)) | ((g << 6u32) & 0x07C0u32)) | ((cr
                    << 2u32) & 0x003Cu32)) | w) | 1u32),
                w == 0u32 || w == 2u32,
        ;
        addr
    }

    /// Wait for the SMI to finish (busy bit cleared), at most
    /// [`MDIO_TIMEOUT_ITERS`] polls.
    fn wait_not_busy() -> (r: HwOp)
        ensures
            r == mdio_wait_idle(),
    {
        HwOp::RequireClear {
            addr: MII_ADDR_REG,
            mask: miiaddr::GB,
            max_polls: MDIO_TIMEOUT_ITERS,
        }
    }
}

impl Default for EspMdio {
    fn default() -> (r: Self)
        ensures
            r.divider() == MdcClockDivider::Div42,
    {
        Self::new()
    }
}

} // verus!
