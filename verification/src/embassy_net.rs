//! Decisions of the embassy-net driver for the ESP32 EMAC.
//!
//! The driver glue (wakers, the shared link-state cell, the token types
//! handed to the network stack) owns no logic of its own: it asks this
//! module which counters an interrupt bumps, which tasks it wakes, and
//! how long the frame a token carries is.

use vstd::prelude::*;

use crate::dma::engine::DmaEngine;
use crate::emac::{rx_poll_demand, Emac, EmacState};
use crate::interrupt::{status_from_raw, InterruptStatus};
use crate::regs::dma::status;

verus! {

/// Maximum frame size for stack-allocated copy buffers (Ethernet MTU + headers).
pub const MAX_FRAME_SIZE: usize = 1600;

/// Maximum transmission unit reported to embassy-net (IP MTU + Ethernet header).
pub const MTU: usize = 1514;

/// Diagnostic snapshot of the ISR counters.
#[derive(Debug, Clone, Copy)]
pub struct IrqCounters {
    /// Total number of times the ISR ran.
    pub total: u32,
    /// `RI` (rx_complete) flag observed.
    pub ri: u32,
    /// `RU` (rx_buf_unavailable) flag observed.
    pub ru: u32,
    /// `TI` (tx_complete) flag observed.
    pub ti: u32,
    /// `TU` (tx_buf_unavailable) flag observed.
    pub tu: u32,
    /// `ERI` (early receive) flag observed.
    pub eri: u32,
    /// At least one error flag observed (UNF/OVF/FBI).
    pub err: u32,
    /// Last raw `DMASTATUS` snapshot taken in the ISR (before W1C).
    pub last_dmastat: u32,
}

impl Default for IrqCounters {
    fn default() -> (r: Self)
        ensures
            r.total == 0 && r.ri == 0 && r.ru == 0 && r.ti == 0 && r.tu == 0 && r.eri == 0
                && r.err == 0 && r.last_dmastat == 0,
    {
        Self { total: 0, ri: 0, ru: 0, ti: 0, tu: 0, eri: 0, err: 0, last_dmastat: 0 }
    }
}

/// `c` bumped by one (wrapping) when `hit`, unchanged otherwise.
pub open spec fn bump(c: u32, hit: bool) -> u32 {
    if hit {
        if c == u32::MAX {
            0
        } else {
            (c + 1) as u32
        }
    } else {
        c
    }
}

fn bump_if(c: u32, hit: bool) -> (r: u32)
    ensures
        r == bump(c, hit),
{
    if hit {
        c.wrapping_add(1)
    } else {
        c
    }
}

impl IrqCounters {
    /// Account for one interrupt whose raw `DMASTATUS` snapshot is
    /// `raw`: the total and every flag counter seen in `raw` go up by one
    /// (wrapping), the early-receive counter by `ERI` (bit 14), which
    /// [`InterruptStatus`] does not model, and `raw` becomes the last
    /// snapshot.
    pub fn record(&mut self, raw: u32)
        ensures
            ({
                let s = status_from_raw(raw);
                &&& final(self).total == bump(old(self).total, true)
                &&& final(self).ri == bump(old(self).ri, s.rx_complete)
                &&& final(self).ru == bump(old(self).ru, s.rx_buf_unavailable)
                &&& final(self).ti == bump(old(self).ti, s.tx_complete)
                &&& final(self).tu == bump(old(self).tu, s.tx_buf_unavailable)
                &&& final(self).eri == bump(old(self).eri, raw & status::ERI != 0)
                &&& final(self).err == bump(
                    old(self).err,
                    s.tx_underflow || s.rx_overflow || s.fatal_bus_error,
                )
                &&& final(self).last_dmastat == raw
            }),
    {
        let s = InterruptStatus::from_raw(raw);
        self.total = bump_if(self.total, true);
        self.last_dmastat = raw;
        self.ri = bump_if(self.ri, s.rx_complete);
        self.ru = bump_if(self.ru, s.rx_buf_unavailable);
        self.ti = bump_if(self.ti, s.tx_complete);
        self.tu = bump_if(self.tu, s.tx_buf_unavailable);
        self.eri = bump_if(self.eri, (raw & status::ERI) != 0);
        self.err = bump_if(self.err, s.has_error());
    }
}

/// Which tasks an interrupt wakes, as `(rx, tx)`: RX on a completed
/// frame or an RX buffer shortage, TX on a completed frame or a TX
/// buffer shortage, both on any error.
pub fn wake_targets(s: &InterruptStatus) -> (r: (bool, bool))
    ensures
        r.0 == (s.rx_complete || s.rx_buf_unavailable || s.tx_underflow || s.rx_overflow
            || s.fatal_bus_error),
        r.1 == (s.tx_complete || s.tx_buf_unavailable || s.tx_underflow || s.rx_overflow
            || s.fatal_bus_error),
{
    let err = s.has_error();
    (s.rx_complete || s.rx_buf_unavailable || err, s.tx_complete || s.tx_buf_unavailable || err)
}

/// The RX token's receive: the frame is received into `buffer` and its
/// length returned — 0 when no frame was taken or it was bad.
pub fn rx_token_receive<const RX: usize, const TX: usize, const BUF: usize>(
    emac: &mut Emac<RX, TX, BUF>,
    buffer: &mut [u8],
) -> (len: usize)
    requires
        old(emac).wf(),
        old(emac).spec_state() == EmacState::Running ==> old(emac).dma().spec_receive_fits(
            old(buffer)@.len(),
        ),
    ensures
        final(emac).wf(),
        len <= final(buffer)@.len(),
        final(buffer)@.len() == old(buffer)@.len(),
        len == if old(emac).spec_state() == EmacState::Running {
            match old(emac).dma().receive_result(old(buffer)@.len()) {
                Ok(Some(n)) => n,
                _ => 0,
            }
        } else {
            0
        },
        // The frame's bytes land in front of `buffer`; nothing changes
        // when no frame is taken.
        final(buffer)@ == if old(emac).spec_state() == EmacState::Running {
            old(emac).dma().receive_buffer(old(buffer)@)
        } else {
            old(buffer)@
        },
        old(emac).spec_state() == EmacState::Running ==> DmaEngine::<RX, TX, BUF>::rx_consumed(
            &old(emac).dma(),
            &final(emac).dma(),
            old(emac).dma().receive_consumed(old(buffer)@.len()) as int,
        ),
        old(emac).spec_state() != EmacState::Running ==> *final(emac) == *old(emac),
        // An RX poll demand follows exactly a delivered frame.
        final(emac).pending_ops() == if old(emac).spec_state() == EmacState::Running && old(
            emac,
        ).dma().receive_result(old(buffer)@.len()) matches Ok(Some(_)) {
            old(emac).pending_ops().push(rx_poll_demand())
        } else {
            old(emac).pending_ops()
        },
        final(emac).spec_state() == old(emac).spec_state(),
        final(emac).spec_config() == old(emac).spec_config(),
        final(emac).spec_mac() == old(emac).spec_mac(),
        final(emac).spec_link() == old(emac).spec_link(),
{
    match emac.receive(buffer) {
        Ok(Some(n)) => n,
        _ => 0,
    }
}

/// Length of the frame the TX token sends for a request of `len`
/// bytes: capped at [`MAX_FRAME_SIZE`].
pub fn tx_token_len(len: usize) -> (r: usize)
    ensures
        r == if len < MAX_FRAME_SIZE {
            len
        } else {
            MAX_FRAME_SIZE
        },
{
    if len < MAX_FRAME_SIZE {
        len
    } else {
        MAX_FRAME_SIZE
    }
}

} // verus!
