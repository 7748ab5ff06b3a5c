//! Interrupt status parsing for the ESP32 EMAC DMA controller.
//!
//! [`InterruptStatus`] decodes the raw `DMASTATUS` register value into
//! the individual TX/RX/error flags an interrupt handler typically wants.

use vstd::prelude::*;

use crate::regs::dma::status;

verus! {

/// Decoded DMA status flags.
#[derive(Debug, Clone, Copy, Default, PartialEq, Eq, Structural)]
pub struct InterruptStatus {
    /// TX complete — a frame was transmitted successfully.
    pub tx_complete: bool,
    /// TX DMA stopped.
    pub tx_stopped: bool,
    /// No TX descriptors available.
    pub tx_buf_unavailable: bool,
    /// TX FIFO underflow.
    pub tx_underflow: bool,
    /// RX complete — a frame was received.
    pub rx_complete: bool,
    /// RX DMA stopped.
    pub rx_stopped: bool,
    /// No RX descriptors available (DMA suspended).
    pub rx_buf_unavailable: bool,
    /// RX FIFO overflow.
    pub rx_overflow: bool,
    /// Fatal bus error — unrecoverable DMA error.
    pub fatal_bus_error: bool,
    /// Normal interrupt summary.
    pub normal_summary: bool,
    /// Abnormal interrupt summary.
    pub abnormal_summary: bool,
}

/// The `DMASTATUS` bits that [`InterruptStatus`] represents (TI, TPS,
/// TU, UNF, RI, RPS, RU, OVF, FBI, NIS, AIS).
pub open spec fn modeled_status_bits() -> u32 {
    status::TI | status::TPS | status::TU | status::UNF | status::RI | status::RPS | status::RU
        | status::OVF | status::FBI | status::NIS | status::AIS
}

/// Decoding of a raw `DMASTATUS` value: each flag is its bit.
pub open spec fn status_from_raw(raw: u32) -> InterruptStatus {
    InterruptStatus {
        tx_complete: (raw & status::TI) != 0,
        tx_stopped: (raw & status::TPS) != 0,
        tx_buf_unavailable: (raw & status::TU) != 0,
        tx_underflow: (raw & status::UNF) != 0,
        rx_complete: (raw & status::RI) != 0,
        rx_stopped: (raw & status::RPS) != 0,
        rx_buf_unavailable: (raw & status::RU) != 0,
        rx_overflow: (raw & status::OVF) != 0,
        fatal_bus_error: (raw & status::FBI) != 0,
        normal_summary: (raw & status::NIS) != 0,
        abnormal_summary: (raw & status::AIS) != 0,
    }
}

/// Encoding of decoded flags: the OR of the bits whose flag is set.
pub open spec fn status_to_raw(s: InterruptStatus) -> u32 {
    (if s.tx_complete { status::TI } else { 0 }) | (if s.tx_stopped { status::TPS } else { 0 }) | (
    if s.tx_buf_unavailable {
        status::TU
    } else {
        0
    }) | (if s.tx_underflow { status::UNF } else { 0 }) | (if s.rx_complete {
        status::RI
    } else {
        0
    }) | (if s.rx_stopped { status::RPS } else { 0 }) | (if s.rx_buf_unavailable {
        status::RU
    } else {
        0
    }) | (if s.rx_overflow { status::OVF } else { 0 }) | (if s.fatal_bus_error {
        status::FBI
    } else {
        0
    }) | (if s.normal_summary { status::NIS } else { 0 }) | (if s.abnormal_summary {
        status::AIS
    } else {
        0
    })
}

/// Encoding a decoded register keeps exactly the modelled bits: every
/// other W1C flag (ERI, ETI, RWT, TJT, EBE, ...) is dropped, which is why
/// the raw snapshot, not the round trip, must be written back to clear.
pub proof fn lemma_raw_round_trip(raw: u32)
    ensures
        status_to_raw(status_from_raw(raw)) == raw & modeled_status_bits(),
{
    let s = status_from_raw(raw);
    assert(1u32 | 2u32 | 4u32 | 0x20u32 | 0x40u32 | 0x100u32 | 0x80u32 | 0x10u32 | 0x2000u32
        | 0x1_0000u32 | 0x8000u32 == 0x0001_A1F7u32) by (bit_vector);
    let a = s.tx_complete;
    let b = s.tx_stopped;
    let c = s.tx_buf_unavailable;
    let d = s.tx_underflow;
    let e = s.rx_complete;
    let f = s.rx_stopped;
    let g = s.rx_buf_unavailable;
    let h = s.rx_overflow;
    let i = s.fatal_bus_error;
    let j = s.normal_summary;
    let k = s.abnormal_summary;
    assert((if a { 1u32 } else { 0 }) | (if b { 2u32 } else { 0 }) | (if c { 4u32 } else { 0 })
        | (if d { 0x20u32 } else { 0 }) | (if e { 0x40u32 } else { 0 }) | (if f {
        0x100u32
    } else {
        0
    }) | (if g { 0x80u32 } else { 0 }) | (if h { 0x10u32 } else { 0 }) | (if i {
        0x2000u32
    } else {
        0
    }) | (if j { 0x1_0000u32 } else { 0 }) | (if k { 0x8000u32 } else { 0 }) == raw
        & 0x0001_A1F7u32) by (bit_vector)
        requires
            a == (raw & 1u32 != 0),
            b == (raw & 2u32 != 0),
            c == (raw & 4u32 != 0),
            d == (raw & 0x20u32 != 0),
            e == (raw & 0x40u32 != 0),
            f == (raw & 0x100u32 != 0),
            g == (raw & 0x80u32 != 0),
            h == (raw & 0x10u32 != 0),
            i == (raw & 0x2000u32 != 0),
            j == (raw & 0x1_0000u32 != 0),
            k == (raw & 0x8000u32 != 0),
    ;
}

/// Decoding an encoded status gives back the same flags.
pub proof fn lemma_status_round_trip(s: InterruptStatus)
    ensures
        status_from_raw(status_to_raw(s)) == s,
{
    let a = s.tx_complete;
    let b = s.tx_stopped;
    let c = s.tx_buf_unavailable;
    let d = s.tx_underflow;
    let e = s.rx_complete;
    let f = s.rx_stopped;
    let g = s.rx_buf_unavailable;
    let h = s.rx_overflow;
    let i = s.fatal_bus_error;
    let j = s.normal_summary;
    let k = s.abnormal_summary;
    let v = status_to_raw(s);
    assert(v == (if a { 1u32 } else { 0 }) | (if b { 2u32 } else { 0 }) | (if c {
        4u32
    } else {
        0
    }) | (if d { 0x20u32 } else { 0 }) | (if e { 0x40u32 } else { 0 }) | (if f {
        0x100u32
    } else {
        0
    }) | (if g { 0x80u32 } else { 0 }) | (if h { 0x10u32 } else { 0 }) | (if i {
        0x2000u32
    } else {
        0
    }) | (if j { 0x1_0000u32 } else { 0 }) | (if k { 0x8000u32 } else { 0 }));
    assert({
        &&& (v & 1u32 != 0) == a
        &&& (v & 2u32 != 0) == b
        &&& (v & 4u32 != 0) == c
        &&& (v & 0x20u32 != 0) == d
        &&& (v & 0x40u32 != 0) == e
        &&& (v & 0x100u32 != 0) == f
        &&& (v & 0x80u32 != 0) == g
        &&& (v & 0x10u32 != 0) == h
        &&& (v & 0x2000u32 != 0) == i
        &&& (v & 0x1_0000u32 != 0) == j
        &&& (v & 0x8000u32 != 0) == k
    }) by (bit_vector)
        requires
            v == (if a { 1u32 } else { 0 }) | (if b { 2u32 } else { 0 }) | (if c {
                4u32
            } else {
                0
            }) | (if d { 0x20u32 } else { 0 }) | (if e { 0x40u32 } else { 0 }) | (if f {
                0x100u32
            } else {
                0
            }) | (if g { 0x80u32 } else { 0 }) | (if h { 0x10u32 } else { 0 }) | (if i {
                0x2000u32
            } else {
                0
            }) | (if j { 0x1_0000u32 } else { 0 }) | (if k { 0x8000u32 } else { 0 }),
    ;
}

impl InterruptStatus {
    /// Decode from a raw `DMASTATUS` register value.
    pub fn from_raw(raw: u32) -> (r: Self)
        ensures
            r == status_from_raw(raw),
    {
        Self {
            tx_complete: (raw & status::TI) != 0,
            tx_stopped: (raw & status::TPS) != 0,
            tx_buf_unavailable: (raw & status::TU) != 0,
            tx_underflow: (raw & status::UNF) != 0,
            rx_complete: (raw & status::RI) != 0,
            rx_stopped: (raw & status::RPS) != 0,
            rx_buf_unavailable: (raw & status::RU) != 0,
            rx_overflow: (raw & status::OVF) != 0,
            fatal_bus_error: (raw & status::FBI) != 0,
            normal_summary: (raw & status::NIS) != 0,
            abnormal_summary: (raw & status::AIS) != 0,
        }
    }

    /// Encode back to a raw register value, retaining only the bits
    /// modeled by this struct.
    ///
    /// **Do not use this for write-1-to-clear of `DMASTATUS`** — the
    /// struct does not represent every W1C flag (e.g. `ERI`, `ETI`,
    /// `RWT`, `TJT`, `EBE[25:23]`), so a roundtrip silently drops
    /// them (see [`lemma_raw_round_trip`]). Write the raw `DMASTATUS`
    /// snapshot back when clearing.
    pub fn to_raw(&self) -> (r: u32)
        ensures
            r == status_to_raw(*self),
    {
        (if self.tx_complete { status::TI } else { 0 }) | (if self.tx_stopped {
            status::TPS
        } else {
            0
        }) | (if self.tx_buf_unavailable { status::TU } else { 0 }) | (if self.tx_underflow {
            status::UNF
        } else {
            0
        }) | (if self.rx_complete { status::RI } else { 0 }) | (if self.rx_stopped {
            status::RPS
        } else {
            0
        }) | (if self.rx_buf_unavailable { status::RU } else { 0 }) | (if self.rx_overflow {
            status::OVF
        } else {
            0
        }) | (if self.fatal_bus_error { status::FBI } else { 0 }) | (if self.normal_summary {
            status::NIS
        } else {
            0
        }) | (if self.abnormal_summary { status::AIS } else { 0 })
    }

    /// True if any non-summary bit is set.
    pub fn any(&self) -> (r: bool)
        ensures
            r == (self.tx_complete || self.tx_stopped || self.tx_buf_unavailable
                || self.tx_underflow || self.rx_complete || self.rx_stopped
                || self.rx_buf_unavailable || self.rx_overflow || self.fatal_bus_error),
    {
        self.tx_complete || self.tx_stopped || self.tx_buf_unavailable || self.tx_underflow
            || self.rx_complete || self.rx_stopped || self.rx_buf_unavailable || self.rx_overflow
            || self.fatal_bus_error
    }

    /// True if any error flag is set.
    pub fn has_error(&self) -> (r: bool)
        ensures
            r == (self.tx_underflow || self.rx_overflow || self.fatal_bus_error),
    {
        self.tx_underflow || self.rx_overflow || self.fatal_bus_error
    }
}

} // verus!
