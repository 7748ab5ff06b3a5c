//! TX and RX DMA descriptor structures.
//!
//! The crate runs the **enhanced 8-word descriptor layout** (32 bytes
//! per descriptor) selected by `DMABUSMODE.ATDS = 1`. Words 4-7 carry
//! the extended status / timestamp fields; the CPU never reads them,
//! but they exist in memory so the DMA engine doesn't stomp adjacent
//! descriptors when chained at a 32-byte stride.
//!
//! | Word | TX (TDES)              | RX (RDES)              |
//! |------|------------------------|------------------------|
//! | 0    | Status / control       | Status                 |
//! | 1    | Buffer 1 size + flags  | Buffer 1 size + flags  |
//! | 2    | Buffer 1 address       | Buffer 1 address       |
//! | 3    | Next-descriptor addr   | Next-descriptor addr   |
//! | 4    | Reserved / extended    | Extended status        |
//! | 5    | Reserved               | Reserved               |
//! | 6    | Timestamp low          | Timestamp low          |
//! | 7    | Timestamp high         | Timestamp high         |
//!
//! The OWN bit (bit 31 of word 0) governs ownership: when set the DMA
//! engine owns the descriptor; when clear the CPU may access it.
//!
//! Each descriptor is modelled by the sequence of its eight words
//! (its view); every operation states which words it changes.

pub mod bits;

use vstd::prelude::*;

use self::bits::{rdes0, rdes1, tdes0, tdes1};

verus! {

// =============================================================================
// VolatileCell
// =============================================================================

/// Cell wrapper for one descriptor word.
///
/// All reads and writes of descriptor words go through `get` / `set`;
/// the cell's view is the value it holds.
#[derive(Copy)]
pub struct VolatileCell<T: Copy> {
    value: T,
}

impl<T: Copy> Clone for VolatileCell<T> {
    fn clone(&self) -> (r: Self)
        ensures
            r == *self,
    {
        *self
    }
}

impl<T: Copy> View for VolatileCell<T> {
    type V = T;

    closed spec fn view(&self) -> T {
        self.value
    }
}

impl<T: Copy> VolatileCell<T> {
    /// Create a new cell with the given initial value.
    pub fn new(value: T) -> (r: Self)
        ensures
            r@ == value,
    {
        Self { value }
    }

    /// Read the value.
    pub fn get(&self) -> (r: T)
        ensures
            r == self@,
    {
        self.value
    }

    /// Write a value.
    pub fn set(&mut self, value: T)
        ensures
            final(self)@ == value,
    {
        self.value = value;
    }

    /// Update the value using a function (read-modify-write).
    pub fn update<F>(&mut self, f: F) where F: FnOnce(T) -> T
        requires
            f.requires((old(self)@,)),
        ensures
            f.ensures((old(self)@,), final(self)@),
    {
        let old_value = self.get();
        let new_value = f(old_value);
        self.set(new_value);
    }
}

impl<T: Copy + Default> Default for VolatileCell<T> {
    fn default() -> (r: Self)
        ensures
            call_ensures(T::default, (), r@),
    {
        Self::new(T::default())
    }
}

// =============================================================================
// Spec helpers shared by both descriptor kinds
// =============================================================================

/// Flags that [`TxDescriptor::prepare`] writes into TDES0: chained mode,
/// full checksum insertion (CIC = 0b11), first / last segment, and
/// interrupt-on-completion on the last segment.
pub open spec fn tx_prepare_flags(first: bool, last: bool) -> u32 {
    tdes0::SECOND_ADDR_CHAINED | tdes0::CHECKSUM_INSERT_MASK
        | (if first { tdes0::FIRST_SEGMENT } else { 0 })
        | (if last { tdes0::LAST_SEGMENT | tdes0::INTERRUPT_ON_COMPLETE } else { 0 })
}

/// Frame length (including CRC) encoded in an RDES0 value.
pub open spec fn rdes0_frame_length(w: u32) -> nat {
    ((w & rdes0::FRAME_LEN_MASK) >> rdes0::FRAME_LEN_SHIFT) as nat
}

/// Payload length (frame length minus the 4-byte CRC, floored at zero).
pub open spec fn rdes0_payload_length(w: u32) -> nat {
    if rdes0_frame_length(w) >= 4 {
        (rdes0_frame_length(w) - 4) as nat
    } else {
        0
    }
}

proof fn lemma_frame_length_bound(w: u32)
    ensures
        (w & rdes0::FRAME_LEN_MASK) >> rdes0::FRAME_LEN_SHIFT <= 0x3FFF,
{
    assert((w & 0x3FFF_0000u32) >> 16u32 <= 0x3FFF) by (bit_vector);
}

// =============================================================================
// TX Descriptor
// =============================================================================

/// TX DMA descriptor — enhanced 8-word layout (32 bytes).
///
/// The ESP32 GMAC requires the enhanced descriptor format when
/// `DMABUSMODE.ATDS = 1`. Reserved fields below are written by the DMA
/// but unused by the CPU; they exist purely so the descriptor stride is
/// 32 bytes and the DMA does not stomp adjacent descriptors when chained.
#[derive(Clone, Copy)]
pub struct TxDescriptor {
    /// TDES0: Status and control bits (OWN, first/last segment, etc.).
    tdes0: VolatileCell<u32>,
    /// TDES1: Buffer 1 size and control flags.
    tdes1: VolatileCell<u32>,
    /// TDES2: Buffer 1 address.
    buffer_addr: VolatileCell<u32>,
    /// TDES3: Next descriptor address (chained mode).
    next_desc_addr: VolatileCell<u32>,
    /// TDES4: Reserved.
    reserved4: VolatileCell<u32>,
    /// TDES5: Reserved.
    reserved5: VolatileCell<u32>,
    /// TDES6: Timestamp low (when timestamping is enabled).
    ts_low: VolatileCell<u32>,
    /// TDES7: Timestamp high (when timestamping is enabled).
    ts_high: VolatileCell<u32>,
}

impl View for TxDescriptor {
    type V = Seq<u32>;

    /// The eight descriptor words, TDES0 first.
    closed spec fn view(&self) -> Seq<u32> {
        seq![
            self.tdes0@,
            self.tdes1@,
            self.buffer_addr@,
            self.next_desc_addr@,
            self.reserved4@,
            self.reserved5@,
            self.ts_low@,
            self.ts_high@,
        ]
    }
}

impl TxDescriptor {
    /// Descriptor size in bytes (enhanced 8-word layout).
    pub const SIZE: usize = 32;

    /// The view always has exactly eight words.
    pub broadcast proof fn lemma_view_len(d: TxDescriptor)
        ensures
            #[trigger] d@.len() == 8,
    {
    }

    /// True when the DMA engine owns this descriptor (TDES0.OWN set).
    pub open spec fn spec_owned(&self) -> bool {
        self@[0] & tdes0::OWN != 0
    }

    /// Create a new zeroed TX descriptor.
    pub fn new() -> (r: Self)
        ensures
            r@ == seq![0u32, 0, 0, 0, 0, 0, 0, 0],
    {
        Self {
            tdes0: VolatileCell::new(0),
            tdes1: VolatileCell::new(0),
            buffer_addr: VolatileCell::new(0),
            next_desc_addr: VolatileCell::new(0),
            reserved4: VolatileCell::new(0),
            reserved5: VolatileCell::new(0),
            ts_low: VolatileCell::new(0),
            ts_high: VolatileCell::new(0),
        }
    }

    /// Initialize descriptor for chained mode.
    ///
    /// Sets the buffer address, next-descriptor address, and the
    /// `SECOND_ADDR_CHAINED` flag. The descriptor is left CPU-owned.
    pub fn setup_chained(&mut self, buffer: u32, next_desc: u32)
        ensures
            final(self)@ == old(self)@.update(0, tdes0::SECOND_ADDR_CHAINED).update(1, 0).update(
                2,
                buffer,
            ).update(3, next_desc),
    {
        self.buffer_addr.set(buffer);
        self.next_desc_addr.set(next_desc);
        self.tdes0.set(tdes0::SECOND_ADDR_CHAINED);
        self.tdes1.set(0);
    }

    /// Check if DMA owns this descriptor.
    pub fn is_owned(&self) -> (r: bool)
        ensures
            r == self.spec_owned(),
    {
        (self.tdes0.get() & tdes0::OWN) != 0
    }

    /// Give ownership to DMA.
    pub fn set_owned(&mut self)
        ensures
            final(self)@ == old(self)@.update(0, old(self)@[0] | tdes0::OWN),
    {
        let v = self.tdes0.get();
        self.tdes0.set(v | tdes0::OWN);
    }

    /// Take ownership from DMA.
    pub fn clear_owned(&mut self)
        ensures
            final(self)@ == old(self)@.update(0, old(self)@[0] & !tdes0::OWN),
    {
        let v = self.tdes0.get();
        self.tdes0.set(v & !tdes0::OWN);
    }

    /// Prepare descriptor for transmission with segment flags.
    ///
    /// Sets the buffer length and first/last segment flags.
    /// Does **not** set the OWN bit — call [`set_owned`](Self::set_owned)
    /// afterwards to submit to DMA.
    ///
    /// CIC (Checksum Insertion Control) is always set to 0b11 (bits 23:22),
    /// which instructs the MAC to insert the IPv4 header checksum and the
    /// TCP/UDP/ICMP payload checksum including the pseudo-header. For
    /// non-IPv4 frames the MAC ignores the CIC field, so setting it
    /// unconditionally is safe.
    pub fn prepare(&mut self, len: usize, first: bool, last: bool)
        ensures
            final(self)@ == old(self)@.update(0, tx_prepare_flags(first, last)).update(
                1,
                (#[verifier::truncate] (len as u32)) & tdes1::BUFFER1_SIZE_MASK,
            ),
    {
        // CIC = 0b11: full TCP/UDP/ICMP + IPv4-header checksum insertion.
        let flags = tdes0::SECOND_ADDR_CHAINED | tdes0::CHECKSUM_INSERT_MASK
            | (if first { tdes0::FIRST_SEGMENT } else { 0 })
            | (if last { tdes0::LAST_SEGMENT | tdes0::INTERRUPT_ON_COMPLETE } else { 0 });
        self.tdes1.set((#[verifier::truncate] (len as u32)) & tdes1::BUFFER1_SIZE_MASK);
        self.tdes0.set(flags);
    }

    /// Prepare and submit to DMA in one operation.
    pub fn prepare_and_submit(&mut self, len: usize, first: bool, last: bool)
        ensures
            final(self)@ == old(self)@.update(0, tx_prepare_flags(first, last) | tdes0::OWN).update(
                1,
                (#[verifier::truncate] (len as u32)) & tdes1::BUFFER1_SIZE_MASK,
            ),
    {
        self.prepare(len, first, last);
        self.set_owned();
    }

    /// Check if transmission had errors (error summary bit).
    pub fn has_error(&self) -> (r: bool)
        ensures
            r == (self@[0] & tdes0::ERR_SUMMARY != 0),
    {
        (self.tdes0.get() & tdes0::ERR_SUMMARY) != 0
    }

    /// Get all error flags from TDES0.
    pub fn error_flags(&self) -> (r: u32)
        ensures
            r == self@[0] & tdes0::ALL_ERRORS,
    {
        self.tdes0.get() & tdes0::ALL_ERRORS
    }

    /// Get buffer address (TDES2).
    pub fn buffer_addr(&self) -> (r: u32)
        ensures
            r == self@[2],
    {
        self.buffer_addr.get()
    }

    /// Get next descriptor address (TDES3, chained mode).
    pub fn next_desc_addr(&self) -> (r: u32)
        ensures
            r == self@[3],
    {
        self.next_desc_addr.get()
    }

    /// Reset descriptor to initial state, preserving the chain pointer.
    pub fn reset(&mut self)
        ensures
            final(self)@ == old(self)@.update(0, tdes0::SECOND_ADDR_CHAINED).update(1, 0),
    {
        let next = self.next_desc_addr.get();
        self.tdes0.set(tdes0::SECOND_ADDR_CHAINED);
        self.tdes1.set(0);
        self.next_desc_addr.set(next);
    }

    /// Raw TDES0 value.
    pub fn raw_tdes0(&self) -> (r: u32)
        ensures
            r == self@[0],
    {
        self.tdes0.get()
    }

    /// Raw TDES1 value.
    pub fn raw_tdes1(&self) -> (r: u32)
        ensures
            r == self@[1],
    {
        self.tdes1.get()
    }
}

impl Default for TxDescriptor {
    fn default() -> (r: Self)
        ensures
            r@ == seq![0u32, 0, 0, 0, 0, 0, 0, 0],
    {
        Self::new()
    }
}

// =============================================================================
// RX Descriptor
// =============================================================================

/// RX DMA descriptor — enhanced 8-word layout (32 bytes).
///
/// See [`TxDescriptor`] for why the enhanced layout is used.
#[derive(Clone, Copy)]
pub struct RxDescriptor {
    /// RDES0: Status bits (OWN, first/last, frame length, errors).
    rdes0: VolatileCell<u32>,
    /// RDES1: Buffer 1 size and control flags.
    rdes1: VolatileCell<u32>,
    /// RDES2: Buffer 1 address.
    buffer_addr: VolatileCell<u32>,
    /// RDES3: Next descriptor address (chained mode).
    next_desc_addr: VolatileCell<u32>,
    /// RDES4: Extended status (when enabled).
    ext_status: VolatileCell<u32>,
    /// RDES5: Reserved.
    reserved5: VolatileCell<u32>,
    /// RDES6: Timestamp low (when timestamping is enabled).
    ts_low: VolatileCell<u32>,
    /// RDES7: Timestamp high (when timestamping is enabled).
    ts_high: VolatileCell<u32>,
}

impl View for RxDescriptor {
    type V = Seq<u32>;

    /// The eight descriptor words, RDES0 first.
    closed spec fn view(&self) -> Seq<u32> {
        seq![
            self.rdes0@,
            self.rdes1@,
            self.buffer_addr@,
            self.next_desc_addr@,
            self.ext_status@,
            self.reserved5@,
            self.ts_low@,
            self.ts_high@,
        ]
    }
}

impl RxDescriptor {
    /// Descriptor size in bytes (enhanced 8-word layout).
    pub const SIZE: usize = 32;

    /// The view always has exactly eight words.
    pub broadcast proof fn lemma_view_len(d: RxDescriptor)
        ensures
            #[trigger] d@.len() == 8,
    {
    }

    /// True when the DMA engine owns this descriptor (RDES0.OWN set).
    pub open spec fn spec_owned(&self) -> bool {
        self@[0] & rdes0::OWN != 0
    }

    /// First descriptor of a frame (RDES0.FS).
    pub open spec fn spec_first(&self) -> bool {
        self@[0] & rdes0::FIRST_DESC != 0
    }

    /// Last descriptor of a frame (RDES0.LS).
    pub open spec fn spec_last(&self) -> bool {
        self@[0] & rdes0::LAST_DESC != 0
    }

    /// Error summary (RDES0.ES).
    pub open spec fn spec_error(&self) -> bool {
        self@[0] & rdes0::ERR_SUMMARY != 0
    }

    /// Payload length reported in RDES0 (frame length minus CRC).
    pub open spec fn spec_payload_length(&self) -> nat {
        rdes0_payload_length(self@[0])
    }

    /// The descriptor after being handed back to the DMA: RDES0 holds
    /// exactly the OWN bit, every other word is kept.
    pub open spec fn spec_recycled(&self) -> Seq<u32> {
        self@.update(0, rdes0::OWN)
    }

    /// Create a new zeroed RX descriptor. Call
    /// [`setup_chained`](Self::setup_chained) before use.
    pub fn new() -> (r: Self)
        ensures
            r@ == seq![0u32, 0, 0, 0, 0, 0, 0, 0],
    {
        Self {
            rdes0: VolatileCell::new(0),
            rdes1: VolatileCell::new(0),
            buffer_addr: VolatileCell::new(0),
            next_desc_addr: VolatileCell::new(0),
            ext_status: VolatileCell::new(0),
            reserved5: VolatileCell::new(0),
            ts_low: VolatileCell::new(0),
            ts_high: VolatileCell::new(0),
        }
    }

    /// Configure descriptor in chained mode and give it to the DMA.
    ///
    /// Sets the buffer address, buffer size, next-descriptor address,
    /// the `SECOND_ADDR_CHAINED` flag, and the OWN bit.
    pub fn setup_chained(&mut self, buffer: u32, buffer_size: usize, next_desc: u32)
        ensures
            final(self)@ == old(self)@.update(0, rdes0::OWN).update(
                1,
                rdes1::SECOND_ADDR_CHAINED | ((#[verifier::truncate] (buffer_size as u32)) & rdes1::BUFFER1_SIZE_MASK),
            ).update(2, buffer).update(3, next_desc),
    {
        self.buffer_addr.set(buffer);
        self.next_desc_addr.set(next_desc);
        self.rdes1.set(
            rdes1::SECOND_ADDR_CHAINED | ((#[verifier::truncate] (buffer_size as u32)) & rdes1::BUFFER1_SIZE_MASK),
        );
        // Give ownership to DMA.
        self.rdes0.set(rdes0::OWN);
    }

    /// Check if DMA owns this descriptor.
    pub fn is_owned(&self) -> (r: bool)
        ensures
            r == self.spec_owned(),
    {
        (self.rdes0.get() & rdes0::OWN) != 0
    }

    /// Give ownership to DMA (RDES0 becomes exactly the OWN bit).
    pub fn set_owned(&mut self)
        ensures
            final(self)@ == old(self).spec_recycled(),
    {
        self.rdes0.set(rdes0::OWN);
    }

    /// Take ownership from DMA.
    pub fn clear_owned(&mut self)
        ensures
            final(self)@ == old(self)@.update(0, old(self)@[0] & !rdes0::OWN),
    {
        let v = self.rdes0.get();
        self.rdes0.set(v & !rdes0::OWN);
    }

    /// First descriptor of a frame.
    pub fn is_first(&self) -> (r: bool)
        ensures
            r == self.spec_first(),
    {
        (self.rdes0.get() & rdes0::FIRST_DESC) != 0
    }

    /// Last descriptor of a frame.
    pub fn is_last(&self) -> (r: bool)
        ensures
            r == self.spec_last(),
    {
        (self.rdes0.get() & rdes0::LAST_DESC) != 0
    }

    /// Complete frame in a single descriptor (both first and last).
    pub fn is_complete_frame(&self) -> (r: bool)
        ensures
            r == (self.spec_first() && self.spec_last()),
    {
        let status = self.rdes0.get();
        let both = rdes0::FIRST_DESC | rdes0::LAST_DESC;
        assert((status & (0x0000_0200u32 | 0x0000_0100u32)) == (0x0000_0200u32 | 0x0000_0100u32)
            <==> (status & 0x0000_0200u32 != 0 && status & 0x0000_0100u32 != 0)) by (bit_vector);
        (status & both) == both
    }

    /// Check if the error summary bit is set.
    pub fn has_error(&self) -> (r: bool)
        ensures
            r == self.spec_error(),
    {
        (self.rdes0.get() & rdes0::ERR_SUMMARY) != 0
    }

    /// Raw error flags from RDES0.
    pub fn error_flags(&self) -> (r: u32)
        ensures
            r == self@[0] & rdes0::ALL_ERRORS,
    {
        self.rdes0.get() & rdes0::ALL_ERRORS
    }

    /// Frame length including CRC (valid on last descriptor).
    pub fn frame_length(&self) -> (r: usize)
        ensures
            r == rdes0_frame_length(self@[0]),
            r <= 0x3FFF,
    {
        let w = self.rdes0.get();
        proof {
            lemma_frame_length_bound(w);
        }
        ((w & rdes0::FRAME_LEN_MASK) >> rdes0::FRAME_LEN_SHIFT) as usize
    }

    /// Frame length excluding the 4-byte CRC.
    pub fn payload_length(&self) -> (r: usize)
        ensures
            r == self.spec_payload_length(),
            r <= 0x3FFF,
    {
        self.frame_length().saturating_sub(4)
    }

    /// Buffer address (RDES2).
    pub fn buffer_addr(&self) -> (r: u32)
        ensures
            r == self@[2],
    {
        self.buffer_addr.get()
    }

    /// Next descriptor address (RDES3, chained mode).
    pub fn next_desc_addr(&self) -> (r: u32)
        ensures
            r == self@[3],
    {
        self.next_desc_addr.get()
    }

    /// Configured buffer size from RDES1.
    pub fn buffer_size(&self) -> (r: usize)
        ensures
            r == (self@[1] & rdes1::BUFFER1_SIZE_MASK) as usize,
    {
        (self.rdes1.get() & rdes1::BUFFER1_SIZE_MASK) as usize
    }

    /// Clear status and return the descriptor to DMA for reuse.
    pub fn recycle(&mut self)
        ensures
            final(self)@ == old(self).spec_recycled(),
    {
        self.rdes0.set(rdes0::OWN);
    }

    /// Raw RDES0 value.
    pub fn raw_rdes0(&self) -> (r: u32)
        ensures
            r == self@[0],
    {
        self.rdes0.get()
    }

    /// Raw RDES1 value.
    pub fn raw_rdes1(&self) -> (r: u32)
        ensures
            r == self@[1],
    {
        self.rdes1.get()
    }

    /// Overwrite RDES0, as the DMA engine does when it hands a filled
    /// descriptor back to the CPU.
    pub fn set_raw_rdes0(&mut self, val: u32)
        ensures
            final(self)@ == old(self)@.update(0, val),
    {
        self.rdes0.set(val);
    }
}

impl Default for RxDescriptor {
    fn default() -> (r: Self)
        ensures
            r@ == seq![0u32, 0, 0, 0, 0, 0, 0, 0],
    {
        Self::new()
    }
}

} // verus!
