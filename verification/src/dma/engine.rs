//! DMA engine managing TX/RX descriptor rings and frame I/O.
//!
//! The engine owns the descriptor rings and data buffers, providing
//! a high-level interface for frame transmission and reception without
//! any register access. Register programming is handled by the caller.
//!
//! Ring positions are counted from the ring's current index: position
//! `k` of the TX ring is descriptor `(tx_cur + k) % TX`, and likewise
//! for RX. The contracts below are stated over these positions.

use vstd::prelude::*;

use vstd::arithmetic::div_mod::{
    lemma_fundamental_div_mod, lemma_fundamental_div_mod_converse, lemma_small_mod,
};
use vstd::arithmetic::mul::{lemma_mul_inequality, lemma_mul_is_distributive_add_other_way};

use crate::dma::descriptor::bits::{rdes0, rdes1, tdes0, tdes1};
use crate::dma::descriptor::{tx_prepare_flags, RxDescriptor, TxDescriptor};
use crate::dma::ring::{address_of, DescriptorRing};
use crate::error::EmacError;

verus! {

broadcast use {TxDescriptor::lemma_view_len, RxDescriptor::lemma_view_len};

// =============================================================================
// Arithmetic lemmas
// =============================================================================

/// Position `k` of a ring whose current index is `cur`.
pub open spec fn ring_pos(cur: int, k: int, n: int) -> int {
    (cur + k) % n
}

/// Wrapping a position once: for `cur, k < n` the ring index is
/// `cur + k` or `cur + k - n`.
pub proof fn lemma_ring_pos(cur: int, k: int, n: int)
    requires
        0 <= cur < n,
        0 <= k < n,
    ensures
        ring_pos(cur, k, n) == if cur + k < n { cur + k } else { cur + k - n },
        0 <= ring_pos(cur, k, n) < n,
{
    if cur + k < n {
        lemma_small_mod((cur + k) as nat, n as nat);
    } else {
        lemma_fundamental_div_mod_converse(cur + k, n, 1, cur + k - n);
    }
}

/// Distinct positions of a ring name distinct descriptors.
pub proof fn lemma_ring_pos_injective(cur: int, i: int, j: int, n: int)
    requires
        0 <= cur < n,
        0 <= i < n,
        0 <= j < n,
        i != j,
    ensures
        ring_pos(cur, i, n) != ring_pos(cur, j, n),
{
    lemma_ring_pos(cur, i, n);
    lemma_ring_pos(cur, j, n);
}

/// Stepping one descriptor past position `t` reaches position `t + 1`.
pub proof fn lemma_ring_pos_next(cur: int, t: int, n: int)
    requires
        0 <= cur < n,
        0 <= t < n,
    ensures
        (ring_pos(cur, t, n) + 1) % n == ring_pos(cur, t + 1, n),
{
    lemma_ring_pos(cur, t, n);
    if cur + t + 1 < n {
        lemma_small_mod((cur + t + 1) as nat, n as nat);
    } else if cur + t + 1 == n {
        vstd::arithmetic::div_mod::lemma_mod_self_0(n);
    } else {
        lemma_fundamental_div_mod_converse(cur + t + 1, n, 1, cur + t + 1 - n);
        lemma_small_mod((cur + t + 1 - n) as nat, n as nat);
    }
}

/// Reading position `j` after advancing by `m` is position `(m + j) % n`.
pub proof fn lemma_ring_pos_compose(cur: int, m: int, j: int, n: int)
    requires
        0 <= cur < n,
        0 <= m <= n,
        0 <= j < n,
    ensures
        ring_pos(ring_pos(cur, m, n), j, n) == ring_pos(cur, (m + j) % n, n),
{
    vstd::arithmetic::div_mod::lemma_add_mod_noop(cur + m, j, n);
    vstd::arithmetic::div_mod::lemma_add_mod_noop(cur, m + j, n);
    lemma_small_mod(j as nat, n as nat);
    lemma_small_mod(cur as nat, n as nat);
    vstd::arithmetic::div_mod::lemma_mod_twice(cur + m, n);
    vstd::arithmetic::div_mod::lemma_mod_twice(m + j, n);
}

/// Addresses of the RX and TX descriptor arrays of `engine`.
///
/// Calls `<[T]>::as_ptr` on each ring's descriptor array and converts
/// the two pointers to addresses. Slice data pointers are never null and
/// are aligned for their element type. The two arrays are distinct
/// fields of one value, and a descriptor holds eight 32-bit words, so
/// with both rings non-empty the fields occupy disjoint memory and their
/// addresses differ. Which addresses they are depends on where the
/// engine lives and is not stated.
#[verifier::external_body]
fn ring_addresses<const RX: usize, const TX: usize, const BUF: usize>(
    engine: &DmaEngine<RX, TX, BUF>,
) -> (r: (usize, usize))
    ensures
        r.0 != 0,
        r.1 != 0,
        r.0 as nat % vstd::layout::align_of::<RxDescriptor>() == 0,
        r.1 as nat % vstd::layout::align_of::<TxDescriptor>() == 0,
        RX > 0 && TX > 0 ==> r.0 != r.1,
{
    (engine.rx_ring.descriptors.as_ptr() as usize, engine.tx_ring.descriptors.as_ptr() as usize)
}

/// On a 32-bit target truncating an address to `u32` keeps it whole.
proof fn lemma_truncation_keeps_address(addr: usize)
    ensures
        usize::BITS == 32 ==> addr as u32 == addr,
{
    assert(usize::BITS == 32 ==> addr as u32 == addr) by (bit_vector);
}

/// Number of `buf`-byte chunks needed for `len` bytes: `ceil(len / buf)`.
pub open spec fn chunks_needed(len: int, buf: int) -> int {
    len / buf + (if len % buf != 0 { 1int } else { 0int })
}

proof fn lemma_chunks_needed(len: int, buf: int, n: int)
    requires
        0 < len,
        0 < buf,
        0 < n,
        len <= buf * n,
    ensures
        1 <= chunks_needed(len, buf) <= n,
        (chunks_needed(len, buf) - 1) * buf < len,
        len <= chunks_needed(len, buf) * buf,
{
    lemma_fundamental_div_mod(len, buf);
    let q = len / buf;
    let r = len % buf;
    assert(len == buf * q + r);
    assert(0 <= r < buf);
    if r == 0 {
        assert(q >= 1) by (nonlinear_arith)
            requires
                len == buf * q,
                len > 0,
                buf > 0,
        ;
        assert(q <= n) by (nonlinear_arith)
            requires
                len == buf * q,
                len <= buf * n,
                buf > 0,
        ;
        assert((q - 1) * buf < len) by (nonlinear_arith)
            requires
                len == buf * q,
                buf > 0,
        ;
        assert(len <= q * buf) by (nonlinear_arith)
            requires
                len == buf * q,
        ;
    } else {
        assert(q >= 0) by (nonlinear_arith)
            requires
                len == buf * q + r,
                0 <= r < buf,
                len > 0,
        ;
        assert(q + 1 <= n) by (nonlinear_arith)
            requires
                len == buf * q + r,
                0 < r < buf,
                len <= buf * n,
                buf > 0,
        ;
        assert(q * buf < len) by (nonlinear_arith)
            requires
                len == buf * q + r,
                0 < r,
        ;
        assert(len <= (q + 1) * buf) by (nonlinear_arith)
            requires
                len == buf * q + r,
                r < buf,
        ;
    }
}

/// Byte `k` of a frame laid out across consecutive `buf`-byte chunks
/// lives in chunk `k / buf` at offset `k % buf`.
proof fn lemma_chunk_offset(i: int, b: int, buf: int)
    requires
        0 <= i,
        0 <= b < buf,
    ensures
        (i * buf + b) / buf == i,
        (i * buf + b) % buf == b,
{
    lemma_fundamental_div_mod_converse(i * buf + b, buf, i, b);
}

// =============================================================================
// DMA engine
// =============================================================================

/// DMA engine with statically allocated buffers.
///
/// # Const generics
/// - `RX`: number of RX descriptors/buffers
/// - `TX`: number of TX descriptors/buffers
/// - `BUF`: buffer size per descriptor (bytes)
pub struct DmaEngine<const RX: usize, const TX: usize, const BUF: usize> {
    /// RX descriptor ring.
    rx_ring: DescriptorRing<RxDescriptor, RX>,
    /// TX descriptor ring.
    tx_ring: DescriptorRing<TxDescriptor, TX>,
    /// RX data buffers.
    rx_buffers: [[u8; BUF]; RX],
    /// TX data buffers.
    tx_buffers: [[u8; BUF]; TX],
    /// Whether the engine has been initialized.
    initialized: bool,
}

impl<const RX: usize, const TX: usize, const BUF: usize> DmaEngine<RX, TX, BUF> {
    // ── Model ─────────────────────────────────────────────

    /// RX descriptors, by ring index.
    pub closed spec fn rx_descs(&self) -> Seq<RxDescriptor> {
        self.rx_ring.descs()
    }

    /// Current RX ring index.
    pub closed spec fn rx_cur(&self) -> int {
        self.rx_ring.cur()
    }

    /// TX descriptors, by ring index.
    pub closed spec fn tx_descs(&self) -> Seq<TxDescriptor> {
        self.tx_ring.descs()
    }

    /// Current TX ring index.
    pub closed spec fn tx_cur(&self) -> int {
        self.tx_ring.cur()
    }

    /// RX data buffers, by ring index.
    pub closed spec fn rx_bufs(&self) -> Seq<Seq<u8>> {
        self.rx_buffers@.map_values(|b: [u8; BUF]| b@)
    }

    /// TX data buffers, by ring index.
    pub closed spec fn tx_bufs(&self) -> Seq<Seq<u8>> {
        self.tx_buffers@.map_values(|b: [u8; BUF]| b@)
    }

    /// Whether [`init`](Self::init) has run.
    pub closed spec fn spec_initialized(&self) -> bool {
        self.initialized
    }

    /// Sizes for which every method's arithmetic fits in `usize`: both
    /// rings non-empty and the whole engine's memory addressable.
    pub open spec fn params_ok() -> bool {
        &&& RX > 0
        &&& TX > 0
        &&& 2 * RX <= usize::MAX
        &&& 2 * TX <= usize::MAX
        &&& RX * (32 + BUF) + TX * (32 + BUF) <= usize::MAX
    }

    /// Well-formedness: both rings hold their descriptors with a valid
    /// current index, and every buffer is `BUF` bytes long.
    pub open spec fn wf(&self) -> bool {
        &&& Self::params_ok()
        &&& self.rx_descs().len() == RX
        &&& self.tx_descs().len() == TX
        &&& 0 <= self.rx_cur() < RX
        &&& 0 <= self.tx_cur() < TX
        &&& self.rx_bufs().len() == RX
        &&& self.tx_bufs().len() == TX
        &&& forall|i: int| 0 <= i < RX ==> (#[trigger] self.rx_bufs()[i]).len() == BUF
        &&& forall|i: int| 0 <= i < TX ==> (#[trigger] self.tx_bufs()[i]).len() == BUF
    }

    /// TX descriptor at ring position `k`.
    pub open spec fn tx_at(&self, k: int) -> TxDescriptor {
        self.tx_descs()[ring_pos(self.tx_cur(), k, TX as int)]
    }

    /// RX descriptor at ring position `k`.
    pub open spec fn rx_at(&self, k: int) -> RxDescriptor {
        self.rx_descs()[ring_pos(self.rx_cur(), k, RX as int)]
    }

    // ── TX model ──────────────────────────────────────────

    /// First position at or after `k` whose TX descriptor is DMA-owned,
    /// or `TX` if there is none.
    pub open spec fn tx_first_owned_from(&self, k: nat) -> nat
        decreases TX - k,
    {
        if k >= TX {
            TX as nat
        } else if self.tx_at(k as int).spec_owned() {
            k
        } else {
            self.tx_first_owned_from(k + 1)
        }
    }

    /// Number of consecutive CPU-owned TX descriptors from the current one.
    pub open spec fn spec_tx_available(&self) -> nat {
        self.tx_first_owned_from(0)
    }

    /// Number of CPU-owned TX descriptors among the first `n` of the ring.
    pub open spec fn tx_free_count(&self, n: int) -> nat
        decreases n,
    {
        if n <= 0 {
            0
        } else {
            self.tx_free_count(n - 1) + if self.tx_descs()[n - 1].spec_owned() {
                0nat
            } else {
                1nat
            }
        }
    }

    /// Length of chunk `k` of a `len`-byte frame split into `BUF`-byte
    /// buffers.
    pub open spec fn tx_chunk(len: int, k: int) -> int {
        if len - k * BUF < BUF {
            len - k * BUF
        } else {
            BUF as int
        }
    }

    /// Whether a frame of `len` bytes can be queued right now.
    pub open spec fn spec_can_transmit(&self, len: int) -> bool {
        &&& len > 0
        &&& len <= BUF * TX
        &&& chunks_needed(len, BUF as int) <= self.spec_tx_available()
    }

    /// Descriptor words after `transmit` filled position `k` of an
    /// `m`-chunk frame of `len` bytes and handed it to the DMA.
    pub open spec fn tx_submitted(d: TxDescriptor, len: int, k: int, m: int) -> Seq<u32> {
        d@.update(0, tx_prepare_flags(k == 0, k == m - 1) | tdes0::OWN).update(
            1,
            (Self::tx_chunk(len, k) as u32) & tdes1::BUFFER1_SIZE_MASK,
        )
    }

    /// Buffer contents after `transmit` copied chunk `k` of `data` into it.
    pub open spec fn tx_filled(buf: Seq<u8>, data: Seq<u8>, k: int) -> Seq<u8> {
        Seq::new(
            buf.len(),
            |b: int|
                if b < Self::tx_chunk(data.len() as int, k) {
                    data[k * BUF + b]
                } else {
                    buf[b]
                },
        )
    }

    /// `new` is `old` with a `len`-byte `data` frame queued in the first
    /// `m` TX ring positions: those descriptors are prepared and
    /// DMA-owned, their buffers hold the frame's chunks, the TX ring has
    /// moved on by `m`, and nothing else changed.
    pub open spec fn tx_queued(old: &Self, new: &Self, data: Seq<u8>, m: int) -> bool {
        &&& new.tx_descs().len() == TX
        &&& new.tx_bufs().len() == TX
        &&& forall|k: int|
            0 <= k < TX ==> (#[trigger] new.tx_descs()[ring_pos(old.tx_cur(), k, TX as int)])@
                == if k < m {
                Self::tx_submitted(old.tx_at(k), data.len() as int, k, m)
            } else {
                old.tx_at(k)@
            }
        &&& forall|k: int|
            0 <= k < TX ==> #[trigger] new.tx_bufs()[ring_pos(old.tx_cur(), k, TX as int)]
                == if k < m {
                Self::tx_filled(old.tx_bufs()[ring_pos(old.tx_cur(), k, TX as int)], data, k)
            } else {
                old.tx_bufs()[ring_pos(old.tx_cur(), k, TX as int)]
            }
        &&& new.tx_cur() == ring_pos(old.tx_cur(), m, TX as int)
        &&& new.rx_descs() == old.rx_descs()
        &&& new.rx_cur() == old.rx_cur()
        &&& new.rx_bufs() == old.rx_bufs()
        &&& new.spec_initialized() == old.spec_initialized()
    }

    // ── RX model ──────────────────────────────────────────

    /// First position at or after `k` whose RX descriptor is DMA-owned or
    /// ends a frame, or `RX` if there is none.
    pub open spec fn rx_stop_from(&self, k: nat) -> nat
        decreases RX - k,
    {
        if k >= RX {
            RX as nat
        } else if self.rx_at(k as int).spec_owned() || self.rx_at(k as int).spec_last() {
            k
        } else {
            self.rx_stop_from(k + 1)
        }
    }

    /// Where the frame starting at the current RX descriptor stops.
    pub open spec fn rx_stop(&self) -> nat {
        self.rx_stop_from(0)
    }

    /// The frame at the current RX position is complete: its last
    /// descriptor has been handed back to the CPU.
    pub open spec fn rx_frame_ready(&self) -> bool {
        self.rx_stop() < RX && !self.rx_at(self.rx_stop() as int).spec_owned()
    }

    /// Descriptors a flush hands back to the DMA: every CPU-owned one up
    /// to and including the frame's last descriptor.
    pub open spec fn rx_flush_count(&self) -> nat {
        if self.rx_frame_ready() {
            self.rx_stop() + 1
        } else {
            self.rx_stop()
        }
    }

    /// Number of DMA-owned (free) RX descriptors among the first `n`.
    pub open spec fn rx_owned_count(&self, n: int) -> nat
        decreases n,
    {
        if n <= 0 {
            0
        } else {
            self.rx_owned_count(n - 1) + if self.rx_descs()[n - 1].spec_owned() {
                1nat
            } else {
                0nat
            }
        }
    }

    /// `new` is `old` with the first `n` RX ring positions recycled
    /// (handed back to the DMA) and the RX ring moved on by `n`; nothing
    /// else changed.
    pub open spec fn rx_consumed(old: &Self, new: &Self, n: int) -> bool {
        &&& new.rx_descs().len() == RX
        &&& forall|k: int|
            0 <= k < RX ==> (#[trigger] new.rx_descs()[ring_pos(old.rx_cur(), k, RX as int)])@
                == if k < n {
                old.rx_at(k).spec_recycled()
            } else {
                old.rx_at(k)@
            }
        &&& new.rx_cur() == ring_pos(old.rx_cur(), n, RX as int)
        &&& new.rx_bufs() == old.rx_bufs()
        &&& new.tx_descs() == old.tx_descs()
        &&& new.tx_cur() == old.tx_cur()
        &&& new.tx_bufs() == old.tx_bufs()
        &&& new.spec_initialized() == old.spec_initialized()
    }

    /// What [`receive`](Self::receive) returns for a buffer of `blen` bytes.
    pub open spec fn receive_result(&self, blen: nat) -> Result<Option<usize>, EmacError> {
        let d0 = self.rx_at(0);
        if d0.spec_owned() {
            Ok(None)
        } else if d0.spec_first() && d0.spec_last() {
            if d0.spec_error() {
                Err(EmacError::FrameError)
            } else if blen < d0.spec_payload_length() {
                Err(EmacError::BufferTooSmall)
            } else {
                Ok(Some(d0.spec_payload_length() as usize))
            }
        } else if !d0.spec_first() {
            Ok(None)
        } else if d0.spec_error() {
            Err(EmacError::FrameError)
        } else if !self.rx_frame_ready() {
            Ok(None)
        } else {
            let p = self.rx_at(self.rx_stop() as int).spec_payload_length();
            if p == 0 {
                Ok(None)
            } else if blen < p {
                Err(EmacError::BufferTooSmall)
            } else {
                Ok(Some(p as usize))
            }
        }
    }

    /// How many RX descriptors [`receive`](Self::receive) hands back to
    /// the DMA for a buffer of `blen` bytes.
    pub open spec fn receive_consumed(&self, blen: nat) -> nat {
        let d0 = self.rx_at(0);
        if d0.spec_owned() {
            0
        } else if d0.spec_first() && d0.spec_last() {
            1
        } else if !d0.spec_first() || d0.spec_error() {
            self.rx_flush_count()
        } else if !self.rx_frame_ready() {
            0
        } else if self.rx_at(self.rx_stop() as int).spec_payload_length() == 0 {
            0
        } else {
            self.rx_flush_count()
        }
    }

    /// Byte `k` of the received frame starting at the current RX
    /// descriptor: frames fill consecutive `BUF`-byte buffers.
    pub open spec fn rx_frame_byte(&self, k: int) -> u8 {
        self.rx_bufs()[ring_pos(self.rx_cur(), k / (BUF as int), RX as int)][k % (BUF as int)]
    }

    /// The caller's buffer after [`receive`](Self::receive): the frame's
    /// bytes in front when a frame is delivered, unchanged otherwise.
    pub open spec fn receive_buffer(&self, buf: Seq<u8>) -> Seq<u8> {
        match self.receive_result(buf.len()) {
            Ok(Some(n)) => Seq::new(
                buf.len(),
                |k: int|
                    if k < n {
                        self.rx_frame_byte(k)
                    } else {
                        buf[k]
                    },
            ),
            _ => buf,
        }
    }

    /// The delivered frame fits in the descriptors it spans. Receiving a
    /// frame longer than its buffers hold would index past a buffer.
    pub open spec fn spec_receive_fits(&self, blen: nat) -> bool {
        match self.receive_result(blen) {
            Ok(Some(n)) => n <= self.receive_consumed(blen) * BUF,
            _ => true,
        }
    }

    /// What [`peek_frame_length`](Self::peek_frame_length) returns.
    pub open spec fn spec_peek_frame_length(&self) -> Option<usize> {
        let d0 = self.rx_at(0);
        if d0.spec_owned() || d0.spec_error() || !d0.spec_first() {
            None
        } else if self.rx_frame_ready() {
            Some(self.rx_at(self.rx_stop() as int).spec_payload_length() as usize)
        } else {
            None
        }
    }

    // ── Model lemmas ──────────────────────────────────────

    /// The free run from `k` is the first DMA-owned position at or after
    /// `k`.
    pub proof fn lemma_tx_first_owned_from(&self, k: nat)
        requires
            k <= TX,
        ensures
            k <= self.tx_first_owned_from(k) <= TX,
            forall|j: int|
                k <= j < self.tx_first_owned_from(k) ==> !(#[trigger] self.tx_at(j)).spec_owned(),
            self.tx_first_owned_from(k) < TX ==> self.tx_at(
                self.tx_first_owned_from(k) as int,
            ).spec_owned(),
        decreases TX - k,
    {
        if k < TX && !self.tx_at(k as int).spec_owned() {
            self.lemma_tx_first_owned_from(k + 1);
        }
    }

    /// The first-owned position is determined by the descriptors: if
    /// `[k, r)` are free and `r` is owned (or the end), it is `r`.
    pub proof fn lemma_tx_first_owned_from_is(&self, k: nat, r: nat)
        requires
            k <= r <= TX,
            forall|j: int| k <= j < r ==> !(#[trigger] self.tx_at(j)).spec_owned(),
            r < TX ==> self.tx_at(r as int).spec_owned(),
        ensures
            self.tx_first_owned_from(k) == r,
        decreases r - k,
    {
        if k < r {
            self.lemma_tx_first_owned_from_is(k + 1, r);
        }
    }

    /// When every RX descriptor among the first `n` is DMA-owned, the
    /// owned count is `n`.
    pub proof fn lemma_rx_owned_count_all(&self, n: int)
        requires
            0 <= n <= self.rx_descs().len(),
            forall|j: int| 0 <= j < n ==> (#[trigger] self.rx_descs()[j]).spec_owned(),
        ensures
            self.rx_owned_count(n) == n,
        decreases n,
    {
        if n > 0 {
            self.lemma_rx_owned_count_all(n - 1);
        }
    }

    /// The stop position from `k` is the first owned-or-last position at
    /// or after `k`.
    pub proof fn lemma_rx_stop_from(&self, k: nat)
        requires
            k <= RX,
        ensures
            k <= self.rx_stop_from(k) <= RX,
            forall|j: int|
                k <= j < self.rx_stop_from(k) ==> !(#[trigger] self.rx_at(j)).spec_owned()
                    && !self.rx_at(j).spec_last(),
            self.rx_stop_from(k) < RX ==> (self.rx_at(self.rx_stop_from(k) as int).spec_owned()
                || self.rx_at(self.rx_stop_from(k) as int).spec_last()),
        decreases RX - k,
    {
        if k < RX && !self.rx_at(k as int).spec_owned() && !self.rx_at(k as int).spec_last() {
            self.lemma_rx_stop_from(k + 1);
        }
    }

    /// The stop position is determined by the descriptors.
    pub proof fn lemma_rx_stop_from_is(&self, k: nat, r: nat)
        requires
            k <= r <= RX,
            forall|j: int|
                k <= j < r ==> !(#[trigger] self.rx_at(j)).spec_owned() && !self.rx_at(
                    j,
                ).spec_last(),
            r < RX ==> (self.rx_at(r as int).spec_owned() || self.rx_at(r as int).spec_last()),
        ensures
            self.rx_stop_from(k) == r,
        decreases r - k,
    {
        if k < r {
            self.lemma_rx_stop_from_is(k + 1, r);
        }
    }
}


impl<const RX: usize, const TX: usize, const BUF: usize> DmaEngine<RX, TX, BUF> {
    /// RX descriptor `i` after [`init`](Self::init): DMA-owned, chained,
    /// pointing at buffer `i` (at `buf_base + i * BUF`) and at descriptor
    /// `(i + 1) % RX` (at `desc_base + 32 * ((i + 1) % RX)`).
    pub open spec fn rx_chained(d: RxDescriptor, desc_base: usize, buf_base: usize, i: int) -> Seq<
        u32,
    > {
        d@.update(0, rdes0::OWN).update(
            1,
            rdes1::SECOND_ADDR_CHAINED | ((BUF as u32) & rdes1::BUFFER1_SIZE_MASK),
        ).update(2, buf_base.wrapping_add((i * BUF) as usize) as u32).update(
            3,
            desc_base.wrapping_add((32 * ((i + 1) % (RX as int))) as usize) as u32,
        )
    }

    /// TX descriptor `i` after [`init`](Self::init): CPU-owned, chained,
    /// pointing at buffer `i` and at descriptor `(i + 1) % TX`.
    pub open spec fn tx_chained(d: TxDescriptor, desc_base: usize, buf_base: usize, i: int) -> Seq<
        u32,
    > {
        d@.update(0, tdes0::SECOND_ADDR_CHAINED).update(1, 0).update(
            2,
            buf_base.wrapping_add((i * BUF) as usize) as u32,
        ).update(3, desc_base.wrapping_add((32 * ((i + 1) % (TX as int))) as usize) as u32)
    }

    /// Every RX descriptor of `new` is the corresponding one of `old`
    /// chained as [`rx_chained`](Self::rx_chained) says.
    pub open spec fn rx_ring_chained(
        old: Seq<RxDescriptor>,
        new: Seq<RxDescriptor>,
        desc_base: usize,
        buf_base: usize,
    ) -> bool {
        forall|i: int|
            0 <= i < RX ==> (#[trigger] new[i])@ == Self::rx_chained(old[i], desc_base, buf_base, i)
    }

    /// Every TX descriptor of `new` is the corresponding one of `old`
    /// chained as [`tx_chained`](Self::tx_chained) says.
    pub open spec fn tx_ring_chained(
        old: Seq<TxDescriptor>,
        new: Seq<TxDescriptor>,
        desc_base: usize,
        buf_base: usize,
    ) -> bool {
        forall|i: int|
            0 <= i < TX ==> (#[trigger] new[i])@ == Self::tx_chained(old[i], desc_base, buf_base, i)
    }

    /// The address the last RX descriptor chains back to: the RX ring's
    /// base once the chain is set up.
    pub open spec fn rx_base_link(&self) -> u32 {
        self.rx_descs()[RX - 1]@[3]
    }

    /// The address the last TX descriptor chains back to: the TX ring's
    /// base once the chain is set up.
    pub open spec fn tx_base_link(&self) -> u32 {
        self.tx_descs()[TX - 1]@[3]
    }

    /// `new` is `old` after [`init`](Self::init) set up both circular
    /// chains with ring bases `rx_base` and `tx_base`: every descriptor
    /// points at its buffer and the next descriptor, the whole TX ring is
    /// free, every RX descriptor waits for the DMA, both indices are 0 and
    /// the buffers are untouched.
    pub open spec fn set_up_from(old: &Self, new: &Self, rx_base: u32, tx_base: u32) -> bool {
        &&& new.wf()
        &&& new.spec_initialized()
        &&& new.rx_cur() == 0
        &&& new.tx_cur() == 0
        &&& new.rx_bufs() == old.rx_bufs()
        &&& new.tx_bufs() == old.tx_bufs()
        &&& exists|desc_base: usize, buf_base: usize|
            rx_base == desc_base as u32 && #[trigger] Self::rx_ring_chained(
                old.rx_descs(),
                new.rx_descs(),
                desc_base,
                buf_base,
            )
        &&& exists|desc_base: usize, buf_base: usize|
            tx_base == desc_base as u32 && #[trigger] Self::tx_ring_chained(
                old.tx_descs(),
                new.tx_descs(),
                desc_base,
                buf_base,
            )
        &&& new.rx_base_link() == rx_base
        &&& new.tx_base_link() == tx_base
        &&& usize::BITS == 32 ==> rx_base != 0 && tx_base != 0 && rx_base != tx_base
        &&& usize::BITS == 32 ==> rx_base as nat % vstd::layout::align_of::<RxDescriptor>() == 0
            && tx_base as nat % vstd::layout::align_of::<TxDescriptor>() == 0
        &&& new.spec_tx_available() == TX
        &&& new.rx_owned_count(RX as int) == RX
    }

    /// Create a new DMA engine (all zeroed, not yet initialized).
    pub fn new() -> (r: Self)
        ensures
            Self::params_ok() ==> r.wf(),
            !r.spec_initialized(),
            r.rx_cur() == 0,
            r.tx_cur() == 0,
            forall|i: int| 0 <= i < RX ==> (#[trigger] r.rx_descs()[i])@ == seq![0u32, 0, 0, 0, 0, 0, 0, 0],
            forall|i: int| 0 <= i < TX ==> (#[trigger] r.tx_descs()[i])@ == seq![0u32, 0, 0, 0, 0, 0, 0, 0],
            forall|i: int, b: int| 0 <= i < RX && 0 <= b < BUF ==> #[trigger] r.rx_bufs()[i][b] == 0,
            forall|i: int, b: int| 0 <= i < TX && 0 <= b < BUF ==> #[trigger] r.tx_bufs()[i][b] == 0,
    {
        let rx_desc = RxDescriptor::new();
        let tx_desc = TxDescriptor::new();
        let r = Self {
            rx_ring: DescriptorRing::new([rx_desc; RX]),
            tx_ring: DescriptorRing::new([tx_desc; TX]),
            rx_buffers: [[0u8; BUF]; RX],
            tx_buffers: [[0u8; BUF]; TX],
            initialized: false,
        };
        r
    }

    /// Initialize descriptor chains.
    ///
    /// Sets up chained descriptors: each points to its buffer and the next
    /// descriptor. The last descriptor chains back to the first (circular).
    /// RX descriptors are handed to the DMA, TX descriptors stay with the
    /// CPU, and both ring indices return to 0.
    ///
    /// Returns `(rx_base_addr, tx_base_addr)` for programming DMA registers.
    pub fn init(&mut self) -> (r: (u32, u32))
        requires
            old(self).wf(),
        ensures
            final(self).wf(),
            final(self).spec_initialized(),
            final(self).rx_cur() == 0,
            final(self).tx_cur() == 0,
            final(self).rx_bufs() == old(self).rx_bufs(),
            final(self).tx_bufs() == old(self).tx_bufs(),
            exists|desc_base: usize, buf_base: usize|
                r.0 == desc_base as u32 && #[trigger] Self::rx_ring_chained(
                    old(self).rx_descs(),
                    final(self).rx_descs(),
                    desc_base,
                    buf_base,
                ),
            exists|desc_base: usize, buf_base: usize|
                r.1 == desc_base as u32 && #[trigger] Self::tx_ring_chained(
                    old(self).tx_descs(),
                    final(self).tx_descs(),
                    desc_base,
                    buf_base,
                ),
            // The chains are circular: the last descriptor points back at
            // the base address handed to the DMA.
            final(self).rx_descs()[RX - 1]@[3] == r.0,
            final(self).tx_descs()[TX - 1]@[3] == r.1,
            // The whole TX ring is free and every RX descriptor waits for
            // the DMA.
            final(self).spec_tx_available() == TX,
            final(self).rx_owned_count(RX as int) == RX,
            // On the 32-bit target the bases are the rings' whole
            // addresses: never null, aligned as descriptors must be.
            usize::BITS == 32 ==> r.0 != 0 && r.1 != 0 && r.0 != r.1,
            usize::BITS == 32 ==> r.0 as nat % vstd::layout::align_of::<RxDescriptor>() == 0
                && r.1 as nat % vstd::layout::align_of::<TxDescriptor>() == 0,
            Self::set_up_from(&*old(self), &*final(self), r.0, r.1),
    {
        let ghost old_rx = self.rx_descs();
        let ghost old_tx = self.tx_descs();
        let (rx_desc_base, tx_desc_base) = ring_addresses(&*self);
        let rx_buf_base: usize = address_of(&self.rx_buffers);
        let tx_buf_base: usize = address_of(&self.tx_buffers);
        proof {
            Self::lemma_products_fit();
        }

        // Set up RX descriptors: each points to its buffer and next descriptor.
        let mut i: usize = 0;
        while i < RX
            invariant
                self.wf(),
                old_rx.len() == RX,
                0 <= i <= RX,
                Self::params_ok(),
                RX * BUF <= usize::MAX,
                RX * 32 <= usize::MAX,
                forall|j: int|
                    0 <= j < i ==> (#[trigger] self.rx_descs()[j])@ == Self::rx_chained(
                        old_rx[j],
                        rx_desc_base,
                        rx_buf_base,
                        j,
                    ),
                forall|j: int| i <= j < RX ==> #[trigger] self.rx_descs()[j] == old_rx[j],
                self.rx_cur() == old(self).rx_cur(),
                self.rx_bufs() == old(self).rx_bufs(),
                self.tx_descs() == old(self).tx_descs(),
                self.tx_cur() == old(self).tx_cur(),
                self.tx_bufs() == old(self).tx_bufs(),
            decreases RX - i,
        {
            let next_idx = (i + 1) % RX;
            proof {
                lemma_mul_inequality(i as int, RX as int, BUF as int);
                lemma_small_mod(i as nat, RX as nat);
            }
            let offset: usize = i * BUF;
            let buffer = #[verifier::truncate] (rx_buf_base.wrapping_add(offset) as u32);
            let next_desc = #[verifier::truncate] (rx_desc_base.wrapping_add(
                next_idx * RxDescriptor::SIZE,
            ) as u32);
            self.rx_ring.get_mut(i).setup_chained(buffer, BUF, next_desc);
            i += 1;
        }

        // Set up TX descriptors: each points to its buffer and next descriptor.
        let mut i: usize = 0;
        while i < TX
            invariant
                self.wf(),
                old_tx.len() == TX,
                0 <= i <= TX,
                Self::params_ok(),
                TX * BUF <= usize::MAX,
                TX * 32 <= usize::MAX,
                forall|j: int|
                    0 <= j < i ==> (#[trigger] self.tx_descs()[j])@ == Self::tx_chained(
                        old_tx[j],
                        tx_desc_base,
                        tx_buf_base,
                        j,
                    ),
                forall|j: int| i <= j < TX ==> #[trigger] self.tx_descs()[j] == old_tx[j],
                forall|j: int|
                    0 <= j < RX ==> (#[trigger] self.rx_descs()[j])@ == Self::rx_chained(
                        old_rx[j],
                        rx_desc_base,
                        rx_buf_base,
                        j,
                    ),
                self.tx_cur() == old(self).tx_cur(),
                self.rx_bufs() == old(self).rx_bufs(),
                self.tx_bufs() == old(self).tx_bufs(),
            decreases TX - i,
        {
            let next_idx = (i + 1) % TX;
            proof {
                lemma_mul_inequality(i as int, TX as int, BUF as int);
                lemma_small_mod(i as nat, TX as nat);
            }
            let offset: usize = i * BUF;
            let buffer = #[verifier::truncate] (tx_buf_base.wrapping_add(offset) as u32);
            let next_desc = #[verifier::truncate] (tx_desc_base.wrapping_add(
                next_idx * TxDescriptor::SIZE,
            ) as u32);
            self.tx_ring.get_mut(i).setup_chained(buffer, next_desc);
            i += 1;
        }

        self.rx_ring.reset();
        self.tx_ring.reset();
        self.initialized = true;

        let rx_base = #[verifier::truncate] (rx_desc_base as u32);
        let tx_base = #[verifier::truncate] (tx_desc_base as u32);
        proof {
            lemma_truncation_keeps_address(rx_desc_base);
            lemma_truncation_keeps_address(tx_desc_base);
            assert(((RX - 1) + 1) % (RX as int) == 0) by {
                lemma_small_mod(0, RX as nat);
                vstd::arithmetic::div_mod::lemma_mod_self_0(RX as int);
            }
            assert(((TX - 1) + 1) % (TX as int) == 0) by {
                vstd::arithmetic::div_mod::lemma_mod_self_0(TX as int);
            }
            assert(rx_desc_base.wrapping_add(0) == rx_desc_base);
            assert(tx_desc_base.wrapping_add(0) == tx_desc_base);
            assert(Self::rx_ring_chained(old_rx, self.rx_descs(), rx_desc_base, rx_buf_base));
            assert(Self::tx_ring_chained(old_tx, self.tx_descs(), tx_desc_base, tx_buf_base));
            assert(rdes0::OWN & rdes0::OWN != 0) by (bit_vector);
            assert(tdes0::SECOND_ADDR_CHAINED & tdes0::OWN == 0) by (bit_vector);
            assert forall|j: int| 0 <= j < RX implies (#[trigger] self.rx_descs()[j]).spec_owned() by {
                assert(self.rx_descs()[j]@[0] == rdes0::OWN);
            }
            self.lemma_rx_owned_count_all(RX as int);
            assert forall|j: int| 0 <= j < TX implies !(#[trigger] self.tx_at(j)).spec_owned() by {
                lemma_ring_pos(0, j, TX as int);
                assert(self.tx_at(j)@[0] == tdes0::SECOND_ADDR_CHAINED);
            }
            self.lemma_tx_first_owned_from_is(0, TX as nat);
        }
        (rx_base, tx_base)
    }

    /// The buffer arrays' byte counts fit in `usize`.
    proof fn lemma_products_fit()
        requires
            Self::params_ok(),
        ensures
            RX * BUF <= usize::MAX,
            TX * BUF <= usize::MAX,
            BUF * TX <= usize::MAX,
            RX * 32 <= usize::MAX,
            TX * 32 <= usize::MAX,
    {
        assert(RX * (32 + BUF) == 32 * RX + RX * BUF) by (nonlinear_arith);
        assert(TX * (32 + BUF) == 32 * TX + TX * BUF) by (nonlinear_arith);
        assert(BUF * TX == TX * BUF) by (nonlinear_arith);
    }

    /// Check if initialized.
    pub fn is_initialized(&self) -> (r: bool)
        ensures
            r == self.spec_initialized(),
    {
        self.initialized
    }

    /// Total static memory usage in bytes: both descriptor rings
    /// (32 bytes per descriptor) plus both buffer arrays.
    pub fn memory_usage() -> (r: usize)
        requires
            RX * (32 + BUF) + TX * (32 + BUF) <= usize::MAX,
        ensures
            r == RX * 32 + TX * 32 + RX * BUF + TX * BUF,
    {
        assert(RX * (32 + BUF) == 32 * RX + RX * BUF) by (nonlinear_arith);
        assert(TX * (32 + BUF) == 32 * TX + TX * BUF) by (nonlinear_arith);
        let rx_desc = RX * RxDescriptor::SIZE;
        let tx_desc = TX * TxDescriptor::SIZE;
        let rx_buf = RX * BUF;
        let tx_buf = TX * BUF;
        rx_desc + tx_desc + rx_buf + tx_buf
    }
}


impl<const RX: usize, const TX: usize, const BUF: usize> DmaEngine<RX, TX, BUF> {
    // ── Transmission ──────────────────────────────────────

    /// Count available (CPU-owned) TX descriptors starting from current:
    /// the run of consecutive CPU-owned descriptors, in ring order.
    pub fn tx_available(&self) -> (r: usize)
        requires
            self.wf(),
        ensures
            r == self.spec_tx_available(),
            r <= TX,
    {
        let current = self.tx_ring.current_index();
        let mut count: usize = 0;
        let mut i: usize = 0;
        while i < TX
            invariant
                self.wf(),
                current == self.tx_cur(),
                0 <= i <= TX,
                count == i,
                forall|j: int| 0 <= j < i ==> !(#[trigger] self.tx_at(j)).spec_owned(),
            decreases TX - i,
        {
            let idx = (current + i) % TX;
            proof {
                lemma_ring_pos(current as int, i as int, TX as int);
                lemma_small_mod(idx as nat, TX as nat);
            }
            if !self.tx_ring.get(idx).is_owned() {
                count += 1;
            } else {
                proof {
                    self.lemma_tx_first_owned_from_is(0, i as nat);
                }
                return count;
            }
            i += 1;
        }
        proof {
            self.lemma_tx_first_owned_from_is(0, TX as nat);
        }
        count
    }

    /// Check if there's room to transmit a frame of given length.
    pub fn can_transmit(&self, len: usize) -> (r: bool)
        requires
            self.wf(),
        ensures
            r == self.spec_can_transmit(len as int),
    {
        proof {
            Self::lemma_products_fit();
        }
        if len == 0 || len > BUF * TX {
            return false;
        }
        let needed = Self::chunks_for(len);
        self.tx_available() >= needed
    }

    /// Number of `BUF`-byte descriptors a `len`-byte frame occupies.
    fn chunks_for(len: usize) -> (r: usize)
        requires
            Self::params_ok(),
            0 < len <= BUF * TX,
        ensures
            r == chunks_needed(len as int, BUF as int),
            1 <= r <= TX,
            (r - 1) * BUF < len <= r * BUF,
    {
        proof {
            assert(BUF > 0) by (nonlinear_arith)
                requires
                    0 < len <= BUF * TX,
            ;
            lemma_chunks_needed(len as int, BUF as int, TX as int);
        }
        let extra: usize = if len % BUF != 0 { 1 } else { 0 };
        len / BUF + extra
    }

    /// Count the CPU-owned (completed or never submitted) TX descriptors
    /// in the whole ring.
    pub fn tx_reclaim(&mut self) -> (r: usize)
        requires
            old(self).wf(),
        ensures
            *final(self) == *old(self),
            r == old(self).tx_free_count(TX as int),
    {
        let mut reclaimed: usize = 0;
        let mut i: usize = 0;
        while i < TX
            invariant
                self.wf(),
                0 <= i <= TX,
                reclaimed == self.tx_free_count(i as int),
                reclaimed <= i,
            decreases TX - i,
        {
            if !self.tx_ring.get(i).is_owned() {
                reclaimed += 1;
            }
            proof {
                lemma_small_mod(i as nat, TX as nat);
            }
            i += 1;
        }
        reclaimed
    }
}


impl<const RX: usize, const TX: usize, const BUF: usize> DmaEngine<RX, TX, BUF> {
    /// Descriptor words after `transmit` prepared position `k` of an
    /// `m`-chunk frame of `len` bytes, before handing it to the DMA.
    pub open spec fn tx_prepared(d: TxDescriptor, len: int, k: int, m: int) -> Seq<u32> {
        d@.update(0, tx_prepare_flags(k == 0, k == m - 1)).update(
            1,
            (Self::tx_chunk(len, k) as u32) & tdes1::BUFFER1_SIZE_MASK,
        )
    }

    /// Store one byte into TX buffer `idx`.
    fn write_tx_byte(&mut self, idx: usize, b: usize, v: u8)
        requires
            old(self).wf(),
            idx < TX,
            b < BUF,
        ensures
            final(self).wf(),
            final(self).tx_bufs() == old(self).tx_bufs().update(
                idx as int,
                old(self).tx_bufs()[idx as int].update(b as int, v),
            ),
            final(self).tx_descs() == old(self).tx_descs(),
            final(self).tx_cur() == old(self).tx_cur(),
            final(self).rx_descs() == old(self).rx_descs(),
            final(self).rx_cur() == old(self).rx_cur(),
            final(self).rx_bufs() == old(self).rx_bufs(),
            final(self).spec_initialized() == old(self).spec_initialized(),
    {
        self.tx_buffers[idx][b] = v;
        assert(self.tx_bufs() =~= old(self).tx_bufs().update(
            idx as int,
            old(self).tx_bufs()[idx as int].update(b as int, v),
        ));
    }

    /// Submit a frame for transmission. Returns number of bytes queued.
    ///
    /// For frames larger than `BUF`, uses multiple descriptors
    /// (scatter-gather). Descriptors are given to DMA in reverse order to
    /// prevent a race where the DMA starts processing before all
    /// descriptors are ready.
    pub fn transmit(&mut self, data: &[u8]) -> (r: Result<usize, EmacError>)
        requires
            old(self).wf(),
        ensures
            final(self).wf(),
            data@.len() == 0 ==> r == Err::<usize, EmacError>(EmacError::InvalidLength),
            data@.len() > BUF * TX ==> r == Err::<usize, EmacError>(EmacError::FrameTooLarge),
            0 < data@.len() <= BUF * TX && chunks_needed(data@.len() as int, BUF as int)
                > old(self).spec_tx_available() ==> r == Err::<usize, EmacError>(
                EmacError::NoDescriptorsAvailable,
            ),
            old(self).spec_can_transmit(data@.len() as int) ==> r == Ok::<usize, EmacError>(
                data@.len() as usize,
            ) && Self::tx_queued(
                &*old(self),
                &*final(self),
                data@,
                chunks_needed(data@.len() as int, BUF as int),
            ),
            old(self).spec_can_transmit(data@.len() as int) ==> final(self).spec_tx_available()
                == old(self).spec_tx_available() - chunks_needed(data@.len() as int, BUF as int),
            r.is_err() ==> *final(self) == *old(self),
    {
        if data.len() == 0 {
            return Err(EmacError::InvalidLength);
        }
        proof {
            Self::lemma_products_fit();
        }
        if data.len() > BUF * TX {
            return Err(EmacError::FrameTooLarge);
        }
        let desc_count = Self::chunks_for(data.len());
        if self.tx_available() < desc_count {
            return Err(EmacError::NoDescriptorsAvailable);
        }
        let ghost old_self = *self;
        let ghost len = data@.len() as int;
        proof {
            self.lemma_tx_first_owned_from(0);
        }

        let current = self.tx_ring.current_index();
        let mut remaining = data.len();
        let mut offset: usize = 0;

        // Prepare each descriptor with its data chunk.
        let mut i: usize = 0;
        while i < desc_count
            invariant
                self.wf(),
                old_self.wf(),
                current == old_self.tx_cur(),
                self.tx_cur() == current,
                len == data@.len(),
                len <= usize::MAX,
                desc_count == chunks_needed(len, BUF as int),
                1 <= desc_count <= TX,
                (desc_count - 1) * BUF < len <= desc_count * BUF,
                desc_count <= old_self.spec_tx_available(),
                forall|j: int| 0 <= j < desc_count ==> !(#[trigger] old_self.tx_at(j)).spec_owned(),
                0 <= i <= desc_count,
                i < desc_count ==> offset == i * BUF,
                i == desc_count ==> offset == len,
                remaining == len - offset,
                forall|k: int|
                    0 <= k < TX ==> (#[trigger] self.tx_descs()[ring_pos(current as int, k, TX as int)])@
                        == if k < i {
                        Self::tx_prepared(old_self.tx_at(k), len, k, desc_count as int)
                    } else {
                        old_self.tx_at(k)@
                    },
                forall|k: int|
                    0 <= k < TX ==> #[trigger] self.tx_bufs()[ring_pos(current as int, k, TX as int)]
                        == if k < i {
                        Self::tx_filled(
                            old_self.tx_bufs()[ring_pos(current as int, k, TX as int)],
                            data@,
                            k,
                        )
                    } else {
                        old_self.tx_bufs()[ring_pos(current as int, k, TX as int)]
                    },
                self.rx_descs() == old_self.rx_descs(),
                self.rx_cur() == old_self.rx_cur(),
                self.rx_bufs() == old_self.rx_bufs(),
                self.spec_initialized() == old_self.spec_initialized(),
            decreases desc_count - i,
        {
            let idx = (current + i) % TX;
            let ghost pos = ring_pos(current as int, i as int, TX as int);
            proof {
                lemma_ring_pos(current as int, i as int, TX as int);
                lemma_small_mod(idx as nat, TX as nat);
                assert(self.tx_descs()[pos]@ == old_self.tx_at(i as int)@);
            }
            if self.tx_ring.get(idx).is_owned() {
                return Err(EmacError::DescriptorBusy);
            }
            let chunk_size = if remaining < BUF {
                remaining
            } else {
                BUF
            };
            proof {
                if i + 1 < desc_count {
                    assert((i + 1) * BUF == i * BUF + BUF) by (nonlinear_arith);
                    assert((i + 1) * BUF <= (desc_count - 1) * BUF) by (nonlinear_arith)
                        requires
                            i + 1 <= desc_count - 1,
                            BUF >= 0,
                    ;
                    assert(chunk_size == BUF);
                } else {
                    assert((desc_count - 1) * BUF + BUF == desc_count * BUF) by (nonlinear_arith);
                }
                assert(chunk_size == Self::tx_chunk(len, i as int));
            }

            // Copy this chunk of the frame into the descriptor's buffer.
            let ghost bufs_before = self.tx_bufs();
            let ghost descs_before = self.tx_descs();
            let mut b: usize = 0;
            while b < chunk_size
                invariant
                    self.wf(),
                    idx < TX,
                    chunk_size <= BUF,
                    offset + chunk_size <= data@.len(),
                    data@.len() <= usize::MAX,
                    bufs_before.len() == TX,
                    0 <= b <= chunk_size,
                    self.tx_bufs().len() == TX,
                    forall|j: int|
                        0 <= j < TX && j != idx ==> #[trigger] self.tx_bufs()[j] == bufs_before[j],
                    self.tx_bufs()[idx as int].len() == BUF,
                    forall|bb: int|
                        0 <= bb < BUF ==> #[trigger] self.tx_bufs()[idx as int][bb] == if bb < b {
                            data@[offset + bb]
                        } else {
                            bufs_before[idx as int][bb]
                        },
                    self.tx_descs() == descs_before,
                    self.tx_cur() == current,
                    self.rx_descs() == old_self.rx_descs(),
                    self.rx_cur() == old_self.rx_cur(),
                    self.rx_bufs() == old_self.rx_bufs(),
                    self.spec_initialized() == old_self.spec_initialized(),
                decreases chunk_size - b,
            {
                self.write_tx_byte(idx, b, data[offset + b]);
                b += 1;
            }
            self.tx_ring.get_mut(idx).prepare(chunk_size, i == 0, i == desc_count - 1);
            proof {
                assert forall|k: int| 0 <= k < TX implies (#[trigger] self.tx_descs()[ring_pos(
                    current as int,
                    k,
                    TX as int,
                )])@ == if k < i + 1 {
                    Self::tx_prepared(old_self.tx_at(k), len, k, desc_count as int)
                } else {
                    old_self.tx_at(k)@
                } by {
                    if k != i {
                        lemma_ring_pos_injective(current as int, k, i as int, TX as int);
                    }
                }
                assert forall|k: int| 0 <= k < TX implies #[trigger] self.tx_bufs()[ring_pos(
                    current as int,
                    k,
                    TX as int,
                )] == if k < i + 1 {
                    Self::tx_filled(
                        old_self.tx_bufs()[ring_pos(current as int, k, TX as int)],
                        data@,
                        k,
                    )
                } else {
                    old_self.tx_bufs()[ring_pos(current as int, k, TX as int)]
                } by {
                    lemma_ring_pos(current as int, k, TX as int);
                    if k != i {
                        lemma_ring_pos_injective(current as int, k, i as int, TX as int);
                    } else {
                        assert(self.tx_bufs()[pos] =~= Self::tx_filled(
                            old_self.tx_bufs()[pos],
                            data@,
                            k,
                        ));
                    }
                }
            }
            remaining -= chunk_size;
            offset += chunk_size;
            i += 1;
        }

        // Give to DMA in reverse order (prevents race condition).
        let mut j: usize = desc_count;
        while j > 0
            invariant
                self.wf(),
                old_self.wf(),
                current == old_self.tx_cur(),
                self.tx_cur() == current,
                len == data@.len(),
                1 <= desc_count <= TX,
                0 <= j <= desc_count,
                forall|k: int|
                    0 <= k < TX ==> (#[trigger] self.tx_descs()[ring_pos(current as int, k, TX as int)])@
                        == if k < j {
                        Self::tx_prepared(old_self.tx_at(k), len, k, desc_count as int)
                    } else if k < desc_count {
                        Self::tx_submitted(old_self.tx_at(k), len, k, desc_count as int)
                    } else {
                        old_self.tx_at(k)@
                    },
                forall|k: int|
                    0 <= k < TX ==> #[trigger] self.tx_bufs()[ring_pos(current as int, k, TX as int)]
                        == if k < desc_count {
                        Self::tx_filled(
                            old_self.tx_bufs()[ring_pos(current as int, k, TX as int)],
                            data@,
                            k,
                        )
                    } else {
                        old_self.tx_bufs()[ring_pos(current as int, k, TX as int)]
                    },
                self.tx_bufs().len() == TX,
                self.rx_descs() == old_self.rx_descs(),
                self.rx_cur() == old_self.rx_cur(),
                self.rx_bufs() == old_self.rx_bufs(),
                self.spec_initialized() == old_self.spec_initialized(),
            decreases j,
        {
            j -= 1;
            let idx = (current + j) % TX;
            let ghost pos = ring_pos(current as int, j as int, TX as int);
            proof {
                lemma_ring_pos(current as int, j as int, TX as int);
                lemma_small_mod(idx as nat, TX as nat);
            }
            self.tx_ring.get_mut(idx).set_owned();
            proof {
                assert forall|k: int| 0 <= k < TX implies (#[trigger] self.tx_descs()[ring_pos(
                    current as int,
                    k,
                    TX as int,
                )])@ == if k < j {
                    Self::tx_prepared(old_self.tx_at(k), len, k, desc_count as int)
                } else if k < desc_count {
                    Self::tx_submitted(old_self.tx_at(k), len, k, desc_count as int)
                } else {
                    old_self.tx_at(k)@
                } by {
                    if k != j {
                        lemma_ring_pos_injective(current as int, k, j as int, TX as int);
                    } else {
                        assert(self.tx_descs()[pos]@ =~= Self::tx_submitted(
                            old_self.tx_at(k),
                            len,
                            k,
                            desc_count as int,
                        ));
                    }
                }
            }
        }

        self.tx_ring.advance_by(desc_count);
        proof {
            Self::lemma_transmit_uses_descriptors(&old_self, &*self, data@, desc_count as int);
        }
        Ok(data.len())
    }
}


impl<const RX: usize, const TX: usize, const BUF: usize> DmaEngine<RX, TX, BUF> {
    // ── Reception ─────────────────────────────────────────

    /// Check if a received frame is available: the frame starting at the
    /// current RX descriptor is complete — its last descriptor, and every
    /// one before it, has been handed back to the CPU. A single-descriptor
    /// frame is complete as soon as its descriptor is CPU-owned.
    pub fn rx_available(&self) -> (r: bool)
        requires
            self.wf(),
        ensures
            r == self.rx_frame_ready(),
    {
        proof {
            self.lemma_rx_stop_from(0);
        }
        let stop = self.rx_scan(0);
        if stop >= RX {
            return false;
        }
        let idx = (self.rx_ring.current_index() + stop) % RX;
        proof {
            lemma_ring_pos(self.rx_cur(), stop as int, RX as int);
            lemma_small_mod(idx as nat, RX as nat);
        }
        !self.rx_ring.get(idx).is_owned()
    }

    /// Count free RX descriptors (owned by DMA, ready to receive).
    pub fn rx_free_count(&self) -> (r: usize)
        requires
            self.wf(),
        ensures
            r == self.rx_owned_count(RX as int),
    {
        let mut count: usize = 0;
        let mut i: usize = 0;
        while i < RX
            invariant
                self.wf(),
                0 <= i <= RX,
                count == self.rx_owned_count(i as int),
                count <= i,
            decreases RX - i,
        {
            proof {
                lemma_small_mod(i as nat, RX as nat);
            }
            if self.rx_ring.get(i).is_owned() {
                count += 1;
            }
            i += 1;
        }
        count
    }

    /// Walk the RX ring from position `from` to where the current frame
    /// stops: the first DMA-owned or frame-ending descriptor.
    fn rx_scan(&self, from: usize) -> (r: usize)
        requires
            self.wf(),
            from <= RX,
        ensures
            r == self.rx_stop_from(from as nat),
    {
        proof {
            self.lemma_rx_stop_from(from as nat);
        }
        let current = self.rx_ring.current_index();
        let mut i: usize = from;
        while i < RX
            invariant
                self.wf(),
                current == self.rx_cur(),
                from <= i <= RX,
                forall|j: int|
                    from <= j < i ==> !(#[trigger] self.rx_at(j)).spec_owned()
                        && !self.rx_at(j).spec_last(),
            decreases RX - i,
        {
            let idx = (current + i) % RX;
            proof {
                lemma_ring_pos(current as int, i as int, RX as int);
                lemma_small_mod(idx as nat, RX as nat);
            }
            let d = self.rx_ring.get(idx);
            if d.is_owned() || d.is_last() {
                proof {
                    self.lemma_rx_stop_from_is(from as nat, i as nat);
                }
                return i;
            }
            i += 1;
        }
        proof {
            self.lemma_rx_stop_from_is(from as nat, RX as nat);
        }
        RX
    }

    /// Get the length of the next available frame without consuming it.
    pub fn peek_frame_length(&self) -> (r: Option<usize>)
        requires
            self.wf(),
        ensures
            r == self.spec_peek_frame_length(),
    {
        proof {
            lemma_ring_pos(self.rx_cur(), 0, RX as int);
            self.lemma_rx_stop_from(0);
        }
        let desc = self.rx_ring.current();
        if desc.is_owned() {
            return None;
        }
        if desc.has_error() {
            return None;
        }
        // Complete single-descriptor frame.
        if desc.is_first() && desc.is_last() {
            return Some(desc.payload_length());
        }
        // Multi-descriptor: walk to find the last descriptor.
        if desc.is_first() {
            proof {
                self.lemma_rx_stop_from_is(0, self.rx_stop_from(1));
                self.lemma_rx_stop_from(1);
            }
            let stop = self.rx_scan(1);
            if stop < RX {
                let idx = (self.rx_ring.current_index() + stop) % RX;
                proof {
                    lemma_ring_pos(self.rx_cur(), stop as int, RX as int);
                    lemma_small_mod(idx as nat, RX as nat);
                }
                let d = self.rx_ring.get(idx);
                if d.is_owned() {
                    return None;
                }
                return Some(d.payload_length());
            }
        }
        None
    }

    /// Whether [`receive`](Self::receive) can deliver the pending frame
    /// into a buffer of `buffer_len` bytes without reading past the RX
    /// buffers the frame spans.
    pub fn receive_fits(&self, buffer_len: usize) -> (r: bool)
        requires
            self.wf(),
        ensures
            r == self.spec_receive_fits(buffer_len as nat),
    {
        proof {
            lemma_ring_pos(self.rx_cur(), 0, RX as int);
            self.lemma_rx_stop_from(0);
        }
        let desc = self.rx_ring.current();
        if desc.is_owned() {
            return true;
        }
        if desc.is_first() && desc.is_last() {
            let p = desc.payload_length();
            return desc.has_error() || buffer_len < p || p <= BUF;
        }
        if !desc.is_first() || desc.has_error() {
            return true;
        }
        proof {
            self.lemma_rx_stop_from_is(0, self.rx_stop_from(1));
            self.lemma_rx_stop_from(1);
        }
        let stop = self.rx_scan(1);
        if stop >= RX {
            return true;
        }
        let idx = (self.rx_ring.current_index() + stop) % RX;
        proof {
            lemma_ring_pos(self.rx_cur(), stop as int, RX as int);
            lemma_small_mod(idx as nat, RX as nat);
        }
        let d = self.rx_ring.get(idx);
        if d.is_owned() {
            return true;
        }
        let p = d.payload_length();
        if p == 0 || buffer_len < p {
            return true;
        }
        // The frame spans `stop + 1` buffers of `BUF` bytes.
        proof {
            Self::lemma_products_fit();
            lemma_mul_inequality(stop as int + 1, RX as int, BUF as int);
        }
        p <= (stop + 1) * BUF
    }
}


impl<const RX: usize, const TX: usize, const BUF: usize> DmaEngine<RX, TX, BUF> {
    /// Consuming nothing leaves the engine as it is.
    proof fn lemma_rx_consumed_none(&self)
        requires
            self.wf(),
        ensures
            Self::rx_consumed(self, self, 0),
    {
        lemma_small_mod(self.rx_cur() as nat, RX as nat);
    }

    /// Recycle the current RX descriptor and move on by one.
    fn consume_current(&mut self)
        requires
            old(self).wf(),
        ensures
            final(self).wf(),
            Self::rx_consumed(&*old(self), &*final(self), 1),
    {
        let ghost old_self = *self;
        let ghost c = self.rx_cur();
        proof {
            lemma_ring_pos(c, 0, RX as int);
            lemma_ring_pos_next(c, 0, RX as int);
        }
        self.rx_ring.current_mut().recycle();
        self.rx_ring.advance();
        proof {
            assert forall|k: int| 0 <= k < RX implies (#[trigger] self.rx_descs()[ring_pos(
                c,
                k,
                RX as int,
            )])@ == if k < 1 {
                old_self.rx_at(k).spec_recycled()
            } else {
                old_self.rx_at(k)@
            } by {
                if k != 0 {
                    lemma_ring_pos_injective(c, k, 0, RX as int);
                }
            }
        }
    }

    /// Discard the current RX frame (for errors or incomplete frames):
    /// hand back to the DMA every CPU-owned descriptor up to and
    /// including the frame's last one.
    fn flush_rx_frame(&mut self)
        requires
            old(self).wf(),
        ensures
            final(self).wf(),
            Self::rx_consumed(&*old(self), &*final(self), old(self).rx_flush_count() as int),
    {
        let ghost old_self = *self;
        let ghost c = self.rx_cur();
        proof {
            self.lemma_rx_stop_from(0);
            self.lemma_rx_consumed_none();
        }
        let ghost mut t: int = 0;
        loop
            invariant_except_break
                self.wf(),
                old_self.wf(),
                c == old_self.rx_cur(),
                0 <= t <= old_self.rx_stop(),
                old_self.rx_stop() <= RX,
                forall|j: int|
                    0 <= j < old_self.rx_stop() ==> !(#[trigger] old_self.rx_at(j)).spec_owned()
                        && !old_self.rx_at(j).spec_last(),
                old_self.rx_stop() < RX ==> (old_self.rx_at(old_self.rx_stop() as int).spec_owned()
                    || old_self.rx_at(old_self.rx_stop() as int).spec_last()),
                Self::rx_consumed(&old_self, &*self, t),
            ensures
                self.wf(),
                Self::rx_consumed(&old_self, &*self, old_self.rx_flush_count() as int),
            decreases RX - t,
        {
            proof {
                if t < RX {
                    lemma_ring_pos(c, t, RX as int);
                } else {
                    vstd::arithmetic::div_mod::lemma_mod_self_0(RX as int);
                    lemma_small_mod(c as nat, RX as nat);
                    lemma_ring_pos(c, 0, RX as int);
                    assert(self.rx_descs()[ring_pos(c, 0, RX as int)]@ == old_self.rx_at(
                        0,
                    ).spec_recycled());
                    assert(rdes0::OWN & rdes0::OWN != 0) by (bit_vector);
                    lemma_fundamental_div_mod_converse(c + RX, RX as int, 1, c);
                    assert(self.rx_cur() == c);
                    assert(self.rx_descs()[self.rx_cur()].spec_owned());
                }
            }
            let desc = self.rx_ring.current();
            if desc.is_owned() {
                break;
            }
            let is_last = desc.is_last();
            let ghost cur_before = self.rx_cur();
            let ghost before = *self;
            self.rx_ring.current_mut().recycle();
            self.rx_ring.advance();
            proof {
                lemma_ring_pos_next(c, t, RX as int);
                assert forall|k: int| 0 <= k < RX implies (#[trigger] self.rx_descs()[ring_pos(
                    c,
                    k,
                    RX as int,
                )])@ == if k < t + 1 {
                    old_self.rx_at(k).spec_recycled()
                } else {
                    old_self.rx_at(k)@
                } by {
                    if k != t {
                        lemma_ring_pos_injective(c, k, t, RX as int);
                        assert(self.rx_descs()[ring_pos(c, k, RX as int)] == before.rx_descs()[ring_pos(
                            c,
                            k,
                            RX as int,
                        )]);
                    }
                }
                t = t + 1;
            }
            if is_last {
                break;
            }
        }
    }
}


impl<const RX: usize, const TX: usize, const BUF: usize> DmaEngine<RX, TX, BUF> {
    /// Receive a frame into the provided buffer.
    ///
    /// Returns the number of bytes received, or `None` if no frame is
    /// ready. For single-descriptor frames, copies the payload from the
    /// RX buffer; for multi-descriptor frames, from each descriptor's
    /// buffer in turn. Errored, truncated or oversized frames are handed
    /// back to the DMA.
    pub fn receive(&mut self, buffer: &mut [u8]) -> (r: Result<Option<usize>, EmacError>)
        requires
            old(self).wf(),
            old(self).spec_receive_fits(old(buffer)@.len()),
        ensures
            final(self).wf(),
            r == old(self).receive_result(old(buffer)@.len()),
            Self::rx_consumed(
                &*old(self),
                &*final(self),
                old(self).receive_consumed(old(buffer)@.len()) as int,
            ),
            final(buffer)@ == old(self).receive_buffer(old(buffer)@),
    {
        let ghost old_self = *self;
        let ghost old_buf = buffer@;
        let ghost blen = buffer@.len();
        let ghost c = self.rx_cur();
        proof {
            lemma_ring_pos(c, 0, RX as int);
            self.lemma_rx_stop_from(0);
            self.lemma_rx_consumed_none();
        }
        let first_desc = *self.rx_ring.current();

        // Not owned by CPU — no frame ready.
        if first_desc.is_owned() {
            return Ok(None);
        }

        // Single-descriptor frame (common case).
        if first_desc.is_first() && first_desc.is_last() {
            if first_desc.has_error() {
                self.consume_current();
                return Err(EmacError::FrameError);
            }
            let frame_len = first_desc.payload_length();
            if buffer.len() < frame_len {
                self.consume_current();
                return Err(EmacError::BufferTooSmall);
            }
            assert(old_self.receive_result(blen) == Ok::<Option<usize>, EmacError>(Some(frame_len)));
            assert(old_self.receive_consumed(blen) == 1);
            assert(frame_len <= BUF);
            let idx = self.rx_ring.current_index();
            let mut k: usize = 0;
            while k < frame_len
                invariant
                    old_self.wf(),
                    *self == old_self,
                    idx == c,
                    c == old_self.rx_cur(),
                    0 <= c < RX,
                    frame_len <= BUF,
                    frame_len <= blen,
                    0 <= k <= frame_len,
                    buffer@.len() == blen,
                    forall|j: int|
                        0 <= j < blen ==> #[trigger] buffer@[j] == if j < k {
                            old_self.rx_frame_byte(j)
                        } else {
                            old_buf[j]
                        },
                decreases frame_len - k,
            {
                proof {
                    lemma_small_mod(k as nat, BUF as nat);
                    lemma_ring_pos(c, 0, RX as int);
                    vstd::arithmetic::div_mod::lemma_basic_div(k as int, BUF as int);
                    assert(old_self.rx_frame_byte(k as int) == old_self.rx_bufs()[c][k as int]);
                }
                buffer[k] = self.rx_buffers[idx][k];
                k += 1;
            }
            self.consume_current();
            proof {
                assert(buffer@ =~= old_self.receive_buffer(old_buf));
            }
            return Ok(Some(frame_len));
        }

        // Multi-descriptor frame: must start with first segment.
        if !first_desc.is_first() {
            self.flush_rx_frame();
            return Ok(None);
        }
        if first_desc.has_error() {
            self.flush_rx_frame();
            return Err(EmacError::FrameError);
        }

        // Walk descriptors to find where the frame ends.
        let stop = self.rx_scan(0);
        if stop >= RX {
            // Frame not complete yet.
            return Ok(None);
        }
        let current = self.rx_ring.current_index();
        let last_idx = (current + stop) % RX;
        proof {
            lemma_ring_pos(c, stop as int, RX as int);
            lemma_small_mod(last_idx as nat, RX as nat);
        }
        let last_desc = *self.rx_ring.get(last_idx);
        if last_desc.is_owned() {
            // Frame not complete yet.
            return Ok(None);
        }
        let frame_len = last_desc.payload_length();
        let desc_count = stop + 1;
        if frame_len == 0 {
            return Ok(None);
        }
        if buffer.len() < frame_len {
            self.flush_rx_frame();
            return Err(EmacError::BufferTooSmall);
        }
        proof {
            assert(BUF > 0) by (nonlinear_arith)
                requires
                    0 < frame_len <= desc_count * BUF,
            ;
        }

        // Copy data from all descriptors.
        let mut copied: usize = 0;
        let last_desc_i = desc_count - 1;
        let mut i: usize = 0;
        while i < desc_count
            invariant
                self.wf(),
                old_self.wf(),
                c == old_self.rx_cur(),
                current == c,
                self.rx_cur() == c,
                desc_count <= RX,
                last_desc_i == desc_count - 1,
                BUF > 0,
                0 < frame_len <= blen,
                frame_len <= desc_count * BUF,
                0 <= i <= desc_count,
                copied == if frame_len < i * BUF {
                    frame_len as int
                } else {
                    i * BUF
                },
                buffer@.len() == blen,
                forall|j: int|
                    0 <= j < blen ==> #[trigger] buffer@[j] == if j < copied {
                        old_self.rx_frame_byte(j)
                    } else {
                        old_buf[j]
                    },
                self.rx_descs().len() == RX,
                forall|k: int|
                    0 <= k < RX ==> (#[trigger] self.rx_descs()[ring_pos(c, k, RX as int)])@ == if k
                        < i {
                        old_self.rx_at(k).spec_recycled()
                    } else {
                        old_self.rx_at(k)@
                    },
                self.rx_bufs() == old_self.rx_bufs(),
                self.tx_descs() == old_self.tx_descs(),
                self.tx_cur() == old_self.tx_cur(),
                self.tx_bufs() == old_self.tx_bufs(),
                self.spec_initialized() == old_self.spec_initialized(),
            decreases desc_count - i,
        {
            let idx = (current + i) % RX;
            proof {
                lemma_ring_pos(c, i as int, RX as int);
                lemma_small_mod(idx as nat, RX as nat);
                assert((i + 1) * BUF == i * BUF + BUF) by (nonlinear_arith);
                if i == last_desc_i {
                    assert(frame_len <= (i + 1) * BUF);
                }
            }
            let ghost copied_before = copied as int;
            let ghost x = i * BUF;
            assert(copied_before == if frame_len < x { frame_len as int } else { x });
            assert((i + 1) * BUF == x + BUF);
            let want = if i == last_desc_i {
                frame_len - copied
            } else {
                BUF
            };
            let copy_len = if want < frame_len - copied {
                want
            } else {
                frame_len - copied
            };
            if copy_len > 0 {
                let mut b: usize = 0;
                while b < copy_len
                    invariant
                        self.wf(),
                        old_self.wf(),
                        self.rx_bufs() == old_self.rx_bufs(),
                        idx == ring_pos(c, i as int, RX as int),
                        c == old_self.rx_cur(),
                        0 <= idx < RX,
                        BUF > 0,
                        copied == i * BUF,
                        copy_len <= BUF,
                        copied + copy_len <= frame_len,
                        frame_len <= blen,
                        0 <= b <= copy_len,
                        buffer@.len() == blen,
                        forall|j: int|
                            0 <= j < blen ==> #[trigger] buffer@[j] == if j < copied + b {
                                old_self.rx_frame_byte(j)
                            } else {
                                old_buf[j]
                            },
                    decreases copy_len - b,
                {
                    proof {
                        lemma_chunk_offset(i as int, b as int, BUF as int);
                        assert(old_self.rx_frame_byte(copied + b) == old_self.rx_bufs()[idx as int][b as int]);
                    }
                    buffer[copied + b] = self.rx_buffers[idx][b];
                    b += 1;
                }
                copied = copied + copy_len;
            }
            assert(copied == copied_before + copy_len);
            let ghost before = *self;
            self.rx_ring.get_mut(idx).recycle();
            proof {
                assert forall|k: int| 0 <= k < RX implies (#[trigger] self.rx_descs()[ring_pos(
                    c,
                    k,
                    RX as int,
                )])@ == if k < i + 1 {
                    old_self.rx_at(k).spec_recycled()
                } else {
                    old_self.rx_at(k)@
                } by {
                    if k != i {
                        lemma_ring_pos_injective(c, k, i as int, RX as int);
                        assert(self.rx_descs()[ring_pos(c, k, RX as int)] == before.rx_descs()[ring_pos(
                            c,
                            k,
                            RX as int,
                        )]);
                    }
                }
                assert(copied == if frame_len < (i + 1) * BUF {
                    frame_len as int
                } else {
                    (i + 1) * BUF
                });
            }
            i += 1;
        }
        proof {
            lemma_ring_pos(c, desc_count as int - 1, RX as int);
        }
        self.rx_ring.advance_by(desc_count);
        proof {
            assert(buffer@ =~= old_self.receive_buffer(old_buf));
        }
        Ok(Some(frame_len))
    }
}


impl<const RX: usize, const TX: usize, const BUF: usize> DmaEngine<RX, TX, BUF> {
    /// Reset all descriptors to initial state.
    ///
    /// Re-initializes the chains and returns base addresses; see
    /// [`init`](Self::init).
    pub fn reset(&mut self) -> (r: (u32, u32))
        requires
            old(self).wf(),
        ensures
            final(self).wf(),
            final(self).spec_initialized(),
            final(self).rx_cur() == 0,
            final(self).tx_cur() == 0,
            final(self).rx_bufs() == old(self).rx_bufs(),
            final(self).tx_bufs() == old(self).tx_bufs(),
            exists|desc_base: usize, buf_base: usize|
                r.0 == desc_base as u32 && #[trigger] Self::rx_ring_chained(
                    old(self).rx_descs(),
                    final(self).rx_descs(),
                    desc_base,
                    buf_base,
                ),
            exists|desc_base: usize, buf_base: usize|
                r.1 == desc_base as u32 && #[trigger] Self::tx_ring_chained(
                    old(self).tx_descs(),
                    final(self).tx_descs(),
                    desc_base,
                    buf_base,
                ),
            final(self).rx_descs()[RX - 1]@[3] == r.0,
            final(self).tx_descs()[TX - 1]@[3] == r.1,
            final(self).spec_tx_available() == TX,
            final(self).rx_owned_count(RX as int) == RX,
            // On the 32-bit target the bases are the rings' whole
            // addresses: never null, aligned as descriptors must be.
            usize::BITS == 32 ==> r.0 != 0 && r.1 != 0 && r.0 != r.1,
            usize::BITS == 32 ==> r.0 as nat % vstd::layout::align_of::<RxDescriptor>() == 0
                && r.1 as nat % vstd::layout::align_of::<TxDescriptor>() == 0,
            Self::set_up_from(&*old(self), &*final(self), r.0, r.1),
    {
        self.init()
    }

    /// RX ring base address (for debugging): the ring's address
    /// truncated to the 32-bit DMA address space. On a 32-bit target the
    /// truncation keeps the whole address, which is never null and is
    /// aligned as a descriptor must be; which address it is depends on
    /// where the engine lives.
    pub fn rx_ring_base(&self) -> (r: u32)
        ensures
            usize::BITS == 32 ==> r != 0,
            usize::BITS == 32 ==> r as nat % vstd::layout::align_of::<RxDescriptor>() == 0,
    {
        let addr = self.rx_ring.base_addr();
        proof {
            lemma_truncation_keeps_address(addr);
        }
        #[verifier::truncate]
        (addr as u32)
    }

    /// TX ring base address (for debugging): the ring's address
    /// truncated to the 32-bit DMA address space. On a 32-bit target the
    /// truncation keeps the whole address, which is never null and is
    /// aligned as a descriptor must be; which address it is depends on
    /// where the engine lives.
    pub fn tx_ring_base(&self) -> (r: u32)
        ensures
            usize::BITS == 32 ==> r != 0,
            usize::BITS == 32 ==> r as nat % vstd::layout::align_of::<TxDescriptor>() == 0,
    {
        let addr = self.tx_ring.base_addr();
        proof {
            lemma_truncation_keeps_address(addr);
        }
        #[verifier::truncate]
        (addr as u32)
    }

    /// Current RX ring index.
    pub fn rx_current_index(&self) -> (r: usize)
        requires
            self.wf(),
        ensures
            r == self.rx_cur(),
    {
        self.rx_ring.current_index()
    }

    /// Current TX ring index.
    pub fn tx_current_index(&self) -> (r: usize)
        requires
            self.wf(),
        ensures
            r == self.tx_cur(),
    {
        self.tx_ring.current_index()
    }

    /// RX descriptor at ring index `index` (wrapping), as the DMA sees it.
    pub fn rx_descriptor(&self, index: usize) -> (r: &RxDescriptor)
        requires
            self.wf(),
        ensures
            *r == self.rx_descs()[(index % RX) as int],
    {
        self.rx_ring.get(index)
    }

    /// Mutable access to RX descriptor `index` (wrapping) — the place
    /// where the DMA engine writes back frame status.
    pub fn rx_descriptor_mut(&mut self, index: usize) -> (r: &mut RxDescriptor)
        requires
            old(self).wf(),
        ensures
            *r == old(self).rx_descs()[(index % RX) as int],
            final(self).rx_descs() == old(self).rx_descs().update((index % RX) as int, *final(r)),
            final(self).rx_cur() == old(self).rx_cur(),
            final(self).rx_bufs() == old(self).rx_bufs(),
            final(self).tx_descs() == old(self).tx_descs(),
            final(self).tx_cur() == old(self).tx_cur(),
            final(self).tx_bufs() == old(self).tx_bufs(),
            final(self).spec_initialized() == old(self).spec_initialized(),
    {
        self.rx_ring.get_mut(index)
    }

    /// TX descriptor at ring index `index` (wrapping), as the DMA sees it.
    pub fn tx_descriptor(&self, index: usize) -> (r: &TxDescriptor)
        requires
            self.wf(),
        ensures
            *r == self.tx_descs()[(index % TX) as int],
    {
        self.tx_ring.get(index)
    }

    /// Mutable access to TX descriptor `index` (wrapping) — the place
    /// where the DMA engine hands completed descriptors back.
    pub fn tx_descriptor_mut(&mut self, index: usize) -> (r: &mut TxDescriptor)
        requires
            old(self).wf(),
        ensures
            *r == old(self).tx_descs()[(index % TX) as int],
            final(self).tx_descs() == old(self).tx_descs().update((index % TX) as int, *final(r)),
            final(self).tx_cur() == old(self).tx_cur(),
            final(self).tx_bufs() == old(self).tx_bufs(),
            final(self).rx_descs() == old(self).rx_descs(),
            final(self).rx_cur() == old(self).rx_cur(),
            final(self).rx_bufs() == old(self).rx_bufs(),
            final(self).spec_initialized() == old(self).spec_initialized(),
    {
        self.tx_ring.get_mut(index)
    }

    /// RX data buffer `index`, as the DMA fills it.
    pub fn rx_buffer_mut(&mut self, index: usize) -> (r: &mut [u8; BUF])
        requires
            old(self).wf(),
            index < RX,
        ensures
            r@ == old(self).rx_bufs()[index as int],
            final(self).rx_bufs() == old(self).rx_bufs().update(index as int, final(r)@),
            final(self).rx_descs() == old(self).rx_descs(),
            final(self).rx_cur() == old(self).rx_cur(),
            final(self).tx_descs() == old(self).tx_descs(),
            final(self).tx_cur() == old(self).tx_cur(),
            final(self).tx_bufs() == old(self).tx_bufs(),
            final(self).spec_initialized() == old(self).spec_initialized(),
    {
        &mut self.rx_buffers[index]
    }

    /// TX data buffer `index`, as the DMA reads it.
    pub fn tx_buffer(&self, index: usize) -> (r: &[u8; BUF])
        requires
            self.wf(),
            index < TX,
        ensures
            r@ == self.tx_bufs()[index as int],
    {
        &self.tx_buffers[index]
    }
}

impl<const RX: usize, const TX: usize, const BUF: usize> Default for DmaEngine<RX, TX, BUF> {
    fn default() -> (r: Self)
        ensures
            Self::params_ok() ==> r.wf(),
            !r.spec_initialized(),
            r.rx_cur() == 0,
            r.tx_cur() == 0,
    {
        Self::new()
    }
}


impl<const RX: usize, const TX: usize, const BUF: usize> DmaEngine<RX, TX, BUF> {
    /// What a descriptor handed to the DMA by `transmit` says: position
    /// `k` of an `m`-descriptor frame of `len` bytes is DMA-owned, keeps
    /// the chain link (TCH, so the DMA follows TDES3 to the next
    /// descriptor), asks for full checksum insertion (CIC = 0b11), is a
    /// first segment exactly at `k == 0`, a last segment with a completion
    /// interrupt exactly at `k == m - 1`, carries its chunk's length, and
    /// keeps its buffer and next-descriptor addresses.
    pub proof fn lemma_submitted_descriptor(d: TxDescriptor, len: int, k: int, m: int)
        requires
            0 <= k < m,
            0 <= Self::tx_chunk(len, k) <= 0x1FFF,
        ensures
            ({
                let w = Self::tx_submitted(d, len, k, m);
                &&& w.len() == 8
                &&& w[0] & tdes0::OWN != 0
                &&& w[0] & tdes0::SECOND_ADDR_CHAINED != 0
                &&& w[0] & tdes0::CHECKSUM_INSERT_MASK == tdes0::CHECKSUM_INSERT_MASK
                &&& (w[0] & tdes0::FIRST_SEGMENT != 0) == (k == 0)
                &&& (w[0] & tdes0::LAST_SEGMENT != 0) == (k == m - 1)
                &&& (w[0] & tdes0::INTERRUPT_ON_COMPLETE != 0) == (k == m - 1)
                &&& w[1] == Self::tx_chunk(len, k)
                &&& w[2] == d@[2]
                &&& w[3] == d@[3]
            }),
    {
        let first = k == 0;
        let last = k == m - 1;
        let f = tx_prepare_flags(first, last) | tdes0::OWN;
        assert(f & 0x8000_0000u32 != 0 && f & 0x0010_0000u32 != 0 && f & 0x00C0_0000u32
            == 0x00C0_0000u32 && (f & 0x1000_0000u32 != 0) == first && (f & 0x2000_0000u32 != 0)
            == last && (f & 0x4000_0000u32 != 0) == last) by (bit_vector)
            requires
                f == (0x0010_0000u32 | 0x00C0_0000u32 | (if first {
                    0x1000_0000u32
                } else {
                    0u32
                }) | (if last {
                    0x2000_0000u32 | 0x4000_0000u32
                } else {
                    0u32
                })) | 0x8000_0000u32,
        ;
        let c = Self::tx_chunk(len, k) as u32;
        assert(c & 0x1FFFu32 == c) by (bit_vector)
            requires
                c <= 0x1FFFu32,
        ;
    }

    /// Queuing a frame uses up exactly its descriptors: after `transmit`
    /// has queued an `m`-descriptor frame, `m` fewer TX descriptors are
    /// available than before.
    pub proof fn lemma_transmit_uses_descriptors(old: &Self, new: &Self, data: Seq<u8>, m: int)
        requires
            old.wf(),
            new.wf(),
            Self::tx_queued(old, new, data, m),
            1 <= m <= old.spec_tx_available(),
        ensures
            new.spec_tx_available() == old.spec_tx_available() - m,
    {
        let a = old.spec_tx_available() as int;
        let c = old.tx_cur();
        old.lemma_tx_first_owned_from(0);
        assert(tdes0::OWN & tdes0::OWN != 0) by (bit_vector);
        assert forall|j: int| 0 <= j < a - m implies !(#[trigger] new.tx_at(j)).spec_owned() by {
            lemma_ring_pos_compose(c, m, j, TX as int);
            lemma_small_mod((m + j) as nat, TX as nat);
            assert(new.tx_at(j) == new.tx_descs()[ring_pos(c, m + j, TX as int)]);
        }
        if a - m < TX {
            let j = a - m;
            lemma_ring_pos_compose(c, m, j, TX as int);
            if a < TX {
                lemma_small_mod(a as nat, TX as nat);
                assert(new.tx_at(j) == new.tx_descs()[ring_pos(c, a, TX as int)]);
                assert(new.tx_at(j)@ == old.tx_at(a)@);
            } else {
                vstd::arithmetic::div_mod::lemma_mod_self_0(TX as int);
                assert(new.tx_at(j) == new.tx_descs()[ring_pos(c, 0, TX as int)]);
                let w = tx_prepare_flags(true, 0 == m - 1);
                assert((w | tdes0::OWN) & tdes0::OWN != 0) by (bit_vector);
                assert(new.tx_at(j)@[0] == w | tdes0::OWN);
            }
        }
        new.lemma_tx_first_owned_from_is(0, (a - m) as nat);
    }

    /// `peek_frame_length` announces what `receive` delivers: when a
    /// non-empty frame of `n` bytes is announced and the caller's buffer
    /// holds at least `n` bytes, `receive` returns exactly `n` and hands
    /// back every descriptor of the frame.
    pub proof fn lemma_peek_then_receive(&self, blen: nat)
        requires
            self.wf(),
            self.spec_peek_frame_length() is Some,
            self.spec_peek_frame_length()->0 > 0,
            blen >= self.spec_peek_frame_length()->0,
        ensures
            self.receive_result(blen) == Ok::<Option<usize>, EmacError>(
                self.spec_peek_frame_length(),
            ),
            self.receive_consumed(blen) == self.rx_stop() + 1,
    {
        let d0 = self.rx_at(0);
        if d0.spec_first() && d0.spec_last() {
            assert(self.rx_stop() == 0);
        }
    }
}

} // verus!
