//! Observability data of EMAC traffic and DMA state.
//!
//! - [`EmacInstrumentation`] — snapshot type holding per-token counters,
//!   sticky DMA-error accumulators, and IRQ→token latency histograms.
//! - [`HISTOGRAM_BUCKETS`], [`HISTOGRAM_UPPER_US`], [`histogram_bucket`]
//!   — bucketing helpers so host-side analysers can reproduce the same
//!   shape.
//! - [`missed_frame_counts`] — decoding of the clear-on-read DMA
//!   missed-frame register that the snapshot accumulates.

use vstd::prelude::*;

verus! {

/// Number of buckets in the IRQ→token latency histograms.
///
/// Fixed at 16 so each [`EmacInstrumentation`] consumer can iterate
/// with a known shape and emit machine-readable output without dynamic
/// allocation. The boundaries are intentionally log-scaled — see
/// [`HISTOGRAM_UPPER_US`] for the exact thresholds.
pub const HISTOGRAM_BUCKETS: usize = 16;

/// Upper bound (microseconds, inclusive) for each [`HISTOGRAM_BUCKETS`]
/// bucket. A measurement `d_us` lands in the lowest-index bucket `i`
/// where `d_us <= HISTOGRAM_UPPER_US[i]`. The last entry is `u32::MAX`
/// so any measurement of 100 ms or more is captured rather than lost.
///
/// Sequence: `1, 2, 5, 10, 20, 50, 100, 200, 500, 1_000, 2_000, 5_000,
/// 10_000, 20_000, 50_000, ≥100_000`.
pub const HISTOGRAM_UPPER_US: [u32; 16] = [
    1,
    2,
    5,
    10,
    20,
    50,
    100,
    200,
    500,
    1_000,
    2_000,
    5_000,
    10_000,
    20_000,
    50_000,
    0xFFFF_FFFF,
];

/// Upper bound of bucket `i`, as listed in [`HISTOGRAM_UPPER_US`].
pub open spec fn bucket_upper(i: int) -> u32 {
    if i == 0 {
        1
    } else if i == 1 {
        2
    } else if i == 2 {
        5
    } else if i == 3 {
        10
    } else if i == 4 {
        20
    } else if i == 5 {
        50
    } else if i == 6 {
        100
    } else if i == 7 {
        200
    } else if i == 8 {
        500
    } else if i == 9 {
        1_000
    } else if i == 10 {
        2_000
    } else if i == 11 {
        5_000
    } else if i == 12 {
        10_000
    } else if i == 13 {
        20_000
    } else if i == 14 {
        50_000
    } else {
        0xFFFF_FFFF
    }
}

/// The bucket boundaries grow strictly.
pub proof fn lemma_bucket_upper_increasing(i: int, j: int)
    requires
        0 <= i < j < HISTOGRAM_BUCKETS,
    ensures
        bucket_upper(i) < bucket_upper(j),
{
}

/// `b` is the bucket of a measurement `d`: the lowest bucket whose upper
/// bound is at least `d`.
pub open spec fn is_bucket(d: u32, b: int) -> bool {
    &&& 0 <= b < HISTOGRAM_BUCKETS
    &&& d <= bucket_upper(b)
    &&& forall|j: int| 0 <= j < b ==> d > #[trigger] bucket_upper(j)
}

/// Every measurement has exactly one bucket.
pub proof fn lemma_bucket_unique(d: u32, b1: int, b2: int)
    requires
        is_bucket(d, b1),
        is_bucket(d, b2),
    ensures
        b1 == b2,
{
    if b1 < b2 {
        assert(d > bucket_upper(b1));
    } else if b2 < b1 {
        assert(d > bucket_upper(b2));
    }
}

/// Buckets are ordered like the measurements: a longer latency never
/// lands in a lower bucket.
pub proof fn lemma_bucket_monotone(d1: u32, d2: u32, b1: int, b2: int)
    requires
        d1 <= d2,
        is_bucket(d1, b1),
        is_bucket(d2, b2),
    ensures
        b1 <= b2,
{
    if b2 < b1 {
        assert(d1 > bucket_upper(b2));
    }
}

/// Map a microsecond delta to a [`HISTOGRAM_BUCKETS`] index using the
/// thresholds in [`HISTOGRAM_UPPER_US`]: the lowest bucket whose upper
/// bound is at least `d_us`.
pub fn histogram_bucket(d_us: u32) -> (r: usize)
    ensures
        is_bucket(d_us, r as int),
{
    let upper = HISTOGRAM_UPPER_US;
    assert(forall|j: int| 0 <= j < HISTOGRAM_BUCKETS ==> upper@[j] == #[trigger] bucket_upper(j));
    let mut i: usize = 0;
    while i < HISTOGRAM_BUCKETS
        invariant
            0 <= i <= HISTOGRAM_BUCKETS,
            upper@.len() == HISTOGRAM_BUCKETS,
            forall|j: int| 0 <= j < HISTOGRAM_BUCKETS ==> upper@[j] == #[trigger] bucket_upper(j),
            forall|j: int| 0 <= j < i ==> d_us > #[trigger] bucket_upper(j),
        decreases HISTOGRAM_BUCKETS - i,
    {
        if d_us <= upper[i] {
            return i;
        }
        i += 1;
    }
    // The last bound is `u32::MAX`, so the loop always returns.
    assert(d_us > bucket_upper(15));
    HISTOGRAM_BUCKETS - 1
}

/// Sentinel meaning "no RX IRQ timestamp recorded yet". Chosen as
/// `u32::MAX`; a real microsecond clock reads `0xFFFF_FFFF` only at the
/// exact tick before wrap.
pub const IRQ_TIMESTAMP_NONE: u32 = 0xFFFF_FFFF;

/// The missed-frame counter of a `DMAMISSEDFR` value (bits 15:0).
pub open spec fn spec_missed_frames(raw: u32) -> u32 {
    raw & 0xFFFF
}

/// The FIFO-overflow counter of a `DMAMISSEDFR` value (bits 31:16).
pub open spec fn spec_fifo_overflows(raw: u32) -> u32 {
    raw >> 16u32
}

/// Split a `DMAMISSEDFR` value into (missed frames, FIFO overflows).
pub fn missed_frame_counts(raw: u32) -> (r: (u32, u32))
    ensures
        r.0 == spec_missed_frames(raw),
        r.1 == spec_fifo_overflows(raw),
        r.0 <= 0xFFFF,
        r.1 <= 0xFFFF,
        r.0 | (r.1 << 16u32) == raw,
{
    let missed = raw & 0xFFFF;
    let overflow = raw >> 16u32;
    assert(missed <= 0xFFFF && overflow <= 0xFFFF && missed | (overflow << 16u32) == raw)
        by (bit_vector)
        requires
            missed == raw & 0xFFFF,
            overflow == raw >> 16u32,
    ;
    (missed, overflow)
}

/// Snapshot of every counter, byte total, and IRQ→token latency
/// histogram tracked by the driver state.
///
/// All byte totals are stored in kilobytes (bytes / 1024): 32-bit byte
/// counters would wrap every ~4 GB, a few seconds of line-rate
/// 100BASE-TX, while KB units give ~4 TB of headroom.
#[derive(Debug, Clone, Copy)]
pub struct EmacInstrumentation {
    /// Total invocations of `Driver::receive`.
    pub rx_calls: u32,
    /// `Driver::receive` invocations that returned a token pair.
    pub rx_some: u32,
    /// Total bytes received through the RX token's `consume`, in
    /// kilobytes (`bytes / 1024`).
    pub rx_bytes_kb: u32,
    /// Frames dropped inside the RX token's `consume`.
    pub rx_dropped: u32,
    /// Total invocations of `Driver::transmit`.
    pub tx_calls: u32,
    /// `Driver::transmit` invocations that returned a token.
    pub tx_some: u32,
    /// Total bytes transmitted through the TX token's `consume`, in
    /// kilobytes (`bytes / 1024`).
    pub tx_bytes_kb: u32,
    /// Frames dropped inside the TX token's `consume`.
    pub tx_dropped: u32,
    /// Sticky accumulator of the DMA Missed Frame Counter
    /// (`DMAMISSEDFR[15:0]`), which the hardware clears on read.
    pub dma_missed_frames: u32,
    /// Sticky accumulator of the DMA FIFO Overflow Counter
    /// (`DMAMISSEDFR[31:16]`), same clear-on-read semantics.
    pub dma_fifo_overflow: u32,
    /// Distribution of IRQ-to-RX-token-consume latency (microseconds).
    /// Bucket boundaries are given by [`HISTOGRAM_UPPER_US`].
    pub rx_irq_to_token_histogram: [u32; 16],
    /// Distribution of TX-token-creation-to-transmit-completion latency
    /// (microseconds). Bucket boundaries are given by
    /// [`HISTOGRAM_UPPER_US`].
    pub tx_token_to_dma_histogram: [u32; 16],
}

impl EmacInstrumentation {
    /// Every counter zero, every histogram bucket empty.
    pub open spec fn is_zero(&self) -> bool {
        &&& self.rx_calls == 0
        &&& self.rx_some == 0
        &&& self.rx_bytes_kb == 0
        &&& self.rx_dropped == 0
        &&& self.tx_calls == 0
        &&& self.tx_some == 0
        &&& self.tx_bytes_kb == 0
        &&& self.tx_dropped == 0
        &&& self.dma_missed_frames == 0
        &&& self.dma_fifo_overflow == 0
        &&& forall|i: int| 0 <= i < 16 ==> #[trigger] self.rx_irq_to_token_histogram@[i] == 0
        &&& forall|i: int| 0 <= i < 16 ==> #[trigger] self.tx_token_to_dma_histogram@[i] == 0
    }
}

impl Default for EmacInstrumentation {
    fn default() -> (r: Self)
        ensures
            r.is_zero(),
    {
        Self {
            rx_calls: 0,
            rx_some: 0,
            rx_bytes_kb: 0,
            rx_dropped: 0,
            tx_calls: 0,
            tx_some: 0,
            tx_bytes_kb: 0,
            tx_dropped: 0,
            dma_missed_frames: 0,
            dma_fifo_overflow: 0,
            rx_irq_to_token_histogram: [0u32; 16],
            tx_token_to_dma_histogram: [0u32; 16],
        }
    }
}

} // verus!
