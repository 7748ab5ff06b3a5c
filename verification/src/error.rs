//! EMAC error types.

use vstd::prelude::*;

use crate::reset::ResetError;

verus! {

/// EMAC driver error.
#[derive(Debug, Clone, Copy, PartialEq, Eq, Structural)]
#[non_exhaustive]
pub enum EmacError {
    /// MDIO operation timed out (no PHY response within the SMI window).
    Timeout,
    /// DMA software reset (`DMABUSMODE.SWR`) did not self-clear within
    /// the reset timeout. Distinct from [`Self::Timeout`] so callers can
    /// tell SMI-bus errors apart from DMA-controller stuckness.
    DmaResetTimeout,
    /// The TX FIFO flush (`DMAOPERATION.FTF`) did not finish while
    /// stopping. The rest of the teardown still ran: the driver is
    /// stopped and can be started again.
    TxFlushTimeout,
    /// DMA descriptor or buffer error.
    DmaError,
    /// Invalid configuration (bad pin, clock, etc.).
    InvalidConfig,
    /// PHY address out of range (must be 0-31).
    InvalidPhyAddress,
    /// Frame length is zero or otherwise invalid.
    InvalidLength,
    /// Frame too large for available descriptors/buffers.
    FrameTooLarge,
    /// No TX descriptors available (ring full).
    NoDescriptorsAvailable,
    /// Descriptor is still owned by DMA.
    DescriptorBusy,
    /// No received frame available.
    NoFrameAvailable,
    /// Received frame has errors (CRC, overflow, etc.).
    FrameError,
    /// Caller-provided buffer too small for the received frame.
    BufferTooSmall,
    /// DMA engine not initialized.
    NotInitialized,
    /// `init()` was called twice.
    AlreadyInitialized,
}

impl From<ResetError> for EmacError {
    fn from(e: ResetError) -> (r: Self) {
        match e {
            ResetError::Timeout => EmacError::DmaResetTimeout,
        }
    }
}

impl vstd::std_specs::convert::FromSpecImpl<ResetError> for EmacError {
    open spec fn obeys_from_spec() -> bool {
        true
    }

    /// A DMA reset timeout becomes [`EmacError::DmaResetTimeout`], never
    /// the SMI-flavoured [`EmacError::Timeout`].
    open spec fn from_spec(e: ResetError) -> EmacError {
        match e {
            ResetError::Timeout => EmacError::DmaResetTimeout,
        }
    }
}

} // verus!
