//! Bit-field constants for the enhanced (ATDS = 1) descriptor words.
//!
//! Layout follows the Synopsys DesignWare GMAC "alternate" descriptor
//! format used by the ESP32 EMAC.

/// TDES0: TX status and control word.
pub mod tdes0;
/// TDES1: TX buffer sizes.
pub mod tdes1;
/// RDES0: RX status word.
pub mod rdes0;
/// RDES1: RX buffer sizes and control.
pub mod rdes1;
