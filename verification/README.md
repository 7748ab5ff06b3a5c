# esp_emac

ESP32 Ethernet MAC (EMAC) driver logic with machine-checked contracts.

- `src/` — the driver's decisions, verified with Verus: DMA descriptor
  rings and the DMA engine (frame transmission and reception), the
  bring-up / start / stop sequences of the EMAC, MDIO (SMI)
  transactions, APLL and RMII clock programming, interrupt status
  decoding, and the bookkeeping of the embassy-net adapter. Register
  accesses are produced as `hw::HwOp` programs whose exact content each
  contract states.
- `app/` — the hardware side: performs `HwOp` programs with volatile
  MMIO and the ROM I2C bus, runs the DMA soft reset with an
  `embedded_hal::delay::DelayNs`, implements `eth_mdio_phy::MdioBus`
  and the `embassy_net_driver::Driver` traits.
- `tests/` — host tests of the library.
