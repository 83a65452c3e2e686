# iriv_io_modbus

Modbus TCP server logic of the Cytron IRIV IO controller (RP2350 + W5500),
verified with Verus.

- `src/registers.rs` – the register map: coil, contact and input-register
  addresses, and the model/version information block.
- `src/frame.rs` – requests and responses as plain values; decoding of
  request frames and encoding of response frames through `modbus-core`.
- `src/server.rs` – the decisions of one transaction: what to measure, the
  reply, the output to drive and the frame to send. A read answers the items
  it names; a read of no items at a defined address answers the rest of its
  block unset (the five input registers counting as one block); an
  undefined address, or a range past a block's end, is refused with
  `NoAddressMatch`.
- `src/laws.rs` – properties across requests: header echo, reads drive no
  output, a read answers exactly the items it names, a written coil reads
  back, undefined addresses and other function codes get no response.
- `app/` – the firmware around the library: board setup, GPIO and ADC access,
  the network stack and the socket loop.
