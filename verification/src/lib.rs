//! Verified request handling for the IRIV IO controller's Modbus TCP server:
//! the register map, the decisions taken for each request, and the framing of
//! requests and responses (through `modbus-core`).

pub mod registers;

pub mod frame;
pub mod server;
pub mod laws;
