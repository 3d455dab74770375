//! Driver core for an EZO temperature chip spoken to over I2C.
//!
//! The crate is split in three parts: `response` holds the byte-level
//! decoding of a chip reply (response-code classification and ASCII payload
//! extraction with high-bit correction), `params` holds the per-command
//! parameters and their builder, and `engine` holds the transmit/delay/
//! receive protocol engine as an explicit state machine. The caller owns the
//! bus handle and performs each requested bus operation, feeding the outcome
//! back to the engine.

pub mod engine;
pub mod params;
pub mod response;

