//! Identity records of a DID service and their JSON encoding.
//!
//! The records are plain values. Each one is written to JSON text as an object
//! with one string entry per present field, and is read back from any JSON
//! object that holds its mandatory fields.

pub mod json;
pub mod types;

pub use json::{DecodeError, Object, Slot};
pub use types::{MyDid, MyDidInfo, MyKyesInfo, TheirDid, TheirDidInfo};
