//! A verified core for a PTP/MTP (Picture Transfer Protocol) tethering stack.
//!
//! The crate covers the protocol logic of a camera-to-host link: the 12-byte
//! container framing, the tagged typed-value codec, the fixed-layout decoders
//! for structured replies (device, object, storage and property descriptions),
//! the transaction engine that sequences the command / data / response phases
//! over a bulk transport, and the session lifecycle state machine.
//!
//! The bulk transport itself (USB host I/O) and the wireless forwarding side
//! are collaborators outside this crate: the engine here is a state machine
//! from transport events to the next transport action, so a driver loop can
//! run it over any byte-oriented transport.

pub mod camera_connection;
pub mod codes;
pub mod container;
pub mod data_types;
pub mod data_transfer;
pub mod device_info;
pub mod error;
pub mod protocol;
pub mod reader;
pub mod session;
pub mod transaction;
pub mod utf16;
pub mod wireless;
