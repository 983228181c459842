//! The interface the wireless forwarding side offers to this crate.
//!
//! The actual WiFi and Bluetooth transports live with the platform's
//! networking stacks, outside the verified library; the library only hands
//! decoded packets to a [`DataSender`].

use vstd::prelude::*;

use crate::error::Error;

verus! {

/// Which wireless link forwards the data.
#[derive(Debug, Clone, Copy, PartialEq, Eq, Structural)]
pub enum ConnectionType {
    WiFi,
    Bluetooth,
}

/// How a wireless link is brought up: an access point's name and password,
/// or a Bluetooth device name.
#[derive(Debug, Clone, PartialEq)]
pub enum ConnectionConfig {
    WiFi(String, String),
    Bluetooth(String),
}

/// A sink for forwarded data. Implementations wrap a platform transport;
/// nothing is assumed about how much a send accepts or when it fails.
pub trait DataSender {
    /// Send bytes onward; on success, how many were accepted.
    fn send_data(&self, data: &[u8]) -> Result<usize, Error>;

    /// Close the sender.
    fn close(&mut self) -> Result<(), Error>;
}

} // verus!
