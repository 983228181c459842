//! The downstream face of the protocol layer: decoded packets, the handler
//! and listener interfaces, and the dispatcher that fans packets out to
//! listeners.

use vstd::prelude::*;

use crate::error::Error;

verus! {

/// Which transfer protocol a handler speaks.
#[derive(Debug, Clone, Copy, PartialEq, Eq, Structural)]
pub enum ProtocolType {
    PTP,
    MTP,
}

/// A camera's identity, as assembled from its device description.
#[derive(Debug, Clone, PartialEq)]
pub struct DeviceInfo {
    pub device_name: String,
    pub manufacturer: String,
    pub model: String,
    pub serial_number: String,
    pub protocol_version: String,
    pub supported_operations: Vec<u16>,
}

/// What one decoded payload is.
#[derive(Debug, Clone, Copy, PartialEq, Eq, Structural)]
pub enum PacketType {
    Image,
    Thumbnail,
    Metadata,
    Command,
    Response,
}

/// One decoded payload handed to the forwarding consumer. One transaction
/// yields one packet; the timestamp is milliseconds as the platform clock
/// reports them.
#[derive(Debug, Clone)]
pub struct DataPacket {
    pub data: Vec<u8>,
    pub timestamp: u64,
    pub packet_type: PacketType,
}

/// A protocol session as its users drive it; implementations wrap a
/// transaction engine and its transport.
pub trait ProtocolHandler {
    /// Open the protocol session.
    fn init_session(&mut self) -> Result<(), Error>;

    /// The device's identity.
    fn get_device_info(&self) -> Result<DeviceInfo, Error>;

    /// Start streaming captured data.
    fn start_live_stream(&mut self) -> Result<(), Error>;

    /// Stop streaming captured data.
    fn stop_live_stream(&mut self) -> Result<(), Error>;

    /// Close the protocol session.
    fn close_session(&mut self) -> Result<(), Error>;
}

/// A consumer of decoded packets.
pub trait DataListener {
    /// Called once for every packet received.
    fn on_data_received(&mut self, packet: &DataPacket);

    /// Called when receiving fails.
    fn on_error(&mut self, error: &Error);
}

/// Fans every received packet (or error) out to the registered listeners,
/// in registration order.
pub struct DataProcessor<L: DataListener> {
    listeners: Vec<L>,
}

impl<L: DataListener> DataProcessor<L> {
    /// How many listeners are registered.
    pub closed spec fn listener_count(&self) -> nat {
        self.listeners@.len()
    }

    /// A dispatcher with no listeners.
    pub fn new() -> (r: DataProcessor<L>)
        ensures
            r.listener_count() == 0,
    {
        DataProcessor { listeners: Vec::new() }
    }

    /// Register one more listener; it is called after those already there.
    pub fn add_listener(&mut self, listener: L)
        ensures
            final(self).listener_count() == old(self).listener_count() + 1,
    {
        self.listeners.push(listener);
    }

    /// Hand one packet to every listener.
    pub fn process_packet(&mut self, packet: DataPacket)
        ensures
            final(self).listener_count() == old(self).listener_count(),
    {
        let n = self.listeners.len();
        let mut i: usize = 0;
        while i < n
            invariant
                i <= n,
                self.listeners@.len() == n,
            decreases n - i,
        {
            self.listeners[i].on_data_received(&packet);
            i = i + 1;
        }
    }

    /// Report one error to every listener.
    pub fn handle_error(&mut self, error: &Error)
        ensures
            final(self).listener_count() == old(self).listener_count(),
    {
        let n = self.listeners.len();
        let mut i: usize = 0;
        while i < n
            invariant
                i <= n,
                self.listeners@.len() == n,
            decreases n - i,
        {
            self.listeners[i].on_error(error);
            i = i + 1;
        }
    }
}

} // verus!
