//! The forwarding manager: buffers decoded packets and pushes them to a
//! wireless sender, under a small start / pause / stop lifecycle.

use vstd::prelude::*;

use crate::error::Error;
use crate::protocol::{DataListener, DataPacket};
use crate::wireless::DataSender;

verus! {

/// The lifecycle of the forwarding manager.
#[derive(Debug, Clone, Copy, PartialEq, Eq, Structural)]
pub enum TransferStatus {
    Idle,
    Starting,
    Running,
    Paused,
    Stopping,
    Error,
}

/// The spec-level state of a transfer manager. The sender itself is outside
/// the model; only whether one is set is tracked.
pub struct TransferModel {
    pub status: TransferStatus,
    pub buffer: Seq<DataPacket>,
    pub has_sender: bool,
    pub total: nat,
    pub max: nat,
}

/// Coordinates the flow of packets from the camera to the wireless sender:
/// a bounded buffer, a byte counter, and the lifecycle state.
pub struct TransferManager<S: DataSender> {
    status: TransferStatus,
    buffer: Vec<DataPacket>,
    data_sender: Option<S>,
    total_bytes_transferred: usize,
    max_buffer_size: usize,
}

impl<S: DataSender> View for TransferManager<S> {
    type V = TransferModel;

    closed spec fn view(&self) -> TransferModel {
        TransferModel {
            status: self.status,
            buffer: self.buffer@,
            has_sender: self.data_sender is Some,
            total: self.total_bytes_transferred as nat,
            max: self.max_buffer_size as nat,
        }
    }
}

impl<S: DataSender> TransferManager<S> {
    /// A fresh manager: idle, empty, no sender, nothing transferred.
    pub fn new(max_buffer_size: usize) -> (r: TransferManager<S>)
        ensures
            r@ == (TransferModel {
                status: TransferStatus::Idle,
                buffer: Seq::<DataPacket>::empty(),
                has_sender: false,
                total: 0,
                max: max_buffer_size as nat,
            }),
    {
        TransferManager {
            status: TransferStatus::Idle,
            buffer: Vec::new(),
            data_sender: None,
            total_bytes_transferred: 0,
            max_buffer_size,
        }
    }

    /// Install the sender that forwarded packets go to.
    pub fn set_sender(&mut self, sender: S)
        ensures
            final(self)@ == (TransferModel { has_sender: true, ..old(self)@ }),
    {
        self.data_sender = Some(sender);
    }

    /// Start forwarding. Allowed from Idle or Paused, and only once a
    /// sender is set; the state then becomes Running. A rejected start
    /// leaves the manager unchanged.
    pub fn start(&mut self) -> (r: Result<(), Error>)
        ensures
            r is Ok <==> ((old(self)@.status == TransferStatus::Idle || old(self)@.status
                == TransferStatus::Paused) && old(self)@.has_sender),
            r is Ok ==> final(self)@ == (TransferModel {
                status: TransferStatus::Running,
                ..old(self)@
            }),
            r is Err ==> final(self)@ == old(self)@,
            (old(self)@.status == TransferStatus::Idle || old(self)@.status
                == TransferStatus::Paused) && !old(self)@.has_sender ==> (r matches Err(e)
                && e is NotFound),
            !(old(self)@.status == TransferStatus::Idle || old(self)@.status
                == TransferStatus::Paused) ==> (r matches Err(e) && e is USB),
    {
        if self.status == TransferStatus::Idle || self.status == TransferStatus::Paused {
            if self.data_sender.is_none() {
                return Err(Error::NotFound("no data sender set".to_owned()));
            }
            self.status = TransferStatus::Starting;
            self.status = TransferStatus::Running;
            Ok(())
        } else {
            Err(Error::USB("transfer cannot start from the current state".to_owned()))
        }
    }

    /// Pause forwarding. Allowed exactly while Running; a rejected pause
    /// leaves the manager unchanged.
    pub fn pause(&mut self) -> (r: Result<(), Error>)
        ensures
            r is Ok <==> old(self)@.status == TransferStatus::Running,
            r is Ok ==> final(self)@ == (TransferModel {
                status: TransferStatus::Paused,
                ..old(self)@
            }),
            r is Err ==> final(self)@ == old(self)@ && r->Err_0 is USB,
    {
        if self.status == TransferStatus::Running {
            self.status = TransferStatus::Paused;
            Ok(())
        } else {
            Err(Error::USB("transfer cannot pause from the current state".to_owned()))
        }
    }

    /// Stop forwarding. Allowed from Running or Paused: the buffer is
    /// dropped and the sender closed. When the close succeeds the manager
    /// is Idle again; when it fails, the close error is reported and the
    /// manager is left Stopping. A rejected stop leaves it unchanged.
    pub fn stop(&mut self) -> (r: Result<(), Error>)
        ensures
            !(old(self)@.status == TransferStatus::Running || old(self)@.status
                == TransferStatus::Paused) ==> final(self)@ == old(self)@ && r is Err
                && r->Err_0 is USB,
            (old(self)@.status == TransferStatus::Running || old(self)@.status
                == TransferStatus::Paused) ==> {
                &&& final(self)@.buffer == Seq::<DataPacket>::empty()
                &&& final(self)@.has_sender == old(self)@.has_sender
                &&& final(self)@.total == old(self)@.total
                &&& final(self)@.max == old(self)@.max
                &&& (r is Ok ==> final(self)@.status == TransferStatus::Idle)
                &&& (r is Err ==> final(self)@.status == TransferStatus::Stopping)
            },
    {
        if self.status == TransferStatus::Running || self.status == TransferStatus::Paused {
            self.status = TransferStatus::Stopping;
            self.buffer.clear();
            match &mut self.data_sender {
                Some(sender) => {
                    match sender.close() {
                        Ok(_) => (),
                        Err(e) => {
                            return Err(e);
                        },
                    }
                },
                None => (),
            };
            self.status = TransferStatus::Idle;
            Ok(())
        } else {
            Err(Error::USB("transfer cannot stop from the current state".to_owned()))
        }
    }

    /// The current lifecycle state.
    pub fn get_status(&self) -> (r: TransferStatus)
        ensures
            r == self@.status,
    {
        self.status
    }

    /// How many bytes the sender has accepted so far.
    pub fn get_bytes_transferred(&self) -> (r: usize)
        ensures
            r as nat == self@.total,
    {
        self.total_bytes_transferred
    }

    /// Queue one packet. When the buffer is full the oldest packet is
    /// dropped to make room.
    pub fn add_packet_to_buffer(&mut self, packet: DataPacket) -> (r: Result<(), Error>)
        ensures
            r is Ok,
            final(self)@ == (TransferModel {
                buffer: if old(self)@.buffer.len() >= old(self)@.max && old(
                    self,
                )@.buffer.len() > 0 {
                    old(self)@.buffer.drop_first().push(packet)
                } else {
                    old(self)@.buffer.push(packet)
                },
                ..old(self)@
            }),
    {
        if self.buffer.len() >= self.max_buffer_size && self.buffer.len() > 0 {
            self.buffer.remove(0);
        }
        self.buffer.push(packet);
        Ok(())
    }

    /// Forward every buffered packet to the sender. Outside the Running
    /// state this does nothing. While Running, the buffer is drained; the
    /// byte counter grows by whatever the sender reports, saturating at the
    /// counter's range, and a send failure is reported with the remaining
    /// drained packets dropped, as the protocol offers no way to resume a
    /// partial forward.
    pub fn process_buffer(&mut self) -> (r: Result<(), Error>)
        ensures
            old(self)@.status != TransferStatus::Running ==> final(self)@ == old(self)@ && r is Ok,
            old(self)@.status == TransferStatus::Running && !old(self)@.has_sender ==> final(self)@
                == old(self)@ && r is Err && r->Err_0 is NotFound,
            old(self)@.status == TransferStatus::Running && old(self)@.has_sender ==> {
                &&& final(self)@.buffer == Seq::<DataPacket>::empty()
                &&& final(self)@.status == old(self)@.status
                &&& final(self)@.has_sender == old(self)@.has_sender
                &&& final(self)@.max == old(self)@.max
                &&& final(self)@.total >= old(self)@.total
            },
    {
        if self.status != TransferStatus::Running {
            return Ok(());
        }
        if self.data_sender.is_none() {
            return Err(Error::NotFound("no data sender set".to_owned()));
        }
        let mut packets_to_send: Vec<DataPacket> = Vec::new();
        core::mem::swap(&mut packets_to_send, &mut self.buffer);
        let n = packets_to_send.len();
        let mut i: usize = 0;
        while i < n
            invariant
                i <= n,
                n == packets_to_send@.len(),
                old(self)@.status == TransferStatus::Running,
                old(self)@.has_sender,
                self@.buffer == Seq::<DataPacket>::empty(),
                self@.status == old(self)@.status,
                self@.has_sender == old(self)@.has_sender,
                self@.max == old(self)@.max,
                self@.total >= old(self)@.total,
                self@.has_sender,
            decreases n - i,
        {
            let sent = match &self.data_sender {
                Some(sender) => {
                    match sender.send_data(packets_to_send[i].data.as_slice()) {
                        Ok(sent) => sent,
                        Err(e) => {
                            return Err(e);
                        },
                    }
                },
                None => {
                    proof {
                        assert(false);
                    }
                    return Err(Error::NotFound("no data sender set".to_owned()));
                },
            };
            if usize::MAX - self.total_bytes_transferred >= sent {
                self.total_bytes_transferred = self.total_bytes_transferred + sent;
            } else {
                self.total_bytes_transferred = usize::MAX;
            }
            i = i + 1;
        }
        Ok(())
    }
}

impl<S: DataSender> DataListener for TransferManager<S> {
    /// Packets arriving while not Running are dropped; while Running they
    /// are queued and the buffer forwarded, and a forwarding failure parks
    /// the manager in the Error state.
    fn on_data_received(&mut self, packet: &DataPacket) {
        if self.status != TransferStatus::Running {
            return ;
        }
        match self.add_packet_to_buffer(packet.clone()) {
            Ok(_) => {
                match self.process_buffer() {
                    Ok(_) => (),
                    Err(_) => {
                        self.status = TransferStatus::Error;
                    },
                }
            },
            Err(_) => {
                self.status = TransferStatus::Error;
            },
        }
    }

    /// A receive error parks the manager in the Error state.
    fn on_error(&mut self, _error: &Error) {
        self.status = TransferStatus::Error;
    }
}

} // verus!
