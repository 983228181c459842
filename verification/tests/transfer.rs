//! Transfer manager and packet dispatcher tests, with recording test
//! doubles for the sender and listener interfaces.

use std::cell::RefCell;
use std::rc::Rc;

use rcamera::data_transfer::{TransferManager, TransferStatus};
use rcamera::error::Error;
use rcamera::protocol::{DataListener, DataPacket, DataProcessor, PacketType};
use rcamera::wireless::DataSender;

/// Records every send; can be told to fail.
struct RecordingSender {
    sent: Rc<RefCell<Vec<Vec<u8>>>>,
    fail: bool,
    closed: Rc<RefCell<bool>>,
}

impl DataSender for RecordingSender {
    fn send_data(&self, data: &[u8]) -> Result<usize, Error> {
        if self.fail {
            return Err(Error::USB(String::from("link down")));
        }
        self.sent.borrow_mut().push(data.to_vec());
        Ok(data.len())
    }

    fn close(&mut self) -> Result<(), Error> {
        *self.closed.borrow_mut() = true;
        Ok(())
    }
}

fn packet(bytes: &[u8]) -> DataPacket {
    DataPacket { data: bytes.to_vec(), timestamp: 12345, packet_type: PacketType::Image }
}

#[test]
fn start_requires_a_sender() {
    let mut m: TransferManager<RecordingSender> = TransferManager::new(4);
    assert!(matches!(m.start(), Err(Error::NotFound(_))));
    assert_eq!(m.get_status(), TransferStatus::Idle);
}

#[test]
fn lifecycle_start_pause_stop() {
    let sent = Rc::new(RefCell::new(Vec::new()));
    let closed = Rc::new(RefCell::new(false));
    let mut m = TransferManager::new(4);
    m.set_sender(RecordingSender { sent: sent.clone(), fail: false, closed: closed.clone() });

    assert!(m.start().is_ok());
    assert_eq!(m.get_status(), TransferStatus::Running);
    // starting again while running is a state error
    assert!(matches!(m.start(), Err(Error::USB(_))));

    assert!(m.pause().is_ok());
    assert_eq!(m.get_status(), TransferStatus::Paused);
    assert!(matches!(m.pause(), Err(Error::USB(_))));

    assert!(m.start().is_ok());
    assert!(m.stop().is_ok());
    assert_eq!(m.get_status(), TransferStatus::Idle);
    assert!(*closed.borrow());
    assert!(matches!(m.stop(), Err(Error::USB(_))));
}

#[test]
fn packets_flow_to_the_sender() {
    let sent = Rc::new(RefCell::new(Vec::new()));
    let closed = Rc::new(RefCell::new(false));
    let mut m = TransferManager::new(4);
    m.set_sender(RecordingSender { sent: sent.clone(), fail: false, closed });
    m.start().unwrap();

    m.on_data_received(&packet(&[1, 2, 3]));
    m.on_data_received(&packet(&[4, 5]));
    assert_eq!(*sent.borrow(), vec![vec![1, 2, 3], vec![4, 5]]);
    assert_eq!(m.get_bytes_transferred(), 5);
}

#[test]
fn packets_ignored_unless_running() {
    let sent = Rc::new(RefCell::new(Vec::new()));
    let closed = Rc::new(RefCell::new(false));
    let mut m = TransferManager::new(4);
    m.set_sender(RecordingSender { sent: sent.clone(), fail: false, closed });

    m.on_data_received(&packet(&[1]));
    assert!(sent.borrow().is_empty());
    assert_eq!(m.get_bytes_transferred(), 0);
}

#[test]
fn send_failure_parks_the_manager_in_error() {
    let sent = Rc::new(RefCell::new(Vec::new()));
    let closed = Rc::new(RefCell::new(false));
    let mut m = TransferManager::new(4);
    m.set_sender(RecordingSender { sent, fail: true, closed });
    m.start().unwrap();

    m.on_data_received(&packet(&[9]));
    assert_eq!(m.get_status(), TransferStatus::Error);
}

#[test]
fn receive_error_parks_the_manager_in_error() {
    let mut m: TransferManager<RecordingSender> = TransferManager::new(4);
    m.on_error(&Error::USB(String::from("bus reset")));
    assert_eq!(m.get_status(), TransferStatus::Error);
}

#[test]
fn full_buffer_drops_the_oldest_packet() {
    // keep the manager paused so nothing is forwarded while we queue
    let sent = Rc::new(RefCell::new(Vec::new()));
    let closed = Rc::new(RefCell::new(false));
    let mut m = TransferManager::new(2);
    m.set_sender(RecordingSender { sent: sent.clone(), fail: false, closed });

    m.add_packet_to_buffer(packet(&[1])).unwrap();
    m.add_packet_to_buffer(packet(&[2])).unwrap();
    m.add_packet_to_buffer(packet(&[3])).unwrap(); // evicts [1]

    m.start().unwrap();
    m.process_buffer().unwrap();
    assert_eq!(*sent.borrow(), vec![vec![2], vec![3]]);
    assert_eq!(m.get_bytes_transferred(), 2);
}

/// Records what it hears from the dispatcher into shared cells.
struct RecordingListener {
    packets: Rc<RefCell<Vec<Vec<u8>>>>,
    errors: Rc<RefCell<usize>>,
}

impl DataListener for RecordingListener {
    fn on_data_received(&mut self, packet: &DataPacket) {
        self.packets.borrow_mut().push(packet.data.clone());
    }

    fn on_error(&mut self, _error: &Error) {
        *self.errors.borrow_mut() += 1;
    }
}

#[test]
fn processor_fans_packets_out_to_listeners() {
    let log_a = Rc::new(RefCell::new(Vec::new()));
    let log_b = Rc::new(RefCell::new(Vec::new()));
    let errs = Rc::new(RefCell::new(0));
    let mut p: DataProcessor<RecordingListener> = DataProcessor::new();
    p.add_listener(RecordingListener { packets: log_a.clone(), errors: errs.clone() });
    p.add_listener(RecordingListener { packets: log_b.clone(), errors: errs.clone() });

    p.process_packet(packet(&[7, 8]));
    assert_eq!(*log_a.borrow(), vec![vec![7, 8]]);
    assert_eq!(*log_b.borrow(), vec![vec![7, 8]]);

    p.handle_error(&Error::Malformed(String::from("bad frame")));
    assert_eq!(*errs.borrow(), 2);
}
