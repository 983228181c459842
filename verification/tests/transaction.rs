//! Transaction engine tests: chunked writes, the receive state machine, and
//! the packet-boundary edge case, driven over a test-double bulk transport.

use rcamera::codes::PtpContainerType;
use rcamera::container::encode_container;
use rcamera::error::Error;
use rcamera::transaction::{
    chunk_phase, encode_command_payload, RecvStep, TransactionEngine, TxnReceiver, CHUNK_SIZE,
    READ_BUFFER_SIZE,
};

/// A test double for the bulk-in endpoint: a queue of packets, each at most
/// `max_packet` bytes. A read takes whole packets while they fit its
/// capacity, and a short or zero-length packet terminates the read, as a
/// bulk transfer boundary does.
struct TestBus {
    packets: Vec<Vec<u8>>,
    max_packet: usize,
}

impl TestBus {
    fn new(max_packet: usize) -> TestBus {
        TestBus { packets: Vec::new(), max_packet }
    }

    /// Queue one transfer, split into max-packet-size packets; when its
    /// length is an exact multiple of the packet size, the device must
    /// terminate it with a zero-length packet.
    fn queue_transfer(&mut self, data: &[u8]) {
        let mut off = 0;
        while off < data.len() {
            let end = usize::min(off + self.max_packet, data.len());
            self.packets.push(data[off..end].to_vec());
            off = end;
        }
        if data.len() % self.max_packet == 0 {
            self.packets.push(Vec::new());
        }
    }

    fn read(&mut self, capacity: usize) -> Vec<u8> {
        let mut out = Vec::new();
        while !self.packets.is_empty() {
            let pkt_len = self.packets[0].len();
            if out.len() + pkt_len > capacity {
                break;
            }
            let pkt = self.packets.remove(0);
            let short = pkt.len() < self.max_packet;
            out.extend_from_slice(&pkt);
            if short || out.len() == capacity {
                break;
            }
        }
        out
    }
}

/// Drive one receiver over the bus until it finishes.
fn run_receiver(rx: &mut TxnReceiver, bus: &mut TestBus) -> Result<Vec<u8>, Error> {
    let mut capacity = READ_BUFFER_SIZE;
    loop {
        let buf = bus.read(capacity);
        match rx.on_read(buf) {
            RecvStep::Continue(cap) => {
                capacity = cap;
            }
            RecvStep::Done(data) => return Ok(data),
            RecvStep::Failed(e) => return Err(e),
        }
    }
}

#[test]
fn transaction_ids_increase() {
    let mut engine = TransactionEngine::new();
    let (w0, _rx0) = engine.begin(0x1001, &vec![], None);
    let (w1, _rx1) = engine.begin(0x1001, &vec![], None);
    // tid lives at offset 8 of the command container
    assert_eq!(&w0[0][8..12], &[0, 0, 0, 0]);
    assert_eq!(&w1[0][8..12], &[1, 0, 0, 0]);
}

#[test]
fn command_payload_is_flat_little_endian_params() {
    assert_eq!(
        encode_command_payload(&vec![1, 0x01020304]),
        vec![1, 0, 0, 0, 4, 3, 2, 1]
    );
}

#[test]
fn begin_lays_out_command_and_data_phases() {
    let mut engine = TransactionEngine::new();
    let data = vec![9u8, 8, 7];
    let (writes, _rx) = engine.begin(0x100D, &vec![5], Some(&data));
    let mut all = Vec::new();
    for w in &writes {
        all.extend_from_slice(w);
    }
    let mut expected = encode_container(PtpContainerType::Command, 0x100D, 0, &[5, 0, 0, 0]);
    expected.extend_from_slice(&encode_container(PtpContainerType::Data, 0x100D, 0, &data));
    assert_eq!(all, expected);
}

#[test]
fn chunk_size_payload_splits_into_full_chunk_and_twelve_byte_tail() {
    // a payload of exactly the chunk size: the first chunk carries the
    // header plus CHUNK_SIZE-12 payload bytes, and one trailing chunk holds
    // exactly the remaining 12 bytes
    let payload = vec![0xA5u8; CHUNK_SIZE];
    let chunks = chunk_phase(PtpContainerType::Data, 0x1009, 3, &payload);
    assert_eq!(chunks.len(), 2);
    assert_eq!(chunks[0].len(), CHUNK_SIZE);
    assert_eq!(chunks[1].len(), 12);
    let mut all = Vec::new();
    for c in &chunks {
        all.extend_from_slice(c);
    }
    assert_eq!(all, encode_container(PtpContainerType::Data, 0x1009, 3, &payload));
}

#[test]
fn small_payload_is_one_chunk() {
    let chunks = chunk_phase(PtpContainerType::Command, 0x1002, 1, &[1, 0, 0, 0]);
    assert_eq!(chunks.len(), 1);
    assert_eq!(chunks[0], encode_container(PtpContainerType::Command, 0x1002, 1, &[1, 0, 0, 0]));
}

#[test]
fn data_then_ok_response_returns_payload() {
    let mut bus = TestBus::new(512);
    bus.queue_transfer(&encode_container(PtpContainerType::Data, 0x1001, 0, &[1, 2, 3]));
    bus.queue_transfer(&encode_container(PtpContainerType::Response, 0x2001, 0, &[]));
    let mut rx = TxnReceiver::new(0);
    assert_eq!(run_receiver(&mut rx, &mut bus).unwrap(), vec![1, 2, 3]);
}

#[test]
fn response_without_data_returns_empty_payload() {
    let mut bus = TestBus::new(512);
    bus.queue_transfer(&encode_container(PtpContainerType::Response, 0x2001, 9, &[]));
    let mut rx = TxnReceiver::new(9);
    assert_eq!(run_receiver(&mut rx, &mut bus).unwrap(), Vec::<u8>::new());
}

#[test]
fn mismatched_transaction_id_fails_with_malformed() {
    // the response reports transaction 6; the request used 5
    let mut bus = TestBus::new(512);
    bus.queue_transfer(&encode_container(PtpContainerType::Response, 0x2001, 6, &[]));
    let mut rx = TxnReceiver::new(5);
    let e = run_receiver(&mut rx, &mut bus).expect_err("must fail");
    assert!(matches!(e, Error::Malformed(_)));
}

#[test]
fn general_error_response_discards_buffered_data() {
    // a data phase arrives, then the device reports GeneralError (0x2002):
    // the transaction fails with that code and no payload comes back
    let mut bus = TestBus::new(512);
    bus.queue_transfer(&encode_container(PtpContainerType::Data, 0x1009, 2, &[42, 43]));
    bus.queue_transfer(&encode_container(PtpContainerType::Response, 0x2002, 2, &[]));
    let mut rx = TxnReceiver::new(2);
    let e = run_receiver(&mut rx, &mut bus).expect_err("must fail");
    assert!(matches!(e, Error::Response(0x2002)));
}

#[test]
fn event_containers_are_ignored() {
    let mut bus = TestBus::new(512);
    bus.queue_transfer(&encode_container(PtpContainerType::Event, 0x4002, 4, &[]));
    bus.queue_transfer(&encode_container(PtpContainerType::Data, 0x1001, 4, &[7]));
    bus.queue_transfer(&encode_container(PtpContainerType::Response, 0x2001, 4, &[]));
    let mut rx = TxnReceiver::new(4);
    assert_eq!(run_receiver(&mut rx, &mut bus).unwrap(), vec![7]);
}

#[test]
fn payload_larger_than_first_read_needs_more_reads() {
    // 9000 payload bytes: the first 8 KiB read cannot hold the container
    let payload: Vec<u8> = (0..9000u32).map(|i| (i % 251) as u8).collect();
    let mut bus = TestBus::new(512);
    bus.queue_transfer(&encode_container(PtpContainerType::Data, 0x1009, 1, &payload));
    bus.queue_transfer(&encode_container(PtpContainerType::Response, 0x2001, 1, &[]));
    let mut rx = TxnReceiver::new(1);
    assert_eq!(run_receiver(&mut rx, &mut bus).unwrap(), payload);
}

#[test]
fn exact_multiple_transfer_needs_zero_length_read() {
    // the data container is 8192 bytes in all: an exact multiple of the
    // 512-byte max packet size, so the device terminates the transfer with
    // a zero-length packet. The first read exactly fills the read buffer;
    // the engine must issue one more read to drain that packet.
    let payload = vec![0x5Au8; READ_BUFFER_SIZE - 12];
    let mut bus = TestBus::new(512);
    bus.queue_transfer(&encode_container(PtpContainerType::Data, 0x1009, 0, &payload));
    bus.queue_transfer(&encode_container(PtpContainerType::Response, 0x2001, 0, &[]));

    let mut rx = TxnReceiver::new(0);

    // first read: exactly fills the buffer
    let first = bus.read(READ_BUFFER_SIZE);
    assert_eq!(first.len(), READ_BUFFER_SIZE);
    let step = rx.on_read(first);
    // the payload arrived whole, yet the engine asks for another read
    let cap = match step {
        RecvStep::Continue(c) => c,
        other => panic!("expected another read, got {:?}", other),
    };

    // that read drains the mandatory zero-length packet
    let zlp = bus.read(cap);
    assert_eq!(zlp.len(), 0);
    match rx.on_read(zlp) {
        RecvStep::Continue(c) => {
            // data phase complete; now the response
            let resp = bus.read(c);
            match rx.on_read(resp) {
                RecvStep::Done(data) => assert_eq!(data, payload),
                other => panic!("expected completion, got {:?}", other),
            }
        }
        other => panic!("expected to continue to the response, got {:?}", other),
    }
}

#[test]
fn skipping_zero_length_read_desynchronizes_next_transaction() {
    // same wire traffic as above, but a naive driver that skips the extra
    // read: the stray zero-length packet is then consumed by the next
    // transaction's header read, which fails as malformed
    let payload = vec![0x5Au8; READ_BUFFER_SIZE - 12];
    let mut bus = TestBus::new(512);
    bus.queue_transfer(&encode_container(PtpContainerType::Data, 0x1009, 0, &payload));
    bus.queue_transfer(&encode_container(PtpContainerType::Response, 0x2001, 0, &[]));

    let mut rx = TxnReceiver::new(0);
    let first = bus.read(READ_BUFFER_SIZE);
    match rx.on_read(first) {
        RecvStep::Continue(_) => {}
        other => panic!("expected a continue step, got {:?}", other),
    }

    // naive driver: ignore the requested read and start the next
    // transaction's header read instead; it gets the zero-length packet
    let mut rx2 = TxnReceiver::new(1);
    let stray = bus.read(READ_BUFFER_SIZE);
    assert_eq!(stray.len(), 0);
    let e = match rx2.on_read(stray) {
        RecvStep::Failed(e) => e,
        other => panic!("expected a failure, got {:?}", other),
    };
    assert!(matches!(e, Error::Malformed(_)));
}

#[test]
fn oversized_container_payload_fails() {
    // the container declares one payload byte but carries three
    let mut raw = encode_container(PtpContainerType::Data, 0x1001, 0, &[1]);
    raw.push(2);
    raw.push(3);
    let mut bus = TestBus::new(512);
    bus.queue_transfer(&raw);
    let mut rx = TxnReceiver::new(0);
    let e = run_receiver(&mut rx, &mut bus).expect_err("must fail");
    assert!(matches!(e, Error::Malformed(_)));
}
