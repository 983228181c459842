//! The transaction engine: the command / data / response phase sequence of
//! one PTP transaction over a bulk transport.
//!
//! The engine is a state machine. The send side is pure: it lays the phases
//! out as a list of bulk-out transfers (`chunk_phase`). The receive side is
//! driven by events: each bulk-in read is handed to [`TxnReceiver::on_read`],
//! which answers with the next action — read again with a given capacity,
//! done with the accumulated data payload, or failed. A driver loop (outside
//! this crate) performs the transfers; every decision is made, and verified,
//! here.

use vstd::prelude::*;
use vstd::slice::{slice_subrange, slice_to_vec};

use crate::codes::{PtpContainerType, RESPONSE_OK};
use crate::container::{
    encode_container_header, spec_container_bytes, spec_container_header, spec_parse_container,
    PtpContainerInfo,
};
use crate::data_types::{encode_all, spec_enc_all};
use crate::error::Error;

verus! {

/// Each bulk-out transfer carries at most this many bytes.
pub const CHUNK_SIZE: usize = 1048576;

/// The capacity of the first bulk-in read of every container.
pub const READ_BUFFER_SIZE: usize = 8192;

/// Owns the transaction-id counter of one session. Ids strictly increase,
/// one per transaction, and wrap at the end of the u32 range.
pub struct TransactionEngine {
    current_tid: u32,
}

/// The bytes carried by a list of transfers, in order.
pub open spec fn spec_concat_chunks(cs: Seq<Vec<u8>>) -> Seq<u8>
    decreases cs.len(),
{
    if cs.len() == 0 {
        Seq::empty()
    } else {
        cs[0]@ + spec_concat_chunks(cs.drop_first())
    }
}

/// Appending one transfer appends its bytes.
proof fn lemma_concat_chunks_push(cs: Seq<Vec<u8>>, c: Vec<u8>)
    ensures
        spec_concat_chunks(cs.push(c)) == spec_concat_chunks(cs) + c@,
    decreases cs.len(),
{
    if cs.len() == 0 {
        assert(cs.push(c)[0] == c);
        assert(cs.push(c).drop_first() =~= Seq::<Vec<u8>>::empty());
        assert(spec_concat_chunks(Seq::<Vec<u8>>::empty()) =~= Seq::<u8>::empty());
        assert(spec_concat_chunks(cs.push(c)) =~= c@);
        assert(spec_concat_chunks(cs) + c@ =~= c@);
    } else {
        lemma_concat_chunks_push(cs.drop_first(), c);
        assert(cs.push(c).drop_first() =~= cs.drop_first().push(c));
        assert(cs.push(c)[0] == cs[0]);
        assert(cs[0]@ + (spec_concat_chunks(cs.drop_first()) + c@) =~= (cs[0]@
            + spec_concat_chunks(cs.drop_first())) + c@);
    }
}

/// Concatenating two transfer lists concatenates their bytes.
proof fn lemma_concat_chunks_append(a: Seq<Vec<u8>>, b: Seq<Vec<u8>>)
    ensures
        spec_concat_chunks(a + b) == spec_concat_chunks(a) + spec_concat_chunks(b),
    decreases a.len(),
{
    if a.len() == 0 {
        assert(a + b =~= b);
        assert(spec_concat_chunks(a) =~= Seq::<u8>::empty());
        assert(spec_concat_chunks(a) + spec_concat_chunks(b) =~= spec_concat_chunks(b));
    } else {
        lemma_concat_chunks_append(a.drop_first(), b);
        assert((a + b).drop_first() =~= a.drop_first() + b);
        assert((a + b)[0] == a[0]);
        assert(a[0]@ + (spec_concat_chunks(a.drop_first()) + spec_concat_chunks(b)) =~= (a[0]@
            + spec_concat_chunks(a.drop_first())) + spec_concat_chunks(b));
    }
}

/// Every parameter as a little-endian u32, in order: the payload of the
/// command phase.
pub fn encode_command_payload(params: &Vec<u32>) -> (r: Vec<u8>)
    ensures
        r@ == spec_enc_all::<u32>(params@),
{
    encode_all::<u32>(params)
}

/// The command payload takes four bytes per parameter.
pub proof fn lemma_command_payload_len(params: Seq<u32>)
    ensures
        spec_enc_all::<u32>(params).len() == 4 * params.len(),
    decreases params.len(),
{
    vstd::bytes::lemma_auto_spec_u32_to_from_le_bytes();
    if params.len() > 0 {
        lemma_command_payload_len(params.drop_first());
    }
}

/// Split one send phase into bulk-out transfers. The first transfer is the
/// 12-byte container header plus as much payload as fits the chunk size;
/// the remaining payload follows unmodified in chunk-size pieces. Together
/// the transfers carry exactly the container's wire bytes.
pub fn chunk_phase(
    kind: PtpContainerType,
    code: u16,
    tid: u32,
    payload: &[u8],
) -> (chunks: Vec<Vec<u8>>)
    requires
        payload@.len() + 12 <= u32::MAX,
    ensures
        spec_concat_chunks(chunks@) == spec_container_bytes(kind, code, tid, payload@),
        chunks@.len() >= 1,
        chunks@[0]@.len() == 12 + (if payload@.len() < CHUNK_SIZE - 12 {
            payload@.len() as int
        } else {
            CHUNK_SIZE - 12
        }),
        forall|i: int| 1 <= i < chunks@.len() ==> 1 <= (#[trigger] chunks@[i]@.len()) <= CHUNK_SIZE,
        forall|i: int| 1 <= i < chunks@.len() - 1 ==> (#[trigger] chunks@[i]@.len()) == CHUNK_SIZE,
{
    let total = payload.len();
    let first_n = if total < CHUNK_SIZE - 12 {
        total
    } else {
        CHUNK_SIZE - 12
    };
    let mut first = encode_container_header(kind, code, tid, total);
    let mut fp = slice_to_vec(slice_subrange(payload, 0, first_n));
    first.append(&mut fp);
    let mut chunks: Vec<Vec<u8>> = Vec::new();
    chunks.push(first);
    let mut sent: usize = first_n;
    proof {
        assert(chunks@.drop_first() =~= Seq::<Vec<u8>>::empty());
        assert(spec_concat_chunks(Seq::<Vec<u8>>::empty()) == Seq::<u8>::empty());
        assert(spec_concat_chunks(chunks@) =~= chunks@[0]@);
        assert(payload@.subrange(0, first_n as int) =~= payload@.take(first_n as int));
        assert(spec_concat_chunks(chunks@) =~= spec_container_header(
            kind,
            code,
            tid,
            payload@.len(),
        ) + payload@.take(sent as int));
    }
    while sent < total
        invariant
            payload@.len() + 12 <= u32::MAX,
            total == payload@.len(),
            first_n <= sent <= total,
            first_n == (if total < CHUNK_SIZE - 12 {
                total as int
            } else {
                CHUNK_SIZE - 12
            }),
            chunks@.len() >= 1,
            chunks@[0]@.len() == 12 + first_n,
            spec_concat_chunks(chunks@) == spec_container_header(kind, code, tid, payload@.len())
                + payload@.take(sent as int),
            forall|i: int|
                1 <= i < chunks@.len() ==> 1 <= (#[trigger] chunks@[i]@.len()) <= CHUNK_SIZE,
            forall|i: int|
                1 <= i < chunks@.len() - 1 ==> (#[trigger] chunks@[i]@.len()) == CHUNK_SIZE,
            chunks@.len() >= 2 ==> (chunks@[chunks@.len() - 1]@.len() == CHUNK_SIZE || sent
                == total),
        decreases total - sent,
    {
        let k = if total - sent < CHUNK_SIZE {
            total - sent
        } else {
            CHUNK_SIZE
        };
        let c = slice_to_vec(slice_subrange(payload, sent, sent + k));
        proof {
            lemma_concat_chunks_push(chunks@, c);
            assert(payload@.take((sent + k) as int) =~= payload@.take(sent as int)
                + payload@.subrange(sent as int, (sent + k) as int));
        }
        chunks.push(c);
        sent = sent + k;
    }
    proof {
        assert(payload@.take(total as int) =~= payload@);
    }
    chunks
}

impl TransactionEngine {
    /// The id the next transaction will get.
    pub closed spec fn tid_counter(&self) -> u32 {
        self.current_tid
    }

    /// A fresh engine: the first transaction gets id 0.
    pub fn new() -> (r: TransactionEngine)
        ensures
            r.tid_counter() == 0,
    {
        TransactionEngine { current_tid: 0 }
    }

    /// Allocate the next transaction id; the counter wraps at the end of the
    /// u32 range.
    pub fn next_tid(&mut self) -> (tid: u32)
        ensures
            tid == old(self).tid_counter(),
            final(self).tid_counter() == (if old(self).tid_counter() == u32::MAX {
                0u32
            } else {
                (old(self).tid_counter() + 1) as u32
            }),
    {
        let tid = self.current_tid;
        if self.current_tid == u32::MAX {
            self.current_tid = 0;
        } else {
            self.current_tid = self.current_tid + 1;
        }
        tid
    }

    /// Start one transaction: allocate its id, lay out every bulk-out
    /// transfer of the command phase and, when outbound data is present, of
    /// the data phase, and return the receiver that will sequence the reply.
    pub fn begin(&mut self, code: u16, params: &Vec<u32>, data: Option<&Vec<u8>>) -> (r: (
        Vec<Vec<u8>>,
        TxnReceiver,
    ))
        requires
            4 * params@.len() + 12 <= u32::MAX,
            data matches Some(d) ==> d@.len() + 12 <= u32::MAX,
        ensures
            final(self).tid_counter() == (if old(self).tid_counter() == u32::MAX {
                0u32
            } else {
                (old(self).tid_counter() + 1) as u32
            }),
            r.1.wf(),
            r.1@ == (RecvModel {
                tid: old(self).tid_counter(),
                data: Seq::empty(),
                pending: None,
            }),
            spec_concat_chunks(r.0@) == spec_container_bytes(
                PtpContainerType::Command,
                code,
                old(self).tid_counter(),
                spec_enc_all::<u32>(params@),
            ) + (match data {
                Some(d) => spec_container_bytes(
                    PtpContainerType::Data,
                    code,
                    old(self).tid_counter(),
                    d@,
                ),
                None => Seq::<u8>::empty(),
            }),
    {
        let tid = self.next_tid();
        let request_payload = encode_command_payload(params);
        proof {
            lemma_command_payload_len(params@);
        }
        let mut writes = chunk_phase(
            PtpContainerType::Command,
            code,
            tid,
            request_payload.as_slice(),
        );
        match data {
            Some(d) => {
                let mut more = chunk_phase(PtpContainerType::Data, code, tid, d.as_slice());
                proof {
                    lemma_concat_chunks_append(writes@, more@);
                }
                writes.append(&mut more);
            },
            None => {
                proof {
                    assert(spec_concat_chunks(writes@) + Seq::<u8>::empty() =~= spec_concat_chunks(
                        writes@,
                    ));
                }
            },
        }
        let receiver = TxnReceiver::new(tid);
        (writes, receiver)
    }
}

/// The spec-level state of a receiver: the transaction it serves, the data
/// payload accumulated so far, and the container still being completed by
/// further reads, if any.
pub struct RecvModel {
    /// The transaction id every container must report.
    pub tid: u32,
    /// The accumulated data-phase payload.
    pub data: Seq<u8>,
    /// A container whose payload is not complete yet, with what has arrived.
    pub pending: Option<(PtpContainerInfo, Seq<u8>)>,
}

/// The spec-level outcome of one receive step.
pub enum StepModel {
    /// Issue one more bulk-in read with the given capacity.
    Continue(int),
    /// The transaction succeeded with this data payload.
    Done(Seq<u8>),
    /// The transaction failed with a framing violation.
    FailedMalformed,
    /// The device reported this non-Ok response code.
    FailedResponse(u16),
}

/// What one completed container does to the transaction: a data container
/// becomes the accumulated payload, a response container ends the
/// transaction (success exactly on the Ok code, the buffered payload
/// surrendered either way), anything else is ignored.
pub open spec fn spec_process_container(
    m: RecvModel,
    info: PtpContainerInfo,
    payload: Seq<u8>,
) -> (RecvModel, StepModel) {
    match info.kind {
        PtpContainerType::Data => (
            RecvModel { tid: m.tid, data: payload, pending: None },
            StepModel::Continue(READ_BUFFER_SIZE as int),
        ),
        PtpContainerType::Response => if info.code == RESPONSE_OK {
            (RecvModel { tid: m.tid, data: Seq::empty(), pending: None }, StepModel::Done(m.data))
        } else {
            (
                RecvModel { tid: m.tid, data: Seq::empty(), pending: None },
                StepModel::FailedResponse(info.code),
            )
        },
        _ => (
            RecvModel { tid: m.tid, data: m.data, pending: None },
            StepModel::Continue(READ_BUFFER_SIZE as int),
        ),
    }
}

/// The receive step: what one bulk-in read does to the receiver.
///
/// With no container pending, the read must start with a parsable header for
/// this transaction. If the declared payload did not fully arrive in this
/// read, or the read exactly filled its buffer, at least one more read is
/// required: either the remainder, or the mandatory short or zero-length
/// transfer that terminates an exact-multiple transfer — skipping that read
/// would leave a stray packet to desynchronize the next transaction.
pub open spec fn spec_on_read(m: RecvModel, buf: Seq<u8>) -> (RecvModel, StepModel) {
    match m.pending {
        None => match spec_parse_container(buf) {
            None => (m, StepModel::FailedMalformed),
            Some(info) => {
                if info.tid != m.tid {
                    (m, StepModel::FailedMalformed)
                } else {
                    let got = buf.skip(12);
                    if got.len() > info.payload_len {
                        (m, StepModel::FailedMalformed)
                    } else if got.len() < info.payload_len || buf.len() == READ_BUFFER_SIZE {
                        (
                            RecvModel { tid: m.tid, data: m.data, pending: Some((info, got)) },
                            StepModel::Continue(info.payload_len - got.len() + 1),
                        )
                    } else {
                        spec_process_container(m, info, got)
                    }
                }
            },
        },
        Some(p) => {
            let info = p.0;
            let got2 = p.1 + buf;
            if got2.len() > info.payload_len {
                (m, StepModel::FailedMalformed)
            } else if got2.len() == info.payload_len {
                spec_process_container(
                    RecvModel { tid: m.tid, data: m.data, pending: None },
                    info,
                    got2,
                )
            } else if buf.len() == 0 {
                (m, StepModel::FailedMalformed)
            } else {
                (
                    RecvModel { tid: m.tid, data: m.data, pending: Some((info, got2)) },
                    StepModel::Continue(info.payload_len - got2.len() + 1),
                )
            }
        },
    }
}

/// Law: with no container pending, a read whose container reports a
/// transaction id other than the receiver's fails at once with a framing
/// violation, the state unchanged — no payload is returned.
pub proof fn lemma_tid_mismatch_fails(m: RecvModel, buf: Seq<u8>)
    requires
        m.pending is None,
        spec_parse_container(buf) matches Some(info) && info.tid != m.tid,
    ensures
        spec_on_read(m, buf) == (m, StepModel::FailedMalformed),
{
}

/// Law: a response container whose code is not Ok fails the transaction with
/// exactly that code; the buffered data-phase payload is discarded, never
/// returned.
pub proof fn lemma_error_response_discards_data(
    m: RecvModel,
    info: PtpContainerInfo,
    payload: Seq<u8>,
)
    requires
        info.kind is Response,
        info.code != RESPONSE_OK,
    ensures
        spec_process_container(m, info, payload).1 == StepModel::FailedResponse(info.code),
        !(spec_process_container(m, info, payload).1 is Done),
        spec_process_container(m, info, payload).0.data == Seq::<u8>::empty(),
{
}

/// Law: the intended reply sequence runs to completion. A receiver that is
/// handed one whole data container of its transaction, and then an Ok
/// response container, finishes with exactly the data payload. (Each
/// container here arrives in one read that does not fill the read buffer.)
pub proof fn lemma_reply_sequence_completes(tid: u32, code: u16, payload: Seq<u8>)
    requires
        payload.len() + 24 <= READ_BUFFER_SIZE,
    ensures
        ({
            let m0 = RecvModel { tid, data: Seq::empty(), pending: None };
            let data_bytes = spec_container_bytes(PtpContainerType::Data, code, tid, payload);
            let step1 = spec_on_read(m0, data_bytes);
            let resp_bytes = spec_container_bytes(
                PtpContainerType::Response,
                crate::codes::RESPONSE_OK,
                tid,
                Seq::empty(),
            );
            let step2 = spec_on_read(step1.0, resp_bytes);
            &&& step1.1 == StepModel::Continue(READ_BUFFER_SIZE as int)
            &&& step2.1 == StepModel::Done(payload)
        }),
{
    vstd::bytes::lemma_auto_spec_u16_to_from_le_bytes();
    vstd::bytes::lemma_auto_spec_u32_to_from_le_bytes();
    let m0 = RecvModel { tid, data: Seq::empty(), pending: None };
    let data_bytes = spec_container_bytes(PtpContainerType::Data, code, tid, payload);
    crate::container::lemma_container_round_trip(PtpContainerType::Data, code, tid, payload);
    assert(data_bytes.len() == payload.len() + 12);
    assert(data_bytes.skip(12) =~= payload);
    let step1 = spec_on_read(m0, data_bytes);
    assert(step1.0 == RecvModel { tid, data: payload, pending: None });
    let resp_bytes = spec_container_bytes(
        PtpContainerType::Response,
        crate::codes::RESPONSE_OK,
        tid,
        Seq::empty(),
    );
    crate::container::lemma_container_round_trip(
        PtpContainerType::Response,
        crate::codes::RESPONSE_OK,
        tid,
        Seq::empty(),
    );
    assert(resp_bytes.len() == 12);
    assert(resp_bytes.skip(12) =~= Seq::<u8>::empty());
}

/// The next action a receive step asks of the driver.
#[derive(Debug)]
pub enum RecvStep {
    /// Issue one more bulk-in read of at most this many bytes and hand the
    /// result back.
    Continue(usize),
    /// The transaction succeeded with this data payload.
    Done(Vec<u8>),
    /// The transaction failed.
    Failed(Error),
}

/// How an executable step realizes a spec-level outcome.
pub open spec fn spec_step_matches(step: RecvStep, m: StepModel) -> bool {
    match (step, m) {
        (RecvStep::Continue(c), StepModel::Continue(mc)) => c as int == mc,
        (RecvStep::Done(d), StepModel::Done(md)) => d@ == md,
        (RecvStep::Failed(e), StepModel::FailedMalformed) => e is Malformed,
        (RecvStep::Failed(e), StepModel::FailedResponse(code)) => e == Error::Response(code),
        _ => false,
    }
}

/// The receive side of one transaction: reads containers until the response
/// arrives, correlating each against the transaction id.
pub struct TxnReceiver {
    tid: u32,
    data: Vec<u8>,
    pending_info: Option<PtpContainerInfo>,
    got: Vec<u8>,
}

impl View for TxnReceiver {
    type V = RecvModel;

    closed spec fn view(&self) -> RecvModel {
        RecvModel {
            tid: self.tid,
            data: self.data@,
            pending: match self.pending_info {
                Some(i) => Some((i, self.got@)),
                None => None,
            },
        }
    }
}

impl TxnReceiver {
    /// A pending container never declares more than the length field can
    /// hold, and never has more payload buffered than it declared.
    pub open spec fn wf(&self) -> bool {
        match self@.pending {
            Some(p) => p.0.payload_len <= u32::MAX && p.1.len() <= p.0.payload_len,
            None => true,
        }
    }

    /// A receiver for the transaction with the given id, before any read.
    pub fn new(tid: u32) -> (r: TxnReceiver)
        ensures
            r.wf(),
            r@ == (RecvModel { tid, data: Seq::<u8>::empty(), pending: None }),
    {
        TxnReceiver { tid, data: Vec::new(), pending_info: None, got: Vec::new() }
    }

    /// Hand the receiver the result of one bulk-in read; it answers with the
    /// next action. The step taken is exactly [`spec_on_read`].
    pub fn on_read(&mut self, buf: Vec<u8>) -> (step: RecvStep)
        requires
            old(self).wf(),
        ensures
            final(self).wf(),
            final(self)@ == spec_on_read(old(self)@, buf@).0,
            spec_step_matches(step, spec_on_read(old(self)@, buf@).1),
    {
        let pi = self.pending_info;
        match pi {
            None => {
                let info = match PtpContainerInfo::parse(buf.as_slice()) {
                    Ok(i) => i,
                    Err(e) => {
                        return RecvStep::Failed(e);
                    },
                };
                proof {
                    assert(buf@.len() >= 12);
                    assert(info.payload_len + 12 <= u32::MAX);
                }
                if info.tid != self.tid {
                    return RecvStep::Failed(
                        Error::Malformed("transaction id mismatch".to_owned()),
                    );
                }
                if buf.len() - 12 > info.payload_len {
                    return RecvStep::Failed(
                        Error::Malformed("more payload than the container declared".to_owned()),
                    );
                }
                let got = slice_to_vec(slice_subrange(buf.as_slice(), 12, buf.len()));
                proof {
                    assert(got@ =~= buf@.skip(12));
                }
                if got.len() < info.payload_len || buf.len() == READ_BUFFER_SIZE {
                    let cap = info.payload_len - got.len() + 1;
                    self.pending_info = Some(info);
                    self.got = got;
                    RecvStep::Continue(cap)
                } else {
                    self.process(info, got)
                }
            },
            Some(info) => {
                let buf_len = buf.len();
                let need = info.payload_len - self.got.len();
                if buf_len > need {
                    return RecvStep::Failed(
                        Error::Malformed("more payload than the container declared".to_owned()),
                    );
                }
                let mut b = buf;
                self.got.append(&mut b);
                if self.got.len() == info.payload_len {
                    self.pending_info = None;
                    let mut payload: Vec<u8> = Vec::new();
                    core::mem::swap(&mut payload, &mut self.got);
                    self.process(info, payload)
                } else if buf_len == 0 {
                    proof {
                        assert(self.got@ + Seq::<u8>::empty() =~= self.got@);
                        assert(final(self)@ == old(self)@);
                    }
                    RecvStep::Failed(Error::Malformed("transfer ended short".to_owned()))
                } else {
                    let cap = info.payload_len - self.got.len() + 1;
                    RecvStep::Continue(cap)
                }
            },
        }
    }

    /// Dispatch one completed container.
    fn process(&mut self, info: PtpContainerInfo, payload: Vec<u8>) -> (step: RecvStep)
        ensures
            final(self).wf(),
            final(self)@ == spec_process_container(
                RecvModel { tid: old(self)@.tid, data: old(self)@.data, pending: None },
                info,
                payload@,
            ).0,
            spec_step_matches(
                step,
                spec_process_container(
                    RecvModel { tid: old(self)@.tid, data: old(self)@.data, pending: None },
                    info,
                    payload@,
                ).1,
            ),
    {
        self.pending_info = None;
        match info.kind {
            PtpContainerType::Data => {
                self.data = payload;
                RecvStep::Continue(READ_BUFFER_SIZE)
            },
            PtpContainerType::Response => {
                let mut d: Vec<u8> = Vec::new();
                core::mem::swap(&mut d, &mut self.data);
                if info.code == RESPONSE_OK {
                    RecvStep::Done(d)
                } else {
                    RecvStep::Failed(Error::Response(info.code))
                }
            },
            _ => RecvStep::Continue(READ_BUFFER_SIZE),
        }
    }
}

} // verus!
