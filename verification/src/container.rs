//! The fixed 12-byte container framing: little-endian total length (header
//! included), a 16-bit kind tag, a 16-bit command or response code, and a
//! 32-bit transaction id, followed by the payload.

use vstd::bytes::*;
use vstd::prelude::*;
use vstd::slice::slice_subrange;

use crate::codes::{spec_container_type_from_u16, spec_container_type_u16, PtpContainerType};
use crate::error::Error;
use crate::reader::{spec_read_u16, spec_read_u32};

verus! {

/// The size of the container header in bytes.
pub const PTP_CONTAINER_INFO_SIZE: usize = 12;

/// A decoded container header: how many payload bytes the sender declared,
/// what kind of container this is, its code, and the transaction it belongs
/// to.
#[derive(Debug, Clone, Copy, PartialEq, Eq, Structural)]
pub struct PtpContainerInfo {
    /// Declared payload length: the wire length field minus the header size.
    pub payload_len: usize,
    /// The container kind.
    pub kind: PtpContainerType,
    /// Command or response code, depending on the kind.
    pub code: u16,
    /// The transaction this container belongs to.
    pub tid: u32,
}

/// The header a byte sequence parses to: `None` when fewer than 12 bytes are
/// there, when the kind tag is unknown, or when the length field says less
/// than a bare header.
pub open spec fn spec_parse_container(s: Seq<u8>) -> Option<PtpContainerInfo> {
    match spec_read_u32(s, 0) {
        None => None,
        Some(lp) => match spec_read_u16(s, lp.1) {
            None => None,
            Some(kp) => match spec_container_type_from_u16(kp.0) {
                None => None,
                Some(kind) => match spec_read_u16(s, kp.1) {
                    None => None,
                    Some(cp) => match spec_read_u32(s, cp.1) {
                        None => None,
                        Some(tp) => if lp.0 < 12 {
                            None
                        } else {
                            Some(
                                PtpContainerInfo {
                                    payload_len: (lp.0 - 12) as usize,
                                    kind,
                                    code: cp.0,
                                    tid: tp.0,
                                },
                            )
                        },
                    },
                },
            },
        },
    }
}

/// The 12 header bytes of a container whose payload has the given length.
pub open spec fn spec_container_header(
    kind: PtpContainerType,
    code: u16,
    tid: u32,
    payload_len: nat,
) -> Seq<u8> {
    spec_u32_to_le_bytes((payload_len + 12) as u32) + spec_u16_to_le_bytes(
        spec_container_type_u16(kind),
    ) + spec_u16_to_le_bytes(code) + spec_u32_to_le_bytes(tid)
}

/// The wire bytes of one whole container.
pub open spec fn spec_container_bytes(
    kind: PtpContainerType,
    code: u16,
    tid: u32,
    payload: Seq<u8>,
) -> Seq<u8> {
    spec_container_header(kind, code, tid, payload.len()) + payload
}

/// Encode the 12-byte header of a container that declares `payload_len`
/// payload bytes.
pub fn encode_container_header(
    kind: PtpContainerType,
    code: u16,
    tid: u32,
    payload_len: usize,
) -> (r: Vec<u8>)
    requires
        payload_len + 12 <= u32::MAX,
    ensures
        r@ == spec_container_header(kind, code, tid, payload_len as nat),
        r@.len() == 12,
{
    let mut out = u32_to_le_bytes((payload_len + 12) as u32);
    let mut kb = u16_to_le_bytes(kind.as_u16());
    let mut cb = u16_to_le_bytes(code);
    let mut tb = u32_to_le_bytes(tid);
    out.append(&mut kb);
    out.append(&mut cb);
    out.append(&mut tb);
    proof {
        lemma_auto_spec_u16_to_from_le_bytes();
        lemma_auto_spec_u32_to_from_le_bytes();
        assert(out@ =~= spec_container_header(kind, code, tid, payload_len as nat));
    }
    out
}

impl PtpContainerInfo {
    /// Parse a container header from the first 12 bytes of a buffer.
    /// A short buffer, an unrecognized kind tag, and a length field below 12
    /// each fail with `Malformed`.
    pub fn parse(buf: &[u8]) -> (r: Result<PtpContainerInfo, Error>)
        ensures
            match spec_parse_container(buf@) {
                Some(info) => r == Ok::<PtpContainerInfo, Error>(info),
                None => r is Err && r->Err_0 is Malformed,
            },
    {
        if buf.len() < 12 {
            return Err(Error::Malformed("container shorter than its header".to_owned()));
        }
        let len = u32_from_le_bytes(slice_subrange(buf, 0, 4));
        let kind_u16 = u16_from_le_bytes(slice_subrange(buf, 4, 6));
        let kind = match PtpContainerType::from_u16(kind_u16) {
            Some(k) => k,
            None => {
                return Err(Error::Malformed("invalid container kind".to_owned()));
            },
        };
        let code = u16_from_le_bytes(slice_subrange(buf, 6, 8));
        let tid = u32_from_le_bytes(slice_subrange(buf, 8, 12));
        if len < 12 {
            return Err(Error::Malformed("container length field below header size".to_owned()));
        }
        Ok(PtpContainerInfo { payload_len: (len - 12) as usize, kind, code, tid })
    }

    /// Whether this container belongs to the given transaction.
    pub fn belongs_to(&self, tid: u32) -> (r: bool)
        ensures
            r == (self.tid == tid),
    {
        self.tid == tid
    }
}

/// Law: a byte sequence of at least header size whose kind tag decodes to no
/// known container kind never parses; with `parse`'s contract, such input
/// always fails with `Malformed`.
pub proof fn lemma_unknown_kind_never_parses(s: Seq<u8>)
    requires
        s.len() >= 12,
        spec_container_type_from_u16(spec_u16_from_le_bytes(s.subrange(4, 6))) is None,
    ensures
        spec_parse_container(s) is None,
{
}

/// Encode one whole container: the 12-byte header computed from the payload
/// length, then the payload.
pub fn encode_container(
    kind: PtpContainerType,
    code: u16,
    tid: u32,
    payload: &[u8],
) -> (r: Vec<u8>)
    requires
        payload@.len() + 12 <= u32::MAX,
    ensures
        r@ == spec_container_bytes(kind, code, tid, payload@),
        r@.len() == payload@.len() + 12,
{
    let mut out = encode_container_header(kind, code, tid, payload.len());
    let mut pb = vstd::slice::slice_to_vec(payload);
    out.append(&mut pb);
    out
}

/// Law: a container's wire bytes parse back to its own header: the declared
/// payload length is the payload's length, and kind, code and transaction id
/// are unchanged. This is the framing invariant that the length field always
/// equals 12 plus the payload length.
pub proof fn lemma_container_round_trip(
    kind: PtpContainerType,
    code: u16,
    tid: u32,
    payload: Seq<u8>,
)
    requires
        payload.len() + 12 <= u32::MAX,
    ensures
        spec_parse_container(spec_container_bytes(kind, code, tid, payload)) == Some(
            PtpContainerInfo {
                payload_len: payload.len() as usize,
                kind,
                code,
                tid,
            },
        ),
{
    let s = spec_container_bytes(kind, code, tid, payload);
    lemma_auto_spec_u16_to_from_le_bytes();
    lemma_auto_spec_u32_to_from_le_bytes();
    assert(s.subrange(0, 4) =~= spec_u32_to_le_bytes((payload.len() + 12) as u32));
    assert(s.subrange(4, 6) =~= spec_u16_to_le_bytes(spec_container_type_u16(kind)));
    assert(s.subrange(6, 8) =~= spec_u16_to_le_bytes(code));
    assert(s.subrange(8, 12) =~= spec_u32_to_le_bytes(tid));
    assert(spec_container_type_from_u16(spec_container_type_u16(kind)) == Some(kind));
}

} // verus!
