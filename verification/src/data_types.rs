//! The tagged typed-value codec: PTP's scalar, array and string values,
//! with a verified encoder and decoder that are proved to be inverses.
//!
//! The wire format, keyed by a 16-bit type code: scalars 0x0001..0x000A
//! (signed and unsigned, 8 to 128 bits), the corresponding arrays
//! 0x4001..0x400A (a u32 count then the elements), and 0xFFFF for a UTF-16
//! string. Unknown codes decode to an explicit undefined value rather than
//! failing, to tolerate vendor extensions in enumerable property lists.

use vstd::bytes::*;
use vstd::prelude::*;

use crate::error::Error;
use crate::reader::{
    spec_read_counted, spec_read_i16, spec_read_i32, spec_read_i64, spec_read_i8,
    spec_read_n, spec_read_str, spec_read_u128, spec_read_u16, spec_read_u32, spec_read_u64,
    spec_read_u8, PtpScalar, Reader,
};
use crate::utf16::{
    lemma_utf16_decode_encode, spec_utf16_decode, spec_utf16_encode, utf16_encode_units,
};

verus! {

/// The mathematical model of a typed PTP value: sequences in place of
/// vectors, a character sequence in place of a string.
pub enum PtpValue {
    Undef,
    I8(i8),
    U8(u8),
    I16(i16),
    U16(u16),
    I32(i32),
    U32(u32),
    I64(i64),
    U64(u64),
    I128((u64, u64)),
    U128((u64, u64)),
    AI8(Seq<i8>),
    AU8(Seq<u8>),
    AI16(Seq<i16>),
    AU16(Seq<u16>),
    AI32(Seq<i32>),
    AU32(Seq<u32>),
    AI64(Seq<i64>),
    AU64(Seq<u64>),
    AI128(Seq<(u64, u64)>),
    AU128(Seq<(u64, u64)>),
    Str(Seq<char>),
}

/// A typed PTP value. 128-bit quantities are pairs `(high word, low word)`;
/// on the wire the low word comes first.
#[allow(non_camel_case_types)]
#[derive(Debug, PartialEq)]
pub enum PtpDataType {
    UNDEF,
    INT8(i8),
    UINT8(u8),
    INT16(i16),
    UINT16(u16),
    INT32(i32),
    UINT32(u32),
    INT64(i64),
    UINT64(u64),
    INT128((u64, u64)),
    UINT128((u64, u64)),
    AINT8(Vec<i8>),
    AUINT8(Vec<u8>),
    AINT16(Vec<i16>),
    AUINT16(Vec<u16>),
    AINT32(Vec<i32>),
    AUINT32(Vec<u32>),
    AINT64(Vec<i64>),
    AUINT64(Vec<u64>),
    AINT128(Vec<(u64, u64)>),
    AUINT128(Vec<(u64, u64)>),
    STR(String),
}

impl View for PtpDataType {
    type V = PtpValue;

    open spec fn view(&self) -> PtpValue {
        match self {
            PtpDataType::UNDEF => PtpValue::Undef,
            PtpDataType::INT8(v) => PtpValue::I8(*v),
            PtpDataType::UINT8(v) => PtpValue::U8(*v),
            PtpDataType::INT16(v) => PtpValue::I16(*v),
            PtpDataType::UINT16(v) => PtpValue::U16(*v),
            PtpDataType::INT32(v) => PtpValue::I32(*v),
            PtpDataType::UINT32(v) => PtpValue::U32(*v),
            PtpDataType::INT64(v) => PtpValue::I64(*v),
            PtpDataType::UINT64(v) => PtpValue::U64(*v),
            PtpDataType::INT128(v) => PtpValue::I128(*v),
            PtpDataType::UINT128(v) => PtpValue::U128(*v),
            PtpDataType::AINT8(v) => PtpValue::AI8(v@),
            PtpDataType::AUINT8(v) => PtpValue::AU8(v@),
            PtpDataType::AINT16(v) => PtpValue::AI16(v@),
            PtpDataType::AUINT16(v) => PtpValue::AU16(v@),
            PtpDataType::AINT32(v) => PtpValue::AI32(v@),
            PtpDataType::AUINT32(v) => PtpValue::AU32(v@),
            PtpDataType::AINT64(v) => PtpValue::AI64(v@),
            PtpDataType::AUINT64(v) => PtpValue::AU64(v@),
            PtpDataType::AINT128(v) => PtpValue::AI128(v@),
            PtpDataType::AUINT128(v) => PtpValue::AU128(v@),
            PtpDataType::STR(s) => PtpValue::Str(s@),
        }
    }
}

/// The concatenated wire bytes of a sequence of elements.
pub open spec fn spec_enc_all<T: PtpScalar>(vals: Seq<T>) -> Seq<u8>
    decreases vals.len(),
{
    if vals.len() == 0 {
        Seq::empty()
    } else {
        T::spec_enc_one(vals[0]) + spec_enc_all::<T>(vals.drop_first())
    }
}

/// Appending one element extends the encoding by that element's bytes.
pub proof fn lemma_enc_all_push<T: PtpScalar>(vals: Seq<T>, x: T)
    ensures
        spec_enc_all::<T>(vals.push(x)) == spec_enc_all::<T>(vals) + T::spec_enc_one(x),
    decreases vals.len(),
{
    if vals.len() == 0 {
        assert(vals.push(x)[0] == x);
        assert(vals.push(x).drop_first() =~= Seq::<T>::empty());
        assert(spec_enc_all::<T>(Seq::<T>::empty()) =~= Seq::<u8>::empty());
        assert(spec_enc_all::<T>(vals.push(x)) =~= T::spec_enc_one(x));
        assert(spec_enc_all::<T>(vals) + T::spec_enc_one(x) =~= T::spec_enc_one(x));
    } else {
        lemma_enc_all_push::<T>(vals.drop_first(), x);
        assert(vals.push(x).drop_first() =~= vals.drop_first().push(x));
        assert(vals.push(x)[0] == vals[0]);
        assert(T::spec_enc_one(vals[0]) + (spec_enc_all::<T>(vals.drop_first()) + T::spec_enc_one(
            x,
        )) =~= (T::spec_enc_one(vals[0]) + spec_enc_all::<T>(vals.drop_first())) + T::spec_enc_one(
            x,
        ));
    }
}

/// Law: reading `n` elements where their concatenated encoding lies yields
/// exactly those elements.
pub proof fn lemma_read_n_enc_all<T: PtpScalar>(vals: Seq<T>, s: Seq<u8>, pos: int)
    requires
        0 <= pos,
        pos + spec_enc_all::<T>(vals).len() <= s.len(),
        s.subrange(pos, pos + spec_enc_all::<T>(vals).len() as int) == spec_enc_all::<T>(vals),
    ensures
        spec_read_n::<T>(s, pos, vals.len()) == Some(
            (vals, pos + spec_enc_all::<T>(vals).len() as int),
        ),
    decreases vals.len(),
{
    if vals.len() == 0 {
        assert(spec_read_n::<T>(s, pos, 0) == Some((Seq::<T>::empty(), pos)));
        assert(vals =~= Seq::<T>::empty());
    } else {
        let e0 = T::spec_enc_one(vals[0]);
        let rest = spec_enc_all::<T>(vals.drop_first());
        let all = spec_enc_all::<T>(vals);
        assert(all =~= e0 + rest);
        assert(s.subrange(pos, pos + e0.len()) =~= e0);
        T::lemma_enc_one_read(vals[0], s, pos);
        assert forall|i: int| 0 <= i < rest.len() implies s[pos + e0.len() + i] == rest[i] by {
            assert(s.subrange(pos, pos + all.len() as int)[e0.len() + i] == all[e0.len() + i]);
        }
        assert(s.subrange(pos + e0.len(), pos + all.len()) =~= rest);
        lemma_read_n_enc_all::<T>(vals.drop_first(), s, pos + e0.len());
        assert(seq![vals[0]] + vals.drop_first() =~= vals);
    }
}

/// Law: a counted array (u32 count then the elements) reads back exactly.
pub proof fn lemma_counted_round_trip<T: PtpScalar>(vals: Seq<T>, s: Seq<u8>)
    requires
        vals.len() <= u32::MAX,
        s == spec_u32_to_le_bytes(vals.len() as u32) + spec_enc_all::<T>(vals),
    ensures
        spec_read_counted::<T>(s, 0) == Some((vals, s.len() as int)),
{
    lemma_auto_spec_u32_to_from_le_bytes();
    assert(s.subrange(0, 4) =~= spec_u32_to_le_bytes(vals.len() as u32));
    assert(spec_read_u32(s, 0) == Some(((vals.len() as u32), 4int)));
    assert((vals.len() as u32) as nat == vals.len());
    assert(s.subrange(4, 4 + spec_enc_all::<T>(vals).len() as int) =~= spec_enc_all::<T>(vals));
    lemma_read_n_enc_all::<T>(vals, s, 4);
}

/// The wire bytes of a PTP string: a u8 unit count including the terminator
/// (a lone zero byte for the empty string), the UTF-16 units, and a zero
/// terminator unit.
pub open spec fn spec_encode_string(cs: Seq<char>) -> Seq<u8> {
    if cs.len() == 0 {
        seq![0u8]
    } else {
        let units = spec_utf16_encode(cs);
        seq![((units.len() + 1) as u8)] + spec_enc_all::<u16>(units) + seq![0u8, 0u8]
    }
}

/// The wire bytes of a typed value.
pub open spec fn spec_encode_value(m: PtpValue) -> Seq<u8> {
    match m {
        PtpValue::Undef => Seq::empty(),
        PtpValue::I8(v) => <i8 as PtpScalar>::spec_enc_one(v),
        PtpValue::U8(v) => <u8 as PtpScalar>::spec_enc_one(v),
        PtpValue::I16(v) => <i16 as PtpScalar>::spec_enc_one(v),
        PtpValue::U16(v) => <u16 as PtpScalar>::spec_enc_one(v),
        PtpValue::I32(v) => <i32 as PtpScalar>::spec_enc_one(v),
        PtpValue::U32(v) => <u32 as PtpScalar>::spec_enc_one(v),
        PtpValue::I64(v) => <i64 as PtpScalar>::spec_enc_one(v),
        PtpValue::U64(v) => <u64 as PtpScalar>::spec_enc_one(v),
        PtpValue::I128(v) => <(u64, u64) as PtpScalar>::spec_enc_one(v),
        PtpValue::U128(v) => <(u64, u64) as PtpScalar>::spec_enc_one(v),
        PtpValue::AI8(vs) => spec_u32_to_le_bytes(vs.len() as u32) + spec_enc_all::<i8>(vs),
        PtpValue::AU8(vs) => spec_u32_to_le_bytes(vs.len() as u32) + spec_enc_all::<u8>(vs),
        PtpValue::AI16(vs) => spec_u32_to_le_bytes(vs.len() as u32) + spec_enc_all::<i16>(vs),
        PtpValue::AU16(vs) => spec_u32_to_le_bytes(vs.len() as u32) + spec_enc_all::<u16>(vs),
        PtpValue::AI32(vs) => spec_u32_to_le_bytes(vs.len() as u32) + spec_enc_all::<i32>(vs),
        PtpValue::AU32(vs) => spec_u32_to_le_bytes(vs.len() as u32) + spec_enc_all::<u32>(vs),
        PtpValue::AI64(vs) => spec_u32_to_le_bytes(vs.len() as u32) + spec_enc_all::<i64>(vs),
        PtpValue::AU64(vs) => spec_u32_to_le_bytes(vs.len() as u32) + spec_enc_all::<u64>(vs),
        PtpValue::AI128(vs) => spec_u32_to_le_bytes(vs.len() as u32) + spec_enc_all::<(u64, u64)>(
            vs,
        ),
        PtpValue::AU128(vs) => spec_u32_to_le_bytes(vs.len() as u32) + spec_enc_all::<(u64, u64)>(
            vs,
        ),
        PtpValue::Str(cs) => spec_encode_string(cs),
    }
}

/// The type code a value is tagged with on the wire.
pub open spec fn spec_type_code(m: PtpValue) -> u16 {
    match m {
        PtpValue::Undef => 0x0000,
        PtpValue::I8(_) => 0x0001,
        PtpValue::U8(_) => 0x0002,
        PtpValue::I16(_) => 0x0003,
        PtpValue::U16(_) => 0x0004,
        PtpValue::I32(_) => 0x0005,
        PtpValue::U32(_) => 0x0006,
        PtpValue::I64(_) => 0x0007,
        PtpValue::U64(_) => 0x0008,
        PtpValue::I128(_) => 0x0009,
        PtpValue::U128(_) => 0x000A,
        PtpValue::AI8(_) => 0x4001,
        PtpValue::AU8(_) => 0x4002,
        PtpValue::AI16(_) => 0x4003,
        PtpValue::AU16(_) => 0x4004,
        PtpValue::AI32(_) => 0x4005,
        PtpValue::AU32(_) => 0x4006,
        PtpValue::AI64(_) => 0x4007,
        PtpValue::AU64(_) => 0x4008,
        PtpValue::AI128(_) => 0x4009,
        PtpValue::AU128(_) => 0x400A,
        PtpValue::Str(_) => 0xFFFF,
    }
}

/// The wire-format limits a value must respect to be encodable: an array
/// count must fit the u32 count field, and a string's unit count including
/// the terminator must fit the u8 length byte.
pub open spec fn spec_value_wf(m: PtpValue) -> bool {
    match m {
        PtpValue::AI8(vs) => vs.len() <= u32::MAX,
        PtpValue::AU8(vs) => vs.len() <= u32::MAX,
        PtpValue::AI16(vs) => vs.len() <= u32::MAX,
        PtpValue::AU16(vs) => vs.len() <= u32::MAX,
        PtpValue::AI32(vs) => vs.len() <= u32::MAX,
        PtpValue::AU32(vs) => vs.len() <= u32::MAX,
        PtpValue::AI64(vs) => vs.len() <= u32::MAX,
        PtpValue::AU64(vs) => vs.len() <= u32::MAX,
        PtpValue::AI128(vs) => vs.len() <= u32::MAX,
        PtpValue::AU128(vs) => vs.len() <= u32::MAX,
        PtpValue::Str(cs) => spec_utf16_encode(cs).len() + 1 <= 255,
        _ => true,
    }
}

/// The value a type code selects from the wire, and the position after it.
/// Unknown codes yield the undefined value and consume nothing.
pub open spec fn spec_read_type(kind: u16, s: Seq<u8>, pos: int) -> Option<(PtpValue, int)> {
    if kind == 0x0001 {
        match spec_read_i8(s, pos) {
            Some(vp) => Some((PtpValue::I8(vp.0), vp.1)),
            None => None,
        }
    } else if kind == 0x0002 {
        match spec_read_u8(s, pos) {
            Some(vp) => Some((PtpValue::U8(vp.0), vp.1)),
            None => None,
        }
    } else if kind == 0x0003 {
        match spec_read_i16(s, pos) {
            Some(vp) => Some((PtpValue::I16(vp.0), vp.1)),
            None => None,
        }
    } else if kind == 0x0004 {
        match spec_read_u16(s, pos) {
            Some(vp) => Some((PtpValue::U16(vp.0), vp.1)),
            None => None,
        }
    } else if kind == 0x0005 {
        match spec_read_i32(s, pos) {
            Some(vp) => Some((PtpValue::I32(vp.0), vp.1)),
            None => None,
        }
    } else if kind == 0x0006 {
        match spec_read_u32(s, pos) {
            Some(vp) => Some((PtpValue::U32(vp.0), vp.1)),
            None => None,
        }
    } else if kind == 0x0007 {
        match spec_read_i64(s, pos) {
            Some(vp) => Some((PtpValue::I64(vp.0), vp.1)),
            None => None,
        }
    } else if kind == 0x0008 {
        match spec_read_u64(s, pos) {
            Some(vp) => Some((PtpValue::U64(vp.0), vp.1)),
            None => None,
        }
    } else if kind == 0x0009 {
        match spec_read_u128(s, pos) {
            Some(vp) => Some((PtpValue::I128(vp.0), vp.1)),
            None => None,
        }
    } else if kind == 0x000A {
        match spec_read_u128(s, pos) {
            Some(vp) => Some((PtpValue::U128(vp.0), vp.1)),
            None => None,
        }
    } else if kind == 0x4001 {
        match spec_read_counted::<i8>(s, pos) {
            Some(vp) => Some((PtpValue::AI8(vp.0), vp.1)),
            None => None,
        }
    } else if kind == 0x4002 {
        match spec_read_counted::<u8>(s, pos) {
            Some(vp) => Some((PtpValue::AU8(vp.0), vp.1)),
            None => None,
        }
    } else if kind == 0x4003 {
        match spec_read_counted::<i16>(s, pos) {
            Some(vp) => Some((PtpValue::AI16(vp.0), vp.1)),
            None => None,
        }
    } else if kind == 0x4004 {
        match spec_read_counted::<u16>(s, pos) {
            Some(vp) => Some((PtpValue::AU16(vp.0), vp.1)),
            None => None,
        }
    } else if kind == 0x4005 {
        match spec_read_counted::<i32>(s, pos) {
            Some(vp) => Some((PtpValue::AI32(vp.0), vp.1)),
            None => None,
        }
    } else if kind == 0x4006 {
        match spec_read_counted::<u32>(s, pos) {
            Some(vp) => Some((PtpValue::AU32(vp.0), vp.1)),
            None => None,
        }
    } else if kind == 0x4007 {
        match spec_read_counted::<i64>(s, pos) {
            Some(vp) => Some((PtpValue::AI64(vp.0), vp.1)),
            None => None,
        }
    } else if kind == 0x4008 {
        match spec_read_counted::<u64>(s, pos) {
            Some(vp) => Some((PtpValue::AU64(vp.0), vp.1)),
            None => None,
        }
    } else if kind == 0x4009 {
        match spec_read_counted::<(u64, u64)>(s, pos) {
            Some(vp) => Some((PtpValue::AI128(vp.0), vp.1)),
            None => None,
        }
    } else if kind == 0x400A {
        match spec_read_counted::<(u64, u64)>(s, pos) {
            Some(vp) => Some((PtpValue::AU128(vp.0), vp.1)),
            None => None,
        }
    } else if kind == 0xFFFF {
        match spec_read_str(s, pos) {
            Some(vp) => Some((PtpValue::Str(vp.0), vp.1)),
            None => None,
        }
    } else {
        Some((PtpValue::Undef, pos))
    }
}

/// Append the wire bytes of every element of a vector.
pub(crate) fn encode_all<T: PtpScalar>(vs: &Vec<T>) -> (r: Vec<u8>)
    ensures
        r@ == spec_enc_all::<T>(vs@),
{
    let mut out: Vec<u8> = Vec::new();
    let mut i: usize = 0;
    proof {
        assert(vs@.take(0) =~= Seq::<T>::empty());
        assert(out@ =~= spec_enc_all::<T>(vs@.take(0)));
    }
    while i < vs.len()
        invariant
            i <= vs@.len(),
            out@ == spec_enc_all::<T>(vs@.take(i as int)),
        decreases vs@.len() - i,
    {
        T::write_one(&vs[i], &mut out);
        proof {
            lemma_enc_all_push::<T>(vs@.take(i as int), vs@[i as int]);
            assert(vs@.take(i + 1) =~= vs@.take(i as int).push(vs@[i as int]));
        }
        i = i + 1;
    }
    proof {
        assert(vs@.take(vs@.len() as int) =~= vs@);
    }
    out
}

/// Prefix a u32 element count, then every element's bytes: the wire form of
/// a PTP array.
fn encode_counted<T: PtpScalar>(vs: &Vec<T>) -> (r: Vec<u8>)
    requires
        vs@.len() <= u32::MAX,
    ensures
        r@ == spec_u32_to_le_bytes(vs@.len() as u32) + spec_enc_all::<T>(vs@),
{
    let mut out = u32_to_le_bytes(vs.len() as u32);
    let mut body = encode_all::<T>(vs);
    out.append(&mut body);
    out
}

impl PtpDataType {
    /// Encode this value as its wire bytes.
    pub fn encode(&self) -> (r: Vec<u8>)
        requires
            spec_value_wf(self@),
        ensures
            r@ == spec_encode_value(self@),
    {
        match self {
            PtpDataType::UNDEF => Vec::new(),
            PtpDataType::INT8(v) => {
                let mut out: Vec<u8> = Vec::new();
                <i8 as PtpScalar>::write_one(v, &mut out);
                proof {
                    assert(out@ =~= spec_encode_value(self@));
                }
                out
            },
            PtpDataType::UINT8(v) => {
                let mut out: Vec<u8> = Vec::new();
                <u8 as PtpScalar>::write_one(v, &mut out);
                proof {
                    assert(out@ =~= spec_encode_value(self@));
                }
                out
            },
            PtpDataType::INT16(v) => {
                let mut out: Vec<u8> = Vec::new();
                <i16 as PtpScalar>::write_one(v, &mut out);
                proof {
                    assert(out@ =~= spec_encode_value(self@));
                }
                out
            },
            PtpDataType::UINT16(v) => {
                let mut out: Vec<u8> = Vec::new();
                <u16 as PtpScalar>::write_one(v, &mut out);
                proof {
                    assert(out@ =~= spec_encode_value(self@));
                }
                out
            },
            PtpDataType::INT32(v) => {
                let mut out: Vec<u8> = Vec::new();
                <i32 as PtpScalar>::write_one(v, &mut out);
                proof {
                    assert(out@ =~= spec_encode_value(self@));
                }
                out
            },
            PtpDataType::UINT32(v) => {
                let mut out: Vec<u8> = Vec::new();
                <u32 as PtpScalar>::write_one(v, &mut out);
                proof {
                    assert(out@ =~= spec_encode_value(self@));
                }
                out
            },
            PtpDataType::INT64(v) => {
                let mut out: Vec<u8> = Vec::new();
                <i64 as PtpScalar>::write_one(v, &mut out);
                proof {
                    assert(out@ =~= spec_encode_value(self@));
                }
                out
            },
            PtpDataType::UINT64(v) => {
                let mut out: Vec<u8> = Vec::new();
                <u64 as PtpScalar>::write_one(v, &mut out);
                proof {
                    assert(out@ =~= spec_encode_value(self@));
                }
                out
            },
            PtpDataType::INT128(v) => {
                let mut out: Vec<u8> = Vec::new();
                <(u64, u64) as PtpScalar>::write_one(v, &mut out);
                proof {
                    assert(out@ =~= spec_encode_value(self@));
                }
                out
            },
            PtpDataType::UINT128(v) => {
                let mut out: Vec<u8> = Vec::new();
                <(u64, u64) as PtpScalar>::write_one(v, &mut out);
                proof {
                    assert(out@ =~= spec_encode_value(self@));
                }
                out
            },
            PtpDataType::AINT8(vs) => encode_counted::<i8>(vs),
            PtpDataType::AUINT8(vs) => encode_counted::<u8>(vs),
            PtpDataType::AINT16(vs) => encode_counted::<i16>(vs),
            PtpDataType::AUINT16(vs) => encode_counted::<u16>(vs),
            PtpDataType::AINT32(vs) => encode_counted::<i32>(vs),
            PtpDataType::AUINT32(vs) => encode_counted::<u32>(vs),
            PtpDataType::AINT64(vs) => encode_counted::<i64>(vs),
            PtpDataType::AUINT64(vs) => encode_counted::<u64>(vs),
            PtpDataType::AINT128(vs) => encode_counted::<(u64, u64)>(vs),
            PtpDataType::AUINT128(vs) => encode_counted::<(u64, u64)>(vs),
            PtpDataType::STR(s) => encode_string(s),
        }
    }

    /// Decode the value a type code selects from the reader. Unknown codes
    /// yield `UNDEF` and consume nothing.
    pub fn read_type(kind: u16, reader: &mut Reader) -> (r: Result<PtpDataType, Error>)
        requires
            old(reader).wf(),
        ensures
            final(reader).wf(),
            final(reader).bytes() == old(reader).bytes(),
            match spec_read_type(kind, old(reader).bytes(), old(reader).position()) {
                Some(vp) => r matches Ok(v) && v@ == vp.0 && final(reader).position() == vp.1,
                None => r is Err && r->Err_0 is Malformed,
            },
    {
        if kind == 0x0001 {
            match reader.read_ptp_i8() {
                Ok(v) => Ok(PtpDataType::INT8(v)),
                Err(e) => Err(e),
            }
        } else if kind == 0x0002 {
            match reader.read_ptp_u8() {
                Ok(v) => Ok(PtpDataType::UINT8(v)),
                Err(e) => Err(e),
            }
        } else if kind == 0x0003 {
            match reader.read_ptp_i16() {
                Ok(v) => Ok(PtpDataType::INT16(v)),
                Err(e) => Err(e),
            }
        } else if kind == 0x0004 {
            match reader.read_ptp_u16() {
                Ok(v) => Ok(PtpDataType::UINT16(v)),
                Err(e) => Err(e),
            }
        } else if kind == 0x0005 {
            match reader.read_ptp_i32() {
                Ok(v) => Ok(PtpDataType::INT32(v)),
                Err(e) => Err(e),
            }
        } else if kind == 0x0006 {
            match reader.read_ptp_u32() {
                Ok(v) => Ok(PtpDataType::UINT32(v)),
                Err(e) => Err(e),
            }
        } else if kind == 0x0007 {
            match reader.read_ptp_i64() {
                Ok(v) => Ok(PtpDataType::INT64(v)),
                Err(e) => Err(e),
            }
        } else if kind == 0x0008 {
            match reader.read_ptp_u64() {
                Ok(v) => Ok(PtpDataType::UINT64(v)),
                Err(e) => Err(e),
            }
        } else if kind == 0x0009 {
            match reader.read_ptp_i128() {
                Ok(v) => Ok(PtpDataType::INT128(v)),
                Err(e) => Err(e),
            }
        } else if kind == 0x000A {
            match reader.read_ptp_u128() {
                Ok(v) => Ok(PtpDataType::UINT128(v)),
                Err(e) => Err(e),
            }
        } else if kind == 0x4001 {
            match reader.read_ptp_i8_vec() {
                Ok(v) => Ok(PtpDataType::AINT8(v)),
                Err(e) => Err(e),
            }
        } else if kind == 0x4002 {
            match reader.read_ptp_u8_vec() {
                Ok(v) => Ok(PtpDataType::AUINT8(v)),
                Err(e) => Err(e),
            }
        } else if kind == 0x4003 {
            match reader.read_ptp_i16_vec() {
                Ok(v) => Ok(PtpDataType::AINT16(v)),
                Err(e) => Err(e),
            }
        } else if kind == 0x4004 {
            match reader.read_ptp_u16_vec() {
                Ok(v) => Ok(PtpDataType::AUINT16(v)),
                Err(e) => Err(e),
            }
        } else if kind == 0x4005 {
            match reader.read_ptp_i32_vec() {
                Ok(v) => Ok(PtpDataType::AINT32(v)),
                Err(e) => Err(e),
            }
        } else if kind == 0x4006 {
            match reader.read_ptp_u32_vec() {
                Ok(v) => Ok(PtpDataType::AUINT32(v)),
                Err(e) => Err(e),
            }
        } else if kind == 0x4007 {
            match reader.read_ptp_i64_vec() {
                Ok(v) => Ok(PtpDataType::AINT64(v)),
                Err(e) => Err(e),
            }
        } else if kind == 0x4008 {
            match reader.read_ptp_u64_vec() {
                Ok(v) => Ok(PtpDataType::AUINT64(v)),
                Err(e) => Err(e),
            }
        } else if kind == 0x4009 {
            match reader.read_ptp_i128_vec() {
                Ok(v) => Ok(PtpDataType::AINT128(v)),
                Err(e) => Err(e),
            }
        } else if kind == 0x400A {
            match reader.read_ptp_u128_vec() {
                Ok(v) => Ok(PtpDataType::AUINT128(v)),
                Err(e) => Err(e),
            }
        } else if kind == 0xFFFF {
            match reader.read_ptp_str() {
                Ok(v) => Ok(PtpDataType::STR(v)),
                Err(e) => Err(e),
            }
        } else {
            Ok(PtpDataType::UNDEF)
        }
    }
}

/// A non-empty character sequence has at least one UTF-16 code unit.
proof fn lemma_utf16_encode_nonempty(cs: Seq<char>)
    requires
        cs.len() > 0,
    ensures
        spec_utf16_encode(cs).len() >= 1,
{
    assert(spec_utf16_encode(cs) == crate::utf16::spec_utf16_units_of_char(cs[0])
        + spec_utf16_encode(cs.drop_first()));
}

/// Encode a string value as its wire bytes.
fn encode_string(s: &String) -> (r: Vec<u8>)
    requires
        spec_utf16_encode(s@).len() + 1 <= 255,
    ensures
        r@ == spec_encode_string(s@),
{
    let units = utf16_encode_units(s.as_str());
    if units.len() == 0 {
        proof {
            if s@.len() > 0 {
                lemma_utf16_encode_nonempty(s@);
            }
        }
        let mut out: Vec<u8> = Vec::new();
        out.push(0u8);
        proof {
            assert(out@ =~= seq![0u8]);
        }
        out
    } else {
        let mut out: Vec<u8> = Vec::new();
        out.push((units.len() + 1) as u8);
        let mut body = encode_all::<u16>(&units);
        out.append(&mut body);
        out.push(0u8);
        out.push(0u8);
        proof {
            assert(s@.len() > 0);
            assert(out@ =~= spec_encode_string(s@));
        }
        out
    }
}

/// Law: for every supported type code, decoding an encoded value at its own
/// type code gives the value back and consumes exactly its bytes. This is
/// the round-trip guarantee of the typed value codec, for scalars, arrays
/// (including empty ones) and strings (including the empty string).
pub proof fn lemma_value_codec_round_trip(m: PtpValue)
    requires
        spec_value_wf(m),
    ensures
        spec_read_type(spec_type_code(m), spec_encode_value(m), 0) == Some(
            (m, spec_encode_value(m).len() as int),
        ),
{
    let s = spec_encode_value(m);
    match m {
        PtpValue::Undef => {},
        PtpValue::I8(v) => {
            assert(s.subrange(0, s.len() as int) =~= s);
            <i8 as PtpScalar>::lemma_enc_one_read(v, s, 0);
        },
        PtpValue::U8(v) => {
            assert(s.subrange(0, s.len() as int) =~= s);
            <u8 as PtpScalar>::lemma_enc_one_read(v, s, 0);
        },
        PtpValue::I16(v) => {
            assert(s.subrange(0, s.len() as int) =~= s);
            <i16 as PtpScalar>::lemma_enc_one_read(v, s, 0);
        },
        PtpValue::U16(v) => {
            assert(s.subrange(0, s.len() as int) =~= s);
            <u16 as PtpScalar>::lemma_enc_one_read(v, s, 0);
        },
        PtpValue::I32(v) => {
            assert(s.subrange(0, s.len() as int) =~= s);
            <i32 as PtpScalar>::lemma_enc_one_read(v, s, 0);
        },
        PtpValue::U32(v) => {
            assert(s.subrange(0, s.len() as int) =~= s);
            <u32 as PtpScalar>::lemma_enc_one_read(v, s, 0);
        },
        PtpValue::I64(v) => {
            assert(s.subrange(0, s.len() as int) =~= s);
            <i64 as PtpScalar>::lemma_enc_one_read(v, s, 0);
        },
        PtpValue::U64(v) => {
            assert(s.subrange(0, s.len() as int) =~= s);
            <u64 as PtpScalar>::lemma_enc_one_read(v, s, 0);
        },
        PtpValue::I128(v) => {
            assert(s.subrange(0, s.len() as int) =~= s);
            <(u64, u64) as PtpScalar>::lemma_enc_one_read(v, s, 0);
        },
        PtpValue::U128(v) => {
            assert(s.subrange(0, s.len() as int) =~= s);
            <(u64, u64) as PtpScalar>::lemma_enc_one_read(v, s, 0);
        },
        PtpValue::AI8(vs) => {
            lemma_counted_round_trip::<i8>(vs, s);
        },
        PtpValue::AU8(vs) => {
            lemma_counted_round_trip::<u8>(vs, s);
        },
        PtpValue::AI16(vs) => {
            lemma_counted_round_trip::<i16>(vs, s);
        },
        PtpValue::AU16(vs) => {
            lemma_counted_round_trip::<u16>(vs, s);
        },
        PtpValue::AI32(vs) => {
            lemma_counted_round_trip::<i32>(vs, s);
        },
        PtpValue::AU32(vs) => {
            lemma_counted_round_trip::<u32>(vs, s);
        },
        PtpValue::AI64(vs) => {
            lemma_counted_round_trip::<i64>(vs, s);
        },
        PtpValue::AU64(vs) => {
            lemma_counted_round_trip::<u64>(vs, s);
        },
        PtpValue::AI128(vs) => {
            lemma_counted_round_trip::<(u64, u64)>(vs, s);
        },
        PtpValue::AU128(vs) => {
            lemma_counted_round_trip::<(u64, u64)>(vs, s);
        },
        PtpValue::Str(cs) => {
            lemma_string_round_trip(cs);
        },
    }
}

/// Law: a string value's wire bytes read back as the same characters.
proof fn lemma_string_round_trip(cs: Seq<char>)
    requires
        spec_utf16_encode(cs).len() + 1 <= 255,
    ensures
        spec_read_str(spec_encode_string(cs), 0) == Some(
            (cs, spec_encode_string(cs).len() as int),
        ),
{
    let s = spec_encode_string(cs);
    if cs.len() == 0 {
        assert(s[0] == 0u8);
        assert(cs =~= Seq::<char>::empty());
    } else {
        let units = spec_utf16_encode(cs);
        let body = spec_enc_all::<u16>(units);
        lemma_utf16_encode_nonempty(cs);
        let lenbyte = (units.len() + 1) as u8;
        assert(s[0] == lenbyte);
        assert(lenbyte != 0);
        assert((lenbyte - 1) as nat == units.len());
        assert(s.subrange(1, 1 + body.len() as int) =~= body);
        lemma_read_n_enc_all::<u16>(units, s, 1);
        assert(spec_read_u16(s, 1 + body.len() as int) is Some);
        lemma_utf16_decode_encode(cs);
        assert(spec_utf16_decode(units) == Some(cs));
        assert(s.len() == 1 + body.len() + 2);
    }
}

} // verus!
