//! A position-tracking reader over a byte buffer, with the primitive
//! little-endian reads that every PTP decoder is built from.
//!
//! Each read is specified against a spec-level parser of the form
//! `Option<(value, next position)>`: `Some` exactly when enough bytes remain,
//! carrying the decoded value and the position after it.

use vstd::bytes::*;
use vstd::prelude::*;
use vstd::slice::slice_subrange;

use crate::error::Error;
use crate::utf16::{spec_utf16_decode, utf16_decode_string};

verus! {

/// One byte read at `pos`.
pub open spec fn spec_read_u8(s: Seq<u8>, pos: int) -> Option<(u8, int)> {
    if 0 <= pos && pos + 1 <= s.len() {
        Some((s[pos], pos + 1))
    } else {
        None
    }
}

/// A little-endian u16 read at `pos`.
pub open spec fn spec_read_u16(s: Seq<u8>, pos: int) -> Option<(u16, int)> {
    if 0 <= pos && pos + 2 <= s.len() {
        Some((spec_u16_from_le_bytes(s.subrange(pos, pos + 2)), pos + 2))
    } else {
        None
    }
}

/// A little-endian u32 read at `pos`.
pub open spec fn spec_read_u32(s: Seq<u8>, pos: int) -> Option<(u32, int)> {
    if 0 <= pos && pos + 4 <= s.len() {
        Some((spec_u32_from_le_bytes(s.subrange(pos, pos + 4)), pos + 4))
    } else {
        None
    }
}

/// A little-endian u64 read at `pos`.
pub open spec fn spec_read_u64(s: Seq<u8>, pos: int) -> Option<(u64, int)> {
    if 0 <= pos && pos + 8 <= s.len() {
        Some((spec_u64_from_le_bytes(s.subrange(pos, pos + 8)), pos + 8))
    } else {
        None
    }
}

/// A signed 8-bit read: the byte reinterpreted as two's complement.
pub open spec fn spec_read_i8(s: Seq<u8>, pos: int) -> Option<(i8, int)> {
    match spec_read_u8(s, pos) {
        Some(vp) => Some(((vp.0 as i8), vp.1)),
        None => None,
    }
}

/// A signed little-endian 16-bit read.
pub open spec fn spec_read_i16(s: Seq<u8>, pos: int) -> Option<(i16, int)> {
    match spec_read_u16(s, pos) {
        Some(vp) => Some(((vp.0 as i16), vp.1)),
        None => None,
    }
}

/// A signed little-endian 32-bit read.
pub open spec fn spec_read_i32(s: Seq<u8>, pos: int) -> Option<(i32, int)> {
    match spec_read_u32(s, pos) {
        Some(vp) => Some(((vp.0 as i32), vp.1)),
        None => None,
    }
}

/// A signed little-endian 64-bit read.
pub open spec fn spec_read_i64(s: Seq<u8>, pos: int) -> Option<(i64, int)> {
    match spec_read_u64(s, pos) {
        Some(vp) => Some(((vp.0 as i64), vp.1)),
        None => None,
    }
}

/// A 128-bit read as two 64-bit little-endian words, low word first on the
/// wire; the pair holds `(high word, low word)`.
pub open spec fn spec_read_u128(s: Seq<u8>, pos: int) -> Option<((u64, u64), int)> {
    match spec_read_u64(s, pos) {
        Some(vp0) => match spec_read_u64(s, vp0.1) {
            Some(vp1) => Some(((vp1.0, vp0.0), vp1.1)),
            None => None,
        },
        None => None,
    }
}

/// A scalar element of the typed value codec: how one element is read,
/// written, and why the two are inverses.
pub trait PtpScalar: Sized {
    /// The spec-level read of one element at `pos`.
    spec fn spec_read_one(s: Seq<u8>, pos: int) -> Option<(Self, int)>;

    /// The wire bytes of one element.
    spec fn spec_enc_one(v: Self) -> Seq<u8>;

    /// Read one element from the reader.
    fn read_one(r: &mut Reader) -> (res: Result<Self, Error>)
        requires
            old(r).wf(),
        ensures
            final(r).wf(),
            final(r).bytes() == old(r).bytes(),
            match Self::spec_read_one(old(r).bytes(), old(r).position()) {
                Some(vp) => res == Ok::<Self, Error>(vp.0) && final(r).position() == vp.1,
                None => res is Err && res->Err_0 is Malformed,
            },
    ;

    /// Append the wire bytes of one element.
    fn write_one(v: &Self, out: &mut Vec<u8>)
        ensures
            final(out)@ == old(out)@ + Self::spec_enc_one(*v),
    ;

    /// Law: reading at a position where an element's encoding lies yields
    /// that element and consumes exactly its bytes.
    proof fn lemma_enc_one_read(v: Self, s: Seq<u8>, pos: int)
        requires
            0 <= pos,
            pos + Self::spec_enc_one(v).len() <= s.len(),
            s.subrange(pos, pos + Self::spec_enc_one(v).len() as int) == Self::spec_enc_one(v),
        ensures
            Self::spec_read_one(s, pos) == Some((v, pos + Self::spec_enc_one(v).len() as int)),
    ;
}

/// `n` consecutive elements read from `pos`.
pub open spec fn spec_read_n<T: PtpScalar>(s: Seq<u8>, pos: int, n: nat) -> Option<(Seq<T>, int)>
    decreases n,
{
    if n == 0 {
        Some((Seq::empty(), pos))
    } else {
        match T::spec_read_one(s, pos) {
            Some(vp) => match spec_read_n::<T>(s, vp.1, (n - 1) as nat) {
                Some(rp) => Some((seq![vp.0] + rp.0, rp.1)),
                None => None,
            },
            None => None,
        }
    }
}

/// A successful `n`-element read yields exactly `n` elements.
pub proof fn lemma_read_n_len<T: PtpScalar>(s: Seq<u8>, pos: int, n: nat)
    ensures
        spec_read_n::<T>(s, pos, n) matches Some(vp) ==> vp.0.len() == n,
    decreases n,
{
    if n > 0 {
        match T::spec_read_one(s, pos) {
            Some(e) => {
                lemma_read_n_len::<T>(s, e.1, (n - 1) as nat);
            },
            None => {},
        }
    }
}

/// A u32 element count followed by that many elements: the wire layout of
/// every PTP array.
pub open spec fn spec_read_counted<T: PtpScalar>(s: Seq<u8>, pos: int) -> Option<(Seq<T>, int)> {
    match spec_read_u32(s, pos) {
        Some(np) => spec_read_n::<T>(s, np.1, np.0 as nat),
        None => None,
    }
}

/// A PTP string read: a u8 unit count including the terminator (zero for the
/// empty string, with no further bytes), that many minus one UTF-16 code
/// units, and a terminating unit that is read and discarded.
pub open spec fn spec_read_str(s: Seq<u8>, pos: int) -> Option<(Seq<char>, int)> {
    match spec_read_u8(s, pos) {
        None => None,
        Some(np) => if np.0 == 0 {
            Some((Seq::empty(), np.1))
        } else {
            match spec_read_n::<u16>(s, np.1, (np.0 - 1) as nat) {
                None => None,
                Some(up) => match spec_read_u16(s, up.1) {
                    None => None,
                    Some(tp) => match spec_utf16_decode(up.0) {
                        None => None,
                        Some(chars) => Some((chars, tp.1)),
                    },
                },
            }
        },
    }
}

/// The decode error every reader reports when the buffer ends early.
fn eof_error() -> (e: Error)
    ensures
        e is Malformed,
{
    Error::Malformed("unexpected end of message".to_owned())
}

/// A reader over an owned byte buffer, tracking how far it has decoded.
pub struct Reader {
    buf: Vec<u8>,
    pos: usize,
}

impl Reader {
    /// The bytes being decoded.
    pub closed spec fn bytes(&self) -> Seq<u8> {
        self.buf@
    }

    /// The next position to decode at.
    pub closed spec fn position(&self) -> int {
        self.pos as int
    }

    /// The reader never points past the end of its buffer.
    pub open spec fn wf(&self) -> bool {
        0 <= self.position() <= self.bytes().len()
    }

    /// A reader at the start of the given buffer.
    pub fn new(buf: Vec<u8>) -> (r: Reader)
        ensures
            r.wf(),
            r.bytes() == buf@,
            r.position() == 0,
    {
        Reader { buf, pos: 0 }
    }

    /// Succeeds exactly when the whole buffer has been consumed; guards the
    /// structured decoders against trailing bytes.
    pub fn expect_end(&self) -> (r: Result<(), Error>)
        requires
            self.wf(),
        ensures
            r is Ok <==> self.position() == self.bytes().len(),
            r is Err ==> r->Err_0 is Malformed,
    {
        if self.pos == self.buf.len() {
            Ok(())
        } else {
            Err(Error::Malformed("leftover bytes after decode".to_owned()))
        }
    }

    /// Read one byte.
    pub fn read_ptp_u8(&mut self) -> (r: Result<u8, Error>)
        requires
            old(self).wf(),
        ensures
            final(self).wf(),
            final(self).bytes() == old(self).bytes(),
            match spec_read_u8(old(self).bytes(), old(self).position()) {
                Some(vp) => r == Ok::<u8, Error>(vp.0) && final(self).position() == vp.1,
                None => r is Err && r->Err_0 is Malformed && final(self).position() == old(
                    self,
                ).position(),
            },
    {
        if self.buf.len() - self.pos >= 1 {
            let v = self.buf[self.pos];
            self.pos = self.pos + 1;
            Ok(v)
        } else {
            Err(eof_error())
        }
    }

    /// Read a little-endian u16.
    pub fn read_ptp_u16(&mut self) -> (r: Result<u16, Error>)
        requires
            old(self).wf(),
        ensures
            final(self).wf(),
            final(self).bytes() == old(self).bytes(),
            match spec_read_u16(old(self).bytes(), old(self).position()) {
                Some(vp) => r == Ok::<u16, Error>(vp.0) && final(self).position() == vp.1,
                None => r is Err && r->Err_0 is Malformed && final(self).position() == old(
                    self,
                ).position(),
            },
    {
        if self.buf.len() - self.pos >= 2 {
            let s = slice_subrange(self.buf.as_slice(), self.pos, self.pos + 2);
            let v = u16_from_le_bytes(s);
            self.pos = self.pos + 2;
            Ok(v)
        } else {
            Err(eof_error())
        }
    }

    /// Read a little-endian u32.
    pub fn read_ptp_u32(&mut self) -> (r: Result<u32, Error>)
        requires
            old(self).wf(),
        ensures
            final(self).wf(),
            final(self).bytes() == old(self).bytes(),
            match spec_read_u32(old(self).bytes(), old(self).position()) {
                Some(vp) => r == Ok::<u32, Error>(vp.0) && final(self).position() == vp.1,
                None => r is Err && r->Err_0 is Malformed && final(self).position() == old(
                    self,
                ).position(),
            },
    {
        if self.buf.len() - self.pos >= 4 {
            let s = slice_subrange(self.buf.as_slice(), self.pos, self.pos + 4);
            let v = u32_from_le_bytes(s);
            self.pos = self.pos + 4;
            Ok(v)
        } else {
            Err(eof_error())
        }
    }

    /// Read a little-endian u64.
    pub fn read_ptp_u64(&mut self) -> (r: Result<u64, Error>)
        requires
            old(self).wf(),
        ensures
            final(self).wf(),
            final(self).bytes() == old(self).bytes(),
            match spec_read_u64(old(self).bytes(), old(self).position()) {
                Some(vp) => r == Ok::<u64, Error>(vp.0) && final(self).position() == vp.1,
                None => r is Err && r->Err_0 is Malformed && final(self).position() == old(
                    self,
                ).position(),
            },
    {
        if self.buf.len() - self.pos >= 8 {
            let s = slice_subrange(self.buf.as_slice(), self.pos, self.pos + 8);
            let v = u64_from_le_bytes(s);
            self.pos = self.pos + 8;
            Ok(v)
        } else {
            Err(eof_error())
        }
    }

    /// Read a signed 8-bit value.
    pub fn read_ptp_i8(&mut self) -> (r: Result<i8, Error>)
        requires
            old(self).wf(),
        ensures
            final(self).wf(),
            final(self).bytes() == old(self).bytes(),
            match spec_read_i8(old(self).bytes(), old(self).position()) {
                Some(vp) => r == Ok::<i8, Error>(vp.0) && final(self).position() == vp.1,
                None => r is Err && r->Err_0 is Malformed,
            },
    {
        match self.read_ptp_u8() {
            Ok(v) => Ok(v as i8),
            Err(e) => Err(e),
        }
    }

    /// Read a signed little-endian 16-bit value.
    pub fn read_ptp_i16(&mut self) -> (r: Result<i16, Error>)
        requires
            old(self).wf(),
        ensures
            final(self).wf(),
            final(self).bytes() == old(self).bytes(),
            match spec_read_i16(old(self).bytes(), old(self).position()) {
                Some(vp) => r == Ok::<i16, Error>(vp.0) && final(self).position() == vp.1,
                None => r is Err && r->Err_0 is Malformed,
            },
    {
        match self.read_ptp_u16() {
            Ok(v) => Ok(v as i16),
            Err(e) => Err(e),
        }
    }

    /// Read a signed little-endian 32-bit value.
    pub fn read_ptp_i32(&mut self) -> (r: Result<i32, Error>)
        requires
            old(self).wf(),
        ensures
            final(self).wf(),
            final(self).bytes() == old(self).bytes(),
            match spec_read_i32(old(self).bytes(), old(self).position()) {
                Some(vp) => r == Ok::<i32, Error>(vp.0) && final(self).position() == vp.1,
                None => r is Err && r->Err_0 is Malformed,
            },
    {
        match self.read_ptp_u32() {
            Ok(v) => Ok(v as i32),
            Err(e) => Err(e),
        }
    }

    /// Read a signed little-endian 64-bit value.
    pub fn read_ptp_i64(&mut self) -> (r: Result<i64, Error>)
        requires
            old(self).wf(),
        ensures
            final(self).wf(),
            final(self).bytes() == old(self).bytes(),
            match spec_read_i64(old(self).bytes(), old(self).position()) {
                Some(vp) => r == Ok::<i64, Error>(vp.0) && final(self).position() == vp.1,
                None => r is Err && r->Err_0 is Malformed,
            },
    {
        match self.read_ptp_u64() {
            Ok(v) => Ok(v as i64),
            Err(e) => Err(e),
        }
    }

    /// Read an unsigned 128-bit value as two 64-bit words, low word first on
    /// the wire; the pair holds `(high word, low word)`.
    pub fn read_ptp_u128(&mut self) -> (r: Result<(u64, u64), Error>)
        requires
            old(self).wf(),
        ensures
            final(self).wf(),
            final(self).bytes() == old(self).bytes(),
            match spec_read_u128(old(self).bytes(), old(self).position()) {
                Some(vp) => r == Ok::<(u64, u64), Error>(vp.0) && final(self).position() == vp.1,
                None => r is Err && r->Err_0 is Malformed,
            },
    {
        let w0 = match self.read_ptp_u64() {
            Ok(v) => v,
            Err(e) => return Err(e),
        };
        let w1 = match self.read_ptp_u64() {
            Ok(v) => v,
            Err(e) => return Err(e),
        };
        Ok((w1, w0))
    }

    /// Read a signed 128-bit value; the wire layout and the pair convention
    /// are the same as for the unsigned read.
    pub fn read_ptp_i128(&mut self) -> (r: Result<(u64, u64), Error>)
        requires
            old(self).wf(),
        ensures
            final(self).wf(),
            final(self).bytes() == old(self).bytes(),
            match spec_read_u128(old(self).bytes(), old(self).position()) {
                Some(vp) => r == Ok::<(u64, u64), Error>(vp.0) && final(self).position() == vp.1,
                None => r is Err && r->Err_0 is Malformed,
            },
    {
        self.read_ptp_u128()
    }

    /// Read `n` consecutive elements.
    fn read_n<T: PtpScalar>(&mut self, n: u32) -> (r: Result<Vec<T>, Error>)
        requires
            old(self).wf(),
        ensures
            final(self).wf(),
            final(self).bytes() == old(self).bytes(),
            match spec_read_n::<T>(old(self).bytes(), old(self).position(), n as nat) {
                Some(vp) => r matches Ok(v) && v@ == vp.0 && final(self).position() == vp.1,
                None => r is Err && r->Err_0 is Malformed,
            },
    {
        let ghost s = self.bytes();
        let ghost p0 = self.position();
        let mut out: Vec<T> = Vec::new();
        let mut i: u32 = 0;
        proof {
            match spec_read_n::<T>(s, p0, n as nat) {
                Some(vp) => {
                    assert(vp.0.skip(0) =~= vp.0);
                    assert(out@ =~= vp.0.take(0));
                },
                None => {},
            }
        }
        while i < n
            invariant
                s == old(self).bytes(),
                p0 == old(self).position(),
                self.wf(),
                self.bytes() == s,
                i <= n,
                match spec_read_n::<T>(s, p0, n as nat) {
                    Some(vp) => spec_read_n::<T>(s, self.position(), (n - i) as nat) == Some(
                        (vp.0.skip(i as int), vp.1),
                    ) && out@ == vp.0.take(i as int),
                    None => spec_read_n::<T>(s, self.position(), (n - i) as nat) is None,
                },
            decreases n - i,
        {
            let ghost cur = self.position();
            let v = match T::read_one(self) {
                Ok(v) => v,
                Err(e) => {
                    proof {
                        assert(spec_read_n::<T>(s, cur, (n - i) as nat) is None);
                    }
                    return Err(e);
                },
            };
            proof {
                let k = (n - i) as nat;
                lemma_read_n_len::<T>(s, p0, n as nat);
                match spec_read_n::<T>(s, p0, n as nat) {
                    Some(vp) => {
                        match spec_read_n::<T>(s, self.position(), (k - 1) as nat) {
                            Some(rp) => {
                                assert(vp.0.skip(i as int) =~= seq![v] + rp.0);
                                assert(vp.0.skip(i as int)[0] == v);
                                assert(vp.0[i as int] == v);
                                assert(rp.0 =~= vp.0.skip(i as int).drop_first());
                                assert(vp.0.skip(i as int).drop_first() =~= vp.0.skip(i + 1));
                                assert(vp.0.take(i as int).push(v) =~= vp.0.take(i + 1));
                            },
                            None => {
                                assert(spec_read_n::<T>(s, cur, k) is None);
                                assert(false);
                            },
                        }
                    },
                    None => {},
                }
            }
            out.push(v);
            i = i + 1;
        }
        proof {
            lemma_read_n_len::<T>(s, p0, n as nat);
            match spec_read_n::<T>(s, p0, n as nat) {
                Some(vp) => {
                    assert(vp.0.skip(n as int) =~= Seq::empty());
                    assert(spec_read_n::<T>(s, self.position(), 0) == Some(
                        (Seq::<T>::empty(), self.position()),
                    ));
                    assert(vp.0.take(n as int) =~= vp.0);
                },
                None => {
                    assert(spec_read_n::<T>(s, self.position(), 0) is Some);
                },
            }
        }
        Ok(out)
    }

    /// Read a u32-counted array of u8 elements.
    pub fn read_ptp_u8_vec(&mut self) -> (r: Result<Vec<u8>, Error>)
        requires
            old(self).wf(),
        ensures
            final(self).wf(),
            final(self).bytes() == old(self).bytes(),
            match spec_read_counted::<u8>(old(self).bytes(), old(self).position()) {
                Some(vp) => r matches Ok(v) && v@ == vp.0 && final(self).position() == vp.1,
                None => r is Err && r->Err_0 is Malformed,
            },
    {
        let n = match self.read_ptp_u32() {
            Ok(v) => v,
            Err(e) => return Err(e),
        };
        self.read_n::<u8>(n)
    }

    /// Read a u32-counted array of i8 elements.
    pub fn read_ptp_i8_vec(&mut self) -> (r: Result<Vec<i8>, Error>)
        requires
            old(self).wf(),
        ensures
            final(self).wf(),
            final(self).bytes() == old(self).bytes(),
            match spec_read_counted::<i8>(old(self).bytes(), old(self).position()) {
                Some(vp) => r matches Ok(v) && v@ == vp.0 && final(self).position() == vp.1,
                None => r is Err && r->Err_0 is Malformed,
            },
    {
        let n = match self.read_ptp_u32() {
            Ok(v) => v,
            Err(e) => return Err(e),
        };
        self.read_n::<i8>(n)
    }

    /// Read a u32-counted array of u16 elements.
    pub fn read_ptp_u16_vec(&mut self) -> (r: Result<Vec<u16>, Error>)
        requires
            old(self).wf(),
        ensures
            final(self).wf(),
            final(self).bytes() == old(self).bytes(),
            match spec_read_counted::<u16>(old(self).bytes(), old(self).position()) {
                Some(vp) => r matches Ok(v) && v@ == vp.0 && final(self).position() == vp.1,
                None => r is Err && r->Err_0 is Malformed,
            },
    {
        let n = match self.read_ptp_u32() {
            Ok(v) => v,
            Err(e) => return Err(e),
        };
        self.read_n::<u16>(n)
    }

    /// Read a u32-counted array of i16 elements.
    pub fn read_ptp_i16_vec(&mut self) -> (r: Result<Vec<i16>, Error>)
        requires
            old(self).wf(),
        ensures
            final(self).wf(),
            final(self).bytes() == old(self).bytes(),
            match spec_read_counted::<i16>(old(self).bytes(), old(self).position()) {
                Some(vp) => r matches Ok(v) && v@ == vp.0 && final(self).position() == vp.1,
                None => r is Err && r->Err_0 is Malformed,
            },
    {
        let n = match self.read_ptp_u32() {
            Ok(v) => v,
            Err(e) => return Err(e),
        };
        self.read_n::<i16>(n)
    }

    /// Read a u32-counted array of u32 elements.
    pub fn read_ptp_u32_vec(&mut self) -> (r: Result<Vec<u32>, Error>)
        requires
            old(self).wf(),
        ensures
            final(self).wf(),
            final(self).bytes() == old(self).bytes(),
            match spec_read_counted::<u32>(old(self).bytes(), old(self).position()) {
                Some(vp) => r matches Ok(v) && v@ == vp.0 && final(self).position() == vp.1,
                None => r is Err && r->Err_0 is Malformed,
            },
    {
        let n = match self.read_ptp_u32() {
            Ok(v) => v,
            Err(e) => return Err(e),
        };
        self.read_n::<u32>(n)
    }

    /// Read a u32-counted array of i32 elements.
    pub fn read_ptp_i32_vec(&mut self) -> (r: Result<Vec<i32>, Error>)
        requires
            old(self).wf(),
        ensures
            final(self).wf(),
            final(self).bytes() == old(self).bytes(),
            match spec_read_counted::<i32>(old(self).bytes(), old(self).position()) {
                Some(vp) => r matches Ok(v) && v@ == vp.0 && final(self).position() == vp.1,
                None => r is Err && r->Err_0 is Malformed,
            },
    {
        let n = match self.read_ptp_u32() {
            Ok(v) => v,
            Err(e) => return Err(e),
        };
        self.read_n::<i32>(n)
    }

    /// Read a u32-counted array of u64 elements.
    pub fn read_ptp_u64_vec(&mut self) -> (r: Result<Vec<u64>, Error>)
        requires
            old(self).wf(),
        ensures
            final(self).wf(),
            final(self).bytes() == old(self).bytes(),
            match spec_read_counted::<u64>(old(self).bytes(), old(self).position()) {
                Some(vp) => r matches Ok(v) && v@ == vp.0 && final(self).position() == vp.1,
                None => r is Err && r->Err_0 is Malformed,
            },
    {
        let n = match self.read_ptp_u32() {
            Ok(v) => v,
            Err(e) => return Err(e),
        };
        self.read_n::<u64>(n)
    }

    /// Read a u32-counted array of i64 elements.
    pub fn read_ptp_i64_vec(&mut self) -> (r: Result<Vec<i64>, Error>)
        requires
            old(self).wf(),
        ensures
            final(self).wf(),
            final(self).bytes() == old(self).bytes(),
            match spec_read_counted::<i64>(old(self).bytes(), old(self).position()) {
                Some(vp) => r matches Ok(v) && v@ == vp.0 && final(self).position() == vp.1,
                None => r is Err && r->Err_0 is Malformed,
            },
    {
        let n = match self.read_ptp_u32() {
            Ok(v) => v,
            Err(e) => return Err(e),
        };
        self.read_n::<i64>(n)
    }

    /// Read a u32-counted array of unsigned 128-bit values.
    pub fn read_ptp_u128_vec(&mut self) -> (r: Result<Vec<(u64, u64)>, Error>)
        requires
            old(self).wf(),
        ensures
            final(self).wf(),
            final(self).bytes() == old(self).bytes(),
            match spec_read_counted::<(u64, u64)>(old(self).bytes(), old(self).position()) {
                Some(vp) => r matches Ok(v) && v@ == vp.0 && final(self).position() == vp.1,
                None => r is Err && r->Err_0 is Malformed,
            },
    {
        let n = match self.read_ptp_u32() {
            Ok(v) => v,
            Err(e) => return Err(e),
        };
        self.read_n::<(u64, u64)>(n)
    }

    /// Read a u32-counted array of signed 128-bit values.
    pub fn read_ptp_i128_vec(&mut self) -> (r: Result<Vec<(u64, u64)>, Error>)
        requires
            old(self).wf(),
        ensures
            final(self).wf(),
            final(self).bytes() == old(self).bytes(),
            match spec_read_counted::<(u64, u64)>(old(self).bytes(), old(self).position()) {
                Some(vp) => r matches Ok(v) && v@ == vp.0 && final(self).position() == vp.1,
                None => r is Err && r->Err_0 is Malformed,
            },
    {
        let n = match self.read_ptp_u32() {
            Ok(v) => v,
            Err(e) => return Err(e),
        };
        self.read_n::<(u64, u64)>(n)
    }

    /// Read a PTP string.
    pub fn read_ptp_str(&mut self) -> (r: Result<String, Error>)
        requires
            old(self).wf(),
        ensures
            final(self).wf(),
            final(self).bytes() == old(self).bytes(),
            match spec_read_str(old(self).bytes(), old(self).position()) {
                Some(vp) => r matches Ok(st) && st@ == vp.0 && final(self).position() == vp.1,
                None => r is Err && r->Err_0 is Malformed,
            },
    {
        let len = match self.read_ptp_u8() {
            Ok(v) => v,
            Err(e) => return Err(e),
        };
        if len == 0 {
            return Ok(String::new());
        }
        let units = match self.read_n::<u16>((len - 1) as u32) {
            Ok(v) => v,
            Err(e) => return Err(e),
        };
        match self.read_ptp_u16() {
            Ok(_) => (),
            Err(e) => return Err(e),
        };
        match utf16_decode_string(&units) {
            Some(st) => Ok(st),
            None => Err(Error::Malformed("invalid utf-16 data".to_owned())),
        }
    }
}

impl PtpScalar for u8 {
    open spec fn spec_read_one(s: Seq<u8>, pos: int) -> Option<(u8, int)> {
        spec_read_u8(s, pos)
    }

    open spec fn spec_enc_one(v: u8) -> Seq<u8> {
        seq![v]
    }

    fn read_one(r: &mut Reader) -> (res: Result<u8, Error>) {
        r.read_ptp_u8()
    }

    fn write_one(v: &u8, out: &mut Vec<u8>) {
        out.push(*v);
        proof {
            assert(final(out)@ =~= old(out)@ + seq![*v]);
        }
    }

    proof fn lemma_enc_one_read(v: u8, s: Seq<u8>, pos: int) {
        assert(s[pos] == s.subrange(pos, pos + 1)[0]);
    }
}

impl PtpScalar for i8 {
    open spec fn spec_read_one(s: Seq<u8>, pos: int) -> Option<(i8, int)> {
        spec_read_i8(s, pos)
    }

    open spec fn spec_enc_one(v: i8) -> Seq<u8> {
        seq![(v as u8)]
    }

    fn read_one(r: &mut Reader) -> (res: Result<i8, Error>) {
        r.read_ptp_i8()
    }

    fn write_one(v: &i8, out: &mut Vec<u8>) {
        out.push(*v as u8);
        proof {
            assert(final(out)@ =~= old(out)@ + seq![(*v as u8)]);
        }
    }

    proof fn lemma_enc_one_read(v: i8, s: Seq<u8>, pos: int) {
        assert(s[pos] == s.subrange(pos, pos + 1)[0]);
        assert((v as u8) as i8 == v) by (bit_vector);
    }
}

impl PtpScalar for u16 {
    open spec fn spec_read_one(s: Seq<u8>, pos: int) -> Option<(u16, int)> {
        spec_read_u16(s, pos)
    }

    open spec fn spec_enc_one(v: u16) -> Seq<u8> {
        spec_u16_to_le_bytes(v)
    }

    fn read_one(r: &mut Reader) -> (res: Result<u16, Error>) {
        r.read_ptp_u16()
    }

    fn write_one(v: &u16, out: &mut Vec<u8>) {
        let mut b = u16_to_le_bytes(*v);
        out.append(&mut b);
    }

    proof fn lemma_enc_one_read(v: u16, s: Seq<u8>, pos: int) {
        lemma_auto_spec_u16_to_from_le_bytes();
    }
}

impl PtpScalar for i16 {
    open spec fn spec_read_one(s: Seq<u8>, pos: int) -> Option<(i16, int)> {
        spec_read_i16(s, pos)
    }

    open spec fn spec_enc_one(v: i16) -> Seq<u8> {
        spec_u16_to_le_bytes(v as u16)
    }

    fn read_one(r: &mut Reader) -> (res: Result<i16, Error>) {
        r.read_ptp_i16()
    }

    fn write_one(v: &i16, out: &mut Vec<u8>) {
        let mut b = u16_to_le_bytes(*v as u16);
        out.append(&mut b);
    }

    proof fn lemma_enc_one_read(v: i16, s: Seq<u8>, pos: int) {
        lemma_auto_spec_u16_to_from_le_bytes();
        assert((v as u16) as i16 == v) by (bit_vector);
    }
}

impl PtpScalar for u32 {
    open spec fn spec_read_one(s: Seq<u8>, pos: int) -> Option<(u32, int)> {
        spec_read_u32(s, pos)
    }

    open spec fn spec_enc_one(v: u32) -> Seq<u8> {
        spec_u32_to_le_bytes(v)
    }

    fn read_one(r: &mut Reader) -> (res: Result<u32, Error>) {
        r.read_ptp_u32()
    }

    fn write_one(v: &u32, out: &mut Vec<u8>) {
        let mut b = u32_to_le_bytes(*v);
        out.append(&mut b);
    }

    proof fn lemma_enc_one_read(v: u32, s: Seq<u8>, pos: int) {
        lemma_auto_spec_u32_to_from_le_bytes();
    }
}

impl PtpScalar for i32 {
    open spec fn spec_read_one(s: Seq<u8>, pos: int) -> Option<(i32, int)> {
        spec_read_i32(s, pos)
    }

    open spec fn spec_enc_one(v: i32) -> Seq<u8> {
        spec_u32_to_le_bytes(v as u32)
    }

    fn read_one(r: &mut Reader) -> (res: Result<i32, Error>) {
        r.read_ptp_i32()
    }

    fn write_one(v: &i32, out: &mut Vec<u8>) {
        let mut b = u32_to_le_bytes(*v as u32);
        out.append(&mut b);
    }

    proof fn lemma_enc_one_read(v: i32, s: Seq<u8>, pos: int) {
        lemma_auto_spec_u32_to_from_le_bytes();
        assert((v as u32) as i32 == v) by (bit_vector);
    }
}

impl PtpScalar for u64 {
    open spec fn spec_read_one(s: Seq<u8>, pos: int) -> Option<(u64, int)> {
        spec_read_u64(s, pos)
    }

    open spec fn spec_enc_one(v: u64) -> Seq<u8> {
        spec_u64_to_le_bytes(v)
    }

    fn read_one(r: &mut Reader) -> (res: Result<u64, Error>) {
        r.read_ptp_u64()
    }

    fn write_one(v: &u64, out: &mut Vec<u8>) {
        let mut b = u64_to_le_bytes(*v);
        out.append(&mut b);
    }

    proof fn lemma_enc_one_read(v: u64, s: Seq<u8>, pos: int) {
        lemma_auto_spec_u64_to_from_le_bytes();
    }
}

impl PtpScalar for i64 {
    open spec fn spec_read_one(s: Seq<u8>, pos: int) -> Option<(i64, int)> {
        spec_read_i64(s, pos)
    }

    open spec fn spec_enc_one(v: i64) -> Seq<u8> {
        spec_u64_to_le_bytes(v as u64)
    }

    fn read_one(r: &mut Reader) -> (res: Result<i64, Error>) {
        r.read_ptp_i64()
    }

    fn write_one(v: &i64, out: &mut Vec<u8>) {
        let mut b = u64_to_le_bytes(*v as u64);
        out.append(&mut b);
    }

    proof fn lemma_enc_one_read(v: i64, s: Seq<u8>, pos: int) {
        lemma_auto_spec_u64_to_from_le_bytes();
        assert((v as u64) as i64 == v) by (bit_vector);
    }
}

impl PtpScalar for (u64, u64) {
    open spec fn spec_read_one(s: Seq<u8>, pos: int) -> Option<((u64, u64), int)> {
        spec_read_u128(s, pos)
    }

    open spec fn spec_enc_one(v: (u64, u64)) -> Seq<u8> {
        spec_u64_to_le_bytes(v.1) + spec_u64_to_le_bytes(v.0)
    }

    fn read_one(r: &mut Reader) -> (res: Result<(u64, u64), Error>) {
        r.read_ptp_u128()
    }

    fn write_one(v: &(u64, u64), out: &mut Vec<u8>) {
        let mut lo = u64_to_le_bytes(v.1);
        let mut hi = u64_to_le_bytes(v.0);
        out.append(&mut lo);
        out.append(&mut hi);
        proof {
            assert(final(out)@ =~= old(out)@ + (spec_u64_to_le_bytes(v.1) + spec_u64_to_le_bytes(
                v.0,
            )));
        }
    }

    proof fn lemma_enc_one_read(v: (u64, u64), s: Seq<u8>, pos: int) {
        lemma_auto_spec_u64_to_from_le_bytes();
        let enc = Self::spec_enc_one(v);
        assert(enc.len() == 16);
        assert(s.subrange(pos, pos + 8) =~= enc.subrange(0, 8));
        assert(enc.subrange(0, 8) =~= spec_u64_to_le_bytes(v.1));
        assert(s.subrange(pos + 8, pos + 16) =~= enc.subrange(8, 16));
        assert(enc.subrange(8, 16) =~= spec_u64_to_le_bytes(v.0));
    }
}

} // verus!
