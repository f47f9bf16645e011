//! Cursor-based typed primitive reads and writes over a byte buffer.
//!
//! Every read is individually fallible: truncated input and invalid text
//! encoding are distinct conditions. The writer mirrors the reader
//! symmetrically; both sides use the fixed big-endian byte order of
//! [`crate::wire`].
use vstd::prelude::*;

use crate::wire::{be16_bytes, be16_value, be32_bytes, be32_value, push_be16, push_be32, read_be16,
    read_be32};

verus! {

/// Why a primitive read failed.
#[derive(Clone, Copy, Debug, PartialEq, Eq, Structural)]
pub enum ReadError {
    /// The buffer ended before the requested bytes.
    Underflow,
    /// A length-prefixed string did not hold valid UTF-8.
    Utf8,
}

/// Relies on `String::from_utf8`: returns the string whose UTF-8 encoding is
/// the given byte vector, and fails exactly when the bytes are not valid UTF-8.
#[verifier::external_body]
pub(crate) fn string_from_utf8(v: Vec<u8>) -> (r: Option<String>)
    ensures
        match r {
            Some(s) => vstd::utf8::valid_utf8(v@) && s@ == vstd::utf8::decode_utf8(v@),
            None => !vstd::utf8::valid_utf8(v@),
        },
{
    String::from_utf8(v).ok()
}

/// A read cursor over a borrowed byte buffer.
pub struct DataRead<'a> {
    data: &'a [u8],
    pos: usize,
}

impl<'a> DataRead<'a> {
    /// The whole underlying buffer.
    pub closed spec fn bytes(self) -> Seq<u8> {
        self.data@
    }

    /// How many bytes have been consumed.
    pub closed spec fn position(self) -> int {
        self.pos as int
    }

    #[verifier::type_invariant]
    spec fn inv(self) -> bool {
        self.pos <= self.data@.len()
    }

    pub fn new(data: &'a [u8]) -> (r: Self)
        ensures
            r.bytes() == data@,
            r.position() == 0,
    {
        DataRead { data, pos: 0 }
    }

    /// Reads one byte.
    pub fn read_u8(&mut self) -> (r: Result<u8, ReadError>)
        ensures
            final(self).bytes() == old(self).bytes(),
            0 <= final(self).position() <= final(self).bytes().len(),
            ({
                let pos = old(self).position();
                let b = old(self).bytes();
                match r {
                    Ok(v) => pos + 1 <= b.len() && v == b[pos] && final(self).position() == pos + 1,
                    Err(e) => e == ReadError::Underflow && pos + 1 > b.len() && final(self).position() == pos,
                }
            }),
    {
        proof {
            use_type_invariant(&*self);
        }
        if self.pos < self.data.len() {
            let v = self.data[self.pos];
            self.pos = self.pos + 1;
            Ok(v)
        } else {
            Err(ReadError::Underflow)
        }
    }

    /// Reads a big-endian unsigned 16-bit value.
    pub fn read_u16(&mut self) -> (r: Result<u16, ReadError>)
        ensures
            final(self).bytes() == old(self).bytes(),
            0 <= final(self).position() <= final(self).bytes().len(),
            ({
                let pos = old(self).position();
                let b = old(self).bytes();
                match r {
                    Ok(v) => pos + 2 <= b.len() && v == be16_value(b[pos], b[pos + 1]) && final(self).position() == pos + 2,
                    Err(e) => e == ReadError::Underflow && pos + 2 > b.len() && final(self).position() == pos,
                }
            }),
    {
        proof {
            use_type_invariant(&*self);
        }
        if self.data.len() - self.pos >= 2 {
            let b0 = self.data[self.pos];
            let b1 = self.data[self.pos + 1];
            self.pos = self.pos + 2;
            Ok(read_be16(b0, b1))
        } else {
            Err(ReadError::Underflow)
        }
    }

    /// Reads a big-endian signed 16-bit value.
    pub fn read_i16(&mut self) -> (r: Result<i16, ReadError>)
        ensures
            final(self).bytes() == old(self).bytes(),
            0 <= final(self).position() <= final(self).bytes().len(),
            ({
                let pos = old(self).position();
                let b = old(self).bytes();
                match r {
                    Ok(v) => pos + 2 <= b.len() && v == be16_value(b[pos], b[pos + 1]) as i16
                        && final(self).position() == pos + 2,
                    Err(e) => e == ReadError::Underflow && pos + 2 > b.len() && final(self).position() == pos,
                }
            }),
    {
        match self.read_u16() {
            Ok(v) => Ok(v as i16),
            Err(e) => Err(e),
        }
    }

    /// Reads a big-endian signed 32-bit value.
    pub fn read_i32(&mut self) -> (r: Result<i32, ReadError>)
        ensures
            final(self).bytes() == old(self).bytes(),
            0 <= final(self).position() <= final(self).bytes().len(),
            ({
                let pos = old(self).position();
                let b = old(self).bytes();
                match r {
                    Ok(v) => pos + 4 <= b.len() && v == be32_value(
                        b[pos],
                        b[pos + 1],
                        b[pos + 2],
                        b[pos + 3],
                    ) as i32 && final(self).position() == pos + 4,
                    Err(e) => e == ReadError::Underflow && pos + 4 > b.len() && final(self).position() == pos,
                }
            }),
    {
        proof {
            use_type_invariant(&*self);
        }
        if self.data.len() - self.pos >= 4 {
            let b0 = self.data[self.pos];
            let b1 = self.data[self.pos + 1];
            let b2 = self.data[self.pos + 2];
            let b3 = self.data[self.pos + 3];
            self.pos = self.pos + 4;
            Ok(read_be32(b0, b1, b2, b3) as i32)
        } else {
            Err(ReadError::Underflow)
        }
    }

    /// Reads a raw run of exactly `count` bytes.
    pub fn read_bytes(&mut self, count: usize) -> (r: Result<Vec<u8>, ReadError>)
        ensures
            final(self).bytes() == old(self).bytes(),
            0 <= final(self).position() <= final(self).bytes().len(),
            ({
                let pos = old(self).position();
                let b = old(self).bytes();
                match r {
                    Ok(v) => pos + count <= b.len() && v@ == b.subrange(pos, pos + count) && final(self).position() == pos + count,
                    Err(e) => e == ReadError::Underflow && pos + count > b.len() && final(self).position() == pos,
                }
            }),
    {
        proof {
            use_type_invariant(&*self);
        }
        let total = self.data.len();
        if count > total - self.pos {
            return Err(ReadError::Underflow);
        }
        let mut v: Vec<u8> = Vec::new();
        let mut i: usize = 0;
        while i < count
            invariant
                i <= count,
                total == self.data@.len(),
                self.pos + count <= total,
                v@ =~= self.data@.subrange(self.pos as int, self.pos + i),
                self == old(self),
            decreases count - i,
        {
            v.push(self.data[self.pos + i]);
            i = i + 1;
            assert(v@ =~= self.data@.subrange(self.pos as int, self.pos + i));
        }
        self.pos = self.pos + count;
        Ok(v)
    }

    /// Skips `count` bytes without interpreting them, as legacy entity
    /// payloads that this library does not model require.
    pub fn skip(&mut self, count: usize) -> (r: Result<(), ReadError>)
        ensures
            final(self).bytes() == old(self).bytes(),
            0 <= final(self).position() <= final(self).bytes().len(),
            ({
                let pos = old(self).position();
                let b = old(self).bytes();
                match r {
                    Ok(()) => pos + count <= b.len() && final(self).position() == pos + count,
                    Err(e) => e == ReadError::Underflow && pos + count > b.len() && final(self).position() == pos,
                }
            }),
    {
        proof {
            use_type_invariant(&*self);
        }
        let total = self.data.len();
        if count > total - self.pos {
            return Err(ReadError::Underflow);
        }
        self.pos = self.pos + count;
        Ok(())
    }

    /// Reads a length-prefixed UTF-8 string: a big-endian 16-bit byte count,
    /// then that many bytes of text.
    pub fn read_utf(&mut self) -> (r: Result<String, ReadError>)
        ensures
            final(self).bytes() == old(self).bytes(),
            0 <= final(self).position() <= final(self).bytes().len(),
            ({
                let pos = old(self).position();
                let b = old(self).bytes();
                match r {
                    Ok(s) => pos + 2 <= b.len() && {
                        let n = be16_value(b[pos], b[pos + 1]) as int;
                        let body = b.subrange(pos + 2, pos + 2 + n);
                        &&& pos + 2 + n <= b.len()
                        &&& vstd::utf8::valid_utf8(body)
                        &&& s@ == vstd::utf8::decode_utf8(body)
                        &&& final(self).position() == pos + 2 + n
                    },
                    Err(e) => if pos + 2 > b.len() {
                        e == ReadError::Underflow
                    } else {
                        let n = be16_value(b[pos], b[pos + 1]) as int;
                        if pos + 2 + n > b.len() {
                            e == ReadError::Underflow
                        } else {
                            e == ReadError::Utf8 && !vstd::utf8::valid_utf8(
                                b.subrange(pos + 2, pos + 2 + n),
                            )
                        }
                    },
                }
            }),
    {
        let n = match self.read_u16() {
            Ok(n) => n,
            Err(e) => {
                return Err(e);
            },
        };
        let body = match self.read_bytes(n as usize) {
            Ok(body) => body,
            Err(e) => {
                return Err(e);
            },
        };
        match string_from_utf8(body) {
            Some(s) => Ok(s),
            None => Err(ReadError::Utf8),
        }
    }
}

/// A growable write buffer, the structural inverse of [`DataRead`].
pub struct DataWrite {
    data: Vec<u8>,
}

impl DataWrite {
    /// Everything written so far.
    pub closed spec fn written(self) -> Seq<u8> {
        self.data@
    }

    pub fn new() -> (r: Self)
        ensures
            r.written() == Seq::<u8>::empty(),
    {
        DataWrite { data: Vec::new() }
    }

    /// Writes one byte.
    pub fn write_u8(&mut self, v: u8)
        ensures
            final(self).written() == old(self).written() + seq![v],
    {
        self.data.push(v);
        assert(self.written() =~= old(self).written() + seq![v]);
    }

    /// Writes a big-endian unsigned 16-bit value.
    pub fn write_u16(&mut self, v: u16)
        ensures
            final(self).written() == old(self).written() + be16_bytes(v),
    {
        push_be16(&mut self.data, v);
    }

    /// Writes a big-endian signed 16-bit value.
    pub fn write_i16(&mut self, v: i16)
        ensures
            final(self).written() == old(self).written() + be16_bytes(v as u16),
    {
        push_be16(&mut self.data, v as u16);
    }

    /// Writes a big-endian signed 32-bit value.
    pub fn write_i32(&mut self, v: i32)
        ensures
            final(self).written() == old(self).written() + be32_bytes(v as u32),
    {
        push_be32(&mut self.data, v as u32);
    }

    /// Writes a raw run of bytes.
    pub fn write_bytes(&mut self, b: &[u8])
        ensures
            final(self).written() == old(self).written() + b@,
    {
        self.data.extend_from_slice(b);
    }

    /// Writes a length-prefixed UTF-8 string: a big-endian 16-bit byte count,
    /// then the text's bytes.
    pub fn write_utf(&mut self, s: &str)
        requires
            vstd::utf8::encode_utf8(s@).len() <= 65535,
        ensures
            final(self).written() == old(self).written() + be16_bytes(
                vstd::utf8::encode_utf8(s@).len() as u16,
            ) + vstd::utf8::encode_utf8(s@),
    {
        let b = s.as_bytes();
        push_be16(&mut self.data, b.len() as u16);
        self.data.extend_from_slice(b);
        assert(self.written() =~= old(self).written() + be16_bytes(
            vstd::utf8::encode_utf8(s@).len() as u16,
        ) + vstd::utf8::encode_utf8(s@));
    }

    /// The buffer written so far, as a byte slice.
    pub fn get_written(&self) -> (r: &[u8])
        ensures
            r@ == self.written(),
    {
        self.data.as_slice()
    }

    /// Takes the finished buffer.
    pub fn into_data(self) -> (r: Vec<u8>)
        ensures
            r@ == self.written(),
    {
        self.data
    }
}

} // verus!
