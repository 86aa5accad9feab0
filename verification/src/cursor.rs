//! A read-only cursor over borrowed bytes.

use crate::errors::{PayloadError, PayloadErrorKind, PayloadFault};
use crate::wire::{
    be_i16, be_i32, be_i64, be_u32, i16_from_be, i32_from_be, i64_from_be, u32_from_be,
};
use std::str::Utf8Error;
use vstd::prelude::*;
use vstd::slice::slice_subrange;
use vstd::utf8::{decode_utf8, encode_utf8, valid_utf8};

verus! {

/// Wraps `core::str::from_utf8`. The standard library accepts exactly the
/// well-formed UTF-8 buffers, and the string it hands back is made of the
/// bytes it was given.
#[verifier::external_body]
pub(crate) fn str_from_utf8<'a>(bytes: &'a [u8]) -> (result: Result<&'a str, Utf8Error>)
    ensures
        result is Ok <==> valid_utf8(bytes@),
        result matches Ok(text) ==> encode_utf8(text@) == bytes@,
{
    core::str::from_utf8(bytes)
}

/// A text is what its UTF-8 encoding decodes to, and its encoding is well formed.
pub proof fn lemma_text_of_bytes(text: Seq<char>, bytes: Seq<u8>)
    requires
        encode_utf8(text) == bytes,
    ensures
        valid_utf8(bytes),
        decode_utf8(bytes) == text,
{
    vstd::utf8::encode_utf8_valid_utf8(text);
    vstd::utf8::encode_utf8_decode_utf8(text);
}

/// The index of the first zero byte of `bytes` at or after `from`, or the length where there is none.
pub open spec fn first_zero(bytes: Seq<u8>, from: int) -> int
    decreases bytes.len() - from,
{
    if from >= bytes.len() {
        bytes.len() as int
    } else if bytes[from] == 0 {
        from
    } else {
        first_zero(bytes, from + 1)
    }
}

/// What reading one byte gives: the byte and the bytes left.
pub open spec fn read_byte_spec(bytes: Seq<u8>) -> Result<(u8, Seq<u8>), PayloadFault> {
    if bytes.len() == 0 {
        Err(PayloadFault::EndOfBuffer)
    } else {
        Ok((bytes[0], bytes.skip(1)))
    }
}

/// What reading `count` bytes one by one gives: the bytes and the bytes left.
pub open spec fn read_bytes_spec(bytes: Seq<u8>, count: int) -> Result<
    (Seq<u8>, Seq<u8>),
    PayloadFault,
> {
    if count <= 0 {
        Ok((Seq::empty(), bytes))
    } else if bytes.len() < count {
        Err(PayloadFault::EndOfBuffer)
    } else {
        Ok((bytes.subrange(0, count), bytes.skip(count)))
    }
}

/// What reading a big-endian `i16` gives: the integer and the bytes left.
pub open spec fn read_i16_spec(bytes: Seq<u8>) -> Result<(i16, Seq<u8>), PayloadFault> {
    if bytes.len() < 2 {
        Err(PayloadFault::NotEnoughBytes { required: 2, source: bytes })
    } else {
        Ok((be_i16(bytes) as i16, bytes.skip(2)))
    }
}

/// What reading a big-endian `i32` gives: the integer and the bytes left.
pub open spec fn read_i32_spec(bytes: Seq<u8>) -> Result<(i32, Seq<u8>), PayloadFault> {
    if bytes.len() < 4 {
        Err(PayloadFault::NotEnoughBytes { required: 4, source: bytes })
    } else {
        Ok((be_i32(bytes) as i32, bytes.skip(4)))
    }
}

/// What reading a big-endian `u32` gives: the integer and the bytes left.
pub open spec fn read_u32_spec(bytes: Seq<u8>) -> Result<(u32, Seq<u8>), PayloadFault> {
    if bytes.len() < 4 {
        Err(PayloadFault::NotEnoughBytes { required: 4, source: bytes })
    } else {
        Ok((be_u32(bytes) as u32, bytes.skip(4)))
    }
}

/// What reading a big-endian `i64` gives: the integer and the bytes left.
pub open spec fn read_i64_spec(bytes: Seq<u8>) -> Result<(i64, Seq<u8>), PayloadFault> {
    if bytes.len() < 8 {
        Err(PayloadFault::NotEnoughBytes { required: 8, source: bytes })
    } else {
        Ok((be_i64(bytes) as i64, bytes.skip(8)))
    }
}

/// What reading a zero-terminated string gives: the text before the first
/// zero byte and the bytes after it.
pub open spec fn read_cstr_spec(bytes: Seq<u8>) -> Result<(Seq<char>, Seq<u8>), PayloadFault> {
    let end = first_zero(bytes, 0);
    if end >= bytes.len() {
        Err(PayloadFault::CStringNotTerminated { source: bytes })
    } else if !valid_utf8(bytes.subrange(0, end)) {
        Err(PayloadFault::InvalidUtfString { source: bytes.subrange(0, end) })
    } else {
        Ok((decode_utf8(bytes.subrange(0, end)), bytes.skip(end + 1)))
    }
}

/// `first_zero` finds a zero byte, and no zero byte stands before it.
pub proof fn lemma_first_zero(bytes: Seq<u8>, from: int)
    requires
        0 <= from <= bytes.len(),
    ensures
        from <= first_zero(bytes, from) <= bytes.len(),
        first_zero(bytes, from) < bytes.len() ==> bytes[first_zero(bytes, from)] == 0,
        forall|i: int| from <= i < first_zero(bytes, from) ==> bytes[i] != 0,
    decreases bytes.len() - from,
{
    if from < bytes.len() && bytes[from] != 0 {
        lemma_first_zero(bytes, from + 1);
    }
}

/// Reading a zero-terminated string takes at least its terminator away.
pub proof fn lemma_cstr_shrinks(bytes: Seq<u8>)
    ensures
        read_cstr_spec(bytes) matches Ok((text, rest)) ==> rest.len() < bytes.len(),
{
    lemma_first_zero(bytes, 0);
}

/// A cursor over a byte slice, which decodes big-endian primitives from its front.
#[derive(Debug)]
pub struct Cursor<'c> {
    buf: &'c [u8],
}

impl<'c> View for Cursor<'c> {
    type V = Seq<u8>;

    /// The bytes that are still to be read.
    closed spec fn view(&self) -> Seq<u8> {
        self.buf@
    }
}

impl<'c> From<&'c [u8]> for Cursor<'c> {
    fn from(buf: &'c [u8]) -> (cursor: Cursor<'c>)
        ensures
            cursor@ == buf@,
    {
        Cursor { buf }
    }
}

impl<'c> vstd::std_specs::convert::FromSpecImpl<&'c [u8]> for Cursor<'c> {
    open spec fn obeys_from_spec() -> bool {
        true
    }

    closed spec fn from_spec(buf: &'c [u8]) -> Cursor<'c> {
        Cursor { buf }
    }
}

impl<'c> Cursor<'c> {
    /// A cursor at the front of `buf`.
    pub fn new(buf: &'c [u8]) -> (cursor: Cursor<'c>)
        ensures
            cursor@ == buf@,
    {
        Cursor { buf }
    }

    /// The number of bytes that are still to be read.
    pub fn remaining(&self) -> (count: usize)
        ensures
            count == self@.len(),
    {
        self.buf.len()
    }

    fn advance(&mut self, n: usize)
        requires
            n <= old(self)@.len(),
        ensures
            final(self)@ == old(self)@.skip(n as int),
    {
        let rest: &'c [u8] = slice_subrange(self.buf, n, self.buf.len());
        assert(rest@ =~= self.buf@.skip(n as int));
        self.buf = rest;
    }

    fn peek_byte(&self) -> (result: Result<u8, PayloadError>)
        ensures
            self@.len() == 0 ==> (result matches Err(error) && error@ == PayloadFault::EndOfBuffer),
            self@.len() > 0 ==> result == Ok::<u8, PayloadError>(self@[0]),
    {
        if self.buf.len() == 0 {
            Err(PayloadError { kind: PayloadErrorKind::EndOfBuffer })
        } else {
            Ok(self.buf[0])
        }
    }

    /// Reads one byte.
    pub fn read_byte(&mut self) -> (result: Result<u8, PayloadError>)
        ensures
            match read_byte_spec(old(self)@) {
                Ok((byte, rest)) => result == Ok::<u8, PayloadError>(byte) && final(self)@ == rest,
                Err(fault) => result matches Err(error) && error@ == fault && final(self)@ == old(
                    self,
                )@,
            },
    {
        let byte = self.peek_byte()?;
        self.advance(1);
        Ok(byte)
    }

    fn consume_next(&mut self, size: u8) -> (result: Result<&'c [u8], PayloadError>)
        ensures
            old(self)@.len() < size ==> (result matches Err(error) && error@
                == (PayloadFault::NotEnoughBytes { required: size, source: old(self)@ })
                && final(self)@ == old(self)@),
            old(self)@.len() >= size ==> (result matches Ok(bytes) && bytes@ == old(
                self,
            )@.subrange(0, size as int) && final(self)@ == old(self)@.skip(size as int)),
    {
        if self.buf.len() < size as usize {
            Err(
                PayloadError {
                    kind: PayloadErrorKind::NotEnoughBytes {
                        required: size,
                        source: vstd::slice::slice_to_vec(self.buf),
                    },
                },
            )
        } else {
            let bytes: &'c [u8] = slice_subrange(self.buf, 0, size as usize);
            self.advance(size as usize);
            Ok(bytes)
        }
    }

    /// Reads the next `count` bytes, or fails as reading them one by one would.
    pub fn read_bytes(&mut self, count: usize) -> (result: Result<&'c [u8], PayloadError>)
        ensures
            match read_bytes_spec(old(self)@, count as int) {
                Ok((bytes, rest)) => result matches Ok(read) && read@ == bytes && final(self)@
                    == rest,
                Err(fault) => result matches Err(error) && error@ == fault,
            },
    {
        if self.buf.len() < count {
            Err(PayloadError { kind: PayloadErrorKind::EndOfBuffer })
        } else {
            let bytes: &'c [u8] = slice_subrange(self.buf, 0, count);
            self.advance(count);
            Ok(bytes)
        }
    }

    /// Reads the next zero-terminated string. The zero byte is not part of
    /// the string; the cursor moves past it.
    pub fn read_cstr(&mut self) -> (result: Result<&'c str, PayloadError>)
        ensures
            match read_cstr_spec(old(self)@) {
                Ok((text, rest)) => result matches Ok(read) && read@ == text && final(self)@ == rest,
                Err(fault) => result matches Err(error) && error@ == fault && final(self)@ == old(
                    self,
                )@,
            },
    {
        let mut pos: usize = 0;
        while pos < self.buf.len() && self.buf[pos] != 0
            invariant
                pos <= self.buf@.len(),
                self.buf@ == old(self)@,
                first_zero(self.buf@, 0) == first_zero(self.buf@, pos as int),
            decreases self.buf@.len() - pos,
        {
            pos = pos + 1;
        }
        if pos < self.buf.len() {
            let head: &'c [u8] = slice_subrange(self.buf, 0, pos);
            match str_from_utf8(head) {
                Ok(text) => {
                    proof {
                        lemma_text_of_bytes(text@, head@);
                    }
                    self.advance(pos + 1);
                    Ok(text)
                },
                Err(cause) => Err(
                    PayloadError {
                        kind: PayloadErrorKind::InvalidUtfString {
                            cause,
                            source: vstd::slice::slice_to_vec(head),
                        },
                    },
                ),
            }
        } else {
            Err(
                PayloadError {
                    kind: PayloadErrorKind::CStringNotTerminated {
                        source: vstd::slice::slice_to_vec(self.buf),
                    },
                },
            )
        }
    }

    /// Reads the next 16-bit signed integer and moves two bytes on.
    pub fn read_i16(&mut self) -> (result: Result<i16, PayloadError>)
        ensures
            match read_i16_spec(old(self)@) {
                Ok((value, rest)) => result == Ok::<i16, PayloadError>(value) && final(self)@
                    == rest,
                Err(fault) => result matches Err(error) && error@ == fault && final(self)@ == old(
                    self,
                )@,
            },
    {
        let bytes = self.consume_next(2)?;
        assert(seq![bytes@[0], bytes@[1]] =~= bytes@);
        Ok(i16_from_be(bytes[0], bytes[1]))
    }

    /// Reads the next 32-bit signed integer and moves four bytes on.
    pub fn read_i32(&mut self) -> (result: Result<i32, PayloadError>)
        ensures
            match read_i32_spec(old(self)@) {
                Ok((value, rest)) => result == Ok::<i32, PayloadError>(value) && final(self)@
                    == rest,
                Err(fault) => result matches Err(error) && error@ == fault && final(self)@ == old(
                    self,
                )@,
            },
    {
        let bytes = self.consume_next(4)?;
        assert(seq![bytes@[0], bytes@[1], bytes@[2], bytes@[3]] =~= bytes@);
        Ok(i32_from_be(bytes[0], bytes[1], bytes[2], bytes[3]))
    }

    /// Reads the next 32-bit unsigned integer and moves four bytes on.
    pub fn read_u32(&mut self) -> (result: Result<u32, PayloadError>)
        ensures
            match read_u32_spec(old(self)@) {
                Ok((value, rest)) => result == Ok::<u32, PayloadError>(value) && final(self)@
                    == rest,
                Err(fault) => result matches Err(error) && error@ == fault && final(self)@ == old(
                    self,
                )@,
            },
    {
        let bytes = self.consume_next(4)?;
        assert(seq![bytes@[0], bytes@[1], bytes@[2], bytes@[3]] =~= bytes@);
        Ok(u32_from_be(bytes[0], bytes[1], bytes[2], bytes[3]))
    }

    /// Reads the next 64-bit signed integer and moves eight bytes on.
    pub fn read_i64(&mut self) -> (result: Result<i64, PayloadError>)
        ensures
            match read_i64_spec(old(self)@) {
                Ok((value, rest)) => result == Ok::<i64, PayloadError>(value) && final(self)@
                    == rest,
                Err(fault) => result matches Err(error) && error@ == fault && final(self)@ == old(
                    self,
                )@,
            },
    {
        let bytes = self.consume_next(8)?;
        proof {
            crate::wire::lemma_be_i64_of_prefix(bytes@);
            crate::wire::lemma_be_i64_of_prefix(old(self)@);
        }
        Ok(
            i64_from_be(
                bytes[0],
                bytes[1],
                bytes[2],
                bytes[3],
                bytes[4],
                bytes[5],
                bytes[6],
                bytes[7],
            ),
        )
    }
}

} // verus!
