//! Bounds-checked sequential reader over an immutable byte buffer.

use vstd::prelude::*;

use crate::errors::FrameError;

verus! {

/// The signed two's-complement 16-bit value that the two bytes encode in
/// little-endian order.
pub open spec fn spec_i16_le(b0: u8, b1: u8) -> i16 {
    let u = b0 + 256 * b1;
    if u < 32768 {
        u as i16
    } else {
        (u - 65536) as i16
    }
}

/// The signed two's-complement 32-bit value that the four bytes encode in
/// little-endian order.
pub open spec fn spec_i32_le(b0: u8, b1: u8, b2: u8, b3: u8) -> i32 {
    let u = b0 + 256 * b1 + 65536 * b2 + 16777216 * b3;
    if u < 2147483648 {
        u as i32
    } else {
        (u - 4294967296) as i32
    }
}

/// A cursor over an immutable byte buffer with a single mutable offset.
///
/// The offset never exceeds the buffer length; every read is checked against
/// the remaining length before the offset moves, so a failed read leaves the
/// cursor where it was.
pub struct Decoder {
    data: Vec<u8>,
    offset: usize,
}

impl Decoder {
    /// The underlying buffer, as a mathematical byte sequence.
    pub closed spec fn bytes(&self) -> Seq<u8> {
        self.data@
    }

    /// The current read offset.
    pub closed spec fn pos(&self) -> int {
        self.offset as int
    }

    /// The cursor never points past the end of the buffer.
    pub open spec fn wf(&self) -> bool {
        0 <= self.pos() <= self.bytes().len()
    }

    /// Wraps a buffer with the offset at its start.
    pub fn new(data: Vec<u8>) -> (d: Decoder)
        ensures
            d.wf(),
            d.bytes() == data@,
            d.pos() == 0,
    {
        Decoder { data, offset: 0 }
    }

    /// The current offset, as a value.
    pub fn position(&self) -> (r: usize)
        ensures
            r == self.pos(),
    {
        self.offset
    }

    /// Checks that `more` bytes remain past the offset, without moving it.
    pub fn ensure_available(&self, more: usize) -> (r: Result<(), FrameError>)
        requires
            self.wf(),
        ensures
            self.bytes().len() <= usize::MAX,
            match r {
                Ok(()) => self.pos() + more <= self.bytes().len(),
                Err(e) => e == FrameError::BufferUnderflow && self.pos() + more
                    > self.bytes().len(),
            },
    {
        if self.data.len() - self.offset >= more {
            Ok(())
        } else {
            Err(FrameError::BufferUnderflow)
        }
    }

    /// Returns the byte at the offset without advancing.
    pub fn peek(&mut self) -> (r: Result<u8, FrameError>)
        requires
            old(self).wf(),
        ensures
            *final(self) == *old(self),
            match r {
                Ok(b) => old(self).pos() < old(self).bytes().len() && b == old(self).bytes()[old(
                    self,
                ).pos()],
                Err(e) => e == FrameError::BufferUnderflow && old(self).pos() >= old(
                    self,
                ).bytes().len(),
            },
    {
        match self.ensure_available(1) {
            Ok(()) => Ok(self.data[self.offset]),
            Err(e) => Err(e),
        }
    }

    /// Returns the byte at the offset and advances past it.
    pub fn next(&mut self) -> (r: Result<u8, FrameError>)
        requires
            old(self).wf(),
        ensures
            final(self).wf(),
            final(self).bytes() == old(self).bytes(),
            match r {
                Ok(b) => old(self).pos() < old(self).bytes().len() && b == old(self).bytes()[old(
                    self,
                ).pos()] && final(self).pos() == old(self).pos() + 1,
                Err(e) => e == FrameError::BufferUnderflow && old(self).pos() >= old(
                    self,
                ).bytes().len() && final(self).pos() == old(self).pos(),
            },
    {
        match self.ensure_available(1) {
            Ok(()) => {
                let offset = self.offset;
                self.offset = self.offset + 1;
                Ok(self.data[offset])
            },
            Err(e) => Err(e),
        }
    }

    /// Consumes one byte that must equal `expected`; on a mismatch reports
    /// the expected byte, the byte found, and its index.
    pub fn expect(&mut self, expected: u8) -> (r: Result<(), FrameError>)
        requires
            old(self).wf(),
        ensures
            final(self).wf(),
            final(self).bytes() == old(self).bytes(),
            match r {
                Ok(()) => old(self).pos() < old(self).bytes().len() && old(self).bytes()[old(
                    self,
                ).pos()] == expected && final(self).pos() == old(self).pos() + 1,
                Err(e) => match e {
                    FrameError::BufferUnderflow => old(self).pos() >= old(self).bytes().len()
                        && final(self).pos() == old(self).pos(),
                    FrameError::Unexpected { expected: exp, got, index } => old(self).pos() < old(
                        self,
                    ).bytes().len() && exp == expected && got == old(self).bytes()[old(self).pos()]
                        && got != expected && index == old(self).pos() && final(self).pos() == old(
                        self,
                    ).pos() + 1,
                    FrameError::UnknownTag { .. } => false,
                },
            },
    {
        match self.next() {
            Ok(got) => {
                if got == expected {
                    Ok(())
                } else {
                    Err(FrameError::Unexpected { expected, got, index: self.offset - 1 })
                }
            },
            Err(e) => Err(e),
        }
    }

    /// Tries to consume a doubled tag: reads one byte and peeks the next.
    /// When the two are equal, both are consumed and the tag is returned;
    /// when they differ, only the first is consumed and `None` is returned,
    /// so the caller can resynchronize on the following byte.
    pub fn expect_same_chars(&mut self) -> (r: Result<Option<u8>, FrameError>)
        requires
            old(self).wf(),
        ensures
            final(self).wf(),
            final(self).bytes() == old(self).bytes(),
            match r {
                Ok(t) => match t {
                    Some(c) => old(self).pos() + 2 <= old(self).bytes().len() && old(
                        self,
                    ).bytes()[old(self).pos()] == c && old(self).bytes()[old(self).pos() + 1] == c
                        && final(self).pos() == old(self).pos() + 2,
                    None => old(self).pos() + 2 <= old(self).bytes().len() && old(self).bytes()[old(
                        self,
                    ).pos()] != old(self).bytes()[old(self).pos() + 1] && final(self).pos() == old(
                        self,
                    ).pos() + 1,
                },
                Err(e) => e == FrameError::BufferUnderflow && old(self).pos() + 2 > old(
                    self,
                ).bytes().len() && final(self).pos() == (if old(self).pos() < old(
                    self,
                ).bytes().len() {
                    old(self).pos() + 1
                } else {
                    old(self).pos()
                }),
            },
    {
        let first = match self.next() {
            Ok(b) => b,
            Err(e) => {
                return Err(e);
            },
        };
        let second = match self.peek() {
            Ok(b) => b,
            Err(e) => {
                return Err(e);
            },
        };
        if first == second {
            match self.next() {
                Ok(c) => Ok(Some(c)),
                Err(e) => Err(e),
            }
        } else {
            Ok(None)
        }
    }

    /// Reads `N` bytes as a copy and advances past them; when fewer remain,
    /// the offset does not move, so the read either fully succeeds or has no
    /// effect.
    pub fn read_buf<const N: usize>(&mut self) -> (r: Result<[u8; N], FrameError>)
        requires
            old(self).wf(),
        ensures
            final(self).wf(),
            final(self).bytes() == old(self).bytes(),
            match r {
                Ok(buf) => old(self).pos() + N <= old(self).bytes().len() && buf@ == old(
                    self,
                ).bytes().subrange(old(self).pos(), old(self).pos() + N) && final(self).pos()
                    == old(self).pos() + N,
                Err(e) => e == FrameError::BufferUnderflow && old(self).pos() + N > old(
                    self,
                ).bytes().len() && final(self).pos() == old(self).pos(),
            },
    {
        match self.ensure_available(N) {
            Ok(()) => {
                let mut buf: [u8; N] = [0u8; N];
                let mut i: usize = 0;
                while i < N
                    invariant
                        self.wf(),
                        *self == *old(self),
                        0 <= i <= N,
                        self.pos() + N <= self.bytes().len(),
                        self.bytes().len() <= usize::MAX,
                        buf@.len() == N,
                        forall|j: int| 0 <= j < i ==> buf@[j] == self.bytes()[self.pos() + j],
                    decreases N - i,
                {
                    buf[i] = self.data[self.offset + i];
                    i = i + 1;
                }
                proof {
                    assert(buf@ =~= old(self).bytes().subrange(
                        old(self).pos(),
                        old(self).pos() + N,
                    ));
                }
                self.offset = self.offset + N;
                Ok(buf)
            },
            Err(e) => Err(e),
        }
    }

    /// Reads two bytes as a signed little-endian 16-bit integer.
    pub fn read_little_i16(&mut self) -> (r: Result<i16, FrameError>)
        requires
            old(self).wf(),
        ensures
            final(self).wf(),
            final(self).bytes() == old(self).bytes(),
            match r {
                Ok(v) => old(self).pos() + 2 <= old(self).bytes().len() && v == spec_i16_le(
                    old(self).bytes()[old(self).pos()],
                    old(self).bytes()[old(self).pos() + 1],
                ) && final(self).pos() == old(self).pos() + 2,
                Err(e) => e == FrameError::BufferUnderflow && old(self).pos() + 2 > old(
                    self,
                ).bytes().len() && final(self).pos() == old(self).pos(),
            },
    {
        let bytes: [u8; 2] = match self.read_buf::<2>() {
            Ok(b) => b,
            Err(e) => {
                return Err(e);
            },
        };
        let u: u16 = bytes[0] as u16 + (bytes[1] as u16) * 256;
        if u < 32768 {
            Ok(u as i16)
        } else {
            Ok(((u - 32768) as i16) - 32767 - 1)
        }
    }

    /// Reads four bytes as a signed little-endian 32-bit integer.
    pub fn read_little_i32(&mut self) -> (r: Result<i32, FrameError>)
        requires
            old(self).wf(),
        ensures
            final(self).wf(),
            final(self).bytes() == old(self).bytes(),
            match r {
                Ok(v) => old(self).pos() + 4 <= old(self).bytes().len() && v == spec_i32_le(
                    old(self).bytes()[old(self).pos()],
                    old(self).bytes()[old(self).pos() + 1],
                    old(self).bytes()[old(self).pos() + 2],
                    old(self).bytes()[old(self).pos() + 3],
                ) && final(self).pos() == old(self).pos() + 4,
                Err(e) => e == FrameError::BufferUnderflow && old(self).pos() + 4 > old(
                    self,
                ).bytes().len() && final(self).pos() == old(self).pos(),
            },
    {
        let bytes: [u8; 4] = match self.read_buf::<4>() {
            Ok(b) => b,
            Err(e) => {
                return Err(e);
            },
        };
        let u: u32 = bytes[0] as u32 + (bytes[1] as u32) * 256 + (bytes[2] as u32) * 65536 + (
        bytes[3] as u32) * 16777216;
        if u < 2147483648 {
            Ok(u as i32)
        } else {
            Ok(((u - 2147483648) as i32) - 2147483647 - 1)
        }
    }

    /// The index of the byte consumed last, or zero when none was.
    pub fn last_offset(&self) -> (r: usize)
        ensures
            r == if self.pos() == 0 {
                0int
            } else {
                self.pos() - 1
            },
    {
        if self.offset == 0 {
            0
        } else {
            self.offset - 1
        }
    }
}

} // verus!
