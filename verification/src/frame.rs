//! The page decoder: magic-header validation and the doubled-tag framing
//! loop.
//!
//! A page starts with the four magic bytes `N`, `O`, `V`, `A`. After them,
//! records are framed by a doubled tag byte: a tag is accepted only when the
//! same byte appears twice in a row, which keeps a stray payload byte from
//! being mistaken for a record boundary. When two consecutive bytes differ,
//! one byte is skipped and the scan retries on the next — the resynchronizing
//! policy, chosen over treating a lone unmatched byte as fatal. A doubled
//! byte outside the known tags is fatal for the page, since it means either
//! a newer protocol or corruption past what resynchronization can absorb.
//! Running out of bytes, before or inside a record, is the normal end of a
//! page: the samples already decoded stand, and no error is reported.

use vstd::prelude::*;
use vstd::slice::slice_to_vec;

use crate::cursor::Decoder;
use crate::cursor::spec_i16_le;
use crate::cursor::spec_i32_le;
use crate::errors::FrameError;
use crate::sample::Sample;
use crate::sample::convert_accel;
use crate::sample::convert_baro;
use crate::sample::convert_gyro;
use crate::sample::spec_accel_sample;
use crate::sample::spec_baro_sample;
use crate::sample::spec_gyro_sample;

verus! {

/// The magic header bytes, in page order: the ASCII letters N, O, V, A.
pub const MAGIC_0: u8 = 78;

pub const MAGIC_1: u8 = 79;

pub const MAGIC_2: u8 = 86;

pub const MAGIC_3: u8 = 65;

/// The tag byte of an accelerometer record: ASCII A.
pub const TAG_ACCEL: u8 = 65;

/// The tag byte of a gyroscope record: ASCII G.
pub const TAG_GYRO: u8 = 71;

/// The tag byte of a barometer record: ASCII B.
pub const TAG_BARO: u8 = 66;

/// The four-byte magic sequence that every page must start with.
pub open spec fn spec_magic() -> Seq<u8> {
    seq![MAGIC_0, MAGIC_1, MAGIC_2, MAGIC_3]
}

/// What checking for `expected` at index `i` yields: underflow past the end,
/// success on a match, and the position-indexed mismatch report otherwise.
pub open spec fn spec_expect_at(bytes: Seq<u8>, i: int, expected: u8) -> Result<
    (),
    FrameError,
> {
    if i >= bytes.len() {
        Err(FrameError::BufferUnderflow)
    } else if bytes[i] == expected {
        Ok(())
    } else {
        Err(FrameError::Unexpected { expected, got: bytes[i], index: i as usize })
    }
}

/// The outcome of validating the magic header: the first failing byte wins.
pub open spec fn spec_header_result(bytes: Seq<u8>) -> Result<(), FrameError> {
    if spec_expect_at(bytes, 0, MAGIC_0) is Err {
        spec_expect_at(bytes, 0, MAGIC_0)
    } else if spec_expect_at(bytes, 1, MAGIC_1) is Err {
        spec_expect_at(bytes, 1, MAGIC_1)
    } else if spec_expect_at(bytes, 2, MAGIC_2) is Err {
        spec_expect_at(bytes, 2, MAGIC_2)
    } else if spec_expect_at(bytes, 3, MAGIC_3) is Err {
        spec_expect_at(bytes, 3, MAGIC_3)
    } else {
        Ok(())
    }
}

/// The framing loop, modelled from position `pos`: the samples it decodes,
/// the outcome it ends with, and the position where it stopped.
///
/// Running out of bytes — whether while looking for a tag pair or inside a
/// record's payload — ends the page cleanly with `Ok`. An unmatched pair
/// skips one byte. A doubled byte outside the known tags stops the page with
/// `UnknownTag` at the position of its first copy.
pub open spec fn spec_frames(bytes: Seq<u8>, pos: int) -> (Seq<Sample>, Result<
    (),
    FrameError,
>, int)
    decreases bytes.len() - pos,
{
    if pos < 0 || pos + 2 > bytes.len() {
        (Seq::<Sample>::empty(), Ok(()), pos)
    } else if bytes[pos] != bytes[pos + 1] {
        spec_frames(bytes, pos + 1)
    } else if bytes[pos] == TAG_ACCEL || bytes[pos] == TAG_GYRO {
        if pos + 8 <= bytes.len() {
            let x = spec_i16_le(bytes[pos + 2], bytes[pos + 3]);
            let y = spec_i16_le(bytes[pos + 4], bytes[pos + 5]);
            let z = spec_i16_le(bytes[pos + 6], bytes[pos + 7]);
            let s = if bytes[pos] == TAG_ACCEL {
                spec_accel_sample(x, y, z)
            } else {
                spec_gyro_sample(x, y, z)
            };
            let rest = spec_frames(bytes, pos + 8);
            (seq![s] + rest.0, rest.1, rest.2)
        } else {
            (Seq::<Sample>::empty(), Ok(()), pos)
        }
    } else if bytes[pos] == TAG_BARO {
        if pos + 10 <= bytes.len() {
            let t = spec_i32_le(bytes[pos + 2], bytes[pos + 3], bytes[pos + 4], bytes[pos + 5]);
            let p = spec_i32_le(bytes[pos + 6], bytes[pos + 7], bytes[pos + 8], bytes[pos + 9]);
            let rest = spec_frames(bytes, pos + 10);
            (seq![spec_baro_sample(t, p)] + rest.0, rest.1, rest.2)
        } else {
            (Seq::<Sample>::empty(), Ok(()), pos)
        }
    } else {
        (
            Seq::<Sample>::empty(),
            Err(FrameError::UnknownTag { tag: bytes[pos], index: pos as usize }),
            pos,
        )
    }
}

/// The samples one page decodes to: none unless the header validates.
pub open spec fn spec_page_samples(bytes: Seq<u8>) -> Seq<Sample> {
    if spec_header_result(bytes) is Ok {
        spec_frames(bytes, 4).0
    } else {
        Seq::<Sample>::empty()
    }
}

/// The outcome of decoding one page: a header failure, or else the outcome
/// of the framing loop.
pub open spec fn spec_page_result(bytes: Seq<u8>) -> Result<(), FrameError> {
    match spec_header_result(bytes) {
        Ok(()) => spec_frames(bytes, 4).1,
        Err(e) => Err(e),
    }
}

/// When the framing loop has nothing more to decode from `pos`, the samples
/// gathered so far are exactly the page's samples.
proof fn lemma_loop_done(msgs: Seq<Sample>, base: Seq<Sample>, bytes: Seq<u8>, pos: int)
    requires
        spec_header_result(bytes) is Ok,
        base.len() <= msgs.len(),
        msgs.subrange(0, base.len() as int) == base,
        spec_frames(bytes, 4).0 == msgs.skip(base.len() as int) + spec_frames(bytes, pos).0,
        spec_frames(bytes, pos).0 == Seq::<Sample>::empty(),
    ensures
        msgs == base + spec_page_samples(bytes),
{
    assert(spec_page_samples(bytes) =~= msgs.skip(base.len() as int));
    assert(msgs =~= base + spec_page_samples(bytes));
}

/// Decodes one page, appending every decoded sample to `messages` in wire
/// order.
///
/// Decoding is a pure function of the page bytes: the samples appended and
/// the outcome returned are exactly `spec_page_samples` and
/// `spec_page_result` of the buffer. Running out of bytes is the clean end
/// of the page, returned as `Ok`; a header mismatch or an unknown doubled
/// tag stops the page with the error, a header mismatch before anything is
/// appended.
pub fn read_page(bytes: &[u8], messages: &mut Vec<Sample>) -> (r: Result<(), FrameError>)
    ensures
        final(messages)@ == old(messages)@ + spec_page_samples(bytes@),
        r == spec_page_result(bytes@),
{
    let ghost prefix_len = old(messages)@.len() as int;
    let mut d = Decoder::new(slice_to_vec(bytes));
    match d.expect(MAGIC_0) {
        Ok(()) => {},
        Err(e) => {
            proof {
                assert(messages@ =~= old(messages)@ + spec_page_samples(bytes@));
            }
            return Err(e);
        },
    }
    match d.expect(MAGIC_1) {
        Ok(()) => {},
        Err(e) => {
            proof {
                assert(messages@ =~= old(messages)@ + spec_page_samples(bytes@));
            }
            return Err(e);
        },
    }
    match d.expect(MAGIC_2) {
        Ok(()) => {},
        Err(e) => {
            proof {
                assert(messages@ =~= old(messages)@ + spec_page_samples(bytes@));
            }
            return Err(e);
        },
    }
    match d.expect(MAGIC_3) {
        Ok(()) => {},
        Err(e) => {
            proof {
                assert(messages@ =~= old(messages)@ + spec_page_samples(bytes@));
            }
            return Err(e);
        },
    }
    loop
        invariant
            d.wf(),
            d.bytes() == bytes@,
            4 <= d.pos(),
            spec_header_result(bytes@) is Ok,
            prefix_len == old(messages)@.len(),
            prefix_len <= messages@.len(),
            messages@.subrange(0, prefix_len) == old(messages)@,
            spec_frames(bytes@, 4).0 == messages@.skip(prefix_len) + spec_frames(
                bytes@,
                d.pos(),
            ).0,
            spec_frames(bytes@, 4).1 == spec_frames(bytes@, d.pos()).1,
        decreases bytes@.len() - d.pos(),
    {
        let ghost pos0 = d.pos();
        let tag_index = d.position();
        match d.expect_same_chars() {
            Err(_) => {
                proof {
                    lemma_loop_done(messages@, old(messages)@, bytes@, pos0);
                }
                return Ok(());
            },
            Ok(None) => {
                proof {
                    assert(spec_frames(bytes@, pos0) == spec_frames(bytes@, pos0 + 1));
                }
            },
            Ok(Some(c)) => {
                if c == TAG_ACCEL || c == TAG_GYRO {
                    let x = match d.read_little_i16() {
                        Ok(v) => v,
                        Err(_) => {
                            proof {
                                lemma_loop_done(messages@, old(messages)@, bytes@, pos0);
                            }
                            return Ok(());
                        },
                    };
                    let y = match d.read_little_i16() {
                        Ok(v) => v,
                        Err(_) => {
                            proof {
                                lemma_loop_done(messages@, old(messages)@, bytes@, pos0);
                            }
                            return Ok(());
                        },
                    };
                    let z = match d.read_little_i16() {
                        Ok(v) => v,
                        Err(_) => {
                            proof {
                                lemma_loop_done(messages@, old(messages)@, bytes@, pos0);
                            }
                            return Ok(());
                        },
                    };
                    let s = if c == TAG_ACCEL {
                        convert_accel(x, y, z)
                    } else {
                        convert_gyro(x, y, z)
                    };
                    let ghost ms0 = messages@;
                    messages.push(s);
                    proof {
                        let rest = spec_frames(bytes@, pos0 + 8);
                        assert(spec_frames(bytes@, pos0).0 =~= seq![s] + rest.0);
                        assert(messages@.subrange(0, prefix_len) =~= old(messages)@);
                        assert(messages@.skip(prefix_len) =~= ms0.skip(prefix_len) + seq![s]);
                        assert(spec_frames(bytes@, 4).0 =~= messages@.skip(prefix_len) + rest.0);
                    }
                } else if c == TAG_BARO {
                    let temp = match d.read_little_i32() {
                        Ok(v) => v,
                        Err(_) => {
                            proof {
                                lemma_loop_done(messages@, old(messages)@, bytes@, pos0);
                            }
                            return Ok(());
                        },
                    };
                    let pressure = match d.read_little_i32() {
                        Ok(v) => v,
                        Err(_) => {
                            proof {
                                lemma_loop_done(messages@, old(messages)@, bytes@, pos0);
                            }
                            return Ok(());
                        },
                    };
                    let s = convert_baro(temp, pressure);
                    let ghost ms0 = messages@;
                    messages.push(s);
                    proof {
                        let rest = spec_frames(bytes@, pos0 + 10);
                        assert(spec_frames(bytes@, pos0).0 =~= seq![s] + rest.0);
                        assert(messages@.subrange(0, prefix_len) =~= old(messages)@);
                        assert(messages@.skip(prefix_len) =~= ms0.skip(prefix_len) + seq![s]);
                        assert(spec_frames(bytes@, 4).0 =~= messages@.skip(prefix_len) + rest.0);
                    }
                } else {
                    proof {
                        lemma_loop_done(messages@, old(messages)@, bytes@, pos0);
                    }
                    return Err(FrameError::UnknownTag { tag: c, index: tag_index });
                }
            },
        }
    }
}

} // verus!
