//! The decoder's general laws, stated over the page model and proved once
//! for all inputs: the decoded count matches the complete records present,
//! encoding a record and decoding it gives the record back, a truncated
//! trailing record never disturbs the samples before it, and a bad header
//! yields nothing but the position-indexed mismatch.

use vstd::prelude::*;

use crate::cursor::spec_i16_le;
use crate::cursor::spec_i32_le;
use crate::errors::FrameError;
use crate::frame::MAGIC_0;
use crate::frame::MAGIC_1;
use crate::frame::MAGIC_2;
use crate::frame::MAGIC_3;
use crate::frame::TAG_ACCEL;
use crate::frame::TAG_BARO;
use crate::frame::TAG_GYRO;
use crate::frame::spec_frames;
use crate::frame::spec_header_result;
use crate::frame::spec_magic;
use crate::frame::spec_page_result;
use crate::frame::spec_page_samples;
use crate::sample::Sample;
use crate::sample::spec_accel_sample;
use crate::sample::spec_baro_sample;
use crate::sample::spec_gyro_sample;

verus! {

/// How many complete, recognized doubled-tag records the framing loop meets
/// from `pos` before it stops — at the end of the page, at an incomplete
/// trailing record, or at an unknown doubled tag.
pub open spec fn spec_complete_record_count(bytes: Seq<u8>, pos: int) -> nat
    decreases bytes.len() - pos,
{
    if pos < 0 || pos + 2 > bytes.len() {
        0
    } else if bytes[pos] != bytes[pos + 1] {
        spec_complete_record_count(bytes, pos + 1)
    } else if bytes[pos] == TAG_ACCEL || bytes[pos] == TAG_GYRO {
        if pos + 8 <= bytes.len() {
            1 + spec_complete_record_count(bytes, pos + 8)
        } else {
            0
        }
    } else if bytes[pos] == TAG_BARO {
        if pos + 10 <= bytes.len() {
            1 + spec_complete_record_count(bytes, pos + 10)
        } else {
            0
        }
    } else {
        0
    }
}

/// The framing loop yields exactly one sample per complete record it meets.
proof fn lemma_frames_len(bytes: Seq<u8>, pos: int)
    ensures
        spec_frames(bytes, pos).0.len() == spec_complete_record_count(bytes, pos),
    decreases bytes.len() - pos,
{
    if pos < 0 || pos + 2 > bytes.len() {
    } else if bytes[pos] != bytes[pos + 1] {
        lemma_frames_len(bytes, pos + 1);
    } else if bytes[pos] == TAG_ACCEL || bytes[pos] == TAG_GYRO {
        if pos + 8 <= bytes.len() {
            lemma_frames_len(bytes, pos + 8);
        }
    } else if bytes[pos] == TAG_BARO {
        if pos + 10 <= bytes.len() {
            lemma_frames_len(bytes, pos + 10);
        }
    }
}

/// For every page whose magic header validates, the decoded sample sequence
/// is exactly as long as the number of complete, recognized doubled-tag
/// records present before the loop stops.
pub proof fn lemma_sample_count(bytes: Seq<u8>)
    requires
        spec_header_result(bytes) is Ok,
    ensures
        spec_page_samples(bytes).len() == spec_complete_record_count(bytes, 4),
{
    lemma_frames_len(bytes, 4);
}

/// The two bytes that encode a signed 16-bit value little-endian.
pub open spec fn spec_i16_to_le(v: i16) -> Seq<u8> {
    let u = if v >= 0 {
        v as int
    } else {
        v + 65536
    };
    seq![(u % 256) as u8, (u / 256) as u8]
}

/// The four bytes that encode a signed 32-bit value little-endian.
pub open spec fn spec_i32_to_le(v: i32) -> Seq<u8> {
    let u = if v >= 0 {
        v as int
    } else {
        v + 4294967296
    };
    let lo = u % 65536;
    let hi = u / 65536;
    seq![(lo % 256) as u8, (lo / 256) as u8, (hi % 256) as u8, (hi / 256) as u8]
}

/// Encoding a signed 16-bit value and reading the bytes back is the
/// identity.
pub proof fn lemma_i16_le_round_trip(v: i16)
    ensures
        spec_i16_le(spec_i16_to_le(v)[0], spec_i16_to_le(v)[1]) == v,
{
    let u = if v >= 0 {
        v as int
    } else {
        v + 65536
    };
    assert(0 <= u % 256 < 256 && 0 <= u / 256 < 256 && u % 256 + 256 * (u / 256) == u)
        by (nonlinear_arith)
        requires
            0 <= u < 65536,
    ;
}

/// Encoding a signed 32-bit value and reading the bytes back is the
/// identity.
pub proof fn lemma_i32_le_round_trip(v: i32)
    ensures
        spec_i32_le(
            spec_i32_to_le(v)[0],
            spec_i32_to_le(v)[1],
            spec_i32_to_le(v)[2],
            spec_i32_to_le(v)[3],
        ) == v,
{
    let u = if v >= 0 {
        v as int
    } else {
        v + 4294967296
    };
    let lo = u % 65536;
    let hi = u / 65536;
    vstd::arithmetic::div_mod::lemma_fundamental_div_mod(u, 65536);
    vstd::arithmetic::div_mod::lemma_mod_division_less_than_divisor(u, 65536);
    vstd::arithmetic::div_mod::lemma_div_pos_is_pos(u, 65536);
    assert(0 <= lo < 65536 && 0 <= hi < 65536 && lo + 65536 * hi == u);
    assert(0 <= lo % 256 < 256 && 0 <= lo / 256 < 256 && lo % 256 + 256 * (lo / 256) == lo)
        by (nonlinear_arith)
        requires
            0 <= lo < 65536,
    ;
    assert(0 <= hi % 256 < 256 && 0 <= hi / 256 < 256 && hi % 256 + 256 * (hi / 256) == hi)
        by (nonlinear_arith)
        requires
            0 <= hi < 65536,
    ;
}

/// The wire bytes of one accelerometer record with the given raw axes.
pub open spec fn spec_accel_record_bytes(x: i16, y: i16, z: i16) -> Seq<u8> {
    seq![TAG_ACCEL, TAG_ACCEL] + spec_i16_to_le(x) + spec_i16_to_le(y) + spec_i16_to_le(z)
}

/// The wire bytes of one gyroscope record with the given raw axes.
pub open spec fn spec_gyro_record_bytes(x: i16, y: i16, z: i16) -> Seq<u8> {
    seq![TAG_GYRO, TAG_GYRO] + spec_i16_to_le(x) + spec_i16_to_le(y) + spec_i16_to_le(z)
}

/// The wire bytes of one barometer record with the given raw fields.
pub open spec fn spec_baro_record_bytes(raw_temp: i32, pressure: i32) -> Seq<u8> {
    seq![TAG_BARO, TAG_BARO] + spec_i32_to_le(raw_temp) + spec_i32_to_le(pressure)
}

/// Round trip for an accelerometer record: a page holding the magic header
/// and one encoded record with any raw axes decodes successfully to exactly
/// the sample those axes convert to.
pub proof fn lemma_accel_round_trip(x: i16, y: i16, z: i16)
    ensures
        spec_page_samples(spec_magic() + spec_accel_record_bytes(x, y, z)) == seq![
            spec_accel_sample(x, y, z),
        ],
        spec_page_result(spec_magic() + spec_accel_record_bytes(x, y, z)) == Ok::<
            (),
            FrameError,
        >(()),
{
    let bytes = spec_magic() + spec_accel_record_bytes(x, y, z);
    lemma_i16_le_round_trip(x);
    lemma_i16_le_round_trip(y);
    lemma_i16_le_round_trip(z);
    assert(bytes.len() == 12);
    assert(bytes[0] == MAGIC_0 && bytes[1] == MAGIC_1 && bytes[2] == MAGIC_2 && bytes[3]
        == MAGIC_3);
    assert(bytes[4] == TAG_ACCEL && bytes[5] == TAG_ACCEL);
    assert(bytes[6] == spec_i16_to_le(x)[0] && bytes[7] == spec_i16_to_le(x)[1]);
    assert(bytes[8] == spec_i16_to_le(y)[0] && bytes[9] == spec_i16_to_le(y)[1]);
    assert(bytes[10] == spec_i16_to_le(z)[0] && bytes[11] == spec_i16_to_le(z)[1]);
    assert(spec_frames(bytes, 12).0 =~= Seq::<Sample>::empty());
    assert(spec_frames(bytes, 4).0 =~= seq![spec_accel_sample(x, y, z)]);
}

/// Round trip for a gyroscope record, as for the accelerometer.
pub proof fn lemma_gyro_round_trip(x: i16, y: i16, z: i16)
    ensures
        spec_page_samples(spec_magic() + spec_gyro_record_bytes(x, y, z)) == seq![
            spec_gyro_sample(x, y, z),
        ],
        spec_page_result(spec_magic() + spec_gyro_record_bytes(x, y, z)) == Ok::<
            (),
            FrameError,
        >(()),
{
    let bytes = spec_magic() + spec_gyro_record_bytes(x, y, z);
    lemma_i16_le_round_trip(x);
    lemma_i16_le_round_trip(y);
    lemma_i16_le_round_trip(z);
    assert(bytes.len() == 12);
    assert(bytes[0] == MAGIC_0 && bytes[1] == MAGIC_1 && bytes[2] == MAGIC_2 && bytes[3]
        == MAGIC_3);
    assert(bytes[4] == TAG_GYRO && bytes[5] == TAG_GYRO);
    assert(bytes[6] == spec_i16_to_le(x)[0] && bytes[7] == spec_i16_to_le(x)[1]);
    assert(bytes[8] == spec_i16_to_le(y)[0] && bytes[9] == spec_i16_to_le(y)[1]);
    assert(bytes[10] == spec_i16_to_le(z)[0] && bytes[11] == spec_i16_to_le(z)[1]);
    assert(spec_frames(bytes, 12).0 =~= Seq::<Sample>::empty());
    assert(spec_frames(bytes, 4).0 =~= seq![spec_gyro_sample(x, y, z)]);
}

/// Round trip for a barometer record: any raw temperature and pressure come
/// back as the converted sample, with the exact centikelvin conversion.
pub proof fn lemma_baro_round_trip(raw_temp: i32, pressure: i32)
    ensures
        spec_page_samples(spec_magic() + spec_baro_record_bytes(raw_temp, pressure)) == seq![
            spec_baro_sample(raw_temp, pressure),
        ],
        spec_page_result(spec_magic() + spec_baro_record_bytes(raw_temp, pressure)) == Ok::<
            (),
            FrameError,
        >(()),
{
    let bytes = spec_magic() + spec_baro_record_bytes(raw_temp, pressure);
    lemma_i32_le_round_trip(raw_temp);
    lemma_i32_le_round_trip(pressure);
    assert(bytes.len() == 14);
    assert(bytes[0] == MAGIC_0 && bytes[1] == MAGIC_1 && bytes[2] == MAGIC_2 && bytes[3]
        == MAGIC_3);
    assert(bytes[4] == TAG_BARO && bytes[5] == TAG_BARO);
    assert(bytes[6] == spec_i32_to_le(raw_temp)[0] && bytes[7] == spec_i32_to_le(raw_temp)[1]
        && bytes[8] == spec_i32_to_le(raw_temp)[2] && bytes[9] == spec_i32_to_le(raw_temp)[3]);
    assert(bytes[10] == spec_i32_to_le(pressure)[0] && bytes[11] == spec_i32_to_le(pressure)[1]
        && bytes[12] == spec_i32_to_le(pressure)[2] && bytes[13] == spec_i32_to_le(pressure)[3]);
    assert(spec_frames(bytes, 14).0 =~= Seq::<Sample>::empty());
    assert(spec_frames(bytes, 4).0 =~= seq![spec_baro_sample(raw_temp, pressure)]);
}

/// Bytes appended after everything a framing parse consumed do not disturb
/// it: when the parse from `pos` stops exactly at the end of `bytes`, the
/// parse of `bytes + extra` finds the same samples first and then continues
/// at the old end.
proof fn lemma_frames_extend(bytes: Seq<u8>, extra: Seq<u8>, pos: int)
    requires
        0 <= pos,
        spec_frames(bytes, pos).2 == bytes.len(),
    ensures
        spec_frames(bytes + extra, pos).0 == spec_frames(bytes, pos).0 + spec_frames(
            bytes + extra,
            bytes.len() as int,
        ).0,
        spec_frames(bytes + extra, pos).1 == spec_frames(bytes + extra, bytes.len() as int).1,
    decreases bytes.len() - pos,
{
    let ext = bytes + extra;
    if pos + 2 > bytes.len() {
        assert(pos == bytes.len());
        assert(spec_frames(bytes, pos).0 =~= Seq::<Sample>::empty());
        assert(spec_frames(ext, pos).0 =~= spec_frames(bytes, pos).0 + spec_frames(
            ext,
            bytes.len() as int,
        ).0);
    } else if bytes[pos] != bytes[pos + 1] {
        lemma_frames_extend(bytes, extra, pos + 1);
    } else if bytes[pos] == TAG_ACCEL || bytes[pos] == TAG_GYRO {
        assert(pos + 8 <= bytes.len());
        lemma_frames_extend(bytes, extra, pos + 8);
        assert(spec_frames(ext, pos).0 =~= spec_frames(bytes, pos).0 + spec_frames(
            ext,
            bytes.len() as int,
        ).0);
    } else if bytes[pos] == TAG_BARO {
        assert(pos + 10 <= bytes.len());
        lemma_frames_extend(bytes, extra, pos + 10);
        assert(spec_frames(ext, pos).0 =~= spec_frames(bytes, pos).0 + spec_frames(
            ext,
            bytes.len() as int,
        ).0);
    } else {
        assert(false);
    }
}

/// A page truncated mid-record is a clean end: appending a doubled known
/// tag with too few payload bytes to a page that parses completely leaves
/// the decoded samples unchanged, and the page still decodes without error.
pub proof fn lemma_truncated_tail_is_clean(bytes: Seq<u8>, tag: u8, payload: Seq<u8>)
    requires
        spec_header_result(bytes) is Ok,
        spec_frames(bytes, 4).2 == bytes.len(),
        tag == TAG_ACCEL || tag == TAG_GYRO || tag == TAG_BARO,
        payload.len() < (if tag == TAG_BARO {
            8int
        } else {
            6int
        }),
    ensures
        spec_page_samples(bytes + (seq![tag, tag] + payload)) == spec_page_samples(bytes),
        spec_page_result(bytes + (seq![tag, tag] + payload)) == Ok::<(), FrameError>(()),
{
    let extra = seq![tag, tag] + payload;
    let ext = bytes + extra;
    let l = bytes.len() as int;
    assert(bytes.len() >= 4);
    assert(ext[0] == bytes[0] && ext[1] == bytes[1] && ext[2] == bytes[2] && ext[3] == bytes[3]);
    assert(spec_header_result(ext) is Ok);
    lemma_frames_extend(bytes, extra, 4);
    assert(ext[l] == tag && ext[l + 1] == tag);
    assert(ext.len() == l + 2 + payload.len());
    assert(spec_frames(ext, l).0 =~= Seq::<Sample>::empty());
    assert(spec_page_samples(ext) =~= spec_page_samples(bytes));
}

/// A header mismatch yields nothing: when the first magic byte that
/// disagrees is at index `i`, the page decodes to no samples at all and to
/// exactly the mismatch report for that index.
pub proof fn lemma_header_mismatch(bytes: Seq<u8>, i: int)
    requires
        0 <= i < 4,
        forall|j: int| 0 <= j < i ==> j < bytes.len() && bytes[j] == spec_magic()[j],
        i < bytes.len(),
        bytes[i] != spec_magic()[i],
    ensures
        spec_page_samples(bytes) == Seq::<Sample>::empty(),
        spec_page_result(bytes) == Err::<(), FrameError>(
            FrameError::Unexpected {
                expected: spec_magic()[i],
                got: bytes[i],
                index: i as usize,
            },
        ),
{
    assert(spec_magic()[0] == MAGIC_0 && spec_magic()[1] == MAGIC_1 && spec_magic()[2] == MAGIC_2
        && spec_magic()[3] == MAGIC_3);
    if i == 0 {
    } else if i == 1 {
        assert(bytes[0] == MAGIC_0);
    } else if i == 2 {
        assert(bytes[0] == MAGIC_0 && bytes[1] == MAGIC_1);
    } else {
        assert(bytes[0] == MAGIC_0 && bytes[1] == MAGIC_1 && bytes[2] == MAGIC_2);
    }
}

} // verus!
