//! The report codec: the wire-exact binary layout of one pedal sample.
//!
//! A sample is a single signed axis value in the symmetric range
//! [-127, 127]; it travels as exactly one byte, the two's-complement
//! representation of the value. The value -128, though an `i8`, lies
//! outside the descriptor's declared logical range and is rejected.

use vstd::prelude::*;

verus! {

/// One telemetry sample: the pedal's axis position on the Y axis.
#[derive(Clone, Copy, Debug, PartialEq, Eq, Structural)]
pub struct PedalReport {
    pub y: i8,
}

impl PedalReport {
    /// The axis value lies within the symmetric logical range the
    /// descriptor advertises: -127 through 127. Only -128 is excluded.
    pub open spec fn valid(self) -> bool {
        -127 <= self.y as int
    }
}

impl Default for PedalReport {
    fn default() -> (r: Self)
        ensures
            r.y == 0,
            r.valid(),
    {
        PedalReport { y: 0 }
    }
}

/// Failure of the codec: the value cannot be represented in the wire
/// format's declared range.
#[derive(Clone, Copy, Debug, PartialEq, Eq, Structural)]
pub enum CodecError {
    SerializationError,
}

/// Number of bytes in one encoded report.
pub open spec fn spec_encoded_len() -> int {
    1
}

/// Two's-complement single-byte encoding of an axis value.
pub open spec fn spec_encode_byte(v: int) -> u8
    recommends
        -127 <= v <= 127,
{
    if v >= 0 {
        v as u8
    } else {
        (v + 256) as u8
    }
}

/// The axis value read back from one encoded byte.
pub open spec fn spec_decode_axis(b: u8) -> int {
    if b < 128 {
        b as int
    } else {
        b as int - 256
    }
}

/// Encode one report as its single-byte wire form. Succeeds exactly on
/// the valid range; an out-of-range value is refused with a
/// serialization error, never wrapped or truncated.
pub fn encode(report: &PedalReport) -> (r: Result<[u8; 1], CodecError>)
    ensures
        r is Ok <==> report.valid(),
        report.valid() ==> (r matches Ok(bytes)
            && bytes@.len() == spec_encoded_len()
            && bytes@[0] == spec_encode_byte(report.y as int)),
        !report.valid() ==> r == Err::<[u8; 1], CodecError>(CodecError::SerializationError),
{
    if report.y == -128 {
        Err(CodecError::SerializationError)
    } else {
        let b: u8 = if report.y >= 0 {
            report.y as u8
        } else {
            ((report.y as i16) + 256) as u8
        };
        let bytes: [u8; 1] = [b];
        Ok(bytes)
    }
}

/// Decode one wire byte back into a report: the inverse of `encode`.
/// The byte 0x80 (two's complement of -128) is outside the descriptor's
/// logical range and is refused.
pub fn decode(bytes: &[u8; 1]) -> (r: Result<PedalReport, CodecError>)
    ensures
        r is Ok <==> bytes@[0] != 0x80,
        r matches Ok(rep) ==> rep.y as int == spec_decode_axis(bytes@[0]) && rep.valid(),
        bytes@[0] == 0x80 ==> r == Err::<PedalReport, CodecError>(CodecError::SerializationError),
{
    let b: u8 = bytes[0];
    if b == 0x80 {
        Err(CodecError::SerializationError)
    } else if b < 128 {
        Ok(PedalReport { y: b as i8 })
    } else {
        Ok(PedalReport { y: ((b as i16) - 256) as i8 })
    }
}

/// Round-trip law: decoding the encoding of any axis value in the valid
/// range gives back exactly that value.
pub proof fn lemma_encode_decode_round_trip(v: int)
    requires
        -127 <= v <= 127,
    ensures
        spec_decode_axis(spec_encode_byte(v)) == v,
{
}

/// Inverse round trip: every byte other than 0x80 decodes to a value
/// that encodes back to the same byte.
pub proof fn lemma_decode_encode_round_trip(b: u8)
    requires
        b != 0x80,
    ensures
        spec_encode_byte(spec_decode_axis(b)) == b,
{
}

} // verus!
