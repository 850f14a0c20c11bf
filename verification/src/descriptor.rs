//! The HID report descriptor: a fixed byte sequence, written once and
//! never regenerated, that advertises to the host one application
//! collection holding one physical Pointer collection with a single
//! 8-bit signed absolute field on the Y axis.
//!
//! The descriptor and the report codec describe the same wire format
//! from two sides; the laws at the bottom of this module pin their
//! agreement down: the declared logical range is exactly the codec's
//! valid input range, and the declared report width is exactly the
//! codec's encoded length.

use vstd::prelude::*;
use crate::codec::spec_decode_axis;
use crate::codec::spec_encoded_len;

verus! {

/// The descriptor bytes. Each line is one item of the HID report
/// descriptor grammar: a one-byte tag followed by its operand.
pub open spec fn spec_descriptor() -> Seq<u8> {
    seq![
        0x05u8, 0x01, // Usage Page (Generic Desktop)
        0x09, 0x08,   // Usage (Multi-axis Controller)
        0xa1, 0x01,   // Collection (Application)
        0x09, 0x01,   //   Usage (Pointer)
        0xa1, 0x00,   //   Collection (Physical)
        0x09, 0x31,   //     Usage (Y)
        0x15, 0x81,   //     Logical Minimum (-127)
        0x25, 0x7f,   //     Logical Maximum (127)
        0x75, 0x08,   //     Report Size (8)
        0x95, 0x01,   //     Report Count (1)
        0x81, 0x02,   //     Input (Data, Variable, Absolute)
        0xc0,         //   End Collection
        0xc0,         // End Collection
    ]
}

/// The declared logical minimum: the operand of the Logical Minimum
/// item (at byte 13), read as a signed byte.
pub open spec fn spec_logical_min() -> int {
    spec_decode_axis(spec_descriptor()[13])
}

/// The declared logical maximum: the operand of the Logical Maximum
/// item (at byte 15), read as a signed byte.
pub open spec fn spec_logical_max() -> int {
    spec_decode_axis(spec_descriptor()[15])
}

/// The declared size of one report field in bits: the operand of the
/// Report Size item (at byte 17).
pub open spec fn spec_report_size_bits() -> int {
    spec_descriptor()[17] as int
}

/// The declared number of report fields: the operand of the Report
/// Count item (at byte 19).
pub open spec fn spec_report_count() -> int {
    spec_descriptor()[19] as int
}

/// The descriptor bytes in executable form, handed to the USB stack
/// once at device-class construction.
pub fn pedal_descriptor() -> (d: [u8; 24])
    ensures
        d@ == spec_descriptor(),
{
    let d: [u8; 24] = [
        0x05, 0x01, 0x09, 0x08, 0xa1, 0x01, 0x09, 0x01, 0xa1, 0x00, 0x09, 0x31, 0x15, 0x81,
        0x25, 0x7f, 0x75, 0x08, 0x95, 0x01, 0x81, 0x02, 0xc0, 0xc0,
    ];
    assert(d@ =~= spec_descriptor());
    d
}

/// The declared logical minimum as a value.
pub fn descriptor_logical_min() -> (v: i8)
    ensures
        v as int == spec_logical_min(),
{
    proof {
        lemma_descriptor_values();
    }
    -127
}

/// The declared logical maximum as a value.
pub fn descriptor_logical_max() -> (v: i8)
    ensures
        v as int == spec_logical_max(),
{
    proof {
        lemma_descriptor_values();
    }
    127
}

/// The declared values, computed from the descriptor bytes.
pub proof fn lemma_descriptor_values()
    ensures
        spec_logical_min() == -127,
        spec_logical_max() == 127,
        spec_report_size_bits() == 8,
        spec_report_count() == 1,
{
    assert(spec_descriptor()[13] == 0x81);
    assert(spec_descriptor()[15] == 0x7f);
    assert(spec_descriptor()[17] == 0x08);
    assert(spec_descriptor()[19] == 0x01);
}

/// Law: the descriptor's declared logical range is exactly the codec's
/// valid input range — every report the codec accepts lies within
/// [logical minimum, logical maximum], and every value in that range is
/// accepted.
pub proof fn lemma_descriptor_range_matches_codec()
    ensures
        forall|r: crate::codec::PedalReport|
            r.valid() <==> spec_logical_min() <= r.y as int <= spec_logical_max(),
{
    lemma_descriptor_values();
}

/// Law: the descriptor advertises exactly as many report bits as the
/// codec encodes — report size in bits times report count equals the
/// encoded length in bytes times eight.
pub proof fn lemma_descriptor_width_matches_codec()
    ensures
        spec_report_size_bits() * spec_report_count() == spec_encoded_len() * 8,
{
    lemma_descriptor_values();
}

} // verus!
