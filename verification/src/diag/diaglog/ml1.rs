//! LTE ML1 Serving Cell Measurement Response (`0xB193`) parsing.
//!
//! `0xB193` has an outer header followed by one or more subpackets:
//!
//! ```text
//! [0]     u8   version           (outer, 1 on all observed devices)
//! [1]     u8   num_subpackets
//! [2:4]   u16  system frame number
//! [4]     u8   subpacket_id       (25 = serving cell measurement)
//! [5]     u8   subpacket_version  (the real layout discriminator)
//! [6:8]   u16  subpacket_size
//! [8:]         subpacket data
//! ```
//!
//! The subpacket version selects the field layout, and layouts differ between
//! chipsets. Only versions validated against a real capture are decoded; any
//! other yields `None`, so an unrecognised layout fails safe rather than
//! reporting bogus values.
//!
//! - v18 (MDM9207, e.g. the Orbic RC400L): EARFCN at `sp+0` (low 18 bits) and
//!   RSRP at `sp+32` (low 12 bits, `-180 + raw/16` dBm). Each frame reports one
//!   measured cell (serving or neighbour), identified by its EARFCN; the
//!   caller attributes the RSRP to the serving cell only on an EARFCN match.
//!   RSRQ is not located for v18.

use vstd::prelude::*;

verus! {

/// The serving-cell measurement subpacket id within `0xB193`.
pub const SUBPACKET_ID_SERVING_CELL_MEAS: u8 = 25;

/// The lowest plausible LTE RSRP, -140 dBm, in sixteenths of a dBm.
pub const RSRP_MIN_SIXTEENTHS: i32 = -2240;

/// The highest plausible LTE RSRP, -30 dBm, in sixteenths of a dBm.
pub const RSRP_MAX_SIXTEENTHS: i32 = -480;

/// A single measured-cell record decoded from a `0xB193` packet. `earfcn`
/// identifies which cell the measurement is for (possibly a neighbour).
/// Signal levels are in sixteenths of a dB(m), and are `Some` only for
/// versions whose signal-field layout has been decoded.
#[derive(Debug, Clone, Copy, PartialEq, Eq, Structural)]
pub struct ServingCellMeasurement {
    /// E-UTRA Absolute Radio Frequency Channel Number the measurement is for.
    pub earfcn: u32,
    /// Reference Signal Received Power, in sixteenths of a dBm.
    pub rsrp: Option<i32>,
    /// Reference Signal Received Quality, in sixteenths of a dB.
    pub rsrq: Option<i32>,
}

/// The little-endian 32-bit number held in the four bytes at `off`.
pub open spec fn le32(b: Seq<u8>, off: int) -> nat {
    (b[off] + 256 * b[off + 1] + 65536 * b[off + 2] + 16777216 * b[off + 3]) as nat
}

/// The RSRP a v18 raw field encodes (`-180 + raw/16` dBm), in sixteenths of a
/// dBm, kept only within the plausible range -140..=-30 dBm.
pub open spec fn v18_rsrp(raw: nat) -> Option<i32> {
    let r = raw - 2880;
    if RSRP_MIN_SIXTEENTHS <= r <= RSRP_MAX_SIXTEENTHS {
        Some(r as i32)
    } else {
        None
    }
}

/// The measurement a v18 subpacket holds, if it is long enough.
pub open spec fn spec_parse_v18(sp: Seq<u8>) -> Option<ServingCellMeasurement> {
    if sp.len() < 36 {
        None
    } else {
        Some(
            ServingCellMeasurement {
                earfcn: (le32(sp, 0) % 0x40000) as u32,
                rsrp: v18_rsrp(le32(sp, 32) % 0x1000),
                rsrq: None,
            },
        )
    }
}

/// The measurement a `0xB193` body holds: `None` unless the body has its
/// 8-byte header, a serving-cell-measurement subpacket of a decoded version,
/// and enough subpacket data.
pub open spec fn spec_parse(body: Seq<u8>) -> Option<ServingCellMeasurement> {
    if body.len() < 8 || body[4] != SUBPACKET_ID_SERVING_CELL_MEAS || body[5] != 18 {
        None
    } else {
        spec_parse_v18(body.skip(8))
    }
}

/// A decoded measurement comes from a serving-cell-measurement subpacket of
/// version 18 with its fields present; its EARFCN has 18 bits, its RSRP, when
/// reported, lies within the plausible -140..=-30 dBm, and RSRQ is not
/// reported.
pub proof fn lemma_parsed_measurement_plausible(body: Seq<u8>)
    ensures
        spec_parse(body) matches Some(m) ==> {
            &&& body.len() >= 44
            &&& body[4] == SUBPACKET_ID_SERVING_CELL_MEAS
            &&& body[5] == 18
            &&& m.earfcn < 0x40000
            &&& m.rsrp matches Some(r) ==> RSRP_MIN_SIXTEENTHS <= r <= RSRP_MAX_SIXTEENTHS
            &&& m.rsrq is None
        },
{
}

/// In a v18 serving-cell-measurement body, the EARFCN is made of bytes 8
/// and 9 and the low two bits of byte 10 (the low 18 bits of the
/// little-endian word at byte 8), and the RSRP raw field of byte 40 and the
/// low four bits of byte 41 (the low 12 bits of the word at byte 40). The
/// RSRP is `-180 + raw/16` dBm, so in sixteenths of a dBm it is the raw
/// value less 2880; it is reported exactly when it lies within -140..=-30
/// dBm, that is, for raw values 640..=2400. RSRQ is not reported.
pub proof fn lemma_v18_fields(body: Seq<u8>)
    requires
        body.len() >= 44,
        body[4] == 25,
        body[5] == 18,
    ensures
        spec_parse(body) == Some(
            ServingCellMeasurement {
                earfcn: (body[8] + 256 * body[9] + 65536 * (body[10] % 4)) as u32,
                rsrp: if 640 <= body[40] + 256 * (body[41] % 16) <= 2400 {
                    Some((body[40] + 256 * (body[41] % 16) - 2880) as i32)
                } else {
                    None
                },
                rsrq: None,
            },
        ),
{
    let sp = body.skip(8);
    assert(sp[0] == body[8] && sp[1] == body[9] && sp[2] == body[10] && sp[3] == body[11]);
    assert(sp[32] == body[40] && sp[33] == body[41] && sp[34] == body[42] && sp[35] == body[43]);
    let (b0, b1, b2, b3) = (body[8] as int, body[9] as int, body[10] as int, body[11] as int);
    assert((b0 + 256 * b1 + 65536 * b2 + 16777216 * b3) % 0x40000 == b0 + 256 * b1 + 65536 * (b2
        % 4)) by (nonlinear_arith)
        requires
            0 <= b0 < 256,
            0 <= b1 < 256,
            0 <= b2 < 256,
            0 <= b3 < 256,
    ;
    let (c0, c1, c2, c3) = (body[40] as int, body[41] as int, body[42] as int, body[43] as int);
    assert((c0 + 256 * c1 + 65536 * c2 + 16777216 * c3) % 0x1000 == c0 + 256 * (c1 % 16)) by (
    nonlinear_arith)
        requires
            0 <= c0 < 256,
            0 <= c1 < 256,
            0 <= c2 < 256,
            0 <= c3 < 256,
    ;
}

/// The little-endian `u32` at `off`, if `b` holds four bytes there.
pub fn u32_le(b: &[u8], off: usize) -> (res: Option<u32>)
    requires
        off + 3 <= usize::MAX,
    ensures
        match res {
            Some(v) => off + 4 <= b@.len() && v as nat == le32(b@, off as int),
            None => off + 4 > b@.len(),
        },
{
    if off + 3 < b.len() {
        let v: u32 = b[off] as u32 + 256 * (b[off + 1] as u32) + 65536 * (b[off + 2] as u32)
            + 16777216 * (b[off + 3] as u32);
        Some(v)
    } else {
        None
    }
}

impl ServingCellMeasurement {
    /// Decode from the raw `0xB193` log body (starting at the outer version
    /// byte). Returns `None` for non-serving-cell subpackets, unsupported
    /// subpacket versions, or truncated data.
    pub fn parse(body: &[u8]) -> (res: Option<Self>)
        ensures
            res == spec_parse(body@),
    {
        if body.len() < 8 {
            return None;
        }
        let subpacket_id = body[4];
        let subpacket_version = body[5];
        let sp = vstd::slice::slice_subrange(body, 8, body.len());
        if subpacket_id != SUBPACKET_ID_SERVING_CELL_MEAS {
            return None;
        }
        match subpacket_version {
            18 => Self::parse_subpacket_v18(sp),
            _ => None,
        }
    }

    /// v18 (MDM9207): EARFCN (low 18 bits) at `sp+0`, RSRP (low 12 bits,
    /// `-180 + raw/16` dBm) at `sp+32`.
    pub fn parse_subpacket_v18(sp: &[u8]) -> (res: Option<Self>)
        ensures
            res == spec_parse_v18(sp@),
    {
        let first = match u32_le(sp, 0) {
            Some(v) => v,
            None => return None,
        };
        let second = match u32_le(sp, 32) {
            Some(v) => v,
            None => return None,
        };
        let earfcn = first & 0x3_ffff;
        let raw = second & 0xfff;
        assert(first & 0x3ffff == first % 0x40000) by (bit_vector);
        assert(second & 0xfff == second % 0x1000) by (bit_vector);
        let rsrp_sixteenths: i32 = raw as i32 - 2880;
        let rsrp = if RSRP_MIN_SIXTEENTHS <= rsrp_sixteenths && rsrp_sixteenths <= RSRP_MAX_SIXTEENTHS {
            Some(rsrp_sixteenths)
        } else {
            None
        };
        Some(ServingCellMeasurement { earfcn, rsrp, rsrq: None })
    }
}

} // verus!
