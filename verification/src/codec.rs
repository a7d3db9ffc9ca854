//! Pure conversions between brightness percentages, device units, and the
//! 7-byte feature report exchanged with the display.

use vstd::prelude::*;

verus! {

/// Lowest brightness the display accepts, in device units.
pub const BRIGHTNESS_MIN: u16 = 400;

/// Highest brightness the display accepts, in device units.
pub const BRIGHTNESS_MAX: u16 = 60000;

/// Width of the brightness scale in device units.
pub const BRIGHTNESS_RANGE: u16 = 59600;

/// Device units for a given percentage: the minimum plus the matching share
/// of the range, rounded down.
pub open spec fn percent_to_nits_spec(percent: u8) -> u16 {
    (BRIGHTNESS_MIN + (BRIGHTNESS_RANGE * percent) / 100) as u16
}

/// Percentage for given device units: the position within the range, rounded
/// down; units below the minimum map to zero.
pub open spec fn nits_to_percent_spec(nits: u16) -> u8 {
    if nits < BRIGHTNESS_MIN {
        0u8
    } else {
        (((nits - BRIGHTNESS_MIN) * 100) / (BRIGHTNESS_RANGE as int)) as u8
    }
}

/// The 7-byte feature report for given device units: report id 0x01, the
/// units in little-endian order in bytes 1 and 2, zero padding in bytes 3-6.
pub open spec fn report_spec(nits: u16) -> Seq<u8> {
    seq![
        0x01u8,
        (nits % 256) as u8,
        (nits / 256) as u8,
        0u8,
        0u8,
        0u8,
        0u8,
    ]
}

/// The device units held in a feature report: bytes 1 and 2, little-endian.
pub open spec fn decode_spec(report: Seq<u8>) -> u16
    recommends
        report.len() == 7,
{
    (report[1] + 256 * report[2]) as u16
}

/// Converts a brightness percentage (0..=100) to device units.
pub fn percent_to_nits(percent: u8) -> (nits: u16)
    requires
        percent <= 100,
    ensures
        nits == percent_to_nits_spec(percent),
        BRIGHTNESS_MIN <= nits <= BRIGHTNESS_MAX,
{
    proof {
        assert(BRIGHTNESS_RANGE * percent <= 5960000 && (BRIGHTNESS_RANGE * percent) / 100
            <= 59600) by (nonlinear_arith)
            requires
                percent <= 100,
        ;
    }
    let scaled: u32 = (BRIGHTNESS_RANGE as u32 * percent as u32) / 100;
    (BRIGHTNESS_MIN as u32 + scaled) as u16
}

/// Converts device units to a brightness percentage; units within the
/// supported range give a percentage in 0..=100.
pub fn nits_to_percent(nits: u16) -> (percent: u8)
    ensures
        percent == nits_to_percent_spec(nits),
        percent <= 109,
        BRIGHTNESS_MIN <= nits <= BRIGHTNESS_MAX ==> percent <= 100,
{
    if nits < BRIGHTNESS_MIN {
        0
    } else {
        let scaled: u32 = (nits - BRIGHTNESS_MIN) as u32 * 100;
        proof {
            assert(scaled / 59600 <= 109 && (scaled <= 5960000 ==> scaled / 59600 <= 100))
                by (nonlinear_arith)
                requires
                    scaled <= 6513500,
            ;
        }
        (scaled / BRIGHTNESS_RANGE as u32) as u8
    }
}

/// Packs device units into the 7-byte feature report: report id 0x01,
/// little-endian units in bytes 1-2, zeros in bytes 3-6.
pub fn get_request_data(nits: u16) -> (report: [u8; 7])
    ensures
        report@ == report_spec(nits),
        report@[0] == 0x01u8,
        report@[3] == 0u8 && report@[4] == 0u8 && report@[5] == 0u8 && report@[6] == 0u8,
{
    let lo: u8 = (nits % 256) as u8;
    let hi: u8 = (nits / 256) as u8;
    let report: [u8; 7] = [0x01, lo, hi, 0, 0, 0, 0];
    proof {
        assert(report@ =~= report_spec(nits));
    }
    report
}

/// Reads the device units out of a 7-byte feature report.
pub fn decode_request_data(report: &[u8; 7]) -> (nits: u16)
    ensures
        nits == decode_spec(report@),
{
    report[1] as u16 + 256 * report[2] as u16
}

/// Round trip through the unit conversion: turning a percentage into device
/// units and back returns the same percentage exactly (in particular, the
/// result is within 1 of the starting percentage).
pub proof fn lemma_percent_round_trip(percent: u8)
    requires
        percent <= 100,
    ensures
        nits_to_percent_spec(percent_to_nits_spec(percent)) == percent,
{
    let p = percent as int;
    assert((59600 * p) / 100 == 596 * p) by (nonlinear_arith);
    assert((596 * p * 100) / 59600 == p) by (nonlinear_arith);
}

/// Round trip through the report packing: packing any 16-bit value into a
/// report and decoding the report returns the value exactly.
pub proof fn lemma_report_round_trip(nits: u16)
    ensures
        decode_spec(report_spec(nits)) == nits,
{
    let n = nits as int;
    assert(n % 256 + 256 * (n / 256) == n) by (nonlinear_arith);
}

} // verus!
