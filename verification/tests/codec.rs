use asdbctl::codec::decode_request_data;
use asdbctl::codec::get_request_data;
use asdbctl::codec::nits_to_percent;
use asdbctl::codec::percent_to_nits;
use asdbctl::codec::BRIGHTNESS_MAX;
use asdbctl::codec::BRIGHTNESS_MIN;

#[test]
fn test_percent_to_nits() {
    assert_eq!(percent_to_nits(0), BRIGHTNESS_MIN);
    assert_eq!(percent_to_nits(50), 30200);
    assert_eq!(percent_to_nits(100), BRIGHTNESS_MAX);
}

#[test]
fn test_nits_to_percent() {
    assert_eq!(nits_to_percent(BRIGHTNESS_MIN), 0);
    assert_eq!(nits_to_percent(30200), 50);
    assert_eq!(nits_to_percent(BRIGHTNESS_MAX), 100);
}

#[test]
fn percent_round_trip_is_exact() {
    for percent in 0..=100u8 {
        assert_eq!(nits_to_percent(percent_to_nits(percent)), percent);
    }
}

#[test]
fn report_layout() {
    for nits in [0u16, 1, 255, 256, 400, 30200, 60000, 65535] {
        let report = get_request_data(nits);
        assert_eq!(report.len(), 7);
        assert_eq!(report[0], 0x01);
        assert_eq!(report[1], (nits & 0xff) as u8);
        assert_eq!(report[2], (nits >> 8) as u8);
        assert_eq!(&report[3..], &[0, 0, 0, 0]);
    }
}

#[test]
fn report_round_trip_is_exact() {
    for nits in 0..=65535u16 {
        assert_eq!(decode_request_data(&get_request_data(nits)), nits);
    }
}

#[test]
fn nits_below_minimum_map_to_zero_percent() {
    assert_eq!(nits_to_percent(0), 0);
    assert_eq!(nits_to_percent(399), 0);
}

#[test]
fn nits_above_maximum_stay_within_a_byte() {
    assert_eq!(nits_to_percent(65535), 109);
}
