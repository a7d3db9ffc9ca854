use asdbctl::codec::get_request_data;
use asdbctl::codec::percent_to_nits;
use asdbctl::device::get_brightness;
use asdbctl::device::has_display;
use asdbctl::device::make_request;
use asdbctl::device::percent_from_report;
use asdbctl::device::set_brightness;
use asdbctl::device::DisplayError;
use asdbctl::device::Session;

#[test]
fn request_type_bytes_match_the_hid_setup_packet() {
    assert_eq!(make_request(true), 0x21);
    assert_eq!(make_request(false), 0xa1);
}

#[test]
fn set_zero_percent_builds_the_minimum_report() {
    let report = get_request_data(percent_to_nits(0));
    assert_eq!(report, [0x01, 0x90, 0x01, 0x00, 0x00, 0x00, 0x00]);
}

#[test]
fn set_hundred_percent_builds_the_maximum_report() {
    let report = get_request_data(percent_to_nits(100));
    assert_eq!(report, [0x01, 0x60, 0xEA, 0x00, 0x00, 0x00, 0x00]);
}

#[test]
fn report_of_units_30200_reads_as_fifty_percent() {
    let report = [0x01, 0xF8, 0x75, 0x00, 0x00, 0x00, 0x00];
    assert_eq!(percent_from_report(&report), 50);
}

#[test]
fn failed_session_reports_no_display() {
    let session = Session { display: Err(DisplayError::DeviceNotFound) };
    assert!(!has_display(&session));
}

#[test]
fn set_returns_the_cached_not_found_error() {
    let session = Session { display: Err(DisplayError::DeviceNotFound) };
    assert_eq!(set_brightness(&session, 50), Err(DisplayError::DeviceNotFound));
}

#[test]
fn set_returns_the_cached_open_error() {
    let session = Session { display: Err(DisplayError::OpenOrClaimFailed) };
    assert_eq!(set_brightness(&session, 0), Err(DisplayError::OpenOrClaimFailed));
}

#[test]
fn get_returns_the_cached_error() {
    let session = Session { display: Err(DisplayError::OpenOrClaimFailed) };
    assert_eq!(get_brightness(&session), Err(DisplayError::OpenOrClaimFailed));
}
