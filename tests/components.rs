use biometric_engine::capture::{capture_with_sdk, keep_better_sample, CaptureSample, CaptureStatus};
use biometric_engine::device::{init_sdk, no_device_error, DeviceError, InitStatus};
use biometric_engine::listing::port_lines;
use biometric_engine::matching::{compare_templates_with_sdk, keep_better_match, MatchResult};
use biometric_engine::outcome::{enrolled, insufficient_quality, verification_result};
use biometric_engine::percent::score_to_percent;
use biometric_engine::status::{driver_listed, get_sdk_status};
use biometric_engine::text::{contains_text, with_number};

#[test]
fn percent_end_points() {
    assert_eq!(score_to_percent(0), 0);
    assert_eq!(score_to_percent(20000), 100);
    assert_eq!(score_to_percent(18000), 90);
}

#[test]
fn percent_rounds_to_nearest() {
    assert_eq!(score_to_percent(14400), 72);
    assert_eq!(score_to_percent(17600), 88);
    assert_eq!(score_to_percent(99), 0);
    assert_eq!(score_to_percent(100), 1);
    assert_eq!(score_to_percent(299), 1);
    assert_eq!(score_to_percent(300), 2);
    assert_eq!(score_to_percent(19899), 99);
    assert_eq!(score_to_percent(19900), 100);
}

#[test]
fn percent_in_range_for_all_device_scores() {
    for s in 0..=20000 {
        let p = score_to_percent(s);
        assert!((0..=100).contains(&p));
        let exact = (s as f64) / 20000.0 * 100.0;
        assert!((p as f64 - exact).abs() <= 0.5 + 1e-9);
    }
}

#[test]
fn percent_outside_device_range() {
    assert_eq!(score_to_percent(-100), -1);
    assert_eq!(score_to_percent(-99), 0);
    assert_eq!(score_to_percent(i32::MAX), 10737418);
    assert_eq!(score_to_percent(i32::MIN), -10737418);
}

#[test]
fn init_codes() {
    assert_eq!(init_sdk(0), InitStatus::Ready);
    assert_eq!(init_sdk(1), InitStatus::AlreadyInitialized);
    assert_eq!(init_sdk(-2), InitStatus::NoDevice);
    assert_eq!(init_sdk(-1), InitStatus::Failed(DeviceError::GenericDeviceError(-1)));
    assert_eq!(init_sdk(-9), InitStatus::Failed(DeviceError::GenericDeviceError(-9)));
}

#[test]
fn no_device_errors_have_distinct_texts() {
    let missing = no_device_error(false);
    let not_found = no_device_error(true);
    assert_eq!(missing, DeviceError::DriverMissing);
    assert_eq!(not_found, DeviceError::DeviceNotFound);
    assert_ne!(missing.message(), not_found.message());
    assert!(missing.message().contains("driver is not installed"));
    assert!(not_found.message().contains("not detected"));
}

#[test]
fn error_messages_carry_codes() {
    assert_eq!(DeviceError::ComparisonFailed(-4).message(), "template comparison failed with code -4");
    assert_eq!(DeviceError::GenericDeviceError(12).message(), "fingerprint device error, code 12");
}

#[test]
fn capture_codes() {
    match capture_with_sdk(0, Some("tmpl".to_string()), 77, false) {
        CaptureStatus::Captured(s) => {
            assert_eq!(s.template, "tmpl");
            assert_eq!(s.quality, 77);
        }
        _ => panic!("expected a sample"),
    }
    assert!(matches!(capture_with_sdk(0, None, 77, false), CaptureStatus::Failed(DeviceError::CaptureEmptyResult)));
    assert!(matches!(capture_with_sdk(-1, None, 0, false), CaptureStatus::Reinitialize));
    assert!(matches!(capture_with_sdk(-1, None, 0, true), CaptureStatus::Failed(DeviceError::DeviceBusyOrNotInitialized)));
    assert!(matches!(capture_with_sdk(-3, Some("x".to_string()), 0, false), CaptureStatus::Failed(DeviceError::GenericDeviceError(-3))));
    assert!(matches!(capture_with_sdk(-3, None, 0, true), CaptureStatus::Failed(DeviceError::GenericDeviceError(-3))));
}

#[test]
fn better_sample_is_strictly_higher() {
    let a = CaptureSample { template: "a".to_string(), quality: 80 };
    let b = CaptureSample { template: "b".to_string(), quality: 80 };
    let c = CaptureSample { template: "c".to_string(), quality: 81 };
    let best = keep_better_sample(None, a);
    assert_eq!(best.template, "a");
    let best = keep_better_sample(Some(best), b);
    assert_eq!(best.template, "a");
    let best = keep_better_sample(Some(best), c);
    assert_eq!(best.template, "c");
}

#[test]
fn compare_codes() {
    assert_eq!(compare_templates_with_sdk(0, 17600), Ok(MatchResult { raw_score: 17600, percent: 88 }));
    assert_eq!(compare_templates_with_sdk(-1, 17600), Err(DeviceError::ComparisonFailed(-1)));
}

#[test]
fn better_match_is_strictly_higher() {
    let m72 = MatchResult { raw_score: 14400, percent: 72 };
    let m88 = MatchResult { raw_score: 17600, percent: 88 };
    let m88b = MatchResult { raw_score: 17550, percent: 88 };
    assert_eq!(keep_better_match(None, m72), m72);
    assert_eq!(keep_better_match(Some(m72), m88), m88);
    assert_eq!(keep_better_match(Some(m88), m88b), m88);
    assert_eq!(keep_better_match(Some(m88), m72), m88);
}

#[test]
fn outcomes() {
    let o = insufficient_quality(89);
    assert!(!o.success && !o.enrolled);
    assert_eq!(o.quality, Some(89));
    assert_eq!(o.score, None);
    assert_eq!(o.percent, None);
    let o = enrolled(93);
    assert!(o.success && o.enrolled);
    assert_eq!(o.reason, "Fingerprint enrolled (quality: 93%).");
    let o = verification_result(MatchResult { raw_score: 16000, percent: 80 }, 50, 80);
    assert!(o.success);
    let o = verification_result(MatchResult { raw_score: 15900, percent: 80 }, 50, 81);
    assert!(!o.success);
    assert_eq!(o.reason, "Score 80% is below the minimum of 81%.");
    assert_eq!(o.score, Some(15900));
}

#[test]
fn numbers_are_written_in_decimal() {
    assert_eq!(with_number("a", -42, "b"), "a-42b");
    assert_eq!(with_number("", 0, ""), "0");
}

#[test]
fn text_containment() {
    assert!(contains_text("hello world", "lo w"));
    assert!(contains_text("abc", ""));
    assert!(contains_text("abc", "abc"));
    assert!(!contains_text("abc", "abcd"));
    assert!(!contains_text("abc", "C"));
    assert!(contains_text("çãoX", "ãoX"));
}

#[test]
fn sdk_status_lists_what_is_missing() {
    let s = get_sdk_status(false, None, false);
    assert!(!s.sdk_ready);
    assert_eq!(s.error_message.as_deref(), Some("SDK library libcidbio.dll not found; iDBio driver not installed"));
    let s = get_sdk_status(true, Some("C:\\app\\libcidbio.dll".to_string()), false);
    assert_eq!(s.error_message.as_deref(), Some("iDBio driver not installed"));
    assert_eq!(s.dll_path.as_deref(), Some("C:\\app\\libcidbio.dll"));
    let s = get_sdk_status(false, None, true);
    assert_eq!(s.error_message.as_deref(), Some("SDK library libcidbio.dll not found"));
    let s = get_sdk_status(true, None, true);
    assert!(s.sdk_ready);
    assert_eq!(s.error_message, None);
}

#[test]
fn driver_listing() {
    assert!(driver_listed("Published Name: oem3.inf\nProvider Name: Control iD\n"));
    assert!(driver_listed("xx controlidbio.inf"));
    assert!(driver_listed("iDBio"));
    assert!(!driver_listed("control id idbio"));
    assert!(!driver_listed(""));
}

#[test]
fn no_device_and_not_initialized_texts_cite_codes() {
    assert!(DeviceError::DriverMissing.message().ends_with(" (code -2)"));
    assert!(DeviceError::DeviceNotFound.message().ends_with(" (code -2)"));
    assert!(DeviceError::DeviceBusyOrNotInitialized.message().ends_with(" (code -1)"));
    assert_eq!(
        DeviceError::DeviceBusyOrNotInitialized.message(),
        "capture found the device not initialized again after reinitializing it; check that the reader is connected (code -1)"
    );
}

#[test]
fn decimal_rendering_of_extremes() {
    assert_eq!(with_number("", i64::MIN, ""), i64::MIN.to_string());
    assert_eq!(with_number("", i64::MAX, ""), i64::MAX.to_string());
    assert_eq!(with_number("[", 10, "]"), "[10]");
    assert_eq!(with_number("", -9, ""), "-9");
}

#[test]
fn port_lines_match_std_lines_and_trim() {
    let listing = "Status for device COM1:\r\n-----------\n  Baud:  9600\n\u{3000}COM3 ready\u{a0}\r\n\nCON\nCOM9";
    let expected: Vec<String> =
        listing.lines().filter(|l| l.contains("COM")).map(|l| l.trim().to_string()).collect();
    assert_eq!(port_lines(listing), expected);
    assert_eq!(port_lines(listing), vec!["Status for device COM1:", "COM3 ready", "COM9"]);
    assert!(port_lines("").is_empty());
    assert_eq!(port_lines("COM4\r"), vec!["COM4"]);
    assert_eq!(port_lines("x COM5 \r\r\n"), vec!["x COM5"]);
}
