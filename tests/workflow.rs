use biometric_engine::device::DeviceError;
use biometric_engine::matching::StoredTemplate;
use biometric_engine::outcome::BiometricValidationResult;
use biometric_engine::workflow::{
    Command, Event, Operation, SessionState, TemplateRecord, Workflow,
};

/// What a simulated device answers, in order.
struct Device {
    inits: Vec<i32>,
    driver_installed: bool,
    captures: Vec<(i32, Option<&'static str>, i32)>,
    compares: Vec<(i32, i32)>,
}

/// What a run did, as seen from outside.
struct Run {
    result: Result<BiometricValidationResult, DeviceError>,
    notices: Vec<String>,
    persisted: Option<TemplateRecord>,
    ops: Vec<&'static str>,
    session: SessionState,
}

fn stored(n: usize) -> Vec<StoredTemplate> {
    let mut v = Vec::new();
    for i in 0..n {
        v.push(StoredTemplate { id: format!("id{}", i), template: format!("stored{}", i), quality: 50 });
    }
    v
}

fn run(mut wf: Workflow, mut dev: Device) -> Run {
    dev.inits.reverse();
    dev.captures.reverse();
    dev.compares.reverse();
    let mut notices = Vec::new();
    let mut persisted = None;
    let mut ops = Vec::new();
    let mut cmd: Command = wf.start();
    loop {
        let ev = match cmd.op {
            Operation::Init => {
                ops.push("init");
                Event::Initialized(dev.inits.pop().expect("unexpected init"))
            }
            Operation::CheckDriver => {
                ops.push("check_driver");
                Event::DriverChecked(dev.driver_installed)
            }
            Operation::Terminate => {
                ops.push("terminate");
                Event::Done
            }
            Operation::Capture => {
                ops.push("capture");
                let (code, t, quality) = dev.captures.pop().expect("unexpected capture");
                Event::Captured { code, template: t.map(|s| s.to_string()), quality }
            }
            Operation::Compare { stored, live } => {
                ops.push("compare");
                assert!(stored.starts_with("stored"));
                assert!(!live.is_empty());
                let (code, raw_score) = dev.compares.pop().expect("unexpected compare");
                Event::Compared { code, raw_score }
            }
            Operation::Notify(m) => {
                ops.push("notify");
                notices.push(m);
                Event::Done
            }
            Operation::Persist(r) => {
                ops.push("persist");
                persisted = Some(r);
                Event::Done
            }
            Operation::Finish(result) => {
                return Run { result, notices, persisted, ops, session: wf.session() };
            }
        };
        assert!(wf.expects(&ev));
        cmd = wf.step(ev);
    }
}

fn enroll(captures: Vec<(i32, Option<&'static str>, i32)>) -> Run {
    let wf = Workflow::new("user-1".to_string(), 80, None, Vec::new(), SessionState::Uninitialized);
    run(wf, Device { inits: vec![0], driver_installed: true, captures, compares: vec![] })
}

fn verify(captures: Vec<(i32, Option<&'static str>, i32)>, inits: Vec<i32>, compares: Vec<(i32, i32)>, min_percent: i32) -> Run {
    let n = compares.len().max(1);
    let wf = Workflow::new("user-1".to_string(), min_percent, None, stored(n), SessionState::Uninitialized);
    run(wf, Device { inits, driver_installed: true, captures, compares })
}

#[test]
fn best_of_three_keeps_highest_quality() {
    let r = enroll(vec![(0, Some("t61"), 61), (0, Some("t95"), 95), (0, Some("t80"), 80)]);
    let rec = r.persisted.expect("sample stored");
    assert_eq!(rec.template, "t95");
    assert_eq!(rec.quality, 95);
    assert_eq!(rec.user_id, "user-1");
    let o = r.result.ok().expect("outcome");
    assert!(o.success);
    assert!(o.enrolled);
    assert_eq!(o.quality, Some(95));
    assert_eq!(o.score, None);
    assert_eq!(o.percent, None);
    assert!(o.reason.contains("95"));
}

#[test]
fn best_of_three_tie_keeps_first() {
    let r = enroll(vec![(0, Some("first"), 95), (0, Some("second"), 95), (0, Some("t40"), 40)]);
    let rec = r.persisted.expect("sample stored");
    assert_eq!(rec.template, "first");
    assert_eq!(rec.quality, 95);
}

#[test]
fn enrollment_below_threshold_is_refused() {
    let r = enroll(vec![(0, Some("a"), 70), (0, Some("b"), 89), (0, Some("c"), 85)]);
    assert!(r.persisted.is_none());
    assert!(!r.ops.contains(&"persist"));
    let o = r.result.ok().expect("outcome");
    assert!(!o.success);
    assert!(!o.enrolled);
    assert_eq!(o.quality, Some(89));
    assert_eq!(o.score, None);
    assert_eq!(o.percent, None);
    assert_eq!(o.reason, "Insufficient quality (best: 89%). Try again, placing the finger more carefully.");
}

#[test]
fn enrollment_at_threshold_is_accepted() {
    let r = enroll(vec![(0, Some("a"), 90), (0, Some("b"), 10), (0, Some("c"), 20)]);
    assert_eq!(r.persisted.expect("stored").template, "a");
    let o = r.result.ok().expect("outcome");
    assert!(o.success && o.enrolled);
    assert_eq!(o.reason, "Fingerprint enrolled (quality: 90%).");
}

#[test]
fn enrollment_prompts_between_captures() {
    let r = enroll(vec![(0, Some("a"), 91), (0, Some("b"), 92), (0, Some("c"), 93)]);
    assert_eq!(
        r.notices,
        vec![
            "Place your finger on the reader (1/3)",
            "Waiting for reading 1/3...",
            "Reading 1/3 done. Quality: 91%",
            "Remove your finger from the reader...",
            "Place your finger on the reader (2/3)",
            "Waiting for reading 2/3...",
            "Reading 2/3 done. Quality: 92%",
            "Remove your finger from the reader...",
            "Place your finger on the reader (3/3)",
            "Waiting for reading 3/3...",
            "Reading 3/3 done. Quality: 93%",
        ]
    );
    assert_eq!(r.persisted.expect("stored").finger, "right_index");
}

#[test]
fn enrollment_records_given_finger() {
    let wf = Workflow::new("u".to_string(), 80, Some("left_thumb".to_string()), Vec::new(), SessionState::Ready);
    let r = run(wf, Device { inits: vec![], driver_installed: true, captures: vec![(0, Some("a"), 99), (0, Some("b"), 1), (0, Some("c"), 2)], compares: vec![] });
    let rec = r.persisted.expect("stored");
    assert_eq!(rec.finger, "left_thumb");
    assert_eq!(rec.user_id, "u");
}

#[test]
fn enrollment_capture_failure_discards_earlier_samples() {
    let r = enroll(vec![(0, Some("a"), 99), (-7, None, 0)]);
    assert!(r.persisted.is_none());
    assert_eq!(r.result.err(), Some(DeviceError::GenericDeviceError(-7)));
    assert_eq!(r.session, SessionState::Faulted);
}

#[test]
fn verification_takes_highest_percent() {
    let r = verify(vec![(0, Some("live"), 77)], vec![0], vec![(0, 14400), (0, 17600)], 80);
    let o = r.result.ok().expect("outcome");
    assert!(o.success);
    assert_eq!(o.percent, Some(88));
    assert_eq!(o.score, Some(17600));
    assert_eq!(o.quality, Some(77));
    assert!(!o.enrolled);
    assert_eq!(o.reason, "Fingerprint verified.");
}

#[test]
fn verification_tie_keeps_first_candidate() {
    let r = verify(vec![(0, Some("live"), 60)], vec![0], vec![(0, 17500), (0, 17550), (0, 17000)], 80);
    let o = r.result.ok().expect("outcome");
    assert_eq!(o.percent, Some(88));
    assert_eq!(o.score, Some(17500));
}

#[test]
fn verification_below_minimum_fails() {
    let r = verify(vec![(0, Some("live"), 66)], vec![1], vec![(0, 14400), (0, 15000)], 80);
    let o = r.result.ok().expect("outcome");
    assert!(!o.success);
    assert_eq!(o.percent, Some(75));
    assert_eq!(o.score, Some(15000));
    assert_eq!(o.quality, Some(66));
    assert_eq!(o.reason, "Score 75% is below the minimum of 80%.");
}

#[test]
fn verification_comparison_failure_is_fatal() {
    let r = verify(vec![(0, Some("live"), 66)], vec![0], vec![(0, 20000), (-3, 0)], 80);
    assert_eq!(r.result.err(), Some(DeviceError::ComparisonFailed(-3)));
}

#[test]
fn retry_after_not_initialized_is_transparent() {
    let direct = verify(vec![(0, Some("live"), 70)], vec![0], vec![(0, 18000)], 85);
    let retried = verify(vec![(-1, None, 0), (0, Some("live"), 70)], vec![0, 0], vec![(0, 18000)], 85);
    assert_eq!(retried.ops, vec!["init", "capture", "terminate", "init", "capture", "compare"]);
    let a = direct.result.ok().expect("outcome");
    let b = retried.result.ok().expect("outcome");
    assert_eq!(a.success, b.success);
    assert_eq!(a.reason, b.reason);
    assert_eq!(a.score, b.score);
    assert_eq!(a.percent, b.percent);
    assert_eq!(a.quality, b.quality);
    assert_eq!(a.enrolled, b.enrolled);
    assert!(b.success);
    assert_eq!(b.percent, Some(90));
}

#[test]
fn second_not_initialized_is_fatal() {
    let r = verify(vec![(-1, None, 0), (-1, None, 0)], vec![0, 1], vec![], 80);
    assert_eq!(r.result.err(), Some(DeviceError::DeviceBusyOrNotInitialized));
    assert_eq!(r.ops, vec!["init", "capture", "terminate", "init", "capture"]);
}

#[test]
fn reinitialization_failure_ends_the_run() {
    let r = verify(vec![(-1, None, 0)], vec![0, -2], vec![], 80);
    assert_eq!(r.result.err(), Some(DeviceError::DeviceNotFound));
}

#[test]
fn no_device_told_apart_by_driver() {
    let a = run(
        Workflow::new("u".to_string(), 80, None, stored(1), SessionState::Uninitialized),
        Device { inits: vec![-2], driver_installed: false, captures: vec![], compares: vec![] },
    );
    let b = run(
        Workflow::new("u".to_string(), 80, None, stored(1), SessionState::Uninitialized),
        Device { inits: vec![-2], driver_installed: true, captures: vec![], compares: vec![] },
    );
    let ea = a.result.err().expect("error");
    let eb = b.result.err().expect("error");
    assert_eq!(ea, DeviceError::DriverMissing);
    assert_eq!(eb, DeviceError::DeviceNotFound);
    assert_ne!(ea.message(), eb.message());
    assert_eq!(a.ops, vec!["init", "check_driver"]);
}

#[test]
fn other_init_code_is_generic_error() {
    let r = verify(vec![], vec![-5], vec![], 80);
    let e = r.result.err().expect("error");
    assert_eq!(e, DeviceError::GenericDeviceError(-5));
    assert_eq!(e.message(), "fingerprint device error, code -5");
    assert_eq!(r.ops, vec!["init"]);
}

#[test]
fn empty_template_is_an_error() {
    let r = verify(vec![(0, None, 90)], vec![0], vec![], 80);
    assert_eq!(r.result.err(), Some(DeviceError::CaptureEmptyResult));
}

#[test]
fn empty_store_always_enrolls() {
    for min in [0, 50, 100, 1000] {
        let wf = Workflow::new("u".to_string(), min, None, Vec::new(), SessionState::Uninitialized);
        let r = run(wf, Device { inits: vec![0], driver_installed: true, captures: vec![(0, Some("a"), 95), (0, Some("b"), 95), (0, Some("c"), 95)], compares: vec![] });
        assert!(!r.ops.contains(&"compare"));
        assert!(r.result.ok().expect("outcome").enrolled);
    }
}

#[test]
fn stored_templates_always_verify() {
    for q in [0, 89, 90, 100] {
        let mut s = stored(1);
        s[0].quality = q;
        let wf = Workflow::new("u".to_string(), 0, None, s, SessionState::Uninitialized);
        let r = run(wf, Device { inits: vec![0], driver_installed: true, captures: vec![(0, Some("a"), 10)], compares: vec![(0, 0)] });
        assert!(!r.ops.contains(&"persist"));
        assert_eq!(r.ops, vec!["init", "capture", "compare"]);
        let o = r.result.ok().expect("outcome");
        assert!(!o.enrolled);
        assert!(o.success);
    }
}

#[test]
fn ready_session_skips_init() {
    let wf = Workflow::new("u".to_string(), 50, None, stored(1), SessionState::Ready);
    let r = run(wf, Device { inits: vec![], driver_installed: true, captures: vec![(0, Some("a"), 10)], compares: vec![(0, 12000)] });
    assert_eq!(r.ops, vec!["capture", "compare"]);
    assert_eq!(r.session, SessionState::Ready);
    assert!(r.result.ok().expect("outcome").success);
}

#[test]
fn settle_pauses_follow_the_device() {
    let mut wf = Workflow::new("u".to_string(), 50, None, stored(1), SessionState::Uninitialized);
    let c = wf.start();
    assert!(matches!(c.op, Operation::Init));
    assert_eq!(c.pause_ms, 0);
    assert!(!wf.expects(&Event::Done));
    let c = wf.step(Event::Initialized(0));
    assert!(matches!(c.op, Operation::Capture));
    assert_eq!(c.pause_ms, 800);
    let c = wf.step(Event::Captured { code: -1, template: None, quality: 0 });
    assert!(matches!(c.op, Operation::Terminate));
    let c = wf.step(Event::Done);
    assert!(matches!(c.op, Operation::Init));
    assert_eq!(c.pause_ms, 500);
    let c = wf.step(Event::Initialized(1));
    assert!(matches!(c.op, Operation::Capture));
    assert_eq!(c.pause_ms, 500);
}
