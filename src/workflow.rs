use vstd::prelude::*;
use crate::capture::{
    better_sample, capture_status, capture_with_sdk, keep_better_sample, CaptureSample,
    CaptureStatus, CaptureStatusView, SampleView,
};
use crate::device::{
    init_sdk, init_status, no_device_error, no_device_error_spec, DeviceError, InitStatus,
    CODE_ALREADY_INITIALIZED, CODE_NOT_INITIALIZED, CODE_OK,
};
use crate::matching::{
    best_of, better_match, compare_result, compare_templates_with_sdk, keep_better_match, MatchResult,
    StoredTemplate,
};
use crate::outcome::{
    enrolled, enrolled_outcome, insufficient_quality, insufficient_quality_outcome,
    verification_outcome, verification_result, BiometricValidationResult, OutcomeView,
    MIN_ENROLL_QUALITY,
};
use crate::percent::percent_of;
use crate::text::{decimal, decimal_text, text_view, with_number};

verus! {

/// How many captures an enrollment takes; the best one is kept.
pub const ENROLL_ATTEMPTS: u32 = 3;
/// Pause after asking for the finger, before the capture starts.
pub const PLACE_PAUSE_MS: u32 = 3000;
/// Pause after reporting a reading.
pub const REPORT_PAUSE_MS: u32 = 2000;
/// Pause after asking to remove the finger.
pub const RELEASE_PAUSE_MS: u32 = 3000;
/// Pause between terminating the device and initializing it again.
pub const REINIT_SETTLE_MS: u32 = 500;
/// Pause after the device initialized.
pub const INIT_SETTLE_MS: u32 = 800;
/// Pause after the device reported that it was initialized already.
pub const ALREADY_INIT_SETTLE_MS: u32 = 500;

/// The finger recorded with an enrollment when the caller names none.
pub const DEFAULT_FINGER: &'static str = "right_index";

pub const PLACE_TEXT: &'static str = "Place your finger on the reader (";
pub const PLACE_END: &'static str = ")";
pub const WAITING_TEXT: &'static str = "Waiting for reading ";
pub const WAITING_END: &'static str = "...";
pub const READING_TEXT: &'static str = "Reading ";
pub const READING_MID: &'static str = " done. Quality: ";
pub const READING_END: &'static str = "%";
pub const REMOVE_TEXT: &'static str = "Remove your finger from the reader...";
pub const OF_TEXT: &'static str = "/";

/// The state of the logical session with the reader.
#[derive(Clone, Copy, Debug, PartialEq, Eq, Structural)]
pub enum SessionState {
    Uninitialized,
    Initializing,
    Ready,
    Terminated,
    Faulted,
}

/// Where a run stands, and which reply it waits for.
#[derive(Clone, Copy, Debug, PartialEq, Eq, Structural)]
pub enum Phase {
    /// Not started.
    Start,
    /// Waits for the code of `init`; `reinit` when it recovers a capture.
    Initializing { reinit: bool },
    /// Waits for whether the driver is installed, after `init` found no device.
    CheckingDriver,
    /// Waits for a capture; `retried` once the device was reinitialized for it.
    Capturing { retried: bool },
    /// Waits for `terminate` to be done, before reinitializing.
    Terminating,
    /// Waits for the request to place the finger to be shown.
    Prompting,
    /// Waits for the notice that a reading starts to be shown.
    Announcing,
    /// Waits for the report of a reading to be shown.
    Reporting,
    /// Waits for the request to remove the finger to be shown.
    Releasing,
    /// Waits for the comparison with the stored template at `index`.
    Comparing { index: usize },
    /// Waits for the enrolled sample, of this quality, to be stored.
    Persisting { quality: i32 },
    /// Done: the last command carried the result.
    Finished,
}

/// What the outside world reports back after performing a command.
pub enum Event {
    /// `Terminate`, `Notify` or `Persist` was performed.
    Done,
    /// `init` returned this code.
    Initialized(i32),
    /// Whether the vendor driver is installed.
    DriverChecked(bool),
    /// A capture returned this code, template (absent when the device gave
    /// none) and quality.
    Captured { code: i32, template: Option<String>, quality: i32 },
    /// A comparison returned this code and raw score.
    Compared { code: i32, raw_score: i32 },
}

pub enum EventView {
    Done,
    Initialized(i32),
    DriverChecked(bool),
    Captured { code: i32, template: Option<Seq<char>>, quality: i32 },
    Compared { code: i32, raw_score: i32 },
}

impl View for Event {
    type V = EventView;

    open spec fn view(&self) -> EventView {
        match self {
            Event::Done => EventView::Done,
            Event::Initialized(c) => EventView::Initialized(*c),
            Event::DriverChecked(b) => EventView::DriverChecked(*b),
            Event::Captured { code, template, quality } => EventView::Captured {
                code: *code,
                template: text_view(*template),
                quality: *quality,
            },
            Event::Compared { code, raw_score } => EventView::Compared {
                code: *code,
                raw_score: *raw_score,
            },
        }
    }
}

/// A sample to store for a user, with the finger it was taken from.
pub struct TemplateRecord {
    pub user_id: String,
    pub template: String,
    pub quality: i32,
    pub finger: String,
}

pub struct RecordView {
    pub user_id: Seq<char>,
    pub template: Seq<char>,
    pub quality: i32,
    pub finger: Seq<char>,
}

impl View for TemplateRecord {
    type V = RecordView;

    open spec fn view(&self) -> RecordView {
        RecordView {
            user_id: self.user_id@,
            template: self.template@,
            quality: self.quality,
            finger: self.finger@,
        }
    }
}

/// One thing for the outside world to do.
pub enum Operation {
    /// Initialize the device; answer with `Initialized`.
    Init,
    /// Ask whether the vendor driver is installed; answer with `DriverChecked`.
    CheckDriver,
    /// Terminate the device, ignoring its code; answer with `Done`.
    Terminate,
    /// Capture one sample; answer with `Captured`.
    Capture,
    /// Compare a stored template with the live one; answer with `Compared`.
    Compare { stored: String, live: String },
    /// Show this instruction to the user; answer with `Done`.
    Notify(String),
    /// Store this sample; answer with `Done`.
    Persist(TemplateRecord),
    /// The run is over, with this result.
    Finish(Result<BiometricValidationResult, DeviceError>),
}

pub enum OperationView {
    Init,
    CheckDriver,
    Terminate,
    Capture,
    Compare { stored: Seq<char>, live: Seq<char> },
    Notify(Seq<char>),
    Persist(RecordView),
    Finish(Result<OutcomeView, DeviceError>),
}

/// Wait `pause_ms` milliseconds, then perform `op`.
pub struct Command {
    pub pause_ms: u32,
    pub op: Operation,
}

pub struct CommandView {
    pub pause_ms: u32,
    pub op: OperationView,
}

impl View for Command {
    type V = CommandView;

    open spec fn view(&self) -> CommandView {
        CommandView {
            pause_ms: self.pause_ms,
            op: match &self.op {
                Operation::Init => OperationView::Init,
                Operation::CheckDriver => OperationView::CheckDriver,
                Operation::Terminate => OperationView::Terminate,
                Operation::Capture => OperationView::Capture,
                Operation::Compare { stored, live } => OperationView::Compare {
                    stored: stored@,
                    live: live@,
                },
                Operation::Notify(m) => OperationView::Notify(m@),
                Operation::Persist(r) => OperationView::Persist(r@),
                Operation::Finish(Ok(o)) => OperationView::Finish(Ok(o@)),
                Operation::Finish(Err(e)) => OperationView::Finish(Err(*e)),
            },
        }
    }
}

pub open spec fn cmd(pause_ms: u32, op: OperationView) -> CommandView {
    CommandView { pause_ms, op }
}

/// "i/3"
pub open spec fn attempt_label(i: u32) -> Seq<char> {
    decimal_text(i as int) + OF_TEXT@ + decimal_text(ENROLL_ATTEMPTS as int)
}

pub open spec fn place_prompt(i: u32) -> Seq<char> {
    PLACE_TEXT@ + attempt_label(i) + PLACE_END@
}

pub open spec fn waiting_notice(i: u32) -> Seq<char> {
    WAITING_TEXT@ + attempt_label(i) + WAITING_END@
}

pub open spec fn reading_notice(i: u32, quality: i32) -> Seq<char> {
    READING_TEXT@ + attempt_label(i) + READING_MID@ + decimal_text(quality as int) + READING_END@
}

fn notice(prefix: &str, i: u32, suffix: &str) -> (r: String)
    ensures
        r@ == prefix@ + attempt_label(i) + suffix@,
{
    let mut s = with_number(prefix, i as i64, OF_TEXT);
    let d = decimal(ENROLL_ATTEMPTS as i64);
    s.append(d.as_str());
    s.append(suffix);
    s
}

fn reading_text(i: u32, quality: i32) -> (r: String)
    ensures
        r@ == reading_notice(i, quality),
{
    let mut s = notice(READING_TEXT, i, READING_MID);
    let d = decimal(quality as i64);
    s.append(d.as_str());
    s.append(READING_END);
    s
}

/// The state of one enroll-or-verify run, seen as values.
pub struct WorkflowView {
    pub phase: Phase,
    pub session: SessionState,
    pub user_id: Seq<char>,
    pub min_percent: i32,
    pub finger: Seq<char>,
    /// The stored templates, in the caller's order.
    pub stored: Seq<Seq<char>>,
    /// The enrollment capture under way, from 1.
    pub attempt: u32,
    /// The best enrollment sample so far.
    pub best: Option<SampleView>,
    /// The sample to verify.
    pub live: Option<SampleView>,
    /// The best match so far.
    pub best_match: Option<MatchResult>,
}

/// What every state of a run satisfies.
pub open spec fn inv(w: WorkflowView) -> bool {
    &&& w.attempt <= ENROLL_ATTEMPTS
    &&& w.stored.len() <= usize::MAX
    &&& (w.phase is Capturing || w.phase is Prompting || w.phase is Announcing
        || w.phase is Reporting || w.phase is Releasing ==> w.session == SessionState::Ready)
    &&& (w.phase is Reporting ==> w.best is Some)
    &&& (w.phase is Releasing ==> w.attempt < ENROLL_ATTEMPTS)
    &&& match w.phase {
        Phase::Comparing { index } => index < w.stored.len() && w.live is Some,
        _ => true,
    }
    &&& on_chosen_path(w)
}

/// A run with no stored template only enrolls; one with stored templates
/// only verifies.
pub open spec fn on_chosen_path(w: WorkflowView) -> bool {
    &&& (w.stored.len() == 0 ==> !(w.phase is Comparing))
    &&& (w.stored.len() > 0 ==> !(w.phase is Prompting || w.phase is Announcing
        || w.phase is Reporting || w.phase is Releasing || w.phase is Persisting))
}

/// Whether a run in this phase waits for this event.
pub open spec fn expects_event(phase: Phase, ev: EventView) -> bool {
    match phase {
        Phase::Start | Phase::Finished => false,
        Phase::Initializing { .. } => ev is Initialized,
        Phase::CheckingDriver => ev is DriverChecked,
        Phase::Capturing { .. } => ev is Captured,
        Phase::Comparing { .. } => ev is Compared,
        _ => ev is Done,
    }
}

/// The run ends with a device error; the session needs a new `init`.
pub open spec fn fail(w: WorkflowView, e: DeviceError) -> (WorkflowView, CommandView) {
    (
        WorkflowView { phase: Phase::Finished, session: SessionState::Faulted, ..w },
        cmd(0, OperationView::Finish(Err(e))),
    )
}

pub open spec fn finish(w: WorkflowView, o: OutcomeView) -> (WorkflowView, CommandView) {
    (WorkflowView { phase: Phase::Finished, ..w }, cmd(0, OperationView::Finish(Ok(o))))
}

/// With the device ready: enroll when no template is stored, else verify.
pub open spec fn begin_work(w: WorkflowView, pause_ms: u32) -> (WorkflowView, CommandView) {
    if w.stored.len() == 0 {
        (
            WorkflowView { phase: Phase::Prompting, attempt: 1, ..w },
            cmd(pause_ms, OperationView::Notify(place_prompt(1))),
        )
    } else {
        (
            WorkflowView { phase: Phase::Capturing { retried: false }, ..w },
            cmd(pause_ms, OperationView::Capture),
        )
    }
}

/// The first command of a run: initialize the device unless it is ready.
pub open spec fn begin(w: WorkflowView) -> (WorkflowView, CommandView) {
    if w.session == SessionState::Ready {
        begin_work(w, 0)
    } else {
        (
            WorkflowView {
                phase: Phase::Initializing { reinit: false },
                session: SessionState::Initializing,
                ..w
            },
            cmd(0, OperationView::Init),
        )
    }
}

pub open spec fn on_init(w: WorkflowView, reinit: bool, code: i32) -> (WorkflowView, CommandView) {
    match init_status(code) {
        InitStatus::Failed(e) => fail(w, e),
        InitStatus::NoDevice => (
            WorkflowView { phase: Phase::CheckingDriver, ..w },
            cmd(0, OperationView::CheckDriver),
        ),
        status => {
            let pause = if status == InitStatus::Ready {
                INIT_SETTLE_MS
            } else {
                ALREADY_INIT_SETTLE_MS
            };
            let ready = WorkflowView { session: SessionState::Ready, ..w };
            if reinit {
                (
                    WorkflowView { phase: Phase::Capturing { retried: true }, ..ready },
                    cmd(pause, OperationView::Capture),
                )
            } else {
                begin_work(ready, pause)
            }
        },
    }
}

pub open spec fn on_capture(
    w: WorkflowView,
    retried: bool,
    code: i32,
    template: Option<Seq<char>>,
    quality: i32,
) -> (WorkflowView, CommandView) {
    match capture_status(code, template, quality, retried) {
        CaptureStatusView::Captured(s) => if w.stored.len() == 0 {
            (
                WorkflowView { phase: Phase::Reporting, best: Some(better_sample(w.best, s)), ..w },
                cmd(0, OperationView::Notify(reading_notice(w.attempt, s.quality))),
            )
        } else {
            (
                WorkflowView { phase: Phase::Comparing { index: 0 }, live: Some(s), ..w },
                cmd(0, OperationView::Compare { stored: w.stored[0], live: s.template }),
            )
        },
        CaptureStatusView::Reinitialize => (
            WorkflowView { phase: Phase::Terminating, session: SessionState::Terminated, ..w },
            cmd(0, OperationView::Terminate),
        ),
        CaptureStatusView::Failed(e) => fail(w, e),
    }
}

/// After the last enrollment capture: store the best sample when it is good
/// enough, else refuse.
pub open spec fn after_readings(w: WorkflowView) -> (WorkflowView, CommandView) {
    let b = w.best->0;
    if b.quality >= MIN_ENROLL_QUALITY {
        (
            WorkflowView { phase: Phase::Persisting { quality: b.quality }, ..w },
            cmd(
                REPORT_PAUSE_MS,
                OperationView::Persist(
                    RecordView {
                        user_id: w.user_id,
                        template: b.template,
                        quality: b.quality,
                        finger: w.finger,
                    },
                ),
            ),
        )
    } else {
        finish(w, insufficient_quality_outcome(b.quality))
    }
}

pub open spec fn on_compare(w: WorkflowView, index: usize, code: i32, raw_score: i32) -> (
    WorkflowView,
    CommandView,
) {
    match compare_result(code, raw_score) {
        Ok(m) => {
            let bm = better_match(w.best_match, m);
            let w1 = WorkflowView { best_match: Some(bm), ..w };
            if index + 1 < w.stored.len() {
                (
                    WorkflowView { phase: Phase::Comparing { index: (index + 1) as usize }, ..w1 },
                    cmd(
                        0,
                        OperationView::Compare {
                            stored: w.stored[index + 1],
                            live: w.live->0.template,
                        },
                    ),
                )
            } else {
                finish(w1, verification_outcome(bm, w.live->0.quality, w.min_percent))
            }
        },
        Err(e) => fail(w, e),
    }
}

/// One transition: the state and command that follow an event.
pub open spec fn next(w: WorkflowView, ev: EventView) -> (WorkflowView, CommandView) {
    match (w.phase, ev) {
        (Phase::Initializing { reinit }, EventView::Initialized(code)) => on_init(w, reinit, code),
        (Phase::CheckingDriver, EventView::DriverChecked(installed)) => fail(
            w,
            no_device_error_spec(installed),
        ),
        (Phase::Capturing { retried }, EventView::Captured { code, template, quality }) => on_capture(
            w,
            retried,
            code,
            template,
            quality,
        ),
        (Phase::Terminating, EventView::Done) => (
            WorkflowView {
                phase: Phase::Initializing { reinit: true },
                session: SessionState::Initializing,
                ..w
            },
            cmd(REINIT_SETTLE_MS, OperationView::Init),
        ),
        (Phase::Prompting, EventView::Done) => (
            WorkflowView { phase: Phase::Announcing, ..w },
            cmd(PLACE_PAUSE_MS, OperationView::Notify(waiting_notice(w.attempt))),
        ),
        (Phase::Announcing, EventView::Done) => (
            WorkflowView { phase: Phase::Capturing { retried: false }, ..w },
            cmd(0, OperationView::Capture),
        ),
        (Phase::Reporting, EventView::Done) => if w.attempt < ENROLL_ATTEMPTS {
            (
                WorkflowView { phase: Phase::Releasing, ..w },
                cmd(REPORT_PAUSE_MS, OperationView::Notify(REMOVE_TEXT@)),
            )
        } else {
            after_readings(w)
        },
        (Phase::Releasing, EventView::Done) => (
            WorkflowView { phase: Phase::Prompting, attempt: (w.attempt + 1) as u32, ..w },
            cmd(RELEASE_PAUSE_MS, OperationView::Notify(place_prompt((w.attempt + 1) as u32))),
        ),
        (Phase::Comparing { index }, EventView::Compared { code, raw_score }) => on_compare(
            w,
            index,
            code,
            raw_score,
        ),
        (Phase::Persisting { quality }, EventView::Done) => finish(w, enrolled_outcome(quality)),
        _ => arbitrary(),
    }
}

/// Every transition keeps the invariant, the stored templates and the
/// caller's minimum; so a run never leaves the path that the stored
/// templates chose.
pub proof fn lemma_next_keeps_invariant(w: WorkflowView, ev: EventView)
    requires
        inv(w),
        expects_event(w.phase, ev),
    ensures
        inv(next(w, ev).0),
        on_chosen_path(next(w, ev).0),
        next(w, ev).0.stored == w.stored,
        next(w, ev).0.min_percent == w.min_percent,
{
}

/// The path is decided by whether templates are stored, and by nothing else
/// (neither the minimum percentage nor the stored templates' qualities enter
/// it): once the device is ready, a run with none asks for the finger for
/// the first enrollment capture, and one with some captures the sample to
/// verify.
pub proof fn lemma_path_follows_stored(w: WorkflowView, init_code: i32)
    requires
        inv(w),
        w.phase == Phase::Start,
        init_code == CODE_OK || init_code == CODE_ALREADY_INITIALIZED,
    ensures
        ({
            let (w1, c1) = begin(w);
            let (w2, c2) = if w.session == SessionState::Ready {
                (w1, c1)
            } else {
                next(w1, EventView::Initialized(init_code))
            };
            &&& w.stored.len() == 0 ==> w2.phase == Phase::Prompting && c2.op
                == OperationView::Notify(place_prompt(1))
            &&& w.stored.len() > 0 ==> w2.phase == (Phase::Capturing { retried: false }) && c2.op
                == OperationView::Capture
        }),
{
}

/// A capture that first finds the device not initialized, and succeeds on
/// the one retry after terminating and initializing it again, leads to the
/// same state and command as the same capture succeeding at once.
pub proof fn lemma_retry_is_transparent(
    w: WorkflowView,
    stale_template: Option<Seq<char>>,
    stale_quality: i32,
    init_code: i32,
    template: Seq<char>,
    quality: i32,
)
    requires
        inv(w),
        w.phase == (Phase::Capturing { retried: false }),
        init_code == CODE_OK || init_code == CODE_ALREADY_INITIALIZED,
    ensures
        ({
            let captured = EventView::Captured { code: CODE_OK, template: Some(template), quality };
            let (w1, c1) = next(
                w,
                EventView::Captured {
                    code: CODE_NOT_INITIALIZED,
                    template: stale_template,
                    quality: stale_quality,
                },
            );
            let (w2, c2) = next(w1, EventView::Done);
            let (w3, c3) = next(w2, EventView::Initialized(init_code));
            &&& c1.op == OperationView::Terminate
            &&& c2.op == OperationView::Init
            &&& c3.op == OperationView::Capture
            &&& next(w3, captured) == next(w, captured)
        }),
{
}

/// A capture that finds the device not initialized again after the one
/// reinitialization ends the run with that error; there is no second retry.
pub proof fn lemma_second_not_initialized_is_fatal(
    w: WorkflowView,
    t1: Option<Seq<char>>,
    q1: i32,
    init_code: i32,
    t2: Option<Seq<char>>,
    q2: i32,
)
    requires
        inv(w),
        w.phase == (Phase::Capturing { retried: false }),
        init_code == CODE_OK || init_code == CODE_ALREADY_INITIALIZED,
    ensures
        ({
            let (w1, c1) = next(
                w,
                EventView::Captured { code: CODE_NOT_INITIALIZED, template: t1, quality: q1 },
            );
            let (w2, c2) = next(w1, EventView::Done);
            let (w3, c3) = next(w2, EventView::Initialized(init_code));
            let (w4, c4) = next(
                w3,
                EventView::Captured { code: CODE_NOT_INITIALIZED, template: t2, quality: q2 },
            );
            &&& w4.phase == Phase::Finished
            &&& c4.op == OperationView::Finish(Err(DeviceError::DeviceBusyOrNotInitialized))
        }),
{
}

/// The commands of a run after `w`, one for each event, while each event is
/// one the run waits for; it stops at the first one it does not wait for.
pub open spec fn run(w: WorkflowView, evs: Seq<EventView>) -> Seq<CommandView>
    decreases evs.len(),
{
    if evs.len() == 0 || !expects_event(w.phase, evs[0]) {
        Seq::empty()
    } else {
        seq![next(w, evs[0]).1] + run(next(w, evs[0]).0, evs.drop_first())
    }
}

/// The commands of a whole run: the first one, then one for each event.
pub open spec fn full_run(w: WorkflowView, evs: Seq<EventView>) -> Seq<CommandView> {
    seq![begin(w).1] + run(begin(w).0, evs)
}

/// A command that an enrollment may give: never a comparison, and a result
/// without score or percentage.
pub open spec fn enrollment_command(c: CommandView) -> bool {
    match c.op {
        OperationView::Compare { .. } => false,
        OperationView::Finish(Ok(o)) => o.score is None && o.percent is None,
        _ => true,
    }
}

/// A command that a verification may give: never an instruction to the user
/// nor a sample to store, and a result with score and percentage that
/// enrolled nothing.
pub open spec fn verification_command(c: CommandView) -> bool {
    match c.op {
        OperationView::Notify(_) => false,
        OperationView::Persist(_) => false,
        OperationView::Finish(Ok(o)) => !o.enrolled && o.score is Some && o.percent is Some,
        _ => true,
    }
}

proof fn lemma_enrollment_run(a: WorkflowView, b: WorkflowView, evs: Seq<EventView>)
    requires
        inv(a),
        inv(b),
        a == (WorkflowView { min_percent: a.min_percent, ..b }),
        a.stored.len() == 0,
    ensures
        run(a, evs) == run(b, evs),
        forall|i: int| 0 <= i < run(a, evs).len() ==> enrollment_command(#[trigger] run(a, evs)[i]),
    decreases evs.len(),
{
    if evs.len() > 0 && expects_event(a.phase, evs[0]) {
        let e = evs[0];
        lemma_next_keeps_invariant(a, e);
        lemma_next_keeps_invariant(b, e);
        let (a1, ca) = next(a, e);
        let (b1, cb) = next(b, e);
        assert(ca == cb);
        assert(a1 == (WorkflowView { min_percent: a1.min_percent, ..b1 }));
        assert(enrollment_command(ca));
        lemma_enrollment_run(a1, b1, evs.drop_first());
        let r = run(a, evs);
        assert(r == seq![ca] + run(a1, evs.drop_first()));
        assert forall|i: int| 0 <= i < r.len() implies enrollment_command(#[trigger] r[i]) by {
            if i > 0 {
                assert(r[i] == run(a1, evs.drop_first())[i - 1]);
            }
        }
    }
}

/// With no stored template, a run only enrolls, and the caller's minimum
/// percentage makes no difference: two runs that differ in it alone give the
/// same commands for the same replies, none of them a comparison, and any
/// result they end with has neither score nor percentage.
pub proof fn lemma_enrollment_ignores_minimum(w: WorkflowView, min_percent: i32, evs: Seq<EventView>)
    requires
        inv(w),
        w.phase == Phase::Start,
        w.stored.len() == 0,
    ensures
        full_run(w, evs) == full_run(WorkflowView { min_percent, ..w }, evs),
        forall|i: int|
            0 <= i < full_run(w, evs).len() ==> enrollment_command(#[trigger] full_run(w, evs)[i]),
{
    let v = WorkflowView { min_percent, ..w };
    lemma_enrollment_run(begin(w).0, begin(v).0, evs);
    let r = full_run(w, evs);
    assert forall|i: int| 0 <= i < r.len() implies enrollment_command(#[trigger] r[i]) by {
        if i > 0 {
            assert(r[i] == run(begin(w).0, evs)[i - 1]);
        }
    }
}

proof fn lemma_verification_run(a: WorkflowView, evs: Seq<EventView>)
    requires
        inv(a),
        a.stored.len() > 0,
    ensures
        forall|i: int| 0 <= i < run(a, evs).len() ==> verification_command(#[trigger] run(a, evs)[i]),
    decreases evs.len(),
{
    if evs.len() > 0 && expects_event(a.phase, evs[0]) {
        let e = evs[0];
        lemma_next_keeps_invariant(a, e);
        let (a1, ca) = next(a, e);
        assert(verification_command(ca));
        lemma_verification_run(a1, evs.drop_first());
        let r = run(a, evs);
        assert forall|i: int| 0 <= i < r.len() implies verification_command(#[trigger] r[i]) by {
            if i > 0 {
                assert(r[i] == run(a1, evs.drop_first())[i - 1]);
            }
        }
    }
}

/// With stored templates, a run only verifies, and the stored templates'
/// qualities make no difference: runs over two lists with the same templates
/// in the same order give the same commands for the same replies; none asks
/// the user for anything or stores a sample, and any result they end with
/// has a score and a percentage and enrolled nothing.
pub proof fn lemma_verification_ignores_qualities(
    w: WorkflowView,
    s1: Seq<StoredTemplate>,
    s2: Seq<StoredTemplate>,
    evs: Seq<EventView>,
)
    requires
        inv(w),
        w.phase == Phase::Start,
        w.stored == templates_view(s1),
        s1.len() > 0,
        s1.len() == s2.len(),
        forall|i: int| 0 <= i < s1.len() ==> (#[trigger] s1[i]).template@ == s2[i].template@,
    ensures
        full_run(w, evs) == full_run(WorkflowView { stored: templates_view(s2), ..w }, evs),
        forall|i: int|
            0 <= i < full_run(w, evs).len() ==> verification_command(#[trigger] full_run(w, evs)[i]),
{
    assert(templates_view(s1) =~= templates_view(s2));
    assert(WorkflowView { stored: templates_view(s2), ..w } == w);
    assert(verification_command(begin(w).1));
    lemma_verification_run(begin(w).0, evs);
    let r = full_run(w, evs);
    assert forall|i: int| 0 <= i < r.len() implies verification_command(#[trigger] r[i]) by {
        if i > 0 {
            assert(r[i] == run(begin(w).0, evs)[i - 1]);
        }
    }
}

/// From a request for the finger, one successful reading: the state once it
/// is reported.
pub open spec fn one_reading(w: WorkflowView, template: Seq<char>, quality: i32) -> WorkflowView {
    let announced = next(w, EventView::Done).0;
    let capturing = next(announced, EventView::Done).0;
    next(capturing, EventView::Captured { code: CODE_OK, template: Some(template), quality }).0
}

/// From a reported reading that is not the last: the state once the finger
/// is asked for again.
pub open spec fn next_attempt(w: WorkflowView) -> WorkflowView {
    next(next(w, EventView::Done).0, EventView::Done).0
}

/// An enrollment keeps, of its three readings, the first one of the highest
/// quality: it stores that sample when the quality reaches the threshold,
/// and otherwise ends refused with that quality.
pub proof fn lemma_best_of_three(
    w: WorkflowView,
    t1: Seq<char>,
    q1: i32,
    t2: Seq<char>,
    q2: i32,
    t3: Seq<char>,
    q3: i32,
)
    requires
        inv(w),
        w.phase == Phase::Prompting,
        w.attempt == 1,
        w.best is None,
        w.stored.len() == 0,
    ensures
        ({
            let w3 = one_reading(next_attempt(one_reading(next_attempt(one_reading(w, t1, q1)), t2, q2)), t3, q3);
            let (last, c) = next(w3, EventView::Done);
            let best = if q1 >= q2 && q1 >= q3 {
                q1
            } else if q2 >= q3 {
                q2
            } else {
                q3
            };
            let chosen = if q1 == best {
                t1
            } else if q2 == best {
                t2
            } else {
                t3
            };
            if best >= MIN_ENROLL_QUALITY {
                &&& last.phase == (Phase::Persisting { quality: best })
                &&& c.op == OperationView::Persist(
                    RecordView { user_id: w.user_id, template: chosen, quality: best, finger: w.finger },
                )
            } else {
                &&& last.phase == Phase::Finished
                &&& c.op == OperationView::Finish(Ok(insufficient_quality_outcome(best)))
            }
        }),
{
}

/// The matches that successful comparisons with these raw scores give.
pub open spec fn matches_of(scores: Seq<i32>) -> Seq<MatchResult> {
    scores.map_values(|s: i32| MatchResult { raw_score: s, percent: percent_of(s as int) as i32 })
}

/// From the comparison at `k` on: the state and command once each remaining
/// comparison succeeded with its raw score in `scores`.
pub open spec fn compare_all(w: WorkflowView, scores: Seq<i32>, k: int) -> (
    WorkflowView,
    CommandView,
)
    decreases scores.len() - k,
{
    let step = next(w, EventView::Compared { code: CODE_OK, raw_score: scores[k] });
    if k < 0 || k + 1 >= scores.len() {
        step
    } else {
        compare_all(step.0, scores, k + 1)
    }
}

proof fn lemma_compare_all(w: WorkflowView, scores: Seq<i32>, k: int)
    requires
        inv(w),
        w.phase == (Phase::Comparing { index: k as usize }),
        0 <= k < scores.len(),
        scores.len() == w.stored.len(),
        w.best_match == best_of(matches_of(scores).take(k)),
    ensures
        compare_all(w, scores, k).1.op == OperationView::Finish(
            Ok(verification_outcome(best_of(matches_of(scores))->0, w.live->0.quality, w.min_percent)),
        ),
    decreases scores.len() - k,
{
    let ms = matches_of(scores);
    assert(ms.take(k + 1).drop_last() =~= ms.take(k));
    assert(ms.take(k + 1).last() == ms[k]);
    let step = next(w, EventView::Compared { code: CODE_OK, raw_score: scores[k] });
    if k + 1 < scores.len() {
        lemma_compare_all(step.0, scores, k + 1);
    } else {
        assert(ms.take(k + 1) =~= ms);
    }
}

/// A verification whose capture and comparisons all succeed reports the best
/// match over all stored templates (see `lemma_best_of`: the highest
/// percentage, the first of equal ones) against the caller's minimum, with
/// the live sample's quality.
pub proof fn lemma_verification_reports_best(
    w: WorkflowView,
    retried: bool,
    template: Seq<char>,
    quality: i32,
    scores: Seq<i32>,
)
    requires
        inv(w),
        w.phase == (Phase::Capturing { retried }),
        w.best_match is None,
        w.stored.len() > 0,
        scores.len() == w.stored.len(),
    ensures
        ({
            let live = next(w, EventView::Captured { code: CODE_OK, template: Some(template), quality }).0;
            compare_all(live, scores, 0).1.op == OperationView::Finish(
                Ok(verification_outcome(best_of(matches_of(scores))->0, quality, w.min_percent)),
            )
        }),
{
    let live = next(w, EventView::Captured { code: CODE_OK, template: Some(template), quality }).0;
    assert(matches_of(scores).take(0) =~= Seq::<MatchResult>::empty());
    lemma_compare_all(live, scores, 0);
}

pub open spec fn sample_view(s: Option<CaptureSample>) -> Option<SampleView> {
    match s {
        Some(x) => Some(x@),
        None => None,
    }
}

pub open spec fn templates_view(stored: Seq<StoredTemplate>) -> Seq<Seq<char>> {
    stored.map_values(|t: StoredTemplate| t.template@)
}

/// The finger recorded with an enrollment.
pub open spec fn finger_label(finger_id: Option<Seq<char>>) -> Seq<char> {
    match finger_id {
        Some(f) => f,
        None => DEFAULT_FINGER@,
    }
}

/// One enroll-or-verify run, driven by the device's replies.
///
/// `start` gives the first command; after performing each command the
/// caller reports what came of it to `step`, which gives the next one, until
/// a `Finish` command carries the result.
pub struct Workflow {
    phase: Phase,
    session: SessionState,
    user_id: String,
    min_percent: i32,
    finger: String,
    stored: Vec<StoredTemplate>,
    attempt: u32,
    best: Option<CaptureSample>,
    live: Option<CaptureSample>,
    best_match: Option<MatchResult>,
}

impl View for Workflow {
    type V = WorkflowView;

    closed spec fn view(&self) -> WorkflowView {
        WorkflowView {
            phase: self.phase,
            session: self.session,
            user_id: self.user_id@,
            min_percent: self.min_percent,
            finger: self.finger@,
            stored: templates_view(self.stored@),
            attempt: self.attempt,
            best: sample_view(self.best),
            live: sample_view(self.live),
            best_match: self.best_match,
        }
    }
}

impl Workflow {
    /// A run for `user_id` against the templates stored for that user,
    /// starting from the given session state.
    pub fn new(
        user_id: String,
        min_percent: i32,
        finger_id: Option<String>,
        stored: Vec<StoredTemplate>,
        session: SessionState,
    ) -> (r: Workflow)
        ensures
            r@ == (WorkflowView {
                phase: Phase::Start,
                session,
                user_id: user_id@,
                min_percent,
                finger: finger_label(text_view(finger_id)),
                stored: templates_view(stored@),
                attempt: 0,
                best: None,
                live: None,
                best_match: None,
            }),
            inv(r@),
    {
        // A vector's length fits in usize; the invariant records it.
        let _ = stored.len();
        let finger = match finger_id {
            Some(f) => f,
            None => String::from_str(DEFAULT_FINGER),
        };
        Workflow {
            phase: Phase::Start,
            session,
            user_id,
            min_percent,
            finger,
            stored,
            attempt: 0,
            best: None,
            live: None,
            best_match: None,
        }
    }

    pub fn phase(&self) -> (r: Phase)
        ensures
            r == self@.phase,
    {
        self.phase
    }

    /// The session state, to hand on to the next run.
    pub fn session(&self) -> (r: SessionState)
        ensures
            r == self@.session,
    {
        self.session
    }

    /// Whether the run waits for this event.
    pub fn expects(&self, ev: &Event) -> (r: bool)
        ensures
            r == expects_event(self@.phase, ev@),
    {
        match self.phase {
            Phase::Start | Phase::Finished => false,
            Phase::Initializing { .. } => matches!(ev, Event::Initialized(_)),
            Phase::CheckingDriver => matches!(ev, Event::DriverChecked(_)),
            Phase::Capturing { .. } => matches!(ev, Event::Captured { .. }),
            Phase::Comparing { .. } => matches!(ev, Event::Compared { .. }),
            _ => matches!(ev, Event::Done),
        }
    }

    /// The first command.
    pub fn start(&mut self) -> (r: Command)
        requires
            inv(old(self)@),
            old(self)@.phase == Phase::Start,
        ensures
            (final(self)@, r@) == begin(old(self)@),
            inv(final(self)@),
    {
        if self.session == SessionState::Ready {
            self.begin_work(0)
        } else {
            self.phase = Phase::Initializing { reinit: false };
            self.session = SessionState::Initializing;
            Command { pause_ms: 0, op: Operation::Init }
        }
    }

    /// The command that follows `ev`.
    pub fn step(&mut self, ev: Event) -> (r: Command)
        requires
            inv(old(self)@),
            expects_event(old(self)@.phase, ev@),
        ensures
            (final(self)@, r@) == next(old(self)@, ev@),
            inv(final(self)@),
    {
        match ev {
            Event::Initialized(code) => match self.phase {
                Phase::Initializing { reinit } => self.on_init(reinit, code),
                _ => unreached(),
            },
            Event::DriverChecked(installed) => self.fail(no_device_error(installed)),
            Event::Captured { code, template, quality } => match self.phase {
                Phase::Capturing { retried } => self.on_capture(retried, code, template, quality),
                _ => unreached(),
            },
            Event::Compared { code, raw_score } => match self.phase {
                Phase::Comparing { index } => self.on_compare(index, code, raw_score),
                _ => unreached(),
            },
            Event::Done => match self.phase {
                Phase::Terminating => {
                    self.phase = Phase::Initializing { reinit: true };
                    self.session = SessionState::Initializing;
                    Command { pause_ms: REINIT_SETTLE_MS, op: Operation::Init }
                },
                Phase::Prompting => {
                    self.phase = Phase::Announcing;
                    let m = notice(WAITING_TEXT, self.attempt, WAITING_END);
                    Command { pause_ms: PLACE_PAUSE_MS, op: Operation::Notify(m) }
                },
                Phase::Announcing => {
                    self.phase = Phase::Capturing { retried: false };
                    Command { pause_ms: 0, op: Operation::Capture }
                },
                Phase::Reporting => {
                    if self.attempt < ENROLL_ATTEMPTS {
                        self.phase = Phase::Releasing;
                        let m = String::from_str(REMOVE_TEXT);
                        Command { pause_ms: REPORT_PAUSE_MS, op: Operation::Notify(m) }
                    } else {
                        self.after_readings()
                    }
                },
                Phase::Releasing => {
                    self.attempt = self.attempt + 1;
                    self.phase = Phase::Prompting;
                    let m = notice(PLACE_TEXT, self.attempt, PLACE_END);
                    Command { pause_ms: RELEASE_PAUSE_MS, op: Operation::Notify(m) }
                },
                Phase::Persisting { quality } => self.finish(enrolled(quality)),
                _ => unreached(),
            },
        }
    }

    fn fail(&mut self, e: DeviceError) -> (r: Command)
        requires
            inv(old(self)@),
        ensures
            (final(self)@, r@) == fail(old(self)@, e),
            inv(final(self)@),
    {
        self.phase = Phase::Finished;
        self.session = SessionState::Faulted;
        Command { pause_ms: 0, op: Operation::Finish(Err(e)) }
    }

    fn finish(&mut self, o: BiometricValidationResult) -> (r: Command)
        requires
            inv(old(self)@),
        ensures
            (final(self)@, r@) == finish(old(self)@, o@),
            inv(final(self)@),
    {
        self.phase = Phase::Finished;
        Command { pause_ms: 0, op: Operation::Finish(Ok(o)) }
    }

    fn begin_work(&mut self, pause_ms: u32) -> (r: Command)
        requires
            inv(old(self)@),
            old(self)@.session == SessionState::Ready,
        ensures
            (final(self)@, r@) == begin_work(old(self)@, pause_ms),
            inv(final(self)@),
    {
        if self.stored.len() == 0 {
            self.phase = Phase::Prompting;
            self.attempt = 1;
            let m = notice(PLACE_TEXT, 1, PLACE_END);
            Command { pause_ms, op: Operation::Notify(m) }
        } else {
            self.phase = Phase::Capturing { retried: false };
            Command { pause_ms, op: Operation::Capture }
        }
    }

    fn on_init(&mut self, reinit: bool, code: i32) -> (r: Command)
        requires
            inv(old(self)@),
            old(self)@.phase == (Phase::Initializing { reinit }),
        ensures
            (final(self)@, r@) == on_init(old(self)@, reinit, code),
            inv(final(self)@),
    {
        match init_sdk(code) {
            InitStatus::Failed(e) => self.fail(e),
            InitStatus::NoDevice => {
                self.phase = Phase::CheckingDriver;
                Command { pause_ms: 0, op: Operation::CheckDriver }
            },
            InitStatus::Ready => self.ready(INIT_SETTLE_MS, reinit),
            InitStatus::AlreadyInitialized => self.ready(ALREADY_INIT_SETTLE_MS, reinit),
        }
    }

    fn ready(&mut self, pause_ms: u32, reinit: bool) -> (r: Command)
        requires
            inv(old(self)@),
            old(self)@.phase is Initializing,
        ensures
            ({
                let ready = WorkflowView { session: SessionState::Ready, ..old(self)@ };
                (final(self)@, r@) == if reinit {
                    (
                        WorkflowView { phase: Phase::Capturing { retried: true }, ..ready },
                        cmd(pause_ms, OperationView::Capture),
                    )
                } else {
                    begin_work(ready, pause_ms)
                }
            }),
            inv(final(self)@),
    {
        self.session = SessionState::Ready;
        if reinit {
            self.phase = Phase::Capturing { retried: true };
            Command { pause_ms, op: Operation::Capture }
        } else {
            self.begin_work(pause_ms)
        }
    }

    fn on_capture(&mut self, retried: bool, code: i32, template: Option<String>, quality: i32) -> (r:
        Command)
        requires
            inv(old(self)@),
            old(self)@.phase == (Phase::Capturing { retried }),
        ensures
            (final(self)@, r@) == on_capture(old(self)@, retried, code, text_view(template), quality),
            inv(final(self)@),
    {
        match capture_with_sdk(code, template, quality, retried) {
            CaptureStatus::Captured(s) => {
                if self.stored.len() == 0 {
                    let q = s.quality;
                    let mut prev: Option<CaptureSample> = None;
                    core::mem::swap(&mut prev, &mut self.best);
                    self.best = Some(keep_better_sample(prev, s));
                    self.phase = Phase::Reporting;
                    let m = reading_text(self.attempt, q);
                    Command { pause_ms: 0, op: Operation::Notify(m) }
                } else {
                    let stored = self.stored[0].template.clone();
                    let live = s.template.clone();
                    self.live = Some(s);
                    self.phase = Phase::Comparing { index: 0 };
                    Command { pause_ms: 0, op: Operation::Compare { stored, live } }
                }
            },
            CaptureStatus::Reinitialize => {
                self.phase = Phase::Terminating;
                self.session = SessionState::Terminated;
                Command { pause_ms: 0, op: Operation::Terminate }
            },
            CaptureStatus::Failed(e) => self.fail(e),
        }
    }

    fn after_readings(&mut self) -> (r: Command)
        requires
            inv(old(self)@),
            old(self)@.phase == Phase::Reporting,
        ensures
            (final(self)@, r@) == after_readings(old(self)@),
            inv(final(self)@),
    {
        let (template, quality) = match &self.best {
            Some(b) => (b.template.clone(), b.quality),
            None => unreached(),
        };
        if quality >= MIN_ENROLL_QUALITY {
            self.phase = Phase::Persisting { quality };
            let record = TemplateRecord {
                user_id: self.user_id.clone(),
                template,
                quality,
                finger: self.finger.clone(),
            };
            Command { pause_ms: REPORT_PAUSE_MS, op: Operation::Persist(record) }
        } else {
            self.finish(insufficient_quality(quality))
        }
    }

    fn on_compare(&mut self, index: usize, code: i32, raw_score: i32) -> (r: Command)
        requires
            inv(old(self)@),
            old(self)@.phase == (Phase::Comparing { index }),
        ensures
            (final(self)@, r@) == on_compare(old(self)@, index, code, raw_score),
            inv(final(self)@),
    {
        match compare_templates_with_sdk(code, raw_score) {
            Ok(m) => {
                assert(self@.stored.len() == self.stored@.len());
                let bm = keep_better_match(self.best_match, m);
                self.best_match = Some(bm);
                let (live, live_quality) = match &self.live {
                    Some(l) => (l.template.clone(), l.quality),
                    None => unreached(),
                };
                let n = self.stored.len();
                if index + 1 < n {
                    let stored = self.stored[index + 1].template.clone();
                    self.phase = Phase::Comparing { index: index + 1 };
                    Command { pause_ms: 0, op: Operation::Compare { stored, live } }
                } else {
                    self.finish(verification_result(bm, live_quality, self.min_percent))
                }
            },
            Err(e) => self.fail(e),
        }
    }
}

} // verus!
