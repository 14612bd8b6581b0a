//! One automated scan run, from the search for the first limb to the way back
//! to the disc centre.
//!
//! A run backs off until the disc has left the slit, then sweeps across the
//! disc while the camera records, once or several times in alternating
//! directions, and finally returns to the centre. Each call looks at the clock,
//! the mount, the recorder and the newest camera signal, and says what to do.
//!
//! Angles are millionths of a degree, times are milliseconds. The camera signal
//! is compared with its value on the centred disc before it comes here: clear
//! of the disc, on the disc, or neither.

use crate::auto_center::CLOCK_LIMIT_MS;
use crate::mount::{rate_hundredths, Direction};
use crate::text::{decimal, decimal_string};
use vstd::prelude::*;
use vstd::string::StringExecFns;

verus! {

/// Rate of every move but the sweep itself: sixty times sidereal.
pub const PROBE_RATE_INDEX: u8 = 7;

pub const SETTLE_MS: u64 = 1_200;

pub const PRE_ROLL_MS: u64 = 350;

pub const POST_ROLL_MS: u64 = 350;

pub const PREPOSITION_STEP: u64 = 80_000;

pub const PREPOSITION_SETTLE_MS: u64 = 250;

pub const PREPOSITION_SAMPLE_TIMEOUT_MS: u64 = 1_500;

pub const REQUIRED_SAMPLES: usize = 2;

pub const SCAN_TAIL_CHECK_MS: u64 = 1_500;

pub const RECENTER_SETTLE_MS: u64 = 400;

pub const RECENTER_CHECK_TIMEOUT_MS: u64 = 1_800;

pub const RECORDER_START_MS: u64 = 8_000;

/// Extra travel past each limb, for prominences.
pub const LIMB_MARGIN_DEFAULT: u64 = 30_000;

pub const LIMB_MARGIN_MAX: u64 = 300_000;

/// Limb margins backed off before a sweep: one to take up backlash and come up
/// to speed, one that is recorded.
pub const RUN_UP_MARGINS: u64 = 2;

pub const SPAN_MIN: u64 = 550_000;

pub const SPAN_MAX: u64 = 2_000_000;

/// Shortest way back to the centre.
pub const RECENTER_MIN: u64 = 50_000;

/// Millionths of a degree per millisecond at the probe rate.
pub const PROBE_SPEED: u64 = 250;

/// Stages of a run.
#[derive(Clone, Copy, Debug, PartialEq, Eq, Structural)]
pub enum RunPhase {
    PrepositionMoving,
    PrepositionSampling,
    PrepositionMargin,
    InterScanMargin,
    Settling,
    AwaitRecorder,
    PreRoll,
    Scanning,
    Overshoot,
    ScanTailCheck,
    PostRoll,
    WaitingForRecorder,
    Recentering,
    RecenterCheck,
    Complete,
}

impl RunPhase {
    pub open spec fn spec_describe(self) -> Seq<char> {
        match self {
            RunPhase::PrepositionMoving => "seeking the first limb"@,
            RunPhase::PrepositionSampling => "seeking the first limb"@,
            RunPhase::PrepositionMargin => "backing off the run-up"@,
            RunPhase::InterScanMargin => "backing off the run-up"@,
            RunPhase::Settling => "settling"@,
            RunPhase::AwaitRecorder => "opening the SER file"@,
            RunPhase::PreRoll => "recording pre-roll"@,
            RunPhase::Scanning => "sweeping across the disc"@,
            RunPhase::Overshoot => "recording past the far limb"@,
            RunPhase::ScanTailCheck => "confirming the far limb"@,
            RunPhase::PostRoll => "recording post-roll"@,
            RunPhase::WaitingForRecorder => "finalising the SER file"@,
            RunPhase::Recentering => "re-centring the disc"@,
            RunPhase::RecenterCheck => "re-centring the disc"@,
            RunPhase::Complete => "finishing"@,
        }
    }

    /// Plain wording for a status line.
    pub fn describe(self) -> (text: &'static str)
        ensures
            text@ == self.spec_describe(),
    {
        match self {
            RunPhase::PrepositionMoving | RunPhase::PrepositionSampling =>
                "seeking the first limb",
            RunPhase::PrepositionMargin | RunPhase::InterScanMargin => "backing off the run-up",
            RunPhase::Settling => "settling",
            RunPhase::AwaitRecorder => "opening the SER file",
            RunPhase::PreRoll => "recording pre-roll",
            RunPhase::Scanning => "sweeping across the disc",
            RunPhase::Overshoot => "recording past the far limb",
            RunPhase::ScanTailCheck => "confirming the far limb",
            RunPhase::PostRoll => "recording post-roll",
            RunPhase::WaitingForRecorder => "finalising the SER file",
            RunPhase::Recentering | RunPhase::RecenterCheck => "re-centring the disc",
            RunPhase::Complete => "finishing",
        }
    }
}

/// What is fixed for a run.
#[derive(Clone, Copy, Debug, PartialEq, Eq, Structural)]
pub struct ScanPlan {
    /// Direction of the first sweep.
    pub direction: Direction,
    /// Rate of the sweeps.
    pub rate_index: u8,
    pub limb_margin: u64,
    pub max_steps: u64,
}

/// The search for the first limb.
#[derive(Clone, Copy, Debug, PartialEq, Eq, Structural)]
pub struct Seek {
    pub last_seq: u64,
    pub steps: u64,
    pub samples: usize,
    pub clear_samples: usize,
}

/// What the camera saw during a sweep.
#[derive(Clone, Copy, Debug, PartialEq, Eq)]
pub struct Sweep {
    pub last_seq: u64,
    pub present_samples: usize,
    pub seen_disc: bool,
    pub clear_samples: usize,
    pub entry_at: Option<u64>,
    pub exit_at: Option<u64>,
}

/// The check after the way back.
#[derive(Clone, Copy, Debug, PartialEq, Eq, Structural)]
pub struct Recenter {
    pub last_seq: u64,
    pub present_samples: usize,
}

/// A run.
#[derive(Clone, Copy, Debug, PartialEq, Eq)]
pub struct ScanRun {
    pub phase: RunPhase,
    pub plan: ScanPlan,
    /// Number of scans that are saved.
    pub scan_index: usize,
    /// Travel of one sweep.
    pub scan_span: u64,
    pub seek: Seek,
    pub sweep: Sweep,
    pub recenter: Recenter,
    pub settle_until: u64,
    pub deadline: u64,
}

/// The newest camera signal. A signal that is no number is not finite.
#[derive(Clone, Copy, Debug, PartialEq, Eq, Structural)]
pub struct SignalSample {
    pub seq: u64,
    pub finite: bool,
    /// At most a quarter of the signal on the disc.
    pub clear: bool,
    /// At least forty-five hundredths of the signal on the disc.
    pub present: bool,
}

/// What the recorder is doing.
#[derive(Clone, Copy, Debug, PartialEq, Eq, Structural)]
pub struct Recorder {
    pub recording: bool,
    /// It reports that frames are being written.
    pub started: bool,
    /// It reports a failed recording.
    pub failed: bool,
}

/// Everything a run looks at.
#[derive(Clone, Copy, Debug, PartialEq, Eq)]
pub struct ScanInput {
    pub now: u64,
    pub sample: Option<SignalSample>,
    pub recorder: Recorder,
    /// The last commanded move is finished.
    pub nudge_done: bool,
    /// The spectral line to record is known.
    pub anchored: bool,
    pub scan_count: usize,
}

/// What a run asks for.
#[derive(Clone, Copy, Debug, PartialEq, Eq, Structural)]
pub enum ScanAction {
    Wait,
    Nudge { direction: Direction, duration_ms: u64, rate: u8 },
    StartRecording,
    StopMotion,
    StopRecording,
    /// The run is over; `verified` says whether the camera sees the disc again.
    Finish { verified: bool },
}

/// Why a run fails.
#[derive(Clone, Copy, Debug, PartialEq, Eq, Structural)]
pub enum ScanFailure {
    LimbNotFound { steps: u64 },
    NoFreshFrame,
    AnchorLost,
    RecorderDidNotStart,
    DiscDidNotClear { span: u64 },
    DiscNeverSeen,
    RecorderFailed,
    NoNearLimb,
    NoFarLimb,
    BadCrossing,
}

impl ScanFailure {
    /// The last scan is saved; only the way back to the centre fails.
    pub open spec fn after_saving(self) -> bool {
        self == ScanFailure::NoNearLimb || self == ScanFailure::NoFarLimb || self
            == ScanFailure::BadCrossing
    }

    pub fn comes_after_saving(self) -> (r: bool)
        ensures
            r == self.after_saving(),
    {
        match self {
            ScanFailure::NoNearLimb => true,
            ScanFailure::NoFarLimb => true,
            ScanFailure::BadCrossing => true,
            _ => false,
        }
    }
}

/// What the status line should now say.
#[derive(Clone, Copy, Debug, PartialEq, Eq, Structural)]
pub enum ScanStatus {
    Unchanged,
    LimbMoved { steps: u64 },
    LimbSignal { steps: u64 },
    BackingOff { run_up: u64 },
    ClearedSettling { span: u64 },
    ExtendingSearch { steps: u64 },
    RunUpSettling { span: u64 },
    RunUpNextScan { number: usize },
    OpeningSer { number: usize },
    PreRoll { number: usize },
    Moving { number: usize, direction: Direction },
    DiscSignal { number: usize },
    WaitingForDisc { number: usize },
    FarLimbCleared { number: usize },
    ConfirmingOffSensor,
    SpanSpent { number: usize },
    MarginCovered { number: usize },
    ConfirmingFarLimb,
    FarLimbConfirmed { number: usize },
    Finalising,
    SavedBackingOff { number: usize, extra: u64 },
    SavedSettling { number: usize },
    Recentering { distance: u64, direction: Direction },
    RecenterReached,
    VerifyingRecenter,
}

/// Answer of a run.
#[derive(Clone, Copy, Debug, PartialEq, Eq)]
pub struct ScanStep {
    pub run: ScanRun,
    pub action: ScanAction,
    pub status: ScanStatus,
    /// The report of the finished move was used up.
    pub took_nudge: bool,
}

/// Direction of a sweep: they alternate.
pub open spec fn sweep_direction(first: Direction, index: int) -> Direction {
    if index % 2 == 0 {
        first
    } else {
        first.spec_opposite()
    }
}

/// Direction of the sweep with the given number, counted from zero.
pub fn scan_direction(first: Direction, index: usize) -> (d: Direction)
    ensures
        d == sweep_direction(first, index as int),
{
    if index % 2 == 0 {
        first
    } else {
        first.opposite()
    }
}

/// Two successive sweeps go opposite ways.
pub proof fn sweeps_alternate(first: Direction, index: int)
    ensures
        sweep_direction(first, index + 1) == sweep_direction(first, index).spec_opposite(),
        sweep_direction(first, index + 2) == sweep_direction(first, index),
        sweep_direction(first, 0) == first,
{
}

pub open spec fn clamped(x: int, low: int, high: int) -> int {
    if x < low {
        low
    } else if x > high {
        high
    } else {
        x
    }
}

/// Travel time at a rate given in hundredths of the sidereal rate, in whole
/// milliseconds. The sidereal sky moves fifteen arcseconds per second.
pub open spec fn travel_ms(span: int, hundredths: int) -> int {
    span * 24 / hundredths
}

/// Time of a leg that is not a whole sweep.
pub fn scan_duration_exact(span: u64, rate_index: u8) -> (ms: u64)
    requires
        span <= 100_000_000,
        rate_index < 10,
    ensures
        ms == travel_ms(span as int, rate_hundredths(rate_index as int)),
{
    let r = crate::mount::rate(rate_index as usize);
    assert(r.hundredths > 0);
    span * 24 / r.hundredths as u64
}

/// Time of a whole sweep, whose span is kept within its bounds.
pub fn scan_duration(span: u64, rate_index: u8) -> (ms: u64)
    requires
        rate_index < 10,
    ensures
        ms == travel_ms(
            clamped(span as int, SPAN_MIN as int, SPAN_MAX as int),
            rate_hundredths(rate_index as int),
        ),
{
    let bounded: u64 = if span < SPAN_MIN {
        SPAN_MIN
    } else if span > SPAN_MAX {
        SPAN_MAX
    } else {
        span
    };
    scan_duration_exact(bounded, rate_index)
}

pub open spec fn step(run: ScanRun, action: ScanAction, status: ScanStatus) -> Result<
    ScanStep,
    ScanFailure,
> {
    Ok(ScanStep { run, action, status, took_nudge: false })
}

pub open spec fn stay(run: ScanRun) -> Result<ScanStep, ScanFailure> {
    step(run, ScanAction::Wait, ScanStatus::Unchanged)
}

/// A step that used up the report of the finished move.
pub open spec fn taking(r: Result<ScanStep, ScanFailure>) -> Result<ScanStep, ScanFailure> {
    match r {
        Ok(s) => Ok(ScanStep { took_nudge: true, ..s }),
        Err(e) => Err(e),
    }
}

/// The run settles before it records.
pub open spec fn settling(run: ScanRun, now: u64) -> ScanRun {
    ScanRun { phase: RunPhase::Settling, settle_until: (now + SETTLE_MS) as u64, ..run }
}

/// Another step away from the disc, as far as the search may go.
pub open spec fn search_further(run: ScanRun, status: ScanStatus) -> Result<ScanStep, ScanFailure> {
    if run.seek.steps >= run.plan.max_steps {
        Err(ScanFailure::LimbNotFound { steps: run.seek.steps })
    } else {
        step(
            ScanRun {
                phase: RunPhase::PrepositionMoving,
                seek: Seek { steps: (run.seek.steps + 1) as u64, ..run.seek },
                ..run
            },
            ScanAction::Nudge {
                direction: run.plan.direction.spec_opposite(),
                duration_ms: PREPOSITION_STEP / PROBE_SPEED,
                rate: PROBE_RATE_INDEX,
            },
            status,
        )
    }
}

/// The travel of a sweep once the first limb is found: where it was further
/// away than half the span, the span grows by the difference.
pub open spec fn extended_span(span: int, steps: int) -> int {
    let distance = steps * PREPOSITION_STEP;
    if distance > span / 2 {
        span + distance - span / 2
    } else {
        span
    }
}

/// The first limb is found: back off the run-up of two margins, or settle at
/// once without a margin. The sweep then travels the run-up and one more margin
/// behind the far limb.
pub open spec fn limb_found(run: ScanRun, now: u64) -> Result<ScanStep, ScanFailure> {
    let span = extended_span(run.scan_span as int, run.seek.steps as int);
    let margin = run.plan.limb_margin as int;
    if margin > 0 {
        step(
            ScanRun {
                phase: RunPhase::PrepositionMargin,
                scan_span: (span + 3 * margin) as u64,
                ..run
            },
            ScanAction::Nudge {
                direction: run.plan.direction.spec_opposite(),
                duration_ms: (2 * margin / PROBE_SPEED as int) as u64,
                rate: PROBE_RATE_INDEX,
            },
            ScanStatus::BackingOff { run_up: (2 * margin) as u64 },
        )
    } else {
        step(
            settling(ScanRun { scan_span: span as u64, ..run }, now),
            ScanAction::Wait,
            ScanStatus::ClearedSettling { span: span as u64 },
        )
    }
}

/// One camera frame during the search for the first limb.
pub open spec fn limb_sample(run: ScanRun, s: SignalSample, now: u64) -> Result<
    ScanStep,
    ScanFailure,
> {
    let seen = ScanRun {
        seek: Seek {
            last_seq: s.seq,
            samples: (run.seek.samples + 1) as usize,
            clear_samples: if s.clear {
                (run.seek.clear_samples + 1) as usize
            } else {
                0
            },
            ..run.seek
        },
        ..run
    };
    if seen.seek.clear_samples >= REQUIRED_SAMPLES {
        limb_found(seen, now)
    } else if seen.seek.samples >= REQUIRED_SAMPLES {
        match search_further(
            seen,
            ScanStatus::ExtendingSearch { steps: (seen.seek.steps + 1) as u64 },
        ) {
            Ok(x) => Ok(x),
            Err(e) => Err(e),
        }
    } else {
        step(seen, ScanAction::Wait, ScanStatus::LimbSignal { steps: run.seek.steps })
    }
}

/// The sample is newer than what the sweep has seen, and is a number.
pub open spec fn counts(s: Option<SignalSample>, after: u64) -> bool {
    s is Some && s->0.seq > after && s->0.finite
}

/// One camera frame during a sweep: two frames on the disc say that it has
/// entered, two clear ones after that say that it has left.
pub open spec fn observed(w: Sweep, s: SignalSample, now: u64) -> Sweep {
    if !w.seen_disc {
        let present: usize = if s.present {
            (w.present_samples + 1) as usize
        } else {
            0
        };
        if present >= REQUIRED_SAMPLES {
            Sweep {
                last_seq: s.seq,
                present_samples: present,
                seen_disc: true,
                clear_samples: 0,
                entry_at: Some(now),
                ..w
            }
        } else {
            Sweep { last_seq: s.seq, present_samples: present, ..w }
        }
    } else {
        let clear: usize = if s.clear {
            (w.clear_samples + 1) as usize
        } else {
            0
        };
        Sweep {
            last_seq: s.seq,
            clear_samples: clear,
            exit_at: if clear >= REQUIRED_SAMPLES && w.exit_at is None {
                Some(now)
            } else {
                w.exit_at
            },
            ..w
        }
    }
}

pub open spec fn has_cleared(w: Sweep) -> bool {
    w.seen_disc && w.clear_samples >= REQUIRED_SAMPLES
}

/// A sweep under way.
pub open spec fn sweeping(run: ScanRun, i: ScanInput) -> Result<ScanStep, ScanFailure> {
    let number: usize = (run.scan_index + 1) as usize;
    let fresh = counts(i.sample, run.sweep.last_seq);
    let sweep = if fresh {
        observed(run.sweep, i.sample->0, i.now)
    } else {
        run.sweep
    };
    let watched = ScanRun { sweep, ..run };
    if fresh && has_cleared(sweep) {
        step(
            ScanRun {
                phase: RunPhase::Overshoot,
                deadline: (i.now + travel_ms(
                    run.plan.limb_margin as int,
                    rate_hundredths(run.plan.rate_index as int),
                )) as u64,
                ..watched
            },
            ScanAction::Wait,
            ScanStatus::FarLimbCleared { number },
        )
    } else if i.nudge_done {
        taking(
            step(
                ScanRun {
                    phase: RunPhase::ScanTailCheck,
                    deadline: (i.now + SCAN_TAIL_CHECK_MS) as u64,
                    ..watched
                },
                ScanAction::Wait,
                ScanStatus::ConfirmingOffSensor,
            ),
        )
    } else {
        step(
            watched,
            ScanAction::Wait,
            if !fresh {
                ScanStatus::Unchanged
            } else if sweep.seen_disc {
                ScanStatus::DiscSignal { number }
            } else {
                ScanStatus::WaitingForDisc { number }
            },
        )
    }
}

/// The short wait for the last frames after the span is travelled.
pub open spec fn tail_check(run: ScanRun, i: ScanInput) -> Result<ScanStep, ScanFailure> {
    let number: usize = (run.scan_index + 1) as usize;
    let fresh = counts(i.sample, run.sweep.last_seq);
    let sweep = if fresh {
        observed(run.sweep, i.sample->0, i.now)
    } else {
        run.sweep
    };
    let watched = ScanRun { sweep, ..run };
    if fresh && has_cleared(sweep) {
        step(
            ScanRun {
                phase: RunPhase::PostRoll,
                deadline: (i.now + POST_ROLL_MS) as u64,
                ..watched
            },
            ScanAction::Wait,
            ScanStatus::FarLimbConfirmed { number },
        )
    } else if i.now >= run.deadline {
        Err(
            if sweep.seen_disc {
                ScanFailure::DiscDidNotClear { span: run.scan_span }
            } else {
                ScanFailure::DiscNeverSeen
            },
        )
    } else {
        step(
            watched,
            ScanAction::Wait,
            if fresh {
                ScanStatus::ConfirmingFarLimb
            } else {
                ScanStatus::Unchanged
            },
        )
    }
}

/// Distance from the last limb back to the disc centre: half of the crossing.
pub open spec fn recenter_distance(run: ScanRun) -> Result<int, ScanFailure> {
    match (run.sweep.entry_at, run.sweep.exit_at) {
        (None, _) => Err(ScanFailure::NoNearLimb),
        (_, None) => Err(ScanFailure::NoFarLimb),
        (Some(entry), Some(exit)) => if exit <= entry {
            Err(ScanFailure::BadCrossing)
        } else {
            Ok(
                clamped(
                    (exit - entry) * rate_hundredths(run.plan.rate_index as int) / 48,
                    RECENTER_MIN as int,
                    (run.scan_span / 2) as int,
                ),
            )
        },
    }
}

/// A scan is saved: on to the next one, or back to the centre. The sweep ended
/// one margin behind its far limb, so one more margin makes the full run-up of
/// the next one.
pub open spec fn scan_saved(run: ScanRun, i: ScanInput) -> Result<ScanStep, ScanFailure> {
    let saved = ScanRun { scan_index: (run.scan_index + 1) as usize, ..run };
    let number = saved.scan_index;
    if saved.scan_index < i.scan_count {
        let extra = run.plan.limb_margin;
        if extra > 0 {
            step(
                ScanRun { phase: RunPhase::InterScanMargin, ..saved },
                ScanAction::Nudge {
                    direction: sweep_direction(
                        run.plan.direction,
                        saved.scan_index as int,
                    ).spec_opposite(),
                    duration_ms: extra / PROBE_SPEED,
                    rate: PROBE_RATE_INDEX,
                },
                ScanStatus::SavedBackingOff { number, extra },
            )
        } else {
            step(settling(saved, i.now), ScanAction::Wait, ScanStatus::SavedSettling { number })
        }
    } else {
        let back = sweep_direction(run.plan.direction, run.scan_index as int).spec_opposite();
        match recenter_distance(run) {
            Err(e) => Err(e),
            Ok(distance) => step(
                ScanRun {
                    phase: RunPhase::Recentering,
                    recenter: Recenter {
                        last_seq: match i.sample {
                            Some(s) => s.seq,
                            None => run.sweep.last_seq,
                        },
                        present_samples: 0,
                    },
                    ..saved
                },
                ScanAction::Nudge {
                    direction: back,
                    duration_ms: (distance / PROBE_SPEED as int) as u64,
                    rate: PROBE_RATE_INDEX,
                },
                ScanStatus::Recentering { distance: distance as u64, direction: back },
            ),
        }
    }
}

/// The camera check after the way back.
pub open spec fn recenter_check(run: ScanRun, i: ScanInput) -> Result<ScanStep, ScanFailure> {
    let fresh = counts(i.sample, run.recenter.last_seq);
    let checked = if fresh {
        ScanRun {
            recenter: Recenter {
                last_seq: i.sample->0.seq,
                present_samples: if i.sample->0.present {
                    (run.recenter.present_samples + 1) as usize
                } else {
                    0
                },
            },
            ..run
        }
    } else {
        run
    };
    let done = ScanRun { phase: RunPhase::Complete, ..checked };
    if fresh && checked.recenter.present_samples >= REQUIRED_SAMPLES {
        step(done, ScanAction::Finish { verified: true }, ScanStatus::VerifyingRecenter)
    } else if i.now >= run.deadline {
        step(
            done,
            ScanAction::Finish { verified: false },
            if fresh {
                ScanStatus::VerifyingRecenter
            } else {
                ScanStatus::Unchanged
            },
        )
    } else {
        step(
            checked,
            ScanAction::Wait,
            if fresh {
                ScanStatus::VerifyingRecenter
            } else {
                ScanStatus::Unchanged
            },
        )
    }
}

/// One look of a run at the world.
pub open spec fn polled(run: ScanRun, i: ScanInput) -> Result<ScanStep, ScanFailure> {
    let number: usize = (run.scan_index + 1) as usize;
    match run.phase {
        RunPhase::PrepositionMoving => if i.nudge_done {
            taking(
                step(
                    ScanRun {
                        phase: RunPhase::PrepositionSampling,
                        settle_until: (i.now + PREPOSITION_SETTLE_MS) as u64,
                        deadline: (i.now + PREPOSITION_SAMPLE_TIMEOUT_MS) as u64,
                        seek: Seek { samples: 0, clear_samples: 0, ..run.seek },
                        ..run
                    },
                    ScanAction::Wait,
                    ScanStatus::LimbMoved { steps: run.seek.steps },
                ),
            )
        } else {
            stay(run)
        },
        RunPhase::PrepositionSampling => if i.now < run.settle_until {
            stay(run)
        } else if i.sample is Some && i.sample->0.seq > run.seek.last_seq {
            limb_sample(run, i.sample->0, i.now)
        } else if i.now >= run.deadline {
            Err(ScanFailure::NoFreshFrame)
        } else {
            stay(run)
        },
        RunPhase::PrepositionMargin => if i.nudge_done {
            taking(
                step(
                    settling(run, i.now),
                    ScanAction::Wait,
                    ScanStatus::RunUpSettling { span: run.scan_span },
                ),
            )
        } else {
            stay(run)
        },
        RunPhase::InterScanMargin => if i.nudge_done {
            taking(
                step(
                    settling(run, i.now),
                    ScanAction::Wait,
                    ScanStatus::RunUpNextScan { number },
                ),
            )
        } else {
            stay(run)
        },
        RunPhase::Settling => if i.now < run.settle_until {
            stay(run)
        } else if !i.anchored {
            Err(ScanFailure::AnchorLost)
        } else {
            step(
                ScanRun {
                    phase: RunPhase::AwaitRecorder,
                    deadline: (i.now + RECORDER_START_MS) as u64,
                    ..run
                },
                ScanAction::StartRecording,
                ScanStatus::OpeningSer { number },
            )
        },
        RunPhase::AwaitRecorder => if i.recorder.started {
            step(
                ScanRun {
                    phase: RunPhase::PreRoll,
                    deadline: (i.now + PRE_ROLL_MS) as u64,
                    ..run
                },
                ScanAction::Wait,
                ScanStatus::PreRoll { number },
            )
        } else if i.now >= run.deadline {
            Err(ScanFailure::RecorderDidNotStart)
        } else {
            stay(run)
        },
        RunPhase::PreRoll => if i.now < run.deadline {
            stay(run)
        } else {
            let direction = sweep_direction(run.plan.direction, run.scan_index as int);
            step(
                ScanRun {
                    phase: RunPhase::Scanning,
                    sweep: Sweep {
                        last_seq: match i.sample {
                            Some(s) => s.seq,
                            None => run.sweep.last_seq,
                        },
                        present_samples: 0,
                        seen_disc: false,
                        clear_samples: 0,
                        entry_at: None,
                        exit_at: None,
                    },
                    ..run
                },
                ScanAction::Nudge {
                    direction,
                    duration_ms: travel_ms(
                        clamped(run.scan_span as int, SPAN_MIN as int, SPAN_MAX as int),
                        rate_hundredths(run.plan.rate_index as int),
                    ) as u64,
                    rate: run.plan.rate_index,
                },
                ScanStatus::Moving { number, direction },
            )
        },
        RunPhase::Scanning => sweeping(run, i),
        RunPhase::Overshoot => if i.nudge_done || i.now >= run.deadline {
            Ok(
                ScanStep {
                    run: ScanRun {
                        phase: RunPhase::PostRoll,
                        deadline: (i.now + POST_ROLL_MS) as u64,
                        ..run
                    },
                    action: ScanAction::StopMotion,
                    status: if i.nudge_done {
                        ScanStatus::SpanSpent { number }
                    } else {
                        ScanStatus::MarginCovered { number }
                    },
                    took_nudge: true,
                },
            )
        } else {
            taking(stay(run))
        },
        RunPhase::ScanTailCheck => tail_check(run, i),
        RunPhase::PostRoll => if i.now < run.deadline {
            stay(run)
        } else {
            step(
                ScanRun { phase: RunPhase::WaitingForRecorder, ..run },
                ScanAction::StopRecording,
                ScanStatus::Finalising,
            )
        },
        RunPhase::WaitingForRecorder => if i.recorder.recording {
            stay(run)
        } else if i.recorder.failed {
            Err(ScanFailure::RecorderFailed)
        } else {
            scan_saved(run, i)
        },
        RunPhase::Recentering => if i.nudge_done {
            taking(
                step(
                    ScanRun {
                        phase: RunPhase::RecenterCheck,
                        settle_until: (i.now + RECENTER_SETTLE_MS) as u64,
                        deadline: (i.now + RECENTER_CHECK_TIMEOUT_MS) as u64,
                        ..run
                    },
                    ScanAction::Wait,
                    ScanStatus::RecenterReached,
                ),
            )
        } else {
            stay(run)
        },
        RunPhase::RecenterCheck => if i.now < run.settle_until {
            stay(run)
        } else {
            recenter_check(run, i)
        },
        RunPhase::Complete => stay(run),
    }
}

/// What holds of a run between two calls.
pub open spec fn run_sound(r: ScanRun) -> bool {
    &&& r.plan.rate_index < 8
    &&& r.plan.limb_margin <= LIMB_MARGIN_MAX
    &&& r.plan.max_steps <= 25
    &&& r.seek.steps <= r.plan.max_steps
    &&& SPAN_MIN <= r.scan_span <= 5_000_000
    &&& (r.phase == RunPhase::PrepositionMoving || r.phase == RunPhase::PrepositionSampling
        ==> r.scan_span <= SPAN_MAX)
    &&& r.scan_index < usize::MAX
    &&& (r.phase == RunPhase::Recentering || r.phase == RunPhase::RecenterCheck || r.phase
        == RunPhase::Complete || r.scan_index + 1 < usize::MAX)
    &&& r.seek.clear_samples <= r.seek.samples <= REQUIRED_SAMPLES
    &&& (r.phase == RunPhase::PrepositionSampling ==> r.seek.samples < REQUIRED_SAMPLES)
    &&& r.sweep.present_samples <= REQUIRED_SAMPLES
    &&& (!r.sweep.seen_disc ==> r.sweep.present_samples < REQUIRED_SAMPLES)
    &&& r.sweep.clear_samples <= REQUIRED_SAMPLES
    &&& (r.phase == RunPhase::Scanning || r.phase == RunPhase::ScanTailCheck
        ==> r.sweep.clear_samples < REQUIRED_SAMPLES)
    &&& r.recenter.present_samples <= REQUIRED_SAMPLES
    &&& (r.phase == RunPhase::Recentering || r.phase == RunPhase::RecenterCheck
        ==> r.recenter.present_samples < REQUIRED_SAMPLES)
    &&& (r.sweep.seen_disc ==> r.sweep.entry_at is Some)
    &&& (r.sweep.exit_at matches Some(t) ==> t <= CLOCK_LIMIT_MS)
}

/// Clock and counts that leave room for every deadline.
pub open spec fn input_sound(i: ScanInput) -> bool {
    i.now <= CLOCK_LIMIT_MS && i.scan_count < usize::MAX
}

proof fn lemma_speeds(index: int)
    requires
        0 <= index < 10,
    ensures
        25 <= rate_hundredths(index) <= 144_000,
        index < 8 ==> rate_hundredths(index) <= 6_000,
{
}

proof fn lemma_travel(span: int, hundredths: int)
    requires
        0 <= span <= 100_000_000,
        25 <= hundredths,
    ensures
        0 <= travel_ms(span, hundredths) <= span,
{
    assert(span * 24 / hundredths <= span && span * 24 / hundredths >= 0) by (nonlinear_arith)
        requires
            0 <= span,
            25 <= hundredths,
    ;
}

/// A run stays sound whatever it sees.
pub proof fn poll_keeps_sound(run: ScanRun, i: ScanInput)
    requires
        run_sound(run),
        input_sound(i),
    ensures
        polled(run, i) matches Ok(s) ==> run_sound(s.run),
{
    lemma_speeds(run.plan.rate_index as int);
}

/// The mount sweeps at the science rate only while the recorder is writing: a
/// sweep starts from the pre-roll, and the pre-roll starts when the recorder
/// reports that it writes.
pub proof fn sweep_needs_recorder(run: ScanRun, i: ScanInput)
    ensures
        polled(run, i) matches Ok(s) ==> {
            &&& (s.run.phase == RunPhase::Scanning && run.phase != RunPhase::Scanning ==> run.phase
                == RunPhase::PreRoll)
            &&& (s.run.phase == RunPhase::PreRoll && run.phase != RunPhase::PreRoll ==> run.phase
                == RunPhase::AwaitRecorder && i.recorder.started)
            &&& (run.phase == RunPhase::PreRoll && s.action is Nudge ==> s.run.phase
                == RunPhase::Scanning && s.action->rate == run.plan.rate_index)
            &&& (run.phase != RunPhase::PreRoll && s.action is Nudge ==> s.action->rate
                == PROBE_RATE_INDEX)
        },
{
}

/// A scan counts as saved only when the recorder has closed its file without a
/// failure, one at a time.
pub proof fn scans_are_saved_one_by_one(run: ScanRun, i: ScanInput)
    requires
        run_sound(run),
    ensures
        polled(run, i) matches Ok(s) ==> {
            ||| s.run.scan_index == run.scan_index
            ||| s.run.scan_index == run.scan_index + 1 && run.phase == RunPhase::WaitingForRecorder
                && !i.recorder.recording && !i.recorder.failed
        },
{
}

/// A file is closed only after the camera has seen the disc leave the slit, so
/// that the way back to the centre is always known.
pub open spec fn crossing_known(r: ScanRun) -> bool {
    match r.phase {
        RunPhase::Overshoot => has_cleared(r.sweep) && r.sweep.entry_at is Some
            && r.sweep.exit_at is Some,
        RunPhase::PostRoll => has_cleared(r.sweep) && r.sweep.entry_at is Some
            && r.sweep.exit_at is Some,
        RunPhase::WaitingForRecorder => has_cleared(r.sweep) && r.sweep.entry_at is Some
            && r.sweep.exit_at is Some,
        RunPhase::Scanning => r.sweep.exit_at is None,
        RunPhase::ScanTailCheck => r.sweep.exit_at is None,
        _ => true,
    }
}

/// Only a run whose recorder has closed the last file without a failure can fail
/// for the way back.
pub proof fn saved_scans_precede_the_way_back(run: ScanRun, i: ScanInput)
    ensures
        polled(run, i) matches Err(f) ==> f.after_saving() ==> run.phase
            == RunPhase::WaitingForRecorder && !i.recorder.recording && !i.recorder.failed
            && run.scan_index + 1 >= i.scan_count,
{
}

/// Every step keeps the crossing known where it is needed, and a run that
/// closes its last file never fails for want of it.
pub proof fn crossing_stays_known(run: ScanRun, i: ScanInput)
    requires
        run_sound(run),
        crossing_known(run),
    ensures
        polled(run, i) matches Ok(s) ==> crossing_known(s.run),
        polled(run, i) != Err::<ScanStep, ScanFailure>(ScanFailure::NoNearLimb),
        polled(run, i) != Err::<ScanStep, ScanFailure>(ScanFailure::NoFarLimb),
{
}

/// The sweep travels the run-up before the near limb and one margin behind the
/// far one: what is backed off is more than the margin that is recorded, and a
/// zero margin leaves the span as it is.
pub proof fn sweep_budget(run: ScanRun, now: u64)
    requires
        run_sound(run),
        run.phase == RunPhase::PrepositionSampling,
    ensures
        limb_found(run, now) matches Ok(s) ==> {
            let base = extended_span(run.scan_span as int, run.seek.steps as int);
            let margin = run.plan.limb_margin as int;
            &&& s.run.scan_span == base + 3 * margin
            &&& RUN_UP_MARGINS + 1 == 3
            &&& base >= run.scan_span
            &&& (margin > 0 ==> s.action is Nudge && s.status == (ScanStatus::BackingOff {
                run_up: (2 * margin) as u64,
            }) && 2 * margin > margin)
        },
{
}

/// A fresh sample of a sweep.
fn observe(w: Sweep, s: SignalSample, now: u64) -> (next: Sweep)
    requires
        w.present_samples <= REQUIRED_SAMPLES,
        w.clear_samples <= REQUIRED_SAMPLES,
    ensures
        next == observed(w, s, now),
{
    if !w.seen_disc {
        let present: usize = if s.present {
            w.present_samples + 1
        } else {
            0
        };
        if present >= REQUIRED_SAMPLES {
            Sweep {
                last_seq: s.seq,
                present_samples: present,
                seen_disc: true,
                clear_samples: 0,
                entry_at: Some(now),
                exit_at: w.exit_at,
            }
        } else {
            Sweep { last_seq: s.seq, present_samples: present, ..w }
        }
    } else {
        let clear: usize = if s.clear {
            w.clear_samples + 1
        } else {
            0
        };
        let exit_at: Option<u64> = if clear >= REQUIRED_SAMPLES && w.exit_at.is_none() {
            Some(now)
        } else {
            w.exit_at
        };
        Sweep { last_seq: s.seq, clear_samples: clear, exit_at, ..w }
    }
}

fn fresh_sample(s: Option<SignalSample>, after: u64) -> (fresh: Option<SignalSample>)
    ensures
        fresh == (if counts(s, after) {
            s
        } else {
            None
        }),
{
    match s {
        Some(x) => if x.seq > after && x.finite {
            Some(x)
        } else {
            None
        },
        None => None,
    }
}

fn answer(run: ScanRun, action: ScanAction, status: ScanStatus) -> (r: Result<ScanStep, ScanFailure>)
    ensures
        r == step(run, action, status),
{
    Ok(ScanStep { run, action, status, took_nudge: false })
}

fn answer_taking(run: ScanRun, status: ScanStatus) -> (r: Result<ScanStep, ScanFailure>)
    ensures
        r == taking(step(run, ScanAction::Wait, status)),
{
    Ok(ScanStep { run, action: ScanAction::Wait, status, took_nudge: true })
}

fn settle(run: ScanRun, now: u64) -> (r: ScanRun)
    requires
        now <= CLOCK_LIMIT_MS,
    ensures
        r == settling(run, now),
{
    ScanRun { phase: RunPhase::Settling, settle_until: now + SETTLE_MS, ..run }
}

fn step_away(run: ScanRun, status: ScanStatus) -> (r: Result<ScanStep, ScanFailure>)
    requires
        run.plan.max_steps <= 25,
    ensures
        r == search_further(run, status),
{
    if run.seek.steps >= run.plan.max_steps {
        return Err(ScanFailure::LimbNotFound { steps: run.seek.steps });
    }
    answer(
        ScanRun {
            phase: RunPhase::PrepositionMoving,
            seek: Seek { steps: run.seek.steps + 1, ..run.seek },
            ..run
        },
        ScanAction::Nudge {
            direction: run.plan.direction.opposite(),
            duration_ms: PREPOSITION_STEP / PROBE_SPEED,
            rate: PROBE_RATE_INDEX,
        },
        status,
    )
}

fn found_limb(run: ScanRun, now: u64) -> (r: Result<ScanStep, ScanFailure>)
    requires
        run.plan.limb_margin <= LIMB_MARGIN_MAX,
        run.seek.steps <= 25,
        run.scan_span <= SPAN_MAX,
        now <= CLOCK_LIMIT_MS,
    ensures
        r == limb_found(run, now),
{
    let distance: u64 = run.seek.steps * PREPOSITION_STEP;
    let span: u64 = if distance > run.scan_span / 2 {
        run.scan_span + distance - run.scan_span / 2
    } else {
        run.scan_span
    };
    let margin: u64 = run.plan.limb_margin;
    if margin > 0 {
        let run_up: u64 = 2 * margin;
        answer(
            ScanRun {
                phase: RunPhase::PrepositionMargin,
                scan_span: span + 3 * margin,
                ..run
            },
            ScanAction::Nudge {
                direction: run.plan.direction.opposite(),
                duration_ms: run_up / PROBE_SPEED,
                rate: PROBE_RATE_INDEX,
            },
            ScanStatus::BackingOff { run_up },
        )
    } else {
        answer(
            settle(ScanRun { scan_span: span, ..run }, now),
            ScanAction::Wait,
            ScanStatus::ClearedSettling { span },
        )
    }
}

fn take_limb_sample(run: ScanRun, s: SignalSample, now: u64) -> (r: Result<ScanStep, ScanFailure>)
    requires
        run_sound(run),
        run.phase == RunPhase::PrepositionSampling,
        now <= CLOCK_LIMIT_MS,
    ensures
        r == limb_sample(run, s, now),
{
    let clear_samples: usize = if s.clear {
        run.seek.clear_samples + 1
    } else {
        0
    };
    let seen = ScanRun {
        seek: Seek {
            last_seq: s.seq,
            samples: run.seek.samples + 1,
            clear_samples,
            ..run.seek
        },
        ..run
    };
    if seen.seek.clear_samples >= REQUIRED_SAMPLES {
        found_limb(seen, now)
    } else if seen.seek.samples >= REQUIRED_SAMPLES {
        step_away(seen, ScanStatus::ExtendingSearch { steps: seen.seek.steps + 1 })
    } else {
        answer(seen, ScanAction::Wait, ScanStatus::LimbSignal { steps: run.seek.steps })
    }
}

fn watch_sweep(run: ScanRun, i: ScanInput) -> (r: Result<ScanStep, ScanFailure>)
    requires
        run_sound(run),
        input_sound(i),
    ensures
        r == sweeping(run, i),
{
    let number: usize = run.scan_index + 1;
    let fresh = fresh_sample(i.sample, run.sweep.last_seq);
    let sweep = match fresh {
        Some(s) => observe(run.sweep, s, i.now),
        None => run.sweep,
    };
    let watched = ScanRun { sweep, ..run };
    if fresh.is_some() && sweep.seen_disc && sweep.clear_samples >= REQUIRED_SAMPLES {
        proof {
            lemma_speeds(run.plan.rate_index as int);
            lemma_travel(
                run.plan.limb_margin as int,
                rate_hundredths(run.plan.rate_index as int),
            );
        }
        let margin_ms: u64 = scan_duration_exact(run.plan.limb_margin, run.plan.rate_index);
        answer(
            ScanRun { phase: RunPhase::Overshoot, deadline: i.now + margin_ms, ..watched },
            ScanAction::Wait,
            ScanStatus::FarLimbCleared { number },
        )
    } else if i.nudge_done {
        answer_taking(
            ScanRun {
                phase: RunPhase::ScanTailCheck,
                deadline: i.now + SCAN_TAIL_CHECK_MS,
                ..watched
            },
            ScanStatus::ConfirmingOffSensor,
        )
    } else {
        let status = if fresh.is_none() {
            ScanStatus::Unchanged
        } else if sweep.seen_disc {
            ScanStatus::DiscSignal { number }
        } else {
            ScanStatus::WaitingForDisc { number }
        };
        answer(watched, ScanAction::Wait, status)
    }
}

fn check_tail(run: ScanRun, i: ScanInput) -> (r: Result<ScanStep, ScanFailure>)
    requires
        run_sound(run),
        input_sound(i),
    ensures
        r == tail_check(run, i),
{
    let number: usize = run.scan_index + 1;
    let fresh = fresh_sample(i.sample, run.sweep.last_seq);
    let sweep = match fresh {
        Some(s) => observe(run.sweep, s, i.now),
        None => run.sweep,
    };
    let watched = ScanRun { sweep, ..run };
    if fresh.is_some() && sweep.seen_disc && sweep.clear_samples >= REQUIRED_SAMPLES {
        answer(
            ScanRun { phase: RunPhase::PostRoll, deadline: i.now + POST_ROLL_MS, ..watched },
            ScanAction::Wait,
            ScanStatus::FarLimbConfirmed { number },
        )
    } else if i.now >= run.deadline {
        if sweep.seen_disc {
            Err(ScanFailure::DiscDidNotClear { span: run.scan_span })
        } else {
            Err(ScanFailure::DiscNeverSeen)
        }
    } else {
        let status = if fresh.is_some() {
            ScanStatus::ConfirmingFarLimb
        } else {
            ScanStatus::Unchanged
        };
        answer(watched, ScanAction::Wait, status)
    }
}

/// Distance from the last limb back to the disc centre.
pub fn recenter_motion(run: ScanRun) -> (distance: Result<u64, ScanFailure>)
    requires
        run_sound(run),
    ensures
        match distance {
            Ok(d) => recenter_distance(run) == Ok::<int, ScanFailure>(d as int) && d
                <= run.scan_span,
            Err(e) => recenter_distance(run) == Err::<int, ScanFailure>(e),
        },
{
    match run.sweep.entry_at {
        None => Err(ScanFailure::NoNearLimb),
        Some(entry) => match run.sweep.exit_at {
            None => Err(ScanFailure::NoFarLimb),
            Some(exit) => {
                if exit <= entry {
                    return Err(ScanFailure::BadCrossing);
                }
                let r = crate::mount::rate(run.plan.rate_index as usize);
                proof {
                    lemma_speeds(run.plan.rate_index as int);
                    assert((exit - entry) * r.hundredths <= 0x7fff_ffff_ffff_ffff * 6_000)
                        by (nonlinear_arith)
                        requires
                            0 <= exit - entry <= 0x7fff_ffff_ffff_ffff,
                            0 <= r.hundredths <= 6_000,
                    ;
                    assert((exit - entry) * r.hundredths >= 0) by (nonlinear_arith)
                        requires
                            0 <= exit - entry,
                            0 <= r.hundredths,
                    ;
                }
                let half: u128 = (exit - entry) as u128 * r.hundredths as u128 / 48;
                let limit: u64 = run.scan_span / 2;
                let distance: u64 = if half < RECENTER_MIN as u128 {
                    RECENTER_MIN
                } else if half > limit as u128 {
                    limit
                } else {
                    half as u64
                };
                Ok(distance)
            },
        },
    }
}

fn save_scan(run: ScanRun, i: ScanInput) -> (r: Result<ScanStep, ScanFailure>)
    requires
        run_sound(run),
        input_sound(i),
    ensures
        r == scan_saved(run, i),
{
    let saved = ScanRun { scan_index: run.scan_index + 1, ..run };
    let number: usize = saved.scan_index;
    if saved.scan_index < i.scan_count {
        let extra: u64 = run.plan.limb_margin;
        if extra > 0 {
            let next = scan_direction(run.plan.direction, saved.scan_index);
            answer(
                ScanRun { phase: RunPhase::InterScanMargin, ..saved },
                ScanAction::Nudge {
                    direction: next.opposite(),
                    duration_ms: extra / PROBE_SPEED,
                    rate: PROBE_RATE_INDEX,
                },
                ScanStatus::SavedBackingOff { number, extra },
            )
        } else {
            answer(settle(saved, i.now), ScanAction::Wait, ScanStatus::SavedSettling { number })
        }
    } else {
        let back = scan_direction(run.plan.direction, run.scan_index).opposite();
        match recenter_motion(run) {
            Err(e) => Err(e),
            Ok(distance) => {
                let last_seq: u64 = match i.sample {
                    Some(s) => s.seq,
                    None => run.sweep.last_seq,
                };
                answer(
                    ScanRun {
                        phase: RunPhase::Recentering,
                        recenter: Recenter { last_seq, present_samples: 0 },
                        ..saved
                    },
                    ScanAction::Nudge {
                        direction: back,
                        duration_ms: distance / PROBE_SPEED,
                        rate: PROBE_RATE_INDEX,
                    },
                    ScanStatus::Recentering { distance, direction: back },
                )
            },
        }
    }
}

fn check_recenter(run: ScanRun, i: ScanInput) -> (r: Result<ScanStep, ScanFailure>)
    requires
        run_sound(run),
        input_sound(i),
    ensures
        r == recenter_check(run, i),
{
    let fresh = fresh_sample(i.sample, run.recenter.last_seq);
    let checked = match fresh {
        Some(s) => {
            let present_samples: usize = if s.present {
                run.recenter.present_samples + 1
            } else {
                0
            };
            ScanRun { recenter: Recenter { last_seq: s.seq, present_samples }, ..run }
        },
        None => run,
    };
    let status = if fresh.is_some() {
        ScanStatus::VerifyingRecenter
    } else {
        ScanStatus::Unchanged
    };
    let done = ScanRun { phase: RunPhase::Complete, ..checked };
    if fresh.is_some() && checked.recenter.present_samples >= REQUIRED_SAMPLES {
        answer(done, ScanAction::Finish { verified: true }, status)
    } else if i.now >= run.deadline {
        answer(done, ScanAction::Finish { verified: false }, status)
    } else {
        answer(checked, ScanAction::Wait, status)
    }
}

impl ScanRun {
    /// A new run on the centred disc. The first step away from the disc is
    /// asked for at once.
    pub fn start(plan_direction: Direction, rate_index: u8, span: u64, margin: u64, seq: u64) -> (s:
        ScanStep)
        requires
            rate_index < 8,
        ensures
            Ok::<ScanStep, ScanFailure>(s) == search_further(
                new_run(plan_direction, rate_index, span as int, margin as int, seq),
                ScanStatus::Unchanged,
            ),
            s.action == (ScanAction::Nudge {
                direction: plan_direction.spec_opposite(),
                duration_ms: 320,
                rate: PROBE_RATE_INDEX,
            }),
            run_sound(s.run) && crossing_known(s.run),
    {
        let bounded: u64 = if span < SPAN_MIN {
            SPAN_MIN
        } else if span > SPAN_MAX {
            SPAN_MAX
        } else {
            span
        };
        let limb_margin: u64 = if margin > LIMB_MARGIN_MAX {
            LIMB_MARGIN_MAX
        } else {
            margin
        };
        let run = ScanRun {
            phase: RunPhase::PrepositionMoving,
            plan: ScanPlan {
                direction: plan_direction,
                rate_index,
                limb_margin,
                max_steps: (bounded + (PREPOSITION_STEP - 1)) / PREPOSITION_STEP,
            },
            scan_index: 0,
            scan_span: bounded,
            seek: Seek { last_seq: seq, steps: 1, samples: 0, clear_samples: 0 },
            sweep: Sweep {
                last_seq: seq,
                present_samples: 0,
                seen_disc: false,
                clear_samples: 0,
                entry_at: None,
                exit_at: None,
            },
            recenter: Recenter { last_seq: seq, present_samples: 0 },
            settle_until: 0,
            deadline: 0,
        };
        ScanStep {
            run,
            action: ScanAction::Nudge {
                direction: plan_direction.opposite(),
                duration_ms: PREPOSITION_STEP / PROBE_SPEED,
                rate: PROBE_RATE_INDEX,
            },
            status: ScanStatus::Unchanged,
            took_nudge: false,
        }
    }

    /// Looks at the world and says what to do next.
    pub fn poll(self, i: ScanInput) -> (r: Result<ScanStep, ScanFailure>)
        requires
            run_sound(self),
            input_sound(i),
        ensures
            r == polled(self, i),
            r matches Ok(s) ==> run_sound(s.run),
    {
        proof {
            poll_keeps_sound(self, i);
        }
        let number: usize = self.scan_index + 1;
        match self.phase {
            RunPhase::PrepositionMoving => if i.nudge_done {
                answer_taking(
                    ScanRun {
                        phase: RunPhase::PrepositionSampling,
                        settle_until: i.now + PREPOSITION_SETTLE_MS,
                        deadline: i.now + PREPOSITION_SAMPLE_TIMEOUT_MS,
                        seek: Seek { samples: 0, clear_samples: 0, ..self.seek },
                        ..self
                    },
                    ScanStatus::LimbMoved { steps: self.seek.steps },
                )
            } else {
                answer(self, ScanAction::Wait, ScanStatus::Unchanged)
            },
            RunPhase::PrepositionSampling => {
                if i.now < self.settle_until {
                    return answer(self, ScanAction::Wait, ScanStatus::Unchanged);
                }
                if let Some(s) = i.sample {
                    if s.seq > self.seek.last_seq {
                        return take_limb_sample(self, s, i.now);
                    }
                }
                if i.now >= self.deadline {
                    Err(ScanFailure::NoFreshFrame)
                } else {
                    answer(self, ScanAction::Wait, ScanStatus::Unchanged)
                }
            },
            RunPhase::PrepositionMargin => if i.nudge_done {
                answer_taking(
                    settle(self, i.now),
                    ScanStatus::RunUpSettling { span: self.scan_span },
                )
            } else {
                answer(self, ScanAction::Wait, ScanStatus::Unchanged)
            },
            RunPhase::InterScanMargin => if i.nudge_done {
                answer_taking(settle(self, i.now), ScanStatus::RunUpNextScan { number })
            } else {
                answer(self, ScanAction::Wait, ScanStatus::Unchanged)
            },
            RunPhase::Settling => if i.now < self.settle_until {
                answer(self, ScanAction::Wait, ScanStatus::Unchanged)
            } else if !i.anchored {
                Err(ScanFailure::AnchorLost)
            } else {
                answer(
                    ScanRun {
                        phase: RunPhase::AwaitRecorder,
                        deadline: i.now + RECORDER_START_MS,
                        ..self
                    },
                    ScanAction::StartRecording,
                    ScanStatus::OpeningSer { number },
                )
            },
            RunPhase::AwaitRecorder => if i.recorder.started {
                answer(
                    ScanRun { phase: RunPhase::PreRoll, deadline: i.now + PRE_ROLL_MS, ..self },
                    ScanAction::Wait,
                    ScanStatus::PreRoll { number },
                )
            } else if i.now >= self.deadline {
                Err(ScanFailure::RecorderDidNotStart)
            } else {
                answer(self, ScanAction::Wait, ScanStatus::Unchanged)
            },
            RunPhase::PreRoll => if i.now < self.deadline {
                answer(self, ScanAction::Wait, ScanStatus::Unchanged)
            } else {
                let direction = scan_direction(self.plan.direction, self.scan_index);
                let last_seq: u64 = match i.sample {
                    Some(s) => s.seq,
                    None => self.sweep.last_seq,
                };
                answer(
                    ScanRun {
                        phase: RunPhase::Scanning,
                        sweep: Sweep {
                            last_seq,
                            present_samples: 0,
                            seen_disc: false,
                            clear_samples: 0,
                            entry_at: None,
                            exit_at: None,
                        },
                        ..self
                    },
                    ScanAction::Nudge {
                        direction,
                        duration_ms: scan_duration(self.scan_span, self.plan.rate_index),
                        rate: self.plan.rate_index,
                    },
                    ScanStatus::Moving { number, direction },
                )
            },
            RunPhase::Scanning => watch_sweep(self, i),
            RunPhase::Overshoot => if i.nudge_done || i.now >= self.deadline {
                let status = if i.nudge_done {
                    ScanStatus::SpanSpent { number }
                } else {
                    ScanStatus::MarginCovered { number }
                };
                Ok(
                    ScanStep {
                        run: ScanRun {
                            phase: RunPhase::PostRoll,
                            deadline: i.now + POST_ROLL_MS,
                            ..self
                        },
                        action: ScanAction::StopMotion,
                        status,
                        took_nudge: true,
                    },
                )
            } else {
                answer_taking(self, ScanStatus::Unchanged)
            },
            RunPhase::ScanTailCheck => check_tail(self, i),
            RunPhase::PostRoll => if i.now < self.deadline {
                answer(self, ScanAction::Wait, ScanStatus::Unchanged)
            } else {
                answer(
                    ScanRun { phase: RunPhase::WaitingForRecorder, ..self },
                    ScanAction::StopRecording,
                    ScanStatus::Finalising,
                )
            },
            RunPhase::WaitingForRecorder => if i.recorder.recording {
                answer(self, ScanAction::Wait, ScanStatus::Unchanged)
            } else if i.recorder.failed {
                Err(ScanFailure::RecorderFailed)
            } else {
                save_scan(self, i)
            },
            RunPhase::Recentering => if i.nudge_done {
                answer_taking(
                    ScanRun {
                        phase: RunPhase::RecenterCheck,
                        settle_until: i.now + RECENTER_SETTLE_MS,
                        deadline: i.now + RECENTER_CHECK_TIMEOUT_MS,
                        ..self
                    },
                    ScanStatus::RecenterReached,
                )
            } else {
                answer(self, ScanAction::Wait, ScanStatus::Unchanged)
            },
            RunPhase::RecenterCheck => if i.now < self.settle_until {
                answer(self, ScanAction::Wait, ScanStatus::Unchanged)
            } else {
                check_recenter(self, i)
            },
            RunPhase::Complete => answer(self, ScanAction::Wait, ScanStatus::Unchanged),
        }
    }
}

/// A run before its first step.
pub open spec fn new_run(
    direction: Direction,
    rate_index: u8,
    span: int,
    margin: int,
    seq: u64,
) -> ScanRun {
    let bounded = clamped(span, SPAN_MIN as int, SPAN_MAX as int);
    ScanRun {
        phase: RunPhase::PrepositionMoving,
        plan: ScanPlan {
            direction,
            rate_index,
            limb_margin: clamped(margin, 0, LIMB_MARGIN_MAX as int) as u64,
            max_steps: ((bounded + (PREPOSITION_STEP - 1)) / PREPOSITION_STEP as int) as u64,
        },
        scan_index: 0,
        scan_span: bounded as u64,
        seek: Seek { last_seq: seq, steps: 0, samples: 0, clear_samples: 0 },
        sweep: Sweep {
            last_seq: seq,
            present_samples: 0,
            seen_disc: false,
            clear_samples: 0,
            entry_at: None,
            exit_at: None,
        },
        recenter: Recenter { last_seq: seq, present_samples: 0 },
        settle_until: 0,
        deadline: 0,
    }
}

// ---------------------------------------------------------------------------
// Texts
// ---------------------------------------------------------------------------

/// `Scan n/total: `
pub open spec fn scan_prefix(number: usize, total: usize) -> Seq<char> {
    "Scan "@ + decimal(number as nat) + "/"@ + decimal(total as nat) + ": "@
}

fn prefix(number: usize, total: usize) -> (text: String)
    ensures
        text@ == scan_prefix(number, total),
{
    let mut text = "Scan ".to_owned();
    text.append(decimal_string(number as u64).as_str());
    text.append("/");
    text.append(decimal_string(total as u64).as_str());
    text.append(": ");
    text
}

fn prefixed(number: usize, total: usize, rest: &str) -> (text: String)
    ensures
        text@ == scan_prefix(number, total) + rest@,
{
    let mut text = prefix(number, total);
    text.append(rest);
    text
}

impl ScanStatus {
    /// The status line. `total` is the number of scans, `angle` an angle in
    /// degrees, `other` the limb margin or the disc signal in percent.
    pub open spec fn spec_text(self, old_status: Seq<char>, total: usize, angle: Seq<char>, other: Seq<char>) -> Seq<char> {
        match self {
            ScanStatus::Unchanged => old_status,
            ScanStatus::LimbMoved { .. } => "Seeking first limb: moved "@ + angle
                + "°, waiting for camera"@,
            ScanStatus::LimbSignal { .. } => "Seeking first limb: "@ + angle
                + "° moved, disc signal "@ + other + "%"@,
            ScanStatus::BackingOff { .. } => "Disc cleared; backing off "@ + angle
                + "° of run-up (2× the "@ + other + "° limb margin)"@,
            ScanStatus::ClearedSettling { .. } => "Disc has cleared the slit; settling for a "@
                + angle + "° scan"@,
            ScanStatus::ExtendingSearch { .. } => "Disc still visible; extending edge search to "@
                + angle + "°"@,
            ScanStatus::RunUpSettling { .. } => "Run-up reached; settling for a "@ + angle
                + "° scan"@,
            ScanStatus::RunUpNextScan { number } => "Run-up reached; settling for scan "@
                + decimal(number as nat) + "/"@ + decimal(total as nat),
            ScanStatus::OpeningSer { number } => scan_prefix(number, total) + "opening SER"@,
            ScanStatus::PreRoll { number } => scan_prefix(number, total) + "recording pre-roll"@,
            ScanStatus::Moving { number, direction } => scan_prefix(number, total) + "moving "@
                + direction.spec_label() + " and watching for the far limb"@,
            ScanStatus::DiscSignal { number } => scan_prefix(number, total) + "disc signal "@
                + other + "%, seeking far limb"@,
            ScanStatus::WaitingForDisc { number } => scan_prefix(number, total)
                + "waiting for disc to enter ("@ + other + "%)"@,
            ScanStatus::FarLimbCleared { number } => scan_prefix(number, total)
                + "far limb cleared; recording "@ + angle + "° limb margin"@,
            ScanStatus::ConfirmingOffSensor =>
                "Motion span complete; confirming the disc is off-sensor"@,
            ScanStatus::SpanSpent { number } => scan_prefix(number, total)
                + "motion span spent during the limb margin; recording post-roll"@,
            ScanStatus::MarginCovered { number } => scan_prefix(number, total)
                + "limb margin covered; recording post-roll"@,
            ScanStatus::ConfirmingFarLimb => "Confirming far limb: disc signal "@ + other + "%"@,
            ScanStatus::FarLimbConfirmed { number } => scan_prefix(number, total)
                + "far limb confirmed; recording post-roll"@,
            ScanStatus::Finalising => "Finalising lossless mono16 SER"@,
            ScanStatus::SavedBackingOff { number, .. } => "Scan "@ + decimal(number as nat)
                + " saved; backing off "@ + angle + "° of run-up"@,
            ScanStatus::SavedSettling { number } => "Scan "@ + decimal(number as nat)
                + " saved; settling for reverse scan"@,
            ScanStatus::Recentering { direction, .. } => "Scans saved; re-centring "@ + angle
                + "° toward "@ + direction.spec_label(),
            ScanStatus::RecenterReached => "Re-centred position reached; checking camera signal"@,
            ScanStatus::VerifyingRecenter => "Verifying re-centre: disc signal "@ + other + "%"@,
        }
    }

    pub fn text(self, old_status: &str, total: usize, angle: &str, other: &str) -> (text: String)
        ensures
            text@ == self.spec_text(old_status@, total, angle@, other@),
    {
        match self {
            ScanStatus::Unchanged => old_status.to_owned(),
            ScanStatus::LimbMoved { .. } => {
                let mut t = "Seeking first limb: moved ".to_owned();
                t.append(angle);
                t.append("°, waiting for camera");
                t
            },
            ScanStatus::LimbSignal { .. } => {
                let mut t = "Seeking first limb: ".to_owned();
                t.append(angle);
                t.append("° moved, disc signal ");
                t.append(other);
                t.append("%");
                t
            },
            ScanStatus::BackingOff { .. } => {
                let mut t = "Disc cleared; backing off ".to_owned();
                t.append(angle);
                t.append("° of run-up (2× the ");
                t.append(other);
                t.append("° limb margin)");
                t
            },
            ScanStatus::ClearedSettling { .. } => {
                let mut t = "Disc has cleared the slit; settling for a ".to_owned();
                t.append(angle);
                t.append("° scan");
                t
            },
            ScanStatus::ExtendingSearch { .. } => {
                let mut t = "Disc still visible; extending edge search to ".to_owned();
                t.append(angle);
                t.append("°");
                t
            },
            ScanStatus::RunUpSettling { .. } => {
                let mut t = "Run-up reached; settling for a ".to_owned();
                t.append(angle);
                t.append("° scan");
                t
            },
            ScanStatus::RunUpNextScan { number } => {
                let mut t = "Run-up reached; settling for scan ".to_owned();
                t.append(decimal_string(number as u64).as_str());
                t.append("/");
                t.append(decimal_string(total as u64).as_str());
                t
            },
            ScanStatus::OpeningSer { number } => prefixed(number, total, "opening SER"),
            ScanStatus::PreRoll { number } => prefixed(number, total, "recording pre-roll"),
            ScanStatus::Moving { number, direction } => {
                let mut t = prefixed(number, total, "moving ");
                t.append(direction.label());
                t.append(" and watching for the far limb");
                t
            },
            ScanStatus::DiscSignal { number } => {
                let mut t = prefixed(number, total, "disc signal ");
                t.append(other);
                t.append("%, seeking far limb");
                t
            },
            ScanStatus::WaitingForDisc { number } => {
                let mut t = prefixed(number, total, "waiting for disc to enter (");
                t.append(other);
                t.append("%)");
                t
            },
            ScanStatus::FarLimbCleared { number } => {
                let mut t = prefixed(number, total, "far limb cleared; recording ");
                t.append(angle);
                t.append("° limb margin");
                t
            },
            ScanStatus::ConfirmingOffSensor =>
                "Motion span complete; confirming the disc is off-sensor".to_owned(),
            ScanStatus::SpanSpent { number } => prefixed(
                number,
                total,
                "motion span spent during the limb margin; recording post-roll",
            ),
            ScanStatus::MarginCovered { number } => prefixed(
                number,
                total,
                "limb margin covered; recording post-roll",
            ),
            ScanStatus::ConfirmingFarLimb => {
                let mut t = "Confirming far limb: disc signal ".to_owned();
                t.append(other);
                t.append("%");
                t
            },
            ScanStatus::FarLimbConfirmed { number } => prefixed(
                number,
                total,
                "far limb confirmed; recording post-roll",
            ),
            ScanStatus::Finalising => "Finalising lossless mono16 SER".to_owned(),
            ScanStatus::SavedBackingOff { number, .. } => {
                let mut t = "Scan ".to_owned();
                t.append(decimal_string(number as u64).as_str());
                t.append(" saved; backing off ");
                t.append(angle);
                t.append("° of run-up");
                t
            },
            ScanStatus::SavedSettling { number } => {
                let mut t = "Scan ".to_owned();
                t.append(decimal_string(number as u64).as_str());
                t.append(" saved; settling for reverse scan");
                t
            },
            ScanStatus::Recentering { direction, .. } => {
                let mut t = "Scans saved; re-centring ".to_owned();
                t.append(angle);
                t.append("° toward ");
                t.append(direction.label());
                t
            },
            ScanStatus::RecenterReached =>
                "Re-centred position reached; checking camera signal".to_owned(),
            ScanStatus::VerifyingRecenter => {
                let mut t = "Verifying re-centre: disc signal ".to_owned();
                t.append(other);
                t.append("%");
                t
            },
        }
    }

    /// The angle that the status line shows.
    pub fn angle(self, limb_margin: u64) -> (a: u64)
        requires
            self matches ScanStatus::LimbMoved { steps } ==> steps <= 1000,
            self matches ScanStatus::LimbSignal { steps } ==> steps <= 1000,
            self matches ScanStatus::ExtendingSearch { steps } ==> steps <= 1000,
        ensures
            a == match self {
                ScanStatus::LimbMoved { steps } => steps * 80_000,
                ScanStatus::LimbSignal { steps } => steps * 80_000,
                ScanStatus::ExtendingSearch { steps } => steps * 80_000,
                ScanStatus::BackingOff { run_up } => run_up as int,
                ScanStatus::ClearedSettling { span } => span as int,
                ScanStatus::RunUpSettling { span } => span as int,
                ScanStatus::SavedBackingOff { extra, .. } => extra as int,
                ScanStatus::Recentering { distance, .. } => distance as int,
                _ => limb_margin as int,
            },
    {
        match self {
            ScanStatus::LimbMoved { steps } => steps * 80_000,
            ScanStatus::LimbSignal { steps } => steps * 80_000,
            ScanStatus::ExtendingSearch { steps } => steps * 80_000,
            ScanStatus::BackingOff { run_up } => run_up,
            ScanStatus::ClearedSettling { span } => span,
            ScanStatus::RunUpSettling { span } => span,
            ScanStatus::SavedBackingOff { extra, .. } => extra,
            ScanStatus::Recentering { distance, .. } => distance,
            _ => limb_margin,
        }
    }
}

impl ScanFailure {
    /// Why the run failed. `angle` is the searched distance or the span in
    /// degrees, `recorder` what the recorder says.
    pub open spec fn spec_text(self, angle: Seq<char>, recorder: Seq<char>) -> Seq<char> {
        match self {
            ScanFailure::LimbNotFound { .. } => "the solar limb was not found after moving "@
                + angle + "°; re-centre the disc or check exposure"@,
            ScanFailure::NoFreshFrame =>
                "camera preview did not provide a fresh frame during edge search"@,
            ScanFailure::AnchorLost => "spectral anchor was lost"@,
            ScanFailure::RecorderDidNotStart => "SER recorder did not start: "@ + recorder,
            ScanFailure::DiscDidNotClear { .. } => "the disc did not clear the sensor within the "@
                + angle + "° safety span"@,
            ScanFailure::DiscNeverSeen =>
                "the camera never detected the solar disc during the scan"@,
            ScanFailure::RecorderFailed => recorder,
            ScanFailure::NoNearLimb =>
                "cannot re-centre because the near-limb time was not measured"@,
            ScanFailure::NoFarLimb => "cannot re-centre because the far-limb time was not measured"@,
            ScanFailure::BadCrossing =>
                "cannot re-centre because the measured disc crossing was invalid"@,
        }
    }

    pub fn text(self, angle: &str, recorder: &str) -> (text: String)
        ensures
            text@ == self.spec_text(angle@, recorder@),
    {
        match self {
            ScanFailure::LimbNotFound { .. } => {
                let mut t = "the solar limb was not found after moving ".to_owned();
                t.append(angle);
                t.append("°; re-centre the disc or check exposure");
                t
            },
            ScanFailure::NoFreshFrame =>
                "camera preview did not provide a fresh frame during edge search".to_owned(),
            ScanFailure::AnchorLost => "spectral anchor was lost".to_owned(),
            ScanFailure::RecorderDidNotStart => {
                let mut t = "SER recorder did not start: ".to_owned();
                t.append(recorder);
                t
            },
            ScanFailure::DiscDidNotClear { .. } => {
                let mut t = "the disc did not clear the sensor within the ".to_owned();
                t.append(angle);
                t.append("° safety span");
                t
            },
            ScanFailure::DiscNeverSeen =>
                "the camera never detected the solar disc during the scan".to_owned(),
            ScanFailure::RecorderFailed => recorder.to_owned(),
            ScanFailure::NoNearLimb =>
                "cannot re-centre because the near-limb time was not measured".to_owned(),
            ScanFailure::NoFarLimb =>
                "cannot re-centre because the far-limb time was not measured".to_owned(),
            ScanFailure::BadCrossing =>
                "cannot re-centre because the measured disc crossing was invalid".to_owned(),
        }
    }
}

// ---------------------------------------------------------------------------
// What a run promises
// ---------------------------------------------------------------------------

/// What was planned for a run stays as it is, and the travel of its sweeps is
/// settled once the first limb is found.
pub proof fn plan_is_kept(run: ScanRun, i: ScanInput)
    ensures
        polled(run, i) matches Ok(s) ==> s.run.plan == run.plan && (run.phase
            != RunPhase::PrepositionSampling ==> s.run.scan_span == run.scan_span),
{
}

/// The first sweep goes the planned way, and each one goes back the way of the
/// one before it.
pub proof fn sweeps_go_back_and_forth(a: ScanRun, i: ScanInput, b: ScanRun, j: ScanInput)
    requires
        a.phase == RunPhase::PreRoll && i.now >= a.deadline,
        b.phase == RunPhase::PreRoll && j.now >= b.deadline,
        a.plan == b.plan,
        b.scan_index == a.scan_index + 1,
    ensures
        polled(a, i) matches Ok(s) && polled(b, j) matches Ok(t) && s.action is Nudge
            && t.action is Nudge && t.action->direction == s.action->direction.spec_opposite()
            && s.run.phase == RunPhase::Scanning && t.run.phase == RunPhase::Scanning && (
        a.scan_index == 0 ==> s.action->direction == a.plan.direction),
{
}

/// After the last scan the mount goes back against the sweep that was just
/// saved, onto the disc that this sweep left behind.
pub proof fn way_back_undoes_the_last_sweep(a: ScanRun, i: ScanInput, b: ScanRun, j: ScanInput)
    requires
        a.phase == RunPhase::PreRoll,
        b.phase == RunPhase::WaitingForRecorder,
        a.plan == b.plan,
        a.scan_index == b.scan_index,
        b.scan_index < usize::MAX,
    ensures
        polled(a, i) matches Ok(s) ==> polled(b, j) matches Ok(t) ==> s.run.phase
            == RunPhase::Scanning && t.run.phase == RunPhase::Recentering ==> {
            &&& s.action is Nudge && t.action is Nudge
            &&& t.action->direction == s.action->direction.spec_opposite()
            &&& t.action->direction.offset() == (
                -s.action->direction.offset().0,
                -s.action->direction.offset().1,
            )
            &&& t.status matches ScanStatus::Recentering { direction, .. } && direction
                == t.action->direction
        },
{
    crate::mount::opposite_undoes(run_direction(a));
}

/// Where the sweep of a run goes.
spec fn run_direction(a: ScanRun) -> Direction {
    sweep_direction(a.plan.direction, a.scan_index as int)
}

/// The way back covers half of the crossing: from the limb that the disc left by
/// to its centre. It is never shorter than a twentieth of a degree, nor longer
/// than half the span.
pub proof fn way_back_is_half_the_crossing(run: ScanRun, i: ScanInput)
    requires
        run_sound(run),
        run.phase == RunPhase::WaitingForRecorder,
    ensures
        polled(run, i) matches Ok(s) ==> s.run.phase == RunPhase::Recentering ==> {
            let travelled = s.action->duration_ms * 250;
            let crossed = (run.sweep.exit_at->0 - run.sweep.entry_at->0) * rate_hundredths(
                run.plan.rate_index as int,
            );
            &&& run.sweep.entry_at is Some && run.sweep.exit_at is Some
            &&& run.sweep.exit_at->0 > run.sweep.entry_at->0
            &&& s.action is Nudge && s.action->rate == 7
            &&& 50_000 <= travelled <= run.scan_span / 2
            &&& (48 * 50_250 <= crossed <= 24 * (run.scan_span - 1) ==> 0 <= crossed - 48 * travelled
                < 48 * 251)
        },
{
    let c = (run.sweep.exit_at->0 - run.sweep.entry_at->0) * rate_hundredths(
        run.plan.rate_index as int,
    );
    let d = clamped(c / 48, 50_000, (run.scan_span / 2) as int);
    if polled(run, i) is Ok && polled(run, i)->Ok_0.run.phase == RunPhase::Recentering {
        assert(recenter_distance(run) == Ok::<int, ScanFailure>(d));
        assert(50_000 <= d <= run.scan_span / 2);
        assert(polled(run, i)->Ok_0.action->duration_ms == d / 250);
        if 48 * 50_250 <= c <= 24 * (run.scan_span - 1) {
            assert(c / 48 <= run.scan_span / 2);
            assert(d == c / 48);
        }
    }
}

/// Between two scans the mount goes on by the margin that the last sweep has not
/// yet travelled, away from the disc, and then the next sweep comes back.
pub proof fn next_run_up_goes_on_from_the_last_sweep(
    a: ScanRun,
    i: ScanInput,
    b: ScanRun,
    j: ScanInput,
)
    requires
        a.phase == RunPhase::PreRoll && i.now >= a.deadline,
        b.phase == RunPhase::WaitingForRecorder,
        a.plan == b.plan,
        a.scan_index == b.scan_index,
        run_sound(b),
        !j.recorder.recording && !j.recorder.failed,
        b.scan_index + 1 < j.scan_count,
    ensures
        polled(a, i) matches Ok(s) && polled(b, j) matches Ok(t) && {
            &&& t.run.scan_index == b.scan_index + 1
            &&& if b.plan.limb_margin > 0 {
                &&& t.run.phase == RunPhase::InterScanMargin
                &&& t.action is Nudge && t.action->rate == 7
                &&& t.action->direction == s.action->direction
                &&& 0 <= b.plan.limb_margin - t.action->duration_ms * 250 < 250
            } else {
                &&& t.run.phase == RunPhase::Settling
                &&& t.action == ScanAction::Wait
            }
        },
{
}

/// The search for the first limb goes away from the disc, against the first
/// sweep: by a fixed step while the disc is in sight, and by two margins once it
/// is gone.
pub proof fn search_goes_against_the_first_sweep(run: ScanRun, i: ScanInput)
    requires
        run_sound(run),
        run.phase == RunPhase::PrepositionSampling,
    ensures
        polled(run, i) matches Ok(s) ==> s.action is Nudge ==> {
            &&& s.action->direction == run.plan.direction.spec_opposite()
            &&& s.action->rate == 7
            &&& if s.run.phase == RunPhase::PrepositionMoving {
                &&& s.action->duration_ms * 250 == 80_000
                &&& s.run.seek.steps == run.seek.steps + 1
                &&& s.run.scan_span == run.scan_span
            } else {
                &&& s.run.phase == RunPhase::PrepositionMargin
                &&& 0 <= 2 * run.plan.limb_margin - s.action->duration_ms * 250 < 250
            }
        },
{
}

/// A new run looks for the limb over the whole of its span, kept between
/// fifty-five hundredths of a degree and two degrees, and no further.
pub proof fn search_covers_the_span(
    direction: Direction,
    rate_index: u8,
    span: int,
    margin: int,
    seq: u64,
)
    ensures
        ({
            let run = new_run(direction, rate_index, span, margin, seq);
            &&& 550_000 <= run.scan_span <= 2_000_000
            &&& (550_000 <= span <= 2_000_000 ==> run.scan_span == span)
            &&& (span < 550_000 ==> run.scan_span == 550_000)
            &&& (span > 2_000_000 ==> run.scan_span == 2_000_000)
            &&& (run.plan.max_steps - 1) * 80_000 < run.scan_span <= run.plan.max_steps * 80_000
            &&& (0 <= margin <= 300_000 ==> run.plan.limb_margin == margin)
            &&& run.plan.limb_margin <= 300_000
            &&& run.plan.direction == direction && run.plan.rate_index == rate_index
            &&& run.scan_index == 0 && run.seek.steps == 0
            &&& run.seek.last_seq == seq && run.sweep.last_seq == seq
        }),
{
}

/// The search stops at the first two clear frames in a row, goes on after two
/// frames of which one still shows the disc, and fails only when its steps are
/// spent. A frame counts once, and not before the mount has settled.
pub proof fn limb_is_found_by_two_clear_frames(run: ScanRun, i: ScanInput)
    requires
        run_sound(run),
        run.phase == RunPhase::PrepositionSampling,
    ensures
        ({
            let fresh = i.now >= run.settle_until && i.sample is Some && i.sample->0.seq
                > run.seek.last_seq;
            let clear = i.sample->0.clear;
            let second = run.seek.samples == 1;
            match polled(run, i) {
                Err(ScanFailure::LimbNotFound { steps }) => fresh && second && !(clear
                    && run.seek.clear_samples == 1) && run.seek.steps >= run.plan.max_steps
                    && steps == run.seek.steps,
                Err(f) => f == ScanFailure::NoFreshFrame && !fresh && i.now >= run.settle_until
                    && i.now >= run.deadline,
                Ok(s) => {
                    &&& (s.run.phase == RunPhase::PrepositionMargin || s.run.phase
                        == RunPhase::Settling <==> fresh && clear && run.seek.clear_samples == 1)
                    &&& (s.run.phase == RunPhase::PrepositionMoving <==> fresh && second && !(clear
                        && run.seek.clear_samples == 1))
                    &&& (s.run.phase == RunPhase::PrepositionSampling && fresh ==> !second
                        && s.run.seek.samples == 1 && s.run.seek.last_seq == i.sample->0.seq
                        && s.run.seek.clear_samples == (if clear {
                        1int
                    } else {
                        0
                    }) && s.action == ScanAction::Wait)
                    &&& (s.run.phase == RunPhase::PrepositionSampling && !fresh ==> s.run == run
                        && s.action == ScanAction::Wait)
                },
            }
        }),
{
}

/// A sweep travels back over what the search went, over half a span behind the
/// centre, over the run-up and over one margin behind the far limb.
pub proof fn sweep_reaches_past_the_far_limb(run: ScanRun, i: ScanInput)
    requires
        run_sound(run),
        run.phase == RunPhase::PrepositionSampling,
    ensures
        polled(run, i) matches Ok(s) ==> s.run.phase == RunPhase::PrepositionMargin || s.run.phase
            == RunPhase::Settling ==> {
            let searched = run.seek.steps * 80_000;
            let half = (run.scan_span / 2) as int;
            &&& s.run.scan_span == (if searched > half {
                searched
            } else {
                half
            }) + (run.scan_span - half) + 3 * run.plan.limb_margin
            &&& s.run.seek.steps == run.seek.steps
        },
{
}

/// The mount sweeps at the rate of the plan for as long as the span takes at
/// that rate, to the millisecond. The span of a sweep is at least fifty-five
/// hundredths of a degree and at most two.
pub proof fn sweep_lasts_as_long_as_its_span(run: ScanRun, i: ScanInput)
    requires
        run_sound(run),
        run.phase == RunPhase::PreRoll,
        i.now >= run.deadline,
    ensures
        polled(run, i) matches Ok(s) && s.action is Nudge && s.action->rate == run.plan.rate_index
            && {
            let span: int = if run.scan_span > 2_000_000 {
                2_000_000
            } else {
                run.scan_span as int
            };
            let speed = rate_hundredths(run.plan.rate_index as int);
            0 <= 24 * span - s.action->duration_ms * speed < speed
        },
{
    lemma_speeds(run.plan.rate_index as int);
    let span = clamped(run.scan_span as int, SPAN_MIN as int, SPAN_MAX as int);
    let speed = rate_hundredths(run.plan.rate_index as int);
    lemma_travel(span, speed);
    lemma_floor(span * 24, speed);
}

proof fn lemma_floor(n: int, d: int)
    requires
        d > 0,
    ensures
        0 <= n - (n / d) * d < d,
{
    vstd::arithmetic::div_mod::lemma_fundamental_div_mod(n, d);
    assert((n / d) * d == d * (n / d)) by (nonlinear_arith);
}

/// A sweep starts without any memory of the one before it, and looks only at
/// frames that are newer than its start.
pub proof fn sweep_starts_afresh(run: ScanRun, i: ScanInput)
    requires
        run.phase == RunPhase::PreRoll,
        i.now >= run.deadline,
    ensures
        polled(run, i) matches Ok(s) && s.run.phase == RunPhase::Scanning && !s.run.sweep.seen_disc
            && s.run.sweep.present_samples == 0 && s.run.sweep.clear_samples == 0
            && s.run.sweep.entry_at is None && s.run.sweep.exit_at is None && (i.sample is Some
            ==> s.run.sweep.last_seq == i.sample->0.seq),
{
}

/// During a sweep the disc counts as entered at the second of two frames in a row
/// that show it, and as gone at the second of two clear ones in a row after that.
/// A frame counts once, and a signal that is no number does not count.
pub proof fn disc_passes_by_two_frames_each(run: ScanRun, i: ScanInput)
    requires
        run_sound(run),
        crossing_known(run),
        run.phase == RunPhase::Scanning || run.phase == RunPhase::ScanTailCheck,
    ensures
        polled(run, i) matches Ok(s) ==> {
            let fresh = i.sample is Some && i.sample->0.finite && i.sample->0.seq
                > run.sweep.last_seq;
            let before = run.sweep;
            let after = s.run.sweep;
            let gone = s.run.phase == RunPhase::Overshoot || s.run.phase == RunPhase::PostRoll;
            &&& (!fresh ==> after == before && !gone)
            &&& (fresh ==> after.last_seq == i.sample->0.seq)
            &&& (fresh && !before.seen_disc ==> {
                &&& !gone
                &&& (after.seen_disc <==> i.sample->0.present && before.present_samples == 1)
                &&& (after.seen_disc ==> after.entry_at == Some(i.now) && after.clear_samples == 0)
                &&& (!after.seen_disc ==> after.entry_at == before.entry_at
                    && after.present_samples == (if i.sample->0.present {
                    1int
                } else {
                    0
                }))
                &&& after.exit_at is None
            })
            &&& (fresh && before.seen_disc ==> {
                &&& after.seen_disc && after.entry_at == before.entry_at
                &&& (gone <==> i.sample->0.clear && before.clear_samples == 1)
                &&& (gone ==> after.exit_at == Some(i.now))
                &&& (!gone ==> after.exit_at is None && after.clear_samples == (
                if i.sample->0.clear {
                    1int
                } else {
                    0
                }))
            })
        },
{
}

/// A sweep whose span is travelled is given a moment for the last frames. Then
/// it fails: with the disc still in sight, or without ever having seen it.
pub proof fn unfinished_sweeps_fail(run: ScanRun, i: ScanInput)
    requires
        run_sound(run),
    ensures
        (polled(run, i) matches Err(ScanFailure::DiscNeverSeen) ==> run.phase
            == RunPhase::ScanTailCheck && i.now >= run.deadline && !run.sweep.seen_disc),
        (polled(run, i) matches Err(ScanFailure::DiscDidNotClear { span }) ==> run.phase
            == RunPhase::ScanTailCheck && i.now >= run.deadline && span == run.scan_span && (
        run.sweep.seen_disc || i.sample->0.present)),
        run.phase == RunPhase::ScanTailCheck && i.now >= run.deadline ==> (polled(
            run,
            i,
        ) matches Ok(s) ==> s.run.phase == RunPhase::PostRoll),
        run.phase == RunPhase::Scanning ==> polled(run, i) is Ok,
{
}

/// Past the far limb the mount goes on for as long as the margin takes at the
/// rate of the sweep, and is stopped then.
pub proof fn margin_is_recorded_behind_the_far_limb(run: ScanRun, i: ScanInput, j: ScanInput)
    requires
        run_sound(run),
        input_sound(i),
        run.phase == RunPhase::Scanning,
    ensures
        polled(run, i) matches Ok(s) ==> s.run.phase == RunPhase::Overshoot ==> {
            let speed = rate_hundredths(run.plan.rate_index as int);
            let extra = s.run.deadline - i.now;
            &&& 0 <= 24 * run.plan.limb_margin - extra * speed < speed
            &&& s.action == ScanAction::Wait
            &&& (j.now < s.run.deadline && !j.nudge_done ==> (polled(s.run, j) matches Ok(t)
                && t.run == s.run && t.action == ScanAction::Wait))
            &&& (j.now >= s.run.deadline || j.nudge_done ==> (polled(s.run, j) matches Ok(t)
                && t.run.phase == RunPhase::PostRoll && t.action == ScanAction::StopMotion
                && t.took_nudge))
        },
{
    lemma_speeds(run.plan.rate_index as int);
    let speed = rate_hundredths(run.plan.rate_index as int);
    lemma_travel(run.plan.limb_margin as int, speed);
    lemma_floor(run.plan.limb_margin * 24, speed);
}

/// Every pause of a run lasts its time and no longer: a quarter of a second
/// before the frames of the search count, one and two tenths before a recording
/// starts, thirty-five hundredths before and after a sweep, and four tenths
/// before the check of the way back.
pub proof fn pauses_last_their_time(run: ScanRun, i: ScanInput, j: ScanInput)
    requires
        run_sound(run),
        input_sound(i),
    ensures
        polled(run, i) matches Ok(s) ==> s.run.phase != run.phase ==> {
            let next = polled(s.run, j);
            let waits = next matches Ok(t) && t.run == s.run && t.action == ScanAction::Wait;
            match s.run.phase {
                RunPhase::PrepositionSampling => j.now < i.now + 250 ==> waits,
                RunPhase::Settling => {
                    &&& (j.now < i.now + 1_200 ==> waits)
                    &&& (j.now >= i.now + 1_200 && j.anchored ==> (next matches Ok(t) && t.run.phase
                        == RunPhase::AwaitRecorder && t.action == ScanAction::StartRecording))
                    &&& (j.now >= i.now + 1_200 && !j.anchored ==> next == Err::<
                        ScanStep,
                        ScanFailure,
                    >(ScanFailure::AnchorLost))
                },
                RunPhase::PreRoll => {
                    &&& (j.now < i.now + 350 ==> waits)
                    &&& (j.now >= i.now + 350 ==> (next matches Ok(t) && t.run.phase
                        == RunPhase::Scanning && t.action is Nudge))
                },
                RunPhase::PostRoll => {
                    &&& (j.now < i.now + 350 ==> waits)
                    &&& (j.now >= i.now + 350 ==> (next matches Ok(t) && t.run.phase
                        == RunPhase::WaitingForRecorder && t.action == ScanAction::StopRecording))
                },
                RunPhase::RecenterCheck => j.now < i.now + 400 ==> waits,
                _ => true,
            }
        },
{
}

/// A run waits for a camera frame, for the recorder, for the last frames of a
/// sweep and for the sight of the disc only so long.
pub proof fn nothing_is_waited_for_forever(run: ScanRun, i: ScanInput, j: ScanInput)
    requires
        run_sound(run),
        input_sound(i),
    ensures
        polled(run, i) matches Ok(s) ==> s.run.phase != run.phase ==> {
            let next = polled(s.run, j);
            match s.run.phase {
                RunPhase::PrepositionSampling => {
                    &&& (j.sample is None && j.now >= i.now + 1_500 ==> next == Err::<
                        ScanStep,
                        ScanFailure,
                    >(ScanFailure::NoFreshFrame))
                    &&& (j.now < i.now + 1_500 ==> next != Err::<ScanStep, ScanFailure>(
                        ScanFailure::NoFreshFrame,
                    ))
                },
                RunPhase::AwaitRecorder => {
                    &&& (j.recorder.started ==> (next matches Ok(t) && t.run.phase
                        == RunPhase::PreRoll))
                    &&& (!j.recorder.started && j.now >= i.now + 8_000 ==> next == Err::<
                        ScanStep,
                        ScanFailure,
                    >(ScanFailure::RecorderDidNotStart))
                    &&& (!j.recorder.started && j.now < i.now + 8_000 ==> (next matches Ok(t)
                        && t.run == s.run && t.action == ScanAction::Wait))
                },
                RunPhase::ScanTailCheck => {
                    &&& (j.now >= i.now + 1_500 ==> (next matches Ok(t) ==> t.run.phase
                        == RunPhase::PostRoll))
                    &&& (j.now < i.now + 1_500 ==> next is Ok)
                },
                RunPhase::RecenterCheck => {
                    &&& (j.now >= i.now + 1_800 ==> (next matches Ok(t) && t.run.phase
                        == RunPhase::Complete && t.action is Finish))
                    &&& (j.now < i.now + 1_800 ==> next != Ok::<ScanStep, ScanFailure>(
                        ScanStep {
                            action: ScanAction::Finish { verified: false },
                            ..next->Ok_0
                        },
                    ))
                },
                _ => true,
            }
        },
{
}

/// A phase that waits for the mount goes on at the report of the finished move,
/// uses it up, and does nothing before it.
pub proof fn moves_are_waited_for(run: ScanRun, i: ScanInput)
    requires
        run.phase == RunPhase::PrepositionMoving || run.phase == RunPhase::PrepositionMargin
            || run.phase == RunPhase::InterScanMargin || run.phase == RunPhase::Recentering,
    ensures
        polled(run, i) matches Ok(s) && s.action == ScanAction::Wait && s.took_nudge == i.nudge_done
            && if !i.nudge_done {
            s.run == run
        } else {
            s.run.phase == (match run.phase {
                RunPhase::PrepositionMoving => RunPhase::PrepositionSampling,
                RunPhase::Recentering => RunPhase::RecenterCheck,
                _ => RunPhase::Settling,
            }) && (run.phase == RunPhase::PrepositionMoving ==> s.run.seek.samples == 0
                && s.run.seek.clear_samples == 0 && s.run.seek.last_seq == run.seek.last_seq)
        },
{
}

/// The recorder runs from before a sweep until after it, the mount is stopped
/// where the margin ends, and a run ends only after its way back was looked at.
pub proof fn requests_have_their_place(run: ScanRun, i: ScanInput)
    requires
        run_sound(run),
    ensures
        polled(run, i) matches Ok(s) ==> {
            &&& (s.action == ScanAction::StartRecording <==> run.phase == RunPhase::Settling
                && s.run.phase == RunPhase::AwaitRecorder)
            &&& (s.action == ScanAction::StopMotion <==> run.phase == RunPhase::Overshoot
                && s.run.phase == RunPhase::PostRoll)
            &&& (s.action == ScanAction::StopRecording <==> run.phase == RunPhase::PostRoll
                && s.run.phase == RunPhase::WaitingForRecorder)
            &&& (s.action is Finish <==> run.phase == RunPhase::RecenterCheck && s.run.phase
                == RunPhase::Complete)
            &&& (s.action is Nudge <==> run.phase == RunPhase::PrepositionSampling && (s.run.phase
                == RunPhase::PrepositionMoving || s.run.phase == RunPhase::PrepositionMargin)
                || run.phase == RunPhase::PreRoll && s.run.phase == RunPhase::Scanning || run.phase
                == RunPhase::WaitingForRecorder && (s.run.phase == RunPhase::InterScanMargin
                || s.run.phase == RunPhase::Recentering))
        },
{
}

/// A run goes back to the centre only when as many scans are saved as were asked
/// for, and goes on scanning until then.
pub proof fn every_scan_is_made(run: ScanRun, i: ScanInput)
    requires
        run_sound(run),
        run.phase == RunPhase::WaitingForRecorder,
        !i.recorder.recording && !i.recorder.failed,
    ensures
        polled(run, i) matches Ok(s) ==> s.run.scan_index == run.scan_index + 1 && (s.run.phase
            == RunPhase::Recentering <==> run.scan_index + 1 >= i.scan_count),
        run.scan_index + 1 < i.scan_count ==> polled(run, i) is Ok,
{
}

/// A recording that is still open is waited for, and a failed one ends the run.
pub proof fn open_files_are_waited_for(run: ScanRun, i: ScanInput)
    requires
        run.phase == RunPhase::WaitingForRecorder,
    ensures
        i.recorder.recording ==> (polled(run, i) matches Ok(s) && s.run == run && s.action
            == ScanAction::Wait),
        !i.recorder.recording && i.recorder.failed ==> polled(run, i) == Err::<
            ScanStep,
            ScanFailure,
        >(ScanFailure::RecorderFailed),
{
}

/// The way back counts as verified exactly at the second of two new frames in a
/// row that show the disc.
pub proof fn way_back_is_verified_by_two_frames(run: ScanRun, i: ScanInput)
    requires
        run_sound(run),
        run.phase == RunPhase::RecenterCheck,
        i.now >= run.settle_until,
    ensures
        polled(run, i) matches Ok(s) && {
            let fresh = i.sample is Some && i.sample->0.finite && i.sample->0.seq
                > run.recenter.last_seq;
            &&& (s.action == (ScanAction::Finish { verified: true }) <==> fresh
                && i.sample->0.present && run.recenter.present_samples == 1)
            &&& (s.action == (ScanAction::Finish { verified: false }) ==> i.now >= run.deadline)
            &&& (!fresh ==> s.run.recenter == run.recenter)
            &&& (fresh ==> s.run.recenter.last_seq == i.sample->0.seq)
            &&& (fresh && !i.sample->0.present ==> s.run.recenter.present_samples == 0)
            &&& (fresh && i.sample->0.present && run.recenter.present_samples == 0
                ==> s.run.recenter.present_samples == 1)
        },
{
}

/// A new run has seen nothing yet.
pub proof fn new_runs_have_seen_nothing(
    direction: Direction,
    rate_index: u8,
    span: int,
    margin: int,
    seq: u64,
)
    ensures
        ({
            let run = new_run(direction, rate_index, span, margin, seq);
            &&& run.phase == RunPhase::PrepositionMoving
            &&& run.seek.samples == 0 && run.seek.clear_samples == 0
            &&& !run.sweep.seen_disc && run.sweep.entry_at is None && run.sweep.exit_at is None
            &&& run.sweep.present_samples == 0 && run.sweep.clear_samples == 0
            &&& run.recenter.present_samples == 0 && run.recenter.last_seq == seq
        }),
{
}

/// The numbers of a status are those of the run: steps that were made, the span that will
/// be travelled, the scan that is under way or was saved.
pub proof fn statuses_tell_the_numbers_of_the_run(run: ScanRun, i: ScanInput)
    requires
        run_sound(run),
    ensures
        polled(run, i) matches Ok(s) ==> match s.status {
            ScanStatus::LimbMoved { steps } => steps == run.seek.steps,
            ScanStatus::LimbSignal { steps } => steps == run.seek.steps,
            ScanStatus::ExtendingSearch { steps } => steps == s.run.seek.steps && steps
                == run.seek.steps + 1,
            ScanStatus::BackingOff { run_up } => run_up == 2 * run.plan.limb_margin,
            ScanStatus::ClearedSettling { span } => span == s.run.scan_span,
            ScanStatus::RunUpSettling { span } => span == s.run.scan_span,
            ScanStatus::RunUpNextScan { number } => number == run.scan_index + 1,
            ScanStatus::OpeningSer { number } => number == run.scan_index + 1,
            ScanStatus::PreRoll { number } => number == run.scan_index + 1,
            ScanStatus::Moving { number, direction } => number == run.scan_index + 1 && direction
                == s.action->direction,
            ScanStatus::DiscSignal { number } => number == run.scan_index + 1
                && s.run.sweep.seen_disc,
            ScanStatus::WaitingForDisc { number } => number == run.scan_index + 1
                && !s.run.sweep.seen_disc,
            ScanStatus::FarLimbCleared { number } => number == run.scan_index + 1,
            ScanStatus::SpanSpent { number } => number == run.scan_index + 1 && i.nudge_done,
            ScanStatus::MarginCovered { number } => number == run.scan_index + 1 && !i.nudge_done,
            ScanStatus::FarLimbConfirmed { number } => number == run.scan_index + 1,
            ScanStatus::SavedBackingOff { number, extra } => number == s.run.scan_index && extra
                == run.plan.limb_margin,
            ScanStatus::SavedSettling { number } => number == s.run.scan_index,
            ScanStatus::Recentering { distance, direction } => direction == s.action->direction
                && distance / 250 == s.action->duration_ms,
            _ => true,
        },
{
}

/// What lies between two bounds stays as it is, and nothing leaves them.
pub proof fn clamping_keeps_what_fits(x: int, low: int, high: int)
    requires
        low <= high,
    ensures
        low <= clamped(x, low, high) <= high,
        low <= x <= high ==> clamped(x, low, high) == x,
        x < low ==> clamped(x, low, high) == low,
        x > high ==> clamped(x, low, high) == high,
{
}

} // verus!
