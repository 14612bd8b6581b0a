//! Camera-assisted search for the Sun.
//!
//! The search visits a coarse square spiral, measures the camera signal at
//! every point, refines around the strongest one and returns to the strongest
//! point of the refinement. Each call looks at the clock, the mount and the
//! newest camera frame and says what to do next; nothing here waits or moves.
//!
//! Times are milliseconds of a monotonic clock. Signals are integers that are
//! ordered as the measured brightness is; `None` is a signal that compares with
//! nothing.

use crate::mount::{
    coarse, coarse_spiral, grid_step, grid_step_direction, moved, point, points_of, refinement,
    refinement_grid, refinement_is_local, spiral_nudge_duration_ms, spiral_within, within_square,
    Direction,
};
use crate::text::{decimal, decimal_string, joined2, joined3};
use vstd::prelude::*;
use vstd::string::StringExecFns;

verus! {

/// Clock readings below this leave room for every deadline.
pub const CLOCK_LIMIT_MS: u64 = 0x7fff_ffff_ffff_ffff;

pub const SETTLE_AFTER_SLEW_MS: u64 = 2_000;

/// Frames averaged at one point.
pub const SAMPLE_FRAMES: usize = 3;

pub const SAMPLE_TIMEOUT_MS: u64 = 8_000;

pub const SLEW_TIMEOUT_MS: u64 = 180_000;

/// Without any report of motion a slew counts as done after this time: some
/// firmwares never report one.
pub const NO_SLEW_FLAG_MS: u64 = 12_000;

pub const AUTO_CENTER_TIMEOUT_MS: u64 = 600_000;

/// Rings of the coarse spiral: at least one, at most six.
pub const MAX_RINGS: i32 = 6;

/// Where the search starts.
#[derive(Clone, Copy, Debug, PartialEq, Eq, Structural)]
pub enum AutoCenterOrigin {
    SunGoTo,
    CurrentPoint,
}

impl AutoCenterOrigin {
    pub open spec fn spec_label(self) -> Seq<char> {
        match self {
            AutoCenterOrigin::SunGoTo => "Sun GoTo + center"@,
            AutoCenterOrigin::CurrentPoint => "center from current point"@,
        }
    }

    pub fn label(self) -> (text: &'static str)
        ensures
            text@ == self.spec_label(),
    {
        match self {
            AutoCenterOrigin::SunGoTo => "Sun GoTo + center",
            AutoCenterOrigin::CurrentPoint => "center from current point",
        }
    }
}

#[derive(Clone, Copy, Debug, PartialEq, Eq, Structural)]
pub enum AutoCenterPass {
    Coarse,
    Refine,
}

impl AutoCenterPass {
    pub open spec fn spec_label(self) -> Seq<char> {
        match self {
            AutoCenterPass::Coarse => "coarse"@,
            AutoCenterPass::Refine => "refine"@,
        }
    }

    pub fn label(self) -> (text: &'static str)
        ensures
            text@ == self.spec_label(),
    {
        match self {
            AutoCenterPass::Coarse => "coarse",
            AutoCenterPass::Refine => "refine",
        }
    }
}

#[derive(Clone, Copy, Debug, PartialEq, Eq)]
pub enum AutoCenterPhase {
    AwaitingSlew { started: u64, saw_motion: bool },
    Settling { until: u64 },
    Sampling { last_seq: u64, count: usize, deadline: u64 },
    /// The samples of a point are complete; their mean is due.
    Averaging,
    Moving { target: (i32, i32), arrived: bool },
    ReturnReady,
    Finished,
}

/// A running search.
pub struct AutoCenter {
    pub origin: AutoCenterOrigin,
    pub pass: AutoCenterPass,
    /// Points of the current pass.
    pub points: Vec<(i32, i32)>,
    pub point_index: usize,
    /// Where the mount stands, by dead reckoning.
    pub current: (i32, i32),
    /// Strongest point of the pass so far.
    pub best: (i32, i32),
    pub best_signal: Option<i64>,
    /// Half width of the search square.
    pub max_units: i32,
    pub duration_ms: u64,
    pub overall_deadline: u64,
    pub phase: AutoCenterPhase,
}

/// What a search holds.
pub struct AutoView {
    pub origin: AutoCenterOrigin,
    pub pass: AutoCenterPass,
    pub points: Seq<(int, int)>,
    pub point_index: int,
    pub current: (i32, i32),
    pub best: (i32, i32),
    pub best_signal: Option<i64>,
    pub max_units: i32,
    pub duration_ms: u64,
    pub overall_deadline: u64,
    pub phase: AutoCenterPhase,
}

impl View for AutoCenter {
    type V = AutoView;

    open spec fn view(&self) -> AutoView {
        AutoView {
            origin: self.origin,
            pass: self.pass,
            points: points_of(self.points@),
            point_index: self.point_index as int,
            current: self.current,
            best: self.best,
            best_signal: self.best_signal,
            max_units: self.max_units,
            duration_ms: self.duration_ms,
            overall_deadline: self.overall_deadline,
            phase: self.phase,
        }
    }
}

/// Why a search gives up.
#[derive(Clone, Copy, Debug, PartialEq, Eq, Structural)]
pub enum CancelReason {
    TimedOut,
    SlewTimedOut,
    NoFrames,
}

impl CancelReason {
    pub fn text(self) -> (text: &'static str)
        ensures
            text@ == match self {
                CancelReason::TimedOut => "Sun auto-center timed out (10 min limit)"@,
                CancelReason::SlewTimedOut => "Sun auto-center: slew timed out"@,
                CancelReason::NoFrames => "Sun auto-center: no camera frames while sampling"@,
            },
    {
        match self {
            CancelReason::TimedOut => "Sun auto-center timed out (10 min limit)",
            CancelReason::SlewTimedOut => "Sun auto-center: slew timed out",
            CancelReason::NoFrames => "Sun auto-center: no camera frames while sampling",
        }
    }
}

/// What the search asks for.
#[derive(Clone, Copy, Debug, PartialEq, Eq, Structural)]
pub enum AutoStep {
    Idle,
    /// Average the recorded samples and report the mean.
    Average,
    /// Move one grid unit.
    Nudge(Direction),
    Cancel(CancelReason),
    Finish,
}

/// What the status line should now say.
#[derive(Clone, Copy, Debug, PartialEq, Eq, Structural)]
pub enum AutoStatus {
    Unchanged,
    SlewComplete,
    NoSlewFlag,
    /// A point was measured: its number and how many there are.
    Measured { pass: AutoCenterPass, number: usize, total: usize },
    Refining,
}

impl AutoStatus {
    /// The status line, `old` where it does not change. `peak` and `best` are
    /// the measured and the strongest signal, as text.
    pub fn text(self, old_status: &str, peak: &str, best: &str) -> (text: String)
        ensures
            text@ == match self {
                AutoStatus::Unchanged => old_status@,
                AutoStatus::SlewComplete => "Sun auto-center: slew complete, settling…"@,
                AutoStatus::NoSlewFlag =>
                    "Sun auto-center: no slew flag seen; settling and sampling…"@,
                AutoStatus::Measured { pass, number, total } => "Sun auto-center: "@
                    + pass.spec_label() + " point "@ + crate::text::decimal(number as nat) + "/"@
                    + crate::text::decimal(total as nat) + " peak "@ + peak@ + " (best "@ + best@
                    + ")"@,
                AutoStatus::Refining => "Sun auto-center: coarse maximum found; refining at 0.1°"@,
            },
    {
        match self {
            AutoStatus::Unchanged => old_status.to_owned(),
            AutoStatus::SlewComplete => "Sun auto-center: slew complete, settling…".to_owned(),
            AutoStatus::NoSlewFlag =>
                "Sun auto-center: no slew flag seen; settling and sampling…".to_owned(),
            AutoStatus::Measured { pass, number, total } => {
                let mut out = "Sun auto-center: ".to_owned();
                out.append(pass.label());
                out.append(" point ");
                out.append(decimal_string(number as u64).as_str());
                out.append("/");
                out.append(decimal_string(total as u64).as_str());
                out.append(" peak ");
                out.append(peak);
                out.append(" (best ");
                out.append(best);
                out.append(")");
                out
            },
            AutoStatus::Refining =>
                "Sun auto-center: coarse maximum found; refining at 0.1°".to_owned(),
        }
    }
}

/// Answer to one look at the world. `record` says that the newest frame counts
/// as a sample of the current point.
#[derive(Clone, Copy, Debug, PartialEq, Eq, Structural)]
pub struct AutoOutput {
    pub record: bool,
    pub step: AutoStep,
    pub status: AutoStatus,
}

pub open spec fn output(step: AutoStep, status: AutoStatus) -> AutoOutput {
    AutoOutput { record: false, step, status }
}

/// Time passed since an earlier clock reading.
pub open spec fn elapsed(now: u64, since: u64) -> int {
    if now >= since {
        now - since
    } else {
        0
    }
}

/// The grid point one step further.
pub open spec fn stepped(p: (i32, i32), d: Direction) -> (i32, i32) {
    (moved(point(p), d).0 as i32, moved(point(p), d).1 as i32)
}

/// Starts sampling at the current point; frames up to the newest one do not
/// count.
pub open spec fn sampling(s: AutoView, now: u64, latest: Option<u64>) -> AutoView {
    AutoView {
        phase: AutoCenterPhase::Sampling {
            last_seq: match latest {
                Some(seq) => seq,
                None => 0,
            },
            count: 0,
            deadline: (now + SAMPLE_TIMEOUT_MS) as u64,
        },
        ..s
    }
}

/// Sets out for a target, or samples at once where it is reached already.
pub open spec fn departed(
    s: AutoView,
    target: (i32, i32),
    now: u64,
    latest: Option<u64>,
) -> (AutoView, AutoStep) {
    match grid_step(point(s.current), point(target)) {
        None => (sampling(s, now, latest), AutoStep::Idle),
        Some(d) => (
            AutoView {
                current: stepped(s.current, d),
                phase: AutoCenterPhase::Moving { target, arrived: false },
                ..s
            },
            AutoStep::Nudge(d),
        ),
    }
}

/// Settles before the first sample.
pub open spec fn settling(s: AutoView, now: u64) -> AutoView {
    AutoView {
        phase: AutoCenterPhase::Settling { until: (now + SETTLE_AFTER_SLEW_MS) as u64 },
        ..s
    }
}

/// The way back to the strongest point: done when the mount stands there.
pub open spec fn returning(s: AutoView, now: u64, latest: Option<u64>) -> (AutoView, AutoStep) {
    if now >= s.overall_deadline {
        (s, AutoStep::Cancel(CancelReason::TimedOut))
    } else if s.current == s.best {
        (AutoView { phase: AutoCenterPhase::Finished, ..s }, AutoStep::Finish)
    } else {
        departed(s, s.best, now, latest)
    }
}

/// One look at the world.
pub open spec fn advanced(
    s: AutoView,
    now: u64,
    slewing: Option<bool>,
    latest: Option<u64>,
) -> (AutoView, AutoOutput) {
    if now >= s.overall_deadline {
        (s, output(AutoStep::Cancel(CancelReason::TimedOut), AutoStatus::Unchanged))
    } else {
        match s.phase {
            AutoCenterPhase::AwaitingSlew { started, saw_motion } => {
                let moving = saw_motion || slewing == Some(true);
                let watching = AutoView {
                    phase: AutoCenterPhase::AwaitingSlew { started, saw_motion: moving },
                    ..s
                };
                if moving && slewing == Some(false) {
                    (settling(s, now), output(AutoStep::Idle, AutoStatus::SlewComplete))
                } else if elapsed(now, started) >= SLEW_TIMEOUT_MS {
                    (
                        watching,
                        output(AutoStep::Cancel(CancelReason::SlewTimedOut), AutoStatus::Unchanged),
                    )
                } else if !moving && elapsed(now, started) >= NO_SLEW_FLAG_MS {
                    (settling(s, now), output(AutoStep::Idle, AutoStatus::NoSlewFlag))
                } else {
                    (watching, output(AutoStep::Idle, AutoStatus::Unchanged))
                }
            },
            AutoCenterPhase::Settling { until } => if now >= until {
                (sampling(s, now, latest), output(AutoStep::Idle, AutoStatus::Unchanged))
            } else {
                (s, output(AutoStep::Idle, AutoStatus::Unchanged))
            },
            AutoCenterPhase::Sampling { last_seq, count, deadline } => {
                let fresh = latest is Some && latest->0 > last_seq;
                let taken: usize = if fresh {
                    (count + 1) as usize
                } else {
                    count
                };
                let seen: u64 = if fresh {
                    latest->0
                } else {
                    last_seq
                };
                let gathering = AutoView {
                    phase: AutoCenterPhase::Sampling { last_seq: seen, count: taken, deadline },
                    ..s
                };
                if taken < SAMPLE_FRAMES && now < deadline {
                    (
                        gathering,
                        AutoOutput {
                            record: fresh,
                            step: AutoStep::Idle,
                            status: AutoStatus::Unchanged,
                        },
                    )
                } else if taken == 0 {
                    (
                        gathering,
                        output(AutoStep::Cancel(CancelReason::NoFrames), AutoStatus::Unchanged),
                    )
                } else {
                    (
                        AutoView { phase: AutoCenterPhase::Averaging, ..s },
                        AutoOutput {
                            record: fresh,
                            step: AutoStep::Average,
                            status: AutoStatus::Unchanged,
                        },
                    )
                }
            },
            AutoCenterPhase::Averaging => (s, output(AutoStep::Average, AutoStatus::Unchanged)),
            AutoCenterPhase::Moving { target, arrived } => if arrived || s.current == target {
                (sampling(s, now, latest), output(AutoStep::Idle, AutoStatus::Unchanged))
            } else {
                (s, output(AutoStep::Idle, AutoStatus::Unchanged))
            },
            AutoCenterPhase::ReturnReady => {
                let (next, step) = returning(s, now, latest);
                (next, output(step, AutoStatus::Unchanged))
            },
            AutoCenterPhase::Finished => (s, output(AutoStep::Finish, AutoStatus::Unchanged)),
        }
    }
}

/// Whether a signal is stronger than the strongest one so far.
pub open spec fn stronger(peak: Option<i64>, best: Option<i64>) -> bool {
    match (peak, best) {
        (None, _) => false,
        (Some(_), None) => true,
        (Some(p), Some(b)) => p > b,
    }
}

/// The point that a mean belongs to.
pub open spec fn measured_point(s: AutoView) -> (i32, i32) {
    if s.point_index < s.points.len() {
        let p = s.points[s.point_index];
        (p.0 as i32, p.1 as i32)
    } else {
        s.current
    }
}

/// The search after the mean of a point is noted.
pub open spec fn noted(s: AutoView, peak: Option<i64>) -> AutoView {
    if stronger(peak, s.best_signal) {
        AutoView {
            best: measured_point(s),
            best_signal: peak,
            point_index: s.point_index + 1,
            ..s
        }
    } else {
        AutoView { point_index: s.point_index + 1, ..s }
    }
}

/// The mean of a point: on to the next point, to the refinement or back to the
/// strongest point.
pub open spec fn measured(
    s: AutoView,
    peak: Option<i64>,
    now: u64,
    latest: Option<u64>,
) -> (AutoView, AutoOutput) {
    let n = noted(s, peak);
    let report = AutoStatus::Measured {
        pass: s.pass,
        number: n.point_index as usize,
        total: s.points.len() as usize,
    };
    if n.point_index < n.points.len() {
        let (next, step) = departed(n, measured_point(n), now, latest);
        (next, output(step, report))
    } else {
        match s.pass {
            AutoCenterPass::Coarse => {
                let fine = AutoView {
                    pass: AutoCenterPass::Refine,
                    points: refinement(point(n.best), s.max_units as int),
                    point_index: 0,
                    best_signal: None,
                    ..n
                };
                let (next, step) = departed(fine, measured_point(fine), now, latest);
                (next, output(step, AutoStatus::Refining))
            },
            AutoCenterPass::Refine => {
                let back = AutoView { phase: AutoCenterPhase::ReturnReady, ..n };
                let (next, step) = returning(back, now, latest);
                (next, output(step, report))
            },
        }
    }
}

/// The mount finished a step: the next one towards the target, or arrival.
pub open spec fn nudged(s: AutoView) -> (AutoView, Option<Direction>) {
    match s.phase {
        AutoCenterPhase::Moving { target, .. } => match grid_step(point(s.current), point(target)) {
            None => (
                AutoView { phase: AutoCenterPhase::Moving { target, arrived: true }, ..s },
                None,
            ),
            Some(d) => (AutoView { current: stepped(s.current, d), ..s }, Some(d)),
        },
        _ => (s, None),
    }
}

/// What holds between two calls: the search stays inside its square, and once
/// every point is measured only the way back is left.
pub open spec fn sound(s: AutoView) -> bool {
    &&& 1 <= s.max_units <= 2 * MAX_RINGS
    &&& s.points.len() > 0
    &&& s.points.len() < 1000
    &&& forall|i: int|
        0 <= i < s.points.len() ==> within_square(#[trigger] s.points[i], s.max_units as int)
    &&& within_square(point(s.best), s.max_units as int)
    &&& within_square(point(s.current), s.max_units as int)
    &&& 0 <= s.point_index <= s.points.len() + 1
    &&& s.phase matches AutoCenterPhase::Sampling { count, .. } ==> count < SAMPLE_FRAMES
    &&& s.phase matches AutoCenterPhase::Moving { target, .. } ==> within_square(
        point(target),
        s.max_units as int,
    )
    &&& s.point_index >= s.points.len() ==> {
        &&& s.pass == AutoCenterPass::Refine
        &&& match s.phase {
            AutoCenterPhase::AwaitingSlew { .. } => false,
            AutoCenterPhase::Settling { .. } => false,
            AutoCenterPhase::Sampling { .. } => s.current == s.best,
            AutoCenterPhase::Averaging => s.current == s.best,
            AutoCenterPhase::Moving { target, arrived } => target == s.best && (arrived ==> s.current
                == target),
            _ => true,
        }
    }
    &&& s.point_index == s.points.len() + 1 ==> match s.phase {
        AutoCenterPhase::Finished => true,
        AutoCenterPhase::ReturnReady => s.current == s.best,
        _ => false,
    }
}

proof fn lemma_coarse_sound(rings: int, max_units: int)
    requires
        1 <= rings <= MAX_RINGS,
        max_units == 2 * rings,
    ensures
        0 < coarse(rings).len() < 1000,
        coarse(rings)[0] == (0int, 0int),
        forall|i: int|
            0 <= i < coarse(rings).len() ==> within_square(#[trigger] coarse(rings)[i], max_units),
{
    crate::mount::spiral_len(rings);
    assert((2 * rings + 1) * (2 * rings + 1) <= 13 * 13) by (nonlinear_arith)
        requires
            1 <= rings <= 6,
    ;
    assert((2 * rings + 1) * (2 * rings + 1) > 0) by (nonlinear_arith)
        requires
            1 <= rings,
    ;
    assert forall|i: int| 0 <= i < coarse(rings).len() implies within_square(
        #[trigger] coarse(rings)[i],
        max_units,
    ) by {
        spiral_within(rings, i);
    }
    lemma_first_point(rings);
}

proof fn lemma_first_point(rings: int)
    requires
        0 <= rings,
    ensures
        crate::mount::spiral(rings).len() > 0,
        crate::mount::spiral(rings)[0] == (0int, 0int),
    decreases rings,
{
    if rings > 0 {
        lemma_first_point(rings - 1);
    }
}

proof fn lemma_refinement_sound(center: (int, int), max_units: int)
    requires
        within_square(center, max_units),
    ensures
        0 < refinement(center, max_units).len() < 1000,
        forall|i: int|
            0 <= i < refinement(center, max_units).len() ==> within_square(
                #[trigger] refinement(center, max_units)[i],
                max_units,
            ),
{
    refinement_is_local(center, max_units);
    crate::mount::spiral_len(1);
    let all = crate::mount::spiral(1).map_values(
        |p: (int, int)| crate::mount::shifted(center, p),
    );
    let keep = |p: (int, int)| within_square(p, max_units);
    assert(refinement(center, max_units) == all.filter(keep));
    all.lemma_filter_len(keep);
    let r: int = 1;
    assert((2 * r + 1) * (2 * r + 1) == 9) by (nonlinear_arith)
        requires
            r == 1,
    ;
}

/// The mount is never sent outside the search square: every answer keeps the
/// search sound, and a step moves the reckoned position by exactly the one
/// grid unit that is asked of the mount.
pub proof fn advance_keeps_square(s: AutoView, now: u64, slewing: Option<bool>, latest: Option<u64>)
    requires
        sound(s),
    ensures
        ({
            let (next, out) = advanced(s, now, slewing, latest);
            &&& sound(next)
            &&& match out.step {
                AutoStep::Nudge(d) => point(next.current) == moved(point(s.current), d),
                _ => next.current == s.current,
            }
        }),
{
}

/// The same of the answer to a measured point.
pub proof fn measure_keeps_square(s: AutoView, peak: Option<i64>, now: u64, latest: Option<u64>)
    requires
        sound(s),
        s.phase == AutoCenterPhase::Averaging,
    ensures
        ({
            let (next, out) = measured(s, peak, now, latest);
            &&& sound(next)
            &&& match out.step {
                AutoStep::Nudge(d) => point(next.current) == moved(point(s.current), d),
                _ => next.current == s.current,
            }
        }),
{
    let n = noted(s, peak);
    if n.point_index < n.points.len() {
        assert(within_square(n.points[n.point_index], s.max_units as int));
    }
    if s.point_index < s.points.len() {
        assert(within_square(s.points[s.point_index], s.max_units as int));
    }
    lemma_refinement_sound(point(n.best), s.max_units as int);
    let grid = refinement(point(n.best), s.max_units as int);
    assert(within_square(grid[0], s.max_units as int));
}

/// The same of the report that a step is finished.
pub proof fn nudge_keeps_square(s: AutoView)
    requires
        sound(s),
    ensures
        ({
            let (next, step) = nudged(s);
            &&& sound(next)
            &&& match step {
                Some(d) => point(next.current) == moved(point(s.current), d),
                None => next.current == s.current,
            }
        }),
{
}

/// A search ends only at the strongest point that it knows.
pub proof fn finish_at_best(s: AutoView, peak: Option<i64>, now: u64, latest: Option<u64>)
    requires
        sound(s),
        s.phase == AutoCenterPhase::Averaging,
        measured(s, peak, now, latest).1.step == AutoStep::Finish,
    ensures
        measured(s, peak, now, latest).0.current == measured(s, peak, now, latest).0.best,
        s.pass == AutoCenterPass::Refine,
        s.point_index + 1 >= s.points.len(),
{
    lemma_refinement_sound(point(noted(s, peak).best), s.max_units as int);
}

/// Measuring never forgets a stronger point of the same pass.
pub proof fn best_signal_grows(s: AutoView, peak: Option<i64>)
    ensures
        s.best_signal is Some ==> noted(s, peak).best_signal is Some
            && noted(s, peak).best_signal->0 >= s.best_signal->0,
        peak is Some ==> noted(s, peak).best_signal is Some && noted(s, peak).best_signal->0
            >= peak->0,
{
}

/// A search of so many rings before its first step. One that starts with the way
/// to the Sun waits for it; another lets the mount settle.
pub open spec fn begun(origin: AutoCenterOrigin, rings: int, now: u64) -> AutoView {
    AutoView {
        origin,
        pass: AutoCenterPass::Coarse,
        points: coarse(rings),
        point_index: 0,
        current: (0, 0),
        best: (0, 0),
        best_signal: None,
        max_units: (2 * rings) as i32,
        duration_ms: 400,
        overall_deadline: (now + AUTO_CENTER_TIMEOUT_MS) as u64,
        phase: match origin {
            AutoCenterOrigin::SunGoTo => AutoCenterPhase::AwaitingSlew {
                started: now,
                saw_motion: false,
            },
            AutoCenterOrigin::CurrentPoint => AutoCenterPhase::Settling {
                until: (now + SETTLE_AFTER_SLEW_MS) as u64,
            },
        },
    }
}

impl AutoCenter {
    pub open spec fn sound(&self) -> bool {
        sound(self@)
    }

    /// Starts a search of the given number of rings.
    pub fn begin(origin: AutoCenterOrigin, rings: i32, now: u64) -> (s: AutoCenter)
        requires
            1 <= rings <= MAX_RINGS,
            now <= CLOCK_LIMIT_MS,
        ensures
            s.sound(),
            s@ == begun(origin, rings as int, now),
    {
        let points = coarse_spiral(rings);
        let phase = match origin {
            AutoCenterOrigin::SunGoTo => AutoCenterPhase::AwaitingSlew {
                started: now,
                saw_motion: false,
            },
            AutoCenterOrigin::CurrentPoint => AutoCenterPhase::Settling {
                until: now + SETTLE_AFTER_SLEW_MS,
            },
        };
        proof {
            lemma_coarse_sound(rings as int, 2 * rings);
        }
        AutoCenter {
            origin,
            pass: AutoCenterPass::Coarse,
            points,
            point_index: 0,
            current: (0, 0),
            best: (0, 0),
            best_signal: None,
            max_units: rings * 2,
            duration_ms: spiral_nudge_duration_ms(),
            overall_deadline: now + AUTO_CENTER_TIMEOUT_MS,
            phase,
        }
    }

    fn start_sampling(&mut self, now: u64, latest: Option<u64>)
        requires
            now <= CLOCK_LIMIT_MS,
        ensures
            final(self)@ == sampling(old(self)@, now, latest),
    {
        let last_seq: u64 = match latest {
            Some(seq) => seq,
            None => 0,
        };
        self.phase =
        AutoCenterPhase::Sampling { last_seq, count: 0, deadline: now + SAMPLE_TIMEOUT_MS };
    }

    fn start_move(&mut self, target: (i32, i32), now: u64, latest: Option<u64>) -> (step: AutoStep)
        requires
            now <= CLOCK_LIMIT_MS,
        ensures
            (final(self)@, step) == departed(old(self)@, target, now, latest),
    {
        match grid_step_direction(self.current, target) {
            None => {
                self.start_sampling(now, latest);
                AutoStep::Idle
            },
            Some((direction, next)) => {
                self.current = next;
                self.phase = AutoCenterPhase::Moving { target, arrived: false };
                AutoStep::Nudge(direction)
            },
        }
    }

    fn start_return(&mut self, now: u64, latest: Option<u64>) -> (step: AutoStep)
        requires
            now <= CLOCK_LIMIT_MS,
        ensures
            (final(self)@, step) == returning(old(self)@, now, latest),
    {
        if now >= self.overall_deadline {
            AutoStep::Cancel(CancelReason::TimedOut)
        } else if self.current.0 == self.best.0 && self.current.1 == self.best.1 {
            self.phase = AutoCenterPhase::Finished;
            AutoStep::Finish
        } else {
            let target = self.best;
            self.start_move(target, now, latest)
        }
    }

    /// Looks at the clock, at what the mount says of its motion and at the
    /// number of the newest camera frame.
    pub fn advance(&mut self, now: u64, slewing: Option<bool>, latest: Option<u64>) -> (out:
        AutoOutput)
        requires
            old(self).sound(),
            now <= CLOCK_LIMIT_MS,
        ensures
            final(self).sound(),
            (final(self)@, out) == advanced(old(self)@, now, slewing, latest),
    {
        proof {
            advance_keeps_square(self@, now, slewing, latest);
        }
        let quiet = AutoOutput {
            record: false,
            step: AutoStep::Idle,
            status: AutoStatus::Unchanged,
        };
        if now >= self.overall_deadline {
            return AutoOutput { step: AutoStep::Cancel(CancelReason::TimedOut), ..quiet };
        }
        match self.phase {
            AutoCenterPhase::AwaitingSlew { started, saw_motion } => {
                let reported: bool = match slewing {
                    Some(b) => b,
                    None => false,
                };
                let stopped: bool = match slewing {
                    Some(b) => !b,
                    None => false,
                };
                let moving: bool = saw_motion || reported;
                let waited: u64 = if now >= started {
                    now - started
                } else {
                    0
                };
                self.phase = AutoCenterPhase::AwaitingSlew { started, saw_motion: moving };
                if moving && stopped {
                    self.phase = AutoCenterPhase::Settling { until: now + SETTLE_AFTER_SLEW_MS };
                    AutoOutput { status: AutoStatus::SlewComplete, ..quiet }
                } else if waited >= SLEW_TIMEOUT_MS {
                    AutoOutput { step: AutoStep::Cancel(CancelReason::SlewTimedOut), ..quiet }
                } else if !moving && waited >= NO_SLEW_FLAG_MS {
                    self.phase = AutoCenterPhase::Settling { until: now + SETTLE_AFTER_SLEW_MS };
                    AutoOutput { status: AutoStatus::NoSlewFlag, ..quiet }
                } else {
                    quiet
                }
            },
            AutoCenterPhase::Settling { until } => {
                if now >= until {
                    self.start_sampling(now, latest);
                }
                quiet
            },
            AutoCenterPhase::Sampling { last_seq, count, deadline } => {
                let mut seen: u64 = last_seq;
                let mut taken: usize = count;
                let mut fresh: bool = false;
                if let Some(seq) = latest {
                    if seq > last_seq {
                        seen = seq;
                        taken = count + 1;
                        fresh = true;
                    }
                }
                if taken < SAMPLE_FRAMES && now < deadline {
                    self.phase =
                    AutoCenterPhase::Sampling { last_seq: seen, count: taken, deadline };
                    AutoOutput { record: fresh, ..quiet }
                } else if taken == 0 {
                    AutoOutput { step: AutoStep::Cancel(CancelReason::NoFrames), ..quiet }
                } else {
                    self.phase = AutoCenterPhase::Averaging;
                    AutoOutput { record: fresh, step: AutoStep::Average, ..quiet }
                }
            },
            AutoCenterPhase::Averaging => AutoOutput { step: AutoStep::Average, ..quiet },
            AutoCenterPhase::Moving { target, arrived } => {
                if arrived || (self.current.0 == target.0 && self.current.1 == target.1) {
                    self.start_sampling(now, latest);
                }
                quiet
            },
            AutoCenterPhase::ReturnReady => {
                let step = self.start_return(now, latest);
                AutoOutput { step, ..quiet }
            },
            AutoCenterPhase::Finished => AutoOutput { step: AutoStep::Finish, ..quiet },
        }
    }

    /// Notes the mean signal of the current point.
    pub fn measure(&mut self, peak: Option<i64>, now: u64, latest: Option<u64>) -> (out: AutoOutput)
        requires
            old(self).sound(),
            old(self).phase == AutoCenterPhase::Averaging,
            now <= CLOCK_LIMIT_MS,
        ensures
            final(self).sound(),
            (final(self)@, out) == measured(old(self)@, peak, now, latest),
    {
        proof {
            measure_keeps_square(self@, peak, now, latest);
        }
        let ghost before = self@;
        let index: usize = self.point_index;
        let total: usize = self.points.len();
        let at: (i32, i32) = if index < total {
            self.points[index]
        } else {
            self.current
        };
        assert(at == measured_point(before));
        let better: bool = match (peak, self.best_signal) {
            (None, _) => false,
            (Some(_), None) => true,
            (Some(p), Some(b)) => p > b,
        };
        if better {
            self.best_signal = peak;
            self.best = at;
        }
        self.point_index = index + 1;
        assert(self@ == noted(before, peak));
        let report = AutoStatus::Measured { pass: self.pass, number: self.point_index, total };
        if self.point_index < total {
            let target = self.points[self.point_index];
            assert(target == measured_point(self@));
            let step = self.start_move(target, now, latest);
            AutoOutput { record: false, step, status: report }
        } else {
            match self.pass {
                AutoCenterPass::Coarse => {
                    proof {
                        if before.point_index < before.points.len() {
                            assert(within_square(
                                before.points[before.point_index],
                                before.max_units as int,
                            ));
                        }
                        lemma_refinement_sound(point(self.best), self.max_units as int);
                    }
                    self.pass = AutoCenterPass::Refine;
                    self.points = refinement_grid(self.best, self.max_units);
                    self.point_index = 0;
                    self.best_signal = None;
                    let target = self.points[0];
                    assert(point(self.points@[0]) == self@.points[0]);
                    assert(target == measured_point(self@));
                    let step = self.start_move(target, now, latest);
                    AutoOutput { record: false, step, status: AutoStatus::Refining }
                },
                AutoCenterPass::Refine => {
                    self.phase = AutoCenterPhase::ReturnReady;
                    let step = self.start_return(now, latest);
                    AutoOutput { record: false, step, status: report }
                },
            }
        }
    }

    /// Takes the mount's report that a step is finished.
    pub fn nudge_done(&mut self) -> (step: Option<Direction>)
        requires
            old(self).sound(),
        ensures
            final(self).sound(),
            (final(self)@, step) == nudged(old(self)@),
    {
        proof {
            nudge_keeps_square(self@);
        }
        match self.phase {
            AutoCenterPhase::Moving { target, .. } => match grid_step_direction(
                self.current,
                target,
            ) {
                None => {
                    self.phase = AutoCenterPhase::Moving { target, arrived: true };
                    None
                },
                Some((direction, next)) => {
                    self.current = next;
                    Some(direction)
                },
            },
            _ => None,
        }
    }
}

// ---------------------------------------------------------------------------
// Progress in words
// ---------------------------------------------------------------------------

/// A grid coordinate in degrees, with its tenth.
pub open spec fn degrees_text(units: int) -> Seq<char> {
    let size = if units < 0 {
        -units
    } else {
        units
    } as nat;
    (if units < 0 {
        "-"@
    } else {
        ""@
    }) + decimal(size / 10) + "."@ + decimal(size % 10)
}

fn degrees_string(units: i32) -> (text: String)
    ensures
        text@ == degrees_text(units as int),
{
    let size: u64 = if units < 0 {
        (-(units as i64)) as u64
    } else {
        units as u64
    };
    let mut text = joined2(
        if units < 0 {
            "-"
        } else {
            ""
        },
        decimal_string(size / 10).as_str(),
    );
    text.append(".");
    text.append(decimal_string(size % 10).as_str());
    text
}

pub open spec fn point_text(p: (i32, i32)) -> Seq<char> {
    "("@ + degrees_text(p.0 as int) + "°, "@ + degrees_text(p.1 as int) + "°)"@
}

fn point_string(p: (i32, i32)) -> (text: String)
    ensures
        text@ == point_text(p),
{
    let mut text = joined3("(", degrees_string(p.0).as_str(), "°, ");
    text.append(degrees_string(p.1).as_str());
    text.append("°)");
    text
}

impl AutoCenter {
    /// Which point of how many is visited.
    pub open spec fn spec_counter(&self) -> Seq<char> {
        let n = if self.points@.len() == 0 {
            1
        } else {
            self.points@.len() as int
        };
        let i = if self.point_index < n {
            self.point_index + 1
        } else {
            n
        };
        decimal(i as nat) + "/"@ + decimal(n as nat)
    }

    fn counter(&self) -> (text: String)
        ensures
            text@ == self.spec_counter(),
    {
        let n: usize = if self.points.len() == 0 {
            1
        } else {
            self.points.len()
        };
        let i: usize = if self.point_index < n {
            self.point_index + 1
        } else {
            n
        };
        joined3(decimal_string(i as u64).as_str(), "/", decimal_string(n as u64).as_str())
    }

    /// What the search is doing.
    pub open spec fn spec_phase_text(&self) -> Seq<char> {
        let sampled = |count: nat|
            self.pass.spec_label() + " sampling "@ + self.spec_counter() + " ("@ + decimal(count)
                + "/3)"@;
        match self.phase {
            AutoCenterPhase::AwaitingSlew { .. } => "waiting for slew"@,
            AutoCenterPhase::Settling { .. } => match self.origin {
                AutoCenterOrigin::SunGoTo => "settling after slew"@,
                AutoCenterOrigin::CurrentPoint => "settling at current point"@,
            },
            AutoCenterPhase::Sampling { count, .. } => sampled(count as nat),
            AutoCenterPhase::Averaging => sampled(SAMPLE_FRAMES as nat),
            AutoCenterPhase::Moving { target, .. } => self.pass.spec_label() + " nudge to "@
                + point_text(target) + " — point "@ + self.spec_counter(),
            AutoCenterPhase::ReturnReady => "returning to refined peak"@,
            AutoCenterPhase::Finished => "finishing"@,
        }
    }

    /// Progress of the search; `peak` is the strongest signal in words.
    pub fn progress_label(&self, peak: &str) -> (text: String)
        ensures
            text@ == "Auto-center ("@ + self.origin.spec_label() + ") — "@ + self.spec_phase_text()
                + (if self.best_signal is Some {
                " · best peak "@ + peak@ + " at "@ + point_text(self.best)
            } else {
                ""@
            }),
    {
        let phase: String = match self.phase {
            AutoCenterPhase::AwaitingSlew { .. } => "waiting for slew".to_owned(),
            AutoCenterPhase::Settling { .. } => match self.origin {
                AutoCenterOrigin::SunGoTo => "settling after slew".to_owned(),
                AutoCenterOrigin::CurrentPoint => "settling at current point".to_owned(),
            },
            AutoCenterPhase::Sampling { count, .. } => self.sampled(count),
            AutoCenterPhase::Averaging => self.sampled(SAMPLE_FRAMES),
            AutoCenterPhase::Moving { target, .. } => {
                let mut t = joined3(
                    self.pass.label(),
                    " nudge to ",
                    point_string(target).as_str(),
                );
                t.append(" — point ");
                t.append(self.counter().as_str());
                t
            },
            AutoCenterPhase::ReturnReady => "returning to refined peak".to_owned(),
            AutoCenterPhase::Finished => "finishing".to_owned(),
        };
        let best: String = if self.best_signal.is_some() {
            let mut t = joined3(" · best peak ", peak, " at ");
            t.append(point_string(self.best).as_str());
            t
        } else {
            "".to_owned()
        };
        let mut text = joined3("Auto-center (", self.origin.label(), ") — ");
        text.append(phase.as_str());
        text.append(best.as_str());
        text
    }

    fn sampled(&self, count: usize) -> (text: String)
        ensures
            text@ == self.pass.spec_label() + " sampling "@ + self.spec_counter() + " ("@ + decimal(
                count as nat,
            ) + "/3)"@,
    {
        let mut t = joined3(self.pass.label(), " sampling ", self.counter().as_str());
        t.append(" (");
        t.append(decimal_string(count as u64).as_str());
        t.append("/3)");
        t
    }
}

// ---------------------------------------------------------------------------
// What a search promises
// ---------------------------------------------------------------------------

/// A slew counts as finished only when the mount was seen to move before and now
/// says that it does not. Without a report of motion the search waits twelve
/// seconds, and with one three minutes.
pub proof fn slew_is_seen_before_it_ends(
    s: AutoView,
    now: u64,
    slewing: Option<bool>,
    latest: Option<u64>,
)
    requires
        s.phase is AwaitingSlew,
        now < s.overall_deadline,
    ensures
        ({
            let (next, out) = advanced(s, now, slewing, latest);
            let started = s.phase->started;
            let saw = s.phase->saw_motion;
            let stopped = slewing == Some(false);
            let moves = slewing == Some(true);
            &&& (out.status == AutoStatus::SlewComplete <==> saw && stopped)
            &&& (out.status == AutoStatus::NoSlewFlag <==> !saw && !moves && now >= started + 12_000
                && now < started + 180_000)
            &&& (out.step == AutoStep::Cancel(CancelReason::SlewTimedOut) <==> !(saw && stopped)
                && now >= started + 180_000)
            &&& (next.phase is Settling <==> out.status == AutoStatus::SlewComplete || out.status
                == AutoStatus::NoSlewFlag)
            &&& (!(next.phase is Settling) ==> next.phase == (AutoCenterPhase::AwaitingSlew {
                started,
                saw_motion: saw || moves,
            }) && out.status == AutoStatus::Unchanged)
            &&& (out.step == AutoStep::Idle || out.step == AutoStep::Cancel(
                CancelReason::SlewTimedOut,
            ))
            &&& next == (AutoView { phase: next.phase, ..s })
        }),
{
}

/// After a slew the mount settles for two seconds before the first frame counts.
pub proof fn slew_is_followed_by_a_pause(
    s: AutoView,
    now: u64,
    slewing: Option<bool>,
    latest: Option<u64>,
    later: u64,
    slewing_later: Option<bool>,
    latest_later: Option<u64>,
)
    requires
        s.phase is AwaitingSlew,
        now <= CLOCK_LIMIT_MS,
        advanced(s, now, slewing, latest).0.phase is Settling,
        later < s.overall_deadline,
    ensures
        ({
            let settled = advanced(s, now, slewing, latest).0;
            let (next, out) = advanced(settled, later, slewing_later, latest_later);
            &&& out == output(AutoStep::Idle, AutoStatus::Unchanged)
            &&& (later < now + 2_000 ==> next == settled)
            &&& (later >= now + 2_000 ==> next.phase is Sampling && next.phase->count == 0)
        }),
{
}

/// A search takes at most ten minutes: from then on every look at the world only
/// cancels it.
pub proof fn searches_end_in_time(
    origin: AutoCenterOrigin,
    rings: int,
    began: u64,
    s: AutoView,
    now: u64,
    slewing: Option<bool>,
    latest: Option<u64>,
)
    requires
        began <= CLOCK_LIMIT_MS,
        s.overall_deadline == begun(origin, rings, began).overall_deadline,
    ensures
        now >= began + 600_000 ==> advanced(s, now, slewing, latest) == (
            s,
            output(AutoStep::Cancel(CancelReason::TimedOut), AutoStatus::Unchanged),
        ),
        now < began + 600_000 ==> advanced(s, now, slewing, latest).1.step != AutoStep::Cancel(
            CancelReason::TimedOut,
        ),
        advanced(s, now, slewing, latest).0.overall_deadline == s.overall_deadline,
{
}

/// A search begins where the mount stands, at the middle of its square, and looks
/// at every second grid point of it. One that starts with a GoTo waits for the
/// slew; another settles for two seconds.
pub proof fn search_begins_in_the_middle(origin: AutoCenterOrigin, rings: int, now: u64)
    requires
        1 <= rings <= 6,
        now <= CLOCK_LIMIT_MS,
    ensures
        ({
            let s = begun(origin, rings, now);
            &&& s.current == (0i32, 0i32) && s.best == (0i32, 0i32) && s.best_signal is None
            &&& s.points.len() > 0 && s.points[0] == (0int, 0int) && s.point_index == 0
            &&& s.max_units == 2 * rings
            &&& s.pass == AutoCenterPass::Coarse
            &&& s.duration_ms * 60 * 15 == 360_000
            &&& (origin == AutoCenterOrigin::SunGoTo ==> s.phase == (AutoCenterPhase::AwaitingSlew {
                started: now,
                saw_motion: false,
            }))
            &&& (origin == AutoCenterOrigin::CurrentPoint ==> s.phase is Settling
                && s.phase->until == now + 2_000)
        }),
        forall|a: int, b: int|
            -rings <= a <= rings && -rings <= b <= rings ==> #[trigger] begun(
                origin,
                rings,
                now,
            ).points.contains((2 * a, 2 * b)),
        forall|k: int|
            0 <= k < begun(origin, rings, now).points.len() ==> {
                let p = #[trigger] begun(origin, rings, now).points[k];
                p.0 % 2 == 0 && p.1 % 2 == 0 && within_square(p, 2 * rings)
            },
{
    lemma_coarse_sound(rings, 2 * rings);
    assert forall|a: int, b: int|
        -rings <= a <= rings && -rings <= b <= rings implies #[trigger] coarse(rings).contains(
        (2 * a, 2 * b),
    ) by {
        crate::mount::spiral_covers(rings, (a, b));
        let k = choose|k: int|
            0 <= k < crate::mount::spiral(rings).len() && crate::mount::spiral(rings)[k] == (a, b);
        assert(coarse(rings)[k] == (2 * a, 2 * b));
    }
    assert forall|k: int| 0 <= k < coarse(rings).len() implies {
        let p = #[trigger] coarse(rings)[k];
        p.0 % 2 == 0 && p.1 % 2 == 0
    } by {
        assert(coarse(rings)[k] == crate::mount::scaled(crate::mount::spiral(rings)[k]));
    }
}

/// Frames that are there when sampling starts do not count, three newer ones do,
/// and each of them counts once. After eight seconds the samples at hand are
/// taken; without any the search gives up.
pub proof fn points_are_sampled_by_three_new_frames(
    s: AutoView,
    now: u64,
    slewing: Option<bool>,
    latest: Option<u64>,
)
    requires
        sound(s),
        s.phase is Sampling,
        now < s.overall_deadline,
    ensures
        ({
            let (next, out) = advanced(s, now, slewing, latest);
            let fresh = latest is Some && latest->0 > s.phase->last_seq;
            let taken = s.phase->count + (if fresh {
                1int
            } else {
                0
            });
            &&& (out.record <==> fresh && !(out.step is Cancel))
            &&& (out.step == AutoStep::Average <==> taken == 3 || now >= s.phase->deadline && taken
                > 0)
            &&& (out.step == AutoStep::Cancel(CancelReason::NoFrames) <==> now >= s.phase->deadline
                && taken == 0)
            &&& (out.step == AutoStep::Average ==> next.phase == AutoCenterPhase::Averaging)
            &&& (out.step == AutoStep::Idle ==> next.phase is Sampling && next.phase->count == taken
                && next.phase->deadline == s.phase->deadline && next.phase->last_seq == (if fresh {
                latest->0
            } else {
                s.phase->last_seq
            }))
            &&& next == (AutoView { phase: next.phase, ..s })
        }),
{
}

/// Whenever sampling starts, it starts with nothing, knows the newest frame and
/// has eight seconds.
pub proof fn sampling_starts_with_nothing(
    s: AutoView,
    now: u64,
    slewing: Option<bool>,
    latest: Option<u64>,
    peak: Option<i64>,
)
    requires
        now <= CLOCK_LIMIT_MS,
    ensures
        ({
            let next = advanced(s, now, slewing, latest).0;
            !(s.phase is Sampling) && next.phase is Sampling ==> next.phase->count == 0
                && next.phase->deadline == now + 8_000 && (latest is Some ==> next.phase->last_seq
                == latest->0)
        }),
        ({
            let next = measured(s, peak, now, latest).0;
            !(s.phase is Sampling) && next.phase is Sampling ==> next.phase->count == 0
                && next.phase->deadline == now + 8_000 && (latest is Some ==> next.phase->last_seq
                == latest->0)
        }),
{
}

/// The strongest point is the one with the largest signal of the pass; of equal
/// ones the first stays.
pub proof fn strongest_point_is_kept(s: AutoView, peak: Option<i64>, now: u64, latest: Option<u64>)
    requires
        sound(s),
        s.phase == AutoCenterPhase::Averaging,
        s.point_index < s.points.len(),
        s.pass == AutoCenterPass::Refine || s.point_index + 1 < s.points.len(),
    ensures
        ({
            let next = measured(s, peak, now, latest).0;
            let here = s.points[s.point_index];
            let beaten = peak is Some && (s.best_signal is None || peak->0 > s.best_signal->0);
            &&& (beaten ==> point(next.best) == here && next.best_signal == peak)
            &&& (!beaten ==> next.best == s.best && next.best_signal == s.best_signal)
        }),
{
    assert(within_square(s.points[s.point_index], s.max_units as int));
}

/// After a point the search sets out for the next one of its pass: it stands there
/// already and samples, or takes one step that brings it one unit closer.
pub proof fn points_are_visited_in_order(
    s: AutoView,
    peak: Option<i64>,
    now: u64,
    latest: Option<u64>,
)
    requires
        sound(s),
        s.phase == AutoCenterPhase::Averaging,
        s.point_index + 1 < s.points.len(),
    ensures
        ({
            let (next, out) = measured(s, peak, now, latest);
            let goal = s.points[s.point_index + 1];
            &&& next.point_index == s.point_index + 1 && next.points == s.points && next.pass
                == s.pass
            &&& if point(s.current) == goal {
                &&& out.step == AutoStep::Idle
                &&& next.phase is Sampling && next.current == s.current
            } else {
                &&& out.step is Nudge
                &&& next.phase is Moving && point(next.phase->target) == goal
                    && !next.phase->arrived
                &&& crate::mount::grid_distance(point(next.current), goal)
                    == crate::mount::grid_distance(point(s.current), goal) - 1
            }
        }),
{
    assert(within_square(s.points[s.point_index + 1], s.max_units as int));
    crate::mount::steps_reach_target(point(s.current), s.points[s.point_index + 1]);
}

/// A step that is finished is followed by the next one towards the same target,
/// one unit closer, and the target is reached exactly when none is left. Only
/// then are samples taken.
pub proof fn steps_lead_to_the_target(
    s: AutoView,
    now: u64,
    slewing: Option<bool>,
    latest: Option<u64>,
)
    requires
        sound(s),
        s.phase is Moving,
        now < s.overall_deadline,
    ensures
        ({
            let (next, step) = nudged(s);
            let goal = point(s.phase->target);
            &&& next.phase is Moving && next.phase->target == s.phase->target
            &&& (step is None <==> point(s.current) == goal)
            &&& (step is None ==> next.phase->arrived && next.current == s.current)
            &&& (step is Some ==> next.phase->arrived == s.phase->arrived
                && crate::mount::grid_distance(point(next.current), goal)
                == crate::mount::grid_distance(point(s.current), goal) - 1)
        }),
        ({
            let (next, out) = advanced(s, now, slewing, latest);
            &&& out == output(AutoStep::Idle, AutoStatus::Unchanged)
            &&& (next.phase is Sampling <==> s.phase->arrived || s.current == s.phase->target)
            &&& (!(next.phase is Sampling) ==> next == s)
        }),
{
    crate::mount::steps_reach_target(point(s.current), point(s.phase->target));
}

/// The end of the coarse pass starts a fine one on all the grid neighbours of its
/// strongest point, which is not forgotten; the fine pass has a maximum of its
/// own.
pub proof fn refinement_surrounds_the_strongest_point(
    s: AutoView,
    peak: Option<i64>,
    now: u64,
    latest: Option<u64>,
)
    requires
        sound(s),
        s.phase == AutoCenterPhase::Averaging,
        s.pass == AutoCenterPass::Coarse,
        s.point_index + 1 == s.points.len(),
    ensures
        ({
            let (next, out) = measured(s, peak, now, latest);
            let beaten = peak is Some && (s.best_signal is None || peak->0 > s.best_signal->0);
            let center = point(next.best);
            &&& center == (if beaten {
                s.points[s.point_index]
            } else {
                point(s.best)
            })
            &&& next.pass == AutoCenterPass::Refine && next.point_index == 0 && next.best_signal is None
            &&& out.status == AutoStatus::Refining
            &&& forall|p: (int, int)|
                #[trigger] next.points.contains(p) <==> within_square(p, s.max_units as int)
                    && within_square((p.0 - center.0, p.1 - center.1), 1)
        }),
{
    let n = noted(s, peak);
    assert(within_square(s.points[s.point_index], s.max_units as int));
    let center = point(n.best);
    refinement_is_local(center, s.max_units as int);
    let grid = refinement(center, s.max_units as int);
    assert forall|p: (int, int)| #[trigger] grid.contains(p) implies within_square(
        p,
        s.max_units as int,
    ) && within_square((p.0 - center.0, p.1 - center.1), 1) by {
        let k = choose|k: int| 0 <= k < grid.len() && grid[k] == p;
        assert(grid[k] == p);
    }
}

/// After the fine pass the mount goes to the strongest point: the search ends
/// where it stands there, and takes a step towards it otherwise.
pub proof fn search_returns_to_the_strongest_point(
    s: AutoView,
    peak: Option<i64>,
    now: u64,
    latest: Option<u64>,
)
    requires
        sound(s),
        s.phase == AutoCenterPhase::Averaging,
        s.pass == AutoCenterPass::Refine,
        s.point_index + 1 >= s.points.len(),
        now < s.overall_deadline,
    ensures
        ({
            let (next, out) = measured(s, peak, now, latest);
            &&& (out.step == AutoStep::Finish <==> s.current == next.best)
            &&& (out.step == AutoStep::Finish ==> next.phase == AutoCenterPhase::Finished
                && next.current == next.best)
            &&& (out.step != AutoStep::Finish ==> out.step is Nudge && next.phase is Moving
                && next.phase->target == next.best && crate::mount::grid_distance(
                point(next.current),
                point(next.best),
            ) == crate::mount::grid_distance(point(s.current), point(next.best)) - 1)
        }),
{
    let n = noted(s, peak);
    crate::mount::steps_reach_target(point(s.current), point(n.best));
}

/// A search whose time is over does not set out for the strongest point any more.
pub proof fn late_searches_do_not_return(
    s: AutoView,
    peak: Option<i64>,
    now: u64,
    slewing: Option<bool>,
    latest: Option<u64>,
)
    requires
        sound(s),
        now >= s.overall_deadline,
    ensures
        s.phase == AutoCenterPhase::Averaging && s.pass == AutoCenterPass::Refine && s.point_index
            + 1 >= s.points.len() ==> measured(s, peak, now, latest).1.step == AutoStep::Cancel(
            CancelReason::TimedOut,
        ) && measured(s, peak, now, latest).0.current == s.current,
        s.phase == AutoCenterPhase::ReturnReady ==> advanced(s, now, slewing, latest).1.step
            == AutoStep::Cancel(CancelReason::TimedOut),
{
}

/// What a search shows is the point that it is at, and how many there are.
pub proof fn counter_tells_the_point(s: AutoCenter)
    requires
        s.sound(),
        s.point_index < s.points@.len(),
    ensures
        s.spec_counter() =~= decimal((s.point_index + 1) as nat) + "/"@ + decimal(s.points@.len()),
{
}

} // verus!
