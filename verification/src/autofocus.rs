//! Bounded telescope autofocus.
//!
//! A sweep steps the focuser through planned positions, collects a burst of limb
//! widths at each, and ends with a verified move to the fitted minimum. Widths
//! are keys: integers in the same order. Averages and the fitted curve come from
//! outside; times are milliseconds.

use crate::anchor::is_first_smallest;
use crate::auto_center::CLOCK_LIMIT_MS;
use crate::order::{in_order, sorting_is_ordered_permutation, stable_sort, stably_sorted, Ranked};
use crate::text::{decimal, decimal_string, joined2, signed_decimal, signed_decimal_string};
use vstd::prelude::*;
use vstd::string::StringExecFns;

verus! {

pub const FRESH_MS: u64 = 3_000;

pub const MOVE_TIMEOUT_MS: u64 = 60_000;

pub const STALL_MS: u64 = 2_000;

pub const BURST_TIMEOUT_MS: u64 = 30_000;

pub const BURST_MIN_MS: u64 = 1_000;

/// What the focuser reports.
#[derive(Clone, Copy, Debug, PartialEq, Eq, Structural)]
pub struct FocuserState {
    pub position: i32,
    pub max_step: i32,
    pub moving: bool,
}

/// Key of a limb width.
#[derive(Clone, Copy, Debug, PartialEq, Eq, Structural)]
pub struct Width {
    pub key: u64,
}

impl Ranked for Width {
    open spec fn before(&self, other: &Self) -> bool {
        self.key < other.key
    }

    fn is_before(&self, other: &Self) -> (r: bool) {
        self.key < other.key
    }

    proof fn order_is_strict(a: &Self, b: &Self, c: &Self) {
    }
}

/// Which of the two limbs can be measured.
#[derive(Clone, Copy, Debug, PartialEq, Eq, Structural)]
pub struct Limbs {
    pub first: bool,
    pub second: bool,
}

/// Limb measurement of a frame.
#[derive(Clone, Copy, Debug, PartialEq, Eq)]
pub struct FrameSample {
    pub seq: u64,
    /// Earliest time at which the frame can have been exposed.
    pub captured: u64,
    /// Widths of the limbs, where they are positive numbers.
    pub first: Option<Width>,
    pub second: Option<Width>,
    /// Mean of the two, where both are there.
    pub both: Width,
    pub width: usize,
    pub height: usize,
    pub exposure: u32,
    pub gain: u16,
    pub clipped: bool,
}

impl FrameSample {
    pub open spec fn spec_mask(&self) -> Limbs {
        Limbs { first: self.first is Some, second: self.second is Some }
    }

    /// The limbs that this frame shows.
    pub fn mask(&self) -> (limbs: Limbs)
        ensures
            limbs == self.spec_mask(),
    {
        Limbs { first: self.first.is_some(), second: self.second.is_some() }
    }

    /// Mean width of the given limbs. A clipped frame has none, nor has one
    /// that does not show them all.
    pub open spec fn spec_score(&self, limbs: Limbs) -> Option<Width> {
        if self.clipped || (limbs.first && self.first is None) || (limbs.second && self.second is None)
            {
            None
        } else if limbs.first && limbs.second {
            Some(self.both)
        } else if limbs.first {
            self.first
        } else if limbs.second {
            self.second
        } else {
            None
        }
    }

    pub fn score(&self, limbs: Limbs) -> (value: Option<Width>)
        ensures
            value == self.spec_score(limbs),
    {
        if self.clipped || (limbs.first && self.first.is_none()) || (limbs.second
            && self.second.is_none()) {
            return None;
        }
        if limbs.first && limbs.second {
            Some(self.both)
        } else if limbs.first {
            self.first
        } else if limbs.second {
            self.second
        } else {
            None
        }
    }

    /// The frame is not older than a few seconds, nor from the future.
    pub open spec fn spec_fresh(&self, now: u64) -> bool {
        self.captured <= now && now - self.captured < FRESH_MS
    }

    pub fn fresh(&self, now: u64) -> (r: bool)
        ensures
            r == self.spec_fresh(now),
    {
        self.captured <= now && now - self.captured < FRESH_MS
    }

    /// The camera is set as it was for another frame.
    pub open spec fn spec_same_setup(&self, other: &FrameSample) -> bool {
        self.width == other.width && self.height == other.height && self.exposure == other.exposure
            && self.gain == other.gain
    }

    fn same_setup(&self, other: &FrameSample) -> (r: bool)
        ensures
            r == self.spec_same_setup(other),
    {
        self.width == other.width && self.height == other.height && self.exposure == other.exposure
            && self.gain == other.gain
    }
}

/// Why a sweep cannot start or go on.
#[derive(Clone, Copy, Debug, PartialEq, Eq, Structural)]
pub enum AutofocusRefusal {
    StillMoving,
    UnsafeLimits,
    BadSettings,
    SweepOutside,
    NoLimb,
    StaleFrames,
    CameraChanged,
    OutsideLimits,
    MoveTimeout,
    StoppedShort,
    MovedWhileSettling,
    MovedWhileMeasuring,
    TooFewFrames,
    Softer,
    NotFitted,
    NoMinimum,
    NearBoundary,
    ApproachOutside,
}

impl AutofocusRefusal {
    pub open spec fn spec_text(&self) -> Seq<char> {
        match self {
            AutofocusRefusal::StillMoving => "Wait for the focuser to stop"@,
            AutofocusRefusal::UnsafeLimits => "Set safe travel limits containing the current position, within the device limits"@,
            AutofocusRefusal::BadSettings => "Use 5–11 odd points, a positive step, 20–200 frames and at least 250 ms settling"@,
            AutofocusRefusal::SweepOutside => "The sweep and approach move must fit inside your safe travel limits"@,
            AutofocusRefusal::NoLimb => "A fresh, unclipped solar limb measurement is required"@,
            AutofocusRefusal::StaleFrames => "Camera frames stopped or became stale; autofocus stopped"@,
            AutofocusRefusal::CameraChanged => "Camera geometry, exposure or gain changed; autofocus stopped"@,
            AutofocusRefusal::OutsideLimits => "Focuser moved outside your safe travel limits"@,
            AutofocusRefusal::MoveTimeout => "Focuser movement timed out"@,
            AutofocusRefusal::StoppedShort => "Focuser stopped short of the requested position"@,
            AutofocusRefusal::MovedWhileSettling => "Unexpected focuser movement during settling"@,
            AutofocusRefusal::MovedWhileMeasuring => "Focuser moved during the measurement burst"@,
            AutofocusRefusal::TooFewFrames => "Not enough valid limb frames in 30 seconds; check the limb, exposure and seeing"@,
            AutofocusRefusal::Softer => "Verification is softer than the sweep minimum; best focus is not confirmed"@,
            AutofocusRefusal::NotFitted => "Focus curve could not be fitted"@,
            AutofocusRefusal::NoMinimum => "No convincing bracketed minimum; adjust the sweep range and try again"@,
            AutofocusRefusal::NearBoundary => "Best focus is too near the sweep boundary; recenter the sweep"@,
            AutofocusRefusal::ApproachOutside => "Final approach would exceed safe travel limits"@,
        }
    }

    pub fn text(&self) -> (text: &'static str)
        ensures
            text@ == self.spec_text(),
    {
        match self {
            AutofocusRefusal::StillMoving => "Wait for the focuser to stop",
            AutofocusRefusal::UnsafeLimits => "Set safe travel limits containing the current position, within the device limits",
            AutofocusRefusal::BadSettings => "Use 5–11 odd points, a positive step, 20–200 frames and at least 250 ms settling",
            AutofocusRefusal::SweepOutside => "The sweep and approach move must fit inside your safe travel limits",
            AutofocusRefusal::NoLimb => "A fresh, unclipped solar limb measurement is required",
            AutofocusRefusal::StaleFrames => "Camera frames stopped or became stale; autofocus stopped",
            AutofocusRefusal::CameraChanged => "Camera geometry, exposure or gain changed; autofocus stopped",
            AutofocusRefusal::OutsideLimits => "Focuser moved outside your safe travel limits",
            AutofocusRefusal::MoveTimeout => "Focuser movement timed out",
            AutofocusRefusal::StoppedShort => "Focuser stopped short of the requested position",
            AutofocusRefusal::MovedWhileSettling => "Unexpected focuser movement during settling",
            AutofocusRefusal::MovedWhileMeasuring => "Focuser moved during the measurement burst",
            AutofocusRefusal::TooFewFrames => "Not enough valid limb frames in 30 seconds; check the limb, exposure and seeing",
            AutofocusRefusal::Softer => "Verification is softer than the sweep minimum; best focus is not confirmed",
            AutofocusRefusal::NotFitted => "Focus curve could not be fitted",
            AutofocusRefusal::NoMinimum => "No convincing bracketed minimum; adjust the sweep range and try again",
            AutofocusRefusal::NearBoundary => "Best focus is too near the sweep boundary; recenter the sweep",
            AutofocusRefusal::ApproachOutside => "Final approach would exceed safe travel limits",
        }
    }
}

/// Settings of a sweep.
#[derive(Clone, Copy, Debug, PartialEq, Eq, Structural)]
pub struct Settings {
    pub minimum: i32,
    pub maximum: i32,
    pub step: i32,
    pub points: usize,
    /// Every measured position is approached from this far below.
    pub approach: i32,
    pub frames: usize,
    pub settle_ms: u64,
}

impl Default for Settings {
    fn default() -> (s: Self)
        ensures
            s == (Settings {
                minimum: 0,
                maximum: 0,
                step: 50,
                points: 7,
                approach: 0,
                frames: 30,
                settle_ms: 1000,
            }),
    {
        Settings {
            minimum: 0,
            maximum: 0,
            step: 50,
            points: 7,
            approach: 0,
            frames: 30,
            settle_ms: 1000,
        }
    }
}

impl Settings {
    /// The travel limits hold the focuser and lie on the device.
    pub open spec fn limits_hold(&self, state: FocuserState) -> bool {
        0 <= self.minimum <= state.position <= self.maximum <= state.max_step && self.minimum
            < self.maximum
    }

    /// The numbers of the sweep are in range.
    pub open spec fn in_range(&self) -> bool {
        &&& self.step >= 1
        &&& 5 <= self.points <= 11
        &&& self.points % 2 == 1
        &&& self.approach >= 0
        &&& 20 <= self.frames <= 200
        &&& 250 <= self.settle_ms <= 10_000
    }

    /// Position of a point of a sweep around `centre`.
    pub open spec fn point(&self, centre: int, index: int) -> int {
        centre + self.step * (index - self.points as int / 2)
    }

    /// The sweep around `centre`, the approach included, stays inside the
    /// limits.
    pub open spec fn fits(&self, centre: int) -> bool {
        self.point(centre, 0) - self.approach >= self.minimum && self.point(
            centre,
            self.points - 1,
        ) <= self.maximum
    }

    pub open spec fn refusal(&self, state: FocuserState) -> Option<AutofocusRefusal> {
        if state.moving {
            Some(AutofocusRefusal::StillMoving)
        } else if !self.limits_hold(state) {
            Some(AutofocusRefusal::UnsafeLimits)
        } else if !self.in_range() {
            Some(AutofocusRefusal::BadSettings)
        } else if !self.fits(state.position as int) {
            Some(AutofocusRefusal::SweepOutside)
        } else {
            None
        }
    }

    /// The positions of a sweep around the present one, evenly spaced. A sweep
    /// that does not fit is refused, never shortened.
    pub fn positions(&self, state: FocuserState) -> (plan: Result<Vec<i32>, AutofocusRefusal>)
        ensures
            match plan {
                Ok(p) => self.refusal(state) is None && p@.len() == self.points && forall|i: int|
                    0 <= i < self.points ==> #[trigger] p@[i] == self.point(
                        state.position as int,
                        i,
                    ),
                Err(e) => self.refusal(state) == Some(e),
            },
    {
        if state.moving {
            return Err(AutofocusRefusal::StillMoving);
        }
        if self.minimum < 0 || self.maximum > state.max_step || self.minimum >= self.maximum
            || state.position < self.minimum || state.position > self.maximum {
            return Err(AutofocusRefusal::UnsafeLimits);
        }
        if self.step < 1 || self.points < 5 || self.points > 11 || self.points % 2 == 0
            || self.approach < 0 || self.frames < 20 || self.frames > 200 || self.settle_ms < 250
            || self.settle_ms > 10_000 {
            return Err(AutofocusRefusal::BadSettings);
        }
        let middle: i64 = (self.points / 2) as i64;
        proof {
            lemma_half(self.step as int, middle as int);
        }
        let half: i64 = self.step as i64 * middle;
        let start: i64 = state.position as i64 - half;
        let end: i64 = state.position as i64 + half;
        proof {
            lemma_point(*self, state.position as int, 0);
            lemma_point(*self, state.position as int, self.points - 1);
        }
        if start - (self.approach as i64) < self.minimum as i64 || end > self.maximum as i64 {
            return Err(AutofocusRefusal::SweepOutside);
        }
        let mut plan: Vec<i32> = Vec::new();
        let mut position: i64 = start;
        let mut i: usize = 0;
        while i < self.points
            invariant
                i <= self.points,
                plan@.len() == i,
                self.in_range(),
                self.fits(state.position as int),
                -0x4_0000_0000 < position < 0x4_0000_0000,
                position == self.point(state.position as int, i as int),
                forall|k: int|
                    0 <= k < i ==> #[trigger] plan@[k] == self.point(state.position as int, k),
            decreases self.points - i,
        {
            proof {
                lemma_between(*self, state.position as int, i as int);
                lemma_next(*self, state.position as int, i as int);
            }
            plan.push(position as i32);
            position = position + self.step as i64;
            i = i + 1;
        }
        Ok(plan)
    }
}

proof fn lemma_half(step: int, middle: int)
    requires
        1 <= step <= 0x7fff_ffff,
        2 <= middle <= 5,
    ensures
        0 <= step * middle <= 0x7fff_ffff * 5,
{
    assert(0 <= step * middle <= 0x7fff_ffff * 5) by (nonlinear_arith)
        requires
            1 <= step <= 0x7fff_ffff,
            2 <= middle <= 5,
    ;
}

/// The end points of a sweep lie half a sweep away.
proof fn lemma_point(s: Settings, centre: int, index: int)
    requires
        s.in_range(),
        index == 0 || index == s.points - 1,
    ensures
        index == 0 ==> s.point(centre, index) == centre - s.step * (s.points as int / 2),
        index == s.points - 1 ==> s.point(centre, index) == centre + s.step * (s.points as int / 2),
{
    let middle = s.points as int / 2;
    assert(s.points - 1 - middle == middle);
    assert(s.step * (0 - middle) == -(s.step * middle)) by (nonlinear_arith);
}

/// Points of a sweep lie between its ends.
proof fn lemma_between(s: Settings, centre: int, index: int)
    requires
        s.in_range(),
        0 <= index < s.points,
    ensures
        s.point(centre, 0) <= s.point(centre, index) <= s.point(centre, s.points - 1),
{
    let middle = s.points as int / 2;
    let last = s.points - 1;
    assert(s.step * (0 - middle) <= s.step * (index - middle)) by (nonlinear_arith)
        requires
            s.step >= 1,
            0 <= index,
    ;
    assert(s.step * (index - middle) <= s.step * (last - middle)) by (nonlinear_arith)
        requires
            s.step >= 1,
            index <= last,
    ;
}

proof fn lemma_next(s: Settings, centre: int, index: int)
    ensures
        s.point(centre, index + 1) == s.point(centre, index) + s.step,
{
    let middle = s.points as int / 2;
    assert(s.step * (index + 1 - middle) == s.step * (index - middle) + s.step) by (nonlinear_arith);
}

/// A measured point of the focus curve.
#[derive(Clone, Copy, Debug, PartialEq, Eq, Structural)]
pub struct CurvePoint {
    pub position: i32,
    pub value: Width,
    /// Frames that the value was taken from.
    pub frames: usize,
}

/// A verified focus.
#[derive(Clone, Copy, Debug, PartialEq, Eq, Structural)]
pub struct Outcome {
    pub position: i32,
    pub width: Width,
}

#[derive(Clone, Copy, Debug, PartialEq, Eq, Structural)]
pub enum Phase {
    Moving { target: i32, next: Option<i32>, since: u64, verify: bool },
    Settling { until: u64, verify: bool },
    Collecting { since: u64, last_seq: u64, verify: bool },
}

/// What changes during a sweep, besides the values.
#[derive(Clone, Copy, Debug, PartialEq, Eq, Structural)]
pub struct Progress {
    pub index: usize,
    pub phase: Phase,
    pub target: Option<i32>,
    pub outcome: Option<Outcome>,
}

/// A sweep in progress.
pub struct Run {
    pub settings: Settings,
    pub positions: Vec<i32>,
    pub reference: FrameSample,
    /// The limbs that every frame has to show.
    pub limbs: Limbs,
    pub at: Progress,
    /// Widths of the burst.
    pub values: Vec<Width>,
    pub samples: Vec<CurvePoint>,
}

#[verifier::ext_equal]
pub struct RunView {
    pub settings: Settings,
    pub positions: Seq<i32>,
    pub reference: FrameSample,
    pub limbs: Limbs,
    pub at: Progress,
    pub values: Seq<Width>,
    pub samples: Seq<CurvePoint>,
}

/// A sweep around `centre` that is about to make its first move: below its first
/// position where there is an approach, which then goes up to it.
pub open spec fn started_run(settings: Settings, centre: int, frame: FrameSample, now: u64) -> RunView {
    let first = settings.point(centre, 0);
    RunView {
        settings,
        positions: Seq::new(
            settings.points as nat,
            |i: int| settings.point(centre, i) as i32,
        ),
        reference: frame,
        limbs: frame.spec_mask(),
        at: Progress {
            index: 0,
            phase: Phase::Moving {
                target: (first - settings.approach) as i32,
                next: if settings.approach > 0 {
                    Some(first as i32)
                } else {
                    None
                },
                since: now,
                verify: false,
            },
            target: None,
            outcome: None,
        },
        values: Seq::empty(),
        samples: Seq::empty(),
    }
}

impl View for Run {
    type V = RunView;

    open spec fn view(&self) -> RunView {
        RunView {
            settings: self.settings,
            positions: self.positions@,
            reference: self.reference,
            limbs: self.limbs,
            at: self.at,
            values: self.values@,
            samples: self.samples@,
        }
    }
}

/// What to do after a look at the focuser and the camera.
#[derive(Clone, Copy, Debug, PartialEq, Eq, Structural)]
pub enum TickAction {
    Wait,
    MoveTo(i32),
    /// The burst is complete: average it and hand the value back.
    Measure,
    /// The focus is verified.
    Done,
}

pub open spec fn elapsed(since: u64, now: u64) -> int {
    if now >= since {
        now - since
    } else {
        0
    }
}

fn elapsed_ms(since: u64, now: u64) -> (ms: u64)
    ensures
        ms == elapsed(since, now),
{
    if now >= since {
        now - since
    } else {
        0
    }
}

impl RunView {
    /// Where the focuser has to stand during a measurement.
    pub open spec fn expected(self, verify: bool) -> i32 {
        if verify {
            self.at.target->0
        } else {
            self.positions[self.at.index as int]
        }
    }

    pub open spec fn with(self, phase: Phase) -> RunView {
        RunView { at: Progress { phase, ..self.at }, ..self }
    }

    pub open spec fn verifying(self) -> bool {
        match self.at.phase {
            Phase::Moving { verify, .. } => verify,
            Phase::Settling { verify, .. } => verify,
            Phase::Collecting { verify, .. } => verify,
        }
    }

    pub open spec fn inside(self, position: int) -> bool {
        self.settings.minimum <= position <= self.settings.maximum
    }

    /// What every step of a sweep keeps.
    pub open spec fn sound(self) -> bool {
        let s = self.settings;
        &&& s.in_range() && s.minimum < s.maximum
        &&& self.positions.len() == s.points
        &&& forall|i: int| 0 <= i < s.points ==> self.inside(#[trigger] self.positions[i] as int)
        &&& forall|i: int, j: int|
            0 <= i < j < s.points ==> #[trigger] self.positions[i] < #[trigger] self.positions[j]
        &&& self.at.index <= s.points
        &&& !self.verifying() ==> self.at.index < s.points
        &&& self.verifying() ==> self.at.target is Some
        &&& self.at.target matches Some(t) ==> self.inside(t as int)
        &&& self.at.phase matches Phase::Moving { target, next, .. } ==> self.inside(target as int)
            && (next matches Some(n) ==> self.inside(n as int) && target < n)
    }

    /// What stops a sweep whatever it is doing.
    pub open spec fn stopped_by(self, now: u64, state: FocuserState, frame: Option<FrameSample>) -> Option<
        AutofocusRefusal,
    > {
        match frame {
            None => Some(AutofocusRefusal::StaleFrames),
            Some(f) => if !f.spec_fresh(now) {
                Some(AutofocusRefusal::StaleFrames)
            } else if !f.spec_same_setup(&self.reference) {
                Some(AutofocusRefusal::CameraChanged)
            } else if !self.inside(state.position as int) {
                Some(AutofocusRefusal::OutsideLimits)
            } else {
                None
            },
        }
    }

    /// The burst with what a frame adds to it: a new frame, exposed after the
    /// burst began, unclipped and with the limbs of the first one.
    pub open spec fn burst_with(self, frame: FrameSample, since: u64, last_seq: u64) -> Seq<Width> {
        if frame.seq != last_seq && frame.captured > since {
            match frame.spec_score(self.limbs) {
                Some(v) => self.values.push(v),
                None => self.values,
            }
        } else {
            self.values
        }
    }

    /// A look at the focuser and the newest frame.
    pub open spec fn ticked(self, now: u64, state: FocuserState, frame: Option<FrameSample>) -> (
        RunView,
        Result<TickAction, AutofocusRefusal>,
    ) {
        if let Some(e) = self.stopped_by(now, state, frame) {
            (self, Err(e))
        } else {
            let f = frame->0;
            match self.at.phase {
                Phase::Moving { target, next, since, verify } => if elapsed(since, now)
                    > MOVE_TIMEOUT_MS {
                    (self, Err(AutofocusRefusal::MoveTimeout))
                } else if !state.moving && state.position == target {
                    match next {
                        Some(dest) => (
                            self.with(
                                Phase::Moving { target: dest, next: None, since: now, verify },
                            ),
                            Ok(TickAction::MoveTo(dest)),
                        ),
                        None => (
                            self.with(
                                Phase::Settling {
                                    until: (now + self.settings.settle_ms) as u64,
                                    verify,
                                },
                            ),
                            Ok(TickAction::Wait),
                        ),
                    }
                } else if !state.moving && elapsed(since, now) > STALL_MS {
                    (self, Err(AutofocusRefusal::StoppedShort))
                } else {
                    (self, Ok(TickAction::Wait))
                },
                Phase::Settling { until, verify } => if state.moving || state.position
                    != self.expected(verify) {
                    (self, Err(AutofocusRefusal::MovedWhileSettling))
                } else if now >= until {
                    (
                        RunView {
                            values: Seq::empty(),
                            ..self.with(
                                Phase::Collecting { since: now, last_seq: f.seq, verify },
                            )
                        },
                        Ok(TickAction::Wait),
                    )
                } else {
                    (self, Ok(TickAction::Wait))
                },
                Phase::Collecting { since, last_seq, verify } => if state.moving || state.position
                    != self.expected(verify) {
                    (self, Err(AutofocusRefusal::MovedWhileMeasuring))
                } else if elapsed(since, now) > BURST_TIMEOUT_MS {
                    (self, Err(AutofocusRefusal::TooFewFrames))
                } else {
                    let values = self.burst_with(f, since, last_seq);
                    let seen = if f.captured > since {
                        f.seq
                    } else {
                        last_seq
                    };
                    (
                        RunView {
                            values,
                            ..self.with(Phase::Collecting { since, last_seq: seen, verify })
                        },
                        Ok(
                            if values.len() >= self.settings.frames && elapsed(since, now)
                                >= BURST_MIN_MS {
                                TickAction::Measure
                            } else {
                                TickAction::Wait
                            },
                        ),
                    )
                },
            }
        }
    }

    /// The sweep with the average of its burst. `softer` says that the value is
    /// worse than the best of the sweep by more than the margin allowed, `fit`
    /// what the curve through all points looks like.
    pub open spec fn measured(self, now: u64, value: Width, softer: bool, fit: Option<FitFacts>) -> (
        RunView,
        Result<TickAction, AutofocusRefusal>,
    ) {
        let here = self.expected(self.verifying());
        if self.verifying() {
            if softer {
                (self, Err(AutofocusRefusal::Softer))
            } else {
                (
                    RunView {
                        at: Progress {
                            outcome: Some(Outcome { position: here, width: value }),
                            ..self.at
                        },
                        ..self
                    },
                    Ok(TickAction::Done),
                )
            }
        } else {
            let point = CurvePoint { position: here, value, frames: self.values.len() as usize };
            let next = RunView {
                samples: self.samples.push(point),
                at: Progress { index: (self.at.index + 1) as usize, ..self.at },
                ..self
            };
            if next.at.index == self.positions.len() {
                match fit_verdict(next.samples, fit) {
                    Err(e) => (next, Err(e)),
                    Ok(best) => next.approaching(best, now),
                }
            } else {
                let target = self.positions[next.at.index as int];
                if !self.inside(target as int) {
                    (next, Err(AutofocusRefusal::ApproachOutside))
                } else {
                    (
                        next.with(
                            Phase::Moving { target, next: None, since: now, verify: false },
                        ),
                        Ok(TickAction::MoveTo(target)),
                    )
                }
            }
        }
    }

    /// The move to the fitted focus, from below.
    pub open spec fn approaching(self, best: i32, now: u64) -> (
        RunView,
        Result<TickAction, AutofocusRefusal>,
    ) {
        let aimed = RunView { at: Progress { target: Some(best), ..self.at }, ..self };
        let below = best - self.settings.approach;
        if !self.inside(below) {
            (aimed, Err(AutofocusRefusal::ApproachOutside))
        } else {
            (
                aimed.with(
                    Phase::Moving {
                        target: below as i32,
                        next: if self.settings.approach > 0 {
                            Some(best)
                        } else {
                            None
                        },
                        since: now,
                        verify: true,
                    },
                ),
                Ok(TickAction::MoveTo(below as i32)),
            )
        }
    }
}

/// What the curve through the measured points looks like.
#[derive(Clone, Copy, Debug, PartialEq, Eq, Structural)]
pub struct FitFacts {
    pub trustworthy: bool,
    /// The vertex is known to better than a step.
    pub sharp: bool,
    /// The fitted width at the vertex is not positive.
    pub nonpositive: bool,
    /// The minimum is hardly deeper than the noise.
    pub shallow: bool,
    /// The vertex is less than half a step from an end of the sweep.
    pub near_boundary: bool,
    /// The vertex to the nearest step.
    pub vertex: i32,
}

/// Keys of the values.
pub open spec fn keys_of(samples: Seq<CurvePoint>) -> Seq<u64> {
    samples.map_values(|p: CurvePoint| p.value.key)
}

/// The focus that a curve speaks for: its smallest value lies between its ends,
/// and the fit is convincing.
pub open spec fn fit_verdict(samples: Seq<CurvePoint>, fit: Option<FitFacts>) -> Result<
    i32,
    AutofocusRefusal,
> {
    match fit {
        None => Err(AutofocusRefusal::NotFitted),
        Some(f) => if !f.trustworthy || !f.sharp || f.nonpositive || f.shallow || is_first_smallest(
            keys_of(samples),
            0,
        ) || is_first_smallest(keys_of(samples), samples.len() - 1) {
            Err(AutofocusRefusal::NoMinimum)
        } else if f.near_boundary || f.vertex < samples[0].position || f.vertex
            > samples.last().position {
            Err(AutofocusRefusal::NearBoundary)
        } else {
            Ok(f.vertex)
        },
    }
}

/// Place of the smallest value; of several, the first.
pub fn best_point(samples: &Vec<CurvePoint>) -> (best: usize)
    requires
        samples@.len() > 0,
    ensures
        is_first_smallest(keys_of(samples@), best as int),
{
    let mut best: usize = 0;
    let mut i: usize = 1;
    while i < samples.len()
        invariant
            best < i <= samples@.len(),
            forall|k: int|
                0 <= k < i ==> samples@[best as int].value.key <= #[trigger] samples@[k].value.key,
            forall|k: int|
                0 <= k < best ==> samples@[best as int].value.key
                    < #[trigger] samples@[k].value.key,
        decreases samples@.len() - i,
    {
        if samples[i].value.key < samples[best].value.key {
            best = i;
        }
        i = i + 1;
    }
    best
}

/// The focus that the measured points speak for.
pub fn fitted_target(samples: &Vec<CurvePoint>, fit: Option<FitFacts>) -> (target: Result<
    i32,
    AutofocusRefusal,
>)
    requires
        samples@.len() > 0,
    ensures
        target == fit_verdict(samples@, fit),
{
    let f = match fit {
        None => {
            return Err(AutofocusRefusal::NotFitted);
        },
        Some(f) => f,
    };
    let best: usize = best_point(samples);
    let count: usize = samples.len();
    proof {
        crate::anchor::line_choice_is_unique(Seq::empty(), keys_of(samples@), best as int, 0);
        crate::anchor::line_choice_is_unique(
            Seq::empty(),
            keys_of(samples@),
            best as int,
            count - 1,
        );
    }
    if !f.trustworthy || !f.sharp || f.nonpositive || f.shallow || best == 0 || best == count - 1 {
        return Err(AutofocusRefusal::NoMinimum);
    }
    if f.near_boundary || f.vertex < samples[0].position || f.vertex > samples[count - 1].position {
        return Err(AutofocusRefusal::NearBoundary);
    }
    Ok(f.vertex)
}

/// Number of values of a burst that are averaged: the best quarter, at least
/// one.
pub open spec fn quartile(n: nat) -> nat {
    if n == 0 {
        0
    } else {
        (n + 3) / 4
    }
}

/// The best quarter of a burst, sharpest first.
pub fn best_quartile(values: &Vec<Width>) -> (best: Vec<Width>)
    ensures
        best@ == stably_sorted(values@).take(quartile(values@.len()) as int),
        best@.len() == quartile(values@.len()),
{
    let mut all: Vec<Width> = Vec::new();
    let mut i: usize = 0;
    while i < values.len()
        invariant
            i <= values@.len(),
            all@ == values@.take(i as int),
        decreases values@.len() - i,
    {
        all.push(values[i]);
        assert(all@ =~= values@.take(i + 1));
        i = i + 1;
    }
    assert(values@.take(values@.len() as int) =~= values@);
    proof {
        sorting_is_ordered_permutation(values@);
    }
    let sorted = stable_sort(all);
    let n: usize = ((values.len() as u128 + 3) / 4) as usize;
    let mut best: Vec<Width> = Vec::new();
    let mut k: usize = 0;
    while k < n
        invariant
            k <= n <= sorted@.len(),
            best@ == sorted@.take(k as int),
        decreases n - k,
    {
        best.push(sorted[k]);
        assert(best@ =~= sorted@.take(k + 1));
        k = k + 1;
    }
    best
}

/// No width that is left out of the best quarter is sharper than one in it.
pub proof fn quartile_is_sharpest(values: Seq<Width>, i: int, j: int)
    requires
        0 <= i < quartile(values.len()) <= j < values.len(),
    ensures
        stably_sorted(values)[i].key <= stably_sorted(values)[j].key,
        stably_sorted(values).to_multiset() == values.to_multiset(),
{
    sorting_is_ordered_permutation(values);
    let s = stably_sorted(values);
    assert(in_order(s));
    assert(!s[j].before(&s[i]));
}

impl Run {
    /// Starts a sweep around the present position, on a fresh frame that shows
    /// a limb. Gives the first move.
    pub fn start(settings: Settings, state: FocuserState, frame: FrameSample, now: u64) -> (r: Result<
        (Run, i32),
        AutofocusRefusal,
    >)
        ensures
            match r {
                Err(e) => if settings.refusal(state) is Some {
                    settings.refusal(state) == Some(e)
                } else {
                    e == AutofocusRefusal::NoLimb && (!frame.spec_fresh(now) || frame.spec_score(
                        frame.spec_mask(),
                    ) is None)
                },
                Ok((run, target)) => {
                    &&& settings.refusal(state) is None
                    &&& frame.spec_fresh(now) && frame.spec_score(frame.spec_mask()) is Some
                    &&& target == settings.point(state.position as int, 0) - settings.approach
                    &&& run@ == started_run(settings, state.position as int, frame, now)
                    &&& run@.positions.len() == settings.points
                    &&& forall|i: int|
                        0 <= i < settings.points ==> #[trigger] run@.positions[i]
                            == settings.point(state.position as int, i)
                    &&& run@.sound()
                    &&& run@.inside(target as int)
                },
            },
    {
        let positions: Vec<i32> = match settings.positions(state) {
            Err(e) => {
                return Err(e);
            },
            Ok(p) => p,
        };
        let limbs: Limbs = frame.mask();
        if !frame.fresh(now) || frame.score(limbs).is_none() {
            return Err(AutofocusRefusal::NoLimb);
        }
        proof {
            lemma_plan(settings, state.position as int, positions@);
        }
        let first: i32 = positions[0];
        let target: i32 = first - settings.approach;
        let next: Option<i32> = if settings.approach > 0 {
            Some(first)
        } else {
            None
        };
        assert(positions@ =~= Seq::new(
            settings.points as nat,
            |i: int| settings.point(state.position as int, i) as i32,
        ));
        let run = Run {
            settings,
            positions,
            reference: frame,
            limbs,
            at: Progress {
                index: 0,
                phase: Phase::Moving { target, next, since: now, verify: false },
                target: None,
                outcome: None,
            },
            values: Vec::new(),
            samples: Vec::new(),
        };
        Ok((run, target))
    }

    /// Looks at the focuser and the newest frame.
    pub fn tick(&mut self, now: u64, state: FocuserState, frame: Option<FrameSample>) -> (r: Result<
        TickAction,
        AutofocusRefusal,
    >)
        requires
            old(self)@.sound(),
            now <= CLOCK_LIMIT_MS,
        ensures
            (final(self)@, r) == old(self)@.ticked(now, state, frame),
            final(self)@.sound(),
    {
        let f: FrameSample = match frame {
            None => {
                return Err(AutofocusRefusal::StaleFrames);
            },
            Some(f) => f,
        };
        if !f.fresh(now) {
            return Err(AutofocusRefusal::StaleFrames);
        }
        if !f.same_setup(&self.reference) {
            return Err(AutofocusRefusal::CameraChanged);
        }
        if state.position < self.settings.minimum || state.position > self.settings.maximum {
            return Err(AutofocusRefusal::OutsideLimits);
        }
        match self.at.phase {
            Phase::Moving { target, next, since, verify } => {
                if elapsed_ms(since, now) > MOVE_TIMEOUT_MS {
                    return Err(AutofocusRefusal::MoveTimeout);
                }
                if !state.moving && state.position == target {
                    match next {
                        Some(dest) => {
                            self.at.phase = Phase::Moving {
                                target: dest,
                                next: None,
                                since: now,
                                verify,
                            };
                            Ok(TickAction::MoveTo(dest))
                        },
                        None => {
                            self.at.phase = Phase::Settling {
                                until: now + self.settings.settle_ms,
                                verify,
                            };
                            Ok(TickAction::Wait)
                        },
                    }
                } else if !state.moving && elapsed_ms(since, now) > STALL_MS {
                    Err(AutofocusRefusal::StoppedShort)
                } else {
                    Ok(TickAction::Wait)
                }
            },
            Phase::Settling { until, verify } => {
                let here: i32 = self.expected_position(verify);
                if state.moving || state.position != here {
                    return Err(AutofocusRefusal::MovedWhileSettling);
                }
                if now >= until {
                    self.values = Vec::new();
                    self.at.phase = Phase::Collecting { since: now, last_seq: f.seq, verify };
                    assert(self@ =~= old(self)@.ticked(now, state, frame).0);
                }
                Ok(TickAction::Wait)
            },
            Phase::Collecting { since, last_seq, verify } => {
                let here: i32 = self.expected_position(verify);
                if state.moving || state.position != here {
                    return Err(AutofocusRefusal::MovedWhileMeasuring);
                }
                if elapsed_ms(since, now) > BURST_TIMEOUT_MS {
                    return Err(AutofocusRefusal::TooFewFrames);
                }
                if f.seq != last_seq && f.captured > since {
                    self.at.phase = Phase::Collecting { since, last_seq: f.seq, verify };
                    if let Some(value) = f.score(self.limbs) {
                        self.values.push(value);
                    }
                }
                assert(self@ =~= old(self)@.ticked(now, state, frame).0);
                if self.values.len() >= self.settings.frames && elapsed_ms(since, now)
                    >= BURST_MIN_MS {
                    Ok(TickAction::Measure)
                } else {
                    Ok(TickAction::Wait)
                }
            },
        }
    }

    fn expected_position(&self, verify: bool) -> (position: i32)
        requires
            self@.sound(),
            verify == self@.verifying(),
        ensures
            position == self@.expected(verify),
    {
        if verify {
            match self.at.target {
                Some(t) => t,
                None => 0,
            }
        } else {
            self.positions[self.at.index]
        }
    }

    /// Hands the average of the burst back; see `RunView::measured`.
    pub fn measure(&mut self, now: u64, value: Width, softer: bool, fit: Option<FitFacts>) -> (r:
        Result<TickAction, AutofocusRefusal>)
        requires
            old(self)@.sound(),
            old(self)@.at.phase is Collecting,
            forall|i: int|
                0 <= i < old(self)@.samples.len() ==> old(self)@.inside(
                    #[trigger] old(self)@.samples[i].position as int,
                ),
        ensures
            (final(self)@, r) == old(self)@.measured(now, value, softer, fit),
            r is Ok ==> final(self)@.sound(),
            r is Err ==> final(self).at.outcome == old(self).at.outcome,
            forall|i: int|
                0 <= i < final(self)@.samples.len() ==> final(self)@.inside(
                    #[trigger] final(self)@.samples[i].position as int,
                ),
    {
        let verify: bool = match self.at.phase {
            Phase::Collecting { verify, .. } => verify,
            _ => false,
        };
        let here: i32 = self.expected_position(verify);
        if verify {
            if softer {
                return Err(AutofocusRefusal::Softer);
            }
            self.at.outcome = Some(Outcome { position: here, width: value });
            return Ok(TickAction::Done);
        }
        let frames: usize = self.values.len();
        self.samples.push(CurvePoint { position: here, value, frames });
        self.at.index = self.at.index + 1;
        let minimum: i64 = self.settings.minimum as i64;
        let maximum: i64 = self.settings.maximum as i64;
        if self.at.index == self.positions.len() {
            let best: i32 = match fitted_target(&self.samples, fit) {
                Err(e) => {
                    return Err(e);
                },
                Ok(b) => b,
            };
            self.at.target = Some(best);
            let below: i64 = best as i64 - self.settings.approach as i64;
            if below < minimum || below > maximum {
                return Err(AutofocusRefusal::ApproachOutside);
            }
            let next: Option<i32> = if self.settings.approach > 0 {
                Some(best)
            } else {
                None
            };
            self.at.phase = Phase::Moving { target: below as i32, next, since: now, verify: true };
            Ok(TickAction::MoveTo(below as i32))
        } else {
            let target: i32 = self.positions[self.at.index];
            self.at.phase = Phase::Moving { target, next: None, since: now, verify: false };
            Ok(TickAction::MoveTo(target))
        }
    }

    /// What the sweep is doing, in words.
    pub open spec fn spec_describe(&self) -> Seq<char> {
        match self.at.phase {
            Phase::Moving { target, .. } => "Moving to "@ + signed_decimal(target as int),
            Phase::Settling { .. } => "Waiting for the image to settle"@,
            Phase::Collecting { verify, .. } => (if verify {
                "Verifying best focus"@
            } else {
                "Point "@ + decimal((self.at.index + 1) as nat) + "/"@ + decimal(
                    self.positions@.len(),
                )
            }) + ": "@ + decimal(self.values@.len()) + "/"@ + decimal(self.settings.frames as nat)
                + " valid frames"@,
        }
    }

    pub fn progress(&self) -> (text: String)
        requires
            self@.sound(),
        ensures
            text@ == self.spec_describe(),
    {
        match self.at.phase {
            Phase::Moving { target, .. } => joined2(
                "Moving to ",
                signed_decimal_string(target as i64).as_str(),
            ),
            Phase::Settling { .. } => "Waiting for the image to settle".to_owned(),
            Phase::Collecting { verify, .. } => {
                let mut t: String = if verify {
                    "Verifying best focus".to_owned()
                } else {
                    let mut p = "Point ".to_owned();
                    p.append(decimal_string((self.at.index + 1) as u64).as_str());
                    p.append("/");
                    p.append(decimal_string(self.positions.len() as u64).as_str());
                    p
                };
                t.append(": ");
                t.append(decimal_string(self.values.len() as u64).as_str());
                t.append("/");
                t.append(decimal_string(self.settings.frames as u64).as_str());
                t.append(" valid frames");
                t
            },
        }
    }
}

/// A planned sweep ascends and lies inside the limits, with room for the
/// approach below its first position.
proof fn lemma_plan(s: Settings, centre: int, plan: Seq<i32>)
    requires
        s.in_range(),
        s.fits(centre),
        plan.len() == s.points,
        forall|i: int| 0 <= i < s.points ==> #[trigger] plan[i] == s.point(centre, i),
    ensures
        forall|i: int| 0 <= i < s.points ==> s.minimum <= #[trigger] plan[i] <= s.maximum,
        forall|i: int, j: int| 0 <= i < j < s.points ==> #[trigger] plan[i] < #[trigger] plan[j],
        s.minimum <= plan[0] - s.approach,
{
    assert forall|i: int| 0 <= i < s.points implies s.minimum <= #[trigger] plan[i] <= s.maximum by {
        lemma_between(s, centre, i);
    }
    assert forall|i: int, j: int| 0 <= i < j < s.points implies #[trigger] plan[i]
        < #[trigger] plan[j] by {
        let middle = s.points as int / 2;
        assert(s.step * (i - middle) < s.step * (j - middle)) by (nonlinear_arith)
            requires
                s.step >= 1,
                i < j,
        ;
    }
}

/// No step of a sweep commands a position outside the travel limits, and every
/// step keeps a sweep sound.
pub proof fn moves_stay_inside(
    r: RunView,
    now: u64,
    state: FocuserState,
    frame: Option<FrameSample>,
    value: Width,
    softer: bool,
    fit: Option<FitFacts>,
)
    requires
        r.sound(),
        forall|i: int|
            0 <= i < r.samples.len() ==> r.inside(#[trigger] r.samples[i].position as int),
    ensures
        r.ticked(now, state, frame).0.sound(),
        r.ticked(now, state, frame).1 matches Ok(TickAction::MoveTo(p)) ==> r.inside(p as int),
        r.at.phase is Collecting ==> (r.measured(now, value, softer, fit).1 matches Ok(
            TickAction::MoveTo(p),
        ) ==> r.inside(p as int) && r.measured(now, value, softer, fit).0.sound()),
{
    lemma_measured(r, now, value, softer, fit);
}

proof fn lemma_measured(r: RunView, now: u64, value: Width, softer: bool, fit: Option<FitFacts>)
    requires
        r.sound(),
        forall|i: int|
            0 <= i < r.samples.len() ==> r.inside(#[trigger] r.samples[i].position as int),
    ensures
        r.at.phase is Collecting ==> (r.measured(now, value, softer, fit).1 matches Ok(
            TickAction::MoveTo(p),
        ) ==> r.inside(p as int) && r.measured(now, value, softer, fit).0.sound()),
{
    if r.at.phase is Collecting && !r.verifying() {
        let here = r.expected(false);
        let point = CurvePoint { position: here, value, frames: r.values.len() as usize };
        let samples = r.samples.push(point);
        assert(r.inside(here as int));
        assert(samples.last() == point);
        assert(r.inside(samples[0].position as int)) by {
            if r.samples.len() > 0 {
                assert(samples[0] == r.samples[0]);
            }
        }
    }
}

/// With an approach, every measured position is reached from below: the last
/// move to the first position and to the focus goes up by the approach, and the
/// sweep itself ascends.
pub proof fn positions_are_approached_from_below(
    r: RunView,
    now: u64,
    value: Width,
    softer: bool,
    fit: Option<FitFacts>,
    p: i32,
)
    requires
        r.sound(),
        r.settings.approach > 0,
        r.at.phase is Collecting,
        r.measured(now, value, softer, fit).1 == Ok::<TickAction, AutofocusRefusal>(
            TickAction::MoveTo(p),
        ),
    ensures
        ({
            let after = r.measured(now, value, softer, fit).0;
            if after.verifying() {
                after.at.phase == (Phase::Moving {
                    target: p,
                    next: after.at.target,
                    since: now,
                    verify: true,
                }) && p + r.settings.approach == after.at.target->0
            } else {
                p == r.positions[r.at.index + 1] && p > r.positions[r.at.index as int]
            }
        }),
{
}

/// A frame counts in a burst at most once, and never when it was exposed before
/// the burst, is clipped or misses a limb.
pub proof fn bursts_take_only_new_whole_frames(
    r: RunView,
    frame: FrameSample,
    since: u64,
    last_seq: u64,
)
    ensures
        frame.seq == last_seq || frame.captured <= since || frame.clipped || (r.limbs.first
            && frame.first is None) || (r.limbs.second && frame.second is None)
            ==> r.burst_with(frame, since, last_seq) == r.values,
        r.burst_with(frame, since, last_seq).len() <= r.values.len() + 1,
{
}

// ---------------------------------------------------------------------------
// What a sweep promises
// ---------------------------------------------------------------------------

/// Between the arrival at a position and the start of its burst at least the
/// configured time to settle passes, and the burst starts as soon as it has.
pub proof fn image_settles_before_a_burst(
    r: RunView,
    arrived: u64,
    state: FocuserState,
    frame: Option<FrameSample>,
    later: u64,
    state_later: FocuserState,
    frame_later: Option<FrameSample>,
)
    requires
        r.sound(),
        arrived <= CLOCK_LIMIT_MS,
        r.at.phase is Moving,
        r.ticked(arrived, state, frame).0.at.phase is Settling,
    ensures
        ({
            let settling = r.ticked(arrived, state, frame).0;
            let (next, answer) = settling.ticked(later, state_later, frame_later);
            &&& settling.settings == r.settings
            &&& (next.at.phase is Collecting ==> later >= arrived + r.settings.settle_ms)
            &&& (answer is Ok && later >= arrived + r.settings.settle_ms ==> next.at.phase is Collecting
                && next.at.phase->Collecting_since == later && next.values.len() == 0)
            &&& (answer is Ok && later < arrived + r.settings.settle_ms ==> next == settling)
        }),
{
}

/// The focuser counts as arrived only where it stands still at the target, and a
/// sweep settles only at a position that it is to measure.
pub proof fn arrival_is_at_rest_on_the_target(
    r: RunView,
    now: u64,
    state: FocuserState,
    frame: Option<FrameSample>,
)
    requires
        r.sound(),
        r.at.phase is Moving,
    ensures
        ({
            let (next, answer) = r.ticked(now, state, frame);
            let here = !state.moving && state.position == r.at.phase->Moving_target;
            let waited = now - r.at.phase->Moving_since;
            &&& (next.at.phase is Settling ==> here && answer == Ok::<TickAction, AutofocusRefusal>(
                TickAction::Wait,
            ) && r.at.phase->next is None && next.verifying() == r.verifying())
            &&& (answer matches Ok(TickAction::MoveTo(p)) ==> here && r.at.phase->next == Some(p)
                && next.at.phase is Moving && next.at.phase->Moving_target == p
                && next.at.phase->next is None && next.at.phase->Moving_since == now)
            &&& (answer is Ok && !here ==> next == r && answer == Ok::<TickAction, AutofocusRefusal>(
                TickAction::Wait,
            ))
            &&& (answer is Ok && here ==> next != r)
            &&& (answer == Err::<TickAction, AutofocusRefusal>(AutofocusRefusal::MoveTimeout)
                ==> waited > 60_000)
            &&& (answer == Err::<TickAction, AutofocusRefusal>(AutofocusRefusal::StoppedShort)
                ==> !state.moving && !here && waited > 2_000)
            &&& (waited > 60_000 ==> answer is Err)
            &&& (waited > 2_000 && !state.moving && !here ==> answer is Err)
            &&& (answer is Err ==> next == r)
        }),
{
}

/// A burst is taken only while the focuser stands still where it should. It lasts
/// at least a second, holds as many frames as were asked for, and is given up
/// after half a minute.
pub proof fn bursts_are_whole(
    r: RunView,
    now: u64,
    state: FocuserState,
    frame: Option<FrameSample>,
)
    requires
        r.sound(),
        r.at.phase is Collecting,
    ensures
        ({
            let (next, answer) = r.ticked(now, state, frame);
            let place = if r.verifying() {
                r.at.target->0
            } else {
                r.positions[r.at.index as int]
            };
            let lasted = now - r.at.phase->Collecting_since;
            &&& (answer is Ok ==> !state.moving && state.position == place && lasted <= 30_000)
            &&& (answer is Ok ==> (answer == Ok::<TickAction, AutofocusRefusal>(TickAction::Measure)
                <==> next.values.len() >= r.settings.frames && lasted >= 1_000))
            &&& (answer == Err::<TickAction, AutofocusRefusal>(AutofocusRefusal::TooFewFrames)
                ==> lasted > 30_000)
            &&& (answer == Err::<TickAction, AutofocusRefusal>(AutofocusRefusal::MovedWhileMeasuring)
                ==> state.moving || state.position != place)
            &&& (answer is Ok ==> next.at.phase is Collecting && next.at.phase->Collecting_since
                == r.at.phase->Collecting_since && next.at.index == r.at.index && next.verifying()
                == r.verifying())
        }),
{
}

/// A frame of a burst adds its width exactly when it is new, was exposed after the
/// burst began, is not clipped and shows every limb of the first frame: the mean
/// of both limbs, or the one limb that is followed.
pub proof fn bursts_take_every_whole_frame(
    r: RunView,
    now: u64,
    state: FocuserState,
    f: FrameSample,
)
    requires
        r.sound(),
        r.at.phase is Collecting,
        r.ticked(now, state, Some(f)).1 is Ok,
        r.limbs.first || r.limbs.second,
    ensures
        ({
            let next = r.ticked(now, state, Some(f)).0;
            let whole = !f.clipped && (r.limbs.first ==> f.first is Some) && (r.limbs.second
                ==> f.second is Some);
            let fresh = f.seq != r.at.phase->last_seq && f.captured > r.at.phase->Collecting_since;
            &&& (fresh && whole ==> next.values == r.values.push(
                if r.limbs.first && r.limbs.second {
                    f.both
                } else if r.limbs.first {
                    f.first->0
                } else {
                    f.second->0
                },
            ))
            &&& (!(fresh && whole) ==> next.values == r.values)
            &&& (f.captured > r.at.phase->Collecting_since ==> next.at.phase->last_seq == f.seq)
        }),
{
}

/// Whatever a sweep is doing, it stops without a frame of the last three seconds,
/// when the camera is set otherwise than at its start, and outside the limits.
pub proof fn sweeps_stop_when_unsafe(
    r: RunView,
    now: u64,
    state: FocuserState,
    frame: Option<FrameSample>,
)
    requires
        r.sound(),
    ensures
        ({
            let (next, answer) = r.ticked(now, state, frame);
            let stale = frame is None || frame->0.captured > now || now - frame->0.captured
                >= 3_000;
            let changed = frame is Some && !(frame->0.width == r.reference.width && frame->0.height
                == r.reference.height && frame->0.exposure == r.reference.exposure && frame->0.gain
                == r.reference.gain);
            let outside = state.position < r.settings.minimum || state.position
                > r.settings.maximum;
            &&& (stale || changed || outside ==> answer is Err && next == r)
            &&& (answer == Err::<TickAction, AutofocusRefusal>(AutofocusRefusal::StaleFrames)
                <==> stale)
            &&& (answer == Err::<TickAction, AutofocusRefusal>(AutofocusRefusal::CameraChanged)
                <==> !stale && changed)
            &&& (answer == Err::<TickAction, AutofocusRefusal>(AutofocusRefusal::OutsideLimits)
                <==> !stale && !changed && outside)
        }),
{
}

/// A focuser that moves while the image settles ends the sweep.
pub proof fn settling_needs_rest(
    r: RunView,
    now: u64,
    state: FocuserState,
    frame: Option<FrameSample>,
)
    requires
        r.sound(),
        r.at.phase is Settling,
        r.ticked(now, state, frame).1 is Ok,
    ensures
        !state.moving,
        state.position == (if r.verifying() {
            r.at.target->0
        } else {
            r.positions[r.at.index as int]
        }),
        r.ticked(now, state, frame).1 == Ok::<TickAction, AutofocusRefusal>(TickAction::Wait),
{
}

/// The positions of a sweep are evenly spaced, with the present one in the middle,
/// and the first move goes below the first of them by the approach.
pub proof fn sweep_is_centred_on_the_present_focus(
    s: Settings,
    state: FocuserState,
    frame: FrameSample,
    now: u64,
    k: int,
)
    requires
        s.refusal(state) is None,
        0 <= k < s.points,
    ensures
        ({
            let r = started_run(s, state.position as int, frame, now);
            let middle = (s.points / 2) as int;
            &&& r.positions.len() == s.points
            &&& r.positions[middle] == state.position
            &&& r.positions[k] - state.position == s.step * (k - middle)
            &&& (k + 1 < s.points ==> r.positions[k + 1] == r.positions[k] + s.step)
            &&& s.minimum <= r.positions[k] <= s.maximum
            &&& r.at.phase is Moving && r.at.phase->Moving_target == r.positions[0] - s.approach
            &&& r.at.phase->Moving_target >= s.minimum
            &&& (s.approach > 0 ==> r.at.phase->next == Some(r.positions[0]))
            &&& (s.approach == 0 ==> r.at.phase->next is None)
            &&& r.at.index == 0 && !r.verifying() && r.at.outcome is None
            &&& r.limbs == (Limbs { first: frame.first is Some, second: frame.second is Some })
            &&& r.reference == frame && r.settings == s
        }),
{
    let centre = state.position as int;
    let middle = (s.points / 2) as int;
    lemma_between(s, centre, k);
    lemma_point(s, centre, 0);
    lemma_point(s, centre, s.points - 1);
    lemma_half(s.step as int, middle);
    assert forall|i: int| 0 <= i < s.points implies s.minimum <= #[trigger] s.point(centre, i)
        <= s.maximum by {
        lemma_between(s, centre, i);
    }
    let r = started_run(s, centre, frame, now);
    assert(r.positions[k] == s.point(centre, k));
    assert(r.positions[0] == s.point(centre, 0));
    assert(s.step * (middle - middle) == 0) by (nonlinear_arith);
    assert(r.positions[middle] == s.point(centre, middle));
    if k + 1 < s.points {
        lemma_next(s, centre, k);
        assert(r.positions[k + 1] == s.point(centre, k + 1));
    }
}

/// A sweep is refused exactly when the focuser moves, when the limits do not hold
/// it or exceed the device, when a number is out of range, or when a position or
/// the approach would leave the limits.
pub proof fn sweeps_are_refused_or_safe(s: Settings, state: FocuserState)
    ensures
        s.refusal(state) is None <==> {
            &&& !state.moving
            &&& 0 <= s.minimum <= state.position <= s.maximum <= state.max_step
            &&& s.minimum < s.maximum
            &&& s.step >= 1 && s.approach >= 0
            &&& 5 <= s.points <= 11 && s.points % 2 == 1
            &&& 20 <= s.frames <= 200
            &&& 250 <= s.settle_ms <= 10_000
            &&& state.position - s.step * (s.points / 2) - s.approach >= s.minimum
            &&& state.position + s.step * (s.points / 2) <= s.maximum
        },
{
    if s.in_range() {
        lemma_point(s, state.position as int, 0);
        lemma_point(s, state.position as int, s.points - 1);
    }
}

/// A measured position is noted once, with the frames that it rests on, and the
/// sweep goes up to the next one. After the last it goes to the fitted focus.
pub proof fn positions_are_measured_in_order(
    r: RunView,
    now: u64,
    value: Width,
    softer: bool,
    fit: Option<FitFacts>,
)
    requires
        r.sound(),
        r.at.phase is Collecting,
        !r.verifying(),
    ensures
        ({
            let (next, answer) = r.measured(now, value, softer, fit);
            let at = r.at.index as int;
            &&& next.samples.len() == r.samples.len() + 1
            &&& next.samples.last().position == r.positions[at]
            &&& next.samples.last().value == value
            &&& next.samples.last().frames == r.values.len() as usize
            &&& next.samples.drop_last() == r.samples
            &&& next.at.index == at + 1
            &&& next.at.outcome == r.at.outcome
            &&& answer != Ok::<TickAction, AutofocusRefusal>(TickAction::Done)
            &&& (at + 1 < r.settings.points ==> answer == Ok::<TickAction, AutofocusRefusal>(
                TickAction::MoveTo(r.positions[at + 1]),
            ) && next.at.phase is Moving && next.at.phase->Moving_target == r.positions[at + 1]
                && !next.verifying())
            &&& (at + 1 == r.settings.points ==> (answer matches Ok(TickAction::MoveTo(p))
                ==> next.verifying() && next.at.target == Some(fit->0.vertex) && p
                == fit->0.vertex - r.settings.approach))
            &&& (answer is Ok ==> answer matches Ok(TickAction::MoveTo(_)))
        }),
{
    assert(r.inside(r.positions[r.at.index as int] as int));
    if r.at.index + 1 < r.settings.points {
        assert(r.inside(r.positions[r.at.index + 1] as int));
    }
    assert(r.samples.push(r.measured(now, value, softer, fit).0.samples.last()).drop_last()
        =~= r.samples);
}

/// A focus is confirmed only by a burst of its own at the fitted position that is
/// no softer than the sweep.
pub proof fn focus_is_confirmed_by_its_own_burst(
    r: RunView,
    now: u64,
    value: Width,
    softer: bool,
    fit: Option<FitFacts>,
)
    requires
        r.sound(),
        r.at.phase is Collecting,
    ensures
        ({
            let (next, answer) = r.measured(now, value, softer, fit);
            &&& (answer == Ok::<TickAction, AutofocusRefusal>(TickAction::Done) <==> r.verifying()
                && !softer)
            &&& (answer == Ok::<TickAction, AutofocusRefusal>(TickAction::Done)
                ==> next.at.outcome is Some && next.at.outcome->0.position == r.at.target->0
                && next.at.outcome->0.width == value)
            &&& (r.verifying() && softer ==> answer == Err::<TickAction, AutofocusRefusal>(
                AutofocusRefusal::Softer,
            ) && next == r)
        }),
{
}

/// A fitted focus lies between the ends of the sweep, below a smallest value that
/// is at neither end, and comes only from a fit that is trusted, sharp, positive
/// and deep.
pub proof fn fitted_focus_is_bracketed(samples: Seq<CurvePoint>, fit: Option<FitFacts>)
    requires
        samples.len() > 0,
    ensures
        fit_verdict(samples, fit) matches Ok(p) ==> {
            let f = fit->0;
            &&& fit is Some && p == f.vertex
            &&& f.trustworthy && f.sharp && !f.nonpositive && !f.shallow && !f.near_boundary
            &&& samples[0].position <= p <= samples.last().position
            &&& (exists|k: int|
                0 < k < samples.len() && (#[trigger] samples[k]).value.key < samples[0].value.key)
            &&& (exists|k: int|
                0 <= k < samples.len() - 1 && (#[trigger] samples[k]).value.key
                    <= samples.last().value.key)
        },
        fit is None ==> fit_verdict(samples, fit) == Err::<i32, AutofocusRefusal>(
            AutofocusRefusal::NotFitted,
        ),
        fit_verdict(samples, fit) == Err::<i32, AutofocusRefusal>(AutofocusRefusal::NearBoundary)
            ==> fit->0.near_boundary || fit->0.vertex < samples[0].position || fit->0.vertex
            > samples.last().position,
{
    let keys = keys_of(samples);
    if fit_verdict(samples, fit) is Ok {
        let n = samples.len() - 1;
        assert(!is_first_smallest(keys, 0));
        assert(!is_first_smallest(keys, n));
        if forall|k: int|
            0 < k < samples.len() ==> (#[trigger] samples[k]).value.key >= samples[0].value.key {
            assert forall|k: int| 0 <= k < keys.len() implies keys[0] <= #[trigger] keys[k] by {
                assert(keys[k] == samples[k].value.key);
            }
            assert(is_first_smallest(keys, 0));
        }
        if forall|k: int|
            0 <= k < samples.len() - 1 ==> (#[trigger] samples[k]).value.key
                > samples.last().value.key {
            assert forall|k: int| 0 <= k < keys.len() implies keys[n] <= #[trigger] keys[k] by {
                assert(keys[k] == samples[k].value.key);
            }
            assert forall|k: int| 0 <= k < n implies #[trigger] keys[k] > keys[n] by {
                assert(keys[k] == samples[k].value.key);
            }
            assert(is_first_smallest(keys, n));
        }
    }
}

/// A quarter of a burst is averaged, a started quarter as a whole one.
pub proof fn quartile_is_a_quarter(n: nat)
    ensures
        n <= 4 * quartile(n) < n + 4,
        n > 0 ==> 0 < quartile(n) <= n,
{
}

} // verus!
