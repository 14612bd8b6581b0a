//! Decisions of the camera worker: what the sensor reads, and what is recorded.
//!
//! Changing the region that the sensor reads means stopping the stream, setting
//! the region and starting again, and each of these can fail. The worker answers
//! commands, frames and the results of such changes with what to do next.

use crate::text::{decimal, decimal_string, joined2, joined3, opt_text};
use vstd::prelude::*;
use vstd::string::StringExecFns;

verus! {

/// A region of the sensor.
#[derive(Clone, Copy, Debug, PartialEq, Eq, Structural)]
pub struct Roi {
    pub x: usize,
    pub y: usize,
    pub w: usize,
    pub h: usize,
}

/// The whole sensor.
pub fn full_roi(width: usize, height: usize) -> (roi: Roi)
    ensures
        roi == (Roi { x: 0, y: 0, w: width, h: height }),
{
    Roi { x: 0, y: 0, w: width, h: height }
}

/// The same region.
pub fn roi_eq(a: Roi, b: Roi) -> (r: bool)
    ensures
        r == (a == b),
{
    a.x == b.x && a.y == b.y && a.w == b.w && a.h == b.h
}

/// The regions to apply, in order, to get from one region to another. There is
/// nothing to do where the sensor reads the region already; from one band to
/// another the way leads through the full frame.
pub open spec fn transition(current: Roi, target: Roi, full: Roi) -> Seq<Roi> {
    if current == target {
        seq![]
    } else if current == full || target == full {
        seq![target]
    } else {
        seq![full, target]
    }
}

pub fn roi_transition(current: Roi, target: Roi, full: Roi) -> (steps: Vec<Roi>)
    ensures
        steps@ == transition(current, target, full),
{
    let mut steps: Vec<Roi> = Vec::new();
    if roi_eq(current, target) {
        return steps;
    }
    if !roi_eq(current, full) && !roi_eq(target, full) {
        steps.push(full);
    }
    steps.push(target);
    assert(steps@ =~= transition(current, target, full));
    steps
}

/// The steps end at the target, none is taken without need, and a band is only
/// ever applied on the full frame.
pub proof fn transition_normalises(current: Roi, target: Roi, full: Roi)
    ensures
        ({
            let steps = transition(current, target, full);
            &&& steps.len() == 0 <==> current == target
            &&& steps.len() > 0 ==> steps.last() == target
            &&& forall|i: int|
                0 <= i < steps.len() ==> (#[trigger] steps[i] == full || (if i == 0 {
                    current
                } else {
                    steps[i - 1]
                }) == full)
        }),
{
}

/// Rows of a capture band around a line: as many as asked for, at most the
/// frame, moved as far as needed to stay on it.
pub open spec fn crop_bounds(frame_height: int, requested: int, anchor: Option<usize>) -> (int, int) {
    let limit = if frame_height < 1 {
        1
    } else {
        frame_height
    };
    let height = if requested < 1 {
        1
    } else if requested > limit {
        limit
    } else {
        requested
    };
    let centre = match anchor {
        Some(a) => if a >= limit {
            limit - 1
        } else {
            a as int
        },
        None => frame_height / 2,
    };
    let top = if centre < height / 2 {
        0
    } else {
        centre - height / 2
    };
    (
        if top + height > limit {
            limit - height
        } else {
            top
        },
        height,
    )
}

/// The first row and the number of rows of a capture band. The anchor is the
/// row of the line; without one the band is centred.
pub fn vertical_crop_bounds(frame_height: usize, requested: usize, anchor: Option<usize>) -> (r: (
    usize,
    usize,
))
    ensures
        (r.0 as int, r.1 as int) == crop_bounds(frame_height as int, requested as int, anchor),
        r.1 >= 1,
        frame_height >= 1 ==> r.0 + r.1 <= frame_height,
        frame_height == 0 ==> r == (0usize, 1usize),
{
    let limit: usize = if frame_height < 1 {
        1
    } else {
        frame_height
    };
    let height: usize = if requested < 1 {
        1
    } else if requested > limit {
        limit
    } else {
        requested
    };
    let centre: usize = match anchor {
        Some(a) => if a >= limit {
            limit - 1
        } else {
            a
        },
        None => frame_height / 2,
    };
    let top: usize = if centre < height / 2 {
        0
    } else {
        centre - height / 2
    };
    let y0: usize = if top > limit - height {
        limit - height
    } else {
        top
    };
    (y0, height)
}

/// A band holds its line, wherever on the sensor the line is.
pub proof fn band_holds_its_line(frame_height: int, requested: int, anchor: usize)
    requires
        1 <= requested,
        anchor < frame_height,
    ensures
        ({
            let (y0, height) = crop_bounds(frame_height, requested, Some(anchor));
            0 <= y0 <= anchor < y0 + height <= frame_height
        }),
{
}

/// The region of a capture band: full width, on even rows.
pub open spec fn band_of(full: Roi, requested: usize, anchor: Option<usize>) -> Roi {
    let (y0, height) = crop_bounds(full.h as int, requested as int, anchor);
    Roi {
        x: 0,
        y: (y0 - y0 % 2) as usize,
        w: full.w,
        h: (if height < 2 {
            2
        } else {
            height - height % 2
        }) as usize,
    }
}

fn band(full: Roi, requested: usize, anchor: Option<usize>) -> (roi: Roi)
    ensures
        roi == band_of(full, requested, anchor),
{
    let (y0, height) = vertical_crop_bounds(full.h, requested, anchor);
    Roi {
        x: 0,
        y: y0 - y0 % 2,
        w: full.w,
        h: if height < 2 {
            2
        } else {
            height - height % 2
        },
    }
}

/// The band of at least two rows lies on the sensor.
pub proof fn band_is_on_sensor(full: Roi, requested: usize, anchor: Option<usize>)
    requires
        full.h >= 2,
        requested >= 2,
    ensures
        ({
            let b = band_of(full, requested, anchor);
            b.y + b.h <= full.h && b.h >= 2 && b.y % 2 == 0 && b.h % 2 == 0 && b.h <= requested
        }),
{
}

/// A recording that was asked for.
#[derive(Clone, Copy, Debug, PartialEq, Eq, Structural)]
pub struct SerPlan {
    pub capture_height: usize,
    /// Row of the line on the sensor.
    pub anchor: Option<usize>,
    /// Let the sensor read only the band.
    pub hw_roi: bool,
}

/// A recording that waits for its first frame.
#[derive(Clone, Copy, Debug, PartialEq, Eq, Structural)]
pub struct PendingSer {
    pub plan: SerPlan,
    /// The sensor reads only the band.
    pub hw_active: bool,
}

/// A running recording.
#[derive(Clone, Copy, Debug, PartialEq, Eq, Structural)]
pub struct ActiveSer {
    pub y0: usize,
    pub height: usize,
    pub hw_active: bool,
}

/// Why the region is being changed.
#[derive(Clone, Copy, Debug, PartialEq, Eq, Structural)]
pub enum Why {
    ApplyLive { band: Roi },
    RecoverLive,
    ReleaseLive,
    /// The last recording is over; another one follows.
    CloseForStart { plan: SerPlan },
    ApplyBand { plan: SerPlan },
    RecoverBand { plan: SerPlan },
    CloseForStop,
    ClosePending,
    CloseFailed,
}

/// A change of the region under way.
#[derive(Clone, Copy, Debug, PartialEq, Eq, Structural)]
pub struct Travel {
    /// The region that is being applied.
    pub step: Roi,
    pub then_step: Option<Roi>,
    pub why: Why,
}

#[derive(Clone, Copy, Debug, PartialEq, Eq, Structural)]
pub struct CamState {
    pub full: Roi,
    /// What the sensor reads.
    pub current: Roi,
    /// The band that the user works in between recordings.
    pub live: Option<Roi>,
    pub pending: Option<PendingSer>,
    pub active: Option<ActiveSer>,
    pub travel: Option<Travel>,
    /// Seconds without a frame.
    pub stalled: u32,
}

#[derive(Clone, Copy, Debug, PartialEq, Eq, Structural)]
pub enum CamCommand {
    LiveRoi { capture_height: usize, anchor: Option<usize>, enable: bool },
    StartSer(SerPlan),
    StopSer,
}

/// What to do next with the camera.
#[derive(Clone, Copy, Debug, PartialEq, Eq, Structural)]
pub enum CamNext {
    Proceed,
    /// Stop, set the region, start; then report the result.
    Apply(Roi),
    /// Go back to the preview; a failure ends the worker.
    ResumePreview,
    /// The worker cannot go on.
    Exit,
}

/// What to tell the panel.
#[derive(Clone, Copy, Debug, PartialEq, Eq, Structural)]
pub enum CamReport {
    Silence,
    LiveRoi { active: bool, y0: usize, h: usize },
    RoiWhileRecording,
    /// The camera refused the band and reads the full frame again.
    RefusedRoi,
    NotRecovered,
    FullNotRestored,
    NotRestored,
    SavedNotRestored,
    /// A recording ended before its first frame.
    StoppedEmpty,
}

#[derive(Clone, Copy, Debug, PartialEq, Eq, Structural)]
pub struct CamOutput {
    /// Close the running recording first. Its summary is sent at once, or
    /// before the report of a preview that goes on.
    pub finish: bool,
    pub report: CamReport,
    pub next: CamNext,
}

pub open spec fn output(report: CamReport, next: CamNext) -> CamOutput {
    CamOutput { finish: false, report, next }
}

/// What the sensor should read when nothing is recorded.
pub open spec fn resting(s: CamState) -> Roi {
    match s.live {
        Some(band) => band,
        None => s.full,
    }
}

/// Sets off for a region; where nothing has to change, it is reached at once.
pub open spec fn set_off(s: CamState, target: Roi, why: Why) -> (CamState, Option<Roi>) {
    let steps = transition(s.current, target, s.full);
    if steps.len() == 0 {
        (CamState { travel: None, ..s }, None)
    } else {
        (
            CamState {
                travel: Some(
                    Travel {
                        step: steps[0],
                        then_step: if steps.len() == 2 {
                            Some(steps[1])
                        } else {
                            None
                        },
                        why,
                    },
                ),
                ..s
            },
            Some(steps[0]),
        )
    }
}

/// Sets off for the band of a recording, or has the frames cut of what the
/// sensor reads between recordings.
pub open spec fn start_band(s: CamState, plan: SerPlan) -> (CamState, CamOutput) {
    let (t, step) = if plan.hw_roi {
        set_off(
            s,
            band_of(s.full, plan.capture_height, plan.anchor),
            Why::ApplyBand { plan },
        )
    } else {
        set_off(s, resting(s), Why::CloseForStart { plan })
    };
    match step {
        Some(roi) => (t, output(CamReport::Silence, CamNext::Apply(roi))),
        None => awaiting(t, plan, plan.hw_roi),
    }
}

pub open spec fn awaiting(s: CamState, plan: SerPlan, hw_active: bool) -> (CamState, CamOutput) {
    (
        CamState { pending: Some(PendingSer { plan, hw_active }), ..s },
        output(CamReport::Silence, CamNext::Proceed),
    )
}

/// The region is reached.
pub open spec fn arrived(s: CamState, why: Why) -> (CamState, CamOutput) {
    let full_again = CamReport::LiveRoi { active: false, y0: 0, h: s.full.h };
    match why {
        Why::ApplyLive { band } => (
            CamState { live: Some(band), ..s },
            output(
                CamReport::LiveRoi { active: true, y0: band.y, h: band.h },
                CamNext::Proceed,
            ),
        ),
        Why::RecoverLive => (
            CamState { live: None, ..s },
            output(CamReport::RefusedRoi, CamNext::Proceed),
        ),
        Why::ReleaseLive => (CamState { live: None, ..s }, output(full_again, CamNext::Proceed)),
        Why::CloseForStart { plan } => start_band(s, plan),
        Why::ApplyBand { plan } => awaiting(s, plan, true),
        Why::RecoverBand { plan } => awaiting(s, plan, false),
        Why::CloseForStop => (s, output(CamReport::Silence, CamNext::ResumePreview)),
        Why::ClosePending => (s, output(CamReport::StoppedEmpty, CamNext::Proceed)),
        Why::CloseFailed => (s, output(CamReport::Silence, CamNext::Proceed)),
    }
}

/// Goes to a region and answers.
pub open spec fn going(s: CamState, target: Roi, why: Why) -> (CamState, CamOutput) {
    let (t, step) = set_off(s, target, why);
    match step {
        Some(roi) => (t, output(CamReport::Silence, CamNext::Apply(roi))),
        None => arrived(t, why),
    }
}

pub open spec fn with_finish(r: (CamState, CamOutput)) -> (CamState, CamOutput) {
    (r.0, CamOutput { finish: true, ..r.1 })
}

/// The worker's answer to a command.
pub open spec fn commanded(s: CamState, command: CamCommand) -> (CamState, CamOutput) {
    match command {
        CamCommand::LiveRoi { capture_height, anchor, enable } => if s.active is Some || s.pending is Some {
            (s, output(CamReport::RoiWhileRecording, CamNext::Proceed))
        } else if enable {
            let band = band_of(s.full, capture_height, anchor);
            going(s, band, Why::ApplyLive { band })
        } else {
            going(s, s.full, Why::ReleaseLive)
        },
        CamCommand::StartSer(plan) => match s.active {
            Some(active) => {
                let t = CamState { active: None, ..s };
                if active.hw_active {
                    with_finish(going(t, resting(s), Why::CloseForStart { plan }))
                } else {
                    with_finish(start_band(t, plan))
                }
            },
            None => start_band(s, plan),
        },
        CamCommand::StopSer => {
            let t = CamState { active: None, pending: None, ..s };
            match s.active {
                Some(active) => if active.hw_active {
                    with_finish(going(t, resting(s), Why::CloseForStop))
                } else {
                    with_finish((t, output(CamReport::Silence, CamNext::ResumePreview)))
                },
                None => match s.pending {
                    Some(pending) => if pending.hw_active {
                        going(t, resting(s), Why::ClosePending)
                    } else {
                        (t, output(CamReport::StoppedEmpty, CamNext::Proceed))
                    },
                    None => (s, output(CamReport::Silence, CamNext::Proceed)),
                },
            }
        },
    }
}

/// The worker's answer to an applied region.
pub open spec fn step_done(s: CamState) -> (CamState, CamOutput) {
    match s.travel {
        None => (s, output(CamReport::Silence, CamNext::Proceed)),
        Some(t) => {
            let here = CamState { current: t.step, ..s };
            match t.then_step {
                Some(roi) => (
                    CamState { travel: Some(Travel { step: roi, then_step: None, ..t }), ..here },
                    output(CamReport::Silence, CamNext::Apply(roi)),
                ),
                None => arrived(CamState { travel: None, ..here }, t.why),
            }
        },
    }
}

/// The worker's answer to a region that could not be applied. The stream is
/// stopped now: it is brought back, or the worker ends.
pub open spec fn step_failed(s: CamState) -> (CamState, CamOutput) {
    match s.travel {
        None => (s, output(CamReport::Silence, CamNext::Proceed)),
        Some(t) => {
            let ended = CamState { travel: None, ..s };
            match t.why {
                Why::ApplyLive { .. } => (
                    CamState {
                        travel: Some(
                            Travel { step: s.full, then_step: None, why: Why::RecoverLive },
                        ),
                        ..s
                    },
                    output(CamReport::Silence, CamNext::Apply(s.full)),
                ),
                Why::ApplyBand { plan } => {
                    let (u, step) = set_off(s, resting(s), Why::RecoverBand { plan });
                    match step {
                        Some(roi) => (u, output(CamReport::Silence, CamNext::Apply(roi))),
                        None => (
                            CamState {
                                travel: Some(
                                    Travel {
                                        step: resting(s),
                                        then_step: None,
                                        why: Why::RecoverBand { plan },
                                    },
                                ),
                                ..s
                            },
                            output(CamReport::Silence, CamNext::Apply(resting(s))),
                        ),
                    }
                },
                Why::RecoverLive => (ended, output(CamReport::NotRecovered, CamNext::Exit)),
                Why::RecoverBand { .. } => (ended, output(CamReport::NotRecovered, CamNext::Exit)),
                Why::ReleaseLive => (ended, output(CamReport::FullNotRestored, CamNext::Exit)),
                Why::CloseFailed => (ended, output(CamReport::FullNotRestored, CamNext::Exit)),
                Why::CloseForStart { .. } => (ended, output(CamReport::NotRestored, CamNext::Exit)),
                Why::ClosePending => (ended, output(CamReport::NotRestored, CamNext::Exit)),
                Why::CloseForStop => (ended, output(CamReport::SavedNotRestored, CamNext::Exit)),
            }
        },
    }
}

/// What to write of a frame.
#[derive(Clone, Copy, Debug, PartialEq, Eq, Structural)]
pub enum FrameUse {
    /// Nothing is recorded.
    Preview,
    /// Write these values of the frame.
    Write { start: usize, end: usize },
    /// The frame does not fit the recording any more.
    DimensionsChanged,
}

/// What to write of a frame during a recording.
pub open spec fn frame_use(active: Option<ActiveSer>, width: nat, height: nat) -> FrameUse {
    match active {
        None => FrameUse::Preview,
        Some(a) => if width == 0 || a.y0 + a.height > height {
            FrameUse::DimensionsChanged
        } else {
            FrameUse::Write {
                start: (a.y0 * width) as usize,
                end: ((a.y0 + a.height) * width) as usize,
            }
        },
    }
}

impl CamState {
    /// What every step keeps. While something is recorded, the sensor is left
    /// alone.
    pub open spec fn sound(&self) -> bool {
        &&& self.full.x == 0 && self.full.y == 0
        &&& !(self.active is Some && self.travel is Some)
        &&& !(self.active is Some && self.pending is Some)
        &&& self.travel matches Some(t) ==> travel_sound(*self, t)
    }

    /// Between recordings, and while one is cut out of the frames, the sensor
    /// reads what it should.
    pub open spec fn settled(&self) -> bool {
        ||| self.travel is Some
        ||| self.active matches Some(a) && a.hw_active
        ||| self.pending matches Some(p) && p.hw_active
        ||| self.current == resting(*self)
    }

    /// The worker when the camera has just been opened.
    pub fn opened(width: usize, height: usize) -> (s: CamState)
        ensures
            s == (CamState {
                full: Roi { x: 0, y: 0, w: width, h: height },
                current: Roi { x: 0, y: 0, w: width, h: height },
                live: None,
                pending: None,
                active: None,
                travel: None,
                stalled: 0,
            }),
            s.sound() && s.settled(),
    {
        let full = full_roi(width, height);
        CamState {
            full,
            current: full,
            live: None,
            pending: None,
            active: None,
            travel: None,
            stalled: 0,
        }
    }

    fn rest(self) -> (roi: Roi)
        ensures
            roi == resting(self),
    {
        match self.live {
            Some(band) => band,
            None => self.full,
        }
    }

    fn depart(self, target: Roi, why: Why) -> (r: (CamState, Option<Roi>))
        ensures
            r == set_off(self, target, why),
    {
        let steps: Vec<Roi> = roi_transition(self.current, target, self.full);
        if steps.len() == 0 {
            (CamState { travel: None, ..self }, None)
        } else {
            let then_step: Option<Roi> = if steps.len() == 2 {
                Some(steps[1])
            } else {
                None
            };
            (
                CamState { travel: Some(Travel { step: steps[0], then_step, why }), ..self },
                Some(steps[0]),
            )
        }
    }

    fn wait_for_frame(self, plan: SerPlan, hw_active: bool) -> (r: (CamState, CamOutput))
        ensures
            r == awaiting(self, plan, hw_active),
    {
        (
            CamState { pending: Some(PendingSer { plan, hw_active }), ..self },
            answer(CamReport::Silence, CamNext::Proceed),
        )
    }

    fn begin_band(self, plan: SerPlan) -> (r: (CamState, CamOutput))
        ensures
            r == start_band(self, plan),
    {
        let (t, step) = if plan.hw_roi {
            let target: Roi = band(self.full, plan.capture_height, plan.anchor);
            self.depart(target, Why::ApplyBand { plan })
        } else {
            self.depart(self.rest(), Why::CloseForStart { plan })
        };
        match step {
            Some(roi) => (t, answer(CamReport::Silence, CamNext::Apply(roi))),
            None => t.wait_for_frame(plan, plan.hw_roi),
        }
    }

    fn arrive(self, why: Why) -> (r: (CamState, CamOutput))
        ensures
            r == arrived(self, why),
    {
        match why {
            Why::ApplyLive { band } => (
                CamState { live: Some(band), ..self },
                answer(
                    CamReport::LiveRoi { active: true, y0: band.y, h: band.h },
                    CamNext::Proceed,
                ),
            ),
            Why::RecoverLive => (
                CamState { live: None, ..self },
                answer(CamReport::RefusedRoi, CamNext::Proceed),
            ),
            Why::ReleaseLive => (
                CamState { live: None, ..self },
                answer(
                    CamReport::LiveRoi { active: false, y0: 0, h: self.full.h },
                    CamNext::Proceed,
                ),
            ),
            Why::CloseForStart { plan } => self.begin_band(plan),
            Why::ApplyBand { plan } => self.wait_for_frame(plan, true),
            Why::RecoverBand { plan } => self.wait_for_frame(plan, false),
            Why::CloseForStop => (self, answer(CamReport::Silence, CamNext::ResumePreview)),
            Why::ClosePending => (self, answer(CamReport::StoppedEmpty, CamNext::Proceed)),
            Why::CloseFailed => (self, answer(CamReport::Silence, CamNext::Proceed)),
        }
    }

    fn head_for(self, target: Roi, why: Why) -> (r: (CamState, CamOutput))
        ensures
            r == going(self, target, why),
    {
        let (t, step) = self.depart(target, why);
        match step {
            Some(roi) => (t, answer(CamReport::Silence, CamNext::Apply(roi))),
            None => t.arrive(why),
        }
    }

    /// Answers a command.
    pub fn command(self, command: CamCommand) -> (r: (CamState, CamOutput))
        requires
            self.sound(),
            self.travel is None,
        ensures
            r == commanded(self, command),
            r.0.sound(),
    {
        proof {
            command_keeps_sound(self, command);
        }
        match command {
            CamCommand::LiveRoi { capture_height, anchor, enable } => {
                if self.active.is_some() || self.pending.is_some() {
                    (self, answer(CamReport::RoiWhileRecording, CamNext::Proceed))
                } else if enable {
                    let target: Roi = band(self.full, capture_height, anchor);
                    self.head_for(target, Why::ApplyLive { band: target })
                } else {
                    self.head_for(self.full, Why::ReleaseLive)
                }
            },
            CamCommand::StartSer(plan) => match self.active {
                Some(active) => {
                    let t = CamState { active: None, ..self };
                    let (u, o) = if active.hw_active {
                        t.head_for(self.rest(), Why::CloseForStart { plan })
                    } else {
                        t.begin_band(plan)
                    };
                    (u, CamOutput { finish: true, ..o })
                },
                None => self.begin_band(plan),
            },
            CamCommand::StopSer => {
                let t = CamState { active: None, pending: None, ..self };
                match self.active {
                    Some(active) => {
                        let (u, o) = if active.hw_active {
                            t.head_for(self.rest(), Why::CloseForStop)
                        } else {
                            (t, answer(CamReport::Silence, CamNext::ResumePreview))
                        };
                        (u, CamOutput { finish: true, ..o })
                    },
                    None => match self.pending {
                        Some(pending) => if pending.hw_active {
                            t.head_for(self.rest(), Why::ClosePending)
                        } else {
                            (t, answer(CamReport::StoppedEmpty, CamNext::Proceed))
                        },
                        None => (self, answer(CamReport::Silence, CamNext::Proceed)),
                    },
                }
            },
        }
    }

    /// Answers the result of applying a region.
    pub fn applied(self, ok: bool) -> (r: (CamState, CamOutput))
        requires
            self.sound(),
        ensures
            r == (if ok {
                step_done(self)
            } else {
                step_failed(self)
            }),
            r.0.sound(),
    {
        proof {
            steps_keep_sound(self);
        }
        let t: Travel = match self.travel {
            None => {
                return (self, answer(CamReport::Silence, CamNext::Proceed));
            },
            Some(t) => t,
        };
        if ok {
            let here = CamState { current: t.step, ..self };
            match t.then_step {
                Some(roi) => (
                    CamState { travel: Some(Travel { step: roi, then_step: None, ..t }), ..here },
                    answer(CamReport::Silence, CamNext::Apply(roi)),
                ),
                None => (CamState { travel: None, ..here }).arrive(t.why),
            }
        } else {
            let ended = CamState { travel: None, ..self };
            match t.why {
                Why::ApplyLive { .. } => (
                    CamState {
                        travel: Some(
                            Travel { step: self.full, then_step: None, why: Why::RecoverLive },
                        ),
                        ..self
                    },
                    answer(CamReport::Silence, CamNext::Apply(self.full)),
                ),
                Why::ApplyBand { plan } => {
                    let rest: Roi = self.rest();
                    let (u, step) = self.depart(rest, Why::RecoverBand { plan });
                    match step {
                        Some(roi) => (u, answer(CamReport::Silence, CamNext::Apply(roi))),
                        None => (
                            CamState {
                                travel: Some(
                                    Travel {
                                        step: rest,
                                        then_step: None,
                                        why: Why::RecoverBand { plan },
                                    },
                                ),
                                ..self
                            },
                            answer(CamReport::Silence, CamNext::Apply(rest)),
                        ),
                    }
                },
                Why::RecoverLive => (ended, answer(CamReport::NotRecovered, CamNext::Exit)),
                Why::RecoverBand { .. } => (ended, answer(CamReport::NotRecovered, CamNext::Exit)),
                Why::ReleaseLive => (ended, answer(CamReport::FullNotRestored, CamNext::Exit)),
                Why::CloseFailed => (ended, answer(CamReport::FullNotRestored, CamNext::Exit)),
                Why::CloseForStart { .. } => (
                    ended,
                    answer(CamReport::NotRestored, CamNext::Exit),
                ),
                Why::ClosePending => (ended, answer(CamReport::NotRestored, CamNext::Exit)),
                Why::CloseForStop => (ended, answer(CamReport::SavedNotRestored, CamNext::Exit)),
            }
        }
    }

    /// A frame came in: the stream is alive. Tells the rows of a recording that
    /// waited for it.
    pub fn frame_arrived(self, frame_height: usize) -> (r: (CamState, Option<ActiveSer>))
        requires
            self.sound(),
        ensures
            r.0 == (CamState { stalled: 0, ..self }),
            r.0.sound(),
            r.1 == (match self.pending {
                None => None,
                Some(p) => if p.hw_active {
                    Some(ActiveSer { y0: 0, height: frame_height, hw_active: true })
                } else {
                    let (y0, height) = crop_bounds(
                        frame_height as int,
                        p.plan.capture_height as int,
                        p.plan.anchor,
                    );
                    Some(
                        ActiveSer { y0: y0 as usize, height: height as usize, hw_active: false },
                    )
                },
            }),
    {
        let next = CamState { stalled: 0, ..self };
        match self.pending {
            None => (next, None),
            Some(p) => if p.hw_active {
                (next, Some(ActiveSer { y0: 0, height: frame_height, hw_active: true }))
            } else {
                let (y0, height) = vertical_crop_bounds(
                    frame_height,
                    p.plan.capture_height,
                    p.plan.anchor,
                );
                (next, Some(ActiveSer { y0, height, hw_active: false }))
            },
        }
    }

    /// The file of the recording that waited could be created, or not. Without
    /// it the sensor goes back to what it should read.
    pub fn recorder_created(self, recording: ActiveSer, ok: bool) -> (r: (CamState, CamOutput))
        requires
            self.sound(),
            self.travel is None,
        ensures
            r == recorder_answered(self, recording, ok),
            r.0.sound(),
    {
        proof {
            creation_keeps_sound(self, recording, ok);
        }
        let t = CamState { pending: None, ..self };
        if ok {
            (
                CamState { active: Some(recording), ..t },
                answer(CamReport::Silence, CamNext::Proceed),
            )
        } else if recording.hw_active {
            (CamState { active: None, ..t }).head_for(self.rest(), Why::CloseFailed)
        } else {
            (t, answer(CamReport::Silence, CamNext::Proceed))
        }
    }

    /// What to write of a frame; `pixels` is the number of its values.
    pub fn use_frame(&self, width: usize, height: usize, pixels: usize) -> (r: FrameUse)
        requires
            pixels == width * height,
        ensures
            r == frame_use(self.active, width as nat, height as nat),
            r matches FrameUse::Write { start, end } ==> start <= end <= pixels,
    {
        match self.active {
            None => FrameUse::Preview,
            Some(a) => {
                if width == 0 || a.y0 > height || a.height > height - a.y0 {
                    return FrameUse::DimensionsChanged;
                }
                proof {
                    lemma_rows(a.y0 as int, (a.y0 + a.height) as int, height as int, width as int);
                }
                let start: usize = a.y0 * width;
                let end: usize = (a.y0 + a.height) * width;
                FrameUse::Write { start, end }
            },
        }
    }

    /// A recording failed: the sensor goes back to what it should read.
    pub fn recording_failed(self) -> (r: (CamState, CamOutput))
        requires
            self.sound(),
            self.travel is None,
        ensures
            r == recording_lost(self),
            r.0.sound(),
    {
        proof {
            lost_keeps_sound(self);
        }
        let t = CamState { active: None, ..self };
        match self.active {
            Some(active) => if active.hw_active {
                t.head_for(self.rest(), Why::CloseFailed)
            } else {
                (t, answer(CamReport::Silence, CamNext::Proceed))
            },
            None => (t, answer(CamReport::Silence, CamNext::Proceed)),
        }
    }

    /// No frame came for another second. Tells whether to say so.
    pub fn frame_missed(self) -> (r: (CamState, bool))
        requires
            self.sound(),
            self.stalled < u32::MAX,
        ensures
            r.0 == (CamState { stalled: (self.stalled + 1) as u32, ..self }),
            r.0.sound(),
            r.1 == worth_a_note((self.stalled + 1) as int),
    {
        let stalled: u32 = self.stalled + 1;
        (CamState { stalled, ..self }, stalled == 2 || stalled == 5 || stalled % 15 == 0)
    }

    /// The frames are a band of the sensor.
    pub fn shows_band(&self) -> (r: bool)
        ensures
            r == (self.live is Some || (self.active matches Some(a) && a.hw_active)),
    {
        if self.live.is_some() {
            return true;
        }
        match self.active {
            Some(a) => a.hw_active,
            None => false,
        }
    }
}

fn answer(report: CamReport, next: CamNext) -> (o: CamOutput)
    ensures
        o == output(report, next),
{
    CamOutput { finish: false, report, next }
}

proof fn lemma_rows(a: int, b: int, height: int, width: int)
    requires
        0 <= a <= b <= height,
        0 <= width,
    ensures
        0 <= a * width <= b * width <= width * height,
{
    assert(0 <= a * width <= b * width <= width * height) by (nonlinear_arith)
        requires
            0 <= a <= b <= height,
            0 <= width,
    ;
}

/// The stall is reported after two and five seconds and every quarter of a
/// minute.
pub open spec fn worth_a_note(seconds: int) -> bool {
    seconds == 2 || seconds == 5 || seconds % 15 == 0
}

/// The worker's answer to the file of a recording.
pub open spec fn recorder_answered(s: CamState, recording: ActiveSer, ok: bool) -> (
    CamState,
    CamOutput,
) {
    let t = CamState { pending: None, ..s };
    let quiet = output(CamReport::Silence, CamNext::Proceed);
    if ok {
        (CamState { active: Some(recording), ..t }, quiet)
    } else if recording.hw_active {
        going(CamState { active: None, ..t }, resting(s), Why::CloseFailed)
    } else {
        (t, quiet)
    }
}

/// The worker's answer to a recording that failed.
pub open spec fn recording_lost(s: CamState) -> (CamState, CamOutput) {
    let t = CamState { active: None, ..s };
    match s.active {
        Some(active) => if active.hw_active {
            going(t, resting(s), Why::CloseFailed)
        } else {
            (t, output(CamReport::Silence, CamNext::Proceed))
        },
        None => (t, output(CamReport::Silence, CamNext::Proceed)),
    }
}

/// A change of region leads to where it should, and never from one band right
/// to another.
pub open spec fn travel_sound(s: CamState, t: Travel) -> bool {
    let goal = match t.then_step {
        Some(roi) => roi,
        None => t.step,
    };
    &&& t.step == s.full || s.current == s.full || t.step == s.current
    &&& t.then_step is Some ==> t.step == s.full
    &&& match t.why {
        Why::ApplyLive { band } => goal == band,
        Why::RecoverLive => goal == s.full,
        Why::ReleaseLive => goal == s.full,
        Why::ApplyBand { plan } => goal == band_of(s.full, plan.capture_height, plan.anchor),
        _ => goal == resting(s),
    }
}

/// Every answer to a command keeps the worker sound.
pub proof fn command_keeps_sound(s: CamState, command: CamCommand)
    requires
        s.sound(),
        s.travel is None,
    ensures
        commanded(s, command).0.sound(),
{
}

/// Every answer to an applied or refused region keeps the worker sound.
pub proof fn steps_keep_sound(s: CamState)
    requires
        s.sound(),
    ensures
        step_done(s).0.sound(),
        step_failed(s).0.sound(),
{
}

proof fn creation_keeps_sound(s: CamState, recording: ActiveSer, ok: bool)
    requires
        s.sound(),
        s.travel is None,
    ensures
        recorder_answered(s, recording, ok).0.sound(),
{
}

proof fn lost_keeps_sound(s: CamState)
    requires
        s.sound(),
        s.travel is None,
    ensures
        recording_lost(s).0.sound(),
{
}

/// The region is never touched while something is recorded: a sound worker
/// applies nothing before the recording is closed.
pub proof fn recording_keeps_its_region(s: CamState, command: CamCommand)
    requires
        s.sound(),
        s.travel is None,
        s.active is Some,
    ensures
        commanded(s, command).1.next matches CamNext::Apply(_) ==> commanded(s, command).1.finish
            && commanded(s, command).0.active is None,
        command matches CamCommand::LiveRoi { .. } ==> commanded(s, command).0 == s,
{
}

/// A change that ends a recording ends with the sensor reading what it should
/// between recordings: the user's band, or everything.
pub proof fn recordings_unwind_to_rest(s: CamState, t: Travel)
    requires
        s.sound(),
        s.travel == Some(t),
        t.then_step is None,
        t.why is CloseForStop || t.why is ClosePending || t.why is CloseFailed,
    ensures
        step_done(s).0.current == resting(step_done(s).0),
        step_done(s).0.travel is None,
        step_done(s).0.live == s.live,
{
}

/// Whatever happens, the sensor reads the user's band, or everything, unless a
/// recording has a band of its own or the region is being changed. A recording
/// ends where it started; only a camera that does not recover is left as it is.
pub proof fn sensor_reads_what_it_should(
    s: CamState,
    command: CamCommand,
    recording: ActiveSer,
    created: bool,
)
    requires
        s.sound() && s.settled(),
        s.pending matches Some(p) ==> p.hw_active == recording.hw_active,
    ensures
        s.travel is None ==> commanded(s, command).0.settled(),
        s.travel is None ==> recording_lost(s).0.settled(),
        s.travel is None && s.pending is Some ==> recorder_answered(
            s,
            recording,
            created,
        ).0.settled(),
        step_done(s).0.settled(),
        step_failed(s).1.next != CamNext::Exit ==> step_failed(s).0.settled(),
{
}

/// A band that the sensor already reads starts a recording without any change
/// of the stream.
pub proof fn same_band_is_not_applied_again(s: CamState, plan: SerPlan)
    requires
        s.sound(),
        s.active is None,
        s.travel is None,
        plan.hw_roi,
        s.current == band_of(s.full, plan.capture_height, plan.anchor),
    ensures
        commanded(s, CamCommand::StartSer(plan)) == awaiting(s, plan, true),
{
    assert(CamState { travel: None, ..s } == s);
}

/// After a refused region the worker brings the stream back or ends: it never
/// just goes on.
pub proof fn refusals_are_recovered(s: CamState)
    requires
        s.sound(),
        s.travel is Some,
    ensures
        step_failed(s).1.next is Apply || step_failed(s).1.next == CamNext::Exit,
{
}

// ---------------------------------------------------------------------------
// Words
// ---------------------------------------------------------------------------

/// The text of an error report; `roi_error` is what the camera said to the
/// band, `error` what it said last.
pub open spec fn report_text(report: CamReport, roi_error: Seq<char>, error: Seq<char>) -> Option<
    Seq<char>,
> {
    match report {
        CamReport::RoiWhileRecording => Some("the sensor ROI cannot change while recording"@),
        CamReport::RefusedRoi => Some("the camera refused the hardware ROI: "@ + roi_error),
        CamReport::NotRecovered => Some(
            "hardware ROI failed ("@ + roi_error + ") and the camera did not recover: "@ + error,
        ),
        CamReport::FullNotRestored => Some("the full sensor could not be restored: "@ + error),
        CamReport::NotRestored => Some("the sensor could not be restored: "@ + error),
        CamReport::SavedNotRestored => Some(
            "SER saved, but the sensor could not be restored: "@ + error,
        ),
        _ => None,
    }
}

pub fn camera_error(report: CamReport, roi_error: &str, error: &str) -> (text: Option<String>)
    ensures
        opt_text(text) == report_text(report, roi_error@, error@),
{
    match report {
        CamReport::RoiWhileRecording => Some(
            "the sensor ROI cannot change while recording".to_owned(),
        ),
        CamReport::RefusedRoi => Some(joined2("the camera refused the hardware ROI: ", roi_error)),
        CamReport::NotRecovered => {
            let mut t = joined3(
                "hardware ROI failed (",
                roi_error,
                ") and the camera did not recover: ",
            );
            t.append(error);
            Some(t)
        },
        CamReport::FullNotRestored => Some(
            joined2("the full sensor could not be restored: ", error),
        ),
        CamReport::NotRestored => Some(joined2("the sensor could not be restored: ", error)),
        CamReport::SavedNotRestored => Some(
            joined2("SER saved, but the sensor could not be restored: ", error),
        ),
        CamReport::Silence => None,
        CamReport::LiveRoi { .. } => None,
        CamReport::StoppedEmpty => None,
    }
}

/// What is said when the preview does not come back after a recording.
pub fn preview_error(error: &str) -> (text: String)
    ensures
        text@ == "SER saved, but live preview could not resume: "@ + error@,
{
    joined2("SER saved, but live preview could not resume: ", error)
}

/// What is said of a stream that has stalled.
pub fn stall_note(seconds: u32) -> (text: String)
    ensures
        text@ == "no frames for "@ + decimal(seconds as nat)
            + "s — the camera stream has stalled"@,
{
    joined3(
        "no frames for ",
        decimal_string(seconds as u64).as_str(),
        "s — the camera stream has stalled",
    )
}

/// Progress is told with the first frame and every tenth.
pub fn tells_progress(frames: usize) -> (r: bool)
    ensures
        r == (frames == 1 || frames % 10 == 0),
{
    frames == 1 || frames % 10 == 0
}

// ---------------------------------------------------------------------------
// What the camera worker promises
// ---------------------------------------------------------------------------

/// A band has as many rows as were asked for, and its line in the middle; close to an
/// edge of the frame it is moved just as far as needed to stay on it. Without a line
/// the middle of the frame takes its place.
pub proof fn band_is_centred_on_its_line(frame_height: int, requested: int, anchor: Option<usize>)
    requires
        1 <= requested <= frame_height,
        anchor matches Some(a) ==> a < frame_height,
    ensures
        ({
            let (y0, height) = crop_bounds(frame_height, requested, anchor);
            let line = match anchor {
                Some(a) => a as int,
                None => frame_height / 2,
            };
            &&& height == requested
            &&& 0 <= y0 && y0 + height <= frame_height
            &&& (y0 == line - height / 2 || (y0 == 0 && line < height / 2) || (y0 + height
                == frame_height && y0 < line - height / 2))
        }),
{
}

/// A band of more rows than the frame has is the whole frame.
pub proof fn band_is_at_most_the_frame(frame_height: int, requested: int, anchor: Option<usize>)
    requires
        1 <= frame_height <= requested,
    ensures
        crop_bounds(frame_height, requested, anchor) == (0int, frame_height),
{
}

/// The region of a band has the full width, starts on an even row and holds its line
/// where the line is not at the very edge of the sensor.
pub proof fn region_holds_its_line(full: Roi, requested: usize, anchor: usize)
    requires
        4 <= requested <= full.h,
        anchor + requested / 2 < full.h,
    ensures
        ({
            let b = band_of(full, requested, Some(anchor));
            &&& b.x == 0 && b.w == full.w
            &&& b.y <= anchor < b.y + b.h
            &&& b.y % 2 == 0 && b.h % 2 == 0
            &&& requested - 1 <= b.h <= requested
            &&& (anchor >= requested / 2 ==> anchor - requested / 2 - 1 <= b.y <= anchor - requested
                / 2)
        }),
{
}

/// A recording on a band of its own starts when the sensor reads that band, one cut
/// out of the frames when it reads what it should between recordings. Neither starts
/// on anything else.
pub proof fn recordings_start_on_their_region(s: CamState)
    requires
        s.sound(),
        s.pending is None,
        s.travel is Some,
    ensures
        step_done(s).0.pending matches Some(p) ==> {
            let next = step_done(s).0;
            &&& next.travel is None
            &&& (p.hw_active ==> next.current == band_of(
                s.full,
                p.plan.capture_height,
                p.plan.anchor,
            ))
            &&& (!p.hw_active ==> next.current == (match s.live {
                Some(band) => band,
                None => s.full,
            }))
        },
{
}

/// The request to record leads to a recording of this very plan: at once, or at the
/// end of the change of region that it starts. A recording that runs is closed first.
pub proof fn recordings_follow_their_plan(s: CamState, plan: SerPlan)
    requires
        s.sound(),
        s.travel is None,
        s.pending is None,
    ensures
        ({
            let (next, out) = commanded(s, CamCommand::StartSer(plan));
            &&& out.finish == (s.active is Some)
            &&& next.active is None && next.live == s.live
            &&& match next.travel {
                None => next.pending matches Some(p) && p.plan == plan && p.hw_active == plan.hw_roi
                    && out.next == CamNext::Proceed,
                Some(t) => next.pending is None && (t.why == (Why::ApplyBand { plan }) || t.why == (
                Why::CloseForStart { plan })) && out.next == CamNext::Apply(t.step),
            }
            &&& out.report == CamReport::Silence
        }),
{
}

/// The request to stop closes a running recording, drops one that waits, and leaves
/// the worker without either.
pub proof fn stops_leave_no_recording(s: CamState)
    requires
        s.sound(),
        s.travel is None,
    ensures
        ({
            let (next, out) = commanded(s, CamCommand::StopSer);
            &&& next.active is None && next.pending is None && next.live == s.live
            &&& out.finish == (s.active is Some)
            &&& (s.active is None && s.pending is None ==> next == s && out == output(
                CamReport::Silence,
                CamNext::Proceed,
            ))
            &&& (s.active is Some && next.travel is None ==> out.next == CamNext::ResumePreview)
            &&& (s.active is None && s.pending is Some && next.travel is None ==> out.report
                == CamReport::StoppedEmpty)
            &&& (next.travel matches Some(t) ==> out.next == CamNext::Apply(t.step) && (t.why
                == Why::CloseForStop || t.why == Why::ClosePending) && (t.why == Why::CloseForStop
                <==> s.active is Some))
        }),
{
}

/// The band that the user works in is the one that was asked for, and giving it up
/// leads back to the whole sensor. While something is recorded neither is possible.
pub proof fn live_band_is_as_asked(s: CamState, capture_height: usize, anchor: Option<usize>, enable: bool)
    requires
        s.sound(),
        s.travel is None,
    ensures
        ({
            let (next, out) = commanded(s, CamCommand::LiveRoi { capture_height, anchor, enable });
            let goal = if enable {
                band_of(s.full, capture_height, anchor)
            } else {
                s.full
            };
            if s.active is Some || s.pending is Some {
                next == s && out.report == CamReport::RoiWhileRecording && out.next
                    == CamNext::Proceed
            } else {
                match next.travel {
                    None => {
                        &&& s.current == goal && next.current == goal
                        &&& next.live == (if enable {
                            Some(goal)
                        } else {
                            None
                        })
                        &&& out.report == (CamReport::LiveRoi {
                            active: enable,
                            y0: goal.y,
                            h: goal.h,
                        })
                    },
                    Some(t) => {
                        &&& out.next == CamNext::Apply(t.step)
                        &&& t.why == (if enable {
                            Why::ApplyLive { band: goal }
                        } else {
                            Why::ReleaseLive
                        })
                        &&& next.live == s.live && next.current == s.current
                    },
                }
            }
        }),
{
}

/// A change of region that is done tells the panel what the sensor reads now.
pub proof fn reached_bands_are_reported(s: CamState)
    requires
        s.sound(),
        s.travel is Some,
        s.travel->0.then_step is None,
        s.travel->0.why is ApplyLive || s.travel->0.why is ReleaseLive || s.travel->0.why is RecoverLive,
    ensures
        ({
            let (next, out) = step_done(s);
            let enabled = s.travel->0.why is ApplyLive;
            &&& next.current == s.travel->0.step && next.travel is None
            &&& next.live == (if enabled {
                Some(next.current)
            } else {
                None
            })
            &&& (!enabled ==> next.current == s.full)
            &&& (s.travel->0.why is RecoverLive ==> out.report == CamReport::RefusedRoi)
            &&& (!(s.travel->0.why is RecoverLive) ==> out.report == (CamReport::LiveRoi {
                active: enabled,
                y0: next.current.y,
                h: next.current.h,
            }))
            &&& out.next == CamNext::Proceed
        }),
{
}

/// A change of region is carried out step by step: what was applied is what the sensor
/// reads, and the second step follows the first.
pub proof fn regions_are_applied_step_by_step(s: CamState)
    requires
        s.sound(),
        s.travel is Some,
        s.travel->0.then_step is Some,
    ensures
        ({
            let (next, out) = step_done(s);
            let goal = s.travel->0.then_step->0;
            &&& next.current == s.travel->0.step
            &&& out == output(CamReport::Silence, CamNext::Apply(goal))
            &&& next.travel == Some(Travel { step: goal, then_step: None, why: s.travel->0.why })
        }),
{
}

/// A camera that refuses the band of a recording is led back to what it read between
/// recordings, and the recording is cut out of the frames. One that refuses the band
/// of the user is led back to the whole sensor. One that refuses even that is given up.
pub proof fn refused_bands_do_not_lose_the_recording(s: CamState)
    requires
        s.sound(),
        s.travel is Some,
        s.pending is None,
    ensures
        ({
            let (next, out) = step_failed(s);
            match s.travel->0.why {
                Why::ApplyBand { plan } => {
                    &&& out.next is Apply && out.next->Apply_0 == next.travel->0.step
                    &&& next.travel is Some && next.travel->0.why == (Why::RecoverBand { plan })
                    &&& next.live == s.live
                    &&& (next.travel->0.then_step is None ==> (step_done(next).0.pending == Some(
                        PendingSer { plan, hw_active: false },
                    )))
                },
                Why::ApplyLive { .. } => {
                    &&& out.next == CamNext::Apply(s.full)
                    &&& next.travel is Some && next.travel->0.why == Why::RecoverLive
                    &&& next.travel->0.step == s.full
                },
                _ => out.next == CamNext::Exit && next.travel is None && out.report
                    != CamReport::Silence,
            }
        }),
{
}

/// A file that could be created starts its recording with the rows that were told; one
/// that could not leaves nothing to record.
pub proof fn recordings_need_their_file(s: CamState, recording: ActiveSer, ok: bool)
    requires
        s.sound(),
        s.travel is None,
        s.active is None,
    ensures
        ({
            let (next, out) = recorder_answered(s, recording, ok);
            &&& next.pending is None
            &&& next.active == (if ok {
                Some(recording)
            } else {
                None
            })
            &&& (ok ==> next.travel is None && next.current == s.current)
        }),
{
}

/// Of a frame exactly the rows of the recording are written, as long as the frame has
/// them; without a recording nothing is.
pub proof fn rows_of_the_recording_are_written(a: ActiveSer, width: nat, height: nat)
    requires
        width * height <= usize::MAX,
    ensures
        frame_use(None, width, height) == FrameUse::Preview,
        match frame_use(Some(a), width, height) {
            FrameUse::Write { start, end } => {
                &&& width > 0 && a.y0 + a.height <= height
                &&& start == a.y0 * width
                &&& end == (a.y0 + a.height) * width
            },
            FrameUse::DimensionsChanged => width == 0 || a.y0 + a.height > height,
            FrameUse::Preview => false,
        },
{
    if a.y0 + a.height <= height {
        lemma_rows(a.y0 as int, a.y0 + a.height, height as int, width as int);
    }
}

/// A stall is told after two seconds and never falls silent for longer than a quarter
/// of a minute.
pub proof fn stalls_are_told(seconds: int)
    requires
        seconds >= 1,
    ensures
        worth_a_note(2) && worth_a_note(5) && !worth_a_note(1) && !worth_a_note(3)
            && !worth_a_note(4),
        seconds > 5 ==> (worth_a_note(seconds) <==> seconds % 15 == 0),
{
}

} // verus!
