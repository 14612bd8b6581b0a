//! Decisions of the focuser worker.
//!
//! The worker owns the device. It moves only on a jog or a sweep that was asked
//! for, and every failure ends with a halt and nothing under way.

use crate::auto_center::CLOCK_LIMIT_MS;
use crate::autofocus::{
    elapsed, started_run, AutofocusRefusal, CurvePoint, FitFacts, FocuserState, FrameSample,
    Outcome, Run, RunView, Settings, TickAction, Width, MOVE_TIMEOUT_MS, STALL_MS,
};
use crate::text::{decimal, decimal_string, joined2, joined3, signed_decimal, signed_decimal_string};
use vstd::prelude::*;
use vstd::string::StringExecFns;

verus! {

pub const FOCUSER_POLL_MS: u64 = 100;

/// A command for the worker.
#[derive(Clone, Copy, Debug, PartialEq, Eq, Structural)]
pub enum FocuserCommand {
    Scan,
    Connect,
    Disconnect,
    Move { target: i32, minimum: i32, maximum: i32 },
    Start(Settings),
}

/// What the worker does on the device before it can go on.
#[derive(Clone, Copy, Debug, PartialEq, Eq, Structural)]
pub enum Errand {
    Enumerate,
    Open,
    /// Halt the device and let it go.
    HaltAndClose,
    /// There is no device; just say so.
    Close,
    /// Ask for the state of the device.
    AskState,
}

/// A jog under way.
#[derive(Clone, Copy, Debug, PartialEq, Eq, Structural)]
pub struct Jog {
    pub target: i32,
    pub since: u64,
    pub minimum: i32,
    pub maximum: i32,
}

/// What the panel shows.
pub struct FocuserView {
    pub state: Option<FocuserState>,
    pub connected: Option<String>,
    pub busy: bool,
    pub message: String,
    pub outcome: Option<Outcome>,
}

/// The worker's memory.
pub struct FocuserWorker {
    pub attached: bool,
    pub run: Option<Run>,
    pub jog: Option<Jog>,
    pub view: FocuserView,
    /// Points of the last sweep.
    pub samples: Vec<CurvePoint>,
    pub last_poll: u64,
}

/// What to do after a poll.
#[derive(Clone, Copy, Debug, PartialEq, Eq, Structural)]
pub enum PollStep {
    Nothing,
    MoveTo(i32),
    /// Average the burst of the run and hand the value back.
    Measure,
}

/// Whether a jog may be sent.
pub open spec fn jog_is_safe(state: FocuserState, target: int, minimum: int, maximum: int) -> bool {
    !state.moving && 0 <= minimum < maximum <= state.max_step && minimum <= state.position
        <= maximum && minimum <= target <= maximum
}

/// Holds a jog against the limits and the device.
pub fn check_jog(state: FocuserState, target: i32, minimum: i32, maximum: i32) -> (r: Result<
    i32,
    &'static str,
>)
    ensures
        match r {
            Ok(p) => p == target && jog_is_safe(
                state,
                target as int,
                minimum as int,
                maximum as int,
            ),
            Err(e) => !jog_is_safe(state, target as int, minimum as int, maximum as int) && e@
                == "Jog is outside safe travel limits, or focuser is already moving"@,
        },
{
    if state.moving || minimum < 0 || maximum > state.max_step || minimum >= maximum
        || state.position < minimum || state.position > maximum || target < minimum || target
        > maximum {
        Err("Jog is outside safe travel limits, or focuser is already moving")
    } else {
        Ok(target)
    }
}

/// Target of a jog button, kept in the range of positions.
pub fn jog_target(position: i32, delta: i32) -> (target: i32)
    ensures
        position + delta > i32::MAX ==> target == i32::MAX,
        position + delta < i32::MIN ==> target == i32::MIN,
        i32::MIN <= position + delta <= i32::MAX ==> target == position + delta,
{
    match position.checked_add(delta) {
        Some(target) => target,
        None => if delta > 0 {
            i32::MAX
        } else {
            i32::MIN
        },
    }
}

/// A jog button can be pressed.
pub fn jog_allowed(settings: &Settings, target: i32, motion_allowed: bool) -> (r: bool)
    ensures
        r == (motion_allowed && settings.minimum < settings.maximum && settings.minimum <= target
            <= settings.maximum),
{
    motion_allowed && settings.minimum < settings.maximum && target >= settings.minimum && target
        <= settings.maximum
}

/// The planned sweep in words.
pub fn sweep_text(positions: &Vec<i32>, approach: i32) -> (text: String)
    requires
        positions@.len() > 0,
        i32::MIN <= positions@[0] - approach <= i32::MAX,
    ensures
        text@ == "Sweep "@ + signed_decimal(positions@[0] as int) + " → "@ + signed_decimal(
            positions@.last() as int,
        ) + "; first approach "@ + signed_decimal(positions@[0] - approach),
{
    let n: usize = positions.len();
    let mut t = joined3("Sweep ", signed_decimal_string(positions[0] as i64).as_str(), " → ");
    t.append(signed_decimal_string(positions[n - 1] as i64).as_str());
    t.append("; first approach ");
    t.append(signed_decimal_string((positions[0] - approach) as i64).as_str());
    t
}

/// The sweep of a worker, by its view.
pub open spec fn run_view(run: Option<Run>) -> Option<RunView> {
    match run {
        Some(r) => Some(r@),
        None => None,
    }
}

/// All points lie inside the limits of their sweep.
pub open spec fn points_inside(r: RunView) -> bool {
    forall|i: int| 0 <= i < r.samples.len() ==> r.inside(#[trigger] r.samples[i].position as int)
}

/// The worker's view after an operation was given up.
pub open spec fn halted_text(error: Seq<char>, halt: Option<Result<(), String>>) -> Seq<char> {
    match halt {
        Some(Err(e)) => error + ". STOP failed: "@ + e@ + "; check the focuser"@,
        _ => "Stopped: "@ + error,
    }
}

impl FocuserWorker {
    /// At most one operation is under way, and a sweep is sound.
    pub open spec fn valid(&self) -> bool {
        &&& !(self.run is Some && self.jog is Some)
        &&& self.run matches Some(r) ==> r@.sound() && points_inside(r@)
    }

    pub open spec fn active(&self) -> bool {
        self.run is Some || self.jog is Some
    }

    pub fn new() -> (w: FocuserWorker)
        ensures
            w.valid() && !w.active() && !w.attached,
            w.view.state is None && w.view.connected is None && !w.view.busy && w.view.outcome is None,
            w.view.message@.len() == 0 && w.samples@.len() == 0 && w.last_poll == 0,
    {
        FocuserWorker {
            attached: false,
            run: None,
            jog: None,
            view: FocuserView {
                state: None,
                connected: None,
                busy: false,
                message: String::new(),
                outcome: None,
            },
            samples: Vec::new(),
            last_poll: 0,
        }
    }

    /// Takes a command up. Neither a scan nor a connection moves anything.
    pub fn accept(&mut self, command: FocuserCommand, has_frame: bool) -> (r: Result<
        Errand,
        &'static str,
    >)
        requires
            old(self).valid(),
        ensures
            final(self).valid(),
            old(self).active() ==> r is Err && r->Err_0@ == "A focuser operation is already active"@
                && *final(self) == *old(self),
            !old(self).active() ==> match command {
                FocuserCommand::Scan => r == Ok::<Errand, &'static str>(Errand::Enumerate)
                    && *final(self) == *old(self),
                FocuserCommand::Connect => r == Ok::<Errand, &'static str>(Errand::Open) && *final(self) == (FocuserWorker {
                    view: FocuserView { outcome: None, ..old(self).view },
                    ..*old(self)
                }),
                FocuserCommand::Disconnect => r == Ok::<Errand, &'static str>(
                    if old(self).attached {
                        Errand::HaltAndClose
                    } else {
                        Errand::Close
                    },
                ) && *final(self) == (FocuserWorker {
                    view: FocuserView { outcome: None, ..old(self).view },
                    ..*old(self)
                }),
                FocuserCommand::Move { .. } => *final(self) == *old(self) && if old(self).attached {
                    r == Ok::<Errand, &'static str>(Errand::AskState)
                } else {
                    r is Err && r->Err_0@ == "Focuser is not connected"@
                },
                FocuserCommand::Start(_) => *final(self) == *old(self) && if !old(self).attached {
                    r is Err && r->Err_0@ == "Focuser is not connected"@
                } else if !has_frame {
                    r is Err && r->Err_0@ == "No camera frame is available"@
                } else {
                    r == Ok::<Errand, &'static str>(Errand::AskState)
                },
            },
    {
        if self.run.is_some() || self.jog.is_some() {
            return Err("A focuser operation is already active");
        }
        match command {
            FocuserCommand::Scan => Ok(Errand::Enumerate),
            FocuserCommand::Connect => {
                self.view.outcome = None;
                Ok(Errand::Open)
            },
            FocuserCommand::Disconnect => {
                self.view.outcome = None;
                if self.attached {
                    Ok(Errand::HaltAndClose)
                } else {
                    Ok(Errand::Close)
                }
            },
            FocuserCommand::Move { .. } => if self.attached {
                Ok(Errand::AskState)
            } else {
                Err("Focuser is not connected")
            },
            FocuserCommand::Start(_) => if !self.attached {
                Err("Focuser is not connected")
            } else if !has_frame {
                Err("No camera frame is available")
            } else {
                Ok(Errand::AskState)
            },
        }
    }

    /// A scan found so many devices.
    pub fn scanned(&mut self, devices: usize)
        ensures
            final(self).view.message@ == "Found "@ + decimal(devices as nat)
                + " ToupTek focuser(s)"@,
            *final(self) == (FocuserWorker {
                view: FocuserView { message: final(self).view.message, ..old(self).view },
                ..*old(self)
            }),
    {
        self.view.message = joined3(
            "Found ",
            decimal_string(devices as u64).as_str(),
            " ToupTek focuser(s)",
        );
    }

    /// The device is open.
    pub fn opened(&mut self, name: String, state: FocuserState)
        ensures
            final(self).view.message@ == "Connected. Set safe travel limits before moving."@,
            *final(self) == (FocuserWorker {
                attached: true,
                view: FocuserView {
                    state: Some(state),
                    connected: Some(name),
                    message: final(self).view.message,
                    ..old(self).view
                },
                ..*old(self)
            }),
    {
        self.attached = true;
        self.view.state = Some(state);
        self.view.connected = Some(name);
        self.view.message = "Connected. Set safe travel limits before moving.".to_owned();
    }

    /// The device was let go.
    pub fn closed(&mut self)
        ensures
            final(self).view.message@ == "Focuser disconnected"@,
            *final(self) == (FocuserWorker {
                attached: false,
                view: FocuserView {
                    state: None,
                    connected: None,
                    message: final(self).view.message,
                    ..old(self).view
                },
                ..*old(self)
            }),
    {
        self.attached = false;
        self.view.state = None;
        self.view.connected = None;
        self.view.message = "Focuser disconnected".to_owned();
    }

    /// A checked jog was sent to the device.
    pub fn jogging(&mut self, target: i32, minimum: i32, maximum: i32, now: u64)
        requires
            old(self).valid(),
            !old(self).active(),
        ensures
            final(self).valid(),
            final(self).view.message@ == "Moving to "@ + signed_decimal(target as int),
            *final(self) == (FocuserWorker {
                jog: Some(Jog { target, since: now, minimum, maximum }),
                view: FocuserView {
                    outcome: None,
                    message: final(self).view.message,
                    ..old(self).view
                },
                ..*old(self)
            }),
    {
        self.view.outcome = None;
        self.jog = Some(Jog { target, since: now, minimum, maximum });
        self.view.message = joined2("Moving to ", signed_decimal_string(target as i64).as_str());
    }

    /// Starts a sweep; gives the first move.
    pub fn begin_sweep(
        &mut self,
        settings: Settings,
        state: FocuserState,
        frame: FrameSample,
        now: u64,
    ) -> (r: Result<i32, AutofocusRefusal>)
        requires
            old(self).valid(),
            !old(self).active(),
        ensures
            final(self).valid(),
            match r {
                Err(e) => *final(self) == *old(self) && (settings.refusal(state) == Some(e) || (
                settings.refusal(state) is None && e == AutofocusRefusal::NoLimb && (
                !frame.spec_fresh(now) || frame.spec_score(frame.spec_mask()) is None))),
                Ok(target) => {
                    &&& settings.refusal(state) is None
                    &&& frame.spec_fresh(now) && frame.spec_score(frame.spec_mask()) is Some
                    &&& target == settings.point(state.position as int, 0) - settings.approach
                    &&& settings.minimum <= target <= settings.maximum
                    &&& run_view(final(self).run) == Some(
                        started_run(settings, state.position as int, frame, now),
                    )
                    &&& final(self).samples@.len() == 0
                    &&& *final(self) == (FocuserWorker {
                        run: final(self).run,
                        samples: final(self).samples,
                        view: FocuserView { outcome: None, ..old(self).view },
                        ..*old(self)
                    })
                },
            },
    {
        match Run::start(settings, state, frame, now) {
            Err(e) => Err(e),
            Ok((run, target)) => {
                self.samples = Vec::new();
                self.view.outcome = None;
                self.run = Some(run);
                Ok(target)
            },
        }
    }

    /// A poll of the device is due.
    pub fn poll_due(&mut self, now: u64) -> (due: bool)
        ensures
            due == (elapsed(old(self).last_poll, now) >= FOCUSER_POLL_MS),
            *final(self) == (FocuserWorker {
                last_poll: if due {
                    now
                } else {
                    old(self).last_poll
                },
                ..*old(self)
            }),
    {
        let due: bool = now >= self.last_poll && now - self.last_poll >= FOCUSER_POLL_MS;
        if due {
            self.last_poll = now;
        }
        due
    }

    /// The jog after a look at the device.
    pub open spec fn jog_polled(jog: Jog, now: u64, state: FocuserState) -> Result<
        bool,
        Seq<char>,
    > {
        if state.position < jog.minimum || state.position > jog.maximum {
            Err("Position exceeded safe travel limits"@)
        } else if !state.moving && state.position == jog.target {
            Ok(true)
        } else if elapsed(jog.since, now) > MOVE_TIMEOUT_MS || (!state.moving && elapsed(
            jog.since,
            now,
        ) > STALL_MS) {
            Err("Focuser failed to reach the jog target"@)
        } else {
            Ok(false)
        }
    }

    /// Looks at the device and the newest frame.
    pub fn polled(&mut self, now: u64, state: FocuserState, frame: Option<FrameSample>) -> (r: Result<
        PollStep,
        &'static str,
    >)
        requires
            old(self).valid(),
            now <= CLOCK_LIMIT_MS,
        ensures
            final(self).valid(),
            *final(self) == (FocuserWorker {
                run: final(self).run,
                jog: final(self).jog,
                view: FocuserView {
                    state: Some(state),
                    message: final(self).view.message,
                    ..old(self).view
                },
                ..*old(self)
            }),
            r is Err ==> final(self).view.message == old(self).view.message,
            !old(self).active() ==> r == Ok::<PollStep, &'static str>(PollStep::Nothing) && !final(self).active() && final(self).view.message == old(self).view.message,
            old(self).jog matches Some(jog) ==> final(self).run is None && match Self::jog_polled(
                jog,
                now,
                state,
            ) {
                Err(e) => r is Err && r->Err_0@ == e && final(self).jog == Some(jog),
                Ok(arrived) => r == Ok::<PollStep, &'static str>(PollStep::Nothing) && if arrived {
                    final(self).jog is None && final(self).view.message@ == "At "@ + signed_decimal(
                        jog.target as int,
                    ) + " steps"@
                } else {
                    final(self).jog == Some(jog) && final(self).view.message == old(self).view.message
                },
            },
            old(self).run matches Some(run) ==> final(self).jog is None && run_view(
                final(self).run,
            ) == Some(run@.ticked(now, state, frame).0) && match run@.ticked(now, state, frame).1 {
                Err(e) => r is Err && r->Err_0@ == e.spec_text(),
                Ok(action) => {
                    &&& final(self).view.message@ == final(self).run->0.spec_describe()
                    &&& r == Ok::<PollStep, &'static str>(
                        match action {
                            TickAction::MoveTo(p) => PollStep::MoveTo(p),
                            TickAction::Measure => PollStep::Measure,
                            _ => PollStep::Nothing,
                        },
                    )
                },
            },
            r matches Ok(PollStep::MoveTo(p)) ==> old(self).run is Some && old(self).run->0.settings.minimum <= p <= old(self).run->0.settings.maximum,
            r matches Ok(PollStep::Measure) ==> final(self).run is Some && final(self).run->0.at.phase is Collecting,
    {
        self.view.state = Some(state);
        if let Some(jog) = self.jog {
            let waited: u64 = if now >= jog.since {
                now - jog.since
            } else {
                0
            };
            if state.position < jog.minimum || state.position > jog.maximum {
                return Err("Position exceeded safe travel limits");
            }
            if !state.moving && state.position == jog.target {
                self.jog = None;
                self.view.message = joined3(
                    "At ",
                    signed_decimal_string(jog.target as i64).as_str(),
                    " steps",
                );
            } else if waited > MOVE_TIMEOUT_MS || (!state.moving && waited > STALL_MS) {
                return Err("Focuser failed to reach the jog target");
            }
            return Ok(PollStep::Nothing);
        }
        match self.run.take() {
            None => Ok(PollStep::Nothing),
            Some(mut run) => {
                proof {
                    crate::autofocus::moves_stay_inside(
                        run@,
                        now,
                        state,
                        frame,
                        Width { key: 0 },
                        false,
                        None,
                    );
                }
                let result = run.tick(now, state, frame);
                let words: Option<String> = if result.is_ok() {
                    Some(run.progress())
                } else {
                    None
                };
                self.run = Some(run);
                match result {
                    Err(e) => Err(e.text()),
                    Ok(action) => {
                        if let Some(w) = words {
                            self.view.message = w;
                        }
                        match action {
                            TickAction::MoveTo(p) => Ok(PollStep::MoveTo(p)),
                            TickAction::Measure => Ok(PollStep::Measure),
                            TickAction::Wait => Ok(PollStep::Nothing),
                            TickAction::Done => Ok(PollStep::Nothing),
                        }
                    },
                }
            },
        }
    }

    /// Hands the average of a burst back. A verified focus ends the sweep, and so
    /// does an error.
    pub fn measured(&mut self, now: u64, value: Width, softer: bool, fit: Option<FitFacts>) -> (r:
        Result<PollStep, &'static str>)
        requires
            old(self).valid(),
            old(self).run is Some,
            old(self).run->0.at.phase is Collecting,
        ensures
            final(self).valid(),
            ({
                let before = old(self).run->0@;
                let (after, result) = before.measured(now, value, softer, fit);
                &&& final(self).samples@ == after.samples
                &&& *final(self) == (FocuserWorker {
                    run: final(self).run,
                    samples: final(self).samples,
                    view: FocuserView {
                        message: final(self).view.message,
                        outcome: final(self).view.outcome,
                        ..old(self).view
                    },
                    ..*old(self)
                })
                &&& match result {
                    Err(e) => {
                        &&& r is Err && r->Err_0@ == e.spec_text()
                        &&& final(self).run is None
                        &&& final(self).view == old(self).view
                    },
                    Ok(TickAction::Done) => {
                        &&& r == Ok::<PollStep, &'static str>(PollStep::Nothing)
                        &&& final(self).run is None
                        &&& final(self).view.outcome == after.at.outcome
                        &&& final(self).view.message@
                            == "Autofocus complete: verified at "@ + signed_decimal(
                            after.at.outcome->0.position as int,
                        ) + " steps"@
                    },
                    Ok(action) => {
                        &&& run_view(final(self).run) == Some(after)
                        &&& final(self).view.message@ == final(self).run->0.spec_describe()
                        &&& final(self).view.outcome == old(self).view.outcome
                        &&& action matches TickAction::MoveTo(p)
                        &&& r == Ok::<PollStep, &'static str>(PollStep::MoveTo(p))
                        &&& before.inside(p as int)
                    },
                }
            }),
    {
        match self.run.take() {
            None => Ok(PollStep::Nothing),
            Some(mut run) => {
                proof {
                    crate::autofocus::moves_stay_inside(
                        run@,
                        now,
                        FocuserState { position: 0, max_step: 0, moving: false },
                        None,
                        value,
                        softer,
                        fit,
                    );
                }
                let result = run.measure(now, value, softer, fit);
                self.samples = copied(&run.samples);
                match result {
                    Err(e) => Err(e.text()),
                    Ok(TickAction::Done) => {
                        if let Some(outcome) = run.at.outcome {
                            self.view.message = joined3(
                                "Autofocus complete: verified at ",
                                signed_decimal_string(outcome.position as i64).as_str(),
                                " steps",
                            );
                        }
                        self.view.outcome = run.at.outcome;
                        Ok(PollStep::Nothing)
                    },
                    Ok(TickAction::MoveTo(p)) => {
                        self.view.message = run.progress();
                        self.run = Some(run);
                        Ok(PollStep::MoveTo(p))
                    },
                    Ok(_) => Ok(PollStep::Nothing),
                }
            },
        }
    }

    /// Something went wrong, and the device was told to halt. A device that
    /// cannot be halted or asked any more has to be connected anew; a refused
    /// sweep can be tried again.
    pub fn failed(&mut self, error: &str, halt: Option<Result<(), String>>, state: Option<
        FocuserState,
    >)
        ensures
            final(self).valid() && !final(self).active(),
            final(self).view.message@ == halted_text(error@, halt),
            ({
                let keeps = old(self).attached && !(halt matches Some(Err(_))) && state is Some;
                &&& final(self).attached == keeps
                &&& final(self).view.state == (if keeps {
                    state
                } else {
                    None
                })
                &&& final(self).view.connected == (if halt matches Some(Err(_)) {
                    None
                } else if state is None {
                    None
                } else {
                    old(self).view.connected
                })
                &&& *final(self) == (FocuserWorker {
                    attached: keeps,
                    run: None,
                    jog: None,
                    view: FocuserView {
                        state: final(self).view.state,
                        connected: final(self).view.connected,
                        message: final(self).view.message,
                        outcome: None,
                        ..old(self).view
                    },
                    ..*old(self)
                })
            }),
    {
        let mut halted: bool = true;
        let message: String = match halt {
            Some(Err(e)) => {
                halted = false;
                let mut t = joined3(error, ". STOP failed: ", e.as_str());
                t.append("; check the focuser");
                t
            },
            _ => joined2("Stopped: ", error),
        };
        self.view.message = message;
        self.view.outcome = None;
        self.run = None;
        self.jog = None;
        if !halted || state.is_none() {
            self.attached = false;
            self.view.connected = None;
        }
        self.view.state = if self.attached {
            state
        } else {
            None
        };
    }

    /// The user asked to stop, and the device was told to halt. Nothing moves
    /// back.
    pub fn stopped(&mut self, halt: Option<Result<(), String>>)
        ensures
            final(self).valid() && !final(self).active() && !final(self).view.busy,
            match halt {
                Some(Err(e)) => {
                    &&& final(self).view.message@ == "STOP failed: "@ + e@ + "; check the focuser"@
                    &&& !final(self).attached
                    &&& final(self).view.connected is None
                    &&& final(self).view.state is None
                },
                _ => {
                    &&& final(self).view.message@ == "Stopped; no return move requested"@
                    &&& final(self).attached == old(self).attached
                    &&& final(self).view.connected == old(self).view.connected
                    &&& final(self).view.state == old(self).view.state
                },
            },
            *final(self) == (FocuserWorker {
                attached: final(self).attached,
                run: None,
                jog: None,
                view: FocuserView {
                    busy: false,
                    message: final(self).view.message,
                    connected: final(self).view.connected,
                    state: final(self).view.state,
                    ..old(self).view
                },
                ..*old(self)
            }),
    {
        self.run = None;
        self.jog = None;
        match halt {
            Some(Err(e)) => {
                self.attached = false;
                self.view.connected = None;
                self.view.state = None;
                self.view.message = joined3("STOP failed: ", e.as_str(), "; check the focuser");
            },
            _ => {
                self.view.message = "Stopped; no return move requested".to_owned();
            },
        }
        self.view.busy = false;
    }

    /// Shows whether an operation is under way.
    pub fn settle(&mut self)
        ensures
            *final(self) == (FocuserWorker {
                view: FocuserView { busy: old(self).active(), ..old(self).view },
                ..*old(self)
            }),
    {
        self.view.busy = self.run.is_some() || self.jog.is_some();
    }
}

fn copied(points: &Vec<CurvePoint>) -> (copy: Vec<CurvePoint>)
    ensures
        copy@ == points@,
{
    let mut copy: Vec<CurvePoint> = Vec::new();
    let mut i: usize = 0;
    while i < points.len()
        invariant
            i <= points@.len(),
            copy@ == points@.take(i as int),
        decreases points@.len() - i,
    {
        copy.push(points[i]);
        assert(copy@ =~= points@.take(i + 1));
        i = i + 1;
    }
    assert(points@.take(points@.len() as int) =~= points@);
    copy
}

/// The panel's end of the command queue: one command at a time.
#[derive(Clone, Copy, Debug, PartialEq, Eq, Structural)]
pub struct CommandGate {
    /// The worker is at work.
    pub busy: bool,
    /// A command is on its way.
    pub pending: bool,
}

impl CommandGate {
    pub open spec fn closed(&self) -> bool {
        self.busy || self.pending
    }

    /// What is left when a command has tried to get in.
    pub open spec fn after_entering(self) -> CommandGate {
        if self.closed() {
            self
        } else {
            CommandGate { pending: true, ..self }
        }
    }

    /// What is left when the command that got in was queued, or could not be.
    pub open spec fn after_queueing(self, sent: bool) -> CommandGate {
        CommandGate { busy: self.busy || sent, pending: sent }
    }

    /// Whether the panel shows the focuser as busy.
    pub fn is_busy(&self) -> (r: bool)
        ensures
            r == self.closed(),
    {
        self.busy || self.pending
    }

    /// Lets a command in if none is on its way or being worked on.
    pub fn try_enter(&mut self) -> (entered: bool)
        ensures
            entered == !old(self).closed(),
            *final(self) == old(self).after_entering(),
    {
        if self.busy || self.pending {
            return false;
        }
        self.pending = true;
        true
    }

    /// The command was queued, or could not be.
    pub fn queued(&mut self, sent: bool)
        requires
            old(self).pending,
        ensures
            *final(self) == old(self).after_queueing(sent),
    {
        if sent {
            self.busy = true;
        } else {
            self.pending = false;
        }
    }

    /// The worker has taken a command off the queue and is done with it.
    pub fn consumed(&mut self, busy: bool)
        ensures
            *final(self) == (CommandGate { busy, pending: false }),
    {
        self.busy = busy;
        self.pending = false;
    }
}

/// A command gets in only where none is in the way. It keeps the next one out
/// until it could not be queued, or until the worker is done with it.
pub proof fn one_command_at_a_time(gate: CommandGate, sent: bool)
    requires
        !gate.closed(),
    ensures
        gate.after_entering().closed(),
        gate.after_entering().after_queueing(sent).closed() == sent,
        gate.after_entering().after_queueing(true).after_entering()
            == gate.after_entering().after_queueing(true),
        gate.after_entering().after_queueing(false) == gate,
{
}

/// What is shown when a command could not be queued.
pub fn queue_error(reason: &str) -> (text: String)
    ensures
        text@ == "Focuser command could not be queued: "@ + reason@,
{
    joined2("Focuser command could not be queued: ", reason)
}

// ---------------------------------------------------------------------------
// What a jog promises
// ---------------------------------------------------------------------------

/// A jog is sent only to a focuser at rest, from a position inside the limits to one
/// inside the limits, and the limits lie on the device.
pub proof fn jogs_stay_on_the_device(state: FocuserState, target: int, minimum: int, maximum: int)
    ensures
        jog_is_safe(state, target, minimum, maximum) ==> !state.moving && 0 <= target
            <= state.max_step && minimum <= target <= maximum && minimum <= state.position
            <= maximum,
        !state.moving && 0 <= minimum <= target <= maximum <= state.max_step && minimum
            <= state.position <= maximum && minimum < maximum ==> jog_is_safe(
            state,
            target,
            minimum,
            maximum,
        ),
{
}

/// A jog has arrived where the focuser stands still at its target. It fails outside the
/// limits, after a minute, and when the focuser rests elsewhere after two seconds.
pub proof fn jogs_arrive_or_fail(jog: Jog, now: u64, state: FocuserState)
    requires
        now >= jog.since,
        jog.minimum <= jog.target <= jog.maximum,
    ensures
        ({
            let r = FocuserWorker::jog_polled(jog, now, state);
            let outside = state.position < jog.minimum || state.position > jog.maximum;
            let here = !state.moving && state.position == jog.target;
            let late = now - jog.since > 60_000 || (!state.moving && now - jog.since > 2_000);
            &&& (r == Ok::<bool, Seq<char>>(true) <==> here)
            &&& (r is Err <==> outside || (!here && late))
            &&& (r == Ok::<bool, Seq<char>>(false) <==> !here && !outside && !late)
        }),
{
}

} // verus!
