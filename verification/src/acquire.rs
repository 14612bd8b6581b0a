//! Guided acquisition: settings, safety gates, direction calibration and the
//! scan run, tied to the mount panel.
//!
//! The tab queues what it wants from the recorder and the pipeline; moves go to
//! the mount panel directly.

use crate::auto_center::CLOCK_LIMIT_MS;
use crate::mount::{rate_hundredths, Direction};
use crate::mount_panel::{acquisition_stopped, nudge_started, sent, MountState, NudgeReport};
use crate::mount_worker::WorkerCommand;
use crate::scan::{
    clamped, crossing_known, input_sound, new_run, polled, run_sound, scan_duration, search_further,
    travel_ms, RunPhase, ScanAction, ScanFailure, ScanInput, ScanRun, ScanStatus, ScanStep,
    LIMB_MARGIN_DEFAULT, POST_ROLL_MS, PRE_ROLL_MS, PROBE_RATE_INDEX, RUN_UP_MARGINS, SETTLE_MS,
    SPAN_MAX, SPAN_MIN,
};
use crate::storage::{human_bytes, size_text};
use crate::text::{decimal, decimal_string, joined2, joined3, opt_text, texts};
use vstd::prelude::*;
use vstd::string::StringExecFns;

verus! {

/// Number of science rates; they are the slowest eight of the mount.
pub const ACQUISITION_RATE_COUNT: usize = 8;

pub const DEFAULT_ACQUISITION_RATE: usize = 4;

/// Shortest and longest calibration probe, in millionths of a degree.
pub const PROBE_MIN: u64 = 10_000;

pub const PROBE_MAX: u64 = 150_000;

/// Headroom of a capture for what the reconstruction writes.
pub const CAPTURE_HEADROOM: u64 = 268_435_456;

/// Settings of the tab.
#[derive(Clone, Copy, Debug, PartialEq, Eq)]
pub struct ScanSettings {
    pub capture_height: usize,
    pub scan_span: u64,
    pub limb_margin: u64,
    pub scan_count: usize,
    pub rate_index: usize,
    pub direction: Direction,
    pub probe: u64,
}

/// What has been confirmed, and what is known of the sensor.
#[derive(Clone, Copy, Debug, PartialEq, Eq)]
pub struct Gates {
    pub anchored: bool,
    pub prepared_confirmed: bool,
    pub motion_confirmed: bool,
    /// Side of the meridian whose warning was acknowledged: -1 before, 1 after.
    pub meridian_ack_side: i8,
    /// The calibrated sensor is more than ten degrees off the scan axis.
    pub off_axis_warns: bool,
    pub off_axis_confirmed: bool,
    pub confirm_start_open: bool,
    pub confirm_stop_open: bool,
}

/// Steps of the direction calibration. Times say until when to settle.
#[derive(Clone, Copy, Debug, PartialEq, Eq, Structural)]
pub enum CalPhase {
    MoveNorth,
    SettleNorth(u64),
    ReturnSouth,
    SettleReturn(u64),
    MoveEast,
    SettleEast(u64),
    ReturnWest,
    SettleFinal(u64),
}

/// The newest profile against the one before the probe.
#[derive(Clone, Copy, Debug, PartialEq, Eq, Structural)]
pub enum Profile {
    /// No profile since the probe.
    Stale,
    Uncorrelated,
    /// Shifted by the probe. `north_first` says that the shift to the north
    /// was not larger than this one, `off_axis` that the two together put the
    /// sensor more than ten degrees off.
    Shifted { north_first: bool, off_axis: bool },
}

/// Answer of the calibration.
#[derive(Clone, Copy, Debug, PartialEq, Eq, Structural)]
pub enum CalStep {
    Stay,
    /// A move is finished; settle.
    Settle(CalPhase),
    /// Probe in a direction, then go on.
    Probe(Direction, CalPhase),
    /// The scan axis is known; probe back.
    Axis { north: bool, off_axis: bool },
    Done,
    NorthFailed,
    EastFailed,
}

/// One look of the calibration at the world.
pub open spec fn calibrated(phase: CalPhase, now: u64, nudge_done: bool, profile: Profile) -> CalStep {
    let settle_until = (now + SETTLE_MS) as u64;
    match phase {
        CalPhase::MoveNorth => if nudge_done {
            CalStep::Settle(CalPhase::SettleNorth(settle_until))
        } else {
            CalStep::Stay
        },
        CalPhase::SettleNorth(until) => if now < until {
            CalStep::Stay
        } else {
            match profile {
                Profile::Stale => CalStep::Stay,
                Profile::Uncorrelated => CalStep::NorthFailed,
                Profile::Shifted { .. } => CalStep::Probe(Direction::South, CalPhase::ReturnSouth),
            }
        },
        CalPhase::ReturnSouth => if nudge_done {
            CalStep::Settle(CalPhase::SettleReturn(settle_until))
        } else {
            CalStep::Stay
        },
        CalPhase::SettleReturn(until) => if now < until {
            CalStep::Stay
        } else {
            CalStep::Probe(Direction::East, CalPhase::MoveEast)
        },
        CalPhase::MoveEast => if nudge_done {
            CalStep::Settle(CalPhase::SettleEast(settle_until))
        } else {
            CalStep::Stay
        },
        CalPhase::SettleEast(until) => if now < until {
            CalStep::Stay
        } else {
            match profile {
                Profile::Stale => CalStep::Stay,
                Profile::Uncorrelated => CalStep::EastFailed,
                Profile::Shifted { north_first, off_axis } => CalStep::Axis {
                    north: north_first,
                    off_axis,
                },
            }
        },
        CalPhase::ReturnWest => if nudge_done {
            CalStep::Settle(CalPhase::SettleFinal(settle_until))
        } else {
            CalStep::Stay
        },
        CalPhase::SettleFinal(until) => if now < until {
            CalStep::Stay
        } else {
            CalStep::Done
        },
    }
}

/// The calibration looks for the end of a move in this phase.
pub open spec fn awaits_move(phase: CalPhase) -> bool {
    phase is MoveNorth || phase is ReturnSouth || phase is MoveEast || phase is ReturnWest
}

/// Every probe is undone by the next but one move: north by south, east by
/// west, so that a finished calibration leaves the mount where it was.
pub proof fn probes_cancel(now: u64, profile: Profile)
    ensures
        calibrated(CalPhase::SettleNorth(0), now, false, profile) matches CalStep::Probe(d, next)
            ==> d == Direction::North.spec_opposite() && next == CalPhase::ReturnSouth,
        calibrated(CalPhase::SettleReturn(0), now, false, profile) == CalStep::Probe(
            Direction::East,
            CalPhase::MoveEast,
        ),
        Direction::West == Direction::East.spec_opposite(),
{
}

fn calibrate(phase: CalPhase, now: u64, nudge_done: bool, profile: Profile) -> (s: CalStep)
    requires
        now <= CLOCK_LIMIT_MS,
    ensures
        s == calibrated(phase, now, nudge_done, profile),
{
    let settle_until: u64 = now + SETTLE_MS;
    match phase {
        CalPhase::MoveNorth => if nudge_done {
            CalStep::Settle(CalPhase::SettleNorth(settle_until))
        } else {
            CalStep::Stay
        },
        CalPhase::SettleNorth(until) => if now < until {
            CalStep::Stay
        } else {
            match profile {
                Profile::Stale => CalStep::Stay,
                Profile::Uncorrelated => CalStep::NorthFailed,
                Profile::Shifted { .. } => CalStep::Probe(Direction::South, CalPhase::ReturnSouth),
            }
        },
        CalPhase::ReturnSouth => if nudge_done {
            CalStep::Settle(CalPhase::SettleReturn(settle_until))
        } else {
            CalStep::Stay
        },
        CalPhase::SettleReturn(until) => if now < until {
            CalStep::Stay
        } else {
            CalStep::Probe(Direction::East, CalPhase::MoveEast)
        },
        CalPhase::MoveEast => if nudge_done {
            CalStep::Settle(CalPhase::SettleEast(settle_until))
        } else {
            CalStep::Stay
        },
        CalPhase::SettleEast(until) => if now < until {
            CalStep::Stay
        } else {
            match profile {
                Profile::Stale => CalStep::Stay,
                Profile::Uncorrelated => CalStep::EastFailed,
                Profile::Shifted { north_first, off_axis } => CalStep::Axis {
                    north: north_first,
                    off_axis,
                },
            }
        },
        CalPhase::ReturnWest => if nudge_done {
            CalStep::Settle(CalPhase::SettleFinal(settle_until))
        } else {
            CalStep::Stay
        },
        CalPhase::SettleFinal(until) => if now < until {
            CalStep::Stay
        } else {
            CalStep::Done
        },
    }
}

/// Something that the tab asks for.
#[derive(Clone, Copy, Debug, PartialEq, Eq, Structural)]
pub enum AcquireRequest {
    /// Record the scan with this number, counted from zero.
    StartRecording { index: usize },
    StopRecording,
    /// Reconstruct the scans of the session.
    Reconstruct { scans: usize },
}

/// A report of the reconstruction.
pub enum ProcessMessage {
    Log(String),
    Done,
    Failed(String),
}

/// State of the acquisition tab.
pub struct AcquireState {
    pub settings: ScanSettings,
    pub gates: Gates,
    pub calibration: Option<CalPhase>,
    pub run: Option<ScanRun>,
    pub auto_process: bool,
    /// Number of scans of the last finished run.
    pub last_session: Option<usize>,
    /// When the latest running reconstruction began.
    pub processing_since: Option<u64>,
    /// Reconstructions that run beside the latest one.
    pub further: usize,
    pub status: String,
    pub log: Vec<String>,
    pub outbox: Vec<AcquireRequest>,
}

/// What a calibration or a run did during a poll.
pub enum PollEvent {
    Quiet,
    /// The status line should say this.
    Status(ScanStatus),
    RunFailed(ScanFailure),
    /// The mount refused a move; the calibration or run is over.
    MountRefused(String),
    /// The scan axis was measured.
    AxisMeasured,
    CalibrationDone,
    NorthFailed,
    EastFailed,
    /// The scans are saved.
    RunFinished,
}

/// A run or a calibration was given up: motion and recording are stopped.
pub open spec fn given_up(
    before: AcquireState,
    after: AcquireState,
    mount_before: MountState,
    mount_after: MountState,
) -> bool {
    &&& acquisition_stopped(mount_before, mount_after)
    &&& after.outbox@ == before.outbox@.push(AcquireRequest::StopRecording)
    &&& after == AcquireState { run: None, outbox: after.outbox, ..before }
}

/// Everything was given up for a reason: run and calibration are dropped too.
pub open spec fn aborted(
    before: AcquireState,
    after: AcquireState,
    mount_before: MountState,
    mount_after: MountState,
    reason: Seq<char>,
) -> bool {
    &&& acquisition_stopped(mount_before, mount_after)
    &&& after.outbox@ == before.outbox@.push(AcquireRequest::StopRecording)
    &&& told(before, after, reason)
    &&& after == AcquireState {
        calibration: None,
        run: None,
        status: after.status,
        log: after.log,
        outbox: after.outbox,
        ..before
    }
}

/// One more line in the log, which the status line shows too.
pub open spec fn told(before: AcquireState, after: AcquireState, line: Seq<char>) -> bool {
    &&& after.status@ == line
    &&& texts(after.log@) == texts(before.log@).push(line)
}

/// Number of whole milliseconds of a calibration probe.
pub open spec fn probe_ms(probe: u64) -> u64 {
    (crate::scan::clamped(probe as int, PROBE_MIN as int, PROBE_MAX as int) / 250) as u64
}

impl AcquireState {
    /// What every operation keeps: a run is sound, and its rate and number of
    /// scans exist.
    pub open spec fn valid(&self) -> bool {
        &&& self.settings.rate_index < ACQUISITION_RATE_COUNT
        &&& 1 <= self.settings.scan_count < usize::MAX
        &&& self.run matches Some(r) ==> run_sound(r) && crossing_known(r)
    }

    /// The tab at the start of a session.
    pub fn new() -> (s: AcquireState)
        ensures
            s.valid(),
            s.settings == (ScanSettings {
                capture_height: 256,
                scan_span: 800_000,
                limb_margin: LIMB_MARGIN_DEFAULT,
                scan_count: 1,
                rate_index: DEFAULT_ACQUISITION_RATE,
                direction: Direction::East,
                probe: 60_000,
            }),
            s.gates == (Gates {
                anchored: false,
                prepared_confirmed: false,
                motion_confirmed: false,
                meridian_ack_side: 0,
                off_axis_warns: false,
                off_axis_confirmed: false,
                confirm_start_open: false,
                confirm_stop_open: false,
            }),
            s.calibration is None && s.run is None && !s.auto_process && s.last_session is None,
            s.processing_since is None && s.further == 0 && s.log@.len() == 0 && s.outbox@.len() == 0,
            s.status@ == "Ready for setup"@,
    {
        AcquireState {
            settings: ScanSettings {
                capture_height: 256,
                scan_span: 800_000,
                limb_margin: LIMB_MARGIN_DEFAULT,
                scan_count: 1,
                rate_index: DEFAULT_ACQUISITION_RATE,
                direction: Direction::East,
                probe: 60_000,
            },
            gates: Gates {
                anchored: false,
                prepared_confirmed: false,
                motion_confirmed: false,
                meridian_ack_side: 0,
                off_axis_warns: false,
                off_axis_confirmed: false,
                confirm_start_open: false,
                confirm_stop_open: false,
            },
            calibration: None,
            run: None,
            auto_process: false,
            last_session: None,
            processing_since: None,
            further: 0,
            status: "Ready for setup".to_owned(),
            log: Vec::new(),
            outbox: Vec::new(),
        }
    }

    /// A scan or a calibration is under way.
    pub open spec fn live(&self) -> bool {
        self.calibration is Some || (self.run is Some && self.run->0.phase != RunPhase::Complete)
    }

    /// Whether a scan or a calibration is under way. A finished run or a
    /// reconstruction is not: neither holds the mount or the camera.
    pub fn run_is_live(&self) -> (live: bool)
        ensures
            live == self.live(),
    {
        if self.calibration.is_some() {
            return true;
        }
        match self.run {
            Some(run) => run.phase != RunPhase::Complete,
            None => false,
        }
    }

    /// What stopping now would cost.
    pub open spec fn spec_consequences(&self) -> Seq<char> {
        if self.calibration is Some {
            "Scan-axis calibration is part-way through; stopping discards it and the mount stays where it is."@
        } else {
            match self.run {
                None => Seq::empty(),
                Some(run) => "Scan "@ + decimal((run.scan_index + 1) as nat) + " of "@ + decimal(
                    self.settings.scan_count as nat,
                ) + " is "@ + run.phase.spec_describe()
                    + ". Stopping halts the mount and closes the current SER — the partial scan stays on disk and is still readable — and cancels the "@
                    + decimal(
                    if self.settings.scan_count >= run.scan_index {
                        (self.settings.scan_count - run.scan_index) as nat
                    } else {
                        0
                    },
                ) + " remaining. "@ + (if run.scan_index > 0 {
                    decimal(run.scan_index as nat)
                        + " completed scan(s) are already saved and unaffected."@
                } else {
                    "No scan has completed yet."@
                }),
            }
        }
    }

    pub fn stop_consequences(&self) -> (text: String)
        requires
            self.valid(),
        ensures
            text@ == self.spec_consequences(),
    {
        if self.calibration.is_some() {
            return "Scan-axis calibration is part-way through; stopping discards it and the mount stays where it is.".to_owned();
        }
        match self.run {
            None => String::new(),
            Some(run) => {
                let total: usize = self.settings.scan_count;
                let remaining: usize = if total >= run.scan_index {
                    total - run.scan_index
                } else {
                    0
                };
                let mut t = "Scan ".to_owned();
                t.append(decimal_string((run.scan_index + 1) as u64).as_str());
                t.append(" of ");
                t.append(decimal_string(total as u64).as_str());
                t.append(" is ");
                t.append(run.phase.describe());
                t.append(
                    ". Stopping halts the mount and closes the current SER — the partial scan stays on disk and is still readable — and cancels the ",
                );
                t.append(decimal_string(remaining as u64).as_str());
                t.append(" remaining. ");
                let saved: String = if run.scan_index > 0 {
                    joined2(
                        decimal_string(run.scan_index as u64).as_str(),
                        " completed scan(s) are already saved and unaffected.",
                    )
                } else {
                    "No scan has completed yet.".to_owned()
                };
                t.append(saved.as_str());
                t
            },
        }
    }

    fn note(&mut self, line: &str)
        ensures
            told(*old(self), *final(self), line@),
            *final(self) == (AcquireState {
                status: final(self).status,
                log: final(self).log,
                ..*old(self)
            }),
    {
        self.status = line.to_owned();
        self.record(line);
    }

    fn record(&mut self, line: &str)
        ensures
            texts(final(self).log@) == texts(old(self).log@).push(line@),
            *final(self) == (AcquireState { log: final(self).log, ..*old(self) }),
    {
        self.log.push(line.to_owned());
        assert(texts(self.log@) =~= texts(old(self).log@).push(line@));
    }

    /// Gives everything up: motion and recording stop, calibration and run are
    /// dropped.
    pub fn abort(&mut self, mount: &mut MountState, reason: &str)
        requires
            old(self).valid(),
        ensures
            final(self).valid(),
            !final(self).live(),
            aborted(*old(self), *final(self), *old(mount), *final(mount), reason@),
    {
        mount.stop_acquisition_motion();
        self.outbox.push(AcquireRequest::StopRecording);
        self.calibration = None;
        self.run = None;
        self.note(reason);
    }

    /// Stops a live run without asking.
    pub fn force_stop(&mut self, mount: &mut MountState, reason: &str)
        requires
            old(self).valid(),
        ensures
            final(self).valid(),
            !final(self).live(),
            aborted(
                AcquireState {
                    gates: Gates { confirm_stop_open: false, ..old(self).gates },
                    ..*old(self)
                },
                *final(self),
                *old(mount),
                *final(mount),
                reason@,
            ),
    {
        self.gates.confirm_stop_open = false;
        self.abort(mount, reason);
    }

    /// Leaving the tab gives up what is live and nothing else.
    pub fn leave_tab(&mut self, mount: &mut MountState)
        requires
            old(self).valid(),
        ensures
            final(self).valid(),
            !final(self).live(),
            !old(self).live() ==> *final(self) == *old(self) && *final(mount) == *old(mount),
            old(self).live() ==> aborted(
                *old(self),
                *final(self),
                *old(mount),
                *final(mount),
                "Acquisition stopped when leaving the tab"@,
            ),
    {
        if self.run_is_live() {
            self.abort(mount, "Acquisition stopped when leaving the tab");
        }
    }

    /// Takes one report of the reconstruction. It is a job of its own: a run that
    /// was started meanwhile goes on.
    pub fn on_message(&mut self, message: ProcessMessage)
        requires
            old(self).valid(),
        ensures
            final(self).valid(),
            match message {
                ProcessMessage::Log(line) => {
                    &&& told(*old(self), *final(self), line@)
                    &&& *final(self) == (AcquireState {
                        status: final(self).status,
                        log: final(self).log,
                        ..*old(self)
                    })
                },
                ProcessMessage::Done => {
                    &&& told(
                        *old(self),
                        *final(self),
                        "Acquisition, reconstruction, and output complete"@,
                    )
                    &&& one_reconstructed(*old(self), *final(self))
                },
                ProcessMessage::Failed(error) => {
                    &&& told(*old(self), *final(self), "Processing failed: "@ + error@)
                    &&& one_reconstructed(*old(self), *final(self))
                },
            },
    {
        match message {
            ProcessMessage::Log(line) => {
                self.note(line.as_str());
            },
            ProcessMessage::Done => {
                self.note("Acquisition, reconstruction, and output complete");
                self.end_processing();
            },
            ProcessMessage::Failed(error) => {
                let line = joined2("Processing failed: ", error.as_str());
                self.note(line.as_str());
                self.end_processing();
            },
        }
    }

    fn end_processing(&mut self)
        ensures
            *final(self) == (AcquireState {
                processing_since: if old(self).further > 0 {
                    old(self).processing_since
                } else {
                    None
                },
                further: if old(self).further > 0 {
                    (old(self).further - 1) as usize
                } else {
                    0
                },
                ..*old(self)
            }),
    {
        if self.further > 0 {
            self.further = self.further - 1;
        } else {
            self.processing_since = None;
        }
    }

    /// Hands a mount error to a live acquisition. Says whether there was one.
    pub fn take_mount_error(&mut self, mount: &mut MountState) -> (failed: bool)
        requires
            old(self).valid(),
        ensures
            final(self).valid(),
            failed == (old(mount).report.error is Some),
            !failed ==> *final(self) == *old(self) && *final(mount) == *old(mount),
            failed ==> aborted(
                *old(self),
                *final(self),
                MountState {
                    report: NudgeReport { error: None, ..old(mount).report },
                    ..*old(mount)
                },
                *final(mount),
                "Mount error: "@ + old(mount).report.error->0@,
            ),
    {
        match mount.take_acquisition_error() {
            None => false,
            Some(error) => {
                let line = joined2("Mount error: ", error.as_str());
                self.abort(mount, line.as_str());
                true
            },
        }
    }

    // -- calibration -------------------------------------------------------

    fn start_probe(&self, mount: &mut MountState, direction: Direction) -> (started: Result<
        (),
        String,
    >)
        ensures
            nudge_started(
                *old(mount),
                *final(mount),
                direction,
                probe_ms(self.settings.probe),
                PROBE_RATE_INDEX,
                started,
            ),
    {
        let probe: u64 = if self.settings.probe < PROBE_MIN {
            PROBE_MIN
        } else if self.settings.probe > PROBE_MAX {
            PROBE_MAX
        } else {
            self.settings.probe
        };
        mount.start_acquisition_nudge(direction, probe / 250, PROBE_RATE_INDEX)
    }

    fn probe_on(
        &mut self,
        mount: &mut MountState,
        direction: Direction,
        next: CalPhase,
        success: PollEvent,
    ) -> (event: PollEvent)
        requires
            old(self).valid(),
        ensures
            final(self).valid(),
            probed(
                *old(self),
                *final(self),
                *old(mount),
                *final(mount),
                direction,
                next,
                success,
                event,
            ),
    {
        match self.start_probe(mount, direction) {
            Ok(_) => {
                self.calibration = Some(next);
                success
            },
            Err(e) => {
                self.calibration = None;
                mount.stop_acquisition_motion();
                PollEvent::MountRefused(e)
            },
        }
    }

    /// What stands against a calibration.
    pub open spec fn calibration_refusal(
        &self,
        mount: &MountState,
        around: &Surroundings,
        minutes: Seq<char>,
        profile_ready: bool,
    ) -> Option<Seq<char>> {
        match self.refusal(mount, around, minutes) {
            Some(e) => Some(e),
            None => if !self.gates.prepared_confirmed {
                Some("confirm that the Sun is centred and focus is complete"@)
            } else if !self.gates.motion_confirmed {
                Some("confirm that mount motion is safe first"@)
            } else if !profile_ready {
                Some("start the camera and wait for a profile"@)
            } else {
                None
            },
        }
    }

    /// Starts the calibration of the scan direction. `profile_ready` says that
    /// a profile to compare with is there.
    pub fn start_calibration(
        &mut self,
        mount: &mut MountState,
        around: &Surroundings,
        minutes: &str,
        profile_ready: bool,
    ) -> (started: Result<(), String>)
        requires
            old(self).valid(),
        ensures
            final(self).valid(),
            match old(self).calibration_refusal(old(mount), around, minutes@, profile_ready) {
                Some(e) => started is Err && started->Err_0@ == e && *final(mount) == *old(mount),
                None => nudge_started(
                    *old(mount),
                    *final(mount),
                    Direction::North,
                    probe_ms(old(self).settings.probe),
                    PROBE_RATE_INDEX,
                    started,
                ),
            },
            started is Ok ==> {
                &&& told(
                    *old(self),
                    *final(self),
                    "Calibrating scan direction: probing North"@,
                )
                &&& *final(self) == (AcquireState {
                    calibration: Some(CalPhase::MoveNorth),
                    status: final(self).status,
                    log: final(self).log,
                    ..*old(self)
                })
            },
            started is Err ==> *final(self) == *old(self),
    {
        if let Err(e) = self.validate_common(mount, around, minutes) {
            return Err(e);
        }
        if !self.gates.prepared_confirmed {
            return Err("confirm that the Sun is centred and focus is complete".to_owned());
        }
        if !self.gates.motion_confirmed {
            return Err("confirm that mount motion is safe first".to_owned());
        }
        if !profile_ready {
            return Err("start the camera and wait for a profile".to_owned());
        }
        match self.start_probe(mount, Direction::North) {
            Err(e) => Err(e),
            Ok(_) => {
                self.calibration = Some(CalPhase::MoveNorth);
                self.note("Calibrating scan direction: probing North");
                Ok(())
            },
        }
    }

    /// One look of the calibration at the world. Its failure stops the motion
    /// and drops it; a profile that is not there yet is waited for.
    pub fn poll_calibration(&mut self, mount: &mut MountState, now: u64, profile: Profile) -> (event:
        PollEvent)
        requires
            old(self).valid(),
            now <= CLOCK_LIMIT_MS,
        ensures
            final(self).valid(),
            calibration_polled(
                *old(self),
                *final(self),
                *old(mount),
                *final(mount),
                now,
                profile,
                event,
            ),
    {
        let phase: CalPhase = match self.calibration {
            None => {
                return PollEvent::Quiet;
            },
            Some(p) => p,
        };
        let looks: bool = match phase {
            CalPhase::MoveNorth => true,
            CalPhase::ReturnSouth => true,
            CalPhase::MoveEast => true,
            CalPhase::ReturnWest => true,
            _ => false,
        };
        let nudge_done: bool = looks && mount.report.done;
        if looks {
            mount.take_acquisition_nudge_done();
        }
        let ghost mid = *mount;
        assert(panel_read(awaits_move(phase), *old(mount), mid));
        let step: CalStep = calibrate(phase, now, nudge_done, profile);
        let event = self.take_step(mount, step);
        assert(step_taken(*old(self), *self, mid, *mount, step, event));
        event
    }

    fn take_step(&mut self, mount: &mut MountState, step: CalStep) -> (event: PollEvent)
        requires
            old(self).valid(),
        ensures
            final(self).valid(),
            step_taken(*old(self), *final(self), *old(mount), *final(mount), step, event),
    {
        match step {
            CalStep::Stay => PollEvent::Quiet,
            CalStep::Settle(next) => {
                self.calibration = Some(next);
                PollEvent::Quiet
            },
            CalStep::Probe(direction, next) => {
                self.probe_on(mount, direction, next, PollEvent::Quiet)
            },
            CalStep::Axis { north, off_axis } => {
                self.settings.direction = if north {
                    Direction::North
                } else {
                    Direction::East
                };
                self.gates.off_axis_warns = off_axis;
                self.gates.off_axis_confirmed = false;
                self.probe_on(
                    mount,
                    Direction::West,
                    CalPhase::ReturnWest,
                    PollEvent::AxisMeasured,
                )
            },
            CalStep::Done => {
                self.calibration = None;
                PollEvent::CalibrationDone
            },
            CalStep::NorthFailed => {
                self.calibration = None;
                mount.stop_acquisition_motion();
                PollEvent::NorthFailed
            },
            CalStep::EastFailed => {
                self.calibration = None;
                mount.stop_acquisition_motion();
                PollEvent::EastFailed
            },
        }
    }

    /// Tells how the calibration ended. `angle` is the estimated offset of the
    /// sensor in degrees.
    pub fn tell_calibrated(&mut self, angle: &str)
        ensures
            told(
                *old(self),
                *final(self),
                "Calibration complete: scan "@ + old(self).settings.direction.spec_label() + " / "@
                    + old(self).settings.direction.spec_opposite().spec_label()
                    + ", estimated sensor offset "@ + angle@ + "°"@,
            ),
            *final(self) == (AcquireState {
                status: final(self).status,
                log: final(self).log,
                ..*old(self)
            }),
    {
        let mut line = "Calibration complete: scan ".to_owned();
        line.append(self.settings.direction.label());
        line.append(" / ");
        line.append(self.settings.direction.opposite().label());
        line.append(", estimated sensor offset ");
        line.append(angle);
        line.append("°");
        self.note(line.as_str());
    }

    /// Tells why the calibration failed.
    pub fn tell_calibration_failed(&mut self, reason: &str)
        ensures
            told(*old(self), *final(self), "Direction calibration failed: "@ + reason@),
            *final(self) == (AcquireState {
                status: final(self).status,
                log: final(self).log,
                ..*old(self)
            }),
    {
        let line = joined2("Direction calibration failed: ", reason);
        self.note(line.as_str());
    }

    /// Tells why the run failed.
    pub fn tell_run_failed(&mut self, reason: &str)
        ensures
            told(*old(self), *final(self), "Acquisition failed: "@ + reason@),
            *final(self) == (AcquireState {
                status: final(self).status,
                log: final(self).log,
                ..*old(self)
            }),
    {
        let line = joined2("Acquisition failed: ", reason);
        self.note(line.as_str());
    }

    /// Shows a status line.
    pub fn show(&mut self, text: String)
        ensures
            *final(self) == (AcquireState { status: text, ..*old(self) }),
    {
        self.status = text;
    }

    // -- gates -------------------------------------------------------------

    /// What keeps a calibration from starting: the first of these that holds.
    pub open spec fn refusal(&self, mount: &MountState, around: &Surroundings, minutes: Seq<char>) -> Option<
        Seq<char>,
    > {
        if !mount.link.connected {
            Some("connect the ZWO mount on the Mount tab"@)
        } else if !around.streaming {
            Some("start the camera preview"@)
        } else if !(opt_text(mount.link.snapshot.tracking) == Some("On"@)) {
            Some("mount tracking must show On before acquisition"@)
        } else if !around.vertical {
            Some("set dispersion to Vertical on the Focus tab"@)
        } else if around.auto_exposure {
            Some(auto_exposure_text())
        } else if !self.gates.anchored {
            Some("select a spectral-line anchor"@)
        } else if meridian_blocks(around.meridian, self.gates.meridian_ack_side) {
            Some(
                if around.meridian->0.before {
                    "Sun reaches the meridian in "@ + minutes
                        + " min; review and acknowledge the meridian warning"@
                } else {
                    "Sun crossed the meridian "@ + minutes
                        + " min ago; confirm the mount has flipped and is tracking"@
                },
            )
        } else if self.run is Some || self.calibration is Some {
            Some("an acquisition operation is already running"@)
        } else {
            None
        }
    }

    pub fn validate_common(&self, mount: &MountState, around: &Surroundings, minutes: &str) -> (r:
        Result<(), String>)
        ensures
            match r {
                Ok(_) => self.refusal(mount, around, minutes@) is None,
                Err(e) => self.refusal(mount, around, minutes@) == Some(e@),
            },
    {
        if !mount.is_connected() {
            return Err("connect the ZWO mount on the Mount tab".to_owned());
        }
        if !around.streaming {
            return Err("start the camera preview".to_owned());
        }
        if !mount.tracking_is_on() {
            return Err("mount tracking must show On before acquisition".to_owned());
        }
        if !around.vertical {
            return Err("set dispersion to Vertical on the Focus tab".to_owned());
        }
        if around.auto_exposure {
            return Err(
                "turn auto-exposure OFF on the Focus tab: it re-times the sensor mid-scan and moves the brightness baseline the limb search depends on".to_owned(),
            );
        }
        if !self.gates.anchored {
            return Err("select a spectral-line anchor".to_owned());
        }
        if meridian_stops(around.meridian, self.gates.meridian_ack_side) {
            let before: bool = match around.meridian {
                Some(m) => m.before,
                None => false,
            };
            return Err(
                if before {
                    joined3(
                        "Sun reaches the meridian in ",
                        minutes,
                        " min; review and acknowledge the meridian warning",
                    )
                } else {
                    joined3(
                        "Sun crossed the meridian ",
                        minutes,
                        " min ago; confirm the mount has flipped and is tracking",
                    )
                },
            );
        }
        if self.run.is_some() || self.calibration.is_some() {
            return Err("an acquisition operation is already running".to_owned());
        }
        Ok(())
    }

    /// What holds the mount and the camera.
    pub open spec fn held_by(&self) -> Option<Seq<char>> {
        if self.calibration is Some {
            Some("scan-axis calibration is running — let it finish"@)
        } else {
            match self.run {
                None => None,
                Some(run) => Some(
                    "scan "@ + decimal((run.scan_index + 1) as nat) + " of "@ + decimal(
                        self.settings.scan_count as nat,
                    ) + " is in progress ("@ + run.phase.spec_describe() + ") — stop it first"@,
                ),
            }
        }
    }

    fn holder(&self) -> (text: Option<String>)
        requires
            self.valid(),
        ensures
            opt_text(text) == self.held_by(),
    {
        if self.calibration.is_some() {
            return Some("scan-axis calibration is running — let it finish".to_owned());
        }
        match self.run {
            None => None,
            Some(run) => {
                let mut t = "scan ".to_owned();
                t.append(decimal_string((run.scan_index + 1) as u64).as_str());
                t.append(" of ");
                t.append(decimal_string(self.settings.scan_count as u64).as_str());
                t.append(" is in progress (");
                t.append(run.phase.describe());
                t.append(") — stop it first");
                Some(t)
            },
        }
    }

    /// What the tab is busy with.
    pub open spec fn activity(&self, now: u64) -> Option<Seq<char>> {
        if self.calibration is None && self.processing_since is Some {
            Some(
                "the scan is recorded and RECONSTRUCTION is still running"@ + waited_text(
                    seconds_between(self.processing_since->0, now),
                ) + " — this finishes on its own and does not hold up the next scan"@,
            )
        } else {
            self.held_by()
        }
    }

    pub fn current_activity(&self, now: u64) -> (text: Option<String>)
        requires
            self.valid(),
        ensures
            opt_text(text) == self.activity(now),
    {
        if self.calibration.is_none() {
            if let Some(since) = self.processing_since {
                let secs: u64 = if now >= since {
                    (now - since) / 1000
                } else {
                    0
                };
                let waited = waited(secs);
                return Some(
                    joined3(
                        "the scan is recorded and RECONSTRUCTION is still running",
                        waited.as_str(),
                        " — this finishes on its own and does not hold up the next scan",
                    ),
                );
            }
        }
        self.holder()
    }

    /// Everything between the tab and a scan, in the order in which it is
    /// shown. A reconstruction holds neither the mount nor the camera.
    pub open spec fn issues(&self, mount: &MountState, around: &Surroundings, minutes: Seq<char>) -> Seq<
        Seq<char>,
    > {
        maybe(self.held_by()) + equipment_issues(mount, around) + self.gate_issues()
            + margin_issues(around, self.gates.meridian_ack_side, minutes)
    }

    /// What has not been selected or confirmed.
    pub open spec fn gate_issues(&self) -> Seq<Seq<char>> {
        when(!self.gates.anchored, "select a spectral-line anchor"@) + when(
            !self.gates.prepared_confirmed,
            "confirm that the Sun is centred and focus is complete"@,
        ) + when(!self.gates.motion_confirmed, "confirm that mount motion is safe"@) + when(
            self.gates.off_axis_warns && !self.gates.off_axis_confirmed,
            "confirm the off-axis warning or realign the sensor"@,
        )
    }

    pub fn pre_scan_issues(&self, mount: &MountState, around: &Surroundings, minutes: &str) -> (list: Vec<
        String,
    >)
        requires
            self.valid(),
        ensures
            texts(list@) == self.issues(mount, around, minutes@),
    {
        let mut list: Vec<String> = Vec::new();
        if let Some(busy) = self.holder() {
            list.push(busy);
        }
        assert(texts(list@) =~= maybe(self.held_by()));
        list_equipment(&mut list, mount, around);
        self.list_gates(&mut list);
        list_margins(&mut list, around, self.gates.meridian_ack_side, minutes);
        list
    }

    fn list_gates(&self, list: &mut Vec<String>)
        ensures
            texts(final(list)@) == texts(old(list)@) + self.gate_issues(),
    {
        add_issue(list, !self.gates.anchored, "select a spectral-line anchor");
        add_issue(
            list,
            !self.gates.prepared_confirmed,
            "confirm that the Sun is centred and focus is complete",
        );
        add_issue(list, !self.gates.motion_confirmed, "confirm that mount motion is safe");
        add_issue(
            list,
            self.gates.off_axis_warns && !self.gates.off_axis_confirmed,
            "confirm the off-axis warning or realign the sensor",
        );
        assert(texts(list@) =~= texts(old(list)@) + self.gate_issues());
    }

    /// Everything that a scan still lacks, at once; where nothing is missing the
    /// solar rate is asserted.
    pub fn prepare_scan(&self, mount: &mut MountState, around: &Surroundings, minutes: &str) -> (ready:
        Result<(), String>)
        requires
            self.valid(),
        ensures
            ({
                let list = self.issues(old(mount), around, minutes@);
                match ready {
                    Ok(_) => list.len() == 0 && final(mount).outbox@ == sent(
                        old(mount).link.worker_running,
                        old(mount).outbox@,
                        WorkerCommand::SetSolarRate,
                    ) && *final(mount) == (MountState {
                        outbox: final(mount).outbox,
                        ..*old(mount)
                    }),
                    Err(e) => list.len() > 0 && *final(mount) == *old(mount) && e@ == (if list.len()
                        == 1 {
                        list[0]
                    } else {
                        decimal(list.len()) + " things to fix first — "@ + joined(list, "; "@)
                    }),
                }
            }),
    {
        let list = self.pre_scan_issues(mount, around, minutes);
        let ghost wanted = self.issues(mount, around, minutes@);
        assert(wanted.len() == list@.len());
        if list.len() == 0 {
            mount.request_solar_tracking_rate();
            return Ok(());
        }
        assert(wanted[0] == list@[0]@);
        if list.len() == 1 {
            return Err(list[0].clone());
        }
        let mut t = decimal_string(list.len() as u64);
        t.append(" things to fix first — ");
        t.append(join(&list, "; ").as_str());
        Err(t)
    }

    /// Starts a scan on the current camera signal. `baseline` is the frame
    /// number of a signal that is a positive number.
    pub fn begin_scan(&mut self, mount: &mut MountState, baseline: Option<u64>) -> (started: Result<
        (),
        String,
    >)
        requires
            old(self).valid(),
        ensures
            final(self).valid(),
            baseline is None ==> started is Err && started->Err_0@
                == "wait for a valid live camera signal before beginning"@ && *final(self) == *old(
                self,
            ) && *final(mount) == *old(mount),
            baseline is Some ==> nudge_started(
                *old(mount),
                *final(mount),
                old(self).settings.direction.spec_opposite(),
                320,
                PROBE_RATE_INDEX,
                started,
            ),
            started is Err ==> *final(self) == *old(self),
            started is Ok ==> {
                let s = search_further(
                    new_run(
                        old(self).settings.direction,
                        old(self).settings.rate_index as u8,
                        old(self).settings.scan_span as int,
                        old(self).settings.limb_margin as int,
                        baseline->0,
                    ),
                    ScanStatus::Unchanged,
                );
                &&& s is Ok
                &&& final(self).run == Some(s->Ok_0.run)
                &&& final(self).status@
                    == "Camera-guided pre-positioning: seeking the first solar limb"@
                &&& texts(final(self).log@) == seq![
                    "Camera-guided pre-positioning: seeking the first solar limb"@,
                ]
                &&& *final(self) == (AcquireState {
                    run: final(self).run,
                    status: final(self).status,
                    log: final(self).log,
                    ..*old(self)
                })
            },
    {
        let seq: u64 = match baseline {
            None => {
                return Err("wait for a valid live camera signal before beginning".to_owned());
            },
            Some(s) => s,
        };
        let s: ScanStep = ScanRun::start(
            self.settings.direction,
            self.settings.rate_index as u8,
            self.settings.scan_span,
            self.settings.limb_margin,
            seq,
        );
        match s.action {
            ScanAction::Nudge { direction, duration_ms, rate } => {
                match mount.start_acquisition_nudge(direction, duration_ms, rate) {
                    Err(e) => Err(e),
                    Ok(_) => {
                        self.run = Some(s.run);
                        self.log = Vec::new();
                        assert(texts(self.log@) =~= seq![]);
                        self.note("Camera-guided pre-positioning: seeking the first solar limb");
                        assert(texts(self.log@) =~= seq![
                            "Camera-guided pre-positioning: seeking the first solar limb"@,
                        ]);
                        Ok(())
                    },
                }
            },
            _ => Ok(()),
        }
    }

    /// Everything that the confirmation of a scan shows as met.
    pub fn ready_to_begin(&self, mount: &MountState, around: &Surroundings) -> (ready: bool)
        ensures
            ready == (self.gates.prepared_confirmed && self.gates.motion_confirmed
                && around.streaming && mount.link.connected && opt_text(
                mount.link.snapshot.tracking,
            ) == Some("On"@) && self.gates.anchored && around.vertical && !meridian_blocks(
                around.meridian,
                self.gates.meridian_ack_side,
            ) && (!self.gates.off_axis_warns || self.gates.off_axis_confirmed)),
    {
        self.gates.prepared_confirmed && self.gates.motion_confirmed && around.streaming
            && mount.is_connected() && mount.tracking_is_on() && self.gates.anchored
            && around.vertical && !meridian_stops(around.meridian, self.gates.meridian_ack_side)
            && (!self.gates.off_axis_warns || self.gates.off_axis_confirmed)
    }

    /// Sets or takes back the acknowledgement of the meridian warning.
    pub fn acknowledge_meridian(&mut self, meridian: Meridian, acknowledged: bool)
        ensures
            *final(self) == (AcquireState {
                gates: Gates {
                    meridian_ack_side: if acknowledged {
                        meridian_side(meridian) as i8
                    } else {
                        0
                    },
                    ..old(self).gates
                },
                ..*old(self)
            }),
            acknowledged ==> !meridian_blocks(Some(meridian), final(self).gates.meridian_ack_side),
            !acknowledged && meridian.near ==> meridian_blocks(
                Some(meridian),
                final(self).gates.meridian_ack_side,
            ),
    {
        self.gates.meridian_ack_side = if !acknowledged {
            0
        } else if meridian.before {
            -1
        } else {
            1
        };
    }

    /// The confirmation of a stop goes away when there is nothing left to stop.
    pub fn refresh_stop_confirmation(&mut self)
        ensures
            *final(self) == (AcquireState {
                gates: Gates {
                    confirm_stop_open: old(self).gates.confirm_stop_open && old(self).live(),
                    ..old(self).gates
                },
                ..*old(self)
            }),
    {
        if !self.run_is_live() {
            self.gates.confirm_stop_open = false;
        }
    }

    /// The axis can be calibrated: nothing else is going on, and moving is safe.
    pub fn can_calibrate(&self) -> (r: bool)
        ensures
            r == (self.run is None && self.calibration is None && self.gates.motion_confirmed),
    {
        self.run.is_none() && self.calibration.is_none() && self.gates.motion_confirmed
    }

    /// Scans of the last run, while nothing is being reconstructed.
    pub fn can_reconstruct_last(&self) -> (scans: Option<usize>)
        ensures
            scans == (match self.last_session {
                Some(n) => if n > 0 && self.processing_since is None {
                    Some(n)
                } else {
                    None
                },
                None => None,
            }),
    {
        match self.last_session {
            Some(n) => if n > 0 && self.processing_since.is_none() {
                Some(n)
            } else {
                None
            },
            None => None,
        }
    }

    /// What a sweep travels in all: the run-up before the near limb, the span, and
    /// one margin behind the far limb.
    pub open spec fn spec_total_span(&self) -> int {
        let all = self.settings.scan_span + (RUN_UP_MARGINS + 1) * self.settings.limb_margin;
        if all > u64::MAX {
            u64::MAX as int
        } else {
            all
        }
    }

    pub fn total_span(&self) -> (span: u64)
        ensures
            span == self.spec_total_span(),
    {
        let margin: u128 = self.settings.limb_margin as u128;
        assert((RUN_UP_MARGINS + 1) * margin == 3 * margin) by (nonlinear_arith)
            requires
                RUN_UP_MARGINS == 2,
        ;
        let all: u128 = self.settings.scan_span as u128 + (RUN_UP_MARGINS + 1) as u128 * margin;
        if all > u64::MAX as u128 {
            u64::MAX
        } else {
            all as u64
        }
    }

    /// Time of one sweep with its margins, in milliseconds.
    pub open spec fn spec_sweep_ms(&self) -> int {
        travel_ms(
            clamped(self.spec_total_span(), SPAN_MIN as int, SPAN_MAX as int),
            rate_hundredths(self.settings.rate_index as int),
        )
    }

    pub fn sweep_ms(&self) -> (ms: u64)
        requires
            self.valid(),
        ensures
            ms == self.spec_sweep_ms(),
    {
        scan_duration(self.total_span(), self.settings.rate_index as u8)
    }

    /// Bytes that the configured run will write. `measured` is the frame rate of
    /// the camera in thousandths, zero while it is not known; `width` is that of
    /// a frame, where there is one.
    pub fn estimated_capture_bytes(&self, measured: u64, exposure_us: u32, width: Option<usize>) -> (bytes:
        u64)
        requires
            self.valid(),
        ensures
            bytes == bytes_for(
                self.spec_sweep_ms(),
                frame_rate(measured, exposure_us),
                match width {
                    Some(w) => w as int,
                    None => USUAL_WIDTH as int,
                },
                self.settings.capture_height as int,
                self.settings.scan_count as int,
            ),
    {
        let rate: u64 = if measured > 0 {
            measured
        } else {
            let exposure: u64 = if exposure_us == 0 {
                1
            } else {
                exposure_us as u64
            };
            let most: u64 = (1_000_000_000 + exposure - 1) / exposure;
            if most > RATE_CEILING {
                RATE_CEILING
            } else {
                most
            }
        };
        let across: u64 = match width {
            Some(w) => w as u64,
            None => USUAL_WIDTH,
        };
        capture_bytes(
            self.sweep_ms(),
            rate,
            across,
            self.settings.capture_height as u64,
            self.settings.scan_count as u64,
        )
    }

    // -- run ---------------------------------------------------------------

    /// Starts the reconstruction of a session.
    pub fn start_processing(&mut self, scans: usize, now: u64)
        ensures
            told(
                *old(self),
                *final(self),
                "Reconstructing scan(s) with the high-quality pipeline"@,
            ),
            final(self).outbox@ == old(self).outbox@.push(AcquireRequest::Reconstruct { scans }),
            *final(self) == (AcquireState {
                processing_since: Some(now),
                further: one_further(*old(self)),
                status: final(self).status,
                log: final(self).log,
                outbox: final(self).outbox,
                ..*old(self)
            }),
    {
        self.note("Reconstructing scan(s) with the high-quality pipeline");
        if self.processing_since.is_some() && self.further < usize::MAX {
            self.further = self.further + 1;
        }
        self.processing_since = Some(now);
        self.outbox.push(AcquireRequest::Reconstruct { scans });
    }

    fn finish_run(&mut self, scans: usize, session_dir: &str, now: u64)
        ensures
            finished(*old(self), *final(self), scans, session_dir@, now),
    {
        self.run = None;
        self.last_session = Some(scans);
        if self.auto_process {
            self.start_processing(scans, now);
        } else {
            let mut line = decimal_string(scans as u64);
            line.append(" scan(s) saved to ");
            line.append(session_dir);
            line.append(
                " — not reconstructed. Scan again while the seeing holds; reconstruct from the Reconstruct section when you are done.",
            );
            self.note(line.as_str());
        }
    }

    /// One look of the run at the world. A failure stops motion and recording
    /// and drops the run. A finished run is handed on.
    pub fn poll_scan(
        &mut self,
        mount: &mut MountState,
        input: ScanInput,
        recorder_status: &str,
        session_dir: &str,
    ) -> (event: PollEvent)
        requires
            old(self).valid(),
            input_sound(input),
        ensures
            final(self).valid(),
            scan_polled(
                *old(self),
                *final(self),
                *old(mount),
                *final(mount),
                input,
                recorder_status@,
                session_dir@,
                event,
            ),
    {
        let run: ScanRun = match self.run {
            None => {
                return PollEvent::Quiet;
            },
            Some(r) => r,
        };
        let i = ScanInput {
            nudge_done: mount.report.done,
            scan_count: self.settings.scan_count,
            anchored: self.gates.anchored,
            ..input
        };
        proof {
            crate::scan::crossing_stays_known(run, i);
        }
        match run.poll(i) {
            Err(failure) => {
                if failure.comes_after_saving() {
                    self.record(recorder_status);
                }
                let ghost logged = *self;
                assert(summary_logged(
                    failure.after_saving(),
                    *old(self),
                    logged,
                    recorder_status@,
                ));
                self.run = None;
                mount.stop_acquisition_motion();
                self.outbox.push(AcquireRequest::StopRecording);
                PollEvent::RunFailed(failure)
            },
            Ok(s) => {
                if s.took_nudge {
                    mount.take_acquisition_nudge_done();
                }
                assert(panel_read(s.took_nudge, *old(mount), *mount));
                if s.run.scan_index > run.scan_index {
                    self.record(recorder_status);
                }
                self.run = Some(s.run);
                let ghost logged = *self;
                assert(logged_step(*old(self), logged, s.run, recorder_status@));
                match s.action {
                    ScanAction::Wait => PollEvent::Status(s.status),
                    ScanAction::StopMotion => {
                        mount.stop_acquisition_motion();
                        PollEvent::Status(s.status)
                    },
                    ScanAction::StartRecording => {
                        self.outbox.push(
                            AcquireRequest::StartRecording { index: s.run.scan_index },
                        );
                        PollEvent::Status(s.status)
                    },
                    ScanAction::StopRecording => {
                        self.outbox.push(AcquireRequest::StopRecording);
                        PollEvent::Status(s.status)
                    },
                    ScanAction::Nudge { direction, duration_ms, rate } => {
                        match mount.start_acquisition_nudge(direction, duration_ms, rate) {
                            Ok(_) => PollEvent::Status(s.status),
                            Err(e) => {
                                self.run = None;
                                mount.stop_acquisition_motion();
                                self.outbox.push(AcquireRequest::StopRecording);
                                PollEvent::MountRefused(e)
                            },
                        }
                    },
                    ScanAction::Finish { verified } => {
                        if !verified {
                            self.record(
                                "Warning: re-centre motion completed, but camera signal was not verified",
                            );
                        }
                        assert(warned_unless(logged, *self, verified));
                        self.finish_run(s.run.scan_index, session_dir, i.now);
                        PollEvent::RunFinished
                    },
                }
            },
        }
    }

    /// The recorder refused to start: the run is over.
    pub fn recording_refused(&mut self, mount: &mut MountState, error: &str)
        requires
            old(self).valid(),
        ensures
            final(self).valid(),
            acquisition_stopped(*old(mount), *final(mount)),
            final(self).outbox@ == old(self).outbox@.push(AcquireRequest::StopRecording),
            told(*old(self), *final(self), "Acquisition failed: "@ + error@),
            *final(self) == (AcquireState {
                run: None,
                status: final(self).status,
                log: final(self).log,
                outbox: final(self).outbox,
                ..*old(self)
            }),
    {
        self.run = None;
        mount.stop_acquisition_motion();
        self.outbox.push(AcquireRequest::StopRecording);
        self.tell_run_failed(error);
    }
}

/// The world around the tab, beyond the mount.
#[derive(Clone, Copy, Debug, PartialEq, Eq)]
pub struct Surroundings {
    pub now: u64,
    pub streaming: bool,
    /// The dispersion runs vertically.
    pub vertical: bool,
    pub auto_exposure: bool,
    pub meridian: Option<Meridian>,
    /// Free bytes on the capture volume, as far as known.
    pub free: Option<u64>,
    /// Bytes that the run will write.
    pub needed: u64,
}

/// Where the Sun stands relative to the meridian.
#[derive(Clone, Copy, Debug, PartialEq, Eq, Structural)]
pub struct Meridian {
    pub before: bool,
    /// Within half an hour.
    pub near: bool,
}

/// The side of the meridian: -1 before, 1 after.
pub open spec fn meridian_side(m: Meridian) -> int {
    if m.before {
        -1
    } else {
        1
    }
}

/// Close to the meridian a scan needs an acknowledgement of this very side.
pub open spec fn meridian_blocks(m: Option<Meridian>, ack_side: i8) -> bool {
    m is Some && m->0.near && ack_side != meridian_side(m->0)
}

fn meridian_stops(m: Option<Meridian>, ack_side: i8) -> (r: bool)
    ensures
        r == meridian_blocks(m, ack_side),
{
    match m {
        Some(m) => {
            let side: i8 = if m.before {
                -1
            } else {
                1
            };
            m.near && ack_side != side
        },
        None => false,
    }
}

/// The words of the acknowledgement; `minutes` is the distance to the meridian.
pub fn meridian_ack_text(before: bool, minutes: &str) -> (text: String)
    ensures
        text@ == (if before {
            "Meridian in "@ + minutes@ + " min: this scan is supervised and will finish safely"@
        } else {
            "Meridian passed "@ + minutes@
                + " min ago: mount has flipped and tracking is verified"@
        }),
{
    if before {
        joined3(
            "Meridian in ",
            minutes,
            " min: this scan is supervised and will finish safely",
        )
    } else {
        joined3(
            "Meridian passed ",
            minutes,
            " min ago: mount has flipped and tracking is verified",
        )
    }
}

/// An acknowledgement before the meridian does not count behind it.
pub proof fn meridian_needs_new_acknowledgement(ack_side: i8)
    ensures
        meridian_blocks(Some(Meridian { before: true, near: true }), ack_side) || meridian_blocks(
            Some(Meridian { before: false, near: true }),
            ack_side,
        ),
        !meridian_blocks(None, ack_side),
{
}

pub open spec fn auto_exposure_text() -> Seq<char> {
    "turn auto-exposure OFF on the Focus tab: it re-times the sensor mid-scan and moves the brightness baseline the limb search depends on"@
}

/// A list of one issue, or of none.
pub open spec fn when(condition: bool, text: Seq<char>) -> Seq<Seq<char>> {
    if condition {
        seq![text]
    } else {
        seq![]
    }
}

pub open spec fn maybe(text: Option<Seq<char>>) -> Seq<Seq<char>> {
    match text {
        Some(t) => seq![t],
        None => seq![],
    }
}

/// What is not connected, running or set up.
pub open spec fn equipment_issues(mount: &MountState, around: &Surroundings) -> Seq<Seq<char>> {
    when(!mount.link.connected, "connect the ZWO mount on the Mount tab"@) + when(
        !around.streaming,
        "start the camera preview"@,
    ) + when(
        mount.link.connected && !(opt_text(mount.link.snapshot.tracking) == Some("On"@)),
        "turn mount tracking on"@,
    ) + when(!around.vertical, "set dispersion to Vertical on the Focus tab"@) + when(
        around.auto_exposure,
        auto_exposure_text(),
    )
}

fn list_equipment(list: &mut Vec<String>, mount: &MountState, around: &Surroundings)
    ensures
        texts(final(list)@) == texts(old(list)@) + equipment_issues(mount, around),
{
    let connected: bool = mount.is_connected();
    add_issue(list, !connected, "connect the ZWO mount on the Mount tab");
    add_issue(list, !around.streaming, "start the camera preview");
    add_issue(list, connected && !mount.tracking_is_on(), "turn mount tracking on");
    add_issue(list, !around.vertical, "set dispersion to Vertical on the Focus tab");
    add_issue(
        list,
        around.auto_exposure,
        "turn auto-exposure OFF on the Focus tab: it re-times the sensor mid-scan and moves the brightness baseline the limb search depends on",
    );
    assert(texts(list@) =~= texts(old(list)@) + equipment_issues(mount, around));
}

/// What stands against a scan now: the meridian, and the space on disk.
pub open spec fn margin_issues(around: &Surroundings, ack_side: i8, minutes: Seq<char>) -> Seq<
    Seq<char>,
> {
    maybe(
        if meridian_blocks(around.meridian, ack_side) {
            Some(
                if around.meridian->0.before {
                    "Sun reaches the meridian in "@ + minutes
                        + " min — review and acknowledge the meridian warning"@
                } else {
                    "Sun crossed the meridian "@ + minutes
                        + " min ago — confirm the mount has flipped and is tracking"@
                },
            )
        } else {
            None
        },
    ) + maybe(
        match around.free {
            Some(free) => if free < around.needed {
                Some(
                    "capture volume has "@ + size_text(free as nat)
                        + " free but this run needs about "@ + size_text(around.needed as nat)
                        + " — free space, choose another volume, or record fewer scans"@,
                )
            } else {
                None
            },
            None => None,
        },
    )
}

fn list_margins(list: &mut Vec<String>, around: &Surroundings, ack_side: i8, minutes: &str)
    ensures
        texts(final(list)@) == texts(old(list)@) + margin_issues(around, ack_side, minutes@),
{
    let blocked: bool = meridian_stops(around.meridian, ack_side);
    let meridian_text: String = if blocked {
        let before: bool = match around.meridian {
            Some(m) => m.before,
            None => false,
        };
        if before {
            joined3(
                "Sun reaches the meridian in ",
                minutes,
                " min — review and acknowledge the meridian warning",
            )
        } else {
            joined3(
                "Sun crossed the meridian ",
                minutes,
                " min ago — confirm the mount has flipped and is tracking",
            )
        }
    } else {
        String::new()
    };
    add_issue(list, blocked, meridian_text.as_str());
    let short: bool = match around.free {
        Some(free) => free < around.needed,
        None => false,
    };
    let storage_text: String = match around.free {
        Some(free) => {
            let mut t = joined3(
                "capture volume has ",
                human_bytes(free).as_str(),
                " free but this run needs about ",
            );
            t.append(human_bytes(around.needed).as_str());
            t.append(" — free space, choose another volume, or record fewer scans");
            t
        },
        None => String::new(),
    };
    add_issue(list, short, storage_text.as_str());
    assert(texts(list@) =~= texts(old(list)@) + margin_issues(around, ack_side, minutes@));
}

fn add_issue(list: &mut Vec<String>, condition: bool, text: &str)
    ensures
        texts(final(list)@) == texts(old(list)@) + when(condition, text@),
{
    if condition {
        list.push(text.to_owned());
    }
    assert(texts(list@) =~= texts(old(list)@) + when(condition, text@));
}

/// Texts with a separator between them.
pub open spec fn joined(parts: Seq<Seq<char>>, separator: Seq<char>) -> Seq<char>
    decreases parts.len(),
{
    if parts.len() == 0 {
        seq![]
    } else if parts.len() == 1 {
        parts[0]
    } else {
        joined(parts.drop_last(), separator) + separator + parts.last()
    }
}

fn join(parts: &Vec<String>, separator: &str) -> (text: String)
    ensures
        text@ == joined(texts(parts@), separator@),
{
    let mut text = String::new();
    let ghost all = texts(parts@);
    let mut i: usize = 0;
    assert(all.take(0) =~= Seq::<Seq<char>>::empty());
    while i < parts.len()
        invariant
            all == texts(parts@),
            i <= parts@.len(),
            text@ == joined(all.take(i as int), separator@),
        decreases parts@.len() - i,
    {
        assert(all.take(i + 1).drop_last() =~= all.take(i as int));
        assert(all.take(i + 1).last() == parts@[i as int]@);
        let ghost before = text@;
        if i > 0 {
            text.append(separator);
        }
        text.append(parts[i].as_str());
        proof {
            if i == 0 {
                assert(all.take(1)[0] == parts@[0]@);
                assert(text@ =~= parts@[0]@);
            }
        }
        i = i + 1;
    }
    assert(all.take(parts@.len() as int) =~= all);
    text
}

pub open spec fn seconds_between(since: u64, now: u64) -> nat {
    if now >= since {
        ((now - since) / 1000) as nat
    } else {
        0
    }
}

/// Minutes to the nearest whole one, to the even one from half a minute.
pub open spec fn whole_minutes(secs: nat) -> nat {
    let q = secs / 60;
    let r = secs % 60;
    if r < 30 || (r == 30 && q % 2 == 0) {
        q
    } else {
        q + 1
    }
}

/// How long something has been going on.
pub open spec fn waited_text(secs: nat) -> Seq<char> {
    if secs < 90 {
        " ("@ + decimal(secs) + " s so far)"@
    } else {
        " ("@ + decimal(whole_minutes(secs)) + " min so far)"@
    }
}

fn waited(secs: u64) -> (text: String)
    ensures
        text@ == waited_text(secs as nat),
{
    if secs < 90 {
        joined3(" (", decimal_string(secs).as_str(), " s so far)")
    } else {
        let q: u64 = secs / 60;
        let r: u64 = secs % 60;
        let minutes: u64 = if r < 30 || (r == 30 && q % 2 == 0) {
            q
        } else {
            q + 1
        };
        joined3(" (", decimal_string(minutes).as_str(), " min so far)")
    }
}

/// The mount panel after its report of a finished move was read.
pub open spec fn report_read(before: MountState, after: MountState) -> bool {
    after == MountState {
        report: crate::mount_panel::NudgeReport { done: false, ..before.report },
        ..before
    }
}

/// The tab after its calibration looked at the world.
pub open spec fn calibration_polled(
    before: AcquireState,
    after: AcquireState,
    mount_before: MountState,
    mount_after: MountState,
    now: u64,
    profile: Profile,
    event: PollEvent,
) -> bool {
    match before.calibration {
        None => event is Quiet && after == before && mount_after == mount_before,
        Some(phase) => {
            let looks = awaits_move(phase);
            exists|mid: MountState|
                {
                    &&& #[trigger] panel_read(looks, mount_before, mid)
                    &&& step_taken(
                        before,
                        after,
                        mid,
                        mount_after,
                        calibrated(phase, now, looks && mount_before.report.done, profile),
                        event,
                    )
                }
        },
    }
}

/// The tab after the calibration took a step.
pub open spec fn step_taken(
    before: AcquireState,
    after: AcquireState,
    mount_before: MountState,
    mount_after: MountState,
    step: CalStep,
    event: PollEvent,
) -> bool {
    let ended = AcquireState { calibration: None, ..before };
    match step {
        CalStep::Stay => event is Quiet && after == before && mount_after == mount_before,
        CalStep::Settle(next) => event is Quiet && after == AcquireState {
            calibration: Some(next),
            ..before
        } && mount_after == mount_before,
        CalStep::Probe(d, next) => probed(
            before,
            after,
            mount_before,
            mount_after,
            d,
            next,
            PollEvent::Quiet,
            event,
        ),
        CalStep::Axis { north, off_axis } => probed(
            AcquireState {
                settings: ScanSettings {
                    direction: if north {
                        Direction::North
                    } else {
                        Direction::East
                    },
                    ..before.settings
                },
                gates: Gates {
                    off_axis_warns: off_axis,
                    off_axis_confirmed: false,
                    ..before.gates
                },
                ..before
            },
            after,
            mount_before,
            mount_after,
            Direction::West,
            CalPhase::ReturnWest,
            PollEvent::AxisMeasured,
            event,
        ),
        CalStep::Done => event is CalibrationDone && after == ended && mount_after == mount_before,
        CalStep::NorthFailed => event is NorthFailed && after == ended && acquisition_stopped(
            mount_before,
            mount_after,
        ),
        CalStep::EastFailed => event is EastFailed && after == ended && acquisition_stopped(
            mount_before,
            mount_after,
        ),
    }
}

/// The panel, its report read or not.
pub open spec fn panel_read(read: bool, before: MountState, after: MountState) -> bool {
    if read {
        report_read(before, after)
    } else {
        after == before
    }
}

/// The tab after a probe was asked for: it goes on, or gives up where the mount
/// refuses.
pub open spec fn probed(
    before: AcquireState,
    after: AcquireState,
    mount_before: MountState,
    mount_after: MountState,
    direction: Direction,
    next: CalPhase,
    success: PollEvent,
    event: PollEvent,
) -> bool {
    exists|mid: MountState, started: Result<(), String>|
        {
            &&& #[trigger] nudge_started(
                mount_before,
                mid,
                direction,
                probe_ms(before.settings.probe),
                PROBE_RATE_INDEX,
                started,
            )
            &&& match started {
                Ok(_) => after == AcquireState { calibration: Some(next), ..before }
                    && mount_after == mid && event == success,
                Err(e) => after == AcquireState { calibration: None, ..before }
                    && acquisition_stopped(mid, mount_after) && event == PollEvent::MountRefused(e),
            }
        }
}

/// How many reconstructions run beside one that is started now.
pub open spec fn one_further(s: AcquireState) -> usize {
    if s.processing_since is Some && s.further < usize::MAX {
        (s.further + 1) as usize
    } else {
        s.further
    }
}

/// The tab after a reconstruction ended. Only the last one ends the wait, and a
/// run is left alone.
pub open spec fn one_reconstructed(before: AcquireState, after: AcquireState) -> bool {
    after == AcquireState {
        processing_since: if before.further > 0 {
            before.processing_since
        } else {
            None
        },
        further: if before.further > 0 {
            (before.further - 1) as usize
        } else {
            0
        },
        status: after.status,
        log: after.log,
        ..before
    }
}

/// The tab after a run ended: its scans are remembered, and reconstructed only
/// where that was asked for.
pub open spec fn finished(
    before: AcquireState,
    after: AcquireState,
    scans: usize,
    session_dir: Seq<char>,
    now: u64,
) -> bool {
    if before.auto_process {
        &&& told(before, after, "Reconstructing scan(s) with the high-quality pipeline"@)
        &&& after.outbox@ == before.outbox@.push(AcquireRequest::Reconstruct { scans })
        &&& after == AcquireState {
            run: None,
            last_session: Some(scans),
            processing_since: Some(now),
            further: one_further(before),
            status: after.status,
            log: after.log,
            outbox: after.outbox,
            ..before
        }
    } else {
        &&& told(
            before,
            after,
            decimal(scans as nat) + " scan(s) saved to "@ + session_dir
                + " — not reconstructed. Scan again while the seeing holds; reconstruct from the Reconstruct section when you are done."@,
        )
        &&& after == AcquireState {
            run: None,
            last_session: Some(scans),
            status: after.status,
            log: after.log,
            ..before
        }
    }
}

/// The tab after its run looked at the world.
pub open spec fn scan_polled(
    before: AcquireState,
    after: AcquireState,
    mount_before: MountState,
    mount_after: MountState,
    input: ScanInput,
    recorder_status: Seq<char>,
    session_dir: Seq<char>,
    event: PollEvent,
) -> bool {
    match before.run {
        None => event is Quiet && after == before && mount_after == mount_before,
        Some(run) => {
            let i = ScanInput {
                nudge_done: mount_before.report.done,
                scan_count: before.settings.scan_count,
                anchored: before.gates.anchored,
                ..input
            };
            match polled(run, i) {
                Err(failure) => exists|logged: AcquireState|
                    {
                        &&& #[trigger] summary_logged(
                            failure.after_saving(),
                            before,
                            logged,
                            recorder_status,
                        )
                        &&& event == PollEvent::RunFailed(failure)
                        &&& given_up(logged, after, mount_before, mount_after)
                    },
                Ok(s) => exists|logged: AcquireState, read: MountState|
                    {
                        &&& #[trigger] logged_step(
                            before,
                            logged,
                            s.run,
                            recorder_status,
                        )
                        &&& #[trigger] panel_read(s.took_nudge, mount_before, read)
                        &&& carried_out(
                            logged,
                            after,
                            read,
                            mount_after,
                            s.action,
                            s.status,
                            session_dir,
                            i.now,
                            event,
                        )
                    },
            }
        },
    }
}

/// The tab with the recorder's summary in the log where the last scan was saved
/// before its run failed.
pub open spec fn summary_logged(
    saved: bool,
    before: AcquireState,
    after: AcquireState,
    recorder_status: Seq<char>,
) -> bool {
    &&& texts(after.log@) == (if saved {
        texts(before.log@).push(recorder_status)
    } else {
        texts(before.log@)
    })
    &&& after == AcquireState { log: after.log, ..before }
}

/// The tab with the next state of its run, and the recorder's summary in the
/// log where a scan was saved.
pub open spec fn logged_step(
    before: AcquireState,
    after: AcquireState,
    run: ScanRun,
    recorder_status: Seq<char>,
) -> bool {
    &&& texts(after.log@) == (if run.scan_index > before.run->0.scan_index {
        texts(before.log@).push(recorder_status)
    } else {
        texts(before.log@)
    })
    &&& after == AcquireState { run: Some(run), log: after.log, ..before }
}

/// What a run asked for is done.
pub open spec fn carried_out(
    before: AcquireState,
    after: AcquireState,
    mount_before: MountState,
    mount_after: MountState,
    action: ScanAction,
    status: ScanStatus,
    session_dir: Seq<char>,
    now: u64,
    event: PollEvent,
) -> bool {
    match action {
        ScanAction::Wait => event == PollEvent::Status(status) && after == before && mount_after
            == mount_before,
        ScanAction::StopMotion => event == PollEvent::Status(status) && after == before
            && acquisition_stopped(mount_before, mount_after),
        ScanAction::StartRecording => {
            &&& event == PollEvent::Status(status)
            &&& mount_after == mount_before
            &&& after.outbox@ == before.outbox@.push(
                AcquireRequest::StartRecording { index: before.run->0.scan_index },
            )
            &&& after == AcquireState { outbox: after.outbox, ..before }
        },
        ScanAction::StopRecording => {
            &&& event == PollEvent::Status(status)
            &&& mount_after == mount_before
            &&& after.outbox@ == before.outbox@.push(AcquireRequest::StopRecording)
            &&& after == AcquireState { outbox: after.outbox, ..before }
        },
        ScanAction::Nudge { direction, duration_ms, rate } => exists|
            mid: MountState,
            started: Result<(), String>,
        |
            {
                &&& #[trigger] nudge_started(
                    mount_before,
                    mid,
                    direction,
                    duration_ms,
                    rate,
                    started,
                )
                &&& match started {
                    Ok(_) => event == PollEvent::Status(status) && after == before && mount_after
                        == mid,
                    Err(e) => event == PollEvent::MountRefused(e) && given_up(
                        before,
                        after,
                        mid,
                        mount_after,
                    ),
                }
            },
        ScanAction::Finish { verified } => {
            &&& event is RunFinished
            &&& mount_after == mount_before
            &&& exists|warned: AcquireState|
                {
                    &&& #[trigger] warned_unless(before, warned, verified)
                    &&& finished(
                        warned,
                        after,
                        before.run->0.scan_index,
                        session_dir,
                        now,
                    )
                }
        },
    }
}

/// The tab with a warning in the log where the way back was not verified.
pub open spec fn warned_unless(before: AcquireState, after: AcquireState, verified: bool) -> bool {
    &&& texts(after.log@) == (if verified {
        texts(before.log@)
    } else {
        texts(before.log@).push(
            "Warning: re-centre motion completed, but camera signal was not verified"@,
        )
    })
    &&& after == AcquireState { log: after.log, ..before }
}

/// The confirmation shows a scan as ready only where no issue is left but a run
/// or a calibration, the automatic exposure or the space on disk. A running
/// reconstruction is no issue.
pub proof fn ready_leaves_few_issues(
    s: AcquireState,
    mount: &MountState,
    around: &Surroundings,
    minutes: Seq<char>,
)
    requires
        s.gates.prepared_confirmed && s.gates.motion_confirmed && around.streaming,
        mount.link.connected && opt_text(mount.link.snapshot.tracking) == Some("On"@),
        s.gates.anchored && around.vertical,
        !meridian_blocks(around.meridian, s.gates.meridian_ack_side),
        !s.gates.off_axis_warns || s.gates.off_axis_confirmed,
        s.run is None && s.calibration is None,
        !around.auto_exposure,
        around.free matches Some(free) ==> free >= around.needed,
    ensures
        s.issues(mount, around, minutes) == Seq::<Seq<char>>::empty(),
{
    assert(s.issues(mount, around, minutes) =~= Seq::<Seq<char>>::empty());
}

/// Whatever ends a run before its time also stops the mount and the recorder.
pub proof fn failures_stop_everything(
    before: AcquireState,
    after: AcquireState,
    mount_before: MountState,
    mount_after: MountState,
    input: ScanInput,
    recorder_status: Seq<char>,
    session_dir: Seq<char>,
    event: PollEvent,
)
    requires
        scan_polled(
            before,
            after,
            mount_before,
            mount_after,
            input,
            recorder_status,
            session_dir,
            event,
        ),
        before.run is Some,
        event is RunFailed || event is MountRefused,
        mount_before.link.worker_running,
    ensures
        after.run is None,
        after.outbox@.len() > 0 && after.outbox@.last() == AcquireRequest::StopRecording,
        mount_after.outbox@.len() > 0 && mount_after.outbox@.last()
            == crate::mount_panel::Request::Worker(WorkerCommand::StopAcquisition),
{
}

/// Bytes that scans of such a duration will write: two bytes a pixel at a rate
/// in thousandths of a frame per second, a quarter again, and headroom.
pub open spec fn bytes_for(scan_ms: int, rate: int, width: int, height: int, scans: int) -> int {
    let rows = if height == 0 {
        1
    } else {
        height
    };
    let total = (scan_ms + PRE_ROLL_MS + POST_ROLL_MS) * rate * width * rows * scans * 2 * 5
        / 4_000_000 + CAPTURE_HEADROOM;
    if total > u64::MAX {
        u64::MAX as int
    } else {
        total
    }
}

/// Bytes that scans of such a duration will write.
pub fn capture_bytes(
    scan_ms: u64,
    frames_per_kilosecond: u64,
    width: u64,
    height: u64,
    scans: u64,
) -> (bytes: u64)
    ensures
        bytes == bytes_for(
            scan_ms as int,
            frames_per_kilosecond as int,
            width as int,
            height as int,
            scans as int,
        ),
{
    let rows: u64 = if height == 0 {
        1
    } else {
        height
    };
    let time: u128 = scan_ms as u128 + PRE_ROLL_MS as u128 + POST_ROLL_MS as u128;
    proof {
        let (t, r, w) = (time as int, frames_per_kilosecond as int, width as int);
        lemma_product(t, r);
        lemma_product(t * r, w);
        lemma_product(t * r * w, rows as int);
        lemma_capped(t * r, w);
        lemma_capped(t * r * w, rows as int);
        lemma_capped(t * r * w * rows, scans as int);
    }
    let exposed: u128 = capped_product(time, frames_per_kilosecond);
    let wide: u128 = capped_product(exposed, width);
    let frames: u128 = capped_product(wide, rows);
    let all: u128 = capped_product(frames, scans);
    let total: u128 = all * 2 * 5 / 4_000_000 + CAPTURE_HEADROOM as u128;
    if total > u64::MAX as u128 {
        u64::MAX
    } else {
        total as u64
    }
}

/// Width of a frame that has not been seen yet.
pub const USUAL_WIDTH: u64 = 4_000;

/// No camera is taken to be faster than this, in thousandths of a frame per
/// second.
pub const RATE_CEILING: u64 = 120_000;

/// Frame rate of a recording in thousandths: the one that was measured, else
/// what the exposure allows, up to the ceiling. A fraction counts as a whole.
pub open spec fn frame_rate(measured: u64, exposure_us: u32) -> int {
    let exposure = if exposure_us == 0 {
        1
    } else {
        exposure_us as int
    };
    let most = (1_000_000_000 + exposure - 1) / exposure;
    if measured > 0 {
        measured as int
    } else if most > RATE_CEILING {
        RATE_CEILING as int
    } else {
        most
    }
}

/// So many pixels fill more bytes than 64 bits can count.
pub const PIXEL_CAP: u128 = 0x6_1A80_0000_0000_0000_0000;

pub open spec fn capped(n: int) -> int {
    if n > PIXEL_CAP {
        PIXEL_CAP as int
    } else {
        n
    }
}

fn capped_product(a: u128, b: u64) -> (r: u128)
    requires
        a <= PIXEL_CAP,
    ensures
        r == capped(a * b),
{
    if a == 0 {
        return 0;
    }
    let most: u128 = PIXEL_CAP / a;
    proof {
        let (x, y, z) = (a as int, b as int, most as int);
        vstd::arithmetic::div_mod::lemma_fundamental_div_mod(PIXEL_CAP as int, x);
        vstd::arithmetic::div_mod::lemma_mod_bound(PIXEL_CAP as int, x);
        assert(y > z ==> x * y > PIXEL_CAP) by (nonlinear_arith)
            requires
                PIXEL_CAP == x * z + PIXEL_CAP as int % x,
                PIXEL_CAP as int % x < x,
                x > 0,
        ;
        assert(y <= z ==> x * y <= PIXEL_CAP) by (nonlinear_arith)
            requires
                PIXEL_CAP == x * z + PIXEL_CAP as int % x,
                0 <= PIXEL_CAP as int % x,
                x > 0,
        ;
    }
    if b as u128 > most {
        PIXEL_CAP
    } else {
        a * b as u128
    }
}

/// Capping in between changes nothing.
proof fn lemma_capped(n: int, b: int)
    requires
        0 <= n,
        0 <= b,
    ensures
        capped(capped(n) * b) == capped(n * b),
{
    if n > PIXEL_CAP && b > 0 {
        assert(PIXEL_CAP * b >= PIXEL_CAP && n * b >= PIXEL_CAP * b) by (nonlinear_arith)
            requires
                n > PIXEL_CAP,
                b > 0,
        ;
    } else if b == 0 {
        assert(capped(n) * b == 0 && n * b == 0) by (nonlinear_arith)
            requires
                b == 0,
        ;
    }
}

proof fn lemma_product(a: int, b: int)
    requires
        0 <= a,
        0 <= b,
    ensures
        0 <= a * b,
{
    assert(0 <= a * b) by (nonlinear_arith)
        requires
            0 <= a,
            0 <= b,
    ;
}

/// Labels of the science rates.
pub fn acquisition_rate_label(index: usize) -> (text: &'static str)
    requires
        index < ACQUISITION_RATE_COUNT,
    ensures
        text@ == (if index == 0 {
            "0.25×"@
        } else if index == 1 {
            "0.5×"@
        } else if index == 2 {
            "1×"@
        } else if index == 3 {
            "2×"@
        } else if index == 4 {
            "4× · recommended"@
        } else if index == 5 {
            "8×"@
        } else if index == 6 {
            "20×"@
        } else {
            "60×"@
        }),
{
    match index {
        0 => "0.25×",
        1 => "0.5×",
        2 => "1×",
        3 => "2×",
        4 => "4× · recommended",
        5 => "8×",
        6 => "20×",
        _ => "60×",
    }
}

// ---------------------------------------------------------------------------
// What an acquisition promises
// ---------------------------------------------------------------------------

/// The calibration chooses the axis along which the profile shifted less: that one
/// runs across the slit. North is chosen exactly where its shift was not the larger
/// one, and an off-axis sensor has to be confirmed anew.
pub proof fn calibration_chooses_the_axis_across_the_slit(
    before: AcquireState,
    after: AcquireState,
    mount_before: MountState,
    mount_after: MountState,
    until: u64,
    now: u64,
    profile: Profile,
    event: PollEvent,
)
    requires
        calibration_polled(before, after, mount_before, mount_after, now, profile, event),
        before.calibration == Some(CalPhase::SettleEast(until)),
        now >= until,
        profile is Shifted,
    ensures
        profile->north_first ==> after.settings.direction == Direction::North,
        !profile->north_first ==> after.settings.direction == Direction::East,
        after.settings == (ScanSettings { direction: after.settings.direction, ..before.settings }),
        after.gates.off_axis_warns == profile->off_axis,
        !after.gates.off_axis_confirmed,
        after.calibration is Some ==> after.calibration == Some(CalPhase::ReturnWest),
{
}

/// Nothing but a finished comparison changes the direction of the scans.
pub proof fn direction_changes_only_by_comparison(
    before: AcquireState,
    after: AcquireState,
    mount_before: MountState,
    mount_after: MountState,
    now: u64,
    profile: Profile,
    event: PollEvent,
)
    requires
        calibration_polled(before, after, mount_before, mount_after, now, profile, event),
        !(profile is Shifted) || !(before.calibration is Some && before.calibration->0 is SettleEast
            && now >= before.calibration->0->SettleEast_0),
    ensures
        after.settings == before.settings,
        after.gates == before.gates,
        after.run == before.run,
{
}

/// The panel takes a move: the mount is there, and nothing else moves.
pub open spec fn panel_free(m: MountState) -> bool {
    m.link.connected && m.link.worker_running && !crate::mount_panel::busy(m)
}

/// The last request is a probe: sixty times sidereal, without losing the Sun.
pub open spec fn probe_asked(m: MountState, direction: Direction, duration_ms: u64) -> bool {
    m.outbox@.len() > 0 && m.outbox@.last() == crate::mount_panel::Request::Worker(
        WorkerCommand::Nudge { direction, duration_ms, rate: 7, ensure_tracking: true },
    )
}

/// Every probe is taken back: north by south and east by west, by moves of the same
/// length, each after the one before it has ended and settled. So a calibration
/// leaves the mount where it was.
pub proof fn probes_are_taken_back(
    before: AcquireState,
    after: AcquireState,
    mount_before: MountState,
    mount_after: MountState,
    now: u64,
    profile: Profile,
    event: PollEvent,
)
    requires
        calibration_polled(before, after, mount_before, mount_after, now, profile, event),
        before.calibration is Some,
        panel_free(mount_before),
        now <= CLOCK_LIMIT_MS,
    ensures
        ({
            let phase = before.calibration->0;
            let asked = mount_after.outbox@ != mount_before.outbox@;
            let done = mount_before.report.done;
            let settle = after.calibration;
            match phase {
                CalPhase::MoveNorth => !asked && if done {
                    settle matches Some(CalPhase::SettleNorth(t)) && t == now + 1_200
                } else {
                    after == before
                },
                CalPhase::SettleNorth(until) => {
                    &&& (now < until || profile is Stale ==> after == before && !asked)
                    &&& (now >= until && profile is Shifted ==> after.calibration == Some(
                        CalPhase::ReturnSouth,
                    ) && probe_asked(mount_after, Direction::South, probe_ms(before.settings.probe)))
                    &&& (now >= until && profile is Uncorrelated ==> event is NorthFailed
                        && after.calibration is None)
                },
                CalPhase::ReturnSouth => !asked && if done {
                    settle matches Some(CalPhase::SettleReturn(t)) && t == now + 1_200
                } else {
                    after == before
                },
                CalPhase::SettleReturn(until) => {
                    &&& (now < until ==> after == before && !asked)
                    &&& (now >= until ==> after.calibration == Some(CalPhase::MoveEast)
                        && probe_asked(mount_after, Direction::East, probe_ms(before.settings.probe)))
                },
                CalPhase::MoveEast => !asked && if done {
                    settle matches Some(CalPhase::SettleEast(t)) && t == now + 1_200
                } else {
                    after == before
                },
                CalPhase::SettleEast(until) => {
                    &&& (now < until || profile is Stale ==> after == before && !asked)
                    &&& (now >= until && profile is Shifted ==> after.calibration == Some(
                        CalPhase::ReturnWest,
                    ) && probe_asked(mount_after, Direction::West, probe_ms(before.settings.probe)) && event is AxisMeasured)
                    &&& (now >= until && profile is Uncorrelated ==> event is EastFailed
                        && after.calibration is None)
                },
                CalPhase::ReturnWest => !asked && if done {
                    settle matches Some(CalPhase::SettleFinal(t)) && t == now + 1_200
                } else {
                    after == before
                },
                CalPhase::SettleFinal(until) => !asked && if now >= until {
                    event is CalibrationDone && after.calibration is None
                } else {
                    after == before
                },
            }
        }),
{
}

/// A probe is between a hundredth and fifteen hundredths of a degree long, as it is
/// set; at sixty times sidereal that is a quarter of a degree per second.
pub proof fn probes_are_as_long_as_set(probe: u64)
    ensures
        10_000 <= probe <= 150_000 ==> 0 <= probe - probe_ms(probe) * 250 < 250,
        probe < 10_000 ==> probe_ms(probe) == 40,
        probe > 150_000 ==> probe_ms(probe) == 600,
{
}

/// What a run asks for reaches the mount and the recorder as it was asked for: a
/// move with its direction, duration and rate, without losing the Sun; the start of
/// a recording with the number of the scan.
pub proof fn runs_are_carried_out(
    before: AcquireState,
    after: AcquireState,
    mount_before: MountState,
    mount_after: MountState,
    input: ScanInput,
    recorder_status: Seq<char>,
    session_dir: Seq<char>,
    event: PollEvent,
    s: ScanStep,
)
    requires
        scan_polled(
            before,
            after,
            mount_before,
            mount_after,
            input,
            recorder_status,
            session_dir,
            event,
        ),
        before.run is Some,
        panel_free(mount_before),
        polled(
            before.run->0,
            ScanInput {
                nudge_done: mount_before.report.done,
                scan_count: before.settings.scan_count,
                anchored: before.gates.anchored,
                ..input
            },
        ) == Ok::<ScanStep, ScanFailure>(s),
    ensures
        s.action matches ScanAction::Nudge { direction, duration_ms, rate } ==> {
            &&& after.run == Some(s.run)
            &&& after.outbox@ == before.outbox@
            &&& mount_after.outbox@.len() == mount_before.outbox@.len() + 1
            &&& mount_after.outbox@.last() matches crate::mount_panel::Request::Worker(
                WorkerCommand::Nudge {
                    direction: d,
                    duration_ms: ms,
                    rate: r,
                    ensure_tracking,
                },
            ) && d == direction && ms == (if duration_ms == 0 {
                1
            } else {
                duration_ms
            }) && (rate <= 9 ==> r == rate) && ensure_tracking
        },
        s.action == ScanAction::StartRecording ==> after.run == Some(s.run)
            && after.outbox@.len() == before.outbox@.len() + 1 && after.outbox@.last() == (
        AcquireRequest::StartRecording { index: s.run.scan_index }) && mount_after.outbox@
            == mount_before.outbox@,
        s.action == ScanAction::StopRecording ==> after.run == Some(s.run)
            && after.outbox@.len() == before.outbox@.len() + 1 && after.outbox@.last()
            == AcquireRequest::StopRecording && mount_after.outbox@ == mount_before.outbox@,
        s.action == ScanAction::StopMotion ==> after.run == Some(s.run) && after.outbox@
            == before.outbox@ && mount_after.outbox@.len() == mount_before.outbox@.len() + 1
            && mount_after.outbox@.last() == crate::mount_panel::Request::Worker(
            WorkerCommand::StopAcquisition,
        ),
        s.action == ScanAction::Wait ==> after.run == Some(s.run) && after.outbox@
            == before.outbox@ && mount_after.outbox@ == mount_before.outbox@,
        s.action is Finish ==> {
            &&& after.run is None && after.last_session == Some(s.run.scan_index)
            &&& event is RunFinished && mount_after.outbox@ == mount_before.outbox@
            &&& (before.auto_process ==> after.outbox@.len() == before.outbox@.len() + 1
                && after.outbox@.last() == (AcquireRequest::Reconstruct {
                scans: s.run.scan_index,
            }))
            &&& (!before.auto_process ==> after.outbox@ == before.outbox@)
        },
{
}

/// A run believes the panel alone: before the panel reports the end of a move, a run
/// that waits for it stays where it is.
pub proof fn runs_believe_the_panel(
    before: AcquireState,
    after: AcquireState,
    mount_before: MountState,
    mount_after: MountState,
    input: ScanInput,
    recorder_status: Seq<char>,
    session_dir: Seq<char>,
    event: PollEvent,
)
    requires
        scan_polled(
            before,
            after,
            mount_before,
            mount_after,
            input,
            recorder_status,
            session_dir,
            event,
        ),
        before.run is Some,
        before.run->0.phase == RunPhase::PrepositionMoving || before.run->0.phase
            == RunPhase::PrepositionMargin || before.run->0.phase == RunPhase::InterScanMargin
            || before.run->0.phase == RunPhase::Recentering,
    ensures
        !mount_before.report.done ==> after.run == before.run && mount_after == mount_before
            && after.outbox@ == before.outbox@,
        mount_before.report.done ==> after.run is Some && after.run->0.phase
            != before.run->0.phase && !mount_after.report.done,
{
    let i = ScanInput {
        nudge_done: mount_before.report.done,
        scan_count: before.settings.scan_count,
        anchored: before.gates.anchored,
        ..input
    };
    crate::scan::moves_are_waited_for(before.run->0, i);
}

/// A calibration or a scan is let through exactly when the mount is connected and
/// tracks, the camera streams with a vertical dispersion and a fixed exposure, a line
/// is selected, the meridian is not in the way and nothing is under way yet.
pub proof fn nothing_starts_unprepared(
    s: AcquireState,
    mount: &MountState,
    around: &Surroundings,
    minutes: Seq<char>,
)
    ensures
        s.refusal(mount, around, minutes) is None <==> {
            &&& mount.link.connected
            &&& opt_text(mount.link.snapshot.tracking) == Some("On"@)
            &&& around.streaming && around.vertical && !around.auto_exposure
            &&& s.gates.anchored
            &&& !(around.meridian is Some && around.meridian->0.near && s.gates.meridian_ack_side
                != (if around.meridian->0.before {
                -1i8
            } else {
                1i8
            }))
            &&& s.run is None && s.calibration is None
        },
        s.calibration_refusal(mount, around, minutes, true) is None <==> s.refusal(
            mount,
            around,
            minutes,
        ) is None && s.gates.prepared_confirmed && s.gates.motion_confirmed,
        s.calibration_refusal(mount, around, minutes, false) is Some,
        s.issues(mount, around, minutes).len() == 0 <==> {
            &&& s.refusal(mount, around, minutes) is None
            &&& s.gates.prepared_confirmed && s.gates.motion_confirmed
            &&& (s.gates.off_axis_warns ==> s.gates.off_axis_confirmed)
            &&& (around.free matches Some(free) ==> free >= around.needed)
        },
{
}

/// Close to the meridian an acknowledgement counts for its own side only, and far
/// from it none is needed.
pub proof fn acknowledgements_count_for_one_side(m: Meridian, ack_side: i8)
    ensures
        m.near && ack_side == 0 ==> meridian_blocks(Some(m), ack_side),
        m.near ==> (meridian_blocks(Some(m), ack_side) <==> ack_side != meridian_side(m)),
        !m.near ==> !meridian_blocks(Some(m), ack_side),
        m.before ==> meridian_side(m) == -1,
        !m.before ==> meridian_side(m) == 1,
{
}

/// Reconstructions that run.
pub open spec fn running_jobs(s: AcquireState) -> int {
    if s.processing_since is None {
        0
    } else {
        s.further + 1
    }
}

/// One job more runs after a run whose scans are reconstructed, one fewer after the
/// end of one, and the tab says that it waits exactly while one runs.
pub proof fn reconstructions_are_counted(
    before: AcquireState,
    after: AcquireState,
    scans: usize,
    session_dir: Seq<char>,
    now: u64,
)
    requires
        before.further < usize::MAX,
        before.processing_since is None ==> before.further == 0,
    ensures
        finished(before, after, scans, session_dir, now) ==> running_jobs(after) == running_jobs(
            before,
        ) + (if before.auto_process {
            1int
        } else {
            0
        }) && after.run is None && after.last_session == Some(scans),
        one_reconstructed(before, after) && running_jobs(before) > 0 ==> running_jobs(after)
            == running_jobs(before) - 1 && after.run == before.run,
        one_reconstructed(before, after) && running_jobs(before) == 0 ==> running_jobs(after) == 0,
{
}

/// A sweep of the estimate travels its span, two margins before the near limb and one
/// behind the far one, at the rate that is set.
pub proof fn estimate_counts_the_margins(s: AcquireState)
    requires
        s.valid(),
        s.settings.scan_span + 3 * s.settings.limb_margin <= 2_000_000,
        s.settings.scan_span >= 550_000,
    ensures
        s.spec_total_span() == s.settings.scan_span + 3 * s.settings.limb_margin,
        ({
            let speed = rate_hundredths(s.settings.rate_index as int);
            0 <= 24 * s.spec_total_span() - s.spec_sweep_ms() * speed < speed
        }),
{
    let speed = rate_hundredths(s.settings.rate_index as int);
    let n = s.spec_total_span() * 24;
    vstd::arithmetic::div_mod::lemma_fundamental_div_mod(n, speed);
    assert((n / speed) * speed == speed * (n / speed)) by (nonlinear_arith);
}

/// The estimate is a quarter more than what the frames of all scans fill at two bytes
/// a pixel, seven tenths of a second of pre- and post-roll included, and a quarter of
/// a gibibyte beside.
pub proof fn estimate_is_a_quarter_more(ms: int, rate: int, width: int, height: int, scans: int)
    requires
        0 <= ms && 0 <= rate && 0 <= width && 0 < height && 0 <= scans,
        bytes_for(ms, rate, width, height, scans) < u64::MAX,
    ensures
        ({
            let pixels = (ms + 700) * rate * width * height * scans;
            let rest = 10 * pixels - 4_000_000 * (bytes_for(ms, rate, width, height, scans)
                - 268_435_456);
            0 <= rest < 4_000_000
        }),
{
    let pixels = (ms + 700) * rate * width * height * scans;
    assert(pixels * 2 * 5 == 10 * pixels) by (nonlinear_arith);
    assert(bytes_for(ms, rate, width, height, scans) == pixels * 2 * 5 / 4_000_000 + 268_435_456);
}

/// A measured frame rate is taken as it is; otherwise frames follow each other as the
/// exposure lets them, a hundred and twenty a second at most.
pub proof fn frame_rate_follows_the_exposure(measured: u64, exposure_us: u32)
    ensures
        measured > 0 ==> frame_rate(measured, exposure_us) == measured,
        measured == 0 && exposure_us >= 8_334 ==> 0 <= frame_rate(measured, exposure_us)
            * exposure_us - 1_000_000_000 < exposure_us,
        measured == 0 && exposure_us < 8_334 ==> frame_rate(measured, exposure_us) == 120_000,
{
    if measured == 0 {
        let e: int = if exposure_us == 0 {
            1
        } else {
            exposure_us as int
        };
        let n = 1_000_000_000 + e - 1;
        vstd::arithmetic::div_mod::lemma_fundamental_div_mod(n, e);
        let q = n / e;
        assert(q * e == e * q) by (nonlinear_arith);
        if exposure_us >= 8_334 {
            assert(q <= 120_000) by (nonlinear_arith)
                requires
                    e >= 8_334,
                    q * e <= 1_000_000_000 + e - 1,
            ;
        } else {
            assert(q >= 120_000) by (nonlinear_arith)
                requires
                    1 <= e < 8_334,
                    q * e > 1_000_000_000 - 1,
            ;
        }
    }
}

/// Without a run and without a calibration a poll does nothing at all.
pub proof fn idle_tabs_do_nothing(
    before: AcquireState,
    after: AcquireState,
    mount_before: MountState,
    mount_after: MountState,
    input: ScanInput,
    profile: Profile,
    recorder_status: Seq<char>,
    session_dir: Seq<char>,
    event: PollEvent,
)
    ensures
        before.run is None && scan_polled(
            before,
            after,
            mount_before,
            mount_after,
            input,
            recorder_status,
            session_dir,
            event,
        ) ==> event is Quiet && after == before && mount_after == mount_before,
        before.calibration is None && calibration_polled(
            before,
            after,
            mount_before,
            mount_after,
            input.now,
            profile,
            event,
        ) ==> event is Quiet && after == before && mount_after == mount_before,
{
}

/// Minutes are told to the nearest one, and half a minute to the even one.
pub proof fn minutes_are_told_to_the_nearest(secs: nat)
    ensures
        -30 <= 60 * whole_minutes(secs) - secs <= 30,
        secs % 60 == 30 ==> whole_minutes(secs) % 2 == 0,
{
}

/// A reconstruction holds neither the mount nor the camera: what is live is a calibration
/// or a run that is not complete.
pub proof fn only_motion_is_live(s: AcquireState)
    ensures
        s.calibration is Some ==> s.live(),
        s.run is Some && s.run->0.phase != RunPhase::Complete ==> s.live(),
        s.calibration is None && (s.run is None || s.run->0.phase == RunPhase::Complete)
            ==> !s.live(),
        s.calibration is None && s.run is None ==> s.held_by() is None,
        s.calibration is Some || s.run is Some ==> s.held_by() is Some,
{
}

/// Whatever is given up for a reason stops the mount and the recorder, leaves neither a
/// run nor a calibration, and says why.
pub proof fn giving_up_stops_everything(
    before: AcquireState,
    after: AcquireState,
    mount_before: MountState,
    mount_after: MountState,
    reason: Seq<char>,
)
    requires
        aborted(before, after, mount_before, mount_after, reason),
        mount_before.link.worker_running,
    ensures
        after.run is None && after.calibration is None && !after.live(),
        after.outbox@ == before.outbox@.push(AcquireRequest::StopRecording),
        mount_after.outbox@ == mount_before.outbox@.push(
            crate::mount_panel::Request::Worker(WorkerCommand::StopAcquisition),
        ),
        after.status@ == reason,
        after.settings == before.settings && after.last_session == before.last_session,
{
}

} // verus!
