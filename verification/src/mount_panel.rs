//! The mount panel: what its buttons do, and how it takes the worker's reports.
//!
//! The panel never talks to the mount itself. It queues requests, in the order
//! in which they are to be made; the application forwards them.

use crate::auto_center::{
    AutoCenter, AutoCenterOrigin, AutoOutput, AutoStep, CLOCK_LIMIT_MS, MAX_RINGS,
};
use crate::double::{hundredths_text, seconds_text};
use crate::lx200::Pointing;
use crate::mount::{rate, rate_label, Direction, AUTO_CENTER_RATE, RATE_COUNT};
use crate::mount_worker::{MountSnapshot, WorkerCommand, WorkerMessage};
use crate::text::{
    contains_char, decimal, decimal_string, joined2, joined3, opt_text, same_text, trim, trimmed,
};
use vstd::prelude::*;
use vstd::string::{StrSliceExecFns, StringExecFns};

verus! {

/// The status is polled this often.
pub const POLL_INTERVAL_MS: u64 = 750;

/// Ports are looked for this often while nothing is connected.
pub const SCAN_INTERVAL_MS: u64 = 3_000;

/// Shortest and longest timed jog.
pub const JOG_MIN_MS: u64 = 100;

pub const JOG_MAX_MS: u64 = 120_000;

/// A serial port.
pub struct PortInfo {
    pub name: String,
    pub detail: String,
    pub is_zwo: bool,
}

/// A long move that waits for a confirmation.
#[derive(Clone, Copy, Debug, PartialEq, Eq, Structural)]
pub enum ConfirmedMotion {
    GoHome,
    Park,
}

impl ConfirmedMotion {
    pub open spec fn spec_title(self) -> Seq<char> {
        match self {
            ConfirmedMotion::GoHome => "Confirm Home"@,
            ConfirmedMotion::Park => "Confirm Park"@,
        }
    }

    pub fn title(self) -> (text: &'static str)
        ensures
            text@ == self.spec_title(),
    {
        match self {
            ConfirmedMotion::GoHome => "Confirm Home",
            ConfirmedMotion::Park => "Confirm Park",
        }
    }

    pub fn detail(self) -> (text: &'static str)
        ensures
            text@ == match self {
                ConfirmedMotion::GoHome =>
                    "The mount will move both axes to its mechanical home position."@,
                ConfirmedMotion::Park =>
                    "The mount will move to its configured park position (equatorial mode only)."@,
            },
    {
        match self {
            ConfirmedMotion::GoHome =>
                "The mount will move both axes to its mechanical home position.",
            ConfirmedMotion::Park =>
                "The mount will move to its configured park position (equatorial mode only).",
        }
    }

    pub open spec fn spec_command(self) -> WorkerCommand {
        match self {
            ConfirmedMotion::GoHome => WorkerCommand::GoHome,
            ConfirmedMotion::Park => WorkerCommand::Park,
        }
    }

    pub fn command(self) -> (c: WorkerCommand)
        ensures
            c == self.spec_command(),
    {
        match self {
            ConfirmedMotion::GoHome => WorkerCommand::GoHome,
            ConfirmedMotion::Park => WorkerCommand::Park,
        }
    }
}

/// A timed jog that runs.
#[derive(Clone, Copy, Debug, PartialEq, Eq, Structural)]
pub struct TimedJog {
    pub direction: Direction,
    pub started: u64,
    pub duration_ms: u64,
}

/// Something that the panel asks for.
pub enum Request {
    /// A request to the mount worker.
    Worker(WorkerCommand),
    /// Give the camera back the settings it had before a Sun search.
    RestoreCamera,
    /// End a running recording.
    StopRecording,
}

/// Nothing is known of the mount.
pub open spec fn no_snapshot() -> MountSnapshot {
    MountSnapshot {
        ra: None,
        dec: None,
        altitude: None,
        azimuth: None,
        tracking: None,
        slewing: None,
        home: None,
        park: None,
        flags: None,
    }
}

/// The connection to the mount.
pub struct Link {
    pub ports: Vec<PortInfo>,
    pub port_name: String,
    pub connected: bool,
    pub connecting: bool,
    pub connected_port: Option<String>,
    pub model: Option<String>,
    pub snapshot: MountSnapshot,
    pub scan_due: u64,
    pub poll_due: u64,
    pub poll_inflight: bool,
    /// The worker takes requests.
    pub worker_running: bool,
}

/// Motion that the panel started.
#[derive(Clone, Copy, Debug, PartialEq, Eq)]
pub struct Motion {
    pub active_direction: Option<Direction>,
    /// Direction whose button the current press started on.
    pub jog_latch: Option<Direction>,
    pub timed_jog: Option<TimedJog>,
    /// A move owned by an acquisition.
    pub acquisition_inflight: bool,
}

/// Nothing moves.
pub open spec fn still() -> Motion {
    Motion { active_direction: None, jog_latch: None, timed_jog: None, acquisition_inflight: false }
}

/// How the last move of an acquisition ended.
pub struct NudgeReport {
    pub done: bool,
    pub error: Option<String>,
}

/// Settings of the jog buttons and of the timed jog.
#[derive(Clone, Copy, Debug, PartialEq, Eq)]
pub struct JogSettings {
    pub rate_index: usize,
    pub direction: Direction,
    pub timed_rate_index: usize,
}

/// What waits for a confirmation.
#[derive(Clone, Copy, Debug, PartialEq, Eq)]
pub struct Confirmations {
    pub return_to_mark: bool,
    pub motion: Option<ConfirmedMotion>,
    pub sun: bool,
    pub auto_center: bool,
}

/// The observing site.
pub struct Site {
    /// Both coordinates are exactly zero.
    pub at_origin: bool,
    pub place: String,
    pub search_inflight: bool,
    pub auto_sync: bool,
    pub prompt_open: bool,
}

/// State of the mount panel.
pub struct MountState {
    pub link: Link,
    pub motion: Motion,
    pub report: NudgeReport,
    pub jog: JogSettings,
    pub confirm: Confirmations,
    /// Pointing to return to.
    pub mark: Option<Pointing>,
    pub auto_center_origin: AutoCenterOrigin,
    pub auto_center: Option<AutoCenter>,
    pub site: Site,
    pub status: String,
    pub outbox: Vec<Request>,
}

/// The queue after a request to the worker.
pub open spec fn sent(running: bool, outbox: Seq<Request>, command: WorkerCommand) -> Seq<Request> {
    if running {
        outbox.push(Request::Worker(command))
    } else {
        outbox
    }
}

/// The panel after its motion is stopped.
pub open spec fn motion_stopped(before: MountState, after: MountState) -> bool {
    &&& after.outbox@ == sent(before.link.worker_running, before.outbox@, WorkerCommand::Stop)
    &&& after == MountState { motion: still(), outbox: after.outbox, ..before }
}

/// The panel after a Sun search was ended; nothing changes without one.
pub open spec fn search_ended(before: MountState, after: MountState, reason: Seq<char>) -> bool {
    if before.auto_center is None {
        after == before
    } else {
        &&& after.outbox@ == sent(
            before.link.worker_running,
            before.outbox@,
            WorkerCommand::Stop,
        ).push(Request::RestoreCamera)
        &&& after.status@ == reason
        &&& after == MountState { auto_center: None, motion: still(), confirm: Confirmations { auto_center: false, ..before.confirm }, status: after.status, outbox: after.outbox, ..before }
    }
}

/// Only the status line changed.
pub open spec fn only_status(before: MountState, after: MountState, status: Seq<char>) -> bool {
    &&& after.status@ == status
    &&& after == MountState { status: after.status, ..before }
}

fn same_direction(a: Option<Direction>, b: Option<Direction>) -> (r: bool)
    ensures
        r == (a == b),
{
    match (a, b) {
        (None, None) => true,
        (Some(x), Some(y)) => x == y,
        _ => false,
    }
}

impl MountState {
    /// What every operation keeps: selected rates exist and a running search
    /// is sound.
    pub open spec fn valid(&self) -> bool {
        &&& self.jog.rate_index < RATE_COUNT
        &&& self.jog.timed_rate_index < RATE_COUNT
        &&& self.auto_center matches Some(a) ==> a.sound()
    }

    /// A site is set unless it was never given: zero coordinates and no name.
    pub open spec fn site_set(&self) -> bool {
        !(self.site.at_origin && trim(self.site.place@).len() == 0)
    }

    /// Panel of a disconnected mount.
    pub fn new(now: u64) -> (s: MountState)
        ensures
            s.valid(),
            s.link.ports@.len() == 0,
            s.link.port_name@.len() == 0,
            !s.link.connected && !s.link.connecting && s.link.connected_port is None && s.link.model is None,
            s.jog.rate_index == 4 && s.jog.timed_rate_index == 7,
            s.motion.active_direction is None && s.mark is None && s.motion.timed_jog is None && s.motion.jog_latch is None,
            !s.motion.acquisition_inflight && !s.report.done && s.report.error is None,
            s.jog.direction == Direction::North,
            !s.confirm.return_to_mark && s.confirm.motion is None && !s.confirm.sun && !s.confirm.auto_center,
            s.auto_center_origin == AutoCenterOrigin::SunGoTo && s.auto_center is None,
            s.site.at_origin && s.site.place@.len() == 0 && !s.site.search_inflight,
            s.site.auto_sync && !s.site.prompt_open,
            s.status@ == "Not connected"@,
            s.link.scan_due == now && !s.link.poll_inflight,
            s.link.poll_due == (if now + POLL_INTERVAL_MS <= u64::MAX {
                now + POLL_INTERVAL_MS
            } else {
                u64::MAX as int
            }),
            s.link.snapshot == no_snapshot(),
            s.link.worker_running && s.outbox@.len() == 0,
    {
        MountState {
            link: Link {
                ports: Vec::new(),
                port_name: String::new(),
                connected: false,
                connecting: false,
                connected_port: None,
                model: None,
                snapshot: MountSnapshot {
                    ra: None,
                    dec: None,
                    altitude: None,
                    azimuth: None,
                    tracking: None,
                    slewing: None,
                    home: None,
                    park: None,
                    flags: None,
                },
                scan_due: now,
                poll_due: now.saturating_add(POLL_INTERVAL_MS),
                poll_inflight: false,
                worker_running: true,
            },
            motion: Motion {
                active_direction: None,
                jog_latch: None,
                timed_jog: None,
                acquisition_inflight: false,
            },
            report: NudgeReport { done: false, error: None },
            jog: JogSettings { rate_index: 4, direction: Direction::North, timed_rate_index: 7 },
            confirm: Confirmations {
                return_to_mark: false,
                motion: None,
                sun: false,
                auto_center: false,
            },
            mark: None,
            auto_center_origin: AutoCenterOrigin::SunGoTo,
            auto_center: None,
            site: Site {
                at_origin: true,
                place: String::new(),
                search_inflight: false,
                auto_sync: true,
                prompt_open: false,
            },
            status: "Not connected".to_owned(),
            outbox: Vec::new(),
        }
    }

    fn send(&mut self, command: WorkerCommand) -> (accepted: bool)
        ensures
            accepted == old(self).link.worker_running,
            final(self).outbox@ == sent(old(self).link.worker_running, old(self).outbox@, command),
            *final(self) == (MountState { outbox: final(self).outbox, ..*old(self) }),
            !accepted ==> *final(self) == *old(self),
    {
        if self.link.worker_running {
            self.outbox.push(Request::Worker(command));
            true
        } else {
            false
        }
    }

    /// The mount says that it tracks.
    pub fn tracking_is_on(&self) -> (on: bool)
        ensures
            on == (opt_text(self.link.snapshot.tracking) == Some("On"@)),
    {
        match &self.link.snapshot.tracking {
            Some(t) => same_text(t.as_str(), "On"),
            None => false,
        }
    }

    pub fn is_connected(&self) -> (c: bool)
        ensures
            c == self.link.connected,
    {
        self.link.connected
    }

    pub fn site_is_configured(&self) -> (set: bool)
        ensures
            set == self.site_set(),
    {
        !(self.site.at_origin && trimmed(self.site.place.as_str()).as_str().unicode_len() == 0)
    }

    // -- motion ------------------------------------------------------------

    /// Stops every motion that the panel started.
    pub fn stop_motion(&mut self)
        ensures
            motion_stopped(*old(self), *final(self)),
    {
        self.send(WorkerCommand::Stop);
        self.motion =
        Motion {
            active_direction: None,
            jog_latch: None,
            timed_jog: None,
            acquisition_inflight: false,
        };
    }

    /// Ends a running Sun search and gives the camera back.
    pub fn cancel_auto_center(&mut self, reason: &str)
        ensures
            search_ended(*old(self), *final(self), reason@),
    {
        if self.auto_center.is_some() {
            self.auto_center = None;
            self.stop_motion();
            self.outbox.push(Request::RestoreCamera);
            self.confirm.auto_center = false;
            self.status = reason.to_owned();
        }
    }

    /// The STOP button.
    pub fn press_stop(&mut self)
        requires
            old(self).valid(),
        ensures
            exists|mid: MountState| #[trigger]
                search_ended(*old(self), mid, "Sun auto-center stopped"@) && motion_stopped(
                    mid,
                    *final(self),
                ),
            final(self).auto_center is None,
            final(self).valid(),
    {
        self.cancel_auto_center("Sun auto-center stopped");
        let ghost mid = *self;
        self.stop_motion();
        assert(search_ended(*old(self), mid, "Sun auto-center stopped"@) && motion_stopped(
            mid,
            *self,
        ));
    }

    /// Another jog rate was selected: the running jog stops before the mount
    /// learns of it.
    pub fn select_rate(&mut self, index: usize)
        requires
            old(self).valid(),
            index < RATE_COUNT,
        ensures
            final(self).valid(),
            final(self).jog.rate_index == index,
            index == old(self).jog.rate_index ==> *final(self) == *old(self),
            index != old(self).jog.rate_index && !old(self).link.connected ==> *final(self) == (MountState { jog: JogSettings { rate_index: index, ..old(self).jog }, ..*old(self) }),
            index != old(self).jog.rate_index && old(self).link.connected ==> {
                &&& final(self).outbox@ == sent(
                    old(self).link.worker_running,
                    sent(old(self).link.worker_running, old(self).outbox@, WorkerCommand::Stop),
                    WorkerCommand::SetRate(index as u8),
                )
                &&& *final(self) == (MountState { jog: JogSettings { rate_index: index, ..old(self).jog }, motion: still(), outbox: final(self).outbox, ..*old(self) })
            },
    {
        if index != self.jog.rate_index {
            self.jog.rate_index = index;
            if self.link.connected {
                self.stop_motion();
                self.send(WorkerCommand::SetRate(rate(index).code));
            }
        }
    }

    /// Follows the held direction: a change stops the old motion and starts
    /// the new one at the selected rate.
    pub fn update_held_direction(&mut self, held: Option<Direction>)
        requires
            old(self).valid(),
        ensures
            final(self).valid(),
            final(self).motion.active_direction == held,
            *final(self) == (MountState { motion: Motion { active_direction: held, ..old(self).motion }, outbox: final(self).outbox, ..*old(self) }),
            final(self).outbox@ == held_queue(
                old(self).link.worker_running,
                old(self).outbox@,
                old(self).motion.active_direction,
                held,
                old(self).jog.rate_index as u8,
            ),
    {
        if same_direction(held, self.motion.active_direction) {
            return;
        }
        if self.motion.active_direction.is_some() {
            self.send(WorkerCommand::Stop);
        }
        if let Some(direction) = held {
            self.send(WorkerCommand::SetRate(rate(self.jog.rate_index).code));
            self.send(WorkerCommand::Jog(direction));
        }
        self.motion.active_direction = held;
    }

    /// One pass over the jog buttons. `pressed` is a button that the pointer
    /// is down on; the press lasts until the pointer goes up, and does not
    /// move the mount during a Sun search.
    pub fn jog_buttons(&mut self, pressed: Option<Direction>, pointer_held: bool)
        requires
            old(self).valid(),
        ensures
            final(self).valid(),
            ({
                let held = if !pointer_held {
                    None
                } else if pressed is Some {
                    pressed
                } else {
                    old(self).motion.jog_latch
                };
                let moving = if old(self).link.connected && old(self).auto_center is None {
                    held
                } else {
                    None
                };
                &&& final(self).outbox@ == held_queue(
                    old(self).link.worker_running,
                    old(self).outbox@,
                    old(self).motion.active_direction,
                    moving,
                    old(self).jog.rate_index as u8,
                )
                &&& *final(self) == (MountState { motion: Motion { jog_latch: held, active_direction: moving, ..old(self).motion }, outbox: final(self).outbox, ..*old(self) })
            }),
    {
        let held: Option<Direction> = if !pointer_held {
            None
        } else if pressed.is_some() {
            pressed
        } else {
            self.motion.jog_latch
        };
        self.motion.jog_latch = held;
        let enabled: bool = self.link.connected && self.auto_center.is_none();
        self.update_held_direction(
            if enabled {
                held
            } else {
                None
            },
        );
    }

    // -- acquisition -------------------------------------------------------

    /// Starts one bounded move owned by an acquisition, and says so.
    pub fn start_acquisition_nudge(
        &mut self,
        direction: Direction,
        duration_ms: u64,
        rate: u8,
    ) -> (started: Result<(), String>)
        ensures
            nudge_started(*old(self), *final(self), direction, duration_ms, rate, started),
    {
        if !self.link.connected {
            return Err("connect the mount first".to_owned());
        }
        if self.auto_center.is_some() || self.motion.timed_jog.is_some() || self.motion.active_direction.is_some()
            || self.motion.acquisition_inflight {
            return Err("another mount motion is already active".to_owned());
        }
        self.report.done = false;
        self.report.error = None;
        let command = WorkerCommand::Nudge {
            direction,
            duration_ms: if duration_ms == 0 {
                1
            } else {
                duration_ms
            },
            rate: if rate > 9 {
                9
            } else {
                rate
            },
            ensure_tracking: true,
        };
        if !self.send(command) {
            return Err("mount worker is not running".to_owned());
        }
        self.motion.acquisition_inflight = true;
        let mut status = "Acquisition motion: ".to_owned();
        status.append(direction.label());
        status.append(" for ");
        status.append(seconds_text(duration_ms).as_str());
        status.append(" s");
        self.status = status;
        Ok(())
    }

    /// Asserts the solar tracking rate.
    pub fn request_solar_tracking_rate(&mut self)
        ensures
            final(self).outbox@ == sent(
                old(self).link.worker_running,
                old(self).outbox@,
                WorkerCommand::SetSolarRate,
            ),
            *final(self) == (MountState { outbox: final(self).outbox, ..*old(self) }),
    {
        self.send(WorkerCommand::SetSolarRate);
    }

    /// Whether an acquisition move ended since the last question.
    pub fn take_acquisition_nudge_done(&mut self) -> (done: bool)
        ensures
            done == old(self).report.done,
            *final(self) == (MountState { report: NudgeReport { done: false, ..old(self).report }, ..*old(self) }),
    {
        let done: bool = self.report.done;
        self.report.done = false;
        done
    }

    /// Why an acquisition move failed since the last question.
    pub fn take_acquisition_error(&mut self) -> (error: Option<String>)
        ensures
            error == old(self).report.error,
            *final(self) == (MountState { report: NudgeReport { error: None, ..old(self).report }, ..*old(self) }),
    {
        self.report.error.take()
    }

    /// Stops an acquisition's motion without losing the Sun.
    pub fn stop_acquisition_motion(&mut self)
        ensures
            acquisition_stopped(*old(self), *final(self)),
    {
        self.send(WorkerCommand::StopAcquisition);
        self.motion.active_direction = None;
        self.motion.jog_latch = None;
        self.motion.timed_jog = None;
        self.motion.acquisition_inflight = false;
        self.report.done = false;
    }

    // -- timed jog ---------------------------------------------------------

    /// Runs one jog of fixed duration. The first jog marks its origin before
    /// the mount moves.
    pub fn start_timed_jog(&mut self, requested_ms: u64, seconds_text: &str, now: u64)
        requires
            old(self).valid(),
        ensures
            final(self).valid(),
            !old(self).link.connected ==> only_status(
                *old(self),
                *final(self),
                "Connect the mount first"@,
            ),
            old(self).link.connected && old(self).auto_center is Some ==> only_status(
                *old(self),
                *final(self),
                "Sun auto-center is running; stop it before jogging"@,
            ),
            old(self).link.connected && old(self).auto_center is None && old(self).motion.timed_jog is Some
                ==> *final(self) == *old(self),
            old(self).link.connected && old(self).auto_center is None && old(self).motion.timed_jog is None ==> {
                let duration = clamped_jog(requested_ms);
                let queue = if old(self).mark is None {
                    sent(old(self).link.worker_running, old(self).outbox@, WorkerCommand::MarkPosition)
                } else {
                    old(self).outbox@
                };
                &&& final(self).outbox@ == sent(
                    old(self).link.worker_running,
                    queue,
                    WorkerCommand::Nudge {
                        direction: old(self).jog.direction,
                        duration_ms: duration,
                        rate: old(self).jog.timed_rate_index as u8,
                        ensure_tracking: false,
                    },
                )
                &&& final(self).status@ == "Jogging "@ + old(self).jog.direction.spec_label()
                    + " for "@ + seconds_text@ + " s at "@ + rate_label(
                    old(self).jog.timed_rate_index as int,
                )
                &&& *final(self) == (MountState { motion: Motion { timed_jog: Some(
                        TimedJog {
                            direction: old(self).jog.direction,
                            started: now,
                            duration_ms: duration,
                        },
                    ), ..old(self).motion }, status: final(self).status, outbox: final(self).outbox, ..*old(self) })
            },
            final(self).outbox@ == asked_of_worker(
                *old(self),
                wished_by_jog(*old(self), requested_ms),
            ),
    {
        if !self.link.connected {
            self.status = "Connect the mount first".to_owned();
            return;
        }
        if self.auto_center.is_some() {
            self.status = "Sun auto-center is running; stop it before jogging".to_owned();
            return;
        }
        if self.motion.timed_jog.is_some() {
            return;
        }
        let duration_ms: u64 = if requested_ms < JOG_MIN_MS {
            JOG_MIN_MS
        } else if requested_ms > JOG_MAX_MS {
            JOG_MAX_MS
        } else {
            requested_ms
        };
        if self.mark.is_none() {
            self.send(WorkerCommand::MarkPosition);
        }
        let chosen = rate(self.jog.timed_rate_index);
        self.send(
            WorkerCommand::Nudge {
                direction: self.jog.direction,
                duration_ms,
                rate: chosen.code,
                ensure_tracking: false,
            },
        );
        self.motion.timed_jog =
        Some(TimedJog { direction: self.jog.direction, started: now, duration_ms });
        let mut status = "Jogging ".to_owned();
        status.append(self.jog.direction.label());
        status.append(" for ");
        status.append(seconds_text);
        status.append(" s at ");
        status.append(chosen.label);
        self.status = status;
    }

    pub fn cancel_timed_jog(&mut self)
        ensures
            final(self).outbox@ == sent(
                old(self).link.worker_running,
                old(self).outbox@,
                WorkerCommand::Stop,
            ),
            final(self).status@ == "Timed jog stopped"@,
            *final(self) == (MountState { motion: still(), status: final(self).status, outbox: final(self).outbox, ..*old(self) }),
    {
        self.motion.timed_jog = None;
        self.stop_motion();
        self.status = "Timed jog stopped".to_owned();
    }

    /// Asks the mount for the pointing to return to.
    pub fn mark_here(&mut self)
        ensures
            !old(self).link.connected ==> only_status(
                *old(self),
                *final(self),
                "Connect the mount first"@,
            ),
            old(self).link.connected ==> final(self).outbox@ == sent(
                old(self).link.worker_running,
                old(self).outbox@,
                WorkerCommand::MarkPosition,
            ) && *final(self) == (MountState { outbox: final(self).outbox, ..*old(self) }),
    {
        if !self.link.connected {
            self.status = "Connect the mount first".to_owned();
            return;
        }
        self.send(WorkerCommand::MarkPosition);
    }

    /// Returns to the mark. A mark known to be far away is asked about first.
    pub fn return_to_mark(&mut self, confirmed: bool, far: bool, separation_text: &str)
        ensures
            old(self).mark is None ==> only_status(*old(self), *final(self), "Nothing marked yet"@),
            old(self).mark is Some && !old(self).link.connected ==> only_status(
                *old(self),
                *final(self),
                "Connect the mount first"@,
            ),
            old(self).mark is Some && old(self).link.connected && !confirmed && far ==> {
                &&& final(self).status@ == "Marked position is "@ + separation_text@
                    + "° away — confirm before slewing"@
                &&& *final(self) == (MountState { confirm: Confirmations { return_to_mark: true, ..old(self).confirm }, status: final(self).status, ..*old(self) })
            },
            old(self).mark is Some && old(self).link.connected && (confirmed || !far) ==> {
                &&& final(self).outbox@ == sent(
                    old(self).link.worker_running,
                    old(self).outbox@,
                    WorkerCommand::SlewTo(old(self).mark->0),
                )
                &&& *final(self) == (MountState { confirm: Confirmations { return_to_mark: false, ..old(self).confirm }, motion: Motion { timed_jog: None, ..old(self).motion }, outbox: final(self).outbox, ..*old(self) })
            },
            final(self).outbox@ == asked_of_worker(
                *old(self),
                wished_by_return(*old(self), confirmed, far),
            ),
    {
        match self.mark {
            None => {
                self.status = "Nothing marked yet".to_owned();
            },
            Some(mark) => {
                if !self.link.connected {
                    self.status = "Connect the mount first".to_owned();
                    return;
                }
                if !confirmed && far {
                    self.confirm.return_to_mark = true;
                    self.status =
                    joined3(
                        "Marked position is ",
                        separation_text,
                        "° away — confirm before slewing",
                    );
                    return;
                }
                self.confirm.return_to_mark = false;
                self.motion.timed_jog = None;
                self.send(WorkerCommand::SlewTo(mark));
            },
        }
    }

    pub fn clear_mark(&mut self)
        ensures
            *final(self) == (MountState { mark: None, confirm: Confirmations { return_to_mark: false, ..old(self).confirm }, ..*old(self) }),
    {
        self.mark = None;
        self.confirm.return_to_mark = false;
    }

    // -- long moves --------------------------------------------------------

    /// The Home button: asks for a confirmation.
    pub fn press_home(&mut self)
        ensures
            !old(self).link.connected ==> only_status(
                *old(self),
                *final(self),
                "Connect the mount before using Home"@,
            ),
            old(self).link.connected && old(self).auto_center is Some ==> only_status(
                *old(self),
                *final(self),
                "Cancel auto-center before using Home"@,
            ),
            old(self).link.connected && old(self).auto_center is None ==> asks_for(
                *old(self),
                *final(self),
                ConfirmedMotion::GoHome,
                "Home: confirm the movement in the panel below"@,
            ),
    {
        if !self.link.connected {
            self.status = "Connect the mount before using Home".to_owned();
        } else if self.auto_center.is_some() {
            self.status = "Cancel auto-center before using Home".to_owned();
        } else {
            self.confirm.sun = false;
            self.confirm.auto_center = false;
            self.confirm.motion = Some(ConfirmedMotion::GoHome);
            self.status = "Home: confirm the movement in the panel below".to_owned();
        }
    }

    /// The mount is in equatorial mode unless its flags say otherwise.
    pub open spec fn spec_equatorial(&self) -> bool {
        match self.link.snapshot.flags {
            Some(f) => !f@.contains('Z'),
            None => true,
        }
    }

    pub fn equatorial(&self) -> (e: bool)
        ensures
            e == self.spec_equatorial(),
    {
        match &self.link.snapshot.flags {
            Some(f) => !contains_char(f.as_str(), 'Z'),
            None => true,
        }
    }

    /// The Park button: asks for a confirmation, in equatorial mode only.
    pub fn press_park(&mut self)
        ensures
            !old(self).link.connected ==> only_status(
                *old(self),
                *final(self),
                "Connect the mount before using Park"@,
            ),
            old(self).link.connected && old(self).auto_center is Some ==> only_status(
                *old(self),
                *final(self),
                "Cancel auto-center before using Park"@,
            ),
            old(self).link.connected && old(self).auto_center is None && !old(self).spec_equatorial()
                ==> only_status(
                *old(self),
                *final(self),
                "Park is only available in equatorial mode (not alt-az)"@,
            ),
            old(self).link.connected && old(self).auto_center is None && old(self).spec_equatorial()
                ==> asks_for(
                *old(self),
                *final(self),
                ConfirmedMotion::Park,
                "Park: confirm the movement in the panel below"@,
            ),
    {
        if !self.link.connected {
            self.status = "Connect the mount before using Park".to_owned();
        } else if self.auto_center.is_some() {
            self.status = "Cancel auto-center before using Park".to_owned();
        } else if !self.equatorial() {
            self.status = "Park is only available in equatorial mode (not alt-az)".to_owned();
        } else {
            self.confirm.sun = false;
            self.confirm.auto_center = false;
            self.confirm.motion = Some(ConfirmedMotion::Park);
            self.status = "Park: confirm the movement in the panel below".to_owned();
        }
    }

    /// The Unpark button.
    pub fn press_unpark(&mut self)
        ensures
            !old(self).link.connected ==> only_status(
                *old(self),
                *final(self),
                "Connect the mount before using Unpark"@,
            ),
            old(self).link.connected && old(self).auto_center is Some ==> only_status(
                *old(self),
                *final(self),
                "Cancel auto-center before using Unpark"@,
            ),
            old(self).link.connected && old(self).auto_center is None ==> {
                &&& final(self).outbox@ == sent(
                    old(self).link.worker_running,
                    sent(old(self).link.worker_running, old(self).outbox@, WorkerCommand::Stop),
                    WorkerCommand::Unpark,
                )
                &&& final(self).status@ == (if old(self).link.worker_running {
                    "Requesting unpark..."@
                } else {
                    "Mount worker is not running"@
                })
                &&& *final(self) == (MountState { motion: still(), status: final(self).status, outbox: final(self).outbox, ..*old(self) })
            },
    {
        if !self.link.connected {
            self.status = "Connect the mount before using Unpark".to_owned();
        } else if self.auto_center.is_some() {
            self.status = "Cancel auto-center before using Unpark".to_owned();
        } else {
            self.stop_motion();
            if self.send(WorkerCommand::Unpark) {
                self.status = "Requesting unpark...".to_owned();
            } else {
                self.status = "Mount worker is not running".to_owned();
            }
        }
    }

    /// The Track button turns tracking over and asks for the new status at
    /// once.
    pub fn press_track(&mut self, now: u64)
        ensures
            !old(self).link.connected ==> only_status(
                *old(self),
                *final(self),
                "Connect the mount before using Track"@,
            ),
            old(self).link.connected && old(self).auto_center is Some ==> only_status(
                *old(self),
                *final(self),
                "Cancel auto-center before using Track"@,
            ),
            old(self).link.connected && old(self).auto_center is None && !old(self).link.worker_running
                ==> only_status(*old(self), *final(self), "Mount worker is not running"@),
            old(self).link.connected && old(self).auto_center is None && old(self).link.worker_running ==> {
                let enable = opt_text(old(self).link.snapshot.tracking) != Some("On"@);
                &&& final(self).outbox@ == old(self).outbox@.push(
                    Request::Worker(WorkerCommand::SetTracking(enable)),
                )
                &&& final(self).status@ == (if enable {
                    "Enabling tracking..."@
                } else {
                    "Disabling tracking..."@
                })
                &&& *final(self) == (MountState { link: Link { poll_due: now, ..old(self).link }, status: final(self).status, outbox: final(self).outbox, ..*old(self) })
            },
            final(self).outbox@ == asked_of_worker(*old(self), wished_by_track(*old(self))),
    {
        if !self.link.connected {
            self.status = "Connect the mount before using Track".to_owned();
        } else if self.auto_center.is_some() {
            self.status = "Cancel auto-center before using Track".to_owned();
        } else {
            let enable: bool = !self.tracking_is_on();
            if self.send(WorkerCommand::SetTracking(enable)) {
                self.status = if enable {
                    "Enabling tracking...".to_owned()
                } else {
                    "Disabling tracking...".to_owned()
                };
                self.link.poll_due = now;
            } else {
                self.status = "Mount worker is not running".to_owned();
            }
        }
    }

    /// The confirmation of Home or Park.
    pub fn confirm_pending_motion(&mut self, now: u64)
        ensures
            match old(self).confirm.motion {
                None => *final(self) == *old(self),
                Some(action) => if !old(self).link.connected {
                    &&& final(self).status@ == "Connect the mount before confirming"@
                    &&& *final(self) == (MountState { confirm: Confirmations { motion: None, ..old(self).confirm }, status: final(self).status, ..*old(self) })
                } else {
                    &&& final(self).outbox@ == sent(
                        old(self).link.worker_running,
                        sent(old(self).link.worker_running, old(self).outbox@, WorkerCommand::Stop),
                        action.spec_command(),
                    )
                    &&& final(self).status@ == (if old(self).link.worker_running {
                        action.spec_title() + " sent to mount..."@
                    } else {
                        "Mount worker is not running"@
                    })
                    &&& *final(self) == (MountState { confirm: Confirmations { motion: if old(self).link.worker_running {
                            None
                        } else {
                            old(self).confirm.motion
                        }, ..old(self).confirm }, link: Link { poll_due: if old(self).link.worker_running {
                            now
                        } else {
                            old(self).link.poll_due
                        }, ..old(self).link }, motion: still(), status: final(self).status, outbox: final(self).outbox, ..*old(self) })
                },
            },
            final(self).outbox@ == asked_of_worker(*old(self), wished_by_confirmation(*old(self))),
    {
        if let Some(action) = self.confirm.motion {
            if !self.link.connected {
                self.status = "Connect the mount before confirming".to_owned();
                self.confirm.motion = None;
            } else {
                self.stop_motion();
                if self.send(action.command()) {
                    self.status = joined2(action.title(), " sent to mount...");
                    self.confirm.motion = None;
                    self.link.poll_due = now;
                } else {
                    self.status = "Mount worker is not running".to_owned();
                }
            }
        }
    }

    pub fn cancel_pending_motion(&mut self)
        ensures
            final(self).status@ == "Home/Park cancelled"@,
            *final(self) == (MountState { confirm: Confirmations { motion: None, ..old(self).confirm }, status: final(self).status, ..*old(self) }),
    {
        self.confirm.motion = None;
        self.status = "Home/Park cancelled".to_owned();
    }

    // -- the Sun -----------------------------------------------------------

    /// Prepares a GoTo to the Sun, which is to be confirmed.
    pub fn prepare_sun(&mut self)
        ensures
            old(self).link.connected && old(self).auto_center is None ==> *final(self) == (MountState { confirm: Confirmations { auto_center: false, sun: true, ..old(self).confirm }, ..*old(self) }),
            !(old(self).link.connected && old(self).auto_center is None) ==> *final(self) == *old(self),
    {
        if self.link.connected && self.auto_center.is_none() {
            self.confirm.auto_center = false;
            self.confirm.sun = true;
        }
    }

    /// The confirmed GoTo to the Sun.
    pub fn confirm_sun_slew(&mut self, sun: Pointing)
        ensures
            !(old(self).link.connected && old(self).confirm.sun) ==> *final(self) == *old(self),
            old(self).link.connected && old(self).confirm.sun ==> {
                &&& final(self).outbox@ == sent(
                    old(self).link.worker_running,
                    sent(old(self).link.worker_running, old(self).outbox@, WorkerCommand::Stop),
                    WorkerCommand::SlewSun(sun),
                )
                &&& final(self).status@ == "Sending Sun coordinates to mount..."@
                &&& *final(self) == (MountState { confirm: Confirmations { sun: false, ..old(self).confirm }, motion: still(), status: final(self).status, outbox: final(self).outbox, ..*old(self) })
            },
            final(self).outbox@ == asked_of_worker(*old(self), wished_by_sun(*old(self), sun)),
    {
        if self.link.connected && self.confirm.sun {
            self.stop_motion();
            self.send(WorkerCommand::SlewSun(sun));
            self.confirm.sun = false;
            self.status = "Sending Sun coordinates to mount...".to_owned();
        }
    }

    /// Prepares a Sun search, which is to be confirmed.
    pub fn prepare_auto_center(&mut self, origin: AutoCenterOrigin)
        ensures
            old(self).link.connected && old(self).auto_center is None ==> *final(self) == (MountState { confirm: Confirmations { sun: false, auto_center: true, ..old(self).confirm }, auto_center_origin: origin, ..*old(self) }),
            !(old(self).link.connected && old(self).auto_center is None) ==> *final(self) == *old(self),
    {
        if self.link.connected && self.auto_center.is_none() {
            self.confirm.sun = false;
            self.auto_center_origin = origin;
            self.confirm.auto_center = true;
        }
    }

    /// Starts a Sun search. `camera` is the outcome of preparing the camera,
    /// which is asked for only where the search may start; `rings` is the
    /// search radius in coarse steps.
    pub fn begin_auto_center(
        &mut self,
        origin: AutoCenterOrigin,
        camera: Result<(), String>,
        rings: i32,
        sun: Pointing,
        radius_text: &str,
        now: u64,
    )
        requires
            old(self).valid(),
            now <= CLOCK_LIMIT_MS,
        ensures
            final(self).valid(),
            old(self).auto_center is Some ==> *final(self) == *old(self),
            old(self).auto_center is None && !old(self).link.connected ==> only_status(
                *old(self),
                *final(self),
                "Connect the mount before Sun auto-center"@,
            ),
            old(self).auto_center is None && old(self).link.connected && camera is Err ==> only_status(
                *old(self),
                *final(self),
                camera->Err_0@,
            ),
            old(self).auto_center is None && old(self).link.connected && camera is Ok ==> {
                let stopped = sent(old(self).link.worker_running, old(self).outbox@, WorkerCommand::Stop);
                &&& final(self).outbox@ == (match origin {
                    AutoCenterOrigin::SunGoTo => sent(
                        old(self).link.worker_running,
                        stopped,
                        WorkerCommand::SlewSun(sun),
                    ),
                    AutoCenterOrigin::CurrentPoint => stopped,
                })
                &&& final(self).auto_center is Some
                &&& final(self).auto_center->0@ == crate::auto_center::begun(
                    origin,
                    clamped_rings(rings),
                    now,
                )
                &&& final(self).status@ == "Auto-center started: "@ + origin.spec_label()
                    + " (radius "@ + radius_text@ + "°, coarse 0.2°, refine 0.1°)"@
                &&& *final(self) == (MountState { confirm: Confirmations { sun: false, motion: None, ..old(self).confirm }, motion: still(), auto_center: final(self).auto_center, status: final(self).status, outbox: final(self).outbox, ..*old(self) })
            },
    {
        if self.auto_center.is_some() {
            return;
        }
        if !self.link.connected {
            self.status = "Connect the mount before Sun auto-center".to_owned();
            return;
        }
        if let Err(error) = camera {
            self.status = error;
            return;
        }
        let clamped: i32 = if rings < 1 {
            1
        } else if rings > MAX_RINGS {
            MAX_RINGS
        } else {
            rings
        };
        self.stop_motion();
        self.confirm.sun = false;
        self.confirm.motion = None;
        match origin {
            AutoCenterOrigin::SunGoTo => {
                self.send(WorkerCommand::SlewSun(sun));
            },
            AutoCenterOrigin::CurrentPoint => {},
        }
        self.auto_center = Some(AutoCenter::begin(origin, clamped, now));
        let mut status = "Auto-center started: ".to_owned();
        status.append(origin.label());
        status.append(" (radius ");
        status.append(radius_text);
        status.append("°, coarse 0.2°, refine 0.1°)");
        self.status = status;
    }

    /// Asks for one step of the search.
    fn send_search_step(&mut self, direction: Direction, duration_ms: u64)
        ensures
            final(self).outbox@ == sent(
                old(self).link.worker_running,
                old(self).outbox@,
                search_step(direction, duration_ms),
            ),
            *final(self) == (MountState { outbox: final(self).outbox, ..*old(self) }),
    {
        self.send(
            WorkerCommand::Nudge {
                direction,
                duration_ms,
                rate: AUTO_CENTER_RATE,
                ensure_tracking: true,
            },
        );
    }

    /// Carries out what a Sun search answered. `finished` is the closing
    /// message of a search that ended well.
    pub fn apply_search(&mut self, out: AutoOutput, finished: &str)
        requires
            old(self).valid(),
            old(self).auto_center is Some,
        ensures
            final(self).valid(),
            match out.step {
                AutoStep::Idle => *final(self) == *old(self),
                AutoStep::Average => *final(self) == *old(self),
                AutoStep::Nudge(d) => final(self).outbox@ == sent(
                    old(self).link.worker_running,
                    old(self).outbox@,
                    search_step(d, old(self).auto_center->0.duration_ms),
                ) && *final(self) == (MountState { outbox: final(self).outbox, ..*old(self) }),
                AutoStep::Cancel(reason) => exists|text: Seq<char>| #[trigger]
                    search_ended(*old(self), *final(self), text) && text == match reason {
                        crate::auto_center::CancelReason::TimedOut =>
                            "Sun auto-center timed out (10 min limit)"@,
                        crate::auto_center::CancelReason::SlewTimedOut =>
                            "Sun auto-center: slew timed out"@,
                        crate::auto_center::CancelReason::NoFrames =>
                            "Sun auto-center: no camera frames while sampling"@,
                    },
                AutoStep::Finish => search_ended(*old(self), *final(self), finished@),
            },
    {
        match out.step {
            AutoStep::Idle => {},
            AutoStep::Average => {},
            AutoStep::Nudge(direction) => {
                let duration_ms: u64 = match &self.auto_center {
                    Some(a) => a.duration_ms,
                    None => 0,
                };
                self.send_search_step(direction, duration_ms);
            },
            AutoStep::Cancel(reason) => {
                let text = reason.text();
                self.cancel_auto_center(text);
                assert(search_ended(*old(self), *self, text@));
            },
            AutoStep::Finish => {
                self.cancel_auto_center(finished);
            },
        }
    }

    fn search_nudge_done(&mut self)
        requires
            old(self).valid(),
        ensures
            final(self).valid(),
            match old(self).auto_center {
                None => *final(self) == *old(self),
                Some(a) => {
                    let (next, step) = crate::auto_center::nudged(a@);
                    &&& final(self).auto_center is Some
                    &&& final(self).auto_center->0@ == next
                    &&& final(self).outbox@ == (match step {
                        Some(d) => sent(
                            old(self).link.worker_running,
                            old(self).outbox@,
                            search_step(d, a.duration_ms),
                        ),
                        None => old(self).outbox@,
                    })
                    &&& *final(self) == (MountState { auto_center: final(self).auto_center, outbox: final(self).outbox, ..*old(self) })
                },
            },
    {
        match self.auto_center.take() {
            None => {},
            Some(mut search) => {
                let step = search.nudge_done();
                let duration_ms: u64 = search.duration_ms;
                self.auto_center = Some(search);
                if let Some(direction) = step {
                    self.send_search_step(direction, duration_ms);
                }
            },
        }
    }

    // -- reports of the worker ---------------------------------------------

    /// Pushes clock and site to the mount.
    pub fn request_site_time_sync(&mut self)
        ensures
            final(self).outbox@ == sent(
                old(self).link.worker_running,
                old(self).outbox@,
                WorkerCommand::SyncSiteTime,
            ),
            final(self).status@ == (if old(self).link.worker_running {
                "Syncing mount time and site coordinates..."@
            } else {
                "Mount worker is not running"@
            }),
            *final(self) == (MountState { status: final(self).status, outbox: final(self).outbox, ..*old(self) }),
    {
        if self.send(WorkerCommand::SyncSiteTime) {
            self.status = "Syncing mount time and site coordinates...".to_owned();
        } else {
            self.status = "Mount worker is not running".to_owned();
        }
    }

    fn on_connected(&mut self, port: String, model: String, now: u64)
        requires
            old(self).valid(),
        ensures
            final(self).valid(),
            connected_as(*old(self), *final(self), port, model, now),
    {
        self.link.connected = true;
        self.link.connecting = false;
        let mut greeting = joined3("Connected to ", model.as_str(), " on ");
        greeting.append(port.as_str());
        assert(greeting@ == greeting_text(port@, model@));
        self.link.connected_port = Some(port);
        self.link.model = Some(model);
        self.link.poll_due = now;
        if self.site_is_configured() {
            self.status = greeting;
            if self.site.auto_sync {
                self.request_site_time_sync();
            }
            self.site.prompt_open = false;
        } else {
            self.site.prompt_open = true;
            self.status = joined2(greeting.as_str(), " — set observing site (required for GoTo)");
        }
    }

    /// Takes one report of the worker. `marked` is the message for a marked
    /// pointing.
    pub fn on_message(&mut self, message: WorkerMessage, marked: &str, now: u64)
        requires
            old(self).valid(),
        ensures
            final(self).valid(),
            match message {
                WorkerMessage::Connected { port, model } => connected_as(
                    *old(self),
                    *final(self),
                    port,
                    model,
                    now,
                ),
                WorkerMessage::Disconnected(reason) => lost_connection(
                    *old(self),
                    *final(self),
                    reason,
                ),
                WorkerMessage::Snapshot(s) => *final(self) == (MountState { link: Link { snapshot: s, poll_inflight: false, ..old(self).link }, ..*old(self) }),
                WorkerMessage::Notice(text) => *final(self) == (MountState { status: text, ..*old(self) }),
                WorkerMessage::NudgeDone => nudge_reported(*old(self), *final(self)),
                WorkerMessage::Marked(p) => final(self).status@ == marked@ && *final(self) == (
                MountState { mark: Some(p), status: final(self).status, ..*old(self) }),
                WorkerMessage::Error(error) => error_reported(*old(self), *final(self), error),
            },
    {
        match message {
            WorkerMessage::Connected { port, model } => {
                self.on_connected(port, model, now);
            },
            WorkerMessage::Disconnected(reason) => {
                self.cancel_auto_center("Sun auto-center stopped: mount disconnected");
                let ghost mid = *self;
                if self.motion.acquisition_inflight {
                    self.report.error =
                    Some("mount disconnected during acquisition motion".to_owned());
                }
                self.motion.acquisition_inflight = false;
                self.link.connected = false;
                self.link.connecting = false;
                self.link.connected_port = None;
                self.motion.active_direction = None;
                self.motion.jog_latch = None;
                self.link.poll_inflight = false;
                self.status = reason;
                assert(search_ended(
                    *old(self),
                    mid,
                    "Sun auto-center stopped: mount disconnected"@,
                ));
            },
            WorkerMessage::Snapshot(snapshot) => {
                self.link.snapshot = snapshot;
                self.link.poll_inflight = false;
            },
            WorkerMessage::Notice(text) => {
                self.status = text;
            },
            WorkerMessage::NudgeDone => {
                if self.motion.acquisition_inflight {
                    self.motion.acquisition_inflight = false;
                    self.report.done = true;
                    self.status = "Acquisition motion complete".to_owned();
                } else if self.motion.timed_jog.is_some() {
                    self.motion.timed_jog = None;
                    self.status = "Timed jog complete".to_owned();
                } else {
                    self.search_nudge_done();
                }
            },
            WorkerMessage::Marked(p) => {
                self.mark = Some(p);
                self.status = marked.to_owned();
            },
            WorkerMessage::Error(error) => {
                self.cancel_auto_center("Sun auto-center stopped by mount error");
                let ghost mid = *self;
                let text = joined2("Mount error: ", error.as_str());
                if self.motion.acquisition_inflight {
                    self.report.error = Some(error);
                }
                self.motion.acquisition_inflight = false;
                self.link.connecting = false;
                self.link.poll_inflight = false;
                self.status = text;
                assert(search_ended(*old(self), mid, "Sun auto-center stopped by mount error"@));
            },
        }
    }

    /// What is due: looking for ports while nothing is connected, and polling
    /// a connected mount. Says whether ports are to be looked for.
    pub fn housekeeping(&mut self, now: u64) -> (rescan: bool)
        requires
            now <= CLOCK_LIMIT_MS,
        ensures
            rescan == (!old(self).link.connected && !old(self).link.connecting && now >= old(self).link.scan_due),
            ({
                let poll = old(self).link.connected && !old(self).link.poll_inflight && now >= old(
                    self,
                ).link.poll_due && old(self).link.worker_running;
                &&& final(self).outbox@ == (if poll {
                    old(self).outbox@.push(Request::Worker(WorkerCommand::Poll))
                } else {
                    old(self).outbox@
                })
                &&& *final(self) == (MountState { link: Link { poll_inflight: poll || old(self).link.poll_inflight, poll_due: if poll {
                        (now + POLL_INTERVAL_MS) as u64
                    } else {
                        old(self).link.poll_due
                    }, ..old(self).link }, site: Site { prompt_open: old(self).site.prompt_open || (old(self).link.connected && !old(
                        self,
                    ).site_set()), ..old(self).site }, outbox: final(self).outbox, ..*old(self) })
            }),
    {
        let rescan: bool = !self.link.connected && !self.link.connecting && now >= self.link.scan_due;
        if self.link.connected && !self.link.poll_inflight && now >= self.link.poll_due {
            if self.send(WorkerCommand::Poll) {
                self.link.poll_inflight = true;
                self.link.poll_due = now + POLL_INTERVAL_MS;
            }
        }
        if self.link.connected && !self.site_is_configured() {
            self.site.prompt_open = true;
        }
        rescan
    }

    /// The Connect button.
    pub fn press_connect(&mut self)
        ensures
            ({
                let name = trim(old(self).link.port_name@);
                if old(self).link.connected || old(self).link.connecting || name.len() == 0 {
                    *final(self) == *old(self)
                } else {
                    &&& final(self).status@ == "Connecting to "@ + name + "..."@
                    &&& *final(self) == (MountState { link: Link { connecting: true, ..old(self).link }, status: final(self).status, outbox: final(self).outbox, ..*old(self) })
                    &&& if old(self).link.worker_running {
                        &&& final(self).outbox@.len() == old(self).outbox@.len() + 1
                        &&& final(self).outbox@.drop_last() == old(self).outbox@
                        &&& final(self).outbox@.last() matches Request::Worker(
                            WorkerCommand::Connect(n),
                        )
                        &&& n@ == name
                    } else {
                        final(self).outbox@ == old(self).outbox@
                    }
                }
            }),
    {
        let name = trimmed(self.link.port_name.as_str());
        if !self.link.connected && !self.link.connecting && name.as_str().unicode_len() > 0 {
            self.link.connecting = true;
            self.status = joined3("Connecting to ", name.as_str(), "...");
            let ghost queue = self.outbox@;
            self.send(WorkerCommand::Connect(name));
            assert(self.link.worker_running ==> self.outbox@.drop_last() =~= queue);
        }
    }

    /// The Disconnect button.
    pub fn press_disconnect(&mut self)
        ensures
            !old(self).link.connected ==> *final(self) == *old(self),
            old(self).link.connected ==> {
                &&& final(self).outbox@ == sent(
                    old(self).link.worker_running,
                    sent(old(self).link.worker_running, old(self).outbox@, WorkerCommand::Stop),
                    WorkerCommand::Disconnect,
                )
                &&& *final(self) == (MountState { motion: still(), outbox: final(self).outbox, ..*old(self) })
            },
            final(self).outbox@ == asked_of_worker(*old(self), wished_by_disconnect(*old(self))),
    {
        if self.link.connected {
            self.stop_motion();
            self.send(WorkerCommand::Disconnect);
        }
    }

    /// Entering the tab: the mount is polled at once.
    pub fn enter_tab(&mut self, now: u64)
        ensures
            *final(self) == (MountState { link: Link { poll_due: now, ..old(self).link }, ..*old(self) }),
    {
        self.link.poll_due = now;
    }

    /// Leaving the tab stops everything and drops what waits for confirmation.
    pub fn leave_tab(&mut self, recording: bool)
        requires
            old(self).valid(),
        ensures
            final(self).valid(),
            left_tab(*old(self), *final(self), recording),
    {
        self.cancel_auto_center("Sun auto-center cancelled");
        let ghost first = *self;
        if recording {
            self.outbox.push(Request::StopRecording);
        }
        let ghost second = *self;
        self.stop_motion();
        self.confirm.motion = None;
        self.confirm.sun = false;
        self.confirm.auto_center = false;
        assert(search_ended(*old(self), first, "Sun auto-center cancelled"@));
    }

    /// Takes the serial ports that were found.
    pub fn refresh_ports(&mut self, found: Result<Vec<PortInfo>, String>, scan_description: &str, now: u64)
        requires
            now <= CLOCK_LIMIT_MS,
        ensures
            final(self).status@ == ports_status(found, scan_description@),
            final(self).link.ports@ == (match found {
                Ok(p) => p@,
                Err(_) => Seq::empty(),
            }),
            final(self).link.port_name@ == (match found {
                Ok(p) => if old(self).link.port_name@.len() == 0 && p@.len() > 0 {
                    p@[0].name@
                } else {
                    old(self).link.port_name@
                },
                Err(_) => old(self).link.port_name@,
            }),
            *final(self) == (MountState { link: Link { ports: final(self).link.ports, port_name: final(self).link.port_name, scan_due: (now + SCAN_INTERVAL_MS) as u64, ..old(self).link }, status: final(self).status, ..*old(self) }),
    {
        self.link.scan_due = now + SCAN_INTERVAL_MS;
        match found {
            Ok(ports) => {
                if self.link.port_name.as_str().unicode_len() == 0 && ports.len() > 0 {
                    self.link.port_name = ports[0].name.clone();
                }
                let detected: Option<usize> = first_zwo_port(&ports);
                let status: String = match detected {
                    Some(i) => joined2("Detected ZWO USB mount on ", ports[i].name.as_str()),
                    None => if ports.len() == 0 {
                        joined2("No serial ports found using ", scan_description)
                    } else {
                        let count = decimal_string(ports.len() as u64);
                        joined3(
                            "Found ",
                            count.as_str(),
                            " serial port(s), but none identify as ZWO USB",
                        )
                    },
                };
                self.status = status;
                self.link.ports = ports;
            },
            Err(error) => {
                self.link.ports = Vec::new();
                self.status = joined2("Port discovery failed: ", error.as_str());
            },
        }
    }

    /// Starts a search for a place name, unless one runs already. Says what to
    /// search for.
    pub fn run_place_search(&mut self, query: &str) -> (search: Option<String>)
        ensures
            ({
                let q = trim(query@);
                if q.len() == 0 {
                    search is None && only_status(
                        *old(self),
                        *final(self),
                        "Enter a place name to search"@,
                    )
                } else if old(self).site.search_inflight {
                    search is None && only_status(
                        *old(self),
                        *final(self),
                        "Place search already running…"@,
                    )
                } else {
                    &&& opt_text(search) == Some(q)
                    &&& final(self).status@ == "Searching for “"@ + q + "”…"@
                    &&& *final(self) == (MountState { site: Site { search_inflight: true, ..old(self).site }, status: final(self).status, ..*old(self) })
                }
            }),
    {
        let q = trimmed(query);
        if q.as_str().unicode_len() == 0 {
            self.status = "Enter a place name to search".to_owned();
            return None;
        }
        if self.site.search_inflight {
            self.status = "Place search already running…".to_owned();
            return None;
        }
        self.site.search_inflight = true;
        self.status = joined3("Searching for “", q.as_str(), "”…");
        Some(q)
    }

    /// Takes the outcome of a place search: how many places, or why none.
    pub fn place_search_done(&mut self, outcome: Result<usize, String>)
        ensures
            final(self).status@ == (match outcome {
                Ok(n) => if n == 0 {
                    "No places found"@
                } else {
                    "Found "@ + decimal(n as nat) + " place(s) — pick one"@
                },
                Err(e) => "Place search failed: "@ + e@,
            }),
            *final(self) == (MountState { site: Site { search_inflight: false, ..old(self).site }, status: final(self).status, ..*old(self) }),
    {
        self.site.search_inflight = false;
        match outcome {
            Ok(n) => {
                if n == 0 {
                    self.status = "No places found".to_owned();
                } else {
                    let count = decimal_string(n as u64);
                    self.status = joined3("Found ", count.as_str(), " place(s) — pick one");
                }
            },
            Err(e) => {
                self.status = joined2("Place search failed: ", e.as_str());
            },
        }
    }

    /// The Save button of the site prompt. A site without a name is named by
    /// its coordinates.
    pub fn save_site_prompt(&mut self, coordinates_text: &str)
        ensures
            ({
                let named = if trim(old(self).site.place@).len() == 0 {
                    coordinates_text@
                } else {
                    old(self).site.place@
                };
                &&& final(self).site.place@ == named
                &&& final(self).outbox@ == (if old(self).link.connected {
                    sent(old(self).link.worker_running, old(self).outbox@, WorkerCommand::SyncSiteTime)
                } else {
                    old(self).outbox@
                })
                &&& final(self).status@ == (if !old(self).link.connected {
                    "Observing site saved"@
                } else if old(self).link.worker_running {
                    "Syncing mount time and site coordinates..."@
                } else {
                    "Mount worker is not running"@
                })
                &&& *final(self) == (MountState { site: Site { place: final(self).site.place, prompt_open: false, ..old(self).site }, status: final(self).status, outbox: final(self).outbox, ..*old(self) })
            }),
    {
        if trimmed(self.site.place.as_str()).as_str().unicode_len() == 0 {
            self.site.place = coordinates_text.to_owned();
        }
        self.site.prompt_open = false;
        if self.link.connected {
            self.request_site_time_sync();
        } else {
            self.status = "Observing site saved".to_owned();
        }
    }

    /// The Sync button of the site editor.
    pub fn press_sync(&mut self)
        ensures
            !old(self).link.connected ==> *final(self) == *old(self),
            old(self).link.connected && !old(self).site_set() ==> {
                &&& final(self).status@
                    == "Set latitude/longitude (or search a place) before syncing"@
                &&& *final(self) == (MountState { site: Site { prompt_open: true, ..old(self).site }, status: final(self).status, ..*old(self) })
            },
            old(self).link.connected && old(self).site_set() ==> {
                &&& final(self).outbox@ == sent(
                    old(self).link.worker_running,
                    old(self).outbox@,
                    WorkerCommand::SyncSiteTime,
                )
                &&& final(self).status@ == (if old(self).link.worker_running {
                    "Syncing mount time and site coordinates..."@
                } else {
                    "Mount worker is not running"@
                })
                &&& *final(self) == (MountState { status: final(self).status, outbox: final(self).outbox, ..*old(self) })
            },
    {
        if self.link.connected {
            if !self.site_is_configured() {
                self.site.prompt_open = true;
                self.status = "Set latitude/longitude (or search a place) before syncing".to_owned();
            } else {
                self.request_site_time_sync();
            }
        }
    }
}

/// The queue with what is asked of the worker, in order.
pub open spec fn asked_of_worker(s: MountState, commands: Seq<WorkerCommand>) -> Seq<Request> {
    if s.link.worker_running {
        s.outbox@ + commands.map_values(|c: WorkerCommand| Request::Worker(c))
    } else {
        s.outbox@
    }
}

/// What the Track button asks for.
pub open spec fn wished_by_track(s: MountState) -> Seq<WorkerCommand> {
    if s.link.connected && s.auto_center is None {
        seq![WorkerCommand::SetTracking(opt_text(s.link.snapshot.tracking) != Some("On"@))]
    } else {
        seq![]
    }
}

/// What a timed jog asks for.
pub open spec fn wished_by_jog(s: MountState, requested_ms: u64) -> Seq<WorkerCommand> {
    if s.link.connected && s.auto_center is None && s.motion.timed_jog is None {
        (if s.mark is None {
            seq![WorkerCommand::MarkPosition]
        } else {
            seq![]
        }).push(
            WorkerCommand::Nudge {
                direction: s.jog.direction,
                duration_ms: clamped_jog(requested_ms),
                rate: s.jog.timed_rate_index as u8,
                ensure_tracking: false,
            },
        )
    } else {
        seq![]
    }
}

/// What the way back to the mark asks for.
pub open spec fn wished_by_return(s: MountState, confirmed: bool, far: bool) -> Seq<WorkerCommand> {
    match s.mark {
        Some(mark) if s.link.connected && (confirmed || !far) => seq![WorkerCommand::SlewTo(mark)],
        _ => seq![],
    }
}

/// What the confirmation of Home or Park asks for.
pub open spec fn wished_by_confirmation(s: MountState) -> Seq<WorkerCommand> {
    match s.confirm.motion {
        Some(action) if s.link.connected => seq![WorkerCommand::Stop, action.spec_command()],
        _ => seq![],
    }
}

/// What the confirmed GoTo to the Sun asks for.
pub open spec fn wished_by_sun(s: MountState, sun: Pointing) -> Seq<WorkerCommand> {
    if s.link.connected && s.confirm.sun {
        seq![WorkerCommand::Stop, WorkerCommand::SlewSun(sun)]
    } else {
        seq![]
    }
}

/// What the Disconnect button asks for.
pub open spec fn wished_by_disconnect(s: MountState) -> Seq<WorkerCommand> {
    if s.link.connected {
        seq![WorkerCommand::Stop, WorkerCommand::Disconnect]
    } else {
        seq![]
    }
}

/// Duration of a timed jog.
pub open spec fn clamped_jog(ms: u64) -> u64 {
    if ms < JOG_MIN_MS {
        JOG_MIN_MS
    } else if ms > JOG_MAX_MS {
        JOG_MAX_MS
    } else {
        ms
    }
}

pub open spec fn clamped_rings(rings: i32) -> int {
    if rings < 1 {
        1
    } else if rings > MAX_RINGS {
        MAX_RINGS as int
    } else {
        rings as int
    }
}

/// A motion of another owner runs.
pub open spec fn busy(s: MountState) -> bool {
    s.auto_center is Some || s.motion.timed_jog is Some || s.motion.active_direction is Some
        || s.motion.acquisition_inflight
}

/// The request of an acquisition move: at least a millisecond, at an existing
/// rate, without losing the Sun.
pub open spec fn acquisition_move(direction: Direction, duration_ms: u64, rate: u8) -> WorkerCommand {
    WorkerCommand::Nudge {
        direction,
        duration_ms: if duration_ms == 0 {
            1
        } else {
            duration_ms
        },
        rate: if rate > 9 {
            9
        } else {
            rate
        },
        ensure_tracking: true,
    }
}

/// The panel after an acquisition asked for a move: it is queued where the
/// mount is connected, nothing else moves and the worker takes it.
pub open spec fn nudge_started(
    before: MountState,
    after: MountState,
    direction: Direction,
    duration_ms: u64,
    rate: u8,
    started: Result<(), String>,
) -> bool {
    if !before.link.connected {
        started is Err && started->Err_0@ == "connect the mount first"@ && after == before
    } else if busy(before) {
        started is Err && started->Err_0@ == "another mount motion is already active"@ && after
            == before
    } else if !before.link.worker_running {
        started is Err && started->Err_0@ == "mount worker is not running"@ && after == MountState {
            report: NudgeReport { done: false, error: None },
            ..before
        }
    } else {
        &&& started is Ok
        &&& after.outbox@ == before.outbox@.push(
            Request::Worker(acquisition_move(direction, duration_ms, rate)),
        )
        &&& after.status@ == "Acquisition motion: "@ + direction.spec_label() + " for "@
            + hundredths_text(duration_ms as nat) + " s"@
        &&& after == MountState {
            report: NudgeReport { done: false, error: None },
            motion: Motion { acquisition_inflight: true, ..before.motion },
            status: after.status,
            outbox: after.outbox,
            ..before
        }
    }
}

/// The panel after an acquisition's motion was stopped.
pub open spec fn acquisition_stopped(before: MountState, after: MountState) -> bool {
    &&& after.outbox@ == sent(
        before.link.worker_running,
        before.outbox@,
        WorkerCommand::StopAcquisition,
    )
    &&& after == MountState {
        motion: still(),
        report: NudgeReport { done: false, ..before.report },
        outbox: after.outbox,
        ..before
    }
}

/// One step of a Sun search as a request.
pub open spec fn search_step(direction: Direction, duration_ms: u64) -> WorkerCommand {
    WorkerCommand::Nudge { direction, duration_ms, rate: AUTO_CENTER_RATE, ensure_tracking: true }
}

/// The queue after the held direction changed.
pub open spec fn held_queue(
    running: bool,
    outbox: Seq<Request>,
    active: Option<Direction>,
    held: Option<Direction>,
    rate_code: u8,
) -> Seq<Request> {
    if held == active {
        outbox
    } else {
        let stopped = if active is Some {
            sent(running, outbox, WorkerCommand::Stop)
        } else {
            outbox
        };
        match held {
            Some(d) => sent(
                running,
                sent(running, stopped, WorkerCommand::SetRate(rate_code)),
                WorkerCommand::Jog(d),
            ),
            None => stopped,
        }
    }
}

/// A long move now waits for its confirmation.
pub open spec fn asks_for(
    before: MountState,
    after: MountState,
    action: ConfirmedMotion,
    status: Seq<char>,
) -> bool {
    &&& after.status@ == status
    &&& after == MountState { confirm: Confirmations { sun: false, auto_center: false, motion: Some(action), ..before.confirm }, status: after.status, ..before }
}

pub open spec fn greeting_text(port: Seq<char>, model: Seq<char>) -> Seq<char> {
    "Connected to "@ + model + " on "@ + port
}

/// The panel after a mount was connected.
pub open spec fn connected_as(
    before: MountState,
    after: MountState,
    port: String,
    model: String,
    now: u64,
) -> bool {
    let sync = before.site_set() && before.site.auto_sync;
    &&& after.status@ == (if !before.site_set() {
        greeting_text(port@, model@) + " — set observing site (required for GoTo)"@
    } else if !before.site.auto_sync {
        greeting_text(port@, model@)
    } else if before.link.worker_running {
        "Syncing mount time and site coordinates..."@
    } else {
        "Mount worker is not running"@
    })
    &&& after.outbox@ == (if sync {
        sent(before.link.worker_running, before.outbox@, WorkerCommand::SyncSiteTime)
    } else {
        before.outbox@
    })
    &&& after == MountState { link: Link { connected: true, connecting: false, connected_port: Some(port), model: Some(model), poll_due: now, ..before.link }, site: Site { prompt_open: !before.site_set(), ..before.site }, status: after.status, outbox: after.outbox, ..before }
}

/// The panel after the connection was lost: a search ends, and an acquisition
/// that was moving learns of it.
pub open spec fn lost_connection(before: MountState, after: MountState, reason: String) -> bool {
    exists|mid: MountState| #[trigger]
        search_ended(before, mid, "Sun auto-center stopped: mount disconnected"@) && {
            &&& (mid.motion.acquisition_inflight ==> opt_text(after.report.error) == Some(
                "mount disconnected during acquisition motion"@,
            ))
            &&& (!mid.motion.acquisition_inflight ==> after.report.error
                == mid.report.error)
            &&& after == MountState { report: NudgeReport { error: after.report.error, ..mid.report }, motion: Motion { acquisition_inflight: false, active_direction: None, jog_latch: None, ..mid.motion }, link: Link { connected: false, connecting: false, connected_port: None, poll_inflight: false, ..mid.link }, status: reason, ..mid }
        }
}

/// The panel after the worker reported an error.
pub open spec fn error_reported(before: MountState, after: MountState, error: String) -> bool {
    exists|mid: MountState| #[trigger]
        search_ended(before, mid, "Sun auto-center stopped by mount error"@) && {
            &&& after.status@ == "Mount error: "@ + error@
            &&& after == MountState { report: NudgeReport { error: if mid.motion.acquisition_inflight {
                    Some(error)
                } else {
                    mid.report.error
                }, ..mid.report }, motion: Motion { acquisition_inflight: false, ..mid.motion }, link: Link { connecting: false, poll_inflight: false, ..mid.link }, status: after.status, ..mid }
        }
}

/// The end of a timed move goes to its owner: an acquisition, a timed jog or
/// the Sun search, in this order, and to one of them only.
pub open spec fn nudge_reported(before: MountState, after: MountState) -> bool {
    if before.motion.acquisition_inflight {
        &&& after.status@ == "Acquisition motion complete"@
        &&& after == MountState { motion: Motion { acquisition_inflight: false, ..before.motion }, report: NudgeReport { done: true, ..before.report }, status: after.status, ..before }
    } else if before.motion.timed_jog is Some {
        &&& after.status@ == "Timed jog complete"@
        &&& after == MountState { motion: Motion { timed_jog: None, ..before.motion }, status: after.status, ..before }
    } else {
        match before.auto_center {
            None => after == before,
            Some(a) => {
                let (next, step) = crate::auto_center::nudged(a@);
                &&& after.auto_center is Some
                &&& after.auto_center->0@ == next
                &&& after.outbox@ == (match step {
                    Some(d) => sent(
                        before.link.worker_running,
                        before.outbox@,
                        search_step(d, a.duration_ms),
                    ),
                    None => before.outbox@,
                })
                &&& after == MountState { auto_center: after.auto_center, outbox: after.outbox, ..before }
            },
        }
    }
}

/// The panel after the tab was left.
pub open spec fn left_tab(before: MountState, after: MountState, recording: bool) -> bool {
    exists|mid: MountState| #[trigger]
        search_ended(before, mid, "Sun auto-center cancelled"@) && {
            let queue = if recording {
                mid.outbox@.push(Request::StopRecording)
            } else {
                mid.outbox@
            };
            &&& after.outbox@ == sent(mid.link.worker_running, queue, WorkerCommand::Stop)
            &&& after == MountState { motion: still(), confirm: Confirmations { motion: None, sun: false, auto_center: false, ..mid.confirm }, outbox: after.outbox, ..mid }
        }
}

/// Position of the first mount among the ports.
pub open spec fn first_zwo(ports: Seq<PortInfo>) -> Option<int>
    decreases ports.len(),
{
    if ports.len() == 0 {
        None
    } else if ports[0].is_zwo {
        Some(0)
    } else {
        match first_zwo(ports.drop_first()) {
            Some(i) => Some(i + 1),
            None => None,
        }
    }
}

proof fn lemma_first_zwo(ports: Seq<PortInfo>, n: int)
    requires
        0 <= n <= ports.len(),
        forall|k: int| 0 <= k < n ==> !(#[trigger] ports[k]).is_zwo,
    ensures
        n < ports.len() && ports[n].is_zwo ==> first_zwo(ports) == Some(n),
        n == ports.len() ==> first_zwo(ports) is None,
    decreases ports.len(),
{
    if ports.len() > 0 && n > 0 {
        assert(!ports[0].is_zwo);
        assert forall|k: int| 0 <= k < n - 1 implies !(#[trigger] ports.drop_first()[k]).is_zwo by {
            assert(ports.drop_first()[k] == ports[k + 1]);
        }
        lemma_first_zwo(ports.drop_first(), n - 1);
    }
}

fn first_zwo_port(ports: &Vec<PortInfo>) -> (found: Option<usize>)
    ensures
        match found {
            Some(i) => first_zwo(ports@) == Some(i as int) && i < ports@.len(),
            None => first_zwo(ports@) is None,
        },
{
    let mut i: usize = 0;
    while i < ports.len()
        invariant
            i <= ports@.len(),
            forall|k: int| 0 <= k < i ==> !(#[trigger] ports@[k]).is_zwo,
        decreases ports@.len() - i,
    {
        if ports[i].is_zwo {
            proof {
                lemma_first_zwo(ports@, i as int);
            }
            return Some(i);
        }
        i = i + 1;
    }
    proof {
        lemma_first_zwo(ports@, i as int);
    }
    None
}

/// The status line after a look for ports.
pub open spec fn ports_status(found: Result<Vec<PortInfo>, String>, scan_description: Seq<char>) -> Seq<
    char,
> {
    match found {
        Err(e) => "Port discovery failed: "@ + e@,
        Ok(p) => match first_zwo(p@) {
            Some(i) => "Detected ZWO USB mount on "@ + p@[i].name@,
            None => if p@.len() == 0 {
                "No serial ports found using "@ + scan_description
            } else {
                "Found "@ + decimal(p@.len())
                    + " serial port(s), but none identify as ZWO USB"@
            },
        },
    }
}

/// Leaving the tab, a lost connection and a mount error all end a running Sun
/// search, and the camera gets its settings back.
pub proof fn search_end_restores_camera(before: MountState, after: MountState, reason: Seq<char>)
    requires
        search_ended(before, after, reason),
        before.auto_center is Some,
    ensures
        after.auto_center is None,
        after.outbox@.contains(Request::RestoreCamera),
{
    assert(after.outbox@.last() == Request::RestoreCamera);
}

/// An acquisition's move cannot start beside any other motion, and while it runs
/// no other one can start beside it.
pub proof fn one_motion_at_a_time(
    before: MountState,
    after: MountState,
    direction: Direction,
    duration_ms: u64,
    rate: u8,
    started: Result<(), String>,
)
    requires
        nudge_started(before, after, direction, duration_ms, rate, started),
    ensures
        started is Ok ==> !busy(before) && before.auto_center is None
            && before.motion.timed_jog is None && before.motion.active_direction is None
            && !before.motion.acquisition_inflight,
        started is Ok ==> busy(after),
        busy(before) ==> started is Err && after == before,
{
}

// ---------------------------------------------------------------------------
// What the panel promises
// ---------------------------------------------------------------------------

/// The Track button turns tracking over: off where the mount says that it tracks, on
/// where it says anything else or nothing. During a search it does nothing.
pub proof fn track_turns_over(s: MountState)
    ensures
        s.link.connected && s.auto_center is None ==> wished_by_track(s).len() == 1 && (
        wished_by_track(s)[0] == WorkerCommand::SetTracking(false) <==> opt_text(
            s.link.snapshot.tracking,
        ) == Some("On"@)) && wished_by_track(s)[0] is SetTracking,
        !s.link.connected || s.auto_center is Some ==> wished_by_track(s).len() == 0,
{
}

/// A timed jog moves the selected way at the selected rate, a tenth of a second at least
/// and two minutes at most; its origin is marked before it, once. It starts beside no
/// other one and beside no search.
pub proof fn timed_jogs_are_as_set(s: MountState, requested_ms: u64)
    ensures
        ({
            let w = wished_by_jog(s, requested_ms);
            let free = s.link.connected && s.auto_center is None && s.motion.timed_jog is None;
            &&& (w.len() > 0 <==> free)
            &&& (free ==> {
                let ms = w.last()->Nudge_duration_ms;
                &&& w.last() is Nudge && w.last()->Nudge_direction == s.jog.direction
                    && w.last()->Nudge_rate == s.jog.timed_rate_index as u8
                    && !w.last()->Nudge_ensure_tracking
                &&& 100 <= ms <= 120_000
                &&& (100 <= requested_ms <= 120_000 ==> ms == requested_ms)
                &&& (requested_ms < 100 ==> ms == 100)
                &&& (s.mark is None ==> w.len() == 2 && w[0] is MarkPosition)
                &&& (s.mark is Some ==> w.len() == 1)
            })
        }),
{
}

/// The way back goes to the mark itself, and to a far one only when confirmed.
pub proof fn the_way_back_goes_to_the_mark(s: MountState, confirmed: bool, far: bool)
    ensures
        wished_by_return(s, confirmed, far).len() > 0 <==> s.mark is Some && s.link.connected && (
        far ==> confirmed),
        wished_by_return(s, confirmed, far).len() > 0 ==> wished_by_return(s, confirmed, far)
            == seq![WorkerCommand::SlewTo(s.mark->0)],
{
}

/// Home, Park, the GoTo to the Sun and the end of the connection stop every motion before
/// they do anything else, and happen only on a connected mount that was asked to.
pub proof fn long_moves_stop_the_mount_first(s: MountState, sun: Pointing)
    ensures
        s.confirm.motion == Some(ConfirmedMotion::GoHome) && s.link.connected
            ==> wished_by_confirmation(s) == seq![WorkerCommand::Stop, WorkerCommand::GoHome],
        s.confirm.motion == Some(ConfirmedMotion::Park) && s.link.connected
            ==> wished_by_confirmation(s) == seq![WorkerCommand::Stop, WorkerCommand::Park],
        s.confirm.motion is None || !s.link.connected ==> wished_by_confirmation(s).len() == 0,
        s.confirm.sun && s.link.connected ==> wished_by_sun(s, sun) == seq![
            WorkerCommand::Stop,
            WorkerCommand::SlewSun(sun),
        ],
        !s.confirm.sun || !s.link.connected ==> wished_by_sun(s, sun).len() == 0,
        s.link.connected ==> wished_by_disconnect(s) == seq![
            WorkerCommand::Stop,
            WorkerCommand::Disconnect,
        ],
{
}

/// A jog by hand stops the old motion before the new one, which gets its rate first; a
/// released button only stops.
pub proof fn held_buttons_move_and_stop(
    outbox: Seq<Request>,
    active: Option<Direction>,
    held: Option<Direction>,
    rate_code: u8,
)
    ensures
        held == active ==> held_queue(true, outbox, active, held, rate_code) == outbox,
        active is Some && held is None ==> held_queue(true, outbox, active, held, rate_code)
            == outbox.push(Request::Worker(WorkerCommand::Stop)),
        held matches Some(d) ==> held != active ==> {
            let q = held_queue(true, outbox, active, held, rate_code);
            let n = q.len() as int;
            &&& q[n - 1] == Request::Worker(WorkerCommand::Jog(d))
            &&& q[n - 2] == Request::Worker(WorkerCommand::SetRate(rate_code))
            &&& (active is Some ==> q[n - 3] == Request::Worker(WorkerCommand::Stop) && n
                == outbox.len() + 3)
            &&& (active is None ==> n == outbox.len() + 2)
        },
        held_queue(false, outbox, active, held, rate_code) == outbox,
{
}

/// A move of an acquisition is asked for in its direction, for its duration and at its
/// rate, without losing the Sun; it lasts a millisecond at least.
pub proof fn acquisition_moves_are_as_asked(
    before: MountState,
    after: MountState,
    direction: Direction,
    duration_ms: u64,
    rate: u8,
    started: Result<(), String>,
)
    requires
        nudge_started(before, after, direction, duration_ms, rate, started),
        duration_ms > 0,
        rate <= 9,
    ensures
        started is Ok <==> before.link.connected && before.link.worker_running && !busy(before),
        started is Ok ==> after.outbox@ == before.outbox@.push(
            Request::Worker(
                WorkerCommand::Nudge { direction, duration_ms, rate, ensure_tracking: true },
            ),
        ) && after.motion.acquisition_inflight && !after.report.done && after.report.error is None,
        started is Err ==> after.outbox@ == before.outbox@ && after.motion == before.motion,
{
}

/// An acquisition that is stopped leaves nothing moving and nothing to report, and tells
/// the mount so.
pub proof fn stopped_acquisitions_leave_nothing_moving(before: MountState, after: MountState)
    requires
        acquisition_stopped(before, after),
    ensures
        !after.motion.acquisition_inflight && after.motion.active_direction is None
            && after.motion.timed_jog is None && after.motion.jog_latch is None,
        !after.report.done,
        before.link.worker_running ==> after.outbox@ == before.outbox@.push(
            Request::Worker(WorkerCommand::StopAcquisition),
        ),
        after.auto_center == before.auto_center && after.link == before.link,
{
}

/// A stop ends every motion of the panel; a search that ends stops the mount before the
/// camera gets its settings back.
pub proof fn stops_end_every_motion(before: MountState, after: MountState, reason: Seq<char>)
    ensures
        motion_stopped(before, after) ==> !after.motion.acquisition_inflight
            && after.motion.active_direction is None && after.motion.timed_jog is None
            && after.motion.jog_latch is None && (before.link.worker_running ==> after.outbox@
            == before.outbox@.push(Request::Worker(WorkerCommand::Stop))),
        search_ended(before, after, reason) && before.auto_center is Some
            && before.link.worker_running ==> after.outbox@ == before.outbox@.push(
            Request::Worker(WorkerCommand::Stop),
        ).push(Request::RestoreCamera) && after.auto_center is None && !after.confirm.auto_center,
        search_ended(before, after, reason) && before.auto_center is None ==> after == before,
{
}

/// The end of a move is told to its owner alone: an acquisition, else a timed jog, else
/// the search, which takes its next step at sixty times sidereal.
pub proof fn ends_of_moves_go_to_their_owner(before: MountState, after: MountState)
    requires
        nudge_reported(before, after),
    ensures
        before.motion.acquisition_inflight ==> after.report.done
            && !after.motion.acquisition_inflight && after.motion.timed_jog
            == before.motion.timed_jog && after.auto_center == before.auto_center && after.outbox
            == before.outbox,
        !before.motion.acquisition_inflight ==> after.report == before.report,
        !before.motion.acquisition_inflight && before.motion.timed_jog is Some
            ==> after.motion.timed_jog is None && after.auto_center == before.auto_center
            && after.outbox == before.outbox,
        !before.motion.acquisition_inflight && before.motion.timed_jog is None
            && before.auto_center is Some && before.link.worker_running ==> (
        crate::auto_center::nudged(before.auto_center->0@).1 matches Some(d) ==> after.outbox@
            == before.outbox@.push(
            Request::Worker(
                WorkerCommand::Nudge {
                    direction: d,
                    duration_ms: before.auto_center->0.duration_ms,
                    rate: 7,
                    ensure_tracking: true,
                },
            ),
        )),
{
}

/// A lost connection is no connection: nothing moves by hand any more, and an acquisition
/// that was moving gets an error. A mount error likewise reaches a moving acquisition.
pub proof fn acquisitions_learn_of_failures(
    before: MountState,
    lost: MountState,
    failed: MountState,
    reason: String,
    error: String,
)
    requires
        lost_connection(before, lost, reason),
        error_reported(before, failed, error),
        before.auto_center is None,
    ensures
        !lost.link.connected && !lost.link.connecting && lost.motion.active_direction is None
            && !lost.motion.acquisition_inflight,
        before.motion.acquisition_inflight ==> lost.report.error is Some && failed.report.error
            == Some(error),
        !before.motion.acquisition_inflight ==> lost.report.error == before.report.error
            && failed.report.error == before.report.error,
        !failed.motion.acquisition_inflight && failed.link.connected == before.link.connected,
{
}

/// A new connection is polled at once. Clock and site are pushed to the mount where a
/// site is set and the user wants it; without a site the user is asked for one.
pub proof fn connections_sync_the_site(
    before: MountState,
    after: MountState,
    port: String,
    model: String,
    now: u64,
)
    requires
        connected_as(before, after, port, model, now),
        before.link.worker_running,
    ensures
        after.link.connected && !after.link.connecting && after.link.poll_due == now,
        after.link.connected_port == Some(port) && after.link.model == Some(model),
        before.site_set() && before.site.auto_sync ==> after.outbox@ == before.outbox@.push(
            Request::Worker(WorkerCommand::SyncSiteTime),
        ),
        !(before.site_set() && before.site.auto_sync) ==> after.outbox@ == before.outbox@,
        after.site.prompt_open == !before.site_set(),
{
}

/// Leaving the tab stops the mount and a recording, ends a search and drops every
/// question.
pub proof fn leaving_stops_everything(before: MountState, after: MountState, recording: bool)
    requires
        left_tab(before, after, recording),
        before.link.worker_running,
    ensures
        after.outbox@.len() > 0 && after.outbox@.last() == Request::Worker(WorkerCommand::Stop),
        recording ==> after.outbox@.len() >= 2 && after.outbox@[after.outbox@.len() - 2]
            == Request::StopRecording,
        after.auto_center is None && after.confirm.motion is None && !after.confirm.sun
            && !after.confirm.auto_center,
        !after.motion.acquisition_inflight && after.motion.active_direction is None
            && after.motion.timed_jog is None,
{
}

/// A search has one ring at least and six at most, as many as were asked for in between.
pub proof fn searches_have_one_to_six_rings(rings: i32)
    ensures
        1 <= clamped_rings(rings) <= 6,
        1 <= rings <= 6 ==> clamped_rings(rings) == rings,
        rings > 6 ==> clamped_rings(rings) == 6,
{
}

/// The first mount among the ports is the one that no other stands before.
pub proof fn first_mount_is_first(ports: Seq<PortInfo>, n: int)
    requires
        0 <= n < ports.len(),
        ports[n].is_zwo,
        forall|k: int| 0 <= k < n ==> !(#[trigger] ports[k]).is_zwo,
    ensures
        first_zwo(ports) == Some(n),
{
    lemma_first_zwo(ports, n);
}

/// A move of no duration lasts a millisecond, and a rate beyond the fastest is the
/// fastest.
pub proof fn acquisition_moves_are_never_empty(direction: Direction, duration_ms: u64, rate: u8)
    ensures
        acquisition_move(direction, 0, rate)->Nudge_duration_ms == 1,
        duration_ms > 0 ==> acquisition_move(direction, duration_ms, rate)->Nudge_duration_ms
            == duration_ms,
        rate > 9 ==> acquisition_move(direction, duration_ms, rate)->Nudge_rate == 9,
        acquisition_move(direction, duration_ms, rate)->Nudge_ensure_tracking,
{
}

} // verus!
