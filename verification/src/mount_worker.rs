//! The thread that owns the serial port: what each request puts on the wire.
//!
//! The worker holds no port itself. For every request it says which commands to
//! send and what follows when they went through; the caller sends them and
//! reports back. A move of limited duration is kept as a deadline, and the
//! worker says when it is due to be stopped.

use crate::auto_center::CLOCK_LIMIT_MS;
use crate::lx200::{Pointing, Wire};
use crate::mount::Direction;
use crate::text::{
    contains_char, joined2, joined3, opt_text, same_text, starts_with_char, trim, trimmed,
};
use vstd::prelude::*;
use vstd::string::StrSliceExecFns;

verus! {

/// A request to the worker.
pub enum WorkerCommand {
    Connect(String),
    Disconnect,
    Poll,
    SetRate(u8),
    Jog(Direction),
    Stop,
    /// Stop the motion of an acquisition without losing the Sun.
    StopAcquisition,
    GoHome,
    Park,
    Unpark,
    SetTracking(bool),
    /// Push the clock and the observing site to the mount.
    SyncSiteTime,
    /// Move for a limited time. `ensure_tracking` keeps the mount tracking the
    /// Sun before and after.
    Nudge { direction: Direction, duration_ms: u64, rate: u8, ensure_tracking: bool },
    SlewSun(Pointing),
    MarkPosition,
    SlewTo(Pointing),
    SetSolarRate,
    Shutdown,
}

/// A move that is to be stopped at its deadline.
#[derive(Clone, Copy, Debug, PartialEq, Eq, Structural)]
pub struct TimedMove {
    pub deadline: u64,
    pub direction: Direction,
    pub ensure_tracking: bool,
}

/// A command to send. One that must go through ends the sequence when it
/// fails; the failure of another is passed over.
#[derive(Clone, Copy, Debug, PartialEq, Eq, Structural)]
pub struct Op {
    pub wire: Wire,
    pub must: bool,
}

pub open spec fn must(wire: Wire) -> Op {
    Op { wire, must: true }
}

pub open spec fn try_to(wire: Wire) -> Op {
    Op { wire, must: false }
}

/// What follows when a sequence went through.
#[derive(Clone, Copy, Debug, PartialEq, Eq, Structural)]
pub enum After {
    Quiet,
    Say(Notice),
    /// The move runs; stop it when its time is over.
    StartTimer { direction: Direction, duration_ms: u64, ensure_tracking: bool },
    Disconnected,
}

/// A message that something went well.
#[derive(Clone, Copy, Debug, PartialEq, Eq, Structural)]
pub enum Notice {
    GoHomeStarted,
    ParkStarted,
    Unparked,
    SolarRateSelected,
    TrackingEnabled,
    TrackingDisabled,
    Returning,
    SunSlewStarted,
}

impl Notice {
    pub open spec fn spec_text(self) -> Seq<char> {
        match self {
            Notice::GoHomeStarted => "Go Home started; STOP aborts the movement"@,
            Notice::ParkStarted => "Park started; STOP aborts the movement"@,
            Notice::Unparked => "Mount is unparked"@,
            Notice::SolarRateSelected => "Solar tracking rate selected"@,
            Notice::TrackingEnabled => "Tracking enabled"@,
            Notice::TrackingDisabled => "Tracking disabled"@,
            Notice::Returning => "Returning to the marked position"@,
            Notice::SunSlewStarted => "Sun slew started; solar tracking requested"@,
        }
    }

    pub fn text(self) -> (text: &'static str)
        ensures
            text@ == self.spec_text(),
    {
        match self {
            Notice::GoHomeStarted => "Go Home started; STOP aborts the movement",
            Notice::ParkStarted => "Park started; STOP aborts the movement",
            Notice::Unparked => "Mount is unparked",
            Notice::SolarRateSelected => "Solar tracking rate selected",
            Notice::TrackingEnabled => "Tracking enabled",
            Notice::TrackingDisabled => "Tracking disabled",
            Notice::Returning => "Returning to the marked position",
            Notice::SunSlewStarted => "Sun slew started; solar tracking requested",
        }
    }
}

/// What a request asks the owner of the port to do.
pub enum Work {
    Nothing,
    /// Send commands in order, then report back.
    Run { ops: Vec<Op>, after: After },
    /// Send commands to the old port, close it and open the named one.
    Open { ops: Vec<Op>, name: String },
    /// Read the whole status.
    ReadStatus,
    /// Read the pointing.
    ReadPointing,
    /// Push clock and site.
    SyncSite,
    /// Tell the panel that nothing is connected.
    ReportDisconnected,
    /// Tell the panel that the request needs a connection.
    ReportNotConnected,
    /// Send commands and end.
    Quit { ops: Vec<Op> },
}

pub enum WorkView {
    Nothing,
    Run { ops: Seq<Op>, after: After },
    Open { ops: Seq<Op>, name: Seq<char> },
    ReadStatus,
    ReadPointing,
    SyncSite,
    ReportDisconnected,
    ReportNotConnected,
    Quit { ops: Seq<Op> },
}

impl View for Work {
    type V = WorkView;

    open spec fn view(&self) -> WorkView {
        match *self {
            Work::Nothing => WorkView::Nothing,
            Work::Run { ops, after } => WorkView::Run { ops: ops@, after },
            Work::Open { ops, name } => WorkView::Open { ops: ops@, name: name@ },
            Work::ReadStatus => WorkView::ReadStatus,
            Work::ReadPointing => WorkView::ReadPointing,
            Work::SyncSite => WorkView::SyncSite,
            Work::ReportDisconnected => WorkView::ReportDisconnected,
            Work::ReportNotConnected => WorkView::ReportNotConnected,
            Work::Quit { ops } => WorkView::Quit { ops: ops@ },
        }
    }
}

/// The worker: whether a port is open, and the move that runs.
#[derive(Clone, Copy, Debug, PartialEq, Eq)]
pub struct Worker {
    pub open: bool,
    pub timed_move: Option<TimedMove>,
}

/// A worker whose move is forgotten.
pub open spec fn at_rest(w: Worker) -> Worker {
    Worker { timed_move: None, ..w }
}

/// Stops everything on an open port.
pub open spec fn stop_all_if_open(open: bool) -> Seq<Op> {
    if open {
        seq![try_to(Wire::StopAll)]
    } else {
        seq![]
    }
}

/// Stops the direction of the running move, if there is one.
pub open spec fn stop_running(m: Option<TimedMove>) -> Seq<Op> {
    match m {
        Some(t) => seq![must(Wire::StopOne(t.direction))],
        None => seq![],
    }
}

/// Selects the solar rate, then enables tracking.
pub open spec fn keep_tracking(ensure: bool) -> Seq<Op> {
    if ensure {
        seq![must(Wire::SolarRate), must(Wire::EnableTracking)]
    } else {
        seq![]
    }
}

pub open spec fn wire_rate(rate: u8) -> u8 {
    if rate > 9 {
        9
    } else {
        rate
    }
}

/// The commands of a GoTo: stop, set the target, select the solar rate where
/// it is wanted, go.
pub open spec fn slew_ops(p: Pointing, solar_rate: bool) -> Seq<Op> {
    seq![
        must(Wire::StopAll),
        must(Wire::SetRa(p.ra_seconds)),
        must(Wire::SetDec { negative: p.dec_negative, arcseconds: p.dec_arcseconds }),
    ] + (if solar_rate {
        seq![must(Wire::SolarRate)]
    } else {
        seq![]
    }) + seq![must(Wire::Goto)]
}

/// A sequence for an open port; nothing happens on a closed one.
pub open spec fn run_if(open: bool, ops: Seq<Op>, after: After) -> WorkView {
    if open {
        WorkView::Run { ops, after }
    } else {
        WorkView::Nothing
    }
}

/// What each request does.
pub open spec fn planned(w: Worker, command: WorkerCommand) -> (Worker, WorkView) {
    match command {
        WorkerCommand::Connect(name) => (
            Worker { open: false, timed_move: None },
            WorkView::Open { ops: stop_all_if_open(w.open), name: name@ },
        ),
        WorkerCommand::Disconnect => (
            Worker { open: false, timed_move: None },
            WorkView::Run { ops: stop_all_if_open(w.open), after: After::Disconnected },
        ),
        WorkerCommand::Poll => (
            w,
            if w.open {
                WorkView::ReadStatus
            } else {
                WorkView::ReportDisconnected
            },
        ),
        WorkerCommand::SetRate(rate) => (
            w,
            run_if(w.open, seq![must(Wire::Rate(rate))], After::Quiet),
        ),
        WorkerCommand::Jog(d) => (w, run_if(w.open, seq![must(Wire::Move(d))], After::Quiet)),
        WorkerCommand::Stop => (
            at_rest(w),
            run_if(w.open, seq![must(Wire::StopAll)], After::Quiet),
        ),
        WorkerCommand::StopAcquisition => (
            at_rest(w),
            run_if(
                w.open,
                stop_running(w.timed_move) + seq![must(Wire::EnableTracking)],
                After::Quiet,
            ),
        ),
        WorkerCommand::GoHome => (
            at_rest(w),
            run_if(
                w.open,
                seq![must(Wire::StopAll), must(Wire::Home)],
                After::Say(Notice::GoHomeStarted),
            ),
        ),
        WorkerCommand::Park => (
            at_rest(w),
            run_if(
                w.open,
                seq![must(Wire::StopAll), must(Wire::Park)],
                After::Say(Notice::ParkStarted),
            ),
        ),
        WorkerCommand::Unpark => (
            w,
            run_if(w.open, seq![must(Wire::Unpark)], After::Say(Notice::Unparked)),
        ),
        WorkerCommand::SetTracking(enable) => (
            w,
            if enable {
                run_if(
                    w.open,
                    seq![try_to(Wire::SolarRate), must(Wire::EnableTracking)],
                    After::Say(Notice::TrackingEnabled),
                )
            } else {
                run_if(
                    w.open,
                    seq![must(Wire::DisableTracking)],
                    After::Say(Notice::TrackingDisabled),
                )
            },
        ),
        WorkerCommand::SyncSiteTime => (
            w,
            if w.open {
                WorkView::SyncSite
            } else {
                WorkView::Nothing
            },
        ),
        WorkerCommand::Nudge { direction, duration_ms, rate, ensure_tracking } => (
            at_rest(w),
            run_if(
                w.open,
                stop_running(w.timed_move) + keep_tracking(ensure_tracking) + seq![
                    must(Wire::Rate(wire_rate(rate))),
                    must(Wire::Move(direction)),
                ],
                After::StartTimer { direction, duration_ms, ensure_tracking },
            ),
        ),
        WorkerCommand::SlewSun(p) => (
            at_rest(w),
            if w.open {
                WorkView::Run { ops: slew_ops(p, true), after: After::Say(Notice::SunSlewStarted) }
            } else {
                WorkView::ReportNotConnected
            },
        ),
        WorkerCommand::MarkPosition => (
            w,
            if w.open {
                WorkView::ReadPointing
            } else {
                WorkView::ReportNotConnected
            },
        ),
        WorkerCommand::SlewTo(p) => (
            at_rest(w),
            if w.open {
                WorkView::Run { ops: slew_ops(p, false), after: After::Say(Notice::Returning) }
            } else {
                WorkView::ReportNotConnected
            },
        ),
        WorkerCommand::SetSolarRate => (
            w,
            run_if(w.open, seq![must(Wire::SolarRate)], After::Say(Notice::SolarRateSelected)),
        ),
        WorkerCommand::Shutdown => (
            Worker { open: false, ..w },
            WorkView::Quit { ops: stop_all_if_open(w.open) },
        ),
    }
}

fn one(wire: Wire) -> (ops: Vec<Op>)
    ensures
        ops@ == seq![must(wire)],
{
    let mut ops: Vec<Op> = Vec::new();
    ops.push(Op { wire, must: true });
    assert(ops@ =~= seq![must(wire)]);
    ops
}

fn two(first: Wire, second: Wire) -> (ops: Vec<Op>)
    ensures
        ops@ == seq![must(first), must(second)],
{
    let mut ops: Vec<Op> = Vec::new();
    ops.push(Op { wire: first, must: true });
    ops.push(Op { wire: second, must: true });
    assert(ops@ =~= seq![must(first), must(second)]);
    ops
}

fn goto_ops(p: Pointing, solar_rate: bool) -> (ops: Vec<Op>)
    ensures
        ops@ == slew_ops(p, solar_rate),
{
    let mut ops: Vec<Op> = Vec::new();
    ops.push(Op { wire: Wire::StopAll, must: true });
    ops.push(Op { wire: Wire::SetRa(p.ra_seconds), must: true });
    ops.push(
        Op {
            wire: Wire::SetDec { negative: p.dec_negative, arcseconds: p.dec_arcseconds },
            must: true,
        },
    );
    if solar_rate {
        ops.push(Op { wire: Wire::SolarRate, must: true });
    }
    ops.push(Op { wire: Wire::Goto, must: true });
    assert(ops@ =~= slew_ops(p, solar_rate));
    ops
}

impl Worker {
    /// A worker without a port.
    pub fn new() -> (w: Worker)
        ensures
            w == (Worker { open: false, timed_move: None }),
    {
        Worker { open: false, timed_move: None }
    }

    fn farewell(&self) -> (ops: Vec<Op>)
        ensures
            ops@ == stop_all_if_open(self.open),
    {
        let mut ops: Vec<Op> = Vec::new();
        if self.open {
            ops.push(Op { wire: Wire::StopAll, must: false });
        }
        assert(ops@ =~= stop_all_if_open(self.open));
        ops
    }

    /// Takes a request.
    pub fn accept(&mut self, command: WorkerCommand) -> (work: Work)
        ensures
            (*final(self), work@) == planned(*old(self), command),
    {
        let open: bool = self.open;
        match command {
            WorkerCommand::Connect(name) => {
                let ops = self.farewell();
                self.open = false;
                self.timed_move = None;
                Work::Open { ops, name }
            },
            WorkerCommand::Disconnect => {
                let ops = self.farewell();
                self.open = false;
                self.timed_move = None;
                Work::Run { ops, after: After::Disconnected }
            },
            WorkerCommand::Poll => if open {
                Work::ReadStatus
            } else {
                Work::ReportDisconnected
            },
            WorkerCommand::SetRate(rate) => if open {
                Work::Run { ops: one(Wire::Rate(rate)), after: After::Quiet }
            } else {
                Work::Nothing
            },
            WorkerCommand::Jog(direction) => if open {
                Work::Run { ops: one(Wire::Move(direction)), after: After::Quiet }
            } else {
                Work::Nothing
            },
            WorkerCommand::Stop => {
                self.timed_move = None;
                if open {
                    Work::Run { ops: one(Wire::StopAll), after: After::Quiet }
                } else {
                    Work::Nothing
                }
            },
            WorkerCommand::StopAcquisition => {
                let running = self.timed_move;
                self.timed_move = None;
                if open {
                    let mut ops: Vec<Op> = Vec::new();
                    if let Some(t) = running {
                        ops.push(Op { wire: Wire::StopOne(t.direction), must: true });
                    }
                    ops.push(Op { wire: Wire::EnableTracking, must: true });
                    assert(ops@ =~= stop_running(running) + seq![must(Wire::EnableTracking)]);
                    Work::Run { ops, after: After::Quiet }
                } else {
                    Work::Nothing
                }
            },
            WorkerCommand::GoHome => {
                self.timed_move = None;
                if open {
                    Work::Run {
                        ops: two(Wire::StopAll, Wire::Home),
                        after: After::Say(Notice::GoHomeStarted),
                    }
                } else {
                    Work::Nothing
                }
            },
            WorkerCommand::Park => {
                self.timed_move = None;
                if open {
                    Work::Run {
                        ops: two(Wire::StopAll, Wire::Park),
                        after: After::Say(Notice::ParkStarted),
                    }
                } else {
                    Work::Nothing
                }
            },
            WorkerCommand::Unpark => if open {
                Work::Run { ops: one(Wire::Unpark), after: After::Say(Notice::Unparked) }
            } else {
                Work::Nothing
            },
            WorkerCommand::SetTracking(enable) => if !open {
                Work::Nothing
            } else if enable {
                let mut ops: Vec<Op> = Vec::new();
                ops.push(Op { wire: Wire::SolarRate, must: false });
                ops.push(Op { wire: Wire::EnableTracking, must: true });
                assert(ops@ =~= seq![try_to(Wire::SolarRate), must(Wire::EnableTracking)]);
                Work::Run { ops, after: After::Say(Notice::TrackingEnabled) }
            } else {
                Work::Run {
                    ops: one(Wire::DisableTracking),
                    after: After::Say(Notice::TrackingDisabled),
                }
            },
            WorkerCommand::SyncSiteTime => if open {
                Work::SyncSite
            } else {
                Work::Nothing
            },
            WorkerCommand::Nudge { direction, duration_ms, rate, ensure_tracking } => {
                let running = self.timed_move;
                self.timed_move = None;
                if open {
                    let mut ops: Vec<Op> = Vec::new();
                    if let Some(t) = running {
                        ops.push(Op { wire: Wire::StopOne(t.direction), must: true });
                    }
                    if ensure_tracking {
                        ops.push(Op { wire: Wire::SolarRate, must: true });
                        ops.push(Op { wire: Wire::EnableTracking, must: true });
                    }
                    let code: u8 = if rate > 9 {
                        9
                    } else {
                        rate
                    };
                    ops.push(Op { wire: Wire::Rate(code), must: true });
                    ops.push(Op { wire: Wire::Move(direction), must: true });
                    assert(ops@ =~= stop_running(running) + keep_tracking(ensure_tracking) + seq![
                        must(Wire::Rate(wire_rate(rate))),
                        must(Wire::Move(direction)),
                    ]);
                    Work::Run {
                        ops,
                        after: After::StartTimer { direction, duration_ms, ensure_tracking },
                    }
                } else {
                    Work::Nothing
                }
            },
            WorkerCommand::SlewSun(p) => {
                self.timed_move = None;
                if open {
                    Work::Run { ops: goto_ops(p, true), after: After::Say(Notice::SunSlewStarted) }
                } else {
                    Work::ReportNotConnected
                }
            },
            WorkerCommand::MarkPosition => if open {
                Work::ReadPointing
            } else {
                Work::ReportNotConnected
            },
            WorkerCommand::SlewTo(p) => {
                self.timed_move = None;
                if open {
                    Work::Run { ops: goto_ops(p, false), after: After::Say(Notice::Returning) }
                } else {
                    Work::ReportNotConnected
                }
            },
            WorkerCommand::SetSolarRate => if open {
                Work::Run { ops: one(Wire::SolarRate), after: After::Say(Notice::SolarRateSelected) }
            } else {
                Work::Nothing
            },
            WorkerCommand::Shutdown => {
                let ops = self.farewell();
                self.open = false;
                Work::Quit { ops }
            },
        }
    }

    /// Commands that stop a move whose time is over, if there is one. Sending
    /// them ends the move, whether or not they go through.
    pub fn due(&mut self, now: u64) -> (ops: Option<Vec<Op>>)
        ensures
            match old(self).timed_move {
                Some(t) => if now >= t.deadline {
                    &&& *final(self) == at_rest(*old(self))
                    &&& ops is Some
                    &&& ops->0@ == stop_ops(old(self).open, t)
                } else {
                    ops is None && *final(self) == *old(self)
                },
                None => ops is None && *final(self) == *old(self),
            },
            match ops {
                Some(v) => due_at(*old(self), now) == Some(v@),
                None => due_at(*old(self), now) is None,
            },
    {
        match self.timed_move {
            Some(t) => {
                if now >= t.deadline {
                    self.timed_move = None;
                    let mut ops: Vec<Op> = Vec::new();
                    if self.open {
                        ops.push(Op { wire: Wire::StopOne(t.direction), must: false });
                        if t.ensure_tracking {
                            ops.push(Op { wire: Wire::EnableTracking, must: false });
                        }
                    }
                    assert(ops@ =~= stop_ops(self.open, t));
                    Some(ops)
                } else {
                    None
                }
            },
            None => None,
        }
    }

    /// How long to wait for the next request, in milliseconds.
    pub fn wait_ms(&self, now: u64) -> (ms: u64)
        ensures
            ms == match self.timed_move {
                Some(t) => if t.deadline <= now {
                    0
                } else if t.deadline - now < 100 {
                    (t.deadline - now) as u64
                } else {
                    100
                },
                None => 100,
            },
            ms == pause_at(*self, now),
    {
        match self.timed_move {
            Some(t) => if t.deadline <= now {
                0
            } else if t.deadline - now < 100 {
                t.deadline - now
            } else {
                100
            },
            None => 100,
        }
    }

    /// Takes the outcome of a sequence. A failed sequence starts no timer.
    pub fn finish(&mut self, after: After, outcome: Result<(), String>, now: u64) -> (message: Option<
        WorkerMessage,
    >)
        requires
            now <= CLOCK_LIMIT_MS,
            after matches After::StartTimer { duration_ms, .. } ==> duration_ms <= CLOCK_LIMIT_MS,
        ensures
            match (outcome, after) {
                (Ok(_), After::StartTimer { direction, duration_ms, ensure_tracking }) => {
                    &&& message is None
                    &&& *final(self) == (Worker {
                        timed_move: Some(
                            TimedMove {
                                deadline: (now + duration_ms) as u64,
                                direction,
                                ensure_tracking,
                            },
                        ),
                        ..*old(self)
                    })
                },
                (Ok(_), After::Quiet) => message is None && *final(self) == *old(self),
                (Ok(_), After::Say(n)) => {
                    &&& message matches Some(WorkerMessage::Notice(t))
                    &&& t@ == n.spec_text()
                    &&& *final(self) == *old(self)
                },
                (_, After::Disconnected) => {
                    &&& message matches Some(WorkerMessage::Disconnected(t))
                    &&& t@ == "Disconnected"@
                    &&& *final(self) == *old(self)
                },
                (Err(e), _) => message == Some(WorkerMessage::Error(e)) && *final(self) == *old(
                    self,
                ),
            },
            *final(self) == finished_at(*old(self), after, outcome is Ok, now),
    {
        match after {
            After::Disconnected => Some(WorkerMessage::Disconnected("Disconnected".to_owned())),
            After::Quiet => match outcome {
                Ok(_) => None,
                Err(e) => Some(WorkerMessage::Error(e)),
            },
            After::Say(notice) => match outcome {
                Ok(_) => Some(WorkerMessage::Notice(notice.text().to_owned())),
                Err(e) => Some(WorkerMessage::Error(e)),
            },
            After::StartTimer { direction, duration_ms, ensure_tracking } => match outcome {
                Ok(_) => {
                    self.timed_move =
                    Some(TimedMove { deadline: now + duration_ms, direction, ensure_tracking });
                    None
                },
                Err(e) => Some(WorkerMessage::Error(e)),
            },
        }
    }

    /// Takes the outcome of opening a port: the mount's identity, or why it
    /// could not be had.
    pub fn opened(&mut self, name: String, identity: Result<String, String>) -> (message:
        WorkerMessage)
        ensures
            match identity {
                Ok(model) => final(self).open && message == (WorkerMessage::Connected {
                    port: name,
                    model,
                }),
                Err(e) => final(self).open == old(self).open && message == WorkerMessage::Error(e),
            },
            final(self).timed_move == old(self).timed_move,
    {
        match identity {
            Ok(model) => {
                self.open = true;
                WorkerMessage::Connected { port: name, model }
            },
            Err(e) => WorkerMessage::Error(e),
        }
    }
}

/// The worker after the outcome of a sequence at a time.
pub open spec fn finished_at(w: Worker, after: After, went_through: bool, now: u64) -> Worker {
    match after {
        After::StartTimer { direction, duration_ms, ensure_tracking } if went_through => Worker {
            timed_move: Some(
                TimedMove { deadline: (now + duration_ms) as u64, direction, ensure_tracking },
            ),
            ..w
        },
        _ => w,
    }
}

/// The commands that are due at a time.
pub open spec fn due_at(w: Worker, now: u64) -> Option<Seq<Op>> {
    match w.timed_move {
        Some(t) if now >= t.deadline => Some(stop_ops(w.open, t)),
        _ => None,
    }
}

/// How long the worker waits at a time.
pub open spec fn pause_at(w: Worker, now: u64) -> int {
    match w.timed_move {
        Some(t) if t.deadline < now + 100 => if t.deadline > now {
            t.deadline - now
        } else {
            0
        },
        _ => 100,
    }
}

/// Ends a timed move: its own direction is stopped, and tracking comes back
/// where the move asked for it.
pub open spec fn stop_ops(open: bool, t: TimedMove) -> Seq<Op> {
    if !open {
        seq![]
    } else if t.ensure_tracking {
        seq![try_to(Wire::StopOne(t.direction)), try_to(Wire::EnableTracking)]
    } else {
        seq![try_to(Wire::StopOne(t.direction))]
    }
}

/// A stop, a nudge, a slew, the way home or to the park position, and a change of
/// the connection forget the deadline of the move before them, so that it stops
/// none of these. A jog by hand keeps it: the deadline of a nudge that still runs
/// stops its own direction, whatever the hand does meanwhile.
pub proof fn no_stale_deadline(w: Worker, command: WorkerCommand)
    requires
        !(command is Poll) && !(command is SetRate) && !(command is Unpark) && !(
        command is SetTracking) && !(command is SyncSiteTime) && !(command is MarkPosition) && !(
        command is SetSolarRate) && !(command is Shutdown),
    ensures
        !(command is Jog) ==> planned(w, command).0.timed_move is None,
        command is Jog ==> planned(w, command).0.timed_move == w.timed_move,
{
}

/// A nudge that keeps the Sun selects the solar rate before it enables
/// tracking and before the mount moves, and the move is the last command.
pub proof fn nudge_tracks_before_moving(
    w: Worker,
    direction: Direction,
    duration_ms: u64,
    rate: u8,
)
    requires
        w.open,
    ensures
        ({
            let work = planned(
                w,
                WorkerCommand::Nudge { direction, duration_ms, rate, ensure_tracking: true },
            ).1;
            &&& work is Run
            &&& work->Run_ops.len() >= 4
            &&& work->Run_ops.last() == must(Wire::Move(direction))
            &&& work->Run_ops[work->Run_ops.len() - 4] == must(Wire::SolarRate)
            &&& work->Run_ops[work->Run_ops.len() - 3] == must(Wire::EnableTracking)
        }),
{
}

/// Without an open port nothing but the farewell of a disconnection is put on
/// the wire, and that is empty.
pub proof fn closed_port_sends_nothing(w: Worker, command: WorkerCommand)
    requires
        !w.open,
    ensures
        match planned(w, command).1 {
            WorkView::Run { ops, .. } => ops.len() == 0,
            WorkView::Open { ops, .. } => ops.len() == 0,
            WorkView::Quit { ops } => ops.len() == 0,
            WorkView::ReadStatus => false,
            WorkView::ReadPointing => false,
            WorkView::SyncSite => false,
            _ => true,
        },
{
}

/// Only a return to the mark leaves the tracking rate alone; the way to the
/// Sun selects the solar rate.
pub proof fn slew_rate_choice(p: Pointing)
    ensures
        slew_ops(p, true).contains(must(Wire::SolarRate)),
        !slew_ops(p, false).contains(must(Wire::SolarRate)),
        slew_ops(p, true).last() == must(Wire::Goto),
        slew_ops(p, false).last() == must(Wire::Goto),
{
    assert(slew_ops(p, true)[3] == must(Wire::SolarRate));
    assert(slew_ops(p, false).len() == 4);
}

// ---------------------------------------------------------------------------
// Messages to the panel
// ---------------------------------------------------------------------------

/// A report from the worker.
pub enum WorkerMessage {
    Connected { port: String, model: String },
    Disconnected(String),
    Snapshot(MountSnapshot),
    Notice(String),
    NudgeDone,
    Marked(Pointing),
    Error(String),
}

/// Status of the mount, as far as it answered.
pub struct MountSnapshot {
    pub ra: Option<String>,
    pub dec: Option<String>,
    pub altitude: Option<String>,
    pub azimuth: Option<String>,
    pub tracking: Option<String>,
    pub slewing: Option<bool>,
    pub home: Option<String>,
    pub park: Option<String>,
    pub flags: Option<String>,
}

pub open spec fn park_text(reply: Seq<char>) -> Seq<char> {
    if reply == "1"@ {
        "Parking"@
    } else if reply == "2"@ {
        "Parked"@
    } else if reply == "3"@ {
        "Park error"@
    } else {
        "Not parked"@
    }
}

/// The status queries, in the order of the replies that `snapshot_of` takes:
/// flags, parking, right ascension, declination, altitude, azimuth, tracking.
pub fn status_queries() -> (q: [&'static str; 7])
    ensures
        q@[0]@ == ":GU#"@,
        q@[1]@ == ":Gps#"@,
        q@[2]@ == ":GR#"@,
        q@[3]@ == ":GD#"@,
        q@[4]@ == ":GA#"@,
        q@[5]@ == ":GZ#"@,
        q@[6]@ == ":GAT#"@,
{
    [":GU#", ":Gps#", ":GR#", ":GD#", ":GA#", ":GZ#", ":GAT#"]
}

/// The queries of a pointing: right ascension and declination.
pub fn pointing_queries() -> (q: [&'static str; 2])
    ensures
        q@[0]@ == ":GR#"@,
        q@[1]@ == ":GD#"@,
{
    [":GR#", ":GD#"]
}

/// The query of the model of a mount.
pub fn identity_query() -> (q: &'static str)
    ensures
        q@ == ":GVP#"@,
{
    ":GVP#"
}

/// The queries that read a synchronised site back: latitude, longitude and local
/// time.
pub fn site_queries() -> (q: [&'static str; 3])
    ensures
        q@[0]@ == ":Gt#"@,
        q@[1]@ == ":Gg#"@,
        q@[2]@ == ":GL#"@,
{
    [":Gt#", ":Gg#", ":GL#"]
}

/// What a query of the site gave, or a question mark.
pub fn site_reply(reply: Result<String, String>) -> (text: String)
    ensures
        text@ == (match reply {
            Ok(t) => t@,
            Err(_) => "?"@,
        }),
{
    match reply {
        Ok(t) => t,
        Err(_) => "?".to_owned(),
    }
}

/// Why nothing can be sent.
pub fn unconnected_text() -> (text: &'static str)
    ensures
        text@ == "mount is not connected"@,
{
    "mount is not connected"
}

/// The report of a poll without a mount.
pub fn nothing_to_poll() -> (m: WorkerMessage)
    ensures
        m matches WorkerMessage::Disconnected(t) && t@ == "Not connected"@,
{
    WorkerMessage::Disconnected("Not connected".to_owned())
}

/// The report of a request that needs a mount.
pub fn needs_mount() -> (m: WorkerMessage)
    ensures
        m matches WorkerMessage::Error(t) && t@ == "mount is not connected"@,
{
    WorkerMessage::Error(unconnected_text().to_owned())
}

/// Reads the status out of the replies to the status queries.
pub fn snapshot_of(
    flags: Option<String>,
    park: Option<String>,
    ra: Option<String>,
    dec: Option<String>,
    altitude: Option<String>,
    azimuth: Option<String>,
    tracking: Option<String>,
) -> (s: MountSnapshot)
    ensures
        s.flags == flags,
        s.ra == ra,
        s.dec == dec,
        s.altitude == altitude,
        s.azimuth == azimuth,
        opt_text(s.home) == match flags {
            Some(f) => Some(
                if f@.contains('H') {
                    "At home"@
                } else {
                    "Away"@
                },
            ),
            None => None,
        },
        s.slewing == match flags {
            Some(f) => Some(!f@.contains('N')),
            None => None,
        },
        opt_text(s.park) == match park {
            Some(p) => Some(park_text(p@)),
            None => None,
        },
        opt_text(s.tracking) == match tracking {
            Some(t) => Some(
                if t@.len() > 0 && t@[0] == '1' {
                    "On"@
                } else {
                    "Off"@
                },
            ),
            None => None,
        },
{
    let home = match &flags {
        Some(f) => Some(
            if contains_char(f.as_str(), 'H') {
                "At home".to_owned()
            } else {
                "Away".to_owned()
            },
        ),
        None => None,
    };
    let slewing = match &flags {
        Some(f) => Some(!contains_char(f.as_str(), 'N')),
        None => None,
    };
    let park_state = match &park {
        Some(p) => Some(
            if same_text(p.as_str(), "1") {
                "Parking".to_owned()
            } else if same_text(p.as_str(), "2") {
                "Parked".to_owned()
            } else if same_text(p.as_str(), "3") {
                "Park error".to_owned()
            } else {
                "Not parked".to_owned()
            },
        ),
        None => None,
    };
    let tracking_state = match &tracking {
        Some(t) => Some(
            if starts_with_char(t.as_str(), '1') {
                "On".to_owned()
            } else {
                "Off".to_owned()
            },
        ),
        None => None,
    };
    MountSnapshot {
        ra,
        dec,
        altitude,
        azimuth,
        tracking: tracking_state,
        slewing,
        home,
        park: park_state,
        flags,
    }
}

/// The identity of a mount on a port that could be opened: a port that does
/// not answer, or answers nothing, is no mount.
pub fn probe_identity(name: &str, reply: Result<String, String>) -> (identity: Result<
    String,
    String,
>)
    ensures
        match (reply, identity) {
            (Ok(model), Ok(m)) => m == model && trim(model@).len() > 0,
            (Ok(model), Err(e)) => trim(model@).len() == 0 && e@ == name@
                + " returned an empty mount identity"@,
            (Err(error), Err(e)) => e@ == name@ + " did not answer as an LX200/ZWO mount: "@
                + error@,
            (Err(_), Ok(_)) => false,
        },
{
    match reply {
        Err(error) => Err(
            joined3(name, " did not answer as an LX200/ZWO mount: ", error.as_str()),
        ),
        Ok(model) => if trimmed(model.as_str()).as_str().unicode_len() == 0 {
            Err(joined2(name, " returned an empty mount identity"))
        } else {
            Ok(model)
        },
    }
}

// ---------------------------------------------------------------------------
// What the worker promises
// ---------------------------------------------------------------------------

/// No request turns tracking on without the solar rate being asked for before it.
/// The one that stops an acquisition leaves the rate alone: it was selected when
/// the move began.
pub proof fn tracking_follows_the_sun(w: Worker, command: WorkerCommand, k: int)
    requires
        !(command is StopAcquisition),
        planned(w, command).1 is Run,
        0 <= k < planned(w, command).1->Run_ops.len(),
        planned(w, command).1->Run_ops[k].wire == Wire::EnableTracking,
    ensures
        command is SetTracking || command is Nudge,
        exists|j: int|
            0 <= j < k && (#[trigger] planned(w, command).1->Run_ops[j]).wire == Wire::SolarRate,
{
    let ops = planned(w, command).1->Run_ops;
    match command {
        WorkerCommand::SetTracking(_) => {
            assert(ops[0].wire == Wire::SolarRate);
        },
        WorkerCommand::Nudge { .. } => {
            let before = stop_running(w.timed_move).len() as int;
            assert(ops[before].wire == Wire::SolarRate);
        },
        _ => {},
    }
}

/// The request to track selects the solar rate and then enables tracking; the
/// request not to track disables it and does nothing else. The notice says which.
pub proof fn tracking_is_switched_as_asked(w: Worker, enable: bool)
    requires
        w.open,
    ensures
        ({
            let (next, work) = planned(w, WorkerCommand::SetTracking(enable));
            let ops = work->Run_ops;
            &&& work is Run && next == w
            &&& (enable ==> ops.len() == 2 && ops[0].wire == Wire::SolarRate && ops[1].wire
                == Wire::EnableTracking && ops[1].must && work->after == After::Say(
                Notice::TrackingEnabled,
            ))
            &&& (!enable ==> ops.len() == 1 && ops[0].wire == Wire::DisableTracking && ops[0].must
                && work->after == After::Say(Notice::TrackingDisabled))
        }),
{
}

/// A timed move stops the one that runs, sets its rate and moves last, in the
/// direction that was asked for; the rate is the asked one, at most the fastest.
/// Its timer is for the same direction, duration and tracking.
pub proof fn nudges_do_what_was_asked(
    w: Worker,
    direction: Direction,
    duration_ms: u64,
    rate: u8,
    ensure_tracking: bool,
)
    requires
        w.open,
    ensures
        ({
            let (next, work) = planned(
                w,
                WorkerCommand::Nudge { direction, duration_ms, rate, ensure_tracking },
            );
            let ops = work->Run_ops;
            let n = ops.len() as int;
            &&& work is Run && next.open && next.timed_move is None
            &&& n >= 2 && ops[n - 1].wire == Wire::Move(direction)
            &&& ops[n - 2].wire == Wire::Rate(
                if rate <= 9 {
                    rate
                } else {
                    9
                },
            )
            &&& (w.timed_move matches Some(m) ==> ops[0].wire == Wire::StopOne(m.direction))
            &&& n == 2 + (if w.timed_move is Some {
                1int
            } else {
                0
            }) + (if ensure_tracking {
                2int
            } else {
                0
            })
            &&& forall|k: int| 0 <= k < n ==> (#[trigger] ops[k]).must
            &&& work->after == (After::StartTimer { direction, duration_ms, ensure_tracking })
        }),
{
}

/// A timed move runs for its duration: nothing is due before, and from then on its
/// own direction is stopped, and no other. Tracking comes back where the move was
/// to keep it, and nowhere else. A move that was not started is never stopped.
pub proof fn timed_moves_end_in_time(
    w: Worker,
    direction: Direction,
    duration_ms: u64,
    ensure_tracking: bool,
    started: u64,
    now: u64,
)
    requires
        w.open,
        w.timed_move is None,
        started <= CLOCK_LIMIT_MS && duration_ms <= CLOCK_LIMIT_MS,
    ensures
        ({
            let after = After::StartTimer { direction, duration_ms, ensure_tracking };
            let moving = finished_at(w, after, true, started);
            &&& due_at(finished_at(w, after, false, started), now) is None
            &&& (now < started + duration_ms ==> due_at(moving, now) is None)
            &&& (now >= started + duration_ms ==> due_at(moving, now) is Some)
            &&& (due_at(moving, now) matches Some(ops) ==> {
                &&& ops.len() > 0 && ops[0].wire == Wire::StopOne(direction)
                &&& (ensure_tracking ==> ops.len() == 2 && ops[1].wire == Wire::EnableTracking)
                &&& (!ensure_tracking ==> ops.len() == 1)
            })
        }),
{
}

/// The worker never sleeps past the end of a move, nor longer than a tenth of a
/// second, and not at all once a stop is due.
pub proof fn worker_wakes_in_time(w: Worker, now: u64)
    ensures
        0 <= pause_at(w, now) <= 100,
        due_at(w, now) is Some ==> pause_at(w, now) == 0,
        due_at(w, now) is None ==> pause_at(w, now) > 0,
        w.timed_move matches Some(t) ==> (now + pause_at(w, now) <= t.deadline || pause_at(w, now)
            == 0),
        w.timed_move is None ==> pause_at(w, now) == 100,
{
}

/// A stop halts every direction at once and is the only thing that is sent; a stop
/// of an acquisition halts the move that runs and leaves the mount tracking.
pub proof fn stops_stop(w: Worker)
    requires
        w.open,
    ensures
        ({
            let (next, work) = planned(w, WorkerCommand::Stop);
            let ops = work->Run_ops;
            &&& work is Run && ops.len() == 1 && ops[0].wire == Wire::StopAll && ops[0].must
            &&& next.open && next.timed_move is None
        }),
        ({
            let (next, work) = planned(w, WorkerCommand::StopAcquisition);
            let ops = work->Run_ops;
            &&& work is Run && next.open && next.timed_move is None
            &&& ops.len() > 0 && ops.last().wire == Wire::EnableTracking && ops.last().must
            &&& (w.timed_move matches Some(m) ==> ops.len() == 2 && ops[0].wire == Wire::StopOne(
                m.direction,
            ))
            &&& (w.timed_move is None ==> ops.len() == 1)
        }),
{
}

/// Every long way starts with a stop and ends with the command for it: a GoTo after
/// its target was set, the way home, the way to the park position.
pub proof fn long_ways_start_with_a_stop(w: Worker, p: Pointing)
    requires
        w.open,
    ensures
        ({
            let ops = planned(w, WorkerCommand::GoHome).1->Run_ops;
            ops.len() == 2 && ops[0].wire == Wire::StopAll && ops[1].wire == Wire::Home
        }),
        ({
            let ops = planned(w, WorkerCommand::Park).1->Run_ops;
            ops.len() == 2 && ops[0].wire == Wire::StopAll && ops[1].wire == Wire::Park
        }),
        ({
            let sun = planned(w, WorkerCommand::SlewSun(p)).1->Run_ops;
            let back = planned(w, WorkerCommand::SlewTo(p)).1->Run_ops;
            let ra = Wire::SetRa(p.ra_seconds);
            let dec = Wire::SetDec { negative: p.dec_negative, arcseconds: p.dec_arcseconds };
            &&& sun.len() == 5 && sun[0].wire == Wire::StopAll && sun[1].wire == ra && sun[2].wire
                == dec && sun[3].wire == Wire::SolarRate && sun[4].wire == Wire::Goto
            &&& back.len() == 4 && back[0].wire == Wire::StopAll && back[1].wire == ra
                && back[2].wire == dec && back[3].wire == Wire::Goto
            &&& forall|k: int| 0 <= k < 5 ==> (#[trigger] sun[k]).must
            &&& forall|k: int| 0 <= k < 4 ==> (#[trigger] back[k]).must
        }),
{
}

/// The other requests put exactly their own command on the wire.
pub proof fn plain_requests_send_one_command(w: Worker, d: Direction, rate: u8)
    requires
        w.open,
    ensures
        planned(w, WorkerCommand::Jog(d)).1->Run_ops =~= seq![must(Wire::Move(d))],
        planned(w, WorkerCommand::SetRate(rate)).1->Run_ops =~= seq![must(Wire::Rate(rate))],
        planned(w, WorkerCommand::Unpark).1->Run_ops =~= seq![must(Wire::Unpark)],
        planned(w, WorkerCommand::SetSolarRate).1->Run_ops =~= seq![must(Wire::SolarRate)],
        planned(w, WorkerCommand::Poll) == (w, WorkView::ReadStatus),
        planned(w, WorkerCommand::MarkPosition) == (w, WorkView::ReadPointing),
        planned(w, WorkerCommand::SyncSiteTime) == (w, WorkView::SyncSite),
{
}

/// A port is never left with the mount in motion: a change of the connection and
/// the end of the worker stop everything first.
pub proof fn ports_are_left_at_rest(w: Worker, name: String)
    requires
        w.open,
    ensures
        ({
            let (next, work) = planned(w, WorkerCommand::Connect(name));
            &&& work is Open && work->name == name@ && !next.open
            &&& work->Open_ops.len() == 1 && work->Open_ops[0].wire == Wire::StopAll
        }),
        ({
            let (next, work) = planned(w, WorkerCommand::Disconnect);
            &&& work is Run && work->after == After::Disconnected && !next.open
            &&& work->Run_ops.len() == 1 && work->Run_ops[0].wire == Wire::StopAll
        }),
        ({
            let (next, work) = planned(w, WorkerCommand::Shutdown);
            &&& work is Quit && !next.open
            &&& work->Quit_ops.len() == 1 && work->Quit_ops[0].wire == Wire::StopAll
        }),
{
}

/// What was asked for has to go through: only the solar rate before tracking and the stop
/// of a port that is left may fail in silence.
pub proof fn requests_have_to_go_through(w: Worker, command: WorkerCommand, k: int)
    requires
        planned(w, command).1 is Run,
        !(command is Disconnect),
        0 <= k < planned(w, command).1->Run_ops.len(),
    ensures
        planned(w, command).1->Run_ops[k].must || (command == WorkerCommand::SetTracking(true)
            && planned(w, command).1->Run_ops[k].wire == Wire::SolarRate),
        planned(w, command).1->Run_ops.last().must,
{
}

} // verus!
