use ghostsun_app::auto_center::{
    AutoCenter, AutoCenterOrigin, AutoCenterPass, AutoCenterPhase, AutoOutput, AutoStatus,
    AutoStep, CancelReason,
};
use ghostsun_app::double::seconds_text;
use ghostsun_app::lx200::{Pointing, Wire};
use ghostsun_app::mount::Direction;
use ghostsun_app::mount_panel::{ConfirmedMotion, MountState, PortInfo, Request};
use ghostsun_app::mount_worker::{
    identity_query, needs_mount, nothing_to_poll, pointing_queries, probe_identity, site_queries,
    site_reply, snapshot_of, status_queries, unconnected_text, After, Notice, Op, Work, Worker,
    WorkerCommand, WorkerMessage,
};
use ghostsun_app::order::text_before;
use ghostsun_app::site::sort_ports;
use ghostsun_app::text::{
    decimal_string, padded_string, parse_signed, parse_unsigned, signed_decimal_string,
    signed_padded_string, split_at_first, trimmed,
};

fn open_worker() -> Worker {
    let mut w = Worker::new();
    assert!(matches!(w.accept(WorkerCommand::Connect("COM3".to_owned())), Work::Open { .. }));
    let message = w.opened("COM3".to_owned(), Ok("AM5".to_owned()));
    assert!(matches!(message, WorkerMessage::Connected { .. }));
    w
}

fn nudge(duration_ms: u64) -> WorkerCommand {
    WorkerCommand::Nudge {
        direction: Direction::East,
        duration_ms,
        rate: 4,
        ensure_tracking: true,
    }
}

fn wires(ops: &[Op]) -> Vec<Wire> {
    ops.iter().map(|op| op.wire).collect()
}

#[test]
fn a_nudge_tracks_before_it_moves_and_stops_in_time() {
    let mut w = open_worker();
    let (ops, after) = match w.accept(nudge(400)) {
        Work::Run { ops, after } => (ops, after),
        _ => panic!("the nudge is carried out"),
    };
    assert_eq!(
        wires(&ops),
        vec![
            Wire::SolarRate,
            Wire::EnableTracking,
            Wire::Rate(4),
            Wire::Move(Direction::East)
        ]
    );
    assert!(w.finish(after, Ok(()), 1_000).is_none());
    assert_eq!(w.wait_ms(1_350), 50);
    assert_eq!(w.wait_ms(1_000), 100);
    assert!(w.due(1_399).is_none());
    let stop = w.due(1_400).unwrap();
    assert_eq!(wires(&stop), vec![Wire::StopOne(Direction::East), Wire::EnableTracking]);
    assert!(w.due(1_400).is_none());
}

#[test]
fn a_stop_forgets_the_deadline() {
    let mut w = open_worker();
    if let Work::Run { after, .. } = w.accept(nudge(400)) {
        w.finish(after, Ok(()), 1_000);
    }
    assert!(w.timed_move.is_some());
    assert!(matches!(w.accept(WorkerCommand::Stop), Work::Run { .. }));
    assert!(w.due(9_000).is_none());
}

#[test]
fn a_closed_port_sends_nothing() {
    let mut w = Worker::new();
    assert!(matches!(w.accept(nudge(400)), Work::Nothing));
    assert!(matches!(w.accept(WorkerCommand::Poll), Work::ReportDisconnected));
    assert!(matches!(w.accept(WorkerCommand::MarkPosition), Work::ReportNotConnected));
    let failed = w.opened("COM3".to_owned(), Err("silent".to_owned()));
    assert!(matches!(failed, WorkerMessage::Error(_)));
    assert!(!w.open);
}

#[test]
fn slews_set_the_target_first() {
    let mut w = open_worker();
    let sun = Pointing { ra_seconds: 19_800, dec_negative: false, dec_arcseconds: 45_000 };
    let (ops, after) = match w.accept(WorkerCommand::SlewSun(sun)) {
        Work::Run { ops, after } => (ops, after),
        _ => panic!("the slew is carried out"),
    };
    assert_eq!(
        wires(&ops),
        vec![
            Wire::StopAll,
            Wire::SetRa(19_800),
            Wire::SetDec { negative: false, arcseconds: 45_000 },
            Wire::SolarRate,
            Wire::Goto
        ]
    );
    assert!(matches!(after, After::Say(Notice::SunSlewStarted)));
    match w.finish(after, Ok(()), 0) {
        Some(WorkerMessage::Notice(text)) => {
            assert_eq!(text, "Sun slew started; solar tracking requested")
        }
        _ => panic!("the slew is told"),
    }
    match w.finish(After::Quiet, Err("e5".to_owned()), 0) {
        Some(WorkerMessage::Error(text)) => assert_eq!(text, "e5"),
        _ => panic!("the error is told"),
    }
}

#[test]
fn replies_become_a_snapshot() {
    let text = |s: &str| Some(s.to_owned());
    let s = snapshot_of(text("nNH"), text("0"), None, None, None, None, text("1"));
    assert_eq!(s.slewing, Some(false));
    assert_eq!(s.home.as_deref(), Some("At home"));
    assert_eq!(s.tracking.as_deref(), Some("On"));
    let s = snapshot_of(text("G"), None, None, None, None, None, text("0"));
    assert_eq!(s.slewing, Some(true));
    assert_eq!(s.home.as_deref(), Some("Away"));
    assert_eq!(s.tracking.as_deref(), Some("Off"));
    assert_eq!(probe_identity("COM3", Ok("AM5".to_owned())), Ok("AM5".to_owned()));
    assert_eq!(
        probe_identity("COM3", Ok(" ".to_owned())),
        Err("COM3 returned an empty mount identity".to_owned())
    );
    assert_eq!(
        probe_identity("COM3", Err("timeout".to_owned())),
        Err("COM3 did not answer as an LX200/ZWO mount: timeout".to_owned())
    );
}

fn panel() -> MountState {
    let mut m = MountState::new(0);
    m.link.connected = true;
    m
}

fn commands(m: &MountState) -> usize {
    m.outbox.iter().filter(|r| matches!(r, Request::Worker(_))).count()
}

#[test]
fn one_motion_runs_at_a_time() {
    let mut m = panel();
    assert!(m.start_acquisition_nudge(Direction::East, 400, 4).is_ok());
    assert_eq!(
        m.start_acquisition_nudge(Direction::East, 400, 4),
        Err("another mount motion is already active".to_owned())
    );
    let mut off = MountState::new(0);
    assert_eq!(
        off.start_acquisition_nudge(Direction::East, 400, 4),
        Err("connect the mount first".to_owned())
    );
    let mut gone = panel();
    gone.link.worker_running = false;
    assert_eq!(
        gone.start_acquisition_nudge(Direction::East, 400, 4),
        Err("mount worker is not running".to_owned())
    );
    m.on_message(WorkerMessage::NudgeDone, "", 10);
    assert!(m.take_acquisition_nudge_done());
    assert!(!m.take_acquisition_nudge_done());
    assert!(m.start_acquisition_nudge(Direction::West, 400, 4).is_ok());
    assert_eq!(commands(&m), 2);
}

#[test]
fn dangerous_motions_are_confirmed_first() {
    let mut m = panel();
    m.press_home();
    assert_eq!(m.confirm.motion, Some(ConfirmedMotion::GoHome));
    assert_eq!(commands(&m), 0);
    m.cancel_pending_motion();
    assert_eq!(m.confirm.motion, None);
    m.press_park();
    m.confirm_pending_motion(5);
    assert_eq!(m.confirm.motion, None);
    assert!(m.outbox.iter().any(|r| matches!(r, Request::Worker(WorkerCommand::Park))));
    assert_ne!(ConfirmedMotion::Park.title(), ConfirmedMotion::GoHome.title());
}

#[test]
fn a_search_that_ends_restores_the_camera() {
    let mut m = panel();
    let sun = Pointing { ra_seconds: 0, dec_negative: false, dec_arcseconds: 0 };
    m.begin_auto_center(AutoCenterOrigin::CurrentPoint, Ok(()), 2, sun, "0.4", 0);
    assert!(m.auto_center.is_some());
    let search = m.auto_center.as_ref().unwrap();
    assert!(matches!(search.phase, AutoCenterPhase::Settling { .. }));
    let mut to_sun = panel();
    to_sun.begin_auto_center(AutoCenterOrigin::SunGoTo, Ok(()), 2, sun, "0.4", 7);
    let search = to_sun.auto_center.as_ref().unwrap();
    assert_eq!(search.phase, AutoCenterPhase::AwaitingSlew { started: 7, saw_motion: false });
    m.cancel_auto_center("stopped by the user");
    assert!(m.auto_center.is_none());
    assert!(m.outbox.iter().any(|r| matches!(r, Request::RestoreCamera)));
    let mut m = panel();
    m.begin_auto_center(
        AutoCenterOrigin::CurrentPoint,
        Err("no camera".to_owned()),
        2,
        sun,
        "0.4",
        0,
    );
    assert!(m.auto_center.is_none());
    assert!(m.status.contains("no camera"));
}

#[test]
fn a_lost_connection_is_shown() {
    let mut m = panel();
    m.on_message(
        WorkerMessage::Connected { port: "COM3".to_owned(), model: "AM5".to_owned() },
        "",
        5,
    );
    assert!(m.is_connected());
    assert_eq!(m.link.model.as_deref(), Some("AM5"));
    m.on_message(WorkerMessage::Disconnected("unplugged".to_owned()), "", 6);
    assert!(!m.is_connected());
    assert_eq!(m.status, "unplugged");
}

#[test]
fn marks_are_returned_to_on_request() {
    let mut m = panel();
    m.mark_here();
    assert!(matches!(m.outbox[0], Request::Worker(WorkerCommand::MarkPosition)));
    let here = Pointing { ra_seconds: 10, dec_negative: true, dec_arcseconds: 20 };
    m.on_message(WorkerMessage::Marked(here), "10 s, -20\"", 5);
    assert_eq!(m.mark, Some(here));
    m.return_to_mark(false, true, "12.0");
    assert!(m.confirm.return_to_mark);
    m.return_to_mark(true, true, "12.0");
    assert!(m.outbox.iter().any(|r| matches!(r, Request::Worker(WorkerCommand::SlewTo(_)))));
    m.clear_mark();
    assert_eq!(m.mark, None);
}

#[test]
fn ports_are_refreshed_and_mounts_chosen() {
    let mut m = MountState::new(0);
    let port = |name: &str, is_zwo| PortInfo { name: name.to_owned(), detail: String::new(), is_zwo };
    let found = sort_ports(vec![port("COM1", false), port("COM3", true)]);
    m.refresh_ports(Ok(found), "ports", 5);
    assert_eq!(m.link.port_name, "COM3");
    assert_eq!(m.status, "Detected ZWO USB mount on COM3");
    m.refresh_ports(Err("denied".to_owned()), "ports", 6);
    assert!(m.status.contains("denied"));
}

#[test]
fn an_acquisition_move_is_named() {
    let mut m = panel();
    m.start_acquisition_nudge(Direction::East, 320, 4).unwrap();
    assert_eq!(m.status, "Acquisition motion: E for 0.32 s");
    m.on_message(WorkerMessage::NudgeDone, "", 5);
    assert_eq!(m.status, "Acquisition motion complete");
    m.start_acquisition_nudge(Direction::North, 48_000, 4).unwrap();
    assert_eq!(m.status, "Acquisition motion: N for 48.00 s");
    m.on_message(WorkerMessage::Error("stalled".to_owned()), "", 6);
    assert_eq!(m.take_acquisition_error().as_deref(), Some("stalled"));
    assert_eq!(m.take_acquisition_error(), None);
    m.request_solar_tracking_rate();
    assert!(matches!(m.outbox.last(), Some(Request::Worker(WorkerCommand::SetSolarRate))));
    m.stop_acquisition_motion();
    assert!(matches!(m.outbox.last(), Some(Request::Worker(WorkerCommand::StopAcquisition))));
    assert!(!m.motion.acquisition_inflight);
}

#[test]
fn durations_are_written_as_doubles_are() {
    let mut odd: Vec<u64> = (0..20_000).collect();
    odd.extend((0..3_000).map(|i| 1_234_567_890_120 + i));
    odd.extend((0..3_000).map(|i| u64::MAX - i));
    odd.extend((0..64).map(|k| (1u64 << k) + 125));
    for ms in odd {
        let seconds = std::time::Duration::from_millis(ms).as_secs_f64();
        assert_eq!(seconds_text(ms), format!("{seconds:.2}"), "{ms} ms");
    }
}

#[test]
fn the_mount_is_asked_in_the_order_of_its_answers() {
    assert_eq!(
        status_queries(),
        [":GU#", ":Gps#", ":GR#", ":GD#", ":GA#", ":GZ#", ":GAT#"]
    );
    assert_eq!(pointing_queries(), [":GR#", ":GD#"]);
    assert_eq!(identity_query(), ":GVP#");
    assert_eq!(site_queries(), [":Gt#", ":Gg#", ":GL#"]);
    assert_eq!(site_reply(Ok("+46".to_owned())), "+46");
    assert_eq!(site_reply(Err("silent".to_owned())), "?");
    assert!(matches!(nothing_to_poll(), WorkerMessage::Disconnected(t) if t == "Not connected"));
    assert!(matches!(needs_mount(), WorkerMessage::Error(t) if t == unconnected_text()));
}

#[test]
fn a_held_button_jogs_until_it_is_let_go() {
    let mut m = panel();
    m.jog_buttons(Some(Direction::West), true);
    assert_eq!(commands(&m), 2);
    assert!(matches!(
        m.outbox.last(),
        Some(Request::Worker(WorkerCommand::Jog(Direction::West)))
    ));
    m.jog_buttons(None, true);
    assert_eq!(commands(&m), 2);
    assert_eq!(m.motion.active_direction, Some(Direction::West));
    m.jog_buttons(None, false);
    assert!(matches!(m.outbox.last(), Some(Request::Worker(WorkerCommand::Stop))));
    assert_eq!(m.motion.active_direction, None);
    m.update_held_direction(Some(Direction::North));
    m.select_rate(6);
    assert_eq!(m.jog.rate_index, 6);
    assert!(matches!(m.outbox.last(), Some(Request::Worker(WorkerCommand::SetRate(6)))));
    assert_eq!(m.motion.active_direction, None);
    m.stop_motion();
    assert!(matches!(m.outbox.last(), Some(Request::Worker(WorkerCommand::Stop))));
}

#[test]
fn a_timed_jog_marks_its_origin_first() {
    let mut m = panel();
    m.start_timed_jog(2_000, "2.0", 10);
    assert!(matches!(m.outbox[0], Request::Worker(WorkerCommand::MarkPosition)));
    assert!(matches!(
        m.outbox[1],
        Request::Worker(WorkerCommand::Nudge {
            direction: Direction::North,
            duration_ms: 2_000,
            rate: 7,
            ensure_tracking: false
        })
    ));
    assert!(m.status.starts_with("Jogging N for 2.0 s at "), "{}", m.status);
    m.start_timed_jog(9_000, "9.0", 20);
    assert_eq!(m.outbox.len(), 2);
    m.cancel_timed_jog();
    assert_eq!(m.status, "Timed jog stopped");
    assert_eq!(m.motion.timed_jog, None);
    m.start_timed_jog(1, "0.1", 30);
    assert_eq!(m.motion.timed_jog.unwrap().duration_ms, 100);
    m.on_message(WorkerMessage::NudgeDone, "", 40);
    assert_eq!(m.status, "Timed jog complete");
    let mut off = MountState::new(0);
    off.start_timed_jog(2_000, "2.0", 10);
    assert_eq!(off.status, "Connect the mount first");
}

#[test]
fn tracking_is_turned_over() {
    let mut m = panel();
    assert!(!m.tracking_is_on());
    m.press_track(77);
    assert_eq!(m.status, "Enabling tracking...");
    assert_eq!(m.link.poll_due, 77);
    m.link.snapshot.tracking = Some("On".to_owned());
    assert!(m.tracking_is_on());
    m.press_track(78);
    assert_eq!(m.status, "Disabling tracking...");
    assert!(matches!(m.outbox.last(), Some(Request::Worker(WorkerCommand::SetTracking(false)))));
    m.press_unpark();
    assert!(matches!(m.outbox.last(), Some(Request::Worker(WorkerCommand::Unpark))));
    m.link.snapshot.flags = Some("nNZ".to_owned());
    assert!(!m.equatorial());
    m.press_park();
    assert_eq!(m.confirm.motion, None);
    assert_eq!(m.status, "Park is only available in equatorial mode (not alt-az)");
}

#[test]
fn the_sun_is_approached_after_a_confirmation() {
    let mut m = panel();
    let sun = Pointing { ra_seconds: 1, dec_negative: false, dec_arcseconds: 2 };
    m.confirm_sun_slew(sun);
    assert_eq!(commands(&m), 0);
    m.prepare_sun();
    assert!(m.confirm.sun);
    m.confirm_sun_slew(sun);
    assert!(!m.confirm.sun);
    assert!(matches!(m.outbox.last(), Some(Request::Worker(WorkerCommand::SlewSun(_)))));
    m.prepare_auto_center(AutoCenterOrigin::CurrentPoint);
    assert!(m.confirm.auto_center);
    m.begin_auto_center(AutoCenterOrigin::CurrentPoint, Ok(()), 2, sun, "0.4", 0);
    let out = AutoOutput {
        record: false,
        step: AutoStep::Nudge(Direction::East),
        status: AutoStatus::Unchanged,
    };
    m.apply_search(out, "");
    assert!(matches!(
        m.outbox.last(),
        Some(Request::Worker(WorkerCommand::Nudge { direction: Direction::East, .. }))
    ));
    m.press_stop();
    assert!(m.auto_center.is_none());
    assert_eq!(m.status, "Sun auto-center stopped");
    assert!(matches!(m.outbox.last(), Some(Request::Worker(WorkerCommand::Stop))));
}

#[test]
fn the_connection_is_asked_for_and_kept_alive() {
    let mut m = MountState::new(0);
    assert_eq!((m.link.scan_due, m.link.poll_due), (0, 750));
    assert!(m.housekeeping(1));
    m.press_connect();
    assert_eq!(commands(&m), 0);
    m.link.port_name = " COM3 ".to_owned();
    m.press_connect();
    assert_eq!(m.status, "Connecting to COM3...");
    assert!(!m.housekeeping(2));
    m.press_connect();
    assert_eq!(commands(&m), 1);
    m.on_message(
        WorkerMessage::Connected { port: "COM3".to_owned(), model: "AM5".to_owned() },
        "",
        5,
    );
    assert!(m.site.prompt_open, "a site has to be given first");
    assert!(!m.housekeeping(5));
    assert!(matches!(m.outbox.last(), Some(Request::Worker(WorkerCommand::Poll))));
    assert!(m.link.poll_inflight && m.link.poll_due == 755);
    m.link.poll_inflight = false;
    m.housekeeping(754);
    assert_eq!(commands(&m), 2);
    m.enter_tab(754);
    m.housekeeping(754);
    assert_eq!(commands(&m), 3);
    m.press_disconnect();
    assert!(matches!(m.outbox.last(), Some(Request::Worker(WorkerCommand::Disconnect))));
}

#[test]
fn a_site_is_searched_saved_and_sent() {
    let mut m = panel();
    assert!(!m.site_is_configured());
    m.press_sync();
    assert_eq!(m.status, "Set latitude/longitude (or search a place) before syncing");
    assert!(m.run_place_search("  ").is_none());
    assert_eq!(m.run_place_search(" Bern ").as_deref(), Some("Bern"));
    assert_eq!(m.status, "Searching for \u{201c}Bern\u{201d}\u{2026}");
    assert!(m.run_place_search("Bern").is_none());
    m.place_search_done(Ok(2));
    assert_eq!(m.status, "Found 2 place(s) — pick one");
    m.place_search_done(Ok(0));
    assert_eq!(m.status, "No places found");
    m.place_search_done(Err("timeout".to_owned()));
    assert_eq!(m.status, "Place search failed: timeout");
    m.save_site_prompt("46.9480, 7.4474");
    assert_eq!(m.site.place, "46.9480, 7.4474");
    assert!(m.site_is_configured() && !m.site.prompt_open);
    m.press_sync();
    m.request_site_time_sync();
    assert_eq!(commands(&m), 3);
    assert_eq!(m.status, "Syncing mount time and site coordinates...");
}

/// A search over a signal that is strongest at one point.
fn search(peak: (i32, i32)) -> (AutoCenter, u64) {
    let mut s = AutoCenter::begin(AutoCenterOrigin::CurrentPoint, 2, 0);
    let mut now = 0;
    let mut seq = 0;
    for _ in 0..10_000 {
        now += 100;
        seq += 1;
        let mut out = s.advance(now, Some(false), Some(seq));
        if out.step == AutoStep::Average {
            let at = s.current;
            let signal = 1_000 - ((at.0 - peak.0).abs() + (at.1 - peak.1).abs()) as i64;
            out = s.measure(Some(signal), now, Some(seq));
        }
        let mut step = match out.step {
            AutoStep::Nudge(d) => Some(d),
            AutoStep::Finish => return (s, now),
            AutoStep::Cancel(reason) => panic!("{}", reason.text()),
            _ => None,
        };
        while step.is_some() {
            step = s.nudge_done();
        }
    }
    panic!("the search does not end");
}

#[test]
fn the_search_ends_at_the_strongest_point() {
    for peak in [(0, 0), (2, -3), (-4, 4), (1, 1)] {
        let (s, _) = search(peak);
        assert_eq!(s.current, peak);
        assert_eq!(s.best, peak);
        assert_eq!(s.pass, AutoCenterPass::Refine);
        assert_eq!(s.phase, AutoCenterPhase::Finished);
    }
}

#[test]
fn the_search_gives_up_in_time() {
    let mut s = AutoCenter::begin(AutoCenterOrigin::SunGoTo, 1, 0);
    assert_eq!(s.progress_label(""), "Auto-center (Sun GoTo + center) — waiting for slew");
    assert_eq!(s.advance(1_000, Some(true), None).step, AutoStep::Idle);
    let out = s.advance(200_000, Some(true), None);
    assert_eq!(out.step, AutoStep::Cancel(CancelReason::SlewTimedOut));
    let out = s.advance(600_000, Some(true), None);
    assert_eq!(out.step, AutoStep::Cancel(CancelReason::TimedOut));
    let mut s = AutoCenter::begin(AutoCenterOrigin::CurrentPoint, 1, 0);
    s.advance(2_000, None, None);
    let out = s.advance(10_000, None, None);
    assert_eq!(out.step, AutoStep::Cancel(CancelReason::NoFrames));
}

#[test]
fn numbers_and_texts_are_written_and_read() {
    assert_eq!(decimal_string(0), "0");
    assert_eq!(decimal_string(u64::MAX), u64::MAX.to_string());
    assert_eq!(signed_decimal_string(i64::MIN + 1), (i64::MIN + 1).to_string());
    assert_eq!(padded_string(7, 3), "007");
    assert_eq!(padded_string(1_234, 3), "1234");
    assert_eq!(signed_padded_string(-5, 4), format!("{:04}", -5));
    assert_eq!(trimmed(" \t a b \u{a0}\n"), "a b");
    assert_eq!(parse_unsigned("+12", 255), Some(12));
    assert_eq!(parse_unsigned("256", 255), None);
    assert_eq!(parse_unsigned("", 255), None);
    assert_eq!(parse_signed("-08"), Some(-8));
    assert_eq!(parse_signed("+"), None);
    let pair = split_at_first("12*34:56", &['*', ':']).unwrap();
    assert_eq!(pair, ("12".to_owned(), "34:56".to_owned()));
    assert!(text_before("scan-02", "scan-10"));
    assert!(!text_before("a", "a"));
    assert!(text_before("a", "ab"));
}
