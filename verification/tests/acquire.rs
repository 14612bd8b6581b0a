use ghostsun_app::acquire::{
    acquisition_rate_label, capture_bytes, meridian_ack_text, AcquireRequest,
    AcquireState, CalPhase, Meridian, PollEvent, ProcessMessage, Profile, Surroundings,
    ACQUISITION_RATE_COUNT,
};
use ghostsun_app::anchor::{
    anchor_lines, bounded_height, can_record, deepest_line, recording_hint, tracked_line,
};
use ghostsun_app::mount::Direction;
use ghostsun_app::mount_panel::{MountState, Request};
use ghostsun_app::mount_worker::WorkerCommand;
use ghostsun_app::reconstruct::{
    announce_stack, final_stem, output_title, panic_text, scan_line, scan_stem, warn_of_stack,
    StackReport,
};
use ghostsun_app::scan::{
    Recorder, RunPhase, ScanFailure, ScanInput, ScanRun, Sweep, LIMB_MARGIN_DEFAULT,
};
use ghostsun_app::session::{scan_path, session_files, session_from_dir, FileName};

fn name(text: &str) -> FileName {
    FileName { text: text.to_owned() }
}

#[test]
fn a_session_folder_reconstructs_without_a_sidecar() {
    let mut names: Vec<FileName> = (0..3).map(|i| name(&scan_path(i))).collect();
    names.push(name("notes.txt"));
    let files = session_from_dir(&names, "/data").ok().unwrap();
    assert_eq!(files.len(), 3, "non-SER files must not be picked up");
    assert_eq!(files.iter().map(|f| f.reversed).collect::<Vec<_>>(), vec![false, true, false]);
    let second = session_from_dir(&vec![name("scan-02.ser")], "/data").ok().unwrap();
    assert!(second[0].reversed, "the number tells the direction, not the place");
}

#[test]
fn a_session_reads_back_as_it_was_recorded() {
    let recorded = session_files(112);
    let names: Vec<FileName> = recorded.iter().rev().map(|f| name(&f.name)).collect();
    let back = session_from_dir(&names, "/data").ok().unwrap();
    assert_eq!(back.len(), 112);
    for (a, b) in recorded.iter().zip(&back) {
        assert_eq!((&a.name, a.reversed), (&b.name, b.reversed));
    }
    assert_eq!(scan_path(0), "scan-01.ser");
    assert_eq!(scan_path(99), "scan-100.ser");
}

#[test]
fn a_folder_without_scans_is_refused() {
    assert!(session_from_dir(&Vec::new(), "/data").is_err());
    let other = vec![name("scan-01.png"), name("x-01.ser")];
    assert_eq!(
        session_from_dir(&other, "/data").err().unwrap(),
        "no scan-NN.ser files in /data — pick a session folder"
    );
}

#[test]
fn a_run_does_not_reconstruct_unless_asked() {
    assert!(!AcquireState::new().auto_process);
}

fn run_in(phase: RunPhase) -> ScanRun {
    let step = ScanRun::start(Direction::East, 4, 800_000, LIMB_MARGIN_DEFAULT, 0);
    ScanRun { phase, ..step.run }
}

#[test]
fn an_idle_tab_has_nothing_to_warn_about() {
    assert!(!AcquireState::new().run_is_live());
    assert_eq!(AcquireState::new().stop_consequences(), "");
}

#[test]
fn a_sweep_in_progress_is_live() {
    let mut state = AcquireState::new();
    state.run = Some(run_in(RunPhase::Scanning));
    assert!(state.run_is_live());
    assert!(state.stop_consequences().contains("sweeping across the disc"));
}

#[test]
fn a_finished_run_is_not_live() {
    let mut state = AcquireState::new();
    state.run = Some(run_in(RunPhase::Complete));
    assert!(!state.run_is_live());
}

#[test]
fn reconstruction_alone_is_not_live() {
    let mut state = AcquireState::new();
    state.processing_since = Some(5_000);
    assert!(!state.run_is_live());
    let shown = state.current_activity(70_000).unwrap();
    assert!(shown.contains("RECONSTRUCTION"), "{shown}");
    let mut state = ready();
    state.start_processing(3, 5_000);
    assert!(state.pre_scan_issues(&mount(), &around(), "9").is_empty());
    let mut m = mount();
    assert!(state.prepare_scan(&mut m, &around(), "9").is_ok());
    state.begin_scan(&mut m, Some(7)).unwrap();
    state.start_processing(1, 6_000);
    state.on_message(ProcessMessage::Done);
    assert_eq!(state.processing_since, Some(6_000));
    state.on_message(ProcessMessage::Failed("no disc".to_owned()));
    assert_eq!(state.processing_since, None);
    assert!(state.run_is_live(), "the run goes on");
}

fn mount() -> MountState {
    let mut m = MountState::new(0);
    m.link.connected = true;
    m.link.snapshot.tracking = Some("On".to_owned());
    m
}

fn around() -> Surroundings {
    Surroundings {
        now: 1_000,
        streaming: true,
        vertical: true,
        auto_exposure: false,
        meridian: None,
        free: Some(2_000_000_000),
        needed: 1_000_000_000,
    }
}

fn ready() -> AcquireState {
    let mut state = AcquireState::new();
    state.gates.anchored = true;
    state.gates.prepared_confirmed = true;
    state.gates.motion_confirmed = true;
    state
}

#[test]
fn every_missing_thing_is_named_at_once() {
    let state = AcquireState::new();
    let mut m = MountState::new(0);
    let bare = Surroundings { streaming: false, free: Some(1_000_000), ..around() };
    let issues = state.pre_scan_issues(&m, &bare, "9");
    assert_eq!(issues.len(), 6, "{issues:?}");
    assert!(issues[5].contains("1.0 MB"), "{}", issues[5]);
    let refusal = state.prepare_scan(&mut m, &bare, "9").unwrap_err();
    assert!(refusal.starts_with("6 things to fix first — "), "{refusal}");
    assert!(m.outbox.is_empty());
    let mut m = mount();
    assert!(ready().prepare_scan(&mut m, &around(), "9").is_ok());
    assert!(matches!(m.outbox[0], Request::Worker(WorkerCommand::SetSolarRate)));
}

#[test]
fn each_refusal_has_its_own_words() {
    let state = ready();
    let ok = around();
    assert!(state.validate_common(&mount(), &ok, "9").is_ok());
    let off = MountState::new(0);
    assert_eq!(
        state.validate_common(&off, &ok, "9").unwrap_err(),
        "connect the ZWO mount on the Mount tab"
    );
    let auto = Surroundings { auto_exposure: true, ..ok };
    assert!(state.validate_common(&mount(), &auto, "9").unwrap_err().contains("auto-exposure"));
    let near = Surroundings { meridian: Some(Meridian { before: true, near: true }), ..ok };
    assert_eq!(
        state.validate_common(&mount(), &near, "9").unwrap_err(),
        "Sun reaches the meridian in 9 min; review and acknowledge the meridian warning"
    );
    let mut busy = ready();
    busy.run = Some(run_in(RunPhase::Scanning));
    assert_eq!(
        busy.validate_common(&mount(), &ok, "9").unwrap_err(),
        "an acquisition operation is already running"
    );
}

#[test]
fn an_acknowledgement_holds_for_one_side_of_the_meridian() {
    let mut state = ready();
    let before = Meridian { before: true, near: true };
    let after = Meridian { before: false, near: true };
    state.acknowledge_meridian(before, true);
    let east = Surroundings { meridian: Some(before), ..around() };
    let west = Surroundings { meridian: Some(after), ..around() };
    assert!(state.validate_common(&mount(), &east, "3").is_ok());
    assert!(state.validate_common(&mount(), &west, "3").is_err());
    state.acknowledge_meridian(before, false);
    assert!(state.validate_common(&mount(), &east, "3").is_err());
    assert!(meridian_ack_text(true, "3").contains('3'));
}

#[test]
fn a_scan_starts_by_leaving_the_disc() {
    let mut state = ready();
    let mut m = mount();
    assert!(state.begin_scan(&mut m, None).is_err());
    assert!(m.outbox.is_empty());
    assert!(state.begin_scan(&mut m, Some(7)).is_ok());
    assert!(state.run_is_live());
    match &m.outbox[0] {
        Request::Worker(WorkerCommand::Nudge { direction, duration_ms, rate, .. }) => {
            assert_eq!((*direction, *duration_ms, *rate), (Direction::West, 320, 7));
        }
        _ => panic!("a move was expected"),
    }
    assert_eq!(state.log.len(), 1);
}

fn look(now: u64) -> ScanInput {
    ScanInput {
        now,
        sample: None,
        recorder: Recorder { recording: false, started: false, failed: false },
        nudge_done: false,
        anchored: true,
        scan_count: 1,
    }
}

#[test]
fn a_failed_run_stops_everything() {
    let mut state = ready();
    let mut m = mount();
    state.begin_scan(&mut m, Some(0)).unwrap();
    m.report.done = true;
    assert!(matches!(state.poll_scan(&mut m, look(1_000), "", "/d"), PollEvent::Status(_)));
    assert!(!m.report.done);
    let event = state.poll_scan(&mut m, look(9_000), "", "/d");
    assert!(matches!(event, PollEvent::RunFailed(ScanFailure::NoFreshFrame)));
    assert!(state.run.is_none());
    assert_eq!(state.outbox.last(), Some(&AcquireRequest::StopRecording));
    assert!(matches!(
        m.outbox.last(),
        Some(Request::Worker(WorkerCommand::StopAcquisition))
    ));
}

#[test]
fn a_saved_scan_is_logged_before_the_way_back_fails() {
    let mut state = ready();
    let mut m = mount();
    let run = run_in(RunPhase::WaitingForRecorder);
    let sweep = Sweep {
        present_samples: 2,
        seen_disc: true,
        clear_samples: 2,
        entry_at: Some(5_000),
        exit_at: Some(5_000),
        ..run.sweep
    };
    state.run = Some(ScanRun { sweep, ..run });
    let event = state.poll_scan(&mut m, look(6_000), "saved 9 frames", "/d");
    assert!(matches!(event, PollEvent::RunFailed(ScanFailure::BadCrossing)));
    assert_eq!(state.log, vec!["saved 9 frames".to_owned()]);
    assert!(state.run.is_none());
}

#[test]
fn leaving_the_tab_stops_a_live_run_only() {
    let mut state = ready();
    let mut m = mount();
    state.leave_tab(&mut m);
    assert!(m.outbox.is_empty() && state.outbox.is_empty());
    state.run = Some(run_in(RunPhase::Scanning));
    state.leave_tab(&mut m);
    assert!(!state.run_is_live());
    assert_eq!(state.outbox, vec![AcquireRequest::StopRecording]);
    assert_eq!(state.status, "Acquisition stopped when leaving the tab");
    m.report.error = Some("stalled".to_owned());
    assert!(state.take_mount_error(&mut m));
    assert_eq!(state.status, "Mount error: stalled");
    assert!(!state.take_mount_error(&mut m));
}

#[test]
fn calibration_probes_there_and_back() {
    let mut state = ready();
    let mut m = mount();
    assert!(state.start_calibration(&mut m, &around(), "9", true).is_ok());
    assert_eq!(state.calibration, Some(CalPhase::MoveNorth));
    let shifted = Profile::Shifted { north_first: true, off_axis: false };
    let mut moves = Vec::new();
    let mut now = 1_000;
    for _ in 0..40 {
        for request in m.outbox.drain(..) {
            if let Request::Worker(WorkerCommand::Nudge { direction, duration_ms, .. }) = request {
                moves.push((direction, duration_ms));
                m.report.done = true;
                m.motion.acquisition_inflight = false;
            }
        }
        now += 1_000;
        if let PollEvent::CalibrationDone = state.poll_calibration(&mut m, now, shifted) {
            break;
        }
    }
    assert_eq!(
        moves,
        vec![
            (Direction::North, 240),
            (Direction::South, 240),
            (Direction::East, 240),
            (Direction::West, 240)
        ]
    );
    assert!(state.calibration.is_none());
    assert!(state.can_calibrate());
}

#[test]
fn a_calibration_without_correlation_is_given_up() {
    let mut state = ready();
    let mut m = mount();
    state.start_calibration(&mut m, &around(), "9", true).unwrap();
    assert_eq!(
        ready().start_calibration(&mut mount(), &around(), "9", false).unwrap_err(),
        "start the camera and wait for a profile"
    );
    m.report.done = true;
    state.poll_calibration(&mut m, 1_000, Profile::Stale);
    let event = state.poll_calibration(&mut m, 3_000, Profile::Uncorrelated);
    assert!(matches!(event, PollEvent::NorthFailed));
    assert!(state.calibration.is_none());
}

#[test]
fn a_run_can_be_stopped_at_any_time() {
    let mut state = ready();
    let mut m = mount();
    assert!(state.ready_to_begin(&m, &around()));
    assert!(!state.ready_to_begin(&MountState::new(0), &around()));
    state.run = Some(run_in(RunPhase::Scanning));
    state.gates.confirm_stop_open = true;
    state.refresh_stop_confirmation();
    assert!(state.gates.confirm_stop_open);
    state.force_stop(&mut m, "Stopped by the observer");
    assert!(!state.run_is_live() && !state.gates.confirm_stop_open);
    assert_eq!(state.status, "Stopped by the observer");
    state.gates.confirm_stop_open = true;
    state.refresh_stop_confirmation();
    assert!(!state.gates.confirm_stop_open);
    state.run = Some(run_in(RunPhase::Scanning));
    state.abort(&mut m, "aborted");
    assert!(!state.run_is_live());
    state.run = Some(run_in(RunPhase::Scanning));
    state.recording_refused(&mut m, "disk full");
    assert!(state.run.is_none());
    assert_eq!(state.status, "Acquisition failed: disk full");
    assert!(matches!(
        m.outbox.last(),
        Some(Request::Worker(WorkerCommand::StopAcquisition))
    ));
}

#[test]
fn outcomes_are_told_and_logged() {
    let mut state = ready();
    state.settings.direction = Direction::East;
    state.tell_calibrated("1.5");
    assert_eq!(
        state.status,
        "Calibration complete: scan E / W, estimated sensor offset 1.5°"
    );
    state.tell_calibration_failed("no frames");
    assert_eq!(state.status, "Direction calibration failed: no frames");
    state.tell_run_failed("limb lost");
    assert_eq!(state.log.len(), 3);
    assert_eq!(state.log[2], "Acquisition failed: limb lost");
    state.show("Ready".to_owned());
    assert_eq!((state.status.as_str(), state.log.len()), ("Ready", 3));
    assert_eq!(state.can_reconstruct_last(), None);
    state.last_session = Some(2);
    assert_eq!(state.can_reconstruct_last(), Some(2));
    state.processing_since = Some(5);
    assert_eq!(state.can_reconstruct_last(), None);
}

#[test]
fn reconstruction_reports_back() {
    let mut state = AcquireState::new();
    state.start_processing(3, 1_000);
    assert_eq!(state.outbox, vec![AcquireRequest::Reconstruct { scans: 3 }]);
    assert!(state.processing_since.is_some());
    state.on_message(ProcessMessage::Log("warping".to_owned()));
    assert_eq!(state.log.last().unwrap(), "warping");
    state.on_message(ProcessMessage::Failed("no disc".to_owned()));
    assert!(state.processing_since.is_none());
    assert!(state.status.contains("no disc"));
}

#[test]
fn captures_are_estimated_with_room_to_spare() {
    let bytes = capture_bytes(48_000, 100_000, 1_920, 256, 2);
    let written = (48.0 + 0.7) * 100.0 * 1_920.0 * 256.0 * 2.0 * 2.0;
    let above = bytes as f64 - written * 1.25;
    assert!(above > 0.0, "{above}");
    let twice = capture_bytes(48_000, 100_000, 1_920, 256, 4);
    assert_eq!((twice - bytes) as f64, written * 1.25);
    let most = u64::MAX;
    assert_eq!(capture_bytes(most, most, most, most, most), most);
    assert_eq!(capture_bytes(most, most, most, most, 0), 256 * 1024 * 1024);
    let mut state = AcquireState::new();
    state.settings.scan_span = 800_000;
    state.settings.limb_margin = 30_000;
    state.settings.rate_index = 4;
    state.settings.capture_height = 256;
    state.settings.scan_count = 3;
    assert_eq!((state.total_span(), state.sweep_ms()), (890_000, 53_400));
    let of = |rate: u64, width: u64| capture_bytes(53_400, rate, width, 256, 3);
    assert_eq!(state.estimated_capture_bytes(90_500, 10, Some(1_920)), of(90_500, 1_920));
    assert_eq!(state.estimated_capture_bytes(0, 10, None), of(120_000, 4_000));
    assert_eq!(state.estimated_capture_bytes(0, 30_000, None), of(33_334, 4_000));
    assert_eq!(acquisition_rate_label(4), "4× · recommended");
    assert_eq!(ACQUISITION_RATE_COUNT, 8);
}

#[test]
fn lines_are_offered_from_top_to_bottom() {
    let lines = anchor_lines(&vec![300, 100, 200], &vec![true, true, false]);
    let places: Vec<usize> = lines.iter().map(|l| l.index).collect();
    assert_eq!(places, vec![1, 0]);
    assert_eq!(deepest_line(&vec![3, 9, 9, 1]), Some(2));
    assert_eq!(deepest_line(&Vec::new()), None);
    assert_eq!(tracked_line(&vec![3, 9], &Some(vec![4, 8]), 5), Some(0));
    assert_eq!(tracked_line(&vec![3, 9], &Some(vec![14, 8]), 5), Some(1));
    assert_eq!(tracked_line(&vec![3, 9], &None, 5), Some(1));
    assert_eq!(bounded_height(10, 32, 2_160), 32);
    assert_eq!(bounded_height(9_999, 32, 2_160), 2_160);
    assert!(can_record(true, true, true, false));
    assert!(!can_record(true, true, true, true));
    assert!(recording_hint(false, 3).contains("Vertical"));
}

#[test]
fn stacks_are_announced() {
    assert_eq!(scan_line(1, 3, true), "Reconstructing scan 2/3 (reverse)");
    assert_eq!(scan_stem(1), "reconstruction-02");
    assert_eq!(final_stem(1), "ghostsun-final");
    assert_eq!(final_stem(2), "ghostsun-stacked");
    assert_eq!(output_title(3), "stacked acquisition (3 scans)");
    assert_eq!(output_title(1), "acquired reconstruction");
    assert!(warn_of_stack(3, StackReport { flipped: 0, used: 3 }).is_empty());
    assert!(!warn_of_stack(3, StackReport { flipped: 1, used: 3 }).is_empty());
    assert!(!warn_of_stack(3, StackReport { flipped: 0, used: 2 }).is_empty());
    assert!(announce_stack(&vec![true, false]).len() > announce_stack(&vec![true, true]).len());
    assert_eq!(
        panic_text(None),
        "reconstruction panicked (no further detail); the recorded SER files are intact"
    );
}
