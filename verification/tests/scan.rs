use ghostsun_app::mount::Direction;
use ghostsun_app::scan::{
    recenter_motion, scan_direction, scan_duration, scan_duration_exact, Recorder, RunPhase,
    ScanAction, ScanFailure, ScanInput, ScanRun, ScanStatus, SignalSample, LIMB_MARGIN_DEFAULT,
    PROBE_RATE_INDEX, RUN_UP_MARGINS,
};

#[test]
fn alternating_scans_reverse_direction() {
    assert_eq!(scan_direction(Direction::East, 0), Direction::East);
    assert_eq!(scan_direction(Direction::East, 1), Direction::West);
    assert_eq!(scan_direction(Direction::East, 2), Direction::East);
}

fn started(margin: u64) -> ScanRun {
    ScanRun::start(Direction::East, 4, 800_000, margin, 0).run
}

fn idle() -> Recorder {
    Recorder { recording: false, started: false, failed: false }
}

fn running() -> Recorder {
    Recorder { recording: true, started: true, failed: false }
}

fn look(now: u64) -> ScanInput {
    ScanInput {
        now,
        sample: None,
        recorder: idle(),
        nudge_done: false,
        anchored: true,
        scan_count: 1,
    }
}

fn arrived(now: u64) -> ScanInput {
    ScanInput { nudge_done: true, ..look(now) }
}

fn sees(now: u64, seq: u64, disc: bool) -> ScanInput {
    let sample = SignalSample { seq, finite: true, clear: !disc, present: disc };
    ScanInput { sample: Some(sample), ..look(now) }
}

/// The limb search of a run whose first step already clears the disc.
fn found_limb(margin: u64) -> ghostsun_app::scan::ScanStep {
    let run = started(margin);
    let run = run.poll(arrived(1_000)).ok().unwrap().run;
    assert_eq!(run.phase, RunPhase::PrepositionSampling);
    let run = run.poll(sees(1_300, 1, false)).ok().unwrap().run;
    run.poll(sees(1_400, 2, false)).ok().unwrap()
}

#[test]
fn the_sweep_budgets_run_up_before_the_limb_and_overshoot_after() {
    let margin = LIMB_MARGIN_DEFAULT;
    let span = 800_000;
    let total = span + (RUN_UP_MARGINS + 1) * margin;
    assert_eq!(total, span + 3 * margin);
    assert_eq!(RUN_UP_MARGINS, 2);
    let step = found_limb(margin);
    assert_eq!(step.run.scan_span, total);
}

#[test]
fn run_up_is_travelled_before_the_recorded_margin() {
    let margin = LIMB_MARGIN_DEFAULT;
    let backed_off = RUN_UP_MARGINS * margin;
    assert!(backed_off > margin, "{backed_off} vs {margin}");
    let step = found_limb(margin);
    assert_eq!(
        step.action,
        ScanAction::Nudge {
            direction: Direction::West,
            duration_ms: backed_off / 250,
            rate: PROBE_RATE_INDEX,
        }
    );
    assert_eq!(step.status, ScanStatus::BackingOff { run_up: backed_off });
}

#[test]
fn a_zero_margin_still_produces_a_usable_span() {
    let span = 800_000;
    assert_eq!(span + (RUN_UP_MARGINS + 1) * 0, span);
    let step = found_limb(0);
    assert_eq!(step.run.scan_span, span);
    assert_eq!(step.action, ScanAction::Wait);
    assert_eq!(step.run.phase, RunPhase::Settling);
}

#[test]
fn recommended_scan_is_deliberately_slow() {
    assert_eq!(ghostsun_app::acquire::DEFAULT_ACQUISITION_RATE, 4);
    assert_eq!(ghostsun_app::mount::rate(4).code, 4);
    assert_eq!(ghostsun_app::mount::rate(4).hundredths, 400);
    assert_eq!(scan_duration(800_000, 4), 48_000);
}

#[test]
fn durations_follow_the_rate_and_the_bounds() {
    assert_eq!(scan_duration_exact(30_000, 4), 1_800);
    assert_eq!(scan_duration_exact(80_000, 7), 320);
    assert_eq!(scan_duration(0, 4), scan_duration(550_000, 4));
    assert_eq!(scan_duration(9_000_000, 4), scan_duration(2_000_000, 4));
}

#[test]
fn a_whole_run_records_one_scan_and_recentres() {
    let mut run = found_limb(LIMB_MARGIN_DEFAULT).run;
    run = run.poll(arrived(3_000)).ok().unwrap().run;
    assert_eq!(run.phase, RunPhase::Settling);
    assert_eq!(run.poll(look(4_000)).ok().unwrap().run.phase, RunPhase::Settling);
    let step = run.poll(look(4_300)).ok().unwrap();
    assert_eq!(step.action, ScanAction::StartRecording);
    run = step.run;
    let step = run.poll(ScanInput { recorder: running(), ..look(4_400) }).ok().unwrap();
    assert_eq!(step.run.phase, RunPhase::PreRoll);
    run = step.run;
    let step = run.poll(ScanInput { recorder: running(), ..look(4_800) }).ok().unwrap();
    assert_eq!(step.run.phase, RunPhase::Scanning);
    assert_eq!(
        step.action,
        ScanAction::Nudge { direction: Direction::East, duration_ms: 53_400, rate: 4 }
    );
    run = step.run;
    for (now, seq, disc) in [(10_000, 10, true), (10_100, 11, true), (42_000, 12, false)] {
        run = run.poll(ScanInput { recorder: running(), ..sees(now, seq, disc) }).ok().unwrap().run;
        assert_eq!(run.phase, RunPhase::Scanning);
    }
    let step = run.poll(ScanInput { recorder: running(), ..sees(42_100, 13, false) }).ok().unwrap();
    assert_eq!(step.run.phase, RunPhase::Overshoot);
    assert_eq!(step.status, ScanStatus::FarLimbCleared { number: 1 });
    run = step.run;
    assert_eq!(recenter_motion(run), Ok((42_100 - 10_100) * 400 / 48));
    let step = run.poll(ScanInput { recorder: running(), ..look(43_900) }).ok().unwrap();
    assert_eq!(step.action, ScanAction::StopMotion);
    assert_eq!(step.run.phase, RunPhase::PostRoll);
    run = step.run;
    let step = run.poll(ScanInput { recorder: running(), ..look(44_300) }).ok().unwrap();
    assert_eq!(step.action, ScanAction::StopRecording);
    run = step.run;
    let step = run.poll(look(44_500)).ok().unwrap();
    assert_eq!(step.run.phase, RunPhase::Recentering);
    assert_eq!(step.run.scan_index, 1);
    assert_eq!(
        step.action,
        ScanAction::Nudge {
            direction: Direction::West,
            duration_ms: (42_100 - 10_100) * 400 / 48 / 250,
            rate: PROBE_RATE_INDEX,
        }
    );
    run = step.run.poll(arrived(46_000)).ok().unwrap().run;
    assert_eq!(run.phase, RunPhase::RecenterCheck);
    run = run.poll(sees(46_500, 20, true)).ok().unwrap().run;
    let step = run.poll(sees(46_600, 21, true)).ok().unwrap();
    assert_eq!(step.action, ScanAction::Finish { verified: true });
    assert_eq!(step.run.phase, RunPhase::Complete);
}

#[test]
fn a_limb_that_is_not_found_ends_the_run() {
    let run = ScanRun { phase: RunPhase::PrepositionSampling, ..started(0) };
    let run = ScanRun {
        seek: ghostsun_app::scan::Seek { steps: run.plan.max_steps, ..run.seek },
        ..run
    };
    let run = run.poll(sees(1_000, 1, true)).ok().unwrap().run;
    assert_eq!(
        run.poll(sees(1_100, 2, true)),
        Err(ScanFailure::LimbNotFound { steps: run.plan.max_steps })
    );
}

#[test]
fn failures_name_their_cause() {
    let sampling = started(0).poll(arrived(1_000)).ok().unwrap().run;
    assert_eq!(sampling.poll(look(2_500)), Err(ScanFailure::NoFreshFrame));
    let settled = ScanRun { phase: RunPhase::Settling, settle_until: 0, ..started(0) };
    assert_eq!(
        settled.poll(ScanInput { anchored: false, ..look(10) }),
        Err(ScanFailure::AnchorLost)
    );
    let waiting = ScanRun { phase: RunPhase::AwaitRecorder, deadline: 100, ..started(0) };
    assert_eq!(waiting.poll(look(100)), Err(ScanFailure::RecorderDidNotStart));
    let tail = ScanRun { phase: RunPhase::ScanTailCheck, deadline: 100, ..started(0) };
    assert_eq!(tail.poll(look(100)), Err(ScanFailure::DiscNeverSeen));
    assert_eq!(recenter_motion(started(0)), Err(ScanFailure::NoNearLimb));
    assert!(!ScanFailure::NoFreshFrame.text("", "").is_empty());
    assert!(ScanFailure::RecorderFailed.text("", "disk full").contains("disk full"));
}

#[test]
fn phases_are_described() {
    assert_eq!(RunPhase::Scanning.describe(), "sweeping across the disc");
    assert_eq!(
        ScanStatus::Unchanged.text("as before", 1, "", ""),
        "as before"
    );
    assert_eq!(ScanStatus::BackingOff { run_up: 60_000 }.angle(30_000), 60_000);
}
