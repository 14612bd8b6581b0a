use ghostsun_app::autofocus::{
    best_point, best_quartile, fitted_target, AutofocusRefusal, CurvePoint, FitFacts, FocuserState,
    FrameSample, Phase, Run, Settings, TickAction, Width,
};
use ghostsun_app::focuser::{
    check_jog, jog_allowed, jog_target, queue_error, sweep_text, CommandGate, Errand,
    FocuserCommand, FocuserWorker, PollStep,
};

fn width(value: f64) -> Width {
    Width { key: value.to_bits() }
}

fn value(width: Width) -> f64 {
    f64::from_bits(width.key)
}

fn state(position: i32) -> FocuserState {
    FocuserState { position, max_step: 100_000, moving: false }
}

fn settings() -> Settings {
    Settings { minimum: 100, maximum: 900, ..Settings::default() }
}

fn with_limbs(now: u64, seq: u64, first: Option<f64>, second: Option<f64>) -> FrameSample {
    FrameSample {
        seq,
        captured: now,
        first: first.map(width),
        second: second.map(width),
        both: width((first.unwrap_or(1.0) + second.unwrap_or(1.0)) / 2.0),
        width: 3840,
        height: 120,
        exposure: 10_000,
        gain: 100,
        clipped: false,
    }
}

fn frame(now: u64, seq: u64, position: i32) -> FrameSample {
    let sharp = 2.0 + ((position as f64 - 525.0) / 150.0).powi(2);
    with_limbs(now, seq, Some(sharp), Some(sharp + 0.2))
}

fn burst_value(values: &Vec<Width>) -> f64 {
    let best = best_quartile(values);
    best.iter().map(|w| value(*w)).sum::<f64>() / best.len() as f64
}

/// Parabola through points of equal weight: vertex, least value, curvature
/// and scatter around it.
struct Parabola {
    vertex: f64,
    least: f64,
    curvature: f64,
    rms: f64,
    vertex_sigma: f64,
}

fn parabola(points: &[(f64, f64)]) -> Option<Parabola> {
    let n = points.len() as f64;
    let mean = points.iter().map(|p| p.0).sum::<f64>() / n;
    let power = |k: i32| points.iter().map(|p| (p.0 - mean).powi(k)).sum::<f64>();
    let product = |k: i32| points.iter().map(|p| p.1 * (p.0 - mean).powi(k)).sum::<f64>();
    let (s2, s3, s4) = (power(2), power(3), power(4));
    let (y0, y1, y2) = (product(0), product(1), product(2));
    let det = n * (s2 * s4 - s3 * s3) - s2 * s2 * s2;
    if det.abs() < 1e-9 {
        return None;
    }
    let c = (y0 * (s2 * s4 - s3 * s3) - s2 * (s2 * y2 - s3 * y1)) / det;
    let a = (n * (s2 * y2 - s3 * y1) - s2 * (s2 * y0)) / det;
    let b = (y1 - a * s3) / s2;
    if a.abs() < 1e-12 {
        return None;
    }
    let away = points
        .iter()
        .map(|p| {
            let x = p.0 - mean;
            let d = p.1 - (c + b * x + a * x * x);
            d * d
        })
        .sum::<f64>();
    let rms = (away / n).sqrt();
    let vertex = -b / (2.0 * a);
    Some(Parabola {
        vertex: vertex + mean,
        least: c + b * vertex + a * vertex * vertex,
        curvature: 2.0 * a,
        rms,
        vertex_sigma: rms / (2.0 * a.abs() * s2.sqrt()),
    })
}

fn facts(points: &[(f64, f64)], step: i32) -> Option<FitFacts> {
    let fit = parabola(points)?;
    let first = points[0];
    let last = points[points.len() - 1];
    let best = points.iter().map(|p| p.1).fold(f64::INFINITY, f64::min);
    let depth = first.1.min(last.1) - best;
    Some(FitFacts {
        trustworthy: fit.curvature > 0.0 && fit.vertex > first.0 && fit.vertex < last.0,
        sharp: fit.vertex_sigma.is_finite() && fit.vertex_sigma <= step as f64,
        nonpositive: fit.least <= 0.0,
        shallow: depth <= (3.0 * fit.rms).max(best * 0.02),
        near_boundary: fit.vertex < first.0 + step as f64 * 0.5
            || fit.vertex > last.0 - step as f64 * 0.5,
        vertex: fit.vertex.round() as i32,
    })
}

/// Averages the burst of a run and hands it back.
fn answer(run: &mut Run, now: u64) -> Result<TickAction, AutofocusRefusal> {
    let burst = burst_value(&run.values);
    let best = run.samples.iter().map(|s| value(s.value)).fold(f64::INFINITY, f64::min);
    let mut points: Vec<(f64, f64)> =
        run.samples.iter().map(|s| (f64::from(s.position), value(s.value))).collect();
    if run.at.index < run.positions.len() {
        points.push((f64::from(run.positions[run.at.index]), burst));
    }
    let fit = facts(&points, run.settings.step);
    run.measure(now, width(burst), burst > best * 1.15, fit)
}

#[test]
fn simulated_sweep_reaches_and_verifies_known_focus_with_same_direction_approach() {
    let start = 1_000_000;
    let mut config = settings();
    config.approach = 20;
    config.frames = 20;
    config.settle_ms = 250;
    let (mut run, target) = Run::start(config, state(500), frame(start, 0, 500), start).ok().unwrap();
    let mut position = target;
    let mut moves = vec![position];
    for i in 1..600u64 {
        let now = start + i * 100;
        let mut action = run.tick(now, state(position), Some(frame(now, i, position))).unwrap();
        if action == TickAction::Measure {
            action = answer(&mut run, now).unwrap();
        }
        if let TickAction::MoveTo(target) = action {
            position = target;
            moves.push(position);
        }
        if run.at.outcome.is_some() {
            break;
        }
    }
    let result = run.at.outcome.unwrap();
    assert!((result.position - 525).abs() <= 1);
    assert_eq!(run.samples.len(), 7);
    assert_eq!(&moves[..3], &[330, 350, 400]);
    assert_eq!(&moves[moves.len() - 2..], &[505, 525]);
    assert!(value(result.width) < 2.11);
    assert!(moves.iter().all(|p| (100..=900).contains(p)));
}

#[test]
fn safe_limits_include_backlash_and_never_silently_clamp_sweep() {
    let mut config = settings();
    config.minimum = 340;
    config.approach = 20;
    assert!(config.positions(state(500)).is_err());
    config.approach = 0;
    assert_eq!(config.positions(state(500)).unwrap()[0], 350);
    config.maximum = 649;
    assert!(config.positions(state(500)).is_err());
    config.maximum = 900;
    config.step = i32::MAX;
    assert!(config.positions(state(500)).is_err());
}

#[test]
fn lost_camera_and_changed_settings_stop_a_sweep() {
    let now = 50_000;
    let sample = frame(now, 0, 500);
    let (mut run, target) = Run::start(settings(), state(500), sample, now).ok().unwrap();
    assert!(run.tick(now + 4_000, state(target), Some(sample)).is_err());
    let mut changed = sample;
    changed.exposure += 1;
    assert!(run.tick(now, state(target), Some(changed)).is_err());
    changed = sample;
    changed.width = 120;
    changed.height = 3840;
    assert!(run.tick(now, state(target), Some(changed)).is_err());
}

#[test]
fn bursts_exclude_duplicate_and_pre_settle_frames_and_keep_the_same_limbs() {
    let start = 50_000;
    let (mut run, target) =
        Run::start(settings(), state(500), frame(start, 0, 500), start).ok().unwrap();
    run.at.phase = Phase::Collecting { since: start, last_seq: 1, verify: false };
    let now = start + 200;
    let mut sample = frame(now, 1, target);
    run.tick(now, state(target), Some(sample)).unwrap();
    sample.seq = 2;
    sample.captured = start;
    run.tick(now, state(target), Some(sample)).unwrap();
    sample.seq = 3;
    sample.captured = now;
    sample.second = None;
    run.tick(now, state(target), Some(sample)).unwrap();
    sample.seq = 4;
    sample.second = Some(width(2.0));
    sample.clipped = true;
    run.tick(now, state(target), Some(sample)).unwrap();
    assert!(matches!(run.at.phase, Phase::Collecting { .. }));
    assert!(run.values.is_empty());
    sample.seq = 5;
    sample.clipped = false;
    run.tick(now, state(target), Some(sample)).unwrap();
    assert_eq!(run.values.len(), 1);
}

#[test]
fn unbracketed_flat_and_noisy_curves_are_not_accepted() {
    for f in [0, 1, 2] {
        let points: Vec<(f64, f64)> = (0..7)
            .map(|i| {
                let value = match f {
                    0 => 2.0,
                    1 => 2.0 + (i as f64).powi(2),
                    _ => [4.0, 2.0, 5.0, 2.0, 4.0, 2.0, 5.0][i],
                };
                (i as f64 * 50.0, value)
            })
            .collect();
        let samples: Vec<CurvePoint> = points
            .iter()
            .map(|p| CurvePoint { position: p.0 as i32, value: width(p.1), frames: 30 })
            .collect();
        assert!(fitted_target(&samples, facts(&points, 50)).is_err());
    }
}

fn good_fit(vertex: i32) -> FitFacts {
    FitFacts {
        trustworthy: true,
        sharp: true,
        nonpositive: false,
        shallow: false,
        near_boundary: false,
        vertex,
    }
}

#[test]
fn a_fit_is_taken_only_where_the_points_bracket_it() {
    let curve = |values: [f64; 5]| -> Vec<CurvePoint> {
        values
            .iter()
            .enumerate()
            .map(|(i, v)| CurvePoint { position: 100 + 50 * i as i32, value: width(*v), frames: 30 })
            .collect()
    };
    let good = curve([4.0, 3.0, 2.0, 3.0, 4.0]);
    assert_eq!(best_point(&good), 2);
    assert_eq!(fitted_target(&good, Some(good_fit(201))), Ok(201));
    assert_eq!(fitted_target(&good, None), Err(AutofocusRefusal::NotFitted));
    let edge = curve([2.0, 3.0, 4.0, 5.0, 6.0]);
    assert_eq!(fitted_target(&edge, Some(good_fit(201))), Err(AutofocusRefusal::NoMinimum));
    let shallow = FitFacts { shallow: true, ..good_fit(201) };
    assert_eq!(fitted_target(&good, Some(shallow)), Err(AutofocusRefusal::NoMinimum));
    let near = FitFacts { near_boundary: true, ..good_fit(110) };
    assert_eq!(fitted_target(&good, Some(near)), Err(AutofocusRefusal::NearBoundary));
    assert_eq!(AutofocusRefusal::NotFitted.text(), "Focus curve could not be fitted");
}

#[test]
fn a_burst_is_its_sharpest_quarter() {
    let values: Vec<Width> = [5.0, 1.0, 4.0, 2.0, 3.0].iter().map(|v| width(*v)).collect();
    let best: Vec<f64> = best_quartile(&values).iter().map(|w| value(*w)).collect();
    assert_eq!(best, vec![1.0, 2.0]);
    assert_eq!(burst_value(&vec![width(7.0)]), 7.0);
}

#[test]
fn failed_verification_does_not_report_success() {
    let start = 50_000;
    let (mut run, _) = Run::start(settings(), state(500), frame(start, 0, 500), start).ok().unwrap();
    run.at.target = Some(525);
    run.samples = vec![CurvePoint { position: 525, value: width(2.0), frames: 30 }];
    run.at.phase = Phase::Collecting { since: start, last_seq: 0, verify: true };
    run.values = vec![width(5.0); 30];
    let now = start + 2_000;
    assert_eq!(run.tick(now, state(525), Some(frame(now, 1, 525))), Ok(TickAction::Measure));
    let refusal = answer(&mut run, now).unwrap_err();
    assert_eq!(refusal, AutofocusRefusal::Softer);
    assert!(refusal.text().contains("Verification"));
    assert!(run.at.outcome.is_none());
}

#[test]
fn missing_limbs_clipping_stalls_and_timeout_are_rejected() {
    let now = 50_000;
    let sample = with_limbs(now, 0, None, None);
    assert!(Run::start(settings(), state(500), sample, now).is_err());
    let mut sample = frame(now, 0, 500);
    sample.clipped = true;
    assert!(Run::start(settings(), state(500), sample, now).is_err());
    let (mut run, _) = Run::start(settings(), state(500), frame(now, 0, 500), now).ok().unwrap();
    let later = now + 3_000;
    assert!(run.tick(later, state(500), Some(frame(later, 1, 500))).is_err());
    run.at.phase = Phase::Collecting { since: now, last_seq: 0, verify: false };
    let later = now + 31_000;
    let refusal = run.tick(later, state(350), Some(frame(later, 1, 350))).unwrap_err();
    assert!(refusal.text().contains("30 seconds"));
}

#[test]
fn every_way_a_sweep_can_stop_is_named() {
    let now = 50_000;
    let moving = FocuserState { moving: true, ..state(500) };
    assert_eq!(settings().positions(moving), Err(AutofocusRefusal::StillMoving));
    assert_eq!(Settings::default().positions(state(500)), Err(AutofocusRefusal::UnsafeLimits));
    let even = Settings { points: 6, ..settings() };
    assert_eq!(even.positions(state(500)), Err(AutofocusRefusal::BadSettings));
    let wide = Settings { step: 200, ..settings() };
    assert_eq!(wide.positions(state(500)), Err(AutofocusRefusal::SweepOutside));
    let (mut run, target) = Run::start(settings(), state(500), frame(now, 0, 500), now).ok().unwrap();
    assert_eq!(run.tick(now, state(target), None), Err(AutofocusRefusal::StaleFrames));
    assert_eq!(
        run.tick(now, state(99), Some(frame(now, 1, 99))),
        Err(AutofocusRefusal::OutsideLimits)
    );
    let late = now + 60_001;
    let busy = FocuserState { moving: true, ..state(400) };
    assert_eq!(run.tick(late, busy, Some(frame(late, 1, 400))), Err(AutofocusRefusal::MoveTimeout));
    assert_eq!(run.tick(now, state(target), Some(frame(now, 1, target))), Ok(TickAction::Wait));
    assert_eq!(run.progress(), "Waiting for the image to settle");
    assert_eq!(
        run.tick(now, state(target + 1), Some(frame(now, 2, target))),
        Err(AutofocusRefusal::MovedWhileSettling)
    );
    let settled = now + 1_000;
    run.tick(settled, state(target), Some(frame(settled, 3, target))).unwrap();
    assert_eq!(run.progress(), "Point 1/7: 0/30 valid frames");
    assert_eq!(
        run.tick(settled, state(target + 1), Some(frame(settled, 4, target))),
        Err(AutofocusRefusal::MovedWhileMeasuring)
    );
}

/// A focuser that takes commands and remembers them.
struct FakeMotor {
    commands: Vec<String>,
    moving: bool,
    unplugged: bool,
}

impl FakeMotor {
    fn new() -> FakeMotor {
        FakeMotor { commands: Vec::new(), moving: false, unplugged: false }
    }

    fn state(&self) -> Result<FocuserState, String> {
        if self.unplugged {
            Err("USB disconnected".to_owned())
        } else {
            Ok(FocuserState { position: 500, max_step: 1000, moving: self.moving })
        }
    }

    fn move_to(&mut self, position: i32) {
        self.commands.push(format!("move {position}"));
        self.moving = true;
    }

    fn halt(&mut self) -> Result<(), String> {
        self.commands.push("halt".to_owned());
        self.moving = false;
        Ok(())
    }
}

fn connect(worker: &mut FocuserWorker, motor: &FakeMotor, name: &str) {
    assert_eq!(worker.accept(FocuserCommand::Connect, false), Ok(Errand::Open));
    worker.opened(name.to_owned(), motor.state().unwrap());
    worker.settle();
}

fn jog(worker: &mut FocuserWorker, motor: &mut FakeMotor, target: i32, now: u64) {
    let command = FocuserCommand::Move { target, minimum: 100, maximum: 900 };
    assert_eq!(worker.accept(command, false), Ok(Errand::AskState));
    assert_eq!(check_jog(motor.state().unwrap(), target, 100, 900), Ok(target));
    motor.move_to(target);
    worker.jogging(target, 100, 900, now);
    worker.settle();
}

#[test]
fn connect_is_read_only_and_stop_halts_without_returning_to_start() {
    let mut motor = FakeMotor::new();
    let mut worker = FocuserWorker::new();
    connect(&mut worker, &motor, "Fake AAF");
    assert!(worker.view.connected.is_some() && !worker.view.busy);
    assert!(motor.commands.is_empty());
    jog(&mut worker, &mut motor, 550, 1_000);
    assert!(worker.view.busy);
    assert!(motor.moving);
    let halt = motor.halt();
    worker.stopped(Some(halt));
    assert!(!worker.view.busy && !motor.moving);
    assert_eq!(motor.commands, ["move 550", "halt"]);
    assert_eq!(worker.view.message, "Stopped; no return move requested");
}

#[test]
fn unplug_invalidates_connection_and_drop_halts_active_motion() {
    let mut motor = FakeMotor::new();
    let mut worker = FocuserWorker::new();
    connect(&mut worker, &motor, "Fake");
    jog(&mut worker, &mut motor, 550, 1_000);
    motor.unplugged = true;
    assert!(worker.poll_due(2_000));
    let error = motor.state().unwrap_err();
    let halt = motor.halt();
    let state = motor.state().ok();
    worker.failed(&error, Some(halt), state);
    worker.settle();
    assert!(worker.view.connected.is_none());
    assert!(!worker.view.busy);
    assert!(!motor.moving);
    assert!(worker.view.message.contains("USB disconnected"));
    motor.unplugged = false;
    connect(&mut worker, &motor, "Fake");
    assert!(worker.view.connected.is_some() && !worker.view.busy);
    jog(&mut worker, &mut motor, 600, 3_000);
    let halt = motor.halt();
    worker.stopped(Some(halt));
    assert!(!motor.moving);
    assert_eq!(motor.commands.last().unwrap(), "halt");
}

#[test]
fn a_second_command_waits_for_the_first() {
    let mut motor = FakeMotor::new();
    let mut worker = FocuserWorker::new();
    assert_eq!(
        worker.accept(FocuserCommand::Move { target: 1, minimum: 0, maximum: 2 }, true),
        Err("Focuser is not connected")
    );
    connect(&mut worker, &motor, "Fake");
    assert_eq!(
        worker.accept(FocuserCommand::Start(settings()), false),
        Err("No camera frame is available")
    );
    jog(&mut worker, &mut motor, 550, 1_000);
    assert_eq!(
        worker.accept(FocuserCommand::Disconnect, true),
        Err("A focuser operation is already active")
    );
    let there = FocuserState { position: 550, max_step: 1000, moving: false };
    assert_eq!(worker.polled(1_500, there, None), Ok(PollStep::Nothing));
    worker.settle();
    assert_eq!(worker.view.message, "At 550 steps");
    assert!(!worker.view.busy);
    assert_eq!(worker.accept(FocuserCommand::Disconnect, true), Ok(Errand::HaltAndClose));
    worker.closed();
    assert_eq!(worker.view.message, "Focuser disconnected");
    assert_eq!(worker.accept(FocuserCommand::Scan, true), Ok(Errand::Enumerate));
    worker.scanned(2);
    assert_eq!(worker.view.message, "Found 2 ToupTek focuser(s)");
}

#[test]
fn a_jog_that_does_not_arrive_is_given_up() {
    let mut motor = FakeMotor::new();
    let mut worker = FocuserWorker::new();
    connect(&mut worker, &motor, "Fake");
    jog(&mut worker, &mut motor, 550, 1_000);
    let short = FocuserState { position: 540, max_step: 1000, moving: false };
    assert_eq!(worker.polled(2_000, short, None), Ok(PollStep::Nothing));
    assert_eq!(worker.polled(3_001, short, None), Err("Focuser failed to reach the jog target"));
    let out = FocuserState { position: 901, max_step: 1000, moving: true };
    assert_eq!(worker.polled(2_000, out, None), Err("Position exceeded safe travel limits"));
    worker.failed("x", Some(Err("dead".to_owned())), None);
    assert_eq!(worker.view.message, "x. STOP failed: dead; check the focuser");
    assert!(!worker.attached);
}

#[test]
fn jogs_stay_inside_their_limits() {
    assert_eq!(check_jog(state(500), 950, 100, 900).is_err(), true);
    assert_eq!(check_jog(state(50), 200, 100, 900).is_err(), true);
    assert_eq!(jog_target(i32::MAX, 10), i32::MAX);
    assert_eq!(jog_target(i32::MIN, -10), i32::MIN);
    assert_eq!(jog_target(500, -10), 490);
    assert!(jog_allowed(&settings(), 900, true));
    assert!(!jog_allowed(&settings(), 901, true));
    assert!(!jog_allowed(&settings(), 500, false));
    assert_eq!(sweep_text(&vec![350, 400, 450], 20), "Sweep 350 → 450; first approach 330");
}

#[test]
fn the_gate_lets_one_command_in_at_a_time() {
    let mut gate = CommandGate { busy: false, pending: false };
    assert!(!gate.is_busy());
    assert!(gate.try_enter());
    assert!(!gate.try_enter());
    gate.queued(true);
    assert!(gate.is_busy());
    gate.consumed(false);
    assert!(!gate.is_busy());
    assert!(gate.try_enter());
    gate.queued(false);
    assert!(gate.try_enter());
    assert_eq!(queue_error("full"), "Focuser command could not be queued: full");
}
