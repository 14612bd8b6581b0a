use ghostsun_app::focus::{
    capture_failure, choose_line, fit_note, middle, BurstFrame, Capture, CurveSample, LineMode,
    LineSeen, Number, Procedure, Stage, TeleMetric, Track,
};
use ghostsun_app::focusmetrics::{lucky_tail, Reading};
use ghostsun_app::saved_focus::SavedFocus;

/// Least depth of a line that can be measured.
const DEPTH_GATE: f64 = 0.03;

fn reading(value: f64) -> Reading {
    let bits = value.to_bits() as i64;
    Reading { key: if bits < 0 { bits ^ i64::MAX } else { bits } }
}

fn number(reading: Reading) -> f64 {
    let key = reading.key;
    f64::from_bits((if key < 0 { key ^ i64::MAX } else { key }) as u64)
}

fn shown(value: f64) -> Number {
    Number { bits: value.to_bits(), text: value.to_string() }
}

fn parsed(text: &str) -> Option<Number> {
    text.trim().parse::<f64>().ok().map(shown)
}

fn line(fwhm: f64, depth: f64, away: f64) -> LineSeen {
    LineSeen {
        fwhm: reading(fwhm),
        depth: reading(depth),
        usable: depth > DEPTH_GATE,
        distance: reading(away),
    }
}

fn line_at(fwhm: f64, depth: f64, center: f64, picked: f64) -> LineSeen {
    line(fwhm, depth, (center - picked).abs())
}

fn blank() -> BurstFrame {
    BurstFrame { spectral: None, slit: None, limb: None, structure: None, top: None, bottom: None }
}

fn median(values: &Vec<Reading>) -> f64 {
    match middle(values) {
        Some((a, b)) => (number(a) + number(b)) / 2.0,
        None => 0.0,
    }
}

fn lucky(values: &Vec<Reading>, want_min: bool) -> f64 {
    let tail = lucky_tail(values, want_min, 10);
    tail.iter().map(|r| number(*r)).sum::<f64>() / tail.len().max(1) as f64
}

fn finish(p: &mut Procedure, cap: Capture) {
    let position = f64::from_bits(cap.position).to_string();
    match p.stage {
        Stage::Spectrograph => p.commit_lines(
            &cap,
            &shown(median(&cap.spectral)),
            &shown(median(&cap.slit)),
            &position,
            "0.0",
            "0.0",
        ),
        Stage::Telescope => {
            let want_min = p.metric.want_min();
            p.commit_telescope(
                &cap,
                &shown(lucky(&cap.tele, want_min)),
                lucky(&cap.top, false).to_bits(),
                lucky(&cap.bottom, false).to_bits(),
                &position,
            )
        }
    }
}

fn burst(p: &mut Procedure, frame: BurstFrame) {
    for _ in 0..p.capture_frames {
        if let Some(cap) = p.accumulate(frame) {
            finish(p, cap);
        }
    }
}

fn capture_at(p: &mut Procedure, pos: f64, spec: Option<f64>, slit: Option<f64>) {
    p.begin_capture(Some(shown(pos)), true);
    let frame = BurstFrame {
        spectral: spec.map(|w| line(w, 0.5, 0.0)),
        slit: slit.map(|w| line(w, 0.5, 0.0)),
        ..blank()
    };
    burst(p, frame);
}

fn stage_a() -> Procedure {
    let mut p = Procedure::new();
    p.capture_frames = 8;
    p
}

/// Vertex and curvature of the parabola through some samples.
fn parabola(samples: &[CurveSample]) -> (f64, f64) {
    let points: Vec<(f64, f64)> = samples
        .iter()
        .map(|s| (f64::from_bits(s.position), f64::from_bits(s.value)))
        .collect();
    let n = points.len() as f64;
    let at = points.iter().map(|p| p.0).sum::<f64>() / n;
    let power = |k: i32| points.iter().map(|p| (p.0 - at).powi(k)).sum::<f64>();
    let product = |k: i32| points.iter().map(|p| p.1 * (p.0 - at).powi(k)).sum::<f64>();
    let (s1, s2, s3, s4) = (power(1), power(2), power(3), power(4));
    let (y0, y1, y2) = (product(0), product(1), product(2));
    let det3 = |m: [[f64; 3]; 3]| {
        m[0][0] * (m[1][1] * m[2][2] - m[1][2] * m[2][1])
            - m[0][1] * (m[1][0] * m[2][2] - m[1][2] * m[2][0])
            + m[0][2] * (m[1][0] * m[2][1] - m[1][1] * m[2][0])
    };
    let det = det3([[n, s1, s2], [s1, s2, s3], [s2, s3, s4]]);
    let b = det3([[n, y0, s2], [s1, y1, s3], [s2, y2, s4]]) / det;
    let a = det3([[n, s1, y0], [s1, s2, y1], [s2, s3, y2]]) / det;
    (at - b / (2.0 * a), 2.0 * a)
}

#[test]
fn a_frame_counts_for_both_families_or_for_none() {
    let mut p = Procedure::new();
    p.capture_frames = 2;
    p.begin_capture(Some(shown(0.2)), true);
    let alone = BurstFrame { spectral: Some(line(9.0, 0.5, 0.0)), ..blank() };
    let both = BurstFrame {
        spectral: Some(line(2.0, 0.5, 0.0)),
        slit: Some(line(3.0, 0.5, 0.0)),
        ..blank()
    };
    assert!(p.accumulate(alone).is_none());
    let cap = p.accumulate(both).unwrap();
    finish(&mut p, cap);
    assert!(p.capture.is_none());
    let sample = |value: f64| CurveSample {
        position: 0.2f64.to_bits(),
        value: value.to_bits(),
        weight: 1,
    };
    assert_eq!(p.curves.spectral, vec![sample(2.0)]);
    assert_eq!(p.curves.slit, vec![sample(3.0)]);
    p.begin_capture(Some(shown(0.3)), true);
    let other = BurstFrame { slit: Some(line(3.0, 0.5, 0.0)), ..blank() };
    assert!(p.accumulate(alone).is_none());
    let cap = p.accumulate(other).unwrap();
    finish(&mut p, cap);
    assert_eq!(p.curves.spectral.len(), 1);
    assert!(p.status.contains("despite both families reporting lines"), "{}", p.status);
}

#[test]
fn narrowest_ignores_sub_threshold_noise_spikes() {
    let lines = vec![
        line(1.8, 0.021, 0.0),
        line(2.2, 0.025, 0.0),
        line(5.6, 0.42, 0.0),
        line(7.9, 0.11, 0.0),
    ];
    let pick = lines[choose_line(&lines, LineMode::Narrowest, false).expect("a usable line exists")];
    assert!(number(pick.depth) > DEPTH_GATE, "picked depth {}", number(pick.depth));
    assert!((number(pick.fwhm) - 5.6).abs() < 1e-9, "picked fwhm {}", number(pick.fwhm));
}

#[test]
fn choose_returns_nothing_when_every_candidate_is_too_shallow() {
    let lines = vec![line(1.8, 0.021, 0.0), line(2.4, 0.029, 0.0)];
    assert!(choose_line(&lines, LineMode::Narrowest, false).is_none());
    assert!(choose_line(&lines, LineMode::Deepest, false).is_none());
    assert!(choose_line(&lines, LineMode::Manual, true).is_none());
}

#[test]
fn both_families_select_independently() {
    let near = line_at(3.0, 0.14, 154.0, 155.0);
    let far = line_at(2.0, 0.07, 300.0, 155.0);
    let lines = vec![near, far];
    let pick = choose_line(&lines, LineMode::Manual, true).unwrap();
    assert_eq!(pick, 0);
    assert!(number(lines[pick].fwhm) > number(far.fwhm));
    assert_eq!(choose_line(&lines, LineMode::Narrowest, false), Some(1));
    assert_eq!(choose_line(&lines, LineMode::Deepest, false), Some(0));
}

#[test]
fn manual_pick_snaps_to_the_nearest_usable_line_not_the_nearest_noise() {
    let noise = line_at(1.5, 0.022, 240.0, 240.0);
    let real = line_at(6.0, 0.40, 244.0, 240.0);
    let lines = vec![noise, real];
    assert_eq!(choose_line(&lines, LineMode::Manual, true), Some(1));
    assert_eq!(choose_line(&lines, LineMode::Manual, false), None);
}

#[test]
fn stage_a_capture_builds_both_curves_and_signs_delta_spectral_minus_slit() {
    let mut p = stage_a();
    for pos in [0.10, 0.20, 0.30, 0.40, 0.50] {
        let spec = 4.0 * (pos - 0.34) * (pos - 0.34) + 2.0;
        let slit = 3.0 * (pos - 0.28) * (pos - 0.28) + 3.0;
        capture_at(&mut p, pos, Some(spec), Some(slit));
    }
    assert_eq!(p.curves.spectral.len(), 5);
    assert_eq!(p.curves.slit.len(), 5);
    let (spectral, up) = parabola(&p.curves.spectral);
    let (spatial, also_up) = parabola(&p.curves.slit);
    assert!((spectral - 0.34).abs() < 1e-6, "{spectral}");
    assert!((spatial - 0.28).abs() < 1e-6, "{spatial}");
    assert!((spectral - spatial - 0.06).abs() < 1e-6);
    assert!(up > 0.0 && also_up > 0.0);
}

#[test]
fn a_burst_with_no_usable_line_is_dropped_rather_than_recorded() {
    let mut p = stage_a();
    capture_at(&mut p, 0.20, None, None);
    assert!(p.curves.spectral.is_empty(), "a dropout must not become a sample");
    assert!(p.curves.slit.is_empty());
    assert!(p.capture.is_none(), "capture should have completed, not stalled");
}

#[test]
fn shallow_lines_below_the_depth_gate_are_not_averaged_in() {
    let mut p = stage_a();
    p.begin_capture(parsed("0.2"), true);
    let frame = BurstFrame {
        spectral: Some(line(3.0, DEPTH_GATE * 0.5, 0.0)),
        slit: Some(line(4.0, 0.5, 0.0)),
        ..blank()
    };
    burst(&mut p, frame);
    assert!(p.curves.spectral.is_empty());
    assert!(p.curves.slit.is_empty());
}

#[test]
fn capture_requires_a_parsed_position() {
    let mut p = stage_a();
    p.begin_capture(parsed("about 12"), true);
    assert!(p.capture.is_none());
    assert!(p.status.contains("micrometer"));
}

#[test]
fn capture_requires_a_camera() {
    let mut p = stage_a();
    p.begin_capture(parsed("12"), false);
    assert!(p.capture.is_none());
    assert_eq!(p.status, "start the camera first");
    p.begin_capture(parsed("12"), true);
    assert_eq!(p.status, "capturing 8 frames at 12…");
    p.cancel_capture();
    assert!(p.capture.is_none());
    assert_eq!(p.status, "capture cancelled");
}

#[test]
fn undo_removes_the_last_sample_from_both_stage_a_curves() {
    let mut p = stage_a();
    for pos in [0.1, 0.2, 0.3] {
        capture_at(&mut p, pos, Some(2.0), Some(3.0));
    }
    p.undo();
    assert_eq!(p.curves.spectral.len(), 2);
    assert_eq!(p.curves.slit.len(), 2);
}

#[test]
fn banking_a_null_point_clears_the_sweep_and_keeps_the_delta() {
    let mut p = stage_a();
    for pos in [0.10, 0.20, 0.30, 0.40, 0.50] {
        let spec = 4.0 * (pos - 0.34) * (pos - 0.34) + 2.0;
        let slit = 3.0 * (pos - 0.28) * (pos - 0.28) + 3.0;
        capture_at(&mut p, pos, Some(spec), Some(slit));
    }
    let delta = parabola(&p.curves.spectral).0 - parabola(&p.curves.slit).0;
    p.record_null_point(Some(shown(delta)), parsed("12.0"));
    assert_eq!(p.banked.len(), 1);
    assert!((f64::from_bits(p.banked[0].delta) - 0.06).abs() < 1e-6);
    assert_eq!(f64::from_bits(p.banked[0].collimator), 12.0);
    assert!(p.curves.spectral.is_empty(), "sweep should reset for the next setting");
    p.clear_banked();
    assert!(p.banked.is_empty());
}

#[test]
fn banking_without_a_collimator_reading_is_refused() {
    let mut p = stage_a();
    for pos in [0.10, 0.20, 0.30, 0.40, 0.50] {
        capture_at(&mut p, pos, Some((pos - 0.3) * (pos - 0.3)), Some((pos - 0.2) * (pos - 0.2)));
    }
    p.record_null_point(Some(shown(0.1)), parsed(""));
    assert!(p.banked.is_empty());
    assert!(!p.curves.spectral.is_empty(), "a refused bank must not discard the sweep");
    assert_eq!(p.status, "enter the collimator reading before banking");
    p.record_null_point(None, parsed("1"));
    assert_eq!(p.status, "need a solved Δ before banking a point");
}

#[test]
fn stage_b_capture_uses_the_selected_metric_and_its_polarity() {
    let mut p = Procedure::new();
    p.stage = Stage::Telescope;
    p.capture_frames = 8;
    p.retarget(TeleMetric::LimbEdge);
    for pos in [10.0, 10.5, 11.0, 11.5, 12.0] {
        p.begin_capture(Some(shown(pos)), true);
        let limb = 2.0 * (pos - 11.2) * (pos - 11.2) + 1.5;
        burst(&mut p, BurstFrame { limb: Some(reading(limb)), ..blank() });
    }
    assert_eq!(p.curves.tele.len(), 5);
    let (vertex, curvature) = parabola(&p.curves.tele);
    assert!((vertex - 11.2).abs() < 1e-6, "vertex {vertex}");
    assert!(curvature > 0.0, "limb width is minimised at focus");
    assert!(p.curves.tele_want_min);
}

#[test]
fn switching_stage_b_metric_discards_incomparable_samples() {
    let mut p = Procedure::new();
    p.stage = Stage::Telescope;
    p.capture_frames = 4;
    p.begin_capture(parsed("11.0"), true);
    burst(&mut p, BurstFrame { limb: Some(reading(3.0)), ..blank() });
    assert_eq!(p.curves.tele.len(), 1);
    assert_eq!(p.curves.tele[0].weight, 4);
    p.retarget(TeleMetric::Structure);
    assert!(p.curves.tele.is_empty(), "px and contrast are not the same axis");
    assert!(!p.curves.tele_want_min, "contrast is maximised, not minimised");
}

#[test]
fn a_burst_without_a_limb_says_what_to_do() {
    let mut p = Procedure::new();
    p.stage = Stage::Telescope;
    p.capture_frames = 2;
    p.begin_capture(parsed("1"), true);
    burst(&mut p, blank());
    assert!(p.status.starts_with("no limb on the slit"));
    p.retarget(TeleMetric::Structure);
    p.begin_capture(parsed("1"), true);
    burst(&mut p, blank());
    assert_eq!(p.status, "no illuminated slit in that burst — check exposure");
    p.clear_stage_b();
    assert_eq!(p.status, "Stage B sweep cleared");
    p.clear_stage_a();
    assert_eq!(p.status, "Stage A sweep cleared");
}

#[test]
fn medians_are_the_middle_of_the_readings() {
    let three: Vec<Reading> = [9.0, 1.0, 4.0].iter().map(|v| reading(*v)).collect();
    assert_eq!(median(&three), 4.0);
    let four: Vec<Reading> = [9.0, 1.0, 4.0, 2.0].iter().map(|v| reading(*v)).collect();
    assert_eq!(median(&four), 3.0);
    assert!(middle(&Vec::new()).is_none());
}

#[test]
fn tracks_hold_the_least_width() {
    let mut track = Track::new();
    track.push(Some(line(5.0, 0.5, 0.0)));
    track.push(Some(line(3.0, 0.5, 0.0)));
    track.push(Some(line(1.0, 0.01, 0.0)));
    track.push(None);
    track.push(Some(line(4.0, 0.5, 0.0)));
    assert_eq!(number(track.min_hold.unwrap()), 3.0);
    assert_eq!(track.history.len(), 3);
    track.reset();
    assert!(track.min_hold.is_none() && track.history.is_empty());
}

#[test]
fn live_readouts_follow_the_frames() {
    let mut p = Procedure::new();
    p.observe(Some(reading(2.0)), None);
    p.observe(Some(reading(1.0)), Some(reading(0.5)));
    assert_eq!(p.lucky_limb.len(), 2);
    assert_eq!(p.lucky_structure.len(), 1);
}

#[test]
fn failures_name_the_family_that_failed() {
    let both = capture_failure(true, true, None, Some("1.2"));
    assert!(both.contains("spectral") && both.contains("slit"), "{both}");
    let one = capture_failure(false, true, None, None);
    assert!(!one.contains("spectral"), "{one}");
    assert!(fit_note("spectral", true, true, 5).is_none());
    assert!(fit_note("spectral", true, false, 5).is_some());
    assert!(fit_note("spectral", false, true, 5).is_some());
}

#[test]
fn saved_focus_survives_the_file() {
    let focus = SavedFocus {
        camera: Some("0.28".to_owned()),
        collimator: None,
        delta: Some("0.06".to_owned()),
        focuser: Some("11.2".to_owned()),
    };
    let back = SavedFocus::load(&focus.save());
    assert_eq!(back.camera.as_deref(), Some("0.28"));
    assert_eq!(back.collimator, None);
    assert_eq!(back.delta.as_deref(), Some("0.06"));
    assert_eq!(back.focuser.as_deref(), Some("11.2"));
    assert!(!back.is_empty());
    assert!(SavedFocus::load("").is_empty());
    assert!(SavedFocus::load("camera=abc\n").is_empty());
}

#[test]
fn metrics_know_their_polarity() {
    assert!(TeleMetric::LimbEdge.want_min());
    assert!(!TeleMetric::Structure.want_min());
    assert_ne!(TeleMetric::LimbEdge.label(), TeleMetric::Structure.label());
}
