use ghostsun_app::focusmetrics::{
    brightest_hundredth, clipped_frame, continuum_mask, edge_half_width, limb_search, limb_window,
    lit_span, lucky_tail, outer_thirds, sample_strip, slit_sums, LuckyBuf, Reading,
};

/// A number by a key that keeps its order.
fn reading(value: f64) -> Reading {
    let bits = value.to_bits() as i64;
    Reading { key: if bits < 0 { bits ^ i64::MAX } else { bits } }
}

fn number(reading: Reading) -> f64 {
    let key = reading.key;
    f64::from_bits((if key < 0 { key ^ i64::MAX } else { key }) as u64)
}

fn key(value: f64) -> i64 {
    reading(value).key
}

fn mean(values: &[Reading]) -> f64 {
    values.iter().map(|r| number(*r)).sum::<f64>() / values.len() as f64
}

/// Mean of the brightest hundredth, from its bins.
fn robust_peak(data: &[u16]) -> f64 {
    let shares = brightest_hundredth(data);
    let mut sum = 0.0;
    let mut taken = 0;
    for share in &shares {
        sum += share.sum as f64 / share.count as f64 * share.take as f64;
        taken += share.take;
    }
    sum / taken.max(1) as f64
}

#[test]
fn robust_peak_averages_the_brightest_one_percent() {
    let mut data = vec![100u16; 990];
    data.extend(vec![1_000u16; 10]);
    assert!((robust_peak(&data) - 1_000.0).abs() < 0.1);
}

#[test]
fn robust_peak_is_not_owned_by_one_hot_pixel() {
    let mut data = vec![100u16; 9_900];
    data.extend(vec![1_000u16; 99]);
    data.push(u16::MAX);
    let peak = robust_peak(&data);
    assert!(peak > 1_000.0);
    assert!(peak < 2_000.0, "single hot pixel produced {peak}");
}

#[test]
fn the_peak_takes_exactly_a_hundredth() {
    let data: Vec<u16> = (0..5_000).map(|i| (i * 13) as u16).collect();
    let taken: u64 = brightest_hundredth(&data).iter().map(|s| s.take).sum();
    assert_eq!(taken, 50);
    let few: u64 = brightest_hundredth(&[7, 9, 11]).iter().map(|s| s.take).sum();
    assert_eq!(few, 1);
    assert!(brightest_hundredth(&[]).is_empty());
}

#[test]
fn clipping_detects_raw_adc_limits_without_treating_one_hot_pixel_as_saturation() {
    for ceiling in [255, 1023, 4095, 16383, 65520, 65535] {
        let mut frame = vec![100_u16; 1000];
        frame[0] = ceiling;
        assert!(!clipped_frame(&frame));
        frame[..10].fill(ceiling);
        assert!(clipped_frame(&frame));
    }
    assert!(!clipped_frame(&vec![2000; 1000]));
    assert!(!clipped_frame(&[]));
}

/// Levels of the continuum, from strict to lenient.
fn levels() -> Vec<i64> {
    [0.98, 0.95, 0.90, 0.80].iter().map(|v| key(*v)).collect()
}

#[test]
fn continuum_mask_excludes_a_line_and_keeps_the_rest() {
    let mut spec = vec![1000.0; 200];
    for i in 95..105 {
        let d = (i as f64 - 100.0) / 3.0;
        spec[i] -= 600.0 * (-d * d).exp();
    }
    let ratios: Vec<i64> = spec.iter().map(|s| key(s / 1000.0)).collect();
    let mask = continuum_mask(&ratios, &levels());
    assert!(!mask[100], "line core should be masked out");
    assert!(mask[10] && mask[190], "far continuum should survive");
    let kept = mask.iter().filter(|&&m| m).count();
    assert!(kept > 150, "kept only {kept} of 200");
}

#[test]
fn continuum_mask_never_returns_empty() {
    let ratios = vec![key(0.0); 64];
    let mask = continuum_mask(&ratios, &levels());
    assert!(mask.iter().any(|&m| m));
    assert_eq!(continuum_mask(&vec![key(0.0); 15], &levels()), vec![true; 15]);
}

#[test]
fn the_mask_relaxes_until_enough_is_left() {
    let mut ratios = vec![key(0.5); 100];
    for ratio in ratios.iter_mut().take(5) {
        *ratio = key(0.92);
    }
    let mask = continuum_mask(&ratios, &levels());
    assert_eq!(mask.iter().filter(|&&m| m).count(), 5);
    assert!(mask[4] && !mask[5]);
}

fn slit_profile(data: &[u16], w: usize, h: usize, horizontal: bool, mask: &[bool]) -> Vec<f64> {
    let r = slit_sums(data, w, h, horizontal, mask);
    r.sums.iter().map(|s| *s as f64 / r.count as f64).collect()
}

#[test]
fn slit_profile_averages_only_masked_columns() {
    let w = 4;
    let h = 3;
    let data: Vec<u16> = vec![
        100, 10, 100, 100, //
        200, 10, 200, 200, //
        300, 10, 300, 300,
    ];
    let mask = vec![true, false, true, true];
    let prof = slit_profile(&data, w, h, true, &mask);
    assert_eq!(prof, vec![100.0, 200.0, 300.0]);
}

#[test]
fn slit_profile_handles_the_transposed_orientation() {
    let w = 3;
    let h = 4;
    let data: Vec<u16> = vec![
        100, 200, 300, //
        10, 10, 10, //
        100, 200, 300, //
        100, 200, 300,
    ];
    let mask = vec![true, false, true, true];
    let prof = slit_profile(&data, w, h, false, &mask);
    assert_eq!(prof, vec![100.0, 200.0, 300.0]);
}

#[test]
fn a_slit_without_data_has_no_profile() {
    assert!(slit_sums(&[1, 2, 3], 2, 2, true, &[]).sums.is_empty());
    assert!(slit_sums(&[1, 2, 3, 4], 2, 2, true, &[false, false]).sums.is_empty());
    let open = slit_sums(&[1, 2, 3, 4], 2, 2, true, &[]);
    assert_eq!((open.sums, open.count), (vec![3, 7], 2));
}

#[test]
fn illuminated_span_finds_the_lit_run() {
    let mut p = vec![10.0; 200];
    p[50..150].fill(1000.0);
    let lit: Vec<bool> = p.iter().map(|v| *v >= 0.4 * 1000.0).collect();
    let (lo, hi) = lit_span(&lit).unwrap();
    assert!(lo >= 45 && lo <= 55, "lo {lo}");
    assert!(hi >= 145 && hi <= 155, "hi {hi}");
    assert_eq!((lo, hi), (50, 150));
    assert_eq!(outer_thirds(lo, hi), ((50, 83), (117, 150)));
}

#[test]
fn a_short_run_is_not_lit() {
    let mut lit = vec![false; 40];
    lit[10..17].fill(true);
    assert_eq!(lit_span(&lit), None);
    lit[17] = true;
    assert_eq!(lit_span(&lit), Some((10, 18)));
    assert_eq!(lit_span(&vec![true; 7]), None);
}

#[test]
fn edges_need_room_on_both_sides() {
    assert_eq!(edge_half_width(120, 60), Some(12));
    assert_eq!(edge_half_width(120, 8), Some(8));
    assert_eq!(edge_half_width(120, 5), None);
    assert_eq!(edge_half_width(120, 114), None);
    let search = limb_search(300, 60, 55, 245).unwrap();
    assert_eq!((search.from, search.to, search.half), (36, 84, 24));
    assert!(limb_search(300, 7, 7, 245).is_none());
    assert!(limb_search(300, 60, 60, 100).is_none());
    let window = limb_window(300, 60, 24).unwrap();
    assert_eq!((window.start, window.end, window.shoulder), (36, 85, 19));
    assert!(limb_window(300, 11, 24).is_none());
}

#[test]
fn strips_sample_the_whole_frame() {
    let data: Vec<u16> = (0..16).collect();
    let strip = sample_strip(&data, 4, 4);
    assert_eq!((strip.w, strip.h), (4, 4));
    assert_eq!(strip.samples, data);
    assert_eq!((strip.low, strip.high), (0, 15));
    assert_eq!(sample_strip(&[], 0, 0).samples.len(), 0);
}

#[test]
fn lucky_picks_the_good_tail_not_the_average() {
    let mut b = LuckyBuf::new(100);
    for _ in 0..90 {
        b.push(Some(reading(5.0)));
    }
    for _ in 0..10 {
        b.push(Some(reading(2.0)));
    }
    let lucky = mean(&b.lucky(true));
    assert!(lucky < 3.0, "lucky {lucky} should follow the good frames");
}

#[test]
fn lucky_is_stable_across_the_decile_boundary() {
    let readout = |good: usize| {
        let mut b = LuckyBuf::new(100);
        for _ in 0..(100 - good) {
            b.push(Some(reading(5.0)));
        }
        for _ in 0..good {
            b.push(Some(reading(2.0)));
        }
        mean(&b.lucky(true))
    };
    for good in [10usize, 11, 20, 50] {
        let v = readout(good);
        assert!((v - 2.0).abs() < 1e-9, "good={good} gave {v}");
    }
    let mut prev = f64::INFINITY;
    for good in [0usize, 2, 5, 9, 10] {
        let v = readout(good);
        assert!(v <= prev + 1e-9, "good={good}: {v} is worse than {prev}");
        prev = v;
    }
}

#[test]
fn lucky_mean_respects_polarity() {
    let v: Vec<Reading> = (1..=10).map(|i| reading(i as f64)).collect();
    assert_eq!(mean(&lucky_tail(&v, true, 10)), 1.0);
    assert_eq!(mean(&lucky_tail(&v, false, 10)), 10.0);
    assert_eq!(mean(&lucky_tail(&v, true, 30)), 2.0);
}

#[test]
fn a_lucky_selection_follows_its_readings() {
    let before = [7.0, 3.0, 9.0, 5.0, 1.0].map(reading).to_vec();
    let after = [2.0, 3.0, 8.0, 0.5, 1.0].map(reading).to_vec();
    let low = lucky_tail(&before, true, 60);
    assert_eq!(low, [1.0, 3.0, 5.0].map(reading).to_vec());
    assert_eq!(lucky_tail(&after, true, 60), [0.5, 1.0, 2.0].map(reading).to_vec());
    assert_eq!(lucky_tail(&before, false, 40), [7.0, 9.0].map(reading).to_vec());
    assert_eq!(lucky_tail(&after, false, 40), [3.0, 8.0].map(reading).to_vec());
}

#[test]
fn lucky_mean_ignores_non_finite_values() {
    let mut b = LuckyBuf::new(10);
    for v in [f64::NAN, 2.0, 3.0, f64::INFINITY] {
        b.push(if v.is_finite() { Some(reading(v)) } else { None });
    }
    assert_eq!(mean(&lucky_tail(&b.values, true, 50)), 2.0);
}

#[test]
fn lucky_buf_respects_capacity() {
    let mut b = LuckyBuf::new(10);
    for i in 0..50 {
        b.push(Some(reading(i as f64)));
    }
    assert_eq!(b.len(), 10);
    assert_eq!(number(b.values[0]), 40.0);
    b.clear();
    assert_eq!(b.len(), 0);
    assert!(b.lucky(true).is_empty());
}
