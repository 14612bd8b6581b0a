use ghostsun_app::lx200::{
    ack_reply, clock_reading, dec_fields, format_dec, format_lat_lx200, format_lon_lx200_west,
    format_meade_utc_offset, format_ra, goto_error, goto_reply, local_clock, ra_fields,
    reply_complete, reply_text, sync_commands, sync_summary, text_or_silence, utc_offset_minutes, Acknowledged,
    Answer, Sexagesimal, Wire,
};
use ghostsun_app::mount::{
    coarse_spiral, grid_step_direction, rate, refinement_grid, spiral_nudge_duration_ms,
    square_spiral, Direction, RATE_COUNT,
};

/// Sidereal motion in arcseconds per second of time.
const SIDEREAL: f64 = 15.041;

fn jog_arcmin(multiple: f64, seconds: f64) -> f64 {
    multiple * SIDEREAL * seconds / 60.0
}

fn value(fields: &Sexagesimal) -> f64 {
    let whole: f64 = fields.whole.parse().unwrap();
    let minutes: f64 = fields.minutes.parse().unwrap();
    let seconds: f64 = match &fields.seconds {
        Some(s) => s.parse().unwrap(),
        None => 0.0,
    };
    let size = whole.abs() + minutes / 60.0 + seconds / 3600.0;
    if fields.negative {
        -size
    } else {
        size
    }
}

fn hours(text: &str) -> f64 {
    value(&ra_fields(text).unwrap())
}

fn degrees(text: &str) -> f64 {
    value(&dec_fields(text).unwrap())
}

fn ra_text(hours: f64) -> String {
    format_ra((hours.rem_euclid(24.0) * 3600.0).round() as u32)
}

fn dec_text(degrees: f64) -> String {
    format_dec(degrees.is_sign_negative(), (degrees.abs().min(90.0) * 3600.0).round() as u32)
}

fn whole_and_minutes(value: f64) -> (u32, u32) {
    let whole = value.floor() as u32;
    (whole, ((value - f64::from(whole)) * 60.0).round() as u32)
}

#[test]
fn jog_distance_matches_the_rate_table() {
    let sixty = rate(7);
    assert_eq!(sixty.label, "60x");
    let multiple = f64::from(sixty.hundredths) / 100.0;
    let two_sec_at_60x = jog_arcmin(multiple, 2.0);
    assert!((two_sec_at_60x - 30.08).abs() < 0.1, "{two_sec_at_60x} arcmin");
    assert!(two_sec_at_60x > 25.0 && two_sec_at_60x < 40.0);
    assert!((jog_arcmin(20.0, 6.0) - jog_arcmin(60.0, 2.0)).abs() < 1e-9);
    assert!((jog_arcmin(4.0, 1.0) * 2.0 - jog_arcmin(4.0, 2.0)).abs() < 1e-9);
    assert!((jog_arcmin(1.0, 1.0) - 0.2507).abs() < 1e-3);
}

#[test]
fn rate_table_multiples_agree_with_their_labels() {
    for index in 0..RATE_COUNT {
        let r = rate(index);
        let parsed: f64 = r.label.trim_end_matches('x').parse().unwrap();
        let multiple = f64::from(r.hundredths) / 100.0;
        assert!((parsed - multiple).abs() < 1e-9, "{} carries {multiple}", r.label);
    }
}

#[test]
fn rates_grow_with_their_number() {
    for index in 1..RATE_COUNT {
        assert!(rate(index - 1).hundredths < rate(index).hundredths);
        assert_eq!(usize::from(rate(index).code), index);
    }
}

#[test]
fn parses_high_and_low_precision_right_ascension() {
    let hp = hours("12:34:56");
    assert!((hp - (12.0 + 34.0 / 60.0 + 56.0 / 3600.0)).abs() < 1e-9, "{hp}");
    let lp = hours("12:34.5");
    assert!((lp - (12.0 + 34.5 / 60.0)).abs() < 1e-9, "{lp}");
    assert!((hours("12:34:56#") - hp).abs() < 1e-9);
    assert!(ra_fields("garbage").is_none());
}

#[test]
fn parses_declination_with_the_sign_applied_to_the_whole_value() {
    let north = degrees("+12*34:56");
    assert!((north - (12.0 + 34.0 / 60.0 + 56.0 / 3600.0)).abs() < 1e-9, "{north}");
    let just_south = degrees("-00*30:00");
    assert!((just_south + 0.5).abs() < 1e-9, "{just_south}");
    let south = degrees("-12*34");
    assert!((south + (12.0 + 34.0 / 60.0)).abs() < 1e-9, "{south}");
    assert!((degrees("+12°34:56") - north).abs() < 1e-9);
    assert!(dec_fields("nonsense").is_none());
}

#[test]
fn coordinate_parse_round_trips_through_the_formatters() {
    for (ra, dec) in [(0.0, 0.0), (12.5827, -23.4561), (23.999, 89.5), (6.25, -0.25)] {
        let ra_back = hours(&ra_text(ra));
        let dec_back = degrees(&dec_text(dec));
        assert!((ra_back - ra).abs() < 1.0 / 3600.0 + 1e-9, "RA {ra} -> {ra_back}");
        assert!((dec_back - dec).abs() < 1.0 / 3600.0 + 1e-9, "Dec {dec} -> {dec_back}");
    }
}

#[test]
fn formats_mount_coordinates_with_carry() {
    assert_eq!(ra_text(23.999_999_9), "00:00:00");
    assert_eq!(ra_text(5.5), "05:30:00");
    assert_eq!(dec_text(-12.5), "-12*30:00");
    assert_eq!(dec_text(90.5), "+90*00:00");
}

#[test]
fn lx200_site_formats_match_meade_style() {
    let (d, m) = whole_and_minutes(51.5);
    assert_eq!(format_lat_lx200(false, d, m), "+51*30");
    let (d, m) = whole_and_minutes(33.9);
    assert_eq!(format_lat_lx200(true, d, m), "-33*54");
    let (d, m) = whole_and_minutes((-2.3f64).rem_euclid(360.0));
    assert_eq!(format_lon_lx200_west(d, m), "357*42");
    let (d, m) = whole_and_minutes((98.0f64).rem_euclid(360.0));
    assert_eq!(format_lon_lx200_west(d, m), "098*00");
    assert_eq!(format_meade_utc_offset(false, 5, None), "+05");
    assert_eq!(format_meade_utc_offset(true, 1, None), "-01");
}

#[test]
fn a_full_minute_carries_into_the_degrees() {
    assert_eq!(format_lat_lx200(false, 51, 60), "+52*00");
    assert_eq!(format_lon_lx200_west(359, 60), "000*00");
    assert_eq!(format_meade_utc_offset(true, 5, Some(5)), "-05.5");
    assert_eq!(format_meade_utc_offset(false, 5, Some(10)), "+05.9");
}

#[test]
fn zwo_rate_and_goto_error_tables_match_protocol_v2_1() {
    let first = rate(0);
    assert_eq!((first.label, first.code, first.hundredths), ("0.25x", 0, 25));
    let last = rate(RATE_COUNT - 1);
    assert_eq!((last.label, last.code, last.hundredths), ("1440x", 9, 144_000));
    assert!(goto_error("e5").contains("below the horizon"));
    assert!(goto_error("e7").contains("time and location"));
}

#[test]
fn every_goto_refusal_has_its_own_words() {
    assert_eq!(goto_error("e1"), "GoTo rejected (e1): target parameter is out of range");
    assert_eq!(goto_error("e12"), "GoTo rejected (e12): sync target is too far from the mount position");
    assert_eq!(goto_error("e13"), "GoTo rejected (e13): unknown mount error");
    assert_eq!(goto_error("e"), "GoTo rejected (e): unknown mount error");
    assert!(goto_reply("0", "\"0\"").is_ok());
    assert_eq!(goto_reply("e4", "\"e4\""), Err("GoTo rejected (e4): mount is already moving".to_owned()));
    assert_eq!(goto_reply("x", "\"x\""), Err("mount rejected GoTo: \"x\"".to_owned()));
    assert!(ack_reply("1", "latitude").is_ok());
    assert_eq!(ack_reply("0", "latitude"), Err("mount rejected target latitude".to_owned()));
}

#[test]
fn square_spiral_covers_chebyshev_disk_once() {
    let pts = square_spiral(2);
    assert_eq!(pts[0], (0, 0));
    assert_eq!(pts.len(), 25);
    let mut seen = std::collections::BTreeSet::new();
    for p in &pts {
        assert!(p.0.abs().max(p.1.abs()) <= 2);
        assert!(seen.insert(*p), "duplicate {p:?}");
    }
    assert_eq!(seen.len(), 25);
}

#[test]
fn spiral_nudge_duration_matches_0_1_deg_at_60x() {
    assert_eq!(spiral_nudge_duration_ms(), 400);
}

#[test]
fn coarse_spiral_uses_two_fine_units_per_point() {
    let pts = coarse_spiral(1);
    assert_eq!(pts.len(), 9);
    assert!(pts.iter().all(|(x, y)| x % 2 == 0 && y % 2 == 0));
    assert!(pts.contains(&(2, 0)));
}

#[test]
fn refinement_grid_is_local_and_respects_radius() {
    let middle = refinement_grid((2, -1), 4);
    assert_eq!(middle.len(), 9);
    assert!(middle.iter().all(|(x, y)| (x - 2).abs() <= 1 && (y + 1).abs() <= 1));

    let edge = refinement_grid((4, 4), 4);
    assert!(edge.len() < 9);
    assert!(edge.iter().all(|(x, y)| x.abs() <= 4 && y.abs() <= 4));
}

#[test]
fn grid_step_prefers_east_west_then_north_south() {
    let (dir, next) = grid_step_direction((0, 0), (2, 1)).unwrap();
    assert_eq!(dir, Direction::East);
    assert_eq!(next, (1, 0));
    let (dir, next) = grid_step_direction((1, 0), (1, -2)).unwrap();
    assert_eq!(dir, Direction::South);
    assert_eq!(next, (1, -1));
    assert!(grid_step_direction((1, 1), (1, 1)).is_none());
}

#[test]
fn grid_steps_reach_any_target() {
    let target = (-3, 4);
    let mut at = (2, -1);
    let mut steps = 0;
    while let Some((_, next)) = grid_step_direction(at, target) {
        at = next;
        steps += 1;
    }
    assert_eq!(at, target);
    assert_eq!(steps, 10);
}

#[test]
fn timed_motion_stops_only_its_requested_direction() {
    assert_eq!(Direction::North.stop_command(), ":Qn#");
    assert_eq!(Direction::South.stop_command(), ":Qs#");
    assert_eq!(Direction::East.stop_command(), ":Qe#");
    assert_eq!(Direction::West.stop_command(), ":Qw#");
}

#[test]
fn directions_undo_each_other() {
    for d in [Direction::North, Direction::South, Direction::East, Direction::West] {
        assert_eq!(d.opposite().opposite(), d);
        assert_ne!(d.opposite().move_command(), d.move_command());
    }
    assert_eq!(Direction::East.opposite(), Direction::West);
    assert_eq!(Direction::North.opposite(), Direction::South);
    assert_eq!(Direction::North.label(), "N");
    assert_eq!(Direction::West.move_command(), ":Mw#");
}

#[test]
fn replies_end_at_the_first_hash() {
    assert!(!reply_complete(b"12:34", false));
    assert!(reply_complete(b"12:34#", false));
    assert!(reply_complete(b"1", true));
    assert_eq!(reply_text(b" 12:34:56 #junk", ":GR#"), Ok("12:34:56".to_owned()));
    assert_eq!(reply_text(b"#", ":GR#"), Err("no response to :GR#".to_owned()));
}

#[test]
fn broken_bytes_are_read_as_replacement_marks() {
    let text = reply_text(&[b'A', 0xff, b'B', b'#'], ":GVP#").unwrap();
    assert_eq!(text, "A\u{fffd}B");
    assert_eq!(text_or_silence("AM5".to_owned(), ":GVP#"), Ok("AM5".to_owned()));
    assert_eq!(text_or_silence(String::new(), ":GVP#"), Err("no response to :GVP#".to_owned()));
}

#[test]
fn utc_offsets_are_read_from_the_clock_of_the_host() {
    assert_eq!(utc_offset_minutes("+0530\n"), Some(330));
    assert_eq!(utc_offset_minutes("-0800"), Some(-480));
    assert_eq!(utc_offset_minutes("-0330"), Some(-210));
    assert_eq!(utc_offset_minutes("-0030\n"), Some(-30));
    assert_eq!(utc_offset_minutes("+0030"), Some(30));
    assert_eq!(utc_offset_minutes("+0"), None);
    assert_eq!(utc_offset_minutes("zz00"), None);
}

#[test]
fn site_synchronisation_sends_five_commands() {
    let commands = sync_commands("07/30/26", "13:18:00", "-01", "+53*48", "003*03");
    let sent: Vec<&str> = commands.iter().map(|(c, _)| c.as_str()).collect();
    assert_eq!(sent, vec![":SC07/30/26#", ":SL13:18:00#", ":SG-01#", ":St+53*48#", ":Sg003*03#"]);
    let named: Vec<&str> = commands.iter().map(|(_, n)| *n).collect();
    assert_eq!(named, vec!["calendar date", "local time", "UTC offset", "latitude", "longitude"]);
    assert_eq!(
        sync_summary("07/30/26", "13:18:00", "-01", "+53*48", "003*03", "a", "b", "c"),
        "Site/time synced (local 07/30/26 13:18:00, UTC-01, lat +53*48, lonW 003*03). Mount reports Gt=a Gg=b GL=c"
    );
}

#[test]
fn wire_commands_carry_their_values() {
    assert_eq!(Wire::StopAll.text(), ":Q#");
    assert_eq!(Wire::Rate(7).text(), ":R7#");
    assert_eq!(Wire::Move(Direction::East).text(), ":Me#");
    assert_eq!(Wire::SetRa(19_800).text(), ":Sr05:30:00#");
    assert_eq!(Wire::SetDec { negative: true, arcseconds: 45_000 }.text(), ":Sd-12*30:00#");
    assert_eq!(Wire::StopAll.answer(), Answer::Silent);
    assert_eq!(Wire::Goto.answer(), Answer::Verdict);
    assert_eq!(Wire::SetRa(0).answer(), Answer::Ack(Acknowledged::RightAscension));
    assert_eq!(Acknowledged::RightAscension.field(), "right ascension");
}

#[test]
fn the_clock_of_the_host_is_read() {
    let pair = ("07/30/26".to_owned(), "13:18:00".to_owned());
    assert_eq!(local_clock(b"07/30/26\n", b" 13:18:00\r\n"), Ok(pair.clone()));
    assert_eq!(
        local_clock(b"07/30/26\n", b"\n"),
        Err("could not read local date/time".to_owned())
    );
    assert_eq!(clock_reading(pair.0.clone(), pair.1.clone()), Ok(pair));
    assert!(clock_reading(String::new(), "13:18:00".to_owned()).is_err());
}
