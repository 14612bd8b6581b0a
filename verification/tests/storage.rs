use ghostsun_app::applog::{default_path, rolls, stamp, SessionLog, ROLL_BYTES};
use ghostsun_app::site::Platform;
use ghostsun_app::storage::{
    config_dir, free_bytes, free_bytes_existing, human_bytes, load_capture_dir, parse_capture_dir,
    save_capture_dir, site_config_path, Probe,
};

fn found(free: Option<u64>) -> Probe {
    Probe { exists: true, free }
}

fn missing() -> Probe {
    Probe { exists: false, free: None }
}

#[test]
fn free_space_is_reported_for_an_existing_directory() {
    let free = free_bytes(&[found(free_bytes_existing(1_000, 4_096))]);
    assert_eq!(free, Some(4_096_000));
    assert!(free.is_some_and(|b| b > 0), "{free:?}");
}

#[test]
fn free_space_falls_back_to_the_nearest_existing_ancestor() {
    let existing = [found(Some(77))];
    let below = [missing(), missing(), missing(), found(Some(77)), found(Some(1))];
    assert_eq!(free_bytes(&below).is_some(), free_bytes(&existing).is_some());
    assert_eq!(free_bytes(&below), free_bytes(&existing));
    assert_eq!(free_bytes(&[missing()]), None);
    assert_eq!(free_bytes(&[missing(), found(None), found(Some(3))]), None);
}

#[test]
fn an_impossible_amount_is_not_reported() {
    assert_eq!(free_bytes_existing(u64::MAX, 2), None);
    assert_eq!(free_bytes_existing(0, 4_096), Some(0));
}

#[test]
fn byte_sizes_read_in_sensible_units() {
    assert_eq!(human_bytes(512), "512 B");
    assert_eq!(human_bytes(1_500), "1.5 kB");
    assert_eq!(human_bytes(2_000_000_000), "2.0 GB");
}

#[test]
fn byte_sizes_round_as_doubles_do() {
    for bytes in [0, 999, 1_000, 1_050, 1_250, 999_949, 999_950, 999_999, 123_456_789, u64::MAX] {
        let mut value = bytes as f64;
        let mut unit = 0;
        while value >= 1000.0 && unit < 4 {
            value /= 1000.0;
            unit += 1;
        }
        let wanted = if unit == 0 {
            format!("{bytes} B")
        } else {
            format!("{value:.1} {}", ["B", "kB", "MB", "GB", "TB"][unit])
        };
        assert_eq!(human_bytes(bytes), wanted);
    }
}

#[test]
fn the_config_directory_carries_no_version() {
    let home = || Some("/home/a".to_owned());
    for platform in [Platform::Windows, Platform::MacOs, Platform::Other] {
        let dir = config_dir(platform, Some("C:\\A".to_owned()), home(), None).unwrap();
        let text = dir.join("/");
        assert!(text.contains("GhostSun"), "{text}");
        assert!(!text.contains("0.2.0"), "{text}");
    }
}

#[test]
fn the_config_directory_follows_the_platform() {
    let some = |s: &str| Some(s.to_owned());
    assert_eq!(
        config_dir(Platform::Windows, some("A"), some("H"), some("X")),
        Some(vec!["A".to_owned(), "GhostSun".to_owned()])
    );
    assert_eq!(
        config_dir(Platform::MacOs, some("A"), some("H"), some("X")),
        Some(vec!["H".to_owned(), "Library/Application Support".to_owned(), "GhostSun".to_owned()])
    );
    assert_eq!(
        config_dir(Platform::Other, None, some("H"), some("X")),
        Some(vec!["X".to_owned(), "GhostSun".to_owned()])
    );
    assert_eq!(
        config_dir(Platform::Other, None, some("H"), None),
        Some(vec!["H".to_owned(), ".config".to_owned(), "GhostSun".to_owned()])
    );
    assert_eq!(config_dir(Platform::Windows, None, some("H"), None), None);
    assert_eq!(config_dir(Platform::Other, some("A"), None, None), None);
}

#[test]
fn the_capture_folder_round_trips() {
    let text = save_capture_dir("/data/sun scans");
    assert_eq!(text, "# GhostSun capture folder\n/data/sun scans\n");
    assert_eq!(parse_capture_dir(&text), Some("/data/sun scans".to_owned()));
    assert_eq!(parse_capture_dir("# only a comment\n\n"), None);
    assert_eq!(parse_capture_dir("\n # c\n  /a \n/b"), Some("/a".to_owned()));
    assert_eq!(load_capture_dir(Some("/a".to_owned()), true), Some("/a".to_owned()));
    assert_eq!(load_capture_dir(Some("/a".to_owned()), false), None);
}

#[test]
fn log_lines_carry_the_time_of_day() {
    assert_eq!(stamp(0, 7), "00:00:00.007");
    assert_eq!(stamp(86_400 * 3 + 3_661, 42), "01:01:01.042");
    assert_eq!(ghostsun_app::applog::write(59, 999, "opened"), "00:00:59.999 opened\n");
}

#[test]
fn a_long_log_is_rolled() {
    assert!(!rolls(ROLL_BYTES));
    assert!(rolls(ROLL_BYTES + 1));
}

#[test]
fn the_log_lies_beside_the_program_where_it_can() {
    let some = |s: &str| Some(s.to_owned());
    assert_eq!(default_path(some("E"), some("P"), "T".to_owned()), vec!["E", "ghostsun.log"]);
    assert_eq!(
        default_path(None, some("P"), "T".to_owned()),
        vec!["P", "GhostSun", "ghostsun.log"]
    );
    assert_eq!(default_path(None, None, "T".to_owned()), vec!["T", "GhostSun", "ghostsun.log"]);
}

#[test]
fn the_log_is_opened_once() {
    let mut log = SessionLog::new();
    assert!(log.path().is_none());
    assert!(log.init(vec!["a".to_owned()]));
    assert!(!log.init(vec!["b".to_owned()]));
    assert_eq!(log.path(), Some(&vec!["a".to_owned()]));
}

#[test]
fn the_site_is_kept_in_the_home_folder() {
    let some = |s: &str| Some(s.to_owned());
    assert_eq!(
        site_config_path(some("H"), some("A")),
        vec!["H", ".ghostsun", "mount_site.json"]
    );
    assert_eq!(site_config_path(None, some("A")), vec!["A", "GhostSun", "mount_site.json"]);
    assert_eq!(site_config_path(None, None), vec!["ghostsun_mount_site.json"]);
}
