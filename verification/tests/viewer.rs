use ghostsun_app::viewer::{LoadedFacts, OpenAction, ViewMode, Viewer};

fn facts() -> LoadedFacts {
    LoadedFacts {
        velocity: false,
        before_demix: false,
        disc: true,
        source_ser: true,
        oriented: false,
    }
}

#[test]
fn files_are_opened_by_their_kind() {
    let mut v = Viewer::new();
    assert_eq!(v.open_file("a.ser".to_owned(), "ser"), OpenAction::Nothing);
    assert_eq!(v.selected_ser.as_deref(), Some("a.ser"));
    assert_eq!(v.log[0], "selected a.ser");
    assert_eq!(v.placeholder(), "Scan selected — review settings and click Process");
    assert_eq!(v.open_file("b.fits".to_owned(), "fits"), OpenAction::ReadFits);
    assert_eq!(v.open_file("b.fit".to_owned(), "fit"), OpenAction::ReadFits);
    assert_eq!(v.open_file("c.png".to_owned(), "png"), OpenAction::ReadPng);
    assert_eq!(v.open_file("d.txt".to_owned(), "txt"), OpenAction::Nothing);
    assert_eq!(v.log.last().unwrap(), "unsupported file type: txt");
    v.file_read(OpenAction::ReadFits, "b.fits", true);
    assert_eq!(v.log.last().unwrap(), "loaded b.fits");
    assert!(v.selected_ser.is_none());
    v.file_refused(OpenAction::ReadPng, "short");
    assert_eq!(v.log.last().unwrap(), "PNG load failed: short");
}

#[test]
fn a_running_job_keeps_other_files_out() {
    let mut v = Viewer::new();
    v.run_pipeline("a.ser");
    assert!(v.is_busy());
    assert_eq!(v.open_file("b.fits".to_owned(), "fits"), OpenAction::Nothing);
    assert_eq!(v.placeholder(), "reconstructing…");
    v.job_failed("no disc");
    assert!(!v.is_busy());
    assert_eq!(v.log.last().unwrap(), "FAILED: no disc");
    v.run_pipeline("a.ser");
    v.job_done(facts());
    assert_eq!(v.log.last().unwrap(), "done.");
    assert!(v.can_orient() && v.can_texture());
}

#[test]
fn overtaken_colours_are_rendered_again() {
    let mut v = Viewer::new();
    assert!(v.kick_colorize().is_none());
    v.set_loaded(facts());
    v.switch_mode(ViewMode::Color, true);
    assert!(v.color_due());
    let first = v.kick_colorize().unwrap();
    assert!(!v.color_due());
    assert!(v.kick_colorize().is_none());
    v.set_loaded(facts());
    assert!(v.job_colorized(first));
    assert!(v.color_due());
    let second = v.kick_colorize().unwrap();
    assert_ne!(first, second);
    assert!(!v.job_colorized(first));
    assert!(v.color_due());
}

#[test]
fn orientation_needs_the_scan_and_the_disc() {
    let mut v = Viewer::new();
    assert!(!v.kick_gong_orientation());
    v.set_loaded(LoadedFacts { source_ser: false, ..facts() });
    assert!(!v.kick_gong_orientation());
    assert!(v.log.last().unwrap().contains("original SER"));
    v.set_loaded(LoadedFacts { disc: false, ..facts() });
    assert!(!v.kick_gong_orientation());
    assert!(v.log.last().unwrap().contains("disk geometry"));
    v.set_loaded(facts());
    assert!(v.kick_gong_orientation());
    assert!(!v.kick_gong_orientation());
    assert_eq!(v.placeholder(), "matching solar features to GONG…");
    v.job_oriented(facts(), "20260723160722Th.jpg", -12);
    assert!(v.loaded.unwrap().oriented);
    assert!(v.log.last().unwrap().contains("(-12 s from acquisition)"));
    assert!(!v.kick_gong_orientation());
    v.job_orientation_failed("offline");
    assert_eq!(v.log.last().unwrap(), "GONG orientation failed: offline");
}

#[test]
fn the_job_log_is_bounded() {
    let mut v = Viewer::new();
    for i in 0..5_000 {
        v.job_log(format!("line {i}"));
    }
    assert!(v.log.len() < 5_000);
    assert_eq!(v.log.last().unwrap(), "line 4999");
    v.say("bye");
    assert_eq!(v.log.last().unwrap(), "bye");
}

#[test]
fn the_camera_runs_only_in_the_focus_tab() {
    let mut v = Viewer::new();
    let enter = v.switch_mode(ViewMode::Focus, false);
    assert!(enter.find_cameras && !enter.stop_camera);
    let stay = v.switch_mode(ViewMode::Focus, false);
    assert!(!stay.find_cameras && !stay.stop_camera);
    let leave = v.switch_mode(ViewMode::Velocity, true);
    assert!(leave.stop_camera && !leave.find_cameras);
    v.compare_columns(true);
    assert_eq!(v.screen.mode, ViewMode::Display);
    assert!(v.screen.show_before_demix);
}
