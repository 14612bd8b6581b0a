use ghostsun_app::camera_panel::{
    CameraEntry, CameraMessage, CameraPanel, CameraRequest, Probe, RecordingEvent, Round,
};
use ghostsun_app::camera_worker::{
    camera_error, full_roi, preview_error, roi_eq, roi_transition, stall_note, tells_progress,
    vertical_crop_bounds, CamCommand, CamNext, CamReport, CamState, FrameUse, Roi, SerPlan,
};
use ghostsun_app::focus::DispAxis;

fn full() -> Roi {
    Roi { x: 0, y: 0, w: 3840, h: 2160 }
}

fn band(y: usize, h: usize) -> Roi {
    Roi { x: 0, y, w: 3840, h }
}

fn same(got: &[Roi], want: &[Roi]) -> bool {
    got.len() == want.len() && got.iter().zip(want).all(|(a, b)| roi_eq(*a, *b))
}

#[test]
fn re_applying_the_same_band_touches_the_camera_not_at_all() {
    assert!(roi_transition(band(1026, 120), band(1026, 120), full()).is_empty());
    assert!(roi_transition(full(), full(), full()).is_empty());
}

#[test]
fn band_to_band_normalises_through_full_frame() {
    assert!(same(
        &roi_transition(band(1026, 120), band(400, 256), full()),
        &[full(), band(400, 256)]
    ));
}

#[test]
fn single_step_from_or_to_full_frame() {
    assert!(same(&roi_transition(full(), band(400, 256), full()), &[band(400, 256)]));
    assert!(same(&roi_transition(band(400, 256), full(), full()), &[full()]));
    assert!(roi_eq(full_roi(3840, 2160), full()));
}

#[test]
fn vertical_recording_crop_stays_in_sensor_bounds() {
    assert_eq!(vertical_crop_bounds(1_000, 200, Some(500)), (400, 200));
    assert_eq!(vertical_crop_bounds(1_000, 200, Some(20)), (0, 200));
    assert_eq!(vertical_crop_bounds(1_000, 200, Some(990)), (800, 200));
    assert_eq!(vertical_crop_bounds(1_000, 2_000, Some(500)), (0, 1_000));
}

#[test]
fn crop_bounds_centre_clamp_and_oversize() {
    assert_eq!(vertical_crop_bounds(2160, 256, Some(1100)), (972, 256));
    assert_eq!(vertical_crop_bounds(2160, 256, Some(10)), (0, 256));
    assert_eq!(vertical_crop_bounds(2160, 256, Some(2155)), (1904, 256));
    assert_eq!(vertical_crop_bounds(2160, 9999, Some(1000)), (0, 2160));
}

#[test]
fn crop_bounds_without_a_line_or_a_frame() {
    assert_eq!(vertical_crop_bounds(1_000, 200, None), (400, 200));
    assert_eq!(vertical_crop_bounds(0, 200, Some(5)), (0, 1));
    assert_eq!(vertical_crop_bounds(1_000, 0, Some(5)), (5, 1));
    assert_eq!(vertical_crop_bounds(1_000, 10, Some(5_000)), (990, 10));
}

fn plan(hw_roi: bool) -> SerPlan {
    SerPlan { capture_height: 120, anchor: Some(1_086), hw_roi }
}

#[test]
fn a_recording_in_a_live_band_leaves_the_sensor_alone() {
    let s = CamState::opened(3840, 2160);
    let (s, out) = s.command(CamCommand::LiveRoi {
        capture_height: 120,
        anchor: Some(1_086),
        enable: true,
    });
    assert_eq!(out.next, CamNext::Apply(band(1026, 120)));
    let (s, out) = s.applied(true);
    assert_eq!(out.report, CamReport::LiveRoi { active: true, y0: 1026, h: 120 });
    assert!(s.shows_band());
    let (s, out) = s.command(CamCommand::StartSer(plan(true)));
    assert_eq!((out.next, out.finish), (CamNext::Proceed, false));
    let (s, recording) = s.frame_arrived(120);
    let recording = recording.unwrap();
    assert_eq!((recording.y0, recording.height, recording.hw_active), (0, 120, true));
    let (s, _) = s.recorder_created(recording, true);
    assert_eq!(
        s.use_frame(3840, 120, 3840 * 120),
        FrameUse::Write { start: 0, end: 3840 * 120 }
    );
    assert_eq!(s.use_frame(3840, 119, 3840 * 119), FrameUse::DimensionsChanged);
    let (s, out) = s.command(CamCommand::StopSer);
    assert!(out.finish);
    assert_eq!(out.next, CamNext::ResumePreview);
    assert_eq!(s.current, band(1026, 120));
}

#[test]
fn a_recording_band_is_released_afterwards() {
    let s = CamState::opened(3840, 2160);
    let (s, out) = s.command(CamCommand::StartSer(plan(true)));
    assert_eq!(out.next, CamNext::Apply(band(1026, 120)));
    let (s, _) = s.applied(true);
    let (s, out) = s.command(CamCommand::LiveRoi { capture_height: 2, anchor: None, enable: false });
    assert_eq!(out.report, CamReport::RoiWhileRecording);
    let (s, recording) = s.frame_arrived(120);
    let (s, _) = s.recorder_created(recording.unwrap(), true);
    let (s, out) = s.command(CamCommand::StopSer);
    assert_eq!((out.finish, out.next), (true, CamNext::Apply(full())));
    let (s, out) = s.applied(true);
    assert_eq!(out.next, CamNext::ResumePreview);
    assert_eq!(s.current, full());
}

#[test]
fn a_cropped_recording_keeps_the_full_sensor() {
    let s = CamState::opened(3840, 2160);
    let (s, out) = s.command(CamCommand::StartSer(plan(false)));
    assert_eq!(out.next, CamNext::Proceed);
    let (s, recording) = s.frame_arrived(2160);
    let recording = recording.unwrap();
    assert_eq!((recording.y0, recording.height, recording.hw_active), (1026, 120, false));
    let (s, _) = s.recorder_created(recording, true);
    assert_eq!(
        s.use_frame(3840, 2160, 3840 * 2160),
        FrameUse::Write { start: 1026 * 3840, end: 1146 * 3840 }
    );
    let (s, out) = s.recording_failed();
    assert_eq!((out.finish, out.next), (false, CamNext::Proceed));
    assert_eq!(s.active, None);
    assert_eq!(s.use_frame(3840, 2160, 3840 * 2160), FrameUse::Preview);
}

#[test]
fn a_refused_band_falls_back_to_the_full_sensor() {
    let s = CamState::opened(3840, 2160);
    let live = CamCommand::LiveRoi { capture_height: 120, anchor: Some(1_086), enable: true };
    let (s, _) = s.command(live);
    let (s, out) = s.applied(false);
    assert_eq!(out.next, CamNext::Apply(full()));
    let (recovered, out) = s.applied(true);
    assert_eq!((out.report, out.next), (CamReport::RefusedRoi, CamNext::Proceed));
    assert_eq!(recovered.live, None);
    let (_, out) = s.applied(false);
    assert_eq!((out.report, out.next), (CamReport::NotRecovered, CamNext::Exit));
    let s = CamState::opened(3840, 2160);
    let (s, _) = s.command(CamCommand::StartSer(plan(true)));
    let (s, out) = s.applied(false);
    assert_eq!(out.next, CamNext::Apply(full()));
    let (s, _) = s.applied(true);
    assert!(!s.pending.unwrap().hw_active);
}

#[test]
fn missing_frames_are_counted() {
    let s = CamState::opened(10, 10);
    let (s, _) = s.frame_missed();
    assert_eq!(s.stalled, 1);
    let (s, _) = s.frame_arrived(10);
    assert_eq!(s.stalled, 0);
    assert!(stall_note(3).contains('3'));
    assert!(!tells_progress(7));
}

#[test]
fn camera_errors_name_what_failed() {
    assert_eq!(camera_error(CamReport::Silence, "a", "b"), None);
    assert!(camera_error(CamReport::NotRecovered, "roi", "why").unwrap().contains("why"));
    assert!(preview_error("why").contains("why"));
}

fn entry(id: &str, synthetic: bool) -> CameraEntry {
    CameraEntry {
        backend: 1,
        synthetic,
        id: id.to_owned(),
        name: format!("camera {id}"),
        exposure_min: 100,
        exposure_max: 1_000_000,
        gain_min: 100,
        gain_max: 500,
        max_height: 2160,
    }
}

fn panel() -> CameraPanel {
    let mut p = CameraPanel::new();
    p.refresh_cameras(vec![entry("sim", true), entry("a", false)], Probe::Count(1));
    p
}

#[test]
fn real_cameras_are_preferred_until_one_is_picked() {
    let mut p = panel();
    assert_eq!(p.selected, 1);
    assert_eq!(p.status, "1 hardware camera(s) found");
    p.pick(0);
    p.refresh_cameras(vec![entry("sim", true), entry("a", false)], Probe::Count(1));
    assert_eq!(p.selected, 0);
    p.refresh_cameras(vec![entry("sim", true)], Probe::Count(0));
    assert_eq!(p.status, "No hardware camera detected (ToupTek SDK loaded)");
    p.refresh_cameras(vec![], Probe::Count(2));
    assert!(p.status.starts_with("ToupTek reports 2 camera(s)"));
    p.refresh_cameras(vec![], Probe::Failed("no library".to_owned()));
    assert_eq!(p.status, "No hardware camera; no library");
}

#[test]
fn a_search_leaves_the_settings_as_they_were() {
    let mut p = panel();
    p.set_exposure(5_000);
    p.set_auto_exposure(true);
    assert!(p.outbox.is_empty());
    let restore = p.prepare_sun_search(50, "0.1").ok().unwrap();
    assert!(p.settings.streaming);
    assert_eq!((p.settings.exposure_us, p.settings.auto_exposure), (100, false));
    assert_eq!(p.status, "Sun search: camera a at 0.1 ms");
    p.restore_after_sun_search(restore);
    assert!(!p.settings.streaming);
    assert_eq!((p.settings.exposure_us, p.settings.auto_exposure), (5_000, true));
}

#[test]
fn a_search_needs_a_real_camera() {
    let mut p = CameraPanel::new();
    p.refresh_cameras(vec![entry("sim", true)], Probe::Count(0));
    assert_eq!(
        p.prepare_sun_search(1_000, "1").err().unwrap(),
        "no hardware camera is available for Sun centering"
    );
}

#[test]
fn a_recording_is_left_alone() {
    let mut p = panel();
    assert!(p.start_ser_recording("a.ser".to_owned(), 120, None, true, false).is_err());
    assert!(p.start_ser_recording("a.ser".to_owned(), 120, Some(9), true, false).is_ok());
    assert_eq!(p.recording.status, "starting SER recording...");
    assert_eq!(
        p.outbox,
        vec![
            CameraRequest::Open,
            CameraRequest::StartSer { capture_height: 120, anchor: Some(9), hw_roi: true }
        ]
    );
    assert_eq!(
        p.start_ser_recording("b.ser".to_owned(), 120, Some(9), true, false),
        Err("a SER recording is already active".to_owned())
    );
    assert_eq!(
        p.set_live_roi(120, Some(9), true, false),
        Err("stop the recording before changing the sensor ROI".to_owned())
    );
    p.stop_ser_recording();
    assert_eq!(p.outbox[2], CameraRequest::StopSer);
    assert_eq!(p.recording.status, "stopping SER recording...");
}

#[test]
fn recordings_report_their_progress() {
    let mut p = panel();
    p.start();
    let mut round = Round { event: None, error: None };
    let started = RecordingEvent::Started {
        path: "a.ser".to_owned(),
        width: 3840,
        height: 120,
        hw_roi: true,
    };
    assert!(p.receive(CameraMessage::Recording(started), &mut round));
    assert!(p.settle(round));
    assert_eq!(p.recording.status, "recording 3840×120 mono16 · hardware ROI");
    let progress = Round { event: Some(RecordingEvent::Progress(60)), error: None };
    assert!(p.settle(progress));
    assert_eq!(p.recording.status, "recording · 60 frames");
    let done = RecordingEvent::Stopped {
        path: "a.ser".to_owned(),
        frames: 90,
        fps: Some("30.0".to_owned()),
        hw_roi: false,
        device_clock: false,
    };
    assert!(p.settle(Round { event: Some(done), error: None }));
    assert_eq!(p.recording.status, "saved 90 frames · 30.0 fps · host clock");
    let failed = RecordingEvent::Failed("disk full".to_owned());
    assert!(p.settle(Round { event: Some(failed), error: None }));
    assert_eq!(p.recording.status, "SER recording failed: disk full");
}

#[test]
fn an_error_stops_the_camera() {
    let mut p = panel();
    p.start();
    let mut round = Round { event: None, error: None };
    assert!(!p.receive(CameraMessage::Error("unplugged".to_owned()), &mut round));
    assert!(!p.settle(round));
    assert!(!p.settings.streaming);
    assert_eq!(p.status, "stopped");
    assert_eq!(p.outbox, vec![CameraRequest::Open, CameraRequest::Close]);
}

#[test]
fn messages_reach_the_panel() {
    let mut p = panel();
    let mut round = Round { event: None, error: None };
    let mut info = entry("a", false);
    info.max_height = 1_000;
    assert!(p.receive(CameraMessage::Opened(info), &mut round));
    assert_eq!(p.cameras[1].max_height, 1_000);
    assert!(p.receive(CameraMessage::Note("hot".to_owned()), &mut round));
    assert_eq!(p.status, "hot");
    assert!(p.receive(CameraMessage::LiveRoi { active: true, y0: 100, h: 20 }, &mut round));
    assert_eq!(p.live_roi.status, "hardware ROI live · rows 100–120 (20 px)");
    assert_eq!(p.known_frame_height(Some(20)), Some(1_000));
    assert!(p.receive(CameraMessage::LiveRoi { active: false, y0: 0, h: 1_000 }, &mut round));
    assert_eq!(p.live_roi.status, "full sensor");
    assert_eq!(p.known_frame_height(Some(20)), Some(20));
    p.set_auto_exposure(true);
    p.adopt_frame(Some(77), None);
    assert_eq!((p.settings.exposure_us, p.settings.gain, p.frame_seq), (77, 200, 1));
}

#[test]
fn settings_reach_a_running_camera_only() {
    let mut p = panel();
    p.set_gain(300);
    p.start();
    p.set_gain(310);
    p.set_exposure(9);
    p.set_dispersion(DispAxis::Horizontal);
    assert_eq!(
        p.outbox,
        vec![
            CameraRequest::Open,
            CameraRequest::Gain(310),
            CameraRequest::Exposure(9),
            CameraRequest::Dispersion(true)
        ]
    );
    assert!(p.set_live_roi(0, Some(3), true, false).is_ok());
    assert_eq!(
        p.outbox[4],
        CameraRequest::LiveRoi { capture_height: 2, anchor: Some(3), enable: true }
    );
    assert_eq!(p.set_live_roi(9, None, true, false), Err("select a valid spectral-line anchor".to_owned()));
    let gone = Err("camera worker is not running".to_owned());
    assert_eq!(p.set_live_roi(9, Some(3), false, true), gone);
    assert_eq!(p.start_ser_recording("a.ser".to_owned(), 120, Some(9), true, true), gone);
    assert_eq!(p.outbox.len(), 5);
    p.stop();
    assert_eq!(
        p.set_live_roi(9, Some(3), false, false),
        Err("start a camera before applying the ROI".to_owned())
    );
}

#[test]
fn a_recording_without_a_file_gives_the_sensor_back() {
    let s = CamState::opened(3840, 2160);
    let (s, out) = s.command(CamCommand::StartSer(plan(true)));
    assert!(matches!(out.next, CamNext::Apply(_)));
    let (s, _) = s.applied(true);
    let (s, recording) = s.frame_arrived(120);
    let (s, out) = s.recorder_created(recording.unwrap(), false);
    assert_eq!((out.report, out.next), (CamReport::Silence, CamNext::Apply(full())));
    assert!(s.active.is_none() && s.pending.is_none());
    let (s, out) = s.applied(true);
    assert_eq!((s.current, out.next), (full(), CamNext::Proceed));
}

#[test]
fn a_recording_that_is_cut_starts_from_the_whole_sensor() {
    let s = CamState::opened(3840, 2160);
    let (s, _) = s.command(CamCommand::StartSer(plan(true)));
    let (s, _) = s.applied(true);
    let (s, out) = s.command(CamCommand::StartSer(plan(false)));
    assert_eq!(out.next, CamNext::Apply(full()));
    let (s, out) = s.applied(true);
    assert_eq!((s.current, out.next), (full(), CamNext::Proceed));
    assert!(!s.pending.unwrap().hw_active);
}
