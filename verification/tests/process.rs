use ghostsun_app::acquire::ProcessMessage;
use ghostsun_app::focusmetrics::Reading;
use ghostsun_app::process::{
    ellipsize, human_duration, quick_options, ranking, session_tiles, stretch_places, FoundScan,
    PreviewMsg, ProcessState, SortBy, TileFacts, TileInfo, TileState,
};
use ghostsun_app::session::{discover_sessions, session_scans, FileName, SubFolder};

fn name(text: &str) -> FileName {
    FileName { text: text.to_owned() }
}

fn scans(n: usize) -> Vec<FileName> {
    (0..n).map(|i| name(&format!("scan-{:02}.ser", i + 1))).collect()
}

#[test]
fn a_single_session_folder_is_itself_the_session() {
    let inside = session_scans(&scans(2));
    let found = discover_sessions(!inside.is_empty(), &Vec::new());
    assert!(found.root && found.below.is_empty());
}

#[test]
fn a_parent_folder_finds_every_session_under_it() {
    let folders = vec![
        SubFolder { name: name("scan-1787569064"), scans: !session_scans(&scans(1)).is_empty() },
        SubFolder { name: name("not-a-session"), scans: !session_scans(&scans(0)).is_empty() },
        SubFolder { name: name("scan-1787568793"), scans: !session_scans(&scans(3)).is_empty() },
    ];
    let found = discover_sessions(false, &folders);
    assert!(!found.root, "the root holds no scans");
    let names: Vec<&str> = found.below.iter().map(|s| s.text.as_str()).collect();
    assert_eq!(names, vec!["scan-1787568793", "scan-1787569064"]);
    let found = discover_sessions(true, &folders);
    assert!(found.root && found.below.len() == 2, "scans in the root hide none below it");
}

#[test]
fn a_hundred_scans_stay_in_capture_order() {
    let mut listed = scans(130);
    listed.reverse();
    listed.swap(3, 77);
    listed.push(name("scan-b.ser"));
    listed.push(name("scan-a.ser"));
    listed.push(name("scan-99999999999999999999.ser"));
    let found = session_scans(&listed);
    for (scan, wanted) in found.iter().zip(&scans(130)) {
        assert_eq!(scan.text, wanted.text);
    }
    let rest: Vec<&str> = found[130..].iter().map(|s| s.text.as_str()).collect();
    assert_eq!(rest, ["scan-99999999999999999999.ser", "scan-a.ser", "scan-b.ser"]);
}

#[test]
fn only_scan_files_are_listed_and_they_stay_in_capture_order() {
    let mut found = vec![name("ghostsun-final.png"), name("notes.txt")];
    let mut listed = scans(3);
    listed.reverse();
    found.extend(listed);
    let scans = session_scans(&found);
    assert_eq!(scans.len(), 3);
    let names: Vec<&str> = scans.iter().map(|p| p.text.as_str()).collect();
    assert_eq!(names, ["scan-01.ser", "scan-02.ser", "scan-03.ser"]);
}

fn reading(value: f64) -> Reading {
    Reading { key: value.to_bits() as i64 }
}

fn info(captured: &str) -> TileInfo {
    TileInfo {
        path: "x.ser".to_owned(),
        session: "s".to_owned(),
        label: "scan-01".to_owned(),
        frames: 10,
        captured: captured.to_owned(),
        reverse: false,
    }
}

fn loaded(tiles: &[(Option<f64>, &str)]) -> ProcessState {
    let mut state = ProcessState::new();
    state.tiles = tiles.iter().map(|t| info(t.1)).collect();
    state.facts = tiles
        .iter()
        .map(|t| TileFacts { sharpness: t.0.map(reading), pictured: true, selected: false })
        .collect();
    state.states = tiles.iter().map(|_| TileState::Ready).collect();
    state.order = (0..tiles.len()).collect();
    state
}

#[test]
fn the_sharpest_scans_sort_first_and_failures_sink() {
    let mut state = loaded(&[(Some(3.0), "c"), (None, "a"), (Some(1.0), "b")]);
    state.resort();
    assert_eq!(state.order, vec![2, 0, 1]);
    assert_eq!(ranking(&state.tiles, &state.facts, SortBy::Captured), vec![1, 2, 0]);
    state.sort_by(SortBy::Captured);
    assert_eq!(state.order, vec![1, 2, 0]);
}

#[test]
fn the_better_half_is_preselected() {
    let mut state = loaded(&[(Some(4.0), "a"), (Some(1.0), "b"), (Some(2.0), "c"), (None, "d")]);
    state.pretick();
    let picked: Vec<bool> = state.facts.iter().map(|t| t.selected).collect();
    assert_eq!(picked, vec![false, true, true, false]);
    assert!(!state.facts[3].selected, "an unmeasured scan is never auto-picked");
    assert_eq!(state.selected_count(), 2);
}

#[test]
fn a_users_selection_is_not_overwritten() {
    let mut state = loaded(&[(Some(9.0), "a"), (Some(1.0), "b")]);
    state.facts[0].selected = true;
    state.user_picked = true;
    state.pretick();
    assert!(state.facts[0].selected, "the automatic pick must not stomp a choice");
}

#[test]
fn no_estimate_is_offered_before_anything_has_finished() {
    let state = loaded(&[(None, "a"), (None, "b")]);
    assert!(state.remaining_estimate().is_none());
}

#[test]
fn the_estimate_uses_the_mean_of_finished_scans() {
    let mut state = loaded(&[(None, "a"), (None, "b"), (None, "c")]);
    state.pass.durations = vec![10_000, 20_000];
    state.pass.done = 2;
    assert_eq!(state.remaining_estimate().as_deref(), Some("15s"));
}

#[test]
fn the_estimate_stops_once_the_pass_is_done() {
    let mut state = loaded(&[(None, "a")]);
    state.pass.durations = vec![5_000];
    state.pass.done = 1;
    assert!(state.remaining_estimate().is_none());
    assert_eq!(state.pass.done as f64 / state.tiles.len() as f64, 1.0);
}

#[test]
fn durations_read_in_minutes_when_long() {
    assert_eq!(human_duration(9_400), "9s");
    assert_eq!(human_duration(130_000), "2m 10s");
    assert_eq!(human_duration(-3_000), "0s");
    assert_eq!(human_duration(59_500), "1m 00s");
}

#[test]
fn long_stage_names_are_trimmed_to_fit_a_tile() {
    assert_eq!(ellipsize("short", 22), "short");
    let long = ellipsize("a stage name far too long for one tile", 10);
    assert_eq!(long.chars().count(), 10);
    assert!(long.ends_with('…'));
    assert_eq!(long, "a stage n…");
    assert_eq!(ellipsize("ab", 1), "…");
    assert_eq!(ellipsize("ab", 0), "");
}

#[test]
fn a_preview_pass_fills_the_tiles() {
    let mut state = ProcessState::new();
    state.load_folder("/data".to_owned(), vec![info("b"), info("a")]);
    assert!(state.pass.running);
    state.on_preview(PreviewMsg::Started { index: 0 }, 1_000);
    state.on_preview(PreviewMsg::Step { index: 0, line: "reading".to_owned() }, 1_500);
    assert!(matches!(&state.states[0], TileState::Working(_)));
    state.on_preview(PreviewMsg::Preview { index: 0, sharpness: Some(reading(2.0)) }, 3_000);
    assert!(matches!(&state.states[0], TileState::Ready));
    assert_eq!(state.pass.done, 1);
    assert_eq!(state.pass.durations, vec![2_000]);
    assert_eq!(state.remaining_estimate().as_deref(), Some("2s"));
    state.on_preview(PreviewMsg::Started { index: 1 }, 3_000);
    state.on_preview(PreviewMsg::Failed { index: 1, error: "short".to_owned() }, 4_000);
    assert!(matches!(&state.states[1], TileState::Failed(e) if e == "short"));
    state.on_preview(PreviewMsg::Done, 5_000);
    assert!(!state.pass.running);
    assert_eq!(state.order, vec![0, 1]);
    assert!(state.facts[0].selected && !state.facts[1].selected);
}

#[test]
fn a_stack_takes_the_selected_scans() {
    let mut state = loaded(&[(Some(3.0), "c"), (Some(2.0), "a"), (Some(1.0), "b")]);
    state.select_none();
    assert!(state.start_stack().is_none());
    assert_eq!(state.status, "Tick at least one scan first");
    state.root = Some("/data".to_owned());
    state.toggle(2);
    state.toggle(0);
    assert!(state.user_picked);
    assert_eq!(state.start_stack(), Some(vec![0, 2]));
    assert!(state.stacking);
    state.on_stack(ProcessMessage::Log("warping".to_owned()));
    state.on_stack(ProcessMessage::Done);
    assert!(!state.stacking);
    state.select_all();
    assert_eq!(state.selected_count(), 3);
    state.select_best_half();
    assert_eq!(state.selected_count(), 2);
    assert_eq!(state.start_stack(), Some(vec![1, 2]));
    state.on_stack(ProcessMessage::Failed("no disc".to_owned()));
    assert!(!state.stacking);
    assert!(state.status.contains("no disc"));
}

#[test]
fn previews_skip_the_slow_steps() {
    let o = quick_options(true);
    assert!(o.flip_x);
    assert!(!quick_options(false).flip_x);
    assert!(!o.deconv && !o.denoise && !o.wiener && !o.temporal_nlm);
}

#[test]
fn stretches_ignore_the_extremes() {
    let (low, high) = stretch_places(1_000);
    assert!(low < high && high < 1_000);
    let (low, high) = stretch_places(1);
    assert_eq!((low, high), (0, 0));
}

#[test]
fn tiles_are_named_after_their_scans() {
    let found = |name: &str| FoundScan {
        path: format!("/data/s/{name}"),
        name: name.to_owned(),
        frames: 7,
        captured: "2026-07-23 16:07:22".to_owned(),
    };
    let scans = vec![found("scan-01.ser"), found("scan-02.SER"), found(".hidden"), found("plain")];
    let tiles = session_tiles("scan-1787568793", &scans);
    let labels: Vec<&str> = tiles.iter().map(|t| t.label.as_str()).collect();
    assert_eq!(labels, vec!["scan-01", "scan-02", ".hidden", "plain"]);
    let reversed: Vec<bool> = tiles.iter().map(|t| t.reverse).collect();
    assert_eq!(reversed, vec![false, true, false, true]);
    let late = session_tiles("s", &vec![found("scan-02.ser"), found("scan-05.ser")]);
    assert_eq!((late[0].reverse, late[1].reverse), (true, false));
    assert_eq!(tiles[1].path, "/data/s/scan-02.SER");
    assert_eq!((tiles[0].session.as_str(), tiles[0].frames), ("scan-1787568793", 7));
}
