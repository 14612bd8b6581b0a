//! The viewer: which file is open, which jobs run, and what is shown.

use crate::text::{joined2, joined3, same_text, signed_decimal, signed_decimal_string, texts};
use vstd::prelude::*;
use vstd::string::StringExecFns;

verus! {

/// Lines of the log beyond which the oldest are dropped.
pub const LOG_LIMIT: usize = 400;

pub const LOG_DROP: usize = 100;

#[derive(Clone, Copy, Debug, PartialEq, Eq, Structural)]
pub enum ViewMode {
    Display,
    Color,
    Velocity,
    Focus,
}

/// What is there of the loaded image.
#[derive(Clone, Copy, Debug, PartialEq, Eq, Structural)]
pub struct LoadedFacts {
    pub velocity: bool,
    pub before_demix: bool,
    /// The disc was found.
    pub disc: bool,
    /// The scan that the image came from is known.
    pub source_ser: bool,
    /// North is up.
    pub oriented: bool,
}

/// The colour rendering.
#[derive(Clone, Copy, Debug, PartialEq, Eq, Structural)]
pub struct ColorJob {
    /// The settings or the image changed since the last rendering.
    pub dirty: bool,
    pub seq: u64,
    pub inflight: bool,
    pub cached: bool,
}

/// What is on the screen.
#[derive(Clone, Copy, Debug, PartialEq, Eq, Structural)]
pub struct Screen {
    pub mode: ViewMode,
    /// The texture is up to date.
    pub textured: bool,
    pub fit_requested: bool,
    pub show_before_demix: bool,
}

pub struct Viewer {
    pub loaded: Option<LoadedFacts>,
    pub running: bool,
    pub orientation_running: bool,
    pub log: Vec<String>,
    pub color: ColorJob,
    pub screen: Screen,
    pub selected_ser: Option<String>,
}

/// What to do with a file.
#[derive(Clone, Copy, Debug, PartialEq, Eq, Structural)]
pub enum OpenAction {
    Nothing,
    ReadFits,
    ReadPng,
}

/// What to do when the mode changes.
#[derive(Clone, Copy, Debug, PartialEq, Eq, Structural)]
pub struct ModeAction {
    pub stop_camera: bool,
    pub find_cameras: bool,
}

/// A line at the end of the log.
pub open spec fn said(before: Viewer, after: Viewer, line: Seq<char>) -> bool {
    &&& texts(after.log@) == texts(before.log@).push(line)
    &&& after == Viewer { log: after.log, ..before }
}

/// The log with a line of a job: a long log loses its oldest lines.
pub open spec fn log_with(log: Seq<Seq<char>>, line: Seq<char>) -> Seq<Seq<char>> {
    let all = log.push(line);
    if all.len() > LOG_LIMIT {
        all.skip(LOG_DROP as int)
    } else {
        all
    }
}

/// The screen and the colours after the image changed.
pub open spec fn image_changed(before: Viewer, facts: LoadedFacts) -> Viewer {
    Viewer {
        loaded: Some(facts),
        color: ColorJob { dirty: true, cached: false, ..before.color },
        screen: Screen { textured: false, fit_requested: true, ..before.screen },
        ..before
    }
}

/// The viewer with another image.
pub open spec fn shown(before: Viewer, facts: LoadedFacts) -> Viewer {
    let v = image_changed(before, facts);
    Viewer { screen: Screen { show_before_demix: false, ..v.screen }, ..v }
}

impl Viewer {
    pub fn new() -> (v: Viewer)
        ensures
            v.loaded is None && !v.running && !v.orientation_running && v.log@.len() == 0,
            v.color == (ColorJob { dirty: true, seq: 0, inflight: false, cached: false }),
            v.screen == (Screen {
                mode: ViewMode::Display,
                textured: false,
                fit_requested: true,
                show_before_demix: false,
            }),
            v.selected_ser is None,
    {
        Viewer {
            loaded: None,
            running: false,
            orientation_running: false,
            log: Vec::new(),
            color: ColorJob { dirty: true, seq: 0, inflight: false, cached: false },
            screen: Screen {
                mode: ViewMode::Display,
                textured: false,
                fit_requested: true,
                show_before_demix: false,
            },
            selected_ser: None,
        }
    }

    /// Adds a line to the log.
    pub fn say(&mut self, line: &str)
        ensures
            said(*old(self), *final(self), line@),
    {
        self.log.push(line.to_owned());
        assert(texts(self.log@) =~= texts(old(self).log@).push(line@));
    }

    /// A job is under way that a new file would disturb.
    pub open spec fn busy(&self) -> bool {
        self.running || self.orientation_running
    }

    pub fn is_busy(&self) -> (r: bool)
        ensures
            r == self.busy(),
    {
        self.running || self.orientation_running
    }

    /// Opens a file by its extension, which comes in lower case. A scan is only
    /// selected; it is processed on request.
    pub fn open_file(&mut self, path: String, extension: &str) -> (action: OpenAction)
        ensures
            if old(self).busy() {
                action is Nothing && said(
                    *old(self),
                    *final(self),
                    "processing is already in progress; wait before opening another file"@,
                )
            } else if extension@ == "ser"@ {
                &&& action is Nothing
                &&& texts(final(self).log@) == seq![
                    "selected "@ + path@,
                    "review the Pipeline settings, then click Process"@,
                ]
                &&& *final(self) == (Viewer {
                    selected_ser: Some(path),
                    log: final(self).log,
                    ..*old(self)
                })
            } else if extension@ == "fits"@ || extension@ == "fit"@ {
                action is ReadFits && *final(self) == *old(self)
            } else if extension@ == "png"@ {
                action is ReadPng && *final(self) == *old(self)
            } else {
                action is Nothing && said(
                    *old(self),
                    *final(self),
                    "unsupported file type: "@ + extension@,
                )
            },
    {
        if self.running || self.orientation_running {
            self.say("processing is already in progress; wait before opening another file");
            return OpenAction::Nothing;
        }
        if same_text(extension, "ser") {
            let line = joined2("selected ", path.as_str());
            self.log = Vec::new();
            assert(texts(self.log@) =~= seq![]);
            self.say(line.as_str());
            self.say("review the Pipeline settings, then click Process");
            assert(texts(self.log@) =~= seq![
                "selected "@ + path@,
                "review the Pipeline settings, then click Process"@,
            ]);
            self.selected_ser = Some(path);
            OpenAction::Nothing
        } else if same_text(extension, "fits") || same_text(extension, "fit") {
            OpenAction::ReadFits
        } else if same_text(extension, "png") {
            OpenAction::ReadPng
        } else {
            let line = joined2("unsupported file type: ", extension);
            self.say(line.as_str());
            OpenAction::Nothing
        }
    }

    /// Shows another image.
    pub fn set_loaded(&mut self, facts: LoadedFacts)
        ensures
            *final(self) == shown(*old(self), facts),
    {
        self.loaded = Some(facts);
        self.screen.show_before_demix = false;
        self.screen.textured = false;
        self.color.cached = false;
        self.color.dirty = true;
        self.screen.fit_requested = true;
    }

    /// A view-only file was read. Only a FITS file is told of in the log.
    pub fn file_read(&mut self, action: OpenAction, path: &str, disc: bool)
        ensures
            ({
                let facts = LoadedFacts {
                    velocity: false,
                    before_demix: false,
                    disc,
                    source_ser: false,
                    oriented: false,
                };
                let v = shown(Viewer { selected_ser: None, ..*old(self) }, facts);
                if action is ReadFits {
                    said(v, *final(self), "loaded "@ + path@)
                } else {
                    *final(self) == v
                }
            }),
    {
        self.selected_ser = None;
        self.set_loaded(
            LoadedFacts {
                velocity: false,
                before_demix: false,
                disc,
                source_ser: false,
                oriented: false,
            },
        );
        if let OpenAction::ReadFits = action {
            let line = joined2("loaded ", path);
            self.say(line.as_str());
        }
    }

    /// A view-only file could not be read.
    pub fn file_refused(&mut self, action: OpenAction, error: &str)
        ensures
            said(
                *old(self),
                *final(self),
                (if action is ReadFits {
                    "FITS load failed: "@
                } else {
                    "PNG load failed: "@
                }) + error@,
            ),
    {
        let line = match action {
            OpenAction::ReadFits => joined2("FITS load failed: ", error),
            _ => joined2("PNG load failed: ", error),
        };
        self.say(line.as_str());
    }

    /// The pipeline starts on a scan.
    pub fn run_pipeline(&mut self, path: &str)
        ensures
            texts(final(self).log@) == seq!["processing "@ + path@ + " ..."@],
            *final(self) == (Viewer { running: true, log: final(self).log, ..*old(self) }),
    {
        self.running = true;
        let line = joined3("processing ", path, " ...");
        self.log = Vec::new();
        assert(texts(self.log@) =~= seq![]);
        self.say(line.as_str());
        assert(texts(self.log@) =~= seq!["processing "@ + path@ + " ..."@]);
    }

    /// Starts the orientation, where it can be done and has not been done.
    pub fn kick_gong_orientation(&mut self) -> (started: bool)
        ensures
            match old(self).loaded {
                None => !started && *final(self) == *old(self),
                Some(l) => if !l.source_ser {
                    !started && said(
                        *old(self),
                        *final(self),
                        "GONG orientation requires the original SER so its UTC timestamp is available"@,
                    )
                } else if !l.disc {
                    !started && said(
                        *old(self),
                        *final(self),
                        "cannot orient: solar disk geometry was not detected"@,
                    )
                } else if old(self).orientation_running || l.oriented {
                    !started && *final(self) == *old(self)
                } else {
                    started && said(
                        Viewer { orientation_running: true, ..*old(self) },
                        *final(self),
                        "GONG orientation: finding the nearest calibrated H-alpha reference ..."@,
                    )
                },
            },
            started == orients(*old(self)),
            final(self).orientation_running == (old(self).orientation_running || started),
    {
        match self.loaded {
            None => false,
            Some(l) => {
                if !l.source_ser {
                    self.say(
                        "GONG orientation requires the original SER so its UTC timestamp is available",
                    );
                    return false;
                }
                if !l.disc {
                    self.say("cannot orient: solar disk geometry was not detected");
                    return false;
                }
                if self.orientation_running || l.oriented {
                    return false;
                }
                self.orientation_running = true;
                self.say(
                    "GONG orientation: finding the nearest calibrated H-alpha reference ...",
                );
                true
            },
        }
    }

    /// Whether a colour rendering is due.
    pub fn color_due(&self) -> (due: bool)
        ensures
            due == (self.screen.mode is Color && self.color.dirty && !self.busy()),
            due == wants_color(*self),
    {
        let colored: bool = match self.screen.mode {
            ViewMode::Color => true,
            _ => false,
        };
        colored && self.color.dirty && !self.running && !self.orientation_running
    }

    /// Starts a colour rendering, one at a time; gives its number.
    pub fn kick_colorize(&mut self) -> (seq: Option<u64>)
        requires
            old(self).color.seq < u64::MAX,
        ensures
            if (old(self).loaded matches Some(l) && l.disc) && !old(self).color.inflight {
                &&& seq == Some((old(self).color.seq + 1) as u64)
                &&& *final(self) == (Viewer {
                    color: ColorJob {
                        inflight: true,
                        dirty: false,
                        seq: (old(self).color.seq + 1) as u64,
                        ..old(self).color
                    },
                    ..*old(self)
                })
            } else {
                seq is None && *final(self) == *old(self)
            },
            (*final(self), seq) == coloring(*old(self)),
    {
        let disc: bool = match self.loaded {
            Some(l) => l.disc,
            None => false,
        };
        if !disc || self.color.inflight {
            return None;
        }
        self.color.inflight = true;
        self.color.dirty = false;
        self.color.seq = self.color.seq + 1;
        Some(self.color.seq)
    }

    // -- jobs --------------------------------------------------------------

    /// A line of a running job.
    pub fn job_log(&mut self, line: String)
        ensures
            texts(final(self).log@) == log_with(texts(old(self).log@), line@),
            *final(self) == (Viewer { log: final(self).log, ..*old(self) }),
    {
        let ghost before = self.log@;
        self.log.push(line);
        assert(texts(self.log@) =~= texts(before).push(line@));
        if self.log.len() > LOG_LIMIT {
            let ghost full = self.log@;
            let rest: Vec<String> = self.log.split_off(LOG_DROP);
            self.log = rest;
            assert(texts(self.log@) =~= texts(full).skip(LOG_DROP as int));
        }
    }

    /// The pipeline is done.
    pub fn job_done(&mut self, facts: LoadedFacts)
        ensures
            texts(final(self).log@) == texts(old(self).log@).push("done."@),
            *final(self) == shown(
                Viewer { running: false, log: final(self).log, ..*old(self) },
                facts,
            ),
    {
        self.running = false;
        self.say("done.");
        self.set_loaded(facts);
    }

    /// The pipeline failed.
    pub fn job_failed(&mut self, error: &str)
        ensures
            said(Viewer { running: false, ..*old(self) }, *final(self), "FAILED: "@ + error@),
    {
        self.running = false;
        let line = joined2("FAILED: ", error);
        self.say(line.as_str());
    }

    /// A colour rendering is there. It is kept only where none was asked for
    /// since; otherwise another is due.
    pub fn job_colorized(&mut self, seq: u64) -> (kept: bool)
        ensures
            kept == (seq == old(self).color.seq),
            *final(self) == (Viewer {
                color: ColorJob {
                    inflight: false,
                    cached: old(self).color.cached || kept,
                    dirty: old(self).color.dirty || !kept,
                    ..old(self).color
                },
                screen: Screen {
                    textured: old(self).screen.textured && !(kept && old(self).screen.mode is Color),
                    ..old(self).screen
                },
                ..*old(self)
            }),
            (*final(self), kept) == colored(*old(self), seq),
    {
        self.color.inflight = false;
        if seq == self.color.seq {
            self.color.cached = true;
            if let ViewMode::Color = self.screen.mode {
                self.screen.textured = false;
            }
            true
        } else {
            self.color.dirty = true;
            false
        }
    }

    /// The orientation was applied, from a reference so many seconds away.
    pub fn job_oriented(&mut self, facts: LoadedFacts, reference: &str, delta_seconds: i64)
        ensures
            ({
                let idle = Viewer { orientation_running: false, ..*old(self) };
                let v = image_changed(idle, LoadedFacts { oriented: true, ..facts });
                said(
                    Viewer {
                        loaded: if old(self).loaded is Some {
                            v.loaded
                        } else {
                            None
                        },
                        ..v
                    },
                    *final(self),
                    "orientation applied from "@ + reference@ + " ("@ + signed_decimal(
                        delta_seconds as int,
                    ) + " s from acquisition): solar north is up, east is left"@,
                )
            }),
    {
        self.orientation_running = false;
        if self.loaded.is_some() {
            self.loaded = Some(LoadedFacts { oriented: true, ..facts });
        }
        self.screen.textured = false;
        self.color.cached = false;
        self.color.dirty = true;
        self.screen.fit_requested = true;
        let mut line = joined3("orientation applied from ", reference, " (");
        line.append(signed_decimal_string(delta_seconds).as_str());
        line.append(" s from acquisition): solar north is up, east is left");
        self.say(line.as_str());
    }

    /// The orientation failed; the image stays as it is.
    pub fn job_orientation_failed(&mut self, error: &str)
        ensures
            said(
                Viewer { orientation_running: false, ..*old(self) },
                *final(self),
                "GONG orientation failed: "@ + error@,
            ),
    {
        self.orientation_running = false;
        let line = joined2("GONG orientation failed: ", error);
        self.say(line.as_str());
    }

    // -- screen ------------------------------------------------------------

    /// Changes the mode. The camera runs only while the focus is shown.
    pub fn switch_mode(&mut self, mode: ViewMode, cameras_known: bool) -> (action: ModeAction)
        ensures
            if mode == old(self).screen.mode {
                &&& *final(self) == *old(self)
                &&& action == (ModeAction { stop_camera: false, find_cameras: false })
            } else {
                &&& *final(self) == (Viewer {
                    screen: Screen { mode, textured: false, ..old(self).screen },
                    ..*old(self)
                })
                &&& action == (ModeAction {
                    stop_camera: old(self).screen.mode is Focus,
                    find_cameras: mode is Focus && !cameras_known,
                })
            },
            (*final(self), action) == switched(*old(self), mode, cameras_known),
    {
        if mode == self.screen.mode {
            return ModeAction { stop_camera: false, find_cameras: false };
        }
        let leaving: bool = match self.screen.mode {
            ViewMode::Focus => true,
            _ => false,
        };
        let entering: bool = match mode {
            ViewMode::Focus => true,
            _ => false,
        };
        self.screen.mode = mode;
        self.screen.textured = false;
        ModeAction { stop_camera: leaving, find_cameras: entering && !cameras_known }
    }

    /// Shows the image before or after the columns were corrected.
    pub fn compare_columns(&mut self, before: bool)
        ensures
            *final(self) == (Viewer {
                screen: Screen {
                    mode: ViewMode::Display,
                    textured: false,
                    show_before_demix: before,
                    ..old(self).screen
                },
                ..*old(self)
            }),
    {
        self.screen.show_before_demix = before;
        self.screen.mode = ViewMode::Display;
        self.screen.textured = false;
    }

    /// Whether there is a picture to be made a texture of.
    pub fn can_texture(&self) -> (r: bool)
        ensures
            r == (match self.loaded {
                None => false,
                Some(l) => match self.screen.mode {
                    ViewMode::Display => true,
                    ViewMode::Velocity => l.velocity,
                    ViewMode::Color => self.color.cached,
                    ViewMode::Focus => false,
                },
            }),
    {
        match self.loaded {
            None => false,
            Some(l) => match self.screen.mode {
                ViewMode::Display => true,
                ViewMode::Velocity => l.velocity,
                ViewMode::Color => self.color.cached,
                ViewMode::Focus => false,
            },
        }
    }

    /// The orientation can be started.
    pub fn can_orient(&self) -> (r: bool)
        ensures
            r == ((self.loaded matches Some(l) && l.source_ser) && !self.busy()),
            r == may_orient(*self),
    {
        let source: bool = match self.loaded {
            Some(l) => l.source_ser,
            None => false,
        };
        source && !self.running && !self.orientation_running
    }

    /// What is shown in place of a picture.
    pub fn placeholder(&self) -> (text: &'static str)
        ensures
            text@ == (if self.running {
                "reconstructing…"@
            } else if self.orientation_running {
                "matching solar features to GONG…"@
            } else if self.screen.mode is Color && self.loaded is Some {
                "rendering color…"@
            } else if self.selected_ser is Some {
                "Scan selected — review settings and click Process"@
            } else {
                "Open a .ser scan or .fits reconstruction"@
            }),
    {
        let colored: bool = match self.screen.mode {
            ViewMode::Color => true,
            _ => false,
        };
        if self.running {
            "reconstructing…"
        } else if self.orientation_running {
            "matching solar features to GONG…"
        } else if colored && self.loaded.is_some() {
            "rendering color…"
        } else if self.selected_ser.is_some() {
            "Scan selected — review settings and click Process"
        } else {
            "Open a .ser scan or .fits reconstruction"
        }
    }
}

/// The viewer after a colour rendering was to be started, and its number.
pub open spec fn coloring(v: Viewer) -> (Viewer, Option<u64>) {
    match v.loaded {
        Some(l) if l.disc && !v.color.inflight => {
            let seq = (v.color.seq + 1) as u64;
            (
                Viewer { color: ColorJob { inflight: true, dirty: false, seq, ..v.color }, ..v },
                Some(seq),
            )
        },
        _ => (v, None),
    }
}

/// The viewer after a colour rendering came back, and whether it is kept.
pub open spec fn colored(v: Viewer, seq: u64) -> (Viewer, bool) {
    if seq == v.color.seq {
        (
            Viewer {
                color: ColorJob { inflight: false, cached: true, ..v.color },
                screen: Screen {
                    textured: v.screen.textured && !(v.screen.mode is Color),
                    ..v.screen
                },
                ..v
            },
            true,
        )
    } else {
        (Viewer { color: ColorJob { inflight: false, dirty: true, ..v.color }, ..v }, false)
    }
}

/// The viewer after a change of the mode, and what follows for the camera.
pub open spec fn switched(v: Viewer, mode: ViewMode, cameras_known: bool) -> (Viewer, ModeAction) {
    if mode == v.screen.mode {
        (v, ModeAction { stop_camera: false, find_cameras: false })
    } else {
        (
            Viewer { screen: Screen { mode, textured: false, ..v.screen }, ..v },
            ModeAction {
                stop_camera: v.screen.mode is Focus,
                find_cameras: mode is Focus && !cameras_known,
            },
        )
    }
}

/// A colour rendering is due.
pub open spec fn wants_color(v: Viewer) -> bool {
    v.screen.mode is Color && v.color.dirty && !v.busy()
}

/// The orientation can be started by hand.
pub open spec fn may_orient(v: Viewer) -> bool {
    match v.loaded {
        Some(l) => l.source_ser && !v.busy(),
        None => false,
    }
}

/// The orientation is started.
pub open spec fn orients(v: Viewer) -> bool {
    match v.loaded {
        Some(l) => l.source_ser && l.disc && !v.orientation_running && !l.oriented,
        None => false,
    }
}

/// A rendering that was overtaken is never shown: it is dropped, and another is
/// due.
pub proof fn overtaken_colors_are_redone(before: Viewer, after: Viewer, seq: u64, kept: bool)
    requires
        seq != before.color.seq,
        kept == (seq == before.color.seq),
        after.color == (ColorJob {
            inflight: false,
            cached: before.color.cached || kept,
            dirty: before.color.dirty || !kept,
            ..before.color
        }),
    ensures
        after.color.dirty,
        after.color.cached == before.color.cached,
{
}

/// The log of jobs never grows beyond its limit.
pub proof fn job_log_is_bounded(log: Seq<Seq<char>>, line: Seq<char>)
    requires
        log.len() <= LOG_LIMIT,
    ensures
        log_with(log, line).len() <= LOG_LIMIT,
        log_with(log, line).last() == line,
{
}

// ---------------------------------------------------------------------------
// What the viewer promises
// ---------------------------------------------------------------------------

/// A rendering of an image with a disc that nothing overtakes is shown; one that another
/// was asked for since is dropped, and the colours are due again.
pub proof fn latest_colors_are_shown(v: Viewer, seq: u64)
    requires
        v.color.seq < u64::MAX,
    ensures
        ({
            let (begun, number) = coloring(v);
            let possible = v.loaded is Some && v.loaded->0.disc && !v.color.inflight;
            &&& (number is Some <==> possible)
            &&& (!possible ==> begun == v)
            &&& (number matches Some(n) ==> {
                let (after, kept) = colored(begun, n);
                &&& begun.color.inflight && !begun.color.dirty && n > v.color.seq
                &&& kept && after.color.cached && !after.color.inflight && !after.color.dirty
                &&& coloring(begun).1 is None
                &&& (v.screen.mode is Color ==> !after.screen.textured)
            })
        }),
        seq != v.color.seq ==> !colored(v, seq).1 && colored(v, seq).0.color.dirty
            && colored(v, seq).0.color.cached == v.color.cached
            && !colored(v, seq).0.color.inflight,
{
}

/// Colours are rendered only where they are looked at, only when something changed, and
/// never beside a job that changes the image.
pub proof fn colors_wait_for_their_turn(v: Viewer)
    ensures
        wants_color(v) <==> v.screen.mode == ViewMode::Color && v.color.dirty && !v.running
            && !v.orientation_running,
        v.busy() <==> v.running || v.orientation_running,
{
}

/// Another image is shown afresh: its colours are due, the old ones are gone, and it is
/// fitted to the screen. The mode stays.
pub proof fn new_images_are_shown_afresh(v: Viewer, facts: LoadedFacts)
    ensures
        ({
            let n = shown(v, facts);
            &&& n.loaded == Some(facts)
            &&& n.color.dirty && !n.color.cached && n.color.seq == v.color.seq && n.color.inflight
                == v.color.inflight
            &&& !n.screen.textured && n.screen.fit_requested && !n.screen.show_before_demix
            &&& n.screen.mode == v.screen.mode
            &&& n.running == v.running && n.selected_ser == v.selected_ser
        }),
        image_changed(v, facts).screen.show_before_demix == v.screen.show_before_demix,
{
}

/// The camera runs only while the focus is shown: leaving it stops the camera, and
/// entering it looks for one where none is known.
pub proof fn camera_runs_with_the_focus(v: Viewer, mode: ViewMode, cameras_known: bool)
    ensures
        ({
            let (after, action) = switched(v, mode, cameras_known);
            &&& after.screen.mode == mode
            &&& (action.stop_camera <==> v.screen.mode == ViewMode::Focus && mode
                != ViewMode::Focus)
            &&& (action.find_cameras <==> mode == ViewMode::Focus && v.screen.mode
                != ViewMode::Focus && !cameras_known)
            &&& (mode != v.screen.mode ==> !after.screen.textured)
            &&& (mode == v.screen.mode ==> after == v)
            &&& after.loaded == v.loaded && after.color == v.color
        }),
{
}

/// North is turned up once: only of an image whose scan and disc are known, and not while
/// it is being done.
pub proof fn images_are_oriented_once(v: Viewer)
    ensures
        orients(v) <==> v.loaded is Some && v.loaded->0.source_ser && v.loaded->0.disc
            && !v.loaded->0.oriented && !v.orientation_running,
        may_orient(v) ==> v.loaded is Some && v.loaded->0.source_ser && !v.running
            && !v.orientation_running,
{
}

/// A short log keeps all its lines; one that grows too long loses a hundred at its
/// beginning and none at its end.
pub proof fn long_logs_lose_their_beginning(log: Seq<Seq<char>>, line: Seq<char>)
    ensures
        log.len() < 400 ==> log_with(log, line) == log.push(line),
        log.len() >= 400 ==> log_with(log, line) =~= log.push(line).skip(100),
{
}

} // verus!
