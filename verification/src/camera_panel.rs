//! The camera as the panels see it: which one is selected, what it is set to,
//! what it records, and the messages of its worker.

use crate::focus::DispAxis;
use crate::text::{decimal, decimal_string, joined2, joined3, same_text};
use vstd::prelude::*;
use vstd::string::StringExecFns;

verus! {

/// A camera that was found.
pub struct CameraEntry {
    /// Number of the driver.
    pub backend: usize,
    /// Not a real camera.
    pub synthetic: bool,
    pub id: String,
    pub name: String,
    pub exposure_min: u32,
    pub exposure_max: u32,
    pub gain_min: u16,
    pub gain_max: u16,
    pub max_height: usize,
}

#[derive(Clone, Copy, Debug, PartialEq, Eq, Structural)]
pub struct CameraSettings {
    pub streaming: bool,
    pub exposure_us: u32,
    pub gain: u16,
    pub auto_exposure: bool,
    pub dispersion: DispAxis,
}

/// What a search for the Sun has to put back.
#[derive(Clone, Copy, Debug, PartialEq, Eq, Structural)]
pub struct SearchCameraRestore {
    pub was_streaming: bool,
    pub exposure_us: u32,
    pub auto_exposure: bool,
}

pub struct RecordingState {
    pub active: bool,
    pub frames: usize,
    pub path: Option<String>,
    pub status: String,
}

pub struct LiveRoiState {
    pub active: bool,
    pub status: String,
}

/// Something for the worker or its thread.
#[derive(Clone, Copy, Debug, PartialEq, Eq, Structural)]
pub enum CameraRequest {
    /// Start the worker on the selected camera.
    Open,
    /// End the worker and wait for it.
    Close,
    Exposure(u32),
    Gain(u16),
    AutoExposure(bool),
    /// The dispersion runs horizontally.
    Dispersion(bool),
    StartSer { capture_height: usize, anchor: Option<usize>, hw_roi: bool },
    StopSer,
    LiveRoi { capture_height: usize, anchor: Option<usize>, enable: bool },
}

/// The camera side of the panels.
pub struct CameraPanel {
    pub cameras: Vec<CameraEntry>,
    pub selected: usize,
    /// The user has picked a camera.
    pub chosen_by_user: bool,
    pub settings: CameraSettings,
    pub recording: RecordingState,
    pub live_roi: LiveRoiState,
    pub status: String,
    pub frame_seq: u64,
    pub outbox: Vec<CameraRequest>,
}

/// A change of a recording that the worker reports.
pub enum RecordingEvent {
    Started { path: String, width: usize, height: usize, hw_roi: bool },
    Progress(usize),
    /// The rate is told where it is known.
    Stopped { path: String, frames: usize, fps: Option<String>, hw_roi: bool, device_clock: bool },
    Failed(String),
}

/// A message of the worker.
pub enum CameraMessage {
    Opened(CameraEntry),
    Frame,
    Recording(RecordingEvent),
    Note(String),
    LiveRoi { active: bool, y0: usize, h: usize },
    Error(String),
}

/// What the messages of one round have left to do.
pub struct Round {
    pub event: Option<RecordingEvent>,
    pub error: Option<String>,
}

pub open spec fn first_hardware(cameras: Seq<CameraEntry>, from: int) -> Option<int>
    decreases cameras.len() - from,
{
    if from < 0 || from >= cameras.len() {
        None
    } else if !cameras[from].synthetic {
        Some(from)
    } else {
        first_hardware(cameras, from + 1)
    }
}

pub open spec fn hardware_count(cameras: Seq<CameraEntry>) -> nat
    decreases cameras.len(),
{
    if cameras.len() == 0 {
        0
    } else {
        hardware_count(cameras.drop_last()) + if cameras.last().synthetic {
            0nat
        } else {
            1nat
        }
    }
}

fn find_hardware(cameras: &Vec<CameraEntry>) -> (place: Option<usize>)
    ensures
        match place {
            Some(i) => first_hardware(cameras@, 0) == Some(i as int) && i < cameras@.len()
                && !cameras@[i as int].synthetic,
            None => first_hardware(cameras@, 0) is None,
        },
{
    let mut i: usize = 0;
    while i < cameras.len()
        invariant
            i <= cameras@.len(),
            first_hardware(cameras@, 0) == first_hardware(cameras@, i as int),
        decreases cameras@.len() - i,
    {
        if !cameras[i].synthetic {
            return Some(i);
        }
        i = i + 1;
    }
    None
}

/// What a look for cameras found beside the list: the driver's own count, or
/// why it could not tell.
pub enum Probe {
    Count(usize),
    Failed(String),
}

pub open spec fn scan_text(hardware: nat, probe: Probe) -> Seq<char> {
    if hardware > 0 {
        decimal(hardware) + " hardware camera(s) found"@
    } else {
        match probe {
            Probe::Count(n) => if n == 0 {
                "No hardware camera detected (ToupTek SDK loaded)"@
            } else {
                "ToupTek reports "@ + decimal(n as nat)
                    + " camera(s), but enumeration returned none; reconnect and refresh"@
            },
            Probe::Failed(e) => "No hardware camera; "@ + e@,
        }
    }
}

/// Rows that the controls of the capture band are bounded by.
pub open spec fn band_limit(
    sensor: Option<usize>,
    frame: Option<usize>,
    roi_active: bool,
) -> Option<usize> {
    let advertised = match sensor {
        Some(h) => if h >= 32 {
            Some(h)
        } else {
            None
        },
        None => None,
    };
    if roi_active {
        if advertised is Some {
            advertised
        } else {
            frame
        }
    } else if frame is Some {
        frame
    } else {
        advertised
    }
}

/// The camera was started for the panel, unless it runs or there is none.
pub open spec fn started(before: CameraPanel, after: CameraPanel) -> bool {
    if before.settings.streaming || before.cameras@.len() == 0 {
        after == before
    } else {
        &&& after.outbox@ == before.outbox@.push(CameraRequest::Open)
        &&& after.status@ == "streaming…"@
        &&& after == CameraPanel {
            settings: CameraSettings { streaming: true, ..before.settings },
            status: after.status,
            outbox: after.outbox,
            ..before
        }
    }
}

/// The camera was stopped: nothing of a live band or a recording is left.
pub open spec fn stopped(before: CameraPanel, after: CameraPanel) -> bool {
    &&& after.status@ == "stopped"@
    &&& !after.live_roi.active && after.live_roi.status@ == "full sensor"@
    &&& after.outbox@ == before.outbox@.push(CameraRequest::Close)
    &&& after.recording.status@ == (if before.recording.active {
        "recording stopped with camera ("@ + decimal(before.recording.frames as nat) + " frames)"@
    } else {
        before.recording.status@
    })
    &&& after == CameraPanel {
        settings: CameraSettings { streaming: false, ..before.settings },
        recording: RecordingState {
            active: false,
            status: after.recording.status,
            ..before.recording
        },
        live_roi: after.live_roi,
        status: after.status,
        outbox: after.outbox,
        ..before
    }
}

/// The requests with one more, which only a running worker gets.
pub open spec fn asked(streaming: bool, outbox: Seq<CameraRequest>, request: CameraRequest) -> Seq<
    CameraRequest,
> {
    if streaming {
        outbox.push(request)
    } else {
        outbox
    }
}

impl CameraPanel {
    pub open spec fn valid(&self) -> bool {
        self.cameras@.len() > 0 ==> self.selected < self.cameras@.len()
    }

    pub fn new() -> (p: CameraPanel)
        ensures
            p.valid(),
            p.cameras@.len() == 0 && p.selected == 0 && !p.chosen_by_user,
            p.settings == (CameraSettings {
                streaming: false,
                exposure_us: 10_000,
                gain: 200,
                auto_exposure: false,
                dispersion: DispAxis::Vertical,
            }),
            !p.recording.active && p.recording.frames == 0 && p.recording.path is None,
            p.recording.status@ == "not recording"@,
            !p.live_roi.active && p.live_roi.status@ == "full sensor"@,
            p.status@.len() == 0 && p.frame_seq == 0 && p.outbox@.len() == 0,
    {
        CameraPanel {
            cameras: Vec::new(),
            selected: 0,
            chosen_by_user: false,
            settings: CameraSettings {
                streaming: false,
                exposure_us: 10_000,
                gain: 200,
                auto_exposure: false,
                dispersion: DispAxis::Vertical,
            },
            recording: RecordingState {
                active: false,
                frames: 0,
                path: None,
                status: "not recording".to_owned(),
            },
            live_roi: LiveRoiState { active: false, status: "full sensor".to_owned() },
            status: String::new(),
            frame_seq: 0,
            outbox: Vec::new(),
        }
    }

    /// Takes a new list of cameras. Real ones are preferred until the user has
    /// picked one.
    pub fn refresh_cameras(&mut self, cameras: Vec<CameraEntry>, probe: Probe)
        ensures
            final(self).valid(),
            final(self).selected == (match first_hardware(cameras@, 0) {
                Some(i) if !old(self).chosen_by_user => i,
                _ => if old(self).selected >= cameras@.len() {
                    0
                } else {
                    old(self).selected as int
                },
            }),
            final(self).status@ == scan_text(hardware_count(cameras@), probe),
            *final(self) == (CameraPanel {
                cameras,
                selected: final(self).selected,
                status: final(self).status,
                ..*old(self)
            }),
    {
        if self.selected >= cameras.len() {
            self.selected = 0;
        }
        if !self.chosen_by_user {
            if let Some(i) = find_hardware(&cameras) {
                self.selected = i;
            }
        }
        let mut hardware: usize = 0;
        let mut i: usize = 0;
        assert(cameras@.take(0) =~= Seq::<CameraEntry>::empty());
        while i < cameras.len()
            invariant
                i <= cameras@.len(),
                hardware <= i,
                hardware == hardware_count(cameras@.take(i as int)),
            decreases cameras@.len() - i,
        {
            assert(cameras@.take(i + 1).drop_last() =~= cameras@.take(i as int));
            if !cameras[i].synthetic {
                hardware = hardware + 1;
            }
            i = i + 1;
        }
        assert(cameras@.take(cameras@.len() as int) =~= cameras@);
        self.status = if hardware > 0 {
            joined2(decimal_string(hardware as u64).as_str(), " hardware camera(s) found")
        } else {
            match probe {
                Probe::Count(n) => if n == 0 {
                    "No hardware camera detected (ToupTek SDK loaded)".to_owned()
                } else {
                    joined3(
                        "ToupTek reports ",
                        decimal_string(n as u64).as_str(),
                        " camera(s), but enumeration returned none; reconnect and refresh",
                    )
                },
                Probe::Failed(e) => joined2("No hardware camera; ", e.as_str()),
            }
        };
        self.cameras = cameras;
    }

    /// The user picks a camera.
    pub fn pick(&mut self, index: usize)
        requires
            index < old(self).cameras@.len(),
        ensures
            final(self).valid(),
            *final(self) == (CameraPanel { selected: index, chosen_by_user: true, ..*old(self) }),
    {
        self.selected = index;
        self.chosen_by_user = true;
    }

    /// Starts the camera, where one is there and does not run.
    pub fn start(&mut self)
        requires
            old(self).valid(),
        ensures
            final(self).valid(),
            started(*old(self), *final(self)),
    {
        if self.settings.streaming || self.cameras.len() == 0 {
            return;
        }
        self.outbox.push(CameraRequest::Open);
        self.settings.streaming = true;
        self.status = "streaming…".to_owned();
    }

    /// Stops the camera.
    pub fn stop(&mut self)
        requires
            old(self).valid(),
        ensures
            final(self).valid(),
            stopped(*old(self), *final(self)),
    {
        self.live_roi = LiveRoiState { active: false, status: "full sensor".to_owned() };
        self.outbox.push(CameraRequest::Close);
        self.settings.streaming = false;
        if self.recording.active {
            self.recording.active = false;
            self.recording.status = joined3(
                "recording stopped with camera (",
                decimal_string(self.recording.frames as u64).as_str(),
                " frames)",
            );
        }
        self.status = "stopped".to_owned();
    }

    fn ask(&mut self, request: CameraRequest)
        ensures
            final(self).outbox@ == asked(
                old(self).settings.streaming,
                old(self).outbox@,
                request,
            ),
            *final(self) == (CameraPanel { outbox: final(self).outbox, ..*old(self) }),
    {
        if self.settings.streaming {
            self.outbox.push(request);
        }
    }

    /// Sets the exposure by hand.
    pub fn set_exposure(&mut self, exposure_us: u32)
        requires
            old(self).valid(),
        ensures
            final(self).valid(),
            final(self).outbox@ == asked(
                old(self).settings.streaming,
                old(self).outbox@,
                CameraRequest::Exposure(exposure_us),
            ),
            *final(self) == (CameraPanel {
                settings: CameraSettings { exposure_us, ..old(self).settings },
                outbox: final(self).outbox,
                ..*old(self)
            }),
    {
        self.settings.exposure_us = exposure_us;
        self.ask(CameraRequest::Exposure(exposure_us));
    }

    /// Sets the gain by hand.
    pub fn set_gain(&mut self, gain: u16)
        requires
            old(self).valid(),
        ensures
            final(self).valid(),
            final(self).outbox@ == asked(
                old(self).settings.streaming,
                old(self).outbox@,
                CameraRequest::Gain(gain),
            ),
            *final(self) == (CameraPanel {
                settings: CameraSettings { gain, ..old(self).settings },
                outbox: final(self).outbox,
                ..*old(self)
            }),
    {
        self.settings.gain = gain;
        self.ask(CameraRequest::Gain(gain));
    }

    /// Leaves the exposure to the camera, or takes it back.
    pub fn set_auto_exposure(&mut self, on: bool)
        requires
            old(self).valid(),
        ensures
            final(self).valid(),
            final(self).outbox@ == asked(
                old(self).settings.streaming,
                old(self).outbox@,
                CameraRequest::AutoExposure(on),
            ),
            *final(self) == (CameraPanel {
                settings: CameraSettings { auto_exposure: on, ..old(self).settings },
                outbox: final(self).outbox,
                ..*old(self)
            }),
    {
        self.settings.auto_exposure = on;
        self.ask(CameraRequest::AutoExposure(on));
    }

    /// Says which way the dispersion runs.
    pub fn set_dispersion(&mut self, axis: DispAxis)
        requires
            old(self).valid(),
        ensures
            final(self).valid(),
            final(self).outbox@ == asked(
                old(self).settings.streaming,
                old(self).outbox@,
                CameraRequest::Dispersion(axis is Horizontal),
            ),
            *final(self) == (CameraPanel {
                settings: CameraSettings { dispersion: axis, ..old(self).settings },
                outbox: final(self).outbox,
                ..*old(self)
            }),
    {
        self.settings.dispersion = axis;
        let horizontal: bool = match axis {
            DispAxis::Horizontal => true,
            DispAxis::Vertical => false,
        };
        self.ask(CameraRequest::Dispersion(horizontal));
    }

    // -- messages ----------------------------------------------------------

    /// Takes one message of the worker. Tells whether to go on with the next:
    /// an error ends the round.
    pub fn receive(&mut self, message: CameraMessage, round: &mut Round) -> (more: bool)
        requires
            old(self).valid(),
            message matches CameraMessage::LiveRoi { y0, h, .. } ==> y0 + h <= usize::MAX,
        ensures
            final(self).valid(),
            more == !(message is Error),
            match message {
                CameraMessage::Opened(info) => {
                    &&& *final(round) == *old(round)
                    &&& adopted(old(self).cameras@, final(self).cameras@, info)
                    &&& *final(self) == (CameraPanel {
                        cameras: final(self).cameras,
                        ..*old(self)
                    })
                },
                CameraMessage::Frame => *final(round) == *old(round) && *final(self) == *old(self),
                CameraMessage::Recording(event) => *final(self) == *old(self) && *final(round) == (
                Round { event: Some(event), ..*old(round) }),
                CameraMessage::Note(note) => *final(round) == *old(round) && *final(self) == (
                CameraPanel { status: note, ..*old(self) }),
                CameraMessage::LiveRoi { active, y0, h } => {
                    &&& *final(round) == *old(round)
                    &&& final(self).live_roi.active == active
                    &&& final(self).live_roi.status@ == roi_text(active, y0 as nat, h as nat)
                    &&& *final(self) == (CameraPanel {
                        live_roi: final(self).live_roi,
                        ..*old(self)
                    })
                },
                CameraMessage::Error(error) => *final(self) == *old(self) && *final(round) == (
                Round { error: Some(error), ..*old(round) }),
            },
    {
        match message {
            CameraMessage::Opened(info) => {
                adopt_camera(&mut self.cameras, info);
                true
            },
            CameraMessage::Frame => true,
            CameraMessage::Recording(event) => {
                round.event = Some(event);
                true
            },
            CameraMessage::Note(note) => {
                self.status = note;
                true
            },
            CameraMessage::LiveRoi { active, y0, h } => {
                let status: String = if active {
                    let mut t = joined3(
                        "hardware ROI live · rows ",
                        decimal_string(y0 as u64).as_str(),
                        "–",
                    );
                    t.append(decimal_sum(y0 as u64, h as u64).as_str());
                    t.append(" (");
                    t.append(decimal_string(h as u64).as_str());
                    t.append(" px)");
                    t
                } else {
                    "full sensor".to_owned()
                };
                self.live_roi = LiveRoiState { active, status };
                true
            },
            CameraMessage::Error(error) => {
                round.error = Some(error);
                false
            },
        }
    }

    /// Ends a round of messages: the last change of the recording counts, and
    /// an error stops the camera.
    pub fn settle(&mut self, round: Round) -> (running: bool)
        requires
            old(self).valid(),
        ensures
            final(self).valid(),
            running == (round.error is None),
            exists|mid: CameraPanel|
                {
                    &&& #[trigger] recording_told(*old(self), mid, round.event)
                    &&& match round.error {
                        None => *final(self) == mid,
                        Some(_) => stopped(
                            CameraPanel {
                                recording: RecordingState { active: false, ..mid.recording },
                                ..mid
                            },
                            *final(self),
                        ),
                    }
                },
    {
        if let Some(event) = round.event {
            self.tell(event);
        }
        assert(recording_told(*old(self), *self, round.event));
        match round.error {
            None => true,
            Some(_) => {
                self.recording.active = false;
                self.stop();
                false
            },
        }
    }

    fn tell(&mut self, event: RecordingEvent)
        requires
            old(self).valid(),
        ensures
            final(self).valid(),
            recording_told(*old(self), *final(self), Some(event)),
    {
        match event {
            RecordingEvent::Started { path, width, height, hw_roi } => {
                let mut t = joined3("recording ", decimal_string(width as u64).as_str(), "×");
                t.append(decimal_string(height as u64).as_str());
                t.append(" mono16");
                t.append(if hw_roi {
                    " · hardware ROI"
                } else {
                    ""
                });
                self.recording.active = true;
                self.recording.path = Some(path);
                self.recording.status = t;
            },
            RecordingEvent::Progress(frames) => {
                self.recording.frames = frames;
                self.recording.status = joined3(
                    "recording · ",
                    decimal_string(frames as u64).as_str(),
                    " frames",
                );
            },
            RecordingEvent::Stopped { path, frames, fps, hw_roi, device_clock } => {
                let mut t = joined3("saved ", decimal_string(frames as u64).as_str(), " frames");
                let rate: String = match fps {
                    Some(rate) => joined3(" · ", rate.as_str(), " fps"),
                    None => "".to_owned(),
                };
                t.append(rate.as_str());
                t.append(if hw_roi {
                    " · hardware ROI"
                } else {
                    ""
                });
                t.append(if device_clock {
                    " · camera clock"
                } else {
                    " · host clock"
                });
                self.recording.active = false;
                self.recording.frames = frames;
                self.recording.path = Some(path);
                self.recording.status = t;
            },
            RecordingEvent::Failed(error) => {
                self.recording.active = false;
                self.recording.status = joined2("SER recording failed: ", error.as_str());
            },
        }
    }

    /// Takes a frame in. Under automatic exposure the settings follow the
    /// camera.
    pub fn adopt_frame(&mut self, exposure_us: Option<u32>, gain: Option<u16>)
        requires
            old(self).valid(),
        ensures
            final(self).valid(),
            *final(self) == (CameraPanel {
                settings: CameraSettings {
                    exposure_us: match exposure_us {
                        Some(e) if old(self).settings.auto_exposure => e,
                        _ => old(self).settings.exposure_us,
                    },
                    gain: match gain {
                        Some(g) if old(self).settings.auto_exposure => g,
                        _ => old(self).settings.gain,
                    },
                    ..old(self).settings
                },
                frame_seq: if old(self).frame_seq == u64::MAX {
                    0
                } else {
                    (old(self).frame_seq + 1) as u64
                },
                ..*old(self)
            }),
    {
        if self.settings.auto_exposure {
            if let Some(e) = exposure_us {
                self.settings.exposure_us = e;
            }
            if let Some(g) = gain {
                self.settings.gain = g;
            }
        }
        self.frame_seq = self.frame_seq.wrapping_add(1);
    }

    // -- search for the Sun ------------------------------------------------

    /// The camera that a search would use.
    pub open spec fn search_camera(&self) -> Option<int> {
        if self.cameras@.len() > 0 && !self.cameras@[self.selected as int].synthetic {
            Some(self.selected as int)
        } else {
            first_hardware(self.cameras@, 0)
        }
    }

    /// Sets the camera up for a search: a real camera, running, with a fixed
    /// exposure as close to the wish as it allows. `milliseconds` is that
    /// exposure in words. Gives what has to be put back.
    pub fn prepare_sun_search(&mut self, requested_us: u32, milliseconds: &str) -> (r: Result<
        SearchCameraRestore,
        String,
    >)
        requires
            old(self).valid(),
            forall|i: int|
                0 <= i < old(self).cameras@.len() ==> (#[trigger] old(self).cameras@[i]).exposure_min <= old(self).cameras@[i].exposure_max,
        ensures
            final(self).valid(),
            match old(self).search_camera() {
                None => r is Err && r->Err_0@
                    == "no hardware camera is available for Sun centering"@ && *final(self) == *old(self),
                Some(i) => {
                    &&& r == Ok::<SearchCameraRestore, String>(
                        SearchCameraRestore {
                            was_streaming: old(self).settings.streaming,
                            exposure_us: old(self).settings.exposure_us,
                            auto_exposure: old(self).settings.auto_exposure,
                        },
                    )
                    &&& search_prepared(*old(self), *final(self), i, requested_us, milliseconds@)
                },
            },
    {
        let usable: bool = self.cameras.len() > 0 && !self.cameras[self.selected].synthetic;
        let place: Option<usize> = if usable {
            Some(self.selected)
        } else {
            find_hardware(&self.cameras)
        };
        let index: usize = match place {
            None => {
                return Err("no hardware camera is available for Sun centering".to_owned());
            },
            Some(i) => i,
        };
        self.selected = index;
        let low: u32 = self.cameras[index].exposure_min;
        let high: u32 = self.cameras[index].exposure_max;
        let target: u32 = if requested_us < low {
            low
        } else if requested_us > high {
            high
        } else {
            requested_us
        };
        let restore = SearchCameraRestore {
            was_streaming: self.settings.streaming,
            exposure_us: self.settings.exposure_us,
            auto_exposure: self.settings.auto_exposure,
        };
        if !self.settings.streaming {
            self.start();
        }
        self.settings.auto_exposure = false;
        self.settings.exposure_us = target;
        self.ask(CameraRequest::AutoExposure(false));
        self.ask(CameraRequest::Exposure(target));
        let mut t = joined3("Sun search: ", self.cameras[index].name.as_str(), " at ");
        t.append(milliseconds);
        t.append(" ms");
        self.status = t;
        Ok(restore)
    }

    /// Puts the camera back as it was before a search.
    pub fn restore_after_sun_search(&mut self, restore: SearchCameraRestore)
        requires
            old(self).valid(),
        ensures
            final(self).valid(),
            search_restored(*old(self), *final(self), restore),
    {
        self.settings.exposure_us = restore.exposure_us;
        self.settings.auto_exposure = restore.auto_exposure;
        self.ask(CameraRequest::Exposure(restore.exposure_us));
        self.ask(CameraRequest::AutoExposure(restore.auto_exposure));
        let ghost mid = *self;
        assert(settings_restored(*old(self), mid, restore));
        if !restore.was_streaming {
            self.stop();
        } else {
            self.status = "Sun search complete; camera settings restored".to_owned();
        }
    }

    // -- capture band ------------------------------------------------------

    /// Rows that the controls of the capture band are bounded by. While the
    /// sensor reads a band, its frames say nothing of its height.
    pub fn known_frame_height(&self, frame: Option<usize>) -> (rows: Option<usize>)
        requires
            self.valid(),
        ensures
            rows == band_limit(
                if self.cameras@.len() > 0 {
                    Some(self.cameras@[self.selected as int].max_height)
                } else {
                    None
                },
                frame,
                self.live_roi.active,
            ),
    {
        let advertised: Option<usize> = if self.cameras.len() > 0 {
            let h: usize = self.cameras[self.selected].max_height;
            if h >= 32 {
                Some(h)
            } else {
                None
            }
        } else {
            None
        };
        if self.live_roi.active {
            if advertised.is_some() {
                advertised
            } else {
                frame
            }
        } else if frame.is_some() {
            frame
        } else {
            advertised
        }
    }

    /// Applies or releases a band outside a recording. `anchor` is the row of
    /// the line, where one is selected; `ended` says that the worker of the
    /// stream has ended by itself.
    pub fn set_live_roi(
        &mut self,
        capture_height: usize,
        anchor: Option<usize>,
        enable: bool,
        ended: bool,
    ) -> (r: Result<(), String>)
        requires
            old(self).valid(),
        ensures
            final(self).valid(),
            roi_asked(*old(self), *final(self), capture_height, anchor, enable, ended, r),
    {
        if self.recording.active {
            return Err("stop the recording before changing the sensor ROI".to_owned());
        }
        if enable && anchor.is_none() {
            return Err("select a valid spectral-line anchor".to_owned());
        }
        if self.settings.streaming && ended {
            return Err("camera worker is not running".to_owned());
        }
        if enable && !self.settings.streaming {
            self.start();
        }
        let ghost mid = *self;
        assert(started_if(enable, *old(self), mid));
        if !self.settings.streaming {
            return Err("start a camera before applying the ROI".to_owned());
        }
        let rows: usize = if capture_height < 2 {
            2
        } else {
            capture_height
        };
        self.outbox.push(CameraRequest::LiveRoi { capture_height: rows, anchor, enable });
        self.live_roi.status = if enable {
            "applying hardware ROI…".to_owned()
        } else {
            "restoring the full sensor…".to_owned()
        };
        Ok(())
    }

    /// Starts a recording around a line. `ended` says that the worker of the
    /// stream has ended by itself.
    pub fn start_ser_recording(
        &mut self,
        path: String,
        capture_height: usize,
        anchor: Option<usize>,
        hw_roi: bool,
        ended: bool,
    ) -> (r: Result<(), String>)
        requires
            old(self).valid(),
        ensures
            final(self).valid(),
            ser_asked(*old(self), *final(self), path, capture_height, anchor, hw_roi, ended, r),
    {
        if self.recording.active {
            return Err("a SER recording is already active".to_owned());
        }
        if anchor.is_none() {
            return Err("select a valid spectral-line anchor".to_owned());
        }
        if self.settings.streaming && ended {
            return Err("camera worker is not running".to_owned());
        }
        if !self.settings.streaming {
            self.start();
        }
        let ghost mid = *self;
        assert(started_if(true, *old(self), mid));
        if !self.settings.streaming {
            return Err("start a camera before recording".to_owned());
        }
        let rows: usize = if capture_height < 1 {
            1
        } else {
            capture_height
        };
        self.outbox.push(CameraRequest::StartSer { capture_height: rows, anchor, hw_roi });
        self.recording = RecordingState {
            active: true,
            frames: 0,
            path: Some(path),
            status: "starting SER recording...".to_owned(),
        };
        Ok(())
    }

    /// Stops a recording, where one runs.
    pub fn stop_ser_recording(&mut self)
        requires
            old(self).valid(),
        ensures
            final(self).valid(),
            if old(self).recording.active {
                &&& final(self).recording.status@ == "stopping SER recording..."@
                &&& final(self).outbox@ == asked(
                    old(self).settings.streaming,
                    old(self).outbox@,
                    CameraRequest::StopSer,
                )
                &&& *final(self) == (CameraPanel {
                    recording: RecordingState {
                        status: final(self).recording.status,
                        ..old(self).recording
                    },
                    outbox: final(self).outbox,
                    ..*old(self)
                })
            } else {
                *final(self) == *old(self)
            },
    {
        if !self.recording.active {
            return;
        }
        self.recording.status = "stopping SER recording...".to_owned();
        self.ask(CameraRequest::StopSer);
    }
}

/// The same camera, by its driver and its name there.
pub open spec fn same_camera(a: CameraEntry, b: CameraEntry) -> bool {
    a.backend == b.backend && a.id@ == b.id@
}

/// The list with what the opened camera says of itself.
pub open spec fn adopted(before: Seq<CameraEntry>, after: Seq<CameraEntry>, info: CameraEntry) -> bool {
    if exists|k: int| 0 <= k < before.len() && same_camera(#[trigger] before[k], info) {
        exists|k: int|
            {
                &&& 0 <= k < before.len() && same_camera(#[trigger] before[k], info)
                &&& forall|j: int| 0 <= j < k ==> !same_camera(#[trigger] before[j], info)
                &&& after == before.update(k, info)
            }
    } else {
        after == before
    }
}

pub open spec fn roi_text(active: bool, y0: nat, h: nat) -> Seq<char> {
    if active {
        "hardware ROI live · rows "@ + decimal(y0) + "–"@ + decimal(y0 + h) + " ("@ + decimal(h)
            + " px)"@
    } else {
        "full sensor"@
    }
}

fn adopt_camera(cameras: &mut Vec<CameraEntry>, info: CameraEntry)
    ensures
        adopted(old(cameras)@, final(cameras)@, info),
        final(cameras)@.len() == old(cameras)@.len(),
{
    let mut i: usize = 0;
    while i < cameras.len()
        invariant
            i <= cameras@.len(),
            *cameras == *old(cameras),
            forall|k: int| 0 <= k < i ==> !same_camera(#[trigger] cameras@[k], info),
        decreases cameras@.len() - i,
    {
        if cameras[i].backend == info.backend && same_text(
            cameras[i].id.as_str(),
            info.id.as_str(),
        ) {
            assert(same_camera(old(cameras)@[i as int], info));
            cameras.set(i, info);
            return;
        }
        i = i + 1;
    }
}

fn decimal_sum(a: u64, b: u64) -> (text: String)
    requires
        a + b <= u64::MAX,
    ensures
        text@ == decimal((a + b) as nat),
{
    decimal_string(a + b)
}

pub open spec fn roi_mark(hw_roi: bool) -> Seq<char> {
    if hw_roi {
        " · hardware ROI"@
    } else {
        ""@
    }
}

/// The panel after it was told of a recording.
pub open spec fn recording_told(
    before: CameraPanel,
    after: CameraPanel,
    event: Option<RecordingEvent>,
) -> bool {
    let a = before.recording;
    let b = after.recording;
    &&& after == CameraPanel { recording: b, ..before }
    &&& match event {
        None => b == a,
        Some(RecordingEvent::Started { path, width, height, hw_roi }) => {
            &&& b.status@ == "recording "@ + decimal(width as nat) + "×"@ + decimal(height as nat)
                + " mono16"@ + roi_mark(hw_roi)
            &&& b == RecordingState { active: true, path: Some(path), status: b.status, ..a }
        },
        Some(RecordingEvent::Progress(frames)) => {
            &&& b.status@ == "recording · "@ + decimal(frames as nat) + " frames"@
            &&& b == RecordingState { frames, status: b.status, ..a }
        },
        Some(RecordingEvent::Stopped { path, frames, fps, hw_roi, device_clock }) => {
            &&& b.status@ == "saved "@ + decimal(frames as nat) + " frames"@ + (match fps {
                Some(rate) => " · "@ + rate@ + " fps"@,
                None => ""@,
            }) + roi_mark(hw_roi) + (if device_clock {
                " · camera clock"@
            } else {
                " · host clock"@
            })
            &&& b == RecordingState { active: false, frames, path: Some(path), status: b.status }
        },
        Some(RecordingEvent::Failed(error)) => {
            &&& b.status@ == "SER recording failed: "@ + error@
            &&& b == RecordingState { active: false, status: b.status, ..a }
        },
    }
}

/// The exposure that a search uses.
pub open spec fn search_exposure(camera: CameraEntry, requested: u32) -> u32 {
    if requested < camera.exposure_min {
        camera.exposure_min
    } else if requested > camera.exposure_max {
        camera.exposure_max
    } else {
        requested
    }
}

/// The panel during a search on camera `i`.
pub open spec fn search_prepared(
    before: CameraPanel,
    after: CameraPanel,
    i: int,
    requested: u32,
    milliseconds: Seq<char>,
) -> bool {
    let target = search_exposure(before.cameras@[i], requested);
    let opened = if before.settings.streaming {
        before.outbox@
    } else {
        before.outbox@.push(CameraRequest::Open)
    };
    &&& after.outbox@ == opened.push(CameraRequest::AutoExposure(false)).push(
        CameraRequest::Exposure(target),
    )
    &&& after.status@ == "Sun search: "@ + before.cameras@[i].name@ + " at "@ + milliseconds
        + " ms"@
    &&& after == CameraPanel {
        selected: i as usize,
        settings: CameraSettings {
            streaming: true,
            exposure_us: target,
            auto_exposure: false,
            ..before.settings
        },
        status: after.status,
        outbox: after.outbox,
        ..before
    }
}

/// The settings are as they were before a search.
pub open spec fn settings_restored(
    before: CameraPanel,
    after: CameraPanel,
    restore: SearchCameraRestore,
) -> bool {
    &&& after.outbox@ == asked(
        before.settings.streaming,
        asked(
            before.settings.streaming,
            before.outbox@,
            CameraRequest::Exposure(restore.exposure_us),
        ),
        CameraRequest::AutoExposure(restore.auto_exposure),
    )
    &&& after == CameraPanel {
        settings: CameraSettings {
            exposure_us: restore.exposure_us,
            auto_exposure: restore.auto_exposure,
            ..before.settings
        },
        outbox: after.outbox,
        ..before
    }
}

/// The panel after a search: a camera that was started for it is stopped.
pub open spec fn search_restored(
    before: CameraPanel,
    after: CameraPanel,
    restore: SearchCameraRestore,
) -> bool {
    exists|mid: CameraPanel|
        {
            &&& #[trigger] settings_restored(before, mid, restore)
            &&& if restore.was_streaming {
                &&& after.status@ == "Sun search complete; camera settings restored"@
                &&& after == CameraPanel { status: after.status, ..mid }
            } else {
                stopped(mid, after)
            }
        }
}

/// A search that is over leaves the camera running or not, exposed and set to
/// automatic or not, as it found it.
pub proof fn search_leaves_no_trace(
    a: CameraPanel,
    b: CameraPanel,
    c: CameraPanel,
    i: int,
    requested: u32,
    milliseconds: Seq<char>,
)
    requires
        search_prepared(a, b, i, requested, milliseconds),
        search_restored(
            b,
            c,
            SearchCameraRestore {
                was_streaming: a.settings.streaming,
                exposure_us: a.settings.exposure_us,
                auto_exposure: a.settings.auto_exposure,
            },
        ),
    ensures
        c.settings == a.settings,
        c.cameras == a.cameras,
{
}

pub open spec fn started_if(wanted: bool, before: CameraPanel, after: CameraPanel) -> bool {
    if wanted {
        started(before, after)
    } else {
        after == before
    }
}

/// The panel after a band was asked for.
pub open spec fn roi_asked(
    before: CameraPanel,
    after: CameraPanel,
    capture_height: usize,
    anchor: Option<usize>,
    enable: bool,
    ended: bool,
    r: Result<(), String>,
) -> bool {
    if before.recording.active {
        r is Err && r->Err_0@ == "stop the recording before changing the sensor ROI"@ && after
            == before
    } else if enable && anchor is None {
        r is Err && r->Err_0@ == "select a valid spectral-line anchor"@ && after == before
    } else if before.settings.streaming && ended {
        r is Err && r->Err_0@ == "camera worker is not running"@ && after == before
    } else {
        exists|mid: CameraPanel|
            {
                &&& #[trigger] started_if(enable, before, mid)
                &&& if !mid.settings.streaming {
                    r is Err && r->Err_0@ == "start a camera before applying the ROI"@ && after
                        == mid
                } else {
                    &&& r is Ok
                    &&& after.outbox@ == mid.outbox@.push(
                        CameraRequest::LiveRoi {
                            capture_height: if capture_height < 2 {
                                2
                            } else {
                                capture_height
                            },
                            anchor,
                            enable,
                        },
                    )
                    &&& after.live_roi.status@ == (if enable {
                        "applying hardware ROI…"@
                    } else {
                        "restoring the full sensor…"@
                    })
                    &&& after == CameraPanel {
                        live_roi: LiveRoiState { status: after.live_roi.status, ..mid.live_roi },
                        outbox: after.outbox,
                        ..mid
                    }
                }
            }
    }
}

/// The panel after a recording was asked for.
pub open spec fn ser_asked(
    before: CameraPanel,
    after: CameraPanel,
    path: String,
    capture_height: usize,
    anchor: Option<usize>,
    hw_roi: bool,
    ended: bool,
    r: Result<(), String>,
) -> bool {
    if before.recording.active {
        r is Err && r->Err_0@ == "a SER recording is already active"@ && after == before
    } else if anchor is None {
        r is Err && r->Err_0@ == "select a valid spectral-line anchor"@ && after == before
    } else if before.settings.streaming && ended {
        r is Err && r->Err_0@ == "camera worker is not running"@ && after == before
    } else {
        exists|mid: CameraPanel|
            {
                &&& #[trigger] started_if(true, before, mid)
                &&& if !mid.settings.streaming {
                    r is Err && r->Err_0@ == "start a camera before recording"@ && after == mid
                } else {
                    &&& r is Ok
                    &&& after.outbox@ == mid.outbox@.push(
                        CameraRequest::StartSer {
                            capture_height: if capture_height < 1 {
                                1
                            } else {
                                capture_height
                            },
                            anchor,
                            hw_roi,
                        },
                    )
                    &&& after.recording.active && after.recording.frames == 0
                    &&& after.recording.path == Some(path)
                    &&& after.recording.status@ == "starting SER recording..."@
                    &&& after == CameraPanel {
                        recording: after.recording,
                        outbox: after.outbox,
                        ..mid
                    }
                }
            }
    }
}

/// No band is asked for during a recording, and no second recording is started.
pub proof fn recording_is_left_alone(
    before: CameraPanel,
    after: CameraPanel,
    path: String,
    capture_height: usize,
    anchor: Option<usize>,
    flag: bool,
    ended: bool,
    r: Result<(), String>,
)
    requires
        before.recording.active,
        roi_asked(before, after, capture_height, anchor, flag, ended, r) || ser_asked(
            before,
            after,
            path,
            capture_height,
            anchor,
            flag,
            ended,
            r,
        ),
    ensures
        r is Err,
        after == before,
{
}

// ---------------------------------------------------------------------------
// What the panel promises
// ---------------------------------------------------------------------------

/// The first real camera is the one that no other real one stands before.
pub proof fn first_hardware_is_first(cameras: Seq<CameraEntry>, from: int)
    requires
        0 <= from,
    ensures
        match first_hardware(cameras, from) {
            Some(i) => from <= i < cameras.len() && !cameras[i].synthetic && (forall|k: int|
                from <= k < i ==> (#[trigger] cameras[k]).synthetic),
            None => forall|k: int| from <= k < cameras.len() ==> (#[trigger] cameras[k]).synthetic,
        },
    decreases cameras.len() - from,
{
    if from < cameras.len() && cameras[from].synthetic {
        first_hardware_is_first(cameras, from + 1);
    }
}

/// Real cameras are counted, and there is none exactly where no first one is.
pub proof fn hardware_is_counted(cameras: Seq<CameraEntry>)
    ensures
        hardware_count(cameras) <= cameras.len(),
        hardware_count(cameras) == 0 <==> first_hardware(cameras, 0) is None,
    decreases cameras.len(),
{
    first_hardware_is_first(cameras, 0);
    if cameras.len() > 0 {
        let less = cameras.drop_last();
        hardware_is_counted(less);
        first_hardware_is_first(less, 0);
        assert(cameras[cameras.len() - 1] == cameras.last());
        if let Some(i) = first_hardware(less, 0) {
            assert(cameras[i] == less[i]);
        }
        if let Some(i) = first_hardware(cameras, 0) {
            if i < less.len() {
                assert(less[i] == cameras[i]);
            }
        }
    }
}

/// A search uses a real camera: the selected one where it is real, else the first real
/// one.
pub proof fn searches_use_a_real_camera(p: CameraPanel)
    requires
        p.valid(),
    ensures
        p.search_camera() matches Some(i) ==> 0 <= i < p.cameras@.len()
            && !p.cameras@[i].synthetic,
        p.search_camera() is None ==> (forall|k: int|
            0 <= k < p.cameras@.len() ==> (#[trigger] p.cameras@[k]).synthetic),
        p.cameras@.len() > 0 && !p.cameras@[p.selected as int].synthetic ==> p.search_camera()
            == Some(p.selected as int),
{
    first_hardware_is_first(p.cameras@, 0);
}

/// The exposure of a search is one that the camera can do, and the wished one where it
/// can.
pub proof fn search_exposures_are_possible(camera: CameraEntry, requested: u32)
    requires
        camera.exposure_min <= camera.exposure_max,
    ensures
        camera.exposure_min <= search_exposure(camera, requested) <= camera.exposure_max,
        camera.exposure_min <= requested <= camera.exposure_max ==> search_exposure(
            camera,
            requested,
        ) == requested,
        requested < camera.exposure_min ==> search_exposure(camera, requested)
            == camera.exposure_min,
{
}

/// A search runs on a fixed exposure: the automatic one is switched off before the
/// exposure is set, on a camera that streams.
pub proof fn searches_fix_the_exposure(
    a: CameraPanel,
    b: CameraPanel,
    i: int,
    requested: u32,
    milliseconds: Seq<char>,
)
    requires
        search_prepared(a, b, i, requested, milliseconds),
        0 <= i < a.cameras@.len() && i <= usize::MAX,
    ensures
        b.settings.streaming && !b.settings.auto_exposure && b.selected == i,
        ({
            let n = b.outbox@.len() as int;
            &&& n >= 2 && b.outbox@[n - 2] == CameraRequest::AutoExposure(false)
            &&& b.outbox@[n - 1] == CameraRequest::Exposure(b.settings.exposure_us)
            &&& (!a.settings.streaming ==> n >= 3 && b.outbox@[n - 3] == CameraRequest::Open)
        }),
{
}

/// A stopped camera records nothing and reads no band, and the worker is closed.
pub proof fn stopping_ends_everything(before: CameraPanel, after: CameraPanel)
    requires
        stopped(before, after),
    ensures
        !after.settings.streaming && !after.recording.active && !after.live_roi.active,
        after.outbox@.len() == before.outbox@.len() + 1 && after.outbox@.last()
            == CameraRequest::Close,
        after.settings == (CameraSettings { streaming: false, ..before.settings }),
        after.recording.frames == before.recording.frames && after.recording.path
            == before.recording.path,
{
}

/// A camera that is started streams with the settings that were there.
pub proof fn starting_opens_the_camera(before: CameraPanel, after: CameraPanel)
    requires
        started(before, after),
    ensures
        before.settings.streaming ==> after == before,
        before.cameras@.len() == 0 ==> after == before,
        !before.settings.streaming && before.cameras@.len() > 0 ==> after.settings.streaming
            && after.outbox@ == before.outbox@.push(CameraRequest::Open) && after.settings == (
        CameraSettings { streaming: true, ..before.settings }),
{
}

/// Settings reach a running worker, and no other.
pub proof fn only_a_running_worker_is_asked(outbox: Seq<CameraRequest>, request: CameraRequest)
    ensures
        asked(true, outbox, request) == outbox.push(request),
        asked(false, outbox, request) == outbox,
{
}

/// A recording is asked for around its line, with its height and its kind of band, into
/// its file; it needs a line and a camera.
pub proof fn recordings_are_asked_for_as_set(
    before: CameraPanel,
    after: CameraPanel,
    path: String,
    capture_height: usize,
    anchor: Option<usize>,
    hw_roi: bool,
    ended: bool,
    r: Result<(), String>,
)
    requires
        ser_asked(before, after, path, capture_height, anchor, hw_roi, ended, r),
    ensures
        r is Ok <==> !before.recording.active && anchor is Some && !(before.settings.streaming
            && ended) && (before.settings.streaming || before.cameras@.len() > 0),
        r is Ok ==> {
            &&& after.settings.streaming && after.recording.active && after.recording.frames == 0
            &&& after.recording.path == Some(path)
            &&& after.outbox@.last() == (CameraRequest::StartSer {
                capture_height: if capture_height == 0 {
                    1
                } else {
                    capture_height
                },
                anchor,
                hw_roi,
            })
        },
        r is Err ==> after.recording == before.recording,
{
}

/// A band is asked for around its line, and given up without one; it needs a camera that
/// streams.
pub proof fn bands_are_asked_for_as_set(
    before: CameraPanel,
    after: CameraPanel,
    capture_height: usize,
    anchor: Option<usize>,
    enable: bool,
    ended: bool,
    r: Result<(), String>,
)
    requires
        roi_asked(before, after, capture_height, anchor, enable, ended, r),
    ensures
        r is Ok <==> !before.recording.active && (enable ==> anchor is Some) && !(
        before.settings.streaming && ended) && (before.settings.streaming || (enable
            && before.cameras@.len() > 0)),
        r is Ok ==> after.outbox@.last() == (CameraRequest::LiveRoi {
            capture_height: if capture_height < 2 {
                2
            } else {
                capture_height
            },
            anchor,
            enable,
        }) && after.recording == before.recording,
{
}

/// The end and the failure of a recording end it, its start begins it, and progress
/// leaves it running.
pub proof fn recordings_follow_the_worker(
    before: CameraPanel,
    after: CameraPanel,
    event: RecordingEvent,
)
    requires
        recording_told(before, after, Some(event)),
    ensures
        event is Started ==> after.recording.active && after.recording.path == Some(
            event->Started_path,
        ),
        event is Stopped ==> !after.recording.active && after.recording.frames
            == event->Stopped_frames && after.recording.path == Some(event->Stopped_path),
        event is Failed ==> !after.recording.active && after.recording.path
            == before.recording.path,
        event is Progress ==> after.recording.active == before.recording.active
            && after.recording.frames == event->Progress_0,
        after.settings == before.settings && after.outbox == before.outbox,
{
}

/// While the sensor reads a band, its own height bounds the controls; otherwise the frame
/// does. A height below thirty-two rows is not believed.
pub proof fn controls_are_bounded_by_the_sensor(
    sensor: Option<usize>,
    frame: Option<usize>,
    roi_active: bool,
)
    ensures
        roi_active && sensor is Some && sensor->0 >= 32 ==> band_limit(sensor, frame, roi_active)
            == sensor,
        !roi_active && frame is Some ==> band_limit(sensor, frame, roi_active) == frame,
        (sensor is None || sensor->0 < 32) ==> band_limit(sensor, frame, roi_active) == frame,
        !roi_active && frame is None && sensor is Some && sensor->0 >= 32 ==> band_limit(
            sensor,
            frame,
            roi_active,
        ) == sensor,
{
}

/// An opened camera replaces its own entry in the list and no other; a camera that is not
/// listed changes nothing.
pub proof fn opened_cameras_replace_themselves(
    before: Seq<CameraEntry>,
    after: Seq<CameraEntry>,
    info: CameraEntry,
    k: int,
)
    requires
        adopted(before, after, info),
        0 <= k < before.len(),
    ensures
        after.len() == before.len(),
        !same_camera(before[k], info) ==> after[k] == before[k],
        same_camera(before[k], info) ==> exists|j: int|
            0 <= j <= k && #[trigger] after[j] == info,
{
    if same_camera(before[k], info) {
        let j = choose|j: int|
            {
                &&& 0 <= j < before.len() && same_camera(#[trigger] before[j], info)
                &&& forall|m: int| 0 <= m < j ==> !same_camera(#[trigger] before[m], info)
                &&& after == before.update(j, info)
            };
        assert(j <= k);
        assert(after[j] == info);
    }
}

} // verus!
