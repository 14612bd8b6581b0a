//! The focus procedure: which lines are measured, bursts of frames, and the
//! curves that they build.
//!
//! Measured values come as keys in the same order; positions and values of
//! curves are carried as bit patterns.

use crate::focusmetrics::{newest, LuckyBuf, Reading};
use crate::order::{sorting_is_ordered_permutation, stable_sort, stably_sorted};
use crate::text::{decimal, decimal_string, joined2, joined3, opt_text};
use vstd::prelude::*;
use vstd::string::StringExecFns;

verus! {

/// Points of a track that are kept.
pub const HISTORY: usize = 600;

pub const DEFAULT_CAPTURE_FRAMES: usize = 40;

pub const LUCKY_WINDOW: usize = 90;

/// The image axis that carries the wavelength.
#[derive(Clone, Copy, Debug, PartialEq, Eq, Structural)]
pub enum DispAxis {
    Vertical,
    Horizontal,
}

/// How the reported line is chosen.
#[derive(Clone, Copy, Debug, PartialEq, Eq, Structural)]
pub enum LineMode {
    /// The sharpest line.
    Narrowest,
    /// The strongest line.
    Deepest,
    /// The line nearest to a picked position.
    Manual,
}

/// The stage of the procedure.
#[derive(Clone, Copy, Debug, PartialEq, Eq, Structural)]
pub enum Stage {
    /// Collimator and camera lens.
    Spectrograph,
    /// Telescope focuser.
    Telescope,
}

/// What the telescope is focused by.
#[derive(Clone, Copy, Debug, PartialEq, Eq, Structural)]
pub enum TeleMetric {
    /// The solar limb as a knife edge.
    LimbEdge,
    /// Contrast along the slit.
    Structure,
}

impl TeleMetric {
    /// Whether the best focus makes this metric smallest.
    pub fn want_min(self) -> (r: bool)
        ensures
            r == (self is LimbEdge),
    {
        match self {
            TeleMetric::LimbEdge => true,
            TeleMetric::Structure => false,
        }
    }

    pub open spec fn spec_label(self) -> Seq<char> {
        match self {
            TeleMetric::LimbEdge => "limb edge FWHM (px)"@,
            TeleMetric::Structure => "along-slit contrast"@,
        }
    }

    pub fn label(self) -> (text: &'static str)
        ensures
            text@ == self.spec_label(),
    {
        match self {
            TeleMetric::LimbEdge => "limb edge FWHM (px)",
            TeleMetric::Structure => "along-slit contrast",
        }
    }
}

/// A detected line.
#[derive(Clone, Copy, Debug, PartialEq, Eq, Structural)]
pub struct LineSeen {
    pub fwhm: Reading,
    pub depth: Reading,
    /// Deep enough to be measured.
    pub usable: bool,
    /// Distance to the picked position.
    pub distance: Reading,
}

/// What a mode goes by: the smaller the better, but for the depth.
pub open spec fn preferred(mode: LineMode, a: LineSeen, b: LineSeen) -> bool {
    match mode {
        LineMode::Narrowest => a.fwhm.key <= b.fwhm.key,
        LineMode::Deepest => a.depth.key >= b.depth.key,
        LineMode::Manual => a.distance.key <= b.distance.key,
    }
}

/// The line that a mode chooses: the best usable one. Of equals it is the
/// first, or the last of the deepest.
pub open spec fn is_choice(lines: Seq<LineSeen>, mode: LineMode, i: int) -> bool {
    &&& 0 <= i < lines.len() && lines[i].usable
    &&& forall|k: int|
        0 <= k < lines.len() && #[trigger] lines[k].usable ==> preferred(mode, lines[i], lines[k])
    &&& forall|k: int|
        0 <= k < lines.len() && #[trigger] lines[k].usable && preferred(mode, lines[k], lines[i])
            ==> if mode is Deepest {
            k <= i
        } else {
            i <= k
        }
}

/// Chooses a line. A line that is too shallow to be measured is never chosen,
/// however narrow or near it is; without a pick nothing is chosen by hand.
pub fn choose_line(lines: &Vec<LineSeen>, mode: LineMode, picked: bool) -> (choice: Option<usize>)
    ensures
        match choice {
            Some(i) => is_choice(lines@, mode, i as int) && (mode is Manual ==> picked),
            None => (mode is Manual && !picked) || forall|k: int|
                0 <= k < lines@.len() ==> !(#[trigger] lines@[k]).usable,
        },
{
    let manual: bool = match mode {
        LineMode::Manual => true,
        _ => false,
    };
    if manual && !picked {
        return None;
    }
    let mut best: Option<usize> = None;
    let mut i: usize = 0;
    while i < lines.len()
        invariant
            i <= lines@.len(),
            best matches Some(b) ==> b < i && is_choice(lines@.take(i as int), mode, b as int),
            best is None ==> forall|k: int| 0 <= k < i ==> !(#[trigger] lines@[k]).usable,
        decreases lines@.len() - i,
    {
        let ghost before = lines@.take(i as int);
        let ghost after = lines@.take(i + 1);
        let line: LineSeen = lines[i];
        if line.usable {
            let better: bool = match best {
                None => true,
                Some(b) => match mode {
                    LineMode::Narrowest => line.fwhm.key < lines[b].fwhm.key,
                    LineMode::Deepest => line.depth.key >= lines[b].depth.key,
                    LineMode::Manual => line.distance.key < lines[b].distance.key,
                },
            };
            if better {
                best = Some(i);
            }
        }
        proof {
            if let Some(b) = best {
                assert forall|k: int| 0 <= k < after.len() && #[trigger] after[k].usable implies {
                    &&& preferred(mode, after[b as int], after[k])
                    &&& preferred(mode, after[k], after[b as int]) ==> if mode is Deepest {
                        k <= b
                    } else {
                        b <= k
                    }
                } by {
                    assert(after[k] == lines@[k]);
                    if k < i {
                        assert(before[k] == lines@[k]);
                    }
                }
            }
        }
        i = i + 1;
    }
    assert(lines@.take(lines@.len() as int) =~= lines@);
    best
}

/// The choice is made by the lines alone.
pub proof fn choice_is_unique(lines: Seq<LineSeen>, mode: LineMode, a: int, b: int)
    requires
        is_choice(lines, mode, a),
        is_choice(lines, mode, b),
    ensures
        a == b,
{
    assert(lines[a].usable && lines[b].usable);
}

/// Smallest width and recent widths of one family of lines.
pub struct Track {
    pub min_hold: Option<Reading>,
    pub history: Vec<Reading>,
}

impl Track {
    pub open spec fn valid(&self) -> bool {
        self.history@.len() <= HISTORY
    }

    pub fn new() -> (t: Track)
        ensures
            t.valid(),
            t.min_hold is None && t.history@.len() == 0,
    {
        Track { min_hold: None, history: Vec::new() }
    }

    /// Takes the width of a usable line in.
    pub fn push(&mut self, line: Option<LineSeen>)
        requires
            old(self).valid(),
        ensures
            final(self).valid(),
            match line {
                Some(l) => if l.usable {
                    &&& final(self).history@ == newest(
                        old(self).history@.push(l.fwhm),
                        HISTORY as int,
                    )
                    &&& final(self).min_hold == Some(
                        match old(self).min_hold {
                            Some(m) => if l.fwhm.key < m.key {
                                l.fwhm
                            } else {
                                m
                            },
                            None => l.fwhm,
                        },
                    )
                } else {
                    *final(self) == *old(self)
                },
                None => *final(self) == *old(self),
            },
    {
        if let Some(l) = line {
            if l.usable {
                let smaller: bool = match self.min_hold {
                    Some(m) => l.fwhm.key < m.key,
                    None => true,
                };
                if smaller {
                    self.min_hold = Some(l.fwhm);
                }
                let ghost before = self.history@;
                if self.history.len() >= HISTORY {
                    let _ = self.history.remove(0);
                }
                self.history.push(l.fwhm);
                assert(self.history@ =~= newest(before.push(l.fwhm), HISTORY as int));
            }
        }
    }

    pub fn reset(&mut self)
        ensures
            final(self).valid(),
            final(self).min_hold is None && final(self).history@.len() == 0,
    {
        self.min_hold = None;
        self.history = Vec::new();
    }
}

/// The middle of the readings: one of them, or the two around the middle, whose
/// mean is the median.
pub fn middle(values: &Vec<Reading>) -> (r: Option<(Reading, Reading)>)
    ensures
        ({
            let s = stably_sorted(values@);
            let n = values@.len() as int;
            if n == 0 {
                r is None
            } else {
                s.len() == n && r == Some((s[(n - 1) / 2], s[n / 2]))
            }
        }),
{
    let n: usize = values.len();
    if n == 0 {
        return None;
    }
    let mut all: Vec<Reading> = Vec::new();
    let mut i: usize = 0;
    while i < n
        invariant
            i <= n,
            n == values@.len(),
            all@ == values@.take(i as int),
        decreases n - i,
    {
        all.push(values[i]);
        assert(all@ =~= values@.take(i + 1));
        i = i + 1;
    }
    assert(values@.take(n as int) =~= values@);
    proof {
        sorting_is_ordered_permutation(values@);
    }
    let sorted = stable_sort(all);
    Some((sorted[(n - 1) / 2], sorted[n / 2]))
}

/// A burst of frames at one position.
pub struct Capture {
    pub remaining: usize,
    pub total: usize,
    /// The micrometer reading.
    pub position: u64,
    pub spectral: Vec<Reading>,
    pub slit: Vec<Reading>,
    /// A usable line was seen in some frame.
    pub spectral_seen: bool,
    pub slit_seen: bool,
    /// Greatest depth seen, usable or not.
    pub best_spectral: Reading,
    pub best_slit: Reading,
    pub tele: Vec<Reading>,
    pub top: Vec<Reading>,
    pub bottom: Vec<Reading>,
}

/// What one frame adds to a burst.
#[derive(Clone, Copy, Debug, PartialEq, Eq)]
pub struct BurstFrame {
    pub spectral: Option<LineSeen>,
    pub slit: Option<LineSeen>,
    pub limb: Option<Reading>,
    pub structure: Option<Reading>,
    pub top: Option<Reading>,
    pub bottom: Option<Reading>,
}

pub open spec fn with_reading(values: Seq<Reading>, v: Option<Reading>) -> Seq<Reading> {
    match v {
        Some(r) => values.push(r),
        None => values,
    }
}

/// The width of a line that is deep enough.
pub open spec fn usable_width(line: Option<LineSeen>) -> Option<Reading> {
    match line {
        Some(l) => if l.usable {
            Some(l.fwhm)
        } else {
            None
        },
        None => None,
    }
}

/// The widths that a frame adds: those of both families, or none. A dropout is
/// not averaged in as if it were data.
pub open spec fn paired_widths(frame: BurstFrame) -> (Option<Reading>, Option<Reading>) {
    if usable_width(frame.spectral) is Some && usable_width(frame.slit) is Some {
        (usable_width(frame.spectral), usable_width(frame.slit))
    } else {
        (None, None)
    }
}

pub open spec fn deeper(best: Reading, line: Option<LineSeen>) -> Reading {
    match line {
        Some(l) => if l.depth.key > best.key {
            l.depth
        } else {
            best
        },
        None => best,
    }
}

fn take_reading(values: &mut Vec<Reading>, v: Option<Reading>)
    ensures
        final(values)@ == with_reading(old(values)@, v),
{
    if let Some(r) = v {
        values.push(r);
    }
}

fn width_of(line: Option<LineSeen>) -> (v: Option<Reading>)
    ensures
        v == usable_width(line),
{
    match line {
        Some(l) => if l.usable {
            Some(l.fwhm)
        } else {
            None
        },
        None => None,
    }
}

fn deepest(best: Reading, line: Option<LineSeen>) -> (r: Reading)
    ensures
        r == deeper(best, line),
{
    match line {
        Some(l) => if l.depth.key > best.key {
            l.depth
        } else {
            best
        },
        None => best,
    }
}

/// A point of a focus curve.
#[derive(Clone, Copy, Debug, PartialEq, Eq, Structural)]
pub struct CurveSample {
    pub position: u64,
    pub value: u64,
    /// Frames behind the value.
    pub weight: usize,
}

/// A solved difference of the two minima at one collimator setting.
#[derive(Clone, Copy, Debug, PartialEq, Eq, Structural)]
pub struct BankedDelta {
    pub collimator: u64,
    pub delta: u64,
}

pub struct Curves {
    pub spectral: Vec<CurveSample>,
    pub slit: Vec<CurveSample>,
    pub tele: Vec<CurveSample>,
    pub top: Vec<CurveSample>,
    pub bottom: Vec<CurveSample>,
    /// The best focus is the smallest value of the telescope curves.
    pub tele_want_min: bool,
}

/// State of the focus procedure.
pub struct Procedure {
    pub stage: Stage,
    pub metric: TeleMetric,
    pub capture_frames: usize,
    pub capture: Option<Capture>,
    pub curves: Curves,
    pub banked: Vec<BankedDelta>,
    pub lucky_limb: LuckyBuf,
    pub lucky_structure: LuckyBuf,
    pub status: String,
}

/// A number with its notation.
pub struct Number {
    pub bits: u64,
    pub text: String,
}

impl Procedure {
    pub open spec fn valid(&self) -> bool {
        &&& self.lucky_limb.valid() && self.lucky_structure.valid()
        &&& self.capture matches Some(c) ==> 1 <= c.remaining <= c.total
    }

    pub fn new() -> (p: Procedure)
        ensures
            p.valid(),
            p.stage == Stage::Spectrograph && p.metric == TeleMetric::LimbEdge,
            p.capture_frames == DEFAULT_CAPTURE_FRAMES && p.capture is None,
            p.curves.spectral@.len() == 0 && p.curves.slit@.len() == 0,
            p.curves.tele@.len() == 0 && p.curves.top@.len() == 0 && p.curves.bottom@.len() == 0,
            p.curves.tele_want_min,
            p.banked@.len() == 0 && p.status@.len() == 0,
            p.lucky_limb.values@.len() == 0 && p.lucky_structure.values@.len() == 0,
            p.lucky_limb.capacity == LUCKY_WINDOW && p.lucky_structure.capacity == LUCKY_WINDOW,
    {
        Procedure {
            stage: Stage::Spectrograph,
            metric: TeleMetric::LimbEdge,
            capture_frames: DEFAULT_CAPTURE_FRAMES,
            capture: None,
            curves: Curves {
                spectral: Vec::new(),
                slit: Vec::new(),
                tele: Vec::new(),
                top: Vec::new(),
                bottom: Vec::new(),
                tele_want_min: true,
            },
            banked: Vec::new(),
            lucky_limb: LuckyBuf::new(LUCKY_WINDOW),
            lucky_structure: LuckyBuf::new(LUCKY_WINDOW),
            status: String::new(),
        }
    }

    /// Starts a burst at a position.
    pub fn begin_capture(&mut self, position: Option<Number>, streaming: bool)
        requires
            old(self).valid(),
        ensures
            final(self).valid(),
            match position {
                None => final(self).status@ == "enter the micrometer reading first"@
                    && final(self).capture == old(self).capture,
                Some(p) => if !streaming {
                    final(self).status@ == "start the camera first"@ && final(self).capture == old(self).capture
                } else {
                    let n = if old(self).capture_frames == 0 {
                        1
                    } else {
                        old(self).capture_frames
                    };
                    &&& final(self).status@ == "capturing "@ + decimal(n as nat) + " frames at "@
                        + p.text@ + "…"@
                    &&& final(self).capture matches Some(c)
                    &&& c.remaining == n && c.total == n && c.position == p.bits
                    &&& c.spectral@.len() == 0 && c.slit@.len() == 0 && c.tele@.len() == 0
                    &&& c.top@.len() == 0 && c.bottom@.len() == 0
                    &&& !c.spectral_seen && !c.slit_seen
                    &&& c.best_spectral.key == 0 && c.best_slit.key == 0
                },
            },
            *final(self) == (Procedure {
                status: final(self).status,
                capture: final(self).capture,
                ..*old(self)
            }),
    {
        let p: Number = match position {
            None => {
                self.status = "enter the micrometer reading first".to_owned();
                return;
            },
            Some(p) => p,
        };
        if !streaming {
            self.status = "start the camera first".to_owned();
            return;
        }
        let n: usize = if self.capture_frames == 0 {
            1
        } else {
            self.capture_frames
        };
        self.capture = Some(
            Capture {
                remaining: n,
                total: n,
                position: p.bits,
                spectral: Vec::new(),
                slit: Vec::new(),
                spectral_seen: false,
                slit_seen: false,
                best_spectral: Reading { key: 0 },
                best_slit: Reading { key: 0 },
                tele: Vec::new(),
                top: Vec::new(),
                bottom: Vec::new(),
            },
        );
        let mut t = joined3("capturing ", decimal_string(n as u64).as_str(), " frames at ");
        t.append(p.text.as_str());
        t.append("…");
        self.status = t;
    }

    pub fn cancel_capture(&mut self)
        requires
            old(self).valid(),
        ensures
            final(self).valid(),
            final(self).status@ == "capture cancelled"@,
            *final(self) == (Procedure {
                capture: None,
                status: final(self).status,
                ..*old(self)
            }),
    {
        self.capture = None;
        self.status = "capture cancelled".to_owned();
    }

    /// The burst after one more frame.
    pub open spec fn burst_after(&self, c: Capture, d: Capture, frame: BurstFrame) -> bool {
        let lines = self.stage is Spectrograph;
        let tele = if self.metric is LimbEdge {
            frame.limb
        } else {
            frame.structure
        };
        &&& d.total == c.total && d.position == c.position && d.remaining == c.remaining - 1
        &&& d.spectral@ == (if lines {
            with_reading(c.spectral@, paired_widths(frame).0)
        } else {
            c.spectral@
        })
        &&& d.slit@ == (if lines {
            with_reading(c.slit@, paired_widths(frame).1)
        } else {
            c.slit@
        })
        &&& d.spectral_seen == (c.spectral_seen || (lines && usable_width(frame.spectral) is Some))
        &&& d.slit_seen == (c.slit_seen || (lines && usable_width(frame.slit) is Some))
        &&& d.best_spectral == (if lines {
            deeper(c.best_spectral, frame.spectral)
        } else {
            c.best_spectral
        })
        &&& d.best_slit == (if lines {
            deeper(c.best_slit, frame.slit)
        } else {
            c.best_slit
        })
        &&& d.tele@ == (if lines {
            c.tele@
        } else {
            with_reading(c.tele@, tele)
        })
        &&& d.top@ == (if lines {
            c.top@
        } else {
            with_reading(c.top@, frame.top)
        })
        &&& d.bottom@ == (if lines {
            c.bottom@
        } else {
            with_reading(c.bottom@, frame.bottom)
        })
    }

    /// Takes a frame into the burst. Gives the burst when it is complete. Of the
    /// spectrograph only frames count where both families have a usable line.
    pub fn accumulate(&mut self, frame: BurstFrame) -> (done: Option<Capture>)
        requires
            old(self).valid(),
        ensures
            final(self).valid(),
            *final(self) == (Procedure { capture: final(self).capture, ..*old(self) }),
            match old(self).capture {
                None => done is None && final(self).capture is None,
                Some(c) => if c.remaining == 1 {
                    &&& final(self).capture is None
                    &&& done matches Some(d)
                    &&& old(self).burst_after(c, d, frame)
                } else {
                    &&& done is None
                    &&& final(self).capture matches Some(d)
                    &&& old(self).burst_after(c, d, frame)
                },
            },
    {
        let mut cap: Capture = match self.capture.take() {
            None => {
                return None;
            },
            Some(c) => c,
        };
        match self.stage {
            Stage::Spectrograph => {
                let spectral: Option<Reading> = width_of(frame.spectral);
                let slit: Option<Reading> = width_of(frame.slit);
                cap.best_spectral = deepest(cap.best_spectral, frame.spectral);
                cap.best_slit = deepest(cap.best_slit, frame.slit);
                cap.spectral_seen = cap.spectral_seen || spectral.is_some();
                cap.slit_seen = cap.slit_seen || slit.is_some();
                if spectral.is_some() && slit.is_some() {
                    take_reading(&mut cap.spectral, spectral);
                    take_reading(&mut cap.slit, slit);
                }
            },
            Stage::Telescope => {
                let tele: Option<Reading> = match self.metric {
                    TeleMetric::LimbEdge => frame.limb,
                    TeleMetric::Structure => frame.structure,
                };
                take_reading(&mut cap.tele, tele);
                take_reading(&mut cap.top, frame.top);
                take_reading(&mut cap.bottom, frame.bottom);
            },
        }
        cap.remaining = cap.remaining - 1;
        if cap.remaining == 0 {
            Some(cap)
        } else {
            self.capture = Some(cap);
            None
        }
    }

    /// Ends a burst of the spectrograph stage. Only a position with both
    /// families measured becomes a sample. The values are the medians.
    pub fn commit_lines(
        &mut self,
        cap: &Capture,
        spectral: &Number,
        slit: &Number,
        position: &str,
        spectral_depth: &str,
        slit_depth: &str,
    )
        requires
            old(self).valid(),
        ensures
            final(self).valid(),
            *final(self) == (Procedure {
                curves: final(self).curves,
                status: final(self).status,
                ..*old(self)
            }),
            final(self).curves == (Curves {
                spectral: final(self).curves.spectral,
                slit: final(self).curves.slit,
                ..old(self).curves
            }),
            ({
                let frames = if cap.spectral@.len() < cap.slit@.len() {
                    cap.spectral@.len()
                } else {
                    cap.slit@.len()
                };
                if frames > 0 {
                    &&& final(self).curves.spectral@ == old(self).curves.spectral@.push(
                        CurveSample {
                            position: cap.position,
                            value: spectral.bits,
                            weight: cap.spectral@.len() as usize,
                        },
                    )
                    &&& final(self).curves.slit@ == old(self).curves.slit@.push(
                        CurveSample {
                            position: cap.position,
                            value: slit.bits,
                            weight: cap.slit@.len() as usize,
                        },
                    )
                    &&& final(self).status@ == "captured @ "@ + position@ + ": spectral "@
                        + spectral.text@ + " px, slit "@ + slit.text@ + " px ("@ + decimal(frames)
                        + "/"@ + decimal(cap.total as nat) + " frames)"@
                } else {
                    &&& final(self).curves == old(self).curves
                    &&& final(self).status@ == failure_text(
                        !cap.spectral_seen,
                        !cap.slit_seen,
                        if cap.best_spectral.key <= 0 {
                            None
                        } else {
                            Some(spectral_depth@)
                        },
                        if cap.best_slit.key <= 0 {
                            None
                        } else {
                            Some(slit_depth@)
                        },
                    )
                }
            }),
    {
        let a: usize = cap.spectral.len();
        let b: usize = cap.slit.len();
        if a > 0 && b > 0 {
            self.curves.spectral.push(
                CurveSample { position: cap.position, value: spectral.bits, weight: a },
            );
            self.curves.slit.push(
                CurveSample { position: cap.position, value: slit.bits, weight: b },
            );
            let frames: usize = if a < b {
                a
            } else {
                b
            };
            let mut t = joined3("captured @ ", position, ": spectral ");
            t.append(spectral.text.as_str());
            t.append(" px, slit ");
            t.append(slit.text.as_str());
            t.append(" px (");
            t.append(decimal_string(frames as u64).as_str());
            t.append("/");
            t.append(decimal_string(cap.total as u64).as_str());
            t.append(" frames)");
            self.status = t;
        } else {
            let seen_spectral: Option<&str> = if cap.best_spectral.key <= 0 {
                None
            } else {
                Some(spectral_depth)
            };
            let seen_slit: Option<&str> = if cap.best_slit.key <= 0 {
                None
            } else {
                Some(slit_depth)
            };
            self.status =
            capture_failure(!cap.spectral_seen, !cap.slit_seen, seen_spectral, seen_slit);
        }
    }

    /// Ends a burst of the telescope stage. The values are lucky means.
    pub fn commit_telescope(
        &mut self,
        cap: &Capture,
        value: &Number,
        top: u64,
        bottom: u64,
        position: &str,
    )
        requires
            old(self).valid(),
        ensures
            final(self).valid(),
            *final(self) == (Procedure {
                curves: final(self).curves,
                status: final(self).status,
                ..*old(self)
            }),
            final(self).curves == (Curves {
                tele: final(self).curves.tele,
                top: final(self).curves.top,
                bottom: final(self).curves.bottom,
                ..old(self).curves
            }),
            if cap.tele@.len() > 0 {
                &&& final(self).curves.tele@ == old(self).curves.tele@.push(
                    CurveSample {
                        position: cap.position,
                        value: value.bits,
                        weight: cap.tele@.len() as usize,
                    },
                )
                &&& final(self).curves.top@ == with_sample(
                    old(self).curves.top@,
                    cap.position,
                    top,
                    cap.top@.len(),
                )
                &&& final(self).curves.bottom@ == with_sample(
                    old(self).curves.bottom@,
                    cap.position,
                    bottom,
                    cap.bottom@.len(),
                )
                &&& final(self).status@ == "captured @ "@ + position@ + ": "@ + old(self).metric.spec_label() + " = "@ + value.text@ + " ("@ + decimal(cap.tele@.len())
                    + "/"@ + decimal(cap.total as nat) + " frames)"@
            } else {
                &&& final(self).curves == old(self).curves
                &&& final(self).status@ == (if old(self).metric is LimbEdge {
                    "no limb on the slit in that burst — point at the limb, or switch to along-slit contrast"@
                } else {
                    "no illuminated slit in that burst — check exposure"@
                })
            },
    {
        let n: usize = cap.tele.len();
        if n > 0 {
            self.curves.tele.push(
                CurveSample { position: cap.position, value: value.bits, weight: n },
            );
            let a: usize = cap.top.len();
            if a > 0 {
                self.curves.top.push(
                    CurveSample { position: cap.position, value: top, weight: a },
                );
            }
            let b: usize = cap.bottom.len();
            if b > 0 {
                self.curves.bottom.push(
                    CurveSample { position: cap.position, value: bottom, weight: b },
                );
            }
            let mut t = joined3("captured @ ", position, ": ");
            t.append(self.metric.label());
            t.append(" = ");
            t.append(value.text.as_str());
            t.append(" (");
            t.append(decimal_string(n as u64).as_str());
            t.append("/");
            t.append(decimal_string(cap.total as u64).as_str());
            t.append(" frames)");
            self.status = t;
        } else {
            self.status = match self.metric {
                TeleMetric::LimbEdge => "no limb on the slit in that burst — point at the limb, or switch to along-slit contrast".to_owned(),
                TeleMetric::Structure => "no illuminated slit in that burst — check exposure".to_owned(),
            };
        }
    }

    /// Points the telescope curves at another metric. Samples of the old one
    /// are dropped: they cannot be compared.
    pub fn retarget(&mut self, metric: TeleMetric)
        requires
            old(self).valid(),
        ensures
            final(self).valid(),
            final(self).curves.tele@.len() == 0 && final(self).curves.top@.len() == 0
                && final(self).curves.bottom@.len() == 0,
            final(self).curves.tele_want_min == (metric is LimbEdge),
            final(self).curves.spectral == old(self).curves.spectral,
            final(self).curves.slit == old(self).curves.slit,
            final(self).lucky_limb.values@.len() == 0 && final(self).lucky_structure.values@.len()
                == 0,
            final(self).lucky_limb.capacity == old(self).lucky_limb.capacity,
            final(self).lucky_structure.capacity == old(self).lucky_structure.capacity,
            *final(self) == (Procedure {
                metric,
                curves: final(self).curves,
                lucky_limb: final(self).lucky_limb,
                lucky_structure: final(self).lucky_structure,
                ..*old(self)
            }),
    {
        self.metric = metric;
        self.curves.tele = Vec::new();
        self.curves.top = Vec::new();
        self.curves.bottom = Vec::new();
        self.curves.tele_want_min = metric.want_min();
        self.lucky_limb.clear();
        self.lucky_structure.clear();
    }

    /// Takes the metrics of a frame into the live readouts.
    pub fn observe(&mut self, limb: Option<Reading>, structure: Option<Reading>)
        requires
            old(self).valid(),
        ensures
            final(self).valid(),
            final(self).lucky_limb.values@ == (match limb {
                Some(r) => newest(
                    old(self).lucky_limb.values@.push(r),
                    old(self).lucky_limb.capacity as int,
                ),
                None => old(self).lucky_limb.values@,
            }),
            final(self).lucky_structure.values@ == (match structure {
                Some(r) => newest(
                    old(self).lucky_structure.values@.push(r),
                    old(self).lucky_structure.capacity as int,
                ),
                None => old(self).lucky_structure.values@,
            }),
            final(self).lucky_limb.capacity == old(self).lucky_limb.capacity,
            final(self).lucky_structure.capacity == old(self).lucky_structure.capacity,
            *final(self) == (Procedure {
                lucky_limb: final(self).lucky_limb,
                lucky_structure: final(self).lucky_structure,
                ..*old(self)
            }),
    {
        self.lucky_limb.push(limb);
        self.lucky_structure.push(structure);
    }

    /// Drops the sweep of the spectrograph.
    pub fn clear_stage_a(&mut self)
        requires
            old(self).valid(),
        ensures
            final(self).valid(),
            final(self).curves.spectral@.len() == 0 && final(self).curves.slit@.len() == 0,
            final(self).status@ == "Stage A sweep cleared"@,
            *final(self) == (Procedure {
                capture: None,
                curves: Curves {
                    spectral: final(self).curves.spectral,
                    slit: final(self).curves.slit,
                    ..old(self).curves
                },
                status: final(self).status,
                ..*old(self)
            }),
    {
        self.curves.spectral = Vec::new();
        self.curves.slit = Vec::new();
        self.capture = None;
        self.status = "Stage A sweep cleared".to_owned();
    }

    /// Drops the sweep of the telescope.
    pub fn clear_stage_b(&mut self)
        requires
            old(self).valid(),
        ensures
            final(self).valid(),
            final(self).curves.tele@.len() == 0 && final(self).curves.top@.len() == 0
                && final(self).curves.bottom@.len() == 0,
            final(self).status@ == "Stage B sweep cleared"@,
            *final(self) == (Procedure {
                capture: None,
                curves: Curves {
                    tele: final(self).curves.tele,
                    top: final(self).curves.top,
                    bottom: final(self).curves.bottom,
                    ..old(self).curves
                },
                status: final(self).status,
                ..*old(self)
            }),
    {
        self.curves.tele = Vec::new();
        self.curves.top = Vec::new();
        self.curves.bottom = Vec::new();
        self.capture = None;
        self.status = "Stage B sweep cleared".to_owned();
    }

    /// Takes the last sample of the stage back.
    pub fn undo(&mut self)
        requires
            old(self).valid(),
        ensures
            final(self).valid(),
            final(self).status@ == "last sample removed"@,
            ({
                let a = old(self).curves;
                let b = final(self).curves;
                let lines = old(self).stage is Spectrograph;
                &&& b.spectral@ == (if lines {
                    without_last(a.spectral@)
                } else {
                    a.spectral@
                })
                &&& b.slit@ == (if lines {
                    without_last(a.slit@)
                } else {
                    a.slit@
                })
                &&& b.tele@ == (if lines {
                    a.tele@
                } else {
                    without_last(a.tele@)
                })
                &&& b.top@ == (if lines {
                    a.top@
                } else {
                    without_last(a.top@)
                })
                &&& b.bottom@ == (if lines {
                    a.bottom@
                } else {
                    without_last(a.bottom@)
                })
                &&& b.tele_want_min == a.tele_want_min
            }),
            *final(self) == (Procedure {
                curves: final(self).curves,
                status: final(self).status,
                ..*old(self)
            }),
    {
        match self.stage {
            Stage::Spectrograph => {
                drop_sample(&mut self.curves.spectral);
                drop_sample(&mut self.curves.slit);
            },
            Stage::Telescope => {
                drop_sample(&mut self.curves.tele);
                drop_sample(&mut self.curves.top);
                drop_sample(&mut self.curves.bottom);
            },
        }
        self.status = "last sample removed".to_owned();
    }

    /// Banks the solved difference against the collimator reading, and starts
    /// the sweep anew. A refusal leaves the sweep alone.
    pub fn record_null_point(&mut self, delta: Option<Number>, collimator: Option<Number>)
        requires
            old(self).valid(),
        ensures
            final(self).valid(),
            match (delta, collimator) {
                (None, _) => final(self).status@ == "need a solved Δ before banking a point"@
                    && *final(self) == (Procedure { status: final(self).status, ..*old(self) }),
                (Some(_), None) => final(self).status@
                    == "enter the collimator reading before banking"@ && *final(self) == (
                Procedure { status: final(self).status, ..*old(self) }),
                (Some(d), Some(c)) => {
                    &&& final(self).banked@ == old(self).banked@.push(
                        BankedDelta { collimator: c.bits, delta: d.bits },
                    )
                    &&& final(self).curves.spectral@.len() == 0 && final(self).curves.slit@.len()
                        == 0
                    &&& final(self).status@ == "banked Δ = "@ + d.text@ + " at collimator "@
                        + c.text@ + " ("@ + decimal(old(self).banked@.len() + 1) + " point(s))"@
                    &&& *final(self) == (Procedure {
                        banked: final(self).banked,
                        curves: Curves {
                            spectral: final(self).curves.spectral,
                            slit: final(self).curves.slit,
                            ..old(self).curves
                        },
                        status: final(self).status,
                        ..*old(self)
                    })
                },
            },
    {
        let d: Number = match delta {
            None => {
                self.status = "need a solved Δ before banking a point".to_owned();
                return;
            },
            Some(d) => d,
        };
        let c: Number = match collimator {
            None => {
                self.status = "enter the collimator reading before banking".to_owned();
                return;
            },
            Some(c) => c,
        };
        self.banked.push(BankedDelta { collimator: c.bits, delta: d.bits });
        self.curves.spectral = Vec::new();
        self.curves.slit = Vec::new();
        let n: usize = self.banked.len();
        let mut t = joined3("banked Δ = ", d.text.as_str(), " at collimator ");
        t.append(c.text.as_str());
        t.append(" (");
        t.append(decimal_string(n as u64).as_str());
        t.append(" point(s))");
        self.status = t;
    }

    /// Drops the banked points.
    pub fn clear_banked(&mut self)
        requires
            old(self).valid(),
        ensures
            final(self).valid(),
            final(self).banked@.len() == 0,
            final(self).status@ == "banked points cleared"@,
            *final(self) == (Procedure {
                banked: final(self).banked,
                status: final(self).status,
                ..*old(self)
            }),
    {
        self.banked = Vec::new();
        self.status = "banked points cleared".to_owned();
    }
}

pub open spec fn with_sample(curve: Seq<CurveSample>, position: u64, value: u64, weight: nat) -> Seq<
    CurveSample,
> {
    if weight > 0 {
        curve.push(CurveSample { position, value, weight: weight as usize })
    } else {
        curve
    }
}

pub open spec fn without_last(curve: Seq<CurveSample>) -> Seq<CurveSample> {
    if curve.len() > 0 {
        curve.drop_last()
    } else {
        curve
    }
}

fn drop_sample(curve: &mut Vec<CurveSample>)
    ensures
        final(curve)@ == without_last(old(curve)@),
{
    let _ = curve.pop();
    assert(curve@ =~= without_last(old(curve)@));
}

/// A burst holds as many spectral widths as slit widths: each frame counts for
/// both families or for none.
pub proof fn bursts_stay_paired(p: Procedure, c: Capture, d: Capture, frame: BurstFrame)
    requires
        p.burst_after(c, d, frame),
        c.spectral@.len() == c.slit@.len(),
    ensures
        d.spectral@.len() == d.slit@.len(),
{
}

/// Both curves of the spectrograph hold a sample for the same positions: a
/// burst adds to both or to none.
pub proof fn curves_stay_paired(
    spectral: Seq<CurveSample>,
    slit: Seq<CurveSample>,
    a: CurveSample,
    b: CurveSample,
)
    requires
        spectral.len() == slit.len(),
        forall|i: int|
            0 <= i < spectral.len() ==> (#[trigger] spectral[i]).position == slit[i].position,
        a.position == b.position,
    ensures
        spectral.push(a).len() == slit.push(b).len(),
        forall|i: int|
            0 <= i <= spectral.len() ==> (#[trigger] spectral.push(a)[i]).position == slit.push(
                b,
            )[i].position,
        without_last(spectral.push(a)) == spectral,
        without_last(slit.push(b)) == slit,
{
    assert(without_last(spectral.push(a)) =~= spectral);
    assert(without_last(slit.push(b)) =~= slit);
}

// ---------------------------------------------------------------------------
// Words
// ---------------------------------------------------------------------------

/// Why one family of lines gave nothing; `depth` is the greatest depth seen, in
/// percent.
pub open spec fn family_text(name: Seq<char>, depth: Option<Seq<char>>, hint: Seq<char>) -> Seq<char> {
    match depth {
        None => "no "@ + name + " detected at all — "@ + hint,
        Some(d) => name + " only "@ + d + "% deep, needs 3% — "@ + hint,
    }
}

/// Why a burst gave no sample.
pub open spec fn failure_text(
    spectral_failed: bool,
    slit_failed: bool,
    spectral: Option<Seq<char>>,
    slit: Option<Seq<char>>,
) -> Seq<char> {
    if spectral_failed && slit_failed {
        "nothing usable in that burst: "@ + family_text(
            "spectral line"@,
            spectral,
            "only absorption lines are detected, so an emission source (neon) will not work"@,
        ) + "; "@ + family_text("slit-jaw line"@, slit, "jaws may be too clean"@)
    } else if spectral_failed {
        family_text(
            "spectral line"@,
            spectral,
            "raise exposure without clipping, or click a deeper line in the spectral plot.              Only absorption lines are detected — an emission source will not register"@,
        )
    } else if slit_failed {
        family_text(
            "slit-jaw line"@,
            slit,
            "clean jaws give no signal: tape a hair across a jaw, or move the slit end into frame"@,
        )
    } else {
        "burst produced no sample despite both families reporting lines — try more frames"@
    }
}

pub open spec fn str_view(t: Option<&str>) -> Option<Seq<char>> {
    match t {
        Some(s) => Some(s@),
        None => None,
    }
}

fn family_failure(name: &str, depth: Option<&str>, hint: &str) -> (text: String)
    ensures
        text@ == family_text(name@, str_view(depth), hint@),
{
    match depth {
        None => {
            let mut t = joined3("no ", name, " detected at all — ");
            t.append(hint);
            t
        },
        Some(d) => {
            let mut t = joined3(name, " only ", d);
            t.append("% deep, needs 3% — ");
            t.append(hint);
            t
        },
    }
}

pub fn capture_failure(
    spectral_failed: bool,
    slit_failed: bool,
    spectral: Option<&str>,
    slit: Option<&str>,
) -> (text: String)
    ensures
        text@ == failure_text(spectral_failed, slit_failed, str_view(spectral), str_view(slit)),
{
    if spectral_failed && slit_failed {
        let a = family_failure(
            "spectral line",
            spectral,
            "only absorption lines are detected, so an emission source (neon) will not work",
        );
        let b = family_failure("slit-jaw line", slit, "jaws may be too clean");
        let mut t = joined3("nothing usable in that burst: ", a.as_str(), "; ");
        t.append(b.as_str());
        t
    } else if spectral_failed {
        family_failure(
            "spectral line",
            spectral,
            "raise exposure without clipping, or click a deeper line in the spectral plot.              Only absorption lines are detected — an emission source will not register",
        )
    } else if slit_failed {
        family_failure(
            "slit-jaw line",
            slit,
            "clean jaws give no signal: tape a hair across a jaw, or move the slit end into frame",
        )
    } else {
        "burst produced no sample despite both families reporting lines — try more frames".to_owned()
    }
}

/// What is wrong with a fitted curve.
pub fn fit_note(name: &str, shape_ok: bool, bracketed: bool, samples: usize) -> (note: Option<String>)
    ensures
        opt_text(note) == (if !shape_ok {
            Some(
                name@
                    + ": curve bends the wrong way — the range is probably too small to see the extremum, or the metric has no signal"@,
            )
        } else if !bracketed {
            Some(
                name@
                    + ": extremum is extrapolated beyond the samples — step past it and capture again"@,
            )
        } else if samples < 4 {
            Some(name@ + ": a 4th sample gives an uncertainty"@)
        } else {
            None
        }),
{
    if !shape_ok {
        Some(
            joined2(
                name,
                ": curve bends the wrong way — the range is probably too small to see the extremum, or the metric has no signal",
            ),
        )
    } else if !bracketed {
        Some(
            joined2(
                name,
                ": extremum is extrapolated beyond the samples — step past it and capture again",
            ),
        )
    } else if samples < 4 {
        Some(joined2(name, ": a 4th sample gives an uncertainty"))
    } else {
        None
    }
}

// ---------------------------------------------------------------------------
// What the procedure promises
// ---------------------------------------------------------------------------

/// The chosen line is usable, and no other usable one is narrower, deeper or nearer to
/// the pick, as the mode has it.
pub proof fn chosen_line_is_the_best(lines: Seq<LineSeen>, mode: LineMode, i: int, k: int)
    requires
        is_choice(lines, mode, i),
        0 <= k < lines.len(),
        lines[k].usable,
    ensures
        lines[i].usable,
        mode is Narrowest ==> lines[i].fwhm.key <= lines[k].fwhm.key,
        mode is Deepest ==> lines[i].depth.key >= lines[k].depth.key,
        mode is Manual ==> lines[i].distance.key <= lines[k].distance.key,
{
}

/// A usable line is always there to be chosen: some line is best.
pub proof fn some_usable_line_is_best(lines: Seq<LineSeen>, mode: LineMode, n: int, k: int)
    requires
        0 <= k < n <= lines.len(),
        lines[k].usable,
    ensures
        exists|i: int| is_choice(lines.take(n), mode, i),
    decreases n,
{
    let part = lines.take(n);
    let less = lines.take(n - 1);
    assert(forall|j: int| 0 <= j < n - 1 ==> less[j] == part[j] && part[j] == lines[j]);
    assert(part[n - 1] == lines[n - 1]);
    assert(part[k].usable);
    if exists|j: int| 0 <= j < n - 1 && lines[j].usable {
        let j = choose|j: int| 0 <= j < n - 1 && lines[j].usable;
        some_usable_line_is_best(lines, mode, n - 1, j);
        let i = choose|i: int| is_choice(less, mode, i);
        let last = part[n - 1];
        let better = last.usable && (if mode is Deepest {
            preferred(mode, last, part[i])
        } else {
            !preferred(mode, part[i], last)
        });
        if better {
            assert forall|m: int| 0 <= m < part.len() && #[trigger] part[m].usable implies preferred(
                mode,
                last,
                part[m],
            ) by {
                if m < n - 1 {
                    assert(less[m].usable);
                }
            }
            assert forall|m: int|
                0 <= m < part.len() && #[trigger] part[m].usable && preferred(mode, part[m], last) implies if mode is Deepest {
                m <= n - 1
            } else {
                n - 1 <= m
            } by {
                if m < n - 1 {
                    assert(less[m].usable);
                }
            }
            assert(is_choice(part, mode, n - 1));
        } else {
            assert forall|m: int| 0 <= m < part.len() && #[trigger] part[m].usable implies preferred(
                mode,
                part[i],
                part[m],
            ) by {
                if m < n - 1 {
                    assert(less[m].usable);
                }
            }
            assert forall|m: int|
                0 <= m < part.len() && #[trigger] part[m].usable && preferred(
                    mode,
                    part[m],
                    part[i],
                ) implies if mode is Deepest {
                m <= i
            } else {
                i <= m
            } by {
                if m < n - 1 {
                    assert(less[m].usable);
                }
            }
            assert(is_choice(part, mode, i));
        }
    } else {
        assert(is_choice(part, mode, n - 1));
    }
}

/// A frame counts down, and adds a width to both families where both have a usable
/// line; a telescope frame adds the metric that is followed, and nothing to the lines.
pub proof fn frames_count_for_their_stage(p: Procedure, c: Capture, d: Capture, frame: BurstFrame)
    requires
        p.burst_after(c, d, frame),
    ensures
        d.remaining + 1 == c.remaining && d.total == c.total && d.position == c.position,
        p.stage is Spectrograph ==> {
            let both = frame.spectral is Some && frame.spectral->0.usable && frame.slit is Some
                && frame.slit->0.usable;
            &&& d.tele@ == c.tele@ && d.top@ == c.top@ && d.bottom@ == c.bottom@
            &&& (both ==> d.spectral@ == c.spectral@.push(frame.spectral->0.fwhm) && d.slit@
                == c.slit@.push(frame.slit->0.fwhm))
            &&& (!both ==> d.spectral@ == c.spectral@ && d.slit@ == c.slit@)
            &&& (d.spectral_seen <==> c.spectral_seen || (frame.spectral is Some
                && frame.spectral->0.usable))
            &&& (d.slit_seen <==> c.slit_seen || (frame.slit is Some && frame.slit->0.usable))
            &&& d.best_spectral.key >= c.best_spectral.key && (frame.spectral is Some
                ==> d.best_spectral.key >= frame.spectral->0.depth.key)
            &&& d.best_slit.key >= c.best_slit.key && (frame.slit is Some ==> d.best_slit.key
                >= frame.slit->0.depth.key)
        },
        p.stage is Telescope ==> {
            let followed = if p.metric is LimbEdge {
                frame.limb
            } else {
                frame.structure
            };
            &&& d.spectral@ == c.spectral@ && d.slit@ == c.slit@
            &&& d.spectral_seen == c.spectral_seen && d.slit_seen == c.slit_seen
            &&& (followed matches Some(r) ==> d.tele@ == c.tele@.push(r))
            &&& (followed is None ==> d.tele@ == c.tele@)
            &&& (frame.top matches Some(r) ==> d.top@ == c.top@.push(r))
            &&& (frame.bottom matches Some(r) ==> d.bottom@ == c.bottom@.push(r))
            &&& (frame.top is None ==> d.top@ == c.top@)
            &&& (frame.bottom is None ==> d.bottom@ == c.bottom@)
        },
{
}

/// A sample that is added and taken back leaves its curve as it was; one without frames
/// is not added.
pub proof fn samples_are_added_and_taken_back(
    curve: Seq<CurveSample>,
    position: u64,
    value: u64,
    weight: nat,
)
    requires
        0 < weight <= usize::MAX,
    ensures
        with_sample(curve, position, value, 0) == curve,
        with_sample(curve, position, value, weight).last() == (CurveSample {
            position,
            value,
            weight: weight as usize,
        }),
        without_last(with_sample(curve, position, value, weight)) =~= curve,
{
}

} // verus!
