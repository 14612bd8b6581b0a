//! Review of past sessions: a quick look at every scan, and a stack of the ones
//! worth it.

use crate::acquire::ProcessMessage;
use crate::focusmetrics::Reading;
use crate::order::{text_before, text_less, text_order_is_strict};
use crate::session::{is_swept_back, swept_back};
use crate::text::{
    chars_of, decimal, decimal_string, joined2, joined3, padded, padded_string, text_of, texts,
};
use vstd::prelude::*;
use vstd::string::{StrSliceExecFns, StringExecFns};

verus! {

/// Where a scan has got to in the quick look.
pub enum TileState {
    Queued,
    /// Running, with the latest line of the pipeline.
    Working(String),
    Ready,
    Failed(String),
}

/// What is known of a scan from its file.
pub struct TileInfo {
    pub path: String,
    pub session: String,
    pub label: String,
    pub frames: usize,
    pub captured: String,
    /// Swept backwards.
    pub reverse: bool,
}

/// A scan as it lies in its folder.
pub struct FoundScan {
    pub path: String,
    pub name: String,
    pub frames: usize,
    pub captured: String,
}

/// The place of the last dot before `end`.
pub open spec fn last_dot(name: Seq<char>, end: int) -> Option<int>
    decreases end,
{
    if end <= 0 {
        None
    } else if name[end - 1] == '.' {
        Some(end - 1)
    } else {
        last_dot(name, end - 1)
    }
}

/// A file name without its extension. A dot in front starts no extension.
pub open spec fn stem(name: Seq<char>) -> Seq<char> {
    match last_dot(name, name.len() as int) {
        Some(at) => if at > 0 {
            name.take(at)
        } else {
            name
        },
        None => name,
    }
}

fn stem_of(name: &str) -> (text: String)
    ensures
        text@ == stem(name@),
{
    let chars = chars_of(name);
    let mut end: usize = chars.len();
    while end > 0
        invariant
            end <= chars@.len(),
            chars@ == name@,
            last_dot(name@, name@.len() as int) == last_dot(name@, end as int),
        decreases end,
    {
        if chars[end - 1] == '.' {
            if end - 1 > 0 {
                let text = text_of(chars.as_slice(), 0, end - 1);
                assert(text@ =~= name@.take(end - 1));
                return text;
            }
            return name.to_owned();
        }
        end = end - 1;
    }
    name.to_owned()
}

/// The tiles of a session, from its scans in their order. The sweeps of a
/// session alternate, exactly as during the run.
pub fn session_tiles(session: &str, scans: &Vec<FoundScan>) -> (tiles: Vec<TileInfo>)
    ensures
        tiles@.len() == scans@.len(),
        forall|i: int|
            0 <= i < tiles@.len() ==> {
                let tile = #[trigger] tiles@[i];
                let scan = scans@[i];
                &&& tile.path@ == scan.path@ && tile.session@ == session@
                &&& tile.label@ == stem(scan.name@)
                &&& tile.frames == scan.frames && tile.captured@ == scan.captured@
                &&& tile.reverse == swept_back(scan.name@, i)
            },
{
    let mut tiles: Vec<TileInfo> = Vec::new();
    let mut i: usize = 0;
    while i < scans.len()
        invariant
            i <= scans@.len(),
            tiles@.len() == i,
            forall|k: int|
                0 <= k < i ==> {
                    let tile = #[trigger] tiles@[k];
                    let scan = scans@[k];
                    &&& tile.path@ == scan.path@ && tile.session@ == session@
                    &&& tile.label@ == stem(scan.name@)
                    &&& tile.frames == scan.frames && tile.captured@ == scan.captured@
                    &&& tile.reverse == swept_back(scan.name@, k)
                },
        decreases scans@.len() - i,
    {
        tiles.push(
            TileInfo {
                path: scans[i].path.clone(),
                session: session.to_owned(),
                label: stem_of(scans[i].name.as_str()),
                frames: scans[i].frames,
                captured: scans[i].captured.clone(),
                reverse: is_swept_back(scans[i].name.as_str(), i),
            },
        );
        i = i + 1;
    }
    tiles
}

/// What the quick look found, and whether the scan is to be stacked.
#[derive(Clone, Copy, Debug, PartialEq, Eq)]
pub struct TileFacts {
    /// Width of the limb edge: the smaller, the sharper.
    pub sharpness: Option<Reading>,
    /// There is a picture.
    pub pictured: bool,
    pub selected: bool,
}

#[derive(Clone, Copy, Debug, PartialEq, Eq, Structural)]
pub enum SortBy {
    Sharpness,
    Captured,
}

/// A report of the quick look.
pub enum PreviewMsg {
    Started { index: usize },
    Step { index: usize, line: String },
    Preview { index: usize, sharpness: Option<Reading> },
    Failed { index: usize, error: String },
    Done,
}

/// The quick look under way.
pub struct Pass {
    pub running: bool,
    pub done: usize,
    /// Milliseconds that each finished scan took.
    pub durations: Vec<u64>,
    pub started: Option<u64>,
}

/// State of the review tab.
pub struct ProcessState {
    pub root: Option<String>,
    pub tiles: Vec<TileInfo>,
    pub facts: Vec<TileFacts>,
    pub states: Vec<TileState>,
    /// The tiles in the order in which they are shown.
    pub order: Vec<usize>,
    pub sort: SortBy,
    pub pass: Pass,
    pub stacking: bool,
    /// The user has touched the selection.
    pub user_picked: bool,
    pub enlarged: Option<usize>,
    pub status: String,
    pub log: Vec<String>,
}

// ---------------------------------------------------------------------------
// Ranking
// ---------------------------------------------------------------------------

/// A tile stands before another: it is sharper, or was captured earlier. Scans
/// that could not be measured come last.
pub open spec fn comes_before(
    tiles: Seq<TileInfo>,
    facts: Seq<TileFacts>,
    sort: SortBy,
    a: int,
    b: int,
) -> bool {
    match sort {
        SortBy::Sharpness => match (facts[a].sharpness, facts[b].sharpness) {
            (Some(x), Some(y)) => x.key < y.key,
            (Some(_), None) => true,
            _ => false,
        },
        SortBy::Captured => text_less(tiles[a].captured@, tiles[b].captured@),
    }
}

/// `order` holds each of the first `n` tiles once, and each stands behind what
/// comes before it; equals keep their order.
pub open spec fn is_ranking(
    order: Seq<usize>,
    tiles: Seq<TileInfo>,
    facts: Seq<TileFacts>,
    sort: SortBy,
    n: int,
) -> bool {
    &&& order.len() == n
    &&& forall|p: int| 0 <= p < n ==> 0 <= #[trigger] order[p] < n
    &&& forall|p: int, q: int| 0 <= p < q < n ==> #[trigger] order[p] != #[trigger] order[q]
    &&& forall|p: int, q: int|
        0 <= p < q < n ==> ranked_pair(
            tiles,
            facts,
            sort,
            #[trigger] order[p] as int,
            #[trigger] order[q] as int,
        )
}

pub open spec fn ranked_pair(
    tiles: Seq<TileInfo>,
    facts: Seq<TileFacts>,
    sort: SortBy,
    a: int,
    b: int,
) -> bool {
    comes_before(tiles, facts, sort, a, b) || (!comes_before(tiles, facts, sort, b, a) && a < b)
}

fn goes_before(
    tiles: &Vec<TileInfo>,
    facts: &Vec<TileFacts>,
    sort: SortBy,
    a: usize,
    b: usize,
) -> (r: bool)
    requires
        a < tiles@.len() && b < tiles@.len(),
        facts@.len() == tiles@.len(),
    ensures
        r == comes_before(tiles@, facts@, sort, a as int, b as int),
{
    match sort {
        SortBy::Sharpness => match (facts[a].sharpness, facts[b].sharpness) {
            (Some(x), Some(y)) => x.key < y.key,
            (Some(_), None) => true,
            (None, _) => false,
        },
        SortBy::Captured => text_before(tiles[a].captured.as_str(), tiles[b].captured.as_str()),
    }
}

proof fn lemma_order_is_strict(
    tiles: Seq<TileInfo>,
    facts: Seq<TileFacts>,
    sort: SortBy,
    a: int,
    b: int,
    c: int,
)
    ensures
        !(comes_before(tiles, facts, sort, a, b) && comes_before(tiles, facts, sort, b, a)),
        !comes_before(tiles, facts, sort, b, a) && !comes_before(tiles, facts, sort, c, b)
            ==> !comes_before(tiles, facts, sort, c, a),
{
    if sort is Captured {
        text_order_is_strict(tiles[a].captured@, tiles[b].captured@, tiles[c].captured@);
    }
}

/// Ranks the tiles.
pub fn ranking(tiles: &Vec<TileInfo>, facts: &Vec<TileFacts>, sort: SortBy) -> (order: Vec<usize>)
    requires
        facts@.len() == tiles@.len(),
    ensures
        is_ranking(order@, tiles@, facts@, sort, tiles@.len() as int),
{
    let mut order: Vec<usize> = Vec::new();
    let mut i: usize = 0;
    while i < tiles.len()
        invariant
            i <= tiles@.len(),
            facts@.len() == tiles@.len(),
            is_ranking(order@, tiles@, facts@, sort, i as int),
        decreases tiles@.len() - i,
    {
        let mut at: usize = i;
        while at > 0 && goes_before(tiles, facts, sort, i, order[at - 1])
            invariant
                at <= i < tiles@.len(),
                facts@.len() == tiles@.len(),
                is_ranking(order@, tiles@, facts@, sort, i as int),
                forall|k: int|
                    at <= k < i ==> comes_before(
                        tiles@,
                        facts@,
                        sort,
                        i as int,
                        #[trigger] order@[k] as int,
                    ),
            decreases at,
        {
            at = at - 1;
        }
        let ghost before = order@;
        order.insert(at, i);
        proof {
            let after = order@;
            assert(after =~= before.insert(at as int, i));
            assert forall|p: int, q: int| 0 <= p < q < i + 1 implies #[trigger] after[p]
                != #[trigger] after[q] && ranked_pair(
                tiles@,
                facts@,
                sort,
                after[p] as int,
                after[q] as int,
            ) by {
                let pp = if p < at {
                    p
                } else {
                    p - 1
                };
                let qq = if q < at {
                    q
                } else {
                    q - 1
                };
                if p == at {
                    assert(after[q] == before[qq]);
                    assert(comes_before(tiles@, facts@, sort, i as int, before[qq] as int));
                } else if q == at {
                    assert(after[p] == before[pp]);
                    let last = before[at - 1] as int;
                    if pp < at - 1 {
                        assert(ranked_pair(tiles@, facts@, sort, before[pp] as int, last));
                        lemma_order_is_strict(
                            tiles@,
                            facts@,
                            sort,
                            before[pp] as int,
                            last,
                            before[pp] as int,
                        );
                        lemma_order_is_strict(
                            tiles@,
                            facts@,
                            sort,
                            before[pp] as int,
                            last,
                            i as int,
                        );
                    }
                } else {
                    assert(after[p] == before[pp] && after[q] == before[qq]);
                }
            }
            assert forall|p: int| 0 <= p < i + 1 implies 0 <= #[trigger] after[p] < i + 1 by {
                if p < at {
                    assert(after[p] == before[p]);
                } else if p > at {
                    assert(after[p] == before[p - 1]);
                }
            }
        }
        i = i + 1;
    }
    order
}

/// The sharpest scans come first, and the ones that could not be measured last.
pub proof fn failures_sink(
    order: Seq<usize>,
    tiles: Seq<TileInfo>,
    facts: Seq<TileFacts>,
    p: int,
    q: int,
)
    requires
        is_ranking(order, tiles, facts, SortBy::Sharpness, facts.len() as int),
        0 <= p < q < facts.len(),
        facts[order[q] as int].sharpness is Some,
    ensures
        facts[order[p] as int].sharpness is Some,
        facts[order[p] as int].sharpness->0.key <= facts[order[q] as int].sharpness->0.key,
{
    assert(ranked_pair(tiles, facts, SortBy::Sharpness, order[p] as int, order[q] as int));
}

/// Number of measured scans.
pub open spec fn measured(facts: Seq<TileFacts>) -> nat
    decreases facts.len(),
{
    if facts.len() == 0 {
        0
    } else {
        measured(facts.drop_last()) + if facts.last().sharpness is Some {
            1nat
        } else {
            0nat
        }
    }
}

pub open spec fn selected(facts: Seq<TileFacts>) -> nat
    decreases facts.len(),
{
    if facts.len() == 0 {
        0
    } else {
        selected(facts.drop_last()) + if facts.last().selected {
            1nat
        } else {
            0nat
        }
    }
}

/// The better half of the measured scans is selected, and nothing else.
pub open spec fn better_half(tiles: Seq<TileInfo>, before: Seq<TileFacts>, after: Seq<TileFacts>) -> bool {
    &&& after.len() == before.len()
    &&& exists|order: Seq<usize>|
        {
            &&& #[trigger] is_ranking(
                order,
                tiles,
                before,
                SortBy::Sharpness,
                before.len() as int,
            )
            &&& forall|p: int|
                0 <= p < before.len() ==> after[#[trigger] order[p] as int] == (TileFacts {
                    selected: p < (measured(before) + 1) / 2
                        && before[order[p] as int].sharpness is Some,
                    ..before[order[p] as int]
                })
        }
}

// ---------------------------------------------------------------------------
// The tab
// ---------------------------------------------------------------------------

/// The tiles that are to be stacked, in the order in which they are shown.
pub open spec fn chosen(order: Seq<usize>, facts: Seq<TileFacts>) -> Seq<usize>
    decreases order.len(),
{
    if order.len() == 0 {
        seq![]
    } else if order.last() < facts.len() && facts[order.last() as int].selected {
        chosen(order.drop_last(), facts).push(order.last())
    } else {
        chosen(order.drop_last(), facts)
    }
}

pub open spec fn total(values: Seq<u64>) -> nat
    decreases values.len(),
{
    if values.len() == 0 {
        0
    } else {
        total(values.drop_last()) + values.last() as nat
    }
}

/// Time in minutes and seconds.
pub open spec fn duration_text(seconds: nat) -> Seq<char> {
    if seconds < 60 {
        decimal(seconds) + "s"@
    } else {
        decimal(seconds / 60) + "m "@ + padded(seconds % 60, 2) + "s"@
    }
}

/// Milliseconds to the nearest second; less than nothing is nothing.
pub open spec fn rounded_seconds(ms: int) -> nat {
    if ms < 0 {
        0
    } else {
        ((ms + 500) / 1000) as nat
    }
}

/// A wait in words, of at most as many seconds as 64 bits hold.
pub open spec fn wait_text(ms: int) -> Seq<char> {
    duration_text(
        if rounded_seconds(ms) > u64::MAX {
            u64::MAX as nat
        } else {
            rounded_seconds(ms)
        },
    )
}

/// A part of a sum, taken apart so that every product fits.
proof fn lemma_shared_out(sum: int, left: int, n: int)
    requires
        1 <= n <= u64::MAX,
        0 <= left <= u64::MAX,
        0 <= sum <= n * u64::MAX,
    ensures
        sum * left / n == (sum / n) * left + (sum % n) * left / n,
        0 <= (sum / n) * left <= u64::MAX * u64::MAX,
        0 <= (sum % n) * left <= u64::MAX * u64::MAX,
        0 <= (sum % n) * left / n <= u64::MAX,
{
    let q = sum / n;
    let r = sum % n;
    vstd::arithmetic::div_mod::lemma_fundamental_div_mod(sum, n);
    vstd::arithmetic::div_mod::lemma_mod_bound(sum, n);
    assert(0 <= q <= u64::MAX) by (nonlinear_arith)
        requires
            sum == n * q + r,
            0 <= r < n,
            0 <= sum <= n * u64::MAX,
    ;
    assert(0 <= q * left <= u64::MAX * u64::MAX) by (nonlinear_arith)
        requires
            0 <= q <= u64::MAX,
            0 <= left <= u64::MAX,
    ;
    assert(0 <= r * left <= n * left && r * left <= u64::MAX * u64::MAX) by (nonlinear_arith)
        requires
            0 <= r < n <= u64::MAX,
            0 <= left <= u64::MAX,
    ;
    vstd::arithmetic::div_mod::lemma_hoist_over_denominator(r * left, q * left, n as nat);
    assert(sum * left == r * left + (q * left) * n) by (nonlinear_arith)
        requires
            sum == n * q + r,
    ;
    assert(0 <= r * left / n <= left) by (nonlinear_arith)
        requires
            0 <= r * left <= n * left,
            n >= 1,
    ;
}

/// A wait in words.
pub fn human_duration(ms: i64) -> (text: String)
    ensures
        text@ == duration_text(rounded_seconds(ms as int)),
{
    let seconds: u64 = if ms < 0 {
        0
    } else {
        (ms as u64 + 500) / 1000
    };
    duration_words(seconds)
}

fn duration_words(seconds: u64) -> (text: String)
    ensures
        text@ == duration_text(seconds as nat),
{
    if seconds < 60 {
        joined2(decimal_string(seconds).as_str(), "s")
    } else {
        let mut t = joined2(decimal_string(seconds / 60).as_str(), "m ");
        t.append(padded_string(seconds % 60, 2).as_str());
        t.append("s");
        t
    }
}

/// A text trimmed to so many characters, the last of them an ellipsis where
/// there is room for one.
pub open spec fn trimmed_to(text: Seq<char>, max: int) -> Seq<char> {
    if text.len() <= max {
        text
    } else if max < 1 {
        seq![]
    } else {
        text.take(max - 1) + seq!['…']
    }
}

pub fn ellipsize(text: &str, max: usize) -> (short: String)
    ensures
        short@ == trimmed_to(text@, max as int),
        short@.len() <= max,
{
    let n: usize = text.unicode_len();
    if n <= max {
        return text.to_owned();
    }
    if max == 0 {
        return String::new();
    }
    let chars = chars_of(text);
    let keep: usize = max - 1;
    let mut short = text_of(chars.as_slice(), 0, keep);
    assert(text@.subrange(0, keep as int) =~= text@.take(keep as int));
    proof {
        reveal_strlit("…");
        assert("…"@ =~= seq!['…']);
    }
    short.append("…");
    short
}

/// Settings of the quick look: everything is off that only a final image needs.
#[derive(Clone, Copy, Debug, PartialEq, Eq, Structural)]
pub struct QuickOptions {
    pub flip_x: bool,
    pub verbose: bool,
    pub deconv: bool,
    pub denoise: bool,
    pub wiener: bool,
    pub temporal_nlm: bool,
    pub burst_repair: bool,
    pub x_registration: bool,
    pub profile_extraction: bool,
    pub filtered_warp: bool,
    pub corrections: QuickCorrections,
}

#[derive(Clone, Copy, Debug, PartialEq, Eq, Structural)]
pub struct QuickCorrections {
    pub transparency: bool,
    pub transversalium: bool,
    pub jitter: bool,
    pub jitter_fast: bool,
    pub jitter_drift: bool,
}

pub fn quick_options(reverse: bool) -> (o: QuickOptions)
    ensures
        o == (QuickOptions {
            flip_x: reverse,
            verbose: false,
            deconv: false,
            denoise: false,
            wiener: false,
            temporal_nlm: false,
            burst_repair: false,
            x_registration: false,
            profile_extraction: false,
            filtered_warp: false,
            corrections: QuickCorrections {
                transparency: false,
                transversalium: false,
                jitter: true,
                jitter_fast: true,
                jitter_drift: false,
            },
        }),
{
    QuickOptions {
        flip_x: reverse,
        verbose: false,
        deconv: false,
        denoise: false,
        wiener: false,
        temporal_nlm: false,
        burst_repair: false,
        x_registration: false,
        profile_extraction: false,
        filtered_warp: false,
        corrections: QuickCorrections {
            transparency: false,
            transversalium: false,
            jitter: true,
            jitter_fast: true,
            jitter_drift: false,
        },
    }
}

/// Places of the sorted values that the display is stretched between: half a
/// percent from either end.
pub fn stretch_places(n: usize) -> (r: (usize, usize))
    requires
        n > 0,
    ensures
        r.0 == n / 200 && r.1 == n - 1 - n / 200,
        r.0 <= r.1 < n || n <= 2 * (n / 200),
        r.0 < n && r.1 < n,
{
    (n / 200, n - 1 - n / 200)
}

impl ProcessState {
    /// What every operation keeps.
    pub open spec fn valid(&self) -> bool {
        &&& self.facts@.len() == self.tiles@.len()
        &&& self.states@.len() == self.tiles@.len()
        &&& self.pass.durations@.len() <= self.pass.done
    }

    pub fn new() -> (s: ProcessState)
        ensures
            s.valid(),
            s.root is None && s.tiles@.len() == 0 && s.order@.len() == 0,
            s.sort == SortBy::Sharpness,
            !s.pass.running && s.pass.done == 0 && s.pass.durations@.len() == 0
                && s.pass.started is None,
            !s.stacking && !s.user_picked && s.enlarged is None && s.log@.len() == 0,
            s.status@ == "Choose a folder of captures to review"@,
    {
        ProcessState {
            root: None,
            tiles: Vec::new(),
            facts: Vec::new(),
            states: Vec::new(),
            order: Vec::new(),
            sort: SortBy::Sharpness,
            pass: Pass { running: false, done: 0, durations: Vec::new(), started: None },
            stacking: false,
            user_picked: false,
            enlarged: None,
            status: "Choose a folder of captures to review".to_owned(),
            log: Vec::new(),
        }
    }

    /// Number of scans to be stacked.
    pub fn selected_count(&self) -> (n: usize)
        requires
            self.valid(),
        ensures
            n == selected(self.facts@),
    {
        let mut n: usize = 0;
        let mut i: usize = 0;
        assert(self.facts@.take(0) =~= Seq::<TileFacts>::empty());
        while i < self.facts.len()
            invariant
                i <= self.facts@.len(),
                n <= i,
                n == selected(self.facts@.take(i as int)),
            decreases self.facts@.len() - i,
        {
            assert(self.facts@.take(i + 1).drop_last() =~= self.facts@.take(i as int));
            if self.facts[i].selected {
                n = n + 1;
            }
            i = i + 1;
        }
        assert(self.facts@.take(self.facts@.len() as int) =~= self.facts@);
        n
    }

    /// Milliseconds that the rest of the quick look will take, from the mean of
    /// what is done. Nothing is said before the first scan and after the last.
    pub open spec fn spec_remaining(&self) -> Option<int> {
        let n = self.pass.durations@.len();
        if n == 0 || self.tiles@.len() <= self.pass.done {
            None
        } else {
            Some((total(self.pass.durations@) * (self.tiles@.len() - self.pass.done)) as int / n as int)
        }
    }

    pub fn remaining_estimate(&self) -> (text: Option<String>)
        requires
            self.valid(),
        ensures
            match self.spec_remaining() {
                None => text is None,
                Some(ms) => text is Some && text->0@ == wait_text(ms),
            },
    {
        let n: usize = self.pass.durations.len();
        let count: usize = self.tiles.len();
        if n == 0 || count <= self.pass.done {
            return None;
        }
        let left: u128 = (count - self.pass.done) as u128;
        let mut sum: u128 = 0;
        let mut i: usize = 0;
        assert(self.pass.durations@.take(0) =~= Seq::<u64>::empty());
        while i < n
            invariant
                i <= n,
                n == self.pass.durations@.len(),
                sum == total(self.pass.durations@.take(i as int)),
                sum <= i * u64::MAX,
            decreases n - i,
        {
            assert(self.pass.durations@.take(i + 1).drop_last() =~= self.pass.durations@.take(
                i as int,
            ));
            assert(i * u64::MAX + u64::MAX == (i + 1) * u64::MAX) by (nonlinear_arith);
            assert((i + 1) * u64::MAX <= u64::MAX * u64::MAX) by (nonlinear_arith)
                requires
                    i + 1 <= u64::MAX,
            ;
            sum = sum + self.pass.durations[i] as u128;
            i = i + 1;
        }
        assert(self.pass.durations@.take(n as int) =~= self.pass.durations@);
        let whole: u128 = sum / n as u128;
        let rest: u128 = sum % n as u128;
        proof {
            lemma_shared_out(sum as int, left as int, n as int);
        }
        let ms: u128 = whole * left + rest * left / n as u128;
        let rounded: u128 = (ms + 500) / 1000;
        let seconds: u64 = if rounded > u64::MAX as u128 {
            u64::MAX
        } else {
            rounded as u64
        };
        Some(duration_words(seconds))
    }

    /// The words of the quick look's progress.
    pub open spec fn spec_progress(&self) -> Seq<char> {
        "Quick look: "@ + decimal(self.pass.done as nat) + "/"@ + decimal(self.tiles@.len())
            + " scans"@ + (match self.spec_remaining() {
            Some(ms) => " · about "@ + wait_text(ms) + " left"@,
            None => ""@,
        })
    }

    fn progress_words(&self) -> (text: String)
        requires
            self.valid(),
        ensures
            text@ == self.spec_progress(),
    {
        let mut t = joined3("Quick look: ", decimal_string(self.pass.done as u64).as_str(), "/");
        t.append(decimal_string(self.tiles.len() as u64).as_str());
        t.append(" scans");
        let rest: String = match self.remaining_estimate() {
            Some(left) => joined3(" · about ", left.as_str(), " left"),
            None => "".to_owned(),
        };
        t.append(rest.as_str());
        t
    }

    /// Ranks the tiles anew.
    pub fn resort(&mut self)
        requires
            old(self).valid(),
        ensures
            final(self).valid(),
            is_ranking(
                final(self).order@,
                old(self).tiles@,
                old(self).facts@,
                old(self).sort,
                old(self).tiles@.len() as int,
            ),
            *final(self) == (ProcessState { order: final(self).order, ..*old(self) }),
    {
        self.order = ranking(&self.tiles, &self.facts, self.sort);
    }

    /// Shows the tiles in another order.
    pub fn sort_by(&mut self, sort: SortBy)
        requires
            old(self).valid(),
        ensures
            final(self).valid(),
            is_ranking(
                final(self).order@,
                old(self).tiles@,
                old(self).facts@,
                sort,
                old(self).tiles@.len() as int,
            ),
            *final(self) == (ProcessState { sort, order: final(self).order, ..*old(self) }),
    {
        self.sort = sort;
        self.resort();
    }

    /// Selects the better half of the measured scans, unless the user has
    /// chosen.
    pub fn pretick(&mut self)
        requires
            old(self).valid(),
        ensures
            final(self).valid(),
            if old(self).user_picked {
                *final(self) == *old(self)
            } else {
                better_half(old(self).tiles@, old(self).facts@, final(self).facts@)
            },
            *final(self) == (ProcessState { facts: final(self).facts, ..*old(self) }),
    {
        if self.user_picked {
            return;
        }
        let order = ranking(&self.tiles, &self.facts, SortBy::Sharpness);
        let n: usize = self.facts.len();
        let mut count: usize = 0;
        let mut i: usize = 0;
        let ghost before = self.facts@;
        assert(before.take(0) =~= Seq::<TileFacts>::empty());
        while i < n
            invariant
                i <= n,
                *self == *old(self),
                before == self.facts@,
                n == before.len(),
                count <= i,
                count == measured(before.take(i as int)),
            decreases n - i,
        {
            assert(before.take(i + 1).drop_last() =~= before.take(i as int));
            if self.facts[i].sharpness.is_some() {
                count = count + 1;
            }
            i = i + 1;
        }
        assert(before.take(n as int) =~= before);
        let keep: usize = count / 2 + count % 2;
        let mut facts: Vec<TileFacts> = Vec::new();
        let mut k: usize = 0;
        while k < n
            invariant
                k <= n,
                *self == *old(self),
                before == self.facts@,
                n == before.len(),
                facts@ == before.take(k as int),
            decreases n - k,
        {
            facts.push(self.facts[k]);
            assert(facts@ =~= before.take(k + 1));
            k = k + 1;
        }
        assert(before.take(n as int) =~= before);
        let mut p: usize = 0;
        while p < n
            invariant
                p <= n,
                *self == *old(self),
                before == self.facts@,
                n == before.len(),
                keep == (measured(before) + 1) / 2,
                is_ranking(order@, self.tiles@, before, SortBy::Sharpness, n as int),
                facts@.len() == n,
                forall|q: int|
                    0 <= q < p ==> facts@[#[trigger] order@[q] as int] == (TileFacts {
                        selected: q < keep && before[order@[q] as int].sharpness is Some,
                        ..before[order@[q] as int]
                    }),
                forall|q: int|
                    p <= q < n ==> facts@[#[trigger] order@[q] as int] == before[order@[q] as int],
            decreases n - p,
        {
            let at: usize = order[p];
            assert(order@[p as int] == at);
            let fact: TileFacts = facts[at];
            facts.set(
                at,
                TileFacts { selected: p < keep && fact.sharpness.is_some(), ..fact },
            );
            p = p + 1;
        }
        self.facts = facts;
    }

    /// Selects everything that has a picture.
    pub fn select_all(&mut self)
        requires
            old(self).valid(),
        ensures
            final(self).valid(),
            final(self).facts@.len() == old(self).facts@.len(),
            forall|i: int|
                0 <= i < old(self).facts@.len() ==> #[trigger] final(self).facts@[i] == (TileFacts {
                    selected: old(self).facts@[i].pictured,
                    ..old(self).facts@[i]
                }),
            *final(self) == (ProcessState {
                facts: final(self).facts,
                user_picked: true,
                ..*old(self)
            }),
    {
        self.user_picked = true;
        let n: usize = self.facts.len();
        let mut i: usize = 0;
        while i < n
            invariant
                i <= n,
                n == old(self).facts@.len(),
                self.facts@.len() == n,
                *self == (ProcessState { facts: self.facts, user_picked: true, ..*old(self) }),
                forall|k: int|
                    0 <= k < i ==> #[trigger] self.facts@[k] == (TileFacts {
                        selected: old(self).facts@[k].pictured,
                        ..old(self).facts@[k]
                    }),
                forall|k: int| i <= k < n ==> #[trigger] self.facts@[k] == old(self).facts@[k],
            decreases n - i,
        {
            let fact: TileFacts = self.facts[i];
            self.facts.set(i, TileFacts { selected: fact.pictured, ..fact });
            i = i + 1;
        }
    }

    /// Selects nothing.
    pub fn select_none(&mut self)
        requires
            old(self).valid(),
        ensures
            final(self).valid(),
            final(self).facts@.len() == old(self).facts@.len(),
            forall|i: int|
                0 <= i < old(self).facts@.len() ==> #[trigger] final(self).facts@[i] == (TileFacts {
                    selected: false,
                    ..old(self).facts@[i]
                }),
            *final(self) == (ProcessState {
                facts: final(self).facts,
                user_picked: true,
                ..*old(self)
            }),
    {
        self.user_picked = true;
        let n: usize = self.facts.len();
        let mut i: usize = 0;
        while i < n
            invariant
                i <= n,
                n == old(self).facts@.len(),
                self.facts@.len() == n,
                *self == (ProcessState { facts: self.facts, user_picked: true, ..*old(self) }),
                forall|k: int|
                    0 <= k < i ==> #[trigger] self.facts@[k] == (TileFacts {
                        selected: false,
                        ..old(self).facts@[k]
                    }),
                forall|k: int| i <= k < n ==> #[trigger] self.facts@[k] == old(self).facts@[k],
            decreases n - i,
        {
            let fact: TileFacts = self.facts[i];
            self.facts.set(i, TileFacts { selected: false, ..fact });
            i = i + 1;
        }
    }

    /// Selects the better half, whatever was chosen before.
    pub fn select_best_half(&mut self)
        requires
            old(self).valid(),
        ensures
            final(self).valid(),
            better_half(old(self).tiles@, old(self).facts@, final(self).facts@),
            *final(self) == (ProcessState {
                facts: final(self).facts,
                user_picked: true,
                ..*old(self)
            }),
    {
        self.user_picked = false;
        self.pretick();
        self.user_picked = true;
    }

    /// A click on a tile: one with a picture changes sides.
    pub fn toggle(&mut self, index: usize)
        requires
            old(self).valid(),
        ensures
            final(self).valid(),
            if index < old(self).facts@.len() && old(self).facts@[index as int].pictured {
                &&& final(self).facts@ == old(self).facts@.update(
                    index as int,
                    TileFacts {
                        selected: !old(self).facts@[index as int].selected,
                        ..old(self).facts@[index as int]
                    },
                )
                &&& *final(self) == (ProcessState {
                    facts: final(self).facts,
                    user_picked: true,
                    ..*old(self)
                })
            } else {
                *final(self) == *old(self)
            },
    {
        if index < self.facts.len() && self.facts[index].pictured {
            let fact: TileFacts = self.facts[index];
            self.facts.set(index, TileFacts { selected: !fact.selected, ..fact });
            self.user_picked = true;
        }
    }

    /// Forgets everything and takes the scans of a folder in.
    pub fn load_folder(&mut self, root: String, tiles: Vec<TileInfo>)
        requires
            old(self).valid(),
        ensures
            final(self).valid(),
            final(self).root == Some(root) && final(self).tiles == tiles,
            final(self).facts@.len() == tiles@.len(),
            forall|i: int|
                0 <= i < tiles@.len() ==> #[trigger] final(self).facts@[i] == (TileFacts {
                    sharpness: None,
                    pictured: false,
                    selected: false,
                }),
            forall|i: int| 0 <= i < tiles@.len() ==> #[trigger] final(self).states@[i] is Queued,
            is_ranking(
                final(self).order@,
                tiles@,
                final(self).facts@,
                old(self).sort,
                tiles@.len() as int,
            ),
            final(self).pass.running == (tiles@.len() > 0),
            final(self).pass.done == 0 && final(self).pass.durations@.len() == 0 && final(self).pass.started is None,
            !final(self).user_picked && final(self).enlarged is None,
            final(self).sort == old(self).sort && final(self).stacking == old(self).stacking,
            final(self).log == old(self).log,
            final(self).status@ == (if tiles@.len() == 0 {
                "No scan-NN.ser files found in that folder or its subfolders"@
            } else {
                "Quick look: 0/"@ + decimal(tiles@.len()) + " scans"@
            }),
    {
        let n: usize = tiles.len();
        let mut facts: Vec<TileFacts> = Vec::new();
        let mut states: Vec<TileState> = Vec::new();
        let mut i: usize = 0;
        while i < n
            invariant
                i <= n,
                facts@.len() == i,
                states@.len() == i,
                forall|k: int|
                    0 <= k < i ==> #[trigger] facts@[k] == (TileFacts {
                        sharpness: None,
                        pictured: false,
                        selected: false,
                    }),
                forall|k: int| 0 <= k < i ==> #[trigger] states@[k] is Queued,
            decreases n - i,
        {
            facts.push(TileFacts { sharpness: None, pictured: false, selected: false });
            states.push(TileState::Queued);
            i = i + 1;
        }
        self.tiles = tiles;
        self.facts = facts;
        self.states = states;
        self.enlarged = None;
        self.user_picked = false;
        self.pass = Pass { running: n > 0, done: 0, durations: Vec::new(), started: None };
        self.root = Some(root);
        self.resort();
        self.status = if n == 0 {
            "No scan-NN.ser files found in that folder or its subfolders".to_owned()
        } else {
            joined3("Quick look: 0/", decimal_string(n as u64).as_str(), " scans")
        };
    }

    fn set_state(&mut self, index: usize, state: TileState)
        requires
            old(self).valid(),
        ensures
            final(self).valid(),
            final(self).states@ == (if index < old(self).states@.len() {
                old(self).states@.update(index as int, state)
            } else {
                old(self).states@
            }),
            *final(self) == (ProcessState { states: final(self).states, ..*old(self) }),
    {
        if index < self.states.len() {
            self.states.set(index, state);
        }
    }

    /// The pass after one more scan.
    pub open spec fn one_more(before: Pass, after: Pass, now: u64) -> bool {
        &&& after.running == before.running
        &&& after.done == before.done + 1
        &&& after.started is None
        &&& after.durations@ == (match before.started {
            Some(start) => before.durations@.push(taken_ms(start, now)),
            None => before.durations@,
        })
    }

    fn finish_one(&mut self, now: u64)
        requires
            old(self).valid(),
            old(self).pass.done < usize::MAX,
        ensures
            final(self).valid(),
            Self::one_more(old(self).pass, final(self).pass, now),
            final(self).status@ == final(self).spec_progress(),
            *final(self) == (ProcessState {
                pass: final(self).pass,
                status: final(self).status,
                ..*old(self)
            }),
    {
        if let Some(start) = self.pass.started {
            let spent: u64 = if now >= start {
                now - start
            } else {
                0
            };
            self.pass.durations.push(spent);
        }
        self.pass.started = None;
        self.pass.done = self.pass.done + 1;
        self.status = self.progress_words();
    }

    /// Takes a report of the quick look.
    pub fn on_preview(&mut self, message: PreviewMsg, now: u64)
        requires
            old(self).valid(),
            old(self).pass.done < usize::MAX,
        ensures
            final(self).valid(),
            match message {
                PreviewMsg::Started { index } => {
                    &&& final(self).pass == (Pass { started: Some(now), ..old(self).pass })
                    &&& index < old(self).tiles@.len() ==> {
                        &&& final(self).states@[index as int] matches TileState::Working(line)
                        &&& line@ == "starting"@
                        &&& final(self).states@ == old(self).states@.update(
                            index as int,
                            final(self).states@[index as int],
                        )
                    }
                    &&& index >= old(self).tiles@.len() ==> final(self).states@ == old(self).states@
                    &&& *final(self) == (ProcessState {
                        states: final(self).states,
                        pass: final(self).pass,
                        ..*old(self)
                    })
                },
                PreviewMsg::Step { index, line } => {
                    &&& final(self).states@ == (if index < old(self).tiles@.len() {
                        old(self).states@.update(index as int, TileState::Working(line))
                    } else {
                        old(self).states@
                    })
                    &&& *final(self) == (ProcessState { states: final(self).states, ..*old(self) })
                },
                PreviewMsg::Preview { index, sharpness } => {
                    &&& final(self).states@ == (if index < old(self).tiles@.len() {
                        old(self).states@.update(index as int, TileState::Ready)
                    } else {
                        old(self).states@
                    })
                    &&& final(self).facts@ == (if index < old(self).tiles@.len() {
                        old(self).facts@.update(
                            index as int,
                            TileFacts { sharpness, pictured: true, ..old(self).facts@[index as int] },
                        )
                    } else {
                        old(self).facts@
                    })
                    &&& Self::one_more(old(self).pass, final(self).pass, now)
                    &&& final(self).status@ == final(self).spec_progress()
                    &&& *final(self) == (ProcessState {
                        states: final(self).states,
                        facts: final(self).facts,
                        pass: final(self).pass,
                        status: final(self).status,
                        ..*old(self)
                    })
                },
                PreviewMsg::Failed { index, error } => {
                    &&& final(self).states@ == (if index < old(self).tiles@.len() {
                        old(self).states@.update(index as int, TileState::Failed(error))
                    } else {
                        old(self).states@
                    })
                    &&& Self::one_more(old(self).pass, final(self).pass, now)
                    &&& final(self).status@ == final(self).spec_progress()
                    &&& *final(self) == (ProcessState {
                        states: final(self).states,
                        pass: final(self).pass,
                        status: final(self).status,
                        ..*old(self)
                    })
                },
                PreviewMsg::Done => {
                    &&& final(self).pass == (Pass {
                        running: false,
                        started: None,
                        ..old(self).pass
                    })
                    &&& is_ranking(
                        final(self).order@,
                        old(self).tiles@,
                        old(self).facts@,
                        old(self).sort,
                        old(self).tiles@.len() as int,
                    )
                    &&& if old(self).user_picked {
                        final(self).facts == old(self).facts
                    } else {
                        better_half(old(self).tiles@, old(self).facts@, final(self).facts@)
                    }
                    &&& final(self).status@ == decimal(old(self).tiles@.len())
                        + " scans reviewed — "@ + decimal(selected(final(self).facts@))
                        + " selected"@
                    &&& *final(self) == (ProcessState {
                        order: final(self).order,
                        facts: final(self).facts,
                        pass: final(self).pass,
                        status: final(self).status,
                        ..*old(self)
                    })
                },
            },
    {
        match message {
            PreviewMsg::Started { index } => {
                self.pass.started = Some(now);
                self.set_state(index, TileState::Working("starting".to_owned()));
            },
            PreviewMsg::Step { index, line } => {
                self.set_state(index, TileState::Working(line));
            },
            PreviewMsg::Preview { index, sharpness } => {
                if index < self.facts.len() {
                    let fact: TileFacts = self.facts[index];
                    self.facts.set(index, TileFacts { sharpness, pictured: true, ..fact });
                }
                self.set_state(index, TileState::Ready);
                self.finish_one(now);
            },
            PreviewMsg::Failed { index, error } => {
                self.set_state(index, TileState::Failed(error));
                self.finish_one(now);
            },
            PreviewMsg::Done => {
                self.pass.running = false;
                self.pass.started = None;
                self.resort();
                self.pretick();
                let mut t = joined2(
                    decimal_string(self.tiles.len() as u64).as_str(),
                    " scans reviewed — ",
                );
                t.append(decimal_string(self.selected_count() as u64).as_str());
                t.append(" selected");
                self.status = t;
            },
        }
    }

    fn note(&mut self, line: &str)
        requires
            old(self).valid(),
        ensures
            final(self).valid(),
            final(self).status@ == line@,
            texts(final(self).log@) == texts(old(self).log@).push(line@),
            *final(self) == (ProcessState {
                status: final(self).status,
                log: final(self).log,
                ..*old(self)
            }),
    {
        self.status = line.to_owned();
        self.log.push(line.to_owned());
        assert(texts(self.log@) =~= texts(old(self).log@).push(line@));
    }

    /// Takes a report of the stacking.
    pub fn on_stack(&mut self, message: ProcessMessage)
        requires
            old(self).valid(),
        ensures
            final(self).valid(),
            ({
                let line = match message {
                    ProcessMessage::Log(line) => line@,
                    ProcessMessage::Done => "Stack complete"@,
                    ProcessMessage::Failed(error) => "Stacking failed: "@ + error@,
                };
                &&& final(self).status@ == line
                &&& texts(final(self).log@) == texts(old(self).log@).push(line)
                &&& *final(self) == (ProcessState {
                    stacking: old(self).stacking && message is Log,
                    status: final(self).status,
                    log: final(self).log,
                    ..*old(self)
                })
            }),
    {
        match message {
            ProcessMessage::Log(line) => {
                self.note(line.as_str());
            },
            ProcessMessage::Done => {
                self.stacking = false;
                self.note("Stack complete");
            },
            ProcessMessage::Failed(error) => {
                self.stacking = false;
                let line = joined2("Stacking failed: ", error.as_str());
                self.note(line.as_str());
            },
        }
    }

    /// Starts stacking the selected scans; gives them in the order in which
    /// they are shown.
    pub fn start_stack(&mut self) -> (files: Option<Vec<usize>>)
        requires
            old(self).valid(),
        ensures
            final(self).valid(),
            ({
                let list = chosen(old(self).order@, old(self).facts@);
                if list.len() == 0 {
                    &&& files is None
                    &&& final(self).status@ == "Tick at least one scan first"@
                    &&& *final(self) == (ProcessState { status: final(self).status, ..*old(self) })
                } else if old(self).root is None {
                    files is None && *final(self) == *old(self)
                } else {
                    let line = "Reconstructing and stacking "@ + decimal(list.len()) + " scans"@;
                    &&& files matches Some(f)
                    &&& f@ == list
                    &&& final(self).status@ == line
                    &&& texts(final(self).log@) == seq![line]
                    &&& *final(self) == (ProcessState {
                        stacking: true,
                        status: final(self).status,
                        log: final(self).log,
                        ..*old(self)
                    })
                }
            }),
    {
        let mut files: Vec<usize> = Vec::new();
        let mut p: usize = 0;
        assert(self.order@.take(0) =~= Seq::<usize>::empty());
        while p < self.order.len()
            invariant
                p <= self.order@.len(),
                *self == *old(self),
                self.valid(),
                files@ == chosen(self.order@.take(p as int), self.facts@),
            decreases self.order@.len() - p,
        {
            assert(self.order@.take(p + 1).drop_last() =~= self.order@.take(p as int));
            let index: usize = self.order[p];
            if index < self.facts.len() && self.facts[index].selected {
                files.push(index);
            }
            p = p + 1;
        }
        assert(self.order@.take(self.order@.len() as int) =~= self.order@);
        if files.len() == 0 {
            self.status = "Tick at least one scan first".to_owned();
            return None;
        }
        if self.root.is_none() {
            return None;
        }
        self.stacking = true;
        let line = joined3(
            "Reconstructing and stacking ",
            decimal_string(files.len() as u64).as_str(),
            " scans",
        );
        self.log = Vec::new();
        assert(texts(self.log@) =~= seq![]);
        self.note(line.as_str());
        assert(texts(self.log@) =~= seq![line@]);
        Some(files)
    }
}

/// Time that a scan took, in milliseconds.
pub open spec fn taken_ms(start: u64, now: u64) -> u64 {
    if now < start {
        0
    } else {
        (now - start) as u64
    }
}

// ---------------------------------------------------------------------------
// What a review promises
// ---------------------------------------------------------------------------

/// In capture order no scan stands behind one that was captured later.
pub proof fn captured_first_comes_first(
    order: Seq<usize>,
    tiles: Seq<TileInfo>,
    facts: Seq<TileFacts>,
    p: int,
    q: int,
)
    requires
        is_ranking(order, tiles, facts, SortBy::Captured, facts.len() as int),
        0 <= p < q < facts.len(),
    ensures
        !text_less(tiles[order[q] as int].captured@, tiles[order[p] as int].captured@),
        tiles[order[q] as int].captured@ == tiles[order[p] as int].captured@ ==> order[p]
            < order[q],
{
    let a = order[p] as int;
    let b = order[q] as int;
    assert(ranked_pair(tiles, facts, SortBy::Captured, a, b));
    lemma_order_is_strict(tiles, facts, SortBy::Captured, a, b, a);
}

/// How many scans were measured: none, some, or all of them.
pub proof fn measured_counts_the_measured(facts: Seq<TileFacts>)
    ensures
        measured(facts) <= facts.len(),
        measured(facts) == facts.len() <==> (forall|i: int|
            0 <= i < facts.len() ==> (#[trigger] facts[i]).sharpness is Some),
        measured(facts) == 0 <==> (forall|i: int|
            0 <= i < facts.len() ==> (#[trigger] facts[i]).sharpness is None),
    decreases facts.len(),
{
    if facts.len() > 0 {
        let less = facts.drop_last();
        measured_counts_the_measured(less);
        let last = facts.len() - 1;
        assert(facts[last] == facts.last());
        assert(forall|i: int| 0 <= i < less.len() ==> less[i] == facts[i]);
        if forall|i: int| 0 <= i < facts.len() ==> (#[trigger] facts[i]).sharpness is Some {
            assert forall|i: int| 0 <= i < less.len() implies (#[trigger] less[i]).sharpness is Some by {
                assert(less[i] == facts[i]);
            }
        }
        if forall|i: int| 0 <= i < facts.len() ==> (#[trigger] facts[i]).sharpness is None {
            assert forall|i: int| 0 <= i < less.len() implies (#[trigger] less[i]).sharpness is None by {
                assert(less[i] == facts[i]);
            }
        }
        if measured(facts) == facts.len() {
            assert forall|i: int| 0 <= i < facts.len() implies (#[trigger] facts[i]).sharpness is Some by {
                if i < last {
                    assert(less[i] == facts[i]);
                }
            }
        }
        if measured(facts) == 0 {
            assert forall|i: int| 0 <= i < facts.len() implies (#[trigger] facts[i]).sharpness is None by {
                if i < last {
                    assert(less[i] == facts[i]);
                }
            }
        }
    }
}

/// The better half leaves out no scan that is sharper than one that it holds, holds
/// none that could not be measured, and takes as many places of the ranking as are
/// half of the measured scans, a scan in the middle with it. Nothing else is changed.
pub proof fn better_half_is_the_sharper_half(
    tiles: Seq<TileInfo>,
    before: Seq<TileFacts>,
    after: Seq<TileFacts>,
    a: int,
    b: int,
)
    requires
        better_half(tiles, before, after),
        0 <= a < before.len() && 0 <= b < before.len(),
    ensures
        after.len() == before.len(),
        after[a] == (TileFacts { selected: after[a].selected, ..before[a] }),
        after[a].selected ==> before[a].sharpness is Some,
        after[a].selected && !after[b].selected && before[b].sharpness is Some
            ==> before[a].sharpness->0.key <= before[b].sharpness->0.key,
        exists|order: Seq<usize>|
            {
                &&& #[trigger] is_ranking(
                    order,
                    tiles,
                    before,
                    SortBy::Sharpness,
                    before.len() as int,
                )
                &&& forall|p: int|
                    0 <= p < before.len() ==> (after[#[trigger] order[p] as int].selected <==> 2 * p
                        < measured(before) && before[order[p] as int].sharpness is Some)
            },
{
    let order = choose|order: Seq<usize>|
        {
            &&& #[trigger] is_ranking(
                order,
                tiles,
                before,
                SortBy::Sharpness,
                before.len() as int,
            )
            &&& forall|p: int|
                0 <= p < before.len() ==> after[#[trigger] order[p] as int] == (TileFacts {
                    selected: p < (measured(before) + 1) / 2
                        && before[order[p] as int].sharpness is Some,
                    ..before[order[p] as int]
                })
        };
    lemma_every_place(order, before.len() as int, a);
    lemma_every_place(order, before.len() as int, b);
    let p = choose|p: int| 0 <= p < before.len() && #[trigger] order[p] == a;
    let q = choose|q: int| 0 <= q < before.len() && #[trigger] order[q] == b;
    assert(order[p] == a && order[q] == b);
    if after[a].selected && !after[b].selected && before[b].sharpness is Some {
        assert(p < q);
        failures_sink(order, tiles, before, p, q);
    }
}

/// So many different numbers below a count are all of them.
proof fn lemma_every_place(order: Seq<usize>, n: int, a: int)
    requires
        order.len() == n,
        forall|p: int| 0 <= p < n ==> 0 <= #[trigger] order[p] < n,
        forall|p: int, q: int| 0 <= p < q < n ==> #[trigger] order[p] != #[trigger] order[q],
        0 <= a < n,
    ensures
        exists|p: int| 0 <= p < n && #[trigger] order[p] == a,
{
    let numbers = order.map_values(|x: usize| x as int);
    assert(numbers.no_duplicates()) by {
        assert forall|i: int, j: int|
            0 <= i < numbers.len() && 0 <= j < numbers.len() && i != j implies numbers[i]
            != numbers[j] by {
            if i < j {
                assert(order[i] != order[j]);
            } else {
                assert(order[j] != order[i]);
            }
        }
    }
    let all = vstd::set_lib::set_int_range(0, n);
    vstd::set_lib::lemma_int_range(0, n);
    numbers.unique_seq_to_set();
    assert(numbers.to_set().subset_of(all)) by {
        assert forall|x: int| numbers.to_set().contains(x) implies all.contains(x) by {
            let i = choose|i: int| 0 <= i < numbers.len() && numbers[i] == x;
            assert(numbers[i] == order[i]);
        }
    }
    vstd::set_lib::lemma_subset_equality(numbers.to_set(), all);
    assert(numbers.to_set().contains(a));
    let p = choose|p: int| 0 <= p < numbers.len() && numbers[p] == a;
    assert(order[p] == a);
}

/// Exactly the ticked scans are stacked, as they are shown.
pub proof fn ticked_scans_are_stacked(order: Seq<usize>, facts: Seq<TileFacts>)
    ensures
        forall|i: usize| #[trigger]
            chosen(order, facts).contains(i) <==> order.contains(i) && i < facts.len()
                && facts[i as int].selected,
        chosen(order, facts).len() <= order.len(),
        (forall|p: int|
            0 <= p < order.len() ==> (#[trigger] order[p]) < facts.len()
                && facts[order[p] as int].selected) ==> chosen(order, facts) == order,
    decreases order.len(),
{
    if order.len() > 0 {
        let less = order.drop_last();
        let last = order.last();
        ticked_scans_are_stacked(less, facts);
        let all = chosen(order, facts);
        let old = chosen(less, facts);
        assert forall|i: usize| #[trigger]
            all.contains(i) <==> order.contains(i) && i < facts.len() && facts[i as int].selected by {
            if order.contains(i) && i != last {
                let p = choose|p: int| 0 <= p < order.len() && order[p] == i;
                assert(less[p] == i);
            }
            if less.contains(i) {
                let p = choose|p: int| 0 <= p < less.len() && less[p] == i;
                assert(order[p] == i);
            }
            assert(order[order.len() - 1] == last);
            if all.contains(i) && !old.contains(i) {
                let k = choose|k: int| 0 <= k < all.len() && all[k] == i;
                assert(k < old.len() ==> old[k] == i);
            }
            if old.contains(i) {
                let k = choose|k: int| 0 <= k < old.len() && old[k] == i;
                assert(all[k] == i);
            }
            if i == last && i < facts.len() && facts[i as int].selected {
                assert(all[all.len() - 1] == i);
            }
        }
        if forall|p: int|
            0 <= p < order.len() ==> (#[trigger] order[p]) < facts.len()
                && facts[order[p] as int].selected {
            assert forall|p: int| 0 <= p < less.len() implies (#[trigger] less[p]) < facts.len()
                && facts[less[p] as int].selected by {
                assert(order[p] == less[p]);
            }
            assert(order[order.len() - 1] == last);
            assert(all =~= order);
        }
    }
}

/// The wait is what the scans so far took on average, for each that is left.
pub proof fn wait_is_the_mean_for_each_left(s: ProcessState)
    ensures
        s.spec_remaining() is None <==> s.pass.durations@.len() == 0 || s.pass.done
            >= s.tiles@.len(),
        s.spec_remaining() matches Some(ms) ==> {
            let n = s.pass.durations@.len() as int;
            let all = total(s.pass.durations@) * (s.tiles@.len() - s.pass.done);
            ms * n <= all < (ms + 1) * n
        },
{
    if let Some(ms) = s.spec_remaining() {
        let n = s.pass.durations@.len() as int;
        let all = (total(s.pass.durations@) * (s.tiles@.len() - s.pass.done)) as int;
        vstd::arithmetic::div_mod::lemma_fundamental_div_mod(all, n);
        assert(ms * n == n * ms && (ms + 1) * n == n * ms + n) by (nonlinear_arith);
    }
}

/// A scan took as long as from its start to its end, and one more is done.
pub proof fn scans_are_timed(before: Pass, after: Pass, started: u64, now: u64)
    requires
        ProcessState::one_more(before, after, now),
        before.started == Some(started),
        now >= started,
    ensures
        after.done == before.done + 1,
        after.durations@.len() == before.durations@.len() + 1,
        after.durations@.last() == now - started,
        total(after.durations@) == total(before.durations@) + (now - started),
        after.started is None,
{
    assert(after.durations@.drop_last() =~= before.durations@);
}

/// Seconds are told to the nearest one, and minutes and seconds add up to them.
pub proof fn waits_are_told_to_the_second(ms: int)
    requires
        ms >= 0,
    ensures
        -500 < 1000 * rounded_seconds(ms) - ms <= 500,
        rounded_seconds(ms) < 60 ==> duration_text(rounded_seconds(ms)) == decimal(
            rounded_seconds(ms),
        ) + "s"@,
        60 * (rounded_seconds(ms) / 60) + rounded_seconds(ms) % 60 == rounded_seconds(ms),
{
}

/// A name is its stem, a dot and an extension without a dot; or it has no extension.
pub proof fn stem_and_extension_make_the_name(name: Seq<char>)
    ensures
        stem(name) == name || (0 < stem(name).len() < name.len() && stem(name) == name.take(
            stem(name).len() as int,
        ) && name[stem(name).len() as int] == '.' && !name.skip(stem(name).len() as int + 1).contains(
            '.',
        )),
        stem(name) == name ==> (forall|k: int| 0 < k < name.len() ==> #[trigger] name[k] != '.'),
{
    lemma_last_dot(name, name.len() as int);
    if let Some(at) = last_dot(name, name.len() as int) {
        let rest = name.skip(at + 1);
        assert forall|k: int| 0 <= k < rest.len() implies rest[k] != '.' by {
            assert(rest[k] == name[at + 1 + k]);
        }
        if at > 0 {
            assert(name.take(at).len() == at);
        }
    }
}

proof fn lemma_last_dot(name: Seq<char>, end: int)
    requires
        0 <= end <= name.len(),
    ensures
        match last_dot(name, end) {
            Some(at) => 0 <= at < end && name[at] == '.' && (forall|k: int|
                at < k < end ==> #[trigger] name[k] != '.'),
            None => forall|k: int| 0 <= k < end ==> #[trigger] name[k] != '.',
        },
    decreases end,
{
    if end > 0 && name[end - 1] != '.' {
        lemma_last_dot(name, end - 1);
    }
}

/// A text that fits is shown as it is; another keeps its beginning and ends with an
/// ellipsis, as long as there is room.
pub proof fn short_texts_stay_whole(text: Seq<char>, max: int)
    requires
        max >= 1,
    ensures
        text.len() <= max ==> trimmed_to(text, max) == text,
        text.len() > max ==> trimmed_to(text, max).len() == max && trimmed_to(text, max).last()
            == '…' && trimmed_to(text, max).take(max - 1) =~= text.take(max - 1),
{
}

} // verus!
