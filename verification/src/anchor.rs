//! The spectral line that a recording is anchored to.
//!
//! Depths and distances come as keys: integers in the same order.

use crate::order::{stable_sort, stably_sorted, Ranked};
use vstd::prelude::*;

verus! {

/// A line that can be an anchor: its place among the detected ones, and the key
/// of its position.
#[derive(Clone, Copy, Debug, PartialEq, Eq, Structural)]
pub struct AnchorLine {
    pub index: usize,
    pub center: i64,
}

impl Ranked for AnchorLine {
    open spec fn before(&self, other: &Self) -> bool {
        self.center < other.center
    }

    fn is_before(&self, other: &Self) -> (r: bool) {
        self.center < other.center
    }

    proof fn order_is_strict(a: &Self, b: &Self, c: &Self) {
    }
}

/// The usable ones of the first `n` lines.
pub open spec fn usable_lines(centers: Seq<i64>, usable: Seq<bool>, n: int) -> Seq<AnchorLine>
    decreases n,
{
    if n <= 0 {
        seq![]
    } else if usable[n - 1] {
        usable_lines(centers, usable, n - 1).push(
            AnchorLine { index: (n - 1) as usize, center: centers[n - 1] },
        )
    } else {
        usable_lines(centers, usable, n - 1)
    }
}

/// The lines that can be an anchor, by position.
pub fn anchor_lines(centers: &Vec<i64>, usable: &Vec<bool>) -> (lines: Vec<AnchorLine>)
    requires
        centers@.len() == usable@.len(),
    ensures
        lines@ == stably_sorted(usable_lines(centers@, usable@, centers@.len() as int)),
{
    let mut lines: Vec<AnchorLine> = Vec::new();
    let mut i: usize = 0;
    while i < centers.len()
        invariant
            i <= centers@.len() == usable@.len(),
            lines@ == usable_lines(centers@, usable@, i as int),
        decreases centers@.len() - i,
    {
        if usable[i] {
            lines.push(AnchorLine { index: i, center: centers[i] });
        }
        i = i + 1;
    }
    stable_sort(lines)
}

/// Place of the largest key; of several, the last.
pub open spec fn is_last_largest(keys: Seq<i64>, at: int) -> bool {
    &&& 0 <= at < keys.len()
    &&& forall|k: int| 0 <= k < keys.len() ==> #[trigger] keys[k] <= keys[at]
    &&& forall|k: int| at < k < keys.len() ==> #[trigger] keys[k] < keys[at]
}

/// Place of the smallest key; of several, the first.
pub open spec fn is_first_smallest(keys: Seq<u64>, at: int) -> bool {
    &&& 0 <= at < keys.len()
    &&& forall|k: int| 0 <= k < keys.len() ==> keys[at] <= #[trigger] keys[k]
    &&& forall|k: int| 0 <= k < at ==> keys[at] < #[trigger] keys[k]
}

/// The deepest line.
pub fn deepest_line(depths: &Vec<i64>) -> (place: Option<usize>)
    ensures
        match place {
            Some(i) => is_last_largest(depths@, i as int),
            None => depths@.len() == 0,
        },
{
    if depths.len() == 0 {
        return None;
    }
    let mut best: usize = 0;
    let mut i: usize = 1;
    while i < depths.len()
        invariant
            best < i <= depths@.len(),
            forall|k: int| 0 <= k < i ==> #[trigger] depths@[k] <= depths@[best as int],
            forall|k: int| best < k < i ==> #[trigger] depths@[k] < depths@[best as int],
        decreases depths@.len() - i,
    {
        if depths[i] >= depths[best] {
            best = i;
        }
        i = i + 1;
    }
    Some(best)
}

fn nearest_line(distances: &Vec<u64>) -> (place: Option<usize>)
    ensures
        match place {
            Some(i) => is_first_smallest(distances@, i as int),
            None => distances@.len() == 0,
        },
{
    if distances.len() == 0 {
        return None;
    }
    let mut best: usize = 0;
    let mut i: usize = 1;
    while i < distances.len()
        invariant
            best < i <= distances@.len(),
            forall|k: int| 0 <= k < i ==> distances@[best as int] <= #[trigger] distances@[k],
            forall|k: int| 0 <= k < best ==> distances@[best as int] < #[trigger] distances@[k],
        decreases distances@.len() - i,
    {
        if distances[i] < distances[best] {
            best = i;
        }
        i = i + 1;
    }
    Some(best)
}

/// The line to anchor to: the one nearest to the anchor so far, as long as it
/// is within reach, or else the deepest. `distances` are those to the anchor,
/// and none where there is no anchor yet.
pub fn tracked_line(depths: &Vec<i64>, distances: &Option<Vec<u64>>, reach: u64) -> (place: Option<
    usize,
>)
    ensures
        match place {
            Some(i) => (distances is Some && is_first_smallest(distances->0@, i as int)
                && distances->0@[i as int] <= reach) || (is_last_largest(depths@, i as int) && (
            distances is Some ==> forall|k: int|
                0 <= k < distances->0@.len() ==> #[trigger] distances->0@[k] > reach)),
            None => depths@.len() == 0 && (distances is Some ==> forall|k: int|
                0 <= k < distances->0@.len() ==> #[trigger] distances->0@[k] > reach),
        },
{
    if let Some(d) = distances {
        if let Some(i) = nearest_line(d) {
            if d[i] <= reach {
                return Some(i);
            }
        }
    }
    deepest_line(depths)
}

/// A smallest distance is unique, and so is a largest depth: the choice of a
/// line depends on the lines alone.
pub proof fn line_choice_is_unique(depths: Seq<i64>, distances: Seq<u64>, a: int, b: int)
    ensures
        is_last_largest(depths, a) && is_last_largest(depths, b) ==> a == b,
        is_first_smallest(distances, a) && is_first_smallest(distances, b) ==> a == b,
{
    if is_last_largest(depths, a) && is_last_largest(depths, b) && a != b {
        assert(depths[a] <= depths[b] && depths[b] <= depths[a]);
    }
    if is_first_smallest(distances, a) && is_first_smallest(distances, b) && a != b {
        assert(distances[a] <= distances[b] && distances[b] <= distances[a]);
    }
}

/// Rows of the capture band, kept between `least` and the height of the sensor.
pub fn bounded_height(height: usize, least: usize, sensor: usize) -> (rows: usize)
    requires
        least <= sensor,
    ensures
        least <= rows <= sensor,
        least <= height <= sensor ==> rows == height,
        height < least ==> rows == least,
        height > sensor ==> rows == sensor,
{
    if height < least {
        least
    } else if height > sensor {
        sensor
    } else {
        height
    }
}

/// A recording can start: frames come in, the line runs across, it is chosen,
/// and no search is moving the mount.
pub fn can_record(streaming: bool, vertical: bool, anchored: bool, searching: bool) -> (r: bool)
    ensures
        r == (streaming && vertical && anchored && !searching),
{
    streaming && vertical && anchored && !searching
}

/// The advice below the recording controls.
pub fn recording_hint(vertical: bool, lines: usize) -> (text: &'static str)
    ensures
        text@ == (if !vertical {
            "Set dispersion to Vertical in Focus before selecting a horizontal spectral line."@
        } else if lines == 0 {
            "Start the camera and expose a spectral line; detected lines appear in the anchor menu."@
        } else {
            "Records raw mono16 frames, vertically cropped around the fixed selected line."@
        }),
{
    if !vertical {
        "Set dispersion to Vertical in Focus before selecting a horizontal spectral line."
    } else if lines == 0 {
        "Start the camera and expose a spectral line; detected lines appear in the anchor menu."
    } else {
        "Records raw mono16 frames, vertically cropped around the fixed selected line."
    }
}

/// Every usable line can be an anchor, each by its place and its position, and no other
/// can.
pub proof fn usable_lines_are_offered(centers: Seq<i64>, usable: Seq<bool>, n: int, k: int)
    requires
        0 <= n <= centers.len() == usable.len(),
        0 <= k < n,
        n <= usize::MAX,
    ensures
        usable[k] <==> usable_lines(centers, usable, n).contains(
            AnchorLine { index: k as usize, center: centers[k] },
        ),
        usable_lines(centers, usable, n).len() <= n,
    decreases n,
{
    let all = usable_lines(centers, usable, n);
    let old = usable_lines(centers, usable, n - 1);
    let line = AnchorLine { index: k as usize, center: centers[k] };
    lemma_lines_below(centers, usable, n - 1);
    if k < n - 1 {
        usable_lines_are_offered(centers, usable, n - 1, k);
        if old.contains(line) {
            let i = choose|i: int| 0 <= i < old.len() && old[i] == line;
            assert(all[i] == line);
        }
        if all.contains(line) {
            let i = choose|i: int| 0 <= i < all.len() && all[i] == line;
            if i < old.len() {
                assert(old[i] == line);
            }
        }
    } else {
        if usable[k] {
            assert(all[all.len() - 1] == line);
        } else if all.contains(line) {
            let i = choose|i: int| 0 <= i < all.len() && all[i] == line;
            assert(old[i].index < n - 1);
        }
    }
}

proof fn lemma_lines_below(centers: Seq<i64>, usable: Seq<bool>, n: int)
    requires
        0 <= n <= centers.len() == usable.len(),
        n <= usize::MAX,
    ensures
        usable_lines(centers, usable, n).len() <= n,
        forall|i: int|
            0 <= i < usable_lines(centers, usable, n).len() ==> (#[trigger] usable_lines(
                centers,
                usable,
                n,
            )[i]).index < n,
    decreases n,
{
    if n > 0 {
        lemma_lines_below(centers, usable, n - 1);
    }
}

/// The deepest line is at least as deep as every other, and the nearest at least as near.
pub proof fn choices_are_extreme(depths: Seq<i64>, distances: Seq<u64>, a: int, b: int, k: int)
    ensures
        is_last_largest(depths, a) && 0 <= k < depths.len() ==> depths[a] >= depths[k] && (k > a
            ==> depths[a] > depths[k]),
        is_first_smallest(distances, b) && 0 <= k < distances.len() ==> distances[b]
            <= distances[k] && (k < b ==> distances[b] < distances[k]),
{
}

} // verus!
