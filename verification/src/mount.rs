//! Vocabulary of mount motion: directions, rates and the search grid.
//!
//! A mount of this family moves along four directions at one of ten rates. The
//! search for the Sun walks a square spiral on a grid and refines around the
//! strongest point; positions are counted in grid units of a tenth of a degree.

use vstd::prelude::*;

verus! {

/// One of the four directions of motion.
#[derive(Clone, Copy, Debug, PartialEq, Eq, Structural)]
pub enum Direction {
    North,
    South,
    East,
    West,
}

impl Direction {
    pub open spec fn spec_label(self) -> Seq<char> {
        match self {
            Direction::North => "N"@,
            Direction::South => "S"@,
            Direction::East => "E"@,
            Direction::West => "W"@,
        }
    }

    /// Letter on the buttons.
    pub fn label(self) -> (text: &'static str)
        ensures
            text@ == self.spec_label(),
    {
        match self {
            Direction::North => "N",
            Direction::South => "S",
            Direction::East => "E",
            Direction::West => "W",
        }
    }

    pub open spec fn spec_opposite(self) -> Direction {
        match self {
            Direction::North => Direction::South,
            Direction::South => Direction::North,
            Direction::East => Direction::West,
            Direction::West => Direction::East,
        }
    }

    /// The direction that undoes this one.
    pub fn opposite(self) -> (d: Direction)
        ensures
            d == self.spec_opposite(),
    {
        match self {
            Direction::North => Direction::South,
            Direction::South => Direction::North,
            Direction::East => Direction::West,
            Direction::West => Direction::East,
        }
    }

    pub open spec fn spec_move_command(self) -> Seq<char> {
        match self {
            Direction::North => ":Mn#"@,
            Direction::South => ":Ms#"@,
            Direction::East => ":Me#"@,
            Direction::West => ":Mw#"@,
        }
    }

    /// Wire command that starts moving.
    pub fn move_command(self) -> (text: &'static str)
        ensures
            text@ == self.spec_move_command(),
    {
        match self {
            Direction::North => ":Mn#",
            Direction::South => ":Ms#",
            Direction::East => ":Me#",
            Direction::West => ":Mw#",
        }
    }

    pub open spec fn spec_stop_command(self) -> Seq<char> {
        match self {
            Direction::North => ":Qn#"@,
            Direction::South => ":Qs#"@,
            Direction::East => ":Qe#"@,
            Direction::West => ":Qw#"@,
        }
    }

    /// Wire command that stops motion in this direction alone.
    pub fn stop_command(self) -> (text: &'static str)
        ensures
            text@ == self.spec_stop_command(),
    {
        match self {
            Direction::North => ":Qn#",
            Direction::South => ":Qs#",
            Direction::East => ":Qe#",
            Direction::West => ":Qw#",
        }
    }

    /// Displacement of one grid step: east and north are positive.
    pub open spec fn offset(self) -> (int, int) {
        match self {
            Direction::North => (0, 1),
            Direction::South => (0, -1),
            Direction::East => (1, 0),
            Direction::West => (-1, 0),
        }
    }
}

/// Going one way and then the opposite way leads back, and no direction is
/// its own opposite.
pub proof fn opposite_undoes(d: Direction)
    ensures
        d.spec_opposite().spec_opposite() == d,
        d.spec_opposite() != d,
        d.spec_opposite().offset() == (-d.offset().0, -d.offset().1),
{
}

/// Each direction has its own move command and its own stop command, so that
/// stopping one direction leaves the others alone.
pub proof fn commands_are_distinct(a: Direction, b: Direction)
    requires
        a != b,
    ensures
        a.spec_move_command() != b.spec_move_command(),
        a.spec_stop_command() != b.spec_stop_command(),
        a.spec_move_command() != b.spec_stop_command(),
{
    reveal_strlit(":Mn#");
    reveal_strlit(":Ms#");
    reveal_strlit(":Me#");
    reveal_strlit(":Mw#");
    reveal_strlit(":Qn#");
    reveal_strlit(":Qs#");
    reveal_strlit(":Qe#");
    reveal_strlit(":Qw#");
    assert(a.spec_move_command()[2] != b.spec_move_command()[2]);
    assert(a.spec_stop_command()[2] != b.spec_stop_command()[2]);
    assert(a.spec_move_command()[1] != b.spec_stop_command()[1]);
}

// ---------------------------------------------------------------------------
// Rates
// ---------------------------------------------------------------------------

/// Number of slew rates; they are numbered from 0.
pub const RATE_COUNT: usize = 10;

/// The rate that the Sun search moves at: sixty times sidereal.
pub const AUTO_CENTER_RATE: u8 = 7;

/// One slew rate: its label, its number on the wire and its speed in
/// hundredths of the sidereal rate.
pub struct Rate {
    pub label: &'static str,
    pub code: u8,
    pub hundredths: u32,
}

/// Label of a rate.
pub open spec fn rate_label(index: int) -> Seq<char> {
    if index == 0 {
        "0.25x"@
    } else if index == 1 {
        "0.5x"@
    } else if index == 2 {
        "1x"@
    } else if index == 3 {
        "2x"@
    } else if index == 4 {
        "4x"@
    } else if index == 5 {
        "8x"@
    } else if index == 6 {
        "20x"@
    } else if index == 7 {
        "60x"@
    } else if index == 8 {
        "720x"@
    } else {
        "1440x"@
    }
}

/// Speed of a rate in hundredths of the sidereal rate.
pub open spec fn rate_hundredths(index: int) -> int {
    if index == 0 {
        25
    } else if index == 1 {
        50
    } else if index == 2 {
        100
    } else if index == 3 {
        200
    } else if index == 4 {
        400
    } else if index == 5 {
        800
    } else if index == 6 {
        2000
    } else if index == 7 {
        6000
    } else if index == 8 {
        72_000
    } else {
        144_000
    }
}

/// The rate with the given number.
pub fn rate(index: usize) -> (r: Rate)
    requires
        index < RATE_COUNT,
    ensures
        r.label@ == rate_label(index as int),
        r.code == index,
        r.hundredths == rate_hundredths(index as int),
{
    match index {
        0 => Rate { label: "0.25x", code: 0, hundredths: 25 },
        1 => Rate { label: "0.5x", code: 1, hundredths: 50 },
        2 => Rate { label: "1x", code: 2, hundredths: 100 },
        3 => Rate { label: "2x", code: 3, hundredths: 200 },
        4 => Rate { label: "4x", code: 4, hundredths: 400 },
        5 => Rate { label: "8x", code: 5, hundredths: 800 },
        6 => Rate { label: "20x", code: 6, hundredths: 2000 },
        7 => Rate { label: "60x", code: 7, hundredths: 6000 },
        8 => Rate { label: "720x", code: 8, hundredths: 72_000 },
        _ => Rate { label: "1440x", code: 9, hundredths: 144_000 },
    }
}

/// A rate of a higher number is faster.
pub proof fn rates_ascend(a: int, b: int)
    requires
        0 <= a < b < RATE_COUNT,
    ensures
        rate_hundredths(a) < rate_hundredths(b),
{
}

/// Arcseconds in one unit of the search grid (a tenth of a degree).
pub const GRID_UNIT_ARCSEC: u64 = 360;

/// Sidereal motion in arcseconds per second, as the search counts it.
pub const SIDEREAL_ARCSEC_PER_SECOND: u64 = 15;

/// Speed of the search as a multiple of the sidereal rate.
pub const NUDGE_SIDEREAL_MULTIPLE: u64 = 60;

/// Duration of one grid step at the rate of the search, in milliseconds.
pub fn spiral_nudge_duration_ms() -> (ms: u64)
    ensures
        ms * NUDGE_SIDEREAL_MULTIPLE * SIDEREAL_ARCSEC_PER_SECOND == GRID_UNIT_ARCSEC * 1000,
        ms == 400,
{
    360_000 / 900
}

// ---------------------------------------------------------------------------
// Search grid
// ---------------------------------------------------------------------------

/// Grid units between two points of the coarse spiral.
pub const COARSE_GRID_SCALE: i32 = 2;

/// The `k`-th point of the square ring of radius `r`: up its east side, along
/// the north side, down the west side and back along the south side.
pub open spec fn ring_point(r: int, k: int) -> (int, int) {
    if k < 2 * r {
        (r, 1 - r + k)
    } else if k < 4 * r {
        (r - 1 - (k - 2 * r), r)
    } else if k < 6 * r {
        (-r, r - 1 - (k - 4 * r))
    } else {
        (1 - r + (k - 6 * r), -r)
    }
}

/// The square ring of radius `r`.
pub open spec fn ring(r: int) -> Seq<(int, int)> {
    Seq::new((8 * r) as nat, |k: int| ring_point(r, k))
}

/// The centre and the rings around it, innermost first.
pub open spec fn spiral(max_r: int) -> Seq<(int, int)>
    decreases max_r,
{
    if max_r <= 0 {
        seq![(0, 0)]
    } else {
        spiral(max_r - 1) + ring(max_r)
    }
}

/// A grid point as integers.
pub open spec fn point(p: (i32, i32)) -> (int, int) {
    (p.0 as int, p.1 as int)
}

/// Grid points as integers.
pub open spec fn points_of(v: Seq<(i32, i32)>) -> Seq<(int, int)> {
    v.map_values(|p: (i32, i32)| point(p))
}

pub open spec fn magnitude(x: int) -> int {
    if x < 0 {
        -x
    } else {
        x
    }
}

/// Both coordinates are at most `r` away from zero.
pub open spec fn within_square(p: (int, int), r: int) -> bool {
    -r <= p.0 <= r && -r <= p.1 <= r
}

/// Expanding square spiral around the origin.
pub fn square_spiral(max_r: i32) -> (out: Vec<(i32, i32)>)
    requires
        max_r <= 0x3fff_ffff,
    ensures
        points_of(out@) == spiral(max_r as int),
{
    let mut out: Vec<(i32, i32)> = Vec::new();
    out.push((0, 0));
    assert(points_of(out@) =~= spiral(0));
    let mut r: i32 = 0;
    while r < max_r
        invariant
            0 <= r,
            r <= max_r || r == 0,
            max_r <= 0x3fff_ffff,
            points_of(out@) == spiral(r as int),
        decreases max_r - r,
    {
        r = r + 1;
        let ghost inner = spiral(r - 1);
        let total: i64 = 8 * r as i64;
        let mut done: i64 = 0;
        assert(ring(r as int).take(0) =~= Seq::<(int, int)>::empty());
        while done < total
            invariant
                1 <= r <= 0x3fff_ffff,
                total == 8 * r,
                0 <= done <= total,
                points_of(out@) =~= inner + ring(r as int).take(done as int),
            decreases total - done,
        {
            let side: i64 = 2 * r as i64;
            let p: (i32, i32) = if done < side {
                (r, 1 - r + done as i32)
            } else if done < 2 * side {
                (r - 1 - (done - side) as i32, r)
            } else if done < 3 * side {
                (-r, r - 1 - (done - 2 * side) as i32)
            } else {
                (1 - r + (done - 3 * side) as i32, -r)
            };
            assert(point(p) == ring_point(r as int, done as int));
            let ghost before = points_of(out@);
            out.push(p);
            assert(points_of(out@) =~= before.push(point(p)));
            done = done + 1;
            assert(ring(r as int).take(done as int) =~= ring(r as int).take(done - 1).push(
                ring_point(r as int, done - 1),
            ));
        }
        assert(ring(r as int).take(total as int) =~= ring(r as int));
        assert(points_of(out@) =~= spiral(r as int));
    }
    assert(max_r <= 0 ==> spiral(max_r as int) == spiral(0));
    out
}

/// The spiral has as many points as the square that it covers.
pub proof fn spiral_len(r: int)
    requires
        0 <= r,
    ensures
        spiral(r).len() == (2 * r + 1) * (2 * r + 1),
    decreases r,
{
    if r > 0 {
        spiral_len(r - 1);
        assert((2 * r - 1) * (2 * r - 1) + 8 * r == (2 * r + 1) * (2 * r + 1)) by (nonlinear_arith);
    }
}

proof fn lemma_ring_norm(r: int, k: int)
    requires
        1 <= r,
        0 <= k < 8 * r,
    ensures
        within_square(ring_point(r, k), r),
        !within_square(ring_point(r, k), r - 1),
{
}

proof fn lemma_ring_distinct(r: int, j: int, k: int)
    requires
        1 <= r,
        0 <= j < k < 8 * r,
    ensures
        ring_point(r, j) != ring_point(r, k),
{
}

/// Where a point of the ring of radius `r` stands on it.
spec fn ring_index(r: int, p: (int, int)) -> int {
    if p.0 == r && p.1 > -r {
        p.1 - 1 + r
    } else if p.1 == r {
        2 * r + (r - 1 - p.0)
    } else if p.0 == -r {
        4 * r + (r - 1 - p.1)
    } else {
        6 * r + (p.0 - 1 + r)
    }
}

proof fn lemma_ring_covers(r: int, p: (int, int))
    requires
        1 <= r,
        within_square(p, r),
        !within_square(p, r - 1),
    ensures
        0 <= ring_index(r, p) < 8 * r,
        ring_point(r, ring_index(r, p)) == p,
{
}

/// Every point of the spiral lies in the square of its radius.
pub proof fn spiral_within(r: int, i: int)
    requires
        0 <= r,
        0 <= i < spiral(r).len(),
    ensures
        within_square(spiral(r)[i], r),
    decreases r,
{
    if r > 0 {
        let inner = spiral(r - 1);
        if i < inner.len() {
            spiral_within(r - 1, i);
        } else {
            lemma_ring_norm(r, i - inner.len());
        }
    }
}

/// The spiral visits every point of the square.
pub proof fn spiral_covers(r: int, p: (int, int))
    requires
        0 <= r,
        within_square(p, r),
    ensures
        spiral(r).contains(p),
    decreases r,
{
    if r == 0 {
        assert(spiral(0)[0] == p);
    } else {
        let inner = spiral(r - 1);
        if within_square(p, r - 1) {
            spiral_covers(r - 1, p);
            let k = choose|k: int| 0 <= k < inner.len() && inner[k] == p;
            assert(spiral(r)[k] == p);
        } else {
            lemma_ring_covers(r, p);
            let k = ring_index(r, p);
            assert(ring(r)[k] == p);
            assert(spiral(r)[inner.len() + k] == p);
        }
    }
}

/// The last point of the spiral is the south-east corner of its square.
proof fn lemma_spiral_end(r: int)
    requires
        0 <= r,
    ensures
        spiral(r).len() > 0,
        spiral(r).last() == (r, -r),
{
    if r > 0 {
        assert(ring(r)[8 * r - 1] == ring_point(r, 8 * r - 1));
        assert(spiral(r).last() == ring(r).last());
    }
}

/// The spiral goes on by one grid step at a time, east, west, north or south,
/// also from one ring to the next.
pub proof fn spiral_goes_in_unit_steps(r: int, i: int)
    requires
        0 <= r,
        0 <= i < spiral(r).len() - 1,
    ensures
        ({
            let a = spiral(r)[i];
            let b = spiral(r)[i + 1];
            magnitude(b.0 - a.0) + magnitude(b.1 - a.1) == 1
        }),
    decreases r,
{
    if r > 0 {
        let inner = spiral(r - 1);
        lemma_spiral_end(r - 1);
        if i + 1 < inner.len() {
            spiral_goes_in_unit_steps(r - 1, i);
        } else if i + 1 == inner.len() {
            assert(spiral(r)[i] == inner.last());
            assert(spiral(r)[i + 1] == ring_point(r, 0));
        } else {
            let k = i - inner.len();
            assert(spiral(r)[i] == ring_point(r, k));
            assert(spiral(r)[i + 1] == ring_point(r, k + 1));
        }
    }
}

/// The spiral visits no point twice.
pub proof fn spiral_distinct(r: int, i: int, j: int)
    requires
        0 <= r,
        0 <= i < j < spiral(r).len(),
    ensures
        spiral(r)[i] != spiral(r)[j],
    decreases r,
{
    if r > 0 {
        let inner = spiral(r - 1);
        if j < inner.len() {
            spiral_distinct(r - 1, i, j);
        } else {
            lemma_ring_norm(r, j - inner.len());
            if i < inner.len() {
                spiral_within(r - 1, i);
            } else {
                lemma_ring_distinct(r, i - inner.len(), j - inner.len());
            }
        }
    }
}

/// A coarse point in grid units.
pub open spec fn scaled(p: (int, int)) -> (int, int) {
    (p.0 * COARSE_GRID_SCALE, p.1 * COARSE_GRID_SCALE)
}

/// The coarse spiral in grid units.
pub open spec fn coarse(max_r: int) -> Seq<(int, int)> {
    spiral(max_r).map_values(|p: (int, int)| scaled(p))
}

/// Coarse spiral, counted in units of the fine grid.
pub fn coarse_spiral(max_r: i32) -> (out: Vec<(i32, i32)>)
    requires
        max_r <= 0x3fff_ffff,
    ensures
        points_of(out@) == coarse(max_r as int),
{
    let inner = square_spiral(max_r);
    let mut out: Vec<(i32, i32)> = Vec::new();
    let mut i: usize = 0;
    while i < inner.len()
        invariant
            max_r <= 0x3fff_ffff,
            points_of(inner@) == spiral(max_r as int),
            i <= inner@.len(),
            points_of(out@) =~= coarse(max_r as int).take(i as int),
        decreases inner@.len() - i,
    {
        let (x, y) = inner[i];
        assert(point(inner@[i as int]) == spiral(max_r as int)[i as int]);
        proof {
            if max_r >= 0 {
                spiral_within(max_r as int, i as int);
            }
        }
        let ghost before = points_of(out@);
        out.push((x * 2, y * 2));
        assert(points_of(out@) =~= before.push(coarse(max_r as int)[i as int]));
        i = i + 1;
        assert(points_of(out@) =~= coarse(max_r as int).take(i as int));
    }
    assert(coarse(max_r as int).take(inner@.len() as int) =~= coarse(max_r as int));
    out
}

/// Where a point of the refinement lies.
pub open spec fn shifted(center: (int, int), p: (int, int)) -> (int, int) {
    (center.0 + p.0, center.1 + p.1)
}

/// The three-by-three neighbourhood of the centre in spiral order, without the
/// points outside the search square.
pub open spec fn refinement(center: (int, int), max_units: int) -> Seq<(int, int)> {
    spiral(1).map_values(|p: (int, int)| shifted(center, p)).filter(
        |p: (int, int)| within_square(p, max_units),
    )
}

/// Bounded local search around the strongest coarse point.
pub fn refinement_grid(center: (i32, i32), max_units: i32) -> (out: Vec<(i32, i32)>)
    requires
        i32::MIN + 1 < center.0 < i32::MAX,
        i32::MIN + 1 < center.1 < i32::MAX,
    ensures
        points_of(out@) == refinement(point(center), max_units as int),
{
    let offsets = square_spiral(1);
    let ghost all = spiral(1).map_values(|p: (int, int)| shifted(point(center), p));
    let ghost keep = |p: (int, int)| within_square(p, max_units as int);
    let mut out: Vec<(i32, i32)> = Vec::new();
    let mut i: usize = 0;
    assert(all.take(0) =~= Seq::<(int, int)>::empty());
    reveal(Seq::filter);
    while i < offsets.len()
        invariant
            i32::MIN + 1 < center.0 < i32::MAX,
            i32::MIN + 1 < center.1 < i32::MAX,
            points_of(offsets@) == spiral(1),
            all == spiral(1).map_values(|p: (int, int)| shifted(point(center), p)),
            keep == (|p: (int, int)| within_square(p, max_units as int)),
            i <= offsets@.len(),
            points_of(out@) =~= all.take(i as int).filter(keep),
        decreases offsets@.len() - i,
    {
        let (dx, dy) = offsets[i];
        assert(point(offsets@[i as int]) == spiral(1)[i as int]);
        proof {
            spiral_within(1, i as int);
        }
        let x: i32 = center.0 + dx;
        let y: i32 = center.1 + dy;
        let wide: bool = within(x, max_units) && within(y, max_units);
        let ghost before = points_of(out@);
        if wide {
            out.push((x, y));
            assert(points_of(out@) =~= before.push((x as int, y as int)));
        }
        i = i + 1;
        assert(all.take(i as int).drop_last() =~= all.take(i - 1));
        assert(all.take(i as int).last() == (x as int, y as int));
        reveal(Seq::filter);
    }
    assert(all.take(offsets@.len() as int) =~= all);
    out
}

/// `|x| <= limit`.
fn within(x: i32, limit: i32) -> (r: bool)
    ensures
        r == (-limit <= x <= limit),
{
    x <= limit && x as i64 >= -(limit as i64)
}

/// Every refinement point is a neighbour of the centre inside the search
/// square, the centre itself comes first where it lies inside, and no
/// neighbour inside the square is left out.
pub proof fn refinement_is_local(center: (int, int), max_units: int)
    ensures
        forall|i: int|
            0 <= i < refinement(center, max_units).len() ==> {
                let p = #[trigger] refinement(center, max_units)[i];
                &&& within_square(p, max_units)
                &&& within_square((p.0 - center.0, p.1 - center.1), 1)
            },
        forall|p: (int, int)|
            within_square(p, max_units) && within_square((p.0 - center.0, p.1 - center.1), 1)
                ==> #[trigger] refinement(center, max_units).contains(p),
        within_square(center, max_units) ==> refinement(center, max_units).len() > 0,
{
    let all = spiral(1).map_values(|p: (int, int)| shifted(center, p));
    let keep = |p: (int, int)| within_square(p, max_units);
    let kept = refinement(center, max_units);
    assert forall|i: int| 0 <= i < kept.len() implies {
        let p = #[trigger] kept[i];
        &&& within_square(p, max_units)
        &&& within_square((p.0 - center.0, p.1 - center.1), 1)
    } by {
        assert(keep(kept[i]));
        assert(kept.contains(kept[i]));
        all.lemma_filter_contains_rev(keep, kept[i]);
        let j = choose|j: int| 0 <= j < all.len() && all[j] == kept[i];
        spiral_within(1, j);
    }
    assert forall|p: (int, int)|
        within_square(p, max_units) && within_square(
            (p.0 - center.0, p.1 - center.1),
            1,
        ) implies #[trigger] kept.contains(p) by {
        let q = (p.0 - center.0, p.1 - center.1);
        spiral_covers(1, q);
        let j = choose|j: int| 0 <= j < spiral(1).len() && spiral(1)[j] == q;
        assert(all[j] == p);
        assert(keep(p));
        all.lemma_filter_contains(keep, j);
    }
    if within_square(center, max_units) {
        assert(kept.contains(center));
    }
}

/// Steps between two grid points.
pub open spec fn grid_distance(a: (int, int), b: (int, int)) -> int {
    magnitude(b.0 - a.0) + magnitude(b.1 - a.1)
}

/// One step towards a target: along east and west first, then along north and
/// south; none when the target is reached.
pub open spec fn grid_step(from: (int, int), to: (int, int)) -> Option<Direction> {
    if to.0 > from.0 {
        Some(Direction::East)
    } else if to.0 < from.0 {
        Some(Direction::West)
    } else if to.1 > from.1 {
        Some(Direction::North)
    } else if to.1 < from.1 {
        Some(Direction::South)
    } else {
        None
    }
}

pub open spec fn moved(p: (int, int), d: Direction) -> (int, int) {
    (p.0 + d.offset().0, p.1 + d.offset().1)
}

/// The next step on the grid and where it leads.
pub fn grid_step_direction(from: (i32, i32), to: (i32, i32)) -> (step: Option<
    (Direction, (i32, i32)),
>)
    ensures
        match step {
            Some((d, next)) => grid_step(point(from), point(to)) == Some(d) && point(next) == moved(
                point(from),
                d,
            ),
            None => grid_step(point(from), point(to)) is None,
        },
{
    if to.0 > from.0 {
        Some((Direction::East, (from.0 + 1, from.1)))
    } else if to.0 < from.0 {
        Some((Direction::West, (from.0 - 1, from.1)))
    } else if to.1 > from.1 {
        Some((Direction::North, (from.0, from.1 + 1)))
    } else if to.1 < from.1 {
        Some((Direction::South, (from.0, from.1 - 1)))
    } else {
        None
    }
}

/// A step brings the target one unit closer, and none is left exactly at the
/// target, so repeated steps reach it after as many moves as it is away.
pub proof fn steps_reach_target(from: (int, int), to: (int, int))
    ensures
        grid_step(from, to) is None <==> from == to,
        grid_step(from, to) is Some ==> grid_distance(moved(from, grid_step(from, to)->0), to)
            == grid_distance(from, to) - 1,
{
}

// ---------------------------------------------------------------------------
// What directions and rates promise
// ---------------------------------------------------------------------------

/// The letter of a compass point.
pub open spec fn compass_letter(d: Direction) -> char {
    match d {
        Direction::North => 'n',
        Direction::South => 's',
        Direction::East => 'e',
        Direction::West => 'w',
    }
}

/// The commands of a direction and its label all carry the letter of the same
/// compass point, small on the wire and large on the button. North and east count
/// upwards on the grid.
pub proof fn commands_name_their_direction(d: Direction)
    ensures
        d.spec_move_command() =~= seq![':', 'M', compass_letter(d), '#'],
        d.spec_stop_command() =~= seq![':', 'Q', compass_letter(d), '#'],
        d.spec_label().len() == 1,
        d.spec_label()[0] as int + 32 == compass_letter(d) as int,
        d.offset() == (if d == Direction::North {
            (0int, 1int)
        } else if d == Direction::South {
            (0int, -1int)
        } else if d == Direction::East {
            (1int, 0int)
        } else {
            (-1int, 0int)
        }),
{
    reveal_strlit(":Mn#");
    reveal_strlit(":Ms#");
    reveal_strlit(":Me#");
    reveal_strlit(":Mw#");
    reveal_strlit(":Qn#");
    reveal_strlit(":Qs#");
    reveal_strlit(":Qe#");
    reveal_strlit(":Qw#");
    reveal_strlit("N");
    reveal_strlit("S");
    reveal_strlit("E");
    reveal_strlit("W");
}

/// The rates double from a quarter of the sidereal rate up to eight times it; then
/// come twenty and sixty times, and the two slew rates, of which the second is twice
/// as fast as the first.
pub proof fn rates_are_spaced(i: int)
    ensures
        0 <= i < 5 ==> rate_hundredths(i + 1) == 2 * rate_hundredths(i),
        rate_hundredths(2) == 100,
        rate_hundredths(7) == 3 * rate_hundredths(6) == 60 * rate_hundredths(2),
        rate_hundredths(8) == 12 * rate_hundredths(7),
        rate_hundredths(9) == 2 * rate_hundredths(8),
{
}

/// A step of the search covers a tenth of a degree at the rate of the search: sixty
/// times sidereal.
pub proof fn search_rate_is_sixty(ms: u64)
    requires
        ms * NUDGE_SIDEREAL_MULTIPLE * SIDEREAL_ARCSEC_PER_SECOND == GRID_UNIT_ARCSEC * 1000,
    ensures
        rate_hundredths(AUTO_CENTER_RATE as int) == 6_000,
        ms * 15 * 60 == 360_000,
{
    assert(ms * 60 * 15 == ms * 15 * 60) by (nonlinear_arith);
}

/// A target is approached along east and west first, and only then along north and
/// south.
pub proof fn steps_go_along_one_axis_first(from: (int, int), to: (int, int))
    ensures
        grid_step(from, to) == Some(Direction::East) <==> to.0 > from.0,
        grid_step(from, to) == Some(Direction::West) <==> to.0 < from.0,
        grid_step(from, to) == Some(Direction::North) <==> to.0 == from.0 && to.1 > from.1,
        grid_step(from, to) == Some(Direction::South) <==> to.0 == from.0 && to.1 < from.1,
{
}

} // verus!
