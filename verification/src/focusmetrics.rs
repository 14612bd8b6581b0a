//! Measurements on camera frames: clipping, brightness, profiles and the
//! selection of good frames.
//!
//! Values that are not whole numbers come as keys: integers in the same order.
//! What is selected here is averaged outside.

use crate::order::{
    in_order, inserted, sorting_is_ordered_permutation, stable_sort, stably_sorted, Ranked,
};
use vstd::arithmetic::power2::{lemma2_to64, pow2};
use vstd::prelude::*;

verus! {

// ---------------------------------------------------------------------------
// Clipping
// ---------------------------------------------------------------------------

/// The largest value that a converter of eight to sixteen bits delivers, with
/// its bits at the right or at the left end of the word.
pub open spec fn is_adc_ceiling(v: int) -> bool {
    ||| v == 255 || v == 511 || v == 1023 || v == 2047 || v == 4095
    ||| v == 8191 || v == 16383 || v == 32767 || v == 65535
    ||| v == 65280 || v == 65408 || v == 65472 || v == 65504 || v == 65520
    ||| v == 65528 || v == 65532 || v == 65534
}

/// The ceilings are those of eight to sixteen bits.
pub proof fn ceilings_are_bit_limits(v: int)
    ensures
        is_adc_ceiling(v) <==> exists|bits: nat|
            8 <= bits <= 16 && (v == #[trigger] pow2(bits) - 1 || v == 65536 - pow2(
                (16 - bits) as nat,
            )),
{
    lemma2_to64();
    let limit = |bits: nat| v == pow2(bits) - 1 || v == 65536 - pow2((16 - bits) as nat);
    if is_adc_ceiling(v) {
        let bits: nat = if v == 255 || v == 65280 {
            8
        } else if v == 511 || v == 65408 {
            9
        } else if v == 1023 || v == 65472 {
            10
        } else if v == 2047 || v == 65504 {
            11
        } else if v == 4095 || v == 65520 {
            12
        } else if v == 8191 || v == 65528 {
            13
        } else if v == 16383 || v == 65532 {
            14
        } else if v == 32767 || v == 65534 {
            15
        } else {
            16
        };
        assert(8 <= bits <= 16 && (v == pow2(bits) - 1 || v == 65536 - pow2((16 - bits) as nat)));
    }
    assert forall|bits: nat|
        8 <= bits <= 16 && (v == #[trigger] pow2(bits) - 1 || v == 65536 - pow2(
            (16 - bits) as nat,
        )) implies is_adc_ceiling(v) by {
        assert(bits == 8 || bits == 9 || bits == 10 || bits == 11 || bits == 12 || bits == 13 || bits
            == 14 || bits == 15 || bits == 16);
    }
}

/// Number of values equal to `v`.
pub open spec fn occurrences(data: Seq<u16>, v: u16) -> nat
    decreases data.len(),
{
    if data.len() == 0 {
        0
    } else {
        occurrences(data.drop_last(), v) + if data.last() == v {
            1nat
        } else {
            0nat
        }
    }
}

pub open spec fn is_maximum(data: Seq<u16>, v: u16) -> bool {
    data.contains(v) && forall|i: int| 0 <= i < data.len() ==> #[trigger] data[i] <= v
}

/// A frame is clipped where its largest value is a ceiling of a converter and
/// at least one value in two hundred stands there.
pub open spec fn is_clipped(data: Seq<u16>) -> bool {
    exists|v: u16| #[trigger]
        is_maximum(data, v) && is_adc_ceiling(v as int) && occurrences(data, v) * 200 >= data.len()
}

fn adc_ceiling(v: u16) -> (r: bool)
    ensures
        r == is_adc_ceiling(v as int),
{
    v == 255 || v == 511 || v == 1023 || v == 2047 || v == 4095 || v == 8191 || v == 16383 || v
        == 32767 || v == 65535 || v == 65280 || v == 65408 || v == 65472 || v == 65504 || v == 65520
        || v == 65528 || v == 65532 || v == 65534
}

/// Whether a frame is clipped. One hot pixel does not clip a frame.
pub fn clipped_frame(data: &[u16]) -> (clipped: bool)
    ensures
        clipped == is_clipped(data@),
{
    if data.len() == 0 {
        assert forall|v: u16| !#[trigger] is_maximum(data@, v) by {}
        return false;
    }
    let mut maximum: u16 = data[0];
    let mut i: usize = 1;
    while i < data.len()
        invariant
            1 <= i <= data@.len(),
            exists|k: int| 0 <= k < i && data@[k] == maximum,
            forall|k: int| 0 <= k < i ==> #[trigger] data@[k] <= maximum,
        decreases data@.len() - i,
    {
        if data[i] > maximum {
            maximum = data[i];
        }
        i = i + 1;
    }
    assert(is_maximum(data@, maximum));
    assert forall|v: u16| #[trigger] is_maximum(data@, v) implies v == maximum by {}
    if !adc_ceiling(maximum) {
        return false;
    }
    let mut count: usize = 0;
    let mut k: usize = 0;
    assert(data@.take(0) =~= Seq::<u16>::empty());
    while k < data.len()
        invariant
            k <= data@.len(),
            count <= k,
            count == occurrences(data@.take(k as int), maximum),
        decreases data@.len() - k,
    {
        assert(data@.take(k + 1).drop_last() =~= data@.take(k as int));
        if data[k] == maximum {
            count = count + 1;
        }
        k = k + 1;
    }
    assert(data@.take(data@.len() as int) =~= data@);
    count as u128 * 200 >= data.len() as u128
}

// ---------------------------------------------------------------------------
// Brightness
// ---------------------------------------------------------------------------

pub const PEAK_BINS: usize = 4096;

/// Number of values in a bin of sixteen neighbours.
pub open spec fn count_in(data: Seq<u16>, bin: int) -> nat
    decreases data.len(),
{
    if data.len() == 0 {
        0
    } else {
        count_in(data.drop_last(), bin) + if data.last() / 16 == bin {
            1nat
        } else {
            0nat
        }
    }
}

/// Sum of the values in a bin.
pub open spec fn sum_in(data: Seq<u16>, bin: int) -> nat
    decreases data.len(),
{
    if data.len() == 0 {
        0
    } else {
        sum_in(data.drop_last(), bin) + if data.last() / 16 == bin {
            data.last() as nat
        } else {
            0nat
        }
    }
}

/// Part of a bin that counts in the peak.
#[derive(Clone, Copy, Debug, PartialEq, Eq, Structural)]
pub struct BinShare {
    pub sum: u128,
    pub count: u64,
    pub take: u64,
}

/// The brightest values, bin by bin from `bin` down, until `wanted` are taken.
/// Of the last bin only a part may be needed.
pub open spec fn shares(data: Seq<u16>, bin: int, wanted: nat) -> Seq<BinShare>
    decreases bin + 1,
{
    if bin < 0 || wanted == 0 {
        seq![]
    } else {
        let count = count_in(data, bin);
        if count == 0 {
            shares(data, bin - 1, wanted)
        } else {
            let take = if count < wanted {
                count
            } else {
                wanted
            };
            seq![
                BinShare { sum: sum_in(data, bin) as u128, count: count as u64, take: take as u64 },
            ] + shares(data, bin - 1, (wanted - take) as nat)
        }
    }
}

/// One value in a hundred, at least one.
pub open spec fn peak_size(n: nat) -> nat {
    (n + 99) / 100
}

/// The brightest hundredth of a frame. The mean of a bin stands for the values
/// of a bin that is only needed in part.
pub fn brightest_hundredth(data: &[u16]) -> (list: Vec<BinShare>)
    ensures
        list@ == shares(data@, PEAK_BINS - 1, peak_size(data@.len())),
{
    let mut counts: Vec<u64> = Vec::new();
    let mut sums: Vec<u128> = Vec::new();
    let mut b: usize = 0;
    assert(data@.take(0) =~= Seq::<u16>::empty());
    while b < PEAK_BINS
        invariant
            b <= PEAK_BINS,
            counts@.len() == b,
            sums@.len() == b,
            forall|k: int| 0 <= k < b ==> #[trigger] counts@[k] == 0,
            forall|k: int| 0 <= k < b ==> #[trigger] sums@[k] == 0,
        decreases PEAK_BINS - b,
    {
        counts.push(0);
        sums.push(0);
        b = b + 1;
    }
    let mut i: usize = 0;
    while i < data.len()
        invariant
            i <= data@.len(),
            counts@.len() == PEAK_BINS,
            sums@.len() == PEAK_BINS,
            forall|k: int|
                0 <= k < PEAK_BINS ==> #[trigger] counts@[k] == count_in(data@.take(i as int), k)
                    && counts@[k] <= i,
            forall|k: int|
                0 <= k < PEAK_BINS ==> #[trigger] sums@[k] == sum_in(data@.take(i as int), k)
                    && sums@[k] <= i * 0x1_0000,
        decreases data@.len() - i,
    {
        assert(data@.take(i + 1).drop_last() =~= data@.take(i as int));
        let v: u16 = data[i];
        let bin: usize = (v / 16) as usize;
        assert(bin < PEAK_BINS);
        let ghost counts0 = counts@;
        let ghost sums0 = sums@;
        let count: u64 = counts[bin];
        let sum: u128 = sums[bin];
        counts.set(bin, count + 1);
        sums.set(bin, sum + v as u128);
        assert forall|k: int| 0 <= k < PEAK_BINS implies #[trigger] counts@[k] == count_in(
            data@.take(i + 1),
            k,
        ) && counts@[k] <= i + 1 by {
            assert(counts0[k] == count_in(data@.take(i as int), k));
        }
        assert forall|k: int| 0 <= k < PEAK_BINS implies #[trigger] sums@[k] == sum_in(
            data@.take(i + 1),
            k,
        ) && sums@[k] <= (i + 1) * 0x1_0000 by {
            assert(sums0[k] == sum_in(data@.take(i as int), k));
        }
        i = i + 1;
    }
    assert(data@.take(data@.len() as int) =~= data@);
    let target: u64 = ((data.len() as u128 + 99) / 100) as u64;
    let mut wanted: u64 = target;
    let mut list: Vec<BinShare> = Vec::new();
    let mut at: usize = PEAK_BINS;
    assert(list@ + shares(data@, PEAK_BINS - 1, target as nat) =~= shares(
        data@,
        PEAK_BINS - 1,
        target as nat,
    ));
    while at > 0 && wanted > 0
        invariant
            at <= PEAK_BINS,
            counts@.len() == PEAK_BINS,
            sums@.len() == PEAK_BINS,
            forall|k: int| 0 <= k < PEAK_BINS ==> #[trigger] counts@[k] == count_in(data@, k),
            forall|k: int| 0 <= k < PEAK_BINS ==> #[trigger] sums@[k] == sum_in(data@, k),
            list@ + shares(data@, at - 1, wanted as nat) == shares(
                data@,
                PEAK_BINS - 1,
                target as nat,
            ),
        decreases at,
    {
        let bin: usize = at - 1;
        let count: u64 = counts[bin];
        if count > 0 {
            let take: u64 = if count < wanted {
                count
            } else {
                wanted
            };
            let share = BinShare { sum: sums[bin], count, take };
            let ghost before = list@;
            list.push(share);
            proof {
                let rest = shares(data@, bin - 1, (wanted - take) as nat);
                assert(shares(data@, bin as int, wanted as nat) == seq![share] + rest);
                assert(list@ + rest =~= before + (seq![share] + rest));
            }
            wanted = wanted - take;
        }
        at = at - 1;
    }
    assert(list@ + shares(data@, at - 1, wanted as nat) =~= list@);
    list
}

/// Number of values that the shares take.
pub open spec fn taken(list: Seq<BinShare>) -> nat
    decreases list.len(),
{
    if list.len() == 0 {
        0
    } else {
        list[0].take as nat + taken(list.drop_first())
    }
}

/// Number of values in the bins up to `bin`.
pub open spec fn count_up_to(data: Seq<u16>, bin: int) -> nat
    decreases bin + 1,
{
    if bin < 0 {
        0
    } else {
        count_up_to(data, bin - 1) + count_in(data, bin)
    }
}

proof fn lemma_count_up_to_step(data: Seq<u16>, bin: int)
    requires
        data.len() > 0,
    ensures
        count_up_to(data, bin) == count_up_to(data.drop_last(), bin) + if data.last() / 16 <= bin {
            1nat
        } else {
            0nat
        },
    decreases bin + 1,
{
    if bin >= 0 {
        lemma_count_up_to_step(data, bin - 1);
    }
}

proof fn lemma_count_up_to_empty(bin: int)
    ensures
        count_up_to(Seq::<u16>::empty(), bin) == 0,
    decreases bin + 1,
{
    if bin >= 0 {
        lemma_count_up_to_empty(bin - 1);
    }
}

/// Every value lies in one of the bins.
proof fn lemma_all_counted(data: Seq<u16>)
    ensures
        count_up_to(data, PEAK_BINS - 1) == data.len(),
    decreases data.len(),
{
    if data.len() == 0 {
        assert(data =~= Seq::<u16>::empty());
        lemma_count_up_to_empty(PEAK_BINS - 1);
    } else {
        lemma_all_counted(data.drop_last());
        lemma_count_up_to_step(data, PEAK_BINS - 1);
    }
}

proof fn lemma_count_bound(data: Seq<u16>, bin: int)
    ensures
        count_in(data, bin) <= data.len(),
    decreases data.len(),
{
    if data.len() > 0 {
        lemma_count_bound(data.drop_last(), bin);
    }
}

proof fn lemma_taken(data: Seq<u16>, bin: int, wanted: nat)
    requires
        data.len() <= u64::MAX,
        wanted <= u64::MAX,
    ensures
        taken(shares(data, bin, wanted)) == if wanted <= count_up_to(data, bin) {
            wanted
        } else {
            count_up_to(data, bin)
        },
        forall|i: int|
            0 <= i < shares(data, bin, wanted).len() - 1 ==> (#[trigger] shares(
                data,
                bin,
                wanted,
            )[i]).take == shares(data, bin, wanted)[i].count,
    decreases bin + 1,
{
    if bin >= 0 && wanted > 0 {
        let count = count_in(data, bin);
        lemma_count_bound(data, bin);
        if count == 0 {
            lemma_taken(data, bin - 1, wanted);
        } else {
            let take = if count < wanted {
                count
            } else {
                wanted
            };
            let rest = shares(data, bin - 1, (wanted - take) as nat);
            lemma_taken(data, bin - 1, (wanted - take) as nat);
            let whole = shares(data, bin, wanted);
            assert(whole.drop_first() =~= rest);
            assert forall|i: int| 0 <= i < whole.len() - 1 implies (#[trigger] whole[i]).take
                == whole[i].count by {
                if i > 0 {
                    assert(whole[i] == rest[i - 1]);
                } else if take < count {
                    assert(rest.len() == 0);
                }
            }
        }
    }
}

/// The peak rests on exactly the brightest hundredth: so many values are taken,
/// and a dimmer bin is used only after the brighter ones are used up.
pub proof fn peak_takes_a_hundredth(data: Seq<u16>)
    requires
        data.len() <= u64::MAX,
    ensures
        ({
            let list = shares(data, PEAK_BINS - 1, peak_size(data.len()));
            &&& taken(list) == peak_size(data.len())
            &&& forall|i: int|
                0 <= i < list.len() - 1 ==> (#[trigger] list[i]).take == list[i].count
        }),
{
    lemma_all_counted(data);
    lemma_taken(data, PEAK_BINS - 1, peak_size(data.len()));
}

// ---------------------------------------------------------------------------
// Preview strip
// ---------------------------------------------------------------------------

pub const STRIP_W: usize = 1200;

pub const STRIP_H: usize = 280;

/// A frame thinned out for the preview, with its darkest and brightest value.
pub struct Strip {
    pub samples: Vec<u16>,
    pub w: usize,
    pub h: usize,
    pub low: u16,
    pub high: u16,
}

pub open spec fn at_most(n: int, limit: int) -> int {
    if n < limit {
        n
    } else {
        limit
    }
}

/// The row or column of the frame that stands at a place of the strip.
pub open spec fn source(place: int, frame: int, strip: int) -> int {
    place * frame / strip
}

proof fn lemma_source(place: int, frame: int, strip: int)
    requires
        0 <= place < strip,
        0 < frame,
    ensures
        0 <= source(place, frame, strip) < frame,
        0 <= place * frame <= strip * frame,
{
    assert(0 <= place * frame) by (nonlinear_arith)
        requires
            0 <= place,
            0 < frame,
    ;
    assert(place * frame < strip * frame) by (nonlinear_arith)
        requires
            place < strip,
            0 < frame,
    ;
    assert(0 <= place * frame / strip < frame) by (nonlinear_arith)
        requires
            0 <= place * frame,
            place * frame < strip * frame,
            0 < strip,
    ;
}

proof fn lemma_strip_bounds(x: int, y: int, w: int, h: int)
    requires
        0 <= x < w,
        0 <= y < h,
    ensures
        0 <= y * w + x < w * h,
        0 <= y * w,
{
    assert(0 <= y * w + x < w * h) by (nonlinear_arith)
        requires
            0 <= x < w,
            0 <= y < h,
    ;
    assert(0 <= y * w) by (nonlinear_arith)
        requires
            0 <= y,
            0 <= w,
    ;
}

proof fn lemma_product_limit(a: int, b: int, x: int, y: int)
    requires
        0 <= a <= x,
        0 <= b <= y,
    ensures
        0 <= a * b <= x * y,
{
    assert(0 <= a * b <= x * y) by (nonlinear_arith)
        requires
            0 <= a <= x,
            0 <= b <= y,
    ;
}

/// Place in the frame of the sample at row `y` and column `x` of the strip.
pub open spec fn sample_index(x: int, y: int, fw: int, fh: int, sw: int, sh: int) -> int {
    source(y, fh, sh) * fw + source(x, fw, sw)
}

/// Thins a frame out to at most the size of the strip.
pub fn sample_strip(data: &[u16], fw: usize, fh: usize) -> (strip: Strip)
    requires
        fw * fh <= data@.len(),
    ensures
        fw == 0 || fh == 0 ==> strip.w == 0 && strip.h == 0 && strip.samples@.len() == 0,
        fw > 0 && fh > 0 ==> {
            &&& strip.w == at_most(fw as int, STRIP_W as int)
            &&& strip.h == at_most(fh as int, STRIP_H as int)
            &&& strip.samples@.len() == strip.w * strip.h
            &&& forall|i: int|
                0 <= i < strip.samples@.len() ==> #[trigger] strip.samples@[i]
                    == data@[sample_index(
                    i % (strip.w as int),
                    i / (strip.w as int),
                    fw as int,
                    fh as int,
                    strip.w as int,
                    strip.h as int,
                )]
            &&& forall|i: int|
                0 <= i < strip.samples@.len() ==> strip.low <= #[trigger] strip.samples@[i]
                    <= strip.high
            &&& strip.samples@.contains(strip.low) && strip.samples@.contains(strip.high)
        },
{
    if fw == 0 || fh == 0 {
        return Strip { samples: Vec::new(), w: 0, h: 0, low: 0, high: 0 };
    }
    let len: usize = data.len();
    let sw: usize = if fw < STRIP_W {
        fw
    } else {
        STRIP_W
    };
    let sh: usize = if fh < STRIP_H {
        fh
    } else {
        STRIP_H
    };
    proof {
        lemma_product_limit(sw as int, sh as int, STRIP_W as int, STRIP_H as int);
        assert(0 < sw * sh) by (nonlinear_arith)
            requires
                0 < sw,
                0 < sh,
        ;
    }
    let total: usize = sw * sh;
    let mut samples: Vec<u16> = Vec::new();
    let mut low: u16 = 0xffff;
    let mut high: u16 = 0;
    let mut i: usize = 0;
    while i < total
        invariant
            i <= total,
            total == sw * sh,
            samples@.len() == i,
            0 < sw <= STRIP_W,
            0 < sh <= STRIP_H,
            0 < fw,
            0 < fh,
            fw * fh <= len,
            len == data@.len(),
            forall|k: int|
                0 <= k < i ==> #[trigger] samples@[k] == data@[sample_index(
                    k % (sw as int),
                    k / (sw as int),
                    fw as int,
                    fh as int,
                    sw as int,
                    sh as int,
                )],
            forall|k: int| 0 <= k < i ==> low <= #[trigger] samples@[k] <= high,
            i > 0 ==> samples@.contains(low) && samples@.contains(high),
            i == 0 ==> low == 0xffff && high == 0,
        decreases total - i,
    {
        let x: usize = i % sw;
        let y: usize = i / sw;
        proof {
            assert(0 <= y < sh) by (nonlinear_arith)
                requires
                    0 <= i < sw * sh,
                    0 < sw,
                    y == i / sw,
            ;
            lemma_source(y as int, fh as int, sh as int);
            lemma_source(x as int, fw as int, sw as int);
            lemma_product_limit(sh as int, fh as int, STRIP_H as int, usize::MAX as int);
            lemma_product_limit(sw as int, fw as int, STRIP_W as int, usize::MAX as int);
        }
        let sy: usize = (y as u128 * fh as u128 / sh as u128) as usize;
        let sx: usize = (x as u128 * fw as u128 / sw as u128) as usize;
        proof {
            lemma_strip_bounds(sx as int, sy as int, fw as int, fh as int);
        }
        let v: u16 = data[sy * fw + sx];
        let ghost before = samples@;
        samples.push(v);
        if v < low {
            low = v;
        }
        if v > high {
            high = v;
        }
        proof {
            assert(samples@[i as int] == v);
            if i > 0 {
                let a = choose|k: int| 0 <= k < before.len() && before[k] == low;
                let b = choose|k: int| 0 <= k < before.len() && before[k] == high;
                if low != v {
                    assert(before.contains(low));
                    assert(samples@[a] == low);
                }
                if high != v {
                    assert(before.contains(high));
                    assert(samples@[b] == high);
                }
            }
        }
        i = i + 1;
    }
    Strip { samples, w: sw, h: sh, low, high }
}

// ---------------------------------------------------------------------------
// Continuum and slit profile
// ---------------------------------------------------------------------------

/// Number of positions that reach a level.
pub open spec fn reaching(ratios: Seq<i64>, level: i64) -> nat
    decreases ratios.len(),
{
    if ratios.len() == 0 {
        0
    } else {
        reaching(ratios.drop_last(), level) + if ratios.last() >= level {
            1nat
        } else {
            0nat
        }
    }
}

/// Least number of positions that a mask has to keep: a twentieth, and four.
pub open spec fn mask_minimum(n: nat) -> nat {
    let part = (n + 19) / 20;
    if part < 4 {
        4
    } else {
        part
    }
}

/// The first level that enough positions reach.
pub open spec fn mask_level(ratios: Seq<i64>, levels: Seq<i64>) -> Option<i64>
    decreases levels.len(),
{
    if levels.len() == 0 {
        None
    } else if reaching(ratios, levels[0]) >= mask_minimum(ratios.len()) {
        Some(levels[0])
    } else {
        mask_level(ratios, levels.drop_first())
    }
}

/// Which positions are continuum: those that reach the first level that leaves
/// enough of them. A short profile, or one that reaches no level, is kept whole.
pub fn continuum_mask(ratios: &Vec<i64>, levels: &Vec<i64>) -> (mask: Vec<bool>)
    ensures
        mask@.len() == ratios@.len(),
        forall|i: int|
            0 <= i < ratios@.len() ==> #[trigger] mask@[i] == (ratios@.len() < 16 || match mask_level(
                ratios@,
                levels@,
            ) {
                Some(level) => ratios@[i] >= level,
                None => true,
            }),
{
    let n: usize = ratios.len();
    let mut level: Option<i64> = None;
    if n >= 16 {
        let part: usize = ((n as u128 + 19) / 20) as usize;
        let need: usize = if part < 4 {
            4
        } else {
            part
        };
        let mut l: usize = 0;
        let mut found: bool = false;
        assert(levels@.skip(0) =~= levels@);
        while l < levels.len() && !found
            invariant
                l <= levels@.len(),
                n == ratios@.len(),
                need == mask_minimum(ratios@.len()),
                found ==> level is Some && mask_level(ratios@, levels@) == level,
                !found ==> level is None && mask_level(ratios@, levels@) == mask_level(
                    ratios@,
                    levels@.skip(l as int),
                ),
            decreases levels@.len() - l + if found {
                0int
            } else {
                1int
            },
        {
            let tol: i64 = levels[l];
            let mut count: usize = 0;
            let mut i: usize = 0;
            assert(ratios@.take(0) =~= Seq::<i64>::empty());
            while i < n
                invariant
                    i <= n,
                    n == ratios@.len(),
                    count <= i,
                    count == reaching(ratios@.take(i as int), tol),
                decreases n - i,
            {
                assert(ratios@.take(i + 1).drop_last() =~= ratios@.take(i as int));
                if ratios[i] >= tol {
                    count = count + 1;
                }
                i = i + 1;
            }
            assert(ratios@.take(n as int) =~= ratios@);
            assert(levels@.skip(l as int)[0] == tol);
            assert(levels@.skip(l as int).drop_first() =~= levels@.skip(l + 1));
            if count >= need {
                found = true;
                level = Some(tol);
            }
            l = l + 1;
        }
        if !found {
            assert(levels@.skip(levels@.len() as int).len() == 0);
        }
    }
    let mut mask: Vec<bool> = Vec::new();
    let mut i: usize = 0;
    while i < n
        invariant
            i <= n,
            n == ratios@.len(),
            mask@.len() == i,
            n >= 16 ==> level == mask_level(ratios@, levels@),
            n < 16 ==> level is None,
            forall|k: int|
                0 <= k < i ==> #[trigger] mask@[k] == (ratios@.len() < 16 || match mask_level(
                    ratios@,
                    levels@,
                ) {
                    Some(level) => ratios@[k] >= level,
                    None => true,
                }),
        decreases n - i,
    {
        let keep: bool = match level {
            Some(t) => ratios[i] >= t,
            None => true,
        };
        mask.push(keep);
        i = i + 1;
    }
    mask
}

/// Whether a mask keeps a position; beyond its end everything is kept.
pub open spec fn kept(mask: Seq<bool>, i: int) -> bool {
    i >= mask.len() || mask[i]
}

/// Number of positions kept below `n`.
pub open spec fn kept_below(mask: Seq<bool>, n: int) -> nat
    decreases n,
{
    if n <= 0 {
        0
    } else {
        kept_below(mask, n - 1) + if kept(mask, n - 1) {
            1nat
        } else {
            0nat
        }
    }
}

proof fn lemma_level_reached(ratios: Seq<i64>, levels: Seq<i64>)
    ensures
        mask_level(ratios, levels) matches Some(level) ==> reaching(ratios, level) >= mask_minimum(
            ratios.len(),
        ),
    decreases levels.len(),
{
    if levels.len() > 0 {
        lemma_level_reached(ratios, levels.drop_first());
    }
}

proof fn lemma_kept_reaching(ratios: Seq<i64>, level: i64, mask: Seq<bool>, n: int)
    requires
        0 <= n <= ratios.len() == mask.len(),
        forall|i: int| 0 <= i < mask.len() ==> #[trigger] mask[i] == (ratios[i] >= level),
    ensures
        kept_below(mask, n) == reaching(ratios.take(n), level),
    decreases n,
{
    if n > 0 {
        lemma_kept_reaching(ratios, level, mask, n - 1);
        assert(ratios.take(n).drop_last() =~= ratios.take(n - 1));
        assert(mask[n - 1] == (ratios[n - 1] >= level));
    }
}

proof fn lemma_all_kept(mask: Seq<bool>, n: int)
    requires
        0 <= n <= mask.len(),
        forall|i: int| 0 <= i < mask.len() ==> #[trigger] mask[i],
    ensures
        kept_below(mask, n) == n,
    decreases n,
{
    if n > 0 {
        lemma_all_kept(mask, n - 1);
        assert(mask[n - 1]);
    }
}

/// A mask keeps a short profile whole, and of a longer one at least a twentieth
/// and four positions: it is never empty.
pub proof fn mask_is_never_empty(ratios: Seq<i64>, levels: Seq<i64>, mask: Seq<bool>)
    requires
        mask.len() == ratios.len(),
        forall|i: int|
            0 <= i < ratios.len() ==> #[trigger] mask[i] == (ratios.len() < 16 || match mask_level(
                ratios,
                levels,
            ) {
                Some(level) => ratios[i] >= level,
                None => true,
            }),
    ensures
        ratios.len() < 16 ==> kept_below(mask, mask.len() as int) == ratios.len(),
        ratios.len() >= 16 ==> kept_below(mask, mask.len() as int) >= mask_minimum(ratios.len()),
{
    let n = ratios.len() as int;
    lemma_level_reached(ratios, levels);
    match mask_level(ratios, levels) {
        Some(level) => {
            if n >= 16 {
                lemma_kept_reaching(ratios, level, mask, n);
                assert(ratios.take(n) =~= ratios);
            } else {
                lemma_all_kept(mask, n);
            }
        },
        None => {
            lemma_all_kept(mask, n);
        },
    }
}

/// Sum over the kept positions below `n` of a line of the frame that starts at
/// `first` and has its values `stride` apart.
pub open spec fn line_sum(data: Seq<u16>, mask: Seq<bool>, first: int, stride: int, n: int) -> nat
    decreases n,
{
    if n <= 0 {
        0
    } else {
        line_sum(data, mask, first, stride, n - 1) + if kept(mask, n - 1) {
            data[first + (n - 1) * stride] as nat
        } else {
            0nat
        }
    }
}

/// Sums along the dispersion, for each position on the slit, and how many
/// values each of them holds.
pub struct SlitSums {
    pub sums: Vec<u128>,
    pub count: usize,
}

/// Sums a frame over the kept positions of the dispersion. Where the dispersion
/// runs along x, there is a sum for each row, else for each column. Nothing
/// comes of an empty frame, too little data or a mask that keeps nothing.
pub fn slit_sums(data: &[u16], w: usize, h: usize, dispersion_horizontal: bool, mask: &[bool]) -> (r:
    SlitSums)
    ensures
        ({
            let (along, across) = if dispersion_horizontal {
                (w as int, h as int)
            } else {
                (h as int, w as int)
            };
            let blank = w == 0 || h == 0 || data@.len() < w * h || kept_below(mask@, along) == 0;
            &&& blank ==> r.sums@.len() == 0 && r.count == 0
            &&& !blank ==> {
                &&& r.count == kept_below(mask@, along)
                &&& r.sums@.len() == across
                &&& forall|i: int|
                    0 <= i < across ==> #[trigger] r.sums@[i] == (if dispersion_horizontal {
                        line_sum(data@, mask@, i * w, 1, along)
                    } else {
                        line_sum(data@, mask@, i, w as int, along)
                    })
            }
        }),
{
    let empty = SlitSums { sums: Vec::new(), count: 0 };
    if w == 0 || h == 0 {
        return empty;
    }
    let len: usize = data.len();
    proof {
        lemma_product_limit(w as int, h as int, u64::MAX as int, u64::MAX as int);
    }
    let pixels: u128 = w as u128 * h as u128;
    if (len as u128) < pixels {
        return empty;
    }
    let along: usize = if dispersion_horizontal {
        w
    } else {
        h
    };
    let across: usize = if dispersion_horizontal {
        h
    } else {
        w
    };
    let stride: usize = if dispersion_horizontal {
        1
    } else {
        w
    };
    let mut count: usize = 0;
    let mut i: usize = 0;
    while i < along
        invariant
            i <= along,
            count <= i,
            count == kept_below(mask@, i as int),
        decreases along - i,
    {
        if i >= mask.len() || mask[i] {
            count = count + 1;
        }
        i = i + 1;
    }
    if count == 0 {
        return empty;
    }
    let mut sums: Vec<u128> = Vec::new();
    let mut line: usize = 0;
    while line < across
        invariant
            line <= across,
            0 < w,
            0 < h,
            w * h <= len,
            len == data@.len(),
            along == (if dispersion_horizontal {
                w
            } else {
                h
            }),
            across == (if dispersion_horizontal {
                h
            } else {
                w
            }),
            stride == (if dispersion_horizontal {
                1
            } else {
                w
            }),
            sums@.len() == line,
            forall|k: int|
                0 <= k < line ==> #[trigger] sums@[k] == (if dispersion_horizontal {
                    line_sum(data@, mask@, k * w, 1, along as int)
                } else {
                    line_sum(data@, mask@, k, w as int, along as int)
                }),
        decreases across - line,
    {
        proof {
            if dispersion_horizontal {
                lemma_strip_bounds(0, line as int, w as int, h as int);
            }
        }
        let first: usize = if dispersion_horizontal {
            line * w
        } else {
            line
        };
        let mut sum: u128 = 0;
        let mut p: usize = 0;
        while p < along
            invariant
                p <= along,
                line < across,
                0 < w,
                0 < h,
                w * h <= len,
                len == data@.len(),
                along == (if dispersion_horizontal {
                    w
                } else {
                    h
                }),
                across == (if dispersion_horizontal {
                    h
                } else {
                    w
                }),
                stride == (if dispersion_horizontal {
                    1
                } else {
                    w
                }),
                first == (if dispersion_horizontal {
                    line * w
                } else {
                    line as int
                }),
                sum <= p * 0x1_0000,
                sum == line_sum(data@, mask@, first as int, stride as int, p as int),
            decreases along - p,
        {
            if p >= mask.len() || mask[p] {
                proof {
                    if dispersion_horizontal {
                        lemma_strip_bounds(p as int, line as int, w as int, h as int);
                        assert(p * stride == p) by (nonlinear_arith)
                            requires
                                stride == 1,
                        ;
                    } else {
                        lemma_strip_bounds(line as int, p as int, w as int, h as int);
                        assert(p * stride == p * w);
                    }
                }
                sum = sum + data[first + p * stride] as u128;
            }
            p = p + 1;
        }
        sums.push(sum);
        line = line + 1;
    }
    SlitSums { sums, count }
}

/// The lit part of a profile, from the first lit position to behind the last;
/// a few positions are not enough.
pub fn lit_span(lit: &Vec<bool>) -> (span: Option<(usize, usize)>)
    ensures
        match span {
            Some((lo, hi)) => lo + 8 <= hi <= lit@.len() && lit@[lo as int] && lit@[hi - 1]
                && forall|i: int|
                0 <= i < lit@.len() && #[trigger] lit@[i] ==> lo <= i < hi,
            None => lit@.len() < 8 || forall|i: int, j: int|
                0 <= i < lit@.len() && 0 <= j < lit@.len() && #[trigger] lit@[i] && #[trigger] lit@[j]
                    ==> j - i < 7,
        },
{
    let n: usize = lit.len();
    if n < 8 {
        return None;
    }
    let mut lo: usize = 0;
    while lo < n && !lit[lo]
        invariant
            lo <= n,
            n == lit@.len(),
            forall|i: int| 0 <= i < lo ==> !#[trigger] lit@[i],
        decreases n - lo,
    {
        lo = lo + 1;
    }
    if lo == n {
        return None;
    }
    let mut hi: usize = n;
    while !lit[hi - 1]
        invariant
            lo < hi <= n,
            n == lit@.len(),
            lit@[lo as int],
            forall|i: int| hi <= i < n ==> !#[trigger] lit@[i],
        decreases hi,
    {
        assert(hi - 1 != lo);
        hi = hi - 1;
    }
    if hi - lo < 8 {
        None
    } else {
        Some((lo, hi))
    }
}

/// The outer thirds of a span.
pub fn outer_thirds(lo: usize, hi: usize) -> (r: ((usize, usize), (usize, usize)))
    requires
        lo <= hi,
    ensures
        r.0.0 == lo && r.0.1 == lo + (hi - lo) / 3,
        r.1.0 == hi - (hi - lo) / 3 && r.1.1 == hi,
        r.0.1 <= r.1.0,
{
    let third: usize = (hi - lo) / 3;
    ((lo, lo + third), (hi - third, hi))
}

/// Half the width of the window around the steepest place of a profile, where
/// the place is far enough from its ends.
pub fn edge_half_width(n: usize, steepest: usize) -> (half: Option<usize>)
    requires
        steepest < n,
    ensures
        ({
            let room = at_most(at_most(12, steepest as int), n - 1 - steepest);
            half == if room < 6 {
                None::<usize>
            } else {
                Some(room as usize)
            }
        }),
        half matches Some(h) ==> h <= steepest && steepest + h < n,
{
    let mut room: usize = 12;
    if steepest < room {
        room = steepest;
    }
    if n - 1 - steepest < room {
        room = n - 1 - steepest;
    }
    if room < 6 {
        None
    } else {
        Some(room)
    }
}

/// Where to look for the limb near the boundary of the lit part.
pub struct LimbSearch {
    pub from: usize,
    /// Last place, itself looked at.
    pub to: usize,
    pub half: usize,
}

/// Half the width of the neighbourhood of a limb.
pub open spec fn limb_half(n: int) -> int {
    if n / 100 < 24 {
        24
    } else if n / 100 > 128 {
        128
    } else {
        n / 100
    }
}

/// The neighbourhood of a boundary at `crossing`, of a lit part from `lo` to
/// `hi`. A boundary at the end of the profile has no sky beside it, and a small
/// lit part is no disc.
pub fn limb_search(n: usize, crossing: usize, lo: usize, hi: usize) -> (r: Option<LimbSearch>)
    requires
        n >= 48,
        crossing < n,
        lo <= hi < n,
    ensures
        match r {
            None => crossing < 8 || crossing + 8 >= n || hi - lo < 48,
            Some(s) => {
                &&& 8 <= crossing && crossing + 8 < n && hi - lo >= 48
                &&& s.half == limb_half(n as int)
                &&& s.from == (if crossing - s.half < 8 {
                    8
                } else {
                    crossing - s.half
                })
                &&& s.to == at_most(crossing + s.half, n - 9)
                &&& 8 <= s.from <= s.to && s.to + 9 <= n
            },
        },
{
    if crossing < 8 || crossing >= n - 8 || hi - lo < 48 {
        return None;
    }
    let mut half: usize = n / 100;
    if half < 24 {
        half = 24;
    }
    if half > 128 {
        half = 128;
    }
    let from: usize = if crossing < half + 8 {
        8
    } else {
        crossing - half
    };
    let to: usize = if half > n - 9 - crossing {
        n - 9
    } else {
        crossing + half
    };
    Some(LimbSearch { from, to, half })
}

/// The region around a limb, and how far from it its shoulders are looked at.
pub struct LimbWindow {
    pub start: usize,
    pub end: usize,
    pub shoulder: usize,
}

/// The region around a limb at `centre`, where there is room for one.
pub fn limb_window(n: usize, centre: usize, half: usize) -> (r: Option<LimbWindow>)
    requires
        8 <= centre,
        centre + 9 <= n,
        half <= 128,
    ensures
        ({
            let radius = at_most(at_most(half as int, centre as int), n - 1 - centre);
            match r {
                None => radius < 12,
                Some(w) => radius >= 12 && w.start == centre - radius && w.end == centre + radius + 1
                    && w.shoulder == (if radius * 4 / 5 < 8 {
                    8
                } else {
                    radius * 4 / 5
                }) && w.end <= n && w.shoulder < radius && centre - w.shoulder >= 1 && centre
                    + w.shoulder + 1 < n,
            }
        }),
{
    let mut radius: usize = half;
    if centre < radius {
        radius = centre;
    }
    if n - 1 - centre < radius {
        radius = n - 1 - centre;
    }
    if radius < 12 {
        return None;
    }
    let shoulder: usize = if radius * 4 / 5 < 8 {
        8
    } else {
        radius * 4 / 5
    };
    Some(LimbWindow { start: centre - radius, end: centre + radius + 1, shoulder })
}

// ---------------------------------------------------------------------------
// Lucky selection
// ---------------------------------------------------------------------------

/// Key of a measured value.
#[derive(Clone, Copy, Debug, PartialEq, Eq, Structural)]
pub struct Reading {
    pub key: i64,
}

impl Ranked for Reading {
    open spec fn before(&self, other: &Self) -> bool {
        self.key < other.key
    }

    fn is_before(&self, other: &Self) -> (r: bool) {
        self.key < other.key
    }

    proof fn order_is_strict(a: &Self, b: &Self, c: &Self) {
    }
}

/// Share of the frames that a lucky selection keeps, in hundredths.
pub const LUCKY_PERCENT: usize = 10;

/// Number of readings that are kept: the share, rounded up, at least one.
pub open spec fn lucky_size(n: nat, percent: nat) -> nat {
    let part = (n * percent + 99) / 100;
    if n == 0 {
        0
    } else if part < 1 {
        1
    } else if part > n {
        n
    } else {
        part
    }
}

/// The best readings: the smallest or the largest ones, in order.
pub open spec fn lucky_part(values: Seq<Reading>, want_min: bool, percent: nat) -> Seq<Reading> {
    let sorted = stably_sorted(values);
    let k = lucky_size(values.len(), percent) as int;
    if want_min {
        sorted.take(k)
    } else {
        sorted.skip(values.len() - k)
    }
}

/// Selects the best share of the readings. Averaging a tail, rather than
/// reading off one place in it, is stable where good and bad frames meet.
pub fn lucky_tail(values: &Vec<Reading>, want_min: bool, percent: usize) -> (tail: Vec<Reading>)
    ensures
        tail@ == lucky_part(values@, want_min, percent as nat),
        tail@.len() == lucky_size(values@.len(), percent as nat),
{
    let n: usize = values.len();
    let mut all: Vec<Reading> = Vec::new();
    let mut i: usize = 0;
    while i < n
        invariant
            i <= n,
            n == values@.len(),
            all@ == values@.take(i as int),
        decreases n - i,
    {
        all.push(values[i]);
        assert(all@ =~= values@.take(i + 1));
        i = i + 1;
    }
    assert(values@.take(n as int) =~= values@);
    proof {
        sorting_is_ordered_permutation(values@);
        lemma_product_limit(n as int, percent as int, u64::MAX as int, u64::MAX as int);
    }
    let sorted = stable_sort(all);
    let part: u128 = (n as u128 * percent as u128 + 99) / 100;
    let k: usize = if n == 0 {
        0
    } else if part < 1 {
        1
    } else if part > n as u128 {
        n
    } else {
        part as usize
    };
    let from: usize = if want_min {
        0
    } else {
        n - k
    };
    let mut tail: Vec<Reading> = Vec::new();
    let mut p: usize = 0;
    while p < k
        invariant
            p <= k,
            from + k <= n,
            n == sorted@.len(),
            tail@ == sorted@.subrange(from as int, from + p),
        decreases k - p,
    {
        tail.push(sorted[from + p]);
        assert(tail@ =~= sorted@.subrange(from as int, from + p + 1));
        p = p + 1;
    }
    assert(tail@ =~= lucky_part(values@, want_min, percent as nat));
    tail
}

/// Nothing that is left out of a lucky selection is better than what is in it.
pub proof fn lucky_part_is_best(values: Seq<Reading>, percent: nat, i: int, j: int)
    requires
        0 <= i < values.len(),
        0 <= j < values.len(),
    ensures
        ({
            let s = stably_sorted(values);
            let k = lucky_size(values.len(), percent) as int;
            &&& s.to_multiset() == values.to_multiset()
            &&& i < k <= j ==> s[i].key <= s[j].key
            &&& i < values.len() - k <= j ==> s[i].key <= s[j].key
        }),
{
    sorting_is_ordered_permutation(values);
    let s = stably_sorted(values);
    assert(in_order(s));
    if i < j {
        assert(!s[j].before(&s[i]));
    }
}

proof fn lemma_insertion_keeps_order(a: Seq<Reading>, x: Reading, b: Seq<Reading>, y: Reading)
    requires
        in_order(a),
        in_order(b),
        a.len() == b.len(),
        forall|i: int| 0 <= i < a.len() ==> #[trigger] a[i].key <= b[i].key,
        x.key <= y.key,
    ensures
        inserted(a, x).len() == a.len() + 1,
        inserted(b, y).len() == b.len() + 1,
        forall|i: int|
            0 <= i <= a.len() ==> #[trigger] inserted(a, x)[i].key <= inserted(b, y)[i].key,
    decreases a.len(),
{
    if a.len() > 0 {
        let fa = a.drop_last();
        let fb = b.drop_last();
        let la = a.last();
        let lb = b.last();
        assert(fa.push(la) =~= a && fb.push(lb) =~= b);
        assert(a[a.len() - 1].key <= b[a.len() - 1].key);
        assert(in_order(fa)) by {
            assert forall|i: int, j: int| 0 <= i < j < fa.len() implies !(#[trigger] fa[j].before(
                #[trigger] &fa[i],
            )) by {
                assert(!a[j].before(&a[i]));
            }
        }
        assert(in_order(fb)) by {
            assert forall|i: int, j: int| 0 <= i < j < fb.len() implies !(#[trigger] fb[j].before(
                #[trigger] &fb[i],
            )) by {
                assert(!b[j].before(&b[i]));
            }
        }
        assert forall|i: int| 0 <= i < fa.len() implies #[trigger] fa[i].key <= fb[i].key by {
            assert(a[i].key <= b[i].key);
        }
        if fa.len() > 0 {
            assert(!a[a.len() - 1].before(&a[fa.len() - 1]));
        }
        assert(inserted(fa, la) == a);
        if x.before(&la) && y.before(&lb) {
            lemma_insertion_keeps_order(fa, x, fb, y);
        } else if x.before(&la) {
            lemma_insertion_keeps_order(fa, x, fa, la);
            assert forall|i: int| 0 <= i <= a.len() implies #[trigger] inserted(a, x)[i].key
                <= inserted(b, y)[i].key by {
                if i < a.len() {
                    assert(inserted(fa, x)[i].key <= a[i].key);
                    assert(a[i].key <= b[i].key);
                }
            }
        } else if y.before(&lb) {
            lemma_insertion_keeps_order(fa, la, fb, y);
            assert forall|i: int| 0 <= i <= a.len() implies #[trigger] inserted(a, x)[i].key
                <= inserted(b, y)[i].key by {
                if i < a.len() {
                    assert(inserted(fa, la)[i].key <= inserted(fb, y)[i].key);
                }
            }
        }
    }
}

proof fn lemma_sorting_keeps_order(a: Seq<Reading>, b: Seq<Reading>)
    requires
        a.len() == b.len(),
        forall|i: int| 0 <= i < a.len() ==> #[trigger] a[i].key <= b[i].key,
    ensures
        stably_sorted(a).len() == a.len(),
        stably_sorted(b).len() == a.len(),
        forall|i: int|
            0 <= i < a.len() ==> #[trigger] stably_sorted(a)[i].key <= stably_sorted(b)[i].key,
    decreases a.len(),
{
    if a.len() > 0 {
        let fa = a.drop_last();
        let fb = b.drop_last();
        assert forall|i: int| 0 <= i < fa.len() implies #[trigger] fa[i].key <= fb[i].key by {
            assert(a[i].key <= b[i].key);
        }
        assert(a[a.len() - 1].key <= b[a.len() - 1].key);
        lemma_sorting_keeps_order(fa, fb);
        sorting_is_ordered_permutation(fa);
        sorting_is_ordered_permutation(fb);
        lemma_insertion_keeps_order(stably_sorted(fa), a.last(), stably_sorted(fb), b.last());
    }
}

/// A lucky selection never moves the wrong way: where no reading is greater
/// than it was before, none of those that are kept is, place by place, whether
/// the small or the large ones are kept.
pub proof fn lucky_part_follows_readings(
    before: Seq<Reading>,
    after: Seq<Reading>,
    want_min: bool,
    percent: nat,
)
    requires
        before.len() == after.len(),
        forall|i: int| 0 <= i < before.len() ==> #[trigger] after[i].key <= before[i].key,
    ensures
        lucky_part(after, want_min, percent).len() == lucky_part(before, want_min, percent).len(),
        forall|i: int|
            0 <= i < lucky_part(before, want_min, percent).len() ==> #[trigger] lucky_part(
                after,
                want_min,
                percent,
            )[i].key <= lucky_part(before, want_min, percent)[i].key,
{
    lemma_sorting_keeps_order(after, before);
}

/// Rolling buffer of readings.
pub struct LuckyBuf {
    pub values: Vec<Reading>,
    pub capacity: usize,
}

/// The last `n` elements of a sequence.
pub open spec fn newest<T>(s: Seq<T>, n: int) -> Seq<T> {
    if s.len() <= n {
        s
    } else {
        s.skip(s.len() - n)
    }
}

impl LuckyBuf {
    pub open spec fn valid(&self) -> bool {
        1 <= self.capacity && self.values@.len() <= self.capacity
    }

    pub fn new(capacity: usize) -> (b: LuckyBuf)
        ensures
            b.valid(),
            b.values@.len() == 0,
            b.capacity == (if capacity == 0 {
                1
            } else {
                capacity
            }),
    {
        LuckyBuf {
            values: Vec::new(),
            capacity: if capacity == 0 {
                1
            } else {
                capacity
            },
        }
    }

    /// Adds a reading; the oldest makes room. What is not a number is left out.
    pub fn push(&mut self, reading: Option<Reading>)
        requires
            old(self).valid(),
        ensures
            final(self).valid(),
            final(self).capacity == old(self).capacity,
            final(self).values@ == (match reading {
                Some(r) => newest(old(self).values@.push(r), old(self).capacity as int),
                None => old(self).values@,
            }),
    {
        if let Some(r) = reading {
            let ghost before = self.values@;
            if self.values.len() >= self.capacity {
                let _ = self.values.remove(0);
            }
            self.values.push(r);
            assert(self.values@ =~= newest(before.push(r), self.capacity as int));
        }
    }

    pub fn clear(&mut self)
        requires
            old(self).valid(),
        ensures
            final(self).valid(),
            final(self).capacity == old(self).capacity,
            final(self).values@.len() == 0,
    {
        self.values = Vec::new();
    }

    pub fn len(&self) -> (n: usize)
        ensures
            n == self.values@.len(),
    {
        self.values.len()
    }

    /// The best tenth of the readings.
    pub fn lucky(&self, want_min: bool) -> (tail: Vec<Reading>)
        requires
            self.valid(),
        ensures
            tail@ == lucky_part(self.values@, want_min, LUCKY_PERCENT as nat),
    {
        lucky_tail(&self.values, want_min, LUCKY_PERCENT)
    }
}

// ---------------------------------------------------------------------------
// What the measurements promise
// ---------------------------------------------------------------------------

/// A frame below every ceiling is never clipped, and one that stands at a ceiling
/// everywhere always is.
pub proof fn clipping_needs_a_ceiling(data: Seq<u16>, v: u16)
    ensures
        (forall|i: int| 0 <= i < data.len() ==> !is_adc_ceiling(#[trigger] data[i] as int))
            ==> !is_clipped(data),
        data.len() > 0 && is_adc_ceiling(v as int) && (forall|i: int|
            0 <= i < data.len() ==> #[trigger] data[i] == v) ==> is_clipped(data),
{
    if data.len() > 0 && is_adc_ceiling(v as int) && (forall|i: int|
        0 <= i < data.len() ==> #[trigger] data[i] == v) {
        lemma_occurrences_of_all(data, v);
        assert(data[0] == v);
        assert(data.contains(v));
        assert(is_maximum(data, v));
    }
}

proof fn lemma_occurrences_of_all(data: Seq<u16>, v: u16)
    requires
        forall|i: int| 0 <= i < data.len() ==> #[trigger] data[i] == v,
    ensures
        occurrences(data, v) == data.len(),
    decreases data.len(),
{
    if data.len() > 0 {
        let less = data.drop_last();
        assert forall|i: int| 0 <= i < less.len() implies #[trigger] less[i] == v by {
            assert(data[i] == v);
        }
        lemma_occurrences_of_all(less, v);
        assert(data[data.len() - 1] == v);
    }
}

/// A few hot values clip no frame: fewer than one in two hundred at the largest value.
pub proof fn hot_pixels_do_not_clip(data: Seq<u16>, v: u16)
    requires
        is_maximum(data, v),
        occurrences(data, v) * 200 < data.len(),
    ensures
        !is_clipped(data),
{
    if is_clipped(data) {
        let w = choose|w: u16| #[trigger]
            is_maximum(data, w) && is_adc_ceiling(w as int) && occurrences(data, w) * 200
                >= data.len();
        let i = choose|i: int| 0 <= i < data.len() && data[i] == v;
        let j = choose|j: int| 0 <= j < data.len() && data[j] == w;
        assert(data[i] <= w && data[j] <= v);
    }
}

/// A lucky selection keeps its share of the readings, a started one as a whole, and one
/// at least.
pub proof fn lucky_share_is_kept(n: nat, percent: nat)
    requires
        0 < percent <= 100,
        n > 0,
    ensures
        1 <= lucky_size(n, percent) <= n,
        n * percent <= 100 * lucky_size(n, percent) < n * percent + 100,
{
    assert(n * percent <= 100 * n) by (nonlinear_arith)
        requires
            percent <= 100,
            n > 0,
    ;
    assert(n * percent >= 1) by (nonlinear_arith)
        requires
            percent > 0,
            n > 0,
    ;
}

/// Small readings are kept where small ones are wanted, and large ones otherwise: what is
/// kept is at least as good as everything else.
pub proof fn lucky_side_is_the_wanted_one(values: Seq<Reading>, percent: nat, i: int)
    requires
        0 < percent <= 100,
        0 <= i < values.len(),
    ensures
        ({
            let small = lucky_part(values, true, percent);
            let large = lucky_part(values, false, percent);
            let sorted = stably_sorted(values);
            &&& small.len() == large.len() == lucky_size(values.len(), percent)
            &&& small.len() > 0 && large.len() > 0
            &&& small[0].key <= sorted[i].key <= large.last().key
        }),
{
    lucky_share_is_kept(values.len(), percent);
    sorting_is_ordered_permutation(values);
    let s = stably_sorted(values);
    s.to_multiset_ensures();
    values.to_multiset_ensures();
    assert(s.len() == values.len());
    assert(in_order(s));
    let n = values.len() as int;
    if i > 0 {
        assert(!s[i].before(&s[0]));
    }
    if i < n - 1 {
        assert(!s[n - 1].before(&s[i]));
    }
}

/// The newest readings are kept in their order, and none is dropped before there is no
/// room.
pub proof fn newest_are_kept<T>(s: Seq<T>, n: int)
    requires
        n >= 0,
    ensures
        s.len() <= n ==> newest(s, n) == s,
        s.len() > n ==> newest(s, n).len() == n,
        forall|k: int|
            0 <= k < newest(s, n).len() ==> #[trigger] newest(s, n)[newest(s, n).len() - 1 - k]
                == s[s.len() - 1 - k],
{
}

/// A hundredth of the values counts as the peak, a started hundredth as a whole one.
pub proof fn peak_is_a_hundredth(n: nat)
    ensures
        n <= 100 * peak_size(n) < n + 100,
{
}

/// The preview shows the frame from its first row and column on, evenly thinned out, and
/// as it is where it fits.
pub proof fn preview_spans_the_frame(place: int, frame: int, strip: int)
    requires
        0 <= place < strip,
        0 < frame,
    ensures
        source(0, frame, strip) == 0,
        strip == frame ==> source(place, frame, strip) == place,
        0 <= place * frame - source(place, frame, strip) * strip < strip,
{
    vstd::arithmetic::div_mod::lemma_fundamental_div_mod(place * frame, strip);
    assert(source(place, frame, strip) * strip == strip * (place * frame / strip))
        by (nonlinear_arith)
        requires
            source(place, frame, strip) == place * frame / strip,
    ;
    assert(0 * frame == 0) by (nonlinear_arith);
    if strip == frame {
        vstd::arithmetic::div_mod::lemma_div_multiples_vanish(place, frame);
        assert(place * frame == frame * place) by (nonlinear_arith);
    }
}

/// A level is chosen before every one behind it that would also leave enough.
pub proof fn first_sufficient_level_is_taken(ratios: Seq<i64>, levels: Seq<i64>, n: int)
    requires
        0 <= n < levels.len(),
        reaching(ratios, levels[n]) >= mask_minimum(ratios.len()),
        forall|k: int|
            0 <= k < n ==> reaching(ratios, #[trigger] levels[k]) < mask_minimum(ratios.len()),
    ensures
        mask_level(ratios, levels) == Some(levels[n]),
    decreases levels.len(),
{
    if n > 0 {
        let rest = levels.drop_first();
        assert(levels[0] == levels[0]);
        assert(rest[n - 1] == levels[n]);
        assert forall|k: int| 0 <= k < n - 1 implies reaching(ratios, #[trigger] rest[k])
            < mask_minimum(ratios.len()) by {
            assert(rest[k] == levels[k + 1]);
        }
        first_sufficient_level_is_taken(ratios, rest, n - 1);
    }
}

/// A mask has to keep a twentieth of the positions, and four at least.
pub proof fn mask_keeps_a_twentieth(n: nat)
    ensures
        mask_minimum(n) >= 4,
        20 * mask_minimum(n) >= n,
        n > 80 ==> 20 * mask_minimum(n) < n + 20,
{
}

/// A limb is looked for within a hundredth of the profile, twenty-four places at least
/// and a hundred and twenty-eight at most.
pub proof fn limbs_are_looked_for_within_a_hundredth(n: int)
    requires
        n >= 0,
    ensures
        24 <= limb_half(n) <= 128,
        2_400 <= n < 12_900 ==> limb_half(n) == n / 100,
        n < 2_400 ==> limb_half(n) == 24,
        n >= 12_900 ==> limb_half(n) == 128,
{
}

} // verus!
