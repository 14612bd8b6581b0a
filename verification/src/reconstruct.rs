//! What a reconstruction of a session says and where it writes.

use crate::text::{decimal, decimal_string, joined3, padded, padded_string, texts};
use vstd::prelude::*;
use vstd::string::StringExecFns;

verus! {

/// Line of the log when a scan is taken up; `index` counts from zero.
pub fn scan_line(index: usize, total: usize, reversed: bool) -> (line: String)
    requires
        index < usize::MAX,
    ensures
        line@ == "Reconstructing scan "@ + decimal((index + 1) as nat) + "/"@ + decimal(
            total as nat,
        ) + (if reversed {
            " (reverse)"@
        } else {
            ""@
        }),
{
    let mut line = "Reconstructing scan ".to_owned();
    line.append(decimal_string((index + 1) as u64).as_str());
    line.append("/");
    line.append(decimal_string(total as u64).as_str());
    line.append(if reversed {
        " (reverse)"
    } else {
        ""
    });
    line
}

/// Name of the image of one scan, without its extension; `index` counts from
/// zero.
pub fn scan_stem(index: usize) -> (name: String)
    requires
        index < usize::MAX,
    ensures
        name@ == "reconstruction-"@ + padded((index + 1) as nat, 2),
{
    let mut name = "reconstruction-".to_owned();
    name.append(padded_string((index + 1) as u64, 2).as_str());
    name
}

/// A session of one scan is not stacked.
pub open spec fn needs_stack(scans: nat) -> bool {
    scans != 1
}

/// What stacking reported.
#[derive(Clone, Copy, Debug, PartialEq, Eq)]
pub struct StackReport {
    pub flipped: usize,
    pub used: usize,
}

/// Lines of the log before stacking: what is stacked, and how many of the
/// scans have no time.
pub open spec fn stack_intro(scans: nat, untimed: nat) -> Seq<Seq<char>> {
    let first = seq![
        "Registering and robust-stacking "@ + decimal(scans) + " reconstructions"@,
    ];
    if untimed > 0 {
        first.push(
            decimal(untimed)
                + " scan(s) had no acquisition time, so solar rotation was not compensated"@,
        )
    } else {
        first
    }
}

/// Number of scans without a time.
pub open spec fn untimed(timed: Seq<bool>) -> nat
    decreases timed.len(),
{
    if timed.len() == 0 {
        0
    } else {
        untimed(timed.drop_last()) + if timed.last() {
            0nat
        } else {
            1nat
        }
    }
}

/// The lines before stacking, from whether each scan has a time.
pub fn announce_stack(timed: &Vec<bool>) -> (lines: Vec<String>)
    ensures
        texts(lines@) == stack_intro(timed@.len(), untimed(timed@)),
{
    let mut missing: usize = 0;
    let mut i: usize = 0;
    assert(timed@.take(0) =~= Seq::<bool>::empty());
    while i < timed.len()
        invariant
            i <= timed@.len(),
            missing <= i,
            missing == untimed(timed@.take(i as int)),
        decreases timed@.len() - i,
    {
        assert(timed@.take(i + 1).drop_last() =~= timed@.take(i as int));
        if !timed[i] {
            missing = missing + 1;
        }
        i = i + 1;
    }
    assert(timed@.take(timed@.len() as int) =~= timed@);
    let mut lines: Vec<String> = Vec::new();
    lines.push(
        joined3(
            "Registering and robust-stacking ",
            decimal_string(timed.len() as u64).as_str(),
            " reconstructions",
        ),
    );
    if missing > 0 {
        let mut line = decimal_string(missing as u64);
        line.append(" scan(s) had no acquisition time, so solar rotation was not compensated");
        lines.push(line);
    }
    assert(texts(lines@) =~= stack_intro(timed@.len(), untimed(timed@)));
    lines
}

/// Warnings about what stacking had to mend or drop.
pub open spec fn stack_warnings(scans: nat, report: StackReport) -> Seq<Seq<char>> {
    (if report.flipped > 0 {
        seq![
            "WARNING: "@ + decimal(report.flipped as nat)
                + " scan(s) arrived mirrored and were auto-flipped; direction bookkeeping is wrong"@,
        ]
    } else {
        seq![]
    }) + (if report.used < scans {
        seq![
            "WARNING: only "@ + decimal(report.used as nat) + "/"@ + decimal(scans)
                + " scans survived registration — check scan                  direction bookkeeping"@,
        ]
    } else {
        seq![]
    })
}

pub fn warn_of_stack(scans: usize, report: StackReport) -> (lines: Vec<String>)
    ensures
        texts(lines@) == stack_warnings(scans as nat, report),
{
    let mut lines: Vec<String> = Vec::new();
    if report.flipped > 0 {
        lines.push(
            joined3(
                "WARNING: ",
                decimal_string(report.flipped as u64).as_str(),
                " scan(s) arrived mirrored and were auto-flipped; direction bookkeeping is wrong",
            ),
        );
    }
    if report.used < scans {
        let mut line = joined3("WARNING: only ", decimal_string(report.used as u64).as_str(), "/");
        line.append(decimal_string(scans as u64).as_str());
        line.append(
            " scans survived registration — check scan                  direction bookkeeping",
        );
        lines.push(line);
    }
    assert(texts(lines@) =~= stack_warnings(scans as nat, report));
    lines
}

/// Stacking gives no warning exactly when every scan survived as it came.
pub proof fn silence_means_clean(scans: nat, report: StackReport)
    ensures
        stack_warnings(scans, report).len() == 0 <==> report.flipped == 0 && report.used >= scans,
{
}

/// Name of the final image without its extension.
pub fn final_stem(scans: usize) -> (name: &'static str)
    ensures
        name@ == (if needs_stack(scans as nat) {
            "ghostsun-stacked"@
        } else {
            "ghostsun-final"@
        }),
{
    if scans == 1 {
        "ghostsun-final"
    } else {
        "ghostsun-stacked"
    }
}

/// Title under which the viewer shows the final image.
pub fn output_title(scans: usize) -> (title: String)
    ensures
        title@ == (if needs_stack(scans as nat) {
            "stacked acquisition ("@ + decimal(scans as nat) + " scans)"@
        } else {
            "acquired reconstruction"@
        }),
{
    if scans == 1 {
        "acquired reconstruction".to_owned()
    } else {
        joined3("stacked acquisition (", decimal_string(scans as u64).as_str(), " scans)")
    }
}

/// What is reported when the pipeline gave up without an error of its own.
pub fn panic_text(detail: Option<&str>) -> (text: String)
    ensures
        text@ == "reconstruction panicked ("@ + (match detail {
            Some(d) => d@,
            None => "no further detail"@,
        }) + "); the recorded SER files are intact"@,
{
    let known: &str = match detail {
        Some(d) => d,
        None => "no further detail",
    };
    joined3("reconstruction panicked (", known, "); the recorded SER files are intact")
}

/// Every scan without a time is counted: none where all have one, and all where none
/// has. A line tells of them where there are any.
pub proof fn untimed_scans_are_told(timed: Seq<bool>)
    ensures
        untimed(timed) <= timed.len(),
        untimed(timed) == 0 <==> (forall|i: int| 0 <= i < timed.len() ==> #[trigger] timed[i]),
        stack_intro(timed.len(), untimed(timed)).len() == (if untimed(timed) > 0 {
            2int
        } else {
            1
        }),
    decreases timed.len(),
{
    if timed.len() > 0 {
        let less = timed.drop_last();
        untimed_scans_are_told(less);
        assert(timed[timed.len() - 1] == timed.last());
        assert(forall|i: int| 0 <= i < less.len() ==> less[i] == timed[i]);
        if untimed(timed) == 0 {
            assert forall|i: int| 0 <= i < timed.len() implies #[trigger] timed[i] by {
                if i < less.len() {
                    assert(less[i]);
                }
            }
        }
        if forall|i: int| 0 <= i < timed.len() ==> #[trigger] timed[i] {
            assert forall|i: int| 0 <= i < less.len() implies #[trigger] less[i] by {
                assert(timed[i]);
            }
        }
    }
}

/// Several scans are stacked, and a single one is not.
pub proof fn several_scans_are_stacked(scans: nat)
    ensures
        scans >= 2 ==> needs_stack(scans),
        !needs_stack(1),
{
}

} // verus!
