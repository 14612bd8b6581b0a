//! Recorded sessions on disk: names of scans and folders.

use crate::order::{
    inserted, sorting_is_ordered_permutation, stable_sort, stably_sorted, text_before, text_less,
    text_order_is_strict, Ranked,
};
use crate::text::{
    all_digits, digits_value, joined3, padded, padded_string, parse_digits, same_text,
    written_number_reads_back,
};
use vstd::prelude::*;
use vstd::string::{StrSliceExecFns, StringExecFns};

verus! {

/// Name of the file of a scan, counted from zero.
pub open spec fn scan_name(index: nat) -> Seq<char> {
    "scan-"@ + padded(index + 1, 2) + ".ser"@
}

/// Name of the file of a scan, counted from zero.
pub fn scan_path(index: usize) -> (name: String)
    requires
        index < usize::MAX,
    ensures
        name@ == scan_name(index as nat),
{
    let mut name = "scan-".to_owned();
    name.append(padded_string((index + 1) as u64, 2).as_str());
    name.append(".ser");
    name
}

/// A recorded scan; every second one was swept backwards.
pub struct ScanFile {
    pub name: String,
    pub reversed: bool,
}

/// The files of a run, in the order in which they were recorded.
pub fn session_files(count: usize) -> (files: Vec<ScanFile>)
    ensures
        files@.len() == count,
        forall|i: int|
            0 <= i < count ==> (#[trigger] files@[i]).name@ == scan_name(i as nat)
                && files@[i].reversed == (i % 2 == 1),
{
    let mut files: Vec<ScanFile> = Vec::new();
    let mut i: usize = 0;
    while i < count
        invariant
            i <= count,
            files@.len() == i,
            forall|k: int|
                0 <= k < i ==> (#[trigger] files@[k]).name@ == scan_name(k as nat)
                    && files@[k].reversed == (k % 2 == 1),
        decreases count - i,
    {
        files.push(ScanFile { name: scan_path(i), reversed: i % 2 == 1 });
        i = i + 1;
    }
    files
}

/// A file name that belongs to a session: `scan-` in front, `.ser` behind in
/// either case.
pub open spec fn is_scan_name(name: Seq<char>) -> bool {
    &&& name.len() >= 9
    &&& name.take(5) == "scan-"@
    &&& name[name.len() - 4] == '.'
    &&& (name[name.len() - 3] == 's' || name[name.len() - 3] == 'S')
    &&& (name[name.len() - 2] == 'e' || name[name.len() - 2] == 'E')
    &&& (name[name.len() - 1] == 'r' || name[name.len() - 1] == 'R')
}

/// A file name, ordered by its characters.
pub struct FileName {
    pub text: String,
}

impl Ranked for FileName {
    open spec fn before(&self, other: &Self) -> bool {
        text_less(self.text@, other.text@)
    }

    fn is_before(&self, other: &Self) -> (r: bool) {
        text_before(self.text.as_str(), other.text.as_str())
    }

    proof fn order_is_strict(a: &Self, b: &Self, c: &Self) {
        text_order_is_strict(a.text@, b.text@, c.text@);
    }
}

fn scan_name_matches(name: &str) -> (r: bool)
    ensures
        r == is_scan_name(name@),
{
    let n: usize = name.unicode_len();
    if n < 9 {
        return false;
    }
    let head = name.substring_char(0, 5);
    assert(head@ =~= name@.take(5));
    let s: char = name.get_char(n - 3);
    let e: char = name.get_char(n - 2);
    let r: char = name.get_char(n - 1);
    same_text(head, "scan-") && name.get_char(n - 4) == '.' && (s == 's' || s == 'S')
        && (e == 'e' || e == 'E') && (r == 'r' || r == 'R')
}

/// The number in the name of a scan: the digits between `scan-` and `.ser`,
/// where there are only digits and their number has 64 bits.
pub open spec fn scan_number(name: Seq<char>) -> Option<nat> {
    let body = name.subrange(5, name.len() - 4);
    if is_scan_name(name) && body.len() > 0 && all_digits(body) && digits_value(body) <= u64::MAX {
        Some(digits_value(body))
    } else {
        None
    }
}

fn number_of_scan(name: &str) -> (number: Option<u64>)
    ensures
        match number {
            Some(n) => scan_number(name@) == Some(n as nat),
            None => scan_number(name@) is None,
        },
{
    if !scan_name_matches(name) {
        return None;
    }
    let body = name.substring_char(5, name.unicode_len() - 4);
    assert(body@ =~= name@.subrange(5, name@.len() - 4));
    parse_digits(body)
}

/// Capture order: by the number in the name, then by the name. A name without
/// a number comes behind the numbered ones.
pub open spec fn captured_before(a: Seq<char>, b: Seq<char>) -> bool {
    match (scan_number(a), scan_number(b)) {
        (Some(x), Some(y)) => x < y || (x == y && text_less(a, b)),
        (Some(_), None) => true,
        (None, Some(_)) => false,
        (None, None) => text_less(a, b),
    }
}

/// A name of a scan, in capture order.
pub struct ScanName {
    pub text: String,
}

impl Ranked for ScanName {
    open spec fn before(&self, other: &Self) -> bool {
        captured_before(self.text@, other.text@)
    }

    fn is_before(&self, other: &Self) -> (r: bool) {
        let a = self.text.as_str();
        let b = other.text.as_str();
        match (number_of_scan(a), number_of_scan(b)) {
            (Some(x), Some(y)) => x < y || (x == y && text_before(a, b)),
            (Some(_), None) => true,
            (None, Some(_)) => false,
            (None, None) => text_before(a, b),
        }
    }

    proof fn order_is_strict(a: &Self, b: &Self, c: &Self) {
        text_order_is_strict(a.text@, b.text@, c.text@);
    }
}

/// The sweep of a scan went backwards. The sweeps of a run alternate, so the
/// number in the name tells; `place` stands in for it where there is none.
pub open spec fn swept_back(name: Seq<char>, place: int) -> bool {
    match scan_number(name) {
        Some(n) => n % 2 == 0,
        None => place % 2 == 1,
    }
}

/// Tells the direction of a sweep from the name of its scan.
pub fn is_swept_back(name: &str, place: usize) -> (r: bool)
    ensures
        r == swept_back(name@, place as int),
{
    match number_of_scan(name) {
        Some(n) => n % 2 == 0,
        None => place % 2 == 1,
    }
}

/// The names that belong to a session, as they come.
pub open spec fn scan_names(names: Seq<FileName>) -> Seq<ScanName>
    decreases names.len(),
{
    if names.len() == 0 {
        seq![]
    } else if is_scan_name(names.last().text@) {
        scan_names(names.drop_last()).push(ScanName { text: names.last().text })
    } else {
        scan_names(names.drop_last())
    }
}

/// The scans of a folder in the order in which they were recorded.
pub fn session_scans(names: &Vec<FileName>) -> (scans: Vec<ScanName>)
    ensures
        scans@.len() == scan_names(names@).len(),
        scans@.len() == stably_sorted(scan_names(names@)).len(),
        forall|i: int|
            0 <= i < scans@.len() ==> (#[trigger] scans@[i]).text@ == stably_sorted(
                scan_names(names@),
            )[i].text@,
{
    let ghost all = names@;
    let mut kept: Vec<ScanName> = Vec::new();
    let mut i: usize = 0;
    assert(all.take(0) =~= Seq::<FileName>::empty());
    while i < names.len()
        invariant
            all == names@,
            i <= names@.len(),
            kept@.len() == scan_names(all.take(i as int)).len(),
            forall|k: int|
                0 <= k < kept@.len() ==> (#[trigger] kept@[k]).text@ == scan_names(
                    all.take(i as int),
                )[k].text@,
        decreases names@.len() - i,
    {
        assert(all.take(i + 1).drop_last() =~= all.take(i as int));
        assert(all.take(i + 1).last() == names@[i as int]);
        if scan_name_matches(names[i].text.as_str()) {
            kept.push(ScanName { text: names[i].text.clone() });
        }
        i = i + 1;
    }
    assert(all.take(names@.len() as int) =~= all);
    proof {
        lemma_sorted_alike(kept@, scan_names(all), |x: ScanName, y: ScanName| x.text@ == y.text@);
        sorting_is_ordered_permutation(scan_names(all));
        sorting_is_ordered_permutation(kept@);
    }
    stable_sort(kept)
}

/// Rebuilds a session from the names in its folder. The sweeps alternated, so
/// the number of a scan tells its direction, exactly as during the run.
pub fn session_from_dir(names: &Vec<FileName>, dir: &str) -> (session: Result<Vec<ScanFile>, String>)
    ensures
        ({
            let sorted = stably_sorted(scan_names(names@));
            match session {
                Ok(files) => sorted.len() > 0 && files@.len() == sorted.len() && forall|i: int|
                    0 <= i < sorted.len() ==> (#[trigger] files@[i]).name@ == sorted[i].text@
                        && files@[i].reversed == swept_back(sorted[i].text@, i),
                Err(e) => scan_names(names@).len() == 0 && e@ == "no scan-NN.ser files in "@ + dir@
                    + " — pick a session folder"@,
            }
        }),
{
    let sorted = session_scans(names);
    if sorted.len() == 0 {
        return Err(joined3("no scan-NN.ser files in ", dir, " — pick a session folder"));
    }
    let mut files: Vec<ScanFile> = Vec::new();
    let mut k: usize = 0;
    while k < sorted.len()
        invariant
            k <= sorted@.len(),
            files@.len() == k,
            forall|j: int|
                0 <= j < k ==> (#[trigger] files@[j]).name@ == sorted@[j].text@
                    && files@[j].reversed == swept_back(sorted@[j].text@, j),
        decreases sorted@.len() - k,
    {
        let reversed: bool = is_swept_back(sorted[k].text.as_str(), k);
        files.push(ScanFile { name: sorted[k].text.clone(), reversed });
        k = k + 1;
    }
    Ok(files)
}

/// The name of one of the scans of a run.
pub open spec fn of_run(name: Seq<char>, count: nat) -> bool {
    exists|k: nat| k < count && name == #[trigger] scan_name(k)
}

/// The scans of a run, read back from the names in its folder, come in the order
/// in which they were recorded, however the folder lists them, and each has the
/// direction of its sweep.
pub proof fn session_round_trip(names: Seq<FileName>)
    requires
        names.len() <= u64::MAX,
        forall|i: int| 0 <= i < names.len() ==> of_run((#[trigger] names[i]).text@, names.len()),
        forall|i: int, j: int|
            0 <= i < j < names.len() ==> (#[trigger] names[i]).text@ != (#[trigger] names[j]).text@,
    ensures
        stably_sorted(scan_names(names)).len() == names.len(),
        forall|i: int|
            0 <= i < names.len() ==> {
                let scan = #[trigger] stably_sorted(scan_names(names))[i];
                scan.text@ == scan_name(i as nat) && swept_back(scan.text@, i) == (i % 2 == 1)
            },
{
    broadcast use vstd::seq_lib::group_to_multiset_ensures;

    let n = names.len();
    let listed = scan_names(names);
    let sorted = stably_sorted(listed);
    assert forall|i: int| 0 <= i < n implies is_scan_name((#[trigger] names[i]).text@) by {
        let k = choose|k: nat| k < n && names[i].text@ == #[trigger] scan_name(k);
        lemma_is_scan_name(k);
    }
    lemma_scan_names_whole(names);
    sorting_is_ordered_permutation(listed);
    assert(listed.no_duplicates()) by {
        assert forall|i: int, j: int| 0 <= i < n && 0 <= j < n && i != j implies listed[i]
            != listed[j] by {
            if i < j {
                assert(names[i].text@ != names[j].text@);
            } else {
                assert(names[j].text@ != names[i].text@);
            }
        }
    }
    listed.lemma_multiset_has_no_duplicates();
    sorted.lemma_multiset_has_no_duplicates_conv();
    let places = Seq::new(n, |i: int| scan_number(sorted[i].text@)->0 - 1);
    assert forall|i: int| 0 <= i < n implies 0 <= #[trigger] places[i] < n && sorted[i].text@
        == scan_name(places[i] as nat) by {
        let (at, k) = lemma_listed_scan(names, sorted, i);
        names_sort_as_recorded(k, k + 1);
    }
    assert forall|i: int, j: int| 0 <= i < j < n implies #[trigger] places[i]
        < #[trigger] places[j] by {
        assert(!sorted[j].before(&sorted[i]));
        let (at_i, k_i) = lemma_listed_scan(names, sorted, i);
        let (at_j, k_j) = lemma_listed_scan(names, sorted, j);
        names_sort_as_recorded(k_i, k_i + 1);
        names_sort_as_recorded(k_j, k_j + 1);
        if places[i] == places[j] {
            assert(listed[at_i] == listed[at_j]);
            assert(sorted[i] != sorted[j]);
        }
    }
    lemma_ascending_places(places);
    assert forall|i: int| 0 <= i < n implies {
        let scan = #[trigger] sorted[i];
        scan.text@ == scan_name(i as nat) && swept_back(scan.text@, i) == (i % 2 == 1)
    } by {
        assert(places[i] == i);
        names_sort_as_recorded(i as nat, (i + 1) as nat);
    }
}

/// Where a sorted scan stood in the listing, and which scan it is.
proof fn lemma_listed_scan(names: Seq<FileName>, sorted: Seq<ScanName>, i: int) -> (r: (int, nat))
    requires
        scan_names(names).len() == names.len(),
        forall|j: int|
            0 <= j < names.len() ==> (#[trigger] scan_names(names)[j]).text@ == names[j].text@,
        sorted.to_multiset() == scan_names(names).to_multiset(),
        0 <= i < sorted.len(),
        forall|j: int| 0 <= j < names.len() ==> of_run((#[trigger] names[j]).text@, names.len()),
    ensures
        0 <= r.0 < names.len() && sorted[i] == scan_names(names)[r.0],
        r.1 < names.len() && sorted[i].text@ == scan_name(r.1),
{
    broadcast use vstd::seq_lib::group_to_multiset_ensures;

    assert(sorted.contains(sorted[i]));
    assert(sorted.to_multiset().count(sorted[i]) > 0);
    assert(scan_names(names).contains(sorted[i]));
    let at = choose|at: int| 0 <= at < names.len() && scan_names(names)[at] == sorted[i];
    assert(names[at].text@ == sorted[i].text@);
    let k = choose|k: nat| k < names.len() && names[at].text@ == #[trigger] scan_name(k);
    (at, k)
}

/// Numbers below a count that ascend as often as the count are all of them.
proof fn lemma_ascending_places(places: Seq<int>)
    requires
        forall|i: int| 0 <= i < places.len() ==> 0 <= #[trigger] places[i] < places.len(),
        forall|i: int, j: int|
            0 <= i < j < places.len() ==> #[trigger] places[i] < #[trigger] places[j],
    ensures
        forall|i: int| 0 <= i < places.len() ==> #[trigger] places[i] == i,
{
    assert forall|i: int| 0 <= i < places.len() implies #[trigger] places[i] == i by {
        lemma_place_from_below(places, i);
        lemma_place_from_above(places, i);
    }
}

proof fn lemma_place_from_below(places: Seq<int>, i: int)
    requires
        0 <= i < places.len(),
        forall|k: int| 0 <= k < places.len() ==> 0 <= #[trigger] places[k] < places.len(),
        forall|k: int, j: int|
            0 <= k < j < places.len() ==> #[trigger] places[k] < #[trigger] places[j],
    ensures
        places[i] >= i,
    decreases i,
{
    if i > 0 {
        lemma_place_from_below(places, i - 1);
        assert(places[i - 1] < places[i]);
    }
}

proof fn lemma_place_from_above(places: Seq<int>, i: int)
    requires
        0 <= i < places.len(),
        forall|k: int| 0 <= k < places.len() ==> 0 <= #[trigger] places[k] < places.len(),
        forall|k: int, j: int|
            0 <= k < j < places.len() ==> #[trigger] places[k] < #[trigger] places[j],
    ensures
        places[i] <= i,
    decreases places.len() - i,
{
    if i + 1 < places.len() {
        lemma_place_from_above(places, i + 1);
        assert(places[i] < places[i + 1]);
    }
}

/// Names of scans are all kept.
proof fn lemma_scan_names_whole(names: Seq<FileName>)
    requires
        forall|i: int| 0 <= i < names.len() ==> is_scan_name((#[trigger] names[i]).text@),
    ensures
        scan_names(names).len() == names.len(),
        forall|i: int|
            0 <= i < names.len() ==> (#[trigger] scan_names(names)[i]) == (ScanName {
                text: names[i].text,
            }),
    decreases names.len(),
{
    if names.len() > 0 {
        let front = names.drop_last();
        assert forall|i: int| 0 <= i < front.len() implies is_scan_name(
            (#[trigger] front[i]).text@,
        ) by {
            assert(front[i] == names[i]);
        }
        lemma_scan_names_whole(front);
        assert(names[names.len() - 1] == names.last());
    }
}

proof fn lemma_is_scan_name(index: nat)
    ensures
        is_scan_name(scan_name(index)),
        scan_name(index).subrange(5, scan_name(index).len() - 4) == padded(index + 1, 2),
{
    reveal_strlit("scan-");
    reveal_strlit(".ser");
    written_number_reads_back(index + 1, 2);
    let name = scan_name(index);
    let n = padded(index + 1, 2).len() as int;
    assert(name.len() == n + 9);
    assert(name.take(5) =~= "scan-"@);
    assert(name.subrange(5, name.len() - 4) =~= padded(index + 1, 2));
    assert(name[n + 5] == ".ser"@[0] && name[n + 6] == ".ser"@[1]);
    assert(name[n + 7] == ".ser"@[2] && name[n + 8] == ".ser"@[3]);
}

/// The names of scans stand in the order of the scans, and each holds the
/// number of its scan.
pub proof fn names_sort_as_recorded(a: nat, b: nat)
    requires
        a < b,
        a < u64::MAX,
    ensures
        scan_number(scan_name(a)) == Some(a + 1),
        captured_before(scan_name(a), scan_name(b)),
{
    lemma_is_scan_name(a);
    lemma_is_scan_name(b);
    written_number_reads_back(a + 1, 2);
    written_number_reads_back(b + 1, 2);
}

/// A folder below the one that was chosen.
pub struct SubFolder {
    pub name: FileName,
    /// It holds scans.
    pub scans: bool,
}

/// Where the sessions are.
pub struct Sessions {
    /// The chosen folder is a session itself.
    pub root: bool,
    /// These folders below it are.
    pub below: Vec<FileName>,
}

pub open spec fn with_scans(folders: Seq<SubFolder>) -> Seq<FileName>
    decreases folders.len(),
{
    if folders.len() == 0 {
        seq![]
    } else if folders.last().scans {
        with_scans(folders.drop_last()).push(folders.last().name)
    } else {
        with_scans(folders.drop_last())
    }
}

/// The sessions under a folder: the folder itself where it holds scans, and the
/// folders one level below that do, by name.
pub fn discover_sessions(root_scans: bool, folders: &Vec<SubFolder>) -> (r: Sessions)
    ensures
        r.root == root_scans,
        r.below@.len() == stably_sorted(with_scans(folders@)).len(),
        forall|i: int|
            0 <= i < r.below@.len() ==> (#[trigger] r.below@[i]).text@ == stably_sorted(
                with_scans(folders@),
            )[i].text@,
{
    let ghost all = folders@;
    let mut kept: Vec<FileName> = Vec::new();
    let mut i: usize = 0;
    assert(all.take(0) =~= Seq::<SubFolder>::empty());
    while i < folders.len()
        invariant
            all == folders@,
            i <= folders@.len(),
            kept@.len() == with_scans(all.take(i as int)).len(),
            forall|k: int|
                0 <= k < kept@.len() ==> (#[trigger] kept@[k]).text@ == with_scans(
                    all.take(i as int),
                )[k].text@,
        decreases folders@.len() - i,
    {
        assert(all.take(i + 1).drop_last() =~= all.take(i as int));
        assert(all.take(i + 1).last() == folders@[i as int]);
        if folders[i].scans {
            kept.push(FileName { text: folders[i].name.text.clone() });
        }
        i = i + 1;
    }
    assert(all.take(folders@.len() as int) =~= all);
    proof {
        lemma_sorted_alike(kept@, with_scans(all), |x: FileName, y: FileName| x.text@ == y.text@);
    }
    Sessions { root: root_scans, below: stable_sort(kept) }
}

/// Items that are alike to the order sort alike.
proof fn lemma_sorted_alike<T: Ranked>(a: Seq<T>, b: Seq<T>, alike: spec_fn(T, T) -> bool)
    requires
        a.len() == b.len(),
        forall|k: int| 0 <= k < a.len() ==> alike(#[trigger] a[k], b[k]),
        forall|x: T, y: T, u: T, v: T|
            #[trigger] alike(x, y) && #[trigger] alike(u, v) ==> x.before(&u) == y.before(&v),
    ensures
        stably_sorted(a).len() == stably_sorted(b).len(),
        forall|k: int|
            0 <= k < stably_sorted(a).len() ==> alike(
                #[trigger] stably_sorted(a)[k],
                stably_sorted(b)[k],
            ),
    decreases a.len(),
{
    if a.len() > 0 {
        assert(alike(a[a.len() - 1], b[b.len() - 1]));
        assert forall|k: int| 0 <= k < a.drop_last().len() implies alike(
            #[trigger] a.drop_last()[k],
            b.drop_last()[k],
        ) by {
            assert(alike(a[k], b[k]));
        }
        lemma_sorted_alike(a.drop_last(), b.drop_last(), alike);
        lemma_inserted_alike(
            stably_sorted(a.drop_last()),
            stably_sorted(b.drop_last()),
            a.last(),
            b.last(),
            alike,
        );
    }
}

proof fn lemma_inserted_alike<T: Ranked>(
    a: Seq<T>,
    b: Seq<T>,
    x: T,
    y: T,
    alike: spec_fn(T, T) -> bool,
)
    requires
        a.len() == b.len(),
        forall|k: int| 0 <= k < a.len() ==> alike(#[trigger] a[k], b[k]),
        alike(x, y),
        forall|p: T, q: T, u: T, v: T|
            #[trigger] alike(p, q) && #[trigger] alike(u, v) ==> p.before(&u) == q.before(&v),
    ensures
        inserted(a, x).len() == inserted(b, y).len(),
        forall|k: int|
            0 <= k < inserted(a, x).len() ==> alike(
                #[trigger] inserted(a, x)[k],
                inserted(b, y)[k],
            ),
    decreases a.len(),
{
    if a.len() > 0 {
        assert(alike(a[a.len() - 1], b[b.len() - 1]));
        if x.before(&a.last()) {
            assert forall|k: int| 0 <= k < a.drop_last().len() implies alike(
                #[trigger] a.drop_last()[k],
                b.drop_last()[k],
            ) by {
                assert(alike(a[k], b[k]));
            }
            lemma_inserted_alike(a.drop_last(), b.drop_last(), x, y, alike);
        }
    }
}

// ---------------------------------------------------------------------------
// What a session promises
// ---------------------------------------------------------------------------

/// A scan counts as swept back exactly where the run swept it against the direction of
/// its first sweep, whatever that direction was.
pub proof fn directions_match_the_run(first: crate::mount::Direction, index: nat, place: int)
    requires
        index < u64::MAX,
    ensures
        swept_back(scan_name(index), place) <==> crate::scan::sweep_direction(first, index as int)
            != first,
{
    names_sort_as_recorded(index, index + 1);
    crate::mount::opposite_undoes(first);
}

/// Whatever else lies in a folder, every scan in it belongs to the session, and nothing
/// else does.
pub proof fn sessions_hold_the_scans(names: Seq<FileName>)
    ensures
        forall|i: int|
            0 <= i < scan_names(names).len() ==> is_scan_name(
                (#[trigger] scan_names(names)[i]).text@,
            ) && exists|k: int|
                0 <= k < names.len() && #[trigger] names[k].text == scan_names(names)[i].text,
        forall|k: int|
            0 <= k < names.len() && is_scan_name((#[trigger] names[k]).text@) ==> exists|i: int|
                0 <= i < scan_names(names).len() && (#[trigger] scan_names(names)[i]).text
                    == names[k].text,
    decreases names.len(),
{
    if names.len() > 0 {
        let less = names.drop_last();
        sessions_hold_the_scans(less);
        let all = scan_names(names);
        let old = scan_names(less);
        assert forall|i: int| 0 <= i < all.len() implies is_scan_name((#[trigger] all[i]).text@)
            && exists|k: int| 0 <= k < names.len() && #[trigger] names[k].text == all[i].text by {
            if i < old.len() {
                assert(all[i] == old[i]);
                let k = choose|k: int| 0 <= k < less.len() && #[trigger] less[k].text
                    == old[i].text;
                assert(names[k].text == all[i].text);
            } else {
                assert(names[names.len() - 1].text == all[i].text);
            }
        }
        assert forall|k: int|
            0 <= k < names.len() && is_scan_name((#[trigger] names[k]).text@) implies exists|i: int|
            0 <= i < all.len() && (#[trigger] all[i]).text == names[k].text by {
            if k < less.len() {
                assert(less[k] == names[k]);
                let i = choose|i: int| 0 <= i < old.len() && (#[trigger] old[i]).text
                    == less[k].text;
                assert(all[i] == old[i]);
            } else {
                assert(all[all.len() - 1].text == names[k].text);
            }
        }
    }
}

/// A folder of this name holds scans.
pub open spec fn holds_scans(folders: Seq<SubFolder>, name: FileName) -> bool {
    exists|k: int|
        0 <= k < folders.len() && (#[trigger] folders[k]).scans && folders[k].name == name
}

/// The folders that hold scans are found, each of them, and no other.
pub proof fn folders_with_scans_are_found(folders: Seq<SubFolder>, name: FileName)
    ensures
        with_scans(folders).contains(name) <==> holds_scans(folders, name),
    decreases folders.len(),
{
    if folders.len() > 0 {
        let less = folders.drop_last();
        let last = folders.len() - 1;
        folders_with_scans_are_found(less, name);
        let all = with_scans(folders);
        let old = with_scans(less);
        if all.contains(name) {
            if old.contains(name) {
                let k = choose|k: int|
                    0 <= k < less.len() && (#[trigger] less[k]).scans && less[k].name == name;
                assert(folders[k] == less[k]);
            } else {
                let i = choose|i: int| 0 <= i < all.len() && all[i] == name;
                assert(i < old.len() ==> old[i] == name);
                assert(folders[last].scans && folders[last].name == name);
            }
        }
        if holds_scans(folders, name) {
            let k = choose|k: int|
                0 <= k < folders.len() && (#[trigger] folders[k]).scans && folders[k].name == name;
            if k < last {
                assert(less[k] == folders[k]);
                let i = choose|i: int| 0 <= i < old.len() && old[i] == name;
                assert(all[i] == name);
            } else {
                assert(all[all.len() - 1] == name);
            }
        }
    }
}

/// No scan comes before itself, and of two scans at most one comes before the other. A
/// smaller number always does.
pub proof fn capture_order_is_an_order(a: Seq<char>, b: Seq<char>)
    ensures
        !captured_before(a, a),
        !(captured_before(a, b) && captured_before(b, a)),
        scan_number(a) is Some && scan_number(b) is Some && scan_number(a)->0 < scan_number(b)->0
            ==> captured_before(a, b),
        scan_number(a) is Some && scan_number(b) is None ==> captured_before(a, b),
{
    text_order_is_strict(a, b, a);
    text_order_is_strict(a, a, a);
}

} // verus!
