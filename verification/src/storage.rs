//! Where settings are kept, and how much room a capture volume has.

use crate::site::Platform;
use crate::double::{as_double, nearest, nearest_integer, round_to_double, DOUBLE_ONE};
use crate::text::{
    chars_of, decimal, decimal_string, joined3, opt_text, text_of, texts, trim, trimmed,
};
use vstd::prelude::*;
use vstd::string::{StrSliceExecFns, StringExecFns};

verus! {

// ---------------------------------------------------------------------------
// Configuration directory
// ---------------------------------------------------------------------------

pub open spec fn part_views(parts: Option<Vec<String>>) -> Option<Seq<Seq<char>>> {
    match parts {
        Some(p) => Some(p@.map_values(|s: String| s@)),
        None => None,
    }
}

/// The pieces of the path of the configuration directory. It carries no
/// version, so that a new build reads the settings of the one before it.
pub open spec fn config_parts(
    platform: Platform,
    appdata: Option<Seq<char>>,
    home: Option<Seq<char>>,
    xdg_config_home: Option<Seq<char>>,
) -> Option<Seq<Seq<char>>> {
    match platform {
        Platform::Windows => match appdata {
            Some(a) => Some(seq![a, "GhostSun"@]),
            None => None,
        },
        Platform::MacOs => match home {
            Some(h) => Some(seq![h, "Library/Application Support"@, "GhostSun"@]),
            None => None,
        },
        Platform::Other => match (xdg_config_home, home) {
            (Some(x), _) => Some(seq![x, "GhostSun"@]),
            (None, Some(h)) => Some(seq![h, ".config"@, "GhostSun"@]),
            (None, None) => None,
        },
    }
}

/// The pieces of the path of the configuration directory, from the variables
/// of the environment.
pub fn config_dir(
    platform: Platform,
    appdata: Option<String>,
    home: Option<String>,
    xdg_config_home: Option<String>,
) -> (parts: Option<Vec<String>>)
    ensures
        part_views(parts) == config_parts(
            platform,
            opt_text(appdata),
            opt_text(home),
            opt_text(xdg_config_home),
        ),
{
    let mut parts: Vec<String> = Vec::new();
    match platform {
        Platform::Windows => match appdata {
            Some(a) => {
                parts.push(a);
            },
            None => {
                return None;
            },
        },
        Platform::MacOs => match home {
            Some(h) => {
                parts.push(h);
                parts.push("Library/Application Support".to_owned());
            },
            None => {
                return None;
            },
        },
        Platform::Other => match (xdg_config_home, home) {
            (Some(x), _) => {
                parts.push(x);
            },
            (None, Some(h)) => {
                parts.push(h);
                parts.push(".config".to_owned());
            },
            (None, None) => {
                return None;
            },
        },
    }
    parts.push("GhostSun".to_owned());
    let ghost wanted = config_parts(
        platform,
        opt_text(appdata),
        opt_text(home),
        opt_text(xdg_config_home),
    );
    assert(parts@.map_values(|s: String| s@) =~= wanted->0);
    Some(parts)
}

// ---------------------------------------------------------------------------
// Capture folder
// ---------------------------------------------------------------------------

/// A line that names a folder.
pub open spec fn names_folder(line: Seq<char>) -> bool {
    trim(line).len() > 0 && trim(line)[0] != '#'
}

/// The first line that names a folder, from position `start` on; the line that
/// is being read has come as far as `at`.
pub open spec fn folder_from(text: Seq<char>, start: int, at: int) -> Option<Seq<char>>
    decreases text.len() - at,
{
    if at < 0 || at >= text.len() {
        let line = text.subrange(start, text.len() as int);
        if names_folder(line) {
            Some(trim(line))
        } else {
            None
        }
    } else if text[at] == '\n' {
        let line = text.subrange(start, at);
        if names_folder(line) {
            Some(trim(line))
        } else {
            folder_from(text, at + 1, at + 1)
        }
    } else {
        folder_from(text, start, at + 1)
    }
}

fn folder_line(chars: &[char], from: usize, to: usize) -> (line: Option<String>)
    requires
        from <= to <= chars@.len(),
    ensures
        opt_text(line) == (if names_folder(chars@.subrange(from as int, to as int)) {
            Some(trim(chars@.subrange(from as int, to as int)))
        } else {
            None
        }),
{
    let line = trimmed(text_of(chars, from, to).as_str());
    if line.as_str().unicode_len() > 0 && line.as_str().get_char(0) != '#' {
        Some(line)
    } else {
        None
    }
}

/// Parts of the path of the file that keeps the observing site.
pub open spec fn site_file_parts(home: Option<Seq<char>>, appdata: Option<Seq<char>>) -> Seq<
    Seq<char>,
> {
    match (home, appdata) {
        (Some(h), _) => seq![h, ".ghostsun"@, "mount_site.json"@],
        (None, Some(a)) => seq![a, "GhostSun"@, "mount_site.json"@],
        (None, None) => seq!["ghostsun_mount_site.json"@],
    }
}

/// Where the observing site is kept.
pub fn site_config_path(home: Option<String>, appdata: Option<String>) -> (parts: Vec<String>)
    ensures
        texts(parts@) == site_file_parts(opt_text(home), opt_text(appdata)),
{
    let ghost wanted = site_file_parts(opt_text(home), opt_text(appdata));
    let mut parts: Vec<String> = Vec::new();
    match (home, appdata) {
        (Some(h), _) => {
            parts.push(h);
            parts.push(".ghostsun".to_owned());
            parts.push("mount_site.json".to_owned());
        },
        (None, Some(a)) => {
            parts.push(a);
            parts.push("GhostSun".to_owned());
            parts.push("mount_site.json".to_owned());
        },
        (None, None) => {
            parts.push("ghostsun_mount_site.json".to_owned());
        },
    }
    assert(texts(parts@) =~= wanted);
    parts
}

/// The folder that a settings file names, whether or not it exists.
pub fn parse_capture_dir(text: &str) -> (folder: Option<String>)
    ensures
        opt_text(folder) == folder_from(text@, 0, 0),
{
    let chars = chars_of(text);
    let mut start: usize = 0;
    let mut i: usize = 0;
    while i < chars.len()
        invariant
            chars@ == text@,
            start <= i <= chars@.len(),
            folder_from(text@, 0, 0) == folder_from(text@, start as int, i as int),
        decreases chars@.len() - i,
    {
        if chars[i] == '\n' {
            let line = folder_line(chars.as_slice(), start, i);
            if line.is_some() {
                return line;
            }
            start = i + 1;
        }
        i = i + 1;
    }
    folder_line(chars.as_slice(), start, chars.len())
}

/// The remembered folder, unless it is not there: a volume that is not mounted
/// must not be recorded to.
pub fn load_capture_dir(folder: Option<String>, is_dir: bool) -> (usable: Option<String>)
    ensures
        usable == (if is_dir {
            folder
        } else {
            None
        }),
{
    if is_dir {
        folder
    } else {
        None
    }
}

pub open spec fn capture_dir_text(dir: Seq<char>) -> Seq<char> {
    "# GhostSun capture folder\n"@ + dir + "\n"@
}

/// The settings file that names a folder.
pub fn save_capture_dir(dir: &str) -> (text: String)
    ensures
        text@ == capture_dir_text(dir@),
{
    joined3("# GhostSun capture folder\n", dir, "\n")
}

/// A path that survives the settings file: one line that is neither empty nor
/// a comment, without white space at its ends.
pub open spec fn storable(dir: Seq<char>) -> bool {
    &&& dir.len() > 0
    &&& dir[0] != '#'
    &&& trim(dir) == dir
    &&& !dir.contains('\n')
}

proof fn lemma_scan_line(text: Seq<char>, start: int, at: int, end: int)
    requires
        0 <= start <= at <= end < text.len(),
        forall|k: int| at <= k < end ==> text[k] != '\n',
        text[end] == '\n',
    ensures
        folder_from(text, start, at) == folder_from(text, start, end),
    decreases end - at,
{
    if at < end {
        lemma_scan_line(text, start, at + 1, end);
    }
}

/// Reading the settings file gives back the folder that was written to it.
pub proof fn capture_dir_round_trip(dir: Seq<char>)
    requires
        storable(dir),
    ensures
        folder_from(capture_dir_text(dir), 0, 0) == Some(dir),
{
    let head = "# GhostSun capture folder\n"@;
    reveal_strlit("# GhostSun capture folder\n");
    reveal_strlit("\n");
    let text = capture_dir_text(dir);
    assert(head.len() == 26);
    assert(text[25] == '\n');
    assert forall|k: int| 0 <= k < 25 implies text[k] != '\n' by {
        assert(text[k] == head[k]);
    }
    lemma_scan_line(text, 0, 0, 25);
    let first = text.subrange(0, 25);
    assert(first[0] == '#');
    assert(!crate::text::is_whitespace('#'));
    assert(trim(first).len() == 0 || trim(first)[0] == '#') by {
        assert(crate::text::trim_start(first) == first);
        lemma_trim_end_keeps_first(first);
    }
    assert(folder_from(text, 0, 25) == folder_from(text, 26, 26));
    let end = 26 + dir.len() as int;
    assert(text[end] == '\n');
    assert forall|k: int| 26 <= k < end implies text[k] != '\n' by {
        assert(text[k] == dir[k - 26]);
        assert(dir.contains(dir[k - 26]));
    }
    lemma_scan_line(text, 26, 26, end);
    assert(text.subrange(26, end) =~= dir);
}

proof fn lemma_trim_end_keeps_first(s: Seq<char>)
    ensures
        crate::text::trim_end(s).len() > 0 ==> crate::text::trim_end(s)[0] == s[0],
    decreases s.len(),
{
    if s.len() > 0 && crate::text::is_whitespace(s.last()) {
        lemma_trim_end_keeps_first(s.drop_last());
    }
}

// ---------------------------------------------------------------------------
// Free space
// ---------------------------------------------------------------------------

/// One directory on the way from a path up to its root.
#[derive(Clone, Copy, Debug, PartialEq, Eq)]
pub struct Probe {
    pub exists: bool,
    /// Free bytes of its volume, as far as they can be had.
    pub free: Option<u64>,
}

/// The free space of the nearest directory that exists.
pub open spec fn nearest_free(probes: Seq<Probe>) -> Option<u64>
    decreases probes.len(),
{
    if probes.len() == 0 {
        None
    } else if probes[0].exists {
        probes[0].free
    } else {
        nearest_free(probes.drop_first())
    }
}

/// Free bytes on the volume of a path that need not exist yet. `probes` are
/// the path and its ancestors, the path itself first.
pub fn free_bytes(probes: &[Probe]) -> (free: Option<u64>)
    ensures
        free == nearest_free(probes@),
{
    let mut i: usize = 0;
    assert(probes@.skip(0) =~= probes@);
    while i < probes.len()
        invariant
            i <= probes@.len(),
            nearest_free(probes@) == nearest_free(probes@.skip(i as int)),
        decreases probes@.len() - i,
    {
        assert(probes@.skip(i as int)[0] == probes@[i as int]);
        assert(probes@.skip(i as int).drop_first() =~= probes@.skip(i + 1));
        if probes[i].exists {
            return probes[i].free;
        }
        i = i + 1;
    }
    None
}

/// Free bytes from the block count and the block size of a volume.
pub fn free_bytes_existing(available_blocks: u64, block_size: u64) -> (free: Option<u64>)
    ensures
        free == (if available_blocks * block_size <= u64::MAX {
            Some((available_blocks * block_size) as u64)
        } else {
            None
        }),
{
    available_blocks.checked_mul(block_size)
}

// ---------------------------------------------------------------------------
// Sizes
// ---------------------------------------------------------------------------

/// The size scaled down by thousands, `steps` times at most, as a double in
/// fixed point; and how many times it was.
pub open spec fn scaled_size(value: nat, done: nat, limit: nat) -> (nat, nat)
    decreases limit - done,
{
    if done < limit && value >= 1000 * DOUBLE_ONE {
        scaled_size(as_double(value, 1000), done + 1, limit)
    } else {
        (value, done)
    }
}

pub open spec fn unit_name(index: nat) -> Seq<char> {
    if index == 0 {
        "B"@
    } else if index == 1 {
        "kB"@
    } else if index == 2 {
        "MB"@
    } else if index == 3 {
        "GB"@
    } else {
        "TB"@
    }
}

/// A size in the largest of bytes, kilobytes, megabytes, gigabytes and
/// terabytes that leaves it at one or more. Whole bytes are counted; otherwise
/// the size is worked out in double precision and shown to one decimal.
pub open spec fn size_text(bytes: nat) -> Seq<char> {
    let (value, unit) = scaled_size(as_double(bytes * DOUBLE_ONE as nat, 1), 0, 4);
    if unit == 0 {
        decimal(bytes) + " B"@
    } else {
        let tenths = nearest(10 * value, DOUBLE_ONE as nat);
        decimal(tenths / 10) + "."@ + decimal(tenths % 10) + " "@ + unit_name(unit)
    }
}

/// A size for people.
pub fn human_bytes(bytes: u64) -> (text: String)
    ensures
        text@ == size_text(bytes as nat),
{
    let mut value: u128 = round_to_double(bytes as u128 * DOUBLE_ONE, 1);
    let ghost start = value as nat;
    let mut unit: usize = 0;
    while value >= 1000 * DOUBLE_ONE && unit < 4
        invariant
            unit <= 4,
            unit == 0 ==> value <= 249230249209671726169463823802564608,
            unit == 1 ==> value <= 498460498419343452338927647605131,
            unit == 2 ==> value <= 996920996838686904677855295212,
            unit == 3 ==> value <= 1993841993677373809355710592,
            unit == 4 ==> value <= 3987683987354747618711423,
            scaled_size(start, 0, 4) == scaled_size(value as nat, unit as nat, 4),
        decreases 4 - unit,
    {
        value = round_to_double(value, 1000);
        unit = unit + 1;
    }
    if unit == 0 {
        let mut text = decimal_string(bytes);
        text.append(" B");
        text
    } else {
        let tenths: u128 = nearest_integer(10 * value, DOUBLE_ONE);
        let whole: u64 = (tenths / 10) as u64;
        let part: u64 = (tenths % 10) as u64;
        let mut text = decimal_string(whole);
        text.append(".");
        text.append(decimal_string(part).as_str());
        text.append(" ");
        let name: &str = match unit {
            1 => "kB",
            2 => "MB",
            3 => "GB",
            _ => "TB",
        };
        text.append(name);
        text
    }
}

// ---------------------------------------------------------------------------
// What the storage promises
// ---------------------------------------------------------------------------

/// The free space of a path that is not there yet is that of the closest folder above
/// it that is.
pub proof fn free_space_is_that_of_the_closest_folder(probes: Seq<Probe>, n: int)
    requires
        0 <= n <= probes.len(),
        forall|k: int| 0 <= k < n ==> !(#[trigger] probes[k]).exists,
    ensures
        n < probes.len() && probes[n].exists ==> nearest_free(probes) == probes[n].free,
        n == probes.len() ==> nearest_free(probes) is None,
    decreases probes.len(),
{
    if probes.len() > 0 && n > 0 {
        let rest = probes.drop_first();
        assert forall|k: int| 0 <= k < n - 1 implies !(#[trigger] rest[k]).exists by {
            assert(rest[k] == probes[k + 1]);
        }
        free_space_is_that_of_the_closest_folder(rest, n - 1);
        if n < probes.len() {
            assert(rest[n - 1] == probes[n]);
        }
    }
}

/// Settings lie in a folder of the program, below the one that the platform has for
/// them; a folder for settings that the user has set comes before the usual one.
pub proof fn settings_have_a_folder_of_their_own(
    platform: Platform,
    appdata: Option<Seq<char>>,
    home: Option<Seq<char>>,
    xdg: Option<Seq<char>>,
)
    ensures
        ({
            let parts = config_parts(platform, appdata, home, xdg);
            &&& (parts matches Some(p) ==> p.len() >= 2 && p.last() == "GhostSun"@)
            &&& (platform == Platform::Windows ==> (parts is Some <==> appdata is Some) && (
            parts is Some ==> parts->0[0] == appdata->0 && parts->0.len() == 2))
            &&& (platform == Platform::MacOs ==> (parts is Some <==> home is Some) && (parts is Some
                ==> parts->0[0] == home->0 && parts->0.len() == 3))
            &&& (platform == Platform::Other ==> (parts is Some <==> xdg is Some || home is Some)
                && (xdg is Some ==> parts->0[0] == xdg->0) && (xdg is None && home is Some
                ==> parts->0[0] == home->0 && parts->0[1] == ".config"@))
        }),
{
}

/// A size below a kilobyte is told in bytes. Otherwise the unit is the largest that
/// leaves it at one or more, up to terabytes.
pub proof fn units_grow_by_thousands(value: nat, done: nat, limit: nat)
    requires
        done <= limit,
    ensures
        ({
            let (v, unit) = scaled_size(value, done, limit);
            &&& done <= unit <= limit
            &&& (unit < limit ==> v < 1000 * DOUBLE_ONE)
            &&& (unit == done <==> value < 1000 * DOUBLE_ONE || done == limit)
            &&& (unit == done ==> v == value)
        }),
    decreases limit - done,
{
    if done < limit && value >= 1000 * DOUBLE_ONE {
        units_grow_by_thousands(as_double(value, 1000), done + 1, limit);
    }
}

} // verus!
