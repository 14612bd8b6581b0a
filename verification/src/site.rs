//! The saved observing site, the list of serial ports and texts that depend on
//! the platform.

use crate::mount_panel::PortInfo;
use crate::order::{stable_sort, stably_sorted, text_before, text_less, text_order_is_strict, Ranked};
use crate::places::{float_text, is_float_text};
use crate::text::{
    chars_of, is_whitespace, opt_text, same_text, strip_leading, strip_trailing, text_of, trim, trim_end, trim_start, trimmed, without_leading, without_trailing,
};
use vstd::prelude::*;
use vstd::string::{StrSliceExecFns, StringExecFns};

verus! {

// ---------------------------------------------------------------------------
// Saved site
// ---------------------------------------------------------------------------

/// Fields of a saved site; the numbers are in decimal notation.
pub struct SavedSite {
    pub latitude: Option<String>,
    pub longitude: Option<String>,
    pub utc_offset_hours: Option<String>,
    pub auto_sync: Option<bool>,
    pub place: Option<String>,
}

pub struct SavedSiteView {
    pub latitude: Option<Seq<char>>,
    pub longitude: Option<Seq<char>>,
    pub utc_offset_hours: Option<Seq<char>>,
    pub auto_sync: Option<bool>,
    pub place: Option<Seq<char>>,
}

impl View for SavedSite {
    type V = SavedSiteView;

    open spec fn view(&self) -> SavedSiteView {
        SavedSiteView {
            latitude: opt_text(self.latitude),
            longitude: opt_text(self.longitude),
            utc_offset_hours: opt_text(self.utc_offset_hours),
            auto_sync: self.auto_sync,
            place: opt_text(self.place),
        }
    }
}

pub open spec fn no_site() -> SavedSiteView {
    SavedSiteView {
        latitude: None,
        longitude: None,
        utc_offset_hours: None,
        auto_sync: None,
        place: None,
    }
}

/// `s` starts with `prefix`.
pub open spec fn has_prefix(s: Seq<char>, prefix: Seq<char>) -> bool {
    s.len() >= prefix.len() && s.take(prefix.len() as int) == prefix
}

/// A number where the text is one, else what was there before.
pub open spec fn number_or(text: Seq<char>, before: Option<Seq<char>>) -> Option<Seq<char>> {
    if is_float_text(text) {
        Some(text)
    } else {
        before
    }
}

/// The site after one more piece of the file. A number that does not read is
/// passed over.
pub open spec fn with_piece(site: SavedSiteView, piece: Seq<char>) -> SavedSiteView {
    let p = trim(piece);
    if has_prefix(p, "\"lat\":"@) {
        SavedSiteView {
            latitude: number_or(trim(p.skip("\"lat\":"@.len() as int)), site.latitude),
            ..site
        }
    } else if has_prefix(p, "\"lon\":"@) {
        SavedSiteView {
            longitude: number_or(trim(p.skip("\"lon\":"@.len() as int)), site.longitude),
            ..site
        }
    } else if has_prefix(p, "\"utc_offset_hours\":"@) {
        SavedSiteView {
            utc_offset_hours: number_or(
                trim(p.skip("\"utc_offset_hours\":"@.len() as int)),
                site.utc_offset_hours,
            ),
            ..site
        }
    } else if has_prefix(p, "\"auto_sync\":"@) {
        SavedSiteView {
            auto_sync: Some(trim(p.skip("\"auto_sync\":"@.len() as int)) == "true"@),
            ..site
        }
    } else if has_prefix(p, "\"place\":"@) {
        SavedSiteView {
            place: Some(
                strip_trailing(
                    strip_leading(trim(p.skip("\"place\":"@.len() as int)), '"'),
                    '"',
                ),
            ),
            ..site
        }
    } else {
        site
    }
}

/// Braces, commas and line ends separate the pieces of the file.
pub open spec fn separates(c: char) -> bool {
    c == '{' || c == '}' || c == ',' || c == '\n'
}

/// The site after the pieces of `raw` that end before `from`, the last one
/// starting at `start`.
pub open spec fn site_from(raw: Seq<char>, start: int, from: int, site: SavedSiteView) -> SavedSiteView
    decreases raw.len() - from,
{
    if from < 0 || from >= raw.len() {
        with_piece(site, raw.subrange(start, raw.len() as int))
    } else if separates(raw[from]) {
        site_from(raw, from + 1, from + 1, with_piece(site, raw.subrange(start, from)))
    } else {
        site_from(raw, start, from + 1, site)
    }
}

/// The rest of a text behind a prefix.
fn behind(s: &str, prefix: &str) -> (rest: Option<String>)
    ensures
        match rest {
            Some(r) => has_prefix(s@, prefix@) && r@ == s@.skip(prefix@.len() as int),
            None => !has_prefix(s@, prefix@),
        },
{
    let n: usize = prefix.unicode_len();
    let length: usize = s.unicode_len();
    if length < n {
        return None;
    }
    let head = s.substring_char(0, n);
    assert(head@ =~= s@.take(n as int));
    if same_text(head, prefix) {
        let tail = s.substring_char(n, length).to_owned();
        assert(tail@ =~= s@.skip(n as int));
        Some(tail)
    } else {
        None
    }
}

fn numeric(text: &str, before: Option<String>) -> (value: Option<String>)
    ensures
        opt_text(value) == number_or(trim(text@), opt_text(before)),
{
    let t = trimmed(text);
    if float_text(t.as_str()) {
        Some(t)
    } else {
        before
    }
}

fn add_piece(site: SavedSite, piece: &str) -> (next: SavedSite)
    ensures
        next@ == with_piece(site@, piece@),
{
    let p = trimmed(piece);
    let SavedSite { latitude, longitude, utc_offset_hours, auto_sync, place } = site;
    if let Some(v) = behind(p.as_str(), "\"lat\":") {
        return SavedSite {
            latitude: numeric(v.as_str(), latitude),
            longitude,
            utc_offset_hours,
            auto_sync,
            place,
        };
    }
    if let Some(v) = behind(p.as_str(), "\"lon\":") {
        return SavedSite {
            latitude,
            longitude: numeric(v.as_str(), longitude),
            utc_offset_hours,
            auto_sync,
            place,
        };
    }
    if let Some(v) = behind(p.as_str(), "\"utc_offset_hours\":") {
        return SavedSite {
            latitude,
            longitude,
            utc_offset_hours: numeric(v.as_str(), utc_offset_hours),
            auto_sync,
            place,
        };
    }
    if let Some(v) = behind(p.as_str(), "\"auto_sync\":") {
        let on: bool = same_text(trimmed(v.as_str()).as_str(), "true");
        return SavedSite {
            latitude,
            longitude,
            utc_offset_hours,
            auto_sync: Some(on),
            place,
        };
    }
    if let Some(v) = behind(p.as_str(), "\"place\":") {
        let name = without_trailing(
            without_leading(trimmed(v.as_str()).as_str(), '"').as_str(),
            '"',
        );
        return SavedSite { latitude, longitude, utc_offset_hours, auto_sync, place: Some(name) };
    }
    SavedSite { latitude, longitude, utc_offset_hours, auto_sync, place }
}

/// Reads a saved site.
pub fn parse_site_settings(raw: &str) -> (site: SavedSite)
    ensures
        site@ == site_from(raw@, 0, 0, no_site()),
{
    let chars = chars_of(raw);
    let mut site = SavedSite {
        latitude: None,
        longitude: None,
        utc_offset_hours: None,
        auto_sync: None,
        place: None,
    };
    let mut start: usize = 0;
    let mut i: usize = 0;
    while i < chars.len()
        invariant
            chars@ == raw@,
            start <= i <= chars@.len(),
            site_from(raw@, 0, 0, no_site()) == site_from(raw@, start as int, i as int, site@),
        decreases chars@.len() - i,
    {
        let c: char = chars[i];
        if c == '{' || c == '}' || c == ',' || c == '\n' {
            let piece = text_of(chars.as_slice(), start, i);
            site = add_piece(site, piece.as_str());
            start = i + 1;
        }
        i = i + 1;
    }
    let piece = text_of(chars.as_slice(), start, chars.len());
    add_piece(site, piece.as_str())
}

/// A text with backslashes and quotes escaped.
pub open spec fn with_escapes(s: Seq<char>) -> Seq<char>
    decreases s.len(),
{
    if s.len() == 0 {
        s
    } else if s.last() == '\\' || s.last() == '"' {
        with_escapes(s.drop_last()) + seq!['\\', s.last()]
    } else {
        with_escapes(s.drop_last()).push(s.last())
    }
}

fn escape_quotes(s: &str) -> (out: String)
    ensures
        out@ == with_escapes(s@),
{
    let chars = chars_of(s);
    let mut out = String::new();
    let mut i: usize = 0;
    assert(s@.take(0) =~= Seq::<char>::empty());
    while i < chars.len()
        invariant
            chars@ == s@,
            i <= chars@.len(),
            out@ == with_escapes(s@.take(i as int)),
        decreases chars@.len() - i,
    {
        let c: char = chars[i];
        let ghost before = out@;
        assert(s@.take(i + 1).drop_last() =~= s@.take(i as int));
        assert(s@.take(i + 1).last() == c);
        if c == '\\' || c == '"' {
            out.push('\\');
            out.push(c);
            assert(out@ =~= before + seq!['\\', c]);
        } else {
            out.push(c);
        }
        i = i + 1;
    }
    assert(s@.take(chars@.len() as int) =~= s@);
    out
}

/// The file of a site. The numbers come in decimal notation.
pub fn site_settings_text(
    latitude: &str,
    longitude: &str,
    utc_offset_hours: &str,
    auto_sync: bool,
    place: &str,
) -> (text: String)
    ensures
        text@ == site_text(latitude@, longitude@, utc_offset_hours@, auto_sync, place@),
{
    let mut text = "{\n  \"lat\": ".to_owned();
    text.append(latitude);
    text.append(",\n  \"lon\": ");
    text.append(longitude);
    text.append(",\n  \"utc_offset_hours\": ");
    text.append(utc_offset_hours);
    text.append(",\n  \"auto_sync\": ");
    text.append(
        if auto_sync {
            "true"
        } else {
            "false"
        },
    );
    text.append(",\n  \"place\": \"");
    text.append(escape_quotes(place).as_str());
    text.append("\"\n}\n");
    text
}

// ---------------------------------------------------------------------------
// What is saved is read back
// ---------------------------------------------------------------------------

/// A text that stands in the file as it is: no separator, quote or backslash.
pub open spec fn is_plain(s: Seq<char>) -> bool {
    forall|i: int|
        0 <= i < s.len() ==> !separates(#[trigger] s[i]) && s[i] != '"' && s[i] != '\\'
}

/// No separator in it.
spec fn is_one_piece(s: Seq<char>) -> bool {
    forall|i: int| 0 <= i < s.len() ==> !separates(#[trigger] s[i])
}

/// Reading goes on in the rest of a text as it would at its start.
proof fn lemma_site_suffix(raw: Seq<char>, cut: int, start: int, from: int, site: SavedSiteView)
    requires
        0 <= cut <= start <= from <= raw.len(),
    ensures
        site_from(raw, start, from, site) == site_from(raw.skip(cut), start - cut, from - cut, site),
    decreases raw.len() - from,
{
    let rest = raw.skip(cut);
    if from == raw.len() {
        assert(raw.subrange(start, raw.len() as int) =~= rest.subrange(
            start - cut,
            rest.len() as int,
        ));
    } else {
        assert(rest[from - cut] == raw[from]);
        assert(raw.subrange(start, from) =~= rest.subrange(start - cut, from - cut));
        if separates(raw[from]) {
            lemma_site_suffix(
                raw,
                cut,
                from + 1,
                from + 1,
                with_piece(site, raw.subrange(start, from)),
            );
        } else {
            lemma_site_suffix(raw, cut, start, from + 1, site);
        }
    }
}

proof fn lemma_piece_from(
    piece: Seq<char>,
    separator: char,
    rest: Seq<char>,
    from: int,
    site: SavedSiteView,
)
    requires
        separates(separator),
        is_one_piece(piece),
        0 <= from <= piece.len(),
    ensures
        site_from(piece + seq![separator] + rest, 0, from, site) == site_from(
            rest,
            0,
            0,
            with_piece(site, piece),
        ),
    decreases piece.len() - from,
{
    let raw = piece + seq![separator] + rest;
    let n = piece.len() as int;
    if from == n {
        assert(raw[n] == separator);
        assert(raw.subrange(0, n) =~= piece);
        lemma_site_suffix(raw, n + 1, n + 1, n + 1, with_piece(site, piece));
        assert(raw.skip(n + 1) =~= rest);
    } else {
        assert(raw[from] == piece[from]);
        lemma_piece_from(piece, separator, rest, from + 1, site);
    }
}

/// The first piece of a text is taken first.
proof fn lemma_piece(
    raw: Seq<char>,
    piece: Seq<char>,
    separator: char,
    rest: Seq<char>,
    site: SavedSiteView,
)
    requires
        raw == piece + seq![separator] + rest,
        separates(separator),
        is_one_piece(piece),
    ensures
        site_from(raw, 0, 0, site) == site_from(rest, 0, 0, with_piece(site, piece)),
{
    lemma_piece_from(piece, separator, rest, 0, site);
}

/// Nothing is taken from an empty piece.
proof fn lemma_empty_piece(site: SavedSiteView)
    ensures
        with_piece(site, Seq::empty()) == site,
{
    let e = Seq::<char>::empty();
    assert(trim(e) == e);
    reveal_strlit("\"lat\":");
    reveal_strlit("\"lon\":");
    reveal_strlit("\"utc_offset_hours\":");
    reveal_strlit("\"auto_sync\":");
    reveal_strlit("\"place\":");
}

/// White space in front is trimmed.
proof fn lemma_indented(text: Seq<char>, spaces: Seq<char>)
    requires
        text.len() > 0,
        !is_whitespace(text[0]),
        !is_whitespace(text.last()),
        spaces == seq![' '] || spaces == seq![' ', ' '],
    ensures
        trim(spaces + text) == text,
        trim(text) == text,
{
    let s = spaces + text;
    assert(trim_start(text) == text);
    assert(trim_end(text) == text);
    if spaces == seq![' '] {
        assert(s.drop_first() =~= text);
    } else {
        assert(s.drop_first() =~= seq![' '] + text);
        assert(s.drop_first().drop_first() =~= text);
        assert(trim_start(s.drop_first()) == trim_start(text));
    }
    assert(trim_start(s) == text);
}

/// The value of a line that starts with its key.
proof fn lemma_keyed(key: Seq<char>, value: Seq<char>)
    requires
        key.len() > 0,
        !is_whitespace(key[0]),
        value.len() > 0,
        !is_whitespace(value[0]),
        !is_whitespace(value.last()),
    ensures
        ({
            let p = key + seq![' '] + value;
            &&& trim(seq![' ', ' '] + p) == p
            &&& has_prefix(p, key)
            &&& trim(p.skip(key.len() as int)) == value
        }),
{
    let p = key + seq![' '] + value;
    assert(p.last() == value.last());
    assert(p[0] == key[0]);
    lemma_indented(p, seq![' ', ' ']);
    assert(p.take(key.len() as int) =~= key);
    assert(p.skip(key.len() as int) =~= seq![' '] + value);
    lemma_indented(value, seq![' ']);
}

/// A key is not the beginning of a line with another key.
proof fn lemma_other_key(p: Seq<char>, key: Seq<char>, at: int)
    requires
        0 <= at < p.len(),
        at < key.len(),
        p[at] != key[at],
    ensures
        !has_prefix(p, key),
{
    if has_prefix(p, key) {
        assert(p.take(key.len() as int)[at] == p[at]);
    }
}

proof fn lemma_number_piece(key: Seq<char>, value: Seq<char>)
    requires
        is_float_text(value),
        key.len() > 0,
        !is_whitespace(key[0]),
        forall|i: int| 0 <= i < key.len() ==> !separates(#[trigger] key[i]),
    ensures
        ({
            let p = key + seq![' '] + value;
            &&& trim(seq![' ', ' '] + p) == p
            &&& has_prefix(p, key)
            &&& trim(p.skip(key.len() as int)) == value
            &&& is_one_piece(seq![' ', ' '] + p)
        }),
{
    crate::saved_focus::float_text_is_plain(value);
    lemma_keyed(key, value);
    let p = key + seq![' '] + value;
    let line = seq![' ', ' '] + p;
    assert forall|i: int| 0 <= i < line.len() implies !separates(#[trigger] line[i]) by {
        let n = key.len() as int;
        if 2 <= i < 2 + n {
            assert(line[i] == key[i - 2]);
        } else if i > 2 + n {
            assert(line[i] == value[i - 3 - n]);
        }
    }
}

/// The same with `true` or `false`, or a quoted text.
proof fn lemma_word_piece(key: Seq<char>, value: Seq<char>)
    requires
        value.len() > 0,
        !is_whitespace(value[0]),
        !is_whitespace(value.last()),
        forall|i: int| 0 <= i < value.len() ==> !separates(#[trigger] value[i]),
        key.len() > 0,
        !is_whitespace(key[0]),
        forall|i: int| 0 <= i < key.len() ==> !separates(#[trigger] key[i]),
    ensures
        ({
            let p = key + seq![' '] + value;
            &&& trim(seq![' ', ' '] + p) == p
            &&& has_prefix(p, key)
            &&& trim(p.skip(key.len() as int)) == value
            &&& is_one_piece(seq![' ', ' '] + p)
        }),
{
    lemma_keyed(key, value);
    let p = key + seq![' '] + value;
    let line = seq![' ', ' '] + p;
    assert forall|i: int| 0 <= i < line.len() implies !separates(#[trigger] line[i]) by {
        let n = key.len() as int;
        if 2 <= i < 2 + n {
            assert(line[i] == key[i - 2]);
        } else if i > 2 + n {
            assert(line[i] == value[i - 3 - n]);
        }
    }
}

/// A text without quotes comes back out of its quotes.
proof fn lemma_unquoted(s: Seq<char>)
    requires
        is_plain(s),
    ensures
        strip_trailing(strip_leading(seq!['"'] + s + seq!['"'], '"'), '"') == s,
        with_escapes(s) == s,
    decreases s.len(),
{
    let q = seq!['"'] + s + seq!['"'];
    assert(q.drop_first() =~= s + seq!['"']);
    lemma_no_escapes(s);
    if s.len() > 0 {
        assert(q.drop_first()[0] == s[0]);
        assert(strip_leading(q.drop_first(), '"') == q.drop_first());
        assert(q.drop_first().drop_last() =~= s);
        assert(s.last() == s[s.len() - 1]);
        assert(strip_trailing(s, '"') == s);
    } else {
        assert(q.drop_first() =~= seq!['"']);
        assert(q.drop_first().drop_first() =~= s);
        assert(strip_leading(q.drop_first(), '"') == strip_leading(s, '"'));
    }
}

proof fn lemma_no_escapes(s: Seq<char>)
    requires
        is_plain(s),
    ensures
        with_escapes(s) == s,
    decreases s.len(),
{
    if s.len() > 0 {
        let front = s.drop_last();
        assert forall|i: int| 0 <= i < front.len() implies !separates(#[trigger] front[i])
            && front[i] != '"' && front[i] != '\\' by {
            assert(front[i] == s[i]);
        }
        lemma_no_escapes(front);
        assert(s.last() == s[s.len() - 1]);
        assert(front.push(s.last()) =~= s);
    }
}

/// The file of a site.
pub open spec fn site_text(
    latitude: Seq<char>,
    longitude: Seq<char>,
    utc_offset_hours: Seq<char>,
    auto_sync: bool,
    place: Seq<char>,
) -> Seq<char> {
    "{\n  \"lat\": "@ + latitude + ",\n  \"lon\": "@ + longitude
        + ",\n  \"utc_offset_hours\": "@ + utc_offset_hours + ",\n  \"auto_sync\": "@ + (
    if auto_sync {
        "true"@
    } else {
        "false"@
    }) + ",\n  \"place\": \""@ + with_escapes(place) + "\"\n}\n"@
}

/// The five lines of the file as pieces.
proof fn lemma_site_lines(
    latitude: Seq<char>,
    longitude: Seq<char>,
    utc_offset_hours: Seq<char>,
    auto_sync: bool,
    place: Seq<char>,
)
    requires
        is_plain(place),
    ensures
        ({
            let e = Seq::<char>::empty();
            let l1 = file_line("\"lat\":"@, latitude);
            let l2 = file_line("\"lon\":"@, longitude);
            let l3 = file_line("\"utc_offset_hours\":"@, utc_offset_hours);
            let l4 = file_line("\"auto_sync\":"@, flag_text(auto_sync));
            let l5 = file_line("\"place\":"@, quoted(place));
            let t6 = seq!['}'] + seq!['\n'];
            let t5 = l5 + seq!['\n'] + t6;
            let t4 = l4 + seq![','] + (e + seq!['\n'] + t5);
            let t3 = l3 + seq![','] + (e + seq!['\n'] + t4);
            let t2 = l2 + seq![','] + (e + seq!['\n'] + t3);
            let t1 = l1 + seq![','] + (e + seq!['\n'] + t2);
            site_text(latitude, longitude, utc_offset_hours, auto_sync, place) == e + seq!['{'] + (e
                + seq!['\n'] + t1)
        }),
{
    lemma_no_escapes(place);
    lemma_first_header();
    lemma_middle_headers();
    lemma_last_headers();
    let two = seq![' ', ' '];
    let e = Seq::<char>::empty();
    let flag = if auto_sync {
        "true"@
    } else {
        "false"@
    };
    let k1 = "\"lat\":"@;
    let k2 = "\"lon\":"@;
    let k3 = "\"utc_offset_hours\":"@;
    let k4 = "\"auto_sync\":"@;
    let k5 = "\"place\":"@;
    let h1 = "{\n  \"lat\": "@;
    let h2 = ",\n  \"lon\": "@;
    let h3 = ",\n  \"utc_offset_hours\": "@;
    let h4 = ",\n  \"auto_sync\": "@;
    let h5 = ",\n  \"place\": \""@;
    let h6 = "\"\n}\n"@;
    let p1 = k1 + seq![' '] + latitude;
    let p2 = k2 + seq![' '] + longitude;
    let p3 = k3 + seq![' '] + utc_offset_hours;
    let p4 = k4 + seq![' '] + flag;
    let p5 = k5 + seq![' '] + (seq!['"'] + place + seq!['"']);
    let t6 = seq!['}'] + seq!['\n'];
    let t5 = two + p5 + seq!['\n'] + t6;
    let t4 = two + p4 + seq![','] + (e + seq!['\n'] + t5);
    let t3 = two + p3 + seq![','] + (e + seq!['\n'] + t4);
    let t2 = two + p2 + seq![','] + (e + seq!['\n'] + t3);
    let t1 = two + p1 + seq![','] + (e + seq!['\n'] + t2);
    lemma_place_join(k5, place);
    lemma_line_join(',', k4, flag, ',', t5);
    lemma_line_join(',', k3, utc_offset_hours, ',', t4);
    lemma_line_join(',', k2, longitude, ',', t3);
    lemma_line_join('{', k1, latitude, ',', t2);
    let r5 = h5 + place + h6;
    let r4 = h4 + flag + r5;
    let r3 = h3 + utc_offset_hours + r4;
    let r2 = h2 + longitude + r3;
    let r1 = h1 + latitude + r2;
    assert(r5 == seq![','] + (e + seq!['\n'] + t5));
    assert(r4 == seq![','] + (e + seq!['\n'] + t4));
    assert(r3 == seq![','] + (e + seq!['\n'] + t3));
    assert(r2 == seq![','] + (e + seq!['\n'] + t2));
    assert(r1 == seq!['{'] + (e + seq!['\n'] + t1));
    lemma_eleven(h1, latitude, h2, longitude, h3, utc_offset_hours, h4, flag, h5, place, h6);
    assert(e + seq!['{'] =~= seq!['{']);
}

/// A line of the file behind its separator.
proof fn lemma_line_join(
    separator: char,
    key: Seq<char>,
    value: Seq<char>,
    next: char,
    rest: Seq<char>,
)
    ensures
        ({
            let two = seq![' ', ' '];
            let e = Seq::<char>::empty();
            let tail = e + seq!['\n'] + rest;
            (seq![separator] + seq!['\n'] + two + key + seq![' ']) + value + (seq![next] + tail)
                == seq![separator] + (e + seq!['\n'] + (two + (key + seq![' '] + value)
                + seq![next] + tail))
        }),
{
    let two = seq![' ', ' '];
    let e = Seq::<char>::empty();
    let tail = e + seq!['\n'] + rest;
    assert((seq![separator] + seq!['\n'] + two + key + seq![' ']) + value + (seq![next] + tail)
        =~= seq![separator] + (e + seq!['\n'] + (two + (key + seq![' '] + value) + seq![next]
        + tail)));
}

/// The last line and what closes the file.
proof fn lemma_place_join(key: Seq<char>, place: Seq<char>)
    ensures
        ({
            let two = seq![' ', ' '];
            let e = Seq::<char>::empty();
            (seq![','] + seq!['\n'] + two + key + seq![' '] + seq!['"']) + place + (seq!['"']
                + seq!['\n'] + seq!['}'] + seq!['\n']) == seq![','] + (e + seq!['\n'] + (two + (key
                + seq![' '] + (seq!['"'] + place + seq!['"'])) + seq!['\n'] + (seq!['}']
                + seq!['\n'])))
        }),
{
    let two = seq![' ', ' '];
    let e = Seq::<char>::empty();
    assert((seq![','] + seq!['\n'] + two + key + seq![' '] + seq!['"']) + place + (seq!['"']
        + seq!['\n'] + seq!['}'] + seq!['\n']) =~= seq![','] + (e + seq!['\n'] + (two + (key
        + seq![' '] + (seq!['"'] + place + seq!['"'])) + seq!['\n'] + (seq!['}'] + seq!['\n']))));
}

/// Brackets around eleven texts in a row.
proof fn lemma_eleven(
    a: Seq<char>,
    b: Seq<char>,
    c: Seq<char>,
    d: Seq<char>,
    e: Seq<char>,
    f: Seq<char>,
    g: Seq<char>,
    h: Seq<char>,
    i: Seq<char>,
    j: Seq<char>,
    k: Seq<char>,
)
    ensures
        a + b + c + d + e + f + g + h + i + j + k == a + b + (c + d + (e + f + (g + h + (i + j
            + k)))),
{
    assert(g + h + i + j + k =~= g + h + (i + j + k));
    lemma_three(e + f, g + h, i + j + k);
    assert(e + f + g + h + i + j + k =~= e + f + (g + h + i + j + k));
    assert(c + d + e + f + g + h + i + j + k =~= c + d + (e + f + g + h + i + j + k));
    assert(a + b + c + d + e + f + g + h + i + j + k =~= a + b + (c + d + e + f + g + h + i + j
        + k));
}

proof fn lemma_three(a: Seq<char>, b: Seq<char>, c: Seq<char>)
    ensures
        a + b + c == a + (b + c),
{
    assert(a + b + c =~= a + (b + c));
}

proof fn lemma_first_header()
    ensures
        "{\n  \"lat\": "@ == seq!['{'] + seq!['\n'] + seq![' ', ' '] + "\"lat\":"@ + seq![' '],
        ",\n  \"lon\": "@ == seq![','] + seq!['\n'] + seq![' ', ' '] + "\"lon\":"@ + seq![' '],
{
    reveal_strlit("{\n  \"lat\": ");
    reveal_strlit(",\n  \"lon\": ");
    reveal_strlit("\"lat\":");
    reveal_strlit("\"lon\":");
    assert("{\n  \"lat\": "@ =~= seq!['{'] + seq!['\n'] + seq![' ', ' '] + "\"lat\":"@ + seq![' ']);
    assert(",\n  \"lon\": "@ =~= seq![','] + seq!['\n'] + seq![' ', ' '] + "\"lon\":"@ + seq![' ']);
}

proof fn lemma_middle_headers()
    ensures
        ",\n  \"utc_offset_hours\": "@ == seq![','] + seq!['\n'] + seq![' ', ' ']
            + "\"utc_offset_hours\":"@ + seq![' '],
        ",\n  \"auto_sync\": "@ == seq![','] + seq!['\n'] + seq![' ', ' '] + "\"auto_sync\":"@
            + seq![' '],
{
    reveal_strlit(",\n  \"utc_offset_hours\": ");
    reveal_strlit(",\n  \"auto_sync\": ");
    reveal_strlit("\"utc_offset_hours\":");
    reveal_strlit("\"auto_sync\":");
    assert(",\n  \"utc_offset_hours\": "@ =~= seq![','] + seq!['\n'] + seq![' ', ' ']
        + "\"utc_offset_hours\":"@ + seq![' ']);
    assert(",\n  \"auto_sync\": "@ =~= seq![','] + seq!['\n'] + seq![' ', ' '] + "\"auto_sync\":"@
        + seq![' ']);
}

proof fn lemma_last_headers()
    ensures
        ",\n  \"place\": \""@ == seq![','] + seq!['\n'] + seq![' ', ' '] + "\"place\":"@ + seq![' ']
            + seq!['"'],
        "\"\n}\n"@ == seq!['"'] + seq!['\n'] + seq!['}'] + seq!['\n'],
{
    reveal_strlit(",\n  \"place\": \"");
    reveal_strlit("\"\n}\n");
    reveal_strlit("\"place\":");
    assert(",\n  \"place\": \""@ =~= seq![','] + seq!['\n'] + seq![' ', ' '] + "\"place\":"@
        + seq![' '] + seq!['"']);
    assert("\"\n}\n"@ =~= seq!['"'] + seq!['\n'] + seq!['}'] + seq!['\n']);
}

/// A line of the file: two spaces, the key, a space and the value.
spec fn file_line(key: Seq<char>, value: Seq<char>) -> Seq<char> {
    seq![' ', ' '] + (key + seq![' '] + value)
}

proof fn lemma_latitude_line(value: Seq<char>, site: SavedSiteView)
    requires
        is_float_text(value),
    ensures
        is_one_piece(file_line("\"lat\":"@, value)),
        with_piece(site, file_line("\"lat\":"@, value)) == (SavedSiteView {
            latitude: Some(value),
            ..site
        }),
{
    reveal_strlit("\"lat\":");
    lemma_number_piece("\"lat\":"@, value);
}

proof fn lemma_longitude_line(value: Seq<char>, site: SavedSiteView)
    requires
        is_float_text(value),
    ensures
        is_one_piece(file_line("\"lon\":"@, value)),
        with_piece(site, file_line("\"lon\":"@, value)) == (SavedSiteView {
            longitude: Some(value),
            ..site
        }),
{
    reveal_strlit("\"lat\":");
    reveal_strlit("\"lon\":");
    let key = "\"lon\":"@;
    let p = key + seq![' '] + value;
    lemma_number_piece(key, value);
    assert(p[2] == 'o');
    lemma_other_key(p, "\"lat\":"@, 2);
}

proof fn lemma_offset_line(value: Seq<char>, site: SavedSiteView)
    requires
        is_float_text(value),
    ensures
        is_one_piece(file_line("\"utc_offset_hours\":"@, value)),
        with_piece(site, file_line("\"utc_offset_hours\":"@, value)) == (SavedSiteView {
            utc_offset_hours: Some(value),
            ..site
        }),
{
    reveal_strlit("\"lat\":");
    reveal_strlit("\"lon\":");
    reveal_strlit("\"utc_offset_hours\":");
    let key = "\"utc_offset_hours\":"@;
    let p = key + seq![' '] + value;
    lemma_number_piece(key, value);
    assert(p[1] == 'u');
    lemma_other_key(p, "\"lat\":"@, 1);
    lemma_other_key(p, "\"lon\":"@, 1);
}

spec fn flag_text(on: bool) -> Seq<char> {
    if on {
        "true"@
    } else {
        "false"@
    }
}

proof fn lemma_sync_line(on: bool, site: SavedSiteView)
    ensures
        is_one_piece(file_line("\"auto_sync\":"@, flag_text(on))),
        with_piece(site, file_line("\"auto_sync\":"@, flag_text(on))) == (SavedSiteView {
            auto_sync: Some(on),
            ..site
        }),
{
    reveal_strlit("true");
    reveal_strlit("false");
    reveal_strlit("\"lat\":");
    reveal_strlit("\"lon\":");
    reveal_strlit("\"utc_offset_hours\":");
    reveal_strlit("\"auto_sync\":");
    let key = "\"auto_sync\":"@;
    let flag = flag_text(on);
    let p = key + seq![' '] + flag;
    lemma_word_piece(key, flag);
    assert(p[1] == 'a');
    lemma_other_key(p, "\"lat\":"@, 1);
    lemma_other_key(p, "\"lon\":"@, 1);
    lemma_other_key(p, "\"utc_offset_hours\":"@, 1);
    assert((flag == "true"@) == on) by {
        if !on {
            assert("true"@.len() != flag.len());
        }
    }
}

spec fn quoted(text: Seq<char>) -> Seq<char> {
    seq!['"'] + text + seq!['"']
}

proof fn lemma_place_line(place: Seq<char>, site: SavedSiteView)
    requires
        is_plain(place),
    ensures
        is_one_piece(file_line("\"place\":"@, quoted(place))),
        with_piece(site, file_line("\"place\":"@, quoted(place))) == (SavedSiteView {
            place: Some(place),
            ..site
        }),
{
    reveal_strlit("\"lat\":");
    reveal_strlit("\"lon\":");
    reveal_strlit("\"utc_offset_hours\":");
    reveal_strlit("\"auto_sync\":");
    reveal_strlit("\"place\":");
    let key = "\"place\":"@;
    let value = quoted(place);
    let p = key + seq![' '] + value;
    assert forall|i: int| 0 <= i < value.len() implies !separates(#[trigger] value[i]) by {
        if 0 < i < value.len() - 1 {
            assert(value[i] == place[i - 1]);
        }
    }
    lemma_word_piece(key, value);
    lemma_unquoted(place);
    assert(p[1] == 'p');
    lemma_other_key(p, "\"lat\":"@, 1);
    lemma_other_key(p, "\"lon\":"@, 1);
    lemma_other_key(p, "\"utc_offset_hours\":"@, 1);
    lemma_other_key(p, "\"auto_sync\":"@, 1);
}

/// A line, its comma and the line end are read as the line alone.
proof fn lemma_read_line(line: Seq<char>, rest: Seq<char>, before: SavedSiteView, after: SavedSiteView)
    requires
        is_one_piece(line),
        with_piece(before, line) == after,
    ensures
        site_from(line + seq![','] + (Seq::empty() + seq!['\n'] + rest), 0, 0, before)
            == site_from(rest, 0, 0, after),
{
    let e = Seq::<char>::empty();
    let tail = e + seq!['\n'] + rest;
    lemma_piece(line + seq![','] + tail, line, ',', tail, before);
    lemma_piece(tail, e, '\n', rest, after);
    lemma_empty_piece(after);
}

/// What stands in front of the lines says nothing of the site.
proof fn lemma_read_head(rest: Seq<char>, site: SavedSiteView)
    ensures
        site_from(Seq::empty() + seq!['{'] + (Seq::empty() + seq!['\n'] + rest), 0, 0, site)
            == site_from(rest, 0, 0, site),
{
    let e = Seq::<char>::empty();
    let tail = e + seq!['\n'] + rest;
    lemma_piece(e + seq!['{'] + tail, e, '{', tail, site);
    lemma_empty_piece(site);
    lemma_piece(tail, e, '\n', rest, site);
}

/// What stands behind the last line says nothing of the site.
proof fn lemma_read_tail(line: Seq<char>, before: SavedSiteView, after: SavedSiteView)
    requires
        is_one_piece(line),
        with_piece(before, line) == after,
    ensures
        site_from(line + seq!['\n'] + (seq!['}'] + seq!['\n']), 0, 0, before) == after,
{
    let e = Seq::<char>::empty();
    let tail = seq!['}'] + seq!['\n'];
    lemma_piece(line + seq!['\n'] + tail, line, '\n', tail, before);
    lemma_empty_piece(after);
    assert(tail =~= e + seq!['}'] + seq!['\n']);
    lemma_piece(tail, e, '}', seq!['\n'], after);
    assert(seq!['\n'] =~= e + seq!['\n'] + e);
    lemma_piece(seq!['\n'], e, '\n', e, after);
    assert(site_from(e, 0, 0, after) == with_piece(after, e.subrange(0, 0)));
    assert(e.subrange(0, 0) =~= e);
}

/// A saved site is read back as it was, unless its name holds a brace, a comma,
/// a line end, a quote or a backslash.
pub proof fn site_round_trip(
    latitude: Seq<char>,
    longitude: Seq<char>,
    utc_offset_hours: Seq<char>,
    auto_sync: bool,
    place: Seq<char>,
)
    requires
        is_float_text(latitude),
        is_float_text(longitude),
        is_float_text(utc_offset_hours),
        is_plain(place),
    ensures
        site_from(
            site_text(latitude, longitude, utc_offset_hours, auto_sync, place),
            0,
            0,
            no_site(),
        ) == (SavedSiteView {
            latitude: Some(latitude),
            longitude: Some(longitude),
            utc_offset_hours: Some(utc_offset_hours),
            auto_sync: Some(auto_sync),
            place: Some(place),
        }),
{
    let e = Seq::<char>::empty();
    let l1 = file_line("\"lat\":"@, latitude);
    let l2 = file_line("\"lon\":"@, longitude);
    let l3 = file_line("\"utc_offset_hours\":"@, utc_offset_hours);
    let l4 = file_line("\"auto_sync\":"@, flag_text(auto_sync));
    let l5 = file_line("\"place\":"@, quoted(place));
    let t5 = l5 + seq!['\n'] + (seq!['}'] + seq!['\n']);
    let t4 = l4 + seq![','] + (e + seq!['\n'] + t5);
    let t3 = l3 + seq![','] + (e + seq!['\n'] + t4);
    let t2 = l2 + seq![','] + (e + seq!['\n'] + t3);
    let t1 = l1 + seq![','] + (e + seq!['\n'] + t2);
    let s0 = no_site();
    let s1 = SavedSiteView { latitude: Some(latitude), ..s0 };
    let s2 = SavedSiteView { longitude: Some(longitude), ..s1 };
    let s3 = SavedSiteView { utc_offset_hours: Some(utc_offset_hours), ..s2 };
    let s4 = SavedSiteView { auto_sync: Some(auto_sync), ..s3 };
    let s5 = SavedSiteView { place: Some(place), ..s4 };
    lemma_site_lines(latitude, longitude, utc_offset_hours, auto_sync, place);
    lemma_read_head(t1, s0);
    lemma_latitude_line(latitude, s0);
    lemma_read_line(l1, t2, s0, s1);
    lemma_longitude_line(longitude, s1);
    lemma_read_line(l2, t3, s1, s2);
    lemma_offset_line(utc_offset_hours, s2);
    lemma_read_line(l3, t4, s2, s3);
    lemma_sync_line(auto_sync, s3);
    lemma_read_line(l4, t5, s3, s4);
    lemma_place_line(place, s4);
    lemma_read_tail(l5, s4, s5);
}

// ---------------------------------------------------------------------------
// Serial ports
// ---------------------------------------------------------------------------

impl Ranked for PortInfo {
    /// Mounts first, then by name.
    open spec fn before(&self, other: &Self) -> bool {
        (self.is_zwo && !other.is_zwo) || (self.is_zwo == other.is_zwo && text_less(
            self.name@,
            other.name@,
        ))
    }

    fn is_before(&self, other: &Self) -> (r: bool) {
        (self.is_zwo && !other.is_zwo) || (self.is_zwo == other.is_zwo && text_before(
            self.name.as_str(),
            other.name.as_str(),
        ))
    }

    proof fn order_is_strict(a: &Self, b: &Self, c: &Self) {
        text_order_is_strict(a.name@, b.name@, c.name@);
    }
}

/// The ports in the order in which they are offered.
pub fn sort_ports(ports: Vec<PortInfo>) -> (sorted: Vec<PortInfo>)
    ensures
        sorted@ == stably_sorted(ports@),
{
    stable_sort(ports)
}

/// A mount is always offered before any other port.
pub proof fn mounts_come_first(ports: Seq<PortInfo>, i: int, j: int)
    requires
        0 <= i < j < stably_sorted(ports).len(),
        stably_sorted(ports)[j].is_zwo,
    ensures
        stably_sorted(ports)[i].is_zwo,
{
    crate::order::sorting_is_ordered_permutation(ports);
    let s = stably_sorted(ports);
    assert(!s[j].before(&s[i]));
}

// ---------------------------------------------------------------------------
// Platform
// ---------------------------------------------------------------------------

/// Operating system family.
#[derive(Clone, Copy, Debug, PartialEq, Eq, Structural)]
pub enum Platform {
    Windows,
    MacOs,
    Other,
}

/// How ports are looked for.
pub fn platform_scan_description(platform: Platform) -> (text: &'static str)
    ensures
        text@ == match platform {
            Platform::Windows => "Windows SetupAPI COM ports"@,
            Platform::MacOs => "macOS IOKit plus /dev/cu.*"@,
            Platform::Other => "system serial ports"@,
        },
{
    match platform {
        Platform::Windows => "Windows SetupAPI COM ports",
        Platform::MacOs => "macOS IOKit plus /dev/cu.*",
        Platform::Other => "system serial ports",
    }
}

/// What to try when no mount is found.
pub fn connection_checklist(platform: Platform) -> (text: &'static str)
    ensures
        text@ == match platform {
            Platform::Windows =>
                "1. Power on the mount.\n2. Connect a data-capable cable to the mount's USB control port.\n3. Check Device Manager > Ports for \"USB Serial Device (COMx)\".\n4. Open ASI Mount and confirm it detects the mount, then return here and refresh."@,
            Platform::MacOs =>
                "1. Power on the mount.\n2. Connect a data-capable cable to the mount's USB control port.\n3. Check System Information > USB for the mount.\n4. Open ASIStudio and confirm it detects the mount, then return here and refresh."@,
            Platform::Other =>
                "Power on the mount, use a data-capable USB cable, confirm it in the system USB/serial device list, then refresh."@,
        },
{
    match platform {
        Platform::Windows =>
            "1. Power on the mount.\n2. Connect a data-capable cable to the mount's USB control port.\n3. Check Device Manager > Ports for \"USB Serial Device (COMx)\".\n4. Open ASI Mount and confirm it detects the mount, then return here and refresh.",
        Platform::MacOs =>
            "1. Power on the mount.\n2. Connect a data-capable cable to the mount's USB control port.\n3. Check System Information > USB for the mount.\n4. Open ASIStudio and confirm it detects the mount, then return here and refresh.",
        Platform::Other =>
            "Power on the mount, use a data-capable USB cable, confirm it in the system USB/serial device list, then refresh.",
    }
}

/// Label of the button that opens the vendor's software.
pub fn native_software_button_label(platform: Platform) -> (text: &'static str)
    ensures
        text@ == match platform {
            Platform::Windows => "Open ASI Mount"@,
            Platform::MacOs => "Open ASIStudio"@,
            Platform::Other => "Open ZWO software page"@,
        },
{
    match platform {
        Platform::Windows => "Open ASI Mount",
        Platform::MacOs => "Open ASIStudio",
        Platform::Other => "Open ZWO software page",
    }
}

/// Warning that the Sun is near the meridian. `minutes` is the distance in
/// time, to the minute.
pub fn meridian_warning(before_transit: bool, minutes: &str) -> (text: String)
    ensures
        text@ == (if before_transit {
            "MERIDIAN WARNING · Sun transits in "@ + minutes@
                + " min. Finish or defer automated scans and supervise the flip."@
        } else {
            "MERIDIAN WARNING · Sun transited "@ + minutes@
                + " min ago. Confirm the mount has flipped and tracking is On before scanning."@
        }),
{
    if before_transit {
        crate::text::joined3(
            "MERIDIAN WARNING · Sun transits in ",
            minutes,
            " min. Finish or defer automated scans and supervise the flip.",
        )
    } else {
        crate::text::joined3(
            "MERIDIAN WARNING · Sun transited ",
            minutes,
            " min ago. Confirm the mount has flipped and tracking is On before scanning.",
        )
    }
}

} // verus!
