//! Place search for the observing site: the query and what comes back.

use crate::text::{all_digits, chars_of, is_decimal_digit, opt_text, text_of};
use vstd::prelude::*;
use vstd::string::{StrSliceExecFns, StringExecFns};

verus! {

/// At most this many places are offered.
pub const MAX_PLACES: usize = 6;

/// Longer place names are cut.
pub const MAX_PLACE_CHARS: usize = 72;

// ---------------------------------------------------------------------------
// Query
// ---------------------------------------------------------------------------

pub open spec fn hex_digit(d: int) -> char {
    if d < 10 {
        (48 + d) as char
    } else {
        (55 + d) as char
    }
}

/// A byte that stands for itself in a query.
pub open spec fn is_plain_byte(b: u8) -> bool {
    ||| 65 <= b <= 90
    ||| 97 <= b <= 122
    ||| 48 <= b <= 57
    ||| b == 45
    ||| b == 95
    ||| b == 46
    ||| b == 126
}

/// One byte of a query: letters, digits and `-_.~` as they are, a space as a
/// plus sign, anything else as a percent sign and two hexadecimal digits.
pub open spec fn encoded_byte(b: u8) -> Seq<char> {
    if is_plain_byte(b) {
        seq![b as char]
    } else if b == 32 {
        seq!['+']
    } else {
        seq!['%', hex_digit(b as int / 16), hex_digit(b as int % 16)]
    }
}

/// The bytes of a query, encoded one after another.
pub open spec fn encoded_bytes(bytes: Seq<u8>) -> Seq<char>
    decreases bytes.len(),
{
    if bytes.len() == 0 {
        seq![]
    } else {
        encoded_bytes(bytes.drop_last()) + encoded_byte(bytes.last())
    }
}

/// An encoded query holds nothing but letters, digits, `-_.~`, plus signs and
/// percent signs, so that it ends no part of a web address.
pub proof fn encoded_queries_are_safe(bytes: Seq<u8>, i: int)
    requires
        0 <= i < encoded_bytes(bytes).len(),
    ensures
        ({
            let c = encoded_bytes(bytes)[i];
            c == '+' || c == '%' || (c as int) < 128 && is_plain_byte(c as u8)
        }),
    decreases bytes.len(),
{
    let front = encoded_bytes(bytes.drop_last());
    if i < front.len() {
        encoded_queries_are_safe(bytes.drop_last(), i);
    } else {
        let b = bytes.last();
        assert(encoded_bytes(bytes)[i] == encoded_byte(b)[i - front.len()]);
        assert(b as int / 16 < 16);
    }
}

fn hex(d: u8) -> (c: char)
    requires
        d < 16,
    ensures
        c == hex_digit(d as int),
{
    if d < 10 {
        (48 + d) as char
    } else {
        (55 + d) as char
    }
}

/// Encodes a query for a web address.
pub fn urlencoding_minimal(s: &str) -> (out: String)
    ensures
        out@ == encoded_bytes(vstd::utf8::encode_utf8(s@)),
{
    let bytes = s.as_bytes();
    let mut out = String::new();
    let mut i: usize = 0;
    assert(bytes@.take(0) =~= Seq::<u8>::empty());
    while i < bytes.len()
        invariant
            bytes@ == vstd::utf8::encode_utf8(s@),
            i <= bytes@.len(),
            out@ == encoded_bytes(bytes@.take(i as int)),
        decreases bytes@.len() - i,
    {
        let b: u8 = bytes[i];
        assert(bytes@.take(i + 1).drop_last() =~= bytes@.take(i as int));
        assert(bytes@.take(i + 1).last() == b);
        let ghost before = out@;
        let plain: bool = (65 <= b && b <= 90) || (97 <= b && b <= 122) || (48 <= b && b <= 57)
            || b == 45 || b == 95 || b == 46 || b == 126;
        if plain {
            out.push(b as char);
        } else if b == 32 {
            out.push('+');
        } else {
            out.push('%');
            out.push(hex(b / 16));
            out.push(hex(b % 16));
        }
        assert(out@ =~= before + encoded_byte(b));
        i = i + 1;
    }
    assert(bytes@.take(bytes@.len() as int) =~= bytes@);
    out
}

// ---------------------------------------------------------------------------
// Names
// ---------------------------------------------------------------------------

/// A text of at most `max` characters; a longer one is cut there and marked.
pub open spec fn truncated(s: Seq<char>, max: nat) -> Seq<char> {
    if s.len() > max {
        s.take(max as int) + "…"@
    } else {
        s
    }
}

/// Cuts a text after `max_chars` characters.
pub fn truncate_chars(s: &str, max_chars: usize) -> (out: String)
    ensures
        out@ == truncated(s@, max_chars as nat),
{
    if s.unicode_len() > max_chars {
        let mut out = s.substring_char(0, max_chars).to_owned();
        out.append("…");
        assert(out@ =~= s@.take(max_chars as int) + "…"@);
        out
    } else {
        s.to_owned()
    }
}

// ---------------------------------------------------------------------------
// Answer
// ---------------------------------------------------------------------------

/// What a backslash makes of the character behind it: the first byte of its
/// encoding.
pub open spec fn escaped(c: char) -> char {
    let u = c as int;
    if u < 0x80 {
        c
    } else if u < 0x800 {
        (0xc0 + u / 64) as char
    } else if u < 0x10000 {
        (0xe0 + u / 4096) as char
    } else {
        (0xf0 + u / 262144) as char
    }
}

fn unescape(c: char) -> (r: char)
    ensures
        r == escaped(c),
{
    let u: u32 = c as u32;
    if u < 0x80 {
        c
    } else if u < 0x800 {
        ((0xc0 + u / 64) as u8) as char
    } else if u < 0x10000 {
        ((0xe0 + u / 4096) as u8) as char
    } else {
        assert(u <= 0x10ffff);
        ((0xf0 + u / 262144) as u8) as char
    }
}

/// A quoted value up to its closing quote, with escapes undone; nothing where
/// the quote is missing.
pub open spec fn quoted_value(s: Seq<char>) -> Option<Seq<char>>
    decreases s.len(),
{
    if s.len() == 0 {
        None
    } else if s[0] == '"' {
        Some(seq![])
    } else if s[0] == '\\' && s.len() > 1 {
        match quoted_value(s.skip(2)) {
            Some(v) => Some(seq![escaped(s[1])] + v),
            None => None,
        }
    } else {
        match quoted_value(s.skip(1)) {
            Some(v) => Some(seq![s[0]] + v),
            None => None,
        }
    }
}

/// `pattern` stands in `s` at position `i`.
pub open spec fn found_at(s: Seq<char>, pattern: Seq<char>, i: int) -> bool {
    0 <= i && i + pattern.len() <= s.len() && s.subrange(i, i + pattern.len()) == pattern
}

/// The first position of `pattern` in `s`, not before `from`.
pub open spec fn find_from(s: Seq<char>, pattern: Seq<char>, from: int) -> Option<int>
    decreases s.len() + 1 - from,
{
    if from + pattern.len() > s.len() {
        None
    } else if found_at(s, pattern, from) {
        Some(from)
    } else {
        find_from(s, pattern, from + 1)
    }
}

/// The text value of a field of a flat object.
pub open spec fn string_field(obj: Seq<char>, key: Seq<char>) -> Option<Seq<char>> {
    let pattern = "\""@ + key + "\":\""@;
    match find_from(obj, pattern, 0) {
        None => None,
        Some(i) => quoted_value(obj.skip(i + pattern.len())),
    }
}

fn pattern_at(chars: &[char], pattern: &[char], at: usize) -> (r: bool)
    requires
        at + pattern@.len() <= chars@.len(),
    ensures
        r == found_at(chars@, pattern@, at as int),
{
    let ghost window = chars@.subrange(at as int, at + pattern@.len());
    let length: usize = chars.len();
    let mut k: usize = 0;
    while k < pattern.len()
        invariant
            length == chars@.len(),
            at + pattern@.len() <= chars@.len(),
            window == chars@.subrange(at as int, at + pattern@.len()),
            k <= pattern@.len(),
            forall|j: int| 0 <= j < k ==> window[j] == pattern@[j],
        decreases pattern@.len() - k,
    {
        if chars[at + k] != pattern[k] {
            assert(window[k as int] != pattern@[k as int]);
            return false;
        }
        k = k + 1;
    }
    assert(window =~= pattern@);
    true
}

/// The first position of a pattern.
pub fn find_pattern(chars: &[char], pattern: &[char], from: usize) -> (found: Option<usize>)
    requires
        from <= chars@.len(),
    ensures
        match found {
            Some(i) => find_from(chars@, pattern@, from as int) == Some(i as int) && from <= i && i
                + pattern@.len() <= chars@.len(),
            None => find_from(chars@, pattern@, from as int) is None,
        },
{
    let mut i: usize = from;
    let length: usize = chars.len();
    let width: usize = pattern.len();
    while i <= length && width <= length - i
        invariant
            length == chars@.len(),
            width == pattern@.len(),
            from <= i <= length + 1,
            find_from(chars@, pattern@, from as int) == find_from(chars@, pattern@, i as int),
        decreases length + 1 - i,
    {
        if pattern_at(chars, pattern, i) {
            return Some(i);
        }
        if i == length {
            assert(find_from(chars@, pattern@, i + 1) is None);
            return None;
        }
        i = i + 1;
    }
    None
}

/// The text value of a field, read leniently.
pub fn json_string_field(obj: &str, key: &str) -> (value: Option<String>)
    ensures
        opt_text(value) == string_field(obj@, key@),
{
    let mut pattern_text = "\"".to_owned();
    pattern_text.append(key);
    pattern_text.append("\":\"");
    let ghost pattern_view = "\""@ + key@ + "\":\""@;
    assert(pattern_text@ == pattern_view);
    let pattern = chars_of(pattern_text.as_str());
    let chars = chars_of(obj);
    let length: usize = chars.len();
    let start: usize = match find_pattern(chars.as_slice(), pattern.as_slice(), 0) {
        None => {
            return None;
        },
        Some(i) => i + pattern.len(),
    };
    let mut out = String::new();
    let mut i: usize = start;
    let ghost whole = quoted_value(obj@.skip(start as int));
    while i < length
        invariant
            chars@ == obj@,
            length == chars@.len(),
            start <= i <= length,
            whole == quoted_value(obj@.skip(start as int)),
            whole == (match quoted_value(obj@.skip(i as int)) {
                Some(v) => Some(out@ + v),
                None => None,
            }),
            whole == string_field(obj@, key@),
        decreases length - i,
    {
        let c: char = chars[i];
        let ghost rest = obj@.skip(i as int);
        assert(rest[0] == c);
        if c == '"' {
            assert(out@ + Seq::<char>::empty() =~= out@);
            return Some(out);
        }
        if c == '\\' && i + 1 < length {
            let e: char = chars[i + 1];
            let r: char = unescape(e);
            assert(rest[1] == e);
            let ghost before = out@;
            out.push(r);
            assert(rest.skip(2) =~= obj@.skip(i + 2));
            proof {
                if let Some(v) = quoted_value(obj@.skip(i + 2)) {
                    assert(before + (seq![r] + v) =~= out@ + v);
                }
            }
            i = i + 2;
        } else {
            let ghost before = out@;
            out.push(c);
            assert(rest.skip(1) =~= obj@.skip(i + 1));
            proof {
                if let Some(v) = quoted_value(obj@.skip(i + 1)) {
                    assert(before + (seq![c] + v) =~= out@ + v);
                }
            }
            i = i + 1;
        }
    }
    assert(obj@.skip(length as int).len() == 0);
    None
}

// ---------------------------------------------------------------------------
// Numbers
// ---------------------------------------------------------------------------

/// Number of digits that a text starts with.
pub open spec fn digit_run(s: Seq<char>) -> int
    decreases s.len(),
{
    if s.len() > 0 && is_decimal_digit(s[0]) {
        1 + digit_run(s.skip(1))
    } else {
        0
    }
}

/// An exponent or nothing.
pub open spec fn is_exponent(s: Seq<char>) -> bool {
    s.len() == 0 || ((s[0] == 'e' || s[0] == 'E') && {
        let t = if s.len() > 1 && (s[1] == '+' || s[1] == '-') {
            s.skip(2)
        } else {
            s.skip(1)
        };
        t.len() > 0 && all_digits(t)
    })
}

/// Digits with at most one point, then an exponent or nothing.
pub open spec fn is_number(s: Seq<char>) -> bool {
    let a = digit_run(s);
    let r = s.skip(a);
    if r.len() > 0 && r[0] == '.' {
        let b = digit_run(r.skip(1));
        a + b > 0 && is_exponent(r.skip(1 + b))
    } else {
        a > 0 && is_exponent(r)
    }
}

pub open spec fn lowered(c: char) -> char {
    if 'A' <= c <= 'Z' {
        (c as int + 32) as char
    } else {
        c
    }
}

pub open spec fn equals_ignoring_case(s: Seq<char>, word: Seq<char>) -> bool {
    s.len() == word.len() && forall|i: int| 0 <= i < s.len() ==> lowered(#[trigger] s[i]) == word[i]
}

/// The notation of a floating-point number.
pub open spec fn is_float_text(s: Seq<char>) -> bool {
    let body = if s.len() > 0 && (s[0] == '+' || s[0] == '-') {
        s.skip(1)
    } else {
        s
    };
    is_number(body) || equals_ignoring_case(body, "inf"@) || equals_ignoring_case(
        body,
        "infinity"@,
    ) || equals_ignoring_case(body, "nan"@)
}

proof fn lemma_digit_run(s: Seq<char>, n: int)
    requires
        0 <= n <= s.len(),
        forall|k: int| 0 <= k < n ==> is_decimal_digit(#[trigger] s[k]),
        n == s.len() || !is_decimal_digit(s[n]),
    ensures
        digit_run(s) == n,
    decreases n,
{
    if n > 0 {
        assert(is_decimal_digit(s[0]));
        assert forall|k: int| 0 <= k < n - 1 implies is_decimal_digit(#[trigger] s.skip(1)[k]) by {
            assert(s.skip(1)[k] == s[k + 1]);
        }
        lemma_digit_run(s.skip(1), n - 1);
    }
}

fn digits_from(chars: &[char], from: usize) -> (to: usize)
    requires
        from <= chars@.len(),
    ensures
        from <= to <= chars@.len(),
        to - from == digit_run(chars@.skip(from as int)),
        forall|k: int| from <= k < to ==> is_decimal_digit(#[trigger] chars@[k]),
        to < chars@.len() ==> !is_decimal_digit(chars@[to as int]),
{
    let mut to: usize = from;
    while to < chars.len() && '0' <= chars[to] && chars[to] <= '9'
        invariant
            from <= to <= chars@.len(),
            forall|k: int| from <= k < to ==> is_decimal_digit(#[trigger] chars@[k]),
        decreases chars@.len() - to,
    {
        to = to + 1;
    }
    proof {
        let s = chars@.skip(from as int);
        assert forall|k: int| 0 <= k < to - from implies is_decimal_digit(#[trigger] s[k]) by {
            assert(s[k] == chars@[k + from]);
        }
        lemma_digit_run(s, to - from);
    }
    to
}

fn exponent_from(chars: &[char], from: usize) -> (r: bool)
    requires
        from <= chars@.len(),
    ensures
        r == is_exponent(chars@.skip(from as int)),
{
    let length: usize = chars.len();
    let ghost s = chars@.skip(from as int);
    if from == length {
        return true;
    }
    assert(s[0] == chars@[from as int]);
    if !(chars[from] == 'e' || chars[from] == 'E') {
        return false;
    }
    let signed: bool = from + 1 < length && (chars[from + 1] == '+' || chars[from + 1] == '-');
    let start: usize = if signed {
        from + 2
    } else {
        from + 1
    };
    assert(s.len() > 1 ==> s[1] == chars@[from + 1]);
    let end: usize = digits_from(chars, start);
    proof {
        let t = chars@.skip(start as int);
        assert(s.skip(start - from) =~= t);
        if end == length {
            assert forall|k: int| 0 <= k < t.len() implies is_decimal_digit(#[trigger] t[k]) by {
                assert(t[k] == chars@[k + start]);
            }
        } else {
            assert(t[end - start] == chars@[end as int]);
        }
    }
    end == length && end > start
}

fn number_from(chars: &[char], from: usize) -> (r: bool)
    requires
        from <= chars@.len(),
    ensures
        r == is_number(chars@.skip(from as int)),
{
    let ghost s = chars@.skip(from as int);
    let a: usize = digits_from(chars, from);
    assert(s.skip(a - from) =~= chars@.skip(a as int));
    if a < chars.len() && chars[a] == '.' {
        assert(chars@.skip(a as int).skip(1) =~= chars@.skip(a + 1));
        let b: usize = digits_from(chars, a + 1);
        assert(chars@.skip(a as int).skip(b - a) =~= chars@.skip(b as int));
        let some: bool = a > from || b > a + 1;
        some && exponent_from(chars, b)
    } else {
        a > from && exponent_from(chars, a)
    }
}

fn word_from(chars: &[char], from: usize, word: &str) -> (r: bool)
    requires
        from <= chars@.len(),
    ensures
        r == equals_ignoring_case(chars@.skip(from as int), word@),
{
    let w = chars_of(word);
    let ghost s = chars@.skip(from as int);
    if chars.len() - from != w.len() {
        return false;
    }
    let length: usize = chars.len();
    let mut i: usize = 0;
    while i < w.len()
        invariant
            length == chars@.len(),
            from <= length,
            w@ == word@,
            s == chars@.skip(from as int),
            s.len() == w@.len(),
            i <= w@.len(),
            forall|k: int| 0 <= k < i ==> lowered(#[trigger] s[k]) == word@[k],
        decreases w@.len() - i,
    {
        let c: char = chars[from + i];
        assert(c == s[i as int]);
        let l: char = if 'A' <= c && c <= 'Z' {
            (c as u8 + 32) as char
        } else {
            c
        };
        if l != w[i] {
            assert(lowered(s[i as int]) != word@[i as int]);
            return false;
        }
        i = i + 1;
    }
    true
}

/// Whether a text is the notation of a floating-point number.
pub fn float_text(s: &str) -> (r: bool)
    ensures
        r == is_float_text(s@),
{
    let chars = chars_of(s);
    let from: usize = if chars.len() > 0 && (chars[0] == '+' || chars[0] == '-') {
        1
    } else {
        0
    };
    assert(s@.skip(0) =~= s@);
    number_from(chars.as_slice(), from) || word_from(chars.as_slice(), from, "inf") || word_from(
        chars.as_slice(),
        from,
        "infinity",
    ) || word_from(chars.as_slice(), from, "nan")
}

// ---------------------------------------------------------------------------
// Places
// ---------------------------------------------------------------------------

/// A place of the answer; its coordinates are in decimal notation.
pub struct Place {
    pub name: String,
    pub latitude: String,
    pub longitude: String,
}

pub struct PlaceView {
    pub name: Seq<char>,
    pub latitude: Seq<char>,
    pub longitude: Seq<char>,
}

impl View for Place {
    type V = PlaceView;

    open spec fn view(&self) -> PlaceView {
        PlaceView {
            name: self.name@,
            latitude: self.latitude@,
            longitude: self.longitude@,
        }
    }
}

pub open spec fn place_views(p: Seq<Place>) -> Seq<PlaceView> {
    p.map_values(|x: Place| x@)
}

/// The place that an object describes: it needs a name and two numbers.
pub open spec fn place_of(obj: Seq<char>) -> Option<PlaceView> {
    match (
        string_field(obj, "lat"@),
        string_field(obj, "lon"@),
        string_field(obj, "display_name"@),
    ) {
        (Some(lat), Some(lon), Some(name)) => if is_float_text(lat) && is_float_text(lon) {
            Some(
                PlaceView {
                    name: truncated(name, MAX_PLACE_CHARS as nat),
                    latitude: lat,
                    longitude: lon,
                },
            )
        } else {
            None
        },
        _ => None,
    }
}

/// The places of an answer from position `from` on: one for each pair of
/// braces that describes one, until there are enough.
pub open spec fn places_from(body: Seq<char>, from: int, found: Seq<PlaceView>) -> Seq<PlaceView>
    decreases body.len() - from,
{
    match find_from(body, seq!['{'], from) {
        None => found,
        Some(open) => match find_from(body, seq!['}'], open) {
            None => found,
            Some(close) => if from <= open <= close < body.len() {
                let more = match place_of(body.subrange(open, close + 1)) {
                    Some(p) => found.push(p),
                    None => found,
                };
                if more.len() >= MAX_PLACES {
                    more
                } else {
                    places_from(body, close + 1, more)
                }
            } else {
                found
            },
        },
    }
}

fn place_in(obj: &str) -> (place: Option<Place>)
    ensures
        match place {
            Some(p) => place_of(obj@) == Some(p@),
            None => place_of(obj@) is None,
        },
{
    let latitude = json_string_field(obj, "lat");
    let longitude = json_string_field(obj, "lon");
    let name = json_string_field(obj, "display_name");
    match (latitude, longitude, name) {
        (Some(latitude), Some(longitude), Some(name)) => {
            if float_text(latitude.as_str()) && float_text(longitude.as_str()) {
                Some(
                    Place {
                        name: truncate_chars(name.as_str(), MAX_PLACE_CHARS),
                        latitude,
                        longitude,
                    },
                )
            } else {
                None
            }
        },
        _ => None,
    }
}

/// Reads the places out of the answer to a search.
pub fn parse_nominatim_json(body: &str) -> (places: Vec<Place>)
    ensures
        place_views(places@) == places_from(body@, 0, seq![]),
        places@.len() <= MAX_PLACES,
{
    let chars = chars_of(body);
    let open_brace = vec!['{'];
    let close_brace = vec!['}'];
    assert(open_brace@ =~= seq!['{']);
    assert(close_brace@ =~= seq!['}']);
    let mut places: Vec<Place> = Vec::new();
    let mut from: usize = 0;
    assert(place_views(places@) =~= seq![]);
    loop
        invariant
            chars@ == body@,
            open_brace@ == seq!['{'],
            close_brace@ == seq!['}'],
            from <= chars@.len(),
            places@.len() < MAX_PLACES,
            places_from(body@, 0, seq![]) == places_from(
                body@,
                from as int,
                place_views(places@),
            ),
        decreases chars@.len() - from,
    {
        let open: usize = match find_pattern(chars.as_slice(), open_brace.as_slice(), from) {
            None => {
                return places;
            },
            Some(i) => i,
        };
        let close: usize = match find_pattern(chars.as_slice(), close_brace.as_slice(), open) {
            None => {
                return places;
            },
            Some(i) => i,
        };
        let length: usize = chars.len();
        assert(close < length);
        let obj = text_of(chars.as_slice(), open, close + 1);
        let ghost before = place_views(places@);
        if let Some(place) = place_in(obj.as_str()) {
            places.push(place);
            assert(place_views(places@) =~= before.push(place@));
        }
        if places.len() >= MAX_PLACES {
            return places;
        }
        from = close + 1;
    }
}

// ---------------------------------------------------------------------------
// What a place search promises
// ---------------------------------------------------------------------------

/// A pattern is found where it stands first, and missed only where it does not stand at
/// all.
pub proof fn patterns_are_found_where_they_stand_first(s: Seq<char>, pattern: Seq<char>, from: int)
    requires
        0 <= from,
    ensures
        match find_from(s, pattern, from) {
            Some(i) => from <= i && found_at(s, pattern, i) && (forall|k: int|
                from <= k < i ==> !#[trigger] found_at(s, pattern, k)),
            None => forall|k: int| from <= k ==> !#[trigger] found_at(s, pattern, k),
        },
    decreases s.len() + 1 - from,
{
    if from + pattern.len() <= s.len() && !found_at(s, pattern, from) {
        patterns_are_found_where_they_stand_first(s, pattern, from + 1);
    }
}

/// What a hexadecimal digit of a query stands for.
pub open spec fn digit_of(c: char) -> int {
    if c as int >= 65 {
        c as int - 55
    } else {
        c as int - 48
    }
}

/// An encoded byte can be told again: it stands for itself, is a space, or has its value
/// in two digits.
pub proof fn encoded_bytes_can_be_told(b: u8)
    ensures
        encoded_byte(b).len() == 1 || encoded_byte(b).len() == 3,
        encoded_byte(b).len() == 1 ==> encoded_byte(b)[0] as int == b || (b == 32
            && encoded_byte(b)[0] == '+'),
        encoded_byte(b).len() == 3 ==> encoded_byte(b)[0] == '%' && 16 * digit_of(
            encoded_byte(b)[1],
        ) + digit_of(encoded_byte(b)[2]) == b,
        encoded_byte(b) == seq!['+'] <==> b == 32,
{
    let high = b as int / 16;
    let low = b as int % 16;
    assert(0 <= high < 16 && 0 <= low < 16 && 16 * high + low == b);
    assert(digit_of(hex_digit(high)) == high);
    assert(digit_of(hex_digit(low)) == low);
}

/// A quoted text without quotes and backslashes reads as it stands, and what follows its
/// closing quote does not matter.
pub proof fn quoted_texts_read_as_they_stand(value: Seq<char>, rest: Seq<char>)
    requires
        !value.contains('"'),
        !value.contains('\\'),
    ensures
        quoted_value(value + seq!['"'] + rest) == Some(value),
    decreases value.len(),
{
    let all = value + seq!['"'] + rest;
    if value.len() == 0 {
        assert(all[0] == '"');
        assert(value =~= seq![]);
    } else {
        let less = value.drop_first();
        assert(value.contains(value[0]));
        assert forall|c: char| less.contains(c) implies value.contains(c) by {
            let k = choose|k: int| 0 <= k < less.len() && less[k] == c;
            assert(value[k + 1] == c);
        }
        quoted_texts_read_as_they_stand(less, rest);
        assert(all.skip(1) =~= less + seq!['"'] + rest);
        assert(all[0] == value[0]);
        assert(seq![value[0]] + less =~= value);
    }
}

/// The latitude of a place is what its answer calls so, and its longitude likewise; both
/// are numbers, and its name is cut where it is too long.
pub proof fn places_are_read_from_their_fields(obj: Seq<char>)
    ensures
        place_of(obj) matches Some(p) ==> {
            &&& string_field(obj, "lat"@) == Some(p.latitude) && is_float_text(p.latitude)
            &&& string_field(obj, "lon"@) == Some(p.longitude) && is_float_text(p.longitude)
            &&& string_field(obj, "display_name"@) matches Some(name) && p.name == truncated(
                name,
                MAX_PLACE_CHARS as nat,
            )
        },
{
}

/// No more places are taken than are wanted, and those found before stay in front.
pub proof fn places_are_taken_until_enough(body: Seq<char>, from: int, found: Seq<PlaceView>)
    requires
        found.len() < MAX_PLACES,
        0 <= from,
    ensures
        found.len() <= places_from(body, from, found).len() <= MAX_PLACES,
        places_from(body, from, found).take(found.len() as int) =~= found,
    decreases body.len() - from,
{
    if let Some(open) = find_from(body, seq!['{'], from) {
        if let Some(close) = find_from(body, seq!['}'], open) {
            if from <= open <= close < body.len() {
                let more = match place_of(body.subrange(open, close + 1)) {
                    Some(p) => found.push(p),
                    None => found,
                };
                if more.len() < MAX_PLACES {
                    places_are_taken_until_enough(body, close + 1, more);
                    let all = places_from(body, close + 1, more);
                    assert(all.take(more.len() as int).take(found.len() as int) =~= all.take(
                        found.len() as int,
                    ));
                }
            }
        }
    }
}

/// A short text is kept as it is; of a long one the beginning is kept.
pub proof fn long_texts_keep_their_beginning(s: Seq<char>, max: nat)
    ensures
        s.len() <= max ==> truncated(s, max) == s,
        s.len() > max ==> truncated(s, max).take(max as int) =~= s.take(max as int)
            && truncated(s, max).len() == max + 1,
{
    reveal_strlit("…");
}

} // verus!
