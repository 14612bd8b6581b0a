//! The serial protocol of the mount: commands, replies and their numbers.

use crate::mount::{magnitude, Direction};
use crate::text::{
    all_digits, decimal, decimal_string, digits_value, is_decimal_digit, joined2, joined3,
    lemma_first_of, padded, padded_string, parse_signed, parse_unsigned, signed_value,
    split_at_first, split_first, starts_with_char, strip_leading, strip_trailing, trim, trimmed,
    unsigned_value, without_leading, without_trailing, written_number_reads_back,
};
use vstd::prelude::*;
use vstd::string::{StrSliceExecFns, StringExecFns};

verus! {

// ---------------------------------------------------------------------------
// Coordinates
// ---------------------------------------------------------------------------

/// A pointing as the mount takes it: right ascension in whole seconds of time,
/// declination in whole arcseconds with its sign.
#[derive(Clone, Copy, Debug, PartialEq, Eq, Structural)]
pub struct Pointing {
    pub ra_seconds: u32,
    pub dec_negative: bool,
    pub dec_arcseconds: u32,
}

pub open spec fn clock_text(total: nat) -> Seq<char> {
    padded(total / 3600, 2) + ":"@ + padded(total / 60 % 60, 2) + ":"@ + padded(total % 60, 2)
}

/// Right ascension as `HH:MM:SS`; a full day starts again at zero.
pub fn format_ra(total_seconds: u32) -> (text: String)
    ensures
        text@ == clock_text((total_seconds % 86_400) as nat),
{
    let total: u64 = (total_seconds % 86_400) as u64;
    let mut text = padded_string(total / 3600, 2);
    text.append(":");
    text.append(padded_string(total / 60 % 60, 2).as_str());
    text.append(":");
    text.append(padded_string(total % 60, 2).as_str());
    text
}

pub open spec fn dec_text(negative: bool, total: nat) -> Seq<char> {
    (if negative {
        "-"@
    } else {
        "+"@
    }) + padded(total / 3600, 2) + "*"@ + padded(total / 60 % 60, 2) + ":"@ + padded(total % 60, 2)
}

/// Declination as `sDD*MM:SS`; beyond the pole it stays at ninety degrees.
pub fn format_dec(negative: bool, total_arcseconds: u32) -> (text: String)
    ensures
        text@ == dec_text(
            negative,
            if total_arcseconds > 324_000 {
                324_000
            } else {
                total_arcseconds as nat
            },
        ),
{
    let total: u64 = if total_arcseconds > 324_000 {
        324_000
    } else {
        total_arcseconds as u64
    };
    let mut text = if negative {
        "-".to_owned()
    } else {
        "+".to_owned()
    };
    text.append(padded_string(total / 3600, 2).as_str());
    text.append("*");
    text.append(padded_string(total / 60 % 60, 2).as_str());
    text.append(":");
    text.append(padded_string(total % 60, 2).as_str());
    text
}

/// Site latitude as `sDD*MM`; sixty minutes carry into the next degree.
pub fn format_lat_lx200(negative: bool, degrees: u32, minutes: u32) -> (text: String)
    requires
        degrees <= 90,
        minutes <= 60,
    ensures
        text@ == (if negative {
            "-"@
        } else {
            "+"@
        }) + padded(
            (if minutes >= 60 {
                degrees + 1
            } else {
                degrees as int
            }) as nat,
            2,
        ) + "*"@ + padded(
            if minutes >= 60 {
                0
            } else {
                minutes as nat
            },
            2,
        ),
{
    let d: u64 = if minutes >= 60 {
        degrees as u64 + 1
    } else {
        degrees as u64
    };
    let m: u64 = if minutes >= 60 {
        0
    } else {
        minutes as u64
    };
    let mut text = if negative {
        "-".to_owned()
    } else {
        "+".to_owned()
    };
    text.append(padded_string(d, 2).as_str());
    text.append("*");
    text.append(padded_string(m, 2).as_str());
    text
}

/// Site longitude in degrees west of Greenwich as `DDD*MM`, below 360 degrees.
pub fn format_lon_lx200_west(degrees: u32, minutes: u32) -> (text: String)
    requires
        degrees < 360,
        minutes <= 60,
    ensures
        text@ == ({
            let d = if minutes >= 60 {
                degrees + 1
            } else {
                degrees as int
            };
            padded(
                (if d >= 360 {
                    0
                } else {
                    d
                }) as nat,
                3,
            ) + "*"@ + padded(
                if minutes >= 60 {
                    0
                } else {
                    minutes as nat
                },
                2,
            )
        }),
{
    let carried: u64 = if minutes >= 60 {
        degrees as u64 + 1
    } else {
        degrees as u64
    };
    let d: u64 = if carried >= 360 {
        0
    } else {
        carried
    };
    let m: u64 = if minutes >= 60 {
        0
    } else {
        minutes as u64
    };
    let mut text = padded_string(d, 3);
    text.append("*");
    text.append(padded_string(m, 2).as_str());
    text
}

/// Hours to add to local time to get UTC, with tenths where the offset is not a
/// whole hour; more than nine tenths stay nine.
pub fn format_meade_utc_offset(negative: bool, hours: u32, tenths: Option<u32>) -> (text: String)
    ensures
        text@ == (if negative {
            "-"@
        } else {
            "+"@
        }) + padded(hours as nat, 2) + match tenths {
            None => Seq::<char>::empty(),
            Some(t) => "."@ + decimal(
                if t > 9 {
                    9
                } else {
                    t as nat
                },
            ),
        },
{
    let mut text = if negative {
        "-".to_owned()
    } else {
        "+".to_owned()
    };
    text.append(padded_string(hours as u64, 2).as_str());
    match tenths {
        None => {
            assert(text@ + Seq::<char>::empty() =~= text@);
        },
        Some(t) => {
            let shown: u64 = if t > 9 {
                9
            } else {
                t as u64
            };
            let ghost before = text@;
            text.append(".");
            text.append(decimal_string(shown).as_str());
            assert(text@ =~= before + ("."@ + decimal(shown as nat)));
        },
    }
    text
}

// ---------------------------------------------------------------------------
// Replies
// ---------------------------------------------------------------------------

/// The text in front of the terminator of a reply.
pub open spec fn reply_body(text: Seq<char>) -> Seq<char> {
    trim(strip_trailing(trim(text), '#'))
}

fn body_of(text: &str) -> (out: String)
    ensures
        out@ == reply_body(text@),
{
    trimmed(without_trailing(trimmed(text).as_str(), '#').as_str())
}

/// The fields of a coordinate in base sixty.
pub struct Sexagesimal {
    pub negative: bool,
    pub whole: String,
    pub minutes: String,
    pub seconds: Option<String>,
}

pub struct SexagesimalView {
    pub negative: bool,
    pub whole: Seq<char>,
    pub minutes: Seq<char>,
    pub seconds: Option<Seq<char>>,
}

pub open spec fn fields_view(f: Option<Sexagesimal>) -> Option<SexagesimalView> {
    match f {
        None => None,
        Some(f) => Some(
            SexagesimalView {
                negative: f.negative,
                whole: f.whole@,
                minutes: f.minutes@,
                seconds: match f.seconds {
                    Some(s) => Some(s@),
                    None => None,
                },
            },
        ),
    }
}

/// `HH:MM:SS` or `HH:MM.T`, the fields without white space around them.
pub open spec fn ra_fields_of(text: Seq<char>) -> Option<SexagesimalView> {
    match split_first(reply_body(text), seq![':']) {
        None => None,
        Some((hours, rest)) => Some(
            match split_first(rest, seq![':']) {
                Some((m, s)) => SexagesimalView {
                    negative: false,
                    whole: trim(hours),
                    minutes: trim(m),
                    seconds: Some(trim(s)),
                },
                None => SexagesimalView {
                    negative: false,
                    whole: trim(hours),
                    minutes: trim(rest),
                    seconds: None,
                },
            },
        ),
    }
}

/// Takes a right ascension reply apart.
pub fn ra_fields(text: &str) -> (fields: Option<Sexagesimal>)
    ensures
        fields_view(fields) == ra_fields_of(text@),
{
    let body = body_of(text);
    let colon = vec![':'];
    assert(colon@ =~= seq![':']);
    match split_at_first(body.as_str(), colon.as_slice()) {
        None => None,
        Some((hours, rest)) => match split_at_first(rest.as_str(), colon.as_slice()) {
            Some((m, s)) => Some(
                Sexagesimal {
                    negative: false,
                    whole: trimmed(hours.as_str()),
                    minutes: trimmed(m.as_str()),
                    seconds: Some(trimmed(s.as_str())),
                },
            ),
            None => Some(
                Sexagesimal {
                    negative: false,
                    whole: trimmed(hours.as_str()),
                    minutes: trimmed(rest.as_str()),
                    seconds: None,
                },
            ),
        },
    }
}

/// A text without the signs in front of it.
pub open spec fn strip_signs(s: Seq<char>) -> Seq<char>
    decreases s.len(),
{
    if s.len() > 0 && (s[0] == '+' || s[0] == '-') {
        strip_signs(s.drop_first())
    } else {
        s
    }
}

fn without_signs(s: &str) -> (out: String)
    ensures
        out@ == strip_signs(s@),
{
    let to: usize = s.unicode_len();
    let mut from: usize = 0;
    assert(s@.subrange(0, to as int) =~= s@);
    while from < to && (s.get_char(from) == '+' || s.get_char(from) == '-')
        invariant
            from <= to == s@.len(),
            strip_signs(s@) == strip_signs(s@.subrange(from as int, to as int)),
        decreases to - from,
    {
        assert(s@.subrange(from as int, to as int).drop_first() =~= s@.subrange(
            from + 1,
            to as int,
        ));
        from = from + 1;
    }
    s.substring_char(from, to).to_owned()
}

/// `sDD*MM` or `sDD*MM:SS`, with a degree sign or a colon in place of the
/// star. The sign belongs to the whole value.
pub open spec fn dec_fields_of(text: Seq<char>) -> Option<SexagesimalView> {
    let body = reply_body(text);
    let negative = body.len() > 0 && body[0] == '-';
    match split_first(strip_signs(body), seq!['*', '°', ':']) {
        None => None,
        Some((degrees, rest)) => Some(
            match split_first(rest, seq![':', '\'']) {
                Some((m, s)) => SexagesimalView {
                    negative,
                    whole: trim(degrees),
                    minutes: trim(m),
                    seconds: Some(strip_trailing(trim(s), '"')),
                },
                None => SexagesimalView {
                    negative,
                    whole: trim(degrees),
                    minutes: trim(rest),
                    seconds: None,
                },
            },
        ),
    }
}

/// Takes a declination reply apart.
pub fn dec_fields(text: &str) -> (fields: Option<Sexagesimal>)
    ensures
        fields_view(fields) == dec_fields_of(text@),
{
    let body = body_of(text);
    let negative: bool = starts_with_char(body.as_str(), '-');
    let unsigned_body = without_signs(body.as_str());
    let marks = vec!['*', '°', ':'];
    assert(marks@ =~= seq!['*', '°', ':']);
    let colons = vec![':', '\''];
    assert(colons@ =~= seq![':', '\'']);
    match split_at_first(unsigned_body.as_str(), marks.as_slice()) {
        None => None,
        Some((degrees, rest)) => match split_at_first(rest.as_str(), colons.as_slice()) {
            Some((m, s)) => Some(
                Sexagesimal {
                    negative,
                    whole: trimmed(degrees.as_str()),
                    minutes: trimmed(m.as_str()),
                    seconds: Some(without_trailing(trimmed(s.as_str()).as_str(), '"')),
                },
            ),
            None => Some(
                Sexagesimal {
                    negative,
                    whole: trimmed(degrees.as_str()),
                    minutes: trimmed(rest.as_str()),
                    seconds: None,
                },
            ),
        },
    }
}

/// Digits stand for themselves: nothing is trimmed or split off them.
proof fn lemma_field(s: Seq<char>, separators: Seq<char>, rest: Seq<char>, mark: char)
    requires
        s.len() > 0,
        all_digits(s),
        separators.contains(mark),
        forall|c: char| #[trigger] separators.contains(c) ==> !is_decimal_digit(c),
    ensures
        trim(s) == s,
        split_first(s + seq![mark] + rest, separators) == Some((s, rest)),
{
    assert(is_decimal_digit(s[0]) && is_decimal_digit(s[s.len() - 1]));
    let whole = s + seq![mark] + rest;
    assert forall|k: int| 0 <= k < s.len() implies !separators.contains(#[trigger] whole[k]) by {
        assert(is_decimal_digit(s[k]));
        assert(whole[k] == s[k]);
    }
    assert(whole[s.len() as int] == mark);
    lemma_first_of(whole, separators, s.len() as int);
    assert(whole.subrange(0, s.len() as int) =~= s);
    assert(whole.subrange(s.len() as int + 1, whole.len() as int) =~= rest);
}

/// The three fields of a number of seconds or arcseconds.
proof fn lemma_base_sixty(total: nat)
    ensures
        ({
            let w = padded(total / 3600, 2);
            let m = padded(total / 60 % 60, 2);
            let s = padded(total % 60, 2);
            &&& w.len() > 0 && all_digits(w) && m.len() > 0 && all_digits(m)
            &&& s.len() > 0 && all_digits(s)
            &&& 3600 * digits_value(w) + 60 * digits_value(m) + digits_value(s) == total
        }),
{
    written_number_reads_back(total / 3600, 2);
    written_number_reads_back(total / 60 % 60, 2);
    written_number_reads_back(total % 60, 2);
}

/// Reading undoes writing: a right ascension that was written to the second has
/// the fields that were written.
pub proof fn right_ascension_reads_back(total: nat)
    ensures
        ra_fields_of(clock_text(total)) == Some(
            SexagesimalView {
                negative: false,
                whole: padded(total / 3600, 2),
                minutes: padded(total / 60 % 60, 2),
                seconds: Some(padded(total % 60, 2)),
            },
        ),
        3600 * digits_value(padded(total / 3600, 2)) + 60 * digits_value(
            padded(total / 60 % 60, 2),
        ) + digits_value(padded(total % 60, 2)) == total,
{
    reveal_strlit(":");
    lemma_base_sixty(total);
    let w = padded(total / 3600, 2);
    let m = padded(total / 60 % 60, 2);
    let s = padded(total % 60, 2);
    let text = clock_text(total);
    let rest = m + seq![':'] + s;
    assert(text =~= w + seq![':'] + rest);
    assert(text[0] == w[0] && is_decimal_digit(w[0]));
    assert(text.last() == s[s.len() - 1] && is_decimal_digit(s[s.len() - 1]));
    assert(reply_body(text) == text);
    assert(seq![':'].contains(':')) by {
        assert(seq![':'][0] == ':');
    }
    lemma_field(w, seq![':'], rest, ':');
    lemma_field(m, seq![':'], s, ':');
    lemma_field(s, seq![':'], s, ':');
}

/// Reading undoes writing: a declination that was written to the arcsecond has
/// the sign and the fields that were written, also between zero and one degree
/// below the equator.
pub proof fn declination_reads_back(negative: bool, total: nat)
    ensures
        dec_fields_of(dec_text(negative, total)) == Some(
            SexagesimalView {
                negative,
                whole: padded(total / 3600, 2),
                minutes: padded(total / 60 % 60, 2),
                seconds: Some(padded(total % 60, 2)),
            },
        ),
        3600 * digits_value(padded(total / 3600, 2)) + 60 * digits_value(
            padded(total / 60 % 60, 2),
        ) + digits_value(padded(total % 60, 2)) == total,
{
    reveal_strlit(":");
    reveal_strlit("*");
    reveal_strlit("+");
    reveal_strlit("-");
    lemma_base_sixty(total);
    let w = padded(total / 3600, 2);
    let m = padded(total / 60 % 60, 2);
    let s = padded(total % 60, 2);
    let text = dec_text(negative, total);
    let rest = m + seq![':'] + s;
    let unsigned = w + seq!['*'] + rest;
    let sign = if negative {
        '-'
    } else {
        '+'
    };
    assert(text =~= seq![sign] + unsigned);
    assert(text[0] == sign);
    assert(text.last() == s[s.len() - 1] && is_decimal_digit(s[s.len() - 1]));
    assert(reply_body(text) == text);
    assert(text.drop_first() =~= unsigned);
    assert(unsigned[0] == w[0] && is_decimal_digit(w[0]));
    reveal_with_fuel(strip_signs, 2);
    assert(strip_signs(text) == unsigned);
    let marks = seq!['*', '°', ':'];
    let colons = seq![':', '\''];
    assert(marks.contains('*')) by {
        assert(marks[0] == '*');
    }
    assert(colons.contains(':')) by {
        assert(colons[0] == ':');
    }
    lemma_field(w, marks, rest, '*');
    lemma_field(m, colons, s, ':');
    lemma_field(s, colons, s, ':');
}

/// What the mount means by the number of a GoTo error.
pub open spec fn goto_detail(code: Option<nat>) -> Seq<char> {
    match code {
        None => "unknown mount error"@,
        Some(n) => if n == 1 {
            "target parameter is out of range"@
        } else if n == 2 {
            "target parameter format was rejected"@
        } else if n == 3 {
            "mount is already homing, slewing, or performing a GoTo"@
        } else if n == 4 {
            "mount is already moving"@
        } else if n == 5 {
            "Sun is below the horizon"@
        } else if n == 6 {
            "Sun is below the configured altitude limit"@
        } else if n == 7 {
            "mount time and location have not been synchronized — use Observing site → Sync now"@
        } else if n == 8 {
            "mount has passed its tracking meridian limit"@
        } else if n == 9 {
            "sync target and mount are on opposite sides of the meridian"@
        } else if n == 10 {
            "alt-azimuth altitude would reverse"@
        } else if n == 11 {
            "sync is not allowed in the polar region"@
        } else if n == 12 {
            "sync target is too far from the mount position"@
        } else {
            "unknown mount error"@
        },
    }
}

pub open spec fn goto_error_text(response: Seq<char>) -> Seq<char> {
    "GoTo rejected ("@ + response + "): "@ + goto_detail(
        unsigned_value(strip_leading(response, 'e')),
    )
}

/// Explains a refused GoTo.
pub fn goto_error(response: &str) -> (message: String)
    ensures
        message@ == goto_error_text(response@),
{
    let number = without_leading(response, 'e');
    let detail: &str = match parse_unsigned(number.as_str(), 255) {
        Some(1) => "target parameter is out of range",
        Some(2) => "target parameter format was rejected",
        Some(3) => "mount is already homing, slewing, or performing a GoTo",
        Some(4) => "mount is already moving",
        Some(5) => "Sun is below the horizon",
        Some(6) => "Sun is below the configured altitude limit",
        Some(7) => "mount time and location have not been synchronized — use Observing site → Sync now",
        Some(8) => "mount has passed its tracking meridian limit",
        Some(9) => "sync target and mount are on opposite sides of the meridian",
        Some(10) => "alt-azimuth altitude would reverse",
        Some(11) => "sync is not allowed in the polar region",
        Some(12) => "sync target is too far from the mount position",
        _ => "unknown mount error",
    };
    let mut message = "GoTo rejected (".to_owned();
    message.append(response);
    message.append("): ");
    message.append(detail);
    message
}

/// The verdict on a GoTo reply: a leading zero accepts, an error number is
/// explained, anything else is quoted.
pub fn goto_reply(response: &str, quoted: &str) -> (verdict: Result<(), String>)
    ensures
        match verdict {
            Ok(_) => response@.len() > 0 && response@[0] == '0',
            Err(e) => !(response@.len() > 0 && response@[0] == '0') && e@ == (if response@.len() > 0
                && response@[0] == 'e' {
                goto_error_text(response@)
            } else {
                "mount rejected GoTo: "@ + quoted@
            }),
        },
{
    if starts_with_char(response, '0') {
        Ok(())
    } else if starts_with_char(response, 'e') {
        Err(goto_error(response))
    } else {
        Err(joined2("mount rejected GoTo: ", quoted))
    }
}

/// The verdict on an acknowledged command: a leading one accepts.
pub fn ack_reply(response: &str, field: &str) -> (verdict: Result<(), String>)
    ensures
        match verdict {
            Ok(_) => response@.len() > 0 && response@[0] == '1',
            Err(e) => !(response@.len() > 0 && response@[0] == '1') && e@
                == "mount rejected target "@ + field@,
        },
{
    if starts_with_char(response, '1') {
        Ok(())
    } else {
        Err(joined2("mount rejected target ", field))
    }
}

/// Text of bytes, as `String::from_utf8_lossy` reads them.
pub uninterp spec fn lossy_text(bytes: Seq<u8>) -> Seq<char>;

/// `String::from_utf8_lossy` of the standard library reads bytes as UTF-8 and
/// puts a replacement character where they are not. Valid bytes are read as the
/// text that they encode.
#[verifier::external_body]
fn text_from_bytes(bytes: &[u8]) -> (text: String)
    ensures
        text@ == lossy_text(bytes@),
        vstd::utf8::valid_utf8(bytes@) ==> vstd::utf8::encode_utf8(text@) == bytes@,
{
    String::from_utf8_lossy(bytes).into_owned()
}

/// The bytes of a reply before its terminator.
pub open spec fn before_terminator(bytes: Seq<u8>) -> Seq<u8>
    decreases bytes.len(),
{
    if bytes.len() == 0 || bytes[0] == 35u8 {
        seq![]
    } else {
        seq![bytes[0]] + before_terminator(bytes.drop_first())
    }
}

proof fn lemma_before_terminator(bytes: Seq<u8>, n: int)
    requires
        0 <= n <= bytes.len(),
        forall|k: int| 0 <= k < n ==> bytes[k] != 35u8,
        n == bytes.len() || bytes[n] == 35u8,
    ensures
        before_terminator(bytes) == bytes.subrange(0, n),
    decreases n,
{
    if n > 0 {
        assert forall|k: int| 0 <= k < n - 1 implies bytes.drop_first()[k] != 35u8 by {
            assert(bytes.drop_first()[k] == bytes[k + 1]);
        }
        lemma_before_terminator(bytes.drop_first(), n - 1);
        assert(seq![bytes[0]] + bytes.drop_first().subrange(0, n - 1) =~= bytes.subrange(0, n));
    } else {
        assert(bytes.subrange(0, 0) =~= seq![]);
    }
}

/// A reply is complete at its terminator, or at once where a single byte
/// answers.
pub fn reply_complete(bytes: &[u8], single_byte: bool) -> (r: bool)
    ensures
        r == (single_byte || bytes@.contains(35u8)),
{
    if single_byte {
        return true;
    }
    terminator_at(bytes) < bytes.len()
}

fn terminator_at(bytes: &[u8]) -> (n: usize)
    ensures
        n <= bytes@.len(),
        before_terminator(bytes@) == bytes@.subrange(0, n as int),
        n < bytes@.len() <==> bytes@.contains(35u8),
{
    let mut n: usize = 0;
    while n < bytes.len() && bytes[n] != 35
        invariant
            n <= bytes@.len(),
            forall|k: int| 0 <= k < n ==> bytes@[k] != 35u8,
        decreases bytes@.len() - n,
    {
        n = n + 1;
    }
    proof {
        lemma_before_terminator(bytes@, n as int);
        if n < bytes@.len() {
            assert(bytes@[n as int] == 35u8);
        }
    }
    n
}

/// What the mount answered to a command: the text before the terminator
/// without white space around it. Silence is an error.
pub fn reply_text(bytes: &[u8], command: &str) -> (reply: Result<String, String>)
    ensures
        match reply {
            Ok(t) => t@ == trim(lossy_text(before_terminator(bytes@))) && t@.len() > 0,
            Err(e) => trim(lossy_text(before_terminator(bytes@))).len() == 0 && e@
                == "no response to "@ + command@,
        },
{
    let end: usize = terminator_at(bytes);
    let text = trimmed(text_from_bytes(vstd::slice::slice_subrange(bytes, 0, end)).as_str());
    text_or_silence(text, command)
}

/// A trimmed reply, or the complaint about an empty one.
pub fn text_or_silence(text: String, command: &str) -> (reply: Result<String, String>)
    ensures
        match reply {
            Ok(t) => t@ == text@ && t@.len() > 0,
            Err(e) => text@.len() == 0 && e@ == "no response to "@ + command@,
        },
{
    if text.as_str().unicode_len() == 0 {
        Err(joined2("no response to ", command))
    } else {
        Ok(text)
    }
}

/// The date and the time of the host, from what its clock commands printed.
pub fn local_clock(date: &[u8], time: &[u8]) -> (clock: Result<(String, String), String>)
    ensures
        match clock {
            Ok((d, t)) => d@ == trim(lossy_text(date@)) && t@ == trim(lossy_text(time@)) && d@.len()
                > 0 && t@.len() > 0,
            Err(e) => (trim(lossy_text(date@)).len() == 0 || trim(lossy_text(time@)).len() == 0)
                && e@ == "could not read local date/time"@,
        },
{
    let d = trimmed(text_from_bytes(date).as_str());
    let t = trimmed(text_from_bytes(time).as_str());
    clock_reading(d, t)
}

/// A date and a time, unless one of them is empty.
pub fn clock_reading(date: String, time: String) -> (clock: Result<(String, String), String>)
    ensures
        match clock {
            Ok((d, t)) => d == date && t == time && d@.len() > 0 && t@.len() > 0,
            Err(e) => (date@.len() == 0 || time@.len() == 0) && e@
                == "could not read local date/time"@,
        },
{
    if date.as_str().unicode_len() == 0 || time.as_str().unicode_len() == 0 {
        Err("could not read local date/time".to_owned())
    } else {
        Ok((date, time))
    }
}

/// Hours and minutes of a UTC offset `±HHMM`, each as it reads by itself.
pub open spec fn utc_fields_of(text: Seq<char>) -> Option<(int, int)> {
    let t = trim(text);
    if t.len() >= 3 {
        match (signed_value(t.subrange(0, 3)), signed_value(t.subrange(3, t.len() as int))) {
            (Some(h), Some(m)) => if i32::MIN <= m <= i32::MAX {
                Some((h, m))
            } else {
                None
            },
            _ => None,
        }
    } else {
        None
    }
}

proof fn lemma_short_value(s: Seq<char>)
    requires
        s.len() <= 3,
        signed_value(s) is Some,
    ensures
        -1000 < signed_value(s)->0 < 1000,
{
    reveal_with_fuel(crate::text::digits_value, 4);
    let a = s.drop_first();
    assert forall|i: int| 0 <= i < a.len() implies a[i] == s[i + 1] by {}
    assert(a.len() == 2 ==> a.drop_last().len() == 1);
}

/// Local time minus UTC in minutes, of an offset `±HHMM`. The sign goes for hours
/// and minutes alike, also where the hours are zero.
pub open spec fn utc_minutes_of(text: Seq<char>) -> Option<int> {
    match utc_fields_of(text) {
        Some((h, m)) => Some(
            if trim(text)[0] == '-' {
                -(60 * magnitude(h) + magnitude(m))
            } else {
                60 * magnitude(h) + magnitude(m)
            },
        ),
        None => None,
    }
}

/// Reads a UTC offset.
pub fn utc_offset_minutes(text: &str) -> (minutes: Option<i64>)
    ensures
        match minutes {
            Some(m) => utc_minutes_of(text@) == Some(m as int),
            None => utc_minutes_of(text@) is None,
        },
{
    let t = trimmed(text);
    let length: usize = t.as_str().unicode_len();
    if length < 3 {
        return None;
    }
    let behind: bool = t.as_str().get_char(0) == '-';
    let head = t.as_str().substring_char(0, 3);
    let tail = t.as_str().substring_char(3, length);
    proof {
        if signed_value(head@) is Some {
            lemma_short_value(head@);
        }
    }
    match (parse_signed(head), parse_signed(tail)) {
        (Some(h), Some(m)) => {
            let hours: i64 = if h < 0 {
                -(h as i64)
            } else {
                h as i64
            };
            let minutes: i64 = if m < 0 {
                -(m as i64)
            } else {
                m as i64
            };
            let size: i64 = 60 * hours + minutes;
            Some(
                if behind {
                    -size
                } else {
                    size
                },
            )
        },
        _ => None,
    }
}

/// The reply to a site and time synchronisation.
pub fn sync_summary(
    date: &str,
    time: &str,
    offset: &str,
    latitude: &str,
    longitude: &str,
    gt: &str,
    gg: &str,
    gl: &str,
) -> (text: String)
    ensures
        text@ == "Site/time synced (local "@ + date@ + " "@ + time@ + ", UTC"@ + offset@ + ", lat "@
            + latitude@ + ", lonW "@ + longitude@ + "). Mount reports Gt="@ + gt@ + " Gg="@ + gg@
            + " GL="@ + gl@,
{
    let mut text = "Site/time synced (local ".to_owned();
    text.append(date);
    text.append(" ");
    text.append(time);
    text.append(", UTC");
    text.append(offset);
    text.append(", lat ");
    text.append(latitude);
    text.append(", lonW ");
    text.append(longitude);
    text.append("). Mount reports Gt=");
    text.append(gt);
    text.append(" Gg=");
    text.append(gg);
    text.append(" GL=");
    text.append(gl);
    text
}

/// The commands that set date, local time, UTC offset, latitude and longitude,
/// in this order, with the names of what they set.
pub fn sync_commands(date: &str, time: &str, offset: &str, latitude: &str, longitude: &str) -> (out:
    Vec<(String, &'static str)>)
    ensures
        out@.len() == 5,
        out@[0].0@ == ":SC"@ + date@ + "#"@ && out@[0].1@ == "calendar date"@,
        out@[1].0@ == ":SL"@ + time@ + "#"@ && out@[1].1@ == "local time"@,
        out@[2].0@ == ":SG"@ + offset@ + "#"@ && out@[2].1@ == "UTC offset"@,
        out@[3].0@ == ":St"@ + latitude@ + "#"@ && out@[3].1@ == "latitude"@,
        out@[4].0@ == ":Sg"@ + longitude@ + "#"@ && out@[4].1@ == "longitude"@,
{
    let mut out: Vec<(String, &'static str)> = Vec::new();
    out.push((joined3(":SC", date, "#"), "calendar date"));
    out.push((joined3(":SL", time, "#"), "local time"));
    out.push((joined3(":SG", offset, "#"), "UTC offset"));
    out.push((joined3(":St", latitude, "#"), "latitude"));
    out.push((joined3(":Sg", longitude, "#"), "longitude"));
    out
}

// ---------------------------------------------------------------------------
// Commands
// ---------------------------------------------------------------------------

/// One command on the wire.
#[derive(Clone, Copy, Debug, PartialEq, Eq, Structural)]
pub enum Wire {
    StopAll,
    StopOne(Direction),
    Move(Direction),
    Rate(u8),
    EnableTracking,
    DisableTracking,
    SolarRate,
    Home,
    Park,
    Unpark,
    SetRa(u32),
    SetDec { negative: bool, arcseconds: u32 },
    Goto,
}

/// How the mount answers a command.
#[derive(Clone, Copy, Debug, PartialEq, Eq, Structural)]
pub enum Answer {
    /// Not at all.
    Silent,
    /// With a single byte; the command sets something.
    Ack(Acknowledged),
    /// With the verdict on a GoTo.
    Verdict,
}

/// What an acknowledged command sets.
#[derive(Clone, Copy, Debug, PartialEq, Eq, Structural)]
pub enum Acknowledged {
    RightAscension,
    Declination,
    Unpark,
}

impl Acknowledged {
    pub fn field(self) -> (text: &'static str)
        ensures
            text@ == match self {
                Acknowledged::RightAscension => "right ascension"@,
                Acknowledged::Declination => "declination"@,
                Acknowledged::Unpark => "unpark"@,
            },
    {
        match self {
            Acknowledged::RightAscension => "right ascension",
            Acknowledged::Declination => "declination",
            Acknowledged::Unpark => "unpark",
        }
    }
}

impl Wire {
    pub open spec fn spec_text(self) -> Seq<char> {
        match self {
            Wire::StopAll => ":Q#"@,
            Wire::StopOne(d) => d.spec_stop_command(),
            Wire::Move(d) => d.spec_move_command(),
            Wire::Rate(r) => ":R"@ + decimal(r as nat) + "#"@,
            Wire::EnableTracking => ":Te#"@,
            Wire::DisableTracking => ":Td#"@,
            Wire::SolarRate => ":TS#"@,
            Wire::Home => ":hC#"@,
            Wire::Park => ":hP#"@,
            Wire::Unpark => ":Spu#"@,
            Wire::SetRa(s) => ":Sr"@ + clock_text((s % 86_400) as nat) + "#"@,
            Wire::SetDec { negative, arcseconds } => ":Sd"@ + dec_text(
                negative,
                if arcseconds > 324_000 {
                    324_000
                } else {
                    arcseconds as nat
                },
            ) + "#"@,
            Wire::Goto => ":MS#"@,
        }
    }

    /// The bytes of the command.
    pub fn text(self) -> (text: String)
        ensures
            text@ == self.spec_text(),
    {
        match self {
            Wire::StopAll => ":Q#".to_owned(),
            Wire::StopOne(d) => d.stop_command().to_owned(),
            Wire::Move(d) => d.move_command().to_owned(),
            Wire::Rate(r) => joined3(":R", decimal_string(r as u64).as_str(), "#"),
            Wire::EnableTracking => ":Te#".to_owned(),
            Wire::DisableTracking => ":Td#".to_owned(),
            Wire::SolarRate => ":TS#".to_owned(),
            Wire::Home => ":hC#".to_owned(),
            Wire::Park => ":hP#".to_owned(),
            Wire::Unpark => ":Spu#".to_owned(),
            Wire::SetRa(s) => joined3(":Sr", format_ra(s).as_str(), "#"),
            Wire::SetDec { negative, arcseconds } => joined3(
                ":Sd",
                format_dec(negative, arcseconds).as_str(),
                "#",
            ),
            Wire::Goto => ":MS#".to_owned(),
        }
    }

    pub open spec fn spec_answer(self) -> Answer {
        match self {
            Wire::Unpark => Answer::Ack(Acknowledged::Unpark),
            Wire::SetRa(_) => Answer::Ack(Acknowledged::RightAscension),
            Wire::SetDec { .. } => Answer::Ack(Acknowledged::Declination),
            Wire::Goto => Answer::Verdict,
            _ => Answer::Silent,
        }
    }

    /// How the mount answers the command.
    pub fn answer(self) -> (a: Answer)
        ensures
            a == self.spec_answer(),
    {
        match self {
            Wire::Unpark => Answer::Ack(Acknowledged::Unpark),
            Wire::SetRa(_) => Answer::Ack(Acknowledged::RightAscension),
            Wire::SetDec { .. } => Answer::Ack(Acknowledged::Declination),
            Wire::Goto => Answer::Verdict,
            _ => Answer::Silent,
        }
    }
}

// ---------------------------------------------------------------------------
// What the wire promises
// ---------------------------------------------------------------------------

/// Every command is a colon, its letters and a hash. The tracking commands share
/// their first letter; a rate is sent by its number; the coordinates of a target are
/// sent as clock time and as signed degrees.
pub proof fn commands_speak_the_protocol(d: Direction, r: u8, seconds: u32, negative: bool, arc: u32)
    requires
        seconds < 86_400,
        arc <= 324_000,
    ensures
        Wire::StopAll.spec_text() =~= seq![':', 'Q', '#'],
        Wire::StopOne(d).spec_text() == d.spec_stop_command(),
        Wire::Move(d).spec_text() == d.spec_move_command(),
        Wire::Rate(r).spec_text() =~= seq![':', 'R'] + decimal(r as nat) + seq!['#'],
        Wire::EnableTracking.spec_text() =~= seq![':', 'T', 'e', '#'],
        Wire::DisableTracking.spec_text() =~= seq![':', 'T', 'd', '#'],
        Wire::SolarRate.spec_text() =~= seq![':', 'T', 'S', '#'],
        Wire::Home.spec_text() =~= seq![':', 'h', 'C', '#'],
        Wire::Park.spec_text() =~= seq![':', 'h', 'P', '#'],
        Wire::Unpark.spec_text() =~= seq![':', 'S', 'p', 'u', '#'],
        Wire::Goto.spec_text() =~= seq![':', 'M', 'S', '#'],
        Wire::SetRa(seconds).spec_text() =~= seq![':', 'S', 'r'] + clock_text(seconds as nat)
            + seq!['#'],
        (Wire::SetDec { negative, arcseconds: arc }).spec_text() =~= seq![':', 'S', 'd'] + dec_text(
            negative,
            arc as nat,
        ) + seq!['#'],
{
    reveal_strlit(":Q#");
    reveal_strlit(":R");
    reveal_strlit("#");
    reveal_strlit(":Te#");
    reveal_strlit(":Td#");
    reveal_strlit(":TS#");
    reveal_strlit(":hC#");
    reveal_strlit(":hP#");
    reveal_strlit(":Spu#");
    reveal_strlit(":MS#");
    reveal_strlit(":Sr");
    reveal_strlit(":Sd");
}

/// The commands that set a coordinate, the one that leaves the park position and the
/// GoTo are answered, and no other.
pub proof fn only_settings_are_answered(w: Wire)
    ensures
        w.spec_answer() == Answer::Silent <==> !(w is Unpark || w is SetRa || w is SetDec
            || w is Goto),
        w.spec_answer() == Answer::Verdict <==> w is Goto,
        w is SetRa ==> w.spec_answer() == Answer::Ack(Acknowledged::RightAscension),
        w is SetDec ==> w.spec_answer() == Answer::Ack(Acknowledged::Declination),
        w is Unpark ==> w.spec_answer() == Answer::Ack(Acknowledged::Unpark),
{
}

/// What is read of a reply ends before its first terminator, and the whole of an
/// unterminated one is read.
pub proof fn replies_end_at_the_terminator(bytes: Seq<u8>)
    ensures
        before_terminator(bytes).len() <= bytes.len(),
        before_terminator(bytes) =~= bytes.take(before_terminator(bytes).len() as int),
        !before_terminator(bytes).contains(35u8),
        before_terminator(bytes).len() < bytes.len() ==> bytes[before_terminator(bytes).len() as int]
            == 35u8,
    decreases bytes.len(),
{
    if bytes.len() > 0 && bytes[0] != 35u8 {
        let rest = bytes.drop_first();
        replies_end_at_the_terminator(rest);
        let n = before_terminator(rest).len() as int;
        assert(before_terminator(bytes) =~= seq![bytes[0]] + before_terminator(rest));
        assert forall|k: int| 0 <= k < before_terminator(bytes).len() implies before_terminator(
            bytes,
        )[k] == bytes[k] && bytes[k] != 35u8 by {
            if k > 0 {
                assert(before_terminator(rest)[k - 1] == rest.take(n)[k - 1]);
                assert(before_terminator(rest).contains(before_terminator(rest)[k - 1]));
            }
        }
        if n < rest.len() {
            assert(rest[n] == bytes[n + 1]);
        }
    }
}

/// An offset from UTC of so many hours and minutes, as a clock prints it.
pub open spec fn offset_text(negative: bool, hours: nat, minutes: nat) -> Seq<char> {
    seq![
        if negative {
            '-'
        } else {
            '+'
        },
    ] + padded(hours, 2) + padded(minutes, 2)
}

/// An offset reads as the minutes that it stands for, east of Greenwich counted
/// upwards and west of it downwards, also less than an hour away.
pub proof fn utc_offset_reads_back(negative: bool, hours: nat, minutes: nat)
    requires
        hours < 100,
        minutes < 100,
    ensures
        utc_minutes_of(offset_text(negative, hours, minutes)) == Some(
            if negative {
                -(60 * hours + minutes)
            } else {
                (60 * hours + minutes) as int
            },
        ),
{
    let t = offset_text(negative, hours, minutes);
    let h = padded(hours, 2);
    let m = padded(minutes, 2);
    written_number_reads_back(hours, 2);
    written_number_reads_back(minutes, 2);
    lemma_two_digits(hours);
    lemma_two_digits(minutes);
    assert(t.len() == 5);
    assert(is_decimal_digit(m[1]));
    assert(t[4] == m[1]);
    assert(trim(t) == t);
    assert(t.subrange(0, 3) =~= seq![t[0]] + h);
    assert(t.subrange(3, 5) =~= m);
    assert(t.subrange(0, 3).drop_first() =~= h);
    assert(is_decimal_digit(m[0]));
}

proof fn lemma_two_digits(n: nat)
    requires
        n < 100,
    ensures
        padded(n, 2).len() == 2,
{
    reveal_with_fuel(decimal, 3);
}

/// The errors that the user can do something about are told apart: a Sun that is not up, a
/// mount whose clock and site are not set, one that moves already and one that is past its
/// limit. A number that means nothing is unknown.
pub proof fn goto_errors_are_told_apart(n: nat)
    ensures
        goto_detail(Some(3)) == "mount is already homing, slewing, or performing a GoTo"@,
        goto_detail(Some(4)) == "mount is already moving"@,
        goto_detail(Some(5)) == "Sun is below the horizon"@,
        goto_detail(Some(6)) == "Sun is below the configured altitude limit"@,
        goto_detail(Some(7))
            == "mount time and location have not been synchronized — use Observing site → Sync now"@,
        goto_detail(Some(8)) == "mount has passed its tracking meridian limit"@,
        n == 0 || n > 12 ==> goto_detail(Some(n)) == goto_detail(None),
{
}

} // verus!
