//! The focus settings kept between sessions, as lines of `name=number`.

use crate::places::{digit_run, float_text, is_exponent, is_float_text, is_number};
use crate::text::{
    is_decimal_digit, is_whitespace, joined3, lemma_first_of, opt_text, same_text, split_at_first, split_first, starts_with_char, trim, trim_end, trim_start, trimmed,
};
use vstd::prelude::*;
use vstd::string::{StrSliceExecFns, StringExecFns};

verus! {

/// Readings of a closed focus procedure, in decimal notation.
pub struct SavedFocus {
    pub camera: Option<String>,
    pub collimator: Option<String>,
    pub delta: Option<String>,
    pub focuser: Option<String>,
}

pub struct SavedFocusView {
    pub camera: Option<Seq<char>>,
    pub collimator: Option<Seq<char>>,
    pub delta: Option<Seq<char>>,
    pub focuser: Option<Seq<char>>,
}

impl View for SavedFocus {
    type V = SavedFocusView;

    open spec fn view(&self) -> SavedFocusView {
        SavedFocusView {
            camera: opt_text(self.camera),
            collimator: opt_text(self.collimator),
            delta: opt_text(self.delta),
            focuser: opt_text(self.focuser),
        }
    }
}

pub open spec fn no_focus() -> SavedFocusView {
    SavedFocusView { camera: None, collimator: None, delta: None, focuser: None }
}

/// A line for a number, where there is one.
pub open spec fn focus_line(name: Seq<char>, value: Option<Seq<char>>) -> Seq<char> {
    match value {
        Some(v) => name + "="@ + v + "\n"@,
        None => seq![],
    }
}

/// The file that holds the settings.
pub open spec fn focus_text(f: SavedFocusView) -> Seq<char> {
    "# GhostSun converged focus settings\n"@ + (focus_line("camera"@, f.camera) + (focus_line(
        "collimator"@,
        f.collimator,
    ) + (focus_line("delta"@, f.delta) + focus_line("focuser"@, f.focuser))))
}

/// The settings after one more line of the file. Comments, lines without a
/// number and other names are passed over.
pub open spec fn with_line(f: SavedFocusView, line: Seq<char>) -> SavedFocusView {
    let l = trim(line);
    if l.len() == 0 || l[0] == '#' {
        f
    } else {
        match split_first(l, seq!['=']) {
            None => f,
            Some((name, number)) => {
                let v = trim(number);
                let k = trim(name);
                if !is_float_text(v) {
                    f
                } else if k == "camera"@ {
                    SavedFocusView { camera: Some(v), ..f }
                } else if k == "collimator"@ {
                    SavedFocusView { collimator: Some(v), ..f }
                } else if k == "delta"@ {
                    SavedFocusView { delta: Some(v), ..f }
                } else if k == "focuser"@ {
                    SavedFocusView { focuser: Some(v), ..f }
                } else {
                    f
                }
            },
        }
    }
}

/// The settings after the lines of a text.
pub open spec fn focus_from(text: Seq<char>, f: SavedFocusView) -> SavedFocusView
    decreases text.len(),
{
    match split_first(text, seq!['\n']) {
        None => with_line(f, text),
        Some((line, rest)) => if rest.len() < text.len() {
            focus_from(rest, with_line(f, line))
        } else {
            f
        },
    }
}

fn line_text(name: &str, value: &Option<String>) -> (line: String)
    ensures
        line@ == focus_line(name@, opt_text(*value)),
{
    match value {
        Some(v) => {
            let mut line = joined3(name, "=", v.as_str());
            line.append("\n");
            line
        },
        None => String::new(),
    }
}

impl SavedFocus {
    /// The file that holds the settings.
    pub fn save(&self) -> (text: String)
        ensures
            text@ == focus_text(self@),
    {
        let mut text = "# GhostSun converged focus settings\n".to_owned();
        text.append(line_text("camera", &self.camera).as_str());
        text.append(line_text("collimator", &self.collimator).as_str());
        text.append(line_text("delta", &self.delta).as_str());
        text.append(line_text("focuser", &self.focuser).as_str());
        assert(text@ =~= focus_text(self@));
        text
    }

    /// The settings in a file.
    pub fn load(text: &str) -> (f: SavedFocus)
        ensures
            f@ == focus_from(text@, no_focus()),
    {
        let mut f = SavedFocus { camera: None, collimator: None, delta: None, focuser: None };
        let mut rest: String = text.to_owned();
        let mut more: bool = true;
        while more
            invariant
                more ==> focus_from(text@, no_focus()) == focus_from(rest@, f@),
                !more ==> focus_from(text@, no_focus()) == f@,
            decreases rest@.len() + if more {
                1nat
            } else {
                0nat
            },
        {
            let separators: [char; 1] = ['\n'];
            assert(separators@ =~= seq!['\n']);
            match split_at_first(rest.as_str(), &separators) {
                None => {
                    f = take_line(f, rest.as_str());
                    more = false;
                },
                Some((line, tail)) => {
                    proof {
                        lemma_split_len(rest@, seq!['\n']);
                    }
                    f = take_line(f, line.as_str());
                    rest = tail;
                },
            }
        }
        f
    }

    /// Nothing is saved.
    pub fn is_empty(&self) -> (r: bool)
        ensures
            r == (self@ == no_focus()),
    {
        self.camera.is_none() && self.collimator.is_none() && self.delta.is_none()
            && self.focuser.is_none()
    }
}

fn take_line(f: SavedFocus, line: &str) -> (r: SavedFocus)
    ensures
        r@ == with_line(f@, line@),
{
    let l = trimmed(line);
    if l.as_str().unicode_len() == 0 || starts_with_char(l.as_str(), '#') {
        return f;
    }
    let separators: [char; 1] = ['='];
    assert(separators@ =~= seq!['=']);
    match split_at_first(l.as_str(), &separators) {
        None => f,
        Some((name, number)) => {
            let v = trimmed(number.as_str());
            let k = trimmed(name.as_str());
            if !float_text(v.as_str()) {
                f
            } else if same_text(k.as_str(), "camera") {
                SavedFocus { camera: Some(v), ..f }
            } else if same_text(k.as_str(), "collimator") {
                SavedFocus { collimator: Some(v), ..f }
            } else if same_text(k.as_str(), "delta") {
                SavedFocus { delta: Some(v), ..f }
            } else if same_text(k.as_str(), "focuser") {
                SavedFocus { focuser: Some(v), ..f }
            } else {
                f
            }
        },
    }
}

proof fn lemma_split_len(s: Seq<char>, separators: Seq<char>)
    ensures
        split_first(s, separators) matches Some((a, b)) ==> a.len() + b.len() < s.len(),
{
    lemma_first_of_bound(s, separators);
}

proof fn lemma_first_of_bound(s: Seq<char>, separators: Seq<char>)
    ensures
        crate::text::first_of(s, separators) matches Some(i) ==> 0 <= i < s.len(),
    decreases s.len(),
{
    if s.len() > 0 {
        lemma_first_of_bound(s.drop_first(), separators);
    }
}

// ---------------------------------------------------------------------------
// What is saved is read back
// ---------------------------------------------------------------------------

/// Neither white space nor a sign that separates anything.
spec fn plain(c: char) -> bool {
    !is_whitespace(c) && c != '=' && c != '{' && c != '}' && c != ',' && c != '"'
}

proof fn lemma_digit_run_plain(s: Seq<char>)
    ensures
        0 <= digit_run(s) <= s.len(),
        forall|i: int| 0 <= i < digit_run(s) ==> is_decimal_digit(#[trigger] s[i]),
    decreases s.len(),
{
    if s.len() > 0 && is_decimal_digit(s[0]) {
        lemma_digit_run_plain(s.skip(1));
        assert forall|i: int| 0 <= i < digit_run(s) implies is_decimal_digit(#[trigger] s[i]) by {
            if i > 0 {
                assert(s.skip(1)[i - 1] == s[i]);
            }
        }
    }
}

proof fn lemma_exponent_plain(s: Seq<char>)
    requires
        is_exponent(s),
    ensures
        forall|i: int| 0 <= i < s.len() ==> plain(#[trigger] s[i]),
{
    if s.len() > 0 {
        let from: int = if s.len() > 1 && (s[1] == '+' || s[1] == '-') {
            2
        } else {
            1
        };
        let t = s.skip(from);
        assert forall|i: int| 0 <= i < s.len() implies plain(#[trigger] s[i]) by {
            if i >= from {
                assert(t[i - from] == s[i]);
                assert(is_decimal_digit(t[i - from]));
            }
        }
    }
}

proof fn lemma_number_plain(s: Seq<char>)
    requires
        is_number(s),
    ensures
        s.len() > 0,
        forall|i: int| 0 <= i < s.len() ==> plain(#[trigger] s[i]),
{
    let a = digit_run(s);
    let r = s.skip(a);
    lemma_digit_run_plain(s);
    if r.len() > 0 && r[0] == '.' {
        let u = r.skip(1);
        let b = digit_run(u);
        lemma_digit_run_plain(u);
        let e = r.skip(1 + b);
        lemma_exponent_plain(e);
        assert forall|i: int| 0 <= i < s.len() implies plain(#[trigger] s[i]) by {
            if i < a {
                assert(is_decimal_digit(s[i]));
            } else if i == a {
                assert(r[0] == s[a]);
            } else if i < a + 1 + b {
                assert(u[i - a - 1] == s[i]);
                assert(is_decimal_digit(u[i - a - 1]));
            } else {
                assert(e[i - a - 1 - b] == s[i]);
            }
        }
    } else {
        lemma_exponent_plain(r);
        assert forall|i: int| 0 <= i < s.len() implies plain(#[trigger] s[i]) by {
            if i < a {
                assert(is_decimal_digit(s[i]));
            } else {
                assert(r[i - a] == s[i]);
            }
        }
    }
}

proof fn lemma_word_plain(s: Seq<char>, word: Seq<char>)
    requires
        crate::places::equals_ignoring_case(s, word),
        forall|i: int| 0 <= i < word.len() ==> 'a' <= #[trigger] word[i] <= 'z',
    ensures
        forall|i: int| 0 <= i < s.len() ==> plain(#[trigger] s[i]),
{
    assert forall|i: int| 0 <= i < s.len() implies plain(#[trigger] s[i]) by {
        assert(crate::places::lowered(s[i]) == word[i]);
        assert('a' <= word[i] <= 'z');
    }
}

proof fn lemma_float_plain(s: Seq<char>)
    requires
        is_float_text(s),
    ensures
        s.len() > 0,
        forall|i: int| 0 <= i < s.len() ==> plain(#[trigger] s[i]),
{
    let signed = s.len() > 0 && (s[0] == '+' || s[0] == '-');
    let body = if signed {
        s.skip(1)
    } else {
        s
    };
    reveal_strlit("inf");
    reveal_strlit("infinity");
    reveal_strlit("nan");
    if is_number(body) {
        lemma_number_plain(body);
    } else if crate::places::equals_ignoring_case(body, "inf"@) {
        lemma_word_plain(body, "inf"@);
    } else if crate::places::equals_ignoring_case(body, "infinity"@) {
        lemma_word_plain(body, "infinity"@);
    } else {
        lemma_word_plain(body, "nan"@);
    }
    assert forall|i: int| 0 <= i < s.len() implies plain(#[trigger] s[i]) by {
        if signed && i > 0 {
            assert(body[i - 1] == s[i]);
        }
    }
}

/// A number is written without anything that a file of settings gives a meaning:
/// white space, separators, quotes.
pub proof fn float_text_is_plain(s: Seq<char>)
    requires
        is_float_text(s),
    ensures
        s.len() > 0,
        forall|i: int|
            0 <= i < s.len() ==> !is_whitespace(#[trigger] s[i]) && s[i] != '=' && s[i] != '{'
                && s[i] != '}' && s[i] != ',' && s[i] != '\n' && s[i] != '"',
{
    lemma_float_plain(s);
    assert forall|i: int| 0 <= i < s.len() implies !is_whitespace(#[trigger] s[i]) && s[i] != '='
        && s[i] != '{' && s[i] != '}' && s[i] != ',' && s[i] != '\n' && s[i] != '"' by {
        assert(plain(s[i]));
    }
}

proof fn lemma_trim_plain(s: Seq<char>)
    requires
        s.len() > 0,
        !is_whitespace(s[0]),
        !is_whitespace(s.last()),
    ensures
        trim(s) == s,
{
    assert(trim_start(s) == s);
    assert(trim_end(s) == s);
}

/// The first line of a text is taken first.
proof fn lemma_line(line: Seq<char>, rest: Seq<char>, f: SavedFocusView)
    requires
        forall|i: int| 0 <= i < line.len() ==> #[trigger] line[i] != '\n',
    ensures
        focus_from(line + seq!['\n'] + rest, f) == focus_from(rest, with_line(f, line)),
{
    let text = line + seq!['\n'] + rest;
    let n = line.len() as int;
    assert(text[n] == '\n');
    assert forall|k: int| 0 <= k < n implies !seq!['\n'].contains(#[trigger] text[k]) by {
        assert(text[k] == line[k]);
    }
    assert(seq!['\n'][0] == '\n');
    assert(seq!['\n'].contains('\n'));
    lemma_first_of(text, seq!['\n'], n);
    assert(text.subrange(0, n) =~= line);
    assert(text.subrange(n + 1, text.len() as int) =~= rest);
}

/// Reading the line of a number gives the number back.
proof fn lemma_value_line(name: Seq<char>, v: Seq<char>, f: SavedFocusView)
    requires
        is_float_text(v),
        name.len() > 0,
        name[0] != '#',
        forall|i: int| 0 <= i < name.len() ==> plain(#[trigger] name[i]),
    ensures
        ({
            let line = name + seq!['='] + v;
            &&& trim(line) == line
            &&& line[0] != '#'
            &&& split_first(line, seq!['=']) == Some((name, v))
            &&& trim(name) == name
            &&& trim(v) == v
            &&& forall|i: int| 0 <= i < line.len() ==> #[trigger] line[i] != '\n'
        }),
{
    let line = name + seq!['='] + v;
    let n = name.len() as int;
    lemma_float_plain(v);
    assert(line[0] == name[0]);
    assert(line.last() == v.last());
    assert(plain(name[0]) && plain(name[n - 1]) && plain(v[0]) && plain(v[v.len() - 1]));
    lemma_trim_plain(line);
    lemma_trim_plain(name);
    lemma_trim_plain(v);
    assert(line[n] == '=');
    assert forall|k: int| 0 <= k < n implies !seq!['='].contains(#[trigger] line[k]) by {
        assert(line[k] == name[k]);
        assert(plain(name[k]));
    }
    assert(seq!['='][0] == '=');
    assert(seq!['='].contains('='));
    lemma_first_of(line, seq!['='], n);
    assert(line.subrange(0, n) =~= name);
    assert(line.subrange(n + 1, line.len() as int) =~= v);
    assert forall|i: int| 0 <= i < line.len() implies #[trigger] line[i] != '\n' by {
        if i < n {
            assert(line[i] == name[i]);
            assert(plain(name[i]));
        } else if i > n {
            assert(line[i] == v[i - n - 1]);
            assert(plain(v[i - n - 1]));
        }
    }
}

/// The settings with one of their numbers set.
spec fn with_value(f: SavedFocusView, name: Seq<char>, v: Seq<char>) -> SavedFocusView {
    with_line(f, name + seq!['='] + v)
}

/// Reading a line that may not be there, before the rest of the file.
proof fn lemma_focus_line(name: Seq<char>, value: Option<Seq<char>>, rest: Seq<char>, f: SavedFocusView)
    requires
        value matches Some(v) ==> is_float_text(v),
        name.len() > 0,
        name[0] != '#',
        forall|i: int| 0 <= i < name.len() ==> plain(#[trigger] name[i]),
    ensures
        focus_from(focus_line(name, value) + rest, f) == focus_from(
            rest,
            match value {
                Some(v) => with_value(f, name, v),
                None => f,
            },
        ),
{
    match value {
        Some(v) => {
            reveal_strlit("=");
            reveal_strlit("\n");
            assert("="@ =~= seq!['=']);
            assert("\n"@ =~= seq!['\n']);
            lemma_value_line(name, v, f);
            let line = name + seq!['='] + v;
            assert(focus_line(name, value) + rest =~= line + seq!['\n'] + rest);
            lemma_line(line, rest, f);
        },
        None => {
            assert(focus_line(name, value) + rest =~= rest);
        },
    }
}

/// Saved settings are read back as they were: the file that `save` writes gives
/// the same numbers to `load`.
pub proof fn saved_focus_round_trip(f: SavedFocusView)
    requires
        f.camera matches Some(v) ==> is_float_text(v),
        f.collimator matches Some(v) ==> is_float_text(v),
        f.delta matches Some(v) ==> is_float_text(v),
        f.focuser matches Some(v) ==> is_float_text(v),
    ensures
        focus_from(focus_text(f), no_focus()) == f,
{
    reveal_strlit("# GhostSun converged focus settings\n");
    reveal_strlit("camera");
    reveal_strlit("collimator");
    reveal_strlit("delta");
    reveal_strlit("focuser");
    let header = "# GhostSun converged focus settings\n"@;
    let l1 = focus_line("camera"@, f.camera);
    let l2 = focus_line("collimator"@, f.collimator);
    let l3 = focus_line("delta"@, f.delta);
    let l4 = focus_line("focuser"@, f.focuser);
    let head = header.drop_last();
    assert(header =~= head + seq!['\n']);
    let body = l1 + (l2 + (l3 + l4));
    assert(focus_text(f) =~= head + seq!['\n'] + body);
    assert(head[0] == '#');
    lemma_line(head, body, no_focus());
    assert(head.last() == 's');
    lemma_trim_plain(head);
    assert(with_line(no_focus(), head) == no_focus());
    lemma_focus_line("camera"@, f.camera, l2 + (l3 + l4), no_focus());
    let f1 = SavedFocusView { camera: f.camera, ..no_focus() };
    if let Some(v) = f.camera {
        lemma_value_line("camera"@, v, no_focus());
    }
    lemma_focus_line("collimator"@, f.collimator, l3 + l4, f1);
    let f2 = SavedFocusView { collimator: f.collimator, ..f1 };
    if let Some(v) = f.collimator {
        lemma_value_line("collimator"@, v, f1);
        assert("collimator"@ != "camera"@);
    }
    lemma_focus_line("delta"@, f.delta, l4, f2);
    let f3 = SavedFocusView { delta: f.delta, ..f2 };
    if let Some(v) = f.delta {
        lemma_value_line("delta"@, v, f2);
        assert("delta"@.len() != "camera"@.len());
        assert("delta"@.len() != "collimator"@.len());
    }
    assert(l4 + seq![] =~= l4);
    lemma_focus_line("focuser"@, f.focuser, seq![], f3);
    if let Some(v) = f.focuser {
        lemma_value_line("focuser"@, v, f3);
        assert("focuser"@.len() != "camera"@.len());
        assert("focuser"@.len() != "collimator"@.len());
        assert("focuser"@.len() != "delta"@.len());
    }
    let f4 = SavedFocusView { focuser: f.focuser, ..f3 };
    assert(focus_from(Seq::<char>::empty(), f4) == f4);
}

} // verus!
