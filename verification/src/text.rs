//! Text building blocks: decimal numbers, padding, trimming and truncation.

use vstd::prelude::*;
use vstd::string::StringExecFns;
use vstd::string::StrSliceExecFns;

verus! {

/// The characters of texts.
pub open spec fn texts(list: Seq<String>) -> Seq<Seq<char>> {
    list.map_values(|s: String| s@)
}

/// The characters of a text, where there is one.
pub open spec fn opt_text(t: Option<String>) -> Option<Seq<char>> {
    match t {
        Some(s) => Some(s@),
        None => None,
    }
}

/// `String::push` of the standard library appends one character to the end
/// of the string.
pub assume_specification[ String::push ](s: &mut String, c: char)
    ensures
        final(s)@ == old(s)@.push(c),
;

/// The character of one decimal digit.
pub open spec fn digit(d: nat) -> char {
    (48 + d) as char
}

/// A natural number in decimal notation, without leading zeros.
pub open spec fn decimal(n: nat) -> Seq<char>
    decreases n,
{
    if n < 10 {
        seq![digit(n)]
    } else {
        decimal(n / 10).push(digit(n % 10))
    }
}

/// An integer in decimal notation, with a leading minus sign when negative.
pub open spec fn signed_decimal(n: int) -> Seq<char> {
    if n < 0 {
        seq!['-'] + decimal((-n) as nat)
    } else {
        decimal(n as nat)
    }
}

/// `count` zero digits.
pub open spec fn zeros(count: nat) -> Seq<char> {
    Seq::new(count, |i: int| '0')
}

/// `text` filled up with leading zeros to `width` characters.
pub open spec fn zero_filled(text: Seq<char>, width: nat) -> Seq<char> {
    if text.len() >= width {
        text
    } else {
        zeros((width - text.len()) as nat) + text
    }
}

/// A natural number in decimal notation with at least `width` digits.
pub open spec fn padded(n: nat, width: nat) -> Seq<char> {
    zero_filled(decimal(n), width)
}

/// Writes a number in decimal notation.
pub fn decimal_string(n: u64) -> (out: String)
    ensures
        out@ == decimal(n as nat),
    decreases n,
{
    let mut out = if n < 10 {
        String::new()
    } else {
        decimal_string(n / 10)
    };
    let d: u8 = (n % 10) as u8;
    let c: char = (48 + d) as char;
    out.push(c);
    assert(out@ == decimal(n as nat));
    out
}

/// Writes an integer in decimal notation.
pub fn signed_decimal_string(n: i64) -> (out: String)
    ensures
        out@ == signed_decimal(n as int),
{
    if n < 0 {
        let magnitude: u64 = if n == i64::MIN {
            9_223_372_036_854_775_808
        } else {
            (-n) as u64
        };
        let mut out = String::new();
        out.push('-');
        let digits = decimal_string(magnitude);
        out.append(digits.as_str());
        assert(out@ == seq!['-'] + decimal((-n) as nat));
        out
    } else {
        decimal_string(n as u64)
    }
}

/// Writes a number with at least `width` digits, filling up with zeros.
pub fn padded_string(n: u64, width: usize) -> (out: String)
    ensures
        out@ == padded(n as nat, width as nat),
{
    let digits = decimal_string(n);
    let length: usize = digits.as_str().unicode_len();
    let mut out = String::new();
    let mut missing: usize = if length < width {
        width - length
    } else {
        0
    };
    let ghost total = missing as nat;
    while missing > 0
        invariant
            missing <= total,
            out@ == zeros((total - missing) as nat),
        decreases missing,
    {
        out.push('0');
        missing = missing - 1;
        assert(out@ =~= zeros((total - missing) as nat));
    }
    out.append(digits.as_str());
    assert(out@ =~= padded(n as nat, width as nat));
    out
}

/// An integer with at least `width` characters, zeros after the sign.
pub open spec fn signed_padded(n: int, width: nat) -> Seq<char>
    recommends
        width >= 1,
{
    if n < 0 {
        seq!['-'] + padded((-n) as nat, (width - 1) as nat)
    } else {
        padded(n as nat, width)
    }
}

/// Writes an integer with at least `width` characters, zeros after the sign.
pub fn signed_padded_string(n: i32, width: usize) -> (out: String)
    requires
        width >= 1,
    ensures
        out@ == signed_padded(n as int, width as nat),
{
    if n < 0 {
        let digits = padded_string((-(n as i64)) as u64, width - 1);
        let mut out = String::new();
        out.push('-');
        out.append(digits.as_str());
        assert(out@ =~= signed_padded(n as int, width as nat));
        out
    } else {
        padded_string(n as u64, width)
    }
}

/// The characters of a text.
pub fn chars_of(s: &str) -> (chars: Vec<char>)
    ensures
        chars@ == s@,
{
    let mut chars: Vec<char> = Vec::new();
    for c in it: s.chars()
        invariant
            it.seq() == s@,
            chars@ == s@.take(it.index()),
    {
        chars.push(c);
        assert(chars@ =~= s@.take(it.index() + 1));
    }
    assert(chars@ =~= s@);
    chars
}

/// The text made of a range of characters.
pub fn text_of(chars: &[char], from: usize, to: usize) -> (out: String)
    requires
        from <= to <= chars@.len(),
    ensures
        out@ == chars@.subrange(from as int, to as int),
{
    let mut out = String::new();
    let mut i: usize = from;
    while i < to
        invariant
            from <= i <= to <= chars@.len(),
            out@ == chars@.subrange(from as int, i as int),
        decreases to - i,
    {
        out.push(chars[i]);
        i = i + 1;
        assert(out@ =~= chars@.subrange(from as int, i as int));
    }
    out
}

/// The concatenation of three pieces.
pub fn joined3(a: &str, b: &str, c: &str) -> (out: String)
    ensures
        out@ == a@ + b@ + c@,
{
    let mut out = String::new();
    out.append(a);
    out.append(b);
    out.append(c);
    assert(out@ =~= a@ + b@ + c@);
    out
}

/// The concatenation of two pieces.
pub fn joined2(a: &str, b: &str) -> (out: String)
    ensures
        out@ == a@ + b@,
{
    let mut out = String::new();
    out.append(a);
    out.append(b);
    assert(out@ =~= a@ + b@);
    out
}

// ---------------------------------------------------------------------------
// Taking text apart
// ---------------------------------------------------------------------------

/// White space as Unicode defines it.
pub open spec fn is_whitespace(c: char) -> bool {
    let u = c as int;
    ||| 0x9 <= u <= 0xd
    ||| u == 0x20
    ||| u == 0x85
    ||| u == 0xa0
    ||| u == 0x1680
    ||| 0x2000 <= u <= 0x200a
    ||| u == 0x2028
    ||| u == 0x2029
    ||| u == 0x202f
    ||| u == 0x205f
    ||| u == 0x3000
}

pub fn whitespace(c: char) -> (r: bool)
    ensures
        r == is_whitespace(c),
{
    let u: u32 = c as u32;
    (0x9 <= u && u <= 0xd) || u == 0x20 || u == 0x85 || u == 0xa0 || u == 0x1680 || (0x2000 <= u
        && u <= 0x200a) || u == 0x2028 || u == 0x2029 || u == 0x202f || u == 0x205f || u == 0x3000
}

/// A text without the white space in front of it.
pub open spec fn trim_start(s: Seq<char>) -> Seq<char>
    decreases s.len(),
{
    if s.len() > 0 && is_whitespace(s[0]) {
        trim_start(s.drop_first())
    } else {
        s
    }
}

/// A text without the white space behind it.
pub open spec fn trim_end(s: Seq<char>) -> Seq<char>
    decreases s.len(),
{
    if s.len() > 0 && is_whitespace(s.last()) {
        trim_end(s.drop_last())
    } else {
        s
    }
}

/// A text without the white space around it.
pub open spec fn trim(s: Seq<char>) -> Seq<char> {
    trim_end(trim_start(s))
}

/// A text without the characters `c` in front of it.
pub open spec fn strip_leading(s: Seq<char>, c: char) -> Seq<char>
    decreases s.len(),
{
    if s.len() > 0 && s[0] == c {
        strip_leading(s.drop_first(), c)
    } else {
        s
    }
}

/// A text without the characters `c` behind it.
pub open spec fn strip_trailing(s: Seq<char>, c: char) -> Seq<char>
    decreases s.len(),
{
    if s.len() > 0 && s.last() == c {
        strip_trailing(s.drop_last(), c)
    } else {
        s
    }
}

/// The part of `chars` between the returned positions is what is left after
/// trimming.
pub fn trim_range(chars: &[char]) -> (range: (usize, usize))
    ensures
        range.0 <= range.1 <= chars@.len(),
        chars@.subrange(range.0 as int, range.1 as int) == trim(chars@),
{
    let mut from: usize = 0;
    let mut to: usize = chars.len();
    assert(chars@.subrange(0, to as int) =~= chars@);
    while from < to && whitespace(chars[from])
        invariant
            from <= to == chars@.len(),
            trim_start(chars@) == trim_start(chars@.subrange(from as int, to as int)),
        decreases to - from,
    {
        assert(chars@.subrange(from as int, to as int).drop_first() =~= chars@.subrange(
            from + 1,
            to as int,
        ));
        from = from + 1;
    }
    assert(trim_start(chars@) == chars@.subrange(from as int, to as int));
    while from < to && whitespace(chars[to - 1])
        invariant
            from <= to <= chars@.len(),
            trim(chars@) == trim_end(chars@.subrange(from as int, to as int)),
        decreases to - from,
    {
        assert(chars@.subrange(from as int, to as int).drop_last() =~= chars@.subrange(
            from as int,
            to - 1,
        ));
        to = to - 1;
    }
    (from, to)
}

/// A text without the white space around it.
pub fn trimmed(s: &str) -> (out: String)
    ensures
        out@ == trim(s@),
{
    let chars = chars_of(s);
    let (from, to) = trim_range(chars.as_slice());
    text_of(chars.as_slice(), from, to)
}

/// A text without the characters `c` in front of it.
pub fn without_leading(s: &str, c: char) -> (out: String)
    ensures
        out@ == strip_leading(s@, c),
{
    let chars = chars_of(s);
    let to: usize = chars.len();
    let mut from: usize = 0;
    assert(chars@.subrange(0, to as int) =~= chars@);
    while from < to && chars[from] == c
        invariant
            from <= to == chars@.len(),
            chars@ == s@,
            strip_leading(s@, c) == strip_leading(chars@.subrange(from as int, to as int), c),
        decreases to - from,
    {
        assert(chars@.subrange(from as int, to as int).drop_first() =~= chars@.subrange(
            from + 1,
            to as int,
        ));
        from = from + 1;
    }
    text_of(chars.as_slice(), from, to)
}

/// A text without the characters `c` behind it.
pub fn without_trailing(s: &str, c: char) -> (out: String)
    ensures
        out@ == strip_trailing(s@, c),
{
    let chars = chars_of(s);
    let mut to: usize = chars.len();
    assert(chars@.subrange(0, to as int) =~= chars@);
    while 0 < to && chars[to - 1] == c
        invariant
            to <= chars@.len(),
            chars@ == s@,
            strip_trailing(s@, c) == strip_trailing(chars@.subrange(0, to as int), c),
        decreases to,
    {
        assert(chars@.subrange(0, to as int).drop_last() =~= chars@.subrange(0, to - 1));
        to = to - 1;
    }
    text_of(chars.as_slice(), 0, to)
}

/// `s` starts with `c`.
pub fn starts_with_char(s: &str, c: char) -> (r: bool)
    ensures
        r == (s@.len() > 0 && s@[0] == c),
{
    s.unicode_len() > 0 && s.get_char(0) == c
}

/// `s` holds `c` somewhere.
pub fn contains_char(s: &str, c: char) -> (r: bool)
    ensures
        r == s@.contains(c),
{
    let chars = chars_of(s);
    let mut i: usize = 0;
    while i < chars.len()
        invariant
            chars@ == s@,
            i <= chars@.len(),
            forall|k: int| 0 <= k < i ==> s@[k] != c,
        decreases chars@.len() - i,
    {
        if chars[i] == c {
            assert(s@[i as int] == c);
            return true;
        }
        i = i + 1;
    }
    false
}

/// Two texts are the same.
pub fn same_text(a: &str, b: &str) -> (r: bool)
    ensures
        r == (a@ == b@),
{
    let x = chars_of(a);
    let y = chars_of(b);
    if x.len() != y.len() {
        return false;
    }
    let mut i: usize = 0;
    while i < x.len()
        invariant
            x@ == a@,
            y@ == b@,
            x@.len() == y@.len(),
            i <= x@.len(),
            forall|k: int| 0 <= k < i ==> a@[k] == b@[k],
        decreases x@.len() - i,
    {
        if x[i] != y[i] {
            assert(a@[i as int] != b@[i as int]);
            return false;
        }
        i = i + 1;
    }
    assert(a@ =~= b@);
    true
}

// ---------------------------------------------------------------------------
// Reading numbers
// ---------------------------------------------------------------------------

pub open spec fn is_decimal_digit(c: char) -> bool {
    '0' <= c <= '9'
}

pub open spec fn all_digits(s: Seq<char>) -> bool {
    forall|i: int| 0 <= i < s.len() ==> is_decimal_digit(#[trigger] s[i])
}

/// The number that decimal digits denote.
pub open spec fn digits_value(s: Seq<char>) -> nat
    decreases s.len(),
{
    if s.len() == 0 {
        0
    } else {
        10 * digits_value(s.drop_last()) + (s.last() as int - '0' as int) as nat
    }
}

/// The number that a text denotes: digits, with a plus sign allowed in front.
pub open spec fn unsigned_value(s: Seq<char>) -> Option<nat> {
    let body = if s.len() > 0 && s[0] == '+' {
        s.drop_first()
    } else {
        s
    };
    if body.len() > 0 && all_digits(body) {
        Some(digits_value(body))
    } else {
        None
    }
}

proof fn lemma_prefix_value(s: Seq<char>, n: int)
    requires
        0 <= n <= s.len(),
    ensures
        digits_value(s.take(n)) <= digits_value(s),
    decreases s.len() - n,
{
    if n < s.len() {
        lemma_prefix_value(s, n + 1);
        assert(s.take(n + 1).drop_last() =~= s.take(n));
    } else {
        assert(s.take(n) =~= s);
    }
}

/// Reads digits that denote a 64-bit number.
pub fn parse_digits(text: &str) -> (value: Option<u64>)
    ensures
        match value {
            Some(v) => text@.len() > 0 && all_digits(text@) && digits_value(text@) == v,
            None => text@.len() == 0 || !all_digits(text@) || digits_value(text@) > u64::MAX,
        },
{
    let chars = chars_of(text);
    let length: usize = chars.len();
    if length == 0 {
        return None;
    }
    let mut value: u64 = 0;
    let mut i: usize = 0;
    assert(text@.take(0) =~= Seq::<char>::empty());
    while i < length
        invariant
            chars@ == text@,
            length == chars@.len(),
            0 <= i <= length,
            all_digits(text@.take(i as int)),
            value == digits_value(text@.take(i as int)),
        decreases length - i,
    {
        let c: char = chars[i];
        if !('0' <= c && c <= '9') {
            assert(!is_decimal_digit(text@[i as int]));
            return None;
        }
        let next: u128 = 10 * value as u128 + (c as u32 - '0' as u32) as u128;
        assert(text@.take(i + 1).drop_last() =~= text@.take(i as int));
        assert(text@.take(i + 1).last() == c);
        assert(all_digits(text@.take(i + 1))) by {
            assert forall|k: int| 0 <= k < i + 1 implies is_decimal_digit(
                #[trigger] text@.take(i + 1)[k],
            ) by {
                if k < i {
                    assert(text@.take(i as int)[k] == text@[k]);
                }
            }
        }
        if next > u64::MAX as u128 {
            proof {
                lemma_prefix_value(text@, i + 1);
            }
            return None;
        }
        value = next as u64;
        i = i + 1;
    }
    assert(text@.take(length as int) =~= text@);
    Some(value)
}

proof fn lemma_decimal_value(n: nat)
    ensures
        all_digits(decimal(n)),
        digits_value(decimal(n)) == n,
        decimal(n).len() > 0,
    decreases n,
{
    if n < 10 {
        reveal_with_fuel(digits_value, 2);
        assert(decimal(n).drop_last() =~= Seq::<char>::empty());
    } else {
        lemma_decimal_value(n / 10);
        assert(decimal(n).drop_last() =~= decimal(n / 10));
        assert forall|i: int| 0 <= i < decimal(n).len() implies is_decimal_digit(
            #[trigger] decimal(n)[i],
        ) by {
            if i < decimal(n / 10).len() {
                assert(decimal(n)[i] == decimal(n / 10)[i]);
            }
        }
    }
}

proof fn lemma_leading_zeros(count: nat, s: Seq<char>)
    ensures
        digits_value(zeros(count) + s) == digits_value(s),
    decreases count + s.len(),
{
    if s.len() > 0 {
        assert((zeros(count) + s).drop_last() =~= zeros(count) + s.drop_last());
        lemma_leading_zeros(count, s.drop_last());
    } else if count > 0 {
        let less = (count - 1) as nat;
        assert((zeros(count) + s).drop_last() =~= zeros(less) + s);
        lemma_leading_zeros(less, s);
        assert((zeros(count) + s).last() == '0');
    } else {
        assert(zeros(count) + s =~= s);
    }
}

/// A number reads back as it was written, with leading zeros and without.
pub proof fn written_number_reads_back(n: nat, width: nat)
    ensures
        all_digits(padded(n, width)),
        digits_value(padded(n, width)) == n,
        padded(n, width).len() > 0,
        padded(n, width).len() >= width,
{
    lemma_decimal_value(n);
    let text = decimal(n);
    if text.len() < width {
        let fill = (width - text.len()) as nat;
        lemma_leading_zeros(fill, text);
        assert forall|i: int| 0 <= i < padded(n, width).len() implies is_decimal_digit(
            #[trigger] padded(n, width)[i],
        ) by {
            if i >= fill {
                assert(padded(n, width)[i] == text[i - fill]);
            }
        }
    }
}

/// Reads a number up to `max`.
pub fn parse_unsigned(text: &str, max: u32) -> (value: Option<u32>)
    ensures
        match value {
            Some(v) => unsigned_value(text@) == Some(v as nat) && v <= max,
            None => unsigned_value(text@) is None || unsigned_value(text@)->0 > max,
        },
{
    let chars = chars_of(text);
    let length: usize = chars.len();
    let start: usize = if length > 0 && chars[0] == '+' {
        1
    } else {
        0
    };
    let ghost body = if start == 1 {
        text@.drop_first()
    } else {
        text@
    };
    if start == length {
        return None;
    }
    let mut value: u64 = 0;
    let mut i: usize = start;
    assert(body.take(0) =~= Seq::<char>::empty());
    while i < length
        invariant
            chars@ == text@,
            length == chars@.len(),
            start <= i <= length,
            start <= 1,
            start == 1 ==> text@.len() > 0 && text@[0] == '+',
            start == 0 ==> !(text@.len() > 0 && text@[0] == '+'),
            body == (if start == 1 {
                text@.drop_first()
            } else {
                text@
            }),
            body.len() == length - start,
            body.len() > 0,
            all_digits(body.take(i - start)),
            value == digits_value(body.take(i - start)),
            value <= max,
        decreases length - i,
    {
        let c: char = chars[i];
        assert(c == body[i - start]);
        if !('0' <= c && c <= '9') {
            assert(!is_decimal_digit(body[i - start]));
            return None;
        }
        let next: u64 = 10 * value + (c as u32 - '0' as u32) as u64;
        assert(body.take(i - start + 1).drop_last() =~= body.take(i - start));
        assert(body.take(i - start + 1).last() == c);
        assert(next == digits_value(body.take(i - start + 1)));
        assert(all_digits(body.take(i - start + 1))) by {
            assert forall|k: int| 0 <= k < i - start + 1 implies is_decimal_digit(
                #[trigger] body.take(i - start + 1)[k],
            ) by {
                if k < i - start {
                    assert(body.take(i - start)[k] == body[k]);
                }
            }
        }
        if next > max as u64 {
            proof {
                lemma_prefix_value(body, i - start + 1);
            }
            return None;
        }
        value = next;
        i = i + 1;
    }
    assert(body.take(length - start) =~= body);
    Some(value as u32)
}

/// The integer that a text denotes, with a sign allowed in front.
pub open spec fn signed_value(s: Seq<char>) -> Option<int> {
    if s.len() > 1 && s[0] == '-' {
        if all_digits(s.drop_first()) {
            Some(-(digits_value(s.drop_first()) as int))
        } else {
            None
        }
    } else {
        match unsigned_value(s) {
            Some(v) => Some(v as int),
            None => None,
        }
    }
}

/// Reads a 32-bit integer.
pub fn parse_signed(text: &str) -> (value: Option<i32>)
    ensures
        match value {
            Some(v) => signed_value(text@) == Some(v as int),
            None => signed_value(text@) is None || signed_value(text@)->0 > i32::MAX
                || signed_value(text@)->0 < i32::MIN,
        },
{
    let length: usize = text.unicode_len();
    if length > 1 && text.get_char(0) == '-' {
        let rest = text.substring_char(1, length);
        assert(rest@ =~= text@.drop_first());
        if rest.get_char(0) == '+' {
            assert(!is_decimal_digit(text@.drop_first()[0]));
            return None;
        }
        match parse_unsigned(rest, 0x8000_0000) {
            None => None,
            Some(v) => {
                let w: i64 = -(v as i64);
                Some(w as i32)
            },
        }
    } else {
        match parse_unsigned(text, 0x7fff_ffff) {
            None => None,
            Some(v) => Some(v as i32),
        }
    }
}

// ---------------------------------------------------------------------------
// Splitting
// ---------------------------------------------------------------------------

/// Position of the first character of `s` that is one of `separators`.
pub open spec fn first_of(s: Seq<char>, separators: Seq<char>) -> Option<int>
    decreases s.len(),
{
    if s.len() == 0 {
        None
    } else if separators.contains(s[0]) {
        Some(0)
    } else {
        match first_of(s.drop_first(), separators) {
            Some(i) => Some(i + 1),
            None => None,
        }
    }
}

/// Where the first separator stands.
pub proof fn lemma_first_of(s: Seq<char>, separators: Seq<char>, n: int)
    requires
        0 <= n <= s.len(),
        forall|k: int| 0 <= k < n ==> !separators.contains(#[trigger] s[k]),
    ensures
        n < s.len() && separators.contains(s[n]) ==> first_of(s, separators) == Some(n),
        n == s.len() ==> first_of(s, separators) is None,
    decreases s.len(),
{
    if s.len() > 0 && n > 0 {
        assert(!separators.contains(s[0]));
        assert forall|k: int| 0 <= k < n - 1 implies !separators.contains(
            #[trigger] s.drop_first()[k],
        ) by {
            assert(s.drop_first()[k] == s[k + 1]);
        }
        lemma_first_of(s.drop_first(), separators, n - 1);
    }
}

fn is_one_of(c: char, separators: &[char]) -> (r: bool)
    ensures
        r == separators@.contains(c),
{
    let mut i: usize = 0;
    while i < separators.len()
        invariant
            i <= separators@.len(),
            forall|k: int| 0 <= k < i ==> separators@[k] != c,
        decreases separators@.len() - i,
    {
        if separators[i] == c {
            assert(separators@[i as int] == c);
            return true;
        }
        i = i + 1;
    }
    false
}

/// The pieces of `s` around its first separator.
pub open spec fn split_first(s: Seq<char>, separators: Seq<char>) -> Option<(Seq<char>, Seq<char>)> {
    match first_of(s, separators) {
        Some(i) => Some((s.subrange(0, i), s.subrange(i + 1, s.len() as int))),
        None => None,
    }
}

/// What two pieces of text say.
pub open spec fn pair_view(pair: Option<(String, String)>) -> Option<(Seq<char>, Seq<char>)> {
    match pair {
        Some((a, b)) => Some((a@, b@)),
        None => None,
    }
}

/// Splits a text at its first separator.
pub fn split_at_first(s: &str, separators: &[char]) -> (pair: Option<(String, String)>)
    ensures
        pair_view(pair) == split_first(s@, separators@),
{
    let chars = chars_of(s);
    let mut i: usize = 0;
    while i < chars.len()
        invariant
            chars@ == s@,
            i <= chars@.len(),
            forall|k: int| 0 <= k < i ==> !separators@.contains(#[trigger] s@[k]),
        decreases chars@.len() - i,
    {
        if is_one_of(chars[i], separators) {
            proof {
                lemma_first_of(s@, separators@, i as int);
            }
            let head = text_of(chars.as_slice(), 0, i);
            let tail = text_of(chars.as_slice(), i + 1, chars.len());
            return Some((head, tail));
        }
        i = i + 1;
    }
    proof {
        lemma_first_of(s@, separators@, i as int);
    }
    None
}

/// Trimming takes white space away at both ends and nothing else: what is left stands
/// in one piece in the text, and neither begins nor ends with white space.
pub proof fn trimming_takes_only_white_space(s: Seq<char>)
    ensures
        exists|from: int, to: int|
            0 <= from <= to <= s.len() && trim(s) == #[trigger] s.subrange(from, to) && (forall|
                k: int,
            |
                0 <= k < from || to <= k < s.len() ==> is_whitespace(#[trigger] s[k])),
        trim(s).len() > 0 ==> !is_whitespace(trim(s)[0]) && !is_whitespace(trim(s).last()),
{
    let from = trim_start_place(s);
    let t = trim_start(s);
    let to = from + trim_end(t).len();
    lemma_trim_end_place(t);
    assert(trim(s) =~= s.subrange(from, to));
    assert forall|k: int| 0 <= k < from || to <= k < s.len() implies is_whitespace(
        #[trigger] s[k],
    ) by {
        if k >= to {
            assert(t[k - from] == s[k]);
        }
    }
    if trim(s).len() > 0 {
        assert(trim(s)[0] == t[0]);
    }
}

/// How many characters are white space in front of a text.
proof fn trim_start_place(s: Seq<char>) -> (from: int)
    ensures
        0 <= from <= s.len(),
        trim_start(s) == s.subrange(from, s.len() as int),
        forall|k: int| 0 <= k < from ==> is_whitespace(#[trigger] s[k]),
        from < s.len() ==> !is_whitespace(s[from]),
    decreases s.len(),
{
    if s.len() > 0 && is_whitespace(s[0]) {
        let rest = s.drop_first();
        let n = trim_start_place(rest);
        assert(trim_start(s) =~= s.subrange(n + 1, s.len() as int));
        assert forall|k: int| 0 <= k < n + 1 implies is_whitespace(#[trigger] s[k]) by {
            if k > 0 {
                assert(rest[k - 1] == s[k]);
            }
        }
        n + 1
    } else {
        assert(s.subrange(0, s.len() as int) =~= s);
        0
    }
}

proof fn lemma_trim_end_place(s: Seq<char>)
    ensures
        trim_end(s).len() <= s.len(),
        trim_end(s) == s.take(trim_end(s).len() as int),
        forall|k: int| trim_end(s).len() <= k < s.len() ==> is_whitespace(#[trigger] s[k]),
        trim_end(s).len() > 0 ==> !is_whitespace(trim_end(s).last()),
    decreases s.len(),
{
    if s.len() > 0 && is_whitespace(s.last()) {
        let less = s.drop_last();
        lemma_trim_end_place(less);
        let n = trim_end(less).len() as int;
        assert(trim_end(s) =~= s.take(n));
        assert forall|k: int| n <= k < s.len() implies is_whitespace(#[trigger] s[k]) by {
            if k < less.len() {
                assert(less[k] == s[k]);
            }
        }
    } else {
        assert(s.take(s.len() as int) =~= s);
    }
}

} // verus!
