//! Reading the source picture's width and height from what the probing tool
//! printed.
//!
//! The tool prints one line of the form `1920x1080`. Surrounding white space
//! is ignored; what remains must be a numeral, an `x` and a numeral, where a
//! numeral is a non-empty run of the digits `0` to `9`. A picture has at
//! least one pixel each way, so neither number may be zero.

use crate::command::{ToolOutcome, ToolOutcomeView};
use crate::error::{outcome_view, Failure, ProcessError};
use crate::format::Dimensions;
use crate::text::{decimal, digit_char};
use vstd::prelude::*;
use vstd::string::*;

verus! {

/// White space that may surround the tool's output: space, tab, line feed,
/// vertical tab, form feed and carriage return.
pub open spec fn is_space(c: char) -> bool {
    c == ' ' || ('\u{9}' <= c && c <= '\u{d}')
}

/// The digits `0` to `9`.
pub open spec fn is_digit(c: char) -> bool {
    '0' <= c && c <= '9'
}

/// The number that a digit stands for.
pub open spec fn digit_value(c: char) -> nat {
    (c as nat - '0' as nat) as nat
}

/// `s` without the white space at its start.
pub open spec fn trim_start(s: Seq<char>) -> Seq<char>
    decreases s.len(),
{
    if s.len() > 0 && is_space(s.first()) {
        trim_start(s.drop_first())
    } else {
        s
    }
}

/// `s` without the white space at its end.
pub open spec fn trim_end(s: Seq<char>) -> Seq<char>
    decreases s.len(),
{
    if s.len() > 0 && is_space(s.last()) {
        trim_end(s.drop_last())
    } else {
        s
    }
}

/// `s` without the white space at either end.
pub open spec fn trimmed(s: Seq<char>) -> Seq<char> {
    trim_end(trim_start(s))
}

/// A numeral is a non-empty run of digits.
pub open spec fn is_numeral(s: Seq<char>) -> bool {
    s.len() > 0 && forall|i: int| 0 <= i < s.len() ==> is_digit(#[trigger] s[i])
}

/// The number that a run of digits writes in decimal.
pub open spec fn numeral_value(s: Seq<char>) -> nat
    decreases s.len(),
{
    if s.len() == 0 {
        0
    } else {
        numeral_value(s.drop_last()) * 10 + digit_value(s.last())
    }
}

/// Whether `t` is a numeral, an `x` at position `k`, and a numeral.
pub open spec fn splits_at(t: Seq<char>, k: int) -> bool {
    &&& 0 <= k < t.len()
    &&& t[k] == 'x'
    &&& is_numeral(t.take(k))
    &&& is_numeral(t.skip(k + 1))
}

/// The width and height that `text` writes, if it has the form described
/// at the top of this file.
pub open spec fn written_dimensions(text: Seq<char>) -> Option<(nat, nat)> {
    let t = trimmed(text);
    if exists|k: int| splits_at(t, k) {
        let k = choose|k: int| splits_at(t, k);
        Some((numeral_value(t.take(k)), numeral_value(t.skip(k + 1))))
    } else {
        None
    }
}

/// What reading the tool's output yields: the dimensions it writes, provided
/// both are positive and fit in 32 bits, and otherwise a `ParseFailure` that
/// holds the output.
pub open spec fn probe_reading(text: Seq<char>) -> Result<Dimensions, Failure> {
    match written_dimensions(text) {
        Some((width, height)) => if 0 < width <= u32::MAX && 0 < height <= u32::MAX {
            Ok(Dimensions { width: width as u32, height: height as u32 })
        } else {
            Err(Failure::ParseFailure(text))
        },
        None => Err(Failure::ParseFailure(text)),
    }
}

/// What the probe's outcome says about the source: its dimensions, a
/// `ProbeFailure` with the tool's complaint if the tool failed, or a
/// `ParseFailure` if what it printed cannot be read.
pub open spec fn probe_verdict(outcome: ToolOutcomeView) -> Result<Dimensions, Failure> {
    if outcome.success {
        probe_reading(outcome.output)
    } else {
        Err(Failure::ProbeFailure(outcome.detail))
    }
}

/// The `x` that separates the two numerals is the first character that is
/// not a digit, so there is at most one way to split a text.
proof fn lemma_split_point(t: Seq<char>, k: int, j: int)
    requires
        splits_at(t, k),
        0 <= j <= t.len(),
        forall|i: int| 0 <= i < j ==> is_digit(#[trigger] t[i]),
        j == t.len() || !is_digit(t[j]),
    ensures
        j == k,
{
    if j < k {
        assert(t.take(k)[j] == t[j]);
    }
}

/// A text splits in at most one place.
pub proof fn lemma_split_unique(t: Seq<char>, k1: int, k2: int)
    requires
        splits_at(t, k1),
        splits_at(t, k2),
    ensures
        k1 == k2,
{
    assert forall|i: int| 0 <= i < k1 implies is_digit(#[trigger] t[i]) by {
        assert(t.take(k1)[i] == t[i]);
    }
    lemma_split_point(t, k2, k1);
}

/// The decimal numeral of a number is a numeral, and the number it writes
/// is that number.
pub proof fn lemma_decimal_is_numeral(n: nat)
    ensures
        is_numeral(decimal(n)),
        numeral_value(decimal(n)) == n,
    decreases n,
{
    let written = decimal(n);
    if n < 10 {
        assert(written.drop_last() =~= Seq::<char>::empty());
        assert(written.last() == digit_char(n));
        assert(numeral_value(written.drop_last()) == 0);
    } else {
        lemma_decimal_is_numeral(n / 10);
        assert(written.drop_last() =~= decimal(n / 10));
        assert(written.last() == digit_char(n % 10));
        assert forall|i: int| 0 <= i < written.len() implies is_digit(#[trigger] written[i]) by {
            if i < written.len() - 1 {
                assert(written[i] == decimal(n / 10)[i]);
            }
        }
    }
}

/// Positive dimensions printed as two decimal numerals with an `x` between
/// them are read back as they were.
pub proof fn lemma_reads_what_is_printed(width: u32, height: u32)
    requires
        width > 0,
        height > 0,
    ensures
        probe_reading(decimal(width as nat) + seq!['x'] + decimal(height as nat)) == Ok::<
            Dimensions,
            Failure,
        >(Dimensions { width, height }),
{
    let left = decimal(width as nat);
    let right = decimal(height as nat);
    let text = left + seq!['x'] + right;
    lemma_decimal_is_numeral(width as nat);
    lemma_decimal_is_numeral(height as nat);
    assert(text[0] == left[0]);
    assert(text[text.len() - 1] == right[right.len() - 1]);
    lemma_trim_start(text, 0);
    assert(text.skip(0) =~= text);
    lemma_trim_end(text, text.len() as int);
    assert(text.take(text.len() as int) =~= text);
    assert(text.take(left.len() as int) =~= left);
    assert(text.skip(left.len() as int + 1) =~= right);
    assert(trimmed(text) == text);
    assert(splits_at(text, left.len() as int));
    let k = choose|k: int| splits_at(text, k);
    lemma_split_unique(text, k, left.len() as int);
    assert(written_dimensions(text) == Some((width as nat, height as nat)));
}

/// Dropping leading white space leaves a suffix: if the first `a`
/// characters are white space and the next one is not, `trim_start` drops
/// exactly those `a`.
proof fn lemma_trim_start(s: Seq<char>, a: int)
    requires
        0 <= a <= s.len(),
        forall|i: int| 0 <= i < a ==> is_space(#[trigger] s[i]),
        a == s.len() || !is_space(s[a]),
    ensures
        trim_start(s) == s.skip(a),
    decreases a,
{
    if a == 0 {
        assert(s.skip(0) =~= s);
    } else {
        assert(is_space(s[0]));
        let rest = s.drop_first();
        assert forall|i: int| 0 <= i < a - 1 implies is_space(#[trigger] rest[i]) by {
            assert(rest[i] == s[i + 1]);
        }
        lemma_trim_start(rest, a - 1);
        assert(rest.skip(a - 1) =~= s.skip(a));
    }
}

/// Dropping trailing white space leaves a prefix: if everything from `b` on
/// is white space and the character before `b` is not, `trim_end` keeps
/// exactly the first `b` characters.
proof fn lemma_trim_end(s: Seq<char>, b: int)
    requires
        0 <= b <= s.len(),
        forall|i: int| b <= i < s.len() ==> is_space(#[trigger] s[i]),
        b == 0 || !is_space(s[b - 1]),
    ensures
        trim_end(s) == s.take(b),
    decreases s.len() - b,
{
    if b == s.len() {
        assert(s.take(b) =~= s);
    } else {
        assert(is_space(s[s.len() - 1]));
        let rest = s.drop_last();
        lemma_trim_end(rest, b);
        assert(rest.take(b) =~= s.take(b));
    }
}

/// The number of white-space characters at the start of `s`.
spec fn leading_spaces(s: Seq<char>) -> int
    decreases s.len(),
{
    if s.len() > 0 && is_space(s.first()) {
        1 + leading_spaces(s.drop_first())
    } else {
        0
    }
}

/// The number of white-space characters at the end of `s`.
spec fn trailing_spaces(s: Seq<char>) -> int
    decreases s.len(),
{
    if s.len() > 0 && is_space(s.last()) {
        1 + trailing_spaces(s.drop_last())
    } else {
        0
    }
}

proof fn lemma_leading_spaces(s: Seq<char>)
    ensures
        0 <= leading_spaces(s) <= s.len(),
        forall|i: int| 0 <= i < leading_spaces(s) ==> is_space(#[trigger] s[i]),
        leading_spaces(s) == s.len() || !is_space(s[leading_spaces(s)]),
    decreases s.len(),
{
    if s.len() > 0 && is_space(s.first()) {
        let rest = s.drop_first();
        lemma_leading_spaces(rest);
        assert forall|i: int| 0 <= i < leading_spaces(s) implies is_space(#[trigger] s[i]) by {
            if i > 0 {
                assert(rest[i - 1] == s[i]);
            }
        }
        if leading_spaces(s) < s.len() {
            assert(rest[leading_spaces(rest)] == s[leading_spaces(s)]);
        }
    }
}

proof fn lemma_trailing_spaces(s: Seq<char>)
    ensures
        0 <= trailing_spaces(s) <= s.len(),
        forall|i: int| s.len() - trailing_spaces(s) <= i < s.len() ==> is_space(#[trigger] s[i]),
        trailing_spaces(s) == s.len() || !is_space(s[s.len() - trailing_spaces(s) - 1]),
    decreases s.len(),
{
    if s.len() > 0 && is_space(s.last()) {
        let rest = s.drop_last();
        lemma_trailing_spaces(rest);
        assert forall|i: int| s.len() - trailing_spaces(s) <= i < s.len() implies is_space(
            #[trigger] s[i],
        ) by {
            if i < s.len() - 1 {
                assert(rest[i] == s[i]);
            }
        }
        if trailing_spaces(s) < s.len() {
            assert(rest[rest.len() - trailing_spaces(rest) - 1] == s[s.len() - trailing_spaces(s)
                - 1]);
        }
    }
}

/// A text that writes dimensions consists of white space, digits and one
/// `x`, all of which are ASCII.
proof fn lemma_written_dimensions_are_ascii(text: Seq<char>)
    requires
        written_dimensions(text) is Some,
    ensures
        vstd::utf8::is_ascii_chars(text),
{
    let a = leading_spaces(text);
    lemma_leading_spaces(text);
    lemma_trim_start(text, a);
    let u = text.skip(a);
    let c = trailing_spaces(u);
    lemma_trailing_spaces(u);
    let b = u.len() - c;
    lemma_trim_end(u, b);
    let t = u.take(b);
    assert(t == trimmed(text));
    let k = choose|k: int| splits_at(t, k);
    assert(splits_at(t, k));
    assert forall|i: int| 0 <= i < text.len() implies '\0' <= #[trigger] text[i] <= '\u{7f}' by {
        if i < a {
            assert(is_space(text[i]));
        } else if i >= a + b {
            assert(u[i - a] == text[i]);
            assert(is_space(u[i - a]));
        } else {
            let j = i - a;
            assert(t[j] == text[i]);
            if j < k {
                assert(t.take(k)[j] == t[j]);
            } else if j > k {
                assert(t.skip(k + 1)[j - k - 1] == t[j]);
            }
        }
    }
}

/// Appending digits never makes the number written smaller.
proof fn lemma_numeral_value_prefix(s: Seq<char>, n: int)
    requires
        0 <= n <= s.len(),
    ensures
        numeral_value(s.take(n)) <= numeral_value(s),
    decreases s.len() - n,
{
    if n == s.len() {
        assert(s.take(n) =~= s);
    } else {
        lemma_numeral_value_prefix(s.drop_last(), n);
        assert(s.drop_last().take(n) =~= s.take(n));
    }
}

/// A text whose leading digits end at `j` splits at `j` or nowhere.
proof fn lemma_no_split(t: Seq<char>, j: int)
    requires
        0 <= j <= t.len(),
        forall|i: int| 0 <= i < j ==> is_digit(#[trigger] t[i]),
        j == t.len() || !is_digit(t[j]),
        j == 0 || j == t.len() || t[j] != 'x' || !is_numeral(t.skip(j + 1)),
    ensures
        !exists|k: int| splits_at(t, k),
{
    if exists|k: int| splits_at(t, k) {
        let k = choose|k: int| splits_at(t, k);
        lemma_split_point(t, k, j);
    }
}

/// How the codes of ASCII characters tell white space, digits and `x`
/// apart.
proof fn lemma_ascii_code(c: char, code: u8)
    requires
        '\0' <= c <= '\u{7f}',
        c as u8 == code,
    ensures
        is_space(c) <==> (code == 32 || (9 <= code && code <= 13)),
        is_digit(c) <==> (48 <= code && code <= 57),
        is_digit(c) ==> digit_value(c) == code - 48,
        c == 'x' <==> code == 120,
{
}

/// Whether `code` is the code of a white-space character.
fn is_space_code(code: u8) -> (space: bool)
    ensures
        space == (code == 32 || (9 <= code && code <= 13)),
{
    code == 32 || (9 <= code && code <= 13)
}

/// The code of the character at `at` in an ASCII text.
fn code_at(text: &str, at: usize) -> (code: u8)
    requires
        text.is_ascii(),
        at < text@.len(),
    ensures
        is_space(text@[at as int]) <==> (code == 32 || (9 <= code && code <= 13)),
        is_digit(text@[at as int]) <==> (48 <= code && code <= 57),
        is_digit(text@[at as int]) ==> digit_value(text@[at as int]) == code - 48,
        text@[at as int] == 'x' <==> code == 120,
{
    let code = text.get_ascii(at);
    proof {
        lemma_ascii_code(text@[at as int], code);
    }
    code
}

/// The end of the run of digits that starts at `from`, looking no further
/// than `to`.
fn digits_end(text: &str, from: usize, to: usize) -> (end: usize)
    requires
        text.is_ascii(),
        from <= to <= text@.len(),
    ensures
        from <= end <= to,
        forall|i: int| from <= i < end ==> is_digit(#[trigger] text@[i]),
        end == to || !is_digit(text@[end as int]),
{
    let mut end = from;
    while end < to
        invariant
            text.is_ascii(),
            from <= end <= to <= text@.len(),
            forall|i: int| from <= i < end ==> is_digit(#[trigger] text@[i]),
        decreases to - end,
    {
        let code = code_at(text, end);
        if code < 48 || code > 57 {
            return end;
        }
        end += 1;
    }
    end
}

/// The number written by the digits from `from` up to `to`, or `None` if
/// it does not fit in 32 bits.
fn numeral(text: &str, from: usize, to: usize) -> (value: Option<u32>)
    requires
        text.is_ascii(),
        from <= to <= text@.len(),
        forall|i: int| from <= i < to ==> is_digit(#[trigger] text@[i]),
    ensures
        match value {
            Some(v) => v == numeral_value(text@.subrange(from as int, to as int)),
            None => numeral_value(text@.subrange(from as int, to as int)) > u32::MAX,
        },
{
    let ghost whole = text@.subrange(from as int, to as int);
    let mut value: u32 = 0;
    let mut at = from;
    while at < to
        invariant
            text.is_ascii(),
            from <= at <= to <= text@.len(),
            forall|i: int| from <= i < to ==> is_digit(#[trigger] text@[i]),
            whole == text@.subrange(from as int, to as int),
            value == numeral_value(text@.subrange(from as int, at as int)),
        decreases to - at,
    {
        let code = code_at(text, at);
        let digit: u32 = (code - 48) as u32;
        proof {
            let longer = text@.subrange(from as int, at + 1);
            assert(longer.drop_last() =~= text@.subrange(from as int, at as int));
            assert(longer.last() == text@[at as int]);
            assert(numeral_value(longer) == value * 10 + digit);
            lemma_numeral_value_prefix(whole, at + 1 - from);
            assert(whole.take(at + 1 - from) =~= longer);
        }
        if value > (u32::MAX - digit) / 10 {
            return None;
        }
        value = value * 10 + digit;
        at += 1;
    }
    Some(value)
}

/// Where the text without its surrounding white space starts and ends.
fn trim_bounds(text: &str) -> (bounds: (usize, usize))
    requires
        text.is_ascii(),
    ensures
        bounds.0 <= bounds.1 <= text@.len(),
        trimmed(text@) == text@.subrange(bounds.0 as int, bounds.1 as int),
{
    let len = text.as_bytes().len();
    proof {
        is_ascii_spec_bytes(text);
    }
    let mut start: usize = 0;
    while start < len && is_space_code(code_at(text, start))
        invariant
            text.is_ascii(),
            len == text@.len(),
            start <= len,
            forall|i: int| 0 <= i < start ==> is_space(#[trigger] text@[i]),
        decreases len - start,
    {
        start += 1;
    }
    let mut end: usize = len;
    while end > start && is_space_code(code_at(text, end - 1))
        invariant
            text.is_ascii(),
            len == text@.len(),
            start <= end <= len,
            forall|i: int| end <= i < len ==> is_space(#[trigger] text@[i]),
        decreases end - start,
    {
        end -= 1;
    }
    proof {
        lemma_trim_start(text@, start as int);
        let rest = text@.skip(start as int);
        assert forall|i: int| end - start <= i < rest.len() implies is_space(
            #[trigger] rest[i],
        ) by {
            assert(rest[i] == text@[i + start]);
        }
        if end > start {
            assert(rest[end - start - 1] == text@[end - 1]);
        }
        lemma_trim_end(rest, end - start);
        assert(rest.take(end - start) =~= text@.subrange(start as int, end as int));
    }
    (start, end)
}

/// Where the `x` between the two numerals stands, if the text from `start`
/// up to `end` is a numeral, an `x` and a numeral.
fn split_point(text: &str, start: usize, end: usize) -> (cross: Option<usize>)
    requires
        text.is_ascii(),
        start <= end <= text@.len(),
    ensures
        match cross {
            Some(k) => start < k < end && splits_at(
                text@.subrange(start as int, end as int),
                k - start,
            ),
            None => !exists|k: int| splits_at(text@.subrange(start as int, end as int), k),
        },
{
    let ghost t = text@.subrange(start as int, end as int);
    let cross = digits_end(text, start, end);
    proof {
        assert forall|i: int| 0 <= i < cross - start implies is_digit(#[trigger] t[i]) by {
            assert(t[i] == text@[i + start]);
        }
        if cross < end {
            assert(t[cross - start] == text@[cross as int]);
        }
    }
    if cross == start || cross == end || code_at(text, cross) != 120 {
        proof {
            lemma_no_split(t, cross - start);
        }
        return None;
    }
    let stop = digits_end(text, cross + 1, end);
    let ghost right = t.skip(cross - start + 1);
    proof {
        assert(right =~= text@.subrange(cross + 1, end as int));
    }
    if stop == cross + 1 || stop != end {
        proof {
            if stop < end {
                assert(right[stop - cross - 1] == text@[stop as int]);
            }
            assert(!is_numeral(right));
            lemma_no_split(t, cross - start);
        }
        return None;
    }
    proof {
        assert(t.take(cross - start) =~= text@.subrange(start as int, cross as int));
        assert forall|i: int| 0 <= i < right.len() implies is_digit(#[trigger] right[i]) by {
            assert(right[i] == text@[i + cross + 1]);
        }
    }
    Some(cross)
}

/// Reads the source picture's dimensions from the probing tool's output.
///
/// Succeeds exactly when the output, with surrounding white space removed,
/// is a numeral, an `x` and a numeral, and both numbers are positive and fit
/// in 32 bits. Every other output is a `ParseFailure` that holds the output
/// as given.
pub fn parse_dimensions(output: &str) -> (reading: Result<Dimensions, ProcessError>)
    ensures
        outcome_view(reading) == probe_reading(output@),
        reading matches Ok(shape) ==> shape.width > 0 && shape.height > 0,
{
    if !output.is_ascii() {
        proof {
            if written_dimensions(output@) is Some {
                lemma_written_dimensions_are_ascii(output@);
            }
        }
        return Err(ProcessError::ParseFailure(String::from_str(output)));
    }
    let (start, end) = trim_bounds(output);
    let ghost t = output@.subrange(start as int, end as int);
    match split_point(output, start, end) {
        None => Err(ProcessError::ParseFailure(String::from_str(output))),
        Some(cross) => {
            proof {
                lemma_split_unique(t, choose|k: int| splits_at(t, k), cross - start);
                assert(t.take(cross - start) =~= output@.subrange(start as int, cross as int));
                assert(t.skip(cross - start + 1) =~= output@.subrange(cross + 1, end as int));
                assert forall|i: int| start <= i < cross implies is_digit(
                    #[trigger] output@[i],
                ) by {
                    assert(t.take(cross - start)[i - start] == output@[i]);
                }
                assert forall|i: int| cross + 1 <= i < end implies is_digit(
                    #[trigger] output@[i],
                ) by {
                    assert(t.skip(cross - start + 1)[i - cross - 1] == output@[i]);
                }
            }
            let width = numeral(output, start, cross);
            let height = numeral(output, cross + 1, end);
            match (width, height) {
                (Some(width), Some(height)) => {
                    if width > 0 && height > 0 {
                        Ok(Dimensions { width, height })
                    } else {
                        Err(ProcessError::ParseFailure(String::from_str(output)))
                    }
                },
                _ => Err(ProcessError::ParseFailure(String::from_str(output))),
            }
        },
    }
}

/// Reads the probe's outcome: the source's dimensions if the tool succeeded
/// and printed them, and otherwise the failure that this amounts to.
pub fn read_probe(outcome: &ToolOutcome) -> (verdict: Result<Dimensions, ProcessError>)
    ensures
        outcome_view(verdict) == probe_verdict(outcome@),
        verdict matches Ok(shape) ==> shape.width > 0 && shape.height > 0,
{
    if outcome.success {
        parse_dimensions(outcome.output.as_str())
    } else {
        Err(ProcessError::ProbeFailure(outcome.detail.clone()))
    }
}

} // verus!
