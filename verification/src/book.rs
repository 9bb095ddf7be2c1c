//! Helpers of the book archiver: book numbers in names, number predicates,
//! and the escaping of names for the terminal and for XML.

use vstd::prelude::*;

use crate::text;
use crate::text::whitespace;

verus! {

/// Whether a character is a number in the sense of Unicode (the general
/// categories `Nd`, `Nl` and `No`), as `char::is_numeric` reports it.
pub uninterp spec fn numeric(c: char) -> bool;

/// `char::is_numeric` is a function of the character alone.
pub assume_specification[ char::is_numeric ](c: char) -> (b: bool)
    ensures
        b == numeric(c),
;

/// Which book numbers a predicate applies to.
#[derive(Clone, Copy, Debug, PartialEq, Eq, Structural)]
pub enum From {
    /// All of them.
    Full,
    Single(u32),
    /// From the first up to and including the second.
    RangeInclusive(u32, u32),
    /// From the first up to, not including, the second.
    Range(u32, u32),
    /// From the number on.
    RangeOpen(u32),
    /// Below the number.
    RangeTo(u32),
    /// Up to and including the number.
    RangeToInclusive(u32),
}

impl From {
    pub open spec fn spec_matches(self, number: u32) -> bool {
        match self {
            From::Full => true,
            From::Single(n) => n == number,
            From::RangeInclusive(start, end) => start <= number <= end,
            From::Range(start, end) => start <= number < end,
            From::RangeOpen(start) => start <= number,
            From::RangeTo(end) => number < end,
            From::RangeToInclusive(end) => number <= end,
        }
    }

    /// Whether the predicate applies to the book number.
    pub fn matches(&self, number: u32) -> (r: bool)
        ensures
            r == self.spec_matches(number),
    {
        match *self {
            From::Full => true,
            From::Single(n) => n == number,
            From::RangeInclusive(start, end) => start <= number && number <= end,
            From::Range(start, end) => start <= number && number < end,
            From::RangeOpen(start) => start <= number,
            From::RangeTo(end) => number < end,
            From::RangeToInclusive(end) => number <= end,
        }
    }
}

/// An ASCII letter in lower case, any other character as it is.
pub open spec fn lower(c: char) -> int {
    if 'A' <= c && c <= 'Z' {
        c as int + 32
    } else {
        c as int
    }
}

/// Whether two texts are the same but for the case of ASCII letters.
pub open spec fn same_ignoring_case(a: Seq<char>, b: Seq<char>) -> bool {
    a.len() == b.len() && forall|i: int| 0 <= i < a.len() ==> lower(#[trigger] a[i]) == lower(b[i])
}

fn lower_code(c: char) -> (r: u32)
    ensures
        r == lower(c),
{
    let code = c as u32;
    if c >= 'A' && c <= 'Z' {
        code + 32
    } else {
        code
    }
}

fn eq_ignore_case(a: &Vec<char>, b: &str) -> (r: bool)
    ensures
        r == same_ignoring_case(a@, b@),
{
    let w = text::chars(b);
    if a.len() != w.len() {
        return false;
    }
    let mut i: usize = 0;
    while i < a.len()
        invariant
            i <= a.len(),
            a.len() == w.len(),
            w@ == b@,
            forall|j: int| 0 <= j < i ==> lower(#[trigger] a@[j]) == lower(w@[j]),
        decreases a.len() - i,
    {
        if lower_code(a[i]) != lower_code(w[i]) {
            assert(lower(a@[i as int]) != lower(b@[i as int]));
            return false;
        }
        i += 1;
    }
    true
}

/// The common form of an image extension: `jpg` for `jpeg` and `tif` for
/// `tiff`, in whatever case they are written; any other stays.
pub open spec fn spec_translate(input: Seq<char>) -> Seq<char> {
    if same_ignoring_case(input, "jpeg"@) {
        "jpg"@
    } else if same_ignoring_case(input, "tiff"@) {
        "tif"@
    } else {
        input
    }
}

/// Translates certain extensions to their more common forms.
pub fn translate<'a>(input: &'a str) -> (r: &'a str)
    ensures
        r@ == spec_translate(input@),
{
    let v = text::chars(input);
    if eq_ignore_case(&v, "jpeg") {
        return "jpg";
    }
    if eq_ignore_case(&v, "tiff") {
        return "tif";
    }
    input
}

/// The number that a run of numeric characters denotes, if it is a `u32`
/// written in decimal.
pub open spec fn run_value(run: Seq<char>) -> Seq<u32> {
    if run.len() > 0 {
        match text::u32_value(run) {
            Some(v) => seq![v],
            None => seq![],
        }
    } else {
        seq![]
    }
}

/// Reading numbers: `run` is the run of numeric characters read last.
pub open spec fn numbers_from(s: Seq<char>, run: Seq<char>) -> Seq<u32>
    decreases s.len(),
{
    if s.len() == 0 {
        run_value(run)
    } else if numeric(s[0]) {
        numbers_from(s.skip(1), run.push(s[0]))
    } else {
        run_value(run) + numbers_from(s.skip(1), Seq::empty())
    }
}

/// The numbers in a text: each longest run of numeric characters that is a
/// `u32` in decimal, in the order of the runs.
pub open spec fn spec_numbers(s: Seq<char>) -> Seq<u32> {
    numbers_from(s, Seq::empty())
}

fn flush(run: &Vec<char>, out: &mut Vec<u32>)
    ensures
        final(out)@ == old(out)@ + run_value(run@),
{
    if run.len() > 0 {
        match text::parse_int(run, false, 0, 4294967295) {
            Some(v) => {
                out.push(v as u32);
            },
            None => {},
        }
    }
}

/// Extracts all numbers from a text.
pub fn numbers(input: &str) -> (r: Vec<u32>)
    ensures
        r@ == spec_numbers(input@),
{
    let v = text::chars(input);
    let mut out: Vec<u32> = Vec::new();
    let mut run: Vec<char> = Vec::new();
    let mut i: usize = 0;
    assert(v@.skip(0) == v@);
    while i < v.len()
        invariant
            i <= v.len(),
            spec_numbers(v@) == out@ + numbers_from(v@.skip(i as int), run@),
        decreases v.len() - i,
    {
        assert(v@.skip(i as int).skip(1) == v@.skip(i + 1));
        if v[i].is_numeric() {
            run.push(v[i]);
        } else {
            flush(&run, &mut out);
            run = Vec::new();
        }
        i += 1;
    }
    flush(&run, &mut out);
    out
}

/// Whether a character makes quoting necessary on the terminal.
pub open spec fn needs_quotes(c: char) -> bool {
    c == '"' || c == '\\' || whitespace(c)
}

/// `s` with a backslash before each `"` and each backslash.
pub open spec fn backslashed(s: Seq<char>) -> Seq<char>
    decreases s.len(),
{
    if s.len() == 0 {
        s
    } else if s.last() == '"' || s.last() == '\\' {
        backslashed(s.drop_last()).push('\\').push(s.last())
    } else {
        backslashed(s.drop_last()).push(s.last())
    }
}

/// How a name is shown on the terminal: as it is where it holds no
/// whitespace, `"` or backslash; else between double quotes, with a
/// backslash before each `"` and each backslash.
pub open spec fn spec_escape(s: Seq<char>) -> Seq<char> {
    if exists|i: int| 0 <= i < s.len() && needs_quotes(#[trigger] s[i]) {
        seq!['"'] + backslashed(s) + seq!['"']
    } else {
        s
    }
}

/// Terminal escape.
pub fn escape(input: &str) -> (r: String)
    ensures
        r@ == spec_escape(input@),
{
    let v = text::chars(input);
    let mut quote = false;
    let mut k: usize = 0;
    while k < v.len()
        invariant
            k <= v.len(),
            quote == exists|i: int| 0 <= i < k && needs_quotes(#[trigger] v@[i]),
        decreases v.len() - k,
    {
        if v[k] == '"' || v[k] == '\\' || v[k].is_whitespace() {
            assert(needs_quotes(v@[k as int]));
            quote = true;
        }
        k += 1;
    }
    if !quote {
        return text::string(&v);
    }
    let mut out: Vec<char> = Vec::new();
    out.push('"');
    let mut i: usize = 0;
    while i < v.len()
        invariant
            i <= v.len(),
            out@ == seq!['"'] + backslashed(v@.take(i as int)),
        decreases v.len() - i,
    {
        assert(v@.take(i + 1).drop_last() == v@.take(i as int));
        if v[i] == '"' || v[i] == '\\' {
            out.push('\\');
        }
        out.push(v[i]);
        i += 1;
    }
    assert(v@.take(i as int) == v@);
    out.push('"');
    text::string(&out)
}

/// What stands for a character in XML text.
pub open spec fn entity(c: char) -> Seq<char> {
    if c == '&' {
        "&amp;"@
    } else if c == '<' {
        "&lt;"@
    } else if c == '>' {
        "&gt;"@
    } else if c == '"' {
        "&quot;"@
    } else if c == '\'' {
        "&apos;"@
    } else {
        seq![c]
    }
}

/// `s` with `&`, `<`, `>`, `"` and `'` replaced by their entities.
pub open spec fn spec_xml_escape(s: Seq<char>) -> Seq<char>
    decreases s.len(),
{
    if s.len() == 0 {
        s
    } else {
        spec_xml_escape(s.drop_last()) + entity(s.last())
    }
}

/// Escapes special XML characters.
pub fn xml_escape(input: &str) -> (r: String)
    ensures
        r@ == spec_xml_escape(input@),
{
    let v = text::chars(input);
    let mut out: Vec<char> = Vec::new();
    let mut i: usize = 0;
    while i < v.len()
        invariant
            i <= v.len(),
            out@ == spec_xml_escape(v@.take(i as int)),
        decreases v.len() - i,
    {
        assert(v@.take(i + 1).drop_last() == v@.take(i as int));
        let c = v[i];
        if c == '&' {
            text::extend_str(&mut out, "&amp;");
        } else if c == '<' {
            text::extend_str(&mut out, "&lt;");
        } else if c == '>' {
            text::extend_str(&mut out, "&gt;");
        } else if c == '"' {
            text::extend_str(&mut out, "&quot;");
        } else if c == '\'' {
            text::extend_str(&mut out, "&apos;");
        } else {
            out.push(c);
        }
        i += 1;
    }
    assert(v@.take(i as int) == v@);
    text::string(&out)
}

/// The word for a count: the singular for one, the plural for any other.
pub fn pluralize<'a>(count: usize, singular: &'a str, plural: &'a str) -> (r: &'a str)
    ensures
        r@ == if count == 1 {
            singular@
        } else {
            plural@
        },
{
    if count == 1 {
        singular
    } else {
        plural
    }
}

} // verus!
