use vstd::prelude::*;
use vstd::string::*;

use crate::error::ManagerError;
use crate::text::{
    all_hex, char_from, char_in, chars_of, find, find_in, is_hex, is_white, is_white_char,
    line_spans, lines,
    skip_colons, skip_colons_from, skip_white_from, span_text, spans_of_lines, trim, trim_span,
    trim_start,
};

verus! {

/// The ways a value is looked for on one line, tried in this order.
#[derive(Debug, Clone, Copy, PartialEq, Eq)]
pub enum Strategy {
    /// Whatever follows the label, less the colons that separate it and the white space
    /// around them and around the value.
    Labeled,
    /// On a line holding the label: the piece after the first `:` (or else `=`).
    Split,
    /// The first white-space-separated token of a line that is at least 64 hexadecimal
    /// digits. Any such token qualifies, whatever it stands for: a transaction hash
    /// printed elsewhere may be taken for the field.
    HexToken,
}

/// Smallest length of a bare hexadecimal identifier.
pub const MIN_HEX_LEN: usize = 64;

pub open spec fn labeled_value(line: Seq<char>, label: Seq<char>) -> Option<Seq<char>> {
    let i = find(line, label);
    if i < 0 {
        None
    } else {
        let v = trim(skip_colons(trim_start(line.subrange(i + label.len(), line.len() as int))));
        if v.len() > 0 {
            Some(v)
        } else {
            None
        }
    }
}

/// The piece of `line` between its first `sep` and the next one (or the end).
pub open spec fn segment_after(line: Seq<char>, sep: char) -> Option<Seq<char>> {
    let i = char_from(line, sep, 0);
    if i < 0 {
        None
    } else {
        let rest = line.subrange(i + 1, line.len() as int);
        let j = char_from(rest, sep, 0);
        Some(
            if j < 0 {
                rest
            } else {
                rest.subrange(0, j)
            },
        )
    }
}

pub open spec fn split_value(line: Seq<char>, label: Seq<char>) -> Option<Seq<char>> {
    if find(line, label) < 0 {
        None
    } else {
        match segment_after(line, ':') {
            Some(v) => Some(trim(v)),
            None => match segment_after(line, '=') {
                Some(v) => Some(trim(v)),
                None => None,
            },
        }
    }
}

/// `t` is long enough for an identifier and made of hexadecimal digits only.
pub open spec fn is_hex_token(t: Seq<char>) -> bool {
    t.len() >= MIN_HEX_LEN && (forall|k: int| 0 <= k < t.len() ==> is_hex(#[trigger] t[k]))
}

/// Scans `line` from `i`, where the token under way began at `st`: the first token
/// (a maximal run of characters that are not white space) that `is_hex_token`.
pub open spec fn hex_scan(line: Seq<char>, st: int, i: int) -> Option<Seq<char>>
    decreases line.len() - i,
{
    if i < 0 || i > line.len() || st < 0 || st > i {
        None
    } else if i == line.len() || is_white(line[i]) {
        if is_hex_token(line.subrange(st, i)) {
            Some(line.subrange(st, i))
        } else if i == line.len() {
            None
        } else {
            hex_scan(line, i + 1, i + 1)
        }
    } else {
        hex_scan(line, st, i + 1)
    }
}

/// The first white-space-separated token of `line` that `is_hex_token`.
pub open spec fn hex_value(line: Seq<char>) -> Option<Seq<char>> {
    hex_scan(line, 0, 0)
}

pub open spec fn line_value(line: Seq<char>, label: Seq<char>, st: Strategy) -> Option<Seq<char>> {
    match st {
        Strategy::Labeled => labeled_value(line, label),
        Strategy::Split => split_value(line, label),
        Strategy::HexToken => hex_value(line),
    }
}

/// The value that `st` finds on the first line where it finds one.
pub open spec fn first_match(ls: Seq<Seq<char>>, label: Seq<char>, st: Strategy) -> Option<
    Seq<char>,
>
    decreases ls.len(),
{
    if ls.len() == 0 {
        None
    } else {
        match line_value(ls[0], label, st) {
            Some(v) => Some(v),
            None => first_match(ls.drop_first(), label, st),
        }
    }
}

/// What the split and hex-token strategies find, in that order.
pub open spec fn field_value(text: Seq<char>, label: Seq<char>) -> Option<Seq<char>> {
    match first_match(lines(text), label, Strategy::Split) {
        Some(v) => Some(v),
        None => first_match(lines(text), label, Strategy::HexToken),
    }
}

/// What the labeled strategy finds, or else what `field_value` does.
pub open spec fn flexible_field_value(text: Seq<char>, label: Seq<char>) -> Option<Seq<char>> {
    match first_match(lines(text), label, Strategy::Labeled) {
        Some(v) => Some(v),
        None => field_value(text, label),
    }
}

/// The result of an extraction: the value found, or `FieldNotFound` naming the label.
pub open spec fn extraction_result(
    found: Option<Seq<char>>,
    label: Seq<char>,
    r: Result<String, ManagerError>,
) -> bool {
    match found {
        Some(v) => r is Ok && r->Ok_0@ == v,
        None => r matches Err(ManagerError::FieldNotFound { field }) && field@ == label,
    }
}

/// Where `cs[a..b]` holds `v`, within `cs`.
pub open spec fn span_holds(cs: Seq<char>, r: Option<(usize, usize)>, v: Option<Seq<char>>) -> bool {
    match v {
        Some(t) => match r {
            Some(p) => p.0 <= p.1 <= cs.len() && span_text(cs, p) == t,
            None => false,
        },
        None => r is None,
    }
}

fn segment_in(cs: &Vec<char>, a: usize, b: usize, sep: char) -> (r: Option<(usize, usize)>)
    requires
        a <= b <= cs@.len(),
    ensures
        span_holds(cs@, r, segment_after(cs@.subrange(a as int, b as int), sep)),
{
    let ghost line = cs@.subrange(a as int, b as int);
    match char_in(cs, a, b, sep) {
        None => None,
        Some(i) => {
            let from = a + i + 1;
            proof {
                assert(line.subrange(i + 1, line.len() as int) =~= cs@.subrange(
                    from as int,
                    b as int,
                ));
            }
            match char_in(cs, from, b, sep) {
                None => Some((from, b)),
                Some(j) => {
                    proof {
                        assert(cs@.subrange(from as int, b as int).subrange(0, j as int)
                            =~= cs@.subrange(from as int, from + j));
                    }
                    Some((from, from + j))
                },
            }
        },
    }
}

/// Where the first hexadecimal token of the line `cs[a..b]` stands.
fn hex_token_in(cs: &Vec<char>, a: usize, b: usize) -> (r: Option<(usize, usize)>)
    requires
        a <= b <= cs@.len(),
    ensures
        span_holds(cs@, r, hex_value(cs@.subrange(a as int, b as int))),
{
    let ghost line = cs@.subrange(a as int, b as int);
    let mut st = a;
    let mut p = a;
    while p < b
        invariant
            a <= st <= p <= b <= cs@.len(),
            line == cs@.subrange(a as int, b as int),
            hex_value(line) == hex_scan(line, st - a, p - a),
        decreases b - p,
    {
        proof {
            assert(line[p - a] == cs@[p as int]);
        }
        if is_white_char(cs[p]) {
            proof {
                assert(line.subrange(st - a, p - a) =~= cs@.subrange(st as int, p as int));
            }
            if p - st >= MIN_HEX_LEN && all_hex(cs, st, p) {
                return Some((st, p));
            }
            st = p + 1;
        }
        p = p + 1;
    }
    proof {
        assert(line.subrange(st - a, p - a) =~= cs@.subrange(st as int, p as int));
    }
    if p - st >= MIN_HEX_LEN && all_hex(cs, st, p) {
        Some((st, p))
    } else {
        None
    }
}

/// Where strategy `st` finds a value on the line `cs[sp.0..sp.1]`.
fn value_in_line(cs: &Vec<char>, sp: (usize, usize), label: &Vec<char>, st: Strategy) -> (r: Option<
    (usize, usize),
>)
    requires
        sp.0 <= sp.1 <= cs@.len(),
    ensures
        span_holds(cs@, r, line_value(span_text(cs@, sp), label@, st)),
{
    let (a, b) = sp;
    let ghost line = cs@.subrange(a as int, b as int);
    match st {
        Strategy::Labeled => {
            match find_in(cs, a, b, label) {
                None => None,
                Some(i) => {
                    let from = a + i + label.len();
                    proof {
                        assert(line.subrange(i + label@.len(), line.len() as int)
                            =~= cs@.subrange(from as int, b as int));
                    }
                    let w = skip_white_from(cs, from, b);
                    let k = skip_colons_from(cs, w, b);
                    let (x, y) = trim_span(cs, k, b);
                    if x < y {
                        Some((x, y))
                    } else {
                        None
                    }
                },
            }
        },
        Strategy::Split => {
            match find_in(cs, a, b, label) {
                None => None,
                Some(_) => {
                    match segment_in(cs, a, b, ':') {
                        Some((x, y)) => Some(trim_span(cs, x, y)),
                        None => match segment_in(cs, a, b, '=') {
                            Some((x, y)) => Some(trim_span(cs, x, y)),
                            None => None,
                        },
                    }
                },
            }
        },
        Strategy::HexToken => hex_token_in(cs, a, b),
    }
}

/// Where strategy `st` finds a value on the first line on which it finds one.
fn first_match_in(
    cs: &Vec<char>,
    spans: &Vec<(usize, usize)>,
    label: &Vec<char>,
    st: Strategy,
) -> (r: Option<(usize, usize)>)
    requires
        spans_of_lines(cs@, spans@),
    ensures
        span_holds(cs@, r, first_match(lines(cs@), label@, st)),
{
    let ghost ls = lines(cs@);
    let n = spans.len();
    let mut i: usize = 0;
    proof {
        assert(ls.subrange(0, n as int) =~= ls);
    }
    while i < n
        invariant
            n == spans@.len() == ls.len(),
            ls == lines(cs@),
            i <= n,
            spans_of_lines(cs@, spans@),
            first_match(ls, label@, st) == first_match(ls.subrange(i as int, n as int), label@, st),
        decreases n - i,
    {
        let sp = spans[i];
        proof {
            assert(span_text(cs@, spans@[i as int]) == ls[i as int]);
            assert(ls.subrange(i as int, n as int)[0] == ls[i as int]);
            assert(ls.subrange(i as int, n as int).drop_first() =~= ls.subrange(i + 1, n as int));
        }
        let found = value_in_line(cs, sp, label, st);
        if found.is_some() {
            return found;
        }
        i = i + 1;
    }
    None
}

/// The text of `output` within `sp`.
fn span_string(output: &str, cs: &Vec<char>, sp: (usize, usize)) -> (r: String)
    requires
        cs@ == output@,
        sp.0 <= sp.1 <= cs@.len(),
    ensures
        r@ == span_text(cs@, sp),
{
    output.substring_char(sp.0, sp.1).to_owned()
}

/// Finds the value of `field` in a command's output: on the first line holding the
/// label, the piece after its first colon (or equals sign); failing that, the first
/// line that is a bare hexadecimal identifier.
pub fn extract_field(output: &str, field: &str) -> (r: Result<String, ManagerError>)
    ensures
        extraction_result(field_value(output@, field@), field@, r),
{
    let cs = chars_of(output);
    let label = chars_of(field);
    let spans = line_spans(&cs);
    extract_with(output, &cs, &spans, field, &label)
}

fn extract_with(
    output: &str,
    cs: &Vec<char>,
    spans: &Vec<(usize, usize)>,
    field: &str,
    label: &Vec<char>,
) -> (r: Result<String, ManagerError>)
    requires
        cs@ == output@,
        label@ == field@,
        spans_of_lines(cs@, spans@),
    ensures
        extraction_result(field_value(output@, field@), field@, r),
{
    match first_match_in(cs, spans, label, Strategy::Split) {
        Some(sp) => Ok(span_string(output, cs, sp)),
        None => match first_match_in(cs, spans, label, Strategy::HexToken) {
            Some(sp) => Ok(span_string(output, cs, sp)),
            None => Err(ManagerError::FieldNotFound { field: field.to_owned() }),
        },
    }
}

/// Finds the value of `field` in a command's output: first whatever follows the label
/// on the first line where that is more than colons and white space, then as
/// `extract_field` does.
pub fn extract_field_flexible(output: &str, field: &str) -> (r: Result<String, ManagerError>)
    ensures
        extraction_result(flexible_field_value(output@, field@), field@, r),
{
    let cs = chars_of(output);
    let label = chars_of(field);
    let spans = line_spans(&cs);
    match first_match_in(&cs, &spans, &label, Strategy::Labeled) {
        Some(sp) => Ok(span_string(output, &cs, sp)),
        None => extract_with(output, &cs, &spans, field, &label),
    }
}

} // verus!
