use vstd::prelude::*;
use vstd::string::*;

verus! {

/// Unicode White_Space, the set that `str::trim` removes.
pub open spec fn is_white(c: char) -> bool {
    let u = c as u32;
    (9 <= u <= 13) || u == 32 || u == 0x85 || u == 0xa0 || u == 0x1680 || (0x2000 <= u <= 0x200a)
        || u == 0x2028 || u == 0x2029 || u == 0x202f || u == 0x205f || u == 0x3000
}

/// ASCII hexadecimal digit: `0-9`, `a-f`, `A-F`.
pub open spec fn is_hex(c: char) -> bool {
    ('0' <= c && c <= '9') || ('a' <= c && c <= 'f') || ('A' <= c && c <= 'F')
}

pub open spec fn trim_start(s: Seq<char>) -> Seq<char>
    decreases s.len(),
{
    if s.len() > 0 && is_white(s[0]) {
        trim_start(s.drop_first())
    } else {
        s
    }
}

pub open spec fn trim_end(s: Seq<char>) -> Seq<char>
    decreases s.len(),
{
    if s.len() > 0 && is_white(s.last()) {
        trim_end(s.drop_last())
    } else {
        s
    }
}

/// White space removed from both ends.
pub open spec fn trim(s: Seq<char>) -> Seq<char> {
    trim_end(trim_start(s))
}

/// Leading colons removed.
pub open spec fn skip_colons(s: Seq<char>) -> Seq<char>
    decreases s.len(),
{
    if s.len() > 0 && s[0] == ':' {
        skip_colons(s.drop_first())
    } else {
        s
    }
}

/// `pat` stands in `s` at position `i`.
pub open spec fn occurs_at(s: Seq<char>, pat: Seq<char>, i: int) -> bool {
    0 <= i && i + pat.len() <= s.len() && s.subrange(i, i + pat.len()) == pat
}

/// The first position at or after `i` where `pat` stands in `s`, or -1.
pub open spec fn find_from(s: Seq<char>, pat: Seq<char>, i: int) -> int
    decreases s.len() + 1 - i,
{
    if i < 0 || i + pat.len() > s.len() {
        -1
    } else if occurs_at(s, pat, i) {
        i
    } else {
        find_from(s, pat, i + 1)
    }
}

/// The first position of `pat` in `s`, or -1.
pub open spec fn find(s: Seq<char>, pat: Seq<char>) -> int {
    find_from(s, pat, 0)
}

/// The first position at or after `i` of the character `c` in `s`, or -1.
pub open spec fn char_from(s: Seq<char>, c: char, i: int) -> int
    decreases s.len() - i,
{
    if i < 0 || i >= s.len() {
        -1
    } else if s[i] == c {
        i
    } else {
        char_from(s, c, i + 1)
    }
}

/// The text split at each `'\n'`; a text with `k` newlines has `k + 1` lines.
pub open spec fn lines(s: Seq<char>) -> Seq<Seq<char>>
    decreases s.len(),
{
    if s.len() == 0 {
        seq![Seq::empty()]
    } else {
        let prev = lines(s.drop_last());
        if s.last() == '\n' {
            prev.push(Seq::empty())
        } else {
            prev.update(prev.len() - 1, prev.last().push(s.last()))
        }
    }
}

/// The characters of `s` from `sp.0` up to `sp.1`.
pub open spec fn span_text(s: Seq<char>, sp: (usize, usize)) -> Seq<char> {
    s.subrange(sp.0 as int, sp.1 as int)
}

/// `spans` marks out, one for one, the lines of `s`.
pub open spec fn spans_of_lines(s: Seq<char>, spans: Seq<(usize, usize)>) -> bool {
    &&& spans.len() == lines(s).len()
    &&& forall|k: int|
        #![trigger spans[k]]
        0 <= k < spans.len() ==> spans[k].0 <= spans[k].1 <= s.len() && span_text(
            s,
            spans[k],
        ) == lines(s)[k]
}

/// The characters of the text, in order.
pub fn chars_of(s: &str) -> (r: Vec<char>)
    ensures
        r@ == s@,
{
    let n = s.unicode_len();
    let mut v: Vec<char> = Vec::new();
    let mut i: usize = 0;
    while i < n
        invariant
            n == s@.len(),
            i <= n,
            v@ == s@.take(i as int),
        decreases n - i,
    {
        v.push(s.get_char(i));
        proof {
            assert(v@ =~= s@.take(i + 1));
        }
        i = i + 1;
    }
    proof {
        assert(s@.take(n as int) =~= s@);
    }
    v
}

pub fn is_white_char(c: char) -> (r: bool)
    ensures
        r == is_white(c),
{
    let u = c as u32;
    (9 <= u && u <= 13) || u == 32 || u == 0x85 || u == 0xa0 || u == 0x1680 || (0x2000 <= u && u
        <= 0x200a) || u == 0x2028 || u == 0x2029 || u == 0x202f || u == 0x205f || u == 0x3000
}

pub fn is_hex_char(c: char) -> (r: bool)
    ensures
        r == is_hex(c),
{
    ('0' <= c && c <= '9') || ('a' <= c && c <= 'f') || ('A' <= c && c <= 'F')
}

/// Start and end of each line of `cs`.
pub fn line_spans(cs: &Vec<char>) -> (r: Vec<(usize, usize)>)
    ensures
        spans_of_lines(cs@, r@),
{
    let n = cs.len();
    let mut spans: Vec<(usize, usize)> = Vec::new();
    let mut start: usize = 0;
    let mut i: usize = 0;
    proof {
        assert(cs@.take(0) =~= Seq::<char>::empty());
    }
    while i < n
        invariant
            n == cs@.len(),
            start <= i <= n,
            lines(cs@.take(i as int)).len() == spans@.len() + 1,
            cs@.subrange(start as int, i as int) == lines(cs@.take(i as int)).last(),
            forall|k: int|
                #![trigger spans@[k]]
                0 <= k < spans@.len() ==> spans@[k].0 <= spans@[k].1 <= i
                    && span_text(cs@, spans@[k]) == lines(cs@.take(i as int))[k],
        decreases n - i,
    {
        let ghost prev = lines(cs@.take(i as int));
        let ghost old_spans = spans@;
        let ghost old_start = start;
        proof {
            assert(cs@.take(i + 1).drop_last() =~= cs@.take(i as int));
            assert(cs@.take(i + 1).last() == cs@[i as int]);
        }
        if cs[i] == '\n' {
            spans.push((start, i));
            start = i + 1;
        }
        i = i + 1;
        proof {
            let cur = lines(cs@.take(i as int));
            assert(cs@.take(i as int).drop_last() =~= cs@.take(i - 1));
            assert(cs@.take(i as int).last() == cs@[i - 1]);
            if cs@[i - 1] == '\n' {
                assert(cur == prev.push(Seq::empty()));
                assert(cs@.subrange(start as int, i as int) =~= Seq::<char>::empty());
                assert forall|k: int| #![trigger spans@[k]] 0 <= k < spans@.len() implies spans@[k].0
                    <= spans@[k].1 <= i && span_text(cs@, spans@[k]) == cur[k] by {
                    if k == old_spans.len() {
                        assert(spans@[k] == (old_start, (i - 1) as usize));
                    } else {
                        assert(spans@[k] == old_spans[k]);
                    }
                }
            } else {
                assert(cur == prev.update(prev.len() - 1, prev.last().push(cs@[i - 1])));
                assert(cs@.subrange(start as int, i as int) =~= cs@.subrange(
                    start as int,
                    i - 1,
                ).push(cs@[i - 1]));
                assert forall|k: int| #![trigger spans@[k]] 0 <= k < spans@.len() implies spans@[k].0
                    <= spans@[k].1 <= i && span_text(cs@, spans@[k]) == cur[k] by {
                    assert(spans@[k] == old_spans[k]);
                    assert(cur[k] == prev[k]);
                }
            }
        }
    }
    spans.push((start, n));
    proof {
        assert(cs@.take(n as int) =~= cs@);
    }
    spans
}

/// Span of `cs[a..b]` with white space removed at both ends.
pub fn trim_span(cs: &Vec<char>, a: usize, b: usize) -> (r: (usize, usize))
    requires
        a <= b <= cs@.len(),
    ensures
        a <= r.0 <= r.1 <= b,
        cs@.subrange(r.0 as int, r.1 as int) == trim(cs@.subrange(a as int, b as int)),
{
    let mut i = a;
    while i < b && is_white_char(cs[i])
        invariant
            a <= i <= b <= cs@.len(),
            trim_start(cs@.subrange(a as int, b as int)) == trim_start(
                cs@.subrange(i as int, b as int),
            ),
        decreases b - i,
    {
        proof {
            assert(cs@.subrange(i as int, b as int).drop_first() =~= cs@.subrange(
                i + 1,
                b as int,
            ));
        }
        i = i + 1;
    }
    let mut j = b;
    while j > i && is_white_char(cs[j - 1])
        invariant
            a <= i <= j <= b <= cs@.len(),
            trim_start(cs@.subrange(a as int, b as int)) == cs@.subrange(i as int, b as int),
            trim_end(cs@.subrange(i as int, b as int)) == trim_end(
                cs@.subrange(i as int, j as int),
            ),
        decreases j,
    {
        proof {
            assert(cs@.subrange(i as int, j as int).drop_last() =~= cs@.subrange(
                i as int,
                j - 1,
            ));
        }
        j = j - 1;
    }
    (i, j)
}

/// First position at or after `i` within `cs[.. b]` of a character that is not white space.
pub fn skip_white_from(cs: &Vec<char>, i: usize, b: usize) -> (r: usize)
    requires
        i <= b <= cs@.len(),
    ensures
        i <= r <= b,
        cs@.subrange(r as int, b as int) == trim_start(cs@.subrange(i as int, b as int)),
{
    let mut k = i;
    while k < b && is_white_char(cs[k])
        invariant
            i <= k <= b <= cs@.len(),
            trim_start(cs@.subrange(i as int, b as int)) == trim_start(
                cs@.subrange(k as int, b as int),
            ),
        decreases b - k,
    {
        proof {
            assert(cs@.subrange(k as int, b as int).drop_first() =~= cs@.subrange(
                k + 1,
                b as int,
            ));
        }
        k = k + 1;
    }
    k
}

/// First position at or after `i` within `cs[.. b]` of the character that is not a colon.
pub fn skip_colons_from(cs: &Vec<char>, i: usize, b: usize) -> (r: usize)
    requires
        i <= b <= cs@.len(),
    ensures
        i <= r <= b,
        cs@.subrange(r as int, b as int) == skip_colons(cs@.subrange(i as int, b as int)),
{
    let mut k = i;
    while k < b && cs[k] == ':'
        invariant
            i <= k <= b <= cs@.len(),
            skip_colons(cs@.subrange(i as int, b as int)) == skip_colons(
                cs@.subrange(k as int, b as int),
            ),
        decreases b - k,
    {
        proof {
            assert(cs@.subrange(k as int, b as int).drop_first() =~= cs@.subrange(
                k + 1,
                b as int,
            ));
        }
        k = k + 1;
    }
    k
}

/// Whether `pat` stands in `cs` at position `p`, where `cs[a..b]` is the text searched.
fn matches_at(cs: &Vec<char>, a: usize, b: usize, pat: &Vec<char>, p: usize) -> (r: bool)
    requires
        a <= p <= b <= cs@.len(),
    ensures
        r == occurs_at(cs@.subrange(a as int, b as int), pat@, p - a),
{
    let ghost s = cs@.subrange(a as int, b as int);
    let m = pat.len();
    if m > b - p {
        return false;
    }
    let mut k: usize = 0;
    while k < m
        invariant
            a <= p <= b <= cs@.len(),
            m == pat@.len(),
            p + m <= b,
            k <= m,
            s == cs@.subrange(a as int, b as int),
            forall|t: int| 0 <= t < k ==> cs@[p + t] == pat@[t],
        decreases m - k,
    {
        if cs[p + k] != pat[k] {
            proof {
                assert(s.subrange(p - a, p - a + m)[k as int] == cs@[p + k]);
            }
            return false;
        }
        k = k + 1;
    }
    proof {
        assert(s.subrange(p - a, p - a + m) =~= pat@);
    }
    true
}

/// Position of the first occurrence of `pat` in `cs[a..b]`, counted from `a`.
pub fn find_in(cs: &Vec<char>, a: usize, b: usize, pat: &Vec<char>) -> (r: Option<usize>)
    requires
        a <= b <= cs@.len(),
    ensures
        match r {
            Some(i) => i as int == find(cs@.subrange(a as int, b as int), pat@) && a + i + pat@.len()
                <= b,
            None => find(cs@.subrange(a as int, b as int), pat@) == -1,
        },
{
    let ghost s = cs@.subrange(a as int, b as int);
    let m = pat.len();
    if m > b - a {
        return None;
    }
    if m == 0 {
        proof {
            assert(s.subrange(0, 0) =~= pat@);
        }
        return Some(0);
    }
    let mut p = a;
    while p <= b - m
        invariant
            a <= p <= b <= cs@.len(),
            0 < m == pat@.len(),
            m <= b - a,
            s == cs@.subrange(a as int, b as int),
            find(s, pat@) == find_from(s, pat@, p - a),
        decreases b - p,
    {
        if matches_at(cs, a, b, pat, p) {
            return Some(p - a);
        }
        p = p + 1;
    }
    None
}

/// Position of the first `c` in `cs[a..b]`, counted from `a`.
pub fn char_in(cs: &Vec<char>, a: usize, b: usize, c: char) -> (r: Option<usize>)
    requires
        a <= b <= cs@.len(),
    ensures
        match r {
            Some(i) => i as int == char_from(cs@.subrange(a as int, b as int), c, 0) && a + i < b,
            None => char_from(cs@.subrange(a as int, b as int), c, 0) == -1,
        },
{
    let ghost s = cs@.subrange(a as int, b as int);
    let mut p = a;
    while p < b
        invariant
            a <= p <= b <= cs@.len(),
            s == cs@.subrange(a as int, b as int),
            char_from(s, c, 0) == char_from(s, c, p - a),
        decreases b - p,
    {
        if cs[p] == c {
            return Some(p - a);
        }
        p = p + 1;
    }
    None
}

/// Whether every character of `cs[a..b]` is a hexadecimal digit.
pub fn all_hex(cs: &Vec<char>, a: usize, b: usize) -> (r: bool)
    requires
        a <= b <= cs@.len(),
    ensures
        r == (forall|k: int|
            0 <= k < b - a ==> is_hex(#[trigger] cs@.subrange(a as int, b as int)[k])),
{
    let mut p = a;
    while p < b
        invariant
            a <= p <= b <= cs@.len(),
            forall|k: int| a <= k < p ==> is_hex(#[trigger] cs@[k]),
        decreases b - p,
    {
        if !is_hex_char(cs[p]) {
            proof {
                assert(cs@.subrange(a as int, b as int)[p - a] == cs@[p as int]);
            }
            return false;
        }
        p = p + 1;
    }
    proof {
        assert forall|k: int| 0 <= k < b - a implies is_hex(
            #[trigger] cs@.subrange(a as int, b as int)[k],
        ) by {
            assert(cs@.subrange(a as int, b as int)[k] == cs@[a + k]);
        }
    }
    true
}

} // verus!
