use vstd::prelude::*;

use crate::error::ManagerError;
use crate::extract::{
    field_value, first_match, flexible_field_value, hex_scan, hex_value, line_value, Strategy,
};
use crate::manager::{LineraManager, ServiceInstance};
use crate::models::ServiceStatus;
use crate::proxy::{base_url_for, chain_target};
use crate::state::AppState;
use crate::text::{find, find_from, is_white, lines, occurs_at};

verus! {

/// Once a service has been recorded on port `p`, every further start is refused with
/// `AlreadyRunning`, whatever port it asks for, and the recorded port stays `p`.
pub proof fn lemma_second_start_refused<H>(
    after: LineraManager<H>,
    handle: H,
    pid: Option<u32>,
    p: u16,
)
    requires
        after.service() == Some(ServiceInstance { handle, pid, port: p }),
    ensures
        after.start_refusal() == Some(ManagerError::AlreadyRunning),
        after.status_spec().port == Some(p),
{
}

/// Right after a service is recorded on port `p` the status reads running, with that
/// process id and port `p`.
pub proof fn lemma_status_after_start<H>(m: LineraManager<H>, handle: H, pid: Option<u32>, p: u16)
    requires
        m.service() == Some(ServiceInstance { handle, pid, port: p }),
    ensures
        m.status_spec() == (ServiceStatus { running: true, pid, port: Some(p) }),
{
}

/// Right after a stop the status reads not running, with no process id and no port.
pub proof fn lemma_status_after_stop<H>(m: LineraManager<H>)
    requires
        !m.running(),
    ensures
        m.status_spec() == (ServiceStatus { running: false, pid: None, port: None }),
{
}

proof fn lemma_first_match_none(ls: Seq<Seq<char>>, label: Seq<char>, st: Strategy)
    requires
        forall|k: int| 0 <= k < ls.len() ==> line_value(#[trigger] ls[k], label, st) is None,
    ensures
        first_match(ls, label, st) is None,
    decreases ls.len(),
{
    if ls.len() > 0 {
        assert(line_value(ls[0], label, st) is None);
        assert forall|k: int| 0 <= k < ls.drop_first().len() implies line_value(
            #[trigger] ls.drop_first()[k],
            label,
            st,
        ) is None by {
            assert(ls.drop_first()[k] == ls[k + 1]);
        }
        lemma_first_match_none(ls.drop_first(), label, st);
    }
}

/// A text with no line holding the label and no token of 64 or more hexadecimal digits
/// yields nothing, so extraction fails with `FieldNotFound`.
pub proof fn lemma_missing_field(text: Seq<char>, label: Seq<char>)
    requires
        forall|k: int|
            0 <= k < lines(text).len() ==> find(#[trigger] lines(text)[k], label) < 0 && hex_value(
                lines(text)[k],
            ) is None,
    ensures
        field_value(text, label) is None,
        flexible_field_value(text, label) is None,
{
    let ls = lines(text);
    assert forall|k: int| 0 <= k < ls.len() implies line_value(#[trigger] ls[k], label, Strategy::Labeled) is None
        && line_value(ls[k], label, Strategy::Split) is None && line_value(
        ls[k],
        label,
        Strategy::HexToken,
    ) is None by {
        assert(find(ls[k], label) < 0);
    }
    lemma_first_match_none(ls, label, Strategy::Labeled);
    lemma_first_match_none(ls, label, Strategy::Split);
    lemma_first_match_none(ls, label, Strategy::HexToken);
}

proof fn lemma_lines_nonempty(s: Seq<char>)
    ensures
        lines(s).len() >= 1,
    decreases s.len(),
{
    if s.len() > 0 {
        lemma_lines_nonempty(s.drop_last());
    }
}

/// Joining two texts with a newline joins their lines.
proof fn lemma_lines_concat(x: Seq<char>, y: Seq<char>)
    ensures
        lines(x + seq!['\n'] + y) == lines(x) + lines(y),
    decreases y.len(),
{
    let s = x + seq!['\n'] + y;
    if y.len() == 0 {
        assert(s.drop_last() =~= x);
        assert(s.last() == '\n');
        assert(lines(s) =~= lines(x) + lines(y));
    } else {
        lemma_lines_concat(x, y.drop_last());
        lemma_lines_nonempty(y.drop_last());
        lemma_lines_nonempty(x);
        assert(s.drop_last() =~= x + seq!['\n'] + y.drop_last());
        assert(s.last() == y.last());
        assert(lines(s) =~= lines(x) + lines(y));
    }
}

/// Every line of an all-white text is all white.
proof fn lemma_lines_white(s: Seq<char>)
    requires
        forall|j: int| 0 <= j < s.len() ==> is_white(#[trigger] s[j]),
    ensures
        forall|k: int, j: int|
            0 <= k < lines(s).len() && 0 <= j < lines(s)[k].len() ==> is_white(
                #[trigger] lines(s)[k][j],
            ),
    decreases s.len(),
{
    if s.len() > 0 {
        let p = s.drop_last();
        assert forall|j: int| 0 <= j < p.len() implies is_white(#[trigger] p[j]) by {
            assert(p[j] == s[j]);
        }
        lemma_lines_white(p);
        lemma_lines_nonempty(p);
        assert(is_white(s[s.len() - 1]));
    }
}

proof fn lemma_find_from_occurs(s: Seq<char>, pat: Seq<char>, i: int)
    ensures
        find_from(s, pat, i) >= 0 ==> occurs_at(s, pat, find_from(s, pat, i)),
    decreases s.len() + 1 - i,
{
    if !(i < 0 || i + pat.len() > s.len()) && !occurs_at(s, pat, i) {
        lemma_find_from_occurs(s, pat, i + 1);
    }
}

proof fn lemma_white_scan(line: Seq<char>, i: int)
    requires
        0 <= i <= line.len(),
        forall|j: int| 0 <= j < line.len() ==> is_white(#[trigger] line[j]),
    ensures
        hex_scan(line, i, i) is None,
    decreases line.len() - i,
{
    assert(line.subrange(i, i).len() == 0);
    if i < line.len() {
        lemma_white_scan(line, i + 1);
    }
}

/// No strategy finds anything on an all-white line, for a label with a character
/// that is not white space.
proof fn lemma_white_line_none(line: Seq<char>, label: Seq<char>, st: Strategy)
    requires
        forall|j: int| 0 <= j < line.len() ==> is_white(#[trigger] line[j]),
        exists|j: int| 0 <= j < label.len() && !is_white(#[trigger] label[j]),
    ensures
        line_value(line, label, st) is None,
{
    lemma_find_from_occurs(line, label, 0);
    let i = find(line, label);
    if i >= 0 {
        let j = choose|j: int| 0 <= j < label.len() && !is_white(#[trigger] label[j]);
        assert(line.subrange(i, i + label.len())[j] == line[i + j]);
    }
    lemma_white_scan(line, 0);
}

proof fn lemma_first_match_skip(pre: Seq<Seq<char>>, ls: Seq<Seq<char>>, label: Seq<char>, st: Strategy)
    requires
        forall|k: int| 0 <= k < pre.len() ==> line_value(#[trigger] pre[k], label, st) is None,
    ensures
        first_match(pre + ls, label, st) == first_match(ls, label, st),
    decreases pre.len(),
{
    if pre.len() > 0 {
        assert((pre + ls)[0] == pre[0]);
        assert((pre + ls).drop_first() =~= pre.drop_first() + ls);
        assert forall|k: int| 0 <= k < pre.drop_first().len() implies line_value(
            #[trigger] pre.drop_first()[k],
            label,
            st,
        ) is None by {
            assert(pre.drop_first()[k] == pre[k + 1]);
        }
        lemma_first_match_skip(pre.drop_first(), ls, label, st);
    } else {
        assert(pre + ls =~= ls);
    }
}

proof fn lemma_first_match_tail(ls: Seq<Seq<char>>, post: Seq<Seq<char>>, label: Seq<char>, st: Strategy)
    requires
        forall|k: int| 0 <= k < post.len() ==> line_value(#[trigger] post[k], label, st) is None,
    ensures
        first_match(ls + post, label, st) == first_match(ls, label, st),
    decreases ls.len(),
{
    if ls.len() > 0 {
        assert((ls + post)[0] == ls[0]);
        assert((ls + post).drop_first() =~= ls.drop_first() + post);
        lemma_first_match_tail(ls.drop_first(), post, label, st);
    } else {
        assert(ls + post =~= post);
        lemma_first_match_none(post, label, st);
    }
}

proof fn lemma_blank_lines_strategy(
    a: Seq<char>,
    t: Seq<char>,
    b: Seq<char>,
    label: Seq<char>,
    st: Strategy,
)
    requires
        forall|j: int| 0 <= j < a.len() ==> is_white(#[trigger] a[j]),
        forall|j: int| 0 <= j < b.len() ==> is_white(#[trigger] b[j]),
        exists|j: int| 0 <= j < label.len() && !is_white(#[trigger] label[j]),
    ensures
        first_match(lines(a + seq!['\n'] + t + seq!['\n'] + b), label, st) == first_match(
            lines(t),
            label,
            st,
        ),
{
    let rest = t + seq!['\n'] + b;
    assert(a + seq!['\n'] + t + seq!['\n'] + b =~= a + seq!['\n'] + rest);
    lemma_lines_concat(a, rest);
    lemma_lines_concat(t, b);
    lemma_lines_white(a);
    lemma_lines_white(b);
    let la = lines(a);
    let lb = lines(b);
    assert forall|k: int| 0 <= k < la.len() implies line_value(#[trigger] la[k], label, st) is None by {
        assert forall|j: int| 0 <= j < la[k].len() implies is_white(#[trigger] la[k][j]) by {}
        lemma_white_line_none(la[k], label, st);
    }
    assert forall|k: int| 0 <= k < lb.len() implies line_value(#[trigger] lb[k], label, st) is None by {
        assert forall|j: int| 0 <= j < lb[k].len() implies is_white(#[trigger] lb[k][j]) by {}
        lemma_white_line_none(lb[k], label, st);
    }
    lemma_first_match_skip(la, lines(t) + lb, label, st);
    lemma_first_match_tail(lines(t), lb, label, st);
}

/// White-space-only text before and after the output, each set off by a newline, does
/// not change what is extracted, for a label that is not all white space.
pub proof fn lemma_blank_lines_ignored(a: Seq<char>, t: Seq<char>, b: Seq<char>, label: Seq<char>)
    requires
        forall|j: int| 0 <= j < a.len() ==> is_white(#[trigger] a[j]),
        forall|j: int| 0 <= j < b.len() ==> is_white(#[trigger] b[j]),
        exists|j: int| 0 <= j < label.len() && !is_white(#[trigger] label[j]),
    ensures
        field_value(a + seq!['\n'] + t + seq!['\n'] + b, label) == field_value(t, label),
        flexible_field_value(a + seq!['\n'] + t + seq!['\n'] + b, label) == flexible_field_value(
            t,
            label,
        ),
{
    lemma_blank_lines_strategy(a, t, b, label, Strategy::Labeled);
    lemma_blank_lines_strategy(a, t, b, label, Strategy::Split);
    lemma_blank_lines_strategy(a, t, b, label, Strategy::HexToken);
}

/// While a service runs on port `p`, chain queries go to
/// `http://localhost:<p>/chains/<chain>`; once it is stopped they are refused, so no
/// request is sent.
pub proof fn lemma_proxy_follows_service<H>(
    started: AppState<H>,
    stopped: AppState<H>,
    handle: H,
    pid: Option<u32>,
    p: u16,
    chain_id: Seq<char>,
)
    requires
        started.wf(),
        started.manager_spec().service() == Some(ServiceInstance { handle, pid, port: p }),
        stopped.wf(),
        !stopped.manager_spec().running(),
    ensures
        started.status_spec() == (ServiceStatus { running: true, pid, port: Some(p) }),
        started.query_target(chain_id, None) == Some(
            chain_target(base_url_for(p), chain_id, None),
        ),
        chain_target(base_url_for(p), chain_id, None) == base_url_for(p) + "/chains/"@ + chain_id,
        stopped.query_target(chain_id, None) is None,
{
}

} // verus!
