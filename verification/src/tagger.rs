//! The candidate tagger: filters parsed candidates by the caller's output
//! kinds, orders them, and greedily selects a non-overlapping resolved
//! subset.

use vstd::prelude::*;
use crate::engine::{parse_chart, RuleSetBuilder};
use crate::moment::Moment;
use crate::output::{match_dim, Output, OutputKind, ResolverContext};
use crate::values::Dimension;

verus! {

/// One parsed candidate with its span and scoring metadata.
pub struct ParserMatch {
    pub byte_start: usize,
    pub byte_end: usize,
    pub parsing_tree_height: u32,
    pub parsing_tree_num_nodes: u32,
    pub value: Dimension,
    pub probalog: i64,
    pub latent: bool,
}

/// A tagger result: the candidate, its resolved output if resolution was
/// attempted and succeeded, and whether it was selected.
pub struct Candidate {
    pub match_: ParserMatch,
    pub output: Option<Output>,
    pub tagged: bool,
}

/// A candidate the tagger keeps: not too ambiguous, and matching some
/// entry of the output-kind filter.
pub open spec fn spec_keeps(pm: ParserMatch, filter: Seq<OutputKind>) -> bool {
    !pm.value.is_too_ambiguous_spec() && (exists|k: int|
        0 <= k < filter.len() && crate::output::match_dim_spec(#[trigger] filter[k], pm.value))
}

/// How many candidates of a batch the tagger keeps.
pub open spec fn kept_count(ms: Seq<ParserMatch>, filter: Seq<OutputKind>) -> nat
    decreases ms.len(),
{
    if ms.len() == 0 {
        0
    } else {
        (if spec_keeps(ms[0], filter) {
            1nat
        } else {
            0nat
        }) + kept_count(ms.drop_first(), filter)
    }
}

/// A candidate equal to some element of a batch, every field included.
pub open spec fn match_from(ms: Seq<ParserMatch>, pm: ParserMatch) -> bool {
    exists|i: int| 0 <= i < ms.len() && ms[i] == pm
}

/// A span equal to some input candidate's span.
pub open spec fn span_from(ms: Seq<ParserMatch>, s: int, e: int) -> bool {
    exists|i: int| 0 <= i < ms.len() && (#[trigger] ms[i]).byte_start == s && ms[i].byte_end == e
}

/// Two half-open byte ranges that do not overlap.
pub open spec fn spans_disjoint(a1: int, a2: int, b1: int, b2: int) -> bool {
    a2 <= b1 || b2 <= a1
}

/// The candidate tagger: an ordered output-kind filter, a resolver context,
/// and whether unselected candidates are resolved too.
pub struct CandidateTagger {
    pub output_kind_filter: Vec<OutputKind>,
    pub context: ResolverContext,
    pub resolve_all_candidates: bool,
}

/// The position of the last filter entry matching the value, counted from
/// the filter's end; None exactly when no entry matches.
fn rev_position(filter: &Vec<OutputKind>, d: &Dimension) -> (r: Option<usize>)
    ensures
        r is Some <==> (exists|k: int|
            0 <= k < filter@.len() && crate::output::match_dim_spec(
                #[trigger] filter@[k],
                *d,
            )),
{
    let n = filter.len();
    let mut i: usize = 0;
    while i < n
        invariant
            i <= n,
            n == filter@.len(),
            forall|k: int|
                n - i <= k < n ==> !crate::output::match_dim_spec(#[trigger] filter@[k], *d),
        decreases n - i,
    {
        if match_dim(filter[n - 1 - i], d) {
            return Some(i);
        }
        i = i + 1;
    }
    None
}

/// The candidate ordering: ascending by span length, then start offset,
/// then filter position; among equal kinds higher score sorts later;
/// then taller, larger trees sort earlier. The selection walks this order
/// backward, so longer spans win first.
fn cmp_key(a: &ParserMatch, ap: usize, b: &ParserMatch, bp: usize) -> (r: i32) {
    let alen = if a.byte_start <= a.byte_end {
        a.byte_end - a.byte_start
    } else {
        0
    };
    let blen = if b.byte_start <= b.byte_end {
        b.byte_end - b.byte_start
    } else {
        0
    };
    if alen != blen {
        return if alen < blen {
            -1
        } else {
            1
        };
    }
    if a.byte_start != b.byte_start {
        return if a.byte_start < b.byte_start {
            -1
        } else {
            1
        };
    }
    if ap != bp {
        return if ap < bp {
            -1
        } else {
            1
        };
    }
    if a.value.kind() == b.value.kind() && a.probalog != b.probalog {
        return if a.probalog < b.probalog {
            -1
        } else {
            1
        };
    }
    if a.parsing_tree_height != b.parsing_tree_height {
        return if b.parsing_tree_height < a.parsing_tree_height {
            -1
        } else {
            1
        };
    }
    if a.parsing_tree_num_nodes != b.parsing_tree_num_nodes {
        return if b.parsing_tree_num_nodes < a.parsing_tree_num_nodes {
            -1
        } else {
            1
        };
    }
    0
}

/// Whether a byte range is disjoint from every selected range.
fn disjoint_from_all(selected: &Vec<(usize, usize)>, s: usize, e: usize) -> (r: bool)
    ensures
        r <==> forall|k: int|
            0 <= k < selected@.len() ==> spans_disjoint(
                (#[trigger] selected@[k]).0 as int,
                selected@[k].1 as int,
                s as int,
                e as int,
            ),
{
    let mut k: usize = 0;
    while k < selected.len()
        invariant
            k <= selected@.len(),
            forall|j: int|
                0 <= j < k ==> spans_disjoint(
                    (#[trigger] selected@[j]).0 as int,
                    selected@[j].1 as int,
                    s as int,
                    e as int,
                ),
        decreases selected@.len() - k,
    {
        let (a, b) = selected[k];
        if !(b <= s || e <= a) {
            return false;
        }
        k = k + 1;
    }
    true
}

impl CandidateTagger {
    /// Tag a batch of candidates: drop too-ambiguous ones and those outside
    /// the filter, order the rest, then select greedily so that every
    /// selected candidate resolves and no two selected spans overlap.
    pub fn tag(&self, candidates: Vec<ParserMatch>) -> (r: Vec<Candidate>)
        requires
            self.context.reference.wf(),
        ensures
            forall|i: int, j: int|
                0 <= i < j < r@.len() && (#[trigger] r@[i]).tagged && (#[trigger] r@[j]).tagged
                    ==> spans_disjoint(
                    r@[i].match_.byte_start as int,
                    r@[i].match_.byte_end as int,
                    r@[j].match_.byte_start as int,
                    r@[j].match_.byte_end as int,
                ),
            forall|j: int|
                0 <= j < r@.len() ==> span_from(
                    candidates@,
                    (#[trigger] r@[j]).match_.byte_start as int,
                    r@[j].match_.byte_end as int,
                ),
            r@.len() == kept_count(candidates@, self.output_kind_filter@),
            forall|j: int| 0 <= j < r@.len() ==> match_from(candidates@, (#[trigger] r@[j]).match_),
            forall|j: int| 0 <= j < r@.len() && (#[trigger] r@[j]).tagged ==> r@[j].output is Some,
            !self.resolve_all_candidates ==> forall|j: int|
                0 <= j < r@.len() && !(#[trigger] r@[j]).tagged ==> r@[j].output is None,
    {
        let ghost orig = candidates@;
        let mut kept: Vec<ParserMatch> = Vec::new();
        let mut kept_pos: Vec<usize> = Vec::new();
        let mut rest = candidates;
        while rest.len() > 0
            invariant
                kept@.len() == kept_pos@.len(),
                kept_count(orig, self.output_kind_filter@) == kept@.len() + kept_count(
                    rest@,
                    self.output_kind_filter@,
                ),
                forall|m: int| 0 <= m < rest@.len() ==> match_from(orig, #[trigger] rest@[m]),
                forall|k: int| 0 <= k < kept@.len() ==> match_from(orig, #[trigger] kept@[k]),
                forall|m: int|
                    0 <= m < rest@.len() ==> span_from(
                        orig,
                        (#[trigger] rest@[m]).byte_start as int,
                        rest@[m].byte_end as int,
                    ),
                forall|k: int|
                    0 <= k < kept@.len() ==> span_from(
                        orig,
                        (#[trigger] kept@[k]).byte_start as int,
                        kept@[k].byte_end as int,
                    ),
            decreases rest@.len(),
        {
            let ghost rest_before = rest@;
            let c = rest.remove(0);
            proof {
                assert(rest@ =~= rest_before.drop_first());
                assert(rest_before[0] == c);
            }
            if !c.value.is_too_ambiguous() {
                match rev_position(&self.output_kind_filter, &c.value) {
                    Some(p) => {
                        proof {
                            assert(spec_keeps(c, self.output_kind_filter@));
                        }
                        kept.push(c);
                        kept_pos.push(p);
                    },
                    None => {
                        proof {
                            assert(!spec_keeps(c, self.output_kind_filter@));
                        }
                    },
                }
            } else {
                proof {
                    assert(!spec_keeps(c, self.output_kind_filter@));
                }
            }
        }
        proof {
            assert(kept@.len() == kept_count(orig, self.output_kind_filter@));
        }
        let n = kept.len();
        let mut order: Vec<usize> = Vec::new();
        let mut i: usize = 0;
        while i < n
            invariant
                i <= n,
                order@.len() == i,
                forall|k: int| 0 <= k < i ==> (#[trigger] order@[k]) < n,
            decreases n - i,
        {
            order.push(i);
            i = i + 1;
        }
        let on = order.len();
        let mut si: usize = 1;
        while si < on
            invariant
                n == kept@.len(),
                kept@.len() == kept_pos@.len(),
                on == order@.len(),
                forall|k: int| 0 <= k < order@.len() ==> (#[trigger] order@[k]) < n,
            decreases on - si,
        {
            let mut j: usize = si;
            while j > 0
                invariant
                    j <= si,
                    si < on,
                    on == order@.len(),
                    n == kept@.len(),
                    kept@.len() == kept_pos@.len(),
                    forall|k: int| 0 <= k < order@.len() ==> (#[trigger] order@[k]) < n,
                decreases j,
            {
                let x = order[j - 1];
                let y = order[j];
                if cmp_key(&kept[x], kept_pos[x], &kept[y], kept_pos[y]) > 0 {
                    order.set(j - 1, y);
                    order.set(j, x);
                } else {
                    break ;
                }
                j = j - 1;
            }
            si = si + 1;
        }
        let mut out: Vec<Candidate> = Vec::new();
        let mut selected: Vec<(usize, usize)> = Vec::new();
        let mut oi: usize = order.len();
        while oi > 0
            invariant
                oi <= order@.len(),
                on == order@.len(),
                on == n,
                out@.len() == on - oi,
                n == kept@.len(),
                kept@.len() == kept_pos@.len(),
                forall|k: int| 0 <= k < order@.len() ==> (#[trigger] order@[k]) < n,
                self.context.reference.wf(),
                forall|k: int| 0 <= k < kept@.len() ==> match_from(orig, #[trigger] kept@[k]),
                forall|j2: int|
                    0 <= j2 < out@.len() ==> match_from(orig, (#[trigger] out@[j2]).match_),
                forall|j2: int|
                    0 <= j2 < out@.len() && (#[trigger] out@[j2]).tagged ==> out@[j2].output
                        is Some,
                !self.resolve_all_candidates ==> forall|j2: int|
                    0 <= j2 < out@.len() && !(#[trigger] out@[j2]).tagged ==> out@[j2].output
                        is None,
                forall|k: int|
                    0 <= k < kept@.len() ==> span_from(
                        orig,
                        (#[trigger] kept@[k]).byte_start as int,
                        kept@[k].byte_end as int,
                    ),
                forall|j2: int|
                    0 <= j2 < out@.len() ==> span_from(
                        orig,
                        (#[trigger] out@[j2]).match_.byte_start as int,
                        out@[j2].match_.byte_end as int,
                    ),
                forall|i2: int|
                    0 <= i2 < out@.len() && (#[trigger] out@[i2]).tagged ==> (exists|k: int|
                        0 <= k < selected@.len() && (#[trigger] selected@[k]) == (
                        out@[i2].match_.byte_start,
                        out@[i2].match_.byte_end,
                        )),
                forall|i2: int, j2: int|
                    0 <= i2 < j2 < out@.len() && (#[trigger] out@[i2]).tagged && (
                    #[trigger] out@[j2]).tagged ==> spans_disjoint(
                        out@[i2].match_.byte_start as int,
                        out@[i2].match_.byte_end as int,
                        out@[j2].match_.byte_start as int,
                        out@[j2].match_.byte_end as int,
                    ),
            decreases oi,
        {
            oi = oi - 1;
            let idx = order[oi];
            let m = &kept[idx];
            let s = m.byte_start;
            let e = m.byte_end;
            if disjoint_from_all(&selected, s, e) {
                match self.context.resolve(&m.value) {
                    Some(o) => {
                        proof {
                            assert forall|i2: int|
                                0 <= i2 < out@.len() && (#[trigger] out@[i2]).tagged implies
                            spans_disjoint(
                                out@[i2].match_.byte_start as int,
                                out@[i2].match_.byte_end as int,
                                s as int,
                                e as int,
                            ) by {
                                let k = choose|k: int|
                                    0 <= k < selected@.len() && selected@[k] == (
                                    out@[i2].match_.byte_start,
                                    out@[i2].match_.byte_end,
                                    );
                                assert(spans_disjoint(
                                    selected@[k].0 as int,
                                    selected@[k].1 as int,
                                    s as int,
                                    e as int,
                                ));
                            }
                        }
                        let ghost pre_sel = selected@;
                        selected.push((s, e));
                        proof {
                            assert(selected@ =~= pre_sel.push((s, e)));
                            assert forall|i2: int|
                                0 <= i2 < out@.len() && (#[trigger] out@[i2]).tagged implies (
                            exists|k: int|
                                0 <= k < selected@.len() && (#[trigger] selected@[k]) == (
                                out@[i2].match_.byte_start,
                                out@[i2].match_.byte_end,
                                )) by {
                                let k = choose|k: int|
                                    0 <= k < pre_sel.len() && (#[trigger] pre_sel[k]) == (
                                    out@[i2].match_.byte_start,
                                    out@[i2].match_.byte_end,
                                    );
                                assert(selected@[k] == pre_sel[k]);
                            }
                            assert(selected@[selected@.len() - 1] == (s, e));
                        }
                        out.push(
                            Candidate {
                                match_: ParserMatch {
                                    byte_start: m.byte_start,
                                    byte_end: m.byte_end,
                                    parsing_tree_height: m.parsing_tree_height,
                                    parsing_tree_num_nodes: m.parsing_tree_num_nodes,
                                    value: m.value.clone(),
                                    probalog: m.probalog,
                                    latent: m.latent,
                                },
                                output: Some(o),
                                tagged: true,
                            },
                        );
                        continue ;
                    },
                    None => {},
                }
            }
            let output = if self.resolve_all_candidates {
                self.context.resolve(&m.value)
            } else {
                None
            };
            out.push(
                Candidate {
                    match_: ParserMatch {
                        byte_start: m.byte_start,
                        byte_end: m.byte_end,
                        parsing_tree_height: m.parsing_tree_height,
                        parsing_tree_num_nodes: m.parsing_tree_num_nodes,
                        value: m.value.clone(),
                        probalog: m.probalog,
                        latent: m.latent,
                    },
                    output,
                    tagged: false,
                },
            );
        }
        out
    }
}

/// Parse a sentence and tag its candidates: the whole pipeline from text
/// and reference instant to resolved, non-overlapping matches.
pub fn parse(
    rs: &RuleSetBuilder,
    text: &[u8],
    reference: Moment,
    output_kind_filter: Vec<OutputKind>,
    resolve_all_candidates: bool,
) -> (r: Vec<Candidate>)
    requires
        rs.wf(),
        reference.wf(),
    ensures
        forall|i: int, j: int|
            0 <= i < j < r@.len() && (#[trigger] r@[i]).tagged && (#[trigger] r@[j]).tagged
                ==> spans_disjoint(
                r@[i].match_.byte_start as int,
                r@[i].match_.byte_end as int,
                r@[j].match_.byte_start as int,
                r@[j].match_.byte_end as int,
            ),
        forall|j: int|
            0 <= j < r@.len() ==> (#[trigger] r@[j]).match_.byte_start <= r@[j].match_.byte_end
                && r@[j].match_.byte_end <= text@.len(),
        forall|j: int| 0 <= j < r@.len() && (#[trigger] r@[j]).tagged ==> r@[j].output is Some,
        !resolve_all_candidates ==> forall|j: int|
            0 <= j < r@.len() && !(#[trigger] r@[j]).tagged ==> r@[j].output is None,
{
    let chart = parse_chart(rs, text);
    let mut ms: Vec<ParserMatch> = Vec::new();
    let mut i: usize = 0;
    while i < chart.len()
        invariant
            i <= chart@.len(),
            crate::engine::chart_wf(chart@, text@.len() as int),
            forall|k: int|
                0 <= k < ms@.len() ==> (#[trigger] ms@[k]).byte_start <= ms@[k].byte_end && ms@[
                k].byte_end <= text@.len(),
        decreases chart@.len() - i,
    {
        let node = &chart[i];
        match &node.value {
            Some(d) => {
                let latent = d.is_too_ambiguous();
                ms.push(
                    ParserMatch {
                        byte_start: node.start,
                        byte_end: node.end,
                        parsing_tree_height: node.height,
                        parsing_tree_num_nodes: node.nodes_count,
                        value: d.clone(),
                        probalog: node.probalog,
                        latent,
                    },
                );
            },
            None => {},
        }
        i = i + 1;
    }
    let tagger = CandidateTagger {
        output_kind_filter,
        context: ResolverContext::new(reference),
        resolve_all_candidates,
    };
    let ghost ms_snapshot = ms@;
    let out = tagger.tag(ms);
    proof {
        assert forall|j: int|
            0 <= j < out@.len() implies (#[trigger] out@[j]).match_.byte_start
            <= out@[j].match_.byte_end && out@[j].match_.byte_end <= text@.len() by {
            let i = choose|i: int|
                0 <= i < ms_snapshot.len() && (#[trigger] ms_snapshot[i]).byte_start
                    == out@[j].match_.byte_start && ms_snapshot[i].byte_end
                    == out@[j].match_.byte_end;
        }
    }
    out
}

} // verus!
