//! The grammar engine: a bottom-up chart parser over typed rules with
//! regex terminals and predicate-filtered non-terminals.

use vstd::prelude::*;
use crate::en::{produce, RuleId};
use crate::pattern::{regex_captures, regex_compile, slice_bytes, RawMatch};
use crate::values::{Dimension, DimensionKind, NumberValue, RuleError};

verus! {

/// A predicate a non-terminal child must satisfy before the producer runs.
#[derive(Clone, Copy, Debug, PartialEq, Eq, Structural)]
pub enum Pred {
    Any,
    IntegerRange(i64, i64),
    DurationNotSuffixed,
    DurationNotPrefixed,
    TimeNotLatent,
    TimeFormTimeOfDay,
    MoneyCents,
    MoneyNotCents,
    OrdinalRange(i64, i64),
}

/// One slot of a rule: a regex terminal by pattern index, or a typed
/// non-terminal with a predicate.
#[derive(Clone, Copy, Debug, PartialEq, Eq, Structural)]
pub enum RulePat {
    Reg(usize),
    Dim(DimensionKind, Pred),
}

/// Whether a parsed value satisfies a slot's kind and predicate, as data.
pub open spec fn check_pred_spec(d: Dimension, kind: DimensionKind, pred: Pred) -> bool {
    d.kind_spec() == kind && (match pred {
        Pred::Any => true,
        Pred::IntegerRange(lo, hi) => match d {
            Dimension::Number(NumberValue::Integer(iv)) => lo <= iv.value && iv.value <= hi,
            _ => false,
        },
        Pred::DurationNotSuffixed => match d {
            Dimension::Duration(dv) => !dv.suffixed,
            _ => false,
        },
        Pred::DurationNotPrefixed => match d {
            Dimension::Duration(dv) => !dv.prefixed,
            _ => false,
        },
        Pred::TimeNotLatent => match d {
            Dimension::Time(tv) => !tv.latent,
            _ => false,
        },
        Pred::TimeFormTimeOfDay => match d {
            Dimension::Time(tv) => tv.form matches crate::values::Form::TimeOfDay(_),
            _ => false,
        },
        Pred::MoneyCents => match d {
            Dimension::AmountOfMoney(av) => av.unit == Some(crate::values::MoneyUnit::Cent),
            _ => false,
        },
        Pred::MoneyNotCents => match d {
            Dimension::AmountOfMoney(av) => av.unit != Some(crate::values::MoneyUnit::Cent),
            _ => false,
        },
        Pred::OrdinalRange(lo, hi) => match d {
            Dimension::Ordinal(ov) => lo <= ov.value && ov.value <= hi,
            _ => false,
        },
    })
}

/// Whether a parsed value satisfies a slot's kind and predicate.
pub fn check_pred(d: &Dimension, kind: DimensionKind, pred: Pred) -> (r: bool)
    ensures
        r == check_pred_spec(*d, kind, pred),
{
    if d.kind() != kind {
        return false;
    }
    match pred {
        Pred::Any => true,
        Pred::IntegerRange(lo, hi) => match d {
            Dimension::Number(NumberValue::Integer(iv)) => lo <= iv.value && iv.value <= hi,
            _ => false,
        },
        Pred::DurationNotSuffixed => match d {
            Dimension::Duration(dv) => !dv.suffixed,
            _ => false,
        },
        Pred::DurationNotPrefixed => match d {
            Dimension::Duration(dv) => !dv.prefixed,
            _ => false,
        },
        Pred::TimeNotLatent => match d {
            Dimension::Time(tv) => !tv.latent,
            _ => false,
        },
        Pred::TimeFormTimeOfDay => match d {
            Dimension::Time(tv) => tv.form.is_time_of_day(),
            _ => false,
        },
        Pred::MoneyCents => match d {
            Dimension::AmountOfMoney(av) => av.unit == Some(crate::values::MoneyUnit::Cent),
            _ => false,
        },
        Pred::MoneyNotCents => match d {
            Dimension::AmountOfMoney(av) => av.unit != Some(crate::values::MoneyUnit::Cent),
            _ => false,
        },
        Pred::OrdinalRange(lo, hi) => match d {
            Dimension::Ordinal(ov) => lo <= ov.value && ov.value <= hi,
            _ => false,
        },
    }
}

/// One registered rule holds the given name and slot list.
pub open spec fn rule_entry(r: Rule, id: RuleId, pats: Seq<RulePat>) -> bool {
    r.id == id && r.pats@ == pats
}

/// A production rule: a name tag and one to five slots.
pub struct Rule {
    pub id: RuleId,
    pub pats: Vec<RulePat>,
}

/// The rule set under construction: a pattern table with its compiled
/// regexes, and the rules over it.
pub struct RuleSetBuilder {
    pub patterns: Vec<String>,
    pub compiled: Vec<regex::bytes::Regex>,
    pub rules: Vec<Rule>,
}

impl RuleSetBuilder {
    pub open spec fn wf(self) -> bool {
        &&& self.compiled@.len() == self.patterns@.len()
        &&& forall|i: int, j: int|
            0 <= i < self.rules@.len() && 0 <= j < self.rules@[i].pats@.len() ==> ((
            #[trigger] self.rules@[i].pats@[j]) matches RulePat::Reg(k) ==> k
                < self.compiled@.len())
        &&& forall|i: int|
            1 <= (#[trigger] self.rules@[i].pats@.len()) <= 5 || !(0 <= i < self.rules@.len())
    }

    pub fn new() -> (r: RuleSetBuilder)
        ensures
            r.wf(),
            r.rules@.len() == 0,
            r.compiled@.len() == 0,
    {
        RuleSetBuilder { patterns: Vec::new(), compiled: Vec::new(), rules: Vec::new() }
    }

    /// Compile and register a terminal pattern; its index names it in rules.
    pub fn reg(&mut self, pattern: &str) -> (r: Result<usize, RuleError>)
        requires
            old(self).wf(),
        ensures
            final(self).wf(),
            final(self).rules == old(self).rules,
            r matches Ok(k) ==> k == old(self).compiled@.len() && final(self).compiled@.len()
                == old(self).compiled@.len() + 1 && final(self).patterns@.len() == old(
                self,
            ).patterns@.len() + 1 && final(self).patterns@[old(self).patterns@.len() as int]@
                == pattern@ && final(self).patterns@.subrange(0, old(self).patterns@.len() as int)
                == old(self).patterns@,
            r is Err ==> *final(self) == *old(self),
    {
        broadcast use vstd::string::to_string_from_display_ensures_for_str;

        match regex_compile(pattern) {
            Some(re) => {
                let k = self.compiled.len();
                self.compiled.push(re);
                let ghost before = self.patterns@;
                self.patterns.push(pattern.to_string());
                proof {
                    assert(self.patterns@.subrange(0, before.len() as int) =~= before);
                }
                Ok(k)
            },
            None => Err(RuleError::Invalid),
        }
    }

    /// Register a rule over already-registered patterns.
    pub fn rule(&mut self, id: RuleId, pats: Vec<RulePat>)
        requires
            old(self).wf(),
            1 <= pats@.len() <= 5,
            forall|j: int|
                0 <= j < pats@.len() ==> ((#[trigger] pats@[j]) matches RulePat::Reg(k) ==> k < old(
                    self,
                ).compiled@.len()),
        ensures
            final(self).wf(),
            final(self).compiled == old(self).compiled,
            final(self).patterns == old(self).patterns,
            final(self).rules@ == old(self).rules@.push(Rule { id, pats }),
    {
        self.rules.push(Rule { id, pats });
    }
}

/// A chart node: a matched terminal or a produced value over a byte span.
pub struct Node {
    pub start: usize,
    pub end: usize,
    /// For terminals, the pattern index and the capture-group spans.
    pub pat: Option<usize>,
    pub groups: Vec<Option<(usize, usize)>>,
    /// For value nodes, the producing rule's index and the value.
    pub rule: Option<usize>,
    pub value: Option<Dimension>,
    pub children: Vec<usize>,
    pub height: u32,
    pub nodes_count: u32,
    pub probalog: i64,
}

impl Node {
    pub open spec fn span_wf(self, text_len: int) -> bool {
        &&& self.start <= self.end <= text_len
        &&& forall|j: int|
            0 <= j < self.groups@.len() ==> ((#[trigger] self.groups@[j]) matches Some(g) ==> g.0
                <= g.1 && g.1 <= text_len)
    }
}

pub open spec fn chart_wf(chart: Seq<Node>, text_len: int) -> bool {
    forall|i: int| 0 <= i < chart.len() ==> (#[trigger] chart[i]).span_wf(text_len)
}

/// Every byte in `[lo, hi)` is a space, hyphen or comma.
pub open spec fn separators_only_spec(text: Seq<u8>, lo: int, hi: int) -> bool {
    forall|i: int| lo <= i < hi ==> (#[trigger] text[i]) == 32 || text[i] == 45 || text[i] == 44
}

/// Whether every byte in `[lo, hi)` is whitespace or a joining mark, so two
/// sibling spans may be bridged.
pub fn separators_only(text: &[u8], lo: usize, hi: usize) -> (r: bool)
    requires
        lo <= hi <= text@.len(),
    ensures
        r == separators_only_spec(text@, lo as int, hi as int),
{
    let mut i: usize = lo;
    while i < hi
        invariant
            lo <= i <= hi <= text@.len(),
            forall|j: int|
                lo <= j < i ==> (#[trigger] text@[j]) == 32 || text@[j] == 45 || text@[j] == 44,
        decreases hi - i,
    {
        let b = text[i];
        if !(b == 32 || b == 45 || b == 44) {
            return false;
        }
        i = i + 1;
    }
    true
}

/// An argument handed to a producer: a terminal's group texts, or a child
/// value.
pub enum ProducerArg {
    Text(Vec<Option<Vec<u8>>>),
    Val(Dimension),
}

/// Caps keeping every parse bounded: chart nodes, candidate tuples per
/// rule, and fixpoint passes.
pub const MAX_CHART: usize = 400;

pub const MAX_TUPLES: usize = 200;

pub const MAX_PASSES: usize = 6;

fn nodes_eq(a: &Vec<usize>, b: &Vec<usize>) -> (r: bool)
    ensures
        r <==> a@ == b@,
{
    if a.len() != b.len() {
        proof {
            assert(a@.len() != b@.len());
        }
        return false;
    }
    let mut i: usize = 0;
    while i < a.len()
        invariant
            i <= a@.len(),
            a@.len() == b@.len(),
            forall|k: int| 0 <= k < i ==> a@[k] == b@[k],
        decreases a@.len() - i,
    {
        if a[i] != b[i] {
            return false;
        }
        i = i + 1;
    }
    proof {
        assert(a@ =~= b@);
    }
    true
}

/// Whether the chart already holds a node for this rule, span and children.
fn already_in_chart(chart: &Vec<Node>, rule: usize, start: usize, end: usize, children: &Vec<
    usize>) -> (r: bool)
{
    let mut i: usize = 0;
    while i < chart.len()
        invariant
            i <= chart@.len(),
        decreases chart@.len() - i,
    {
        let n = &chart[i];
        let same_rule = match n.rule {
            Some(ri) => ri == rule,
            None => false,
        };
        if same_rule && n.start == start && n.end == end && nodes_eq(&n.children, children) {
            return true;
        }
        i = i + 1;
    }
    false
}

/// Whether a chart node fills a rule slot: the named terminal, or a value
/// of the slot's kind passing its predicate.
pub open spec fn slot_matches(n: Node, pat: RulePat) -> bool {
    match pat {
        RulePat::Reg(k) => n.pat == Some(k) && n.value is None,
        RulePat::Dim(kind, pred) => match n.value {
            Some(d) => check_pred_spec(d, kind, pred),
            None => false,
        },
    }
}

/// Whether a child tuple matches a slot list: one matching node per slot,
/// spans running left to right, bridged only by separator bytes.
pub open spec fn tuple_matches(
    chart: Seq<Node>,
    pats: Seq<RulePat>,
    text: Seq<u8>,
    t: Seq<usize>,
) -> bool {
    &&& t.len() == pats.len()
    &&& forall|j: int|
        0 <= j < t.len() ==> (#[trigger] t[j]) < chart.len() && slot_matches(
            chart[t[j] as int],
            pats[j],
        )
    &&& forall|j: int|
        1 <= j < t.len() ==> chart[(#[trigger] t[j]) as int].start >= chart[t[j - 1] as int].end
            && separators_only_spec(
            text,
            chart[t[j - 1] as int].end as int,
            chart[t[j] as int].start as int,
        )
}

/// All child tuples whose spans run left to right, bridged only by
/// separators, matching a rule's slots.
#[verifier::loop_isolation(false)]
fn match_tuples(chart: &Vec<Node>, pats: &Vec<RulePat>, text: &[u8]) -> (r: Vec<Vec<usize>>)
    requires
        chart_wf(chart@, text@.len() as int),
        1 <= pats@.len() <= 5,
    ensures
        forall|i: int, j: int|
            0 <= i < r@.len() && 0 <= j < r@[i]@.len() ==> (#[trigger] r@[i]@[j]) < chart@.len(),
        forall|i: int| 0 <= i < r@.len() ==> (#[trigger] r@[i]@).len() == pats@.len(),
        forall|i: int| 0 <= i < r@.len() ==> tuple_matches(chart@, pats@, text@, (#[trigger] r@[i])@),
{
    proof {
        assert(pats@.take(pats@.len() as int) =~= pats@);
    }
    let mut partial: Vec<Vec<usize>> = Vec::new();
    partial.push(Vec::new());
    let mut pi: usize = 0;
    while pi < pats.len()
        invariant
            pi <= pats@.len(),
            forall|i: int, j: int|
                0 <= i < partial@.len() && 0 <= j < partial@[i]@.len() ==> (#[trigger] partial@[
                i]@[j]) < chart@.len(),
            forall|i: int| 0 <= i < partial@.len() ==> (#[trigger] partial@[i]@).len() == pi,
            forall|i: int|
                0 <= i < partial@.len() ==> tuple_matches(
                    chart@,
                    pats@.take(pi as int),
                    text@,
                    (#[trigger] partial@[i])@,
                ),
        decreases pats@.len() - pi,
    {
        let pat = pats[pi];
        let mut next: Vec<Vec<usize>> = Vec::new();
        let mut t: usize = 0;
        while t < partial.len()
            invariant
                t <= partial@.len(),
                forall|i: int, j: int|
                    0 <= i < partial@.len() && 0 <= j < partial@[i]@.len() ==> (
                    #[trigger] partial@[i]@[j]) < chart@.len(),
                forall|i: int| 0 <= i < partial@.len() ==> (#[trigger] partial@[i]@).len() == pi,
                forall|i: int|
                    0 <= i < partial@.len() ==> tuple_matches(
                        chart@,
                        pats@.take(pi as int),
                        text@,
                        (#[trigger] partial@[i])@,
                    ),
                forall|i: int, j: int|
                    0 <= i < next@.len() && 0 <= j < next@[i]@.len() ==> (#[trigger] next@[i]@[j])
                        < chart@.len(),
                forall|i: int| 0 <= i < next@.len() ==> (#[trigger] next@[i]@).len() == pi + 1,
                forall|i: int|
                    0 <= i < next@.len() ==> tuple_matches(
                        chart@,
                        pats@.take(pi + 1),
                        text@,
                        (#[trigger] next@[i])@,
                    ),
            decreases partial@.len() - t,
        {
            let tuple = &partial[t];
            let mut ni: usize = 0;
            while ni < chart.len()
                invariant
                    ni <= chart@.len(),
                    t < partial@.len(),
                    tuple == &partial@[t as int],
                    tuple@.len() == pi,
                    forall|j: int| 0 <= j < tuple@.len() ==> (#[trigger] tuple@[j]) < chart@.len(),
                    tuple_matches(chart@, pats@.take(pi as int), text@, tuple@),
                    forall|i: int, j: int|
                        0 <= i < next@.len() && 0 <= j < next@[i]@.len() ==> (#[trigger] next@[
                        i]@[j]) < chart@.len(),
                    forall|i: int| 0 <= i < next@.len() ==> (#[trigger] next@[i]@).len() == pi + 1,
                    forall|i: int|
                        0 <= i < next@.len() ==> tuple_matches(
                            chart@,
                            pats@.take(pi + 1),
                            text@,
                            (#[trigger] next@[i])@,
                        ),
                decreases chart@.len() - ni,
            {
                let node = &chart[ni];
                let slot_ok = match pat {
                    RulePat::Reg(k) => match (node.pat, &node.value) {
                        (Some(np), None) => np == k,
                        _ => false,
                    },
                    RulePat::Dim(kind, pred) => match &node.value {
                        Some(d) => check_pred(d, kind, pred),
                        None => false,
                    },
                };
                let adjacency_ok = if tuple.len() == 0 {
                    true
                } else {
                    let prev = &chart[tuple[tuple.len() - 1]];
                    prev.end <= node.start && separators_only(text, prev.end, node.start)
                };
                if slot_ok && adjacency_ok && next.len() < MAX_TUPLES {
                    let mut t2: Vec<usize> = Vec::new();
                    let mut ci: usize = 0;
                    while ci < tuple.len()
                        invariant
                            ci <= tuple@.len(),
                            t2@.len() == ci,
                            tuple@.len() == pi,
                            forall|j: int|
                                0 <= j < tuple@.len() ==> (#[trigger] tuple@[j]) < chart@.len(),
                            forall|j: int| 0 <= j < ci ==> (#[trigger] t2@[j]) == tuple@[j],
                        decreases tuple@.len() - ci,
                    {
                        t2.push(tuple[ci]);
                        ci = ci + 1;
                    }
                    t2.push(ni);
                    proof {
                        assert(t2@ =~= tuple@.push(ni));
                        assert(pats@.take(pi + 1)[pi as int] == pats@[pi as int]);
                        assert forall|j: int| 0 <= j < pi implies pats@.take(pi + 1)[j] == pats@.take(
                            pi as int,
                        )[j] by {}
                        assert(tuple_matches(chart@, pats@.take(pi + 1), text@, t2@));
                    }
                    next.push(t2);
                }
                ni = ni + 1;
            }
            t = t + 1;
        }
        partial = next;
        pi = pi + 1;
    }
    partial
}

/// Build the producer arguments for a child tuple.
fn build_args(chart: &Vec<Node>, tuple: &Vec<usize>, text: &[u8]) -> (r: Vec<ProducerArg>)
    requires
        chart_wf(chart@, text@.len() as int),
        forall|j: int| 0 <= j < tuple@.len() ==> (#[trigger] tuple@[j]) < chart@.len(),
{
    let mut args: Vec<ProducerArg> = Vec::new();
    let mut i: usize = 0;
    while i < tuple.len()
        invariant
            i <= tuple@.len(),
            chart_wf(chart@, text@.len() as int),
            forall|j: int| 0 <= j < tuple@.len() ==> (#[trigger] tuple@[j]) < chart@.len(),
        decreases tuple@.len() - i,
    {
        let node = &chart[tuple[i]];
        match &node.value {
            Some(d) => {
                args.push(ProducerArg::Val(d.clone()));
            },
            None => {
                let mut groups: Vec<Option<Vec<u8>>> = Vec::new();
                let mut j: usize = 0;
                while j < node.groups.len()
                    invariant
                        j <= node.groups@.len(),
                        node == &chart@[tuple@[i as int] as int],
                        i < tuple@.len(),
                        tuple@[i as int] < chart@.len(),
                        chart_wf(chart@, text@.len() as int),
                    decreases node.groups@.len() - j,
                {
                    match node.groups[j] {
                        Some((lo, hi)) => {
                            let s = slice_bytes(text, lo, hi);
                            groups.push(Some(s));
                        },
                        None => {
                            groups.push(None);
                        },
                    }
                    j = j + 1;
                }
                args.push(ProducerArg::Text(groups));
            },
        }
        i = i + 1;
    }
    args
}

/// The nonempty matches of a batch, in order.
pub open spec fn nonempty_seq(ms: Seq<RawMatch>) -> Seq<RawMatch>
    decreases ms.len(),
{
    if ms.len() == 0 {
        Seq::empty()
    } else {
        let rest = nonempty_seq(ms.drop_last());
        if ms.last().start < ms.last().end {
            rest.push(ms.last())
        } else {
            rest
        }
    }
}

/// A chart node seeded from one terminal match: the match's span and
/// groups, no rule, no value, unit height and count, zero score.
pub open spec fn is_terminal_node_for(n: Node, p: usize, m: RawMatch) -> bool {
    &&& n.start == m.start
    &&& n.end == m.end
    &&& n.pat == Some(p)
    &&& n.groups@ == m.groups@
    &&& n.rule is None
    &&& n.value is None
    &&& n.children@.len() == 0
    &&& n.height == 1
    &&& n.nodes_count == 1
    &&& n.probalog == 0
}

/// Seed the chart from one pattern's matches: while the chart cap is not
/// hit, exactly one node per nonempty match, in order, carrying the
/// match's span and groups.
#[verifier::loop_isolation(false)]
pub fn seed_pattern(chart: &mut Vec<Node>, p: usize, ms: &Vec<RawMatch>, text: &[u8])
    requires
        chart_wf(old(chart)@, text@.len() as int),
        forall|i: int|
            0 <= i < ms@.len() ==> (#[trigger] ms@[i]).start <= ms@[i].end && ms@[i].end
                <= text@.len(),
        forall|i: int, j: int|
            0 <= i < ms@.len() && 0 <= j < ms@[i].groups@.len() ==> ((#[trigger] ms@[i].groups@[j])
                matches Some(g) ==> ms@[i].start <= g.0 && g.0 <= g.1 && g.1 <= ms@[i].end),
    ensures
        chart_wf(final(chart)@, text@.len() as int),
        final(chart)@.subrange(0, old(chart)@.len() as int) == old(chart)@,
        old(chart)@.len() + ms@.len() <= MAX_CHART ==> final(chart)@.len() == old(chart)@.len()
            + nonempty_seq(ms@).len() && (forall|j: int|
            0 <= j < nonempty_seq(ms@).len() ==> is_terminal_node_for(
                #[trigger] final(chart)@[old(chart)@.len() + j],
                p,
                nonempty_seq(ms@)[j],
            )),
{
    let ghost base = chart@;
    let mut mi: usize = 0;
    while mi < ms.len()
        invariant
            mi <= ms@.len(),
            chart_wf(chart@, text@.len() as int),
            chart@.subrange(0, base.len() as int) == base,
            chart@.len() >= base.len(),
            base.len() + ms@.len() <= MAX_CHART ==> chart@.len() == base.len() + nonempty_seq(
                ms@.take(mi as int),
            ).len() && (forall|j: int|
                0 <= j < nonempty_seq(ms@.take(mi as int)).len() ==> is_terminal_node_for(
                    #[trigger] chart@[base.len() + j],
                    p,
                    nonempty_seq(ms@.take(mi as int))[j],
                )),
            base.len() + ms@.len() <= MAX_CHART ==> chart@.len() <= base.len() + mi,
        decreases ms@.len() - mi,
    {
        proof {
            assert(ms@.take(mi + 1).drop_last() =~= ms@.take(mi as int));
            assert(ms@.take(mi + 1).last() == ms@[mi as int]);
        }
        let m = &ms[mi];
        if m.start < m.end && chart.len() < MAX_CHART {
            let mut groups: Vec<Option<(usize, usize)>> = Vec::new();
            let mut j: usize = 0;
            while j < m.groups.len()
                invariant
                    j <= m.groups@.len(),
                    m == &ms@[mi as int],
                    mi < ms@.len(),
                    groups@ == m.groups@.subrange(0, j as int),
                decreases m.groups@.len() - j,
            {
                groups.push(m.groups[j]);
                proof {
                    assert(groups@ =~= m.groups@.subrange(0, j + 1));
                }
                j = j + 1;
            }
            proof {
                assert(groups@ =~= m.groups@);
            }
            let ghost before = chart@;
            chart.push(
                Node {
                    start: m.start,
                    end: m.end,
                    pat: Some(p),
                    groups,
                    rule: None,
                    value: None,
                    children: Vec::new(),
                    height: 1,
                    nodes_count: 1,
                    probalog: 0,
                },
            );
            proof {
                assert(chart@.subrange(0, base.len() as int) =~= base);
            }
        }
        mi = mi + 1;
    }
    proof {
        assert(ms@.take(ms@.len() as int) =~= ms@);
    }
}

/// Parse a sentence against a rule set: seed the chart from the regex
/// terminals, then extend it rule by rule to a bounded fixpoint. Work is
/// capped: at most `MAX_CHART` nodes, `MAX_TUPLES` candidate tuples per
/// rule firing, and `MAX_PASSES` passes where the source of rules asks for
/// a fixpoint; a parse cut by a cap yields fewer candidates, never wrong
/// ones.
#[verifier::loop_isolation(false)]
pub fn parse_chart(rs: &RuleSetBuilder, text: &[u8]) -> (r: Vec<Node>)
    requires
        rs.wf(),
    ensures
        chart_wf(r@, text@.len() as int),
{
    let mut chart: Vec<Node> = Vec::new();
    let mut p: usize = 0;
    while p < rs.compiled.len()
        invariant
            p <= rs.compiled@.len(),
            chart_wf(chart@, text@.len() as int),
        decreases rs.compiled@.len() - p,
    {
        let ms = regex_captures(&rs.compiled[p], text);
        seed_pattern(&mut chart, p, &ms, text);
        p = p + 1;
    }
    let mut pass: usize = 0;
    while pass < MAX_PASSES
        invariant
            pass <= MAX_PASSES,
            chart_wf(chart@, text@.len() as int),
        decreases MAX_PASSES - pass,
    {
        let mut changed = false;
        let mut ri: usize = 0;
        while ri < rs.rules.len()
            invariant
                ri <= rs.rules@.len(),
                chart_wf(chart@, text@.len() as int),
            decreases rs.rules@.len() - ri,
        {
            let tuples = match_tuples(&chart, &rs.rules[ri].pats, text);
            let mut ti: usize = 0;
            while ti < tuples.len()
                invariant
                    ti <= tuples@.len(),
                    chart_wf(chart@, text@.len() as int),
                    forall|i: int, j: int|
                        0 <= i < tuples@.len() && 0 <= j < tuples@[i]@.len() ==> (
                        #[trigger] tuples@[i]@[j]) < chart@.len(),
                    forall|i: int|
                        0 <= i < tuples@.len() ==> (#[trigger] tuples@[i]@).len()
                            == rs.rules@[ri as int].pats@.len(),
                decreases tuples@.len() - ti,
            {
                let tuple = &tuples[ti];
                if chart.len() < MAX_CHART && tuple.len() > 0 {
                    let first = &chart[tuple[0]];
                    let last = &chart[tuple[tuple.len() - 1]];
                    let start = first.start;
                    let end = last.end;
                    if start <= end && !already_in_chart(&chart, ri, start, end, tuple) {
                        let args = build_args(&chart, tuple, text);
                        match produce(&rs.rules[ri].id, &args) {
                            Some(value) => {
                                let (h, nc, pl) = tuple_scores(&chart, tuple);
                                let mut children: Vec<usize> = Vec::new();
                                let mut ci: usize = 0;
                                while ci < tuple.len()
                                    invariant
                                        ci <= tuple@.len(),
                                        forall|j: int|
                                            0 <= j < tuple@.len() ==> (#[trigger] tuple@[j])
                                                < chart@.len(),
                                    decreases tuple@.len() - ci,
                                {
                                    children.push(tuple[ci]);
                                    ci = ci + 1;
                                }
                                chart.push(
                                    Node {
                                        start,
                                        end,
                                        pat: None,
                                        groups: Vec::new(),
                                        rule: Some(ri),
                                        value: Some(value),
                                        children,
                                        height: h,
                                        nodes_count: nc,
                                        probalog: pl,
                                    },
                                );
                                changed = true;
                            },
                            None => {},
                        }
                    }
                }
                ti = ti + 1;
            }
            ri = ri + 1;
        }
        if !changed {
            return chart;
        }
        pass = pass + 1;
    }
    chart
}

/// Height, node count and score of a prospective parent node. Scores are
/// an input to the engine: this rule set ships untrained, every rule prior
/// is zero, so scores tie and the later ordering keys decide.
fn tuple_scores(chart: &Vec<Node>, tuple: &Vec<usize>) -> (r: (u32, u32, i64))
    requires
        forall|j: int| 0 <= j < tuple@.len() ==> (#[trigger] tuple@[j]) < chart@.len(),
{
    let mut h: u32 = 0;
    let mut nc: u32 = 1;
    let mut pl: i64 = 0;
    let mut i: usize = 0;
    while i < tuple.len()
        invariant
            i <= tuple@.len(),
            forall|j: int| 0 <= j < tuple@.len() ==> (#[trigger] tuple@[j]) < chart@.len(),
            nc <= 10000000,
            pl >= -1000000000 && pl <= 1000000000,
        decreases tuple@.len() - i,
    {
        let n = &chart[tuple[i]];
        if n.height > h {
            h = n.height;
        }
        let add_nc = if n.nodes_count > 1000000 {
            1000000
        } else {
            n.nodes_count
        };
        if nc <= 9000000 {
            nc = nc + add_nc;
        }
        let add_pl = if n.probalog > 100000 {
            100000i64
        } else if n.probalog < -100000 {
            -100000i64
        } else {
            n.probalog
        };
        if pl >= -999000000 && pl <= 999000000 {
            pl = pl + add_pl;
        }
        i = i + 1;
    }
    let hh = if h < 1000000 {
        h + 1
    } else {
        h
    };
    (hh, nc, pl)
}

} // verus!
