//! Regex terminals: the bridge to the regex engine, and verified slicing of
//! capture groups out of the sentence.

use vstd::prelude::*;
use crate::values::RuleError;

verus! {

#[verifier::external_type_specification]
#[verifier::external_body]
pub struct ExRegex(regex::bytes::Regex);

/// One match of a pattern: the matched span and each capture group's span.
pub struct RawMatch {
    pub start: usize,
    pub end: usize,
    pub groups: Vec<Option<(usize, usize)>>,
}

/// Relies on regex::bytes::Regex::new: compiles the pattern, or reports
/// that it is invalid.
#[verifier::external_body]
pub fn regex_compile(pattern: &str) -> (r: Option<regex::bytes::Regex>) {
    regex::bytes::Regex::new(pattern).ok()
}

/// Relies on regex::bytes::Regex::captures_iter: successive non-overlapping
/// matches, with each capture group's offsets; all offsets index the
/// haystack, and every group lies within its match.
#[verifier::external_body]
pub fn regex_captures(re: &regex::bytes::Regex, text: &[u8]) -> (out: Vec<RawMatch>)
    ensures
        forall|i: int|
            0 <= i < out@.len() ==> (#[trigger] out@[i]).start <= out@[i].end && out@[i].end
                <= text@.len(),
        forall|i: int, j: int|
            0 <= i < out@.len() && 0 <= j < out@[i].groups@.len() ==> ((#[trigger] out@[
            i].groups@[j]) matches Some(g) ==> out@[i].start <= g.0 && g.0 <= g.1 && g.1 <= out@[
            i].end),
{
    re.captures_iter(text)
        .map(
            |c|
                RawMatch {
                    start: c.get(0).map(|m| m.start()).unwrap_or(0),
                    end: c.get(0).map(|m| m.end()).unwrap_or(0),
                    groups: c.iter().map(|g| g.map(|m| (m.start(), m.end()))).collect(),
                },
        )
        .collect()
}

/// Copy a subrange of the sentence out as owned bytes.
pub fn slice_bytes(text: &[u8], lo: usize, hi: usize) -> (r: Vec<u8>)
    requires
        lo <= hi <= text@.len(),
    ensures
        r@ == text@.subrange(lo as int, hi as int),
{
    let mut out: Vec<u8> = Vec::new();
    let mut i: usize = lo;
    while i < hi
        invariant
            lo <= i <= hi <= text@.len(),
            out@ == text@.subrange(lo as int, i as int),
        decreases hi - i,
    {
        out.push(text[i]);
        proof {
            assert(out@ =~= text@.subrange(lo as int, i + 1));
        }
        i = i + 1;
    }
    out
}

/// The texts of each capture group of each match of a pattern in a
/// sentence.
pub struct RegexMatch {
    pub groups: Vec<Option<Vec<u8>>>,
}

/// Whether a group-text list copies a span list out of the sentence: one
/// entry per span, unmatched groups kept unmatched, and each text exactly
/// the sentence bytes of its span.
pub open spec fn groups_copied(
    texts: Seq<Option<Vec<u8>>>,
    spans: Seq<Option<(usize, usize)>>,
    sentence: Seq<u8>,
) -> bool {
    &&& texts.len() == spans.len()
    &&& forall|j: int|
        0 <= j < spans.len() ==> (match (#[trigger] spans[j], texts[j]) {
            (Some(g), Some(s)) => s@ == sentence.subrange(g.0 as int, g.1 as int),
            (None, None) => true,
            _ => false,
        })
}

/// The texts of one match's capture groups, copied out of the sentence.
pub fn group_texts(m: &RawMatch, sentence: &[u8]) -> (r: Vec<Option<Vec<u8>>>)
    requires
        forall|j: int|
            0 <= j < m.groups@.len() ==> ((#[trigger] m.groups@[j]) matches Some(g) ==> g.0 <= g.1
                && g.1 <= sentence@.len()),
    ensures
        groups_copied(r@, m.groups@, sentence@),
{
    let mut groups: Vec<Option<Vec<u8>>> = Vec::new();
    let mut j: usize = 0;
    while j < m.groups.len()
        invariant
            j <= m.groups@.len(),
            groups@.len() == j,
            forall|jj: int|
                0 <= jj < m.groups@.len() ==> ((#[trigger] m.groups@[jj]) matches Some(g) ==> g.0
                    <= g.1 && g.1 <= sentence@.len()),
            forall|jj: int|
                0 <= jj < j ==> (match (#[trigger] m.groups@[jj], groups@[jj]) {
                    (Some(g), Some(s)) => s@ == sentence@.subrange(g.0 as int, g.1 as int),
                    (None, None) => true,
                    _ => false,
                }),
        decreases m.groups@.len() - j,
    {
        match m.groups[j] {
            Some((lo, hi)) => {
                let s = slice_bytes(sentence, lo, hi);
                groups.push(Some(s));
            },
            None => {
                groups.push(None);
            },
        }
        j = j + 1;
    }
    groups
}

/// All matches of a pattern, with each group's text copied verbatim from
/// the sentence: one result per match, group for group.
pub fn find_regex_group(regex: &regex::bytes::Regex, sentence: &[u8]) -> (r: Result<
    Vec<RegexMatch>,
    RuleError,
>)
    ensures
        r matches Ok(ms) ==> forall|i: int, j: int|
            0 <= i < ms@.len() && 0 <= j < ms@[i].groups@.len() ==> ((#[trigger] ms@[i].groups@[j])
                matches Some(s) ==> (exists|lo: int, hi: int|
                0 <= lo <= hi <= sentence@.len() && s@ == sentence@.subrange(lo, hi))),
{
    let raw = regex_captures(regex, sentence);
    let mut out: Vec<RegexMatch> = Vec::new();
    let mut i: usize = 0;
    while i < raw.len()
        invariant
            i <= raw@.len(),
            forall|k: int|
                0 <= k < raw@.len() ==> (#[trigger] raw@[k]).start <= raw@[k].end && raw@[k].end
                    <= sentence@.len(),
            forall|k: int, j: int|
                0 <= k < raw@.len() && 0 <= j < raw@[k].groups@.len() ==> ((#[trigger] raw@[
                k].groups@[j]) matches Some(g) ==> raw@[k].start <= g.0 && g.0 <= g.1 && g.1
                    <= raw@[k].end),
            out@.len() == i,
            forall|k: int|
                0 <= k < out@.len() ==> groups_copied(
                    (#[trigger] out@[k]).groups@,
                    raw@[k].groups@,
                    sentence@,
                ),
        decreases raw@.len() - i,
    {
        let m = &raw[i];
        let groups = group_texts(m, sentence);
        out.push(RegexMatch { groups });
        i = i + 1;
    }
    proof {
        assert forall|k: int, j: int|
            0 <= k < out@.len() && 0 <= j < out@[k].groups@.len() && (#[trigger] out@[k].groups@[j])
                is Some implies (exists|lo: int, hi: int|
            0 <= lo <= hi <= sentence@.len() && out@[k].groups@[j]->0@ == sentence@.subrange(
                lo,
                hi,
            )) by {
            assert(groups_copied(out@[k].groups@, raw@[k].groups@, sentence@));
            match raw@[k].groups@[j] {
                Some(g) => {
                    assert(out@[k].groups@[j]->0@ == sentence@.subrange(g.0 as int, g.1 as int));
                },
                None => {
                    assert(false);
                },
            }
        }
    }
    Ok(out)
}

} // verus!
