//! Detection over a walk: which entries are visited, which directories are
//! pruned, and the sorted set of technology names that results.
use vstd::prelude::*;
use crate::catalog::{detection_rules, rule_table};
use crate::detected::DetectedSet;
use crate::order::strictly_sorted;
use crate::rules::{matches_rule, texts, DetectionRule, RuleView};
use crate::casefold::{lower_of, lowercase};
use crate::traversal::{decide, descends_with, signal_with, Decision, Entry, EntryView};
use crate::MAX_DEPTH;

verus! {

pub open spec fn views(s: Seq<Entry>) -> Seq<EntryView> {
    s.map_values(|e: Entry| e@)
}

pub open spec fn rule_views(v: Seq<DetectionRule>) -> Seq<RuleView> {
    v.map_values(|r: DetectionRule| r@)
}

/// The names of the entries as `str::to_lowercase` lowers them.
pub open spec fn lowered(s: Seq<EntryView>) -> Seq<Seq<char>> {
    s.map_values(|e: EntryView| lower_of(e.name))
}

/// The depth of the directory whose subtree the walk is skipping when it
/// meets entry `n` of the listing `s` (entries in walk order; `low` holds
/// their lowercased names), if any.
pub open spec fn cut_before(s: Seq<EntryView>, low: Seq<Seq<char>>, n: int) -> Option<nat>
    decreases n,
{
    if n <= 0 {
        None
    } else {
        let c = cut_before(s, low, n - 1);
        let e = s[n - 1];
        if c matches Some(d) && e.depth > d {
            c
        } else if e.depth <= MAX_DEPTH && !descends_with(e, low[n - 1]) {
            Some(e.depth)
        } else {
            None
        }
    }
}

/// The walk meets entry `i` and applies the directory filter to it: it is
/// within the depth bound and not inside a pruned directory.
pub open spec fn reached(s: Seq<EntryView>, low: Seq<Seq<char>>, i: int) -> bool {
    s[i].depth <= MAX_DEPTH && !(cut_before(s, low, i) matches Some(d) && s[i].depth > d)
}

/// The walk visits entry `i`: it is reached and passes the filter.
pub open spec fn visited(s: Seq<EntryView>, low: Seq<Seq<char>>, i: int) -> bool {
    reached(s, low, i) && descends_with(s[i], low[i])
}

/// Some rule named `t` matches the entry.
pub open spec fn evidence(rules: Seq<RuleView>, e: EntryView, t: Seq<char>) -> bool {
    exists|k: int|
        0 <= k < rules.len() && (#[trigger] rules[k]).name == t && rules[k].matches(
            e.name,
            e.rel_path,
            e.is_dir,
        )
}

/// Entry `i` puts `t` into the result: a visited entry that some rule named
/// `t` matches, or a reached directory pruned with signal `t`.
pub open spec fn contributes(rules: Seq<RuleView>, s: Seq<EntryView>, low: Seq<Seq<char>>, i: int, t: Seq<char>) -> bool {
    (visited(s, low, i) && evidence(rules, s[i], t)) || (reached(s, low, i) && signal_with(s[i], low[i]) == Some(t))
}

/// Some entry among the first `n` puts `t` into the result.
pub open spec fn found_within(rules: Seq<RuleView>, s: Seq<EntryView>, low: Seq<Seq<char>>, n: int, t: Seq<char>) -> bool {
    exists|i: int| 0 <= i < n && #[trigger] contributes(rules, s, low, i, t)
}

/// `t` is detected in the listing `s`.
pub open spec fn detected(rules: Seq<RuleView>, s: Seq<EntryView>, low: Seq<Seq<char>>, t: Seq<char>) -> bool {
    found_within(rules, s, low, s.len() as int, t)
}

/// `r` is the result of detection on `s`: the detected names, ascending,
/// each once.
pub open spec fn is_detection_of(rules: Seq<RuleView>, s: Seq<EntryView>, low: Seq<Seq<char>>, r: Seq<Seq<char>>) -> bool {
    strictly_sorted(r) && forall|t: Seq<char>| #[trigger] r.contains(t) <==> detected(rules, s, low, t)
}

/// Detection over the entries of a walk, in the order the walk yields them
/// (each directory before its contents), given the entries' lowercased names.
/// Entries below the depth bound and entries inside a pruned directory are
/// passed over, so a listing from which pruned subtrees were left out gives
/// the same result.
pub fn analyze_lowered(rules: &Vec<DetectionRule>, entries: &Vec<Entry>, lower_names: &Vec<String>) -> (r: Vec<String>)
    requires
        lower_names@.len() == entries@.len(),
    ensures
        is_detection_of(rule_views(rules@), views(entries@), texts(lower_names@), texts(r@)),
{
    let ghost rs = rule_views(rules@);
    let ghost s = views(entries@);
    let ghost low = texts(lower_names@);
    let mut found = DetectedSet::new();
    let mut cut: Option<usize> = None;
    let mut i: usize = 0;
    while i < entries.len()
        invariant
            i <= entries@.len(),
            lower_names@.len() == entries@.len(),
            rs == rule_views(rules@),
            s == views(entries@),
            low == texts(lower_names@),
            found.wf(),
            cut matches Some(d) ==> cut_before(s, low, i as int) == Some(d as nat),
            cut is None ==> cut_before(s, low, i as int) is None,
            forall|t: Seq<char>| #[trigger] found@.contains(t) <==> found_within(rs, s, low, i as int, t),
        decreases entries@.len() - i,
    {
        let e = &entries[i];
        assert(s[i as int] == e@);
        assert(low[i as int] == lower_names@[i as int]@);
        let skipped = match cut {
            Some(d) => e.depth > d,
            None => false,
        };
        if skipped {
            assert forall|t: Seq<char>| !contributes(rs, s, low, i as int, t) by {}
        } else if e.depth > MAX_DEPTH {
            cut = None;
            assert forall|t: Seq<char>| !contributes(rs, s, low, i as int, t) by {}
        } else {
            match decide(e, lower_names[i].as_str()) {
                Decision::Descend => {
                    let mut k: usize = 0;
                    while k < rules.len()
                        invariant
                            i < entries@.len(),
                            k <= rules@.len(),
                            rs == rule_views(rules@),
                            s == views(entries@),
                            s[i as int] == e@,
                            visited(s, low, i as int),
                            found.wf(),
                            forall|t: Seq<char>| #[trigger] found@.contains(t) <==> (found_within(rs, s, low, i as int, t)
                                || exists|q: int| 0 <= q < k && (#[trigger] rs[q]).name == t && rs[q].matches(
                                    e@.name,
                                    e@.rel_path,
                                    e@.is_dir,
                                )),
                        decreases rules@.len() - k,
                    {
                        let rule = &rules[k];
                        assert(rs[k as int] == rule@);
                        if matches_rule(rule, e.name.as_str(), e.rel_path.as_str(), e.is_dir) {
                            found.insert(rule.name.as_str());
                        }
                        k = k + 1;
                    }
                    cut = None;
                },
                Decision::PruneWithSignal(t) => {
                    found.insert(t.as_str());
                    cut = Some(e.depth);
                },
                Decision::PruneSilently => {
                    cut = Some(e.depth);
                },
            }
        }
        assert forall|t: Seq<char>| #[trigger] found@.contains(t) <==> found_within(rs, s, low, i + 1, t) by {
            if found_within(rs, s, low, i + 1, t) && !contributes(rs, s, low, i as int, t) {
                let j = choose|j: int| 0 <= j < i + 1 && #[trigger] contributes(rs, s, low, j, t);
                assert(found_within(rs, s, low, i as int, t));
            }
            if found_within(rs, s, low, i as int, t) {
                let j = choose|j: int| 0 <= j < i && #[trigger] contributes(rs, s, low, j, t);
                assert(contributes(rs, s, low, j, t));
            }
            if contributes(rs, s, low, i as int, t) {
                assert(found_within(rs, s, low, i + 1, t));
            }
        }
        i = i + 1;
    }
    assert(s.len() == entries@.len());
    found.into_sorted()
}

/// Detection over the entries of a walk, in the order the walk yields them,
/// with names lowercased as `str::to_lowercase` does.
pub fn analyze_with(rules: &Vec<DetectionRule>, entries: &Vec<Entry>) -> (r: Vec<String>)
    ensures
        is_detection_of(rule_views(rules@), views(entries@), lowered(views(entries@)), texts(r@)),
{
    let mut lower_names: Vec<String> = Vec::new();
    let mut i: usize = 0;
    while i < entries.len()
        invariant
            i <= entries@.len(),
            lower_names@.len() == i,
            forall|j: int| 0 <= j < i ==> lower_names@[j]@ == lower_of(entries@[j].name@),
        decreases entries@.len() - i,
    {
        lower_names.push(lowercase(entries[i].name.as_str()));
        i = i + 1;
    }
    assert(texts(lower_names@) =~= lowered(views(entries@)));
    analyze_lowered(rules, entries, &lower_names)
}

/// Detection over the entries of a walk with the catalog's rules.
pub fn analyze_entries(entries: &Vec<Entry>) -> (r: Vec<String>)
    ensures
        is_detection_of(rule_table(), views(entries@), lowered(views(entries@)), texts(r@)),
{
    let rules = detection_rules();
    analyze_with(&rules, entries)
}

} // verus!
