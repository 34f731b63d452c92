//! Properties of detection over any listing and any rule set.
use vstd::prelude::*;
use crate::analyzer::{contributes, cut_before, detected, evidence, is_detection_of, reached, visited};
use crate::order::{lemma_lex_order, lex_lt, strictly_sorted};
use crate::catalog::rule_table;
use crate::rules::RuleView;
use crate::traversal::{descends_with, is_hidden, is_nested_repo, signal_with, EntryView};
use crate::MAX_DEPTH;

verus! {

/// Entries in the listing from `j + 1` up to `i` lie below entry `j`.
pub open spec fn inside(s: Seq<EntryView>, j: int, i: int) -> bool {
    0 <= j < i < s.len() && forall|k: int| j < k <= i ==> #[trigger] s[k].depth > s[j].depth
}

proof fn lemma_cut_persists(s: Seq<EntryView>, low: Seq<Seq<char>>, j: int, m: int)
    requires
        0 <= j < m <= s.len(),
        !descends_with(s[j], low[j]),
        forall|k: int| j < k < m ==> #[trigger] s[k].depth > s[j].depth,
    ensures
        s[j].depth > MAX_DEPTH || (cut_before(s, low, m) matches Some(d) && d <= s[j].depth),
    decreases m,
{
    if m > j + 1 {
        lemma_cut_persists(s, low, j, m - 1);
        assert(s[m - 1].depth > s[j].depth);
    }
}

/// Nothing inside a directory that the walk prunes is reached, so nothing
/// there puts a name into the result.
pub proof fn lemma_pruned_subtree_unreached(rules: Seq<RuleView>, s: Seq<EntryView>, low: Seq<Seq<char>>, j: int, i: int)
    requires
        inside(s, j, i),
        !descends_with(s[j], low[j]),
    ensures
        !reached(s, low, i),
        forall|t: Seq<char>| !contributes(rules, s, low, i, t),
{
    lemma_cut_persists(s, low, j, i);
}

/// A `node_modules` directory (by its lowercased name) below the root, not
/// hidden and not another repository, records Node when the walk reaches it,
/// and nothing inside it is visited or counts.
pub proof fn law_node_modules_signal_and_prune(rules: Seq<RuleView>, s: Seq<EntryView>, low: Seq<Seq<char>>, j: int)
    requires
        0 <= j < s.len(),
        s[j].is_dir,
        low[j] == "node_modules"@,
        !is_hidden(s[j]),
        !is_nested_repo(s[j]),
    ensures
        signal_with(s[j], low[j]) == Some("Node"@),
        reached(s, low, j) ==> detected(rules, s, low, "Node"@),
        forall|i: int| #[trigger] inside(s, j, i) ==> !visited(s, low, i) && forall|t: Seq<char>| !contributes(rules, s, low, i, t),
{
    assert("node_modules"@ != "target"@) by {
        reveal_strlit("target");
        reveal_strlit("node_modules");
        assert("node_modules"@.len() != "target"@.len());
    }
    if reached(s, low, j) {
        assert(contributes(rules, s, low, j, "Node"@));
    }
    assert forall|i: int| #[trigger] inside(s, j, i) implies !visited(s, low, i) && forall|t: Seq<char>| !contributes(rules, s, low, i, t) by {
        lemma_pruned_subtree_unreached(rules, s, low, j, i);
    }
}

/// A hidden directory below the root, or a directory below the root that
/// holds a `.git` file, is not visited, records nothing, and nothing inside
/// it is visited or counts.
pub proof fn law_hidden_and_nested_repos_pruned(rules: Seq<RuleView>, s: Seq<EntryView>, low: Seq<Seq<char>>, j: int)
    requires
        0 <= j < s.len(),
        s[j].is_dir,
        is_hidden(s[j]) || is_nested_repo(s[j]),
    ensures
        !visited(s, low, j),
        forall|t: Seq<char>| !contributes(rules, s, low, j, t),
        forall|i: int| #[trigger] inside(s, j, i) ==> !visited(s, low, i) && forall|t: Seq<char>| !contributes(rules, s, low, i, t),
{
    assert forall|i: int| #[trigger] inside(s, j, i) implies !visited(s, low, i) && forall|t: Seq<char>| !contributes(rules, s, low, i, t) by {
        lemma_pruned_subtree_unreached(rules, s, low, j, i);
    }
}

proof fn lemma_no_cut(s: Seq<EntryView>, low: Seq<Seq<char>>, n: int)
    requires
        0 <= n <= s.len(),
        forall|k: int| 0 <= k < n ==> descends_with(#[trigger] s[k], low[k]),
    ensures
        cut_before(s, low, n) is None,
    decreases n,
{
    if n > 0 {
        lemma_no_cut(s, low, n - 1);
    }
}

/// Entries deeper than the bound never count; a file at the bound or above,
/// in a listing where nothing before it is pruned, is visited and every rule
/// that matches it is detected.
pub proof fn law_depth_bound(rules: Seq<RuleView>, s: Seq<EntryView>, low: Seq<Seq<char>>, i: int)
    requires
        0 <= i < s.len(),
    ensures
        s[i].depth > MAX_DEPTH ==> forall|t: Seq<char>| !contributes(rules, s, low, i, t),
        (!s[i].is_dir && s[i].depth <= MAX_DEPTH && forall|k: int| 0 <= k < i ==> descends_with(#[trigger] s[k], low[k]))
            ==> visited(s, low, i) && forall|t: Seq<char>| evidence(rules, s[i], t) ==> detected(rules, s, low, t),
{
    if !s[i].is_dir && s[i].depth <= MAX_DEPTH && forall|k: int| 0 <= k < i ==> descends_with(#[trigger] s[k], low[k]) {
        lemma_no_cut(s, low, i);
        assert forall|t: Seq<char>| evidence(rules, s[i], t) implies detected(rules, s, low, t) by {
            assert(contributes(rules, s, low, i, t));
        }
    }
}

proof fn lemma_sorted_equal(a: Seq<Seq<char>>, b: Seq<Seq<char>>)
    requires
        strictly_sorted(a),
        strictly_sorted(b),
        forall|t: Seq<char>| #[trigger] a.contains(t) <==> b.contains(t),
    ensures
        a == b,
    decreases a.len(),
{
    if a.len() == 0 {
        if b.len() > 0 {
            assert(b.contains(b[0]));
            assert(a.contains(b[0]));
        }
        assert(a =~= b);
    } else {
        assert(a.contains(a[0]));
        assert(b.len() > 0);
        assert(b.contains(b[0]));
        assert(a.contains(b[0]));
        assert(b.contains(a[0]));
        let ia = choose|k: int| 0 <= k < a.len() && a[k] == b[0];
        let ib = choose|k: int| 0 <= k < b.len() && b[k] == a[0];
        lemma_lex_order(a[0], b[0], a[0]);
        if ia > 0 {
            assert(lex_lt(a[0], a[ia]));
        }
        if ib > 0 {
            assert(lex_lt(b[0], b[ib]));
        }
        let a2 = a.drop_first();
        let b2 = b.drop_first();
        assert forall|t: Seq<char>| #[trigger] a2.contains(t) <==> b2.contains(t) by {
            if a2.contains(t) {
                let k = choose|k: int| 0 <= k < a2.len() && a2[k] == t;
                assert(a[k + 1] == t);
                assert(lex_lt(a[0], a[k + 1]));
                lemma_lex_order(t, t, t);
                assert(a.contains(t));
                assert(b.contains(t));
                let q = choose|q: int| 0 <= q < b.len() && b[q] == t;
                if q == 0 {
                    assert(b[0] == a[0]);
                }
                assert(q != 0);
                assert(b2[q - 1] == t);
            }
            if b2.contains(t) {
                let k = choose|k: int| 0 <= k < b2.len() && b2[k] == t;
                assert(b[k + 1] == t);
                assert(lex_lt(b[0], b[k + 1]));
                lemma_lex_order(t, t, t);
                assert(a.contains(t));
                let q = choose|q: int| 0 <= q < a.len() && a[q] == t;
                if q == 0 {
                    assert(b[0] == a[0]);
                }
                assert(q != 0);
                assert(a2[q - 1] == t);
            }
        }
        assert(strictly_sorted(a2)) by {
            assert forall|x: int, y: int| 0 <= x < y < a2.len() implies lex_lt(#[trigger] a2[x], #[trigger] a2[y]) by {
                assert(lex_lt(a[x + 1], a[y + 1]));
            }
        }
        assert(strictly_sorted(b2)) by {
            assert forall|x: int, y: int| 0 <= x < y < b2.len() implies lex_lt(#[trigger] b2[x], #[trigger] b2[y]) by {
                assert(lex_lt(b[x + 1], b[y + 1]));
            }
        }
        lemma_sorted_equal(a2, b2);
        assert(a =~= b) by {
            assert forall|k: int| 0 <= k < a.len() implies a[k] == b[k] by {
                if k > 0 {
                    assert(a[k] == a2[k - 1]);
                    assert(b[k] == b2[k - 1]);
                }
            }
        }
    }
}

/// Detection is repeatable: two results for the same listing and rules are
/// the same sequence, in the same order.
pub proof fn law_detection_repeatable(rules: Seq<RuleView>, s: Seq<EntryView>, low: Seq<Seq<char>>, r1: Seq<Seq<char>>, r2: Seq<Seq<char>>)
    requires
        is_detection_of(rules, s, low, r1),
        is_detection_of(rules, s, low, r2),
    ensures
        r1 == r2,
{
    lemma_sorted_equal(r1, r2);
}

/// A result lists each name at most once.
pub proof fn law_no_duplicates(rules: Seq<RuleView>, s: Seq<EntryView>, low: Seq<Seq<char>>, r: Seq<Seq<char>>)
    requires
        is_detection_of(rules, s, low, r),
    ensures
        r.no_duplicates(),
{
    assert forall|i: int, j: int| 0 <= i < r.len() && 0 <= j < r.len() && i != j implies r[i] != r[j] by {
        lemma_lex_order(r[i], r[j], r[i]);
        if i < j {
            assert(lex_lt(r[i], r[j]));
        } else {
            assert(lex_lt(r[j], r[i]));
        }
    }
}

/// A listing of the root followed by files directly inside it.
pub open spec fn flat_listing(s: Seq<EntryView>) -> bool {
    s.len() >= 1 && s[0].depth == 0 && forall|i: int| 1 <= i < s.len() ==> !(#[trigger] s[i]).is_dir && s[i].depth == 1
}

proof fn lemma_flat_cut(s: Seq<EntryView>, low: Seq<Seq<char>>, i: int)
    requires
        flat_listing(s),
        1 <= i <= s.len(),
    ensures
        cut_before(s, low, i) == if descends_with(s[0], low[0]) { None } else { Some(0nat) },
    decreases i,
{
    if i > 1 {
        lemma_flat_cut(s, low, i - 1);
        assert(!s[i - 1].is_dir && s[i - 1].depth == 1);
    }
}

proof fn lemma_flat_contribution_moves(rules: Seq<RuleView>, s1: Seq<EntryView>, low1: Seq<Seq<char>>, s2: Seq<EntryView>, low2: Seq<Seq<char>>, t: Seq<char>)
    requires
        flat_listing(s1),
        flat_listing(s2),
        s1[0] == s2[0],
        low1[0] == low2[0],
        forall|e: EntryView| #[trigger] s1.drop_first().contains(e) <==> s2.drop_first().contains(e),
        detected(rules, s1, low1, t),
    ensures
        detected(rules, s2, low2, t),
{
    let i = choose|i: int| 0 <= i < s1.len() && #[trigger] contributes(rules, s1, low1, i, t);
    if i == 0 {
        assert(contributes(rules, s2, low2, 0, t));
    } else {
        lemma_flat_cut(s1, low1, i);
        assert(s1.drop_first()[i - 1] == s1[i]);
        assert(s1.drop_first().contains(s1[i]));
        assert(s2.drop_first().contains(s1[i]));
        let j = choose|j: int| 0 <= j < s2.drop_first().len() && s2.drop_first()[j] == s1[i];
        assert(s2[j + 1] == s1[i]);
        lemma_flat_cut(s2, low2, j + 1);
        assert(!s1[i].is_dir && s1[i].depth == 1);
        assert(contributes(rules, s2, low2, j + 1, t));
    }
}

/// For the root and the files directly inside it, the order in which the
/// walk meets the files does not change what is detected.
pub proof fn law_file_order_irrelevant(rules: Seq<RuleView>, s1: Seq<EntryView>, low1: Seq<Seq<char>>, s2: Seq<EntryView>, low2: Seq<Seq<char>>)
    requires
        flat_listing(s1),
        flat_listing(s2),
        s1[0] == s2[0],
        low1[0] == low2[0],
        forall|e: EntryView| #[trigger] s1.drop_first().contains(e) <==> s2.drop_first().contains(e),
    ensures
        forall|t: Seq<char>| detected(rules, s1, low1, t) <==> detected(rules, s2, low2, t),
{
    assert forall|t: Seq<char>| detected(rules, s1, low1, t) <==> detected(rules, s2, low2, t) by {
        if detected(rules, s1, low1, t) {
            lemma_flat_contribution_moves(rules, s1, low1, s2, low2, t);
        }
        if detected(rules, s2, low2, t) {
            lemma_flat_contribution_moves(rules, s2, low2, s1, low1, t);
        }
    }
}

/// With the catalog's rules, wherever in a listing the walk visits files
/// named `Cargo.toml`, `package.json` and `go.mod`, in whatever order, Rust,
/// Node and Go are all detected.
pub proof fn law_markers_detected(s: Seq<EntryView>, low: Seq<Seq<char>>, a: int, b: int, c: int)
    requires
        0 <= a < s.len() && visited(s, low, a) && !s[a].is_dir && s[a].name == "Cargo.toml"@,
        0 <= b < s.len() && visited(s, low, b) && !s[b].is_dir && s[b].name == "package.json"@,
        0 <= c < s.len() && visited(s, low, c) && !s[c].is_dir && s[c].name == "go.mod"@,
    ensures
        detected(rule_table(), s, low, "Rust"@),
        detected(rule_table(), s, low, "Node"@),
        detected(rule_table(), s, low, "Go"@),
{
    let rules = rule_table();
    assert(rules[0].files[0] == "Cargo.toml"@);
    assert(rules[0].matches(s[a].name, s[a].rel_path, s[a].is_dir));
    assert(contributes(rules, s, low, a, "Rust"@));
    assert(rules[3].files[0] == "package.json"@);
    assert(rules[3].matches(s[b].name, s[b].rel_path, s[b].is_dir));
    assert(contributes(rules, s, low, b, "Node"@));
    assert(rules[1].files[0] == "go.mod"@);
    assert(rules[1].matches(s[c].name, s[c].rel_path, s[c].is_dir));
    assert(contributes(rules, s, low, c, "Go"@));
}

} // verus!
