//! Detection rules and the matcher that tests one walked entry against one rule.
use vstd::prelude::*;
use crate::text::{ends_with_text, find_last, has_char, is_suffix, last_index_of, same_text};

verus! {

/// Evidence for one technology: exact file names or relative paths, file
/// extensions (without the dot), and directory names or relative paths.
pub struct DetectionRule {
    pub name: String,
    pub files: Vec<String>,
    pub extensions: Vec<String>,
    pub directories: Vec<String>,
}

/// The mathematical value of a [`DetectionRule`].
pub struct RuleView {
    pub name: Seq<char>,
    pub files: Seq<Seq<char>>,
    pub extensions: Seq<Seq<char>>,
    pub directories: Seq<Seq<char>>,
}

pub open spec fn texts(v: Seq<String>) -> Seq<Seq<char>> {
    v.map_values(|s: String| s@)
}

impl View for DetectionRule {
    type V = RuleView;

    open spec fn view(&self) -> RuleView {
        RuleView {
            name: self.name@,
            files: texts(self.files@),
            extensions: texts(self.extensions@),
            directories: texts(self.directories@),
        }
    }
}

/// A pattern holding a `/` is a relative path, matched as a suffix of the
/// entry's path; any pattern also matches an entry of exactly that name.
pub open spec fn pattern_hit(pats: Seq<Seq<char>>, name: Seq<char>, rel_path: Seq<char>) -> bool {
    pats.contains(name) || exists|i: int|
        0 <= i < pats.len() && (#[trigger] pats[i]).contains('/') && is_suffix(pats[i], rel_path)
}

/// What follows the last `.` of a file name.
pub open spec fn extension_of(name: Seq<char>) -> Seq<char> {
    name.subrange(last_index_of(name, '.') + 1, name.len() as int)
}

impl RuleView {
    /// Whether an entry with this name and relative path is evidence for the
    /// rule: directories by name or path, files by name, path or extension.
    pub open spec fn matches(self, name: Seq<char>, rel_path: Seq<char>, is_dir: bool) -> bool {
        if is_dir {
            pattern_hit(self.directories, name, rel_path)
        } else {
            pattern_hit(self.files, name, rel_path) || (name.contains('.')
                && self.extensions.contains(extension_of(name)))
        }
    }
}

/// Whether `v` holds a string equal to `s`.
fn holds_text(v: &Vec<String>, s: &str) -> (r: bool)
    ensures
        r == texts(v@).contains(s@),
{
    let mut i: usize = 0;
    while i < v.len()
        invariant
            i <= v@.len(),
            forall|j: int| 0 <= j < i ==> v@[j]@ != s@,
        decreases v@.len() - i,
    {
        if same_text(v[i].as_str(), s) {
            assert(texts(v@)[i as int] == s@);
            return true;
        }
        i = i + 1;
    }
    assert(!texts(v@).contains(s@)) by {
        if texts(v@).contains(s@) {
            let j = choose|j: int| 0 <= j < texts(v@).len() && texts(v@)[j] == s@;
            assert(v@[j]@ == s@);
        }
    }
    false
}

/// Whether some pattern of `pats` that holds a `/` is a suffix of `rel_path`.
fn path_hit(pats: &Vec<String>, rel_path: &str) -> (r: bool)
    ensures
        r == exists|i: int|
            0 <= i < texts(pats@).len() && (#[trigger] texts(pats@)[i]).contains('/') && is_suffix(
                texts(pats@)[i],
                rel_path@,
            ),
{
    let mut i: usize = 0;
    while i < pats.len()
        invariant
            i <= pats@.len(),
            forall|j: int|
                0 <= j < i ==> !((#[trigger] texts(pats@)[j]).contains('/') && is_suffix(
                    texts(pats@)[j],
                    rel_path@,
                )),
        decreases pats@.len() - i,
    {
        let p = pats[i].as_str();
        if has_char(p, '/') && ends_with_text(rel_path, p) {
            assert(texts(pats@)[i as int] == p@);
            return true;
        }
        assert(texts(pats@)[i as int] == p@);
        i = i + 1;
    }
    false
}

/// Tests one walked entry (its name, its path relative to the scan root with
/// `/` as separator, and whether it is a directory) against one rule.
pub fn matches_rule(rule: &DetectionRule, name: &str, rel_path: &str, is_dir: bool) -> (r: bool)
    ensures
        r == rule@.matches(name@, rel_path@, is_dir),
{
    if is_dir {
        holds_text(&rule.directories, name) || path_hit(&rule.directories, rel_path)
    } else {
        if holds_text(&rule.files, name) || path_hit(&rule.files, rel_path) {
            return true;
        }
        let n = name.unicode_len();
        match find_last(name, '.') {
            None => {
                proof { crate::text::lemma_last_index_of(name@, '.'); }
                false
            },
            Some(k) => {
                proof { crate::text::lemma_last_index_of(name@, '.'); }
                let ext = name.substring_char(k + 1, n);
                assert(ext@ == extension_of(name@));
                holds_text(&rule.extensions, ext)
            },
        }
    }
}

} // verus!
